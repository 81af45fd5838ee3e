use friday::flow::Output;
use friday::tools::call::{Answer, Ask};
use friday::tools::k8s::{
    filter_pods, k8s_find_pods_tool_def, parse_pods_output, FindPodsHandler, PodsStage,
};
use friday::tools::output::{RiskLevel, ToolCategory, ToolOutput};

const SAMPLE: &str = "NAME                    NS        STATUS    CONTAINERS      NODE\n\
                      snmpagent-7d9b-x2vkl    default   Running   app,sidecar     node-1\n\
                      oomservice-5c8d-p9qrs   oms       Running   oomservice      node-2\n\
                      bad-line                only-three-columns\n";

#[test]
fn test_parse_skips_header_and_malformed() {
    let pods = parse_pods_output(SAMPLE);
    assert_eq!(pods.len(), 2);
    assert_eq!(pods[0].name, "snmpagent-7d9b-x2vkl");
    assert_eq!(pods[0].namespace, "default");
    assert_eq!(pods[0].status, "Running");
    assert_eq!(pods[0].containers, vec!["app".to_string(), "sidecar".to_string()]);
    assert_eq!(pods[0].node, "node-1");
    assert_eq!(pods[1].name, "oomservice-5c8d-p9qrs");
    assert_eq!(pods[1].node, "node-2");
}

#[test]
fn test_filter_case_insensitive_contains() {
    let pods = parse_pods_output(SAMPLE);
    let hit = filter_pods(pods.clone(), Some("SNMPAgent"));
    assert_eq!(hit.len(), 1);
    assert_eq!(hit[0].name, "snmpagent-7d9b-x2vkl");
    assert_eq!(filter_pods(pods.clone(), None).len(), 2);
    assert_eq!(filter_pods(pods, Some("  ")).len(), 2);
}

/// A host whose `kubectl` ends in a given way.
fn find_pods(args: &str, exit_code: i32, stderr: &str) -> ToolOutput {
    let args: serde_json::Value = serde_json::from_str(args).unwrap();
    let mut call = FindPodsHandler::execute(&args);
    loop {
        if let PodsStage::Ended { outcome } = call.stage {
            return outcome.render();
        }
        let answer = match call.request() {
            Ask::Resolve { pod, namespace, container, .. } => {
                assert_eq!((pod, namespace, container), (None, None, None));
                Answer::Resolved { resolved: Ok(Some("env-1".to_string())) }
            },
            Ask::Run { cmd, .. } => {
                assert!(cmd.starts_with("kubectl get pods"), "must run kubectl on host: {cmd}");
                let out =
                    Output { stdout: SAMPLE.to_string(), stderr: stderr.to_string(), exit_code };
                Answer::Ran { ran: Ok(out), elapsed_ms: 7 }
            },
            other => panic!("not expected: {other:?}"),
        };
        call = call.step(answer);
    }
}

#[test]
fn test_find_pods_filters_and_structures() {
    let out = find_pods(r#"{"environment": "prod", "pattern": "snmpagent"}"#, 0, "");
    assert!(out.success, "out: {}", out.data);
    assert_eq!(out.data["count"], 1);
    let pod = &out.data["pods"][0];
    assert_eq!(pod["name"], "snmpagent-7d9b-x2vkl");
    assert_eq!(pod["namespace"], "default");
    assert_eq!(pod["status"], "Running");
    assert_eq!(pod["containers"], serde_json::Value::from(vec!["app", "sidecar"]));
    assert_eq!(pod["node"], "node-1");
    assert!(out.raw_stdout.unwrap().contains("oomservice-5c8d-p9qrs"));
}

#[test]
fn test_no_kubectl_reports_not_k8s_environment() {
    let out = find_pods(r#"{"environment": "prod"}"#, 127, "bash: kubectl: command not found");
    assert!(!out.success);
    assert_eq!(out.data["error"], "not_k8s_environment");
    assert!(out.data["message"].as_str().unwrap().contains("list_processes"));
}

#[test]
fn test_kubectl_error_passthrough() {
    let out = find_pods(r#"{"environment": "prod"}"#, 1, "error: server unauthorized");
    assert!(!out.success);
    assert_eq!(out.data["error"], "kubectl_error");
    assert!(out.data["message"].as_str().unwrap().contains("unauthorized"));
}

#[test]
fn k8s_test_tool_def_metadata() {
    let def = k8s_find_pods_tool_def();
    assert_eq!(def.name, "k8s_find_pods");
    assert_eq!(def.risk_level, RiskLevel::ReadOnly);
    assert_eq!(def.category, ToolCategory::K8s);
    assert!(!def.needs_channel);
    assert!(def.input_schema["properties"]["pattern"].is_object());
}

#[test]
fn a_missing_program_is_seen_in_what_the_shell_says() {
    let out = find_pods(r#"{"environment": "prod"}"#, 1, "executable file not found in $PATH");
    assert_eq!(out.data["error"], "not_k8s_environment");
}

#[test]
fn letters_beyond_ascii_are_compared_without_case() {
    let pods = parse_pods_output("NAME NS STATUS CONTAINERS NODE\nÄpfel ns Running a n1\n");
    assert_eq!(filter_pods(pods, Some("äPFEL")).len(), 1);
}
