use friday::exec::k8s::K8sChannel;
use friday::flow::{Action, Output};
use friday::tools::call::{Answer, Ask};
use friday::tools::output::{RiskLevel, ToolCategory, ToolOutput};
use friday::tools::processes::{list_processes_tool_def, ListProcessesHandler, ProcessesStage};

const PS_OUTPUT: &str = "  1234 root /opt/jdk/bin/java -Xmx4g -jar oomservice.jar\n  5678 root /usr/bin/python3 script.py\n  9999 app nginx: worker process\n";

/// An environment named `prod` and a channel that answers every command alike.
struct Core {
    stdout: &'static str,
    small_ps: bool,
    container: bool,
    calls: Vec<String>,
    reached: Option<(Option<String>, Option<String>, Option<String>)>,
}

impl Core {
    fn vm(stdout: &'static str) -> Core {
        Core { stdout, small_ps: false, container: false, calls: Vec::new(), reached: None }
    }

    fn answer(&mut self, ask: Ask<String>) -> Answer<String> {
        match ask {
            Ask::Resolve { environment, pod, namespace, container } => {
                self.reached = Some((pod, namespace, container));
                let found = if environment == "prod" { Some("env-1".to_string()) } else { None };
                Answer::Resolved { resolved: Ok(found) }
            },
            Ask::CheckTarget { pod, .. } => {
                let checked =
                    if pod.is_some() == self.container { Ok(()) } else { Err("mismatch".to_string()) };
                Answer::Checked { checked }
            },
            Ask::Run { cmd, .. } => {
                let cmd = match &self.reached {
                    Some((Some(pod), namespace, container)) => {
                        let channel = K8sChannel {
                            pod: pod.clone(),
                            namespace: namespace.clone(),
                            container: container.clone(),
                        };
                        match channel.run(&cmd) {
                            Action::Run { cmd, .. } => cmd,
                            other => panic!("not expected: {other:?}"),
                        }
                    },
                    _ => cmd,
                };
                let refused = self.small_ps && cmd.contains("ps -eo");
                self.calls.push(cmd);
                if refused {
                    let stderr = "ps: unrecognized option: e\n".to_string();
                    let out = Output { stdout: String::new(), stderr, exit_code: 1 };
                    return Answer::Ran { ran: Ok(out), elapsed_ms: 7 };
                }
                let out =
                    Output { stdout: self.stdout.to_string(), stderr: String::new(), exit_code: 0 };
                Answer::Ran { ran: Ok(out), elapsed_ms: 5 }
            },
            other => panic!("not expected: {other:?}"),
        }
    }

    fn execute(&mut self, args: &str) -> ToolOutput {
        let args: serde_json::Value = serde_json::from_str(args).unwrap();
        let mut call = ListProcessesHandler::execute(&args);
        loop {
            if let ProcessesStage::Ended { outcome } = call.stage {
                return outcome.render();
            }
            let answer = self.answer(call.request());
            call = call.step(answer);
        }
    }
}

#[test]
fn test_keyword_filters_and_quotes_command() {
    let mut core = Core::vm(PS_OUTPUT);
    let out = core.execute(r#"{"environment": "prod", "keyword": "OOMService"}"#);
    assert!(out.success);
    assert_eq!(out.data["count"], 1);
    assert!(out.data["processes"].as_str().unwrap().contains("1234"));
    assert!(!out.data["processes"].as_str().unwrap().contains("python"));
    assert!(core.calls[0].contains("grep -i 'OOMService'"), "cmd: {}", core.calls[0]);
    assert!(core.calls[0].contains("grep -v grep"));
}

#[test]
fn test_keyword_injection_quoted() {
    let mut core = Core::vm("");
    core.execute(r#"{"environment": "prod", "keyword": "x'; rm -rf /; echo '"}"#);
    assert!(
        core.calls[0].contains(r"grep -i 'x'\''; rm -rf /; echo '\''"),
        "cmd: {}",
        core.calls[0]
    );
}

#[test]
fn test_no_keyword_returns_all_processes() {
    let mut core = Core::vm(PS_OUTPUT);
    let out = core.execute(r#"{"environment": "prod"}"#);
    assert!(out.success);
    assert_eq!(out.data["count"], 3);
    assert_eq!(core.calls[0], "ps -eo pid=,user=,args=");
}

#[test]
fn test_empty_keyword_returns_all_processes() {
    let mut core = Core::vm(PS_OUTPUT);
    let out = core.execute(r#"{"environment": "prod", "keyword": ""}"#);
    assert!(out.success);
    assert_eq!(out.data["count"], 3);
    assert_eq!(core.calls[0], "ps -eo pid=,user=,args=");
}

#[test]
fn test_no_match_returns_empty() {
    let mut core = Core::vm(PS_OUTPUT);
    let out = core.execute(r#"{"environment": "prod", "keyword": "nonexistent-svc"}"#);
    assert!(out.success);
    assert_eq!(out.data["count"], 0);
    assert_eq!(out.data["processes"], "");
}

#[test]
fn test_missing_environment_param() {
    let mut core = Core::vm(PS_OUTPUT);
    let out = core.execute("{}");
    assert!(!out.success);
    assert_eq!(out.data["error"], "invalid_params");
}

#[test]
fn test_unknown_environment_guides_agent() {
    let mut core = Core::vm(PS_OUTPUT);
    let out = core.execute(r#"{"environment": "nope"}"#);
    assert!(!out.success);
    assert_eq!(out.data["error"], "environment_not_found");
    assert!(out.data["message"].as_str().unwrap().contains("list_environments"));
}

#[test]
fn test_vm_env_rejects_pod_param() {
    let mut core = Core::vm(PS_OUTPUT);
    let out = core.execute(r#"{"environment": "prod", "pod": "pod-1"}"#);
    assert!(!out.success, "out: {}", out.data);
    assert_eq!(out.data["error"], "environment_type_mismatch");
    assert!(core.calls.is_empty());
}

#[test]
fn test_pod_param_routes_through_k8s_channel() {
    let mut core = Core { container: true, ..Core::vm(PS_OUTPUT) };
    let out = core.execute(r#"{"environment": "prod", "pod": "pod-1", "namespace": "ns1"}"#);
    assert!(out.success, "out: {}", out.data);
    assert_eq!(core.reached, Some((Some("pod-1".to_string()), Some("ns1".to_string()), None)));
    assert!(core.calls[0].starts_with("kubectl exec "), "cmd: {}", core.calls[0]);
    assert!(core.calls[0].contains("'pod-1'"), "cmd: {}", core.calls[0]);
    assert!(core.calls[0].contains("-n 'ns1'"), "cmd: {}", core.calls[0]);
    assert!(core.calls[0].contains("ps -eo pid=,user=,args="), "cmd: {}", core.calls[0]);
}

#[test]
fn processes_test_tool_def_metadata() {
    let def = list_processes_tool_def();
    assert_eq!(def.name, "list_processes");
    assert_eq!(def.risk_level, RiskLevel::ReadOnly);
    assert_eq!(def.category, ToolCategory::Environment);
    assert!(!def.needs_channel);
    assert!(def.input_schema["properties"]["keyword"].is_object());
}

#[test]
fn a_timeout_drops_the_connection_and_is_reported() {
    let args: serde_json::Value =
        serde_json::from_str(r#"{"environment": "prod", "timeout_secs": 500}"#).unwrap();
    let call = ListProcessesHandler::execute(&args)
        .step(Answer::Resolved { resolved: Ok(Some("env-1".to_string())) })
        .step(Answer::Checked { checked: Ok(()) });
    assert_eq!(
        call.request(),
        Ask::Run { cmd: "ps -eo pid=,user=,args=".to_string(), secs: Some(120) }
    );
    let call = call.step(Answer::TimedOut);
    assert_eq!(call.request(), Ask::DropAndKill { cmd: "ps -eo pid=,user=,args=".to_string() });
    let call = call.step(Answer::Done);
    assert_eq!(call.request(), Ask::Finished);
    match call.stage {
        ProcessesStage::Ended { outcome } => {
            let out = outcome.render();
            assert_eq!(out.data["error"], "timeout_error");
            assert_eq!(out.data["message"], "command timed out after 120s");
        },
        other => panic!("not ended: {other:?}"),
    }
}

#[test]
fn the_answer_tells_of_the_command() {
    let mut core = Core::vm(PS_OUTPUT);
    let out = core.execute(r#"{"environment": "prod", "keyword": "NGINX"}"#);
    assert_eq!(
        out.data["command"],
        "ps -eo pid=,user=,args= | grep -i 'NGINX' | grep -v grep"
    );
    assert_eq!(out.data["processes"], "  9999 app nginx: worker process");
    assert_eq!(out.data["exit_code"], 0);
    assert_eq!(out.data["elapsed_ms"], 5);
    assert_eq!(out.raw_stdout.as_deref(), Some(PS_OUTPUT));
}

const SMALL_PS_OUTPUT: &str = "PID   USER     COMMAND\n    1 root     java -jar user-service.jar\n    9 root     sh\n";

#[test]
fn a_small_ps_in_a_container_is_asked_for_less() {
    let mut core = Core { container: true, small_ps: true, ..Core::vm(SMALL_PS_OUTPUT) };
    let out = core.execute(r#"{"environment": "prod", "pod": "pod-1", "namespace": "ns1"}"#);
    assert!(out.success, "out: {}", out.data);
    assert_eq!(core.calls.len(), 2);
    assert_eq!(
        core.calls[1],
        "kubectl exec -n 'ns1' 'pod-1' -- sh -c 'ps -o pid,user,args'"
    );
    assert_eq!(out.data["command"], "ps -o pid,user,args");
    assert_eq!(
        out.data["processes"],
        "    1 root     java -jar user-service.jar\n    9 root     sh"
    );
    assert_eq!(out.data["count"], 2);
    assert_eq!(out.data["elapsed_ms"], 12);
    assert_eq!(out.raw_stdout.as_deref(), Some(SMALL_PS_OUTPUT));
    let mut core = Core { container: true, small_ps: true, ..Core::vm(SMALL_PS_OUTPUT) };
    let args = r#"{"environment": "prod", "pod": "pod-1", "namespace": "ns1", "keyword": "user"}"#;
    let out = core.execute(args);
    assert_eq!(out.data["command"], "ps -o pid,user,args | grep -i 'user' | grep -v grep");
    assert_eq!(out.data["count"], 1, "the header is no process: {}", out.data);
}

#[test]
fn a_host_is_not_asked_twice() {
    let mut core = Core { small_ps: true, ..Core::vm(PS_OUTPUT) };
    let out = core.execute(r#"{"environment": "prod"}"#);
    assert_eq!(core.calls.len(), 1);
    assert_eq!(out.data["exit_code"], 1);
    assert_eq!(out.data["count"], 0);
}
