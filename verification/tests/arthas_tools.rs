use friday::tools::arthas::{
    arthas_tool_def, register_all, ArthasStage, ArthasToolHandler, ArthasToolKind, FAST, OPEN,
};
use friday::tools::call::{Answer, Ask, CallOutcome, ManagerError};
use friday::tools::output::{RiskLevel, ToolCategory, ToolOutput};

/// An environment named `prod` and a manager of sessions, each known by its pod and pid.
struct Core {
    container: bool,
    requests: Vec<(Option<String>, Option<String>, u32)>,
    sessions: Vec<(Option<String>, u32)>,
    reply: &'static str,
}

impl Core {
    fn new(container: bool) -> Core {
        Core { container, requests: Vec::new(), sessions: Vec::new(), reply: "ok" }
    }

    fn execute(&mut self, kind: ArthasToolKind, args: &str) -> ToolOutput {
        let args: serde_json::Value = serde_json::from_str(args).unwrap();
        let mut call = ArthasToolHandler::execute(kind, &args, FAST);
        loop {
            if let ArthasStage::Ended { outcome } = call.stage {
                return outcome.render();
            }
            let answer = match call.request() {
                Ask::FindEnvironment { environment } => {
                    let found =
                        if environment == "prod" { Some("env-1".to_string()) } else { None };
                    Answer::Resolved { resolved: Ok(found) }
                },
                Ask::CheckTarget { pod, .. } => Answer::Checked {
                    checked: if pod.is_some() == self.container {
                        Ok(())
                    } else {
                        Err("请先调用 k8s_find_pods".to_string())
                    },
                },
                Ask::Open { pod, container, pid, .. } => {
                    self.requests.push((pod.clone(), container, pid));
                    self.sessions.push((pod, pid));
                    let text = "opened".to_string();
                    Answer::Managed {
                        managed: Ok(CallOutcome { text, is_error: false }),
                        elapsed_ms: 3,
                    }
                },
                Ask::Close { pod, pid, .. } => {
                    let before = self.sessions.len();
                    self.sessions.retain(|s| *s != (pod.clone(), pid));
                    Answer::Flag { flag: self.sessions.len() < before }
                },
                Ask::BuildArgs => Answer::Built { built: Ok("dashboard".to_string()) },
                Ask::Query { tool, pod, pid, .. } => {
                    assert_eq!(tool, "dashboard");
                    let managed = if self.sessions.contains(&(pod, pid)) {
                        Ok(CallOutcome { text: self.reply.to_string(), is_error: false })
                    } else {
                        Err(ManagerError::NotOpen { attaching: false })
                    };
                    Answer::Managed { managed, elapsed_ms: 4 }
                },
                Ask::Cut { text } => Answer::Cut { body: text, truncated: false },
                Ask::Save { prefix, content } => {
                    assert_eq!(prefix, "arthas");
                    assert!(content.contains("--- target: prod/1234 ---"), "content: {content}");
                    Answer::Maybe { maybe: Some("/artifacts/full.txt".to_string()) }
                },
                other => panic!("not expected: {other:?}"),
            };
            call = call.step(answer);
        }
    }
}

#[test]
fn test_arthas_tool_def_metadata() {
    let def = arthas_tool_def("arthas_open", "test", RiskLevel::Low, OPEN, ArthasToolKind::Open);
    assert_eq!(def.name, "arthas_open");
    assert_eq!(def.category, ToolCategory::Arthas);
    assert_eq!(def.risk_level, RiskLevel::Low);
    assert!(!def.needs_channel);
}

#[test]
fn test_open_container_env_passes_pod_to_manager() {
    let mut core = Core::new(true);
    let out = core.execute(
        ArthasToolKind::Open,
        r#"{"environment": "prod", "pid": "1234", "pod": "oom-service-7d9b-x2vkl", "namespace": "ns1", "container": "main"}"#,
    );
    assert!(out.success, "out: {}", out.data);
    let reqs = &core.requests;
    assert_eq!(reqs.len(), 1, "attach must be asked for exactly once");
    assert_eq!(reqs[0].0.as_deref(), Some("oom-service-7d9b-x2vkl"));
    assert_eq!(reqs[0].1.as_deref(), Some("main"));
    assert_eq!(reqs[0].2, 1234);
}

#[test]
fn test_open_vm_env_normalizes_empty_pod() {
    let mut core = Core::new(false);
    let out = core.execute(
        ArthasToolKind::Open,
        r#"{"environment": "prod", "pid": "1234", "pod": "", "container": ""}"#,
    );
    assert!(out.success, "out: {}", out.data);
    assert_eq!(core.requests.len(), 1);
    assert_eq!(core.requests[0].0, None, "empty string must normalize to None");
    assert_eq!(core.requests[0].1, None);
}

#[test]
fn test_container_env_missing_pod_rejected() {
    let mut core = Core::new(true);
    let out = core.execute(ArthasToolKind::Open, r#"{"environment": "prod", "pid": "1234"}"#);
    assert!(!out.success, "out: {}", out.data);
    assert_eq!(out.data["error"], "environment_type_mismatch");
    assert!(
        out.data["message"].as_str().unwrap().contains("k8s_find_pods"),
        "message must guide to k8s_find_pods: {}",
        out.data["message"]
    );
    assert!(core.requests.is_empty());
}

#[test]
fn test_vm_env_with_pod_rejected() {
    let mut core = Core::new(false);
    let out = core.execute(
        ArthasToolKind::Open,
        r#"{"environment": "prod", "pid": "1234", "pod": "some-pod"}"#,
    );
    assert!(!out.success, "out: {}", out.data);
    assert_eq!(out.data["error"], "environment_type_mismatch");
    assert!(core.requests.is_empty());
}

#[test]
fn test_proxy_pod_participates_in_session_key() {
    let mut core = Core::new(true);
    let same = r#"{"environment": "prod", "pid": "1234", "pod": "pod-a", "namespace": "ns1"}"#;
    let out = core.execute(ArthasToolKind::Open, same);
    assert!(out.success, "open: {}", out.data);

    let out = core.execute(ArthasToolKind::Dashboard, same);
    assert!(out.success, "same-pod query: {}", out.data);
    assert_eq!(out.data["output"], "ok");

    let out = core.execute(
        ArthasToolKind::Dashboard,
        r#"{"environment": "prod", "pid": "1234", "pod": "pod-b", "namespace": "ns1"}"#,
    );
    assert!(!out.success, "different pod must not hit pod-a session");
    assert_eq!(out.data["error"], "arthas_not_open");
}

#[test]
fn test_all_tool_schemas_have_pod_and_container() {
    let defs = register_all();
    assert_eq!(defs.len(), 27, "arthas tool count");
    for def in &defs {
        let props = &def.input_schema["properties"];
        assert!(props["pod"]["type"] == "string", "{} missing pod", def.name);
        assert!(props["namespace"]["type"] == "string", "{} missing namespace", def.name);
        assert!(props["container"]["type"] == "string", "{} missing container", def.name);
        assert!(
            props["pod"]["description"].as_str().unwrap().contains("k8s_find_pods"),
            "{} pod description must guide to k8s_find_pods",
            def.name
        );
        if def.name == "arthas_open" {
            assert!(def.description.contains("k8s_find_pods"), "open desc must cover container flow");
        } else {
            assert!(
                def.description.contains("相同的 pod/namespace 参数"),
                "{} desc must mention same-pod requirement",
                def.name
            );
        }
    }
}

#[test]
fn closing_tells_whether_a_session_was_open() {
    let mut core = Core::new(false);
    let args = r#"{"environment": "prod", "pid": "1234"}"#;
    let out = core.execute(ArthasToolKind::Close, args);
    assert!(out.success);
    core.execute(ArthasToolKind::Open, args);
    let again = core.execute(ArthasToolKind::Close, args);
    assert!(again.success);
    assert_ne!(out.data, again.data);
}

#[test]
fn bad_arguments_are_refused_before_anything_is_asked() {
    let mut core = Core::new(false);
    for args in [r#"{"pid": "1234"}"#, r#"{"environment": "prod"}"#, r#"{"environment": "prod", "pid": "x"}"#] {
        let out = core.execute(ArthasToolKind::Dashboard, args);
        assert!(!out.success);
    }
    let out = core.execute(ArthasToolKind::Dashboard, r#"{"environment": "nope", "pid": "1"}"#);
    assert_eq!(out.data["error"], "environment_not_found");
}
