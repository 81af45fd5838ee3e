use friday::tools::call::{Answer, Ask, JmcError};
use friday::tools::jfr::analysis::{
    register_all, AnalysisStage, JfrProxyHandler, JfrToolKind, HEAVY, QUERY,
};
use friday::tools::jfr::mapping::JfrProxyKind;
use friday::tools::output::{RiskLevel, ToolCategory, ToolDef, ToolOutput};

/// An analyser that answers every question alike, beside files with given paths.
struct Core {
    files: Vec<&'static str>,
    reply: Result<String, JmcError<String>>,
    calls: Vec<(String, serde_json::Value)>,
    saved: Vec<String>,
}

impl Core {
    fn new(files: Vec<&'static str>, reply: Result<&str, JmcError<String>>) -> Core {
        Core { files, reply: reply.map(|t| t.to_string()), calls: Vec::new(), saved: Vec::new() }
    }

    fn execute(&mut self, kind: JfrToolKind, args: &str) -> ToolOutput {
        let args: serde_json::Value = serde_json::from_str(args).unwrap();
        let mut call = JfrProxyHandler::execute(kind, &args, QUERY);
        loop {
            if let AnalysisStage::Ended { outcome } = call.stage {
                return outcome.render();
            }
            let answer = match call.request() {
                Ask::FindFile { path } => {
                    let found = self.files.contains(&path.as_str());
                    Answer::File { file: Ok((path, found)) }
                },
                Ask::Analyse { tool, .. } => {
                    let (name, query) = call.upstream_query(&args);
                    assert_eq!(tool, name);
                    self.calls.push((name, query));
                    let analysed = match &self.reply {
                        Ok(text) => Ok(text.clone()),
                        Err(JmcError::Upstream { text }) => {
                            Err(JmcError::Upstream { text: text.clone() })
                        },
                        Err(JmcError::Unavailable { detail }) => {
                            Err(JmcError::Unavailable { detail: detail.clone() })
                        },
                        Err(JmcError::JavaMissing { reason }) => {
                            Err(JmcError::JavaMissing { reason: reason.clone() })
                        },
                        Err(JmcError::Timeout { secs }) => Err(JmcError::Timeout { secs: *secs }),
                    };
                    Answer::Analysed { analysed, elapsed_ms: 9 }
                },
                Ask::Cut { text } => {
                    let truncated = text.len() > 64 * 1024;
                    let body = if truncated {
                        format!("{}\n[truncated]", &text[..64 * 1024])
                    } else {
                        text
                    };
                    Answer::Cut { body, truncated }
                },
                Ask::Save { content, .. } => {
                    self.saved.push(content);
                    Answer::Maybe { maybe: Some("/artifacts/full.txt".to_string()) }
                },
                other => panic!("not expected: {other:?}"),
            };
            call = call.step(answer);
        }
    }
}

fn proxy(kind: JfrProxyKind) -> JfrToolKind {
    JfrToolKind::Proxy(kind)
}

fn named<'a>(defs: &'a [ToolDef], name: &str) -> &'a ToolDef {
    defs.iter().find(|d| d.name == name).expect(name)
}

#[test]
fn test_register_all_twenty_three_tools() {
    let defs = register_all();
    let expected = [
        "jfr_record",
        "jfr_record_status",
        "jfr_overview",
        "jfr_rules",
        "jfr_quick_analysis",
        "jfr_gc_detail",
        "jfr_memory_leaks",
        "jfr_predictive_leak",
        "jfr_allocation_hotspots",
        "jfr_hot_methods",
        "jfr_thread_cpu",
        "jfr_cpu_flame",
        "jfr_thread_contention",
        "jfr_deadlock_detection",
        "jfr_io_hotspots",
        "jfr_exceptions",
        "jfr_errors",
        "jfr_safepoints",
        "jfr_virtual_threads",
        "jfr_stack_trace_search",
        "jfr_correlate",
        "jfr_request_waterfall",
        "jfr_compare",
    ];
    assert_eq!(expected.len(), 23);
    assert_eq!(defs.len(), 23);
    for name in expected {
        let d = named(&defs, name);
        assert_eq!(d.category, ToolCategory::Jfr, "{name}");
        assert!(!d.needs_channel, "{name}");
    }
    assert_eq!(named(&defs, "jfr_record").risk_level, RiskLevel::Low);
    assert_eq!(named(&defs, "jfr_record_status").risk_level, RiskLevel::ReadOnly);
    assert_eq!(named(&defs, "jfr_overview").risk_level, RiskLevel::ReadOnly);
    assert_eq!(named(&defs, "jfr_compare").risk_level, RiskLevel::ReadOnly);
}

#[test]
fn test_proxy_routes_to_upstream_with_path_and_sync() {
    let mut core = Core::new(vec!["/work/a.jfr"], Ok("OVERVIEW"));
    let out = core.execute(
        proxy(JfrProxyKind::Overview),
        r#"{"local_path": "/work/a.jfr", "args": {"start_time": "2026-09-03T10:00:00Z"}}"#,
    );
    assert!(out.success, "out: {}", out.data);
    assert_eq!(out.data["tool"], "jfrOverview");
    let (name, args) = core.calls.last().unwrap();
    assert_eq!(name, "jfrOverview");
    assert_eq!(args["jfr_file_path"].as_str().unwrap(), "/work/a.jfr");
    assert_eq!(args["start_time"], "2026-09-03T10:00:00Z");
    assert_eq!(args["async"], false);
}

#[test]
fn test_proxy_missing_params_and_file() {
    let mut core = Core::new(vec![], Ok("S"));
    let out = core.execute(proxy(JfrProxyKind::HotMethods), "{}");
    assert!(!out.success);
    assert_eq!(out.data["error"], "invalid_args");
    let out = core
        .execute(proxy(JfrProxyKind::HotMethods), r#"{"local_path": "C:/definitely/nope.jfr"}"#);
    assert!(!out.success);
    assert_eq!(out.data["error"], "invalid_path");
}

#[test]
fn test_compare_maps_two_paths() {
    let mut core = Core::new(vec!["/work/a.jfr", "/work/b.jfr"], Ok("DIFF"));
    let out = core.execute(
        JfrToolKind::Compare,
        r#"{"baseline_local_path": "/work/a.jfr", "target_local_path": "/work/b.jfr"}"#,
    );
    assert!(out.success, "out: {}", out.data);
    assert_eq!(out.data["tool"], "compareRecordings");
    let (name, args) = core.calls.last().unwrap();
    assert_eq!(name, "compareRecordings");
    assert_eq!(args["baseline_jfr_path"].as_str().unwrap(), "/work/a.jfr");
    assert_eq!(args["target_jfr_path"].as_str().unwrap(), "/work/b.jfr");
    assert_eq!(args["async"], false);
}

#[test]
fn test_compare_requires_both_paths() {
    let mut core = Core::new(vec!["/work/a.jfr"], Ok("S"));
    let out = core.execute(JfrToolKind::Compare, r#"{"baseline_local_path": "/work/a.jfr"}"#);
    assert!(!out.success);
    assert_eq!(out.data["error"], "invalid_args");
}

#[test]
fn test_jmc_unavailable_error_code() {
    let gone = JmcError::Unavailable { detail: "transport closed".to_string() };
    let mut core = Core::new(vec!["/work/a.jfr"], Err(gone));
    let out = core.execute(proxy(JfrProxyKind::Overview), r#"{"local_path": "/work/a.jfr"}"#);
    assert!(!out.success);
    assert_eq!(out.data["error"], "jmc_unavailable");
}

#[test]
fn test_upstream_error_passthrough_and_truncation() {
    let big = format!("JMC boom\n{}", "x".repeat(70 * 1024));
    let mut core = Core::new(vec!["/work/a.jfr"], Err(JmcError::Upstream { text: big.clone() }));
    let out = core.execute(proxy(JfrProxyKind::Rules), r#"{"local_path": "/work/a.jfr"}"#);
    assert!(!out.success);
    assert_eq!(out.data["error"], serde_json::Value::Null);
    assert_eq!(out.data["upstream_is_error"], true);
    assert!(out.data["result"].as_str().unwrap().contains("JMC boom"));
    assert_eq!(out.data["truncated"], true);
    assert!(out.data["result"].as_str().unwrap().contains("[truncated"));
    assert_eq!(out.data["full_output_path"], "/artifacts/full.txt");
    assert_eq!(core.saved.len(), 1);
    assert!(core.saved[0].contains(big.as_str()));
    assert!(core.saved[0].len() > 70 * 1024);
}

#[test]
fn the_other_failures_have_codes_of_their_own() {
    let missing = JmcError::JavaMissing { reason: "no java".to_string() };
    let mut core = Core::new(vec!["/work/a.jfr"], Err(missing));
    let out = core.execute(proxy(JfrProxyKind::Rules), r#"{"local_path": "/work/a.jfr"}"#);
    assert_eq!(out.data["error"], "java_missing");
    let mut core = Core::new(vec!["/work/a.jfr"], Err(JmcError::Timeout { secs: 120 }));
    let out = core.execute(proxy(JfrProxyKind::Rules), r#"{"local_path": "/work/a.jfr"}"#);
    assert_eq!(out.data["error"], "jmc_timeout");
}

#[test]
fn a_time_limit_is_kept_below_the_most_that_is_allowed() {
    let args: serde_json::Value =
        serde_json::from_str(r#"{"local_path": "/a.jfr", "timeout_secs": 1000000}"#).unwrap();
    let call = JfrProxyHandler::execute(proxy(JfrProxyKind::Rules), &args, HEAVY);
    assert_eq!(call.secs, HEAVY.1);
    let args: serde_json::Value = serde_json::from_str(r#"{"local_path": "/a.jfr"}"#).unwrap();
    let call = JfrProxyHandler::execute(proxy(JfrProxyKind::Rules), &args, HEAVY);
    assert_eq!(call.secs, HEAVY.0);
}
