use friday::exec::pool::TargetKey;
use friday::flow::Output;
use friday::tools::call::{Answer, Ask};
use friday::tools::jfr::record::{record_tool_def, JfrRecordHandler, RecordStage};
use friday::tools::jfr::recordings::{Recording, RecordingPhase, RecordingRegistry};
use friday::tools::jfr::status::{
    needs_phase, record_status_tool_def, JfrRecordStatusHandler, Observation, TransferStatus,
};
use friday::tools::jfr::wait::{run_recording_wait, WaitStage};
use friday::tools::output::{RiskLevel, ToolOutput};

const SID: &str = "s1";
const CHECK_RUNNING: &str = "Recording 1: name=friday duration=10s (running)\n";
const CHECK_MISSING: &str = "Could not find recording with name friday-777\n";

/// An environment named `prod`, a JVM host whose commands end in a given way, and a transfer that
/// completes.
struct Core {
    start_exit: i32,
    check_stdout: &'static str,
    stat_size: &'static str,
    container: bool,
    no_stat: bool,
    registry: RecordingRegistry,
    waiting: Vec<(Recording<String>, u64)>,
    fetched: Vec<Recording<String>>,
    calls: Vec<String>,
    told: Vec<String>,
    clock_ms: u64,
}

impl Core {
    fn new(stat_size: &'static str) -> Core {
        Core {
            start_exit: 0,
            check_stdout: CHECK_RUNNING,
            stat_size,
            container: false,
            no_stat: false,
            registry: RecordingRegistry::new(),
            waiting: Vec::new(),
            fetched: Vec::new(),
            calls: Vec::new(),
            told: Vec::new(),
            clock_ms: 0,
        }
    }

    fn run(&mut self, cmd: String) -> Answer<String> {
        let (stdout, exit_code) = if cmd.contains("JFR.start") {
            ("Started recording 1.", self.start_exit)
        } else if cmd.contains("JFR.check") {
            (self.check_stdout, 0)
        } else if self.no_stat && cmd.starts_with("stat ") {
            ("", 127)
        } else {
            (self.stat_size, 0)
        };
        self.calls.push(cmd);
        let out = Output { stdout: stdout.to_string(), stderr: String::new(), exit_code };
        Answer::Ran { ran: Ok(out), elapsed_ms: 1 }
    }

    fn record(&mut self, args: &str) -> ToolOutput {
        let args: serde_json::Value = serde_json::from_str(args).unwrap();
        let mut call = JfrRecordHandler::execute_record(&args, SID);
        loop {
            if let RecordStage::Ended { outcome } = call.stage {
                return outcome.render();
            }
            let answer = match call.request() {
                Ask::Resolve { environment, .. } => {
                    let found =
                        if environment == "prod" { Some("env-1".to_string()) } else { None };
                    Answer::Resolved { resolved: Ok(found) }
                },
                Ask::CheckTarget { pod, .. } => Answer::Checked {
                    checked: if pod.is_some() == self.container {
                        Ok(())
                    } else {
                        Err("请先调用 k8s_find_pods".to_string())
                    },
                },
                Ask::FindJcmd => {
                    Answer::Program { program: Some(Ok("/tmp/jdk/bin/jcmd".to_string())) }
                },
                Ask::FindActive { .. } => call.look_up(&self.registry),
                Ask::Clock => Answer::Number { number: 777 },
                Ask::Stamp => Answer::Number { number: 1_700_000_000 },
                Ask::LocalPath { file } => Answer::Text { text: format!("/artifacts/{file}") },
                Ask::Tell { detail, .. } => {
                    self.told.push(detail);
                    Answer::Done
                },
                Ask::Run { cmd, .. } => self.run(cmd),
                Ask::IsJdkGone { .. } => Answer::Flag { flag: false },
                Ask::Register { recording, secs } => {
                    self.registry.insert(recording.copy());
                    self.waiting.push((recording, secs));
                    Answer::Done
                },
                other => panic!("not expected: {other:?}"),
            };
            call = call.step(answer);
        }
    }

    fn wait(&mut self) {
        let (rec, secs) = self.waiting.remove(0);
        let id = rec.id.clone();
        let began = self.clock_ms;
        let mut wait = run_recording_wait(rec);
        while wait.stage != WaitStage::Ended {
            let answer = match wait.request() {
                Ask::Elapsed => {
                    let passed = (self.clock_ms - began) / 1000;
                    Answer::Elapsed { secs: passed, over: passed >= secs }
                },
                Ask::Pause { millis } => {
                    self.clock_ms += millis;
                    Answer::Done
                },
                Ask::Connect => Answer::Checked { checked: Ok(()) },
                Ask::Disconnect => Answer::Done,
                Ask::Run { cmd, .. } => self.run(cmd),
                Ask::IsPodGone { .. } => Answer::Flag { flag: false },
                Ask::PodPhase { pod, namespace, .. } => {
                    assert_eq!((pod.as_str(), namespace.as_str()), ("pod-1", "ns1"));
                    let out = Output {
                        stdout: "Running".to_string(),
                        stderr: String::new(),
                        exit_code: 0,
                    };
                    Answer::Ran { ran: Ok(out), elapsed_ms: 1 }
                },
                Ask::Fetch { recording, remove_remote } => {
                    assert!(remove_remote, "a recording that was fetched is not left behind");
                    self.fetched.push(recording);
                    Answer::Text { text: "transfer-1".to_string() }
                },
                Ask::MarkDownloading { transfer_id, remote_size } => {
                    self.registry.mark_downloading(id.as_str(), transfer_id, remote_size);
                    Answer::Done
                },
                Ask::MarkFailed { code, error } => {
                    self.registry.mark_failed(id.as_str(), code.as_str(), error);
                    Answer::Done
                },
                Ask::Tell { detail, .. } => {
                    self.told.push(detail);
                    Answer::Done
                },
                other => panic!("not expected: {other:?}"),
            };
            wait = wait.step(answer);
        }
    }

    fn status(&mut self, args: &str, transfer: Option<TransferStatus>) -> ToolOutput {
        let args: serde_json::Value = serde_json::from_str(args).unwrap();
        let call = JfrRecordStatusHandler::execute_status(&self.registry, &args, SID);
        let looked_at = match &call {
            JfrRecordStatusHandler::Unknown { .. } => 0,
            JfrRecordStatusHandler::One { .. } => 1,
            JfrRecordStatusHandler::All { list } => list.len(),
        };
        let seen: Vec<Observation<String>> = (0..looked_at)
            .map(|_| Observation { transfer, error: None, phase: None })
            .collect();
        call.finish(&mut self.registry, &seen)
    }

    fn status_of(&mut self, id: &str) -> ToolOutput {
        let args = format!("{{\"recording_id\": \"{id}\"}}");
        self.status(args.as_str(), Some(TransferStatus::Completed))
    }
}

#[test]
fn test_record_returns_immediately_and_completes_via_status_poll() {
    let mut core = Core::new("54321");
    let out = core.record(
        r#"{"environment": "prod", "pid": "1234", "duration_secs": 10, "timeout_secs": 30}"#,
    );
    assert!(core.clock_ms < 10_000, "jfr_record must not block for duration");
    assert!(out.success, "out: {}", out.data);
    let rid = out.data["recording_id"].as_str().unwrap().to_string();
    assert!(!rid.is_empty());
    assert_eq!(out.data["status"], "recording");
    assert!(out.data["note"].as_str().unwrap().contains("jfr_record_status"));
    assert!(out.data["local_path"].as_str().unwrap().ends_with(".jfr"));

    core.wait();
    let done = core.status_of(rid.as_str());
    assert!(done.success);
    let done = done.data;
    assert_eq!(done["status"], "completed", "final: {done}");
    assert_eq!(done["remote_size"], 54321);
    assert!(!done["transfer_id"].as_str().unwrap().is_empty());
    assert_eq!(done["local_path"], out.data["local_path"]);
    assert_eq!(core.fetched.len(), 1);
    assert_eq!(core.fetched[0].id, rid);

    let calls = &core.calls;
    assert!(calls[0].contains("JFR.start"), "calls[0]: {}", calls[0]);
    assert!(calls[0].contains("duration=10s"));
    assert!(calls[0].contains("settings=profile"));
    assert!(calls[0].contains("filename=/tmp/friday-tools/recording-1234-"));
    assert!(calls[1].contains("JFR.check"), "calls[1]: {}", calls[1]);
    assert!(calls.iter().skip(2).filter(|c| c.starts_with("stat -c %s")).count() >= 2);
}

#[test]
fn test_record_start_failure_passthrough_with_jdk8_hint() {
    let mut core = Core { start_exit: 1, ..Core::new("0") };
    let out = core.record(r#"{"environment": "prod", "pid": "1234"}"#);
    assert!(!out.success);
    assert_eq!(out.data["error"], "record_failed");
    assert!(
        out.data["message"].as_str().unwrap().contains("arthas_profiler"),
        "JDK 8 fallback hint required"
    );
}

#[test]
fn test_record_verify_failed_when_check_not_running() {
    let mut core = Core { check_stdout: CHECK_MISSING, ..Core::new("0") };
    let out = core.record(r#"{"environment": "prod", "pid": "1234"}"#);
    assert!(!out.success, "out: {}", out.data);
    assert_eq!(out.data["error"], "record_verify_failed");
    assert!(out.data["message"].as_str().unwrap().contains("friday-tools"));
    let list = core.status("{}", None);
    assert!(list.success);
    assert_eq!(list.data["recordings"].as_array().unwrap().len(), 0);
}

#[test]
fn test_record_check_passes_when_file_already_written() {
    let mut core = Core { check_stdout: CHECK_MISSING, ..Core::new("100") };
    let out = core.record(
        r#"{"environment": "prod", "pid": "1234", "duration_secs": 10, "timeout_secs": 30}"#,
    );
    assert!(out.success, "out: {}", out.data);
    let rid = out.data["recording_id"].as_str().unwrap().to_string();
    core.wait();
    let done = core.status_of(rid.as_str()).data;
    assert_eq!(done["status"], "completed", "final: {done}");
}

#[test]
fn test_record_file_never_materializes_fails_in_background() {
    let mut core = Core::new("0");
    let out = core.record(
        r#"{"environment": "prod", "pid": "1234", "duration_secs": 10, "timeout_secs": 30}"#,
    );
    assert!(out.success, "out: {}", out.data);
    assert_eq!(out.data["status"], "recording");
    let rid = out.data["recording_id"].as_str().unwrap().to_string();
    core.wait();
    let done = core.status_of(rid.as_str()).data;
    assert_eq!(done["status"], "failed", "final: {done}");
    assert!(
        done["error"].as_str().unwrap().contains("friday-tools"),
        "error should mention remote path: {}",
        done["error"]
    );
}

#[test]
fn test_record_duplicate_active_recording_reuses_id() {
    let mut core = Core::new("54321");
    let args = r#"{"environment": "prod", "pid": "1234", "duration_secs": 60}"#;
    let first = core.record(args);
    assert!(first.success, "out: {}", first.data);
    let rid = first.data["recording_id"].as_str().unwrap().to_string();
    let second = core.record(args);
    assert!(!second.success, "out: {}", second.data);
    assert_eq!(second.data["error"], "duplicate_recording");
    assert_eq!(second.data["recording_id"].as_str().unwrap(), rid);
    assert!(second.data["note"].as_str().unwrap().contains("jfr_record_status"));
    assert_eq!(core.calls.iter().filter(|c| c.contains("JFR.start")).count(), 1);
}

#[test]
fn test_record_status_unknown_id() {
    let mut core = Core::new("1");
    let out = core.status(r#"{"recording_id": "nope"}"#, None);
    assert!(!out.success);
    assert_eq!(out.data["error"], "invalid_args");
}

#[test]
fn test_record_status_empty_lists_session_recordings() {
    let mut core = Core::new("1");
    let out = core.status("{}", None);
    assert!(out.success);
    assert_eq!(out.data["recordings"].as_array().unwrap().len(), 0);
}

#[test]
fn test_container_env_requires_pod() {
    let mut core = Core { container: true, ..Core::new("1") };
    let out = core.record(r#"{"environment": "prod", "pid": "1234"}"#);
    assert!(!out.success, "out: {}", out.data);
    assert_eq!(out.data["error"], "environment_type_mismatch");
    assert!(out.data["message"].as_str().unwrap().contains("k8s_find_pods"));
}

#[test]
fn test_record_pod_target_uses_pod_dump_dir() {
    let mut core = Core { container: true, ..Core::new("54321") };
    let out = core.record(
        r#"{"environment": "prod", "pid": "1234", "duration_secs": 10, "timeout_secs": 30, "pod": "pod-1", "namespace": "ns1"}"#,
    );
    assert!(out.success, "out: {}", out.data);
    assert!(
        core.calls[0].contains("filename=/opt/log/dump/coredump/friday-recording-1234-"),
        "start cmd: {}",
        core.calls[0]
    );
    let rid = out.data["recording_id"].as_str().unwrap().to_string();
    core.wait();
    let done = core.status_of(rid.as_str()).data;
    assert_eq!(done["status"], "completed", "final: {done}");
    let fetched = &core.fetched[0];
    assert_eq!(fetched.pod.as_deref(), Some("pod-1"));
    assert_eq!(fetched.namespace.as_deref(), Some("ns1"));
    assert!(fetched.container.is_none());
}

#[test]
fn test_record_invalid_args() {
    let mut core = Core::new("1");
    for args in [
        r#"{"environment": "prod"}"#,
        r#"{"pid": "1234"}"#,
        r#"{"environment": "prod", "pid": "1234", "duration_secs": 5}"#,
        r#"{"environment": "prod", "pid": "1234", "settings": "boot"}"#,
        r#"{"environment": "prod", "pid": "1; rm -rf /"}"#,
    ] {
        let out = core.record(args);
        assert!(!out.success, "args should be rejected");
        assert_eq!(out.data["error"], "invalid_args");
    }
}

#[test]
fn test_record_environment_not_found() {
    let mut core = Core::new("1");
    let out = core.record(r#"{"environment": "nope", "pid": "1234"}"#);
    assert!(!out.success);
    assert_eq!(out.data["error"], "environment_not_found");
}

#[test]
fn a_disk_that_is_no_flag_is_refused() {
    let mut core = Core::new("1");
    let out = core.record(r#"{"environment": "prod", "pid": "1234", "disk": "yes"}"#);
    assert_eq!(out.data["error"], "invalid_args");
    let out = core.record(r#"{"environment": "prod", "pid": "1234", "disk": false}"#);
    assert!(out.success);
    assert!(core.calls[0].contains("disk=false"), "start cmd: {}", core.calls[0]);
}

#[test]
fn a_missing_jcmd_and_a_lost_jdk_are_reported() {
    let args: serde_json::Value =
        serde_json::from_str(r#"{"environment": "prod", "pid": "1234"}"#).unwrap();
    let begun = || {
        JfrRecordHandler::execute_with(&args, SID, "rec-1")
            .step(Answer::Resolved { resolved: Ok(Some("env-1".to_string())) })
            .step(Answer::Checked { checked: Ok(()) })
    };
    let refused = begun().step(Answer::Program { program: None });
    match refused.stage {
        RecordStage::Ended { outcome } => {
            assert_eq!(outcome.render().data["error"], "jdk_not_provisioned")
        },
        other => panic!("not ended: {other:?}"),
    }
    let gone = begun()
        .step(Answer::Program { program: Some(Ok("/tmp/jdk/bin/jcmd".to_string())) })
        .step(Answer::Maybe { maybe: None })
        .step(Answer::Number { number: 777 })
        .step(Answer::Text { text: "/artifacts/a.jfr".to_string() })
        .step(Answer::Done)
        .step(Answer::Ran {
            ran: Ok(Output {
                stdout: String::new(),
                stderr: "no such file".to_string(),
                exit_code: 127,
            }),
            elapsed_ms: 1,
        });
    assert_eq!(
        gone.request(),
        Ask::IsJdkGone { exit_code: 127, stderr: "no such file".to_string() }
    );
    let gone = gone.step(Answer::Flag { flag: true });
    assert_eq!(gone.request(), Ask::ForgetJdk);
}

#[test]
fn a_failed_transfer_fails_the_recording_and_a_terminal_state_stays() {
    let mut core = Core::new("54321");
    let out = core.record(
        r#"{"environment": "prod", "pid": "1234", "duration_secs": 10, "timeout_secs": 30}"#,
    );
    let rid = out.data["recording_id"].as_str().unwrap().to_string();
    core.wait();
    let args = format!("{{\"recording_id\": \"{rid}\"}}");
    let going = core.status(args.as_str(), Some(TransferStatus::Active)).data;
    assert_eq!(going["status"], "downloading");
    let failed = core.status(args.as_str(), Some(TransferStatus::Failed)).data;
    assert_eq!(failed["status"], "failed");
    let later = core.status(args.as_str(), Some(TransferStatus::Completed)).data;
    assert_eq!(later["status"], "failed");
    let listed = core.status("{}", None).data;
    assert_eq!(listed["recordings"].as_array().unwrap().len(), 1);
}

fn plain(id: &str, created_at: u64) -> Recording<String> {
    Recording {
        id: id.to_string(),
        session_id: SID.to_string(),
        env_id: "env-1".to_string(),
        pid: 1,
        name: "friday-1".to_string(),
        pod: None,
        namespace: None,
        container: None,
        remote_path: "/tmp/r.jfr".to_string(),
        local_path: "/artifacts/r.jfr".to_string(),
        duration_secs: 10,
        settings: "profile".to_string(),
        phase: RecordingPhase::Recording,
        transfer_id: None,
        remote_size: None,
        error_code: None,
        error: None,
        created_at,
    }
}

#[test]
fn the_registry_keeps_a_hundred_finished_recordings_and_drops_the_oldest() {
    let mut registry = RecordingRegistry::new();
    for i in 0..102u64 {
        registry.insert(plain(format!("r{i}").as_str(), 1000 + i));
    }
    for i in 0..100 {
        registry.mark_failed(format!("r{i}").as_str(), "record_not_found", "gone".to_string());
    }
    assert_eq!(registry.list_for_session(SID).len(), 102);
    registry.mark_failed("r100", "record_not_found", "gone".to_string());
    assert_eq!(registry.list_for_session(SID).len(), 101);
    assert!(registry.get("r0").is_none());
    assert!(registry.get("r1").is_some());
    assert_eq!(registry.get("r101").map(|r| r.phase), Some(RecordingPhase::Recording));
    let newest = registry.list_for_session(SID);
    assert_eq!(newest[0].id, "r101");
}

#[test]
fn a_session_sees_its_own_recordings_alone() {
    let mut registry = RecordingRegistry::new();
    registry.insert(plain("a", 1));
    registry.insert(Recording { session_id: "s2".to_string(), ..plain("b", 2) });
    let mine = registry.list_for_session(SID);
    assert_eq!(mine.len(), 1);
    assert_eq!(mine[0].id, "a");
    assert!(registry.find_active_for_target("s2", &TargetKey::base("env-1"), 2).is_none());
    assert!(registry.find_active_for_target("s2", &TargetKey::base("env-1"), 1).is_some());
}

#[test]
fn a_pod_is_looked_at_when_its_transfer_was_lost() {
    let mut rec = plain("a", 1);
    rec.phase = RecordingPhase::Downloading;
    rec.transfer_id = Some("transfer-1".to_string());
    assert!(!needs_phase(&rec, Some(TransferStatus::Failed)));
    rec.pod = Some("pod-1".to_string());
    rec.namespace = Some("ns1".to_string());
    assert!(needs_phase(&rec, Some(TransferStatus::Failed)));
    assert!(!needs_phase(&rec, Some(TransferStatus::Completed)));
}

#[test]
fn the_two_recording_tools_differ_in_risk() {
    assert_eq!(record_tool_def().risk_level, RiskLevel::Low);
    assert_eq!(record_status_tool_def().risk_level, RiskLevel::ReadOnly);
}

#[test]
fn a_container_without_stat_has_its_recording_counted() {
    let pod = r#"{"environment": "prod", "pid": "1234", "duration_secs": 10, "timeout_secs": 30, "pod": "pod-1", "namespace": "ns1"}"#;
    let mut core = Core {
        container: true,
        no_stat: true,
        check_stdout: CHECK_MISSING,
        ..Core::new("54321")
    };
    let out = core.record(pod);
    assert!(out.success, "out: {}", out.data);
    assert!(core.calls.iter().any(|c| c.starts_with("wc -c < '/opt/log/dump/coredump/")));
    let rid = out.data["recording_id"].as_str().unwrap().to_string();
    core.wait();
    assert_eq!(core.status_of(rid.as_str()).data["status"], "completed");
    let mut core = Core { no_stat: true, check_stdout: CHECK_MISSING, ..Core::new("54321") };
    let out = core.record(r#"{"environment": "prod", "pid": "1234", "duration_secs": 10}"#);
    assert_eq!(out.data["error"], "record_verify_failed", "a host is not asked twice");
}

#[test]
fn a_recording_in_another_namespace_is_no_double() {
    let mut core = Core { container: true, ..Core::new("54321") };
    for (namespace, success) in [("ns1", true), ("ns2", true), ("ns1", false)] {
        let args = format!(
            "{{\"environment\": \"prod\", \"pid\": \"7\", \"pod\": \"pod-1\", \"namespace\": \"{namespace}\"}}"
        );
        assert_eq!(core.record(&args).success, success, "{namespace}");
    }
}
