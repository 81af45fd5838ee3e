use friday::exec::k8s::{
    pkill_pattern, validate_pod_path, wrap_exec_command, Download, DownloadStage, K8sChannel,
    Upload, UploadStage,
};
use friday::flow::{Action, Output, Reply, Site};
use std::collections::VecDeque;

/// A scripted host: it answers commands in turn and writes down what it was asked.
struct Base {
    script: VecDeque<(&'static str, i32)>,
    runs: Vec<String>,
    uploads: Vec<(String, String)>,
    downloads: Vec<(String, String, u64)>,
    local_size: u64,
    lost: Option<usize>,
}

impl Base {
    fn new(script: Vec<(&'static str, i32)>) -> Base {
        Base {
            script: script.into_iter().collect(),
            runs: Vec::new(),
            uploads: Vec::new(),
            downloads: Vec::new(),
            local_size: 16,
            lost: None,
        }
    }

    fn answer(&mut self, action: Action<String>) -> Reply<String> {
        match action {
            Action::Run { site, cmd, secs } => {
                assert_eq!(site, Site::Host);
                assert_eq!(secs, None);
                self.runs.push(cmd);
                if self.lost == Some(self.runs.len()) {
                    return Reply::Ran { ran: Err("connection lost".to_string()), late: false };
                }
                let (stdout, exit_code) = self.script.pop_front().unwrap_or(("", 0));
                let ran = Ok(Output { stdout: stdout.to_string(), stderr: String::new(), exit_code });
                Reply::Ran { ran, late: false }
            },
            Action::Upload { site, local, remote } => {
                assert_eq!(site, Site::Host);
                self.uploads.push((local, remote));
                Reply::Done { done: Ok(()), late: false }
            },
            Action::Download { remote, local, offset } => {
                self.downloads.push((remote, local, offset));
                Reply::Done { done: Ok(()), late: false }
            },
            Action::LocalSize { .. } => Reply::Number { number: Ok(self.local_size) },
            other => panic!("not expected: {other:?}"),
        }
    }

    fn upload(&mut self, flow: Result<Upload<String>, String>) -> Result<(), String> {
        let mut flow = flow?;
        loop {
            if let UploadStage::Ended { result } = flow.stage {
                return result;
            }
            let reply = self.answer(flow.request());
            flow.step(reply);
        }
    }

    fn download(&mut self, flow: Result<Download<String>, String>) -> Result<(), String> {
        let mut flow = flow?;
        loop {
            if let DownloadStage::Ended { result } = flow.stage {
                return result;
            }
            let reply = self.answer(flow.request());
            flow.step(reply);
        }
    }
}

fn channel(container: Option<&str>) -> K8sChannel {
    K8sChannel {
        pod: "svc-1".to_string(),
        namespace: None,
        container: container.map(|c| c.to_string()),
    }
}

#[test]
fn test_wrap_exec_command_without_container() {
    assert_eq!(
        wrap_exec_command("svc-abc", None, "jstat -gcutil 1"),
        "kubectl exec 'svc-abc' -- sh -c 'jstat -gcutil 1'"
    );
}

#[test]
fn test_wrap_exec_command_with_container() {
    assert_eq!(
        wrap_exec_command("svc-abc", Some("main"), "ps -ef"),
        "kubectl exec -c 'main' 'svc-abc' -- sh -c 'ps -ef'"
    );
}

#[test]
fn test_wrap_exec_command_escapes_inner_quotes() {
    let wrapped = wrap_exec_command("p", None, "grep 'x' /log/a");
    assert!(wrapped.contains(r"-- sh -c 'grep '\''x'\'' /log/a'"), "got: {wrapped}");
}

#[test]
fn test_pkill_pattern_escapes_regex_metachars() {
    assert_eq!(pkill_pattern("/jdk-21.0.11+9/bin/jcmd 1 GC.heap_dump"), "[/]jdk-21\\.0\\.11\\+9/bin/jcmd 1 GC\\.heap_dump");
}

#[test]
fn test_pkill_pattern_brackets_first_char_for_self_exclusion() {
    let p = pkill_pattern("jstat -gcutil 1");
    assert!(p.starts_with("[j]"), "first char must be bracketed for self-exclusion: {p}");
    assert!(!p.contains("[j][j]"), "no double bracketing: {p}");
}

#[test]
fn test_validate_pod_path() {
    assert!(validate_pod_path("/opt/log/dump/coredump/x").is_ok());
    assert!(validate_pod_path("relative/x").is_err());
    assert!(validate_pod_path("/a\0b").is_err());
}

#[test]
fn test_run_delegates_wrapped_command_to_base() {
    let mut base = Base::new(vec![]);
    base.answer(channel(None).run("jstat -gcutil 7"));
    assert_eq!(base.runs[0], "kubectl exec 'svc-1' -- sh -c 'jstat -gcutil 7'");
}

#[test]
fn test_run_with_container_flag() {
    let mut base = Base::new(vec![]);
    base.answer(channel(Some("main")).run("ps -ef"));
    assert_eq!(base.runs[0], "kubectl exec -c 'main' 'svc-1' -- sh -c 'ps -ef'");
}

#[test]
fn test_upload_happy_path_two_legs_and_chgrp() {
    let mut base = Base::new(vec![]);
    let remote = "/opt/log/dump/coredump/friday-tools/jdk.tar.gz";
    base.upload(channel(None).upload("/local/jdk.tar.gz", remote)).unwrap();
    assert_eq!(base.uploads.len(), 1);
    assert!(
        base.uploads[0].1.starts_with("/tmp/friday-tools/staging/"),
        "staging: {}",
        base.uploads[0].1
    );
    assert!(base.uploads[0].1.ends_with("-jdk.tar.gz"));
    let runs = &base.runs;
    let host_leg = runs.iter().find(|c| c.contains("kubectl exec -i")).expect("host leg");
    assert!(host_leg.contains("< "), "host stdin redirect: {host_leg}");
    assert!(
        host_leg.contains(r"cat > '\''/opt/log/dump/coredump/friday-tools/jdk.tar.gz'\''"),
        "{host_leg}"
    );
    assert!(
        host_leg.contains(r"mkdir -p '\''/opt/log/dump/coredump/friday-tools'\''"),
        "{host_leg}"
    );
    let chgrp = runs.iter().find(|c| c.contains("chgrp ossgroup")).expect("chgrp leg");
    assert!(chgrp.contains("kubectl exec"), "chgrp must run inside pod: {chgrp}");
    assert!(chgrp.contains("chmod g+r"));
    assert!(runs.iter().any(|c| c.contains("rm -f '/tmp/friday-tools/staging/")));
}

fn removed_in_pod(runs: &[String]) -> bool {
    runs.iter().any(|c| {
        c.contains("kubectl exec")
            && c.contains(r"rm -f '\''/opt/log/dump/coredump/friday-tools/x'\''")
    })
}

#[test]
fn test_upload_host_leg_failure_cleans_remote_and_errors() {
    let mut base = Base::new(vec![("", 0), ("", 1), ("", 0), ("", 0)]);
    let flow = channel(None).upload("/local/x", "/opt/log/dump/coredump/friday-tools/x");
    let err = base.upload(flow).unwrap_err();
    assert!(err.contains("kubectl exec -i failed"), "err: {err}");
    assert!(removed_in_pod(&base.runs), "remote cleanup: {:?}", base.runs);
}

#[test]
fn test_upload_chgrp_failure_cleans_remote_and_errors() {
    let mut base = Base::new(vec![("", 0), ("", 0), ("", 0), ("", 1), ("", 0)]);
    let flow = channel(None).upload("/local/x", "/opt/log/dump/coredump/friday-tools/x");
    let err = base.upload(flow).unwrap_err();
    assert!(err.contains("chgrp ossgroup failed"), "err: {err}");
    assert!(removed_in_pod(&base.runs), "remote cleanup: {:?}", base.runs);
}

#[test]
fn test_upload_rejects_relative_path() {
    let mut base = Base::new(vec![]);
    let err = base.upload(channel(None).upload("/local/x", "relative/x")).unwrap_err();
    assert!(err.contains("absolute"), "err: {err}");
}

#[test]
fn test_download_happy_path_two_legs() {
    let mut base = Base::new(vec![("1024", 0), ("", 0), ("", 0)]);
    base.local_size = 1024;
    let local = "/work/dump.hprof";
    base.download(channel(None).download("/opt/log/dump/coredump/dump.hprof", local, 4096)).unwrap();
    let runs = &base.runs;
    assert!(runs[0].contains("kubectl exec"), "stat leg: {}", runs[0]);
    assert!(
        runs[0].contains(r"stat -c %s '\''/opt/log/dump/coredump/dump.hprof'\''"),
        "stat leg: {}",
        runs[0]
    );
    let leg1 = runs.iter().find(|c| c.contains(" -- cat ")).expect("leg 1 host cmd");
    assert!(leg1.starts_with("kubectl exec 'svc-1' -- cat "), "leg1: {leg1}");
    assert!(leg1.contains(r"cat '/opt/log/dump/coredump/dump.hprof'"), "leg1: {leg1}");
    assert!(leg1.contains("> '/tmp/friday-tools/staging/"), "leg1 host redirect: {leg1}");
    assert!(leg1.ends_with("-dump.hprof'"), "leg1 staging basename: {leg1}");
    let downloads = &base.downloads;
    assert_eq!(downloads.len(), 1);
    assert!(downloads[0].0.starts_with("/tmp/friday-tools/staging/"), "staging: {}", downloads[0].0);
    assert!(downloads[0].0.ends_with("-dump.hprof"), "staging: {}", downloads[0].0);
    assert_eq!(downloads[0].1, local);
    assert_eq!(downloads[0].2, 4096, "offset must pass through to leg 2");
    assert!(
        runs.iter().any(|c| c.contains("rm -f '/tmp/friday-tools/staging/")),
        "staging cleanup: {runs:?}"
    );
}

#[test]
fn test_download_pod_file_missing() {
    let mut base = Base::new(vec![("", 1)]);
    let flow = channel(None).download("/opt/log/dump/coredump/none.hprof", "/work/x.hprof", 0);
    let err = base.download(flow).unwrap_err();
    assert!(err.contains("容器内文件不存在"), "err: {err}");
    assert_eq!(base.runs.len(), 1, "only the stat leg should run: {:?}", base.runs);
    assert!(base.downloads.is_empty(), "no leg 2");
}

#[test]
fn test_download_leg1_failure_cleans_staging() {
    let mut base = Base::new(vec![("1024", 0), ("", 1), ("", 0)]);
    let flow = channel(None).download("/opt/log/dump/coredump/d.hprof", "/work/d.hprof", 0);
    let err = base.download(flow).unwrap_err();
    assert!(err.contains("leg 1"), "err: {err}");
    assert!(
        base.runs.iter().any(|c| c.contains("rm -f '/tmp/friday-tools/staging/")),
        "half-written staging must be cleaned: {:?}",
        base.runs
    );
    assert!(base.downloads.is_empty(), "no leg 2");
}

#[test]
fn test_download_size_mismatch_detected() {
    let mut base = Base::new(vec![("1024", 0), ("", 0), ("", 0)]);
    base.local_size = 512;
    let flow = channel(None).download("/opt/log/dump/coredump/d.hprof", "/work/d.hprof", 0);
    let err = base.download(flow).unwrap_err();
    assert!(err.contains("size mismatch"), "err: {err}");
}

#[test]
fn test_download_rejects_relative_path() {
    let mut base = Base::new(vec![]);
    let err = base.download(channel(None).download("relative/x", "/work/x", 0)).unwrap_err();
    assert!(err.contains("absolute"), "err: {err}");
    assert!(base.runs.is_empty(), "no commands should run");
    assert!(base.downloads.is_empty(), "no downloads");
}

#[test]
fn staging_names_differ_between_transfers() {
    let remote = "/opt/log/dump/coredump/x";
    let one = channel(None).upload("/local/x", remote).unwrap();
    let two = channel(None).upload("/local/x", remote).unwrap();
    assert_ne!(one.staging, two.staging);
}

#[test]
fn a_size_that_is_no_number_is_shown_in_quotes() {
    let mut base = Base::new(vec![("12\tkB", 0)]);
    let flow = channel(None).download("/opt/log/dump/coredump/d.hprof", "/work/d.hprof", 0);
    let err = base.download(flow).unwrap_err();
    assert_eq!(err, "k8s download: unexpected stat output: \"12\\tkB\"");
}

#[test]
fn a_second_leg_that_is_lost_leaves_nothing_behind() {
    let mut base = Base::new(vec![]);
    base.lost = Some(2);
    let flow = channel(None).upload("/local/x", "/opt/log/dump/coredump/friday-tools/x");
    assert_eq!(base.upload(flow), Err("connection lost".to_string()));
    assert_eq!(base.runs.len(), 4, "runs: {:?}", base.runs);
    assert_eq!(base.runs[2], format!("rm -f '{}'", base.uploads[0].1));
    assert!(removed_in_pod(&base.runs[3..]), "remote cleanup: {:?}", base.runs);
}

#[test]
fn a_change_of_group_that_is_lost_removes_the_file() {
    let mut base = Base::new(vec![]);
    base.lost = Some(4);
    let flow = channel(None).upload("/local/x", "/opt/log/dump/coredump/friday-tools/x");
    assert_eq!(base.upload(flow), Err("connection lost".to_string()));
    assert_eq!(base.runs[2], format!("rm -f '{}'", base.uploads[0].1));
    assert!(removed_in_pod(&base.runs[4..]), "remote cleanup: {:?}", base.runs);
}

#[test]
fn a_first_leg_that_is_lost_leaves_no_staging_file() {
    let mut base = Base::new(vec![("1024", 0)]);
    base.lost = Some(2);
    let flow = channel(None).download("/opt/log/dump/coredump/d.hprof", "/work/d.hprof", 0);
    assert_eq!(base.download(flow), Err("connection lost".to_string()));
    assert_eq!(base.runs.len(), 3, "runs: {:?}", base.runs);
    assert!(base.runs[2].starts_with("rm -f '/tmp/friday-tools/staging/"), "{}", base.runs[2]);
}

#[test]
fn a_kill_pattern_does_not_hold_its_command() {
    for command in ["jcmd [1] a\\b", "a]b", ".a", "kubectl port-forward pod/x"] {
        assert!(!pkill_pattern(command).contains(command), "{command}");
    }
    assert!(pkill_pattern("a]").contains("a]"));
}

#[test]
fn a_container_without_stat_counts_the_bytes() {
    let mut base = Base::new(vec![("", 127), (" 1024\n", 0)]);
    base.local_size = 1024;
    let remote = "/opt/log/dump/coredump/d.hprof";
    base.download(channel(None).download(remote, "/work/d.hprof", 0)).unwrap();
    assert!(base.runs[0].contains("stat -c %s "), "{}", base.runs[0]);
    assert!(
        base.runs[1].starts_with("kubectl exec 'svc-1' -- sh -c 'wc -c < '"),
        "{}",
        base.runs[1]
    );
    assert!(base.runs[1].contains(remote), "{}", base.runs[1]);
    let mut base = Base::new(vec![("", 127), ("", 1)]);
    let err = base.download(channel(None).download(remote, "/work/d.hprof", 0)).unwrap_err();
    assert!(err.contains("容器内文件不存在") && err.contains("exit 1"), "err: {err}");
}

#[test]
fn a_namespace_goes_with_every_command_into_the_pod() {
    let there = || K8sChannel { namespace: Some("ns1".to_string()), ..channel(Some("main")) };
    let mut base = Base::new(vec![]);
    base.answer(there().run("ps -ef"));
    assert_eq!(base.runs[0], "kubectl exec -n 'ns1' -c 'main' 'svc-1' -- sh -c 'ps -ef'");
    base.upload(there().upload("/local/x", "/opt/log/dump/coredump/x")).unwrap();
    let mut other = Base::new(vec![("16", 0)]);
    other.download(there().download("/opt/log/dump/coredump/x", "/work/x", 0)).unwrap();
    for cmd in base.runs.iter().chain(other.runs.iter()).filter(|c| c.contains("kubectl")) {
        assert!(cmd.contains("-n 'ns1' -c 'main' 'svc-1' -- "), "{cmd}");
    }
}
