use friday::flow::{Action, Output, Reply};
use friday::provision::arthas::{
    arthas_home, ArthasPackage, HostEnsure, HostStage, PodEnsure, PodStage, ARTHAS_ZIP_MIN_BYTES,
};
use friday::provision::k8s::{JdkEnsure, JdkStage, K8sJdkPackage, JDK_TARBALL_MIN_BYTES};
use friday::provision::package::{
    Answer, Bins, JvmProbe, ProvisionError, ProvisionResult, StageTimeouts, Task,
};
use std::collections::VecDeque;

type Outcome = Result<ProvisionResult<String>, ProvisionError<String>>;

/// A scripted target: it answers tasks in turn and writes down what it was asked.
struct World {
    script: VecDeque<(&'static str, i32)>,
    calls: Vec<String>,
    spawned: Vec<String>,
    uploads: Vec<(String, String)>,
    sizes: Vec<(String, u64)>,
    probe: JvmProbe<String>,
    url: String,
    cached: Option<String>,
    lost: Option<usize>,
}

impl World {
    fn new(script: Vec<(&'static str, i32)>) -> World {
        World {
            script: script.into_iter().collect(),
            calls: Vec::new(),
            spawned: Vec::new(),
            uploads: Vec::new(),
            sizes: Vec::new(),
            probe: JvmProbe {
                openjdk_version: "21.0.11".to_string(),
                bisheng_version: "205.2.0.110.B001".to_string(),
                arch: "x86_64".to_string(),
            },
            url: "https://artifactory.example.com/artifactory/release/jdk.tar.gz".to_string(),
            cached: None,
            lost: None,
        }
    }

    fn with_file(mut self, path: &str, size: u64) -> World {
        self.sizes.push((path.to_string(), size));
        self
    }

    fn next(&mut self, cmd: String) -> Output<String> {
        self.calls.push(cmd);
        let (stdout, exit_code) = self.script.pop_front().unwrap_or(("", 1));
        Output { stdout: stdout.to_string(), stderr: String::new(), exit_code }
    }

    fn lost_now(&self) -> bool {
        self.lost == Some(self.calls.len())
    }

    fn check(&self, path: &str, min_bytes: u64) -> Result<(), String> {
        match self.sizes.iter().find(|f| f.0 == path) {
            Some(f) if f.1 >= min_bytes => Ok(()),
            Some(_) => Err("too small".to_string()),
            None => Err("missing".to_string()),
        }
    }

    fn answer(&mut self, task: Task<String>) -> Answer<String> {
        match task {
            Task::Progress { .. } => Answer::Done { done: Ok(()) },
            Task::Probe { .. } => {
                self.next("probe".to_string());
                Answer::Probed {
                    probed: Ok(JvmProbe {
                        openjdk_version: self.probe.openjdk_version.clone(),
                        bisheng_version: self.probe.bisheng_version.clone(),
                        arch: self.probe.arch.clone(),
                    }),
                }
            },
            Task::Run { cmd, stage, .. } => {
                let out = self.next(cmd);
                let lost = ProvisionError::new("connection_error", &stage, "lost".to_string());
                Answer::Ran { ran: if self.lost_now() { Err(lost) } else { Ok(out) } }
            },
            Task::Spawn { cmd } => {
                self.spawned.push(cmd);
                Answer::Done { done: Ok(()) }
            },
            Task::CheckFile { path, min_bytes } => {
                Answer::Done { done: self.check(path.as_str(), min_bytes) }
            },
            Task::Upload { local, remote } => {
                self.uploads.push((local, remote));
                Answer::Done { done: Ok(()) }
            },
            Task::ResolveUrl => Answer::Found { found: Ok(self.url.clone()) },
            Task::RemoteDownload { .. } => {
                let out = self.next("command -v curl || command -v wget".to_string());
                let done = if out.exit_code == 0 { Ok(()) } else { Err("no downloader".to_string()) };
                Answer::Done { done }
            },
            Task::LocalDownload { .. } => Answer::Found {
                found: match &self.cached {
                    Some(path) => Ok(path.clone()),
                    None => Err("offline".to_string()),
                },
            },
            Task::DeleteLocal { .. } => Answer::Done { done: Ok(()) },
            Task::Finished => panic!("already finished"),
        }
    }

    fn host(&mut self, mut flow: HostEnsure<String>) -> Outcome {
        loop {
            if let HostStage::Ended { result } = flow.stage {
                return result;
            }
            let answer = self.answer(flow.request());
            flow.step(answer);
        }
    }

    fn jdk(&mut self) -> Outcome {
        let mut flow: JdkEnsure<String> = K8sJdkPackage.ensure(
            "k8s_open",
            "/opt/log/dump/heapdump/friday-tools",
            "https://artifactory.example.com/artifactory/release",
            "java",
            times(),
        );
        loop {
            if let JdkStage::Ended { result } = flow.stage {
                return result;
            }
            let answer = self.answer(flow.request());
            flow.step(answer);
        }
    }

    fn pod(&mut self, container: Option<&str>, zip: &str) -> Outcome {
        let mut flow: PodEnsure<String> = ArthasPackage.ensure_k8s("svc-1", container, Some(zip));
        loop {
            if let PodStage::Ended { result } = flow.stage {
                return result;
            }
            let reply: Reply<String> = match flow.request() {
                Action::Run { cmd, .. } => {
                    let out = self.next(cmd);
                    let ran = if self.lost_now() { Err("lost".to_string()) } else { Ok(out) };
                    Reply::Ran { ran, late: false }
                },
                Action::Upload { local, remote, .. } => {
                    self.uploads.push((local, remote));
                    Reply::Done { done: Ok(()), late: false }
                },
                Action::CheckFile { path, min_bytes } => {
                    Reply::Done { done: self.check(path.as_str(), min_bytes), late: false }
                },
                other => panic!("not expected: {other:?}"),
            };
            flow.step(reply);
        }
    }
}

fn times() -> StageTimeouts {
    StageTimeouts { probe: 30, extract: 300, verify: 30 }
}

const ZIP: &str = "/local/arthas-bin-4.3.5.zip";

#[test]
fn test_arthas_home() {
    assert_eq!(arthas_home(), "/tmp/friday-tools/arthas-4.3.5");
}

#[test]
fn test_ensure_cache_hit_skips_upload() {
    let mut world = World::new(vec![("", 0)]);
    let result = world.host(ArthasPackage.ensure(None, times())).unwrap();
    assert!(result.cached);
    assert_eq!(result.tool_home, "/tmp/friday-tools/arthas-4.3.5");
    assert!(world.uploads.is_empty(), "cache hit must not upload");
    assert!(
        world.calls.iter().all(|c| !c.contains("unzip") && !c.contains("python3")),
        "calls: {:?}",
        world.calls
    );
}

#[test]
fn test_ensure_missing_zip_reports_structured_error() {
    let mut world = World::new(vec![("", 1)]);
    let err = world.host(ArthasPackage.ensure(None, times())).unwrap_err();
    assert!(err.stage == "vendored_package" || err.message.contains("未随应用分发"), "err: {err:?}");
    assert!(world.uploads.is_empty());
}

#[test]
fn test_ensure_corrupt_zip_reports_error() {
    let mut world = World::new(vec![("", 1)]).with_file(ZIP, 1024);
    let err = world.host(ArthasPackage.ensure(Some(ZIP), times())).unwrap_err();
    assert!(err.message.contains("arthas") || err.stage == "vendored_package", "err: {err:?}");
    assert!(world.uploads.is_empty(), "corrupt zip must not upload");
}

#[test]
fn test_ensure_uploads_and_extracts() {
    let mut world = World::new(vec![("", 1), ("", 0), ("", 0)]).with_file(ZIP, 6 * 1024 * 1024);
    let result = world.host(ArthasPackage.ensure(Some(ZIP), times())).unwrap();
    assert!(!result.cached);
    assert_eq!(result.tool_home, "/tmp/friday-tools/arthas-4.3.5");
    assert_eq!(world.uploads.len(), 1);
    assert_eq!(world.uploads[0].0, ZIP);
    assert_eq!(world.uploads[0].1, "/tmp/friday-tools/arthas-bin-4.3.5.zip");
    let calls = &world.calls;
    assert!(calls.iter().any(|c| c.contains("unzip -q -o arthas-bin-4.3.5.zip")), "calls: {calls:?}");
    assert!(calls.iter().any(|c| c.contains("arthas-boot.jar")), "find arthas-boot.jar: {calls:?}");
    assert!(calls.iter().all(|c| !c.contains("curl") && !c.contains("wget")), "calls: {calls:?}");
}

const K8S_DIST: &str = "/opt/log/dump/coredump/friday-tools/arthas-dist";
const K8S_BOOT_CHECK: &str =
    "test -f '/opt/log/dump/coredump/friday-tools/arthas-dist/arthas-boot.jar'";

#[test]
fn test_ensure_k8s_cache_hit() {
    let mut world = World::new(vec![("", 0)]);
    let result = world.pod(None, "/local/arthas.zip").unwrap();
    assert!(result.cached);
    assert_eq!(result.tool_home, K8S_DIST);
    assert!(world.uploads.is_empty(), "cache hit must not upload");
    let calls = &world.calls;
    assert_eq!(calls.len(), 1, "only the cache check should run: {calls:?}");
    assert!(calls[0].contains("kubectl exec"), "check: {}", calls[0]);
    assert!(calls[0].contains(K8S_BOOT_CHECK), "check: {}", calls[0]);
}

fn full_script() -> Vec<(&'static str, i32)> {
    vec![("", 1), ("", 0), ("", 0), ("", 0), ("", 0), ("", 0), ("", 0)]
}

#[test]
fn test_ensure_k8s_full_flow() {
    let mut world = World::new(full_script()).with_file(ZIP, 6 * 1024 * 1024);
    let result = world.pod(None, ZIP).unwrap();
    assert!(!result.cached);
    assert_eq!(result.tool_home, K8S_DIST);
    assert_eq!(result.tool, "arthas");
    let uploads = &world.uploads;
    assert_eq!(uploads.len(), 1);
    assert_eq!(uploads[0].0, ZIP);
    assert!(
        uploads[0].1.starts_with("/tmp/friday-tools/staging/arthas-")
            && uploads[0].1.ends_with("/arthas.zip"),
        "host zip: {}",
        uploads[0].1
    );
    let calls = &world.calls;
    let extract = calls.iter().find(|c| c.contains("unzip -oq arthas.zip")).expect("extract cmd");
    assert!(extract.contains("tar czf arthas.tar.gz"), "extract: {extract}");
    let inject = calls.iter().find(|c| c.contains("kubectl exec -i")).expect("inject cmd");
    assert!(inject.contains("< '/tmp/friday-tools/staging/arthas-"), "inject: {inject}");
    assert!(inject.contains("/arthas.tar.gz'"), "inject: {inject}");
    assert!(inject.contains("mkdir -p"), "inject: {inject}");
    assert!(inject.contains("tar xz -C"), "inject: {inject}");
    let chgrp = calls.iter().find(|c| c.contains("chgrp -R ossgroup")).expect("chgrp cmd");
    assert!(chgrp.contains("kubectl exec"), "chgrp must run inside pod: {chgrp}");
    assert!(chgrp.contains("chmod -R g+rX"), "chgrp: {chgrp}");
    assert_eq!(
        calls.iter().filter(|c| c.contains(K8S_BOOT_CHECK)).count(),
        2,
        "calls: {calls:?}"
    );
    assert!(
        calls.iter().any(|c| c.contains("rm -rf '/tmp/friday-tools/staging/arthas-")),
        "staging cleanup: {calls:?}"
    );
}

#[test]
fn test_ensure_k8s_inject_failure_cleans_pod_dist() {
    let mut world =
        World::new(vec![("", 1), ("", 0), ("", 0), ("", 1)]).with_file(ZIP, 6 * 1024 * 1024);
    let err = world.pod(None, ZIP).unwrap_err();
    assert_eq!(err.code, "provision_failed");
    assert_eq!(err.stage, "inject");
    assert!(err.message.contains("svc-1"), "err must carry pod: {err:?}");
    let calls = &world.calls;
    assert!(
        calls
            .iter()
            .any(|c| c.contains("kubectl exec") && c.contains(&format!("rm -rf '{K8S_DIST}'"))),
        "pod dist cleanup must fire: {calls:?}"
    );
    assert!(
        calls.iter().any(|c| c.contains("rm -rf '/tmp/friday-tools/staging/arthas-")),
        "staging cleanup: {calls:?}"
    );
}

#[test]
fn test_ensure_k8s_container_flag() {
    let mut world = World::new(full_script()).with_file(ZIP, 6 * 1024 * 1024);
    let result = world.pod(Some("main"), ZIP).unwrap();
    assert!(!result.cached);
    let calls = &world.calls;
    let kubectl_cmds: Vec<&String> = calls.iter().filter(|c| c.contains("kubectl exec")).collect();
    assert!(!kubectl_cmds.is_empty(), "calls: {calls:?}");
    for c in &kubectl_cmds {
        assert!(c.contains("-c 'main' "), "missing container flag: {c}");
    }
}

#[test]
fn test_musl_container_rejected_upfront() {
    let mut world = World::new(vec![("", 0), ("", 0)]);
    let err = world.jdk().unwrap_err();
    assert_eq!(err.code, "unsupported_libc");
    assert_eq!(err.stage, "musl_check");
}

#[test]
fn test_container_native_jcmd_short_circuits() {
    let mut world = World::new(vec![("", 0), ("", 1), ("/usr/bin/jcmd\n/usr/bin/jstat\n", 0)]);
    let result = world.jdk().unwrap();
    assert!(result.cached);
    let native =
        Bins::Native { jcmd: "/usr/bin/jcmd".to_string(), jstat: "/usr/bin/jstat".to_string() };
    assert_eq!(result.bins, native);
    assert!(world.uploads.is_empty());
    assert!(!world.calls.iter().any(|c| c.contains("curl") || c.contains("wget")));
}

const TARBALL: &str = "/cache/jdk.tar.gz";

#[test]
fn test_full_path_channel_b_upload_and_chgrp_extract() {
    let script = vec![("", 0), ("", 1), ("", 1), ("", 1), ("", 1), ("", 0), ("", 0)];
    let mut world = World::new(script).with_file(TARBALL, JDK_TARBALL_MIN_BYTES + 1024);
    world.cached = Some(TARBALL.to_string());
    let result = world.jdk().unwrap();
    assert!(!result.cached);
    assert_eq!(result.tool_home, "/opt/log/dump/heapdump/friday-tools/jdk-21.0.11");
    assert_eq!(world.uploads.len(), 1);
    assert_eq!(world.uploads[0].1, "/opt/log/dump/heapdump/friday-tools/jdk-21.0.11.tar.gz");
    let extract = world.calls.iter().find(|c| c.contains("tar --no-same-owner")).expect("extract cmd");
    assert!(extract.contains("chgrp -R ossgroup"), "extract: {extract}");
    assert!(extract.contains("chmod -R g+rX"), "extract: {extract}");
}

#[test]
fn test_extract_failure_cleans_home() {
    let script =
        vec![("", 0), ("", 1), ("", 1), ("", 1), ("", 1), ("chgrp: Operation not permitted", 1)];
    let mut world = World::new(script).with_file(TARBALL, JDK_TARBALL_MIN_BYTES + 1024);
    world.cached = Some(TARBALL.to_string());
    let err = world.jdk().unwrap_err();
    assert_eq!(err.code, "provision_failed");
    assert!(
        world
            .spawned
            .iter()
            .any(|c| c.contains("rm -rf /opt/log/dump/heapdump/friday-tools/jdk-21.0.11")),
        "cleanup must fire: {:?}",
        world.spawned
    );
}

#[test]
fn a_small_tarball_is_not_sent() {
    let script = vec![("", 0), ("", 1), ("", 1), ("", 1), ("", 1)];
    let mut world = World::new(script).with_file(TARBALL, JDK_TARBALL_MIN_BYTES - 1);
    world.cached = Some(TARBALL.to_string());
    assert!(world.jdk().is_err());
    assert!(world.uploads.is_empty());
}

#[test]
fn a_zip_is_taken_from_the_least_size_on() {
    let mut world =
        World::new(vec![("", 1), ("", 0), ("", 0)]).with_file(ZIP, ARTHAS_ZIP_MIN_BYTES);
    assert!(world.host(ArthasPackage.ensure(Some(ZIP), times())).is_ok());
}

#[test]
fn a_command_that_is_lost_leaves_nothing_in_the_pod_and_on_the_host() {
    for (lost, stage) in [(3, "extract"), (4, "inject"), (5, "ownership"), (6, "verify")] {
        let script = vec![("", 1), ("", 0), ("", 0), ("", 0), ("", 0), ("", 0), ("", 0), ("", 0)];
        let mut world = World::new(script).with_file(ZIP, ARTHAS_ZIP_MIN_BYTES);
        world.lost = Some(lost);
        let err = world.pod(None, ZIP).unwrap_err();
        assert_eq!(err.stage, stage);
        assert!(err.message.ends_with(": lost"), "err: {}", err.message);
        let after = &world.calls[lost..];
        if lost > 3 {
            assert_eq!(after.len(), 2, "calls: {after:?}");
            assert!(after[0].starts_with("kubectl exec 'svc-1' -- rm -rf "), "{}", after[0]);
        } else {
            assert_eq!(after.len(), 1, "calls: {after:?}");
        }
        let last = &after[after.len() - 1];
        assert!(last.starts_with("rm -rf '/tmp/friday-tools/staging/arthas-"), "{last}");
    }
}

#[test]
fn an_unpacking_that_is_lost_is_cleaned_up() {
    let mut world =
        World::new(vec![("", 1), ("", 0)]).with_file(ZIP, ARTHAS_ZIP_MIN_BYTES);
    world.lost = Some(2);
    let err = world.host(ArthasPackage.ensure(Some(ZIP), times())).unwrap_err();
    assert_eq!((err.code.as_str(), err.message.as_str()), ("connection_error", "lost"));
    assert_eq!(
        world.spawned,
        ["rm -rf /tmp/friday-tools/arthas-tmp-4.3.5 /tmp/friday-tools/arthas-4.3.5"]
    );
    let script = vec![("", 0), ("", 1), ("", 1), ("", 1), ("", 1), ("", 0)];
    let mut world = World::new(script).with_file(TARBALL, JDK_TARBALL_MIN_BYTES + 1024);
    world.cached = Some(TARBALL.to_string());
    world.lost = Some(6);
    assert_eq!(world.jdk().unwrap_err().message, "lost");
    assert_eq!(world.spawned, ["rm -rf /opt/log/dump/heapdump/friday-tools/jdk-21.0.11"]);
}
