use friday::arthas::session::{
    attach_arthas, attach_arthas_in_pod, AttachRequest, PodAttachStage,
};
use friday::arthas::vm::{attach_arthas_on_vm, VmStage};
use friday::exec::ssh::SshAuth;
use friday::flow::{Action, Output, Reply, Site};
use friday::provision::package::{Answer, StageTimeouts, Task};
use friday::tools::call::{moment, moment_over, Answer as Told};
use friday::tools::output::{artifact_file, artifact_file_over};

/// A scripted outside for a whole attach.
struct World {
    users: &'static str,
    credential: Option<&'static str>,
    secret: Option<&'static str>,
    ready: bool,
    writable: bool,
    attachable: bool,
    native: bool,
    bridge: bool,
    events: Vec<String>,
    clock: u64,
    since: Option<u64>,
}

impl World {
    fn new(users: &'static str) -> World {
        World {
            users,
            credential: None,
            secret: None,
            ready: true,
            writable: true,
            attachable: true,
            native: true,
            bridge: true,
            events: Vec::new(),
            clock: 0,
            since: None,
        }
    }

    fn output(&self, cmd: &str) -> Output<String> {
        let stdout = if cmd.starts_with("ps -o user=") {
            self.users
        } else if cmd.contains("seq 18563") {
            "18565\n18566\n"
        } else if cmd.contains("command -v java") {
            "/usr/bin/java\n"
        } else if cmd.contains("jsonpath") {
            "10.0.0.7"
        } else if cmd.contains("/dev/tcp/") && cmd.contains("18565") && self.attached() {
            if self.ready {
                "busy\n"
            } else {
                "free\n"
            }
        } else if cmd.contains("/dev/tcp/") {
            "free\n"
        } else if cmd.contains("nohup kubectl port-forward") {
            "4242\n"
        } else if cmd.starts_with("cat ") {
            "Forwarding from 127.0.0.1:54321 -> 18565\n"
        } else {
            ""
        };
        let failed = cmd.contains("arthas.properties") && !self.writable
            || cmd.contains("--attach-only") && !self.attachable;
        let exit_code = if failed { 1 } else { 0 };
        Output { stdout: stdout.to_string(), stderr: String::new(), exit_code }
    }

    fn attached(&self) -> bool {
        self.events.iter().any(|e| e.contains("--attach-only"))
    }

    fn answer(&mut self, action: Action<String>, budget: Option<u64>) -> Reply<String> {
        if budget.is_none() {
            self.since = None;
        } else if self.since.is_none() {
            self.since = Some(self.clock);
        }
        self.clock += 1;
        if let Action::Pause { millis } = action {
            self.clock += millis;
        }
        let late: bool = match (budget, self.since) {
            (Some(b), Some(at)) => self.clock - at >= b,
            _ => false,
        };
        let refused = |ok: bool| if ok { Ok(()) } else { Err("refused".to_string()) };
        match action {
            Action::Run { site, cmd, .. } => {
                let out = self.output(cmd.as_str());
                self.events.push(format!("{site:?}:{cmd}"));
                Reply::Ran { ran: Ok(out), late }
            },
            Action::Provision { task } => {
                let answer = match task {
                    Task::Progress { .. } => Answer::Done { done: Ok(()) },
                    Task::Run { cmd, .. } => Answer::Ran { ran: Ok(self.output(cmd.as_str())) },
                    other => panic!("not expected: {other:?}"),
                };
                Reply::Answered { answer }
            },
            Action::BaseUrl => Reply::Text { text: Ok("https://tools.example.com".to_string()) },
            Action::CachedJdk => Reply::Maybe { maybe: Some("/opt/jdk".to_string()) },
            Action::FindCredential { username } => {
                self.events.push(format!("credential:{username}"));
                Reply::Maybe { maybe: self.credential.map(|c| c.to_string()) }
            },
            Action::ParseAuth { .. } => Reply::Auth { auth: Some(SshAuth::Password) },
            Action::LoadSecret { .. } => Reply::Maybe { maybe: self.secret.map(|s| s.to_string()) },
            Action::ActivePorts => Reply::Ports { ports: vec![18563, 18564] },
            Action::OpenTunnel { .. } => Reply::Port { port: Ok(40000) },
            Action::ConnectNative { url } => {
                self.events.push(format!("native:{url}"));
                Reply::Done { done: refused(self.native), late }
            },
            Action::ConnectBridge { url } => {
                self.events.push(format!("bridge:{url}"));
                Reply::Done { done: refused(self.bridge), late: true }
            },
            Action::DropTemporary => {
                self.events.push("drop".to_string());
                Reply::Done { done: Ok(()), late }
            },
            Action::ConnectTemporary { username } => {
                self.events.push(format!("login:{username}"));
                Reply::Done { done: Ok(()), late }
            },
            Action::Progress { .. } | Action::Acquire { .. } | Action::LoadEnvironment
            | Action::Pause { .. } | Action::ProbeLocal { .. } | Action::CloseTunnel { .. } => {
                Reply::Done { done: Ok(()), late }
            },
            other => panic!("not expected: {other:?}"),
        }
    }

    fn on_vm(&mut self) -> Result<u16, String> {
        let mut flow = attach_arthas_on_vm(77, "java", None, times());
        assert_eq!(flow.token.len(), 32);
        loop {
            let action = flow.request();
            if action == Action::Finished {
                break;
            }
            let reply = self.answer(action, flow.budget());
            flow = flow.step(reply);
        }
        match flow.stage {
            VmStage::Ended { result } => result,
            other => panic!("not ended: {other:?}"),
        }
    }

    fn index(&self, what: &str) -> usize {
        self.events.iter().position(|e| e.contains(what)).expect(what)
    }

    fn has(&self, what: &str) -> bool {
        self.events.iter().any(|e| e.contains(what))
    }
}

fn times() -> StageTimeouts {
    StageTimeouts { probe: 30, extract: 300, verify: 30 }
}

#[test]
fn an_attach_on_a_machine_runs_as_the_user_of_the_jvm() {
    let mut world = World::new("svc\n---\nsvc\n");
    assert_eq!(world.on_vm(), Ok(18565));
    assert!(world.index("arthas.properties") < world.index("--attach-only"));
    assert!(world.index("--attach-only") < world.index("bridge:http://127.0.0.1:18565/mcp"));
    let attach = &world.events[world.index("--attach-only")];
    assert!(attach.starts_with("Host:"), "attach: {attach}");
    assert!(attach.contains("--http-port 18565 --telnet-port 18566 77"), "attach: {attach}");
    assert!(attach.contains("/opt/jdk/bin/java"), "attach: {attach}");
    assert!(!world.has("credential:") && !world.has("drop"));
    assert!(!world.has("/api"), "a session that stands is not stopped: {:?}", world.events);
}

#[test]
fn another_user_is_logged_in_for_the_attach_alone() {
    let mut world = World::new("svc\n---\nops\n");
    world.credential = Some("c1");
    world.secret = Some("SECRET-REDACTED");
    assert_eq!(world.on_vm(), Ok(18565));
    assert!(world.index("credential:svc") < world.index("login:svc"));
    let attach = &world.events[world.index("--attach-only")];
    assert!(attach.starts_with("Temporary:"), "attach: {attach}");
    assert!(world.index("--attach-only") < world.index("drop"));
}

#[test]
fn without_a_credential_for_the_user_nothing_is_attached() {
    let mut world = World::new("svc\n---\nops\n");
    let err = world.on_vm().unwrap_err();
    assert!(err.contains("svc"), "err: {err}");
    assert!(!world.attached());
}

#[test]
fn a_blank_password_is_refused() {
    let mut world = World::new("svc\n---\nops\n");
    world.credential = Some("c1");
    world.secret = None;
    assert!(world.on_vm().is_err());
    assert!(!world.attached());
}

#[test]
fn root_attaches_for_everybody() {
    let mut world = World::new("svc\n---\nroot\n");
    assert_eq!(world.on_vm(), Ok(18565));
    assert!(!world.has("credential:"));
}

#[test]
fn arthas_is_stopped_when_it_cannot_be_reached() {
    let mut world = World::new("svc\n---\nsvc\n");
    world.ready = false;
    assert!(world.on_vm().is_err());
    assert!(world.index("--attach-only") < world.index("http://127.0.0.1:18565/api"));

    let mut world = World::new("svc\n---\nsvc\n");
    world.bridge = false;
    let err = world.on_vm().unwrap_err();
    assert!(err.contains("arthas MCP 握手失败"), "err: {err}");
    assert!(world.index("bridge:") < world.index("http://127.0.0.1:18565/api"));
}

fn request(pod: Option<&str>) -> AttachRequest<String> {
    AttachRequest {
        env_id: "env-1".to_string(),
        pid: 77,
        pod: pod.map(|p| p.to_string()),
        container: None,
        java_bin: "java".to_string(),
        zip: None,
        timeouts: times(),
    }
}

#[test]
fn a_session_goes_where_its_request_says() {
    for pod in [None, Some("svc-1")] {
        let mut world = World::new("svc\n---\nsvc\n");
        let mut session = attach_arthas(request(pod));
        loop {
            let action = session.request();
            if action == Action::Finished {
                break;
            }
            let reply = world.answer(action, session.budget());
            session = session.step(reply);
        }
        let (port, lease) = session.outcome().unwrap().unwrap();
        assert_eq!(port, 18565);
        assert_eq!(lease.is_some(), pod.is_some());
        let attach = &world.events[world.index("--attach-only")];
        assert_eq!(attach.starts_with("Target:"), pod.is_some(), "attach: {attach}");
    }
}

#[test]
fn a_pod_that_cannot_be_reached_fails_the_attach() {
    let flow = attach_arthas_in_pod("env-1", "svc-1", None, 77, "java", None);
    let flow = flow.step(Reply::Done { done: Ok(()), late: false });
    assert_eq!(flow.request(), Action::Acquire { site: Site::Target });
    let flow = flow.step(Reply::Done { done: Err("no route".to_string()), late: false });
    match flow.stage {
        PodAttachStage::Ended { result: Err(e) } => assert!(e.contains("no route"), "err: {e}"),
        other => panic!("not ended: {other:?}"),
    }
}

#[test]
fn moments_do_not_go_back() {
    let (first, second) = (moment(), moment());
    match (first, second) {
        (Told::Number { number: a }, Told::Number { number: b }) => assert!(0 < a && a <= b),
        other => panic!("not numbers: {other:?}"),
    }
}

#[test]
fn files_of_results_have_names_of_their_own() {
    assert_eq!(artifact_file_over("jfr", "1-2"), "jfr-1-2.md");
    let (one, two) = (artifact_file("arthas"), artifact_file("arthas"));
    assert_ne!(one, two);
    assert!(one.starts_with("arthas-") && one.ends_with(".md"));
    assert_eq!(one.len(), "arthas-".len() + 36 + ".md".len());
}

#[test]
fn a_moment_before_the_epoch_counts_as_its_beginning() {
    assert_eq!(moment_over(Some(1500)), Told::Number { number: 1500 });
    assert_eq!(moment_over(Some(-1)), Told::Number { number: 0 });
    assert_eq!(moment_over(None), Told::Number { number: 0 });
}

#[test]
fn a_failed_attach_drops_the_connection_that_was_made_for_it() {
    for (writable, attachable) in [(false, true), (true, false)] {
        let mut world = World::new("svc\n---\nops\n");
        world.credential = Some("c1");
        world.secret = Some("SECRET-REDACTED");
        world.writable = writable;
        world.attachable = attachable;
        assert!(world.on_vm().is_err());
        assert_eq!(world.attached(), writable);
        assert_eq!(world.events.iter().filter(|e| *e == "drop").count(), 1);
        assert_eq!(world.events.last().map(|e| e.as_str()), Some("drop"));
    }
    let mut world = World::new("svc\n---\nsvc\n");
    world.attachable = false;
    assert!(world.on_vm().is_err());
    assert!(!world.has("drop"), "the shared connection is kept: {:?}", world.events);
}
