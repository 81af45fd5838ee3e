use friday::arthas::tunnel::{
    establish_pf_tunnel, forwarded_from_port, http_stop_body, http_stop_url_text,
    http_stop_via_tunnel, kill_pf_command, parse_pf_pid, pf_cleanup_command, pf_log_path,
    pf_start_command,
    teardown_pf, teardown_pod_tunnel_session, HttpReply, PfLease, PfTunnelParams, Teardown,
    TeardownStage, Tunnel, TunnelStage,
};
use friday::flow::{Action, Output, Reply};
use std::collections::VecDeque;

/// A scripted outside: it answers actions, keeps time, and writes down what it was asked.
struct World {
    events: Vec<String>,
    host: VecDeque<(&'static str, i32)>,
    opens: VecDeque<Result<u16, String>>,
    live: Vec<u16>,
    http_stop: Result<(), String>,
    clock: u64,
    since: Option<u64>,
}

impl World {
    fn new(host: Vec<(&'static str, i32)>, opens: Vec<Result<u16, String>>) -> World {
        World {
            events: Vec::new(),
            host: host.into_iter().collect(),
            opens: opens.into_iter().collect(),
            live: Vec::new(),
            http_stop: Ok(()),
            clock: 0,
            since: None,
        }
    }

    fn answer(&mut self, action: Action<String>, budget: Option<u64>) -> Reply<String> {
        if budget.is_none() {
            self.since = None;
        } else if self.since.is_none() {
            self.since = Some(self.clock);
        }
        self.clock += 1;
        if let Action::Pause { millis } = action {
            self.clock += millis;
        }
        let late: bool = match (budget, self.since) {
            (Some(b), Some(at)) => self.clock - at >= b,
            _ => false,
        };
        match action {
            Action::Run { cmd, .. } => {
                self.events.push(format!("base:{cmd}"));
                let (stdout, exit_code) = self.host.pop_front().unwrap_or(("", 0));
                let ran = Ok(Output { stdout: stdout.to_string(), stderr: String::new(), exit_code });
                Reply::Ran { ran, late }
            },
            Action::OpenTunnel { env_id, host, port } => {
                self.events.push(format!("tunnels-open:{env_id}/{host}/{port}"));
                Reply::Port { port: self.opens.pop_front().unwrap_or(Ok(0)) }
            },
            Action::CloseTunnel { env_id, host, port } => {
                self.events.push(format!("tunnels-close:{env_id}/{host}/{port}"));
                Reply::Done { done: Ok(()), late }
            },
            Action::ProbeLocal { port } => {
                let done = if self.live.contains(&port) { Ok(()) } else { Err("refused".to_string()) };
                Reply::Done { done, late }
            },
            Action::HttpStop { port } => {
                self.events.push(format!("tunnel-stop:{port}"));
                Reply::Done { done: self.http_stop.clone(), late }
            },
            Action::Pause { .. } => Reply::Done { done: Ok(()), late },
            other => panic!("not expected: {other:?}"),
        }
    }

    fn establish(&mut self) -> Result<PfLease, String> {
        let mut flow: Tunnel<String> =
            establish_pf_tunnel("env-1", "svc-1", None, 18563, fast_params());
        loop {
            if let TunnelStage::Ended { result } = flow.stage {
                return result;
            }
            let reply = self.answer(flow.request(), flow.budget());
            flow.step(reply);
        }
    }

    fn tear_down(&mut self, mut flow: Teardown<String>) -> bool {
        loop {
            if let TeardownStage::Ended { stopped } = flow.stage {
                return stopped;
            }
            let reply = self.answer(flow.request(), None);
            flow.step(reply);
        }
    }

    fn position(&self, what: &str) -> usize {
        self.events.iter().position(|e| e.contains(what)).expect(what)
    }
}

fn fast_params() -> PfTunnelParams {
    PfTunnelParams { log_budget: 300, log_interval: 20, health_budget: 400 }
}

fn pf_base_script() -> Vec<(&'static str, i32)> {
    vec![("", 0), ("4242", 0), ("", 0), ("Forwarding from 127.0.0.1:54321 -> 18563", 0)]
}

fn lease() -> PfLease {
    PfLease { pf_pid: 4242, host_port: 54321, local_port: 18080 }
}

#[test]
fn test_pf_cleanup_command_shape_and_session_scoped_pattern() {
    let cmd = pf_cleanup_command("svc-1", None, 18563);
    assert!(cmd.contains("pkill -f '[k]ubectl port-forward pod/svc-1 --address 127\\.0\\.0\\.1 0:18563'"), "cmd: {cmd}");
    assert!(cmd.ends_with("' || true"), "cmd: {cmd}");
    let cmd_c = pf_cleanup_command("svc-1", Some("main"), 18563);
    assert!(cmd_c.contains("port-forward pod/svc-1 -c main --address"), "cmd: {cmd_c}");
    let cmd_other = pf_cleanup_command("svc-1", None, 18564);
    assert_ne!(cmd, cmd_other);
}

#[test]
fn test_pf_start_command_shape() {
    let cmd = pf_start_command("svc-1", None, 18563);
    assert!(cmd.contains("nohup kubectl port-forward pod/'svc-1'"), "cmd: {cmd}");
    assert!(cmd.contains("--address 127.0.0.1"), "cmd: {cmd}");
    assert!(cmd.contains(" 0:18563"), "cmd: {cmd}");
    assert!(cmd.contains("< /dev/null"), "cmd: {cmd}");
    assert!(cmd.contains("> '/tmp/friday-tools/pf-svc-1-18563.log' 2>&1"), "cmd: {cmd}");
    assert!(cmd.ends_with("& echo $!"), "cmd: {cmd}");
    assert!(cmd.starts_with("mkdir -p /tmp/friday-tools &&"), "cmd: {cmd}");
    let cmd_c = pf_start_command("svc-1", Some("main"), 18563);
    assert!(cmd_c.contains("-c 'main' "), "cmd: {cmd_c}");
    let evil = pf_start_command("x'; rm -rf /; '", None, 18563);
    assert!(evil.contains(r"'\''"), "must escape quotes: {evil}");
}

#[test]
fn test_parse_pf_pid() {
    assert_eq!(parse_pf_pid("4242\n"), Some(4242));
    assert_eq!(parse_pf_pid("  4242  "), Some(4242));
    assert_eq!(parse_pf_pid(""), None);
    assert_eq!(parse_pf_pid("garbage"), None);
    assert_eq!(parse_pf_pid("-1"), None);
}

#[test]
fn test_forwarded_from_port() {
    assert_eq!(forwarded_from_port("Forwarding from 127.0.0.1:54321 -> 18563"), Some(54321));
    let log = "I0912 01:02:03.456   123 main.go:123] Forwarding from 127.0.0.1:54321 -> 18563\nForwarding from [::1]:54321 -> 18563\n";
    assert_eq!(forwarded_from_port(log), Some(54321));
    assert_eq!(forwarded_from_port("some random log line"), None);
    assert_eq!(forwarded_from_port(""), None);
    assert_eq!(forwarded_from_port("Forwarding from [::1]:54321 -> 18563"), None);
    assert_eq!(forwarded_from_port("Forwarding from 127.0.0.1:99999 -> 18563"), None);
}

#[test]
fn test_kill_pf_command() {
    assert_eq!(kill_pf_command(4242), "kill 4242 2>/dev/null || true");
}

#[test]
fn test_establish_pf_tunnel_happy_path() {
    let live_port: u16 = 42011;
    let mut world = World::new(pf_base_script(), vec![Ok(live_port)]);
    world.live = vec![live_port];
    let lease = world.establish().unwrap();
    assert_eq!(lease.pf_pid, 4242);
    assert_eq!(lease.host_port, 54321);
    assert_eq!(lease.local_port, live_port);

    let ev = &world.events;
    assert!(world.position("pkill -f") < world.position("nohup kubectl port-forward"), "ev: {ev:?}");
    assert!(
        world.position("nohup kubectl port-forward")
            < world.position("cat '/tmp/friday-tools/pf-svc-1-18563.log'"),
        "ev: {ev:?}"
    );
    assert!(ev.iter().any(|e| e == "tunnels-open:env-1/127.0.0.1/54321"), "ev: {ev:?}");
    assert!(!ev.iter().any(|e| e.starts_with("tunnels-close:")), "tunnel must stay open: {ev:?}");
    assert!(!ev.iter().any(|e| e.starts_with("base:kill")), "pf must stay alive: {ev:?}");
}

#[test]
fn test_establish_pf_tunnel_start_failure_no_pf_to_kill() {
    let mut world = World::new(vec![("", 0), ("", 1)], vec![]);
    let err = world.establish().unwrap_err();
    assert!(err.contains("kubectl port-forward 启动失败"), "err: {err}");
    let ev = &world.events;
    assert!(!ev.iter().any(|e| e.starts_with("base:kill")), "ev: {ev:?}");
    assert!(!ev.iter().any(|e| e.starts_with("tunnels-open:")), "ev: {ev:?}");
}

#[test]
fn test_establish_pf_tunnel_log_timeout_kills_pf() {
    let mut script = vec![("", 0), ("4242", 0)];
    for _ in 0..50 {
        script.push(("kubectl: pod not found", 0));
    }
    let mut world = World::new(script, vec![]);
    let err = world.establish().unwrap_err();
    assert!(err.contains("未就绪"), "err: {err}");
    let ev = &world.events;
    assert!(ev.iter().any(|e| e.starts_with("base:kill 4242")), "pf must be killed: {ev:?}");
    assert!(!ev.iter().any(|e| e.starts_with("tunnels-open:")), "ev: {ev:?}");
}

#[test]
fn test_establish_pf_tunnel_open_failure_kills_pf() {
    let mut world = World::new(pf_base_script(), vec![Err("ssh refused".to_string())]);
    let err = world.establish().unwrap_err();
    assert!(err.contains("TunnelManager"), "err: {err}");
    assert!(err.contains("ssh refused"), "err: {err}");
    let ev = &world.events;
    assert!(ev.iter().any(|e| e.starts_with("base:kill 4242")), "pf must be killed: {ev:?}");
}

#[test]
fn test_establish_pf_tunnel_health_failure_tears_down() {
    let mut world = World::new(pf_base_script(), vec![Ok(42012)]);
    let err = world.establish().unwrap_err();
    assert!(err.contains("健康检查失败"), "err: {err}");
    let ev = &world.events;
    let kill_idx = ev.iter().position(|e| e.starts_with("base:kill 4242")).expect("kill");
    let close_idx =
        ev.iter().position(|e| e == "tunnels-close:env-1/127.0.0.1/54321").expect("close");
    assert!(kill_idx < close_idx, "kill must precede close: {ev:?}");
}

#[test]
fn test_teardown_pf_kills_then_closes_with_params() {
    let mut world = World::new(vec![], vec![]);
    world.tear_down(teardown_pf("env-1", 4242, Some(54321)));
    let ev = &world.events;
    let kill_idx =
        ev.iter().position(|e| e == "base:kill 4242 2>/dev/null || true").expect("kill cmd");
    let close_idx =
        ev.iter().position(|e| e == "tunnels-close:env-1/127.0.0.1/54321").expect("close");
    assert!(kill_idx < close_idx, "kill must precede close: {ev:?}");

    let mut world = World::new(vec![], vec![]);
    world.tear_down(teardown_pf("env-1", 4242, None));
    let ev = &world.events;
    assert!(ev.iter().any(|e| e.starts_with("base:kill 4242")), "ev: {ev:?}");
    assert!(!ev.iter().any(|e| e.starts_with("tunnels-close:")), "ev: {ev:?}");
}

#[test]
fn test_teardown_pod_tunnel_session_order_success() {
    let mut world = World::new(vec![], vec![]);
    let stopped = world.tear_down(teardown_pod_tunnel_session("env-1", lease()));
    assert!(stopped, "tunnel stop must be reported as success");
    let ev = &world.events;
    let p1 = ev.iter().position(|e| e == "tunnel-stop:18080").expect("stop");
    let p2 = ev.iter().position(|e| e.starts_with("base:kill 4242")).expect("kill");
    let p3 = ev.iter().position(|e| e == "tunnels-close:env-1/127.0.0.1/54321").expect("close");
    assert!(p1 < p2 && p2 < p3, "order: {ev:?}");
}

#[test]
fn test_teardown_pod_tunnel_session_stop_fail_still_tears_down() {
    let mut world = World::new(vec![], vec![]);
    world.http_stop = Err("connection refused".to_string());
    let stopped = world.tear_down(teardown_pod_tunnel_session("env-1", lease()));
    assert!(!stopped, "tunnel stop failure must be reported");
    let ev = &world.events;
    let p1 = ev.iter().position(|e| e == "tunnel-stop:18080").expect("stop");
    let p2 = ev.iter().position(|e| e.starts_with("base:kill 4242")).expect("kill");
    let p3 = ev.iter().position(|e| e == "tunnels-close:env-1/127.0.0.1/54321").expect("close");
    assert!(p1 < p2 && p2 < p3, "order: {ev:?}");
}

#[test]
fn http_stop_asks_the_api_to_stop() {
    assert_eq!(http_stop_url_text(18080), "http://127.0.0.1:18080/api");
    let body = http_stop_body();
    assert_eq!(body.get("action").and_then(|v| v.as_str()), Some("exec"));
    assert_eq!(body.get("command").and_then(|v| v.as_str()), Some("stop"));
    assert_eq!(body.as_object().map(|o| o.len()), Some(2));
}

#[test]
fn http_stop_is_done_on_success_alone() {
    let answered = |status: u16, words: &str, body: &str| HttpReply::Answered {
        status,
        words: words.to_string(),
        body: body.to_string(),
    };
    assert_eq!(http_stop_via_tunnel(1, answered(200, "200 OK", "")), Ok(()));
    assert_eq!(http_stop_via_tunnel(1, answered(299, "299", "x")), Ok(()));
    assert_eq!(
        http_stop_via_tunnel(1, answered(401, "401 Unauthorized", "denied")),
        Err("隧道 stop 返回 HTTP 401 Unauthorized: denied".to_string())
    );
    assert_eq!(
        http_stop_via_tunnel(1, answered(199, "199", "")),
        Err("隧道 stop 返回 HTTP 199: ".to_string())
    );
    assert_eq!(
        http_stop_via_tunnel(1, HttpReply::NoClient { reason: "tls".to_string() }),
        Err("构建 HTTP client 失败: tls".to_string())
    );
    assert_eq!(
        http_stop_via_tunnel(18080, HttpReply::NotSent { cause: "refused".to_string() }),
        Err("隧道 stop 请求失败（http://127.0.0.1:18080/api）: refused".to_string())
    );
}

#[test]
fn waits_that_are_over_say_how_long_they_took() {
    let mut script = vec![("", 0), ("4242", 0)];
    for _ in 0..50 {
        script.push(("", 0));
    }
    let err = World::new(script, vec![]).establish().unwrap_err();
    assert!(err.contains("300ms"), "err: {err}");
    let err = World::new(pf_base_script(), vec![Ok(42013)]).establish().unwrap_err();
    assert!(err.contains("400ms"), "err: {err}");
}

#[test]
fn a_start_without_a_process_number_is_quoted() {
    let err = World::new(vec![("", 0), ("no\tpid", 0)], vec![]).establish().unwrap_err();
    assert_eq!(err, "kubectl port-forward 启动输出无 PID: \"no\\tpid\"");
}

#[test]
fn the_first_line_that_names_a_port_wins() {
    let one = "Forwarding from 127.0.0.1:1 -> 9";
    let two = "Forwarding from 127.0.0.1:2 -> 9";
    assert_eq!(forwarded_from_port(&format!("{one}\n{two}")), Some(1));
    assert_eq!(forwarded_from_port(&format!("{one}\r\n{two}")), Some(1));
    assert_eq!(forwarded_from_port(&format!("starting\n\n{two}\n{one}")), Some(2));
    assert_eq!(forwarded_from_port(&format!("\n{two}")), Some(2));
}

#[test]
fn sessions_of_other_pods_and_ports_have_other_logs() {
    assert_ne!(pf_log_path("a-1", 2), pf_log_path("a", 12));
    assert_ne!(pf_log_path("a", 18563), pf_log_path("b", 18563));
    assert_eq!(pf_log_path("a", 18563), "/tmp/friday-tools/pf-a-18563.log");
}
