use friday::arthas::attach::ARTHAS_PORT_CANDIDATES;
use friday::arthas::pod::{
    establish_pod_mcp, get_pod_ip, pod_attach_prepare, Mcp, McpStage, Prepare, PrepareStage,
};
use friday::arthas::stop::{run_production_stop, Stop, StopStage};
use friday::arthas::sweep::{cleanup_stale_instances_with, Prober, Sweep, SweepStage};
use friday::arthas::tunnel::{PfLease, PfTunnelParams};
use friday::exec::k8s::wrap_exec_command;
use friday::flow::{Action, Output, Reply, Site};
use std::collections::VecDeque;

/// A scripted outside: it answers actions, keeps time, and writes down what it was asked.
struct World {
    events: Vec<String>,
    host: VecDeque<(&'static str, i32)>,
    target: VecDeque<(&'static str, i32)>,
    spent: (&'static str, i32),
    pod: Option<&'static str>,
    opens: VecDeque<Result<u16, String>>,
    native: VecDeque<Result<(), String>>,
    bridge: VecDeque<Result<(), String>>,
    active: Vec<u16>,
    live: Vec<u16>,
    host_channel: Result<(), String>,
    http_stop: Result<(), String>,
    clock: u64,
    since: Option<u64>,
}

impl World {
    fn new(host: Vec<(&'static str, i32)>, target: Vec<(&'static str, i32)>) -> World {
        World {
            events: Vec::new(),
            host: host.into_iter().collect(),
            target: target.into_iter().collect(),
            spent: ("", 0),
            pod: None,
            opens: VecDeque::new(),
            native: VecDeque::new(),
            bridge: VecDeque::new(),
            active: Vec::new(),
            live: Vec::new(),
            host_channel: Ok(()),
            http_stop: Ok(()),
            clock: 0,
            since: None,
        }
    }

    fn answer(&mut self, action: Action<String>, budget: Option<u64>) -> Reply<String> {
        let start: u64 = match (budget, self.since) {
            (None, _) => {
                self.since = None;
                self.clock
            },
            (Some(_), Some(at)) => at,
            (Some(_), None) => {
                self.since = Some(self.clock);
                self.clock
            },
        };
        self.clock += 1;
        if let Action::Pause { millis } = action {
            self.clock += millis;
        }
        let late: bool = match budget {
            Some(b) => self.clock - start >= b,
            None => false,
        };
        match action {
            Action::Run { site, cmd, .. } => {
                let (label, next) = match site {
                    Site::Host => ("base", self.host.pop_front()),
                    _ => ("k8s", self.target.pop_front()),
                };
                let cmd = match (site, self.pod) {
                    (Site::Target, Some(pod)) => wrap_exec_command(pod, None, cmd.as_str()),
                    _ => cmd,
                };
                self.events.push(format!("{label}:{cmd}"));
                let (stdout, exit_code) = next.unwrap_or(self.spent);
                let ran = Ok(Output { stdout: stdout.to_string(), stderr: String::new(), exit_code });
                Reply::Ran { ran, late }
            },
            Action::OpenTunnel { env_id, host, port } => {
                self.events.push(format!("tunnels-open:{env_id}/{host}/{port}"));
                Reply::Port { port: self.opens.pop_front().unwrap_or(Ok(0)) }
            },
            Action::CloseTunnel { env_id, host, port } => {
                self.events.push(format!("tunnels-close:{env_id}/{host}/{port}"));
                Reply::Done { done: Ok(()), late }
            },
            Action::ProbeLocal { port } => {
                let done = if self.live.contains(&port) { Ok(()) } else { Err("refused".to_string()) };
                Reply::Done { done, late }
            },
            Action::ConnectNative { url } => {
                self.events.push(format!("native-connect:{url}"));
                Reply::Done { done: self.native.pop_front().expect("native script"), late }
            },
            Action::ConnectBridge { url } => {
                self.events.push(format!("bridge-connect:{url}"));
                Reply::Done { done: self.bridge.pop_front().expect("bridge script"), late: true }
            },
            Action::ActivePorts => Reply::Ports { ports: self.active.clone() },
            Action::CachedJdk => Reply::Maybe { maybe: None },
            Action::Shutdown => {
                self.events.push("client-shutdown".to_string());
                Reply::Done { done: Ok(()), late }
            },
            Action::HttpStop { port } => {
                self.events.push(format!("tunnel-stop:{port}"));
                Reply::Done { done: self.http_stop.clone(), late }
            },
            Action::Acquire { site: Site::Host } => {
                Reply::Done { done: self.host_channel.clone(), late }
            },
            Action::Acquire { .. } | Action::Progress { .. } | Action::Pause { .. }
            | Action::CheckJava { .. } => Reply::Done { done: Ok(()), late },
            other => panic!("not expected: {other:?}"),
        }
    }

    fn calls(&self, label: &str) -> Vec<String> {
        let head = format!("{label}:");
        self.events
            .iter()
            .filter(|e| e.starts_with(head.as_str()))
            .map(|e| e[head.len()..].to_string())
            .collect()
    }

    fn position(&self, what: &str) -> usize {
        self.events.iter().position(|e| e.contains(what)).expect(what)
    }

    fn sweep(&mut self, mut flow: Sweep<String>) -> Result<(), String> {
        loop {
            if let SweepStage::Ended { result } = flow.stage {
                return result;
            }
            let reply = self.answer(flow.request(), flow.budget());
            flow.step(reply);
        }
    }

    fn prepare(&mut self, mut flow: Prepare<String>) -> Result<(u16, String), String> {
        loop {
            if let PrepareStage::Ended { result } = flow.stage {
                let token = flow.token;
                return result.map(|port| (port, token));
            }
            let reply = self.answer(flow.request(), flow.budget());
            flow = flow.step(reply);
        }
    }

    fn connect(&mut self, mut flow: Mcp<String>) -> Result<Option<PfLease>, String> {
        loop {
            if let McpStage::Ended { result } = flow.stage {
                return result;
            }
            let reply = self.answer(flow.request(), flow.budget());
            flow = flow.step(reply);
        }
    }

    fn stop(&mut self, mut flow: Stop<String>) {
        while flow.stage != StopStage::Ended {
            let reply = self.answer(flow.request(), None);
            flow = flow.step(reply);
        }
    }
}

fn ascending(p: &[usize]) -> bool {
    p.windows(2).all(|w| w[0] < w[1])
}

#[test]
fn test_cleanup_stale_instances_stops_occupied_non_active_port() {
    let mut script = vec![("busy", 0), ("", 0), ("free", 0)];
    for _ in 0..9 {
        script.push(("free", 0));
    }
    let mut world = World::new(script, vec![]);
    let prober = Prober::Local { site: Site::Host };
    world.sweep(cleanup_stale_instances_with(prober, Site::Host, vec![], 200, 50)).unwrap();
    let calls = world.calls("base");
    assert_eq!(calls.len(), 12, "calls: {calls:?}");
    assert!(calls[0].contains("/dev/tcp/127.0.0.1/18563"), "calls[0]: {}", calls[0]);
    assert!(calls[1].contains("http://127.0.0.1:18563/api"), "calls[1]: {}", calls[1]);
    assert!(calls[1].contains("\"command\":\"stop\""), "calls[1]: {}", calls[1]);
    assert!(calls[2].contains("/dev/tcp/127.0.0.1/18563"), "calls[2]: {}", calls[2]);
}

#[test]
fn test_cleanup_stale_instances_skips_active_ports() {
    let mut world = World::new(vec![("free", 0); 9], vec![]);
    let prober = Prober::Local { site: Site::Host };
    world.sweep(cleanup_stale_instances_with(prober, Site::Host, vec![18563], 200, 50)).unwrap();
    let calls = world.calls("base");
    assert_eq!(calls.len(), 9, "active port must be skipped entirely, calls: {calls:?}");
    assert!(calls.iter().all(|c| !c.contains("18563")), "calls: {calls:?}");
    assert!(calls.iter().all(|c| !c.contains("/api")), "no stop must be issued, calls: {calls:?}");
}

#[test]
fn test_cleanup_stale_instances_unstoppable_port_errors() {
    let mut script = vec![("busy", 0), ("", 0)];
    for _ in 0..30 {
        script.push(("busy", 0));
    }
    let mut world = World::new(script, vec![]);
    let prober = Prober::Local { site: Site::Host };
    let flow = cleanup_stale_instances_with(prober, Site::Host, vec![], 200, 50);
    let err = world.sweep(flow).unwrap_err();
    assert!(err.contains("重启目标服务"), "err: {err}");
    assert!(err.contains("18563"), "err: {err}");
}

#[test]
fn test_cleanup_stale_instances_pod_probes_podip_on_base_stops_in_container() {
    let mut probe_script = vec![("busy", 0), ("free", 0)];
    for _ in 0..(ARTHAS_PORT_CANDIDATES - 1) {
        probe_script.push(("free", 0));
    }
    let mut world = World::new(probe_script, vec![("", 0)]);
    let prober = Prober::Pod { ip: "10.244.1.5".to_string() };
    world.sweep(cleanup_stale_instances_with(prober, Site::Target, vec![], 200, 50)).unwrap();
    let base_calls = world.calls("base");
    assert_eq!(base_calls.len(), 11, "base_calls: {base_calls:?}");
    assert!(base_calls[0].contains("/dev/tcp/10.244.1.5/18563"), "probe: {}", base_calls[0]);
    assert!(base_calls[1].contains("/dev/tcp/10.244.1.5/18563"), "recheck: {}", base_calls[1]);
    assert!(!base_calls.iter().any(|c| c.contains("/api")), "no stop on base: {base_calls:?}");
    let k8s_calls = world.calls("k8s");
    assert_eq!(k8s_calls.len(), 1, "k8s_calls: {k8s_calls:?}");
    assert!(k8s_calls[0].contains("http://127.0.0.1:18563/api"), "stop: {}", k8s_calls[0]);
    assert!(k8s_calls[0].contains("\"command\":\"stop\""), "stop: {}", k8s_calls[0]);
}

fn undoing() -> Mcp<String> {
    let mut flow = establish_pod_mcp("env-1", "svc-1", None, 18563, "tok123", fast_pf_params());
    flow.stage = McpStage::Undo { error: "boom".to_string() };
    flow
}

#[test]
fn test_cleanup_partial_attach_issues_best_effort_stop() {
    let mut world = World::new(vec![], vec![("", 0)]);
    assert_eq!(world.connect(undoing()), Err("boom".to_string()));
    let calls = world.calls("k8s");
    assert_eq!(calls.len(), 1);
    assert!(calls[0].contains("Authorization: Bearer tok123"), "calls[0]: {}", calls[0]);
    assert!(calls[0].contains("http://127.0.0.1:18563/api"), "calls[0]: {}", calls[0]);

    let flow = undoing().step(Reply::Ran { ran: Err("ssh broken".to_string()), late: false });
    assert_eq!(flow.stage, McpStage::Ended { result: Err("boom".to_string()) });
}

fn preparation() -> Prepare<String> {
    pod_attach_prepare("svc-1", None, 1234, "java", None, 200)
}

fn pod_channel_script() -> Vec<(&'static str, i32)> {
    vec![("/usr/lib/jvm/java-21/bin/java", 0), ("", 0), ("attach-started", 0)]
}

fn pod_base_script() -> Vec<(&'static str, i32)> {
    let mut script = vec![("", 0), ("10.244.1.5", 0)];
    for _ in 0..ARTHAS_PORT_CANDIDATES {
        script.push(("free", 0));
    }
    script.push(("18563\n18564", 0));
    script.push(("busy", 0));
    script
}

fn pod_world(host: Vec<(&'static str, i32)>, target: Vec<(&'static str, i32)>) -> World {
    let mut world = World::new(host, target);
    world.pod = Some("svc-1");
    world.spent = ("", 1);
    world
}

#[test]
fn test_pod_attach_prepare_orchestration() {
    let mut world = pod_world(pod_base_script(), pod_channel_script());
    let (port, token) = world.prepare(preparation()).unwrap();
    assert_eq!(port, 18563);
    assert_eq!(token.len(), 32);

    let base_calls = world.calls("base");
    assert_eq!(base_calls.len(), 14, "base_calls: {base_calls:?}");
    assert!(base_calls[0].contains("kubectl exec"), "ensure_k8s check: {}", base_calls[0]);
    assert!(
        base_calls[0].contains("arthas-dist/arthas-boot.jar"),
        "ensure_k8s check: {}",
        base_calls[0]
    );
    assert!(base_calls[1].contains("kubectl get pod"), "podIP cmd: {}", base_calls[1]);
    assert!(
        base_calls.iter().filter(|c| c.contains("kubectl get pod")).count() == 1,
        "podIP must be fetched once and reused: {base_calls:?}"
    );
    for (i, probe_port) in (18563..18563 + ARTHAS_PORT_CANDIDATES).enumerate() {
        assert!(
            base_calls[2 + i].contains(&format!("/dev/tcp/10.244.1.5/{probe_port}")),
            "cleanup probe[{i}]: {}",
            base_calls[2 + i]
        );
    }
    let find_free = &base_calls[12];
    assert!(find_free.contains("seq 18563 18572"), "find-free: {find_free}");
    assert!(
        find_free.contains("bash -c \"exec 3<>/dev/tcp/10.244.1.5/$p\""),
        "find-free: {find_free}"
    );
    assert!(base_calls[13].contains("/dev/tcp/10.244.1.5/18563"), "probe: {}", base_calls[13]);

    let pod_calls = world.calls("k8s");
    assert_eq!(pod_calls.len(), 3, "pod_calls: {pod_calls:?}");
    for c in &pod_calls {
        assert!(c.contains("kubectl exec 'svc-1' -- sh -c"), "must be kubectl-wrapped: {c}");
    }
    assert!(pod_calls[0].contains("command -v java"), "java resolve: {}", pod_calls[0]);
    assert!(
        pod_calls.iter().all(|c| !c.contains("/dev/tcp")),
        "no port probing inside container: {pod_calls:?}"
    );
    let write = pod_calls.iter().find(|c| c.contains("arthas.properties")).expect("write props cmd");
    assert!(
        write.contains("/opt/log/dump/coredump/friday-tools/arthas-dist/arthas.properties"),
        "write: {write}"
    );
    assert!(write.contains("arthas.ip=0.0.0.0"), "write: {write}");
    assert!(!write.contains("arthas.ip=127.0.0.1"), "write: {write}");
    let attach = pod_calls.iter().find(|c| c.contains("arthas-boot.jar")).expect("attach cmd");
    assert!(attach.contains("cd /opt/log/dump/coredump/friday-tools/arthas-dist"), "attach: {attach}");
    assert!(attach.contains("--attach-only"), "attach: {attach}");
    assert!(attach.contains("1234"), "attach pid: {attach}");
    assert!(
        base_calls
            .iter()
            .all(|c| !c.contains("arthas.properties") && !c.contains("arthas-boot.jar --attach-only")),
        "container cmds must not run on base: {base_calls:?}"
    );
    for c in base_calls.iter().chain(pod_calls.iter()) {
        assert!(
            !c.contains("ps -o user=") && !c.contains("id -un"),
            "user alignment must be skipped in pod branch: {c}"
        );
    }
}

#[test]
fn test_pod_attach_prepare_concurrent_session_skips_occupied_port() {
    let mut base_script = vec![("", 0), ("10.244.1.5", 0)];
    for _ in 0..(ARTHAS_PORT_CANDIDATES - 1) {
        base_script.push(("free", 0));
    }
    base_script.push(("18564\n18565", 0));
    base_script.push(("busy", 0));
    let mut world = pod_world(base_script, pod_channel_script());
    world.active = vec![18563];
    let (port, _token) = world.prepare(preparation()).unwrap();
    assert_eq!(port, 18564, "must skip the port held by the concurrent session");

    let pod_calls = world.calls("k8s");
    let attach = pod_calls.iter().find(|c| c.contains("arthas-boot.jar")).expect("attach cmd");
    assert!(attach.contains("--http-port 18564"), "attach: {attach}");
    assert!(attach.contains("--telnet-port 18565"), "attach: {attach}");

    let base_calls = world.calls("base");
    assert_eq!(base_calls.len(), 13, "base_calls: {base_calls:?}");
    let find_free = &base_calls[11];
    assert!(find_free.contains("seq 18563 18572"), "find-free: {find_free}");
    assert!(find_free.contains("/dev/tcp/10.244.1.5/$p"), "find-free: {find_free}");
    assert!(
        !base_calls.iter().any(|c| c.contains("/dev/tcp/10.244.1.5/18563")),
        "active port must not be probed: {base_calls:?}"
    );
    assert!(base_calls[12].contains("/dev/tcp/10.244.1.5/18564"), "probe: {}", base_calls[12]);
}

#[test]
fn test_pod_attach_prepare_probe_unreachable_falls_back() {
    let mut base_script = pod_base_script();
    base_script.pop();
    for _ in 0..8 {
        base_script.push(("free", 0));
    }
    let mut world = pod_world(base_script, pod_channel_script());
    let (port, _token) = world
        .prepare(preparation())
        .expect("probe failure must fall through to mcp handshake, not hard-fail");
    assert_eq!(port, 18563);
    let base_calls = world.calls("base");
    let find_free_idx =
        base_calls.iter().position(|c| c.contains("seq 18563 18572")).expect("find-free cmd");
    let last_probe_idx = base_calls
        .iter()
        .rposition(|c| c.contains("/dev/tcp/10.244.1.5/18563"))
        .expect("probe cmd");
    assert!(find_free_idx < last_probe_idx, "probe must follow allocation: {base_calls:?}");
    assert!(world.calls("k8s").len() == 3, "no probing inside container");
}

#[test]
fn test_pod_attach_prepare_bad_pod_ip_falls_back() {
    let base_script = vec![("", 0), ("garbage", 0), ("garbage", 0)];
    let mut pod_script = vec![("/usr/lib/jvm/java-21/bin/java", 0)];
    for _ in 0..ARTHAS_PORT_CANDIDATES {
        pod_script.push(("free", 0));
    }
    pod_script.push(("18563\n18564", 0));
    pod_script.push(("", 0));
    pod_script.push(("attach-started", 0));
    let mut world = pod_world(base_script, pod_script);
    let result = world.prepare(preparation());
    assert!(result.is_ok(), "bad podIP must fall through to mcp handshake: {result:?}");
    let base_calls = world.calls("base");
    assert_eq!(base_calls.len(), 3, "ensure and the address twice: {base_calls:?}");
    let pod_calls = world.calls("k8s");
    assert_eq!(pod_calls.len(), 14, "degraded cleanup + find-free in container: {pod_calls:?}");
    assert!(pod_calls[1].contains("/dev/tcp/127.0.0.1/18563"), "degraded probe: {}", pod_calls[1]);
    assert!(pod_calls[11].contains("seq 18563 18572"), "degraded find-free: {}", pod_calls[11]);
}

fn fast_pf_params() -> PfTunnelParams {
    PfTunnelParams { log_budget: 300, log_interval: 20, health_budget: 400 }
}

fn pf_base_script() -> Vec<(&'static str, i32)> {
    vec![("", 0), ("4242", 0), ("", 0), ("Forwarding from 127.0.0.1:54321 -> 18563", 0)]
}

fn silent_pf_script() -> Vec<(&'static str, i32)> {
    let mut script = vec![("", 0), ("4242", 0)];
    for _ in 0..50 {
        script.push(("", 0));
    }
    script
}

fn pod_mcp() -> Mcp<String> {
    establish_pod_mcp("env-1", "svc-1", None, 18563, "tok123", fast_pf_params())
}

#[test]
fn test_establish_pod_mcp_tunnel_happy_path() {
    let live_port: u16 = 42001;
    let mut world = World::new(pf_base_script(), vec![]);
    world.opens = VecDeque::from(vec![Ok(live_port)]);
    world.live = vec![live_port];
    world.native = VecDeque::from(vec![Ok(())]);

    let lease = world.connect(pod_mcp()).unwrap().expect("tunnel lease");
    assert_eq!(lease.pf_pid, 4242);
    assert_eq!(lease.host_port, 54321);
    assert_eq!(lease.local_port, live_port);

    let ev = &world.events;
    assert!(world.position("pkill -f") < world.position("nohup kubectl port-forward"), "ev: {ev:?}");
    assert!(
        world.position("nohup kubectl port-forward") < world.position("tunnels-open:"),
        "ev: {ev:?}"
    );
    assert!(ev.iter().any(|e| e == "tunnels-open:env-1/127.0.0.1/54321"), "ev: {ev:?}");
    assert!(
        ev.iter().any(|e| e == &format!("native-connect:http://127.0.0.1:{live_port}/mcp")),
        "ev: {ev:?}"
    );
    assert!(!ev.iter().any(|e| e.starts_with("bridge-connect:")), "ev: {ev:?}");
    assert!(!ev.iter().any(|e| e.starts_with("tunnels-close:")), "ev: {ev:?}");
    assert!(!ev.iter().any(|e| e.starts_with("base:kill")), "ev: {ev:?}");
    assert!(!ev.iter().any(|e| e.starts_with("k8s:")), "ev: {ev:?}");
}

#[test]
fn test_establish_pod_mcp_native_fail_falls_back_to_bridge() {
    let live_port: u16 = 42002;
    let mut world = World::new(pf_base_script(), vec![]);
    world.opens = VecDeque::from(vec![Ok(live_port)]);
    world.live = vec![live_port];
    world.native = VecDeque::from(vec![Err("native handshake boom".to_string())]);
    world.bridge = VecDeque::from(vec![Ok(())]);

    let lease = world.connect(pod_mcp()).unwrap();
    assert!(lease.is_none(), "fallback session has no pf lease");

    let ev = &world.events;
    let kill_idx = ev.iter().position(|e| e.starts_with("base:kill 4242")).expect("kill pf");
    let close_idx =
        ev.iter().position(|e| e == "tunnels-close:env-1/127.0.0.1/54321").expect("close tunnel");
    assert!(kill_idx < close_idx, "kill must precede close: {ev:?}");
    let bridge_idx = ev
        .iter()
        .position(|e| e == "bridge-connect:http://127.0.0.1:18563/mcp")
        .expect("bridge fallback");
    assert!(close_idx < bridge_idx, "teardown must precede bridge: {ev:?}");
}

#[test]
fn test_establish_pod_mcp_tunnel_fail_falls_back_to_bridge() {
    let mut world = World::new(silent_pf_script(), vec![]);
    world.bridge = VecDeque::from(vec![Ok(())]);

    let lease = world.connect(pod_mcp()).unwrap();
    assert!(lease.is_none());

    let ev = &world.events;
    assert!(!ev.iter().any(|e| e.starts_with("tunnels-open:")), "open must not be called: {ev:?}");
    assert!(ev.iter().any(|e| e == "bridge-connect:http://127.0.0.1:18563/mcp"), "ev: {ev:?}");
    assert!(ev.iter().any(|e| e.starts_with("base:kill 4242")), "ev: {ev:?}");
}

#[test]
fn test_establish_pod_mcp_both_fail_cleans_partial_attach() {
    let mut world = World::new(silent_pf_script(), vec![]);
    world.bridge = VecDeque::from(vec![Err("bridge handshake boom".to_string())]);

    let err = world.connect(pod_mcp()).unwrap_err();
    assert!(err.contains("arthas MCP 握手失败"), "err: {err}");

    let ev = &world.events;
    assert!(
        ev.iter().any(|e| e.starts_with("k8s:curl") && e.contains("http://127.0.0.1:18563/api")),
        "ev: {ev:?}"
    );
    assert!(
        ev.iter().any(|e| e.starts_with("k8s:curl") && e.contains("Bearer tok123")),
        "ev: {ev:?}"
    );
    assert!(ev.iter().any(|e| e.starts_with("base:kill 4242")), "ev: {ev:?}");
}

fn pf_lease() -> PfLease {
    PfLease { pf_pid: 4242, host_port: 54321, local_port: 18080 }
}

fn stop_world(tunnel_stops: bool) -> World {
    let mut world = World::new(vec![], vec![]);
    if !tunnel_stops {
        world.http_stop = Err("tunnel dead".to_string());
    }
    world
}

#[test]
fn test_run_stop_tunnel_mode_full_order_no_exec_fallback() {
    let mut world = stop_world(true);
    world.stop(run_production_stop("env-1", Some(pf_lease()), 18563, "tok123"));
    let ev = &world.events;
    let p = [
        ev.iter().position(|e| e == "client-shutdown").expect("shutdown"),
        ev.iter().position(|e| e == "tunnel-stop:18080").expect("tunnel stop"),
        ev.iter().position(|e| e.starts_with("base:kill 4242")).expect("kill pf"),
        ev.iter().position(|e| e == "tunnels-close:env-1/127.0.0.1/54321").expect("close tunnel"),
    ];
    assert!(ascending(&p), "order: {ev:?}");
    assert!(!ev.iter().any(|e| e.starts_with("k8s:")), "no exec fallback: {ev:?}");
}

#[test]
fn test_run_stop_tunnel_stop_fails_falls_back_to_exec() {
    let mut world = stop_world(false);
    world.stop(run_production_stop("env-1", Some(pf_lease()), 18563, "tok123"));
    let ev = &world.events;
    let p = [
        ev.iter().position(|e| e == "client-shutdown").expect("shutdown"),
        ev.iter().position(|e| e == "tunnel-stop:18080").expect("tunnel stop"),
        ev.iter().position(|e| e.starts_with("base:kill 4242")).expect("kill pf"),
        ev.iter().position(|e| e == "tunnels-close:env-1/127.0.0.1/54321").expect("close tunnel"),
        ev.iter().position(|e| e.starts_with("k8s:curl")).expect("exec fallback stop"),
    ];
    assert!(ascending(&p), "order: {ev:?}");
    let stop_cmd = ev.iter().find(|e| e.starts_with("k8s:curl")).expect("stop cmd");
    assert!(stop_cmd.contains("http://127.0.0.1:18563/api"), "cmd: {stop_cmd}");
    assert!(stop_cmd.contains("Bearer tok123"), "cmd: {stop_cmd}");
}

#[test]
fn test_run_stop_without_pf_uses_exec_channel_only() {
    let mut world = stop_world(true);
    world.stop(run_production_stop("env-1", None, 18563, "tok123"));
    let ev = &world.events;
    assert!(ev.iter().any(|e| e == "client-shutdown"), "ev: {ev:?}");
    assert!(ev.iter().any(|e| e.starts_with("k8s:curl")), "exec stop issued: {ev:?}");
    assert!(!ev.iter().any(|e| e.starts_with("tunnel-stop:")), "ev: {ev:?}");
    assert!(!ev.iter().any(|e| e.starts_with("tunnels-close:")), "ev: {ev:?}");
    assert!(!ev.iter().any(|e| e.starts_with("base:")), "ev: {ev:?}");
}

#[test]
fn test_run_stop_base_channel_unavailable_still_stops_via_tunnel() {
    let mut world = stop_world(true);
    world.host_channel = Err("ssh down".to_string());
    world.stop(run_production_stop("env-1", Some(pf_lease()), 18563, "tok123"));
    let ev = &world.events;
    let p = [
        ev.iter().position(|e| e == "client-shutdown").expect("shutdown"),
        ev.iter().position(|e| e == "tunnel-stop:18080").expect("tunnel stop"),
        ev.iter().position(|e| e == "tunnels-close:env-1/127.0.0.1/54321").expect("close tunnel"),
    ];
    assert!(ascending(&p), "order: {ev:?}");
    assert!(!ev.iter().any(|e| e.starts_with("base:kill")), "no kill without base channel: {ev:?}");
    assert!(
        !ev.iter().any(|e| e.starts_with("k8s:")),
        "tunnel stop succeeded, no exec fallback: {ev:?}"
    );
}

#[test]
fn test_run_stop_base_unavailable_tunnel_stop_fails_falls_back_to_exec() {
    let mut world = stop_world(false);
    world.host_channel = Err("ssh down".to_string());
    world.stop(run_production_stop("env-1", Some(pf_lease()), 18563, "tok123"));
    let ev = &world.events;
    let p = [
        ev.iter().position(|e| e == "client-shutdown").expect("shutdown"),
        ev.iter().position(|e| e == "tunnel-stop:18080").expect("tunnel stop"),
        ev.iter().position(|e| e == "tunnels-close:env-1/127.0.0.1/54321").expect("close tunnel"),
        ev.iter().position(|e| e.starts_with("k8s:curl")).expect("exec fallback stop"),
    ];
    assert!(ascending(&p), "order: {ev:?}");
    assert!(!ev.iter().any(|e| e.starts_with("base:kill")), "no kill without base channel: {ev:?}");
    let stop_cmd = ev.iter().find(|e| e.starts_with("k8s:curl")).expect("stop cmd");
    assert!(stop_cmd.contains("http://127.0.0.1:18563/api"), "cmd: {stop_cmd}");
}

#[test]
fn the_address_of_a_pod_is_checked() {
    let printed = |exit_code: i32, stdout: &str, stderr: &str| {
        Ok(Output {
            stdout: stdout.to_string(),
            stderr: stderr.to_string(),
            exit_code,
        })
    };
    assert_eq!(
        get_pod_ip("svc-1", printed(0, " 10.244.1.5\n", "")),
        Ok("10.244.1.5".to_string())
    );
    assert_eq!(
        get_pod_ip("svc-1", printed(1, "10.244.1.5", "gone\n")),
        Err("查询 Pod svc-1 的 IP 失败（kubectl get pod，exit 1）: gone".to_string())
    );
    assert_eq!(
        get_pod_ip("svc-1", printed(0, "\n", "")),
        Err("查询 Pod svc-1 的 IP 失败（kubectl get pod，exit 0）: ".to_string())
    );
    assert_eq!(
        get_pod_ip("svc-1", printed(0, "garbage", "")),
        Err("kubectl 返回的 PodIP 不是合法 IP: \"garbage\"".to_string())
    );
    assert_eq!(
        get_pod_ip("svc-1", Err("lost".to_string())),
        Err("lost".to_string())
    );
}
