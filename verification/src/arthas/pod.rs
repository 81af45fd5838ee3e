//! Attaching arthas to a JVM in a pod.

use vstd::prelude::*;

use crate::arthas::attach;
use crate::arthas::attach::{ARTHAS_PORT_CANDIDATES, ARTHAS_PORT_START};
use crate::arthas::ip;
use crate::arthas::java;
use crate::arthas::java::{Java, JavaStage};
use crate::arthas::sweep;
use crate::arthas::sweep::{Prober, Sweep, SweepStage};
use crate::arthas::tunnel;
use crate::arthas::tunnel::{
    PfLease, PfTunnelParams, Teardown, TeardownStage, Tunnel, TunnelStage,
};
use crate::arthas::vm;
use crate::flow;
use crate::flow::{Action, Output, Reply, Site};
use crate::ids;
use crate::provision::arthas as package;
use crate::provision::arthas::{ArthasPackage, PodEnsure, PodStage, ARTHAS_TOOL_NAME};
use crate::text;

verus! {

/// How long arthas may take to listen, in milliseconds.
pub const POD_PROBE_BUDGET_MS: u64 = 60000;

/// How long the client may try to connect, in milliseconds.
pub const POD_HANDSHAKE_RETRY_BUDGET_MS: u64 = 60000;

/// How long to wait between two attempts, in milliseconds.
pub const POD_POLL_INTERVAL_MS: u64 = 3000;

/// How long short commands may take, in seconds.
pub const SHORT_COMMAND_SECS: u64 = 15;

/// How long the query for the address of a pod may take, in seconds.
pub const ADDRESS_COMMAND_SECS: u64 = 20;

/// How long the search for free ports in the pod may take, in seconds.
pub const INSIDE_PORT_COMMAND_SECS: u64 = 20;

/// How long the search for free ports from the host may take, in seconds.
pub const OUTSIDE_PORT_COMMAND_SECS: u64 = 30;

/// How long the attach command may take, in seconds.
pub const ATTACH_COMMAND_SECS: u64 = 30;

// ---------------------------------------------------------------------------------------------
// Messages
// ---------------------------------------------------------------------------------------------

pub open spec fn ensuring(pod: Seq<char>) -> Seq<char> {
    "确保容器内 arthas 工具包（pod "@ + pod + "）"@
}

fn ensuring_text(pod: &str) -> (r: String)
    ensures
        r@ == ensuring(pod@),
{
    "确保容器内 arthas 工具包（pod ".to_owned().concat(pod).concat("）")
}

pub open spec fn writing(port: u16) -> Seq<char> {
    "写入 arthas.properties（httpPort="@ + text::dec(port as nat) + "，绑定 0.0.0.0）"@
}

fn writing_text(port: u16) -> (r: String)
    ensures
        r@ == writing(port),
{
    "写入 arthas.properties（httpPort=".to_owned()
        .concat(text::u64_text(port as u64).as_str())
        .concat("，绑定 0.0.0.0）")
}

pub open spec fn tunneling(pod: Seq<char>) -> Seq<char> {
    "建立 MCP 通路（port-forward 隧道，pod "@ + pod + "）"@
}

fn tunneling_text(pod: &str) -> (r: String)
    ensures
        r@ == tunneling(pod@),
{
    "建立 MCP 通路（port-forward 隧道，pod ".to_owned().concat(pod).concat("）")
}

pub open spec fn native_handshake(port: u16) -> Seq<char> {
    "MCP 握手（原生 HTTP 隧道 "@ + vm::local_url(port) + "）"@
}

fn native_handshake_text(port: u16) -> (r: String)
    ensures
        r@ == native_handshake(port),
{
    "MCP 握手（原生 HTTP 隧道 ".to_owned().concat(vm::local_url_text(port).as_str()).concat("）")
}

pub open spec fn bridge_handshake(port: u16) -> Seq<char> {
    "MCP 握手（exec HTTP 桥 "@ + vm::local_url(port) + "）"@
}

fn bridge_handshake_text(port: u16) -> (r: String)
    ensures
        r@ == bridge_handshake(port),
{
    "MCP 握手（exec HTTP 桥 ".to_owned().concat(vm::local_url_text(port).as_str()).concat("）")
}

pub open spec fn tunnel_fallback(e: Seq<char>) -> Seq<char> {
    "隧道建立失败（"@ + e + "），降级 exec HTTP 桥（容器内 curl）"@
}

fn tunnel_fallback_text(e: &str) -> (r: String)
    ensures
        r@ == tunnel_fallback(e@),
{
    "隧道建立失败（".to_owned().concat(e).concat("），降级 exec HTTP 桥（容器内 curl）")
}

pub open spec fn opening_channel(pod: Seq<char>) -> Seq<char> {
    "建立容器执行通道（pod "@ + pod + "）"@
}

pub fn opening_channel_text(pod: &str) -> (r: String)
    ensures
        r@ == opening_channel(pod@),
{
    "建立容器执行通道（pod ".to_owned().concat(pod).concat("）")
}

/// A channel could not be had.
pub open spec fn channel_failed(e: Seq<char>) -> Seq<char> {
    "SSH 连接失败: "@ + e
}

/// A channel could not be had.
pub fn channel_failed_text(e: &str) -> (r: String)
    ensures
        r@ == channel_failed(e@),
{
    "SSH 连接失败: ".to_owned().concat(e)
}

pub open spec fn ready_over(pod: Seq<char>, port: u16, way: Seq<char>) -> Seq<char> {
    "arthas 就绪（pod "@ + pod + " 容器内端口 "@ + text::dec(port as nat) + "，"@ + way + "）"@
}

pub fn ready_over_text(pod: &str, port: u16, way: &str) -> (r: String)
    ensures
        r@ == ready_over(pod@, port, way@),
{
    "arthas 就绪（pod ".to_owned()
        .concat(pod)
        .concat(" 容器内端口 ")
        .concat(text::u64_text(port as u64).as_str())
        .concat("，")
        .concat(way)
        .concat("）")
}

pub open spec fn address_failed(pod: Seq<char>, code: i32, stderr: Seq<char>) -> Seq<char> {
    "查询 Pod "@ + pod + " 的 IP 失败（kubectl get pod，exit "@ + text::signed_dec(code as int)
        + "）: "@ + stderr
}

fn address_failed_text(pod: &str, code: i32, stderr: &str) -> (r: String)
    ensures
        r@ == address_failed(pod@, code, stderr@),
{
    "查询 Pod ".to_owned()
        .concat(pod)
        .concat(" 的 IP 失败（kubectl get pod，exit ")
        .concat(text::i64_text(code as i64).as_str())
        .concat("）: ")
        .concat(stderr)
}

/// The address of the pod that the query printed, or why there is none.
pub open spec fn pod_address(
    pod: Seq<char>,
    result: Result<Output<Seq<char>>, Seq<char>>,
) -> Result<Seq<char>, Seq<char>> {
    match result {
        Ok(out) => {
            let address = text::trimmed(out.stdout);
            if out.exit_code != 0 || address.len() == 0 {
                Err(address_failed(pod, out.exit_code, text::trimmed(out.stderr)))
            } else if ip::is_ip(address) {
                Ok(address)
            } else {
                Err(attach::pod_ip_error(address))
            }
        },
        Err(e) => Err(e),
    }
}

/// The address of the pod that the query printed, where it printed one.
pub open spec fn address_of(
    pod: Seq<char>,
    result: Result<Output<Seq<char>>, Seq<char>>,
) -> Option<Seq<char>> {
    match pod_address(pod, result) {
        Ok(address) => Some(address),
        Err(_) => None,
    }
}

/// The address of the pod that the query printed, or why there is none.
pub fn get_pod_ip(pod: &str, result: Result<Output<String>, String>) -> (r: Result<String, String>)
    ensures
        flow::view_text(r) == pod_address(pod@, flow::view_result(result)),
{
    match result {
        Ok(out) => {
            let address: String = text::trim(out.stdout.as_str());
            if out.exit_code != 0 || address.as_str().is_empty() {
                Err(
                    address_failed_text(
                        pod,
                        out.exit_code,
                        text::trim(out.stderr.as_str()).as_str(),
                    ),
                )
            } else {
                match attach::validate_pod_ip(address.as_str()) {
                    Ok(_) => Ok(address),
                    Err(e) => Err(e),
                }
            }
        },
        Err(e) => Err(e),
    }
}

fn known_address(pod: &str, result: Result<Output<String>, String>) -> (r: Option<String>)
    ensures
        text::opt(r) == address_of(pod@, flow::view_result(result)),
{
    match get_pod_ip(pod, result) {
        Ok(address) => Some(address),
        Err(_) => None,
    }
}

// ---------------------------------------------------------------------------------------------
// Up to a running arthas
// ---------------------------------------------------------------------------------------------

/// Where the preparation stands.
#[derive(Debug, PartialEq, Eq)]
pub enum PrepareStage<S> {
    /// Bring the package.
    Package { flow: PodEnsure<S> },
    /// Find a java program.
    FindJava { flow: Java<S> },
    /// What is the address of the pod?
    Address,
    /// Which ports are in use?
    Active,
    /// Stop what was left behind.
    Clean { flow: Sweep<S> },
    /// Find two free ports.
    Allocate,
    /// Write the configuration.
    Write,
    /// Attach.
    Attach,
    /// What is the address of the pod, after all?
    Readdress,
    /// Does arthas listen?
    Probe { ip: S },
    /// Wait before the next look.
    Rest { ip: S },
    /// It is over: the port of arthas, or why there is none.
    Ended { result: Result<u16, S> },
}

/// The preparation of a session in a pod: everything up to a running arthas.
#[derive(Debug, PartialEq, Eq)]
pub struct Prepare<S> {
    pub pod: S,
    pub container: Option<S>,
    pub pid: i64,
    pub java_bin: S,
    /// The password of arthas.
    pub token: S,
    pub probe_budget: u64,
    /// The java program, once it is known.
    pub java: S,
    /// The address of the pod, where it is known.
    pub pod_ip: Option<S>,
    /// The port for HTTP, once it is known.
    pub port: u16,
    /// The port for the telnet check, once it is known.
    pub telnet: u16,
    /// Whether the user was told of the stage.
    pub told: bool,
    pub stage: PrepareStage<S>,
}

impl View for PrepareStage<String> {
    type V = PrepareStage<Seq<char>>;

    open spec fn view(&self) -> PrepareStage<Seq<char>> {
        match *self {
            PrepareStage::Package { flow } => PrepareStage::Package { flow: flow@ },
            PrepareStage::FindJava { flow } => PrepareStage::FindJava { flow: flow@ },
            PrepareStage::Address => PrepareStage::Address,
            PrepareStage::Active => PrepareStage::Active,
            PrepareStage::Clean { flow } => PrepareStage::Clean { flow: flow@ },
            PrepareStage::Allocate => PrepareStage::Allocate,
            PrepareStage::Write => PrepareStage::Write,
            PrepareStage::Attach => PrepareStage::Attach,
            PrepareStage::Readdress => PrepareStage::Readdress,
            PrepareStage::Probe { ip } => PrepareStage::Probe { ip: ip@ },
            PrepareStage::Rest { ip } => PrepareStage::Rest { ip: ip@ },
            PrepareStage::Ended { result } => PrepareStage::Ended {
                result: flow::view_port(result),
            },
        }
    }
}

impl View for Prepare<String> {
    type V = Prepare<Seq<char>>;

    open spec fn view(&self) -> Prepare<Seq<char>> {
        Prepare {
            pod: self.pod@,
            container: text::opt(self.container),
            pid: self.pid,
            java_bin: self.java_bin@,
            token: self.token@,
            probe_budget: self.probe_budget,
            java: self.java@,
            pod_ip: text::opt(self.pod_ip),
            port: self.port,
            telnet: self.telnet,
            told: self.told,
            stage: self.stage@,
        }
    }
}

/// The preparation before its first step.
pub open spec fn prepare_start(
    pod: Seq<char>,
    container: Option<Seq<char>>,
    pid: i64,
    java_bin: Seq<char>,
    zip: Option<Seq<char>>,
    probe_budget: u64,
    staging_id: Seq<char>,
    token: Seq<char>,
) -> Prepare<Seq<char>> {
    Prepare {
        pod,
        container,
        pid,
        java_bin,
        token,
        probe_budget,
        java: Seq::empty(),
        pod_ip: None,
        port: 0,
        telnet: 0,
        told: false,
        stage: PrepareStage::Package { flow: package::pod_start(pod, container, zip, staging_id) },
    }
}

/// The notice that a stage begins with: the name of the stage and a detail.
pub open spec fn prepare_notice(p: Prepare<Seq<char>>) -> Option<(Seq<char>, Seq<char>)> {
    match p.stage {
        PrepareStage::Package { flow } => Some(("ensure_package"@, ensuring(p.pod))),
        PrepareStage::FindJava { flow } => Some(
            ("resolve_java"@, "解析容器内 attach 用 java"@),
        ),
        PrepareStage::Active => Some(("cleanup"@, "清理残留 arthas 实例"@)),
        PrepareStage::Allocate => Some(("allocate_port"@, "分配 arthas 端口"@)),
        PrepareStage::Write => Some(("write_config"@, writing(p.port))),
        PrepareStage::Attach => Some(("attach"@, vm::attaching(p.pid, p.java))),
        PrepareStage::Readdress => Some(
            ("probe"@, "等待 arthas HTTP 服务就绪（宿主机侧探 podIP）"@),
        ),
        PrepareStage::Probe { ip } => Some(
            ("probe"@, "等待 arthas HTTP 服务就绪（宿主机侧探 podIP）"@),
        ),
        _ => None,
    }
}

/// A command with a time limit.
pub open spec fn run_at(site: Site, cmd: Seq<char>, secs: u64) -> Action<Seq<char>> {
    Action::Run { site, cmd, secs: Some(secs) }
}

/// How the ports of the pod are probed: from the host where the address is known, in the
/// container where it is not.
pub open spec fn prober_of(pod_ip: Option<Seq<char>>) -> Prober<Seq<char>> {
    match pod_ip {
        Some(ip) => Prober::Pod { ip },
        None => Prober::Local { site: Site::Target },
    }
}

/// The command that looks for free ports.
pub open spec fn search_command(pod_ip: Option<Seq<char>>) -> Seq<char> {
    match pod_ip {
        Some(ip) => attach::free_port_search_pod(ip, ARTHAS_PORT_START, ARTHAS_PORT_CANDIDATES),
        None => attach::free_port_search(ARTHAS_PORT_START, ARTHAS_PORT_CANDIDATES),
    }
}

/// How long it may take.
pub open spec fn search_secs(pod_ip: Option<Seq<char>>) -> u64 {
    if pod_ip is Some {
        OUTSIDE_PORT_COMMAND_SECS
    } else {
        INSIDE_PORT_COMMAND_SECS
    }
}

/// Where it runs.
pub open spec fn search_site(pod_ip: Option<Seq<char>>) -> Site {
    if pod_ip is Some {
        Site::Host
    } else {
        Site::Target
    }
}

/// The command that writes the configuration.
pub open spec fn write_command(p: Prepare<Seq<char>>) -> Seq<char> {
    attach::write_properties(package::dist(), attach::properties(p.port, p.token, "0.0.0.0"@))
}

/// The attach command.
pub open spec fn attach_text(p: Prepare<Seq<char>>) -> Seq<char> {
    attach::attach(p.java, package::dist(), p.port, p.telnet, p.pid)
}

/// The work of a stage.
pub open spec fn prepare_work(p: Prepare<Seq<char>>) -> Action<Seq<char>> {
    match p.stage {
        PrepareStage::Package { flow } => package::pod_request(flow),
        PrepareStage::FindJava { flow } => java::java_request(flow),
        PrepareStage::Address => run_at(
            Site::Host,
            attach::pod_ip_query(p.pod),
            ADDRESS_COMMAND_SECS,
        ),
        PrepareStage::Active => Action::ActivePorts,
        PrepareStage::Clean { flow } => sweep::sweep_request(flow),
        PrepareStage::Allocate => run_at(
            search_site(p.pod_ip),
            search_command(p.pod_ip),
            search_secs(p.pod_ip),
        ),
        PrepareStage::Write => run_at(Site::Target, write_command(p), SHORT_COMMAND_SECS),
        PrepareStage::Attach => run_at(Site::Target, attach_text(p), ATTACH_COMMAND_SECS),
        PrepareStage::Readdress => run_at(
            Site::Host,
            attach::pod_ip_query(p.pod),
            ADDRESS_COMMAND_SECS,
        ),
        PrepareStage::Probe { ip } => run_at(
            Site::Host,
            attach::pod_ip_probe(ip, p.port),
            SHORT_COMMAND_SECS,
        ),
        PrepareStage::Rest { ip } => Action::Pause { millis: POD_POLL_INTERVAL_MS },
        PrepareStage::Ended { result } => Action::Finished,
    }
}

/// What the preparation asks for where it stands: the notice of the stage, then its work.
pub open spec fn prepare_request(p: Prepare<Seq<char>>) -> Action<Seq<char>> {
    match prepare_notice(p) {
        Some((stage, detail)) => if p.told {
            prepare_work(p)
        } else {
            Action::Progress { tool: ARTHAS_TOOL_NAME@, stage, detail }
        },
        None => prepare_work(p),
    }
}

/// How long, in milliseconds, the wait that the stage belongs to may take.
pub open spec fn prepare_budget(p: Prepare<Seq<char>>) -> Option<u64> {
    match p.stage {
        PrepareStage::Clean { flow } => sweep::sweep_budget(flow),
        PrepareStage::Probe { ip } => if p.told {
            Some(p.probe_budget)
        } else {
            None
        },
        PrepareStage::Rest { ip } => Some(p.probe_budget),
        _ => None,
    }
}

/// A preparation that enters a stage.
pub open spec fn prepare_goto(p: Prepare<Seq<char>>, stage: PrepareStage<Seq<char>>) -> Prepare<
    Seq<char>,
> {
    Prepare { told: false, stage, ..p }
}

/// A preparation that ends in an error.
pub open spec fn prepare_fail(p: Prepare<Seq<char>>, error: Seq<char>) -> Prepare<Seq<char>> {
    prepare_goto(p, PrepareStage::Ended { result: Err(error) })
}

/// A preparation that ends with the port of arthas.
pub open spec fn prepare_done(p: Prepare<Seq<char>>) -> Prepare<Seq<char>> {
    prepare_goto(p, PrepareStage::Ended { result: Ok(p.port) })
}

/// Where a step of the package leads.
pub open spec fn prepare_package(p: Prepare<Seq<char>>, flow: PodEnsure<Seq<char>>) -> Prepare<
    Seq<char>,
> {
    match flow.stage {
        PodStage::Ended { result: Ok(_) } => prepare_goto(
            p,
            PrepareStage::FindJava { flow: java::java_start(true, p.java_bin) },
        ),
        PodStage::Ended { result: Err(e) } => prepare_fail(p, vm::package_failed(e.message)),
        _ => Prepare { stage: PrepareStage::Package { flow }, ..p },
    }
}

/// Where a step of the search for java leads.
pub open spec fn prepare_java(p: Prepare<Seq<char>>, flow: Java<Seq<char>>) -> Prepare<Seq<char>> {
    match flow.stage {
        JavaStage::Ended { result: Ok(java) } => prepare_goto(
            Prepare { java, ..p },
            PrepareStage::Address,
        ),
        JavaStage::Ended { result: Err(e) } => prepare_fail(p, e),
        _ => Prepare { stage: PrepareStage::FindJava { flow }, ..p },
    }
}

/// Where a step of the sweep leads.
pub open spec fn prepare_clean(p: Prepare<Seq<char>>, flow: Sweep<Seq<char>>) -> Prepare<
    Seq<char>,
> {
    match flow.stage {
        SweepStage::Ended { result: Ok(_) } => prepare_goto(p, PrepareStage::Allocate),
        SweepStage::Ended { result: Err(e) } => prepare_fail(p, e),
        _ => prepare_goto(p, PrepareStage::Clean { flow }),
    }
}

/// Where the search for ports leads.
pub open spec fn prepare_allocate(
    p: Prepare<Seq<char>>,
    result: Result<Output<Seq<char>>, Seq<char>>,
) -> Prepare<Seq<char>> {
    match result {
        Err(e) => prepare_fail(p, e),
        Ok(out) => match attach::free_ports(out.stdout) {
            Err(e) => prepare_fail(p, e),
            Ok((port, telnet)) => prepare_goto(
                Prepare { port: port as u16, telnet: telnet as u16, ..p },
                PrepareStage::Write,
            ),
        },
    }
}

/// Where an attach command that succeeded leads.
pub open spec fn prepare_attached(p: Prepare<Seq<char>>) -> Prepare<Seq<char>> {
    match p.pod_ip {
        Some(ip) => prepare_goto(p, PrepareStage::Probe { ip }),
        None => prepare_goto(p, PrepareStage::Readdress),
    }
}

/// Where the work of a stage leads. `None` where the reply does not answer it.
pub open spec fn prepare_next(p: Prepare<Seq<char>>, reply: Reply<Seq<char>>) -> Option<
    Prepare<Seq<char>>,
> {
    match p.stage {
        PrepareStage::Package { flow } => Some(
            prepare_package(p, package::pod_after(flow, reply)),
        ),
        PrepareStage::FindJava { flow } => Some(prepare_java(p, java::java_after(flow, reply))),
        PrepareStage::Address => match flow::limited(
            reply,
            attach::pod_ip_query(p.pod),
            ADDRESS_COMMAND_SECS,
        ) {
            Some(result) => Some(
                prepare_goto(
                    Prepare { pod_ip: address_of(p.pod, result), ..p },
                    PrepareStage::Active,
                ),
            ),
            None => None,
        },
        PrepareStage::Active => match reply {
            Reply::Ports { ports } => Some(
                prepare_clean(
                    p,
                    sweep::sweep_start(
                        prober_of(p.pod_ip),
                        Site::Target,
                        ports,
                        sweep::SWEEP_WAIT_MS,
                        sweep::SWEEP_POLL_MS,
                    ),
                ),
            ),
            _ => None,
        },
        PrepareStage::Clean { flow } => Some(prepare_clean(p, sweep::sweep_after(flow, reply))),
        PrepareStage::Allocate => match flow::limited(
            reply,
            search_command(p.pod_ip),
            search_secs(p.pod_ip),
        ) {
            Some(result) => Some(prepare_allocate(p, result)),
            None => None,
        },
        PrepareStage::Write => match flow::limited(reply, write_command(p), SHORT_COMMAND_SECS) {
            Some(Err(e)) => Some(prepare_fail(p, e)),
            Some(Ok(out)) => if out.exit_code == 0 {
                Some(prepare_goto(p, PrepareStage::Attach))
            } else {
                Some(prepare_fail(p, vm::write_failed(out.exit_code, out.stderr)))
            },
            None => None,
        },
        PrepareStage::Attach => match flow::limited(reply, attach_text(p), ATTACH_COMMAND_SECS) {
            Some(Err(e)) => Some(prepare_fail(p, e)),
            Some(Ok(out)) => if out.exit_code == 0 {
                Some(prepare_attached(p))
            } else {
                Some(prepare_fail(p, vm::attach_failed(out.exit_code, out.stderr)))
            },
            None => None,
        },
        PrepareStage::Readdress => match flow::limited(
            reply,
            attach::pod_ip_query(p.pod),
            ADDRESS_COMMAND_SECS,
        ) {
            Some(result) => match address_of(p.pod, result) {
                Some(ip) => Some(Prepare { told: true, stage: PrepareStage::Probe { ip }, ..p }),
                None => Some(prepare_done(p)),
            },
            None => None,
        },
        PrepareStage::Probe { ip } => match flow::limited(
            reply,
            attach::pod_ip_probe(ip, p.port),
            SHORT_COMMAND_SECS,
        ) {
            Some(Err(_)) => Some(prepare_done(p)),
            Some(Ok(out)) => if sweep::is_busy(out) || flow::is_late(reply) {
                Some(prepare_done(p))
            } else {
                Some(prepare_goto(p, PrepareStage::Rest { ip }))
            },
            None => None,
        },
        PrepareStage::Rest { ip } => match reply {
            Reply::Done { done, late } => Some(
                Prepare { told: true, stage: PrepareStage::Probe { ip }, ..p },
            ),
            _ => None,
        },
        PrepareStage::Ended { result } => None,
    }
}

/// The preparation after a reply. A reply to a notice is that it was given.
pub open spec fn prepare_after(p: Prepare<Seq<char>>, reply: Reply<Seq<char>>) -> Prepare<
    Seq<char>,
> {
    if prepare_notice(p) is Some && !p.told {
        if reply is Done {
            Prepare { told: true, ..p }
        } else {
            p
        }
    } else {
        match prepare_next(p, reply) {
            Some(next) => next,
            None => p,
        }
    }
}

/// Begins to prepare a session in a pod, behind a fresh password.
pub fn pod_attach_prepare(
    pod: &str,
    container: Option<&str>,
    pid: i64,
    java_bin: &str,
    zip: Option<&str>,
    probe_budget: u64,
) -> (r: Prepare<String>)
    ensures
        exists|id: Seq<char>, token: Seq<char>| #[trigger]
            ids::is_uuid(id) && #[trigger] ids::is_token(token) && r@ == prepare_start(
                pod@,
                text::opt_str(container),
                pid,
                java_bin@,
                text::opt_str(zip),
                probe_budget,
                id,
                token,
            ),
{
    let id: String = ids::fresh_uuid();
    let token: String = ids::generate_token();
    pod_attach_prepare_with(
        pod,
        container,
        pid,
        java_bin,
        zip,
        probe_budget,
        id.as_str(),
        token.as_str(),
    )
}

/// Begins to prepare a session in a pod, behind a given password and over a staging directory
/// named after `staging_id`.
pub fn pod_attach_prepare_with(
    pod: &str,
    container: Option<&str>,
    pid: i64,
    java_bin: &str,
    zip: Option<&str>,
    probe_budget: u64,
    staging_id: &str,
    token: &str,
) -> (r: Prepare<String>)
    ensures
        r@ == prepare_start(
            pod@,
            text::opt_str(container),
            pid,
            java_bin@,
            text::opt_str(zip),
            probe_budget,
            staging_id@,
            token@,
        ),
{
    Prepare {
        pod: pod.to_owned(),
        container: text::own_opt(container),
        pid,
        java_bin: java_bin.to_owned(),
        token: token.to_owned(),
        probe_budget,
        java: String::new(),
        pod_ip: None,
        port: 0,
        telnet: 0,
        told: false,
        stage: PrepareStage::Package {
            flow: ArthasPackage.ensure_k8s_over(pod, container, zip, staging_id),
        },
    }
}

fn run_text(site: Site, cmd: String, secs: u64) -> (r: Action<String>)
    ensures
        r@ == run_at(site, cmd@, secs),
{
    Action::Run { site, cmd, secs: Some(secs) }
}

impl Prepare<String> {
    fn notice(&self) -> (r: Option<(&'static str, String)>)
        ensures
            (match r {
                Some((s, d)) => Some((s@, d@)),
                None => None,
            }) == prepare_notice(self@),
    {
        match &self.stage {
            PrepareStage::Package { flow: _ } => Some(
                ("ensure_package", ensuring_text(self.pod.as_str())),
            ),
            PrepareStage::FindJava { flow: _ } => Some(
                ("resolve_java", "解析容器内 attach 用 java".to_owned()),
            ),
            PrepareStage::Active => Some(("cleanup", "清理残留 arthas 实例".to_owned())),
            PrepareStage::Allocate => Some(("allocate_port", "分配 arthas 端口".to_owned())),
            PrepareStage::Write => Some(("write_config", writing_text(self.port))),
            PrepareStage::Attach => Some(
                ("attach", vm::attaching_text(self.pid, self.java.as_str())),
            ),
            PrepareStage::Readdress => Some(
                ("probe", "等待 arthas HTTP 服务就绪（宿主机侧探 podIP）".to_owned()),
            ),
            PrepareStage::Probe { ip: _ } => Some(
                ("probe", "等待 arthas HTTP 服务就绪（宿主机侧探 podIP）".to_owned()),
            ),
            _ => None,
        }
    }

    fn write_text(&self) -> (r: String)
        ensures
            r@ == write_command(self@),
    {
        attach::write_properties_command(
            package::dist_text().as_str(),
            attach::arthas_properties_content_pod(self.port, self.token.as_str()).as_str(),
        )
    }

    fn attach_cmd(&self) -> (r: String)
        ensures
            r@ == attach_text(self@),
    {
        attach::attach_command(
            self.java.as_str(),
            package::dist_text().as_str(),
            self.port,
            self.telnet,
            self.pid,
        )
    }

    fn search_text(&self) -> (r: String)
        ensures
            r@ == search_command(text::opt(self.pod_ip)),
    {
        match &self.pod_ip {
            Some(ip) => attach::find_free_port_pod_command(
                ip.as_str(),
                ARTHAS_PORT_START,
                ARTHAS_PORT_CANDIDATES,
            ),
            None => attach::find_free_port_command(ARTHAS_PORT_START, ARTHAS_PORT_CANDIDATES),
        }
    }

    fn search_limit(&self) -> (r: u64)
        ensures
            r == search_secs(text::opt(self.pod_ip)),
    {
        if self.pod_ip.is_some() {
            OUTSIDE_PORT_COMMAND_SECS
        } else {
            INSIDE_PORT_COMMAND_SECS
        }
    }

    fn work(&self) -> (r: Action<String>)
        ensures
            r@ == prepare_work(self@),
    {
        match &self.stage {
            PrepareStage::Package { flow } => flow.request(),
            PrepareStage::FindJava { flow } => flow.request(),
            PrepareStage::Address => run_text(
                Site::Host,
                attach::pod_ip_command(self.pod.as_str()),
                ADDRESS_COMMAND_SECS,
            ),
            PrepareStage::Active => Action::ActivePorts,
            PrepareStage::Clean { flow } => flow.request(),
            PrepareStage::Allocate => run_text(
                if self.pod_ip.is_some() {
                    Site::Host
                } else {
                    Site::Target
                },
                self.search_text(),
                self.search_limit(),
            ),
            PrepareStage::Write => run_text(Site::Target, self.write_text(), SHORT_COMMAND_SECS),
            PrepareStage::Attach => run_text(
                Site::Target,
                self.attach_cmd(),
                ATTACH_COMMAND_SECS,
            ),
            PrepareStage::Readdress => run_text(
                Site::Host,
                attach::pod_ip_command(self.pod.as_str()),
                ADDRESS_COMMAND_SECS,
            ),
            PrepareStage::Probe { ip } => run_text(
                Site::Host,
                attach::pod_ip_probe_command(ip.as_str(), self.port),
                SHORT_COMMAND_SECS,
            ),
            PrepareStage::Rest { ip: _ } => Action::Pause { millis: POD_POLL_INTERVAL_MS },
            PrepareStage::Ended { result: _ } => Action::Finished,
        }
    }

    /// What is asked for.
    pub fn request(&self) -> (r: Action<String>)
        ensures
            r@ == prepare_request(self@),
    {
        match self.notice() {
            Some((stage, detail)) => if self.told {
                self.work()
            } else {
                Action::Progress {
                    tool: ARTHAS_TOOL_NAME.to_owned(),
                    stage: stage.to_owned(),
                    detail,
                }
            },
            None => self.work(),
        }
    }

    /// How long, in milliseconds, the wait that the stage belongs to may take.
    pub fn budget(&self) -> (r: Option<u64>)
        ensures
            r == prepare_budget(self@),
    {
        match &self.stage {
            PrepareStage::Clean { flow } => flow.budget(),
            PrepareStage::Probe { ip: _ } => if self.told {
                Some(self.probe_budget)
            } else {
                None
            },
            PrepareStage::Rest { ip: _ } => Some(self.probe_budget),
            _ => None,
        }
    }

    fn goto(self, stage: PrepareStage<String>) -> (r: Self)
        ensures
            r@ == prepare_goto(self@, stage@),
    {
        Prepare { told: false, stage, ..self }
    }

    fn fail(self, error: String) -> (r: Self)
        ensures
            r@ == prepare_fail(self@, error@),
    {
        self.goto(PrepareStage::Ended { result: Err(error) })
    }

    fn done(self) -> (r: Self)
        ensures
            r@ == prepare_done(self@),
    {
        let port: u16 = self.port;
        self.goto(PrepareStage::Ended { result: Ok(port) })
    }

    fn on_package(self, flow: PodEnsure<String>) -> (r: Self)
        ensures
            r@ == prepare_package(self@, flow@),
    {
        match flow.stage {
            PodStage::Ended { result: Ok(_) } => {
                let search: Java<String> = java::resolve_attach_java(true, self.java_bin.as_str());
                self.goto(PrepareStage::FindJava { flow: search })
            },
            PodStage::Ended { result: Err(e) } => self.fail(
                vm::package_failed_text(e.message.as_str()),
            ),
            stage => Prepare {
                stage: PrepareStage::Package { flow: PodEnsure { stage, ..flow } },
                ..self
            },
        }
    }

    fn on_java(self, flow: Java<String>) -> (r: Self)
        ensures
            r@ == prepare_java(self@, flow@),
    {
        match flow.stage {
            JavaStage::Ended { result: Ok(java) } => Prepare { java, ..self }.goto(
                PrepareStage::Address,
            ),
            JavaStage::Ended { result: Err(e) } => self.fail(e),
            stage => Prepare {
                stage: PrepareStage::FindJava { flow: Java { stage, ..flow } },
                ..self
            },
        }
    }

    fn on_clean(self, flow: Sweep<String>) -> (r: Self)
        ensures
            r@ == prepare_clean(self@, flow@),
    {
        match flow.stage {
            SweepStage::Ended { result: Ok(_) } => self.goto(PrepareStage::Allocate),
            SweepStage::Ended { result: Err(e) } => self.fail(e),
            stage => self.goto(PrepareStage::Clean { flow: Sweep { stage, ..flow } }),
        }
    }

    fn on_allocate(self, result: Result<Output<String>, String>) -> (r: Self)
        ensures
            r@ == prepare_allocate(self@, flow::view_result(result)),
    {
        match result {
            Err(e) => self.fail(e),
            Ok(out) => match attach::parse_free_port(out.stdout.as_str()) {
                Err(e) => self.fail(e),
                Ok((port, telnet)) => Prepare { port, telnet, ..self }.goto(PrepareStage::Write),
            },
        }
    }

    fn on_attached(self) -> (r: Self)
        ensures
            r@ == prepare_attached(self@),
    {
        match text::copy_opt(&self.pod_ip) {
            Some(ip) => self.goto(PrepareStage::Probe { ip }),
            None => self.goto(PrepareStage::Readdress),
        }
    }

    fn prober(&self) -> (r: Prober<String>)
        ensures
            r@ == prober_of(text::opt(self.pod_ip)),
    {
        match &self.pod_ip {
            Some(ip) => Prober::Pod { ip: ip.clone() },
            None => Prober::Local { site: Site::Target },
        }
    }

    /// Takes the reply to what was asked for.
    pub fn step(self, reply: Reply<String>) -> (r: Self)
        ensures
            r@ == prepare_after(self@, reply@),
    {
        if self.notice().is_some() && !self.told {
            return match reply {
                Reply::Done { done: _, late: _ } => Prepare { told: true, ..self },
                _ => self,
            };
        }
        let late: bool = flow::late_reply(&reply);
        let write: String = self.write_text();
        let attach: String = self.attach_cmd();
        let stage: PrepareStage<String> = self.stage;
        let me: Prepare<String> = Prepare { stage: PrepareStage::Address, ..self };
        match stage {
            PrepareStage::Package { flow } => {
                let mut f: PodEnsure<String> = flow;
                f.step(reply);
                me.on_package(f)
            },
            PrepareStage::FindJava { flow } => {
                let mut f: Java<String> = flow;
                f.step(reply);
                me.on_java(f)
            },
            PrepareStage::Address => match flow::take_limited(
                reply,
                attach::pod_ip_command(me.pod.as_str()).as_str(),
                ADDRESS_COMMAND_SECS,
            ) {
                Some(result) => Prepare {
                    pod_ip: known_address(me.pod.as_str(), result),
                    ..me
                }.goto(
                    PrepareStage::Active,
                ),
                None => Prepare { stage: PrepareStage::Address, ..me },
            },
            PrepareStage::Active => match reply {
                Reply::Ports { ports } => {
                    let prober: Prober<String> = me.prober();
                    me.on_clean(
                        sweep::cleanup_stale_instances_with(
                            prober,
                            Site::Target,
                            ports,
                            sweep::SWEEP_WAIT_MS,
                            sweep::SWEEP_POLL_MS,
                        ),
                    )
                },
                _ => Prepare { stage: PrepareStage::Active, ..me },
            },
            PrepareStage::Clean { flow } => {
                let mut f: Sweep<String> = flow;
                f.step(reply);
                me.on_clean(f)
            },
            PrepareStage::Allocate => match flow::take_limited(
                reply,
                me.search_text().as_str(),
                me.search_limit(),
            ) {
                Some(result) => me.on_allocate(result),
                None => Prepare { stage: PrepareStage::Allocate, ..me },
            },
            PrepareStage::Write => match flow::take_limited(
                reply,
                write.as_str(),
                SHORT_COMMAND_SECS,
            ) {
                Some(Err(e)) => me.fail(e),
                Some(Ok(out)) => if out.exit_code == 0 {
                    me.goto(PrepareStage::Attach)
                } else {
                    me.fail(vm::write_failed_text(out.exit_code, out.stderr.as_str()))
                },
                None => Prepare { stage: PrepareStage::Write, ..me },
            },
            PrepareStage::Attach => match flow::take_limited(
                reply,
                attach.as_str(),
                ATTACH_COMMAND_SECS,
            ) {
                Some(Err(e)) => me.fail(e),
                Some(Ok(out)) => if out.exit_code == 0 {
                    me.on_attached()
                } else {
                    me.fail(vm::attach_failed_text(out.exit_code, out.stderr.as_str()))
                },
                None => Prepare { stage: PrepareStage::Attach, ..me },
            },
            PrepareStage::Readdress => match flow::take_limited(
                reply,
                attach::pod_ip_command(me.pod.as_str()).as_str(),
                ADDRESS_COMMAND_SECS,
            ) {
                Some(result) => match known_address(me.pod.as_str(), result) {
                    Some(ip) => Prepare { told: true, stage: PrepareStage::Probe { ip }, ..me },
                    None => me.done(),
                },
                None => Prepare { stage: PrepareStage::Readdress, ..me },
            },
            PrepareStage::Probe { ip } => match flow::take_limited(
                reply,
                attach::pod_ip_probe_command(ip.as_str(), me.port).as_str(),
                SHORT_COMMAND_SECS,
            ) {
                Some(Err(_)) => me.done(),
                Some(Ok(out)) => if sweep::busy(&out) || late {
                    me.done()
                } else {
                    me.goto(PrepareStage::Rest { ip })
                },
                None => Prepare { stage: PrepareStage::Probe { ip }, ..me },
            },
            PrepareStage::Rest { ip } => match reply {
                Reply::Done { done: _, late: _ } => Prepare {
                    told: true,
                    stage: PrepareStage::Probe { ip },
                    ..me
                },
                _ => Prepare { stage: PrepareStage::Rest { ip }, ..me },
            },
            PrepareStage::Ended { result } => Prepare {
                stage: PrepareStage::Ended { result },
                ..me
            },
        }
    }
}

/// A pod whose address cannot be found out is still attached to: the ports are then probed and
/// searched in the container.
pub proof fn law_unknown_address_falls_back(
    p: Prepare<Seq<char>>,
    result: Result<Output<Seq<char>>, Seq<char>>,
    reply: Reply<Seq<char>>,
)
    requires
        p.stage is Address,
        flow::limited(reply, attach::pod_ip_query(p.pod), ADDRESS_COMMAND_SECS) == Some(result),
        address_of(p.pod, result) is None,
    ensures
        ({
            let after = prepare_after(p, reply);
            &&& after.stage is Active
            &&& prober_of(after.pod_ip) == (Prober::<Seq<char>>::Local { site: Site::Target })
            &&& search_site(after.pod_ip) == Site::Target
        }),
{
}

/// The address that commands are built from is always the text of an IP address.
pub proof fn law_address_is_checked(
    pod: Seq<char>,
    result: Result<Output<Seq<char>>, Seq<char>>,
)
    ensures
        address_of(pod, result) matches Some(a) ==> ip::is_ip(a),
{
}

/// Once the attach command succeeded, the preparation does not fail any more: whether arthas can
/// be reached is for the client to find out.
pub proof fn law_probe_does_not_fail(p: Prepare<Seq<char>>, reply: Reply<Seq<char>>)
    requires
        p.stage is Readdress || p.stage is Probe || p.stage is Rest,
    ensures
        prepare_after(p, reply).stage matches PrepareStage::Ended { result } ==> result == Ok::<
            u16,
            Seq<char>,
        >(p.port),
{
}

/// The way of a preparation once the pod was swept: two free ports are looked for, from the host where
/// the address of the pod is known and in the container where it is not; the configuration is written
/// with the first of them and the token, arthas is attached to the process with both, and its port is
/// looked at until something listens there. What comes out is the first port.
pub proof fn law_way_of_a_preparation(
    p: Prepare<Seq<char>>,
    ports: Output<Seq<char>>,
    port: u16,
    telnet: u16,
    ok: Output<Seq<char>>,
    busy: Output<Seq<char>>,
    ip: Seq<char>,
    late: bool,
)
    requires
        p.stage is Allocate,
        p.told,
        p.pod_ip == Some(ip),
        attach::free_ports(ports.stdout) == Ok::<(nat, nat), Seq<char>>((port as nat, telnet as nat)),
        ok.exit_code == 0,
        sweep::is_busy(busy),
    ensures
        ({
            let told = Reply::<Seq<char>>::Done { done: Ok(()), late };
            let p1 = prepare_after(prepare_after(p, Reply::Ran { ran: Ok(ports), late }), told);
            let p2 = prepare_after(prepare_after(p1, Reply::Ran { ran: Ok(ok), late }), told);
            let p3 = prepare_after(prepare_after(p2, Reply::Ran { ran: Ok(ok), late }), told);
            let p4 = prepare_after(p3, Reply::Ran { ran: Ok(busy), late });
            &&& prepare_request(p) == (Action::<Seq<char>>::Run {
                site: Site::Host,
                cmd: attach::free_port_search_pod(ip, 18563, 10),
                secs: Some(30u64),
            })
            &&& prepare_request(p1) == (Action::<Seq<char>>::Run {
                site: Site::Target,
                cmd: attach::write_properties(
                    package::dist(),
                    attach::properties(port, p.token, "0.0.0.0"@),
                ),
                secs: Some(15u64),
            })
            &&& prepare_request(p2) == (Action::<Seq<char>>::Run {
                site: Site::Target,
                cmd: attach::attach(p.java, package::dist(), port, telnet, p.pid),
                secs: Some(30u64),
            })
            &&& prepare_request(p3) == (Action::<Seq<char>>::Run {
                site: Site::Host,
                cmd: attach::pod_ip_probe(ip, port),
                secs: Some(15u64),
            })
            &&& prepare_budget(p3) == Some(p.probe_budget)
            &&& p4.stage == (PrepareStage::<Seq<char>>::Ended { result: Ok(port) })
        }),
{
}

/// The address of the pod is asked for on the host; it is used where the query printed an address and
/// ended well, and the preparation goes on without one otherwise.
pub proof fn law_preparation_learns_the_address(
    p: Prepare<Seq<char>>,
    out: Output<Seq<char>>,
    e: Seq<char>,
    late: bool,
)
    requires
        p.stage is Address,
    ensures
        prepare_request(p) == (Action::<Seq<char>>::Run {
            site: Site::Host,
            cmd: attach::pod_ip_query(p.pod),
            secs: Some(20u64),
        }),
        ({
            let q = prepare_after(p, Reply::Ran { ran: Ok(out), late });
            let address = text::trimmed(out.stdout);
            &&& q.stage is Active
            &&& out.exit_code == 0 && address.len() > 0 && ip::is_ip(address) ==> q.pod_ip == Some(
                address,
            )
            &&& out.exit_code != 0 || !ip::is_ip(address) ==> q.pod_ip is None
        }),
        prepare_after(p, Reply::Ran { ran: Err(e), late }).pod_ip is None,
{
}

/// How a preparation without an address comes to its ports, and how a wait goes: the search runs in the
/// container; a port that nothing listens on yet is looked at again after a pause until the time is over.
pub proof fn law_preparation_waits(
    p: Prepare<Seq<char>>,
    out: Output<Seq<char>>,
    ip: Seq<char>,
    late: bool,
)
    requires
        p.told,
    ensures
        p.stage is Active ==> prepare_request(p) is ActivePorts,
        p.stage is Allocate && p.pod_ip is None ==> prepare_request(p) == (Action::<Seq<char>>::Run {
            site: Site::Target,
            cmd: attach::free_port_search(18563, 10),
            secs: Some(20u64),
        }),
        p.stage == (PrepareStage::<Seq<char>>::Probe { ip }) && !sweep::is_busy(out) && !late ==> {
            let rest = prepare_after(p, Reply::Ran { ran: Ok(out), late });
            &&& prepare_request(rest) == (Action::<Seq<char>>::Pause { millis: 3000 })
            &&& prepare_after(rest, Reply::Done { done: Ok(()), late }).stage == p.stage
        },
        p.stage is Probe && late ==> prepare_after(p, Reply::Ran { ran: Ok(out), late }).stage == (
        PrepareStage::<Seq<char>>::Ended { result: Ok(p.port) }),
{
}

/// How a preparation fails: with what the step that failed said.
pub proof fn law_preparation_failures(
    p: Prepare<Seq<char>>,
    out: Output<Seq<char>>,
    e: Seq<char>,
    late: bool,
)
    requires
        p.told,
        p.stage is Allocate || p.stage is Write || p.stage is Attach,
    ensures
        p.stage is Allocate ==> (attach::free_ports(out.stdout) matches Err(m) ==> prepare_after(
            p,
            Reply::Ran { ran: Ok(out), late },
        ).stage == (PrepareStage::<Seq<char>>::Ended { result: Err(m) })),
        p.stage !is Allocate && out.exit_code != 0 ==> (prepare_after(
            p,
            Reply::Ran { ran: Ok(out), late },
        ).stage matches PrepareStage::Ended { result: Err(m) } && text::contains(m, out.stderr)),
        prepare_after(p, Reply::Ran { ran: Err(e), late }).stage matches PrepareStage::Ended {
            result: Err(m),
        } && text::contains(m, e),
{
    let code = text::signed_dec(out.exit_code as int);
    if p.stage is Allocate {
        flow::law_limited_command_is_what_came_of_it(
            search_command(p.pod_ip),
            search_secs(p.pod_ip),
            out,
            e,
            late,
        );
    } else if p.stage is Write {
        flow::law_limited_command_is_what_came_of_it(
            write_command(p),
            SHORT_COMMAND_SECS,
            out,
            e,
            late,
        );
        text::lemma_part("写入 arthas.properties 失败（exit "@ + code + "）: "@, out.stderr);
    } else {
        flow::law_limited_command_is_what_came_of_it(
            attach_text(p),
            ATTACH_COMMAND_SECS,
            out,
            e,
            late,
        );
        text::lemma_part("arthas attach 命令失败（exit "@ + code + "）: "@, out.stderr);
    }
}

/// What a preparation is for stays: its pod, its process, its java program, its token and its time.
pub proof fn law_preparation_keeps_its_purpose(p: Prepare<Seq<char>>, reply: Reply<Seq<char>>)
    ensures
        ({
            let q = prepare_after(p, reply);
            &&& q.pod == p.pod
            &&& q.container == p.container
            &&& q.pid == p.pid
            &&& q.java_bin == p.java_bin
            &&& q.token == p.token
            &&& q.probe_budget == p.probe_budget
            &&& p.stage !is Allocate ==> q.port == p.port && q.telnet == p.telnet
            &&& p.stage !is FindJava ==> q.java == p.java
            &&& p.stage !is Address ==> q.pod_ip == p.pod_ip
        }),
{
}

/// An ended preparation stays as it is.
pub proof fn law_prepare_end_is_final(p: Prepare<Seq<char>>, reply: Reply<Seq<char>>)
    requires
        p.stage is Ended,
    ensures
        prepare_after(p, reply) == p,
        prepare_request(p) is Finished,
{
}

// ---------------------------------------------------------------------------------------------
// From a running arthas to a client
// ---------------------------------------------------------------------------------------------

/// Where the way of the client stands.
#[derive(Debug, PartialEq, Eq)]
pub enum McpStage<S> {
    /// Build the tunnel.
    Build { flow: Tunnel<S> },
    /// Connect through it.
    Native { lease: PfLease },
    /// Take it down again.
    TakeDown { flow: Teardown<S> },
    /// Connect by commands in the container; `reason` says why there is no tunnel, where it could
    /// not be built.
    Bridge { reason: Option<S> },
    /// Wait before the next attempt.
    Rest,
    /// Stop arthas, then fail.
    Undo { error: S },
    /// It is over: the tunnel, where there is one, or why the client could not connect.
    Ended { result: Result<Option<PfLease>, S> },
}

/// The way of the client to arthas in a pod.
#[derive(Debug, PartialEq, Eq)]
pub struct Mcp<S> {
    pub env_id: S,
    pub pod: S,
    pub container: Option<S>,
    pub mcp_port: u16,
    pub token: S,
    /// How many notices of the stage were given.
    pub told: u8,
    pub stage: McpStage<S>,
}

/// A tunnel or why the client could not connect, by what it holds.
pub open spec fn view_way(r: Result<Option<PfLease>, String>) -> Result<
    Option<PfLease>,
    Seq<char>,
> {
    match r {
        Ok(l) => Ok(l),
        Err(e) => Err(e@),
    }
}

impl View for McpStage<String> {
    type V = McpStage<Seq<char>>;

    open spec fn view(&self) -> McpStage<Seq<char>> {
        match *self {
            McpStage::Build { flow } => McpStage::Build { flow: flow@ },
            McpStage::Native { lease } => McpStage::Native { lease },
            McpStage::TakeDown { flow } => McpStage::TakeDown { flow: flow@ },
            McpStage::Bridge { reason } => McpStage::Bridge { reason: text::opt(reason) },
            McpStage::Rest => McpStage::Rest,
            McpStage::Undo { error } => McpStage::Undo { error: error@ },
            McpStage::Ended { result } => McpStage::Ended { result: view_way(result) },
        }
    }
}

impl View for Mcp<String> {
    type V = Mcp<Seq<char>>;

    open spec fn view(&self) -> Mcp<Seq<char>> {
        Mcp {
            env_id: self.env_id@,
            pod: self.pod@,
            container: text::opt(self.container),
            mcp_port: self.mcp_port,
            token: self.token@,
            told: self.told,
            stage: self.stage@,
        }
    }
}

/// The way of the client before its first step.
pub open spec fn mcp_start(
    env_id: Seq<char>,
    pod: Seq<char>,
    container: Option<Seq<char>>,
    mcp_port: u16,
    token: Seq<char>,
    params: PfTunnelParams,
) -> Mcp<Seq<char>> {
    Mcp {
        env_id,
        pod,
        container,
        mcp_port,
        token,
        told: 0,
        stage: McpStage::Build {
            flow: tunnel::tunnel_start(env_id, pod, container, mcp_port, params),
        },
    }
}

/// The notices that a stage begins with, by their number: the name of the stage and a detail.
pub open spec fn mcp_notice(m: Mcp<Seq<char>>, k: u8) -> Option<(Seq<char>, Seq<char>)> {
    match m.stage {
        McpStage::Build { flow } => if k == 0 {
            Some(("tunnel"@, tunneling(m.pod)))
        } else {
            None
        },
        McpStage::Native { lease } => if k == 0 {
            Some(("handshake"@, native_handshake(lease.local_port)))
        } else {
            None
        },
        McpStage::TakeDown { flow } => if k == 0 {
            Some(("bridge"@, "原生握手失败，拆除隧道并降级 exec HTTP 桥（容器内 curl）"@))
        } else {
            None
        },
        McpStage::Bridge { reason } => match reason {
            Some(e) => if k == 0 {
                Some(("bridge"@, tunnel_fallback(e)))
            } else if k == 1 {
                Some(("handshake"@, bridge_handshake(m.mcp_port)))
            } else {
                None
            },
            None => if k == 0 {
                Some(("handshake"@, bridge_handshake(m.mcp_port)))
            } else {
                None
            },
        },
        _ => None,
    }
}

/// The work of a stage.
pub open spec fn mcp_work(m: Mcp<Seq<char>>) -> Action<Seq<char>> {
    match m.stage {
        McpStage::Build { flow } => tunnel::tunnel_request(flow),
        McpStage::Native { lease } => Action::ConnectNative {
            url: vm::local_url(lease.local_port),
        },
        McpStage::TakeDown { flow } => tunnel::teardown_request(flow),
        McpStage::Bridge { reason } => Action::ConnectBridge { url: vm::local_url(m.mcp_port) },
        McpStage::Rest => Action::Pause { millis: POD_POLL_INTERVAL_MS },
        McpStage::Undo { error } => run_at(
            Site::Target,
            attach::stop(m.mcp_port, m.token),
            SHORT_COMMAND_SECS,
        ),
        McpStage::Ended { result } => Action::Finished,
    }
}

/// What the way of the client asks for where it stands.
pub open spec fn mcp_request(m: Mcp<Seq<char>>) -> Action<Seq<char>> {
    match mcp_notice(m, m.told) {
        Some((stage, detail)) => Action::Progress { tool: ARTHAS_TOOL_NAME@, stage, detail },
        None => mcp_work(m),
    }
}

/// How long, in milliseconds, the wait that the stage belongs to may take.
pub open spec fn mcp_budget(m: Mcp<Seq<char>>) -> Option<u64> {
    match m.stage {
        McpStage::Build { flow } => tunnel::tunnel_budget(flow),
        McpStage::Bridge { reason } => if mcp_notice(m, m.told) is None {
            Some(POD_HANDSHAKE_RETRY_BUDGET_MS)
        } else {
            None
        },
        McpStage::Rest => Some(POD_HANDSHAKE_RETRY_BUDGET_MS),
        _ => None,
    }
}

/// The way of the client, entering a stage.
pub open spec fn mcp_goto(m: Mcp<Seq<char>>, stage: McpStage<Seq<char>>) -> Mcp<Seq<char>> {
    Mcp { told: 0, stage, ..m }
}

/// Where a step of the tunnel leads.
pub open spec fn mcp_built(m: Mcp<Seq<char>>, flow: Tunnel<Seq<char>>) -> Mcp<Seq<char>> {
    match flow.stage {
        TunnelStage::Ended { result: Ok(lease) } => mcp_goto(m, McpStage::Native { lease }),
        TunnelStage::Ended { result: Err(e) } => mcp_goto(m, McpStage::Bridge { reason: Some(e) }),
        _ => Mcp { stage: McpStage::Build { flow }, ..m },
    }
}

/// Where a step of the taking down leads.
pub open spec fn mcp_taken_down(m: Mcp<Seq<char>>, flow: Teardown<Seq<char>>) -> Mcp<Seq<char>> {
    match flow.stage {
        TeardownStage::Ended { stopped } => mcp_goto(m, McpStage::Bridge { reason: None }),
        _ => Mcp { stage: McpStage::TakeDown { flow }, ..m },
    }
}

/// Where the work of a stage leads. `None` where the reply does not answer it.
pub open spec fn mcp_next(m: Mcp<Seq<char>>, reply: Reply<Seq<char>>) -> Option<Mcp<Seq<char>>> {
    match m.stage {
        McpStage::Build { flow } => Some(mcp_built(m, tunnel::tunnel_after(flow, reply))),
        McpStage::Native { lease } => match reply {
            Reply::Done { done: Ok(_), late } => Some(
                mcp_goto(m, McpStage::Ended { result: Ok(Some(lease)) }),
            ),
            Reply::Done { done: Err(_), late } => Some(
                mcp_goto(
                    m,
                    McpStage::TakeDown {
                        flow: Teardown {
                            env_id: m.env_id,
                            stage: TeardownStage::Kill {
                                pid: lease.pf_pid,
                                tunnel: Some(lease.host_port),
                                stopped: false,
                            },
                        },
                    },
                ),
            ),
            _ => None,
        },
        McpStage::TakeDown { flow } => Some(
            mcp_taken_down(m, tunnel::teardown_after(flow, reply)),
        ),
        McpStage::Bridge { reason } => match reply {
            Reply::Done { done: Ok(_), late } => Some(
                mcp_goto(m, McpStage::Ended { result: Ok(None) }),
            ),
            Reply::Done { done: Err(e), late } => if late {
                Some(mcp_goto(m, McpStage::Undo { error: vm::handshake_failed(e) }))
            } else {
                Some(mcp_goto(m, McpStage::Rest))
            },
            _ => None,
        },
        McpStage::Rest => match reply {
            Reply::Done { done, late } => Some(
                Mcp { told: 2, stage: McpStage::Bridge { reason: None }, ..m },
            ),
            _ => None,
        },
        McpStage::Undo { error } => match flow::limited(
            reply,
            attach::stop(m.mcp_port, m.token),
            SHORT_COMMAND_SECS,
        ) {
            Some(_) => Some(mcp_goto(m, McpStage::Ended { result: Err(error) })),
            None => None,
        },
        McpStage::Ended { result } => None,
    }
}

/// The way of the client after a reply. A reply to a notice is that it was given.
pub open spec fn mcp_after(m: Mcp<Seq<char>>, reply: Reply<Seq<char>>) -> Mcp<Seq<char>> {
    if mcp_notice(m, m.told) is Some {
        if reply is Done {
            Mcp { told: (m.told + 1) as u8, ..m }
        } else {
            m
        }
    } else {
        match mcp_next(m, reply) {
            Some(next) => next,
            None => m,
        }
    }
}

/// Begins to connect a client to arthas in a pod: through a tunnel, or by commands in the
/// container where that fails.
pub fn establish_pod_mcp(
    env_id: &str,
    pod: &str,
    container: Option<&str>,
    mcp_port: u16,
    token: &str,
    params: PfTunnelParams,
) -> (r: Mcp<String>)
    ensures
        r@ == mcp_start(env_id@, pod@, text::opt_str(container), mcp_port, token@, params),
{
    Mcp {
        env_id: env_id.to_owned(),
        pod: pod.to_owned(),
        container: text::own_opt(container),
        mcp_port,
        token: token.to_owned(),
        told: 0,
        stage: McpStage::Build {
            flow: tunnel::establish_pf_tunnel(env_id, pod, container, mcp_port, params),
        },
    }
}

impl Mcp<String> {
    fn notice(&self, k: u8) -> (r: Option<(&'static str, String)>)
        ensures
            (match r {
                Some((s, d)) => Some((s@, d@)),
                None => None,
            }) == mcp_notice(self@, k),
    {
        match &self.stage {
            McpStage::Build { flow: _ } => if k == 0 {
                Some(("tunnel", tunneling_text(self.pod.as_str())))
            } else {
                None
            },
            McpStage::Native { lease } => if k == 0 {
                Some(("handshake", native_handshake_text(lease.local_port)))
            } else {
                None
            },
            McpStage::TakeDown { flow: _ } => if k == 0 {
                Some(
                    (
                        "bridge",
                        "原生握手失败，拆除隧道并降级 exec HTTP 桥（容器内 curl）".to_owned(),
                    ),
                )
            } else {
                None
            },
            McpStage::Bridge { reason } => match reason {
                Some(e) => if k == 0 {
                    Some(("bridge", tunnel_fallback_text(e.as_str())))
                } else if k == 1 {
                    Some(("handshake", bridge_handshake_text(self.mcp_port)))
                } else {
                    None
                },
                None => if k == 0 {
                    Some(("handshake", bridge_handshake_text(self.mcp_port)))
                } else {
                    None
                },
            },
            _ => None,
        }
    }

    fn work(&self) -> (r: Action<String>)
        ensures
            r@ == mcp_work(self@),
    {
        match &self.stage {
            McpStage::Build { flow } => flow.request(),
            McpStage::Native { lease } => Action::ConnectNative {
                url: vm::local_url_text(lease.local_port),
            },
            McpStage::TakeDown { flow } => flow.request(),
            McpStage::Bridge { reason: _ } => Action::ConnectBridge {
                url: vm::local_url_text(self.mcp_port),
            },
            McpStage::Rest => Action::Pause { millis: POD_POLL_INTERVAL_MS },
            McpStage::Undo { error: _ } => run_text(
                Site::Target,
                attach::stop_command(self.mcp_port, self.token.as_str()),
                SHORT_COMMAND_SECS,
            ),
            McpStage::Ended { result: _ } => Action::Finished,
        }
    }

    /// What is asked for.
    pub fn request(&self) -> (r: Action<String>)
        ensures
            r@ == mcp_request(self@),
    {
        match self.notice(self.told) {
            Some((stage, detail)) => Action::Progress {
                tool: ARTHAS_TOOL_NAME.to_owned(),
                stage: stage.to_owned(),
                detail,
            },
            None => self.work(),
        }
    }

    /// How long, in milliseconds, the wait that the stage belongs to may take.
    pub fn budget(&self) -> (r: Option<u64>)
        ensures
            r == mcp_budget(self@),
    {
        match &self.stage {
            McpStage::Build { flow } => flow.budget(),
            McpStage::Bridge { reason: _ } => if self.notice(self.told).is_none() {
                Some(POD_HANDSHAKE_RETRY_BUDGET_MS)
            } else {
                None
            },
            McpStage::Rest => Some(POD_HANDSHAKE_RETRY_BUDGET_MS),
            _ => None,
        }
    }

    fn goto(self, stage: McpStage<String>) -> (r: Self)
        ensures
            r@ == mcp_goto(self@, stage@),
    {
        Mcp { told: 0, stage, ..self }
    }

    fn on_built(self, flow: Tunnel<String>) -> (r: Self)
        ensures
            r@ == mcp_built(self@, flow@),
    {
        match flow.stage {
            TunnelStage::Ended { result: Ok(lease) } => self.goto(McpStage::Native { lease }),
            TunnelStage::Ended { result: Err(e) } => self.goto(
                McpStage::Bridge { reason: Some(e) },
            ),
            stage => Mcp { stage: McpStage::Build { flow: Tunnel { stage, ..flow } }, ..self },
        }
    }

    fn on_taken_down(self, flow: Teardown<String>) -> (r: Self)
        ensures
            r@ == mcp_taken_down(self@, flow@),
    {
        match flow.stage {
            TeardownStage::Ended { stopped: _ } => self.goto(McpStage::Bridge { reason: None }),
            _ => Mcp { stage: McpStage::TakeDown { flow }, ..self },
        }
    }

    /// Takes the reply to what was asked for.
    pub fn step(self, reply: Reply<String>) -> (r: Self)
        ensures
            r@ == mcp_after(self@, reply@),
    {
        if self.notice(self.told).is_some() {
            return match reply {
                Reply::Done { done: _, late: _ } => Mcp { told: self.told + 1, ..self },
                _ => self,
            };
        }
        let stage: McpStage<String> = self.stage;
        let me: Mcp<String> = Mcp { stage: McpStage::Rest, ..self };
        match stage {
            McpStage::Build { flow } => {
                let mut f: Tunnel<String> = flow;
                f.step(reply);
                me.on_built(f)
            },
            McpStage::Native { lease } => match reply {
                Reply::Done { done: Ok(_), late: _ } => me.goto(
                    McpStage::Ended { result: Ok(Some(lease)) },
                ),
                Reply::Done { done: Err(_), late: _ } => {
                    let flow: Teardown<String> = tunnel::teardown_pf(
                        me.env_id.as_str(),
                        lease.pf_pid,
                        Some(lease.host_port),
                    );
                    me.goto(McpStage::TakeDown { flow })
                },
                _ => Mcp { stage: McpStage::Native { lease }, ..me },
            },
            McpStage::TakeDown { flow } => {
                let mut f: Teardown<String> = flow;
                f.step(reply);
                me.on_taken_down(f)
            },
            McpStage::Bridge { reason } => match reply {
                Reply::Done { done: Ok(_), late: _ } => me.goto(
                    McpStage::Ended { result: Ok(None) },
                ),
                Reply::Done { done: Err(e), late } => if late {
                    me.goto(McpStage::Undo { error: vm::handshake_failed_text(e.as_str()) })
                } else {
                    me.goto(McpStage::Rest)
                },
                _ => Mcp { stage: McpStage::Bridge { reason }, ..me },
            },
            McpStage::Rest => match reply {
                Reply::Done { done: _, late: _ } => Mcp {
                    told: 2,
                    stage: McpStage::Bridge { reason: None },
                    ..me
                },
                _ => Mcp { stage: McpStage::Rest, ..me },
            },
            McpStage::Undo { error } => match flow::take_limited(
                reply,
                attach::stop_command(me.mcp_port, me.token.as_str()).as_str(),
                SHORT_COMMAND_SECS,
            ) {
                Some(_) => me.goto(McpStage::Ended { result: Err(error) }),
                None => Mcp { stage: McpStage::Undo { error }, ..me },
            },
            McpStage::Ended { result } => Mcp { stage: McpStage::Ended { result }, ..me },
        }
    }
}

/// A client that could not connect through the tunnel has the port-forward killed and the tunnel
/// closed, in this order, before it tries by commands in the container.
pub proof fn law_failed_handshake_takes_tunnel_down(
    m: Mcp<Seq<char>>,
    failed: Reply<Seq<char>>,
    noted: Reply<Seq<char>>,
    killed: Reply<Seq<char>>,
    closed: Reply<Seq<char>>,
)
    requires
        m.stage is Native,
        m.told == 1,
        failed matches Reply::Done { done: Err(_), late: _ },
        noted is Done,
        killed is Ran,
        closed is Done,
    ensures
        ({
            let lease = m.stage->lease;
            let m1 = mcp_after(m, failed);
            let m2 = mcp_after(m1, noted);
            let m3 = mcp_after(m2, killed);
            let m4 = mcp_after(m3, closed);
            &&& mcp_request(m1) is Progress
            &&& mcp_request(m2) == crate::exec::k8s::on_host(tunnel::kill_pf(lease.pf_pid))
            &&& mcp_request(m3) == tunnel::close_action(m.env_id, lease.host_port)
            &&& m4.stage == (McpStage::<Seq<char>>::Bridge { reason: None })
        }),
{
}

/// A tunnel that is handed out is one that the client connected through; a client that connected
/// otherwise has none.
pub proof fn law_way_of_the_client(
    m: Mcp<Seq<char>>,
    reply: Reply<Seq<char>>,
    way: Option<PfLease>,
)
    requires
        m.stage !is Ended,
        mcp_after(m, reply).stage == (McpStage::<Seq<char>>::Ended { result: Ok(way) }),
    ensures
        way matches Some(lease) ==> m.stage == (McpStage::<Seq<char>>::Native { lease }),
        way is None ==> m.stage is Bridge,
        reply matches Reply::Done { done: Ok(_), late: _ },
{
}

/// A client that cannot connect at all has arthas stopped before it ends in an error.
pub proof fn law_failed_client_stops_arthas(m: Mcp<Seq<char>>, reply: Reply<Seq<char>>)
    requires
        m.stage !is Ended,
        mcp_after(m, reply).stage matches McpStage::Ended { result: Err(_) },
    ensures
        m.stage is Undo,
        mcp_request(m) == run_at(
            Site::Target,
            attach::stop(m.mcp_port, m.token),
            SHORT_COMMAND_SECS,
        ),
{
}

/// An ended way stays as it is.
pub proof fn law_mcp_end_is_final(m: Mcp<Seq<char>>, reply: Reply<Seq<char>>)
    requires
        m.stage is Ended,
    ensures
        mcp_after(m, reply) == m,
        mcp_request(m) is Finished,
{
}

/// The port-forward that the way of the client has to look after.
pub open spec fn forwarded(stage: McpStage<Seq<char>>) -> Option<u32> {
    match stage {
        McpStage::Build { flow } => tunnel::started_pid(flow.stage),
        McpStage::Native { lease } => Some(lease.pf_pid),
        McpStage::TakeDown { flow } => match flow.stage {
            TeardownStage::HttpStop { lease } => Some(lease.pf_pid),
            TeardownStage::Kill { pid, tunnel, stopped } => Some(pid),
            _ => None,
        },
        _ => None,
    }
}

/// Once a port-forward was started, the way of the client either looks after it, or hands it out
/// in a lease, or kills it.
pub proof fn law_client_never_leaks(m: Mcp<Seq<char>>, reply: Reply<Seq<char>>)
    requires
        forwarded(m.stage) is Some,
    ensures
        ({
            let after = mcp_after(m, reply);
            ||| forwarded(after.stage) == forwarded(m.stage)
            ||| (after.stage matches McpStage::Ended { result: Ok(Some(lease)) } && Some(
                lease.pf_pid,
            ) == forwarded(m.stage))
            ||| (reply is Ran && mcp_request(m) == crate::exec::k8s::on_host(
                tunnel::kill_pf(forwarded(m.stage)->0),
            ))
        }),
{
    if let McpStage::Build { flow } = m.stage {
        tunnel::law_tunnel_never_leaks(flow, reply);
    }
}

/// The way of the client after replies.
pub open spec fn mcp_run(m: Mcp<Seq<char>>, replies: Seq<Reply<Seq<char>>>) -> Mcp<Seq<char>>
    decreases replies.len(),
{
    if replies.len() == 0 {
        m
    } else {
        mcp_after(mcp_run(m, replies.drop_last()), replies.last())
    }
}

/// Whether the process was asked to be killed, and that was answered, between two replies.
pub open spec fn forward_was_killed(
    m: Mcp<Seq<char>>,
    replies: Seq<Reply<Seq<char>>>,
    pid: u32,
    from: int,
    to: int,
) -> bool {
    exists|j: int|
        from <= j < to && #[trigger] replies[j] is Ran && mcp_request(mcp_run(m, replies.take(j)))
            == crate::exec::k8s::on_host(tunnel::kill_pf(pid))
}

proof fn lemma_mcp_run(
    m: Mcp<Seq<char>>,
    replies: Seq<Reply<Seq<char>>>,
    k: int,
    pid: u32,
    n: int,
)
    requires
        0 <= k <= n <= replies.len(),
        forwarded(mcp_run(m, replies.take(k)).stage) == Some(pid),
    ensures
        ({
            let now = mcp_run(m, replies.take(n)).stage;
            ||| forwarded(now) == Some(pid)
            ||| now matches McpStage::Ended { result: Ok(Some(lease)) } && lease.pf_pid == pid
            ||| forward_was_killed(m, replies, pid, k, n)
        }),
    decreases n - k,
{
    if k < n {
        lemma_mcp_run(m, replies, k, pid, n - 1);
        assert(replies.take(n).drop_last() =~= replies.take(n - 1));
        let before = mcp_run(m, replies.take(n - 1));
        let reply = replies[n - 1];
        if forward_was_killed(m, replies, pid, k, n - 1) {
            let j = choose|j: int|
                k <= j < n - 1 && #[trigger] replies[j] is Ran && mcp_request(
                    mcp_run(m, replies.take(j)),
                ) == crate::exec::k8s::on_host(tunnel::kill_pf(pid));
            assert(replies[j] is Ran);
        } else if forwarded(before.stage) is Some {
            law_client_never_leaks(before, reply);
        } else {
            law_mcp_end_is_final(before, reply);
        }
    }
}

/// Over a whole run: where a port-forward was started, the way of the client ends by handing it
/// out in a lease, or it was killed since.
pub proof fn law_forward_is_kept_or_killed(
    m: Mcp<Seq<char>>,
    replies: Seq<Reply<Seq<char>>>,
    k: int,
    pid: u32,
)
    requires
        0 <= k <= replies.len(),
        forwarded(mcp_run(m, replies.take(k)).stage) == Some(pid),
        mcp_run(m, replies).stage is Ended,
    ensures
        ({
            ||| mcp_run(m, replies).stage matches McpStage::Ended { result: Ok(Some(lease)) }
                && lease.pf_pid == pid
            ||| forward_was_killed(m, replies, pid, k, replies.len() as int)
        }),
{
    lemma_mcp_run(m, replies, k, pid, replies.len() as int);
    assert(replies.take(replies.len() as int) =~= replies);
}

/// The way of the client: through the tunnel where it was built, and then the lease is kept; by commands in
/// the container where it was not, or where the tunnel does not answer, which is then taken down. An
/// attempt that fails is made again after a pause until the time is over; then arthas is stopped, at its
/// port and with its token, and the client has failed with what was said last.
pub proof fn law_client_steps(
    m: Mcp<Seq<char>>,
    lease: PfLease,
    e: Seq<char>,
    out: Output<Seq<char>>,
    late: bool,
)
    requires
        mcp_notice(m, m.told) is None,
    ensures
        m.stage == (McpStage::<Seq<char>>::Native { lease }) ==> {
            &&& mcp_request(m) == (Action::<Seq<char>>::ConnectNative {
                url: "http://127.0.0.1:"@ + text::dec(lease.local_port as nat) + "/mcp"@,
            })
            &&& mcp_after(m, Reply::Done { done: Ok(()), late }).stage == (McpStage::<
                Seq<char>,
            >::Ended { result: Ok(Some(lease)) })
            &&& mcp_after(m, Reply::Done { done: Err(e), late }).stage matches McpStage::TakeDown {
                flow,
            } && tunnel::teardown_request(flow) == (Action::<Seq<char>>::Run {
                site: Site::Host,
                cmd: "kill "@ + text::dec(lease.pf_pid as nat) + " 2>/dev/null || true"@,
                secs: None,
            })
        },
        m.stage is Bridge ==> {
            &&& mcp_request(m) == (Action::<Seq<char>>::ConnectBridge {
                url: "http://127.0.0.1:"@ + text::dec(m.mcp_port as nat) + "/mcp"@,
            })
            &&& mcp_budget(m) == Some(60000u64)
            &&& mcp_after(m, Reply::Done { done: Ok(()), late }).stage == (McpStage::<
                Seq<char>,
            >::Ended { result: Ok(None) })
            &&& !late ==> {
                let rest = mcp_after(m, Reply::Done { done: Err(e), late });
                &&& mcp_request(rest) == (Action::<Seq<char>>::Pause { millis: 3000 })
                &&& mcp_after(rest, Reply::Done { done: Ok(()), late }).stage is Bridge
            }
            &&& late ==> {
                let undo = mcp_after(m, Reply::Done { done: Err(e), late });
                &&& mcp_request(undo) == (Action::<Seq<char>>::Run {
                    site: Site::Target,
                    cmd: attach::stop(m.mcp_port, m.token),
                    secs: Some(15u64),
                })
                &&& mcp_after(undo, Reply::Ran { ran: Ok(out), late }).stage matches McpStage::Ended {
                    result: Err(x),
                } && text::contains(x, e)
            }
        },
{
    text::lemma_part("arthas MCP 握手失败: "@, e);
}

/// The tunnel of the client is built for its pod, its container and the port of arthas; one that stands
/// leads to the client through it, one that does not leads to the commands, with the reason.
pub proof fn law_client_uses_its_tunnel(
    env_id: Seq<char>,
    pod: Seq<char>,
    container: Option<Seq<char>>,
    mcp_port: u16,
    token: Seq<char>,
    params: PfTunnelParams,
    m: Mcp<Seq<char>>,
    flow: Tunnel<Seq<char>>,
)
    ensures
        ({
            let s = mcp_start(env_id, pod, container, mcp_port, token, params);
            &&& s.stage matches McpStage::Build { flow: f } && f.env_id == env_id && f.pod == pod
                && f.container == container && f.mcp_port == mcp_port && f.params == params
            &&& s.mcp_port == mcp_port
            &&& s.token == token
        }),
        flow.stage matches TunnelStage::Ended { result: Ok(lease) } ==> mcp_built(m, flow).stage == (
        McpStage::<Seq<char>>::Native { lease }),
        flow.stage matches TunnelStage::Ended { result: Err(e) } ==> mcp_built(m, flow).stage == (
        McpStage::<Seq<char>>::Bridge { reason: Some(e) }),
{
}

/// Each stage of the preparation of a pod is told of by its name, and where it is about a pod, a port
/// or a process, with that.
pub proof fn law_preparation_is_told(p: Prepare<Seq<char>>)
    ensures
        p.stage is Package ==> (prepare_notice(p) matches Some((name, detail)) && name
            == "ensure_package"@ && text::contains(detail, p.pod)),
        p.stage is FindJava ==> (prepare_notice(p) matches Some((name, _)) && name
            == "resolve_java"@),
        p.stage is Active ==> (prepare_notice(p) matches Some((name, _)) && name == "cleanup"@),
        p.stage is Allocate ==> (prepare_notice(p) matches Some((name, _)) && name
            == "allocate_port"@),
        p.stage is Write ==> (prepare_notice(p) matches Some((name, detail)) && name
            == "write_config"@ && text::contains(detail, text::dec(p.port as nat))),
        p.stage is Attach ==> (prepare_notice(p) matches Some((name, detail)) && name == "attach"@
            && text::contains(detail, text::signed_dec(p.pid as int)) && text::contains(
            detail,
            p.java,
        )),
        p.stage is Readdress || p.stage is Probe ==> (prepare_notice(p) matches Some((name, _))
            && name == "probe"@),
{
    let c0 = "确保容器内 arthas 工具包（pod "@;
    let c1 = p.pod;
    let c2 = "）"@;
    let p0 = c0;
    let p1 = p0 + c1;
    let p2 = p1 + c2;
    let t1_2 = c1;
    text::lemma_part(p0, c1);
    text::lemma_part_kept(p1, t1_2, c2);
    let c0 = "写入 arthas.properties（httpPort="@;
    let c1 = text::dec(p.port as nat);
    let c2 = "，绑定 0.0.0.0）"@;
    let p0 = c0;
    let p1 = p0 + c1;
    let p2 = p1 + c2;
    let t1_2 = c1;
    text::lemma_part(p0, c1);
    text::lemma_part_kept(p1, t1_2, c2);
    let c0 = "attach arthas 到 PID "@;
    let c1 = text::signed_dec(p.pid as int);
    let c2 = "（java="@;
    let c3 = p.java;
    let c4 = "）"@;
    let p0 = c0;
    let p1 = p0 + c1;
    let p2 = p1 + c2;
    let p3 = p2 + c3;
    let p4 = p3 + c4;
    let t1_2 = c1;
    text::lemma_part(p0, c1);
    text::lemma_part_kept(p1, t1_2, c2);
    text::lemma_part_kept(p2, t1_2, c3);
    text::lemma_part_kept(p3, t1_2, c4);
    let t3_4 = c3;
    text::lemma_part(p2, c3);
    text::lemma_part_kept(p3, t3_4, c4);
}

/// Each stage of the connection to arthas in a pod is told of by its name: the tunnel, the handshake
/// through it, and the bridge with the reason for it where there is one.
pub proof fn law_connection_is_told(m: Mcp<Seq<char>>, e: Seq<char>)
    ensures
        m.stage is Build ==> (mcp_notice(m, 0) matches Some((name, detail)) && name == "tunnel"@
            && text::contains(detail, m.pod)),
        m.stage matches McpStage::Native { lease } ==> (mcp_notice(m, 0) matches Some(
            (name, detail),
        ) && name == "handshake"@ && text::contains(detail, vm::local_url(lease.local_port))),
        m.stage is TakeDown ==> (mcp_notice(m, 0) matches Some((name, _)) && name == "bridge"@),
        m.stage == (McpStage::<Seq<char>>::Bridge { reason: Some(e) }) ==> (mcp_notice(
            m,
            0,
        ) matches Some((name, detail)) && name == "bridge"@ && text::contains(detail, e)) && (
        mcp_notice(m, 1) matches Some((name, detail)) && name == "handshake"@ && text::contains(
            detail,
            vm::local_url(m.mcp_port),
        )),
        m.stage == (McpStage::<Seq<char>>::Bridge { reason: None }) ==> (mcp_notice(m, 0) matches
            Some((name, detail)) && name == "handshake"@ && text::contains(
            detail,
            vm::local_url(m.mcp_port),
        )),
{
    let c0 = "建立 MCP 通路（port-forward 隧道，pod "@;
    let c1 = m.pod;
    let c2 = "）"@;
    let p0 = c0;
    let p1 = p0 + c1;
    let p2 = p1 + c2;
    let t1_2 = c1;
    text::lemma_part(p0, c1);
    text::lemma_part_kept(p1, t1_2, c2);
    if let McpStage::Native { lease } = m.stage {
        let c0 = "MCP 握手（原生 HTTP 隧道 "@;
        let c1 = vm::local_url(lease.local_port);
        let c2 = "）"@;
        let p0 = c0;
        let p1 = p0 + c1;
        let p2 = p1 + c2;
        let t1_2 = c1;
        text::lemma_part(p0, c1);
        text::lemma_part_kept(p1, t1_2, c2);
    }
    let c0 = "隧道建立失败（"@;
    let c1 = e;
    let c2 = "），降级 exec HTTP 桥（容器内 curl）"@;
    let p0 = c0;
    let p1 = p0 + c1;
    let p2 = p1 + c2;
    let t1_2 = c1;
    text::lemma_part(p0, c1);
    text::lemma_part_kept(p1, t1_2, c2);
    let c0 = "MCP 握手（exec HTTP 桥 "@;
    let c1 = vm::local_url(m.mcp_port);
    let c2 = "）"@;
    let p0 = c0;
    let p1 = p0 + c1;
    let p2 = p1 + c2;
    let t1_2 = c1;
    text::lemma_part(p0, c1);
    text::lemma_part_kept(p1, t1_2, c2);
}

/// A stage that the user is told of is told of as soon as it is entered, and worked on after that.
pub proof fn law_entered_stage_is_told(
    p: Prepare<Seq<char>>,
    stage: PrepareStage<Seq<char>>,
    m: Mcp<Seq<char>>,
    way: McpStage<Seq<char>>,
    late: bool,
)
    ensures
        ({
            let q = prepare_goto(p, stage);
            prepare_notice(q) matches Some((name, detail)) ==> prepare_request(q) == (Action::<
                Seq<char>,
            >::Progress { tool: "arthas_open"@, stage: name, detail }) && prepare_request(
                prepare_after(q, Reply::Done { done: Ok(()), late }),
            ) == prepare_work(q)
        }),
        ({
            let n = mcp_goto(m, way);
            mcp_notice(n, 0) matches Some((name, detail)) ==> mcp_request(n) == (Action::<
                Seq<char>,
            >::Progress { tool: "arthas_open"@, stage: name, detail })
        }),
{
}

/// The order of a preparation up to its ports: the package, then a java, then the address of the pod,
/// which is asked for on the host; and behind the sweep the search for ports. What a step fails with
/// is what the preparation fails with.
pub proof fn law_preparation_goes_on(
    p: Prepare<Seq<char>>,
    package: PodEnsure<Seq<char>>,
    search: Java<Seq<char>>,
    swept: Sweep<Seq<char>>,
    java: Seq<char>,
    e: Seq<char>,
)
    ensures
        package.stage matches PodStage::Ended { result: Ok(_) } ==> prepare_package(p, package).stage
            == (PrepareStage::FindJava { flow: java::java_start(true, p.java_bin) }),
        package.stage matches PodStage::Ended { result: Err(error) } ==> (prepare_package(
            p,
            package,
        ).stage matches PrepareStage::Ended { result: Err(m) } && text::contains(m, error.message)),
        search.stage == (JavaStage::<Seq<char>>::Ended { result: Ok(java) }) ==> prepare_java(
            p,
            search,
        ).java == java && prepare_request(prepare_java(p, search)) == (Action::<Seq<char>>::Run {
            site: Site::Host,
            cmd: attach::pod_ip_query(p.pod),
            secs: Some(20u64),
        }),
        search.stage == (JavaStage::<Seq<char>>::Ended { result: Err(e) }) ==> prepare_java(
            p,
            search,
        ).stage == (PrepareStage::<Seq<char>>::Ended { result: Err(e) }),
        swept.stage matches SweepStage::Ended { result: Ok(_) } ==> prepare_clean(p, swept).stage
            is Allocate,
        swept.stage == (SweepStage::<Seq<char>>::Ended { result: Err(e) }) ==> prepare_clean(
            p,
            swept,
        ).stage == (PrepareStage::<Seq<char>>::Ended { result: Err(e) }),
{
    if let PodStage::Ended { result: Err(error) } = package.stage {
        vm::lemma_package_failed(error.message);
    }
}

/// The wait for arthas is told of once: a look that found nothing leads, behind the pause, to the same
/// look again.
pub proof fn law_wait_is_told_once(
    p: Prepare<Seq<char>>,
    ip: Seq<char>,
    out: Output<Seq<char>>,
    done: Result<(), Seq<char>>,
)
    requires
        p.stage == (PrepareStage::<Seq<char>>::Probe { ip }),
        p.told,
        !sweep::is_busy(out),
    ensures
        prepare_after(
            prepare_after(p, Reply::Ran { ran: Ok(out), late: false }),
            Reply::Done { done, late: false },
        ) == p,
{
}

} // verus!
