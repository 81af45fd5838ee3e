//! Attaching arthas to a JVM on a host.

use vstd::prelude::*;

use crate::arthas::attach;
use crate::arthas::attach::{ARTHAS_LOG_HINT, ARTHAS_PORT_CANDIDATES, ARTHAS_PORT_START};
use crate::arthas::java;
use crate::arthas::java::{Java, JavaStage};
use crate::arthas::sweep;
use crate::arthas::sweep::{Sweep, SweepStage};
use crate::arthas::temporary;
use crate::arthas::temporary::{Temp, TempStage};
use crate::flow;
use crate::flow::{Action, Output, Reply, Site};
use crate::ids;
use crate::provision::arthas as package;
use crate::provision::arthas::{ArthasPackage, HostEnsure, HostStage, ARTHAS_TOOL_NAME};
use crate::provision::package::StageTimeouts;
use crate::text;

verus! {

/// How long short commands may take, in seconds.
pub const SHORT_COMMAND_SECS: u64 = 15;

/// How long the search for free ports may take, in seconds.
pub const PORT_COMMAND_SECS: u64 = 20;

/// How long the attach command may take, in seconds.
pub const ATTACH_COMMAND_SECS: u64 = 30;

/// How long arthas may take to listen, in milliseconds.
pub const READY_BUDGET_MS: u64 = 60000;

/// How long to wait between two looks at its port, in milliseconds.
pub const READY_POLL_MS: u64 = 3000;

// ---------------------------------------------------------------------------------------------
// Messages
// ---------------------------------------------------------------------------------------------

/// The package could not be brought.
pub open spec fn package_failed(message: Seq<char>) -> Seq<char> {
    "arthas 工具包下发失败: "@ + message
}

/// The package could not be brought.
pub fn package_failed_text(message: &str) -> (r: String)
    ensures
        r@ == package_failed(message@),
{
    "arthas 工具包下发失败: ".to_owned().concat(message)
}

pub open spec fn users_failed(e: Seq<char>, stderr: Seq<char>) -> Seq<char> {
    "用户对齐检查失败: "@ + e + "; stderr: "@ + stderr
}

fn users_failed_text(e: &str, stderr: &str) -> (r: String)
    ensures
        r@ == users_failed(e@, stderr@),
{
    "用户对齐检查失败: ".to_owned().concat(e).concat("; stderr: ").concat(stderr)
}

pub open spec fn other_user(ssh_user: Seq<char>, jvm_user: Seq<char>) -> Seq<char> {
    "SSH 用户 "@ + ssh_user + " ≠ JVM 用户 "@ + jvm_user + "，使用 "@ + jvm_user + " 凭证临时连接"@
}

fn other_user_text(ssh_user: &str, jvm_user: &str) -> (r: String)
    ensures
        r@ == other_user(ssh_user@, jvm_user@),
{
    "SSH 用户 ".to_owned()
        .concat(ssh_user)
        .concat(" ≠ JVM 用户 ")
        .concat(jvm_user)
        .concat("，使用 ")
        .concat(jvm_user)
        .concat(" 凭证临时连接")
}

pub open spec fn no_credential(jvm_user: Seq<char>, ssh_user: Seq<char>) -> Seq<char> {
    "目标 JVM 运行用户为 "@ + jvm_user + "，当前 SSH 用户为 "@ + ssh_user + " 且未录入 "@ + jvm_user
        + " 的凭证。请让用户在环境管理中为该环境添加用户 "@ + jvm_user + " 的凭证后重试"@
}

fn no_credential_text(jvm_user: &str, ssh_user: &str) -> (r: String)
    ensures
        r@ == no_credential(jvm_user@, ssh_user@),
{
    "目标 JVM 运行用户为 ".to_owned()
        .concat(jvm_user)
        .concat("，当前 SSH 用户为 ")
        .concat(ssh_user)
        .concat(" 且未录入 ")
        .concat(jvm_user)
        .concat(" 的凭证。请让用户在环境管理中为该环境添加用户 ")
        .concat(jvm_user)
        .concat(" 的凭证后重试")
}

pub open spec fn writing(port: u16) -> Seq<char> {
    "写入 arthas.properties（httpPort="@ + text::dec(port as nat) + "）"@
}

fn writing_text(port: u16) -> (r: String)
    ensures
        r@ == writing(port),
{
    "写入 arthas.properties（httpPort=".to_owned()
        .concat(text::u64_text(port as u64).as_str())
        .concat("）")
}

/// The configuration could not be written.
pub open spec fn write_failed(code: i32, stderr: Seq<char>) -> Seq<char> {
    "写入 arthas.properties 失败（exit "@ + text::signed_dec(code as int) + "）: "@ + stderr
}

/// The configuration could not be written.
pub fn write_failed_text(code: i32, stderr: &str) -> (r: String)
    ensures
        r@ == write_failed(code, stderr@),
{
    "写入 arthas.properties 失败（exit ".to_owned()
        .concat(text::i64_text(code as i64).as_str())
        .concat("）: ")
        .concat(stderr)
}

/// The attach begins.
pub open spec fn attaching(pid: i64, java: Seq<char>) -> Seq<char> {
    "attach arthas 到 PID "@ + text::signed_dec(pid as int) + "（java="@ + java + "）"@
}

/// The attach begins.
pub fn attaching_text(pid: i64, java: &str) -> (r: String)
    ensures
        r@ == attaching(pid, java@),
{
    "attach arthas 到 PID ".to_owned()
        .concat(text::i64_text(pid).as_str())
        .concat("（java=")
        .concat(java)
        .concat("）")
}

/// The attach command failed.
pub open spec fn attach_failed(code: i32, stderr: Seq<char>) -> Seq<char> {
    "arthas attach 命令失败（exit "@ + text::signed_dec(code as int) + "）: "@ + stderr
}

/// The attach command failed.
pub fn attach_failed_text(code: i32, stderr: &str) -> (r: String)
    ensures
        r@ == attach_failed(code, stderr@),
{
    "arthas attach 命令失败（exit ".to_owned()
        .concat(text::i64_text(code as i64).as_str())
        .concat("）: ")
        .concat(stderr)
}

pub open spec fn probe_lost(e: Seq<char>) -> Seq<char> {
    "arthas 探活失败: "@ + e
}

fn probe_lost_text(e: &str) -> (r: String)
    ensures
        r@ == probe_lost(e@),
{
    "arthas 探活失败: ".to_owned().concat(e)
}

pub open spec fn not_ready(port: u16) -> Seq<char> {
    "arthas HTTP 服务在 60s 内未就绪（端口 "@ + text::dec(port as nat)
        + "）。可能原因：attach 失败（用户权限/attach 机制被禁用）、目标 JVM 拒绝 attach。可用 run_command 查看 "@
        + ARTHAS_LOG_HINT@ + " 日志"@
}

fn not_ready_text(port: u16) -> (r: String)
    ensures
        r@ == not_ready(port),
{
    "arthas HTTP 服务在 60s 内未就绪（端口 ".to_owned()
        .concat(text::u64_text(port as u64).as_str())
        .concat("）。可能原因：attach 失败（用户权限/attach 机制被禁用）、目标 JVM 拒绝 attach。可用 run_command 查看 ")
        .concat(ARTHAS_LOG_HINT)
        .concat(" 日志")
}

/// The address of arthas behind a local port.
pub open spec fn local_url(port: u16) -> Seq<char> {
    "http://127.0.0.1:"@ + text::dec(port as nat) + "/mcp"@
}

/// The address of arthas behind a local port.
pub fn local_url_text(port: u16) -> (r: String)
    ensures
        r@ == local_url(port),
{
    "http://127.0.0.1:".to_owned().concat(text::u64_text(port as u64).as_str()).concat("/mcp")
}

pub open spec fn shaking_hands(port: u16) -> Seq<char> {
    "MCP 握手（"@ + local_url(port) + "）"@
}

fn shaking_hands_text(port: u16) -> (r: String)
    ensures
        r@ == shaking_hands(port),
{
    "MCP 握手（".to_owned().concat(local_url_text(port).as_str()).concat("）")
}

/// The client could not connect.
pub open spec fn handshake_failed(e: Seq<char>) -> Seq<char> {
    "arthas MCP 握手失败: "@ + e
}

/// The client could not connect.
pub fn handshake_failed_text(e: &str) -> (r: String)
    ensures
        r@ == handshake_failed(e@),
{
    "arthas MCP 握手失败: ".to_owned().concat(e)
}

pub open spec fn ready(port: u16) -> Seq<char> {
    "arthas 就绪（远端端口 "@ + text::dec(port as nat) + "，exec HTTP 桥）"@
}

fn ready_text(port: u16) -> (r: String)
    ensures
        r@ == ready(port),
{
    "arthas 就绪（远端端口 ".to_owned()
        .concat(text::u64_text(port as u64).as_str())
        .concat("，exec HTTP 桥）")
}

// ---------------------------------------------------------------------------------------------
// The flow
// ---------------------------------------------------------------------------------------------

/// Where an attach stands.
#[derive(Debug, PartialEq, Eq)]
pub enum VmStage<S> {
    /// Where are tools served from?
    Settings,
    /// Bring the package.
    Package { flow: HostEnsure<S> },
    /// Find a java program.
    FindJava { flow: Java<S> },
    /// Who runs the JVM, and who are we?
    Users,
    /// Is there a credential of the user that runs the JVM?
    Credential { jvm_user: S, ssh_user: S },
    /// Connect as that user.
    Login { flow: Temp<S> },
    /// Which ports are in use?
    Active,
    /// Stop what was left behind.
    Clean { flow: Sweep<S> },
    /// Find two free ports.
    Allocate,
    /// Write the configuration.
    Write,
    /// Attach.
    Attach,
    /// Drop the connection as that user.
    Release,
    /// Does arthas listen?
    Probe,
    /// Wait before the next look.
    Rest,
    /// Connect the client.
    Handshake,
    /// Stop what may have been attached, then fail.
    Undo { error: S },
    /// Drop the connection as that user, then fail.
    Abandon { error: S },
    /// It is over: the port of arthas, or why there is none.
    Ended { result: Result<u16, S> },
}

/// An attach to a JVM on a host.
#[derive(Debug, PartialEq, Eq)]
pub struct VmAttach<S> {
    pub pid: i64,
    pub java_bin: S,
    /// The archive of the package, where there is one.
    pub zip: Option<S>,
    pub timeouts: StageTimeouts,
    /// The password of arthas.
    pub token: S,
    /// Where the package lies, once it is known.
    pub home: S,
    /// The java program, once it is known.
    pub java: S,
    /// Whether a connection of its own is open for the attach command.
    pub temporary: bool,
    /// The port for HTTP, once it is known.
    pub port: u16,
    /// The port for the telnet check, once it is known.
    pub telnet: u16,
    /// How many notices of the stage were given.
    pub told: u8,
    pub stage: VmStage<S>,
}

impl View for VmStage<String> {
    type V = VmStage<Seq<char>>;

    open spec fn view(&self) -> VmStage<Seq<char>> {
        match *self {
            VmStage::Settings => VmStage::Settings,
            VmStage::Package { flow } => VmStage::Package { flow: flow@ },
            VmStage::FindJava { flow } => VmStage::FindJava { flow: flow@ },
            VmStage::Users => VmStage::Users,
            VmStage::Credential { jvm_user, ssh_user } => VmStage::Credential {
                jvm_user: jvm_user@,
                ssh_user: ssh_user@,
            },
            VmStage::Login { flow } => VmStage::Login { flow: flow@ },
            VmStage::Active => VmStage::Active,
            VmStage::Clean { flow } => VmStage::Clean { flow: flow@ },
            VmStage::Allocate => VmStage::Allocate,
            VmStage::Write => VmStage::Write,
            VmStage::Attach => VmStage::Attach,
            VmStage::Release => VmStage::Release,
            VmStage::Probe => VmStage::Probe,
            VmStage::Rest => VmStage::Rest,
            VmStage::Handshake => VmStage::Handshake,
            VmStage::Undo { error } => VmStage::Undo { error: error@ },
            VmStage::Abandon { error } => VmStage::Abandon { error: error@ },
            VmStage::Ended { result } => VmStage::Ended { result: flow::view_port(result) },
        }
    }
}

impl View for VmAttach<String> {
    type V = VmAttach<Seq<char>>;

    open spec fn view(&self) -> VmAttach<Seq<char>> {
        VmAttach {
            pid: self.pid,
            java_bin: self.java_bin@,
            zip: text::opt(self.zip),
            timeouts: self.timeouts,
            token: self.token@,
            home: self.home@,
            java: self.java@,
            temporary: self.temporary,
            port: self.port,
            telnet: self.telnet,
            told: self.told,
            stage: self.stage@,
        }
    }
}

/// An attach before its first step.
pub open spec fn vm_start(
    pid: i64,
    java_bin: Seq<char>,
    zip: Option<Seq<char>>,
    timeouts: StageTimeouts,
    token: Seq<char>,
) -> VmAttach<Seq<char>> {
    VmAttach {
        pid,
        java_bin,
        zip,
        timeouts,
        token,
        home: Seq::empty(),
        java: Seq::empty(),
        temporary: false,
        port: 0,
        telnet: 0,
        told: 0,
        stage: VmStage::Settings,
    }
}

/// The notices that a stage begins with, by their number: the name of the stage and a detail.
pub open spec fn vm_notice(v: VmAttach<Seq<char>>, k: u8) -> Option<(Seq<char>, Seq<char>)> {
    match v.stage {
        VmStage::Settings => if k == 0 {
            Some(("ensure_package"@, "确保 arthas 工具包"@))
        } else {
            None
        },
        VmStage::Users => if k == 0 {
            Some(("check_user"@, "检查目标 JVM 运行用户"@))
        } else {
            None
        },
        VmStage::Credential { jvm_user, ssh_user } => if k == 0 {
            Some(("check_user"@, other_user(ssh_user, jvm_user)))
        } else {
            None
        },
        VmStage::Active => if k == 0 {
            Some(("cleanup"@, "清理残留 arthas 实例"@))
        } else {
            None
        },
        VmStage::Allocate => if k == 0 {
            Some(("allocate_port"@, "分配 arthas 端口"@))
        } else {
            None
        },
        VmStage::Write => if k == 0 {
            Some(("write_config"@, writing(v.port)))
        } else {
            None
        },
        VmStage::Attach => if k == 0 {
            Some(("attach"@, attaching(v.pid, v.java)))
        } else {
            None
        },
        VmStage::Probe => if k == 0 {
            Some(("probe"@, "等待 arthas HTTP 服务就绪"@))
        } else {
            None
        },
        VmStage::Handshake => if k == 0 {
            Some(("bridge"@, "建立 MCP 通路（exec HTTP 桥）"@))
        } else if k == 1 {
            Some(("handshake"@, shaking_hands(v.port)))
        } else {
            None
        },
        VmStage::Ended { result: Ok(port) } => if k == 0 {
            Some(("ready"@, ready(port)))
        } else {
            None
        },
        _ => None,
    }
}

/// A command on the host with a time limit.
pub open spec fn host_run(cmd: Seq<char>, secs: u64) -> Action<Seq<char>> {
    Action::Run { site: Site::Host, cmd, secs: Some(secs) }
}

/// Where the attach command runs.
pub open spec fn attach_site(v: VmAttach<Seq<char>>) -> Site {
    if v.temporary {
        Site::Temporary
    } else {
        Site::Host
    }
}

/// The command that looks for free ports.
pub open spec fn port_search() -> Seq<char> {
    attach::free_port_search(ARTHAS_PORT_START, ARTHAS_PORT_CANDIDATES)
}

/// The command that writes the configuration.
pub open spec fn write_command(v: VmAttach<Seq<char>>) -> Seq<char> {
    attach::write_properties(v.home, attach::properties(v.port, v.token, "127.0.0.1"@))
}

/// The attach command.
pub open spec fn attach_text(v: VmAttach<Seq<char>>) -> Seq<char> {
    attach::attach(v.java, v.home, v.port, v.telnet, v.pid)
}

/// The work of a stage.
pub open spec fn vm_work(v: VmAttach<Seq<char>>) -> Action<Seq<char>> {
    match v.stage {
        VmStage::Settings => Action::BaseUrl,
        VmStage::Package { flow } => Action::Provision { task: package::host_request(flow) },
        VmStage::FindJava { flow } => java::java_request(flow),
        VmStage::Users => host_run(attach::user_check(v.pid), SHORT_COMMAND_SECS),
        VmStage::Credential { jvm_user, ssh_user } => Action::FindCredential {
            username: jvm_user,
        },
        VmStage::Login { flow } => temporary::temp_request(flow),
        VmStage::Active => Action::ActivePorts,
        VmStage::Clean { flow } => sweep::sweep_request(flow),
        VmStage::Allocate => host_run(port_search(), PORT_COMMAND_SECS),
        VmStage::Write => host_run(write_command(v), SHORT_COMMAND_SECS),
        VmStage::Attach => Action::Run {
            site: attach_site(v),
            cmd: attach_text(v),
            secs: Some(ATTACH_COMMAND_SECS),
        },
        VmStage::Release => Action::DropTemporary,
        VmStage::Probe => host_run(attach::port_probe(v.port), SHORT_COMMAND_SECS),
        VmStage::Rest => Action::Pause { millis: READY_POLL_MS },
        VmStage::Handshake => Action::ConnectBridge { url: local_url(v.port) },
        VmStage::Undo { error } => host_run(attach::stop(v.port, v.token), SHORT_COMMAND_SECS),
        VmStage::Abandon { error } => Action::DropTemporary,
        VmStage::Ended { result } => Action::Finished,
    }
}

/// What an attach asks for where it stands: the notices of the stage, then its work.
pub open spec fn vm_request(v: VmAttach<Seq<char>>) -> Action<Seq<char>> {
    match vm_notice(v, v.told) {
        Some((stage, detail)) => Action::Progress { tool: ARTHAS_TOOL_NAME@, stage, detail },
        None => vm_work(v),
    }
}

/// How long, in milliseconds, the wait that the stage belongs to may take.
pub open spec fn vm_budget(v: VmAttach<Seq<char>>) -> Option<u64> {
    match v.stage {
        VmStage::Clean { flow } => sweep::sweep_budget(flow),
        VmStage::Probe => if v.told == 0 {
            None
        } else {
            Some(READY_BUDGET_MS)
        },
        VmStage::Rest => Some(READY_BUDGET_MS),
        _ => None,
    }
}

/// An attach that enters a stage.
pub open spec fn vm_goto(v: VmAttach<Seq<char>>, stage: VmStage<Seq<char>>) -> VmAttach<Seq<char>> {
    VmAttach { told: 0, stage, ..v }
}

/// An attach that ends in an error: where it has a connection of its own, that is dropped first.
pub open spec fn vm_fail(v: VmAttach<Seq<char>>, error: Seq<char>) -> VmAttach<Seq<char>> {
    if v.temporary {
        vm_goto(v, VmStage::Abandon { error })
    } else {
        vm_goto(v, VmStage::Ended { result: Err(error) })
    }
}

/// Where a step of the package leads.
pub open spec fn vm_package(v: VmAttach<Seq<char>>, flow: HostEnsure<Seq<char>>) -> VmAttach<
    Seq<char>,
> {
    match flow.stage {
        HostStage::Ended { result: Ok(r) } => vm_goto(
            VmAttach { home: r.tool_home, ..v },
            VmStage::FindJava { flow: java::java_start(false, v.java_bin) },
        ),
        HostStage::Ended { result: Err(e) } => vm_fail(v, package_failed(e.message)),
        _ => vm_goto(v, VmStage::Package { flow }),
    }
}

/// Where a step of the search for java leads.
pub open spec fn vm_java(v: VmAttach<Seq<char>>, flow: Java<Seq<char>>) -> VmAttach<Seq<char>> {
    match flow.stage {
        JavaStage::Ended { result: Ok(java) } => vm_goto(
            VmAttach { java, ..v },
            VmStage::Users,
        ),
        JavaStage::Ended { result: Err(e) } => vm_fail(v, e),
        _ => vm_goto(v, VmStage::FindJava { flow }),
    }
}

/// Where the check of the users leads.
pub open spec fn vm_users(
    v: VmAttach<Seq<char>>,
    result: Result<Output<Seq<char>>, Seq<char>>,
) -> VmAttach<Seq<char>> {
    match result {
        Err(e) => vm_fail(v, e),
        Ok(out) => match attach::users(out.stdout) {
            Err(e) => vm_fail(v, users_failed(e, out.stderr)),
            Ok((jvm_user, ssh_user)) => if jvm_user == ssh_user || ssh_user == "root"@ {
                vm_goto(v, VmStage::Active)
            } else {
                vm_goto(v, VmStage::Credential { jvm_user, ssh_user })
            },
        },
    }
}

/// Where a step of the login leads.
pub open spec fn vm_login(v: VmAttach<Seq<char>>, flow: Temp<Seq<char>>) -> VmAttach<Seq<char>> {
    match flow.stage {
        TempStage::Ended { result: Ok(_) } => vm_goto(
            VmAttach { temporary: true, ..v },
            VmStage::Active,
        ),
        TempStage::Ended { result: Err(e) } => vm_fail(v, e),
        _ => vm_goto(v, VmStage::Login { flow }),
    }
}

/// Where a step of the sweep leads.
pub open spec fn vm_clean(v: VmAttach<Seq<char>>, flow: Sweep<Seq<char>>) -> VmAttach<Seq<char>> {
    match flow.stage {
        SweepStage::Ended { result: Ok(_) } => vm_goto(v, VmStage::Allocate),
        SweepStage::Ended { result: Err(e) } => vm_fail(v, e),
        _ => vm_goto(v, VmStage::Clean { flow }),
    }
}

/// Where the search for ports leads.
pub open spec fn vm_allocate(
    v: VmAttach<Seq<char>>,
    result: Result<Output<Seq<char>>, Seq<char>>,
) -> VmAttach<Seq<char>> {
    match result {
        Err(e) => vm_fail(v, e),
        Ok(out) => match attach::free_ports(out.stdout) {
            Err(e) => vm_fail(v, e),
            Ok((port, telnet)) => vm_goto(
                VmAttach { port: port as u16, telnet: telnet as u16, ..v },
                VmStage::Write,
            ),
        },
    }
}

/// Where a look at the port of arthas leads.
pub open spec fn vm_probe(
    v: VmAttach<Seq<char>>,
    result: Result<Output<Seq<char>>, Seq<char>>,
    late: bool,
) -> VmAttach<Seq<char>> {
    match result {
        Err(e) => vm_goto(v, VmStage::Undo { error: probe_lost(e) }),
        Ok(out) => if sweep::is_busy(out) {
            vm_goto(v, VmStage::Handshake)
        } else if late {
            vm_goto(v, VmStage::Undo { error: not_ready(v.port) })
        } else {
            vm_goto(v, VmStage::Rest)
        },
    }
}

/// Where the work of a stage leads. `None` where the reply does not answer it.
pub open spec fn vm_next(v: VmAttach<Seq<char>>, reply: Reply<Seq<char>>) -> Option<
    VmAttach<Seq<char>>,
> {
    match v.stage {
        VmStage::Settings => match reply {
            Reply::Text { text } => match java::settings_of(text) {
                Ok(_) => Some(
                    vm_goto(v, VmStage::Package { flow: package::host_start(v.zip, v.timeouts) }),
                ),
                Err(e) => Some(vm_fail(v, e)),
            },
            _ => None,
        },
        VmStage::Package { flow } => match reply {
            Reply::Answered { answer } => Some(
                vm_package(v, package::host_after(flow, answer)),
            ),
            _ => None,
        },
        VmStage::FindJava { flow } => Some(vm_java(v, java::java_after(flow, reply))),
        VmStage::Users => match flow::limited(
            reply,
            attach::user_check(v.pid),
            SHORT_COMMAND_SECS,
        ) {
            Some(result) => Some(vm_users(v, result)),
            None => None,
        },
        VmStage::Credential { jvm_user, ssh_user } => match reply {
            Reply::Maybe { maybe: Some(credential) } => Some(
                vm_goto(v, VmStage::Login { flow: temporary::temp_start(jvm_user, credential) }),
            ),
            Reply::Maybe { maybe: None } => Some(vm_fail(v, no_credential(jvm_user, ssh_user))),
            _ => None,
        },
        VmStage::Login { flow } => Some(vm_login(v, temporary::temp_after(flow, reply))),
        VmStage::Active => match reply {
            Reply::Ports { ports } => Some(
                vm_clean(
                    v,
                    sweep::sweep_start(
                        sweep::Prober::Local { site: Site::Host },
                        Site::Host,
                        ports,
                        sweep::SWEEP_WAIT_MS,
                        sweep::SWEEP_POLL_MS,
                    ),
                ),
            ),
            _ => None,
        },
        VmStage::Clean { flow } => Some(vm_clean(v, sweep::sweep_after(flow, reply))),
        VmStage::Allocate => match flow::limited(reply, port_search(), PORT_COMMAND_SECS) {
            Some(result) => Some(vm_allocate(v, result)),
            None => None,
        },
        VmStage::Write => match flow::limited(reply, write_command(v), SHORT_COMMAND_SECS) {
            Some(Err(e)) => Some(vm_fail(v, e)),
            Some(Ok(out)) => if out.exit_code == 0 {
                Some(vm_goto(v, VmStage::Attach))
            } else {
                Some(vm_fail(v, write_failed(out.exit_code, out.stderr)))
            },
            None => None,
        },
        VmStage::Attach => match flow::limited(reply, attach_text(v), ATTACH_COMMAND_SECS) {
            Some(Err(e)) => Some(vm_fail(v, e)),
            Some(Ok(out)) => if out.exit_code != 0 {
                Some(vm_fail(v, attach_failed(out.exit_code, out.stderr)))
            } else if v.temporary {
                Some(vm_goto(v, VmStage::Release))
            } else {
                Some(vm_goto(v, VmStage::Probe))
            },
            None => None,
        },
        VmStage::Release => match reply {
            Reply::Done { done, late } => Some(
                vm_goto(VmAttach { temporary: false, ..v }, VmStage::Probe),
            ),
            _ => None,
        },
        VmStage::Probe => match flow::limited(
            reply,
            attach::port_probe(v.port),
            SHORT_COMMAND_SECS,
        ) {
            Some(result) => Some(vm_probe(v, result, flow::is_late(reply))),
            None => None,
        },
        VmStage::Rest => match reply {
            Reply::Done { done, late } => Some(
                VmAttach { told: 1, stage: VmStage::Probe, ..v },
            ),
            _ => None,
        },
        VmStage::Handshake => match reply {
            Reply::Done { done: Ok(_), late } => Some(
                vm_goto(v, VmStage::Ended { result: Ok(v.port) }),
            ),
            Reply::Done { done: Err(e), late } => Some(
                vm_goto(v, VmStage::Undo { error: handshake_failed(e) }),
            ),
            _ => None,
        },
        VmStage::Undo { error } => match flow::limited(
            reply,
            attach::stop(v.port, v.token),
            SHORT_COMMAND_SECS,
        ) {
            Some(_) => Some(vm_fail(v, error)),
            None => None,
        },
        VmStage::Abandon { error } => match reply {
            Reply::Done { done, late } => Some(vm_fail(VmAttach { temporary: false, ..v }, error)),
            _ => None,
        },
        VmStage::Ended { result } => None,
    }
}

/// An attach after a reply. A reply to a notice is that it was given.
pub open spec fn vm_after(v: VmAttach<Seq<char>>, reply: Reply<Seq<char>>) -> VmAttach<Seq<char>> {
    if vm_notice(v, v.told) is Some {
        if reply is Done {
            VmAttach { told: (v.told + 1) as u8, ..v }
        } else {
            v
        }
    } else {
        match vm_next(v, reply) {
            Some(next) => next,
            None => v,
        }
    }
}

fn run_on_host(cmd: String, secs: u64) -> (r: Action<String>)
    ensures
        r@ == host_run(cmd@, secs),
{
    Action::Run { site: Site::Host, cmd, secs: Some(secs) }
}

fn port_search_text() -> (r: String)
    ensures
        r@ == port_search(),
{
    attach::find_free_port_command(ARTHAS_PORT_START, ARTHAS_PORT_CANDIDATES)
}

/// Begins to attach arthas to a JVM on a host, behind a fresh password.
pub fn attach_arthas_on_vm(
    pid: i64,
    java_bin: &str,
    zip: Option<&str>,
    timeouts: StageTimeouts,
) -> (r: VmAttach<String>)
    ensures
        exists|token: Seq<char>| #[trigger]
            ids::is_token(token) && r@ == vm_start(
                pid,
                java_bin@,
                text::opt_str(zip),
                timeouts,
                token,
            ),
{
    let token: String = ids::generate_token();
    attach_on_vm_with(pid, java_bin, zip, timeouts, token.as_str())
}

/// Begins to attach arthas to a JVM on a host, behind a given password.
pub fn attach_on_vm_with(
    pid: i64,
    java_bin: &str,
    zip: Option<&str>,
    timeouts: StageTimeouts,
    token: &str,
) -> (r: VmAttach<String>)
    ensures
        r@ == vm_start(pid, java_bin@, text::opt_str(zip), timeouts, token@),
{
    VmAttach {
        pid,
        java_bin: java_bin.to_owned(),
        zip: text::own_opt(zip),
        timeouts,
        token: token.to_owned(),
        home: String::new(),
        java: String::new(),
        temporary: false,
        port: 0,
        telnet: 0,
        told: 0,
        stage: VmStage::Settings,
    }
}

impl VmAttach<String> {
    fn notice(&self, k: u8) -> (r: Option<(&'static str, String)>)
        ensures
            (match r {
                Some((s, d)) => Some((s@, d@)),
                None => None,
            }) == vm_notice(self@, k),
    {
        if k == 1 {
            return match &self.stage {
                VmStage::Handshake => Some(("handshake", shaking_hands_text(self.port))),
                _ => None,
            };
        }
        if k != 0 {
            return None;
        }
        match &self.stage {
            VmStage::Settings => Some(("ensure_package", "确保 arthas 工具包".to_owned())),
            VmStage::Users => Some(("check_user", "检查目标 JVM 运行用户".to_owned())),
            VmStage::Credential { jvm_user, ssh_user } => Some(
                ("check_user", other_user_text(ssh_user.as_str(), jvm_user.as_str())),
            ),
            VmStage::Active => Some(("cleanup", "清理残留 arthas 实例".to_owned())),
            VmStage::Allocate => Some(("allocate_port", "分配 arthas 端口".to_owned())),
            VmStage::Write => Some(("write_config", writing_text(self.port))),
            VmStage::Attach => Some(("attach", attaching_text(self.pid, self.java.as_str()))),
            VmStage::Probe => Some(("probe", "等待 arthas HTTP 服务就绪".to_owned())),
            VmStage::Handshake => Some(("bridge", "建立 MCP 通路（exec HTTP 桥）".to_owned())),
            VmStage::Ended { result: Ok(port) } => Some(("ready", ready_text(*port))),
            _ => None,
        }
    }

    fn write_text(&self) -> (r: String)
        ensures
            r@ == write_command(self@),
    {
        attach::write_properties_command(
            self.home.as_str(),
            attach::arthas_properties_content(self.port, self.token.as_str()).as_str(),
        )
    }

    fn attach_cmd(&self) -> (r: String)
        ensures
            r@ == attach_text(self@),
    {
        attach::attach_command(
            self.java.as_str(),
            self.home.as_str(),
            self.port,
            self.telnet,
            self.pid,
        )
    }

    fn work(&self) -> (r: Action<String>)
        ensures
            r@ == vm_work(self@),
    {
        match &self.stage {
            VmStage::Settings => Action::BaseUrl,
            VmStage::Package { flow } => Action::Provision { task: flow.request() },
            VmStage::FindJava { flow } => flow.request(),
            VmStage::Users => run_on_host(
                attach::check_user_command(self.pid),
                SHORT_COMMAND_SECS,
            ),
            VmStage::Credential { jvm_user, ssh_user: _ } => Action::FindCredential {
                username: jvm_user.clone(),
            },
            VmStage::Login { flow } => flow.request(),
            VmStage::Active => Action::ActivePorts,
            VmStage::Clean { flow } => flow.request(),
            VmStage::Allocate => run_on_host(port_search_text(), PORT_COMMAND_SECS),
            VmStage::Write => run_on_host(self.write_text(), SHORT_COMMAND_SECS),
            VmStage::Attach => Action::Run {
                site: if self.temporary {
                    Site::Temporary
                } else {
                    Site::Host
                },
                cmd: self.attach_cmd(),
                secs: Some(ATTACH_COMMAND_SECS),
            },
            VmStage::Release => Action::DropTemporary,
            VmStage::Probe => run_on_host(
                attach::port_probe_command(self.port),
                SHORT_COMMAND_SECS,
            ),
            VmStage::Rest => Action::Pause { millis: READY_POLL_MS },
            VmStage::Handshake => Action::ConnectBridge { url: local_url_text(self.port) },
            VmStage::Undo { error: _ } => run_on_host(
                attach::stop_command(self.port, self.token.as_str()),
                SHORT_COMMAND_SECS,
            ),
            VmStage::Abandon { error: _ } => Action::DropTemporary,
            VmStage::Ended { result: _ } => Action::Finished,
        }
    }

    /// What is asked for.
    pub fn request(&self) -> (r: Action<String>)
        ensures
            r@ == vm_request(self@),
    {
        match self.notice(self.told) {
            Some((stage, detail)) => Action::Progress {
                tool: ARTHAS_TOOL_NAME.to_owned(),
                stage: stage.to_owned(),
                detail,
            },
            None => self.work(),
        }
    }

    /// How long, in milliseconds, the wait that the stage belongs to may take.
    pub fn budget(&self) -> (r: Option<u64>)
        ensures
            r == vm_budget(self@),
    {
        match &self.stage {
            VmStage::Clean { flow } => flow.budget(),
            VmStage::Probe => if self.told == 0 {
                None
            } else {
                Some(READY_BUDGET_MS)
            },
            VmStage::Rest => Some(READY_BUDGET_MS),
            _ => None,
        }
    }

    fn goto(self, stage: VmStage<String>) -> (r: Self)
        ensures
            r@ == vm_goto(self@, stage@),
    {
        VmAttach { told: 0, stage, ..self }
    }

    fn fail(self, error: String) -> (r: Self)
        ensures
            r@ == vm_fail(self@, error@),
    {
        if self.temporary {
            self.goto(VmStage::Abandon { error })
        } else {
            self.goto(VmStage::Ended { result: Err(error) })
        }
    }

    fn on_package(self, flow: HostEnsure<String>) -> (r: Self)
        ensures
            r@ == vm_package(self@, flow@),
    {
        match flow.stage {
            HostStage::Ended { result: Ok(done) } => {
                let search: Java<String> = java::resolve_attach_java(
                    false,
                    self.java_bin.as_str(),
                );
                VmAttach { home: done.tool_home, ..self }.goto(VmStage::FindJava { flow: search })
            },
            HostStage::Ended { result: Err(e) } => self.fail(
                package_failed_text(e.message.as_str()),
            ),
            stage => self.goto(VmStage::Package { flow: HostEnsure { stage, ..flow } }),
        }
    }

    fn on_java(self, flow: Java<String>) -> (r: Self)
        ensures
            r@ == vm_java(self@, flow@),
    {
        match flow.stage {
            JavaStage::Ended { result: Ok(java) } => VmAttach { java, ..self }.goto(
                VmStage::Users,
            ),
            JavaStage::Ended { result: Err(e) } => self.fail(e),
            stage => self.goto(VmStage::FindJava { flow: Java { stage, ..flow } }),
        }
    }

    fn on_users(self, result: Result<Output<String>, String>) -> (r: Self)
        ensures
            r@ == vm_users(self@, flow::view_result(result)),
    {
        match result {
            Err(e) => self.fail(e),
            Ok(out) => match attach::parse_user_check(out.stdout.as_str()) {
                Err(e) => self.fail(users_failed_text(e.as_str(), out.stderr.as_str())),
                Ok((jvm_user, ssh_user)) => if text::same(jvm_user.as_str(), ssh_user.as_str())
                    || text::same(ssh_user.as_str(), "root") {
                    self.goto(VmStage::Active)
                } else {
                    self.goto(VmStage::Credential { jvm_user, ssh_user })
                },
            },
        }
    }

    fn on_login(self, flow: Temp<String>) -> (r: Self)
        ensures
            r@ == vm_login(self@, flow@),
    {
        match flow.stage {
            TempStage::Ended { result: Ok(_) } => VmAttach { temporary: true, ..self }.goto(
                VmStage::Active,
            ),
            TempStage::Ended { result: Err(e) } => self.fail(e),
            stage => self.goto(VmStage::Login { flow: Temp { stage, ..flow } }),
        }
    }

    fn on_clean(self, flow: Sweep<String>) -> (r: Self)
        ensures
            r@ == vm_clean(self@, flow@),
    {
        match flow.stage {
            SweepStage::Ended { result: Ok(_) } => self.goto(VmStage::Allocate),
            SweepStage::Ended { result: Err(e) } => self.fail(e),
            stage => self.goto(VmStage::Clean { flow: Sweep { stage, ..flow } }),
        }
    }

    fn on_allocate(self, result: Result<Output<String>, String>) -> (r: Self)
        ensures
            r@ == vm_allocate(self@, flow::view_result(result)),
    {
        match result {
            Err(e) => self.fail(e),
            Ok(out) => match attach::parse_free_port(out.stdout.as_str()) {
                Err(e) => self.fail(e),
                Ok((port, telnet)) => VmAttach { port, telnet, ..self }.goto(VmStage::Write),
            },
        }
    }

    fn on_probe(self, result: Result<Output<String>, String>, late: bool) -> (r: Self)
        ensures
            r@ == vm_probe(self@, flow::view_result(result), late),
    {
        match result {
            Err(e) => self.goto(VmStage::Undo { error: probe_lost_text(e.as_str()) }),
            Ok(out) => if sweep::busy(&out) {
                self.goto(VmStage::Handshake)
            } else if late {
                let error: String = not_ready_text(self.port);
                self.goto(VmStage::Undo { error })
            } else {
                self.goto(VmStage::Rest)
            },
        }
    }

    /// Takes the reply to what was asked for.
    pub fn step(self, reply: Reply<String>) -> (r: Self)
        ensures
            r@ == vm_after(self@, reply@),
    {
        if self.notice(self.told).is_some() {
            return match reply {
                Reply::Done { done: _, late: _ } => VmAttach { told: self.told + 1, ..self },
                _ => self,
            };
        }
        let late: bool = flow::late_reply(&reply);
        let write: String = self.write_text();
        let attach: String = self.attach_cmd();
        let stage: VmStage<String> = self.stage;
        let me: VmAttach<String> = VmAttach { stage: VmStage::Settings, ..self };
        match stage {
            VmStage::Settings => match reply {
                Reply::Text { text } => match java::check_settings(text) {
                    Ok(_) => {
                        let flow: HostEnsure<String> = ArthasPackage.ensure(
                            text::as_str_opt(&me.zip),
                            me.timeouts,
                        );
                        me.goto(VmStage::Package { flow })
                    },
                    Err(e) => me.fail(e),
                },
                _ => VmAttach { stage: VmStage::Settings, ..me },
            },
            VmStage::Package { flow } => match reply {
                Reply::Answered { answer } => {
                    let mut f: HostEnsure<String> = flow;
                    f.step(answer);
                    me.on_package(f)
                },
                _ => VmAttach { stage: VmStage::Package { flow }, ..me },
            },
            VmStage::FindJava { flow } => {
                let mut f: Java<String> = flow;
                f.step(reply);
                me.on_java(f)
            },
            VmStage::Users => match flow::take_limited(
                reply,
                attach::check_user_command(me.pid).as_str(),
                SHORT_COMMAND_SECS,
            ) {
                Some(result) => me.on_users(result),
                None => VmAttach { stage: VmStage::Users, ..me },
            },
            VmStage::Credential { jvm_user, ssh_user } => match reply {
                Reply::Maybe { maybe: Some(credential) } => me.goto(
                    VmStage::Login {
                        flow: temporary::build_temp_transport(
                            jvm_user.as_str(),
                            credential.as_str(),
                        ),
                    },
                ),
                Reply::Maybe { maybe: None } => me.fail(
                    no_credential_text(jvm_user.as_str(), ssh_user.as_str()),
                ),
                _ => VmAttach { stage: VmStage::Credential { jvm_user, ssh_user }, ..me },
            },
            VmStage::Login { flow } => {
                let mut f: Temp<String> = flow;
                f.step(reply);
                me.on_login(f)
            },
            VmStage::Active => match reply {
                Reply::Ports { ports } => me.on_clean(
                    sweep::cleanup_stale_instances(Site::Host, ports),
                ),
                _ => VmAttach { stage: VmStage::Active, ..me },
            },
            VmStage::Clean { flow } => {
                let mut f: Sweep<String> = flow;
                f.step(reply);
                me.on_clean(f)
            },
            VmStage::Allocate => match flow::take_limited(
                reply,
                port_search_text().as_str(),
                PORT_COMMAND_SECS,
            ) {
                Some(result) => me.on_allocate(result),
                None => VmAttach { stage: VmStage::Allocate, ..me },
            },
            VmStage::Write => match flow::take_limited(
                reply,
                write.as_str(),
                SHORT_COMMAND_SECS,
            ) {
                Some(Err(e)) => me.fail(e),
                Some(Ok(out)) => if out.exit_code == 0 {
                    me.goto(VmStage::Attach)
                } else {
                    me.fail(write_failed_text(out.exit_code, out.stderr.as_str()))
                },
                None => VmAttach { stage: VmStage::Write, ..me },
            },
            VmStage::Attach => match flow::take_limited(
                reply,
                attach.as_str(),
                ATTACH_COMMAND_SECS,
            ) {
                Some(Err(e)) => me.fail(e),
                Some(Ok(out)) => if out.exit_code != 0 {
                    me.fail(attach_failed_text(out.exit_code, out.stderr.as_str()))
                } else if me.temporary {
                    me.goto(VmStage::Release)
                } else {
                    me.goto(VmStage::Probe)
                },
                None => VmAttach { stage: VmStage::Attach, ..me },
            },
            VmStage::Release => match reply {
                Reply::Done { done: _, late: _ } => VmAttach { temporary: false, ..me }.goto(
                    VmStage::Probe,
                ),
                _ => VmAttach { stage: VmStage::Release, ..me },
            },
            VmStage::Probe => match flow::take_limited(
                reply,
                attach::port_probe_command(me.port).as_str(),
                SHORT_COMMAND_SECS,
            ) {
                Some(result) => me.on_probe(result, late),
                None => VmAttach { stage: VmStage::Probe, ..me },
            },
            VmStage::Rest => match reply {
                Reply::Done { done: _, late: _ } => VmAttach {
                    told: 1,
                    stage: VmStage::Probe,
                    ..me
                },
                _ => VmAttach { stage: VmStage::Rest, ..me },
            },
            VmStage::Handshake => match reply {
                Reply::Done { done: Ok(_), late: _ } => {
                    let port: u16 = me.port;
                    me.goto(VmStage::Ended { result: Ok(port) })
                },
                Reply::Done { done: Err(e), late: _ } => me.goto(
                    VmStage::Undo { error: handshake_failed_text(e.as_str()) },
                ),
                _ => VmAttach { stage: VmStage::Handshake, ..me },
            },
            VmStage::Undo { error } => match flow::take_limited(
                reply,
                attach::stop_command(me.port, me.token.as_str()).as_str(),
                SHORT_COMMAND_SECS,
            ) {
                Some(_) => me.fail(error),
                None => VmAttach { stage: VmStage::Undo { error }, ..me },
            },
            VmStage::Abandon { error } => match reply {
                Reply::Done { done: _, late: _ } => VmAttach { temporary: false, ..me }.fail(error),
                _ => VmAttach { stage: VmStage::Abandon { error }, ..me },
            },
            VmStage::Ended { result } => VmAttach { stage: VmStage::Ended { result }, ..me },
        }
    }
}

// ---------------------------------------------------------------------------------------------
// What holds of every attach
// ---------------------------------------------------------------------------------------------

/// Whether arthas may run at the target without a session: it was attached and is not known to
/// have been stopped.
pub open spec fn may_run(stage: VmStage<Seq<char>>) -> bool {
    stage is Release || stage is Probe || stage is Rest || stage is Handshake
}

/// Once arthas was attached, an attach that fails asks it to stop before it ends: there is no way
/// to an error but over the stop command.
pub proof fn law_vm_failure_stops_arthas(v: VmAttach<Seq<char>>, reply: Reply<Seq<char>>)
    requires
        may_run(v.stage),
    ensures
        ({
            let after = vm_after(v, reply);
            ||| may_run(after.stage)
            ||| after.stage matches VmStage::Ended { result: Ok(_) }
            ||| (after.stage is Undo && vm_request(after) == host_run(
                attach::stop(v.port, v.token),
                SHORT_COMMAND_SECS,
            ))
        }),
{
}

/// A connection is dropped only where it was made for the attach: the shared one of the host is
/// never dropped.
pub proof fn law_vm_keeps_shared_connection(v: VmAttach<Seq<char>>, reply: Reply<Seq<char>>)
    requires
        v.stage !is Release && v.stage !is Abandon,
        vm_after(v, reply).stage is Release || vm_after(v, reply).stage is Abandon,
    ensures
        v.temporary,
        attach_site(v) == Site::Temporary,
{
}

/// Whether an attach holds a connection of its own only where it has a use for it, or is about to
/// drop it.
pub open spec fn holds_rightly(v: VmAttach<Seq<char>>) -> bool {
    v.temporary ==> v.stage is Active || v.stage is Clean || v.stage is Allocate || v.stage is Write
        || v.stage is Attach || v.stage is Release || v.stage is Abandon
}

/// A connection of its own is held only up to the end of the attach command, and given up only by
/// dropping it.
pub proof fn law_vm_gives_connection_up(v: VmAttach<Seq<char>>, reply: Reply<Seq<char>>)
    requires
        holds_rightly(v),
    ensures
        holds_rightly(vm_after(v, reply)),
        v.temporary && !vm_after(v, reply).temporary ==> vm_request(v) is DropTemporary
            && reply is Done,
{
}

/// The attach goes on over the shared connection only as the user that runs the JVM, or as root.
pub proof fn law_vm_attaches_as_the_right_user(
    v: VmAttach<Seq<char>>,
    out: Output<Seq<char>>,
)
    requires
        vm_users(v, Ok(out)).stage is Active,
    ensures
        attach::users(out.stdout) matches Ok((jvm_user, ssh_user)) && (jvm_user == ssh_user
            || ssh_user == "root"@),
{
}

/// An attach succeeds only when the client could connect, and with the port that was allocated.
pub proof fn law_vm_success(v: VmAttach<Seq<char>>, reply: Reply<Seq<char>>, port: u16)
    requires
        v.stage !is Ended,
        vm_after(v, reply).stage == (VmStage::<Seq<char>>::Ended { result: Ok(port) }),
    ensures
        v.stage is Handshake,
        reply matches Reply::Done { done: Ok(_), late: _ },
        port == v.port,
{
}

/// An attach after replies.
pub open spec fn vm_run(v: VmAttach<Seq<char>>, replies: Seq<Reply<Seq<char>>>) -> VmAttach<
    Seq<char>,
>
    decreases replies.len(),
{
    if replies.len() == 0 {
        v
    } else {
        vm_after(vm_run(v, replies.drop_last()), replies.last())
    }
}

/// Whether arthas was asked to stop, at the port and with the token of the attach, between two
/// replies.
pub open spec fn was_asked_to_stop(
    v: VmAttach<Seq<char>>,
    replies: Seq<Reply<Seq<char>>>,
    from: int,
    to: int,
) -> bool {
    exists|j: int|
        from <= j <= to && {
            let then = #[trigger] vm_run(v, replies.take(j));
            vm_request(then) == host_run(attach::stop(then.port, then.token), SHORT_COMMAND_SECS)
        }
}

proof fn lemma_vm_run(v: VmAttach<Seq<char>>, replies: Seq<Reply<Seq<char>>>, k: int, n: int)
    requires
        0 <= k <= n <= replies.len(),
        may_run(vm_run(v, replies.take(k)).stage),
    ensures
        ({
            let now = vm_run(v, replies.take(n)).stage;
            ||| may_run(now)
            ||| now matches VmStage::Ended { result: Ok(_) }
            ||| was_asked_to_stop(v, replies, k, n)
        }),
    decreases n - k,
{
    if k < n {
        lemma_vm_run(v, replies, k, n - 1);
        assert(replies.take(n).drop_last() =~= replies.take(n - 1));
        let before = vm_run(v, replies.take(n - 1));
        let reply = replies[n - 1];
        if was_asked_to_stop(v, replies, k, n - 1) {
            let j = choose|j: int|
                k <= j <= n - 1 && {
                    let then = #[trigger] vm_run(v, replies.take(j));
                    vm_request(then) == host_run(
                        attach::stop(then.port, then.token),
                        SHORT_COMMAND_SECS,
                    )
                };
            assert(vm_run(v, replies.take(j)) == vm_run(v, replies.take(j)));
        } else if may_run(before.stage) {
            law_vm_failure_stops_arthas(before, reply);
            let after = vm_run(v, replies.take(n));
            assert(after == vm_after(before, reply));
        } else {
            law_vm_end_is_final(before, reply);
        }
    }
}

/// Over a whole run: where arthas was attached and the attach ended in an error, arthas was asked
/// to stop since.
pub proof fn law_failed_attach_stopped_arthas(
    v: VmAttach<Seq<char>>,
    replies: Seq<Reply<Seq<char>>>,
    k: int,
)
    requires
        0 <= k <= replies.len(),
        may_run(vm_run(v, replies.take(k)).stage),
        vm_run(v, replies).stage matches VmStage::Ended { result: Err(_) },
    ensures
        was_asked_to_stop(v, replies, k, replies.len() as int),
{
    lemma_vm_run(v, replies, k, replies.len() as int);
    assert(replies.take(replies.len() as int) =~= replies);
}

/// Whether the connection was dropped between two replies.
pub open spec fn was_dropped(
    v: VmAttach<Seq<char>>,
    replies: Seq<Reply<Seq<char>>>,
    from: int,
    to: int,
) -> bool {
    exists|j: int|
        from <= j < to && vm_request(#[trigger] vm_run(v, replies.take(j))) is DropTemporary
            && replies[j] is Done
}

proof fn lemma_vm_holds(v: VmAttach<Seq<char>>, replies: Seq<Reply<Seq<char>>>, k: int, n: int)
    requires
        0 <= k <= n <= replies.len(),
        holds_rightly(v),
    ensures
        holds_rightly(vm_run(v, replies.take(n))),
        vm_run(v, replies.take(k)).temporary && !vm_run(v, replies.take(n)).temporary
            ==> was_dropped(v, replies, k, n),
    decreases n,
{
    if n == 0 {
        assert(replies.take(0) =~= Seq::empty());
    } else {
        assert(replies.take(n).drop_last() =~= replies.take(n - 1));
        let before = vm_run(v, replies.take(n - 1));
        lemma_vm_holds(v, replies, if k < n {
            k
        } else {
            n - 1
        }, n - 1);
        law_vm_gives_connection_up(before, replies[n - 1]);
        if k < n && vm_run(v, replies.take(k)).temporary && !vm_run(v, replies.take(n)).temporary {
            if before.temporary {
                assert(vm_request(vm_run(v, replies.take(n - 1))) is DropTemporary);
            } else {
                let j = choose|j: int|
                    k <= j < n - 1 && vm_request(#[trigger] vm_run(v, replies.take(j)))
                        is DropTemporary && replies[j] is Done;
                assert(vm_request(vm_run(v, replies.take(j))) is DropTemporary);
            }
        }
    }
}

/// Over a whole run: where a connection was opened for the attach command and the attach has ended,
/// in success or in an error, that connection was dropped since.
pub proof fn law_ended_attach_dropped_connection(
    v: VmAttach<Seq<char>>,
    replies: Seq<Reply<Seq<char>>>,
    k: int,
)
    requires
        !v.temporary,
        0 <= k <= replies.len(),
        vm_run(v, replies.take(k)).temporary,
        vm_run(v, replies).stage is Ended,
    ensures
        was_dropped(v, replies, k, replies.len() as int),
{
    lemma_vm_holds(v, replies, k, replies.len() as int);
    assert(replies.take(replies.len() as int) =~= replies);
}

/// An attach that ended in an error stays as it is; one that succeeded says so once.
pub proof fn law_vm_end_is_final(v: VmAttach<Seq<char>>, reply: Reply<Seq<char>>)
    requires
        v.stage is Ended,
    ensures
        vm_after(v, reply).stage == v.stage,
        v.stage matches VmStage::Ended { result: Err(_) } ==> vm_request(v) is Finished,
        v.told >= 1 ==> vm_request(v) is Finished,
{
}

/// As whom an attach runs: as the user of the session where that is the user of the JVM or root, and
/// otherwise as the user of the JVM, with a credential of that user; where there is none, it fails, with
/// both users named.
pub proof fn law_attach_runs_as_the_right_user(
    v: VmAttach<Seq<char>>,
    out: Output<Seq<char>>,
    jvm: Seq<char>,
    ssh: Seq<char>,
    credential: Seq<char>,
    late: bool,
)
    requires
        v.stage is Users,
        v.told == 1,
        !v.temporary,
        attach::users(out.stdout) == Ok::<(Seq<char>, Seq<char>), Seq<char>>((jvm, ssh)),
    ensures
        ({
            let w = vm_after(v, Reply::Ran { ran: Ok(out), late });
            let told = vm_after(w, Reply::Done { done: Ok(()), late });
            let login = vm_after(told, Reply::Maybe { maybe: Some(credential) });
            let refused = vm_after(told, Reply::Maybe { maybe: None });
            &&& vm_request(v) == (Action::<Seq<char>>::Run {
                site: Site::Host,
                cmd: attach::user_check(v.pid),
                secs: Some(15u64),
            })
            &&& jvm == ssh || ssh == "root"@ ==> w.stage is Active && !w.temporary && attach_site(w)
                is Host
            &&& jvm != ssh && ssh != "root"@ ==> {
                &&& vm_request(told) == (Action::<Seq<char>>::FindCredential { username: jvm })
                &&& login.stage matches VmStage::Login { flow } && flow.username == jvm
                    && flow.credential == credential
                &&& refused.stage matches VmStage::Ended { result: Err(m) } && text::contains(m, jvm)
                    && text::contains(m, ssh)
            }
        }),
        ({
            let flow = Temp { username: jvm, credential, stage: TempStage::Ended { result: Ok(()) } };
            vm_login(v, flow).stage is Active && vm_login(v, flow).temporary && attach_site(
                vm_login(v, flow),
            ) is Temporary
        }),
{
    let c0 = "目标 JVM 运行用户为 "@;
    let c1 = jvm;
    let c2 = "，当前 SSH 用户为 "@;
    let c3 = ssh;
    let c4 = " 且未录入 "@;
    let c5 = jvm;
    let c6 = " 的凭证。请让用户在环境管理中为该环境添加用户 "@;
    let c7 = jvm;
    let c8 = " 的凭证后重试"@;
    let p0 = c0;
    let p1 = p0 + c1;
    let p2 = p1 + c2;
    let p3 = p2 + c3;
    let p4 = p3 + c4;
    let p5 = p4 + c5;
    let p6 = p5 + c6;
    let p7 = p6 + c7;
    let p8 = p7 + c8;
    let t1_2 = c1;
    text::lemma_part(p0, c1);
    text::lemma_part_kept(p1, t1_2, c2);
    text::lemma_part_kept(p2, t1_2, c3);
    text::lemma_part_kept(p3, t1_2, c4);
    text::lemma_part_kept(p4, t1_2, c5);
    text::lemma_part_kept(p5, t1_2, c6);
    text::lemma_part_kept(p6, t1_2, c7);
    text::lemma_part_kept(p7, t1_2, c8);
    let t3_4 = c3;
    text::lemma_part(p2, c3);
    text::lemma_part_kept(p3, t3_4, c4);
    text::lemma_part_kept(p4, t3_4, c5);
    text::lemma_part_kept(p5, t3_4, c6);
    text::lemma_part_kept(p6, t3_4, c7);
    text::lemma_part_kept(p7, t3_4, c8);
}

/// The way of an attach on a host once it was swept: two free ports are looked for, the configuration is
/// written to the home of the package with the first of them, the token and the local address, arthas is
/// attached to the process with both, and as the right user; its port is looked at until something listens
/// there, and the client connects to it. What comes out is the first port.
pub proof fn law_way_of_a_host_attach(
    v: VmAttach<Seq<char>>,
    ports: Output<Seq<char>>,
    port: u16,
    telnet: u16,
    ok: Output<Seq<char>>,
    busy: Output<Seq<char>>,
    late: bool,
)
    requires
        v.stage is Allocate,
        v.told == 1,
        attach::free_ports(ports.stdout) == Ok::<(nat, nat), Seq<char>>((port as nat, telnet as nat)),
        ok.exit_code == 0,
        sweep::is_busy(busy),
    ensures
        ({
            let told = Reply::<Seq<char>>::Done { done: Ok(()), late };
            let v1 = vm_after(vm_after(v, Reply::Ran { ran: Ok(ports), late }), told);
            let v2 = vm_after(vm_after(v1, Reply::Ran { ran: Ok(ok), late }), told);
            let attached = vm_after(v2, Reply::Ran { ran: Ok(ok), late });
            let probing = if v.temporary {
                vm_after(attached, told)
            } else {
                attached
            };
            let v3 = vm_after(probing, told);
            let v4 = vm_after(vm_after(vm_after(v3, Reply::Ran { ran: Ok(busy), late }), told), told);
            let v5 = vm_after(v4, told);
            &&& vm_request(v) == (Action::<Seq<char>>::Run {
                site: Site::Host,
                cmd: attach::free_port_search(18563, 10),
                secs: Some(PORT_COMMAND_SECS),
            })
            &&& vm_request(v1) == (Action::<Seq<char>>::Run {
                site: Site::Host,
                cmd: attach::write_properties(v.home, attach::properties(port, v.token, "127.0.0.1"@)),
                secs: Some(15u64),
            })
            &&& vm_request(v2) == (Action::<Seq<char>>::Run {
                site: if v.temporary {
                    Site::Temporary
                } else {
                    Site::Host
                },
                cmd: attach::attach(v.java, v.home, port, telnet, v.pid),
                secs: Some(ATTACH_COMMAND_SECS),
            })
            &&& v.temporary ==> vm_request(attached) is DropTemporary
            &&& vm_request(v3) == (Action::<Seq<char>>::Run {
                site: Site::Host,
                cmd: attach::port_probe(port),
                secs: Some(15u64),
            })
            &&& vm_budget(v3) == Some(READY_BUDGET_MS)
            &&& vm_request(v4) == (Action::<Seq<char>>::ConnectBridge {
                url: "http://127.0.0.1:"@ + text::dec(port as nat) + "/mcp"@,
            })
            &&& v5.stage == (VmStage::<Seq<char>>::Ended { result: Ok(port) })
            &&& !v5.temporary
        }),
{
}

/// How an attach on a host fails: before arthas was started, with what the step that failed said; after
/// it, arthas is stopped at its port and with its token first. A port that nothing listens on yet is looked
/// at again after a pause until the time is over.
pub proof fn law_host_attach_failures(
    v: VmAttach<Seq<char>>,
    out: Output<Seq<char>>,
    e: Seq<char>,
    late: bool,
)
    requires
        vm_notice(v, v.told) is None,
        !v.temporary,
    ensures
        v.stage is Allocate ==> (attach::free_ports(out.stdout) matches Err(m) ==> vm_after(
            v,
            Reply::Ran { ran: Ok(out), late },
        ).stage == (VmStage::<Seq<char>>::Ended { result: Err(m) })),
        (v.stage is Write || v.stage is Attach) && out.exit_code != 0 ==> (vm_after(
            v,
            Reply::Ran { ran: Ok(out), late },
        ).stage matches VmStage::Ended { result: Err(m) } && text::contains(m, out.stderr)),
        v.stage is Probe && !sweep::is_busy(out) && !late ==> {
            let rest = vm_after(v, Reply::Ran { ran: Ok(out), late });
            &&& vm_request(rest) == (Action::<Seq<char>>::Pause { millis: READY_POLL_MS })
            &&& vm_after(rest, Reply::Done { done: Ok(()), late }).stage is Probe
        },
        v.stage is Probe && !sweep::is_busy(out) && late ==> (vm_after(
            v,
            Reply::Ran { ran: Ok(out), late },
        ).stage matches VmStage::Undo { error } && text::contains(error, text::dec(v.port as nat))),
        v.stage is Handshake ==> (vm_after(v, Reply::Done { done: Err(e), late }).stage
            matches VmStage::Undo { error } && text::contains(error, e)),
        v.stage == (VmStage::<Seq<char>>::Undo { error: e }) ==> {
            &&& vm_request(v) == (Action::<Seq<char>>::Run {
                site: Site::Host,
                cmd: attach::stop(v.port, v.token),
                secs: Some(15u64),
            })
            &&& vm_after(v, Reply::Ran { ran: Ok(out), late }).stage == (VmStage::<Seq<char>>::Ended {
                result: Err(e),
            })
        },
{
    let code = text::signed_dec(out.exit_code as int);
    text::lemma_part("写入 arthas.properties 失败（exit "@ + code + "）: "@, out.stderr);
    text::lemma_part("arthas attach 命令失败（exit "@ + code + "）: "@, out.stderr);
    text::lemma_part("arthas MCP 握手失败: "@, e);
    let c0 = "arthas HTTP 服务在 60s 内未就绪（端口 "@;
    let c1 = text::dec(v.port as nat);
    let c2 = "）。可能原因：attach 失败（用户权限/attach 机制被禁用）、目标 JVM 拒绝 attach。可用 run_command 查看 "@;
    let c3 = attach::ARTHAS_LOG_HINT@;
    let c4 = " 日志"@;
    let p0 = c0;
    let p1 = p0 + c1;
    let p2 = p1 + c2;
    let p3 = p2 + c3;
    let p4 = p3 + c4;
    let t1_2 = c1;
    text::lemma_part(p0, c1);
    text::lemma_part_kept(p1, t1_2, c2);
    text::lemma_part_kept(p2, t1_2, c3);
    text::lemma_part_kept(p3, t1_2, c4);
}

/// What an attach on a host is for stays: its process, its java program, its package and its token.
pub proof fn law_host_attach_keeps_its_purpose(v: VmAttach<Seq<char>>, reply: Reply<Seq<char>>)
    ensures
        ({
            let w = vm_after(v, reply);
            &&& w.pid == v.pid
            &&& w.java_bin == v.java_bin
            &&& w.zip == v.zip
            &&& w.token == v.token
            &&& w.timeouts == v.timeouts
            &&& v.stage !is Allocate ==> w.port == v.port && w.telnet == v.telnet
            &&& v.stage !is Package ==> w.home == v.home
            &&& v.stage !is FindJava ==> w.java == v.java
        }),
{
}

/// Each stage of an attach on a host is told of by its name: of the package, of the user, of the
/// remains, of the ports, of the configuration, of the attach, of the wait and of the connection.
pub proof fn law_host_attach_is_told(v: VmAttach<Seq<char>>)
    ensures
        v.stage is Settings ==> (vm_notice(v, 0) matches Some((name, _)) && name
            == "ensure_package"@),
        v.stage is Users ==> (vm_notice(v, 0) matches Some((name, _)) && name == "check_user"@),
        v.stage matches VmStage::Credential { jvm_user, ssh_user } ==> (vm_notice(v, 0) matches Some(
            (name, detail),
        ) && name == "check_user"@ && text::contains(detail, jvm_user) && text::contains(
            detail,
            ssh_user,
        )),
        v.stage is Active ==> (vm_notice(v, 0) matches Some((name, _)) && name == "cleanup"@),
        v.stage is Allocate ==> (vm_notice(v, 0) matches Some((name, _)) && name
            == "allocate_port"@),
        v.stage is Write ==> (vm_notice(v, 0) matches Some((name, detail)) && name
            == "write_config"@ && text::contains(detail, text::dec(v.port as nat))),
        v.stage is Attach ==> (vm_notice(v, 0) matches Some((name, detail)) && name == "attach"@
            && text::contains(detail, text::signed_dec(v.pid as int)) && text::contains(
            detail,
            v.java,
        )),
        v.stage is Probe ==> (vm_notice(v, 0) matches Some((name, _)) && name == "probe"@),
        v.stage is Handshake ==> (vm_notice(v, 0) matches Some((name, _)) && name == "bridge"@) && (
        vm_notice(v, 1) matches Some((name, _)) && name == "handshake"@),
        v.stage matches VmStage::Ended { result: Ok(_) } ==> (vm_notice(v, 0) matches Some(
            (name, _),
        ) && name == "ready"@),
{
    if let VmStage::Credential { jvm_user, ssh_user } = v.stage {
        let c0 = "SSH 用户 "@;
        let c1 = ssh_user;
        let c2 = " ≠ JVM 用户 "@;
        let c3 = jvm_user;
        let c4 = "，使用 "@;
        let c5 = jvm_user;
        let c6 = " 凭证临时连接"@;
        let p0 = c0;
        let p1 = p0 + c1;
        let p2 = p1 + c2;
        let p3 = p2 + c3;
        let p4 = p3 + c4;
        let p5 = p4 + c5;
        let p6 = p5 + c6;
        let t1_2 = c1;
        text::lemma_part(p0, c1);
        text::lemma_part_kept(p1, t1_2, c2);
        text::lemma_part_kept(p2, t1_2, c3);
        text::lemma_part_kept(p3, t1_2, c4);
        text::lemma_part_kept(p4, t1_2, c5);
        text::lemma_part_kept(p5, t1_2, c6);
        let t3_4 = c3;
        text::lemma_part(p2, c3);
        text::lemma_part_kept(p3, t3_4, c4);
        text::lemma_part_kept(p4, t3_4, c5);
        text::lemma_part_kept(p5, t3_4, c6);
    }
    let c0 = "写入 arthas.properties（httpPort="@;
    let c1 = text::dec(v.port as nat);
    let c2 = "）"@;
    let p0 = c0;
    let p1 = p0 + c1;
    let p2 = p1 + c2;
    let t1_2 = c1;
    text::lemma_part(p0, c1);
    text::lemma_part_kept(p1, t1_2, c2);
    let c0 = "attach arthas 到 PID "@;
    let c1 = text::signed_dec(v.pid as int);
    let c2 = "（java="@;
    let c3 = v.java;
    let c4 = "）"@;
    let p0 = c0;
    let p1 = p0 + c1;
    let p2 = p1 + c2;
    let p3 = p2 + c3;
    let p4 = p3 + c4;
    let t1_2 = c1;
    text::lemma_part(p0, c1);
    text::lemma_part_kept(p1, t1_2, c2);
    text::lemma_part_kept(p2, t1_2, c3);
    text::lemma_part_kept(p3, t1_2, c4);
    let t3_4 = c3;
    text::lemma_part(p2, c3);
    text::lemma_part_kept(p3, t3_4, c4);
}

/// A failed attach that has given its temporary connection up is over, with the error that it failed
/// with; one that still has it gives it up first.
pub proof fn law_failed_attach_comes_to_its_end(
    v: VmAttach<Seq<char>>,
    error: Seq<char>,
    done: Result<(), Seq<char>>,
    late: bool,
)
    ensures
        ({
            let abandoned = VmAttach { stage: VmStage::Abandon { error }, told: 0, ..v };
            vm_after(abandoned, Reply::Done { done, late }).stage == (VmStage::<Seq<char>>::Ended {
                result: Err(error),
            })
        }),
        v.temporary ==> vm_fail(v, error).stage == (VmStage::<Seq<char>>::Abandon { error }),
        !v.temporary ==> vm_fail(v, error).stage == (VmStage::<Seq<char>>::Ended {
            result: Err(error),
        }),
{
}

/// The message of a package that failed says why.
pub proof fn lemma_package_failed(e: Seq<char>)
    ensures
        text::contains(package_failed(e), e),
{
    text::lemma_part("arthas 工具包下发失败: "@, e);
}

/// A stage of an attach that the user is told of is told of as soon as it is entered.
pub proof fn law_entered_stage_is_told(v: VmAttach<Seq<char>>, stage: VmStage<Seq<char>>)
    ensures
        ({
            let w = vm_goto(v, stage);
            vm_notice(w, 0) matches Some((name, detail)) ==> vm_request(w) == (Action::<
                Seq<char>,
            >::Progress { tool: "arthas_open"@, stage: name, detail })
        }),
{
}

/// The order of an attach up to its ports: the package, whose directory is the one that is used, then
/// a java, then the users; behind the sweep the search for ports. A failed step is what the attach
/// fails with.
pub proof fn law_host_attach_goes_on(
    v: VmAttach<Seq<char>>,
    package: HostEnsure<Seq<char>>,
    search: Java<Seq<char>>,
    swept: Sweep<Seq<char>>,
    java: Seq<char>,
    e: Seq<char>,
)
    requires
        !v.temporary,
    ensures
        package.stage matches HostStage::Ended { result: Ok(r) } ==> vm_package(v, package).home
            == r.tool_home && vm_package(v, package).stage == (VmStage::FindJava {
            flow: java::java_start(false, v.java_bin),
        }),
        package.stage matches HostStage::Ended { result: Err(error) } ==> (vm_package(
            v,
            package,
        ).stage matches VmStage::Ended { result: Err(m) } && text::contains(m, error.message)),
        search.stage == (JavaStage::<Seq<char>>::Ended { result: Ok(java) }) ==> vm_java(
            v,
            search,
        ).java == java && vm_java(v, search).stage is Users,
        search.stage == (JavaStage::<Seq<char>>::Ended { result: Err(e) }) ==> vm_java(
            v,
            search,
        ).stage == (VmStage::<Seq<char>>::Ended { result: Err(e) }),
        swept.stage matches SweepStage::Ended { result: Ok(_) } ==> vm_clean(v, swept).stage
            is Allocate,
        swept.stage == (SweepStage::<Seq<char>>::Ended { result: Err(e) }) ==> vm_clean(
            v,
            swept,
        ).stage == (VmStage::<Seq<char>>::Ended { result: Err(e) }),
{
    if let HostStage::Ended { result: Err(error) } = package.stage {
        lemma_package_failed(error.message);
    }
}

/// The wait for arthas is told of once: a look that found nothing leads, behind the pause, to the same
/// look again.
pub proof fn law_wait_is_told_once(
    v: VmAttach<Seq<char>>,
    out: Output<Seq<char>>,
    done: Result<(), Seq<char>>,
)
    requires
        v.stage is Probe,
        v.told == 1,
        !sweep::is_busy(out),
    ensures
        vm_after(
            vm_after(v, Reply::Ran { ran: Ok(out), late: false }),
            Reply::Done { done, late: false },
        ) == v,
{
}

} // verus!
