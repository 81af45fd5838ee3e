//! The vocabulary of the orchestrations: what a flow asks the outside to do, and what the
//! outside answers.
//!
//! A flow is a value that knows what it waits for. It says so as an [`Action`]; whoever drives
//! it performs the action, hands back a [`Reply`], and asks again. A reply that does not answer
//! the outstanding action leaves the flow where it is, so the same action is asked for again.
//!
//! The types are generic in their texts: `String` when the code runs, `Seq<char>` in contracts.

use vstd::prelude::*;

use crate::exec::ssh::SshAuth;
use crate::provision::package::{Answer, Task};
use crate::text;

verus! {

/// What a command printed and how it ended.
#[derive(Debug, PartialEq, Eq)]
pub struct Output<S> {
    pub stdout: S,
    pub stderr: S,
    pub exit_code: i32,
}

/// The output of a command run on a channel.
pub type ExecOutput = Output<String>;

impl View for Output<String> {
    type V = Output<Seq<char>>;

    open spec fn view(&self) -> Output<Seq<char>> {
        Output { stdout: self.stdout@, stderr: self.stderr@, exit_code: self.exit_code }
    }
}

/// Which channel a command runs on.
#[derive(Clone, Copy, Debug, PartialEq, Eq)]
pub enum Site {
    /// The host of the environment.
    Host,
    /// The target itself: the container for a pod, the host otherwise.
    Target,
    /// A connection as the user that runs the JVM, made for one attach.
    Temporary,
}

/// What a flow asks the outside to do.
#[derive(Debug, PartialEq, Eq)]
pub enum Action<S> {
    /// Run a command and wait for its end, for `secs` seconds at most where a limit is given.
    Run { site: Site, cmd: S, secs: Option<u64> },
    /// Start a command and do not wait for it.
    Spawn { site: Site, cmd: S },
    /// Copy a local file to a path on a channel.
    Upload { site: Site, local: S, remote: S },
    /// Copy a file of the host to a local path, from `offset` on.
    Download { remote: S, local: S, offset: u64 },
    /// The size of a local file; zero where there is none.
    LocalSize { path: S },
    /// Check that a local file is there and holds at least so many bytes.
    CheckFile { path: S, min_bytes: u64 },
    /// Tell the user how far the work has come.
    Progress { tool: S, stage: S, detail: S },
    /// Forward a local port to a port of the host.
    OpenTunnel { env_id: S, host: S, port: u16 },
    /// Close such a forwarding.
    CloseTunnel { env_id: S, host: S, port: u16 },
    /// Try to connect to a local port.
    ProbeLocal { port: u16 },
    /// Wait.
    Pause { millis: u64 },
    /// Ask arthas to stop, over HTTP on a local port.
    HttpStop { port: u16 },
    /// End the MCP session of the client.
    Shutdown,
    /// Get hold of a channel.
    Acquire { site: Site },
    /// A task of a provisioning.
    Provision { task: Task<S> },
    /// The home of the JDK that is known to be at the target.
    CachedJdk,
    /// Remember the home of the JDK at the target.
    RememberJdk { home: S },
    /// Check that a path can name a java program.
    CheckJava { path: S },
    /// The address that tools are served from.
    BaseUrl,
    /// Bring a JDK to the target.
    EnsureJdk { dir: S, base_url: S, java_bin: S },
    /// The credential of a user of the environment.
    FindCredential { username: S },
    /// Read the environment.
    LoadEnvironment,
    /// The way of authentication that a credential stands for.
    ParseAuth { credential: S },
    /// The secret of a credential.
    LoadSecret { credential: S },
    /// Connect as the user of a credential.
    ConnectTemporary { username: S },
    /// Drop that connection, without waiting for it.
    DropTemporary,
    /// The ports of the sessions that are in use.
    ActivePorts,
    /// Connect to arthas over HTTP.
    ConnectNative { url: S },
    /// Connect to arthas by commands that run on the target.
    ConnectBridge { url: S },
    /// The flow has ended.
    Finished,
}

/// What the outside answers.
#[derive(Debug, PartialEq, Eq)]
pub enum Reply<S> {
    /// A command ended, or could not be run. `late` says that the time set for the wait that the
    /// command belongs to was over when it ended.
    Ran { ran: Result<Output<S>, S>, late: bool },
    /// Work without a value was done, or failed.
    Done { done: Result<(), S>, late: bool },
    /// A number was found, or could not be.
    Number { number: Result<u64, S> },
    /// A port was opened, or could not be.
    Port { port: Result<u16, S> },
    /// The command was still running when its time was over.
    TimedOut,
    /// The answer to a task of a provisioning.
    Answered { answer: Answer<S> },
    /// A text, where there is one.
    Maybe { maybe: Option<S> },
    /// A text, or why it could not be read.
    Text { text: Result<S, S> },
    /// Ports that are in use.
    Ports { ports: Vec<u16> },
    /// The way of authentication, where the configuration names one.
    Auth { auth: Option<SshAuth> },
}

/// The contents of the result of a run.
pub open spec fn view_result(r: Result<Output<String>, String>) -> Result<
    Output<Seq<char>>,
    Seq<char>,
> {
    match r {
        Ok(o) => Ok(o@),
        Err(e) => Err(e@),
    }
}

/// The contents of a result without a value.
pub open spec fn view_unit(r: Result<(), String>) -> Result<(), Seq<char>> {
    match r {
        Ok(_) => Ok(()),
        Err(e) => Err(e@),
    }
}

/// The contents of a number or of why there is none.
pub open spec fn view_number(r: Result<u64, String>) -> Result<u64, Seq<char>> {
    match r {
        Ok(n) => Ok(n),
        Err(e) => Err(e@),
    }
}

/// The contents of a port or of why there is none.
pub open spec fn view_port(r: Result<u16, String>) -> Result<u16, Seq<char>> {
    match r {
        Ok(n) => Ok(n),
        Err(e) => Err(e@),
    }
}

/// The contents of a text or of why there is none.
pub open spec fn view_text(r: Result<String, String>) -> Result<Seq<char>, Seq<char>> {
    match r {
        Ok(t) => Ok(t@),
        Err(e) => Err(e@),
    }
}

impl View for Action<String> {
    type V = Action<Seq<char>>;

    open spec fn view(&self) -> Action<Seq<char>> {
        match *self {
            Action::Run { site, cmd, secs } => Action::Run { site, cmd: cmd@, secs },
            Action::Spawn { site, cmd } => Action::Spawn { site, cmd: cmd@ },
            Action::Upload { site, local, remote } => Action::Upload {
                site,
                local: local@,
                remote: remote@,
            },
            Action::Download { remote, local, offset } => Action::Download {
                remote: remote@,
                local: local@,
                offset,
            },
            Action::LocalSize { path } => Action::LocalSize { path: path@ },
            Action::CheckFile { path, min_bytes } => Action::CheckFile { path: path@, min_bytes },
            Action::Progress { tool, stage, detail } => Action::Progress {
                tool: tool@,
                stage: stage@,
                detail: detail@,
            },
            Action::OpenTunnel { env_id, host, port } => Action::OpenTunnel {
                env_id: env_id@,
                host: host@,
                port,
            },
            Action::CloseTunnel { env_id, host, port } => Action::CloseTunnel {
                env_id: env_id@,
                host: host@,
                port,
            },
            Action::ProbeLocal { port } => Action::ProbeLocal { port },
            Action::Pause { millis } => Action::Pause { millis },
            Action::HttpStop { port } => Action::HttpStop { port },
            Action::Shutdown => Action::Shutdown,
            Action::Acquire { site } => Action::Acquire { site },
            Action::Provision { task } => Action::Provision { task: task@ },
            Action::CachedJdk => Action::CachedJdk,
            Action::RememberJdk { home } => Action::RememberJdk { home: home@ },
            Action::CheckJava { path } => Action::CheckJava { path: path@ },
            Action::BaseUrl => Action::BaseUrl,
            Action::EnsureJdk { dir, base_url, java_bin } => Action::EnsureJdk {
                dir: dir@,
                base_url: base_url@,
                java_bin: java_bin@,
            },
            Action::FindCredential { username } => Action::FindCredential { username: username@ },
            Action::LoadEnvironment => Action::LoadEnvironment,
            Action::ParseAuth { credential } => Action::ParseAuth { credential: credential@ },
            Action::LoadSecret { credential } => Action::LoadSecret { credential: credential@ },
            Action::ConnectTemporary { username } => Action::ConnectTemporary {
                username: username@,
            },
            Action::DropTemporary => Action::DropTemporary,
            Action::ActivePorts => Action::ActivePorts,
            Action::ConnectNative { url } => Action::ConnectNative { url: url@ },
            Action::ConnectBridge { url } => Action::ConnectBridge { url: url@ },
            Action::Finished => Action::Finished,
        }
    }
}

impl View for Reply<String> {
    type V = Reply<Seq<char>>;

    open spec fn view(&self) -> Reply<Seq<char>> {
        match *self {
            Reply::Ran { ran, late } => Reply::Ran { ran: view_result(ran), late },
            Reply::Done { done, late } => Reply::Done { done: view_unit(done), late },
            Reply::Number { number } => Reply::Number { number: view_number(number) },
            Reply::Port { port } => Reply::Port { port: view_port(port) },
            Reply::TimedOut => Reply::TimedOut,
            Reply::Answered { answer } => Reply::Answered { answer: answer@ },
            Reply::Maybe { maybe } => Reply::Maybe { maybe: text::opt(maybe) },
            Reply::Text { text } => Reply::Text { text: view_text(text) },
            Reply::Ports { ports } => Reply::Ports { ports },
            Reply::Auth { auth } => Reply::Auth { auth },
        }
    }
}

// ---------------------------------------------------------------------------------------------
// Commands with a time limit
// ---------------------------------------------------------------------------------------------

/// What is said of a command that did not end in time.
pub open spec fn timeout_message(cmd: Seq<char>, secs: u64) -> Seq<char> {
    "远端命令执行超时（"@ + text::dec(secs as nat) + "s）: "@ + cmd
}

/// What is said of a command that did not end in time.
fn timeout_message_text(cmd: &str, secs: u64) -> (r: String)
    ensures
        r@ == timeout_message(cmd@, secs),
{
    "远端命令执行超时（".to_owned().concat(text::u64_text(secs).as_str()).concat("s）: ").concat(cmd)
}

/// What is said of a command that could not be run.
pub open spec fn failure_message(cmd: Seq<char>, e: Seq<char>) -> Seq<char> {
    "远端命令执行失败: "@ + e + "（命令: "@ + cmd + "）"@
}

/// What is said of a command that could not be run.
fn failure_message_text(cmd: &str, e: &str) -> (r: String)
    ensures
        r@ == failure_message(cmd@, e@),
{
    "远端命令执行失败: ".to_owned().concat(e).concat("（命令: ").concat(cmd).concat("）")
}

/// What a reply says of a command with a time limit: its output, or why there is none. `None`
/// where the reply is about something else.
pub open spec fn limited(reply: Reply<Seq<char>>, cmd: Seq<char>, secs: u64) -> Option<
    Result<Output<Seq<char>>, Seq<char>>,
> {
    match reply {
        Reply::Ran { ran: Ok(out), late } => Some(Ok(out)),
        Reply::Ran { ran: Err(e), late } => Some(Err(failure_message(cmd, e))),
        Reply::TimedOut => Some(Err(timeout_message(cmd, secs))),
        _ => None,
    }
}

/// Whether the time set for the wait was over when the reply came.
pub open spec fn is_late(reply: Reply<Seq<char>>) -> bool {
    match reply {
        Reply::Ran { ran, late } => late,
        Reply::Done { done, late } => late,
        _ => false,
    }
}

/// Whether the time set for the wait was over when the reply came.
pub fn late_reply(reply: &Reply<String>) -> (r: bool)
    ensures
        r == is_late(reply@),
{
    match reply {
        Reply::Ran { ran: _, late } => *late,
        Reply::Done { done: _, late } => *late,
        _ => false,
    }
}

/// What a reply says of a command with a time limit.
pub fn take_limited(reply: Reply<String>, cmd: &str, secs: u64) -> (r: Option<
    Result<Output<String>, String>,
>)
    ensures
        (match r {
            Some(x) => Some(view_result(x)),
            None => None,
        }) == limited(reply@, cmd@, secs),
{
    match reply {
        Reply::Ran { ran: Ok(out), late: _ } => Some(Ok(out)),
        Reply::Ran { ran: Err(e), late: _ } => Some(Err(failure_message_text(cmd, e.as_str()))),
        Reply::TimedOut => Some(Err(timeout_message_text(cmd, secs))),
        _ => None,
    }
}

/// A command with a time limit is what came of it: its output where it ended, an error that names the
/// command and the reason where it could not be run, and one that names the command and the limit where
/// it did not end in time. Anything else says nothing of it.
pub proof fn law_limited_command_is_what_came_of_it(
    cmd: Seq<char>,
    secs: u64,
    out: Output<Seq<char>>,
    e: Seq<char>,
    late: bool,
)
    ensures
        limited(Reply::Ran { ran: Ok(out), late }, cmd, secs) == Some(
            Ok::<Output<Seq<char>>, Seq<char>>(out),
        ),
        limited(Reply::Ran { ran: Err(e), late }, cmd, secs) matches Some(Err(m)) && text::contains(m, e)
            && text::contains(m, cmd),
        limited(Reply::TimedOut, cmd, secs) matches Some(Err(m)) && text::contains(m, cmd)
            && text::contains(m, text::dec(secs as nat)),
        limited(Reply::Done { done: Ok(()), late }, cmd, secs) is None,
        is_late(Reply::Ran { ran: Ok(out), late }) == late,
        is_late(Reply::Done { done: Ok(()), late }) == late,
        !is_late(Reply::TimedOut),
{
    let d = text::dec(secs as nat);
    text::lemma_contains("远端命令执行超时（"@, d, "s）: "@);
    text::lemma_part_kept("远端命令执行超时（"@ + d + "s）: "@, d, cmd);
    text::lemma_part("远端命令执行超时（"@ + d + "s）: "@, cmd);
    let f = "远端命令执行失败: "@;
    text::lemma_contains(f, e, "（命令: "@);
    text::lemma_part_kept(f + e + "（命令: "@, e, cmd);
    text::lemma_part_kept(f + e + "（命令: "@ + cmd, e, "）"@);
    text::lemma_contains(f + e + "（命令: "@, cmd, "）"@);
}

} // verus!
