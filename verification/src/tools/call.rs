//! The vocabulary of the calls of tools: what a call asks of its surroundings, and what it is told.
//!
//! A call is a value that knows what it waits for, like the flows of [`crate::flow`]. An answer to
//! something else than what was asked leaves it where it is.

use vstd::prelude::*;

use crate::flow;
use crate::flow::Output;
use crate::text;
use crate::tools::jfr::recordings::Recording;

verus! {

/// What a call asks for.
#[derive(Debug, PartialEq, Eq)]
pub enum Ask<S> {
    /// The environment of a name, and a channel to a target in it.
    Resolve { environment: S, pod: Option<S>, namespace: Option<S>, container: Option<S> },
    /// The environment of a name.
    FindEnvironment { environment: S },
    /// Does the target fit the kind of the environment?
    CheckTarget { pod: Option<S>, namespace: Option<S>, container: Option<S> },
    /// The program `jcmd` at the target.
    FindJcmd,
    /// The running recording of a process at the target.
    FindActive { pid: u32 },
    /// The time, in seconds since the epoch.
    Clock,
    /// The moment, as a number that grows with the clock: what [`moment`] gives.
    Stamp,
    /// The path of a local file of the session.
    LocalPath { file: S },
    /// Tell the user how far the work has come.
    Tell { tool: S, stage: S, detail: S },
    /// Run a command at the target, for `secs` seconds at most where a limit is given.
    Run { cmd: S, secs: Option<u64> },
    /// Does the output of a command say that the JDK is gone?
    IsJdkGone { exit_code: i32, stderr: S },
    /// Forget the JDK at the target.
    ForgetJdk,
    /// Drop the channel to the target, and kill a command that was left running.
    DropAndKill { cmd: S },
    /// Drop every channel of the environment.
    DropEnvironment,
    /// Add a recording, and wait for it for `secs` seconds at most.
    Register { recording: Recording<S>, secs: u64 },
    /// Wait.
    Pause { millis: u64 },
    /// How long the work has taken.
    Elapsed,
    /// Connect to the target, for this work alone.
    Connect,
    /// Drop that connection.
    Disconnect,
    /// Does the output of a command say that the pod is gone?
    IsPodGone { stderr: S },
    /// The phase of a pod, asked for on the host.
    PodPhase { pod: S, namespace: S, secs: u64 },
    /// Begin to fetch a recording. `remove_remote` says that it is removed at the target once it
    /// was fetched.
    Fetch { recording: Recording<S>, remove_remote: bool },
    /// Note that the recording is being fetched.
    MarkDownloading { transfer_id: S, remote_size: u64 },
    /// Note that the recording is lost.
    MarkFailed { code: S, error: S },
    /// The full path of a local file, and whether there is one.
    FindFile { path: S },
    /// Ask the analyser, with the arguments that were built for it.
    Analyse { tool: S, secs: u64 },
    /// Attach arthas to a process at the target.
    Open { pod: Option<S>, container: Option<S>, pid: u32, java_bin: S, secs: u64 },
    /// End the session with a process at the target.
    Close { pod: Option<S>, container: Option<S>, pid: u32 },
    /// Build the arguments of a command of arthas from those of the call.
    BuildArgs,
    /// Run a command of arthas, with the arguments that were built for it, in the session with a
    /// process at the target.
    Query { tool: S, pod: Option<S>, container: Option<S>, pid: u32, secs: u64 },
    /// The head of a text that is too long to be shown.
    Cut { text: S },
    /// Write a text to a file of the session, under a name with the prefix, and give its path.
    Save { prefix: S, content: S },
    /// The call has ended.
    Finished,
}

/// Why arthas did not answer.
#[derive(Debug, PartialEq, Eq)]
pub enum ManagerError<S> {
    /// It could not be attached.
    Attach { reason: S },
    /// There is no session.
    NotOpen { attaching: bool },
    /// It did not answer in time.
    Timeout { secs: u64 },
    /// The connection to it broke.
    Transport { detail: S },
    /// It answered with an error.
    Upstream { text: S },
}

/// Why the analyser did not answer.
#[derive(Debug, PartialEq, Eq)]
pub enum JmcError<S> {
    /// There is no Java to run it.
    JavaMissing { reason: S },
    /// It cannot be reached.
    Unavailable { detail: S },
    /// It did not answer in time.
    Timeout { secs: u64 },
    /// It answered with an error.
    Upstream { text: S },
}

/// What arthas answered.
#[derive(Debug, PartialEq, Eq)]
pub struct CallOutcome<S> {
    pub text: S,
    pub is_error: bool,
}

/// What a call is told.
#[derive(Debug, PartialEq, Eq)]
pub enum Answer<S> {
    /// It was done.
    Done,
    /// It is in order, or why it is not.
    Checked { checked: Result<(), S> },
    /// The environment, where there is one, or why that could not be found out.
    Resolved { resolved: Result<Option<S>, S> },
    /// A program, where the target is equipped, or why it cannot be used.
    Program { program: Option<Result<S, S>> },
    /// A text, where there is one.
    Maybe { maybe: Option<S> },
    /// A number.
    Number { number: u64 },
    /// A text.
    Text { text: S },
    /// The full path of a file, and whether there is one, or why that could not be found out.
    File { file: Result<(S, bool), S> },
    /// A command ended after so many milliseconds, or could not be run.
    Ran { ran: Result<Output<S>, S>, elapsed_ms: u64 },
    /// A command was still running when its time was over.
    TimedOut,
    /// How many seconds the work has taken, and whether its time is over.
    Elapsed { secs: u64, over: bool },
    /// Yes or no.
    Flag { flag: bool },
    /// Arthas answered after so many milliseconds, or did not.
    Managed { managed: Result<CallOutcome<S>, ManagerError<S>>, elapsed_ms: u64 },
    /// The analyser answered after so many milliseconds, or did not.
    Analysed { analysed: Result<S, JmcError<S>>, elapsed_ms: u64 },
    /// The command of arthas that the arguments were built for, or why they could not be.
    Built { built: Result<S, S> },
    /// The head of a text, and whether it is not all of it.
    Cut { body: S, truncated: bool },
}

impl View for Ask<String> {
    type V = Ask<Seq<char>>;

    open spec fn view(&self) -> Ask<Seq<char>> {
        match *self {
            Ask::Resolve { environment, pod, namespace, container } => Ask::Resolve {
                environment: environment@,
                pod: text::opt(pod),
                namespace: text::opt(namespace),
                container: text::opt(container),
            },
            Ask::FindEnvironment { environment } => Ask::FindEnvironment {
                environment: environment@,
            },
            Ask::CheckTarget { pod, namespace, container } => Ask::CheckTarget {
                pod: text::opt(pod),
                namespace: text::opt(namespace),
                container: text::opt(container),
            },
            Ask::FindJcmd => Ask::FindJcmd,
            Ask::FindActive { pid } => Ask::FindActive { pid },
            Ask::Clock => Ask::Clock,
            Ask::Stamp => Ask::Stamp,
            Ask::LocalPath { file } => Ask::LocalPath { file: file@ },
            Ask::Tell { tool, stage, detail } => Ask::Tell {
                tool: tool@,
                stage: stage@,
                detail: detail@,
            },
            Ask::Run { cmd, secs } => Ask::Run { cmd: cmd@, secs },
            Ask::IsJdkGone { exit_code, stderr } => Ask::IsJdkGone { exit_code, stderr: stderr@ },
            Ask::ForgetJdk => Ask::ForgetJdk,
            Ask::DropAndKill { cmd } => Ask::DropAndKill { cmd: cmd@ },
            Ask::DropEnvironment => Ask::DropEnvironment,
            Ask::Register { recording, secs } => Ask::Register { recording: recording@, secs },
            Ask::Pause { millis } => Ask::Pause { millis },
            Ask::Elapsed => Ask::Elapsed,
            Ask::Connect => Ask::Connect,
            Ask::Disconnect => Ask::Disconnect,
            Ask::IsPodGone { stderr } => Ask::IsPodGone { stderr: stderr@ },
            Ask::PodPhase { pod, namespace, secs } => Ask::PodPhase {
                pod: pod@,
                namespace: namespace@,
                secs,
            },
            Ask::Fetch { recording, remove_remote } => Ask::Fetch {
                recording: recording@,
                remove_remote,
            },
            Ask::MarkDownloading { transfer_id, remote_size } => Ask::MarkDownloading {
                transfer_id: transfer_id@,
                remote_size,
            },
            Ask::MarkFailed { code, error } => Ask::MarkFailed { code: code@, error: error@ },
            Ask::FindFile { path } => Ask::FindFile { path: path@ },
            Ask::Analyse { tool, secs } => Ask::Analyse { tool: tool@, secs },
            Ask::Open { pod, container, pid, java_bin, secs } => Ask::Open {
                pod: text::opt(pod),
                container: text::opt(container),
                pid,
                java_bin: java_bin@,
                secs,
            },
            Ask::Close { pod, container, pid } => Ask::Close {
                pod: text::opt(pod),
                container: text::opt(container),
                pid,
            },
            Ask::BuildArgs => Ask::BuildArgs,
            Ask::Query { tool, pod, container, pid, secs } => Ask::Query {
                tool: tool@,
                pod: text::opt(pod),
                container: text::opt(container),
                pid,
                secs,
            },
            Ask::Cut { text } => Ask::Cut { text: text@ },
            Ask::Save { prefix, content } => Ask::Save { prefix: prefix@, content: content@ },
            Ask::Finished => Ask::Finished,
        }
    }
}

impl View for ManagerError<String> {
    type V = ManagerError<Seq<char>>;

    open spec fn view(&self) -> ManagerError<Seq<char>> {
        match *self {
            ManagerError::Attach { reason } => ManagerError::Attach { reason: reason@ },
            ManagerError::NotOpen { attaching } => ManagerError::NotOpen { attaching },
            ManagerError::Timeout { secs } => ManagerError::Timeout { secs },
            ManagerError::Transport { detail } => ManagerError::Transport { detail: detail@ },
            ManagerError::Upstream { text } => ManagerError::Upstream { text: text@ },
        }
    }
}

impl View for JmcError<String> {
    type V = JmcError<Seq<char>>;

    open spec fn view(&self) -> JmcError<Seq<char>> {
        match *self {
            JmcError::JavaMissing { reason } => JmcError::JavaMissing { reason: reason@ },
            JmcError::Unavailable { detail } => JmcError::Unavailable { detail: detail@ },
            JmcError::Timeout { secs } => JmcError::Timeout { secs },
            JmcError::Upstream { text } => JmcError::Upstream { text: text@ },
        }
    }
}

/// The contents of an environment that was looked for.
pub open spec fn view_resolved(r: Result<Option<String>, String>) -> Result<
    Option<Seq<char>>,
    Seq<char>,
> {
    match r {
        Ok(o) => Ok(text::opt(o)),
        Err(e) => Err(e@),
    }
}

/// The contents of a program that was looked for.
pub open spec fn view_program(p: Option<Result<String, String>>) -> Option<
    Result<Seq<char>, Seq<char>>,
> {
    match p {
        Some(r) => Some(flow::view_text(r)),
        None => None,
    }
}

/// The contents of a file that was looked for.
pub open spec fn view_file(r: Result<(String, bool), String>) -> Result<
    (Seq<char>, bool),
    Seq<char>,
> {
    match r {
        Ok((path, there)) => Ok((path@, there)),
        Err(e) => Err(e@),
    }
}

/// The contents of what arthas answered.
pub open spec fn view_managed(r: Result<CallOutcome<String>, ManagerError<String>>) -> Result<
    CallOutcome<Seq<char>>,
    ManagerError<Seq<char>>,
> {
    match r {
        Ok(o) => Ok(CallOutcome { text: o.text@, is_error: o.is_error }),
        Err(e) => Err(e@),
    }
}

/// The contents of what the analyser answered.
pub open spec fn view_analysed(r: Result<String, JmcError<String>>) -> Result<
    Seq<char>,
    JmcError<Seq<char>>,
> {
    match r {
        Ok(t) => Ok(t@),
        Err(e) => Err(e@),
    }
}

impl View for Answer<String> {
    type V = Answer<Seq<char>>;

    open spec fn view(&self) -> Answer<Seq<char>> {
        match *self {
            Answer::Done => Answer::Done,
            Answer::Checked { checked } => Answer::Checked { checked: flow::view_unit(checked) },
            Answer::Resolved { resolved } => Answer::Resolved {
                resolved: view_resolved(resolved),
            },
            Answer::Program { program } => Answer::Program { program: view_program(program) },
            Answer::Maybe { maybe } => Answer::Maybe { maybe: text::opt(maybe) },
            Answer::Number { number } => Answer::Number { number },
            Answer::Text { text } => Answer::Text { text: text@ },
            Answer::File { file } => Answer::File { file: view_file(file) },
            Answer::Ran { ran, elapsed_ms } => Answer::Ran {
                ran: flow::view_result(ran),
                elapsed_ms,
            },
            Answer::TimedOut => Answer::TimedOut,
            Answer::Elapsed { secs, over } => Answer::Elapsed { secs, over },
            Answer::Flag { flag } => Answer::Flag { flag },
            Answer::Managed { managed, elapsed_ms } => Answer::Managed {
                managed: view_managed(managed),
                elapsed_ms,
            },
            Answer::Analysed { analysed, elapsed_ms } => Answer::Analysed {
                analysed: view_analysed(analysed),
                elapsed_ms,
            },
            Answer::Built { built } => Answer::Built { built: flow::view_text(built) },
            Answer::Cut { body, truncated } => Answer::Cut { body: body@, truncated },
        }
    }
}

/// Calls `chrono::Utc::now`, then `DateTime::timestamp_nanos_opt` on it: the nanoseconds since the
/// beginning of 1970, and `None` where they do not fit in 64 signed bits. What time it is depends
/// on the clock of the machine, so nothing is claimed of the number.
#[verifier::external_body]
fn utc_nanos() -> (r: Option<i64>) {
    chrono::Utc::now().timestamp_nanos_opt()
}

/// The answer to the question for the moment.
pub fn moment() -> (r: Answer<String>)
    ensures
        exists|nanos: Option<i64>| r@ == #[trigger] moment_of(nanos),
{
    let nanos: Option<i64> = utc_nanos();
    let r = moment_over(nanos);
    assert(r@ == moment_of(nanos));
    r
}

/// The moment for a number of nanoseconds since the beginning of 1970: that number, and zero
/// where there is none or it is negative.
pub open spec fn moment_of(nanos: Option<i64>) -> Answer<Seq<char>> {
    Answer::Number {
        number: match nanos {
            Some(n) => if n >= 0 {
                n as u64
            } else {
                0
            },
            None => 0,
        },
    }
}

/// The answer to the question for the moment, over the nanoseconds since the beginning of 1970.
pub fn moment_over(nanos: Option<i64>) -> (r: Answer<String>)
    ensures
        r@ == moment_of(nanos),
{
    match nanos {
        Some(n) => if n >= 0 {
            Answer::Number { number: n as u64 }
        } else {
            Answer::Number { number: 0 }
        },
        None => Answer::Number { number: 0 },
    }
}

/// Moments grow with the clock: a later reading gives a moment that is no earlier, and one after
/// the beginning of 1970 is its own moment.
pub proof fn law_moments_grow(earlier: Option<i64>, later: Option<i64>, n: i64)
    requires
        earlier matches Some(a) ==> (later matches Some(b) && a <= b),
        n >= 0,
    ensures
        moment_of(earlier) matches Answer::Number { number: a } && (moment_of(later) matches
            Answer::Number { number: b } && a <= b),
        moment_of(Some(n)) matches Answer::Number { number } && number == n,
{
}

} // verus!
