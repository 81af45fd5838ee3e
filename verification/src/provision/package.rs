//! What the provisioning of a tool asks for, is told, and ends with.

use vstd::prelude::*;

use crate::flow::Output;
use crate::text;

verus! {

/// Why a tool could not be brought to a target.
#[derive(Debug, PartialEq, Eq)]
pub struct ProvisionError<S> {
    pub code: S,
    pub stage: S,
    pub message: S,
    pub url: Option<S>,
}

impl View for ProvisionError<String> {
    type V = ProvisionError<Seq<char>>;

    open spec fn view(&self) -> ProvisionError<Seq<char>> {
        ProvisionError {
            code: self.code@,
            stage: self.stage@,
            message: self.message@,
            url: text::opt(self.url),
        }
    }
}

/// An error that no URL belongs to.
pub open spec fn error(code: Seq<char>, stage: Seq<char>, message: Seq<char>) -> ProvisionError<
    Seq<char>,
> {
    ProvisionError { code, stage, message, url: None }
}

impl ProvisionError<String> {
    /// An error that no URL belongs to.
    pub fn new(code: &str, stage: &str, message: String) -> (r: ProvisionError<String>)
        ensures
            r@ == error(code@, stage@, message@),
    {
        ProvisionError { code: code.to_owned(), stage: stage.to_owned(), message, url: None }
    }

    /// A copy.
    pub fn copy(&self) -> (r: ProvisionError<String>)
        ensures
            r@ == self@,
    {
        ProvisionError {
            code: self.code.clone(),
            stage: self.stage.clone(),
            message: self.message.clone(),
            url: text::copy_opt(&self.url),
        }
    }
}

/// Where the programs of a tool are.
#[derive(Debug, PartialEq, Eq)]
pub enum Bins<S> {
    /// The tool has none that are called by path.
    Nothing,
    /// The container's own `jcmd` and `jstat`.
    Native { jcmd: S, jstat: S },
    /// In `bin` under this directory.
    Under { home: S },
}

impl View for Bins<String> {
    type V = Bins<Seq<char>>;

    open spec fn view(&self) -> Bins<Seq<char>> {
        match *self {
            Bins::Nothing => Bins::Nothing,
            Bins::Native { jcmd, jstat } => Bins::Native { jcmd: jcmd@, jstat: jstat@ },
            Bins::Under { home } => Bins::Under { home: home@ },
        }
    }
}

/// A tool that is at its target.
#[derive(Debug, PartialEq, Eq)]
pub struct ProvisionResult<S> {
    pub tool: S,
    /// Whether it was there before.
    pub cached: bool,
    pub java_version: S,
    pub bisheng_version: S,
    pub arch: S,
    pub tool_home: S,
    pub bins: Bins<S>,
}

impl View for ProvisionResult<String> {
    type V = ProvisionResult<Seq<char>>;

    open spec fn view(&self) -> ProvisionResult<Seq<char>> {
        ProvisionResult {
            tool: self.tool@,
            cached: self.cached,
            java_version: self.java_version@,
            bisheng_version: self.bisheng_version@,
            arch: self.arch@,
            tool_home: self.tool_home@,
            bins: self.bins@,
        }
    }
}

/// What the JVM of a target said of itself.
#[derive(Debug, PartialEq, Eq)]
pub struct JvmProbe<S> {
    pub openjdk_version: S,
    pub bisheng_version: S,
    pub arch: S,
}

impl View for JvmProbe<String> {
    type V = JvmProbe<Seq<char>>;

    open spec fn view(&self) -> JvmProbe<Seq<char>> {
        JvmProbe {
            openjdk_version: self.openjdk_version@,
            bisheng_version: self.bisheng_version@,
            arch: self.arch@,
        }
    }
}

/// How many seconds the commands of a stage may take.
#[derive(Clone, Copy, Debug, PartialEq, Eq)]
pub struct StageTimeouts {
    pub probe: u64,
    pub extract: u64,
    pub verify: u64,
}

/// The end of a provisioning, by what it holds.
pub open spec fn view_outcome(
    r: Result<ProvisionResult<String>, ProvisionError<String>>,
) -> Result<ProvisionResult<Seq<char>>, ProvisionError<Seq<char>>> {
    match r {
        Ok(p) => Ok(p@),
        Err(e) => Err(e@),
    }
}

/// What a provisioning asks the outside to do.
#[derive(Debug, PartialEq, Eq)]
pub enum Task<S> {
    /// Tell the user how far the work has come.
    Progress { tool: S, stage: S, detail: S },
    /// Ask the JVM for its version.
    Probe { java_bin: S },
    /// Run a command on the target for so many seconds at most; a failure belongs to the stage.
    Run { cmd: S, secs: u64, stage: S },
    /// Run a command on the target without waiting for it.
    Spawn { cmd: S },
    /// Check that a local file is there and holds at least so many bytes.
    CheckFile { path: S, min_bytes: u64 },
    /// Copy a local file to the target.
    Upload { local: S, remote: S },
    /// Find the address of the JDK for the target.
    ResolveUrl,
    /// Have the target download an address to a path.
    RemoteDownload { url: S, dest: S },
    /// Download an address into the local cache.
    LocalDownload { url: S },
    /// Delete a local file.
    DeleteLocal { path: S },
    /// The provisioning has ended.
    Finished,
}

impl View for Task<String> {
    type V = Task<Seq<char>>;

    open spec fn view(&self) -> Task<Seq<char>> {
        match *self {
            Task::Progress { tool, stage, detail } => Task::Progress {
                tool: tool@,
                stage: stage@,
                detail: detail@,
            },
            Task::Probe { java_bin } => Task::Probe { java_bin: java_bin@ },
            Task::Run { cmd, secs, stage } => Task::Run { cmd: cmd@, secs, stage: stage@ },
            Task::Spawn { cmd } => Task::Spawn { cmd: cmd@ },
            Task::CheckFile { path, min_bytes } => Task::CheckFile { path: path@, min_bytes },
            Task::Upload { local, remote } => Task::Upload { local: local@, remote: remote@ },
            Task::ResolveUrl => Task::ResolveUrl,
            Task::RemoteDownload { url, dest } => Task::RemoteDownload {
                url: url@,
                dest: dest@,
            },
            Task::LocalDownload { url } => Task::LocalDownload { url: url@ },
            Task::DeleteLocal { path } => Task::DeleteLocal { path: path@ },
            Task::Finished => Task::Finished,
        }
    }
}

/// What a provisioning is told.
#[derive(Debug, PartialEq, Eq)]
pub enum Answer<S> {
    /// Work without a value was done, or failed.
    Done { done: Result<(), S> },
    /// The JVM said of itself, or could not be asked.
    Probed { probed: Result<JvmProbe<S>, ProvisionError<S>> },
    /// A command ended, or could not be run.
    Ran { ran: Result<Output<S>, ProvisionError<S>> },
    /// A text was found, or could not be.
    Found { found: Result<S, S> },
}

impl View for Answer<String> {
    type V = Answer<Seq<char>>;

    open spec fn view(&self) -> Answer<Seq<char>> {
        match *self {
            Answer::Done { done } => Answer::Done { done: crate::flow::view_unit(done) },
            Answer::Probed { probed } => Answer::Probed {
                probed: match probed {
                    Ok(p) => Ok(p@),
                    Err(e) => Err(e@),
                },
            },
            Answer::Ran { ran } => Answer::Ran {
                ran: match ran {
                    Ok(o) => Ok(o@),
                    Err(e) => Err(e@),
                },
            },
            Answer::Found { found } => Answer::Found {
                found: match found {
                    Ok(t) => Ok(t@),
                    Err(e) => Err(e@),
                },
            },
        }
    }
}

} // verus!
