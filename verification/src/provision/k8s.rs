//! Bringing a JDK into a container.

use vstd::prelude::*;

use crate::exec::k8s;
use crate::flow::Output;
use crate::provision::package;
use crate::provision::package::{
    Answer, Bins, JvmProbe, ProvisionError, ProvisionResult, StageTimeouts, Task,
};
use crate::text;

verus! {

/// The loader of musl: a container that has it cannot run the JDK.
pub const MUSL_PROBE_PATH: &'static str = "/lib/ld-musl-x86_64.so.1";

/// How many bytes the archive of the JDK has at least.
pub const JDK_TARBALL_MIN_BYTES: u64 = 52428800;

/// The package manager of the JDK in containers.
#[derive(Clone, Copy, Debug, PartialEq, Eq)]
pub struct K8sJdkPackage;

// ---------------------------------------------------------------------------------------------
// Commands and messages
// ---------------------------------------------------------------------------------------------

/// Where a JDK lies under the directory for tools.
pub open spec fn jdk_home(dir: Seq<char>, version: Seq<char>) -> Seq<char> {
    dir + "/jdk-"@ + version
}

/// Where a JDK lies under the directory for tools.
pub fn jdk_home_for(dir: &str, version: &str) -> (r: String)
    ensures
        r@ == jdk_home(dir@, version@),
{
    dir.to_owned().concat("/jdk-").concat(version)
}

/// Where the archive goes.
pub open spec fn tarball(dir: Seq<char>, version: Seq<char>) -> Seq<char> {
    dir + "/jdk-"@ + version + ".tar.gz"@
}

/// Where the archive goes.
fn tarball_text(dir: &str, version: &str) -> (r: String)
    ensures
        r@ == tarball(dir@, version@),
{
    dir.to_owned().concat("/jdk-").concat(version).concat(".tar.gz")
}

pub open spec fn musl_check() -> Seq<char> {
    "test -f "@ + MUSL_PROBE_PATH@
}

fn musl_check_text() -> (r: String)
    ensures
        r@ == musl_check(),
{
    "test -f ".to_owned().concat(MUSL_PROBE_PATH)
}

pub open spec fn musl_found() -> Seq<char> {
    "容器为 musl 底座（存在 "@ + MUSL_PROBE_PATH@ + "），glibc 构建的 JDK 不兼容，本期不支持"@
}

fn musl_found_text() -> (r: String)
    ensures
        r@ == musl_found(),
{
    "容器为 musl 底座（存在 ".to_owned().concat(MUSL_PROBE_PATH).concat("），glibc 构建的 JDK 不兼容，本期不支持")
}

pub open spec fn cache_check(dir: Seq<char>, home: Seq<char>) -> Seq<char> {
    "mkdir -p "@ + dir + " && test -x "@ + home + "/bin/jcmd"@
}

fn cache_check_text(dir: &str, home: &str) -> (r: String)
    ensures
        r@ == cache_check(dir@, home@),
{
    "mkdir -p ".to_owned().concat(dir).concat(" && test -x ").concat(home).concat("/bin/jcmd")
}

/// Unpacks the archive, gives the directory its name, removes the archive and gives the files
/// to the group, in one command.
pub open spec fn extract(dir: Seq<char>, v: Seq<char>) -> Seq<char> {
    "mkdir -p "@ + dir + " && cd "@ + dir + " && tar --no-same-owner -xzf jdk-"@ + v
        + ".tar.gz && topdir=$(tar -tzf jdk-"@ + v
        + ".tar.gz | head -1 | cut -f1 -d'/') && if [ \"$topdir\" != \"jdk-"@ + v
        + "\" ] && [ -d \"$topdir\" ]; then rm -rf jdk-"@ + v + " && mv \"$topdir\" jdk-"@ + v
        + "; fi && rm -f jdk-"@ + v + ".tar.gz && chgrp -R "@ + k8s::OSS_GROUP@ + " jdk-"@ + v
        + " && chmod -R g+rX jdk-"@ + v
}

/// Unpacks the archive, gives the directory its name, removes the archive and gives the files
/// to the group, in one command.
fn extract_text(dir: &str, v: &str) -> (r: String)
    ensures
        r@ == extract(dir@, v@),
{
    "mkdir -p ".to_owned()
        .concat(dir)
        .concat(" && cd ")
        .concat(dir)
        .concat(" && tar --no-same-owner -xzf jdk-")
        .concat(v)
        .concat(".tar.gz && topdir=$(tar -tzf jdk-")
        .concat(v)
        .concat(".tar.gz | head -1 | cut -f1 -d'/') && if [ \"$topdir\" != \"jdk-")
        .concat(v)
        .concat("\" ] && [ -d \"$topdir\" ]; then rm -rf jdk-")
        .concat(v)
        .concat(" && mv \"$topdir\" jdk-")
        .concat(v)
        .concat("; fi && rm -f jdk-")
        .concat(v)
        .concat(".tar.gz && chgrp -R ")
        .concat(k8s::OSS_GROUP)
        .concat(" jdk-")
        .concat(v)
        .concat(" && chmod -R g+rX jdk-")
        .concat(v)
}

pub open spec fn verify(home: Seq<char>) -> Seq<char> {
    "test -x "@ + home + "/bin/jcmd && test -x "@ + home + "/bin/jstat"@
}

fn verify_text(home: &str) -> (r: String)
    ensures
        r@ == verify(home@),
{
    "test -x ".to_owned()
        .concat(home)
        .concat("/bin/jcmd && test -x ")
        .concat(home)
        .concat("/bin/jstat")
}

pub open spec fn checking(home: Seq<char>) -> Seq<char> {
    "checking "@ + home + "/bin/jcmd"@
}

fn checking_text(home: &str) -> (r: String)
    ensures
        r@ == checking(home@),
{
    "checking ".to_owned().concat(home).concat("/bin/jcmd")
}

pub open spec fn extracting(tarball: Seq<char>) -> Seq<char> {
    "extracting "@ + tarball
}

fn extracting_text(tarball: &str) -> (r: String)
    ensures
        r@ == extracting(tarball@),
{
    "extracting ".to_owned().concat(tarball)
}

pub open spec fn verifying(home: Seq<char>) -> Seq<char> {
    "verifying "@ + home + "/bin/jcmd"@
}

fn verifying_text(home: &str) -> (r: String)
    ensures
        r@ == verifying(home@),
{
    "verifying ".to_owned().concat(home).concat("/bin/jcmd")
}

pub open spec fn drop_tarball(tarball: Seq<char>) -> Seq<char> {
    "rm -f "@ + tarball
}

fn drop_tarball_text(tarball: &str) -> (r: String)
    ensures
        r@ == drop_tarball(tarball@),
{
    "rm -f ".to_owned().concat(tarball)
}

pub open spec fn drop_home(home: Seq<char>) -> Seq<char> {
    "rm -rf "@ + home
}

fn drop_home_text(home: &str) -> (r: String)
    ensures
        r@ == drop_home(home@),
{
    "rm -rf ".to_owned().concat(home)
}

pub open spec fn extract_failed(code: i32, stderr: Seq<char>) -> Seq<char> {
    "tar/chgrp failed (exit "@ + text::signed_dec(code as int) + "): "@ + stderr
}

fn extract_failed_text(code: i32, stderr: &str) -> (r: String)
    ensures
        r@ == extract_failed(code, stderr@),
{
    "tar/chgrp failed (exit ".to_owned()
        .concat(text::i64_text(code as i64).as_str())
        .concat("): ")
        .concat(stderr)
}

pub open spec fn binaries_missing(base_url: Seq<char>) -> Seq<char> {
    "jdk binaries missing after extract; check artifactory base url setting ("@ + base_url
        + ")"@
}

fn binaries_missing_text(base_url: &str) -> (r: String)
    ensures
        r@ == binaries_missing(base_url@),
{
    "jdk binaries missing after extract; check artifactory base url setting (".to_owned()
        .concat(base_url)
        .concat(")")
}

// ---------------------------------------------------------------------------------------------
// The way into a container
// ---------------------------------------------------------------------------------------------

/// Where the way stands.
#[derive(Debug, PartialEq, Eq)]
pub enum JdkStage<S> {
    /// Ask the JVM for its version.
    Probe,
    /// Is the container built on musl?
    CheckMusl,
    /// Does the container have the programs itself?
    CheckNative,
    /// Is the JDK in the container?
    CheckCache,
    /// Find the address of the JDK.
    Resolve,
    /// Have the container download it.
    Remote { url: S },
    /// Download it to this machine.
    Local { url: S },
    /// Is the downloaded archive whole?
    CheckLocal { url: S, path: S },
    /// Delete the broken archive, then fail.
    DropLocal { url: S, path: S, reason: S },
    /// Copy the archive into the container.
    Send { url: S, path: S },
    /// Start to remove the archive from the container, then fail.
    DropRemote { error: ProvisionError<S> },
    /// Unpack the archive.
    Extract,
    /// Start to remove what the unpacking left, then fail.
    DropHome { error: ProvisionError<S> },
    /// Are the programs there now?
    Verify,
    /// It is over.
    Ended { result: Result<ProvisionResult<S>, ProvisionError<S>> },
}

/// The way of a JDK into a container.
#[derive(Debug, PartialEq, Eq)]
pub struct JdkEnsure<S> {
    /// The tool that progress is reported for.
    pub tool: S,
    /// The directory for tools in the container.
    pub dir: S,
    /// Where archives are served from.
    pub base_url: S,
    pub java_bin: S,
    pub timeouts: StageTimeouts,
    /// What the JVM said of itself; empty before it was asked.
    pub probe: JvmProbe<S>,
    /// Whether the user was told of the stage.
    pub told: bool,
    pub stage: JdkStage<S>,
}

impl View for JdkStage<String> {
    type V = JdkStage<Seq<char>>;

    open spec fn view(&self) -> JdkStage<Seq<char>> {
        match *self {
            JdkStage::Probe => JdkStage::Probe,
            JdkStage::CheckMusl => JdkStage::CheckMusl,
            JdkStage::CheckNative => JdkStage::CheckNative,
            JdkStage::CheckCache => JdkStage::CheckCache,
            JdkStage::Resolve => JdkStage::Resolve,
            JdkStage::Remote { url } => JdkStage::Remote { url: url@ },
            JdkStage::Local { url } => JdkStage::Local { url: url@ },
            JdkStage::CheckLocal { url, path } => JdkStage::CheckLocal {
                url: url@,
                path: path@,
            },
            JdkStage::DropLocal { url, path, reason } => JdkStage::DropLocal {
                url: url@,
                path: path@,
                reason: reason@,
            },
            JdkStage::Send { url, path } => JdkStage::Send { url: url@, path: path@ },
            JdkStage::DropRemote { error } => JdkStage::DropRemote { error: error@ },
            JdkStage::Extract => JdkStage::Extract,
            JdkStage::DropHome { error } => JdkStage::DropHome { error: error@ },
            JdkStage::Verify => JdkStage::Verify,
            JdkStage::Ended { result } => JdkStage::Ended {
                result: package::view_outcome(result),
            },
        }
    }
}

impl View for JdkEnsure<String> {
    type V = JdkEnsure<Seq<char>>;

    open spec fn view(&self) -> JdkEnsure<Seq<char>> {
        JdkEnsure {
            tool: self.tool@,
            dir: self.dir@,
            base_url: self.base_url@,
            java_bin: self.java_bin@,
            timeouts: self.timeouts,
            probe: self.probe@,
            told: self.told,
            stage: self.stage@,
        }
    }
}

/// A JVM that was not asked yet.
pub open spec fn no_probe() -> JvmProbe<Seq<char>> {
    JvmProbe {
        openjdk_version: Seq::empty(),
        bisheng_version: Seq::empty(),
        arch: Seq::empty(),
    }
}

/// The way before its first step.
pub open spec fn jdk_start(
    tool: Seq<char>,
    dir: Seq<char>,
    base_url: Seq<char>,
    java_bin: Seq<char>,
    timeouts: StageTimeouts,
) -> JdkEnsure<Seq<char>> {
    JdkEnsure {
        tool,
        dir,
        base_url,
        java_bin,
        timeouts,
        probe: no_probe(),
        told: false,
        stage: JdkStage::Probe,
    }
}

/// The home of the JDK that fits the JVM.
pub open spec fn home_of(j: JdkEnsure<Seq<char>>) -> Seq<char> {
    jdk_home(j.dir, j.probe.openjdk_version)
}

/// The archive of the JDK that fits the JVM.
pub open spec fn tarball_of(j: JdkEnsure<Seq<char>>) -> Seq<char> {
    tarball(j.dir, j.probe.openjdk_version)
}

/// What the user is told of a stage before its work begins: the name of the stage and a detail.
pub open spec fn jdk_notice(j: JdkEnsure<Seq<char>>) -> Option<(Seq<char>, Seq<char>)> {
    match j.stage {
        JdkStage::CheckMusl => Some(("musl_check"@, "checking container libc flavor"@)),
        JdkStage::CheckNative => Some(
            ("check_native"@, "checking container-native jcmd/jstat"@),
        ),
        JdkStage::CheckCache => Some(("check_cache"@, checking(home_of(j)))),
        JdkStage::Remote { url } => Some(("download"@, "channel A: container curl/wget"@)),
        JdkStage::Local { url } => Some(
            ("download"@, "channel B: local download + two-leg upload into pod"@),
        ),
        JdkStage::Extract => Some(("extract"@, extracting(tarball_of(j)))),
        JdkStage::Verify => Some(("verify"@, verifying(home_of(j)))),
        _ => None,
    }
}

/// The work of a stage.
pub open spec fn jdk_work(j: JdkEnsure<Seq<char>>) -> Task<Seq<char>> {
    match j.stage {
        JdkStage::Probe => Task::Probe { java_bin: j.java_bin },
        JdkStage::CheckMusl => Task::Run {
            cmd: musl_check(),
            secs: j.timeouts.probe,
            stage: "musl_check"@,
        },
        JdkStage::CheckNative => Task::Run {
            cmd: "command -v jcmd && command -v jstat"@,
            secs: j.timeouts.probe,
            stage: "check_native"@,
        },
        JdkStage::CheckCache => Task::Run {
            cmd: cache_check(j.dir, home_of(j)),
            secs: j.timeouts.probe,
            stage: "check_cache"@,
        },
        JdkStage::Resolve => Task::ResolveUrl,
        JdkStage::Remote { url } => Task::RemoteDownload { url, dest: tarball_of(j) },
        JdkStage::Local { url } => Task::LocalDownload { url },
        JdkStage::CheckLocal { url, path } => Task::CheckFile {
            path,
            min_bytes: JDK_TARBALL_MIN_BYTES,
        },
        JdkStage::DropLocal { url, path, reason } => Task::DeleteLocal { path },
        JdkStage::Send { url, path } => Task::Upload { local: path, remote: tarball_of(j) },
        JdkStage::DropRemote { error } => Task::Spawn { cmd: drop_tarball(tarball_of(j)) },
        JdkStage::Extract => Task::Run {
            cmd: extract(j.dir, j.probe.openjdk_version),
            secs: j.timeouts.extract,
            stage: "extract"@,
        },
        JdkStage::DropHome { error } => Task::Spawn { cmd: drop_home(home_of(j)) },
        JdkStage::Verify => Task::Run {
            cmd: verify(home_of(j)),
            secs: j.timeouts.verify,
            stage: "verify"@,
        },
        JdkStage::Ended { result } => Task::Finished,
    }
}

/// What is asked for: first that the user be told of the stage, then the work of the stage.
pub open spec fn jdk_request(j: JdkEnsure<Seq<char>>) -> Task<Seq<char>> {
    match jdk_notice(j) {
        Some((stage, detail)) => if j.told {
            jdk_work(j)
        } else {
            Task::Progress { tool: j.tool, stage, detail }
        },
        None => jdk_work(j),
    }
}

/// A JDK at its place.
pub open spec fn jdk_ready(
    j: JdkEnsure<Seq<char>>,
    cached: bool,
    tool_home: Seq<char>,
    bins: Bins<Seq<char>>,
) -> ProvisionResult<Seq<char>> {
    ProvisionResult {
        tool: "jdk"@,
        cached,
        java_version: j.probe.openjdk_version,
        bisheng_version: j.probe.bisheng_version,
        arch: j.probe.arch,
        tool_home,
        bins,
    }
}

/// An end in failure.
pub open spec fn jdk_failed(error: ProvisionError<Seq<char>>) -> JdkStage<Seq<char>> {
    JdkStage::Ended { result: Err(error) }
}

/// A failure that belongs to an address.
pub open spec fn url_error(url: Seq<char>, stage: Seq<char>, message: Seq<char>) -> ProvisionError<
    Seq<char>,
> {
    ProvisionError { code: "provision_failed"@, stage, message, url: Some(url) }
}

/// The stage that a failed unpacking belongs to: the change of group, where the command says so.
pub open spec fn extract_stage(stderr: Seq<char>) -> Seq<char> {
    if text::contains(stderr, "chgrp"@) || text::contains(stderr, "Operation not permitted"@) {
        "ownership"@
    } else {
        "extract"@
    }
}

/// Where the search for the container's own programs leads.
pub open spec fn after_native(j: JdkEnsure<Seq<char>>, out: Output<Seq<char>>) -> JdkStage<
    Seq<char>,
> {
    let found = text::filled_lines(out.stdout);
    if out.exit_code == 0 && found.len() >= 2 {
        JdkStage::Ended {
            result: Ok(
                jdk_ready(j, true, j.dir, Bins::Native { jcmd: found[0], jstat: found[1] }),
            ),
        }
    } else {
        JdkStage::CheckCache
    }
}

/// The stage that the work of a stage leads to.
pub open spec fn jdk_next(j: JdkEnsure<Seq<char>>, answer: Answer<Seq<char>>) -> JdkStage<
    Seq<char>,
> {
    match (j.stage, answer) {
        (JdkStage::Probe, Answer::Probed { probed: Ok(p) }) => JdkStage::CheckMusl,
        (JdkStage::Probe, Answer::Probed { probed: Err(e) }) => jdk_failed(e),
        (JdkStage::CheckMusl, Answer::Ran { ran: Ok(out) }) => if out.exit_code == 0 {
            jdk_failed(package::error("unsupported_libc"@, "musl_check"@, musl_found()))
        } else {
            JdkStage::CheckNative
        },
        (JdkStage::CheckMusl, Answer::Ran { ran: Err(e) }) => jdk_failed(e),
        (JdkStage::CheckNative, Answer::Ran { ran: Ok(out) }) => after_native(j, out),
        (JdkStage::CheckNative, Answer::Ran { ran: Err(e) }) => jdk_failed(e),
        (JdkStage::CheckCache, Answer::Ran { ran: Ok(out) }) => if out.exit_code == 0 {
            JdkStage::Ended {
                result: Ok(jdk_ready(j, true, home_of(j), Bins::Under { home: home_of(j) })),
            }
        } else {
            JdkStage::Resolve
        },
        (JdkStage::CheckCache, Answer::Ran { ran: Err(e) }) => jdk_failed(e),
        (JdkStage::Resolve, Answer::Found { found: Ok(url) }) => JdkStage::Remote { url },
        (JdkStage::Resolve, Answer::Found { found: Err(e) }) => jdk_failed(
            package::error("parse_failed"@, "resolve_url"@, e),
        ),
        (JdkStage::Remote { url }, Answer::Done { done: Ok(_) }) => JdkStage::Extract,
        (JdkStage::Remote { url }, Answer::Done { done: Err(_) }) => JdkStage::Local { url },
        (JdkStage::Local { url }, Answer::Found { found: Ok(path) }) => JdkStage::CheckLocal {
            url,
            path,
        },
        (JdkStage::Local { url }, Answer::Found { found: Err(e) }) => jdk_failed(
            url_error(url, "download_local"@, e),
        ),
        (JdkStage::CheckLocal { url, path }, Answer::Done { done: Ok(_) }) => JdkStage::Send {
            url,
            path,
        },
        (JdkStage::CheckLocal { url, path }, Answer::Done { done: Err(e) }) => JdkStage::DropLocal {
            url,
            path,
            reason: e,
        },
        (JdkStage::DropLocal { url, path, reason }, Answer::Done { done }) => jdk_failed(
            url_error(url, "download_local"@, reason),
        ),
        (JdkStage::Send { url, path }, Answer::Done { done: Ok(_) }) => JdkStage::Extract,
        (JdkStage::Send { url, path }, Answer::Done { done: Err(e) }) => JdkStage::DropRemote {
            error: url_error(url, "upload"@, e),
        },
        (JdkStage::DropRemote { error }, Answer::Done { done }) => jdk_failed(error),
        (JdkStage::Extract, Answer::Ran { ran: Ok(out) }) => if out.exit_code == 0 {
            JdkStage::Verify
        } else {
            JdkStage::DropHome {
                error: package::error(
                    "provision_failed"@,
                    extract_stage(out.stderr),
                    extract_failed(out.exit_code, out.stderr),
                ),
            }
        },
        (JdkStage::Extract, Answer::Ran { ran: Err(e) }) => JdkStage::DropHome { error: e },
        (JdkStage::DropHome { error }, Answer::Done { done }) => jdk_failed(error),
        (JdkStage::Verify, Answer::Ran { ran: Ok(out) }) => if out.exit_code == 0 {
            JdkStage::Ended {
                result: Ok(jdk_ready(j, false, home_of(j), Bins::Under { home: home_of(j) })),
            }
        } else {
            jdk_failed(
                package::error("provision_failed"@, "verify"@, binaries_missing(j.base_url)),
            )
        },
        (JdkStage::Verify, Answer::Ran { ran: Err(e) }) => jdk_failed(e),
        (stage, _) => stage,
    }
}

/// What the JVM said of itself, after an answer.
pub open spec fn probe_after(j: JdkEnsure<Seq<char>>, answer: Answer<Seq<char>>) -> JvmProbe<
    Seq<char>,
> {
    match (j.stage, answer) {
        (JdkStage::Probe, Answer::Probed { probed: Ok(p) }) => p,
        _ => j.probe,
    }
}

/// The way after an answer. An answer to the notice is that it was given.
pub open spec fn jdk_after(j: JdkEnsure<Seq<char>>, answer: Answer<Seq<char>>) -> JdkEnsure<
    Seq<char>,
> {
    if jdk_notice(j) is Some && !j.told {
        if answer is Done {
            JdkEnsure { told: true, ..j }
        } else {
            j
        }
    } else if jdk_next(j, answer) == j.stage {
        j
    } else {
        JdkEnsure {
            told: false,
            probe: probe_after(j, answer),
            stage: jdk_next(j, answer),
            ..j
        }
    }
}

impl K8sJdkPackage {
    /// The name of the tool.
    pub fn name(&self) -> (r: &'static str)
        ensures
            r@ == "jdk"@,
    {
        "jdk"
    }

    /// Begins to bring a JDK into a container.
    pub fn ensure(
        &self,
        tool: &str,
        dir: &str,
        base_url: &str,
        java_bin: &str,
        timeouts: StageTimeouts,
    ) -> (r: JdkEnsure<String>)
        ensures
            r@ == jdk_start(tool@, dir@, base_url@, java_bin@, timeouts),
    {
        JdkEnsure {
            tool: tool.to_owned(),
            dir: dir.to_owned(),
            base_url: base_url.to_owned(),
            java_bin: java_bin.to_owned(),
            timeouts,
            probe: JvmProbe {
                openjdk_version: String::new(),
                bisheng_version: String::new(),
                arch: String::new(),
            },
            told: false,
            stage: JdkStage::Probe,
        }
    }
}

fn fail(error: ProvisionError<String>) -> (r: JdkStage<String>)
    ensures
        r@ == jdk_failed(error@),
{
    JdkStage::Ended { result: Err(error) }
}

fn url_failure(url: &str, stage: &str, message: String) -> (r: ProvisionError<String>)
    ensures
        r@ == url_error(url@, stage@, message@),
{
    ProvisionError {
        code: "provision_failed".to_owned(),
        stage: stage.to_owned(),
        message,
        url: Some(url.to_owned()),
    }
}

impl JdkEnsure<String> {
    fn home_text(&self) -> (r: String)
        ensures
            r@ == home_of(self@),
    {
        jdk_home_for(self.dir.as_str(), self.probe.openjdk_version.as_str())
    }

    fn tarball_path(&self) -> (r: String)
        ensures
            r@ == tarball_of(self@),
    {
        tarball_text(self.dir.as_str(), self.probe.openjdk_version.as_str())
    }

    fn ready(&self, cached: bool, tool_home: String, bins: Bins<String>) -> (r: JdkStage<String>)
        ensures
            r@ == (JdkStage::Ended {
                result: Ok(jdk_ready(self@, cached, tool_home@, bins@)),
            }),
    {
        JdkStage::Ended {
            result: Ok(
                ProvisionResult {
                    tool: "jdk".to_owned(),
                    cached,
                    java_version: self.probe.openjdk_version.clone(),
                    bisheng_version: self.probe.bisheng_version.clone(),
                    arch: self.probe.arch.clone(),
                    tool_home,
                    bins,
                },
            ),
        }
    }

    fn notice(&self) -> (r: Option<(&'static str, String)>)
        ensures
            (match r {
                Some((s, d)) => Some((s@, d@)),
                None => None,
            }) == jdk_notice(self@),
    {
        match &self.stage {
            JdkStage::CheckMusl => Some(
                ("musl_check", "checking container libc flavor".to_owned()),
            ),
            JdkStage::CheckNative => Some(
                ("check_native", "checking container-native jcmd/jstat".to_owned()),
            ),
            JdkStage::CheckCache => Some(
                ("check_cache", checking_text(self.home_text().as_str())),
            ),
            JdkStage::Remote { url: _ } => Some(
                ("download", "channel A: container curl/wget".to_owned()),
            ),
            JdkStage::Local { url: _ } => Some(
                ("download", "channel B: local download + two-leg upload into pod".to_owned()),
            ),
            JdkStage::Extract => Some(("extract", extracting_text(self.tarball_path().as_str()))),
            JdkStage::Verify => Some(("verify", verifying_text(self.home_text().as_str()))),
            _ => None,
        }
    }

    fn work(&self) -> (r: Task<String>)
        ensures
            r@ == jdk_work(self@),
    {
        match &self.stage {
            JdkStage::Probe => Task::Probe { java_bin: self.java_bin.clone() },
            JdkStage::CheckMusl => Task::Run {
                cmd: musl_check_text(),
                secs: self.timeouts.probe,
                stage: "musl_check".to_owned(),
            },
            JdkStage::CheckNative => Task::Run {
                cmd: "command -v jcmd && command -v jstat".to_owned(),
                secs: self.timeouts.probe,
                stage: "check_native".to_owned(),
            },
            JdkStage::CheckCache => Task::Run {
                cmd: cache_check_text(self.dir.as_str(), self.home_text().as_str()),
                secs: self.timeouts.probe,
                stage: "check_cache".to_owned(),
            },
            JdkStage::Resolve => Task::ResolveUrl,
            JdkStage::Remote { url } => Task::RemoteDownload {
                url: url.clone(),
                dest: self.tarball_path(),
            },
            JdkStage::Local { url } => Task::LocalDownload { url: url.clone() },
            JdkStage::CheckLocal { url: _, path } => Task::CheckFile {
                path: path.clone(),
                min_bytes: JDK_TARBALL_MIN_BYTES,
            },
            JdkStage::DropLocal { url: _, path, reason: _ } => Task::DeleteLocal {
                path: path.clone(),
            },
            JdkStage::Send { url: _, path } => Task::Upload {
                local: path.clone(),
                remote: self.tarball_path(),
            },
            JdkStage::DropRemote { error: _ } => Task::Spawn {
                cmd: drop_tarball_text(self.tarball_path().as_str()),
            },
            JdkStage::Extract => Task::Run {
                cmd: extract_text(self.dir.as_str(), self.probe.openjdk_version.as_str()),
                secs: self.timeouts.extract,
                stage: "extract".to_owned(),
            },
            JdkStage::DropHome { error: _ } => Task::Spawn {
                cmd: drop_home_text(self.home_text().as_str()),
            },
            JdkStage::Verify => Task::Run {
                cmd: verify_text(self.home_text().as_str()),
                secs: self.timeouts.verify,
                stage: "verify".to_owned(),
            },
            JdkStage::Ended { result: _ } => Task::Finished,
        }
    }

    /// What is asked for.
    pub fn request(&self) -> (r: Task<String>)
        ensures
            r@ == jdk_request(self@),
    {
        match self.notice() {
            Some((stage, detail)) => if self.told {
                self.work()
            } else {
                Task::Progress {
                    tool: self.tool.clone(),
                    stage: stage.to_owned(),
                    detail,
                }
            },
            None => self.work(),
        }
    }

    fn native(&self, out: &Output<String>) -> (r: JdkStage<String>)
        ensures
            r@ == after_native(self@, out@),
    {
        let found: Vec<String> = text::filled_lines_of(out.stdout.as_str());
        proof {
            assert(text::views(found@).len() == found@.len());
        }
        if out.exit_code == 0 && found.len() >= 2 {
            self.ready(
                true,
                self.dir.clone(),
                Bins::Native { jcmd: found[0].clone(), jstat: found[1].clone() },
            )
        } else {
            JdkStage::CheckCache
        }
    }

    fn extract_error(&self, out: &Output<String>) -> (r: ProvisionError<String>)
        ensures
            r@ == package::error(
                "provision_failed"@,
                extract_stage(out.stderr@),
                extract_failed(out.exit_code, out.stderr@),
            ),
    {
        let stderr: &str = out.stderr.as_str();
        let stage: &str = if text::has(stderr, "chgrp") || text::has(
            stderr,
            "Operation not permitted",
        ) {
            "ownership"
        } else {
            "extract"
        };
        ProvisionError::new("provision_failed", stage, extract_failed_text(out.exit_code, stderr))
    }

    /// Takes the answer to what was asked for.
    pub fn step(&mut self, answer: Answer<String>)
        ensures
            final(self)@ == jdk_after(old(self)@, answer@),
    {
        if self.notice().is_some() && !self.told {
            if let Answer::Done { done: _ } = answer {
                self.told = true;
            }
            return ;
        }
        let mut probe: Option<JvmProbe<String>> = None;
        let next: Option<JdkStage<String>> = match (&self.stage, answer) {
            (JdkStage::Probe, Answer::Probed { probed: Ok(p) }) => {
                probe = Some(p);
                Some(JdkStage::CheckMusl)
            },
            (JdkStage::Probe, Answer::Probed { probed: Err(e) }) => Some(fail(e)),
            (JdkStage::CheckMusl, Answer::Ran { ran: Ok(out) }) => if out.exit_code == 0 {
                Some(fail(ProvisionError::new("unsupported_libc", "musl_check", musl_found_text())))
            } else {
                Some(JdkStage::CheckNative)
            },
            (JdkStage::CheckMusl, Answer::Ran { ran: Err(e) }) => Some(fail(e)),
            (JdkStage::CheckNative, Answer::Ran { ran: Ok(out) }) => Some(self.native(&out)),
            (JdkStage::CheckNative, Answer::Ran { ran: Err(e) }) => Some(fail(e)),
            (JdkStage::CheckCache, Answer::Ran { ran: Ok(out) }) => if out.exit_code == 0 {
                Some(self.ready(true, self.home_text(), Bins::Under { home: self.home_text() }))
            } else {
                Some(JdkStage::Resolve)
            },
            (JdkStage::CheckCache, Answer::Ran { ran: Err(e) }) => Some(fail(e)),
            (JdkStage::Resolve, Answer::Found { found: Ok(url) }) => Some(
                JdkStage::Remote { url },
            ),
            (JdkStage::Resolve, Answer::Found { found: Err(e) }) => Some(
                fail(ProvisionError::new("parse_failed", "resolve_url", e)),
            ),
            (JdkStage::Remote { url: _ }, Answer::Done { done: Ok(_) }) => Some(
                JdkStage::Extract,
            ),
            (JdkStage::Remote { url }, Answer::Done { done: Err(_) }) => Some(
                JdkStage::Local { url: url.clone() },
            ),
            (JdkStage::Local { url }, Answer::Found { found: Ok(path) }) => Some(
                JdkStage::CheckLocal { url: url.clone(), path },
            ),
            (JdkStage::Local { url }, Answer::Found { found: Err(e) }) => Some(
                fail(url_failure(url.as_str(), "download_local", e)),
            ),
            (JdkStage::CheckLocal { url, path }, Answer::Done { done: Ok(_) }) => Some(
                JdkStage::Send { url: url.clone(), path: path.clone() },
            ),
            (JdkStage::CheckLocal { url, path }, Answer::Done { done: Err(e) }) => Some(
                JdkStage::DropLocal { url: url.clone(), path: path.clone(), reason: e },
            ),
            (JdkStage::DropLocal { url, path: _, reason }, Answer::Done { done: _ }) => Some(
                fail(url_failure(url.as_str(), "download_local", reason.clone())),
            ),
            (JdkStage::Send { url: _, path: _ }, Answer::Done { done: Ok(_) }) => Some(
                JdkStage::Extract,
            ),
            (JdkStage::Send { url, path: _ }, Answer::Done { done: Err(e) }) => Some(
                JdkStage::DropRemote { error: url_failure(url.as_str(), "upload", e) },
            ),
            (JdkStage::DropRemote { error }, Answer::Done { done: _ }) => Some(fail(error.copy())),
            (JdkStage::Extract, Answer::Ran { ran: Ok(out) }) => if out.exit_code == 0 {
                Some(JdkStage::Verify)
            } else {
                Some(JdkStage::DropHome { error: self.extract_error(&out) })
            },
            (JdkStage::Extract, Answer::Ran { ran: Err(e) }) => Some(JdkStage::DropHome { error: e }),
            (JdkStage::DropHome { error }, Answer::Done { done: _ }) => Some(fail(error.copy())),
            (JdkStage::Verify, Answer::Ran { ran: Ok(out) }) => if out.exit_code == 0 {
                Some(self.ready(false, self.home_text(), Bins::Under { home: self.home_text() }))
            } else {
                Some(
                    fail(
                        ProvisionError::new(
                            "provision_failed",
                            "verify",
                            binaries_missing_text(self.base_url.as_str()),
                        ),
                    ),
                )
            },
            (JdkStage::Verify, Answer::Ran { ran: Err(e) }) => Some(fail(e)),
            _ => None,
        };
        if let Some(stage) = next {
            if let Some(p) = probe {
                self.probe = p;
            }
            self.stage = stage;
            self.told = false;
        }
    }
}

/// A container that is built on musl is turned away before anything is looked for, downloaded or
/// copied.
pub proof fn law_musl_is_turned_away(j: JdkEnsure<Seq<char>>, answer: Answer<Seq<char>>)
    requires
        j.stage is CheckMusl,
        j.told,
        answer matches Answer::Ran { ran: Ok(out) } && out.exit_code == 0,
    ensures
        jdk_after(j, answer).stage == jdk_failed(
            package::error("unsupported_libc"@, "musl_check"@, musl_found()),
        ),
        jdk_request(jdk_after(j, answer)) is Finished,
{
}

/// Programs that the container has itself are used as they are: nothing is downloaded or copied.
pub proof fn law_native_programs_suffice(j: JdkEnsure<Seq<char>>, out: Output<Seq<char>>)
    requires
        j.stage is CheckNative,
        j.told,
        out.exit_code == 0,
        text::filled_lines(out.stdout).len() >= 2,
    ensures
        ({
            let after = jdk_after(j, Answer::Ran { ran: Ok(out) });
            let found = text::filled_lines(out.stdout);
            &&& jdk_request(after) is Finished
            &&& after.stage == (JdkStage::<Seq<char>>::Ended {
                result: Ok(
                    jdk_ready(j, true, j.dir, Bins::Native { jcmd: found[0], jstat: found[1] }),
                ),
            })
        }),
{
}

/// A JDK that is in the container is not brought again.
pub proof fn law_jdk_cached(j: JdkEnsure<Seq<char>>, answer: Answer<Seq<char>>)
    requires
        j.stage is CheckCache,
        j.told,
        answer matches Answer::Ran { ran: Ok(out) } && out.exit_code == 0,
    ensures
        jdk_request(jdk_after(j, answer)) is Finished,
        jdk_after(j, answer).stage matches JdkStage::Ended { result: Ok(r) } && r.cached,
{
}

/// A copy or an unpacking that failed, or could not be run, has what it left removed before the
/// way ends in an error.
pub proof fn law_jdk_failure_cleans(
    j: JdkEnsure<Seq<char>>,
    first: Answer<Seq<char>>,
    second: Answer<Seq<char>>,
)
    requires
        ({
            ||| (j.stage is Send && (first matches Answer::Done { done: Err(_) }))
            ||| (j.stage is Extract && j.told && (first matches Answer::Ran { ran } && (
            ran matches Ok(out) ==> out.exit_code != 0)))
        }),
        second is Done,
    ensures
        ({
            let j1 = jdk_after(j, first);
            let j2 = jdk_after(j1, second);
            &&& jdk_request(j1) == (Task::<Seq<char>>::Spawn {
                cmd: if j.stage is Send {
                    drop_tarball(tarball_of(j))
                } else {
                    drop_home(home_of(j))
                },
            })
            &&& j2.stage matches JdkStage::Ended { result: Err(_) }
        }),
{
}

/// A JDK is reported as newly brought only after a verification that found its programs.
pub proof fn law_jdk_success_is_verified(
    j: JdkEnsure<Seq<char>>,
    answer: Answer<Seq<char>>,
    result: ProvisionResult<Seq<char>>,
)
    requires
        j.stage !is Ended,
        jdk_after(j, answer).stage == (JdkStage::<Seq<char>>::Ended { result: Ok(result) }),
        !result.cached,
    ensures
        j.stage is Verify,
        answer matches Answer::Ran { ran: Ok(out) } && out.exit_code == 0,
{
}

/// Wherever the way ends well, the JVM is described as it described itself. The programs are the
/// container's own, in the order in which they were asked for, or lie under the home that is
/// reported, which is the directory for the version of that JVM, and whose programs the last command
/// looked for.
pub proof fn law_reported_programs_were_seen(
    j: JdkEnsure<Seq<char>>,
    answer: Answer<Seq<char>>,
    result: ProvisionResult<Seq<char>>,
)
    requires
        j.stage !is Ended,
        jdk_after(j, answer).stage == (JdkStage::<Seq<char>>::Ended { result: Ok(result) }),
    ensures
        result.tool == "jdk"@,
        result.java_version == j.probe.openjdk_version,
        result.bisheng_version == j.probe.bisheng_version,
        result.arch == j.probe.arch,
        jdk_request(j) matches Task::Run { cmd, secs: _, stage: _ } && match result.bins {
            Bins::Native { jcmd, jstat } => {
                &&& j.stage is CheckNative
                &&& result.cached
                &&& cmd == "command -v jcmd && command -v jstat"@
                &&& answer matches Answer::Ran { ran: Ok(out) } && text::filled_lines(
                    out.stdout,
                ).len() >= 2 && jcmd == text::filled_lines(out.stdout)[0] && jstat
                    == text::filled_lines(out.stdout)[1]
            },
            Bins::Under { home } => {
                &&& j.stage !is CheckNative
                &&& home == result.tool_home
                &&& home == j.dir + "/jdk-"@ + j.probe.openjdk_version
                &&& text::contains(cmd, "test -x "@ + home + "/bin/jcmd"@)
                &&& !result.cached ==> text::contains(cmd, "test -x "@ + home + "/bin/jstat"@)
                &&& answer matches Answer::Ran { ran: Ok(out) } && out.exit_code == 0
            },
            Bins::Nothing => false,
        },
{
    let home = home_of(j);
    assert("mkdir -p "@ + j.dir + " && test -x "@ + home + "/bin/jcmd"@ == cache_check(j.dir, home));
    reveal_strlit(" && test -x ");
    reveal_strlit(" && ");
    reveal_strlit("test -x ");
    reveal_strlit("/bin/jcmd");
    reveal_strlit("/bin/jcmd && test -x ");
    assert(" && test -x "@ =~= " && "@ + "test -x "@);
    let t = "test -x "@ + home + "/bin/jcmd"@;
    let p = "mkdir -p "@ + j.dir + " && "@;
    assert(cache_check(j.dir, home) =~= p + t);
    text::lemma_part(p, t);
    let mid = "/bin/jcmd && test -x "@;
    assert(mid =~= "/bin/jcmd"@ + " && "@ + "test -x "@);
    let u = "test -x "@ + home + "/bin/jstat"@;
    assert(verify(home) =~= t + (" && "@ + u));
    text::lemma_start(t, " && "@ + u);
    text::lemma_contains(Seq::empty(), t, " && "@ + u);
    assert(Seq::<char>::empty() + t + (" && "@ + u) =~= t + (" && "@ + u));
    assert(verify(home) =~= (t + " && "@) + u);
    text::lemma_part(t + " && "@, u);
}

/// Unpacking goes to the directory for tools, unpacks the archive of the version there, moves what
/// it unpacked to the name of the version, removes the archive, and gives the files to the group.
pub proof fn law_unpacking_leaves_the_version(dir: Seq<char>, v: Seq<char>)
    ensures
        text::starts(extract(dir, v), "mkdir -p "@ + dir + " && cd "@ + dir),
        text::contains(extract(dir, v), " && cd "@ + dir + " && tar --no-same-owner -xzf jdk-"@),
        text::contains(extract(dir, v), " && tar --no-same-owner -xzf jdk-"@ + v),
        text::contains(extract(dir, v), " && mv \"$topdir\" jdk-"@ + v + "; fi && rm -f jdk-"@),
        text::contains(extract(dir, v), "; fi && rm -f jdk-"@ + v + ".tar.gz && chgrp -R "@),
        text::contains(extract(dir, v), ".tar.gz && chgrp -R "@ + k8s::OSS_GROUP@ + " jdk-"@),
        text::contains(extract(dir, v), " jdk-"@ + v + " && chmod -R g+rX jdk-"@),
{
    let c0 = "mkdir -p "@;
    let c1 = dir;
    let c2 = " && cd "@;
    let c3 = dir;
    let c4 = " && tar --no-same-owner -xzf jdk-"@;
    let c5 = v;
    let c6 = ".tar.gz && topdir=$(tar -tzf jdk-"@;
    let c7 = v;
    let c8 = ".tar.gz | head -1 | cut -f1 -d'/') && if [ \"$topdir\" != \"jdk-"@;
    let c9 = v;
    let c10 = "\" ] && [ -d \"$topdir\" ]; then rm -rf jdk-"@;
    let c11 = v;
    let c12 = " && mv \"$topdir\" jdk-"@;
    let c13 = v;
    let c14 = "; fi && rm -f jdk-"@;
    let c15 = v;
    let c16 = ".tar.gz && chgrp -R "@;
    let c17 = k8s::OSS_GROUP@;
    let c18 = " jdk-"@;
    let c19 = v;
    let c20 = " && chmod -R g+rX jdk-"@;
    let c21 = v;
    let p0 = c0;
    let p1 = p0 + c1;
    let p2 = p1 + c2;
    let p3 = p2 + c3;
    let p4 = p3 + c4;
    let p5 = p4 + c5;
    let p6 = p5 + c6;
    let p7 = p6 + c7;
    let p8 = p7 + c8;
    let p9 = p8 + c9;
    let p10 = p9 + c10;
    let p11 = p10 + c11;
    let p12 = p11 + c12;
    let p13 = p12 + c13;
    let p14 = p13 + c14;
    let p15 = p14 + c15;
    let p16 = p15 + c16;
    let p17 = p16 + c17;
    let p18 = p17 + c18;
    let p19 = p18 + c19;
    let p20 = p19 + c20;
    let p21 = p20 + c21;
    let t2_5 = c2 + c3 + c4;
    text::lemma_part_of_three(p1, c2, c3, c4);
    text::lemma_part_kept(p4, t2_5, c5);
    text::lemma_part_kept(p5, t2_5, c6);
    text::lemma_part_kept(p6, t2_5, c7);
    text::lemma_part_kept(p7, t2_5, c8);
    text::lemma_part_kept(p8, t2_5, c9);
    text::lemma_part_kept(p9, t2_5, c10);
    text::lemma_part_kept(p10, t2_5, c11);
    text::lemma_part_kept(p11, t2_5, c12);
    text::lemma_part_kept(p12, t2_5, c13);
    text::lemma_part_kept(p13, t2_5, c14);
    text::lemma_part_kept(p14, t2_5, c15);
    text::lemma_part_kept(p15, t2_5, c16);
    text::lemma_part_kept(p16, t2_5, c17);
    text::lemma_part_kept(p17, t2_5, c18);
    text::lemma_part_kept(p18, t2_5, c19);
    text::lemma_part_kept(p19, t2_5, c20);
    text::lemma_part_kept(p20, t2_5, c21);
    let t4_6 = c4 + c5;
    text::lemma_part_of_two(p3, c4, c5);
    text::lemma_part_kept(p5, t4_6, c6);
    text::lemma_part_kept(p6, t4_6, c7);
    text::lemma_part_kept(p7, t4_6, c8);
    text::lemma_part_kept(p8, t4_6, c9);
    text::lemma_part_kept(p9, t4_6, c10);
    text::lemma_part_kept(p10, t4_6, c11);
    text::lemma_part_kept(p11, t4_6, c12);
    text::lemma_part_kept(p12, t4_6, c13);
    text::lemma_part_kept(p13, t4_6, c14);
    text::lemma_part_kept(p14, t4_6, c15);
    text::lemma_part_kept(p15, t4_6, c16);
    text::lemma_part_kept(p16, t4_6, c17);
    text::lemma_part_kept(p17, t4_6, c18);
    text::lemma_part_kept(p18, t4_6, c19);
    text::lemma_part_kept(p19, t4_6, c20);
    text::lemma_part_kept(p20, t4_6, c21);
    let t12_15 = c12 + c13 + c14;
    text::lemma_part_of_three(p11, c12, c13, c14);
    text::lemma_part_kept(p14, t12_15, c15);
    text::lemma_part_kept(p15, t12_15, c16);
    text::lemma_part_kept(p16, t12_15, c17);
    text::lemma_part_kept(p17, t12_15, c18);
    text::lemma_part_kept(p18, t12_15, c19);
    text::lemma_part_kept(p19, t12_15, c20);
    text::lemma_part_kept(p20, t12_15, c21);
    let t14_17 = c14 + c15 + c16;
    text::lemma_part_of_three(p13, c14, c15, c16);
    text::lemma_part_kept(p16, t14_17, c17);
    text::lemma_part_kept(p17, t14_17, c18);
    text::lemma_part_kept(p18, t14_17, c19);
    text::lemma_part_kept(p19, t14_17, c20);
    text::lemma_part_kept(p20, t14_17, c21);
    let t16_19 = c16 + c17 + c18;
    text::lemma_part_of_three(p15, c16, c17, c18);
    text::lemma_part_kept(p18, t16_19, c19);
    text::lemma_part_kept(p19, t16_19, c20);
    text::lemma_part_kept(p20, t16_19, c21);
    let t18_21 = c18 + c19 + c20;
    text::lemma_part_of_three(p17, c18, c19, c20);
    text::lemma_part_kept(p20, t18_21, c21);
    text::lemma_start(p3, c4);
    text::lemma_start_kept(p4, p3, c5);
    text::lemma_start_kept(p5, p3, c6);
    text::lemma_start_kept(p6, p3, c7);
    text::lemma_start_kept(p7, p3, c8);
    text::lemma_start_kept(p8, p3, c9);
    text::lemma_start_kept(p9, p3, c10);
    text::lemma_start_kept(p10, p3, c11);
    text::lemma_start_kept(p11, p3, c12);
    text::lemma_start_kept(p12, p3, c13);
    text::lemma_start_kept(p13, p3, c14);
    text::lemma_start_kept(p14, p3, c15);
    text::lemma_start_kept(p15, p3, c16);
    text::lemma_start_kept(p16, p3, c17);
    text::lemma_start_kept(p17, p3, c18);
    text::lemma_start_kept(p18, p3, c19);
    text::lemma_start_kept(p19, p3, c20);
    text::lemma_start_kept(p20, p3, c21);
}

/// The way of a JDK that the container lacks: the JVM is asked, the container is found not to be
/// built on musl, to lack the programs and to lack the JDK; the archive for the JVM is downloaded
/// to its name, unpacked, and its programs are looked for. What is reported is that JDK.
pub proof fn law_way_of_a_missing_jdk(
    j: JdkEnsure<Seq<char>>,
    probe: JvmProbe<Seq<char>>,
    url: Seq<char>,
    no: Output<Seq<char>>,
    yes: Output<Seq<char>>,
)
    requires
        j.stage is Probe,
        no.exit_code != 0,
        yes.exit_code == 0,
    ensures
        ({
            let told = Answer::<Seq<char>>::Done { done: Ok(()) };
            let lacking = Answer::Ran { ran: Ok(no) };
            let well = Answer::Ran { ran: Ok(yes) };
            let j1 = jdk_after(j, Answer::Probed { probed: Ok(probe) });
            let j2 = jdk_after(jdk_after(j1, told), lacking);
            let j3 = jdk_after(jdk_after(j2, told), lacking);
            let j4 = jdk_after(jdk_after(j3, told), lacking);
            let j5 = jdk_after(j4, Answer::Found { found: Ok(url) });
            let j6 = jdk_after(jdk_after(j5, told), told);
            let j7 = jdk_after(jdk_after(j6, told), well);
            let j8 = jdk_after(jdk_after(j7, told), well);
            let v = probe.openjdk_version;
            &&& jdk_request(j) == (Task::<Seq<char>>::Probe { java_bin: j.java_bin })
            &&& jdk_request(jdk_after(j1, told)) == (Task::<Seq<char>>::Run {
                cmd: "test -f "@ + "/lib/ld-musl-x86_64.so.1"@,
                secs: j.timeouts.probe,
                stage: "musl_check"@,
            })
            &&& jdk_request(jdk_after(j2, told)) == (Task::<Seq<char>>::Run {
                cmd: "command -v jcmd && command -v jstat"@,
                secs: j.timeouts.probe,
                stage: "check_native"@,
            })
            &&& jdk_request(jdk_after(j3, told)) == (Task::<Seq<char>>::Run {
                cmd: "mkdir -p "@ + j.dir + " && test -x "@ + (j.dir + "/jdk-"@ + v) + "/bin/jcmd"@,
                secs: j.timeouts.probe,
                stage: "check_cache"@,
            })
            &&& jdk_request(j4) == Task::<Seq<char>>::ResolveUrl
            &&& jdk_request(jdk_after(j5, told)) == (Task::<Seq<char>>::RemoteDownload {
                url,
                dest: j.dir + "/jdk-"@ + v + ".tar.gz"@,
            })
            &&& jdk_request(jdk_after(j6, told)) matches Task::Run { cmd, secs, stage } && secs
                == j.timeouts.extract && stage == "extract"@ && cmd == extract(j.dir, v)
            &&& jdk_request(jdk_after(j7, told)) == (Task::<Seq<char>>::Run {
                cmd: "test -x "@ + (j.dir + "/jdk-"@ + v) + "/bin/jcmd && test -x "@ + (j.dir
                    + "/jdk-"@ + v) + "/bin/jstat"@,
                secs: j.timeouts.verify,
                stage: "verify"@,
            })
            &&& jdk_request(j8) is Finished
            &&& j8.stage == (JdkStage::<Seq<char>>::Ended {
                result: Ok(
                    ProvisionResult {
                        tool: "jdk"@,
                        cached: false,
                        java_version: v,
                        bisheng_version: probe.bisheng_version,
                        arch: probe.arch,
                        tool_home: j.dir + "/jdk-"@ + v,
                        bins: Bins::Under { home: j.dir + "/jdk-"@ + v },
                    },
                ),
            })
        }),
{
}

/// Where the container cannot download the archive, this machine does: it is checked for its least
/// size, copied to the place where it is unpacked, and then unpacked as if it had been downloaded.
pub proof fn law_way_over_this_machine(
    j: JdkEnsure<Seq<char>>,
    url: Seq<char>,
    path: Seq<char>,
    reason: Seq<char>,
)
    requires
        j.stage == (JdkStage::<Seq<char>>::Remote { url }),
        j.told,
    ensures
        ({
            let told = Answer::<Seq<char>>::Done { done: Ok(()) };
            let j1 = jdk_after(j, Answer::Done { done: Err(reason) });
            let j2 = jdk_after(jdk_after(j1, told), Answer::Found { found: Ok(path) });
            let j3 = jdk_after(j2, told);
            let j4 = jdk_after(j3, told);
            &&& jdk_request(jdk_after(j1, told)) == (Task::<Seq<char>>::LocalDownload { url })
            &&& jdk_request(j2) == (Task::<Seq<char>>::CheckFile { path, min_bytes: 52428800 })
            &&& jdk_request(j3) == (Task::<Seq<char>>::Upload {
                local: path,
                remote: j.dir + "/jdk-"@ + j.probe.openjdk_version + ".tar.gz"@,
            })
            &&& j4 == jdk_after(j, told)
            &&& j4.stage is Extract
        }),
{
}

/// How the way ends in failure: with the code and the stage of the step that failed, and with what
/// that step said. What belongs to an address names it.
pub proof fn law_jdk_failures(
    j: JdkEnsure<Seq<char>>,
    url: Seq<char>,
    path: Seq<char>,
    e: Seq<char>,
    out: Output<Seq<char>>,
    lost: ProvisionError<Seq<char>>,
    done: Result<(), Seq<char>>,
)
    requires
        j.told,
        out.exit_code != 0,
    ensures
        ({
            let said = Answer::<Seq<char>>::Found { found: Err(e) };
            let failed = Answer::<Seq<char>>::Done { done: Err(e) };
            let ended = Answer::<Seq<char>>::Done { done };
            let bad = Answer::Ran { ran: Ok(out) };
            let gone = Answer::Ran { ran: Err(lost) };
            let after = jdk_after(j, said);
            &&& j.stage is Probe ==> fails_with(
                jdk_after(j, Answer::Probed { probed: Err(lost) }),
                lost,
            )
            &&& j.stage is CheckMusl || j.stage is CheckNative || j.stage is CheckCache || j.stage
                is Verify ==> fails_with(jdk_after(j, gone), lost)
            &&& j.stage is Resolve ==> fails_with(
                after,
                ProvisionError {
                    code: "parse_failed"@,
                    stage: "resolve_url"@,
                    message: e,
                    url: None,
                },
            )
            &&& j.stage == (JdkStage::<Seq<char>>::Local { url }) ==> fails_with(
                after,
                ProvisionError {
                    code: "provision_failed"@,
                    stage: "download_local"@,
                    message: e,
                    url: Some(url),
                },
            )
            &&& j.stage == (JdkStage::<Seq<char>>::CheckLocal { url, path }) ==> {
                let next = jdk_after(j, failed);
                &&& jdk_request(next) == (Task::<Seq<char>>::DeleteLocal { path })
                &&& fails_with(
                    jdk_after(next, ended),
                    ProvisionError {
                        code: "provision_failed"@,
                        stage: "download_local"@,
                        message: e,
                        url: Some(url),
                    },
                )
            }
            &&& j.stage == (JdkStage::<Seq<char>>::Send { url, path }) ==> {
                let next = jdk_after(j, failed);
                &&& jdk_request(next) == (Task::<Seq<char>>::Spawn {
                    cmd: "rm -f "@ + (j.dir + "/jdk-"@ + j.probe.openjdk_version + ".tar.gz"@),
                })
                &&& fails_with(
                    jdk_after(next, ended),
                    ProvisionError {
                        code: "provision_failed"@,
                        stage: "upload"@,
                        message: e,
                        url: Some(url),
                    },
                )
            }
            &&& j.stage is Extract ==> {
                let next = jdk_after(j, bad);
                &&& jdk_request(next) == (Task::<Seq<char>>::Spawn {
                    cmd: "rm -rf "@ + (j.dir + "/jdk-"@ + j.probe.openjdk_version),
                })
                &&& jdk_after(next, ended).stage matches JdkStage::Ended { result: Err(error) }
                    && error.code == "provision_failed"@ && error.stage == (if text::contains(
                    out.stderr,
                    "chgrp"@,
                ) || text::contains(out.stderr, "Operation not permitted"@) {
                    "ownership"@
                } else {
                    "extract"@
                }) && error.message == "tar/chgrp failed (exit "@ + text::signed_dec(
                    out.exit_code as int,
                ) + "): "@ + out.stderr
                &&& fails_with(jdk_after(jdk_after(j, gone), ended), lost)
            }
            &&& j.stage is Verify ==> fails_with(
                jdk_after(j, bad),
                ProvisionError {
                    code: "provision_failed"@,
                    stage: "verify"@,
                    message: "jdk binaries missing after extract; check artifactory base url setting ("@
                        + j.base_url + ")"@,
                    url: None,
                },
            )
        }),
{
}

/// Whether the way ended in an error.
pub open spec fn fails_with(j: JdkEnsure<Seq<char>>, e: ProvisionError<Seq<char>>) -> bool {
    j.stage matches JdkStage::Ended { result: Err(error) } && error == e
}

/// An ended way stays as it is.
pub proof fn law_jdk_end_is_final(j: JdkEnsure<Seq<char>>, answer: Answer<Seq<char>>)
    requires
        j.stage is Ended,
    ensures
        jdk_after(j, answer) == j,
        jdk_request(j) is Finished,
{
}

/// The way to a JDK begins by looking at the JVM with the java that it was given, and keeps what it
/// was told: the tool, the directory, the mirror and the times.
pub proof fn law_way_to_a_jdk_begins(
    tool: Seq<char>,
    dir: Seq<char>,
    base_url: Seq<char>,
    java_bin: Seq<char>,
    timeouts: StageTimeouts,
)
    ensures
        ({
            let j = jdk_start(tool, dir, base_url, java_bin, timeouts);
            &&& jdk_request(j) == (Task::<Seq<char>>::Probe { java_bin })
            &&& j.tool == tool && j.dir == dir && j.base_url == base_url && j.timeouts == timeouts
        }),
{
}

/// Each stage of the way to a JDK is told of by its name, with what it is about.
pub proof fn law_jdk_stages_are_told(j: JdkEnsure<Seq<char>>)
    ensures
        j.stage is CheckMusl ==> (jdk_notice(j) matches Some((stage, _)) && stage == "musl_check"@),
        j.stage is CheckNative ==> (jdk_notice(j) matches Some((stage, _)) && stage
            == "check_native"@),
        j.stage is CheckCache ==> (jdk_notice(j) matches Some((stage, detail)) && stage
            == "check_cache"@ && text::contains(detail, home_of(j))),
        j.stage is Remote || j.stage is Local ==> (jdk_notice(j) matches Some((stage, _)) && stage
            == "download"@),
        j.stage is Extract ==> (jdk_notice(j) matches Some((stage, detail)) && stage == "extract"@
            && text::contains(detail, tarball_of(j))),
        j.stage is Verify ==> (jdk_notice(j) matches Some((stage, detail)) && stage == "verify"@
            && text::contains(detail, home_of(j))),
{
    let home = home_of(j);
    let c0 = "checking "@;
    let c1 = home;
    let c2 = "/bin/jcmd"@;
    let p0 = c0;
    let p1 = p0 + c1;
    let p2 = p1 + c2;
    let t1_2 = c1;
    text::lemma_part(p0, c1);
    text::lemma_part_kept(p1, t1_2, c2);
    let c0 = "extracting "@;
    let c1 = tarball_of(j);
    let p0 = c0;
    let p1 = p0 + c1;
    let t1_2 = c1;
    text::lemma_part(p0, c1);
    let c0 = "verifying "@;
    let c1 = home;
    let c2 = "/bin/jcmd"@;
    let p0 = c0;
    let p1 = p0 + c1;
    let p2 = p1 + c2;
    let t1_2 = c1;
    text::lemma_part(p0, c1);
    text::lemma_part_kept(p1, t1_2, c2);
}

/// A stage that the user is told of is told of as soon as it is reached.
pub proof fn law_reached_stage_is_told(j: JdkEnsure<Seq<char>>, answer: Answer<Seq<char>>)
    requires
        jdk_notice(j) is None || j.told,
        jdk_after(j, answer).stage != j.stage,
    ensures
        ({
            let k = jdk_after(j, answer);
            jdk_notice(k) matches Some((name, detail)) ==> jdk_request(k) == (Task::<
                Seq<char>,
            >::Progress { tool: k.tool, stage: name, detail })
        }),
{
}

} // verus!
