//! The tool that starts a recording.

use vstd::prelude::*;

use crate::exec::k8s;
use crate::exec::k8s::POD_DUMP_DIR;
use crate::exec::pool;
use crate::exec::pool::TargetKey;
use crate::flow;
use crate::flow::Output;
use crate::ids;
use crate::json;
use crate::json::Json;
use crate::text;
use crate::tools::call::{Answer, Ask};
use crate::tools::jfr::mapping;
use crate::tools::jfr::recordings;
use crate::tools::jfr::recordings::{Recording, RecordingPhase, RecordingRegistry};
use crate::tools::output;
use crate::tools::output::{Offer, RiskLevel, Shown, ToolCategory, ToolDef, ToolOutput};

verus! {

/// How long the start of a recording may take, in seconds.
pub const RECORD_START_TIMEOUT_SECS: u64 = 60;

/// How long it may take to ask after a recording, in seconds.
pub const RECORD_CHECK_TIMEOUT_SECS: u64 = 30;

/// The name of the tool.
pub const RECORD_TOOL: &'static str = "jfr_record";

// ---------------------------------------------------------------------------------------------
// Commands and messages
// ---------------------------------------------------------------------------------------------

/// The size that the command printed; zero where it did not print one.
pub open spec fn printed_size(out: Output<Seq<char>>) -> nat {
    if out.exit_code == 0 {
        match text::parse_uint(text::trimmed(out.stdout), u64::MAX as nat) {
            Some(n) => n,
            None => 0,
        }
    } else {
        0
    }
}

/// The size that the command printed; zero where it did not print one.
pub fn parse_size(out: &Output<String>) -> (r: u64)
    ensures
        r == printed_size(out@),
{
    if out.exit_code == 0 {
        match text::parse_number(text::trim(out.stdout.as_str()).as_str(), u64::MAX) {
            Some(n) => n,
            None => 0,
        }
    } else {
        0
    }
}

pub open spec fn recording_name(ts: u64) -> Seq<char> {
    "friday-"@ + text::dec(ts as nat)
}

fn recording_name_text(ts: u64) -> (r: String)
    ensures
        r@ == recording_name(ts),
{
    "friday-".to_owned().concat(text::u64_text(ts).as_str())
}

pub open spec fn local_file(pid: u32, ts: u64) -> Seq<char> {
    "recording-"@ + text::dec(pid as nat) + "-"@ + text::dec(ts as nat) + ".jfr"@
}

fn local_file_text(pid: u32, ts: u64) -> (r: String)
    ensures
        r@ == local_file(pid, ts),
{
    "recording-".to_owned()
        .concat(text::u64_text(pid as u64).as_str())
        .concat("-")
        .concat(text::u64_text(ts).as_str())
        .concat(".jfr")
}

pub open spec fn pod_file(pid: u32, ts: u64) -> Seq<char> {
    POD_DUMP_DIR@ + "/friday-recording-"@ + text::dec(pid as nat) + "-"@ + text::dec(ts as nat)
        + ".jfr"@
}

fn pod_file_text(pid: u32, ts: u64) -> (r: String)
    ensures
        r@ == pod_file(pid, ts),
{
    POD_DUMP_DIR.to_owned()
        .concat("/friday-recording-")
        .concat(text::u64_text(pid as u64).as_str())
        .concat("-")
        .concat(text::u64_text(ts).as_str())
        .concat(".jfr")
}

pub open spec fn host_file(pid: u32, ts: u64) -> Seq<char> {
    "/tmp/friday-tools/recording-"@ + text::dec(pid as nat) + "-"@ + text::dec(ts as nat)
        + ".jfr"@
}

fn host_file_text(pid: u32, ts: u64) -> (r: String)
    ensures
        r@ == host_file(pid, ts),
{
    "/tmp/friday-tools/recording-".to_owned()
        .concat(text::u64_text(pid as u64).as_str())
        .concat("-")
        .concat(text::u64_text(ts).as_str())
        .concat(".jfr")
}

pub open spec fn starting(duration: u32, settings: Seq<char>) -> Seq<char> {
    "JFR 录制启动中（"@ + text::dec(duration as nat) + "s，settings="@ + settings + "）…"@
}

fn starting_text(duration: u32, settings: &str) -> (r: String)
    ensures
        r@ == starting(duration, settings@),
{
    "JFR 录制启动中（".to_owned()
        .concat(text::u64_text(duration as u64).as_str())
        .concat("s，settings=")
        .concat(settings)
        .concat("）…")
}

pub open spec fn started(duration: u32) -> Seq<char> {
    "JFR 录制已启动（"@ + text::dec(duration as nat) + "s），后台等待落盘（轮询 jfr_record_status）"@
}

fn started_text(duration: u32) -> (r: String)
    ensures
        r@ == started(duration),
{
    "JFR 录制已启动（".to_owned()
        .concat(text::u64_text(duration as u64).as_str())
        .concat("s），后台等待落盘（轮询 jfr_record_status）")
}

pub open spec fn start_timeout(secs: u64) -> Seq<char> {
    "JFR.start 超时（"@ + text::dec(secs as nat) + "s）；ssh 连接已断开"@
}

fn start_timeout_text(secs: u64) -> (r: String)
    ensures
        r@ == start_timeout(secs),
{
    "JFR.start 超时（".to_owned().concat(text::u64_text(secs).as_str()).concat("s）；ssh 连接已断开")
}

pub open spec fn check_timeout(secs: u64, path: Seq<char>) -> Seq<char> {
    "JFR.check 校验超时（"@ + text::dec(secs as nat) + "s）；ssh 连接已断开，录制状态未知（远端预期路径 "@ + path + "）"@
}

fn check_timeout_text(secs: u64, path: &str) -> (r: String)
    ensures
        r@ == check_timeout(secs, path@),
{
    "JFR.check 校验超时（".to_owned()
        .concat(text::u64_text(secs).as_str())
        .concat("s）；ssh 连接已断开，录制状态未知（远端预期路径 ")
        .concat(path)
        .concat("）")
}

pub open spec fn check_failed(e: Seq<char>, path: Seq<char>) -> Seq<char> {
    "JFR.check 校验执行失败："@ + e + "。录制可能已在运行（远端预期路径 "@ + path + "），可稍后用 file_download 手动拉回"@
}

fn check_failed_text(e: &str, path: &str) -> (r: String)
    ensures
        r@ == check_failed(e@, path@),
{
    "JFR.check 校验执行失败：".to_owned()
        .concat(e)
        .concat("。录制可能已在运行（远端预期路径 ")
        .concat(path)
        .concat("），可稍后用 file_download 手动拉回")
}

pub open spec fn unverified(path: Seq<char>) -> Seq<char> {
    "JFR.start 返回成功，但 JFR.check 未确认录制在运行（JVM 侧可能静默失败）。远端预期路径："@ + path + "。"@
}

fn unverified_text(path: &str) -> (r: String)
    ensures
        r@ == unverified(path@),
{
    "JFR.start 返回成功，但 JFR.check 未确认录制在运行（JVM 侧可能静默失败）。远端预期路径：".to_owned()
        .concat(path)
        .concat("。")
}

// ---------------------------------------------------------------------------------------------
// A call
// ---------------------------------------------------------------------------------------------

/// What a call came to.
#[derive(Debug, PartialEq, Eq)]
pub enum RecordOutcome<S> {
    /// It was refused or failed.
    Refused { code: S, message: S },
    /// There is a running recording of the process already.
    Duplicate { existing: S },
    /// The JVM did not start the recording.
    StartFailed { out: Output<S> },
    /// The JVM does not run the recording.
    Unverified { path: S, check: Output<S>, start_stdout: S },
    /// The recording runs.
    Started { recording: Recording<S>, secs: u64, start_stdout: S },
}

/// Where a call stands.
#[derive(Debug, PartialEq, Eq)]
pub enum RecordStage<S> {
    /// Find the environment.
    Resolve,
    /// Does the target fit it?
    Fit,
    /// Find the program that starts recordings.
    FindJcmd,
    /// Is there a running recording of the process?
    FindActive,
    /// What time is it?
    Clock,
    /// Where will the recording be kept?
    Place,
    /// Tell of the start.
    TellStart,
    /// Start the recording.
    Start,
    /// Drop the channel of a start that did not end.
    KillStart,
    /// Is the JDK still there?
    Judge { out: Output<S> },
    /// Forget the JDK.
    Forget,
    /// Ask after the recording.
    Verify,
    /// Drop the channel of a question that did not end.
    KillVerify,
    /// Was the recording written already?
    Stat { check: Output<S> },
    /// How many bytes does the file have, in a container without `stat`?
    Count { check: Output<S> },
    /// When was the recording started?
    Stamp,
    /// Add the recording.
    Register { created_at: u64 },
    /// Tell that it runs.
    TellStarted { created_at: u64 },
    /// It is over.
    Ended { outcome: RecordOutcome<S> },
}

/// A call of the tool that starts a recording.
#[derive(Debug, PartialEq, Eq)]
pub struct JfrRecordHandler<S> {
    pub session_id: S,
    pub environment: S,
    pub pid: u32,
    pub pod: Option<S>,
    pub namespace: Option<S>,
    pub container: Option<S>,
    pub duration_secs: u32,
    pub settings: S,
    pub disk: bool,
    /// How long the recording is waited for.
    pub secs: u64,
    /// The name that the recording is followed by.
    pub id: S,
    /// The environment, once it is known.
    pub env_id: S,
    /// The program that starts recordings, once it is known.
    pub jcmd: S,
    /// When the call was made, once it is known.
    pub ts: u64,
    /// Where the recording is fetched to, once it is known.
    pub local_path: S,
    /// What the start printed, once it ran.
    pub start_stdout: S,
    pub stage: RecordStage<S>,
}

impl View for RecordOutcome<String> {
    type V = RecordOutcome<Seq<char>>;

    open spec fn view(&self) -> RecordOutcome<Seq<char>> {
        match *self {
            RecordOutcome::Refused { code, message } => RecordOutcome::Refused {
                code: code@,
                message: message@,
            },
            RecordOutcome::Duplicate { existing } => RecordOutcome::Duplicate {
                existing: existing@,
            },
            RecordOutcome::StartFailed { out } => RecordOutcome::StartFailed { out: out@ },
            RecordOutcome::Unverified { path, check, start_stdout } => RecordOutcome::Unverified {
                path: path@,
                check: check@,
                start_stdout: start_stdout@,
            },
            RecordOutcome::Started { recording, secs, start_stdout } => RecordOutcome::Started {
                recording: recording@,
                secs,
                start_stdout: start_stdout@,
            },
        }
    }
}

impl View for RecordStage<String> {
    type V = RecordStage<Seq<char>>;

    open spec fn view(&self) -> RecordStage<Seq<char>> {
        match *self {
            RecordStage::Resolve => RecordStage::Resolve,
            RecordStage::Fit => RecordStage::Fit,
            RecordStage::FindJcmd => RecordStage::FindJcmd,
            RecordStage::FindActive => RecordStage::FindActive,
            RecordStage::Clock => RecordStage::Clock,
            RecordStage::Place => RecordStage::Place,
            RecordStage::TellStart => RecordStage::TellStart,
            RecordStage::Start => RecordStage::Start,
            RecordStage::KillStart => RecordStage::KillStart,
            RecordStage::Judge { out } => RecordStage::Judge { out: out@ },
            RecordStage::Forget => RecordStage::Forget,
            RecordStage::Verify => RecordStage::Verify,
            RecordStage::KillVerify => RecordStage::KillVerify,
            RecordStage::Stat { check } => RecordStage::Stat { check: check@ },
            RecordStage::Count { check } => RecordStage::Count { check: check@ },
            RecordStage::Stamp => RecordStage::Stamp,
            RecordStage::Register { created_at } => RecordStage::Register { created_at },
            RecordStage::TellStarted { created_at } => RecordStage::TellStarted { created_at },
            RecordStage::Ended { outcome } => RecordStage::Ended { outcome: outcome@ },
        }
    }
}

impl View for JfrRecordHandler<String> {
    type V = JfrRecordHandler<Seq<char>>;

    open spec fn view(&self) -> JfrRecordHandler<Seq<char>> {
        JfrRecordHandler {
            session_id: self.session_id@,
            environment: self.environment@,
            pid: self.pid,
            pod: text::opt(self.pod),
            namespace: text::opt(self.namespace),
            container: text::opt(self.container),
            duration_secs: self.duration_secs,
            settings: self.settings@,
            disk: self.disk,
            secs: self.secs,
            id: self.id@,
            env_id: self.env_id@,
            jcmd: self.jcmd@,
            ts: self.ts,
            local_path: self.local_path@,
            start_stdout: self.start_stdout@,
            stage: self.stage@,
        }
    }
}

/// A refusal.
pub open spec fn refused(code: Seq<char>, message: Seq<char>) -> RecordStage<Seq<char>> {
    RecordStage::Ended { outcome: RecordOutcome::Refused { code, message } }
}

/// Why arguments are refused, where they are.
pub open spec fn args_refused(args: Json) -> Option<Seq<char>> {
    if json::text_of(json::member(args, "environment"@)) is None {
        Some("missing required parameter: environment"@)
    } else if output::pid_of(json::member(args, "pid"@)) is None {
        Some("pid 必须是正整数字符串"@)
    } else {
        match mapping::record_params(args) {
            Err(e) => Some(e),
            Ok(_) => if mapping::record_disk(
                json::member(args, "disk"@),
                output::filled_arg(args, "pod"@) is Some,
            ) is None {
                Some("disk 必须是布尔值（true/false）"@)
            } else {
                None
            },
        }
    }
}

/// The call that arguments ask for, in a session.
pub open spec fn record_start(args: Json, session_id: Seq<char>, id: Seq<char>) -> JfrRecordHandler<
    Seq<char>,
> {
    let pod = output::filled_arg(args, "pod"@);
    let params = mapping::record_params(args);
    let duration = match params {
        Ok((d, _)) => d as u32,
        Err(_) => 0,
    };
    JfrRecordHandler {
        session_id,
        environment: match json::text_of(json::member(args, "environment"@)) {
            Some(e) => e,
            None => Seq::empty(),
        },
        pid: match output::pid_of(json::member(args, "pid"@)) {
            Some(p) => p as u32,
            None => 0,
        },
        pod,
        namespace: output::filled_arg(args, "namespace"@),
        container: output::filled_arg(args, "container"@),
        duration_secs: duration,
        settings: match params {
            Ok((_, s)) => s,
            Err(_) => Seq::empty(),
        },
        disk: match mapping::record_disk(json::member(args, "disk"@), pod is Some) {
            Some(b) => b,
            None => false,
        },
        secs: mapping::record_timeout(
            match json::int_of(json::member(args, "timeout_secs"@)) {
                Some(t) => Some(t as i64),
                None => None,
            },
            duration,
        ) as u64,
        id,
        env_id: Seq::empty(),
        jcmd: Seq::empty(),
        ts: 0,
        local_path: Seq::empty(),
        start_stdout: Seq::empty(),
        stage: match args_refused(args) {
            Some(e) => refused("invalid_args"@, e),
            None => RecordStage::Resolve,
        },
    }
}

/// Where the recording is written at the target: on the volume for dumps in a container, where
/// the local disk may be small.
pub open spec fn remote_path(c: JfrRecordHandler<Seq<char>>) -> Seq<char> {
    if c.pod is Some {
        pod_file(c.pid, c.ts)
    } else {
        host_file(c.pid, c.ts)
    }
}

/// The command that starts the recording.
pub open spec fn start_command(c: JfrRecordHandler<Seq<char>>) -> Seq<char> {
    mapping::jfr_start(
        c.jcmd,
        c.pid,
        recording_name(c.ts),
        c.duration_secs,
        c.settings,
        c.disk,
        remote_path(c),
    )
}

/// The command that asks after the recording.
pub open spec fn verify_command(c: JfrRecordHandler<Seq<char>>) -> Seq<char> {
    mapping::jfr_check(c.jcmd, c.pid, recording_name(c.ts))
}

/// The recording that a call starts.
pub open spec fn new_recording(c: JfrRecordHandler<Seq<char>>, created_at: u64) -> Recording<
    Seq<char>,
> {
    Recording {
        id: c.id,
        session_id: c.session_id,
        env_id: c.env_id,
        pid: c.pid,
        name: recording_name(c.ts),
        pod: c.pod,
        namespace: c.namespace,
        container: c.container,
        remote_path: remote_path(c),
        local_path: c.local_path,
        duration_secs: c.duration_secs,
        settings: c.settings,
        phase: RecordingPhase::Recording,
        transfer_id: None,
        remote_size: None,
        error_code: None,
        error: None,
        created_at,
    }
}

/// What a call asks for where it stands.
pub open spec fn record_request(c: JfrRecordHandler<Seq<char>>) -> Ask<Seq<char>> {
    match c.stage {
        RecordStage::Resolve => Ask::Resolve {
            environment: c.environment,
            pod: c.pod,
            namespace: c.namespace,
            container: c.container,
        },
        RecordStage::Fit => Ask::CheckTarget {
            pod: c.pod,
            namespace: c.namespace,
            container: c.container,
        },
        RecordStage::FindJcmd => Ask::FindJcmd,
        RecordStage::FindActive => Ask::FindActive { pid: c.pid },
        RecordStage::Clock => Ask::Clock,
        RecordStage::Place => Ask::LocalPath { file: local_file(c.pid, c.ts) },
        RecordStage::TellStart => Ask::Tell {
            tool: RECORD_TOOL@,
            stage: "record"@,
            detail: starting(c.duration_secs, c.settings),
        },
        RecordStage::Start => Ask::Run {
            cmd: start_command(c),
            secs: Some(RECORD_START_TIMEOUT_SECS),
        },
        RecordStage::KillStart => Ask::DropAndKill { cmd: start_command(c) },
        RecordStage::Judge { out } => Ask::IsJdkGone {
            exit_code: out.exit_code,
            stderr: out.stderr,
        },
        RecordStage::Forget => Ask::ForgetJdk,
        RecordStage::Verify => Ask::Run {
            cmd: verify_command(c),
            secs: Some(RECORD_CHECK_TIMEOUT_SECS),
        },
        RecordStage::KillVerify => Ask::DropAndKill { cmd: verify_command(c) },
        RecordStage::Stat { check } => Ask::Run { cmd: k8s::stat_command(remote_path(c)), secs: None },
        RecordStage::Count { check } => Ask::Run {
            cmd: k8s::count_command(remote_path(c)),
            secs: None,
        },
        RecordStage::Stamp => Ask::Stamp,
        RecordStage::Register { created_at } => Ask::Register {
            recording: new_recording(c, created_at),
            secs: c.secs,
        },
        RecordStage::TellStarted { created_at } => Ask::Tell {
            tool: RECORD_TOOL@,
            stage: "record"@,
            detail: started(c.duration_secs),
        },
        RecordStage::Ended { outcome } => Ask::Finished,
    }
}

/// A call that goes on in a stage.
pub open spec fn record_goto(
    c: JfrRecordHandler<Seq<char>>,
    stage: RecordStage<Seq<char>>,
) -> JfrRecordHandler<Seq<char>> {
    JfrRecordHandler { stage, ..c }
}

/// Where a start that ran leads, once it is known whether the JDK is gone.
pub open spec fn record_judged(
    c: JfrRecordHandler<Seq<char>>,
    out: Output<Seq<char>>,
    gone: bool,
) -> JfrRecordHandler<Seq<char>> {
    if gone {
        record_goto(c, RecordStage::Forget)
    } else if out.exit_code != 0 {
        record_goto(c, RecordStage::Ended { outcome: RecordOutcome::StartFailed { out } })
    } else {
        JfrRecordHandler { start_stdout: out.stdout, stage: RecordStage::Verify, ..c }
    }
}

/// Where a look at the file of a recording leads that is not known to run.
pub open spec fn record_looked(
    c: JfrRecordHandler<Seq<char>>,
    check: Output<Seq<char>>,
    ran: Result<Output<Seq<char>>, Seq<char>>,
) -> JfrRecordHandler<Seq<char>> {
    if ran matches Ok(out) && printed_size(out) > 0 {
        record_goto(c, RecordStage::Stamp)
    } else {
        record_goto(
            c,
            RecordStage::Ended {
                outcome: RecordOutcome::Unverified {
                    path: remote_path(c),
                    check,
                    start_stdout: c.start_stdout,
                },
            },
        )
    }
}

/// The call after an answer.
pub open spec fn record_after(
    c: JfrRecordHandler<Seq<char>>,
    answer: Answer<Seq<char>>,
) -> JfrRecordHandler<Seq<char>> {
    match (c.stage, answer) {
        (RecordStage::Resolve, Answer::Resolved { resolved }) => match resolved {
            Ok(Some(env_id)) => JfrRecordHandler { env_id, stage: RecordStage::Fit, ..c },
            Ok(None) => record_goto(
                c,
                refused(
                    "environment_not_found"@,
                    output::unknown_environment(c.environment),
                ),
            ),
            Err(e) => record_goto(c, refused("connection_error"@, e)),
        },
        (RecordStage::Fit, Answer::Checked { checked }) => match checked {
            Ok(_) => record_goto(c, RecordStage::FindJcmd),
            Err(e) => record_goto(c, refused("environment_type_mismatch"@, e)),
        },
        (RecordStage::FindJcmd, Answer::Program { program }) => match program {
            Some(Ok(jcmd)) => JfrRecordHandler { jcmd, stage: RecordStage::FindActive, ..c },
            Some(Err(e)) => record_goto(c, refused("jdk_not_provisioned"@, e)),
            None => record_goto(
                c,
                refused(
                    "jdk_not_provisioned"@,
                    "该环境尚未装备 JDK。请先调用 ensure_tool(environment, tool=\"jdk\"；容器内服务需同时传 pod/namespace/container) 装备，然后重试本工具。"@,
                ),
            ),
        },
        (RecordStage::FindActive, Answer::Maybe { maybe }) => match maybe {
            Some(existing) => record_goto(
                c,
                RecordStage::Ended { outcome: RecordOutcome::Duplicate { existing } },
            ),
            None => record_goto(c, RecordStage::Clock),
        },
        (RecordStage::Clock, Answer::Number { number }) => JfrRecordHandler {
            ts: number,
            stage: RecordStage::Place,
            ..c
        },
        (RecordStage::Place, Answer::Text { text }) => JfrRecordHandler {
            local_path: text,
            stage: RecordStage::TellStart,
            ..c
        },
        (RecordStage::TellStart, Answer::Done) => record_goto(c, RecordStage::Start),
        (RecordStage::Start, Answer::TimedOut) => record_goto(c, RecordStage::KillStart),
        (RecordStage::Start, Answer::Ran { ran, elapsed_ms }) => match ran {
            Ok(out) => record_goto(c, RecordStage::Judge { out }),
            Err(e) => record_goto(c, refused("connection_error"@, e)),
        },
        (RecordStage::KillStart, Answer::Done) => record_goto(
            c,
            refused("timeout_error"@, start_timeout(RECORD_START_TIMEOUT_SECS)),
        ),
        (RecordStage::Judge { out }, Answer::Flag { flag }) => record_judged(c, out, flag),
        (RecordStage::Forget, Answer::Done) => record_goto(
            c,
            refused(
                "jdk_missing_on_remote"@,
                "远端 JDK 已不存在（可能 /tmp 被清理）。请重新调用 ensure_tool 装备后重试。"@,
            ),
        ),
        (RecordStage::Verify, Answer::TimedOut) => record_goto(c, RecordStage::KillVerify),
        (RecordStage::Verify, Answer::Ran { ran, elapsed_ms }) => match ran {
            Ok(check) => if mapping::check_passes(check.stdout, check.stderr) {
                record_goto(c, RecordStage::Stamp)
            } else {
                record_goto(c, RecordStage::Stat { check })
            },
            Err(e) => record_goto(c, refused("connection_error"@, check_failed(e, remote_path(c)))),
        },
        (RecordStage::KillVerify, Answer::Done) => record_goto(
            c,
            refused(
                "timeout_error"@,
                check_timeout(RECORD_CHECK_TIMEOUT_SECS, remote_path(c)),
            ),
        ),
        (RecordStage::Stat { check }, Answer::Ran { ran, elapsed_ms }) => if c.pod is Some && (
        ran matches Ok(out) && k8s::lacks_program(out)) {
            record_goto(c, RecordStage::Count { check })
        } else {
            record_looked(c, check, ran)
        },
        (RecordStage::Count { check }, Answer::Ran { ran, elapsed_ms }) => record_looked(
            c,
            check,
            ran,
        ),
        (RecordStage::Stamp, Answer::Number { number }) => record_goto(
            c,
            RecordStage::Register { created_at: number },
        ),
        (RecordStage::Register { created_at }, Answer::Done) => record_goto(
            c,
            RecordStage::TellStarted { created_at },
        ),
        (RecordStage::TellStarted { created_at }, Answer::Done) => record_goto(
            c,
            RecordStage::Ended {
                outcome: RecordOutcome::Started {
                    recording: new_recording(c, created_at),
                    secs: c.secs,
                    start_stdout: c.start_stdout,
                },
            },
        ),
        _ => c,
    }
}

fn refuse(code: &str, message: &str) -> (r: RecordStage<String>)
    ensures
        r@ == refused(code@, message@),
{
    RecordStage::Ended {
        outcome: RecordOutcome::Refused { code: code.to_owned(), message: message.to_owned() },
    }
}

fn check_args(args: &serde_json::Value) -> (r: Option<String>)
    ensures
        text::opt(r) == args_refused(json::view_of(*args)),
{
    if json::text_arg(args, "environment").is_none() {
        return Some("missing required parameter: environment".to_owned());
    }
    if pid_arg(args).is_none() {
        return Some("pid 必须是正整数字符串".to_owned());
    }
    match mapping::validate_record_params(args) {
        Err(e) => Some(e),
        Ok(_) => match mapping::resolve_record_disk(
            json::get(args, "disk"),
            output::filled_text_arg(args, "pod").is_some(),
        ) {
            Err(e) => Some(e),
            Ok(_) => None,
        },
    }
}

fn pid_arg(args: &serde_json::Value) -> (r: Option<u32>)
    ensures
        (match r {
            Some(n) => Some(n as nat),
            None => None,
        }) == output::pid_of(json::member(json::view_of(*args), "pid"@)),
{
    match json::get(args, "pid") {
        Some(v) => output::parse_pid(v),
        None => None,
    }
}

impl JfrRecordHandler<String> {
    /// Begins the call that arguments ask for, in a session.
    pub fn execute_record(args: &serde_json::Value, session_id: &str) -> (r: Self)
        ensures
            exists|id: Seq<char>| #[trigger]
                ids::is_uuid(id) && r@ == record_start(json::view_of(*args), session_id@, id),
    {
        let id: String = ids::fresh_uuid();
        JfrRecordHandler::execute_with(args, session_id, id.as_str())
    }

    /// Begins the call that arguments ask for, in a session, for a recording of a given name.
    pub fn execute_with(args: &serde_json::Value, session_id: &str, id: &str) -> (r: Self)
        ensures
            r@ == record_start(json::view_of(*args), session_id@, id@),
    {
        let pod: Option<&str> = output::filled_text_arg(args, "pod");
        let (duration_secs, settings): (u32, String) = match mapping::validate_record_params(args) {
            Ok(params) => params,
            Err(_) => (0, String::new()),
        };
        JfrRecordHandler {
            session_id: session_id.to_owned(),
            environment: match json::text_arg(args, "environment") {
                Some(e) => e.to_owned(),
                None => String::new(),
            },
            pid: match pid_arg(args) {
                Some(p) => p,
                None => 0,
            },
            pod: text::own_opt(pod),
            namespace: text::own_opt(output::filled_text_arg(args, "namespace")),
            container: text::own_opt(output::filled_text_arg(args, "container")),
            duration_secs,
            settings,
            disk: match mapping::resolve_record_disk(json::get(args, "disk"), pod.is_some()) {
                Ok(b) => b,
                Err(_) => false,
            },
            secs: mapping::effective_record_timeout(
                json::int_arg(args, "timeout_secs"),
                duration_secs,
            ),
            id: id.to_owned(),
            env_id: String::new(),
            jcmd: String::new(),
            ts: 0,
            local_path: String::new(),
            start_stdout: String::new(),
            stage: match check_args(args) {
                Some(e) => refuse("invalid_args", e.as_str()),
                None => RecordStage::Resolve,
            },
        }
    }

    fn remote_path_text(&self) -> (r: String)
        ensures
            r@ == remote_path(self@),
    {
        if self.pod.is_some() {
            pod_file_text(self.pid, self.ts)
        } else {
            host_file_text(self.pid, self.ts)
        }
    }

    fn start_text(&self) -> (r: String)
        ensures
            r@ == start_command(self@),
    {
        mapping::jfr_start_command(
            self.jcmd.as_str(),
            self.pid,
            recording_name_text(self.ts).as_str(),
            self.duration_secs,
            self.settings.as_str(),
            self.disk,
            self.remote_path_text().as_str(),
        )
    }

    fn verify_text(&self) -> (r: String)
        ensures
            r@ == verify_command(self@),
    {
        mapping::jfr_check_command(
            self.jcmd.as_str(),
            self.pid,
            recording_name_text(self.ts).as_str(),
        )
    }

    fn recording(&self, created_at: u64) -> (r: Recording<String>)
        ensures
            r@ == new_recording(self@, created_at),
    {
        Recording {
            id: self.id.clone(),
            session_id: self.session_id.clone(),
            env_id: self.env_id.clone(),
            pid: self.pid,
            name: recording_name_text(self.ts),
            pod: text::copy_opt(&self.pod),
            namespace: text::copy_opt(&self.namespace),
            container: text::copy_opt(&self.container),
            remote_path: self.remote_path_text(),
            local_path: self.local_path.clone(),
            duration_secs: self.duration_secs,
            settings: self.settings.clone(),
            phase: RecordingPhase::Recording,
            transfer_id: None,
            remote_size: None,
            error_code: None,
            error: None,
            created_at,
        }
    }

    /// What is asked for.
    pub fn request(&self) -> (r: Ask<String>)
        ensures
            r@ == record_request(self@),
    {
        match &self.stage {
            RecordStage::Resolve => Ask::Resolve {
                environment: self.environment.clone(),
                pod: text::copy_opt(&self.pod),
                namespace: text::copy_opt(&self.namespace),
                container: text::copy_opt(&self.container),
            },
            RecordStage::Fit => Ask::CheckTarget {
                pod: text::copy_opt(&self.pod),
                namespace: text::copy_opt(&self.namespace),
                container: text::copy_opt(&self.container),
            },
            RecordStage::FindJcmd => Ask::FindJcmd,
            RecordStage::FindActive => Ask::FindActive { pid: self.pid },
            RecordStage::Clock => Ask::Clock,
            RecordStage::Place => Ask::LocalPath { file: local_file_text(self.pid, self.ts) },
            RecordStage::TellStart => Ask::Tell {
                tool: RECORD_TOOL.to_owned(),
                stage: "record".to_owned(),
                detail: starting_text(self.duration_secs, self.settings.as_str()),
            },
            RecordStage::Start => Ask::Run {
                cmd: self.start_text(),
                secs: Some(RECORD_START_TIMEOUT_SECS),
            },
            RecordStage::KillStart => Ask::DropAndKill { cmd: self.start_text() },
            RecordStage::Judge { out } => Ask::IsJdkGone {
                exit_code: out.exit_code,
                stderr: out.stderr.clone(),
            },
            RecordStage::Forget => Ask::ForgetJdk,
            RecordStage::Verify => Ask::Run {
                cmd: self.verify_text(),
                secs: Some(RECORD_CHECK_TIMEOUT_SECS),
            },
            RecordStage::KillVerify => Ask::DropAndKill { cmd: self.verify_text() },
            RecordStage::Stat { check: _ } => Ask::Run {
                cmd: k8s::stat_text(self.remote_path_text().as_str()),
                secs: None,
            },
            RecordStage::Count { check: _ } => Ask::Run {
                cmd: k8s::count_text(self.remote_path_text().as_str()),
                secs: None,
            },
            RecordStage::Stamp => Ask::Stamp,
            RecordStage::Register { created_at } => Ask::Register {
                recording: self.recording(*created_at),
                secs: self.secs,
            },
            RecordStage::TellStarted { created_at: _ } => Ask::Tell {
                tool: RECORD_TOOL.to_owned(),
                stage: "record".to_owned(),
                detail: started_text(self.duration_secs),
            },
            RecordStage::Ended { outcome: _ } => Ask::Finished,
        }
    }

    fn goto(self, stage: RecordStage<String>) -> (r: Self)
        ensures
            r@ == record_goto(self@, stage@),
    {
        JfrRecordHandler { stage, ..self }
    }

    fn on_judged(self, out: Output<String>, gone: bool) -> (r: Self)
        ensures
            r@ == record_judged(self@, out@, gone),
    {
        if gone {
            self.goto(RecordStage::Forget)
        } else if out.exit_code != 0 {
            self.goto(RecordStage::Ended { outcome: RecordOutcome::StartFailed { out } })
        } else {
            JfrRecordHandler { start_stdout: out.stdout, stage: RecordStage::Verify, ..self }
        }
    }

    fn looked(self, check: Output<String>, ran: Result<Output<String>, String>) -> (r: Self)
        ensures
            r@ == record_looked(self@, check@, flow::view_result(ran)),
    {
        let written: bool = match ran {
            Ok(out) => parse_size(&out) > 0,
            Err(_) => false,
        };
        if written {
            self.goto(RecordStage::Stamp)
        } else {
            let path: String = self.remote_path_text();
            let start_stdout: String = self.start_stdout.clone();
            self.goto(
                RecordStage::Ended {
                    outcome: RecordOutcome::Unverified { path, check, start_stdout },
                },
            )
        }
    }

    /// Takes the answer to what was asked for.
    pub fn step(self, answer: Answer<String>) -> (r: Self)
        ensures
            r@ == record_after(self@, answer@),
    {
        let path: String = self.remote_path_text();
        let stage: RecordStage<String> = self.stage;
        let me: JfrRecordHandler<String> = JfrRecordHandler { stage: RecordStage::Stamp, ..self };
        match (stage, answer) {
            (RecordStage::Resolve, Answer::Resolved { resolved }) => match resolved {
                Ok(Some(env_id)) => JfrRecordHandler { env_id, stage: RecordStage::Fit, ..me },
                Ok(None) => {
                    let e: String = output::unknown_environment_text(me.environment.as_str());
                    me.goto(refuse("environment_not_found", e.as_str()))
                },
                Err(e) => me.goto(refuse("connection_error", e.as_str())),
            },
            (RecordStage::Fit, Answer::Checked { checked }) => match checked {
                Ok(_) => me.goto(RecordStage::FindJcmd),
                Err(e) => me.goto(refuse("environment_type_mismatch", e.as_str())),
            },
            (RecordStage::FindJcmd, Answer::Program { program }) => match program {
                Some(Ok(jcmd)) => JfrRecordHandler {
                    jcmd,
                    stage: RecordStage::FindActive,
                    ..me
                },
                Some(Err(e)) => me.goto(refuse("jdk_not_provisioned", e.as_str())),
                None => me.goto(
                    refuse(
                        "jdk_not_provisioned",
                        "该环境尚未装备 JDK。请先调用 ensure_tool(environment, tool=\"jdk\"；容器内服务需同时传 pod/namespace/container) 装备，然后重试本工具。",
                    ),
                ),
            },
            (RecordStage::FindActive, Answer::Maybe { maybe }) => match maybe {
                Some(existing) => me.goto(
                    RecordStage::Ended { outcome: RecordOutcome::Duplicate { existing } },
                ),
                None => me.goto(RecordStage::Clock),
            },
            (RecordStage::Clock, Answer::Number { number }) => JfrRecordHandler {
                ts: number,
                stage: RecordStage::Place,
                ..me
            },
            (RecordStage::Place, Answer::Text { text }) => JfrRecordHandler {
                local_path: text,
                stage: RecordStage::TellStart,
                ..me
            },
            (RecordStage::TellStart, Answer::Done) => me.goto(RecordStage::Start),
            (RecordStage::Start, Answer::TimedOut) => me.goto(RecordStage::KillStart),
            (RecordStage::Start, Answer::Ran { ran, elapsed_ms: _ }) => match ran {
                Ok(out) => me.goto(RecordStage::Judge { out }),
                Err(e) => me.goto(refuse("connection_error", e.as_str())),
            },
            (RecordStage::KillStart, Answer::Done) => me.goto(
                refuse(
                    "timeout_error",
                    start_timeout_text(RECORD_START_TIMEOUT_SECS).as_str(),
                ),
            ),
            (RecordStage::Judge { out }, Answer::Flag { flag }) => me.on_judged(out, flag),
            (RecordStage::Forget, Answer::Done) => me.goto(
                refuse(
                    "jdk_missing_on_remote",
                    "远端 JDK 已不存在（可能 /tmp 被清理）。请重新调用 ensure_tool 装备后重试。",
                ),
            ),
            (RecordStage::Verify, Answer::TimedOut) => me.goto(RecordStage::KillVerify),
            (RecordStage::Verify, Answer::Ran { ran, elapsed_ms: _ }) => match ran {
                Ok(check) => if mapping::recording_check_passes(
                    check.stdout.as_str(),
                    check.stderr.as_str(),
                ) {
                    me.goto(RecordStage::Stamp)
                } else {
                    me.goto(RecordStage::Stat { check })
                },
                Err(e) => me.goto(
                    refuse(
                        "connection_error",
                        check_failed_text(e.as_str(), path.as_str()).as_str(),
                    ),
                ),
            },
            (RecordStage::KillVerify, Answer::Done) => me.goto(
                refuse(
                    "timeout_error",
                    check_timeout_text(RECORD_CHECK_TIMEOUT_SECS, path.as_str()).as_str(),
                ),
            ),
            (RecordStage::Stat { check }, Answer::Ran { ran, elapsed_ms: _ }) => {
                let lacking: bool = match &ran {
                    Ok(out) => me.pod.is_some() && out.exit_code == k8s::PROGRAM_NOT_FOUND,
                    Err(_) => false,
                };
                if lacking {
                    me.goto(RecordStage::Count { check })
                } else {
                    me.looked(check, ran)
                }
            },
            (RecordStage::Count { check }, Answer::Ran { ran, elapsed_ms: _ }) => me.looked(
                check,
                ran,
            ),
            (RecordStage::Stamp, Answer::Number { number }) => me.goto(
                RecordStage::Register { created_at: number },
            ),
            (RecordStage::Register { created_at }, Answer::Done) => me.goto(
                RecordStage::TellStarted { created_at },
            ),
            (RecordStage::TellStarted { created_at }, Answer::Done) => {
                let outcome: RecordOutcome<String> = RecordOutcome::Started {
                    recording: me.recording(created_at),
                    secs: me.secs,
                    start_stdout: me.start_stdout.clone(),
                };
                me.goto(RecordStage::Ended { outcome })
            },
            (stage, _) => me.goto(stage),
        }
    }
}

// ---------------------------------------------------------------------------------------------
// What a call shows
// ---------------------------------------------------------------------------------------------

/// What a call shows.
pub open spec fn record_shown(o: RecordOutcome<Seq<char>>) -> Shown {
    match o {
        RecordOutcome::Refused { code, message } => output::refusal(code, message),
        RecordOutcome::Duplicate { existing } => Shown {
            success: false,
            data: Json::Object(
                json::no_members().insert("error"@, Json::Text("duplicate_recording"@)).insert(
                    "message"@,
                    Json::Text(
                        "该 JVM 已有进行中的 JFR 录制任务（长录制耗时数分钟，重复启动会叠加录制开销）。"@,
                    ),
                ).insert("recording_id"@, Json::Text(existing)).insert(
                    "note"@,
                    Json::Text("请轮询 jfr_record_status(recording_id) 获取结果，勿重复启动录制。"@),
                ),
            ),
            raw_stdout: None,
        },
        RecordOutcome::StartFailed { out } => Shown {
            success: false,
            data: Json::Object(
                json::no_members().insert("error"@, Json::Text("record_failed"@)).insert(
                    "message"@,
                    Json::Text(
                        "JFR.start 失败。目标 JVM 兼容性：JDK 11+ 开箱即用；Oracle JDK 8 需启动参数 -XX:+UnlockCommercialVMOption -XX:+FlightRecorder；OpenJDK 8 无 JFR——此类场景改用 arthas_profiler。"@,
                    ),
                ).insert("stdout"@, Json::Text(out.stdout)).insert(
                    "stderr"@,
                    Json::Text(out.stderr),
                ).insert("exit_code"@, Json::Int(out.exit_code as int)),
            ),
            raw_stdout: Some(out.stdout),
        },
        RecordOutcome::Unverified { path, check, start_stdout } => Shown {
            success: false,
            data: Json::Object(
                json::no_members().insert("error"@, Json::Text("record_verify_failed"@)).insert(
                    "message"@,
                    Json::Text(unverified(path)),
                ).insert("stdout"@, Json::Text(check.stdout)).insert(
                    "stderr"@,
                    Json::Text(check.stderr),
                ).insert("exit_code"@, Json::Int(check.exit_code as int)),
            ),
            raw_stdout: Some(start_stdout),
        },
        RecordOutcome::Started { recording, secs, start_stdout } => Shown {
            success: true,
            data: Json::Object(
                json::no_members().insert("recording_id"@, Json::Text(recording.id)).insert(
                    "status"@,
                    Json::Text("recording"@),
                ).insert("remote_path"@, Json::Text(recording.remote_path)).insert(
                    "local_path"@,
                    Json::Text(recording.local_path),
                ).insert("duration_secs"@, Json::Int(recording.duration_secs as int)).insert(
                    "settings"@,
                    Json::Text(recording.settings),
                ).insert("timeout_secs"@, Json::Int(secs as int)).insert(
                    "note"@,
                    Json::Text(
                        "JFR 录制已启动，后台等待落盘（本调用已返回，录制不受影响）。请轮询 jfr_record_status(recording_id)：recording（进行中，稍候再查）→ downloading（带 transfer_id，可轮询 transfer_status 看进度）→ completed（自动预热 JMC，直接用 jfr_quick_analysis(local_path) / jfr_rules(local_path) 分析）/ failed（见 error 字段）。"@,
                    ),
                ),
            ),
            raw_stdout: Some(start_stdout),
        },
    }
}

impl RecordOutcome<String> {
    /// What the call shows.
    pub fn render(self) -> (r: ToolOutput)
        ensures
            r@ == record_shown(self@),
    {
        let mut m: serde_json::Map<String, serde_json::Value> = json::new_map();
        match self {
            RecordOutcome::Refused { code, message } => output::error_output(
                code.as_str(),
                message.as_str(),
            ),
            RecordOutcome::Duplicate { existing } => {
                json::insert(&mut m, "error", json::text_value("duplicate_recording"));
                json::insert(
                    &mut m,
                    "message",
                    json::text_value(
                        "该 JVM 已有进行中的 JFR 录制任务（长录制耗时数分钟，重复启动会叠加录制开销）。",
                    ),
                );
                json::insert(&mut m, "recording_id", json::text_value(existing.as_str()));
                json::insert(
                    &mut m,
                    "note",
                    json::text_value("请轮询 jfr_record_status(recording_id) 获取结果，勿重复启动录制。"),
                );
                ToolOutput { success: false, data: json::object(m), raw_stdout: None }
            },
            RecordOutcome::StartFailed { out } => {
                json::insert(&mut m, "error", json::text_value("record_failed"));
                json::insert(
                    &mut m,
                    "message",
                    json::text_value(
                        "JFR.start 失败。目标 JVM 兼容性：JDK 11+ 开箱即用；Oracle JDK 8 需启动参数 -XX:+UnlockCommercialVMOption -XX:+FlightRecorder；OpenJDK 8 无 JFR——此类场景改用 arthas_profiler。",
                    ),
                );
                json::insert(&mut m, "stdout", json::text_value(out.stdout.as_str()));
                json::insert(&mut m, "stderr", json::text_value(out.stderr.as_str()));
                json::insert(&mut m, "exit_code", json::i64_value(out.exit_code as i64));
                ToolOutput { success: false, data: json::object(m), raw_stdout: Some(out.stdout) }
            },
            RecordOutcome::Unverified { path, check, start_stdout } => {
                json::insert(&mut m, "error", json::text_value("record_verify_failed"));
                json::insert(
                    &mut m,
                    "message",
                    json::text_value(unverified_text(path.as_str()).as_str()),
                );
                json::insert(&mut m, "stdout", json::text_value(check.stdout.as_str()));
                json::insert(&mut m, "stderr", json::text_value(check.stderr.as_str()));
                json::insert(&mut m, "exit_code", json::i64_value(check.exit_code as i64));
                ToolOutput {
                    success: false,
                    data: json::object(m),
                    raw_stdout: Some(start_stdout),
                }
            },
            RecordOutcome::Started { recording, secs, start_stdout } => {
                json::insert(&mut m, "recording_id", json::text_value(recording.id.as_str()));
                json::insert(&mut m, "status", json::text_value("recording"));
                json::insert(
                    &mut m,
                    "remote_path",
                    json::text_value(recording.remote_path.as_str()),
                );
                json::insert(
                    &mut m,
                    "local_path",
                    json::text_value(recording.local_path.as_str()),
                );
                json::insert(
                    &mut m,
                    "duration_secs",
                    json::u64_value(recording.duration_secs as u64),
                );
                json::insert(&mut m, "settings", json::text_value(recording.settings.as_str()));
                json::insert(&mut m, "timeout_secs", json::u64_value(secs));
                json::insert(
                    &mut m,
                    "note",
                    json::text_value(
                        "JFR 录制已启动，后台等待落盘（本调用已返回，录制不受影响）。请轮询 jfr_record_status(recording_id)：recording（进行中，稍候再查）→ downloading（带 transfer_id，可轮询 transfer_status 看进度）→ completed（自动预热 JMC，直接用 jfr_quick_analysis(local_path) / jfr_rules(local_path) 分析）/ failed（见 error 字段）。",
                    ),
                );
                ToolOutput { success: true, data: json::object(m), raw_stdout: Some(start_stdout) }
            },
        }
    }
}

/// Whether a recording is a running one that a call would double.
pub open spec fn doubles(c: JfrRecordHandler<Seq<char>>, r: Recording<Seq<char>>) -> bool {
    recordings::is_active(
        r,
        c.session_id,
        pool::target_in(c.env_id, c.pod, c.namespace, c.container),
        c.pid,
    )
}

impl JfrRecordHandler<String> {
    /// The answer to the question for a running recording, from the recordings that there are.
    pub fn look_up(&self, registry: &RecordingRegistry) -> (r: Answer<String>)
        ensures
            r@ matches Answer::Maybe { maybe } && match maybe {
                Some(id) => exists|i: int|
                    0 <= i < registry@.len() && #[trigger] doubles(self@, registry@[i])
                        && registry@[i].id == id,
                None => forall|i: int|
                    0 <= i < registry@.len() ==> !#[trigger] doubles(self@, registry@[i]),
            },
    {
        let target: TargetKey = TargetKey::from_parts(
            self.env_id.as_str(),
            text::as_str_opt(&self.pod),
            text::as_str_opt(&self.container),
        ).in_namespace(text::as_str_opt(&self.namespace));
        match registry.find_active_for_target(self.session_id.as_str(), &target, self.pid) {
            Some(existing) => {
                proof {
                    let i = choose|i: int| 0 <= i < registry@.len() && registry@[i] == existing@;
                    assert(doubles(self@, registry@[i]));
                }
                Answer::Maybe { maybe: Some(existing.id) }
            },
            None => {
                proof {
                    assert forall|i: int| 0 <= i < registry@.len() implies !#[trigger] doubles(
                        self@,
                        registry@[i],
                    ) by {
                        assert(!recordings::is_active(
                            registry@[i],
                            self.session_id@,
                            target@,
                            self.pid,
                        ));
                    }
                }
                Answer::Maybe { maybe: None }
            },
        }
    }
}

// ---------------------------------------------------------------------------------------------
// What holds of every call
// ---------------------------------------------------------------------------------------------

/// A recording is started only where none of the process runs, and at a target that fits its
/// environment.
pub proof fn law_no_second_recording(c: JfrRecordHandler<Seq<char>>, answer: Answer<Seq<char>>)
    ensures
        c.stage !is Clock && record_after(c, answer).stage is Clock ==> c.stage is FindActive
            && answer == (Answer::<Seq<char>>::Maybe { maybe: None }),
        c.stage !is FindJcmd && record_after(c, answer).stage is FindJcmd ==> c.stage is Fit && (
        answer matches Answer::Checked { checked: Ok(_) }),
{
}

/// A recording is added only once its JVM said that it runs, or its file is not empty.
pub proof fn law_only_verified_recordings(c: JfrRecordHandler<Seq<char>>, answer: Answer<Seq<char>>)
    requires
        c.stage !is Stamp,
        record_after(c, answer).stage is Stamp,
    ensures
        answer matches Answer::Ran { ran: Ok(out), elapsed_ms: _ } && match c.stage {
            RecordStage::Verify => mapping::check_passes(out.stdout, out.stderr),
            RecordStage::Stat { check } => printed_size(out) > 0,
            RecordStage::Count { check } => printed_size(out) > 0,
            _ => false,
        },
{
}

/// The recording that a call adds is a running one that any later call for the same process, at
/// the same target and in the same session, would double.
pub proof fn law_added_recording_bars_another(
    first: JfrRecordHandler<Seq<char>>,
    later: JfrRecordHandler<Seq<char>>,
    created_at: u64,
)
    requires
        first.session_id == later.session_id,
        first.env_id == later.env_id,
        first.pod == later.pod,
        first.namespace == later.namespace,
        first.container == later.container,
        first.pid == later.pid,
    ensures
        doubles(later, new_recording(first, created_at)),
{
}

/// A call after answers.
pub open spec fn record_run(c: JfrRecordHandler<Seq<char>>, answers: Seq<Answer<Seq<char>>>) -> JfrRecordHandler<
    Seq<char>,
>
    decreases answers.len(),
{
    if answers.len() == 0 {
        c
    } else {
        record_after(record_run(c, answers.drop_last()), answers.last())
    }
}

/// Whether an answer to what a stage asks shows that a recording runs or has been written.
pub open spec fn shows_recording(stage: RecordStage<Seq<char>>, answer: Answer<Seq<char>>) -> bool {
    answer matches Answer::Ran { ran: Ok(out), elapsed_ms: _ } && match stage {
        RecordStage::Verify => mapping::check_passes(out.stdout, out.stderr),
        RecordStage::Stat { check } => printed_size(out) > 0,
        RecordStage::Count { check } => printed_size(out) > 0,
        _ => false,
    }
}

/// Whether one of the first answers showed that the recording runs or has been written.
pub open spec fn was_shown(
    c: JfrRecordHandler<Seq<char>>,
    answers: Seq<Answer<Seq<char>>>,
    n: int,
) -> bool {
    exists|j: int|
        0 <= j < n && shows_recording(record_run(c, answers.take(j)).stage, #[trigger] answers[j])
}

/// Whether a call counts its recording as running.
pub open spec fn counts_on_it(stage: RecordStage<Seq<char>>) -> bool {
    stage is Stamp || stage is Register || stage is TellStarted || (stage matches RecordStage::Ended {
        outcome,
    } && outcome is Started)
}

proof fn lemma_record_run(
    c: JfrRecordHandler<Seq<char>>,
    answers: Seq<Answer<Seq<char>>>,
    n: int,
)
    requires
        !counts_on_it(c.stage),
        0 <= n <= answers.len(),
        counts_on_it(record_run(c, answers.take(n)).stage),
    ensures
        was_shown(c, answers, n),
    decreases n,
{
    assert(answers.take(0) =~= Seq::empty());
    if n > 0 {
        assert(answers.take(n).drop_last() =~= answers.take(n - 1));
        let before = record_run(c, answers.take(n - 1));
        if counts_on_it(before.stage) {
            lemma_record_run(c, answers, n - 1);
            let j = choose|j: int|
                0 <= j < n - 1 && shows_recording(
                    record_run(c, answers.take(j)).stage,
                    #[trigger] answers[j],
                );
            assert(shows_recording(record_run(c, answers.take(j)).stage, answers[j]));
        } else {
            assert(shows_recording(before.stage, answers[n - 1]));
        }
    }
}

/// Over a whole call: a recording that is reported as started was seen running by its JVM, or its
/// file was seen not to be empty.
pub proof fn law_started_recording_was_seen(
    c: JfrRecordHandler<Seq<char>>,
    answers: Seq<Answer<Seq<char>>>,
)
    requires
        !counts_on_it(c.stage),
        record_run(c, answers).stage matches RecordStage::Ended { outcome } && outcome is Started,
    ensures
        was_shown(c, answers, answers.len() as int),
{
    assert(answers.take(answers.len() as int) =~= answers);
    lemma_record_run(c, answers, answers.len() as int);
}

/// A call records what its arguments ask for: the process that they name, in the session and under
/// the name that it was begun with, for the length and with the settings and on the disk that they
/// name.
pub proof fn law_record_call_is_as_asked(
    args: Map<Seq<char>, Json>,
    session_id: Seq<char>,
    id: Seq<char>,
    environment: Seq<char>,
    pid: u32,
    n: int,
    s: Seq<char>,
    disk: bool,
)
    requires
        args.contains_key("environment"@) && args["environment"@] == Json::Text(environment),
        args.contains_key("pid"@) && args["pid"@] == Json::Text(text::dec(pid as nat)),
        pid > 0,
        args.contains_key("duration_secs"@) && args["duration_secs"@] == Json::Int(n),
        10 <= n <= 600,
        args.contains_key("settings"@) && args["settings"@] == Json::Text(s),
        s == "profile"@ || s == "default"@,
        args.contains_key("disk"@) && args["disk"@] == Json::Bool(disk),
    ensures
        ({
            let c = record_start(Json::Object(args), session_id, id);
            &&& c.stage is Resolve
            &&& c.session_id == session_id
            &&& c.id == id
            &&& c.environment == environment
            &&& c.pid == pid
            &&& c.duration_secs == n
            &&& c.settings == s
            &&& c.disk == disk
            &&& c.pod == output::filled_arg(Json::Object(args), "pod"@)
            &&& c.namespace == output::filled_arg(Json::Object(args), "namespace"@)
            &&& c.container == output::filled_arg(Json::Object(args), "container"@)
            &&& n + 120 <= c.secs <= 1800
            &&& text::contains(start_command(c), " settings="@ + s + " disk="@)
            &&& text::contains(
                start_command(c),
                " duration="@ + text::dec(n as nat) + "s filename="@,
            )
        }),
{
    output::law_pid_is_read_back(pid as nat, args["pid"@]);
    mapping::law_recording_is_as_asked(args, n, s);
    let c = record_start(Json::Object(args), session_id, id);
    mapping::law_start_is_told_everything(
        c.jcmd,
        c.pid,
        recording_name(c.ts),
        c.duration_secs,
        c.settings,
        c.disk,
        remote_path(c),
    );
}

/// A call that lacks its environment or its process, or asks for something that cannot be had, is
/// refused before anything is asked for.
pub proof fn law_bad_record_calls_are_refused(
    args: Map<Seq<char>, Json>,
    session_id: Seq<char>,
    id: Seq<char>,
)
    ensures
        ({
            let c = record_start(Json::Object(args), session_id, id);
            let bad = !args.contains_key("environment"@) || args["environment"@] !is Text
                || output::pid_of(json::member(Json::Object(args), "pid"@)) is None
                || mapping::record_params(Json::Object(args)) is Err || (args.contains_key(
                "disk"@,
            ) && args["disk"@] !is Bool);
            &&& bad ==> record_request(c) is Finished
            &&& bad ==> (c.stage matches RecordStage::Ended {
                outcome: RecordOutcome::Refused { code, message: _ },
            } && code == "invalid_args"@)
            &&& !bad ==> c.stage is Resolve
        }),
{
}

/// What a call was begun for stays what it is for, whatever it is told.
pub proof fn law_record_call_keeps_its_purpose(
    c: JfrRecordHandler<Seq<char>>,
    answer: Answer<Seq<char>>,
)
    ensures
        ({
            let d = record_after(c, answer);
            &&& d.session_id == c.session_id
            &&& d.id == c.id
            &&& d.environment == c.environment
            &&& d.pid == c.pid
            &&& d.pod == c.pod
            &&& d.namespace == c.namespace
            &&& d.container == c.container
            &&& d.duration_secs == c.duration_secs
            &&& d.settings == c.settings
            &&& d.disk == c.disk
            &&& d.secs == c.secs
        }),
{
}

/// The way of a recording that runs: its target is found and fits, its JVM is found not to be
/// recorded, the recording is started and seen to run, and it is added, with the file that it is
/// written to and the file that it is fetched to, under its own name.
pub proof fn law_way_of_a_recording(
    c: JfrRecordHandler<Seq<char>>,
    env_id: Seq<char>,
    jcmd: Seq<char>,
    ts: u64,
    local: Seq<char>,
    out: Output<Seq<char>>,
    check: Output<Seq<char>>,
    stamp: u64,
    ms: u64,
)
    requires
        c.stage is Resolve,
        out.exit_code == 0,
        mapping::check_passes(check.stdout, check.stderr),
    ensures
        ({
            let c1 = record_after(c, Answer::Resolved { resolved: Ok(Some(env_id)) });
            let c2 = record_after(c1, Answer::Checked { checked: Ok(()) });
            let c3 = record_after(c2, Answer::Program { program: Some(Ok(jcmd)) });
            let c4 = record_after(c3, Answer::Maybe { maybe: None });
            let c5 = record_after(c4, Answer::Number { number: ts });
            let c6 = record_after(c5, Answer::Text { text: local });
            let c7 = record_after(c6, Answer::Done);
            let c8 = record_after(c7, Answer::Ran { ran: Ok(out), elapsed_ms: ms });
            let c9 = record_after(c8, Answer::Flag { flag: false });
            let c10 = record_after(c9, Answer::Ran { ran: Ok(check), elapsed_ms: ms });
            let c11 = record_after(c10, Answer::Number { number: stamp });
            let c12 = record_after(c11, Answer::Done);
            let c13 = record_after(c12, Answer::Done);
            let name = "friday-"@ + text::dec(ts as nat);
            let stem = text::dec(c.pid as nat) + "-"@ + text::dec(ts as nat) + ".jfr"@;
            &&& record_request(c) == (Ask::<Seq<char>>::Resolve {
                environment: c.environment,
                pod: c.pod,
                namespace: c.namespace,
                container: c.container,
            })
            &&& record_request(c1) == (Ask::<Seq<char>>::CheckTarget {
                pod: c.pod,
                namespace: c.namespace,
                container: c.container,
            })
            &&& record_request(c2) is FindJcmd
            &&& record_request(c3) == (Ask::<Seq<char>>::FindActive { pid: c.pid })
            &&& record_request(c4) is Clock
            &&& record_request(c5) matches Ask::LocalPath { file } && text::contains(
                file,
                text::dec(c.pid as nat),
            ) && text::contains(file, text::dec(ts as nat))
            &&& record_request(c7) matches Ask::Run { cmd, secs } && secs == Some(60u64) && cmd
                == start_command(c7) && text::starts(
                cmd,
                jcmd + " "@ + text::dec(c.pid as nat) + " JFR.start name="@ + name,
            )
            &&& record_request(c8) == (Ask::<Seq<char>>::IsJdkGone {
                exit_code: 0,
                stderr: out.stderr,
            })
            &&& record_request(c9) == (Ask::<Seq<char>>::Run {
                cmd: jcmd + " "@ + text::dec(c.pid as nat) + " JFR.check name="@ + name,
                secs: Some(30u64),
            })
            &&& record_request(c10) is Stamp
            &&& record_request(c11) matches Ask::Register { recording, secs } && {
                &&& secs == c.secs
                &&& recording.id == c.id
                &&& recording.session_id == c.session_id
                &&& recording.env_id == env_id
                &&& recording.pid == c.pid
                &&& recording.name == name
                &&& recording.pod == c.pod
                &&& recording.namespace == c.namespace
                &&& recording.container == c.container
                &&& recording.local_path == local
                &&& recording.duration_secs == c.duration_secs
                &&& recording.settings == c.settings
                &&& recording.phase is Recording
                &&& recording.transfer_id is None
                &&& recording.error is None
                &&& recording.error_code is None
                &&& recording.created_at == stamp
                &&& text::contains(start_command(c7), "s filename="@ + recording.remote_path)
                &&& c.pod is None ==> recording.remote_path == "/tmp/friday-tools/recording-"@ + text::dec(c.pid as nat) + "-"@ + text::dec(ts as nat) + ".jfr"@
                &&& c.pod is Some ==> text::starts(recording.remote_path, POD_DUMP_DIR@ + "/"@)
                &&& c13.stage == (RecordStage::<Seq<char>>::Ended {
                    outcome: RecordOutcome::Started {
                        recording,
                        secs: c.secs,
                        start_stdout: out.stdout,
                    },
                })
            }
        }),
{
    let c5 = record_after(
        record_after(
            record_after(
                record_after(
                    record_after(c, Answer::Resolved { resolved: Ok(Some(env_id)) }),
                    Answer::Checked { checked: Ok(()) },
                ),
                Answer::Program { program: Some(Ok(jcmd)) },
            ),
            Answer::Maybe { maybe: None },
        ),
        Answer::Number { number: ts },
    );
    let c7 = record_after(record_after(c5, Answer::Text { text: local }), Answer::Done);
    mapping::law_start_is_told_everything(
        c7.jcmd,
        c7.pid,
        recording_name(c7.ts),
        c7.duration_secs,
        c7.settings,
        c7.disk,
        remote_path(c7),
    );
    let p = text::dec(c.pid as nat);
    let t = text::dec(ts as nat);
    text::lemma_contains("recording-"@, p, "-"@);
    text::lemma_part_kept("recording-"@ + p + "-"@, p, t);
    text::lemma_part_kept("recording-"@ + p + "-"@ + t, p, ".jfr"@);
    text::lemma_contains("recording-"@ + p + "-"@, t, ".jfr"@);
    reveal_strlit("/friday-recording-");
    reveal_strlit("/");
    let head = POD_DUMP_DIR@ + "/"@;
    assert("/friday-recording-"@ =~= "/"@ + "/friday-recording-"@.subrange(1, 18));
    let rest = "/friday-recording-"@.subrange(1, 18);
    assert(POD_DUMP_DIR@ + "/friday-recording-"@ =~= head + rest);
    text::lemma_start(head, rest);
    text::lemma_start_kept(head + rest, head, p);
    text::lemma_start_kept(head + rest + p, head, "-"@);
    text::lemma_start_kept(head + rest + p + "-"@, head, t);
    text::lemma_start_kept(head + rest + p + "-"@ + t, head, ".jfr"@);
}

/// How a call is refused: with the code of what failed, and what was said of it.
pub proof fn law_record_refusals(
    c: JfrRecordHandler<Seq<char>>,
    e: Seq<char>,
    out: Output<Seq<char>>,
    existing: Seq<char>,
    ms: u64,
)
    ensures
        c.stage is Resolve ==> is_refusal(
            record_after(c, Answer::Resolved { resolved: Ok(None) }),
            "environment_not_found"@,
            c.environment,
        ),
        c.stage is Resolve ==> is_refusal(
            record_after(c, Answer::Resolved { resolved: Err(e) }),
            "connection_error"@,
            e,
        ),
        c.stage is Fit ==> is_refusal(
            record_after(c, Answer::Checked { checked: Err(e) }),
            "environment_type_mismatch"@,
            e,
        ),
        c.stage is FindJcmd ==> is_refusal(
            record_after(c, Answer::Program { program: Some(Err(e)) }),
            "jdk_not_provisioned"@,
            e,
        ),
        c.stage is FindJcmd ==> is_refusal(
            record_after(c, Answer::Program { program: None }),
            "jdk_not_provisioned"@,
            "ensure_tool"@,
        ),
        c.stage is FindActive ==> record_after(c, Answer::Maybe { maybe: Some(existing) }).stage
            == (RecordStage::<Seq<char>>::Ended { outcome: RecordOutcome::Duplicate { existing } }),
        c.stage is Start ==> is_refusal(
            record_after(c, Answer::Ran { ran: Err(e), elapsed_ms: ms }),
            "connection_error"@,
            e,
        ),
        c.stage is Start ==> {
            let d = record_after(c, Answer::TimedOut);
            &&& record_request(d) == (Ask::<Seq<char>>::DropAndKill { cmd: start_command(c) })
            &&& is_refusal(record_after(d, Answer::Done), "timeout_error"@, "60"@)
        },
        c.stage is Verify ==> {
            let d = record_after(c, Answer::TimedOut);
            &&& record_request(d) == (Ask::<Seq<char>>::DropAndKill { cmd: verify_command(c) })
            &&& is_refusal(record_after(d, Answer::Done), "timeout_error"@, remote_path(c))
        },
        c.stage is Verify ==> is_refusal(
            record_after(c, Answer::Ran { ran: Err(e), elapsed_ms: ms }),
            "connection_error"@,
            e,
        ),
        c.stage == (RecordStage::<Seq<char>>::Judge { out }) && out.exit_code != 0 ==> record_after(
            c,
            Answer::Flag { flag: false },
        ).stage == (RecordStage::<Seq<char>>::Ended { outcome: RecordOutcome::StartFailed { out } }),
        c.stage == (RecordStage::<Seq<char>>::Judge { out }) ==> {
            let d = record_after(c, Answer::Flag { flag: true });
            &&& record_request(d) is ForgetJdk
            &&& is_refusal(record_after(d, Answer::Done), "jdk_missing_on_remote"@, "ensure_tool"@)
        },
{
    let z = Seq::<char>::empty();
    text::lemma_contains("环境「"@, c.environment, "」不存在。请先调用 list_environments 查看可用环境；若无匹配，请让用户在右侧「环境」面板添加。"@);
    lemma_holds_itself(e);
    let path = remote_path(c);
    text::lemma_contains("JFR.check 校验执行失败："@, e, "。录制可能已在运行（远端预期路径 "@);
    text::lemma_part_kept("JFR.check 校验执行失败："@ + e + "。录制可能已在运行（远端预期路径 "@, e, path);
    text::lemma_part_kept("JFR.check 校验执行失败："@ + e + "。录制可能已在运行（远端预期路径 "@ + path, e, "），可稍后用 file_download 手动拉回"@);
    lemma_sixty();
    text::lemma_contains("JFR.start 超时（"@, "60"@, "s）；ssh 连接已断开"@);
    text::lemma_contains("JFR.check 校验超时（"@ + text::dec(30) + "s）；ssh 连接已断开，录制状态未知（远端预期路径 "@, path, "）"@);
    lemma_hints_name_the_tool();
}

proof fn lemma_holds_itself(e: Seq<char>)
    ensures
        text::contains(e, e),
{
    text::lemma_contains(Seq::empty(), e, Seq::empty());
    assert(Seq::<char>::empty() + e + Seq::<char>::empty() =~= e);
}

proof fn lemma_sixty()
    ensures
        text::dec(60) == "60"@,
{
    reveal_strlit("60");
    reveal_with_fuel(text::dec, 2);
    assert(text::dec(60) =~= "60"@);
}

proof fn lemma_hints_name_the_tool()
    ensures
        text::contains("远端 JDK 已不存在（可能 /tmp 被清理）。请重新调用 ensure_tool 装备后重试。"@, "ensure_tool"@),
        text::contains("该环境尚未装备 JDK。请先调用 ensure_tool(environment, tool=\"jdk\"；容器内服务需同时传 pod/namespace/container) 装备，然后重试本工具。"@, "ensure_tool"@),
{
    reveal_strlit("ensure_tool");
    reveal_strlit("远端 JDK 已不存在（可能 /tmp 被清理）。请重新调用 ensure_tool 装备后重试。");
    reveal_strlit("该环境尚未装备 JDK。请先调用 ensure_tool(environment, tool=\"jdk\"；容器内服务需同时传 pod/namespace/container) 装备，然后重试本工具。");
    let a = "远端 JDK 已不存在（可能 /tmp 被清理）。请重新调用 ensure_tool 装备后重试。"@;
    let b = "该环境尚未装备 JDK。请先调用 ensure_tool(environment, tool=\"jdk\"；容器内服务需同时传 pod/namespace/container) 装备，然后重试本工具。"@;
    assert(a.subrange(31, 42) =~= "ensure_tool"@);
    assert(text::occurs_at(a, "ensure_tool"@, 31));
    assert(b.subrange(17, 28) =~= "ensure_tool"@);
    assert(text::occurs_at(b, "ensure_tool"@, 17));
}

/// Whether a call ended in a refusal with a code, whose message holds a text.
pub open spec fn is_refusal(
    c: JfrRecordHandler<Seq<char>>,
    code: Seq<char>,
    part: Seq<char>,
) -> bool {
    c.stage matches RecordStage::Ended { outcome: RecordOutcome::Refused { code: k, message } } && k
        == code && text::contains(message, part)
}

/// What is shown of a call is what it came to: the recording that runs, the one that is in its way,
/// or what the JVM printed.
pub proof fn law_record_shows_its_outcome(
    recording: Recording<Seq<char>>,
    secs: u64,
    printed: Seq<char>,
    existing: Seq<char>,
    out: Output<Seq<char>>,
    path: Seq<char>,
)
    ensures
        ({
            let shown = record_shown(
                RecordOutcome::Started { recording, secs, start_stdout: printed },
            );
            &&& shown.success
            &&& shown.raw_stdout == Some(printed)
            &&& shown.data matches Json::Object(m) && {
                &&& m["recording_id"@] == Json::Text(recording.id)
                &&& m["status"@] == Json::Text("recording"@)
                &&& m["remote_path"@] == Json::Text(recording.remote_path)
                &&& m["local_path"@] == Json::Text(recording.local_path)
                &&& m["duration_secs"@] == Json::Int(recording.duration_secs as int)
                &&& m["settings"@] == Json::Text(recording.settings)
                &&& m["timeout_secs"@] == Json::Int(secs as int)
                &&& !m.contains_key("error"@)
            }
        }),
        ({
            let shown = record_shown(RecordOutcome::Duplicate { existing });
            &&& !shown.success
            &&& shown.data matches Json::Object(m) && m["error"@] == Json::Text(
                "duplicate_recording"@,
            ) && m["recording_id"@] == Json::Text(existing)
        }),
        ({
            let shown = record_shown(RecordOutcome::StartFailed { out });
            &&& !shown.success
            &&& shown.raw_stdout == Some(out.stdout)
            &&& shown.data matches Json::Object(m) && m["error"@] == Json::Text("record_failed"@)
                && m["stdout"@] == Json::Text(out.stdout) && m["stderr"@] == Json::Text(out.stderr)
                && m["exit_code"@] == Json::Int(out.exit_code as int)
        }),
        ({
            let shown = record_shown(
                RecordOutcome::Unverified { path, check: out, start_stdout: printed },
            );
            &&& !shown.success
            &&& shown.raw_stdout == Some(printed)
            &&& shown.data matches Json::Object(m) && m["error"@] == Json::Text(
                "record_verify_failed"@,
            ) && m["stdout"@] == Json::Text(out.stdout) && m["stderr"@] == Json::Text(out.stderr)
                && m["exit_code"@] == Json::Int(out.exit_code as int) && (m["message"@] matches Json::Text(t)
                && text::contains(t, path))
        }),
{
    reveal_strlit("recording_id");
    reveal_strlit("status");
    reveal_strlit("remote_path");
    reveal_strlit("local_path");
    reveal_strlit("duration_secs");
    reveal_strlit("settings");
    reveal_strlit("timeout_secs");
    reveal_strlit("note");
    reveal_strlit("error");
    reveal_strlit("message");
    reveal_strlit("stdout");
    reveal_strlit("stderr");
    reveal_strlit("exit_code");
    assert("recording_id"@.len() != "status"@.len());
    assert("recording_id"@.len() != "remote_path"@.len());
    assert("recording_id"@.len() != "local_path"@.len());
    assert("recording_id"@.len() != "duration_secs"@.len());
    assert("recording_id"@.len() != "settings"@.len());
    assert("recording_id"@[0] != "timeout_secs"@[0]);
    assert("recording_id"@.len() != "note"@.len());
    assert("recording_id"@.len() != "error"@.len());
    assert("recording_id"@.len() != "message"@.len());
    assert("recording_id"@.len() != "stdout"@.len());
    assert("recording_id"@.len() != "stderr"@.len());
    assert("recording_id"@.len() != "exit_code"@.len());
    assert("status"@.len() != "remote_path"@.len());
    assert("status"@.len() != "local_path"@.len());
    assert("status"@.len() != "duration_secs"@.len());
    assert("status"@.len() != "settings"@.len());
    assert("status"@.len() != "timeout_secs"@.len());
    assert("status"@.len() != "note"@.len());
    assert("status"@.len() != "error"@.len());
    assert("status"@.len() != "message"@.len());
    assert("status"@[2] != "stdout"@[2]);
    assert("status"@[2] != "stderr"@[2]);
    assert("status"@.len() != "exit_code"@.len());
    assert("remote_path"@.len() != "local_path"@.len());
    assert("remote_path"@.len() != "duration_secs"@.len());
    assert("remote_path"@.len() != "settings"@.len());
    assert("remote_path"@.len() != "timeout_secs"@.len());
    assert("remote_path"@.len() != "note"@.len());
    assert("remote_path"@.len() != "error"@.len());
    assert("remote_path"@.len() != "message"@.len());
    assert("remote_path"@.len() != "stdout"@.len());
    assert("remote_path"@.len() != "stderr"@.len());
    assert("remote_path"@.len() != "exit_code"@.len());
    assert("local_path"@.len() != "duration_secs"@.len());
    assert("local_path"@.len() != "settings"@.len());
    assert("local_path"@.len() != "timeout_secs"@.len());
    assert("local_path"@.len() != "note"@.len());
    assert("local_path"@.len() != "error"@.len());
    assert("local_path"@.len() != "message"@.len());
    assert("local_path"@.len() != "stdout"@.len());
    assert("local_path"@.len() != "stderr"@.len());
    assert("local_path"@.len() != "exit_code"@.len());
    assert("duration_secs"@.len() != "settings"@.len());
    assert("duration_secs"@.len() != "timeout_secs"@.len());
    assert("duration_secs"@.len() != "note"@.len());
    assert("duration_secs"@.len() != "error"@.len());
    assert("duration_secs"@.len() != "message"@.len());
    assert("duration_secs"@.len() != "stdout"@.len());
    assert("duration_secs"@.len() != "stderr"@.len());
    assert("duration_secs"@.len() != "exit_code"@.len());
    assert("settings"@.len() != "timeout_secs"@.len());
    assert("settings"@.len() != "note"@.len());
    assert("settings"@.len() != "error"@.len());
    assert("settings"@.len() != "message"@.len());
    assert("settings"@.len() != "stdout"@.len());
    assert("settings"@.len() != "stderr"@.len());
    assert("settings"@.len() != "exit_code"@.len());
    assert("timeout_secs"@.len() != "note"@.len());
    assert("timeout_secs"@.len() != "error"@.len());
    assert("timeout_secs"@.len() != "message"@.len());
    assert("timeout_secs"@.len() != "stdout"@.len());
    assert("timeout_secs"@.len() != "stderr"@.len());
    assert("timeout_secs"@.len() != "exit_code"@.len());
    assert("note"@.len() != "error"@.len());
    assert("note"@.len() != "message"@.len());
    assert("note"@.len() != "stdout"@.len());
    assert("note"@.len() != "stderr"@.len());
    assert("note"@.len() != "exit_code"@.len());
    assert("error"@.len() != "message"@.len());
    assert("error"@.len() != "stdout"@.len());
    assert("error"@.len() != "stderr"@.len());
    assert("error"@.len() != "exit_code"@.len());
    assert("message"@.len() != "stdout"@.len());
    assert("message"@.len() != "stderr"@.len());
    assert("message"@.len() != "exit_code"@.len());
    assert("stdout"@[3] != "stderr"@[3]);
    assert("stdout"@.len() != "exit_code"@.len());
    assert("stderr"@.len() != "exit_code"@.len());
    text::lemma_contains(
        "JFR.start 返回成功，但 JFR.check 未确认录制在运行（JVM 侧可能静默失败）。远端预期路径："@,
        path,
        "。"@,
    );
}

/// The number of a stage in the order of a call.
pub open spec fn order(stage: RecordStage<Seq<char>>) -> nat {
    match stage {
        RecordStage::Resolve => 0,
        RecordStage::Fit => 1,
        RecordStage::FindJcmd => 2,
        RecordStage::FindActive => 3,
        RecordStage::Clock => 4,
        RecordStage::Place => 5,
        RecordStage::TellStart => 6,
        RecordStage::Start => 7,
        RecordStage::KillStart => 8,
        RecordStage::Judge { out } => 8,
        RecordStage::Forget => 9,
        RecordStage::Verify => 9,
        RecordStage::KillVerify => 10,
        RecordStage::Stat { check } => 10,
        RecordStage::Count { check } => 11,
        RecordStage::Stamp => 12,
        RecordStage::Register { created_at } => 13,
        RecordStage::TellStarted { created_at } => 14,
        RecordStage::Ended { outcome } => 15,
    }
}

/// A call never goes back, so it starts at most one recording and adds at most one.
pub proof fn law_record_goes_forward(c: JfrRecordHandler<Seq<char>>, answer: Answer<Seq<char>>)
    ensures
        record_after(c, answer) == c || order(record_after(c, answer).stage) > order(c.stage),
        c.stage is Ended ==> record_after(c, answer) == c && record_request(c) is Finished,
{
}

/// The recording that a call shows is the one that it added.
pub proof fn law_shown_recording_was_added(
    c: JfrRecordHandler<Seq<char>>,
    created_at: u64,
    added: Answer<Seq<char>>,
    told: Answer<Seq<char>>,
)
    requires
        c.stage == (RecordStage::<Seq<char>>::Register { created_at }),
        added is Done,
        told is Done,
    ensures
        ({
            let end = record_after(record_after(c, added), told);
            &&& record_request(c) matches Ask::Register { recording, secs } && end.stage == (
            RecordStage::<Seq<char>>::Ended {
                outcome: RecordOutcome::Started {
                    recording,
                    secs,
                    start_stdout: c.start_stdout,
                },
            }) && recording.id == c.id
        }),
{
}

// ---------------------------------------------------------------------------------------------
// The tool
// ---------------------------------------------------------------------------------------------

/// The property that names the set of events.
pub open spec fn settings_prop() -> Json {
    Json::Object(
        json::no_members().insert("type"@, Json::Text("string"@)).insert(
            "enum"@,
            json::texts(seq!["profile"@, "default"@]),
        ).insert(
            "description"@,
            Json::Text(
                "事件档位：profile 全维度（开销 1~3%），default 低开销（<1%），默认 profile"@,
            ),
        ),
    )
}

/// The tool that starts a recording.
pub open spec fn record_offer() -> Offer {
    Offer {
        name: RECORD_TOOL@,
        description: "对目标 JVM 热开启 JFR 飞行录制并后台拉回（jcmd JFR.start，目标需 JDK 11+，profile 档开销约 1~3%，不中断服务）。本调用只做 JFR.start + JFR.check 校验，立即返回 recording_id（不等录制完成，长录制不超时）；后台等待 duration_secs（10~600，默认 60）落盘并自动拉回。轮询 jfr_record_status(recording_id)：recording（进行中）→ downloading（带 transfer_id，可轮询 transfer_status）→ completed（自动预热 JMC，直接用 jfr_quick_analysis / jfr_rules 起步诊断）/ failed（见 error，远端文件保留可 file_download 手动拉回）。⚠ 目标 JDK 8 不支持热开启 JFR（Oracle JDK 8 需启动参数，OpenJDK 8 无 JFR），此类场景改用 arthas_profiler。需先 ensure_tool 装备 JDK。"@,
        input_schema: output::object_schema(
            json::no_members().insert(
                "environment"@,
                output::prop("string"@, "目标环境名称（list_environments 返回的 name）"@),
            ).insert(
                "pid"@,
                output::prop("string"@, "目标 Java 进程 PID（list_processes 返回）"@),
            ).insert(
                "duration_secs"@,
                output::prop("number"@, "录制时长秒数，10~600，默认 60"@),
            ).insert("settings"@, settings_prop()).insert(
                "timeout_secs"@,
                output::prop("number"@, "后台等待落盘的总超时秒数（不影响本调用——本调用在 JFR.start 后即返回），默认 600，上限 1800；实际下限为 duration_secs+120"@),
            ).insert(
                "pod"@,
                output::prop("string"@, "Kubernetes Pod 名（容器环境必填；虚机环境不支持；全小写，须为 k8s_find_pods 返回的准确名，勿用服务名）"@),
            ).insert(
                "namespace"@,
                output::prop("string"@, "Kubernetes namespace（容器环境必填；与 pod 一起来自 k8s_find_pods 返回；全小写）"@),
            ).insert(
                "container"@,
                output::prop("string"@, "容器名（多容器 Pod 时指定；缺省用 Pod 默认容器）"@),
            ),
            seq!["environment"@, "pid"@],
        ),
        risk_level: RiskLevel::Low,
        category: ToolCategory::Jfr,
        needs_channel: false,
    }
}

fn settings_value() -> (r: serde_json::Value)
    ensures
        json::view_of(r) == settings_prop(),
{
    let mut m: serde_json::Map<String, serde_json::Value> = json::new_map();
    json::insert(&mut m, "type", json::text_value("string"));
    json::insert(&mut m, "enum", json::text_array(&output::two("profile", "default")));
    json::insert(
        &mut m,
        "description",
        json::text_value(
            "事件档位：profile 全维度（开销 1~3%），default 低开销（<1%），默认 profile",
        ),
    );
    json::object(m)
}

/// The tool that starts a recording.
pub fn record_tool_def() -> (r: ToolDef)
    ensures
        r@ == record_offer(),
{
    let mut props: serde_json::Map<String, serde_json::Value> = json::new_map();
    json::insert(
        &mut props,
        "environment",
        output::prop_value("string", "目标环境名称（list_environments 返回的 name）"),
    );
    json::insert(
        &mut props,
        "pid",
        output::prop_value("string", "目标 Java 进程 PID（list_processes 返回）"),
    );
    json::insert(
        &mut props,
        "duration_secs",
        output::prop_value("number", "录制时长秒数，10~600，默认 60"),
    );
    json::insert(&mut props, "settings", settings_value());
    json::insert(
        &mut props,
        "timeout_secs",
        output::prop_value("number", "后台等待落盘的总超时秒数（不影响本调用——本调用在 JFR.start 后即返回），默认 600，上限 1800；实际下限为 duration_secs+120"),
    );
    json::insert(
        &mut props,
        "pod",
        output::prop_value("string", "Kubernetes Pod 名（容器环境必填；虚机环境不支持；全小写，须为 k8s_find_pods 返回的准确名，勿用服务名）"),
    );
    json::insert(
        &mut props,
        "namespace",
        output::prop_value("string", "Kubernetes namespace（容器环境必填；与 pod 一起来自 k8s_find_pods 返回；全小写）"),
    );
    json::insert(
        &mut props,
        "container",
        output::prop_value("string", "容器名（多容器 Pod 时指定；缺省用 Pod 默认容器）"),
    );
    ToolDef {
        name: RECORD_TOOL.to_owned(),
        description: "对目标 JVM 热开启 JFR 飞行录制并后台拉回（jcmd JFR.start，目标需 JDK 11+，profile 档开销约 1~3%，不中断服务）。本调用只做 JFR.start + JFR.check 校验，立即返回 recording_id（不等录制完成，长录制不超时）；后台等待 duration_secs（10~600，默认 60）落盘并自动拉回。轮询 jfr_record_status(recording_id)：recording（进行中）→ downloading（带 transfer_id，可轮询 transfer_status）→ completed（自动预热 JMC，直接用 jfr_quick_analysis / jfr_rules 起步诊断）/ failed（见 error，远端文件保留可 file_download 手动拉回）。⚠ 目标 JDK 8 不支持热开启 JFR（Oracle JDK 8 需启动参数，OpenJDK 8 无 JFR），此类场景改用 arthas_profiler。需先 ensure_tool 装备 JDK。".to_owned(),
        input_schema: output::object_schema_value(props, &output::two("environment", "pid")),
        risk_level: RiskLevel::Low,
        category: ToolCategory::Jfr,
        needs_channel: false,
    }
}

/// The tool takes an environment and a process, which it needs, a duration, one of the two settings,
/// a time limit and a target in a pod, and nothing else.
pub proof fn law_record_tool_says_what_it_takes(key: Seq<char>)
    ensures
        ({
            let o = record_offer();
            &&& o.name == "jfr_record"@
            &&& output::parameter(o, "environment"@) == Some("string"@)
            &&& output::parameter(o, "pid"@) == Some("string"@)
            &&& output::parameter(o, "duration_secs"@) == Some("number"@)
            &&& output::parameter(o, "settings"@) == Some("string"@)
            &&& output::parameter(o, "timeout_secs"@) == Some("number"@)
            &&& output::parameter(o, "pod"@) == Some("string"@)
            &&& output::parameter(o, "namespace"@) == Some("string"@)
            &&& output::parameter(o, "container"@) == Some("string"@)
            &&& key != "environment"@ && key != "pid"@ && key != "duration_secs"@ && key != "settings"@
                && key != "timeout_secs"@ && key != "pod"@ && key != "namespace"@ && key != "container"@
                ==> output::parameter(o, key) is None
            &&& output::required_parameters(o) == Some(json::texts(seq!["environment"@, "pid"@]))
            &&& o.risk_level == RiskLevel::Low
            &&& o.category == ToolCategory::Jfr
            &&& !o.needs_channel
            &&& json::member(settings_prop(), "enum"@) == Some(json::texts(seq!["profile"@, "default"@]))
        }),
{
    let o = record_offer();
    let props = json::no_members()
        .insert("environment"@, output::prop("string"@, "目标环境名称（list_environments 返回的 name）"@))
        .insert("pid"@, output::prop("string"@, "目标 Java 进程 PID（list_processes 返回）"@))
        .insert("duration_secs"@, output::prop("number"@, "录制时长秒数，10~600，默认 60"@))
        .insert("settings"@, settings_prop())
        .insert("timeout_secs"@, output::prop("number"@, "后台等待落盘的总超时秒数（不影响本调用——本调用在 JFR.start 后即返回），默认 600，上限 1800；实际下限为 duration_secs+120"@))
        .insert("pod"@, output::prop("string"@, "Kubernetes Pod 名（容器环境必填；虚机环境不支持；全小写，须为 k8s_find_pods 返回的准确名，勿用服务名）"@))
        .insert("namespace"@, output::prop("string"@, "Kubernetes namespace（容器环境必填；与 pod 一起来自 k8s_find_pods 返回；全小写）"@))
        .insert("container"@, output::prop("string"@, "容器名（多容器 Pod 时指定；缺省用 Pod 默认容器）"@));
    reveal_strlit("environment");
    reveal_strlit("pid");
    reveal_strlit("duration_secs");
    reveal_strlit("settings");
    reveal_strlit("timeout_secs");
    reveal_strlit("pod");
    reveal_strlit("namespace");
    reveal_strlit("container");
    reveal_strlit("type");
    reveal_strlit("enum");
    reveal_strlit("description");
    assert("environment"@.len() != "pid"@.len());
    assert("environment"@.len() != "duration_secs"@.len());
    assert("environment"@.len() != "settings"@.len());
    assert("environment"@.len() != "timeout_secs"@.len());
    assert("environment"@.len() != "pod"@.len());
    assert("environment"@.len() != "namespace"@.len());
    assert("environment"@.len() != "container"@.len());
    assert("environment"@.len() != "type"@.len());
    assert("environment"@.len() != "enum"@.len());
    assert("environment"@[0] != "description"@[0]);
    assert("pid"@.len() != "duration_secs"@.len());
    assert("pid"@.len() != "settings"@.len());
    assert("pid"@.len() != "timeout_secs"@.len());
    assert("pid"@[1] != "pod"@[1]);
    assert("pid"@.len() != "namespace"@.len());
    assert("pid"@.len() != "container"@.len());
    assert("pid"@.len() != "type"@.len());
    assert("pid"@.len() != "enum"@.len());
    assert("pid"@.len() != "description"@.len());
    assert("duration_secs"@.len() != "settings"@.len());
    assert("duration_secs"@.len() != "timeout_secs"@.len());
    assert("duration_secs"@.len() != "pod"@.len());
    assert("duration_secs"@.len() != "namespace"@.len());
    assert("duration_secs"@.len() != "container"@.len());
    assert("duration_secs"@.len() != "type"@.len());
    assert("duration_secs"@.len() != "enum"@.len());
    assert("duration_secs"@.len() != "description"@.len());
    assert("settings"@.len() != "timeout_secs"@.len());
    assert("settings"@.len() != "pod"@.len());
    assert("settings"@.len() != "namespace"@.len());
    assert("settings"@.len() != "container"@.len());
    assert("settings"@.len() != "type"@.len());
    assert("settings"@.len() != "enum"@.len());
    assert("settings"@.len() != "description"@.len());
    assert("timeout_secs"@.len() != "pod"@.len());
    assert("timeout_secs"@.len() != "namespace"@.len());
    assert("timeout_secs"@.len() != "container"@.len());
    assert("timeout_secs"@.len() != "type"@.len());
    assert("timeout_secs"@.len() != "enum"@.len());
    assert("timeout_secs"@.len() != "description"@.len());
    assert("pod"@.len() != "namespace"@.len());
    assert("pod"@.len() != "container"@.len());
    assert("pod"@.len() != "type"@.len());
    assert("pod"@.len() != "enum"@.len());
    assert("pod"@.len() != "description"@.len());
    assert("namespace"@[0] != "container"@[0]);
    assert("namespace"@.len() != "type"@.len());
    assert("namespace"@.len() != "enum"@.len());
    assert("namespace"@.len() != "description"@.len());
    assert("container"@.len() != "type"@.len());
    assert("container"@.len() != "enum"@.len());
    assert("container"@.len() != "description"@.len());
    assert("type"@[0] != "enum"@[0]);
    assert("type"@.len() != "description"@.len());
    assert("enum"@.len() != "description"@.len());
    output::law_schema_lists_its_properties(o, props, seq!["environment"@, "pid"@], "environment"@);
    output::law_schema_lists_its_properties(o, props, seq!["environment"@, "pid"@], "pid"@);
    output::law_schema_lists_its_properties(o, props, seq!["environment"@, "pid"@], "duration_secs"@);
    output::law_schema_lists_its_properties(o, props, seq!["environment"@, "pid"@], "settings"@);
    output::law_schema_lists_its_properties(o, props, seq!["environment"@, "pid"@], "timeout_secs"@);
    output::law_schema_lists_its_properties(o, props, seq!["environment"@, "pid"@], "pod"@);
    output::law_schema_lists_its_properties(o, props, seq!["environment"@, "pid"@], "namespace"@);
    output::law_schema_lists_its_properties(o, props, seq!["environment"@, "pid"@], "container"@);
    output::law_schema_lists_its_properties(o, props, seq!["environment"@, "pid"@], key);
    output::law_property_says_its_type("string"@, "目标环境名称（list_environments 返回的 name）"@);
    output::law_property_says_its_type("string"@, "目标 Java 进程 PID（list_processes 返回）"@);
    output::law_property_says_its_type("number"@, "录制时长秒数，10~600，默认 60"@);
    output::law_property_says_its_type("number"@, "后台等待落盘的总超时秒数（不影响本调用——本调用在 JFR.start 后即返回），默认 600，上限 1800；实际下限为 duration_secs+120"@);
    output::law_property_says_its_type("string"@, "Kubernetes Pod 名（容器环境必填；虚机环境不支持；全小写，须为 k8s_find_pods 返回的准确名，勿用服务名）"@);
    output::law_property_says_its_type("string"@, "Kubernetes namespace（容器环境必填；与 pod 一起来自 k8s_find_pods 返回；全小写）"@);
    output::law_property_says_its_type("string"@, "容器名（多容器 Pod 时指定；缺省用 Pod 默认容器）"@);
}

} // verus!
