//! Waiting for a recording to be written, and having it fetched.

use vstd::prelude::*;

use crate::exec::k8s;
use crate::flow::Output;
use crate::text;
use crate::tools::call::{Answer, Ask};
use crate::tools::jfr::record;
use crate::tools::jfr::record::RECORD_TOOL;
use crate::tools::jfr::recordings::Recording;

verus! {

/// How long to wait between two looks at a recording, in milliseconds.
pub const RECORD_POLL_INTERVAL_MS: u64 = 3000;

/// How long it may take to ask after a pod, in seconds.
pub const PHASE_CHECK_TIMEOUT_SECS: u64 = 15;

pub open spec fn never_written(path: Seq<char>, secs: u64) -> Seq<char> {
    "录制到时后文件未就绪："@ + path + "（已等待 "@ + text::dec(secs as nat)
        + "s）。远端文件可能仍在写入，可稍后用 file_download 手动拉回"@
}

fn never_written_text(path: &str, secs: u64) -> (r: String)
    ensures
        r@ == never_written(path@, secs),
{
    "录制到时后文件未就绪：".to_owned()
        .concat(path)
        .concat("（已等待 ")
        .concat(text::u64_text(secs).as_str())
        .concat("s）。远端文件可能仍在写入，可稍后用 file_download 手动拉回")
}

pub open spec fn not_ready(error: Seq<char>) -> Seq<char> {
    "录制文件未就绪："@ + error
}

fn not_ready_text(error: &str) -> (r: String)
    ensures
        r@ == not_ready(error@),
{
    "录制文件未就绪：".to_owned().concat(error)
}

pub open spec fn pod_gone(detail: Seq<char>, path: Seq<char>) -> Seq<char> {
    "目标 Pod 已死亡，录制中断（kubectl: "@ + detail
        + "）。请重新调用 k8s_find_pods 定位新 Pod 后重新 jfr_record；若 dump 目录为共享持久卷，也可用 file_download(新 Pod, "@
        + path + ") 尝试抢救。"@
}

fn pod_gone_text(detail: &str, path: &str) -> (r: String)
    ensures
        r@ == pod_gone(detail@, path@),
{
    "目标 Pod 已死亡，录制中断（kubectl: ".to_owned()
        .concat(detail)
        .concat("）。请重新调用 k8s_find_pods 定位新 Pod 后重新 jfr_record；若 dump 目录为共享持久卷，也可用 file_download(新 Pod, ")
        .concat(path)
        .concat(") 尝试抢救。")
}

pub open spec fn pod_not_running(phase: Seq<char>, path: Seq<char>) -> Seq<char> {
    "目标 Pod 已不处于 Running 状态（phase="@ + phase + "），录制文件 "@ + path
        + " 不可达。请重新调用 k8s_find_pods 定位新 Pod 后重新 jfr_record；若 dump 目录为共享持久卷，也可用 file_download(新 Pod, 同路径) 尝试抢救。"@
}

fn pod_not_running_text(phase: &str, path: &str) -> (r: String)
    ensures
        r@ == pod_not_running(phase@, path@),
{
    "目标 Pod 已不处于 Running 状态（phase=".to_owned()
        .concat(phase)
        .concat("），录制文件 ")
        .concat(path)
        .concat(" 不可达。请重新调用 k8s_find_pods 定位新 Pod 后重新 jfr_record；若 dump 目录为共享持久卷，也可用 file_download(新 Pod, 同路径) 尝试抢救。")
}

pub open spec fn recorded_but_dead(phase: Seq<char>) -> Seq<char> {
    "录制已完成但目标 Pod 已死亡（phase="@ + phase + "），无法拉回"@
}

fn recorded_but_dead_text(phase: &str) -> (r: String)
    ensures
        r@ == recorded_but_dead(phase@),
{
    "录制已完成但目标 Pod 已死亡（phase=".to_owned().concat(phase).concat("），无法拉回")
}

/// The phase of a pod that a query printed, where it printed one.
pub open spec fn phase_of(out: Output<Seq<char>>) -> Option<Seq<char>> {
    if out.exit_code == 0 {
        text::non_blank(Some(text::trimmed(out.stdout)))
    } else {
        None
    }
}

/// The phase of a pod that a query printed, where it printed one.
pub fn pod_phase(out: &Output<String>) -> (r: Option<String>)
    ensures
        text::opt(r) == phase_of(out@),
{
    if out.exit_code == 0 {
        let phase: String = text::trim(out.stdout.as_str());
        if phase.as_str().is_empty() {
            None
        } else {
            Some(phase)
        }
    } else {
        None
    }
}

/// The phase that an answer tells: none where the query failed or did not end. `None` outside
/// where the answer is about something else.
pub open spec fn told_phase(answer: Answer<Seq<char>>) -> Option<Option<Seq<char>>> {
    match answer {
        Answer::Ran { ran: Ok(out), elapsed_ms } => Some(phase_of(out)),
        Answer::Ran { ran: Err(_), elapsed_ms } => Some(None),
        Answer::TimedOut => Some(None),
        _ => None,
    }
}

/// The phase that an answer tells.
pub fn phase_answer(answer: &Answer<String>) -> (r: Option<Option<String>>)
    ensures
        (match r {
            Some(p) => Some(text::opt(p)),
            None => None,
        }) == told_phase(answer@),
{
    match answer {
        Answer::Ran { ran: Ok(out), elapsed_ms: _ } => Some(pod_phase(out)),
        Answer::Ran { ran: Err(_), elapsed_ms: _ } => Some(None),
        Answer::TimedOut => Some(None),
        _ => None,
    }
}

/// Where the wait stands.
#[derive(Debug, PartialEq, Eq)]
pub enum WaitStage<S> {
    /// Is the time over?
    Top,
    /// Drop the connection: the time is over.
    Late,
    /// How long was it?
    Waited,
    /// Wait before the next look.
    Sleep,
    /// Connect.
    Connect,
    /// How large is the recording?
    Stat,
    /// How many bytes does it have, in a container without `stat`?
    Count,
    /// Is the pod gone?
    Judge { stderr: S },
    /// Drop the connection: the pod is gone.
    Gone { detail: S },
    /// Drop the connection: it broke.
    Lost,
    /// Can the recording have been written?
    Measure { size: u64 },
    /// Drop the connection: the recording was written.
    Ready { size: u64 },
    /// Does the pod still run?
    Phase { size: u64 },
    /// Have the recording fetched.
    Fetch { size: u64 },
    /// Note that it is being fetched.
    MarkFetch { size: u64, transfer_id: S },
    /// Tell of it.
    TellFetch,
    /// Note that it is lost.
    MarkLoss { code: S, error: S, notice: S },
    /// Tell of it.
    TellLoss { notice: S },
    /// It is over.
    Ended,
}

/// The wait for a recording.
#[derive(Debug, PartialEq, Eq)]
pub struct Wait<S> {
    pub rec: Recording<S>,
    /// Whether there is a connection.
    pub connected: bool,
    /// The size at the last look.
    pub last_size: u64,
    pub stage: WaitStage<S>,
}

impl View for WaitStage<String> {
    type V = WaitStage<Seq<char>>;

    open spec fn view(&self) -> WaitStage<Seq<char>> {
        match *self {
            WaitStage::Top => WaitStage::Top,
            WaitStage::Late => WaitStage::Late,
            WaitStage::Waited => WaitStage::Waited,
            WaitStage::Sleep => WaitStage::Sleep,
            WaitStage::Connect => WaitStage::Connect,
            WaitStage::Stat => WaitStage::Stat,
            WaitStage::Count => WaitStage::Count,
            WaitStage::Judge { stderr } => WaitStage::Judge { stderr: stderr@ },
            WaitStage::Gone { detail } => WaitStage::Gone { detail: detail@ },
            WaitStage::Lost => WaitStage::Lost,
            WaitStage::Measure { size } => WaitStage::Measure { size },
            WaitStage::Ready { size } => WaitStage::Ready { size },
            WaitStage::Phase { size } => WaitStage::Phase { size },
            WaitStage::Fetch { size } => WaitStage::Fetch { size },
            WaitStage::MarkFetch { size, transfer_id } => WaitStage::MarkFetch {
                size,
                transfer_id: transfer_id@,
            },
            WaitStage::TellFetch => WaitStage::TellFetch,
            WaitStage::MarkLoss { code, error, notice } => WaitStage::MarkLoss {
                code: code@,
                error: error@,
                notice: notice@,
            },
            WaitStage::TellLoss { notice } => WaitStage::TellLoss { notice: notice@ },
            WaitStage::Ended => WaitStage::Ended,
        }
    }
}

impl View for Wait<String> {
    type V = Wait<Seq<char>>;

    open spec fn view(&self) -> Wait<Seq<char>> {
        Wait {
            rec: self.rec@,
            connected: self.connected,
            last_size: self.last_size,
            stage: self.stage@,
        }
    }
}

/// The wait before its first step.
pub open spec fn wait_start(rec: Recording<Seq<char>>) -> Wait<Seq<char>> {
    Wait { rec, connected: false, last_size: 0, stage: WaitStage::Top }
}

/// What the wait asks for where it stands.
pub open spec fn wait_request(w: Wait<Seq<char>>) -> Ask<Seq<char>> {
    match w.stage {
        WaitStage::Top => Ask::Elapsed,
        WaitStage::Late => Ask::Disconnect,
        WaitStage::Waited => Ask::Elapsed,
        WaitStage::Sleep => Ask::Pause { millis: RECORD_POLL_INTERVAL_MS },
        WaitStage::Connect => Ask::Connect,
        WaitStage::Stat => Ask::Run { cmd: k8s::stat_command(w.rec.remote_path), secs: None },
        WaitStage::Count => Ask::Run { cmd: k8s::count_command(w.rec.remote_path), secs: None },
        WaitStage::Judge { stderr } => Ask::IsPodGone { stderr },
        WaitStage::Gone { detail } => Ask::Disconnect,
        WaitStage::Lost => Ask::Disconnect,
        WaitStage::Measure { size } => Ask::Elapsed,
        WaitStage::Ready { size } => Ask::Disconnect,
        WaitStage::Phase { size } => Ask::PodPhase {
            pod: match w.rec.pod {
                Some(p) => p,
                None => Seq::empty(),
            },
            namespace: match w.rec.namespace {
                Some(n) => n,
                None => Seq::empty(),
            },
            secs: PHASE_CHECK_TIMEOUT_SECS,
        },
        WaitStage::Fetch { size } => Ask::Fetch { recording: w.rec, remove_remote: true },
        WaitStage::MarkFetch { size, transfer_id } => Ask::MarkDownloading {
            transfer_id,
            remote_size: size,
        },
        WaitStage::TellFetch => Ask::Tell {
            tool: RECORD_TOOL@,
            stage: "download"@,
            detail: "录制完成，后台拉回已启动（jfr_record_status / transfer_status 可查进度）"@,
        },
        WaitStage::MarkLoss { code, error, notice } => Ask::MarkFailed { code, error },
        WaitStage::TellLoss { notice } => Ask::Tell {
            tool: RECORD_TOOL@,
            stage: "record"@,
            detail: notice,
        },
        WaitStage::Ended => Ask::Finished,
    }
}

/// The wait in a stage.
pub open spec fn wait_goto(w: Wait<Seq<char>>, stage: WaitStage<Seq<char>>) -> Wait<Seq<char>> {
    Wait { stage, ..w }
}

/// The wait without its connection, in a stage.
pub open spec fn wait_dropped(w: Wait<Seq<char>>, stage: WaitStage<Seq<char>>) -> Wait<Seq<char>> {
    Wait { connected: false, stage, ..w }
}

/// The wait before its next look, with the size at the last one.
pub open spec fn wait_again(w: Wait<Seq<char>>, size: u64) -> Wait<Seq<char>> {
    Wait { last_size: size, stage: WaitStage::Top, ..w }
}

/// What follows a recording that was written: a look at its pod, where it is in one.
pub open spec fn wait_written(w: Wait<Seq<char>>, size: u64) -> WaitStage<Seq<char>> {
    if w.rec.pod is Some && w.rec.namespace is Some {
        WaitStage::Phase { size }
    } else {
        WaitStage::Fetch { size }
    }
}

/// What follows a look at the pod: only a pod that is known not to run stops the fetching.
pub open spec fn wait_phased(w: Wait<Seq<char>>, size: u64, phase: Option<Seq<char>>) -> WaitStage<
    Seq<char>,
> {
    match phase {
        Some(p) => if p != "Running"@ {
            WaitStage::MarkLoss {
                code: "pod_failed"@,
                error: pod_not_running(p, w.rec.remote_path),
                notice: recorded_but_dead(p),
            }
        } else {
            WaitStage::Fetch { size }
        },
        None => WaitStage::Fetch { size },
    }
}

/// What follows a look at the size of the recording.
pub open spec fn wait_looked(w: Wait<Seq<char>>, out: Output<Seq<char>>) -> Wait<Seq<char>> {
    if out.exit_code == 0 {
        wait_goto(w, WaitStage::Measure { size: record::printed_size(out) as u64 })
    } else {
        wait_goto(w, WaitStage::Judge { stderr: out.stderr })
    }
}

/// The wait after an answer.
pub open spec fn wait_after(w: Wait<Seq<char>>, answer: Answer<Seq<char>>) -> Wait<Seq<char>> {
    match (w.stage, answer) {
        (WaitStage::Top, Answer::Elapsed { secs, over }) => if !over {
            wait_goto(w, WaitStage::Sleep)
        } else if w.connected {
            wait_goto(w, WaitStage::Late)
        } else {
            wait_goto(w, WaitStage::Waited)
        },
        (WaitStage::Late, Answer::Done) => wait_dropped(w, WaitStage::Waited),
        (WaitStage::Waited, Answer::Elapsed { secs, over }) => {
            let error = never_written(w.rec.remote_path, secs);
            wait_goto(
                w,
                WaitStage::MarkLoss {
                    code: "record_not_found"@,
                    error,
                    notice: not_ready(error),
                },
            )
        },
        (WaitStage::Sleep, Answer::Done) => if w.connected {
            wait_goto(w, WaitStage::Stat)
        } else {
            wait_goto(w, WaitStage::Connect)
        },
        (WaitStage::Connect, Answer::Checked { checked }) => match checked {
            Ok(_) => Wait { connected: true, stage: WaitStage::Stat, ..w },
            Err(_) => wait_again(w, 0),
        },
        (WaitStage::Stat, Answer::Ran { ran, elapsed_ms }) => match ran {
            Ok(out) => if w.rec.pod is Some && k8s::lacks_program(out) {
                wait_goto(w, WaitStage::Count)
            } else {
                wait_looked(w, out)
            },
            Err(_) => wait_goto(w, WaitStage::Lost),
        },
        (WaitStage::Count, Answer::Ran { ran, elapsed_ms }) => match ran {
            Ok(out) => wait_looked(w, out),
            Err(_) => wait_goto(w, WaitStage::Lost),
        },
        (WaitStage::Judge { stderr }, Answer::Flag { flag }) => if flag {
            wait_goto(w, WaitStage::Gone { detail: text::trimmed(stderr) })
        } else {
            wait_again(w, 0)
        },
        (WaitStage::Gone { detail }, Answer::Done) => wait_dropped(
            w,
            WaitStage::MarkLoss {
                code: "pod_failed"@,
                error: pod_gone(detail, w.rec.remote_path),
                notice: "目标 Pod 已死亡，录制中断"@,
            },
        ),
        (WaitStage::Lost, Answer::Done) => Wait {
            connected: false,
            last_size: 0,
            stage: WaitStage::Top,
            ..w
        },
        (WaitStage::Measure { size }, Answer::Elapsed { secs, over }) => if secs
            >= w.rec.duration_secs && size > 0 && size == w.last_size {
            wait_goto(w, WaitStage::Ready { size })
        } else {
            wait_again(w, size)
        },
        (WaitStage::Ready { size }, Answer::Done) => wait_dropped(w, wait_written(w, size)),
        (WaitStage::Phase { size }, _) => match told_phase(answer) {
            Some(phase) => wait_goto(w, wait_phased(w, size, phase)),
            None => w,
        },
        (WaitStage::Fetch { size }, Answer::Text { text }) => wait_goto(
            w,
            WaitStage::MarkFetch { size, transfer_id: text },
        ),
        (WaitStage::MarkFetch { size, transfer_id }, Answer::Done) => wait_goto(
            w,
            WaitStage::TellFetch,
        ),
        (WaitStage::TellFetch, Answer::Done) => wait_goto(w, WaitStage::Ended),
        (WaitStage::MarkLoss { code, error, notice }, Answer::Done) => wait_goto(
            w,
            WaitStage::TellLoss { notice },
        ),
        (WaitStage::TellLoss { notice }, Answer::Done) => wait_goto(w, WaitStage::Ended),
        _ => w,
    }
}

/// Begins to wait for a recording.
pub fn run_recording_wait(rec: Recording<String>) -> (r: Wait<String>)
    ensures
        r@ == wait_start(rec@),
{
    Wait { rec, connected: false, last_size: 0, stage: WaitStage::Top }
}

impl Wait<String> {
    /// What is asked for.
    pub fn request(&self) -> (r: Ask<String>)
        ensures
            r@ == wait_request(self@),
    {
        match &self.stage {
            WaitStage::Top => Ask::Elapsed,
            WaitStage::Late => Ask::Disconnect,
            WaitStage::Waited => Ask::Elapsed,
            WaitStage::Sleep => Ask::Pause { millis: RECORD_POLL_INTERVAL_MS },
            WaitStage::Connect => Ask::Connect,
            WaitStage::Stat => Ask::Run {
                cmd: k8s::stat_text(self.rec.remote_path.as_str()),
                secs: None,
            },
            WaitStage::Count => Ask::Run {
                cmd: k8s::count_text(self.rec.remote_path.as_str()),
                secs: None,
            },
            WaitStage::Judge { stderr } => Ask::IsPodGone { stderr: stderr.clone() },
            WaitStage::Gone { detail: _ } => Ask::Disconnect,
            WaitStage::Lost => Ask::Disconnect,
            WaitStage::Measure { size: _ } => Ask::Elapsed,
            WaitStage::Ready { size: _ } => Ask::Disconnect,
            WaitStage::Phase { size: _ } => Ask::PodPhase {
                pod: match &self.rec.pod {
                    Some(p) => p.clone(),
                    None => String::new(),
                },
                namespace: match &self.rec.namespace {
                    Some(n) => n.clone(),
                    None => String::new(),
                },
                secs: PHASE_CHECK_TIMEOUT_SECS,
            },
            WaitStage::Fetch { size: _ } => Ask::Fetch {
                recording: self.rec.copy(),
                remove_remote: true,
            },
            WaitStage::MarkFetch { size, transfer_id } => Ask::MarkDownloading {
                transfer_id: transfer_id.clone(),
                remote_size: *size,
            },
            WaitStage::TellFetch => Ask::Tell {
                tool: RECORD_TOOL.to_owned(),
                stage: "download".to_owned(),
                detail: "录制完成，后台拉回已启动（jfr_record_status / transfer_status 可查进度）".to_owned(),
            },
            WaitStage::MarkLoss { code, error, notice: _ } => Ask::MarkFailed {
                code: code.clone(),
                error: error.clone(),
            },
            WaitStage::TellLoss { notice } => Ask::Tell {
                tool: RECORD_TOOL.to_owned(),
                stage: "record".to_owned(),
                detail: notice.clone(),
            },
            WaitStage::Ended => Ask::Finished,
        }
    }

    fn goto(self, stage: WaitStage<String>) -> (r: Self)
        ensures
            r@ == wait_goto(self@, stage@),
    {
        Wait { stage, ..self }
    }

    fn dropped(self, stage: WaitStage<String>) -> (r: Self)
        ensures
            r@ == wait_dropped(self@, stage@),
    {
        Wait { connected: false, stage, ..self }
    }

    fn again(self, size: u64) -> (r: Self)
        ensures
            r@ == wait_again(self@, size),
    {
        Wait { last_size: size, stage: WaitStage::Top, ..self }
    }

    fn looked(self, out: Output<String>) -> (r: Self)
        ensures
            r@ == wait_looked(self@, out@),
    {
        if out.exit_code == 0 {
            self.goto(WaitStage::Measure { size: record::parse_size(&out) })
        } else {
            self.goto(WaitStage::Judge { stderr: out.stderr })
        }
    }

    fn written(&self, size: u64) -> (r: WaitStage<String>)
        ensures
            r@ == wait_written(self@, size),
    {
        if self.rec.pod.is_some() && self.rec.namespace.is_some() {
            WaitStage::Phase { size }
        } else {
            WaitStage::Fetch { size }
        }
    }

    fn phased(&self, size: u64, phase: Option<String>) -> (r: WaitStage<String>)
        ensures
            r@ == wait_phased(self@, size, text::opt(phase)),
    {
        match phase {
            Some(p) => if !text::same(p.as_str(), "Running") {
                WaitStage::MarkLoss {
                    code: "pod_failed".to_owned(),
                    error: pod_not_running_text(p.as_str(), self.rec.remote_path.as_str()),
                    notice: recorded_but_dead_text(p.as_str()),
                }
            } else {
                WaitStage::Fetch { size }
            },
            None => WaitStage::Fetch { size },
        }
    }

    /// Takes the answer to what was asked for.
    pub fn step(self, answer: Answer<String>) -> (r: Self)
        ensures
            r@ == wait_after(self@, answer@),
    {
        let stage: WaitStage<String> = self.stage;
        let me: Wait<String> = Wait { stage: WaitStage::Top, ..self };
        match (stage, answer) {
            (WaitStage::Top, Answer::Elapsed { secs: _, over }) => if !over {
                me.goto(WaitStage::Sleep)
            } else if me.connected {
                me.goto(WaitStage::Late)
            } else {
                me.goto(WaitStage::Waited)
            },
            (WaitStage::Late, Answer::Done) => me.dropped(WaitStage::Waited),
            (WaitStage::Waited, Answer::Elapsed { secs, over: _ }) => {
                let error: String = never_written_text(me.rec.remote_path.as_str(), secs);
                let notice: String = not_ready_text(error.as_str());
                me.goto(
                    WaitStage::MarkLoss { code: "record_not_found".to_owned(), error, notice },
                )
            },
            (WaitStage::Sleep, Answer::Done) => if me.connected {
                me.goto(WaitStage::Stat)
            } else {
                me.goto(WaitStage::Connect)
            },
            (WaitStage::Connect, Answer::Checked { checked }) => match checked {
                Ok(_) => Wait { connected: true, stage: WaitStage::Stat, ..me },
                Err(_) => me.again(0),
            },
            (WaitStage::Stat, Answer::Ran { ran, elapsed_ms: _ }) => match ran {
                Ok(out) => if me.rec.pod.is_some() && out.exit_code == k8s::PROGRAM_NOT_FOUND {
                    me.goto(WaitStage::Count)
                } else {
                    me.looked(out)
                },
                Err(_) => me.goto(WaitStage::Lost),
            },
            (WaitStage::Count, Answer::Ran { ran, elapsed_ms: _ }) => match ran {
                Ok(out) => me.looked(out),
                Err(_) => me.goto(WaitStage::Lost),
            },
            (WaitStage::Judge { stderr }, Answer::Flag { flag }) => if flag {
                me.goto(WaitStage::Gone { detail: text::trim(stderr.as_str()) })
            } else {
                me.again(0)
            },
            (WaitStage::Gone { detail }, Answer::Done) => {
                let error: String = pod_gone_text(detail.as_str(), me.rec.remote_path.as_str());
                me.dropped(
                    WaitStage::MarkLoss {
                        code: "pod_failed".to_owned(),
                        error,
                        notice: "目标 Pod 已死亡，录制中断".to_owned(),
                    },
                )
            },
            (WaitStage::Lost, Answer::Done) => Wait {
                connected: false,
                last_size: 0,
                stage: WaitStage::Top,
                ..me
            },
            (WaitStage::Measure { size }, Answer::Elapsed { secs, over: _ }) => if secs
                >= me.rec.duration_secs as u64 && size > 0 && size == me.last_size {
                me.goto(WaitStage::Ready { size })
            } else {
                me.again(size)
            },
            (WaitStage::Ready { size }, Answer::Done) => {
                let next: WaitStage<String> = me.written(size);
                me.dropped(next)
            },
            (WaitStage::Phase { size }, answer) => match phase_answer(&answer) {
                Some(phase) => {
                    let next: WaitStage<String> = me.phased(size, phase);
                    me.goto(next)
                },
                None => me.goto(WaitStage::Phase { size }),
            },
            (WaitStage::Fetch { size }, Answer::Text { text }) => me.goto(
                WaitStage::MarkFetch { size, transfer_id: text },
            ),
            (WaitStage::MarkFetch { size: _, transfer_id: _ }, Answer::Done) => me.goto(
                WaitStage::TellFetch,
            ),
            (WaitStage::TellFetch, Answer::Done) => me.goto(WaitStage::Ended),
            (WaitStage::MarkLoss { code: _, error: _, notice }, Answer::Done) => me.goto(
                WaitStage::TellLoss { notice },
            ),
            (WaitStage::TellLoss { notice: _ }, Answer::Done) => me.goto(WaitStage::Ended),
            (stage, _) => me.goto(stage),
        }
    }
}

/// A recording is taken as written only after its time, and when two looks in a row found the
/// same size, which is not zero.
pub proof fn law_written_means_stable(w: Wait<Seq<char>>, answer: Answer<Seq<char>>, size: u64)
    requires
        w.stage !is Ready,
        wait_after(w, answer).stage == (WaitStage::<Seq<char>>::Ready { size }),
    ensures
        size > 0,
        w.last_size == size,
        w.stage == (WaitStage::<Seq<char>>::Measure { size }),
        answer matches Answer::Elapsed { secs, over: _ } && secs >= w.rec.duration_secs,
{
}

/// A look that fails, or a connection that breaks, sets the size at the last look back to zero, so
/// that a recording is not taken as written by two looks with a gap between them.
pub proof fn law_failed_look_starts_over(w: Wait<Seq<char>>, answer: Answer<Seq<char>>)
    requires
        w.stage is Connect || w.stage is Judge || w.stage is Lost,
        wait_after(w, answer).stage is Top,
    ensures
        wait_after(w, answer).last_size == 0,
{
}

/// The bytes of a recording are counted only in a container that has no `stat`.
pub proof fn law_counted_only_without_stat(w: Wait<Seq<char>>, answer: Answer<Seq<char>>)
    requires
        w.stage !is Count,
        wait_after(w, answer).stage is Count,
    ensures
        w.stage is Stat,
        w.rec.pod is Some,
        answer matches Answer::Ran { ran: Ok(out), elapsed_ms: _ } && k8s::lacks_program(out),
{
}

/// The fetching is given up only for a pod that is known not to run; where nothing is known of it,
/// the recording is fetched.
pub proof fn law_unknown_pod_is_fetched_from(
    w: Wait<Seq<char>>,
    answer: Answer<Seq<char>>,
    size: u64,
)
    requires
        w.stage == (WaitStage::<Seq<char>>::Phase { size }),
        told_phase(answer) == Some(None::<Seq<char>>),
    ensures
        wait_after(w, answer).stage == (WaitStage::<Seq<char>>::Fetch { size }),
{
}

/// A recording that was written is fetched: two looks at its file with the same size, the later of
/// them once its time is over, a look at its pod where it is in one, then the fetching, which is noted
/// with the size that was seen and the transfer that was begun, and told.
pub proof fn law_written_recording_is_fetched(
    w: Wait<Seq<char>>,
    out: Output<Seq<char>>,
    size: u64,
    secs: u64,
    over: bool,
    transfer_id: Seq<char>,
    running: Output<Seq<char>>,
    ms: u64,
)
    requires
        w.stage is Stat,
        w.connected,
        out.exit_code == 0,
        record::printed_size(out) == size,
        size > 0,
        w.last_size == size,
        secs >= w.rec.duration_secs,
        running.exit_code == 0,
        text::trimmed(running.stdout) == "Running"@,
    ensures
        ({
            let w1 = wait_after(w, Answer::Ran { ran: Ok(out), elapsed_ms: ms });
            let w2 = wait_after(w1, Answer::Elapsed { secs, over });
            let w3 = wait_after(w2, Answer::Done);
            let in_pod = w.rec.pod is Some && w.rec.namespace is Some;
            let w4 = if in_pod {
                wait_after(w3, Answer::Ran { ran: Ok(running), elapsed_ms: ms })
            } else {
                w3
            };
            let w5 = wait_after(w4, Answer::Text { text: transfer_id });
            let w6 = wait_after(w5, Answer::Done);
            let w7 = wait_after(w6, Answer::Done);
            &&& wait_request(w) == (Ask::<Seq<char>>::Run {
                cmd: "stat -c %s "@ + crate::exec::ssh::shell_quote(w.rec.remote_path),
                secs: None,
            })
            &&& wait_request(w1) is Elapsed
            &&& wait_request(w2) is Disconnect
            &&& in_pod ==> wait_request(w3) == (Ask::<Seq<char>>::PodPhase {
                pod: w.rec.pod->0,
                namespace: w.rec.namespace->0,
                secs: 15,
            })
            &&& wait_request(w4) == (Ask::<Seq<char>>::Fetch {
                recording: w.rec,
                remove_remote: true,
            })
            &&& wait_request(w5) == (Ask::<Seq<char>>::MarkDownloading {
                transfer_id,
                remote_size: size,
            })
            &&& wait_request(w6) matches Ask::Tell { tool, stage, detail: _ } && tool
                == "jfr_record"@ && stage == "download"@
            &&& wait_request(w7) is Finished
            &&& !w4.connected
        }),
{
    reveal_strlit("Running");
    assert("Running"@.len() > 0);
}

/// A look that finds a file that grew, or a recording whose time is not over, leads to another look
/// after a pause, which remembers the size that was seen.
pub proof fn law_unwritten_recording_is_looked_at_again(
    w: Wait<Seq<char>>,
    out: Output<Seq<char>>,
    secs: u64,
    over: bool,
    ms: u64,
)
    requires
        w.stage is Stat,
        w.connected,
        out.exit_code == 0,
        secs < w.rec.duration_secs || record::printed_size(out) != w.last_size
            || record::printed_size(out) == 0,
    ensures
        ({
            let w1 = wait_after(w, Answer::Ran { ran: Ok(out), elapsed_ms: ms });
            let w2 = wait_after(w1, Answer::Elapsed { secs, over });
            let w3 = wait_after(w2, Answer::Elapsed { secs, over: false });
            let w4 = wait_after(w3, Answer::Done);
            &&& w2.last_size == record::printed_size(out)
            &&& wait_request(w2) is Elapsed
            &&& wait_request(w3) == (Ask::<Seq<char>>::Pause { millis: 3000 })
            &&& w4.stage is Stat
            &&& w4.connected
        }),
{
}

/// A recording that was not written in its time is noted as lost, with its path and how long it was
/// waited for; so is one whose pod is gone or does not run, with the pod as the reason.
pub proof fn law_lost_recording_is_noted(
    w: Wait<Seq<char>>,
    secs: u64,
    over: bool,
    out: Output<Seq<char>>,
    ms: u64,
    size: u64,
)
    ensures
        w.stage is Top ==> {
            let w1 = wait_after(w, Answer::Elapsed { secs, over: true });
            &&& w.connected ==> wait_request(w1) is Disconnect
            &&& !w.connected ==> wait_request(w1) is Elapsed
        },
        w.stage is Waited ==> {
            let w1 = wait_after(w, Answer::Elapsed { secs, over });
            &&& wait_request(w1) matches Ask::MarkFailed { code, error } && code
                == "record_not_found"@ && text::contains(error, w.rec.remote_path) && text::contains(
                error,
                text::dec(secs as nat),
            )
            &&& wait_request(wait_after(w1, Answer::Done)) matches Ask::Tell { tool, stage, detail: _ }
                && tool == "jfr_record"@ && stage == "record"@
        },
        w.stage == (WaitStage::<Seq<char>>::Judge { stderr: out.stderr }) ==> {
            let w1 = wait_after(w, Answer::Flag { flag: true });
            let w2 = wait_after(w1, Answer::Done);
            &&& wait_request(w1) is Disconnect
            &&& wait_request(w2) matches Ask::MarkFailed { code, error } && code == "pod_failed"@
                && text::contains(error, text::trimmed(out.stderr)) && text::contains(
                error,
                w.rec.remote_path,
            )
        },
        w.stage == (WaitStage::<Seq<char>>::Phase { size }) && out.exit_code == 0 && text::trimmed(
            out.stdout,
        ).len() > 0 && text::trimmed(out.stdout) != "Running"@ ==> {
            let w1 = wait_after(w, Answer::Ran { ran: Ok(out), elapsed_ms: ms });
            wait_request(w1) matches Ask::MarkFailed { code, error } && code == "pod_failed"@
                && text::contains(error, text::trimmed(out.stdout)) && text::contains(
                error,
                w.rec.remote_path,
            )
        },
        (w.stage is Stat || w.stage is Count) && out.exit_code != 0 && out.exit_code != 127 ==> {
            wait_request(wait_after(w, Answer::Ran { ran: Ok(out), elapsed_ms: ms })) == (Ask::<
                Seq<char>,
            >::IsPodGone { stderr: out.stderr })
        },
{
    let path = w.rec.remote_path;
    let d = text::dec(secs as nat);
    let a = "录制到时后文件未就绪："@;
    let b = "（已等待 "@;
    let c = "s）。远端文件可能仍在写入，可稍后用 file_download 手动拉回"@;
    text::lemma_contains(a, path, b);
    text::lemma_part_kept(a + path + b, path, d);
    text::lemma_part_kept(a + path + b + d, path, c);
    text::lemma_contains(a + path + b, d, c);
    let t = text::trimmed(out.stderr);
    let p1 = "目标 Pod 已死亡，录制中断（kubectl: "@;
    let p2 = "）。请重新调用 k8s_find_pods 定位新 Pod 后重新 jfr_record；若 dump 目录为共享持久卷，也可用 file_download(新 Pod, "@;
    let p3 = ") 尝试抢救。"@;
    text::lemma_contains(p1, t, p2);
    text::lemma_part_kept(p1 + t + p2, t, path);
    text::lemma_part_kept(p1 + t + p2 + path, t, p3);
    text::lemma_contains(p1 + t + p2, path, p3);
    let q = text::trimmed(out.stdout);
    let q1 = "目标 Pod 已不处于 Running 状态（phase="@;
    let q2 = "），录制文件 "@;
    let q3 = " 不可达。请重新调用 k8s_find_pods 定位新 Pod 后重新 jfr_record；若 dump 目录为共享持久卷，也可用 file_download(新 Pod, 同路径) 尝试抢救。"@;
    text::lemma_contains(q1, q, q2);
    text::lemma_part_kept(q1 + q + q2, q, path);
    text::lemma_part_kept(q1 + q + q2 + path, q, q3);
    text::lemma_contains(q1 + q + q2, path, q3);
}

/// The phase that a query printed is what it printed, without the blanks around it, unless it failed
/// or printed none.
pub proof fn law_phase_is_read_back(phase: Seq<char>, out: Output<Seq<char>>)
    requires
        text::is_word(phase),
        out.stdout == phase + seq!['\n'],
    ensures
        out.exit_code == 0 ==> phase_of(out) == Some(phase),
        out.exit_code != 0 ==> phase_of(out) is None,
{
    let whole = phase + seq!['\n'];
    assert(whole[0] == phase[0]);
    assert(text::trim_start(whole) == whole);
    assert(whole.subrange(0, whole.len() - 1) =~= phase);
    reveal_with_fuel(text::trim_end, 2);
    assert(!text::is_white(phase.last()));
    assert(text::trim_end(phase) == phase);
}

/// Whether the wait is over but for what is noted and told of it.
pub open spec fn decided(stage: WaitStage<Seq<char>>) -> bool {
    stage is MarkFetch || stage is TellFetch || stage is MarkLoss || stage is TellLoss
        || stage is Ended
}

/// Whether the stage has no use for a connection.
pub open spec fn unconnected(stage: WaitStage<Seq<char>>) -> bool {
    decided(stage) || stage is Waited || stage is Connect || stage is Phase || stage is Fetch
}

/// The connection is given up before a wait ends: what a stage without a use for it needs holds
/// from the first step on.
pub proof fn law_wait_gives_connection_up(w: Wait<Seq<char>>, answer: Answer<Seq<char>>)
    requires
        unconnected(w.stage) ==> !w.connected,
    ensures
        unconnected(wait_after(w, answer).stage) ==> !wait_after(w, answer).connected,
        !wait_start(w.rec).connected,
        wait_after(w, answer).rec == w.rec,
{
}

/// What became of a recording is noted once: a decided wait only goes on to its end.
pub proof fn law_wait_is_decided_once(w: Wait<Seq<char>>, answer: Answer<Seq<char>>)
    requires
        decided(w.stage),
    ensures
        decided(wait_after(w, answer).stage),
        w.stage !is MarkFetch ==> wait_after(w, answer).stage !is MarkFetch,
        w.stage !is MarkLoss ==> wait_after(w, answer).stage !is MarkLoss,
        w.stage is Ended ==> wait_after(w, answer) == w && wait_request(w) is Finished,
{
}

} // verus!
