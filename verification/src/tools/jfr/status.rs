//! The tool that tells what became of a recording.

use vstd::prelude::*;

use crate::json;
use crate::json::Json;
use crate::text;
use crate::tools::jfr::recordings;
use crate::tools::jfr::recordings::{
    Recording, RecordingPhase, RecordingRegistry, RecordingState,
};
use crate::tools::output;
use crate::tools::output::{Offer, RiskLevel, Shown, ToolCategory, ToolDef, ToolOutput};

verus! {

// ---------------------------------------------------------------------------------------------
// Transfers
// ---------------------------------------------------------------------------------------------

/// Where a transfer stands.
#[derive(Clone, Copy, Debug, PartialEq, Eq, Structural)]
pub enum TransferStatus {
    /// It waits or runs.
    Active,
    Completed,
    Failed,
    Cancelled,
}

/// What was seen of a recording that is being fetched: the transfer, where it is known, and the
/// phase of the pod, where it was asked for and is known.
#[derive(Debug, PartialEq, Eq)]
pub struct Observation<S> {
    pub transfer: Option<TransferStatus>,
    /// Why the transfer failed, where it said so.
    pub error: Option<S>,
    pub phase: Option<S>,
}

impl View for Observation<String> {
    type V = Observation<Seq<char>>;

    open spec fn view(&self) -> Observation<Seq<char>> {
        Observation {
            transfer: self.transfer,
            error: text::opt(self.error),
            phase: text::opt(self.phase),
        }
    }
}

/// What observations are, by their models.
pub open spec fn observations(v: Seq<Observation<String>>) -> Seq<Observation<Seq<char>>> {
    v.map_values(|o: Observation<String>| o@)
}

/// Nothing was seen.
pub open spec fn unseen() -> Observation<Seq<char>> {
    Observation { transfer: None, error: None, phase: None }
}

/// What was seen of the recording at a place of a list.
pub open spec fn seen_at(seen: Seq<Observation<Seq<char>>>, i: int) -> Observation<Seq<char>> {
    if 0 <= i < seen.len() {
        seen[i]
    } else {
        unseen()
    }
}

pub open spec fn fetch_lost(phase: Seq<char>, orig: Seq<char>, path: Seq<char>) -> Seq<char> {
    "录制文件拉回失败：目标 Pod 已不处于 Running 状态（phase="@ + phase + "），录制文件不可达。原传输错误："@ + orig
        + "。请重新调用 k8s_find_pods 定位新 Pod 后重新 jfr_record；若 dump 目录为共享持久卷，也可用 file_download(新 Pod, "@
        + path + ") 尝试抢救。"@
}

fn fetch_lost_text(phase: &str, orig: &str, path: &str) -> (r: String)
    ensures
        r@ == fetch_lost(phase@, orig@, path@),
{
    "录制文件拉回失败：目标 Pod 已不处于 Running 状态（phase=".to_owned()
        .concat(phase)
        .concat("），录制文件不可达。原传输错误：")
        .concat(orig)
        .concat("。请重新调用 k8s_find_pods 定位新 Pod 后重新 jfr_record；若 dump 目录为共享持久卷，也可用 file_download(新 Pod, ")
        .concat(path)
        .concat(") 尝试抢救。")
}

pub open spec fn fetch_failed_in_pod(orig: Seq<char>) -> Seq<char> {
    "录制文件拉回失败："@ + orig + "。远端文件保留（Pod 存活），可用 file_download 重试（断点续传）"@
}

fn fetch_failed_in_pod_text(orig: &str) -> (r: String)
    ensures
        r@ == fetch_failed_in_pod(orig@),
{
    "录制文件拉回失败：".to_owned().concat(orig).concat("。远端文件保留（Pod 存活），可用 file_download 重试（断点续传）")
}

pub open spec fn fetch_failed(orig: Seq<char>) -> Seq<char> {
    "录制文件拉回失败："@ + orig + "。远端文件保留，可用 file_download 重试（断点续传）"@
}

fn fetch_failed_text(orig: &str) -> (r: String)
    ensures
        r@ == fetch_failed(orig@),
{
    "录制文件拉回失败：".to_owned().concat(orig).concat("。远端文件保留，可用 file_download 重试（断点续传）")
}

/// Whether a transfer of a recording is to be looked at.
pub open spec fn is_fetched(rec: Recording<Seq<char>>) -> bool {
    rec.phase == RecordingPhase::Downloading && rec.transfer_id is Some
}

/// Whether the pod of a recording is to be looked at, once its transfer is known.
pub open spec fn asks_for_pod(rec: Recording<Seq<char>>, transfer: Option<TransferStatus>) -> bool {
    is_fetched(rec) && transfer == Some(TransferStatus::Failed) && rec.pod is Some
        && rec.namespace is Some
}

/// Whether the pod of a recording is to be looked at, once its transfer is known.
pub fn needs_phase(rec: &RecordingState, transfer: Option<TransferStatus>) -> (r: bool)
    ensures
        r == asks_for_pod(rec@, transfer),
{
    rec.phase == RecordingPhase::Downloading && rec.transfer_id.is_some() && (match transfer {
        Some(t) => t == TransferStatus::Failed,
        None => false,
    }) && rec.pod.is_some() && rec.namespace.is_some()
}

/// How a fetching ended: the phase of the recording, and why it was lost.
pub struct FetchEnd<S> {
    pub phase: RecordingPhase,
    pub error_code: Option<S>,
    pub error: Option<S>,
}

impl View for FetchEnd<String> {
    type V = FetchEnd<Seq<char>>;

    open spec fn view(&self) -> FetchEnd<Seq<char>> {
        FetchEnd {
            phase: self.phase,
            error_code: text::opt(self.error_code),
            error: text::opt(self.error),
        }
    }
}

/// A fetching that failed.
pub open spec fn lost(code: Seq<char>, error: Seq<char>) -> FetchEnd<Seq<char>> {
    FetchEnd { phase: RecordingPhase::Failed, error_code: Some(code), error: Some(error) }
}

/// How the fetching of a recording ended, as far as was seen.
pub open spec fn fetch_end(rec: Recording<Seq<char>>, seen: Observation<Seq<char>>) -> Option<
    FetchEnd<Seq<char>>,
> {
    if !is_fetched(rec) {
        None
    } else {
        let orig = match seen.error {
            Some(e) => e,
            None => "未知传输错误"@,
        };
        match seen.transfer {
            Some(TransferStatus::Completed) => Some(
                FetchEnd { phase: RecordingPhase::Completed, error_code: None, error: None },
            ),
            Some(TransferStatus::Cancelled) => Some(
                lost(
                    "transfer_cancelled"@,
                    "录制文件拉回已取消。远端文件保留，可用 file_download 重试（断点续传）。"@,
                ),
            ),
            Some(TransferStatus::Failed) => if rec.pod is Some && rec.namespace is Some {
                match seen.phase {
                    Some(p) => if p != "Running"@ {
                        Some(lost("pod_failed"@, fetch_lost(p, orig, rec.remote_path)))
                    } else {
                        Some(lost("transfer_failed"@, fetch_failed_in_pod(orig)))
                    },
                    None => Some(lost("transfer_failed"@, fetch_failed_in_pod(orig))),
                }
            } else {
                Some(lost("transfer_failed"@, fetch_failed(orig)))
            },
            _ => None,
        }
    }
}

fn lost_end(code: &str, error: String) -> (r: FetchEnd<String>)
    ensures
        r@ == lost(code@, error@),
{
    FetchEnd {
        phase: RecordingPhase::Failed,
        error_code: Some(code.to_owned()),
        error: Some(error),
    }
}

fn end_of_fetch(rec: &RecordingState, seen: &Observation<String>) -> (r: Option<FetchEnd<String>>)
    ensures
        (match r {
            Some(e) => Some(e@),
            None => None,
        }) == fetch_end(rec@, seen@),
{
    if rec.phase != RecordingPhase::Downloading || rec.transfer_id.is_none() {
        return None;
    }
    let orig: &str = match &seen.error {
        Some(e) => e.as_str(),
        None => "未知传输错误",
    };
    match seen.transfer {
        Some(TransferStatus::Completed) => Some(
            FetchEnd { phase: RecordingPhase::Completed, error_code: None, error: None },
        ),
        Some(TransferStatus::Cancelled) => Some(
            lost_end(
                "transfer_cancelled",
                "录制文件拉回已取消。远端文件保留，可用 file_download 重试（断点续传）。".to_owned(),
            ),
        ),
        Some(TransferStatus::Failed) => if rec.pod.is_some() && rec.namespace.is_some() {
            match &seen.phase {
                Some(p) => if !text::same(p.as_str(), "Running") {
                    Some(
                        lost_end(
                            "pod_failed",
                            fetch_lost_text(p.as_str(), orig, rec.remote_path.as_str()),
                        ),
                    )
                } else {
                    Some(lost_end("transfer_failed", fetch_failed_in_pod_text(orig)))
                },
                None => Some(lost_end("transfer_failed", fetch_failed_in_pod_text(orig))),
            }
        } else {
            Some(lost_end("transfer_failed", fetch_failed_text(orig)))
        },
        _ => None,
    }
}

/// A recording as it is after what was seen of it.
pub open spec fn observed(rec: Recording<Seq<char>>, seen: Observation<Seq<char>>) -> Recording<
    Seq<char>,
> {
    match fetch_end(rec, seen) {
        Some(end) => if end.phase == RecordingPhase::Completed {
            Recording { phase: RecordingPhase::Completed, ..rec }
        } else {
            Recording {
                phase: end.phase,
                error_code: end.error_code,
                error: end.error,
                ..rec
            }
        },
        None => rec,
    }
}

/// What is noted of a recording after what was seen of it.
pub open spec fn noted(
    s: Seq<Recording<Seq<char>>>,
    rec: Recording<Seq<char>>,
    seen: Observation<Seq<char>>,
) -> Seq<Recording<Seq<char>>> {
    match fetch_end(rec, seen) {
        Some(end) => recordings::kept(
            recordings::changed(
                s,
                rec.id,
                |r: Recording<Seq<char>>|
                    recordings::fetched(r, end.phase, end.error_code, end.error),
            ),
        ),
        None => s,
    }
}

/// Notes what was seen of a recording, in the registry and in the recording itself.
pub fn observe_transfer_outcome(
    registry: &mut RecordingRegistry,
    rec: &mut RecordingState,
    seen: &Observation<String>,
)
    requires
        old(registry).wf(),
    ensures
        final(registry).wf(),
        final(registry)@ == noted(old(registry)@, old(rec)@, seen@),
        final(rec)@ == observed(old(rec)@, seen@),
{
    match end_of_fetch(rec, seen) {
        Some(end) => {
            registry.mark_transfer_outcome(
                rec.id.as_str(),
                end.phase,
                text::copy_opt(&end.error_code),
                text::copy_opt(&end.error),
            );
            rec.phase = end.phase;
            if end.phase != RecordingPhase::Completed {
                rec.error_code = end.error_code;
                rec.error = end.error;
            }
        },
        None => {},
    }
}

/// What is seen never moves a recording but to an end, and only one that is being fetched.
pub proof fn law_observation_ends_fetching(
    rec: Recording<Seq<char>>,
    seen: Observation<Seq<char>>,
)
    ensures
        observed(rec, seen) == rec || (rec.phase == RecordingPhase::Downloading
            && recordings::terminal(observed(rec, seen).phase)),
        rec.phase != RecordingPhase::Downloading ==> observed(rec, seen) == rec,
{
}

/// Looking again at a recording changes nothing.
pub proof fn law_observation_is_idempotent(
    rec: Recording<Seq<char>>,
    seen: Observation<Seq<char>>,
    again: Observation<Seq<char>>,
)
    requires
        observed(rec, seen) != rec,
    ensures
        observed(observed(rec, seen), again) == observed(rec, seen),
        fetch_end(observed(rec, seen), again) is None,
{
}

// ---------------------------------------------------------------------------------------------
// What is shown of a recording
// ---------------------------------------------------------------------------------------------

pub open spec fn still_recording(duration: u32) -> Seq<char> {
    "JFR 录制进行中（"@ + text::dec(duration as nat) + "s 档）。请稍候后轮询 jfr_record_status(recording_id)。"@
}

fn still_recording_text(duration: u32) -> (r: String)
    ensures
        r@ == still_recording(duration),
{
    "JFR 录制进行中（".to_owned()
        .concat(text::u64_text(duration as u64).as_str())
        .concat("s 档）。请稍候后轮询 jfr_record_status(recording_id)。")
}

/// What to do next about a recording.
pub open spec fn note_of(rec: Recording<Seq<char>>) -> Seq<char> {
    match rec.phase {
        RecordingPhase::Recording => still_recording(rec.duration_secs),
        RecordingPhase::Downloading => "录制完成，后台拉回中。可轮询 transfer_status(transfer_id) 查看字节级进度；完成后自动预热 JMC。"@,
        RecordingPhase::Completed => "录制拉回完成并自动预热 JMC。直接用 local_path 调 jfr_quick_analysis / jfr_rules 起步诊断。"@,
        RecordingPhase::Failed => if rec.error_code == Some("pod_failed"@) {
            "目标 Pod 已死亡，录制文件不可达。请重新调用 k8s_find_pods 定位新 Pod 后重新 jfr_record；若 dump 目录为共享持久卷，也可用 file_download(新 Pod, 同路径) 尝试抢救。"@
        } else if rec.transfer_id is Some {
            "拉回失败：远端文件保留，可用 file_download(remote_path) 重试（断点续传）。"@
        } else {
            "录制未正常落盘：远端文件可能仍在写入，可稍后用 file_download(remote_path) 手动拉回；或检查目标 JVM 后重新 jfr_record。"@
        },
    }
}

fn note_text(rec: &RecordingState) -> (r: String)
    ensures
        r@ == note_of(rec@),
{
    match rec.phase {
        RecordingPhase::Recording => still_recording_text(rec.duration_secs),
        RecordingPhase::Downloading => "录制完成，后台拉回中。可轮询 transfer_status(transfer_id) 查看字节级进度；完成后自动预热 JMC。".to_owned(),
        RecordingPhase::Completed => "录制拉回完成并自动预热 JMC。直接用 local_path 调 jfr_quick_analysis / jfr_rules 起步诊断。".to_owned(),
        RecordingPhase::Failed => {
            let dead: bool = match &rec.error_code {
                Some(c) => text::same(c.as_str(), "pod_failed"),
                None => false,
            };
            if dead {
                "目标 Pod 已死亡，录制文件不可达。请重新调用 k8s_find_pods 定位新 Pod 后重新 jfr_record；若 dump 目录为共享持久卷，也可用 file_download(新 Pod, 同路径) 尝试抢救。".to_owned()
            } else if rec.transfer_id.is_some() {
                "拉回失败：远端文件保留，可用 file_download(remote_path) 重试（断点续传）。".to_owned()
            } else {
                "录制未正常落盘：远端文件可能仍在写入，可稍后用 file_download(remote_path) 手动拉回；或检查目标 JVM 后重新 jfr_record。".to_owned()
            }
        },
    }
}

/// A recording as it is shown.
pub open spec fn recording_shown(rec: Recording<Seq<char>>) -> Json {
    Json::Object(
        json::no_members().insert("recording_id"@, Json::Text(rec.id)).insert(
            "status"@,
            Json::Text(recordings::phase_word(rec.phase)),
        ).insert("pid"@, Json::Text(text::dec(rec.pid as nat))).insert(
            "remote_path"@,
            Json::Text(rec.remote_path),
        ).insert("local_path"@, Json::Text(rec.local_path)).insert(
            "duration_secs"@,
            Json::Int(rec.duration_secs as int),
        ).insert("settings"@, Json::Text(rec.settings)).insert(
            "transfer_id"@,
            json::text_or_null(rec.transfer_id),
        ).insert(
            "remote_size"@,
            match rec.remote_size {
                Some(n) => Json::Int(n as int),
                None => Json::Null,
            },
        ).insert("error_code"@, json::text_or_null(rec.error_code)).insert(
            "error"@,
            json::text_or_null(rec.error),
        ).insert("note"@, Json::Text(note_of(rec))),
    )
}

/// A recording as it is shown.
pub fn recording_to_json(rec: &RecordingState) -> (r: serde_json::Value)
    ensures
        json::view_of(r) == recording_shown(rec@),
{
    let mut m: serde_json::Map<String, serde_json::Value> = json::new_map();
    json::insert(&mut m, "recording_id", json::text_value(rec.id.as_str()));
    json::insert(&mut m, "status", json::text_value(rec.phase.as_str()));
    json::insert(&mut m, "pid", json::text_value(text::u64_text(rec.pid as u64).as_str()));
    json::insert(&mut m, "remote_path", json::text_value(rec.remote_path.as_str()));
    json::insert(&mut m, "local_path", json::text_value(rec.local_path.as_str()));
    json::insert(&mut m, "duration_secs", json::u64_value(rec.duration_secs as u64));
    json::insert(&mut m, "settings", json::text_value(rec.settings.as_str()));
    json::insert(&mut m, "transfer_id", json::text_or_null_value(&rec.transfer_id));
    json::insert(
        &mut m,
        "remote_size",
        match rec.remote_size {
            Some(n) => json::u64_value(n),
            None => json::null_value(),
        },
    );
    json::insert(&mut m, "error_code", json::text_or_null_value(&rec.error_code));
    json::insert(&mut m, "error", json::text_or_null_value(&rec.error));
    json::insert(&mut m, "note", json::text_value(note_text(rec).as_str()));
    json::object(m)
}

/// What became of a fetching: one that was completed completes the recording, one that was cancelled
/// or failed loses it, with the reason of the transfer; a pod that is known not to run is the reason
/// where there is one. A transfer that still runs, or of which nothing is known, changes nothing.
pub proof fn law_fetch_ends_as_seen(rec: Recording<Seq<char>>, seen: Observation<Seq<char>>)
    requires
        rec.phase is Downloading,
        rec.transfer_id is Some,
    ensures
        ({
            let r = observed(rec, seen);
            let reason = match seen.error {
                Some(e) => e,
                None => "未知传输错误"@,
            };
            let dead = rec.pod is Some && rec.namespace is Some && (seen.phase matches Some(p) && p
                != "Running"@);
            &&& recordings::same_recording(rec, r)
            &&& r.transfer_id == rec.transfer_id
            &&& seen.transfer is None ==> r == rec
            &&& seen.transfer == Some(TransferStatus::Active) ==> r == rec
            &&& seen.transfer == Some(TransferStatus::Completed) ==> r.phase is Completed && r.error
                == rec.error && r.error_code == rec.error_code
            &&& seen.transfer == Some(TransferStatus::Cancelled) ==> r.phase is Failed
                && r.error_code == Some("transfer_cancelled"@) && r.error is Some
            &&& seen.transfer == Some(TransferStatus::Failed) ==> r.phase is Failed && (
            r.error matches Some(e) && text::contains(e, reason))
            &&& seen.transfer == Some(TransferStatus::Failed) && dead ==> r.error_code == Some(
                "pod_failed"@,
            ) && text::contains(r.error->0, seen.phase->0) && text::contains(
                r.error->0,
                rec.remote_path,
            )
            &&& seen.transfer == Some(TransferStatus::Failed) && !dead ==> r.error_code == Some(
                "transfer_failed"@,
            )
        }),
{
    let reason = match seen.error {
        Some(e) => e,
        None => "未知传输错误"@,
    };
    let phase = match seen.phase {
        Some(p) => p,
        None => Seq::empty(),
    };
    let path = rec.remote_path;
    let c1 = "录制文件拉回失败：目标 Pod 已不处于 Running 状态（phase="@;
    let c2 = "），录制文件不可达。原传输错误："@;
    let c3 = "。请重新调用 k8s_find_pods 定位新 Pod 后重新 jfr_record；若 dump 目录为共享持久卷，也可用 file_download(新 Pod, "@;
    let c4 = ") 尝试抢救。"@;
    let p1 = c1 + phase + c2;
    text::lemma_contains(c1, phase, c2);
    text::lemma_part_kept(p1, phase, reason);
    text::lemma_part_kept(p1 + reason, phase, c3);
    text::lemma_part_kept(p1 + reason + c3, phase, path);
    text::lemma_part_kept(p1 + reason + c3 + path, phase, c4);
    text::lemma_contains(p1, reason, c3);
    text::lemma_part_kept(p1 + reason + c3, reason, path);
    text::lemma_part_kept(p1 + reason + c3 + path, reason, c4);
    text::lemma_contains(p1 + reason + c3, path, c4);
    text::lemma_contains("录制文件拉回失败："@, reason, "。远端文件保留（Pod 存活），可用 file_download 重试（断点续传）"@);
    text::lemma_contains("录制文件拉回失败："@, reason, "。远端文件保留，可用 file_download 重试（断点续传）"@);
}

/// The pod of a recording is asked after only where its transfer failed, and only where it is known
/// which pod that is.
pub proof fn law_pod_is_asked_after_failure(rec: Recording<Seq<char>>, transfer: TransferStatus)
    ensures
        asks_for_pod(rec, Some(transfer)) <==> rec.phase is Downloading && rec.transfer_id is Some
            && transfer is Failed && rec.pod is Some && rec.namespace is Some,
        !asks_for_pod(rec, None),
{
}

/// A recording is shown as it is: under its name, with its state in a word, and each fact under its
/// own key.
pub proof fn law_recording_is_shown_as_it_is(rec: Recording<Seq<char>>)
    ensures
        recording_shown(rec) matches Json::Object(m) && {
            &&& m["recording_id"@] == Json::Text(rec.id)
            &&& m["status"@] == Json::Text(
                match rec.phase {
                    RecordingPhase::Recording => "recording"@,
                    RecordingPhase::Downloading => "downloading"@,
                    RecordingPhase::Completed => "completed"@,
                    RecordingPhase::Failed => "failed"@,
                },
            )
            &&& m["pid"@] == Json::Text(text::dec(rec.pid as nat))
            &&& m["remote_path"@] == Json::Text(rec.remote_path)
            &&& m["local_path"@] == Json::Text(rec.local_path)
            &&& m["duration_secs"@] == Json::Int(rec.duration_secs as int)
            &&& m["settings"@] == Json::Text(rec.settings)
            &&& rec.transfer_id matches Some(t) ==> m["transfer_id"@] == Json::Text(t)
            &&& rec.transfer_id is None ==> m["transfer_id"@] == Json::Null
            &&& rec.remote_size matches Some(n) ==> m["remote_size"@] == Json::Int(n as int)
            &&& rec.remote_size is None ==> m["remote_size"@] == Json::Null
            &&& rec.error_code matches Some(t) ==> m["error_code"@] == Json::Text(t)
            &&& rec.error_code is None ==> m["error_code"@] == Json::Null
            &&& rec.error matches Some(t) ==> m["error"@] == Json::Text(t)
            &&& rec.error is None ==> m["error"@] == Json::Null
        },
{
    reveal_strlit("recording_id");
    reveal_strlit("status");
    reveal_strlit("pid");
    reveal_strlit("remote_path");
    reveal_strlit("local_path");
    reveal_strlit("duration_secs");
    reveal_strlit("settings");
    reveal_strlit("transfer_id");
    reveal_strlit("remote_size");
    reveal_strlit("error_code");
    reveal_strlit("error");
    reveal_strlit("note");
    assert("recording_id"@.len() != "status"@.len());
    assert("recording_id"@.len() != "pid"@.len());
    assert("recording_id"@.len() != "remote_path"@.len());
    assert("recording_id"@.len() != "local_path"@.len());
    assert("recording_id"@.len() != "duration_secs"@.len());
    assert("recording_id"@.len() != "settings"@.len());
    assert("recording_id"@.len() != "transfer_id"@.len());
    assert("recording_id"@.len() != "remote_size"@.len());
    assert("recording_id"@.len() != "error_code"@.len());
    assert("recording_id"@.len() != "error"@.len());
    assert("recording_id"@.len() != "note"@.len());
    assert("status"@.len() != "pid"@.len());
    assert("status"@.len() != "remote_path"@.len());
    assert("status"@.len() != "local_path"@.len());
    assert("status"@.len() != "duration_secs"@.len());
    assert("status"@.len() != "settings"@.len());
    assert("status"@.len() != "transfer_id"@.len());
    assert("status"@.len() != "remote_size"@.len());
    assert("status"@.len() != "error_code"@.len());
    assert("status"@.len() != "error"@.len());
    assert("status"@.len() != "note"@.len());
    assert("pid"@.len() != "remote_path"@.len());
    assert("pid"@.len() != "local_path"@.len());
    assert("pid"@.len() != "duration_secs"@.len());
    assert("pid"@.len() != "settings"@.len());
    assert("pid"@.len() != "transfer_id"@.len());
    assert("pid"@.len() != "remote_size"@.len());
    assert("pid"@.len() != "error_code"@.len());
    assert("pid"@.len() != "error"@.len());
    assert("pid"@.len() != "note"@.len());
    assert("remote_path"@.len() != "local_path"@.len());
    assert("remote_path"@.len() != "duration_secs"@.len());
    assert("remote_path"@.len() != "settings"@.len());
    assert("remote_path"@[0] != "transfer_id"@[0]);
    assert("remote_path"@[7] != "remote_size"@[7]);
    assert("remote_path"@.len() != "error_code"@.len());
    assert("remote_path"@.len() != "error"@.len());
    assert("remote_path"@.len() != "note"@.len());
    assert("local_path"@.len() != "duration_secs"@.len());
    assert("local_path"@.len() != "settings"@.len());
    assert("local_path"@.len() != "transfer_id"@.len());
    assert("local_path"@.len() != "remote_size"@.len());
    assert("local_path"@[0] != "error_code"@[0]);
    assert("local_path"@.len() != "error"@.len());
    assert("local_path"@.len() != "note"@.len());
    assert("duration_secs"@.len() != "settings"@.len());
    assert("duration_secs"@.len() != "transfer_id"@.len());
    assert("duration_secs"@.len() != "remote_size"@.len());
    assert("duration_secs"@.len() != "error_code"@.len());
    assert("duration_secs"@.len() != "error"@.len());
    assert("duration_secs"@.len() != "note"@.len());
    assert("settings"@.len() != "transfer_id"@.len());
    assert("settings"@.len() != "remote_size"@.len());
    assert("settings"@.len() != "error_code"@.len());
    assert("settings"@.len() != "error"@.len());
    assert("settings"@.len() != "note"@.len());
    assert("transfer_id"@[0] != "remote_size"@[0]);
    assert("transfer_id"@.len() != "error_code"@.len());
    assert("transfer_id"@.len() != "error"@.len());
    assert("transfer_id"@.len() != "note"@.len());
    assert("remote_size"@.len() != "error_code"@.len());
    assert("remote_size"@.len() != "error"@.len());
    assert("remote_size"@.len() != "note"@.len());
    assert("error_code"@.len() != "error"@.len());
    assert("error_code"@.len() != "note"@.len());
    assert("error"@.len() != "note"@.len());
}

/// The advice on a recording fits what became of it: it tells apart the running, the fetched, the
/// complete, and of the lost those whose pod died, whose transfer failed, and that were never written.
pub proof fn law_advice_fits_the_state(a: Recording<Seq<char>>)
    ensures
        a.phase is Recording ==> text::contains(note_of(a), text::dec(a.duration_secs as nat)),
        a.phase is Downloading ==> text::contains(note_of(a), "transfer_status"@),
        a.phase is Completed ==> text::contains(note_of(a), "jfr_quick_analysis"@),
        a.phase is Failed && a.error_code == Some("pod_failed"@) ==> text::contains(
            note_of(a),
            "k8s_find_pods"@,
        ),
        a.phase is Failed && a.error_code != Some("pod_failed"@) ==> text::contains(
            note_of(a),
            "file_download(remote_path)"@,
        ),
        a.phase is Failed && a.error_code != Some("pod_failed"@) && a.transfer_id is Some ==> note_of(
            a,
        ) == "拉回失败：远端文件保留，可用 file_download(remote_path) 重试（断点续传）。"@,
        a.phase is Failed && a.error_code != Some("pod_failed"@) && a.transfer_id is None
            ==> text::contains(note_of(a), "jfr_record"@),
{
    text::lemma_contains("JFR 录制进行中（"@, text::dec(a.duration_secs as nat), "s 档）。请稍候后轮询 jfr_record_status(recording_id)。"@);
    reveal_strlit("录制完成，后台拉回中。可轮询 transfer_status(transfer_id) 查看字节级进度；完成后自动预热 JMC。");
    reveal_strlit("transfer_status");
    assert("录制完成，后台拉回中。可轮询 transfer_status(transfer_id) 查看字节级进度；完成后自动预热 JMC。"@.subrange(15, 30) =~= "transfer_status"@);
    assert(text::occurs_at("录制完成，后台拉回中。可轮询 transfer_status(transfer_id) 查看字节级进度；完成后自动预热 JMC。"@, "transfer_status"@, 15));
    reveal_strlit("录制拉回完成并自动预热 JMC。直接用 local_path 调 jfr_quick_analysis / jfr_rules 起步诊断。");
    reveal_strlit("jfr_quick_analysis");
    assert("录制拉回完成并自动预热 JMC。直接用 local_path 调 jfr_quick_analysis / jfr_rules 起步诊断。"@.subrange(33, 51) =~= "jfr_quick_analysis"@);
    assert(text::occurs_at("录制拉回完成并自动预热 JMC。直接用 local_path 调 jfr_quick_analysis / jfr_rules 起步诊断。"@, "jfr_quick_analysis"@, 33));
    reveal_strlit("目标 Pod 已死亡，录制文件不可达。请重新调用 k8s_find_pods 定位新 Pod 后重新 jfr_record；若 dump 目录为共享持久卷，也可用 file_download(新 Pod, 同路径) 尝试抢救。");
    reveal_strlit("k8s_find_pods");
    assert("目标 Pod 已死亡，录制文件不可达。请重新调用 k8s_find_pods 定位新 Pod 后重新 jfr_record；若 dump 目录为共享持久卷，也可用 file_download(新 Pod, 同路径) 尝试抢救。"@.subrange(25, 38) =~= "k8s_find_pods"@);
    assert(text::occurs_at("目标 Pod 已死亡，录制文件不可达。请重新调用 k8s_find_pods 定位新 Pod 后重新 jfr_record；若 dump 目录为共享持久卷，也可用 file_download(新 Pod, 同路径) 尝试抢救。"@, "k8s_find_pods"@, 25));
    reveal_strlit("拉回失败：远端文件保留，可用 file_download(remote_path) 重试（断点续传）。");
    reveal_strlit("file_download(remote_path)");
    assert("拉回失败：远端文件保留，可用 file_download(remote_path) 重试（断点续传）。"@.subrange(15, 41) =~= "file_download(remote_path)"@);
    assert(text::occurs_at("拉回失败：远端文件保留，可用 file_download(remote_path) 重试（断点续传）。"@, "file_download(remote_path)"@, 15));
    reveal_strlit("录制未正常落盘：远端文件可能仍在写入，可稍后用 file_download(remote_path) 手动拉回；或检查目标 JVM 后重新 jfr_record。");
    reveal_strlit("file_download(remote_path)");
    assert("录制未正常落盘：远端文件可能仍在写入，可稍后用 file_download(remote_path) 手动拉回；或检查目标 JVM 后重新 jfr_record。"@.subrange(24, 50) =~= "file_download(remote_path)"@);
    assert(text::occurs_at("录制未正常落盘：远端文件可能仍在写入，可稍后用 file_download(remote_path) 手动拉回；或检查目标 JVM 后重新 jfr_record。"@, "file_download(remote_path)"@, 24));
    reveal_strlit("录制未正常落盘：远端文件可能仍在写入，可稍后用 file_download(remote_path) 手动拉回；或检查目标 JVM 后重新 jfr_record。");
    reveal_strlit("jfr_record");
    assert("录制未正常落盘：远端文件可能仍在写入，可稍后用 file_download(remote_path) 手动拉回；或检查目标 JVM 后重新 jfr_record。"@.subrange(70, 80) =~= "jfr_record"@);
    assert(text::occurs_at("录制未正常落盘：远端文件可能仍在写入，可稍后用 file_download(remote_path) 手动拉回；或检查目标 JVM 后重新 jfr_record。"@, "jfr_record"@, 70));
}

// ---------------------------------------------------------------------------------------------
// A call
// ---------------------------------------------------------------------------------------------

pub open spec fn unknown_recording(id: Seq<char>) -> Seq<char> {
    "recording_id 不存在: "@ + id
}

fn unknown_recording_text(id: &str) -> (r: String)
    ensures
        r@ == unknown_recording(id@),
{
    "recording_id 不存在: ".to_owned().concat(id)
}

/// The recordings that a call is about.
pub enum JfrRecordStatusHandler {
    /// There is none of the name.
    Unknown { id: String },
    /// One.
    One { rec: RecordingState },
    /// Those of the session.
    All { list: Vec<RecordingState> },
}

impl JfrRecordStatusHandler {
    /// Begins the call that arguments ask for, in a session: of the recordings that it is about,
    /// the caller finds out what [`Observation`] holds.
    pub fn execute_status(
        registry: &RecordingRegistry,
        args: &serde_json::Value,
        session_id: &str,
    ) -> (r: Self)
        requires
            registry.wf(),
        ensures
            match output::filled_arg(json::view_of(*args), "recording_id"@) {
                Some(id) => match recordings::found(registry@, id) {
                    Some(rec) => r matches JfrRecordStatusHandler::One { rec: x } && x@ == rec,
                    None => r matches JfrRecordStatusHandler::Unknown { id: x } && x@ == id,
                },
                None => r matches JfrRecordStatusHandler::All { list }
                    && recordings::youngest_first(recordings::recordings(list@))
                    && recordings::recordings(list@).to_multiset() == recordings::of_session(
                    registry@,
                    session_id@,
                ).to_multiset(),
            },
    {
        match output::filled_text_arg(args, "recording_id") {
            Some(id) => match registry.get(id) {
                Some(rec) => JfrRecordStatusHandler::One { rec },
                None => JfrRecordStatusHandler::Unknown { id: id.to_owned() },
            },
            None => JfrRecordStatusHandler::All { list: registry.list_for_session(session_id) },
        }
    }

    /// Ends the call, with what was seen of the recordings that it is about, in their order.
    pub fn finish(self, registry: &mut RecordingRegistry, seen: &Vec<Observation<String>>) -> (r:
        ToolOutput)
        requires
            old(registry).wf(),
        ensures
            final(registry).wf(),
            match self {
                JfrRecordStatusHandler::Unknown { id } => r@ == output::refusal(
                    "invalid_args"@,
                    unknown_recording(id@),
                ) && final(registry)@ == old(registry)@,
                JfrRecordStatusHandler::One { rec } => r@ == (Shown {
                    success: true,
                    data: recording_shown(observed(rec@, seen_at(observations(seen@), 0))),
                    raw_stdout: None,
                }) && final(registry)@ == noted(
                    old(registry)@,
                    rec@,
                    seen_at(observations(seen@), 0),
                ),
                JfrRecordStatusHandler::All { list } => r@ == (Shown {
                    success: true,
                    data: Json::Object(
                        json::no_members().insert(
                            "recordings"@,
                            Json::Array(
                                all_shown(recordings::recordings(list@), observations(seen@)),
                            ),
                        ),
                    ),
                    raw_stdout: None,
                }) && final(registry)@ == all_noted(
                    old(registry)@,
                    recordings::recordings(list@),
                    observations(seen@),
                ),
            },
    {
        match self {
            JfrRecordStatusHandler::Unknown { id } => output::error_output(
                "invalid_args",
                unknown_recording_text(id.as_str()).as_str(),
            ),
            JfrRecordStatusHandler::One { rec } => {
                let mut rec: RecordingState = rec;
                observe_at(registry, &mut rec, seen, 0);
                ToolOutput { success: true, data: recording_to_json(&rec), raw_stdout: None }
            },
            JfrRecordStatusHandler::All { list } => finish_all(registry, list, seen),
        }
    }
}

fn observe_at(
    registry: &mut RecordingRegistry,
    rec: &mut RecordingState,
    seen: &Vec<Observation<String>>,
    i: usize,
)
    requires
        old(registry).wf(),
    ensures
        final(registry).wf(),
        final(registry)@ == noted(
            old(registry)@,
            old(rec)@,
            seen_at(observations(seen@), i as int),
        ),
        final(rec)@ == observed(old(rec)@, seen_at(observations(seen@), i as int)),
{
    if i < seen.len() {
        proof {
            assert(observations(seen@)[i as int] == seen@[i as int]@);
        }
        observe_transfer_outcome(registry, rec, &seen[i]);
    } else {
        let nothing: Observation<String> = Observation { transfer: None, error: None, phase: None };
        observe_transfer_outcome(registry, rec, &nothing);
    }
}

/// What is noted of several recordings, one after the other.
pub open spec fn all_noted(
    s: Seq<Recording<Seq<char>>>,
    list: Seq<Recording<Seq<char>>>,
    seen: Seq<Observation<Seq<char>>>,
) -> Seq<Recording<Seq<char>>>
    decreases list.len(),
{
    if list.len() == 0 {
        s
    } else {
        noted(
            all_noted(s, list.drop_last(), seen),
            list.last(),
            seen_at(seen, list.len() - 1),
        )
    }
}

/// Recordings as they are shown, after what was seen of them.
pub open spec fn all_shown(
    list: Seq<Recording<Seq<char>>>,
    seen: Seq<Observation<Seq<char>>>,
) -> Seq<Json> {
    Seq::new(list.len(), |i: int| recording_shown(observed(list[i], seen_at(seen, i))))
}

fn finish_all(
    registry: &mut RecordingRegistry,
    list: Vec<RecordingState>,
    seen: &Vec<Observation<String>>,
) -> (r: ToolOutput)
    requires
        old(registry).wf(),
    ensures
        final(registry).wf(),
        r@ == (Shown {
            success: true,
            data: Json::Object(
                json::no_members().insert(
                    "recordings"@,
                    Json::Array(all_shown(recordings::recordings(list@), observations(seen@))),
                ),
            ),
            raw_stdout: None,
        }),
        final(registry)@ == all_noted(
            old(registry)@,
            recordings::recordings(list@),
            observations(seen@),
        ),
{
    let ghost before = registry@;
    let ghost all = recordings::recordings(list@);
    let mut values: Vec<serde_json::Value> = Vec::new();
    let mut i: usize = 0;
    proof {
        assert(all.take(0) =~= Seq::<Recording<Seq<char>>>::empty());
    }
    while i < list.len()
        invariant
            registry.wf(),
            all == recordings::recordings(list@),
            i <= list@.len(),
            values@.len() == i,
            registry@ == all_noted(before, all.take(i as int), observations(seen@)),
            forall|j: int|
                0 <= j < i ==> json::view_of(#[trigger] values@[j]) == recording_shown(
                    observed(all[j], seen_at(observations(seen@), j)),
                ),
        decreases list@.len() - i,
    {
        proof {
            assert(all[i as int] == list@[i as int]@);
            assert(all.take(i as int + 1).drop_last() =~= all.take(i as int));
            assert(all.take(i as int + 1).last() == all[i as int]);
        }
        let mut rec: RecordingState = list[i].copy();
        observe_at(registry, &mut rec, seen, i);
        values.push(recording_to_json(&rec));
        i = i + 1;
    }
    proof {
        assert(all.take(i as int) =~= all);
        assert(json::views(values@) =~= all_shown(all, observations(seen@)));
    }
    let mut m: serde_json::Map<String, serde_json::Value> = json::new_map();
    json::insert(&mut m, "recordings", json::array(values));
    ToolOutput { success: true, data: json::object(m), raw_stdout: None }
}

// ---------------------------------------------------------------------------------------------
// The tool
// ---------------------------------------------------------------------------------------------

/// The tool that tells what became of a recording.
pub open spec fn record_status_offer() -> Offer {
    Offer {
        name: "jfr_record_status"@,
        description: "查询 jfr_record 后台录制任务状态。传 recording_id 查单条；不传则列出本会话全部录制。状态流转：recording（录制进行中，稍候再查）→ downloading（落盘完成后台拉回中，带 transfer_id，可轮询 transfer_status 看字节级进度）→ completed（拉回完成且自动预热 JMC，local_path 可直接用于 jfr_* 分析工具）/ failed（录制未落盘或拉回失败，详见 error 与 note）。"@,
        input_schema: Json::Object(
            json::no_members().insert("type"@, Json::Text("object"@)).insert(
                "properties"@,
                Json::Object(
                    json::no_members().insert(
                        "recording_id"@,
                        output::prop(
                            "string"@,
                            "录制任务 ID（jfr_record 返回，可选，缺省列出全部）"@,
                        ),
                    ),
                ),
            ),
        ),
        risk_level: RiskLevel::ReadOnly,
        category: ToolCategory::Jfr,
        needs_channel: false,
    }
}

/// The tool that tells what became of a recording.
pub fn record_status_tool_def() -> (r: ToolDef)
    ensures
        r@ == record_status_offer(),
{
    let mut props: serde_json::Map<String, serde_json::Value> = json::new_map();
    json::insert(
        &mut props,
        "recording_id",
        output::prop_value(
            "string",
            "录制任务 ID（jfr_record 返回，可选，缺省列出全部）",
        ),
    );
    let mut m: serde_json::Map<String, serde_json::Value> = json::new_map();
    json::insert(&mut m, "type", json::text_value("object"));
    json::insert(&mut m, "properties", json::object(props));
    ToolDef {
        name: "jfr_record_status".to_owned(),
        description: "查询 jfr_record 后台录制任务状态。传 recording_id 查单条；不传则列出本会话全部录制。状态流转：recording（录制进行中，稍候再查）→ downloading（落盘完成后台拉回中，带 transfer_id，可轮询 transfer_status 看字节级进度）→ completed（拉回完成且自动预热 JMC，local_path 可直接用于 jfr_* 分析工具）/ failed（录制未落盘或拉回失败，详见 error 与 note）。".to_owned(),
        input_schema: json::object(m),
        risk_level: RiskLevel::ReadOnly,
        category: ToolCategory::Jfr,
        needs_channel: false,
    }
}

/// The tool takes the name of a recording, which it can do without, and nothing else; it changes
/// nothing.
pub proof fn law_status_tool_says_what_it_takes(key: Seq<char>)
    ensures
        ({
            let o = record_status_offer();
            &&& o.name == "jfr_record_status"@
            &&& output::parameter(o, "recording_id"@) == Some("string"@)
            &&& key != "recording_id"@ ==> output::parameter(o, key) is None
            &&& output::required_parameters(o) is None
            &&& o.risk_level == RiskLevel::ReadOnly
            &&& o.category == ToolCategory::Jfr
            &&& !o.needs_channel
        }),
{
    reveal_strlit("type");
    reveal_strlit("properties");
    reveal_strlit("required");
    assert("type"@.len() != "properties"@.len());
    assert("type"@.len() != "required"@.len());
    assert("properties"@.len() != "required"@.len());
    output::law_property_says_its_type("string"@, "录制任务 ID（jfr_record 返回，可选，缺省列出全部）"@);
}

/// What is noted of a recording is what is shown of it: where it is found under its name afterwards,
/// it has come to the same end, with the same error, and no other recording has changed.
pub proof fn law_registry_notes_what_is_shown(
    s: Seq<Recording<Seq<char>>>,
    rec: Recording<Seq<char>>,
    seen: Observation<Seq<char>>,
    other: Seq<char>,
)
    requires
        recordings::unique_ids(s),
        recordings::found(s, rec.id) == Some(rec),
        recordings::finished(s) < recordings::MAX_FINISHED_RECORDS,
        other != rec.id,
    ensures
        recordings::found(noted(s, rec, seen), rec.id) matches Some(r) && r.phase == observed(
            rec,
            seen,
        ).phase && (r.phase != RecordingPhase::Completed ==> r == observed(rec, seen)) && (observed(
            rec,
            seen,
        ) == rec ==> r == rec),
        recordings::found(noted(s, rec, seen), other) == recordings::found(s, other),
{
    match fetch_end(rec, seen) {
        Some(end) => {
            let change = |r: Recording<Seq<char>>|
                recordings::fetched(r, end.phase, end.error_code, end.error);
            recordings::law_changed_recording_is_found(s, rec.id, other, change);
            let at = recordings::place_of(s, rec.id);
            assert(0 <= at < s.len() && s[at].id == rec.id);
            recordings::lemma_finished_update(s, at, change(s[at]));
            assert(noted(s, rec, seen) == recordings::changed(s, rec.id, change));
        },
        None => {},
    }
}

/// Each recording is shown at its own place, after what was seen of it and of no other; one of which
/// nothing was seen is shown as it is.
pub proof fn law_each_recording_is_shown(
    list: Seq<Recording<Seq<char>>>,
    seen: Seq<Observation<Seq<char>>>,
    i: int,
)
    requires
        0 <= i < list.len(),
    ensures
        all_shown(list, seen).len() == list.len(),
        i < seen.len() ==> all_shown(list, seen)[i] == recording_shown(observed(list[i], seen[i])),
        i >= seen.len() ==> all_shown(list, seen)[i] == recording_shown(list[i]),
{
}

/// What is noted of several recordings is noted of one after the other, in their order.
pub proof fn law_recordings_are_noted_one_by_one(
    s: Seq<Recording<Seq<char>>>,
    list: Seq<Recording<Seq<char>>>,
    rec: Recording<Seq<char>>,
    seen: Seq<Observation<Seq<char>>>,
    o: Observation<Seq<char>>,
)
    requires
        seen.len() == list.len(),
    ensures
        all_noted(s, list.push(rec), seen.push(o)) == noted(all_noted(s, list, seen), rec, o),
        all_noted(s, Seq::empty(), Seq::empty()) == s,
{
    assert(list.push(rec).drop_last() =~= list);
    lemma_noted_prefix(s, list, seen, o);
}

proof fn lemma_noted_prefix(
    s: Seq<Recording<Seq<char>>>,
    list: Seq<Recording<Seq<char>>>,
    seen: Seq<Observation<Seq<char>>>,
    o: Observation<Seq<char>>,
)
    requires
        list.len() <= seen.len(),
    ensures
        all_noted(s, list, seen.push(o)) == all_noted(s, list, seen),
    decreases list.len(),
{
    if list.len() > 0 {
        lemma_noted_prefix(s, list.drop_last(), seen, o);
        assert(seen.push(o)[list.len() - 1] == seen[list.len() - 1]);
    }
}

} // verus!
