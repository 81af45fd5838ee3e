//! The recordings that were started, and what became of them.

use vstd::prelude::*;

use crate::exec::pool;
use crate::exec::pool::{Target, TargetKey};
use crate::text;

verus! {

// ---------------------------------------------------------------------------------------------
// A recording
// ---------------------------------------------------------------------------------------------

/// Where a recording stands.
#[derive(Clone, Copy, Debug, PartialEq, Eq, Structural)]
pub enum RecordingPhase {
    /// It runs, or is being written.
    Recording,
    /// It was written and is being fetched.
    Downloading,
    /// It was fetched.
    Completed,
    /// It was lost.
    Failed,
}

/// Whether a recording is over.
pub open spec fn terminal(phase: RecordingPhase) -> bool {
    phase == RecordingPhase::Completed || phase == RecordingPhase::Failed
}

/// A phase in a word.
pub open spec fn phase_word(phase: RecordingPhase) -> Seq<char> {
    match phase {
        RecordingPhase::Recording => "recording"@,
        RecordingPhase::Downloading => "downloading"@,
        RecordingPhase::Completed => "completed"@,
        RecordingPhase::Failed => "failed"@,
    }
}

impl RecordingPhase {
    /// Whether the recording is over.
    pub fn is_terminal(self) -> (r: bool)
        ensures
            r == terminal(self),
    {
        match self {
            RecordingPhase::Completed => true,
            RecordingPhase::Failed => true,
            _ => false,
        }
    }

    /// The phase in a word.
    pub fn as_str(self) -> (r: &'static str)
        ensures
            r@ == phase_word(self),
    {
        match self {
            RecordingPhase::Recording => "recording",
            RecordingPhase::Downloading => "downloading",
            RecordingPhase::Completed => "completed",
            RecordingPhase::Failed => "failed",
        }
    }
}

/// A recording.
#[derive(Debug, PartialEq, Eq)]
pub struct Recording<S> {
    pub id: S,
    pub session_id: S,
    pub env_id: S,
    pub pid: u32,
    /// The name of the recording in its JVM.
    pub name: S,
    pub pod: Option<S>,
    pub namespace: Option<S>,
    pub container: Option<S>,
    pub remote_path: S,
    pub local_path: S,
    pub duration_secs: u32,
    pub settings: S,
    pub phase: RecordingPhase,
    /// The transfer that fetches it, once there is one.
    pub transfer_id: Option<S>,
    pub remote_size: Option<u64>,
    /// Why it was lost, as a code to act on.
    pub error_code: Option<S>,
    /// Why it was lost, in words.
    pub error: Option<S>,
    /// When it was started; later is greater.
    pub created_at: u64,
}

/// A recording as the program holds it.
pub type RecordingState = Recording<String>;

impl View for Recording<String> {
    type V = Recording<Seq<char>>;

    open spec fn view(&self) -> Recording<Seq<char>> {
        Recording {
            id: self.id@,
            session_id: self.session_id@,
            env_id: self.env_id@,
            pid: self.pid,
            name: self.name@,
            pod: text::opt(self.pod),
            namespace: text::opt(self.namespace),
            container: text::opt(self.container),
            remote_path: self.remote_path@,
            local_path: self.local_path@,
            duration_secs: self.duration_secs,
            settings: self.settings@,
            phase: self.phase,
            transfer_id: text::opt(self.transfer_id),
            remote_size: self.remote_size,
            error_code: text::opt(self.error_code),
            error: text::opt(self.error),
            created_at: self.created_at,
        }
    }
}

impl Recording<String> {
    /// The same recording.
    pub fn copy(&self) -> (r: Self)
        ensures
            r@ == self@,
    {
        Recording {
            id: self.id.clone(),
            session_id: self.session_id.clone(),
            env_id: self.env_id.clone(),
            pid: self.pid,
            name: self.name.clone(),
            pod: text::copy_opt(&self.pod),
            namespace: text::copy_opt(&self.namespace),
            container: text::copy_opt(&self.container),
            remote_path: self.remote_path.clone(),
            local_path: self.local_path.clone(),
            duration_secs: self.duration_secs,
            settings: self.settings.clone(),
            phase: self.phase,
            transfer_id: text::copy_opt(&self.transfer_id),
            remote_size: self.remote_size,
            error_code: text::copy_opt(&self.error_code),
            error: text::copy_opt(&self.error),
            created_at: self.created_at,
        }
    }
}

/// What recordings are, by their models.
pub open spec fn recordings(v: Seq<RecordingState>) -> Seq<Recording<Seq<char>>> {
    v.map_values(|r: RecordingState| r@)
}

// ---------------------------------------------------------------------------------------------
// Changes
// ---------------------------------------------------------------------------------------------

/// A recording that is being fetched now, where it ran before.
pub open spec fn downloading(
    r: Recording<Seq<char>>,
    transfer_id: Seq<char>,
    remote_size: u64,
) -> Recording<Seq<char>> {
    if r.phase == RecordingPhase::Recording {
        Recording {
            phase: RecordingPhase::Downloading,
            transfer_id: Some(transfer_id),
            remote_size: Some(remote_size),
            ..r
        }
    } else {
        r
    }
}

/// A recording that is lost now, where it was not over before.
pub open spec fn failed(r: Recording<Seq<char>>, error_code: Seq<char>, error: Seq<char>) -> Recording<
    Seq<char>,
> {
    if terminal(r.phase) {
        r
    } else {
        Recording {
            phase: RecordingPhase::Failed,
            error_code: Some(error_code),
            error: Some(error),
            ..r
        }
    }
}

/// A recording whose fetching is over now, where it was being fetched before.
pub open spec fn fetched(
    r: Recording<Seq<char>>,
    phase: RecordingPhase,
    error_code: Option<Seq<char>>,
    error: Option<Seq<char>>,
) -> Recording<Seq<char>> {
    if r.phase == RecordingPhase::Downloading {
        Recording { phase, error_code, error, ..r }
    } else {
        r
    }
}

/// A recording that is over stays as it is.
pub proof fn law_terminal_recordings_stay(
    r: Recording<Seq<char>>,
    text: Seq<char>,
    size: u64,
    phase: RecordingPhase,
    code: Option<Seq<char>>,
)
    requires
        terminal(r.phase),
    ensures
        downloading(r, text, size) == r,
        failed(r, text, text) == r,
        fetched(r, phase, code, code) == r,
{
}

/// Recordings go one way: from running to being fetched, and from either to an end.
pub proof fn law_phases_go_forward(
    r: Recording<Seq<char>>,
    text: Seq<char>,
    size: u64,
    end: RecordingPhase,
    code: Option<Seq<char>>,
)
    requires
        terminal(end),
    ensures
        downloading(r, text, size).phase == r.phase || (r.phase == RecordingPhase::Recording
            && downloading(r, text, size).phase == RecordingPhase::Downloading),
        failed(r, text, text).phase == r.phase || terminal(failed(r, text, text).phase),
        fetched(r, end, code, code).phase == r.phase || (r.phase == RecordingPhase::Downloading
            && fetched(r, end, code, code).phase == end),
{
}

// ---------------------------------------------------------------------------------------------
// The registry
// ---------------------------------------------------------------------------------------------

/// How many recordings that are over are kept.
pub const MAX_FINISHED_RECORDS: usize = 100;

/// The recordings that were started, oldest entry first.
pub struct RecordingRegistry {
    recordings: Vec<RecordingState>,
}

/// No two recordings have one name.
pub open spec fn unique_ids(s: Seq<Recording<Seq<char>>>) -> bool {
    forall|i: int, j: int|
        0 <= i < s.len() && 0 <= j < s.len() && (#[trigger] s[i]).id == (#[trigger] s[j]).id ==> i
            == j
}

/// Whether there is a recording of a name.
pub open spec fn has_id(s: Seq<Recording<Seq<char>>>, id: Seq<char>) -> bool {
    exists|i: int| 0 <= i < s.len() && (#[trigger] s[i]).id == id
}

/// The place of the recording of a name.
pub open spec fn place_of(s: Seq<Recording<Seq<char>>>, id: Seq<char>) -> int {
    choose|i: int| 0 <= i < s.len() && (#[trigger] s[i]).id == id
}

/// The recordings with one more, or with another of the same name.
pub open spec fn put(s: Seq<Recording<Seq<char>>>, r: Recording<Seq<char>>) -> Seq<
    Recording<Seq<char>>,
> {
    if has_id(s, r.id) {
        s.update(place_of(s, r.id), r)
    } else {
        s.push(r)
    }
}

/// The recording of a name.
pub open spec fn found(s: Seq<Recording<Seq<char>>>, id: Seq<char>) -> Option<
    Recording<Seq<char>>,
> {
    if has_id(s, id) {
        Some(s[place_of(s, id)])
    } else {
        None
    }
}

/// A recording that was added is found under its name, and the others are found as before.
pub proof fn law_added_recording_is_found(
    s: Seq<Recording<Seq<char>>>,
    r: Recording<Seq<char>>,
    id: Seq<char>,
)
    requires
        unique_ids(s),
    ensures
        found(put(s, r), r.id) == Some(r),
        id != r.id ==> found(put(s, r), id) == found(s, id),
        unique_ids(put(s, r)),
{
    let t = put(s, r);
    let at = if has_id(s, r.id) {
        place_of(s, r.id)
    } else {
        s.len() as int
    };
    assert(t[at].id == r.id);
    assert(has_id(t, r.id));
    let there = place_of(t, r.id);
    assert(there == at);
    if id != r.id {
        if has_id(s, id) {
            let i = place_of(s, id);
            assert(t[i].id == id);
            assert(has_id(t, id));
            let j = place_of(t, id);
            assert(s[j].id == id);
        } else if has_id(t, id) {
            let j = place_of(t, id);
            assert(s[j].id == id);
        }
    }
}

/// The recordings with that of a name changed.
pub open spec fn changed(
    s: Seq<Recording<Seq<char>>>,
    id: Seq<char>,
    change: spec_fn(Recording<Seq<char>>) -> Recording<Seq<char>>,
) -> Seq<Recording<Seq<char>>> {
    if has_id(s, id) {
        s.update(place_of(s, id), change(s[place_of(s, id)]))
    } else {
        s
    }
}

/// How many recordings are over.
pub open spec fn finished(s: Seq<Recording<Seq<char>>>) -> nat
    decreases s.len(),
{
    if s.len() == 0 {
        0
    } else {
        finished(s.drop_last()) + if terminal(s.last().phase) {
            1nat
        } else {
            0nat
        }
    }
}

/// Whether `i` is the place of the oldest recording that is over: the first of them, where several
/// are as old.
pub open spec fn is_oldest(s: Seq<Recording<Seq<char>>>, i: int) -> bool {
    &&& 0 <= i < s.len()
    &&& terminal(s[i].phase)
    &&& forall|j: int|
        0 <= j < s.len() && terminal((#[trigger] s[j]).phase) ==> s[i].created_at <= s[j].created_at
    &&& forall|j: int|
        0 <= j < i && terminal((#[trigger] s[j]).phase) ==> s[i].created_at < s[j].created_at
}

/// The recordings that are kept: where too many are over, the oldest of these are forgotten.
pub open spec fn kept(s: Seq<Recording<Seq<char>>>) -> Seq<Recording<Seq<char>>>
    decreases s.len(),
{
    if finished(s) > MAX_FINISHED_RECORDS && exists|i: int| is_oldest(s, i) {
        kept(s.remove(choose|i: int| is_oldest(s, i)))
    } else {
        s
    }
}

proof fn lemma_finished_remove(s: Seq<Recording<Seq<char>>>, i: int)
    requires
        0 <= i < s.len(),
    ensures
        finished(s.remove(i)) == finished(s) - if terminal(s[i].phase) {
            1int
        } else {
            0int
        },
    decreases s.len(),
{
    if i == s.len() - 1 {
        assert(s.remove(i) =~= s.drop_last());
    } else {
        lemma_finished_remove(s.drop_last(), i);
        assert(s.remove(i).drop_last() =~= s.drop_last().remove(i));
        assert(s.remove(i).last() == s.last());
    }
}

/// Where something is over, something of it is the oldest.
proof fn lemma_oldest_exists(s: Seq<Recording<Seq<char>>>) -> (i: int)
    requires
        finished(s) > 0,
    ensures
        is_oldest(s, i),
    decreases s.len(),
{
    let rest = s.drop_last();
    let n = s.len() - 1;
    if finished(rest) > 0 {
        let i = lemma_oldest_exists(rest);
        assert(rest[i] == s[i]);
        if terminal(s[n].phase) && s[n].created_at < s[i].created_at {
            assert forall|j: int| 0 <= j < s.len() && terminal((#[trigger] s[j]).phase) implies
                s[n].created_at <= s[j].created_at by {
                if j < n {
                    assert(rest[j] == s[j]);
                }
            }
            assert forall|j: int| 0 <= j < n && terminal((#[trigger] s[j]).phase) implies
                s[n].created_at < s[j].created_at by {
                assert(rest[j] == s[j]);
            }
            n
        } else {
            assert forall|j: int| 0 <= j < s.len() && terminal((#[trigger] s[j]).phase) implies
                s[i].created_at <= s[j].created_at by {
                if j < n {
                    assert(rest[j] == s[j]);
                }
            }
            assert forall|j: int| 0 <= j < i && terminal((#[trigger] s[j]).phase) implies
                s[i].created_at < s[j].created_at by {
                assert(rest[j] == s[j]);
            }
            i
        }
    } else {
        lemma_none_finished(rest);
        assert(terminal(s[n].phase));
        assert forall|j: int| 0 <= j < n implies !terminal((#[trigger] s[j]).phase) by {
            assert(rest[j] == s[j]);
        }
        n
    }
}

proof fn lemma_none_finished(s: Seq<Recording<Seq<char>>>)
    requires
        finished(s) == 0,
    ensures
        forall|j: int| 0 <= j < s.len() ==> !terminal((#[trigger] s[j]).phase),
    decreases s.len(),
{
    if s.len() > 0 {
        lemma_none_finished(s.drop_last());
        assert forall|j: int| 0 <= j < s.len() implies !terminal((#[trigger] s[j]).phase) by {
            if j < s.len() - 1 {
                assert(s.drop_last()[j] == s[j]);
            }
        }
    }
}

proof fn lemma_some_finished(s: Seq<Recording<Seq<char>>>, i: int)
    requires
        0 <= i < s.len(),
        terminal(s[i].phase),
    ensures
        finished(s) > 0,
    decreases s.len(),
{
    if i < s.len() - 1 {
        lemma_some_finished(s.drop_last(), i);
    }
}

proof fn lemma_oldest_unique(s: Seq<Recording<Seq<char>>>, i: int, j: int)
    requires
        is_oldest(s, i),
        is_oldest(s, j),
    ensures
        i == j,
{
}

/// However many recordings end, those that are kept of them stay few.
pub proof fn law_kept_recordings_are_few(s: Seq<Recording<Seq<char>>>)
    ensures
        finished(kept(s)) <= MAX_FINISHED_RECORDS,
        finished(s) <= MAX_FINISHED_RECORDS ==> kept(s) == s,
    decreases s.len(),
{
    if finished(s) > MAX_FINISHED_RECORDS {
        let i0 = lemma_oldest_exists(s);
        let i = choose|i: int| is_oldest(s, i);
        law_kept_recordings_are_few(s.remove(i));
    }
}

/// A recording that is not over is never forgotten.
pub proof fn law_running_recordings_are_kept(s: Seq<Recording<Seq<char>>>, r: Recording<Seq<char>>)
    requires
        s.contains(r),
        !terminal(r.phase),
    ensures
        kept(s).contains(r),
    decreases s.len(),
{
    if finished(s) > MAX_FINISHED_RECORDS && exists|i: int| is_oldest(s, i) {
        let i = choose|i: int| is_oldest(s, i);
        let j = choose|j: int| 0 <= j < s.len() && s[j] == r;
        let t = s.remove(i);
        assert(t[if j < i {
            j
        } else {
            j - 1
        }] == r);
        law_running_recordings_are_kept(t, r);
    }
}

/// What is kept was there before.
pub proof fn law_nothing_is_made_up(s: Seq<Recording<Seq<char>>>, r: Recording<Seq<char>>)
    requires
        kept(s).contains(r),
    ensures
        s.contains(r),
    decreases s.len(),
{
    if finished(s) > MAX_FINISHED_RECORDS && exists|i: int| is_oldest(s, i) {
        let i = choose|i: int| is_oldest(s, i);
        let t = s.remove(i);
        law_nothing_is_made_up(t, r);
        let j = choose|j: int| 0 <= j < t.len() && t[j] == r;
        assert(s[if j < i {
            j
        } else {
            j + 1
        }] == r);
    }
}

/// What is forgotten is no younger than anything that is over and kept.
pub proof fn law_oldest_are_forgotten(
    s: Seq<Recording<Seq<char>>>,
    gone: Recording<Seq<char>>,
    stays: Recording<Seq<char>>,
)
    requires
        s.contains(gone),
        !kept(s).contains(gone),
        kept(s).contains(stays),
        terminal(stays.phase),
    ensures
        terminal(gone.phase),
        gone.created_at <= stays.created_at,
    decreases s.len(),
{
    if finished(s) > MAX_FINISHED_RECORDS && exists|i: int| is_oldest(s, i) {
        let i = choose|i: int| is_oldest(s, i);
        let t = s.remove(i);
        law_nothing_is_made_up(t, stays);
        let k = choose|k: int| 0 <= k < t.len() && t[k] == stays;
        let place = if k < i {
            k
        } else {
            k + 1
        };
        assert(s[place] == stays);
        if t.contains(gone) {
            law_oldest_are_forgotten(t, gone, stays);
        } else {
            let j = choose|j: int| 0 <= j < s.len() && s[j] == gone;
            if j != i {
                assert(t[if j < i {
                    j
                } else {
                    j - 1
                }] == gone);
            }
        }
    }
}

/// Whether a recording is the running one of a process at a target, in a session.
pub open spec fn is_active(
    r: Recording<Seq<char>>,
    session_id: Seq<char>,
    target: Target,
    pid: u32,
) -> bool {
    &&& !terminal(r.phase)
    &&& r.session_id == session_id
    &&& r.pid == pid
    &&& pool::target_in(r.env_id, r.pod, r.namespace, r.container) == target
}

/// Younger recordings stand before older ones.
pub open spec fn youngest_first(s: Seq<Recording<Seq<char>>>) -> bool {
    forall|i: int, j: int|
        0 <= i < j < s.len() ==> (#[trigger] s[i]).created_at >= (#[trigger] s[j]).created_at
}

/// The recordings of a session.
pub open spec fn of_session(s: Seq<Recording<Seq<char>>>, session_id: Seq<char>) -> Seq<
    Recording<Seq<char>>,
>
    decreases s.len(),
{
    if s.len() == 0 {
        Seq::empty()
    } else if s.last().session_id == session_id {
        of_session(s.drop_last(), session_id).push(s.last())
    } else {
        of_session(s.drop_last(), session_id)
    }
}

/// The states of a recording have different words.
pub proof fn law_phases_have_their_words(a: RecordingPhase, b: RecordingPhase)
    ensures
        phase_word(a) == phase_word(b) ==> a == b,
        phase_word(RecordingPhase::Recording) == "recording"@,
        phase_word(RecordingPhase::Downloading) == "downloading"@,
        phase_word(RecordingPhase::Completed) == "completed"@,
        phase_word(RecordingPhase::Failed) == "failed"@,
        terminal(a) <==> (a is Completed || a is Failed),
{
    reveal_strlit("recording");
    reveal_strlit("downloading");
    reveal_strlit("completed");
    reveal_strlit("failed");
    assert("recording"@.len() != "downloading"@.len());
    assert("recording"@[0] != "completed"@[0]);
    assert("recording"@.len() != "failed"@.len());
    assert("downloading"@.len() != "completed"@.len());
    assert("downloading"@.len() != "failed"@.len());
    assert("completed"@.len() != "failed"@.len());
}

/// A change of a recording changes what it is about, and nothing else: a running one that is being
/// fetched gets its transfer and its size, one that is lost gets the reason, one whose fetching ended
/// gets how it ended. What it is a recording of stays.
pub proof fn law_changes_are_as_told(
    r: Recording<Seq<char>>,
    t: Seq<char>,
    size: u64,
    code: Seq<char>,
    error: Seq<char>,
    end: RecordingPhase,
    end_code: Option<Seq<char>>,
    end_error: Option<Seq<char>>,
)
    ensures
        same_recording(r, downloading(r, t, size)),
        same_recording(r, failed(r, code, error)),
        same_recording(r, fetched(r, end, end_code, end_error)),
        r.phase is Recording ==> downloading(r, t, size).phase is Downloading && downloading(
            r,
            t,
            size,
        ).transfer_id == Some(t) && downloading(r, t, size).remote_size == Some(size)
            && downloading(r, t, size).error == r.error,
        r.phase is Recording || r.phase is Downloading ==> failed(r, code, error).phase is Failed
            && failed(r, code, error).error_code == Some(code) && failed(r, code, error).error
            == Some(error) && failed(r, code, error).transfer_id == r.transfer_id,
        r.phase is Downloading ==> fetched(r, end, end_code, end_error).phase == end && fetched(
            r,
            end,
            end_code,
            end_error,
        ).error_code == end_code && fetched(r, end, end_code, end_error).error == end_error
            && fetched(r, end, end_code, end_error).transfer_id == r.transfer_id,
        r.phase !is Recording ==> downloading(r, t, size) == r,
        r.phase !is Downloading ==> fetched(r, end, end_code, end_error) == r,
{
}

/// Whether two are the same recording, apart from what became of it.
pub open spec fn same_recording(a: Recording<Seq<char>>, b: Recording<Seq<char>>) -> bool {
    &&& a.id == b.id
    &&& a.session_id == b.session_id
    &&& a.env_id == b.env_id
    &&& a.pid == b.pid
    &&& a.name == b.name
    &&& a.pod == b.pod
    &&& a.namespace == b.namespace
    &&& a.container == b.container
    &&& a.remote_path == b.remote_path
    &&& a.local_path == b.local_path
    &&& a.duration_secs == b.duration_secs
    &&& a.settings == b.settings
    &&& a.created_at == b.created_at
}

/// The recordings of a session are all of its recordings, and no other.
pub proof fn law_session_lists_its_own(
    s: Seq<Recording<Seq<char>>>,
    session_id: Seq<char>,
    r: Recording<Seq<char>>,
)
    ensures
        of_session(s, session_id).contains(r) <==> s.contains(r) && r.session_id == session_id,
    decreases s.len(),
{
    if s.len() == 0 {
        assert(!of_session(s, session_id).contains(r));
    } else {
        let rest = s.drop_last();
        let mine = of_session(s, session_id);
        let before = of_session(rest, session_id);
        law_session_lists_its_own(rest, session_id, r);
        if before.contains(r) {
            let k = choose|k: int| 0 <= k < before.len() && before[k] == r;
            assert(mine[k] == r);
        }
        if rest.contains(r) {
            let k = choose|k: int| 0 <= k < rest.len() && rest[k] == r;
            assert(s[k] == r);
        }
        if s.last() == r {
            assert(s[s.len() - 1] == r);
            if r.session_id == session_id {
                assert(mine[mine.len() - 1] == r);
            }
        }
        if mine.contains(r) && !before.contains(r) {
            let k = choose|k: int| 0 <= k < mine.len() && mine[k] == r;
            if k < before.len() {
                assert(before[k] == r);
            }
        }
        if s.contains(r) && !rest.contains(r) {
            let k = choose|k: int| 0 <= k < s.len() && s[k] == r;
            if k < rest.len() {
                assert(rest[k] == r);
            }
        }
    }
}

/// A change of one recording is found under its name, and leaves the others as they are.
pub proof fn law_changed_recording_is_found(
    s: Seq<Recording<Seq<char>>>,
    id: Seq<char>,
    other: Seq<char>,
    change: spec_fn(Recording<Seq<char>>) -> Recording<Seq<char>>,
)
    requires
        unique_ids(s),
        forall|r: Recording<Seq<char>>| (#[trigger] change(r)).id == r.id,
    ensures
        found(changed(s, id, change), id) == (match found(s, id) {
            Some(r) => Some(change(r)),
            None => None,
        }),
        other != id ==> found(changed(s, id, change), other) == found(s, other),
{
    if has_id(s, id) {
        let at = place_of(s, id);
        let r = change(s[at]);
        assert(r.id == s[at].id);
        law_added_recording_is_found(s, r, other);
        assert(put(s, r) == changed(s, id, change));
    }
}

impl View for RecordingRegistry {
    type V = Seq<Recording<Seq<char>>>;

    closed spec fn view(&self) -> Seq<Recording<Seq<char>>> {
        recordings(self.recordings@)
    }
}

impl RecordingRegistry {
    /// No two recordings have one name.
    pub open spec fn wf(&self) -> bool {
        unique_ids(self@)
    }

    /// No recordings.
    pub fn new() -> (r: Self)
        ensures
            r.wf(),
            r@ == Seq::<Recording<Seq<char>>>::empty(),
    {
        let r: RecordingRegistry = RecordingRegistry { recordings: Vec::new() };
        proof {
            assert(r@ =~= Seq::<Recording<Seq<char>>>::empty());
        }
        r
    }

    fn position(&self, id: &str) -> (r: Option<usize>)
        requires
            self.wf(),
        ensures
            match r {
                Some(i) => i < self@.len() && has_id(self@, id@) && i == place_of(self@, id@)
                    && self@.len() == self.recordings@.len() && self@[i as int]
                    == self.recordings@[i as int]@,
                None => !has_id(self@, id@),
            },
    {
        let mut i: usize = 0;
        while i < self.recordings.len()
            invariant
                self.wf(),
                i <= self.recordings@.len(),
                self@.len() == self.recordings@.len(),
                forall|j: int| 0 <= j < i ==> (#[trigger] self@[j]).id != id@,
            decreases self.recordings@.len() - i,
        {
            proof {
                assert(self@[i as int] == self.recordings@[i as int]@);
            }
            if text::same(self.recordings[i].id.as_str(), id) {
                return Some(i);
            }
            i = i + 1;
        }
        None
    }

    /// Adds a recording, in the place of any other of its name.
    pub fn insert(&mut self, state: RecordingState)
        requires
            old(self).wf(),
        ensures
            final(self).wf(),
            final(self)@ == put(old(self)@, state@),
    {
        let ghost before = self@;
        match self.position(state.id.as_str()) {
            Some(i) => {
                self.recordings.set(i, state);
                proof {
                    assert(self@ =~= before.update(i as int, state@));
                }
            },
            None => {
                self.recordings.push(state);
                proof {
                    assert(self@ =~= before.push(state@));
                }
            },
        }
    }

    /// The recording of a name.
    pub fn get(&self, id: &str) -> (r: Option<RecordingState>)
        requires
            self.wf(),
        ensures
            (match r {
                Some(x) => Some(x@),
                None => None,
            }) == found(self@, id@),
    {
        match self.position(id) {
            Some(i) => Some(self.recordings[i].copy()),
            None => None,
        }
    }

    /// The recordings of a session, the youngest first.
    pub fn list_for_session(&self, session_id: &str) -> (r: Vec<RecordingState>)
        ensures
            youngest_first(recordings(r@)),
            recordings(r@).to_multiset() == of_session(self@, session_id@).to_multiset(),
    {
        let mut list: Vec<RecordingState> = Vec::new();
        let mut i: usize = 0;
        proof {
            assert(recordings(list@) =~= Seq::<Recording<Seq<char>>>::empty());
            assert(self@.take(0) =~= Seq::<Recording<Seq<char>>>::empty());
        }
        while i < self.recordings.len()
            invariant
                i <= self.recordings@.len(),
                self@ == recordings(self.recordings@),
                youngest_first(recordings(list@)),
                recordings(list@).to_multiset() == of_session(
                    self@.take(i as int),
                    session_id@,
                ).to_multiset(),
            decreases self.recordings@.len() - i,
        {
            let ghost so_far = self@.take(i as int);
            proof {
                assert(self@.take(i as int + 1).drop_last() =~= so_far);
                assert(self@.take(i as int + 1).last() == self.recordings@[i as int]@);
                vstd::seq_lib::to_multiset_build(
                    of_session(so_far, session_id@),
                    self.recordings@[i as int]@,
                );
            }
            if text::same(self.recordings[i].session_id.as_str(), session_id) {
                insert_by_age(&mut list, self.recordings[i].copy());
            }
            i = i + 1;
        }
        proof {
            assert(self@.take(i as int) =~= self@);
        }
        list
    }

    /// The running recording of a process at a target, in a session, where there is one.
    pub fn find_active_for_target(
        &self,
        session_id: &str,
        target: &TargetKey,
        pid: u32,
    ) -> (r: Option<RecordingState>)
        ensures
            match r {
                Some(x) => self@.contains(x@) && is_active(
                    x@,
                    session_id@,
                    target@,
                    pid,
                ),
                None => forall|i: int|
                    0 <= i < self@.len() ==> !is_active(
                        #[trigger] self@[i],
                        session_id@,
                        target@,
                        pid,
                    ),
            },
    {
        let mut i: usize = 0;
        while i < self.recordings.len()
            invariant
                i <= self.recordings@.len(),
                self@ == recordings(self.recordings@),
                forall|j: int|
                    0 <= j < i ==> !is_active(
                        #[trigger] self@[j],
                        session_id@,
                        target@,
                        pid,
                    ),
            decreases self.recordings@.len() - i,
        {
            let r: &RecordingState = &self.recordings[i];
            proof {
                assert(self@[i as int] == r@);
            }
            let key: TargetKey = TargetKey::from_parts(
                r.env_id.as_str(),
                text::as_str_opt(&r.pod),
                text::as_str_opt(&r.container),
            ).in_namespace(text::as_str_opt(&r.namespace));
            if !r.phase.is_terminal() && text::same(r.session_id.as_str(), session_id) && r.pid
                == pid && key.same(target) {
                return Some(r.copy());
            }
            i = i + 1;
        }
        None
    }

    /// Notes that a recording is being fetched.
    pub fn mark_downloading(&mut self, id: &str, transfer_id: String, remote_size: u64)
        requires
            old(self).wf(),
        ensures
            final(self).wf(),
            final(self)@ == kept(
                changed(
                    old(self)@,
                    id@,
                    |r: Recording<Seq<char>>| downloading(r, transfer_id@, remote_size),
                ),
            ),
    {
        let ghost before = self@;
        match self.position(id) {
            Some(i) => {
                if self.recordings[i].phase == RecordingPhase::Recording {
                    self.recordings[i].phase = RecordingPhase::Downloading;
                    self.recordings[i].transfer_id = Some(transfer_id);
                    self.recordings[i].remote_size = Some(remote_size);
                }
                proof {
                    assert(self@ =~= before.update(
                        i as int,
                        downloading(before[i as int], transfer_id@, remote_size),
                    ));
                }
            },
            None => {},
        }
        self.evict_finished();
    }

    /// Notes that a recording is lost.
    pub fn mark_failed(&mut self, id: &str, error_code: &str, error: String)
        requires
            old(self).wf(),
        ensures
            final(self).wf(),
            final(self)@ == kept(
                changed(
                    old(self)@,
                    id@,
                    |r: Recording<Seq<char>>| failed(r, error_code@, error@),
                ),
            ),
    {
        let ghost before = self@;
        match self.position(id) {
            Some(i) => {
                if !self.recordings[i].phase.is_terminal() {
                    self.recordings[i].phase = RecordingPhase::Failed;
                    self.recordings[i].error_code = Some(error_code.to_owned());
                    self.recordings[i].error = Some(error);
                }
                proof {
                    assert(self@ =~= before.update(
                        i as int,
                        failed(before[i as int], error_code@, error@),
                    ));
                }
            },
            None => {},
        }
        self.evict_finished();
    }

    /// Notes how the fetching of a recording ended.
    pub fn mark_transfer_outcome(
        &mut self,
        id: &str,
        phase: RecordingPhase,
        error_code: Option<String>,
        error: Option<String>,
    )
        requires
            old(self).wf(),
            terminal(phase),
        ensures
            final(self).wf(),
            final(self)@ == kept(
                changed(
                    old(self)@,
                    id@,
                    |r: Recording<Seq<char>>|
                        fetched(r, phase, text::opt(error_code), text::opt(error)),
                ),
            ),
    {
        let ghost before = self@;
        match self.position(id) {
            Some(i) => {
                if self.recordings[i].phase == RecordingPhase::Downloading {
                    self.recordings[i].phase = phase;
                    self.recordings[i].error_code = error_code;
                    self.recordings[i].error = error;
                }
                proof {
                    assert(self@ =~= before.update(
                        i as int,
                        fetched(
                            before[i as int],
                            phase,
                            text::opt(error_code),
                            text::opt(error),
                        ),
                    ));
                }
            },
            None => {},
        }
        self.evict_finished();
    }

    fn count_finished(&self) -> (r: usize)
        ensures
            r == finished(self@),
    {
        let mut n: usize = 0;
        let mut i: usize = 0;
        proof {
            assert(self@.take(0) =~= Seq::<Recording<Seq<char>>>::empty());
        }
        while i < self.recordings.len()
            invariant
                i <= self.recordings@.len(),
                self@ == recordings(self.recordings@),
                n <= i,
                n == finished(self@.take(i as int)),
            decreases self.recordings@.len() - i,
        {
            proof {
                assert(self@.take(i as int + 1).drop_last() =~= self@.take(i as int));
                assert(self@.take(i as int + 1).last() == self.recordings@[i as int]@);
            }
            if self.recordings[i].phase.is_terminal() {
                n = n + 1;
            }
            i = i + 1;
        }
        proof {
            assert(self@.take(i as int) =~= self@);
        }
        n
    }

    fn oldest_finished(&self) -> (r: usize)
        requires
            finished(self@) > 0,
        ensures
            is_oldest(self@, r as int),
    {
        let mut best: Option<usize> = None;
        let mut i: usize = 0;
        while i < self.recordings.len()
            invariant
                i <= self.recordings@.len(),
                self@ == recordings(self.recordings@),
                match best {
                    Some(b) => b < i && terminal(self@[b as int].phase) && (forall|j: int|
                        0 <= j < i && terminal((#[trigger] self@[j]).phase)
                            ==> self@[b as int].created_at <= self@[j].created_at) && (forall|
                        j: int,
                    |
                        0 <= j < b && terminal((#[trigger] self@[j]).phase)
                            ==> self@[b as int].created_at < self@[j].created_at),
                    None => forall|j: int|
                        0 <= j < i ==> !terminal((#[trigger] self@[j]).phase),
                },
            decreases self.recordings@.len() - i,
        {
            proof {
                assert(self@[i as int] == self.recordings@[i as int]@);
            }
            if self.recordings[i].phase.is_terminal() {
                let better: bool = match best {
                    Some(b) => {
                        proof {
                            assert(self@[b as int] == self.recordings@[b as int]@);
                        }
                        self.recordings[i].created_at < self.recordings[b].created_at
                    },
                    None => true,
                };
                if better {
                    best = Some(i);
                }
            }
            i = i + 1;
        }
        match best {
            Some(b) => b,
            None => {
                proof {
                    let k = lemma_oldest_exists(self@);
                    assert(terminal(self@[k].phase));
                }
                0
            },
        }
    }

    /// Forgets the oldest recordings that are over, where there are too many.
    fn evict_finished(&mut self)
        requires
            old(self).wf(),
        ensures
            final(self).wf(),
            final(self)@ == kept(old(self)@),
    {
        let ghost before = self@;
        let mut n: usize = self.count_finished();
        while n > MAX_FINISHED_RECORDS
            invariant
                self.wf(),
                n == finished(self@),
                kept(self@) == kept(before),
            decreases n,
        {
            let ghost s = self@;
            let i: usize = self.oldest_finished();
            proof {
                let k = choose|k: int| is_oldest(s, k);
                lemma_oldest_unique(s, i as int, k);
                lemma_finished_remove(s, i as int);
            }
            let _gone: RecordingState = self.recordings.remove(i);
            proof {
                assert(self@ =~= s.remove(i as int));
                assert forall|a: int, b: int|
                    0 <= a < self@.len() && 0 <= b < self@.len() && (#[trigger] self@[a]).id == (
                    #[trigger] self@[b]).id implies a == b by {
                    let x = if a < i {
                        a
                    } else {
                        a + 1
                    };
                    let y = if b < i {
                        b
                    } else {
                        b + 1
                    };
                    assert(s[x].id == s[y].id);
                }
            }
            n = n - 1;
        }
    }
}

/// Puts a recording behind those that are no older.
fn insert_by_age(list: &mut Vec<RecordingState>, r: RecordingState)
    requires
        youngest_first(recordings(old(list)@)),
    ensures
        youngest_first(recordings(final(list)@)),
        recordings(final(list)@).to_multiset() == recordings(old(list)@).to_multiset().insert(r@),
{
    let ghost before = recordings(list@);
    let mut i: usize = 0;
    while i < list.len() && list[i].created_at >= r.created_at
        invariant
            i <= list@.len(),
            before == recordings(list@),
            forall|j: int| 0 <= j < i ==> (#[trigger] before[j]).created_at >= r@.created_at,
        decreases list@.len() - i,
    {
        proof {
            assert(before[i as int] == list@[i as int]@);
        }
        i = i + 1;
    }
    proof {
        if i < list@.len() {
            assert(before[i as int] == list@[i as int]@);
        }
        vstd::seq_lib::to_multiset_insert(before, i as int, r@);
    }
    list.insert(i, r);
    proof {
        let after = recordings(list@);
        assert(after =~= before.insert(i as int, r@));
        assert forall|a: int, b: int| 0 <= a < b < after.len() implies (
        #[trigger] after[a]).created_at >= (#[trigger] after[b]).created_at by {
            let x = if a < i {
                a
            } else {
                a - 1
            };
            let y = if b < i {
                b
            } else {
                b - 1
            };
            if a < i && b == i {
                assert(after[a] == before[a]);
            } else if a == i {
                assert(after[b] == before[y]);
                assert(before[i as int].created_at >= before[y].created_at);
            } else {
                assert(after[a] == before[x]);
                assert(after[b] == before[y]);
                if b == i {
                } else {
                    assert(before[x].created_at >= before[y].created_at);
                }
            }
        }
    }
}

/// One recording in the place of another makes at most one more that is over.
pub proof fn lemma_finished_update(s: Seq<Recording<Seq<char>>>, i: int, r: Recording<Seq<char>>)
    requires
        0 <= i < s.len(),
    ensures
        finished(s.update(i, r)) <= finished(s) + 1,
    decreases s.len(),
{
    let t = s.update(i, r);
    if i == s.len() - 1 {
        assert(t.drop_last() =~= s.drop_last());
    } else {
        assert(t.drop_last() =~= s.drop_last().update(i, r));
        assert(t.last() == s.last());
        lemma_finished_update(s.drop_last(), i, r);
    }
}

/// The running recording of a process at a target is one that is not over, of that session, that
/// process and that target; nothing else is taken for it.
pub proof fn law_active_recording_is_of_its_process(
    r: Recording<Seq<char>>,
    session_id: Seq<char>,
    target: Target,
    pid: u32,
)
    requires
        is_active(r, session_id, target, pid),
    ensures
        r.phase == RecordingPhase::Recording || r.phase == RecordingPhase::Downloading,
        r.session_id == session_id,
        r.pid == pid,
        r.env_id == target.env_id,
        text::non_blank(r.pod) == target.pod,
        text::non_blank(r.namespace) == target.namespace,
        text::non_blank(r.container) == target.container,
{
}

/// A recording that runs, or is being fetched, is the active one of its own session, process and
/// target, and stops being it when it is over.
pub proof fn law_recording_is_active_until_it_is_over(r: Recording<Seq<char>>)
    ensures
        is_active(
            r,
            r.session_id,
            pool::target_in(r.env_id, r.pod, r.namespace, r.container),
            r.pid,
        ) <==> r.phase == RecordingPhase::Recording || r.phase == RecordingPhase::Downloading,
{
}

} // verus!
