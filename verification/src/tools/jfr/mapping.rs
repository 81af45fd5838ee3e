//! What the recording tools ask of a JVM, and what the analysing tools ask of the analyser.

use vstd::prelude::*;

use crate::json;
use crate::json::Json;
use crate::text;
use crate::text::Sep;

verus! {

/// An analysis of a recording.
#[derive(Clone, Copy, Debug, PartialEq, Eq, Structural)]
pub enum JfrProxyKind {
    Overview,
    Rules,
    QuickAnalysis,
    GcDetail,
    MemoryLeaks,
    PredictiveLeak,
    AllocationHotspots,
    HotMethods,
    ThreadCpu,
    CpuFlame,
    ThreadContention,
    DeadlockDetection,
    IoHotspots,
    Exceptions,
    Errors,
    Safepoints,
    VirtualThreads,
    StackTraceSearch,
    Correlate,
    RequestWaterfall,
}

/// The name of an analysis at the analyser.
pub open spec fn upstream(kind: JfrProxyKind) -> Seq<char> {
    match kind {
        JfrProxyKind::Overview => "jfrOverview"@,
        JfrProxyKind::Rules => "jfrRules"@,
        JfrProxyKind::QuickAnalysis => "smartQuickAnalysis"@,
        JfrProxyKind::GcDetail => "gcDetail"@,
        JfrProxyKind::MemoryLeaks => "memoryLeaks"@,
        JfrProxyKind::PredictiveLeak => "smartPredictiveLeakAnalysis"@,
        JfrProxyKind::AllocationHotspots => "allocationHotspots"@,
        JfrProxyKind::HotMethods => "hotMethods"@,
        JfrProxyKind::ThreadCpu => "threadCpu"@,
        JfrProxyKind::CpuFlame => "cpuFlame"@,
        JfrProxyKind::ThreadContention => "threadContention"@,
        JfrProxyKind::DeadlockDetection => "deadlockDetection"@,
        JfrProxyKind::IoHotspots => "ioHotspots"@,
        JfrProxyKind::Exceptions => "exceptionAnalysis"@,
        JfrProxyKind::Errors => "errorAnalysis"@,
        JfrProxyKind::Safepoints => "safepointAnalysis"@,
        JfrProxyKind::VirtualThreads => "virtualThreadTool"@,
        JfrProxyKind::StackTraceSearch => "smartStackTraceSearch"@,
        JfrProxyKind::Correlate => "smartCorrelate"@,
        JfrProxyKind::RequestWaterfall => "smartRequestWaterfall"@,
    }
}

impl JfrProxyKind {
    /// The name of the analysis at the analyser.
    pub fn upstream_name(&self) -> (r: &'static str)
        ensures
            r@ == upstream(*self),
    {
        match self {
            JfrProxyKind::Overview => "jfrOverview",
            JfrProxyKind::Rules => "jfrRules",
            JfrProxyKind::QuickAnalysis => "smartQuickAnalysis",
            JfrProxyKind::GcDetail => "gcDetail",
            JfrProxyKind::MemoryLeaks => "memoryLeaks",
            JfrProxyKind::PredictiveLeak => "smartPredictiveLeakAnalysis",
            JfrProxyKind::AllocationHotspots => "allocationHotspots",
            JfrProxyKind::HotMethods => "hotMethods",
            JfrProxyKind::ThreadCpu => "threadCpu",
            JfrProxyKind::CpuFlame => "cpuFlame",
            JfrProxyKind::ThreadContention => "threadContention",
            JfrProxyKind::DeadlockDetection => "deadlockDetection",
            JfrProxyKind::IoHotspots => "ioHotspots",
            JfrProxyKind::Exceptions => "exceptionAnalysis",
            JfrProxyKind::Errors => "errorAnalysis",
            JfrProxyKind::Safepoints => "safepointAnalysis",
            JfrProxyKind::VirtualThreads => "virtualThreadTool",
            JfrProxyKind::StackTraceSearch => "smartStackTraceSearch",
            JfrProxyKind::Correlate => "smartCorrelate",
            JfrProxyKind::RequestWaterfall => "smartRequestWaterfall",
        }
    }
}

/// What tells the names of two analyses apart: the length, the first character and the sixth.
proof fn lemma_upstream_marks(kind: JfrProxyKind)
    ensures
        ({
            let s = upstream(kind);
            match kind {
                JfrProxyKind::Overview => s.len() == 11 && s[0] == 'j' && s[5] == 'e',
                JfrProxyKind::Rules => s.len() == 8 && s[0] == 'j' && s[5] == 'l',
                JfrProxyKind::QuickAnalysis => s.len() == 18 && s[0] == 's' && s[5] == 'Q',
                JfrProxyKind::GcDetail => s.len() == 8 && s[0] == 'g' && s[5] == 'a',
                JfrProxyKind::MemoryLeaks => s.len() == 11 && s[0] == 'm' && s[5] == 'y',
                JfrProxyKind::PredictiveLeak => s.len() == 27 && s[0] == 's' && s[5] == 'P',
                JfrProxyKind::AllocationHotspots => s.len() == 18 && s[0] == 'a' && s[5] == 'a',
                JfrProxyKind::HotMethods => s.len() == 10 && s[0] == 'h' && s[5] == 't',
                JfrProxyKind::ThreadCpu => s.len() == 9 && s[0] == 't' && s[5] == 'd',
                JfrProxyKind::CpuFlame => s.len() == 8 && s[0] == 'c' && s[5] == 'a',
                JfrProxyKind::ThreadContention => s.len() == 16 && s[0] == 't' && s[5] == 'd',
                JfrProxyKind::DeadlockDetection => s.len() == 17 && s[0] == 'd' && s[5] == 'o',
                JfrProxyKind::IoHotspots => s.len() == 10 && s[0] == 'i' && s[5] == 's',
                JfrProxyKind::Exceptions => s.len() == 17 && s[0] == 'e' && s[5] == 't',
                JfrProxyKind::Errors => s.len() == 13 && s[0] == 'e' && s[5] == 'A',
                JfrProxyKind::Safepoints => s.len() == 17 && s[0] == 's' && s[5] == 'o',
                JfrProxyKind::VirtualThreads => s.len() == 17 && s[0] == 'v' && s[5] == 'a',
                JfrProxyKind::StackTraceSearch => s.len() == 21 && s[0] == 's' && s[5] == 'S',
                JfrProxyKind::Correlate => s.len() == 14 && s[0] == 's' && s[5] == 'C',
                JfrProxyKind::RequestWaterfall => s.len() == 21 && s[0] == 's' && s[5] == 'R',
            }
        }),
{
    reveal_strlit("jfrOverview");
    reveal_strlit("jfrRules");
    reveal_strlit("smartQuickAnalysis");
    reveal_strlit("gcDetail");
    reveal_strlit("memoryLeaks");
    reveal_strlit("smartPredictiveLeakAnalysis");
    reveal_strlit("allocationHotspots");
    reveal_strlit("hotMethods");
    reveal_strlit("threadCpu");
    reveal_strlit("cpuFlame");
    reveal_strlit("threadContention");
    reveal_strlit("deadlockDetection");
    reveal_strlit("ioHotspots");
    reveal_strlit("exceptionAnalysis");
    reveal_strlit("errorAnalysis");
    reveal_strlit("safepointAnalysis");
    reveal_strlit("virtualThreadTool");
    reveal_strlit("smartStackTraceSearch");
    reveal_strlit("smartCorrelate");
    reveal_strlit("smartRequestWaterfall");
}

/// No two analyses have one name.
pub proof fn law_upstream_names_differ(a: JfrProxyKind, b: JfrProxyKind)
    requires
        upstream(a) == upstream(b),
    ensures
        a == b,
{
    lemma_upstream_marks(a);
    lemma_upstream_marks(b);
}

// ---------------------------------------------------------------------------------------------
// Recording
// ---------------------------------------------------------------------------------------------

/// How long a recording takes unless its length is given, in seconds.
pub const DEFAULT_DURATION_SECS: u32 = 60;

/// The shortest recording, in seconds.
pub const MIN_DURATION_SECS: i64 = 10;

/// The longest recording, in seconds.
pub const MAX_DURATION_SECS: i64 = 600;

/// How long to wait for a recording unless a time is given, in seconds.
pub const DEFAULT_RECORD_TIMEOUT_SECS: u64 = 600;

/// How long to wait for a recording at most, in seconds.
pub const MAX_RECORD_TIMEOUT_SECS: u64 = 1800;

/// How long a recording may take to be written once it is over, in seconds.
pub const RECORD_MARGIN_SECS: u64 = 120;

pub open spec fn bad_duration(n: i64) -> Seq<char> {
    "duration_secs 必须在 10~600 之间，收到 "@ + text::signed_dec(n as int)
}

fn bad_duration_text(n: i64) -> (r: String)
    ensures
        r@ == bad_duration(n),
{
    "duration_secs 必须在 10~600 之间，收到 ".to_owned().concat(text::i64_text(n).as_str())
}

pub open spec fn bad_settings(other: Seq<char>) -> Seq<char> {
    "settings 非法: "@ + other + "（可选 profile / default）"@
}

fn bad_settings_text(other: &str) -> (r: String)
    ensures
        r@ == bad_settings(other@),
{
    "settings 非法: ".to_owned().concat(other).concat("（可选 profile / default）")
}

/// The length of a recording that arguments ask for.
pub open spec fn asked_duration(args: Json) -> Result<int, Seq<char>> {
    match json::int_of(json::member(args, "duration_secs"@)) {
        None => Ok(DEFAULT_DURATION_SECS as int),
        Some(n) => if MIN_DURATION_SECS <= n <= MAX_DURATION_SECS {
            Ok(n)
        } else {
            Err(bad_duration(n as i64))
        },
    }
}

/// The set of events that arguments ask for.
pub open spec fn asked_settings(args: Json) -> Result<Seq<char>, Seq<char>> {
    match json::text_of(json::member(args, "settings"@)) {
        None => Ok("profile"@),
        Some(s) => if s == "profile"@ || s == "default"@ {
            Ok(s)
        } else {
            Err(bad_settings(s))
        },
    }
}

/// What arguments ask of a recording.
pub open spec fn record_params(args: Json) -> Result<(int, Seq<char>), Seq<char>> {
    match asked_duration(args) {
        Err(e) => Err(e),
        Ok(duration) => match asked_settings(args) {
            Err(e) => Err(e),
            Ok(settings) => Ok((duration, settings)),
        },
    }
}

/// The length and the set of events of a recording, or why they cannot be had.
pub fn validate_record_params(args: &serde_json::Value) -> (r: Result<(u32, String), String>)
    ensures
        (match r {
            Ok((duration, settings)) => Ok((duration as int, settings@)),
            Err(e) => Err(e@),
        }) == record_params(json::view_of(*args)),
{
    let duration: u32 = match json::int_arg(args, "duration_secs") {
        None => DEFAULT_DURATION_SECS,
        Some(n) => if MIN_DURATION_SECS <= n && n <= MAX_DURATION_SECS {
            n as u32
        } else {
            return Err(bad_duration_text(n));
        },
    };
    let settings: String = match json::text_arg(args, "settings") {
        None => "profile".to_owned(),
        Some(s) => if text::same(s, "profile") || text::same(s, "default") {
            s.to_owned()
        } else {
            return Err(bad_settings_text(s));
        },
    };
    Ok((duration, settings))
}

/// How long to wait for a recording: what was asked for, but long enough for the recording and
/// its writing, and never longer than the longest wait.
pub open spec fn record_timeout(user: Option<i64>, duration_secs: u32) -> int {
    let wanted = match user {
        Some(t) => if t > 0 {
            t as int
        } else {
            DEFAULT_RECORD_TIMEOUT_SECS as int
        },
        None => DEFAULT_RECORD_TIMEOUT_SECS as int,
    };
    let needed = duration_secs + RECORD_MARGIN_SECS;
    let wait = if wanted >= needed {
        wanted
    } else {
        needed
    };
    if wait <= MAX_RECORD_TIMEOUT_SECS {
        wait
    } else {
        MAX_RECORD_TIMEOUT_SECS as int
    }
}

/// How long to wait for a recording, in seconds.
pub fn effective_record_timeout(user: Option<i64>, duration_secs: u32) -> (r: u64)
    ensures
        r == record_timeout(user, duration_secs),
{
    let wanted: u64 = match user {
        Some(t) => if t > 0 {
            t as u64
        } else {
            DEFAULT_RECORD_TIMEOUT_SECS
        },
        None => DEFAULT_RECORD_TIMEOUT_SECS,
    };
    let needed: u64 = duration_secs as u64 + RECORD_MARGIN_SECS;
    let wait: u64 = if wanted >= needed {
        wanted
    } else {
        needed
    };
    if wait <= MAX_RECORD_TIMEOUT_SECS {
        wait
    } else {
        MAX_RECORD_TIMEOUT_SECS
    }
}

/// A recording of an admissible length is always waited for until it can have been written, and
/// never longer than the longest wait.
pub proof fn law_wait_covers_recording(user: Option<i64>, duration_secs: u32)
    requires
        duration_secs <= MAX_DURATION_SECS,
    ensures
        duration_secs + RECORD_MARGIN_SECS <= record_timeout(user, duration_secs)
            <= MAX_RECORD_TIMEOUT_SECS,
{
}

/// Whether a recording is kept on the disk of its JVM, in words.
pub open spec fn disk_word(disk: bool) -> Seq<char> {
    if disk {
        "true"@
    } else {
        "false"@
    }
}

fn disk_text(disk: bool) -> (r: &'static str)
    ensures
        r@ == disk_word(disk),
{
    if disk {
        "true"
    } else {
        "false"
    }
}

/// The command that starts a recording of a fixed length.
pub open spec fn jfr_start(
    jcmd: Seq<char>,
    pid: u32,
    name: Seq<char>,
    duration_secs: u32,
    settings: Seq<char>,
    disk: bool,
    remote_path: Seq<char>,
) -> Seq<char> {
    jcmd + " "@ + text::dec(pid as nat) + " JFR.start name="@ + name + " settings="@ + settings
        + " disk="@ + disk_word(disk) + " duration="@ + text::dec(duration_secs as nat)
        + "s filename="@ + remote_path
}

/// The command that starts a recording of a fixed length.
pub fn jfr_start_command(
    jcmd: &str,
    pid: u32,
    name: &str,
    duration_secs: u32,
    settings: &str,
    disk: bool,
    remote_path: &str,
) -> (r: String)
    ensures
        r@ == jfr_start(jcmd@, pid, name@, duration_secs, settings@, disk, remote_path@),
{
    jcmd.to_owned().concat(" ").concat(text::u64_text(pid as u64).as_str()).concat(
        " JFR.start name=",
    ).concat(name).concat(" settings=").concat(settings).concat(" disk=").concat(
        disk_text(disk),
    ).concat(" duration=").concat(text::u64_text(duration_secs as u64).as_str()).concat(
        "s filename=",
    ).concat(remote_path)
}

/// Whether a recording is kept on the disk of its JVM: as the arguments say, and where they say
/// nothing, not for a container, whose disk may be small.
pub open spec fn record_disk(user: Option<Json>, pod_target: bool) -> Option<bool> {
    match user {
        None => Some(!pod_target),
        Some(Json::Bool(b)) => Some(b),
        _ => None,
    }
}

/// Whether a recording is kept on the disk of its JVM.
pub fn resolve_record_disk(user: Option<&serde_json::Value>, pod_target: bool) -> (r: Result<
    bool,
    String,
>)
    ensures
        match record_disk(json::opt_view(user), pod_target) {
            Some(b) => r == Ok::<bool, String>(b),
            None => r matches Err(e) && e@ == "disk 必须是布尔值（true/false）"@,
        },
{
    match user {
        None => Ok(!pod_target),
        Some(v) => match json::as_bool(v) {
            Some(b) => Ok(b),
            None => Err("disk 必须是布尔值（true/false）".to_owned()),
        },
    }
}

/// The settings that are asked for are the settings of the recording, and its length is the length
/// that is asked for; where nothing is asked for, it is a minute of `profile`.
pub proof fn law_recording_is_as_asked(args: Map<Seq<char>, Json>, n: int, s: Seq<char>)
    requires
        args.contains_key("duration_secs"@) ==> args["duration_secs"@] == Json::Int(n) && 10 <= n
            <= 600,
        args.contains_key("settings"@) ==> args["settings"@] == Json::Text(s) && (s == "profile"@
            || s == "default"@),
    ensures
        record_params(Json::Object(args)) matches Ok((length, settings)) && {
            &&& args.contains_key("duration_secs"@) ==> length == n
            &&& !args.contains_key("duration_secs"@) ==> length == 60
            &&& args.contains_key("settings"@) ==> settings == s
            &&& !args.contains_key("settings"@) ==> settings == "profile"@
        },
{
}

/// What is recorded is within bounds and one of two kinds; any other length or kind that is asked
/// for is refused, with its name in the refusal.
pub proof fn law_recording_is_admissible(args: Map<Seq<char>, Json>, n: int, s: Seq<char>)
    ensures
        record_params(Json::Object(args)) matches Ok((length, settings)) ==> 10 <= length <= 600 && (
        settings == "profile"@ || settings == "default"@),
        args.contains_key("duration_secs"@) && args["duration_secs"@] == Json::Int(n) && i64::MIN
            <= n <= i64::MAX && !(10 <= n <= 600) ==> (record_params(
            Json::Object(args),
        ) matches Err(e) && text::contains(e, text::signed_dec(n))),
        !args.contains_key("duration_secs"@) && args.contains_key("settings"@)
            && args["settings"@] == Json::Text(s) && s != "profile"@ && s != "default"@ ==> (
        record_params(Json::Object(args)) matches Err(e) && text::contains(e, s)),
{
    let e = Seq::<char>::empty();
    text::lemma_contains("duration_secs 必须在 10~600 之间，收到 "@, text::signed_dec(n), e);
    assert("duration_secs 必须在 10~600 之间，收到 "@ + text::signed_dec(n) + e
        =~= "duration_secs 必须在 10~600 之间，收到 "@ + text::signed_dec(n));
    text::lemma_contains("settings 非法: "@, s, "（可选 profile / default）"@);
}

/// How long a recording is waited for: as long as was asked for, where that leaves two minutes for
/// its writing and is at most half an hour; without a usable request ten minutes, or two minutes
/// more than the recording takes, whichever is longer.
pub proof fn law_wait_is_as_asked(user: i64, duration_secs: u32)
    requires
        duration_secs <= 600,
    ensures
        duration_secs + 120 <= user <= 1800 ==> record_timeout(Some(user), duration_secs) == user,
        user > 1800 ==> record_timeout(Some(user), duration_secs) == 1800,
        0 < user < duration_secs + 120 ==> record_timeout(Some(user), duration_secs)
            == duration_secs + 120,
        user <= 0 ==> record_timeout(Some(user), duration_secs) == record_timeout(
            None,
            duration_secs,
        ),
        duration_secs <= 480 ==> record_timeout(None, duration_secs) == 600,
        480 <= duration_secs ==> record_timeout(None, duration_secs) == duration_secs + 120,
{
}

/// The command to start a recording names the program and the process first, and each setting
/// under its name, with the value that it was made for.
pub proof fn law_start_is_told_everything(
    jcmd: Seq<char>,
    pid: u32,
    name: Seq<char>,
    duration_secs: u32,
    settings: Seq<char>,
    disk: bool,
    remote_path: Seq<char>,
)
    ensures
        ({
            let cmd = jfr_start(jcmd, pid, name, duration_secs, settings, disk, remote_path);
            let kept = if disk {
                "true"@
            } else {
                "false"@
            };
            &&& text::starts(cmd, jcmd + " "@ + text::dec(pid as nat) + " JFR.start name="@ + name)
            &&& text::contains(cmd, " settings="@ + settings + " disk="@)
            &&& text::contains(cmd, " disk="@ + kept + " duration="@)
            &&& text::contains(cmd, " duration="@ + text::dec(duration_secs as nat) + "s filename="@)
            &&& text::contains(cmd, "s filename="@ + remote_path)
        }),
{
    let d = text::dec(duration_secs as nat);
    let w = disk_word(disk);
    let p1 = jcmd + " "@ + text::dec(pid as nat) + " JFR.start name="@ + name;
    let p2 = p1 + " settings="@ + settings;
    let p3 = p2 + " disk="@;
    let p4 = p3 + w + " duration="@;
    let p5 = p4 + d + "s filename="@;
    text::lemma_start(p1, " settings="@);
    text::lemma_start_kept(p1 + " settings="@, p1, settings);
    text::lemma_start_kept(p2, p1, " disk="@);
    text::lemma_start_kept(p3, p1, w);
    text::lemma_start_kept(p3 + w, p1, " duration="@);
    text::lemma_start_kept(p4, p1, d);
    text::lemma_start_kept(p4 + d, p1, "s filename="@);
    text::lemma_start_kept(p5, p1, remote_path);
    let t1 = " settings="@ + settings + " disk="@;
    text::lemma_part_of_three(p1, " settings="@, settings, " disk="@);
    text::lemma_part_kept(p3, t1, w);
    text::lemma_part_kept(p3 + w, t1, " duration="@);
    text::lemma_part_kept(p4, t1, d);
    text::lemma_part_kept(p4 + d, t1, "s filename="@);
    text::lemma_part_kept(p5, t1, remote_path);
    let t2 = " disk="@ + w + " duration="@;
    text::lemma_part_of_three(p2, " disk="@, w, " duration="@);
    text::lemma_part_kept(p4, t2, d);
    text::lemma_part_kept(p4 + d, t2, "s filename="@);
    text::lemma_part_kept(p5, t2, remote_path);
    let t3 = " duration="@ + d + "s filename="@;
    text::lemma_part_of_three(p3 + w, " duration="@, d, "s filename="@);
    text::lemma_part_kept(p5, t3, remote_path);
    text::lemma_part_of_two(p4 + d, "s filename="@, remote_path);
}

/// A recording is kept on the disk of its JVM as the arguments say; where they say nothing, on a
/// host it is and in a container it is not; anything but a yes or no is refused.
pub proof fn law_disk_is_as_asked(user: Json, in_pod: bool)
    ensures
        record_disk(Some(Json::Bool(true)), in_pod) == Some(true),
        record_disk(Some(Json::Bool(false)), in_pod) == Some(false),
        record_disk(None, true) == Some(false),
        record_disk(None, false) == Some(true),
        user !is Bool ==> record_disk(Some(user), in_pod) is None,
{
}

/// The command that asks after a recording.
pub open spec fn jfr_check(jcmd: Seq<char>, pid: u32, name: Seq<char>) -> Seq<char> {
    jcmd + " "@ + text::dec(pid as nat) + " JFR.check name="@ + name
}

/// The command that asks after a recording.
pub fn jfr_check_command(jcmd: &str, pid: u32, name: &str) -> (r: String)
    ensures
        r@ == jfr_check(jcmd@, pid, name@),
{
    jcmd.to_owned()
        .concat(" ")
        .concat(text::u64_text(pid as u64).as_str())
        .concat(" JFR.check name=")
        .concat(name)
}

/// The command that asks a JVM for its version.
pub open spec fn vm_version(jcmd: Seq<char>, pid: u32) -> Seq<char> {
    jcmd + " "@ + text::dec(pid as nat) + " VM.version"@
}

/// The command that asks a JVM for its version.
pub fn vm_version_command(jcmd: &str, pid: u32) -> (r: String)
    ensures
        r@ == vm_version(jcmd@, pid),
{
    jcmd.to_owned()
        .concat(" ")
        .concat(text::u64_text(pid as u64).as_str())
        .concat(" VM.version")
}

// ---------------------------------------------------------------------------------------------
// The version of a JVM
// ---------------------------------------------------------------------------------------------

/// A text without the colons at its end.
pub open spec fn without_colons(s: Seq<char>) -> Seq<char>
    decreases s.len(),
{
    if s.len() > 0 && s.last() == ':' {
        without_colons(s.drop_last())
    } else {
        s
    }
}

/// Whether a line is the one that names the process: its number and a colon.
pub open spec fn is_header(line: Seq<char>) -> bool {
    &&& line.len() > 0
    &&& line.last() == ':'
    &&& forall|i: int|
        0 <= i < without_colons(line).len() ==> text::is_digit(#[trigger] without_colons(line)[i])
}

/// Where the digits end that stand at `i`.
pub open spec fn digits_end(s: Seq<char>, i: int) -> int
    decreases s.len() - i,
{
    if 0 <= i < s.len() && text::is_digit(s[i]) {
        digits_end(s, i + 1)
    } else {
        i
    }
}

/// The version that stands at `i`: digits, then a dot or an underscore. What begins with `1` is
/// named by what comes next.
pub open spec fn version_at(s: Seq<char>, i: int) -> Option<nat> {
    let end = digits_end(s, i);
    if i < end < s.len() && (s[end] == '.' || s[end] == '_') {
        let parts = text::split(s.subrange(i, s.len() as int), Sep::Version);
        match text::parse_uint(parts[0], u32::MAX as nat) {
            Some(major) => if major != 1 {
                Some(major)
            } else if parts.len() > 1 {
                text::parse_uint(parts[1], u32::MAX as nat)
            } else {
                None
            },
            None => None,
        }
    } else {
        None
    }
}

/// The first version that stands in a line, from `i` on.
pub open spec fn version_from(s: Seq<char>, i: int) -> Option<nat>
    decreases s.len() - i,
{
    if 0 <= i < s.len() {
        match version_at(s, i) {
            Some(v) => Some(v),
            None => version_from(s, i + 1),
        }
    } else {
        None
    }
}

/// The version in a line, unless the line names the process.
pub open spec fn line_version(line: Seq<char>) -> Option<nat> {
    let line = text::trimmed(line);
    if is_header(line) {
        None
    } else {
        version_from(line, 0)
    }
}

/// The first version in lines.
pub open spec fn lines_version(lines: Seq<Seq<char>>) -> Option<nat>
    decreases lines.len(),
{
    if lines.len() == 0 {
        None
    } else {
        match line_version(lines[0]) {
            Some(v) => Some(v),
            None => lines_version(lines.drop_first()),
        }
    }
}

/// The major version in what `VM.version` prints.
pub open spec fn vm_major(stdout: Seq<char>) -> Option<nat> {
    lines_version(text::lines(stdout))
}

fn header_line(line: &Vec<char>) -> (r: bool)
    ensures
        r == is_header(line@),
{
    let n: usize = line.len();
    if n == 0 || line[n - 1] != ':' {
        return false;
    }
    let mut end: usize = n;
    proof {
        assert(line@.take(n as int) =~= line@);
    }
    while end > 0 && line[end - 1] == ':'
        invariant
            end <= line@.len(),
            without_colons(line@.take(end as int)) == without_colons(line@),
        decreases end,
    {
        proof {
            assert(line@.take(end as int).drop_last() =~= line@.take(end as int - 1));
            assert(line@.take(end as int).last() == ':');
        }
        end = end - 1;
    }
    proof {
        assert(without_colons(line@) == line@.take(end as int));
    }
    let mut i: usize = 0;
    while i < end
        invariant
            i <= end <= line@.len(),
            without_colons(line@) == line@.take(end as int),
            forall|j: int| 0 <= j < i ==> text::is_digit(#[trigger] line@[j]),
        decreases end - i,
    {
        if !text::is_digit_char(line[i]) {
            proof {
                assert(without_colons(line@)[i as int] == line@[i as int]);
            }
            return false;
        }
        i = i + 1;
    }
    true
}

fn digits_end_of(s: &Vec<char>, i: usize) -> (r: usize)
    requires
        i <= s@.len(),
    ensures
        r == digits_end(s@, i as int),
        i <= r <= s@.len(),
{
    let mut end: usize = i;
    while end < s.len() && text::is_digit_char(s[end])
        invariant
            i <= end <= s@.len(),
            digits_end(s@, end as int) == digits_end(s@, i as int),
        decreases s@.len() - end,
    {
        end = end + 1;
    }
    end
}

fn version_here(s: &Vec<char>, i: usize) -> (r: Option<u32>)
    requires
        i < s@.len(),
    ensures
        (match r {
            Some(v) => Some(v as nat),
            None => None,
        }) == version_at(s@, i as int),
{
    let end: usize = digits_end_of(s, i);
    if end == i || end >= s.len() || (s[end] != '.' && s[end] != '_') {
        return None;
    }
    let rest: String = text::slice_text(s, i, s.len());
    let parts: Vec<String> = text::split_text(rest.as_str(), Sep::Version);
    proof {
        text::lemma_split_len(rest@, Sep::Version);
        assert(text::views(parts@)[0] == parts@[0]@);
    }
    match text::parse_number(parts[0].as_str(), u32::MAX as u64) {
        Some(major) => if major != 1 {
            Some(major as u32)
        } else if parts.len() > 1 {
            proof {
                assert(text::views(parts@)[1] == parts@[1]@);
            }
            match text::parse_number(parts[1].as_str(), u32::MAX as u64) {
                Some(minor) => Some(minor as u32),
                None => None,
            }
        } else {
            None
        },
        None => None,
    }
}

fn version_of_line(line: &str) -> (r: Option<u32>)
    ensures
        (match r {
            Some(v) => Some(v as nat),
            None => None,
        }) == line_version(line@),
{
    let s: Vec<char> = text::to_chars(text::trim(line).as_str());
    if header_line(&s) {
        return None;
    }
    let mut i: usize = 0;
    while i < s.len()
        invariant
            i <= s@.len(),
            version_from(s@, i as int) == line_version(line@),
        decreases s@.len() - i,
    {
        let v: Option<u32> = version_here(&s, i);
        if v.is_some() {
            return v;
        }
        i = i + 1;
    }
    None
}

/// The major version in what `VM.version` prints.
pub fn parse_vm_major_version(stdout: &str) -> (r: Option<u32>)
    ensures
        (match r {
            Some(v) => Some(v as nat),
            None => None,
        }) == vm_major(stdout@),
{
    let lines: Vec<String> = text::lines_of(stdout);
    let ghost all = text::lines(stdout@);
    let mut i: usize = 0;
    proof {
        assert(all.skip(0) =~= all);
    }
    while i < lines.len()
        invariant
            text::views(lines@) == all,
            i <= lines@.len(),
            lines_version(all.skip(i as int)) == vm_major(stdout@),
        decreases lines@.len() - i,
    {
        proof {
            assert(all[i as int] == lines@[i as int]@);
            assert(all.skip(i as int)[0] == all[i as int]);
            assert(all.skip(i as int).drop_first() =~= all.skip(i as int + 1));
        }
        let v: Option<u32> = version_of_line(lines[i].as_str());
        if v.is_some() {
            return v;
        }
        i = i + 1;
    }
    proof {
        assert(all.len() == lines@.len());
        assert(all.skip(i as int).len() == 0);
    }
    None
}

/// What jcmd prints before what a JVM says: the number of the process and a colon, on a line of its
/// own.
pub open spec fn pid_header(pid: u32) -> Seq<char> {
    text::dec(pid as nat) + seq![':']
}

/// The line by which jcmd names the process never changes the version that is found.
pub proof fn law_header_does_not_matter(pid: u32, s: Seq<char>)
    ensures
        vm_major(pid_header(pid) + seq!['\n'] + s) == vm_major(s),
{
    let d = text::dec(pid as nat);
    let line = pid_header(pid);
    text::lemma_dec_plain(pid as nat);
    text::lemma_dec_value(pid as nat);
    assert(text::is_digit(d[0]) && text::is_digit(d[d.len() - 1]));
    assert(line[0] == d[0]);
    assert forall|i: int| 0 <= i < line.len() implies #[trigger] line[i] != '\n' by {
        if i < d.len() {
            assert(text::is_digit(d[i]));
        }
    }
    text::lemma_line_before(line, s);
    assert(text::strip_cr(line) == line);
    text::lemma_trimmed(line);
    assert(line.drop_last() =~= d);
    assert(without_colons(d) == d);
    assert(without_colons(line) == d);
    let all = text::lines(line + seq!['\n'] + s);
    assert(all[0] == line);
    assert(all.drop_first() =~= text::lines(s));
    assert(line_version(line) is None);
}

proof fn lemma_without_colons_keeps(s: Seq<char>, i: int)
    requires
        0 <= i < s.len(),
        s[i] != ':',
    ensures
        i < without_colons(s).len(),
        without_colons(s)[i] == s[i],
    decreases s.len(),
{
    if s.last() == ':' {
        lemma_without_colons_keeps(s.drop_last(), i);
    }
}

proof fn lemma_digits_end(s: Seq<char>, i: int, n: int)
    requires
        0 <= i <= n < s.len(),
        forall|k: int| i <= k < n ==> text::is_digit(#[trigger] s[k]),
        !text::is_digit(s[n]),
    ensures
        digits_end(s, i) == n,
    decreases n - i,
{
    if i < n {
        lemma_digits_end(s, i + 1, n);
    }
}

/// The version in a text that begins with a number and a dot is told by how its first line begins.
proof fn lemma_version_of_start(s: Seq<char>, head: Seq<char>, n: nat) -> (line: Seq<char>)
    requires
        n <= u32::MAX,
        text::starts(s, head),
        text::starts(head, text::dec(n) + seq!['.']),
        head.last() == '.',
        forall|i: int| 0 <= i < head.len() ==> head[i] == '.' || text::is_digit(#[trigger] head[i]),
    ensures
        text::starts(line, head),
        digits_end(line, 0) == text::dec(n).len() < line.len(),
        line[text::dec(n).len() as int] == '.',
        version_at(line, 0) is Some ==> vm_major(s) == version_at(line, 0),
{
    let d = text::dec(n);
    let k = d.len() as int;
    let start = d + seq!['.'];
    text::lemma_dec_plain(n);
    text::lemma_dec_value(n);
    assert forall|i: int| 0 <= i < head.len() implies #[trigger] head[i] != '\n' by {
        assert(head[i] == '.' || text::is_digit(head[i]));
    }
    assert(head[0] == '.' || text::is_digit(head[0]));
    text::lemma_first_line(s, head);
    let first = text::lines(s)[0];
    text::lemma_trim_keeps(first, head);
    let line = text::trimmed(first);
    assert forall|i: int| 0 <= i < k implies text::is_digit(#[trigger] line[i]) by {
        assert(line[i] == line.take(head.len() as int)[i]);
        assert(head[i] == head.take(k + 1)[i]);
        assert(start[i] == d[i]);
        assert(text::is_digit(d[i]));
    }
    assert(line[k] == '.') by {
        assert(line[k] == line.take(head.len() as int)[k]);
        assert(head[k] == head.take(k + 1)[k]);
        assert(start[k] == '.');
    }
    lemma_digits_end(line, 0, k);
    lemma_without_colons_keeps(line, k);
    assert(!text::is_digit(without_colons(line)[k]));
    assert(!is_header(line));
    line
}

/// A version in the new style, which begins with the major version, and one in the old style, where
/// that follows a `1`, name the same major version, whatever comes behind. A major version of one
/// has no form in the new style.
pub proof fn law_old_and_new_versions_agree(n: u32, tail: Seq<char>)
    ensures
        n != 1 ==> vm_major(text::dec(n as nat) + seq!['.'] + tail) == Some(n as nat),
        vm_major(seq!['1', '.'] + text::dec(n as nat) + seq!['.'] + tail) == Some(n as nat),
{
    let d = text::dec(n as nat);
    text::lemma_dec_plain(n as nat);
    text::lemma_dec_value(n as nat);
    text::law_number_round_trip(n as nat, u32::MAX as nat);
    assert forall|i: int| 0 <= i < d.len() implies !text::is_sep(Sep::Version, #[trigger] d[i]) by {
        assert(text::is_digit(d[i]));
    }
    text::lemma_split_none(d, Sep::Version);
    if n != 1 {
        let head = d + seq!['.'];
        let s = head + tail;
        assert(s.take(head.len() as int) =~= head);
        assert(head.take(head.len() as int) =~= head);
        assert forall|i: int| 0 <= i < head.len() implies head[i] == '.' || text::is_digit(
            #[trigger] head[i],
        ) by {
            if i < d.len() {
                assert(text::is_digit(d[i]));
            }
        }
        let line = lemma_version_of_start(s, head, n as nat);
        let rest = line.subrange(head.len() as int, line.len() as int);
        assert(line =~= line.take(head.len() as int) + rest);
        assert(line =~= d + seq!['.'] + rest);
        text::lemma_split_join(d, '.', rest, Sep::Version);
        assert(line.subrange(0, line.len() as int) =~= line);
        assert(text::split(line, Sep::Version)[0] == d);
        assert(s =~= d + seq!['.'] + tail);
    }
    let one = text::dec(1);
    assert(one =~= seq!['1']);
    text::law_number_round_trip(1, u32::MAX as nat);
    let head = seq!['1', '.'] + d + seq!['.'];
    let s = head + tail;
    assert(s.take(head.len() as int) =~= head);
    assert(head.take(2) =~= one + seq!['.']);
    assert forall|i: int| 0 <= i < head.len() implies head[i] == '.' || text::is_digit(
        #[trigger] head[i],
    ) by {
        if 2 <= i < 2 + d.len() {
            assert(text::is_digit(d[i - 2]));
        }
    }
    let line = lemma_version_of_start(s, head, 1);
    let rest = line.subrange(head.len() as int, line.len() as int);
    assert(line =~= line.take(head.len() as int) + rest);
    let behind = d + seq!['.'] + rest;
    assert(line =~= one + seq!['.'] + behind);
    assert forall|i: int| 0 <= i < one.len() implies !text::is_sep(
        Sep::Version,
        #[trigger] one[i],
    ) by {
        assert(one[i] == '1');
    }
    text::lemma_split_none(one, Sep::Version);
    text::lemma_split_join(one, '.', behind, Sep::Version);
    text::lemma_split_join(d, '.', rest, Sep::Version);
    assert(line.subrange(0, line.len() as int) =~= line);
    let parts = text::split(line, Sep::Version);
    assert(parts[0] == one);
    assert(parts[1] == d);
    assert(s =~= seq!['1', '.'] + d + seq!['.'] + tail);
}

/// Whether what `JFR.check` printed says that the recording runs: the word in any case, on either
/// stream.
pub open spec fn check_passes(stdout: Seq<char>, stderr: Seq<char>) -> bool {
    text::contains(text::lowercase(stdout + "\n"@ + stderr), "running"@)
}

/// Whether what `JFR.check` printed says that the recording runs.
pub fn recording_check_passes(stdout: &str, stderr: &str) -> (r: bool)
    ensures
        r == check_passes(stdout@, stderr@),
{
    let both: String = stdout.to_owned().concat("\n").concat(stderr);
    text::has(text::to_lower(both.as_str()).as_str(), "running")
}

// ---------------------------------------------------------------------------------------------
// Analysing
// ---------------------------------------------------------------------------------------------

/// The options that are passed on: those of an object, none of anything else.
pub open spec fn passed_on(extra: Option<Json>) -> Map<Seq<char>, Json> {
    match extra {
        Some(Json::Object(m)) => m,
        _ => json::no_members(),
    }
}

/// What an analysis is asked with: the options, the recording, and that the answer is waited for.
pub open spec fn proxy_args(local_path: Seq<char>, extra: Option<Json>) -> Map<Seq<char>, Json> {
    passed_on(extra).insert("jfr_file_path"@, Json::Text(local_path)).insert(
        "async"@,
        Json::Bool(false),
    )
}

/// What a comparison is asked with.
pub open spec fn compare_args(baseline: Seq<char>, target: Seq<char>, extra: Option<Json>) -> Map<
    Seq<char>,
    Json,
> {
    passed_on(extra).insert("baseline_jfr_path"@, Json::Text(baseline)).insert(
        "target_jfr_path"@,
        Json::Text(target),
    ).insert("async"@, Json::Bool(false))
}

fn options(extra: Option<&serde_json::Value>) -> (r: serde_json::Map<String, serde_json::Value>)
    ensures
        json::members(r) == passed_on(json::opt_view(extra)),
{
    match extra {
        Some(v) => match json::as_object(v) {
            Some(m) => json::copy_map(m),
            None => json::new_map(),
        },
        None => json::new_map(),
    }
}

/// What the analyser is asked for an analysis: its name there, and its arguments.
pub fn build_proxy(kind: JfrProxyKind, local_path: &str, extra: Option<&serde_json::Value>) -> (r: (
    String,
    serde_json::Value,
))
    ensures
        r.0@ == upstream(kind),
        json::view_of(r.1) == Json::Object(proxy_args(local_path@, json::opt_view(extra))),
{
    let mut map: serde_json::Map<String, serde_json::Value> = options(extra);
    json::insert(&mut map, "jfr_file_path", json::text_value(local_path));
    json::insert(&mut map, "async", json::bool_value(false));
    (kind.upstream_name().to_owned(), json::object(map))
}

/// What the analyser is asked for a comparison.
pub fn build_compare(baseline: &str, target: &str, extra: Option<&serde_json::Value>) -> (r: (
    String,
    serde_json::Value,
))
    ensures
        r.0@ == "compareRecordings"@,
        json::view_of(r.1) == Json::Object(
            compare_args(baseline@, target@, json::opt_view(extra)),
        ),
{
    let mut map: serde_json::Map<String, serde_json::Value> = options(extra);
    json::insert(&mut map, "baseline_jfr_path", json::text_value(baseline));
    json::insert(&mut map, "target_jfr_path", json::text_value(target));
    json::insert(&mut map, "async", json::bool_value(false));
    ("compareRecordings".to_owned(), json::object(map))
}

/// Whatever options are passed on, an analysis is asked with the recording that was named and is
/// waited for, and the other options arrive as they are.
pub proof fn law_options_do_not_override(
    local_path: Seq<char>,
    baseline: Seq<char>,
    target: Seq<char>,
    extra: Option<Json>,
    key: Seq<char>,
)
    ensures
        proxy_args(local_path, extra)["jfr_file_path"@] == Json::Text(local_path),
        proxy_args(local_path, extra)["async"@] == Json::Bool(false),
        compare_args(baseline, target, extra)["baseline_jfr_path"@] == Json::Text(baseline),
        compare_args(baseline, target, extra)["target_jfr_path"@] == Json::Text(target),
        compare_args(baseline, target, extra)["async"@] == Json::Bool(false),
        passed_on(extra).contains_key(key) && key != "jfr_file_path"@ && key != "async"@
            ==> proxy_args(local_path, extra).contains_key(key) && proxy_args(
            local_path,
            extra,
        )[key] == passed_on(extra)[key],
        proxy_args(local_path, extra).contains_key(key) ==> key == "jfr_file_path"@ || key
            == "async"@ || passed_on(extra).contains_key(key),
{
    reveal_strlit("jfr_file_path");
    reveal_strlit("async");
    reveal_strlit("baseline_jfr_path");
    reveal_strlit("target_jfr_path");
    assert("jfr_file_path"@.len() != "async"@.len());
    assert("baseline_jfr_path"@.len() != "async"@.len());
    assert("target_jfr_path"@.len() != "async"@.len());
    assert("baseline_jfr_path"@.len() != "target_jfr_path"@.len());
}

/// The version is asked of the JVM of the process, with the `jcmd` that was found.
pub proof fn law_version_is_asked_of_its_process(jcmd: Seq<char>, pid: u32)
    ensures
        text::starts(vm_version(jcmd, pid), jcmd + " "@ + text::dec(pid as nat)),
        text::contains(vm_version(jcmd, pid), " VM.version"@),
{
    let c0 = jcmd;
    let c1 = " "@;
    let c2 = text::dec(pid as nat);
    let c3 = " VM.version"@;
    let p0 = c0;
    let p1 = p0 + c1;
    let p2 = p1 + c2;
    let p3 = p2 + c3;
    let t3_4 = c3;
    text::lemma_part(p2, c3);
    text::lemma_start(p2, c3);
}

/// A recording runs if one of the streams of `JFR.check` says so, in any case: what stands on the
/// one is not overlooked for what stands on the other. It is stated where the lower case of both
/// together is that of each.
pub proof fn law_either_stream_says_running(stdout: Seq<char>, stderr: Seq<char>)
    requires
        text::lowercase(stdout + "\n"@ + stderr) == text::lowercase(stdout) + "\n"@ + text::lowercase(
            stderr,
        ),
        text::contains(text::lowercase(stdout), "running"@) || text::contains(
            text::lowercase(stderr),
            "running"@,
        ),
    ensures
        check_passes(stdout, stderr),
{
    let a = text::lowercase(stdout);
    let b = text::lowercase(stderr);
    text::lemma_part(a + "\n"@, b);
    if text::contains(a, "running"@) {
        text::lemma_part_kept(a, "running"@, "\n"@);
        text::lemma_part_kept(a + "\n"@, "running"@, b);
    } else {
        text::lemma_part_of_part(a + "\n"@ + b, b, "running"@);
    }
}

proof fn lemma_digits_end_shift(p: Seq<char>, s: Seq<char>, i: int)
    requires
        0 <= i <= s.len(),
    ensures
        digits_end(p + s, p.len() + i) == p.len() + digits_end(s, i),
        i <= digits_end(s, i) <= s.len(),
    decreases s.len() - i,
{
    if i < s.len() {
        assert((p + s)[p.len() + i] == s[i]);
        if text::is_digit(s[i]) {
            lemma_digits_end_shift(p, s, i + 1);
        }
    }
}

proof fn lemma_version_shift(p: Seq<char>, s: Seq<char>, i: int)
    requires
        0 <= i <= s.len(),
    ensures
        version_from(p + s, p.len() + i) == version_from(s, i),
    decreases s.len() - i,
{
    if i < s.len() {
        let all = p + s;
        let n = p.len() as int;
        lemma_digits_end_shift(p, s, i);
        let end = digits_end(s, i);
        if end < s.len() {
            assert(all[n + end] == s[end]);
        }
        assert(all.subrange(n + i, all.len() as int) =~= s.subrange(i, s.len() as int));
        lemma_version_shift(p, s, i + 1);
    }
}

/// Words before the version do not matter, as long as no digit is among them; and a line without a
/// version leaves the choice to the lines behind it.
pub proof fn law_words_before_the_version_do_not_matter(
    p: Seq<char>,
    s: Seq<char>,
    line: Seq<char>,
    more: Seq<Seq<char>>,
)
    requires
        forall|i: int| 0 <= i < p.len() ==> !text::is_digit(#[trigger] p[i]),
    ensures
        version_from(p + s, 0) == version_from(s, 0),
        line_version(line) is None ==> lines_version(seq![line] + more) == lines_version(more),
        line_version(line) is Some ==> lines_version(seq![line] + more) == line_version(line),
    decreases p.len(),
{
    let all = seq![line] + more;
    assert(all[0] == line);
    assert(all.drop_first() =~= more);
    lemma_version_shift(p, s, 0);
    lemma_no_version_in(p, s, 0);
}

proof fn lemma_no_version_in(p: Seq<char>, s: Seq<char>, i: int)
    requires
        0 <= i <= p.len(),
        forall|j: int| 0 <= j < p.len() ==> !text::is_digit(#[trigger] p[j]),
    ensures
        version_from(p + s, i) == version_from(p + s, p.len() as int),
    decreases p.len() - i,
{
    if i < p.len() {
        assert((p + s)[i] == p[i]);
        assert(digits_end(p + s, i) == i);
        lemma_no_version_in(p, s, i + 1);
    }
}

} // verus!
