//! The tools that analyse recordings.

use vstd::prelude::*;

use crate::json;
use crate::json::Json;
use crate::text;
use crate::tools::call::{Answer, Ask, JmcError};
use crate::tools::jfr::mapping;
use crate::tools::jfr::mapping::JfrProxyKind;
use crate::tools::jfr::record;
use crate::tools::jfr::status;
use crate::tools::output;
use crate::tools::output::{Offer, RiskLevel, Shown, ToolCategory, ToolDef, ToolOutput};

verus! {

/// How long a call may take, in seconds: unless a time is given, and at most.
pub type Timeouts = (u64, u64);

/// The times of an analysis that is quick.
pub const QUERY: Timeouts = (60, 300);

/// The times of an analysis that is not.
pub const HEAVY: Timeouts = (300, 1800);

/// What a tool does with recordings.
#[derive(Clone, Copy, Debug, PartialEq, Eq, Structural)]
pub enum JfrToolKind {
    /// It compares two.
    Compare,
    /// It analyses one.
    Proxy(JfrProxyKind),
}

// ---------------------------------------------------------------------------------------------
// Messages
// ---------------------------------------------------------------------------------------------

pub open spec fn no_file(path: Seq<char>) -> Seq<char> {
    "文件不存在: "@ + path
}

fn no_file_text(path: &str) -> (r: String)
    ensures
        r@ == no_file(path@),
{
    "文件不存在: ".to_owned().concat(path)
}

pub open spec fn pair(a: Seq<char>, b: Seq<char>) -> Seq<char> {
    a + " -> "@ + b
}

fn pair_text(a: &str, b: &str) -> (r: String)
    ensures
        r@ == pair(a@, b@),
{
    a.to_owned().concat(" -> ").concat(b)
}

pub open spec fn no_java(m: Seq<char>) -> Seq<char> {
    "本机 Java 21+ 不可用："@ + m + "。请安装 JDK 21+ 后重试。"@
}

fn no_java_text(m: &str) -> (r: String)
    ensures
        r@ == no_java(m@),
{
    "本机 Java 21+ 不可用：".to_owned().concat(m).concat("。请安装 JDK 21+ 后重试。")
}

pub open spec fn unavailable(m: Seq<char>) -> Seq<char> {
    m + "。可重试一次；连续失败请查看 Friday 日志。"@
}

fn unavailable_text(m: &str) -> (r: String)
    ensures
        r@ == unavailable(m@),
{
    m.to_owned().concat("。可重试一次；连续失败请查看 Friday 日志。")
}

pub open spec fn too_slow(secs: u64) -> Seq<char> {
    "JMC 分析调用超时（"@ + text::dec(secs as nat)
        + "s）。工人进程未受影响，可加大 timeout_secs 或用 start_time/end_time 缩小时间窗后重试。"@
}

fn too_slow_text(secs: u64) -> (r: String)
    ensures
        r@ == too_slow(secs),
{
    "JMC 分析调用超时（".to_owned()
        .concat(text::u64_text(secs).as_str())
        .concat("s）。工人进程未受影响，可加大 timeout_secs 或用 start_time/end_time 缩小时间窗后重试。")
}

pub open spec fn artifact(tool: Seq<char>, path: Seq<char>, text: Seq<char>) -> Seq<char> {
    "--- tool: "@ + tool + " ---\n--- local_path: "@ + path + " ---\n--- full output ---\n"@
        + text + "\n"@
}

fn artifact_text(tool: &str, path: &str, text: &str) -> (r: String)
    ensures
        r@ == artifact(tool@, path@, text@),
{
    "--- tool: ".to_owned()
        .concat(tool)
        .concat(" ---\n--- local_path: ")
        .concat(path)
        .concat(" ---\n--- full output ---\n")
        .concat(text)
        .concat("\n")
}

pub open spec fn cut_with_path(body: Seq<char>, path: Seq<char>) -> Seq<char> {
    body + "\n[truncated, full output: "@ + path + "]"@
}

fn cut_with_path_text(body: &str, path: &str) -> (r: String)
    ensures
        r@ == cut_with_path(body@, path@),
{
    body.to_owned().concat("\n[truncated, full output: ").concat(path).concat("]")
}

pub open spec fn cut_alone(body: Seq<char>) -> Seq<char> {
    body + "\n[truncated]"@
}

fn cut_alone_text(body: &str) -> (r: String)
    ensures
        r@ == cut_alone(body@),
{
    body.to_owned().concat("\n[truncated]")
}

pub open spec fn times_text(default: u64, max: u64) -> Seq<char> {
    "超时秒数，默认 "@ + text::dec(default as nat) + "，上限 "@ + text::dec(max as nat)
}

fn times_value(default: u64, max: u64) -> (r: String)
    ensures
        r@ == times_text(default, max),
{
    "超时秒数，默认 ".to_owned()
        .concat(text::u64_text(default).as_str())
        .concat("，上限 ")
        .concat(text::u64_text(max).as_str())
}

// ---------------------------------------------------------------------------------------------
// A call
// ---------------------------------------------------------------------------------------------

/// What the analyser gave back, as it is shown.
#[derive(Debug, PartialEq, Eq)]
pub struct Report<S> {
    pub tool: S,
    pub local_path: S,
    pub text: S,
    pub elapsed_ms: u64,
    /// Whether it is the answer that was asked for, and not an error.
    pub success: bool,
    /// The head of the text that is shown.
    pub body: S,
    /// Whether that is not all of it.
    pub truncated: bool,
    /// The file that holds all of it, where it could be written.
    pub full_path: Option<S>,
}

/// What a call came to.
#[derive(Debug, PartialEq, Eq)]
pub enum AnalysisOutcome<S> {
    /// It was refused or failed.
    Refused { code: S, message: S },
    /// The analyser answered.
    Reported { report: Report<S> },
}

/// Where a call stands.
#[derive(Debug, PartialEq, Eq)]
pub enum AnalysisStage<S> {
    /// Find the recording, or the first of two.
    First,
    /// Find the second recording.
    Second,
    /// Ask the analyser.
    Analyse,
    /// Cut what it gave back.
    Cut { text: S, success: bool, elapsed_ms: u64 },
    /// Keep all of it.
    Save { report: Report<S> },
    /// It is over.
    Ended { outcome: AnalysisOutcome<S> },
}

/// A call of a tool that analyses recordings.
#[derive(Debug, PartialEq, Eq)]
pub struct JfrProxyHandler<S> {
    pub kind: JfrToolKind,
    /// The recording that was named, or the first of two.
    pub first: S,
    /// The second recording that was named.
    pub second: S,
    pub secs: u64,
    pub stage: AnalysisStage<S>,
}

impl View for Report<String> {
    type V = Report<Seq<char>>;

    open spec fn view(&self) -> Report<Seq<char>> {
        Report {
            tool: self.tool@,
            local_path: self.local_path@,
            text: self.text@,
            elapsed_ms: self.elapsed_ms,
            success: self.success,
            body: self.body@,
            truncated: self.truncated,
            full_path: text::opt(self.full_path),
        }
    }
}

impl View for AnalysisOutcome<String> {
    type V = AnalysisOutcome<Seq<char>>;

    open spec fn view(&self) -> AnalysisOutcome<Seq<char>> {
        match *self {
            AnalysisOutcome::Refused { code, message } => AnalysisOutcome::Refused {
                code: code@,
                message: message@,
            },
            AnalysisOutcome::Reported { report } => AnalysisOutcome::Reported { report: report@ },
        }
    }
}

impl View for AnalysisStage<String> {
    type V = AnalysisStage<Seq<char>>;

    open spec fn view(&self) -> AnalysisStage<Seq<char>> {
        match *self {
            AnalysisStage::First => AnalysisStage::First,
            AnalysisStage::Second => AnalysisStage::Second,
            AnalysisStage::Analyse => AnalysisStage::Analyse,
            AnalysisStage::Cut { text, success, elapsed_ms } => AnalysisStage::Cut {
                text: text@,
                success,
                elapsed_ms,
            },
            AnalysisStage::Save { report } => AnalysisStage::Save { report: report@ },
            AnalysisStage::Ended { outcome } => AnalysisStage::Ended { outcome: outcome@ },
        }
    }
}

impl View for JfrProxyHandler<String> {
    type V = JfrProxyHandler<Seq<char>>;

    open spec fn view(&self) -> JfrProxyHandler<Seq<char>> {
        JfrProxyHandler {
            kind: self.kind,
            first: self.first@,
            second: self.second@,
            secs: self.secs,
            stage: self.stage@,
        }
    }
}

/// A refusal.
pub open spec fn refused(code: Seq<char>, message: Seq<char>) -> AnalysisStage<Seq<char>> {
    AnalysisStage::Ended { outcome: AnalysisOutcome::Refused { code, message } }
}

/// The stage that looks for a recording, unless its path is blank.
pub open spec fn looking(raw: Seq<char>, stage: AnalysisStage<Seq<char>>) -> AnalysisStage<
    Seq<char>,
> {
    if text::trimmed(raw).len() == 0 {
        refused("invalid_path"@, "local_path 不能为空"@)
    } else {
        stage
    }
}

/// The text member of arguments; an empty text where there is none.
pub open spec fn path_arg(args: Json, key: Seq<char>) -> Seq<char> {
    match json::text_of(json::member(args, key)) {
        Some(p) => p,
        None => Seq::empty(),
    }
}

/// The call that arguments ask for.
pub open spec fn analysis_start(kind: JfrToolKind, args: Json, times: Timeouts) -> JfrProxyHandler<
    Seq<char>,
> {
    let secs = output::asked_secs(args, times.0, times.1) as u64;
    match kind {
        JfrToolKind::Compare => JfrProxyHandler {
            kind,
            first: path_arg(args, "baseline_local_path"@),
            second: path_arg(args, "target_local_path"@),
            secs,
            stage: if json::text_of(json::member(args, "baseline_local_path"@)) is None
                || json::text_of(json::member(args, "target_local_path"@)) is None {
                refused(
                    "invalid_args"@,
                    "missing required parameters: baseline_local_path / target_local_path（两次录制各一份）"@,
                )
            } else {
                looking(path_arg(args, "baseline_local_path"@), AnalysisStage::First)
            },
        },
        JfrToolKind::Proxy(_) => JfrProxyHandler {
            kind,
            first: path_arg(args, "local_path"@),
            second: Seq::empty(),
            secs,
            stage: if json::text_of(json::member(args, "local_path"@)) is None {
                refused("invalid_args"@, "missing required parameter: local_path"@)
            } else {
                looking(path_arg(args, "local_path"@), AnalysisStage::First)
            },
        },
    }
}

/// The name of the analysis at the analyser.
pub open spec fn analysis_tool(kind: JfrToolKind) -> Seq<char> {
    match kind {
        JfrToolKind::Compare => "compareRecordings"@,
        JfrToolKind::Proxy(k) => mapping::upstream(k),
    }
}

/// What the analyser is asked with, once the recordings were found.
pub open spec fn analysis_args(a: JfrProxyHandler<Seq<char>>, args: Json) -> Map<Seq<char>, Json> {
    match a.kind {
        JfrToolKind::Compare => mapping::compare_args(
            a.first,
            a.second,
            json::member(args, "args"@),
        ),
        JfrToolKind::Proxy(_) => mapping::proxy_args(a.first, json::member(args, "args"@)),
    }
}

/// What a call says that it is about.
pub open spec fn subject(a: JfrProxyHandler<Seq<char>>) -> Seq<char> {
    match a.kind {
        JfrToolKind::Compare => pair(a.first, a.second),
        JfrToolKind::Proxy(_) => a.first,
    }
}

/// What a call asks for where it stands.
pub open spec fn analysis_request(a: JfrProxyHandler<Seq<char>>) -> Ask<Seq<char>> {
    match a.stage {
        AnalysisStage::First => Ask::FindFile { path: a.first },
        AnalysisStage::Second => Ask::FindFile { path: a.second },
        AnalysisStage::Analyse => Ask::Analyse { tool: analysis_tool(a.kind), secs: a.secs },
        AnalysisStage::Cut { text, success, elapsed_ms } => Ask::Cut { text },
        AnalysisStage::Save { report } => Ask::Save {
            prefix: "jfr"@,
            content: artifact(report.tool, report.local_path, report.text),
        },
        AnalysisStage::Ended { outcome } => Ask::Finished,
    }
}

/// What follows the first recording.
pub open spec fn analysis_first_found(a: JfrProxyHandler<Seq<char>>) -> AnalysisStage<Seq<char>> {
    match a.kind {
        JfrToolKind::Compare => looking(a.second, AnalysisStage::Second),
        JfrToolKind::Proxy(_) => AnalysisStage::Analyse,
    }
}

/// What follows an answer of the analyser, or its lack.
pub open spec fn analysed(
    result: Result<Seq<char>, JmcError<Seq<char>>>,
    elapsed_ms: u64,
) -> AnalysisStage<Seq<char>> {
    match result {
        Ok(text) => AnalysisStage::Cut { text, success: true, elapsed_ms },
        Err(JmcError::JavaMissing { reason }) => refused("java_missing"@, no_java(reason)),
        Err(JmcError::Unavailable { detail }) => refused(
            "jmc_unavailable"@,
            unavailable(detail),
        ),
        Err(JmcError::Timeout { secs }) => refused("jmc_timeout"@, too_slow(secs)),
        Err(JmcError::Upstream { text }) => AnalysisStage::Cut {
            text,
            success: false,
            elapsed_ms,
        },
    }
}

/// The call after an answer.
pub open spec fn analysis_after(
    a: JfrProxyHandler<Seq<char>>,
    answer: Answer<Seq<char>>,
) -> JfrProxyHandler<Seq<char>> {
    match (a.stage, answer) {
        (AnalysisStage::First, Answer::File { file }) => match file {
            Ok((path, true)) => {
                let found = JfrProxyHandler { first: path, ..a };
                JfrProxyHandler { stage: analysis_first_found(found), ..found }
            },
            Ok((path, false)) => JfrProxyHandler {
                stage: refused("invalid_path"@, no_file(path)),
                ..a
            },
            Err(e) => JfrProxyHandler { stage: refused("invalid_path"@, e), ..a },
        },
        (AnalysisStage::Second, Answer::File { file }) => match file {
            Ok((path, true)) => JfrProxyHandler {
                second: path,
                stage: AnalysisStage::Analyse,
                ..a
            },
            Ok((path, false)) => JfrProxyHandler {
                stage: refused("invalid_path"@, no_file(path)),
                ..a
            },
            Err(e) => JfrProxyHandler { stage: refused("invalid_path"@, e), ..a },
        },
        (AnalysisStage::Analyse, Answer::Analysed { analysed: result, elapsed_ms }) => JfrProxyHandler {
            stage: analysed(result, elapsed_ms),
            ..a
        },
        (AnalysisStage::Cut { text, success, elapsed_ms }, Answer::Cut { body, truncated }) => JfrProxyHandler {
            stage: AnalysisStage::Save {
                report: Report {
                    tool: analysis_tool(a.kind),
                    local_path: subject(a),
                    text,
                    elapsed_ms,
                    success,
                    body,
                    truncated,
                    full_path: None,
                },
            },
            ..a
        },
        (AnalysisStage::Save { report }, Answer::Maybe { maybe }) => JfrProxyHandler {
            stage: AnalysisStage::Ended {
                outcome: AnalysisOutcome::Reported {
                    report: Report { full_path: maybe, ..report },
                },
            },
            ..a
        },
        _ => a,
    }
}

fn refuse(code: &str, message: &str) -> (r: AnalysisStage<String>)
    ensures
        r@ == refused(code@, message@),
{
    AnalysisStage::Ended {
        outcome: AnalysisOutcome::Refused { code: code.to_owned(), message: message.to_owned() },
    }
}

fn look(raw: &str, stage: AnalysisStage<String>) -> (r: AnalysisStage<String>)
    ensures
        r@ == looking(raw@, stage@),
{
    if text::trim(raw).as_str().is_empty() {
        refuse("invalid_path", "local_path 不能为空")
    } else {
        stage
    }
}

fn path_text(args: &serde_json::Value, key: &str) -> (r: String)
    ensures
        r@ == path_arg(json::view_of(*args), key@),
{
    match json::text_arg(args, key) {
        Some(p) => p.to_owned(),
        None => String::new(),
    }
}

impl JfrProxyHandler<String> {
    /// Begins the call that arguments ask for.
    pub fn execute(kind: JfrToolKind, args: &serde_json::Value, times: Timeouts) -> (r: Self)
        ensures
            r@ == analysis_start(kind, json::view_of(*args), times),
    {
        let secs: u64 = output::timeout_arg(args, times.0, times.1);
        match kind {
            JfrToolKind::Compare => {
                let first: String = path_text(args, "baseline_local_path");
                let stage: AnalysisStage<String> = if json::text_arg(
                    args,
                    "baseline_local_path",
                ).is_none() || json::text_arg(args, "target_local_path").is_none() {
                    refuse(
                        "invalid_args",
                        "missing required parameters: baseline_local_path / target_local_path（两次录制各一份）",
                    )
                } else {
                    look(first.as_str(), AnalysisStage::First)
                };
                JfrProxyHandler {
                    kind,
                    first,
                    second: path_text(args, "target_local_path"),
                    secs,
                    stage,
                }
            },
            JfrToolKind::Proxy(_) => {
                let first: String = path_text(args, "local_path");
                let stage: AnalysisStage<String> = if json::text_arg(args, "local_path").is_none() {
                    refuse("invalid_args", "missing required parameter: local_path")
                } else {
                    look(first.as_str(), AnalysisStage::First)
                };
                JfrProxyHandler { kind, first, second: String::new(), secs, stage }
            },
        }
    }

    /// What the analyser is asked, once the recordings were found: the analysis, and its
    /// arguments.
    pub fn upstream_query(&self, args: &serde_json::Value) -> (r: (String, serde_json::Value))
        ensures
            r.0@ == analysis_tool(self.kind),
            json::view_of(r.1) == Json::Object(analysis_args(self@, json::view_of(*args))),
    {
        match self.kind {
            JfrToolKind::Compare => mapping::build_compare(
                self.first.as_str(),
                self.second.as_str(),
                json::get(args, "args"),
            ),
            JfrToolKind::Proxy(k) => mapping::build_proxy(
                k,
                self.first.as_str(),
                json::get(args, "args"),
            ),
        }
    }

    fn tool(&self) -> (r: String)
        ensures
            r@ == analysis_tool(self.kind),
    {
        match self.kind {
            JfrToolKind::Compare => "compareRecordings".to_owned(),
            JfrToolKind::Proxy(k) => k.upstream_name().to_owned(),
        }
    }

    fn subject_text(&self) -> (r: String)
        ensures
            r@ == subject(self@),
    {
        match self.kind {
            JfrToolKind::Compare => pair_text(self.first.as_str(), self.second.as_str()),
            JfrToolKind::Proxy(_) => self.first.clone(),
        }
    }

    /// What is asked for.
    pub fn request(&self) -> (r: Ask<String>)
        ensures
            r@ == analysis_request(self@),
    {
        match &self.stage {
            AnalysisStage::First => Ask::FindFile { path: self.first.clone() },
            AnalysisStage::Second => Ask::FindFile { path: self.second.clone() },
            AnalysisStage::Analyse => Ask::Analyse { tool: self.tool(), secs: self.secs },
            AnalysisStage::Cut { text, success: _, elapsed_ms: _ } => Ask::Cut {
                text: text.clone(),
            },
            AnalysisStage::Save { report } => Ask::Save {
                prefix: "jfr".to_owned(),
                content: artifact_text(
                    report.tool.as_str(),
                    report.local_path.as_str(),
                    report.text.as_str(),
                ),
            },
            AnalysisStage::Ended { outcome: _ } => Ask::Finished,
        }
    }

    /// Takes the answer to what was asked for.
    pub fn step(self, answer: Answer<String>) -> (r: Self)
        ensures
            r@ == analysis_after(self@, answer@),
    {
        let stage: AnalysisStage<String> = self.stage;
        let me: JfrProxyHandler<String> = JfrProxyHandler { stage: AnalysisStage::First, ..self };
        match (stage, answer) {
            (AnalysisStage::First, Answer::File { file }) => match file {
                Ok((path, true)) => {
                    let next: AnalysisStage<String> = match me.kind {
                        JfrToolKind::Compare => look(me.second.as_str(), AnalysisStage::Second),
                        JfrToolKind::Proxy(_) => AnalysisStage::Analyse,
                    };
                    JfrProxyHandler { first: path, stage: next, ..me }
                },
                Ok((path, false)) => JfrProxyHandler {
                    stage: refuse("invalid_path", no_file_text(path.as_str()).as_str()),
                    ..me
                },
                Err(e) => JfrProxyHandler { stage: refuse("invalid_path", e.as_str()), ..me },
            },
            (AnalysisStage::Second, Answer::File { file }) => match file {
                Ok((path, true)) => JfrProxyHandler {
                    second: path,
                    stage: AnalysisStage::Analyse,
                    ..me
                },
                Ok((path, false)) => JfrProxyHandler {
                    stage: refuse("invalid_path", no_file_text(path.as_str()).as_str()),
                    ..me
                },
                Err(e) => JfrProxyHandler { stage: refuse("invalid_path", e.as_str()), ..me },
            },
            (AnalysisStage::Analyse, Answer::Analysed { analysed: result, elapsed_ms }) => JfrProxyHandler {
                stage: jmc_result(result, elapsed_ms),
                ..me
            },
            (AnalysisStage::Cut { text, success, elapsed_ms }, Answer::Cut { body, truncated }) => {
                let report: Report<String> = Report {
                    tool: me.tool(),
                    local_path: me.subject_text(),
                    text,
                    elapsed_ms,
                    success,
                    body,
                    truncated,
                    full_path: None,
                };
                JfrProxyHandler { stage: AnalysisStage::Save { report }, ..me }
            },
            (AnalysisStage::Save { report }, Answer::Maybe { maybe }) => JfrProxyHandler {
                stage: AnalysisStage::Ended {
                    outcome: AnalysisOutcome::Reported {
                        report: Report { full_path: maybe, ..report },
                    },
                },
                ..me
            },
            (stage, _) => JfrProxyHandler { stage, ..me },
        }
    }
}

fn jmc_result(result: Result<String, JmcError<String>>, elapsed_ms: u64) -> (r: AnalysisStage<
    String,
>)
    ensures
        r@ == analysed(crate::tools::call::view_analysed(result), elapsed_ms),
{
    match result {
        Ok(text) => AnalysisStage::Cut { text, success: true, elapsed_ms },
        Err(JmcError::JavaMissing { reason }) => refuse(
            "java_missing",
            no_java_text(reason.as_str()).as_str(),
        ),
        Err(JmcError::Unavailable { detail }) => refuse(
            "jmc_unavailable",
            unavailable_text(detail.as_str()).as_str(),
        ),
        Err(JmcError::Timeout { secs }) => refuse("jmc_timeout", too_slow_text(secs).as_str()),
        Err(JmcError::Upstream { text }) => AnalysisStage::Cut {
            text,
            success: false,
            elapsed_ms,
        },
    }
}

/// The text that is shown of what the analyser gave back.
pub open spec fn result_shown(report: Report<Seq<char>>) -> Seq<char> {
    if !report.truncated {
        report.body
    } else {
        match report.full_path {
            Some(p) => cut_with_path(report.body, p),
            None => cut_alone(report.body),
        }
    }
}

/// What is shown of a report.
pub open spec fn report_data(report: Report<Seq<char>>) -> Map<Seq<char>, Json> {
    let data = json::no_members().insert("tool"@, Json::Text(report.tool)).insert(
        "local_path"@,
        Json::Text(report.local_path),
    ).insert("result"@, Json::Text(result_shown(report))).insert(
        "elapsed_ms"@,
        Json::Int(report.elapsed_ms as int),
    ).insert("truncated"@, Json::Bool(report.truncated)).insert(
        "full_output_path"@,
        json::text_or_null(report.full_path),
    );
    if report.success {
        data
    } else {
        data.insert("upstream_is_error"@, Json::Bool(true))
    }
}

/// What a call shows.
pub open spec fn analysis_shown(o: AnalysisOutcome<Seq<char>>) -> Shown {
    match o {
        AnalysisOutcome::Refused { code, message } => output::refusal(code, message),
        AnalysisOutcome::Reported { report } => Shown {
            success: report.success,
            data: Json::Object(report_data(report)),
            raw_stdout: Some(report.text),
        },
    }
}

impl AnalysisOutcome<String> {
    /// What the call shows.
    pub fn render(self) -> (r: ToolOutput)
        ensures
            r@ == analysis_shown(self@),
    {
        match self {
            AnalysisOutcome::Refused { code, message } => output::error_output(
                code.as_str(),
                message.as_str(),
            ),
            AnalysisOutcome::Reported { report } => {
                let result: String = if !report.truncated {
                    report.body.clone()
                } else {
                    match &report.full_path {
                        Some(p) => cut_with_path_text(report.body.as_str(), p.as_str()),
                        None => cut_alone_text(report.body.as_str()),
                    }
                };
                let mut m: serde_json::Map<String, serde_json::Value> = json::new_map();
                json::insert(&mut m, "tool", json::text_value(report.tool.as_str()));
                json::insert(&mut m, "local_path", json::text_value(report.local_path.as_str()));
                json::insert(&mut m, "result", json::text_value(result.as_str()));
                json::insert(&mut m, "elapsed_ms", json::u64_value(report.elapsed_ms));
                json::insert(&mut m, "truncated", json::bool_value(report.truncated));
                json::insert(
                    &mut m,
                    "full_output_path",
                    json::text_or_null_value(&report.full_path),
                );
                if !report.success {
                    json::insert(&mut m, "upstream_is_error", json::bool_value(true));
                }
                ToolOutput {
                    success: report.success,
                    data: json::object(m),
                    raw_stdout: Some(report.text),
                }
            },
        }
    }
}

/// The analyser is asked only about recordings that are there.
pub proof fn law_analysis_needs_its_files(a: JfrProxyHandler<Seq<char>>, answer: Answer<Seq<char>>)
    requires
        a.stage !is Analyse,
        analysis_after(a, answer).stage is Analyse,
    ensures
        answer matches Answer::File { file: Ok((_, there)) } && there,
        a.stage is First || a.stage is Second,
        a.kind is Compare ==> a.stage is Second,
{
}

/// An answer of the analyser is passed on whole: what is shown is a success, its result is the part
/// of the text that the cut kept, and the text is there as it was. Of a text that was not cut, the
/// result is that text; of one that was, the result begins with what was kept and names the file that
/// holds all of it.
pub proof fn law_analysis_is_passed_on(
    a: JfrProxyHandler<Seq<char>>,
    text: Seq<char>,
    elapsed_ms: u64,
    body: Seq<char>,
    truncated: bool,
    saved: Option<Seq<char>>,
)
    requires
        a.stage is Analyse,
    ensures
        ({
            let a1 = analysis_after(a, Answer::Analysed { analysed: Ok(text), elapsed_ms });
            let a2 = analysis_after(a1, Answer::Cut { body, truncated });
            let a3 = analysis_after(a2, Answer::Maybe { maybe: saved });
            &&& analysis_request(a1) == (Ask::<Seq<char>>::Cut { text })
            &&& analysis_request(a2) matches Ask::Save { prefix, content } && prefix == "jfr"@
                && text::contains(content, text)
            &&& a3.stage matches AnalysisStage::Ended { outcome } && {
                let shown = analysis_shown(outcome);
                &&& shown.success
                &&& shown.raw_stdout == Some(text)
                &&& shown.data matches Json::Object(m) && {
                    &&& m["result"@] matches Json::Text(result) && {
                        &&& !truncated ==> result == body
                        &&& truncated ==> result == (match saved {
                            Some(p) => body + "\n[truncated, full output: "@ + p + "]"@,
                            None => body + "\n[truncated]"@,
                        })
                    }
                    &&& m["truncated"@] == Json::Bool(truncated)
                    &&& m["full_output_path"@] == (match saved {
                        Some(p) => Json::Text(p),
                        None => Json::Null,
                    })
                    &&& m["elapsed_ms"@] == Json::Int(elapsed_ms as int)
                    &&& m["tool"@] == Json::Text(analysis_tool(a.kind))
                    &&& a.kind is Proxy ==> m["local_path"@] == Json::Text(a.first)
                    &&& !m.contains_key("error"@)
                    &&& !m.contains_key("upstream_is_error"@)
                }
            }
        }),
{
    reveal_strlit("error");
    reveal_strlit("tool");
    reveal_strlit("local_path");
    reveal_strlit("result");
    reveal_strlit("elapsed_ms");
    reveal_strlit("truncated");
    reveal_strlit("full_output_path");
    reveal_strlit("upstream_is_error");
    assert("error"@.len() == 5 && "tool"@.len() == 4 && "local_path"@.len() == 10);
    assert("result"@.len() == 6 && "elapsed_ms"@.len() == 10 && "truncated"@.len() == 9);
    assert("full_output_path"@.len() == 16 && "upstream_is_error"@.len() == 17);
    assert("elapsed_ms"@[0] == 'e' && "local_path"@[0] == 'l');
    let head = "--- tool: "@ + analysis_tool(a.kind) + " ---\n--- local_path: "@ + subject(a)
        + " ---\n--- full output ---\n"@;
    text::lemma_contains(head, text, "\n"@);
}

/// An error of the analyser is passed on whole: without a code, marked as an error, with its text.
pub proof fn law_upstream_error_is_passed_on(
    a: JfrProxyHandler<Seq<char>>,
    text: Seq<char>,
    elapsed_ms: u64,
    body: Seq<char>,
    truncated: bool,
    saved: Option<Seq<char>>,
)
    requires
        a.stage is Analyse,
    ensures
        ({
            let a1 = analysis_after(
                a,
                Answer::Analysed { analysed: Err(JmcError::Upstream { text }), elapsed_ms },
            );
            let a2 = analysis_after(a1, Answer::Cut { body, truncated });
            let a3 = analysis_after(a2, Answer::Maybe { maybe: saved });
            a3.stage matches AnalysisStage::Ended { outcome } && {
                let shown = analysis_shown(outcome);
                &&& !shown.success
                &&& shown.raw_stdout == Some(text)
                &&& shown.data matches Json::Object(m) && m["upstream_is_error"@] == Json::Bool(
                    true,
                ) && !m.contains_key("error"@)
            }
        }),
{
    reveal_strlit("error");
    reveal_strlit("tool");
    reveal_strlit("local_path");
    reveal_strlit("result");
    reveal_strlit("elapsed_ms");
    reveal_strlit("truncated");
    reveal_strlit("full_output_path");
    reveal_strlit("upstream_is_error");
    assert("error"@.len() == 5 && "tool"@.len() == 4 && "local_path"@.len() == 10);
    assert("result"@.len() == 6 && "elapsed_ms"@.len() == 10 && "truncated"@.len() == 9);
    assert("full_output_path"@.len() == 16 && "upstream_is_error"@.len() == 17);
}

/// A call is about the recordings that its arguments name; one that names none, or a blank one, is
/// refused.
pub proof fn law_analysis_call_is_as_asked(
    kind: JfrProxyKind,
    args: Map<Seq<char>, Json>,
    times: Timeouts,
    first: Seq<char>,
    second: Seq<char>,
)
    requires
        text::trimmed(first).len() > 0,
    ensures
        args.contains_key("local_path"@) && args["local_path"@] == Json::Text(first) ==> {
            let a = analysis_start(JfrToolKind::Proxy(kind), Json::Object(args), times);
            &&& a.kind == JfrToolKind::Proxy(kind)
            &&& analysis_request(a) == (Ask::<Seq<char>>::FindFile { path: first })
            &&& !args.contains_key("timeout_secs"@) ==> a.secs == times.0
        },
        args.contains_key("baseline_local_path"@) && args["baseline_local_path"@] == Json::Text(first)
            && args.contains_key("target_local_path"@) && args["target_local_path"@] == Json::Text(
            second,
        ) ==> {
            let a = analysis_start(JfrToolKind::Compare, Json::Object(args), times);
            &&& a.kind is Compare
            &&& analysis_request(a) == (Ask::<Seq<char>>::FindFile { path: first })
            &&& a.second == second
        },
        !args.contains_key("local_path"@) ==> refuses(
            analysis_start(JfrToolKind::Proxy(kind), Json::Object(args), times),
            "invalid_args"@,
            "local_path"@,
        ),
        args.contains_key("local_path"@) && args["local_path"@] == Json::Text(Seq::empty()) ==> refuses(
            analysis_start(JfrToolKind::Proxy(kind), Json::Object(args), times),
            "invalid_path"@,
            "local_path"@,
        ),
        !args.contains_key("baseline_local_path"@) || !args.contains_key("target_local_path"@)
            ==> refuses(
            analysis_start(JfrToolKind::Compare, Json::Object(args), times),
            "invalid_args"@,
            "local_path"@,
        ),
{
    assert(text::trimmed(Seq::<char>::empty()) =~= Seq::<char>::empty());
    reveal_strlit("missing required parameter: local_path");
    reveal_strlit("local_path");
    assert("missing required parameter: local_path"@.subrange(28, 38) =~= "local_path"@);
    assert(text::occurs_at("missing required parameter: local_path"@, "local_path"@, 28));
    reveal_strlit("local_path 不能为空");
    reveal_strlit("local_path");
    assert("local_path 不能为空"@.subrange(0, 10) =~= "local_path"@);
    assert(text::occurs_at("local_path 不能为空"@, "local_path"@, 0));
    reveal_strlit("missing required parameters: baseline_local_path / target_local_path（两次录制各一份）");
    reveal_strlit("local_path");
    assert("missing required parameters: baseline_local_path / target_local_path（两次录制各一份）"@.subrange(38, 48) =~= "local_path"@);
    assert(text::occurs_at("missing required parameters: baseline_local_path / target_local_path（两次录制各一份）"@, "local_path"@, 38));
}

/// Whether a call ended in a refusal with a code, whose message holds a text.
pub open spec fn refuses(a: JfrProxyHandler<Seq<char>>, code: Seq<char>, part: Seq<char>) -> bool {
    a.stage matches AnalysisStage::Ended { outcome: AnalysisOutcome::Refused { code: k, message } } && k
        == code && text::contains(message, part)
}

/// The analyser is asked about the files that were found, in the order in which they were named, and
/// under the name of the analysis.
pub proof fn law_analyser_is_asked_about_its_files(
    a: JfrProxyHandler<Seq<char>>,
    args: Json,
    first: Seq<char>,
    second: Seq<char>,
)
    requires
        a.stage is First,
        a.kind is Compare ==> text::trimmed(a.second).len() > 0,
    ensures
        ({
            let a1 = analysis_after(a, Answer::File { file: Ok((first, true)) });
            let a2 = analysis_after(a1, Answer::File { file: Ok((second, true)) });
            &&& a.kind matches JfrToolKind::Proxy(k) ==> {
                &&& analysis_request(a1) == (Ask::<Seq<char>>::Analyse {
                    tool: mapping::upstream(k),
                    secs: a.secs,
                })
                &&& analysis_args(a1, args)["jfr_file_path"@] == Json::Text(first)
            }
            &&& a.kind is Compare ==> {
                &&& analysis_request(a1) == (Ask::<Seq<char>>::FindFile { path: a.second })
                &&& analysis_request(a2) == (Ask::<Seq<char>>::Analyse {
                    tool: "compareRecordings"@,
                    secs: a.secs,
                })
                &&& analysis_args(a2, args)["baseline_jfr_path"@] == Json::Text(first)
                &&& analysis_args(a2, args)["target_jfr_path"@] == Json::Text(second)
                &&& subject(a2) == first + " -> "@ + second
            }
        }),
{
    mapping::law_options_do_not_override(
        first,
        first,
        second,
        json::member(args, "args"@),
        Seq::empty(),
    );
}

/// How a call fails: with a code that tells what failed, and with what was said of it.
pub proof fn law_analysis_failures(
    a: JfrProxyHandler<Seq<char>>,
    path: Seq<char>,
    e: Seq<char>,
    secs: u64,
    ms: u64,
)
    ensures
        a.stage is First || a.stage is Second ==> refuses(
            analysis_after(a, Answer::File { file: Ok((path, false)) }),
            "invalid_path"@,
            path,
        ) && refuses(analysis_after(a, Answer::File { file: Err(e) }), "invalid_path"@, e),
        a.stage is Analyse ==> refuses(
            analysis_after(
                a,
                Answer::Analysed {
                    analysed: Err(JmcError::JavaMissing { reason: e }),
                    elapsed_ms: ms,
                },
            ),
            "java_missing"@,
            e,
        ) && refuses(
            analysis_after(
                a,
                Answer::Analysed {
                    analysed: Err(JmcError::Unavailable { detail: e }),
                    elapsed_ms: ms,
                },
            ),
            "jmc_unavailable"@,
            e,
        ) && refuses(
            analysis_after(
                a,
                Answer::Analysed { analysed: Err(JmcError::Timeout { secs }), elapsed_ms: ms },
            ),
            "jmc_timeout"@,
            text::dec(secs as nat),
        ),
{
    let z = Seq::<char>::empty();
    text::lemma_contains(z, e, z);
    assert(z + e + z =~= e);
    text::lemma_part("文件不存在: "@, path);
    text::lemma_contains("本机 Java 21+ 不可用："@, e, "。请安装 JDK 21+ 后重试。"@);
    text::lemma_contains(z, e, "。可重试一次；连续失败请查看 Friday 日志。"@);
    assert(z + e =~= e);
    text::lemma_contains("JMC 分析调用超时（"@, text::dec(secs as nat), "s）。工人进程未受影响，可加大 timeout_secs 或用 start_time/end_time 缩小时间窗后重试。"@);
}

/// An ended call stays as it is.
pub proof fn law_analysis_end_is_final(a: JfrProxyHandler<Seq<char>>, answer: Answer<Seq<char>>)
    requires
        a.stage is Ended,
    ensures
        analysis_after(a, answer) == a,
        analysis_request(a) is Finished,
{
}

// ---------------------------------------------------------------------------------------------
// The tools
// ---------------------------------------------------------------------------------------------

/// The name of the tool for an analysis.
pub open spec fn proxy_name(kind: JfrProxyKind) -> Seq<char> {
    match kind {
        JfrProxyKind::Overview => "jfr_overview"@,
        JfrProxyKind::Rules => "jfr_rules"@,
        JfrProxyKind::QuickAnalysis => "jfr_quick_analysis"@,
        JfrProxyKind::GcDetail => "jfr_gc_detail"@,
        JfrProxyKind::MemoryLeaks => "jfr_memory_leaks"@,
        JfrProxyKind::PredictiveLeak => "jfr_predictive_leak"@,
        JfrProxyKind::AllocationHotspots => "jfr_allocation_hotspots"@,
        JfrProxyKind::HotMethods => "jfr_hot_methods"@,
        JfrProxyKind::ThreadCpu => "jfr_thread_cpu"@,
        JfrProxyKind::CpuFlame => "jfr_cpu_flame"@,
        JfrProxyKind::ThreadContention => "jfr_thread_contention"@,
        JfrProxyKind::DeadlockDetection => "jfr_deadlock_detection"@,
        JfrProxyKind::IoHotspots => "jfr_io_hotspots"@,
        JfrProxyKind::Exceptions => "jfr_exceptions"@,
        JfrProxyKind::Errors => "jfr_errors"@,
        JfrProxyKind::Safepoints => "jfr_safepoints"@,
        JfrProxyKind::VirtualThreads => "jfr_virtual_threads"@,
        JfrProxyKind::StackTraceSearch => "jfr_stack_trace_search"@,
        JfrProxyKind::Correlate => "jfr_correlate"@,
        JfrProxyKind::RequestWaterfall => "jfr_request_waterfall"@,
    }
}

fn proxy_name_text(kind: JfrProxyKind) -> (r: &'static str)
    ensures
        r@ == proxy_name(kind),
{
    match kind {
        JfrProxyKind::Overview => "jfr_overview",
        JfrProxyKind::Rules => "jfr_rules",
        JfrProxyKind::QuickAnalysis => "jfr_quick_analysis",
        JfrProxyKind::GcDetail => "jfr_gc_detail",
        JfrProxyKind::MemoryLeaks => "jfr_memory_leaks",
        JfrProxyKind::PredictiveLeak => "jfr_predictive_leak",
        JfrProxyKind::AllocationHotspots => "jfr_allocation_hotspots",
        JfrProxyKind::HotMethods => "jfr_hot_methods",
        JfrProxyKind::ThreadCpu => "jfr_thread_cpu",
        JfrProxyKind::CpuFlame => "jfr_cpu_flame",
        JfrProxyKind::ThreadContention => "jfr_thread_contention",
        JfrProxyKind::DeadlockDetection => "jfr_deadlock_detection",
        JfrProxyKind::IoHotspots => "jfr_io_hotspots",
        JfrProxyKind::Exceptions => "jfr_exceptions",
        JfrProxyKind::Errors => "jfr_errors",
        JfrProxyKind::Safepoints => "jfr_safepoints",
        JfrProxyKind::VirtualThreads => "jfr_virtual_threads",
        JfrProxyKind::StackTraceSearch => "jfr_stack_trace_search",
        JfrProxyKind::Correlate => "jfr_correlate",
        JfrProxyKind::RequestWaterfall => "jfr_request_waterfall",
    }
}

/// What the tool for an analysis is for.
pub open spec fn proxy_description(kind: JfrProxyKind) -> Seq<char> {
    match kind {
        JfrProxyKind::Overview => "JFR 录制总览：录制时长、事件数、JVM/系统信息。分析起点（jfr_record 完成预热后秒回）。args 可选：start_time/end_time。"@,
        JfrProxyKind::Rules => "JMC 规则引擎自动瓶颈检测（GC/内存/CPU/锁/IO 规则，带严重度与建议）。录制体检首选。args 可选：min_severity/start_time/end_time。"@,
        JfrProxyKind::QuickAnalysis => "一键宏诊断仪表盘：自动检测主瓶颈并按严重度分类（CPU/内存/锁/IO）。性能问题第一步。args 可选：focus（cpu/memory/locks/io）/start_time/end_time。"@,
        JfrProxyKind::GcDetail => "GC 深度分析：分阶段暂停耗时、GC cause 分布、堆趋势、GC 配置。args 可选：detail_level/start_time/end_time。"@,
        JfrProxyKind::MemoryLeaks => "老对象采样泄漏分析：按类统计存活老对象（JFR 对象采样），定位疑似泄漏类；与 heap_*（MAT）互补。args 可选：top_n/start_time/end_time。"@,
        JfrProxyKind::PredictiveLeak => "数学检测内存泄漏：对 post-GC 堆使用做线性回归（r_squared 拟合度），泄漏趋势确认。args 可选：r_squared_threshold/start_time/end_time。"@,
        JfrProxyKind::AllocationHotspots => "内存分配热点：按类和分配调用点统计分配速率，定位分配风暴。args 可选：top_n/start_time/end_time。"@,
        JfrProxyKind::HotMethods => "CPU 热点方法 Top N（执行采样）。args 可选：top_n/thread_name/package_prefix/start_time/end_time。"@,
        JfrProxyKind::ThreadCpu => "线程级 CPU 消耗排名（执行采样）。args 可选：top_n/package_prefix/start_time/end_time。"@,
        JfrProxyKind::CpuFlame => "CPU 火焰图数据：热点调用路径 + 线程状态。args 可选：top_n/package_prefix/start_time/end_time。"@,
        JfrProxyKind::ThreadContention => "锁竞争分析：monitor 阻塞/挂起/等待统计。args 可选：top_n/start_time/end_time。"@,
        JfrProxyKind::DeadlockDetection => "死锁环检测：monitor 持有/等待关系分析。args 可选：start_time/end_time。"@,
        JfrProxyKind::IoHotspots => "IO 热点：慢/高频文件与 socket 操作（按路径/主机），含调用点。args 可选：io_type/top_n/start_time/end_time。"@,
        JfrProxyKind::Exceptions => "异常抛出统计：按异常类统计次数与栈。args 可选：top_n/start_time/end_time。"@,
        JfrProxyKind::Errors => "严重错误分析：OutOfMemoryError/StackOverflowError 等按严重度分类。args 可选：top_n/start_time/end_time。"@,
        JfrProxyKind::Safepoints => "safepoint 分析：GC 外 STW 暂停（vm operation 耗时），延迟毛刺定位。args 可选：top_n/start_time/end_time。"@,
        JfrProxyKind::VirtualThreads => "虚拟线程分析（JDK 21+）：虚拟线程存在性与规模（distinct 计数、按事件类型活动分布，基于 Thread.virtual 标志）、pinning 位点/原因/载体线程/总耗时、提交失败。无 pinning 也能判断虚拟线程是否在用。args 可选：top_n/start_time/end_time。"@,
        JfrProxyKind::StackTraceSearch => "跨 13 类事件全栈正则搜索（非截断栈）。找人/找路径利器。args 必填：class_pattern；可选 event_type/limit/start_time/end_time。"@,
        JfrProxyKind::Correlate => "跨维度相关性引擎：锁↔IO↔热点方法关联成瓶颈链。args 可选：dimension/top_n/start_time/end_time。"@,
        JfrProxyKind::RequestWaterfall => "线程时序瀑布：按时间顺序串联 锁→IO→CPU→异常 事件。args 必填：thread_name；可选 max_events/start_time/end_time。"@,
    }
}

fn proxy_description_text(kind: JfrProxyKind) -> (r: &'static str)
    ensures
        r@ == proxy_description(kind),
{
    match kind {
        JfrProxyKind::Overview => "JFR 录制总览：录制时长、事件数、JVM/系统信息。分析起点（jfr_record 完成预热后秒回）。args 可选：start_time/end_time。",
        JfrProxyKind::Rules => "JMC 规则引擎自动瓶颈检测（GC/内存/CPU/锁/IO 规则，带严重度与建议）。录制体检首选。args 可选：min_severity/start_time/end_time。",
        JfrProxyKind::QuickAnalysis => "一键宏诊断仪表盘：自动检测主瓶颈并按严重度分类（CPU/内存/锁/IO）。性能问题第一步。args 可选：focus（cpu/memory/locks/io）/start_time/end_time。",
        JfrProxyKind::GcDetail => "GC 深度分析：分阶段暂停耗时、GC cause 分布、堆趋势、GC 配置。args 可选：detail_level/start_time/end_time。",
        JfrProxyKind::MemoryLeaks => "老对象采样泄漏分析：按类统计存活老对象（JFR 对象采样），定位疑似泄漏类；与 heap_*（MAT）互补。args 可选：top_n/start_time/end_time。",
        JfrProxyKind::PredictiveLeak => "数学检测内存泄漏：对 post-GC 堆使用做线性回归（r_squared 拟合度），泄漏趋势确认。args 可选：r_squared_threshold/start_time/end_time。",
        JfrProxyKind::AllocationHotspots => "内存分配热点：按类和分配调用点统计分配速率，定位分配风暴。args 可选：top_n/start_time/end_time。",
        JfrProxyKind::HotMethods => "CPU 热点方法 Top N（执行采样）。args 可选：top_n/thread_name/package_prefix/start_time/end_time。",
        JfrProxyKind::ThreadCpu => "线程级 CPU 消耗排名（执行采样）。args 可选：top_n/package_prefix/start_time/end_time。",
        JfrProxyKind::CpuFlame => "CPU 火焰图数据：热点调用路径 + 线程状态。args 可选：top_n/package_prefix/start_time/end_time。",
        JfrProxyKind::ThreadContention => "锁竞争分析：monitor 阻塞/挂起/等待统计。args 可选：top_n/start_time/end_time。",
        JfrProxyKind::DeadlockDetection => "死锁环检测：monitor 持有/等待关系分析。args 可选：start_time/end_time。",
        JfrProxyKind::IoHotspots => "IO 热点：慢/高频文件与 socket 操作（按路径/主机），含调用点。args 可选：io_type/top_n/start_time/end_time。",
        JfrProxyKind::Exceptions => "异常抛出统计：按异常类统计次数与栈。args 可选：top_n/start_time/end_time。",
        JfrProxyKind::Errors => "严重错误分析：OutOfMemoryError/StackOverflowError 等按严重度分类。args 可选：top_n/start_time/end_time。",
        JfrProxyKind::Safepoints => "safepoint 分析：GC 外 STW 暂停（vm operation 耗时），延迟毛刺定位。args 可选：top_n/start_time/end_time。",
        JfrProxyKind::VirtualThreads => "虚拟线程分析（JDK 21+）：虚拟线程存在性与规模（distinct 计数、按事件类型活动分布，基于 Thread.virtual 标志）、pinning 位点/原因/载体线程/总耗时、提交失败。无 pinning 也能判断虚拟线程是否在用。args 可选：top_n/start_time/end_time。",
        JfrProxyKind::StackTraceSearch => "跨 13 类事件全栈正则搜索（非截断栈）。找人/找路径利器。args 必填：class_pattern；可选 event_type/limit/start_time/end_time。",
        JfrProxyKind::Correlate => "跨维度相关性引擎：锁↔IO↔热点方法关联成瓶颈链。args 可选：dimension/top_n/start_time/end_time。",
        JfrProxyKind::RequestWaterfall => "线程时序瀑布：按时间顺序串联 锁→IO→CPU→异常 事件。args 必填：thread_name；可选 max_events/start_time/end_time。",
    }
}

/// The times of an analysis.
pub open spec fn proxy_times(kind: JfrProxyKind) -> Timeouts {
    if kind == JfrProxyKind::QuickAnalysis
        || kind == JfrProxyKind::MemoryLeaks
        || kind == JfrProxyKind::PredictiveLeak
        || kind == JfrProxyKind::CpuFlame
        || kind == JfrProxyKind::StackTraceSearch
        || kind == JfrProxyKind::Correlate
        || kind == JfrProxyKind::RequestWaterfall {
        HEAVY
    } else {
        QUERY
    }
}

/// The times of an analysis.
pub fn proxy_timeouts(kind: JfrProxyKind) -> (r: Timeouts)
    ensures
        r == proxy_times(kind),
{
    match kind {
        JfrProxyKind::QuickAnalysis => HEAVY,
        JfrProxyKind::MemoryLeaks => HEAVY,
        JfrProxyKind::PredictiveLeak => HEAVY,
        JfrProxyKind::CpuFlame => HEAVY,
        JfrProxyKind::StackTraceSearch => HEAVY,
        JfrProxyKind::Correlate => HEAVY,
        JfrProxyKind::RequestWaterfall => HEAVY,
        _ => QUERY,
    }
}

/// The properties that a tool takes.
pub open spec fn tool_props(kind: JfrToolKind, times: Timeouts) -> Map<Seq<char>, Json> {
    match kind {
        JfrToolKind::Compare => json::no_members().insert(
            "baseline_local_path"@,
            output::prop("string"@, "基准录制（如正常期）的本机路径"@),
        ).insert(
            "target_local_path"@,
            output::prop("string"@, "对比录制（如故障期）的本机路径"@),
        ).insert(
            "args"@,
            output::prop("object"@, "上游选项透传（start_time/end_time 等）"@),
        ).insert("timeout_secs"@, output::prop("number"@, times_text(times.0, times.1))),
        JfrToolKind::Proxy(_) => json::no_members().insert(
            "local_path"@,
            output::prop("string"@, "本机 JFR 录制文件绝对路径（jfr_record 返回的 local_path 或用户已有文件）"@),
        ).insert(
            "args"@,
            output::prop("object"@, "上游分析选项透传（如 top_n / thread_name / package_prefix / focus / class_pattern / start_time / end_time，见工具描述）"@),
        ).insert("timeout_secs"@, output::prop("number"@, times_text(times.0, times.1))),
    }
}

/// A tool that analyses recordings.
pub open spec fn tool_offer(
    name: Seq<char>,
    description: Seq<char>,
    kind: JfrToolKind,
    times: Timeouts,
) -> Offer {
    Offer {
        name,
        description,
        input_schema: output::object_schema(
            tool_props(kind, times),
            match kind {
                JfrToolKind::Compare => seq!["baseline_local_path"@, "target_local_path"@],
                JfrToolKind::Proxy(_) => seq!["local_path"@],
            },
        ),
        risk_level: RiskLevel::ReadOnly,
        category: ToolCategory::Jfr,
        needs_channel: false,
    }
}

/// The tool for an analysis.
pub open spec fn proxy_offer(kind: JfrProxyKind) -> Offer {
    tool_offer(
        proxy_name(kind),
        proxy_description(kind),
        JfrToolKind::Proxy(kind),
        proxy_times(kind),
    )
}

/// The tool for a comparison.
pub open spec fn compare_offer() -> Offer {
    tool_offer(
        "jfr_compare"@,
        "两个 JFR 录制的 A/B 对比（优化前后、故障期 vs 正常期）：事件量/热点/暂停等维度差异汇总。"@,
        JfrToolKind::Compare,
        HEAVY,
    )
}

/// A tool that analyses recordings.
pub fn proxy_tool_def(name: &str, description: &str, kind: JfrToolKind, times: Timeouts) -> (r:
    ToolDef)
    ensures
        r@ == tool_offer(name@, description@, kind, times),
{
    let mut props: serde_json::Map<String, serde_json::Value> = json::new_map();
    let required: Vec<String> = match kind {
        JfrToolKind::Compare => {
            json::insert(
                &mut props,
                "baseline_local_path",
                output::prop_value("string", "基准录制（如正常期）的本机路径"),
            );
            json::insert(
                &mut props,
                "target_local_path",
                output::prop_value("string", "对比录制（如故障期）的本机路径"),
            );
            json::insert(
                &mut props,
                "args",
                output::prop_value("object", "上游选项透传（start_time/end_time 等）"),
            );
            output::two("baseline_local_path", "target_local_path")
        },
        JfrToolKind::Proxy(_) => {
            json::insert(
                &mut props,
                "local_path",
                output::prop_value("string", "本机 JFR 录制文件绝对路径（jfr_record 返回的 local_path 或用户已有文件）"),
            );
            json::insert(
                &mut props,
                "args",
                output::prop_value("object", "上游分析选项透传（如 top_n / thread_name / package_prefix / focus / class_pattern / start_time / end_time，见工具描述）"),
            );
            output::one("local_path")
        },
    };
    json::insert(
        &mut props,
        "timeout_secs",
        output::prop_value("number", times_value(times.0, times.1).as_str()),
    );
    ToolDef {
        name: name.to_owned(),
        description: description.to_owned(),
        input_schema: output::object_schema_value(props, &required),
        risk_level: RiskLevel::ReadOnly,
        category: ToolCategory::Jfr,
        needs_channel: false,
    }
}

/// Every analysis, in the order in which the tools are offered.
pub open spec fn proxy_kinds() -> Seq<JfrProxyKind> {
    seq![
        JfrProxyKind::Overview,
        JfrProxyKind::Rules,
        JfrProxyKind::QuickAnalysis,
        JfrProxyKind::GcDetail,
        JfrProxyKind::MemoryLeaks,
        JfrProxyKind::PredictiveLeak,
        JfrProxyKind::AllocationHotspots,
        JfrProxyKind::HotMethods,
        JfrProxyKind::ThreadCpu,
        JfrProxyKind::CpuFlame,
        JfrProxyKind::ThreadContention,
        JfrProxyKind::DeadlockDetection,
        JfrProxyKind::IoHotspots,
        JfrProxyKind::Exceptions,
        JfrProxyKind::Errors,
        JfrProxyKind::Safepoints,
        JfrProxyKind::VirtualThreads,
        JfrProxyKind::StackTraceSearch,
        JfrProxyKind::Correlate,
        JfrProxyKind::RequestWaterfall,
    ]
}

fn all_kinds() -> (r: Vec<JfrProxyKind>)
    ensures
        r@ == proxy_kinds(),
{
    vec![
        JfrProxyKind::Overview,
        JfrProxyKind::Rules,
        JfrProxyKind::QuickAnalysis,
        JfrProxyKind::GcDetail,
        JfrProxyKind::MemoryLeaks,
        JfrProxyKind::PredictiveLeak,
        JfrProxyKind::AllocationHotspots,
        JfrProxyKind::HotMethods,
        JfrProxyKind::ThreadCpu,
        JfrProxyKind::CpuFlame,
        JfrProxyKind::ThreadContention,
        JfrProxyKind::DeadlockDetection,
        JfrProxyKind::IoHotspots,
        JfrProxyKind::Exceptions,
        JfrProxyKind::Errors,
        JfrProxyKind::Safepoints,
        JfrProxyKind::VirtualThreads,
        JfrProxyKind::StackTraceSearch,
        JfrProxyKind::Correlate,
        JfrProxyKind::RequestWaterfall,
    ]
}

/// The tools for recordings: one that starts them, one that follows them, those that analyse
/// them, and one that compares two.
pub open spec fn jfr_offers() -> Seq<Offer> {
    seq![record::record_offer(), status::record_status_offer()] + proxy_kinds().map_values(
        |k: JfrProxyKind| proxy_offer(k),
    ) + seq![compare_offer()]
}

/// The tools for recordings.
pub fn register_all() -> (r: Vec<ToolDef>)
    ensures
        output::offers(r@) == jfr_offers(),
{
    let mut tools: Vec<ToolDef> = Vec::new();
    tools.push(record::record_tool_def());
    tools.push(status::record_status_tool_def());
    let kinds: Vec<JfrProxyKind> = all_kinds();
    let mut i: usize = 0;
    while i < kinds.len()
        invariant
            i <= kinds@.len(),
            kinds@ == proxy_kinds(),
            tools@.len() == i + 2,
            tools@[0]@ == record::record_offer(),
            tools@[1]@ == status::record_status_offer(),
            forall|j: int| 0 <= j < i ==> (#[trigger] tools@[j + 2])@ == proxy_offer(kinds@[j]),
        decreases kinds@.len() - i,
    {
        let kind: JfrProxyKind = kinds[i];
        let ghost before = tools@;
        tools.push(
            proxy_tool_def(
                proxy_name_text(kind),
                proxy_description_text(kind),
                JfrToolKind::Proxy(kind),
                proxy_timeouts(kind),
            ),
        );
        proof {
            assert forall|j: int| 0 <= j < i + 1 implies (#[trigger] tools@[j + 2])@ == proxy_offer(
                kinds@[j],
            ) by {
                if j < i {
                    assert(tools@[j + 2] == before[j + 2]);
                }
            }
        }
        i = i + 1;
    }
    let ghost before = tools@;
    tools.push(
        proxy_tool_def(
            "jfr_compare",
            "两个 JFR 录制的 A/B 对比（优化前后、故障期 vs 正常期）：事件量/热点/暂停等维度差异汇总。",
            JfrToolKind::Compare,
            HEAVY,
        ),
    );
    proof {
        let shown = output::offers(tools@);
        let want = jfr_offers();
        let n = proxy_kinds().len() as int;
        assert(shown.len() == want.len());
        assert forall|j: int| 0 <= j < shown.len() implies shown[j] == want[j] by {
            if j < 2 {
                assert(tools@[j] == before[j]);
            } else if j < n + 2 {
                assert(tools@[j] == before[j]);
                assert(before[(j - 2) + 2]@ == proxy_offer(kinds@[j - 2]));
            }
        }
        assert(shown =~= want);
    }
    tools
}

/// An analysis takes the recording, which it needs, options for the analyser and a time limit; a
/// comparison takes two recordings in its place. Neither takes anything else or changes anything.
pub proof fn law_analysis_tools_say_what_they_take(kind: JfrProxyKind, key: Seq<char>)
    ensures
        ({
            let o = proxy_offer(kind);
            let c = compare_offer();
            &&& o.name == proxy_name(kind)
            &&& c.name == "jfr_compare"@
            &&& output::parameter(o, "local_path"@) == Some("string"@)
            &&& output::parameter(o, "args"@) == Some("object"@)
            &&& output::parameter(o, "timeout_secs"@) == Some("number"@)
            &&& key != "local_path"@ && key != "args"@ && key != "timeout_secs"@
                ==> output::parameter(o, key) is None
            &&& output::required_parameters(o) == Some(json::texts(seq!["local_path"@]))
            &&& output::parameter(c, "baseline_local_path"@) == Some("string"@)
            &&& output::parameter(c, "target_local_path"@) == Some("string"@)
            &&& output::parameter(c, "args"@) == Some("object"@)
            &&& output::parameter(c, "timeout_secs"@) == Some("number"@)
            &&& key != "baseline_local_path"@ && key != "target_local_path"@ && key != "args"@
                && key != "timeout_secs"@ ==> output::parameter(c, key) is None
            &&& output::required_parameters(c) == Some(
                json::texts(seq!["baseline_local_path"@, "target_local_path"@]),
            )
            &&& o.risk_level == RiskLevel::ReadOnly && c.risk_level == RiskLevel::ReadOnly
            &&& o.category == ToolCategory::Jfr && c.category == ToolCategory::Jfr
            &&& !o.needs_channel && !c.needs_channel
        }),
{
    let o = proxy_offer(kind);
    let c = compare_offer();
    let times = proxy_times(kind);
    let props = tool_props(JfrToolKind::Proxy(kind), times);
    let both = tool_props(JfrToolKind::Compare, HEAVY);
    reveal_strlit("local_path");
    reveal_strlit("args");
    reveal_strlit("timeout_secs");
    reveal_strlit("baseline_local_path");
    reveal_strlit("target_local_path");
    assert("local_path"@.len() != "args"@.len());
    assert("local_path"@.len() != "timeout_secs"@.len());
    assert("local_path"@.len() != "baseline_local_path"@.len());
    assert("local_path"@.len() != "target_local_path"@.len());
    assert("args"@.len() != "timeout_secs"@.len());
    assert("args"@.len() != "baseline_local_path"@.len());
    assert("args"@.len() != "target_local_path"@.len());
    assert("timeout_secs"@.len() != "baseline_local_path"@.len());
    assert("timeout_secs"@.len() != "target_local_path"@.len());
    assert("baseline_local_path"@.len() != "target_local_path"@.len());
    output::law_schema_lists_its_properties(o, props, seq!["local_path"@], "local_path"@);
    output::law_schema_lists_its_properties(o, props, seq!["local_path"@], "args"@);
    output::law_schema_lists_its_properties(o, props, seq!["local_path"@], "timeout_secs"@);
    output::law_schema_lists_its_properties(o, props, seq!["local_path"@], key);
    output::law_schema_lists_its_properties(c, both, seq!["baseline_local_path"@, "target_local_path"@], "baseline_local_path"@);
    output::law_schema_lists_its_properties(c, both, seq!["baseline_local_path"@, "target_local_path"@], "target_local_path"@);
    output::law_schema_lists_its_properties(c, both, seq!["baseline_local_path"@, "target_local_path"@], "args"@);
    output::law_schema_lists_its_properties(c, both, seq!["baseline_local_path"@, "target_local_path"@], "timeout_secs"@);
    output::law_schema_lists_its_properties(c, both, seq!["baseline_local_path"@, "target_local_path"@], key);
    output::law_property_says_its_type("string"@, "本机 JFR 录制文件绝对路径（jfr_record 返回的 local_path 或用户已有文件）"@);
    output::law_property_says_its_type("object"@, "上游分析选项透传（如 top_n / thread_name / package_prefix / focus / class_pattern / start_time / end_time，见工具描述）"@);
    output::law_property_says_its_type("string"@, "基准录制（如正常期）的本机路径"@);
    output::law_property_says_its_type("string"@, "对比录制（如故障期）的本机路径"@);
    output::law_property_says_its_type("object"@, "上游选项透传（start_time/end_time 等）"@);
    output::law_property_says_its_type("number"@, times_text(times.0, times.1));
    output::law_property_says_its_type("number"@, times_text(HEAVY.0, HEAVY.1));
}

/// Every analysis is offered, each by one tool, beside the tools that start, follow and compare
/// recordings.
pub proof fn law_every_analysis_is_offered(kind: JfrProxyKind)
    ensures
        proxy_kinds().contains(kind),
        proxy_kinds().no_duplicates(),
        jfr_offers().contains(proxy_offer(kind)),
        jfr_offers().contains(record::record_offer()),
        jfr_offers().contains(status::record_status_offer()),
        jfr_offers().contains(compare_offer()),
        jfr_offers().len() == proxy_kinds().len() + 3,
{
    let kinds = proxy_kinds();
    let i: int = match kind {
        JfrProxyKind::Overview => 0,
        JfrProxyKind::Rules => 1,
        JfrProxyKind::QuickAnalysis => 2,
        JfrProxyKind::GcDetail => 3,
        JfrProxyKind::MemoryLeaks => 4,
        JfrProxyKind::PredictiveLeak => 5,
        JfrProxyKind::AllocationHotspots => 6,
        JfrProxyKind::HotMethods => 7,
        JfrProxyKind::ThreadCpu => 8,
        JfrProxyKind::CpuFlame => 9,
        JfrProxyKind::ThreadContention => 10,
        JfrProxyKind::DeadlockDetection => 11,
        JfrProxyKind::IoHotspots => 12,
        JfrProxyKind::Exceptions => 13,
        JfrProxyKind::Errors => 14,
        JfrProxyKind::Safepoints => 15,
        JfrProxyKind::VirtualThreads => 16,
        JfrProxyKind::StackTraceSearch => 17,
        JfrProxyKind::Correlate => 18,
        JfrProxyKind::RequestWaterfall => 19,
    };
    assert(kinds[i] == kind);
    let offers = jfr_offers();
    assert(offers[0] == record::record_offer());
    assert(offers[1] == status::record_status_offer());
    assert(offers[i + 2] == proxy_offer(kind));
    assert(offers[22] == compare_offer());
}

/// The analyses that read a recording at length get five minutes, and half an hour at most; the
/// others get one, and five at most.
pub proof fn law_long_analyses_get_more_time(kind: JfrProxyKind)
    ensures
        proxy_times(kind) == (300u64, 1800u64) <==> kind is QuickAnalysis || kind is MemoryLeaks
            || kind is PredictiveLeak || kind is CpuFlame || kind is StackTraceSearch || kind
            is Correlate || kind is RequestWaterfall,
        proxy_times(kind) != (300u64, 1800u64) ==> proxy_times(kind) == (60u64, 300u64),
{
}

} // verus!
