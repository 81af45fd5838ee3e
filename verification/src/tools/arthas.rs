//! The tools that diagnose a JVM with arthas.

use vstd::prelude::*;

use crate::json;
use crate::json::Json;
use crate::text;
use crate::tools::call::{Answer, Ask, ManagerError};
use crate::tools::output;
use crate::tools::output::{Offer, RiskLevel, Shown, ToolCategory, ToolDef, ToolOutput};

verus! {

/// How long a call may take, in seconds: unless a time is given, and at most.
pub type Timeouts = (u64, u64);

/// The times of an attach.
pub const OPEN: Timeouts = (120, 300);

/// The times of the end of a session.
pub const CLOSE: Timeouts = (30, 60);

/// The times of a command that answers at once.
pub const FAST: Timeouts = (30, 60);

/// The times of a command that watches.
pub const STREAM: Timeouts = (120, 600);

/// The times of a command that samples.
pub const PROFILER: Timeouts = (300, 1800);

/// What a tool does.
#[derive(Clone, Copy, Debug, PartialEq, Eq, Structural)]
pub enum ArthasToolKind {
    Open,
    Close,
    Dashboard,
    Jvm,
    Memory,
    Sysenv,
    Perfcounter,
    Sc,
    Sm,
    Jad,
    Classloader,
    Getstatic,
    Mbean,
    Dump,
    Thread,
    Viewfile,
    Options,
    Watch,
    Trace,
    Stack,
    Monitor,
    Tt,
    Ognl,
    Vmtool,
    Sysprop,
    Vmoption,
    Profiler,
}

// ---------------------------------------------------------------------------------------------
// Messages
// ---------------------------------------------------------------------------------------------

pub open spec fn lookup_failed(e: Seq<char>) -> Seq<char> {
    "查询环境失败: "@ + e
}

fn lookup_failed_text(e: &str) -> (r: String)
    ensures
        r@ == lookup_failed(e@),
{
    "查询环境失败: ".to_owned().concat(e)
}

pub open spec fn label(environment: Seq<char>, pid: u32) -> Seq<char> {
    environment + "/"@ + text::dec(pid as nat)
}

fn label_text(environment: &str, pid: u32) -> (r: String)
    ensures
        r@ == label(environment@, pid),
{
    environment.to_owned().concat("/").concat(text::u64_text(pid as u64).as_str())
}

pub open spec fn too_slow(secs: u64) -> Seq<char> {
    "arthas 调用超时（"@ + text::dec(secs as nat) + "s）。会话未受影响，可加大 timeout_secs 重试。"@
}

fn too_slow_text(secs: u64) -> (r: String)
    ensures
        r@ == too_slow(secs),
{
    "arthas 调用超时（".to_owned()
        .concat(text::u64_text(secs).as_str())
        .concat("s）。会话未受影响，可加大 timeout_secs 重试。")
}

pub open spec fn broken(m: Seq<char>) -> Seq<char> {
    "arthas 通道传输错误："@ + m + "。会话已失效，请重新调用 arthas_open。"@
}

fn broken_text(m: &str) -> (r: String)
    ensures
        r@ == broken(m@),
{
    "arthas 通道传输错误：".to_owned().concat(m).concat("。会话已失效，请重新调用 arthas_open。")
}

pub open spec fn artifact(tool: Seq<char>, target: Seq<char>, text: Seq<char>) -> Seq<char> {
    "--- tool: "@ + tool + " ---\n--- target: "@ + target + " ---\n--- full output ---\n"@
        + text + "\n"@
}

fn artifact_text(tool: &str, target: &str, text: &str) -> (r: String)
    ensures
        r@ == artifact(tool@, target@, text@),
{
    "--- tool: ".to_owned()
        .concat(tool)
        .concat(" ---\n--- target: ")
        .concat(target)
        .concat(" ---\n--- full output ---\n")
        .concat(text)
        .concat("\n")
}

pub open spec fn times_text(default: u64, max: u64) -> Seq<char> {
    "超时秒数，默认 "@ + text::dec(default as nat) + "，最大 "@ + text::dec(max as nat)
}

fn times_value(default: u64, max: u64) -> (r: String)
    ensures
        r@ == times_text(default, max),
{
    "超时秒数，默认 ".to_owned()
        .concat(text::u64_text(default).as_str())
        .concat("，最大 ")
        .concat(text::u64_text(max).as_str())
}

pub open spec fn with_pod_hint(description: Seq<char>) -> Seq<char> {
    description + "容器环境需带与 arthas_open 相同的 pod/namespace 参数。"@
}

fn with_pod_hint_text(description: &str) -> (r: String)
    ensures
        r@ == with_pod_hint(description@),
{
    description.to_owned().concat("容器环境需带与 arthas_open 相同的 pod/namespace 参数。")
}

// ---------------------------------------------------------------------------------------------
// A call
// ---------------------------------------------------------------------------------------------

/// What arthas gave back, as it is shown.
#[derive(Debug, PartialEq, Eq)]
pub struct Report<S> {
    pub tool: S,
    pub target: S,
    pub text: S,
    pub elapsed_ms: u64,
    /// Whether it is the answer that was asked for, and not an error.
    pub success: bool,
    /// The head of the text that is shown.
    pub body: S,
    /// Whether that is not all of it.
    pub truncated: bool,
    /// The file that holds all of it, where it could be written.
    pub full_path: Option<S>,
}

/// What a call came to.
#[derive(Debug, PartialEq, Eq)]
pub enum ArthasOutcome<S> {
    /// It was refused or failed.
    Refused { code: S, message: S },
    /// The session was ended, if there was one.
    Closed { environment: S, pid: u32, was_open: bool },
    /// Arthas answered.
    Reported { report: Report<S> },
}

/// Where a call stands.
#[derive(Debug, PartialEq, Eq)]
pub enum ArthasStage<S> {
    /// Find the environment.
    Find,
    /// Does the target fit it?
    Fit,
    /// Attach.
    Open,
    /// End the session.
    Close,
    /// Build the arguments of the command.
    Build,
    /// Run the command.
    Query { tool: S },
    /// Cut what it gave back.
    Cut { tool: S, text: S, success: bool, elapsed_ms: u64 },
    /// Keep all of it.
    Save { report: Report<S> },
    /// It is over.
    Ended { outcome: ArthasOutcome<S> },
}

/// A call of a tool that diagnoses a JVM with arthas.
#[derive(Debug, PartialEq, Eq)]
pub struct ArthasToolHandler<S> {
    pub kind: ArthasToolKind,
    pub environment: S,
    pub pid: u32,
    pub pod: Option<S>,
    pub namespace: Option<S>,
    pub container: Option<S>,
    pub java_bin: S,
    pub secs: u64,
    pub stage: ArthasStage<S>,
}

impl View for Report<String> {
    type V = Report<Seq<char>>;

    open spec fn view(&self) -> Report<Seq<char>> {
        Report {
            tool: self.tool@,
            target: self.target@,
            text: self.text@,
            elapsed_ms: self.elapsed_ms,
            success: self.success,
            body: self.body@,
            truncated: self.truncated,
            full_path: text::opt(self.full_path),
        }
    }
}

impl View for ArthasOutcome<String> {
    type V = ArthasOutcome<Seq<char>>;

    open spec fn view(&self) -> ArthasOutcome<Seq<char>> {
        match *self {
            ArthasOutcome::Refused { code, message } => ArthasOutcome::Refused {
                code: code@,
                message: message@,
            },
            ArthasOutcome::Closed { environment, pid, was_open } => ArthasOutcome::Closed {
                environment: environment@,
                pid,
                was_open,
            },
            ArthasOutcome::Reported { report } => ArthasOutcome::Reported { report: report@ },
        }
    }
}

impl View for ArthasStage<String> {
    type V = ArthasStage<Seq<char>>;

    open spec fn view(&self) -> ArthasStage<Seq<char>> {
        match *self {
            ArthasStage::Find => ArthasStage::Find,
            ArthasStage::Fit => ArthasStage::Fit,
            ArthasStage::Open => ArthasStage::Open,
            ArthasStage::Close => ArthasStage::Close,
            ArthasStage::Build => ArthasStage::Build,
            ArthasStage::Query { tool } => ArthasStage::Query { tool: tool@ },
            ArthasStage::Cut { tool, text, success, elapsed_ms } => ArthasStage::Cut {
                tool: tool@,
                text: text@,
                success,
                elapsed_ms,
            },
            ArthasStage::Save { report } => ArthasStage::Save { report: report@ },
            ArthasStage::Ended { outcome } => ArthasStage::Ended { outcome: outcome@ },
        }
    }
}

impl View for ArthasToolHandler<String> {
    type V = ArthasToolHandler<Seq<char>>;

    open spec fn view(&self) -> ArthasToolHandler<Seq<char>> {
        ArthasToolHandler {
            kind: self.kind,
            environment: self.environment@,
            pid: self.pid,
            pod: text::opt(self.pod),
            namespace: text::opt(self.namespace),
            container: text::opt(self.container),
            java_bin: self.java_bin@,
            secs: self.secs,
            stage: self.stage@,
        }
    }
}

/// A refusal.
pub open spec fn refused(code: Seq<char>, message: Seq<char>) -> ArthasStage<Seq<char>> {
    ArthasStage::Ended { outcome: ArthasOutcome::Refused { code, message } }
}

/// The call that arguments ask for.
pub open spec fn arthas_start(kind: ArthasToolKind, args: Json, times: Timeouts) -> ArthasToolHandler<
    Seq<char>,
> {
    let environment = json::text_of(json::member(args, "environment"@));
    let pid = output::pid_of(json::member(args, "pid"@));
    ArthasToolHandler {
        kind,
        environment: match environment {
            Some(e) => e,
            None => Seq::empty(),
        },
        pid: match pid {
            Some(p) => p as u32,
            None => 0,
        },
        pod: output::filled_arg(args, "pod"@),
        namespace: output::filled_arg(args, "namespace"@),
        container: output::filled_arg(args, "container"@),
        java_bin: match json::text_of(json::member(args, "java_bin"@)) {
            Some(j) => j,
            None => "java"@,
        },
        secs: output::asked_secs(args, times.0, times.1) as u64,
        stage: if environment is None {
            refused("invalid_params"@, "missing required parameter: environment"@)
        } else if pid is None {
            refused("invalid_params"@, "missing required parameter: pid（正整数字符串）"@)
        } else {
            ArthasStage::Find
        },
    }
}

/// What a call asks for where it stands.
pub open spec fn arthas_request(a: ArthasToolHandler<Seq<char>>) -> Ask<Seq<char>> {
    match a.stage {
        ArthasStage::Find => Ask::FindEnvironment { environment: a.environment },
        ArthasStage::Fit => Ask::CheckTarget {
            pod: a.pod,
            namespace: a.namespace,
            container: a.container,
        },
        ArthasStage::Open => Ask::Open {
            pod: a.pod,
            container: a.container,
            pid: a.pid,
            java_bin: a.java_bin,
            secs: a.secs,
        },
        ArthasStage::Close => Ask::Close { pod: a.pod, container: a.container, pid: a.pid },
        ArthasStage::Build => Ask::BuildArgs,
        ArthasStage::Query { tool } => Ask::Query {
            tool,
            pod: a.pod,
            container: a.container,
            pid: a.pid,
            secs: a.secs,
        },
        ArthasStage::Cut { tool, text, success, elapsed_ms } => Ask::Cut { text },
        ArthasStage::Save { report } => Ask::Save {
            prefix: "arthas"@,
            content: artifact(report.tool, report.target, report.text),
        },
        ArthasStage::Ended { outcome } => Ask::Finished,
    }
}

/// What follows a target that fits.
pub open spec fn arthas_work(kind: ArthasToolKind) -> ArthasStage<Seq<char>> {
    match kind {
        ArthasToolKind::Open => ArthasStage::Open,
        ArthasToolKind::Close => ArthasStage::Close,
        _ => ArthasStage::Build,
    }
}

/// What follows an error of arthas.
pub open spec fn arthas_error(tool: Seq<char>, e: ManagerError<Seq<char>>, elapsed_ms: u64) -> ArthasStage<
    Seq<char>,
> {
    match e {
        ManagerError::Attach { reason } => refused("arthas_attach_failed"@, reason),
        ManagerError::NotOpen { attaching } => if attaching {
            refused(
                "arthas_not_open"@,
                "该 JVM 正在 attach 中（首次需下发工具包/建隧道，约 10-60s）。请稍候后重试。"@,
            )
        } else {
            refused(
                "arthas_not_open"@,
                "该 JVM 尚未 attach arthas。请先调用 arthas_open(environment, pid)。"@,
            )
        },
        ManagerError::Timeout { secs } => refused("arthas_timeout"@, too_slow(secs)),
        ManagerError::Transport { detail } => refused("arthas_transport"@, broken(detail)),
        ManagerError::Upstream { text } => ArthasStage::Cut {
            tool,
            text,
            success: false,
            elapsed_ms,
        },
    }
}

/// Where an answer leads.
pub open spec fn arthas_next(a: ArthasToolHandler<Seq<char>>, answer: Answer<Seq<char>>) -> ArthasStage<
    Seq<char>,
> {
    match (a.stage, answer) {
        (ArthasStage::Find, Answer::Resolved { resolved }) => match resolved {
            Ok(Some(_)) => ArthasStage::Fit,
            Ok(None) => refused(
                "environment_not_found"@,
                output::unknown_environment(a.environment),
            ),
            Err(e) => refused("lookup_failed"@, lookup_failed(e)),
        },
        (ArthasStage::Fit, Answer::Checked { checked }) => match checked {
            Ok(_) => arthas_work(a.kind),
            Err(e) => refused("environment_type_mismatch"@, e),
        },
        (ArthasStage::Open, Answer::Managed { managed, elapsed_ms }) => match managed {
            Ok(o) => ArthasStage::Cut {
                tool: "arthas_open"@,
                text: o.text,
                success: true,
                elapsed_ms,
            },
            Err(e) => arthas_error("arthas_open"@, e, elapsed_ms),
        },
        (ArthasStage::Close, Answer::Flag { flag }) => ArthasStage::Ended {
            outcome: ArthasOutcome::Closed {
                environment: a.environment,
                pid: a.pid,
                was_open: flag,
            },
        },
        (ArthasStage::Build, Answer::Built { built }) => match built {
            Ok(tool) => ArthasStage::Query { tool },
            Err(e) => refused("invalid_params"@, e),
        },
        (ArthasStage::Query { tool }, Answer::Managed { managed, elapsed_ms }) => match managed {
            Ok(o) => ArthasStage::Cut { tool, text: o.text, success: !o.is_error, elapsed_ms },
            Err(e) => arthas_error(tool, e, elapsed_ms),
        },
        (ArthasStage::Cut { tool, text, success, elapsed_ms }, Answer::Cut { body, truncated }) => ArthasStage::Save {
            report: Report {
                tool,
                target: label(a.environment, a.pid),
                text,
                elapsed_ms,
                success,
                body,
                truncated,
                full_path: None,
            },
        },
        (ArthasStage::Save { report }, Answer::Maybe { maybe }) => ArthasStage::Ended {
            outcome: ArthasOutcome::Reported { report: Report { full_path: maybe, ..report } },
        },
        _ => a.stage,
    }
}

/// The call after an answer.
pub open spec fn arthas_after(a: ArthasToolHandler<Seq<char>>, answer: Answer<Seq<char>>) -> ArthasToolHandler<
    Seq<char>,
> {
    ArthasToolHandler { stage: arthas_next(a, answer), ..a }
}

fn refuse(code: &str, message: &str) -> (r: ArthasStage<String>)
    ensures
        r@ == refused(code@, message@),
{
    ArthasStage::Ended {
        outcome: ArthasOutcome::Refused { code: code.to_owned(), message: message.to_owned() },
    }
}

fn manager_error_output(tool: String, e: ManagerError<String>, elapsed_ms: u64) -> (r: ArthasStage<
    String,
>)
    ensures
        r@ == arthas_error(tool@, e@, elapsed_ms),
{
    match e {
        ManagerError::Attach { reason } => refuse("arthas_attach_failed", reason.as_str()),
        ManagerError::NotOpen { attaching } => if attaching {
            refuse(
                "arthas_not_open",
                "该 JVM 正在 attach 中（首次需下发工具包/建隧道，约 10-60s）。请稍候后重试。",
            )
        } else {
            refuse(
                "arthas_not_open",
                "该 JVM 尚未 attach arthas。请先调用 arthas_open(environment, pid)。",
            )
        },
        ManagerError::Timeout { secs } => refuse("arthas_timeout", too_slow_text(secs).as_str()),
        ManagerError::Transport { detail } => refuse(
            "arthas_transport",
            broken_text(detail.as_str()).as_str(),
        ),
        ManagerError::Upstream { text } => ArthasStage::Cut {
            tool,
            text,
            success: false,
            elapsed_ms,
        },
    }
}

impl ArthasToolHandler<String> {
    /// Begins the call that arguments ask for.
    pub fn execute(kind: ArthasToolKind, args: &serde_json::Value, times: Timeouts) -> (r: Self)
        ensures
            r@ == arthas_start(kind, json::view_of(*args), times),
    {
        let environment: Option<&str> = json::text_arg(args, "environment");
        let pid: Option<u32> = match json::get(args, "pid") {
            Some(v) => output::parse_pid(v),
            None => None,
        };
        ArthasToolHandler {
            kind,
            environment: match environment {
                Some(e) => e.to_owned(),
                None => String::new(),
            },
            pid: match pid {
                Some(p) => p,
                None => 0,
            },
            pod: text::own_opt(output::filled_text_arg(args, "pod")),
            namespace: text::own_opt(output::filled_text_arg(args, "namespace")),
            container: text::own_opt(output::filled_text_arg(args, "container")),
            java_bin: match json::text_arg(args, "java_bin") {
                Some(j) => j.to_owned(),
                None => "java".to_owned(),
            },
            secs: output::timeout_arg(args, times.0, times.1),
            stage: if environment.is_none() {
                refuse("invalid_params", "missing required parameter: environment")
            } else if pid.is_none() {
                refuse("invalid_params", "missing required parameter: pid（正整数字符串）")
            } else {
                ArthasStage::Find
            },
        }
    }

    /// What is asked for.
    pub fn request(&self) -> (r: Ask<String>)
        ensures
            r@ == arthas_request(self@),
    {
        match &self.stage {
            ArthasStage::Find => Ask::FindEnvironment { environment: self.environment.clone() },
            ArthasStage::Fit => Ask::CheckTarget {
                pod: text::copy_opt(&self.pod),
                namespace: text::copy_opt(&self.namespace),
                container: text::copy_opt(&self.container),
            },
            ArthasStage::Open => Ask::Open {
                pod: text::copy_opt(&self.pod),
                container: text::copy_opt(&self.container),
                pid: self.pid,
                java_bin: self.java_bin.clone(),
                secs: self.secs,
            },
            ArthasStage::Close => Ask::Close {
                pod: text::copy_opt(&self.pod),
                container: text::copy_opt(&self.container),
                pid: self.pid,
            },
            ArthasStage::Build => Ask::BuildArgs,
            ArthasStage::Query { tool } => Ask::Query {
                tool: tool.clone(),
                pod: text::copy_opt(&self.pod),
                container: text::copy_opt(&self.container),
                pid: self.pid,
                secs: self.secs,
            },
            ArthasStage::Cut { tool: _, text, success: _, elapsed_ms: _ } => Ask::Cut {
                text: text.clone(),
            },
            ArthasStage::Save { report } => Ask::Save {
                prefix: "arthas".to_owned(),
                content: artifact_text(
                    report.tool.as_str(),
                    report.target.as_str(),
                    report.text.as_str(),
                ),
            },
            ArthasStage::Ended { outcome: _ } => Ask::Finished,
        }
    }

    /// Takes the answer to what was asked for.
    pub fn step(self, answer: Answer<String>) -> (r: Self)
        ensures
            r@ == arthas_after(self@, answer@),
    {
        let stage: ArthasStage<String> = match (self.stage, answer) {
            (ArthasStage::Find, Answer::Resolved { resolved }) => match resolved {
                Ok(Some(_)) => ArthasStage::Fit,
                Ok(None) => refuse(
                    "environment_not_found",
                    output::unknown_environment_text(self.environment.as_str()).as_str(),
                ),
                Err(e) => refuse("lookup_failed", lookup_failed_text(e.as_str()).as_str()),
            },
            (ArthasStage::Fit, Answer::Checked { checked }) => match checked {
                Ok(_) => match self.kind {
                    ArthasToolKind::Open => ArthasStage::Open,
                    ArthasToolKind::Close => ArthasStage::Close,
                    _ => ArthasStage::Build,
                },
                Err(e) => refuse("environment_type_mismatch", e.as_str()),
            },
            (ArthasStage::Open, Answer::Managed { managed, elapsed_ms }) => match managed {
                Ok(o) => ArthasStage::Cut {
                    tool: "arthas_open".to_owned(),
                    text: o.text,
                    success: true,
                    elapsed_ms,
                },
                Err(e) => manager_error_output("arthas_open".to_owned(), e, elapsed_ms),
            },
            (ArthasStage::Close, Answer::Flag { flag }) => ArthasStage::Ended {
                outcome: ArthasOutcome::Closed {
                    environment: self.environment.clone(),
                    pid: self.pid,
                    was_open: flag,
                },
            },
            (ArthasStage::Build, Answer::Built { built }) => match built {
                Ok(tool) => ArthasStage::Query { tool },
                Err(e) => refuse("invalid_params", e.as_str()),
            },
            (ArthasStage::Query { tool }, Answer::Managed { managed, elapsed_ms }) => match managed {
                Ok(o) => ArthasStage::Cut {
                    tool,
                    text: o.text,
                    success: !o.is_error,
                    elapsed_ms,
                },
                Err(e) => manager_error_output(tool, e, elapsed_ms),
            },
            (
                ArthasStage::Cut { tool, text, success, elapsed_ms },
                Answer::Cut { body, truncated },
            ) => ArthasStage::Save {
                report: Report {
                    tool,
                    target: label_text(self.environment.as_str(), self.pid),
                    text,
                    elapsed_ms,
                    success,
                    body,
                    truncated,
                    full_path: None,
                },
            },
            (ArthasStage::Save { report }, Answer::Maybe { maybe }) => ArthasStage::Ended {
                outcome: ArthasOutcome::Reported {
                    report: Report { full_path: maybe, ..report },
                },
            },
            (stage, _) => stage,
        };
        ArthasToolHandler {
            kind: self.kind,
            environment: self.environment,
            pid: self.pid,
            pod: self.pod,
            namespace: self.namespace,
            container: self.container,
            java_bin: self.java_bin,
            secs: self.secs,
            stage,
        }
    }
}

/// What is shown of a report.
pub open spec fn report_data(report: Report<Seq<char>>) -> Map<Seq<char>, Json> {
    let data = json::no_members().insert("tool"@, Json::Text(report.tool)).insert(
        "target"@,
        Json::Text(report.target),
    ).insert("elapsed_ms"@, Json::Int(report.elapsed_ms as int)).insert(
        "output"@,
        Json::Text(report.body),
    ).insert("truncated"@, Json::Bool(report.truncated));
    match report.full_path {
        Some(p) => data.insert("full_output_path"@, Json::Text(p)),
        None => data,
    }
}

/// What a call shows.
pub open spec fn arthas_shown(o: ArthasOutcome<Seq<char>>) -> Shown {
    match o {
        ArthasOutcome::Refused { code, message } => output::refusal(code, message),
        ArthasOutcome::Closed { environment, pid, was_open } => Shown {
            success: true,
            data: Json::Object(
                json::no_members().insert("tool"@, Json::Text("arthas_close"@)).insert(
                    "environment"@,
                    Json::Text(environment),
                ).insert("pid"@, Json::Int(pid as int)).insert("was_open"@, Json::Bool(was_open)),
            ),
            raw_stdout: None,
        },
        ArthasOutcome::Reported { report } => Shown {
            success: report.success,
            data: Json::Object(report_data(report)),
            raw_stdout: None,
        },
    }
}

impl ArthasOutcome<String> {
    /// What the call shows.
    pub fn render(self) -> (r: ToolOutput)
        ensures
            r@ == arthas_shown(self@),
    {
        let mut m: serde_json::Map<String, serde_json::Value> = json::new_map();
        match self {
            ArthasOutcome::Refused { code, message } => output::error_output(
                code.as_str(),
                message.as_str(),
            ),
            ArthasOutcome::Closed { environment, pid, was_open } => {
                json::insert(&mut m, "tool", json::text_value("arthas_close"));
                json::insert(&mut m, "environment", json::text_value(environment.as_str()));
                json::insert(&mut m, "pid", json::u64_value(pid as u64));
                json::insert(&mut m, "was_open", json::bool_value(was_open));
                ToolOutput { success: true, data: json::object(m), raw_stdout: None }
            },
            ArthasOutcome::Reported { report } => {
                json::insert(&mut m, "tool", json::text_value(report.tool.as_str()));
                json::insert(&mut m, "target", json::text_value(report.target.as_str()));
                json::insert(&mut m, "elapsed_ms", json::u64_value(report.elapsed_ms));
                json::insert(&mut m, "output", json::text_value(report.body.as_str()));
                json::insert(&mut m, "truncated", json::bool_value(report.truncated));
                match &report.full_path {
                    Some(p) => {
                        json::insert(&mut m, "full_output_path", json::text_value(p.as_str()));
                    },
                    None => {},
                }
                ToolOutput { success: report.success, data: json::object(m), raw_stdout: None }
            },
        }
    }
}

/// Arthas is attached, asked or stopped only at a target that fits its environment, and only as
/// the tool says.
pub proof fn law_arthas_works_only_where_it_fits(
    a: ArthasToolHandler<Seq<char>>,
    answer: Answer<Seq<char>>,
)
    requires
        a.stage is Find || a.stage is Fit,
    ensures
        ({
            let after = arthas_after(a, answer).stage;
            after is Open || after is Close || after is Build ==> {
                &&& a.stage is Fit
                &&& answer matches Answer::Checked { checked: Ok(_) }
                &&& after is Open <==> a.kind == ArthasToolKind::Open
                &&& after is Close <==> a.kind == ArthasToolKind::Close
            }
        }),
{
}

/// The command that was built for a call is the one that arthas is asked to run, and the one that the
/// answer is shown under.
pub proof fn law_arthas_runs_what_was_built(
    a: ArthasToolHandler<Seq<char>>,
    built: Answer<Seq<char>>,
    answered: Answer<Seq<char>>,
    name: Seq<char>,
)
    requires
        a.stage is Build,
        built == (Answer::<Seq<char>>::Built { built: Ok(name) }),
    ensures
        ({
            let asking = arthas_after(a, built);
            &&& arthas_request(asking) matches Ask::Query { tool, pod, container, pid, secs } && tool
                == name
            &&& arthas_after(asking, answered).stage matches ArthasStage::Cut {
                tool,
                text,
                success,
                elapsed_ms,
            } ==> tool == name
        }),
{
}

/// The pod and the container that were named go with every question to arthas, so that a session
/// in one pod never answers for another.
pub proof fn law_arthas_asks_for_its_pod(a: ArthasToolHandler<Seq<char>>)
    ensures
        arthas_request(a) matches Ask::Query { tool, pod, container, pid, secs } ==> pod == a.pod
            && container == a.container && pid == a.pid,
        arthas_request(a) matches Ask::Open { pod, container, pid, java_bin, secs } ==> pod
            == a.pod && container == a.container && pid == a.pid,
        arthas_request(a) matches Ask::Close { pod, container, pid } ==> pod == a.pod && container
            == a.container && pid == a.pid,
{
}

/// A call is for the process and the target that its arguments name, with the program that they
/// name or the usual one, for the time that they ask for; one that names no environment or no process
/// is refused.
pub proof fn law_arthas_call_is_as_asked(
    kind: ArthasToolKind,
    args: Map<Seq<char>, Json>,
    times: Timeouts,
    environment: Seq<char>,
    pid: u32,
    t: int,
)
    requires
        args.contains_key("environment"@) && args["environment"@] == Json::Text(environment),
        args.contains_key("pid"@) && args["pid"@] == Json::Text(text::dec(pid as nat)),
        pid > 0,
    ensures
        ({
            let a = arthas_start(kind, Json::Object(args), times);
            &&& a.kind == kind
            &&& a.environment == environment
            &&& a.pid == pid
            &&& a.pod == output::filled_arg(Json::Object(args), "pod"@)
            &&& a.namespace == output::filled_arg(Json::Object(args), "namespace"@)
            &&& a.container == output::filled_arg(Json::Object(args), "container"@)
            &&& !args.contains_key("java_bin"@) ==> a.java_bin == "java"@
            &&& args.contains_key("java_bin"@) ==> (args["java_bin"@] matches Json::Text(j) ==> a.java_bin
                == j)
            &&& !args.contains_key("timeout_secs"@) ==> a.secs == times.0
            &&& args.contains_key("timeout_secs"@) && args["timeout_secs"@] == Json::Int(t) && 0 < t
                <= times.1 && t <= i64::MAX ==> a.secs == t
            &&& arthas_request(a) == (Ask::<Seq<char>>::FindEnvironment { environment })
        }),
        arthas_start(kind, Json::Object(args.remove("environment"@)), times).stage
            matches ArthasStage::Ended { outcome: ArthasOutcome::Refused { code, message: _ } } && code
            == "invalid_params"@,
        arthas_start(kind, Json::Object(args.remove("pid"@)), times).stage
            matches ArthasStage::Ended { outcome: ArthasOutcome::Refused { code, message: _ } } && code
            == "invalid_params"@,
{
    output::law_pid_is_read_back(pid as nat, args["pid"@]);
    reveal_strlit("environment");
    reveal_strlit("pid");
    assert("environment"@.len() != "pid"@.len());
}

/// The way of a command: its environment is found, its target fits, the command is built and run at
/// the process, and what it printed is shown as it was cut, with its outcome, its time and where all of
/// it is kept.
pub proof fn law_way_of_an_arthas_command(
    a: ArthasToolHandler<Seq<char>>,
    env_id: Seq<char>,
    command: Seq<char>,
    text: Seq<char>,
    is_error: bool,
    ms: u64,
    body: Seq<char>,
    truncated: bool,
    saved: Option<Seq<char>>,
)
    requires
        a.stage is Find,
        a.kind !is Open,
        a.kind !is Close,
    ensures
        ({
            let a1 = arthas_after(a, Answer::Resolved { resolved: Ok(Some(env_id)) });
            let a2 = arthas_after(a1, Answer::Checked { checked: Ok(()) });
            let a3 = arthas_after(a2, Answer::Built { built: Ok(command) });
            let a4 = arthas_after(
                a3,
                Answer::Managed {
                    managed: Ok(crate::tools::call::CallOutcome { text, is_error }),
                    elapsed_ms: ms,
                },
            );
            let a5 = arthas_after(a4, Answer::Cut { body, truncated });
            let a6 = arthas_after(a5, Answer::Maybe { maybe: saved });
            &&& arthas_request(a1) == (Ask::<Seq<char>>::CheckTarget {
                pod: a.pod,
                namespace: a.namespace,
                container: a.container,
            })
            &&& arthas_request(a2) is BuildArgs
            &&& arthas_request(a3) == (Ask::<Seq<char>>::Query {
                tool: command,
                pod: a.pod,
                container: a.container,
                pid: a.pid,
                secs: a.secs,
            })
            &&& arthas_request(a4) == (Ask::<Seq<char>>::Cut { text })
            &&& arthas_request(a5) matches Ask::Save { prefix, content } && prefix == "arthas"@
                && text::contains(content, text)
            &&& a6.stage matches ArthasStage::Ended { outcome } && shows_answer(
                outcome,
                a,
                command,
                !is_error,
                ms,
                body,
                truncated,
                saved,
            )
        }),
{
    let head = "--- tool: "@ + command + " ---\n--- target: "@ + label(a.environment, a.pid)
        + " ---\n--- full output ---\n"@;
    text::lemma_contains(head, text, "\n"@);
    reveal_strlit("tool");
    reveal_strlit("target");
    reveal_strlit("elapsed_ms");
    reveal_strlit("output");
    reveal_strlit("truncated");
    reveal_strlit("full_output_path");
    assert("tool"@.len() != "target"@.len());
    assert("tool"@.len() != "elapsed_ms"@.len());
    assert("tool"@.len() != "output"@.len());
    assert("tool"@.len() != "truncated"@.len());
    assert("tool"@.len() != "full_output_path"@.len());
    assert("target"@.len() != "elapsed_ms"@.len());
    assert("target"@[0] != "output"@[0]);
    assert("target"@.len() != "truncated"@.len());
    assert("target"@.len() != "full_output_path"@.len());
    assert("elapsed_ms"@.len() != "output"@.len());
    assert("elapsed_ms"@.len() != "truncated"@.len());
    assert("elapsed_ms"@.len() != "full_output_path"@.len());
    assert("output"@.len() != "truncated"@.len());
    assert("output"@.len() != "full_output_path"@.len());
    assert("truncated"@.len() != "full_output_path"@.len());
}

/// Whether an outcome is shown as what arthas answered: the text that the cut kept, under the command,
/// its target and its time.
pub open spec fn shows_answer(
    outcome: ArthasOutcome<Seq<char>>,
    a: ArthasToolHandler<Seq<char>>,
    command: Seq<char>,
    success: bool,
    ms: u64,
    body: Seq<char>,
    truncated: bool,
    saved: Option<Seq<char>>,
) -> bool {
    let shown = arthas_shown(outcome);
    &&& shown.success == success
    &&& shown.data matches Json::Object(m) && {
        &&& m["tool"@] == Json::Text(command)
        &&& m["target"@] == Json::Text(a.environment + "/"@ + text::dec(a.pid as nat))
        &&& m["elapsed_ms"@] == Json::Int(ms as int)
        &&& m["output"@] == Json::Text(body)
        &&& m["truncated"@] == Json::Bool(truncated)
        &&& saved matches Some(p) ==> m["full_output_path"@] == Json::Text(p)
        &&& saved is None ==> !m.contains_key("full_output_path"@)
    }
}

/// The way of an attach and of the end of a session: arthas is attached to the process, or stopped at
/// it, and what came of it is shown.
pub proof fn law_way_of_an_arthas_session(
    a: ArthasToolHandler<Seq<char>>,
    text: Seq<char>,
    is_error: bool,
    ms: u64,
    body: Seq<char>,
    truncated: bool,
    saved: Option<Seq<char>>,
    was_open: bool,
)
    requires
        a.stage is Fit,
        a.kind is Open || a.kind is Close,
    ensures
        ({
            let a1 = arthas_after(a, Answer::Checked { checked: Ok(()) });
            let a2 = arthas_after(
                a1,
                Answer::Managed {
                    managed: Ok(crate::tools::call::CallOutcome { text, is_error }),
                    elapsed_ms: ms,
                },
            );
            let a3 = arthas_after(a2, Answer::Cut { body, truncated });
            let a4 = arthas_after(a3, Answer::Maybe { maybe: saved });
            &&& a.kind is Open ==> arthas_request(a1) == (Ask::<Seq<char>>::Open {
                pod: a.pod,
                container: a.container,
                pid: a.pid,
                java_bin: a.java_bin,
                secs: a.secs,
            })
            &&& a.kind is Open ==> (a4.stage matches ArthasStage::Ended { outcome } && shows_answer(
                outcome,
                a,
                "arthas_open"@,
                true,
                ms,
                body,
                truncated,
                saved,
            ))
            &&& a.kind is Close ==> arthas_request(a1) == (Ask::<Seq<char>>::Close {
                pod: a.pod,
                container: a.container,
                pid: a.pid,
            })
            &&& a.kind is Close ==> (arthas_after(a1, Answer::Flag { flag: was_open }).stage
                matches ArthasStage::Ended { outcome } && {
                let shown = arthas_shown(outcome);
                &&& shown.success
                &&& shown.data matches Json::Object(m) && m["tool"@] == Json::Text("arthas_close"@)
                    && m["environment"@] == Json::Text(a.environment) && m["pid"@] == Json::Int(
                    a.pid as int,
                ) && m["was_open"@] == Json::Bool(was_open)
            })
        }),
{
    reveal_strlit("tool");
    reveal_strlit("target");
    reveal_strlit("elapsed_ms");
    reveal_strlit("output");
    reveal_strlit("truncated");
    reveal_strlit("full_output_path");
    reveal_strlit("environment");
    reveal_strlit("pid");
    reveal_strlit("was_open");
    assert("tool"@.len() != "target"@.len());
    assert("tool"@.len() != "elapsed_ms"@.len());
    assert("tool"@.len() != "output"@.len());
    assert("tool"@.len() != "truncated"@.len());
    assert("tool"@.len() != "full_output_path"@.len());
    assert("tool"@.len() != "environment"@.len());
    assert("tool"@.len() != "pid"@.len());
    assert("tool"@.len() != "was_open"@.len());
    assert("target"@.len() != "elapsed_ms"@.len());
    assert("target"@[0] != "output"@[0]);
    assert("target"@.len() != "truncated"@.len());
    assert("target"@.len() != "full_output_path"@.len());
    assert("target"@.len() != "environment"@.len());
    assert("target"@.len() != "pid"@.len());
    assert("target"@.len() != "was_open"@.len());
    assert("elapsed_ms"@.len() != "output"@.len());
    assert("elapsed_ms"@.len() != "truncated"@.len());
    assert("elapsed_ms"@.len() != "full_output_path"@.len());
    assert("elapsed_ms"@.len() != "environment"@.len());
    assert("elapsed_ms"@.len() != "pid"@.len());
    assert("elapsed_ms"@.len() != "was_open"@.len());
    assert("output"@.len() != "truncated"@.len());
    assert("output"@.len() != "full_output_path"@.len());
    assert("output"@.len() != "environment"@.len());
    assert("output"@.len() != "pid"@.len());
    assert("output"@.len() != "was_open"@.len());
    assert("truncated"@.len() != "full_output_path"@.len());
    assert("truncated"@.len() != "environment"@.len());
    assert("truncated"@.len() != "pid"@.len());
    assert("truncated"@.len() != "was_open"@.len());
    assert("full_output_path"@.len() != "environment"@.len());
    assert("full_output_path"@.len() != "pid"@.len());
    assert("full_output_path"@.len() != "was_open"@.len());
    assert("environment"@.len() != "pid"@.len());
    assert("environment"@.len() != "was_open"@.len());
    assert("pid"@.len() != "was_open"@.len());
}

/// How a call fails: with a code that tells what failed, and with what was said of it. An error that
/// arthas answered with is no refusal: it is shown like an answer, and is no success.
pub proof fn law_arthas_failures(
    a: ArthasToolHandler<Seq<char>>,
    e: Seq<char>,
    attaching: bool,
    secs: u64,
    ms: u64,
    tool: Seq<char>,
)
    ensures
        a.stage is Find ==> refuses(
            arthas_after(a, Answer::Resolved { resolved: Ok(None) }),
            "environment_not_found"@,
            a.environment,
        ),
        a.stage is Find ==> refuses(
            arthas_after(a, Answer::Resolved { resolved: Err(e) }),
            "lookup_failed"@,
            e,
        ),
        a.stage is Fit ==> refuses(
            arthas_after(a, Answer::Checked { checked: Err(e) }),
            "environment_type_mismatch"@,
            e,
        ),
        a.stage is Build ==> refuses(
            arthas_after(a, Answer::Built { built: Err(e) }),
            "invalid_params"@,
            e,
        ),
        a.stage is Open || a.stage is Query ==> {
            &&& refuses(
                arthas_after(
                    a,
                    Answer::Managed {
                        managed: Err(ManagerError::Attach { reason: e }),
                        elapsed_ms: ms,
                    },
                ),
                "arthas_attach_failed"@,
                e,
            )
            &&& refuses(
                arthas_after(
                    a,
                    Answer::Managed {
                        managed: Err(ManagerError::NotOpen { attaching }),
                        elapsed_ms: ms,
                    },
                ),
                "arthas_not_open"@,
                if attaching {
                    "正在 attach"@
                } else {
                    "arthas_open"@
                },
            )
            &&& refuses(
                arthas_after(
                    a,
                    Answer::Managed {
                        managed: Err(ManagerError::Timeout { secs }),
                        elapsed_ms: ms,
                    },
                ),
                "arthas_timeout"@,
                text::dec(secs as nat),
            )
            &&& refuses(
                arthas_after(
                    a,
                    Answer::Managed {
                        managed: Err(ManagerError::Transport { detail: e }),
                        elapsed_ms: ms,
                    },
                ),
                "arthas_transport"@,
                e,
            )
            &&& arthas_after(
                a,
                Answer::Managed { managed: Err(ManagerError::Upstream { text: e }), elapsed_ms: ms },
            ).stage matches ArthasStage::Cut { tool: _, text, success, elapsed_ms } && text == e
                && !success && elapsed_ms == ms
        },
{
    let z = Seq::<char>::empty();
    text::lemma_contains(z, e, z);
    assert(z + e + z =~= e);
    text::lemma_contains("环境「"@, a.environment, "」不存在。请先调用 list_environments 查看可用环境；若无匹配，请让用户在右侧「环境」面板添加。"@);
    text::lemma_part("查询环境失败: "@, e);
    text::lemma_contains("arthas 调用超时（"@, text::dec(secs as nat), "s）。会话未受影响，可加大 timeout_secs 重试。"@);
    text::lemma_contains("arthas 通道传输错误："@, e, "。会话已失效，请重新调用 arthas_open。"@);
    reveal_strlit("该 JVM 正在 attach 中（首次需下发工具包/建隧道，约 10-60s）。请稍候后重试。");
    reveal_strlit("正在 attach");
    assert("该 JVM 正在 attach 中（首次需下发工具包/建隧道，约 10-60s）。请稍候后重试。"@.subrange(6, 15) =~= "正在 attach"@);
    assert(text::occurs_at("该 JVM 正在 attach 中（首次需下发工具包/建隧道，约 10-60s）。请稍候后重试。"@, "正在 attach"@, 6));
    reveal_strlit("该 JVM 尚未 attach arthas。请先调用 arthas_open(environment, pid)。");
    reveal_strlit("arthas_open");
    assert("该 JVM 尚未 attach arthas。请先调用 arthas_open(environment, pid)。"@.subrange(28, 39) =~= "arthas_open"@);
    assert(text::occurs_at("该 JVM 尚未 attach arthas。请先调用 arthas_open(environment, pid)。"@, "arthas_open"@, 28));
}

/// Whether a call ended in a refusal with a code, whose message holds a text.
pub open spec fn refuses(a: ArthasToolHandler<Seq<char>>, code: Seq<char>, part: Seq<char>) -> bool {
    a.stage matches ArthasStage::Ended { outcome: ArthasOutcome::Refused { code: k, message } } && k
        == code && text::contains(message, part)
}

/// An ended call stays as it is.
pub proof fn law_arthas_end_is_final(a: ArthasToolHandler<Seq<char>>, answer: Answer<Seq<char>>)
    requires
        a.stage is Ended,
    ensures
        arthas_after(a, answer) == a,
        arthas_request(a) is Finished,
{
}

// ---------------------------------------------------------------------------------------------
// The tools
// ---------------------------------------------------------------------------------------------

/// The name of a tool.
pub open spec fn tool_name(kind: ArthasToolKind) -> Seq<char> {
    match kind {
        ArthasToolKind::Open => "arthas_open"@,
        ArthasToolKind::Close => "arthas_close"@,
        ArthasToolKind::Dashboard => "arthas_dashboard"@,
        ArthasToolKind::Jvm => "arthas_jvm"@,
        ArthasToolKind::Memory => "arthas_memory"@,
        ArthasToolKind::Sysenv => "arthas_sysenv"@,
        ArthasToolKind::Perfcounter => "arthas_perfcounter"@,
        ArthasToolKind::Sc => "arthas_sc"@,
        ArthasToolKind::Sm => "arthas_sm"@,
        ArthasToolKind::Jad => "arthas_jad"@,
        ArthasToolKind::Classloader => "arthas_classloader"@,
        ArthasToolKind::Getstatic => "arthas_getstatic"@,
        ArthasToolKind::Mbean => "arthas_mbean"@,
        ArthasToolKind::Dump => "arthas_dump"@,
        ArthasToolKind::Thread => "arthas_thread"@,
        ArthasToolKind::Viewfile => "arthas_viewfile"@,
        ArthasToolKind::Options => "arthas_options"@,
        ArthasToolKind::Watch => "arthas_watch"@,
        ArthasToolKind::Trace => "arthas_trace"@,
        ArthasToolKind::Stack => "arthas_stack"@,
        ArthasToolKind::Monitor => "arthas_monitor"@,
        ArthasToolKind::Tt => "arthas_tt"@,
        ArthasToolKind::Ognl => "arthas_ognl"@,
        ArthasToolKind::Vmtool => "arthas_vmtool"@,
        ArthasToolKind::Sysprop => "arthas_sysprop"@,
        ArthasToolKind::Vmoption => "arthas_vmoption"@,
        ArthasToolKind::Profiler => "arthas_profiler"@,
    }
}

fn tool_name_text(kind: ArthasToolKind) -> (r: &'static str)
    ensures
        r@ == tool_name(kind),
{
    match kind {
        ArthasToolKind::Open => "arthas_open",
        ArthasToolKind::Close => "arthas_close",
        ArthasToolKind::Dashboard => "arthas_dashboard",
        ArthasToolKind::Jvm => "arthas_jvm",
        ArthasToolKind::Memory => "arthas_memory",
        ArthasToolKind::Sysenv => "arthas_sysenv",
        ArthasToolKind::Perfcounter => "arthas_perfcounter",
        ArthasToolKind::Sc => "arthas_sc",
        ArthasToolKind::Sm => "arthas_sm",
        ArthasToolKind::Jad => "arthas_jad",
        ArthasToolKind::Classloader => "arthas_classloader",
        ArthasToolKind::Getstatic => "arthas_getstatic",
        ArthasToolKind::Mbean => "arthas_mbean",
        ArthasToolKind::Dump => "arthas_dump",
        ArthasToolKind::Thread => "arthas_thread",
        ArthasToolKind::Viewfile => "arthas_viewfile",
        ArthasToolKind::Options => "arthas_options",
        ArthasToolKind::Watch => "arthas_watch",
        ArthasToolKind::Trace => "arthas_trace",
        ArthasToolKind::Stack => "arthas_stack",
        ArthasToolKind::Monitor => "arthas_monitor",
        ArthasToolKind::Tt => "arthas_tt",
        ArthasToolKind::Ognl => "arthas_ognl",
        ArthasToolKind::Vmtool => "arthas_vmtool",
        ArthasToolKind::Sysprop => "arthas_sysprop",
        ArthasToolKind::Vmoption => "arthas_vmoption",
        ArthasToolKind::Profiler => "arthas_profiler",
    }
}

/// What a tool is for.
pub open spec fn tool_purpose(kind: ArthasToolKind) -> Seq<char> {
    match kind {
        ArthasToolKind::Open => "attach arthas 到目标 JVM 并建立诊断通道（幂等，已 attach 秒回）。首次自动下发 arthas 工具包（内置随应用分发，无需 Artifactory；仅目标机无 java 需补装 JDK 时才依赖 Artifactory）；SSH 用户与 JVM 用户不一致时需要已录入对应用户凭证。加载 agent 侵入目标 JVM，需确认。容器环境：先 k8s_find_pods 定位 Pod，再带 pod + namespace 参数调用（首次自动装备 arthas 到 Pod）。"@,
        ArthasToolKind::Close => "停止目标 JVM 上的 arthas agent 并释放通道（卸载字节码增强与 agent，幂等）。诊断完成后调用，或留给空闲自动回收。"@,
        ArthasToolKind::Dashboard => "实时 JVM 面板：线程/内存/GC/运行环境概览。args: {interval?, num?}"@,
        ArthasToolKind::Jvm => "JVM 详细运行时信息（类加载/编译器/GC/线程/系统属性概览）。args: {}"@,
        ArthasToolKind::Memory => "JVM 内存使用：各分代/元空间/堆外。args: {}"@,
        ArthasToolKind::Sysenv => "查看目标 JVM 进程环境变量。args: {variable?}"@,
        ArthasToolKind::Perfcounter => "JVM Perf Counter 性能计数器信息。args: {}"@,
        ArthasToolKind::Sc => "搜索 JVM 已加载类，可看类详情（类加载器/父类/接口/字段）。args: {classPattern, details?, fields?}"@,
        ArthasToolKind::Sm => "搜索已加载类的方法信息（签名/参数/注解）。args: {classPattern, methodPattern?}"@,
        ArthasToolKind::Jad => "反编译指定已加载类（JVM 实际运行的字节码 → Java 源码）。args: {classPattern, methodName?}"@,
        ArthasToolKind::Classloader => "ClassLoader 诊断：统计/继承树/加载的 URL。args: {}"@,
        ArthasToolKind::Getstatic => "查看类的静态字段值。args: {className, field?, classloader?}"@,
        ArthasToolKind::Mbean => "查看/监控 MBean 属性信息。args: {name, attribute?, interval?}"@,
        ArthasToolKind::Dump => "导出指定类（已加载字节码）到目标机 arthas-output 目录，配合 arthas_viewfile/文件传输查看。args: {classPattern}"@,
        ArthasToolKind::Thread => "线程信息与堆栈：定位 BLOCKED/死锁/最忙线程。不支持 interrupt 子操作。args: {id?, state?, topN?}"@,
        ArthasToolKind::Viewfile => "查看目标机 arthas-output 目录内文件（profiler 火焰图等）。args: {file, cursor?, offset?}"@,
        ArthasToolKind::Options => "查看 arthas 全局开关选项。args: {option?, value?}"@,
        ArthasToolKind::Watch => "观察方法执行的入参/返回值/异常（实时，字节码增强）。args: {classPattern, methodPattern, express?, condition?}"@,
        ArthasToolKind::Trace => "追踪方法内部调用链与各级耗时，定位慢调用。args: {classPattern, methodPattern, condition?}"@,
        ArthasToolKind::Stack => "输出方法被调用的调用路径（谁调用了它）。args: {classPattern, methodPattern}"@,
        ArthasToolKind::Monitor => "监控方法调用统计：次数/成功率/平均 RT（周期采样）。args: {classPattern, methodPattern, interval?}"@,
        ArthasToolKind::Tt => "方法执行数据时空隧道：记录每次调用的入参/返回，可事后查看/重放。args: {classPattern, methodPattern, ...}"@,
        ArthasToolKind::Ognl => "执行 OGNL 表达式（可调用方法/读写字段，能力很强，需确认）。args: {express, classloader?}"@,
        ArthasToolKind::Vmtool => "VM 工具集：forceGc（强制 GC）/ getInstances（获取类实例）。不支持 interrupt。args: {action, className?, limit?}"@,
        ArthasToolKind::Sysprop => "查看/修改目标 JVM 系统属性（可写，需确认）。args: {name?, value?}"@,
        ArthasToolKind::Vmoption => "查看/更新目标 JVM VM 选项（可写，需确认）。args: {name?, value?}"@,
        ArthasToolKind::Profiler => "async-profiler 采样：CPU/alloc/lock，输出火焰图（到 arthas-output 目录，用 arthas_viewfile 或文件传输查看）。采样周期长，注意 timeout_secs。args: {action, event?, duration?}"@,
    }
}

fn tool_purpose_text(kind: ArthasToolKind) -> (r: &'static str)
    ensures
        r@ == tool_purpose(kind),
{
    match kind {
        ArthasToolKind::Open => "attach arthas 到目标 JVM 并建立诊断通道（幂等，已 attach 秒回）。首次自动下发 arthas 工具包（内置随应用分发，无需 Artifactory；仅目标机无 java 需补装 JDK 时才依赖 Artifactory）；SSH 用户与 JVM 用户不一致时需要已录入对应用户凭证。加载 agent 侵入目标 JVM，需确认。容器环境：先 k8s_find_pods 定位 Pod，再带 pod + namespace 参数调用（首次自动装备 arthas 到 Pod）。",
        ArthasToolKind::Close => "停止目标 JVM 上的 arthas agent 并释放通道（卸载字节码增强与 agent，幂等）。诊断完成后调用，或留给空闲自动回收。",
        ArthasToolKind::Dashboard => "实时 JVM 面板：线程/内存/GC/运行环境概览。args: {interval?, num?}",
        ArthasToolKind::Jvm => "JVM 详细运行时信息（类加载/编译器/GC/线程/系统属性概览）。args: {}",
        ArthasToolKind::Memory => "JVM 内存使用：各分代/元空间/堆外。args: {}",
        ArthasToolKind::Sysenv => "查看目标 JVM 进程环境变量。args: {variable?}",
        ArthasToolKind::Perfcounter => "JVM Perf Counter 性能计数器信息。args: {}",
        ArthasToolKind::Sc => "搜索 JVM 已加载类，可看类详情（类加载器/父类/接口/字段）。args: {classPattern, details?, fields?}",
        ArthasToolKind::Sm => "搜索已加载类的方法信息（签名/参数/注解）。args: {classPattern, methodPattern?}",
        ArthasToolKind::Jad => "反编译指定已加载类（JVM 实际运行的字节码 → Java 源码）。args: {classPattern, methodName?}",
        ArthasToolKind::Classloader => "ClassLoader 诊断：统计/继承树/加载的 URL。args: {}",
        ArthasToolKind::Getstatic => "查看类的静态字段值。args: {className, field?, classloader?}",
        ArthasToolKind::Mbean => "查看/监控 MBean 属性信息。args: {name, attribute?, interval?}",
        ArthasToolKind::Dump => "导出指定类（已加载字节码）到目标机 arthas-output 目录，配合 arthas_viewfile/文件传输查看。args: {classPattern}",
        ArthasToolKind::Thread => "线程信息与堆栈：定位 BLOCKED/死锁/最忙线程。不支持 interrupt 子操作。args: {id?, state?, topN?}",
        ArthasToolKind::Viewfile => "查看目标机 arthas-output 目录内文件（profiler 火焰图等）。args: {file, cursor?, offset?}",
        ArthasToolKind::Options => "查看 arthas 全局开关选项。args: {option?, value?}",
        ArthasToolKind::Watch => "观察方法执行的入参/返回值/异常（实时，字节码增强）。args: {classPattern, methodPattern, express?, condition?}",
        ArthasToolKind::Trace => "追踪方法内部调用链与各级耗时，定位慢调用。args: {classPattern, methodPattern, condition?}",
        ArthasToolKind::Stack => "输出方法被调用的调用路径（谁调用了它）。args: {classPattern, methodPattern}",
        ArthasToolKind::Monitor => "监控方法调用统计：次数/成功率/平均 RT（周期采样）。args: {classPattern, methodPattern, interval?}",
        ArthasToolKind::Tt => "方法执行数据时空隧道：记录每次调用的入参/返回，可事后查看/重放。args: {classPattern, methodPattern, ...}",
        ArthasToolKind::Ognl => "执行 OGNL 表达式（可调用方法/读写字段，能力很强，需确认）。args: {express, classloader?}",
        ArthasToolKind::Vmtool => "VM 工具集：forceGc（强制 GC）/ getInstances（获取类实例）。不支持 interrupt。args: {action, className?, limit?}",
        ArthasToolKind::Sysprop => "查看/修改目标 JVM 系统属性（可写，需确认）。args: {name?, value?}",
        ArthasToolKind::Vmoption => "查看/更新目标 JVM VM 选项（可写，需确认）。args: {name?, value?}",
        ArthasToolKind::Profiler => "async-profiler 采样：CPU/alloc/lock，输出火焰图（到 arthas-output 目录，用 arthas_viewfile 或文件传输查看）。采样周期长，注意 timeout_secs。args: {action, event?, duration?}",
    }
}

/// How much a tool may disturb its target.
pub open spec fn tool_risk(kind: ArthasToolKind) -> RiskLevel {
    match kind {
        ArthasToolKind::Open => RiskLevel::Low,
        ArthasToolKind::Watch => RiskLevel::Low,
        ArthasToolKind::Trace => RiskLevel::Low,
        ArthasToolKind::Stack => RiskLevel::Low,
        ArthasToolKind::Monitor => RiskLevel::Low,
        ArthasToolKind::Tt => RiskLevel::Low,
        ArthasToolKind::Ognl => RiskLevel::Low,
        ArthasToolKind::Vmtool => RiskLevel::Low,
        ArthasToolKind::Sysprop => RiskLevel::Low,
        ArthasToolKind::Vmoption => RiskLevel::Low,
        ArthasToolKind::Profiler => RiskLevel::Low,
        _ => RiskLevel::ReadOnly,
    }
}

fn tool_risk_level(kind: ArthasToolKind) -> (r: RiskLevel)
    ensures
        r == tool_risk(kind),
{
    match kind {
        ArthasToolKind::Open => RiskLevel::Low,
        ArthasToolKind::Watch => RiskLevel::Low,
        ArthasToolKind::Trace => RiskLevel::Low,
        ArthasToolKind::Stack => RiskLevel::Low,
        ArthasToolKind::Monitor => RiskLevel::Low,
        ArthasToolKind::Tt => RiskLevel::Low,
        ArthasToolKind::Ognl => RiskLevel::Low,
        ArthasToolKind::Vmtool => RiskLevel::Low,
        ArthasToolKind::Sysprop => RiskLevel::Low,
        ArthasToolKind::Vmoption => RiskLevel::Low,
        ArthasToolKind::Profiler => RiskLevel::Low,
        _ => RiskLevel::ReadOnly,
    }
}

/// The times of a tool.
pub open spec fn tool_times(kind: ArthasToolKind) -> Timeouts {
    match kind {
        ArthasToolKind::Open => OPEN,
        ArthasToolKind::Close => CLOSE,
        ArthasToolKind::Watch => STREAM,
        ArthasToolKind::Trace => STREAM,
        ArthasToolKind::Stack => STREAM,
        ArthasToolKind::Monitor => STREAM,
        ArthasToolKind::Tt => STREAM,
        ArthasToolKind::Profiler => PROFILER,
        _ => FAST,
    }
}

/// The times of a tool.
pub fn tool_timeouts(kind: ArthasToolKind) -> (r: Timeouts)
    ensures
        r == tool_times(kind),
{
    match kind {
        ArthasToolKind::Open => OPEN,
        ArthasToolKind::Close => CLOSE,
        ArthasToolKind::Watch => STREAM,
        ArthasToolKind::Trace => STREAM,
        ArthasToolKind::Stack => STREAM,
        ArthasToolKind::Monitor => STREAM,
        ArthasToolKind::Tt => STREAM,
        ArthasToolKind::Profiler => PROFILER,
        _ => FAST,
    }
}

/// How long the tools may take: looks are short, streams longer, samples longest; and a tool that
/// changes its target, or watches it at work, is no mere look.
pub proof fn law_tools_have_their_times(kind: ArthasToolKind)
    ensures
        tool_times(kind).0 <= tool_times(kind).1,
        tool_times(ArthasToolKind::Open) == (120u64, 300u64),
        tool_times(ArthasToolKind::Close) == (30u64, 60u64),
        tool_times(ArthasToolKind::Profiler) == (300u64, 1800u64),
        kind is Watch || kind is Trace || kind is Stack || kind is Monitor || kind is Tt
            ==> tool_times(kind) == (120u64, 600u64),
        tool_times(kind) == (120u64, 600u64) ==> kind is Watch || kind is Trace || kind is Stack
            || kind is Monitor || kind is Tt,
        tool_times(kind) == (300u64, 1800u64) ==> kind is Profiler,
        kind is Open || kind is Ognl || kind is Vmtool || kind is Sysprop || kind is Vmoption
            || kind is Profiler || tool_times(kind) == (120u64, 600u64) <==> tool_risk(kind) is Low,
{
}

/// A tool is named after what it does, and no two tools share a name.
pub proof fn law_tool_names_differ(a: ArthasToolKind, b: ArthasToolKind)
    requires
        tool_name(a) == tool_name(b),
    ensures
        a == b,
{
    lemma_tool_name_marks(a);
    lemma_tool_name_marks(b);
}

proof fn lemma_tool_name_marks(kind: ArthasToolKind)
    ensures
        ({
            let s = tool_name(kind);
            match kind {
                ArthasToolKind::Open => s.len() == 11 && s[7] == 'o' && s[8] == 'p',
                ArthasToolKind::Close => s.len() == 12 && s[7] == 'c' && s[8] == 'l',
                ArthasToolKind::Dashboard => s.len() == 16 && s[7] == 'd' && s[8] == 'a',
                ArthasToolKind::Jvm => s.len() == 10 && s[7] == 'j' && s[8] == 'v',
                ArthasToolKind::Memory => s.len() == 13 && s[7] == 'm' && s[8] == 'e',
                ArthasToolKind::Sysenv => s.len() == 13 && s[7] == 's' && s[8] == 'y',
                ArthasToolKind::Perfcounter => s.len() == 18 && s[7] == 'p' && s[8] == 'e',
                ArthasToolKind::Sc => s.len() == 9 && s[7] == 's' && s[8] == 'c',
                ArthasToolKind::Sm => s.len() == 9 && s[7] == 's' && s[8] == 'm',
                ArthasToolKind::Jad => s.len() == 10 && s[7] == 'j' && s[8] == 'a',
                ArthasToolKind::Classloader => s.len() == 18 && s[7] == 'c' && s[8] == 'l',
                ArthasToolKind::Getstatic => s.len() == 16 && s[7] == 'g' && s[8] == 'e',
                ArthasToolKind::Mbean => s.len() == 12 && s[7] == 'm' && s[8] == 'b',
                ArthasToolKind::Dump => s.len() == 11 && s[7] == 'd' && s[8] == 'u',
                ArthasToolKind::Thread => s.len() == 13 && s[7] == 't' && s[8] == 'h',
                ArthasToolKind::Viewfile => s.len() == 15 && s[7] == 'v' && s[8] == 'i',
                ArthasToolKind::Options => s.len() == 14 && s[7] == 'o' && s[8] == 'p',
                ArthasToolKind::Watch => s.len() == 12 && s[7] == 'w' && s[8] == 'a',
                ArthasToolKind::Trace => s.len() == 12 && s[7] == 't' && s[8] == 'r',
                ArthasToolKind::Stack => s.len() == 12 && s[7] == 's' && s[8] == 't',
                ArthasToolKind::Monitor => s.len() == 14 && s[7] == 'm' && s[8] == 'o',
                ArthasToolKind::Tt => s.len() == 9 && s[7] == 't' && s[8] == 't',
                ArthasToolKind::Ognl => s.len() == 11 && s[7] == 'o' && s[8] == 'g',
                ArthasToolKind::Vmtool => s.len() == 13 && s[7] == 'v' && s[8] == 'm',
                ArthasToolKind::Sysprop => s.len() == 14 && s[7] == 's' && s[8] == 'y',
                ArthasToolKind::Vmoption => s.len() == 15 && s[7] == 'v' && s[8] == 'm',
                ArthasToolKind::Profiler => s.len() == 15 && s[7] == 'p' && s[8] == 'r',
            }
        }),
{
    reveal_strlit("arthas_open");
    reveal_strlit("arthas_close");
    reveal_strlit("arthas_dashboard");
    reveal_strlit("arthas_jvm");
    reveal_strlit("arthas_memory");
    reveal_strlit("arthas_sysenv");
    reveal_strlit("arthas_perfcounter");
    reveal_strlit("arthas_sc");
    reveal_strlit("arthas_sm");
    reveal_strlit("arthas_jad");
    reveal_strlit("arthas_classloader");
    reveal_strlit("arthas_getstatic");
    reveal_strlit("arthas_mbean");
    reveal_strlit("arthas_dump");
    reveal_strlit("arthas_thread");
    reveal_strlit("arthas_viewfile");
    reveal_strlit("arthas_options");
    reveal_strlit("arthas_watch");
    reveal_strlit("arthas_trace");
    reveal_strlit("arthas_stack");
    reveal_strlit("arthas_monitor");
    reveal_strlit("arthas_tt");
    reveal_strlit("arthas_ognl");
    reveal_strlit("arthas_vmtool");
    reveal_strlit("arthas_sysprop");
    reveal_strlit("arthas_vmoption");
    reveal_strlit("arthas_profiler");
}

/// The properties that a tool takes.
pub open spec fn tool_props(kind: ArthasToolKind, times: Timeouts) -> Map<Seq<char>, Json> {
    let common = json::no_members().insert(
        "environment"@,
        output::prop("string"@, "目标环境名（来自 list_environments）"@),
    ).insert(
        "pid"@,
        output::prop("string"@, "目标 JVM 进程号（来自 list_processes）"@),
    ).insert(
        "pod"@,
        output::prop("string"@, "Kubernetes Pod 名（容器环境必填；虚机环境不支持；全小写，须为 k8s_find_pods 返回的准确名，勿用服务名）"@),
    ).insert(
        "namespace"@,
        output::prop("string"@, "Kubernetes namespace（容器环境必填；与 pod 一起来自 k8s_find_pods 返回；全小写）"@),
    ).insert(
        "container"@,
        output::prop("string"@, "容器名（多容器 Pod 时指定；缺省用 Pod 默认容器）"@),
    ).insert("timeout_secs"@, output::prop("integer"@, times_text(times.0, times.1)));
    match kind {
        ArthasToolKind::Open => common.insert(
            "java_bin"@,
            output::prop("string"@, "目标机 java 可执行文件路径（默认 java；目标机 PATH 无 java 时需指定）"@),
        ),
        ArthasToolKind::Close => common,
        _ => common.insert(
            "args"@,
            output::prop("object"@, "arthas 命令参数对象（字段与 arthas 命令选项一致，原样透传给 arthas）"@),
        ),
    }
}

/// A tool that diagnoses a JVM with arthas.
pub open spec fn tool_offer(
    name: Seq<char>,
    description: Seq<char>,
    risk: RiskLevel,
    times: Timeouts,
    kind: ArthasToolKind,
) -> Offer {
    Offer {
        name,
        description: if kind == ArthasToolKind::Open {
            description
        } else {
            with_pod_hint(description)
        },
        input_schema: output::object_schema(
            tool_props(kind, times),
            seq!["environment"@, "pid"@],
        ),
        risk_level: risk,
        category: ToolCategory::Arthas,
        needs_channel: false,
    }
}

/// The tool of a kind.
pub open spec fn kind_offer(kind: ArthasToolKind) -> Offer {
    tool_offer(tool_name(kind), tool_purpose(kind), tool_risk(kind), tool_times(kind), kind)
}

/// A tool that diagnoses a JVM with arthas.
pub fn arthas_tool_def(
    name: &str,
    description: &str,
    risk: RiskLevel,
    times: Timeouts,
    kind: ArthasToolKind,
) -> (r: ToolDef)
    ensures
        r@ == tool_offer(name@, description@, risk, times, kind),
{
    let mut props: serde_json::Map<String, serde_json::Value> = json::new_map();
    json::insert(
        &mut props,
        "environment",
        output::prop_value("string", "目标环境名（来自 list_environments）"),
    );
    json::insert(
        &mut props,
        "pid",
        output::prop_value("string", "目标 JVM 进程号（来自 list_processes）"),
    );
    json::insert(
        &mut props,
        "pod",
        output::prop_value("string", "Kubernetes Pod 名（容器环境必填；虚机环境不支持；全小写，须为 k8s_find_pods 返回的准确名，勿用服务名）"),
    );
    json::insert(
        &mut props,
        "namespace",
        output::prop_value("string", "Kubernetes namespace（容器环境必填；与 pod 一起来自 k8s_find_pods 返回；全小写）"),
    );
    json::insert(
        &mut props,
        "container",
        output::prop_value("string", "容器名（多容器 Pod 时指定；缺省用 Pod 默认容器）"),
    );
    json::insert(
        &mut props,
        "timeout_secs",
        output::prop_value("integer", times_value(times.0, times.1).as_str()),
    );
    match kind {
        ArthasToolKind::Open => {
            json::insert(
                &mut props,
                "java_bin",
                output::prop_value("string", "目标机 java 可执行文件路径（默认 java；目标机 PATH 无 java 时需指定）"),
            );
        },
        ArthasToolKind::Close => {},
        _ => {
            json::insert(
                &mut props,
                "args",
                output::prop_value("object", "arthas 命令参数对象（字段与 arthas 命令选项一致，原样透传给 arthas）"),
            );
        },
    }
    ToolDef {
        name: name.to_owned(),
        description: if kind == ArthasToolKind::Open {
            description.to_owned()
        } else {
            with_pod_hint_text(description)
        },
        input_schema: output::object_schema_value(props, &output::two("environment", "pid")),
        risk_level: risk,
        category: ToolCategory::Arthas,
        needs_channel: false,
    }
}

/// Every kind of tool, in the order in which the tools are offered.
pub open spec fn tool_kinds() -> Seq<ArthasToolKind> {
    seq![
        ArthasToolKind::Open,
        ArthasToolKind::Close,
        ArthasToolKind::Dashboard,
        ArthasToolKind::Jvm,
        ArthasToolKind::Memory,
        ArthasToolKind::Sysenv,
        ArthasToolKind::Perfcounter,
        ArthasToolKind::Sc,
        ArthasToolKind::Sm,
        ArthasToolKind::Jad,
        ArthasToolKind::Classloader,
        ArthasToolKind::Getstatic,
        ArthasToolKind::Mbean,
        ArthasToolKind::Dump,
        ArthasToolKind::Thread,
        ArthasToolKind::Viewfile,
        ArthasToolKind::Options,
        ArthasToolKind::Watch,
        ArthasToolKind::Trace,
        ArthasToolKind::Stack,
        ArthasToolKind::Monitor,
        ArthasToolKind::Tt,
        ArthasToolKind::Ognl,
        ArthasToolKind::Vmtool,
        ArthasToolKind::Sysprop,
        ArthasToolKind::Vmoption,
        ArthasToolKind::Profiler,
    ]
}

fn all_kinds() -> (r: Vec<ArthasToolKind>)
    ensures
        r@ == tool_kinds(),
{
    vec![
        ArthasToolKind::Open,
        ArthasToolKind::Close,
        ArthasToolKind::Dashboard,
        ArthasToolKind::Jvm,
        ArthasToolKind::Memory,
        ArthasToolKind::Sysenv,
        ArthasToolKind::Perfcounter,
        ArthasToolKind::Sc,
        ArthasToolKind::Sm,
        ArthasToolKind::Jad,
        ArthasToolKind::Classloader,
        ArthasToolKind::Getstatic,
        ArthasToolKind::Mbean,
        ArthasToolKind::Dump,
        ArthasToolKind::Thread,
        ArthasToolKind::Viewfile,
        ArthasToolKind::Options,
        ArthasToolKind::Watch,
        ArthasToolKind::Trace,
        ArthasToolKind::Stack,
        ArthasToolKind::Monitor,
        ArthasToolKind::Tt,
        ArthasToolKind::Ognl,
        ArthasToolKind::Vmtool,
        ArthasToolKind::Sysprop,
        ArthasToolKind::Vmoption,
        ArthasToolKind::Profiler,
    ]
}

/// The tools that diagnose a JVM with arthas.
pub fn register_all() -> (r: Vec<ToolDef>)
    ensures
        output::offers(r@) == tool_kinds().map_values(|k: ArthasToolKind| kind_offer(k)),
{
    let kinds: Vec<ArthasToolKind> = all_kinds();
    let mut tools: Vec<ToolDef> = Vec::new();
    let mut i: usize = 0;
    while i < kinds.len()
        invariant
            i <= kinds@.len(),
            kinds@ == tool_kinds(),
            tools@.len() == i,
            forall|j: int| 0 <= j < i ==> (#[trigger] tools@[j])@ == kind_offer(kinds@[j]),
        decreases kinds@.len() - i,
    {
        let kind: ArthasToolKind = kinds[i];
        tools.push(
            arthas_tool_def(
                tool_name_text(kind),
                tool_purpose_text(kind),
                tool_risk_level(kind),
                tool_timeouts(kind),
                kind,
            ),
        );
        i = i + 1;
    }
    proof {
        assert(output::offers(tools@) =~= tool_kinds().map_values(
            |k: ArthasToolKind| kind_offer(k),
        ));
    }
    tools
}

/// Every tool takes a pod, its namespace and a container.
pub proof fn law_every_tool_takes_a_pod(kind: ArthasToolKind, times: Timeouts)
    ensures
        tool_props(kind, times).contains_key("pod"@),
        tool_props(kind, times).contains_key("namespace"@),
        tool_props(kind, times).contains_key("container"@),
{
}

/// Every tool takes an environment and a process, which it needs, a target in a pod and a time
/// limit. Opening a session also takes a java, and a command its own arguments; nothing takes
/// anything else.
pub proof fn law_arthas_tools_say_what_they_take(kind: ArthasToolKind, key: Seq<char>)
    ensures
        ({
            let o = kind_offer(kind);
            &&& o.name == tool_name(kind)
            &&& output::parameter(o, "environment"@) == Some("string"@)
            &&& output::parameter(o, "pid"@) == Some("string"@)
            &&& output::parameter(o, "pod"@) == Some("string"@)
            &&& output::parameter(o, "namespace"@) == Some("string"@)
            &&& output::parameter(o, "container"@) == Some("string"@)
            &&& output::parameter(o, "timeout_secs"@) == Some("integer"@)
            &&& output::parameter(o, "java_bin"@) == if kind == ArthasToolKind::Open {
                Some("string"@)
            } else {
                None
            }
            &&& output::parameter(o, "args"@) == if kind == ArthasToolKind::Open || kind
                == ArthasToolKind::Close {
                None
            } else {
                Some("object"@)
            }
            &&& key != "environment"@ && key != "pid"@ && key != "pod"@ && key != "namespace"@ && key != "container"@ && key != "timeout_secs"@ && key != "java_bin"@ && key != "args"@
                ==> output::parameter(o, key) is None
            &&& output::required_parameters(o) == Some(json::texts(seq!["environment"@, "pid"@]))
            &&& o.category == ToolCategory::Arthas
            &&& !o.needs_channel
        }),
{
    let o = kind_offer(kind);
    let times = tool_times(kind);
    let props = tool_props(kind, times);
    reveal_strlit("environment");
    reveal_strlit("pid");
    reveal_strlit("pod");
    reveal_strlit("namespace");
    reveal_strlit("container");
    reveal_strlit("timeout_secs");
    reveal_strlit("java_bin");
    reveal_strlit("args");
    assert("environment"@.len() != "pid"@.len());
    assert("environment"@.len() != "pod"@.len());
    assert("environment"@.len() != "namespace"@.len());
    assert("environment"@.len() != "container"@.len());
    assert("environment"@.len() != "timeout_secs"@.len());
    assert("environment"@.len() != "java_bin"@.len());
    assert("environment"@.len() != "args"@.len());
    assert("pid"@[1] != "pod"@[1]);
    assert("pid"@.len() != "namespace"@.len());
    assert("pid"@.len() != "container"@.len());
    assert("pid"@.len() != "timeout_secs"@.len());
    assert("pid"@.len() != "java_bin"@.len());
    assert("pid"@.len() != "args"@.len());
    assert("pod"@.len() != "namespace"@.len());
    assert("pod"@.len() != "container"@.len());
    assert("pod"@.len() != "timeout_secs"@.len());
    assert("pod"@.len() != "java_bin"@.len());
    assert("pod"@.len() != "args"@.len());
    assert("namespace"@[0] != "container"@[0]);
    assert("namespace"@.len() != "timeout_secs"@.len());
    assert("namespace"@.len() != "java_bin"@.len());
    assert("namespace"@.len() != "args"@.len());
    assert("container"@.len() != "timeout_secs"@.len());
    assert("container"@.len() != "java_bin"@.len());
    assert("container"@.len() != "args"@.len());
    assert("timeout_secs"@.len() != "java_bin"@.len());
    assert("timeout_secs"@.len() != "args"@.len());
    assert("java_bin"@.len() != "args"@.len());
    output::law_schema_lists_its_properties(o, props, seq!["environment"@, "pid"@], "environment"@);
    output::law_schema_lists_its_properties(o, props, seq!["environment"@, "pid"@], "pid"@);
    output::law_schema_lists_its_properties(o, props, seq!["environment"@, "pid"@], "pod"@);
    output::law_schema_lists_its_properties(o, props, seq!["environment"@, "pid"@], "namespace"@);
    output::law_schema_lists_its_properties(o, props, seq!["environment"@, "pid"@], "container"@);
    output::law_schema_lists_its_properties(o, props, seq!["environment"@, "pid"@], "timeout_secs"@);
    output::law_schema_lists_its_properties(o, props, seq!["environment"@, "pid"@], "java_bin"@);
    output::law_schema_lists_its_properties(o, props, seq!["environment"@, "pid"@], "args"@);
    output::law_schema_lists_its_properties(o, props, seq!["environment"@, "pid"@], key);
    output::law_property_says_its_type("string"@, "目标环境名（来自 list_environments）"@);
    output::law_property_says_its_type("string"@, "目标 JVM 进程号（来自 list_processes）"@);
    output::law_property_says_its_type("string"@, "Kubernetes Pod 名（容器环境必填；虚机环境不支持；全小写，须为 k8s_find_pods 返回的准确名，勿用服务名）"@);
    output::law_property_says_its_type("string"@, "Kubernetes namespace（容器环境必填；与 pod 一起来自 k8s_find_pods 返回；全小写）"@);
    output::law_property_says_its_type("string"@, "容器名（多容器 Pod 时指定；缺省用 Pod 默认容器）"@);
    output::law_property_says_its_type("integer"@, times_text(times.0, times.1));
    output::law_property_says_its_type("string"@, "目标机 java 可执行文件路径（默认 java；目标机 PATH 无 java 时需指定）"@);
    output::law_property_says_its_type("object"@, "arthas 命令参数对象（字段与 arthas 命令选项一致，原样透传给 arthas）"@);
}

/// Every kind of tool is offered, each once, and tells what it is for; all but the opening of a session
/// also tell that they take the pod of the session.
pub proof fn law_every_arthas_tool_is_offered(kind: ArthasToolKind)
    ensures
        tool_kinds().contains(kind),
        tool_kinds().no_duplicates(),
        text::starts(kind_offer(kind).description, tool_purpose(kind)),
        kind != ArthasToolKind::Open ==> text::contains(
            kind_offer(kind).description,
            "容器环境需带与 arthas_open 相同的 pod/namespace 参数。"@,
        ),
        kind_offer(kind).risk_level == tool_risk(kind),
{
    let i: int = match kind {
        ArthasToolKind::Open => 0,
        ArthasToolKind::Close => 1,
        ArthasToolKind::Dashboard => 2,
        ArthasToolKind::Jvm => 3,
        ArthasToolKind::Memory => 4,
        ArthasToolKind::Sysenv => 5,
        ArthasToolKind::Perfcounter => 6,
        ArthasToolKind::Sc => 7,
        ArthasToolKind::Sm => 8,
        ArthasToolKind::Jad => 9,
        ArthasToolKind::Classloader => 10,
        ArthasToolKind::Getstatic => 11,
        ArthasToolKind::Mbean => 12,
        ArthasToolKind::Dump => 13,
        ArthasToolKind::Thread => 14,
        ArthasToolKind::Viewfile => 15,
        ArthasToolKind::Options => 16,
        ArthasToolKind::Watch => 17,
        ArthasToolKind::Trace => 18,
        ArthasToolKind::Stack => 19,
        ArthasToolKind::Monitor => 20,
        ArthasToolKind::Tt => 21,
        ArthasToolKind::Ognl => 22,
        ArthasToolKind::Vmtool => 23,
        ArthasToolKind::Sysprop => 24,
        ArthasToolKind::Vmoption => 25,
        ArthasToolKind::Profiler => 26,
    };
    assert(tool_kinds()[i] == kind);
    let hint = "容器环境需带与 arthas_open 相同的 pod/namespace 参数。"@;
    text::lemma_start(tool_purpose(kind), hint);
    text::lemma_part(tool_purpose(kind), hint);
    let all = tool_purpose(kind);
    assert(all.take(all.len() as int) =~= all);
}

} // verus!
