//! The tool that lists processes.

use vstd::prelude::*;

use crate::exec::ssh;
use crate::flow::Output;
use crate::json;
use crate::json::Json;
use crate::text;
use crate::tools::call::{Answer, Ask};
use crate::tools::output;
use crate::tools::output::{Offer, RiskLevel, Shown, ToolCategory, ToolDef, ToolOutput};

verus! {

/// How long the listing may take unless a time is given, in seconds.
pub const DEFAULT_TIMEOUT_SECS: u64 = 30;

/// How long the listing may take at most, in seconds.
pub const MAX_TIMEOUT_SECS: u64 = 120;

/// The command that lists every process.
pub const LIST_ALL: &'static str = "ps -eo pid=,user=,args=";

pub open spec fn list_matching(keyword: Seq<char>) -> Seq<char> {
    "ps -eo pid=,user=,args= | grep -i "@ + ssh::shell_quote(keyword) + " | grep -v grep"@
}

fn list_matching_text(keyword: &str) -> (r: String)
    ensures
        r@ == list_matching(keyword@),
{
    "ps -eo pid=,user=,args= | grep -i ".to_owned()
        .concat(ssh::shell_quote_single(keyword).as_str())
        .concat(" | grep -v grep")
}

/// The command that lists processes: those that match a keyword, where there is one.
pub open spec fn list_command(keyword: Option<Seq<char>>) -> Seq<char> {
    match keyword {
        Some(k) => list_matching(k),
        None => LIST_ALL@,
    }
}

/// The command that lists processes.
pub fn list_processes_command(keyword: Option<&str>) -> (r: String)
    ensures
        r@ == list_command(text::opt_str(keyword)),
{
    match keyword {
        Some(k) => list_matching_text(k),
        None => LIST_ALL.to_owned(),
    }
}

/// The command that lists every process in a container whose `ps` is a small one.
pub const LIST_PLAIN: &'static str = "ps -o pid,user,args";

pub open spec fn plain_matching(keyword: Seq<char>) -> Seq<char> {
    "ps -o pid,user,args | grep -i "@ + ssh::shell_quote(keyword) + " | grep -v grep"@
}

fn plain_matching_text(keyword: &str) -> (r: String)
    ensures
        r@ == plain_matching(keyword@),
{
    "ps -o pid,user,args | grep -i ".to_owned()
        .concat(ssh::shell_quote_single(keyword).as_str())
        .concat(" | grep -v grep")
}

/// The command that lists processes in a container whose `ps` is a small one.
pub open spec fn plain_command(keyword: Option<Seq<char>>) -> Seq<char> {
    match keyword {
        Some(k) => plain_matching(k),
        None => LIST_PLAIN@,
    }
}

/// The command that lists processes in a container whose `ps` is a small one.
pub fn plain_processes_command(keyword: Option<&str>) -> (r: String)
    ensures
        r@ == plain_command(text::opt_str(keyword)),
{
    match keyword {
        Some(k) => plain_matching_text(k),
        None => LIST_PLAIN.to_owned(),
    }
}

/// Whether `ps` did not take its options: the command failed, and `ps` had something to say.
pub open spec fn ps_refused(out: Output<Seq<char>>) -> bool {
    out.exit_code != 0 && text::contains(out.stderr, "ps:"@)
}

fn refused_by_ps(out: &Output<String>) -> (r: bool)
    ensures
        r == ps_refused(out@),
{
    out.exit_code != 0 && text::has(out.stderr.as_str(), "ps:")
}

/// Whether a line is the header of a listing.
pub open spec fn is_header(line: Seq<char>) -> bool {
    text::words(line).len() > 0 && text::words(line)[0] == "PID"@
}

fn header_line(line: &str) -> (r: bool)
    ensures
        r == is_header(line@),
{
    let words: Vec<String> = text::words_of(line);
    proof {
        assert(text::views(words@).len() == words@.len());
        assert(words@.len() > 0 ==> text::views(words@)[0] == words@[0]@);
    }
    words.len() > 0 && text::same(words[0].as_str(), "PID")
}

/// A listing without the header that it may begin with.
pub open spec fn without_header(stdout: Seq<char>) -> Seq<char> {
    match text::split_once(stdout, "\n"@) {
        Some((first, rest)) => if is_header(first) {
            rest
        } else {
            stdout
        },
        None => if is_header(stdout) {
            Seq::empty()
        } else {
            stdout
        },
    }
}

/// A listing without the header that it may begin with.
pub fn drop_header(stdout: &str) -> (r: String)
    ensures
        r@ == without_header(stdout@),
{
    match text::split_at_first(stdout, "\n") {
        Some((first, rest)) => if header_line(first.as_str()) {
            rest
        } else {
            stdout.to_owned()
        },
        None => if header_line(stdout) {
            String::new()
        } else {
            stdout.to_owned()
        },
    }
}

/// Whether a line is kept: it holds the keyword, in any case.
pub open spec fn line_kept(line: Seq<char>, keyword: Option<Seq<char>>) -> bool {
    match keyword {
        Some(k) => text::contains(text::lowercase(line), text::lowercase(k)),
        None => true,
    }
}

/// The lines that are kept.
pub open spec fn kept_lines(lines: Seq<Seq<char>>, keyword: Option<Seq<char>>) -> Seq<Seq<char>>
    decreases lines.len(),
{
    if lines.len() == 0 {
        Seq::empty()
    } else if line_kept(lines.last(), keyword) {
        kept_lines(lines.drop_last(), keyword).push(lines.last())
    } else {
        kept_lines(lines.drop_last(), keyword)
    }
}

/// Lines, with line breaks between them.
pub open spec fn joined(lines: Seq<Seq<char>>) -> Seq<char>
    decreases lines.len(),
{
    if lines.len() == 0 {
        Seq::empty()
    } else if lines.len() == 1 {
        lines[0]
    } else {
        joined(lines.drop_last()) + "\n"@ + lines.last()
    }
}

/// The processes among the lines that a command printed: the text of those lines, and how many.
pub fn filter_processes(stdout: &str, keyword: Option<&str>) -> (r: (String, usize))
    ensures
        r.0@ == joined(kept_lines(text::lines(stdout@), text::opt_str(keyword))),
        r.1 == kept_lines(text::lines(stdout@), text::opt_str(keyword)).len(),
{
    let lower: Option<String> = match keyword {
        Some(k) => Some(text::to_lower(k)),
        None => None,
    };
    let lines: Vec<String> = text::lines_of(stdout);
    let ghost all = text::lines(stdout@);
    let ghost kw = text::opt_str(keyword);
    let mut out: String = String::new();
    let mut n: usize = 0;
    let mut i: usize = 0;
    proof {
        assert(all.take(0) =~= Seq::<Seq<char>>::empty());
        assert(out@ =~= Seq::<char>::empty());
    }
    while i < lines.len()
        invariant
            text::views(lines@) == all,
            all.len() == lines@.len(),
            i <= lines@.len(),
            n <= i,
            match keyword {
                Some(k) => kw == Some(k@) && (lower matches Some(l) && l@ == text::lowercase(k@)),
                None => kw is None && lower is None,
            },
            n == kept_lines(all.take(i as int), kw).len(),
            out@ == joined(kept_lines(all.take(i as int), kw)),
        decreases lines@.len() - i,
    {
        let ghost before = kept_lines(all.take(i as int), kw);
        proof {
            assert(all[i as int] == lines@[i as int]@);
            assert(all.take(i as int + 1).drop_last() =~= all.take(i as int));
            assert(all.take(i as int + 1).last() == all[i as int]);
            assert(before.push(all[i as int]).drop_last() =~= before);
        }
        let keep: bool = match &lower {
            Some(l) => text::has(text::to_lower(lines[i].as_str()).as_str(), l.as_str()),
            None => true,
        };
        if keep {
            if n == 0 {
                out = lines[i].clone();
            } else {
                out = out.concat("\n").concat(lines[i].as_str());
            }
            n = n + 1;
        }
        i = i + 1;
    }
    proof {
        assert(all.take(i as int) =~= all);
    }
    (out, n)
}

/// A kept line was printed, and holds the keyword.
pub proof fn law_kept_lines_match(lines: Seq<Seq<char>>, keyword: Option<Seq<char>>, line: Seq<char>)
    requires
        kept_lines(lines, keyword).contains(line),
    ensures
        lines.contains(line),
        line_kept(line, keyword),
    decreases lines.len(),
{
    let rest = lines.drop_last();
    let kept = kept_lines(rest, keyword);
    let i = choose|i: int|
        0 <= i < kept_lines(lines, keyword).len() && kept_lines(lines, keyword)[i] == line;
    if line_kept(lines.last(), keyword) && i == kept.len() {
        assert(lines[lines.len() - 1] == line);
    } else {
        assert(kept[i] == line);
        law_kept_lines_match(rest, keyword, line);
        let j = choose|j: int| 0 <= j < rest.len() && rest[j] == line;
        assert(lines[j] == line);
    }
}

/// Without a keyword every line is kept.
pub proof fn law_no_keyword_keeps_all(lines: Seq<Seq<char>>)
    ensures
        kept_lines(lines, None) == lines,
    decreases lines.len(),
{
    if lines.len() > 0 {
        law_no_keyword_keeps_all(lines.drop_last());
        assert(lines.drop_last().push(lines.last()) =~= lines);
    } else {
        assert(lines =~= Seq::<Seq<char>>::empty());
    }
}

/// Whatever the keyword holds, the shell reads it as one word.
pub proof fn law_keyword_is_one_word(keyword: Seq<char>)
    ensures
        list_command(Some(keyword)) == "ps -eo pid=,user=,args= | grep -i "@ + ssh::shell_quote(
            keyword,
        ) + " | grep -v grep"@,
        ssh::sh_word(ssh::shell_quote(keyword), false) == Some(keyword),
{
    ssh::law_quote_round_trip(keyword);
}

// ---------------------------------------------------------------------------------------------
// A call
// ---------------------------------------------------------------------------------------------

/// What a call came to.
#[derive(Debug, PartialEq, Eq)]
pub enum ProcessesOutcome<S> {
    /// It was refused or failed.
    Refused { code: S, message: S },
    /// The command ran. `headed` says that the listing may begin with a header.
    Listed { cmd: S, keyword: Option<S>, out: Output<S>, headed: bool, elapsed_ms: u64 },
}

/// Where a call stands.
#[derive(Debug, PartialEq, Eq)]
pub enum ProcessesStage<S> {
    /// Find the environment.
    Resolve,
    /// Does the target fit it?
    Check,
    /// List.
    Run,
    /// List again, for a small `ps`. The first listing took so many milliseconds.
    RunPlain { spent_ms: u64 },
    /// Drop the channel of a command that did not end.
    Drop,
    /// Drop the channel of a second command that did not end.
    DropPlain,
    /// It is over.
    Ended { outcome: ProcessesOutcome<S> },
}

/// A call of the tool that lists processes.
#[derive(Debug, PartialEq, Eq)]
pub struct ListProcessesHandler<S> {
    pub environment: S,
    pub keyword: Option<S>,
    pub pod: Option<S>,
    pub namespace: Option<S>,
    pub container: Option<S>,
    pub secs: u64,
    pub stage: ProcessesStage<S>,
}

impl View for ProcessesOutcome<String> {
    type V = ProcessesOutcome<Seq<char>>;

    open spec fn view(&self) -> ProcessesOutcome<Seq<char>> {
        match *self {
            ProcessesOutcome::Refused { code, message } => ProcessesOutcome::Refused {
                code: code@,
                message: message@,
            },
            ProcessesOutcome::Listed {
                cmd,
                keyword,
                out,
                headed,
                elapsed_ms,
            } => ProcessesOutcome::Listed {
                cmd: cmd@,
                keyword: text::opt(keyword),
                out: out@,
                headed,
                elapsed_ms,
            },
        }
    }
}

impl View for ProcessesStage<String> {
    type V = ProcessesStage<Seq<char>>;

    open spec fn view(&self) -> ProcessesStage<Seq<char>> {
        match *self {
            ProcessesStage::Resolve => ProcessesStage::Resolve,
            ProcessesStage::Check => ProcessesStage::Check,
            ProcessesStage::Run => ProcessesStage::Run,
            ProcessesStage::RunPlain { spent_ms } => ProcessesStage::RunPlain { spent_ms },
            ProcessesStage::Drop => ProcessesStage::Drop,
            ProcessesStage::DropPlain => ProcessesStage::DropPlain,
            ProcessesStage::Ended { outcome } => ProcessesStage::Ended { outcome: outcome@ },
        }
    }
}

impl View for ListProcessesHandler<String> {
    type V = ListProcessesHandler<Seq<char>>;

    open spec fn view(&self) -> ListProcessesHandler<Seq<char>> {
        ListProcessesHandler {
            environment: self.environment@,
            keyword: text::opt(self.keyword),
            pod: text::opt(self.pod),
            namespace: text::opt(self.namespace),
            container: text::opt(self.container),
            secs: self.secs,
            stage: self.stage@,
        }
    }
}

/// A refusal.
pub open spec fn refused(code: Seq<char>, message: Seq<char>) -> ProcessesStage<Seq<char>> {
    ProcessesStage::Ended { outcome: ProcessesOutcome::Refused { code, message } }
}

/// The call that arguments ask for.
pub open spec fn processes_start(args: Json) -> ListProcessesHandler<Seq<char>> {
    let environment = json::text_of(json::member(args, "environment"@));
    ListProcessesHandler {
        environment: match environment {
            Some(e) => e,
            None => Seq::empty(),
        },
        keyword: output::filled_arg(args, "keyword"@),
        pod: output::filled_arg(args, "pod"@),
        namespace: output::filled_arg(args, "namespace"@),
        container: output::filled_arg(args, "container"@),
        secs: output::asked_secs(args, DEFAULT_TIMEOUT_SECS, MAX_TIMEOUT_SECS) as u64,
        stage: if environment is Some {
            ProcessesStage::Resolve
        } else {
            refused("invalid_params"@, "missing required parameter: environment"@)
        },
    }
}

/// What a call asks for where it stands.
pub open spec fn processes_request(p: ListProcessesHandler<Seq<char>>) -> Ask<Seq<char>> {
    match p.stage {
        ProcessesStage::Resolve => Ask::Resolve {
            environment: p.environment,
            pod: p.pod,
            namespace: p.namespace,
            container: p.container,
        },
        ProcessesStage::Check => Ask::CheckTarget {
            pod: p.pod,
            namespace: p.namespace,
            container: p.container,
        },
        ProcessesStage::Run => Ask::Run { cmd: list_command(p.keyword), secs: Some(p.secs) },
        ProcessesStage::RunPlain { spent_ms } => Ask::Run {
            cmd: plain_command(p.keyword),
            secs: Some(p.secs),
        },
        ProcessesStage::Drop => Ask::DropAndKill { cmd: list_command(p.keyword) },
        ProcessesStage::DropPlain => Ask::DropAndKill { cmd: plain_command(p.keyword) },
        ProcessesStage::Ended { outcome } => Ask::Finished,
    }
}

/// Two times together, as far as the number goes.
pub open spec fn both_times(a: u64, b: u64) -> u64 {
    if a + b > u64::MAX {
        u64::MAX
    } else {
        (a + b) as u64
    }
}

/// Where an answer leads.
pub open spec fn processes_next(
    p: ListProcessesHandler<Seq<char>>,
    answer: Answer<Seq<char>>,
) -> ProcessesStage<Seq<char>> {
    match (p.stage, answer) {
        (ProcessesStage::Resolve, Answer::Resolved { resolved }) => match resolved {
            Ok(Some(_)) => ProcessesStage::Check,
            Ok(None) => refused(
                "environment_not_found"@,
                output::unknown_environment(p.environment),
            ),
            Err(e) => refused("connection_error"@, e),
        },
        (ProcessesStage::Check, Answer::Checked { checked }) => match checked {
            Ok(_) => ProcessesStage::Run,
            Err(e) => refused("environment_type_mismatch"@, e),
        },
        (ProcessesStage::Run, Answer::TimedOut) => ProcessesStage::Drop,
        (ProcessesStage::Run, Answer::Ran { ran, elapsed_ms }) => match ran {
            Ok(out) => if p.pod is Some && ps_refused(out) {
                ProcessesStage::RunPlain { spent_ms: elapsed_ms }
            } else {
                ProcessesStage::Ended {
                    outcome: ProcessesOutcome::Listed {
                        cmd: list_command(p.keyword),
                        keyword: p.keyword,
                        out,
                        headed: false,
                        elapsed_ms,
                    },
                }
            },
            Err(e) => refused("connection_error"@, e),
        },
        (ProcessesStage::RunPlain { spent_ms }, Answer::TimedOut) => ProcessesStage::DropPlain,
        (ProcessesStage::RunPlain { spent_ms }, Answer::Ran { ran, elapsed_ms }) => match ran {
            Ok(out) => ProcessesStage::Ended {
                outcome: ProcessesOutcome::Listed {
                    cmd: plain_command(p.keyword),
                    keyword: p.keyword,
                    out,
                    headed: true,
                    elapsed_ms: both_times(spent_ms, elapsed_ms),
                },
            },
            Err(e) => refused("connection_error"@, e),
        },
        (ProcessesStage::Drop, Answer::Done) => refused(
            "timeout_error"@,
            output::command_timeout(p.secs),
        ),
        (ProcessesStage::DropPlain, Answer::Done) => refused(
            "timeout_error"@,
            output::command_timeout(p.secs),
        ),
        _ => p.stage,
    }
}

/// The call after an answer.
pub open spec fn processes_after(
    p: ListProcessesHandler<Seq<char>>,
    answer: Answer<Seq<char>>,
) -> ListProcessesHandler<Seq<char>> {
    ListProcessesHandler { stage: processes_next(p, answer), ..p }
}

fn refuse(code: &str, message: &str) -> (r: ProcessesStage<String>)
    ensures
        r@ == refused(code@, message@),
{
    ProcessesStage::Ended {
        outcome: ProcessesOutcome::Refused { code: code.to_owned(), message: message.to_owned() },
    }
}

impl ListProcessesHandler<String> {
    /// Begins the call that arguments ask for.
    pub fn execute(args: &serde_json::Value) -> (r: Self)
        ensures
            r@ == processes_start(json::view_of(*args)),
    {
        let environment: Option<&str> = json::text_arg(args, "environment");
        ListProcessesHandler {
            environment: match environment {
                Some(e) => e.to_owned(),
                None => String::new(),
            },
            keyword: text::own_opt(output::filled_text_arg(args, "keyword")),
            pod: text::own_opt(output::filled_text_arg(args, "pod")),
            namespace: text::own_opt(output::filled_text_arg(args, "namespace")),
            container: text::own_opt(output::filled_text_arg(args, "container")),
            secs: output::timeout_arg(args, DEFAULT_TIMEOUT_SECS, MAX_TIMEOUT_SECS),
            stage: if environment.is_some() {
                ProcessesStage::Resolve
            } else {
                refuse("invalid_params", "missing required parameter: environment")
            },
        }
    }

    /// What is asked for.
    pub fn request(&self) -> (r: Ask<String>)
        ensures
            r@ == processes_request(self@),
    {
        match &self.stage {
            ProcessesStage::Resolve => Ask::Resolve {
                environment: self.environment.clone(),
                pod: text::copy_opt(&self.pod),
                namespace: text::copy_opt(&self.namespace),
                container: text::copy_opt(&self.container),
            },
            ProcessesStage::Check => Ask::CheckTarget {
                pod: text::copy_opt(&self.pod),
                namespace: text::copy_opt(&self.namespace),
                container: text::copy_opt(&self.container),
            },
            ProcessesStage::Run => Ask::Run {
                cmd: list_processes_command(text::as_str_opt(&self.keyword)),
                secs: Some(self.secs),
            },
            ProcessesStage::RunPlain { spent_ms: _ } => Ask::Run {
                cmd: plain_processes_command(text::as_str_opt(&self.keyword)),
                secs: Some(self.secs),
            },
            ProcessesStage::Drop => Ask::DropAndKill {
                cmd: list_processes_command(text::as_str_opt(&self.keyword)),
            },
            ProcessesStage::DropPlain => Ask::DropAndKill {
                cmd: plain_processes_command(text::as_str_opt(&self.keyword)),
            },
            ProcessesStage::Ended { outcome: _ } => Ask::Finished,
        }
    }

    /// Takes the answer to what was asked for.
    pub fn step(self, answer: Answer<String>) -> (r: Self)
        ensures
            r@ == processes_after(self@, answer@),
    {
        let stage: ProcessesStage<String> = match (self.stage, answer) {
            (ProcessesStage::Resolve, Answer::Resolved { resolved }) => match resolved {
                Ok(Some(_)) => ProcessesStage::Check,
                Ok(None) => refuse(
                    "environment_not_found",
                    output::unknown_environment_text(self.environment.as_str()).as_str(),
                ),
                Err(e) => refuse("connection_error", e.as_str()),
            },
            (ProcessesStage::Check, Answer::Checked { checked }) => match checked {
                Ok(_) => ProcessesStage::Run,
                Err(e) => refuse("environment_type_mismatch", e.as_str()),
            },
            (ProcessesStage::Run, Answer::TimedOut) => ProcessesStage::Drop,
            (ProcessesStage::Run, Answer::Ran { ran, elapsed_ms }) => match ran {
                Ok(out) => if self.pod.is_some() && refused_by_ps(&out) {
                    ProcessesStage::RunPlain { spent_ms: elapsed_ms }
                } else {
                    ProcessesStage::Ended {
                        outcome: ProcessesOutcome::Listed {
                            cmd: list_processes_command(text::as_str_opt(&self.keyword)),
                            keyword: text::copy_opt(&self.keyword),
                            out,
                            headed: false,
                            elapsed_ms,
                        },
                    }
                },
                Err(e) => refuse("connection_error", e.as_str()),
            },
            (ProcessesStage::RunPlain { spent_ms: _ }, Answer::TimedOut) => ProcessesStage::DropPlain,
            (ProcessesStage::RunPlain { spent_ms }, Answer::Ran { ran, elapsed_ms }) => match ran {
                Ok(out) => ProcessesStage::Ended {
                    outcome: ProcessesOutcome::Listed {
                        cmd: plain_processes_command(text::as_str_opt(&self.keyword)),
                        keyword: text::copy_opt(&self.keyword),
                        out,
                        headed: true,
                        elapsed_ms: spent_ms.saturating_add(elapsed_ms),
                    },
                },
                Err(e) => refuse("connection_error", e.as_str()),
            },
            (ProcessesStage::Drop, Answer::Done) => refuse(
                "timeout_error",
                output::command_timeout_text(self.secs).as_str(),
            ),
            (ProcessesStage::DropPlain, Answer::Done) => refuse(
                "timeout_error",
                output::command_timeout_text(self.secs).as_str(),
            ),
            (stage, _) => stage,
        };
        ListProcessesHandler {
            environment: self.environment,
            keyword: self.keyword,
            pod: self.pod,
            namespace: self.namespace,
            container: self.container,
            secs: self.secs,
            stage,
        }
    }
}

/// What a call shows.
pub open spec fn processes_shown(o: ProcessesOutcome<Seq<char>>) -> Shown {
    match o {
        ProcessesOutcome::Refused { code, message } => output::refusal(code, message),
        ProcessesOutcome::Listed { cmd, keyword, out, headed, elapsed_ms } => {
            let listing = if headed {
                without_header(out.stdout)
            } else {
                out.stdout
            };
            let lines = kept_lines(text::lines(listing), keyword);
            Shown {
                success: true,
                data: Json::Object(
                    json::no_members().insert("command"@, Json::Text(cmd)).insert(
                        "processes"@,
                        Json::Text(joined(lines)),
                    ).insert("count"@, Json::Int(lines.len() as int)).insert(
                        "note"@,
                        Json::Text("每行格式: PID USER 命令行。从命令行中识别目标服务并取 PID。"@),
                    ).insert("exit_code"@, Json::Int(out.exit_code as int)).insert(
                        "elapsed_ms"@,
                        Json::Int(elapsed_ms as int),
                    ),
                ),
                raw_stdout: Some(out.stdout),
            }
        },
    }
}

impl ProcessesOutcome<String> {
    /// What the call shows.
    pub fn render(self) -> (r: ToolOutput)
        ensures
            r@ == processes_shown(self@),
    {
        match self {
            ProcessesOutcome::Refused { code, message } => output::error_output(
                code.as_str(),
                message.as_str(),
            ),
            ProcessesOutcome::Listed { cmd, keyword, out, headed, elapsed_ms } => {
                let listing: String = if headed {
                    drop_header(out.stdout.as_str())
                } else {
                    out.stdout.clone()
                };
                let (processes, count): (String, usize) = filter_processes(
                    listing.as_str(),
                    text::as_str_opt(&keyword),
                );
                let mut m: serde_json::Map<String, serde_json::Value> = json::new_map();
                json::insert(&mut m, "command", json::text_value(cmd.as_str()));
                json::insert(&mut m, "processes", json::text_value(processes.as_str()));
                json::insert(&mut m, "count", json::u64_value(count as u64));
                json::insert(
                    &mut m,
                    "note",
                    json::text_value("每行格式: PID USER 命令行。从命令行中识别目标服务并取 PID。"),
                );
                json::insert(&mut m, "exit_code", json::i64_value(out.exit_code as i64));
                json::insert(&mut m, "elapsed_ms", json::u64_value(elapsed_ms));
                ToolOutput {
                    success: true,
                    data: json::object(m),
                    raw_stdout: Some(out.stdout),
                }
            },
        }
    }
}

/// A command is run only at a target that fits its environment.
pub proof fn law_processes_runs_only_checked(
    p: ListProcessesHandler<Seq<char>>,
    answer: Answer<Seq<char>>,
)
    requires
        p.stage !is Run,
        processes_after(p, answer).stage is Run,
    ensures
        p.stage is Check,
        answer matches Answer::Checked { checked: Ok(_) },
{
}

/// The listing for a small `ps` is asked for only in a container, and only where `ps` did not take
/// its options.
pub proof fn law_plain_listing_is_a_fallback(
    p: ListProcessesHandler<Seq<char>>,
    answer: Answer<Seq<char>>,
)
    requires
        p.stage !is RunPlain,
        processes_after(p, answer).stage is RunPlain,
    ensures
        p.stage is Run,
        p.pod is Some,
        answer matches Answer::Ran { ran: Ok(out), elapsed_ms: _ } && ps_refused(out),
{
}

/// A line that holds the keyword is kept: none is left out.
pub proof fn law_no_matching_line_is_left_out(
    lines: Seq<Seq<char>>,
    keyword: Option<Seq<char>>,
    i: int,
)
    requires
        0 <= i < lines.len(),
        line_kept(lines[i], keyword),
    ensures
        kept_lines(lines, keyword).contains(lines[i]),
    decreases lines.len(),
{
    let rest = lines.drop_last();
    let kept = kept_lines(lines, keyword);
    if i == lines.len() - 1 {
        assert(kept[kept.len() - 1] == lines[i]);
    } else {
        law_no_matching_line_is_left_out(rest, keyword, i);
        let before = kept_lines(rest, keyword);
        let j = choose|j: int| 0 <= j < before.len() && before[j] == lines[i];
        assert(kept[j] == lines[i]);
    }
}

/// A line is kept where the keyword stands in it, in any case, and only there.
pub proof fn law_keyword_stands_in_line(a: Seq<char>, k: Seq<char>, b: Seq<char>, line: Seq<char>)
    ensures
        text::lowercase(line) == a + text::lowercase(k) + b ==> line_kept(line, Some(k)),
        line_kept(line, Some(k)) ==> text::contains(text::lowercase(line), text::lowercase(k)),
        line_kept(line, None),
{
    text::lemma_contains(a, text::lowercase(k), b);
}

/// The header of a listing is dropped, whatever it names; a listing of processes is left as it is.
pub proof fn law_only_header_is_dropped(head: Seq<char>, rest: Seq<char>)
    requires
        text::is_word(head),
    ensures
        without_header(head + seq![' ', 'U', 'S', 'E', 'R', '\n'] + rest) == (if head == "PID"@ {
            rest
        } else {
            head + seq![' ', 'U', 'S', 'E', 'R', '\n'] + rest
        }),
{
    reveal_strlit("\n");
    let user = seq!['U', 'S', 'E', 'R'];
    let line = head + seq![' '] + user;
    let whole = head + seq![' ', 'U', 'S', 'E', 'R', '\n'] + rest;
    assert(whole =~= line + seq!['\n'] + rest);
    let at = line.len() as int;
    assert(whole.subrange(at, at + 1) =~= "\n"@);
    assert(text::occurs_at(whole, "\n"@, at));
    assert forall|j: int| 0 <= j < at implies !text::occurs_at(whole, "\n"@, j) by {
        if text::occurs_at(whole, "\n"@, j) {
            assert(whole.subrange(j, j + 1)[0] == whole[j]);
            assert(whole[j] == line[j]);
            if j < head.len() {
                assert(!text::is_white(head[j]));
            }
        }
    }
    text::lemma_split_once_at(whole, "\n"@, at);
    assert(whole.subrange(0, at) =~= line);
    assert(whole.subrange(at + 1, whole.len() as int) =~= rest);
    let ws = seq![head, user];
    assert(ws.drop_last() =~= seq![head]);
    reveal_with_fuel(text::joined, 2);
    assert(text::joined(ws, ' ') =~= line);
    text::law_words_are_read_back(ws);
}

/// A call lists the processes of the target that it names; what is shown are the lines that hold the
/// keyword, how many they are, and how the command ended.
pub proof fn law_way_of_a_process_listing(
    args: Map<Seq<char>, Json>,
    environment: Seq<char>,
    env_id: Seq<char>,
    out: Output<Seq<char>>,
    ms: u64,
)
    requires
        args.contains_key("environment"@) && args["environment"@] == Json::Text(environment),
        !text::contains(out.stderr, "ps:"@) || out.exit_code == 0 || output::filled_arg(
            Json::Object(args),
            "pod"@,
        ) is None,
    ensures
        ({
            let p = processes_start(Json::Object(args));
            let p1 = processes_after(p, Answer::Resolved { resolved: Ok(Some(env_id)) });
            let p2 = processes_after(p1, Answer::Checked { checked: Ok(()) });
            let p3 = processes_after(p2, Answer::Ran { ran: Ok(out), elapsed_ms: ms });
            let lines = kept_lines(text::lines(out.stdout), p.keyword);
            &&& p.keyword == output::filled_arg(Json::Object(args), "keyword"@)
            &&& !args.contains_key("timeout_secs"@) ==> p.secs == 30
            &&& p.secs <= 120
            &&& processes_request(p) == (Ask::<Seq<char>>::Resolve {
                environment,
                pod: output::filled_arg(Json::Object(args), "pod"@),
                namespace: output::filled_arg(Json::Object(args), "namespace"@),
                container: output::filled_arg(Json::Object(args), "container"@),
            })
            &&& processes_request(p1) == (Ask::<Seq<char>>::CheckTarget {
                pod: p.pod,
                namespace: p.namespace,
                container: p.container,
            })
            &&& processes_request(p2) == (Ask::<Seq<char>>::Run {
                cmd: match p.keyword {
                    Some(k) => "ps -eo pid=,user=,args= | grep -i "@ + ssh::shell_quote(k)
                        + " | grep -v grep"@,
                    None => "ps -eo pid=,user=,args="@,
                },
                secs: Some(p.secs),
            })
            &&& p3.stage matches ProcessesStage::Ended { outcome } && {
                let shown = processes_shown(outcome);
                &&& shown.success
                &&& shown.raw_stdout == Some(out.stdout)
                &&& shown.data matches Json::Object(m) && {
                    &&& m["command"@] == Json::Text(list_command(p.keyword))
                    &&& m["processes"@] == Json::Text(text::joined(lines, '\n'))
                    &&& m["count"@] == Json::Int(lines.len() as int)
                    &&& m["exit_code"@] == Json::Int(out.exit_code as int)
                    &&& m["elapsed_ms"@] == Json::Int(ms as int)
                }
            }
        }),
{
    lemma_joined_with_line_feeds(
        kept_lines(text::lines(out.stdout), processes_start(Json::Object(args)).keyword),
    );
    reveal_strlit("command");
    reveal_strlit("processes");
    reveal_strlit("count");
    reveal_strlit("note");
    reveal_strlit("exit_code");
    reveal_strlit("elapsed_ms");
    assert("command"@.len() != "processes"@.len());
    assert("command"@.len() != "count"@.len());
    assert("command"@.len() != "note"@.len());
    assert("command"@.len() != "exit_code"@.len());
    assert("command"@.len() != "elapsed_ms"@.len());
    assert("processes"@.len() != "count"@.len());
    assert("processes"@.len() != "note"@.len());
    assert("processes"@[0] != "exit_code"@[0]);
    assert("processes"@.len() != "elapsed_ms"@.len());
    assert("count"@.len() != "note"@.len());
    assert("count"@.len() != "exit_code"@.len());
    assert("count"@.len() != "elapsed_ms"@.len());
    assert("note"@.len() != "exit_code"@.len());
    assert("note"@.len() != "elapsed_ms"@.len());
    assert("exit_code"@.len() != "elapsed_ms"@.len());
}

proof fn lemma_joined_with_line_feeds(lines: Seq<Seq<char>>)
    ensures
        joined(lines) == text::joined(lines, '\n'),
    decreases lines.len(),
{
    reveal_strlit("\n");
    assert("\n"@ =~= seq!['\n']);
    if lines.len() > 1 {
        lemma_joined_with_line_feeds(lines.drop_last());
    }
}

/// How a call fails: with a code that tells what failed, and with what was said of it. A command that
/// did not end is killed first.
pub proof fn law_process_listing_failures(p: ListProcessesHandler<Seq<char>>, e: Seq<char>, ms: u64)
    ensures
        p.stage is Resolve ==> refuses(
            processes_after(p, Answer::Resolved { resolved: Ok(None) }),
            "environment_not_found"@,
            p.environment,
        ) && refuses(
            processes_after(p, Answer::Resolved { resolved: Err(e) }),
            "connection_error"@,
            e,
        ),
        p.stage is Check ==> refuses(
            processes_after(p, Answer::Checked { checked: Err(e) }),
            "environment_type_mismatch"@,
            e,
        ),
        p.stage is Run || p.stage is RunPlain ==> {
            let late = processes_after(p, Answer::TimedOut);
            &&& refuses(
                processes_after(p, Answer::Ran { ran: Err(e), elapsed_ms: ms }),
                "connection_error"@,
                e,
            )
            &&& processes_request(p) matches Ask::Run { cmd, secs: _ } && processes_request(late) == (
            Ask::<Seq<char>>::DropAndKill { cmd })
            &&& refuses(
                processes_after(late, Answer::Done),
                "timeout_error"@,
                text::dec(p.secs as nat),
            )
        },
{
    let z = Seq::<char>::empty();
    text::lemma_contains(z, e, z);
    assert(z + e + z =~= e);
    text::lemma_contains("环境「"@, p.environment, "」不存在。请先调用 list_environments 查看可用环境；若无匹配，请让用户在右侧「环境」面板添加。"@);
    text::lemma_contains("command timed out after "@, text::dec(p.secs as nat), "s"@);
}

/// Whether a call ended in a refusal with a code, whose message holds a text.
pub open spec fn refuses(
    p: ListProcessesHandler<Seq<char>>,
    code: Seq<char>,
    part: Seq<char>,
) -> bool {
    p.stage matches ProcessesStage::Ended {
        outcome: ProcessesOutcome::Refused { code: k, message },
    } && k == code && text::contains(message, part)
}

/// An ended call stays as it is.
pub proof fn law_processes_end_is_final(
    p: ListProcessesHandler<Seq<char>>,
    answer: Answer<Seq<char>>,
)
    requires
        p.stage is Ended,
    ensures
        processes_after(p, answer) == p,
        processes_request(p) is Finished,
{
}

// ---------------------------------------------------------------------------------------------
// The tool
// ---------------------------------------------------------------------------------------------

/// The tool that lists processes.
pub open spec fn processes_offer() -> Offer {
    Offer {
        name: "list_processes"@,
        description: "列出目标环境上的进程（PID、用户、完整命令行），按 keyword（服务名/关键字，大小写不敏感）过滤。虚机环境：诊断第一步，用服务名作 keyword 查 PID，再配合 jvm_* 等工具。容器环境：先用 k8s_find_pods 定位 Pod，再带 pod + namespace 列出容器内进程（PID 为容器内 PID，后续 jvm_* 工具需带相同 pod + namespace）。不依赖 JDK 装备。"@,
        input_schema: output::object_schema(
            json::no_members().insert(
                "environment"@,
                output::prop("string"@, "目标环境名称（list_environments 返回的 name）"@),
            ).insert(
                "keyword"@,
                output::prop(
                    "string"@,
                    "过滤关键字（服务名等，大小写不敏感；缺省返回全部进程）"@,
                ),
            ).insert(
                "timeout_secs"@,
                output::prop("number"@, "超时秒数，默认 30，上限 120"@),
            ).insert(
                "pod"@,
                output::prop("string"@, "Kubernetes Pod 名（容器环境必填；虚机环境不支持；全小写，须为 k8s_find_pods 返回的准确名，勿用服务名）"@),
            ).insert(
                "namespace"@,
                output::prop("string"@, "Kubernetes namespace（容器环境必填；与 pod 一起来自 k8s_find_pods 返回；全小写）"@),
            ).insert(
                "container"@,
                output::prop("string"@, "容器名（多容器 Pod 时指定；缺省用 Pod 默认容器）"@),
            ),
            seq!["environment"@],
        ),
        risk_level: RiskLevel::ReadOnly,
        category: ToolCategory::Environment,
        needs_channel: false,
    }
}

/// The tool that lists processes.
pub fn list_processes_tool_def() -> (r: ToolDef)
    ensures
        r@ == processes_offer(),
{
    let mut props: serde_json::Map<String, serde_json::Value> = json::new_map();
    json::insert(
        &mut props,
        "environment",
        output::prop_value("string", "目标环境名称（list_environments 返回的 name）"),
    );
    json::insert(
        &mut props,
        "keyword",
        output::prop_value(
            "string",
            "过滤关键字（服务名等，大小写不敏感；缺省返回全部进程）",
        ),
    );
    json::insert(
        &mut props,
        "timeout_secs",
        output::prop_value("number", "超时秒数，默认 30，上限 120"),
    );
    json::insert(
        &mut props,
        "pod",
        output::prop_value("string", "Kubernetes Pod 名（容器环境必填；虚机环境不支持；全小写，须为 k8s_find_pods 返回的准确名，勿用服务名）"),
    );
    json::insert(
        &mut props,
        "namespace",
        output::prop_value("string", "Kubernetes namespace（容器环境必填；与 pod 一起来自 k8s_find_pods 返回；全小写）"),
    );
    json::insert(
        &mut props,
        "container",
        output::prop_value("string", "容器名（多容器 Pod 时指定；缺省用 Pod 默认容器）"),
    );
    ToolDef {
        name: "list_processes".to_owned(),
        description: "列出目标环境上的进程（PID、用户、完整命令行），按 keyword（服务名/关键字，大小写不敏感）过滤。虚机环境：诊断第一步，用服务名作 keyword 查 PID，再配合 jvm_* 等工具。容器环境：先用 k8s_find_pods 定位 Pod，再带 pod + namespace 列出容器内进程（PID 为容器内 PID，后续 jvm_* 工具需带相同 pod + namespace）。不依赖 JDK 装备。".to_owned(),
        input_schema: output::object_schema_value(props, &output::one("environment")),
        risk_level: RiskLevel::ReadOnly,
        category: ToolCategory::Environment,
        needs_channel: false,
    }
}

/// The tool takes an environment, which it needs, a keyword, a time limit and a target in a pod, and
/// nothing else; it changes nothing.
pub proof fn law_processes_tool_says_what_it_takes(key: Seq<char>)
    ensures
        ({
            let o = processes_offer();
            &&& o.name == "list_processes"@
            &&& output::parameter(o, "environment"@) == Some("string"@)
            &&& output::parameter(o, "keyword"@) == Some("string"@)
            &&& output::parameter(o, "timeout_secs"@) == Some("number"@)
            &&& output::parameter(o, "pod"@) == Some("string"@)
            &&& output::parameter(o, "namespace"@) == Some("string"@)
            &&& output::parameter(o, "container"@) == Some("string"@)
            &&& key != "environment"@ && key != "keyword"@ && key != "timeout_secs"@
                && key != "pod"@ && key != "namespace"@ && key != "container"@
                ==> output::parameter(o, key) is None
            &&& output::required_parameters(o) == Some(json::texts(seq!["environment"@]))
            &&& o.risk_level == RiskLevel::ReadOnly
            &&& o.category == ToolCategory::Environment
            &&& !o.needs_channel
        }),
{
    let o = processes_offer();
    let props = json::no_members()
        .insert("environment"@, output::prop("string"@, "目标环境名称（list_environments 返回的 name）"@))
        .insert("keyword"@, output::prop("string"@, "过滤关键字（服务名等，大小写不敏感；缺省返回全部进程）"@))
        .insert("timeout_secs"@, output::prop("number"@, "超时秒数，默认 30，上限 120"@))
        .insert("pod"@, output::prop("string"@, "Kubernetes Pod 名（容器环境必填；虚机环境不支持；全小写，须为 k8s_find_pods 返回的准确名，勿用服务名）"@))
        .insert("namespace"@, output::prop("string"@, "Kubernetes namespace（容器环境必填；与 pod 一起来自 k8s_find_pods 返回；全小写）"@))
        .insert("container"@, output::prop("string"@, "容器名（多容器 Pod 时指定；缺省用 Pod 默认容器）"@));
    reveal_strlit("environment");
    reveal_strlit("keyword");
    reveal_strlit("timeout_secs");
    reveal_strlit("pod");
    reveal_strlit("namespace");
    reveal_strlit("container");
    assert("environment"@.len() != "keyword"@.len());
    assert("environment"@.len() != "timeout_secs"@.len());
    assert("environment"@.len() != "pod"@.len());
    assert("environment"@.len() != "namespace"@.len());
    assert("environment"@.len() != "container"@.len());
    assert("keyword"@.len() != "timeout_secs"@.len());
    assert("keyword"@.len() != "pod"@.len());
    assert("keyword"@.len() != "namespace"@.len());
    assert("keyword"@.len() != "container"@.len());
    assert("timeout_secs"@.len() != "pod"@.len());
    assert("timeout_secs"@.len() != "namespace"@.len());
    assert("timeout_secs"@.len() != "container"@.len());
    assert("pod"@.len() != "namespace"@.len());
    assert("pod"@.len() != "container"@.len());
    assert("namespace"@[0] != "container"@[0]);
    output::law_schema_lists_its_properties(o, props, seq!["environment"@], "environment"@);
    output::law_schema_lists_its_properties(o, props, seq!["environment"@], "keyword"@);
    output::law_schema_lists_its_properties(o, props, seq!["environment"@], "timeout_secs"@);
    output::law_schema_lists_its_properties(o, props, seq!["environment"@], "pod"@);
    output::law_schema_lists_its_properties(o, props, seq!["environment"@], "namespace"@);
    output::law_schema_lists_its_properties(o, props, seq!["environment"@], "container"@);
    output::law_schema_lists_its_properties(o, props, seq!["environment"@], key);
    output::law_property_says_its_type("string"@, "目标环境名称（list_environments 返回的 name）"@);
    output::law_property_says_its_type("string"@, "过滤关键字（服务名等，大小写不敏感；缺省返回全部进程）"@);
    output::law_property_says_its_type("number"@, "超时秒数，默认 30，上限 120"@);
    output::law_property_says_its_type("string"@, "Kubernetes Pod 名（容器环境必填；虚机环境不支持；全小写，须为 k8s_find_pods 返回的准确名，勿用服务名）"@);
    output::law_property_says_its_type("string"@, "Kubernetes namespace（容器环境必填；与 pod 一起来自 k8s_find_pods 返回；全小写）"@);
    output::law_property_says_its_type("string"@, "容器名（多容器 Pod 时指定；缺省用 Pod 默认容器）"@);
}

/// The small `ps` is asked for the same columns, and filtered by the keyword as one word of the
/// shell, in any case, without the filter itself.
pub proof fn law_plain_listing_filters_by_keyword(keyword: Seq<char>)
    ensures
        text::starts(plain_matching(keyword), "ps -o pid,user,args | grep -i "@),
        text::contains(
            plain_matching(keyword),
            "grep -i "@ + ssh::shell_quote(keyword) + " | grep -v grep"@,
        ),
{
    let head = "ps -o pid,user,args | "@;
    reveal_strlit("ps -o pid,user,args | grep -i ");
    reveal_strlit("ps -o pid,user,args | ");
    reveal_strlit("grep -i ");
    let q = ssh::shell_quote(keyword);
    assert("ps -o pid,user,args | grep -i "@ =~= head + "grep -i "@);
    let tail = "grep -i "@ + q + " | grep -v grep"@;
    assert(plain_matching(keyword) =~= head + tail);
    text::lemma_part(head, tail);
    text::lemma_start("ps -o pid,user,args | grep -i "@, q);
    text::lemma_start_kept(
        "ps -o pid,user,args | grep -i "@ + q,
        "ps -o pid,user,args | grep -i "@,
        " | grep -v grep"@,
    );
}

/// In a container whose `ps` does not take its options, a plainer listing is asked for: filtered in the
/// same way, shown without the header that it begins with, after the time that both took. On a host
/// what `ps` said is shown as it is.
pub proof fn law_way_of_a_plain_listing(
    p: ListProcessesHandler<Seq<char>>,
    first: Output<Seq<char>>,
    out: Output<Seq<char>>,
    ms: u64,
    more: u64,
)
    requires
        p.stage is Run,
        first.exit_code != 0,
        text::contains(first.stderr, "ps:"@),
        ms + more <= u64::MAX,
    ensures
        ({
            let p1 = processes_after(p, Answer::Ran { ran: Ok(first), elapsed_ms: ms });
            let p2 = processes_after(p1, Answer::Ran { ran: Ok(out), elapsed_ms: more });
            let late = processes_after(p1, Answer::TimedOut);
            let cmd = match p.keyword {
                Some(k) => "ps -o pid,user,args | grep -i "@ + ssh::shell_quote(k)
                    + " | grep -v grep"@,
                None => "ps -o pid,user,args"@,
            };
            let lines = kept_lines(text::lines(without_header(out.stdout)), p.keyword);
            &&& p.pod is None ==> p1.stage is Ended
            &&& p.pod is Some ==> processes_request(p1) == (Ask::<Seq<char>>::Run {
                cmd,
                secs: Some(p.secs),
            })
            &&& p.pod is Some ==> processes_request(late) == (Ask::<Seq<char>>::DropAndKill { cmd })
            &&& p.pod is Some ==> (p2.stage matches ProcessesStage::Ended { outcome } && (
            processes_shown(outcome).data matches Json::Object(m) && {
                &&& m["command"@] == Json::Text(cmd)
                &&& m["processes"@] == Json::Text(text::joined(lines, '\n'))
                &&& m["count"@] == Json::Int(lines.len() as int)
                &&& m["elapsed_ms"@] == Json::Int(ms + more)
            }))
        }),
{
    lemma_joined_with_line_feeds(
        kept_lines(text::lines(without_header(out.stdout)), p.keyword),
    );
    reveal_strlit("command");
    reveal_strlit("processes");
    reveal_strlit("count");
    reveal_strlit("note");
    reveal_strlit("exit_code");
    reveal_strlit("elapsed_ms");
    assert("command"@.len() != "processes"@.len());
    assert("command"@.len() != "count"@.len());
    assert("command"@.len() != "note"@.len());
    assert("command"@.len() != "exit_code"@.len());
    assert("command"@.len() != "elapsed_ms"@.len());
    assert("processes"@.len() != "count"@.len());
    assert("processes"@.len() != "note"@.len());
    assert("processes"@[0] != "exit_code"@[0]);
    assert("processes"@.len() != "elapsed_ms"@.len());
    assert("count"@.len() != "note"@.len());
    assert("count"@.len() != "exit_code"@.len());
    assert("count"@.len() != "elapsed_ms"@.len());
    assert("note"@.len() != "exit_code"@.len());
    assert("note"@.len() != "elapsed_ms"@.len());
    assert("exit_code"@.len() != "elapsed_ms"@.len());
}

} // verus!
