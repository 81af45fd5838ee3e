//! The tool that finds pods.

use vstd::prelude::*;

use crate::flow::Output;
use crate::json;
use crate::json::Json;
use crate::text;
use crate::text::Sep;
use crate::tools::call::{Answer, Ask};
use crate::tools::output;
use crate::tools::output::{Offer, RiskLevel, Shown, ToolCategory, ToolDef, ToolOutput};

verus! {

/// How long the listing may take unless a time is given, in seconds.
pub const DEFAULT_TIMEOUT_SECS: u64 = 30;

/// How long the listing may take at most, in seconds.
pub const MAX_TIMEOUT_SECS: u64 = 120;

/// The command that lists pods: five columns, the containers separated by commas.
pub const KUBECTL_GET_PODS: &'static str = "kubectl get pods -A -o custom-columns=NAME:.metadata.name,NS:.metadata.namespace,STATUS:.status.phase,CONTAINERS:.spec.containers[*].name,NODE:.spec.nodeName";

// ---------------------------------------------------------------------------------------------
// Pods
// ---------------------------------------------------------------------------------------------

/// A pod.
#[derive(Clone, Debug, PartialEq)]
pub struct PodInfo {
    pub name: String,
    pub namespace: String,
    pub status: String,
    pub containers: Vec<String>,
    pub node: String,
}

/// The model of [`PodInfo`].
pub struct Pod {
    pub name: Seq<char>,
    pub namespace: Seq<char>,
    pub status: Seq<char>,
    pub containers: Seq<Seq<char>>,
    pub node: Seq<char>,
}

impl View for PodInfo {
    type V = Pod;

    open spec fn view(&self) -> Pod {
        Pod {
            name: self.name@,
            namespace: self.namespace@,
            status: self.status@,
            containers: text::views(self.containers@),
            node: self.node@,
        }
    }
}

/// What pods are, by their models.
pub open spec fn pods(v: Seq<PodInfo>) -> Seq<Pod> {
    v.map_values(|p: PodInfo| p@)
}

/// Whether a line is the heading.
pub open spec fn is_heading(line: Seq<char>) -> bool {
    line == "NAME"@ || "NAME "@.is_prefix_of(line)
}

/// The pod that a line stands for. A line that is not made of five columns stands for none.
pub open spec fn pod_of(line: Seq<char>) -> Option<Pod> {
    let line = text::trimmed(line);
    let fields = text::words(line);
    if is_heading(line) || fields.len() != 5 {
        None
    } else {
        Some(
            Pod {
                name: fields[0],
                namespace: fields[1],
                status: fields[2],
                containers: text::non_empty(text::split(fields[3], Sep::Char(','))),
                node: fields[4],
            },
        )
    }
}

/// The pods that lines stand for, in their order.
pub open spec fn pods_of(lines: Seq<Seq<char>>) -> Seq<Pod>
    decreases lines.len(),
{
    if lines.len() == 0 {
        Seq::empty()
    } else {
        match pod_of(lines.last()) {
            Some(p) => pods_of(lines.drop_last()).push(p),
            None => pods_of(lines.drop_last()),
        }
    }
}

fn pod_of_line(line: &str) -> (r: Option<PodInfo>)
    ensures
        (match r {
            Some(p) => Some(p@),
            None => None,
        }) == pod_of(line@),
{
    let line: String = text::trim(line);
    if text::same(line.as_str(), "NAME") || text::begins_with(line.as_str(), "NAME ") {
        return None;
    }
    let fields: Vec<String> = text::words_of(line.as_str());
    if fields.len() != 5 {
        return None;
    }
    proof {
        let w = text::views(fields@);
        assert(w[0] == fields@[0]@ && w[1] == fields@[1]@ && w[2] == fields@[2]@);
        assert(w[3] == fields@[3]@ && w[4] == fields@[4]@);
    }
    let pieces: Vec<String> = text::split_text(fields[3].as_str(), Sep::Char(','));
    Some(
        PodInfo {
            name: fields[0].clone(),
            namespace: fields[1].clone(),
            status: fields[2].clone(),
            containers: text::keep_filled(&pieces),
            node: fields[4].clone(),
        },
    )
}

/// The pods in what the listing printed.
pub fn parse_pods_output(stdout: &str) -> (r: Vec<PodInfo>)
    ensures
        pods(r@) == pods_of(text::lines(stdout@)),
{
    let lines: Vec<String> = text::lines_of(stdout);
    let ghost all = text::lines(stdout@);
    let mut found: Vec<PodInfo> = Vec::new();
    let mut i: usize = 0;
    proof {
        assert(all.take(0) =~= Seq::<Seq<char>>::empty());
        assert(pods(found@) =~= Seq::<Pod>::empty());
    }
    while i < lines.len()
        invariant
            text::views(lines@) == all,
            all.len() == lines@.len(),
            i <= lines@.len(),
            pods(found@) == pods_of(all.take(i as int)),
        decreases lines@.len() - i,
    {
        let ghost before = pods(found@);
        proof {
            assert(all[i as int] == lines@[i as int]@);
            assert(all.take(i as int + 1).drop_last() =~= all.take(i as int));
            assert(all.take(i as int + 1).last() == all[i as int]);
        }
        match pod_of_line(lines[i].as_str()) {
            Some(p) => {
                let ghost pod = p@;
                found.push(p);
                proof {
                    assert(pods(found@) =~= before.push(pod));
                }
            },
            None => {},
        }
        i = i + 1;
    }
    proof {
        assert(all.take(i as int) =~= all);
    }
    found
}

/// The pattern that pods are looked for by: none where it is blank.
pub open spec fn wanted(pattern: Option<Seq<char>>) -> Option<Seq<char>> {
    match pattern {
        Some(p) => text::non_blank(Some(text::trimmed(p))),
        None => None,
    }
}

/// Whether a pod is looked for: its name holds the pattern, in any case.
pub open spec fn pod_matches(pod: Pod, pattern: Option<Seq<char>>) -> bool {
    match wanted(pattern) {
        Some(p) => text::contains(text::lowercase(pod.name), text::lowercase(p)),
        None => true,
    }
}

/// The pods that are looked for, in their order.
pub open spec fn matching(list: Seq<Pod>, pattern: Option<Seq<char>>) -> Seq<Pod>
    decreases list.len(),
{
    if list.len() == 0 {
        Seq::empty()
    } else if pod_matches(list.last(), pattern) {
        matching(list.drop_last(), pattern).push(list.last())
    } else {
        matching(list.drop_last(), pattern)
    }
}

impl PodInfo {
    /// The same pod.
    pub fn copy(&self) -> (r: Self)
        ensures
            r@ == self@,
    {
        let mut containers: Vec<String> = Vec::new();
        let mut i: usize = 0;
        while i < self.containers.len()
            invariant
                i <= self.containers@.len(),
                containers@.len() == i,
                forall|j: int| 0 <= j < i ==> (#[trigger] containers@[j])@ == self.containers@[j]@,
            decreases self.containers@.len() - i,
        {
            containers.push(self.containers[i].clone());
            i = i + 1;
        }
        proof {
            assert(text::views(containers@) =~= text::views(self.containers@));
        }
        PodInfo {
            name: self.name.clone(),
            namespace: self.namespace.clone(),
            status: self.status.clone(),
            containers,
            node: self.node.clone(),
        }
    }
}

/// The pods that are looked for.
pub fn filter_pods(list: Vec<PodInfo>, pattern: Option<&str>) -> (r: Vec<PodInfo>)
    ensures
        pods(r@) == matching(pods(list@), text::opt_str(pattern)),
{
    let lower: Option<String> = match pattern {
        Some(p) => {
            let t: String = text::trim(p);
            if t.as_str().is_empty() {
                None
            } else {
                Some(text::to_lower(t.as_str()))
            }
        },
        None => None,
    };
    let ghost all = pods(list@);
    let ghost pat = text::opt_str(pattern);
    let mut found: Vec<PodInfo> = Vec::new();
    let mut i: usize = 0;
    proof {
        assert(all.take(0) =~= Seq::<Pod>::empty());
        assert(pods(found@) =~= Seq::<Pod>::empty());
    }
    while i < list.len()
        invariant
            all == pods(list@),
            i <= list@.len(),
            match wanted(pat) {
                Some(p) => lower matches Some(l) && l@ == text::lowercase(p),
                None => lower is None,
            },
            pods(found@) == matching(all.take(i as int), pat),
        decreases list@.len() - i,
    {
        let ghost before = pods(found@);
        proof {
            assert(all[i as int] == list@[i as int]@);
            assert(all.take(i as int + 1).drop_last() =~= all.take(i as int));
            assert(all.take(i as int + 1).last() == all[i as int]);
        }
        let keep: bool = match &lower {
            Some(l) => text::has(text::to_lower(list[i].name.as_str()).as_str(), l.as_str()),
            None => true,
        };
        if keep {
            found.push(list[i].copy());
            proof {
                assert(pods(found@) =~= before.push(all[i as int]));
            }
        }
        i = i + 1;
    }
    proof {
        assert(all.take(i as int) =~= all);
    }
    found
}

/// A row of words.
pub open spec fn is_row(row: Seq<Seq<char>>) -> bool {
    row.len() > 0 && forall|i: int| 0 <= i < row.len() ==> text::is_word(#[trigger] row[i])
}

proof fn lemma_only_heading_is_heading(row: Seq<Seq<char>>)
    requires
        is_row(row),
    ensures
        is_heading(text::joined(row, ' ')) <==> row[0] == "NAME"@,
{
    reveal_strlit("NAME");
    reveal_strlit("NAME ");
    let line = text::joined(row, ' ');
    let n = row[0];
    text::law_words_are_read_back(row);
    assert(text::is_word(n));
    assert(line.take(n.len() as int) == n);
    assert forall|i: int| 0 <= i < n.len() implies line[i] == n[i] by {
        assert(line.take(n.len() as int)[i] == n[i]);
    }
    if row.len() == 1 {
        assert(line == n);
        if "NAME "@.is_prefix_of(line) {
            assert(line[4] == "NAME "@[4]);
            assert(!text::is_white(n[4]));
        }
    } else {
        lemma_blank_behind_first(row);
        if "NAME "@.is_prefix_of(line) {
            assert(forall|i: int| 0 <= i < 5 ==> line[i] == "NAME "@[i]);
            assert("NAME "@[0] == 'N' && "NAME "@[1] == 'A' && "NAME "@[2] == 'M' && "NAME "@[3]
                == 'E' && "NAME "@[4] == ' ');
            if n.len() > 4 {
                assert(!text::is_white(n[4]));
            }
            if n.len() < 4 {
                assert(line[n.len() as int] == ' ');
            }
            assert(n =~= "NAME"@);
        }
        if line == "NAME"@ {
            assert(line[n.len() as int] == ' ');
        }
        if n == "NAME"@ {
            assert("NAME "@.is_prefix_of(line)) by {
                assert(line.subrange(0, 5) =~= "NAME "@);
            }
        }
    }
}

proof fn lemma_blank_behind_first(row: Seq<Seq<char>>)
    requires
        is_row(row),
        row.len() > 1,
    ensures
        text::joined(row, ' ').len() > row[0].len(),
        text::joined(row, ' ')[row[0].len() as int] == ' ',
    decreases row.len(),
{
    let rest = row.drop_last();
    assert(rest[0] == row[0]);
    if row.len() == 2 {
        assert(text::joined(rest, ' ') == row[0]);
    } else {
        assert forall|i: int| 0 <= i < rest.len() implies text::is_word(#[trigger] rest[i]) by {
            assert(text::is_word(row[i]));
        }
        lemma_blank_behind_first(rest);
    }
}

/// A line of five words is the pod that its columns name, whatever its status, unless it is the
/// heading; a line of any other number of words is none.
pub proof fn law_columns_are_a_pod(row: Seq<Seq<char>>)
    requires
        is_row(row),
    ensures
        row.len() == 5 && row[0] != "NAME"@ ==> (pod_of(text::joined(row, ' ')) matches Some(p) && {
            &&& p.name == row[0]
            &&& p.namespace == row[1]
            &&& p.status == row[2]
            &&& p.containers == text::non_empty(text::split(row[3], Sep::Char(',')))
            &&& p.node == row[4]
        }),
        row.len() != 5 || row[0] == "NAME"@ ==> pod_of(text::joined(row, ' ')) is None,
{
    text::law_words_are_read_back(row);
    lemma_only_heading_is_heading(row);
}

/// The lines of rows.
pub open spec fn row_lines(rows: Seq<Seq<Seq<char>>>) -> Seq<Seq<char>> {
    rows.map_values(|row: Seq<Seq<char>>| text::joined(row, ' '))
}

/// A listing of pods, one line of five columns to each, has as many pods as lines, each at the
/// place of its line.
pub proof fn law_every_line_is_a_pod(rows: Seq<Seq<Seq<char>>>)
    requires
        forall|i: int| 0 <= i < rows.len() ==> is_row(#[trigger] rows[i]) && rows[i].len() == 5 && rows[i][0] != "NAME"@,
    ensures
        pods_of(row_lines(rows)).len() == rows.len(),
        forall|i: int|
            0 <= i < rows.len() ==> {
                let p = #[trigger] pods_of(row_lines(rows))[i];
                &&& p.name == rows[i][0]
                &&& p.namespace == rows[i][1]
                &&& p.status == rows[i][2]
                &&& p.containers == text::non_empty(text::split(rows[i][3], Sep::Char(',')))
                &&& p.node == rows[i][4]
            },
    decreases rows.len(),
{
    if rows.len() > 0 {
        let rest = rows.drop_last();
        assert forall|i: int| 0 <= i < rest.len() implies is_row(#[trigger] rest[i]) && rest[i].len() == 5
            && rest[i][0] != "NAME"@ by {
            assert(is_row(rows[i]));
        }
        law_every_line_is_a_pod(rest);
        assert(is_row(rows[rows.len() - 1]));
        law_columns_are_a_pod(rows.last());
        assert(row_lines(rows).drop_last() =~= row_lines(rest));
        assert(row_lines(rows).last() == text::joined(rows.last(), ' '));
    }
}

/// The heading does not change which pods are listed, and lines behind one another are listed
/// behind one another.
pub proof fn law_listings_add_up(a: Seq<Seq<char>>, b: Seq<Seq<char>>)
    ensures
        pods_of(a + b) == pods_of(a) + pods_of(b),
    decreases b.len(),
{
    if b.len() == 0 {
        assert(a + b =~= a);
        assert(pods_of(b) =~= Seq::<Pod>::empty());
    } else {
        law_listings_add_up(a, b.drop_last());
        assert((a + b).drop_last() =~= a + b.drop_last());
        assert(pods_of(a + b) =~= pods_of(a) + pods_of(b));
    }
}

/// A pod that was listed and whose name holds the pattern is found: none is left out.
pub proof fn law_no_match_is_left_out(list: Seq<Pod>, pattern: Option<Seq<char>>, i: int)
    requires
        0 <= i < list.len(),
        pod_matches(list[i], pattern),
    ensures
        matching(list, pattern).contains(list[i]),
    decreases list.len(),
{
    let rest = list.drop_last();
    let found = matching(list, pattern);
    if i == list.len() - 1 {
        assert(found[found.len() - 1] == list[i]);
    } else {
        law_no_match_is_left_out(rest, pattern, i);
        let before = matching(rest, pattern);
        let j = choose|j: int| 0 <= j < before.len() && before[j] == list[i];
        assert(found[j] == list[i]);
    }
}

/// A pod that is looked for by a word holds the word in its name, in any case.
pub proof fn law_match_holds_pattern(p: Seq<char>, pod: Pod)
    requires
        text::is_word(p),
        pod_matches(pod, Some(p)),
    ensures
        text::contains(text::lowercase(pod.name), text::lowercase(p)),
{
    text::lemma_trimmed(p);
}

/// A name holds a pattern where the pattern, trimmed, stands in it, in any case.
pub proof fn law_pattern_is_part_of_name(a: Seq<char>, p: Seq<char>, b: Seq<char>, pod: Pod)
    requires
        text::is_word(p),
        text::lowercase(pod.name) == a + text::lowercase(p) + b,
    ensures
        pod_matches(pod, Some(p)),
        pod_matches(pod, Some(seq![' '] + p)),
{
    text::lemma_trimmed(p);
    text::lemma_contains(a, text::lowercase(p), b);
    let q = seq![' '] + p;
    assert(q.subrange(1, q.len() as int) =~= p);
    reveal_with_fuel(text::trim_start, 2);
    assert(text::trim_start(q) == p);
    assert(text::trimmed(q) == p);
}

/// A pod that is found was listed, and its name holds the pattern.
pub proof fn law_found_pods_match(list: Seq<Pod>, pattern: Option<Seq<char>>, pod: Pod)
    requires
        matching(list, pattern).contains(pod),
    ensures
        list.contains(pod),
        pod_matches(pod, pattern),
    decreases list.len(),
{
    let rest = list.drop_last();
    let found = matching(list, pattern);
    let i = choose|i: int| 0 <= i < found.len() && found[i] == pod;
    if pod_matches(list.last(), pattern) && i == matching(rest, pattern).len() {
        assert(list[list.len() - 1] == pod);
    } else {
        assert(matching(rest, pattern)[i] == pod);
        law_found_pods_match(rest, pattern, pod);
        let j = choose|j: int| 0 <= j < rest.len() && rest[j] == pod;
        assert(list[j] == pod);
    }
}

/// Without a pattern, or with a blank one, every pod is found.
pub proof fn law_no_pattern_finds_all(list: Seq<Pod>, pattern: Option<Seq<char>>)
    requires
        wanted(pattern) is None,
    ensures
        matching(list, pattern) == list,
    decreases list.len(),
{
    if list.len() > 0 {
        law_no_pattern_finds_all(list.drop_last(), pattern);
        assert(list.drop_last().push(list.last()) =~= list);
    } else {
        assert(list =~= Seq::<Pod>::empty());
    }
}

// ---------------------------------------------------------------------------------------------
// A call
// ---------------------------------------------------------------------------------------------

/// What a call came to.
#[derive(Debug, PartialEq, Eq)]
pub enum PodsOutcome<S> {
    /// It was refused or failed.
    Refused { code: S, message: S },
    /// The command ran.
    Listed { pattern: Option<S>, stdout: S, elapsed_ms: u64 },
}

/// Where a call stands.
#[derive(Debug, PartialEq, Eq)]
pub enum PodsStage<S> {
    /// Find the environment.
    Resolve,
    /// List.
    Run,
    /// Drop the channels of an environment whose command did not end.
    Drop,
    /// It is over.
    Ended { outcome: PodsOutcome<S> },
}

/// A call of the tool that finds pods.
#[derive(Debug, PartialEq, Eq)]
pub struct FindPodsHandler<S> {
    pub environment: S,
    pub pattern: Option<S>,
    pub secs: u64,
    pub stage: PodsStage<S>,
}

impl View for PodsOutcome<String> {
    type V = PodsOutcome<Seq<char>>;

    open spec fn view(&self) -> PodsOutcome<Seq<char>> {
        match *self {
            PodsOutcome::Refused { code, message } => PodsOutcome::Refused {
                code: code@,
                message: message@,
            },
            PodsOutcome::Listed { pattern, stdout, elapsed_ms } => PodsOutcome::Listed {
                pattern: text::opt(pattern),
                stdout: stdout@,
                elapsed_ms,
            },
        }
    }
}

impl View for PodsStage<String> {
    type V = PodsStage<Seq<char>>;

    open spec fn view(&self) -> PodsStage<Seq<char>> {
        match *self {
            PodsStage::Resolve => PodsStage::Resolve,
            PodsStage::Run => PodsStage::Run,
            PodsStage::Drop => PodsStage::Drop,
            PodsStage::Ended { outcome } => PodsStage::Ended { outcome: outcome@ },
        }
    }
}

impl View for FindPodsHandler<String> {
    type V = FindPodsHandler<Seq<char>>;

    open spec fn view(&self) -> FindPodsHandler<Seq<char>> {
        FindPodsHandler {
            environment: self.environment@,
            pattern: text::opt(self.pattern),
            secs: self.secs,
            stage: self.stage@,
        }
    }
}

/// A refusal.
pub open spec fn refused(code: Seq<char>, message: Seq<char>) -> PodsStage<Seq<char>> {
    PodsStage::Ended { outcome: PodsOutcome::Refused { code, message } }
}

fn refuse(code: &str, message: &str) -> (r: PodsStage<String>)
    ensures
        r@ == refused(code@, message@),
{
    PodsStage::Ended {
        outcome: PodsOutcome::Refused { code: code.to_owned(), message: message.to_owned() },
    }
}

pub open spec fn kubectl_failed(code: i32, stderr: Seq<char>) -> Seq<char> {
    "kubectl get pods failed (exit "@ + text::signed_dec(code as int) + "): "@ + stderr
}

fn kubectl_failed_text(code: i32, stderr: &str) -> (r: String)
    ensures
        r@ == kubectl_failed(code, stderr@),
{
    "kubectl get pods failed (exit ".to_owned()
        .concat(text::i64_text(code as i64).as_str())
        .concat("): ")
        .concat(stderr)
}

/// Whether what a command left says that there is no `kubectl`.
pub open spec fn lacks_kubectl(out: Output<Seq<char>>) -> bool {
    out.exit_code == 127 || text::contains(out.stderr, "command not found"@) || text::contains(
        out.stderr,
        "executable file not found"@,
    )
}

/// The call that arguments ask for.
pub open spec fn pods_start(args: Json) -> FindPodsHandler<Seq<char>> {
    let environment = json::text_of(json::member(args, "environment"@));
    FindPodsHandler {
        environment: match environment {
            Some(e) => e,
            None => Seq::empty(),
        },
        pattern: json::text_of(json::member(args, "pattern"@)),
        secs: output::asked_secs(args, DEFAULT_TIMEOUT_SECS, MAX_TIMEOUT_SECS) as u64,
        stage: if environment is Some {
            PodsStage::Resolve
        } else {
            refused("invalid_params"@, "missing required parameter: environment"@)
        },
    }
}

/// What a call asks for where it stands. Pods are found from the host.
pub open spec fn pods_request(p: FindPodsHandler<Seq<char>>) -> Ask<Seq<char>> {
    match p.stage {
        PodsStage::Resolve => Ask::Resolve {
            environment: p.environment,
            pod: None,
            namespace: None,
            container: None,
        },
        PodsStage::Run => Ask::Run { cmd: KUBECTL_GET_PODS@, secs: Some(p.secs) },
        PodsStage::Drop => Ask::DropEnvironment,
        PodsStage::Ended { outcome } => Ask::Finished,
    }
}

/// Where a command that ran leads.
pub open spec fn pods_listed(
    p: FindPodsHandler<Seq<char>>,
    out: Output<Seq<char>>,
    elapsed_ms: u64,
) -> PodsStage<Seq<char>> {
    if lacks_kubectl(out) {
        refused(
            "not_k8s_environment"@,
            "该环境没有 kubectl（非 Kubernetes 宿主机）。请用 list_processes 在宿主机上定位服务进程。"@,
        )
    } else if out.exit_code != 0 {
        refused("kubectl_error"@, kubectl_failed(out.exit_code, out.stderr))
    } else {
        PodsStage::Ended {
            outcome: PodsOutcome::Listed { pattern: p.pattern, stdout: out.stdout, elapsed_ms },
        }
    }
}

/// Where an answer leads.
pub open spec fn pods_next(p: FindPodsHandler<Seq<char>>, answer: Answer<Seq<char>>) -> PodsStage<
    Seq<char>,
> {
    match (p.stage, answer) {
        (PodsStage::Resolve, Answer::Resolved { resolved }) => match resolved {
            Ok(Some(_)) => PodsStage::Run,
            Ok(None) => refused(
                "environment_not_found"@,
                output::unknown_environment(p.environment),
            ),
            Err(e) => refused("connection_error"@, e),
        },
        (PodsStage::Run, Answer::TimedOut) => PodsStage::Drop,
        (PodsStage::Run, Answer::Ran { ran, elapsed_ms }) => match ran {
            Ok(out) => pods_listed(p, out, elapsed_ms),
            Err(e) => refused("connection_error"@, e),
        },
        (PodsStage::Drop, Answer::Done) => refused(
            "timeout_error"@,
            output::command_timeout(p.secs),
        ),
        _ => p.stage,
    }
}

/// The call after an answer.
pub open spec fn pods_after(p: FindPodsHandler<Seq<char>>, answer: Answer<Seq<char>>) -> FindPodsHandler<
    Seq<char>,
> {
    FindPodsHandler { stage: pods_next(p, answer), ..p }
}

impl FindPodsHandler<String> {
    /// Begins the call that arguments ask for.
    pub fn execute(args: &serde_json::Value) -> (r: Self)
        ensures
            r@ == pods_start(json::view_of(*args)),
    {
        let environment: Option<&str> = json::text_arg(args, "environment");
        FindPodsHandler {
            environment: match environment {
                Some(e) => e.to_owned(),
                None => String::new(),
            },
            pattern: text::own_opt(json::text_arg(args, "pattern")),
            secs: output::timeout_arg(args, DEFAULT_TIMEOUT_SECS, MAX_TIMEOUT_SECS),
            stage: if environment.is_some() {
                PodsStage::Resolve
            } else {
                refuse("invalid_params", "missing required parameter: environment")
            },
        }
    }

    /// What is asked for.
    pub fn request(&self) -> (r: Ask<String>)
        ensures
            r@ == pods_request(self@),
    {
        match &self.stage {
            PodsStage::Resolve => Ask::Resolve {
                environment: self.environment.clone(),
                pod: None,
                namespace: None,
                container: None,
            },
            PodsStage::Run => Ask::Run {
                cmd: KUBECTL_GET_PODS.to_owned(),
                secs: Some(self.secs),
            },
            PodsStage::Drop => Ask::DropEnvironment,
            PodsStage::Ended { outcome: _ } => Ask::Finished,
        }
    }

    fn on_listed(&self, out: Output<String>, elapsed_ms: u64) -> (r: PodsStage<String>)
        ensures
            r@ == pods_listed(self@, out@, elapsed_ms),
    {
        if out.exit_code == 127 || text::has(out.stderr.as_str(), "command not found")
            || text::has(out.stderr.as_str(), "executable file not found") {
            refuse(
                "not_k8s_environment",
                "该环境没有 kubectl（非 Kubernetes 宿主机）。请用 list_processes 在宿主机上定位服务进程。",
            )
        } else if out.exit_code != 0 {
            refuse(
                "kubectl_error",
                kubectl_failed_text(out.exit_code, out.stderr.as_str()).as_str(),
            )
        } else {
            PodsStage::Ended {
                outcome: PodsOutcome::Listed {
                    pattern: text::copy_opt(&self.pattern),
                    stdout: out.stdout,
                    elapsed_ms,
                },
            }
        }
    }

    /// Takes the answer to what was asked for.
    pub fn step(self, answer: Answer<String>) -> (r: Self)
        ensures
            r@ == pods_after(self@, answer@),
    {
        let me: FindPodsHandler<String> = self;
        let stage: PodsStage<String> = match (&me.stage, answer) {
            (PodsStage::Resolve, Answer::Resolved { resolved }) => match resolved {
                Ok(Some(_)) => PodsStage::Run,
                Ok(None) => refuse(
                    "environment_not_found",
                    output::unknown_environment_text(me.environment.as_str()).as_str(),
                ),
                Err(e) => refuse("connection_error", e.as_str()),
            },
            (PodsStage::Run, Answer::TimedOut) => PodsStage::Drop,
            (PodsStage::Run, Answer::Ran { ran, elapsed_ms }) => match ran {
                Ok(out) => me.on_listed(out, elapsed_ms),
                Err(e) => refuse("connection_error", e.as_str()),
            },
            (PodsStage::Drop, Answer::Done) => refuse(
                "timeout_error",
                output::command_timeout_text(me.secs).as_str(),
            ),
            _ => {
                return me;
            },
        };
        FindPodsHandler {
            environment: me.environment,
            pattern: me.pattern,
            secs: me.secs,
            stage,
        }
    }
}

/// A pod as it is shown.
pub open spec fn pod_shown(pod: Pod) -> Json {
    Json::Object(
        json::no_members().insert("name"@, Json::Text(pod.name)).insert(
            "namespace"@,
            Json::Text(pod.namespace),
        ).insert("status"@, Json::Text(pod.status)).insert(
            "containers"@,
            json::texts(pod.containers),
        ).insert("node"@, Json::Text(pod.node)),
    )
}

fn pod_value(pod: &PodInfo) -> (r: serde_json::Value)
    ensures
        json::view_of(r) == pod_shown(pod@),
{
    let mut m: serde_json::Map<String, serde_json::Value> = json::new_map();
    json::insert(&mut m, "name", json::text_value(pod.name.as_str()));
    json::insert(&mut m, "namespace", json::text_value(pod.namespace.as_str()));
    json::insert(&mut m, "status", json::text_value(pod.status.as_str()));
    json::insert(&mut m, "containers", json::text_array(&pod.containers));
    json::insert(&mut m, "node", json::text_value(pod.node.as_str()));
    json::object(m)
}

fn pods_value(list: &Vec<PodInfo>) -> (r: serde_json::Value)
    ensures
        json::view_of(r) == Json::Array(pods(list@).map_values(|p: Pod| pod_shown(p))),
{
    let mut values: Vec<serde_json::Value> = Vec::new();
    let mut i: usize = 0;
    while i < list.len()
        invariant
            i <= list@.len(),
            values@.len() == i,
            forall|j: int|
                0 <= j < i ==> json::view_of(#[trigger] values@[j]) == pod_shown(list@[j]@),
        decreases list@.len() - i,
    {
        values.push(pod_value(&list[i]));
        i = i + 1;
    }
    proof {
        assert(json::views(values@) =~= pods(list@).map_values(|p: Pod| pod_shown(p)));
    }
    json::array(values)
}

/// What a call shows.
pub open spec fn pods_shown(o: PodsOutcome<Seq<char>>) -> Shown {
    match o {
        PodsOutcome::Refused { code, message } => output::refusal(code, message),
        PodsOutcome::Listed { pattern, stdout, elapsed_ms } => {
            let found = matching(pods_of(text::lines(stdout)), pattern);
            Shown {
                success: true,
                data: Json::Object(
                    json::no_members().insert(
                        "pods"@,
                        Json::Array(found.map_values(|p: Pod| pod_shown(p))),
                    ).insert("count"@, Json::Int(found.len() as int)).insert(
                        "note"@,
                        Json::Text("多实例命中时请让用户选择目标 Pod；后续 jvm_* 工具传该 Pod 名作为 pod 参数（PID 为容器内 PID，用带 pod 的 list_processes 获取）。"@),
                    ).insert("elapsed_ms"@, Json::Int(elapsed_ms as int)),
                ),
                raw_stdout: Some(stdout),
            }
        },
    }
}

impl PodsOutcome<String> {
    /// What the call shows.
    pub fn render(self) -> (r: ToolOutput)
        ensures
            r@ == pods_shown(self@),
    {
        match self {
            PodsOutcome::Refused { code, message } => output::error_output(
                code.as_str(),
                message.as_str(),
            ),
            PodsOutcome::Listed { pattern, stdout, elapsed_ms } => {
                let found: Vec<PodInfo> = filter_pods(
                    parse_pods_output(stdout.as_str()),
                    text::as_str_opt(&pattern),
                );
                let mut m: serde_json::Map<String, serde_json::Value> = json::new_map();
                json::insert(&mut m, "pods", pods_value(&found));
                json::insert(&mut m, "count", json::u64_value(found.len() as u64));
                json::insert(
                    &mut m,
                    "note",
                    json::text_value("多实例命中时请让用户选择目标 Pod；后续 jvm_* 工具传该 Pod 名作为 pod 参数（PID 为容器内 PID，用带 pod 的 list_processes 获取）。"),
                );
                json::insert(&mut m, "elapsed_ms", json::u64_value(elapsed_ms));
                ToolOutput { success: true, data: json::object(m), raw_stdout: Some(stdout) }
            },
        }
    }
}

/// A call lists the pods of the environment that it names, from its host, for the time that it asks
/// for; what is shown are the pods of the listing whose names hold the pattern, and how many they are.
pub proof fn law_way_of_a_listing(
    args: Map<Seq<char>, Json>,
    environment: Seq<char>,
    env_id: Seq<char>,
    out: Output<Seq<char>>,
    ms: u64,
)
    requires
        args.contains_key("environment"@) && args["environment"@] == Json::Text(environment),
        out.exit_code == 0,
        !text::contains(out.stderr, "command not found"@),
        !text::contains(out.stderr, "executable file not found"@),
    ensures
        ({
            let p = pods_start(Json::Object(args));
            let p1 = pods_after(p, Answer::Resolved { resolved: Ok(Some(env_id)) });
            let p2 = pods_after(p1, Answer::Ran { ran: Ok(out), elapsed_ms: ms });
            let found = matching(pods_of(text::lines(out.stdout)), p.pattern);
            &&& pods_request(p) == (Ask::<Seq<char>>::Resolve {
                environment,
                pod: None,
                namespace: None,
                container: None,
            })
            &&& args.contains_key("pattern"@) ==> (args["pattern"@] matches Json::Text(t) ==> p.pattern
                == Some(t))
            &&& !args.contains_key("pattern"@) ==> p.pattern is None
            &&& !args.contains_key("timeout_secs"@) ==> p.secs == 30
            &&& p.secs <= 120
            &&& pods_request(p1) matches Ask::Run { cmd, secs } && secs == Some(p.secs)
                && text::starts(cmd, "kubectl get pods -A -o custom-columns=NAME:.metadata.name,"@)
            &&& p2.stage matches PodsStage::Ended { outcome } && {
                let shown = pods_shown(outcome);
                &&& shown.success
                &&& shown.raw_stdout == Some(out.stdout)
                &&& shown.data matches Json::Object(m) && {
                    &&& m["count"@] == Json::Int(found.len() as int)
                    &&& m["elapsed_ms"@] == Json::Int(ms as int)
                    &&& m["pods"@] matches Json::Array(list) && list.len() == found.len() && forall|
                        i: int,
                    |
                        0 <= i < list.len() ==> shows_pod(#[trigger] list[i], found[i])
                }
            }
        }),
{
    reveal_strlit("pods");
    reveal_strlit("count");
    reveal_strlit("note");
    reveal_strlit("elapsed_ms");
    reveal_strlit("name");
    reveal_strlit("namespace");
    reveal_strlit("status");
    reveal_strlit("containers");
    reveal_strlit("node");
    assert("pods"@.len() != "count"@.len());
    assert("pods"@[0] != "note"@[0]);
    assert("pods"@.len() != "elapsed_ms"@.len());
    assert("pods"@[0] != "name"@[0]);
    assert("pods"@.len() != "namespace"@.len());
    assert("pods"@.len() != "status"@.len());
    assert("pods"@.len() != "containers"@.len());
    assert("pods"@[0] != "node"@[0]);
    assert("count"@.len() != "note"@.len());
    assert("count"@.len() != "elapsed_ms"@.len());
    assert("count"@.len() != "name"@.len());
    assert("count"@.len() != "namespace"@.len());
    assert("count"@.len() != "status"@.len());
    assert("count"@.len() != "containers"@.len());
    assert("count"@.len() != "node"@.len());
    assert("note"@.len() != "elapsed_ms"@.len());
    assert("note"@[1] != "name"@[1]);
    assert("note"@.len() != "namespace"@.len());
    assert("note"@.len() != "status"@.len());
    assert("note"@.len() != "containers"@.len());
    assert("note"@[2] != "node"@[2]);
    assert("elapsed_ms"@.len() != "name"@.len());
    assert("elapsed_ms"@.len() != "namespace"@.len());
    assert("elapsed_ms"@.len() != "status"@.len());
    assert("elapsed_ms"@[0] != "containers"@[0]);
    assert("elapsed_ms"@.len() != "node"@.len());
    assert("name"@.len() != "namespace"@.len());
    assert("name"@.len() != "status"@.len());
    assert("name"@.len() != "containers"@.len());
    assert("name"@[1] != "node"@[1]);
    assert("namespace"@.len() != "status"@.len());
    assert("namespace"@.len() != "containers"@.len());
    assert("namespace"@.len() != "node"@.len());
    assert("status"@.len() != "containers"@.len());
    assert("status"@.len() != "node"@.len());
    assert("containers"@.len() != "node"@.len());
    reveal_strlit("kubectl get pods -A -o custom-columns=NAME:.metadata.name,");
    reveal_strlit("kubectl get pods -A -o custom-columns=NAME:.metadata.name,NS:.metadata.namespace,STATUS:.status.phase,CONTAINERS:.spec.containers[*].name,NODE:.spec.nodeName");
    assert(KUBECTL_GET_PODS@.take(58) =~= "kubectl get pods -A -o custom-columns=NAME:.metadata.name,"@);
}

/// Whether a pod is shown as it is.
pub open spec fn shows_pod(v: Json, pod: Pod) -> bool {
    v matches Json::Object(m) && {
        &&& m["name"@] == Json::Text(pod.name)
        &&& m["namespace"@] == Json::Text(pod.namespace)
        &&& m["status"@] == Json::Text(pod.status)
        &&& m["node"@] == Json::Text(pod.node)
        &&& m["containers"@] matches Json::Array(list) && list.len() == pod.containers.len() && forall|
            i: int,
        |
            0 <= i < list.len() ==> #[trigger] list[i] == Json::Text(pod.containers[i])
    }
}

/// How a call fails: with a code that tells what failed, and with what was said of it.
pub proof fn law_listing_failures(
    p: FindPodsHandler<Seq<char>>,
    e: Seq<char>,
    out: Output<Seq<char>>,
    ms: u64,
)
    ensures
        p.stage is Resolve ==> refuses(
            pods_after(p, Answer::Resolved { resolved: Ok(None) }),
            "environment_not_found"@,
            p.environment,
        ) && refuses(
            pods_after(p, Answer::Resolved { resolved: Err(e) }),
            "connection_error"@,
            e,
        ),
        p.stage is Run ==> {
            let ran = pods_after(p, Answer::Ran { ran: Ok(out), elapsed_ms: ms });
            let late = pods_after(p, Answer::TimedOut);
            &&& refuses(
                pods_after(p, Answer::Ran { ran: Err(e), elapsed_ms: ms }),
                "connection_error"@,
                e,
            )
            &&& out.exit_code == 127 || text::contains(out.stderr, "command not found"@)
                || text::contains(out.stderr, "executable file not found"@) ==> refuses(
                ran,
                "not_k8s_environment"@,
                "list_processes"@,
            )
            &&& out.exit_code != 0 && out.exit_code != 127 && !text::contains(
                out.stderr,
                "command not found"@,
            ) && !text::contains(out.stderr, "executable file not found"@) ==> refuses(
                ran,
                "kubectl_error"@,
                out.stderr,
            )
            &&& pods_request(late) is DropEnvironment
            &&& refuses(
                pods_after(late, Answer::Done),
                "timeout_error"@,
                text::dec(p.secs as nat),
            )
        },
{
    let z = Seq::<char>::empty();
    text::lemma_contains(z, e, z);
    assert(z + e + z =~= e);
    text::lemma_contains("环境「"@, p.environment, "」不存在。请先调用 list_environments 查看可用环境；若无匹配，请让用户在右侧「环境」面板添加。"@);
    text::lemma_part("kubectl get pods failed (exit "@ + text::signed_dec(out.exit_code as int) + "): "@, out.stderr);
    text::lemma_contains("command timed out after "@, text::dec(p.secs as nat), "s"@);
    reveal_strlit("该环境没有 kubectl（非 Kubernetes 宿主机）。请用 list_processes 在宿主机上定位服务进程。");
    reveal_strlit("list_processes");
    assert("该环境没有 kubectl（非 Kubernetes 宿主机）。请用 list_processes 在宿主机上定位服务进程。"@.subrange(35, 49) =~= "list_processes"@);
    assert(text::occurs_at("该环境没有 kubectl（非 Kubernetes 宿主机）。请用 list_processes 在宿主机上定位服务进程。"@, "list_processes"@, 35));
}

/// Whether a call ended in a refusal with a code, whose message holds a text.
pub open spec fn refuses(p: FindPodsHandler<Seq<char>>, code: Seq<char>, part: Seq<char>) -> bool {
    p.stage matches PodsStage::Ended { outcome: PodsOutcome::Refused { code: k, message } } && k == code
        && text::contains(message, part)
}

/// An ended call stays as it is.
pub proof fn law_pods_end_is_final(p: FindPodsHandler<Seq<char>>, answer: Answer<Seq<char>>)
    requires
        p.stage is Ended,
    ensures
        pods_after(p, answer) == p,
        pods_request(p) is Finished,
{
}

// ---------------------------------------------------------------------------------------------
// The tool
// ---------------------------------------------------------------------------------------------

/// The tool that finds pods.
pub open spec fn pods_offer() -> Offer {
    Offer {
        name: "k8s_find_pods"@,
        description: "在 Kubernetes 宿主机上按服务名发现 Pod（kubectl get pods -A + 名称过滤），返回 Pod/命名空间/容器列表/状态/节点。诊断入口：用户说「检查 xx 服务的内存」而环境是 K8s 宿主机时，先用本工具定位 Pod；多实例时向用户确认选哪个。之后的诊断工具传 pod（+container）参数。宿主机与 Pod 内进程可分别用 list_processes（不传/传 pod）排查。"@,
        input_schema: output::object_schema(
            json::no_members().insert(
                "environment"@,
                output::prop("string"@, "目标环境名称（list_environments 返回的 name）"@),
            ).insert(
                "pattern"@,
                output::prop(
                    "string"@,
                    "Pod 名过滤关键字（大小写不敏感包含匹配；缺省返回全部）"@,
                ),
            ).insert(
                "timeout_secs"@,
                output::prop("number"@, "超时秒数，默认 30，上限 120"@),
            ),
            seq!["environment"@],
        ),
        risk_level: RiskLevel::ReadOnly,
        category: ToolCategory::K8s,
        needs_channel: false,
    }
}

/// The tool that finds pods.
pub fn k8s_find_pods_tool_def() -> (r: ToolDef)
    ensures
        r@ == pods_offer(),
{
    let mut props: serde_json::Map<String, serde_json::Value> = json::new_map();
    json::insert(
        &mut props,
        "environment",
        output::prop_value("string", "目标环境名称（list_environments 返回的 name）"),
    );
    json::insert(
        &mut props,
        "pattern",
        output::prop_value(
            "string",
            "Pod 名过滤关键字（大小写不敏感包含匹配；缺省返回全部）",
        ),
    );
    json::insert(
        &mut props,
        "timeout_secs",
        output::prop_value("number", "超时秒数，默认 30，上限 120"),
    );
    ToolDef {
        name: "k8s_find_pods".to_owned(),
        description: "在 Kubernetes 宿主机上按服务名发现 Pod（kubectl get pods -A + 名称过滤），返回 Pod/命名空间/容器列表/状态/节点。诊断入口：用户说「检查 xx 服务的内存」而环境是 K8s 宿主机时，先用本工具定位 Pod；多实例时向用户确认选哪个。之后的诊断工具传 pod（+container）参数。宿主机与 Pod 内进程可分别用 list_processes（不传/传 pod）排查。".to_owned(),
        input_schema: output::object_schema_value(props, &output::one("environment")),
        risk_level: RiskLevel::ReadOnly,
        category: ToolCategory::K8s,
        needs_channel: false,
    }
}

/// The tool takes an environment, which it needs, a pattern and a time limit, and nothing else; it
/// changes nothing.
pub proof fn law_pods_tool_says_what_it_takes(key: Seq<char>)
    ensures
        ({
            let o = pods_offer();
            &&& o.name == "k8s_find_pods"@
            &&& output::parameter(o, "environment"@) == Some("string"@)
            &&& output::parameter(o, "pattern"@) == Some("string"@)
            &&& output::parameter(o, "timeout_secs"@) == Some("number"@)
            &&& key != "environment"@ && key != "pattern"@ && key != "timeout_secs"@
                ==> output::parameter(o, key) is None
            &&& output::required_parameters(o) == Some(json::texts(seq!["environment"@]))
            &&& o.risk_level == RiskLevel::ReadOnly
            &&& o.category == ToolCategory::K8s
            &&& !o.needs_channel
        }),
{
    let o = pods_offer();
    let props = json::no_members()
        .insert("environment"@, output::prop("string"@, "目标环境名称（list_environments 返回的 name）"@))
        .insert("pattern"@, output::prop("string"@, "Pod 名过滤关键字（大小写不敏感包含匹配；缺省返回全部）"@))
        .insert("timeout_secs"@, output::prop("number"@, "超时秒数，默认 30，上限 120"@));
    reveal_strlit("environment");
    reveal_strlit("pattern");
    reveal_strlit("timeout_secs");
    assert("environment"@.len() != "pattern"@.len());
    assert("environment"@.len() != "timeout_secs"@.len());
    assert("pattern"@.len() != "timeout_secs"@.len());
    output::law_schema_lists_its_properties(o, props, seq!["environment"@], "environment"@);
    output::law_schema_lists_its_properties(o, props, seq!["environment"@], "pattern"@);
    output::law_schema_lists_its_properties(o, props, seq!["environment"@], "timeout_secs"@);
    output::law_schema_lists_its_properties(o, props, seq!["environment"@], key);
    output::law_property_says_its_type("string"@, "目标环境名称（list_environments 返回的 name）"@);
    output::law_property_says_its_type("string"@, "Pod 名过滤关键字（大小写不敏感包含匹配；缺省返回全部）"@);
    output::law_property_says_its_type("number"@, "超时秒数，默认 30，上限 120"@);
}

} // verus!
