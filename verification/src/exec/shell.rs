//! A model of the shell: what scripts of a few forms print, by which of their tests succeed and by
//! what the programs that they run have to say.

use vstd::prelude::*;

use crate::text;

verus! {

/// A script of the shell.
pub enum Script {
    /// Prints a word. The word `$p` stands for the value of the variable `p`.
    Echo { word: Seq<char> },
    /// Prints a word that stands between single quotes, and holds none itself.
    EchoQuoted { word: Seq<char> },
    /// Runs a program, which prints what it has to say.
    Run { cmd: Seq<char> },
    /// Does one thing after the other.
    Both { first: Box<Script>, second: Box<Script> },
    /// Does the one thing where a test succeeds, and the other where it does not.
    If { test: Seq<char>, yes: Box<Script>, no: Box<Script> },
    /// The same, written with operators.
    Either { test: Seq<char>, yes: Box<Script>, no: Box<Script> },
    /// Does something where a test does not succeed.
    Unless { test: Seq<char>, no: Box<Script> },
}

/// How a script is written.
pub open spec fn source(s: Script) -> Seq<char>
    decreases s,
{
    match s {
        Script::Echo { word } => "echo "@ + word,
        Script::EchoQuoted { word } => "echo '"@ + word + "'"@,
        Script::Run { cmd } => cmd,
        Script::Both { first, second } => source(*first) + "; "@ + source(*second),
        Script::If { test, yes, no } => "if "@ + test + "; then "@ + source(*yes) + "; else "@
            + source(*no) + "; fi"@,
        Script::Either { test, yes, no } => test + " && "@ + source(*yes) + " || "@ + source(*no),
        Script::Unless { test, no } => test + " || "@ + source(*no),
    }
}

/// The lines that a script prints while `p` is the value of its variable. `succeeds` says which
/// tests succeed for which value, `says` what programs print.
pub open spec fn printed(
    s: Script,
    p: nat,
    succeeds: spec_fn(Seq<char>, nat) -> bool,
    says: spec_fn(Seq<char>) -> Seq<Seq<char>>,
) -> Seq<Seq<char>>
    decreases s,
{
    match s {
        Script::Echo { word } => seq![
            if word == "$p"@ {
                text::dec(p)
            } else {
                word
            },
        ],
        Script::EchoQuoted { word } => seq![word],
        Script::Run { cmd } => says(cmd),
        Script::Both { first, second } => printed(*first, p, succeeds, says) + printed(
            *second,
            p,
            succeeds,
            says,
        ),
        Script::If { test, yes, no } => if succeeds(test, p) {
            printed(*yes, p, succeeds, says)
        } else {
            printed(*no, p, succeeds, says)
        },
        Script::Either { test, yes, no } => if succeeds(test, p) {
            printed(*yes, p, succeeds, says)
        } else {
            printed(*no, p, succeeds, says)
        },
        Script::Unless { test, no } => if succeeds(test, p) {
            Seq::empty()
        } else {
            printed(*no, p, succeeds, says)
        },
    }
}

/// How a loop is written that runs a script for each number of a range and passes the first lines
/// of what it prints.
pub open spec fn loop_source(first: nat, last: nat, body: Script, limit: nat) -> Seq<char> {
    "for p in $(seq "@ + text::dec(first) + " "@ + text::dec(last) + "); do "@ + source(body)
        + "; done | head -"@ + text::dec(limit) + "; true"@
}

/// What the script prints for the numbers of a range, one after the other.
pub open spec fn rounds_printed(
    first: nat,
    last: nat,
    body: Script,
    succeeds: spec_fn(Seq<char>, nat) -> bool,
    says: spec_fn(Seq<char>) -> Seq<Seq<char>>,
) -> Seq<Seq<char>>
    decreases last + 1 - first,
{
    if first > last {
        Seq::empty()
    } else {
        printed(body, first, succeeds, says) + rounds_printed(
            first + 1,
            last,
            body,
            succeeds,
            says,
        )
    }
}

/// The lines that such a loop prints.
pub open spec fn loop_printed(
    first: nat,
    last: nat,
    body: Script,
    limit: nat,
    succeeds: spec_fn(Seq<char>, nat) -> bool,
    says: spec_fn(Seq<char>) -> Seq<Seq<char>>,
) -> Seq<Seq<char>> {
    let all = rounds_printed(first, last, body, succeeds, says);
    if all.len() > limit {
        all.take(limit as int)
    } else {
        all
    }
}

/// Lines as they are printed, each with a line feed behind it.
pub open spec fn as_text(lines: Seq<Seq<char>>) -> Seq<char>
    decreases lines.len(),
{
    if lines.len() == 0 {
        Seq::empty()
    } else {
        as_text(lines.drop_last()) + (lines.last() + seq!['\n'])
    }
}

/// Whether `lines` are the numerals of the numbers of a range that are wanted, in order.
pub open spec fn lists(
    lines: Seq<Seq<char>>,
    first: nat,
    last: nat,
    wanted: spec_fn(nat) -> bool,
) -> bool
    decreases last + 1 - first,
{
    if first > last {
        lines.len() == 0
    } else if wanted(first) {
        lines.len() > 0 && lines[0] == text::dec(first) && lists(
            lines.subrange(1, lines.len() as int),
            first + 1,
            last,
            wanted,
        )
    } else {
        lists(lines, first + 1, last, wanted)
    }
}

/// A loop whose script prints the number where it is wanted, and nothing else, prints the wanted
/// numbers of its range.
pub proof fn lemma_rounds_list(
    first: nat,
    last: nat,
    body: Script,
    succeeds: spec_fn(Seq<char>, nat) -> bool,
    says: spec_fn(Seq<char>) -> Seq<Seq<char>>,
    wanted: spec_fn(nat) -> bool,
)
    requires
        forall|p: nat| #[trigger]
            printed(body, p, succeeds, says) == (if wanted(p) {
                seq![text::dec(p)]
            } else {
                Seq::empty()
            }),
    ensures
        lists(rounds_printed(first, last, body, succeeds, says), first, last, wanted),
    decreases last + 1 - first,
{
    if first <= last {
        lemma_rounds_list(first + 1, last, body, succeeds, says, wanted);
        let rest = rounds_printed(first + 1, last, body, succeeds, says);
        let lines = rounds_printed(first, last, body, succeeds, says);
        let one = printed(body, first, succeeds, says);
        if wanted(first) {
            assert(lines.subrange(1, lines.len() as int) =~= rest);
        } else {
            assert(lines =~= rest);
        }
    }
}

/// What the first two lines of a list are: the first two wanted numbers of the range, and fewer
/// than two only where there are fewer.
pub open spec fn first_two(
    lines: Seq<Seq<char>>,
    first: nat,
    last: nat,
    wanted: spec_fn(nat) -> bool,
    a: nat,
    b: nat,
) -> bool {
    &&& lines.len() >= 2 ==> {
        &&& lines[0] == text::dec(a)
        &&& lines[1] == text::dec(b)
        &&& first <= a < b <= last
        &&& wanted(a) && wanted(b)
        &&& forall|c: nat| first <= c < b && c != a ==> !#[trigger] wanted(c)
    }
    &&& lines.len() == 1 ==> {
        &&& lines[0] == text::dec(a)
        &&& first <= a <= last
        &&& wanted(a)
        &&& forall|c: nat| first <= c <= last && c != a ==> !#[trigger] wanted(c)
    }
    &&& lines.len() == 0 ==> forall|c: nat| first <= c <= last ==> !#[trigger] wanted(c)
}

/// A list of the wanted numbers of a range begins with the first two of them.
pub proof fn lemma_first_two(
    lines: Seq<Seq<char>>,
    first: nat,
    last: nat,
    wanted: spec_fn(nat) -> bool,
) -> (r: (nat, nat))
    requires
        lists(lines, first, last, wanted),
    ensures
        first_two(lines, first, last, wanted, r.0, r.1),
    decreases last + 1 - first,
{
    if first > last {
        (0, 0)
    } else if !wanted(first) {
        let r = lemma_first_two(lines, first + 1, last, wanted);
        r
    } else {
        let rest = lines.subrange(1, lines.len() as int);
        let r = lemma_first_two(rest, first + 1, last, wanted);
        assert(lines.len() >= 2 ==> lines[1] == rest[0]);
        (first, r.0)
    }
}

} // verus!
