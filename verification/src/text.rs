//! Text as sequences of characters: what the shell output parsers and the command builders
//! need of strings, stated over `Seq<char>`.

use vstd::prelude::*;

verus! {

// ---------------------------------------------------------------------------------------------
// Characters
// ---------------------------------------------------------------------------------------------

/// The characters that Unicode gives the property `White_Space`.
pub open spec fn is_white(c: char) -> bool {
    ||| '\u{9}' <= c <= '\u{d}'
    ||| c == ' '
    ||| c == '\u{85}'
    ||| c == '\u{a0}'
    ||| c == '\u{1680}'
    ||| '\u{2000}' <= c <= '\u{200a}'
    ||| c == '\u{2028}'
    ||| c == '\u{2029}'
    ||| c == '\u{202f}'
    ||| c == '\u{205f}'
    ||| c == '\u{3000}'
}

/// Whether `c` is a white space character.
pub fn is_white_char(c: char) -> (r: bool)
    ensures
        r == is_white(c),
{
    ('\u{9}' <= c && c <= '\u{d}') || c == ' ' || c == '\u{85}' || c == '\u{a0}' || c == '\u{1680}'
        || ('\u{2000}' <= c && c <= '\u{200a}') || c == '\u{2028}' || c == '\u{2029}'
        || c == '\u{202f}' || c == '\u{205f}' || c == '\u{3000}'
}

/// The ASCII digits.
pub open spec fn is_digit(c: char) -> bool {
    '0' <= c <= '9'
}

/// The digit that stands for `d`, for `d` under ten.
pub open spec fn digit_char(d: int) -> char {
    (d + '0' as int) as char
}

/// What the digit `c` stands for.
pub open spec fn digit_value(c: char) -> int {
    c as int - '0' as int
}

/// Whether `c` is an ASCII digit.
pub fn is_digit_char(c: char) -> (r: bool)
    ensures
        r == is_digit(c),
{
    '0' <= c && c <= '9'
}

// ---------------------------------------------------------------------------------------------
// Strings and vectors of characters
// ---------------------------------------------------------------------------------------------

/// Calls `String::push`: the character becomes the last of the string.
#[verifier::external_body]
pub(crate) fn push_char(s: &mut String, c: char)
    ensures
        final(s)@ == old(s)@.push(c),
{
    s.push(c);
}

/// The characters of `s`.
pub fn to_chars(s: &str) -> (r: Vec<char>)
    ensures
        r@ == s@,
{
    let mut out: Vec<char> = Vec::new();
    for c in it: s.chars()
        invariant
            it.seq() == s@,
            out@ == s@.take(it.index() as int),
    {
        proof {
            assert(s@.take(it.index() as int).push(s@[it.index() as int]) =~= s@.take(
                it.index() as int + 1,
            ));
        }
        out.push(c);
    }
    proof {
        assert(s@.take(s@.len() as int) =~= s@);
    }
    out
}

/// The characters of `s` from `from` up to `to`, as a string.
pub fn slice_text(s: &Vec<char>, from: usize, to: usize) -> (r: String)
    requires
        from <= to <= s@.len(),
    ensures
        r@ == s@.subrange(from as int, to as int),
{
    let mut out: String = String::new();
    let mut i: usize = from;
    while i < to
        invariant
            from <= i <= to <= s@.len(),
            out@ == s@.subrange(from as int, i as int),
        decreases to - i,
    {
        proof {
            assert(s@.subrange(from as int, i as int).push(s@[i as int]) =~= s@.subrange(
                from as int,
                i as int + 1,
            ));
        }
        push_char(&mut out, s[i]);
        i = i + 1;
    }
    out
}

/// Whether two strings hold the same characters.
pub fn same(a: &str, b: &str) -> (r: bool)
    ensures
        r == (a@ == b@),
{
    let x: Vec<char> = to_chars(a);
    let y: Vec<char> = to_chars(b);
    if x.len() != y.len() {
        return false;
    }
    let mut i: usize = 0;
    while i < x.len()
        invariant
            i <= x@.len(),
            x@ == a@,
            y@ == b@,
            x@.len() == y@.len(),
            forall|j: int| 0 <= j < i ==> a@[j] == b@[j],
        decreases x.len() - i,
    {
        if x[i] != y[i] {
            return false;
        }
        i = i + 1;
    }
    proof {
        assert(a@ =~= b@);
    }
    true
}

/// The contents of the strings of a sequence.
pub open spec fn views(v: Seq<String>) -> Seq<Seq<char>> {
    v.map_values(|s: String| s@)
}

/// The contents of an optional string.
pub open spec fn opt(s: Option<String>) -> Option<Seq<char>> {
    match s {
        Some(t) => Some(t@),
        None => None,
    }
}

/// The contents of an optional string slice.
pub open spec fn opt_str(s: Option<&str>) -> Option<Seq<char>> {
    match s {
        Some(t) => Some(t@),
        None => None,
    }
}

/// A copy of an optional string.
pub fn copy_opt(s: &Option<String>) -> (r: Option<String>)
    ensures
        opt(r) == opt(*s),
{
    match s {
        Some(t) => Some(t.clone()),
        None => None,
    }
}

/// An owned copy of an optional string slice.
pub fn own_opt(s: Option<&str>) -> (r: Option<String>)
    ensures
        opt(r) == opt_str(s),
{
    match s {
        Some(t) => Some(t.to_owned()),
        None => None,
    }
}

/// Whether two optional strings are the same.
pub fn same_opt(a: &Option<String>, b: &Option<String>) -> (r: bool)
    ensures
        r == (opt(*a) == opt(*b)),
{
    match (a, b) {
        (Some(x), Some(y)) => same(x.as_str(), y.as_str()),
        (None, None) => true,
        _ => false,
    }
}

/// The slice that an optional string holds.
pub fn as_str_opt<'a>(s: &'a Option<String>) -> (r: Option<&'a str>)
    ensures
        opt_str(r) == opt(*s),
{
    match s {
        Some(t) => Some(t.as_str()),
        None => None,
    }
}

/// `None` for an absent or empty text, the text itself otherwise.
pub open spec fn non_blank(s: Option<Seq<char>>) -> Option<Seq<char>> {
    match s {
        Some(t) => if t.len() == 0 {
            None
        } else {
            Some(t)
        },
        None => None,
    }
}

/// Treats an empty text as absent.
pub fn filter_empty<'a>(s: Option<&'a str>) -> (r: Option<&'a str>)
    ensures
        opt_str(r) == non_blank(opt_str(s)),
{
    match s {
        Some(t) => if t.is_empty() {
            None
        } else {
            Some(t)
        },
        None => None,
    }
}

// ---------------------------------------------------------------------------------------------
// Trimming
// ---------------------------------------------------------------------------------------------

/// `s` without its leading white space.
pub open spec fn trim_start(s: Seq<char>) -> Seq<char>
    decreases s.len(),
{
    if s.len() > 0 && is_white(s[0]) {
        trim_start(s.subrange(1, s.len() as int))
    } else {
        s
    }
}

/// `s` without its trailing white space.
pub open spec fn trim_end(s: Seq<char>) -> Seq<char>
    decreases s.len(),
{
    if s.len() > 0 && is_white(s.last()) {
        trim_end(s.subrange(0, s.len() - 1))
    } else {
        s
    }
}

/// `s` without leading and trailing white space.
pub open spec fn trimmed(s: Seq<char>) -> Seq<char> {
    trim_end(trim_start(s))
}

/// `s` without leading and trailing white space.
pub fn trim(s: &str) -> (r: String)
    ensures
        r@ == trimmed(s@),
{
    let x: Vec<char> = to_chars(s);
    let mut from: usize = 0;
    proof {
        assert(s@.subrange(0, s@.len() as int) =~= s@);
    }
    while from < x.len() && is_white_char(x[from])
        invariant
            x@ == s@,
            from <= x@.len(),
            trim_start(s@.subrange(from as int, s@.len() as int)) == trim_start(s@),
        decreases x.len() - from,
    {
        proof {
            let rest = s@.subrange(from as int, s@.len() as int);
            assert(rest.subrange(1, rest.len() as int) =~= s@.subrange(
                from as int + 1,
                s@.len() as int,
            ));
        }
        from = from + 1;
    }
    let mut to: usize = x.len();
    while from < to && is_white_char(x[to - 1])
        invariant
            x@ == s@,
            from <= to <= x@.len(),
            trim_end(s@.subrange(from as int, to as int)) == trim_end(
                s@.subrange(from as int, s@.len() as int),
            ),
        decreases to - from,
    {
        proof {
            let part = s@.subrange(from as int, to as int);
            assert(part.subrange(0, part.len() - 1) =~= s@.subrange(from as int, to as int - 1));
        }
        to = to - 1;
    }
    slice_text(&x, from, to)
}

// ---------------------------------------------------------------------------------------------
// Splitting
// ---------------------------------------------------------------------------------------------

/// What a text is split at.
#[derive(Clone, Copy, Debug, PartialEq, Eq)]
pub enum Sep {
    /// One given character.
    Char(char),
    /// Any white space character.
    White,
    /// The characters between the parts of a version: `.`, `_`, `-` and `+`.
    Version,
}

/// Whether a text is split at `c`.
pub open spec fn is_sep(sep: Sep, c: char) -> bool {
    match sep {
        Sep::Char(x) => c == x,
        Sep::White => is_white(c),
        Sep::Version => c == '.' || c == '_' || c == '-' || c == '+',
    }
}

/// The pieces between separators, in order, empty ones included. There is always one more piece
/// than there are separators.
pub open spec fn split(s: Seq<char>, sep: Sep) -> Seq<Seq<char>>
    decreases s.len(),
{
    if s.len() == 0 {
        seq![Seq::<char>::empty()]
    } else {
        let before = split(s.drop_last(), sep);
        if is_sep(sep, s.last()) {
            before.push(Seq::<char>::empty())
        } else {
            before.drop_last().push(before.last().push(s.last()))
        }
    }
}

/// The pieces that are not empty, in order.
pub open spec fn non_empty(pieces: Seq<Seq<char>>) -> Seq<Seq<char>>
    decreases pieces.len(),
{
    if pieces.len() == 0 {
        Seq::empty()
    } else if pieces.last().len() == 0 {
        non_empty(pieces.drop_last())
    } else {
        non_empty(pieces.drop_last()).push(pieces.last())
    }
}

/// The maximal runs of characters that are not white space.
pub open spec fn words(s: Seq<char>) -> Seq<Seq<char>> {
    non_empty(split(s, Sep::White))
}

/// A line without one carriage return at its end.
pub open spec fn strip_cr(line: Seq<char>) -> Seq<char> {
    if line.len() > 0 && line.last() == '\r' {
        line.drop_last()
    } else {
        line
    }
}

/// The lines of `s`: each ends at a line feed or at a carriage return and line feed, which are
/// not part of it; the last one may lack its end, and is dropped if it is then empty.
pub open spec fn lines(s: Seq<char>) -> Seq<Seq<char>> {
    let pieces = split(s, Sep::Char('\n'));
    let ended = pieces.drop_last().map_values(|l: Seq<char>| strip_cr(l));
    if pieces.last().len() == 0 {
        ended
    } else {
        ended.push(pieces.last())
    }
}

/// The lines of `s`, trimmed, without those that are blank.
pub open spec fn filled_lines(s: Seq<char>) -> Seq<Seq<char>> {
    non_empty(lines(s).map_values(|l: Seq<char>| trimmed(l)))
}

pub proof fn lemma_split_len(s: Seq<char>, sep: Sep)
    ensures
        split(s, sep).len() >= 1,
    decreases s.len(),
{
    if s.len() > 0 {
        lemma_split_len(s.drop_last(), sep);
    }
}

/// Whether a text is split at `c`.
pub fn is_sep_char(sep: Sep, c: char) -> (r: bool)
    ensures
        r == is_sep(sep, c),
{
    match sep {
        Sep::Char(x) => c == x,
        Sep::White => is_white_char(c),
        Sep::Version => c == '.' || c == '_' || c == '-' || c == '+',
    }
}

/// The pieces of `s` between separators.
pub fn split_text(s: &str, sep: Sep) -> (r: Vec<String>)
    ensures
        views(r@) == split(s@, sep),
{
    let x: Vec<char> = to_chars(s);
    let mut done: Vec<String> = Vec::new();
    let mut cur: String = String::new();
    let mut i: usize = 0;
    proof {
        assert(views(done@).push(cur@) =~= split(s@.take(0), sep));
    }
    while i < x.len()
        invariant
            x@ == s@,
            i <= x@.len(),
            views(done@).push(cur@) == split(s@.take(i as int), sep),
        decreases x.len() - i,
    {
        let c: char = x[i];
        let ghost before = views(done@).push(cur@);
        let ghost cur0 = cur@;
        let ghost done0 = done@;
        proof {
            assert(s@.take(i as int + 1).drop_last() =~= s@.take(i as int));
            assert(s@.take(i as int + 1).last() == c);
            assert(before.drop_last() =~= views(done0));
        }
        if is_sep_char(sep, c) {
            done.push(cur);
            cur = String::new();
            proof {
                assert(views(done@) =~= before);
                assert(cur@ =~= Seq::<char>::empty());
            }
        } else {
            push_char(&mut cur, c);
        }
        i = i + 1;
    }
    let ghost done0 = done@;
    let ghost last = cur@;
    done.push(cur);
    proof {
        assert(s@.take(i as int) =~= s@);
        assert(views(done@) =~= views(done0).push(last));
    }
    done
}

/// The strings of `pieces` that are not empty.
pub fn keep_filled(pieces: &Vec<String>) -> (r: Vec<String>)
    ensures
        views(r@) == non_empty(views(pieces@)),
{
    let mut out: Vec<String> = Vec::new();
    let mut i: usize = 0;
    proof {
        assert(views(out@) =~= non_empty(views(pieces@).take(0)));
    }
    while i < pieces.len()
        invariant
            i <= pieces@.len(),
            views(out@) == non_empty(views(pieces@).take(i as int)),
        decreases pieces.len() - i,
    {
        let ghost out0 = out@;
        proof {
            let v = views(pieces@);
            assert(v.take(i as int + 1).drop_last() =~= v.take(i as int));
            assert(v.take(i as int + 1).last() == pieces@[i as int]@);
        }
        if !pieces[i].as_str().is_empty() {
            out.push(pieces[i].clone());
            proof {
                assert(views(out@) =~= views(out0).push(pieces@[i as int]@));
            }
        }
        i = i + 1;
    }
    proof {
        assert(views(pieces@).take(i as int) =~= views(pieces@));
    }
    out
}

/// The words of `s`.
pub fn words_of(s: &str) -> (r: Vec<String>)
    ensures
        views(r@) == words(s@),
{
    keep_filled(&split_text(s, Sep::White))
}

/// A copy of `line` without one carriage return at its end.
pub fn without_cr(line: &str) -> (r: String)
    ensures
        r@ == strip_cr(line@),
{
    let x: Vec<char> = to_chars(line);
    if x.len() > 0 && x[x.len() - 1] == '\r' {
        slice_text(&x, 0, x.len() - 1)
    } else {
        line.to_owned()
    }
}

/// The lines of `s`.
pub fn lines_of(s: &str) -> (r: Vec<String>)
    ensures
        views(r@) == lines(s@),
{
    let pieces: Vec<String> = split_text(s, Sep::Char('\n'));
    proof {
        lemma_split_len(s@, Sep::Char('\n'));
        assert(views(pieces@).len() == pieces@.len());
    }
    let last: usize = pieces.len() - 1;
    let mut out: Vec<String> = Vec::new();
    let mut i: usize = 0;
    let ghost ended = views(pieces@).drop_last().map_values(|l: Seq<char>| strip_cr(l));
    while i < last
        invariant
            i <= last,
            last == pieces@.len() - 1,
            ended == views(pieces@).drop_last().map_values(|l: Seq<char>| strip_cr(l)),
            views(out@) =~= ended.take(i as int),
        decreases last - i,
    {
        let ghost out0 = out@;
        let line: String = without_cr(pieces[i].as_str());
        let ghost l = line@;
        out.push(line);
        proof {
            assert(views(out@) =~= views(out0).push(l));
            assert(ended.take(i as int + 1) =~= ended.take(i as int).push(ended[i as int]));
        }
        i = i + 1;
    }
    proof {
        assert(ended.take(i as int) =~= ended);
        assert(views(pieces@).last() == pieces@[last as int]@);
    }
    if !pieces[last].as_str().is_empty() {
        let ghost out0 = out@;
        out.push(pieces[last].clone());
        proof {
            assert(views(out@) =~= views(out0).push(pieces@[last as int]@));
        }
    }
    out
}

/// The lines of `s`, trimmed, without those that are blank.
pub fn filled_lines_of(s: &str) -> (r: Vec<String>)
    ensures
        views(r@) == filled_lines(s@),
{
    let all: Vec<String> = lines_of(s);
    let mut out: Vec<String> = Vec::new();
    let mut i: usize = 0;
    let ghost f = |l: Seq<char>| trimmed(l);
    while i < all.len()
        invariant
            i <= all@.len(),
            views(all@) == lines(s@),
            f == (|l: Seq<char>| trimmed(l)),
            views(out@) =~= lines(s@).take(i as int).map_values(f),
        decreases all.len() - i,
    {
        let ghost out0 = out@;
        let t: String = trim(all[i].as_str());
        let ghost tv = t@;
        out.push(t);
        proof {
            assert(lines(s@)[i as int] == all@[i as int]@);
            assert(views(out@) =~= views(out0).push(tv));
        }
        i = i + 1;
    }
    proof {
        assert(views(out@) =~= lines(s@).map_values(f));
    }
    keep_filled(&out)
}

// ---------------------------------------------------------------------------------------------
// Searching
// ---------------------------------------------------------------------------------------------

/// Whether `t` stands in `s` at position `i`.
pub open spec fn occurs_at(s: Seq<char>, t: Seq<char>, i: int) -> bool {
    0 <= i && i + t.len() <= s.len() && s.subrange(i, i + t.len()) == t
}

/// Whether `t` stands somewhere in `s`.
pub open spec fn contains(s: Seq<char>, t: Seq<char>) -> bool {
    exists|i: int| occurs_at(s, t, i)
}

/// The first position at which `t` stands in `s`.
pub open spec fn is_first(s: Seq<char>, t: Seq<char>, i: int) -> bool {
    occurs_at(s, t, i) && forall|j: int| 0 <= j < i ==> !occurs_at(s, t, j)
}

/// What stands before and after the first `t` in `s`.
pub open spec fn split_once(s: Seq<char>, t: Seq<char>) -> Option<(Seq<char>, Seq<char>)> {
    if contains(s, t) {
        let i = choose|i: int| is_first(s, t, i);
        Some((s.subrange(0, i), s.subrange(i + t.len(), s.len() as int)))
    } else {
        None
    }
}

/// There is at most one first position.
pub proof fn lemma_first_unique(s: Seq<char>, t: Seq<char>, i: int, j: int)
    requires
        is_first(s, t, i),
        is_first(s, t, j),
    ensures
        i == j,
{
}

proof fn lemma_first_from(s: Seq<char>, t: Seq<char>, i: int) -> (first: int)
    requires
        occurs_at(s, t, i),
    ensures
        is_first(s, t, first),
    decreases i,
{
    if forall|j: int| 0 <= j < i ==> !occurs_at(s, t, j) {
        i
    } else {
        let j = choose|j: int| 0 <= j < i && occurs_at(s, t, j);
        lemma_first_from(s, t, j)
    }
}

/// A text that stands in `s` has a first position.
pub proof fn lemma_has_first(s: Seq<char>, t: Seq<char>) -> (first: int)
    requires
        contains(s, t),
    ensures
        is_first(s, t, first),
{
    let i = choose|i: int| occurs_at(s, t, i);
    lemma_first_from(s, t, i)
}

/// What stands before and after the first `t` is found at its first position.
pub proof fn lemma_split_once_at(s: Seq<char>, t: Seq<char>, i: int)
    requires
        is_first(s, t, i),
    ensures
        split_once(s, t) == Some((s.subrange(0, i), s.subrange(i + t.len(), s.len() as int))),
{
    let j = choose|j: int| is_first(s, t, j);
    lemma_first_unique(s, t, i, j);
}

/// Whether `t` stands in `s` at position `i`.
fn matches_at(s: &Vec<char>, t: &Vec<char>, i: usize) -> (r: bool)
    ensures
        r == occurs_at(s@, t@, i as int),
{
    let n: usize = s.len();
    if i > n || t.len() > n - i {
        return false;
    }
    let mut k: usize = 0;
    while k < t.len()
        invariant
            n == s@.len(),
            i + t@.len() <= n,
            k <= t@.len(),
            forall|j: int| 0 <= j < k ==> s@[i + j] == t@[j],
        decreases t.len() - k,
    {
        if s[i + k] != t[k] {
            proof {
                assert(s@.subrange(i as int, i + t@.len())[k as int] == s@[i + k]);
            }
            return false;
        }
        k = k + 1;
    }
    proof {
        assert(s@.subrange(i as int, i + t@.len()) =~= t@);
    }
    true
}

/// The first position at which `t` stands in `s`.
pub fn find(s: &Vec<char>, t: &Vec<char>) -> (r: Option<usize>)
    ensures
        match r {
            Some(i) => is_first(s@, t@, i as int) && contains(s@, t@),
            None => !contains(s@, t@),
        },
{
    let mut i: usize = 0;
    loop
        invariant
            i <= s@.len(),
            forall|j: int| 0 <= j < i ==> !occurs_at(s@, t@, j),
        decreases s.len() - i,
    {
        if matches_at(s, t, i) {
            return Some(i);
        }
        if i == s.len() {
            return None;
        }
        i = i + 1;
    }
}

/// Whether `t` stands somewhere in `s`.
pub fn has(s: &str, t: &str) -> (r: bool)
    ensures
        r == contains(s@, t@),
{
    match find(&to_chars(s), &to_chars(t)) {
        Some(_) => true,
        None => false,
    }
}

/// What stands before and after the first `t` in `s`.
pub fn split_at_first(s: &str, t: &str) -> (r: Option<(String, String)>)
    ensures
        (match r {
            Some((a, b)) => Some((a@, b@)),
            None => None,
        }) == split_once(s@, t@),
{
    let x: Vec<char> = to_chars(s);
    let y: Vec<char> = to_chars(t);
    let n: usize = x.len();
    match find(&x, &y) {
        Some(i) => {
            proof {
                lemma_split_once_at(s@, t@, i as int);
            }
            Some((slice_text(&x, 0, i), slice_text(&x, i + y.len(), n)))
        },
        None => None,
    }
}

/// Whether `s` begins with `t`.
pub fn begins_with(s: &str, t: &str) -> (r: bool)
    ensures
        r == t@.is_prefix_of(s@),
{
    let x: Vec<char> = to_chars(s);
    let y: Vec<char> = to_chars(t);
    matches_at(&x, &y, 0)
}

/// The lower case of a text, as Unicode maps it.
pub uninterp spec fn lowercase(s: Seq<char>) -> Seq<char>;

/// Calls `str::to_lowercase`. Which characters come out is named by `lowercase`: a function of
/// the text alone.
#[verifier::external_body]
pub(crate) fn to_lower(s: &str) -> (r: String)
    ensures
        r@ == lowercase(s@),
{
    s.to_lowercase()
}

/// The text in double quotes with its special characters escaped, as Rust prints a string for
/// debugging.
pub uninterp spec fn quoted(s: Seq<char>) -> Seq<char>;

/// Formats a text with `{:?}`, that is `<str as Debug>::fmt`. The result is named by `quoted`: a
/// function of the text alone.
#[verifier::external_body]
pub(crate) fn debug_text(s: &str) -> (r: String)
    ensures
        r@ == quoted(s@),
{
    format!("{s:?}")
}

// ---------------------------------------------------------------------------------------------
// Numbers
// ---------------------------------------------------------------------------------------------

/// `n` in decimal digits.
pub open spec fn dec(n: nat) -> Seq<char>
    decreases n,
{
    if n < 10 {
        seq![digit_char(n as int)]
    } else {
        dec(n / 10).push(digit_char((n % 10) as int))
    }
}

/// `i` in decimal, with a minus sign where it is negative.
pub open spec fn signed_dec(i: int) -> Seq<char> {
    if i < 0 {
        seq!['-'] + dec((-i) as nat)
    } else {
        dec(i as nat)
    }
}

/// Whether every character is a digit.
pub open spec fn all_digits(s: Seq<char>) -> bool {
    forall|i: int| 0 <= i < s.len() ==> is_digit(#[trigger] s[i])
}

/// What a sequence of digits stands for.
pub open spec fn digits_value(s: Seq<char>) -> nat
    decreases s.len(),
{
    if s.len() == 0 {
        0
    } else {
        (10 * digits_value(s.drop_last()) + digit_value(s.last())) as nat
    }
}

/// A numeral without the plus sign that it may begin with.
pub open spec fn without_plus(s: Seq<char>) -> Seq<char> {
    if s.len() > 0 && s[0] == '+' {
        s.subrange(1, s.len() as int)
    } else {
        s
    }
}

/// The number up to `max` that `s` is the numeral of: one or more digits, after a plus sign or
/// none.
pub open spec fn parse_uint(s: Seq<char>, max: nat) -> Option<nat> {
    let d = without_plus(s);
    if d.len() > 0 && all_digits(d) && digits_value(d) <= max {
        Some(digits_value(d))
    } else {
        None
    }
}

/// The digit that stands for `d`.
fn digit_of(d: u64) -> (c: char)
    requires
        d < 10,
    ensures
        c == digit_char(d as int),
{
    (48u8 + d as u8) as char
}

/// `n` in decimal digits.
pub fn u64_text(n: u64) -> (r: String)
    ensures
        r@ == dec(n as nat),
    decreases n,
{
    if n < 10 {
        let mut out: String = String::new();
        push_char(&mut out, digit_of(n));
        proof {
            assert(out@ =~= dec(n as nat));
        }
        out
    } else {
        let mut out: String = u64_text(n / 10);
        push_char(&mut out, digit_of(n % 10));
        out
    }
}

/// The part of a second behind the point, without the zeros at its end.
pub open spec fn fraction(millis: u64) -> Seq<char> {
    let digits = seq![
        digit_char(millis as int / 100),
        digit_char(millis as int / 10 % 10),
        digit_char(millis as int % 10),
    ];
    if millis == 0 {
        Seq::empty()
    } else if millis % 100 == 0 {
        "."@ + digits.take(1)
    } else if millis % 10 == 0 {
        "."@ + digits.take(2)
    } else {
        "."@ + digits
    }
}

/// A span of time as Rust prints it for debugging: in milliseconds below a second, and in seconds
/// from there on.
pub open spec fn span(millis: u64) -> Seq<char> {
    if millis == 0 {
        "0ns"@
    } else if millis < 1000 {
        dec(millis as nat) + "ms"@
    } else {
        dec((millis / 1000) as nat) + fraction(millis % 1000) + "s"@
    }
}

fn fraction_text(millis: u64) -> (r: String)
    requires
        millis < 1000,
    ensures
        r@ == fraction(millis),
{
    if millis == 0 {
        return String::new();
    }
    let mut out: String = ".".to_owned();
    push_char(&mut out, digit_of(millis / 100));
    if millis % 100 != 0 {
        push_char(&mut out, digit_of(millis / 10 % 10));
        if millis % 10 != 0 {
            push_char(&mut out, digit_of(millis % 10));
        }
    }
    proof {
        assert(millis % 100 == 0 ==> millis % 10 == 0);
        assert(out@ =~= fraction(millis));
    }
    out
}

/// A span of time, as Rust prints it for debugging.
pub fn span_text(millis: u64) -> (r: String)
    ensures
        r@ == span(millis),
{
    if millis == 0 {
        "0ns".to_owned()
    } else if millis < 1000 {
        u64_text(millis).concat("ms")
    } else {
        u64_text(millis / 1000).concat(fraction_text(millis % 1000).as_str()).concat("s")
    }
}

/// `i` in decimal.
pub fn i64_text(i: i64) -> (r: String)
    ensures
        r@ == signed_dec(i as int),
{
    if i < 0 {
        let mut out: String = String::new();
        push_char(&mut out, '-');
        proof {
            assert(out@ =~= seq!['-']);
        }
        let magnitude: u64 = if i == i64::MIN {
            9223372036854775808u64
        } else {
            (-i) as u64
        };
        out.concat(u64_text(magnitude).as_str())
    } else {
        u64_text(i as u64)
    }
}

/// A longer run of digits does not stand for less.
proof fn lemma_digits_value_grows(s: Seq<char>, i: int)
    requires
        all_digits(s),
        0 <= i <= s.len(),
    ensures
        digits_value(s.take(i)) <= digits_value(s),
    decreases s.len() - i,
{
    if i < s.len() {
        let next = s.take(i + 1);
        assert(next.drop_last() =~= s.take(i));
        assert(is_digit(s[i]));
        assert(next.last() == s[i]);
        lemma_digits_value_grows(s, i + 1);
    } else {
        assert(s.take(i) =~= s);
    }
}

/// The number up to `max` that `s` is the numeral of.
pub fn parse_number(s: &str, max: u64) -> (r: Option<u64>)
    ensures
        (match r {
            Some(n) => Some(n as nat),
            None => None,
        }) == parse_uint(s@, max as nat),
{
    let x: Vec<char> = to_chars(s);
    let from: usize = if x.len() > 0 && x[0] == '+' {
        1
    } else {
        0
    };
    let ghost d = without_plus(s@);
    proof {
        assert(d =~= s@.subrange(from as int, s@.len() as int));
    }
    if x.len() == from {
        return None;
    }
    let mut i: usize = from;
    let mut value: u64 = 0;
    proof {
        assert(d.take(0) =~= Seq::<char>::empty());
    }
    while i < x.len()
        invariant
            x@ == s@,
            from <= i <= x@.len(),
            d == s@.subrange(from as int, s@.len() as int),
            d == without_plus(s@),
            value == digits_value(d.take(i - from)),
            value <= max,
            forall|j: int| 0 <= j < i - from ==> is_digit(#[trigger] d[j]),
        decreases x.len() - i,
    {
        let c: char = x[i];
        let ghost k = i - from;
        proof {
            assert(d[k] == c);
            assert(d.take(k + 1).drop_last() =~= d.take(k));
            assert(d.take(k + 1).last() == c);
        }
        if !is_digit_char(c) {
            return None;
        }
        let v: u64 = (c as u32 - '0' as u32) as u64;
        if v > max || value > (max - v) / 10 {
            proof {
                if all_digits(d) {
                    lemma_digits_value_grows(d, k + 1);
                }
            }
            return None;
        }
        value = 10 * value + v;
        i = i + 1;
    }
    proof {
        assert(d.take(d.len() as int) =~= d);
    }
    Some(value)
}

/// The decimal digits of a number are digits, at least one, and stand for it.
pub proof fn lemma_dec_value(n: nat)
    ensures
        dec(n).len() > 0,
        all_digits(dec(n)),
        digits_value(dec(n)) == n,
    decreases n,
{
    if n < 10 {
        assert(dec(n).drop_last() =~= Seq::<char>::empty());
        assert(digits_value(dec(n).drop_last()) == 0);
    } else {
        lemma_dec_value(n / 10);
        assert(dec(n).drop_last() =~= dec(n / 10));
        assert(dec(n).last() == digit_char((n % 10) as int));
    }
}

/// Writing a number down and reading it back gives the number, up to the bound of the reader.
pub proof fn law_number_round_trip(n: nat, max: nat)
    requires
        n <= max,
    ensures
        parse_uint(dec(n), max) == Some(n),
{
    lemma_dec_value(n);
    assert(is_digit(dec(n)[0]));
    assert(without_plus(dec(n)) == dec(n));
}

/// Different numbers are written differently.
pub proof fn law_dec_injective(a: nat, b: nat)
    requires
        dec(a) == dec(b),
    ensures
        a == b,
{
    lemma_dec_value(a);
    lemma_dec_value(b);
}

// ---------------------------------------------------------------------------------------------
// Plain texts under the functions above
// ---------------------------------------------------------------------------------------------

/// A text without separators is one piece.
pub proof fn lemma_split_none(s: Seq<char>, sep: Sep)
    requires
        forall|i: int| 0 <= i < s.len() ==> !is_sep(sep, #[trigger] s[i]),
    ensures
        split(s, sep) == seq![s],
    decreases s.len(),
{
    if s.len() > 0 {
        assert forall|i: int| 0 <= i < s.drop_last().len() implies !is_sep(
            sep,
            #[trigger] s.drop_last()[i],
        ) by {
            assert(!is_sep(sep, s[i]));
        }
        lemma_split_none(s.drop_last(), sep);
        assert(!is_sep(sep, s[s.len() - 1]));
        let before = split(s.drop_last(), sep);
        assert(before.last() =~= s.drop_last());
        assert(s.drop_last().push(s.last()) =~= s);
        assert(split(s, sep) =~= seq![s]);
    } else {
        assert(s =~= Seq::<char>::empty());
        assert(split(s, sep) =~= seq![s]);
    }
}

/// Around a separator, the pieces are those on its left and those on its right.
pub proof fn lemma_split_join(a: Seq<char>, c: char, b: Seq<char>, sep: Sep)
    requires
        is_sep(sep, c),
    ensures
        split(a + seq![c] + b, sep) == split(a, sep) + split(b, sep),
    decreases b.len(),
{
    let whole = a + seq![c] + b;
    lemma_split_len(a, sep);
    if b.len() == 0 {
        assert(whole.drop_last() =~= a);
        assert(split(b, sep) =~= seq![Seq::<char>::empty()]);
        assert(split(whole, sep) =~= split(a, sep) + split(b, sep));
    } else {
        lemma_split_join(a, c, b.drop_last(), sep);
        lemma_split_len(b.drop_last(), sep);
        assert(whole.drop_last() =~= a + seq![c] + b.drop_last());
        assert(whole.last() == b.last());
        assert(split(whole, sep) =~= split(a, sep) + split(b, sep));
    }
}

/// A text that is not empty and holds no white space.
pub open spec fn is_word(s: Seq<char>) -> bool {
    s.len() > 0 && forall|i: int| 0 <= i < s.len() ==> !is_white(#[trigger] s[i])
}

proof fn lemma_word_is_piece(s: Seq<char>)
    requires
        is_word(s),
    ensures
        split(s, Sep::Char('\n')) == seq![s],
        strip_cr(s) == s,
        trimmed(s) == s,
{
    assert forall|i: int| 0 <= i < s.len() implies !is_sep(Sep::Char('\n'), #[trigger] s[i]) by {
        assert(!is_white(s[i]));
    }
    lemma_split_none(s, Sep::Char('\n'));
    assert(!is_white(s[0]));
    assert(!is_white(s[s.len() - 1]));
    lemma_trimmed(s);
}

/// A word with a line feed behind it is one line that is not blank.
pub proof fn lemma_word_line(a: Seq<char>)
    requires
        is_word(a),
    ensures
        filled_lines(a + seq!['\n']) == seq![a],
{
    let nl = Sep::Char('\n');
    lemma_word_is_piece(a);
    let e = Seq::<char>::empty();
    lemma_split_join(a, '\n', e, nl);
    assert(a + seq!['\n'] + e =~= a + seq!['\n']);
    assert(split(e, nl) =~= seq![e]);
    assert(split(a + seq!['\n'], nl) =~= seq![a, e]);
    assert(lines(a + seq!['\n']) =~= seq![a]);
    let t = lines(a + seq!['\n']).map_values(|l: Seq<char>| trimmed(l));
    assert(t =~= seq![a]);
    assert(t.drop_last() =~= Seq::<Seq<char>>::empty());
    assert(non_empty(t.drop_last()) =~= Seq::<Seq<char>>::empty());
    assert(non_empty(t) =~= seq![a]);
}

/// Two words, each with a line feed behind it, are two lines that are not blank.
pub proof fn lemma_two_word_lines(a: Seq<char>, b: Seq<char>)
    requires
        is_word(a),
        is_word(b),
    ensures
        filled_lines(a + seq!['\n'] + (b + seq!['\n'])) == seq![a, b],
{
    let nl = Sep::Char('\n');
    lemma_word_is_piece(a);
    lemma_word_is_piece(b);
    let e = Seq::<char>::empty();
    let tail = b + seq!['\n'];
    lemma_split_join(b, '\n', e, nl);
    assert(b + seq!['\n'] + e =~= tail);
    assert(split(e, nl) =~= seq![e]);
    assert(split(tail, nl) =~= seq![b, e]);
    lemma_split_join(a, '\n', tail, nl);
    let whole = a + seq!['\n'] + tail;
    assert(split(whole, nl) =~= seq![a, b, e]);
    assert(lines(whole) =~= seq![a, b]);
    let t = lines(whole).map_values(|l: Seq<char>| trimmed(l));
    assert(t =~= seq![a, b]);
    assert(t.drop_last() =~= seq![a]);
    assert(seq![a].drop_last() =~= Seq::<Seq<char>>::empty());
    assert(non_empty(Seq::<Seq<char>>::empty()) =~= Seq::<Seq<char>>::empty());
    assert(non_empty(seq![a]) =~= seq![a]);
    assert(non_empty(t) =~= seq![a, b]);
}

/// A word between two line feeds is one line that is not blank.
pub proof fn lemma_word_line_after_blank(b: Seq<char>)
    requires
        is_word(b),
    ensures
        filled_lines(seq!['\n'] + (b + seq!['\n'])) == seq![b],
{
    let nl = Sep::Char('\n');
    lemma_word_is_piece(b);
    let e = Seq::<char>::empty();
    let tail = b + seq!['\n'];
    lemma_split_join(b, '\n', e, nl);
    assert(b + seq!['\n'] + e =~= tail);
    assert(split(e, nl) =~= seq![e]);
    assert(split(tail, nl) =~= seq![b, e]);
    lemma_split_join(e, '\n', tail, nl);
    let whole = seq!['\n'] + tail;
    assert(e + seq!['\n'] + tail =~= whole);
    assert(split(whole, nl) =~= seq![e, b, e]);
    assert(lines(whole) =~= seq![e, b]);
    let t = lines(whole).map_values(|l: Seq<char>| trimmed(l));
    assert(trimmed(e) =~= e);
    assert(t =~= seq![e, b]);
    assert(t.drop_last() =~= seq![e]);
    assert(seq![e].drop_last() =~= Seq::<Seq<char>>::empty());
    assert(non_empty(Seq::<Seq<char>>::empty()) =~= Seq::<Seq<char>>::empty());
    assert(non_empty(seq![e]) =~= Seq::<Seq<char>>::empty());
    assert(non_empty(t) =~= seq![b]);
}

/// A number that was written down is a word.
pub proof fn lemma_dec_is_word(n: nat)
    ensures
        is_word(dec(n)),
{
    lemma_dec_value(n);
    assert forall|i: int| 0 <= i < dec(n).len() implies !is_white(#[trigger] dec(n)[i]) by {
        assert(is_digit(dec(n)[i]));
    }
}

/// A text without line feeds that is not empty is one line.
pub proof fn lemma_one_line(s: Seq<char>)
    requires
        s.len() > 0,
        forall|i: int| 0 <= i < s.len() ==> #[trigger] s[i] != '\n',
    ensures
        lines(s) == seq![s],
{
    assert forall|i: int| 0 <= i < s.len() implies !is_sep(Sep::Char('\n'), #[trigger] s[i]) by {
        assert(s[i] != '\n');
    }
    lemma_split_none(s, Sep::Char('\n'));
    assert(lines(s) =~= seq![s]);
}

/// A text that neither begins nor ends with white space is trimmed already.
pub proof fn lemma_trimmed(s: Seq<char>)
    requires
        s.len() > 0 ==> !is_white(s[0]) && !is_white(s.last()),
    ensures
        trimmed(s) == s,
{
}

/// A number that was written down is trimmed already, and holds no character but digits.
pub proof fn lemma_dec_plain(n: nat)
    ensures
        trimmed(dec(n)) == dec(n),
        forall|i: int| 0 <= i < dec(n).len() ==> is_digit(#[trigger] dec(n)[i]),
{
    lemma_dec_value(n);
    assert(is_digit(dec(n)[0]));
    assert(is_digit(dec(n)[dec(n).len() - 1]));
    lemma_trimmed(dec(n));
}

/// The lines of a text are those before a line feed and those after it.
pub proof fn lemma_lines_joined(a: Seq<char>, b: Seq<char>)
    ensures
        lines(a + seq!['\n'] + b) == split(a, Sep::Char('\n')).map_values(
            |l: Seq<char>| strip_cr(l),
        ) + lines(b),
{
    let sep = Sep::Char('\n');
    lemma_split_join(a, '\n', b, sep);
    lemma_split_len(b, sep);
    let x = split(a, sep);
    let y = split(b, sep);
    assert((x + y).drop_last() =~= x + y.drop_last());
    assert((x + y).last() == y.last());
    assert(lines(a + seq!['\n'] + b) =~= x.map_values(|l: Seq<char>| strip_cr(l)) + lines(b));
}

/// A text without line feeds, with a line feed behind it, is the first line of a text.
pub proof fn lemma_line_before(a: Seq<char>, b: Seq<char>)
    requires
        forall|i: int| 0 <= i < a.len() ==> #[trigger] a[i] != '\n',
    ensures
        lines(a + seq!['\n'] + b) == seq![strip_cr(a)] + lines(b),
{
    assert forall|i: int| 0 <= i < a.len() implies !is_sep(Sep::Char('\n'), #[trigger] a[i]) by {
        assert(a[i] != '\n');
    }
    lemma_split_none(a, Sep::Char('\n'));
    lemma_lines_joined(a, b);
    assert(seq![a].map_values(|l: Seq<char>| strip_cr(l)) =~= seq![strip_cr(a)]);
}

/// Whether a text begins with another.
pub open spec fn starts(s: Seq<char>, head: Seq<char>) -> bool {
    s.len() >= head.len() && s.take(head.len() as int) == head
}

proof fn lemma_first_line_from(s: Seq<char>, head: Seq<char>, m: int)
    requires
        starts(s, head),
        0 < head.len() <= m <= s.len(),
        head.last() != '\r',
        forall|i: int| 0 <= i < m ==> #[trigger] s[i] != '\n',
    ensures
        lines(s).len() > 0,
        starts(lines(s)[0], head),
    decreases s.len() - m,
{
    if m == s.len() {
        lemma_one_line(s);
    } else if s[m] == '\n' {
        let a = s.take(m);
        let b = s.subrange(m + 1, s.len() as int);
        assert(s =~= a + seq!['\n'] + b);
        lemma_line_before(a, b);
        assert(head.last() == s.take(head.len() as int)[head.len() - 1]);
        assert(a[head.len() - 1] == head.last());
        assert(strip_cr(a).len() >= head.len());
        assert(strip_cr(a).take(head.len() as int) =~= s.take(head.len() as int));
    } else {
        lemma_first_line_from(s, head, m + 1);
    }
}

/// What a text begins with, its first line begins with too, where that holds no line feed and does
/// not end with a carriage return.
pub proof fn lemma_first_line(s: Seq<char>, head: Seq<char>)
    requires
        starts(s, head),
        head.len() > 0,
        head.last() != '\r',
        forall|i: int| 0 <= i < head.len() ==> #[trigger] head[i] != '\n',
    ensures
        lines(s).len() > 0,
        starts(lines(s)[0], head),
{
    assert forall|i: int| 0 <= i < head.len() implies #[trigger] s[i] != '\n' by {
        assert(s.take(head.len() as int)[i] == head[i]);
    }
    lemma_first_line_from(s, head, head.len() as int);
}

proof fn lemma_trim_end_keeps(s: Seq<char>, head: Seq<char>)
    requires
        starts(s, head),
        head.len() > 0,
        !is_white(head.last()),
    ensures
        starts(trim_end(s), head),
    decreases s.len(),
{
    if is_white(s.last()) {
        let rest = s.subrange(0, s.len() - 1);
        assert(s.take(head.len() as int)[head.len() - 1] == head.last());
        assert(rest.take(head.len() as int) =~= s.take(head.len() as int));
        lemma_trim_end_keeps(rest, head);
    }
}

/// Trimming keeps what a text begins with, where that neither begins nor ends with white space.
pub proof fn lemma_trim_keeps(s: Seq<char>, head: Seq<char>)
    requires
        starts(s, head),
        head.len() > 0,
        !is_white(head[0]),
        !is_white(head.last()),
    ensures
        starts(trimmed(s), head),
{
    assert(s.take(head.len() as int)[0] == s[0]);
    lemma_trim_end_keeps(s, head);
}

/// A character that does not stand in `t` changes nothing but the end, where it is put behind `s`.
pub proof fn lemma_split_once_push(s: Seq<char>, c: char, t: Seq<char>)
    requires
        t.len() > 0,
        forall|i: int| 0 <= i < t.len() ==> #[trigger] t[i] != c,
    ensures
        split_once(s.push(c), t) == (match split_once(s, t) {
            Some((before, after)) => Some((before, after.push(c))),
            None => None,
        }),
{
    let longer = s.push(c);
    assert forall|i: int| occurs_at(longer, t, i) == #[trigger] occurs_at(s, t, i) by {
        if occurs_at(longer, t, i) {
            if i + t.len() > s.len() {
                assert(longer.subrange(i, i + t.len())[t.len() - 1] == c);
                assert(t[t.len() - 1] != c);
            }
            assert(s.subrange(i, i + t.len()) =~= longer.subrange(i, i + t.len()));
        }
        if occurs_at(s, t, i) {
            assert(s.subrange(i, i + t.len()) =~= longer.subrange(i, i + t.len()));
        }
    }
    if contains(s, t) {
        let i = lemma_has_first(s, t);
        lemma_split_once_at(s, t, i);
        assert(occurs_at(longer, t, i));
        assert forall|j: int| 0 <= j < i implies !occurs_at(longer, t, j) by {
            assert(!occurs_at(s, t, j));
        }
        lemma_split_once_at(longer, t, i);
        assert(longer.subrange(0, i) =~= s.subrange(0, i));
        assert(longer.subrange(i + t.len(), longer.len() as int) =~= s.subrange(
            i + t.len(),
            s.len() as int,
        ).push(c));
    } else if contains(longer, t) {
        let i = choose|i: int| occurs_at(longer, t, i);
        assert(occurs_at(s, t, i));
    }
}

/// Pieces with one character between them.
pub open spec fn joined(pieces: Seq<Seq<char>>, c: char) -> Seq<char>
    decreases pieces.len(),
{
    if pieces.len() == 0 {
        Seq::empty()
    } else if pieces.len() == 1 {
        pieces[0]
    } else {
        joined(pieces.drop_last(), c) + seq![c] + pieces.last()
    }
}

/// Splitting undoes joining, where no piece holds a separator.
pub proof fn law_split_undoes_join(pieces: Seq<Seq<char>>, c: char, sep: Sep)
    requires
        pieces.len() > 0,
        is_sep(sep, c),
        forall|i: int, j: int|
            0 <= i < pieces.len() && 0 <= j < pieces[i].len() ==> !is_sep(
                sep,
                #[trigger] pieces[i][j],
            ),
    ensures
        split(joined(pieces, c), sep) == pieces,
    decreases pieces.len(),
{
    let last = pieces.last();
    assert forall|j: int| 0 <= j < last.len() implies !is_sep(sep, #[trigger] last[j]) by {
        assert(!is_sep(sep, pieces[pieces.len() - 1][j]));
    }
    lemma_split_none(last, sep);
    if pieces.len() == 1 {
        assert(pieces =~= seq![last]);
    } else {
        let rest = pieces.drop_last();
        assert forall|i: int, j: int|
            0 <= i < rest.len() && 0 <= j < rest[i].len() implies !is_sep(
            sep,
            #[trigger] rest[i][j],
        ) by {
            assert(!is_sep(sep, pieces[i][j]));
        }
        law_split_undoes_join(rest, c, sep);
        lemma_split_join(joined(rest, c), c, last, sep);
        assert(pieces =~= rest + seq![last]);
    }
}

proof fn lemma_non_empty_all(pieces: Seq<Seq<char>>)
    requires
        forall|i: int| 0 <= i < pieces.len() ==> (#[trigger] pieces[i]).len() > 0,
    ensures
        non_empty(pieces) == pieces,
    decreases pieces.len(),
{
    if pieces.len() > 0 {
        let rest = pieces.drop_last();
        assert forall|i: int| 0 <= i < rest.len() implies (#[trigger] rest[i]).len() > 0 by {
            assert(pieces[i].len() > 0);
        }
        lemma_non_empty_all(rest);
        assert(pieces[pieces.len() - 1].len() > 0);
        assert(non_empty(pieces) =~= pieces);
    }
}

proof fn lemma_joined_ends(pieces: Seq<Seq<char>>, c: char)
    requires
        pieces.len() > 0,
        forall|i: int| 0 <= i < pieces.len() ==> (#[trigger] pieces[i]).len() > 0,
    ensures
        joined(pieces, c).len() > 0,
        starts(joined(pieces, c), pieces[0]),
        joined(pieces, c).last() == pieces.last().last(),
    decreases pieces.len(),
{
    assert(pieces[pieces.len() - 1].len() > 0);
    if pieces.len() == 1 {
        assert(pieces[0].take(pieces[0].len() as int) =~= pieces[0]);
    } else {
        let rest = pieces.drop_last();
        assert forall|i: int| 0 <= i < rest.len() implies (#[trigger] rest[i]).len() > 0 by {
            assert(pieces[i].len() > 0);
        }
        lemma_joined_ends(rest, c);
        let whole = joined(pieces, c);
        let n = pieces[0].len() as int;
        assert(rest[0] == pieces[0]);
        assert(whole.take(n) =~= joined(rest, c).take(n));
    }
}

/// Words with blanks between them are read as those words, and are trimmed already.
pub proof fn law_words_are_read_back(ws: Seq<Seq<char>>)
    requires
        ws.len() > 0,
        forall|i: int| 0 <= i < ws.len() ==> is_word(#[trigger] ws[i]),
    ensures
        words(joined(ws, ' ')) == ws,
        trimmed(joined(ws, ' ')) == joined(ws, ' '),
        starts(joined(ws, ' '), ws[0]),
{
    assert forall|i: int| 0 <= i < ws.len() implies (#[trigger] ws[i]).len() > 0 by {
        assert(is_word(ws[i]));
    }
    assert forall|i: int, j: int| 0 <= i < ws.len() && 0 <= j < ws[i].len() implies !is_sep(
        Sep::White,
        #[trigger] ws[i][j],
    ) by {
        assert(is_word(ws[i]));
    }
    law_split_undoes_join(ws, ' ', Sep::White);
    lemma_non_empty_all(ws);
    lemma_joined_ends(ws, ' ');
    let s = joined(ws, ' ');
    assert(s.take(ws[0].len() as int)[0] == s[0]);
    assert(is_word(ws[0]));
    assert(is_word(ws[ws.len() - 1]));
    lemma_trimmed(s);
}

/// What stands between two texts stands in the whole.
pub proof fn lemma_contains(a: Seq<char>, t: Seq<char>, b: Seq<char>)
    ensures
        contains(a + t + b, t),
{
    assert((a + t + b).subrange(a.len() as int, a.len() as int + t.len()) =~= t);
    assert(occurs_at(a + t + b, t, a.len() as int));
}

/// Two words in a row are one word.
pub proof fn lemma_word_concat(a: Seq<char>, b: Seq<char>)
    requires
        is_word(a),
        is_word(b),
    ensures
        is_word(a + b),
{
    assert forall|i: int| 0 <= i < (a + b).len() implies !is_white(#[trigger] (a + b)[i]) by {
        if i < a.len() {
            assert(!is_white(a[i]));
        } else {
            assert(!is_white(b[i - a.len()]));
        }
    }
}

/// What stands at the end stands in the whole.
pub proof fn lemma_part(p: Seq<char>, t: Seq<char>)
    ensures
        contains(p + t, t),
{
    assert(p + t + Seq::<char>::empty() =~= p + t);
    lemma_contains(p, t, Seq::empty());
}

/// Two texts at the end stand in the whole, one behind the other.
pub proof fn lemma_part_of_two(p: Seq<char>, a: Seq<char>, b: Seq<char>)
    ensures
        contains(p + a + b, a + b),
{
    let whole = p + a + b;
    assert(whole =~= p + (a + b));
    lemma_part(p, a + b);
}

/// Three texts at the end stand in the whole, one behind the other.
pub proof fn lemma_part_of_three(p: Seq<char>, a: Seq<char>, b: Seq<char>, c: Seq<char>)
    ensures
        contains(p + a + b + c, a + b + c),
{
    let whole = p + a + b + c;
    assert(whole =~= p + (a + b + c));
    lemma_part(p, a + b + c);
}

/// What stands in a text stands in any longer one.
pub proof fn lemma_part_kept(s: Seq<char>, t: Seq<char>, more: Seq<char>)
    requires
        contains(s, t),
    ensures
        contains(s + more, t),
{
    let i = choose|i: int| occurs_at(s, t, i);
    assert((s + more).subrange(i, i + t.len()) =~= s.subrange(i, i + t.len()));
    assert(occurs_at(s + more, t, i));
}

/// What stands in a part stands in the whole.
pub proof fn lemma_part_of_part(s: Seq<char>, t: Seq<char>, u: Seq<char>)
    requires
        contains(s, t),
        contains(t, u),
    ensures
        contains(s, u),
{
    let i = choose|i: int| occurs_at(s, t, i);
    let j = choose|j: int| occurs_at(t, u, j);
    assert(s.subrange(i + j, i + j + u.len()) =~= s.subrange(i, i + t.len()).subrange(
        j,
        j + u.len(),
    ));
    assert(occurs_at(s, u, i + j));
}

/// A text begins as it began when more is put behind it.
pub proof fn lemma_start_kept(s: Seq<char>, head: Seq<char>, more: Seq<char>)
    requires
        starts(s, head),
    ensures
        starts(s + more, head),
{
    assert((s + more).take(head.len() as int) =~= s.take(head.len() as int));
}

/// A text begins with itself.
pub proof fn lemma_start(s: Seq<char>, more: Seq<char>)
    ensures
        starts(s, s),
        starts(s + more, s),
{
    assert(s.take(s.len() as int) =~= s);
    assert((s + more).take(s.len() as int) =~= s);
}

proof fn lemma_trim_start_white(w: Seq<char>, rest: Seq<char>)
    requires
        forall|i: int| 0 <= i < w.len() ==> is_white(#[trigger] w[i]),
    ensures
        trim_start(w + rest) == trim_start(rest),
    decreases w.len(),
{
    if w.len() == 0 {
        assert(w + rest =~= rest);
    } else {
        let s = w + rest;
        let tail = w.drop_first();
        assert(s[0] == w[0]);
        assert(s.subrange(1, s.len() as int) =~= tail + rest);
        assert forall|i: int| 0 <= i < tail.len() implies is_white(#[trigger] tail[i]) by {
            assert(is_white(w[i + 1]));
        }
        lemma_trim_start_white(tail, rest);
    }
}

proof fn lemma_trim_end_white(rest: Seq<char>, w: Seq<char>)
    requires
        forall|i: int| 0 <= i < w.len() ==> is_white(#[trigger] w[i]),
    ensures
        trim_end(rest + w) == trim_end(rest),
    decreases w.len(),
{
    if w.len() == 0 {
        assert(rest + w =~= rest);
    } else {
        let s = rest + w;
        let head = w.drop_last();
        assert(s.last() == w[w.len() - 1]);
        assert(s.subrange(0, s.len() - 1) =~= rest + head);
        assert forall|i: int| 0 <= i < head.len() implies is_white(#[trigger] head[i]) by {
            assert(is_white(w[i]));
        }
        lemma_trim_end_white(rest, head);
    }
}

/// Trimming takes the white space off both ends, all of it, and nothing else: what stands between
/// is left as it is, white space inside it included.
pub proof fn law_trim_gives_the_core(before: Seq<char>, core: Seq<char>, after: Seq<char>)
    requires
        forall|i: int| 0 <= i < before.len() ==> is_white(#[trigger] before[i]),
        forall|i: int| 0 <= i < after.len() ==> is_white(#[trigger] after[i]),
        core.len() > 0 ==> !is_white(core[0]) && !is_white(core.last()),
    ensures
        trimmed(before + core + after) == core,
{
    assert(before + core + after =~= before + (core + after));
    lemma_trim_start_white(before, core + after);
    if core.len() == 0 {
        assert(core + after =~= after + core);
        lemma_trim_start_white(after, core);
    } else {
        assert((core + after)[0] == core[0]);
        lemma_trim_end_white(core, after);
    }
}

proof fn lemma_joined_end(pieces: Seq<Seq<char>>, c: char)
    requires
        pieces.len() > 0,
    ensures
        joined(pieces.push(Seq::empty()), c) == joined(pieces, c) + seq![c],
{
    let all = pieces.push(Seq::<char>::empty());
    assert(all.drop_last() =~= pieces);
    assert(joined(all, c) =~= joined(pieces, c) + seq![c]);
}

/// Lines are read back as they were written, whether each ends in a line feed or in a carriage
/// return and a line feed, and whether the last one has its end or not.
pub proof fn law_lines_are_read_back(ls: Seq<Seq<char>>, crlf: Seq<Seq<char>>)
    requires
        ls.len() > 0,
        forall|i: int, j: int|
            0 <= i < ls.len() && 0 <= j < ls[i].len() ==> #[trigger] ls[i][j] != '\n',
        forall|i: int| 0 <= i < ls.len() && ls[i].len() > 0 ==> (#[trigger] ls[i]).last() != '\r',
        crlf.len() == ls.len(),
        forall|i: int| 0 <= i < ls.len() ==> #[trigger] crlf[i] == ls[i].push('\r'),
    ensures
        lines(joined(ls, '\n') + seq!['\n']) == ls,
        lines(joined(crlf, '\n') + seq!['\n']) == ls,
        ls.last().len() > 0 ==> lines(joined(ls, '\n')) == ls,
{
    let sep = Sep::Char('\n');
    let empty = Seq::<char>::empty();
    lemma_joined_end(ls, '\n');
    lemma_joined_end(crlf, '\n');
    let a = ls.push(empty);
    let b = crlf.push(empty);
    assert forall|i: int, j: int| 0 <= i < a.len() && 0 <= j < a[i].len() implies !is_sep(
        sep,
        #[trigger] a[i][j],
    ) by {
        if i < ls.len() {
            assert(a[i] == ls[i]);
            assert(ls[i][j] != '\n');
        }
    }
    assert forall|i: int, j: int| 0 <= i < b.len() && 0 <= j < b[i].len() implies !is_sep(
        sep,
        #[trigger] b[i][j],
    ) by {
        if i < ls.len() {
            assert(b[i] == crlf[i]);
            if j < ls[i].len() {
                assert(ls[i][j] != '\n');
            }
        }
    }
    assert forall|i: int, j: int| 0 <= i < ls.len() && 0 <= j < ls[i].len() implies !is_sep(
        sep,
        #[trigger] ls[i][j],
    ) by {}
    law_split_undoes_join(a, '\n', sep);
    law_split_undoes_join(b, '\n', sep);
    law_split_undoes_join(ls, '\n', sep);
    let strip = |l: Seq<char>| strip_cr(l);
    assert(a.drop_last() =~= ls);
    assert(b.drop_last() =~= crlf);
    assert(ls.map_values(strip) =~= ls);
    assert forall|i: int| 0 <= i < ls.len() implies strip_cr(#[trigger] crlf[i]) == ls[i] by {
        assert(ls[i].push('\r').drop_last() =~= ls[i]);
    }
    assert(crlf.map_values(strip) =~= ls);
    let rest = ls.drop_last();
    assert forall|i: int| 0 <= i < rest.len() implies strip_cr(#[trigger] rest[i]) == rest[i] by {
        assert(rest[i] == ls[i]);
    }
    assert(rest.map_values(strip) =~= rest);
    assert(rest.push(ls.last()) =~= ls);
}

/// A numeral is read with a plus sign as without; what is no numeral, or stands for more than the
/// reader takes, is not read.
pub proof fn law_only_numerals_are_read(s: Seq<char>, n: nat, max: nat)
    ensures
        n <= max ==> parse_uint(seq!['+'] + dec(n), max) == Some(n),
        n > max ==> parse_uint(dec(n), max) is None,
        parse_uint(Seq::empty(), max) is None,
        (exists|i: int| 0 < i < s.len() && !is_digit(#[trigger] s[i])) ==> parse_uint(s, max) is None,
        s.len() > 0 && !is_digit(s[0]) && s[0] != '+' ==> parse_uint(s, max) is None,
        parse_uint(s, max) matches Some(m) ==> m <= max,
{
    lemma_dec_value(n);
    let signed = seq!['+'] + dec(n);
    assert(signed.subrange(1, signed.len() as int) =~= dec(n));
    assert(is_digit(dec(n)[0]));
    if exists|i: int| 0 < i < s.len() && !is_digit(#[trigger] s[i]) {
        let i = choose|i: int| 0 < i < s.len() && !is_digit(#[trigger] s[i]);
        if s[0] == '+' {
            assert(without_plus(s)[i - 1] == s[i]);
        } else {
            assert(without_plus(s)[i] == s[i]);
        }
    }
    if s.len() > 0 && !is_digit(s[0]) && s[0] != '+' {
        assert(without_plus(s)[0] == s[0]);
    }
}

/// A number with its sign is its numeral, behind a minus sign where it is negative, so that
/// different numbers are written differently.
pub proof fn law_signed_numbers_differ(a: int, b: int)
    requires
        signed_dec(a) == signed_dec(b),
    ensures
        a == b,
        a >= 0 ==> parse_uint(signed_dec(a), a as nat) == Some(a as nat),
        a < 0 ==> signed_dec(a)[0] == '-' && parse_uint(
            signed_dec(a).drop_first(),
            (-a) as nat,
        ) == Some((-a) as nat),
{
    if a < 0 {
        let n = (-a) as nat;
        law_number_round_trip(n, n);
        assert(signed_dec(a).drop_first() =~= dec(n));
    } else {
        law_number_round_trip(a as nat, a as nat);
        lemma_dec_value(a as nat);
        assert(is_digit(dec(a as nat)[0]));
    }
    if b < 0 {
        let m = (-b) as nat;
        assert(signed_dec(b).drop_first() =~= dec(m));
        if a < 0 {
            law_dec_injective((-a) as nat, m);
        }
    } else {
        lemma_dec_value(b as nat);
        assert(is_digit(dec(b as nat)[0]));
        if a >= 0 {
            law_dec_injective(a as nat, b as nat);
        }
    }
}

/// A span of time says how long it is: below a second in milliseconds, else the seconds and, behind
/// a point, the digits of the part of a second, without zeros at the end. The value of those
/// digits, filled up to three, is the number of milliseconds.
pub proof fn law_span_says_how_long(millis: u64, digits: Seq<char>)
    ensures
        0 < millis < 1000 ==> span(millis) == dec(millis as nat) + "ms"@,
        millis >= 1000 && millis % 1000 == 0 ==> span(millis) == dec((millis / 1000) as nat) + "s"@,
        millis >= 1000 && 0 < digits.len() <= 3 && span(millis) == dec((millis / 1000) as nat) + (
        "."@ + digits) + "s"@ ==> all_digits(digits) && digits.last() != '0' && digits_value(digits)
            * (if digits.len() == 1 {
            100int
        } else if digits.len() == 2 {
            10int
        } else {
            1int
        }) == millis % 1000,
        millis >= 1000 && millis % 1000 != 0 ==> exists|d: Seq<char>|
            0 < d.len() <= 3 && span(millis) == dec((millis / 1000) as nat) + #[trigger] ("."@ + d)
                + "s"@,
{
    let whole = dec((millis / 1000) as nat);
    let m = millis % 1000;
    reveal_strlit(".");
    reveal_strlit("s");
    if millis >= 1000 {
        let f = fraction(m);
        if m == 0 {
            assert(whole + f =~= whole);
        } else {
            let three = seq![
                digit_char(m as int / 100),
                digit_char(m as int / 10 % 10),
                digit_char(m as int % 10),
            ];
            let d = if m % 100 == 0 {
                three.take(1)
            } else if m % 10 == 0 {
                three.take(2)
            } else {
                three
            };
            assert(f == "."@ + d);
        }
        if 0 < digits.len() && span(millis) == whole + ("."@ + digits) + "s"@ {
            let x = whole + f + "s"@;
            let y = whole + ("."@ + digits) + "s"@;
            let from = whole.len() as int;
            assert(x.subrange(from, x.len() - 1) =~= f);
            assert(y.subrange(from, y.len() - 1) =~= "."@ + digits);
            assert(f == "."@ + digits);
            assert(f.drop_first() =~= digits);
            assert(m != 0);
            reveal_with_fuel(digits_value, 4);
            let three = seq![
                digit_char(m as int / 100),
                digit_char(m as int / 10 % 10),
                digit_char(m as int % 10),
            ];
            if m % 100 == 0 {
                assert(digits =~= three.take(1));
                assert(digits.drop_last() =~= Seq::<char>::empty());
            } else if m % 10 == 0 {
                assert(digits =~= three.take(2));
                assert(digits.drop_last().drop_last() =~= Seq::<char>::empty());
            } else {
                assert(digits =~= three);
                assert(digits.drop_last().drop_last().drop_last() =~= Seq::<char>::empty());
            }
        }
    }
}

/// Splitting at a text takes its first place: what stands before it, with the text, holds it
/// nowhere but at its end, and the three parts are the whole.
pub proof fn law_split_once_is_at_the_first(s: Seq<char>, t: Seq<char>)
    ensures
        split_once(s, t) is Some <==> contains(s, t),
        split_once(s, t) matches Some((head, tail)) ==> s == head + t + tail && forall|i: int|
            0 <= i < head.len() ==> !#[trigger] occurs_at(s, t, i),
{
    if contains(s, t) {
        let at = lemma_has_first(s, t);
        lemma_split_once_at(s, t, at);
        match split_once(s, t) {
            Some((head, tail)) => {
                assert(s =~= head + t + tail);
            },
            None => {},
        }
    }
}

/// Among the ASCII characters, the blank and the five controls from the tab to the carriage return
/// are white space, and no other.
pub proof fn law_ascii_white_space(c: char)
    requires
        c < '\u{80}',
    ensures
        is_white(c) <==> c == ' ' || c == '\t' || c == '\n' || c == '\u{b}' || c == '\u{c}' || c
            == '\r',
{
}

proof fn lemma_non_empty_add(a: Seq<Seq<char>>, b: Seq<Seq<char>>)
    ensures
        non_empty(a + b) == non_empty(a) + non_empty(b),
    decreases b.len(),
{
    if b.len() == 0 {
        assert(a + b =~= a);
        assert(non_empty(a) + non_empty(b) =~= non_empty(a));
    } else {
        assert((a + b).drop_last() =~= a + b.drop_last());
        assert((a + b).last() == b.last());
        lemma_non_empty_add(a, b.drop_last());
        assert(non_empty(a + b) =~= non_empty(a) + non_empty(b));
    }
}

/// White space parts words, wherever it stands and however much of it: the words of a text are
/// those before any white space in it, then those after it.
pub proof fn law_white_space_parts_words(a: Seq<char>, c: char, b: Seq<char>)
    requires
        is_white(c),
    ensures
        words(a + seq![c] + b) == words(a) + words(b),
{
    lemma_split_join(a, c, b, Sep::White);
    lemma_non_empty_add(split(a, Sep::White), split(b, Sep::White));
}

} // verus!
