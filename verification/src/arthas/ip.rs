//! The textual forms of IP addresses.

use vstd::prelude::*;

use crate::text;
use crate::text::Sep;

verus! {

/// The hexadecimal digits, of either case.
pub open spec fn is_hex_digit(c: char) -> bool {
    '0' <= c <= '9' || 'a' <= c <= 'f' || 'A' <= c <= 'F'
}

/// One of the four numbers of an IPv4 address: up to 255, without needless zeros.
pub open spec fn is_octet(s: Seq<char>) -> bool {
    &&& 1 <= s.len() <= 3
    &&& text::all_digits(s)
    &&& s.len() > 1 ==> s[0] != '0'
    &&& text::digits_value(s) <= 255
}

/// Four numbers with dots between them.
pub open spec fn is_ipv4(s: Seq<char>) -> bool {
    let parts = text::split(s, Sep::Char('.'));
    parts.len() == 4 && forall|i: int| 0 <= i < 4 ==> is_octet(#[trigger] parts[i])
}

/// One of the eight groups of an IPv6 address: one to four hexadecimal digits.
pub open spec fn is_group(s: Seq<char>) -> bool {
    1 <= s.len() <= 4 && forall|i: int| 0 <= i < s.len() ==> is_hex_digit(#[trigger] s[i])
}

/// Whether all of `parts` but the last `spare` are groups.
pub open spec fn are_groups(parts: Seq<Seq<char>>, spare: int) -> bool {
    forall|i: int| 0 <= i < parts.len() - spare ==> is_group(#[trigger] parts[i])
}

/// How many of the eight groups a run of groups with colons between them stands for. An IPv4
/// address, where one may stand, comes last and stands for two. `None` where it is no such run.
pub open spec fn group_count(s: Seq<char>, ipv4_may_end: bool) -> Option<nat> {
    let parts = text::split(s, Sep::Char(':'));
    if s.len() == 0 {
        Some(0)
    } else if are_groups(parts, 0) {
        Some(parts.len())
    } else if ipv4_may_end && are_groups(parts, 1) && is_ipv4(parts.last()) {
        Some(parts.len() + 1)
    } else {
        None
    }
}

/// Eight groups, or fewer with a double colon that stands for one or more groups of zeros.
pub open spec fn is_ipv6(s: Seq<char>) -> bool {
    match text::split_once(s, "::"@) {
        None => group_count(s, true) == Some(8nat),
        Some((head, tail)) => match (group_count(head, false), group_count(tail, true)) {
            (Some(h), Some(t)) => h + t <= 7,
            _ => false,
        },
    }
}

/// The text of an IP address.
pub open spec fn is_ip(s: Seq<char>) -> bool {
    is_ipv4(s) || is_ipv6(s)
}

fn octet(s: &str) -> (r: bool)
    ensures
        r == is_octet(s@),
{
    let x: Vec<char> = text::to_chars(s);
    if x.len() == 0 || x.len() > 3 {
        return false;
    }
    let mut i: usize = 0;
    while i < x.len()
        invariant
            x@ == s@,
            i <= x@.len(),
            forall|j: int| 0 <= j < i ==> text::is_digit(#[trigger] s@[j]),
        decreases x.len() - i,
    {
        if !text::is_digit_char(x[i]) {
            return false;
        }
        i = i + 1;
    }
    if x.len() > 1 && x[0] == '0' {
        return false;
    }
    proof {
        assert(text::is_digit(s@[0]));
        assert(text::without_plus(s@) == s@);
    }
    text::parse_number(s, 255).is_some()
}

fn group(s: &str) -> (r: bool)
    ensures
        r == is_group(s@),
{
    let x: Vec<char> = text::to_chars(s);
    if x.len() == 0 || x.len() > 4 {
        return false;
    }
    let mut i: usize = 0;
    while i < x.len()
        invariant
            x@ == s@,
            i <= x@.len(),
            forall|j: int| 0 <= j < i ==> is_hex_digit(#[trigger] s@[j]),
        decreases x.len() - i,
    {
        let c: char = x[i];
        if !(('0' <= c && c <= '9') || ('a' <= c && c <= 'f') || ('A' <= c && c <= 'F')) {
            return false;
        }
        i = i + 1;
    }
    true
}

/// Whether a text is an IPv4 address.
pub fn ipv4(s: &str) -> (r: bool)
    ensures
        r == is_ipv4(s@),
{
    let parts: Vec<String> = text::split_text(s, Sep::Char('.'));
    let ghost all = text::split(s@, Sep::Char('.'));
    proof {
        assert(all.len() == parts@.len());
    }
    if parts.len() != 4 {
        return false;
    }
    let mut i: usize = 0;
    while i < 4
        invariant
            i <= 4,
            parts@.len() == 4,
            text::views(parts@) == all,
            all == text::split(s@, Sep::Char('.')),
            forall|j: int| 0 <= j < i ==> is_octet(#[trigger] all[j]),
        decreases 4 - i,
    {
        proof {
            assert(all[i as int] == parts@[i as int]@);
        }
        if !octet(parts[i].as_str()) {
            return false;
        }
        i = i + 1;
    }
    true
}

fn groups(parts: &Vec<String>, to: usize) -> (r: bool)
    requires
        to <= parts@.len(),
    ensures
        r == are_groups(text::views(parts@), parts@.len() - to),
{
    let mut i: usize = 0;
    while i < to
        invariant
            i <= to <= parts@.len(),
            forall|j: int| 0 <= j < i ==> is_group(#[trigger] text::views(parts@)[j]),
        decreases to - i,
    {
        proof {
            assert(text::views(parts@)[i as int] == parts@[i as int]@);
        }
        if !group(parts[i].as_str()) {
            return false;
        }
        i = i + 1;
    }
    true
}

fn count_groups(s: &str, ipv4_may_end: bool) -> (r: Option<usize>)
    ensures
        (match r {
            Some(n) => Some(n as nat),
            None => None,
        }) == (match group_count(s@, ipv4_may_end) {
            Some(n) => if n <= 9 {
                Some(n)
            } else {
                None
            },
            None => None,
        }),
{
    if s.is_empty() {
        return Some(0);
    }
    let parts: Vec<String> = text::split_text(s, Sep::Char(':'));
    let ghost all = text::split(s@, Sep::Char(':'));
    proof {
        text::lemma_split_len(s@, Sep::Char(':'));
        assert(all.len() == parts@.len());
        assert(all.last() == parts@[parts@.len() - 1]@);
    }
    let n: usize = parts.len();
    if groups(&parts, n) {
        if n <= 9 {
            Some(n)
        } else {
            None
        }
    } else if ipv4_may_end && groups(&parts, n - 1) && ipv4(parts[n - 1].as_str()) {
        if n <= 8 {
            Some(n + 1)
        } else {
            None
        }
    } else {
        None
    }
}

/// Whether a text is an IPv6 address.
pub fn ipv6(s: &str) -> (r: bool)
    ensures
        r == is_ipv6(s@),
{
    let x: Vec<char> = text::to_chars(s);
    let colons: Vec<char> = text::to_chars("::");
    let n: usize = x.len();
    proof {
        reveal_strlit("::");
    }
    match text::find(&x, &colons) {
        None => {
            match count_groups(s, true) {
                Some(k) => k == 8,
                None => false,
            }
        },
        Some(i) => {
            proof {
                text::lemma_split_once_at(s@, "::"@, i as int);
            }
            let head: String = text::slice_text(&x, 0, i);
            let tail: String = text::slice_text(&x, i + 2, n);
            match (count_groups(head.as_str(), false), count_groups(tail.as_str(), true)) {
                (Some(h), Some(t)) => h + t <= 7,
                _ => false,
            }
        },
    }
}

/// Whether a text is an IP address.
pub fn ip(s: &str) -> (r: bool)
    ensures
        r == is_ip(s@),
{
    ipv4(s) || ipv6(s)
}

/// A character that an address can hold.
pub open spec fn is_address_char(c: char) -> bool {
    is_hex_digit(c) || c == '.' || c == ':'
}

proof fn lemma_split_chars(s: Seq<char>, sep: char, i: int)
    requires
        0 <= i < s.len(),
    ensures
        s[i] == sep || exists|p: int, k: int|
            0 <= p < text::split(s, Sep::Char(sep)).len() && 0 <= k < text::split(
                s,
                Sep::Char(sep),
            )[p].len() && #[trigger] text::split(s, Sep::Char(sep))[p][k] == s[i],
    decreases s.len(),
{
    let all = text::split(s, Sep::Char(sep));
    let before = text::split(s.drop_last(), Sep::Char(sep));
    text::lemma_split_len(s.drop_last(), Sep::Char(sep));
    if s[i] != sep {
        if i == s.len() - 1 {
            let p = all.len() - 1;
            let k = all[p].len() - 1;
            assert(all[p][k] == s[i]);
        } else {
            lemma_split_chars(s.drop_last(), sep, i);
            assert(s.drop_last()[i] == s[i]);
            let (p, k) = choose|p: int, k: int|
                0 <= p < before.len() && 0 <= k < before[p].len() && #[trigger] before[p][k]
                    == s.drop_last()[i];
            if text::is_sep(Sep::Char(sep), s.last()) {
                assert(all[p] == before[p]);
                assert(all[p][k] == s[i]);
            } else if p < before.len() - 1 {
                assert(all[p] == before[p]);
                assert(all[p][k] == s[i]);
            } else {
                assert(all[p] == before.last().push(s.last()));
                assert(all[p][k] == s[i]);
            }
        }
    }
}

proof fn lemma_ipv4_chars(s: Seq<char>, i: int)
    requires
        is_ipv4(s),
        0 <= i < s.len(),
    ensures
        is_address_char(s[i]),
{
    let parts = text::split(s, Sep::Char('.'));
    lemma_split_chars(s, '.', i);
    if s[i] != '.' {
        let (p, k) = choose|p: int, k: int|
            0 <= p < parts.len() && 0 <= k < parts[p].len() && #[trigger] parts[p][k] == s[i];
        assert(is_octet(parts[p]));
        assert(text::is_digit(parts[p][k]));
    }
}

proof fn lemma_group_chars(s: Seq<char>, ipv4_may_end: bool, i: int)
    requires
        group_count(s, ipv4_may_end) is Some,
        0 <= i < s.len(),
    ensures
        is_address_char(s[i]),
{
    let parts = text::split(s, Sep::Char(':'));
    lemma_split_chars(s, ':', i);
    if s[i] != ':' {
        let (p, k) = choose|p: int, k: int|
            0 <= p < parts.len() && 0 <= k < parts[p].len() && #[trigger] parts[p][k] == s[i];
        if are_groups(parts, 0) {
            assert(is_group(parts[p]));
            assert(is_hex_digit(parts[p][k]));
        } else if p == parts.len() - 1 {
            lemma_ipv4_chars(parts[p], k);
        } else {
            assert(is_group(parts[p]));
            assert(is_hex_digit(parts[p][k]));
        }
    }
}

/// The text of an address holds nothing but hexadecimal digits, dots and colons, so it can stand
/// in a command of the shell as it is.
pub proof fn law_ip_is_harmless(s: Seq<char>)
    requires
        is_ip(s),
    ensures
        forall|i: int| 0 <= i < s.len() ==> is_address_char(#[trigger] s[i]),
{
    assert forall|i: int| 0 <= i < s.len() implies is_address_char(#[trigger] s[i]) by {
        if is_ipv4(s) {
            lemma_ipv4_chars(s, i);
        } else {
            match text::split_once(s, "::"@) {
                None => {
                    lemma_group_chars(s, true, i);
                },
                Some((head, tail)) => {
                    reveal_strlit("::");
                    let at = text::lemma_has_first(s, "::"@);
                    text::lemma_split_once_at(s, "::"@, at);
                    if i < at {
                        assert(head[i] == s[i]);
                        lemma_group_chars(head, false, i);
                    } else if i < at + 2 {
                        assert(s.subrange(at, at + 2)[i - at] == s[i]);
                    } else {
                        assert(tail[i - at - 2] == s[i]);
                        lemma_group_chars(tail, true, i - at - 2);
                    }
                },
            }
        }
    }
}

proof fn lemma_dec_first(n: nat)
    requires
        n > 0,
    ensures
        text::dec(n).len() > 0,
        text::dec(n)[0] != '0',
    decreases n,
{
    if n >= 10 {
        lemma_dec_first(n / 10);
    }
}

proof fn lemma_octet(n: nat)
    ensures
        is_octet(text::dec(n)) <==> n <= 255,
{
    text::lemma_dec_value(n);
    if n <= 255 {
        reveal_with_fuel(text::dec, 4);
        if n >= 10 {
            lemma_dec_first(n);
        }
    }
}

/// Numbers with dots between them are an IPv4 address if and only if there are four of them and
/// none is over 255.
pub proof fn law_four_numbers_are_an_address(numbers: Seq<nat>)
    requires
        numbers.len() > 0,
    ensures
        is_ipv4(text::joined(numbers.map_values(|n: nat| text::dec(n)), '.')) <==> numbers.len() == 4
            && forall|i: int| 0 <= i < numbers.len() ==> #[trigger] numbers[i] <= 255,
{
    let pieces = numbers.map_values(|n: nat| text::dec(n));
    let sep = Sep::Char('.');
    assert forall|i: int, j: int|
        0 <= i < pieces.len() && 0 <= j < pieces[i].len() implies !text::is_sep(
        sep,
        #[trigger] pieces[i][j],
    ) by {
        text::lemma_dec_value(numbers[i]);
        assert(text::is_digit(text::dec(numbers[i])[j]));
    }
    text::law_split_undoes_join(pieces, '.', sep);
    assert forall|i: int| 0 <= i < pieces.len() implies is_octet(#[trigger] pieces[i]) == (
    numbers[i] <= 255) by {
        lemma_octet(numbers[i]);
    }
    if numbers.len() == 4 && is_ipv4(text::joined(pieces, '.')) {
        assert forall|i: int| 0 <= i < numbers.len() implies #[trigger] numbers[i] <= 255 by {
            assert(is_octet(pieces[i]));
        }
    }
}

proof fn lemma_colons(groups: Seq<Seq<char>>)
    requires
        are_groups(groups, 0),
    ensures
        ({
            let s = text::joined(groups, ':');
            &&& groups.len() > 0 <==> s.len() > 0
            &&& s.len() > 0 ==> s[0] != ':' && s.last() != ':'
            &&& forall|j: int|
                0 <= j < s.len() - 1 ==> !(#[trigger] s[j] == ':' && s[j + 1] == ':')
        }),
    decreases groups.len(),
{
    let s = text::joined(groups, ':');
    if groups.len() > 0 {
        let last = groups.last();
        assert(is_group(groups[groups.len() - 1]));
        assert forall|j: int| 0 <= j < last.len() implies #[trigger] last[j] != ':' by {
            assert(is_hex_digit(last[j]));
        }
        if groups.len() > 1 {
            let rest = groups.drop_last();
            assert forall|i: int| 0 <= i < rest.len() implies is_group(#[trigger] rest[i]) by {
                assert(is_group(groups[i]));
            }
            lemma_colons(rest);
            let before = text::joined(rest, ':');
            let n = before.len() as int;
            assert(s == before + seq![':'] + last);
            assert(s.len() == n + 1 + last.len());
            assert(s[0] == before[0]);
            assert(s.last() == last.last());
            assert forall|j: int| 0 <= j < s.len() - 1 implies !(#[trigger] s[j] == ':' && s[j + 1]
                == ':') by {
                if j + 1 < n {
                    assert(s[j] == before[j] && s[j + 1] == before[j + 1]);
                } else if j + 1 == n {
                    assert(s[j] == before.last());
                } else if j == n {
                    assert(s[j + 1] == last[0]);
                } else {
                    assert(s[j] == last[j - n - 1]);
                }
            }
        }
    }
}

proof fn lemma_groups_split(groups: Seq<Seq<char>>)
    requires
        are_groups(groups, 0),
    ensures
        group_count(text::joined(groups, ':'), false) == Some(groups.len()),
        group_count(text::joined(groups, ':'), true) == Some(groups.len()),
{
    lemma_colons(groups);
    if groups.len() > 0 {
        let sep = Sep::Char(':');
        assert forall|i: int, j: int|
            0 <= i < groups.len() && 0 <= j < groups[i].len() implies !text::is_sep(
            sep,
            #[trigger] groups[i][j],
        ) by {
            assert(is_group(groups[i]));
            assert(is_hex_digit(groups[i][j]));
        }
        text::law_split_undoes_join(groups, ':', sep);
    }
}

/// Groups of one to four hexadecimal digits with colons between them are an IPv6 address if and
/// only if there are eight of them.
pub proof fn law_eight_groups_are_an_address(groups: Seq<Seq<char>>)
    requires
        forall|i: int| 0 <= i < groups.len() ==> is_group(#[trigger] groups[i]),
    ensures
        is_ipv6(text::joined(groups, ':')) <==> groups.len() == 8,
{
    let s = text::joined(groups, ':');
    lemma_colons(groups);
    lemma_groups_split(groups);
    reveal_strlit("::");
    if text::contains(s, "::"@) {
        let i = choose|i: int| text::occurs_at(s, "::"@, i);
        assert(s.subrange(i, i + 2)[0] == s[i]);
        assert(s.subrange(i, i + 2)[1] == s[i + 1]);
        assert(false);
    }
}

/// A double colon stands for the groups that are missing from eight, of which there is at least
/// one.
pub proof fn law_double_colon_fills_up(head: Seq<Seq<char>>, tail: Seq<Seq<char>>)
    requires
        forall|i: int| 0 <= i < head.len() ==> is_group(#[trigger] head[i]),
        forall|i: int| 0 <= i < tail.len() ==> is_group(#[trigger] tail[i]),
    ensures
        is_ipv6(text::joined(head, ':') + "::"@ + text::joined(tail, ':')) <==> head.len()
            + tail.len() <= 7,
{
    let h = text::joined(head, ':');
    let t = text::joined(tail, ':');
    let s = h + "::"@ + t;
    let n = h.len() as int;
    lemma_colons(head);
    lemma_groups_split(head);
    lemma_groups_split(tail);
    reveal_strlit("::");
    assert(s.subrange(n, n + 2) =~= "::"@);
    assert(text::occurs_at(s, "::"@, n));
    assert forall|j: int| 0 <= j < n implies !text::occurs_at(s, "::"@, j) by {
        if text::occurs_at(s, "::"@, j) {
            assert(s.subrange(j, j + 2)[0] == s[j]);
            assert(s.subrange(j, j + 2)[1] == s[j + 1]);
            assert(s[j] == h[j]);
            if j + 1 < n {
                assert(s[j + 1] == h[j + 1]);
            } else {
                assert(h[j] == h.last());
            }
        }
    }
    assert(text::is_first(s, "::"@, n));
    text::lemma_split_once_at(s, "::"@, n);
    assert(s.subrange(0, n) =~= h);
    assert(s.subrange(n + 2, s.len() as int) =~= t);
}

/// The decimal digits and the letters from a to f, of either case, are hexadecimal digits; no other
/// letter is, so that a group of an address is never a word.
pub proof fn law_hexadecimal_digits(c: char)
    ensures
        text::is_digit(c) ==> is_hex_digit(c),
        'a' <= c <= 'f' || 'A' <= c <= 'F' ==> is_hex_digit(c),
        'g' <= c <= 'z' || 'G' <= c <= 'Z' || c == ':' || c == '.' || c == ' ' || c >= '\u{80}'
            ==> !is_hex_digit(c),
{
}

} // verus!
