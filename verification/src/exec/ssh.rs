//! Quoting for the shell on the far end of an SSH channel.

use vstd::prelude::*;

use crate::text;

verus! {

/// What stands for `c` between single quotes: a single quote closes the quoting, stands
/// escaped, and opens it again.
pub open spec fn quoted_char(c: char) -> Seq<char> {
    if c == '\'' {
        seq!['\'', '\\', '\'', '\'']
    } else {
        seq![c]
    }
}

/// What stands for `s` between single quotes.
pub open spec fn escaped(s: Seq<char>) -> Seq<char>
    decreases s.len(),
{
    if s.len() == 0 {
        Seq::empty()
    } else {
        escaped(s.drop_last()) + quoted_char(s.last())
    }
}

/// `s` as one single-quoted word of the shell.
pub open spec fn shell_quote(s: Seq<char>) -> Seq<char> {
    seq!['\''] + escaped(s) + seq!['\'']
}

/// `s` as one single-quoted word of the shell.
pub fn shell_quote_single(s: &str) -> (r: String)
    ensures
        r@ == shell_quote(s@),
{
    let x: Vec<char> = text::to_chars(s);
    let mut out: String = String::new();
    text::push_char(&mut out, '\'');
    let mut i: usize = 0;
    proof {
        assert(out@ =~= seq!['\''] + escaped(s@.take(0)));
    }
    while i < x.len()
        invariant
            x@ == s@,
            i <= x@.len(),
            out@ == seq!['\''] + escaped(s@.take(i as int)),
        decreases x.len() - i,
    {
        let c: char = x[i];
        let ghost before = out@;
        proof {
            assert(s@.take(i as int + 1).drop_last() =~= s@.take(i as int));
            assert(s@.take(i as int + 1).last() == c);
        }
        if c == '\'' {
            text::push_char(&mut out, '\'');
            text::push_char(&mut out, '\\');
            text::push_char(&mut out, '\'');
            text::push_char(&mut out, '\'');
        } else {
            text::push_char(&mut out, c);
        }
        proof {
            assert(out@ =~= before + quoted_char(c));
            assert(out@ =~= seq!['\''] + escaped(s@.take(i as int + 1)));
        }
        i = i + 1;
    }
    text::push_char(&mut out, '\'');
    proof {
        assert(s@.take(i as int) =~= s@);
        assert(out@ =~= shell_quote(s@));
    }
    out
}

/// How a connection proves who it is.
#[derive(Clone, Copy, Debug, PartialEq, Eq, Structural)]
pub enum SshAuth {
    Password,
    PrivateKey,
}

// ---------------------------------------------------------------------------------------------
// What the shell reads
// ---------------------------------------------------------------------------------------------

/// Whether a character stands for itself in a word of the shell without quoting.
pub open spec fn is_plain(c: char) -> bool {
    ||| 'a' <= c <= 'z'
    ||| 'A' <= c <= 'Z'
    ||| '0' <= c <= '9'
    ||| c == '/'
    ||| c == '.'
    ||| c == '-'
    ||| c == '_'
    ||| c == ':'
    ||| c == '='
    ||| c == ','
    ||| c == '%'
    ||| c == '+'
    ||| c == '@'
}

/// The argument that the shell makes of the word `s`: characters between single quotes stand for
/// themselves, outside them a backslash takes the next character literally. `None` where `s` is
/// no such word (an open quote, or a character that the shell would act on).
pub open spec fn sh_word(s: Seq<char>, in_quotes: bool) -> Option<Seq<char>>
    decreases s.len(),
{
    if s.len() == 0 {
        if in_quotes {
            None
        } else {
            Some(Seq::empty())
        }
    } else {
        let rest = s.subrange(1, s.len() as int);
        if in_quotes {
            if s[0] == '\'' {
                sh_word(rest, false)
            } else {
                match sh_word(rest, true) {
                    Some(w) => Some(seq![s[0]] + w),
                    None => None,
                }
            }
        } else if s[0] == '\'' {
            sh_word(rest, true)
        } else if s[0] == '\\' && rest.len() > 0 {
            match sh_word(s.subrange(2, s.len() as int), false) {
                Some(w) => Some(seq![s[1]] + w),
                None => None,
            }
        } else if is_plain(s[0]) {
            match sh_word(rest, false) {
                Some(w) => Some(seq![s[0]] + w),
                None => None,
            }
        } else {
            None
        }
    }
}

proof fn lemma_escaped_push_front(c: char, s: Seq<char>)
    ensures
        escaped(seq![c] + s) == quoted_char(c) + escaped(s),
    decreases s.len(),
{
    let whole = seq![c] + s;
    if s.len() == 0 {
        assert(whole.drop_last() =~= Seq::<char>::empty());
        assert(escaped(whole.drop_last()) =~= Seq::<char>::empty());
        assert(escaped(s) =~= Seq::<char>::empty());
        assert(escaped(whole) =~= quoted_char(c) + escaped(s));
    } else {
        lemma_escaped_push_front(c, s.drop_last());
        assert(whole.drop_last() =~= seq![c] + s.drop_last());
        assert(escaped(whole) =~= quoted_char(c) + escaped(s));
    }
}

/// Inside an open quote, the shell reads back the characters that were escaped.
proof fn lemma_reads_escaped(s: Seq<char>, tail: Seq<char>)
    requires
        sh_word(tail, true) is Some,
    ensures
        sh_word(escaped(s) + tail, true) == Some(s + sh_word(tail, true)->0),
    decreases s.len(),
{
    if s.len() == 0 {
        assert(escaped(s) + tail =~= tail);
        assert(s + sh_word(tail, true)->0 =~= sh_word(tail, true)->0);
    } else {
        let rest = s.subrange(1, s.len() as int);
        assert(s =~= seq![s[0]] + rest);
        lemma_escaped_push_front(s[0], rest);
        lemma_reads_escaped(rest, tail);
        let whole = escaped(s) + tail;
        let after = escaped(rest) + tail;
        let got = rest + sh_word(tail, true)->0;
        assert(sh_word(after, true) == Some(got));
        if s[0] == '\'' {
            let w1 = whole.subrange(1, whole.len() as int);
            assert(whole[0] == '\'');
            assert(w1[0] == '\\');
            assert(w1[1] == '\'');
            let w3 = w1.subrange(2, w1.len() as int);
            assert(w3[0] == '\'');
            assert(w3.subrange(1, w3.len() as int) =~= after);
            assert(sh_word(w3, false) == sh_word(after, true));
            assert(sh_word(w1, false) == Some(seq!['\''] + got));
            assert(sh_word(whole, true) == sh_word(w1, false));
        } else {
            assert(whole[0] == s[0]);
            assert(whole.subrange(1, whole.len() as int) =~= after);
        }
        assert(seq![s[0]] + got =~= s + sh_word(tail, true)->0);
    }
}

/// Whatever the text, the shell reads the quoted word as one argument that is exactly the text.
pub proof fn law_quote_round_trip(s: Seq<char>)
    ensures
        sh_word(shell_quote(s), false) == Some(s),
{
    let close = seq!['\''];
    assert(close.subrange(1, 1) =~= Seq::<char>::empty());
    assert(sh_word(Seq::<char>::empty(), false) == Some(Seq::<char>::empty()));
    assert(sh_word(close, true) == Some(Seq::<char>::empty()));
    lemma_reads_escaped(s, close);
    let q = shell_quote(s);
    assert(q[0] == '\'');
    assert(q.subrange(1, q.len() as int) =~= escaped(s) + close);
    assert(s + Seq::<char>::empty() =~= s);
}

/// Different texts are quoted differently.
pub proof fn law_quote_injective(a: Seq<char>, b: Seq<char>)
    requires
        shell_quote(a) == shell_quote(b),
    ensures
        a == b,
{
    law_quote_round_trip(a);
    law_quote_round_trip(b);
}

} // verus!
