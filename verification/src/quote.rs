//! Quoting of text for SQL: string literals and the quoted forms of
//! identifiers.

use vstd::prelude::*;
use crate::text::{chars_of, double_char, doubled, halved, opt_text, wrap, wrapped};

verus! {

/// The SQL string literal for `s`: `s` between single quotes, each single
/// quote inside it doubled. No other character is changed.
pub open spec fn quote_text(s: Seq<char>) -> Seq<char> {
    wrapped('\'', doubled(s, '\''), '\'')
}

/// `s` between double quotes, each double quote inside it doubled.
pub open spec fn dquote_text(s: Seq<char>) -> Seq<char> {
    wrapped('"', doubled(s, '"'), '"')
}

/// `s` between backticks, each backtick inside it doubled.
pub open spec fn baquote_text(s: Seq<char>) -> Seq<char> {
    wrapped('`', doubled(s, '`'), '`')
}

/// `s` between square brackets, unchanged.
pub open spec fn brquote_text(s: Seq<char>) -> Seq<char> {
    wrapped('[', s, ']')
}

/// The text of which `s` is the string literal, if `s` is one: `s` without
/// its enclosing single quotes, each pair of single quotes inside it halved.
pub open spec fn unquote_text(s: Seq<char>) -> Option<Seq<char>> {
    if s.len() >= 2 && s.first() == '\'' && s.last() == '\'' {
        halved(s.subrange(1, s.len() - 1), '\'')
    } else {
        None
    }
}

/// Doubles each single quote of `s`.
pub fn esc(s: &str) -> (out: String)
    ensures
        out@ == doubled(s@, '\''),
{
    double_char(s, '\'')
}

/// The SQL string literal for `s`.
pub fn quote(s: &str) -> (out: String)
    ensures
        out@ == quote_text(s@),
{
    wrap('\'', double_char(s, '\'').as_str(), '\'')
}

/// `s` as a double-quoted identifier.
pub fn dquote(s: &str) -> (out: String)
    ensures
        out@ == dquote_text(s@),
{
    wrap('"', double_char(s, '"').as_str(), '"')
}

/// `s` as a backtick-quoted identifier.
pub fn baquote(s: &str) -> (out: String)
    ensures
        out@ == baquote_text(s@),
{
    wrap('`', double_char(s, '`').as_str(), '`')
}

/// `s` as a bracket-quoted identifier.
pub fn brquote(s: &str) -> (out: String)
    ensures
        out@ == brquote_text(s@),
{
    wrap('[', s, ']')
}

/// The text of which `s` is the string literal; `None` where `s` is not a
/// string literal.
pub fn unquote(s: &str) -> (out: Option<String>)
    ensures
        opt_text(out) == unquote_text(s@),
{
    let v = chars_of(s);
    let n = v.len();
    if n < 2 || v[0] != '\'' || v[n - 1] != '\'' {
        return None;
    }
    let ghost body = s@.subrange(1, n - 1);
    let mut out = String::new();
    let mut i: usize = 1;
    proof {
        assert(body.skip(0) == body);
        if let Some(rest) = halved(body, '\'') {
            assert(out@ + rest == rest);
        }
    }
    while i < n - 1
        invariant
            v@ == s@,
            n == v.len(),
            n >= 2,
            1 <= i <= n - 1,
            body == s@.subrange(1, n - 1),
            halved(body, '\'') == match halved(body.skip(i - 1), '\'') {
                Some(rest) => Some(out@ + rest),
                None => None,
            },
        decreases n - i,
    {
        let ghost rest = body.skip(i - 1);
        let ghost before = out@;
        let c = v[i];
        assert(rest[0] == c);
        if c != '\'' {
            out.push(c);
            i += 1;
            proof {
                assert(rest.drop_first() == body.skip(i - 1));
                if let Some(tail) = halved(rest.drop_first(), '\'') {
                    assert(before + (seq![c] + tail) == out@ + tail);
                }
            }
        } else if i + 1 < n - 1 && v[i + 1] == '\'' {
            assert(rest[1] == v@[i + 1]);
            out.push(c);
            i += 2;
            proof {
                assert(rest.skip(2) == body.skip(i - 1));
                if let Some(tail) = halved(rest.skip(2), '\'') {
                    assert(before + (seq!['\''] + tail) == out@ + tail);
                }
            }
        } else {
            proof {
                if rest.len() >= 2 {
                    assert(rest[1] == v@[i + 1]);
                }
            }
            return None;
        }
    }
    assert(body.skip(i - 1).len() == 0);
    assert(out@ + Seq::<char>::empty() == out@);
    Some(out)
}

/// Halving undoes doubling.
pub proof fn lemma_halved_doubled(s: Seq<char>, q: char)
    ensures
        halved(doubled(s, q), q) == Some(s),
    decreases s.len(),
{
    if s.len() > 0 {
        let rest = doubled(s.drop_first(), q);
        lemma_halved_doubled(s.drop_first(), q);
        if s[0] == q {
            assert((seq![q, q] + rest).skip(2) == rest);
        } else {
            assert((seq![s[0]] + rest).drop_first() == rest);
        }
        assert(seq![s[0]] + s.drop_first() == s);
    }
}

/// Every text is recovered from its string literal: unquoting the literal
/// for `s` gives `s`, and quoting that again gives the same literal.
pub proof fn lemma_quote_round_trip(s: Seq<char>)
    ensures
        unquote_text(quote_text(s)) == Some(s),
        quote_text(unquote_text(quote_text(s)).unwrap()) == quote_text(s),
{
    let lit = quote_text(s);
    lemma_halved_doubled(s, '\'');
    assert(lit.subrange(1, lit.len() - 1) == doubled(s, '\''));
}

} // verus!
