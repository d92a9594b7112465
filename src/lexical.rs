//! Identifier tokens: plain, escaped, system task/function, and C-style.
use crate::outcome::{agrees, Outcome, PResult, ParseError, ParseErrorKind};
use crate::syntax::{Identifier, IdentifierView};
use crate::text::{span, span_not, take_in, take_not_in, take_tag, WHITESPACE, lemma_span_bound};
use vstd::prelude::*;

verus! {

/// Characters that may start a plain identifier.
pub const AZ_: &'static str = "abcdefghijklmnopqrstuvwxyzABCDEFGHIJKLMNOPQRSTUVWXYZ_";

/// Characters that may continue a C identifier.
pub const AZ09_: &'static str = "abcdefghijklmnopqrstuvwxyzABCDEFGHIJKLMNOPQRSTUVWXYZ0123456789_";

/// Characters that may continue a plain identifier or form a system name.
pub const AZ09_DOLLAR: &'static str =
    "abcdefghijklmnopqrstuvwxyzABCDEFGHIJKLMNOPQRSTUVWXYZ0123456789_$";

/// A run of `head` characters, then an optional run of `tail` characters;
/// one fragment per run.
pub open spec fn two_runs(s: Seq<char>, head: Seq<char>, tail: Seq<char>) -> Outcome<IdentifierView> {
    let n1 = span(s, head) as int;
    let n2 = span(s.skip(n1), tail) as int;
    if n1 == 0 {
        Err((0, ParseErrorKind::UnexpectedCharacter))
    } else if n2 == 0 {
        Ok((n1, seq![s.take(n1)]))
    } else {
        Ok((n1 + n2, seq![s.take(n1), s.subrange(n1, n1 + n2)]))
    }
}

pub open spec fn simple_identifier_spec(s: Seq<char>) -> Outcome<IdentifierView> {
    two_runs(s, AZ_@, AZ09_DOLLAR@)
}

pub open spec fn c_identifier_spec(s: Seq<char>) -> Outcome<IdentifierView> {
    two_runs(s, AZ_@, AZ09_@)
}

/// A marker token `m` followed by a non-empty body; fragments are marker and body.
pub open spec fn marked(
    s: Seq<char>,
    m: Seq<char>,
    body: int,
    no_marker: ParseErrorKind,
    no_body: ParseErrorKind,
) -> Outcome<IdentifierView> {
    if !m.is_prefix_of(s) {
        Err((0, no_marker))
    } else if body == 0 {
        Err((m.len() as int, no_body))
    } else {
        Ok((m.len() + body, seq![m, s.subrange(m.len() as int, m.len() + body)]))
    }
}

pub open spec fn escaped_identifier_spec(s: Seq<char>) -> Outcome<IdentifierView> {
    marked(
        s,
        "\\"@,
        span_not(s.skip("\\"@.len() as int), WHITESPACE@) as int,
        ParseErrorKind::UnexpectedCharacter,
        ParseErrorKind::EmptyEscapeBody,
    )
}

pub open spec fn system_tf_identifier_spec(s: Seq<char>) -> Outcome<IdentifierView> {
    marked(
        s,
        "$"@,
        span(s.skip("$"@.len() as int), AZ09_DOLLAR@) as int,
        ParseErrorKind::MissingDollarPrefix,
        ParseErrorKind::UnexpectedCharacter,
    )
}

/// Escaped first, else plain; where both fail, the choice fails as a whole.
pub open spec fn identifier_spec(s: Seq<char>) -> Outcome<IdentifierView> {
    match escaped_identifier_spec(s) {
        Ok(v) => Ok(v),
        Err(_) => match simple_identifier_spec(s) {
            Ok(v) => Ok(v),
            Err(_) => Err((0, ParseErrorKind::NoAlternativeMatched)),
        },
    }
}

/// A successful identifier consumes at least one character and no more than
/// the input holds.
pub proof fn lemma_identifier_outcome(s: Seq<char>)
    ensures
        identifier_spec(s) matches Ok((n, _)) ==> 0 < n <= s.len(),
{
    reveal_strlit("\\");
    lemma_span_bound(s, AZ_@);
    lemma_span_bound(s.skip(1), WHITESPACE@);
    lemma_span_bound(s.skip(span(s, AZ_@) as int), AZ09_DOLLAR@);
}

pub(crate) fn one_fragment<'a>(x: &'a str) -> (r: Identifier<'a>)
    ensures
        r@ == seq![x@],
{
    let r = Identifier { raw: vec![x] };
    assert(r@ =~= seq![x@]);
    r
}

pub(crate) fn two_fragments<'a>(x: &'a str, y: &'a str) -> (r: Identifier<'a>)
    ensures
        r@ == seq![x@, y@],
{
    let r = Identifier { raw: vec![x, y] };
    assert(r@ =~= seq![x@, y@]);
    r
}

fn scan_two_runs<'a>(s: &'a str, head: &str, tail: &str) -> (r: PResult<'a, Identifier<'a>>)
    ensures
        agrees(s@, r, two_runs(s@, head@, tail@)),
{
    proof {
        lemma_span_bound(s@, head@);
    }
    match take_in(s, head) {
        None => Err(ParseError { kind: ParseErrorKind::UnexpectedCharacter, at: s }),
        Some((rest, x)) => {
            let ghost n1 = span(s@, head@) as int;
            proof {
                lemma_span_bound(rest@, tail@);
            }
            match take_in(rest, tail) {
                None => Ok((rest, one_fragment(x))),
                Some((rest2, y)) => {
                    let ghost n2 = span(rest@, tail@) as int;
                    assert(rest2@ =~= s@.skip(n1 + n2));
                    assert(y@ =~= s@.subrange(n1, n1 + n2));
                    Ok((rest2, two_fragments(x, y)))
                },
            }
        },
    }
}

/// A plain identifier: letters or underscore, then letters, digits, `_` or `$`.
pub fn simple_identifier<'a>(s: &'a str) -> (r: PResult<'a, Identifier<'a>>)
    ensures
        agrees(s@, r, simple_identifier_spec(s@)),
{
    scan_two_runs(s, AZ_, AZ09_DOLLAR)
}

/// A C identifier: letters or underscore, then letters, digits or `_`.
pub fn c_identifier<'a>(s: &'a str) -> (r: PResult<'a, Identifier<'a>>)
    ensures
        agrees(s@, r, c_identifier_spec(s@)),
{
    scan_two_runs(s, AZ_, AZ09_)
}

/// A backslash, then every character up to the next whitespace.
pub fn escaped_identifier<'a>(s: &'a str) -> (r: PResult<'a, Identifier<'a>>)
    ensures
        agrees(s@, r, escaped_identifier_spec(s@)),
{
    proof {
        reveal_strlit("\\");
    }
    match take_tag(s, "\\") {
        None => Err(ParseError { kind: ParseErrorKind::UnexpectedCharacter, at: s }),
        Some((rest, x)) => {
            proof {
                lemma_span_bound(rest@, WHITESPACE@);
            }
            match take_not_in(rest, WHITESPACE) {
                None => Err(ParseError { kind: ParseErrorKind::EmptyEscapeBody, at: rest }),
                Some((rest2, y)) => {
                    let ghost n = span_not(rest@, WHITESPACE@) as int;
                    assert(rest2@ =~= s@.skip(1 + n));
                    assert(y@ =~= s@.subrange(1, 1 + n));
                    Ok((rest2, two_fragments(x, y)))
                },
            }
        },
    }
}

/// A `$`, then a non-empty run of letters, digits, `_` or `$`.
pub fn system_tf_identifier<'a>(s: &'a str) -> (r: PResult<'a, Identifier<'a>>)
    ensures
        agrees(s@, r, system_tf_identifier_spec(s@)),
{
    proof {
        reveal_strlit("$");
    }
    match take_tag(s, "$") {
        None => Err(ParseError { kind: ParseErrorKind::MissingDollarPrefix, at: s }),
        Some((rest, x)) => {
            proof {
                lemma_span_bound(rest@, AZ09_DOLLAR@);
            }
            match take_in(rest, AZ09_DOLLAR) {
                None => Err(ParseError { kind: ParseErrorKind::UnexpectedCharacter, at: rest }),
                Some((rest2, y)) => {
                    let ghost n = span(rest@, AZ09_DOLLAR@) as int;
                    assert(rest2@ =~= s@.skip(1 + n));
                    assert(y@ =~= s@.subrange(1, 1 + n));
                    Ok((rest2, two_fragments(x, y)))
                },
            }
        },
    }
}

/// Any identifier: escaped, else plain.
pub fn identifier<'a>(s: &'a str) -> (r: PResult<'a, Identifier<'a>>)
    ensures
        agrees(s@, r, identifier_spec(s@)),
{
    match escaped_identifier(s) {
        Ok(v) => Ok(v),
        Err(_) => match simple_identifier(s) {
            Ok(v) => Ok(v),
            Err(_) => Err(ParseError { kind: ParseErrorKind::NoAlternativeMatched, at: s }),
        },
    }
}

} // verus!
