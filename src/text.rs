//! Character-level scanning on `&str`, backed by nom's complete scanners, and
//! the trivia (whitespace and comments) that may stand between tokens.
use vstd::prelude::*;

verus! {

/// Length of the longest prefix of `s` whose characters all occur in `set`.
pub open spec fn span(s: Seq<char>, set: Seq<char>) -> nat
    decreases s.len(),
{
    if s.len() > 0 && set.contains(s[0]) {
        1 + span(s.drop_first(), set)
    } else {
        0
    }
}

/// Length of the longest prefix of `s` whose characters all lie outside `set`.
pub open spec fn span_not(s: Seq<char>, set: Seq<char>) -> nat
    decreases s.len(),
{
    if s.len() > 0 && !set.contains(s[0]) {
        1 + span_not(s.drop_first(), set)
    } else {
        0
    }
}

pub proof fn lemma_span_bound(s: Seq<char>, set: Seq<char>)
    ensures
        span(s, set) <= s.len(),
        span_not(s, set) <= s.len(),
    decreases s.len(),
{
    if s.len() > 0 {
        lemma_span_bound(s.drop_first(), set);
    }
}

/// Relies on nom::bytes::complete::tag: on a match it splits the input after
/// the tag and hands back (rest, matched); otherwise it fails.
#[verifier::external_body]
pub(crate) fn take_tag<'a>(s: &'a str, t: &str) -> (r: Option<(&'a str, &'a str)>)
    ensures
        r is Some <==> t@.is_prefix_of(s@),
        r matches Some((rest, m)) ==> m@ == t@ && rest@ == s@.skip(t@.len() as int),
{
    nom::bytes::complete::tag::<&str, &str, nom::error::Error<&str>>(t)(s).ok()
}

/// Relies on nom::bytes::complete::is_a: the longest non-empty prefix of
/// characters in `set`, as (rest, run); it fails where that prefix is empty.
#[verifier::external_body]
pub(crate) fn take_in<'a>(s: &'a str, set: &str) -> (r: Option<(&'a str, &'a str)>)
    ensures
        r is Some <==> span(s@, set@) > 0,
        r matches Some((rest, m)) ==> m@ == s@.take(span(s@, set@) as int) && rest@ == s@.skip(
            span(s@, set@) as int,
        ),
{
    nom::bytes::complete::is_a::<&str, &str, nom::error::Error<&str>>(set)(s).ok()
}

/// Relies on nom::bytes::complete::is_not: the longest non-empty prefix of
/// characters outside `set`, as (rest, run); it fails where that prefix is empty.
#[verifier::external_body]
pub(crate) fn take_not_in<'a>(s: &'a str, set: &str) -> (r: Option<(&'a str, &'a str)>)
    ensures
        r is Some <==> span_not(s@, set@) > 0,
        r matches Some((rest, m)) ==> m@ == s@.take(span_not(s@, set@) as int) && rest@
            == s@.skip(span_not(s@, set@) as int),
{
    nom::bytes::complete::is_not::<&str, &str, nom::error::Error<&str>>(set)(s).ok()
}

/// The whitespace characters: space, tab, carriage return, line feed.
pub const WHITESPACE: &'static str = " \t\r\n";

/// The character that ends a line comment.
pub const LINE_END: &'static str = "\n";

/// The offset of the first occurrence of `t` in `s`, if there is one.
pub open spec fn first_occurrence(s: Seq<char>, t: Seq<char>) -> Option<int>
    decreases s.len(),
{
    if t.is_prefix_of(s) {
        Some(0)
    } else if s.len() == 0 {
        None
    } else {
        match first_occurrence(s.drop_first(), t) {
            Some(i) => Some(i + 1),
            None => None,
        }
    }
}

pub proof fn lemma_first_occurrence(s: Seq<char>, t: Seq<char>)
    ensures
        first_occurrence(s, t) matches Some(i) ==> 0 <= i && i + t.len() <= s.len()
            && t.is_prefix_of(s.skip(i)),
    decreases s.len(),
{
    if !t.is_prefix_of(s) && s.len() > 0 {
        lemma_first_occurrence(s.drop_first(), t);
        if let Some(i) = first_occurrence(s.drop_first(), t) {
            assert(s.drop_first().skip(i) =~= s.skip(i + 1));
        }
    }
}

/// Length of the comment at the start of `s`: `//` up to the end of the line,
/// or `/*` through the first `*/`; zero where none starts there.
pub open spec fn comment_len(s: Seq<char>) -> int {
    if "//"@.is_prefix_of(s) {
        2 + span_not(s.skip(2), LINE_END@) as int
    } else if "/*"@.is_prefix_of(s) {
        match first_occurrence(s.skip(2), "*/"@) {
            Some(i) => 2 + i + 2,
            None => 0,
        }
    } else {
        0
    }
}

/// Length of the one run of whitespace, or the one comment, at the start of `s`.
pub open spec fn trivia_len(s: Seq<char>) -> int {
    if span(s, WHITESPACE@) > 0 {
        span(s, WHITESPACE@) as int
    } else {
        comment_len(s)
    }
}

/// Length of the leading whitespace and comments of `s`.
pub open spec fn ws(s: Seq<char>) -> int
    decreases s.len(),
{
    let i = trivia_len(s);
    if 0 < i <= s.len() {
        i + ws(s.skip(i))
    } else {
        0
    }
}

pub proof fn lemma_trivia_bound(s: Seq<char>)
    ensures
        0 <= trivia_len(s) <= s.len(),
{
    reveal_strlit("//");
    reveal_strlit("/*");
    reveal_strlit("*/");
    lemma_span_bound(s, WHITESPACE@);
    if s.len() >= 2 {
        lemma_span_bound(s.skip(2), LINE_END@);
        lemma_first_occurrence(s.skip(2), "*/"@);
    }
}

pub proof fn lemma_ws_bound(s: Seq<char>)
    ensures
        0 <= ws(s) <= s.len(),
    decreases s.len(),
{
    lemma_trivia_bound(s);
    let i = trivia_len(s);
    if 0 < i <= s.len() {
        lemma_ws_bound(s.skip(i));
    }
}

/// Relies on nom::bytes::complete::take_until: the text before the first
/// occurrence of `t`, as (rest, before); it fails where `t` does not occur.
#[verifier::external_body]
pub(crate) fn take_until<'a>(s: &'a str, t: &str) -> (r: Option<(&'a str, &'a str)>)
    ensures
        r is Some <==> first_occurrence(s@, t@) is Some,
        r matches Some((rest, m)) ==> m@ == s@.take(first_occurrence(s@, t@)->Some_0) && rest@
            == s@.skip(first_occurrence(s@, t@)->Some_0),
{
    nom::bytes::complete::take_until::<&str, &str, nom::error::Error<&str>>(t)(s).ok()
}

fn trivia<'a>(s: &'a str) -> (r: Option<&'a str>)
    ensures
        match r {
            Some(rest) => 0 < trivia_len(s@) && rest@ =~= s@.skip(trivia_len(s@)),
            None => trivia_len(s@) == 0,
        },
{
    proof {
        reveal_strlit("//");
        reveal_strlit("/*");
        reveal_strlit("*/");
        lemma_span_bound(s@, WHITESPACE@);
    }
    if let Some((rest, _)) = take_in(s, WHITESPACE) {
        return Some(rest);
    }
    if let Some((rest, _)) = take_tag(s, "//") {
        proof {
            lemma_span_bound(rest@, LINE_END@);
        }
        return match take_not_in(rest, LINE_END) {
            Some((after, _)) => {
                assert(after@ =~= s@.skip(trivia_len(s@)));
                Some(after)
            },
            None => Some(rest),
        };
    }
    if let Some((rest, _)) = take_tag(s, "/*") {
        proof {
            lemma_first_occurrence(rest@, "*/"@);
        }
        if let Some((at_close, _)) = take_until(rest, "*/") {
            if let Some((after, _)) = take_tag(at_close, "*/") {
                assert(after@ =~= s@.skip(trivia_len(s@)));
                return Some(after);
            }
        }
    }
    None
}

/// Skips the leading whitespace and comments.
pub fn skip_trivia<'a>(s: &'a str) -> (r: &'a str)
    ensures
        0 <= ws(s@) <= s@.len(),
        r@ =~= s@.skip(ws(s@)),
{
    let mut cur = s;
    let ghost mut done: int = 0;
    proof {
        lemma_ws_bound(s@);
    }
    loop
        invariant
            0 <= done <= s@.len(),
            cur@ =~= s@.skip(done),
            ws(s@) == done + ws(cur@),
        decreases cur@.len(),
    {
        proof {
            lemma_trivia_bound(cur@);
        }
        match trivia(cur) {
            None => {
                return cur;
            },
            Some(rest) => {
                let ghost i = trivia_len(cur@);
                assert(rest@ =~= s@.skip(done + i));
                proof {
                    done = done + i;
                }
                cur = rest;
            },
        }
    }
}

/// Optional trivia, then the literal token `t`: on a match the offset just past
/// the token, otherwise the offset where the token was expected.
pub open spec fn spaced_token(s: Seq<char>, t: Seq<char>) -> Result<int, int> {
    if t.is_prefix_of(s.skip(ws(s))) {
        Ok(ws(s) + t.len())
    } else {
        Err(ws(s))
    }
}

/// Skips trivia, then takes the token `t`; on failure, hands back the input that
/// followed the trivia.
pub fn spaced_tag<'a>(s: &'a str, t: &str) -> (r: Result<&'a str, &'a str>)
    ensures
        match (r, spaced_token(s@, t@)) {
            (Ok(rest), Ok(n)) => 0 <= n <= s@.len() && rest@ =~= s@.skip(n),
            (Err(at), Err(n)) => 0 <= n <= s@.len() && at@ =~= s@.skip(n),
            _ => false,
        },
{
    let s2 = skip_trivia(s);
    match take_tag(s2, t) {
        Some((rest, _)) => {
            assert(rest@ =~= s@.skip(ws(s@) + t@.len()));
            Ok(rest)
        },
        None => Err(s2),
    }
}

} // verus!
