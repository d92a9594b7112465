//! Dotted hierarchical paths: segments with bracketed indices, then a leaf.
use crate::lexical::{identifier, identifier_spec, lemma_identifier_outcome, one_fragment};
use crate::outcome::{agrees, lemma_agrees_shifted, shifted, Outcome, PResult, ParseError, ParseErrorKind};
use crate::syntax::{
    expressions_view, ConstantExpression, HierarchicalIdentifier, HierarchicalIdentifierView,
    Hierarchy, HierarchyView,
};
use crate::text::{
    lemma_span_bound, lemma_ws_bound, skip_trivia, spaced_tag, spaced_token, span_not,
    take_not_in, take_tag, ws,
};
use vstd::prelude::*;

verus! {

/// Characters that end an index expression.
pub const BRACKETS: &'static str = "[]";

/// An index expression: the non-empty run of characters up to the next bracket.
pub open spec fn constant_expression_spec(s: Seq<char>) -> Outcome<Seq<char>> {
    let n = span_not(s, BRACKETS@) as int;
    if n == 0 {
        Err((0, ParseErrorKind::UnexpectedCharacter))
    } else {
        Ok((n, s.take(n)))
    }
}

/// `[`, an index expression, `]`, each after optional trivia.
pub open spec fn bracketed_spec(s: Seq<char>) -> Outcome<Seq<char>> {
    match spaced_token(s, "["@) {
        Err(a) => Err((a, ParseErrorKind::UnexpectedCharacter)),
        Ok(opened) => {
            let k = ws(s.skip(opened));
            match shifted(constant_expression_spec(s.skip(opened + k)), opened + k) {
                Err(e) => Err(e),
                Ok((expr_end, e)) => match spaced_token(s.skip(expr_end), "]"@) {
                    Err(a) => Err((expr_end + a, ParseErrorKind::UnexpectedCharacter)),
                    Ok(m) => Ok((expr_end + m, e)),
                },
            }
        },
    }
}

/// As many bracketed indices as follow one another: the characters consumed and
/// the indices' text.
pub open spec fn bit_select_spec(s: Seq<char>) -> (int, Seq<Seq<char>>)
    decreases s.len(),
{
    match bracketed_spec(s) {
        Ok((n, e)) => if 0 < n <= s.len() {
            let rest = bit_select_spec(s.skip(n));
            (n + rest.0, seq![e] + rest.1)
        } else {
            (0, Seq::empty())
        },
        Err(_) => (0, Seq::empty()),
    }
}

/// One path segment: a name, optional indices, and the dot that follows it.
pub open spec fn hierarchy_spec(s: Seq<char>) -> Outcome<HierarchyView> {
    match identifier_spec(s) {
        Err(e) => Err(e),
        Ok((n1, id)) => {
            let k = ws(s.skip(n1));
            let sel = bit_select_spec(s.skip(n1 + k));
            let p = n1 + k + sel.0;
            match spaced_token(s.skip(p), "."@) {
                Err(a) => Err((p + a, ParseErrorKind::UnexpectedCharacter)),
                Ok(d) => Ok(
                    (p + d, HierarchyView { identifier: id, constant_bit_select: Some(sel.1) }),
                ),
            }
        },
    }
}

/// As many path segments as follow one another.
pub open spec fn hierarchies_spec(s: Seq<char>) -> (int, Seq<HierarchyView>)
    decreases s.len(),
{
    match hierarchy_spec(s) {
        Ok((n, h)) => if 0 < n <= s.len() {
            let rest = hierarchies_spec(s.skip(n));
            (n + rest.0, seq![h] + rest.1)
        } else {
            (0, Seq::empty())
        },
        Err(_) => (0, Seq::empty()),
    }
}

/// The segment that stands for a leading root anchor.
pub open spec fn root_segment() -> HierarchyView {
    HierarchyView { identifier: seq!["$root"@], constant_bit_select: None }
}

/// Where a leading `$root` anchor and its dot end, if the input has one.
pub open spec fn root_anchor(s: Seq<char>) -> Option<int> {
    if "$root"@.is_prefix_of(s) {
        match spaced_token(s.skip("$root"@.len() as int), "."@) {
            Ok(d) => Some("$root"@.len() + d),
            Err(_) => None,
        }
    } else {
        None
    }
}

/// An optional root anchor, the path segments, then the leaf name.
pub open spec fn hierarchical_identifier_spec(s: Seq<char>) -> Outcome<HierarchicalIdentifierView> {
    let r = match root_anchor(s) {
        Some(e) => e,
        None => 0,
    };
    let hs = hierarchies_spec(s.skip(r));
    let p = r + hs.0;
    let k = ws(s.skip(p));
    match shifted(identifier_spec(s.skip(p + k)), p + k) {
        Err(e) => Err(e),
        Ok((n, id)) => Ok(
            (
                n,
                HierarchicalIdentifierView {
                    hierarchy: if root_anchor(s) is Some {
                        seq![root_segment()] + hs.1
                    } else {
                        hs.1
                    },
                    identifier: id,
                },
            ),
        ),
    }
}

/// An index expression (the characters up to the next bracket).
pub fn constant_expression<'a>(s: &'a str) -> (r: PResult<'a, ConstantExpression<'a>>)
    ensures
        agrees(s@, r, constant_expression_spec(s@)),
{
    proof {
        lemma_span_bound(s@, BRACKETS@);
    }
    match take_not_in(s, BRACKETS) {
        None => Err(ParseError { kind: ParseErrorKind::UnexpectedCharacter, at: s }),
        Some((rest, text)) => Ok((rest, ConstantExpression { text })),
    }
}

pub(crate) fn bracketed<'a>(s: &'a str) -> (r: PResult<'a, ConstantExpression<'a>>)
    ensures
        agrees(s@, r, bracketed_spec(s@)),
{
    proof {
        reveal_strlit("[");
        reveal_strlit("]");
    }
    let s1 = match spaced_tag(s, "[") {
        Ok(rest) => rest,
        Err(at) => {
            return Err(ParseError { kind: ParseErrorKind::UnexpectedCharacter, at });
        },
    };
    let ghost opened = spaced_token(s@, "["@)->Ok_0;
    proof {
        lemma_ws_bound(s1@);
    }
    let s2 = skip_trivia(s1);
    let ghost k = ws(s1@);
    assert(s2@ =~= s@.skip(opened + k));
    let r = constant_expression(s2);
    proof {
        lemma_agrees_shifted(s@, opened + k, r, constant_expression_spec(s2@));
    }
    match r {
        Err(e) => Err(e),
        Ok((s3, e)) => {
            let ghost expr_end = shifted(constant_expression_spec(s2@), opened + k)->Ok_0.0;
            match spaced_tag(s3, "]") {
                Ok(rest) => {
                    assert(rest@ =~= s@.skip(expr_end + spaced_token(s3@, "]"@)->Ok_0));
                    Ok((rest, e))
                },
                Err(at) => {
                    assert(at@ =~= s@.skip(expr_end + spaced_token(s3@, "]"@)->Err_0));
                    Err(ParseError { kind: ParseErrorKind::UnexpectedCharacter, at })
                },
            }
        },
    }
}

/// As many bracketed indices as follow one another; never fails.
pub fn constant_bit_select<'a>(s: &'a str) -> (r: (&'a str, Vec<ConstantExpression<'a>>))
    ensures
        0 <= bit_select_spec(s@).0 <= s@.len(),
        r.0@ =~= s@.skip(bit_select_spec(s@).0),
        expressions_view(r.1@) == bit_select_spec(s@).1,
{
    let mut cur = s;
    let mut acc: Vec<ConstantExpression<'a>> = Vec::new();
    let ghost mut done: int = 0;
    assert(expressions_view(acc@) =~= Seq::empty());
    proof {
        lemma_bit_select_bound(s@);
    }
    loop
        invariant
            0 <= done <= s@.len(),
            cur@ =~= s@.skip(done),
            bit_select_spec(s@).0 == done + bit_select_spec(cur@).0,
            bit_select_spec(s@).1 == expressions_view(acc@) + bit_select_spec(cur@).1,
            0 <= bit_select_spec(cur@).0 <= cur@.len(),
        decreases cur@.len(),
    {
        let r = bracketed(cur);
        match r {
            Err(_) => {
                assert(expressions_view(acc@) + bit_select_spec(cur@).1 =~= expressions_view(acc@));
                return (cur, acc);
            },
            Ok((rest, e)) => {
                let ghost n = bracketed_spec(cur@)->Ok_0.0;
                proof {
                    lemma_bracketed_bound(cur@);
                }
                let ghost old_acc = acc@;
                acc.push(e);
                assert(expressions_view(acc@) =~= expressions_view(old_acc).push(e@));
                assert(rest@ =~= s@.skip(done + n));
                proof {
                    lemma_bit_select_bound(rest@);
                    done = done + n;
                }
                assert(expressions_view(acc@) + bit_select_spec(rest@).1 =~= expressions_view(
                    old_acc,
                ) + (seq![e@] + bit_select_spec(rest@).1));
                cur = rest;
            },
        }
    }
}

/// One path segment: a name, optional indices, and the dot that follows it.
pub fn hierarchy<'a>(s: &'a str) -> (r: PResult<'a, Hierarchy<'a>>)
    ensures
        agrees(s@, r, hierarchy_spec(s@)),
{
    proof {
        reveal_strlit(".");
    }
    let (s1, id) = match identifier(s) {
        Ok(v) => v,
        Err(e) => {
            return Err(e);
        },
    };
    let ghost n1 = identifier_spec(s@)->Ok_0.0;
    proof {
        lemma_ws_bound(s1@);
    }
    let s2 = skip_trivia(s1);
    let ghost k = ws(s1@);
    assert(s2@ =~= s@.skip(n1 + k));
    let (s3, sel) = constant_bit_select(s2);
    let ghost p = n1 + k + bit_select_spec(s2@).0;
    assert(s3@ =~= s@.skip(p));
    match spaced_tag(s3, ".") {
        Ok(rest) => {
            assert(rest@ =~= s@.skip(p + spaced_token(s3@, "."@)->Ok_0));
            Ok((rest, Hierarchy { identifier: id, constant_bit_select: Some(sel) }))
        },
        Err(at) => {
            assert(at@ =~= s@.skip(p + spaced_token(s3@, "."@)->Err_0));
            Err(ParseError { kind: ParseErrorKind::UnexpectedCharacter, at })
        },
    }
}

pub open spec fn hierarchies_view<'a>(v: Seq<Hierarchy<'a>>) -> Seq<HierarchyView> {
    v.map_values(|h: Hierarchy<'a>| h@)
}

/// As many path segments as follow one another; never fails.
fn hierarchies<'a>(s: &'a str) -> (r: (&'a str, Vec<Hierarchy<'a>>))
    ensures
        0 <= hierarchies_spec(s@).0 <= s@.len(),
        r.0@ =~= s@.skip(hierarchies_spec(s@).0),
        hierarchies_view(r.1@) == hierarchies_spec(s@).1,
{
    let mut cur = s;
    let mut acc: Vec<Hierarchy<'a>> = Vec::new();
    let ghost mut done: int = 0;
    assert(hierarchies_view(acc@) =~= Seq::empty());
    proof {
        lemma_hierarchies_bound(s@);
    }
    loop
        invariant
            0 <= done <= s@.len(),
            cur@ =~= s@.skip(done),
            hierarchies_spec(s@).0 == done + hierarchies_spec(cur@).0,
            hierarchies_spec(s@).1 == hierarchies_view(acc@) + hierarchies_spec(cur@).1,
            0 <= hierarchies_spec(cur@).0 <= cur@.len(),
        decreases cur@.len(),
    {
        let r = hierarchy(cur);
        match r {
            Err(_) => {
                assert(hierarchies_view(acc@) + hierarchies_spec(cur@).1 =~= hierarchies_view(acc@));
                return (cur, acc);
            },
            Ok((rest, h)) => {
                let ghost n = hierarchy_spec(cur@)->Ok_0.0;
                proof {
                    lemma_hierarchy_progress(cur@);
                }
                let ghost old_acc = acc@;
                let ghost hv = h@;
                acc.push(h);
                assert(hierarchies_view(acc@) =~= hierarchies_view(old_acc).push(hv));
                assert(rest@ =~= s@.skip(done + n));
                proof {
                    lemma_hierarchies_bound(rest@);
                    done = done + n;
                }
                assert(hierarchies_view(acc@) + hierarchies_spec(rest@).1 =~= hierarchies_view(
                    old_acc,
                ) + (seq![hv] + hierarchies_spec(rest@).1));
                cur = rest;
            },
        }
    }
}

/// A root anchor, path segments, then the leaf name. Fails only where the leaf
/// does.
pub fn hierarchical_identifier<'a>(s: &'a str) -> (r: PResult<'a, HierarchicalIdentifier<'a>>)
    ensures
        agrees(s@, r, hierarchical_identifier_spec(s@)),
{
    proof {
        reveal_strlit("$root");
        reveal_strlit(".");
    }
    let (s1, root) = match take_tag(s, "$root") {
        Some((after, x)) => match spaced_tag(after, ".") {
            Ok(rest) => (rest, Some(x)),
            Err(_) => (s, None),
        },
        None => (s, None),
    };
    let ghost r0 = match root_anchor(s@) {
        Some(e) => e,
        None => 0,
    };
    assert(s1@ =~= s@.skip(r0));
    let (s2, mut hs) = hierarchies(s1);
    let ghost p = r0 + hierarchies_spec(s1@).0;
    assert(s2@ =~= s@.skip(p));
    proof {
        lemma_ws_bound(s2@);
    }
    let s3 = skip_trivia(s2);
    let ghost k = ws(s2@);
    assert(s3@ =~= s@.skip(p + k));
    let res = identifier(s3);
    proof {
        lemma_agrees_shifted(s@, p + k, res, identifier_spec(s3@));
    }
    match res {
        Err(e) => Err(e),
        Ok((rest, id)) => {
            let ghost old_hs = hs@;
            if let Some(x) = root {
                let seg = Hierarchy { identifier: one_fragment(x), constant_bit_select: None };
                assert(seg@ == root_segment());
                hs.insert(0, seg);
                assert(hierarchies_view(hs@) =~= seq![root_segment()] + hierarchies_view(old_hs));
            }
            Ok((rest, HierarchicalIdentifier { hierarchy: hs, identifier: id }))
        },
    }
}

pub proof fn lemma_hierarchy_progress(s: Seq<char>)
    requires
        hierarchy_spec(s) is Ok,
    ensures
        0 < hierarchy_spec(s)->Ok_0.0 <= s.len(),
{
    reveal_strlit(".");
    let n1 = identifier_spec(s)->Ok_0.0;
    lemma_identifier_outcome(s);
    let k = ws(s.skip(n1));
    lemma_ws_bound(s.skip(n1));
    lemma_bit_select_bound(s.skip(n1 + k));
    let p = n1 + k + bit_select_spec(s.skip(n1 + k)).0;
    lemma_ws_bound(s.skip(p));
}

pub proof fn lemma_hierarchies_bound(s: Seq<char>)
    ensures
        0 <= hierarchies_spec(s).0 <= s.len(),
    decreases s.len(),
{
    if let Ok((n, _)) = hierarchy_spec(s) {
        if 0 < n <= s.len() {
            lemma_hierarchies_bound(s.skip(n));
        }
    }
}

pub proof fn lemma_bracketed_bound(s: Seq<char>)
    requires
        bracketed_spec(s) is Ok,
    ensures
        0 < bracketed_spec(s)->Ok_0.0 <= s.len(),
{
    reveal_strlit("[");
    reveal_strlit("]");
    lemma_ws_bound(s);
    let opened = spaced_token(s, "["@)->Ok_0;
    lemma_ws_bound(s.skip(opened));
    let k = ws(s.skip(opened));
    lemma_span_bound(s.skip(opened + k), BRACKETS@);
    let expr_end = opened + k + span_not(s.skip(opened + k), BRACKETS@);
    lemma_ws_bound(s.skip(expr_end));
}

pub proof fn lemma_bit_select_bound(s: Seq<char>)
    ensures
        0 <= bit_select_spec(s).0 <= s.len(),
    decreases s.len(),
{
    if let Ok((n, _)) = bracketed_spec(s) {
        if 0 < n <= s.len() {
            lemma_bit_select_bound(s.skip(n));
        }
    }
}

} // verus!
