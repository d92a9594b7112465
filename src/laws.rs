//! Properties that hold of the productions over all inputs.
use crate::lexical::{
    c_identifier_spec, escaped_identifier_spec, identifier_spec, simple_identifier_spec,
    system_tf_identifier_spec, two_runs, AZ09_, AZ09_DOLLAR, AZ_,
};
use crate::outcome::{agrees, observed, Outcome, PResult, ParseErrorKind};
use crate::hierarchy::{hierarchical_identifier_spec, hierarchies_spec, hierarchy_spec, root_anchor};
use crate::syntax::{bare_hierarchical, HierarchicalIdentifierView, IdentifierView};
use crate::text::ws;
use crate::text::{lemma_span_bound, span, span_not, WHITESPACE};
use vstd::prelude::*;

verus! {

/// The fragments of an identifier, written one after another.
pub open spec fn spelling(f: IdentifierView) -> Seq<char> {
    f.flatten()
}

/// `o` parsed an identifier whose fragments spell exactly what it consumed.
pub open spec fn lossless(s: Seq<char>, o: Outcome<IdentifierView>) -> bool {
    o matches Ok((n, f)) ==> spelling(f) == s.take(n)
}

proof fn lemma_flatten_one(a: Seq<char>)
    ensures
        seq![a].flatten() == a,
{
    assert(seq![a].drop_first() =~= Seq::<Seq<char>>::empty());
    assert(seq![a].flatten() =~= a + Seq::<Seq<char>>::empty().flatten());
}

proof fn lemma_flatten_two(a: Seq<char>, b: Seq<char>)
    ensures
        seq![a, b].flatten() == a + b,
{
    assert(seq![a, b].drop_first() =~= seq![b]);
    lemma_flatten_one(b);
}

proof fn lemma_two_runs_lossless(s: Seq<char>, head: Seq<char>, tail: Seq<char>)
    ensures
        lossless(s, two_runs(s, head, tail)),
{
    let n1 = span(s, head) as int;
    lemma_span_bound(s, head);
    lemma_span_bound(s.skip(n1), tail);
    let n2 = span(s.skip(n1), tail) as int;
    lemma_flatten_one(s.take(n1));
    lemma_flatten_two(s.take(n1), s.subrange(n1, n1 + n2));
    assert(s.take(n1) + s.subrange(n1, n1 + n2) =~= s.take(n1 + n2));
}

proof fn lemma_marked_lossless(s: Seq<char>, m: Seq<char>, body: int)
    requires
        m.is_prefix_of(s) ==> 0 <= body <= s.len() - m.len(),
    ensures
        m.is_prefix_of(s) && body > 0 ==> spelling(seq![m, s.subrange(m.len() as int, m.len() + body)])
            == s.take(m.len() + body),
{
    if m.is_prefix_of(s) && body > 0 {
        lemma_flatten_two(m, s.subrange(m.len() as int, m.len() + body));
        assert(m + s.subrange(m.len() as int, m.len() + body) =~= s.take(m.len() + body));
    }
}

/// Round trip: every identifier that a lexical production accepts is spelled
/// by its fragments, in order, exactly as the consumed characters.
pub proof fn identifier_fragments_round_trip(s: Seq<char>)
    ensures
        lossless(s, identifier_spec(s)),
        lossless(s, simple_identifier_spec(s)),
        lossless(s, escaped_identifier_spec(s)),
        lossless(s, system_tf_identifier_spec(s)),
        lossless(s, c_identifier_spec(s)),
{
    reveal_strlit("\\");
    reveal_strlit("$");
    lemma_two_runs_lossless(s, AZ_@, AZ09_DOLLAR@);
    lemma_two_runs_lossless(s, AZ_@, AZ09_@);
    lemma_span_bound(s.skip(1), WHITESPACE@);
    lemma_span_bound(s.skip(1), AZ09_DOLLAR@);
    lemma_marked_lossless(s, "\\"@, span_not(s.skip(1), WHITESPACE@) as int);
    lemma_marked_lossless(s, "$"@, span(s.skip(1), AZ09_DOLLAR@) as int);
}

proof fn lemma_span_all(t: Seq<char>, set: Seq<char>)
    requires
        forall|i: int| 0 <= i < t.len() ==> set.contains(#[trigger] t[i]),
    ensures
        span(t, set) == t.len(),
    decreases t.len(),
{
    if t.len() > 0 {
        assert(set.contains(t[0]));
        assert forall|i: int| 0 <= i < t.drop_first().len() implies set.contains(
            #[trigger] t.drop_first()[i],
        ) by {
            assert(t.drop_first()[i] == t[i + 1]);
        }
        lemma_span_all(t.drop_first(), set);
    }
}

/// A word of the form `[A-Za-z_][A-Za-z0-9_]*` is consumed whole by the
/// general identifier parser, in at most two fragments: the leading run of
/// letters and underscores, then the rest.
pub proof fn plain_word_consumed_whole(s: Seq<char>)
    requires
        s.len() > 0,
        AZ_@.contains(s[0]),
        forall|i: int| 1 <= i < s.len() ==> AZ09_@.contains(#[trigger] s[i]),
    ensures
        identifier_spec(s) matches Ok((n, f)) && n == s.len() && 1 <= f.len() <= 2 && f[0]
            == s.take(span(s, AZ_@) as int) && spelling(f) == s,
{
    reveal_strlit("\\");
    reveal_strlit("abcdefghijklmnopqrstuvwxyzABCDEFGHIJKLMNOPQRSTUVWXYZ_");
    reveal_strlit("abcdefghijklmnopqrstuvwxyzABCDEFGHIJKLMNOPQRSTUVWXYZ0123456789_");
    reveal_strlit("abcdefghijklmnopqrstuvwxyzABCDEFGHIJKLMNOPQRSTUVWXYZ0123456789_$");
    assert(AZ09_@ =~= AZ09_DOLLAR@.take(63));
    assert(s[0] != '\\');
    if "\\"@.is_prefix_of(s) {
        assert(s.subrange(0, 1)[0] == "\\"@[0]);
    }
    let n1 = span(s, AZ_@) as int;
    lemma_span_bound(s, AZ_@);
    let t = s.skip(n1);
    assert forall|i: int| 0 <= i < t.len() implies AZ09_DOLLAR@.contains(#[trigger] t[i]) by {
        assert(t[i] == s[i + n1]);
        assert(AZ09_@.contains(s[i + n1]));
        let j = choose|j: int| 0 <= j < AZ09_@.len() && AZ09_@[j] == s[i + n1];
        assert(AZ09_DOLLAR@[j] == AZ09_@[j]);
    }
    lemma_span_all(t, AZ09_DOLLAR@);
    identifier_fragments_round_trip(s);
    assert(s.take(s.len() as int) =~= s);
}

/// Where no root anchor and no dotted segment starts the input, the
/// hierarchical production yields the very shape of a bare identifier read
/// after the leading trivia: nothing marks that the path was empty.
pub proof fn empty_path_has_bare_shape(s: Seq<char>)
    requires
        root_anchor(s) is None,
        hierarchy_spec(s) is Err,
    ensures
        hierarchical_identifier_spec(s) == match identifier_spec(s.skip(ws(s))) {
            Ok((n, id)) => Ok((n + ws(s), bare_hierarchical(id))),
            Err((n, k)) => Err::<(int, HierarchicalIdentifierView), (int, ParseErrorKind)>(
                (n + ws(s), k),
            ),
        },
{
    assert(s.skip(0) =~= s);
    assert(hierarchies_spec(s).1 =~= Seq::empty());
}

/// Determinism: two results of a production on the same input are
/// indistinguishable, since each production's result is fixed by its model on
/// that input alone.
pub proof fn production_is_deterministic<'a, 'b, T: View>(
    s: Seq<char>,
    o: Outcome<T::V>,
    r1: PResult<'a, T>,
    r2: PResult<'b, T>,
)
    requires
        agrees(s, r1, o),
        agrees(s, r2, o),
    ensures
        observed(r1) == observed(r2),
{
    match (r1, r2) {
        (Ok((a, _)), Ok((b, _))) => {
            assert(a@ =~= b@);
        },
        (Err(a), Err(b)) => {
            assert(a.at@ =~= b.at@);
        },
        _ => {},
    }
}

} // verus!
