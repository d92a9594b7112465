//! Scope qualifiers: local, package, class, implicit class handle, and
//! generate-block scopes.
use crate::hierarchy::{bracketed, bracketed_spec, lemma_bracketed_bound};
use crate::lexical::{identifier, identifier_spec, lemma_identifier_outcome, one_fragment};
use crate::outcome::{agrees, lemma_agrees_shifted, shifted, Outcome, PResult, ParseError, ParseErrorKind};
use crate::syntax::{
    generate_blocks_view, GenerateBlockScope, GenerateBlockScopeView, ImplicitClassHandle,
    Identifier, Scope, ScopeView,
};
use crate::text::{
    lemma_span_bound, lemma_ws_bound, skip_trivia, spaced_tag, spaced_token, span_not,
    take_not_in, take_tag, ws,
};
use vstd::prelude::*;

verus! {

/// The parentheses that close a class's parameter list.
pub const PARENS: &'static str = "()";

/// Whatever `o` consumed, then optional trivia and the token `t`.
pub open spec fn followed_by<V>(s: Seq<char>, o: Outcome<V>, t: Seq<char>) -> Option<(int, V)> {
    match o {
        Ok((n, v)) => match spaced_token(s.skip(n), t) {
            Ok(d) => Some((n + d, v)),
            Err(_) => None,
        },
        Err(_) => None,
    }
}

/// Optional trivia and the token `t`, as a step that can fail.
pub open spec fn expect_spec(s: Seq<char>, t: Seq<char>) -> Result<int, (int, ParseErrorKind)> {
    match spaced_token(s, t) {
        Ok(n) => Ok(n),
        Err(a) => Err((a, ParseErrorKind::UnexpectedCharacter)),
    }
}

/// The literal `t` at the very start of `s`, as a node `v`.
pub open spec fn literal_spec<V>(s: Seq<char>, t: Seq<char>, v: V) -> Outcome<V> {
    if t.is_prefix_of(s) {
        Ok((t.len() as int, v))
    } else {
        Err((0, ParseErrorKind::UnexpectedCharacter))
    }
}

/// A package name or `$unit`, either followed by `::`.
pub open spec fn package_scope_spec(s: Seq<char>) -> Outcome<ScopeView> {
    match followed_by(s, identifier_spec(s), "::"@) {
        Some((n, id)) => Ok((n, ScopeView::Package(id))),
        None => match followed_by(s, literal_spec(s, "$unit"@, seq!["$unit"@]), "::"@) {
            Some((n, id)) => Ok((n, ScopeView::Package(id))),
            None => Err((0, ParseErrorKind::NoAlternativeMatched)),
        },
    }
}

/// `local` followed by `::`.
pub open spec fn local_scope_spec(s: Seq<char>) -> Outcome<ScopeView> {
    match followed_by(s, literal_spec(s, "local"@, ScopeView::Local), "::"@) {
        Some(x) => Ok(x),
        None => Err((0, ParseErrorKind::UnexpectedCharacter)),
    }
}

/// `this.super`, else `this`, else `super`.
pub open spec fn implicit_class_handle_spec(s: Seq<char>) -> Outcome<ImplicitClassHandle> {
    let a = "this"@.len() as int;
    let dot = spaced_token(s.skip(a), "."@);
    let sup = spaced_token(s.skip(a + dot->Ok_0), "super"@);
    if "this"@.is_prefix_of(s) && dot is Ok && sup is Ok {
        Ok((a + dot->Ok_0 + sup->Ok_0, ImplicitClassHandle::ThisSuper))
    } else if "this"@.is_prefix_of(s) {
        Ok((a, ImplicitClassHandle::This))
    } else if "super"@.is_prefix_of(s) {
        Ok(("super"@.len() as int, ImplicitClassHandle::Super))
    } else {
        Err((0, ParseErrorKind::NoAlternativeMatched))
    }
}

/// Optional trivia and the text of a parameter list, if there is any.
pub open spec fn parameter_text_len(s: Seq<char>) -> int {
    let m = span_not(s.skip(ws(s)), PARENS@) as int;
    if m > 0 {
        ws(s) + m
    } else {
        0
    }
}

/// A parameterized class type, `C #( ... )`, followed by `::`.
pub open spec fn class_scope_spec(s: Seq<char>) -> Outcome<ScopeView> {
    match identifier_spec(s) {
        Err(e) => Err(e),
        Ok((n, _)) => match shifted_step(s, n, "#"@) {
            Err(e) => Err(e),
            Ok(p) => match shifted_step(s, p, "("@) {
                Err(e) => Err(e),
                Ok(q) => match shifted_step(s, q + parameter_text_len(s.skip(q)), ")"@) {
                    Err(e) => Err(e),
                    Ok(r) => match shifted_step(s, r, "::"@) {
                        Err(e) => Err(e),
                        Ok(e) => Ok((e, ScopeView::Class)),
                    },
                },
            },
        },
    }
}

/// The token `t` expected at offset `p` of `s`, with offsets counted in `s`.
pub open spec fn shifted_step(s: Seq<char>, p: int, t: Seq<char>) -> Result<int, (int, ParseErrorKind)> {
    match expect_spec(s.skip(p), t) {
        Ok(n) => Ok(p + n),
        Err((a, k)) => Err((p + a, k)),
    }
}

/// One generate-block qualifier: a name, an optional bracketed index, a dot.
pub open spec fn generate_block_spec(s: Seq<char>) -> Outcome<GenerateBlockScopeView> {
    match shifted(identifier_spec(s.skip(ws(s))), ws(s)) {
        Err(e) => Err(e),
        Ok((n1, id)) => {
            let (n2, e) = match bracketed_spec(s.skip(n1)) {
                Ok((m, e)) => (n1 + m, Some(e)),
                Err(_) => (n1, None),
            };
            match shifted_step(s, n2, "."@) {
                Err(x) => Err(x),
                Ok(d) => Ok((d, GenerateBlockScopeView { identifier: id, constant_expression: e })),
            }
        },
    }
}

/// As many generate-block qualifiers as follow one another.
pub open spec fn generate_blocks_spec(s: Seq<char>) -> (int, Seq<GenerateBlockScopeView>)
    decreases s.len(),
{
    match generate_block_spec(s) {
        Ok((n, g)) => if 0 < n <= s.len() {
            let rest = generate_blocks_spec(s.skip(n));
            (n + rest.0, seq![g] + rest.1)
        } else {
            (0, Seq::empty())
        },
        Err(_) => (0, Seq::empty()),
    }
}

/// Zero or more generate-block qualifiers; never fails.
pub open spec fn generate_block_scope_spec(s: Seq<char>) -> Outcome<ScopeView> {
    Ok((generate_blocks_spec(s).0, ScopeView::GenerateBlock(generate_blocks_spec(s).1)))
}

fn followed_by_tag<'a, T: View>(
    Ghost(s): Ghost<Seq<char>>,
    Ghost(o): Ghost<Outcome<T::V>>,
    r: PResult<'a, T>,
    t: &str,
) -> (res: Option<(&'a str, T)>)
    requires
        agrees(s, r, o),
    ensures
        match (res, followed_by(s, o, t@)) {
            (Some((rest, v)), Some((n, w))) => 0 <= n <= s.len() && rest@ =~= s.skip(n) && v@ == w,
            (None, None) => true,
            _ => false,
        },
{
    match r {
        Err(_) => None,
        Ok((rest, v)) => match spaced_tag(rest, t) {
            Ok(rest2) => {
                proof {
                    let n = o->Ok_0.0;
                    assert(rest2@ =~= s.skip(n + spaced_token(s.skip(n), t@)->Ok_0));
                }
                Some((rest2, v))
            },
            Err(_) => None,
        },
    }
}

fn expect<'a>(s: &'a str, t: &str) -> (r: Result<&'a str, ParseError<'a>>)
    ensures
        match (r, expect_spec(s@, t@)) {
            (Ok(rest), Ok(n)) => 0 <= n <= s@.len() && rest@ =~= s@.skip(n),
            (Err(e), Err((n, k))) => 0 <= n <= s@.len() && e.at@ =~= s@.skip(n) && e.kind == k,
            _ => false,
        },
{
    match spaced_tag(s, t) {
        Ok(rest) => Ok(rest),
        Err(at) => Err(ParseError { kind: ParseErrorKind::UnexpectedCharacter, at }),
    }
}

fn literal_identifier<'a>(s: &'a str, t: &str) -> (r: PResult<'a, Identifier<'a>>)
    ensures
        agrees(s@, r, literal_spec(s@, t@, seq![t@])),
{
    match take_tag(s, t) {
        Some((rest, x)) => Ok((rest, one_fragment(x))),
        None => Err(ParseError { kind: ParseErrorKind::UnexpectedCharacter, at: s }),
    }
}

/// A package scope: `name ::` or `$unit ::`.
pub fn package_scope<'a>(s: &'a str) -> (r: PResult<'a, Scope<'a>>)
    ensures
        agrees(s@, r, package_scope_spec(s@)),
{
    let named = identifier(s);
    match followed_by_tag(Ghost(s@), Ghost(identifier_spec(s@)), named, "::") {
        Some((rest, id)) => Ok((rest, Scope::PackageScope(id))),
        None => {
            let unit = literal_identifier(s, "$unit");
            match followed_by_tag(
                Ghost(s@),
                Ghost(literal_spec(s@, "$unit"@, seq!["$unit"@])),
                unit,
                "::",
            ) {
                Some((rest, id)) => Ok((rest, Scope::PackageScope(id))),
                None => Err(ParseError { kind: ParseErrorKind::NoAlternativeMatched, at: s }),
            }
        },
    }
}

/// The local qualifier: `local ::`.
pub fn local_scope<'a>(s: &'a str) -> (r: PResult<'a, Scope<'a>>)
    ensures
        agrees(s@, r, local_scope_spec(s@)),
{
    let kw: PResult<'a, Scope<'a>> = match take_tag(s, "local") {
        Some((rest, _)) => Ok((rest, Scope::LocalScope)),
        None => Err(ParseError { kind: ParseErrorKind::UnexpectedCharacter, at: s }),
    };
    match followed_by_tag(Ghost(s@), Ghost(literal_spec(s@, "local"@, ScopeView::Local)), kw, "::") {
        Some(x) => Ok(x),
        None => Err(ParseError { kind: ParseErrorKind::UnexpectedCharacter, at: s }),
    }
}

/// An implicit class handle: `this.super`, else `this`, else `super`.
pub fn implicit_class_handle<'a>(s: &'a str) -> (r: PResult<'a, ImplicitClassHandle>)
    ensures
        agrees(s@, r, implicit_class_handle_spec(s@)),
{
    proof {
        reveal_strlit("this");
        reveal_strlit("super");
    }
    if let Some((after, _)) = take_tag(s, "this") {
        if let Ok(after_dot) = spaced_tag(after, ".") {
            let ghost d = spaced_token(s@.skip(4), "."@)->Ok_0;
            assert(after_dot@ =~= s@.skip(4 + d));
            if let Ok(rest) = spaced_tag(after_dot, "super") {
                assert(rest@ =~= s@.skip(4 + d + spaced_token(s@.skip(4 + d), "super"@)->Ok_0));
                return Ok((rest, ImplicitClassHandle::ThisSuper));
            }
        }
        return Ok((after, ImplicitClassHandle::This));
    }
    match take_tag(s, "super") {
        Some((rest, _)) => Ok((rest, ImplicitClassHandle::Super)),
        None => Err(ParseError { kind: ParseErrorKind::NoAlternativeMatched, at: s }),
    }
}

fn step<'a>(Ghost(s): Ghost<Seq<char>>, Ghost(p): Ghost<int>, cur: &'a str, t: &str) -> (r: Result<&'a str, ParseError<'a>>)
    requires
        0 <= p <= s.len(),
        cur@ =~= s.skip(p),
    ensures
        match (r, shifted_step(s, p, t@)) {
            (Ok(rest), Ok(n)) => 0 <= n <= s.len() && rest@ =~= s.skip(n),
            (Err(e), Err((n, k))) => 0 <= n <= s.len() && e.at@ =~= s.skip(n) && e.kind == k,
            _ => false,
        },
{
    let r = expect(cur, t);
    proof {
        match expect_spec(cur@, t@) {
            Ok(n) => {
                assert(s.skip(p).skip(n) =~= s.skip(p + n));
            },
            Err((n, _)) => {
                assert(s.skip(p).skip(n) =~= s.skip(p + n));
            },
        }
    }
    r
}

fn parameter_text<'a>(s: &'a str) -> (r: &'a str)
    ensures
        0 <= parameter_text_len(s@) <= s@.len(),
        r@ =~= s@.skip(parameter_text_len(s@)),
{
    proof {
        lemma_ws_bound(s@);
    }
    let s1 = skip_trivia(s);
    proof {
        lemma_span_bound(s1@, PARENS@);
    }
    match take_not_in(s1, PARENS) {
        Some((rest, _)) => {
            assert(rest@ =~= s@.skip(parameter_text_len(s@)));
            rest
        },
        None => s,
    }
}

/// A parameterized class type followed by `::`, as in `C #(8) ::`.
pub fn class_scope<'a>(s: &'a str) -> (r: PResult<'a, Scope<'a>>)
    ensures
        agrees(s@, r, class_scope_spec(s@)),
{
    let (s1, _) = match identifier(s) {
        Ok(v) => v,
        Err(e) => {
            return Err(e);
        },
    };
    let ghost n = identifier_spec(s@)->Ok_0.0;
    let s2 = match step(Ghost(s@), Ghost(n), s1, "#") {
        Ok(x) => x,
        Err(e) => {
            return Err(e);
        },
    };
    let ghost p = shifted_step(s@, n, "#"@)->Ok_0;
    let s3 = match step(Ghost(s@), Ghost(p), s2, "(") {
        Ok(x) => x,
        Err(e) => {
            return Err(e);
        },
    };
    let ghost q = shifted_step(s@, p, "("@)->Ok_0;
    let s4 = parameter_text(s3);
    let ghost q2 = q + parameter_text_len(s@.skip(q));
    assert(s4@ =~= s@.skip(q2));
    let s5 = match step(Ghost(s@), Ghost(q2), s4, ")") {
        Ok(x) => x,
        Err(e) => {
            return Err(e);
        },
    };
    let ghost r2 = shifted_step(s@, q2, ")"@)->Ok_0;
    match step(Ghost(s@), Ghost(r2), s5, "::") {
        Ok(rest) => Ok((rest, Scope::ClassScope)),
        Err(e) => Err(e),
    }
}

fn generate_block<'a>(s: &'a str) -> (r: PResult<'a, GenerateBlockScope<'a>>)
    ensures
        agrees(s@, r, generate_block_spec(s@)),
{
    proof {
        lemma_ws_bound(s@);
    }
    let s1 = skip_trivia(s);
    let ghost k = ws(s@);
    let res = identifier(s1);
    proof {
        lemma_agrees_shifted(s@, k, res, identifier_spec(s1@));
    }
    let (s2, id) = match res {
        Ok(v) => v,
        Err(e) => {
            return Err(e);
        },
    };
    let ghost n1 = shifted(identifier_spec(s1@), k)->Ok_0.0;
    let ir = bracketed(s2);
    proof {
        match bracketed_spec(s2@) {
            Ok((m, _)) => {
                assert(s@.skip(n1).skip(m) =~= s@.skip(n1 + m));
            },
            Err(_) => {},
        }
    }
    let (s3, e) = match ir {
        Ok((rest, e)) => (rest, Some(e)),
        Err(_) => (s2, None),
    };
    let ghost n2 = match bracketed_spec(s@.skip(n1)) {
        Ok((m, _)) => n1 + m,
        Err(_) => n1,
    };
    match step(Ghost(s@), Ghost(n2), s3, ".") {
        Ok(rest) => Ok((rest, GenerateBlockScope { identifier: id, constant_expression: e })),
        Err(x) => Err(x),
    }
}

pub proof fn lemma_generate_block_progress(s: Seq<char>)
    requires
        generate_block_spec(s) is Ok,
    ensures
        0 < generate_block_spec(s)->Ok_0.0 <= s.len(),
{
    lemma_ws_bound(s);
    lemma_identifier_outcome(s.skip(ws(s)));
    let n1 = shifted(identifier_spec(s.skip(ws(s))), ws(s))->Ok_0.0;
    let n2 = match bracketed_spec(s.skip(n1)) {
        Ok((m, _)) => n1 + m,
        Err(_) => n1,
    };
    if let Ok((m, _)) = bracketed_spec(s.skip(n1)) {
        lemma_bracketed_bound(s.skip(n1));
    }
    lemma_ws_bound(s.skip(n2));
}

pub proof fn lemma_generate_blocks_bound(s: Seq<char>)
    ensures
        0 <= generate_blocks_spec(s).0 <= s.len(),
    decreases s.len(),
{
    if let Ok((n, _)) = generate_block_spec(s) {
        if 0 < n <= s.len() {
            lemma_generate_blocks_bound(s.skip(n));
        }
    }
}

/// Zero or more `name [index] .` qualifiers; an empty scope where there are none.
pub fn generate_block_scope<'a>(s: &'a str) -> (r: PResult<'a, Scope<'a>>)
    ensures
        agrees(s@, r, generate_block_scope_spec(s@)),
{
    let mut cur = s;
    let mut acc: Vec<GenerateBlockScope<'a>> = Vec::new();
    let ghost mut done: int = 0;
    assert(generate_blocks_view(acc@) =~= Seq::empty());
    proof {
        lemma_generate_blocks_bound(s@);
    }
    loop
        invariant
            0 <= done <= s@.len(),
            cur@ =~= s@.skip(done),
            generate_blocks_spec(s@).0 == done + generate_blocks_spec(cur@).0,
            generate_blocks_spec(s@).1 == generate_blocks_view(acc@) + generate_blocks_spec(cur@).1,
            0 <= generate_blocks_spec(cur@).0 <= cur@.len(),
        decreases cur@.len(),
    {
        match generate_block(cur) {
            Err(_) => {
                assert(generate_blocks_view(acc@) + generate_blocks_spec(cur@).1 =~= generate_blocks_view(acc@));
                return Ok((cur, Scope::GenerateBlockScope(acc)));
            },
            Ok((rest, g)) => {
                let ghost n = generate_block_spec(cur@)->Ok_0.0;
                proof {
                    lemma_generate_block_progress(cur@);
                }
                let ghost old_acc = acc@;
                let ghost gv = g@;
                acc.push(g);
                assert(generate_blocks_view(acc@) =~= generate_blocks_view(old_acc).push(gv));
                assert(rest@ =~= s@.skip(done + n));
                proof {
                    lemma_generate_blocks_bound(rest@);
                    done = done + n;
                }
                assert(generate_blocks_view(acc@) + generate_blocks_spec(rest@).1 =~= generate_blocks_view(
                    old_acc,
                ) + (seq![gv] + generate_blocks_spec(rest@).1));
                cur = rest;
            },
        }
    }
}

} // verus!
