//! Scoped names: an optional scope from a category's legal set, then the name.
use crate::hierarchy::{hierarchical_identifier, hierarchical_identifier_spec};
use crate::lexical::{identifier, identifier_spec};
use crate::outcome::{agrees, lemma_agrees_shifted, shifted, Outcome, PResult, ParseError, ParseErrorKind};
use crate::scope::{
    class_scope, class_scope_spec, followed_by, generate_block_scope, generate_block_scope_spec,
    implicit_class_handle, implicit_class_handle_spec, local_scope, local_scope_spec,
    package_scope, package_scope_spec,
};
use crate::syntax::{
    bare_hierarchical, HierarchicalIdentifier, HierarchicalIdentifierView, Scope,
    ScopeView, ScopedIdentifier, ScopedIdentifierView,
};
use crate::text::{lemma_ws_bound, skip_trivia, spaced_tag, spaced_token, ws};
use vstd::prelude::*;

verus! {

/// How the name after the scope may be written.
#[derive(Debug, Clone, Copy, PartialEq, Eq, Structural)]
pub enum NameForm {
    /// A single identifier.
    Bare,
    /// A hierarchical path.
    Hierarchical,
    /// A single identifier if one matches, else a hierarchical path.
    BareThenHierarchical,
}

/// Optional trivia, then the production `o` describes on what follows it.
pub open spec fn after_space<V>(t: Seq<char>, o: Outcome<V>) -> Outcome<V> {
    shifted(o, ws(t))
}

pub open spec fn bare_name_spec(t: Seq<char>) -> Outcome<HierarchicalIdentifierView> {
    match after_space(t, identifier_spec(t.skip(ws(t)))) {
        Ok((n, id)) => Ok((n, bare_hierarchical(id))),
        Err(e) => Err(e),
    }
}

pub open spec fn hierarchical_name_spec(t: Seq<char>) -> Outcome<HierarchicalIdentifierView> {
    after_space(t, hierarchical_identifier_spec(t.skip(ws(t))))
}

/// The name that follows a scope, in the given form.
pub open spec fn name_spec(t: Seq<char>, form: NameForm) -> Outcome<HierarchicalIdentifierView> {
    match form {
        NameForm::Bare => bare_name_spec(t),
        NameForm::Hierarchical => hierarchical_name_spec(t),
        NameForm::BareThenHierarchical => match bare_name_spec(t) {
            Ok(v) => Ok(v),
            Err(_) => match hierarchical_name_spec(t) {
                Ok(v) => Ok(v),
                Err(_) => Err((0, ParseErrorKind::NoAlternativeMatched)),
            },
        },
    }
}

/// The scope `sc` (absent where it failed), then the name in the given form.
pub open spec fn scoped_spec(s: Seq<char>, sc: Outcome<ScopeView>, form: NameForm) -> Outcome<
    ScopedIdentifierView,
> {
    let (p, v) = match sc {
        Ok((p, v)) => (p, Some(v)),
        Err(_) => (0, None),
    };
    match shifted(name_spec(s.skip(p), form), p) {
        Ok((n, h)) => Ok((n, ScopedIdentifierView { scope: v, identifier: h })),
        Err(e) => Err(e),
    }
}

/// The scopes legal before an array name: an implicit class handle and a dot,
/// a class scope, or a package scope.
pub open spec fn array_scope_spec(s: Seq<char>) -> Outcome<ScopeView> {
    match followed_by(s, implicit_class_handle_spec(s), "."@) {
        Some((n, h)) => Ok((n, ScopeView::Handle(h))),
        None => match class_scope_spec(s) {
            Ok(v) => Ok(v),
            Err(_) => match package_scope_spec(s) {
                Ok(v) => Ok(v),
                Err(_) => Err((0, ParseErrorKind::NoAlternativeMatched)),
            },
        },
    }
}

/// The scopes legal before a parameter name: package, class, or generate-block
/// scope (the last never fails).
pub open spec fn parameter_scope_spec(s: Seq<char>) -> Outcome<ScopeView> {
    match package_scope_spec(s) {
        Ok(v) => Ok(v),
        Err(_) => match class_scope_spec(s) {
            Ok(v) => Ok(v),
            Err(_) => generate_block_scope_spec(s),
        },
    }
}

/// The scopes legal before a type name: local, package, or class scope.
pub open spec fn type_scope_spec(s: Seq<char>) -> Outcome<ScopeView> {
    match local_scope_spec(s) {
        Ok(v) => Ok(v),
        Err(_) => match package_scope_spec(s) {
            Ok(v) => Ok(v),
            Err(_) => match class_scope_spec(s) {
                Ok(v) => Ok(v),
                Err(_) => Err((0, ParseErrorKind::NoAlternativeMatched)),
            },
        },
    }
}

fn bare_name<'a>(t: &'a str) -> (r: PResult<'a, HierarchicalIdentifier<'a>>)
    ensures
        agrees(t@, r, bare_name_spec(t@)),
{
    proof {
        lemma_ws_bound(t@);
    }
    let t1 = skip_trivia(t);
    let r = identifier(t1);
    proof {
        lemma_agrees_shifted(t@, ws(t@), r, identifier_spec(t1@));
    }
    match r {
        Ok((rest, id)) => Ok((rest, HierarchicalIdentifier::from(id))),
        Err(e) => Err(e),
    }
}

fn hierarchical_name<'a>(t: &'a str) -> (r: PResult<'a, HierarchicalIdentifier<'a>>)
    ensures
        agrees(t@, r, hierarchical_name_spec(t@)),
{
    proof {
        lemma_ws_bound(t@);
    }
    let t1 = skip_trivia(t);
    let r = hierarchical_identifier(t1);
    proof {
        lemma_agrees_shifted(t@, ws(t@), r, hierarchical_identifier_spec(t1@));
    }
    r
}

fn name<'a>(t: &'a str, form: NameForm) -> (r: PResult<'a, HierarchicalIdentifier<'a>>)
    ensures
        agrees(t@, r, name_spec(t@, form)),
{
    match form {
        NameForm::Bare => bare_name(t),
        NameForm::Hierarchical => hierarchical_name(t),
        NameForm::BareThenHierarchical => match bare_name(t) {
            Ok(v) => Ok(v),
            Err(_) => match hierarchical_name(t) {
                Ok(v) => Ok(v),
                Err(_) => Err(ParseError { kind: ParseErrorKind::NoAlternativeMatched, at: t }),
            },
        },
    }
}

/// Attaches the scope that `sc` parsed (none, where it failed) to the name that
/// follows it.
fn scoped<'a>(
    s: &'a str,
    sc: PResult<'a, Scope<'a>>,
    Ghost(o): Ghost<Outcome<ScopeView>>,
    form: NameForm,
) -> (r: PResult<'a, ScopedIdentifier<'a>>)
    requires
        agrees(s@, sc, o),
    ensures
        agrees(s@, r, scoped_spec(s@, o, form)),
{
    let (t, scope) = match sc {
        Ok((rest, v)) => (rest, Some(v)),
        Err(_) => (s, None),
    };
    let ghost p = match o {
        Ok((p, _)) => p,
        Err(_) => 0,
    };
    assert(t@ =~= s@.skip(p));
    let r = name(t, form);
    proof {
        lemma_agrees_shifted(s@, p, r, name_spec(t@, form));
    }
    match r {
        Ok((rest, identifier)) => Ok((rest, ScopedIdentifier { scope, identifier })),
        Err(e) => Err(e),
    }
}

fn array_scope<'a>(s: &'a str) -> (r: PResult<'a, Scope<'a>>)
    ensures
        agrees(s@, r, array_scope_spec(s@)),
{
    let h = implicit_class_handle(s);
    if let Ok((rest, h)) = h {
        if let Ok(rest2) = spaced_tag(rest, ".") {
            proof {
                let n = implicit_class_handle_spec(s@)->Ok_0.0;
                assert(rest2@ =~= s@.skip(n + spaced_token(s@.skip(n), "."@)->Ok_0));
            }
            return Ok((rest2, Scope::ImplicitClassHandle(h)));
        }
    }
    if let Ok(v) = class_scope(s) {
        return Ok(v);
    }
    match package_scope(s) {
        Ok(v) => Ok(v),
        Err(_) => Err(ParseError { kind: ParseErrorKind::NoAlternativeMatched, at: s }),
    }
}

fn parameter_scope<'a>(s: &'a str) -> (r: PResult<'a, Scope<'a>>)
    ensures
        agrees(s@, r, parameter_scope_spec(s@)),
{
    if let Ok(v) = package_scope(s) {
        return Ok(v);
    }
    if let Ok(v) = class_scope(s) {
        return Ok(v);
    }
    generate_block_scope(s)
}

fn type_scope<'a>(s: &'a str) -> (r: PResult<'a, Scope<'a>>)
    ensures
        agrees(s@, r, type_scope_spec(s@)),
{
    if let Ok(v) = local_scope(s) {
        return Ok(v);
    }
    if let Ok(v) = package_scope(s) {
        return Ok(v);
    }
    match class_scope(s) {
        Ok(v) => Ok(v),
        Err(_) => Err(ParseError { kind: ParseErrorKind::NoAlternativeMatched, at: s }),
    }
}

/// An optional package scope, then an identifier.
pub fn ps_identifier<'a>(s: &'a str) -> (r: PResult<'a, ScopedIdentifier<'a>>)
    ensures
        agrees(s@, r, scoped_spec(s@, package_scope_spec(s@), NameForm::Bare)),
{
    scoped(s, package_scope(s), Ghost(package_scope_spec(s@)), NameForm::Bare)
}

/// An optional package scope, then a class name.
pub fn ps_class_identifier<'a>(s: &'a str) -> (r: PResult<'a, ScopedIdentifier<'a>>)
    ensures
        agrees(s@, r, scoped_spec(s@, package_scope_spec(s@), NameForm::Bare)),
{
    scoped(s, package_scope(s), Ghost(package_scope_spec(s@)), NameForm::Bare)
}

/// An optional package scope, then a covergroup name.
pub fn ps_covergroup_identifier<'a>(s: &'a str) -> (r: PResult<'a, ScopedIdentifier<'a>>)
    ensures
        agrees(s@, r, scoped_spec(s@, package_scope_spec(s@), NameForm::Bare)),
{
    scoped(s, package_scope(s), Ghost(package_scope_spec(s@)), NameForm::Bare)
}

/// An optional package scope, then a checker name.
pub fn ps_checker_identifier<'a>(s: &'a str) -> (r: PResult<'a, ScopedIdentifier<'a>>)
    ensures
        agrees(s@, r, scoped_spec(s@, package_scope_spec(s@), NameForm::Bare)),
{
    scoped(s, package_scope(s), Ghost(package_scope_spec(s@)), NameForm::Bare)
}

/// An optional implicit class handle, class or package scope, then a
/// hierarchical array name.
pub fn ps_or_hierarchical_array_identifier<'a>(s: &'a str) -> (r: PResult<'a, ScopedIdentifier<'a>>)
    ensures
        agrees(s@, r, scoped_spec(s@, array_scope_spec(s@), NameForm::Hierarchical)),
{
    scoped(s, array_scope(s), Ghost(array_scope_spec(s@)), NameForm::Hierarchical)
}

/// An optional package scope, then a net name, else a hierarchical one.
pub fn ps_or_hierarchical_net_identifier<'a>(s: &'a str) -> (r: PResult<'a, ScopedIdentifier<'a>>)
    ensures
        agrees(s@, r, scoped_spec(s@, package_scope_spec(s@), NameForm::BareThenHierarchical)),
{
    scoped(s, package_scope(s), Ghost(package_scope_spec(s@)), NameForm::BareThenHierarchical)
}

/// An optional package scope, then a property name, else a hierarchical one.
pub fn ps_or_hierarchical_property_identifier<'a>(s: &'a str) -> (r: PResult<'a, ScopedIdentifier<'a>>)
    ensures
        agrees(s@, r, scoped_spec(s@, package_scope_spec(s@), NameForm::BareThenHierarchical)),
{
    scoped(s, package_scope(s), Ghost(package_scope_spec(s@)), NameForm::BareThenHierarchical)
}

/// An optional package scope, then a sequence name, else a hierarchical one.
pub fn ps_or_hierarchical_sequence_identifier<'a>(s: &'a str) -> (r: PResult<'a, ScopedIdentifier<'a>>)
    ensures
        agrees(s@, r, scoped_spec(s@, package_scope_spec(s@), NameForm::BareThenHierarchical)),
{
    scoped(s, package_scope(s), Ghost(package_scope_spec(s@)), NameForm::BareThenHierarchical)
}

/// An optional package scope, then a task or function name, else a
/// hierarchical one.
pub fn ps_or_hierarchical_tf_identifier<'a>(s: &'a str) -> (r: PResult<'a, ScopedIdentifier<'a>>)
    ensures
        agrees(s@, r, scoped_spec(s@, package_scope_spec(s@), NameForm::BareThenHierarchical)),
{
    scoped(s, package_scope(s), Ghost(package_scope_spec(s@)), NameForm::BareThenHierarchical)
}

/// A package, class or generate-block scope, then a parameter name.
pub fn ps_parameter_identifier<'a>(s: &'a str) -> (r: PResult<'a, ScopedIdentifier<'a>>)
    ensures
        agrees(s@, r, scoped_spec(s@, parameter_scope_spec(s@), NameForm::Bare)),
{
    scoped(s, parameter_scope(s), Ghost(parameter_scope_spec(s@)), NameForm::Bare)
}

/// An optional local, package or class scope, then a type name.
pub fn ps_type_identifier<'a>(s: &'a str) -> (r: PResult<'a, ScopedIdentifier<'a>>)
    ensures
        agrees(s@, r, scoped_spec(s@, type_scope_spec(s@), NameForm::Bare)),
{
    scoped(s, type_scope(s), Ghost(type_scope_spec(s@)), NameForm::Bare)
}

} // verus!
