//! Syntax nodes, their mathematical views, and the outcome of a production.
use vstd::prelude::*;

verus! {

/// The text fragments of one identifier token, in source order.
pub type IdentifierView = Seq<Seq<char>>;

#[derive(Debug)]
pub struct Identifier<'a> {
    pub raw: Vec<&'a str>,
}

impl<'a> View for Identifier<'a> {
    type V = IdentifierView;

    open spec fn view(&self) -> IdentifierView {
        self.raw@.map_values(|f: &'a str| f@)
    }
}

/// An index expression, kept as the text it was written with.
#[derive(Debug)]
pub struct ConstantExpression<'a> {
    pub text: &'a str,
}

impl<'a> View for ConstantExpression<'a> {
    type V = Seq<char>;

    open spec fn view(&self) -> Seq<char> {
        self.text@
    }
}

pub open spec fn expressions_view<'a>(v: Seq<ConstantExpression<'a>>) -> Seq<Seq<char>> {
    v.map_values(|e: ConstantExpression<'a>| e@)
}

pub struct HierarchyView {
    pub identifier: IdentifierView,
    pub constant_bit_select: Option<Seq<Seq<char>>>,
}

/// One dotted path segment: its name and its bracketed indices.
#[derive(Debug)]
pub struct Hierarchy<'a> {
    pub identifier: Identifier<'a>,
    pub constant_bit_select: Option<Vec<ConstantExpression<'a>>>,
}

impl<'a> View for Hierarchy<'a> {
    type V = HierarchyView;

    open spec fn view(&self) -> HierarchyView {
        HierarchyView {
            identifier: self.identifier@,
            constant_bit_select: match self.constant_bit_select {
                Some(v) => Some(expressions_view(v@)),
                None => None,
            },
        }
    }
}

pub struct HierarchicalIdentifierView {
    pub hierarchy: Seq<HierarchyView>,
    pub identifier: IdentifierView,
}

/// Path segments, each followed by a dot in the source, and the leaf name.
#[derive(Debug)]
pub struct HierarchicalIdentifier<'a> {
    pub hierarchy: Vec<Hierarchy<'a>>,
    pub identifier: Identifier<'a>,
}

impl<'a> View for HierarchicalIdentifier<'a> {
    type V = HierarchicalIdentifierView;

    open spec fn view(&self) -> HierarchicalIdentifierView {
        HierarchicalIdentifierView {
            hierarchy: self.hierarchy@.map_values(|h: Hierarchy<'a>| h@),
            identifier: self.identifier@,
        }
    }
}

/// The shape of a bare identifier read as a hierarchical one: no path segments.
pub open spec fn bare_hierarchical(id: IdentifierView) -> HierarchicalIdentifierView {
    HierarchicalIdentifierView { hierarchy: Seq::empty(), identifier: id }
}

/// `this`, `super`, or `this.super`.
#[derive(Debug, Clone, Copy, PartialEq, Eq, Structural)]
pub enum ImplicitClassHandle {
    This,
    Super,
    ThisSuper,
}

impl View for ImplicitClassHandle {
    type V = ImplicitClassHandle;

    open spec fn view(&self) -> ImplicitClassHandle {
        *self
    }
}

/// One generate-block qualifier: a block name and an optional index.
#[derive(Debug)]
pub struct GenerateBlockScope<'a> {
    pub identifier: Identifier<'a>,
    pub constant_expression: Option<ConstantExpression<'a>>,
}

pub struct GenerateBlockScopeView {
    pub identifier: IdentifierView,
    pub constant_expression: Option<Seq<char>>,
}

impl<'a> View for GenerateBlockScope<'a> {
    type V = GenerateBlockScopeView;

    open spec fn view(&self) -> GenerateBlockScopeView {
        GenerateBlockScopeView {
            identifier: self.identifier@,
            constant_expression: match self.constant_expression {
                Some(e) => Some(e@),
                None => None,
            },
        }
    }
}

pub open spec fn generate_blocks_view<'a>(v: Seq<GenerateBlockScope<'a>>) -> Seq<GenerateBlockScopeView> {
    v.map_values(|g: GenerateBlockScope<'a>| g@)
}

/// The qualifier in front of a scoped name.
#[derive(Debug)]
pub enum Scope<'a> {
    LocalScope,
    PackageScope(Identifier<'a>),
    ClassScope,
    ImplicitClassHandle(ImplicitClassHandle),
    GenerateBlockScope(Vec<GenerateBlockScope<'a>>),
}

pub enum ScopeView {
    Local,
    Package(IdentifierView),
    Class,
    Handle(ImplicitClassHandle),
    GenerateBlock(Seq<GenerateBlockScopeView>),
}

impl<'a> View for Scope<'a> {
    type V = ScopeView;

    open spec fn view(&self) -> ScopeView {
        match self {
            Scope::LocalScope => ScopeView::Local,
            Scope::PackageScope(id) => ScopeView::Package(id@),
            Scope::ClassScope => ScopeView::Class,
            Scope::ImplicitClassHandle(h) => ScopeView::Handle(*h),
            Scope::GenerateBlockScope(v) => ScopeView::GenerateBlock(generate_blocks_view(v@)),
        }
    }
}

pub open spec fn scope_option_view<'a>(sc: Option<Scope<'a>>) -> Option<ScopeView> {
    match sc {
        Some(x) => Some(x@),
        None => None,
    }
}

pub struct ScopedIdentifierView {
    pub scope: Option<ScopeView>,
    pub identifier: HierarchicalIdentifierView,
}

/// An optional scope and the (possibly hierarchical) name it qualifies.
#[derive(Debug)]
pub struct ScopedIdentifier<'a> {
    pub scope: Option<Scope<'a>>,
    pub identifier: HierarchicalIdentifier<'a>,
}

impl<'a> View for ScopedIdentifier<'a> {
    type V = ScopedIdentifierView;

    open spec fn view(&self) -> ScopedIdentifierView {
        ScopedIdentifierView { scope: scope_option_view(self.scope), identifier: self.identifier@ }
    }
}

impl<'a> From<Identifier<'a>> for HierarchicalIdentifier<'a> {
    fn from(x: Identifier<'a>) -> (r: Self)
        ensures
            r@ == bare_hierarchical(x@),
    {
        let r = HierarchicalIdentifier { hierarchy: Vec::new(), identifier: x };
        assert(r@.hierarchy =~= Seq::empty());
        r
    }
}

impl<'a> vstd::std_specs::convert::FromSpecImpl<Identifier<'a>> for HierarchicalIdentifier<'a> {
    open spec fn obeys_from_spec() -> bool {
        false
    }

    open spec fn from_spec(x: Identifier<'a>) -> Self {
        HierarchicalIdentifier { hierarchy: arbitrary(), identifier: x }
    }
}

} // verus!
