//! The interface description: a trait declaration, as far as the layout
//! compiler reads it.
//!
//! Pieces of source that the compiler only carries from its input to its
//! output (types, patterns, attributes, bounds, bodies) are held as text.
//! Every type has a deep view, a plain mathematical value over `Seq<char>`,
//! and the contracts of the crate speak of those views.

use vstd::prelude::*;

verus! {

/// A calling convention written on a method or on a function pointer:
/// `extern` alone (`name` is `None`) or `extern "name"`.
#[derive(Debug, PartialEq, Eq)]
pub struct Abi {
    pub name: Option<String>,
}

pub struct AbiView {
    pub name: Option<Seq<char>>,
}

impl DeepView for Abi {
    type V = AbiView;

    open spec fn deep_view(&self) -> AbiView {
        AbiView { name: self.name.deep_view() }
    }
}

impl Clone for Abi {
    fn clone(&self) -> (r: Self)
        ensures
            r.deep_view() == self.deep_view(),
    {
        Abi { name: self.name.clone() }
    }
}

/// One generic parameter, with its bounds, as written between `<` and `>`.
#[derive(Debug, PartialEq, Eq)]
pub enum GenericParam {
    Lifetime(String),
    Type(String),
    Const(String),
}

pub enum GenericParamView {
    Lifetime(Seq<char>),
    Type(Seq<char>),
    Const(Seq<char>),
}

impl DeepView for GenericParam {
    type V = GenericParamView;

    open spec fn deep_view(&self) -> GenericParamView {
        match self {
            GenericParam::Lifetime(s) => GenericParamView::Lifetime(s.deep_view()),
            GenericParam::Type(s) => GenericParamView::Type(s.deep_view()),
            GenericParam::Const(s) => GenericParamView::Const(s.deep_view()),
        }
    }
}

impl Clone for GenericParam {
    fn clone(&self) -> (r: Self)
        ensures
            r.deep_view() == self.deep_view(),
    {
        match self {
            GenericParam::Lifetime(s) => GenericParam::Lifetime(s.clone()),
            GenericParam::Type(s) => GenericParam::Type(s.clone()),
            GenericParam::Const(s) => GenericParam::Const(s.clone()),
        }
    }
}

/// One bound after the colon of a trait declaration.
#[derive(Debug, PartialEq, Eq)]
pub enum Bound {
    /// A trait, such as `Base` or `some::path::Base`.
    Trait(String),
    /// A lifetime, such as `'static`.
    Lifetime(String),
    /// Anything else that the grammar admits in this place.
    Other(String),
}

pub enum BoundView {
    Trait(Seq<char>),
    Lifetime(Seq<char>),
    Other(Seq<char>),
}

impl DeepView for Bound {
    type V = BoundView;

    open spec fn deep_view(&self) -> BoundView {
        match self {
            Bound::Trait(s) => BoundView::Trait(s.deep_view()),
            Bound::Lifetime(s) => BoundView::Lifetime(s.deep_view()),
            Bound::Other(s) => BoundView::Other(s.deep_view()),
        }
    }
}

impl Clone for Bound {
    fn clone(&self) -> (r: Self)
        ensures
            r.deep_view() == self.deep_view(),
    {
        match self {
            Bound::Trait(s) => Bound::Trait(s.clone()),
            Bound::Lifetime(s) => Bound::Lifetime(s.clone()),
            Bound::Other(s) => Bound::Other(s.clone()),
        }
    }
}

/// The `self` parameter of a method.
///
/// `reference` says whether it is written with `&` (`&self`, `&'a mut self`);
/// `lifetime` is the lifetime after that `&`, if one is written.
#[derive(Debug, PartialEq, Eq)]
pub struct Receiver {
    pub attrs: Vec<String>,
    pub reference: bool,
    pub lifetime: Option<String>,
    pub mutable: bool,
}

pub struct ReceiverView {
    pub attrs: Seq<Seq<char>>,
    pub reference: bool,
    pub lifetime: Option<Seq<char>>,
    pub mutable: bool,
}

impl DeepView for Receiver {
    type V = ReceiverView;

    open spec fn deep_view(&self) -> ReceiverView {
        ReceiverView {
            attrs: self.attrs.deep_view(),
            reference: self.reference,
            lifetime: self.lifetime.deep_view(),
            mutable: self.mutable,
        }
    }
}

impl Clone for Receiver {
    fn clone(&self) -> (r: Self)
        ensures
            r.deep_view() == self.deep_view(),
    {
        let attrs = self.attrs.clone();
        assert(attrs.deep_view() =~= self.attrs.deep_view());
        Receiver {
            attrs,
            reference: self.reference,
            lifetime: self.lifetime.clone(),
            mutable: self.mutable,
        }
    }
}

/// The pattern of a parameter: a plain name, or something more involved.
#[derive(Debug, PartialEq, Eq)]
pub enum Pattern {
    Ident(String),
    Other(String),
}

pub enum PatternView {
    Ident(Seq<char>),
    Other(Seq<char>),
}

impl DeepView for Pattern {
    type V = PatternView;

    open spec fn deep_view(&self) -> PatternView {
        match self {
            Pattern::Ident(s) => PatternView::Ident(s.deep_view()),
            Pattern::Other(s) => PatternView::Other(s.deep_view()),
        }
    }
}

impl Clone for Pattern {
    fn clone(&self) -> (r: Self)
        ensures
            r.deep_view() == self.deep_view(),
    {
        match self {
            Pattern::Ident(s) => Pattern::Ident(s.clone()),
            Pattern::Other(s) => Pattern::Other(s.clone()),
        }
    }
}

/// A parameter other than `self`: `pat: ty`.
#[derive(Debug, PartialEq, Eq)]
pub struct TypedArg {
    pub attrs: Vec<String>,
    pub pat: Pattern,
    pub ty: String,
}

pub struct TypedArgView {
    pub attrs: Seq<Seq<char>>,
    pub pat: PatternView,
    pub ty: Seq<char>,
}

impl DeepView for TypedArg {
    type V = TypedArgView;

    open spec fn deep_view(&self) -> TypedArgView {
        TypedArgView {
            attrs: self.attrs.deep_view(),
            pat: self.pat.deep_view(),
            ty: self.ty.deep_view(),
        }
    }
}

impl Clone for TypedArg {
    fn clone(&self) -> (r: Self)
        ensures
            r.deep_view() == self.deep_view(),
    {
        let attrs = self.attrs.clone();
        assert(attrs.deep_view() =~= self.attrs.deep_view());
        TypedArg { attrs, pat: self.pat.clone(), ty: self.ty.clone() }
    }
}

/// One parameter of a method.
#[derive(Debug, PartialEq, Eq)]
pub enum FnArg {
    Receiver(Receiver),
    Typed(TypedArg),
}

pub enum FnArgView {
    Receiver(ReceiverView),
    Typed(TypedArgView),
}

impl DeepView for FnArg {
    type V = FnArgView;

    open spec fn deep_view(&self) -> FnArgView {
        match self {
            FnArg::Receiver(r) => FnArgView::Receiver(r.deep_view()),
            FnArg::Typed(t) => FnArgView::Typed(t.deep_view()),
        }
    }
}

impl Clone for FnArg {
    fn clone(&self) -> (r: Self)
        ensures
            r.deep_view() == self.deep_view(),
    {
        match self {
            FnArg::Receiver(r) => FnArg::Receiver(r.clone()),
            FnArg::Typed(t) => FnArg::Typed(t.clone()),
        }
    }
}

/// The signature of a method. `output` is the type after `->`, if one is
/// written.
#[derive(Debug, PartialEq, Eq)]
pub struct Signature {
    pub unsafety: bool,
    pub abi: Option<Abi>,
    pub ident: String,
    pub generics: Vec<GenericParam>,
    pub inputs: Vec<FnArg>,
    pub output: Option<String>,
}

pub struct SignatureView {
    pub unsafety: bool,
    pub abi: Option<AbiView>,
    pub ident: Seq<char>,
    pub generics: Seq<GenericParamView>,
    pub inputs: Seq<FnArgView>,
    pub output: Option<Seq<char>>,
}

impl DeepView for Signature {
    type V = SignatureView;

    open spec fn deep_view(&self) -> SignatureView {
        SignatureView {
            unsafety: self.unsafety,
            abi: self.abi.deep_view(),
            ident: self.ident.deep_view(),
            generics: self.generics.deep_view(),
            inputs: self.inputs.deep_view(),
            output: self.output.deep_view(),
        }
    }
}

impl View for Signature {
    type V = SignatureView;

    open spec fn view(&self) -> SignatureView {
        self.deep_view()
    }
}

impl Clone for Signature {
    fn clone(&self) -> (r: Self)
        ensures
            r.deep_view() == self.deep_view(),
    {
        let generics = self.generics.clone();
        assert(generics.deep_view() =~= self.generics.deep_view());
        let inputs = self.inputs.clone();
        assert(inputs.deep_view() =~= self.inputs.deep_view());
        Signature {
            unsafety: self.unsafety,
            abi: self.abi.clone(),
            ident: self.ident.clone(),
            generics,
            inputs,
            output: self.output.clone(),
        }
    }
}

/// A method of a trait: its signature and, if it has one, its default body.
#[derive(Debug, PartialEq, Eq)]
pub struct TraitFn {
    pub sig: Signature,
    pub default: Option<String>,
}

pub struct TraitFnView {
    pub sig: SignatureView,
    pub default: Option<Seq<char>>,
}

impl DeepView for TraitFn {
    type V = TraitFnView;

    open spec fn deep_view(&self) -> TraitFnView {
        TraitFnView { sig: self.sig.deep_view(), default: self.default.deep_view() }
    }
}

impl View for TraitFn {
    type V = TraitFnView;

    open spec fn view(&self) -> TraitFnView {
        self.deep_view()
    }
}

impl Clone for TraitFn {
    fn clone(&self) -> (r: Self)
        ensures
            r.deep_view() == self.deep_view(),
    {
        TraitFn { sig: self.sig.clone(), default: self.default.clone() }
    }
}

/// One item in the body of a trait.
#[derive(Debug, PartialEq, Eq)]
pub enum TraitItem {
    Fn(TraitFn),
    /// An associated constant, by its name.
    Const(String),
    /// An associated type, by its name.
    Type(String),
    /// Any other item, as written.
    Other(String),
}

pub enum TraitItemView {
    Fn(TraitFnView),
    Const(Seq<char>),
    Type(Seq<char>),
    Other(Seq<char>),
}

impl DeepView for TraitItem {
    type V = TraitItemView;

    open spec fn deep_view(&self) -> TraitItemView {
        match self {
            TraitItem::Fn(f) => TraitItemView::Fn(f.deep_view()),
            TraitItem::Const(s) => TraitItemView::Const(s.deep_view()),
            TraitItem::Type(s) => TraitItemView::Type(s.deep_view()),
            TraitItem::Other(s) => TraitItemView::Other(s.deep_view()),
        }
    }
}

impl Clone for TraitItem {
    fn clone(&self) -> (r: Self)
        ensures
            r.deep_view() == self.deep_view(),
    {
        match self {
            TraitItem::Fn(f) => TraitItem::Fn(f.clone()),
            TraitItem::Const(s) => TraitItem::Const(s.clone()),
            TraitItem::Type(s) => TraitItem::Type(s.clone()),
            TraitItem::Other(s) => TraitItem::Other(s.clone()),
        }
    }
}

/// A trait declaration.
///
/// `angle_brackets` says whether a `<..>` list follows the name, even an
/// empty one; `generics` holds what stands in it.
#[derive(Debug, PartialEq, Eq)]
pub struct TraitDef {
    pub vis: String,
    pub unsafety: bool,
    pub auto_token: bool,
    pub ident: String,
    pub angle_brackets: bool,
    pub generics: Vec<GenericParam>,
    pub supertraits: Vec<Bound>,
    pub items: Vec<TraitItem>,
}

pub struct TraitDefView {
    pub vis: Seq<char>,
    pub unsafety: bool,
    pub auto_token: bool,
    pub ident: Seq<char>,
    pub angle_brackets: bool,
    pub generics: Seq<GenericParamView>,
    pub supertraits: Seq<BoundView>,
    pub items: Seq<TraitItemView>,
}

impl DeepView for TraitDef {
    type V = TraitDefView;

    open spec fn deep_view(&self) -> TraitDefView {
        TraitDefView {
            vis: self.vis.deep_view(),
            unsafety: self.unsafety,
            auto_token: self.auto_token,
            ident: self.ident.deep_view(),
            angle_brackets: self.angle_brackets,
            generics: self.generics.deep_view(),
            supertraits: self.supertraits.deep_view(),
            items: self.items.deep_view(),
        }
    }
}

impl View for TraitDef {
    type V = TraitDefView;

    open spec fn view(&self) -> TraitDefView {
        self.deep_view()
    }
}

impl Clone for TraitDef {
    fn clone(&self) -> (r: Self)
        ensures
            r.deep_view() == self.deep_view(),
    {
        let generics = self.generics.clone();
        assert(generics.deep_view() =~= self.generics.deep_view());
        let supertraits = self.supertraits.clone();
        assert(supertraits.deep_view() =~= self.supertraits.deep_view());
        let items = self.items.clone();
        assert(items.deep_view() =~= self.items.deep_view());
        TraitDef {
            vis: self.vis.clone(),
            unsafety: self.unsafety,
            auto_token: self.auto_token,
            ident: self.ident.clone(),
            angle_brackets: self.angle_brackets,
            generics,
            supertraits,
            items,
        }
    }
}

} // verus!
