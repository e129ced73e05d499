//! The descriptors that a generation request is made of, and the items that
//! it produces. Every piece of source text is held as a `String`; the view of
//! a descriptor holds the same pieces as sequences of characters.

use vstd::prelude::*;

verus! {

/// The three sorts of generic parameter.
#[derive(Clone, Copy, Debug, PartialEq, Eq, Structural)]
pub enum ParamKind {
    Lifetime,
    Type,
    Const,
}

/// One generic parameter of a declaration.
///
/// `name` is the bare identifier (`T`, `'a`, `N`). `bounds` holds what follows
/// the colon: the bounds of a type or lifetime parameter, the type of a const
/// parameter; it is empty where the parameter has no colon. `default` is what
/// follows `=`, and `attrs` the attributes written in front of the parameter.
#[derive(Debug)]
pub struct GenericParam {
    pub kind: ParamKind,
    pub attrs: String,
    pub name: String,
    pub bounds: String,
    pub default: Option<String>,
}

pub ghost struct GenericParamView {
    pub kind: ParamKind,
    pub attrs: Seq<char>,
    pub name: Seq<char>,
    pub bounds: Seq<char>,
    pub default: Option<Seq<char>>,
}

impl View for GenericParam {
    type V = GenericParamView;

    open spec fn view(&self) -> GenericParamView {
        GenericParamView {
            kind: self.kind,
            attrs: self.attrs@,
            name: self.name@,
            bounds: self.bounds@,
            default: match self.default {
                Some(d) => Some(d@),
                None => None,
            },
        }
    }
}

/// The views of a sequence of strings.
pub open spec fn text_views(s: Seq<String>) -> Seq<Seq<char>> {
    Seq::new(s.len(), |i: int| s[i]@)
}

/// The views of a sequence of generic parameters.
pub open spec fn param_views(s: Seq<GenericParam>) -> Seq<GenericParamView> {
    Seq::new(s.len(), |i: int| s[i]@)
}

/// An ordered list of generic parameters and the predicates of a `where`
/// clause.
#[derive(Debug)]
pub struct Generics {
    pub params: Vec<GenericParam>,
    pub where_predicates: Vec<String>,
}

pub ghost struct GenericsView {
    pub params: Seq<GenericParamView>,
    pub where_predicates: Seq<Seq<char>>,
}

impl View for Generics {
    type V = GenericsView;

    open spec fn view(&self) -> GenericsView {
        GenericsView {
            params: param_views(self.params@),
            where_predicates: text_views(self.where_predicates@),
        }
    }
}

/// An annotation on the declaration: `#[path tokens]`. `tokens` is all that
/// stands behind the path, brackets included: `(Foo)` in `#[target(Foo)]`,
/// nothing in `#[target]`.
#[derive(Debug)]
pub struct Attribute {
    pub path: String,
    pub tokens: String,
}

pub ghost struct AttributeView {
    pub path: Seq<char>,
    pub tokens: Seq<char>,
}

impl View for Attribute {
    type V = AttributeView;

    open spec fn view(&self) -> AttributeView {
        AttributeView { path: self.path@, tokens: self.tokens@ }
    }
}

/// The views of a sequence of annotations.
pub open spec fn attribute_views(s: Seq<Attribute>) -> Seq<AttributeView> {
    Seq::new(s.len(), |i: int| s[i]@)
}

/// The annotated declaration of a state type: its annotations, visibility,
/// name and generics.
#[derive(Debug)]
pub struct DeriveInput {
    pub attrs: Vec<Attribute>,
    pub vis: String,
    pub ident: String,
    pub generics: Generics,
}

pub ghost struct DeriveInputView {
    pub attrs: Seq<AttributeView>,
    pub vis: Seq<char>,
    pub ident: Seq<char>,
    pub generics: GenericsView,
}

impl View for DeriveInput {
    type V = DeriveInputView;

    open spec fn view(&self) -> DeriveInputView {
        DeriveInputView {
            attrs: attribute_views(self.attrs@),
            vis: self.vis@,
            ident: self.ident@,
            generics: self.generics@,
        }
    }
}

} // verus!
