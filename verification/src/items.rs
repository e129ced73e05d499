//! The items that generation produces: the wrapper struct and the impls on
//! it, with the source text of each.

use vstd::prelude::*;
use crate::model::{Generics, GenericsView, text_views};
use crate::render::{generics_text, join, join_texts, render_generics, render_type, render_where, type_text, where_text};

verus! {

/// The attribute that gives the wrapper the layout of its payload.
pub const REPR_TRANSPARENT: &'static str = "#[repr(transparent)]";

/// The name of the marker field.
pub const MARKER_FIELD: &'static str = "_marker";

/// The name of the payload field.
pub const PAYLOAD_FIELD: &'static str = "deps";

/// The wrapper struct: a marker field that takes no room, which ties the
/// wrapper to the state type, and the payload.
#[derive(Debug)]
pub struct ItemStruct {
    pub attrs: Vec<String>,
    pub vis: String,
    pub ident: String,
    pub generics: Generics,
    pub marker_type: String,
    pub payload_type: String,
}

pub ghost struct ItemStructView {
    pub attrs: Seq<Seq<char>>,
    pub vis: Seq<char>,
    pub ident: Seq<char>,
    pub generics: GenericsView,
    pub marker_type: Seq<char>,
    pub payload_type: Seq<char>,
}

impl View for ItemStruct {
    type V = ItemStructView;

    open spec fn view(&self) -> ItemStructView {
        ItemStructView {
            attrs: text_views(self.attrs@),
            vis: self.vis@,
            ident: self.ident@,
            generics: self.generics@,
            marker_type: self.marker_type@,
            payload_type: self.payload_type@,
        }
    }
}

/// An impl block: its generics, the trait it implements (none for an
/// inherent impl), the type it is for, and the text of each item in it.
#[derive(Debug)]
pub struct ItemImpl {
    pub generics: Generics,
    pub trait_path: Option<String>,
    pub self_ty: String,
    pub items: Vec<String>,
}

pub ghost struct ItemImplView {
    pub generics: GenericsView,
    pub trait_path: Option<Seq<char>>,
    pub self_ty: Seq<char>,
    pub items: Seq<Seq<char>>,
}

impl View for ItemImpl {
    type V = ItemImplView;

    open spec fn view(&self) -> ItemImplView {
        ItemImplView {
            generics: self.generics@,
            trait_path: match self.trait_path {
                Some(t) => Some(t@),
                None => None,
            },
            self_ty: self.self_ty@,
            items: text_views(self.items@),
        }
    }
}

/// The views of a sequence of impl blocks.
pub open spec fn impl_views(s: Seq<ItemImpl>) -> Seq<ItemImplView> {
    Seq::new(s.len(), |i: int| s[i]@)
}

/// The source text of the wrapper struct.
pub open spec fn struct_text(s: ItemStructView) -> Seq<char> {
    let vis = if s.vis.len() == 0 {
        s.vis
    } else {
        s.vis + " "@
    };
    join(s.attrs, " "@) + " "@ + vis + "struct "@ + s.ident + generics_text(s.generics)
        + where_text(s.generics) + " { "@ + MARKER_FIELD@ + ": "@ + s.marker_type + ", "@
        + PAYLOAD_FIELD@ + ": "@ + s.payload_type + " }"@
}

/// The head of an impl block up to the type it is for.
pub open spec fn impl_head_text(i: ItemImplView) -> Seq<char> {
    let head = "impl"@ + generics_text(i.generics) + " "@;
    match i.trait_path {
        Some(t) => head + t + " for "@ + i.self_ty,
        None => head + i.self_ty,
    }
}

/// The source text of an impl block.
pub open spec fn impl_text(i: ItemImplView) -> Seq<char> {
    impl_head_text(i) + where_text(i.generics) + " { "@ + join(i.items, " "@) + " }"@
}

/// The name of the wrapper type where its parameters are in scope: the
/// struct's identifier with the bare view of its parameters.
pub fn target_type(target_struct: &ItemStruct) -> (r: String)
    ensures
        r@ == type_text(target_struct@.ident, target_struct@.generics.params),
{
    render_type(target_struct.ident.as_str(), &target_struct.generics)
}

/// Writes the wrapper struct.
pub fn render_struct(s: &ItemStruct) -> (r: String)
    ensures
        r@ == struct_text(s@),
{
    let mut out = join_texts(&s.attrs, " ");
    out.append(" ");
    if s.vis.as_str().unicode_len() != 0 {
        out.append(s.vis.as_str());
        out.append(" ");
    }
    out.append("struct ");
    out.append(s.ident.as_str());
    out.append(render_generics(&s.generics).as_str());
    out.append(render_where(&s.generics).as_str());
    out.append(" { ");
    out.append(MARKER_FIELD);
    out.append(": ");
    out.append(s.marker_type.as_str());
    out.append(", ");
    out.append(PAYLOAD_FIELD);
    out.append(": ");
    out.append(s.payload_type.as_str());
    out.append(" }");
    out
}

/// Writes an impl block.
pub fn render_impl(i: &ItemImpl) -> (r: String)
    ensures
        r@ == impl_text(i@),
{
    let mut out = String::from_str("impl");
    out.append(render_generics(&i.generics).as_str());
    out.append(" ");
    match &i.trait_path {
        Some(t) => {
            out.append(t.as_str());
            out.append(" for ");
        },
        None => {},
    }
    out.append(i.self_ty.as_str());
    out.append(render_where(&i.generics).as_str());
    out.append(" { ");
    out.append(join_texts(&i.items, " ").as_str());
    out.append(" }");
    out
}

} // verus!
