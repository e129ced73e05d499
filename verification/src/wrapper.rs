//! The wrapper struct: the state type's parameters, one more for the
//! dependency context, and two fields of which only the payload takes room.

use vstd::prelude::*;
use crate::generics::{DEPS, DepForm, clone_generics, make_trailing_param, push_param, trailing_param, with_param};
use crate::items::{ItemStruct, ItemStructView, REPR_TRANSPARENT};
use crate::model::{DeriveInput, DeriveInputView};
use crate::render::{render_type, type_text};
use crate::validate::{TARGET_COUNT_MESSAGE, ValidationError, has_target, target_attrs, target_ident, target_name, target_of};

verus! {

/// What the marker type is written with around the state type. The marker
/// stands for a function that gives a state, not for a state: it takes no
/// room, and it is `Send` and `Sync` whatever the state type is, so that the
/// wrapper is as safe to send and to share as its payload, no more and no
/// less.
pub const MARKER_OPEN: &'static str = "::core::marker::PhantomData<fn() -> ";

/// The name of the state type where its parameters are in scope.
pub open spec fn state_type_text(input: DeriveInputView) -> Seq<char> {
    type_text(input.ident, input.generics.params)
}

/// The type of the marker field for the state type `state`.
pub open spec fn marker_type_text(state: Seq<char>) -> Seq<char> {
    MARKER_OPEN@ + state + ">"@
}

/// The wrapper struct called `name` for the declaration `input`, whose state
/// type is written `state`: transparent, with the visibility and `where`
/// clause of the declaration, its parameters and then the dependency
/// parameter, which may be dynamically sized.
pub open spec fn wrapper_struct(input: DeriveInputView, state: Seq<char>, name: Seq<char>) -> ItemStructView {
    ItemStructView {
        attrs: seq![REPR_TRANSPARENT@],
        vis: input.vis,
        ident: name,
        generics: with_param(input.generics, trailing_param(DEPS@, DepForm::MaybeUnsized)),
        marker_type: marker_type_text(state),
        payload_type: DEPS@,
    }
}

/// Writes the name of the state type: its identifier with the bare view of
/// its parameters.
pub fn derive_type(derive_input: &DeriveInput) -> (r: String)
    ensures
        r@ == state_type_text(derive_input@),
{
    render_type(derive_input.ident.as_str(), &derive_input.generics)
}

/// Builds the wrapper struct under a name that is already known.
pub fn target_struct_named(derive_input: &DeriveInput, derive_type: &str, name: String) -> (r:
    ItemStruct)
    ensures
        r@ == wrapper_struct(derive_input@, derive_type@, name@),
        r@.generics.params.len() == derive_input@.generics.params.len() + 1,
        r@.generics.params.last() == trailing_param(DEPS@, DepForm::MaybeUnsized),
{
    let mut generics = clone_generics(&derive_input.generics);
    push_param(&mut generics, make_trailing_param(DEPS, DepForm::MaybeUnsized));
    let mut marker_type = String::from_str(MARKER_OPEN);
    marker_type.append(derive_type);
    marker_type.append(">");
    let mut attrs: Vec<String> = Vec::new();
    attrs.push(String::from_str(REPR_TRANSPARENT));
    let r = ItemStruct {
        attrs,
        vis: derive_input.vis.clone(),
        ident: name,
        generics,
        marker_type,
        payload_type: String::from_str(DEPS),
    };
    assert(r@.attrs =~= seq![REPR_TRANSPARENT@]);
    r
}

/// Builds the wrapper struct, named by the declaration's target annotation.
/// A declaration that does not carry exactly one readable target annotation
/// is refused.
pub fn target_struct(derive_input: &DeriveInput, derive_type: &str) -> (r: Result<
    ItemStruct,
    ValidationError,
>)
    ensures
        r is Ok <==> has_target(derive_input@),
        r matches Ok(s) ==> s@ == wrapper_struct(
            derive_input@,
            derive_type@,
            target_name(derive_input@),
        ),
        r matches Err(e) ==> target_of(derive_input@) == Err::<Seq<char>, Seq<char>>(e@),
        target_attrs(derive_input@.attrs).len() != 1 ==> r is Err && r->Err_0@
            == TARGET_COUNT_MESSAGE@,
{
    match target_ident(derive_input) {
        Ok(name) => Ok(target_struct_named(derive_input, derive_type, name)),
        Err(e) => Err(e),
    }
}

} // verus!
