//! The impls that hand the capabilities of the dependency context on to the
//! wrapper. Each is guarded by one bound on the dependency parameter and
//! does its work on the payload.

use vstd::prelude::*;
use crate::generics::{DEPS, DepForm, RHS, clone_generics, make_trailing_param, push_param, push_predicate, set_last_param, trailing_param, with_last_param, with_param, with_predicate};
use crate::items::{ItemImpl, ItemImplView, ItemStruct, ItemStructView};
use crate::model::{GenericsView, text_views};
use crate::render::{enclose, render_type, type_text};

verus! {

/// A capability that the wrapper takes over from its payload.
#[derive(Clone, Copy, Debug, PartialEq, Eq, Structural)]
pub enum Capability {
    /// `Copy`.
    Copy,
    /// Reading the state through the wrapper: `Deref` to the state type.
    Deref,
    /// Writing the state through the wrapper: `DerefMut`.
    DerefMut,
    /// Turning the wrapper into the state: `From<wrapper>` for the state type.
    Into,
    /// `Clone`.
    Clone,
    /// `PartialEq` with a wrapper of another context.
    PartialEq,
    /// `Eq`.
    Eq,
    /// `PartialOrd` with a wrapper of another context.
    PartialOrd,
    /// `Ord`.
    Ord,
    /// `Hash`.
    Hash,
    /// `Debug`.
    Debug,
}

/// The trait of values that are copied bit by bit.
pub const COPY_TRAIT: &'static str = "Copy";

/// The trait of values that can be cloned.
pub const CLONE_TRAIT: &'static str = "Clone";

/// The trait of a total equality.
pub const EQ_TRAIT: &'static str = "Eq";

/// The trait of a total order.
pub const ORD_TRAIT: &'static str = "Ord";

/// The trait of values that can be hashed.
pub const HASH_TRAIT: &'static str = "::core::hash::Hash";

/// The trait of values that can be printed for the programmer.
pub const DEBUG_TRAIT: &'static str = "::core::fmt::Debug";

/// The trait of the read dereference.
pub const DEREF_TRAIT: &'static str = "::core::ops::Deref";

/// The trait of the write dereference.
pub const DEREF_MUT_TRAIT: &'static str = "::core::ops::DerefMut";

/// The bound of a context that gives a reference to the state, up to the state type.
pub const AS_REF_OPEN: &'static str = "AsRef<";

/// The bound of a context that gives a mutable reference to the state, up to the state type.
pub const AS_MUT_OPEN: &'static str = "AsMut<";

/// The bound of a context that converts into the state, up to the state type.
pub const INTO_OPEN: &'static str = "Into<";

/// The trait of the conversion into the state, up to the wrapper type.
pub const FROM_OPEN: &'static str = "From<";

/// The trait of an equality, up to the type on the other side.
pub const PARTIAL_EQ_OPEN: &'static str = "PartialEq<";

/// The trait of a partial order, up to the type on the other side.
pub const PARTIAL_ORD_OPEN: &'static str = "PartialOrd<";

/// The associated type of the dereference, up to the state type.
pub const TARGET_ITEM_OPEN: &'static str = "type Target = ";

/// The method of the read dereference.
pub const DEREF_ITEM: &'static str =
    "#[inline] fn deref(&self) -> &Self::Target { self.deps.as_ref() }";

/// The method of the write dereference.
pub const DEREF_MUT_ITEM: &'static str =
    "#[inline] fn deref_mut(&mut self) -> &mut Self::Target { self.deps.as_mut() }";

/// The method of the conversion into the state, up to the wrapper type.
pub const FROM_ITEM_OPEN: &'static str = "fn from(value: ";

/// The rest of that method: take the payload out, then convert it.
pub const FROM_ITEM_CLOSE: &'static str = ") -> Self { value.prj().into() }";

/// The method that clones the payload into a new wrapper.
pub const CLONE_ITEM: &'static str =
    "fn clone(&self) -> Self { Self { _marker: ::core::marker::PhantomData, deps: self.deps.clone() } }";

/// The method that forwards the equality, up to the type on the other side.
pub const EQ_ITEM_OPEN: &'static str = "fn eq(&self, rhs: &";

/// The rest of that method.
pub const EQ_ITEM_CLOSE: &'static str = ") -> bool { self.deps == rhs.deps }";

/// The method that hashes the payload.
pub const HASH_ITEM: &'static str =
    "fn hash<__H__: ::core::hash::Hasher>(&self, hasher: &mut __H__) { self.deps.hash(hasher) }";

/// The method that prints the payload, and nothing of the wrapper.
pub const DEBUG_ITEM: &'static str =
    "fn fmt(&self, f: &mut ::core::fmt::Formatter<'_>) -> ::core::fmt::Result { ::core::fmt::Debug::fmt(&self.deps, f) }";

/// The method that forwards the partial order, up to the type on the other side.
pub const PARTIAL_ORD_ITEM_OPEN: &'static str = "fn partial_cmp(&self, rhs: &";

/// The end of the method that forwards the partial order.
pub open spec fn partial_ord_item_close() -> Seq<char> {
    ") -> Option<::core::cmp::Ordering> { self.deps.partial_cmp(&rhs.deps) }"@
}

/// The method that forwards the total order.
pub open spec fn ord_item() -> Seq<char> {
    "fn cmp(&self, rhs: &Self) -> ::core::cmp::Ordering { self.deps.cmp(&rhs.deps) }"@
}

/// The form of the dependency parameter in the impl of a capability. The
/// context must be sized where the capability holds or moves it (`Copy`,
/// `Clone`, the conversion into the state) or compares it; the two
/// dereferences, `Hash` and `Debug` only read it through a reference, so
/// they are there for a dynamically sized context too.
pub open spec fn capability_form(c: Capability) -> DepForm {
    match c {
        Capability::Deref | Capability::DerefMut | Capability::Hash | Capability::Debug =>
            DepForm::MaybeUnsized,
        _ => DepForm::Sized,
    }
}

/// Whether the capability relates the wrapper to a wrapper of another
/// context, which then is one more parameter of the impl.
pub open spec fn is_comparison(c: Capability) -> bool {
    c == Capability::PartialEq || c == Capability::PartialOrd
}

/// The bound that the dependency parameter must meet for the capability,
/// where `state` names the state type.
pub open spec fn capability_bound(c: Capability, state: Seq<char>) -> Seq<char> {
    match c {
        Capability::Copy => COPY_TRAIT@,
        Capability::Deref => AS_REF_OPEN@ + state + ">"@,
        Capability::DerefMut => AS_REF_OPEN@ + state + "> + "@ + AS_MUT_OPEN@ + state + ">"@,
        Capability::Into => INTO_OPEN@ + state + ">"@,
        Capability::Clone => CLONE_TRAIT@,
        Capability::PartialEq => PARTIAL_EQ_OPEN@ + RHS@ + ">"@,
        Capability::Eq => EQ_TRAIT@,
        Capability::PartialOrd => PARTIAL_ORD_OPEN@ + RHS@ + ">"@,
        Capability::Ord => ORD_TRAIT@,
        Capability::Hash => HASH_TRAIT@,
        Capability::Debug => DEBUG_TRAIT@,
    }
}

/// The predicate that guards the impl of a capability.
pub open spec fn capability_predicate(c: Capability, state: Seq<char>) -> Seq<char> {
    DEPS@ + ": "@ + capability_bound(c, state)
}

/// The trait that the impl of a capability implements, where `target` names
/// the wrapper and `other` the wrapper of the other context.
pub open spec fn capability_trait(c: Capability, target: Seq<char>, other: Seq<char>) -> Seq<char> {
    match c {
        Capability::Copy => COPY_TRAIT@,
        Capability::Deref => DEREF_TRAIT@,
        Capability::DerefMut => DEREF_MUT_TRAIT@,
        Capability::Into => FROM_OPEN@ + target + ">"@,
        Capability::Clone => CLONE_TRAIT@,
        Capability::PartialEq => PARTIAL_EQ_OPEN@ + other + ">"@,
        Capability::Eq => EQ_TRAIT@,
        Capability::PartialOrd => PARTIAL_ORD_OPEN@ + other + ">"@,
        Capability::Ord => ORD_TRAIT@,
        Capability::Hash => HASH_TRAIT@,
        Capability::Debug => DEBUG_TRAIT@,
    }
}

/// The items of the impl of a capability: each forwards to the payload in
/// one call.
pub open spec fn capability_items(
    c: Capability,
    target: Seq<char>,
    other: Seq<char>,
    state: Seq<char>,
) -> Seq<Seq<char>> {
    match c {
        Capability::Copy => seq![],
        Capability::Deref => seq![TARGET_ITEM_OPEN@ + state + ";"@, DEREF_ITEM@],
        Capability::DerefMut => seq![DEREF_MUT_ITEM@],
        Capability::Into => seq![FROM_ITEM_OPEN@ + target + FROM_ITEM_CLOSE@],
        Capability::Clone => seq![CLONE_ITEM@],
        Capability::PartialEq => seq![EQ_ITEM_OPEN@ + other + EQ_ITEM_CLOSE@],
        Capability::Eq => seq![],
        Capability::PartialOrd => seq![PARTIAL_ORD_ITEM_OPEN@ + other + partial_ord_item_close()],
        Capability::Ord => seq![ord_item()],
        Capability::Hash => seq![HASH_ITEM@],
        Capability::Debug => seq![DEBUG_ITEM@],
    }
}

/// The generics of the impl of a capability on the wrapper `s`: the
/// wrapper's own, with the dependency parameter in the capability's form,
/// the other context behind it for a comparison, and the guard at the end of
/// the `where` clause.
pub open spec fn capability_generics(c: Capability, g: GenericsView, state: Seq<char>) -> GenericsView {
    let formed = match capability_form(c) {
        DepForm::Sized => with_last_param(g, trailing_param(DEPS@, DepForm::Sized)),
        DepForm::MaybeUnsized => g,
    };
    let widened = if is_comparison(c) {
        with_param(formed, trailing_param(RHS@, DepForm::Sized))
    } else {
        formed
    };
    with_predicate(widened, capability_predicate(c, state))
}

/// The name of the wrapper `s` over the other context of a comparison.
pub open spec fn other_type_text(s: ItemStructView) -> Seq<char> {
    type_text(s.ident, s.generics.params.drop_last().push(trailing_param(RHS@, DepForm::Sized)))
}

/// The impl of the capability `c` on the wrapper `s`, which is named
/// `target` and wraps the state type named `state`. `state` is read for the
/// two dereferences and the conversion into the state only.
pub open spec fn forward_impl(
    c: Capability,
    s: ItemStructView,
    target: Seq<char>,
    state: Seq<char>,
) -> ItemImplView {
    ItemImplView {
        generics: capability_generics(c, s.generics, state),
        trait_path: Some(capability_trait(c, target, other_type_text(s))),
        self_ty: if c == Capability::Into {
            state
        } else {
            target
        },
        items: capability_items(c, target, other_type_text(s), state),
    }
}

/// Writes the bound that guards the impl of `c`.
fn bound_of(c: Capability, state: &str) -> (r: String)
    ensures
        r@ == capability_bound(c, state@),
{
    match c {
        Capability::Copy => String::from_str(COPY_TRAIT),
        Capability::Deref => {
            let mut out = String::from_str(AS_REF_OPEN);
            out.append(state);
            out.append(">");
            out
        },
        Capability::DerefMut => {
            let mut out = String::from_str(AS_REF_OPEN);
            out.append(state);
            out.append("> + ");
            out.append(AS_MUT_OPEN);
            out.append(state);
            out.append(">");
            out
        },
        Capability::Into => {
            let mut out = String::from_str(INTO_OPEN);
            out.append(state);
            out.append(">");
            out
        },
        Capability::Clone => String::from_str(CLONE_TRAIT),
        Capability::PartialEq => {
            let mut out = String::from_str(PARTIAL_EQ_OPEN);
            out.append(RHS);
            out.append(">");
            out
        },
        Capability::Eq => String::from_str(EQ_TRAIT),
        Capability::PartialOrd => {
            let mut out = String::from_str(PARTIAL_ORD_OPEN);
            out.append(RHS);
            out.append(">");
            out
        },
        Capability::Ord => String::from_str(ORD_TRAIT),
        Capability::Hash => String::from_str(HASH_TRAIT),
        Capability::Debug => String::from_str(DEBUG_TRAIT),
    }
}

/// Writes the trait that the impl of `c` implements.
fn trait_of(c: Capability, target: &str, other: &str) -> (r: String)
    ensures
        r@ == capability_trait(c, target@, other@),
{
    match c {
        Capability::Copy => String::from_str(COPY_TRAIT),
        Capability::Deref => String::from_str(DEREF_TRAIT),
        Capability::DerefMut => String::from_str(DEREF_MUT_TRAIT),
        Capability::Into => enclose(FROM_OPEN, target, ">"),
        Capability::Clone => String::from_str(CLONE_TRAIT),
        Capability::PartialEq => enclose(PARTIAL_EQ_OPEN, other, ">"),
        Capability::Eq => String::from_str(EQ_TRAIT),
        Capability::PartialOrd => enclose(PARTIAL_ORD_OPEN, other, ">"),
        Capability::Ord => String::from_str(ORD_TRAIT),
        Capability::Hash => String::from_str(HASH_TRAIT),
        Capability::Debug => String::from_str(DEBUG_TRAIT),
    }
}

/// Writes the items of the impl of `c`.
fn items_of(c: Capability, target: &str, other: &str, state: &str) -> (r: Vec<String>)
    ensures
        text_views(r@) == capability_items(c, target@, other@, state@),
{
    let mut items: Vec<String> = Vec::new();
    match c {
        Capability::Copy => {},
        Capability::Deref => {
            items.push(enclose(TARGET_ITEM_OPEN, state, ";"));
            items.push(String::from_str(DEREF_ITEM));
        },
        Capability::DerefMut => {
            items.push(String::from_str(DEREF_MUT_ITEM));
        },
        Capability::Into => {
            items.push(enclose(FROM_ITEM_OPEN, target, FROM_ITEM_CLOSE));
        },
        Capability::Clone => {
            items.push(String::from_str(CLONE_ITEM));
        },
        Capability::PartialEq => {
            items.push(enclose(EQ_ITEM_OPEN, other, EQ_ITEM_CLOSE));
        },
        Capability::Eq => {},
        Capability::PartialOrd => {
            items.push(
                enclose(
                    PARTIAL_ORD_ITEM_OPEN,
                    other,
                    ") -> Option<::core::cmp::Ordering> { self.deps.partial_cmp(&rhs.deps) }",
                ),
            );
        },
        Capability::Ord => {
            items.push(
                String::from_str(
                    "fn cmp(&self, rhs: &Self) -> ::core::cmp::Ordering { self.deps.cmp(&rhs.deps) }",
                ),
            );
        },
        Capability::Hash => {
            items.push(String::from_str(HASH_ITEM));
        },
        Capability::Debug => {
            items.push(String::from_str(DEBUG_ITEM));
        },
    }
    assert(text_views(items@) =~= capability_items(
        c,
        target@,
        other@,
        state@,
    ));
    items
}

/// Builds the impl that forwards the capability `c` of the payload to the
/// wrapper `target_struct`, named `target_type`, of the state type named
/// `derive_type`. Where the capability needs a sized context the wrapper
/// must have its dependency parameter, which the impl then declares anew.
pub fn forward(c: Capability, target_struct: &ItemStruct, target_type: &str, derive_type: &str) -> (r:
    ItemImpl)
    requires
        capability_form(c) == DepForm::Sized ==> target_struct@.generics.params.len() > 0,
    ensures
        r@ == forward_impl(c, target_struct@, target_type@, derive_type@),
{
    let mut generics = clone_generics(&target_struct.generics);
    match c {
        Capability::Deref | Capability::DerefMut | Capability::Hash | Capability::Debug => {},
        _ => {
            set_last_param(&mut generics, make_trailing_param(DEPS, DepForm::Sized));
        },
    }
    let other = match c {
        Capability::PartialEq | Capability::PartialOrd => {
            push_param(&mut generics, make_trailing_param(RHS, DepForm::Sized));
            let mut other_generics = clone_generics(&target_struct.generics);
            set_last_param(&mut other_generics, make_trailing_param(RHS, DepForm::Sized));
            render_type(target_struct.ident.as_str(), &other_generics)
        },
        _ => String::new(),
    };
    let bound = bound_of(c, derive_type);
    push_predicate(&mut generics, enclose(DEPS, ": ", bound.as_str()));
    let self_ty = match c {
        Capability::Into => String::from_str(derive_type),
        _ => String::from_str(target_type),
    };
    ItemImpl {
        generics,
        trait_path: Some(trait_of(c, target_type, other.as_str())),
        self_ty,
        items: items_of(
            c,
            target_type,
            other.as_str(),
            derive_type,
        ),
    }
}

/// The impl of `Deref` to the state type, for a context that gives a
/// reference to the state.
pub fn target_deref(target_struct: &ItemStruct, target_type: &str, derive_type: &str) -> (r: ItemImpl)
    ensures
        r@ == forward_impl(Capability::Deref, target_struct@, target_type@, derive_type@),
{
    forward(Capability::Deref, target_struct, target_type, derive_type)
}

/// The impl of `DerefMut`, for a context that gives a reference and a
/// mutable reference to the state.
pub fn target_deref_mut(target_struct: &ItemStruct, target_type: &str, derive_type: &str) -> (r:
    ItemImpl)
    ensures
        r@ == forward_impl(Capability::DerefMut, target_struct@, target_type@, derive_type@),
{
    forward(Capability::DerefMut, target_struct, target_type, derive_type)
}

/// The impl that turns the wrapper into the state, for a context that
/// converts into the state by value.
pub fn target_from(target_struct: &ItemStruct, target_type: &str, derive_type: &str) -> (r: ItemImpl)
    requires
        target_struct@.generics.params.len() > 0,
    ensures
        r@ == forward_impl(Capability::Into, target_struct@, target_type@, derive_type@),
{
    forward(Capability::Into, target_struct, target_type, derive_type)
}

/// The impl of `Clone`.
pub fn target_clone(target_struct: &ItemStruct, target_type: &str) -> (r: ItemImpl)
    requires
        target_struct@.generics.params.len() > 0,
    ensures
        r@ == forward_impl(Capability::Clone, target_struct@, target_type@, Seq::empty()),
{
    forward(Capability::Clone, target_struct, target_type, "")
}

/// The impl of `Copy`.
pub fn target_copy(target_struct: &ItemStruct, target_type: &str) -> (r: ItemImpl)
    requires
        target_struct@.generics.params.len() > 0,
    ensures
        r@ == forward_impl(Capability::Copy, target_struct@, target_type@, Seq::empty()),
{
    forward(Capability::Copy, target_struct, target_type, "")
}

/// The impl of `PartialEq` between the wrapper and a wrapper of another
/// context.
pub fn target_partial_eq(target_struct: &ItemStruct, target_type: &str) -> (r: ItemImpl)
    requires
        target_struct@.generics.params.len() > 0,
    ensures
        r@ == forward_impl(Capability::PartialEq, target_struct@, target_type@, Seq::empty()),
{
    forward(Capability::PartialEq, target_struct, target_type, "")
}

/// The impl of `Eq`.
pub fn target_eq(target_struct: &ItemStruct, target_type: &str) -> (r: ItemImpl)
    requires
        target_struct@.generics.params.len() > 0,
    ensures
        r@ == forward_impl(Capability::Eq, target_struct@, target_type@, Seq::empty()),
{
    forward(Capability::Eq, target_struct, target_type, "")
}

/// The impl of `PartialOrd` between the wrapper and a wrapper of another
/// context.
pub fn target_partial_ord(target_struct: &ItemStruct, target_type: &str) -> (r: ItemImpl)
    requires
        target_struct@.generics.params.len() > 0,
    ensures
        r@ == forward_impl(Capability::PartialOrd, target_struct@, target_type@, Seq::empty()),
{
    forward(Capability::PartialOrd, target_struct, target_type, "")
}

/// The impl of `Ord`.
pub fn target_ord(target_struct: &ItemStruct, target_type: &str) -> (r: ItemImpl)
    requires
        target_struct@.generics.params.len() > 0,
    ensures
        r@ == forward_impl(Capability::Ord, target_struct@, target_type@, Seq::empty()),
{
    forward(Capability::Ord, target_struct, target_type, "")
}

/// The impl of `Hash`.
pub fn target_hash(target_struct: &ItemStruct, target_type: &str) -> (r: ItemImpl)
    ensures
        r@ == forward_impl(Capability::Hash, target_struct@, target_type@, Seq::empty()),
{
    forward(Capability::Hash, target_struct, target_type, "")
}

/// The impl of `Debug`, which prints what the payload prints.
pub fn target_debug(target_struct: &ItemStruct, target_type: &str) -> (r: ItemImpl)
    ensures
        r@ == forward_impl(Capability::Debug, target_struct@, target_type@, Seq::empty()),
{
    forward(Capability::Debug, target_struct, target_type, "")
}

/// The impl of a capability holds for the wrapper exactly where its guard
/// holds for the context: the guard is the last predicate of the impl, and
/// the only one that the wrapper did not already have. For `Copy`, `Clone`,
/// `Eq`, `Ord`, `Hash` and `Debug` the guard asks of the context the very
/// trait that the impl gives the wrapper; for the two comparisons it asks
/// for the comparison with the other context, and the impl gives the
/// comparison with the wrapper of that context.
pub proof fn capability_is_guarded(
    c: Capability,
    s: ItemStructView,
    target: Seq<char>,
    state: Seq<char>,
)
    ensures
        forward_impl(c, s, target, state).generics.where_predicates
            == s.generics.where_predicates.push(capability_predicate(c, state)),
        capability_predicate(c, state) == DEPS@ + ": "@ + capability_bound(c, state),
        c == Capability::Copy || c == Capability::Clone || c == Capability::Eq || c
            == Capability::Ord || c == Capability::Hash || c == Capability::Debug
            ==> forward_impl(c, s, target, state).trait_path == Some(capability_bound(c, state)),
        c == Capability::PartialEq ==> capability_bound(c, state) == PARTIAL_EQ_OPEN@ + RHS@
            + ">"@ && forward_impl(c, s, target, state).trait_path == Some(
            PARTIAL_EQ_OPEN@ + other_type_text(s) + ">"@,
        ),
        c == Capability::PartialOrd ==> capability_bound(c, state) == PARTIAL_ORD_OPEN@ + RHS@
            + ">"@ && forward_impl(c, s, target, state).trait_path == Some(
            PARTIAL_ORD_OPEN@ + other_type_text(s) + ">"@,
        ),
{
}

/// The dependency parameter is the last parameter of every impl that does
/// not compare, in the form that the capability asks for; an impl that
/// compares has the other context behind it.
pub proof fn dependency_parameter_is_last(
    c: Capability,
    s: ItemStructView,
    target: Seq<char>,
    state: Seq<char>,
)
    requires
        s.generics.params.len() > 0,
        s.generics.params.last() == trailing_param(DEPS@, DepForm::MaybeUnsized),
    ensures
        ({
            let params = forward_impl(c, s, target, state).generics.params;
            let deps = trailing_param(DEPS@, capability_form(c));
            if is_comparison(c) {
                &&& params.len() == s.generics.params.len() + 1
                &&& params[params.len() - 2] == deps
                &&& params.last() == trailing_param(RHS@, DepForm::Sized)
            } else {
                &&& params.len() == s.generics.params.len()
                &&& params.last() == deps
            }
        }),
{
}

} // verus!
