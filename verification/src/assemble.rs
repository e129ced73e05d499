//! Generation as a whole: the wrapper struct and the impls on it, in a fixed
//! order, and their source text.

use vstd::prelude::*;
use crate::convert::{by_value_impl, casting_impl, target_impl_new, target_impl_ref_casting};
use crate::forward::{Capability, forward_impl, target_clone, target_copy, target_debug, target_deref, target_deref_mut, target_eq, target_from, target_hash, target_ord, target_partial_eq, target_partial_ord};
use crate::items::{ItemImpl, ItemImplView, ItemStruct, ItemStructView, impl_text, impl_views, render_impl, render_struct, struct_text, target_type};
use crate::model::{AttributeView, DeriveInput, DeriveInputView, text_views};
use crate::render::{join, join_texts, type_text};
use crate::syntax::{attribute_ident, compile_error_text, compile_error_tokens};
use crate::validate::{TARGET_COUNT_MESSAGE, TARGET_PATH, ValidationError, has_target, is_outcome, target_attrs, target_ident, target_name, target_of};
use crate::wrapper::{derive_type, state_type_text, target_struct_named, wrapper_struct};

verus! {

/// The number of impls that are generated for a wrapper.
pub const IMPL_COUNT: usize = 13;

/// All that is generated for one declaration: the wrapper struct and the
/// impls on it.
#[derive(Debug)]
pub struct TargetDef {
    pub target_struct: ItemStruct,
    pub impls: Vec<ItemImpl>,
}

pub ghost struct TargetDefView {
    pub target_struct: ItemStructView,
    pub impls: Seq<ItemImplView>,
}

impl View for TargetDef {
    type V = TargetDefView;

    open spec fn view(&self) -> TargetDefView {
        TargetDefView { target_struct: self.target_struct@, impls: impl_views(self.impls@) }
    }
}

/// What is generated for the declaration `input` under the target name
/// `name`. The impls stand in this order: `Copy`, `Deref`, `DerefMut`, the
/// conversion into the state, `Clone`, `PartialEq`, `Eq`, `PartialOrd`,
/// `Ord`, `Hash`, `Debug`, the conversions by ownership kind, the
/// conversions by value.
pub open spec fn generated(input: DeriveInputView, name: Seq<char>) -> TargetDefView {
    let state = state_type_text(input);
    let s = wrapper_struct(input, state, name);
    let target = type_text(s.ident, s.generics.params);
    TargetDefView {
        target_struct: s,
        impls: seq![
            forward_impl(Capability::Copy, s, target, Seq::empty()),
            forward_impl(Capability::Deref, s, target, state),
            forward_impl(Capability::DerefMut, s, target, state),
            forward_impl(Capability::Into, s, target, state),
            forward_impl(Capability::Clone, s, target, Seq::empty()),
            forward_impl(Capability::PartialEq, s, target, Seq::empty()),
            forward_impl(Capability::Eq, s, target, Seq::empty()),
            forward_impl(Capability::PartialOrd, s, target, Seq::empty()),
            forward_impl(Capability::Ord, s, target, Seq::empty()),
            forward_impl(Capability::Hash, s, target, Seq::empty()),
            forward_impl(Capability::Debug, s, target, Seq::empty()),
            casting_impl(s, target),
            by_value_impl(s, target),
        ],
    }
}

/// The source text of each impl.
pub open spec fn impl_texts(impls: Seq<ItemImplView>) -> Seq<Seq<char>> {
    Seq::new(impls.len(), |i: int| impl_text(impls[i]))
}

/// The source text of all that is generated: the struct, then the impls in
/// their order.
pub open spec fn def_text(d: TargetDefView) -> Seq<char> {
    struct_text(d.target_struct) + " "@ + join(impl_texts(d.impls), " "@)
}

/// What generation comes to for the declaration `input`: the source text of
/// the generated items, or the diagnostic and no text at all.
pub open spec fn generation(input: DeriveInputView) -> Result<Seq<char>, Seq<char>> {
    match target_of(input) {
        Ok(name) => Ok(def_text(generated(input, name))),
        Err(message) => Err(message),
    }
}

/// What is handed back for the declaration `input`: the generated items,
/// or the `compile_error!` invocation that reports the diagnostic.
pub open spec fn expansion(input: DeriveInputView) -> Seq<char> {
    match generation(input) {
        Ok(text) => text,
        Err(message) => compile_error_text(message),
    }
}

/// Generates the wrapper and its impls under a target name that is already
/// known.
pub fn target_def_named(derive_input: &DeriveInput, name: String) -> (r: TargetDef)
    ensures
        r@ == generated(derive_input@, name@),
        r.impls.len() == IMPL_COUNT,
{
    let derive_type = derive_type(derive_input);
    let state = derive_type.as_str();
    let target_struct = target_struct_named(derive_input, state, name);
    let target_type = target_type(&target_struct);
    let target = target_type.as_str();
    let mut impls: Vec<ItemImpl> = Vec::new();
    impls.push(target_copy(&target_struct, target));
    impls.push(target_deref(&target_struct, target, state));
    impls.push(target_deref_mut(&target_struct, target, state));
    impls.push(target_from(&target_struct, target, state));
    impls.push(target_clone(&target_struct, target));
    impls.push(target_partial_eq(&target_struct, target));
    impls.push(target_eq(&target_struct, target));
    impls.push(target_partial_ord(&target_struct, target));
    impls.push(target_ord(&target_struct, target));
    impls.push(target_hash(&target_struct, target));
    impls.push(target_debug(&target_struct, target));
    impls.push(target_impl_ref_casting(&target_struct, target));
    impls.push(target_impl_new(&target_struct, target));
    assert(impl_views(impls@) =~= generated(derive_input@, name@).impls);
    TargetDef { target_struct, impls }
}

/// Generates the wrapper and its impls for a declaration. Succeeds exactly
/// when the declaration carries one target annotation whose argument is an
/// identifier; with none, or with more than one, it is refused with the
/// fixed diagnostic and nothing is generated.
pub fn target_def(derive_input: &DeriveInput) -> (r: Result<TargetDef, ValidationError>)
    ensures
        r is Ok <==> has_target(derive_input@),
        r matches Ok(d) ==> d@ == generated(derive_input@, target_name(derive_input@)),
        r matches Err(e) ==> target_of(derive_input@) == Err::<Seq<char>, Seq<char>>(e@),
        target_attrs(derive_input@.attrs).len() != 1 ==> r is Err && r->Err_0@
            == TARGET_COUNT_MESSAGE@,
{
    match target_ident(derive_input) {
        Ok(name) => Ok(target_def_named(derive_input, name)),
        Err(e) => Err(e),
    }
}

/// Writes all that was generated as one fragment of source text.
pub fn render_def(d: &TargetDef) -> (r: String)
    ensures
        r@ == def_text(d@),
{
    let mut parts: Vec<String> = Vec::new();
    let mut i: usize = 0;
    while i < d.impls.len()
        invariant
            i <= d.impls.len(),
            parts.len() == i,
            forall|j: int| 0 <= j < i ==> parts[j]@ == impl_text(d.impls[j]@),
        decreases d.impls.len() - i,
    {
        parts.push(render_impl(&d.impls[i]));
        i = i + 1;
    }
    assert(text_views(parts@) =~= impl_texts(d@.impls));
    let mut out = render_struct(&d.target_struct);
    out.append(" ");
    out.append(join_texts(&parts, " ").as_str());
    out
}

/// Generates the source text for a declaration, or says why not. Success
/// and refusal are as for `target_def`.
pub fn derive_dep_inj_impl(derive_input: &DeriveInput) -> (r: Result<String, ValidationError>)
    ensures
        is_outcome(r, generation(derive_input@)),
        r is Ok <==> has_target(derive_input@),
        target_attrs(derive_input@.attrs).len() != 1 ==> r is Err && r->Err_0@
            == TARGET_COUNT_MESSAGE@,
{
    match target_def(derive_input) {
        Ok(d) => Ok(render_def(&d)),
        Err(e) => Err(e),
    }
}

/// What is handed back for an outcome of generation: the fragment itself,
/// or the `compile_error!` invocation that reports the refusal.
pub fn emit(outcome: Result<String, ValidationError>) -> (r: String)
    ensures
        outcome matches Ok(text) ==> r == text,
        outcome matches Err(e) ==> r@ == compile_error_text(e@),
{
    match outcome {
        Ok(text) => text,
        Err(e) => compile_error_tokens(e.message.as_str()),
    }
}

/// Expands a declaration: the generated items where it names its target,
/// and otherwise a `compile_error!` invocation and no item at all.
pub fn derive_dep_inj(derive_input: &DeriveInput) -> (r: String)
    ensures
        r@ == expansion(derive_input@),
        target_attrs(derive_input@.attrs).len() != 1 ==> r@ == compile_error_text(
            TARGET_COUNT_MESSAGE@,
        ),
{
    emit(derive_dep_inj_impl(derive_input))
}

/// Generation is a function of the declaration: two declarations that read
/// the same come to the same outcome and are handed the same text back.
pub proof fn generation_is_deterministic(a: DeriveInput, b: DeriveInput)
    requires
        a@ == b@,
    ensures
        generation(a@) == generation(b@),
        expansion(a@) == expansion(b@),
{
}

/// A declaration is refused with the fixed diagnostic whenever the number
/// of its target annotations is not one: with none as with two or more.
/// With exactly one it is accepted where the token parser reads one
/// identifier in the annotation's arguments, and the outcome is then a
/// fragment of source text.
pub proof fn validation_counts_targets(input: DeriveInputView)
    ensures
        target_attrs(input.attrs).len() != 1 ==> generation(input) == Err::<
            Seq<char>,
            Seq<char>,
        >(TARGET_COUNT_MESSAGE@),
        target_attrs(input.attrs).len() == 1 && attribute_ident(
            target_attrs(input.attrs)[0].path,
            target_attrs(input.attrs)[0].tokens,
        ) is Ok ==> generation(input) is Ok,
        generation(input) is Ok ==> target_attrs(input.attrs).len() == 1,
{
}

/// A declaration without annotations carries no target annotation, and one
/// whose annotations are two target annotations carries two.
pub proof fn target_counts_at_the_edges(one: AttributeView, other: AttributeView)
    requires
        one.path == TARGET_PATH@,
        other.path == TARGET_PATH@,
    ensures
        target_attrs(Seq::<AttributeView>::empty()).len() == 0,
        target_attrs(seq![one]).len() == 1,
        target_attrs(seq![one, other]).len() == 2,
{
    reveal_with_fuel(Seq::filter, 3);
    assert(seq![one].drop_last() =~= Seq::<AttributeView>::empty());
    assert(seq![one, other].drop_last() =~= seq![one]);
}

} // verus!
