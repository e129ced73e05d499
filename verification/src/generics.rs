//! The two views of a generic-parameter list: the declaration view, with
//! bounds and defaults, and the bare view, which only names the parameters;
//! and the trailing dependency parameter in its two forms.

use vstd::prelude::*;
use crate::model::{GenericParam, GenericParamView, Generics, GenericsView, ParamKind, param_views, text_views};

verus! {

/// The name of the dependency parameter.
pub const DEPS: &'static str = "__Deps__";

/// The name of the dependency parameter of the other side of a comparison.
pub const RHS: &'static str = "__RHS__";

/// The bound that lets a parameter be dynamically sized.
pub const MAYBE_UNSIZED: &'static str = "?Sized";

/// Whether the trailing parameter is declared for values that are held or
/// moved (`Sized`), or for what is only reached through a pointer
/// (`MaybeUnsized`).
#[derive(Clone, Copy, Debug, PartialEq, Eq, Structural)]
pub enum DepForm {
    Sized,
    MaybeUnsized,
}

/// A plain type parameter called `name`, in the given form.
pub open spec fn trailing_param(name: Seq<char>, form: DepForm) -> GenericParamView {
    GenericParamView {
        kind: ParamKind::Type,
        attrs: Seq::empty(),
        name: name,
        bounds: match form {
            DepForm::Sized => Seq::empty(),
            DepForm::MaybeUnsized => MAYBE_UNSIZED@,
        },
        default: None,
    }
}

/// The bare view of a parameter list: the names of the parameters, in order,
/// without bounds, defaults or attributes.
pub open spec fn param_names(params: Seq<GenericParamView>) -> Seq<Seq<char>> {
    Seq::new(params.len(), |i: int| params[i].name)
}

/// `g` with one more parameter at the end.
pub open spec fn with_param(g: GenericsView, p: GenericParamView) -> GenericsView {
    GenericsView { params: g.params.push(p), where_predicates: g.where_predicates }
}

/// `g` with its last parameter replaced.
pub open spec fn with_last_param(g: GenericsView, p: GenericParamView) -> GenericsView {
    GenericsView { params: g.params.drop_last().push(p), where_predicates: g.where_predicates }
}

/// `g` with one more predicate at the end of its `where` clause.
pub open spec fn with_predicate(g: GenericsView, predicate: Seq<char>) -> GenericsView {
    GenericsView { params: g.params, where_predicates: g.where_predicates.push(predicate) }
}

/// A copy of one parameter.
pub fn clone_param(p: &GenericParam) -> (r: GenericParam)
    ensures
        r@ == p@,
{
    GenericParam {
        kind: p.kind,
        attrs: p.attrs.clone(),
        name: p.name.clone(),
        bounds: p.bounds.clone(),
        default: match &p.default {
            Some(d) => Some(d.clone()),
            None => None,
        },
    }
}

/// A copy of a list of texts.
pub fn clone_texts(texts: &Vec<String>) -> (r: Vec<String>)
    ensures
        text_views(r@) == text_views(texts@),
{
    let mut out: Vec<String> = Vec::new();
    let mut i: usize = 0;
    while i < texts.len()
        invariant
            i <= texts.len(),
            out.len() == i,
            forall|j: int| 0 <= j < i ==> out[j]@ == texts[j]@,
        decreases texts.len() - i,
    {
        out.push(texts[i].clone());
        i = i + 1;
    }
    assert(text_views(out@) =~= text_views(texts@));
    out
}

/// A copy of a parameter list with all that it declares.
pub fn clone_generics(g: &Generics) -> (r: Generics)
    ensures
        r@ == g@,
{
    let mut params: Vec<GenericParam> = Vec::new();
    let mut i: usize = 0;
    while i < g.params.len()
        invariant
            i <= g.params.len(),
            params.len() == i,
            forall|j: int| 0 <= j < i ==> params[j]@ == g.params[j]@,
        decreases g.params.len() - i,
    {
        params.push(clone_param(&g.params[i]));
        i = i + 1;
    }
    assert(param_views(params@) =~= param_views(g.params@));
    Generics { params, where_predicates: clone_texts(&g.where_predicates) }
}

/// The trailing parameter `name` in the given form.
pub fn make_trailing_param(name: &str, form: DepForm) -> (r: GenericParam)
    ensures
        r@ == trailing_param(name@, form),
{
    GenericParam {
        kind: ParamKind::Type,
        attrs: String::new(),
        name: String::from_str(name),
        bounds: match form {
            DepForm::Sized => String::new(),
            DepForm::MaybeUnsized => String::from_str(MAYBE_UNSIZED),
        },
        default: None,
    }
}

/// Appends a parameter.
pub fn push_param(g: &mut Generics, p: GenericParam)
    ensures
        final(g)@ == with_param(old(g)@, p@),
{
    g.params.push(p);
    assert(param_views(g.params@) =~= param_views(old(g).params@).push(p@));
}

/// Replaces the last parameter. The list must have one.
pub fn set_last_param(g: &mut Generics, p: GenericParam)
    requires
        old(g)@.params.len() > 0,
    ensures
        final(g)@ == with_last_param(old(g)@, p@),
{
    let _ = g.params.pop();
    g.params.push(p);
    assert(param_views(g.params@) =~= param_views(old(g).params@).drop_last().push(p@));
}

/// Appends a predicate to the `where` clause.
pub fn push_predicate(g: &mut Generics, predicate: String)
    ensures
        final(g)@ == with_predicate(old(g)@, predicate@),
{
    g.where_predicates.push(predicate);
    assert(text_views(g.where_predicates@) =~= text_views(old(g).where_predicates@).push(
        predicate@,
    ));
}

/// The names of the parameters of `g`, in order: what stands between the
/// angle brackets where the declared type is named.
pub fn bare_names(g: &Generics) -> (r: Vec<String>)
    ensures
        text_views(r@) == param_names(g@.params),
{
    let mut out: Vec<String> = Vec::new();
    let mut i: usize = 0;
    while i < g.params.len()
        invariant
            i <= g.params.len(),
            out.len() == i,
            forall|j: int| 0 <= j < i ==> out[j]@ == g.params[j].name@,
        decreases g.params.len() - i,
    {
        out.push(g.params[i].name.clone());
        i = i + 1;
    }
    assert(text_views(out@) =~= param_names(g@.params));
    out
}

} // verus!
