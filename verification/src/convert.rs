//! The conversions between the dependency context and the wrapper. For
//! every kind of ownership there is an injection, from the context to the
//! wrapper, and a projection back; each only reinterprets the pointer, which
//! the transparent layout of the wrapper allows. One more pair moves the
//! context itself in and out.

use vstd::prelude::*;
use crate::generics::{DEPS, DepForm, clone_generics, make_trailing_param, set_last_param, trailing_param, with_last_param};
use crate::items::{ItemImpl, ItemImplView, ItemStruct, ItemStructView};
use crate::model::text_views;
use crate::render::enclose;

verus! {

/// A pointer through which a value is held.
#[derive(Clone, Copy, Debug, PartialEq, Eq, Structural)]
pub enum Pointer {
    /// `&T`.
    Ref,
    /// `&mut T`.
    RefMut,
    /// `Box<T>`.
    Owned,
    /// `Rc<T>`.
    Rc,
    /// `Arc<T>`.
    Arc,
}

/// The ways in which the context can be held when it is converted.
#[derive(Clone, Copy, Debug, PartialEq, Eq, Structural)]
pub enum OwnershipKind {
    Ref,
    RefMut,
    Owned,
    Rc,
    Arc,
    PinRefMut,
    PinOwned,
    PinRc,
    PinArc,
}

/// The number of ownership kinds.
pub const KIND_COUNT: usize = 9;

/// Which way a conversion goes.
#[derive(Clone, Copy, Debug, PartialEq, Eq, Structural)]
pub enum Direction {
    /// From the context to the wrapper.
    Inject,
    /// From the wrapper to the context.
    Project,
}

/// The wrapper, as its own impl names it.
pub const SELF_TYPE: &'static str = "Self";

/// The wrapper as the receiver of a projection.
pub const SELF_VALUE: &'static str = "self";

/// The context as the argument of an injection, and the payload field.
pub const DEPS_VALUE: &'static str = "deps";

/// A pinned pointer, up to the pointer.
pub const PIN_OPEN: &'static str = "::core::pin::Pin<";

/// An owning pointer, up to the pointee.
pub const BOX_OPEN: &'static str = "Box<";

/// A counted pointer of one thread, up to the pointee.
pub const RC_OPEN: &'static str = "::std::rc::Rc<";

/// A counted pointer shared between threads, up to the pointee.
pub const ARC_OPEN: &'static str = "::std::sync::Arc<";

/// Taking a pointer out of its pin, up to the pinned pointer.
pub const UNPIN_OPEN: &'static str = "::core::pin::Pin::into_inner_unchecked(";

/// Pinning a pointer again, up to the pointer.
pub const REPIN_OPEN: &'static str = "unsafe { ::core::pin::Pin::new_unchecked(";

/// The end of pinning a pointer again.
pub const REPIN_CLOSE: &'static str = ") }";

/// The start of the block around a cast.
pub const UNSAFE_OPEN: &'static str = "unsafe { ";

/// The end of the block around a cast.
pub const UNSAFE_CLOSE: &'static str = " }";

/// The cast to a raw pointer for reading, up to the pointee.
pub const CONST_PTR: &'static str = " as *const ";

/// The cast to a raw pointer for writing, up to the pointee.
pub const MUT_PTR: &'static str = " as *mut ";

/// Borrowing from a raw pointer again, up to the pointer.
pub const REBORROW_OPEN: &'static str = "&*(";

/// Borrowing mutably from a raw pointer again, up to the pointer.
pub const REBORROW_MUT_OPEN: &'static str = "&mut *(";

/// Taking an owning pointer apart and putting it together again, up to the pointer.
pub const BOX_RAW_OPEN: &'static str = "Box::from_raw(Box::into_raw(";

/// The same for a counted pointer of one thread.
pub const RC_RAW_OPEN: &'static str = "::std::rc::Rc::from_raw(::std::rc::Rc::into_raw(";

/// The same for a counted pointer shared between threads.
pub const ARC_RAW_OPEN: &'static str = "::std::sync::Arc::from_raw(::std::sync::Arc::into_raw(";

/// The start of every generated method, up to its name.
pub const METHOD_OPEN: &'static str = "#[inline] pub fn ";

/// What the name of an injection begins with.
pub const INJECT_PREFIX: &'static str = "inj_";

/// What the name of a projection begins with.
pub const PROJECT_PREFIX: &'static str = "prj_";

/// The method that moves a context into a new wrapper.
pub const INJ_ITEM: &'static str =
    "#[inline] pub fn inj(deps: __Deps__) -> Self { Self { _marker: ::core::marker::PhantomData, deps } }";

/// The method that moves the context out of the wrapper.
pub const PRJ_ITEM: &'static str = "#[inline] pub fn prj(self) -> __Deps__ { self.deps }";

/// The pointer of an ownership kind.
pub open spec fn kind_pointer(k: OwnershipKind) -> Pointer {
    match k {
        OwnershipKind::Ref => Pointer::Ref,
        OwnershipKind::RefMut | OwnershipKind::PinRefMut => Pointer::RefMut,
        OwnershipKind::Owned | OwnershipKind::PinOwned => Pointer::Owned,
        OwnershipKind::Rc | OwnershipKind::PinRc => Pointer::Rc,
        OwnershipKind::Arc | OwnershipKind::PinArc => Pointer::Arc,
    }
}

/// Whether the pointer of an ownership kind is pinned.
pub open spec fn kind_pinned(k: OwnershipKind) -> bool {
    match k {
        OwnershipKind::PinRefMut | OwnershipKind::PinOwned | OwnershipKind::PinRc
        | OwnershipKind::PinArc => true,
        _ => false,
    }
}

/// The ownership kinds in the order in which their conversions are written.
pub open spec fn kind_at(i: int) -> OwnershipKind {
    if i == 0 {
        OwnershipKind::Ref
    } else if i == 1 {
        OwnershipKind::RefMut
    } else if i == 2 {
        OwnershipKind::Owned
    } else if i == 3 {
        OwnershipKind::Rc
    } else if i == 4 {
        OwnershipKind::Arc
    } else if i == 5 {
        OwnershipKind::PinRefMut
    } else if i == 6 {
        OwnershipKind::PinOwned
    } else if i == 7 {
        OwnershipKind::PinRc
    } else {
        OwnershipKind::PinArc
    }
}

/// The place of an ownership kind in that order.
pub open spec fn kind_index(k: OwnershipKind) -> int {
    match k {
        OwnershipKind::Ref => 0,
        OwnershipKind::RefMut => 1,
        OwnershipKind::Owned => 2,
        OwnershipKind::Rc => 3,
        OwnershipKind::Arc => 4,
        OwnershipKind::PinRefMut => 5,
        OwnershipKind::PinOwned => 6,
        OwnershipKind::PinRc => 7,
        OwnershipKind::PinArc => 8,
    }
}

/// What the names of the two conversions of a kind end in.
pub open spec fn kind_suffix(k: OwnershipKind) -> Seq<char> {
    match k {
        OwnershipKind::Ref => "ref"@,
        OwnershipKind::RefMut => "ref_mut"@,
        OwnershipKind::Owned => "box"@,
        OwnershipKind::Rc => "rc"@,
        OwnershipKind::Arc => "arc"@,
        OwnershipKind::PinRefMut => "pin_ref_mut"@,
        OwnershipKind::PinOwned => "pin_box"@,
        OwnershipKind::PinRc => "pin_rc"@,
        OwnershipKind::PinArc => "pin_arc"@,
    }
}

/// The type of a pointer of kind `k` to a `pointee`.
pub open spec fn pointer_type(k: OwnershipKind, pointee: Seq<char>) -> Seq<char> {
    let plain = match kind_pointer(k) {
        Pointer::Ref => "&"@ + pointee,
        Pointer::RefMut => "&mut "@ + pointee,
        Pointer::Owned => BOX_OPEN@ + pointee + ">"@,
        Pointer::Rc => RC_OPEN@ + pointee + ">"@,
        Pointer::Arc => ARC_OPEN@ + pointee + ">"@,
    };
    if kind_pinned(k) {
        PIN_OPEN@ + plain + ">"@
    } else {
        plain
    }
}

/// The expression that turns `value`, a pointer of kind `k` to a `from`,
/// into the same pointer to a `to`: the pointer is taken out of its pin
/// where it has one, cast, and pinned again. Nothing is allocated, copied
/// or counted.
pub open spec fn reinterpret(k: OwnershipKind, value: Seq<char>, from: Seq<char>, to: Seq<char>) -> Seq<char> {
    let inner = if kind_pinned(k) {
        UNPIN_OPEN@ + value + ")"@
    } else {
        value
    };
    let cast = match kind_pointer(k) {
        Pointer::Ref => REBORROW_OPEN@ + inner + CONST_PTR@ + from + CONST_PTR@ + to + ")"@,
        Pointer::RefMut => REBORROW_MUT_OPEN@ + inner + MUT_PTR@ + from + MUT_PTR@ + to + ")"@,
        Pointer::Owned => BOX_RAW_OPEN@ + inner + ")"@ + MUT_PTR@ + to + ")"@,
        Pointer::Rc => RC_RAW_OPEN@ + inner + ")"@ + CONST_PTR@ + to + ")"@,
        Pointer::Arc => ARC_RAW_OPEN@ + inner + ")"@ + CONST_PTR@ + to + ")"@,
    };
    if kind_pinned(k) {
        REPIN_OPEN@ + cast + REPIN_CLOSE@
    } else {
        UNSAFE_OPEN@ + cast + UNSAFE_CLOSE@
    }
}

/// One conversion: its name, the type it takes and the type it gives, how
/// its one parameter is written, and its body.
pub ghost struct ConversionView {
    pub name: Seq<char>,
    pub takes: Seq<char>,
    pub gives: Seq<char>,
    pub param: Seq<char>,
    pub body: Seq<char>,
}

/// What a conversion's pointer points to before the conversion: the context
/// for an injection, the wrapper for a projection.
pub open spec fn pointee_before(d: Direction) -> Seq<char> {
    match d {
        Direction::Inject => DEPS@,
        Direction::Project => SELF_TYPE@,
    }
}

/// What a conversion's pointer points to after the conversion.
pub open spec fn pointee_after(d: Direction) -> Seq<char> {
    match d {
        Direction::Inject => SELF_TYPE@,
        Direction::Project => DEPS@,
    }
}

/// The name of the value that a conversion takes.
pub open spec fn converted_value(d: Direction) -> Seq<char> {
    match d {
        Direction::Inject => DEPS_VALUE@,
        Direction::Project => SELF_VALUE@,
    }
}

/// How the parameter of a conversion is written: the context is an
/// argument, the wrapper is the receiver.
pub open spec fn conversion_param(k: OwnershipKind, d: Direction) -> Seq<char> {
    match d {
        Direction::Inject => DEPS_VALUE@ + ": "@ + pointer_type(k, DEPS@),
        Direction::Project => match k {
            OwnershipKind::Ref => "&self"@,
            OwnershipKind::RefMut => "&mut self"@,
            _ => SELF_VALUE@ + ": "@ + pointer_type(k, SELF_TYPE@),
        },
    }
}

/// The conversion of kind `k` in direction `d`.
pub open spec fn conversion(k: OwnershipKind, d: Direction) -> ConversionView {
    ConversionView {
        name: match d {
            Direction::Inject => INJECT_PREFIX@ + kind_suffix(k),
            Direction::Project => PROJECT_PREFIX@ + kind_suffix(k),
        },
        takes: pointer_type(k, pointee_before(d)),
        gives: pointer_type(k, pointee_after(d)),
        param: conversion_param(k, d),
        body: reinterpret(k, converted_value(d), pointee_before(d), pointee_after(d)),
    }
}

/// The source text of a conversion.
pub open spec fn conversion_text(c: ConversionView) -> Seq<char> {
    METHOD_OPEN@ + c.name + "("@ + c.param + ") -> "@ + c.gives + " { "@ + c.body + " }"@
}

/// The conversions of all kinds: for each kind in turn its injection, then
/// its projection.
pub open spec fn conversion_family() -> Seq<Seq<char>> {
    Seq::new(
        2 * KIND_COUNT as nat,
        |i: int|
            conversion_text(
                conversion(
                    kind_at(i / 2),
                    if i % 2 == 0 {
                        Direction::Inject
                    } else {
                        Direction::Project
                    },
                ),
            ),
    )
}

/// The inherent impl on the wrapper `s`, named `target`, that holds the
/// conversions of all kinds. The dependency parameter stays as the wrapper
/// declares it, so that the conversions exist for every context.
pub open spec fn casting_impl(s: ItemStructView, target: Seq<char>) -> ItemImplView {
    ItemImplView {
        generics: s.generics,
        trait_path: None,
        self_ty: target,
        items: conversion_family(),
    }
}

/// The inherent impl on the wrapper `s`, named `target`, that moves the
/// context in and out by value, for which the context must be sized.
pub open spec fn by_value_impl(s: ItemStructView, target: Seq<char>) -> ItemImplView {
    ItemImplView {
        generics: with_last_param(s.generics, trailing_param(DEPS@, DepForm::Sized)),
        trait_path: None,
        self_ty: target,
        items: seq![INJ_ITEM@, PRJ_ITEM@],
    }
}

/// One conversion, with its pieces as text.
#[derive(Debug)]
pub struct Conversion {
    pub name: String,
    pub takes: String,
    pub gives: String,
    pub param: String,
    pub body: String,
}

impl View for Conversion {
    type V = ConversionView;

    open spec fn view(&self) -> ConversionView {
        ConversionView {
            name: self.name@,
            takes: self.takes@,
            gives: self.gives@,
            param: self.param@,
            body: self.body@,
        }
    }
}

/// The ownership kind at place `i` of the order in which the conversions
/// are written.
pub fn kind_of(i: usize) -> (r: OwnershipKind)
    requires
        i < KIND_COUNT,
    ensures
        r == kind_at(i as int),
        kind_index(r) == i,
{
    if i == 0 {
        OwnershipKind::Ref
    } else if i == 1 {
        OwnershipKind::RefMut
    } else if i == 2 {
        OwnershipKind::Owned
    } else if i == 3 {
        OwnershipKind::Rc
    } else if i == 4 {
        OwnershipKind::Arc
    } else if i == 5 {
        OwnershipKind::PinRefMut
    } else if i == 6 {
        OwnershipKind::PinOwned
    } else if i == 7 {
        OwnershipKind::PinRc
    } else {
        OwnershipKind::PinArc
    }
}

impl OwnershipKind {
    /// The pointer that the kind holds the value through.
    pub fn pointer(self) -> (r: Pointer)
        ensures
            r == kind_pointer(self),
    {
        match self {
            OwnershipKind::Ref => Pointer::Ref,
            OwnershipKind::RefMut | OwnershipKind::PinRefMut => Pointer::RefMut,
            OwnershipKind::Owned | OwnershipKind::PinOwned => Pointer::Owned,
            OwnershipKind::Rc | OwnershipKind::PinRc => Pointer::Rc,
            OwnershipKind::Arc | OwnershipKind::PinArc => Pointer::Arc,
        }
    }

    /// Whether the pointer is pinned.
    pub fn is_pinned(self) -> (r: bool)
        ensures
            r == kind_pinned(self),
    {
        match self {
            OwnershipKind::PinRefMut | OwnershipKind::PinOwned | OwnershipKind::PinRc
            | OwnershipKind::PinArc => true,
            _ => false,
        }
    }

    /// What the names of the kind's two conversions end in.
    pub fn suffix(self) -> (r: String)
        ensures
            r@ == kind_suffix(self),
    {
        match self {
            OwnershipKind::Ref => String::from_str("ref"),
            OwnershipKind::RefMut => String::from_str("ref_mut"),
            OwnershipKind::Owned => String::from_str("box"),
            OwnershipKind::Rc => String::from_str("rc"),
            OwnershipKind::Arc => String::from_str("arc"),
            OwnershipKind::PinRefMut => String::from_str("pin_ref_mut"),
            OwnershipKind::PinOwned => String::from_str("pin_box"),
            OwnershipKind::PinRc => String::from_str("pin_rc"),
            OwnershipKind::PinArc => String::from_str("pin_arc"),
        }
    }
}

/// Writes the type of a pointer of kind `k` to a `pointee`.
pub fn render_pointer_type(k: OwnershipKind, pointee: &str) -> (r: String)
    ensures
        r@ == pointer_type(k, pointee@),
{
    let plain = match k.pointer() {
        Pointer::Ref => {
            let mut out = String::from_str("&");
            out.append(pointee);
            out
        },
        Pointer::RefMut => {
            let mut out = String::from_str("&mut ");
            out.append(pointee);
            out
        },
        Pointer::Owned => enclose(BOX_OPEN, pointee, ">"),
        Pointer::Rc => enclose(RC_OPEN, pointee, ">"),
        Pointer::Arc => enclose(ARC_OPEN, pointee, ">"),
    };
    if k.is_pinned() {
        enclose(PIN_OPEN, plain.as_str(), ">")
    } else {
        plain
    }
}

/// Writes the cast of the pointer `inner` to a pointer to a `to`.
fn render_cast(p: Pointer, inner: &str, from: &str, to: &str) -> (r: String)
    ensures
        r@ == match p {
            Pointer::Ref => REBORROW_OPEN@ + inner@ + CONST_PTR@ + from@ + CONST_PTR@ + to@ + ")"@,
            Pointer::RefMut => REBORROW_MUT_OPEN@ + inner@ + MUT_PTR@ + from@ + MUT_PTR@ + to@
                + ")"@,
            Pointer::Owned => BOX_RAW_OPEN@ + inner@ + ")"@ + MUT_PTR@ + to@ + ")"@,
            Pointer::Rc => RC_RAW_OPEN@ + inner@ + ")"@ + CONST_PTR@ + to@ + ")"@,
            Pointer::Arc => ARC_RAW_OPEN@ + inner@ + ")"@ + CONST_PTR@ + to@ + ")"@,
        },
{
    match p {
        Pointer::Ref => {
            let mut out = String::from_str(REBORROW_OPEN);
            out.append(inner);
            out.append(CONST_PTR);
            out.append(from);
            out.append(CONST_PTR);
            out.append(to);
            out.append(")");
            out
        },
        Pointer::RefMut => {
            let mut out = String::from_str(REBORROW_MUT_OPEN);
            out.append(inner);
            out.append(MUT_PTR);
            out.append(from);
            out.append(MUT_PTR);
            out.append(to);
            out.append(")");
            out
        },
        Pointer::Owned => {
            let mut out = String::from_str(BOX_RAW_OPEN);
            out.append(inner);
            out.append(")");
            out.append(MUT_PTR);
            out.append(to);
            out.append(")");
            out
        },
        Pointer::Rc => {
            let mut out = String::from_str(RC_RAW_OPEN);
            out.append(inner);
            out.append(")");
            out.append(CONST_PTR);
            out.append(to);
            out.append(")");
            out
        },
        Pointer::Arc => {
            let mut out = String::from_str(ARC_RAW_OPEN);
            out.append(inner);
            out.append(")");
            out.append(CONST_PTR);
            out.append(to);
            out.append(")");
            out
        },
    }
}

/// Writes the expression that turns `value`, a pointer of kind `k` to a
/// `from`, into the same pointer to a `to`.
pub fn render_reinterpret(k: OwnershipKind, value: &str, from: &str, to: &str) -> (r: String)
    ensures
        r@ == reinterpret(k, value@, from@, to@),
{
    if k.is_pinned() {
        let inner = enclose(UNPIN_OPEN, value, ")");
        let cast = render_cast(k.pointer(), inner.as_str(), from, to);
        enclose(REPIN_OPEN, cast.as_str(), REPIN_CLOSE)
    } else {
        let cast = render_cast(k.pointer(), value, from, to);
        enclose(UNSAFE_OPEN, cast.as_str(), UNSAFE_CLOSE)
    }
}

impl Direction {
    /// What the pointer points to before the conversion.
    pub fn before(self) -> (r: &'static str)
        ensures
            r@ == pointee_before(self),
    {
        match self {
            Direction::Inject => DEPS,
            Direction::Project => SELF_TYPE,
        }
    }

    /// What the pointer points to after the conversion.
    pub fn after(self) -> (r: &'static str)
        ensures
            r@ == pointee_after(self),
    {
        match self {
            Direction::Inject => SELF_TYPE,
            Direction::Project => DEPS,
        }
    }
}

/// Writes the parameter of a conversion.
fn render_param(k: OwnershipKind, d: Direction) -> (r: String)
    ensures
        r@ == conversion_param(k, d),
{
    match d {
        Direction::Inject => enclose(DEPS_VALUE, ": ", render_pointer_type(k, DEPS).as_str()),
        Direction::Project => match k {
            OwnershipKind::Ref => String::from_str("&self"),
            OwnershipKind::RefMut => String::from_str("&mut self"),
            _ => enclose(SELF_VALUE, ": ", render_pointer_type(k, SELF_TYPE).as_str()),
        },
    }
}

/// Builds the conversion of kind `k` in direction `d`.
pub fn make_conversion(k: OwnershipKind, d: Direction) -> (r: Conversion)
    ensures
        r@ == conversion(k, d),
{
    let suffix = k.suffix();
    let (name, value) = match d {
        Direction::Inject => (String::from_str(INJECT_PREFIX).concat(suffix.as_str()), DEPS_VALUE),
        Direction::Project => (
            String::from_str(PROJECT_PREFIX).concat(suffix.as_str()),
            SELF_VALUE,
        ),
    };
    Conversion {
        name,
        takes: render_pointer_type(k, d.before()),
        gives: render_pointer_type(k, d.after()),
        param: render_param(k, d),
        body: render_reinterpret(k, value, d.before(), d.after()),
    }
}

/// Writes a conversion as a method.
pub fn render_conversion(c: &Conversion) -> (r: String)
    ensures
        r@ == conversion_text(c@),
{
    let mut out = String::from_str(METHOD_OPEN);
    out.append(c.name.as_str());
    out.append("(");
    out.append(c.param.as_str());
    out.append(") -> ");
    out.append(c.gives.as_str());
    out.append(" { ");
    out.append(c.body.as_str());
    out.append(" }");
    out
}

/// Builds the impl that holds the conversions of every ownership kind, each
/// injection followed by its projection.
pub fn target_impl_ref_casting(target_struct: &ItemStruct, target_type: &str) -> (r: ItemImpl)
    ensures
        r@ == casting_impl(target_struct@, target_type@),
{
    let mut items: Vec<String> = Vec::new();
    let mut i: usize = 0;
    while i < KIND_COUNT
        invariant
            i <= KIND_COUNT,
            items.len() == 2 * i,
            forall|j: int| 0 <= j < 2 * i ==> #[trigger] items[j]@ == conversion_family()[j],
        decreases KIND_COUNT - i,
    {
        let k = kind_of(i);
        let inject = make_conversion(k, Direction::Inject);
        let project = make_conversion(k, Direction::Project);
        items.push(render_conversion(&inject));
        items.push(render_conversion(&project));
        i = i + 1;
    }
    assert(text_views(items@) =~= conversion_family());
    ItemImpl {
        generics: clone_generics(&target_struct.generics),
        trait_path: None,
        self_ty: String::from_str(target_type),
        items,
    }
}

/// Builds the impl that moves the context into the wrapper and out of it by
/// value. The wrapper must have its dependency parameter, which the impl
/// declares as sized.
pub fn target_impl_new(target_struct: &ItemStruct, target_type: &str) -> (r: ItemImpl)
    requires
        target_struct@.generics.params.len() > 0,
    ensures
        r@ == by_value_impl(target_struct@, target_type@),
{
    let mut generics = clone_generics(&target_struct.generics);
    set_last_param(&mut generics, make_trailing_param(DEPS, DepForm::Sized));
    let mut items: Vec<String> = Vec::new();
    items.push(String::from_str(INJ_ITEM));
    items.push(String::from_str(PRJ_ITEM));
    assert(text_views(items@) =~= seq![INJ_ITEM@, PRJ_ITEM@]);
    ItemImpl { generics, trait_path: None, self_ty: String::from_str(target_type), items }
}

/// Every ownership kind has its pair of conversions in the family, the
/// injection directly in front of its own projection, and the two mirror
/// each other: the projection takes the type that the injection gives, gives
/// the type that the injection takes, and reinterprets the pointer the other
/// way round.
pub proof fn conversions_are_paired(k: OwnershipKind)
    ensures
        0 <= kind_index(k) < KIND_COUNT,
        kind_at(kind_index(k)) == k,
        conversion_family()[2 * kind_index(k)] == conversion_text(
            conversion(k, Direction::Inject),
        ),
        conversion_family()[2 * kind_index(k) + 1] == conversion_text(
            conversion(k, Direction::Project),
        ),
        conversion(k, Direction::Project).takes == conversion(k, Direction::Inject).gives,
        conversion(k, Direction::Project).gives == conversion(k, Direction::Inject).takes,
        conversion(k, Direction::Inject).body == reinterpret(k, DEPS_VALUE@, DEPS@, SELF_TYPE@),
        conversion(k, Direction::Project).body == reinterpret(k, SELF_VALUE@, SELF_TYPE@, DEPS@),
{
    let i = kind_index(k);
    assert((2 * i) / 2 == i && (2 * i) % 2 == 0);
    assert((2 * i + 1) / 2 == i && (2 * i + 1) % 2 == 1);
}

/// The family holds nothing but those pairs: each of its places belongs to
/// one kind, and the kind decides what stands there.
pub proof fn family_is_made_of_pairs(i: int)
    requires
        0 <= i < 2 * KIND_COUNT,
    ensures
        kind_index(kind_at(i / 2)) == i / 2,
        i % 2 == 0 ==> conversion_family()[i] == conversion_text(
            conversion(kind_at(i / 2), Direction::Inject),
        ),
        i % 2 == 1 ==> conversion_family()[i] == conversion_text(
            conversion(kind_at(i / 2), Direction::Project),
        ),
{
}

/// The conversions of all kinds are there whatever the context is: their
/// impl has no guard of its own, and leaves the dependency parameter as the
/// wrapper declares it.
pub proof fn conversions_are_unconditional(s: ItemStructView, target: Seq<char>)
    ensures
        casting_impl(s, target).generics == s.generics,
        casting_impl(s, target).trait_path is None,
        casting_impl(s, target).items.len() == 2 * KIND_COUNT,
        by_value_impl(s, target).generics.where_predicates == s.generics.where_predicates,
        by_value_impl(s, target).trait_path is None,
{
}

} // verus!
