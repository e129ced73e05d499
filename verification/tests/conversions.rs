use dep_inj::convert::{
    kind_of, make_conversion, render_conversion, render_pointer_type, render_reinterpret,
    target_impl_new, target_impl_ref_casting, Direction, OwnershipKind, Pointer, KIND_COUNT,
};
use dep_inj::items::{render_impl, ItemStruct};
use dep_inj::model::{DeriveInput, Generics};
use dep_inj::wrapper::target_struct_named;

fn counter_facade() -> ItemStruct {
    let input = DeriveInput {
        attrs: vec![],
        vis: String::from("pub"),
        ident: String::from("Counter"),
        generics: Generics { params: vec![], where_predicates: vec![] },
    };
    target_struct_named(&input, "Counter", String::from("CounterFacade"))
}

fn method(k: OwnershipKind, d: Direction) -> String {
    render_conversion(&make_conversion(k, d))
}

#[test]
fn kinds_in_their_order() {
    assert_eq!(KIND_COUNT, 9);
    let expected = [
        (OwnershipKind::Ref, Pointer::Ref, false, "ref"),
        (OwnershipKind::RefMut, Pointer::RefMut, false, "ref_mut"),
        (OwnershipKind::Owned, Pointer::Owned, false, "box"),
        (OwnershipKind::Rc, Pointer::Rc, false, "rc"),
        (OwnershipKind::Arc, Pointer::Arc, false, "arc"),
        (OwnershipKind::PinRefMut, Pointer::RefMut, true, "pin_ref_mut"),
        (OwnershipKind::PinOwned, Pointer::Owned, true, "pin_box"),
        (OwnershipKind::PinRc, Pointer::Rc, true, "pin_rc"),
        (OwnershipKind::PinArc, Pointer::Arc, true, "pin_arc"),
    ];
    for (i, (kind, pointer, pinned, suffix)) in expected.into_iter().enumerate() {
        let k = kind_of(i);
        assert_eq!(k, kind);
        assert_eq!(k.pointer(), pointer);
        assert_eq!(k.is_pinned(), pinned);
        assert_eq!(k.suffix(), suffix);
    }
}

#[test]
fn pointer_types() {
    assert_eq!(render_pointer_type(OwnershipKind::Ref, "T"), "&T");
    assert_eq!(render_pointer_type(OwnershipKind::RefMut, "T"), "&mut T");
    assert_eq!(render_pointer_type(OwnershipKind::Owned, "T"), "Box<T>");
    assert_eq!(render_pointer_type(OwnershipKind::Rc, "T"), "::std::rc::Rc<T>");
    assert_eq!(render_pointer_type(OwnershipKind::Arc, "T"), "::std::sync::Arc<T>");
    assert_eq!(render_pointer_type(OwnershipKind::PinRefMut, "T"), "::core::pin::Pin<&mut T>");
    assert_eq!(render_pointer_type(OwnershipKind::PinOwned, "T"), "::core::pin::Pin<Box<T>>");
    assert_eq!(
        render_pointer_type(OwnershipKind::PinRc, "T"),
        "::core::pin::Pin<::std::rc::Rc<T>>"
    );
    assert_eq!(
        render_pointer_type(OwnershipKind::PinArc, "T"),
        "::core::pin::Pin<::std::sync::Arc<T>>"
    );
}

#[test]
fn reinterpretation_of_plain_pointers() {
    assert_eq!(
        render_reinterpret(OwnershipKind::Ref, "v", "A", "B"),
        "unsafe { &*(v as *const A as *const B) }"
    );
    assert_eq!(
        render_reinterpret(OwnershipKind::RefMut, "v", "A", "B"),
        "unsafe { &mut *(v as *mut A as *mut B) }"
    );
    assert_eq!(
        render_reinterpret(OwnershipKind::Owned, "v", "A", "B"),
        "unsafe { Box::from_raw(Box::into_raw(v) as *mut B) }"
    );
    assert_eq!(
        render_reinterpret(OwnershipKind::Rc, "v", "A", "B"),
        "unsafe { ::std::rc::Rc::from_raw(::std::rc::Rc::into_raw(v) as *const B) }"
    );
    assert_eq!(
        render_reinterpret(OwnershipKind::Arc, "v", "A", "B"),
        "unsafe { ::std::sync::Arc::from_raw(::std::sync::Arc::into_raw(v) as *const B) }"
    );
}

#[test]
fn reinterpretation_of_pinned_pointers() {
    assert_eq!(
        render_reinterpret(OwnershipKind::PinRefMut, "v", "A", "B"),
        "unsafe { ::core::pin::Pin::new_unchecked(&mut *(::core::pin::Pin::into_inner_unchecked(v) as *mut A as *mut B)) }"
    );
    assert_eq!(
        render_reinterpret(OwnershipKind::PinOwned, "v", "A", "B"),
        "unsafe { ::core::pin::Pin::new_unchecked(Box::from_raw(Box::into_raw(::core::pin::Pin::into_inner_unchecked(v)) as *mut B)) }"
    );
    assert_eq!(
        render_reinterpret(OwnershipKind::PinRc, "v", "A", "B"),
        "unsafe { ::core::pin::Pin::new_unchecked(::std::rc::Rc::from_raw(::std::rc::Rc::into_raw(::core::pin::Pin::into_inner_unchecked(v)) as *const B)) }"
    );
    assert_eq!(
        render_reinterpret(OwnershipKind::PinArc, "v", "A", "B"),
        "unsafe { ::core::pin::Pin::new_unchecked(::std::sync::Arc::from_raw(::std::sync::Arc::into_raw(::core::pin::Pin::into_inner_unchecked(v)) as *const B)) }"
    );
}

#[test]
fn reference_pair() {
    assert_eq!(
        method(OwnershipKind::Ref, Direction::Inject),
        "#[inline] pub fn inj_ref(deps: &__Deps__) -> &Self { unsafe { &*(deps as *const __Deps__ as *const Self) } }"
    );
    assert_eq!(
        method(OwnershipKind::Ref, Direction::Project),
        "#[inline] pub fn prj_ref(&self) -> &__Deps__ { unsafe { &*(self as *const Self as *const __Deps__) } }"
    );
    assert_eq!(
        method(OwnershipKind::RefMut, Direction::Inject),
        "#[inline] pub fn inj_ref_mut(deps: &mut __Deps__) -> &mut Self { unsafe { &mut *(deps as *mut __Deps__ as *mut Self) } }"
    );
    assert_eq!(
        method(OwnershipKind::RefMut, Direction::Project),
        "#[inline] pub fn prj_ref_mut(&mut self) -> &mut __Deps__ { unsafe { &mut *(self as *mut Self as *mut __Deps__) } }"
    );
}

#[test]
fn shared_pointer_pair() {
    assert_eq!(
        method(OwnershipKind::Arc, Direction::Inject),
        "#[inline] pub fn inj_arc(deps: ::std::sync::Arc<__Deps__>) -> ::std::sync::Arc<Self> { unsafe { ::std::sync::Arc::from_raw(::std::sync::Arc::into_raw(deps) as *const Self) } }"
    );
    assert_eq!(
        method(OwnershipKind::Arc, Direction::Project),
        "#[inline] pub fn prj_arc(self: ::std::sync::Arc<Self>) -> ::std::sync::Arc<__Deps__> { unsafe { ::std::sync::Arc::from_raw(::std::sync::Arc::into_raw(self) as *const __Deps__) } }"
    );
    assert_eq!(
        method(OwnershipKind::Rc, Direction::Project),
        "#[inline] pub fn prj_rc(self: ::std::rc::Rc<Self>) -> ::std::rc::Rc<__Deps__> { unsafe { ::std::rc::Rc::from_raw(::std::rc::Rc::into_raw(self) as *const __Deps__) } }"
    );
    assert_eq!(
        method(OwnershipKind::Owned, Direction::Inject),
        "#[inline] pub fn inj_box(deps: Box<__Deps__>) -> Box<Self> { unsafe { Box::from_raw(Box::into_raw(deps) as *mut Self) } }"
    );
}

#[test]
fn pinned_pair() {
    assert_eq!(
        method(OwnershipKind::PinOwned, Direction::Inject),
        "#[inline] pub fn inj_pin_box(deps: ::core::pin::Pin<Box<__Deps__>>) -> ::core::pin::Pin<Box<Self>> { unsafe { ::core::pin::Pin::new_unchecked(Box::from_raw(Box::into_raw(::core::pin::Pin::into_inner_unchecked(deps)) as *mut Self)) } }"
    );
    assert_eq!(
        method(OwnershipKind::PinRefMut, Direction::Project),
        "#[inline] pub fn prj_pin_ref_mut(self: ::core::pin::Pin<&mut Self>) -> ::core::pin::Pin<&mut __Deps__> { unsafe { ::core::pin::Pin::new_unchecked(&mut *(::core::pin::Pin::into_inner_unchecked(self) as *mut Self as *mut __Deps__)) } }"
    );
}

#[test]
fn every_projection_mirrors_its_injection() {
    for i in 0..KIND_COUNT {
        let k = kind_of(i);
        let inject = make_conversion(k, Direction::Inject);
        let project = make_conversion(k, Direction::Project);
        assert_eq!(project.takes, inject.gives);
        assert_eq!(project.gives, inject.takes);
        assert_eq!(inject.name, format!("inj_{}", k.suffix()));
        assert_eq!(project.name, format!("prj_{}", k.suffix()));
        assert_eq!(inject.takes, render_pointer_type(k, "__Deps__"));
        assert_eq!(inject.gives, render_pointer_type(k, "Self"));
        assert_eq!(inject.body, render_reinterpret(k, "deps", "__Deps__", "Self"));
        assert_eq!(project.body, render_reinterpret(k, "self", "Self", "__Deps__"));
        assert_eq!(Direction::Inject.before(), Direction::Project.after());
        assert_eq!(Direction::Inject.after(), Direction::Project.before());
    }
}

#[test]
fn the_family_holds_each_pair_once() {
    let s = counter_facade();
    let i = target_impl_ref_casting(&s, "CounterFacade<__Deps__>");
    assert_eq!(i.items.len(), 2 * KIND_COUNT);
    for n in 0..KIND_COUNT {
        let k = kind_of(n);
        assert_eq!(i.items[2 * n], method(k, Direction::Inject));
        assert_eq!(i.items[2 * n + 1], method(k, Direction::Project));
    }
    assert!(i.trait_path.is_none());
    assert_eq!(i.self_ty, "CounterFacade<__Deps__>");
    assert_eq!(i.generics.params.len(), 1);
    assert_eq!(i.generics.params[0].bounds, "?Sized");
    assert!(i.generics.where_predicates.is_empty());
    let text = render_impl(&i);
    assert!(text.starts_with("impl<__Deps__: ?Sized> CounterFacade<__Deps__> { #[inline] pub fn inj_ref("));
}

#[test]
fn by_value_pair_needs_a_sized_context() {
    let s = counter_facade();
    let i = target_impl_new(&s, "CounterFacade<__Deps__>");
    assert_eq!(
        render_impl(&i),
        "impl<__Deps__> CounterFacade<__Deps__> { #[inline] pub fn inj(deps: __Deps__) -> Self { Self { _marker: ::core::marker::PhantomData, deps } } #[inline] pub fn prj(self) -> __Deps__ { self.deps } }"
    );
}
