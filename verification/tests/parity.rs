use dep_inj::parity::{EvenApp, EvenState, GlobalStruct, IsEven, OddState};
use dep_inj::world::{Container, ContainerRef, TheWorld};

#[test]
fn it_works() {
    let mut ctx = Container::default();
    assert!(ctx.is_odd(11));
    assert_eq!(ctx.odd_state().count(), 6);
    assert_eq!(ctx.even_state().count(), 5);

    assert!(ctx.is_even(12));
    assert_eq!(ctx.odd_state().count(), 12);
    assert_eq!(ctx.even_state().count(), 11);
}

#[test]
fn container_answers_about_zero_without_counting() {
    let mut ctx = Container::new();
    assert!(ctx.is_even(0));
    assert!(!ctx.is_odd(0));
    assert_eq!(ctx.even_state().count(), 0);
    assert_eq!(ctx.odd_state().count(), 0);
    assert!(ctx.is_odd(1));
    assert_eq!(ctx.odd_state().count(), 1);
    assert_eq!(ctx.even_state().count(), 0);
    assert!(!ctx.is_even(1));
    assert_eq!(ctx.even_state().count(), 1);
    assert_eq!(ctx.odd_state().count(), 1);
}

#[test]
fn container_counts_questions_above_zero() {
    let mut ctx = Container::new();
    assert!(!ctx.is_odd(4));
    // odd(4), even(3), odd(2), even(1) are counted, odd(0) is not
    assert_eq!(ctx.odd_state().count(), 2);
    assert_eq!(ctx.even_state().count(), 2);
    let mut ctx = Container::new();
    assert!(!ctx.is_even(5));
    // even(5), odd(4), even(3), odd(2), even(1) are counted
    assert_eq!(ctx.even_state().count(), 3);
    assert_eq!(ctx.odd_state().count(), 2);
}

#[test]
fn container_parity_of_small_numbers() {
    let mut n: u64 = 0;
    while n < 40 {
        let mut ctx = Container::new();
        assert_eq!(ctx.is_even(n), n % 2 == 0);
        assert_eq!(ctx.is_odd(n), n % 2 == 1);
        n += 1;
    }
}

#[test]
fn services_ask_each_other_down_to_zero() {
    let mut ctx = GlobalStruct::default();
    assert!(ctx.is_odd(11));
    // odd(11), even(10), .., odd(1), even(0)
    assert_eq!(ctx.odd_state().count(), 6);
    assert_eq!(ctx.even_state().count(), 6);
    assert!(ctx.is_even(12));
    // even(12), odd(11), .., odd(1), even(0)
    assert_eq!(ctx.even_state().count(), 6 + 7);
    assert_eq!(ctx.odd_state().count(), 6 + 6);
}

#[test]
fn the_odd_service_asks_about_zero() {
    let mut ctx = GlobalStruct::new();
    assert!(ctx.is_odd(1));
    assert_eq!(ctx.odd_state().count(), 1);
    assert_eq!(ctx.even_state().count(), 1);
}

#[test]
fn zero_is_even_and_not_odd() {
    let mut ctx = GlobalStruct::new();
    assert!(ctx.is_even(0));
    assert_eq!(ctx.even_state().count(), 1);
    assert_eq!(ctx.odd_state().count(), 0);
    assert!(!ctx.is_odd(0));
    assert_eq!(ctx.even_state().count(), 1);
    assert_eq!(ctx.odd_state().count(), 1);
}

#[test]
fn parity_of_small_numbers() {
    let mut n: u64 = 0;
    while n < 40 {
        let mut ctx = GlobalStruct::new();
        assert_eq!(ctx.is_even(n), n % 2 == 0);
        assert_eq!(ctx.is_odd(n), n % 2 == 1);
        n += 1;
    }
}

#[test]
fn odd_question_counts() {
    let mut ctx = GlobalStruct::new();
    assert!(!ctx.is_odd(4));
    // odd(4), even(3), odd(2), even(1), odd(0)
    assert_eq!(ctx.odd_state().count(), 3);
    assert_eq!(ctx.even_state().count(), 2);
}

#[test]
fn even_question_counts() {
    let mut ctx = GlobalStruct::new();
    assert!(!ctx.is_even(5));
    // even(5), odd(4), even(3), odd(2), even(1), odd(0)
    assert_eq!(ctx.even_state().count(), 3);
    assert_eq!(ctx.odd_state().count(), 3);
}

#[test]
fn emit_count_hands_out_the_even_count() {
    let mut ctx = GlobalStruct::new();
    assert!(ctx.is_even(6));
    let mut seen = 0;
    ctx.emit_count(|c| seen = c);
    assert_eq!(seen, 4);
}

#[test]
fn wrapper_round_trip_by_value() {
    let mut ctx = GlobalStruct::new();
    assert!(ctx.is_odd(3));
    let app = EvenApp::inj(ctx);
    assert_eq!(app.deref().count(), 2);
    assert_eq!(app.into_ref().odd_state().count(), 2);
    let back = app.prj();
    assert_eq!(back.even_state().count(), 2);
    assert_eq!(back.odd_state().count(), 2);
}

#[test]
fn wrapper_dereferences_to_the_state_in_its_context() {
    let app = EvenApp::inj(GlobalStruct::new());
    assert!(std::ptr::eq(app.deref(), app.into_ref().even_state()));
    let counted = std::rc::Rc::new(7u32);
    let wrapped = EvenApp::inj(counted.clone());
    assert!(std::rc::Rc::ptr_eq(wrapped.into_ref(), &counted));
    let back = wrapped.prj();
    assert!(std::rc::Rc::ptr_eq(&back, &counted));
    assert_eq!(std::rc::Rc::strong_count(&counted), 2);
    assert_eq!(*back, 7);
}

#[test]
fn wrapper_keeps_a_shared_context_shared() {
    let shared = std::sync::Arc::new(GlobalStruct::new());
    let wrapped = EvenApp::inj(shared.clone());
    assert_eq!(std::sync::Arc::strong_count(&shared), 2);
    let back = wrapped.prj();
    assert!(std::sync::Arc::ptr_eq(&back, &shared));
    assert_eq!(std::sync::Arc::strong_count(&shared), 2);
}

#[test]
fn the_wrapper_answers_for_the_service() {
    let mut app = EvenApp::inj(GlobalStruct::new());
    assert!(app.is_even(12));
    assert!(!app.is_even(7));
    let mut seen = 0;
    app.emit_count(|c| seen = c);
    assert_eq!(seen, 7 + 4);
    let ctx = app.prj();
    assert_eq!(ctx.even_state().count(), 11);
    assert_eq!(ctx.odd_state().count(), 6 + 4);
}

#[test]
fn container_ref_projects_each_component() {
    let mut ctx = Container::new();
    assert!(ctx.is_odd(11));
    let for_even: ContainerRef<EvenState, Container> = ContainerRef::new(Box::new(ctx));
    assert_eq!(for_even.deref().count(), 5);
    let world = for_even.the_world();
    let odd: &OddState = world.project();
    assert_eq!(odd.count(), 6);
    let even: &EvenState = world.project();
    assert_eq!(even.count(), 5);
}

#[test]
fn fresh_states_start_at_zero() {
    assert_eq!(EvenState::default().count(), 0);
    assert_eq!(OddState::default().count(), 0);
    assert_eq!(EvenState::new().count(), 0);
    assert_eq!(OddState::new().count(), 0);
}

#[test]
fn a_handle_holds_its_own_copy_of_the_context() {
    let mut ctx = Container::new();
    assert!(ctx.is_odd(11));
    let for_even: ContainerRef<EvenState, Container> = ctx.as_ref();
    let for_odd: ContainerRef<OddState, Container> = ctx.as_ref();
    assert!(ctx.is_even(12));
    assert_eq!(for_even.deref().count(), 5);
    assert_eq!(for_odd.deref().count(), 6);
    assert_eq!(ctx.even_state().count(), 11);
}

#[test]
fn a_cloned_handle_reads_the_same() {
    let mut ctx = Container::new();
    assert!(ctx.is_even(8));
    let handle: ContainerRef<EvenState, Container> = ContainerRef::new(Box::new(ctx));
    let twin = handle.clone();
    assert_eq!(twin.deref().count(), handle.deref().count());
    assert_eq!(twin.the_world().odd_state().count(), 4);
    assert!(!std::ptr::eq(twin.the_world(), handle.the_world()));
}

#[test]
fn cloned_states_keep_their_counts() {
    let mut ctx = Container::new();
    assert!(ctx.is_odd(5));
    let copy = ctx.clone();
    assert_eq!(copy.even_state().count(), 2);
    assert_eq!(copy.odd_state().clone().count(), 3);
    assert_eq!(copy.even_state().clone().count(), 2);
}
