//! A context seen as the home of one component: whoever holds the context
//! reaches the component through it. `Container` is such a context for the
//! state of the two services that need each other.

use vstd::prelude::*;
use core::marker::PhantomData;
use crate::parity::{EvenState, OddState};

verus! {

/// A context that holds a `Component`.
pub trait TheWorld<Component> {
    /// The component that the context holds.
    spec fn component(&self) -> Component;

    /// The component in the context.
    fn project(&self) -> (r: &Component)
        ensures
            *r == self.component(),
    ;
}

/// A handle on a context, for the holder of one of its components.
pub struct ContainerRef<Component, World: TheWorld<Component>> {
    the_world: Box<World>,
    _dummy: PhantomData<Component>,
}

impl<Component, World: TheWorld<Component>> View for ContainerRef<Component, World> {
    type V = World;

    closed spec fn view(&self) -> World {
        *self.the_world
    }
}

impl<Component, World: TheWorld<Component>> ContainerRef<Component, World> {
    /// A handle on `the_world`.
    pub fn new(the_world: Box<World>) -> (r: Self)
        ensures
            r@ == *the_world,
    {
        Self { the_world, _dummy: PhantomData }
    }

    /// The context behind the handle.
    pub fn the_world(&self) -> (r: &World)
        ensures
            *r == self@,
    {
        &*self.the_world
    }

    /// The component that the handle is for, as the context holds it.
    pub fn deref(&self) -> (r: &Component)
        ensures
            *r == self@.component(),
    {
        self.the_world.project()
    }
}

/// Calls `dyn_clone::clone_box`, which clones the value behind the reference
/// with its own `Clone::clone` and puts the clone in a new box. The contract
/// says that much: what is in the box is a clone of `world`.
#[verifier::external_body]
fn clone_box<World: Clone>(world: &World) -> (r: Box<World>)
    ensures
        cloned(*world, *r),
{
    dyn_clone::clone_box(world)
}

impl<Component, World: TheWorld<Component> + Clone> Clone for ContainerRef<Component, World> {
    /// A handle on a clone of the context.
    fn clone(&self) -> (r: Self)
        ensures
            cloned(self@, r@),
    {
        Self { the_world: clone_box(&*self.the_world), _dummy: PhantomData }
    }
}

/// A context that holds the state of both services, answers for both, and
/// hands out handles on itself. Each of its services counts the questions
/// about numbers above zero; one about zero it answers at once.
#[derive(Debug)]
pub struct Container {
    even_state: EvenState,
    odd_state: OddState,
}

/// How often a service of a `Container` counts when it is asked about `n`.
pub open spec fn counted_by_asked(n: u64) -> nat {
    ((n + 1) / 2) as nat
}

/// How often the other service of a `Container` counts meanwhile.
pub open spec fn counted_by_other(n: u64) -> nat {
    (n / 2) as nat
}

impl Container {
    /// A context whose services have counted nothing yet.
    pub fn new() -> (r: Self)
        ensures
            r.even_asked() == 0,
            r.odd_asked() == 0,
    {
        Container { even_state: EvenState::new(), odd_state: OddState::new() }
    }

    /// How many questions the service for even numbers has counted.
    pub closed spec fn even_asked(&self) -> nat {
        self.even_state@
    }

    /// How many questions the service for odd numbers has counted.
    pub closed spec fn odd_asked(&self) -> nat {
        self.odd_state@
    }

    /// The state of the service for even numbers.
    pub closed spec fn even_state_ref(&self) -> &EvenState {
        &self.even_state
    }

    /// The state of the service for odd numbers.
    pub closed spec fn odd_state_ref(&self) -> &OddState {
        &self.odd_state
    }

    /// The state of the service for even numbers.
    #[verifier::when_used_as_spec(even_state_ref)]
    pub fn even_state(&self) -> (r: &EvenState)
        ensures
            r == self.even_state_ref(),
            r@ == self.even_asked(),
    {
        &self.even_state
    }

    /// The state of the service for odd numbers.
    #[verifier::when_used_as_spec(odd_state_ref)]
    pub fn odd_state(&self) -> (r: &OddState)
        ensures
            r == self.odd_state_ref(),
            r@ == self.odd_asked(),
    {
        &self.odd_state
    }

    /// A handle on a copy of this context, for the holder of `Component`.
    pub fn as_ref<Component>(&self) -> (r: ContainerRef<Component, Container>) where
        Container: TheWorld<Component>,

        ensures
            r@ == *self,
    {
        ContainerRef::new(clone_box(self))
    }

    /// Whether `n` is even. The counters must have room for the questions.
    pub fn is_even(&mut self, n: u64) -> (r: bool)
        requires
            old(self).even_asked() + counted_by_asked(n) <= usize::MAX,
            old(self).odd_asked() + counted_by_other(n) <= usize::MAX,
        ensures
            r == (n % 2 == 0),
            final(self).even_asked() == old(self).even_asked() + counted_by_asked(n),
            final(self).odd_asked() == old(self).odd_asked() + counted_by_other(n),
        decreases n,
    {
        if n == 0 {
            return true;
        }
        self.even_state.record();
        self.is_odd((n - 1) as u64)
    }

    /// Whether `n` is odd. The counters must have room for the questions.
    pub fn is_odd(&mut self, n: u64) -> (r: bool)
        requires
            old(self).odd_asked() + counted_by_asked(n) <= usize::MAX,
            old(self).even_asked() + counted_by_other(n) <= usize::MAX,
        ensures
            r == (n % 2 == 1),
            final(self).odd_asked() == old(self).odd_asked() + counted_by_asked(n),
            final(self).even_asked() == old(self).even_asked() + counted_by_other(n),
        decreases n,
    {
        if n == 0 {
            return false;
        }
        self.odd_state.record();
        self.is_even((n - 1) as u64)
    }
}

impl Clone for Container {
    fn clone(&self) -> (r: Self)
        ensures
            r == *self,
    {
        Container { even_state: self.even_state.clone(), odd_state: self.odd_state.clone() }
    }
}

impl Default for Container {
    fn default() -> (r: Self)
        ensures
            r.even_asked() == 0,
            r.odd_asked() == 0,
    {
        Container::new()
    }
}

impl TheWorld<EvenState> for Container {
    open spec fn component(&self) -> EvenState {
        *self.even_state_ref()
    }

    fn project(&self) -> (r: &EvenState) {
        self.even_state()
    }
}

impl TheWorld<OddState> for Container {
    open spec fn component(&self) -> OddState {
        *self.odd_state_ref()
    }

    fn project(&self) -> (r: &OddState) {
        self.odd_state()
    }
}

} // verus!
