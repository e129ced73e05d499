//! Two services that need each other: whether a number is even is asked of
//! the service that knows odd numbers, and the other way round. Each keeps
//! count of the questions it was asked. The state of both lives in one
//! context; a wrapper around the context gives each service its own face.

use vstd::prelude::*;

verus! {

/// The state of the service for even numbers: how often it was asked.
#[derive(Debug)]
pub struct EvenState {
    count: usize,
}

/// The state of the service for odd numbers: how often it was asked.
#[derive(Debug)]
pub struct OddState {
    count: usize,
}

impl View for EvenState {
    type V = nat;

    closed spec fn view(&self) -> nat {
        self.count as nat
    }
}

impl View for OddState {
    type V = nat;

    closed spec fn view(&self) -> nat {
        self.count as nat
    }
}

impl EvenState {
    /// A service that has not been asked yet.
    pub fn new() -> (r: Self)
        ensures
            r@ == 0,
    {
        EvenState { count: 0 }
    }

    /// How often the service was asked.
    pub fn count(&self) -> (r: usize)
        ensures
            r == self@,
    {
        self.count
    }

    /// Counts one more question.
    pub(crate) fn record(&mut self)
        requires
            old(self)@ < usize::MAX,
        ensures
            final(self)@ == old(self)@ + 1,
    {
        self.count = self.count + 1;
    }
}

impl Clone for EvenState {
    fn clone(&self) -> (r: Self)
        ensures
            r == *self,
    {
        EvenState { count: self.count }
    }
}

impl Default for EvenState {
    fn default() -> (r: Self)
        ensures
            r@ == 0,
    {
        EvenState::new()
    }
}

impl OddState {
    /// A service that has not been asked yet.
    pub fn new() -> (r: Self)
        ensures
            r@ == 0,
    {
        OddState { count: 0 }
    }

    /// How often the service was asked.
    pub fn count(&self) -> (r: usize)
        ensures
            r == self@,
    {
        self.count
    }

    /// Counts one more question.
    pub(crate) fn record(&mut self)
        requires
            old(self)@ < usize::MAX,
        ensures
            final(self)@ == old(self)@ + 1,
    {
        self.count = self.count + 1;
    }
}

impl Clone for OddState {
    fn clone(&self) -> (r: Self)
        ensures
            r == *self,
    {
        OddState { count: self.count }
    }
}

impl Default for OddState {
    fn default() -> (r: Self)
        ensures
            r@ == 0,
    {
        OddState::new()
    }
}

/// A context that holds the state of the service for even numbers.
pub trait AsEvenState {
    /// The state that the context holds.
    spec fn even_state_of(&self) -> EvenState;

    /// The state of the service for even numbers.
    fn as_even_state(&self) -> (r: &EvenState)
        ensures
            *r == self.even_state_of(),
    ;
}

/// The service for even numbers.
pub trait IsEven {
    /// How often the service was asked.
    spec fn asked(&self) -> nat;

    /// Whether the service can be asked about `n`: the counters have room
    /// for all the questions that this one leads to.
    spec fn can_ask(&self, n: u64) -> bool;

    /// Whether `n` is even.
    fn is_even(&mut self, n: u64) -> (r: bool)
        requires
            old(self).can_ask(n),
        ensures
            r == (n % 2 == 0),
            final(self).asked() == old(self).asked() + even_asked_by_even(n),
    ;

    /// Hands the number of questions asked so far to `f`.
    fn emit_count<F: FnOnce(usize)>(&self, f: F)
        requires
            self.asked() <= usize::MAX,
            f.requires((self.asked() as usize,)),
    ;
}

/// The face of the service for even numbers on a context: the context
/// itself under another type.
#[derive(Debug)]
pub struct EvenApp<Ctx> {
    ctx: Ctx,
}

impl<Ctx> View for EvenApp<Ctx> {
    type V = Ctx;

    closed spec fn view(&self) -> Ctx {
        self.ctx
    }
}

impl<Ctx> EvenApp<Ctx> {
    /// The wrapper around `ctx`.
    pub closed spec fn wrap(ctx: Ctx) -> Self {
        EvenApp { ctx }
    }

    /// Wrapping a context and handing it back gives the context, and a
    /// wrapper is the wrapper around what it hands back: the wrapper adds
    /// nothing to the context and takes nothing from it.
    pub proof fn round_trip(ctx: Ctx, wrapper: Self)
        ensures
            Self::wrap(ctx)@ == ctx,
            Self::wrap(wrapper@) == wrapper,
    {
    }

    /// Wraps a context.
    pub fn inj(ctx: Ctx) -> (r: Self)
        ensures
            r == Self::wrap(ctx),
            r@ == ctx,
    {
        EvenApp { ctx }
    }

    /// Hands the context back.
    pub fn prj(self) -> (r: Ctx)
        ensures
            r == self@,
    {
        self.ctx
    }

    /// The context behind the wrapper.
    pub fn into_ref(&self) -> (r: &Ctx)
        ensures
            *r == self@,
    {
        &self.ctx
    }
}

impl<Ctx: AsEvenState> EvenApp<Ctx> {
    /// The state of the service, which is the one that the context holds.
    pub fn deref(&self) -> (r: &EvenState)
        ensures
            *r == self@.even_state_of(),
    {
        self.ctx.as_even_state()
    }
}

/// The context of both services.
#[derive(Debug)]
pub struct GlobalStruct {
    odd_state: OddState,
    even_state: EvenState,
}

/// How often the service for even numbers is asked when it is asked about
/// `n`.
pub open spec fn even_asked_by_even(n: u64) -> nat {
    (n / 2 + 1) as nat
}

/// How often the service for odd numbers is asked when the one for even
/// numbers is asked about `n`.
pub open spec fn odd_asked_by_even(n: u64) -> nat {
    ((n + 1) / 2) as nat
}

/// How often the service for odd numbers is asked when it is asked about
/// `n`.
pub open spec fn odd_asked_by_odd(n: u64) -> nat {
    (n / 2 + 1) as nat
}

/// How often the service for even numbers is asked when the one for odd
/// numbers is asked about `n`.
pub open spec fn even_asked_by_odd(n: u64) -> nat {
    ((n + 1) / 2) as nat
}

impl GlobalStruct {
    /// A context whose services have not been asked yet.
    pub fn new() -> (r: Self)
        ensures
            r.even_asked() == 0,
            r.odd_asked() == 0,
    {
        GlobalStruct { odd_state: OddState::new(), even_state: EvenState::new() }
    }

    /// How often the service for even numbers was asked.
    pub closed spec fn even_asked(&self) -> nat {
        self.even_state@
    }

    /// How often the service for odd numbers was asked.
    pub closed spec fn odd_asked(&self) -> nat {
        self.odd_state@
    }

    /// The state of the service for even numbers.
    pub closed spec fn even_state_ref(&self) -> &EvenState {
        &self.even_state
    }

    /// The state of the service for odd numbers.
    pub closed spec fn odd_state_ref(&self) -> &OddState {
        &self.odd_state
    }

    /// The state of the service for even numbers.
    #[verifier::when_used_as_spec(even_state_ref)]
    pub fn even_state(&self) -> (r: &EvenState)
        ensures
            r == self.even_state_ref(),
            r@ == self.even_asked(),
    {
        &self.even_state
    }

    /// The state of the service for odd numbers.
    #[verifier::when_used_as_spec(odd_state_ref)]
    pub fn odd_state(&self) -> (r: &OddState)
        ensures
            r == self.odd_state_ref(),
            r@ == self.odd_asked(),
    {
        &self.odd_state
    }

    /// Whether `n` is odd. The counters must have room for the questions.
    pub fn is_odd(&mut self, n: u64) -> (r: bool)
        requires
            old(self).odd_asked() + odd_asked_by_odd(n) <= usize::MAX,
            old(self).even_asked() + even_asked_by_odd(n) <= usize::MAX,
        ensures
            r == (n % 2 == 1),
            final(self).odd_asked() == old(self).odd_asked() + odd_asked_by_odd(n),
            final(self).even_asked() == old(self).even_asked() + even_asked_by_odd(n),
    {
        is_odd_impl(self, n)
    }
}

impl Default for GlobalStruct {
    fn default() -> (r: Self)
        ensures
            r.even_asked() == 0,
            r.odd_asked() == 0,
    {
        GlobalStruct::new()
    }
}

impl AsEvenState for GlobalStruct {
    open spec fn even_state_of(&self) -> EvenState {
        *self.even_state_ref()
    }

    fn as_even_state(&self) -> (r: &EvenState) {
        &self.even_state
    }
}

/// Answers for the service for even numbers: counts the question, and
/// for a number above zero asks the other service about the number before.
pub fn is_even_impl(app: &mut GlobalStruct, n: u64) -> (r: bool)
    requires
        old(app).even_asked() + even_asked_by_even(n) <= usize::MAX,
        old(app).odd_asked() + odd_asked_by_even(n) <= usize::MAX,
    ensures
        r == (n % 2 == 0),
        final(app).even_asked() == old(app).even_asked() + even_asked_by_even(n),
        final(app).odd_asked() == old(app).odd_asked() + odd_asked_by_even(n),
    decreases n,
{
    app.even_state.record();
    if n == 0 {
        true
    } else {
        is_odd_impl(app, (n - 1) as u64)
    }
}

/// Answers for the service for odd numbers: counts the question, and for
/// a number above zero asks the other service about the number before.
pub fn is_odd_impl(app: &mut GlobalStruct, n: u64) -> (r: bool)
    requires
        old(app).odd_asked() + odd_asked_by_odd(n) <= usize::MAX,
        old(app).even_asked() + even_asked_by_odd(n) <= usize::MAX,
    ensures
        r == (n % 2 == 1),
        final(app).odd_asked() == old(app).odd_asked() + odd_asked_by_odd(n),
        final(app).even_asked() == old(app).even_asked() + even_asked_by_odd(n),
    decreases n,
{
    app.odd_state.record();
    if n == 0 {
        return false;
    }
    is_even_impl(app, (n - 1) as u64)
}

impl IsEven for GlobalStruct {
    open spec fn asked(&self) -> nat {
        self.even_asked()
    }

    open spec fn can_ask(&self, n: u64) -> bool {
        &&& self.even_asked() + even_asked_by_even(n) <= usize::MAX
        &&& self.odd_asked() + odd_asked_by_even(n) <= usize::MAX
    }

    fn is_even(&mut self, n: u64) -> (r: bool)
        ensures
            final(self).odd_asked() == old(self).odd_asked() + odd_asked_by_even(n),
    {
        is_even_impl(self, n)
    }

    fn emit_count<F: FnOnce(usize)>(&self, f: F) {
        f(self.even_state.count())
    }
}

impl IsEven for EvenApp<GlobalStruct> {
    open spec fn asked(&self) -> nat {
        self@.even_asked()
    }

    open spec fn can_ask(&self, n: u64) -> bool {
        self@.can_ask(n)
    }

    fn is_even(&mut self, n: u64) -> (r: bool)
        ensures
            final(self)@.odd_asked() == old(self)@.odd_asked() + odd_asked_by_even(n),
    {
        is_even_impl(&mut self.ctx, n)
    }

    fn emit_count<F: FnOnce(usize)>(&self, f: F) {
        f(self.ctx.even_state.count())
    }
}

} // verus!
