//! Pure predicates that gate transitions.

use std::marker::PhantomData;
use vstd::prelude::*;

verus! {

/// `f` gives one answer per state, whichever call is asked.
pub open spec fn deterministic<S, F: Fn(&S) -> bool>(f: F) -> bool {
    forall|s: S, a: bool, b: bool|
        #![trigger f.ensures((&s,), a), f.ensures((&s,), b)]
        f.ensures((&s,), a) && f.ensures((&s,), b) ==> a == b
}

/// `f` may be called on every state.
pub open spec fn total<S, F: Fn(&S) -> bool>(f: F) -> bool {
    forall|s: S| #[trigger] f.requires((&s,))
}

/// A pure predicate on states that decides whether a transition may run.
pub struct Guard<S, F: Fn(&S) -> bool> {
    predicate: F,
    _state: PhantomData<S>,
}

impl<S, F: Fn(&S) -> bool> Guard<S, F> {
    /// The predicate is deterministic and defined on every state; every
    /// guard is.
    #[verifier::type_invariant]
    pub closed spec fn well_formed(&self) -> bool {
        deterministic(self.predicate) && total(self.predicate)
    }

    /// The predicate this guard evaluates.
    pub closed spec fn predicate(&self) -> F {
        self.predicate
    }

    /// Whether the guard lets a transition run from `s`.
    pub open spec fn allows(&self, s: S) -> bool {
        self.predicate().ensures((&s,), true)
    }

    /// Make a guard from a predicate that is deterministic and defined on
    /// every state.
    pub fn new(predicate: F) -> (g: Self)
        requires
            deterministic(predicate),
            total(predicate),
        ensures
            g.predicate() == predicate,
            g.well_formed(),
    {
        Guard { predicate, _state: PhantomData }
    }

    /// Evaluate the guard on `state`.
    pub fn check(&self, state: &S) -> (r: bool)
        ensures
            r == self.allows(*state),
    {
        proof {
            use_type_invariant(self);
        }
        (self.predicate)(state)
    }
}

/// A guard answers alike however often it is asked about one state: any two
/// answers that its predicate gives for `s` agree, so repeated `check`s of
/// `s` return the same result.
pub proof fn check_is_idempotent<S, F: Fn(&S) -> bool>(g: Guard<S, F>, s: S, first: bool, second: bool)
    requires
        g.well_formed(),
        g.predicate().ensures((&s,), first),
        g.predicate().ensures((&s,), second),
    ensures
        first == second,
        first == g.allows(s),
{
}

} // verus!
