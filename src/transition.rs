//! Transitions between states and the outcomes of their actions.

use crate::enforcement::rules::EnforcementRules;
use crate::guard::Guard;
use crate::state::State;
use crate::enforcement::context::TransitionContext;
use crate::enforcement::validation::Verdict;
use vstd::prelude::*;

verus! {

/// What a transition's action reports once it has run.
#[derive(Clone, Debug, PartialEq)]
pub enum TransitionResult<S> {
    /// The transition completed; the machine moves to the given state.
    Success(S),
    /// The transition should be tried again later.
    Retry { feedback: String, current_state: S },
    /// The transition failed for good; the machine moves to `error_state`.
    Abort { reason: String, error_state: S },
}

/// Why a step could not produce a result.
#[derive(Debug)]
pub enum TransitionError {
    /// No transition leaves the current state, or every guard refused.
    NoTransition { from: String },
    /// A guard refused the transition.
    GuardBlocked { from: String, to: String },
    /// Running the action failed.
    ActionFailed(String),
}

/// A transition from `from` to `to`, gated by an optional guard, with an
/// action that the caller runs and optional enforcement rules that the
/// caller consults.
///
/// `action` is opaque to the engine: it is handed back to the caller, who
/// makes a fresh effect from it for every attempt.
pub struct Transition<S, G: Fn(&S) -> bool, A, C: Fn(&TransitionContext<S>) -> Verdict> {
    pub from: S,
    pub to: S,
    pub guard: Option<Guard<S, G>>,
    pub action: A,
    pub enforcement: Option<EnforcementRules<S, C>>,
}

impl<S: State, G: Fn(&S) -> bool, A, C: Fn(&TransitionContext<S>) -> Verdict> Transition<S, G, A, C> {
    /// The transition may run from `current`: it leaves `current`, and its
    /// guard, if any, allows it.
    pub open spec fn enabled_from(&self, current: S) -> bool {
        &&& current == self.from
        &&& match self.guard {
            Some(g) => g.allows(current),
            None => true,
        }
    }

    /// Whether the transition may run from `current`.
    pub fn can_execute(&self, current: &S) -> (r: bool)
        ensures
            r == self.enabled_from(*current),
    {
        if !current.same_as(&self.from) {
            return false;
        }
        match &self.guard {
            Some(g) => g.check(current),
            None => true,
        }
    }
}

} // verus!
