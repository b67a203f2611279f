//! Fluent builders for transitions and machines.

use crate::enforcement::rules::EnforcementRules;
use crate::guard::{deterministic, total, Guard};
use crate::machine::StateMachine;
use crate::state::State;
use crate::transition::Transition;
use crate::enforcement::context::TransitionContext;
use crate::enforcement::validation::Verdict;
use vstd::prelude::*;

verus! {

/// A part that a builder needs is missing.
#[derive(Debug)]
pub enum BuildError {
    /// No initial state was given.
    MissingInitialState,
    /// No transition was added.
    NoTransitions,
    /// The transition has no source state.
    MissingFromState,
    /// The transition has no target state.
    MissingToState,
    /// The transition has no action.
    MissingAction,
}

/// Collects the parts of a `Transition`.
pub struct TransitionBuilder<S, G: Fn(&S) -> bool, A, C: Fn(&TransitionContext<S>) -> Verdict> {
    pub from: Option<S>,
    pub to: Option<S>,
    pub guard: Option<Guard<S, G>>,
    pub action: Option<A>,
    pub enforcement: Option<EnforcementRules<S, C>>,
}

impl<S: State, G: Fn(&S) -> bool, A, C: Fn(&TransitionContext<S>) -> Verdict> Default for TransitionBuilder<S, G, A, C> {
    /// A builder with no part set.
    fn default() -> (b: Self)
        ensures
            b.from is None,
            b.to is None,
            b.guard is None,
            b.action is None,
            b.enforcement is None,
    {
        TransitionBuilder::new()
    }
}

impl<S: State, G: Fn(&S) -> bool, A, C: Fn(&TransitionContext<S>) -> Verdict> TransitionBuilder<S, G, A, C> {
    /// A builder with no part set.
    pub fn new() -> (b: Self)
        ensures
            b.from is None,
            b.to is None,
            b.guard is None,
            b.action is None,
            b.enforcement is None,
    {
        TransitionBuilder { from: None, to: None, guard: None, action: None, enforcement: None }
    }

    /// Set the source state.
    pub fn from(self, state: S) -> (b: Self)
        ensures
            b == (TransitionBuilder { from: Some(state), ..self }),
    {
        TransitionBuilder { from: Some(state), ..self }
    }

    /// Set the target state.
    pub fn to(self, state: S) -> (b: Self)
        ensures
            b == (TransitionBuilder { to: Some(state), ..self }),
    {
        TransitionBuilder { to: Some(state), ..self }
    }

    /// Set the guard.
    pub fn guard(self, guard: Guard<S, G>) -> (b: Self)
        ensures
            b == (TransitionBuilder { guard: Some(guard), ..self }),
    {
        TransitionBuilder { guard: Some(guard), ..self }
    }

    /// Set the guard from a predicate that is deterministic and defined on
    /// every state.
    pub fn when(self, predicate: G) -> (b: Self)
        requires
            deterministic(predicate),
            total(predicate),
        ensures
            b.from == self.from,
            b.to == self.to,
            b.action == self.action,
            b.enforcement == self.enforcement,
            b.guard matches Some(g) && g.predicate() == predicate,
    {
        TransitionBuilder { guard: Some(Guard::new(predicate)), ..self }
    }

    /// Set the action.
    pub fn action(self, action: A) -> (b: Self)
        ensures
            b == (TransitionBuilder { action: Some(action), ..self }),
    {
        TransitionBuilder { action: Some(action), ..self }
    }

    /// Attach enforcement rules.
    pub fn enforce(self, rules: EnforcementRules<S, C>) -> (b: Self)
        ensures
            b == (TransitionBuilder { enforcement: Some(rules), ..self }),
    {
        TransitionBuilder { enforcement: Some(rules), ..self }
    }

    /// The transition, when its source, target and action are set; the first
    /// missing of these, in that order, otherwise.
    pub fn build(self) -> (r: Result<Transition<S, G, A, C>, BuildError>)
        ensures
            match (self.from, self.to, self.action) {
                (Some(from), Some(to), Some(action)) => r == Ok::<_, BuildError>(
                    Transition { from, to, guard: self.guard, action, enforcement: self.enforcement },
                ),
                (None, _, _) => r == Err::<Transition<S, G, A, C>, _>(BuildError::MissingFromState),
                (Some(_), None, _) => r == Err::<Transition<S, G, A, C>, _>(BuildError::MissingToState),
                (Some(_), Some(_), None) => r == Err::<Transition<S, G, A, C>, _>(BuildError::MissingAction),
            },
    {
        let from = match self.from {
            Some(s) => s,
            None => return Err(BuildError::MissingFromState),
        };
        let to = match self.to {
            Some(s) => s,
            None => return Err(BuildError::MissingToState),
        };
        let action = match self.action {
            Some(a) => a,
            None => return Err(BuildError::MissingAction),
        };
        Ok(Transition { from, to, guard: self.guard, action, enforcement: self.enforcement })
    }
}

/// Collects an initial state and transitions for a `StateMachine`.
pub struct StateMachineBuilder<S, G: Fn(&S) -> bool, A, C: Fn(&TransitionContext<S>) -> Verdict> {
    pub initial: Option<S>,
    pub transitions: Vec<Transition<S, G, A, C>>,
}

impl<S: State, G: Fn(&S) -> bool, A, C: Fn(&TransitionContext<S>) -> Verdict> Default for StateMachineBuilder<S, G, A, C> {
    /// A builder with no initial state and no transitions.
    fn default() -> (b: Self)
        ensures
            b.initial is None,
            b.transitions@.len() == 0,
    {
        StateMachineBuilder::new()
    }
}

impl<S: State, G: Fn(&S) -> bool, A, C: Fn(&TransitionContext<S>) -> Verdict> StateMachineBuilder<S, G, A, C> {
    /// A builder with no initial state and no transitions.
    pub fn new() -> (b: Self)
        ensures
            b.initial is None,
            b.transitions@.len() == 0,
    {
        StateMachineBuilder { initial: None, transitions: Vec::new() }
    }

    /// Set the initial state.
    pub fn initial(self, state: S) -> (b: Self)
        ensures
            b.initial == Some(state),
            b.transitions@ == self.transitions@,
    {
        StateMachineBuilder { initial: Some(state), transitions: self.transitions }
    }

    /// Add the transition that `builder` builds, or fail as it fails.
    pub fn transition(self, builder: TransitionBuilder<S, G, A, C>) -> (r: Result<Self, BuildError>)
        ensures
            match (builder.from, builder.to, builder.action) {
                (Some(from), Some(to), Some(action)) => r matches Ok(b) && b.initial == self.initial
                    && b.transitions@ == self.transitions@.push(
                    Transition { from, to, guard: builder.guard, action, enforcement: builder.enforcement },
                ),
                (None, _, _) => r matches Err(BuildError::MissingFromState),
                (Some(_), None, _) => r matches Err(BuildError::MissingToState),
                (Some(_), Some(_), None) => r matches Err(BuildError::MissingAction),
            },
    {
        let transition = match builder.build() {
            Ok(t) => t,
            Err(e) => return Err(e),
        };
        Ok(self.add_transition(transition))
    }

    /// Add a transition.
    pub fn add_transition(self, transition: Transition<S, G, A, C>) -> (b: Self)
        ensures
            b.initial == self.initial,
            b.transitions@ == self.transitions@.push(transition),
    {
        let mut transitions = self.transitions;
        transitions.push(transition);
        StateMachineBuilder { initial: self.initial, transitions }
    }

    /// Add transitions, in order.
    pub fn transitions(self, more: Vec<Transition<S, G, A, C>>) -> (b: Self)
        ensures
            b.initial == self.initial,
            b.transitions@ == self.transitions@ + more@,
    {
        let mut transitions = self.transitions;
        let mut more = more;
        transitions.append(&mut more);
        StateMachineBuilder { initial: self.initial, transitions }
    }

    /// The machine, in its initial state with the transitions in order.
    /// Fails with `MissingInitialState` when no initial state was given, and
    /// otherwise with `NoTransitions` when no transition was added.
    pub fn build(self) -> (r: Result<StateMachine<S, G, A, C>, BuildError>)
        ensures
            match self.initial {
                None => r matches Err(BuildError::MissingInitialState),
                Some(initial) => if self.transitions@.len() == 0 {
                    r matches Err(BuildError::NoTransitions)
                } else {
                    r matches Ok(m) && m.spec_initial() == initial && m.spec_current() == initial
                        && m.spec_transitions() == self.transitions@ && m.spec_history().len() == 0
                        && m.spec_attempt_count() == 0
                },
            },
    {
        let initial = match self.initial {
            Some(s) => s,
            None => return Err(BuildError::MissingInitialState),
        };
        if self.transitions.len() == 0 {
            return Err(BuildError::NoTransitions);
        }
        let mut machine = StateMachine::new(initial);
        let mut transitions = self.transitions;
        let ghost all = transitions@;
        let mut added: usize = 0;
        while transitions.len() > 0
            invariant
                transitions@ == all.subrange(added as int, all.len() as int),
                added <= all.len() <= usize::MAX,
                machine.spec_transitions() == all.subrange(0, added as int),
                machine.spec_initial() == self.initial->Some_0,
                machine.spec_current() == self.initial->Some_0,
                machine.spec_history().len() == 0,
                machine.spec_attempt_count() == 0,
            decreases transitions.len(),
        {
            let t = transitions.remove(0);
            machine.add_transition(t);
            proof {
                assert(machine.spec_transitions() =~= all.subrange(0, added + 1));
                assert(transitions@ =~= all.subrange(added + 1, all.len() as int));
            }
            added += 1;
        }
        proof {
            assert(all.subrange(0, all.len() as int) =~= all);
        }
        Ok(machine)
    }
}

} // verus!
