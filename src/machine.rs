//! The execution engine: match a transition, turn its action's outcome into
//! a step result, commit that result.

use crate::checkpoint::{attempts_for, Checkpoint, CheckpointError, MachineMetadata, CHECKPOINT_VERSION};
use crate::history::{StateHistory, StateTransition};
use crate::state::State;
use crate::transition::{Transition, TransitionError, TransitionResult};
use crate::enforcement::context::TransitionContext;
use crate::enforcement::validation::Verdict;
use vstd::prelude::*;

verus! {

/// What one step produced, before it is committed.
#[derive(Clone, Debug, PartialEq)]
pub enum StepResult<S> {
    /// The action succeeded; the machine is to move to this state.
    Transitioned(S),
    /// The action asked to be retried; `attempts` counts this attempt too.
    Retry { feedback: String, attempts: usize },
    /// The action gave up; the machine is to move to `error_state`.
    Aborted { reason: String, error_state: S },
}

/// The step result that an action's outcome gives when `attempts` retries
/// preceded it.
pub open spec fn step_result_for<S>(result: TransitionResult<S>, attempts: usize) -> StepResult<S> {
    match result {
        TransitionResult::Success(next) => StepResult::Transitioned(next),
        TransitionResult::Retry { feedback, .. } => StepResult::Retry {
            feedback,
            attempts: (attempts + 1) as usize,
        },
        TransitionResult::Abort { reason, error_state } => StepResult::Aborted { reason, error_state },
    }
}

/// The two metadata values agree field by field.
pub open spec fn same_metadata(a: MachineMetadata, b: MachineMetadata) -> bool {
    &&& a.created_at == b.created_at
    &&& a.updated_at == b.updated_at
    &&& a.current_attempt == b.current_attempt
    &&& a.total_attempts@ == b.total_attempts@
}

/// `after` is `before` with one more commit counted for the state named
/// `name`, at time `now`.
pub open spec fn counted_commit(
    before: MachineMetadata,
    after: MachineMetadata,
    name: Seq<char>,
    now: i64,
) -> bool {
    &&& after.created_at == before.created_at
    &&& after.updated_at == now
    &&& after.current_attempt == before.current_attempt
    &&& attempts_for(after.total_attempts@, name) == if attempts_for(before.total_attempts@, name)
        < usize::MAX {
        attempts_for(before.total_attempts@, name) + 1
    } else {
        usize::MAX as nat
    }
    &&& forall|other: Seq<char>|
        other != name ==> #[trigger] attempts_for(after.total_attempts@, other) == attempts_for(
            before.total_attempts@,
            other,
        )
}

/// A state machine: its current state, its transitions in declaration order,
/// the history of committed transitions, the retries of the transition under
/// way, and bookkeeping.
pub struct StateMachine<S, G: Fn(&S) -> bool, A, C: Fn(&TransitionContext<S>) -> Verdict> {
    initial: S,
    current: S,
    transitions: Vec<Transition<S, G, A, C>>,
    history: StateHistory<S>,
    attempt_count: usize,
    metadata: MachineMetadata,
}

impl<S: State, G: Fn(&S) -> bool, A, C: Fn(&TransitionContext<S>) -> Verdict> StateMachine<S, G, A, C> {
    pub closed spec fn spec_initial(&self) -> S {
        self.initial
    }

    pub closed spec fn spec_current(&self) -> S {
        self.current
    }

    pub closed spec fn spec_transitions(&self) -> Seq<Transition<S, G, A, C>> {
        self.transitions@
    }

    pub closed spec fn spec_history(&self) -> Seq<StateTransition<S>> {
        self.history@
    }

    pub closed spec fn spec_attempt_count(&self) -> usize {
        self.attempt_count
    }

    pub closed spec fn spec_metadata(&self) -> MachineMetadata {
        self.metadata
    }

    /// Transition `i` is the one a step takes: it is enabled from the current
    /// state and no earlier transition is.
    pub open spec fn selects(&self, i: int) -> bool {
        &&& 0 <= i < self.spec_transitions().len()
        &&& self.spec_transitions()[i].enabled_from(self.spec_current())
        &&& forall|j: int|
            0 <= j < i ==> !(#[trigger] self.spec_transitions()[j]).enabled_from(
                self.spec_current(),
            )
    }

    /// No transition is enabled from the current state.
    pub open spec fn stuck(&self) -> bool {
        forall|j: int|
            0 <= j < self.spec_transitions().len() ==> !(#[trigger] self.spec_transitions()[j]).enabled_from(
                self.spec_current(),
            )
    }

    /// `self` is `other` but for its transitions.
    pub open spec fn same_but_transitions(&self, other: &Self) -> bool {
        &&& self.spec_initial() == other.spec_initial()
        &&& self.spec_current() == other.spec_current()
        &&& self.spec_history() == other.spec_history()
        &&& self.spec_attempt_count() == other.spec_attempt_count()
        &&& same_metadata(self.spec_metadata(), other.spec_metadata())
    }

    /// A machine in state `initial`, with no transitions, no history and no
    /// attempts.
    pub fn new(initial: S) -> (m: Self)
        ensures
            m.spec_initial() == initial,
            m.spec_current() == initial,
            m.spec_transitions().len() == 0,
            m.spec_history().len() == 0,
            m.spec_attempt_count() == 0,
            m.spec_metadata().current_attempt == 0,
            m.spec_metadata().created_at == m.spec_metadata().updated_at,
            m.spec_metadata().total_attempts@.len() == 0,
    {
        StateMachine {
            current: initial.duplicate(),
            initial,
            transitions: Vec::new(),
            history: StateHistory::new(),
            attempt_count: 0,
            metadata: MachineMetadata::new(),
        }
    }

    /// Append a transition; it is tried after all earlier ones.
    pub fn add_transition(&mut self, transition: Transition<S, G, A, C>)
        ensures
            final(self).spec_transitions() == old(self).spec_transitions().push(transition),
            final(self).same_but_transitions(old(self)),
    {
        self.transitions.push(transition);
    }

    /// The current state.
    pub fn current_state(&self) -> (s: &S)
        ensures
            *s == self.spec_current(),
    {
        &self.current
    }

    /// Whether the current state is terminal.
    pub fn is_final(&self) -> bool {
        self.current.is_final()
    }

    /// The committed transitions.
    pub fn history(&self) -> (h: &StateHistory<S>)
        ensures
            h@ == self.spec_history(),
    {
        &self.history
    }

    /// Retries committed since the last success.
    pub fn attempt_count(&self) -> (n: usize)
        ensures
            n == self.spec_attempt_count(),
    {
        self.attempt_count
    }

    /// The machine's bookkeeping.
    pub fn metadata(&self) -> (m: &MachineMetadata)
        ensures
            *m == self.spec_metadata(),
    {
        &self.metadata
    }

    /// The transitions, in declaration order.
    pub fn transitions(&self) -> (ts: &[Transition<S, G, A, C>])
        ensures
            ts@ == self.spec_transitions(),
    {
        self.transitions.as_slice()
    }

    /// Index of the transition a step takes from the current state: the
    /// first, in declaration order, that leaves the current state and whose
    /// guard allows it. Fails with `NoTransition` when there is none; the
    /// machine is left as it was either way.
    pub fn select_transition(&self) -> (r: Result<usize, TransitionError>)
        ensures
            match r {
                Ok(i) => self.selects(i as int),
                Err(e) => self.stuck() && e is NoTransition,
            },
    {
        let mut i: usize = 0;
        while i < self.transitions.len()
            invariant
                i <= self.transitions.len(),
                forall|j: int|
                    0 <= j < i ==> !(#[trigger] self.transitions@[j]).enabled_from(self.current),
            decreases self.transitions.len() - i,
        {
            if self.transitions[i].can_execute(&self.current) {
                return Ok(i);
            }
            i += 1;
        }
        Err(TransitionError::NoTransition { from: self.current.name().to_owned() })
    }

    /// What a step reports once the selected transition's action has
    /// produced `result`: the state it started from, the step result, and
    /// the retries that preceded it.
    pub fn step_outcome(&self, result: TransitionResult<S>) -> (r: (S, StepResult<S>, usize))
        requires
            result is Retry ==> self.spec_attempt_count() < usize::MAX,
        ensures
            r.0 == self.spec_current(),
            r.1 == step_result_for(result, self.spec_attempt_count()),
            r.2 == self.spec_attempt_count(),
    {
        let attempts = self.attempt_count;
        let step_result = match result {
            TransitionResult::Success(next) => StepResult::Transitioned(next),
            TransitionResult::Retry { feedback, .. } => StepResult::Retry {
                feedback,
                attempts: attempts + 1,
            },
            TransitionResult::Abort { reason, error_state } => StepResult::Aborted {
                reason,
                error_state,
            },
        };
        (self.current.duplicate(), step_result, attempts)
    }

    /// Commit a step result.
    ///
    /// `Transitioned` records the transition from `from_state` in the history
    /// with the given attempt count, moves to the new state, clears the
    /// attempt count and counts the commit in the metadata. `Retry` adds one
    /// to the attempt count and changes nothing else. `Aborted` moves to the
    /// error state and changes nothing else.
    pub fn apply_result(&mut self, from_state: S, result: StepResult<S>, attempt_count: usize)
        requires
            result is Retry ==> old(self).spec_attempt_count() < usize::MAX,
        ensures
            final(self).spec_initial() == old(self).spec_initial(),
            final(self).spec_transitions() == old(self).spec_transitions(),
            match result {
                StepResult::Transitioned(next) => {
                    &&& final(self).spec_current() == next
                    &&& final(self).spec_attempt_count() == 0
                    &&& final(self).spec_history().len() == old(self).spec_history().len() + 1
                    &&& final(self).spec_history().drop_last() == old(self).spec_history()
                    &&& final(self).spec_history().last().from == from_state
                    &&& final(self).spec_history().last().to == next
                    &&& final(self).spec_history().last().attempt == attempt_count
                    &&& final(self).spec_history().last().timestamp
                        == final(self).spec_metadata().updated_at
                    &&& exists|name: Seq<char>|
                        counted_commit(
                            old(self).spec_metadata(),
                            final(self).spec_metadata(),
                            name,
                            final(self).spec_metadata().updated_at,
                        )
                },
                StepResult::Retry { .. } => {
                    &&& final(self).spec_current() == old(self).spec_current()
                    &&& final(self).spec_attempt_count() == old(self).spec_attempt_count() + 1
                    &&& final(self).spec_history() == old(self).spec_history()
                    &&& same_metadata(final(self).spec_metadata(), old(self).spec_metadata())
                },
                StepResult::Aborted { error_state, .. } => {
                    &&& final(self).spec_current() == error_state
                    &&& final(self).spec_attempt_count() == old(self).spec_attempt_count()
                    &&& final(self).spec_history() == old(self).spec_history()
                    &&& same_metadata(final(self).spec_metadata(), old(self).spec_metadata())
                },
            },
    {
        match result {
            StepResult::Transitioned(next) => {
                let now = crate::clock::now_millis();
                let name = from_state.name().to_owned();
                let record = StateTransition {
                    from: from_state,
                    to: next.duplicate(),
                    timestamp: now,
                    attempt: attempt_count,
                };
                self.history = self.history.record(record);
                self.current = next;
                self.attempt_count = 0;
                let ghost name_view = name@;
                self.metadata.record_commit(name, now);
                proof {
                    assert(self.history@.drop_last() =~= old(self).history@);
                    assert(counted_commit(old(self).spec_metadata(), self.spec_metadata(), name_view, self.spec_metadata().updated_at));
                }
            },
            StepResult::Retry { .. } => {
                self.attempt_count = self.attempt_count + 1;
            },
            StepResult::Aborted { error_state, .. } => {
                self.current = error_state;
            },
        }
    }

    /// A snapshot of the machine, stamped with a fresh identifier and the
    /// time now. The machine is not changed.
    pub fn checkpoint(&self) -> (c: Checkpoint<S>)
        ensures
            c.captures(self),
    {
        Checkpoint {
            version: CHECKPOINT_VERSION,
            id: crate::clock::fresh_id(),
            timestamp: crate::clock::now_millis(),
            initial_state: self.initial.duplicate(),
            current_state: self.current.duplicate(),
            history: self.history.duplicate(),
            metadata: self.metadata.duplicate(),
        }
    }

    /// `self` is the machine restored from `c` with `transitions`.
    pub open spec fn restored_from(&self, c: Checkpoint<S>, transitions: Seq<Transition<S, G, A, C>>) -> bool {
        &&& self.spec_initial() == c.initial_state
        &&& self.spec_current() == c.current_state
        &&& self.spec_transitions() == transitions
        &&& self.spec_history() == c.history@
        &&& self.spec_attempt_count() == 0
        &&& same_metadata(self.spec_metadata(), c.metadata)
    }

    /// Restore a machine from a snapshot and the transitions, which the
    /// snapshot does not hold. Fails with `UnsupportedVersion` when the
    /// snapshot is newer than this engine, and only then.
    pub fn from_checkpoint(checkpoint: Checkpoint<S>, transitions: Vec<Transition<S, G, A, C>>) -> (r:
        Result<Self, CheckpointError>)
        ensures
            r is Err <==> checkpoint.version > CHECKPOINT_VERSION,
            match r {
                Ok(m) => m.restored_from(checkpoint, transitions@),
                Err(e) => e == (CheckpointError::UnsupportedVersion {
                    found: checkpoint.version,
                    supported: CHECKPOINT_VERSION,
                }),
            },
    {
        if checkpoint.version > CHECKPOINT_VERSION {
            return Err(
                CheckpointError::UnsupportedVersion {
                    found: checkpoint.version,
                    supported: CHECKPOINT_VERSION,
                },
            );
        }
        Ok(
            StateMachine {
                initial: checkpoint.initial_state,
                current: checkpoint.current_state,
                transitions,
                history: checkpoint.history,
                attempt_count: 0,
                metadata: checkpoint.metadata,
            },
        )
    }
}

impl<S: State> Checkpoint<S> {
    /// The snapshot holds `m`'s states, history and metadata, in the current
    /// format version.
    pub open spec fn captures<G: Fn(&S) -> bool, A, C: Fn(&TransitionContext<S>) -> Verdict>(&self, m: &StateMachine<S, G, A, C>) -> bool {
        &&& self.version == CHECKPOINT_VERSION
        &&& self.initial_state == m.spec_initial()
        &&& self.current_state == m.spec_current()
        &&& self.history@ == m.spec_history()
        &&& same_metadata(self.metadata, m.spec_metadata())
    }
}

/// Restoring a snapshot of a machine gives back the machine's current state,
/// initial state, history (every record, in order) and metadata, with the
/// transitions supplied again and no attempts under way.
pub proof fn checkpoint_round_trip<S: State, G: Fn(&S) -> bool, A, C: Fn(&TransitionContext<S>) -> Verdict>(
    m: StateMachine<S, G, A, C>,
    c: Checkpoint<S>,
    restored: StateMachine<S, G, A, C>,
)
    requires
        c.captures(&m),
        restored.restored_from(c, m.spec_transitions()),
    ensures
        restored.spec_current() == m.spec_current(),
        restored.spec_initial() == m.spec_initial(),
        restored.spec_history() == m.spec_history(),
        restored.spec_transitions() == m.spec_transitions(),
        same_metadata(restored.spec_metadata(), m.spec_metadata()),
{
}

} // verus!
