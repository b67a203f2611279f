//! The append-only log of committed transitions.

use crate::state::State;
use vstd::prelude::*;

verus! {

/// Record of one committed transition.
pub struct StateTransition<S> {
    /// The state left.
    pub from: S,
    /// The state entered.
    pub to: S,
    /// When the transition was committed, in milliseconds since the Unix epoch.
    pub timestamp: i64,
    /// How many retries preceded the transition.
    pub attempt: usize,
}

impl<S: State> StateTransition<S> {
    /// A copy of this record.
    pub fn duplicate(&self) -> (r: Self)
        ensures
            r == *self,
    {
        StateTransition {
            from: self.from.duplicate(),
            to: self.to.duplicate(),
            timestamp: self.timestamp,
            attempt: self.attempt,
        }
    }
}

/// The states a history passes through: the first record's `from`, then the
/// `to` of every record. An empty history has an empty path.
pub open spec fn path_of<S>(records: Seq<StateTransition<S>>) -> Seq<S> {
    if records.len() == 0 {
        Seq::empty()
    } else {
        seq![records[0].from] + records.map_values(|t: StateTransition<S>| t.to)
    }
}

/// The states that a sequence of references points to.
pub open spec fn pointed<S>(refs: Seq<&S>) -> Seq<S> {
    refs.map_values(|r: &S| *r)
}

/// Milliseconds from the first record to the last, when the last is not
/// earlier than the first.
pub open spec fn duration_of<S>(records: Seq<StateTransition<S>>) -> Option<int> {
    if records.len() == 0 {
        None
    } else {
        let span = records.last().timestamp - records[0].timestamp;
        if span >= 0 {
            Some(span)
        } else {
            None
        }
    }
}

/// Ordered history of committed transitions.
///
/// `record` never changes the history it is called on: it returns a new one.
pub struct StateHistory<S> {
    transitions: Vec<StateTransition<S>>,
}

impl<S> View for StateHistory<S> {
    type V = Seq<StateTransition<S>>;

    closed spec fn view(&self) -> Seq<StateTransition<S>> {
        self.transitions@
    }
}

impl<S: State> Default for StateHistory<S> {
    /// An empty history.
    fn default() -> (h: Self)
        ensures
            h@ == Seq::<StateTransition<S>>::empty(),
    {
        StateHistory::new()
    }
}

impl<S: State> StateHistory<S> {
    /// An empty history.
    pub fn new() -> (h: Self)
        ensures
            h@ == Seq::<StateTransition<S>>::empty(),
    {
        StateHistory { transitions: Vec::new() }
    }

    /// A new history holding this one's records followed by `transition`.
    pub fn record(&self, transition: StateTransition<S>) -> (h: Self)
        ensures
            h@ == self@.push(transition),
    {
        let mut transitions: Vec<StateTransition<S>> = Vec::new();
        let mut i: usize = 0;
        while i < self.transitions.len()
            invariant
                i <= self.transitions.len(),
                transitions@ == self@.subrange(0, i as int),
            decreases self.transitions.len() - i,
        {
            transitions.push(self.transitions[i].duplicate());
            i += 1;
        }
        transitions.push(transition);
        StateHistory { transitions }
    }

    /// A copy of this history.
    pub fn duplicate(&self) -> (h: Self)
        ensures
            h@ == self@,
    {
        let mut transitions: Vec<StateTransition<S>> = Vec::new();
        let mut i: usize = 0;
        while i < self.transitions.len()
            invariant
                i <= self.transitions.len(),
                transitions@ == self@.subrange(0, i as int),
            decreases self.transitions.len() - i,
        {
            transitions.push(self.transitions[i].duplicate());
            i += 1;
        }
        proof {
            assert(self@.subrange(0, self@.len() as int) == self@);
        }
        StateHistory { transitions }
    }

    /// The states traversed, in order: the first record's source, then the
    /// target of each record.
    pub fn get_path(&self) -> (path: Vec<&S>)
        ensures
            pointed(path@) == path_of(self@),
    {
        let mut path: Vec<&S> = Vec::new();
        if self.transitions.len() > 0 {
            path.push(&self.transitions[0].from);
            proof {
                assert(pointed(path@) =~= seq![self@[0].from]);
            }
        }
        let mut i: usize = 0;
        while i < self.transitions.len()
            invariant
                i <= self.transitions.len(),
                self.transitions.len() > 0 ==> pointed(path@) == seq![self@[0].from] + self@.subrange(
                    0,
                    i as int,
                ).map_values(|t: StateTransition<S>| t.to),
                self.transitions.len() == 0 ==> path@.len() == 0,
            decreases self.transitions.len() - i,
        {
            let ghost before = path@;
            path.push(&self.transitions[i].to);
            proof {
                assert(self@.subrange(0, i + 1) == self@.subrange(0, i as int).push(self@[i as int]));
                assert(pointed(path@) =~= pointed(before).push(self@[i as int].to));
            }
            i += 1;
        }
        proof {
            assert(self@.subrange(0, self@.len() as int) == self@);
        }
        path
    }

    /// Milliseconds from the first record to the last; `None` when the
    /// history is empty or the last record is earlier than the first.
    pub fn duration(&self) -> (d: Option<u64>)
        ensures
            match d {
                Some(ms) => duration_of(self@) == Some(ms as int),
                None => duration_of(self@) is None,
            },
    {
        let n = self.transitions.len();
        if n == 0 {
            return None;
        }
        let span: i128 = self.transitions[n - 1].timestamp as i128 - self.transitions[0].timestamp as i128;
        if span >= 0 {
            Some(span as u64)
        } else {
            None
        }
    }

    /// All records, oldest first.
    pub fn transitions(&self) -> (r: &[StateTransition<S>])
        ensures
            r@ == self@,
    {
        self.transitions.as_slice()
    }
}

/// Recording a transition leaves the history it is called on as it was: the new
/// history holds one more record, and its first records and the states they
/// pass through are exactly those of the earlier history.
pub proof fn record_keeps_earlier_history<S>(
    earlier: Seq<StateTransition<S>>,
    transition: StateTransition<S>,
    recorded: Seq<StateTransition<S>>,
)
    requires
        recorded == earlier.push(transition),
    ensures
        recorded.len() == earlier.len() + 1,
        recorded.subrange(0, earlier.len() as int) == earlier,
        earlier.len() > 0 ==> path_of(recorded).subrange(0, path_of(earlier).len() as int)
            == path_of(earlier),
{
    assert(recorded.subrange(0, earlier.len() as int) =~= earlier);
    if earlier.len() > 0 {
        assert(path_of(recorded).subrange(0, path_of(earlier).len() as int) =~= path_of(earlier));
    }
}

/// A history of `n` records, `n` at least one, passes through `n + 1`
/// states. (The empty history has an empty path.)
pub proof fn path_has_one_more_state<S>(records: Seq<StateTransition<S>>)
    requires
        records.len() > 0,
    ensures
        path_of(records).len() == records.len() + 1,
{
}

} // verus!
