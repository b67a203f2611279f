//! The capabilities every state value has.

use vstd::prelude::*;

verus! {

/// A position of a state machine.
///
/// States are immutable values. `name`, `is_final` and `is_error` are pure:
/// they return the same answer for the same state every time.
pub trait State: Sized {
    /// Display name of the state.
    fn name(&self) -> &str;

    /// Whether the state is terminal.
    fn is_final(&self) -> bool {
        false
    }

    /// Whether the state stands for a failure.
    fn is_error(&self) -> bool {
        false
    }

    /// Whether `self` and `other` are the same state.
    fn same_as(&self, other: &Self) -> (r: bool)
        ensures
            r == (*self == *other),
    ;

    /// A copy of this state.
    fn duplicate(&self) -> (r: Self)
        ensures
            r == *self,
    ;
}

} // verus!
