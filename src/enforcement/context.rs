//! What enforcement checks are told about a transition attempt.

use vstd::prelude::*;

verus! {

/// Milliseconds from `started_at` to `now`, or 0 when `now` is earlier.
pub open spec fn elapsed_between(started_at: i64, now: i64) -> nat {
    if now >= started_at {
        (now - started_at) as nat
    } else {
        0
    }
}

/// A read-only snapshot of a transition attempt.
pub struct TransitionContext<S> {
    pub from: S,
    pub to: S,
    /// The attempt number.
    pub attempt: usize,
    /// When the attempt started, in milliseconds since the Unix epoch.
    pub started_at: i64,
}

impl<S> TransitionContext<S> {
    /// Milliseconds from the start of the attempt to `now`, floored at zero.
    pub fn elapsed_at(&self, now: i64) -> (ms: u64)
        ensures
            ms == elapsed_between(self.started_at, now),
    {
        if now >= self.started_at {
            (now as i128 - self.started_at as i128) as u64
        } else {
            0
        }
    }

    /// Milliseconds since the attempt started, floored at zero.
    pub fn elapsed(&self) -> (ms: u64)
        ensures
            exists|now: i64| ms == elapsed_between(self.started_at, now),
    {
        let now = crate::clock::now_millis();
        self.elapsed_at(now)
    }
}

} // verus!
