//! Violations of enforcement rules, and how a caller may react to them.

use vstd::prelude::*;

verus! {

/// One rule that a transition attempt broke.
#[derive(Clone, Debug, PartialEq)]
pub enum ViolationError {
    /// The attempt number is above the allowed maximum.
    MaxAttemptsExceeded { max: usize, current: usize },
    /// More time than allowed has passed; both values are in milliseconds.
    TimeoutExceeded { timeout: u64, elapsed: u64 },
    /// A custom check refused the attempt.
    CustomCheckFailed { message: String },
}

/// How a caller is to treat a set of violations. The enforcement engine
/// stores it and never acts on it.
#[derive(Clone, Copy, Debug, PartialEq, Eq, Structural)]
pub enum ViolationStrategy {
    /// Abort the transition for good.
    Abort,
    /// Allow a retry despite the violations.
    Retry,
    /// Go on, and log the violations.
    IgnoreAndLog,
}

} // verus!
