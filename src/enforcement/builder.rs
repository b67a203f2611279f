//! A fluent way to assemble enforcement rules.

use crate::enforcement::context::TransitionContext;
use crate::enforcement::rules::{callable, EnforcementRules};
use crate::enforcement::validation::Verdict;
use crate::enforcement::violations::ViolationStrategy;
use vstd::prelude::*;

verus! {

/// Collects the parts of `EnforcementRules`.
pub struct EnforcementBuilder<S, C: Fn(&TransitionContext<S>) -> Verdict> {
    max_attempts: Option<usize>,
    timeout: Option<u64>,
    required_checks: Vec<C>,
    on_violation: ViolationStrategy,
    _state: core::marker::PhantomData<S>,
}

impl<S, C: Fn(&TransitionContext<S>) -> Verdict> Default for EnforcementBuilder<S, C> {
    /// No limits, no checks, and `Abort` on violation.
    fn default() -> (b: Self)
        ensures
            b.spec_max_attempts() is None,
            b.spec_timeout() is None,
            b.spec_checks().len() == 0,
            b.spec_strategy() == ViolationStrategy::Abort,
    {
        EnforcementBuilder::new()
    }
}

impl<S, C: Fn(&TransitionContext<S>) -> Verdict> EnforcementBuilder<S, C> {
    #[verifier::type_invariant]
    spec fn checks_callable(&self) -> bool {
        forall|i: int| 0 <= i < self.required_checks@.len() ==> callable(#[trigger] self.required_checks@[i])
    }

    pub closed spec fn spec_max_attempts(&self) -> Option<usize> {
        self.max_attempts
    }

    pub closed spec fn spec_timeout(&self) -> Option<u64> {
        self.timeout
    }

    pub closed spec fn spec_checks(&self) -> Seq<C> {
        self.required_checks@
    }

    pub closed spec fn spec_strategy(&self) -> ViolationStrategy {
        self.on_violation
    }

    /// No limits, no checks, and `Abort` on violation.
    pub fn new() -> (b: Self)
        ensures
            b.spec_max_attempts() is None,
            b.spec_timeout() is None,
            b.spec_checks().len() == 0,
            b.spec_strategy() == ViolationStrategy::Abort,
    {
        EnforcementBuilder {
            max_attempts: None,
            timeout: None,
            required_checks: Vec::new(),
            on_violation: ViolationStrategy::Abort,
            _state: core::marker::PhantomData,
        }
    }

    /// Allow at most `n` attempts.
    pub fn max_attempts(self, n: usize) -> (b: Self)
        ensures
            b.spec_max_attempts() == Some(n),
            b.spec_timeout() == self.spec_timeout(),
            b.spec_checks() == self.spec_checks(),
            b.spec_strategy() == self.spec_strategy(),
    {
        proof {
            use_type_invariant(&self);
        }
        EnforcementBuilder {
            max_attempts: Some(n),
            timeout: self.timeout,
            required_checks: self.required_checks,
            on_violation: self.on_violation,
            _state: core::marker::PhantomData,
        }
    }

    /// Allow at most `millis` milliseconds since the attempt started.
    pub fn timeout(self, millis: u64) -> (b: Self)
        ensures
            b.spec_max_attempts() == self.spec_max_attempts(),
            b.spec_timeout() == Some(millis),
            b.spec_checks() == self.spec_checks(),
            b.spec_strategy() == self.spec_strategy(),
    {
        proof {
            use_type_invariant(&self);
        }
        EnforcementBuilder {
            max_attempts: self.max_attempts,
            timeout: Some(millis),
            required_checks: self.required_checks,
            on_violation: self.on_violation,
            _state: core::marker::PhantomData,
        }
    }

    /// Add a custom check, run after all earlier ones.
    pub fn require(self, check: C) -> (b: Self)
        requires
            callable(check),
        ensures
            b.spec_max_attempts() == self.spec_max_attempts(),
            b.spec_timeout() == self.spec_timeout(),
            b.spec_checks() == self.spec_checks().push(check),
            b.spec_strategy() == self.spec_strategy(),
    {
        proof {
            use_type_invariant(&self);
        }
        let mut required_checks = self.required_checks;
        required_checks.push(check);
        EnforcementBuilder {
            max_attempts: self.max_attempts,
            timeout: self.timeout,
            required_checks,
            on_violation: self.on_violation,
            _state: core::marker::PhantomData,
        }
    }

    /// Set the strategy a caller is to follow on violation.
    pub fn on_violation(self, strategy: ViolationStrategy) -> (b: Self)
        ensures
            b.spec_max_attempts() == self.spec_max_attempts(),
            b.spec_timeout() == self.spec_timeout(),
            b.spec_checks() == self.spec_checks(),
            b.spec_strategy() == strategy,
    {
        proof {
            use_type_invariant(&self);
        }
        EnforcementBuilder {
            max_attempts: self.max_attempts,
            timeout: self.timeout,
            required_checks: self.required_checks,
            on_violation: strategy,
            _state: core::marker::PhantomData,
        }
    }

    /// The rules collected so far.
    pub fn build(self) -> (r: EnforcementRules<S, C>)
        ensures
            r.spec_max_attempts() == self.spec_max_attempts(),
            r.spec_timeout() == self.spec_timeout(),
            r.spec_checks() == self.spec_checks(),
            r.spec_strategy() == self.spec_strategy(),
    {
        proof {
            use_type_invariant(&self);
        }
        EnforcementRules::new(self.max_attempts, self.timeout, self.required_checks, self.on_violation)
    }
}

} // verus!
