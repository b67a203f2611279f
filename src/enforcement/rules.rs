//! Enforcement rules, and their evaluation.

use crate::enforcement::context::{elapsed_between, TransitionContext};
use crate::enforcement::validation::{
    combine, fail, lemma_all_successes_report_nothing, pass, reported, reported_all, verdict_lists,
    Verdict,
};
use crate::enforcement::violations::{ViolationError, ViolationStrategy};
use vstd::prelude::*;

verus! {

/// `check` may be called on every context.
pub open spec fn callable<S, C: Fn(&TransitionContext<S>) -> Verdict>(check: C) -> bool {
    forall|ctx: TransitionContext<S>| #[trigger] check.requires((&ctx,))
}

/// The violations of the built-in rules: the attempt limit first, then the
/// time limit.
pub open spec fn builtin_violations(
    max_attempts: Option<usize>,
    timeout: Option<u64>,
    attempt: usize,
    elapsed: nat,
) -> Seq<ViolationError> {
    let attempts = match max_attempts {
        Some(max) => if attempt > max {
            seq![ViolationError::MaxAttemptsExceeded { max, current: attempt }]
        } else {
            Seq::empty()
        },
        None => Seq::empty(),
    };
    let time = match timeout {
        Some(limit) => if elapsed > limit {
            seq![ViolationError::TimeoutExceeded { timeout: limit, elapsed: elapsed as u64 }]
        } else {
            Seq::empty()
        },
        None => Seq::empty(),
    };
    attempts + time
}

/// The rules attached to a transition: an optional attempt limit, an optional
/// time limit in milliseconds, custom checks in registration order, and the
/// strategy a caller is to follow on violation.
pub struct EnforcementRules<S, C: Fn(&TransitionContext<S>) -> Verdict> {
    max_attempts: Option<usize>,
    timeout: Option<u64>,
    required_checks: Vec<C>,
    on_violation: ViolationStrategy,
    _state: core::marker::PhantomData<S>,
}

impl<S, C: Fn(&TransitionContext<S>) -> Verdict> EnforcementRules<S, C> {
    #[verifier::type_invariant]
    spec fn checks_callable(&self) -> bool {
        forall|i: int| 0 <= i < self.required_checks@.len() ==> callable(#[trigger] self.required_checks@[i])
    }

    pub closed spec fn spec_max_attempts(&self) -> Option<usize> {
        self.max_attempts
    }

    pub closed spec fn spec_timeout(&self) -> Option<u64> {
        self.timeout
    }

    pub closed spec fn spec_checks(&self) -> Seq<C> {
        self.required_checks@
    }

    pub closed spec fn spec_strategy(&self) -> ViolationStrategy {
        self.on_violation
    }

    /// `v` is what enforcing the rules on `ctx` at time `now` gives when the
    /// custom checks return `outcomes`: every violation of the built-in rules
    /// and then of each check, in order; a success exactly when there is none.
    pub open spec fn judges(
        &self,
        ctx: TransitionContext<S>,
        now: i64,
        outcomes: Seq<Verdict>,
        v: Verdict,
    ) -> bool {
        &&& outcomes.len() == self.spec_checks().len()
        &&& forall|i: int|
            0 <= i < outcomes.len() ==> self.spec_checks()[i].ensures((&ctx,), #[trigger] outcomes[i])
        &&& verdict_lists(
            v,
            builtin_violations(
                self.spec_max_attempts(),
                self.spec_timeout(),
                ctx.attempt,
                elapsed_between(ctx.started_at, now),
            ) + reported_all(outcomes),
        )
    }

    /// Rules made of the given parts; every check must be callable on every
    /// context.
    pub fn new(
        max_attempts: Option<usize>,
        timeout: Option<u64>,
        required_checks: Vec<C>,
        on_violation: ViolationStrategy,
    ) -> (r: Self)
        requires
            forall|i: int| 0 <= i < required_checks@.len() ==> callable(#[trigger] required_checks@[i]),
        ensures
            r.spec_max_attempts() == max_attempts,
            r.spec_timeout() == timeout,
            r.spec_checks() == required_checks@,
            r.spec_strategy() == on_violation,
    {
        EnforcementRules {
            max_attempts,
            timeout,
            required_checks,
            on_violation,
            _state: core::marker::PhantomData,
        }
    }

    /// Enforce every rule on `ctx` as of time `now`, collecting every
    /// violation instead of stopping at the first.
    pub fn enforce_at(&self, ctx: &TransitionContext<S>, now: i64) -> (v: Verdict)
        ensures
            exists|outcomes: Seq<Verdict>| self.judges(*ctx, now, outcomes, v),
    {
        proof {
            use_type_invariant(self);
        }
        let ghost builtin = builtin_violations(
            self.max_attempts,
            self.timeout,
            ctx.attempt,
            elapsed_between(ctx.started_at, now),
        );
        let mut verdicts: Vec<Verdict> = Vec::new();
        match self.max_attempts {
            Some(max) => {
                if ctx.attempt > max {
                    verdicts.push(fail(ViolationError::MaxAttemptsExceeded { max, current: ctx.attempt }));
                } else {
                    verdicts.push(pass());
                }
            },
            None => {},
        }
        match self.timeout {
            Some(limit) => {
                let elapsed = ctx.elapsed_at(now);
                if elapsed > limit {
                    verdicts.push(fail(ViolationError::TimeoutExceeded { timeout: limit, elapsed }));
                } else {
                    verdicts.push(pass());
                }
            },
            None => {},
        }
        proof {
            reveal_with_fuel(reported_all, 3);
            assert(reported_all(verdicts@) =~= builtin);
        }
        let ghost builtin_verdicts = verdicts@;
        let ghost mut outcomes: Seq<Verdict> = Seq::empty();
        let mut i: usize = 0;
        while i < self.required_checks.len()
            invariant
                i <= self.required_checks.len(),
                outcomes.len() == i,
                forall|k: int| 0 <= k < self.required_checks@.len() ==> callable(#[trigger] self.required_checks@[k]),
                forall|k: int|
                    0 <= k < i ==> self.required_checks@[k].ensures((ctx,), #[trigger] outcomes[k]),
                verdicts@ == builtin_verdicts + outcomes,
                reported_all(verdicts@) == builtin + reported_all(outcomes),
            decreases self.required_checks.len() - i,
        {
            let check = &self.required_checks[i];
            assert(callable(*check));
            let outcome = check(ctx);
            let ghost before_all = verdicts@;
            let ghost before_outcomes = outcomes;
            proof {
                outcomes = outcomes.push(outcome);
            }
            verdicts.push(outcome);
            proof {
                assert(verdicts@.drop_last() =~= before_all);
                assert(outcomes.drop_last() =~= before_outcomes);
                assert(reported_all(verdicts@) == reported_all(before_all) + reported(verdicts@.last()));
                assert(reported_all(outcomes) == reported_all(before_outcomes) + reported(outcomes.last()));
                assert(reported_all(verdicts@) =~= builtin + reported_all(outcomes));
                assert(verdicts@ =~= builtin_verdicts + outcomes);
            }
            i += 1;
        }
        let v = combine(verdicts);
        proof {
            assert(self.judges(*ctx, now, outcomes, v));
        }
        v
    }

    /// Enforce every rule on `ctx` as of the time now, collecting every
    /// violation instead of stopping at the first.
    pub fn enforce(&self, ctx: &TransitionContext<S>) -> (v: Verdict)
        ensures
            exists|now: i64, outcomes: Seq<Verdict>| self.judges(*ctx, now, outcomes, v),
    {
        let now = crate::clock::now_millis();
        self.enforce_at(ctx, now)
    }

    /// The strategy a caller is to follow on violation.
    pub fn violation_strategy(&self) -> (s: ViolationStrategy)
        ensures
            s == self.spec_strategy(),
    {
        self.on_violation
    }
}

/// When the attempt is within the limit, the time is within the limit, and
/// every custom check passes, enforcement succeeds with no violation.
pub proof fn enforcement_passes_when_satisfied<S, C: Fn(&TransitionContext<S>) -> Verdict>(
    rules: EnforcementRules<S, C>,
    ctx: TransitionContext<S>,
    now: i64,
    outcomes: Seq<Verdict>,
    v: Verdict,
)
    requires
        rules.judges(ctx, now, outcomes, v),
        rules.spec_max_attempts() matches Some(max) ==> ctx.attempt <= max,
        rules.spec_timeout() matches Some(limit) ==> elapsed_between(ctx.started_at, now) <= limit,
        forall|i: int| 0 <= i < outcomes.len() ==> (#[trigger] outcomes[i]) is Success,
    ensures
        v is Success,
{
    lemma_all_successes_report_nothing(outcomes);
    let builtin = builtin_violations(
        rules.spec_max_attempts(),
        rules.spec_timeout(),
        ctx.attempt,
        elapsed_between(ctx.started_at, now),
    );
    assert(builtin.len() == 0);
    assert((builtin + reported_all(outcomes)).len() == 0);
}

} // verus!
