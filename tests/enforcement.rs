use mindset::enforcement::validation::{predicate_verdict, Verdict};
use mindset::{
    EnforcementBuilder, EnforcementRules, State, TransitionContext, ViolationError,
    ViolationStrategy,
};
use stillwater::Validation;

#[derive(Clone, PartialEq, Debug)]
enum TestState {
    Initial,
    Processing,
    Complete,
}

impl State for TestState {
    fn name(&self) -> &str {
        match self {
            Self::Initial => "Initial",
            Self::Processing => "Processing",
            Self::Complete => "Complete",
        }
    }

    fn is_final(&self) -> bool {
        matches!(self, Self::Complete)
    }

    fn same_as(&self, other: &Self) -> bool {
        self == other
    }

    fn duplicate(&self) -> Self {
        self.clone()
    }
}

type Check = Box<dyn Fn(&TransitionContext<TestState>) -> Verdict + Send + Sync>;

fn now() -> i64 {
    chrono::Utc::now().timestamp_millis()
}

fn context(attempt: usize, started_at: i64) -> TransitionContext<TestState> {
    TransitionContext {
        from: TestState::Initial,
        to: TestState::Processing,
        attempt,
        started_at,
    }
}

fn predicate_check(passes: bool, message: &str) -> Check {
    let message = message.to_string();
    Box::new(move |_ctx: &TransitionContext<TestState>| predicate_verdict(passes, message.clone()))
}

#[test]
fn enforcement_accumulates_all_violations() {
    let rules: EnforcementRules<TestState, Check> = EnforcementBuilder::new()
        .max_attempts(3)
        .timeout(5_000)
        .require(predicate_check(false, "Custom check always fails"))
        .build();

    let ctx = context(5, now() - 10_000);
    let result = rules.enforce(&ctx);

    match result {
        Validation::Failure(errors) => {
            assert_eq!(errors.len(), 3);

            let has_max_attempts = errors
                .iter()
                .any(|e| matches!(e, ViolationError::MaxAttemptsExceeded { .. }));
            let has_timeout = errors
                .iter()
                .any(|e| matches!(e, ViolationError::TimeoutExceeded { .. }));
            let has_custom = errors
                .iter()
                .any(|e| matches!(e, ViolationError::CustomCheckFailed { .. }));

            assert!(has_max_attempts);
            assert!(has_timeout);
            assert!(has_custom);
        }
        Validation::Success(_) => panic!("Expected failures, got success"),
    }
}

#[test]
fn enforcement_succeeds_when_all_checks_pass() {
    let rules: EnforcementRules<TestState, Check> = EnforcementBuilder::new()
        .max_attempts(10)
        .timeout(60_000)
        .require(predicate_check(true, "This check always passes"))
        .build();

    let result = rules.enforce(&context(1, now()));
    assert!(result.is_success());
}

#[test]
fn custom_validation_check_works() {
    let check: Check = Box::new(|ctx: &TransitionContext<TestState>| {
        predicate_verdict(ctx.attempt > 0, "Attempt must be > 0".to_string())
    });
    let rules: EnforcementRules<TestState, Check> = EnforcementBuilder::new().require(check).build();

    let result = rules.enforce(&context(0, now()));
    assert!(result.is_failure());
}

#[test]
fn max_attempts_enforcement() {
    let rules: EnforcementRules<TestState, Check> = EnforcementBuilder::new().max_attempts(3).build();

    assert!(rules.enforce(&context(2, now())).is_success());

    let result = rules.enforce(&context(4, now()));
    assert!(result.is_failure());
    if let Validation::Failure(errors) = result {
        assert!(errors
            .iter()
            .any(|e| matches!(e, ViolationError::MaxAttemptsExceeded { .. })));
    }
}

#[test]
fn timeout_enforcement() {
    let rules: EnforcementRules<TestState, Check> = EnforcementBuilder::new().timeout(1_000).build();

    assert!(rules.enforce(&context(1, now())).is_success());

    let result = rules.enforce(&context(1, now() - 5_000));
    assert!(result.is_failure());
    if let Validation::Failure(errors) = result {
        assert!(errors
            .iter()
            .any(|e| matches!(e, ViolationError::TimeoutExceeded { .. })));
    }
}

#[test]
fn violation_strategy_is_stored() {
    let rules: EnforcementRules<TestState, Check> = EnforcementBuilder::new()
        .on_violation(ViolationStrategy::Retry)
        .build();

    assert_eq!(rules.violation_strategy(), ViolationStrategy::Retry);
}

#[test]
fn default_strategy_is_abort() {
    let rules: EnforcementRules<TestState, Check> = EnforcementBuilder::new().build();
    assert_eq!(rules.violation_strategy(), ViolationStrategy::Abort);
}

#[test]
fn violations_come_in_declaration_order_with_values() {
    let rules: EnforcementRules<TestState, Check> = EnforcementBuilder::new()
        .max_attempts(3)
        .timeout(5_000)
        .require(predicate_check(false, "first"))
        .require(predicate_check(true, "passes"))
        .require(predicate_check(false, "second"))
        .build();

    let result = rules.enforce_at(&context(5, 1_000), 11_000);
    match result {
        Validation::Failure(errors) => {
            let errors: Vec<ViolationError> = errors.into_vec();
            assert_eq!(
                errors,
                vec![
                    ViolationError::MaxAttemptsExceeded { max: 3, current: 5 },
                    ViolationError::TimeoutExceeded {
                        timeout: 5_000,
                        elapsed: 10_000
                    },
                    ViolationError::CustomCheckFailed {
                        message: "first".to_string()
                    },
                    ViolationError::CustomCheckFailed {
                        message: "second".to_string()
                    },
                ]
            );
        }
        Validation::Success(_) => panic!("expected violations"),
    }
}

#[test]
fn limits_are_inclusive() {
    let rules: EnforcementRules<TestState, Check> =
        EnforcementBuilder::new().max_attempts(3).timeout(5_000).build();
    assert!(rules.enforce_at(&context(3, 1_000), 6_000).is_success());
    assert!(rules.enforce_at(&context(4, 1_000), 6_000).is_failure());
    assert!(rules.enforce_at(&context(3, 1_000), 6_001).is_failure());
}

#[test]
fn elapsed_is_floored_at_zero() {
    let ctx = context(0, 5_000);
    assert_eq!(ctx.elapsed_at(7_250), 2_250);
    assert_eq!(ctx.elapsed_at(4_000), 0);
    assert_eq!(ctx.elapsed_at(5_000), 0);
}

#[test]
fn started_in_future_is_within_any_timeout() {
    let rules: EnforcementRules<TestState, Check> = EnforcementBuilder::new().timeout(0).build();
    assert!(rules.enforce(&context(0, now() + 3_600_000)).is_success());
}

#[test]
fn predicate_verdict_lists_its_message() {
    assert!(predicate_verdict(true, "unused".to_string()).is_success());
    match predicate_verdict(false, "no".to_string()) {
        Validation::Failure(errors) => {
            assert_eq!(errors.len(), 1);
            assert_eq!(
                errors.head(),
                &ViolationError::CustomCheckFailed {
                    message: "no".to_string()
                }
            );
        }
        Validation::Success(_) => panic!("expected a violation"),
    }
}
