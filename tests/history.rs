use mindset::{State, StateHistory, StateTransition};

#[derive(Clone, PartialEq, Debug)]
enum TestState {
    Initial,
    Processing,
    Complete,
    Failed,
}

impl State for TestState {
    fn name(&self) -> &str {
        match self {
            Self::Initial => "Initial",
            Self::Processing => "Processing",
            Self::Complete => "Complete",
            Self::Failed => "Failed",
        }
    }

    fn is_final(&self) -> bool {
        matches!(self, Self::Complete | Self::Failed)
    }

    fn is_error(&self) -> bool {
        matches!(self, Self::Failed)
    }

    fn same_as(&self, other: &Self) -> bool {
        self == other
    }

    fn duplicate(&self) -> Self {
        self.clone()
    }
}

fn now() -> i64 {
    chrono::Utc::now().timestamp_millis()
}

fn record(from: TestState, to: TestState, timestamp: i64, attempt: usize) -> StateTransition<TestState> {
    StateTransition {
        from,
        to,
        timestamp,
        attempt,
    }
}

#[test]
fn new_history_is_empty() {
    let history: StateHistory<TestState> = StateHistory::new();
    assert_eq!(history.transitions().len(), 0);
    assert!(history.get_path().is_empty());
    assert!(history.duration().is_none());
}

#[test]
fn record_adds_transition() {
    let history = StateHistory::new();
    let transition = record(TestState::Initial, TestState::Processing, now(), 1);

    let history = history.record(transition);

    assert_eq!(history.transitions().len(), 1);
}

#[test]
fn record_is_immutable() {
    let history = StateHistory::new();
    let transition = record(TestState::Initial, TestState::Processing, now(), 1);

    let new_history = history.record(transition);

    assert_eq!(history.transitions().len(), 0);
    assert_eq!(new_history.transitions().len(), 1);
}

#[test]
fn get_path_returns_state_sequence() {
    let mut history = StateHistory::new();
    history = history.record(record(TestState::Initial, TestState::Processing, now(), 1));
    history = history.record(record(TestState::Processing, TestState::Complete, now(), 1));

    let path = history.get_path();
    assert_eq!(path.len(), 3);
    assert_eq!(path[0], &TestState::Initial);
    assert_eq!(path[1], &TestState::Processing);
    assert_eq!(path[2], &TestState::Complete);
}

#[test]
fn duration_calculates_elapsed_time() {
    let history = StateHistory::new();
    let start = now();

    let history = history.record(record(TestState::Initial, TestState::Processing, start, 1));
    let history = history.record(record(TestState::Processing, TestState::Complete, start + 10, 1));

    let duration = history.duration();
    assert!(duration.is_some());
    assert!(duration.unwrap() >= 10);
}

#[test]
fn single_transition_has_duration_zero() {
    let timestamp = now();
    let history = StateHistory::new().record(record(TestState::Initial, TestState::Processing, timestamp, 1));

    let duration = history.duration();
    assert!(duration.is_some());
    assert_eq!(duration.unwrap(), 0);
}

#[test]
fn attempt_field_is_tracked() {
    let transition = record(TestState::Initial, TestState::Processing, now(), 3);
    assert_eq!(transition.attempt, 3);
}

#[test]
fn duration_is_last_minus_first() {
    let history = StateHistory::new()
        .record(record(TestState::Initial, TestState::Processing, 1_000, 0))
        .record(record(TestState::Processing, TestState::Failed, 1_200, 0))
        .record(record(TestState::Failed, TestState::Complete, 4_500, 2));
    assert_eq!(history.duration(), Some(3_500));
}

#[test]
fn duration_is_none_when_last_precedes_first() {
    let history = StateHistory::new()
        .record(record(TestState::Initial, TestState::Processing, 5_000, 0))
        .record(record(TestState::Processing, TestState::Complete, 4_000, 0));
    assert_eq!(history.duration(), None);
}

#[test]
fn record_keeps_earlier_history_and_path() {
    let one = StateHistory::new().record(record(TestState::Initial, TestState::Processing, 10, 0));
    let two = one.record(record(TestState::Processing, TestState::Complete, 20, 4));

    assert_eq!(one.transitions().len(), 1);
    assert_eq!(one.get_path(), vec![&TestState::Initial, &TestState::Processing]);
    assert_eq!(two.transitions().len(), 2);
    assert_eq!(two.transitions()[0].to, TestState::Processing);
    assert_eq!(two.transitions()[1].attempt, 4);
    assert_eq!(
        two.get_path(),
        vec![&TestState::Initial, &TestState::Processing, &TestState::Complete]
    );
}

#[test]
fn path_has_one_more_state_than_records() {
    let mut history = StateHistory::new();
    let states = [TestState::Initial, TestState::Processing, TestState::Failed, TestState::Complete];
    for n in 1..=5usize {
        let from = states[(n - 1) % 4].clone();
        let to = states[n % 4].clone();
        history = history.record(record(from, to, n as i64, 0));
        assert_eq!(history.get_path().len(), n + 1);
    }
}
