//! stillwater's `Validation` and `NonEmptyVec`, as the enforcement engine
//! uses them: a verdict that is a success or a non-empty list of violations.

use crate::enforcement::violations::ViolationError;
use stillwater::{NonEmptyVec, Validation};
use vstd::prelude::*;

verus! {

#[verifier::external_type_specification]
#[verifier::reject_recursive_types(T)]
#[verifier::reject_recursive_types(E)]
pub struct ExValidation<T, E>(Validation<T, E>);

#[verifier::external_type_specification]
#[verifier::external_body]
#[verifier::reject_recursive_types(T)]
pub struct ExNonEmptyVec<T>(NonEmptyVec<T>);

/// The verdict of one check or of a whole enforcement.
pub type Verdict = Validation<(), NonEmptyVec<ViolationError>>;

/// The violations a non-empty list holds, in order.
pub uninterp spec fn violations_in(list: NonEmptyVec<ViolationError>) -> Seq<ViolationError>;

/// The violations a verdict reports: none for a success.
pub open spec fn reported(v: Verdict) -> Seq<ViolationError> {
    match v {
        Validation::Success(_) => Seq::empty(),
        Validation::Failure(list) => violations_in(list),
    }
}

/// The violations of a sequence of verdicts, in order.
pub open spec fn reported_all(vs: Seq<Verdict>) -> Seq<ViolationError>
    decreases vs.len(),
{
    if vs.len() == 0 {
        Seq::empty()
    } else {
        reported_all(vs.drop_last()) + reported(vs.last())
    }
}

/// `v` is a success when `violations` is empty, and otherwise a failure
/// listing exactly `violations`.
pub open spec fn verdict_lists(v: Verdict, violations: Seq<ViolationError>) -> bool {
    match v {
        Validation::Success(_) => violations.len() == 0,
        Validation::Failure(list) => violations.len() > 0 && violations_in(list) == violations,
    }
}

/// Relies on `NonEmptyVec::singleton`: a list of the one violation.
#[verifier::external_body]
fn singleton(violation: ViolationError) -> (list: NonEmptyVec<ViolationError>)
    ensures
        violations_in(list) == seq![violation],
{
    NonEmptyVec::singleton(violation)
}

/// Relies on `Validation::all_vec`: a success when every verdict is one,
/// otherwise a failure whose list joins the failures' lists in order.
#[verifier::external_body]
fn all_vec(verdicts: Vec<Verdict>) -> (r: Validation<Vec<()>, NonEmptyVec<ViolationError>>)
    ensures
        match r {
            Validation::Success(_) => forall|i: int|
                0 <= i < verdicts@.len() ==> (#[trigger] verdicts@[i]) is Success,
            Validation::Failure(list) => {
                &&& exists|i: int| 0 <= i < verdicts@.len() && (#[trigger] verdicts@[i]) is Failure
                &&& violations_in(list) == reported_all(verdicts@)
                &&& violations_in(list).len() > 0
            },
        },
{
    Validation::all_vec(verdicts)
}

/// A failing verdict with the one violation.
pub fn fail(violation: ViolationError) -> (v: Verdict)
    ensures
        v is Failure,
        reported(v) == seq![violation],
{
    Validation::Failure(singleton(violation))
}

/// A passing verdict.
pub fn pass() -> (v: Verdict)
    ensures
        v is Success,
        reported(v) == Seq::<ViolationError>::empty(),
{
    Validation::Success(())
}

/// The verdict of a predicate check: a pass when `passed`, otherwise a
/// `CustomCheckFailed` with `message`.
pub fn predicate_verdict(passed: bool, message: String) -> (v: Verdict)
    ensures
        passed ==> v is Success,
        !passed ==> v is Failure && reported(v) == seq![
            ViolationError::CustomCheckFailed { message },
        ],
{
    if passed {
        pass()
    } else {
        fail(ViolationError::CustomCheckFailed { message })
    }
}

/// A sequence of passing verdicts reports no violation.
pub proof fn lemma_all_successes_report_nothing(vs: Seq<Verdict>)
    requires
        forall|i: int| 0 <= i < vs.len() ==> (#[trigger] vs[i]) is Success,
    ensures
        reported_all(vs).len() == 0,
    decreases vs.len(),
{
    if vs.len() > 0 {
        lemma_all_successes_report_nothing(vs.drop_last());
    }
}

/// Join verdicts: a success when none reports a violation, otherwise a
/// failure listing every violation of every verdict, in order.
pub fn combine(verdicts: Vec<Verdict>) -> (v: Verdict)
    ensures
        verdict_lists(v, reported_all(verdicts@)),
{
    let ghost vs = verdicts@;
    match all_vec(verdicts) {
        Validation::Success(_) => {
            proof {
                lemma_all_successes_report_nothing(vs);
            }
            Validation::Success(())
        },
        Validation::Failure(list) => Validation::Failure(list),
    }
}

} // verus!
