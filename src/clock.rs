//! What only the outside world can say: the time now, and a fresh identifier.

use vstd::prelude::*;

verus! {

/// Relies on chrono's `Utc::now` and `DateTime::timestamp_millis`: the
/// current time as milliseconds since the Unix epoch. Nothing is promised of
/// the value; two calls may give anything.
#[verifier::external_body]
pub(crate) fn now_millis() -> (ms: i64) {
    chrono::Utc::now().timestamp_millis()
}

/// Relies on uuid's `Uuid::new_v4`, written out by its `Display` impl: a
/// random identifier. Nothing is promised of the text.
#[verifier::external_body]
pub(crate) fn fresh_id() -> (id: String) {
    uuid::Uuid::new_v4().to_string()
}

} // verus!
