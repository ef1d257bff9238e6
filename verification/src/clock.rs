use vstd::prelude::*;

verus! {

/// Relies on chrono::Utc::now, reduced to its millisecond timestamp.
/// The clock is outside the model: nothing is promised of the value, and
/// every caller states what holds whatever instant came back.
#[verifier::external_body]
pub(crate) fn now_millis() -> i64 {
    chrono::Utc::now().timestamp_millis()
}

} // verus!
