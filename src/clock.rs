use vstd::prelude::*;

verus! {

/// Relies on chrono::Utc::now and DateTime::timestamp_micros: the current
/// system time in microseconds since the Unix epoch. Nothing is promised of
/// the value.
#[verifier::external_body]
pub(crate) fn now_micros() -> (r: i64) {
    chrono::Utc::now().timestamp_micros()
}

/// Relies on chrono::Utc::now and DateTime::timestamp: the current system
/// time in whole seconds since the Unix epoch. Nothing is promised of the
/// value.
#[verifier::external_body]
pub(crate) fn now_seconds() -> (r: i64) {
    chrono::Utc::now().timestamp()
}

} // verus!
