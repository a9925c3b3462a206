//! The wall clock, behind a trusted boundary.

use vstd::prelude::*;

verus! {

/// Milliseconds since the Unix epoch, read from the system clock.
///
/// Relies on `chrono::Utc::now` and `chrono::DateTime::timestamp_millis`.
/// The value depends on the wall clock, so nothing is promised of it;
/// callers must treat every `i64` as a possible reading.  `Utc::now`
/// panics if the system clock reads before the Unix epoch — an
/// environmental failure outside any caller's control.
#[verifier::external_body]
pub fn now_millis() -> i64 {
    chrono::Utc::now().timestamp_millis()
}

} // verus!
