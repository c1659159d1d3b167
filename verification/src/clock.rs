//! The wall clock, read through `chrono`.

use vstd::prelude::*;

verus! {

/// Calls `chrono::Utc::now().date_naive().to_string()`: today's date in UTC,
/// written as chrono writes a `NaiveDate`. Nothing is claimed of the text: it
/// depends on when the call is made. chrono panics where the system clock
/// stands before 1970.
#[verifier::external_body]
pub(crate) fn today() -> (r: String) {
    chrono::Utc::now().date_naive().to_string()
}

/// Calls `chrono::Utc::now().timestamp_millis()`: the milliseconds since
/// 1970-01-01 00:00 UTC. Nothing is claimed of the number: it depends on when
/// the call is made. chrono panics where the system clock stands before 1970.
#[verifier::external_body]
pub(crate) fn now_millis() -> (r: i64) {
    chrono::Utc::now().timestamp_millis()
}

} // verus!
