//! The clock: the current moment in UTC, read through the `chrono` crate.
//!
//! Nothing is claimed of what a reading returns. `Utc::now` panics where the
//! system's clock stands before 1970.

use chrono::Utc;
use vstd::prelude::*;

verus! {

/// `DateTime::timestamp_millis` of `chrono` on `Utc::now()`: the milliseconds
/// since the start of 1970.
#[verifier::external_body]
pub(crate) fn now_millis() -> i64 {
    Utc::now().timestamp_millis()
}

/// `DateTime::to_rfc3339` of `chrono` on `Utc::now()`: the current moment as
/// an RFC 3339 string.
#[verifier::external_body]
pub(crate) fn now_rfc3339() -> String {
    Utc::now().to_rfc3339()
}

/// `DateTime::date_naive` of `chrono` on `Utc::now()`, as `NaiveDate` prints
/// itself: the current day in UTC, such as `2024-05-17`.
#[verifier::external_body]
pub(crate) fn today_utc() -> String {
    Utc::now().date_naive().to_string()
}

} // verus!
