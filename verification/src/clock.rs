//! Trusted access to the wall clock.
//!
//! Time is handed to the verified logic as plain integers; nothing can be
//! promised about what the clock returns, so these wrappers carry no
//! `ensures` and every caller states what holds for any reading.

use vstd::prelude::*;

verus! {

/// Relies on `chrono::Utc::now` and `DateTime::timestamp`: seconds since the
/// Unix epoch.  Nothing is promised of the reading.
#[verifier::external_body]
pub fn now_timestamp() -> i64 {
    chrono::Utc::now().timestamp()
}

/// Relies on `chrono::Utc::now` and `DateTime::timestamp_millis`:
/// milliseconds since the Unix epoch.  Nothing is promised of the reading.
#[verifier::external_body]
pub fn now_timestamp_millis() -> i64 {
    chrono::Utc::now().timestamp_millis()
}

/// The clock reading clamped to a non-negative number of seconds.
pub fn now_seconds() -> (r: u64) {
    let t = now_timestamp();
    if t < 0 {
        0
    } else {
        t as u64
    }
}

} // verus!
