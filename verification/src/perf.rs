//! Latency measurement.
//!
//! A timer remembers the clock reading at its creation; elapsed time is the
//! difference to a later reading, clamped to zero if the clock ran backwards.

use vstd::prelude::*;

verus! {

use crate::clock::now_timestamp_millis;

/// A timer for measuring the latency of one labelled operation.
#[derive(Debug)]
pub struct PerfTimer {
    pub label: String,
    pub start_ms: i64,
}

impl PerfTimer {
    /// Start a timer now, by the wall clock.
    pub fn new(label: &str) -> (r: PerfTimer)
        ensures
            r.label@ == label@,
    {
        PerfTimer { label: label.to_owned(), start_ms: now_timestamp_millis() }
    }

    /// Milliseconds elapsed since the timer started, by the wall clock;
    /// never negative.
    pub fn elapsed_ms(&self) -> (r: u64) {
        let now = now_timestamp_millis();
        let start: i64 = if self.start_ms < 0 {
            0
        } else {
            self.start_ms
        };
        if now <= start {
            0
        } else {
            (now - start) as u64
        }
    }
}

} // verus!
