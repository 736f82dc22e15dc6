//! Throughput reporting: decides when a speed sample is due and what its
//! numbers are. The host supplies monotonic timestamps in milliseconds and
//! delivers the reports to its callbacks.

use vstd::prelude::*;

verus! {

/// `a - b`, saturating at zero.
pub open spec fn sat_sub(a: u64, b: u64) -> u64 {
    if a >= b { (a - b) as u64 } else { 0 }
}

/// One speed report: the totals since the archive started, and the deltas
/// since the previous report.
pub struct SpeedReport {
    pub average_bytes: u64,
    pub average_ms: u64,
    pub current_bytes: u64,
    pub current_ms: u64,
}

/// Tracks when the last speed report went out, and emits a new one only once
/// the configured interval has passed.
pub struct SpeedTracker {
    pub interval_ms: u64,
    pub start_ms: u64,
    pub last_ms: u64,
    pub last_bytes: u64,
}

impl SpeedTracker {
    pub fn new(now_ms: u64, interval_ms: u64) -> (r: Self)
        ensures
            r.interval_ms == interval_ms,
            r.start_ms == now_ms,
            r.last_ms == now_ms,
            r.last_bytes == 0,
    {
        Self { interval_ms, start_ms: now_ms, last_ms: now_ms, last_bytes: 0 }
    }

    /// A report is due once the interval has passed since the last one.
    pub open spec fn due(&self, now_ms: u64) -> bool {
        sat_sub(now_ms, self.last_ms) >= self.interval_ms
    }

    /// Samples the clock and byte counter: if the interval has passed since
    /// the last report, returns the report and restarts the window.
    pub fn sample(&mut self, now_ms: u64, total_bytes: u64) -> (r: Option<SpeedReport>)
        ensures
            final(self).interval_ms == old(self).interval_ms,
            final(self).start_ms == old(self).start_ms,
            old(self).due(now_ms) ==> {
                &&& r is Some
                &&& r->Some_0.average_bytes == total_bytes
                &&& r->Some_0.average_ms == sat_sub(now_ms, old(self).start_ms)
                &&& r->Some_0.current_bytes == sat_sub(total_bytes, old(self).last_bytes)
                &&& r->Some_0.current_ms == sat_sub(now_ms, old(self).last_ms)
                &&& final(self).last_ms == now_ms
                &&& final(self).last_bytes == total_bytes
            },
            !old(self).due(now_ms) ==> {
                &&& r is None
                &&& final(self).last_ms == old(self).last_ms
                &&& final(self).last_bytes == old(self).last_bytes
            },
    {
        let delta_ms = if now_ms >= self.last_ms { now_ms - self.last_ms } else { 0 };
        if delta_ms >= self.interval_ms {
            let delta_bytes = if total_bytes >= self.last_bytes {
                total_bytes - self.last_bytes
            } else {
                0
            };
            let average_ms = if now_ms >= self.start_ms { now_ms - self.start_ms } else { 0 };
            let report = SpeedReport {
                average_bytes: total_bytes,
                average_ms,
                current_bytes: delta_bytes,
                current_ms: delta_ms,
            };
            self.last_ms = now_ms;
            self.last_bytes = total_bytes;
            Some(report)
        } else {
            None
        }
    }

    /// The unconditional final report emitted after the trailer.
    pub fn final_sample(&self, now_ms: u64, total_bytes: u64) -> (r: SpeedReport)
        ensures
            r.average_bytes == total_bytes,
            r.average_ms == sat_sub(now_ms, self.start_ms),
            r.current_bytes == sat_sub(total_bytes, self.last_bytes),
            r.current_ms == sat_sub(now_ms, self.last_ms),
    {
        SpeedReport {
            average_bytes: total_bytes,
            average_ms: if now_ms >= self.start_ms { now_ms - self.start_ms } else { 0 },
            current_bytes: if total_bytes >= self.last_bytes {
                total_bytes - self.last_bytes
            } else {
                0
            },
            current_ms: if now_ms >= self.last_ms { now_ms - self.last_ms } else { 0 },
        }
    }
}

} // verus!
