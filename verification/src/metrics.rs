//! Processing counters. The counters wrap at the machine limit, as the
//! relaxed atomic adds of a shared collector would; the embedding that
//! shares a collector across tasks owns the synchronization.

use vstd::prelude::*;

verus! {

/// A wrapped 64-bit sum.
pub open spec fn wrap_add_64(a: int, b: int) -> int {
    (a + b) % (u64::MAX + 1)
}

/// Adds, wrapping at the 64-bit boundary.
fn wrapping_add_u64(a: u64, b: u64) -> (r: u64)
    ensures
        r == wrap_add_64(a as int, b as int),
{
    if a <= u64::MAX - b {
        a + b
    } else {
        let r = (a - (u64::MAX - b)) - 1;
        proof {
            assert(r == (a + b) - (u64::MAX + 1));
            assert((a + b) % (u64::MAX + 1) == (a + b) - (u64::MAX + 1)) by {
                assert(u64::MAX + 1 <= a + b < 2 * (u64::MAX + 1));
            }
        }
        r
    }
}

/// Relies on `std::time::SystemTime::now` and `duration_since`: the
/// seconds since the Unix epoch, 0 when the clock reads earlier. The
/// result depends on the clock, so nothing more is promised of it.
#[verifier::external_body]
fn now_unix_secs() -> (r: u64) {
    std::time::SystemTime::now()
        .duration_since(std::time::UNIX_EPOCH)
        .map_or(0, |d| d.as_secs())
}

/// The counters one pipeline keeps while processing.
#[derive(Debug, Clone, PartialEq)]
pub struct Metrics {
    pub events_processed: u64,
    pub events_failed: u64,
    pub total_processing_time_ms: u64,
    pub last_event_time: u64,
}

/// A point-in-time copy of the counters.
#[derive(Debug, Clone, PartialEq)]
pub struct MetricsSnapshot {
    pub events_processed: u64,
    pub events_failed: u64,
    pub total_processing_time_ms: u64,
    pub last_event_time: u64,
}

impl Metrics {
    /// Fresh counters, all zero.
    pub fn new() -> (r: Self)
        ensures
            r.events_processed == 0,
            r.events_failed == 0,
            r.total_processing_time_ms == 0,
            r.last_event_time == 0,
    {
        Metrics {
            events_processed: 0,
            events_failed: 0,
            total_processing_time_ms: 0,
            last_event_time: 0,
        }
    }

    /// Counts one processed event.
    pub fn increment_events_processed(&mut self)
        ensures
            final(self).events_processed == wrap_add_64(old(self).events_processed as int, 1),
            final(self).events_failed == old(self).events_failed,
            final(self).total_processing_time_ms == old(self).total_processing_time_ms,
            final(self).last_event_time == old(self).last_event_time,
    {
        self.events_processed = wrapping_add_u64(self.events_processed, 1);
    }

    /// Counts one failed event.
    pub fn increment_events_failed(&mut self)
        ensures
            final(self).events_failed == wrap_add_64(old(self).events_failed as int, 1),
            final(self).events_processed == old(self).events_processed,
            final(self).total_processing_time_ms == old(self).total_processing_time_ms,
            final(self).last_event_time == old(self).last_event_time,
    {
        self.events_failed = wrapping_add_u64(self.events_failed, 1);
    }

    /// Adds one transformation's duration and stamps the clock reading.
    pub fn record_transformation(&mut self, duration_ms: u64)
        ensures
            final(self).total_processing_time_ms == wrap_add_64(
                old(self).total_processing_time_ms as int,
                duration_ms as int,
            ),
            final(self).events_processed == old(self).events_processed,
            final(self).events_failed == old(self).events_failed,
    {
        self.total_processing_time_ms = wrapping_add_u64(
            self.total_processing_time_ms,
            duration_ms,
        );
        self.last_event_time = now_unix_secs();
    }

    /// A copy of the counters as they stand.
    pub fn get_stats(&self) -> (r: MetricsSnapshot)
        ensures
            r.events_processed == self.events_processed,
            r.events_failed == self.events_failed,
            r.total_processing_time_ms == self.total_processing_time_ms,
            r.last_event_time == self.last_event_time,
    {
        MetricsSnapshot {
            events_processed: self.events_processed,
            events_failed: self.events_failed,
            total_processing_time_ms: self.total_processing_time_ms,
            last_event_time: self.last_event_time,
        }
    }
}

impl Default for Metrics {
    fn default() -> (r: Self)
        ensures
            r.events_processed == 0,
            r.events_failed == 0,
            r.total_processing_time_ms == 0,
            r.last_event_time == 0,
    {
        Metrics::new()
    }
}

} // verus!
