//! Timing guards for measuring operation durations.

use crate::metrics::MetricOp;
use crate::text::owned;
use std::time::Instant;
use vstd::prelude::*;

verus! {

/// A point in time on the monotonic clock.
#[verifier::external_type_specification]
#[verifier::external_body]
pub struct ExInstant(Instant);

/// The current instant (`Instant::now`); it depends on the clock, so nothing
/// is stated of it.
#[verifier::external_body]
fn instant_now() -> (r: Instant) {
    Instant::now()
}

/// The nanoseconds elapsed since `start` (`Instant::elapsed`, then
/// `Duration::as_nanos`); they depend on the clock, so nothing is stated of
/// them.
#[verifier::external_body]
fn elapsed_nanos(start: &Instant) -> (r: u128) {
    start.elapsed().as_nanos()
}

/// A timing measurement in progress for histogram `histogram_name`.
pub struct TimingGuard {
    pub start: Instant,
    pub histogram_name: &'static str,
    pub labels: Vec<(&'static str, String)>,
}

impl TimingGuard {
    /// Starts timing for `histogram_name`, without labels.
    pub fn new(histogram_name: &'static str) -> (r: Self)
        ensures
            r.histogram_name == histogram_name,
            r.labels@.len() == 0,
    {
        TimingGuard { start: instant_now(), histogram_name, labels: Vec::new() }
    }

    /// Adds label `key` = `value`.
    pub fn with_label(self, key: &'static str, value: String) -> (r: Self)
        ensures
            r.histogram_name == self.histogram_name,
            r.start == self.start,
            r.labels@ == self.labels@.push((key, value)),
    {
        let mut g = self;
        g.labels.push((key, value));
        g
    }

    /// Ends the measurement: the one sample it records, the time elapsed
    /// since `start` (nanoseconds, capped at `u64::MAX`), in histogram
    /// `histogram_name`, without labels; the guard is consumed, so no other
    /// sample is recorded for it.
    pub fn finish(self) -> (r: MetricOp)
        ensures
            r matches MetricOp::RecordDuration { name, labels, .. } && name@ == self.histogram_name@ && labels@.len() == 0,
    {
        let n = elapsed_nanos(&self.start);
        let nanos: u64 = if n > u64::MAX as u128 { u64::MAX } else { n as u64 };
        MetricOp::RecordDuration { name: owned(self.histogram_name), labels: Vec::new(), nanos }
    }
}

/// Starts timing for `histogram_name`.
pub fn time_operation(histogram_name: &'static str) -> (r: TimingGuard)
    ensures
        r.histogram_name == histogram_name,
        r.labels@.len() == 0,
{
    TimingGuard::new(histogram_name)
}

/// Starts timing for `histogram_name` with the given labels, in order.
pub fn time_operation_with_labels(histogram_name: &'static str, labels: Vec<(&'static str, String)>) -> (r: TimingGuard)
    ensures
        r.histogram_name == histogram_name,
        r.labels@ == labels@,
{
    let mut guard = TimingGuard::new(histogram_name);
    let mut i: usize = 0;
    while i < labels.len()
        invariant
            guard.histogram_name == histogram_name,
            i <= labels@.len(),
            guard.labels@ == labels@.subrange(0, i as int),
        decreases labels@.len() - i,
    {
        let key = labels[i].0;
        let value = labels[i].1.clone();
        guard = guard.with_label(key, value);
        assert(guard.labels@ =~= labels@.subrange(0, i + 1));
        i = i + 1;
    }
    assert(labels@.subrange(0, labels@.len() as int) =~= labels@);
    guard
}

} // verus!
