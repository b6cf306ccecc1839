//! Correlation of responses with their requests, and the latency statistics.
//!
//! A request is entered under its correlation id together with the reading
//! of a monotonic clock, in nanoseconds. When the response arrives the entry
//! is removed, and the time in between is recorded in the histogram as one
//! sample, clamped into `[MIN_LATENCY, MAX_LATENCY]`.
//!
//! Each operation exists twice: with the clock reading as an argument
//! (the `_at` form, with an exact contract) and in a form that reads the
//! tracker's own clock.

use crate::histogram::{
    create, high_of, is_bucket_list, len, low_of, max, record, recorded, reset, samples_of,
    total_count, LatencyHistogram,
};
use crate::number::{decimal, push_decimal};
use crate::text::{to_chars, to_text};
use vstd::hash_map::StringHashMap;
use vstd::multiset::Multiset;
use vstd::pervasive::unreached;
use vstd::prelude::*;
use vstd::string::StringExecFns;

verus! {

broadcast use vstd::multiset::group_multiset_axioms;

/// The smallest sample that the histogram tells from zero: one nanosecond.
pub const MIN_LATENCY: u64 = 1;

/// The largest sample that the histogram tracks: one hour, in nanoseconds.
pub const MAX_LATENCY: u64 = 3_600_000_000_000;

/// The number of significant decimal digits that the histogram keeps.
pub const SIGNIFICANT_FIGURES: u8 = 3;

/// `std::time::Instant`: a reading of the monotonic clock, which Verus does
/// not look into.
#[verifier::external_type_specification]
#[verifier::external_body]
pub struct ExInstant(std::time::Instant);

/// `Instant::now` reads the monotonic clock. Nothing is claimed of the
/// reading.
pub assume_specification[ std::time::Instant::now ]() -> std::time::Instant;

/// `Instant::elapsed` gives the time since the instant was taken. Nothing is
/// claimed of it.
pub assume_specification[ std::time::Instant::elapsed ](
    start: &std::time::Instant,
) -> std::time::Duration;

/// `Duration::as_nanos` gives the duration in whole nanoseconds. Nothing is
/// claimed of it.
pub assume_specification[ std::time::Duration::as_nanos ](d: &std::time::Duration) -> u128;

// ---------------------------------------------------------------------------
// Statistics
// ---------------------------------------------------------------------------

/// Latency quantiles of one interval, in nanoseconds.
#[derive(Debug, Clone, Copy, PartialEq, Eq)]
pub struct LatencyStats {
    pub p50: u64,
    pub p90: u64,
    pub p95: u64,
    pub p99: u64,
    pub p99_9: u64,
    pub p99_99: u64,
    pub max: u64,
}

/// The report of one interval as it is printed: a block of seven quantiles
/// and the number of samples.
pub open spec fn report_text(s: LatencyStats, count: u64) -> Seq<char> {
    "{\n  \"latency_ns\": {\n    \"p50\": "@ + decimal(s.p50 as nat) + ",\n    \"p90\": "@ + decimal(
        s.p90 as nat,
    ) + ",\n    \"p95\": "@ + decimal(s.p95 as nat) + ",\n    \"p99\": "@ + decimal(s.p99 as nat)
        + ",\n    \"p99.9\": "@ + decimal(s.p99_9 as nat) + ",\n    \"p99.99\": "@ + decimal(
        s.p99_99 as nat,
    ) + ",\n    \"max\": "@ + decimal(s.max as nat) + "\n  },\n  \"count\": "@ + decimal(
        count as nat,
    ) + "\n}"@
}

/// The quantiles on one line, as they are logged.
pub open spec fn summary_text(s: LatencyStats) -> Seq<char> {
    "Latency stats (ns): p50="@ + decimal(s.p50 as nat) + ", p90="@ + decimal(s.p90 as nat)
        + ", p95="@ + decimal(s.p95 as nat) + ", p99="@ + decimal(s.p99 as nat) + ", p99.9="@
        + decimal(s.p99_9 as nat) + ", p99.99="@ + decimal(s.p99_99 as nat) + ", max="@ + decimal(
        s.max as nat,
    )
}

impl LatencyStats {
    /// The report of an interval with `count` samples, as it is printed.
    pub fn report(&self, count: u64) -> (out: String)
        ensures
            out@ == report_text(*self, count),
    {
        let mut out = String::from_str("{\n  \"latency_ns\": {\n    \"p50\": ");
        push_decimal(&mut out, self.p50);
        out.append(",\n    \"p90\": ");
        push_decimal(&mut out, self.p90);
        out.append(",\n    \"p95\": ");
        push_decimal(&mut out, self.p95);
        out.append(",\n    \"p99\": ");
        push_decimal(&mut out, self.p99);
        out.append(",\n    \"p99.9\": ");
        push_decimal(&mut out, self.p99_9);
        out.append(",\n    \"p99.99\": ");
        push_decimal(&mut out, self.p99_99);
        out.append(",\n    \"max\": ");
        push_decimal(&mut out, self.max);
        out.append("\n  },\n  \"count\": ");
        push_decimal(&mut out, count);
        out.append("\n}");
        out
    }

    /// The quantiles on one line, as they are logged.
    pub fn summary(&self) -> (out: String)
        ensures
            out@ == summary_text(*self),
    {
        let mut out = String::from_str("Latency stats (ns): p50=");
        push_decimal(&mut out, self.p50);
        out.append(", p90=");
        push_decimal(&mut out, self.p90);
        out.append(", p95=");
        push_decimal(&mut out, self.p95);
        out.append(", p99=");
        push_decimal(&mut out, self.p99);
        out.append(", p99.9=");
        push_decimal(&mut out, self.p99_9);
        out.append(", p99.99=");
        push_decimal(&mut out, self.p99_99);
        out.append(", max=");
        push_decimal(&mut out, self.max);
        out
    }
}

/// What one reporting interval held when it was closed.
#[derive(Debug, Clone, PartialEq, Eq)]
pub struct IntervalSnapshot {
    /// The non-empty histogram buckets as `(value, count)`, by rising value.
    pub buckets: Vec<(u64, u64)>,
    /// The number of samples.
    pub count: u64,
    /// A value that no sample exceeds; 0 for an interval without samples.
    pub max: u64,
    /// The length of the interval in nanoseconds.
    pub elapsed_nanos: u64,
}

impl IntervalSnapshot {
    /// The snapshot describes the interval that `t` is in when it is closed
    /// at `now`: every sample is counted, none exceeds `max`, and the
    /// interval has lasted from its start until `now`.
    pub open spec fn describes(self, t: TrackerView, now: u64) -> bool {
        &&& self.count == t.samples.len()
        &&& is_bucket_list(self.buckets@)
        &&& total_count(self.buckets@) == t.samples.len()
        &&& t.admits_max(self.max)
        &&& self.elapsed_nanos == elapsed_between(t.interval_start, now)
    }
}

// ---------------------------------------------------------------------------
// The tracker as mathematical data
// ---------------------------------------------------------------------------

/// The time from `sent` to `now` on a clock that does not run backwards.
pub open spec fn elapsed_between(sent: u64, now: u64) -> u64 {
    if now >= sent {
        (now - sent) as u64
    } else {
        0
    }
}

/// A round-trip time as it is recorded: moved into the histogram's range.
pub open spec fn clamp_latency(rtt: u64) -> u64 {
    if rtt < MIN_LATENCY {
        MIN_LATENCY
    } else if rtt > MAX_LATENCY {
        MAX_LATENCY
    } else {
        rtt
    }
}

/// `host` with each `.` replaced by `_`.
pub open spec fn host_label(host: Seq<char>) -> Seq<char> {
    Seq::new(
        host.len(),
        |i: int|
            if host[i] == '.' {
                '_'
            } else {
                host[i]
            },
    )
}

/// The state of a tracker.
pub struct TrackerView {
    /// The open operations in flight: correlation id to the time of sending.
    pub pending_orders: Map<Seq<char>, u64>,
    /// The close operations in flight.
    pub pending_cancels: Map<Seq<char>, u64>,
    /// The samples of the current interval.
    pub samples: Multiset<u64>,
    /// The number of responses resolved so far.
    pub response_count: u64,
    /// The cadence of reports, and the length of the run.
    pub test_size: usize,
    pub host: Seq<char>,
    /// The time at which the current interval began.
    pub interval_start: u64,
}

impl TrackerView {
    /// A tracker without pending requests or samples.
    pub open spec fn fresh(test_size: usize, host: Seq<char>, started: u64) -> TrackerView {
        TrackerView {
            pending_orders: Map::empty(),
            pending_cancels: Map::empty(),
            samples: Multiset::empty(),
            response_count: 0,
            test_size,
            host,
            interval_start: started,
        }
    }

    /// Every sample lies within the histogram's range, and there are no more
    /// samples than responses.
    pub open spec fn bounded(self) -> bool {
        &&& forall|v: u64| self.samples.contains(v) ==> MIN_LATENCY <= v <= MAX_LATENCY
        &&& self.samples.len() <= self.response_count
    }

    /// What the query for the maximum may answer: a value that no sample of
    /// the interval exceeds, and 0 for an interval without samples.
    pub open spec fn admits_max(self, m: u64) -> bool {
        &&& forall|v: u64| self.samples.contains(v) ==> v <= m
        &&& self.samples.len() == 0 ==> m == 0
    }

    /// An open operation with correlation id `id` was sent at `now`. An
    /// earlier entry under the same id is overwritten.
    pub open spec fn order_sent(self, id: Seq<char>, now: u64) -> TrackerView {
        TrackerView { pending_orders: self.pending_orders.insert(id, now), ..self }
    }

    /// A close operation with correlation id `id` was sent at `now`.
    pub open spec fn cancel_sent(self, id: Seq<char>, now: u64) -> TrackerView {
        TrackerView { pending_cancels: self.pending_cancels.insert(id, now), ..self }
    }

    /// The pending open operation `id` was answered after `rtt` nanoseconds.
    pub open spec fn order_settled(self, id: Seq<char>, rtt: u64) -> TrackerView {
        TrackerView {
            pending_orders: self.pending_orders.remove(id),
            samples: self.samples.insert(clamp_latency(rtt)),
            response_count: (self.response_count + 1) as u64,
            ..self
        }
    }

    /// The pending close operation `id` was answered after `rtt` nanoseconds.
    pub open spec fn cancel_settled(self, id: Seq<char>, rtt: u64) -> TrackerView {
        TrackerView {
            pending_cancels: self.pending_cancels.remove(id),
            samples: self.samples.insert(clamp_latency(rtt)),
            response_count: (self.response_count + 1) as u64,
            ..self
        }
    }

    /// The round-trip time of a response to open operation `id` that arrives
    /// at `now`; `None` for an id that is not pending.
    pub open spec fn order_round_trip(self, id: Seq<char>, now: u64) -> Option<u64> {
        if self.pending_orders.contains_key(id) {
            Some(elapsed_between(self.pending_orders[id], now))
        } else {
            None
        }
    }

    pub open spec fn cancel_round_trip(self, id: Seq<char>, now: u64) -> Option<u64> {
        if self.pending_cancels.contains_key(id) {
            Some(elapsed_between(self.pending_cancels[id], now))
        } else {
            None
        }
    }

    /// The tracker after a response to open operation `id` arrived at `now`.
    /// A response to an id that is not pending changes nothing.
    pub open spec fn order_resolved(self, id: Seq<char>, now: u64) -> TrackerView {
        match self.order_round_trip(id, now) {
            Some(rtt) => self.order_settled(id, rtt),
            None => self,
        }
    }

    pub open spec fn cancel_resolved(self, id: Seq<char>, now: u64) -> TrackerView {
        match self.cancel_round_trip(id, now) {
            Some(rtt) => self.cancel_settled(id, rtt),
            None => self,
        }
    }

    /// A report is due when the number of responses is a positive multiple
    /// of the cadence.
    pub open spec fn should_report(self) -> bool {
        self.response_count > 0 && self.test_size > 0 && self.response_count as int
            % self.test_size as int == 0
    }

    /// The run is complete once the number of responses has reached the test
    /// size.
    pub open spec fn is_complete(self) -> bool {
        self.response_count >= self.test_size
    }

    /// The tracker after the interval was closed at `now`: the samples are
    /// gone and a new interval has begun. Pending requests and the response
    /// count stay.
    pub open spec fn interval_closed(self, now: u64) -> TrackerView {
        TrackerView { samples: Multiset::empty(), interval_start: now, ..self }
    }
}

// ---------------------------------------------------------------------------
// The tracker
// ---------------------------------------------------------------------------

/// Matches responses to requests and accumulates round-trip times.
pub struct LatencyTracker {
    order_sent_times: StringHashMap<u64>,
    cancel_sent_times: StringHashMap<u64>,
    histogram: LatencyHistogram,
    response_count: u64,
    test_size: usize,
    host: String,
    clock: std::time::Instant,
    interval_start: u64,
}

impl View for LatencyTracker {
    type V = TrackerView;

    closed spec fn view(&self) -> TrackerView {
        TrackerView {
            pending_orders: self.order_sent_times@,
            pending_cancels: self.cancel_sent_times@,
            samples: samples_of(self.histogram),
            response_count: self.response_count,
            test_size: self.test_size,
            host: self.host@,
            interval_start: self.interval_start,
        }
    }
}

impl LatencyTracker {
    /// The histogram has the range `[MIN_LATENCY, MAX_LATENCY]`, and the
    /// state is bounded.
    pub closed spec fn wf(&self) -> bool {
        &&& low_of(self.histogram) == MIN_LATENCY
        &&& high_of(self.histogram) == MAX_LATENCY
        &&& self@.bounded()
    }

    /// A well-formed tracker has a bounded state.
    pub proof fn lemma_wf_bounded(&self)
        requires
            self.wf(),
        ensures
            self@.bounded(),
    {
    }

    /// A tracker without pending requests or samples, for reports every
    /// `test_size` responses. Its clock starts now.
    pub fn new(test_size: usize, host: String) -> (out: Self)
        ensures
            out.wf(),
            out@ == TrackerView::fresh(test_size, host@, out@.interval_start),
    {
        let capacity: usize = if test_size < 1000 {
            test_size
        } else {
            1000
        };
        let histogram = match create(MIN_LATENCY, MAX_LATENCY, SIGNIFICANT_FIGURES) {
            Ok(h) => h,
            Err(_) => unreached(),
        };
        let clock = std::time::Instant::now();
        let mut out = LatencyTracker {
            order_sent_times: StringHashMap::with_capacity(capacity),
            cancel_sent_times: StringHashMap::with_capacity(capacity),
            histogram,
            response_count: 0,
            test_size,
            host,
            clock,
            interval_start: 0,
        };
        let started = out.now();
        out.interval_start = started;
        out
    }

    /// The reading of the tracker's clock: the nanoseconds since the tracker
    /// was made, reduced to 64 bits.
    pub fn now(&self) -> u64 {
        let elapsed = self.clock.elapsed();
        let nanos = elapsed.as_nanos();
        #[verifier::truncate]
        let reading = nanos as u64;
        reading
    }

    /// Enters an open operation sent at `now`.
    pub fn record_order_sent_at(&mut self, client_id: String, now: u64)
        requires
            old(self).wf(),
        ensures
            final(self).wf(),
            final(self)@ == old(self)@.order_sent(client_id@, now),
    {
        self.order_sent_times.insert(client_id, now);
    }

    /// Enters a close operation sent at `now`.
    pub fn record_cancel_sent_at(&mut self, client_id: String, now: u64)
        requires
            old(self).wf(),
        ensures
            final(self).wf(),
            final(self)@ == old(self)@.cancel_sent(client_id@, now),
    {
        self.cancel_sent_times.insert(client_id, now);
    }

    /// Enters an open operation sent now.
    pub fn record_order_sent(&mut self, client_id: String)
        requires
            old(self).wf(),
        ensures
            final(self).wf(),
            final(self)@.pending_orders.contains_key(client_id@),
            final(self)@ == old(self)@.order_sent(
                client_id@,
                final(self)@.pending_orders[client_id@],
            ),
    {
        let now = self.now();
        self.record_order_sent_at(client_id, now);
    }

    /// Enters a close operation sent now.
    pub fn record_cancel_sent(&mut self, client_id: String)
        requires
            old(self).wf(),
        ensures
            final(self).wf(),
            final(self)@.pending_cancels.contains_key(client_id@),
            final(self)@ == old(self)@.cancel_sent(
                client_id@,
                final(self)@.pending_cancels[client_id@],
            ),
    {
        let now = self.now();
        self.record_cancel_sent_at(client_id, now);
    }

    /// The time from `sent_time` to `now`, in nanoseconds.
    pub fn calculate_rtt(sent_time: u64, now: u64) -> (rtt: u64)
        ensures
            rtt == elapsed_between(sent_time, now),
    {
        if now >= sent_time {
            now - sent_time
        } else {
            0
        }
    }

    /// Records one round-trip time, clamped into the histogram's range, and
    /// counts the response.
    fn record_latency(&mut self, rtt_ns: u64)
        requires
            old(self).wf(),
            old(self).response_count < u64::MAX,
        ensures
            final(self).wf(),
            samples_of(final(self).histogram) == samples_of(old(self).histogram).insert(
                clamp_latency(rtt_ns),
            ),
            final(self).response_count == old(self).response_count + 1,
            final(self).order_sent_times == old(self).order_sent_times,
            final(self).cancel_sent_times == old(self).cancel_sent_times,
            final(self).test_size == old(self).test_size,
            final(self).host == old(self).host,
            final(self).interval_start == old(self).interval_start,
    {
        let clamped = if rtt_ns < MIN_LATENCY {
            MIN_LATENCY
        } else if rtt_ns > MAX_LATENCY {
            MAX_LATENCY
        } else {
            rtt_ns
        };
        match record(&mut self.histogram, clamped) {
            Ok(()) => {},
            Err(_) => {},
        }
        self.response_count = self.response_count + 1;
        proof {
            let before = samples_of(old(self).histogram);
            vstd::multiset::lemma_insert_len(before, clamped);
            assert forall|v: u64| before.insert(clamped).contains(v) implies MIN_LATENCY <= v
                <= MAX_LATENCY by {
                vstd::multiset::lemma_insert_containment(before, clamped, v);
                if v != clamped {
                    assert(before.contains(v));
                }
            }
        }
    }

    /// Resolves the response to open operation `client_id` that arrived at
    /// `now`. For a pending id the entry is removed, the round-trip time is
    /// recorded and returned. An id that is not pending gives `None` and
    /// changes nothing.
    pub fn record_order_response_at(&mut self, client_id: &str, now: u64) -> (rtt: Option<u64>)
        requires
            old(self).wf(),
            old(self)@.response_count < u64::MAX,
        ensures
            final(self).wf(),
            rtt == old(self)@.order_round_trip(client_id@, now),
            final(self)@ == old(self)@.order_resolved(client_id@, now),
    {
        let sent_time = match self.order_sent_times.get(client_id) {
            Some(t) => *t,
            None => {
                return None;
            },
        };
        self.order_sent_times.remove(client_id);
        let rtt = Self::calculate_rtt(sent_time, now);
        self.record_latency(rtt);
        Some(rtt)
    }

    /// Resolves the response to close operation `client_id` that arrived at
    /// `now`.
    pub fn record_cancel_response_at(&mut self, client_id: &str, now: u64) -> (rtt: Option<u64>)
        requires
            old(self).wf(),
            old(self)@.response_count < u64::MAX,
        ensures
            final(self).wf(),
            rtt == old(self)@.cancel_round_trip(client_id@, now),
            final(self)@ == old(self)@.cancel_resolved(client_id@, now),
    {
        let sent_time = match self.cancel_sent_times.get(client_id) {
            Some(t) => *t,
            None => {
                return None;
            },
        };
        self.cancel_sent_times.remove(client_id);
        let rtt = Self::calculate_rtt(sent_time, now);
        self.record_latency(rtt);
        Some(rtt)
    }

    /// Resolves the response to open operation `client_id` that arrived
    /// now. Whatever the clock reads: a pending id is settled with the time
    /// returned, and an id that is not pending changes nothing.
    pub fn record_order_response(&mut self, client_id: &str) -> (rtt: Option<u64>)
        requires
            old(self).wf(),
            old(self)@.response_count < u64::MAX,
        ensures
            final(self).wf(),
            match rtt {
                Some(d) => old(self)@.pending_orders.contains_key(client_id@) && final(self)@
                    == old(self)@.order_settled(client_id@, d),
                None => !old(self)@.pending_orders.contains_key(client_id@) && final(self)@ == old(
                    self,
                )@,
            },
    {
        let now = self.now();
        self.record_order_response_at(client_id, now)
    }

    /// Resolves the response to close operation `client_id` that arrived
    /// now.
    pub fn record_cancel_response(&mut self, client_id: &str) -> (rtt: Option<u64>)
        requires
            old(self).wf(),
            old(self)@.response_count < u64::MAX,
        ensures
            final(self).wf(),
            match rtt {
                Some(d) => old(self)@.pending_cancels.contains_key(client_id@) && final(self)@
                    == old(self)@.cancel_settled(client_id@, d),
                None => !old(self)@.pending_cancels.contains_key(client_id@) && final(self)@
                    == old(self)@,
            },
    {
        let now = self.now();
        self.record_cancel_response_at(client_id, now)
    }

    /// Whether a report is due: the number of responses is a positive
    /// multiple of the test size.
    pub fn should_print_stats(&self) -> (due: bool)
        ensures
            due == self@.should_report(),
    {
        self.response_count > 0 && self.test_size > 0 && self.response_count % (
        self.test_size as u64) == 0
    }

    /// Whether the number of responses has reached the test size.
    pub fn is_test_complete(&self) -> (complete: bool)
        ensures
            complete == self@.is_complete(),
    {
        self.response_count >= self.test_size as u64
    }

    /// Closes the interval at `now`: hands out what it held, to be printed
    /// and stored, then empties the histogram and starts a new interval.
    pub fn print_stats_at(&mut self, now: u64) -> (snapshot: IntervalSnapshot)
        requires
            old(self).wf(),
        ensures
            final(self).wf(),
            final(self)@ == old(self)@.interval_closed(now),
            snapshot.describes(old(self)@, now),
    {
        let snapshot = IntervalSnapshot {
            buckets: recorded(&self.histogram),
            count: len(&self.histogram),
            max: max(&self.histogram),
            elapsed_nanos: Self::calculate_rtt(self.interval_start, now),
        };
        reset(&mut self.histogram);
        self.interval_start = now;
        snapshot
    }

    /// Closes the interval now. Afterwards the histogram is empty, whatever
    /// the clock reads.
    pub fn print_stats(&mut self) -> (snapshot: IntervalSnapshot)
        requires
            old(self).wf(),
        ensures
            final(self).wf(),
            final(self)@ == old(self)@.interval_closed(final(self)@.interval_start),
            snapshot.describes(old(self)@, final(self)@.interval_start),
    {
        let now = self.now();
        self.print_stats_at(now)
    }

    /// A value that no sample of the current interval exceeds. With no
    /// samples it is 0.
    pub fn max(&self) -> (out: u64)
        requires
            self.wf(),
        ensures
            self@.admits_max(out),
    {
        max(&self.histogram)
    }

    /// The number of samples in the current interval.
    pub fn sample_count(&self) -> (out: u64)
        requires
            self.wf(),
        ensures
            out == self@.samples.len(),
    {
        len(&self.histogram)
    }

    /// The non-empty histogram buckets of the current interval as
    /// `(value, count)` pairs, by rising value.
    pub fn recorded(&self) -> (out: Vec<(u64, u64)>)
        requires
            self.wf(),
        ensures
            is_bucket_list(out@),
            total_count(out@) == self@.samples.len(),
    {
        recorded(&self.histogram)
    }

    /// The number of responses resolved so far.
    pub fn response_count(&self) -> (count: u64)
        ensures
            count == self@.response_count,
    {
        self.response_count
    }

    /// The cadence of reports, which is also the length of the run.
    pub fn test_size(&self) -> (size: usize)
        ensures
            size == self@.test_size,
    {
        self.test_size
    }

    /// Whether an open operation is pending under `client_id`.
    pub fn has_pending_order(&self, client_id: &str) -> (pending: bool)
        ensures
            pending == self@.pending_orders.contains_key(client_id@),
    {
        self.order_sent_times.contains_key(client_id)
    }

    /// Whether a close operation is pending under `client_id`.
    pub fn has_pending_cancel(&self, client_id: &str) -> (pending: bool)
        ensures
            pending == self@.pending_cancels.contains_key(client_id@),
    {
        self.cancel_sent_times.contains_key(client_id)
    }

    /// The directory of the interval log: `./` and the host, with each `.`
    /// of the host replaced by `_`.
    pub fn log_directory(&self) -> (out: String)
        ensures
            out@ == "./"@ + host_label(self@.host),
    {
        let host = to_chars(self.host.as_str());
        let mut label: Vec<char> = Vec::new();
        let mut i: usize = 0;
        while i < host.len()
            invariant
                i <= host.len(),
                host@ == self.host@,
                label@ == host_label(host@).take(i as int),
            decreases host.len() - i,
        {
            let c = host[i];
            label.push(
                if c == '.' {
                    '_'
                } else {
                    c
                },
            );
            i += 1;
        }
        let mut out = String::from_str("./");
        let text = to_text(&label);
        out.append(text.as_str());
        out
    }

    /// The file of the interval log, inside `log_directory`.
    pub fn log_file(&self) -> (out: String)
        ensures
            out@ == "./"@ + host_label(self@.host) + "/histogram_rust.hlog"@,
    {
        let mut out = self.log_directory();
        out.append("/histogram_rust.hlog");
        out
    }
}

// ---------------------------------------------------------------------------
// Laws
// ---------------------------------------------------------------------------

/// Round-trip accounting. The response to a pending open operation yields
/// the time since the request was sent, and the id is no longer pending
/// afterwards: a second response to it yields nothing and changes nothing.
pub proof fn law_order_round_trip(t: TrackerView, id: Seq<char>, sent: u64, now: u64, later: u64)
    ensures
        ({
            let pending = t.order_sent(id, sent);
            let resolved = pending.order_resolved(id, now);
            &&& pending.pending_orders.contains_key(id)
            &&& pending.order_round_trip(id, now) == Some(elapsed_between(sent, now))
            &&& now >= sent ==> pending.order_round_trip(id, now) == Some((now - sent) as u64)
            &&& !resolved.pending_orders.contains_key(id)
            &&& resolved.order_round_trip(id, later) is None
            &&& resolved.order_resolved(id, later) == resolved
        }),
{
}

/// Round-trip accounting for any pending open operation, whatever happened
/// since it was entered: its response yields a time, counts as one response
/// and adds one sample within the histogram's range; the id is then gone.
pub proof fn law_pending_order_resolves(t: TrackerView, id: Seq<char>, now: u64, later: u64)
    requires
        t.pending_orders.contains_key(id),
    ensures
        ({
            let resolved = t.order_resolved(id, now);
            &&& t.order_round_trip(id, now) is Some
            &&& t.order_round_trip(id, now)->0 >= 0
            &&& !resolved.pending_orders.contains_key(id)
            &&& resolved.pending_orders == t.pending_orders.remove(id)
            &&& resolved.response_count == (t.response_count + 1) as u64
            &&& resolved.samples.len() == t.samples.len() + 1
            &&& exists|v: u64| MIN_LATENCY <= v <= MAX_LATENCY && resolved.samples == t.samples.insert(v)
            &&& resolved.order_round_trip(id, later) is None
        }),
{
    let rtt = elapsed_between(t.pending_orders[id], now);
    vstd::multiset::lemma_insert_len(t.samples, clamp_latency(rtt));
    assert(t.order_resolved(id, now).samples == t.samples.insert(clamp_latency(rtt)));
}

/// Round-trip accounting for close operations.
pub proof fn law_cancel_round_trip(t: TrackerView, id: Seq<char>, sent: u64, now: u64, later: u64)
    ensures
        ({
            let pending = t.cancel_sent(id, sent);
            let resolved = pending.cancel_resolved(id, now);
            &&& pending.pending_cancels.contains_key(id)
            &&& pending.cancel_round_trip(id, now) == Some(elapsed_between(sent, now))
            &&& !resolved.pending_cancels.contains_key(id)
            &&& resolved.cancel_round_trip(id, later) is None
            &&& resolved.cancel_resolved(id, later) == resolved
        }),
{
}

/// An unknown id is inert: the response to an id that is not pending yields
/// nothing and leaves the tracker as it was.
pub proof fn law_unknown_id_is_inert(t: TrackerView, id: Seq<char>, now: u64)
    ensures
        !t.pending_orders.contains_key(id) ==> t.order_round_trip(id, now) is None
            && t.order_resolved(id, now) == t,
        !t.pending_cancels.contains_key(id) ==> t.cancel_round_trip(id, now) is None
            && t.cancel_resolved(id, now) == t,
{
}

/// The cadence of reports. With a cadence of `n > 0`, a report is due at
/// exactly the response counts that are positive multiples of `n`: at none
/// of the counts from 1 to `n - 1` or from `n + 1` to `2 n - 1`, and at
/// every count `k n` with `k > 0`.
pub proof fn law_cadence_boundary(t: TrackerView, k: nat)
    requires
        t.test_size > 0,
    ensures
        0 < t.response_count < t.test_size ==> !t.should_report(),
        t.test_size < t.response_count < 2 * t.test_size ==> !t.should_report(),
        k > 0 && t.response_count == k * t.test_size ==> t.should_report(),
        t.should_report() ==> exists|j: nat| j > 0 && t.response_count == #[trigger] (j * t.test_size),
        t.response_count == 0 ==> !t.should_report(),
{
    let c = t.response_count as int;
    let n = t.test_size as int;
    if 0 < c < n {
        vstd::arithmetic::div_mod::lemma_small_mod(c as nat, n as nat);
    }
    if n < c < 2 * n {
        vstd::arithmetic::div_mod::lemma_small_mod((c - n) as nat, n as nat);
        vstd::arithmetic::div_mod::lemma_mod_sub_multiples_vanish(c, n);
    }
    if k > 0 && c == k * n {
        vstd::arithmetic::div_mod::lemma_mod_multiples_basic(k as int, n);
        assert(k * n > 0) by (nonlinear_arith)
            requires
                k > 0,
                n > 0,
        ;
    }
    if t.should_report() {
        vstd::arithmetic::div_mod::lemma_fundamental_div_mod(c, n);
        let j = c / n;
        assert(c == n * j);
        assert(j > 0) by (nonlinear_arith)
            requires
                c == n * j,
                c > 0,
                n > 0,
        ;
        assert(n * j == j * n) by (nonlinear_arith);
        assert(t.response_count == (j as nat) * t.test_size);
    }
}

/// A reset clears the interval: once an interval is closed, the query for
/// the maximum answers 0, though the interval before held samples, all of
/// them positive.
pub proof fn law_reset_clears_state(t: TrackerView, now: u64, before: u64, after: u64)
    requires
        t.bounded(),
        t.admits_max(before),
        t.interval_closed(now).admits_max(after),
    ensures
        t.interval_closed(now).samples.len() == 0,
        after == 0,
        t.samples.len() > 0 ==> before > 0,
        t.interval_closed(now).pending_orders == t.pending_orders,
        t.interval_closed(now).pending_cancels == t.pending_cancels,
        t.interval_closed(now).response_count == t.response_count,
{
    if t.samples.len() > 0 {
        let v = t.samples.choose();
        assert(t.samples.contains(v));
    }
}

} // verus!
