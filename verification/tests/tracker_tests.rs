//! Tests of the latency tracker.

use rust_hft_client::tracker::{LatencyStats, MAX_LATENCY, MIN_LATENCY};
use rust_hft_client::LatencyTracker;
use std::time::{Duration, Instant};

fn test_host() -> String {
    "test.host".to_string()
}

/// Lets at least `micros` microseconds pass.
fn wait_micros(micros: u64) {
    let start = Instant::now();
    while start.elapsed() < Duration::from_micros(micros) {
        std::hint::spin_loop();
    }
}

#[test]
fn test_new_tracker() {
    let tracker = LatencyTracker::new(1000, test_host());
    assert_eq!(tracker.response_count(), 0);
    assert_eq!(tracker.test_size(), 1000);
}

#[test]
fn test_record_order_sent() {
    let mut tracker = LatencyTracker::new(1000, test_host());
    tracker.record_order_sent("test-id".to_string());
    assert!(tracker.has_pending_order("test-id"));
}

#[test]
fn test_record_cancel_sent() {
    let mut tracker = LatencyTracker::new(1000, test_host());
    tracker.record_cancel_sent("test-id".to_string());
    assert!(tracker.has_pending_cancel("test-id"));
}

#[test]
fn test_record_order_response() {
    let mut tracker = LatencyTracker::new(1000, test_host());
    tracker.record_order_sent("test-id".to_string());

    // Small delay to ensure measurable RTT
    wait_micros(100);

    let rtt = tracker.record_order_response("test-id");
    assert!(rtt.is_some());
    assert!(rtt.unwrap() >= 100_000); // 100µs in nanoseconds
    assert!(!tracker.has_pending_order("test-id"));
}

#[test]
fn test_record_unknown_client_id() {
    let mut tracker = LatencyTracker::new(1000, test_host());
    let rtt = tracker.record_order_response("unknown-id");
    assert!(rtt.is_none());
}

#[test]
fn test_should_print_stats() {
    let mut tracker = LatencyTracker::new(10, test_host());

    // Initially should not print
    assert!(!tracker.should_print_stats());

    // Record 10 responses
    for i in 0..10 {
        tracker.record_order_sent(format!("id-{}", i));
    }
    for i in 0..10 {
        tracker.record_order_response(&format!("id-{}", i));
    }

    // Should print after test_size responses
    assert!(tracker.should_print_stats());
}

#[test]
fn test_tracker_initialization() {
    let tracker = LatencyTracker::new(1000, test_host());
    assert_eq!(tracker.response_count(), 0);
}

#[test]
fn test_order_tracking() {
    let mut tracker = LatencyTracker::new(1000, test_host());

    // Record order sent
    tracker.record_order_sent("order-1".to_string());
    assert!(tracker.has_pending_order("order-1"));
    assert!(!tracker.has_pending_order("order-2"));

    // Small delay
    wait_micros(50);

    // Record response
    let rtt = tracker.record_order_response("order-1");
    assert!(rtt.is_some());
    assert!(!tracker.has_pending_order("order-1"));
}

#[test]
fn test_cancel_tracking() {
    let mut tracker = LatencyTracker::new(1000, test_host());

    // Record cancel sent
    tracker.record_cancel_sent("cancel-1".to_string());
    assert!(tracker.has_pending_cancel("cancel-1"));

    // Small delay
    wait_micros(50);

    // Record response
    let rtt = tracker.record_cancel_response("cancel-1");
    assert!(rtt.is_some());
    assert!(!tracker.has_pending_cancel("cancel-1"));
}

#[test]
fn test_unknown_client_id_returns_none() {
    let mut tracker = LatencyTracker::new(1000, test_host());

    let rtt = tracker.record_order_response("unknown");
    assert!(rtt.is_none());

    let rtt = tracker.record_cancel_response("unknown");
    assert!(rtt.is_none());
}

#[test]
fn test_should_print_stats_boundary() {
    let mut tracker = LatencyTracker::new(5, test_host());

    // Initially should not print
    assert!(!tracker.should_print_stats());

    // Record 5 responses
    for i in 0..5 {
        tracker.record_order_sent(format!("id-{}", i));
    }
    for i in 0..5 {
        tracker.record_order_response(&format!("id-{}", i));
    }

    // Should print at boundary
    assert!(tracker.should_print_stats());
    assert_eq!(tracker.response_count(), 5);
}

// ---------------------------------------------------------------------------
// Round trips at given times
// ---------------------------------------------------------------------------

#[test]
fn round_trip_is_the_time_between_request_and_response() {
    let mut tracker = LatencyTracker::new(1000, test_host());
    tracker.record_order_sent_at("a".to_string(), 1_000);
    assert_eq!(tracker.record_order_response_at("a", 2_500), Some(1_500));
    assert_eq!(tracker.response_count(), 1);
    assert_eq!(tracker.sample_count(), 1);
    assert_eq!(tracker.max(), 1_500);
    assert_eq!(tracker.recorded(), vec![(1_500, 1)]);
    assert!(!tracker.has_pending_order("a"));
    // a second response to the same id
    assert_eq!(tracker.record_order_response_at("a", 3_000), None);
    assert_eq!(tracker.response_count(), 1);
    assert_eq!(tracker.sample_count(), 1);
}

#[test]
fn cancel_round_trip_at_given_times() {
    let mut tracker = LatencyTracker::new(1000, test_host());
    tracker.record_cancel_sent_at("c".to_string(), 10);
    assert!(tracker.has_pending_cancel("c"));
    assert!(!tracker.has_pending_order("c"));
    assert_eq!(tracker.record_order_response_at("c", 20), None);
    assert_eq!(tracker.record_cancel_response_at("c", 110), Some(100));
    assert_eq!(tracker.record_cancel_response_at("c", 120), None);
    assert_eq!(tracker.response_count(), 1);
    assert_eq!(tracker.recorded(), vec![(100, 1)]);
}

#[test]
fn calculate_rtt_does_not_go_below_zero() {
    assert_eq!(LatencyTracker::calculate_rtt(5, 12), 7);
    assert_eq!(LatencyTracker::calculate_rtt(5, 5), 0);
    assert_eq!(LatencyTracker::calculate_rtt(12, 5), 0);
    assert_eq!(LatencyTracker::calculate_rtt(0, u64::MAX), u64::MAX);
}

#[test]
fn later_request_overwrites_the_time_of_an_earlier_one() {
    let mut tracker = LatencyTracker::new(1000, test_host());
    tracker.record_order_sent_at("dup".to_string(), 100);
    tracker.record_order_sent_at("dup".to_string(), 400);
    assert_eq!(tracker.record_order_response_at("dup", 1_000), Some(600));
    assert_eq!(tracker.record_order_response_at("dup", 1_000), None);
}

#[test]
fn samples_are_clamped_into_the_range_of_the_histogram() {
    assert_eq!(MIN_LATENCY, 1);
    assert_eq!(MAX_LATENCY, 3_600_000_000_000);
    let mut tracker = LatencyTracker::new(1000, test_host());
    // a response in the same instant: a round trip of 0 is recorded as 1
    tracker.record_order_sent_at("zero".to_string(), 50);
    assert_eq!(tracker.record_order_response_at("zero", 50), Some(0));
    assert_eq!(tracker.recorded(), vec![(1, 1)]);
    assert_eq!(tracker.max(), 1);
    // a response after more than an hour is recorded as one hour
    tracker.record_order_sent_at("slow".to_string(), 0);
    assert_eq!(tracker.record_order_response_at("slow", u64::MAX), Some(u64::MAX));
    assert_eq!(tracker.sample_count(), 2);
    assert_eq!(tracker.response_count(), 2);
    let buckets = tracker.recorded();
    assert_eq!(buckets.len(), 2);
    assert_eq!(buckets[0], (1, 1));
    assert!(buckets[1].0 >= MAX_LATENCY);
    assert_eq!(buckets[1].1, 1);
    assert!(tracker.max() >= MAX_LATENCY);
    assert_eq!(tracker.max(), buckets[1].0);
}

#[test]
fn unknown_id_leaves_the_tracker_as_it_was() {
    let mut tracker = LatencyTracker::new(3, test_host());
    tracker.record_order_sent_at("known".to_string(), 1);
    tracker.record_cancel_sent_at("other".to_string(), 2);
    tracker.record_order_response_at("known", 501);
    let before = (tracker.response_count(), tracker.sample_count(), tracker.max(), tracker.recorded());
    assert_eq!(tracker.record_order_response("never-seen"), None);
    assert_eq!(tracker.record_order_response_at("never-seen", 9_999), None);
    assert_eq!(tracker.record_cancel_response_at("never-seen", 9_999), None);
    // an id that is pending as the other kind of operation
    assert_eq!(tracker.record_order_response_at("other", 9_999), None);
    let after = (tracker.response_count(), tracker.sample_count(), tracker.max(), tracker.recorded());
    assert_eq!(before, after);
    assert!(tracker.has_pending_cancel("other"));
    assert!(!tracker.should_print_stats());
}

#[test]
fn order_and_cancel_are_kept_apart() {
    let mut tracker = LatencyTracker::new(1000, test_host());
    tracker.record_order_sent_at("x".to_string(), 0);
    assert!(tracker.has_pending_order("x"));
    assert!(!tracker.has_pending_cancel("x"));
    assert_eq!(tracker.record_cancel_response_at("x", 5), None);
    assert!(tracker.has_pending_order("x"));
}

// ---------------------------------------------------------------------------
// Cadence and completion
// ---------------------------------------------------------------------------

fn resolve_one(tracker: &mut LatencyTracker, i: u64) {
    tracker.record_order_sent_at(format!("id-{}", i), i);
    assert_eq!(tracker.record_order_response_at(&format!("id-{}", i), i + 10), Some(10));
}

#[test]
fn report_is_due_at_positive_multiples_of_the_cadence() {
    let mut tracker = LatencyTracker::new(5, test_host());
    assert!(!tracker.should_print_stats());
    for i in 1..=23u64 {
        resolve_one(&mut tracker, i);
        assert_eq!(tracker.response_count(), i);
        assert_eq!(tracker.should_print_stats(), i % 5 == 0, "after {} responses", i);
    }
}

#[test]
fn report_cadence_of_one_and_of_zero() {
    let mut every = LatencyTracker::new(1, test_host());
    let mut never = LatencyTracker::new(0, test_host());
    assert!(!every.should_print_stats());
    assert!(!never.should_print_stats());
    for i in 1..=4u64 {
        resolve_one(&mut every, i);
        resolve_one(&mut never, i);
        assert!(every.should_print_stats());
        assert!(!never.should_print_stats());
    }
}

#[test]
fn report_cadence_for_many_sizes() {
    for test_size in [10usize, 11, 64, 250] {
        let mut tracker = LatencyTracker::new(test_size, test_host());
        assert!(!tracker.should_print_stats());
        for i in 0..test_size as u64 {
            assert!(!tracker.is_test_complete());
            resolve_one(&mut tracker, i);
        }
        assert!(tracker.should_print_stats());
        assert!(tracker.is_test_complete());
        assert_eq!(tracker.response_count(), test_size as u64);
    }
}

#[test]
fn test_is_complete_from_the_test_size_on() {
    let mut tracker = LatencyTracker::new(3, test_host());
    assert!(!tracker.is_test_complete());
    resolve_one(&mut tracker, 1);
    resolve_one(&mut tracker, 2);
    assert!(!tracker.is_test_complete());
    resolve_one(&mut tracker, 3);
    assert!(tracker.is_test_complete());
    resolve_one(&mut tracker, 4);
    assert!(tracker.is_test_complete());
    assert!(LatencyTracker::new(0, test_host()).is_test_complete());
}

// ---------------------------------------------------------------------------
// Intervals
// ---------------------------------------------------------------------------

#[test]
fn closing_an_interval_hands_out_its_samples_and_clears_them() {
    let mut tracker = LatencyTracker::new(1000, test_host());
    let started = tracker.print_stats_at(1_000);
    assert_eq!(started.count, 0);
    assert_eq!(started.max, 0);
    assert!(started.buckets.is_empty());

    for (i, rtt) in [300u64, 100, 300, 2_000].iter().enumerate() {
        tracker.record_order_sent_at(format!("id-{}", i), 5_000);
        assert_eq!(tracker.record_order_response_at(&format!("id-{}", i), 5_000 + rtt), Some(*rtt));
    }
    tracker.record_order_sent_at("pending".to_string(), 6_000);
    assert_eq!(tracker.max(), 2_000);

    let snapshot = tracker.print_stats_at(41_000);
    assert_eq!(snapshot.count, 4);
    assert_eq!(snapshot.max, 2_000);
    assert_eq!(snapshot.buckets, vec![(100, 1), (300, 2), (2_000, 1)]);
    assert_eq!(snapshot.elapsed_nanos, 40_000);

    // the histogram is empty again; the rest of the state stays
    assert_eq!(tracker.max(), 0);
    assert_eq!(tracker.sample_count(), 0);
    assert!(tracker.recorded().is_empty());
    assert_eq!(tracker.response_count(), 4);
    assert!(tracker.has_pending_order("pending"));

    // the next interval begins where the last one ended
    assert_eq!(tracker.record_order_response_at("pending", 6_700), Some(700));
    let next = tracker.print_stats_at(50_000);
    assert_eq!(next.count, 1);
    assert_eq!(next.max, 700);
    assert_eq!(next.buckets, vec![(700, 1)]);
    assert_eq!(next.elapsed_nanos, 9_000);
}

#[test]
fn closing_an_interval_now() {
    let mut tracker = LatencyTracker::new(1000, test_host());
    for i in 0..20 {
        tracker.record_order_sent(format!("id-{}", i));
        wait_micros(10);
        assert!(tracker.record_order_response(&format!("id-{}", i)).unwrap() > 0);
    }
    assert!(tracker.max() > 0);
    let snapshot = tracker.print_stats();
    assert_eq!(snapshot.count, 20);
    assert!(snapshot.max >= 10_000);
    assert_eq!(snapshot.buckets.iter().map(|b| b.1).sum::<u64>(), 20);
    assert!(snapshot.buckets.windows(2).all(|w| w[0].0 < w[1].0));
    assert!(snapshot.buckets.iter().all(|b| b.1 >= 1 && b.0 <= snapshot.max));
    assert_eq!(tracker.max(), 0);
    assert_eq!(tracker.sample_count(), 0);
}

#[test]
fn clock_does_not_run_backwards() {
    let tracker = LatencyTracker::new(1, test_host());
    let first = tracker.now();
    wait_micros(20);
    let second = tracker.now();
    assert!(second >= first + 20_000);
}

// ---------------------------------------------------------------------------
// Reports and the interval log
// ---------------------------------------------------------------------------

#[test]
fn report_text_is_exact() {
    let stats = LatencyStats { p50: 1, p90: 20, p95: 300, p99: 4_000, p99_9: 50_000, p99_99: 600_000, max: 7_000_000 };
    let expected = "{\n  \"latency_ns\": {\n    \"p50\": 1,\n    \"p90\": 20,\n    \"p95\": 300,\n    \"p99\": 4000,\n    \"p99.9\": 50000,\n    \"p99.99\": 600000,\n    \"max\": 7000000\n  },\n  \"count\": 1234\n}";
    assert_eq!(stats.report(1234), expected);
    let parsed: serde_json::Value = serde_json::from_str(&stats.report(0)).unwrap();
    assert_eq!(parsed["latency_ns"]["p99.9"], 50_000);
    assert_eq!(parsed["count"], 0);
}

#[test]
fn summary_text_is_exact() {
    let stats = LatencyStats { p50: 0, p90: 9, p95: 10, p99: 99, p99_9: 100, p99_99: 101, max: u64::MAX };
    assert_eq!(
        stats.summary(),
        "Latency stats (ns): p50=0, p90=9, p95=10, p99=99, p99.9=100, p99.99=101, max=18446744073709551615"
    );
}

#[test]
fn log_paths_replace_the_dots_of_the_host() {
    let tracker = LatencyTracker::new(1, test_host());
    assert_eq!(tracker.log_directory(), "./test_host");
    assert_eq!(tracker.log_file(), "./test_host/histogram_rust.hlog");
    let tracker = LatencyTracker::new(1, "10.0.0.7".to_string());
    assert_eq!(tracker.log_directory(), "./10_0_0_7");
    let tracker = LatencyTracker::new(1, "localhost".to_string());
    assert_eq!(tracker.log_file(), "./localhost/histogram_rust.hlog");
    let tracker = LatencyTracker::new(1, String::new());
    assert_eq!(tracker.log_directory(), "./");
}
