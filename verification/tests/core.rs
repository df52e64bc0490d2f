use speedprobe::aggregate::{combine, merge, AggregatePolicy};
use speedprobe::outcome::{ErrorKind, ProbeOutcome, ProbeResult};
use speedprobe::render::{format_speed, u64_to_dec, LAST_UNIT, SCALE, THRESHOLD};
use speedprobe::sched::{count_successes, Collector, TargetList};
use speedprobe::speed::{sat_add_u64, speed_sample};

#[test]
fn speed_formula_exact() {
    assert_eq!(speed_sample(1000, 500), 2000);
    assert_eq!(speed_sample(1048576, 1000), 1048576);
    assert_eq!(speed_sample(10_000_000, 2000), 5_000_000);
    assert_eq!(speed_sample(1, 3), 333);
}

#[test]
fn speed_zero_duration_guarded() {
    assert_eq!(speed_sample(12345, 0), 0);
    assert_eq!(ProbeResult { bytes: 12345, millis: 0 }.to_speed(), 0);
}

#[test]
fn speed_saturates() {
    assert_eq!(speed_sample(u64::MAX, 1), u64::MAX);
    assert_eq!(sat_add_u64(u64::MAX - 1, 5), u64::MAX);
    assert_eq!(sat_add_u64(2, 5), 7);
}

#[test]
fn scale_convention_locked() {
    assert_eq!(SCALE, 1024);
    assert_eq!(THRESHOLD, 1000);
    assert_eq!(LAST_UNIT, 2);
}

#[test]
fn format_basic_units() {
    assert_eq!(format_speed(0), "0B/s");
    assert_eq!(format_speed(999), "999B/s");
    assert_eq!(format_speed(1000), "1000B/s");
    assert_eq!(format_speed(2048), "2KB/s");
    assert_eq!(format_speed(1048576), "1MB/s");
}

#[test]
fn format_magnitude_stays_scaled() {
    // just over the threshold: one division by the 1024 scale
    assert_eq!(format_speed(1001), "0KB/s");
    // a huge speed stays in the last unit, whatever its magnitude
    assert_eq!(format_speed(5_000_000_000), "4768MB/s");
}

#[test]
fn decimal_rendering() {
    assert_eq!(u64_to_dec(0), "0");
    assert_eq!(u64_to_dec(7), "7");
    assert_eq!(u64_to_dec(1234567890), "1234567890");
    assert_eq!(u64_to_dec(u64::MAX), "18446744073709551615");
}

#[test]
fn all_failures_aggregate_to_zero() {
    let outcomes = vec![
        ProbeOutcome::Failure(ErrorKind::ConnectFailed),
        ProbeOutcome::Failure(ErrorKind::UnexpectedStatus),
        ProbeOutcome::Failure(ErrorKind::TransferError),
    ];
    assert_eq!(combine(&outcomes, AggregatePolicy::SumBytesOverWindow), 0);
    assert_eq!(combine(&outcomes, AggregatePolicy::AverageOfSpeeds), 0);
    assert_eq!(combine(&outcomes, AggregatePolicy::PairwiseMerge), 0);
}

#[test]
fn empty_aggregates_to_zero() {
    let outcomes: Vec<ProbeOutcome> = vec![];
    assert_eq!(combine(&outcomes, AggregatePolicy::SumBytesOverWindow), 0);
    assert_eq!(combine(&outcomes, AggregatePolicy::PairwiseMerge), 0);
}

#[test]
fn single_success_binary_scale() {
    let outcomes = vec![ProbeOutcome::Success(ProbeResult { bytes: 1048576, millis: 1000 })];
    let speed = combine(&outcomes, AggregatePolicy::SumBytesOverWindow);
    assert_eq!(speed, 1048576);
    // 1048576 / 1024 = 1024, still above the threshold, so a second division
    // lands in the last unit
    assert_eq!(format_speed(speed), "1MB/s");
}

#[test]
fn zero_byte_success_counts_as_zero() {
    let outcomes = vec![
        ProbeOutcome::Success(ProbeResult { bytes: 0, millis: 100 }),
        ProbeOutcome::Success(ProbeResult { bytes: 500, millis: 1000 }),
    ];
    assert_eq!(combine(&outcomes, AggregatePolicy::SumBytesOverWindow), 500);
    assert_eq!(count_successes(&outcomes), 2);
}

#[test]
fn sum_policy_sums_per_probe_samples() {
    let outcomes = vec![
        ProbeOutcome::Success(ProbeResult { bytes: 1000, millis: 500 }),
        ProbeOutcome::Failure(ErrorKind::TransferError),
        ProbeOutcome::Success(ProbeResult { bytes: 1000, millis: 1500 }),
    ];
    // 1000*1000/500 + 1000*1000/1500 = 2000 + 666
    assert_eq!(combine(&outcomes, AggregatePolicy::SumBytesOverWindow), 2666);
    assert_eq!(combine(&outcomes, AggregatePolicy::AverageOfSpeeds), 2666);
}

#[test]
fn pairwise_policy_merges_then_derives() {
    let outcomes = vec![
        ProbeOutcome::Success(ProbeResult { bytes: 1000, millis: 500 }),
        ProbeOutcome::Failure(ErrorKind::TransferError),
        ProbeOutcome::Success(ProbeResult { bytes: 1000, millis: 1500 }),
    ];
    // merged: bytes 2000, millis (500 + 1500) / 2 = 1000 -> 2000 B/s
    assert_eq!(combine(&outcomes, AggregatePolicy::PairwiseMerge), 2000);
}

#[test]
fn merge_sums_bytes_averages_time() {
    let m = merge(
        ProbeResult { bytes: 300, millis: 100 },
        ProbeResult { bytes: 700, millis: 300 },
    );
    assert_eq!(m, ProbeResult { bytes: 1000, millis: 200 });
}

#[test]
fn join_counts_every_outcome_once() {
    let n: usize = 5;
    let mut collector = Collector::new(n);
    let fed = [
        ProbeOutcome::Success(ProbeResult { bytes: 10, millis: 10 }),
        ProbeOutcome::Failure(ErrorKind::ConnectFailed),
        ProbeOutcome::Success(ProbeResult { bytes: 20, millis: 10 }),
        ProbeOutcome::Failure(ErrorKind::UnexpectedStatus),
        ProbeOutcome::Failure(ErrorKind::TransferError),
    ];
    for o in fed {
        assert!(!collector.complete());
        collector.record(o);
    }
    assert!(collector.complete());
    let outcomes = collector.into_outcomes();
    assert_eq!(outcomes.len(), n);
    assert_eq!(count_successes(&outcomes), 2);
}

#[test]
fn targets_expand_explicit() {
    let t = TargetList::Explicit(vec![
        String::from("http://a.example/x"),
        String::from("http://b.example/y"),
    ]);
    assert_eq!(t.probe_count(), 2);
    let urls = t.expand();
    assert_eq!(urls, vec!["http://a.example/x", "http://b.example/y"]);
}

#[test]
fn targets_expand_repeat() {
    let t = TargetList::Repeat { url: String::from("http://c.example/z"), count: 3 };
    assert_eq!(t.probe_count(), 3);
    let urls = t.expand();
    assert_eq!(urls.len(), 3);
    for u in &urls {
        assert_eq!(u, "http://c.example/z");
    }
}
