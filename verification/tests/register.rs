use dns_bench::benchmark::{BenchmarkStats, BenchmarkSummary, NANOS_PER_SECOND, RATE_SCALE};

fn stats_with(total: u64, success: u64, failure: u64) -> BenchmarkStats {
    let mut stats = BenchmarkStats::new();
    stats.total_requests = total;
    stats.successful_responses = success;
    stats.failed_responses = failure;
    stats
}

#[test]
fn new_register_starts_at_zero() {
    let stats = BenchmarkStats::new();
    assert_eq!(stats.total_requests, 0);
    assert_eq!(stats.successful_responses, 0);
    assert_eq!(stats.failed_responses, 0);
}

#[test]
fn increments_touch_only_their_own_counter() {
    let mut stats = BenchmarkStats::new();
    let started = stats.start_time;
    stats.increment_total();
    assert_eq!(
        (stats.total_requests, stats.successful_responses, stats.failed_responses),
        (1, 0, 0)
    );
    stats.increment_success();
    assert_eq!(
        (stats.total_requests, stats.successful_responses, stats.failed_responses),
        (1, 1, 0)
    );
    stats.increment_total();
    stats.increment_failure();
    assert_eq!(
        (stats.total_requests, stats.successful_responses, stats.failed_responses),
        (2, 1, 1)
    );
    assert_eq!(stats.start_time, started);
}

#[test]
fn counters_count_every_call() {
    let mut stats = BenchmarkStats::new();
    for _ in 0..1000 {
        stats.increment_total();
    }
    for _ in 0..600 {
        stats.increment_success();
    }
    for _ in 0..400 {
        stats.increment_failure();
    }
    assert_eq!(stats.total_requests, 1000);
    assert_eq!(stats.successful_responses, 600);
    assert_eq!(stats.failed_responses, 400);
}

#[test]
fn full_counters_start_again_at_zero() {
    let mut stats = stats_with(u64::MAX, u64::MAX, u64::MAX);
    stats.increment_total();
    assert_eq!(stats.total_requests, 0);
    assert_eq!(stats.successful_responses, u64::MAX);
    stats.increment_success();
    assert_eq!(stats.successful_responses, 0);
    assert_eq!(stats.failed_responses, u64::MAX);
    stats.increment_failure();
    assert_eq!(stats.failed_responses, 0);

    let mut nearly = stats_with(u64::MAX - 1, 0, 0);
    nearly.increment_total();
    assert_eq!(nearly.total_requests, u64::MAX);
}

#[test]
fn summary_gives_rates_in_millionths() {
    let stats = stats_with(10, 7, 3);
    let summary = stats.summary_at(2 * NANOS_PER_SECOND);
    assert_eq!(
        summary,
        BenchmarkSummary {
            elapsed_nanos: 2_000_000_000,
            total_requests: 10,
            successful_responses: 7,
            failed_responses: 3,
            requests_per_second: 5_000_000,
            success_rate: 70_000_000,
        }
    );
    assert_eq!(summary.requests_per_second, 5 * RATE_SCALE);
    assert_eq!(summary.success_rate, 70 * RATE_SCALE);
}

#[test]
fn summary_rounds_rates_down() {
    let stats = stats_with(3, 1, 2);
    let summary = stats.summary_at(7 * NANOS_PER_SECOND);
    assert_eq!(summary.requests_per_second, 428_571);
    assert_eq!(summary.success_rate, 33_333_333);

    let two_thirds = stats_with(3, 2, 1).summary_at(NANOS_PER_SECOND);
    assert_eq!(two_thirds.requests_per_second, 3_000_000);
    assert_eq!(two_thirds.success_rate, 66_666_666);
}

#[test]
fn summary_of_a_short_run_still_has_a_rate() {
    let summary = stats_with(1, 1, 0).summary_at(1);
    assert_eq!(summary.requests_per_second, 1_000_000_000_000_000);
    assert_eq!(summary.success_rate, 100_000_000);

    let half_a_millisecond = stats_with(5, 5, 0).summary_at(500_000);
    assert_eq!(half_a_millisecond.requests_per_second, 10_000_000_000);
}

#[test]
fn summary_rate_is_zero_when_no_time_has_passed() {
    let summary = stats_with(10, 7, 3).summary_at(0);
    assert_eq!(summary.requests_per_second, 0);
    assert_eq!(summary.success_rate, 70_000_000);
    assert_eq!(summary.elapsed_nanos, 0);
}

#[test]
fn summary_success_rate_is_zero_when_nothing_was_attempted() {
    let summary = stats_with(0, 0, 0).summary_at(NANOS_PER_SECOND);
    assert_eq!(summary.requests_per_second, 0);
    assert_eq!(summary.success_rate, 0);

    let odd = stats_with(0, 4, 0).summary_at(NANOS_PER_SECOND);
    assert_eq!(odd.success_rate, 0);
    assert_eq!(odd.successful_responses, 4);
}

#[test]
fn summary_of_all_failures_and_all_successes() {
    assert_eq!(stats_with(8, 0, 8).summary_at(NANOS_PER_SECOND).success_rate, 0);
    assert_eq!(stats_with(8, 8, 0).summary_at(NANOS_PER_SECOND).success_rate, 100_000_000);
}

#[test]
fn summary_holds_the_largest_counts() {
    let summary = stats_with(u64::MAX, u64::MAX, 0).summary_at(1);
    assert_eq!(summary.requests_per_second, u64::MAX as u128 * 1_000_000_000_000_000);
    assert_eq!(summary.success_rate, 100_000_000);
    assert_eq!(summary.total_requests, u64::MAX);
}

#[test]
fn summary_does_not_change_the_register() {
    let stats = stats_with(4, 3, 1);
    let first = stats.summary_at(NANOS_PER_SECOND);
    let second = stats.summary_at(NANOS_PER_SECOND);
    assert_eq!(first, second);
    assert_eq!(stats.total_requests, 4);
}

#[test]
fn get_summary_reads_counters_and_clock() {
    let mut stats = BenchmarkStats::new();
    stats.increment_total();
    stats.increment_total();
    stats.increment_success();
    stats.increment_failure();
    let begun = std::time::Instant::now();
    while begun.elapsed() < std::time::Duration::from_millis(20) {}
    let summary = stats.get_summary();
    assert_eq!(summary.total_requests, 2);
    assert_eq!(summary.successful_responses, 1);
    assert_eq!(summary.failed_responses, 1);
    assert!(summary.elapsed_nanos >= 20_000_000);
    assert_eq!(summary, stats.summary_at(summary.elapsed_nanos));
    assert_eq!(summary.success_rate, 50_000_000);
    assert!(summary.requests_per_second > 0);
    assert!(summary.requests_per_second <= 100 * RATE_SCALE);

    let later = stats.get_summary();
    assert!(later.elapsed_nanos >= summary.elapsed_nanos);
}
