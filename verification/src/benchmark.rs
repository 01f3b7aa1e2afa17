//! The statistics register of a run and the summaries taken from it.

use crate::clock::{nanos_since, now};
use std::time::Instant;
use vstd::prelude::*;

verus! {

/// Rates are kept as whole numbers of millionths.
pub const RATE_SCALE: u128 = 1_000_000;

/// Nanoseconds in one second.
pub const NANOS_PER_SECOND: u128 = 1_000_000_000;

/// The count after one more event. A counter that has reached the largest
/// 64-bit number starts again at zero.
pub open spec fn next_count(n: u64) -> u64 {
    if n == u64::MAX {
        0
    } else {
        (n + 1) as u64
    }
}

/// Requests per second, in millionths: `total` requests spread over
/// `elapsed_nanos` nanoseconds, rounded down. Zero when no time has passed.
pub open spec fn requests_per_second(total: u64, elapsed_nanos: u128) -> int {
    if elapsed_nanos == 0 {
        0
    } else {
        (total * NANOS_PER_SECOND * RATE_SCALE) / (elapsed_nanos as int)
    }
}

/// Share of `total` requests that succeeded, as a percentage in
/// millionths, rounded down. Zero when nothing was requested.
pub open spec fn success_rate(success: u64, total: u64) -> int {
    if total == 0 {
        0
    } else {
        (success * 100 * RATE_SCALE) / (total as int)
    }
}

/// The success rate is a percentage: where no more requests succeeded than
/// were made, it lies between 0 and 100.
pub proof fn lemma_success_rate_is_percentage(success: u64, total: u64)
    requires
        success <= total,
    ensures
        0 <= success_rate(success, total) <= 100 * RATE_SCALE,
{
    if total > 0 {
        let scaled: int = success * 100 * RATE_SCALE;
        let full: int = 100 * RATE_SCALE * total;
        assert(scaled <= full) by (nonlinear_arith)
            requires
                scaled == success * 100 * RATE_SCALE,
                full == 100 * RATE_SCALE * total,
                success <= total,
        ;
        assert(0 <= scaled / (total as int) <= 100 * RATE_SCALE) by (nonlinear_arith)
            requires
                0 <= scaled <= full,
                full == 100 * RATE_SCALE * total,
                total > 0,
        ;
    }
}

/// The request rate is the number of requests over the seconds that have
/// passed: multiplied back by the time, it is off by less than one
/// millionth of a request per second.
pub proof fn lemma_requests_per_second_is_quotient(total: u64, elapsed_nanos: u128)
    requires
        elapsed_nanos > 0,
    ensures
        ({
            let rate = requests_per_second(total, elapsed_nanos);
            let scaled = total * NANOS_PER_SECOND * RATE_SCALE;
            rate * elapsed_nanos <= scaled < (rate + 1) * elapsed_nanos
        }),
{
    let scaled: int = total * NANOS_PER_SECOND * RATE_SCALE;
    let d: int = elapsed_nanos as int;
    vstd::arithmetic::div_mod::lemma_fundamental_div_mod(scaled, d);
    vstd::arithmetic::div_mod::lemma_mod_bound(scaled, d);
    assert((scaled / d) * d == d * (scaled / d)) by (nonlinear_arith);
    assert((scaled / d + 1) * d == (scaled / d) * d + d) by (nonlinear_arith);
}

/// A snapshot of a run: what the register held at one moment, and the
/// two rates that follow from it.
#[derive(Debug, Clone, Copy, PartialEq, Eq)]
pub struct BenchmarkSummary {
    /// Time since the register was created, in nanoseconds.
    pub elapsed_nanos: u128,
    pub total_requests: u64,
    pub successful_responses: u64,
    pub failed_responses: u64,
    /// Requests per second, in millionths.
    pub requests_per_second: u128,
    /// Percentage of requests that succeeded, in millionths.
    pub success_rate: u128,
}

impl BenchmarkSummary {
    /// The summary of the given counts after `elapsed_nanos` nanoseconds.
    pub open spec fn of(total: u64, success: u64, failure: u64, elapsed_nanos: u128) -> Self {
        BenchmarkSummary {
            elapsed_nanos,
            total_requests: total,
            successful_responses: success,
            failed_responses: failure,
            requests_per_second: requests_per_second(total, elapsed_nanos) as u128,
            success_rate: success_rate(success, total) as u128,
        }
    }
}

/// The counters of one run: queries attempted, answered and failed, and
/// the instant at which the run began.
#[derive(Debug, Clone, Copy)]
pub struct BenchmarkStats {
    pub total_requests: u64,
    pub successful_responses: u64,
    pub failed_responses: u64,
    pub start_time: Instant,
}

impl BenchmarkStats {
    /// A register with all counters at zero, started now.
    pub fn new() -> (stats: Self)
        ensures
            stats.total_requests == 0,
            stats.successful_responses == 0,
            stats.failed_responses == 0,
    {
        Self { total_requests: 0, successful_responses: 0, failed_responses: 0, start_time: now() }
    }

    /// Counts one more attempted query.
    pub fn increment_total(&mut self)
        ensures
            final(self).total_requests == next_count(old(self).total_requests),
            final(self).successful_responses == old(self).successful_responses,
            final(self).failed_responses == old(self).failed_responses,
            final(self).start_time == old(self).start_time,
    {
        self.total_requests = self.total_requests.wrapping_add(1);
    }

    /// Counts one more query that was answered.
    pub fn increment_success(&mut self)
        ensures
            final(self).successful_responses == next_count(old(self).successful_responses),
            final(self).total_requests == old(self).total_requests,
            final(self).failed_responses == old(self).failed_responses,
            final(self).start_time == old(self).start_time,
    {
        self.successful_responses = self.successful_responses.wrapping_add(1);
    }

    /// Counts one more query that failed.
    pub fn increment_failure(&mut self)
        ensures
            final(self).failed_responses == next_count(old(self).failed_responses),
            final(self).total_requests == old(self).total_requests,
            final(self).successful_responses == old(self).successful_responses,
            final(self).start_time == old(self).start_time,
    {
        self.failed_responses = self.failed_responses.wrapping_add(1);
    }

    /// The summary of the counters as they stand, for a run that has
    /// lasted `elapsed_nanos` nanoseconds.
    pub fn summary_at(&self, elapsed_nanos: u128) -> (summary: BenchmarkSummary)
        ensures
            summary == BenchmarkSummary::of(
                self.total_requests,
                self.successful_responses,
                self.failed_responses,
                elapsed_nanos,
            ),
    {
        let total: u64 = self.total_requests;
        let success: u64 = self.successful_responses;
        let requests_per_second: u128 = if elapsed_nanos == 0 {
            0
        } else {
            (total as u128 * NANOS_PER_SECOND * RATE_SCALE) / elapsed_nanos
        };
        let success_rate: u128 = if total == 0 {
            0
        } else {
            (success as u128 * 100 * RATE_SCALE) / (total as u128)
        };
        BenchmarkSummary {
            elapsed_nanos,
            total_requests: total,
            successful_responses: success,
            failed_responses: self.failed_responses,
            requests_per_second,
            success_rate,
        }
    }

    /// The summary of the counters as they stand, at the time that has
    /// passed since the register was created.
    pub fn get_summary(&self) -> (summary: BenchmarkSummary)
        ensures
            summary == BenchmarkSummary::of(
                self.total_requests,
                self.successful_responses,
                self.failed_responses,
                summary.elapsed_nanos,
            ),
    {
        let elapsed_nanos: u128 = nanos_since(&self.start_time);
        self.summary_at(elapsed_nanos)
    }
}

} // verus!
