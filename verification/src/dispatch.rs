//! The dispatch engine: when may the next query start, and when is the run
//! over?
//!
//! The engine does no waiting and starts no task itself. It is a state
//! machine: it names the next thing to do, the driver does it and reports
//! what happened, and the engine moves on. All counting happens here, so
//! the counters of a run are consistent by construction.

use crate::benchmark::{BenchmarkStats, BenchmarkSummary};
use crate::clock::{nanos_since, now};
use crate::transport::TransportError;
use std::time::Instant;
use vstd::prelude::*;

verus! {

/// Milliseconds in one second.
pub const MILLIS_PER_SECOND: u64 = 1000;

/// Time between two refreshes of the status text, in nanoseconds.
pub const STATUS_REFRESH_NANOS: u128 = 500_000_000;

/// The policy that admits queries to the network.
#[derive(Clone, Copy, Debug, PartialEq, Eq, Structural)]
pub enum AdmissionStrategy {
    /// At most `max_in_flight` queries are under way at any moment. A new
    /// one starts as soon as a permit is free.
    Concurrency { max_in_flight: usize },
    /// A timer ticks `rate` times a second. Every tick starts a batch of up
    /// to `rate` queries, and the batch is awaited in full before the next
    /// tick is.
    Rate { rate: u32 },
}

impl AdmissionStrategy {
    /// The time between two ticks in milliseconds: `1000 / rate`, rounded
    /// down. Only a rate above zero has one.
    pub open spec fn tick_period(self) -> Option<u64> {
        match self {
            AdmissionStrategy::Rate { rate } if rate > 0 => Some((MILLIS_PER_SECOND / rate as u64) as u64),
            _ => None,
        }
    }

    /// Whether the strategy ever lets a query start: its limit, or its
    /// rate, is above zero.
    pub open spec fn admits(self) -> bool {
        match self {
            AdmissionStrategy::Concurrency { max_in_flight } => max_in_flight > 0,
            AdmissionStrategy::Rate { rate } => rate > 0,
        }
    }

    /// The time between two ticks of the strategy's timer, if it has one.
    pub fn tick_period_millis(&self) -> (period: Option<u64>)
        ensures
            period == self.tick_period(),
    {
        match self {
            AdmissionStrategy::Rate { rate } => {
                if *rate > 0 {
                    Some(MILLIS_PER_SECOND / (*rate as u64))
                } else {
                    None
                }
            },
            AdmissionStrategy::Concurrency { .. } => None,
        }
    }
}

/// What the driver of a run is to do next.
#[derive(Clone, Copy, Debug, PartialEq, Eq, Structural)]
pub enum Action {
    /// Start one query now, then report `Event::Launched`.
    Launch,
    /// Wait until one of the queries under way has ended, then report
    /// `Event::Completed` with its outcome.
    AwaitCompletion,
    /// Wait for the next tick of the timer, then report `Event::Tick`.
    AwaitTick,
    /// Every query has been started and has ended: take the final summary.
    Finish,
}

/// What the driver of a run reports back.
#[derive(Clone, Copy, Debug, PartialEq, Eq)]
pub enum Event {
    /// One query has been started.
    Launched,
    /// One query has ended, with this outcome.
    Completed(Result<(), TransportError>),
    /// The timer has ticked.
    Tick,
}

/// The state of a run, in unbounded numbers.
pub struct DispatchModel {
    /// Queries the run is to send in all.
    pub total_count: nat,
    pub strategy: AdmissionStrategy,
    /// Queries started so far.
    pub launched: nat,
    /// Queries started and not yet ended.
    pub in_flight: nat,
    /// Queries of the current batch that the last tick admitted and that
    /// have not been started yet.
    pub batch_left: nat,
    /// The three counters of the statistics register.
    pub attempted: nat,
    pub succeeded: nat,
    pub failed: nat,
}

impl DispatchModel {
    /// A run of `total_count` queries before anything has happened.
    pub open spec fn initial(total_count: nat, strategy: AdmissionStrategy) -> DispatchModel {
        DispatchModel {
            total_count,
            strategy,
            launched: 0,
            in_flight: 0,
            batch_left: 0,
            attempted: 0,
            succeeded: 0,
            failed: 0,
        }
    }

    /// Queries that have ended, one way or the other.
    pub open spec fn completed(self) -> nat {
        self.succeeded + self.failed
    }

    /// Size of the batch that a tick admits: the rate, or what is left of
    /// the run where that is less.
    pub open spec fn batch_size(self) -> nat {
        match self.strategy {
            AdmissionStrategy::Rate { rate } => if rate <= self.total_count - self.launched {
                rate as nat
            } else {
                (self.total_count - self.launched) as nat
            },
            AdmissionStrategy::Concurrency { .. } => 0,
        }
    }

    /// What is to be done next in this state.
    pub open spec fn decide(self) -> Action {
        match self.strategy {
            AdmissionStrategy::Concurrency { max_in_flight } => {
                if self.launched < self.total_count {
                    if self.in_flight < max_in_flight {
                        Action::Launch
                    } else {
                        Action::AwaitCompletion
                    }
                } else if self.in_flight > 0 {
                    Action::AwaitCompletion
                } else {
                    Action::Finish
                }
            },
            AdmissionStrategy::Rate { .. } => {
                if self.batch_left > 0 {
                    Action::Launch
                } else if self.in_flight > 0 {
                    Action::AwaitCompletion
                } else if self.launched < self.total_count {
                    Action::AwaitTick
                } else {
                    Action::Finish
                }
            },
        }
    }

    /// Whether `event` can happen in this state. A query is started only
    /// when the engine asks for it, a query can end whenever one is under
    /// way, and a tick counts only while the engine waits for one.
    pub open spec fn enabled(self, event: Event) -> bool {
        match event {
            Event::Launched => self.decide() == Action::Launch,
            Event::Completed(_) => self.in_flight > 0,
            Event::Tick => self.decide() == Action::AwaitTick,
        }
    }

    /// The state after `event`. An event that cannot happen changes nothing.
    pub open spec fn apply(self, event: Event) -> DispatchModel {
        if !self.enabled(event) {
            self
        } else {
            match event {
                Event::Launched => DispatchModel {
                    launched: self.launched + 1,
                    in_flight: self.in_flight + 1,
                    attempted: self.attempted + 1,
                    batch_left: if self.batch_left > 0 {
                        (self.batch_left - 1) as nat
                    } else {
                        0
                    },
                    ..self
                },
                Event::Completed(Ok(_)) => DispatchModel {
                    in_flight: (self.in_flight - 1) as nat,
                    succeeded: self.succeeded + 1,
                    ..self
                },
                Event::Completed(Err(_)) => DispatchModel {
                    in_flight: (self.in_flight - 1) as nat,
                    failed: self.failed + 1,
                    ..self
                },
                Event::Tick => DispatchModel { batch_left: self.batch_size(), ..self },
            }
        }
    }

    /// The state after all of `events`, first to last.
    pub open spec fn run(self, events: Seq<Event>) -> DispatchModel
        decreases events.len(),
    {
        if events.len() == 0 {
            self
        } else {
            self.run(events.drop_last()).apply(events.last())
        }
    }

    /// The event that the driver reports when it has done what `decide`
    /// asks for, where `outcome` is how the awaited query ended.
    pub open spec fn awaited(self, outcome: Result<(), TransportError>) -> Event {
        match self.decide() {
            Action::Launch => Event::Launched,
            Action::AwaitTick => Event::Tick,
            _ => Event::Completed(outcome),
        }
    }

    /// Whether the run waits for a tick before it can start anything.
    pub open spec fn tick_pending(self) -> bool {
        &&& self.strategy is Rate
        &&& self.batch_left == 0
        &&& self.launched < self.total_count
    }

    /// A bound on the number of events that the run still needs.
    pub open spec fn work_left(self) -> nat {
        let unstarted = (self.total_count - self.launched) as nat;
        let tick: nat = if self.tick_pending() {
            1
        } else {
            0
        };
        3 * unstarted + self.in_flight + tick
    }

    /// Number of ticks among `events` that the run took note of.
    pub open spec fn ticks(self, events: Seq<Event>) -> nat
        decreases events.len(),
    {
        if events.len() == 0 {
            0
        } else {
            let counted: nat = if events.last() is Tick && self.run(events.drop_last()).enabled(
                Event::Tick,
            ) {
                1
            } else {
                0
            };
            self.ticks(events.drop_last()) + counted
        }
    }

    /// What holds of every state that a run can reach.
    pub open spec fn inv(self) -> bool {
        &&& self.launched <= self.total_count
        &&& self.attempted == self.launched
        &&& self.succeeded + self.failed + self.in_flight == self.attempted
        &&& match self.strategy {
            AdmissionStrategy::Concurrency { max_in_flight } => {
                &&& self.in_flight <= max_in_flight
                &&& self.batch_left == 0
            },
            AdmissionStrategy::Rate { rate } => {
                &&& self.in_flight + self.batch_left <= rate
                &&& self.batch_left <= self.total_count - self.launched
            },
        }
    }
}

/// Whether the status text is due again, `since_last_nanos` nanoseconds
/// after it was last refreshed.
pub open spec fn refresh_due(since_last_nanos: u128) -> bool {
    since_last_nanos >= STATUS_REFRESH_NANOS
}

/// Decides whether the status text is to be refreshed: at least half a
/// second has to have passed since the last refresh.
pub fn is_refresh_due(since_last_nanos: u128) -> (due: bool)
    ensures
        due == refresh_due(since_last_nanos),
{
    since_last_nanos >= STATUS_REFRESH_NANOS
}

/// The engine of one run: its configuration, its progress and its
/// statistics register.
pub struct DispatchEngine {
    total_count: u64,
    strategy: AdmissionStrategy,
    launched: u64,
    in_flight: u64,
    batch_left: u64,
    stats: BenchmarkStats,
    last_refresh: Instant,
}

impl View for DispatchEngine {
    type V = DispatchModel;

    closed spec fn view(&self) -> DispatchModel {
        DispatchModel {
            total_count: self.total_count as nat,
            strategy: self.strategy,
            launched: self.launched as nat,
            in_flight: self.in_flight as nat,
            batch_left: self.batch_left as nat,
            attempted: self.stats.total_requests as nat,
            succeeded: self.stats.successful_responses as nat,
            failed: self.stats.failed_responses as nat,
        }
    }
}

impl DispatchEngine {
    #[verifier::type_invariant]
    spec fn reachable(self) -> bool {
        self@.inv()
    }

    /// An engine for a run of `total_count` queries under `strategy`, with
    /// a fresh statistics register.
    pub fn new(total_count: u64, strategy: AdmissionStrategy) -> (engine: Self)
        ensures
            engine@ == DispatchModel::initial(total_count as nat, strategy),
    {
        Self {
            total_count,
            strategy,
            launched: 0,
            in_flight: 0,
            batch_left: 0,
            stats: BenchmarkStats::new(),
            last_refresh: now(),
        }
    }

    /// What the driver is to do next. When that is `Finish`, every query
    /// of the run has been attempted and has been counted as a success or
    /// as a failure.
    pub fn next_action(&self) -> (action: Action)
        ensures
            self@.inv(),
            action == self@.decide(),
            action == Action::Finish ==> self@.attempted == self@.total_count && self@.succeeded
                + self@.failed == self@.attempted,
    {
        proof {
            use_type_invariant(self);
        }
        match self.strategy {
            AdmissionStrategy::Concurrency { max_in_flight } => {
                if self.launched < self.total_count {
                    if self.in_flight < max_in_flight as u64 {
                        Action::Launch
                    } else {
                        Action::AwaitCompletion
                    }
                } else if self.in_flight > 0 {
                    Action::AwaitCompletion
                } else {
                    Action::Finish
                }
            },
            AdmissionStrategy::Rate { .. } => {
                if self.batch_left > 0 {
                    Action::Launch
                } else if self.in_flight > 0 {
                    Action::AwaitCompletion
                } else if self.launched < self.total_count {
                    Action::AwaitTick
                } else {
                    Action::Finish
                }
            },
        }
    }

    /// Takes note of `event`. An event that cannot happen in the present
    /// state is refused and changes nothing.
    pub fn handle(&mut self, event: Event) -> (accepted: bool)
        ensures
            accepted == old(self)@.enabled(event),
            final(self)@ == old(self)@.apply(event),
    {
        let action = self.next_action();
        let mut stats = self.stats;
        match event {
            Event::Launched => {
                if action == Action::Launch {
                    stats.increment_total();
                    let batch_left: u64 = if self.batch_left > 0 {
                        self.batch_left - 1
                    } else {
                        0
                    };
                    *self = Self {
                        launched: self.launched + 1,
                        in_flight: self.in_flight + 1,
                        batch_left,
                        stats,
                        ..*self
                    };
                    true
                } else {
                    false
                }
            },
            Event::Completed(outcome) => {
                if self.in_flight > 0 {
                    match outcome {
                        Ok(_) => stats.increment_success(),
                        Err(_) => stats.increment_failure(),
                    }
                    *self = Self { in_flight: self.in_flight - 1, stats, ..*self };
                    true
                } else {
                    false
                }
            },
            Event::Tick => {
                if action == Action::AwaitTick {
                    let remaining: u64 = self.total_count - self.launched;
                    let batch_left: u64 = match self.strategy {
                        AdmissionStrategy::Rate { rate } => {
                            if rate as u64 <= remaining {
                                rate as u64
                            } else {
                                remaining
                            }
                        },
                        AdmissionStrategy::Concurrency { .. } => 0,
                    };
                    *self = Self { batch_left, ..*self };
                    true
                } else {
                    false
                }
            },
        }
    }

    /// Queries that are under way: started and not yet ended. Under the
    /// concurrency-bounded strategy they never outnumber the limit, and
    /// under the rate-bounded strategy never the rate.
    pub fn in_flight(&self) -> (n: u64)
        ensures
            n == self@.in_flight,
            self@.strategy matches AdmissionStrategy::Concurrency { max_in_flight } ==> n
                <= max_in_flight,
            self@.strategy matches AdmissionStrategy::Rate { rate } ==> n <= rate,
    {
        proof {
            use_type_invariant(self);
        }
        self.in_flight
    }

    /// Queries that have ended so far: the position of the progress signal.
    pub fn progress(&self) -> (done: u64)
        ensures
            done == self@.completed(),
            done <= self@.total_count,
    {
        proof {
            use_type_invariant(self);
        }
        self.stats.successful_responses + self.stats.failed_responses
    }

    /// The statistics register of the run.
    pub fn stats(&self) -> (stats: &BenchmarkStats)
        ensures
            stats.total_requests == self@.attempted,
            stats.successful_responses == self@.succeeded,
            stats.failed_responses == self@.failed,
    {
        &self.stats
    }

    /// A summary of the run as it stands, at the time that has passed
    /// since the engine was created.
    pub fn summary(&self) -> (summary: BenchmarkSummary)
        ensures
            summary.total_requests == self@.attempted,
            summary.successful_responses == self@.succeeded,
            summary.failed_responses == self@.failed,
            summary == BenchmarkSummary::of(
                summary.total_requests,
                summary.successful_responses,
                summary.failed_responses,
                summary.elapsed_nanos,
            ),
    {
        self.stats.get_summary()
    }

    /// The summary for the status text, if the text is due: the text was
    /// last refreshed `since_last_nanos` nanoseconds ago, and the run has
    /// lasted `elapsed_nanos` nanoseconds.
    pub fn status_at(&self, since_last_nanos: u128, elapsed_nanos: u128) -> (status: Option<
        BenchmarkSummary,
    >)
        ensures
            status == if refresh_due(since_last_nanos) {
                Some(
                    BenchmarkSummary::of(
                        self@.attempted as u64,
                        self@.succeeded as u64,
                        self@.failed as u64,
                        elapsed_nanos,
                    ),
                )
            } else {
                None
            },
    {
        if is_refresh_due(since_last_nanos) {
            Some(self.stats.summary_at(elapsed_nanos))
        } else {
            None
        }
    }

    /// The summary for the status text, if the text is due by the clock:
    /// at least half a second after the engine was created or the text
    /// was last due. The run itself is left as it is.
    pub fn poll_status(&mut self) -> (status: Option<BenchmarkSummary>)
        ensures
            final(self)@ == old(self)@,
            status matches Some(summary) ==> summary == BenchmarkSummary::of(
                old(self)@.attempted as u64,
                old(self)@.succeeded as u64,
                old(self)@.failed as u64,
                summary.elapsed_nanos,
            ),
    {
        proof {
            use_type_invariant(&*self);
        }
        let since_last: u128 = nanos_since(&self.last_refresh);
        let elapsed: u128 = nanos_since(&self.stats.start_time);
        let status = self.status_at(since_last, elapsed);
        if status.is_some() {
            self.last_refresh = now();
        }
        status
    }
}

/// No event leads out of the states that a run can reach.
pub proof fn lemma_apply_keeps_inv(state: DispatchModel, event: Event)
    requires
        state.inv(),
    ensures
        state.apply(event).inv(),
        state.apply(event).total_count == state.total_count,
        state.apply(event).strategy == state.strategy,
{
}

/// The counters of a run only ever grow, and each event adds at most one
/// to each of them.
pub proof fn lemma_counters_never_decrease(state: DispatchModel, event: Event)
    ensures
        state.attempted <= state.apply(event).attempted <= state.attempted + 1,
        state.succeeded <= state.apply(event).succeeded <= state.succeeded + 1,
        state.failed <= state.apply(event).failed <= state.failed + 1,
        state.completed() <= state.apply(event).completed() <= state.completed() + 1,
{
}

/// Whatever is reported, in whatever order, the run stays within the
/// states described by `inv`.
pub proof fn lemma_run_keeps_inv(total_count: nat, strategy: AdmissionStrategy, events: Seq<Event>)
    ensures
        DispatchModel::initial(total_count, strategy).run(events).inv(),
        DispatchModel::initial(total_count, strategy).run(events).total_count == total_count,
        DispatchModel::initial(total_count, strategy).run(events).strategy == strategy,
    decreases events.len(),
{
    if events.len() > 0 {
        lemma_run_keeps_inv(total_count, strategy, events.drop_last());
        lemma_apply_keeps_inv(
            DispatchModel::initial(total_count, strategy).run(events.drop_last()),
            events.last(),
        );
    }
}

/// Under the concurrency-bounded strategy the number of queries under way
/// never passes the limit, at any point of any run.
pub proof fn lemma_in_flight_bounded(total_count: nat, max_in_flight: usize, events: Seq<Event>)
    ensures
        DispatchModel::initial(total_count, AdmissionStrategy::Concurrency { max_in_flight }).run(
            events,
        ).in_flight <= max_in_flight,
{
    lemma_run_keeps_inv(total_count, AdmissionStrategy::Concurrency { max_in_flight }, events);
}

/// Under the rate-bounded strategy a batch never has more than `rate`
/// queries, started or still to start, at any point of any run.
pub proof fn lemma_batch_bounded(total_count: nat, rate: u32, events: Seq<Event>)
    ensures
        ({
            let state = DispatchModel::initial(total_count, AdmissionStrategy::Rate { rate }).run(
                events,
            );
            state.in_flight + state.batch_left <= rate
        }),
{
    lemma_run_keeps_inv(total_count, AdmissionStrategy::Rate { rate }, events);
}

/// When a run is over, every query it was configured for has been
/// attempted.
pub proof fn lemma_finish_attempted_all(
    total_count: nat,
    strategy: AdmissionStrategy,
    events: Seq<Event>,
)
    requires
        DispatchModel::initial(total_count, strategy).run(events).decide() == Action::Finish,
    ensures
        DispatchModel::initial(total_count, strategy).run(events).attempted == total_count,
{
    lemma_run_keeps_inv(total_count, strategy, events);
}

/// When a run is over, every attempted query has been counted as a
/// success or as a failure, and none is under way.
pub proof fn lemma_finish_drained(
    total_count: nat,
    strategy: AdmissionStrategy,
    events: Seq<Event>,
)
    requires
        DispatchModel::initial(total_count, strategy).run(events).decide() == Action::Finish,
    ensures
        ({
            let state = DispatchModel::initial(total_count, strategy).run(events);
            &&& state.succeeded + state.failed == state.attempted
            &&& state.in_flight == 0
        }),
{
    lemma_run_keeps_inv(total_count, strategy, events);
}

/// At every point of every run, no more queries have ended than were
/// attempted, and no more were attempted than the run was configured for.
pub proof fn lemma_counters_ordered(
    total_count: nat,
    strategy: AdmissionStrategy,
    events: Seq<Event>,
)
    ensures
        ({
            let state = DispatchModel::initial(total_count, strategy).run(events);
            state.succeeded + state.failed <= state.attempted <= total_count
        }),
{
    lemma_run_keeps_inv(total_count, strategy, events);
}

/// A run of no queries is over before it begins: the first thing asked
/// for is the final summary, all counters are zero, and so are both rates
/// of any summary taken then.
pub proof fn lemma_empty_run(strategy: AdmissionStrategy, elapsed_nanos: u128)
    ensures
        DispatchModel::initial(0, strategy).decide() == Action::Finish,
        DispatchModel::initial(0, strategy).attempted == 0,
        DispatchModel::initial(0, strategy).succeeded == 0,
        DispatchModel::initial(0, strategy).failed == 0,
        BenchmarkSummary::of(0, 0, 0, elapsed_nanos).requests_per_second == 0,
        BenchmarkSummary::of(0, 0, 0, elapsed_nanos).success_rate == 0,
{
    assert(0 * crate::benchmark::NANOS_PER_SECOND * crate::benchmark::RATE_SCALE == 0);
}

/// A run does not get stuck: as long as it is not over, and the strategy
/// admits queries at all, the event that the engine asks for can happen,
/// and it brings the run closer to its end.
pub proof fn lemma_awaited_event_makes_progress(
    state: DispatchModel,
    outcome: Result<(), TransportError>,
)
    requires
        state.inv(),
        state.strategy.admits(),
        state.decide() != Action::Finish,
    ensures
        state.enabled(state.awaited(outcome)),
        state.apply(state.awaited(outcome)).work_left() < state.work_left(),
{
}

/// A run is over exactly when no work is left.
pub proof fn lemma_finish_means_no_work_left(state: DispatchModel)
    requires
        state.inv(),
    ensures
        state.decide() == Action::Finish <==> state.work_left() == 0,
{
}

/// Under the rate-bounded strategy every tick admits one batch: after `k`
/// ticks, `k * rate` queries have been admitted, or all of them where the
/// run has fewer. No tick is taken once all have been admitted.
pub proof fn lemma_ticks_admit_batches(total_count: nat, rate: u32, events: Seq<Event>)
    requires
        rate > 0,
    ensures
        ({
            let start = DispatchModel::initial(total_count, AdmissionStrategy::Rate { rate });
            let state = start.run(events);
            let k = start.ticks(events);
            &&& k * rate >= total_count ==> state.launched + state.batch_left == total_count
            &&& k * rate < total_count ==> state.launched + state.batch_left == k * rate
            &&& k > 0 ==> (k - 1) * rate < total_count
        }),
    decreases events.len(),
{
    let strategy = AdmissionStrategy::Rate { rate };
    let start = DispatchModel::initial(total_count, strategy);
    if events.len() > 0 {
        let earlier = events.drop_last();
        let before = start.run(earlier);
        let k = start.ticks(earlier);
        lemma_ticks_admit_batches(total_count, rate, earlier);
        lemma_run_keeps_inv(total_count, strategy, earlier);
        let state = start.run(events);
        let k2 = start.ticks(events);
        assert(state == before.apply(events.last()));
        if events.last() is Tick && before.enabled(Event::Tick) {
            assert(k2 == k + 1);
            assert(before.launched < total_count);
            assert(before.batch_left == 0);
            assert(k * rate < total_count);
            assert((k + 1) * rate == k * rate + rate) by (nonlinear_arith);
            assert((k + 1 - 1) * rate == k * rate);
            assert(state.launched + state.batch_left == before.launched + before.batch_size());
        } else {
            assert(k2 == k);
            assert(state.launched + state.batch_left == before.launched + before.batch_left);
        }
    } else {
        assert(start.ticks(events) * rate == 0) by (nonlinear_arith)
            requires
                start.ticks(events) == 0,
        ;
    }
}

/// Under the rate-bounded strategy a run of `total_count` queries is over
/// after the least number of ticks whose batches hold them all: none for
/// an empty run, and else the `k` with `(k - 1) * rate < total_count <=
/// k * rate`.
pub proof fn lemma_ticks_of_finished_run(total_count: nat, rate: u32, events: Seq<Event>)
    requires
        rate > 0,
        DispatchModel::initial(total_count, AdmissionStrategy::Rate { rate }).run(events).decide()
            == Action::Finish,
    ensures
        ({
            let k = DispatchModel::initial(total_count, AdmissionStrategy::Rate { rate }).ticks(
                events,
            );
            &&& total_count <= k * rate
            &&& k > 0 ==> (k - 1) * rate < total_count
        }),
{
    lemma_ticks_admit_batches(total_count, rate, events);
    lemma_run_keeps_inv(total_count, AdmissionStrategy::Rate { rate }, events);
}

} // verus!
