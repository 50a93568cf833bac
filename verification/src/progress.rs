//! The measurement window of a run, and the progress reports during it.
//!
//! The caller reads the clock and the counter of measured transactions; points
//! in time are nanoseconds since the start of the run.
use crate::args::RawArgs;
use crate::confirmation::{
    highest_count, law_confirmed_is_the_rise_within_the_window,
    law_nothing_counts_before_the_window, ConfirmationResult, ConfirmationTracker, TrackerRound,
};
use crate::sender::limits_of;
use crate::stats::StatsReport;
use crate::workload::{timing_of, RunTiming};
use vstd::prelude::*;

verus! {

/// Time between two progress reports, in nanoseconds.
pub const REPORT_INTERVAL_NS: u128 = 1_000_000_000;

/// Time between two looks at the clock, in milliseconds.
pub const PROGRESS_CHECK_MS: u64 = 100;

/// A progress report that is due.
#[derive(Debug, Clone, Copy, PartialEq, Eq, Structural)]
pub enum ProgressReport {
    /// Nothing to report.
    Silent,
    /// The run is warming up.
    Warmup,
    /// The measurement goes on.
    Measurement {
        /// Transactions counted since the last report.
        count: u64,
        /// Time since the last report.
        elapsed_ns: u128,
    },
}

/// What a look at the clock brings.
#[derive(Debug, Clone, Copy, PartialEq, Eq, Structural)]
pub struct ProgressTick {
    /// The warmup has just ended and the measurement has begun.
    pub open_window: bool,
    /// The measurement has just ended by the clock: the senders are to be stopped.
    pub close_window: bool,
    /// The report that is due.
    pub report: ProgressReport,
}

/// A look at the clock: the time, and the transactions measured so far.
#[derive(Debug, Clone, Copy, PartialEq, Eq, Structural)]
pub struct ClockReading {
    /// The time.
    pub now: u128,
    /// Transactions measured.
    pub measured: u64,
}

/// Watches a run from its start to the end of its measurement.
#[derive(Debug, Clone, Copy, PartialEq, Eq, Structural)]
pub struct ProgressTracker {
    /// When the warmup ends.
    pub warmup_ns: u128,
    /// When the measurement ends by the clock, if it does.
    pub measurement_end_ns: Option<u128>,
    /// The reading with which the measurement began, if it has.
    pub opened: Option<ClockReading>,
    /// The reading with which the measurement ended, if it has.
    pub closed: Option<ClockReading>,
    /// Transactions counted at the last report.
    pub last_count: u64,
    /// Time of the last report.
    pub last_report: u128,
}

/// What is left of `a` after taking `b`, but not less than zero.
pub open spec fn difference_or_zero(a: int, b: int) -> int {
    if a > b {
        a - b
    } else {
        0
    }
}

/// The tracker of a run that starts with a reading. Without a warmup the
/// measurement begins with it.
pub open spec fn started(timing: RunTiming, reading: ClockReading) -> ProgressTracker {
    ProgressTracker {
        warmup_ns: timing.warmup_ns,
        measurement_end_ns: timing.measurement_end_ns,
        opened: if timing.warmup_ns == 0 {
            Some(reading)
        } else {
            None
        },
        closed: None,
        last_count: 0,
        last_report: reading.now,
    }
}

impl ProgressTracker {
    /// Whether the measurement is over by the clock.
    pub open spec fn ended_by_clock(self, now: u128) -> bool {
        self.measurement_end_ns matches Some(end) && now >= end
    }

    /// What a look at the clock is to bring.
    pub open spec fn tick_at(self, now: u128, measured: u64) -> ProgressTick {
        let open_window = self.opened is None && now >= self.warmup_ns;
        let start = match self.opened {
            Some(reading) => reading.measured,
            None => 0,
        };
        let base = if self.last_count > start {
            self.last_count
        } else {
            start
        };
        ProgressTick {
            open_window,
            close_window: self.closed is None && self.ended_by_clock(now),
            report: if open_window || now - self.last_report < REPORT_INTERVAL_NS {
                ProgressReport::Silent
            } else if now < self.warmup_ns {
                ProgressReport::Warmup
            } else if self.ended_by_clock(now) {
                ProgressReport::Silent
            } else {
                ProgressReport::Measurement {
                    count: difference_or_zero(measured as int, base as int) as u64,
                    elapsed_ns: (now - self.last_report) as u128,
                }
            },
        }
    }

    /// The tracker after a look at the clock.
    pub open spec fn after_tick(self, now: u128, measured: u64) -> ProgressTracker {
        let tick = self.tick_at(now, measured);
        ProgressTracker {
            opened: if tick.open_window {
                Some(ClockReading { now, measured })
            } else {
                self.opened
            },
            closed: if tick.close_window {
                Some(ClockReading { now, measured })
            } else {
                self.closed
            },
            last_count: if tick.report is Measurement {
                measured
            } else {
                self.last_count
            },
            last_report: if tick.open_window || now - self.last_report >= REPORT_INTERVAL_NS {
                now
            } else {
                self.last_report
            },
            ..self
        }
    }

    /// The tracker after the senders are through.
    pub open spec fn after_finish(self, now: u128, measured: u64) -> ProgressTracker {
        ProgressTracker {
            closed: if self.closed is None {
                Some(ClockReading { now, measured })
            } else {
                self.closed
            },
            ..self
        }
    }

    /// Transactions counted within the window; none if it was never opened.
    pub open spec fn window_count(self) -> int {
        match (self.opened, self.closed) {
            (Some(start), Some(end)) => difference_or_zero(
                end.measured as int,
                start.measured as int,
            ),
            _ => 0,
        }
    }

    /// Length of the measurement: as long as planned, or, where it does not end
    /// by the clock, as long as the window was open.
    pub open spec fn window_ns(self) -> int {
        match (self.measurement_end_ns, self.opened, self.closed) {
            (Some(end), _, _) => difference_or_zero(end as int, self.warmup_ns as int),
            (None, Some(start), Some(end)) => difference_or_zero(end.now as int, start.now as int),
            _ => 0,
        }
    }

    /// A tracker for a run that starts now. Without a warmup the measurement has
    /// begun already.
    pub fn new(timing: &RunTiming, now: u128, measured: u64) -> (tracker: Self)
        ensures
            tracker == started(*timing, ClockReading { now, measured }),
    {
        ProgressTracker {
            warmup_ns: timing.warmup_ns,
            measurement_end_ns: timing.measurement_end_ns,
            opened: if timing.warmup_ns == 0 {
                Some(ClockReading { now, measured })
            } else {
                None
            },
            closed: None,
            last_count: 0,
            last_report: now,
        }
    }

    /// Whether the measurement is to be signalled as started.
    pub fn measurement_active(&self) -> (active: bool)
        ensures
            active == (self.opened is Some),
    {
        self.opened.is_some()
    }

    /// Whether the measurement is to be signalled as ended.
    pub fn measurement_ended(&self) -> (ended: bool)
        ensures
            ended == (self.closed is Some),
    {
        self.closed.is_some()
    }

    /// Look at the clock and at the count, and say what is to be done.
    pub fn tick(&mut self, now: u128, measured: u64) -> (tick: ProgressTick)
        ensures
            tick == old(self).tick_at(now, measured),
            *final(self) == old(self).after_tick(now, measured),
    {
        let mut open_window: bool = false;
        let mut close_window: bool = false;
        let mut report = ProgressReport::Silent;
        let in_warmup: bool = now < self.warmup_ns;
        let ended: bool = match self.measurement_end_ns {
            Some(end) => now >= end,
            None => false,
        };

        if !in_warmup && self.opened.is_none() {
            self.last_report = now;
            self.opened = Some(ClockReading { now, measured });
            open_window = true;
        }
        if ended && self.closed.is_none() {
            self.closed = Some(ClockReading { now, measured });
            close_window = true;
        }
        if now >= self.last_report && now - self.last_report >= REPORT_INTERVAL_NS {
            if in_warmup {
                report = ProgressReport::Warmup;
            } else if !ended {
                let start: u64 = match self.opened {
                    Some(reading) => reading.measured,
                    None => 0,
                };
                let base: u64 = if self.last_count > start {
                    self.last_count
                } else {
                    start
                };
                report = ProgressReport::Measurement {
                    count: if measured > base {
                        measured - base
                    } else {
                        0
                    },
                    elapsed_ns: now - self.last_report,
                };
                self.last_count = measured;
            }
            self.last_report = now;
        }
        ProgressTick { open_window, close_window, report }
    }

    /// End the measurement where it has not ended by the clock: the senders are
    /// through. Says whether this ended it.
    pub fn finish(&mut self, now: u128, measured: u64) -> (close_window: bool)
        ensures
            close_window == (old(self).closed is None),
            *final(self) == old(self).after_finish(now, measured),
    {
        if self.closed.is_some() {
            false
        } else {
            self.closed = Some(ClockReading { now, measured });
            true
        }
    }

    /// Transactions sent during the measurement.
    pub fn measurement_sent(&self) -> (sent: u64)
        ensures
            sent == self.window_count(),
    {
        match (self.opened, self.closed) {
            (Some(start), Some(end)) => {
                if end.measured > start.measured {
                    end.measured - start.measured
                } else {
                    0
                }
            },
            _ => 0,
        }
    }

    /// Length of the measurement in nanoseconds.
    pub fn measurement_ns(&self) -> (length: u128)
        ensures
            length == self.window_ns(),
    {
        match (self.measurement_end_ns, self.opened, self.closed) {
            (Some(end), _, _) => {
                if end > self.warmup_ns {
                    end - self.warmup_ns
                } else {
                    0
                }
            },
            (None, Some(start), Some(end)) => {
                if end.now > start.now {
                    end.now - start.now
                } else {
                    0
                }
            },
            _ => 0,
        }
    }

    /// The figures of the run.
    pub fn report(&self, result: &ConfirmationResult) -> (report: StatsReport)
        ensures
            report.sent == self.window_count() as usize,
            report.confirmed == result.confirmed,
    {
        StatsReport::new(self.measurement_sent() as usize, result.confirmed)
    }
}

/// The tracker after several looks at the clock.
pub open spec fn after_ticks(tracker: ProgressTracker, readings: Seq<ClockReading>) ->
    ProgressTracker
    decreases readings.len(),
{
    if readings.len() == 0 {
        tracker
    } else {
        after_ticks(tracker, readings.drop_last()).after_tick(
            readings.last().now,
            readings.last().measured,
        )
    }
}

/// The window is opened once and closed once: after that the readings at its ends
/// never change, and no look at the clock opens or closes it again.
pub proof fn law_the_window_opens_and_closes_once(
    tracker: ProgressTracker,
    readings: Seq<ClockReading>,
    now: u128,
    measured: u64,
)
    ensures
        ({
            let after = after_ticks(tracker, readings);
            &&& tracker.opened is Some ==> {
                &&& after.opened == tracker.opened
                &&& !after.tick_at(now, measured).open_window
            }
            &&& tracker.closed is Some ==> {
                &&& after.closed == tracker.closed
                &&& !after.tick_at(now, measured).close_window
            }
            &&& after.warmup_ns == tracker.warmup_ns
            &&& after.measurement_end_ns == tracker.measurement_end_ns
        }),
    decreases readings.len(),
{
    if readings.len() != 0 {
        law_the_window_opens_and_closes_once(tracker, readings.drop_last(), now, measured);
    }
}

/// A run whose measurement does not end by the clock is never stopped by a look
/// at the clock.
pub proof fn law_a_counted_run_is_not_stopped_by_the_clock(
    tracker: ProgressTracker,
    readings: Seq<ClockReading>,
    now: u128,
    measured: u64,
)
    requires
        tracker.measurement_end_ns is None,
    ensures
        !after_ticks(tracker, readings).tick_at(now, measured).close_window,
        after_ticks(tracker, readings).closed == tracker.closed,
    decreases readings.len(),
{
    law_the_window_opens_and_closes_once(tracker, readings, now, measured);
    if readings.len() != 0 {
        law_a_counted_run_is_not_stopped_by_the_clock(
            tracker,
            readings.drop_last(),
            now,
            measured,
        );
        law_the_window_opens_and_closes_once(tracker, readings.drop_last(), now, measured);
    }
}

/// A number of transactions on the command line overrides a duration: however
/// long it takes, no look at the clock stops the run, and its senders, unless told
/// to stop, go on exactly until they have sent that many.
pub proof fn law_a_count_overrides_the_duration(
    args: RawArgs,
    start: ClockReading,
    readings: Seq<ClockReading>,
    now: u128,
    measured: u64,
)
    requires
        args.tx_count is Some,
    ensures
        ({
            let settings = args.settings();
            let timing = timing_of(settings.warmup_secs, settings.duration_secs);
            let limits = limits_of(timing, settings.tx_count);
            &&& !after_ticks(started(timing, start), readings).tick_at(now, measured).close_window
            &&& limits.reached(false, now, measured) <==> measured >= settings.tx_count->0
            &&& limits.measures(now)
        }),
{
    let settings = args.settings();
    let timing = timing_of(settings.warmup_secs, settings.duration_secs);
    law_a_counted_run_is_not_stopped_by_the_clock(started(timing, start), readings, now, measured);
}

/// What is sent before the window opens or after it closes does not count: once
/// opened, a run counts what was measured from the reading that opened its window
/// to the one that closes it, be that by the clock or because the senders are
/// through.
pub proof fn law_only_the_window_counts(
    tracker: ProgressTracker,
    between: Seq<ClockReading>,
    closing: ClockReading,
    later: Seq<ClockReading>,
)
    requires
        tracker.opened is Some,
        tracker.closed is None,
        forall|i: int|
            0 <= i < between.len() ==> !tracker.ended_by_clock((#[trigger] between[i]).now),
    ensures
        ({
            let open = after_ticks(tracker, between);
            let count = difference_or_zero(
                closing.measured as int,
                tracker.opened->0.measured as int,
            );
            &&& tracker.ended_by_clock(closing.now) ==> after_ticks(
                open.after_tick(closing.now, closing.measured),
                later,
            ).window_count() == count
            &&& after_ticks(
                open.after_finish(closing.now, closing.measured),
                later,
            ).window_count() == count
        }),
{
    let open = after_ticks(tracker, between);
    law_the_window_opens_and_closes_once(tracker, between, closing.now, closing.measured);
    lemma_window_stays_open(tracker, between);
    law_the_window_opens_and_closes_once(
        open.after_tick(closing.now, closing.measured),
        later,
        closing.now,
        closing.measured,
    );
    law_the_window_opens_and_closes_once(
        open.after_finish(closing.now, closing.measured),
        later,
        closing.now,
        closing.measured,
    );
}

proof fn lemma_window_stays_open(tracker: ProgressTracker, readings: Seq<ClockReading>)
    requires
        tracker.closed is None,
        forall|i: int|
            0 <= i < readings.len() ==> !tracker.ended_by_clock((#[trigger] readings[i]).now),
    ensures
        after_ticks(tracker, readings).closed is None,
        after_ticks(tracker, readings).measurement_end_ns == tracker.measurement_end_ns,
    decreases readings.len(),
{
    if readings.len() != 0 {
        assert forall|i: int| 0 <= i < readings.drop_last().len() implies !tracker.ended_by_clock(
            (#[trigger] readings.drop_last()[i]).now,
        ) by {
            assert(readings.drop_last()[i] == readings[i]);
        }
        lemma_window_stays_open(tracker, readings.drop_last());
        assert(!tracker.ended_by_clock(readings[readings.len() - 1].now));
    }
}

/// Warmup transactions do not count: a window stays shut until a look at the clock
/// after the warmup, which opens it, and a run that ends before that counts
/// nothing.
pub proof fn law_the_warmup_does_not_count(
    tracker: ProgressTracker,
    readings: Seq<ClockReading>,
    next: ClockReading,
)
    requires
        tracker.opened is None,
        forall|i: int| 0 <= i < readings.len() ==> (#[trigger] readings[i]).now < tracker.warmup_ns,
    ensures
        ({
            let after = after_ticks(tracker, readings);
            &&& after.opened is None
            &&& after.after_finish(next.now, next.measured).window_count() == 0
            &&& next.now >= tracker.warmup_ns ==> after.after_tick(
                next.now,
                next.measured,
            ).opened == Some(next)
        }),
    decreases readings.len(),
{
    law_the_window_opens_and_closes_once(tracker, readings, next.now, next.measured);
    if readings.len() != 0 {
        assert forall|i: int| 0 <= i < readings.drop_last().len() implies (
        #[trigger] readings.drop_last()[i]).now < tracker.warmup_ns by {
            assert(readings.drop_last()[i] == readings[i]);
        }
        law_the_warmup_does_not_count(tracker, readings.drop_last(), next);
        law_the_window_opens_and_closes_once(
            tracker,
            readings.drop_last(),
            next.now,
            next.measured,
        );
        assert(readings[readings.len() - 1].now < tracker.warmup_ns);
    }
}

/// Whether a round of a confirmation tracker finds the start signal as it stands
/// after some of the looks at the clock.
pub open spec fn round_follows(
    tracker: ProgressTracker,
    readings: Seq<ClockReading>,
    round: TrackerRound,
) -> bool {
    exists|seen: int|
        0 <= seen <= readings.len() && round.measurement_active == (#[trigger] after_ticks(
            tracker,
            readings.take(seen),
        ).opened is Some)
}

/// Without a warmup the start signal stands from the start of the run: every round
/// of the confirmation tracker finds it, and the confirmations are the rise from
/// the count in the first round that gets one to the highest count polled from
/// that round on.
pub proof fn law_without_a_warmup_confirmations_count_from_the_start(
    timing: RunTiming,
    start: ClockReading,
    readings: Seq<ClockReading>,
    confirmation: ConfirmationTracker,
    rounds: Seq<TrackerRound>,
    first: int,
)
    requires
        timing.warmup_ns == 0,
        confirmation.valid(),
        !confirmation.measurement_started,
        forall|i: int|
            0 <= i < rounds.len() ==> round_follows(
                started(timing, start),
                readings,
                #[trigger] rounds[i],
            ),
        0 <= first < rounds.len(),
        forall|i: int| 0 <= i < first ==> (#[trigger] rounds[i]).start_count is None,
        rounds[first].start_count is Some,
    ensures
        forall|i: int| 0 <= i < rounds.len() ==> (#[trigger] rounds[i]).measurement_active,
        confirmation.after_rounds(rounds).confirmed() == highest_count(
            rounds[first].start_count->0,
            rounds.skip(first),
        ) - rounds[first].start_count->0,
{
    let tracker = started(timing, start);
    assert forall|i: int| 0 <= i < rounds.len() implies (
    #[trigger] rounds[i]).measurement_active by {
        assert(round_follows(tracker, readings, rounds[i]));
        let seen = choose|seen: int|
            0 <= seen <= readings.len() && rounds[i].measurement_active == (
            #[trigger] after_ticks(tracker, readings.take(seen)).opened is Some);
        law_the_window_opens_and_closes_once(tracker, readings.take(seen), 0, 0);
    }
    law_confirmed_is_the_rise_within_the_window(confirmation, rounds, first);
}

/// While the run warms up the start signal is down, and nothing is confirmed.
pub proof fn law_nothing_is_confirmed_during_the_warmup(
    timing: RunTiming,
    start: ClockReading,
    readings: Seq<ClockReading>,
    confirmation: ConfirmationTracker,
    rounds: Seq<TrackerRound>,
)
    requires
        timing.warmup_ns > 0,
        forall|i: int| 0 <= i < readings.len() ==> (#[trigger] readings[i]).now < timing.warmup_ns,
        confirmation.valid(),
        !confirmation.measurement_started,
        forall|i: int|
            0 <= i < rounds.len() ==> round_follows(
                started(timing, start),
                readings,
                #[trigger] rounds[i],
            ),
    ensures
        confirmation.after_rounds(rounds).confirmed() == 0,
{
    let tracker = started(timing, start);
    assert forall|i: int| 0 <= i < rounds.len() implies !(#[trigger] rounds[i]).can_start() by {
        assert(round_follows(tracker, readings, rounds[i]));
        let seen = choose|seen: int|
            0 <= seen <= readings.len() && rounds[i].measurement_active == (
            #[trigger] after_ticks(tracker, readings.take(seen)).opened is Some);
        law_the_warmup_does_not_count(tracker, readings.take(seen), start);
    }
    law_nothing_counts_before_the_window(confirmation, rounds);
}

/// A run starts with nothing reported and nothing ended. Its measurement begins at
/// once, with the first reading, exactly if there is no warmup.
pub proof fn law_how_a_run_starts(timing: RunTiming, reading: ClockReading)
    ensures
        ({
            let tracker = started(timing, reading);
            &&& tracker.warmup_ns == timing.warmup_ns
            &&& tracker.measurement_end_ns == timing.measurement_end_ns
            &&& tracker.opened is Some <==> timing.warmup_ns == 0
            &&& tracker.opened is Some ==> tracker.opened->0 == reading
            &&& tracker.closed is None
            &&& tracker.last_count == 0
            &&& tracker.last_report == reading.now
        }),
{
}

/// A look at the clock opens the window exactly if it was not opened and the warmup
/// is over, closes it exactly if it was not closed and the clock has reached the end
/// of the measurement, and keeps the reading with which it did so.
pub proof fn law_when_the_window_opens_and_closes(
    tracker: ProgressTracker,
    now: u128,
    measured: u64,
)
    ensures
        ({
            let tick = tracker.tick_at(now, measured);
            let after = tracker.after_tick(now, measured);
            let end = tracker.measurement_end_ns;
            &&& tick.open_window <==> tracker.opened is None && now >= tracker.warmup_ns
            &&& tick.close_window <==> tracker.closed is None && end is Some && now >= end->0
            &&& tick.open_window ==> after.opened == Some(ClockReading { now, measured })
            &&& !tick.open_window ==> after.opened == tracker.opened
            &&& tick.close_window ==> after.closed == Some(ClockReading { now, measured })
            &&& !tick.close_window ==> after.closed == tracker.closed
            &&& after.warmup_ns == tracker.warmup_ns
            &&& after.measurement_end_ns == end
        }),
{
}

/// A second after the last report, or after the window opened, the next one is due:
/// on the warmup while it lasts, and during the measurement on what was measured
/// since the last report or since the window opened, whichever came later. Nothing is
/// reported sooner, on opening, or once the measurement is over.
pub proof fn law_when_and_what_is_reported(tracker: ProgressTracker, now: u128, measured: u64)
    ensures
        ({
            let tick = tracker.tick_at(now, measured);
            let after = tracker.after_tick(now, measured);
            let end = tracker.measurement_end_ns;
            let opens = tracker.opened is None && now >= tracker.warmup_ns;
            let due = !opens && now >= tracker.last_report + 1_000_000_000;
            let over = end is Some && now >= end->0;
            let report = tick.report;
            &&& report is Warmup <==> due && now < tracker.warmup_ns
            &&& report is Measurement <==> due && now >= tracker.warmup_ns && !over
            &&& report is Measurement ==> {
                let start = tracker.opened->0.measured;
                &&& report->elapsed_ns == now - tracker.last_report
                &&& measured >= start && measured >= tracker.last_count ==> {
                    ||| start >= tracker.last_count && report->count == measured - start
                    ||| start < tracker.last_count && report->count == measured
                        - tracker.last_count
                }
                &&& measured < start || measured < tracker.last_count ==> report->count == 0
            }
            &&& after.last_report == if due || opens {
                now
            } else {
                tracker.last_report
            }
            &&& after.last_count == if report is Measurement {
                measured
            } else {
                tracker.last_count
            }
        }),
{
}

/// What a measurement counts is the difference between the readings at its two ends,
/// and nothing if it never began. Ending it because the senders are through takes
/// the last reading, unless the clock ended it before.
pub proof fn law_a_measurement_counts_from_end_to_end(
    tracker: ProgressTracker,
    now: u128,
    measured: u64,
)
    requires
        tracker.closed is None,
    ensures
        ({
            let done = tracker.after_finish(now, measured);
            let again = done.after_finish(0, 0);
            &&& done.closed == Some(ClockReading { now, measured })
            &&& done.opened == tracker.opened
            &&& again == done
            &&& tracker.opened is None ==> done.window_count() == 0
            &&& tracker.opened is Some && measured >= tracker.opened->0.measured
                ==> done.window_count() + tracker.opened->0.measured == measured
            &&& tracker.opened is Some && measured < tracker.opened->0.measured
                ==> done.window_count() == 0
            &&& tracker.window_count() == 0
        }),
{
}

/// A measurement with a duration is as long as planned; one without is as long as its
/// window was open.
pub proof fn law_the_length_of_a_measurement(
    warmup_secs: u64,
    duration_secs: Option<u64>,
    start: ClockReading,
    readings: Seq<ClockReading>,
    now: u128,
    measured: u64,
)
    requires
        duration_secs is Some ==> warmup_secs + duration_secs->0 <= u64::MAX,
    ensures
        ({
            let run = after_ticks(started(timing_of(warmup_secs, duration_secs), start), readings);
            let done = run.after_finish(now, measured);
            &&& duration_secs is Some ==> done.window_ns() == duration_secs->0 * 1_000_000_000
            &&& duration_secs is None && run.opened is None ==> done.window_ns() == 0
            &&& duration_secs is None && run.opened is Some && now >= run.opened->0.now
                ==> done.window_ns() + run.opened->0.now == now
        }),
{
    let tracker = started(timing_of(warmup_secs, duration_secs), start);
    law_the_window_opens_and_closes_once(tracker, readings, now, measured);
    if duration_secs is None {
        law_a_counted_run_is_not_stopped_by_the_clock(tracker, readings, now, measured);
    }
}

} // verus!
