//! Confirmations, counted from the cluster's transaction count.
//!
//! The tracker decides; its caller reads the signals, queries the cluster and
//! sleeps, and reports back what it found.
use crate::args::Commitment;
use vstd::prelude::*;

verus! {

/// The level at which the transaction count is read: the count then follows what
/// the node has processed, without waiting for votes.
pub const COUNT_COMMITMENT: Commitment = Commitment::Processed;

/// How often a run polls for the transaction count, in milliseconds.
pub const RUN_POLL_INTERVAL_MS: u64 = 200;

/// Result from the confirmation tracker.
#[derive(Debug, Clone, Copy, PartialEq, Eq, Structural)]
pub struct ConfirmationResult {
    /// Confirmations observed during the measurement window.
    pub confirmed: usize,
}

/// Configuration for the confirmation tracker.
#[derive(Debug, Clone, Copy)]
pub struct ConfirmationTrackerConfig {
    /// How often to poll for transaction count (in milliseconds).
    pub poll_interval_ms: u64,
}

impl Default for ConfirmationTrackerConfig {
    fn default() -> (config: Self)
        ensures
            config.poll_interval_ms == 400,
    {
        ConfirmationTrackerConfig { poll_interval_ms: 400 }
    }
}

/// What the tracker is told.
#[derive(Debug, Clone, Copy, PartialEq, Eq, Structural)]
pub enum TrackerEvent {
    /// A round begins, with the signals as they stand.
    Round {
        /// Whether the measurement window has been closed.
        measurement_ended: bool,
        /// Whether the measurement window has been opened.
        measurement_active: bool,
    },
    /// The count to start from, or nothing if it could not be had.
    StartCount(Option<u64>),
    /// The count of this round, or nothing if it could not be had.
    PollCount(Option<u64>),
}

/// What the tracker asks for.
#[derive(Debug, Clone, Copy, PartialEq, Eq, Structural)]
pub enum TrackerAction {
    /// Query the transaction count to start from, at this level.
    QueryStart(Commitment),
    /// Query the transaction count, at this level.
    QueryPoll(Commitment),
    /// Sleep for this many milliseconds, then begin a round.
    Sleep(u64),
    /// Stop with this result.
    Finish(ConfirmationResult),
}

/// Counts confirmations between two signals by the change in the cluster's
/// transaction count.
#[derive(Debug, Clone, Copy, PartialEq, Eq, Structural)]
pub struct ConfirmationTracker {
    /// Pause between two rounds, in milliseconds.
    pub poll_interval_ms: u64,
    /// Whether a count to start from has been taken.
    pub measurement_started: bool,
    /// The count that the measurement started from.
    pub start_tx_count: u64,
    /// The highest count seen since.
    pub last_tx_count: u64,
}

impl ConfirmationTracker {
    /// The last count is never below the first, and both are zero before the
    /// measurement starts.
    pub open spec fn valid(self) -> bool {
        &&& self.start_tx_count <= self.last_tx_count
        &&& !self.measurement_started ==> self.last_tx_count == 0
    }

    /// Confirmations counted so far.
    pub open spec fn confirmed(self) -> int {
        self.last_tx_count - self.start_tx_count
    }

    /// The tracker after an event. A first count starts the measurement; counts
    /// that go down are ignored.
    pub open spec fn after(self, event: TrackerEvent) -> ConfirmationTracker {
        match event {
            TrackerEvent::StartCount(Some(count)) if !self.measurement_started =>
                ConfirmationTracker {
                    measurement_started: true,
                    start_tx_count: count,
                    last_tx_count: count,
                    ..self
                },
            TrackerEvent::PollCount(Some(count)) if self.measurement_started && count
                >= self.last_tx_count => ConfirmationTracker { last_tx_count: count, ..self },
            _ => self,
        }
    }

    /// What the tracker asks for after an event.
    ///
    /// A round ends the tracker once the window is closed; otherwise the first
    /// round with an open window takes a count to start from, and every round
    /// after that polls. Counts are always read at the same level.
    pub open spec fn action(self, event: TrackerEvent) -> TrackerAction {
        match event {
            TrackerEvent::Round { measurement_ended: true, .. } => TrackerAction::Finish(
                ConfirmationResult { confirmed: self.confirmed() as usize },
            ),
            TrackerEvent::Round { measurement_ended: false, measurement_active } => {
                if self.measurement_started {
                    TrackerAction::QueryPoll(COUNT_COMMITMENT)
                } else if measurement_active {
                    TrackerAction::QueryStart(COUNT_COMMITMENT)
                } else {
                    TrackerAction::Sleep(self.poll_interval_ms)
                }
            },
            TrackerEvent::StartCount(_) => {
                if self.after(event).measurement_started {
                    TrackerAction::QueryPoll(COUNT_COMMITMENT)
                } else {
                    TrackerAction::Sleep(self.poll_interval_ms)
                }
            },
            TrackerEvent::PollCount(_) => TrackerAction::Sleep(self.poll_interval_ms),
        }
    }

    /// The tracker after a sequence of events.
    pub open spec fn after_all(self, events: Seq<TrackerEvent>) -> ConfirmationTracker
        decreases events.len(),
    {
        if events.len() == 0 {
            self
        } else {
            self.after_all(events.drop_last()).after(events.last())
        }
    }

    /// Whether a tracker has counted nothing yet and polls at an interval.
    pub open spec fn fresh(self, poll_interval_ms: u64) -> bool {
        &&& self.poll_interval_ms == poll_interval_ms
        &&& !self.measurement_started
        &&& self.start_tx_count == 0
        &&& self.last_tx_count == 0
    }

    /// A tracker that has counted nothing.
    pub fn new(config: ConfirmationTrackerConfig) -> (tracker: Self)
        ensures
            tracker == (ConfirmationTracker {
                poll_interval_ms: config.poll_interval_ms,
                measurement_started: false,
                start_tx_count: 0,
                last_tx_count: 0,
            }),
            tracker.valid(),
            tracker.fresh(config.poll_interval_ms),
    {
        ConfirmationTracker {
            poll_interval_ms: config.poll_interval_ms,
            measurement_started: false,
            start_tx_count: 0,
            last_tx_count: 0,
        }
    }

    /// Take in an event and say what to do next.
    pub fn advance(&mut self, event: TrackerEvent) -> (action: TrackerAction)
        requires
            old(self).valid(),
        ensures
            final(self).valid(),
            *final(self) == old(self).after(event),
            action == old(self).action(event),
    {
        match event {
            TrackerEvent::Round { measurement_ended, measurement_active } => {
                if measurement_ended {
                    let confirmed: u64 = self.last_tx_count - self.start_tx_count;
                    return TrackerAction::Finish(
                        ConfirmationResult { confirmed: confirmed as usize },
                    );
                }
                if measurement_active && !self.measurement_started {
                    return TrackerAction::QueryStart(COUNT_COMMITMENT);
                }
            },
            TrackerEvent::StartCount(count) => {
                if let Some(tx_count) = count {
                    if !self.measurement_started {
                        self.measurement_started = true;
                        self.start_tx_count = tx_count;
                        self.last_tx_count = tx_count;
                    }
                }
            },
            TrackerEvent::PollCount(count) => {
                if let Some(tx_count) = count {
                    // Monotonic clamp
                    if self.measurement_started && tx_count >= self.last_tx_count {
                        self.last_tx_count = tx_count;
                    }
                }
                return TrackerAction::Sleep(self.poll_interval_ms);
            },
        }
        if self.measurement_started {
            TrackerAction::QueryPoll(COUNT_COMMITMENT)
        } else {
            TrackerAction::Sleep(self.poll_interval_ms)
        }
    }
}

/// Confirmations are never taken back: whatever happens, the tracker stays
/// valid, and once the measurement has started the first count stays and the
/// confirmations only grow.
pub proof fn law_confirmations_only_grow(
    tracker: ConfirmationTracker,
    events: Seq<TrackerEvent>,
)
    requires
        tracker.valid(),
    ensures
        tracker.after_all(events).valid(),
        tracker.after_all(events).poll_interval_ms == tracker.poll_interval_ms,
        tracker.measurement_started ==> {
            &&& tracker.after_all(events).measurement_started
            &&& tracker.after_all(events).start_tx_count == tracker.start_tx_count
            &&& tracker.after_all(events).confirmed() >= tracker.confirmed()
        },
    decreases events.len(),
{
    if events.len() != 0 {
        law_confirmations_only_grow(tracker, events.drop_last());
    }
}

/// One round of the tracker while the window is not closed: the signal that it
/// finds, and what the cluster answers where it is asked.
pub struct TrackerRound {
    /// Whether the measurement window has been opened.
    pub measurement_active: bool,
    /// The answer to a query for the count to start from.
    pub start_count: Option<u64>,
    /// The answer to a poll.
    pub poll_count: Option<u64>,
}

impl TrackerRound {
    /// Whether a round can start the measurement: the window is open, and the
    /// cluster answers.
    pub open spec fn can_start(self) -> bool {
        self.measurement_active && self.start_count is Some
    }
}

impl ConfirmationTracker {
    /// The tracker after one round: it is told what it asks for.
    pub open spec fn after_round(self, round: TrackerRound) -> ConfirmationTracker {
        let signals = TrackerEvent::Round {
            measurement_ended: false,
            measurement_active: round.measurement_active,
        };
        let begun = self.after(signals);
        match self.action(signals) {
            TrackerAction::QueryStart(_) => {
                let start = TrackerEvent::StartCount(round.start_count);
                if begun.action(start) is QueryPoll {
                    begun.after(start).after(TrackerEvent::PollCount(round.poll_count))
                } else {
                    begun.after(start)
                }
            },
            TrackerAction::QueryPoll(_) => begun.after(TrackerEvent::PollCount(round.poll_count)),
            _ => begun,
        }
    }

    /// The tracker after several rounds.
    pub open spec fn after_rounds(self, rounds: Seq<TrackerRound>) -> ConfirmationTracker
        decreases rounds.len(),
    {
        if rounds.len() == 0 {
            self
        } else {
            self.after_rounds(rounds.drop_last()).after_round(rounds.last())
        }
    }
}

/// Nothing counts before the window opens: until a round finds it open and gets
/// a count to start from, there are no confirmations, whatever the cluster's
/// count is.
pub proof fn law_nothing_counts_before_the_window(
    tracker: ConfirmationTracker,
    rounds: Seq<TrackerRound>,
)
    requires
        tracker.valid(),
        !tracker.measurement_started,
        forall|i: int| 0 <= i < rounds.len() ==> !(#[trigger] rounds[i]).can_start(),
    ensures
        tracker.after_rounds(rounds) == tracker,
        tracker.after_rounds(rounds).confirmed() == 0,
    decreases rounds.len(),
{
    if rounds.len() != 0 {
        assert forall|i: int| 0 <= i < rounds.drop_last().len() implies !(
        #[trigger] rounds.drop_last()[i]).can_start() by {
            assert(rounds.drop_last()[i] == rounds[i]);
        }
        law_nothing_counts_before_the_window(tracker, rounds.drop_last());
        assert(!rounds[rounds.len() - 1].can_start());
    }
}

/// The highest of a count and of all counts that rounds polled.
pub open spec fn highest_count(count: u64, rounds: Seq<TrackerRound>) -> u64
    decreases rounds.len(),
{
    if rounds.len() == 0 {
        count
    } else {
        let before = highest_count(count, rounds.drop_last());
        match rounds.last().poll_count {
            Some(polled) if polled > before => polled,
            _ => before,
        }
    }
}

/// The confirmations of a window are the distance from the count in the round
/// that started the measurement to the highest count polled from that round on.
pub proof fn law_confirmed_is_the_rise_within_the_window(
    tracker: ConfirmationTracker,
    rounds: Seq<TrackerRound>,
    first: int,
)
    requires
        tracker.valid(),
        !tracker.measurement_started,
        0 <= first < rounds.len(),
        forall|i: int| 0 <= i < first ==> !(#[trigger] rounds[i]).can_start(),
        rounds[first].can_start(),
    ensures
        ({
            let after = tracker.after_rounds(rounds);
            let start = rounds[first].start_count->0;
            let highest = highest_count(start, rounds.skip(first));
            &&& after.valid()
            &&& after.measurement_started
            &&& after.start_tx_count == start
            &&& after.last_tx_count == highest
            &&& after.confirmed() == highest - start
        }),
    decreases rounds.len(),
{
    let before = rounds.drop_last();
    assert(rounds.skip(first).drop_last() =~= before.skip(first));
    assert(rounds.skip(first).last() == rounds.last());
    if first == rounds.len() - 1 {
        assert forall|i: int| 0 <= i < before.len() implies !(
        #[trigger] before[i]).can_start() by {
            assert(before[i] == rounds[i]);
        }
        law_nothing_counts_before_the_window(tracker, before);
        assert(before.skip(first) =~= Seq::<TrackerRound>::empty());
        assert(rounds[first] == rounds.last());
        reveal_with_fuel(highest_count, 2);
    } else {
        assert forall|i: int| 0 <= i < first implies !(#[trigger] before[i]).can_start() by {
            assert(before[i] == rounds[i]);
        }
        assert(before[first] == rounds[first]);
        law_confirmed_is_the_rise_within_the_window(tracker, before, first);
    }
}

/// The highest count bounds all counts and is one of them.
proof fn lemma_highest_count(count: u64, rounds: Seq<TrackerRound>)
    ensures
        highest_count(count, rounds) >= count,
        forall|i: int|
            0 <= i < rounds.len() && (#[trigger] rounds[i]).poll_count is Some
                ==> rounds[i].poll_count->0 <= highest_count(count, rounds),
        highest_count(count, rounds) == count || exists|i: int|
            0 <= i < rounds.len() && (#[trigger] rounds[i]).poll_count == Some(
                highest_count(count, rounds),
            ),
    decreases rounds.len(),
{
    if rounds.len() != 0 {
        let before = rounds.drop_last();
        lemma_highest_count(count, before);
        assert forall|i: int|
            0 <= i < rounds.len() && (#[trigger] rounds[i]).poll_count is Some implies
            rounds[i].poll_count->0 <= highest_count(count, rounds) by {
            if i < rounds.len() - 1 {
                assert(before[i] == rounds[i]);
            }
        }
        let top = highest_count(count, before);
        if highest_count(count, rounds) == top {
            if top != count {
                let i = choose|i: int|
                    0 <= i < before.len() && (#[trigger] before[i]).poll_count == Some(top);
                assert(rounds[i] == before[i]);
            }
        } else {
            assert(rounds[rounds.len() - 1].poll_count == Some(highest_count(count, rounds)));
        }
    }
}

/// The result with which a tracker finishes is the rise within the window, in full:
/// from the count in the first round that found the window open and got one, to the
/// highest count polled from that round on.
pub proof fn law_the_result_is_the_rise_within_the_window(
    tracker: ConfirmationTracker,
    rounds: Seq<TrackerRound>,
    first: int,
    measurement_active: bool,
) -> (top: u64)
    requires
        tracker.valid(),
        !tracker.measurement_started,
        0 <= first < rounds.len(),
        forall|i: int|
            0 <= i < first ==> !(#[trigger] rounds[i]).measurement_active
                || rounds[i].start_count is None,
        rounds[first].measurement_active,
        rounds[first].start_count is Some,
    ensures
        top >= rounds[first].start_count->0,
        forall|i: int|
            first <= i < rounds.len() && (#[trigger] rounds[i]).poll_count is Some
                ==> rounds[i].poll_count->0 <= top,
        top == rounds[first].start_count->0 || exists|i: int|
            first <= i < rounds.len() && (#[trigger] rounds[i]).poll_count == Some(top),
        tracker.after_rounds(rounds).action(
            TrackerEvent::Round { measurement_ended: true, measurement_active },
        ) == TrackerAction::Finish(
            ConfirmationResult { confirmed: (top - rounds[first].start_count->0) as usize },
        ),
{
    let start = rounds[first].start_count->0;
    let top = highest_count(start, rounds.skip(first));
    law_confirmed_is_the_rise_within_the_window(tracker, rounds, first);
    lemma_highest_count(start, rounds.skip(first));
    assert forall|i: int|
        first <= i < rounds.len() && (#[trigger] rounds[i]).poll_count is Some implies
            rounds[i].poll_count->0 <= top by {
        assert(rounds.skip(first)[i - first] == rounds[i]);
    }
    if top != start {
        let i = choose|i: int|
            0 <= i < rounds.skip(first).len() && (#[trigger] rounds.skip(
                first,
            )[i]).poll_count == Some(top);
        assert(rounds[first + i].poll_count == Some(top));
    }
    top
}

/// A tracker that never found the window open, or never got a count to start from,
/// finishes with nothing.
pub proof fn law_without_a_window_the_result_is_zero(
    tracker: ConfirmationTracker,
    rounds: Seq<TrackerRound>,
    measurement_active: bool,
)
    requires
        tracker.valid(),
        !tracker.measurement_started,
        forall|i: int|
            0 <= i < rounds.len() ==> !(#[trigger] rounds[i]).measurement_active
                || rounds[i].start_count is None,
    ensures
        tracker.after_rounds(rounds).action(
            TrackerEvent::Round { measurement_ended: true, measurement_active },
        ) == TrackerAction::Finish(ConfirmationResult { confirmed: 0 }),
{
    law_nothing_counts_before_the_window(tracker, rounds);
}

/// A tracker finishes exactly when a round finds the window closed. Until then it
/// asks for a count to start from exactly while the window is open and it has none,
/// polls once per round as soon as it has one, and sleeps for its interval
/// otherwise. Counts are read at the level of what was processed.
pub proof fn law_what_a_tracker_asks_for(tracker: ConfirmationTracker, event: TrackerEvent)
    ensures
        ({
            let action = tracker.action(event);
            let ended = event is Round && event->measurement_ended;
            let begins = event is Round && !event->measurement_ended;
            let started = tracker.measurement_started;
            &&& action is Finish <==> ended
            &&& action is QueryStart <==> begins && event->measurement_active && !started
            &&& action is QueryPoll <==> begins && started || event is StartCount && (started
                || event->StartCount_0 is Some)
            &&& action is QueryStart ==> action->QueryStart_0 == Commitment::Processed
            &&& action is QueryPoll ==> action->QueryPoll_0 == Commitment::Processed
            &&& action is Sleep ==> action->Sleep_0 == tracker.poll_interval_ms
        }),
{
}

/// The first count starts the measurement and stays; a poll raises the last count to
/// itself or leaves it; everything else leaves the counts alone.
pub proof fn law_what_a_tracker_remembers(tracker: ConfirmationTracker, event: TrackerEvent)
    ensures
        ({
            let after = tracker.after(event);
            let starts = event is StartCount && event->StartCount_0 is Some
                && !tracker.measurement_started;
            let polled = event is PollCount && event->PollCount_0 is Some
                && tracker.measurement_started;
            &&& after.poll_interval_ms == tracker.poll_interval_ms
            &&& after.measurement_started <==> tracker.measurement_started || starts
            &&& starts ==> after.start_tx_count == event->StartCount_0->0 && after.last_tx_count
                == event->StartCount_0->0
            &&& !starts ==> after.start_tx_count == tracker.start_tx_count
            &&& polled ==> after.last_tx_count >= tracker.last_tx_count && after.last_tx_count
                >= event->PollCount_0->0 && (after.last_tx_count == tracker.last_tx_count
                || after.last_tx_count == event->PollCount_0->0)
            &&& !starts && !polled ==> after.last_tx_count == tracker.last_tx_count
        }),
{
}

/// A fresh tracker sleeps through the warmup and finishes with nothing if the window
/// closes before it opened.
pub proof fn law_a_fresh_tracker_waits_for_the_window(
    tracker: ConfirmationTracker,
    poll_interval_ms: u64,
    active: bool,
)
    requires
        tracker.fresh(poll_interval_ms),
    ensures
        tracker.valid(),
        tracker.action(
            TrackerEvent::Round { measurement_ended: false, measurement_active: false },
        ) == TrackerAction::Sleep(poll_interval_ms),
        tracker.action(
            TrackerEvent::Round { measurement_ended: true, measurement_active: active },
        ) == TrackerAction::Finish(ConfirmationResult { confirmed: 0 }),
{
}

} // verus!
