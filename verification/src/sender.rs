//! One sender thread: what it does next.
//!
//! The state machine decides; its caller reads the signals and the clock,
//! queries the cluster, waits for the rate limiter, moves transactions through
//! the channel and sends them, and reports back what it found. Points in time
//! are nanoseconds since the start of the run.
use crate::workload::{timing_of, RunTiming, SECOND_NS};
use vstd::prelude::*;

verus! {

/// Channel capacity for pre-generated transactions: large enough to absorb
/// generation latency, small enough to limit staleness.
pub const TX_CHANNEL_CAPACITY: usize = 2000;

/// Maximum allowed lateness before a slot is dropped, in milliseconds.
pub const MAX_SEND_LATENESS_MS: u64 = 100;

/// Longest wait for a transaction from the channel, in milliseconds.
pub const RECEIVE_TIMEOUT_MS: u64 = 100;

/// Time after which a blockhash is to be refreshed, in seconds.
pub const BLOCKHASH_REFRESH_SECS: u64 = 2;

/// Nanoseconds in a millisecond.
pub const NANOS_PER_MILLI: u128 = 1_000_000;

/// The bytes of a blockhash.
pub type BlockhashBytes = [u8; 32];

/// What came out of the channel.
#[derive(Debug, Clone, Copy, PartialEq, Eq, Structural)]
pub enum Received {
    /// A transaction.
    Transaction,
    /// Nothing in time.
    Timeout,
    /// The producer has stopped.
    Disconnected,
}

/// Where a sender stands, and what it waits for.
#[derive(Debug, Clone, Copy, PartialEq, Eq, Structural)]
pub enum SenderPhase {
    /// The first blockhash is to be queried.
    QueryFirstBlockhash,
    /// The channel is to be made and the producer to be started, with the blockhash
    /// in use.
    StartProducer,
    /// A slot begins: the signals are to be read.
    CheckSignals,
    /// The latest blockhash is to be queried.
    QueryBlockhash,
    /// The new blockhash is to be shared with the producer, and the
    /// transactions in the channel are to be drained.
    PublishBlockhash,
    /// The scheduled time of the slot is to be waited for.
    WaitForSlot,
    /// The slot is dropped: one transaction is to be discarded.
    DropSlot,
    /// A transaction is to be received, within the timeout.
    Receive,
    /// The transaction is to be sent.
    Send,
    /// The transaction was sent and is to be counted.
    Count {
        /// Whether it counts for the measurement, too.
        measured: bool,
    },
    /// The exit signal is to be raised for all threads, the channel is to be
    /// drained and the producer to be waited for.
    StopProducer,
    /// The sender is through.
    Stopped,
    /// The sender could not get a first blockhash: it is through without having
    /// started, and the exit signal stays as it is.
    NeverStarted,
}

/// What a sender is told.
#[derive(Debug, Clone, Copy)]
pub enum SenderEvent {
    /// The producer is started.
    ProducerStarted {
        /// The time.
        now: u128,
    },
    /// The signals at the beginning of a slot.
    Signals {
        /// Whether all senders are to stop.
        exit: bool,
        /// The time.
        now: u128,
        /// Transactions that all senders have counted for the measurement.
        measured: u64,
    },
    /// The latest blockhash.
    Blockhash {
        /// The blockhash, or nothing if it could not be had.
        latest: Option<BlockhashBytes>,
        /// The time.
        now: u128,
    },
    /// The new blockhash is shared and the channel drained.
    Published,
    /// The slot has come.
    Slot {
        /// Its scheduled time.
        scheduled: u128,
        /// The time.
        now: u128,
    },
    /// A transaction was discarded, or there was none.
    Dropped,
    /// What came out of the channel.
    Received(Received),
    /// Whether the cluster took the transaction.
    Sent(bool),
    /// The transaction is counted.
    Counted,
    /// The exit signal is raised and the producer has stopped.
    ProducerStopped,
}

/// Whether two blockhashes are the same.
pub fn same_blockhash(a: &BlockhashBytes, b: &BlockhashBytes) -> (same: bool)
    ensures
        same == (a@ == b@),
{
    let mut i: usize = 0;
    while i < 32
        invariant
            i <= 32,
            forall|k: int| 0 <= k < i ==> #[trigger] a@[k] == b@[k],
        decreases 32 - i,
    {
        if a[i] != b[i] {
            return false;
        }
        i = i + 1;
    }
    assert(a@ =~= b@);
    true
}

/// When a sender stops, and what counts.
#[derive(Debug, Clone, Copy, PartialEq, Eq, Structural)]
pub struct SenderLimits {
    /// When the measurement ends by the clock, if it does.
    pub measurement_end: Option<u128>,
    /// When to stop by the clock, if at all.
    pub total: Option<u128>,
    /// Number of measured transactions after which to stop, if any.
    pub tx_count: Option<u64>,
}

impl SenderLimits {
    /// Whether a sender has to stop.
    pub open spec fn reached(self, exit: bool, now: u128, measured: u64) -> bool {
        ||| exit
        ||| self.total matches Some(total) && now >= total
        ||| self.tx_count matches Some(limit) && measured >= limit
    }

    /// Whether a slot at this time falls into the measurement or the warmup.
    pub open spec fn measures(self, now: u128) -> bool {
        self.measurement_end matches Some(end) ==> now < end
    }

    /// The limits of the senders of a run.
    pub fn new(timing: &RunTiming, tx_count: Option<u64>) -> (limits: Self)
        ensures
            limits == limits_of(*timing, tx_count),
    {
        SenderLimits {
            measurement_end: timing.measurement_end_ns,
            total: timing.total_ns,
            tx_count,
        }
    }
}

/// The limits of the senders of a run.
pub open spec fn limits_of(timing: RunTiming, tx_count: Option<u64>) -> SenderLimits {
    SenderLimits {
        measurement_end: timing.measurement_end_ns,
        total: timing.total_ns,
        tx_count,
    }
}

/// A sender thread's state.
#[derive(Debug, Clone, Copy)]
pub struct Sender {
    /// When the sender stops, and what counts.
    pub limits: SenderLimits,
    /// The blockhash in use, once there is one.
    pub blockhash: Option<BlockhashBytes>,
    /// When the blockhash last changed, or the producer was started.
    pub blockhash_time: u128,
    /// Whether the current slot falls into the measurement or the warmup.
    pub slot_measured: bool,
    /// Transactions sent.
    pub sent: u64,
    /// Where the sender stands.
    pub phase: SenderPhase,
}

/// A sender that has not begun.
pub open spec fn new_sender(limits: SenderLimits) -> Sender {
    Sender {
        limits,
        blockhash: None,
        blockhash_time: 0,
        slot_measured: false,
        sent: 0,
        phase: SenderPhase::QueryFirstBlockhash,
    }
}

impl Sender {
    /// Whether a blockhash is the one in use.
    pub open spec fn uses(self, blockhash: BlockhashBytes) -> bool {
        self.blockhash matches Some(current) && current@ == blockhash@
    }

    /// What the thread returns: the sender's own count, once it is through.
    pub open spec fn outcome(self) -> Option<u64> {
        match self.phase {
            SenderPhase::Stopped | SenderPhase::NeverStarted => Some(self.sent),
            _ => None,
        }
    }

    /// The sender after an event. An event that nothing was asked about changes
    /// nothing.
    ///
    /// The age of the blockhash is counted from its last change: a query that
    /// brings no new one is repeated in the next slot.
    pub open spec fn after(self, event: SenderEvent) -> Sender {
        match (self.phase, event) {
            (SenderPhase::QueryFirstBlockhash, SenderEvent::Blockhash { latest, .. }) => Sender {
                blockhash: latest,
                phase: if latest is Some {
                    SenderPhase::StartProducer
                } else {
                    SenderPhase::NeverStarted
                },
                ..self
            },
            (SenderPhase::StartProducer, SenderEvent::ProducerStarted { now }) => Sender {
                blockhash_time: now,
                phase: SenderPhase::CheckSignals,
                ..self
            },
            (SenderPhase::CheckSignals, SenderEvent::Signals { exit, now, measured }) => Sender {
                phase: if self.limits.reached(exit, now, measured) {
                    SenderPhase::StopProducer
                } else if now - self.blockhash_time >= BLOCKHASH_REFRESH_SECS
                    * SECOND_NS {
                    SenderPhase::QueryBlockhash
                } else {
                    SenderPhase::WaitForSlot
                },
                ..self
            },
            (SenderPhase::QueryBlockhash, SenderEvent::Blockhash { latest: Some(latest), now }) if
                !self.uses(latest) => Sender {
                blockhash: Some(latest),
                blockhash_time: now,
                phase: SenderPhase::PublishBlockhash,
                ..self
            },
            (SenderPhase::QueryBlockhash, SenderEvent::Blockhash { .. }) => Sender {
                phase: SenderPhase::WaitForSlot,
                ..self
            },
            (SenderPhase::PublishBlockhash, SenderEvent::Published) => Sender {
                phase: SenderPhase::WaitForSlot,
                ..self
            },
            (SenderPhase::WaitForSlot, SenderEvent::Slot { scheduled, now }) => if now - scheduled
                > MAX_SEND_LATENESS_MS * NANOS_PER_MILLI {
                Sender { phase: SenderPhase::DropSlot, ..self }
            } else {
                Sender {
                    slot_measured: self.limits.measures(now),
                    phase: SenderPhase::Receive,
                    ..self
                }
            },
            (SenderPhase::DropSlot, SenderEvent::Dropped) => Sender {
                phase: SenderPhase::CheckSignals,
                ..self
            },
            (SenderPhase::Receive, SenderEvent::Received(received)) => Sender {
                phase: match received {
                    Received::Transaction => SenderPhase::Send,
                    Received::Timeout => SenderPhase::CheckSignals,
                    Received::Disconnected => SenderPhase::StopProducer,
                },
                ..self
            },
            (SenderPhase::Send, SenderEvent::Sent(true)) => Sender {
                sent: (self.sent + 1) as u64,
                phase: SenderPhase::Count { measured: self.slot_measured },
                ..self
            },
            (SenderPhase::Send, SenderEvent::Sent(false)) => Sender {
                phase: SenderPhase::CheckSignals,
                ..self
            },
            (SenderPhase::Count { .. }, SenderEvent::Counted) => Sender {
                phase: SenderPhase::CheckSignals,
                ..self
            },
            (SenderPhase::StopProducer, SenderEvent::ProducerStopped) => Sender {
                phase: SenderPhase::Stopped,
                ..self
            },
            _ => self,
        }
    }

    /// A sender that has not begun.
    pub fn new(limits: SenderLimits) -> (sender: Self)
        ensures
            sender == new_sender(limits),
    {
        Sender {
            limits,
            blockhash: None,
            blockhash_time: 0,
            slot_measured: false,
            sent: 0,
            phase: SenderPhase::QueryFirstBlockhash,
        }
    }

    /// What the thread returns: the sender's own count, once it is through.
    pub fn result(&self) -> (result: Option<u64>)
        ensures
            result == self.outcome(),
    {
        match self.phase {
            SenderPhase::Stopped => Some(self.sent),
            SenderPhase::NeverStarted => Some(self.sent),
            _ => None,
        }
    }

    fn in_use(&self, blockhash: &BlockhashBytes) -> (same: bool)
        ensures
            same == self.uses(*blockhash),
    {
        match &self.blockhash {
            Some(current) => same_blockhash(current, blockhash),
            None => false,
        }
    }

    fn limit_reached(&self, exit: bool, now: u128, measured: u64) -> (reached: bool)
        ensures
            reached == self.limits.reached(exit, now, measured),
    {
        if exit {
            return true;
        }
        if let Some(total) = self.limits.total {
            if now >= total {
                return true;
            }
        }
        if let Some(limit) = self.limits.tx_count {
            if measured >= limit {
                return true;
            }
        }
        false
    }

    /// Take in an event; the new phase says what to do next.
    pub fn advance(&mut self, event: SenderEvent)
        requires
            old(self).accepts(event) ==> old(self).sent < u64::MAX,
        ensures
            *final(self) == old(self).after(event),
    {
        match (self.phase, event) {
            (SenderPhase::QueryFirstBlockhash, SenderEvent::Blockhash { latest, .. }) => {
                self.phase = if latest.is_some() {
                    SenderPhase::StartProducer
                } else {
                    SenderPhase::NeverStarted
                };
                self.blockhash = latest;
            },
            (SenderPhase::StartProducer, SenderEvent::ProducerStarted { now }) => {
                self.blockhash_time = now;
                self.phase = SenderPhase::CheckSignals;
            },
            (SenderPhase::CheckSignals, SenderEvent::Signals { exit, now, measured }) => {
                if self.limit_reached(exit, now, measured) {
                    self.phase = SenderPhase::StopProducer;
                } else if now >= self.blockhash_time && now - self.blockhash_time
                    >= BLOCKHASH_REFRESH_SECS as u128 * SECOND_NS {
                    self.phase = SenderPhase::QueryBlockhash;
                } else {
                    self.phase = SenderPhase::WaitForSlot;
                }
            },
            (SenderPhase::QueryBlockhash, SenderEvent::Blockhash { latest, now }) => {
                self.phase = SenderPhase::WaitForSlot;
                if let Some(latest) = latest {
                    if !self.in_use(&latest) {
                        self.blockhash = Some(latest);
                        self.blockhash_time = now;
                        self.phase = SenderPhase::PublishBlockhash;
                    }
                }
            },
            (SenderPhase::PublishBlockhash, SenderEvent::Published) => {
                self.phase = SenderPhase::WaitForSlot;
            },
            (SenderPhase::WaitForSlot, SenderEvent::Slot { scheduled, now }) => {
                // Too far behind schedule: drop this slot
                if now >= scheduled && now - scheduled > MAX_SEND_LATENESS_MS as u128
                    * NANOS_PER_MILLI {
                    self.phase = SenderPhase::DropSlot;
                } else {
                    self.slot_measured = match self.limits.measurement_end {
                        Some(end) => now < end,
                        None => true,
                    };
                    self.phase = SenderPhase::Receive;
                }
            },
            (SenderPhase::DropSlot, SenderEvent::Dropped) => {
                self.phase = SenderPhase::CheckSignals;
            },
            (SenderPhase::Receive, SenderEvent::Received(received)) => {
                self.phase = match received {
                    Received::Transaction => SenderPhase::Send,
                    Received::Timeout => SenderPhase::CheckSignals,
                    Received::Disconnected => SenderPhase::StopProducer,
                };
            },
            (SenderPhase::Send, SenderEvent::Sent(accepted)) => {
                if accepted {
                    self.sent = self.sent + 1;
                    self.phase = SenderPhase::Count { measured: self.slot_measured };
                } else {
                    self.phase = SenderPhase::CheckSignals;
                }
            },
            (SenderPhase::Count { .. }, SenderEvent::Counted) => {
                self.phase = SenderPhase::CheckSignals;
            },
            (SenderPhase::StopProducer, SenderEvent::ProducerStopped) => {
                self.phase = SenderPhase::Stopped;
            },
            _ => {},
        }
    }
}

impl Sender {
    /// The sender after a sequence of events.
    pub open spec fn after_all(self, events: Seq<SenderEvent>) -> Sender
        decreases events.len(),
    {
        if events.len() == 0 {
            self
        } else {
            self.after_all(events.drop_last()).after(events.last())
        }
    }

    /// Whether an event says that the cluster took the sender's transaction.
    pub open spec fn accepts(self, event: SenderEvent) -> bool {
        self.phase == SenderPhase::Send && event matches SenderEvent::Sent(true)
    }

    /// How many transactions the cluster took during a sequence of events.
    pub open spec fn accepted(self, events: Seq<SenderEvent>) -> int
        decreases events.len(),
    {
        if events.len() == 0 {
            0
        } else {
            self.accepted(events.drop_last()) + if self.after_all(events.drop_last()).accepts(
                events.last(),
            ) {
                1int
            } else {
                0
            }
        }
    }
}

/// A sender counts every transaction that the cluster took, and no other.
pub proof fn law_sent_counts_accepted_transactions(sender: Sender, events: Seq<SenderEvent>)
    requires
        sender.sent + events.len() <= u64::MAX,
    ensures
        sender.after_all(events).sent == sender.sent + sender.accepted(events),
        sender.accepted(events) <= events.len(),
    decreases events.len(),
{
    if events.len() != 0 {
        law_sent_counts_accepted_transactions(sender, events.drop_last());
    }
}

impl Sender {
    /// How many slots a sender took during a sequence of events, late ones left
    /// out.
    pub open spec fn slots_taken(self, events: Seq<SenderEvent>) -> int
        decreases events.len(),
    {
        if events.len() == 0 {
            0
        } else {
            let before = self.after_all(events.drop_last());
            self.slots_taken(events.drop_last()) + if before.phase == SenderPhase::WaitForSlot
                && before.after(events.last()).phase == SenderPhase::Receive {
                1int
            } else {
                0
            }
        }
    }
}

/// A slot sends at most one transaction: a sender never sends ahead of its
/// schedule.
pub proof fn law_a_slot_sends_at_most_one_transaction(sender: Sender, events: Seq<SenderEvent>)
    requires
        !(sender.phase is Receive || sender.phase is Send),
    ensures
        sender.accepted(events) <= sender.slots_taken(events),
        sender.after_all(events).phase is Receive || sender.after_all(events).phase is Send
            ==> sender.accepted(events) < sender.slots_taken(events),
    decreases events.len(),
{
    if events.len() != 0 {
        law_a_slot_sends_at_most_one_transaction(sender, events.drop_last());
    }
}

/// A transaction that the cluster took is handed out for counting once, right
/// then, and counts for the measurement exactly if its slot came before the
/// measurement ended.
pub proof fn law_each_accepted_transaction_is_counted_once(sender: Sender, event: SenderEvent)
    requires
        !(sender.phase is Count),
    ensures
        sender.after(event).phase is Count <==> sender.accepts(event),
        sender.accepts(event) ==> sender.after(event).phase == (SenderPhase::Count {
            measured: sender.slot_measured,
        }),
{
}

/// A slot that comes more than the maximum lateness after its scheduled time
/// sends nothing; any other slot goes on to receive a transaction, and is
/// measured exactly if it comes before the measurement ends.
pub proof fn law_late_slots_are_dropped(sender: Sender, scheduled: u128, now: u128)
    requires
        sender.phase == SenderPhase::WaitForSlot,
    ensures
        ({
            let after = sender.after(SenderEvent::Slot { scheduled, now });
            let late = now > scheduled + MAX_SEND_LATENESS_MS * NANOS_PER_MILLI;
            &&& late ==> after.phase == SenderPhase::DropSlot
            &&& !late ==> after.phase == SenderPhase::Receive
            &&& !late ==> after.slot_measured == sender.limits.measures(now)
        }),
{
}

/// A sender that is through stays so and sends nothing more.
pub proof fn law_stopping_is_final(sender: Sender, events: Seq<SenderEvent>)
    requires
        sender.outcome() is Some,
    ensures
        sender.after_all(events) == sender,
    decreases events.len(),
{
    if events.len() != 0 {
        law_stopping_is_final(sender, events.drop_last());
    }
}

/// A sender never sends past its limits: whatever the slot before did, once a
/// limit is reached the next look at the signals makes it stop, and it raises the
/// exit signal for all others.
pub proof fn law_limits_stop_the_sender(sender: Sender, exit: bool, now: u128, measured: u64)
    requires
        sender.phase == SenderPhase::CheckSignals,
    ensures
        sender.after(SenderEvent::Signals { exit, now, measured }).phase == SenderPhase::StopProducer
            <==> sender.limits.reached(exit, now, measured),
{
}

/// Without a time limit a sender that is not told to stop goes on until its
/// number of transactions is reached, and every transaction that it sends counts
/// towards it.
pub proof fn law_a_counted_sender_stops_at_its_count(
    limits: SenderLimits,
    count: u64,
    now: u128,
    measured: u64,
)
    requires
        limits.measurement_end is None,
        limits.total is None,
        limits.tx_count == Some(count),
    ensures
        limits.reached(false, now, measured) <==> measured >= count,
        limits.measures(now),
{
}

/// A sender that has started never is through without having raised the exit
/// signal: it stops only from the phase that raises it.
pub proof fn law_stopping_raises_the_exit_signal(sender: Sender, event: SenderEvent)
    requires
        sender.outcome() is None,
        sender.after(event).outcome() is Some,
    ensures
        sender.phase == SenderPhase::StopProducer && event == SenderEvent::ProducerStopped
            && sender.after(event).phase == SenderPhase::Stopped || sender.phase
            == SenderPhase::QueryFirstBlockhash && event is Blockhash && sender.after(event).phase
            == SenderPhase::NeverStarted,
{
}

/// A sender without a first blockhash returns zero, and at no point of its life was
/// it to start a producer or to raise the exit signal. It comes to that exactly
/// when the first query brings nothing.
pub proof fn law_a_sender_without_a_blockhash_never_starts(
    limits: SenderLimits,
    events: Seq<SenderEvent>,
    step: int,
)
    requires
        0 <= step <= events.len(),
        ({
            let phase = new_sender(limits).after_all(events).phase;
            phase is NeverStarted || phase is QueryFirstBlockhash
        }),
    ensures
        new_sender(limits).after_all(events).sent == 0,
        new_sender(limits).after_all(events).phase is NeverStarted ==> new_sender(
            limits,
        ).after_all(events).outcome() == Some(0u64),
        ({
            let phase = new_sender(limits).after_all(events.take(step)).phase;
            phase is NeverStarted || phase is QueryFirstBlockhash
        }),
        forall|latest: Option<BlockhashBytes>, now: u128|
            (#[trigger] new_sender(limits).after(
                SenderEvent::Blockhash { latest, now },
            )).phase is NeverStarted <==> latest is None,
    decreases events.len(),
{
    if events.len() != 0 {
        let before = events.drop_last();
        if step == events.len() {
            assert(events.take(step) =~= events);
            law_a_sender_without_a_blockhash_never_starts(limits, before, step - 1);
        } else {
            assert(events.take(step) =~= before.take(step));
            law_a_sender_without_a_blockhash_never_starts(limits, before, step);
        }
    } else {
        assert(events.take(step) =~= events);
    }
}

/// What a sender returns is the number of transactions that the cluster took from
/// it.
pub proof fn law_a_sender_returns_its_own_count(limits: SenderLimits, events: Seq<SenderEvent>)
    requires
        events.len() <= u64::MAX,
    ensures
        new_sender(limits).after_all(events).outcome() matches Some(count) ==> count == new_sender(
            limits,
        ).accepted(events),
{
    law_sent_counts_accepted_transactions(new_sender(limits), events);
}

/// The producer is told of a blockhash exactly when it differs from the one in
/// use, which it then replaces.
pub proof fn law_only_new_blockhashes_are_published(
    sender: Sender,
    latest: Option<BlockhashBytes>,
    now: u128,
)
    requires
        sender.phase == SenderPhase::QueryBlockhash,
    ensures
        ({
            let after = sender.after(SenderEvent::Blockhash { latest, now });
            &&& after.phase == SenderPhase::PublishBlockhash <==> (latest matches Some(bytes)
                && !sender.uses(bytes))
            &&& after.phase == SenderPhase::PublishBlockhash ==> after.blockhash == latest
                && after.blockhash_time == now
            &&& after.phase != SenderPhase::PublishBlockhash ==> after.blockhash
                == sender.blockhash && after.blockhash_time == sender.blockhash_time
        }),
{
}

/// A look at the signals stops a sender exactly if it is told to, its time is up or
/// its number of transactions is reached. Otherwise the blockhash is refreshed
/// exactly if two seconds have passed since it last changed, however much was sent,
/// and the slot is waited for if not.
pub proof fn law_signals_stop_refresh_or_go_on(
    sender: Sender,
    exit: bool,
    now: u128,
    measured: u64,
)
    requires
        sender.phase is CheckSignals,
    ensures
        ({
            let after = sender.after(SenderEvent::Signals { exit, now, measured });
            let limits = sender.limits;
            let stop = exit || (limits.total is Some && now >= limits.total->0) || (
            limits.tx_count is Some && measured >= limits.tx_count->0);
            let stale = now >= sender.blockhash_time + 2_000_000_000;
            &&& after.phase is StopProducer <==> stop
            &&& after.phase is QueryBlockhash <==> !stop && stale
            &&& after.phase is WaitForSlot <==> !stop && !stale
        }),
{
}

/// A query for the first blockhash decides whether a sender starts, and with which
/// blockhash; the age of the blockhash counts from the start of the producer.
pub proof fn law_a_sender_starts_with_its_first_blockhash(
    sender: Sender,
    latest: Option<BlockhashBytes>,
    queried: u128,
    now: u128,
)
    requires
        sender.phase is QueryFirstBlockhash,
    ensures
        ({
            let got = sender.after(SenderEvent::Blockhash { latest, now: queried });
            let begun = got.after(SenderEvent::ProducerStarted { now });
            &&& latest is None ==> got.phase is NeverStarted && got.blockhash is None
            &&& latest is Some ==> {
                &&& got.phase is StartProducer
                &&& got.blockhash == latest
                &&& begun.phase is CheckSignals
                &&& begun.blockhash == latest
                &&& begun.blockhash_time == now
            }
        }),
{
}

/// A later query leads on to the slot. Before that a blockhash whose bytes differ
/// from those in use replaces them and is published; any other answer leaves the
/// blockhash and its age alone.
pub proof fn law_a_refresh_leads_on_to_the_slot(
    sender: Sender,
    latest: Option<BlockhashBytes>,
    now: u128,
)
    requires
        sender.phase is QueryBlockhash,
        sender.blockhash is Some,
    ensures
        ({
            let got = sender.after(SenderEvent::Blockhash { latest, now });
            let news = latest is Some && latest->0@ != sender.blockhash->0@;
            &&& news ==> {
                &&& got.phase is PublishBlockhash
                &&& got.blockhash == latest
                &&& got.blockhash_time == now
                &&& got.after(SenderEvent::Published).phase is WaitForSlot
            }
            &&& !news ==> {
                &&& got.phase is WaitForSlot
                &&& got.blockhash == sender.blockhash
                &&& got.blockhash_time == sender.blockhash_time
            }
        }),
{
}

/// A slot is dropped exactly if it comes more than a tenth of a second late, and
/// the next one begins. A slot in time receives, sends and counts one transaction;
/// the count goes up by one exactly if the cluster took it, and it is measured
/// exactly if the measurement had not ended when the slot came.
pub proof fn law_a_slot_runs_its_course(sender: Sender, scheduled: u128, now: u128)
    requires
        sender.phase is WaitForSlot,
        sender.sent < u64::MAX,
    ensures
        ({
            let slot = sender.after(SenderEvent::Slot { scheduled, now });
            let taken = slot.after(SenderEvent::Received(Received::Transaction));
            let sent = taken.after(SenderEvent::Sent(true));
            let end = sender.limits.measurement_end;
            let measured = end is None || now < end->0;
            if now > scheduled + 100_000_000 {
                &&& slot.phase is DropSlot
                &&& slot.sent == sender.sent
                &&& slot.after(SenderEvent::Dropped).phase is CheckSignals
                &&& slot.after(SenderEvent::Dropped).sent == sender.sent
            } else {
                &&& slot.phase is Receive
                &&& slot.after(SenderEvent::Received(Received::Timeout)).phase is CheckSignals
                &&& slot.after(SenderEvent::Received(Received::Timeout)).sent == sender.sent
                &&& slot.after(SenderEvent::Received(Received::Disconnected)).phase is StopProducer
                &&& slot.after(SenderEvent::Received(Received::Disconnected)).sent == sender.sent
                &&& taken.phase is Send
                &&& taken.sent == sender.sent
                &&& taken.after(SenderEvent::Sent(false)).phase is CheckSignals
                &&& taken.after(SenderEvent::Sent(false)).sent == sender.sent
                &&& sent.phase == SenderPhase::Count { measured }
                &&& sent.sent == sender.sent + 1
                &&& sent.after(SenderEvent::Counted).phase is CheckSignals
                &&& sent.after(SenderEvent::Counted).sent == sender.sent + 1
            }
        }),
{
}

/// Whether an event is what a sender in a phase waits for.
pub open spec fn answers(phase: SenderPhase, event: SenderEvent) -> bool {
    match event {
        SenderEvent::ProducerStarted { .. } => phase is StartProducer,
        SenderEvent::Signals { .. } => phase is CheckSignals,
        SenderEvent::Blockhash { .. } => phase is QueryFirstBlockhash || phase is QueryBlockhash,
        SenderEvent::Published => phase is PublishBlockhash,
        SenderEvent::Slot { .. } => phase is WaitForSlot,
        SenderEvent::Dropped => phase is DropSlot,
        SenderEvent::Received(_) => phase is Receive,
        SenderEvent::Sent(_) => phase is Send,
        SenderEvent::Counted => phase is Count,
        SenderEvent::ProducerStopped => phase is StopProducer,
    }
}

/// A sender moves on exactly when it is told what it waits for; anything else
/// leaves it as it is. No event changes its limits, only blockhashes change the
/// blockhash, only blockhashes and the start of the producer its age, only slots
/// whether the slot is measured, and only sends the count.
pub proof fn law_only_answers_move_a_sender(sender: Sender, event: SenderEvent)
    ensures
        sender.after(event).phase != sender.phase <==> answers(sender.phase, event),
        !answers(sender.phase, event) ==> sender.after(event) == sender,
        sender.after(event).limits == sender.limits,
        !(event is Blockhash) ==> sender.after(event).blockhash == sender.blockhash,
        !(event is Blockhash || event is ProducerStarted) ==> sender.after(event).blockhash_time
            == sender.blockhash_time,
        !(event is Slot) ==> sender.after(event).slot_measured == sender.slot_measured,
        !(event is Sent) ==> sender.after(event).sent == sender.sent,
        event == SenderEvent::Sent(false) ==> sender.after(event).sent == sender.sent,
        sender.phase is StopProducer && event == SenderEvent::ProducerStopped ==> sender.after(
            event,
        ).phase is Stopped,
        sender.outcome() is Some <==> sender.phase is Stopped || sender.phase is NeverStarted,
        sender.outcome() is Some ==> sender.outcome()->0 == sender.sent,
{
}

/// Two senders with the same limits and a blockhash of the same age decide alike,
/// whatever they have sent and whichever blockhash they use.
pub proof fn law_decisions_depend_on_limits_and_age_alone(
    a: Sender,
    b: Sender,
    exit: bool,
    now: u128,
    measured: u64,
)
    requires
        a.phase is CheckSignals,
        b.phase is CheckSignals,
        a.limits == b.limits,
        a.blockhash_time == b.blockhash_time,
    ensures
        a.after(SenderEvent::Signals { exit, now, measured }).phase == b.after(
            SenderEvent::Signals { exit, now, measured },
        ).phase,
{
}

/// The senders of a run with a duration stop, and cease to measure, when warmup and
/// duration are over; those of a run without never do so by the clock.
pub proof fn law_limits_follow_the_settings(
    warmup_secs: u64,
    duration_secs: Option<u64>,
    tx_count: Option<u64>,
)
    requires
        duration_secs is Some ==> warmup_secs + duration_secs->0 <= u64::MAX,
    ensures
        ({
            let limits = limits_of(timing_of(warmup_secs, duration_secs), tx_count);
            &&& limits.tx_count == tx_count
            &&& duration_secs is None <==> limits.total is None
            &&& duration_secs is None <==> limits.measurement_end is None
            &&& duration_secs is Some ==> limits.total->0 == warmup_secs * 1_000_000_000
                + duration_secs->0 * 1_000_000_000
            &&& duration_secs is Some ==> limits.measurement_end->0 == warmup_secs * 1_000_000_000
                + duration_secs->0 * 1_000_000_000
        }),
{
}

/// A new sender has sent nothing, has no blockhash and waits for its first one.
pub proof fn law_a_new_sender_waits_for_a_blockhash(limits: SenderLimits)
    ensures
        new_sender(limits).limits == limits,
        new_sender(limits).sent == 0,
        new_sender(limits).blockhash is None,
        new_sender(limits).phase is QueryFirstBlockhash,
        new_sender(limits).outcome() is None,
{
}

} // verus!
