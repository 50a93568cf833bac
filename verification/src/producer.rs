//! The producer of one sender: what it does next.
//!
//! The state machine decides; its caller reads the exit signal and the blockhash
//! that the sender shares, generates the batches and moves transactions into the
//! channel, and reports back what it found.
use vstd::prelude::*;

verus! {

/// Batch size for parallel generation.
pub const TX_BATCH_SIZE: usize = 500;

/// Whether the transactions of a run leave out the data size limit.
pub const SKIP_DATA_SIZE_LIMIT: bool = false;

/// Where a producer stands, and what it waits for.
#[derive(Debug, Clone, Copy, PartialEq, Eq, Structural)]
pub enum ProducerPhase {
    /// The exit signal is to be read.
    CheckExit,
    /// A batch of this size is to be generated, with the blockhash that is shared
    /// right then.
    Generate(usize),
    /// The next transaction of the batch is to be moved into the channel, which
    /// waits while the channel is full.
    Offer,
    /// The producer is through.
    Stopped,
}

/// What a producer is told.
#[derive(Debug, Clone, Copy, PartialEq, Eq, Structural)]
pub enum ProducerEvent {
    /// The exit signal.
    Exit(bool),
    /// The batch is there.
    Generated,
    /// Whether the channel took the transaction; it does not once the sender has
    /// stopped.
    Offered(bool),
}

/// A producer's state.
#[derive(Debug, Clone, Copy, PartialEq, Eq, Structural)]
pub struct Producer {
    /// Transactions of the current batch that are not in the channel yet.
    pub left: usize,
    /// Where the producer stands.
    pub phase: ProducerPhase,
}

/// A producer that has not begun.
pub open spec fn new_producer() -> Producer {
    Producer { left: 0, phase: ProducerPhase::CheckExit }
}

impl Producer {
    /// No more of a batch is left than there was, and something is left to be
    /// offered.
    pub open spec fn valid(self) -> bool {
        &&& self.left <= TX_BATCH_SIZE
        &&& self.phase is Offer ==> self.left > 0
        &&& self.phase is Generate ==> self.left == 0 && self.phase == ProducerPhase::Generate(
            TX_BATCH_SIZE,
        )
    }

    /// The producer after an event. The exit signal is read before every batch and
    /// before every transaction. An event that nothing was asked about changes
    /// nothing.
    pub open spec fn after(self, event: ProducerEvent) -> Producer {
        match (self.phase, event) {
            (ProducerPhase::CheckExit, ProducerEvent::Exit(exit)) => Producer {
                phase: if exit {
                    ProducerPhase::Stopped
                } else if self.left == 0 {
                    ProducerPhase::Generate(TX_BATCH_SIZE)
                } else {
                    ProducerPhase::Offer
                },
                ..self
            },
            (ProducerPhase::Generate(size), ProducerEvent::Generated) => Producer {
                left: size,
                phase: ProducerPhase::CheckExit,
            },
            (ProducerPhase::Offer, ProducerEvent::Offered(true)) => Producer {
                left: (self.left - 1) as usize,
                phase: ProducerPhase::CheckExit,
            },
            (ProducerPhase::Offer, ProducerEvent::Offered(false)) => Producer {
                phase: ProducerPhase::Stopped,
                ..self
            },
            _ => self,
        }
    }

    /// The producer after a sequence of events.
    pub open spec fn after_all(self, events: Seq<ProducerEvent>) -> Producer
        decreases events.len(),
    {
        if events.len() == 0 {
            self
        } else {
            self.after_all(events.drop_last()).after(events.last())
        }
    }

    /// Whether an event brings a batch.
    pub open spec fn generates(self, event: ProducerEvent) -> bool {
        self.phase is Generate && event == ProducerEvent::Generated
    }

    /// Whether an event says that the channel took a transaction.
    pub open spec fn delivers(self, event: ProducerEvent) -> bool {
        self.phase is Offer && event == ProducerEvent::Offered(true)
    }

    /// How many batches were generated during a sequence of events.
    pub open spec fn batches(self, events: Seq<ProducerEvent>) -> int
        decreases events.len(),
    {
        if events.len() == 0 {
            0
        } else {
            self.batches(events.drop_last()) + if self.after_all(events.drop_last()).generates(
                events.last(),
            ) {
                1int
            } else {
                0
            }
        }
    }

    /// How many transactions the channel took during a sequence of events.
    pub open spec fn delivered(self, events: Seq<ProducerEvent>) -> int
        decreases events.len(),
    {
        if events.len() == 0 {
            0
        } else {
            self.delivered(events.drop_last()) + if self.after_all(events.drop_last()).delivers(
                events.last(),
            ) {
                1int
            } else {
                0
            }
        }
    }

    /// A producer that has not begun.
    pub fn new() -> (producer: Self)
        ensures
            producer == new_producer(),
            producer.valid(),
    {
        Producer { left: 0, phase: ProducerPhase::CheckExit }
    }

    /// Take in an event; the new phase says what to do next.
    pub fn advance(&mut self, event: ProducerEvent)
        requires
            old(self).valid(),
        ensures
            final(self).valid(),
            *final(self) == old(self).after(event),
    {
        match (self.phase, event) {
            (ProducerPhase::CheckExit, ProducerEvent::Exit(exit)) => {
                if exit {
                    self.phase = ProducerPhase::Stopped;
                } else if self.left == 0 {
                    self.phase = ProducerPhase::Generate(TX_BATCH_SIZE);
                } else {
                    self.phase = ProducerPhase::Offer;
                }
            },
            (ProducerPhase::Generate(size), ProducerEvent::Generated) => {
                self.left = size;
                self.phase = ProducerPhase::CheckExit;
            },
            (ProducerPhase::Offer, ProducerEvent::Offered(taken)) => {
                if taken {
                    self.left = self.left - 1;
                    self.phase = ProducerPhase::CheckExit;
                } else {
                    self.phase = ProducerPhase::Stopped;
                }
            },
            _ => {},
        }
    }
}

/// Every transaction of a batch goes into the channel once before the next batch is
/// generated: what the channel took and what is left make up the batches.
pub proof fn law_every_transaction_is_delivered_once(events: Seq<ProducerEvent>)
    ensures
        new_producer().after_all(events).valid(),
        new_producer().delivered(events) + new_producer().after_all(events).left
            == new_producer().batches(events) * TX_BATCH_SIZE,
    decreases events.len(),
{
    if events.len() != 0 {
        law_every_transaction_is_delivered_once(events.drop_last());
    }
}

/// A producer stops exactly when it finds the exit signal raised or the channel
/// closed, and stays stopped.
pub proof fn law_producers_stop_by_the_signal_or_the_channel(
    producer: Producer,
    event: ProducerEvent,
)
    ensures
        producer.after(event).phase is Stopped <==> {
            ||| producer.phase is Stopped
            ||| producer.phase is CheckExit && event == ProducerEvent::Exit(true)
            ||| producer.phase is Offer && event == ProducerEvent::Offered(false)
        },
        producer.phase is Stopped ==> producer.after(event) == producer,
{
}

/// Nothing is generated or delivered without a look at the exit signal right
/// before it that found it down.
pub proof fn law_the_exit_signal_is_read_before_every_step(
    producer: Producer,
    event: ProducerEvent,
)
    requires
        !(producer.phase is Generate || producer.phase is Offer),
        producer.after(event).phase is Generate || producer.after(event).phase is Offer,
    ensures
        producer.phase is CheckExit,
        event == ProducerEvent::Exit(false),
{
}

/// What a producer does next: with the exit signal down it generates five hundred
/// transactions if none is left, and offers one otherwise; each one that the channel
/// takes is one less, and every step leads back to the exit signal.
pub proof fn law_what_a_producer_does_next(producer: Producer)
    requires
        producer.valid(),
    ensures
        producer.phase is CheckExit ==> {
            let next = producer.after(ProducerEvent::Exit(false));
            &&& producer.left == 0 ==> next.phase == ProducerPhase::Generate(500)
            &&& producer.left > 0 ==> next.phase is Offer
            &&& next.left == producer.left
            &&& producer.after(ProducerEvent::Exit(true)).phase is Stopped
        },
        producer.phase is Generate ==> {
            let next = producer.after(ProducerEvent::Generated);
            next.phase is CheckExit && next.left == 500
        },
        producer.phase is Offer ==> {
            let next = producer.after(ProducerEvent::Offered(true));
            next.phase is CheckExit && next.left + 1 == producer.left
        },
{
}

/// A producer moves on exactly when it is told what it waits for; anything else
/// leaves it as it is.
pub proof fn law_only_answers_move_a_producer(producer: Producer, event: ProducerEvent)
    ensures
        producer.after(event) != producer <==> match event {
            ProducerEvent::Exit(_) => producer.phase is CheckExit,
            ProducerEvent::Generated => producer.phase is Generate,
            ProducerEvent::Offered(_) => producer.phase is Offer,
        },
{
}

} // verus!
