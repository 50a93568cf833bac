use solana_bench_tps_rate::workload::RunTiming;
use solana_bench_tps_rate::sender::{
    same_blockhash, Received, Sender, SenderEvent, SenderLimits, SenderPhase,
};

const MS: u128 = 1_000_000;

fn limits() -> SenderLimits {
    SenderLimits {
        measurement_end: Some(10_000 * MS),
        total: Some(10_000 * MS),
        tx_count: None,
    }
}

/// A sender whose producer was started at a time, with a blockhash.
fn started(limits: SenderLimits, blockhash: [u8; 32], now: u128) -> Sender {
    let mut sender = Sender::new(limits);
    assert_eq!(sender.phase, SenderPhase::QueryFirstBlockhash);
    sender.advance(SenderEvent::Blockhash { latest: Some(blockhash), now });
    assert_eq!(sender.phase, SenderPhase::StartProducer);
    sender.advance(SenderEvent::ProducerStarted { now });
    assert_eq!(sender.phase, SenderPhase::CheckSignals);
    sender
}

fn signals(now: u128) -> SenderEvent {
    SenderEvent::Signals { exit: false, now, measured: 0 }
}

#[test]
fn slot_sends_one_transaction() {
    let mut sender = started(limits(), [7; 32], 0);
    sender.advance(signals(MS));
    assert_eq!(sender.phase, SenderPhase::WaitForSlot);
    sender.advance(SenderEvent::Slot { scheduled: 2 * MS, now: 2 * MS });
    assert_eq!(sender.phase, SenderPhase::Receive);
    sender.advance(SenderEvent::Received(Received::Transaction));
    assert_eq!(sender.phase, SenderPhase::Send);
    sender.advance(SenderEvent::Sent(true));
    assert_eq!(sender.phase, SenderPhase::Count { measured: true });
    assert_eq!(sender.sent, 1);
    sender.advance(SenderEvent::Counted);
    assert_eq!(sender.phase, SenderPhase::CheckSignals);
}

#[test]
fn refused_transactions_do_not_count() {
    let mut sender = started(limits(), [7; 32], 0);
    sender.advance(signals(MS));
    sender.advance(SenderEvent::Slot { scheduled: MS, now: MS });
    sender.advance(SenderEvent::Received(Received::Transaction));
    sender.advance(SenderEvent::Sent(false));
    assert_eq!(sender.phase, SenderPhase::CheckSignals);
    assert_eq!(sender.sent, 0);
}

#[test]
fn late_slots_are_dropped() {
    let mut sender = started(limits(), [7; 32], 0);
    sender.advance(signals(MS));
    sender.advance(SenderEvent::Slot { scheduled: 0, now: 100 * MS + 1 });
    assert_eq!(sender.phase, SenderPhase::DropSlot);
    sender.advance(SenderEvent::Dropped);
    assert_eq!(sender.phase, SenderPhase::CheckSignals);
    sender.advance(signals(200 * MS));
    // Exactly the maximum lateness is still in time.
    sender.advance(SenderEvent::Slot { scheduled: 100 * MS, now: 200 * MS });
    assert_eq!(sender.phase, SenderPhase::Receive);
    sender.advance(SenderEvent::Received(Received::Timeout));
    assert_eq!(sender.phase, SenderPhase::CheckSignals);
}

#[test]
fn slots_after_the_measurement_are_not_measured() {
    let open_end = SenderLimits { measurement_end: Some(50), total: None, tx_count: None };
    let mut sender = started(open_end, [7; 32], 0);
    sender.advance(signals(49));
    sender.advance(SenderEvent::Slot { scheduled: 50, now: 50 });
    sender.advance(SenderEvent::Received(Received::Transaction));
    sender.advance(SenderEvent::Sent(true));
    assert_eq!(sender.phase, SenderPhase::Count { measured: false });
    assert_eq!(sender.sent, 1);
}

#[test]
fn blockhash_is_refreshed_after_two_seconds() {
    let mut sender = started(limits(), [7; 32], 0);
    sender.advance(signals(2_000 * MS - 1));
    assert_eq!(sender.phase, SenderPhase::WaitForSlot);
    let mut sender = started(limits(), [7; 32], 0);
    sender.advance(signals(2_000 * MS));
    assert_eq!(sender.phase, SenderPhase::QueryBlockhash);
    // The same blockhash, or none, leaves its age as it is.
    let mut same = sender;
    same.advance(SenderEvent::Blockhash { latest: Some([7; 32]), now: 2_001 * MS });
    assert_eq!(same.phase, SenderPhase::WaitForSlot);
    assert_eq!(same.blockhash_time, 0);
    let mut none = sender;
    none.advance(SenderEvent::Blockhash { latest: None, now: 2_001 * MS });
    assert_eq!(none.phase, SenderPhase::WaitForSlot);
    sender.advance(SenderEvent::Blockhash { latest: Some([8; 32]), now: 2_001 * MS });
    assert_eq!(sender.phase, SenderPhase::PublishBlockhash);
    assert_eq!(sender.blockhash, Some([8; 32]));
    assert_eq!(sender.blockhash_time, 2_001 * MS);
    sender.advance(SenderEvent::Published);
    assert_eq!(sender.phase, SenderPhase::WaitForSlot);
}

#[test]
fn limits_stop_a_sender() {
    let counted = SenderLimits { measurement_end: Some(100), total: None, tx_count: Some(5) };
    let mut sender = started(counted, [7; 32], 0);
    let mut exiting = sender;
    exiting.advance(SenderEvent::Signals { exit: true, now: 1, measured: 0 });
    assert_eq!(exiting.phase, SenderPhase::StopProducer);
    sender.advance(SenderEvent::Signals { exit: false, now: 1, measured: 4 });
    assert_eq!(sender.phase, SenderPhase::WaitForSlot);
    sender.advance(SenderEvent::Slot { scheduled: 1, now: 1 });
    sender.advance(SenderEvent::Received(Received::Transaction));
    sender.advance(SenderEvent::Sent(true));
    sender.advance(SenderEvent::Counted);
    sender.advance(SenderEvent::Signals { exit: false, now: 2, measured: 5 });
    assert_eq!(sender.phase, SenderPhase::StopProducer);
    sender.advance(signals(3));
    assert_eq!(sender.phase, SenderPhase::StopProducer);

    let mut timed = started(limits(), [7; 32], 9_999 * MS);
    timed.advance(signals(10_000 * MS));
    assert_eq!(timed.phase, SenderPhase::StopProducer);
}

#[test]
fn producer_gone_stops_a_sender() {
    let mut sender = started(limits(), [7; 32], 0);
    sender.advance(signals(MS));
    sender.advance(SenderEvent::Slot { scheduled: MS, now: MS });
    sender.advance(SenderEvent::Received(Received::Disconnected));
    assert_eq!(sender.phase, SenderPhase::StopProducer);
}

#[test]
fn blockhashes_compare_by_every_byte() {
    let mut other = [7; 32];
    assert!(same_blockhash(&[7; 32], &other));
    other[31] = 8;
    assert!(!same_blockhash(&[7; 32], &other));
}

#[test]
fn count_is_not_cut_off_by_the_clock() {
    let limits = SenderLimits::new(&RunTiming::new(5, None), Some(1_000));
    let day = 86_400_000 * MS;
    let mut sender = started(limits, [7; 32], day);
    sender.advance(SenderEvent::Signals { exit: false, now: day, measured: 999 });
    assert_eq!(sender.phase, SenderPhase::WaitForSlot);
    sender.advance(SenderEvent::Slot { scheduled: day, now: day });
    sender.advance(SenderEvent::Received(Received::Transaction));
    sender.advance(SenderEvent::Sent(true));
    assert_eq!(sender.phase, SenderPhase::Count { measured: true });
    sender.advance(SenderEvent::Counted);
    sender.advance(SenderEvent::Signals { exit: false, now: day, measured: 1_000 });
    assert_eq!(sender.phase, SenderPhase::StopProducer);
}

#[test]
fn limits_of_a_run_with_a_duration() {
    let limits = SenderLimits::new(&RunTiming::new(5, Some(30)), None);
    assert_eq!(limits.measurement_end, Some(35_000 * MS));
    assert_eq!(limits.total, Some(35_000 * MS));
    assert_eq!(limits.tx_count, None);
}

#[test]
fn sender_without_a_blockhash_never_starts() {
    let mut sender = Sender::new(limits());
    assert_eq!(sender.result(), None);
    sender.advance(SenderEvent::Blockhash { latest: None, now: MS });
    assert_eq!(sender.phase, SenderPhase::NeverStarted);
    assert_eq!(sender.result(), Some(0));
    sender.advance(SenderEvent::Blockhash { latest: Some([7; 32]), now: MS });
    assert_eq!(sender.phase, SenderPhase::NeverStarted);
}

#[test]
fn stopping_raises_the_exit_signal_and_returns_the_count() {
    let mut sender = started(limits(), [7; 32], 0);
    sender.advance(signals(MS));
    sender.advance(SenderEvent::Slot { scheduled: MS, now: MS });
    sender.advance(SenderEvent::Received(Received::Transaction));
    sender.advance(SenderEvent::Sent(true));
    sender.advance(SenderEvent::Counted);
    sender.advance(SenderEvent::Signals { exit: true, now: MS, measured: 1 });
    assert_eq!(sender.phase, SenderPhase::StopProducer);
    assert_eq!(sender.result(), None);
    sender.advance(SenderEvent::ProducerStopped);
    assert_eq!(sender.phase, SenderPhase::Stopped);
    assert_eq!(sender.result(), Some(1));
    sender.advance(signals(2 * MS));
    assert_eq!(sender.phase, SenderPhase::Stopped);
}
