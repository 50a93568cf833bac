use solana_bench_tps_rate::producer::{Producer, ProducerEvent, ProducerPhase, TX_BATCH_SIZE};

#[test]
fn batches_are_delivered_one_by_one() {
    assert_eq!(TX_BATCH_SIZE, 500);
    let mut producer = Producer::new();
    for _ in 0..2 {
        producer.advance(ProducerEvent::Exit(false));
        assert_eq!(producer.phase, ProducerPhase::Generate(500));
        producer.advance(ProducerEvent::Generated);
        for left in (0..500).rev() {
            assert_eq!(producer.phase, ProducerPhase::CheckExit);
            producer.advance(ProducerEvent::Exit(false));
            assert_eq!(producer.phase, ProducerPhase::Offer);
            producer.advance(ProducerEvent::Offered(true));
            assert_eq!(producer.left, left);
        }
    }
}

#[test]
fn exit_signal_stops_a_producer_within_a_batch() {
    let mut producer = Producer::new();
    producer.advance(ProducerEvent::Exit(false));
    producer.advance(ProducerEvent::Generated);
    producer.advance(ProducerEvent::Exit(true));
    assert_eq!(producer.phase, ProducerPhase::Stopped);
    producer.advance(ProducerEvent::Exit(false));
    assert_eq!(producer.phase, ProducerPhase::Stopped);
}

#[test]
fn closed_channel_stops_a_producer() {
    let mut producer = Producer::new();
    producer.advance(ProducerEvent::Exit(false));
    producer.advance(ProducerEvent::Generated);
    producer.advance(ProducerEvent::Exit(false));
    producer.advance(ProducerEvent::Offered(false));
    assert_eq!(producer.phase, ProducerPhase::Stopped);
    assert_eq!(producer.left, 500);
}
