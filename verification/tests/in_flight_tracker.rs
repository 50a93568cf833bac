use solana_bench_tps_rate::batch_id::{BatchIdGenerator, TransactionBatchId};
use solana_bench_tps_rate::in_flight_tracker::InFlightTracker;

#[test]
#[should_panic(expected = "is not being tracked")]
fn test_in_flight_tracker_untracked_batch() {
    let mut in_flight_tracker = InFlightTracker::new(2);
    in_flight_tracker.complete_batch(TransactionBatchId::new(5));
}

#[test]
fn test_in_flight_tracker() {
    let mut in_flight_tracker = InFlightTracker::new(2);

    // Add a batch with 2 transactions, 10 kCUs to thread 0.
    let batch_id_0 = in_flight_tracker.track_batch(2, 10_000, 0);
    assert_eq!(in_flight_tracker.num_in_flight_per_thread(), &[2, 0]);
    assert_eq!(in_flight_tracker.cus_in_flight_per_thread(), &[10_000, 0]);

    // Add a batch with 1 transaction, 15 kCUs to thread 1.
    let batch_id_1 = in_flight_tracker.track_batch(1, 15_000, 1);
    assert_eq!(in_flight_tracker.num_in_flight_per_thread(), &[2, 1]);
    assert_eq!(
        in_flight_tracker.cus_in_flight_per_thread(),
        &[10_000, 15_000]
    );

    in_flight_tracker.complete_batch(batch_id_0);
    assert_eq!(in_flight_tracker.num_in_flight_per_thread(), &[0, 1]);
    assert_eq!(in_flight_tracker.cus_in_flight_per_thread(), &[0, 15_000]);

    in_flight_tracker.complete_batch(batch_id_1);
    assert_eq!(in_flight_tracker.num_in_flight_per_thread(), &[0, 0]);
    assert_eq!(in_flight_tracker.cus_in_flight_per_thread(), &[0, 0]);
}

#[test]
fn completion_order_does_not_matter() {
    let mut a = InFlightTracker::new(3);
    let mut b = InFlightTracker::new(3);
    let ids_a: Vec<TransactionBatchId> =
        (0..4).map(|i| a.track_batch(i + 1, 100 * i as u64, i % 3)).collect();
    let ids_b: Vec<TransactionBatchId> =
        (0..4).map(|i| b.track_batch(i + 1, 100 * i as u64, i % 3)).collect();
    assert_eq!(ids_a, ids_b);
    assert_eq!(a.complete_batch(ids_a[3]), 0);
    assert_eq!(a.complete_batch(ids_a[1]), 1);
    assert_eq!(b.complete_batch(ids_b[1]), 1);
    assert_eq!(b.complete_batch(ids_b[3]), 0);
    assert_eq!(a.num_in_flight_per_thread(), &[1, 0, 3]);
    assert_eq!(a.num_in_flight_per_thread(), b.num_in_flight_per_thread());
    assert_eq!(a.cus_in_flight_per_thread(), &[0, 0, 200]);
    assert_eq!(a.cus_in_flight_per_thread(), b.cus_in_flight_per_thread());
}

#[test]
fn batch_ids_ascend_and_wrap() {
    let mut generator = BatchIdGenerator::default();
    assert_eq!(generator.next(), TransactionBatchId::new(0));
    assert_eq!(generator.next(), TransactionBatchId::new(1));
    generator.next_id = u64::MAX;
    assert_eq!(generator.next(), TransactionBatchId::new(u64::MAX));
    assert_eq!(generator.next(), TransactionBatchId::new(0));
}
