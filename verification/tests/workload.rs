use solana_bench_tps_rate::rate_limiter::RateLimiter;
use solana_bench_tps_rate::workload::{
    keypairs_to_generate, lamports_per_account, split_among_threads, thread_tps, RunTiming,
};

#[test]
fn at_least_two_keypairs_per_thread() {
    assert_eq!(keypairs_to_generate(100, 4), 100);
    assert_eq!(keypairs_to_generate(5, 4), 8);
    assert_eq!(keypairs_to_generate(8, 4), 8);
}

#[test]
fn accounts_get_rent_and_lamports() {
    assert_eq!(lamports_per_account(890_880, 1_000_000_000), 1_000_890_880);
}

#[test]
fn last_thread_gets_the_remainder() {
    let shares = split_among_threads((0..11).collect::<Vec<u32>>(), 3);
    assert_eq!(
        shares,
        vec![vec![0, 1, 2], vec![3, 4, 5], vec![6, 7, 8, 9, 10]]
    );
    assert_eq!(split_among_threads(vec![1, 2, 3], 1), vec![vec![1, 2, 3]]);
    let few: Vec<Vec<u8>> = split_among_threads(vec![9], 2);
    assert_eq!(few, vec![vec![], vec![9]]);
}

#[test]
fn first_threads_send_one_more() {
    let rates: Vec<u64> = (0..4).map(|t| thread_tps(t, 1002, 4)).collect();
    assert_eq!(rates, vec![251, 251, 250, 250]);
    assert_eq!((0..7).map(|t| thread_tps(t, 3, 7)).sum::<u64>(), 3);
    assert_eq!(thread_tps(0, u64::MAX, 1), u64::MAX);
}

#[test]
fn more_threads_than_transactions_per_second() {
    let rates: Vec<u64> = (0..5).map(|t| thread_tps(t, 3, 5)).collect();
    assert_eq!(rates, vec![1, 1, 1, 0, 0]);
    // A thread without a share of the rate still sends once per second.
    assert_eq!(RateLimiter::new(0, 0).mean_interval_ns(), 1_000_000_000);
}

#[test]
fn timing_with_a_duration() {
    let timing = RunTiming::new(5, Some(30));
    assert_eq!(timing.warmup_ns, 5_000_000_000);
    assert_eq!(timing.measurement_end_ns, Some(35_000_000_000));
    assert_eq!(timing.total_ns, Some(35_000_000_000));
}

#[test]
fn timing_without_a_duration() {
    let timing = RunTiming::new(7, None);
    assert_eq!(timing.warmup_ns, 7_000_000_000);
    assert_eq!(timing.measurement_end_ns, None);
    assert_eq!(timing.total_ns, None);
}
