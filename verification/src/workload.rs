//! How a run is divided: key pairs and rate among the threads, time into
//! warmup and measurement.
use crate::rate_limiter::effective_tps;
use vstd::arithmetic::div_mod::{lemma_fundamental_div_mod, lemma_mod_bound};
use vstd::prelude::*;

verus! {

/// Nanoseconds in a second.
pub const SECOND_NS: u128 = 1_000_000_000;

/// Key pairs that are generated for each thread at least.
pub const MIN_KEYPAIRS_PER_THREAD: usize = 2;

/// Bytes of data in each account: the rent is that of an account without any.
pub const ACCOUNT_DATA_LEN: usize = 0;

/// The number of key pairs to generate: as many as asked for, but at least two
/// per thread.
pub fn keypairs_to_generate(num_keypairs: usize, num_threads: usize) -> (count: usize)
    requires
        num_threads * MIN_KEYPAIRS_PER_THREAD <= usize::MAX,
    ensures
        count >= num_keypairs,
        count >= num_threads * MIN_KEYPAIRS_PER_THREAD,
        count == num_keypairs || count == num_threads * MIN_KEYPAIRS_PER_THREAD,
{
    let min_keypairs: usize = num_threads * MIN_KEYPAIRS_PER_THREAD;
    if num_keypairs < min_keypairs {
        min_keypairs
    } else {
        num_keypairs
    }
}

/// The balance that each account is given: rent and the lamports to spend.
pub fn lamports_per_account(rent: u64, num_lamports: u64) -> (lamports: u64)
    requires
        rent + num_lamports <= u64::MAX,
    ensures
        lamports == rent + num_lamports,
{
    rent + num_lamports
}

/// The index of the first item that goes to a thread.
pub open spec fn share_start(thread: int, count: int, num_threads: int) -> int {
    if thread < num_threads {
        thread * (count / num_threads)
    } else {
        count
    }
}

/// The items that go to a thread: a run of `count / num_threads` of them, and
/// for the last thread all that remain.
pub open spec fn share<T>(items: Seq<T>, thread: int, num_threads: int) -> Seq<T> {
    items.subrange(
        share_start(thread, items.len() as int, num_threads),
        share_start(thread + 1, items.len() as int, num_threads),
    )
}

/// Shares start in order and within the items.
proof fn lemma_share_bounds(thread: int, count: int, num_threads: int)
    requires
        count >= 0,
        0 <= thread < num_threads,
    ensures
        0 <= share_start(thread, count, num_threads) <= share_start(
            thread + 1,
            count,
            num_threads,
        ) <= count,
        thread < num_threads - 1 ==> share_start(thread + 1, count, num_threads) == share_start(
            thread,
            count,
            num_threads,
        ) + count / num_threads,
{
    let size = count / num_threads;
    lemma_fundamental_div_mod(count, num_threads);
    lemma_mod_bound(count, num_threads);
    assert(size >= 0) by (nonlinear_arith)
        requires
            count == num_threads * size + count % num_threads,
            0 <= count % num_threads < num_threads,
            count >= 0,
    ;
    assert(0 <= thread * size <= num_threads * size && (thread + 1) * size == thread * size + size
        && (thread + 1) * size <= num_threads * size) by (nonlinear_arith)
        requires
            0 <= thread < num_threads,
            size >= 0,
    ;
}

/// Split items among threads, in order: each thread gets the same number, the
/// last one also gets what is left over.
pub fn split_among_threads<T>(items: Vec<T>, num_threads: usize) -> (shares: Vec<Vec<T>>)
    requires
        num_threads > 0,
    ensures
        shares@.len() == num_threads,
        forall|i: int|
            0 <= i < num_threads ==> (#[trigger] shares@[i])@ == share(
                items@,
                i,
                num_threads as int,
            ),
{
    let count: usize = items.len();
    let per_thread: usize = count / num_threads;
    let ghost all = items@;
    let mut rest = items;
    let mut shares: Vec<Vec<T>> = Vec::new();
    let mut i: usize = 0;
    proof {
        assert(0 * (count as int / num_threads as int) == 0);
        assert(all.skip(0) =~= all);
    }
    while i < num_threads - 1
        invariant
            0 <= i <= num_threads - 1,
            count == all.len(),
            per_thread == count as int / num_threads as int,
            rest@ == all.skip(share_start(i as int, count as int, num_threads as int)),
            0 <= share_start(i as int, count as int, num_threads as int) <= count,
            shares@.len() == i,
            forall|k: int|
                0 <= k < i ==> (#[trigger] shares@[k])@ == share(all, k, num_threads as int),
        decreases num_threads - i,
    {
        proof {
            lemma_share_bounds(i as int, count as int, num_threads as int);
        }
        let ghost before = rest@;
        let ghost start = share_start(i as int, count as int, num_threads as int);
        let tail = rest.split_off(per_thread);
        assert(rest@ =~= share(all, i as int, num_threads as int));
        assert(tail@ =~= all.skip(start + per_thread));
        shares.push(rest);
        rest = tail;
        i = i + 1;
    }
    assert(rest@ =~= share(all, num_threads - 1, num_threads as int));
    shares.push(rest);
    shares
}

/// The shares of the first `threads` threads, one after the other.
pub open spec fn joined_shares<T>(items: Seq<T>, threads: int, num_threads: int) -> Seq<T>
    decreases threads,
{
    if threads <= 0 {
        Seq::empty()
    } else {
        joined_shares(items, threads - 1, num_threads) + share(items, threads - 1, num_threads)
    }
}

/// Every item goes to exactly one thread, in order: the shares one after the
/// other are the items.
pub proof fn law_shares_make_up_the_items<T>(items: Seq<T>, threads: int, num_threads: int)
    requires
        0 <= threads <= num_threads,
        num_threads > 0,
    ensures
        joined_shares(items, threads, num_threads) == items.take(
            share_start(threads, items.len() as int, num_threads),
        ),
        threads == num_threads ==> joined_shares(items, threads, num_threads) == items,
    decreases threads,
{
    let count = items.len() as int;
    if threads == 0 {
        assert(0 * (count / num_threads) == 0);
        assert(items.take(0) =~= Seq::empty());
    } else {
        law_shares_make_up_the_items(items, threads - 1, num_threads);
        lemma_share_bounds(threads - 1, count, num_threads);
        assert(joined_shares(items, threads, num_threads) =~= items.take(
            share_start(threads, count, num_threads),
        ));
        assert(items.take(count) =~= items);
    }
}

/// Every thread gets at least `count / num_threads` items, so with two key pairs
/// per thread none goes without two.
pub proof fn law_every_thread_gets_its_share<T>(items: Seq<T>, thread: int, num_threads: int)
    requires
        0 <= thread < num_threads,
    ensures
        share(items, thread, num_threads).len() >= items.len() as int / num_threads,
        thread < num_threads - 1 ==> share(items, thread, num_threads).len() == items.len() as int
            / num_threads,
        thread == num_threads - 1 ==> share(items, thread, num_threads).len() == items.len() as int
            / num_threads + items.len() as int % num_threads,
        items.len() >= num_threads * MIN_KEYPAIRS_PER_THREAD ==> share(
            items,
            thread,
            num_threads,
        ).len() >= MIN_KEYPAIRS_PER_THREAD,
{
    let count = items.len() as int;
    lemma_share_bounds(thread, count, num_threads);
    lemma_fundamental_div_mod(count, num_threads);
    lemma_mod_bound(count, num_threads);
    let size = count / num_threads;
    assert((num_threads - 1) * size == num_threads * size - size) by (nonlinear_arith);
    if count >= num_threads * MIN_KEYPAIRS_PER_THREAD {
        assert(size >= 2) by (nonlinear_arith)
            requires
                count == num_threads * size + count % num_threads,
                0 <= count % num_threads < num_threads,
                count >= num_threads * 2,
        ;
    }
}

/// The rate of one thread: an even part of the target, and one more for the
/// first `target % num_threads` threads.
pub open spec fn thread_rate(thread: int, target_tps: int, num_threads: int) -> int {
    target_tps / num_threads + if thread < target_tps % num_threads {
        1int
    } else {
        0
    }
}

/// The rate at which a thread sends.
pub fn thread_tps(thread_id: usize, target_tps: u64, num_threads: usize) -> (tps: u64)
    requires
        num_threads > 0,
    ensures
        tps == thread_rate(thread_id as int, target_tps as int, num_threads as int),
{
    let base: u64 = target_tps / num_threads as u64;
    let extra: u64 = target_tps % num_threads as u64;
    proof {
        lemma_fundamental_div_mod(target_tps as int, num_threads as int);
        lemma_mod_bound(target_tps as int, num_threads as int);
        assert(base + extra <= target_tps) by (nonlinear_arith)
            requires
                target_tps == num_threads * base + extra,
                num_threads >= 1,
                base >= 0,
        ;
    }
    if (thread_id as u64) < extra {
        base + 1
    } else {
        base
    }
}

/// The sum of the rates of the first `threads` threads.
pub open spec fn joined_rates(threads: int, target_tps: int, num_threads: int) -> int
    decreases threads,
{
    if threads <= 0 {
        0
    } else {
        joined_rates(threads - 1, target_tps, num_threads) + thread_rate(
            threads - 1,
            target_tps,
            num_threads,
        )
    }
}

/// The rates of the threads add up to the target rate.
pub proof fn law_rates_add_up_to_the_target(threads: int, target_tps: int, num_threads: int)
    requires
        0 <= threads <= num_threads,
        num_threads > 0,
    ensures
        joined_rates(threads, target_tps, num_threads) == threads * (target_tps / num_threads) + (
        if threads < target_tps % num_threads {
            threads
        } else {
            target_tps % num_threads
        }),
        threads == num_threads ==> joined_rates(threads, target_tps, num_threads) == target_tps,
    decreases threads,
{
    let base = target_tps / num_threads;
    lemma_fundamental_div_mod(target_tps, num_threads);
    lemma_mod_bound(target_tps, num_threads);
    if threads == 0 {
        assert(0 * base == 0);
    } else {
        law_rates_add_up_to_the_target(threads - 1, target_tps, num_threads);
        assert(threads * base == (threads - 1) * base + base) by (nonlinear_arith);
    }
}

/// The sum of the rates at which the first `threads` threads really send: a
/// thread whose rate is zero sends once per second.
pub open spec fn joined_effective_rates(threads: int, target_tps: int, num_threads: int) -> int
    decreases threads,
{
    if threads <= 0 {
        0
    } else {
        joined_effective_rates(threads - 1, target_tps, num_threads) + effective_tps(
            thread_rate(threads - 1, target_tps, num_threads) as u64,
        )
    }
}

/// The threads together send at the target rate, or, if there are more threads
/// than that, each of them once per second.
pub proof fn law_threads_send_at_the_target_rate(target_tps: u64, num_threads: int)
    requires
        num_threads > 0,
    ensures
        joined_effective_rates(num_threads, target_tps as int, num_threads) == if target_tps
            >= num_threads {
            target_tps as int
        } else {
            num_threads
        },
{
    law_rates_add_up_to_the_target(num_threads, target_tps as int, num_threads);
    lemma_effective_rates(num_threads, target_tps, num_threads);
}

/// The rates at which the first threads send, against the rates they are given.
proof fn lemma_effective_rates(threads: int, target_tps: u64, num_threads: int)
    requires
        0 <= threads <= num_threads,
        num_threads > 0,
    ensures
        joined_effective_rates(threads, target_tps as int, num_threads) == if target_tps
            >= num_threads {
            joined_rates(threads, target_tps as int, num_threads)
        } else {
            threads
        },
    decreases threads,
{
    let target = target_tps as int;
    let base = target / num_threads;
    let extra = target % num_threads;
    lemma_fundamental_div_mod(target, num_threads);
    lemma_mod_bound(target, num_threads);
    if threads > 0 {
        lemma_effective_rates(threads - 1, target_tps, num_threads);
        if target >= num_threads {
            assert(1 <= base && base + extra <= target) by (nonlinear_arith)
                requires
                    target == num_threads * base + extra,
                    0 <= extra < num_threads <= target,
            ;
        } else {
            assert(base == 0) by (nonlinear_arith)
                requires
                    target == num_threads * base + extra,
                    0 <= extra < num_threads,
                    0 <= target < num_threads,
            ;
        }
    }
}

/// The phases of a run, in nanoseconds from its start.
#[derive(Debug, Clone, Copy, PartialEq, Eq, Structural)]
pub struct RunTiming {
    /// When the warmup ends and the measurement begins.
    pub warmup_ns: u128,
    /// When the measurement ends by the clock, if it does.
    pub measurement_end_ns: Option<u128>,
    /// When the senders stop by the clock, if they do.
    pub total_ns: Option<u128>,
}

/// The phases of a run with this warmup and this duration. Without a duration
/// neither the measurement nor the senders stop by the clock.
pub open spec fn timing_of(warmup_secs: u64, duration_secs: Option<u64>) -> RunTiming {
    let end = match duration_secs {
        Some(secs) => Some(((warmup_secs + secs) * SECOND_NS) as u128),
        None => None,
    };
    RunTiming {
        warmup_ns: (warmup_secs * SECOND_NS) as u128,
        measurement_end_ns: end,
        total_ns: end,
    }
}

impl RunTiming {
    /// The phases of a run with this warmup and this duration. Without a
    /// duration neither the measurement nor the senders stop by the clock.
    pub fn new(warmup_secs: u64, duration_secs: Option<u64>) -> (timing: Self)
        requires
            duration_secs matches Some(secs) ==> warmup_secs + secs <= u64::MAX,
        ensures
            timing == timing_of(warmup_secs, duration_secs),
            timing.warmup_ns == warmup_secs * SECOND_NS,
            timing.measurement_end_ns == (match duration_secs {
                Some(secs) => Some(((warmup_secs + secs) * SECOND_NS) as u128),
                None => None,
            }),
            timing.total_ns == timing.measurement_end_ns,
    {
        let end: Option<u128> = match duration_secs {
            Some(secs) => Some((warmup_secs + secs) as u128 * SECOND_NS),
            None => None,
        };
        RunTiming {
            warmup_ns: warmup_secs as u128 * SECOND_NS,
            measurement_end_ns: end,
            total_ns: end,
        }
    }
}

/// A thread's share is the run of items that starts as many shares in as there are
/// threads before it; only the last thread gets more than an even part.
pub proof fn law_shares_are_consecutive_runs<T>(
    items: Seq<T>,
    thread: int,
    num_threads: int,
    k: int,
)
    requires
        0 <= thread < num_threads,
        0 <= k < share(items, thread, num_threads).len(),
    ensures
        0 <= thread * (items.len() as int / num_threads) + k < items.len(),
        share(items, thread, num_threads)[k] == items[thread * (items.len() as int / num_threads)
            + k],
        thread < num_threads - 1 ==> k < items.len() as int / num_threads,
{
    lemma_share_bounds(thread, items.len() as int, num_threads);
}

/// The rates are as even as whole numbers allow: no thread is a full transaction per
/// second off its part of the target, and earlier threads get no less than later
/// ones.
pub proof fn law_rates_are_even(a: int, b: int, target_tps: int, num_threads: int)
    requires
        0 <= a <= b < num_threads,
        target_tps >= 0,
    ensures
        thread_rate(a, target_tps, num_threads) >= thread_rate(b, target_tps, num_threads),
        thread_rate(a, target_tps, num_threads) <= thread_rate(b, target_tps, num_threads) + 1,
        -num_threads < num_threads * thread_rate(a, target_tps, num_threads) - target_tps
            < num_threads,
{
    let base = target_tps / num_threads;
    lemma_fundamental_div_mod(target_tps, num_threads);
    lemma_mod_bound(target_tps, num_threads);
    assert(num_threads * (base + 1) == num_threads * base + num_threads) by (nonlinear_arith);
}

/// A run warms up for its warmup and measures for its duration after that, if it has
/// one, and its senders stop when the measurement does.
pub proof fn law_a_run_measures_for_its_duration(warmup_secs: u64, duration_secs: Option<u64>)
    requires
        duration_secs is Some ==> warmup_secs + duration_secs->0 <= u64::MAX,
    ensures
        ({
            let timing = timing_of(warmup_secs, duration_secs);
            &&& timing.warmup_ns == warmup_secs * 1_000_000_000
            &&& timing.measurement_end_ns is Some <==> duration_secs is Some
            &&& duration_secs is Some ==> timing.measurement_end_ns->0 - timing.warmup_ns
                == duration_secs->0 * 1_000_000_000
            &&& timing.total_ns == timing.measurement_end_ns
        }),
{
}

} // verus!
