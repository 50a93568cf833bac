//! When to send: the schedule of a Poisson arrival process.
//!
//! Points in time are nanoseconds since an origin that the caller chooses. The
//! caller reads the clock, draws the exponentially distributed intervals and
//! sleeps.
use vstd::arithmetic::div_mod::{lemma_div_non_zero, lemma_fundamental_div_mod, lemma_mod_bound};
use vstd::arithmetic::mul::lemma_mul_is_commutative;
use vstd::prelude::*;

verus! {

/// Nanoseconds in a second.
pub const NANOS_PER_SEC: u64 = 1_000_000_000;

/// Shortest interval between two sends, in nanoseconds.
pub const MIN_INTERVAL_NS: u64 = 1;

/// Longest interval between two sends, as a multiple of the mean interval. An
/// exponential draw stays below it with a probability of 99.995%.
pub const MAX_INTERVAL_MEANS: u64 = 10;

/// The rate that sets the intervals: the target, or one per second if the
/// target is zero.
pub open spec fn effective_tps(target_tps: u64) -> int {
    if target_tps > 0 {
        target_tps as int
    } else {
        1
    }
}

/// The mean interval, in whole nanoseconds.
pub open spec fn mean_interval(target_tps: u64) -> int {
    if target_tps > 0 {
        NANOS_PER_SEC as int / target_tps as int
    } else {
        NANOS_PER_SEC as int
    }
}

/// The longest interval, in whole nanoseconds.
pub open spec fn longest_interval(target_tps: u64) -> int {
    if target_tps > 0 {
        (MAX_INTERVAL_MEANS * NANOS_PER_SEC) / target_tps as int
    } else {
        MAX_INTERVAL_MEANS * NANOS_PER_SEC
    }
}

/// An interval that was drawn, held between the shortest and the longest.
pub open spec fn clamped_interval(drawn_ns: u64, target_tps: u64) -> int {
    if drawn_ns < MIN_INTERVAL_NS {
        MIN_INTERVAL_NS as int
    } else if drawn_ns > longest_interval(target_tps) {
        longest_interval(target_tps)
    } else {
        drawn_ns as int
    }
}

/// A slot in the schedule.
#[derive(Debug, Clone, Copy, PartialEq, Eq, Structural)]
pub struct SendSlot {
    /// The scheduled time of the send.
    pub scheduled: u128,
    /// How long to sleep before it, in nanoseconds; zero if it has passed.
    pub sleep_ns: u128,
}

/// What a rate limiter knows: its rate and its next slot.
#[verifier::ext_equal]
pub struct Schedule {
    /// The target rate, as it was given.
    pub rate: u64,
    /// The scheduled time of the next send.
    pub next: int,
}

impl Schedule {
    /// The next slot, for a caller at this time.
    pub open spec fn slot_at(self, now: u128) -> SendSlot {
        SendSlot {
            scheduled: self.next as u128,
            sleep_ns: if now < self.next {
                (self.next - now) as u128
            } else {
                0
            },
        }
    }

    /// The schedule after one slot, with the interval drawn for the slot after it.
    pub open spec fn after_wait(self, drawn_ns: u64) -> Schedule {
        Schedule { next: self.next + clamped_interval(drawn_ns, self.rate), ..self }
    }

    /// The schedule after a sequence of slots.
    pub open spec fn after_waits(self, drawn: Seq<u64>) -> Schedule
        decreases drawn.len(),
    {
        if drawn.len() == 0 {
            self
        } else {
            self.after_waits(drawn.drop_last()).after_wait(drawn.last())
        }
    }
}

/// Rate limiter for controlling transaction send rate.
///
/// Uses an exponential distribution (Poisson arrival process) with
/// mean interval = 1,000,000,000 ns / target_tps for realistic traffic patterns.
#[derive(Debug, Clone, Copy, PartialEq, Eq, Structural)]
pub struct RateLimiter {
    target_tps: u64,
    next_send_time: u128,
}

impl View for RateLimiter {
    type V = Schedule;

    closed spec fn view(&self) -> Schedule {
        Schedule { rate: self.target_tps, next: self.next_send_time as int }
    }
}

impl RateLimiter {
    /// Create a new rate limiter with the specified target TPS, whose first send
    /// is due now.
    pub fn new(target_tps: u64, now: u128) -> (limiter: Self)
        ensures
            limiter@.rate == target_tps,
            limiter@.next == now,
    {
        RateLimiter { target_tps, next_send_time: now }
    }

    /// Returns the target TPS for this rate limiter.
    pub fn target_tps(&self) -> (target_tps: u64)
        ensures
            target_tps == self@.rate,
    {
        self.target_tps
    }

    /// The mean interval in whole nanoseconds.
    pub fn mean_interval_ns(&self) -> (mean: u64)
        ensures
            mean == mean_interval(self@.rate),
    {
        if self.target_tps > 0 {
            NANOS_PER_SEC / self.target_tps
        } else {
            NANOS_PER_SEC  // Default to 1 TPS if 0 is specified
        }
    }

    /// Hold an interval that was drawn between one nanosecond and ten times the
    /// mean.
    pub fn clamp_interval_ns(&self, drawn_ns: u64) -> (interval_ns: u64)
        requires
            self@.rate <= MAX_INTERVAL_MEANS * NANOS_PER_SEC,
        ensures
            interval_ns == clamped_interval(drawn_ns, self@.rate),
            MIN_INTERVAL_NS <= interval_ns,
            interval_ns * effective_tps(self@.rate) <= MAX_INTERVAL_MEANS * NANOS_PER_SEC,
    {
        let longest: u64 = if self.target_tps > 0 {
            (MAX_INTERVAL_MEANS * NANOS_PER_SEC) / self.target_tps
        } else {
            MAX_INTERVAL_MEANS * NANOS_PER_SEC
        };
        proof {
            law_interval_bounds(drawn_ns, self@.rate);
        }
        if drawn_ns < MIN_INTERVAL_NS {
            MIN_INTERVAL_NS
        } else if drawn_ns > longest {
            longest
        } else {
            drawn_ns
        }
    }

    /// Take the next slot, given the time and the interval drawn for the slot
    /// after it.
    ///
    /// This returns the *scheduled* time (not actual time) to support
    /// coordinated omission correction - if we fall behind, the scheduled
    /// time will be in the past but we still record it for accurate latency
    /// measurement.
    pub fn wait_for_next(&mut self, now: u128, drawn_ns: u64) -> (slot: SendSlot)
        requires
            old(self)@.rate <= MAX_INTERVAL_MEANS * NANOS_PER_SEC,
            old(self)@.next + clamped_interval(drawn_ns, old(self)@.rate) <= u128::MAX,
        ensures
            slot == old(self)@.slot_at(now),
            slot.scheduled == old(self)@.next,
            slot.sleep_ns == (if now < old(self)@.next {
                old(self)@.next - now
            } else {
                0
            }),
            final(self)@ == old(self)@.after_wait(drawn_ns),
            final(self)@.next > old(self)@.next,
    {
        let scheduled: u128 = self.next_send_time;
        let sleep_ns: u128 = if now < scheduled {
            scheduled - now
        } else {
            0
        };
        let interval_ns: u64 = self.clamp_interval_ns(drawn_ns);
        self.next_send_time = scheduled + interval_ns as u128;
        SendSlot { scheduled, sleep_ns }
    }

    /// Reset the rate limiter's timing to start fresh from now.
    pub fn reset(&mut self, now: u128)
        ensures
            final(self)@ == (Schedule { next: now as int, ..old(self)@ }),
    {
        self.next_send_time = now;
    }
}

/// Every interval lasts at least a nanosecond and at most ten times the mean.
pub proof fn law_interval_bounds(drawn_ns: u64, target_tps: u64)
    requires
        target_tps <= MAX_INTERVAL_MEANS * NANOS_PER_SEC,
    ensures
        MIN_INTERVAL_NS <= clamped_interval(drawn_ns, target_tps),
        clamped_interval(drawn_ns, target_tps) * effective_tps(target_tps) <= MAX_INTERVAL_MEANS
            * NANOS_PER_SEC,
        clamped_interval(drawn_ns, target_tps) <= MAX_INTERVAL_MEANS * NANOS_PER_SEC,
{
    let tps = effective_tps(target_tps);
    let top = (MAX_INTERVAL_MEANS * NANOS_PER_SEC) as int;
    let longest = longest_interval(target_tps);
    let interval = clamped_interval(drawn_ns, target_tps);
    if target_tps > 0 {
        lemma_div_non_zero(top, tps);
        lemma_fundamental_div_mod(top, tps);
        lemma_mod_bound(top, tps);
    }
    assert(interval * tps <= longest * tps) by (nonlinear_arith)
        requires
            interval <= longest,
            tps > 0,
    ;
    lemma_mul_is_commutative(longest, tps);
    assert(interval <= interval * tps) by (nonlinear_arith)
        requires
            interval >= 0,
            tps >= 1,
    ;
}

/// The sum of the intervals that a sequence of draws gives.
pub open spec fn schedule_length(drawn: Seq<u64>, target_tps: u64) -> int
    decreases drawn.len(),
{
    if drawn.len() == 0 {
        0
    } else {
        schedule_length(drawn.drop_last(), target_tps) + clamped_interval(drawn.last(), target_tps)
    }
}

/// After a sequence of slots the next one is due after the sum of the intervals
/// drawn for them, whenever the slots were taken: falling behind does not move the
/// schedule.
pub proof fn law_the_schedule_adds_up_the_intervals(schedule: Schedule, drawn: Seq<u64>)
    ensures
        schedule.after_waits(drawn).rate == schedule.rate,
        schedule.after_waits(drawn).next == schedule.next + schedule_length(drawn, schedule.rate),
    decreases drawn.len(),
{
    if drawn.len() != 0 {
        law_the_schedule_adds_up_the_intervals(schedule, drawn.drop_last());
    }
}

/// A schedule of `n` slots takes at least `n` nanoseconds and at most ten times
/// `n` mean intervals.
pub proof fn law_schedule_bounds(drawn: Seq<u64>, target_tps: u64)
    requires
        target_tps <= MAX_INTERVAL_MEANS * NANOS_PER_SEC,
    ensures
        schedule_length(drawn, target_tps) >= drawn.len() * MIN_INTERVAL_NS,
        schedule_length(drawn, target_tps) * effective_tps(target_tps) <= drawn.len()
            * MAX_INTERVAL_MEANS * NANOS_PER_SEC,
    decreases drawn.len(),
{
    if drawn.len() != 0 {
        law_schedule_bounds(drawn.drop_last(), target_tps);
        law_interval_bounds(drawn.last(), target_tps);
        let (a, b) = (
            schedule_length(drawn.drop_last(), target_tps),
            clamped_interval(drawn.last(), target_tps),
        );
        let tps = effective_tps(target_tps);
        assert((a + b) * tps == a * tps + b * tps) by (nonlinear_arith);
    }
}

/// The mean interval times the rate makes up a second, to within one
/// nanosecond per send.
pub proof fn law_mean_interval(target_tps: u64)
    ensures
        mean_interval(target_tps) * effective_tps(target_tps) <= NANOS_PER_SEC,
        NANOS_PER_SEC < (mean_interval(target_tps) + 1) * effective_tps(target_tps),
{
    let tps = effective_tps(target_tps);
    let mean = mean_interval(target_tps);
    if target_tps > 0 {
        lemma_fundamental_div_mod(NANOS_PER_SEC as int, tps);
        lemma_mod_bound(NANOS_PER_SEC as int, tps);
        assert((mean + 1) * tps == tps * mean + tps) by (nonlinear_arith);
        lemma_mul_is_commutative(mean, tps);
    }
}

/// An interval that was drawn between one nanosecond and ten mean intervals is used
/// as it was drawn: the next slot is exactly that much later, at every rate. A
/// shorter one becomes one nanosecond, and a longer one the longest interval that
/// ten means allow. A rate of zero counts as one per second.
pub proof fn law_drawn_intervals_are_used_as_drawn(schedule: Schedule, drawn_ns: u64)
    requires
        schedule.rate <= 10_000_000_000,
    ensures
        ({
            let after = schedule.after_wait(drawn_ns);
            let interval = after.next - schedule.next;
            let tps = if schedule.rate == 0 {
                1int
            } else {
                schedule.rate as int
            };
            &&& after.rate == schedule.rate
            &&& interval == clamped_interval(drawn_ns, schedule.rate)
            &&& drawn_ns >= 1 && drawn_ns * tps <= 10_000_000_000 ==> interval == drawn_ns
            &&& drawn_ns == 0 ==> interval == 1
            &&& drawn_ns * tps > 10_000_000_000 ==> interval * tps <= 10_000_000_000 < (interval
                + 1) * tps
        }),
{
    let tps = effective_tps(schedule.rate);
    let top = 10_000_000_000int;
    let longest = longest_interval(schedule.rate);
    let drawn = drawn_ns as int;
    law_interval_bounds(drawn_ns, schedule.rate);
    if schedule.rate > 0 {
        lemma_fundamental_div_mod(top, tps);
        lemma_mod_bound(top, tps);
    }
    assert(longest * tps <= top < (longest + 1) * tps) by (nonlinear_arith)
        requires
            top == tps * longest + (top - tps * longest),
            0 <= top - tps * longest < tps,
    ;
    assert(drawn > longest <==> drawn * tps > top) by (nonlinear_arith)
        requires
            longest * tps <= top < (longest + 1) * tps,
            tps > 0,
    ;
}

/// A longer draw never gives an earlier slot, and two limiters at the same rate
/// move on alike wherever their schedules stand.
pub proof fn law_longer_draws_give_later_slots(a: Schedule, b: Schedule, short: u64, long: u64)
    requires
        a.rate == b.rate,
        a.rate <= 10_000_000_000,
        short <= long,
    ensures
        a.after_wait(short).next - a.next <= b.after_wait(long).next - b.next,
        a.after_wait(short).next > a.next,
{
    law_interval_bounds(short, a.rate);
    law_interval_bounds(long, a.rate);
}

/// The mean interval is the longest whole number of nanoseconds of which as many as
/// the rate fit into a second; a rate of zero counts as one per second.
pub proof fn law_the_mean_interval_fills_a_second(target_tps: u64)
    ensures
        target_tps == 0 ==> mean_interval(target_tps) == 1_000_000_000,
        target_tps > 0 ==> mean_interval(target_tps) * target_tps <= 1_000_000_000 < (mean_interval(
            target_tps,
        ) + 1) * target_tps,
{
    law_mean_interval(target_tps);
}

/// A slot is handed out with the time it was scheduled for, also when that has
/// passed. A caller who sleeps as told wakes up exactly then, and does not sleep at
/// all if they are late.
pub proof fn law_slots_are_waited_for_until_they_are_due(schedule: Schedule, now: u128)
    requires
        0 <= schedule.next <= u128::MAX,
    ensures
        ({
            let slot = schedule.slot_at(now);
            &&& slot.scheduled == schedule.next
            &&& now <= slot.scheduled ==> now + slot.sleep_ns == slot.scheduled
            &&& now > slot.scheduled ==> slot.sleep_ns == 0
        }),
{
}

} // verus!
