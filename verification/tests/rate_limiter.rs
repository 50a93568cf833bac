use rand::rngs::SmallRng;
use rand::{Rng, SeedableRng};
use solana_bench_tps_rate::rate_limiter::{RateLimiter, SendSlot};
use std::time::Instant;

/// An exponentially distributed interval, as a caller draws it.
fn draw_ns(rng: &mut SmallRng, mean_interval_ns: f64) -> u64 {
    let u: f64 = rng.gen_range(f64::MIN_POSITIVE..1.0);
    (-u.ln() * mean_interval_ns) as u64
}

#[test]
fn test_rate_limiter_creation() {
    let limiter = RateLimiter::new(1000, 0);
    assert_eq!(limiter.target_tps(), 1000);
}

#[test]
fn test_rate_limiter_zero_tps_defaults_to_one() {
    let limiter = RateLimiter::new(0, 0);
    // Should default to 1 second mean interval (1 TPS)
    assert!((limiter.mean_interval_ns() as f64 - 1_000_000_000.0).abs() < 1.0);
    assert_eq!(limiter.target_tps(), 0);
}

#[test]
fn test_exponential_mean_approximates_target() {
    let limiter = RateLimiter::new(1000, 0); // 1000 TPS, 1ms mean interval
    let mut rng = SmallRng::from_entropy();
    let expected_mean = 1_000_000.0; // 1ms in ns

    // Sample many intervals and check the mean
    let num_samples = 10_000;
    let sum: u64 = (0..num_samples)
        .map(|_| limiter.clamp_interval_ns(draw_ns(&mut rng, expected_mean)))
        .sum();
    let actual_mean = sum as f64 / num_samples as f64;

    // Allow 10% tolerance for statistical variance
    let tolerance = expected_mean * 0.10;
    assert!(
        (actual_mean - expected_mean).abs() < tolerance,
        "Expected mean ~{}, got {} (tolerance {})",
        expected_mean,
        actual_mean,
        tolerance
    );
}

#[test]
fn test_exponential_all_positive() {
    let limiter = RateLimiter::new(10000, 0);
    let mut rng = SmallRng::from_entropy();

    // All samples should be at least 1ns
    for _ in 0..1000 {
        let interval = limiter.clamp_interval_ns(draw_ns(&mut rng, 100_000.0));
        assert!(interval >= 1, "Interval {} should be >= 1", interval);
    }
    assert_eq!(limiter.clamp_interval_ns(0), 1);
}

#[test]
fn test_exponential_bounded() {
    let limiter = RateLimiter::new(1000, 0);
    let mut rng = SmallRng::from_entropy();
    let max_expected = (limiter.mean_interval_ns() as f64 * 10.0) as u64;

    // All samples should be at most 10x mean
    for _ in 0..1000 {
        let interval = limiter.clamp_interval_ns(draw_ns(&mut rng, 1_000_000.0));
        assert!(
            interval <= max_expected,
            "Interval {} should be <= {}",
            interval,
            max_expected
        );
    }
    assert_eq!(limiter.clamp_interval_ns(u64::MAX), 10_000_000);
}

#[test]
fn test_wait_for_next_advances_time() {
    let origin = Instant::now();
    let mut rng = SmallRng::from_entropy();
    let mut limiter = RateLimiter::new(10000, 0); // 10000 TPS
    let first_scheduled = limiter
        .wait_for_next(origin.elapsed().as_nanos(), draw_ns(&mut rng, 100_000.0))
        .scheduled;
    let second_scheduled = limiter
        .wait_for_next(origin.elapsed().as_nanos(), draw_ns(&mut rng, 100_000.0))
        .scheduled;

    // Second scheduled time should be after first (time always advances)
    assert!(
        second_scheduled > first_scheduled,
        "Time should always advance"
    );
}

#[test]
fn test_rate_limiter_reset() {
    let origin = Instant::now();
    let mut rng = SmallRng::from_entropy();
    let mut limiter = RateLimiter::new(1000, 0);

    // Advance the limiter
    for _ in 0..10 {
        limiter.wait_for_next(origin.elapsed().as_nanos(), draw_ns(&mut rng, 1_000_000.0));
    }

    // Reset and check that next send time is close to now
    let before_reset = origin.elapsed().as_nanos();
    limiter.reset(origin.elapsed().as_nanos());
    let scheduled = limiter
        .wait_for_next(origin.elapsed().as_nanos(), draw_ns(&mut rng, 1_000_000.0))
        .scheduled;

    // Scheduled time should be very close to reset time
    let diff = scheduled.saturating_sub(before_reset);
    assert!(diff / 1_000_000 < 10);
}

#[test]
fn schedule_does_not_depend_on_lateness() {
    let mut limiter = RateLimiter::new(1000, 500);
    assert_eq!(
        limiter.wait_for_next(100, 40),
        SendSlot { scheduled: 500, sleep_ns: 400 }
    );
    // Far behind: the scheduled time is in the past and there is no sleep.
    assert_eq!(
        limiter.wait_for_next(9_999, 0),
        SendSlot { scheduled: 540, sleep_ns: 0 }
    );
    assert_eq!(
        limiter.wait_for_next(541, 0),
        SendSlot { scheduled: 541, sleep_ns: 0 }
    );
}

#[test]
fn mean_and_longest_interval_follow_the_rate() {
    assert_eq!(RateLimiter::new(3, 0).mean_interval_ns(), 333_333_333);
    assert_eq!(RateLimiter::new(3, 0).clamp_interval_ns(u64::MAX), 3_333_333_333);
    assert_eq!(RateLimiter::new(10_000_000_000, 0).clamp_interval_ns(u64::MAX), 1);
    assert_eq!(RateLimiter::new(0, 0).clamp_interval_ns(u64::MAX), 10_000_000_000);
}
