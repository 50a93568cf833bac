use solana_bench_tps_rate::args::Commitment;
use solana_bench_tps_rate::confirmation::{
    ConfirmationResult, ConfirmationTracker, ConfirmationTrackerConfig, TrackerAction, TrackerEvent,
};
use solana_bench_tps_rate::progress::{ProgressReport, ProgressTick, ProgressTracker};
use solana_bench_tps_rate::workload::RunTiming;

const SEC: u128 = 1_000_000_000;

#[test]
fn window_opens_after_the_warmup_and_closes_at_the_end() {
    let mut tracker = ProgressTracker::new(&RunTiming::new(2, Some(3)), 0, 0);
    assert_eq!(
        tracker.tick(SEC, 100),
        ProgressTick {
            open_window: false,
            close_window: false,
            report: ProgressReport::Warmup,
        }
    );
    assert_eq!(
        tracker.tick(2 * SEC, 210),
        ProgressTick {
            open_window: true,
            close_window: false,
            report: ProgressReport::Silent,
        }
    );
    assert_eq!(
        tracker.tick(3 * SEC + SEC / 2, 400),
        ProgressTick {
            open_window: false,
            close_window: false,
            report: ProgressReport::Measurement {
                count: 190,
                elapsed_ns: SEC + SEC / 2,
            },
        }
    );
    assert_eq!(
        tracker.tick(4 * SEC + SEC / 2, 500).report,
        ProgressReport::Measurement { count: 100, elapsed_ns: SEC }
    );
    assert_eq!(
        tracker.tick(5 * SEC + SEC / 2, 600),
        ProgressTick {
            open_window: false,
            close_window: true,
            report: ProgressReport::Silent,
        }
    );
    assert_eq!(tracker.tick(7 * SEC, 700).close_window, false);
    assert_eq!(tracker.finish(8 * SEC, 800), false);
    assert_eq!(tracker.measurement_ns(), 3 * SEC);
    assert_eq!(tracker.measurement_sent(), 390);
    let report = tracker.report(&ConfirmationResult { confirmed: 380 });
    assert_eq!(report.sent, 390);
    assert_eq!(report.confirmed, 380);
}

#[test]
fn run_without_warmup_counts_from_its_start() {
    let mut tracker = ProgressTracker::new(&RunTiming::new(0, Some(10)), 0, 5);
    assert!(tracker.measurement_active());
    assert!(!tracker.measurement_ended());
    assert_eq!(tracker.tick(SEC / 2, 20).open_window, false);
    assert_eq!(
        tracker.tick(SEC, 35).report,
        ProgressReport::Measurement { count: 30, elapsed_ns: SEC }
    );
    // The senders are through before the measurement is.
    assert_eq!(tracker.finish(2 * SEC, 45), true);
    assert!(tracker.measurement_ended());
    assert_eq!(tracker.measurement_sent(), 40);
}

#[test]
fn run_that_never_left_the_warmup_counts_nothing() {
    let mut tracker = ProgressTracker::new(&RunTiming::new(10, Some(10)), 0, 0);
    assert!(!tracker.measurement_active());
    tracker.tick(SEC, 50);
    assert_eq!(tracker.finish(SEC, 60), true);
    assert_eq!(tracker.measurement_sent(), 0);
}

#[test]
fn counted_run_goes_on_past_a_minute() {
    let mut tracker = ProgressTracker::new(&RunTiming::new(5, None), 0, 0);
    assert_eq!(tracker.tick(5 * SEC, 500).open_window, true);
    assert!(tracker.measurement_active());
    assert_eq!(
        tracker.tick(3_600 * SEC, 360_000),
        ProgressTick {
            open_window: false,
            close_window: false,
            report: ProgressReport::Measurement {
                count: 359_500,
                elapsed_ns: 3_595 * SEC,
            },
        }
    );
    assert_eq!(tracker.finish(4_000 * SEC, 400_000), true);
    assert_eq!(tracker.measurement_sent(), 399_500);
    assert_eq!(tracker.measurement_ns(), 3_995 * SEC);
}

#[test]
fn start_signal_without_warmup_lets_confirmations_count() {
    let tracker = ProgressTracker::new(&RunTiming::new(0, Some(10)), 0, 0);
    let mut confirmation = ConfirmationTracker::new(ConfirmationTrackerConfig::default());
    assert_eq!(
        confirmation.advance(TrackerEvent::Round {
            measurement_ended: tracker.measurement_ended(),
            measurement_active: tracker.measurement_active(),
        }),
        TrackerAction::QueryStart(Commitment::Processed)
    );
    confirmation.advance(TrackerEvent::StartCount(Some(100)));
    confirmation.advance(TrackerEvent::PollCount(Some(130)));
    assert_eq!(
        confirmation.advance(TrackerEvent::Round {
            measurement_ended: true,
            measurement_active: true,
        }),
        TrackerAction::Finish(ConfirmationResult { confirmed: 30 })
    );
}
