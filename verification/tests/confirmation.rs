use solana_bench_tps_rate::args::Commitment;
use solana_bench_tps_rate::confirmation::{
    ConfirmationResult, ConfirmationTracker, ConfirmationTrackerConfig, TrackerAction,
    TrackerEvent,
};

const IDLE: TrackerEvent = TrackerEvent::Round {
    measurement_ended: false,
    measurement_active: false,
};
const ACTIVE: TrackerEvent = TrackerEvent::Round {
    measurement_ended: false,
    measurement_active: true,
};
const ENDED: TrackerEvent = TrackerEvent::Round {
    measurement_ended: true,
    measurement_active: true,
};

fn tracker() -> ConfirmationTracker {
    ConfirmationTracker::new(ConfirmationTrackerConfig { poll_interval_ms: 200 })
}

#[test]
fn test_confirmation_tracker_config_default() {
    let config = ConfirmationTrackerConfig::default();
    assert_eq!(config.poll_interval_ms, 400);
}

#[test]
fn counts_from_start_to_highest_poll() {
    let mut tracker = tracker();
    assert_eq!(tracker.advance(IDLE), TrackerAction::Sleep(200));
    assert_eq!(tracker.advance(ACTIVE), TrackerAction::QueryStart(Commitment::Processed));
    assert_eq!(
        tracker.advance(TrackerEvent::StartCount(Some(1_000))),
        TrackerAction::QueryPoll(Commitment::Processed)
    );
    assert_eq!(
        tracker.advance(TrackerEvent::PollCount(Some(1_010))),
        TrackerAction::Sleep(200)
    );
    assert_eq!(tracker.advance(ACTIVE), TrackerAction::QueryPoll(Commitment::Processed));
    // A count that goes down is ignored, and so is a failed query.
    tracker.advance(TrackerEvent::PollCount(Some(1_005)));
    tracker.advance(ACTIVE);
    tracker.advance(TrackerEvent::PollCount(None));
    assert_eq!(tracker.last_tx_count, 1_010);
    tracker.advance(ACTIVE);
    tracker.advance(TrackerEvent::PollCount(Some(1_042)));
    assert_eq!(
        tracker.advance(ENDED),
        TrackerAction::Finish(ConfirmationResult { confirmed: 42 })
    );
}

#[test]
fn failed_start_is_tried_again() {
    let mut tracker = tracker();
    assert_eq!(tracker.advance(ACTIVE), TrackerAction::QueryStart(Commitment::Processed));
    assert_eq!(
        tracker.advance(TrackerEvent::StartCount(None)),
        TrackerAction::Sleep(200)
    );
    assert_eq!(tracker.advance(ACTIVE), TrackerAction::QueryStart(Commitment::Processed));
    tracker.advance(TrackerEvent::StartCount(Some(7)));
    assert_eq!(tracker.start_tx_count, 7);
}

#[test]
fn nothing_is_confirmed_without_a_start() {
    let mut tracker = tracker();
    tracker.advance(IDLE);
    tracker.advance(TrackerEvent::PollCount(Some(99)));
    assert_eq!(
        tracker.advance(ENDED),
        TrackerAction::Finish(ConfirmationResult { confirmed: 0 })
    );
}
