use niri_zones::settle::{poll_state, PollAction, SettleWatch, MIN_OBSERVE_MS, STABLE_FOR_MS};

#[test]
fn poll_state_accepts_reached_state_even_after_deadline() {
    assert_eq!(poll_state(true, 5_000, 1_000), PollAction::Accept);
    assert_eq!(poll_state(false, 999, 1_000), PollAction::Wait);
    assert_eq!(poll_state(false, 1_000, 1_000), PollAction::TimedOut);
}

#[test]
fn settle_watch_waits_for_minimum_observation() {
    let mut watch = SettleWatch::new(1_000);
    assert_eq!(watch.poll(0, true, false), PollAction::Wait);
    assert_eq!(watch.stable_since, Some(0));
    // Stable for long enough, but not yet observed for the minimum time.
    assert_eq!(watch.poll(200, true, true), PollAction::Wait);
    assert_eq!(watch.poll(MIN_OBSERVE_MS, true, true), PollAction::Accept);
}

#[test]
fn settle_watch_restarts_stable_period_on_layout_change() {
    let mut watch = SettleWatch::new(1_000);
    assert_eq!(watch.poll(0, true, false), PollAction::Wait);
    assert_eq!(watch.poll(300, true, false), PollAction::Wait);
    assert_eq!(watch.stable_since, Some(300));
    assert_eq!(watch.poll(300 + STABLE_FOR_MS - 1, true, true), PollAction::Wait);
    assert_eq!(watch.poll(300 + STABLE_FOR_MS, true, true), PollAction::Accept);
}

#[test]
fn settle_watch_forgets_stability_when_state_is_lost() {
    let mut watch = SettleWatch::new(1_000);
    assert_eq!(watch.poll(0, true, false), PollAction::Wait);
    assert_eq!(watch.poll(100, false, false), PollAction::Wait);
    assert_eq!(watch.stable_since, None);
    assert_eq!(watch.poll(400, true, false), PollAction::Wait);
    assert_eq!(watch.stable_since, Some(400));
}

#[test]
fn settle_watch_times_out_without_stability() {
    let mut watch = SettleWatch::new(500);
    assert_eq!(watch.poll(0, false, false), PollAction::Wait);
    assert_eq!(watch.poll(500, false, false), PollAction::TimedOut);
    let mut moving = SettleWatch::new(500);
    assert_eq!(moving.poll(0, true, false), PollAction::Wait);
    assert_eq!(moving.poll(500, true, false), PollAction::TimedOut);
}
