use wrap_mcp::server::file_watcher::{
    Debounce, WatchAction, WatchEventKind, WatchInput, WatchMode, WatchState, WatchTarget,
    DEBOUNCE_MILLIS, POLL_MILLIS,
};

fn run(state: &mut WatchState, inputs: &[WatchInput]) -> Vec<WatchAction> {
    inputs.iter().map(|i| state.step(*i)).collect()
}

fn fired(actions: &[WatchAction]) -> usize {
    actions.iter().filter(|a| **a != WatchAction::Idle).count()
}

#[test]
fn the_intervals() {
    assert_eq!(DEBOUNCE_MILLIS, 2000);
    assert_eq!(POLL_MILLIS, 100);
}

#[test]
fn an_existing_binary_is_tracked_and_a_missing_one_awaited() {
    let s = WatchState::new(true);
    assert_eq!(s.mode, WatchMode::Tracking);
    assert_eq!(s.watch_target(), WatchTarget::Binary);
    assert!(!s.is_pending());
    let s = WatchState::new(false);
    assert_eq!(s.mode, WatchMode::AwaitingFirstCreation);
    assert_eq!(s.watch_target(), WatchTarget::ParentDirectory);
    assert!(!s.file_deleted);
}

#[test]
fn a_burst_of_modifications_fires_once_after_two_quiet_seconds() {
    let mut s = WatchState::new(true);
    let mut inputs = Vec::new();
    let mut now = 1_000u64;
    // ten modifications, 1.9 seconds apart, with a tick every 100 ms between them
    for _ in 0..10 {
        inputs.push(WatchInput::Event { kind: WatchEventKind::Modified, now, path_exists: true });
        for k in 1..19u64 {
            inputs.push(WatchInput::Tick { now: now + k * 100, path_exists: true, has_process: true });
        }
        now += 1_900;
    }
    let last_event = now - 1_900;
    for k in 0..40u64 {
        inputs.push(WatchInput::Tick {
            now: last_event + 1_800 + k * 100,
            path_exists: true,
            has_process: true,
        });
    }
    let actions = run(&mut s, &inputs);
    assert_eq!(fired(&actions), 1);
    let at = actions.iter().position(|a| *a != WatchAction::Idle).unwrap();
    assert_eq!(actions[at], WatchAction::Restart);
    match inputs[at] {
        WatchInput::Tick { now, .. } => assert_eq!(now, last_event + 2_100),
        _ => panic!("an event fired"),
    }
    assert!(!s.is_pending());
}

#[test]
fn exactly_two_seconds_are_not_enough() {
    let mut s = WatchState::new(true);
    s.on_event(WatchEventKind::Modified, 500, true);
    assert_eq!(s.debounce, Debounce::PendingRestart { since: 500 });
    assert_eq!(s.on_tick(2_500, true, true), WatchAction::Idle);
    assert!(s.is_pending());
    assert_eq!(s.on_tick(2_501, true, true), WatchAction::Restart);
    assert!(!s.is_pending());
    assert_eq!(s.on_tick(9_000, true, true), WatchAction::Idle);
}

#[test]
fn a_clock_behind_the_event_fires_nothing() {
    let mut s = WatchState::new(true);
    s.on_event(WatchEventKind::Modified, 5_000, true);
    assert_eq!(s.on_tick(10, true, true), WatchAction::Idle);
    assert!(s.is_pending());
}

#[test]
fn removed_then_created_restarts_once() {
    let mut s = WatchState::new(true);
    s.on_event(WatchEventKind::Removed, 1_000, false);
    assert!(s.file_deleted);
    assert_eq!(s.on_tick(3_500, false, true), WatchAction::Idle);
    s.on_event(WatchEventKind::Created, 4_000, true);
    assert!(!s.file_deleted);
    let mut actions = Vec::new();
    for k in 1..=40u64 {
        actions.push(s.on_tick(4_000 + k * 100, true, true));
    }
    assert_eq!(fired(&actions), 1);
    assert_eq!(actions[20], WatchAction::Restart);
}

#[test]
fn the_first_creation_starts_once_and_later_changes_restart() {
    let mut s = WatchState::new(false);
    // modifications in the parent directory do not count before the binary exists
    s.on_event(WatchEventKind::Modified, 100, false);
    assert!(!s.is_pending());
    // a creation of something else in the directory does not count either
    s.on_event(WatchEventKind::Created, 200, false);
    assert_eq!(s.mode, WatchMode::AwaitingFirstCreation);
    assert!(!s.is_pending());
    s.on_event(WatchEventKind::Created, 300, true);
    assert_eq!(s.mode, WatchMode::Tracking);
    assert_eq!(s.on_tick(2_200, true, false), WatchAction::Idle);
    assert_eq!(s.on_tick(2_400, true, false), WatchAction::InitialStart);
    assert_eq!(s.on_tick(2_500, true, true), WatchAction::Idle);
    // from now on a creation counts only after a removal
    s.on_event(WatchEventKind::Created, 3_000, true);
    assert!(!s.is_pending());
    s.on_event(WatchEventKind::Modified, 3_100, true);
    assert_eq!(s.on_tick(5_200, true, true), WatchAction::Restart);
}

#[test]
fn a_removal_cancels_what_was_pending() {
    let mut s = WatchState::new(true);
    s.on_event(WatchEventKind::Modified, 0, true);
    s.on_event(WatchEventKind::Removed, 100, false);
    assert!(!s.is_pending());
    assert_eq!(s.on_tick(5_000, false, true), WatchAction::Idle);
    // modifications do not count while the file is deleted
    s.on_event(WatchEventKind::Modified, 5_100, false);
    assert!(!s.is_pending());
}

#[test]
fn nothing_fires_against_a_missing_binary() {
    let mut s = WatchState::new(true);
    s.on_event(WatchEventKind::Modified, 0, true);
    let before = s;
    assert_eq!(s.on_tick(3_000, false, true), WatchAction::Idle);
    // the action stays pending, and the timer is not touched
    assert_eq!(s, before);
    assert!(s.is_pending());
    assert_eq!(s.on_tick(3_100, false, true), WatchAction::Idle);
    assert!(s.is_pending());
    // it fires at the first tick that finds the binary, and only once
    assert_eq!(s.on_tick(3_200, true, true), WatchAction::Restart);
    assert!(!s.is_pending());
    assert_eq!(s.on_tick(3_300, true, true), WatchAction::Idle);
}

#[test]
fn a_pending_action_for_a_missing_binary_is_cancelled_by_a_removal() {
    let mut s = WatchState::new(true);
    s.on_event(WatchEventKind::Modified, 0, true);
    assert_eq!(s.on_tick(3_000, false, true), WatchAction::Idle);
    s.on_event(WatchEventKind::Removed, 3_050, false);
    assert!(!s.is_pending());
    assert_eq!(s.on_tick(9_000, true, true), WatchAction::Idle);
}

#[test]
fn without_a_process_the_action_is_a_start() {
    let mut s = WatchState::new(true);
    s.on_event(WatchEventKind::Modified, 0, true);
    assert_eq!(s.on_tick(2_001, true, false), WatchAction::InitialStart);
}

#[test]
fn other_events_change_nothing() {
    let mut s = WatchState::new(true);
    let before = s;
    s.on_event(WatchEventKind::Other, 10, true);
    assert_eq!(s, before);
    assert_eq!(
        s.step(WatchInput::Event { kind: WatchEventKind::Modified, now: 20, path_exists: true }),
        WatchAction::Idle
    );
    assert!(s.is_pending());
}
