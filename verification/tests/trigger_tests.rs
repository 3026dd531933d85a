use proext::mouse::{create_mouse_input, MOUSE_LEFT_DOWN, MOUSE_LEFT_UP};
use proext::trigger::{
    aimbot_lock,
    random_offset_us, run_triggerbot, triggerbot_idle, triggerbot_tick, update_lock, LockedOn,
    TargetLock, TriggerState, TriggerTiming,
};

const MS: u64 = 1_000_000;

fn timing(action: usize) -> TriggerTiming {
    TriggerTiming { delay_ms: 100, delay_offset_ms: 0, tap_interval_ms: 150, tap_interval_offset_ms: 0, action }
}

fn fresh() -> TriggerState {
    TriggerState { lock: TargetLock { locked: None, off_since: None }, last_shot_ns: 0 }
}

#[test]
fn tap_mode_waits_then_clicks() {
    let mut state = fresh();
    let mut held = false;
    let t = timing(0);
    assert!(run_triggerbot(&mut state, &mut held, 0xAA, &t, 0, 0, 1000 * MS).is_empty());
    assert_eq!(state.lock.locked, Some(LockedOn { since_ns: 1000 * MS, entity: 0xAA }));
    assert!(run_triggerbot(&mut state, &mut held, 0xAA, &t, 0, 0, 1099 * MS).is_empty());
    let click = vec![create_mouse_input(MOUSE_LEFT_DOWN, 0, 0, 0, 0), create_mouse_input(MOUSE_LEFT_UP, 0, 0, 0, 0)];
    assert_eq!(run_triggerbot(&mut state, &mut held, 0xAA, &t, 0, 0, 1100 * MS), click);
    assert_eq!(state.last_shot_ns, 1100 * MS);
    assert!(run_triggerbot(&mut state, &mut held, 0xAA, &t, 0, 0, 1200 * MS).is_empty());
    assert_eq!(run_triggerbot(&mut state, &mut held, 0xAA, &t, 0, 0, 1250 * MS), click);
    assert!(!held);
}

#[test]
fn offsets_are_clamped() {
    let mut state = fresh();
    let mut held = false;
    let t = timing(0);
    // a large negative offset clamps the delay to 0; interval clamps to 50 ms
    assert_eq!(run_triggerbot(&mut state, &mut held, 1, &t, -1_000_000, -1_000_000, 500 * MS).len(), 2);
    assert!(run_triggerbot(&mut state, &mut held, 1, &t, -1_000_000, -1_000_000, 549 * MS).is_empty());
    assert_eq!(run_triggerbot(&mut state, &mut held, 1, &t, -1_000_000, -1_000_000, 550 * MS).len(), 2);
    // a large positive offset clamps the delay to 500 ms
    let mut state = fresh();
    run_triggerbot(&mut state, &mut held, 2, &t, 10_000_000, 0, 0);
    assert!(run_triggerbot(&mut state, &mut held, 2, &t, 10_000_000, 0, 499 * MS).is_empty());
    assert_eq!(run_triggerbot(&mut state, &mut held, 2, &t, 10_000_000, 0, 500 * MS).len(), 2);
}

#[test]
fn target_change_drops_lock() {
    let mut state = fresh();
    let mut held = false;
    let t = timing(1);
    run_triggerbot(&mut state, &mut held, 5, &t, 0, 0, 0);
    assert!(run_triggerbot(&mut state, &mut held, 6, &t, 0, 0, 200 * MS).is_empty());
    assert_eq!(state.lock.locked, None);
}

#[test]
fn hold_mode_presses_once() {
    let mut state = fresh();
    let mut held = false;
    let t = timing(1);
    run_triggerbot(&mut state, &mut held, 5, &t, 0, 0, 0);
    assert_eq!(run_triggerbot(&mut state, &mut held, 5, &t, 0, 0, 100 * MS), vec![create_mouse_input(MOUSE_LEFT_DOWN, 0, 0, 0, 0)]);
    assert!(held);
    assert!(run_triggerbot(&mut state, &mut held, 5, &t, 0, 0, 200 * MS).is_empty());
    assert_eq!(triggerbot_idle(&mut state, &mut held, 300 * MS, 500 * MS), vec![create_mouse_input(MOUSE_LEFT_UP, 0, 0, 0, 0)]);
    assert!(!held);
    assert!(state.lock.locked.is_some());
    assert!(triggerbot_idle(&mut state, &mut held, 801 * MS, 500 * MS).is_empty());
    assert_eq!(state.lock.locked, None);
}

#[test]
fn lock_expires_after_off_delay() {
    let mut lock = TargetLock { locked: Some(LockedOn { since_ns: 0, entity: 9 }), off_since: None };
    assert!(!update_lock(&mut lock, false, 10, 5));
    assert_eq!(lock.off_since, Some(10));
    assert!(!update_lock(&mut lock, false, 15, 5));
    assert!(update_lock(&mut lock, false, 16, 5));
    assert_eq!(lock.locked, None);
    assert!(!update_lock(&mut lock, true, 20, 5));
    assert_eq!(lock.off_since, None);
}

#[test]
fn random_offsets_stay_in_bounds() {
    assert_eq!(random_offset_us(0), 0);
    for _ in 0..200 {
        let r = random_offset_us(3);
        assert!((-3000..3000).contains(&r));
    }
    let mut state = fresh();
    let mut held = false;
    let t = TriggerTiming { delay_offset_ms: 50, tap_interval_offset_ms: 20, ..timing(0) };
    assert!(triggerbot_tick(&mut state, &mut held, 1, &t, 0).is_empty());
    assert_eq!(triggerbot_tick(&mut state, &mut held, 1, &t, 200 * MS).len(), 2);
}

#[test]
fn aimbot_lock_waits_and_drops() {
    let mut lock = TargetLock { locked: None, off_since: None };
    assert!(!aimbot_lock(&mut lock, 7, 50, 0, 1000 * MS));
    assert!(!aimbot_lock(&mut lock, 7, 50, 0, 1049 * MS));
    assert!(aimbot_lock(&mut lock, 7, 50, 0, 1050 * MS));
    assert!(!aimbot_lock(&mut lock, 8, 50, 0, 1100 * MS));
    assert_eq!(lock.locked, None);
    assert!(aimbot_lock(&mut lock, 8, 0, 0, 1100 * MS));
}
