use vstd::prelude::*;
use rand::Rng;
use crate::mouse::{MouseInput, MOUSE_LEFT_DOWN, MOUSE_LEFT_UP, button_event, press_step, release_step, click_mouse, press_mouse, release_mouse};

verus! {

/// The timing settings the triggerbot reads: the delay before the first
/// shot at a target and the interval between taps, each with the bound of a
/// random offset (all in milliseconds), and the action: 0 taps, 1 holds the
/// button down.
#[derive(Clone, Copy, PartialEq, Eq, Structural, Debug)]
pub struct TriggerTiming {
    pub delay_ms: u32,
    pub delay_offset_ms: u32,
    pub tap_interval_ms: u32,
    pub tap_interval_offset_ms: u32,
    pub action: usize,
}

/// When (nanoseconds of a monotonic clock) a feature locked on, and on
/// which entity.
#[derive(Clone, Copy, PartialEq, Eq, Structural, Debug)]
pub struct LockedOn {
    pub since_ns: u64,
    pub entity: u64,
}

/// A feature's hold on a target: since when (nanoseconds of a monotonic
/// clock) and on which entity it locked, and since when it has been off
/// target.
#[derive(Clone, Copy, PartialEq, Eq, Structural, Debug)]
pub struct TargetLock {
    pub locked: Option<LockedOn>,
    pub off_since: Option<u64>,
}

/// What the triggerbot remembers between frames: its lock and the time of
/// its last tap.
#[derive(Clone, Copy, PartialEq, Eq, Structural, Debug)]
pub struct TriggerState {
    pub lock: TargetLock,
    pub last_shot_ns: u64,
}

/// `x` kept within `lo..=hi`.
pub open spec fn clamp(x: int, lo: int, hi: int) -> int {
    if x > hi {
        hi
    } else if x < lo {
        lo
    } else {
        x
    }
}

/// Time from `since` to `now`, 0 when `now` is earlier.
pub open spec fn elapsed(since: u64, now: u64) -> int {
    if now >= since {
        now - since
    } else {
        0
    }
}

/// The delay before shooting, in nanoseconds: the set delay plus the
/// random offset (microseconds), kept within 0 to 500 ms.
pub open spec fn shot_delay_ns(timing: TriggerTiming, delay_offset_us: i64) -> int {
    clamp(timing.delay_ms * 1000 + delay_offset_us, 0, 500_000) * 1000
}

/// The interval between taps, in nanoseconds: the set interval plus the
/// random offset (microseconds), kept within 50 to 500 ms.
pub open spec fn tap_interval_ns(timing: TriggerTiming, interval_offset_us: i64) -> int {
    clamp(timing.tap_interval_ms * 1000 + interval_offset_us, 50_000, 500_000) * 1000
}

/// One triggerbot tick aimed at the entity at `address`: the state after
/// it, whether the overlay then holds the mouse button, and the mouse events
/// to send. A new target is locked on first; a change of target drops the
/// lock; nothing is sent until the delay since locking has passed; then in
/// tap mode a click is sent when the interval since the last tap has
/// passed, and in hold mode the button is pressed if it is not held.
pub open spec fn trigger_step(
    state: TriggerState,
    mouse_locked: bool,
    address: u64,
    timing: TriggerTiming,
    delay_offset_us: i64,
    interval_offset_us: i64,
    now_ns: u64,
) -> (TriggerState, bool, Seq<MouseInput>) {
    let held = match state.lock.locked {
        None => LockedOn { since_ns: now_ns, entity: address },
        Some(l) => l,
    };
    let (on, entity) = (held.since_ns, held.entity);
    let locked = TriggerState { lock: TargetLock { locked: Some(held), ..state.lock }, ..state };
    if entity != address {
        (TriggerState { lock: TargetLock { locked: None, ..state.lock }, ..state }, mouse_locked, seq![])
    } else if elapsed(on, now_ns) < shot_delay_ns(timing, delay_offset_us) {
        (locked, mouse_locked, seq![])
    } else if timing.action == 0 && elapsed(state.last_shot_ns, now_ns) >= tap_interval_ns(
        timing,
        interval_offset_us,
    ) {
        (
            TriggerState { last_shot_ns: now_ns, ..locked },
            mouse_locked,
            seq![button_event(MOUSE_LEFT_DOWN), button_event(MOUSE_LEFT_UP)],
        )
    } else if timing.action == 1 && !mouse_locked {
        (locked, true, seq![button_event(MOUSE_LEFT_DOWN)])
    } else {
        (locked, mouse_locked, seq![])
    }
}

fn clamp_us(base_ms: u32, offset_us: i64, lo: i64, hi: i64) -> (r: u64)
    requires
        0 <= lo <= hi,
    ensures
        r == clamp(base_ms * 1000 + offset_us, lo as int, hi as int),
{
    let x: i128 = (base_ms as i128) * 1000 + (offset_us as i128);
    if x > hi as i128 {
        hi as u64
    } else if x < lo as i128 {
        lo as u64
    } else {
        x as u64
    }
}

/// One triggerbot tick at `address`, with the random offsets already drawn.
pub fn run_triggerbot(
    state: &mut TriggerState,
    mouse_locked: &mut bool,
    address: u64,
    timing: &TriggerTiming,
    delay_offset_us: i64,
    interval_offset_us: i64,
    now_ns: u64,
) -> (r: Vec<MouseInput>)
    ensures
        (*final(state), *final(mouse_locked), r@) == trigger_step(
            *old(state),
            *old(mouse_locked),
            address,
            *timing,
            delay_offset_us,
            interval_offset_us,
            now_ns,
        ),
{
    let mut events: Vec<MouseInput> = Vec::new();
    let held = match state.lock.locked {
        None => LockedOn { since_ns: now_ns, entity: address },
        Some(l) => l,
    };
    let (on, entity) = (held.since_ns, held.entity);
    state.lock.locked = Some(held);
    if entity != address {
        state.lock.locked = None;
        return events;
    }
    let delay_ns = clamp_us(timing.delay_ms, delay_offset_us, 0, 500_000) * 1000;
    if now_ns.saturating_sub(on) < delay_ns {
        return events;
    }
    let interval_ns = clamp_us(timing.tap_interval_ms, interval_offset_us, 50_000, 500_000) * 1000;
    if timing.action == 0 && now_ns.saturating_sub(state.last_shot_ns) >= interval_ns {
        events = click_mouse();
        state.last_shot_ns = now_ns;
    } else if timing.action == 1 && !*mouse_locked {
        if let Some(event) = press_mouse(mouse_locked) {
            events.push(event);
        }
    }
    assert(events@ =~= trigger_step(
        *old(state),
        *old(mouse_locked),
        address,
        *timing,
        delay_offset_us,
        interval_offset_us,
        now_ns,
    ).2);
    events
}

/// `rand::thread_rng().gen_range(low..high)`: a random integer in
/// `low..high`, as rand's documentation promises (it panics on an empty
/// range, which `requires` rules out). Which value comes is chance.
#[verifier::external_body]
fn random_between(low: i64, high: i64) -> (r: i64)
    requires
        low < high,
    ensures
        low <= r < high,
{
    rand::thread_rng().gen_range(low..high)
}

/// A random offset in microseconds for an offset bound in milliseconds: 0
/// for a zero bound, otherwise drawn from `-bound..bound` at microsecond
/// resolution.
pub fn random_offset_us(bound_ms: u32) -> (r: i64)
    ensures
        bound_ms == 0 ==> r == 0,
        bound_ms != 0 ==> -(bound_ms * 1000) <= r < bound_ms * 1000,
{
    if bound_ms == 0 {
        0
    } else {
        let b: i64 = bound_ms as i64 * 1000;
        random_between(-b, b)
    }
}

/// Whether `offset` is one the random draw for `bound_ms` can give.
pub open spec fn offset_in_range(bound_ms: u32, offset: i64) -> bool {
    if bound_ms == 0 {
        offset == 0
    } else {
        -(bound_ms * 1000) <= offset < bound_ms * 1000
    }
}

/// One triggerbot tick with fresh random offsets for the delay and the tap
/// interval: the tick is `trigger_step` for some offsets within their
/// bounds.
pub fn triggerbot_tick(
    state: &mut TriggerState,
    mouse_locked: &mut bool,
    address: u64,
    timing: &TriggerTiming,
    now_ns: u64,
) -> (r: Vec<MouseInput>)
    ensures
        exists|d: i64, i: i64|
            offset_in_range(timing.delay_offset_ms, d) && offset_in_range(
                timing.tap_interval_offset_ms,
                i,
            ) && (*final(state), *final(mouse_locked), r@) == trigger_step(
                *old(state),
                *old(mouse_locked),
                address,
                *timing,
                d,
                i,
                now_ns,
            ),
{
    let d = random_offset_us(timing.delay_offset_ms);
    let i = random_offset_us(timing.tap_interval_offset_ms);
    run_triggerbot(state, mouse_locked, address, timing, d, i, now_ns)
}

/// The lock after a frame in which the feature was (`active`) or was not
/// on target: off target, the time it went off is noted, and once that is
/// more than `off_delay_ns` ago the lock is dropped (second result: whether
/// it was dropped now); on target, the off time is forgotten.
pub open spec fn lock_after_frame(lock: TargetLock, active: bool, now_ns: u64, off_delay_ns: u64) -> (
    TargetLock,
    bool,
) {
    if active {
        (TargetLock { off_since: None, ..lock }, false)
    } else {
        let off = match lock.off_since {
            None => now_ns,
            Some(t) => t,
        };
        if elapsed(off, now_ns) > off_delay_ns {
            (TargetLock { locked: None, off_since: Some(off) }, true)
        } else {
            (TargetLock { off_since: Some(off), ..lock }, false)
        }
    }
}

/// Keeps a lock over one frame; returns whether the lock was dropped.
pub fn update_lock(lock: &mut TargetLock, active: bool, now_ns: u64, off_delay_ns: u64) -> (dropped: bool)
    ensures
        (*final(lock), dropped) == lock_after_frame(*old(lock), active, now_ns, off_delay_ns),
{
    if active {
        lock.off_since = None;
        return false;
    }
    let off = match lock.off_since {
        None => now_ns,
        Some(t) => t,
    };
    lock.off_since = Some(off);
    if now_ns.saturating_sub(off) > off_delay_ns {
        lock.locked = None;
        true
    } else {
        false
    }
}

/// The triggerbot's part of a frame when it is not on target: the button
/// is released if held, and again after the lock is dropped.
pub open spec fn trigger_idle_step(state: TriggerState, mouse_locked: bool, now_ns: u64, off_delay_ns: u64) -> (
    TriggerState,
    bool,
    Seq<MouseInput>,
) {
    let (locked1, first) = release_step(mouse_locked);
    let (lock, dropped) = lock_after_frame(state.lock, false, now_ns, off_delay_ns);
    let (locked2, second) = if dropped {
        release_step(locked1)
    } else {
        (locked1, None)
    };
    let events = (match first {
        Some(e) => seq![e],
        None => seq![],
    }) + (match second {
        Some(e) => seq![e],
        None => seq![],
    });
    (TriggerState { lock, ..state }, locked2, events)
}

/// The triggerbot's part of a frame when it is not on target.
pub fn triggerbot_idle(
    state: &mut TriggerState,
    mouse_locked: &mut bool,
    now_ns: u64,
    off_delay_ns: u64,
) -> (r: Vec<MouseInput>)
    ensures
        (*final(state), *final(mouse_locked), r@) == trigger_idle_step(
            *old(state),
            *old(mouse_locked),
            now_ns,
            off_delay_ns,
        ),
{
    let mut events: Vec<MouseInput> = Vec::new();
    if let Some(e) = release_mouse(mouse_locked) {
        events.push(e);
    }
    let dropped = update_lock(&mut state.lock, false, now_ns, off_delay_ns);
    if dropped {
        if let Some(e) = release_mouse(mouse_locked) {
            events.push(e);
        }
    }
    assert(events@ =~= trigger_idle_step(*old(state), *old(mouse_locked), now_ns, off_delay_ns).2);
    events
}

/// Off target the triggerbot never holds the button, and sends at most one
/// button-up; a target change drops the lock without sending anything.
pub proof fn trigger_releases_off_target(
    state: TriggerState,
    mouse_locked: bool,
    address: u64,
    timing: TriggerTiming,
    d: i64,
    i: i64,
    now_ns: u64,
    off_delay_ns: u64,
)
    ensures
        !trigger_idle_step(state, mouse_locked, now_ns, off_delay_ns).1,
        trigger_idle_step(state, mouse_locked, now_ns, off_delay_ns).2.len() <= 1,
        (state.lock.locked matches Some(l) && l.entity != address) ==> {
            let (next, held, events) = trigger_step(state, mouse_locked, address, timing, d, i, now_ns);
            next.lock.locked is None && held == mouse_locked && events.len() == 0
        },
{
}

/// Nothing is sent before the delay since locking has passed, and the
/// delay never exceeds half a second.
pub proof fn trigger_waits_for_delay(
    state: TriggerState,
    mouse_locked: bool,
    address: u64,
    timing: TriggerTiming,
    d: i64,
    i: i64,
    now_ns: u64,
)
    ensures
        0 <= shot_delay_ns(timing, d) <= 500_000_000,
        50_000_000 <= tap_interval_ns(timing, i) <= 500_000_000,
        match state.lock.locked {
            Some(l) => elapsed(l.since_ns, now_ns) < shot_delay_ns(timing, d) ==> trigger_step(
                state,
                mouse_locked,
                address,
                timing,
                d,
                i,
                now_ns,
            ).2.len() == 0,
            None => true,
        },
{
}

/// The aimbot's hold on the entity at `address` this frame: a new target
/// is locked on first; a change of target drops the lock and the aimbot
/// does not move; otherwise it moves once the delay since locking (the set
/// delay plus the random offset, kept within 0 to 500 ms) has passed.
pub open spec fn aim_gate(lock: TargetLock, address: u64, delay_ms: u32, delay_offset_us: i64, now_ns: u64) -> (
    TargetLock,
    bool,
) {
    let held = match lock.locked {
        None => LockedOn { since_ns: now_ns, entity: address },
        Some(l) => l,
    };
    if held.entity != address {
        (TargetLock { locked: None, ..lock }, false)
    } else {
        (
            TargetLock { locked: Some(held), ..lock },
            elapsed(held.since_ns, now_ns) >= clamp(delay_ms * 1000 + delay_offset_us, 0, 500_000)
                * 1000,
        )
    }
}

/// Keeps the aimbot's lock on the entity at `address`; returns whether the
/// aimbot may move the view this frame.
pub fn aimbot_lock(lock: &mut TargetLock, address: u64, delay_ms: u32, delay_offset_us: i64, now_ns: u64) -> (may_aim: bool)
    ensures
        (*final(lock), may_aim) == aim_gate(*old(lock), address, delay_ms, delay_offset_us, now_ns),
{
    let held = match lock.locked {
        None => LockedOn { since_ns: now_ns, entity: address },
        Some(l) => l,
    };
    if held.entity != address {
        lock.locked = None;
        return false;
    }
    lock.locked = Some(held);
    let delay_ns = clamp_us(delay_ms, delay_offset_us, 0, 500_000) * 1000;
    now_ns.saturating_sub(held.since_ns) >= delay_ns
}

/// The triggerbot's part of a frame that reaches it: a tick at the target
/// when it acts, the idle handling otherwise.
pub open spec fn trigger_frame(
    state: TriggerState,
    mouse_locked: bool,
    acting: bool,
    address: u64,
    timing: TriggerTiming,
    d: i64,
    i: i64,
    now_ns: u64,
    off_delay_ns: u64,
) -> (TriggerState, bool, Seq<MouseInput>) {
    if acting {
        trigger_step(state, mouse_locked, address, timing, d, i, now_ns)
    } else {
        trigger_idle_step(state, mouse_locked, now_ns, off_delay_ns)
    }
}

/// On every frame that reaches the triggerbot without it acting, the
/// button is no longer held afterwards.
pub proof fn trigger_frame_releases(
    state: TriggerState,
    mouse_locked: bool,
    address: u64,
    timing: TriggerTiming,
    d: i64,
    i: i64,
    now_ns: u64,
    off_delay_ns: u64,
)
    ensures
        !trigger_frame(state, mouse_locked, false, address, timing, d, i, now_ns, off_delay_ns).1,
{
}

/// Once locked on the target past the delay: in tap mode a click (down,
/// then up) is sent exactly when the interval since the last tap has
/// passed, and records the tap; in hold mode the button is pressed exactly
/// when it is not held, and then is held.
pub proof fn trigger_taps_or_holds(
    state: TriggerState,
    mouse_locked: bool,
    address: u64,
    timing: TriggerTiming,
    d: i64,
    i: i64,
    now_ns: u64,
)
    requires
        state.lock.locked matches Some(l) && l.entity == address && elapsed(l.since_ns, now_ns)
            >= shot_delay_ns(timing, d),
    ensures
        ({
            let (next, held, events) = trigger_step(state, mouse_locked, address, timing, d, i, now_ns);
            &&& (timing.action == 0 ==> (events.len() > 0 <==> elapsed(state.last_shot_ns, now_ns)
                >= tap_interval_ns(timing, i)))
            &&& (timing.action == 0 && events.len() > 0 ==> events == seq![
                button_event(MOUSE_LEFT_DOWN),
                button_event(MOUSE_LEFT_UP),
            ] && next.last_shot_ns == now_ns)
            &&& (timing.action == 1 ==> (events.len() > 0 <==> !mouse_locked) && held)
            &&& (timing.action == 1 && events.len() > 0 ==> events == seq![
                button_event(MOUSE_LEFT_DOWN),
            ])
            &&& next.lock.locked == state.lock.locked
        }),
{
}

} // verus!
