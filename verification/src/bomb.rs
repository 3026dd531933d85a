use vstd::prelude::*;
use crate::memory::offset_target;

verus! {

/// Where the "bomb planted" flag lies: 8 bytes before the bomb pointer
/// global; `None` when that would fall below address 0.
pub fn planted_flag_address(bomb_address: u64) -> (r: Option<u64>)
    ensures
        r == (if bomb_address >= 8 { Some((bomb_address - 8) as u64) } else { None }),
{
    bomb_address.checked_sub(8)
}

/// Whether a bomb is planted: `flag` is the byte read where
/// `planted_flag_address(bomb_address)` points. No address or a failed read
/// count as not planted.
pub fn get_bomb_planted(bomb_address: u64, flag: Option<bool>) -> (r: bool)
    ensures
        r == (bomb_address >= 8 && flag == Some(true)),
{
    match planted_flag_address(bomb_address) {
        None => false,
        Some(_) => match flag {
            None => false,
            Some(planted) => planted,
        },
    }
}

/// The planted bomb's address: `pointer` is the word read at the bomb
/// global, `bomb` the word read where `pointer` points. `None` when either
/// read failed.
pub fn get_bomb(pointer: Option<u64>, bomb: Option<u64>) -> (r: Option<u64>)
    ensures
        r == (if pointer is Some { bomb } else { None }),
{
    match pointer {
        None => None,
        Some(_) => bomb,
    }
}

/// The name of a bomb site number: site 1 is "B", every other site "A".
pub open spec fn site_name(site: u32) -> Seq<char> {
    if site == 1 {
        "B"@
    } else {
        "A"@
    }
}

/// The site the bomb at `planted_bomb` was planted at: `site` is the word
/// read `site_offset` bytes into the bomb. `None` for a null bomb, an
/// overflowing address or a failed read.
pub fn get_bomb_site(planted_bomb: u64, site_offset: u64, site: Option<u32>) -> (r: Option<String>)
    ensures
        match r {
            Some(s) => {
                &&& offset_target(planted_bomb, site_offset) is Some
                &&& site is Some
                &&& s@ == site_name(site->0)
            },
            None => offset_target(planted_bomb, site_offset) is None || site is None,
        },
{
    if crate::memory::rpm_offset(planted_bomb, site_offset).is_none() {
        return None;
    }
    match site {
        None => None,
        Some(n) => {
            if n == 1 {
                let s = "B".to_string();
                proof {
                    reveal_strlit("B");
                }
                Some(s)
            } else {
                let s = "A".to_string();
                proof {
                    reveal_strlit("A");
                }
                Some(s)
            }
        },
    }
}

/// Nanoseconds after a plant during which a new plant is not recognised.
pub const REPLANT_GUARD_NS: u64 = 60_000_000_000;

/// Seconds from plant to explosion.
pub const FUSE_SECONDS: u64 = 40;

/// What the bomb timer remembers between frames: whether it saw a planted
/// bomb, and when (nanoseconds of a monotonic clock) it saw it planted.
#[derive(Clone, Copy, PartialEq, Eq, Structural, Debug)]
pub struct BombTimer {
    pub is_planted: bool,
    pub plant_time_ns: Option<u64>,
}

/// The timer after seeing `bomb_planted` at `now_ns`: a new plant is noted
/// unless one was noted within the guard time, and a bomb no longer planted
/// clears the timer.
pub open spec fn timer_after(timer: BombTimer, bomb_planted: bool, now_ns: u64) -> BombTimer {
    let noted = if bomb_planted && !timer.is_planted && match timer.plant_time_ns {
        None => true,
        Some(t) => now_ns - t > REPLANT_GUARD_NS,
    } {
        BombTimer { is_planted: true, plant_time_ns: Some(now_ns) }
    } else {
        timer
    };
    if noted.is_planted && !bomb_planted {
        BombTimer { is_planted: false, plant_time_ns: None }
    } else {
        noted
    }
}

/// Whole seconds left on the fuse at `now_ns`, if the timer holds a plant
/// time less than the fuse length ago.
pub open spec fn seconds_left(timer: BombTimer, now_ns: u64) -> Option<u64> {
    match timer.plant_time_ns {
        None => None,
        Some(t) => {
            let elapsed = if now_ns >= t { (now_ns - t) / 1_000_000_000 } else { 0 };
            if elapsed < FUSE_SECONDS {
                Some((FUSE_SECONDS - elapsed) as u64)
            } else {
                None
            }
        },
    }
}

/// Whether some seconds are left on the fuse.
pub open spec fn ticking(left: Option<u64>) -> bool {
    match left {
        Some(n) => n > 0,
        None => false,
    }
}

/// What the bomb timer window says.
#[derive(Clone, Debug)]
pub enum BombTimerText {
    /// The local player could not be read.
    NoInformation,
    /// A bomb is ticking at this site with this many seconds left.
    Planted { site: String, seconds: u64 },
    /// No bomb is ticking.
    NotPlanted,
}

impl BombTimer {
    /// A timer that has seen no bomb.
    pub fn new() -> (r: BombTimer)
        ensures
            r == (BombTimer { is_planted: false, plant_time_ns: None }),
    {
        BombTimer { is_planted: false, plant_time_ns: None }
    }

    /// Updates the timer with this frame's observation and returns the
    /// seconds left on the fuse, if any.
    pub fn update(&mut self, bomb_planted: bool, now_ns: u64) -> (r: Option<u64>)
        ensures
            *final(self) == timer_after(*old(self), bomb_planted, now_ns),
            r == seconds_left(*final(self), now_ns),
    {
        let guard_passed = match self.plant_time_ns {
            None => true,
            Some(t) => now_ns.saturating_sub(t) > REPLANT_GUARD_NS,
        };
        if bomb_planted && !self.is_planted && guard_passed {
            self.is_planted = true;
            self.plant_time_ns = Some(now_ns);
        }
        if self.is_planted && !bomb_planted {
            self.is_planted = false;
            self.plant_time_ns = None;
        }
        match self.plant_time_ns {
            None => None,
            Some(t) => {
                let elapsed = now_ns.saturating_sub(t) / 1_000_000_000;
                if elapsed < FUSE_SECONDS {
                    Some(FUSE_SECONDS - elapsed)
                } else {
                    None
                }
            },
        }
    }
}

/// The bomb timer's text for one frame: nothing can be said without the
/// local player; a ticking bomb is shown with its site and the seconds left;
/// otherwise no bomb is reported.
pub fn render_bomb_timer(
    timer: &mut BombTimer,
    bomb_planted: bool,
    bomb_site: Option<String>,
    no_pawn: bool,
    now_ns: u64,
) -> (r: BombTimerText)
    ensures
        *final(timer) == timer_after(*old(timer), bomb_planted, now_ns),
        match r {
            BombTimerText::NoInformation => no_pawn,
            BombTimerText::Planted { site, seconds } => {
                &&& !no_pawn
                &&& final(timer).is_planted
                &&& bomb_site is Some
                &&& site@ == bomb_site->0@
                &&& seconds_left(*final(timer), now_ns) == Some(seconds)
                &&& seconds > 0
            },
            BombTimerText::NotPlanted => !no_pawn && !(final(timer).is_planted && bomb_site is Some
                && ticking(seconds_left(*final(timer), now_ns))),
        },
{
    let remaining = timer.update(bomb_planted, now_ns);
    if no_pawn {
        return BombTimerText::NoInformation;
    }
    match (remaining, bomb_site) {
        (Some(seconds), Some(site)) => {
            if timer.is_planted && seconds > 0 {
                BombTimerText::Planted { site, seconds }
            } else {
                BombTimerText::NotPlanted
            }
        },
        _ => BombTimerText::NotPlanted,
    }
}

/// While a bomb is ticking, the seconds shown never exceed the fuse length
/// and never go up as time passes.
pub proof fn countdown_never_rises(timer: BombTimer, earlier_ns: u64, later_ns: u64)
    requires
        earlier_ns <= later_ns,
    ensures
        match seconds_left(timer, earlier_ns) {
            Some(n) => n <= FUSE_SECONDS,
            None => true,
        },
        match (seconds_left(timer, earlier_ns), seconds_left(timer, later_ns)) {
            (Some(a), Some(b)) => b <= a,
            _ => true,
        },
        match timer.plant_time_ns {
            Some(t) => t <= earlier_ns && seconds_left(timer, earlier_ns) is None ==> seconds_left(
                timer,
                later_ns,
            ) is None,
            None => true,
        },
{
    if let Some(t) = timer.plant_time_ns {
        if earlier_ns >= t {
            assert((earlier_ns - t) / 1_000_000_000 <= (later_ns - t) / 1_000_000_000) by (nonlinear_arith)
                requires
                    earlier_ns - t <= later_ns - t,
                    earlier_ns - t >= 0,
            ;
        }
    }
}

/// A plant seen by a timer that holds none starts the countdown at the full
/// fuse length, unless a plant was noted within the guard time before.
pub proof fn countdown_starts_full(timer: BombTimer, now_ns: u64)
    requires
        !timer.is_planted,
    ensures
        match timer.plant_time_ns {
            Some(t) if now_ns - t <= REPLANT_GUARD_NS => timer_after(timer, true, now_ns) == timer,
            _ => {
                &&& timer_after(timer, true, now_ns) == (BombTimer {
                    is_planted: true,
                    plant_time_ns: Some(now_ns),
                })
                &&& seconds_left(timer_after(timer, true, now_ns), now_ns) == Some(FUSE_SECONDS)
            },
        },
{
}

/// While the timer holds a planted bomb, seeing it planted again changes
/// nothing: the countdown is not restarted.
pub proof fn plant_noted_once(timer: BombTimer, now_ns: u64)
    requires
        timer.is_planted,
    ensures
        timer_after(timer, true, now_ns) == timer,
{
}

} // verus!
