//! Feeding the tank, and the look of the waste port.

use vstd::prelude::*;
use crate::controls::{any_occupied, some_occupied};
use crate::fuel::{FuelLevel, FEED_UNITS};

verus! {

/// Time that must have passed since the last feeding before the next one,
/// in nanoseconds. Exactly this much is not enough.
pub const FEED_INTERVAL_NS: u64 = 1_000_000_000;

/// When the tank was last fed.
#[derive(Clone, Copy, Debug, PartialEq, Eq)]
pub struct TankTimer {
    /// Time of the last feeding on the game clock, in nanoseconds; `None`
    /// until the first feeding.
    pub last_feed_ns: Option<u64>,
}

/// The look of the waste port.
#[derive(Clone, Copy, Debug, PartialEq, Eq, Structural)]
pub enum WastePortLook {
    Vacant,
    Occupied,
}

/// Time since the last feeding at `now_ns`. A tank that was never fed counts
/// as fed one interval before the clock started.
pub open spec fn since_last_feed(timer: TankTimer, now_ns: u64) -> int {
    match timer.last_feed_ns {
        None => now_ns + FEED_INTERVAL_NS,
        Some(last) => now_ns - last,
    }
}

/// Whether the tank takes fuel at `now_ns`: more than one interval has
/// passed since the last feeding.
pub open spec fn feed_ready(timer: TankTimer, now_ns: u64) -> bool {
    since_last_feed(timer, now_ns) > FEED_INTERVAL_NS
}

/// Whether a feeding happens: the interact key is held while a body
/// overlaps the tank-input port, and the tank is ready.
pub open spec fn feeds(timer: TankTimer, port_overlaps: Seq<usize>, interact: bool, now_ns: u64)
    -> bool {
    some_occupied(port_overlaps) && interact && feed_ready(timer, now_ns)
}

/// The level after a feeding of `level`.
pub open spec fn fed_level(level: int) -> int {
    if level + FEED_UNITS <= u32::MAX {
        level + FEED_UNITS
    } else {
        u32::MAX as int
    }
}

impl TankTimer {
    /// The timer of a tank that was never fed.
    pub fn new() -> (timer: TankTimer)
        ensures
            timer.last_feed_ns is None,
    {
        TankTimer { last_feed_ns: None }
    }

    /// Tells whether the tank takes fuel at `now_ns`.
    pub fn ready(&self, now_ns: u64) -> (ready: bool)
        ensures
            ready == feed_ready(*self, now_ns),
    {
        match self.last_feed_ns {
            None => now_ns > 0,
            Some(last) => now_ns > last && now_ns - last > FEED_INTERVAL_NS,
        }
    }
}

/// Runs the tank for one tick. `port_overlaps` holds, for each tank-input
/// port, the number of bodies that overlap it. When a feeding happens the
/// level grows by `FEED_UNITS` and the timer is set to `now_ns`; otherwise
/// neither changes. Returns whether a feeding happened.
pub fn feed_tank(
    level: &mut FuelLevel,
    timer: &mut TankTimer,
    port_overlaps: &[usize],
    interact: bool,
    now_ns: u64,
) -> (fed: bool)
    ensures
        fed == feeds(*old(timer), port_overlaps@, interact, now_ns),
        fed ==> final(level).units() == fed_level(old(level).units()) && final(timer).last_feed_ns
            == Some(now_ns),
        !fed ==> *final(level) == *old(level) && *final(timer) == *old(timer),
        final(level).units() >= old(level).units(),
{
    if interact && any_occupied(port_overlaps) && timer.ready(now_ns) {
        *level = level.fed();
        timer.last_feed_ns = Some(now_ns);
        true
    } else {
        false
    }
}

/// The look of the waste port, given the number of bodies that overlap it.
pub fn waste_port_look(overlapping: usize) -> (look: WastePortLook)
    ensures
        look == WastePortLook::Occupied <==> overlapping > 0,
{
    if overlapping == 0 {
        WastePortLook::Vacant
    } else {
        WastePortLook::Occupied
    }
}

/// Feeding never lowers the level, and right after a feeding the tank is
/// not ready again.
pub proof fn feeding_is_monotonic(level: int, now_ns: u64)
    requires
        0 <= level <= u32::MAX,
    ensures
        level <= fed_level(level) <= u32::MAX,
        !feed_ready(TankTimer { last_feed_ns: Some(now_ns) }, now_ns),
{
}

} // verus!
