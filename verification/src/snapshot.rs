//! The two weather timers that are read from a world's save.

use vstd::prelude::*;

verus! {

/// The weather timers of one world, as they stood when its save was read.
///
/// A timer of `0` means that the world has not set that cycle up yet. It is
/// never taken for a cycle that starts at tick zero.
#[derive(Clone, Copy, Debug, PartialEq, Eq, Structural)]
pub struct TimingSnapshot {
    pub rain_start_tick: u64,
    pub thunder_start_tick: u64,
}

impl TimingSnapshot {
    /// Both cycles have been set up by the game.
    pub open spec fn initialized(self) -> bool {
        self.rain_start_tick != 0 && self.thunder_start_tick != 0
    }

    pub fn new(rain_start_tick: u64, thunder_start_tick: u64) -> (snapshot: TimingSnapshot)
        ensures
            snapshot.rain_start_tick == rain_start_tick,
            snapshot.thunder_start_tick == thunder_start_tick,
    {
        TimingSnapshot { rain_start_tick, thunder_start_tick }
    }

    pub fn is_initialized(&self) -> (yes: bool)
        ensures
            yes == self.initialized(),
    {
        self.rain_start_tick != 0 && self.thunder_start_tick != 0
    }
}

} // verus!
