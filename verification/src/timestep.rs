//! The fixed-timestep driver: real elapsed time is accumulated, and whole
//! timesteps are drained from the accumulator as simulation ticks, so the
//! simulation steps deterministically however fast frames arrive — several
//! ticks in one slow frame, none in a fast one.
//!
//! The number of ticks drained per update is capped: after a long stall
//! (say, a debugger pause) the excess whole timesteps of debt are discarded
//! instead of being replayed in one unbounded catch-up burst.

use vstd::prelude::*;

verus! {

/// At most this many simulation ticks run per real-time update.
pub const MAX_TICKS_PER_UPDATE: u32 = 8;

/// The accumulator of real time not yet simulated, in fixed-point seconds.
#[derive(Clone, Copy, Debug, PartialEq, Eq, Structural)]
pub struct FixedTimestep {
    pub accumulator: i64,
}

/// How many ticks one update runs: every whole timestep in the accumulator,
/// up to the catch-up cap.
pub open spec fn spec_ticks_due(total: int, dt_fx: int) -> int {
    if total / dt_fx >= MAX_TICKS_PER_UPDATE {
        MAX_TICKS_PER_UPDATE as int
    } else {
        total / dt_fx
    }
}

impl FixedTimestep {
    /// An accumulator with no time owed.
    pub fn new() -> (t: FixedTimestep)
        ensures
            t.accumulator == 0,
    {
        FixedTimestep { accumulator: 0 }
    }

    /// Add `elapsed` real time (fixed-point seconds) and drain whole
    /// timesteps of length `dt_fx`: returns how many ticks to run now, and
    /// leaves less than one timestep in the accumulator. Whole timesteps
    /// beyond the catch-up cap are dropped, bounding the debt.
    pub fn advance(&mut self, elapsed: i64, dt_fx: i64) -> (ticks: u32)
        requires
            old(self).accumulator >= 0,
            elapsed >= 0,
            dt_fx > 0,
            old(self).accumulator + elapsed <= i64::MAX,
        ensures
            ticks == spec_ticks_due(old(self).accumulator + elapsed, dt_fx as int),
            final(self).accumulator == (old(self).accumulator + elapsed) % (dt_fx as int),
            0 <= final(self).accumulator < dt_fx,
    {
        let total: u64 = (self.accumulator as u64) + (elapsed as u64);
        let full: u64 = total / (dt_fx as u64);
        let ticks: u32 = if full >= MAX_TICKS_PER_UPDATE as u64 {
            MAX_TICKS_PER_UPDATE
        } else {
            full as u32
        };
        self.accumulator = (total % (dt_fx as u64)) as i64;
        ticks
    }
}

} // verus!
