//! The repeating countdown that paces star spawns.

use vstd::prelude::*;
use crate::difficulty::GameDifficulty;

verus! {

/// The spawn period a given spawn rate asks for: the whole number of
/// milliseconds in `1 / rate` seconds, but never less than one
/// millisecond (an integer period of zero would stop the clock).
pub open spec fn spawn_period_ms_for(spawn_rate_tenths: u32) -> int {
    if spawn_rate_tenths <= 10_000 {
        10_000 as int / spawn_rate_tenths as int
    } else {
        1
    }
}

/// Whether a timer at `elapsed_ms` finishes a period after `dt_ms` more
/// milliseconds pass.
pub open spec fn tick_finishes(elapsed_ms: u32, dt_ms: u32, period_ms: int) -> bool {
    elapsed_ms + dt_ms >= period_ms
}

/// Where the timer stands after `dt_ms` more milliseconds: the time
/// rolls over at each period boundary.
pub open spec fn tick_elapsed(elapsed_ms: u32, dt_ms: u32, period_ms: int) -> int {
    if tick_finishes(elapsed_ms, dt_ms, period_ms) {
        (elapsed_ms + dt_ms) % period_ms
    } else {
        elapsed_ms + dt_ms
    }
}

/// A repeating countdown: `elapsed_ms` milliseconds of the current
/// period have already passed.  The period itself is handed to each
/// tick, because the game recomputes it from the difficulty every
/// frame.
#[derive(Clone, Copy, PartialEq, Eq, Structural, Debug)]
pub struct SpawnTimer {
    pub elapsed_ms: u32,
}

impl SpawnTimer {
    pub fn new() -> (t: SpawnTimer)
        ensures
            t.elapsed_ms == 0,
    {
        SpawnTimer { elapsed_ms: 0 }
    }

    /// Advance the timer by `dt_ms` against a period of `period_ms`.
    /// Reports whether a period boundary was crossed; on a crossing the
    /// leftover time past the last boundary is kept, as a repeating
    /// engine timer keeps it.
    pub fn tick(&mut self, dt_ms: u32, period_ms: u32) -> (finished: bool)
        requires
            period_ms >= 1,
        ensures
            finished == tick_finishes(old(self).elapsed_ms, dt_ms, period_ms as int),
            final(self).elapsed_ms == tick_elapsed(old(self).elapsed_ms, dt_ms, period_ms as int),
            final(self).elapsed_ms < period_ms,
    {
        let total: u64 = self.elapsed_ms as u64 + dt_ms as u64;
        if total >= period_ms as u64 {
            self.elapsed_ms = (total % (period_ms as u64)) as u32;
            true
        } else {
            self.elapsed_ms = total as u32;
            false
        }
    }
}

/// The spawn period the current difficulty asks for, in milliseconds.
pub fn spawn_period_ms(difficulty: &GameDifficulty) -> (period: u32)
    requires
        difficulty.wf(),
    ensures
        period == spawn_period_ms_for(difficulty.spawn_rate_tenths),
        1 <= period <= 1000,
{
    if difficulty.spawn_rate_tenths <= 10_000 {
        proof {
            vstd::arithmetic::div_mod::lemma_div_is_ordered_by_denominator(
                10_000,
                10,
                difficulty.spawn_rate_tenths as int,
            );
            vstd::arithmetic::div_mod::lemma_div_non_zero(
                10_000,
                difficulty.spawn_rate_tenths as int,
            );
        }
        10_000 / difficulty.spawn_rate_tenths
    } else {
        1
    }
}

} // verus!
