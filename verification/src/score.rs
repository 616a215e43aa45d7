//! Score, lives and miss counters for one game.

use vstd::prelude::*;

verus! {

/// Points awarded for each caught star.
pub const CATCH_POINTS: u32 = 10;

/// Lives a fresh game starts with.
pub const STARTING_LIVES: u32 = 3;

/// Addition on a `u32`-sized counter that sticks at the top instead of
/// wrapping.
pub open spec fn sat_add_u32(a: int, b: int) -> int {
    if a + b <= u32::MAX {
        a + b
    } else {
        u32::MAX as int
    }
}

/// Subtraction on a `u32`-sized counter that sticks at zero instead of
/// wrapping.
pub open spec fn sat_sub_u32(a: int, b: int) -> int {
    if a - b >= 0 {
        a - b
    } else {
        0
    }
}

/// Lives never go below zero: the saturating decrement cannot produce
/// a negative count, however many misses are charged.
pub proof fn lemma_lives_never_negative(lives: int, missed: int)
    ensures
        sat_sub_u32(lives, missed) >= 0,
{
}

/// The running counters of the current game: points scored, lives left
/// and how many stars have fallen past the floor.
#[derive(Clone, Copy, PartialEq, Eq, Structural, Debug)]
pub struct GameScore {
    pub value: u32,
    pub lives: u32,
    pub stars_missed: u32,
}

impl GameScore {
    /// The counters every game starts from: no points, full lives,
    /// nothing missed.
    pub open spec fn initial() -> GameScore {
        GameScore { value: 0, lives: STARTING_LIVES, stars_missed: 0 }
    }

    pub fn new() -> (s: GameScore)
        ensures
            s == GameScore::initial(),
    {
        GameScore { value: 0, lives: STARTING_LIVES, stars_missed: 0 }
    }

    /// Put every counter back to its starting value; runs when a game
    /// begins.
    pub fn reset(&mut self)
        ensures
            *final(self) == GameScore::initial(),
    {
        self.value = 0;
        self.lives = STARTING_LIVES;
        self.stars_missed = 0;
    }

    /// A star was caught: the score rises by exactly `CATCH_POINTS`
    /// (saturating at the top of the counter); lives and misses do not
    /// move.
    pub fn record_catch(&mut self)
        ensures
            final(self).value == sat_add_u32(old(self).value as int, CATCH_POINTS as int),
            final(self).lives == old(self).lives,
            final(self).stars_missed == old(self).stars_missed,
    {
        if self.value <= u32::MAX - CATCH_POINTS {
            self.value = self.value + CATCH_POINTS;
        } else {
            self.value = u32::MAX;
        }
    }

    /// A star fell past the floor: the miss counter rises by one and one
    /// life is lost, but never below zero (the decrement saturates).
    pub fn record_miss(&mut self)
        ensures
            final(self).stars_missed == sat_add_u32(old(self).stars_missed as int, 1),
            final(self).lives == sat_sub_u32(old(self).lives as int, 1),
            final(self).value == old(self).value,
    {
        if self.stars_missed < u32::MAX {
            self.stars_missed = self.stars_missed + 1;
        }
        if self.lives > 0 {
            self.lives = self.lives - 1;
        }
    }
}

} // verus!
