//! Difficulty scaling: star speed and spawn rate step up with the score.

use vstd::prelude::*;

verus! {

/// Points needed to raise the difficulty by one level.
pub const POINTS_PER_LEVEL: u32 = 50;

/// Star speed (world units per second) at level zero.
pub const BASE_STAR_SPEED: u32 = 100;

/// Extra star speed per difficulty level.
pub const SPEED_STEP: u32 = 20;

/// Spawn rate at level zero, in tenths of a star per second.
pub const BASE_SPAWN_RATE_TENTHS: u32 = 10;

/// Extra spawn rate per difficulty level, in tenths of a star per second.
pub const RATE_STEP_TENTHS: u32 = 2;

/// The largest star speed any `u32` score can produce:
/// `BASE_STAR_SPEED + SPEED_STEP * (u32::MAX / POINTS_PER_LEVEL)`.
pub const MAX_STAR_SPEED: u32 = 1_717_987_000;

/// The difficulty level a score has reached: one step per
/// `POINTS_PER_LEVEL` points.
pub open spec fn level_for(score: u32) -> int {
    score as int / POINTS_PER_LEVEL as int
}

/// How fast stars fall at a given score, in world units per second.
pub open spec fn star_speed_for(score: u32) -> int {
    BASE_STAR_SPEED + SPEED_STEP * level_for(score)
}

/// How often stars appear at a given score, in tenths of a star per
/// second.
pub open spec fn spawn_rate_tenths_for(score: u32) -> int {
    BASE_SPAWN_RATE_TENTHS + RATE_STEP_TENTHS * level_for(score)
}

/// Current fall speed (units per second) and spawn rate (tenths of a
/// star per second).
#[derive(Clone, Copy, PartialEq, Eq, Structural, Debug)]
pub struct GameDifficulty {
    pub star_speed: u32,
    pub spawn_rate_tenths: u32,
}

impl GameDifficulty {
    /// Every speed and rate the update rule can produce stays inside
    /// these bounds; the physics and the spawn timer lean on them.
    pub open spec fn wf(self) -> bool {
        &&& BASE_STAR_SPEED <= self.star_speed <= MAX_STAR_SPEED
        &&& BASE_SPAWN_RATE_TENTHS <= self.spawn_rate_tenths
    }

    /// The difficulty every game starts from: the level-zero speed and
    /// rate.
    pub open spec fn initial() -> GameDifficulty {
        GameDifficulty { star_speed: BASE_STAR_SPEED, spawn_rate_tenths: BASE_SPAWN_RATE_TENTHS }
    }

    pub fn new() -> (d: GameDifficulty)
        ensures
            d == GameDifficulty::initial(),
            d.wf(),
    {
        GameDifficulty { star_speed: BASE_STAR_SPEED, spawn_rate_tenths: BASE_SPAWN_RATE_TENTHS }
    }

    /// Recompute both knobs from the score: speed and rate each rise by
    /// one fixed step per `POINTS_PER_LEVEL` points, from their level
    /// zero values.
    pub fn increase_difficulty(&mut self, score: u32)
        ensures
            final(self).star_speed == star_speed_for(score),
            final(self).spawn_rate_tenths == spawn_rate_tenths_for(score),
            final(self).wf(),
    {
        proof {
            lemma_level_bounded(score);
        }
        let level = score / POINTS_PER_LEVEL;
        self.star_speed = BASE_STAR_SPEED + SPEED_STEP * level;
        self.spawn_rate_tenths = BASE_SPAWN_RATE_TENTHS + RATE_STEP_TENTHS * level;
    }
}

/// The scaling law, written out: for every score, the star speed is
/// `100 + 20 * (score / 50)` world units per second and the spawn rate
/// is `1.0 + 0.2 * (score / 50)` stars per second — held here in
/// tenths, so `10 + 2 * (score / 50)`.
pub proof fn lemma_difficulty_scaling(score: u32)
    ensures
        star_speed_for(score) == 100 + 20 * (score as int / 50),
        spawn_rate_tenths_for(score) == 10 + 2 * (score as int / 50),
{
}

/// The difficulty level of any `u32` score fits in the bounds that keep
/// the speed and rate updates inside `u32`.
pub proof fn lemma_level_bounded(score: u32)
    ensures
        0 <= level_for(score) <= u32::MAX as int / POINTS_PER_LEVEL as int,
        star_speed_for(score) <= MAX_STAR_SPEED,
        spawn_rate_tenths_for(score) <= u32::MAX,
{
    vstd::arithmetic::div_mod::lemma_fundamental_div_mod(score as int, POINTS_PER_LEVEL as int);
}

} // verus!
