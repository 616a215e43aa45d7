//! The playing field: the player's basket, the falling stars, and the
//! distance rule that decides a catch.
//!
//! Positions are fixed point, in thousandths of a world unit
//! ("milli-units").  Speeds are whole world units per second and frame
//! times are milliseconds, so a body moving at `speed` for `dt_ms`
//! milliseconds travels exactly `speed * dt_ms` milli-units.

use vstd::prelude::*;
use crate::difficulty::MAX_STAR_SPEED;

verus! {

/// Height at which the basket slides, in milli-units (-250 units).
pub const PLAYER_Y_MILLI: i64 = -250_000;

/// Leftmost basket position, in milli-units (-360 units).
pub const PLAYER_MIN_X_MILLI: i64 = -360_000;

/// Rightmost basket position, in milli-units (360 units).
pub const PLAYER_MAX_X_MILLI: i64 = 360_000;

/// Basket speed, in world units per second.
pub const PLAYER_SPEED: u32 = 300;

/// Leftmost horizontal position a star can appear at (-350 units).
pub const STAR_MIN_X_MILLI: i64 = -350_000;

/// Stars appear strictly left of this position (350 units).
pub const STAR_MAX_X_MILLI: i64 = 350_000;

/// Height at which stars appear, in milli-units (300 units).
pub const STAR_SPAWN_Y_MILLI: i64 = 300_000;

/// A star whose centre drops below this height is missed (-320 units).
pub const MISS_Y_MILLI: i64 = -320_000;

/// A star closer to the basket than this distance is caught (50 units).
pub const CATCH_DIST_MILLI: i64 = 50_000;

/// The player's basket; it only ever moves horizontally, at the fixed
/// height `PLAYER_Y_MILLI`.
#[derive(Clone, Copy, PartialEq, Eq, Structural, Debug)]
pub struct Player {
    pub x_milli: i64,
}

/// One falling star: where it is and how fast it falls.  The speed is
/// fixed at spawn time from the difficulty of that moment.
#[derive(Clone, Copy, PartialEq, Eq, Structural, Debug)]
pub struct Star {
    pub x_milli: i64,
    pub y_milli: i64,
    pub speed: u32,
}

impl Player {
    /// The basket never leaves the screen.
    pub open spec fn wf(self) -> bool {
        PLAYER_MIN_X_MILLI <= self.x_milli <= PLAYER_MAX_X_MILLI
    }

    /// A basket at the centre of the screen, where a game starts.
    pub fn new() -> (p: Player)
        ensures
            p.x_milli == 0,
            p.wf(),
    {
        Player { x_milli: 0 }
    }
}

impl Star {
    /// What holds of every star between frames: it appeared inside the
    /// spawn band, it has not yet been removed as missed, it cannot be
    /// above the spawn height, and its speed came from the difficulty.
    pub open spec fn wf(self) -> bool {
        &&& STAR_MIN_X_MILLI <= self.x_milli < STAR_MAX_X_MILLI
        &&& MISS_Y_MILLI <= self.y_milli <= STAR_SPAWN_Y_MILLI
        &&& self.speed <= MAX_STAR_SPEED
    }
}

/// `-1`, `0` or `1`: the horizontal direction the held arrow keys ask
/// for; both or neither cancel out.
pub open spec fn move_direction(left_pressed: bool, right_pressed: bool) -> int {
    (if right_pressed {
        1int
    } else {
        0int
    }) - (if left_pressed {
        1int
    } else {
        0int
    })
}

/// The basket position snapped back onto the screen.
pub open spec fn clamp_player_x(x: int) -> int {
    if x < PLAYER_MIN_X_MILLI {
        PLAYER_MIN_X_MILLI as int
    } else if x > PLAYER_MAX_X_MILLI {
        PLAYER_MAX_X_MILLI as int
    } else {
        x
    }
}

/// Slide the basket for one frame: it moves `PLAYER_SPEED` units per
/// second in the direction the arrow keys ask for, then is clamped to
/// the screen.
pub fn player_movement(player: &mut Player, left_pressed: bool, right_pressed: bool, dt_ms: u32)
    requires
        old(player).wf(),
    ensures
        final(player).x_milli == clamp_player_x(
            old(player).x_milli + move_direction(left_pressed, right_pressed) * PLAYER_SPEED
                * dt_ms,
        ),
        final(player).wf(),
{
    proof {
        assert(0 <= (PLAYER_SPEED as int) * (dt_ms as int) <= 1_288_490_188_500)
            by (nonlinear_arith)
            requires
                PLAYER_SPEED == 300,
                0 <= dt_ms as int <= 4_294_967_295,
        ;
    }
    let step: i64 = (PLAYER_SPEED as i64) * (dt_ms as i64);
    let delta: i64 = if right_pressed && !left_pressed {
        step
    } else if left_pressed && !right_pressed {
        -step
    } else {
        0
    };
    proof {
        let sp = PLAYER_SPEED as int;
        let dtv = dt_ms as int;
        let dirv = move_direction(left_pressed, right_pressed);
        assert(delta == dirv * sp * dtv) by (nonlinear_arith)
            requires
                dirv == (if right_pressed {
                    1int
                } else {
                    0int
                }) - (if left_pressed {
                    1int
                } else {
                    0int
                }),
                delta == (if right_pressed && !left_pressed {
                    sp * dtv
                } else if left_pressed && !right_pressed {
                    -(sp * dtv)
                } else {
                    0int
                }),
        ;
        assert(-1_288_490_188_500 <= delta <= 1_288_490_188_500) by (nonlinear_arith)
            requires
                delta == dirv * sp * dtv,
                sp == 300,
                -1 <= dirv <= 1,
                0 <= dtv <= 4_294_967_295,
        ;
    }
    let moved: i64 = player.x_milli + delta;
    player.x_milli = if moved < PLAYER_MIN_X_MILLI {
        PLAYER_MIN_X_MILLI
    } else if moved > PLAYER_MAX_X_MILLI {
        PLAYER_MAX_X_MILLI
    } else {
        moved
    };
}

/// Whether a star is close enough to the basket to be caught: the
/// squared Euclidean distance between the two centres is under the
/// squared catch radius.
pub open spec fn collides(player_x_milli: int, s: Star) -> bool {
    let dx = player_x_milli - s.x_milli;
    let dy = PLAYER_Y_MILLI - s.y_milli;
    dx * dx + dy * dy < CATCH_DIST_MILLI * CATCH_DIST_MILLI
}

/// Decide a catch for one star.  Far coordinates are rejected by
/// comparison alone, so no arithmetic here can overflow whatever the
/// star's position is.
pub fn star_collides(player_x_milli: i64, star: &Star) -> (c: bool)
    requires
        PLAYER_MIN_X_MILLI <= player_x_milli <= PLAYER_MAX_X_MILLI,
    ensures
        c == collides(player_x_milli as int, *star),
{
    if star.x_milli <= player_x_milli - CATCH_DIST_MILLI || star.x_milli >= player_x_milli
        + CATCH_DIST_MILLI {
        proof {
            let dx = player_x_milli - star.x_milli;
            assert(dx * dx >= CATCH_DIST_MILLI * CATCH_DIST_MILLI) by (nonlinear_arith)
                requires
                    dx <= -50_000 || dx >= 50_000,
            ;
            let dy = PLAYER_Y_MILLI - star.y_milli;
            assert(dy * dy >= 0) by (nonlinear_arith);
        }
        false
    } else if star.y_milli <= PLAYER_Y_MILLI - CATCH_DIST_MILLI || star.y_milli >= PLAYER_Y_MILLI
        + CATCH_DIST_MILLI {
        proof {
            let dy = PLAYER_Y_MILLI - star.y_milli;
            assert(dy * dy >= CATCH_DIST_MILLI * CATCH_DIST_MILLI) by (nonlinear_arith)
                requires
                    dy <= -50_000 || dy >= 50_000,
            ;
            let dx = player_x_milli - star.x_milli;
            assert(dx * dx >= 0) by (nonlinear_arith);
        }
        false
    } else {
        proof {
            let dx = player_x_milli - star.x_milli;
            let dy = PLAYER_Y_MILLI - star.y_milli;
            assert(dx * dx < 2_500_000_000 && dy * dy < 2_500_000_000) by (nonlinear_arith)
                requires
                    -50_000 < dx < 50_000,
                    -50_000 < dy < 50_000,
            ;
            assert(dx * dx >= 0 && dy * dy >= 0) by (nonlinear_arith);
        }
        let dx = player_x_milli - star.x_milli;
        let dy = PLAYER_Y_MILLI - star.y_milli;
        dx * dx + dy * dy < CATCH_DIST_MILLI * CATCH_DIST_MILLI
    }
}

/// Where a star stands after falling for `dt_ms` milliseconds.
pub open spec fn star_after_fall(s: Star, dt_ms: u32) -> Star {
    Star { x_milli: s.x_milli, y_milli: (s.y_milli - s.speed * dt_ms) as i64, speed: s.speed }
}

/// Drop every star by its own speed for one frame; nothing else about
/// a star changes and none is added or removed.
pub fn move_stars(stars: &mut Vec<Star>, dt_ms: u32)
    requires
        forall|i: int| 0 <= i < old(stars)@.len() ==> (#[trigger] old(stars)@[i]).wf(),
    ensures
        final(stars)@ == old(stars)@.map_values(|s: Star| star_after_fall(s, dt_ms)),
        final(stars)@.len() == old(stars)@.len(),
        forall|i: int|
            0 <= i < old(stars)@.len() ==> (#[trigger] final(stars)@[i]).y_milli == old(
                stars,
            )@[i].y_milli - old(stars)@[i].speed * dt_ms,
{
    let ghost orig = stars@;
    let mut moved: Vec<Star> = Vec::new();
    let mut i: usize = 0;
    while i < stars.len()
        invariant
            stars@ == orig,
            i <= orig.len(),
            moved@.len() == i,
            forall|j: int| 0 <= j < orig.len() ==> (#[trigger] orig[j]).wf(),
            forall|j: int| 0 <= j < i ==> #[trigger] moved@[j] == star_after_fall(orig[j], dt_ms),
            forall|j: int|
                0 <= j < i ==> (#[trigger] moved@[j]).y_milli == orig[j].y_milli - orig[j].speed
                    * dt_ms,
        decreases orig.len() - i,
    {
        let s: Star = stars[i];
        proof {
            vstd::arithmetic::mul::lemma_mul_upper_bound(
                s.speed as int,
                MAX_STAR_SPEED as int,
                dt_ms as int,
                u32::MAX as int,
            );
        }
        let fall: i64 = (s.speed as i64) * (dt_ms as i64);
        let y2: i64 = s.y_milli - fall;
        moved.push(Star { x_milli: s.x_milli, y_milli: y2, speed: s.speed });
        i = i + 1;
    }
    *stars = moved;
    proof {
        assert(stars@ =~= orig.map_values(|s: Star| star_after_fall(s, dt_ms)));
    }
}

} // verus!
