//! The playing state itself: the world the systems act on each frame,
//! and the per-frame systems — spawning, collection, misses, the
//! game-over check — stitched together by [`playing_update`].

use vstd::prelude::*;
use rand::Rng;
use crate::difficulty::{GameDifficulty, spawn_rate_tenths_for, star_speed_for};
use crate::physics::{
    clamp_player_x, collides, move_direction, move_stars, player_movement, star_after_fall,
    star_collides, Player, Star, MISS_Y_MILLI, PLAYER_SPEED, STAR_MAX_X_MILLI,
    STAR_MIN_X_MILLI, STAR_SPAWN_Y_MILLI,
};
use crate::score::{sat_add_u32, sat_sub_u32, GameScore, CATCH_POINTS};
use crate::state::GameState;
use crate::timer::{spawn_period_ms, spawn_period_ms_for, tick_elapsed, tick_finishes, SpawnTimer};

verus! {

/// The keys that matter while playing: the two arrows that steer the
/// basket.
#[derive(Clone, Copy, PartialEq, Eq, Structural, Debug)]
pub struct FrameInput {
    pub left_pressed: bool,
    pub right_pressed: bool,
}

/// The stars that are not close enough to the basket to be caught, in
/// their original order.
pub open spec fn survivors(player_x_milli: int, stars: Seq<Star>) -> Seq<Star> {
    stars.filter(|s: Star| !collides(player_x_milli, s))
}

/// The stars still above the miss line, in their original order.
pub open spec fn still_falling(stars: Seq<Star>) -> Seq<Star> {
    stars.filter(|s: Star| s.y_milli >= MISS_Y_MILLI)
}

/// Relies on `rand::Rng::gen_range` (via `rand::thread_rng`): a draw
/// from a nonempty half-open integer range lies inside that range.
#[verifier::external_body]
fn random_star_x_milli() -> (x: i64)
    ensures
        STAR_MIN_X_MILLI <= x < STAR_MAX_X_MILLI,
{
    rand::thread_rng().gen_range(STAR_MIN_X_MILLI..STAR_MAX_X_MILLI)
}

/// Whether the spawn timer crosses a period boundary this frame, with
/// the period the current difficulty asks for.
pub open spec fn spawn_due(timer: SpawnTimer, difficulty: GameDifficulty, dt_ms: u32) -> bool {
    tick_finishes(timer.elapsed_ms, dt_ms, spawn_period_ms_for(difficulty.spawn_rate_tenths))
}

/// Advance the spawn timer by one frame and, when a period elapses,
/// drop one new star at a random horizontal position on the spawn line,
/// falling at the current difficulty's speed.
pub fn spawn_stars(
    timer: &mut SpawnTimer,
    stars: &mut Vec<Star>,
    difficulty: &GameDifficulty,
    dt_ms: u32,
)
    requires
        difficulty.wf(),
    ensures
        final(timer).elapsed_ms == tick_elapsed(
            old(timer).elapsed_ms,
            dt_ms,
            spawn_period_ms_for(difficulty.spawn_rate_tenths),
        ),
        !spawn_due(*old(timer), *difficulty, dt_ms) ==> final(stars)@ == old(stars)@,
        spawn_due(*old(timer), *difficulty, dt_ms) ==> final(stars)@.len() == old(stars)@.len()
            + 1,
        spawn_due(*old(timer), *difficulty, dt_ms) ==> final(stars)@.subrange(
            0,
            old(stars)@.len() as int,
        ) == old(stars)@,
        spawn_due(*old(timer), *difficulty, dt_ms) ==> {
            &&& STAR_MIN_X_MILLI <= final(stars)@.last().x_milli < STAR_MAX_X_MILLI
            &&& final(stars)@.last().y_milli == STAR_SPAWN_Y_MILLI
            &&& final(stars)@.last().speed == difficulty.star_speed
            &&& final(stars)@.last().wf()
        },
{
    let period = spawn_period_ms(difficulty);
    if timer.tick(dt_ms, period) {
        let x = random_star_x_milli();
        stars.push(Star { x_milli: x, y_milli: STAR_SPAWN_Y_MILLI, speed: difficulty.star_speed });
        proof {
            assert(stars@.subrange(0, old(stars)@.len() as int) =~= old(stars)@);
        }
    }
}

/// Sweep the stars once against the basket: every star within the
/// catch distance is removed and scores `CATCH_POINTS` points, exactly
/// once each; the rest keep their order.  Lives and the miss counter do
/// not move.
pub fn check_star_collection(player: &Player, stars: &mut Vec<Star>, score: &mut GameScore)
    requires
        player.wf(),
    ensures
        final(stars)@ == survivors(player.x_milli as int, old(stars)@),
        final(stars)@.len() <= old(stars)@.len(),
        final(score).value == sat_add_u32(
            old(score).value as int,
            CATCH_POINTS * (old(stars)@.len() - final(stars)@.len()),
        ),
        final(score).lives == old(score).lives,
        final(score).stars_missed == old(score).stars_missed,
        forall|j: int|
            0 <= j < final(stars)@.len() ==> old(stars)@.contains(#[trigger] final(stars)@[j]),
{
    let ghost orig = stars@;
    let ghost px = player.x_milli as int;
    let mut kept: Vec<Star> = Vec::new();
    let mut i: usize = 0;
    proof {
        assert(orig.take(0) =~= Seq::<Star>::empty());
        reveal(Seq::filter);
    }
    while i < stars.len()
        invariant
            stars@ == orig,
            i <= orig.len(),
            player.wf(),
            px == player.x_milli as int,
            kept@ == survivors(px, orig.take(i as int)),
            kept@.len() <= i,
            score.value == sat_add_u32(old(score).value as int, CATCH_POINTS * (i - kept@.len())),
            score.lives == old(score).lives,
            score.stars_missed == old(score).stars_missed,
            forall|j: int| 0 <= j < kept@.len() ==> orig.contains(#[trigger] kept@[j]),
        decreases orig.len() - i,
    {
        let s: Star = stars[i];
        proof {
            reveal(Seq::filter);
            assert(orig.take(i + 1).drop_last() =~= orig.take(i as int));
            assert(orig.take(i + 1).last() == orig[i as int]);
        }
        if star_collides(player.x_milli, &s) {
            score.record_catch();
        } else {
            kept.push(s);
            proof {
                assert(orig.contains(s)) by {
                    assert(orig[i as int] == s);
                }
            }
        }
        i = i + 1;
    }
    proof {
        assert(orig.take(orig.len() as int) =~= orig);
    }
    *stars = kept;
}

/// Sweep the stars once against the floor: every star below the miss
/// line is removed, counts one miss, and costs one life (never dropping
/// lives below zero), exactly once each; the rest keep their order.
/// The score value does not move.
pub fn check_star_missed(stars: &mut Vec<Star>, score: &mut GameScore)
    ensures
        final(stars)@ == still_falling(old(stars)@),
        final(stars)@.len() <= old(stars)@.len(),
        final(score).stars_missed == sat_add_u32(
            old(score).stars_missed as int,
            old(stars)@.len() - final(stars)@.len(),
        ),
        final(score).lives == sat_sub_u32(
            old(score).lives as int,
            old(stars)@.len() - final(stars)@.len(),
        ),
        final(score).value == old(score).value,
        forall|j: int|
            0 <= j < final(stars)@.len() ==> old(stars)@.contains(#[trigger] final(stars)@[j]),
        forall|j: int|
            0 <= j < final(stars)@.len() ==> (#[trigger] final(stars)@[j]).y_milli
                >= MISS_Y_MILLI,
{
    let ghost orig = stars@;
    let mut kept: Vec<Star> = Vec::new();
    let mut i: usize = 0;
    proof {
        assert(orig.take(0) =~= Seq::<Star>::empty());
        reveal(Seq::filter);
    }
    while i < stars.len()
        invariant
            stars@ == orig,
            i <= orig.len(),
            kept@ == still_falling(orig.take(i as int)),
            kept@.len() <= i,
            score.stars_missed == sat_add_u32(
                old(score).stars_missed as int,
                (i - kept@.len()) as int,
            ),
            score.lives == sat_sub_u32(old(score).lives as int, (i - kept@.len()) as int),
            score.value == old(score).value,
            forall|j: int| 0 <= j < kept@.len() ==> orig.contains(#[trigger] kept@[j]),
            forall|j: int| 0 <= j < kept@.len() ==> (#[trigger] kept@[j]).y_milli >= MISS_Y_MILLI,
        decreases orig.len() - i,
    {
        let s: Star = stars[i];
        proof {
            reveal(Seq::filter);
            assert(orig.take(i + 1).drop_last() =~= orig.take(i as int));
            assert(orig.take(i + 1).last() == orig[i as int]);
        }
        if s.y_milli < MISS_Y_MILLI {
            score.record_miss();
        } else {
            kept.push(s);
            proof {
                assert(orig.contains(s)) by {
                    assert(orig[i as int] == s);
                }
            }
        }
        i = i + 1;
    }
    proof {
        assert(orig.take(orig.len() as int) =~= orig);
    }
    *stars = kept;
}

/// The game ends the moment no life is left.
pub fn check_game_over(score: &GameScore) -> (next: Option<GameState>)
    ensures
        next == if score.lives == 0 {
            Some(GameState::GameOver)
        } else {
            None::<GameState>
        },
{
    if score.lives == 0 {
        Some(GameState::GameOver)
    } else {
        None
    }
}

/// Everything the playing state owns: the basket, the stars in the
/// air, the spawn clock, the counters and the difficulty knobs.
#[derive(Debug)]
pub struct PlayingWorld {
    pub player: Player,
    pub stars: Vec<Star>,
    pub timer: SpawnTimer,
    pub score: GameScore,
    pub difficulty: GameDifficulty,
}

impl PlayingWorld {
    /// What holds of the world between frames.
    pub open spec fn wf(self) -> bool {
        &&& self.player.wf()
        &&& self.difficulty.wf()
        &&& forall|i: int| 0 <= i < self.stars@.len() ==> (#[trigger] self.stars@[i]).wf()
    }
}

/// Start a game: counters and difficulty at their starting values, the
/// basket at the centre, no stars in the air, the spawn clock at zero.
pub fn setup_game() -> (w: PlayingWorld)
    ensures
        w.wf(),
        w.score == GameScore::initial(),
        w.difficulty == GameDifficulty::initial(),
        w.player.x_milli == 0,
        w.stars@ == Seq::<Star>::empty(),
        w.timer.elapsed_ms == 0,
{
    PlayingWorld {
        player: Player::new(),
        stars: Vec::new(),
        timer: SpawnTimer::new(),
        score: GameScore::new(),
        difficulty: GameDifficulty::new(),
    }
}

/// Where the basket stands after one frame's steering.
pub open spec fn step_player_x(w: PlayingWorld, input: FrameInput, dt_ms: u32) -> int {
    clamp_player_x(
        w.player.x_milli + move_direction(input.left_pressed, input.right_pressed) * PLAYER_SPEED
            * dt_ms,
    )
}

/// The stars in the air once the spawn clock has been consulted, given
/// the horizontal position `x` the new star (if one is due) lands at.
pub open spec fn step_spawned_stars(w: PlayingWorld, dt_ms: u32, x: i64) -> Seq<Star> {
    if spawn_due(w.timer, w.difficulty, dt_ms) {
        w.stars@.push(Star { x_milli: x, y_milli: STAR_SPAWN_Y_MILLI, speed: w.difficulty.star_speed })
    } else {
        w.stars@
    }
}

/// Those stars after falling for one frame.
pub open spec fn step_moved_stars(w: PlayingWorld, dt_ms: u32, x: i64) -> Seq<Star> {
    step_spawned_stars(w, dt_ms, x).map_values(|s: Star| star_after_fall(s, dt_ms))
}

/// Those stars less the ones the basket caught.
pub open spec fn step_surviving_stars(w: PlayingWorld, input: FrameInput, dt_ms: u32, x: i64) -> Seq<
    Star,
> {
    survivors(step_player_x(w, input, dt_ms), step_moved_stars(w, dt_ms, x))
}

/// The stars left at the end of the frame: also less the ones that
/// fell past the miss line.
pub open spec fn step_final_stars(w: PlayingWorld, input: FrameInput, dt_ms: u32, x: i64) -> Seq<
    Star,
> {
    still_falling(step_surviving_stars(w, input, dt_ms, x))
}

/// The counters at the end of the frame: `CATCH_POINTS` per caught
/// star, one miss and one life (saturating) per star past the line.
pub open spec fn step_score(w: PlayingWorld, input: FrameInput, dt_ms: u32, x: i64) -> GameScore {
    let caught = step_moved_stars(w, dt_ms, x).len() - step_surviving_stars(
        w,
        input,
        dt_ms,
        x,
    ).len();
    let missed = step_surviving_stars(w, input, dt_ms, x).len() - step_final_stars(
        w,
        input,
        dt_ms,
        x,
    ).len();
    GameScore {
        value: sat_add_u32(w.score.value as int, CATCH_POINTS * caught) as u32,
        lives: sat_sub_u32(w.score.lives as int, missed as int) as u32,
        stars_missed: sat_add_u32(w.score.stars_missed as int, missed as int) as u32,
    }
}

/// A star that appeared in the spawn band and has not risen: what stays
/// true of a star from spawn to removal, apart from the miss line.
pub open spec fn star_in_band(s: Star) -> bool {
    &&& STAR_MIN_X_MILLI <= s.x_milli < STAR_MAX_X_MILLI
    &&& s.y_milli <= STAR_SPAWN_Y_MILLI
    &&& s.speed <= crate::difficulty::MAX_STAR_SPEED
}

/// One frame of play, in the order the engine runs the systems: steer
/// the basket, consult the spawn clock, let the stars fall, collect
/// catches, charge misses, rescale the difficulty from the new score,
/// and see whether the game is over.
///
/// The spawn position of a new star is drawn at random, so the world
/// after the frame is pinned down up to that one draw: there is some
/// in-range `x` for which the stars and counters are exactly the
/// step functions' values.  The game is over exactly when no life is
/// left.
pub fn playing_update(w: &mut PlayingWorld, input: FrameInput, dt_ms: u32) -> (next: Option<
    GameState,
>)
    requires
        old(w).wf(),
    ensures
        final(w).wf(),
        final(w).player.x_milli == step_player_x(*old(w), input, dt_ms),
        final(w).timer.elapsed_ms == tick_elapsed(
            old(w).timer.elapsed_ms,
            dt_ms,
            spawn_period_ms_for(old(w).difficulty.spawn_rate_tenths),
        ),
        exists|x: i64|
            STAR_MIN_X_MILLI <= x < STAR_MAX_X_MILLI && final(w).stars@ == #[trigger] step_final_stars(
                *old(w),
                input,
                dt_ms,
                x,
            ) && final(w).score == step_score(*old(w), input, dt_ms, x),
        final(w).difficulty.star_speed == star_speed_for(final(w).score.value),
        final(w).difficulty.spawn_rate_tenths == spawn_rate_tenths_for(final(w).score.value),
        next == if final(w).score.lives == 0 {
            Some(GameState::GameOver)
        } else {
            None::<GameState>
        },
{
    player_movement(&mut w.player, input.left_pressed, input.right_pressed, dt_ms);
    spawn_stars(&mut w.timer, &mut w.stars, &w.difficulty, dt_ms);
    let ghost xw: i64 = if spawn_due(old(w).timer, old(w).difficulty, dt_ms) {
        w.stars@.last().x_milli
    } else {
        STAR_MIN_X_MILLI
    };
    proof {
        assert(w.stars@ =~= step_spawned_stars(*old(w), dt_ms, xw));
        assert(forall|i: int|
            0 <= i < w.stars@.len() ==> (#[trigger] w.stars@[i]).wf());
    }
    move_stars(&mut w.stars, dt_ms);
    proof {
        assert(w.stars@ == step_moved_stars(*old(w), dt_ms, xw));
        assert forall|i: int| 0 <= i < w.stars@.len() implies star_in_band(
            #[trigger] w.stars@[i],
        ) by {
            let before = step_spawned_stars(*old(w), dt_ms, xw)[i];
            vstd::arithmetic::mul::lemma_mul_nonnegative(before.speed as int, dt_ms as int);
        }
    }
    check_star_collection(&w.player, &mut w.stars, &mut w.score);
    proof {
        assert(w.stars@ == step_surviving_stars(*old(w), input, dt_ms, xw));
    }
    check_star_missed(&mut w.stars, &mut w.score);
    proof {
        assert(w.stars@ == step_final_stars(*old(w), input, dt_ms, xw));
        assert(w.score == step_score(*old(w), input, dt_ms, xw));
    }
    let score_value = w.score.value;
    w.difficulty.increase_difficulty(score_value);
    proof {
        assert(forall|i: int|
            0 <= i < w.stars@.len() ==> (#[trigger] w.stars@[i]).wf());
    }
    check_game_over(&w.score)
}

} // verus!
