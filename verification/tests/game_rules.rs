use star_catcher::difficulty::GameDifficulty;
use star_catcher::physics::{move_stars, player_movement, star_collides, Player, Star};
use star_catcher::score::GameScore;
use star_catcher::state::{game_over_input, menu_input, GameState};
use star_catcher::timer::{spawn_period_ms, SpawnTimer};
use star_catcher::world::{
    check_game_over, check_star_collection, check_star_missed, playing_update, setup_game,
    spawn_stars, FrameInput, PlayingWorld,
};

fn world_with(stars: Vec<Star>, score: GameScore) -> PlayingWorld {
    PlayingWorld {
        player: Player { x_milli: 0 },
        stars,
        timer: SpawnTimer { elapsed_ms: 0 },
        score,
        difficulty: GameDifficulty {
            star_speed: 100,
            spawn_rate_tenths: 10,
        },
    }
}

#[test]
fn difficulty_starts_at_level_zero() {
    let mut d = GameDifficulty::new();
    assert_eq!(d.star_speed, 100);
    assert_eq!(d.spawn_rate_tenths, 10);
    d.increase_difficulty(0);
    assert_eq!(d.star_speed, 100);
    assert_eq!(d.spawn_rate_tenths, 10);
    d.increase_difficulty(49);
    assert_eq!(d.star_speed, 100);
    assert_eq!(d.spawn_rate_tenths, 10);
}

#[test]
fn difficulty_steps_every_fifty_points() {
    let mut d = GameDifficulty::new();
    d.increase_difficulty(50);
    assert_eq!(d.star_speed, 120);
    assert_eq!(d.spawn_rate_tenths, 12);
    d.increase_difficulty(250);
    assert_eq!(d.star_speed, 200);
    assert_eq!(d.spawn_rate_tenths, 20);
    d.increase_difficulty(1000);
    assert_eq!(d.star_speed, 500);
    assert_eq!(d.spawn_rate_tenths, 50);
}

#[test]
fn spawn_period_follows_rate() {
    let d = GameDifficulty {
        star_speed: 100,
        spawn_rate_tenths: 10,
    };
    assert_eq!(spawn_period_ms(&d), 1000);
    let faster = GameDifficulty {
        star_speed: 120,
        spawn_rate_tenths: 12,
    };
    assert_eq!(spawn_period_ms(&faster), 833);
    let fastest = GameDifficulty {
        star_speed: 200,
        spawn_rate_tenths: 25,
    };
    assert_eq!(spawn_period_ms(&fastest), 400);
}

#[test]
fn menu_space_starts_game() {
    assert_eq!(menu_input(true), Some(GameState::Playing));
    assert_eq!(menu_input(false), None);
}

#[test]
fn game_over_keys() {
    assert_eq!(game_over_input(true, false), (Some(GameState::Menu), false));
    assert_eq!(game_over_input(false, true), (None, true));
    assert_eq!(game_over_input(false, false), (None, false));
    assert_eq!(game_over_input(true, true), (Some(GameState::Menu), true));
}

#[test]
fn entering_playing_resets_counters() {
    let w = setup_game();
    assert_eq!(w.score.value, 0);
    assert_eq!(w.score.lives, 3);
    assert_eq!(w.score.stars_missed, 0);
    assert_eq!(w.difficulty.star_speed, 100);
    assert_eq!(w.difficulty.spawn_rate_tenths, 10);
    assert_eq!(w.player.x_milli, 0);
    assert!(w.stars.is_empty());
    assert_eq!(w.timer.elapsed_ms, 0);

    let mut score = GameScore {
        value: 70,
        lives: 1,
        stars_missed: 2,
    };
    score.reset();
    assert_eq!(score.value, 0);
    assert_eq!(score.lives, 3);
    assert_eq!(score.stars_missed, 0);
}

#[test]
fn lives_never_drop_below_zero() {
    let mut score = GameScore {
        value: 0,
        lives: 1,
        stars_missed: 0,
    };
    score.record_miss();
    assert_eq!(score.lives, 0);
    assert_eq!(score.stars_missed, 1);
    score.record_miss();
    assert_eq!(score.lives, 0);
    assert_eq!(score.stars_missed, 2);
}

#[test]
fn near_star_is_caught_for_ten_points() {
    let player = Player { x_milli: 0 };
    let near = Star {
        x_milli: 10_000,
        y_milli: -240_000,
        speed: 100,
    };
    let far = Star {
        x_milli: 60_000,
        y_milli: -250_000,
        speed: 100,
    };
    assert!(star_collides(0, &near));
    assert!(!star_collides(0, &far));

    let mut stars = vec![near, far];
    let mut score = GameScore {
        value: 0,
        lives: 3,
        stars_missed: 0,
    };
    check_star_collection(&player, &mut stars, &mut score);
    assert_eq!(score.value, 10);
    assert_eq!(score.lives, 3);
    assert_eq!(score.stars_missed, 0);
    assert_eq!(stars, vec![far]);
}

#[test]
fn catch_distance_boundary_is_strict() {
    // Exactly 50 units away in one axis: not a catch.
    let at_fifty = Star {
        x_milli: 50_000,
        y_milli: -250_000,
        speed: 100,
    };
    assert!(!star_collides(0, &at_fifty));
    let just_inside = Star {
        x_milli: 49_999,
        y_milli: -250_000,
        speed: 100,
    };
    assert!(star_collides(0, &just_inside));
}

#[test]
fn star_below_floor_costs_one_life() {
    let below = Star {
        x_milli: 0,
        y_milli: -320_001,
        speed: 100,
    };
    let on_line = Star {
        x_milli: 1_000,
        y_milli: -320_000,
        speed: 100,
    };
    let mut stars = vec![below, on_line];
    let mut score = GameScore {
        value: 40,
        lives: 3,
        stars_missed: 0,
    };
    check_star_missed(&mut stars, &mut score);
    assert_eq!(score.lives, 2);
    assert_eq!(score.stars_missed, 1);
    assert_eq!(score.value, 40);
    assert_eq!(stars, vec![on_line]);
}

#[test]
fn stars_fall_by_speed_times_time() {
    let mut stars = vec![Star {
        x_milli: 0,
        y_milli: 300_000,
        speed: 100,
    }];
    move_stars(&mut stars, 16);
    assert_eq!(stars[0].y_milli, 298_400);
    assert_eq!(stars[0].x_milli, 0);
    assert_eq!(stars[0].speed, 100);
}

#[test]
fn player_moves_and_clamps() {
    let mut p = Player { x_milli: 0 };
    player_movement(&mut p, false, true, 1000);
    assert_eq!(p.x_milli, 300_000);
    player_movement(&mut p, false, true, 1000);
    assert_eq!(p.x_milli, 360_000);
    let mut q = Player { x_milli: -360_000 };
    player_movement(&mut q, true, false, 1000);
    assert_eq!(q.x_milli, -360_000);
}

#[test]
fn opposite_keys_cancel() {
    let mut p = Player { x_milli: 12_345 };
    player_movement(&mut p, true, true, 1000);
    assert_eq!(p.x_milli, 12_345);
    player_movement(&mut p, false, false, 1000);
    assert_eq!(p.x_milli, 12_345);
}

#[test]
fn spawn_timer_rolls_over() {
    let mut t = SpawnTimer::new();
    assert!(!t.tick(600, 1000));
    assert_eq!(t.elapsed_ms, 600);
    assert!(t.tick(600, 1000));
    assert_eq!(t.elapsed_ms, 200);
}

#[test]
fn spawned_stars_land_in_the_band() {
    for _ in 0..50 {
        let mut timer = SpawnTimer { elapsed_ms: 0 };
        let mut stars: Vec<Star> = Vec::new();
        let d = GameDifficulty {
            star_speed: 120,
            spawn_rate_tenths: 10,
        };
        spawn_stars(&mut timer, &mut stars, &d, 1000);
        assert_eq!(stars.len(), 1);
        assert!(stars[0].x_milli >= -350_000);
        assert!(stars[0].x_milli < 350_000);
        assert_eq!(stars[0].y_milli, 300_000);
        assert_eq!(stars[0].speed, 120);
    }
}

#[test]
fn no_spawn_before_period() {
    let mut timer = SpawnTimer { elapsed_ms: 0 };
    let mut stars: Vec<Star> = Vec::new();
    let d = GameDifficulty {
        star_speed: 100,
        spawn_rate_tenths: 10,
    };
    spawn_stars(&mut timer, &mut stars, &d, 999);
    assert!(stars.is_empty());
    assert_eq!(timer.elapsed_ms, 999);
}

#[test]
fn score_saturates_at_counter_top() {
    let player = Player { x_milli: 0 };
    let near = Star {
        x_milli: 0,
        y_milli: -250_000,
        speed: 100,
    };
    let mut stars = vec![near];
    let mut score = GameScore {
        value: u32::MAX - 5,
        lives: 3,
        stars_missed: 0,
    };
    check_star_collection(&player, &mut stars, &mut score);
    assert_eq!(score.value, u32::MAX);
}

#[test]
fn each_caught_star_scores_once() {
    let player = Player { x_milli: 0 };
    let first = Star {
        x_milli: -10_000,
        y_milli: -250_000,
        speed: 100,
    };
    let second = Star {
        x_milli: 10_000,
        y_milli: -260_000,
        speed: 100,
    };
    let mut stars = vec![first, second];
    let mut score = GameScore {
        value: 0,
        lives: 3,
        stars_missed: 0,
    };
    check_star_collection(&player, &mut stars, &mut score);
    assert_eq!(score.value, 20);
    assert!(stars.is_empty());
}

#[test]
fn sweeps_leave_empty_world_alone() {
    let player = Player { x_milli: 0 };
    let mut stars: Vec<Star> = Vec::new();
    let mut score = GameScore {
        value: 30,
        lives: 2,
        stars_missed: 1,
    };
    check_star_collection(&player, &mut stars, &mut score);
    check_star_missed(&mut stars, &mut score);
    assert!(stars.is_empty());
    assert_eq!(
        score,
        GameScore {
            value: 30,
            lives: 2,
            stars_missed: 1,
        }
    );
}

#[test]
fn game_over_when_lives_run_out() {
    let lives_left = GameScore {
        value: 10,
        lives: 1,
        stars_missed: 9,
    };
    assert_eq!(check_game_over(&lives_left), None);
    let none_left = GameScore {
        value: 10,
        lives: 0,
        stars_missed: 10,
    };
    assert_eq!(check_game_over(&none_left), Some(GameState::GameOver));
}

#[test]
fn frame_update_catches_a_star() {
    // A star hanging just over the basket is caught this frame.
    let star = Star {
        x_milli: 0,
        y_milli: -240_000,
        speed: 100,
    };
    let mut w = world_with(
        vec![star],
        GameScore {
            value: 0,
            lives: 3,
            stars_missed: 0,
        },
    );
    let next = playing_update(
        &mut w,
        FrameInput {
            left_pressed: false,
            right_pressed: false,
        },
        10,
    );
    assert_eq!(next, None);
    assert!(w.stars.is_empty());
    assert_eq!(w.score.value, 10);
    assert_eq!(w.score.lives, 3);
}

#[test]
fn frame_update_ends_game_on_last_life() {
    // A star far from the basket drops past the floor; the last life
    // goes and the next state is game over.
    let star = Star {
        x_milli: 349_000,
        y_milli: -319_000,
        speed: 100,
    };
    let mut w = world_with(
        vec![star],
        GameScore {
            value: 20,
            lives: 1,
            stars_missed: 9,
        },
    );
    let next = playing_update(
        &mut w,
        FrameInput {
            left_pressed: false,
            right_pressed: false,
        },
        100,
    );
    assert_eq!(next, Some(GameState::GameOver));
    assert_eq!(w.score.lives, 0);
    assert_eq!(w.score.stars_missed, 10);
    assert_eq!(w.score.value, 20);
    assert!(w.stars.is_empty());
}

#[test]
fn frame_update_rescales_difficulty_from_new_score() {
    // Catching a star that lifts the score to 50 raises the level.
    let star = Star {
        x_milli: 0,
        y_milli: -240_000,
        speed: 100,
    };
    let mut w = world_with(
        vec![star],
        GameScore {
            value: 40,
            lives: 3,
            stars_missed: 0,
        },
    );
    playing_update(
        &mut w,
        FrameInput {
            left_pressed: false,
            right_pressed: false,
        },
        10,
    );
    assert_eq!(w.score.value, 50);
    assert_eq!(w.difficulty.star_speed, 120);
    assert_eq!(w.difficulty.spawn_rate_tenths, 12);
}
