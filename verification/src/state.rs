//! The game's screens and the keyboard transitions between them.

use vstd::prelude::*;

verus! {

/// Which screen the game is on.  The engine runs a different set of
/// per-frame systems for each state and fires setup / cleanup hooks on
/// every transition.
#[derive(Clone, Copy, PartialEq, Eq, Structural, Debug)]
pub enum GameState {
    Menu,
    Playing,
    GameOver,
}

/// Menu screen input: Space starts a game, anything else stays put.
pub fn menu_input(space_just_pressed: bool) -> (next: Option<GameState>)
    ensures
        next == if space_just_pressed {
            Some(GameState::Playing)
        } else {
            None::<GameState>
        },
{
    if space_just_pressed {
        Some(GameState::Playing)
    } else {
        None
    }
}

/// Game-over screen input: R goes back to the menu, Escape asks the
/// engine to quit.  Both are reported; the engine acts on each.
pub fn game_over_input(r_just_pressed: bool, escape_just_pressed: bool) -> (r: (
    Option<GameState>,
    bool,
))
    ensures
        r.0 == if r_just_pressed {
            Some(GameState::Menu)
        } else {
            None::<GameState>
        },
        r.1 == escape_just_pressed,
{
    let next = if r_just_pressed {
        Some(GameState::Menu)
    } else {
        None
    };
    (next, escape_just_pressed)
}

} // verus!
