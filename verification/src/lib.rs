//! Core logic of a small "catch the falling stars" arcade game.
//!
//! The game is a three-screen state machine (menu, playing, game over).
//! While playing, stars fall from the top of an 800x600 world, the player
//! slides a basket along the bottom, catching a star scores points and
//! letting one fall past the floor costs a life.  All of the rules live
//! here as verified functions over plain integers; an engine front end
//! only has to feed keyboard state and frame times in and draw the
//! resulting world.
//!
//! Geometry is held in fixed point: a position is stored in thousandths
//! of a world unit ("milli-units"), speeds are whole units per second,
//! and frame times are milliseconds, so one step of a body moving at
//! `speed` for `dt_ms` milliseconds is exactly `speed * dt_ms`
//! milli-units with no rounding.

pub mod difficulty;
pub mod physics;
pub mod score;
pub mod state;
pub mod timer;
pub mod ui;
pub mod world;
