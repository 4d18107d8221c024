//! Simulation core of a small 2D arcade shooter: a player ship defends
//! against a descending fleet of animated enemy units and a periodic bonus
//! unit, under score, lives and high-score tracking, across a
//! title/play/pause/lose state machine.
//!
//! Everything here is pure state manipulation: rendering, input polling and
//! persistence are collaborators that hand the library plain values (discrete
//! input intents, timestamps in milliseconds, file bytes) and take plain
//! values back (geometry to draw, a high score to persist).

use vstd::prelude::*;

pub mod alien;
pub mod bullet;
pub mod collision;
pub mod fleet;
pub mod game;
pub mod geom;
pub mod highscore;
pub mod player;
pub mod render;
pub mod shapes;
pub mod shooters;
pub mod sprite;

verus! {

/// Side length, in screen pixels, of one sprite cell.
pub const PIXEL: u32 = 5;

/// Width of the play field in pixels.
pub const WINDOW_W: i32 = 800;

/// Height of the play field in pixels.
pub const WINDOW_H: i32 = 600;

/// Upper bound on the millisecond timestamps the simulation works with, far
/// beyond any reachable uptime; it keeps timer comparisons free of overflow.
pub const TIME_MAX_MS: u64 = 0x1000_0000_0000_0000;

} // verus!
