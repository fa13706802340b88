//! Core of a two-player paddle-and-ball arcade game.
//!
//! All coordinates, sizes and velocities are fixed-point integers counted in
//! hundredths of a pixel, so that the physics step (including the fractional
//! per-hit acceleration of the ball) is exact integer arithmetic.
//!
//! The library owns the whole game logic: the menu / play / end state
//! machine, the per-frame physics step, and the description of what a frame
//! should draw. Window handling, input polling, audio and the actual draw
//! calls live outside; each frame they hand the core an input snapshot and
//! carry out the events and draw commands it returns.

use vstd::prelude::*;

pub mod entity;
pub mod laws;
pub mod num;
pub mod render;
pub mod sim;

verus! {

/// Width of the play field, in hundredths of a pixel (640 px).
pub const FIELD_WIDTH: i64 = 64000;

/// Height of the play field, in hundredths of a pixel (480 px).
pub const FIELD_HEIGHT: i64 = 48000;

/// Vertical paddle displacement per frame while a key is held (12 px).
pub const PADDLE_SPEED: i64 = 1200;

/// Magnitude of the ball's initial horizontal velocity (9 px per frame).
pub const BALL_SPEED: i64 = 900;

/// Scale of the vertical deflection a paddle hit imparts (4 px per frame).
pub const PADDLE_SPIN: i64 = 400;

/// Speed gained by the ball on each paddle hit (0.05 px per frame).
pub const BALL_ACC: i64 = 5;

/// Score at which the game ends.
pub const WIN_SCORE: u32 = 11;

/// Horizontal inset of each paddle from its edge of the field (16 px).
pub const PADDLE_INSET: i64 = 1600;

/// Bound on every stored coordinate and velocity; far beyond anything a
/// game can reach, it only keeps the arithmetic of a frame inside `i64`.
pub const COORD_MAX: i64 = 1_000_000_000_000;

} // verus!
