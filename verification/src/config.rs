//! Arena and gameplay constants, in integer arena units (one unit is one
//! pixel of the host viewport).

use vstd::prelude::*;

verus! {

/// Thickness of the horizontal walls.
pub const WALL_THICKNESS: i64 = 10;

/// Height reserved at the top of the screen for the status bar.
pub const TOP_BUFFER: i64 = 100;

/// Paddle extent and movement.
pub const PADDLE_WIDTH: i64 = 10;

pub const PADDLE_HEIGHT: i64 = 100;

pub const PADDLE_HALF_HEIGHT: i64 = 50;

/// Horizontal distance of each paddle from its vertical screen edge.
pub const PADDLE_BUFFER: i64 = 40;

/// Vertical speed of a human-driven paddle, per fixed tick.
pub const PADDLE_SPEED: i64 = 6;

/// Ball extent and motion.
pub const BALL_RADIUS: i64 = 10;

/// The fixed serve velocity: deterministic, neither purely horizontal nor
/// purely vertical, so the first serve is reproducible.
pub const INITIAL_VELOCITY_X: i64 = 200;

pub const INITIAL_VELOCITY_Y: i64 = 100;

/// Factor applied to the vertical velocity component on every contact.
pub const SPEED_INCREASE: i64 = 2;

/// Absolute cap on the ball's speed.
pub const MAX_BALL_SPEED: i64 = 1000;

/// The cap on the squared speed; the core compares speeds through their
/// squares to stay in exact integer arithmetic.
pub const MAX_SPEED_SQ: i64 = MAX_BALL_SPEED * MAX_BALL_SPEED;

/// The squared magnitude of the serve velocity.
pub const INITIAL_SPEED_SQ: i64 = INITIAL_VELOCITY_X * INITIAL_VELOCITY_X + INITIAL_VELOCITY_Y
    * INITIAL_VELOCITY_Y;

/// A generous bound on coordinates the core accepts, far above any real
/// viewport, low enough that every intermediate product fits in 64 bits.
pub const MAX_COORD: i64 = 1000000000;

} // verus!
