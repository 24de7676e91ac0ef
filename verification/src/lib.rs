//! Core simulation of a terminal arcade game: a gravity-bound avatar must
//! pass through a procession of scrolling gap obstacles.  The library owns
//! the physics, the obstacle lifecycle, the collision test and the game-mode
//! state machine; a thin presentation shell supplies elapsed time and key
//! presses and executes the draw commands the simulation emits.

use vstd::prelude::*;

pub mod draw;
pub mod game;
pub mod obstacle;
pub mod player;

verus! {

/// Width of the play field in character columns.
pub const SCREEN_WIDTH: i32 = 80;

/// Height of the play field in character rows.
pub const SCREEN_HEIGHT: i32 = 50;

/// Accumulated milliseconds after which the obstacles take one scroll step.
pub const FRAME_DURATION_MS: u64 = 55;

/// Gravity, in thousandths of a row per squared frame unit.
pub const GRAVITY_MILLI: u64 = 300;

/// Vertical speed right after a flap, in thousandths of a row per frame unit.
pub const INITIAL_SPEED_MILLI: u64 = 1000;

/// Milliseconds per frame unit of the physics integration.
pub const TIME_DIVISOR_MS: u64 = 80;

/// Column where the player spawns.
pub const PLAYER_SPAWN_X: i32 = 40;

/// Row where the player spawns.
pub const PLAYER_SPAWN_Y: i32 = 25;

/// Lowest row (inclusive) a spawn may draw for an obstacle's gap center.
pub const GAP_CENTER_LOW: i32 = 10;

/// Upper bound (exclusive) on the row a spawn draws for an obstacle's gap center.
pub const GAP_CENTER_HIGH: i32 = 40;

/// Gap height of an obstacle spawned at score zero.
pub const GAP_FULL_SIZE: i32 = 20;

/// Smallest gap height a spawn ever gives.
pub const GAP_FLOOR_SIZE: i32 = 2;

} // verus!
