//! Fixed-point units and the constants of the game.
//!
//! One pixel is [`UNIT`] steps, so every length below is exact: positions and
//! speeds are `i64` (steps, steps per second), extents of viewport and
//! strips are kept as half widths in `u32`. Angles are in thousandths of a
//! radian and durations in nanoseconds.

use vstd::prelude::*;

verus! {

/// Fixed-point steps per pixel.
pub const UNIT: i64 = 1_000;

/// Radius of the player's collider.
pub const PLAYER_SIZE: i64 = 56_000;

/// Vertical room left open between the two poles of an obstacle: 4.35 times
/// the player's size.
pub const PLAYER_CLEARANCE: i64 = 243_600;

/// Nominal width of an obstacle, used to tell when it has left the screen.
pub const OBSTACLE_WIDTH: i64 = 100_000;

/// Height of one pole's collider.
pub const OBSTACLE_HEIGHT: i64 = 2_000_000;

/// Half width of a pole's collider: half the obstacle's width less 6 pixels.
pub const POLE_HALF_WIDTH: i64 = 44_000;

/// Half width of a ground strip (the strip is 2000 pixels wide).
pub const GROUND_HALF_WIDTH: u32 = 1_000_000;

/// Height of a ground strip.
pub const GROUND_HEIGHT: i64 = 100_000;

/// How far a ground strip is pushed out of the viewport vertically.
pub const GROUND_INSET: i64 = 20_000;

/// Least height of either pole: the ground's height plus 10 pixels.
pub const GROUND_MARGIN: i64 = 110_000;

/// Half width of a background strip (the strip is 1536 pixels wide).
pub const BG_HALF_WIDTH: u32 = 768_000;

/// Horizontal velocity of ground strips and obstacles.
pub const HVELOC: i64 = -90_000;

/// Horizontal velocities of the three background layers, far to near.
pub const BG_FAR_VELOC: i64 = -10_000;

pub const BG_MID_VELOC: i64 = -20_000;

pub const BG_NEAR_VELOC: i64 = -50_000;

/// Gravity scale of the player while a run is on, in thousandths.
pub const ACTIVE_GRAVITY: i64 = 15_000;

/// Upward velocity that a jump gives the player.
pub const JUMP_VELOCITY: i64 = 600_000;

/// Tilt that a jump gives the player.
pub const JUMP_TILT: i64 = 300;

/// The player's head sinks by this much per tick while falling.
pub const TILT_STEP: i64 = 100;

/// The head stops sinking once the tilt is at or below this.
pub const TILT_FLOOR: i64 = -500;

/// Depth at which the menu is in front of the scene.
pub const MENU_FRONT: i64 = 10_000;

/// Depth at which the menu is behind the scene.
pub const MENU_BEHIND: i64 = -1_000;

/// Time between two obstacles, in nanoseconds.
pub const SPAWN_INTERVAL: u64 = 5_000_000_000;

/// Frames in the player's animation.
pub const FLAP_FRAMES: usize = 2;

/// Time between two frames of the player's animation, in nanoseconds.
pub const FLAP_INTERVAL: u64 = 100_000_000;

} // verus!
