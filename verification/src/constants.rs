//! Build-time configuration of the arena, the snake and the food.

use vstd::prelude::*;

verus! {

/// Length units in one pixel.
pub const UNITS_PER_PIXEL: i64 = 1_000_000;

/// Width of the arena (800 pixels).
pub const WINDOW_WIDTH: i64 = 800_000_000;

/// Height of the arena (600 pixels).
pub const WINDOW_HEIGHT: i64 = 600_000_000;

/// Horizontal extent used to place the walls and to bound the head.
pub const WINDOW_BOUND_X: i64 = WINDOW_WIDTH;

/// Vertical extent used to place the walls and to bound the head.
pub const WINDOW_BOUND_Y: i64 = WINDOW_HEIGHT;

/// Thickness of each wall (50 pixels).
pub const WALL_THICKNESS: i64 = 50_000_000;

/// Side of the square drawn for the head and for each segment (50 pixels).
pub const PLAYER_SIDE: i64 = 50_000_000;

/// Side of the square drawn for a food item (50 pixels).
pub const FOOD_SIDE: i64 = 50_000_000;

/// Largest distance of the head's centre from the arena's centre along the
/// horizontal axis: half the arena minus one wall thickness (350 pixels).
pub const HEAD_LIMIT_X: i64 = 350_000_000;

/// Largest distance of the head's centre from the arena's centre along the
/// vertical axis (250 pixels).
pub const HEAD_LIMIT_Y: i64 = 250_000_000;

/// Food is placed with `-SPAWN_LIMIT_X <= x < SPAWN_LIMIT_X` (350 pixels).
pub const SPAWN_LIMIT_X: i64 = 350_000_000;

/// Food is placed with `-SPAWN_LIMIT_Y <= y < SPAWN_LIMIT_Y` (250 pixels).
pub const SPAWN_LIMIT_Y: i64 = 250_000_000;

/// Speed of a new snake, in pixels per second.
pub const PLAYER_SPEED: i64 = 250;

/// Distance kept behind the chain's end when a segment is appended (30 pixels).
pub const SEGMENT_SPACING: i64 = 30_000_000;

/// Step by which an accepted command moves the head at once (5 pixels).
pub const NUDGE: i64 = 5_000_000;

/// A food item closer to the head than this is eaten (35 pixels).
pub const EAT_DISTANCE: i64 = 35_000_000;

/// Rolls for the reward tier are drawn from `0..ROLL_BOUND`.
pub const ROLL_BOUND: i64 = 100;

/// Highest roll that gives a regular food item.
pub const REGULAR_MAX_ROLL: i64 = 70;

/// Highest roll that gives a special food item; higher rolls give a rare one.
pub const SPECIAL_MAX_ROLL: i64 = 90;

/// Points for a regular food item.
pub const REGULAR_SCORE: u32 = 1;

/// Points for a special food item.
pub const SPECIAL_SCORE: u32 = 5;

/// Points for a rare food item.
pub const RARE_SCORE: u32 = 10;

} // verus!
