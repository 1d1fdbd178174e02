//! The fixed numbers of the game.

use vstd::prelude::*;

verus! {

// Gameplay:

/// Smallest target a round can ask for.
pub const MIN_TARGET: u32 = 5;

/// Largest target a round can ask for.
pub const MAX_TARGET: u32 = 75;

/// Lives at the start of a session and after a restart.
pub const STARTING_LIVES: u8 = 3;

/// Length units in one pixel.
pub const UNITS_PER_PIXEL: i64 = 10;

/// Slowest fall of a bubble in the first rounds, in units per frame.
pub const MIN_BUBBLE_SPEED: i64 = 10;

/// Fastest fall of a bubble in the first rounds, in units per frame.
pub const MAX_BUBBLE_SPEED: i64 = 29;

/// What every round adds to both ends of the speed range: half a pixel.
pub const BUBBLE_SPEED_PER_ROUND: i64 = 5;

/// Sideways step of the ship per frame.
pub const SHIP_SPEED_X: i64 = 100;

/// Vertical step of the ship per frame.
pub const SHIP_SPEED_Y: i64 = 80;

/// Where the ship waits when a session starts.
pub const SHIP_START_X: i64 = 5000;

/// Where the ship waits when a session starts.
pub const SHIP_START_Y: i64 = 5000;

/// The ship moves left only from here or further right.
pub const SHIP_LEFT_LIMIT: i64 = 50;

/// The ship moves right only while this many pixels from the right edge.
pub const SHIP_RIGHT_INSET_PIXELS: i64 = 15;

/// The ship moves up only from here or further down.
pub const SHIP_TOP_LIMIT: i64 = 0;

/// The ship moves down only while this many pixels from the bottom edge.
pub const SHIP_BOTTOM_INSET_PIXELS: i64 = 25;

/// A new bubble's number is limited by the shortfall, instead of the target,
/// in this many draws ...
pub const RESPECT_SHORTFALL_NUMERATOR: u32 = 3;

/// ... out of this many.
pub const RESPECT_SHORTFALL_DENOMINATOR: u32 = 10;

/// A bubble is spawned on every frame whose counter is a multiple of this.
pub const NEW_BUBBLE_INTERVAL_FRAMES: usize = 30;

/// Leftmost place for a new bubble.
pub const SPAWN_MIN_X: i64 = 10;

/// New bubbles keep this many pixels from the right edge.
pub const SPAWN_RIGHT_INSET_PIXELS: i64 = 10;

/// Places drawn by chance for a new bubble before the leftmost free place is
/// taken instead.
pub const MAX_SPAWN_ATTEMPTS: u32 = 100;

/// Seconds the first round may take.
pub const STARTING_ROUND_TIME_SECONDS: u64 = 45;

/// No round is shorter than this.
pub const MIN_ROUND_TIME_SECONDS: u64 = 15;

/// Every new round is this much shorter than the one before.
pub const TIME_DEDUCTED_PER_ROUND: u64 = 5;

/// Seconds left on the clock that are worth one bonus point.
pub const SECONDS_LEFT_PER_BONUS_POINT: u64 = 2;

// Visual:

/// Width of the window the game asks for, in pixels.
pub const WINDOW_WIDTH: u32 = 1024;

/// Height of the window the game asks for, in pixels.
pub const WINDOW_HEIGHT: u32 = 768;

/// Radius of a bubble.
pub const BUBBLE_RADIUS: i64 = 300;

} // verus!
