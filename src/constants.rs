use vstd::prelude::*;

verus! {

/// Micro-pixels in one pixel.
pub const PIXEL: i64 = 1_000_000;

/// Vertical distance between the top pipe and the bottom pipe of a pair.
pub const PIPE_GAP: i64 = 100_000_000;

/// Width of a pipe.
pub const PIPE_WIDTH: u64 = 80_000_000;

/// Speed at which pipes scroll to the left, in micro-pixels per millisecond.
pub const PIPE_MOVEMENT_SPEED: i64 = 150_000;

/// Horizontal room kept free at the right edge before a new pair is spawned.
pub const PIPE_OFFSET: i64 = 300_000_000;

/// Vertical speed given to the player by a jump, in micro-pixels per millisecond.
pub const JUMP_VELOCITY: i64 = 60_000;

/// Downward acceleration of the player, in micro-pixels per square millisecond.
pub const GRAVITY: i64 = -20;

/// Side length of the player's square collision box.
pub const PLAYER_COLLISION_SIZE: u64 = 50_000_000;

/// Height of the floor.
pub const FLOOR_HEIGHT: u64 = 50_000_000;

/// Number of images in the player's flapping animation.
pub const FRAME_COUNT: usize = 8;

/// Time each animation image stays on screen, in milliseconds.
pub const FRAME_PERIOD_MS: u64 = 100;

/// The longest period an animation timer can have: the period in
/// nanoseconds must fit in a `u64`.
pub const MAX_FRAME_PERIOD_MS: u64 = 18_446_744_073_709;

/// Least placement of a new pipe pair, in thousandths of the way down.
pub const PIPE_HEIGHT_MIN: u64 = 200;

/// Greatest placement of a new pipe pair, in thousandths of the way down.
pub const PIPE_HEIGHT_MAX: u64 = 800;

} // verus!
