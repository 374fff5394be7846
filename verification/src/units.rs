//! Fixed-point scales and the session's built-in magnitudes.
//!
//! Positions and extents are measured in micro-units (one playfield unit is
//! `1_000_000` micro-units), velocities in milli-units per second, elapsed
//! time in milliseconds.  With these scales a displacement over one frame is
//! `velocity * dt` micro-units exactly, and the gravity loss over one frame
//! is `GRAVITY_PER_MS * dt` milli-units per second exactly.

use vstd::prelude::*;

verus! {

/// Micro-units per playfield unit: the scale of positions and extents.
pub const MICROS_PER_UNIT: i64 = 1_000_000;

/// Milli-units per playfield unit: the scale of velocities (per second).
pub const MILLIS_PER_UNIT: i64 = 1_000;

/// Vertical velocity set by the jump impulse: 300 units/second upward.
pub const JUMP_VELOCITY: i64 = 300_000;

/// Flat fast-fall kick while ducking airborne: 600 units/second, applied
/// anew on every frame the duck action is held.
pub const DUCK_IMPULSE: i64 = 600_000;

/// Gravity, expressed per millisecond of frame time: losing 500 milli-units
/// per second of velocity each millisecond is 500 units/second^2.
pub const GRAVITY_PER_MS: i64 = 500;

/// Half extents of the player's bounding box: 40 x 60 units overall.
pub const PLAYER_HALF_WIDTH: i64 = 20_000_000;
pub const PLAYER_HALF_HEIGHT: i64 = 30_000_000;

/// Half extents of an obstacle's bounding box: 20 x 45 units overall.
pub const OBSTACLE_HALF_WIDTH: i64 = 10_000_000;
pub const OBSTACLE_HALF_HEIGHT: i64 = 22_500_000;

/// Obstacles spawn 100 units past the playfield's right half-width.
pub const SPAWN_X_OFFSET: i64 = 100_000_000;

/// The player stands 40 units in from the playfield's left half-width.
pub const PLAYER_X_OFFSET: i64 = 40_000_000;

/// Upper bound accepted for configuration magnitudes (micro-units or
/// milli-units per second): one billion playfield units, far beyond any
/// playfield yet small enough that every derived quantity fits in `i64`.
pub const MAX_CONFIG_MAGNITUDE: i64 = 1_000_000_000_000_000;

/// Upper bound accepted for a single frame's elapsed time and for the spawn
/// period, in milliseconds: about 31 years.
pub const MAX_TIME_MS: i64 = 1_000_000_000_000;

/// Whether a mathematical integer is representable as an `i64`.
pub open spec fn in_i64(x: int) -> bool {
    i64::MIN <= x <= i64::MAX
}

} // verus!
