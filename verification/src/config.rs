//! Session configuration: the startup parameters the host supplies once,
//! and the world coordinates derived from them.

use vstd::prelude::*;
use crate::units::{
    in_i64, MAX_CONFIG_MAGNITUDE, MAX_TIME_MS, OBSTACLE_HALF_HEIGHT, SPAWN_X_OFFSET,
};

verus! {

/// The fixed configuration of one session.  The core treats these as
/// constants after startup.
///
/// `playfield_width`, `playfield_height` and `ground_band_height` are in
/// micro-units; `base_obstacle_speed` is in milli-units per second (negative
/// means moving toward the player); `spawn_period_ms` is in milliseconds.
#[derive(Clone, Copy, Debug)]
pub struct Config {
    pub playfield_width: i64,
    pub playfield_height: i64,
    pub ground_band_height: i64,
    pub base_obstacle_speed: i64,
    pub spawn_period_ms: i64,
}

impl Config {
    /// A well-formed configuration: positive playfield width and spawn
    /// period, non-negative height and ground band, all magnitudes within
    /// the fixed-point range that keeps every derived coordinate in `i64`.
    pub open spec fn wf(self) -> bool {
        &&& 0 < self.playfield_width <= MAX_CONFIG_MAGNITUDE
        &&& 0 <= self.playfield_height <= MAX_CONFIG_MAGNITUDE
        &&& 0 <= self.ground_band_height <= MAX_CONFIG_MAGNITUDE
        &&& -MAX_CONFIG_MAGNITUDE <= self.base_obstacle_speed <= MAX_CONFIG_MAGNITUDE
        &&& 0 < self.spawn_period_ms <= MAX_TIME_MS
    }

    /// The y-coordinate of the top surface of the ground band, with the
    /// playfield centred on the origin: half the playfield height below
    /// zero, raised by the ground band's height.
    pub open spec fn ground_line(self) -> int {
        self.ground_band_height - self.playfield_height / 2
    }

    /// The x-coordinate at which obstacles spawn: just past the right edge.
    pub open spec fn spawn_x(self) -> int {
        self.playfield_width / 2 + SPAWN_X_OFFSET
    }

    /// The y-coordinate at which obstacles spawn: resting on the ground line.
    pub open spec fn obstacle_spawn_y(self) -> int {
        self.ground_line() + OBSTACLE_HALF_HEIGHT
    }

    /// An obstacle is despawned once the magnitude of its x-position
    /// exceeds this limit: twice the playfield width.
    pub open spec fn despawn_limit(self) -> int {
        2 * self.playfield_width
    }

    /// Computes the ground line of a well-formed configuration.
    pub fn ground_line_exec(&self) -> (r: i64)
        requires
            self.wf(),
        ensures
            r == self.ground_line(),
    {
        let half_height: i64 = ((self.playfield_height as u64) / 2) as i64;
        assert(half_height == self.playfield_height as int / 2);
        self.ground_band_height - half_height
    }

    /// Computes the obstacle spawn x-coordinate of a well-formed
    /// configuration.
    pub fn spawn_x_exec(&self) -> (r: i64)
        requires
            self.wf(),
        ensures
            r == self.spawn_x(),
    {
        let half_width: i64 = ((self.playfield_width as u64) / 2) as i64;
        assert(half_width == self.playfield_width as int / 2);
        half_width + SPAWN_X_OFFSET
    }
}

} // verus!
