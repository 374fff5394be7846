//! Obstacle records and their per-frame lifecycle.
//!
//! An obstacle is a plain record: a centre position, half extents and a
//! constant horizontal velocity.  After spawn only the x-position and the
//! obstacle's existence are mutable: each frame the x-position advances by
//! `speed * dt`, and the obstacle is destroyed the first frame the magnitude
//! of its x-position exceeds the despawn limit.  Destruction is final.

use vstd::prelude::*;

verus! {

/// An obstacle entity.  Positions and extents are in micro-units, the
/// horizontal speed in milli-units per second (negative means moving
/// toward the player).
#[derive(Clone, Copy, Debug)]
pub struct Obstacle {
    pub x: i64,
    pub y: i64,
    pub half_width: i64,
    pub half_height: i64,
    pub speed: i64,
}

/// The mathematical model of an obstacle: the same fields over unbounded
/// integers.
pub ghost struct ObstacleV {
    pub x: int,
    pub y: int,
    pub half_width: int,
    pub half_height: int,
    pub speed: int,
}

impl View for Obstacle {
    type V = ObstacleV;

    open spec fn view(&self) -> ObstacleV {
        ObstacleV {
            x: self.x as int,
            y: self.y as int,
            half_width: self.half_width as int,
            half_height: self.half_height as int,
            speed: self.speed as int,
        }
    }
}

/// The obstacle after one frame's translation: the x-position advanced by
/// `speed * dt_ms` micro-units.
pub open spec fn spec_translate(o: ObstacleV, dt_ms: int) -> ObstacleV {
    ObstacleV { x: o.x + o.speed * dt_ms, ..o }
}

/// Whether a translated obstacle is past the despawn limit: the magnitude
/// of its x-position strictly exceeds it.
pub open spec fn past_limit(o: ObstacleV, despawn_limit: int) -> bool {
    o.x > despawn_limit || o.x < -despawn_limit
}

/// One frame of an obstacle slot's lifecycle: an empty slot stays empty; a
/// live obstacle is translated, then destroyed exactly when the translated
/// position is past the despawn limit.
pub open spec fn spec_advance_slot(
    slot: Option<ObstacleV>,
    dt_ms: int,
    despawn_limit: int,
) -> Option<ObstacleV> {
    match slot {
        None => None,
        Some(o) => {
            let moved = spec_translate(o, dt_ms);
            if past_limit(moved, despawn_limit) {
                None
            } else {
                Some(moved)
            }
        },
    }
}

} // verus!
