//! Axis-aligned bounding-box overlap between the player and an obstacle.
//!
//! Boxes are given by a centre position and half extents.  Two boxes
//! overlap when they overlap on both axes simultaneously; touching edges do
//! not count, which matches a strict-penetration collision test.

use vstd::prelude::*;
use crate::obstacle::ObstacleV;
use crate::player::PlayerV;

verus! {

/// Whether two intervals, each given by a centre and a half extent,
/// strictly overlap: the distance of the centres is less than the sum of
/// the half extents.
pub open spec fn axis_overlap(a_centre: int, a_half: int, b_centre: int, b_half: int) -> bool {
    &&& a_centre - b_centre < a_half + b_half
    &&& b_centre - a_centre < a_half + b_half
}

/// Whether the player's box and an obstacle's box overlap on both axes.
pub open spec fn spec_overlaps(p: PlayerV, o: ObstacleV) -> bool {
    &&& axis_overlap(p.x, p.half_width, o.x, o.half_width)
    &&& axis_overlap(p.y, p.half_height, o.y, o.half_height)
}

/// Tests player-vs-obstacle overlap on both axes.
pub fn overlaps(p: &crate::player::Player, o: &crate::obstacle::Obstacle) -> (r: bool)
    ensures
        r == spec_overlaps(p@, o@),
{
    let dx_lo: bool = (p.x as i128) - (o.x as i128) < (p.half_width as i128) + (o.half_width as i128);
    let dx_hi: bool = (o.x as i128) - (p.x as i128) < (p.half_width as i128) + (o.half_width as i128);
    let dy_lo: bool = (p.y as i128) - (o.y as i128) < (p.half_height as i128) + (o.half_height as i128);
    let dy_hi: bool = (o.y as i128) - (p.y as i128) < (p.half_height as i128) + (o.half_height as i128);
    dx_lo && dx_hi && dy_lo && dy_hi
}

} // verus!
