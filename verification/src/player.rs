//! The player motion state machine.
//!
//! Per frame, in this fixed order: jump impulse, duck fast-fall kick,
//! gravity, integration of the vertical position, grounding clamp.  The
//! modifiers must all be applied before integration, and integration before
//! the grounding check, because grounding reads the frame's final
//! y-position.  Landing deliberately does not reset the vertical velocity:
//! the velocity computed for the frame is preserved across the landing edge.

use vstd::prelude::*;
use crate::units::{in_i64, DUCK_IMPULSE, GRAVITY_PER_MS, JUMP_VELOCITY, MAX_TIME_MS};

verus! {

/// Whether the player currently rests on the ground or is airborne.
#[derive(Clone, Copy, Debug, PartialEq, Eq, Structural)]
pub enum GroundState {
    OnGround,
    InAir,
}

/// The player entity: a centre position, half extents of its bounding box,
/// a vertical velocity and the ground/air state.  The x-position is fixed
/// for the whole session.  Positions and extents are in micro-units, the
/// velocity in milli-units per second.
#[derive(Clone, Copy, Debug)]
pub struct Player {
    pub x: i64,
    pub y: i64,
    pub half_width: i64,
    pub half_height: i64,
    pub vertical_velocity: i64,
    pub ground_state: GroundState,
}

/// The mathematical model of a player: the same fields over unbounded
/// integers, so the motion pipeline can be written as total functions.
pub ghost struct PlayerV {
    pub x: int,
    pub y: int,
    pub half_width: int,
    pub half_height: int,
    pub vertical_velocity: int,
    pub ground_state: GroundState,
}

impl View for Player {
    type V = PlayerV;

    open spec fn view(&self) -> PlayerV {
        PlayerV {
            x: self.x as int,
            y: self.y as int,
            half_width: self.half_width as int,
            half_height: self.half_height as int,
            vertical_velocity: self.vertical_velocity as int,
            ground_state: self.ground_state,
        }
    }
}

/// The y-position at which the player rests: the ground line plus half the
/// player's height, so the lower edge touches the ground line.
pub open spec fn resting_y(p: PlayerV, ground_line: int) -> int {
    ground_line + p.half_height
}

/// Jump impulse: a grounded player holding jump becomes airborne with
/// vertical velocity `JUMP_VELOCITY`.  Holding jump while airborne has no
/// effect; the impulse re-arms once the player is grounded again.
pub open spec fn spec_jump(p: PlayerV, jump_held: bool) -> PlayerV {
    if p.ground_state == GroundState::OnGround && jump_held {
        PlayerV {
            ground_state: GroundState::InAir,
            vertical_velocity: JUMP_VELOCITY as int,
            ..p
        }
    } else {
        p
    }
}

/// Duck fast-fall kick: an airborne player holding duck loses a flat
/// `DUCK_IMPULSE` of vertical velocity, anew on every frame it is held.
pub open spec fn spec_duck(p: PlayerV, duck_held: bool) -> PlayerV {
    if p.ground_state == GroundState::InAir && duck_held {
        PlayerV { vertical_velocity: p.vertical_velocity - DUCK_IMPULSE, ..p }
    } else {
        p
    }
}

/// Gravity: an airborne player loses `GRAVITY_PER_MS * dt_ms` of vertical
/// velocity over a frame of `dt_ms` milliseconds.
pub open spec fn spec_gravity(p: PlayerV, dt_ms: int) -> PlayerV {
    if p.ground_state == GroundState::InAir {
        PlayerV { vertical_velocity: p.vertical_velocity - GRAVITY_PER_MS * dt_ms, ..p }
    } else {
        p
    }
}

/// Integration: an airborne player's y-position advances by
/// `vertical_velocity * dt_ms` micro-units.
pub open spec fn spec_integrate(p: PlayerV, dt_ms: int) -> PlayerV {
    if p.ground_state == GroundState::InAir {
        PlayerV { y: p.y + p.vertical_velocity * dt_ms, ..p }
    } else {
        p
    }
}

/// Grounding clamp: a player whose y-position fell below the resting
/// height is raised back to it and becomes grounded.  The vertical
/// velocity is left exactly as the frame computed it.
pub open spec fn spec_grounding(p: PlayerV, ground_line: int) -> PlayerV {
    if p.y < resting_y(p, ground_line) {
        PlayerV { y: resting_y(p, ground_line), ground_state: GroundState::OnGround, ..p }
    } else {
        p
    }
}

/// One full frame of the motion state machine: jump, duck, gravity,
/// integration, grounding, in that order.
pub open spec fn spec_motion(
    p: PlayerV,
    jump_held: bool,
    duck_held: bool,
    dt_ms: int,
    ground_line: int,
) -> PlayerV {
    spec_grounding(
        spec_integrate(spec_gravity(spec_duck(spec_jump(p, jump_held), duck_held), dt_ms), dt_ms),
        ground_line,
    )
}

/// Whether one frame of motion stays within `i64`: the velocity after the
/// three modifiers and the y-position after integration are the only values
/// a frame computes that are not bounded a priori.
pub open spec fn motion_fits(p: PlayerV, jump_held: bool, duck_held: bool, dt_ms: int) -> bool {
    let m = spec_gravity(spec_duck(spec_jump(p, jump_held), duck_held), dt_ms);
    &&& in_i64(m.vertical_velocity)
    &&& in_i64(spec_integrate(m, dt_ms).y)
}

impl Player {
    /// Applies the jump impulse for this frame.
    pub fn jump(&mut self, jump_held: bool)
        ensures
            final(self)@ == spec_jump(old(self)@, jump_held),
    {
        if matches!(self.ground_state, GroundState::OnGround) && jump_held {
            self.ground_state = GroundState::InAir;
            self.vertical_velocity = JUMP_VELOCITY;
        }
    }

    /// Applies the duck fast-fall kick for this frame.
    pub fn snap(&mut self, duck_held: bool)
        requires
            in_i64(spec_duck(old(self)@, duck_held).vertical_velocity),
        ensures
            final(self)@ == spec_duck(old(self)@, duck_held),
    {
        if matches!(self.ground_state, GroundState::InAir) && duck_held {
            self.vertical_velocity = self.vertical_velocity - DUCK_IMPULSE;
        }
    }

    /// Applies gravity for a frame of `dt_ms` milliseconds.
    pub fn gravity(&mut self, dt_ms: i64)
        requires
            0 <= dt_ms <= MAX_TIME_MS,
            in_i64(spec_gravity(old(self)@, dt_ms as int).vertical_velocity),
        ensures
            final(self)@ == spec_gravity(old(self)@, dt_ms as int),
    {
        if matches!(self.ground_state, GroundState::InAir) {
            self.vertical_velocity = self.vertical_velocity - GRAVITY_PER_MS * dt_ms;
        }
    }

    /// Integrates the vertical position for a frame of `dt_ms` milliseconds.
    pub fn vertical_movement(&mut self, dt_ms: i64)
        requires
            0 <= dt_ms <= MAX_TIME_MS,
            in_i64(spec_integrate(old(self)@, dt_ms as int).y),
        ensures
            final(self)@ == spec_integrate(old(self)@, dt_ms as int),
    {
        if matches!(self.ground_state, GroundState::InAir) {
            let displaced: i128 = self.y as i128
                + (self.vertical_velocity as i128) * (dt_ms as i128);
            self.y = displaced as i64;
        }
    }

    /// Tests whether one frame of motion on this player stays within the
    /// fixed-point range, computing the frame's velocity and y-position in
    /// wide arithmetic.
    pub fn motion_fits_check(&self, jump_held: bool, duck_held: bool, dt_ms: i64) -> (r: bool)
        requires
            0 <= dt_ms <= MAX_TIME_MS,
        ensures
            r == motion_fits(self@, jump_held, duck_held, dt_ms as int),
    {
        let grounded = matches!(self.ground_state, GroundState::OnGround);
        let jumped = grounded && jump_held;
        let airborne = !grounded || jumped;
        let v0: i64 = if jumped {
            JUMP_VELOCITY
        } else {
            self.vertical_velocity
        };
        let v1: i128 = if airborne && duck_held {
            v0 as i128 - DUCK_IMPULSE as i128
        } else {
            v0 as i128
        };
        let v2: i128 = if airborne {
            v1 - (GRAVITY_PER_MS as i128) * (dt_ms as i128)
        } else {
            v1
        };
        if !(i64::MIN as i128 <= v2 && v2 <= i64::MAX as i128) {
            return false;
        }
        assert((i64::MIN as i128) * (MAX_TIME_MS as i128) <= v2 * (dt_ms as i128)
            <= (i64::MAX as i128) * (MAX_TIME_MS as i128)) by (nonlinear_arith)
            requires
                i64::MIN <= v2 <= i64::MAX,
                0 <= dt_ms <= MAX_TIME_MS,
        ;
        let y1: i128 = if airborne {
            self.y as i128 + v2 * (dt_ms as i128)
        } else {
            self.y as i128
        };
        i64::MIN as i128 <= y1 && y1 <= i64::MAX as i128
    }

    /// Applies the grounding clamp against the given ground line.
    pub fn grounding(&mut self, ground_line: i64)
        requires
            in_i64(resting_y(old(self)@, ground_line as int)),
        ensures
            final(self)@ == spec_grounding(old(self)@, ground_line as int),
    {
        let resting: i64 = ground_line + self.half_height;
        if self.y < resting {
            self.y = resting;
            self.ground_state = GroundState::OnGround;
        }
    }
}

} // verus!
