//! The laws of the frame pipeline, proved once and for all over the
//! session model.

use vstd::prelude::*;
use crate::collision::axis_overlap;
use crate::obstacle::{past_limit, spec_translate, ObstacleV};
use crate::player::{resting_y, GroundState};
use crate::session::{spec_spawned_obstacle, spec_step, spec_timer_fires, SessionV};
use crate::units::{DUCK_IMPULSE, GRAVITY_PER_MS, JUMP_VELOCITY};

verus! {

/// The player never hangs below its resting height, and whenever it is
/// grounded its y-position equals the resting height exactly.
pub open spec fn grounded_at_rest(s: SessionV) -> bool {
    let rest = resting_y(s.player, s.config.ground_line());
    &&& s.player.ground_state == GroundState::OnGround ==> s.player.y == rest
    &&& s.player.y >= rest
}

/// Every frame preserves `grounded_at_rest`: a session that starts with
/// the player resting on the ground line keeps the player at or above the
/// resting height on every later frame, and exactly at it whenever the
/// player is grounded.
pub proof fn lemma_grounded_at_rest_preserved(
    s: SessionV,
    jump_held: bool,
    duck_held: bool,
    dt_ms: int,
)
    requires
        grounded_at_rest(s),
    ensures
        grounded_at_rest(spec_step(s, jump_held, duck_held, dt_ms)),
{
}

/// A grounded player that holds jump is airborne with vertical velocity
/// exactly `JUMP_VELOCITY` on the next observed frame.  Stated for a
/// zero-length frame with duck released: over a frame of positive length
/// gravity (and a held duck) already act on the fresh impulse within the
/// same frame, so the observed velocity is lower.
pub proof fn lemma_jump_impulse(s: SessionV)
    requires
        s.player.ground_state == GroundState::OnGround,
        grounded_at_rest(s),
    ensures
        spec_step(s, true, false, 0).player.ground_state == GroundState::InAir,
        spec_step(s, true, false, 0).player.vertical_velocity == JUMP_VELOCITY,
{
}

/// While airborne under gravity alone (duck released), the vertical
/// velocity strictly decreases over any frame of positive length, at
/// exactly `GRAVITY_PER_MS` milli-units per second per millisecond, which
/// is 500 units per second squared.
pub proof fn lemma_gravity_rate(s: SessionV, jump_held: bool, dt_ms: int)
    requires
        s.player.ground_state == GroundState::InAir,
        dt_ms > 0,
    ensures
        spec_step(s, jump_held, false, dt_ms).player.vertical_velocity
            == s.player.vertical_velocity - GRAVITY_PER_MS * dt_ms,
        spec_step(s, jump_held, false, dt_ms).player.vertical_velocity
            < s.player.vertical_velocity,
{
}

/// While airborne with duck held, a frame costs a flat `DUCK_IMPULSE` of
/// vertical velocity on top of gravity, and the kick accumulates over
/// every frame duck stays held: two such frames cost it twice.
pub proof fn lemma_duck_fast_fall(
    s: SessionV,
    jump1: bool,
    jump2: bool,
    dt1: int,
    dt2: int,
)
    requires
        s.player.ground_state == GroundState::InAir,
    ensures
        spec_step(s, jump1, true, dt1).player.vertical_velocity
            == s.player.vertical_velocity - DUCK_IMPULSE - GRAVITY_PER_MS * dt1,
        spec_step(s, jump1, true, dt1).player.ground_state == GroundState::InAir
            ==> spec_step(spec_step(s, jump1, true, dt1), jump2, true, dt2)
                .player.vertical_velocity
                == s.player.vertical_velocity - 2 * DUCK_IMPULSE
                    - GRAVITY_PER_MS * (dt1 + dt2),
{
}

/// The termination signal fires on a frame exactly when some live
/// obstacle's box overlaps the player's box on both axes simultaneously
/// at the frame's final positions, and it is sticky across frames.  A
/// near miss that overlaps on one axis only does not fire it.
pub proof fn lemma_collision_signal_iff(
    s: SessionV,
    jump_held: bool,
    duck_held: bool,
    dt_ms: int,
)
    ensures
        ({
            let p = spec_step(s, jump_held, duck_held, dt_ms).player;
            let slots = spec_step(s, jump_held, duck_held, dt_ms).slots;
            spec_step(s, jump_held, duck_held, dt_ms).terminated <==> s.terminated || exists|i: int|
                0 <= i < slots.len() && slots[i] is Some
                    && axis_overlap(p.x, p.half_width, slots[i]->0.x, slots[i]->0.half_width)
                    && axis_overlap(p.y, p.half_height, slots[i]->0.y, slots[i]->0.half_height)
        }),
{
}

/// Uniform translation composes: moving an obstacle over two frames is
/// moving it once over their combined elapsed time, so an obstacle's
/// x-position stays `spawn x + speed * (time since spawn)` for as long as
/// it lives.
pub proof fn lemma_translate_composes(o: ObstacleV, dt1: int, dt2: int)
    ensures
        spec_translate(spec_translate(o, dt1), dt2) == spec_translate(o, dt1 + dt2),
{
    assert(o.speed * dt1 + o.speed * dt2 == o.speed * (dt1 + dt2)) by (nonlinear_arith);
}

/// An obstacle's destruction frame is deterministic and computable.  Over
/// one frame a live obstacle moves by `speed * dt_ms` and is destroyed
/// exactly when the magnitude of the moved position exceeds the despawn
/// limit of twice the playfield width; otherwise it survives at the moved
/// position, in its own slot.  For an obstacle inside the limit moving
/// toward the player, that condition is exactly `|speed| * dt_ms >
/// x + limit`: it is destroyed once its travel crosses the distance from
/// its position to the far limit.
pub proof fn lemma_destruction_deterministic(
    s: SessionV,
    i: int,
    jump_held: bool,
    duck_held: bool,
    dt_ms: int,
)
    requires
        0 <= i < s.slots.len(),
        s.slots[i] is Some,
        0 <= dt_ms,
    ensures
        ({
            let o = s.slots[i]->0;
            let moved = spec_translate(o, dt_ms);
            let limit = s.config.despawn_limit();
            let after = spec_step(s, jump_held, duck_held, dt_ms).slots[i];
            &&& after == (if past_limit(moved, limit) {
                None::<ObstacleV>
            } else {
                Some(moved)
            })
            &&& (o.speed < 0 && -limit <= o.x <= limit) ==> (after is None
                <==> (-o.speed) * dt_ms > o.x + limit)
        }),
{
    let o = s.slots[i]->0;
    let moved = spec_translate(o, dt_ms);
    let limit = s.config.despawn_limit();
    let advanced = crate::session::spec_advance_slots(s.slots, dt_ms, limit);
    let stepped = spec_step(s, jump_held, duck_held, dt_ms);
    assert(advanced[i] == crate::obstacle::spec_advance_slot(s.slots[i], dt_ms, limit));
    assert(advanced.len() == s.slots.len());
    if spec_timer_fires(s, dt_ms) {
        assert(stepped.slots == advanced.push(Some(spec_spawned_obstacle(s.config))));
        assert(stepped.slots[i] == advanced[i]);
    } else {
        assert(stepped.slots == advanced);
    }
    if o.speed < 0 && -limit <= o.x <= limit {
        assert(o.speed * dt_ms <= 0) by (nonlinear_arith)
            requires
                o.speed < 0,
                0 <= dt_ms,
        ;
        assert((-o.speed) * dt_ms == -(o.speed * dt_ms)) by (nonlinear_arith);
        assert(moved.x <= o.x);
        assert(past_limit(moved, limit) <==> moved.x < -limit);
        assert(moved.x < -limit <==> (-o.speed) * dt_ms > o.x + limit);
    }
}

/// The session after a run of frames with the given elapsed times and no
/// input held.  The obstacle phase never reads the input, so every law
/// about obstacle slots over such a run holds whatever was pressed.
pub open spec fn spec_run(s: SessionV, dts: Seq<int>) -> SessionV
    decreases dts.len(),
{
    if dts.len() == 0 {
        s
    } else {
        spec_run(spec_step(s, false, false, dts[0]), dts.drop_first())
    }
}

/// The total elapsed time of a run of frames.
pub open spec fn total_elapsed(dts: Seq<int>) -> int
    decreases dts.len(),
{
    if dts.len() == 0 {
        0
    } else {
        dts[0] + total_elapsed(dts.drop_first())
    }
}

proof fn lemma_total_elapsed_nonneg(dts: Seq<int>)
    requires
        forall|k: int| 0 <= k < dts.len() ==> dts[k] >= 0,
    ensures
        total_elapsed(dts) >= 0,
    decreases dts.len(),
{
    if dts.len() > 0 {
        lemma_total_elapsed_nonneg(dts.drop_first());
    }
}

/// The destruction time of an obstacle moving toward the player is
/// deterministic and computable in closed form: over any run of frames,
/// the obstacle of slot `i` is destroyed exactly when the run's total
/// elapsed time `e` satisfies `|speed| * e > x + limit` — that is, at the
/// first frame whose cumulative elapsed time crosses the travel time from
/// its position to the far despawn limit — and until then it survives in
/// its own slot at exactly `x + speed * e`.
pub proof fn lemma_destruction_time(s: SessionV, i: int, dts: Seq<int>)
    requires
        0 <= i < s.slots.len(),
        s.slots[i] is Some,
        s.slots[i]->0.speed < 0,
        -s.config.despawn_limit() <= s.slots[i]->0.x <= s.config.despawn_limit(),
        forall|k: int| 0 <= k < dts.len() ==> dts[k] >= 0,
    ensures
        ({
            let o = s.slots[i]->0;
            let limit = s.config.despawn_limit();
            let e = total_elapsed(dts);
            &&& ((-o.speed) * e > o.x + limit ==> spec_run(s, dts).slots[i] is None)
            &&& ((-o.speed) * e <= o.x + limit ==> spec_run(s, dts).slots[i] == Some(
                ObstacleV { x: o.x + o.speed * e, ..o },
            ))
        }),
    decreases dts.len(),
{
    let o = s.slots[i]->0;
    let limit = s.config.despawn_limit();
    let e = total_elapsed(dts);
    if dts.len() == 0 {
        assert(e == 0);
        assert(o.x + o.speed * 0 == o.x);
        assert(spec_run(s, dts).slots[i] == Some(ObstacleV { x: o.x + o.speed * 0, ..o }));
    } else {
        let dt0 = dts[0];
        let rest = dts.drop_first();
        let e1 = total_elapsed(rest);
        let s1 = spec_step(s, false, false, dt0);
        lemma_destruction_deterministic(s, i, false, false, dt0);
        assert(s.slots.len() <= s1.slots.len());
        lemma_total_elapsed_nonneg(rest);
        assert((-o.speed) * (e - dt0) >= 0 && (-o.speed) * e == (-o.speed) * dt0 + (-o.speed)
            * (e - dt0)) by (nonlinear_arith)
            requires
                o.speed < 0,
                e - dt0 >= 0,
        ;
        if (-o.speed) * dt0 > o.x + limit {
            assert(s1.slots[i] is None);
            lemma_despawn_irreversible_run(s1, i, rest);
            assert((-o.speed) * e > o.x + limit);
        } else {
            let moved = spec_translate(o, dt0);
            assert(s1.slots[i] == Some(moved));
            assert(-limit <= moved.x <= limit);
            lemma_destruction_time(s1, i, rest);
            assert(moved.speed == o.speed);
            assert(e1 == e - dt0);
            assert((-o.speed) * e1 == (-o.speed) * e - (-o.speed) * dt0) by (nonlinear_arith)
                requires
                    e1 == e - dt0,
            ;
            assert((-moved.speed) * e1 == (-o.speed) * e1);
            assert((-o.speed) * dt0 == -(o.speed * dt0)) by (nonlinear_arith);
            assert(moved.x + limit == o.x + limit + o.speed * dt0);
            assert((-moved.speed) * e1 > moved.x + limit <==> (-o.speed) * e > o.x + limit);
            assert(moved.x + moved.speed * e1 == o.x + o.speed * e) by (nonlinear_arith)
                requires
                    moved.x == o.x + o.speed * dt0,
                    moved.speed == o.speed,
                    e1 == e - dt0,
            ;
            assert(spec_run(s, dts) == spec_run(s1, rest));
            if (-o.speed) * e <= o.x + limit {
                assert(spec_run(s1, rest).slots[i] == Some(
                    ObstacleV { x: moved.x + moved.speed * e1, ..moved },
                ));
                assert(ObstacleV { x: moved.x + moved.speed * e1, ..moved } == (ObstacleV {
                    x: o.x + o.speed * e,
                    ..o
                }));
            }
        }
    }
}

/// Destruction is irreversible over a whole run of frames: a slot that is
/// empty stays empty to the end of the run, and the arena only ever
/// grows, so the handle is never reused.
pub proof fn lemma_despawn_irreversible_run(s: SessionV, i: int, dts: Seq<int>)
    requires
        0 <= i < s.slots.len(),
        s.slots[i] is None,
    ensures
        spec_run(s, dts).slots[i] is None,
        spec_run(s, dts).slots.len() >= s.slots.len(),
    decreases dts.len(),
{
    if dts.len() > 0 {
        let s1 = spec_step(s, false, false, dts[0]);
        lemma_despawn_irreversible(s, i, false, false, dts[0]);
        lemma_despawn_irreversible_run(s1, i, dts.drop_first());
    }
}

/// Destruction is irreversible: a slot that is empty before a frame is
/// empty after it, on this and so on every later frame.  A spawn only
/// ever appends a fresh slot at the end of the arena, so a destroyed
/// obstacle's handle is never reused and no component state of it is
/// observable again.
pub proof fn lemma_despawn_irreversible(
    s: SessionV,
    i: int,
    jump_held: bool,
    duck_held: bool,
    dt_ms: int,
)
    requires
        0 <= i < s.slots.len(),
        s.slots[i] is None,
    ensures
        spec_step(s, jump_held, duck_held, dt_ms).slots[i] is None,
        spec_step(s, jump_held, duck_held, dt_ms).slots.len() == s.slots.len() + (
        if spec_timer_fires(s, dt_ms) {
            1int
        } else {
            0int
        }),
        spec_timer_fires(s, dt_ms) ==> spec_step(s, jump_held, duck_held, dt_ms).slots.last()
            == Some(spec_spawned_obstacle(s.config)),
{
}

} // verus!
