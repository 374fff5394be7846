//! One running session: the player, the obstacle arena, the spawn
//! countdown and the termination flag, advanced one frame at a time.
//!
//! Obstacles live in an arena of slots indexed by a stable handle: spawning
//! appends a new slot, despawning empties the slot and the handle is never
//! reused, so a destroyed obstacle leaves no observable state behind.
//!
//! The frame pipeline runs in a fixed order: the obstacle phase (translate
//! and despawn the existing obstacles, then tick the spawn countdown and
//! append the new obstacle when it fires), the three motion modifiers
//! (jump, duck, gravity), integration, the grounding clamp, and last the
//! collision check over the frame's final positions.  A freshly spawned
//! obstacle first moves on the following frame.

use vstd::prelude::*;
use crate::collision::{overlaps, spec_overlaps};
use crate::config::Config;
use crate::obstacle::{spec_advance_slot, Obstacle, ObstacleV};
use crate::player::{
    motion_fits, resting_y, spec_motion, GroundState, Player, PlayerV,
};
use crate::units::{
    MAX_TIME_MS, OBSTACLE_HALF_HEIGHT, OBSTACLE_HALF_WIDTH, PLAYER_HALF_HEIGHT,
    PLAYER_HALF_WIDTH, PLAYER_X_OFFSET,
};

verus! {

/// The abstract input actions the host reports as currently held.
#[derive(Clone, Copy, Debug)]
pub struct InputState {
    pub jump_held: bool,
    pub duck_held: bool,
}

/// The mathematical model of a session.
#[verifier::ext_equal]
pub ghost struct SessionV {
    pub config: Config,
    pub player: PlayerV,
    pub slots: Seq<Option<ObstacleV>>,
    pub countdown_ms: int,
    pub terminated: bool,
}

/// The obstacle arena seen abstractly: each slot holds the model of its
/// obstacle, or nothing once the obstacle was destroyed.
pub open spec fn slots_view(v: Seq<Option<Obstacle>>) -> Seq<Option<ObstacleV>> {
    v.map_values(
        |slot: Option<Obstacle>|
            match slot {
                Some(o) => Some(o@),
                None => None,
            },
    )
}

/// The obstacle every spawn creates: placed just past the right edge,
/// resting on the ground line, with the fixed obstacle extents and the
/// session's base movement speed.
pub open spec fn spec_spawned_obstacle(c: Config) -> ObstacleV {
    ObstacleV {
        x: c.spawn_x(),
        y: c.obstacle_spawn_y(),
        half_width: OBSTACLE_HALF_WIDTH as int,
        half_height: OBSTACLE_HALF_HEIGHT as int,
        speed: c.base_obstacle_speed as int,
    }
}

/// All obstacle slots after one frame's translation and despawn pass.
pub open spec fn spec_advance_slots(
    slots: Seq<Option<ObstacleV>>,
    dt_ms: int,
    despawn_limit: int,
) -> Seq<Option<ObstacleV>> {
    slots.map_values(|slot: Option<ObstacleV>| spec_advance_slot(slot, dt_ms, despawn_limit))
}

/// Whether the spawn countdown completes within a frame of `dt_ms`.
pub open spec fn spec_timer_fires(s: SessionV, dt_ms: int) -> bool {
    s.countdown_ms - dt_ms <= 0
}

/// The session after the obstacle phase of one frame: existing obstacles
/// translated and despawned, the countdown advanced, and, when it
/// completes, one obstacle appended and the countdown restarted from its
/// full period.
pub open spec fn spec_obstacle_phase(s: SessionV, dt_ms: int) -> SessionV {
    let moved = spec_advance_slots(s.slots, dt_ms, s.config.despawn_limit());
    if spec_timer_fires(s, dt_ms) {
        SessionV {
            slots: moved.push(Some(spec_spawned_obstacle(s.config))),
            countdown_ms: s.config.spawn_period_ms as int,
            ..s
        }
    } else {
        SessionV { slots: moved, countdown_ms: s.countdown_ms - dt_ms, ..s }
    }
}

/// Whether some live obstacle's box overlaps the player's box.
pub open spec fn spec_collides(p: PlayerV, slots: Seq<Option<ObstacleV>>) -> bool {
    exists|i: int| 0 <= i < slots.len() && slots[i] is Some && spec_overlaps(p, slots[i]->0)
}

/// One full frame: the obstacle phase, then the motion pipeline, then the
/// collision check over the final positions.  The termination flag is
/// sticky: once set it stays set.
pub open spec fn spec_step(s: SessionV, jump_held: bool, duck_held: bool, dt_ms: int) -> SessionV {
    let s1 = spec_obstacle_phase(s, dt_ms);
    let p2 = spec_motion(s.player, jump_held, duck_held, dt_ms, s.config.ground_line());
    SessionV {
        player: p2,
        terminated: s.terminated || spec_collides(p2, s1.slots),
        ..s1
    }
}

/// Whether the collision signal fires on this frame: some obstacle's box,
/// at its final position for the frame, overlaps the player's box at its
/// final position for the frame.
pub open spec fn spec_hit(s: SessionV, jump_held: bool, duck_held: bool, dt_ms: int) -> bool {
    spec_collides(
        spec_motion(s.player, jump_held, duck_held, dt_ms, s.config.ground_line()),
        spec_obstacle_phase(s, dt_ms).slots,
    )
}

/// One running session.
pub struct Session {
    pub config: Config,
    pub player: Player,
    pub obstacles: Vec<Option<Obstacle>>,
    pub countdown_ms: i64,
    pub terminated: bool,
}

impl View for Session {
    type V = SessionV;

    open spec fn view(&self) -> SessionV {
        SessionV {
            config: self.config,
            player: self.player@,
            slots: slots_view(self.obstacles@),
            countdown_ms: self.countdown_ms as int,
            terminated: self.terminated,
        }
    }
}

impl SessionV {
    /// A well-formed session: a well-formed configuration, player extents
    /// within the configuration range, and a countdown that is positive
    /// and at most the spawn period.
    pub open spec fn wf(self) -> bool {
        &&& self.config.wf()
        &&& 0 <= self.player.half_width <= crate::units::MAX_CONFIG_MAGNITUDE
        &&& 0 <= self.player.half_height <= crate::units::MAX_CONFIG_MAGNITUDE
        &&& 0 < self.countdown_ms <= self.config.spawn_period_ms
    }
}

impl Session {
    /// Starts a session: the player grounded at its fixed x-offset with
    /// its lower edge on the ground line and zero vertical velocity, no
    /// obstacles, the spawn countdown at its full period, and the
    /// termination signal clear.
    pub fn new(config: Config) -> (s: Session)
        requires
            config.wf(),
        ensures
            s@.config == config,
            s@.player == (PlayerV {
                x: PLAYER_X_OFFSET - config.playfield_width / 2,
                y: resting_y(s@.player, config.ground_line()),
                half_width: PLAYER_HALF_WIDTH as int,
                half_height: PLAYER_HALF_HEIGHT as int,
                vertical_velocity: 0,
                ground_state: GroundState::OnGround,
            }),
            s@.slots.len() == 0,
            s@.countdown_ms == config.spawn_period_ms,
            !s@.terminated,
            s@.wf(),
            crate::laws::grounded_at_rest(s@),
    {
        let half_width: i64 = ((config.playfield_width as u64) / 2) as i64;
        assert(half_width == config.playfield_width as int / 2);
        let ground_line = config.ground_line_exec();
        let player = Player {
            x: PLAYER_X_OFFSET - half_width,
            y: ground_line + PLAYER_HALF_HEIGHT,
            half_width: PLAYER_HALF_WIDTH,
            half_height: PLAYER_HALF_HEIGHT,
            vertical_velocity: 0,
            ground_state: GroundState::OnGround,
        };
        let s = Session {
            config,
            player,
            obstacles: Vec::new(),
            countdown_ms: config.spawn_period_ms,
            terminated: false,
        };
        assert(slots_view(s.obstacles@) =~= Seq::<Option<ObstacleV>>::empty());
        s
    }

    /// Translates every live obstacle by its velocity over the frame and
    /// destroys those whose translated x-position is past the despawn
    /// limit, in one pass over the arena.
    pub fn advance_obstacles(&mut self, dt_ms: i64)
        requires
            old(self)@.config.wf(),
            0 <= dt_ms <= MAX_TIME_MS,
        ensures
            final(self)@.slots == spec_advance_slots(
                old(self)@.slots,
                dt_ms as int,
                old(self)@.config.despawn_limit(),
            ),
            final(self).config == old(self).config,
            final(self).player == old(self).player,
            final(self).countdown_ms == old(self).countdown_ms,
            final(self).terminated == old(self).terminated,
    {
        let limit: i64 = 2 * self.config.playfield_width;
        let n: usize = self.obstacles.len();
        let mut i: usize = 0;
        while i < n
            invariant
                i <= n,
                n == self.obstacles.len(),
                n == old(self).obstacles@.len(),
                limit == old(self)@.config.despawn_limit(),
                0 <= dt_ms <= MAX_TIME_MS,
                self.config == old(self).config,
                self.player == old(self).player,
                self.countdown_ms == old(self).countdown_ms,
                self.terminated == old(self).terminated,
                forall|j: int| 0 <= j < i ==> slots_view(self.obstacles@)[j]
                    == spec_advance_slot(
                        slots_view(old(self).obstacles@)[j],
                        dt_ms as int,
                        old(self)@.config.despawn_limit(),
                    ),
                forall|j: int| i <= j < n ==> self.obstacles@[j] == old(self).obstacles@[j],
            decreases n - i,
        {
            let ghost prev = self.obstacles@;
            let slot = self.obstacles[i];
            if let Some(o) = slot {
                assert((i64::MIN as i128) * (MAX_TIME_MS as i128)
                    <= (o.speed as i128) * (dt_ms as i128)
                    <= (i64::MAX as i128) * (MAX_TIME_MS as i128)) by (nonlinear_arith)
                    requires
                        i64::MIN <= o.speed <= i64::MAX,
                        0 <= dt_ms <= MAX_TIME_MS,
                ;
                let moved_x: i128 = o.x as i128 + (o.speed as i128) * (dt_ms as i128);
                if moved_x > limit as i128 || moved_x < -(limit as i128) {
                    self.obstacles[i] = None;
                } else {
                    self.obstacles[i] = Some(Obstacle { x: moved_x as i64, ..o });
                }
            }
            proof {
                assert forall|j: int| 0 <= j <= i as int implies slots_view(self.obstacles@)[j]
                    == spec_advance_slot(
                        slots_view(old(self).obstacles@)[j],
                        dt_ms as int,
                        old(self)@.config.despawn_limit(),
                    ) by {
                    if j < i as int {
                        assert(self.obstacles@[j] == prev[j]);
                        assert(slots_view(prev)[j] == spec_advance_slot(
                            slots_view(old(self).obstacles@)[j],
                            dt_ms as int,
                            old(self)@.config.despawn_limit(),
                        ));
                    }
                }
            }
            i += 1;
        }
        assert(slots_view(self.obstacles@) =~= spec_advance_slots(
            slots_view(old(self).obstacles@),
            dt_ms as int,
            old(self)@.config.despawn_limit(),
        ));
    }

    /// Advances the spawn countdown by the frame's elapsed time; when it
    /// completes, appends one obstacle to the arena and restarts the
    /// countdown from its full period.
    pub fn spawn_obstacles(&mut self, dt_ms: i64)
        requires
            old(self)@.config.wf(),
            0 < old(self)@.countdown_ms <= old(self)@.config.spawn_period_ms,
            0 <= dt_ms <= MAX_TIME_MS,
        ensures
            spec_timer_fires(old(self)@, dt_ms as int) ==> {
                &&& final(self)@.slots == old(self)@.slots.push(
                    Some(spec_spawned_obstacle(old(self)@.config)),
                )
                &&& final(self).countdown_ms == old(self).config.spawn_period_ms
            },
            !spec_timer_fires(old(self)@, dt_ms as int) ==> {
                &&& final(self)@.slots == old(self)@.slots
                &&& final(self).countdown_ms == old(self).countdown_ms - dt_ms
            },
            final(self).config == old(self).config,
            final(self).player == old(self).player,
            final(self).terminated == old(self).terminated,
            0 < final(self)@.countdown_ms <= final(self)@.config.spawn_period_ms,
    {
        let c = self.countdown_ms - dt_ms;
        if c <= 0 {
            let spawn_x = self.config.spawn_x_exec();
            let ground_line = self.config.ground_line_exec();
            let ob = Obstacle {
                x: spawn_x,
                y: ground_line + OBSTACLE_HALF_HEIGHT,
                half_width: OBSTACLE_HALF_WIDTH,
                half_height: OBSTACLE_HALF_HEIGHT,
                speed: self.config.base_obstacle_speed,
            };
            self.obstacles.push(Some(ob));
            self.countdown_ms = self.config.spawn_period_ms;
        } else {
            self.countdown_ms = c;
        }
    }

    /// Tests whether any live obstacle's box overlaps the player's box.
    pub fn collision(&self) -> (hit: bool)
        ensures
            hit == spec_collides(self@.player, self@.slots),
    {
        let n: usize = self.obstacles.len();
        let mut i: usize = 0;
        while i < n
            invariant
                i <= n,
                n == self.obstacles.len(),
                forall|j: int| 0 <= j < i ==> !(self@.slots[j] is Some
                    && spec_overlaps(self@.player, self@.slots[j]->0)),
            decreases n - i,
        {
            if let Some(o) = &self.obstacles[i] {
                if overlaps(&self.player, o) {
                    assert(self@.slots[i as int] is Some
                        && spec_overlaps(self@.player, self@.slots[i as int]->0));
                    return true;
                }
            }
            assert(!(self@.slots[i as int] is Some
                && spec_overlaps(self@.player, self@.slots[i as int]->0)));
            i += 1;
        }
        assert(self@.slots.len() == n);
        false
    }

    /// Runs one frame: the obstacle phase, then the motion pipeline in its
    /// fixed order, then the collision check over the final positions.
    /// Returns whether the collision signal fired this frame; the
    /// session's termination flag is set, and stays set, once it does.
    pub fn step(&mut self, input: InputState, dt_ms: i64) -> (hit: bool)
        requires
            old(self)@.wf(),
            0 <= dt_ms <= MAX_TIME_MS,
            motion_fits(old(self)@.player, input.jump_held, input.duck_held, dt_ms as int),
        ensures
            final(self)@ == spec_step(old(self)@, input.jump_held, input.duck_held, dt_ms as int),
            hit == spec_hit(old(self)@, input.jump_held, input.duck_held, dt_ms as int),
            final(self)@.wf(),
    {
        self.advance_obstacles(dt_ms);
        self.spawn_obstacles(dt_ms);
        let ground_line = self.config.ground_line_exec();
        self.player.jump(input.jump_held);
        self.player.snap(input.duck_held);
        self.player.gravity(dt_ms);
        self.player.vertical_movement(dt_ms);
        self.player.grounding(ground_line);
        let hit = self.collision();
        if hit {
            self.terminated = true;
        }
        proof {
            assert(self@ =~= spec_step(
                old(self)@,
                input.jump_held,
                input.duck_held,
                dt_ms as int,
            ));
        }
        hit
    }

    /// Runs one frame after checking that its motion stays within the
    /// fixed-point range.  Returns whether the collision signal fired, or
    /// `None`, leaving the session untouched, when the frame's velocity
    /// or y-position would leave the range.
    pub fn try_step(&mut self, input: InputState, dt_ms: i64) -> (r: Option<bool>)
        requires
            old(self)@.wf(),
            0 <= dt_ms <= MAX_TIME_MS,
        ensures
            r is Some <==> motion_fits(
                old(self)@.player,
                input.jump_held,
                input.duck_held,
                dt_ms as int,
            ),
            r is Some ==> {
                &&& final(self)@ == spec_step(
                    old(self)@,
                    input.jump_held,
                    input.duck_held,
                    dt_ms as int,
                )
                &&& r->0 == spec_hit(old(self)@, input.jump_held, input.duck_held, dt_ms as int)
                &&& final(self)@.wf()
            },
            r is None ==> *final(self) == *old(self),
    {
        if self.player.motion_fits_check(input.jump_held, input.duck_held, dt_ms) {
            Some(self.step(input, dt_ms))
        } else {
            None
        }
    }
}

} // verus!
