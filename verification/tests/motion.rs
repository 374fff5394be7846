//! Player motion: jump, fast-fall, gravity, integration and grounding,
//! exercised through whole frames of a session.

use dino_runner::config::Config;
use dino_runner::player::GroundState;
use dino_runner::session::{InputState, Session};

fn test_config() -> Config {
    Config {
        playfield_width: 600_000_000,
        playfield_height: 200_000_000,
        ground_band_height: 15_000_000,
        base_obstacle_speed: -200_000,
        spawn_period_ms: 3000,
    }
}

const NO_INPUT: InputState = InputState { jump_held: false, duck_held: false };
const JUMP: InputState = InputState { jump_held: true, duck_held: false };
const DUCK: InputState = InputState { jump_held: false, duck_held: true };

#[test]
fn session_starts_grounded_at_rest() {
    let s = Session::new(test_config());
    assert_eq!(s.player.x, -260_000_000);
    assert_eq!(s.player.y, -55_000_000);
    assert_eq!(s.player.half_width, 20_000_000);
    assert_eq!(s.player.half_height, 30_000_000);
    assert_eq!(s.player.vertical_velocity, 0);
    assert!(matches!(s.player.ground_state, GroundState::OnGround));
    assert_eq!(s.countdown_ms, 3000);
    assert_eq!(s.obstacles.len(), 0);
    assert!(!s.terminated);
}

#[test]
fn jump_impulse_sets_airborne_at_300() {
    let mut s = Session::new(test_config());
    s.step(JUMP, 0);
    assert!(matches!(s.player.ground_state, GroundState::InAir));
    assert_eq!(s.player.vertical_velocity, 300_000);
    assert_eq!(s.player.y, -55_000_000);
}

#[test]
fn jump_held_while_airborne_has_no_extra_effect() {
    let mut s = Session::new(test_config());
    s.step(JUMP, 100);
    assert_eq!(s.player.vertical_velocity, 250_000);
    s.step(JUMP, 100);
    assert_eq!(s.player.vertical_velocity, 200_000);
}

#[test]
fn gravity_strictly_decreases_velocity_at_500_per_second() {
    let mut s = Session::new(test_config());
    s.step(JUMP, 100);
    assert_eq!(s.player.vertical_velocity, 300_000 - 50_000);
    let mut last = s.player.vertical_velocity;
    for _ in 0..4 {
        s.step(NO_INPUT, 100);
        assert!(matches!(s.player.ground_state, GroundState::InAir));
        assert_eq!(s.player.vertical_velocity, last - 50_000);
        assert!(s.player.vertical_velocity < last);
        last = s.player.vertical_velocity;
    }
}

#[test]
fn integration_moves_airborne_player_by_velocity_times_dt() {
    let mut s = Session::new(test_config());
    s.step(JUMP, 100);
    assert_eq!(s.player.y, -55_000_000 + 250_000 * 100);
    s.step(NO_INPUT, 100);
    assert_eq!(s.player.y, -55_000_000 + 250_000 * 100 + 200_000 * 100);
}

#[test]
fn duck_subtracts_flat_600_each_frame_held() {
    let mut s = Session::new(test_config());
    s.step(JUMP, 100);
    assert_eq!(s.player.vertical_velocity, 250_000);
    s.step(DUCK, 100);
    assert_eq!(s.player.vertical_velocity, 250_000 - 600_000 - 50_000);
    assert!(matches!(s.player.ground_state, GroundState::OnGround));
    assert_eq!(s.player.y, -55_000_000);
    let mut s2 = Session::new(test_config());
    s2.player.ground_state = GroundState::InAir;
    s2.player.y = 500_000_000;
    s2.player.vertical_velocity = 0;
    s2.step(DUCK, 100);
    s2.step(DUCK, 100);
    assert_eq!(s2.player.vertical_velocity, -2 * 600_000 - 2 * 50_000);
}

#[test]
fn duck_on_ground_does_nothing() {
    let mut s = Session::new(test_config());
    s.step(DUCK, 100);
    assert_eq!(s.player.vertical_velocity, 0);
    assert_eq!(s.player.y, -55_000_000);
    assert!(matches!(s.player.ground_state, GroundState::OnGround));
}

#[test]
fn grounding_clamps_to_resting_height_and_preserves_velocity() {
    let mut s = Session::new(test_config());
    s.step(JUMP, 1000);
    assert!(matches!(s.player.ground_state, GroundState::OnGround));
    assert_eq!(s.player.y, -55_000_000);
    assert_eq!(s.player.vertical_velocity, 300_000 - 500_000);
}

#[test]
fn grounded_player_rests_exactly_on_ground_line_every_frame() {
    let mut s = Session::new(test_config());
    let inputs = [JUMP, NO_INPUT, DUCK, JUMP, JUMP, NO_INPUT, DUCK, DUCK, JUMP, NO_INPUT];
    for input in inputs {
        s.step(input, 250);
        if matches!(s.player.ground_state, GroundState::OnGround) {
            assert_eq!(s.player.y, -55_000_000);
        }
        assert!(s.player.y >= -55_000_000);
    }
}

#[test]
fn jump_rearms_after_landing() {
    let mut s = Session::new(test_config());
    s.step(JUMP, 1000);
    assert!(matches!(s.player.ground_state, GroundState::OnGround));
    s.step(JUMP, 0);
    assert!(matches!(s.player.ground_state, GroundState::InAir));
    assert_eq!(s.player.vertical_velocity, 300_000);
}

#[test]
fn try_step_runs_a_frame_in_range() {
    let mut s = Session::new(test_config());
    let r = s.try_step(JUMP, 100);
    assert_eq!(r, Some(false));
    assert_eq!(s.player.vertical_velocity, 250_000);
}

#[test]
fn try_step_rejects_a_frame_out_of_range() {
    let mut s = Session::new(test_config());
    s.player.ground_state = GroundState::InAir;
    s.player.y = 500_000_000;
    s.player.vertical_velocity = i64::MIN;
    let r = s.try_step(NO_INPUT, 1000);
    assert_eq!(r, None);
    assert_eq!(s.player.vertical_velocity, i64::MIN);
    assert_eq!(s.player.y, 500_000_000);
    assert_eq!(s.countdown_ms, 3000);
}
