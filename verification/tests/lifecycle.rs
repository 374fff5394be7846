//! Obstacle lifecycle and collision: timed spawns, uniform translation,
//! off-screen despawn and the termination signal.

use dino_runner::config::Config;
use dino_runner::obstacle::Obstacle;
use dino_runner::player::GroundState;
use dino_runner::session::{InputState, Session};

fn test_config() -> Config {
    Config {
        playfield_width: 600_000_000,
        playfield_height: 200_000_000,
        ground_band_height: 15_000_000,
        base_obstacle_speed: -200_000,
        spawn_period_ms: 3000,
    }
}

const NO_INPUT: InputState = InputState { jump_held: false, duck_held: false };

#[test]
fn obstacle_spawns_when_countdown_completes() {
    let mut s = Session::new(test_config());
    s.step(NO_INPUT, 1000);
    s.step(NO_INPUT, 1000);
    assert_eq!(s.obstacles.len(), 0);
    s.step(NO_INPUT, 1000);
    assert_eq!(s.obstacles.len(), 1);
    let o = s.obstacles[0].expect("spawned obstacle");
    assert_eq!(o.x, 400_000_000);
    assert_eq!(o.y, -62_500_000);
    assert_eq!(o.half_width, 10_000_000);
    assert_eq!(o.half_height, 22_500_000);
    assert_eq!(o.speed, -200_000);
    assert_eq!(s.countdown_ms, 3000);
}

#[test]
fn spawned_obstacle_first_moves_on_the_following_frame() {
    let mut s = Session::new(test_config());
    s.step(NO_INPUT, 3000);
    assert_eq!(s.obstacles[0].unwrap().x, 400_000_000);
    s.step(NO_INPUT, 1000);
    assert_eq!(s.obstacles[0].unwrap().x, 200_000_000);
}

#[test]
fn scenario_obstacle_reaches_centre_without_collision() {
    let mut s = Session::new(test_config());
    for _ in 0..3 {
        s.step(NO_INPUT, 1000);
    }
    assert_eq!(s.obstacles[0].unwrap().x, 400_000_000);
    s.step(NO_INPUT, 1000);
    s.step(NO_INPUT, 1000);
    let o = s.obstacles[0].unwrap();
    assert_eq!(o.x, 0);
    assert_eq!(s.player.x, -260_000_000);
    assert!(!s.terminated);
}

#[test]
fn second_obstacle_spawns_a_period_later() {
    let mut s = Session::new(test_config());
    for _ in 0..6 {
        s.step(NO_INPUT, 1000);
    }
    assert_eq!(s.obstacles.len(), 2);
    assert_eq!(s.obstacles[1].unwrap().x, 400_000_000);
    assert_eq!(s.obstacles[0].unwrap().x, 400_000_000 - 3 * 200_000_000);
}

#[test]
fn obstacle_despawns_once_past_twice_the_playfield_width() {
    let mut s = Session::new(test_config());
    s.step(NO_INPUT, 3000);
    for k in 1..=8 {
        s.step(NO_INPUT, 1000);
        assert!(s.obstacles[0].is_some(), "alive after {k} seconds of travel");
    }
    assert_eq!(s.obstacles[0].unwrap().x, -1_200_000_000);
    s.step(NO_INPUT, 1000);
    assert!(s.obstacles[0].is_none());
}

#[test]
fn despawn_is_irreversible_and_handles_are_never_reused() {
    let mut s = Session::new(test_config());
    s.step(NO_INPUT, 3000);
    for _ in 0..9 {
        s.step(NO_INPUT, 1000);
    }
    assert!(s.obstacles[0].is_none());
    for _ in 0..12 {
        s.step(NO_INPUT, 1000);
        assert!(s.obstacles[0].is_none());
    }
    assert!(s.obstacles.len() > 1);
    assert!(s.obstacles[s.obstacles.len() - 1].is_some());
}

#[test]
fn collision_fires_on_overlap_and_sets_the_sticky_signal() {
    let mut s = Session::new(test_config());
    s.obstacles.push(Some(Obstacle {
        x: -260_000_000,
        y: -62_500_000,
        half_width: 10_000_000,
        half_height: 22_500_000,
        speed: -200_000,
    }));
    let hit = s.step(NO_INPUT, 0);
    assert!(hit);
    assert!(s.terminated);
    s.obstacles[0] = None;
    let hit2 = s.step(NO_INPUT, 0);
    assert!(!hit2);
    assert!(s.terminated, "the termination signal stays set");
}

#[test]
fn near_miss_on_x_axis_does_not_fire() {
    let mut s = Session::new(test_config());
    s.obstacles.push(Some(Obstacle {
        x: -260_000_000 + 30_000_000,
        y: -62_500_000,
        half_width: 10_000_000,
        half_height: 22_500_000,
        speed: 0,
    }));
    let hit = s.step(NO_INPUT, 0);
    assert!(!hit);
    assert!(!s.terminated);
}

#[test]
fn scenario_airborne_player_clears_obstacle_under_it() {
    let mut s = Session::new(test_config());
    s.player.ground_state = GroundState::InAir;
    s.player.y = 0;
    s.obstacles.push(Some(Obstacle {
        x: -260_000_000,
        y: -62_500_000,
        half_width: 10_000_000,
        half_height: 22_500_000,
        speed: 0,
    }));
    let hit = s.step(NO_INPUT, 0);
    assert!(!hit, "y-ranges are disjoint at the apex");
    s.player.y = -50_000_000;
    let hit2 = s.step(NO_INPUT, 0);
    assert!(hit2, "termination fires once the y-ranges intersect");
    assert!(s.terminated);
}
