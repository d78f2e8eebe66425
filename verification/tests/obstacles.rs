use ittoku_frogger::config::{Config, OBSTACLE_SIZE, UNITS_PER_CELL};
use ittoku_frogger::obstacle::ObstacleState;

const AXIS: i64 = 8 * UNITS_PER_CELL;

#[test]
fn obstacle_turns_in_the_tick_it_passes_the_near_edge() {
    let obstacle = ObstacleState::new(3, 0, -5_000);
    let after = obstacle.advance(100_000, OBSTACLE_SIZE, AXIS);
    assert_eq!(after, ObstacleState { lane: 3, axis_position: -500_000_000, velocity: 5_000 });
}

#[test]
fn reversed_velocity_carries_the_obstacle_back() {
    let obstacle = ObstacleState::new(3, 0, -5_000);
    let once = obstacle.advance(100_000, OBSTACLE_SIZE, AXIS);
    let twice = once.advance(100_000, OBSTACLE_SIZE, AXIS);
    assert_eq!(twice, ObstacleState { lane: 3, axis_position: 0, velocity: 5_000 });
    let thrice = twice.advance(100_000, OBSTACLE_SIZE, AXIS);
    assert_eq!(thrice, ObstacleState { lane: 3, axis_position: 500_000_000, velocity: 5_000 });
}

#[test]
fn obstacle_turns_when_its_far_side_passes_the_far_edge() {
    let obstacle = ObstacleState::new(1, 7_000_000_000, 5_000);
    let after = obstacle.advance(100_000, OBSTACLE_SIZE, AXIS);
    assert_eq!(after, ObstacleState { lane: 1, axis_position: 7_500_000_000, velocity: -5_000 });
    let back = after.advance(100_000, OBSTACLE_SIZE, AXIS);
    assert_eq!(back, ObstacleState { lane: 1, axis_position: 7_000_000_000, velocity: -5_000 });
}

#[test]
fn obstacle_flush_with_an_edge_does_not_turn() {
    let far = ObstacleState::new(1, 7_100_000_000, 1_000).advance(100_000, OBSTACLE_SIZE, AXIS);
    assert_eq!(far, ObstacleState { lane: 1, axis_position: 7_200_000_000, velocity: 1_000 });
    let near = ObstacleState::new(1, 100_000_000, -1_000).advance(100_000, OBSTACLE_SIZE, AXIS);
    assert_eq!(near, ObstacleState { lane: 1, axis_position: 0, velocity: -1_000 });
}

#[test]
fn obstacle_far_out_of_range_turns_every_tick() {
    let start = ObstacleState::new(2, -3_000_000_000, 1_000);
    let once = start.advance(100_000, OBSTACLE_SIZE, AXIS);
    assert_eq!(once, ObstacleState { lane: 2, axis_position: -2_900_000_000, velocity: -1_000 });
    let twice = once.advance(100_000, OBSTACLE_SIZE, AXIS);
    assert_eq!(twice, ObstacleState { lane: 2, axis_position: -3_000_000_000, velocity: 1_000 });
}

#[test]
fn range_test_reads_both_edges() {
    assert!(ObstacleState::new(0, -1, 0).is_out_of_range(OBSTACLE_SIZE, AXIS));
    assert!(!ObstacleState::new(0, 0, 0).is_out_of_range(OBSTACLE_SIZE, AXIS));
    assert!(!ObstacleState::new(0, 7_200_000_000, 0).is_out_of_range(OBSTACLE_SIZE, AXIS));
    assert!(ObstacleState::new(0, 7_200_000_001, 0).is_out_of_range(OBSTACLE_SIZE, AXIS));
    assert!(ObstacleState::new(0, i64::MAX, 0).is_out_of_range(i64::MAX, AXIS));
}

#[test]
fn zero_time_moves_nothing() {
    let obstacle = ObstacleState::new(4, 1_234, -9);
    assert_eq!(obstacle.advance(0, OBSTACLE_SIZE, AXIS), obstacle);
}

#[test]
fn tick_uses_the_configured_duration_and_size() {
    let config = Config::standard();
    let after = ObstacleState::new(5, 0, 5_000).tick(&config);
    assert_eq!(after, ObstacleState { lane: 5, axis_position: 83_335_000, velocity: 5_000 });
    let turned = ObstacleState::new(5, 7_200_000_000, 5_000).tick(&config);
    assert_eq!(turned, ObstacleState { lane: 5, axis_position: 7_283_335_000, velocity: -5_000 });
}

#[test]
fn ticking_obstacle_stays_near_the_axis() {
    let config = Config::standard();
    let mut obstacle = ObstacleState::new(9, 0, 9_000);
    let stride: i64 = 9_000 * 16_667;
    for _ in 0..5_000 {
        obstacle = obstacle.tick(&config);
        assert!(obstacle.axis_position >= -stride);
        assert!(obstacle.axis_position <= AXIS - OBSTACLE_SIZE + stride);
        assert!(obstacle.velocity == 9_000 || obstacle.velocity == -9_000);
    }
}
