use ittoku_frogger::config::Config;
use ittoku_frogger::direction::Direction;
use ittoku_frogger::obstacle::ObstacleState;
use ittoku_frogger::player::PlayerState;
use ittoku_frogger::rules::{check_goal, first_collision, resolve_collision, touches};

fn player_at(lane: u32, row: u32) -> PlayerState {
    PlayerState { lane, row, cooldown: 123, facing: Direction::Right }
}

#[test]
fn overlap_in_the_same_lane_is_a_hit() {
    let config = Config::standard();
    let player = player_at(3, 2);
    assert!(touches(&player, &ObstacleState::new(3, 2_400_000_000, 0), &config));
    assert!(touches(&player, &ObstacleState::new(3, 2_000_000_000, 0), &config));
    assert!(touches(&player, &ObstacleState::new(3, 1_100_000_001, 0), &config));
    assert!(touches(&player, &ObstacleState::new(3, 2_899_999_999, 0), &config));
}

#[test]
fn intervals_that_only_meet_do_not_overlap() {
    let config = Config::standard();
    let player = player_at(3, 2);
    assert!(!touches(&player, &ObstacleState::new(3, 2_900_000_000, 0), &config));
    assert!(!touches(&player, &ObstacleState::new(3, 1_100_000_000, 0), &config));
}

#[test]
fn another_lane_is_never_a_hit() {
    let config = Config::standard();
    let player = player_at(3, 2);
    assert!(!touches(&player, &ObstacleState::new(2, 2_000_000_000, 0), &config));
    assert!(!touches(&player, &ObstacleState::new(4, 2_000_000_000, 0), &config));
}

#[test]
fn odd_sizes_are_halved_exactly() {
    let config = Config { player_size: 1, obstacle_size: 1, ..Config::standard() };
    let player = player_at(0, 1);
    assert!(touches(&player, &ObstacleState::new(0, 1_000_000_000, 0), &config));
    assert!(!touches(&player, &ObstacleState::new(0, 1_000_000_001, 0), &config));
    assert!(!touches(&player, &ObstacleState::new(0, 999_999_999, 0), &config));
}

#[test]
fn extreme_positions_do_not_overflow() {
    let config = Config { player_size: i64::MAX, obstacle_size: i64::MAX, ..Config::standard() };
    let player = player_at(0, u32::MAX);
    assert!(touches(&player, &ObstacleState::new(0, i64::MAX, 0), &config));
    let narrow = Config::standard();
    assert!(!touches(&player, &ObstacleState::new(0, i64::MIN, 0), &narrow));
}

#[test]
fn first_collision_finds_the_earliest_obstacle() {
    let config = Config::standard();
    let player = player_at(3, 2);
    let obstacles = vec![
        ObstacleState::new(1, 2_000_000_000, 0),
        ObstacleState::new(3, 2_400_000_000, 0),
        ObstacleState::new(3, 2_000_000_000, 0),
    ];
    assert_eq!(first_collision(&player, &obstacles, &config), Some(1));
    assert_eq!(first_collision(&player_at(1, 2), &obstacles, &config), Some(0));
    assert_eq!(first_collision(&player_at(2, 2), &obstacles, &config), None);
    assert_eq!(first_collision(&player, &Vec::new(), &config), None);
}

#[test]
fn collision_costs_a_point_and_respawns() {
    let config = Config::standard();
    let obstacles = vec![ObstacleState::new(3, 2_400_000_000, 1_000)];
    let (player, score) = resolve_collision(player_at(3, 2), &obstacles, 5, &config);
    assert_eq!(score, 4);
    assert_eq!(player, PlayerState { lane: 0, row: 4, cooldown: 123, facing: Direction::Right });
}

#[test]
fn touching_two_obstacles_costs_one_point() {
    let config = Config::standard();
    let obstacles = vec![
        ObstacleState::new(3, 2_400_000_000, 0),
        ObstacleState::new(3, 1_900_000_000, 0),
    ];
    let (player, score) = resolve_collision(player_at(3, 2), &obstacles, 0, &config);
    assert_eq!(score, -1);
    assert_eq!((player.lane, player.row), (0, 4));
}

#[test]
fn no_collision_changes_nothing() {
    let config = Config::standard();
    let obstacles = vec![ObstacleState::new(3, 6_000_000_000, 0)];
    let (player, score) = resolve_collision(player_at(3, 2), &obstacles, 5, &config);
    assert_eq!(score, 5);
    assert_eq!(player, player_at(3, 2));
}

#[test]
fn goal_earns_a_point_and_respawns() {
    let config = Config::standard();
    let (player, score) = check_goal(player_at(11, 6), -2, &config);
    assert_eq!(score, -1);
    assert_eq!(player, PlayerState { lane: 0, row: 4, cooldown: 123, facing: Direction::Right });
}

#[test]
fn short_of_the_goal_nothing_happens() {
    let config = Config::standard();
    let (player, score) = check_goal(player_at(10, 6), 7, &config);
    assert_eq!(score, 7);
    assert_eq!(player, player_at(10, 6));
}

#[test]
fn goal_check_twice_scores_once() {
    let config = Config::standard();
    let (player, score) = check_goal(player_at(11, 0), 0, &config);
    let (again, score_again) = check_goal(player, score, &config);
    assert_eq!(score, 1);
    assert_eq!(score_again, 1);
    assert_eq!(again, player);
}

#[test]
fn a_lane_beyond_the_goal_counts_as_reached() {
    let config = Config { goal_lane: 5, ..Config::standard() };
    let (player, score) = check_goal(player_at(8, 1), 0, &config);
    assert_eq!(score, 1);
    assert_eq!((player.lane, player.row), (0, 4));
}
