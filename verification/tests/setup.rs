use ittoku_frogger::animation::{Animation, FrameTimer, FRAME_PERIOD};
use ittoku_frogger::config::Config;
use ittoku_frogger::direction::Direction;

#[test]
fn standard_config_has_the_documented_values() {
    let config = Config::standard();
    assert_eq!(
        config,
        Config {
            board_width: 12,
            board_height: 8,
            spawn_lane: 0,
            spawn_row: 4,
            goal_lane: 11,
            move_cooldown: 300_000,
            tick_duration: 16_667,
            player_size: 1_000_000_000,
            obstacle_size: 800_000_000,
            obstacle_speed: 1_000,
        }
    );
    assert!(config.is_valid());
}

#[test]
fn invalid_configs_are_told_apart() {
    let standard = Config::standard();
    assert!(!Config { board_width: 0, ..standard }.is_valid());
    assert!(!Config { board_height: 0, ..standard }.is_valid());
    assert!(!Config { board_width: 1_000_001, ..standard }.is_valid());
    assert!(!Config { board_height: 1_000_001, ..standard }.is_valid());
    assert!(!Config { spawn_lane: 12, goal_lane: 13, ..standard }.is_valid());
    assert!(!Config { spawn_row: 8, ..standard }.is_valid());
    assert!(!Config { goal_lane: 0, ..standard }.is_valid());
    assert!(!Config { player_size: -1, ..standard }.is_valid());
    assert!(!Config { obstacle_size: -1, ..standard }.is_valid());
    assert!(!Config { obstacle_size: 8_000_000_001, ..standard }.is_valid());
    assert!(!Config { obstacle_speed: -1, ..standard }.is_valid());
    assert!(!Config { obstacle_speed: i64::MAX, ..standard }.is_valid());
    assert!(!Config { tick_duration: u64::MAX, ..standard }.is_valid());
}

#[test]
fn limits_of_a_valid_config() {
    let standard = Config::standard();
    assert!(Config { board_width: 1_000_000, goal_lane: 999_999, ..standard }.is_valid());
    assert!(Config { obstacle_size: 8_000_000_000, ..standard }.is_valid());
    assert!(Config { obstacle_size: 0, player_size: 0, ..standard }.is_valid());
    assert!(Config { goal_lane: 4_000_000_000, ..standard }.is_valid());
    assert!(Config { tick_duration: 0, move_cooldown: 0, ..standard }.is_valid());
    assert!(Config { obstacle_speed: 0, tick_duration: u64::MAX, ..standard }.is_valid());
    let fast = Config { board_width: 10, goal_lane: 9, obstacle_speed: 1_000_000, tick_duration: 100_000_000_000, ..standard };
    assert!(fast.is_valid());
    assert!(!Config { tick_duration: 100_000_000_001, ..fast }.is_valid());
    assert!(Config { obstacle_speed: 100_000_000_000_000_000, tick_duration: 1, board_width: 10, goal_lane: 9, ..standard }.is_valid());
    assert!(!Config { obstacle_speed: 100_000_000_000_000_001, tick_duration: 1, board_width: 10, goal_lane: 9, ..standard }.is_valid());
}

#[test]
fn animation_starts_facing_down() {
    assert_eq!(Animation::new(), Animation { first: 0, last: 3, frame: 0 });
}

#[test]
fn animation_walks_its_strip_and_starts_over() {
    let mut animation = Animation::new();
    let mut frames = Vec::new();
    for _ in 0..9 {
        animation = animation.advance();
        frames.push(animation.frame);
    }
    assert_eq!(frames, vec![1, 2, 3, 0, 1, 2, 3, 0, 1]);
}

#[test]
fn facing_switches_the_strip_and_shows_its_first_frame() {
    let animation = Animation::new().advance().advance();
    assert_eq!(animation.face(Direction::Left), Animation { first: 8, last: 11, frame: 8 });
    assert_eq!(animation.face(Direction::Right), Animation { first: 16, last: 19, frame: 16 });
    assert_eq!(animation.face(Direction::Up), Animation { first: 24, last: 27, frame: 24 });
    assert_eq!(animation.face(Direction::Down), Animation { first: 0, last: 3, frame: 0 });
}

#[test]
fn frame_outside_the_strip_counts_on() {
    let stray = Animation { first: 8, last: 11, frame: 20 };
    assert_eq!(stray.advance(), Animation { first: 8, last: 11, frame: 21 });
    let lone = Animation { first: 5, last: usize::MAX, frame: usize::MAX };
    assert_eq!(lone.advance(), Animation { first: 5, last: usize::MAX, frame: 5 });
}

#[test]
fn frame_timer_fires_when_a_period_has_gone_by() {
    let timer = FrameTimer::new(FRAME_PERIOD);
    assert_eq!(timer, FrameTimer { period: 250_000, elapsed: 0 });
    assert_eq!(timer.tick(16_667), (FrameTimer { period: 250_000, elapsed: 16_667 }, false));
    assert_eq!(timer.tick(249_999), (FrameTimer { period: 250_000, elapsed: 249_999 }, false));
    assert_eq!(timer.tick(250_000), (FrameTimer { period: 250_000, elapsed: 0 }, true));
    assert_eq!(timer.tick(250_001), (FrameTimer { period: 250_000, elapsed: 1 }, true));
}

#[test]
fn frame_timer_keeps_what_is_left_over() {
    let mut timer = FrameTimer::new(250_000);
    let mut fired = Vec::new();
    for _ in 0..31 {
        let (next, due) = timer.tick(16_667);
        timer = next;
        fired.push(due);
    }
    assert_eq!(fired.iter().filter(|due| **due).count(), 2);
    assert!(fired[14]);
    assert!(fired[29]);
    assert_eq!(timer.elapsed, 31 * 16_667 - 500_000);
}

#[test]
fn frame_timer_fires_once_for_several_periods() {
    let timer = FrameTimer { period: 250_000, elapsed: 100_000 };
    assert_eq!(timer.tick(1_000_000), (FrameTimer { period: 250_000, elapsed: 100_000 }, true));
    let late = FrameTimer { period: 7, elapsed: u64::MAX };
    assert_eq!(late.tick(u64::MAX), (FrameTimer { period: 7, elapsed: 2 }, true));
}

#[test]
fn frame_timer_without_a_period_fires_every_tick() {
    let timer = FrameTimer::new(0);
    assert_eq!(timer.tick(0), (FrameTimer { period: 0, elapsed: 0 }, true));
    assert_eq!(timer.tick(5), (FrameTimer { period: 0, elapsed: 0 }, true));
}
