//! Units and session configuration.
//!
//! The board is a grid of `board_width` lanes by `board_height` rows. The
//! player advances lane by lane and steps sideways row by row. Obstacles stay
//! in one lane and slide along the row axis.
//!
//! Everything continuous is held in fixed point: a position along the row axis
//! is a whole number of units ([`UNITS_PER_CELL`] to the cell), a duration is a
//! whole number of microseconds, and a velocity is a number of units per
//! microsecond (so `1_000` is one cell per second).
use vstd::prelude::*;

verus! {

/// Position units in one board cell.
pub const UNITS_PER_CELL: i64 = 1_000_000_000;

/// Largest number of lanes or rows a board may have.
pub const MAX_BOARD_CELLS: u32 = 1_000_000;

/// How far beyond either end of the row axis an obstacle may be, and the
/// longest distance it may cover in one tick, in units.
pub const MAX_REACH: i64 = 1_000_000_000_000_000_000;

/// Lanes of the standard board.
pub const BOARD_WIDTH: u32 = 12;

/// Rows of the standard board.
pub const BOARD_HEIGHT: u32 = 8;

/// Lane in which the player starts on the standard board.
pub const SPAWN_LANE: u32 = 0;

/// Row in which the player starts on the standard board.
pub const SPAWN_ROW: u32 = 4;

/// Lane that scores on the standard board: its far edge.
pub const GOAL_LANE: u32 = 11;

/// Time between two accepted moves, in microseconds.
pub const MOVE_COOLDOWN: u64 = 300_000;

/// Length of one tick, in microseconds: a sixtieth of a second.
pub const TICK_DURATION: u64 = 16_667;

/// Extent of the player along the row axis, in units: one cell.
pub const PLAYER_SIZE: i64 = 1_000_000_000;

/// Extent of an obstacle along the row axis, in units: four fifths of a cell.
pub const OBSTACLE_SIZE: i64 = 800_000_000;

/// Speed of the obstacle in lane 1, in units per microsecond; the obstacle in
/// lane `n` is `n` times as fast.
pub const OBSTACLE_SPEED: i64 = 1_000;

/// The constants of one session. Nothing changes them while it runs.
#[derive(Clone, Copy, Debug, PartialEq, Eq)]
pub struct Config {
    /// Number of lanes: the player's lane is in `0..board_width`.
    pub board_width: u32,
    /// Number of rows: the player's row is in `0..board_height`.
    pub board_height: u32,
    /// Lane of the spawn cell.
    pub spawn_lane: u32,
    /// Row of the spawn cell.
    pub spawn_row: u32,
    /// The player scores on reaching this lane or one beyond it.
    pub goal_lane: u32,
    /// Time that must pass after an accepted move before the next one.
    pub move_cooldown: u64,
    /// Time that one tick stands for.
    pub tick_duration: u64,
    /// Extent of the player along the row axis.
    pub player_size: i64,
    /// Extent of each obstacle along the row axis.
    pub obstacle_size: i64,
    /// Speed per lane number of the obstacles that a new game spawns.
    pub obstacle_speed: i64,
}

impl Config {
    /// Length of the row axis in units.
    pub open spec fn axis_length(self) -> int {
        self.board_height * UNITS_PER_CELL
    }

    /// Centre of row `row` on the row axis, in units.
    pub open spec fn row_position(row: int) -> int {
        row * UNITS_PER_CELL
    }

    /// A configuration that a game can run on: the board is not empty and not
    /// larger than [`MAX_BOARD_CELLS`] either way, the spawn cell is on it and
    /// short of the goal lane, sizes are not negative, an obstacle fits on the
    /// row axis, and the speed of an obstacle spawned in the last lane, and
    /// what it covers in one tick, are at most [`MAX_REACH`].
    pub open spec fn wf(self) -> bool {
        &&& 1 <= self.board_width <= MAX_BOARD_CELLS
        &&& 1 <= self.board_height <= MAX_BOARD_CELLS
        &&& self.spawn_lane < self.board_width
        &&& self.spawn_row < self.board_height
        &&& self.spawn_lane < self.goal_lane
        &&& 0 <= self.player_size
        &&& 0 <= self.obstacle_size <= self.axis_length()
        &&& 0 <= self.obstacle_speed
        &&& self.board_width * self.obstacle_speed <= MAX_REACH
        &&& self.board_width * self.obstacle_speed * self.tick_duration <= MAX_REACH
    }

    /// The standard session: a 12 by 8 board, spawn at lane 0, row 4, the goal
    /// at lane 11, and the other constants of this module.
    pub fn standard() -> (config: Config)
        ensures
            config.wf(),
            config == (Config {
                board_width: BOARD_WIDTH,
                board_height: BOARD_HEIGHT,
                spawn_lane: SPAWN_LANE,
                spawn_row: SPAWN_ROW,
                goal_lane: GOAL_LANE,
                move_cooldown: MOVE_COOLDOWN,
                tick_duration: TICK_DURATION,
                player_size: PLAYER_SIZE,
                obstacle_size: OBSTACLE_SIZE,
                obstacle_speed: OBSTACLE_SPEED,
            }),
    {
        assert(12 * 1_000 * 16_667 <= 1_000_000_000_000_000_000int);
        assert(0 <= 800_000_000 <= 8 * 1_000_000_000int);
        Config {
            board_width: BOARD_WIDTH,
            board_height: BOARD_HEIGHT,
            spawn_lane: SPAWN_LANE,
            spawn_row: SPAWN_ROW,
            goal_lane: GOAL_LANE,
            move_cooldown: MOVE_COOLDOWN,
            tick_duration: TICK_DURATION,
            player_size: PLAYER_SIZE,
            obstacle_size: OBSTACLE_SIZE,
            obstacle_speed: OBSTACLE_SPEED,
        }
    }

    /// Says whether a game can run on this configuration.
    pub fn is_valid(&self) -> (ok: bool)
        ensures
            ok == self.wf(),
    {
        if !(1 <= self.board_width && self.board_width <= MAX_BOARD_CELLS
            && 1 <= self.board_height && self.board_height <= MAX_BOARD_CELLS
            && self.spawn_lane < self.board_width
            && self.spawn_row < self.board_height
            && self.spawn_lane < self.goal_lane
            && 0 <= self.player_size
            && 0 <= self.obstacle_size
            && 0 <= self.obstacle_speed) {
            return false;
        }
        let length: i64 = self.board_height as i64 * UNITS_PER_CELL;
        if self.obstacle_size > length {
            return false;
        }
        let width: u128 = self.board_width as u128;
        let speed: u128 = self.obstacle_speed as u128;
        let tick: u128 = self.tick_duration as u128;
        assert(width * speed <= 1_000_000 * 0x8000_0000_0000_0000) by (nonlinear_arith)
            requires
                0 <= width <= 1_000_000,
                0 <= speed < 0x8000_0000_0000_0000,
        ;
        let per_micro: u128 = width * speed;
        if per_micro > MAX_REACH as u128 {
            return false;
        }
        assert(per_micro * tick <= 1_000_000_000_000_000_000 * 0x1_0000_0000_0000_0000)
            by (nonlinear_arith)
            requires
                0 <= per_micro <= 1_000_000_000_000_000_000,
                0 <= tick < 0x1_0000_0000_0000_0000,
        ;
        per_micro * tick <= MAX_REACH as u128
    }
}

} // verus!
