//! The player and the movement controller.
//!
//! The player stands on one cell of the board. A move command is accepted only
//! once the cooldown that the previous accepted command started has run out.
//! An accepted command turns the player, moves it one cell unless that cell
//! would lie off the board, and starts the cooldown again.
use vstd::prelude::*;
use crate::config::Config;
use crate::direction::Direction;

verus! {

/// The player as the contracts see it.
pub struct PlayerModel {
    /// Lane of the player's cell.
    pub lane: int,
    /// Row of the player's cell.
    pub row: int,
    /// Time left until a command is accepted, in microseconds.
    pub cooldown: int,
    /// Direction of the last accepted command.
    pub facing: Direction,
}

impl PlayerModel {
    /// The player's cell is on the board.
    pub open spec fn on_board(self, config: Config) -> bool {
        &&& 0 <= self.lane < config.board_width
        &&& 0 <= self.row < config.board_height
    }

    /// The player stands on the spawn cell.
    pub open spec fn at_spawn(self, config: Config) -> bool {
        self.lane == config.spawn_lane && self.row == config.spawn_row
    }

    /// The cell one step from the player's in `direction` is on the board.
    pub open spec fn can_move(self, direction: Direction, config: Config) -> bool {
        &&& 0 <= self.lane + direction.lane_delta() < config.board_width
        &&& 0 <= self.row + direction.row_delta() < config.board_height
    }

    /// The cooldown has run out: the next command will be accepted.
    pub open spec fn ready(self) -> bool {
        self.cooldown == 0
    }

    /// The player after `dt` microseconds without a command.
    pub open spec fn elapse(self, dt: int) -> PlayerModel {
        PlayerModel { cooldown: if self.cooldown <= dt { 0 } else { self.cooldown - dt }, ..self }
    }

    /// The player one cell further in `direction`, or where it stands if that
    /// cell is off the board.
    pub open spec fn shift(self, direction: Direction, config: Config) -> PlayerModel {
        if self.can_move(direction, config) {
            PlayerModel {
                lane: self.lane + direction.lane_delta(),
                row: self.row + direction.row_delta(),
                ..self
            }
        } else {
            self
        }
    }

    /// The player after one command: unchanged while the cooldown runs,
    /// otherwise turned, shifted, and with the cooldown started again.
    pub open spec fn command(self, direction: Direction, config: Config) -> PlayerModel {
        if self.ready() {
            PlayerModel {
                cooldown: config.move_cooldown as int,
                facing: direction,
                ..self.shift(direction, config)
            }
        } else {
            self
        }
    }

    /// The player after the commands of `directions`, first to last.
    pub open spec fn commands(self, directions: Seq<Direction>, config: Config) -> PlayerModel
        decreases directions.len(),
    {
        if directions.len() == 0 {
            self
        } else {
            self.commands(directions.drop_last(), config).command(directions.last(), config)
        }
    }

    /// The player after a tick of `dt` microseconds in which `command` arrived.
    pub open spec fn step(self, dt: int, command: Option<Direction>, config: Config) -> PlayerModel {
        match command {
            Some(direction) => self.elapse(dt).command(direction, config),
            None => self.elapse(dt),
        }
    }

    /// The player back on the spawn cell, with cooldown and facing as they are.
    pub open spec fn respawn(self, config: Config) -> PlayerModel {
        PlayerModel { lane: config.spawn_lane as int, row: config.spawn_row as int, ..self }
    }
}

/// The player: a cell of the board, the rest of the cooldown, and a facing for
/// whoever draws it.
#[derive(Clone, Copy, Debug, PartialEq, Eq)]
pub struct PlayerState {
    /// Lane of the player's cell.
    pub lane: u32,
    /// Row of the player's cell.
    pub row: u32,
    /// Time left until a command is accepted, in microseconds.
    pub cooldown: u64,
    /// Direction of the last accepted command.
    pub facing: Direction,
}

impl View for PlayerState {
    type V = PlayerModel;

    open spec fn view(&self) -> PlayerModel {
        PlayerModel {
            lane: self.lane as int,
            row: self.row as int,
            cooldown: self.cooldown as int,
            facing: self.facing,
        }
    }
}

impl PlayerState {
    /// A player on the spawn cell, facing down, with a full cooldown to wait
    /// out before its first move.
    pub fn new(config: &Config) -> (player: PlayerState)
        ensures
            player@ == (PlayerModel {
                lane: config.spawn_lane as int,
                row: config.spawn_row as int,
                cooldown: config.move_cooldown as int,
                facing: Direction::Down,
            }),
    {
        PlayerState {
            lane: config.spawn_lane,
            row: config.spawn_row,
            cooldown: config.move_cooldown,
            facing: Direction::Down,
        }
    }

    /// Says whether the player's cell is on the board.
    pub fn is_on_board(&self, config: &Config) -> (ok: bool)
        ensures
            ok == self@.on_board(*config),
    {
        self.lane < config.board_width && self.row < config.board_height
    }

    /// Says whether a command that arrives now will be accepted.
    pub fn accepts(&self) -> (ok: bool)
        ensures
            ok == self@.ready(),
    {
        self.cooldown == 0
    }

    /// Lets `dt` microseconds pass: the cooldown runs down by `dt` and stops
    /// at zero.
    pub fn elapse(self, dt: u64) -> (player: PlayerState)
        ensures
            player@ == self@.elapse(dt as int),
    {
        let cooldown: u64 = if self.cooldown <= dt { 0 } else { self.cooldown - dt };
        PlayerState { cooldown, ..self }
    }

    /// Applies one command. While the cooldown runs nothing changes. Once it
    /// has run out the player turns to `direction`, moves one cell that way
    /// unless that would leave the board, and the cooldown starts again.
    pub fn apply(self, direction: Direction, config: &Config) -> (player: PlayerState)
        requires
            self@.on_board(*config),
        ensures
            player@ == self@.command(direction, *config),
            player@.on_board(*config),
    {
        if !self.accepts() {
            return self;
        }
        let mut lane: u32 = self.lane;
        let mut row: u32 = self.row;
        match direction {
            Direction::Up => {
                if lane + 1 < config.board_width {
                    lane = lane + 1;
                }
            },
            Direction::Down => {
                if lane > 0 {
                    lane = lane - 1;
                }
            },
            Direction::Right => {
                if row + 1 < config.board_height {
                    row = row + 1;
                }
            },
            Direction::Left => {
                if row > 0 {
                    row = row - 1;
                }
            },
        }
        PlayerState { lane, row, cooldown: config.move_cooldown, facing: direction }
    }

    /// One tick of the movement controller: `dt` microseconds pass, then the
    /// pending command, if there is one, is applied.
    pub fn step(self, dt: u64, command: Option<Direction>, config: &Config) -> (player: PlayerState)
        requires
            self@.on_board(*config),
        ensures
            player@ == self@.step(dt as int, command, *config),
            player@.on_board(*config),
    {
        let waited = self.elapse(dt);
        match command {
            Some(direction) => waited.apply(direction, config),
            None => waited,
        }
    }

    /// Applies the commands of `directions` in the order in which they
    /// arrived.
    pub fn apply_all(self, directions: &Vec<Direction>, config: &Config) -> (player: PlayerState)
        requires
            self@.on_board(*config),
        ensures
            player@ == self@.commands(directions@, *config),
            player@.on_board(*config),
    {
        let mut player = self;
        let mut i: usize = 0;
        while i < directions.len()
            invariant
                i <= directions.len(),
                player@.on_board(*config),
                player@ == self@.commands(directions@.take(i as int), *config),
            decreases directions.len() - i,
        {
            proof {
                let next = directions@.take(i + 1);
                assert(next.drop_last() =~= directions@.take(i as int));
                assert(next.last() == directions@[i as int]);
            }
            player = player.apply(directions[i], config);
            i = i + 1;
        }
        proof {
            assert(directions@.take(i as int) =~= directions@);
        }
        player
    }

    /// Puts the player back on the spawn cell. Cooldown and facing stay.
    pub fn respawn(self, config: &Config) -> (player: PlayerState)
        ensures
            player@ == self@.respawn(*config),
    {
        PlayerState { lane: config.spawn_lane, row: config.spawn_row, ..self }
    }
}

} // verus!
