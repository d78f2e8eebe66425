//! The simulation: one player, the obstacles, the score and the queue of
//! commands, advanced one tick at a time.
//!
//! A tick runs in a fixed order. The cooldown runs down by the tick's
//! duration and the queued commands are applied in the order in which they
//! arrived; the queue is then empty. Every obstacle moves. The collision rule
//! is applied, and after it the goal rule.
use vstd::prelude::*;
use crate::config::Config;
use crate::direction::Direction;
use crate::obstacle::{lemma_tick_stays_within_reach, ObstacleModel, ObstacleState};
use crate::player::{PlayerModel, PlayerState};
use crate::rules::{after_collision, after_goal, check_goal, obstacle_models, resolve_collision};

verus! {

/// A game as the contracts see it.
pub struct GameModel {
    /// The session's constants.
    pub config: Config,
    /// The player.
    pub player: PlayerModel,
    /// The obstacles, in the order in which they were created.
    pub obstacles: Seq<ObstacleModel>,
    /// Goals reached less collisions suffered.
    pub score: int,
    /// Commands that arrived since the last tick, oldest first.
    pub pending: Seq<Direction>,
}

impl GameModel {
    /// Number of obstacles that a new game spawns on `config`: one for each
    /// odd lane short of the last.
    pub open spec fn spawn_count(config: Config) -> int {
        (config.board_width - 1) / 2
    }

    /// The `k`-th obstacle that a new game spawns: in lane `2k + 1`, at the
    /// start of the row axis, with the configured speed times its lane.
    pub open spec fn spawned(k: int, config: Config) -> ObstacleModel {
        ObstacleModel {
            lane: 2 * k + 1,
            axis_position: 0,
            velocity: (2 * k + 1) * config.obstacle_speed,
        }
    }

    /// A new game on `config`.
    pub open spec fn initial(config: Config) -> GameModel {
        GameModel {
            config,
            player: PlayerModel {
                lane: config.spawn_lane as int,
                row: config.spawn_row as int,
                cooldown: config.move_cooldown as int,
                facing: Direction::Down,
            },
            obstacles: Seq::new(Self::spawn_count(config) as nat, |k: int| Self::spawned(k, config)),
            score: 0,
            pending: Seq::empty(),
        }
    }

    /// The game can be ticked: its configuration is one to run on, the player
    /// is on the board, and every obstacle is within reach.
    pub open spec fn wf(self) -> bool {
        &&& self.config.wf()
        &&& self.player.on_board(self.config)
        &&& forall|i: int|
            0 <= i < self.obstacles.len() ==> (#[trigger] self.obstacles[i]).within_reach(
                self.config,
            )
    }

    /// The game with `direction` added to the queue.
    pub open spec fn enqueue(self, direction: Direction) -> GameModel {
        GameModel { pending: self.pending.push(direction), ..self }
    }

    /// The game after one tick.
    pub open spec fn tick(self) -> GameModel {
        let config = self.config;
        let moved = self.player.elapse(config.tick_duration as int).commands(self.pending, config);
        let obstacles = self.obstacles.map_values(|o: ObstacleModel| o.tick(config));
        let hit = after_collision(moved, obstacles, self.score, config);
        let done = after_goal(hit.0, hit.1, config);
        GameModel { config, player: done.0, obstacles, score: done.1, pending: Seq::empty() }
    }
}

/// Commands never take a player off the board.
pub proof fn lemma_commands_stay_on_board(
    player: PlayerModel,
    directions: Seq<Direction>,
    config: Config,
)
    requires
        player.on_board(config),
    ensures
        player.commands(directions, config).on_board(config),
    decreases directions.len(),
{
    if directions.len() > 0 {
        lemma_commands_stay_on_board(player, directions.drop_last(), config);
    }
}

/// A game that can be ticked can be ticked again afterwards.
pub proof fn lemma_tick_preserves_wf(game: GameModel)
    requires
        game.wf(),
    ensures
        game.tick().wf(),
        game.tick().config == game.config,
{
    let config = game.config;
    lemma_commands_stay_on_board(
        game.player.elapse(config.tick_duration as int),
        game.pending,
        config,
    );
    let after = game.tick();
    assert forall|i: int| 0 <= i < after.obstacles.len() implies (#[trigger] after.obstacles[i]).within_reach(
        config,
    ) by {
        assert(game.obstacles[i].within_reach(config));
        lemma_tick_stays_within_reach(game.obstacles[i], config);
    }
}

/// The whole state of one session.
#[derive(Debug)]
pub struct Game {
    /// The session's constants.
    pub config: Config,
    /// The player.
    pub player: PlayerState,
    /// The obstacles, in the order in which they were created.
    pub obstacles: Vec<ObstacleState>,
    /// Goals reached less collisions suffered.
    pub score: i64,
    /// Commands that arrived since the last tick, oldest first.
    pub pending: Vec<Direction>,
}

/// What the game shows after a tick: a copy for whoever draws it, which no
/// later tick changes.
#[derive(Debug, PartialEq, Eq)]
pub struct Snapshot {
    /// The player.
    pub player: PlayerState,
    /// The obstacles, in the order in which they were created.
    pub obstacles: Vec<ObstacleState>,
    /// The score.
    pub score: i64,
}

impl View for Game {
    type V = GameModel;

    open spec fn view(&self) -> GameModel {
        GameModel {
            config: self.config,
            player: self.player@,
            obstacles: obstacle_models(self.obstacles@),
            score: self.score as int,
            pending: self.pending@,
        }
    }
}

impl Game {
    /// Starts a game: the player on the spawn cell, one obstacle at the
    /// start of each odd lane short of the last, each as many times the
    /// configured speed as its lane's number, no score and no command.
    pub fn new(config: Config) -> (game: Game)
        requires
            config.wf(),
        ensures
            game@ == GameModel::initial(config),
            game@.wf(),
    {
        let mut obstacles: Vec<ObstacleState> = Vec::new();
        let mut lane: u32 = 1;
        while lane + 1 < config.board_width
            invariant
                config.wf(),
                lane == 2 * obstacles.len() + 1,
                2 * obstacles.len() < config.board_width,
                forall|k: int|
                    0 <= k < obstacles.len() ==> {
                        &&& (#[trigger] obstacles[k])@ == GameModel::spawned(k, config)
                        &&& obstacles[k]@.within_reach(config)
                    },
            decreases config.board_width + 1 - lane,
        {
            let factor: i64 = lane as i64;
            let speed: i64 = config.obstacle_speed;
            proof {
                let stride = config.board_width * config.obstacle_speed;
                let tick = config.tick_duration as int;
                assert(0 <= factor * speed <= stride) by (nonlinear_arith)
                    requires
                        0 <= factor <= config.board_width,
                        0 <= speed,
                        stride == config.board_width * speed,
                ;
                assert(0 <= (factor * speed) * tick <= stride * tick) by (nonlinear_arith)
                    requires
                        0 <= factor * speed <= stride,
                        0 <= tick,
                ;
            }
            obstacles.push(ObstacleState::new(lane, 0, factor * speed));
            lane = lane + 2;
        }
        let game = Game {
            config,
            player: PlayerState::new(&config),
            obstacles,
            score: 0,
            pending: Vec::new(),
        };
        proof {
            assert(game@.obstacles =~= GameModel::initial(config).obstacles);
            assert(game@.pending =~= Seq::<Direction>::empty());
        }
        game
    }

    /// Says whether the game can be ticked as far as its state goes; the
    /// score's room is for the caller to see to.
    pub fn is_valid(&self) -> (ok: bool)
        ensures
            ok == self@.wf(),
    {
        if !self.config.is_valid() || !self.player.is_on_board(&self.config) {
            return false;
        }
        let mut i: usize = 0;
        while i < self.obstacles.len()
            invariant
                self.config.wf(),
                i <= self.obstacles.len(),
                forall|j: int| 0 <= j < i ==> (#[trigger] self@.obstacles[j]).within_reach(self.config),
            decreases self.obstacles.len() - i,
        {
            if !self.obstacles[i].is_within_reach(&self.config) {
                assert(self@.obstacles[i as int] == self.obstacles[i as int]@);
                return false;
            }
            assert(self@.obstacles[i as int] == self.obstacles[i as int]@);
            i = i + 1;
        }
        true
    }

    /// Copies out player, obstacles and score.
    pub fn snapshot(&self) -> (shown: Snapshot)
        ensures
            shown.player == self.player,
            shown.obstacles@ == self.obstacles@,
            shown.score == self.score,
    {
        let mut obstacles: Vec<ObstacleState> = Vec::new();
        let mut i: usize = 0;
        while i < self.obstacles.len()
            invariant
                i <= self.obstacles.len(),
                obstacles@ == self.obstacles@.take(i as int),
            decreases self.obstacles.len() - i,
        {
            obstacles.push(self.obstacles[i]);
            proof {
                assert(obstacles@ =~= self.obstacles@.take(i + 1));
            }
            i = i + 1;
        }
        proof {
            assert(self.obstacles@.take(i as int) =~= self.obstacles@);
        }
        Snapshot { player: self.player, obstacles, score: self.score }
    }

    /// Adds a command to the queue. The next tick consumes it.
    pub fn push_command(&mut self, direction: Direction)
        ensures
            final(self)@ == old(self)@.enqueue(direction),
    {
        self.pending.push(direction);
    }

    /// Advances the game by one tick: movement, then the obstacles, then the
    /// collision rule, then the goal rule. The score may change by one either
    /// way, so it must not stand at either end of what an `i64` holds.
    pub fn tick(&mut self)
        requires
            old(self)@.wf(),
            i64::MIN < old(self).score < i64::MAX,
        ensures
            final(self)@ == old(self)@.tick(),
            final(self)@.wf(),
    {
        let config = self.config;
        let ghost before = self@;
        proof {
            lemma_tick_preserves_wf(before);
        }
        let moved = self.player.elapse(config.tick_duration).apply_all(&self.pending, &config);
        self.pending.clear();
        let mut i: usize = 0;
        while i < self.obstacles.len()
            invariant
                before.wf(),
                before.config == config,
                self.config == config,
                self.score == old(self).score,
                self.pending@.len() == 0,
                i <= self.obstacles.len(),
                self.obstacles.len() == before.obstacles.len(),
                forall|j: int|
                    0 <= j < i ==> self.obstacles@[j]@ == (#[trigger] before.obstacles[j]).tick(config),
                forall|j: int|
                    i <= j < self.obstacles.len() ==> self.obstacles@[j]@ == #[trigger] before.obstacles[j],
            decreases self.obstacles.len() - i,
        {
            assert(before.obstacles[i as int].within_reach(config));
            let obstacle = self.obstacles[i];
            self.obstacles.set(i, obstacle.tick(&config));
            i = i + 1;
        }
        proof {
            assert(obstacle_models(self.obstacles@) =~= before.tick().obstacles);
        }
        let hit = resolve_collision(moved, &self.obstacles, self.score, &config);
        let done = check_goal(hit.0, hit.1, &config);
        self.player = done.0;
        self.score = done.1;
        proof {
            assert(self.pending@ =~= Seq::<Direction>::empty());
        }
    }
}

} // verus!
