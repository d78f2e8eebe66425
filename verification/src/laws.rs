//! What holds of the rules whatever the inputs are.
use vstd::prelude::*;
use crate::config::Config;
use crate::direction::Direction;
use crate::game::{lemma_tick_preserves_wf, GameModel};
use crate::obstacle::{lemma_reversed_stride, ObstacleModel};
use crate::player::PlayerModel;
use crate::rules::{after_collision, after_goal, at_goal, collides, overlaps};

verus! {

/// The game after one tick for each entry of `arrivals`: the commands of an
/// entry join the queue, then the game ticks.
pub open spec fn run(game: GameModel, arrivals: Seq<Seq<Direction>>) -> GameModel
    decreases arrivals.len(),
{
    if arrivals.len() == 0 {
        game
    } else {
        let earlier = run(game, arrivals.drop_last());
        (GameModel { pending: earlier.pending + arrivals.last(), ..earlier }).tick()
    }
}

/// Whatever commands arrive and however many ticks pass, the game stays one
/// that can be ticked, and so the player stays on the board.
pub proof fn lemma_player_stays_on_board(game: GameModel, arrivals: Seq<Seq<Direction>>)
    requires
        game.wf(),
    ensures
        run(game, arrivals).wf(),
        run(game, arrivals).config == game.config,
        0 <= run(game, arrivals).player.lane < game.config.board_width,
        0 <= run(game, arrivals).player.row < game.config.board_height,
    decreases arrivals.len(),
{
    if arrivals.len() > 0 {
        lemma_player_stays_on_board(game, arrivals.drop_last());
        let earlier = run(game, arrivals.drop_last());
        lemma_tick_preserves_wf(GameModel { pending: earlier.pending + arrivals.last(), ..earlier });
    }
}

/// The player is on the board after every tick of a run, not only the last.
pub proof fn lemma_player_on_board_throughout(
    game: GameModel,
    arrivals: Seq<Seq<Direction>>,
    ticks: int,
)
    requires
        game.wf(),
        0 <= ticks <= arrivals.len(),
    ensures
        run(game, arrivals.take(ticks)).player.on_board(game.config),
{
    lemma_player_stays_on_board(game, arrivals.take(ticks));
}

/// A command that arrives in a tick by whose end the cooldown has run out is
/// accepted: the player turns to it and the cooldown starts again in full. If
/// the next cell that way is on the board the player moves exactly there; if
/// not, it stays where it is.
pub proof fn lemma_command_after_cooldown(
    player: PlayerModel,
    dt: int,
    direction: Direction,
    config: Config,
)
    requires
        0 <= player.cooldown <= dt,
    ensures
        ({
            let after = player.step(dt, Some(direction), config);
            &&& after.cooldown == config.move_cooldown
            &&& after.facing == direction
            &&& player.can_move(direction, config) ==> {
                &&& after.lane == player.lane + direction.lane_delta()
                &&& after.row == player.row + direction.row_delta()
            }
            &&& !player.can_move(direction, config) ==> {
                &&& after.lane == player.lane
                &&& after.row == player.row
            }
        }),
{
}

/// A command that arrives while the cooldown still runs does nothing: the
/// player stays on its cell, facing as before, and the cooldown only runs on.
pub proof fn lemma_command_before_cooldown(
    player: PlayerModel,
    dt: int,
    direction: Direction,
    config: Config,
)
    requires
        0 <= dt < player.cooldown,
    ensures
        player.step(dt, Some(direction), config) == player.elapse(dt),
        player.step(dt, Some(direction), config).lane == player.lane,
        player.step(dt, Some(direction), config).row == player.row,
        player.step(dt, Some(direction), config).cooldown == player.cooldown - dt,
{
}

/// A step in one of the four directions changes the lane or the row by one,
/// never both.
pub proof fn lemma_one_cell(direction: Direction)
    ensures
        (direction.lane_delta() == 0 && (direction.row_delta() == 1 || direction.row_delta() == -1))
            || (direction.row_delta() == 0 && (direction.lane_delta() == 1
            || direction.lane_delta() == -1)),
{
}

/// An obstacle always moves by exactly its velocity times the elapsed time,
/// in the tick in which it turns as in any other: its position is never set
/// back onto the axis. It turns exactly when the move left it out of range,
/// and the next move then undoes the one that took it there.
pub proof fn lemma_reflection(obstacle: ObstacleModel, dt: int, size: int, axis_length: int)
    ensures
        ({
            let once = obstacle.advance(dt, size, axis_length);
            let twice = once.advance(dt, size, axis_length);
            let out = ObstacleModel::out_of_range(once.axis_position, size, axis_length);
            &&& once.lane == obstacle.lane
            &&& once.axis_position == obstacle.axis_position + obstacle.velocity * dt
            &&& twice.axis_position == once.axis_position + once.velocity * dt
            &&& out ==> once.velocity == -obstacle.velocity
            &&& out ==> twice.axis_position == obstacle.axis_position
            &&& !out ==> once.velocity == obstacle.velocity
        }),
{
    lemma_reversed_stride(obstacle.velocity, dt);
}

/// An obstacle that a tick carried off the axis is back on it after the next:
/// turning round without clamping never strands it.
pub proof fn lemma_overshoot_returns(obstacle: ObstacleModel, dt: int, size: int, axis_length: int)
    requires
        !ObstacleModel::out_of_range(obstacle.axis_position, size, axis_length),
        ObstacleModel::out_of_range(
            obstacle.advance(dt, size, axis_length).axis_position,
            size,
            axis_length,
        ),
    ensures
        ({
            let twice = obstacle.advance(dt, size, axis_length).advance(dt, size, axis_length);
            &&& !ObstacleModel::out_of_range(twice.axis_position, size, axis_length)
            &&& twice.axis_position == obstacle.axis_position
            &&& twice.velocity == -obstacle.velocity
        }),
{
    lemma_reversed_stride(obstacle.velocity, dt);
}

/// A player that touches an obstacle loses a point and is back on the spawn
/// cell once the collision rule has been applied, whichever obstacle it is and
/// however many others it touches.
pub proof fn lemma_collision_costs_a_point(
    player: PlayerModel,
    obstacles: Seq<ObstacleModel>,
    index: int,
    score: int,
    config: Config,
)
    requires
        0 <= index < obstacles.len(),
        overlaps(player, obstacles[index], config),
    ensures
        after_collision(player, obstacles, score, config) == (player.respawn(config), score - 1),
        after_collision(player, obstacles, score, config).0.at_spawn(config),
{
}

/// A player on the goal lane earns a point and is back on the spawn cell once
/// the goal rule has been applied.
pub proof fn lemma_goal_earns_a_point(player: PlayerModel, score: int, config: Config)
    requires
        player.lane >= config.goal_lane,
    ensures
        after_goal(player, score, config) == (player.respawn(config), score + 1),
        after_goal(player, score, config).0.at_spawn(config),
{
}

/// What one tick does to the score. The collision rule comes first, and a
/// player that it sent back to the spawn cell is short of the goal: so the
/// score drops by one if the player, once moved, touches an obstacle, once
/// moved; it rises by one if it touches none and stands on the goal lane; and
/// it stays otherwise. Either change leaves the player on the spawn cell.
pub proof fn lemma_tick_score(game: GameModel)
    requires
        game.wf(),
    ensures
        ({
            let config = game.config;
            let moved = game.player.elapse(config.tick_duration as int).commands(
                game.pending,
                config,
            );
            let hit = collides(moved, game.tick().obstacles, config);
            let goal = at_goal(moved, config);
            &&& game.tick().score == if hit {
                game.score - 1
            } else if goal {
                game.score + 1
            } else {
                game.score
            }
            &&& hit || goal ==> game.tick().player.at_spawn(config)
            &&& !hit && !goal ==> game.tick().player == moved
        }),
{
}

/// The goal rule fires at most once without a move in between: after it has
/// fired the player is on the spawn cell, short of the goal, and the rule
/// applied again changes nothing.
pub proof fn lemma_goal_check_idempotent(player: PlayerModel, score: int, config: Config)
    requires
        config.wf(),
    ensures
        ({
            let once = after_goal(player, score, config);
            &&& !at_goal(once.0, config)
            &&& after_goal(once.0, once.1, config) == once
            &&& at_goal(player, config) ==> once.1 == score + 1 && once.0.at_spawn(config)
        }),
{
}

} // verus!
