//! The collision rule and the goal rule.
//!
//! Both read the player after it has moved and the obstacles after they have
//! moved. A collision costs a point, reaching the goal lane earns one, and
//! either puts the player back on the spawn cell.
use vstd::prelude::*;
use crate::config::{Config, UNITS_PER_CELL};
use crate::obstacle::{ObstacleModel, ObstacleState};
use crate::player::{PlayerModel, PlayerState};

verus! {

/// The player touches `obstacle`: both are in one lane, and on the row axis
/// the player's interval, `player_size` wide about the centre of its row,
/// overlaps the obstacle's, `obstacle_size` wide about its position. Intervals
/// that only share an end point do not overlap. Both sides are doubled, so
/// that half a size needs no rounding.
pub open spec fn overlaps(player: PlayerModel, obstacle: ObstacleModel, config: Config) -> bool {
    let centre = Config::row_position(player.row);
    &&& player.lane == obstacle.lane
    &&& 2 * centre - config.player_size < 2 * obstacle.axis_position + config.obstacle_size
    &&& 2 * centre + config.player_size > 2 * obstacle.axis_position - config.obstacle_size
}

/// The player touches one of `obstacles`.
pub open spec fn collides(
    player: PlayerModel,
    obstacles: Seq<ObstacleModel>,
    config: Config,
) -> bool {
    exists|i: int| 0 <= i < obstacles.len() && overlaps(player, #[trigger] obstacles[i], config)
}

/// Player and score after the collision rule.
pub open spec fn after_collision(
    player: PlayerModel,
    obstacles: Seq<ObstacleModel>,
    score: int,
    config: Config,
) -> (PlayerModel, int) {
    if collides(player, obstacles, config) {
        (player.respawn(config), score - 1)
    } else {
        (player, score)
    }
}

/// The player has reached the goal lane or passed it.
pub open spec fn at_goal(player: PlayerModel, config: Config) -> bool {
    player.lane >= config.goal_lane
}

/// Player and score after the goal rule.
pub open spec fn after_goal(player: PlayerModel, score: int, config: Config) -> (PlayerModel, int) {
    if at_goal(player, config) {
        (player.respawn(config), score + 1)
    } else {
        (player, score)
    }
}

/// The views of a list of obstacles, in the list's order.
pub open spec fn obstacle_models(obstacles: Seq<ObstacleState>) -> Seq<ObstacleModel> {
    obstacles.map_values(|o: ObstacleState| o@)
}

/// Says whether the player touches `obstacle`.
pub fn touches(player: &PlayerState, obstacle: &ObstacleState, config: &Config) -> (hit: bool)
    ensures
        hit == overlaps(player@, obstacle@, *config),
{
    if player.lane != obstacle.lane {
        return false;
    }
    let row: i128 = player.row as i128;
    let unit: i128 = UNITS_PER_CELL as i128;
    assert(0 <= row * unit <= 0x1_0000_0000 * 1_000_000_000) by (nonlinear_arith)
        requires
            0 <= row <= 0x1_0000_0000,
            unit == 1_000_000_000,
    ;
    let centre: i128 = row * unit;
    let position: i128 = obstacle.axis_position as i128;
    let player_size: i128 = config.player_size as i128;
    let obstacle_size: i128 = config.obstacle_size as i128;
    2 * centre - player_size < 2 * position + obstacle_size
        && 2 * centre + player_size > 2 * position - obstacle_size
}

/// Finds the first obstacle, in the order of the list, that the player
/// touches.
pub fn first_collision(
    player: &PlayerState,
    obstacles: &Vec<ObstacleState>,
    config: &Config,
) -> (found: Option<usize>)
    ensures
        found is Some <==> collides(player@, obstacle_models(obstacles@), *config),
        match found {
            Some(i) => {
                &&& i < obstacles.len()
                &&& overlaps(player@, obstacles[i as int]@, *config)
                &&& forall|j: int| 0 <= j < i ==> !overlaps(player@, #[trigger] obstacles[j]@, *config)
            },
            None => true,
        },
{
    let ghost models = obstacle_models(obstacles@);
    let mut i: usize = 0;
    while i < obstacles.len()
        invariant
            i <= obstacles.len(),
            models == obstacle_models(obstacles@),
            forall|j: int| 0 <= j < i ==> !overlaps(player@, #[trigger] obstacles[j]@, *config),
        decreases obstacles.len() - i,
    {
        if touches(player, &obstacles[i], config) {
            assert(models[i as int] == obstacles[i as int]@);
            return Some(i);
        }
        i = i + 1;
    }
    assert forall|j: int| 0 <= j < models.len() implies !overlaps(
        player@,
        #[trigger] models[j],
        *config,
    ) by {
        assert(models[j] == obstacles[j]@);
    }
    None
}

/// The collision rule. If the player touches any obstacle, the score drops by
/// one and the player is back on the spawn cell; however many it touches, that
/// happens once. Otherwise nothing changes.
pub fn resolve_collision(
    player: PlayerState,
    obstacles: &Vec<ObstacleState>,
    score: i64,
    config: &Config,
) -> (after: (PlayerState, i64))
    requires
        score > i64::MIN,
    ensures
        (after.0@, after.1 as int) == after_collision(
            player@,
            obstacle_models(obstacles@),
            score as int,
            *config,
        ),
{
    match first_collision(&player, obstacles, config) {
        Some(_) => (player.respawn(config), score - 1),
        None => (player, score),
    }
}

/// The goal rule. If the player has reached the goal lane, the score rises by
/// one and the player is back on the spawn cell. Otherwise nothing changes.
pub fn check_goal(player: PlayerState, score: i64, config: &Config) -> (after: (PlayerState, i64))
    requires
        score < i64::MAX,
    ensures
        (after.0@, after.1 as int) == after_goal(player@, score as int, *config),
{
    if player.lane >= config.goal_lane {
        (player.respawn(config), score + 1)
    } else {
        (player, score)
    }
}

} // verus!
