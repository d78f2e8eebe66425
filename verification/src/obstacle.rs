//! Obstacles and their kinematics.
//!
//! An obstacle keeps its lane and slides along the row axis at a constant
//! velocity. Each tick its position is integrated first; if it then lies
//! beyond either end of the axis, the velocity is reversed. The position is
//! never clamped, so an obstacle that has overshot an end is carried back
//! across it by the reversed velocity.
use vstd::prelude::*;
use crate::config::{Config, MAX_REACH, UNITS_PER_CELL};

verus! {

/// An obstacle as the contracts see it.
pub struct ObstacleModel {
    /// The lane that the obstacle stays in.
    pub lane: int,
    /// Position along the row axis, in units.
    pub axis_position: int,
    /// Units per microsecond; the sign is the direction.
    pub velocity: int,
}

impl ObstacleModel {
    /// An obstacle of extent `size` at `axis_position` reaches beyond the
    /// start or the end of an axis of length `axis_length`.
    pub open spec fn out_of_range(axis_position: int, size: int, axis_length: int) -> bool {
        axis_position < 0 || axis_position + size > axis_length
    }

    /// The obstacle after `dt` microseconds on an axis of length
    /// `axis_length`: moved by `velocity * dt`, and turned round if that left
    /// it out of range.
    pub open spec fn advance(self, dt: int, size: int, axis_length: int) -> ObstacleModel {
        let moved = self.axis_position + self.velocity * dt;
        ObstacleModel {
            lane: self.lane,
            axis_position: moved,
            velocity: if Self::out_of_range(moved, size, axis_length) {
                -self.velocity
            } else {
                self.velocity
            },
        }
    }

    /// The obstacle after one tick of a game on `config`.
    pub open spec fn tick(self, config: Config) -> ObstacleModel {
        self.advance(config.tick_duration as int, config.obstacle_size as int, config.axis_length())
    }

    /// The obstacle can go on ticking for ever on `config` without leaving
    /// what an `i64` holds: it covers at most [`MAX_REACH`] a tick, and neither
    /// where it is nor where the next tick takes it lies more than
    /// [`MAX_REACH`] beyond the axis.
    pub open spec fn within_reach(self, config: Config) -> bool {
        let stride = self.velocity * config.tick_duration;
        &&& -MAX_REACH <= self.velocity <= MAX_REACH
        &&& -MAX_REACH <= stride <= MAX_REACH
        &&& -MAX_REACH <= self.axis_position <= config.axis_length() + MAX_REACH
        &&& -MAX_REACH <= self.axis_position + stride <= config.axis_length() + MAX_REACH
    }
}

/// One obstacle.
#[derive(Clone, Copy, Debug, PartialEq, Eq)]
pub struct ObstacleState {
    /// The lane that the obstacle stays in.
    pub lane: u32,
    /// Position along the row axis, in units.
    pub axis_position: i64,
    /// Units per microsecond; the sign is the direction.
    pub velocity: i64,
}

impl View for ObstacleState {
    type V = ObstacleModel;

    open spec fn view(&self) -> ObstacleModel {
        ObstacleModel {
            lane: self.lane as int,
            axis_position: self.axis_position as int,
            velocity: self.velocity as int,
        }
    }
}

/// A reversed velocity covers the same distance the other way.
pub proof fn lemma_reversed_stride(velocity: int, dt: int)
    ensures
        (-velocity) * dt == -(velocity * dt),
{
    assert((-velocity) * dt == -(velocity * dt)) by (nonlinear_arith);
}

/// An obstacle within reach is still within reach after a tick.
pub proof fn lemma_tick_stays_within_reach(obstacle: ObstacleModel, config: Config)
    requires
        config.wf(),
        obstacle.within_reach(config),
    ensures
        obstacle.tick(config).within_reach(config),
{
    lemma_reversed_stride(obstacle.velocity, config.tick_duration as int);
}

impl ObstacleState {
    /// An obstacle in `lane` at `axis_position`, moving at `velocity`.
    pub fn new(lane: u32, axis_position: i64, velocity: i64) -> (obstacle: ObstacleState)
        ensures
            obstacle@ == (ObstacleModel {
                lane: lane as int,
                axis_position: axis_position as int,
                velocity: velocity as int,
            }),
    {
        ObstacleState { lane, axis_position, velocity }
    }

    /// Says whether the obstacle reaches beyond either end of an axis of
    /// length `axis_length`.
    pub fn is_out_of_range(&self, size: i64, axis_length: i64) -> (out: bool)
        ensures
            out == ObstacleModel::out_of_range(
                self.axis_position as int,
                size as int,
                axis_length as int,
            ),
    {
        self.axis_position < 0 || self.axis_position as i128 + size as i128 > axis_length as i128
    }

    /// Moves the obstacle by `velocity * dt` and reverses the velocity if the
    /// new position is out of range. The caller sees to it that the new
    /// position is one that an `i64` holds and that the velocity has a
    /// negative.
    pub fn advance(self, dt: u64, size: i64, axis_length: i64) -> (obstacle: ObstacleState)
        requires
            self.velocity > i64::MIN,
            i64::MIN <= self.axis_position + self.velocity * dt <= i64::MAX,
        ensures
            obstacle@ == self@.advance(dt as int, size as int, axis_length as int),
    {
        let velocity: i128 = self.velocity as i128;
        let elapsed: i128 = dt as i128;
        assert(-0x8000_0000_0000_0000 * 0x1_0000_0000_0000_0000 <= velocity * elapsed
            <= 0x8000_0000_0000_0000 * 0x1_0000_0000_0000_0000) by (nonlinear_arith)
            requires
                -0x8000_0000_0000_0000 <= velocity <= 0x8000_0000_0000_0000,
                0 <= elapsed <= 0x1_0000_0000_0000_0000,
        ;
        let stride: i128 = velocity * elapsed;
        let moved: i64 = (self.axis_position as i128 + stride) as i64;
        let turned = ObstacleState { axis_position: moved, ..self };
        if turned.is_out_of_range(size, axis_length) {
            ObstacleState { velocity: -self.velocity, ..turned }
        } else {
            turned
        }
    }

    /// Says whether the obstacle is within reach on `config`.
    pub fn is_within_reach(&self, config: &Config) -> (ok: bool)
        requires
            config.wf(),
        ensures
            ok == self@.within_reach(*config),
    {
        if self.velocity < -MAX_REACH || self.velocity > MAX_REACH {
            return false;
        }
        let velocity: i128 = self.velocity as i128;
        let elapsed: i128 = config.tick_duration as i128;
        assert(-1_000_000_000_000_000_000 * 0x1_0000_0000_0000_0000 <= velocity * elapsed
            <= 1_000_000_000_000_000_000 * 0x1_0000_0000_0000_0000) by (nonlinear_arith)
            requires
                -1_000_000_000_000_000_000 <= velocity <= 1_000_000_000_000_000_000,
                0 <= elapsed <= 0x1_0000_0000_0000_0000,
        ;
        let stride: i128 = velocity * elapsed;
        let reach: i128 = MAX_REACH as i128;
        assert(config.axis_length() <= 1_000_000 * 1_000_000_000) by (nonlinear_arith)
            requires
                config.axis_length() == config.board_height * 1_000_000_000,
                config.board_height <= 1_000_000,
        ;
        let far: i128 = config.board_height as i128 * UNITS_PER_CELL as i128 + reach;
        let position: i128 = self.axis_position as i128;
        -reach <= stride && stride <= reach && -reach <= position && position <= far && -reach
            <= position + stride && position + stride <= far
    }

    /// Moves the obstacle through one tick of a game on `config`.
    pub fn tick(self, config: &Config) -> (obstacle: ObstacleState)
        requires
            config.wf(),
            self@.within_reach(*config),
        ensures
            obstacle@ == self@.tick(*config),
            obstacle@.within_reach(*config),
    {
        proof {
            lemma_tick_stays_within_reach(self@, *config);
            assert(config.axis_length() <= 1_000_000 * 1_000_000_000) by (nonlinear_arith)
                requires
                    config.axis_length() == config.board_height * 1_000_000_000,
                    config.board_height <= 1_000_000,
            ;
        }
        let axis_length: i64 = config.board_height as i64 * UNITS_PER_CELL;
        self.advance(config.tick_duration, config.obstacle_size, axis_length)
    }
}

} // verus!
