//! Move commands.
use vstd::prelude::*;

verus! {

/// One move command: the direction of a single step on the grid.
#[derive(Clone, Copy, Debug, PartialEq, Eq, Structural)]
pub enum Direction {
    /// One row down the row axis.
    Left,
    /// One row up the row axis.
    Right,
    /// One lane towards the goal.
    Up,
    /// One lane back towards the start.
    Down,
}

impl Direction {
    /// Change of lane that one step in this direction asks for.
    pub open spec fn lane_delta(self) -> int {
        match self {
            Direction::Up => 1,
            Direction::Down => -1,
            _ => 0,
        }
    }

    /// Change of row that one step in this direction asks for.
    pub open spec fn row_delta(self) -> int {
        match self {
            Direction::Right => 1,
            Direction::Left => -1,
            _ => 0,
        }
    }
}

} // verus!
