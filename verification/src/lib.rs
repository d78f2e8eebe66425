//! The rules of a lane-crossing arcade game, as plain data and total
//! functions: a player that steps from cell to cell on a grid, obstacles that
//! slide along their lanes and turn at the edges, and a score that goes up at
//! the goal and down on a collision.
//!
//! Nothing here draws, reads a key or keeps time. A host hands in the move
//! commands that arrived and asks for one tick; afterwards it reads the state.
pub mod animation;
pub mod config;
pub mod direction;
pub mod game;
pub mod laws;
pub mod obstacle;
pub mod player;
pub mod rules;
pub mod session;

pub use crate::animation::{Animation, FrameTimer};
pub use crate::config::Config;
pub use crate::direction::Direction;
pub use crate::game::{Game, Snapshot};
pub use crate::obstacle::ObstacleState;
pub use crate::player::PlayerState;
pub use crate::session::{Phase, Session};
