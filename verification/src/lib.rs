//! The rules of a snake game on a wrapping grid: cells and headings, the
//! snake's per-tick movement, and the bookkeeping of one running game.

pub mod grid;
pub mod body;
pub mod game;

pub use crate::body::Snake;
pub use crate::game::{fold_pos, rand_pos, tick_millis, Game, Input, FPS};
pub use crate::grid::{Direction, Pos};
