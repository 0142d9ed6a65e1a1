//! Core state of a falling-block puzzle game: the playfield grid, the
//! points that address it, the shapes and facings of the pieces, and the
//! result of testing a placement against the grid.

pub mod collision;
pub mod game;
pub mod playfield;
pub mod point;

pub use collision::{CollisionFlags, CollisionResult};
pub use game::{TetriminoFacing, TetriminoType};
pub use playfield::{Playfield, COLS, ROWS};
pub use point::Point;
