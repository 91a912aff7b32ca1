//! Interaction state of a chessboard view: tile clicks select and move
//! pieces, the board can be shown from the side to move, and the state each
//! square is drawn with is derived from the position.
pub mod engine;
pub mod placement;
pub mod controller;
pub mod laws;

pub use controller::{Chess, ChessEvent, SquareView};
