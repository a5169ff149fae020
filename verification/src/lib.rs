//! A verified tic-tac-toe engine: the board, move validation, win detection
//! and the turn and lifecycle rules of one match.

pub mod board;
pub mod error;
pub mod game;
pub mod player;

pub use board::Board;
pub use error::{Error, GameError, GameStatusError, PositionError};
pub use game::{Game, GameView};
pub use player::Player;
