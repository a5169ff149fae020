//! The errors of the engine, each with its message.

use vstd::prelude::*;

verus! {

/// An error of the engine, with a stable message for the presentation layer.
pub trait Error {
    /// The text of the message.
    spec fn message_text(&self) -> Seq<char>;

    /// Returns the human-readable message of this error.
    fn message(&self) -> (text: &str)
        ensures
            text@ == self.message_text(),
    ;
}

/// Why a match accepts no further move.
#[derive(Debug, Copy, Clone, PartialEq, Eq, Structural)]
pub enum GameStatusError {
    /// The match has already concluded, by a win or a draw.
    GameFinished,
    /// Every cell has been played.
    GameOver,
}

impl Error for GameStatusError {
    open spec fn message_text(&self) -> Seq<char> {
        match self {
            GameStatusError::GameOver => "Game over"@,
            GameStatusError::GameFinished => "Game finished"@,
        }
    }

    fn message(&self) -> (text: &str) {
        match self {
            Self::GameOver => "Game over",
            Self::GameFinished => "Game finished",
        }
    }
}

/// Why a cell cannot be marked.
#[derive(Debug, Copy, Clone, PartialEq, Eq, Structural)]
pub enum PositionError {
    /// The position is not one of the cells 1 to 9.
    PositionInvalid,
    /// The cell already holds a player.
    PositionAlreadyMarked,
}

impl Error for PositionError {
    open spec fn message_text(&self) -> Seq<char> {
        match self {
            PositionError::PositionInvalid => "Position must be between 1 and 9"@,
            PositionError::PositionAlreadyMarked => "The position was already marked"@,
        }
    }

    fn message(&self) -> (text: &str) {
        match self {
            Self::PositionInvalid => "Position must be between 1 and 9",
            Self::PositionAlreadyMarked => "The position was already marked",
        }
    }
}

/// Why a call of `Game::play` was rejected.
#[derive(Debug, Copy, Clone, PartialEq, Eq, Structural)]
pub enum GameError {
    /// The match takes no more moves.
    Status(GameStatusError),
    /// The board refused the position.
    Position(PositionError),
}

impl Error for GameError {
    open spec fn message_text(&self) -> Seq<char> {
        match self {
            GameError::Status(e) => e.message_text(),
            GameError::Position(e) => e.message_text(),
        }
    }

    fn message(&self) -> (text: &str) {
        match self {
            Self::Status(e) => e.message(),
            Self::Position(e) => e.message(),
        }
    }
}

} // verus!
