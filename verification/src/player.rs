//! The two players and their markers.

use vstd::prelude::*;

verus! {

/// One of the two participants of a match.
#[derive(Debug, Copy, Clone, PartialEq, Eq, Hash, Structural)]
pub enum Player {
    One,
    Two,
}

impl Player {
    /// The opponent of this player.
    pub open spec fn other(self) -> Player {
        match self {
            Player::One => Player::Two,
            Player::Two => Player::One,
        }
    }

    /// The glyph that shows a cell claimed by this player.
    pub open spec fn marker(self) -> Seq<char> {
        match self {
            Player::One => "X"@,
            Player::Two => "O"@,
        }
    }

    /// Player one for `true`, player two for `false`.
    pub fn from_bool(value: bool) -> (player: Self)
        ensures
            player == if value { Player::One } else { Player::Two },
            (player == Player::One) == value,
    {
        match value {
            true => Self::One,
            _ => Self::Two,
        }
    }

    /// Whether `player` is player one: the inverse of `from_bool`.
    pub fn parse_to_bool(player: Self) -> (value: bool)
        ensures
            value == (player == Player::One),
            player == if value { Player::One } else { Player::Two },
    {
        match player {
            Self::One => true,
            _ => false,
        }
    }

    /// Returns `"X"` for player one and `"O"` for player two.
    pub fn get_marker(&self) -> (marker: &str)
        ensures
            marker@ == self.marker(),
    {
        match *self == Self::One {
            true => "X",
            _ => "O",
        }
    }
}

} // verus!
