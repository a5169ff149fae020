//! The grid: which player has claimed which cell, which marks are accepted,
//! and when a player has completed a line of three.

use vstd::prelude::*;
use vstd::set_lib::{lemma_int_range, lemma_set_subset_finite, set_int_range};

use crate::error::PositionError;
use crate::player::Player;

verus! {

/// Whether `position` names one of the nine cells of the grid.
pub open spec fn is_cell(position: int) -> bool {
    1 <= position <= 9
}

/// Whether `cells` is the occupancy of a grid: it claims nothing but cells.
pub open spec fn is_grid(cells: Map<int, Player>) -> bool {
    &&& cells.dom().finite()
    &&& forall|position: int| cells.contains_key(position) ==> is_cell(position)
}

/// Whether `player` has claimed the cell at `position`.
pub open spec fn holds(cells: Map<int, Player>, position: int, player: Player) -> bool {
    cells.contains_key(position) && cells[position] == player
}

/// The eight lines of three cells that win a match: rows, columns, diagonals.
pub open spec fn winning_triples() -> Seq<(int, int, int)> {
    seq![
        (1, 2, 3),
        (4, 5, 6),
        (7, 8, 9),
        (1, 4, 7),
        (2, 5, 8),
        (3, 6, 9),
        (1, 5, 9),
        (3, 5, 7),
    ]
}

/// The winning triples, in the order in which `Board::player_won` tests them.
pub const WINNER_POSITIONS: [(u8, u8, u8); 8] = [
    (1, 2, 3),
    (4, 5, 6),
    (7, 8, 9),
    (1, 4, 7),
    (2, 5, 8),
    (3, 6, 9),
    (1, 5, 9),
    (3, 5, 7),
];

/// Whether `player` has claimed all three cells of `triple`.
pub open spec fn completes(cells: Map<int, Player>, triple: (int, int, int), player: Player) -> bool {
    &&& holds(cells, triple.0, player)
    &&& holds(cells, triple.1, player)
    &&& holds(cells, triple.2, player)
}

/// Whether `player` has completed at least one of the winning triples.
pub open spec fn won(cells: Map<int, Player>, player: Player) -> bool {
    exists|i: int|
        0 <= i < winning_triples().len()
            && #[trigger] completes(cells, winning_triples()[i], player)
}

/// What marking `position` on `cells` answers: the position must name a cell,
/// and the cell must be empty.
pub open spec fn validation(cells: Map<int, Player>, position: int) -> Result<(), PositionError> {
    if !is_cell(position) {
        Err(PositionError::PositionInvalid)
    } else if cells.contains_key(position) {
        Err(PositionError::PositionAlreadyMarked)
    } else {
        Ok(())
    }
}

/// The occupancy after `player` tries to mark `position` on `cells`: the cell
/// is claimed where the position is accepted, and nothing changes otherwise.
pub open spec fn marked(
    cells: Map<int, Player>,
    position: int,
    player: Player,
) -> Map<int, Player> {
    if validation(cells, position) is Ok {
        cells.insert(position, player)
    } else {
        cells
    }
}

/// The glyph shown for `position`: the marker of the player who claimed it,
/// or a blank.
pub open spec fn marker_at(cells: Map<int, Player>, position: int) -> Seq<char> {
    if cells.contains_key(position) {
        cells[position].marker()
    } else {
        " "@
    }
}

/// The text of the row of three cells that starts at `first`.
pub open spec fn row_text(cells: Map<int, Player>, first: int) -> Seq<char> {
    "| "@ + marker_at(cells, first)
        + " | "@ + marker_at(cells, first + 1)
        + " | "@ + marker_at(cells, first + 2)
        + " |\n"@
}

/// The text of the whole grid: its three rows, one per line.
pub open spec fn rendering(cells: Map<int, Player>) -> Seq<char> {
    row_text(cells, 1) + row_text(cells, 4) + row_text(cells, 7)
}

/// Marking a cell a second time, by either player, is refused as already
/// marked and changes nothing: the cell keeps the player of the first mark.
pub proof fn lemma_second_mark_is_rejected(
    cells: Map<int, Player>,
    position: int,
    first: Player,
    second: Player,
)
    requires
        is_cell(position),
    ensures
        validation(marked(cells, position, first), position) == Err::<(), PositionError>(
            PositionError::PositionAlreadyMarked,
        ),
        marked(marked(cells, position, first), position, second) == marked(cells, position, first),
        validation(cells, position) is Ok ==> holds(
            marked(marked(cells, position, first), position, second),
            position,
            first,
        ),
{
}

/// A mark never takes a cell from a player: whoever had won before a mark
/// has still won after it.
pub proof fn lemma_mark_keeps_wins(
    cells: Map<int, Player>,
    position: int,
    player: Player,
    winner: Player,
)
    requires
        won(cells, winner),
    ensures
        won(marked(cells, position, player), winner),
{
    let i = choose|i: int|
        0 <= i < winning_triples().len()
            && #[trigger] completes(cells, winning_triples()[i], winner);
    assert(completes(marked(cells, position, player), winning_triples()[i], winner));
}

/// A mark by one player gives the other player nothing: the opponent has won
/// after it exactly if the opponent had won before.
pub proof fn lemma_mark_gives_opponent_nothing(
    cells: Map<int, Player>,
    position: int,
    player: Player,
)
    ensures
        won(marked(cells, position, player), player.other()) == won(cells, player.other()),
{
    let after = marked(cells, position, player);
    let opponent = player.other();
    assert forall|i: int| 0 <= i < winning_triples().len() implies
        completes(after, #[trigger] winning_triples()[i], opponent)
            == completes(cells, winning_triples()[i], opponent)
    by {}
    if won(cells, opponent) {
        lemma_mark_keeps_wins(cells, position, player, opponent);
    }
    if won(after, opponent) {
        let i = choose|i: int|
            0 <= i < winning_triples().len()
                && #[trigger] completes(after, winning_triples()[i], opponent);
        assert(completes(cells, winning_triples()[i], opponent));
    }
}

/// Marking the three cells of a winning triple for one player, on a grid
/// where the opponent holds none of these cells and has not won, leaves that
/// player, and not the opponent, the winner. Each mark of an empty cell is
/// accepted.
pub proof fn lemma_marked_triple_wins(cells: Map<int, Player>, i: int, player: Player)
    requires
        0 <= i < winning_triples().len(),
        !holds(cells, winning_triples()[i].0, player.other()),
        !holds(cells, winning_triples()[i].1, player.other()),
        !holds(cells, winning_triples()[i].2, player.other()),
        !won(cells, player.other()),
    ensures
        ({
            let triple = winning_triples()[i];
            let one = marked(cells, triple.0, player);
            let two = marked(one, triple.1, player);
            let three = marked(two, triple.2, player);
            &&& !cells.contains_key(triple.0) ==> validation(cells, triple.0) is Ok
            &&& !cells.contains_key(triple.1) ==> validation(one, triple.1) is Ok
            &&& !cells.contains_key(triple.2) ==> validation(two, triple.2) is Ok
            &&& won(three, player)
            &&& !won(three, player.other())
        }),
{
    let triple = winning_triples()[i];
    let one = marked(cells, triple.0, player);
    let two = marked(one, triple.1, player);
    let three = marked(two, triple.2, player);
    assert(completes(three, winning_triples()[i], player));
    lemma_mark_gives_opponent_nothing(cells, triple.0, player);
    lemma_mark_gives_opponent_nothing(one, triple.1, player);
    lemma_mark_gives_opponent_nothing(two, triple.2, player);
}

/// The grid of three rows of three cells. Its view maps each claimed cell, numbered 1 to 9 row by row,
/// to the player who claimed it; a cell without an entry is empty.
#[derive(Debug)]
pub struct Board {
    table: [Option<Player>; 9],
}

impl View for Board {
    type V = Map<int, Player>;

    closed spec fn view(&self) -> Map<int, Player> {
        Map::new(
            |position: int| is_cell(position) && self.table[position - 1] is Some,
            |position: int| self.table[position - 1]->0,
        )
    }
}

impl Board {
    /// An empty board.
    pub fn new() -> (board: Self)
        ensures
            board@ == Map::<int, Player>::empty(),
    {
        Self { table: [None; 9] }
    }

    /// Whether `position` is one of the cells 1 to 9.
    pub fn position_is_valid(position: u8) -> (valid: bool)
        ensures
            valid == is_cell(position as int),
    {
        position > 0 && position < 10
    }

    /// The player who claimed `position`, if any.
    pub fn get_position_value(&self, position: u8) -> (value: Option<&Player>)
        ensures
            value is Some <==> self@.contains_key(position as int),
            value matches Some(player) ==> *player == self@[position as int],
    {
        if Self::position_is_valid(position) {
            self.table[(position - 1) as usize].as_ref()
        } else {
            None
        }
    }

    fn position_is_allowed_to_be_marked(&self, position: u8) -> (allowed: bool)
        ensures
            allowed == is_cell(position as int),
    {
        Self::position_is_valid(position)
    }

    fn position_has_some_value(&self, position: u8) -> (has: bool)
        ensures
            has == self@.contains_key(position as int),
    {
        match self.get_position_value(position) {
            Some(_) => true,
            None => false,
        }
    }

    /// Tells whether `position` could be marked, without marking it.
    pub fn validate_position(&self, position: u8) -> (result: Result<(), PositionError>)
        ensures
            result == validation(self@, position as int),
            !(1 <= position <= 9) ==> result == Err::<(), PositionError>(
                PositionError::PositionInvalid,
            ),
            1 <= position <= 9 && self@.contains_key(position as int)
                ==> result == Err::<(), PositionError>(PositionError::PositionAlreadyMarked),
            1 <= position <= 9 && !self@.contains_key(position as int) ==> result is Ok,
    {
        if !self.position_is_allowed_to_be_marked(position) {
            return Err(PositionError::PositionInvalid);
        }
        if self.position_has_some_value(position) {
            return Err(PositionError::PositionAlreadyMarked);
        }
        Ok(())
    }

    /// Claims `position` for `player` where `validate_position` accepts it,
    /// and leaves the board as it was where it does not.
    pub fn mark_position(
        &mut self,
        position: u8,
        player: Player,
    ) -> (result: Result<(), PositionError>)
        ensures
            result == validation(old(self)@, position as int),
            final(self)@ == marked(old(self)@, position as int, player),
            result is Ok ==> final(self)@ == old(self)@.insert(position as int, player),
            result is Err ==> final(self)@ == old(self)@,
            !(1 <= position <= 9) ==> result == Err::<(), PositionError>(
                PositionError::PositionInvalid,
            ),
            old(self)@.contains_key(position as int) ==> result == Err::<(), PositionError>(
                PositionError::PositionAlreadyMarked,
            ),
            forall|claimed: int| #[trigger] old(self)@.contains_key(claimed)
                ==> holds(final(self)@, claimed, old(self)@[claimed]),
    {
        if let Err(e) = self.validate_position(position) {
            return Err(e);
        }
        self.table[(position - 1) as usize] = Some(player);
        assert(self@ =~= old(self)@.insert(position as int, player));
        Ok(())
    }

    /// The glyph for `position`: `"X"` or `"O"` for a claimed cell, `" "` for
    /// an empty one or for a position off the grid.
    pub fn get_position_marker(&self, position: u8) -> (marker: &str)
        ensures
            marker@ == marker_at(self@, position as int),
    {
        match self.get_position_value(position) {
            Some(player) => player.get_marker(),
            _ => " ",
        }
    }

    fn render_row(&self, first: u8, text: &mut String)
        requires
            first <= 7,
        ensures
            final(text)@ == old(text)@ + row_text(self@, first as int),
    {
        text.append("| ");
        text.append(self.get_position_marker(first));
        text.append(" | ");
        text.append(self.get_position_marker(first + 1));
        text.append(" | ");
        text.append(self.get_position_marker(first + 2));
        text.append(" |\n");
    }

    /// The grid as text, three rows of three markers, one row per line.
    pub fn render(&self) -> (text: String)
        ensures
            text@ == rendering(self@),
    {
        let mut text = String::new();
        self.render_row(1, &mut text);
        self.render_row(4, &mut text);
        self.render_row(7, &mut text);
        text
    }

    fn position_has_value(&self, position: u8, player: Player) -> (has: bool)
        ensures
            has == holds(self@, position as int, player),
    {
        match self.get_position_value(position) {
            Some(value) => *value == player,
            _ => false,
        }
    }

    fn positions_were_marked_by_player(
        &self,
        position_one: u8,
        position_two: u8,
        position_three: u8,
        player: Player,
    ) -> (all: bool)
        ensures
            all == completes(
                self@,
                (position_one as int, position_two as int, position_three as int),
                player,
            ),
    {
        self.position_has_value(position_one, player)
            && self.position_has_value(position_two, player)
            && self.position_has_value(position_three, player)
    }

    /// Whether `player` has claimed all three cells of one of the winning
    /// triples.
    pub fn player_won(&self, player: Player) -> (has_won: bool)
        ensures
            has_won == won(self@, player),
    {
        let mut i: usize = 0;
        while i < 8
            invariant
                0 <= i <= 8,
                forall|j: int|
                    0 <= j < i ==> !completes(self@, #[trigger] winning_triples()[j], player),
            decreases 8 - i,
        {
            let positions = WINNER_POSITIONS[i];
            assert(winning_triples()[i as int]
                == (positions.0 as int, positions.1 as int, positions.2 as int));
            if self.positions_were_marked_by_player(positions.0, positions.1, positions.2, player) {
                return true;
            }
            i += 1;
        }
        false
    }

    /// The view of a board is the occupancy of a grid.
    pub proof fn lemma_view_is_grid(&self)
        ensures
            is_grid(self@),
    {
        let cells = set_int_range(1, 10);
        lemma_int_range(1, 10);
        assert(self@.dom().subset_of(cells));
        lemma_set_subset_finite(cells, self@.dom());
    }
}

} // verus!
