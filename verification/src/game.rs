//! One match: whose turn it is, which moves are accepted, and how the match
//! ends.

use vstd::prelude::*;

use crate::board::{
    holds, is_grid, lemma_mark_gives_opponent_nothing, marked, validation, won, Board,
};
use crate::error::{GameError, GameStatusError};
use crate::player::Player;

verus! {

/// The player who makes the move that follows `plays` accepted moves:
/// player one opens, and the two take turns.
pub open spec fn turn(plays: int) -> Player {
    if plays % 2 == 0 {
        Player::One
    } else {
        Player::Two
    }
}

/// The state of a match as a mathematical value.
pub struct GameView {
    /// The occupancy of the grid.
    pub board: Map<int, Player>,
    /// The number of accepted moves.
    pub plays: nat,
    /// Whether the match has ended, by a win or a draw.
    pub is_finished: bool,
    /// The player to move; once the match has ended, the player who moved
    /// last.
    pub current_player: Player,
    /// The player who completed a winning triple, if any.
    pub winner: Option<Player>,
    /// The display name of player one.
    pub player_one_name: Seq<char>,
    /// The display name of player two.
    pub player_two_name: Seq<char>,
}

impl GameView {
    /// The match before its first move.
    pub open spec fn initial(player_one_name: Seq<char>, player_two_name: Seq<char>) -> GameView {
        GameView {
            board: Map::empty(),
            plays: 0,
            is_finished: false,
            current_player: Player::One,
            winner: None,
            player_one_name,
            player_two_name,
        }
    }

    /// The display name of `player`.
    pub open spec fn name_of(self, player: Player) -> Seq<char> {
        match player {
            Player::One => self.player_one_name,
            Player::Two => self.player_two_name,
        }
    }

    /// What holds of every state that play can reach from the start of a
    /// match.
    pub open spec fn wf(self) -> bool {
        &&& is_grid(self.board)
        &&& self.plays == self.board.dom().len()
        &&& self.plays <= 9
        &&& self.is_finished <==> self.winner is Some || self.plays == 9
        &&& match self.winner {
            Some(winner) => {
                &&& won(self.board, winner)
                &&& !won(self.board, winner.other())
                &&& self.current_player == winner
            },
            None => !won(self.board, Player::One) && !won(self.board, Player::Two),
        }
        &&& self.current_player == if self.is_finished {
            turn(self.plays - 1)
        } else {
            turn(self.plays as int)
        }
    }

    /// What a move to `position` answers: a finished match takes no move, a
    /// full grid takes none either, and the board must accept the position.
    pub open spec fn play_result(self, position: int) -> Result<(), GameError> {
        if self.is_finished {
            Err(GameError::Status(GameStatusError::GameFinished))
        } else if self.plays >= 9 {
            Err(GameError::Status(GameStatusError::GameOver))
        } else {
            match validation(self.board, position) {
                Err(e) => Err(GameError::Position(e)),
                Ok(_) => Ok(()),
            }
        }
    }

    /// The state after a move to `position`. A rejected move changes
    /// nothing. An accepted move claims the cell for the current player and
    /// counts; the match then ends on that player if the move completed a
    /// winning triple, ends without a winner if it was the ninth, and passes
    /// the turn otherwise.
    pub open spec fn after_play(self, position: int) -> GameView {
        if self.play_result(position) is Err {
            self
        } else {
            let board = self.board.insert(position, self.current_player);
            let plays = self.plays + 1;
            if won(board, self.current_player) {
                GameView {
                    board,
                    plays,
                    is_finished: true,
                    winner: Some(self.current_player),
                    ..self
                }
            } else if plays >= 9 {
                GameView { board, plays, is_finished: true, ..self }
            } else {
                GameView { board, plays, current_player: self.current_player.other(), ..self }
            }
        }
    }

    /// The state after the moves to `positions`, made in order.
    pub open spec fn after_plays(self, positions: Seq<int>) -> GameView
        decreases positions.len(),
    {
        if positions.len() == 0 {
            self
        } else {
            self.after_plays(positions.drop_last()).after_play(positions.last())
        }
    }

    /// Whether every one of the moves to `positions`, made in order, is
    /// accepted.
    pub open spec fn accepts_all(self, positions: Seq<int>) -> bool
        decreases positions.len(),
    {
        positions.len() == 0 || {
            &&& self.accepts_all(positions.drop_last())
            &&& self.after_plays(positions.drop_last()).play_result(positions.last()) is Ok
        }
    }
}

/// A new match is well formed.
pub proof fn lemma_initial_wf(player_one_name: Seq<char>, player_two_name: Seq<char>)
    ensures
        GameView::initial(player_one_name, player_two_name).wf(),
{
    let game = GameView::initial(player_one_name, player_two_name);
    assert(!won(game.board, Player::One));
    assert(!won(game.board, Player::Two));
}

/// A move, accepted or rejected, takes a well-formed match to a well-formed
/// match.
pub proof fn lemma_play_preserves_wf(game: GameView, position: int)
    requires
        game.wf(),
    ensures
        game.after_play(position).wf(),
{
    if game.play_result(position) is Ok {
        let mover = game.current_player;
        assert(marked(game.board, position, mover) == game.board.insert(position, mover));
        lemma_mark_gives_opponent_nothing(game.board, position, mover);
    }
}

/// A move never takes a cell back or hands it to another player: whoever
/// holds a cell before a move holds it after.
pub proof fn lemma_play_keeps_marks(game: GameView, position: int, claimed: int)
    requires
        game.board.contains_key(claimed),
    ensures
        holds(game.after_play(position).board, claimed, game.board[claimed]),
{
}

/// No sequence of moves takes a cell back or hands it to another player.
pub proof fn lemma_plays_keep_marks(game: GameView, positions: Seq<int>, claimed: int)
    requires
        game.board.contains_key(claimed),
    ensures
        holds(game.after_plays(positions).board, claimed, game.board[claimed]),
    decreases positions.len(),
{
    if positions.len() > 0 {
        lemma_plays_keep_marks(game, positions.drop_last(), claimed);
        lemma_play_keeps_marks(game.after_plays(positions.drop_last()), positions.last(), claimed);
    }
}

/// A well-formed match that has filled the grid has finished, so it rejects
/// a move as finished and never as over.
pub proof fn lemma_full_grid_is_finished(game: GameView, position: int)
    requires
        game.wf(),
    ensures
        game.plays >= 9 ==> game.is_finished,
        game.play_result(position) != Err::<(), GameError>(
            GameError::Status(GameStatusError::GameOver),
        ),
{
}

/// Any number of moves, accepted or rejected, take a well-formed match to a
/// well-formed match.
pub proof fn lemma_plays_preserve_wf(game: GameView, positions: Seq<int>)
    requires
        game.wf(),
    ensures
        game.after_plays(positions).wf(),
    decreases positions.len(),
{
    if positions.len() > 0 {
        lemma_plays_preserve_wf(game, positions.drop_last());
        lemma_play_preserves_wf(game.after_plays(positions.drop_last()), positions.last());
    }
}

/// A finished match stays as it is: it rejects a move to any position as
/// finished, and no sequence of moves changes its board, its count of moves,
/// its winner or anything else.
pub proof fn lemma_finished_is_final(game: GameView, positions: Seq<int>)
    requires
        game.is_finished,
    ensures
        forall|position: int| #[trigger] game.play_result(position)
            == Err::<(), GameError>(GameError::Status(GameStatusError::GameFinished)),
        game.after_plays(positions) == game,
    decreases positions.len(),
{
    if positions.len() > 0 {
        lemma_finished_is_final(game, positions.drop_last());
    }
}

/// Every accepted move is counted, and only accepted moves are: after a run
/// of accepted moves the count has grown by their number.
pub proof fn lemma_accepted_plays_are_counted(game: GameView, positions: Seq<int>)
    requires
        game.accepts_all(positions),
    ensures
        game.after_plays(positions).plays == game.plays + positions.len(),
    decreases positions.len(),
{
    if positions.len() > 0 {
        lemma_accepted_plays_are_counted(game, positions.drop_last());
    }
}

/// Nine accepted moves from the start fill the grid and end the match, and
/// the match is a draw, with no winner, exactly if neither player holds a
/// winning triple on the full grid.
pub proof fn lemma_nine_plays_end_the_match(
    player_one_name: Seq<char>,
    player_two_name: Seq<char>,
    positions: Seq<int>,
)
    requires
        positions.len() == 9,
        GameView::initial(player_one_name, player_two_name).accepts_all(positions),
    ensures
        ({
            let end = GameView::initial(player_one_name, player_two_name).after_plays(positions);
            &&& end.is_finished
            &&& end.plays == 9
            &&& end.winner is None
                <==> !won(end.board, Player::One) && !won(end.board, Player::Two)
        }),
{
    let start = GameView::initial(player_one_name, player_two_name);
    lemma_initial_wf(player_one_name, player_two_name);
    lemma_plays_preserve_wf(start, positions);
    lemma_accepted_plays_are_counted(start, positions);
}

/// The players take turns, player one first: after a run of accepted moves
/// from the start, a match that goes on has the player to move by the parity
/// of the count; a match that has ended rests on the player who moved last,
/// and a winner is that player.
pub proof fn lemma_turns_alternate(
    player_one_name: Seq<char>,
    player_two_name: Seq<char>,
    positions: Seq<int>,
)
    requires
        GameView::initial(player_one_name, player_two_name).accepts_all(positions),
    ensures
        ({
            let game = GameView::initial(player_one_name, player_two_name).after_plays(positions);
            &&& !game.is_finished ==> game.current_player == turn(positions.len() as int)
            &&& game.is_finished ==> game.current_player == turn(positions.len() - 1)
            &&& game.winner matches Some(winner)
                ==> game.is_finished && winner == game.current_player
        }),
{
    let start = GameView::initial(player_one_name, player_two_name);
    lemma_initial_wf(player_one_name, player_two_name);
    lemma_plays_preserve_wf(start, positions);
    lemma_accepted_plays_are_counted(start, positions);
}

/// One match: the board, whose turn it is, how many moves were made, and how
/// the match ended.
#[derive(Debug)]
pub struct Game {
    board: Board,
    plays: u8,
    is_finished: bool,
    current_player: Player,
    winner: Option<Player>,
    player_one_name: String,
    player_two_name: String,
}

impl View for Game {
    type V = GameView;

    closed spec fn view(&self) -> GameView {
        GameView {
            board: self.board@,
            plays: self.plays as nat,
            is_finished: self.is_finished,
            current_player: self.current_player,
            winner: self.winner,
            player_one_name: self.player_one_name@,
            player_two_name: self.player_two_name@,
        }
    }
}

impl Game {
    /// A new match between two named players: the board is empty and player
    /// one is to move.
    pub fn new(player_one_name: String, player_two_name: String) -> (game: Self)
        ensures
            game@ == GameView::initial(player_one_name@, player_two_name@),
            game@.wf(),
    {
        proof {
            lemma_initial_wf(player_one_name@, player_two_name@);
        }
        Self {
            player_one_name,
            player_two_name,
            plays: 0,
            winner: None,
            board: Board::new(),
            is_finished: false,
            current_player: Player::One,
        }
    }

    /// Whether `name` can stand for a player in front of the users: it must
    /// not be empty. `new` itself takes any name; the check is for the caller
    /// who asks the players for theirs.
    pub fn is_valid_player_name(name: &String) -> (valid: bool)
        ensures
            valid == (name@.len() > 0),
    {
        !name.as_str().is_empty()
    }

    /// The board of this match, to look at: only `play` marks it.
    pub fn get_board(&self) -> (board: &Board)
        ensures
            board@ == self@.board,
    {
        &self.board
    }

    /// Whether the match has ended, by a win or a draw.
    pub fn get_is_finished(&self) -> (finished: bool)
        ensures
            finished == self@.is_finished,
    {
        self.is_finished
    }

    /// The name of the winner; `None` while the match goes on and after a
    /// draw.
    pub fn get_winner_name(&self) -> (name: Option<&String>)
        ensures
            match self@.winner {
                Some(winner) => name matches Some(text) && text@ == self@.name_of(winner),
                None => name is None,
            },
    {
        match self.winner {
            Some(player) => Some(self.get_player_name(player)),
            _ => None,
        }
    }

    /// The name of the player to move; once the match has ended, of the
    /// player who moved last.
    pub fn get_current_player_name(&self) -> (name: &String)
        ensures
            name@ == self@.name_of(self@.current_player),
    {
        self.get_player_name(self.current_player)
    }

    /// The name under which `player` takes part in this match.
    pub fn get_player_name(&self, player: Player) -> (name: &String)
        ensures
            name@ == self@.name_of(player),
    {
        match player {
            Player::One => &self.player_one_name,
            Player::Two => &self.player_two_name,
        }
    }

    /// Makes the move of the current player to `position`.
    ///
    /// A finished match rejects every move, and a rejected move changes
    /// nothing. An accepted move claims the cell and is counted. If it
    /// completes a winning triple the match ends with the mover as winner; if
    /// it is the ninth the match ends in a draw; in both cases the current
    /// player stays the mover. Otherwise the turn passes to the opponent.
    pub fn play(&mut self, position: u8) -> (result: Result<(), GameError>)
        ensures
            result == old(self)@.play_result(position as int),
            final(self)@ == old(self)@.after_play(position as int),
            old(self)@.wf() ==> final(self)@.wf(),
            old(self)@.is_finished ==> result == Err::<(), GameError>(
                GameError::Status(GameStatusError::GameFinished),
            ),
            result is Err ==> final(self)@ == old(self)@,
            forall|claimed: int| #[trigger] old(self)@.board.contains_key(claimed)
                ==> holds(final(self)@.board, claimed, old(self)@.board[claimed]),
            result is Ok ==> {
                let mover = old(self)@.current_player;
                let after = final(self)@;
                &&& after.board == old(self)@.board.insert(position as int, mover)
                &&& after.plays == old(self)@.plays + 1
                &&& after.is_finished == (won(after.board, mover) || after.plays == 9)
                &&& after.winner == if won(after.board, mover) {
                    Some(mover)
                } else {
                    old(self)@.winner
                }
                &&& after.current_player == if after.is_finished {
                    mover
                } else {
                    mover.other()
                }
            },
    {
        if self.get_is_finished() {
            return Err(GameError::Status(GameStatusError::GameFinished));
        }
        if self.is_game_over() {
            return Err(GameError::Status(GameStatusError::GameOver));
        }
        if let Err(e) = self.set_position(position) {
            return Err(e);
        }
        self.increment_plays();

        if self.is_winner(self.current_player) {
            self.set_is_finished(true);
            self.set_winner(self.current_player);
        } else if self.is_game_over() {
            self.set_is_finished(true);
        } else {
            self.update_current_player();
        }
        proof {
            if old(self)@.wf() {
                lemma_play_preserves_wf(old(self)@, position as int);
            }
        }
        Ok(())
    }

    fn is_game_over(&self) -> (over: bool)
        ensures
            over == (self.plays >= 9),
    {
        self.get_plays() >= 9
    }

    fn set_position(&mut self, position: u8) -> (result: Result<(), GameError>)
        ensures
            result == match validation(old(self).board@, position as int) {
                Err(e) => Err::<(), GameError>(GameError::Position(e)),
                Ok(_) => Ok::<(), GameError>(()),
            },
            final(self).board@
                == marked(old(self).board@, position as int, old(self).current_player),
            *final(self) == (Game { board: final(self).board, ..*old(self) }),
    {
        match self.board.mark_position(position, self.current_player) {
            Ok(()) => Ok(()),
            Err(e) => Err(GameError::Position(e)),
        }
    }

    fn increment_plays(&mut self)
        requires
            old(self).plays < u8::MAX,
        ensures
            *final(self) == (Game { plays: (old(self).plays + 1) as u8, ..*old(self) }),
    {
        self.plays += 1;
    }

    fn is_winner(&self, player: Player) -> (has_won: bool)
        ensures
            has_won == won(self.board@, player),
    {
        self.board.player_won(player)
    }

    fn set_is_finished(&mut self, value: bool)
        ensures
            *final(self) == (Game { is_finished: value, ..*old(self) }),
    {
        self.is_finished = value;
    }

    fn set_winner(&mut self, player: Player)
        ensures
            *final(self) == (Game { winner: Some(player), ..*old(self) }),
    {
        self.winner = Some(player);
    }

    /// The number of moves accepted so far.
    pub fn get_plays(&self) -> (plays: u8)
        ensures
            plays == self@.plays,
    {
        self.plays
    }

    fn update_current_player(&mut self)
        ensures
            *final(self)
                == (Game { current_player: old(self).current_player.other(), ..*old(self) }),
    {
        match self.current_player {
            Player::One => self.current_player = Player::Two,
            _ => self.current_player = Player::One,
        }
    }
}

} // verus!
