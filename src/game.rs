//! One game session: its participants, board and status, and the rules that
//! decide whether a move is accepted and what it changes.

use vstd::prelude::*;
use crate::board::{
    board_full, find_winning_mark, is_board_full, winning_mark, CellState, BOARD_CELLS,
};
use crate::identity::Identity;

verus! {

/// Where a game stands.
#[derive(Clone, Copy, Debug, PartialEq, Eq)]
pub enum GameState {
    InPlay,
    Winner(Identity),
    Draw,
}

/// Why a move or a lookup was refused.
#[derive(Clone, Copy, Debug, PartialEq, Eq, PartialOrd, Ord, Structural)]
pub enum Error {
    GameDoesNotExist,
    GameFinito,
    NotYourTurn,
    InvalidPlay,
    NonPlayer,
    InvalidPosition,
}

/// One session. The challenger plays `X` and moves first; the opposition
/// plays `O`.
#[derive(Clone, Copy, Debug, PartialEq, Eq)]
pub struct Game {
    pub challenger: Identity,
    pub opposition: Identity,
    /// The participant who must move next.
    pub p_turn: Identity,
    /// Cells in row-major order: row `i / 3`, column `i % 3`.
    pub board: [CellState; 9],
    pub game_state: GameState,
}

/// The status that a board implies: the participant whose mark fills the
/// first complete line wins; with no complete line a full board is a draw and
/// any other board is still in play.
pub open spec fn state_of(challenger: Identity, opposition: Identity, b: Seq<CellState>) -> GameState {
    match winning_mark(b) {
        CellState::X => GameState::Winner(challenger),
        CellState::O => GameState::Winner(opposition),
        CellState::Empty => if board_full(b) {
            GameState::Draw
        } else {
            GameState::InPlay
        },
    }
}

/// Every cell is empty.
pub open spec fn board_empty(b: Seq<CellState>) -> bool {
    forall|i: int| 0 <= i < 9 ==> b[i] == CellState::Empty
}

impl Game {
    /// A game that `challenger` has just opened against `opposition`.
    pub open spec fn is_new(self, challenger: Identity, opposition: Identity) -> bool {
        &&& self.challenger == challenger
        &&& self.opposition == opposition
        &&& self.p_turn == challenger
        &&& board_empty(self.board@)
        &&& self.game_state == GameState::InPlay
    }

    /// The invariant of every game that `new` and `play` produce: the turn
    /// belongs to a participant and the status is the one the board implies.
    pub open spec fn wf(self) -> bool {
        &&& (self.p_turn == self.challenger || self.p_turn == self.opposition)
        &&& self.game_state == state_of(self.challenger, self.opposition, self.board@)
    }

    /// The first check that refuses a move of `caller` onto cell `pos`, in
    /// the order: position on the board, game still in play, caller's turn,
    /// cell empty, caller a participant.
    pub open spec fn move_error(self, pos: u32, caller: Identity) -> Option<Error> {
        if pos > 8 {
            Some(Error::InvalidPosition)
        } else if !(self.game_state is InPlay) {
            Some(Error::GameFinito)
        } else if caller != self.p_turn {
            Some(Error::NotYourTurn)
        } else if self.board@[pos as int] != CellState::Empty {
            Some(Error::InvalidPlay)
        } else if caller != self.opposition && caller != self.challenger {
            Some(Error::NonPlayer)
        } else {
            None
        }
    }

    /// The mark that `caller` puts down: `O` for the opposition, else `X`.
    pub open spec fn mark_of(self, caller: Identity) -> CellState {
        if caller == self.opposition {
            CellState::O
        } else {
            CellState::X
        }
    }

    /// Who moves after `caller`: the other participant.
    pub open spec fn turn_after(self, caller: Identity) -> Identity {
        if caller == self.opposition {
            self.challenger
        } else {
            self.opposition
        }
    }

    /// `next` is this game after `caller` put their mark on cell `pos`: the
    /// turn passes to the other participant and the status is recomputed
    /// from the new board.
    pub open spec fn moved_to(self, pos: u32, caller: Identity, next: Game) -> bool {
        &&& next.challenger == self.challenger
        &&& next.opposition == self.opposition
        &&& next.p_turn == self.turn_after(caller)
        &&& next.board@ == self.board@.update(pos as int, self.mark_of(caller))
        &&& next.game_state == state_of(next.challenger, next.opposition, next.board@)
    }

    /// A new game of `challenger` against `opposition`: empty board, in
    /// play, challenger to move.
    pub fn new(challenger: Identity, opposition: Identity) -> (r: Game)
        ensures
            r.is_new(challenger, opposition),
            r.wf(),
    {
        let board = get_empty_board();
        proof {
            lemma_empty_board_in_play(challenger, opposition, board@);
        }
        Game { challenger, opposition, p_turn: challenger, board, game_state: GameState::InPlay }
    }

    /// Whether the game is still in play.
    pub fn is_in_play(&self) -> (r: bool)
        ensures
            r == (self.game_state is InPlay),
    {
        match self.game_state {
            GameState::InPlay => true,
            _ => false,
        }
    }

    /// `caller` puts their mark on cell `pos`. On success the game moves on
    /// and the result tells whether the move ended it; on refusal the game is
    /// left as it was and the first failing check is reported.
    pub fn play(&mut self, pos: u32, caller: &Identity) -> (r: Result<bool, Error>)
        ensures
            match r {
                Err(e) => {
                    &&& old(self).move_error(pos, *caller) == Some(e)
                    &&& *final(self) == *old(self)
                },
                Ok(done) => {
                    &&& old(self).move_error(pos, *caller) is None
                    &&& old(self).moved_to(pos, *caller, *final(self))
                    &&& done == !(final(self).game_state is InPlay)
                },
            },
    {
        if pos > 8 {
            return Err(Error::InvalidPosition);
        }
        if !self.is_in_play() {
            return Err(Error::GameFinito);
        }
        if !(*caller == self.p_turn) {
            return Err(Error::NotYourTurn);
        }
        let p = pos as usize;
        if get_cell_state(self, p) != CellState::Empty {
            return Err(Error::InvalidPlay);
        }
        if *caller == self.opposition {
            self.board[p] = CellState::O;
            self.p_turn = self.challenger;
        } else if *caller == self.challenger {
            self.board[p] = CellState::X;
            self.p_turn = self.opposition;
        } else {
            return Err(Error::NonPlayer);
        }
        assert(self.board@ =~= old(self).board@.update(pos as int, old(self).mark_of(*caller)));
        self.game_state = get_current_state(self);
        Ok(!self.is_in_play())
    }
}

/// A board of nine empty cells.
pub fn get_empty_board() -> (r: [CellState; 9])
    ensures
        board_empty(r@),
{
    [CellState::Empty; 9]
}

/// The content of cell `pos` of `game`.
pub fn get_cell_state(game: &Game, pos: usize) -> (r: CellState)
    requires
        pos < BOARD_CELLS,
    ensures
        r == game.board@[pos as int],
{
    game.board[pos]
}

/// The status that a completed line of `winner` gives: the challenger wins a
/// line of `X`, the opposition a line of `O`; `Empty` leaves the game in play.
pub fn get_game_state(game: &Game, winner: CellState) -> (r: GameState)
    ensures
        r == (match winner {
            CellState::X => GameState::Winner(game.challenger),
            CellState::O => GameState::Winner(game.opposition),
            CellState::Empty => GameState::InPlay,
        }),
{
    match winner {
        CellState::X => GameState::Winner(game.challenger),
        CellState::O => GameState::Winner(game.opposition),
        CellState::Empty => GameState::InPlay,
    }
}

/// The status that the board of `game` implies.
pub fn get_current_state(game: &Game) -> (r: GameState)
    ensures
        r == state_of(game.challenger, game.opposition, game.board@),
{
    let winner = find_winning_mark(&game.board);
    if winner != CellState::Empty {
        return get_game_state(game, winner);
    }
    if is_board_full(&game.board) {
        GameState::Draw
    } else {
        GameState::InPlay
    }
}

/// An empty board has no complete line and is not full.
pub proof fn lemma_empty_board_in_play(challenger: Identity, opposition: Identity, b: Seq<CellState>)
    requires
        board_empty(b),
    ensures
        state_of(challenger, opposition, b) == GameState::InPlay,
{
    reveal_with_fuel(crate::board::winner_from, 9);
    assert(b[0] == CellState::Empty);
}

} // verus!
