//! Properties of the game rules that hold over every game and every move.

use vstd::prelude::*;
use crate::board::{board_full, line, line_complete, winner_from, CellState};
use crate::contract::play_error;
use crate::game::{state_of, Error, Game, GameState};
use crate::identity::Identity;

verus! {

/// An accepted move keeps the invariant of a game: the turn stays with a
/// participant and the status stays the one the board implies.
pub proof fn lemma_move_keeps_wf(g: Game, pos: u32, caller: Identity, next: Game)
    requires
        g.move_error(pos, caller) is None,
        g.moved_to(pos, caller, next),
    ensures
        next.wf(),
{
}

/// After an accepted move the turn passes to the other participant: it
/// differs from the turn before the move and is the challenger or the
/// opposition.
pub proof fn lemma_turn_alternates(g: Game, pos: u32, caller: Identity, next: Game)
    requires
        g.challenger != g.opposition,
        g.move_error(pos, caller) is None,
        g.moved_to(pos, caller, next),
    ensures
        next.p_turn != g.p_turn,
        next.p_turn == next.challenger || next.p_turn == next.opposition,
{
}

/// An accepted move fills one empty cell: no cell that held a mark is
/// emptied or changes its mark.
pub proof fn lemma_marks_stay(g: Game, pos: u32, caller: Identity, next: Game)
    requires
        g.move_error(pos, caller) is None,
        g.moved_to(pos, caller, next),
    ensures
        forall|i: int|
            0 <= i < 9 && g.board@[i] != CellState::Empty ==> #[trigger] next.board@[i]
                == g.board@[i],
        next.board@[pos as int] != CellState::Empty,
{
}

/// `next` is `g` after one call of `play`: unchanged when the move was
/// refused, or moved on by an accepted move.
pub open spec fn play_step(g: Game, next: Game) -> bool {
    ||| next == g
    ||| exists|pos: u32, caller: Identity|
        #![trigger g.move_error(pos, caller), g.moved_to(pos, caller, next)]
        g.move_error(pos, caller) is None && g.moved_to(pos, caller, next)
}

/// Across any run of calls of `play` on a game, a cell that holds a mark
/// keeps that mark in every later game of the run.
pub proof fn lemma_marks_stay_across_run(run: Seq<Game>, i: int, j: int, cell: int)
    requires
        forall|k: int| 0 < k < run.len() ==> #[trigger] play_step(run[k - 1], run[k]),
        0 <= i <= j < run.len(),
        0 <= cell < 9,
        run[i].board@[cell] != CellState::Empty,
    ensures
        run[j].board@[cell] == run[i].board@[cell],
    decreases j - i,
{
    if i < j {
        lemma_marks_stay_across_run(run, i, j - 1, cell);
        assert(play_step(run[j - 1], run[j]));
        if run[j] != run[j - 1] {
            let (pos, caller) = choose|pos: u32, caller: Identity|
                #![trigger run[j - 1].moved_to(pos, caller, run[j])]
                run[j - 1].move_error(pos, caller) is None && run[j - 1].moved_to(pos, caller, run[j]);
            lemma_marks_stay(run[j - 1], pos, caller, run[j]);
        }
    }
}

/// Once a session has ended, every move on it with a position on the board
/// is refused as finished (and a refused move changes nothing).
pub proof fn lemma_finished_session_frozen(s: Seq<Game>, game_id: u32, pos: u32, caller: Identity)
    requires
        game_id < s.len(),
        !(s[game_id as int].game_state is InPlay),
        pos <= 8,
    ensures
        play_error(s, game_id, pos, caller) == Some(Error::GameFinito),
{
}

/// A move is refused for its position when the position is off the board;
/// in a game in play, for the turn when someone else is to move; and, by the
/// participant to move, for the cell when the cell is taken.
pub proof fn lemma_move_rejections(g: Game, pos: u32, caller: Identity)
    ensures
        pos > 8 ==> g.move_error(pos, caller) == Some(Error::InvalidPosition),
        pos <= 8 && g.game_state is InPlay && caller != g.p_turn ==> g.move_error(pos, caller)
            == Some(Error::NotYourTurn),
        pos <= 8 && g.game_state is InPlay && caller == g.p_turn && g.board@[pos as int]
            != CellState::Empty ==> g.move_error(pos, caller) == Some(Error::InvalidPlay),
{
}

/// A board whose line `k` holds three equal marks, with no earlier line
/// complete, is won by the participant who plays that mark.
pub proof fn lemma_line_wins(challenger: Identity, opposition: Identity, board: [CellState; 9], k: int)
    requires
        0 <= k < 8,
        line_complete(board@, k),
        forall|j: int| 0 <= j < k ==> !#[trigger] line_complete(board@, j),
    ensures
        state_of(challenger, opposition, board@) == (if board@[line(k).0] == CellState::X {
            GameState::Winner(challenger)
        } else {
            GameState::Winner(opposition)
        }),
{
    lemma_winner_from_skips(board@, 0, k);
}

/// A full board with no complete line is a draw.
pub proof fn lemma_full_board_draws(challenger: Identity, opposition: Identity, board: [CellState; 9])
    requires
        board_full(board@),
        forall|j: int| 0 <= j < 8 ==> !#[trigger] line_complete(board@, j),
    ensures
        state_of(challenger, opposition, board@) == GameState::Draw,
{
    lemma_winner_from_skips(board@, 0, 8);
}

/// Lines `from..to` that are not complete do not decide the winner.
proof fn lemma_winner_from_skips(b: Seq<CellState>, from: int, to: int)
    requires
        0 <= from <= to <= 8,
        forall|j: int| from <= j < to ==> !#[trigger] line_complete(b, j),
    ensures
        winner_from(b, from) == winner_from(b, to),
    decreases to - from,
{
    if from < to {
        assert(!line_complete(b, from));
        lemma_winner_from_skips(b, from + 1, to);
    }
}

} // verus!
