//! The board, its eight lines, and the detection of a completed line or a
//! full board.

use vstd::prelude::*;

verus! {

/// Number of cells on the board.
pub const BOARD_CELLS: usize = 9;

/// Number of lines (three rows, three columns, two diagonals).
pub const LINE_COUNT: usize = 8;

/// What one cell holds: nothing yet, the challenger's mark, or the
/// opposition's mark.
#[derive(Clone, Copy, Debug, PartialEq, Eq, Structural)]
pub enum CellState {
    Empty,
    X,
    O,
}

/// The cells of line `k`, in the order the lines are examined: for each
/// `c` in `0..3` the column `c`, then the row `c`; then the diagonal through
/// cell 0 and the diagonal through cell 2.
pub open spec fn line(k: int) -> (int, int, int) {
    if k == 0 {
        (0, 3, 6)
    } else if k == 1 {
        (0, 1, 2)
    } else if k == 2 {
        (1, 4, 7)
    } else if k == 3 {
        (3, 4, 5)
    } else if k == 4 {
        (2, 5, 8)
    } else if k == 5 {
        (6, 7, 8)
    } else if k == 6 {
        (0, 4, 8)
    } else {
        (2, 4, 6)
    }
}

/// Line `k` holds three equal marks.
pub open spec fn line_complete(b: Seq<CellState>, k: int) -> bool {
    let (p, q, r) = line(k);
    &&& b[p] != CellState::Empty
    &&& b[p] == b[q]
    &&& b[p] == b[r]
}

/// The mark of the first complete line at index `k` or later, or `Empty`
/// when there is none.
pub open spec fn winner_from(b: Seq<CellState>, k: int) -> CellState
    decreases 8 - k,
{
    if k >= 8 || k < 0 {
        CellState::Empty
    } else if line_complete(b, k) {
        b[line(k).0]
    } else {
        winner_from(b, k + 1)
    }
}

/// The mark of the first complete line, or `Empty` when no line is complete.
pub open spec fn winning_mark(b: Seq<CellState>) -> CellState {
    winner_from(b, 0)
}

/// No cell of the board is empty.
pub open spec fn board_full(b: Seq<CellState>) -> bool {
    forall|i: int| 0 <= i < 9 ==> b[i] != CellState::Empty
}

/// The cells of line `k`.
fn line_cells(k: usize) -> (r: (usize, usize, usize))
    requires
        k < LINE_COUNT,
    ensures
        r.0 as int == line(k as int).0,
        r.1 as int == line(k as int).1,
        r.2 as int == line(k as int).2,
{
    if k == 0 {
        (0, 3, 6)
    } else if k == 1 {
        (0, 1, 2)
    } else if k == 2 {
        (1, 4, 7)
    } else if k == 3 {
        (3, 4, 5)
    } else if k == 4 {
        (2, 5, 8)
    } else if k == 5 {
        (6, 7, 8)
    } else if k == 6 {
        (0, 4, 8)
    } else {
        (2, 4, 6)
    }
}

/// The mark of the first complete line of `board`, or `Empty`.
pub fn find_winning_mark(board: &[CellState; 9]) -> (r: CellState)
    ensures
        r == winning_mark(board@),
{
    let mut k: usize = 0;
    while k < LINE_COUNT
        invariant
            k <= LINE_COUNT,
            winner_from(board@, k as int) == winning_mark(board@),
        decreases LINE_COUNT - k,
    {
        let (p, q, s) = line_cells(k);
        let first = board[p];
        if first != CellState::Empty && first == board[q] && first == board[s] {
            return first;
        }
        k = k + 1;
    }
    CellState::Empty
}

/// Whether every cell of `board` holds a mark.
pub fn is_board_full(board: &[CellState; 9]) -> (r: bool)
    ensures
        r == board_full(board@),
{
    let mut i: usize = 0;
    while i < BOARD_CELLS
        invariant
            i <= BOARD_CELLS,
            forall|j: int| 0 <= j < i ==> board@[j] != CellState::Empty,
        decreases BOARD_CELLS - i,
    {
        if board[i] == CellState::Empty {
            return false;
        }
        i = i + 1;
    }
    true
}

} // verus!
