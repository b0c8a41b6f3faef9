use tictactoe::board::{find_winning_mark, is_board_full};
use tictactoe::game::{get_current_state, get_empty_board, get_game_state};
use tictactoe::{CellState, Game, GameState, Identity};

const E: CellState = CellState::Empty;
const X: CellState = CellState::X;
const O: CellState = CellState::O;

const LINES: [[usize; 3]; 8] = [
    [0, 1, 2],
    [3, 4, 5],
    [6, 7, 8],
    [0, 3, 6],
    [1, 4, 7],
    [2, 5, 8],
    [0, 4, 8],
    [2, 4, 6],
];

fn game_with(board: [CellState; 9]) -> Game {
    let mut g = Game::new(Identity::new([1; 32]), Identity::new([2; 32]));
    g.board = board;
    g
}

#[test]
fn every_line_of_x_wins_for_challenger() {
    for line in LINES {
        let mut b = [E; 9];
        for p in line {
            b[p] = X;
        }
        let g = game_with(b);
        assert_eq!(get_current_state(&g), GameState::Winner(g.challenger));
        assert_eq!(find_winning_mark(&b), X);
    }
}

#[test]
fn every_line_of_o_wins_for_opposition() {
    for line in LINES {
        let mut b = [E; 9];
        for p in line {
            b[p] = O;
        }
        let g = game_with(b);
        assert_eq!(get_current_state(&g), GameState::Winner(g.opposition));
    }
}

#[test]
fn mixed_line_does_not_win() {
    let g = game_with([X, X, O, E, E, E, E, E, E]);
    assert_eq!(get_current_state(&g), GameState::InPlay);
    assert_eq!(find_winning_mark(&g.board), E);
}

#[test]
fn empty_board_is_in_play() {
    let b = get_empty_board();
    assert_eq!(b, [E; 9]);
    assert_eq!(get_current_state(&game_with(b)), GameState::InPlay);
    assert!(!is_board_full(&b));
}

#[test]
fn full_board_without_line_is_draw() {
    let b = [X, O, X, X, O, O, O, X, X];
    assert!(is_board_full(&b));
    assert_eq!(get_current_state(&game_with(b)), GameState::Draw);
}

#[test]
fn board_with_one_gap_is_not_full() {
    let b = [X, O, X, X, O, O, O, X, E];
    assert!(!is_board_full(&b));
    assert_eq!(get_current_state(&game_with(b)), GameState::InPlay);
}

#[test]
fn first_line_in_order_decides_between_two() {
    // column 0 of O is examined before row 2 of X
    let b = [O, X, E, O, X, E, O, X, E];
    assert_eq!(find_winning_mark(&b), O);
    let g = game_with([X, X, X, O, O, O, E, E, E]);
    assert_eq!(get_current_state(&g), GameState::Winner(g.challenger));
}

#[test]
fn winner_mark_maps_to_participant() {
    let g = game_with([E; 9]);
    assert_eq!(get_game_state(&g, X), GameState::Winner(g.challenger));
    assert_eq!(get_game_state(&g, O), GameState::Winner(g.opposition));
    assert_eq!(get_game_state(&g, E), GameState::InPlay);
}
