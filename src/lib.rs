//! Turn-based logic for a two-player 3x3 board game whose sessions live in a
//! keyed store between moves.

pub mod board;
pub mod identity;
pub mod game;
pub mod contract;
pub mod laws;

pub use board::CellState;
pub use contract::{TicTacToeContract, TicTacToeTrait};
pub use game::{Error, Game, GameState};
pub use identity::Identity;
