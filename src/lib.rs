//! A tic-tac-toe game: the board, its win check, the turn state machine and
//! the mapping from window pixels to cells, with their contracts proved.
pub mod board;
pub mod state;
pub mod tile;
pub mod tic_tac_toe;
