//! A terminal tic-tac-toe game between a human player and a computer
//! opponent: the board, the parser of typed commands, and the turn state
//! machine with its round and replay logic.
pub mod board;
pub mod action;
pub mod game;
