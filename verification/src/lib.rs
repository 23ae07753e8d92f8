//! Rules engine for two-level ("ultimate") tic-tac-toe, with the one-byte
//! move encoding that two peers use to share a single stream of moves.
//!
//! The board is nine 3x3 sub-boards arranged in a 3x3 meta-board. Every
//! executable function carries a contract over the mathematical model in
//! [`rules`], and the laws of the game are proved from that model in [`laws`].

pub mod coords;
pub mod disable;
pub mod game;
pub mod laws;
pub mod player;
pub mod rules;
pub mod session;
pub mod tile;
pub mod transport;
