//! Rule engine for Bagh Chal on a 5×5 grid: four tigers against a reserve of
//! twenty goats. The engine owns the board, the side to move and the goat
//! counters; it reads submitted lines, validates and applies moves,
//! resolves captures and decides when the game has ended.
//!
//! `rules` holds the game as a mathematical model and `game` the executable
//! engine that refines it; `input` reads the numbers off a submitted line.
//! `laws`, `counting` and `grammar` hold the theorems that are proved of
//! the model and of the reader.
pub mod counting;
pub mod game;
pub mod grammar;
pub mod input;
pub mod laws;
pub mod piece;
pub mod rules;
