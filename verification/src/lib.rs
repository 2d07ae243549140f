//! A trainer for chess tactics.
//!
//! A tactic is a starting position and a forced line of moves. The first
//! move sets the tactic up; after it the solver is asked for each of their
//! moves in turn, and the opponent's replies are played for them.
//!
//! - `machine`: the decisions of a session on plain values, proved exact.
//! - `session`: the session itself, which asks the engine and decides.
//! - `laws`: what holds of every session, proved of its model.
//! - `engine`: what the chess engine is asked, and what is trusted of it.
//! - `prompt`: the prompt, the reading of a typed line, the help.
//! - `messages`: the lines that report what a command led to.
//! - `board`, `pieces`: the board and its picture.
//! - `puzzle`: the tactic record and the request for one.

pub mod board;
pub mod engine;
pub mod laws;
pub mod machine;
pub mod messages;
pub mod pieces;
pub mod prompt;
pub mod puzzle;
pub mod session;
pub mod text;
