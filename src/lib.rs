//! The logic of a word-guessing game's guess grid: which row shows which
//! guess, which single row takes the next guess, and how a completed word
//! is passed on to the grid's owner.

pub mod grid;
pub mod guess;
pub mod laws;
pub mod planner;
