//! A two-player reflex game: a counter runs round a cycle, each player stops it
//! as close as possible to a target, and the distance, the number of wraps and
//! the player's strength make a score.

pub mod counter;
pub mod game;
pub mod input;
pub mod objectives;
pub mod player;
pub mod poison;
pub mod scoring;
pub mod utils;
