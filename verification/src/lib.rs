//! Core engine of a terminal number-guessing game: a proximity classifier
//! that turns the distance between a guess and the hidden target into one of
//! seven feedback levels, and a game session that owns the target, the
//! attempt budget and the guess history.
pub mod temperature;
pub mod game;
pub mod input;
