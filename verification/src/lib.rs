//! The rules of a five-letter word-guessing game: scoring a guess against a
//! secret word, validating guesses against a dictionary, and tracking the best
//! hint seen so far for every key of the keyboard.

pub mod game;
pub mod keyboard;
pub mod letters;
pub mod ordered_position;
pub mod prelude;
pub mod scoring;
mod text;
pub mod turns;
pub mod valid_words;
pub mod wordle;

pub use game::{Game, GuessError};
pub use ordered_position::OrderedPosition;
pub use scoring::Word;
