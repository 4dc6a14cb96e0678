//! The types that most callers need, under one path.

pub use crate::game::{Game, GuessError};
pub use crate::keyboard::Keyboard;
pub use crate::letters::{Letter, Position};
pub use crate::scoring::Word;
pub use crate::valid_words::Dictionary;
