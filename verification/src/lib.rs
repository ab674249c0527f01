//! A single-player word-guessing game: a target word is drawn from a word
//! list, each guess of matching length is scored character by character, and
//! the session ends when the word is guessed or the attempts run out.
//!
//! The session engine is verified: each public function states what it
//! returns over a mathematical model of the session.

pub mod app_error;
pub mod app_state;
pub mod char_result;
pub mod cli;
pub mod clock;
pub mod component;
pub mod game_state;
pub mod session_state;
pub mod text;
pub mod words;
