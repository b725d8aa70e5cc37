//! A byte-level lexer for a small C-like language.
//!
//! [`lexer::Lexer`] walks an input buffer and hands out one
//! [`lexer::Token`] per call of [`lexer::Lexer::consume`]. What each call
//! returns is stated over the mathematical model in [`grammar`].

pub mod grammar;
pub mod laws;
pub mod lexer;
pub mod text;
