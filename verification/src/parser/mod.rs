//! Turning text into tokens.

pub mod lexer;
pub mod syntax_kind;
