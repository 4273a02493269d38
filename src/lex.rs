//! Tokens and the whitespace-preserving lexer.

pub mod token;
pub mod scan;
pub mod lexer;
