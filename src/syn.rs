//! The arithmetic expression parser.

pub mod parser;
