//! Intermediate-code generation core of a small expression compiler: a typed
//! expression tree, its numeric type lattice, a scoped symbol environment,
//! the lowering of expressions into three-address instructions, the two
//! tokenizers, and a parser for arithmetic over their tokens.

pub mod text;
pub mod sym;
pub mod lex;
pub mod error;
pub mod ast;
pub mod lexer;
pub mod syn;
