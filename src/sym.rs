//! Types and symbol scopes.

pub mod types;
pub mod env;
