//! The typed expression tree, the instruction writer, the id allocators, and
//! the lowering of expressions into three-address instructions.

pub mod ident;
pub mod cons;
pub mod temp;
pub mod arithm;
pub mod unary;
pub mod index;
pub mod expr;
pub mod node;
pub mod util;

pub use arithm::Arithm;
pub use cons::Cons;
pub use expr::Expr;
pub use ident::Ident;
pub use index::Index;
pub use node::Visitor;
pub use temp::Temp;
pub use unary::Unary;
