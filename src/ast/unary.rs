use crate::ast::Expr;
use crate::error::CoercionError;
use crate::lex::token::Token;
use crate::sym::types::Type;
use vstd::prelude::*;

verus! {

/// A unary node. Its type is the join of `Int64` and its operand's type.
#[derive(Debug)]
pub struct Unary {
    pub op: Token,
    pub tp: Type,
    pub expr: Box<Expr>,
}

impl Unary {
    /// Builds `op expr`, resolving its type; fails when the operand is not
    /// numeric.
    pub fn new(op: &Token, expr: &Expr) -> (r: Result<Unary, CoercionError>)
        ensures
            r == (match Type::Int64.join(expr.tp()) {
                Some(tp) => Ok(Unary { op: *op, tp, expr: Box::new(*expr) }),
                None => Err(CoercionError { left: Type::Int64, right: expr.tp() }),
            }),
    {
        let right = expr.get_tp();
        match Type::Int64.upcast(&right) {
            Some(tp) => Ok(Unary { op: op.clone(), tp, expr: Box::new(expr.clone()) }),
            None => Err(CoercionError { left: Type::Int64, right }),
        }
    }
}

impl Clone for Unary {
    fn clone(&self) -> (r: Self)
        ensures
            r == *self,
    {
        Unary { op: self.op.clone(), tp: self.tp.clone(), expr: Box::new((*self.expr).clone()) }
    }
}

} // verus!
