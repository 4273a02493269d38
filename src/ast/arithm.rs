use crate::ast::Expr;
use crate::error::CoercionError;
use crate::lex::token::Token;
use crate::sym::types::Type;
use vstd::prelude::*;

verus! {

/// A binary arithmetic node. Its type is the join of its operands' types.
#[derive(Debug)]
pub struct Arithm {
    pub op: Token,
    pub tp: Type,
    pub expr1: Box<Expr>,
    pub expr2: Box<Expr>,
}

/// The opcode of an arithmetic operator.
pub open spec fn arith_opcode(op: Token) -> Seq<char> {
    match op {
        Token::Plus => "add"@,
        Token::Minus => "sub"@,
        Token::Divide => "div"@,
        Token::Asterisk => "mul"@,
        _ => Seq::empty(),
    }
}

impl Arithm {
    /// Builds `expr1 op expr2`, resolving its type; fails when an operand is
    /// not numeric.
    pub fn new(op: &Token, expr1: &Expr, expr2: &Expr) -> (r: Result<Arithm, CoercionError>)
        ensures
            r == (match expr1.tp().join(expr2.tp()) {
                Some(tp) => Ok(Arithm { op: *op, tp, expr1: Box::new(*expr1), expr2: Box::new(*expr2) }),
                None => Err(CoercionError { left: expr1.tp(), right: expr2.tp() }),
            }),
    {
        let left = expr1.get_tp();
        let right = expr2.get_tp();
        match left.upcast(&right) {
            Some(tp) => Ok(
                Arithm {
                    op: op.clone(),
                    tp,
                    expr1: Box::new(expr1.clone()),
                    expr2: Box::new(expr2.clone()),
                },
            ),
            None => Err(CoercionError { left, right }),
        }
    }

    pub fn get_opcode(&self) -> (r: String)
        requires
            self.op.arith(),
        ensures
            r@ == arith_opcode(self.op),
    {
        match self.op {
            Token::Plus => "add".to_owned(),
            Token::Minus => "sub".to_owned(),
            Token::Divide => "div".to_owned(),
            _ => "mul".to_owned(),
        }
    }
}

impl Clone for Arithm {
    fn clone(&self) -> (r: Self)
        ensures
            r == *self,
    {
        Arithm {
            op: self.op.clone(),
            tp: self.tp.clone(),
            expr1: Box::new((*self.expr1).clone()),
            expr2: Box::new((*self.expr2).clone()),
        }
    }
}

} // verus!
