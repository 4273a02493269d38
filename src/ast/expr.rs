use crate::ast::arithm::arith_opcode;
use crate::ast::node::{instruction, jump_code};
use crate::ast::temp::temp_name;
use crate::ast::util::{new_temp_id, IdAllocator};
use crate::ast::{Arithm, Cons, Ident, Index, Temp, Unary, Visitor};
use crate::lex::token::token_text;
use crate::sym::types::Type;
use crate::text::{push_char, push_text};
use vstd::prelude::*;

verus! {

/// A typed expression. Identifiers, constants and temporaries are atoms; the
/// other three variants are composite and own their operands.
#[derive(Debug)]
pub enum Expr {
    Ident(Ident),
    Cons(Cons),
    Temp(Temp),
    Arithm(Arithm),
    Unary(Unary),
    Index(Index),
}

impl Clone for Expr {
    fn clone(&self) -> (r: Self)
        ensures
            r == *self,
        decreases self,
    {
        match self {
            Expr::Ident(i) => Expr::Ident(i.clone()),
            Expr::Cons(c) => Expr::Cons(c.clone()),
            Expr::Temp(t) => Expr::Temp(t.clone()),
            Expr::Arithm(a) => Expr::Arithm(
                Arithm {
                    op: a.op.clone(),
                    tp: a.tp.clone(),
                    expr1: Box::new((*a.expr1).clone()),
                    expr2: Box::new((*a.expr2).clone()),
                },
            ),
            Expr::Unary(u) => Expr::Unary(
                Unary { op: u.op.clone(), tp: u.tp.clone(), expr: Box::new((*u.expr).clone()) },
            ),
            Expr::Index(x) => Expr::Index(
                Index { array: x.array.clone(), index: Box::new((*x.index).clone()) },
            ),
        }
    }
}

impl Expr {
    /// The type the node carries; an indexed access has its array's type.
    pub open spec fn tp(self) -> Type {
        match self {
            Expr::Ident(i) => i.tp,
            Expr::Cons(c) => c.tp,
            Expr::Temp(t) => t.tp,
            Expr::Arithm(a) => a.tp,
            Expr::Unary(u) => u.tp,
            Expr::Index(x) => x.array.tp,
        }
    }

    pub open spec fn atomic(self) -> bool {
        self is Ident || self is Cons || self is Temp
    }

    pub open spec fn composite(self) -> bool {
        !self.atomic()
    }

    /// Every arithmetic node has one of the four arithmetic operators and
    /// the join of its operands' types, and every unary node the join of
    /// `Int64` and its operand's type.
    pub open spec fn wf(self) -> bool
        decreases self,
    {
        match self {
            Expr::Arithm(a) => {
                &&& a.op.arith()
                &&& (*a.expr1).tp().join((*a.expr2).tp()) == Some(a.tp)
                &&& (*a.expr1).wf()
                &&& (*a.expr2).wf()
            },
            Expr::Unary(u) => Type::Int64.join((*u.expr).tp()) == Some(u.tp) && (*u.expr).wf(),
            Expr::Index(x) => (*x.index).wf(),
            _ => true,
        }
    }

    /// The number of composite nodes, that is, of instructions that reducing
    /// the expression emits.
    pub open spec fn size(self) -> nat
        decreases self,
    {
        match self {
            Expr::Arithm(a) => 1 + (*a.expr1).size() + (*a.expr2).size(),
            Expr::Unary(u) => 1 + (*u.expr).size(),
            Expr::Index(x) => 1 + (*x.index).size(),
            _ => 0,
        }
    }

    /// The textual rendering: an atom's name or lexeme, the two operands of
    /// a binary node separated by a space, a unary node's operand, and an
    /// indexed access as its index followed by the array.
    pub open spec fn render(self) -> Seq<char>
        decreases self,
    {
        match self {
            Expr::Ident(i) => i.id@,
            Expr::Cons(c) => token_text(c.tok),
            Expr::Temp(t) => temp_name(t.id as nat),
            Expr::Arithm(a) => (*a.expr1).render() + seq![' '] + (*a.expr2).render(),
            Expr::Unary(u) => (*u.expr).render(),
            Expr::Index(x) => (*x.index).render() + seq![' '] + x.array.id@,
        }
    }

    /// The operands that reducing this node reduces are all atoms.
    pub open spec fn operands_atomic(self) -> bool {
        match self {
            Expr::Arithm(a) => (*a.expr1).atomic() && (*a.expr2).atomic(),
            Expr::Unary(u) => (*u.expr).atomic(),
            Expr::Index(x) => (*x.index).atomic(),
            _ => true,
        }
    }

    /// The opcode of the instruction that computes a composite node.
    pub open spec fn opcode(self) -> Seq<char> {
        match self {
            Expr::Arithm(a) => arith_opcode(a.op),
            Expr::Unary(_) => "inv"@,
            Expr::Index(_) => "idx"@,
            _ => Seq::empty(),
        }
    }
}

/// Lowering one level starting with temporary id `t`: the node with each
/// operand reduced (an indexed access reduces its index only), the text
/// emitted, and the next free temporary id.
pub open spec fn generated(e: Expr, t: nat) -> (Expr, Seq<char>, nat)
    decreases e, 0nat,
{
    match e {
        Expr::Arithm(a) => {
            let (l, out1, t1) = reduced(*a.expr1, t);
            let (r, out2, t2) = reduced(*a.expr2, t1);
            (
                Expr::Arithm(Arithm { op: a.op, tp: a.tp, expr1: Box::new(l), expr2: Box::new(r) }),
                out1 + out2,
                t2,
            )
        },
        Expr::Unary(u) => {
            let (x, out, t1) = reduced(*u.expr, t);
            (Expr::Unary(Unary { op: u.op, tp: u.tp, expr: Box::new(x) }), out, t1)
        },
        Expr::Index(x) => {
            let (i, out, t1) = reduced(*x.index, t);
            (Expr::Index(Index { array: x.array, index: Box::new(i) }), out, t1)
        },
        _ => (e, Seq::empty(), t),
    }
}

/// The instruction that stores `g` into temporary `id`, `g` being the
/// generated form of a node with the given opcode.
pub open spec fn store_instruction(opcode: Seq<char>, id: nat, g: Expr) -> Seq<char> {
    instruction(opcode + seq![' '] + temp_name(id) + seq![' '] + g.render())
}

/// Reducing starting with temporary id `t`: an atom is left as it is with
/// nothing emitted; a composite node is generated, then stored into a fresh
/// temporary by one instruction, and that temporary is the result.
pub open spec fn reduced(e: Expr, t: nat) -> (Expr, Seq<char>, nat)
    decreases e, 1nat,
{
    if e.composite() {
        let (g, out, t1) = generated(e, t);
        (
            Expr::Temp(Temp { id: t1 as usize, tp: g.tp() }),
            out + store_instruction(e.opcode(), t1, g),
            t1 + 1,
        )
    } else {
        (e, Seq::empty(), t)
    }
}

/// Reducing an atom returns it and emits nothing; hence reducing the result
/// of any reduction again returns that result and emits nothing.
pub proof fn reduce_idempotent(e: Expr, t: nat, u: nat)
    ensures
        e.atomic() ==> reduced(e, t) == (e, Seq::<char>::empty(), t),
        reduced(reduced(e, t).0, u) == (reduced(e, t).0, Seq::<char>::empty(), u),
{
}

/// Reducing a composite node whose operands are atoms emits exactly one
/// instruction, which stores the node as it renders into temporary `t`.
pub proof fn reduce_single_instruction(e: Expr, t: nat)
    requires
        e.composite(),
        e.operands_atomic(),
    ensures
        reduced(e, t) == (Expr::Temp(Temp { id: t as usize, tp: e.tp() }), store_instruction(
            e.opcode(),
            t,
            e,
        ), t + 1),
{
    assert(generated(e, t).0 == e);
    assert(generated(e, t).1 =~= Seq::<char>::empty());
}

/// For `a op b` with composite `a` and `b`, the instructions emitted for `a`
/// come first, then those for `b`, then the one instruction that combines
/// their temporaries.
pub proof fn reduce_pre_order(e: Expr, t: nat)
    requires
        e is Arithm,
        (*e->Arithm_0.expr1).composite(),
        (*e->Arithm_0.expr2).composite(),
    ensures
        ({
            let a = e->Arithm_0;
            let (l, out1, t1) = reduced(*a.expr1, t);
            let (r, out2, t2) = reduced(*a.expr2, t1);
            let g = Expr::Arithm(Arithm { op: a.op, tp: a.tp, expr1: Box::new(l), expr2: Box::new(r) });
            &&& reduced(e, t).1 == out1 + out2 + store_instruction(e.opcode(), t2, g)
            &&& out1.len() > 0
            &&& out2.len() > 0
        }),
{
}

impl Expr {
    pub fn get_tp(&self) -> (r: Type)
        ensures
            r == self.tp(),
    {
        match self {
            Expr::Ident(i) => i.tp.clone(),
            Expr::Cons(c) => c.tp.clone(),
            Expr::Temp(t) => t.tp.clone(),
            Expr::Arithm(a) => a.tp.clone(),
            Expr::Unary(u) => u.tp.clone(),
            Expr::Index(x) => x.array.tp.clone(),
        }
    }

    /// Appends the rendering of this expression to `out`.
    pub fn render_into(&self, out: &mut String)
        ensures
            final(out)@ == old(out)@ + self.render(),
        decreases self,
    {
        match self {
            Expr::Ident(i) => push_text(out, i.id.as_str()),
            Expr::Cons(c) => {
                let s = c.tok.to_string();
                push_text(out, s.as_str());
            },
            Expr::Temp(t) => t.write_name(out),
            Expr::Arithm(a) => {
                (*a.expr1).render_into(out);
                push_char(out, ' ');
                (*a.expr2).render_into(out);
                assert(final(out)@ =~= old(out)@ + self.render());
            },
            Expr::Unary(u) => (*u.expr).render_into(out),
            Expr::Index(x) => {
                (*x.index).render_into(out);
                push_char(out, ' ');
                push_text(out, x.array.id.as_str());
                assert(final(out)@ =~= old(out)@ + self.render());
            },
        }
    }

    pub fn to_string(&self) -> (r: String)
        ensures
            r@ == self.render(),
    {
        let mut out = String::new();
        self.render_into(&mut out);
        assert(out@ =~= self.render());
        out
    }

    /// Lowers one level: each operand is reduced, emitting the instructions
    /// that compute it, and the node is rebuilt over the results.
    pub fn generate(&self, visitor: &mut Visitor, ids: &mut IdAllocator) -> (r: Expr)
        requires
            self.wf(),
            old(ids).temps_issued() + self.size() <= usize::MAX,
        ensures
            r == generated(*self, old(ids).temps_issued()).0,
            final(visitor)@ == old(visitor)@ + generated(*self, old(ids).temps_issued()).1,
            final(ids).temps_issued() == generated(*self, old(ids).temps_issued()).2,
            final(ids).labels_issued() == old(ids).labels_issued(),
            self.composite() ==> final(ids).temps_issued() + 1 == old(ids).temps_issued() + self.size(),
            self.atomic() ==> final(ids).temps_issued() == old(ids).temps_issued(),
            r.wf(),
            r.tp() == self.tp(),
        decreases self, 0nat,
    {
        match self {
            Expr::Arithm(a) => {
                let left = (*a.expr1).reduce(visitor, ids);
                let right = (*a.expr2).reduce(visitor, ids);
                assert(left.wf() && right.wf());
                assert(final(visitor)@ =~= old(visitor)@ + generated(*self, old(ids).temps_issued()).1);
                Expr::Arithm(
                    Arithm { op: a.op.clone(), tp: a.tp.clone(), expr1: Box::new(left), expr2: Box::new(right) },
                )
            },
            Expr::Unary(u) => {
                let x = (*u.expr).reduce(visitor, ids);
                assert(x.wf());
                Expr::Unary(Unary { op: u.op.clone(), tp: u.tp.clone(), expr: Box::new(x) })
            },
            Expr::Index(x) => {
                let i = (*x.index).reduce(visitor, ids);
                assert(i.wf());
                Expr::Index(Index { array: x.array.clone(), index: Box::new(i) })
            },
            _ => {
                assert(old(visitor)@ + Seq::<char>::empty() =~= old(visitor)@);
                self.clone()
            },
        }
    }

    /// Reduces the expression to an atom: a composite node is generated and
    /// stored into a fresh temporary by one instruction, and the temporary
    /// is returned; an atom is returned unchanged with nothing emitted.
    pub fn reduce(&self, visitor: &mut Visitor, ids: &mut IdAllocator) -> (r: Expr)
        requires
            self.wf(),
            old(ids).temps_issued() + self.size() <= usize::MAX,
        ensures
            r == reduced(*self, old(ids).temps_issued()).0,
            final(visitor)@ == old(visitor)@ + reduced(*self, old(ids).temps_issued()).1,
            final(ids).temps_issued() == reduced(*self, old(ids).temps_issued()).2,
            final(ids).temps_issued() == old(ids).temps_issued() + self.size(),
            final(ids).labels_issued() == old(ids).labels_issued(),
            r.atomic(),
            r.tp() == self.tp(),
        decreases self, 1nat,
    {
        match self {
            Expr::Arithm(_) | Expr::Unary(_) | Expr::Index(_) => {
                let expr = self.generate(visitor, ids);
                let temp = Temp { id: new_temp_id(ids), tp: expr.get_tp() };
                let mut line = match self {
                    Expr::Arithm(a) => a.get_opcode(),
                    Expr::Unary(_) => "inv".to_owned(),
                    _ => "idx".to_owned(),
                };
                push_char(&mut line, ' ');
                temp.write_name(&mut line);
                push_char(&mut line, ' ');
                expr.render_into(&mut line);
                assert(line@ =~= self.opcode() + seq![' '] + temp_name(temp.id as nat) + seq![' ']
                    + expr.render());
                visitor.emit_inst(line.as_str());
                assert(final(visitor)@ =~= old(visitor)@ + reduced(*self, old(ids).temps_issued()).1);
                Expr::Temp(temp)
            },
            _ => {
                assert(old(visitor)@ + Seq::<char>::empty() =~= old(visitor)@);
                self.clone()
            },
        }
    }

    /// Emits the branch code for this expression as a test: see `jump_code`.
    pub fn jumping(&self, visitor: &mut Visitor, true_label: usize, false_label: usize)
        ensures
            final(visitor)@ == old(visitor)@ + jump_code(
                self.render(),
                true_label as nat,
                false_label as nat,
            ),
    {
        let test = self.to_string();
        visitor.emit_jump(test.as_str(), true_label, false_label)
    }
}

} // verus!
