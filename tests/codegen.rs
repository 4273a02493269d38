use ez_lang::ast::util::{new_label_id, new_temp_id, IdAllocator};
use ez_lang::ast::{Arithm, Cons, Expr, Ident, Index, Temp, Unary, Visitor};
use ez_lang::lex::token::Token;
use ez_lang::sym::types::Type;

fn ident(name: &str, tp: Type) -> Expr {
    Expr::Ident(Ident { id: name.to_owned(), tp, offset: 0 })
}

fn binary(op: Token, l: &Expr, r: &Expr) -> Expr {
    Expr::Arithm(Arithm::new(&op, l, r).unwrap())
}

fn temp_parts(e: &Expr) -> Option<(usize, Type)> {
    match e {
        Expr::Temp(t) => Some((t.id, t.tp.clone())),
        _ => None,
    }
}

#[test]
fn reduce_product_of_sum() {
    let a = ident("a", Type::Int32);
    let b = ident("b", Type::Int32);
    let c = ident("c", Type::Int32);
    let e = binary(Token::Asterisk, &binary(Token::Plus, &a, &b), &c);
    let mut visitor = Visitor::new();
    let mut ids = IdAllocator::new();
    let r = e.reduce(&mut visitor, &mut ids);
    assert_eq!(visitor.output(), "\tadd __t0 a b\n\tmul __t1 __t0 c\n");
    assert_eq!(temp_parts(&r), Some((1, Type::Int32)));
}

#[test]
fn reduce_atoms_is_idempotent() {
    let atoms = vec![
        ident("x", Type::Int64),
        Expr::Cons(Cons { tok: Token::Integer("42".to_owned()), tp: Type::Int32 }),
        Expr::Temp(Temp { id: 9, tp: Type::Flt32 }),
    ];
    let mut visitor = Visitor::new();
    let mut ids = IdAllocator::new();
    for x in atoms.iter() {
        let once = x.reduce(&mut visitor, &mut ids);
        let twice = once.reduce(&mut visitor, &mut ids);
        assert_eq!(once.to_string(), x.to_string());
        assert_eq!(twice.to_string(), once.to_string());
    }
    assert_eq!(visitor.output(), "");
    assert_eq!(0, new_temp_id(&mut ids));
}

#[test]
fn reduce_twice_after_composite() {
    let e = binary(Token::Minus, &ident("p", Type::Int32), &ident("q", Type::Int64));
    let mut visitor = Visitor::new();
    let mut ids = IdAllocator::new();
    let once = e.reduce(&mut visitor, &mut ids);
    let before = visitor.output().to_owned();
    let twice = once.reduce(&mut visitor, &mut ids);
    assert_eq!(visitor.output(), before);
    assert_eq!(temp_parts(&twice), Some((0, Type::Int64)));
}

#[test]
fn one_instruction_per_shallow_node() {
    let cases: Vec<(Expr, &str)> = vec![
        (binary(Token::Plus, &ident("a", Type::Int32), &ident("b", Type::Int32)), "\tadd __t0 a b\n"),
        (binary(Token::Minus, &ident("a", Type::Int32), &ident("b", Type::Int32)), "\tsub __t0 a b\n"),
        (binary(Token::Asterisk, &ident("a", Type::Int32), &ident("b", Type::Int32)), "\tmul __t0 a b\n"),
        (binary(Token::Divide, &ident("a", Type::Int32), &ident("b", Type::Int32)), "\tdiv __t0 a b\n"),
        (
            Expr::Unary(Unary::new(&Token::Minus, &ident("v", Type::Char)).unwrap()),
            "\tinv __t0 v\n",
        ),
        (
            Expr::Index(Index {
                array: Ident { id: "arr".to_owned(), tp: Type::Int32, offset: 16 },
                index: Box::new(ident("i", Type::Int32)),
            }),
            "\tidx __t0 i arr\n",
        ),
    ];
    for (e, expected) in cases.iter() {
        let mut visitor = Visitor::new();
        let mut ids = IdAllocator::new();
        e.reduce(&mut visitor, &mut ids);
        assert_eq!(visitor.output(), *expected);
        assert_eq!(1, new_temp_id(&mut ids));
    }
}

#[test]
fn operands_are_emitted_before_their_combination() {
    let left = binary(Token::Asterisk, &ident("a", Type::Int32), &ident("b", Type::Int32));
    let right = binary(Token::Minus, &ident("c", Type::Int32), &ident("d", Type::Int32));
    let e = binary(Token::Plus, &left, &right);
    let mut visitor = Visitor::new();
    let mut ids = IdAllocator::new();
    let r = e.reduce(&mut visitor, &mut ids);
    assert_eq!(
        visitor.output(),
        "\tmul __t0 a b\n\tsub __t1 c d\n\tadd __t2 __t0 __t1\n"
    );
    assert_eq!(temp_parts(&r), Some((2, Type::Int32)));
}

#[test]
fn generate_keeps_the_node_shape() {
    let inner = binary(Token::Plus, &ident("a", Type::Int32), &ident("b", Type::Int32));
    let e = binary(Token::Divide, &inner, &ident("c", Type::Flt64));
    let mut visitor = Visitor::new();
    let mut ids = IdAllocator::new();
    let g = e.generate(&mut visitor, &mut ids);
    assert_eq!(visitor.output(), "\tadd __t0 a b\n");
    assert_eq!(g.to_string(), "__t0 c");
    assert_eq!(g.get_tp(), Type::Flt64);
    let atom = ident("z", Type::Bool);
    assert_eq!(atom.generate(&mut visitor, &mut ids).to_string(), "z");
    assert_eq!(visitor.output(), "\tadd __t0 a b\n");
}

#[test]
fn index_reduces_only_its_index() {
    let i = binary(Token::Plus, &ident("i", Type::Int32), &ident("j", Type::Int32));
    let arr_type = Type::Array { of: Box::new(Type::Int32), size: 4 };
    let e = Expr::Index(Index {
        array: Ident { id: "arr".to_owned(), tp: arr_type.clone(), offset: 0 },
        index: Box::new(i),
    });
    assert_eq!(e.get_tp(), arr_type);
    let mut visitor = Visitor::new();
    let mut ids = IdAllocator::new();
    let r = e.reduce(&mut visitor, &mut ids);
    assert_eq!(visitor.output(), "\tadd __t0 i j\n\tidx __t1 __t0 arr\n");
    assert_eq!(temp_parts(&r), Some((1, arr_type)));
}

#[test]
fn unary_over_composite() {
    let inner = binary(Token::Asterisk, &ident("a", Type::Char), &ident("b", Type::Char));
    let e = Expr::Unary(Unary::new(&Token::Tilde, &inner).unwrap());
    assert_eq!(e.get_tp(), Type::Int64);
    let mut visitor = Visitor::new();
    let mut ids = IdAllocator::new();
    let r = e.reduce(&mut visitor, &mut ids);
    assert_eq!(visitor.output(), "\tmul __t0 a b\n\tinv __t1 __t0\n");
    assert_eq!(temp_parts(&r), Some((1, Type::Int64)));
}

#[test]
fn temporaries_past_ten() {
    let mut e = ident("x0", Type::Int32);
    for k in 1..13 {
        e = binary(Token::Plus, &e, &ident(&format!("x{}", k), Type::Int32));
    }
    let mut visitor = Visitor::new();
    let mut ids = IdAllocator::new();
    let r = e.reduce(&mut visitor, &mut ids);
    assert_eq!(temp_parts(&r), Some((11, Type::Int32)));
    assert!(visitor.output().ends_with("\tadd __t11 __t10 x12\n"));
    assert_eq!(visitor.output().lines().count(), 12);
}

#[test]
fn jump_table() {
    let test = binary(Token::Minus, &ident("x", Type::Int32), &ident("y", Type::Int32));
    let mut visitor = Visitor::new();
    test.jumping(&mut visitor, 0, 0);
    assert_eq!(visitor.output(), "");

    let mut visitor = Visitor::new();
    test.jumping(&mut visitor, 0, 5);
    assert_eq!(visitor.output(), "\tjmpf L5 x y\n");

    let mut visitor = Visitor::new();
    test.jumping(&mut visitor, 7, 0);
    assert_eq!(visitor.output(), "\tjmpt L7 x y\n");

    let mut visitor = Visitor::new();
    test.jumping(&mut visitor, 7, 5);
    assert_eq!(visitor.output(), "\tjmpt L7 x y\n\tjmp L5\n");
}

#[test]
fn jumps_to_fresh_labels() {
    let mut ids = IdAllocator::new();
    let t = new_label_id(&mut ids);
    let f = new_label_id(&mut ids);
    let mut visitor = Visitor::new();
    visitor.emit_jump("flag", t, f);
    visitor.emit_label(f);
    assert_eq!(visitor.output(), "\tjmpt L1 flag\n\tjmp L2\nL2");
}

#[test]
fn sink_operations() {
    let mut visitor = Visitor::new();
    visitor.write("a");
    visitor.writeln("b");
    visitor.emit_inst("add __t3 x y");
    visitor.emit_label(120);
    visitor.write(":");
    assert_eq!(visitor.output(), "ab\n\tadd __t3 x y\nL120:");
}

#[test]
fn rendering() {
    let k = Expr::Cons(Cons { tok: Token::Float("2.5".to_owned()), tp: Type::Flt64 });
    assert_eq!(k.to_string(), "2.5");
    let sum = binary(Token::Plus, &ident("n", Type::Int32), &k);
    assert_eq!(sum.to_string(), "n 2.5");
    let neg = Expr::Unary(Unary::new(&Token::Minus, &sum).unwrap());
    assert_eq!(neg.to_string(), "n 2.5");
    let t = Expr::Temp(Temp { id: 305, tp: Type::Int32 });
    assert_eq!(t.to_string(), "__t305");
}

#[test]
fn coercion_errors() {
    let flag = ident("flag", Type::Bool);
    let n = ident("n", Type::Int32);
    let err = Arithm::new(&Token::Plus, &flag, &n).unwrap_err();
    assert_eq!(err.left, Type::Bool);
    assert_eq!(err.right, Type::Int32);
    let err = Arithm::new(&Token::Plus, &n, &ident("s", Type::String(3))).unwrap_err();
    assert_eq!(err.left, Type::Int32);
    assert_eq!(err.right, Type::String(3));
    let err = Unary::new(&Token::Minus, &flag).unwrap_err();
    assert_eq!(err.left, Type::Int64);
    assert_eq!(err.right, Type::Bool);
}

#[test]
fn construction_resolves_types() {
    let a = Arithm::new(&Token::Plus, &ident("c", Type::Char), &ident("f", Type::Flt32)).unwrap();
    assert_eq!(a.tp, Type::Flt32);
    assert_eq!(a.get_opcode(), "add");
    let u = Unary::new(&Token::Minus, &ident("c", Type::Char)).unwrap();
    assert_eq!(u.tp, Type::Int64);
    let w = Unary::new(&Token::Minus, &ident("d", Type::Flt64)).unwrap();
    assert_eq!(w.tp, Type::Flt64);
}

#[test]
fn largest_label_and_temporary_ids() {
    let mut visitor = Visitor::new();
    visitor.emit_label(usize::MAX);
    assert_eq!(visitor.output(), format!("L{}", usize::MAX));
    let t = Expr::Temp(Temp { id: usize::MAX, tp: Type::Int32 });
    assert_eq!(t.to_string(), format!("__t{}", usize::MAX));
    let zero = Expr::Temp(Temp { id: 0, tp: Type::Int32 });
    assert_eq!(zero.to_string(), "__t0");
}
