use aex::ast::{BinaryOp, Expr, Stmt, UnaryOp};
use aex::mem::Name;
use aex::parser::{parse, Token};
use aex::pos::{Pos, Source};
use aex::types::Type;

fn toks(ts: &[Token]) -> Vec<(Pos, Token, Pos)> {
    let mut v = Vec::new();
    let mut p = Pos::bof(Name(0));
    for t in ts {
        let l = p;
        p.advance('x');
        v.push((l, *t, p));
        p.advance(' ');
    }
    v
}

fn parse_all(ts: &[Token]) -> Result<Vec<Stmt>, ()> {
    let v = toks(ts);
    parse(&v, Pos::bof(Name(0)))
}

fn expr_of(ts: &[Token]) -> Expr {
    let mut stmts = parse_all(ts).unwrap();
    assert_eq!(stmts.len(), 1);
    match stmts.remove(0) {
        Stmt::Eval(_, e) => *e,
        other => panic!("not an expression: {:?}", other),
    }
}

const A: Token = Token::Id(Name(1));
const B: Token = Token::Id(Name(2));
const C: Token = Token::Id(Name(3));

fn id(n: usize) -> Box<Expr> {
    Box::new(Expr::Ident(Name(n)))
}

#[test]
fn parse_empty() {
    assert_eq!(parse_all(&[]), Ok(vec![]));
}

#[test]
fn parse_eos() {
    assert_eq!(parse_all(&[Token::Eos]), Ok(vec![]));
}

#[test]
fn parse_stmts() {
    for ts in [
        vec![Token::Int(4)],
        vec![Token::Eos, Token::Int(4)],
        vec![Token::Int(4), Token::Eos],
        vec![Token::Eos, Token::Int(4), Token::Eos],
    ] {
        let s = parse_all(&ts).unwrap();
        assert_eq!(s.len(), 1);
    }
    let s = parse_all(&[Token::Eos, Token::Int(4), Token::Eos, Token::Int(2), Token::Eos]).unwrap();
    assert_eq!(s.len(), 2);
    match &s[1] {
        Stmt::Eval(_, e) => assert_eq!(**e, Expr::Int(2)),
        _ => panic!(),
    }
}

#[test]
fn parse_parens() {
    assert_eq!(expr_of(&[Token::ParenL, Token::Int(4), Token::ParenR]), Expr::Int(4));
}

#[test]
fn precedence() {
    // a + b * c
    assert_eq!(
        expr_of(&[A, Token::Plus, B, Token::Star, C]),
        Expr::Binary(BinaryOp::Add, id(1), Box::new(Expr::Binary(BinaryOp::Multiply, id(2), id(3))))
    );
    // (a + b) * c
    assert_eq!(
        expr_of(&[Token::ParenL, A, Token::Plus, B, Token::ParenR, Token::Star, C]),
        Expr::Binary(BinaryOp::Multiply, Box::new(Expr::Binary(BinaryOp::Add, id(1), id(2))), id(3))
    );
}

#[test]
fn associativity() {
    // a - b - c is (a - b) - c
    assert_eq!(
        expr_of(&[A, Token::Minus, B, Token::Minus, C]),
        Expr::Binary(BinaryOp::Subtract, Box::new(Expr::Binary(BinaryOp::Subtract, id(1), id(2))), id(3))
    );
    // a = b = c is a = (b = c)
    assert_eq!(
        expr_of(&[A, Token::Equal, B, Token::Equal, C]),
        Expr::Binary(BinaryOp::Move, id(1), Box::new(Expr::Binary(BinaryOp::Move, id(2), id(3))))
    );
}

#[test]
fn prefix_and_postfix() {
    // -a * b is (-a) * b
    assert_eq!(
        expr_of(&[Token::Minus, A, Token::Star, B]),
        Expr::Binary(BinaryOp::Multiply, Box::new(Expr::Unary(UnaryOp::Negate, id(1))), id(2))
    );
    // +a is a
    assert_eq!(expr_of(&[Token::Plus, A]), Expr::Ident(Name(1)));
    // a++ ?
    assert_eq!(
        expr_of(&[A, Token::PlusPlus, Token::Question]),
        Expr::Unary(UnaryOp::Test, Box::new(Expr::Unary(UnaryOp::Increment, id(1))))
    );
    // ~!a
    assert_eq!(
        expr_of(&[Token::Tilde, Token::Bang, A]),
        Expr::Unary(UnaryOp::Complement, Box::new(Expr::Unary(UnaryOp::Clear, id(1))))
    );
}

#[test]
fn parse_typedef() {
    let v = toks(&[Token::KwType, A, Token::Equal, B, Token::Eos]);
    let s = parse(&v, Pos::bof(Name(0))).unwrap();
    assert_eq!(s.len(), 1);
    match &s[0] {
        Stmt::TypeDef(pos, name, ty) => {
            assert_eq!(*pos, v[0].0);
            assert_eq!(*name, Name(1));
            assert_eq!(**ty, Type::Ident(Source::File { pos: v[3].0, len: 1 }, Name(2), None));
        }
        _ => panic!(),
    }
}

#[test]
fn parse_errors() {
    assert_eq!(parse_all(&[Token::Int(4), Token::Int(2)]), Err(()));
    assert_eq!(parse_all(&[Token::ParenL, Token::Int(4)]), Err(()));
    assert_eq!(parse_all(&[Token::KwType, A, B]), Err(()));
    assert_eq!(parse_all(&[Token::KwType, A, Token::Equal, B]), Err(()));
    assert_eq!(parse_all(&[A, Token::Plus]), Err(()));
    assert_eq!(parse_all(&[Token::ParenR]), Err(()));
}
