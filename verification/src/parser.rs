//! The parser: statements and expressions from a sequence of tokens, with
//! operator precedence climbing.
//!
//! The tokens come as a slice, each with the positions of its start and
//! end; past the last token the parser sees the end of the file.

use vstd::prelude::*;

use crate::ast::{BinaryOp, Expr, Stmt, UnaryOp};
use crate::mem::Name;
use crate::operator::Assoc;
use crate::pos::{Pos, Source};
use crate::types::Type;

verus! {

/// A token of the language.
#[derive(Clone, Copy, PartialEq, Eq, Structural, Debug)]
pub enum Token {
    /// An identifier.
    Id(Name),
    /// An integer literal.
    Int(u64),
    /// The keyword `type`.
    KwType,
    /// `(`
    ParenL,
    /// `)`
    ParenR,
    /// `++`
    PlusPlus,
    /// `--`
    MinusMinus,
    /// `*`
    Star,
    /// `/`
    Slash,
    /// `%`
    Percent,
    /// `+`
    Plus,
    /// `-`
    Minus,
    /// `<<`
    LessLess,
    /// `>>`
    MoreMore,
    /// `&`
    Ampersand,
    /// `^`
    Caret,
    /// `|`
    Pipe,
    /// `.~`
    DotTilde,
    /// `.!`
    DotBang,
    /// `.=`
    DotEqual,
    /// `.?`
    DotQuestion,
    /// `?`
    Question,
    /// `<>`
    LessMore,
    /// `=`
    Equal,
    /// `!`
    Bang,
    /// `~`
    Tilde,
    /// End of statement.
    Eos,
    /// End of file.
    Eof,
}

/// How an operator after an operand builds its expression.
#[derive(Clone, Copy, PartialEq, Eq, Structural, Debug)]
pub enum Fix {
    /// An infix operator, with the operation it builds.
    Infix(BinaryOp),
    /// A postfix operator, with the operation it builds.
    Postfix(UnaryOp),
}

/// The precedence, associativity and construction of the operator that a
/// token writes after an operand, if any.
pub open spec fn op_info_spec(token: Token) -> Option<(u8, Assoc, Fix)> {
    match token {
        Token::PlusPlus => Some((10, Assoc::Left, Fix::Postfix(UnaryOp::Increment))),
        Token::MinusMinus => Some((10, Assoc::Left, Fix::Postfix(UnaryOp::Decrement))),
        Token::Star => Some((8, Assoc::Left, Fix::Infix(BinaryOp::Multiply))),
        Token::Slash => Some((8, Assoc::Left, Fix::Infix(BinaryOp::Divide))),
        Token::Percent => Some((8, Assoc::Left, Fix::Infix(BinaryOp::Modulo))),
        Token::Plus => Some((7, Assoc::Left, Fix::Infix(BinaryOp::Add))),
        Token::Minus => Some((7, Assoc::Left, Fix::Infix(BinaryOp::Subtract))),
        Token::LessLess => Some((6, Assoc::Left, Fix::Infix(BinaryOp::ShiftL))),
        Token::MoreMore => Some((6, Assoc::Left, Fix::Infix(BinaryOp::ShiftR))),
        Token::Ampersand => Some((5, Assoc::Left, Fix::Infix(BinaryOp::BitAnd))),
        Token::Caret => Some((4, Assoc::Left, Fix::Infix(BinaryOp::BitXor))),
        Token::Pipe => Some((3, Assoc::Left, Fix::Infix(BinaryOp::BitOr))),
        Token::DotTilde => Some((2, Assoc::Left, Fix::Infix(BinaryOp::BitChange))),
        Token::DotBang => Some((2, Assoc::Left, Fix::Infix(BinaryOp::BitClear))),
        Token::DotEqual => Some((2, Assoc::Left, Fix::Infix(BinaryOp::BitSet))),
        Token::DotQuestion => Some((2, Assoc::Left, Fix::Infix(BinaryOp::BitTest))),
        Token::Question => Some((1, Assoc::Left, Fix::Postfix(UnaryOp::Test))),
        Token::LessMore => Some((1, Assoc::Left, Fix::Infix(BinaryOp::Compare))),
        Token::Equal => Some((0, Assoc::Right, Fix::Infix(BinaryOp::Move))),
        _ => None,
    }
}

/// The precedence of the operator that a token writes before an operand,
/// and the operation it builds (`None` for `+`, which builds nothing).
pub open spec fn prefix_op_info_spec(token: Token) -> Option<(u8, Option<UnaryOp>)> {
    match token {
        Token::Bang => Some((9, Some(UnaryOp::Clear))),
        Token::Tilde => Some((9, Some(UnaryOp::Complement))),
        Token::Plus => Some((9, None)),
        Token::Minus => Some((9, Some(UnaryOp::Negate))),
        _ => None,
    }
}

/// The token at index `i`: the end of the file past the last token.
pub open spec fn tok(toks: Seq<(Pos, Token, Pos)>, i: int) -> Token {
    if 0 <= i < toks.len() {
        toks[i].1
    } else {
        Token::Eof
    }
}

/// What remains to parse from index `i` on.
pub open spec fn rest(toks: Seq<(Pos, Token, Pos)>, i: int) -> nat {
    if i <= toks.len() {
        (toks.len() - i) as nat
    } else {
        0
    }
}

/// `expr` under a prefix operator.
pub open spec fn apply_prefix(ctor: Option<UnaryOp>, expr: Expr) -> Expr {
    match ctor {
        Some(op) => Expr::Unary(op, Box::new(expr)),
        None => expr,
    }
}

/// The primary expression at index `i` and the index after it: a prefix
/// operator and the expression of at least its precedence after it, an
/// identifier, an integer, or an expression in parentheses.
pub open spec fn primary_spec(toks: Seq<(Pos, Token, Pos)>, i: int) -> Option<(Expr, int)>
    decreases rest(toks, i), 1nat,
{
    match prefix_op_info_spec(tok(toks, i)) {
        Some((prec, ctor)) => match prec_spec(toks, i + 1, prec) {
            Some((e, j)) => Some((apply_prefix(ctor, e), j)),
            None => None,
        },
        None => match tok(toks, i) {
            Token::Id(x) => Some((Expr::Ident(x), i + 1)),
            Token::Int(x) => Some((Expr::Int(x as i128), i + 1)),
            Token::ParenL => match prec_spec(toks, i + 1, 0) {
                Some((e, j)) => if tok(toks, j) == Token::ParenR {
                    Some((e, j + 1))
                } else {
                    None
                },
                None => None,
            },
            _ => None,
        },
    }
}

/// The expression at index `i` whose operators have at least precedence
/// `min_prec`, and the index after it.
pub open spec fn prec_spec(toks: Seq<(Pos, Token, Pos)>, i: int, min_prec: u8) -> Option<(Expr, int)>
    decreases rest(toks, i), 2nat,
{
    match primary_spec(toks, i) {
        Some((e, j)) => if i < j <= toks.len() {
            climb_spec(toks, j, e, min_prec)
        } else {
            None
        },
        None => None,
    }
}

/// The expression made of `lhs` and the operators of at least precedence
/// `min_prec` from index `j` on, with their right operands, and the index
/// after it: a left-associative infix operator takes a right operand of
/// higher precedence, a right-associative one of the same.
pub open spec fn climb_spec(toks: Seq<(Pos, Token, Pos)>, j: int, lhs: Expr, min_prec: u8) -> Option<
    (Expr, int),
>
    decreases rest(toks, j), 3nat,
{
    match op_info_spec(tok(toks, j)) {
        None => Some((lhs, j)),
        Some((prec, assoc, fix)) => {
            if prec < min_prec {
                Some((lhs, j))
            } else {
                match fix {
                    Fix::Infix(op) => {
                        let next = if assoc == Assoc::Left {
                            (prec + 1) as u8
                        } else {
                            prec
                        };
                        match prec_spec(toks, j + 1, next) {
                            Some((rhs, k)) => if j < k <= toks.len() {
                                climb_spec(
                                    toks,
                                    k,
                                    Expr::Binary(op, Box::new(lhs), Box::new(rhs)),
                                    min_prec,
                                )
                            } else {
                                None
                            },
                            None => None,
                        }
                    },
                    Fix::Postfix(op) => climb_spec(
                        toks,
                        j + 1,
                        Expr::Unary(op, Box::new(lhs)),
                        min_prec,
                    ),
                }
            }
        },
    }
}

/// Where a statement at index `i` starts.
pub open spec fn start_of(toks: Seq<(Pos, Token, Pos)>, i: int) -> Pos {
    toks[i].0
}

/// The source of the token at index `i`: its start and length in bytes.
pub open spec fn source_of(toks: Seq<(Pos, Token, Pos)>, i: int) -> Source {
    Source::File {
        pos: toks[i].0,
        len: if toks[i].2.byte >= toks[i].0.byte {
            (toks[i].2.byte - toks[i].0.byte) as usize
        } else {
            0
        },
    }
}

/// The type definition at index `i` and the index of the end of statement
/// after it: `type`, the name, `=`, the name of the defining type.
pub open spec fn typedef_spec(toks: Seq<(Pos, Token, Pos)>, i: int) -> Option<(Stmt, int)> {
    if tok(toks, i) == Token::KwType && tok(toks, i + 1) is Id && tok(toks, i + 2) == Token::Equal
        && tok(toks, i + 3) is Id && tok(toks, i + 4) == Token::Eos {
        Some(
            (
                Stmt::TypeDef(
                    start_of(toks, i),
                    tok(toks, i + 1)->Id_0,
                    Box::new(Type::Ident(source_of(toks, i + 3), tok(toks, i + 3)->Id_0, None)),
                ),
                i + 4,
            ),
        )
    } else {
        None
    }
}

/// The statement at index `i` and the index after it: a type definition,
/// or an expression.
pub open spec fn stmt_spec(toks: Seq<(Pos, Token, Pos)>, i: int) -> Option<(Stmt, int)> {
    if tok(toks, i) == Token::KwType {
        typedef_spec(toks, i)
    } else {
        match prec_spec(toks, i, 0) {
            Some((e, j)) => Some((Stmt::Eval(start_of(toks, i), Box::new(e)), j)),
            None => None,
        }
    }
}

/// The statements from index `i` on, after `acc`, up to the token `end`:
/// statements separated by ends of statement.
pub open spec fn stmts_from(toks: Seq<(Pos, Token, Pos)>, i: int, end: Token, acc: Seq<Stmt>) -> Option<
    Seq<Stmt>,
>
    decreases rest(toks, i),
{
    if tok(toks, i) == end {
        Some(acc)
    } else {
        match stmt_spec(toks, i) {
            Some((s, j)) => {
                if tok(toks, j) == end {
                    Some(acc.push(s))
                } else if tok(toks, j) == Token::Eos && i <= j < toks.len() {
                    stmts_from(toks, j + 1, end, acc.push(s))
                } else {
                    None
                }
            },
            None => None,
        }
    }
}

/// The statements of the tokens from index `i` up to `end`: an end of
/// statement may come first.
pub open spec fn stmts_until_spec(toks: Seq<(Pos, Token, Pos)>, i: int, end: Token) -> Option<Seq<Stmt>> {
    if tok(toks, i) == Token::Eos {
        stmts_from(toks, i + 1, end, Seq::empty())
    } else {
        stmts_from(toks, i, end, Seq::empty())
    }
}

/// Parses a whole program: its statements up to the end of the file.
pub fn parse(tokens: &[(Pos, Token, Pos)], end: Pos) -> (r: Result<Vec<Stmt>, ()>)
    ensures
        match stmts_until_spec(tokens@, 0, Token::Eof) {
            Some(stmts) => r matches Ok(v) && v@ == stmts,
            None => r is Err,
        },
{
    let mut parser = Parser::new(tokens, end);
    parser.parse_stmts_until(Token::Eof)
}

/// A parser over a slice of tokens.
pub struct Parser<'p> {
    tokens: &'p [(Pos, Token, Pos)],
    next: usize,
    token: Token,
    span: (Pos, Pos),
    end: Pos,
}

impl<'p> Parser<'p> {
    /// The tokens.
    pub closed spec fn toks(&self) -> Seq<(Pos, Token, Pos)> {
        self.tokens@
    }

    /// The index of the current token.
    pub closed spec fn at(&self) -> int {
        self.next as int
    }

    /// The parser is at a token or at the end of the file, and knows its
    /// current token and where it starts.
    pub closed spec fn wf(&self) -> bool {
        &&& self.next <= self.tokens@.len()
        &&& self.token == tok(self.tokens@, self.next as int)
        &&& self.next < self.tokens@.len() ==> self.span.0 == self.tokens@[self.next as int].0
            && self.span.1 == self.tokens@[self.next as int].2
    }

    /// A parser at the first token.
    pub fn new(tokens: &'p [(Pos, Token, Pos)], end: Pos) -> (r: Self)
        ensures
            r.wf(),
            r.toks() == tokens@,
            r.at() == 0,
    {
        let mut p = Parser { tokens, next: 0, token: Token::Eof, span: (end, end), end };
        p.load();
        p
    }

    fn load(&mut self)
        requires
            old(self).next <= old(self).tokens@.len(),
        ensures
            final(self).wf(),
            final(self).toks() == old(self).toks(),
            final(self).at() == old(self).at(),
    {
        if self.next < self.tokens.len() {
            let (l, t, r) = self.tokens[self.next];
            self.token = t;
            self.span = (l, r);
        } else {
            self.token = Token::Eof;
            self.span = (self.end, self.end);
        }
    }

    /// Moves to the next token.
    fn advance(&mut self)
        requires
            old(self).wf(),
            old(self).at() < old(self).toks().len(),
        ensures
            final(self).wf(),
            final(self).toks() == old(self).toks(),
            final(self).at() == old(self).at() + 1,
    {
        if self.next < self.tokens.len() {
            self.next = self.next + 1;
        }
        self.load();
    }

    /// Parses statements up to the token `end`, which it does not consume.
    pub fn parse_stmts_until(&mut self, end: Token) -> (r: Result<Vec<Stmt>, ()>)
        requires
            old(self).wf(),
        ensures
            final(self).wf(),
            final(self).toks() == old(self).toks(),
            match stmts_until_spec(old(self).toks(), old(self).at(), end) {
                Some(stmts) => r matches Ok(v) && v@ == stmts,
                None => r is Err,
            },
    {
        let ghost toks = self.toks();
        let ghost i0 = self.at();
        let mut stmts: Vec<Stmt> = Vec::new();
        // EOS?
        if self.token == Token::Eos {
            self.advance();
        }
        assert(stmts_until_spec(toks, i0, end) == stmts_from(toks, self.at(), end, stmts@));
        // ( stmt EOS )* stmt? end
        loop
            invariant
                self.wf(),
                self.toks() == toks,
                toks == old(self).toks(),
                i0 == old(self).at(),
                stmts_until_spec(toks, i0, end) == stmts_from(toks, self.at(), end, stmts@),
            decreases rest(toks, self.at()),
        {
            let ghost i = self.at();
            let ghost before = stmts@;
            // end?
            if self.token == end {
                return Ok(stmts);
            }
            // stmt
            let stmt = match self.parse_stmt() {
                Ok(stmt) => stmt,
                Err(()) => return Err(()),
            };
            stmts.push(stmt);
            // end?
            if self.token == end {
                return Ok(stmts);
            }
            // EOS => loop
            if self.token == Token::Eos {
                self.advance();
            } else {
                return Err(());
            }
            assert(stmts_from(toks, i, end, before) == stmts_from(toks, self.at(), end, stmts@));
        }
    }

    /// Parses a statement: a type definition or an expression.
    fn parse_stmt(&mut self) -> (r: Result<Stmt, ()>)
        requires
            old(self).wf(),
        ensures
            final(self).wf(),
            final(self).toks() == old(self).toks(),
            match stmt_spec(old(self).toks(), old(self).at()) {
                Some((s, j)) => r == Ok::<Stmt, ()>(s) && final(self).at() == j && old(self).at() <= j,
                None => r is Err,
            },
    {
        let pos = self.span.0;
        match self.token {
            Token::KwType => self.parse_typedef(),
            _ => match self.parse_expr() {
                Ok(expr) => Ok(Stmt::Eval(pos, Box::new(expr))),
                Err(()) => Err(()),
            },
        }
    }

    /// Parses a type definition: `type`, a name, `=`, the name of the
    /// defining type, before an end of statement.
    fn parse_typedef(&mut self) -> (r: Result<Stmt, ()>)
        requires
            old(self).wf(),
        ensures
            final(self).wf(),
            final(self).toks() == old(self).toks(),
            match typedef_spec(old(self).toks(), old(self).at()) {
                Some((s, j)) => r == Ok::<Stmt, ()>(s) && final(self).at() == j,
                None => r is Err,
            },
    {
        let ghost toks = self.toks();
        let ghost i = self.at();
        let pos = self.span.0;
        match self.token {
            Token::KwType => self.advance(),
            _ => return Err(()),
        }
        let name = match self.token {
            Token::Id(n) => {
                self.advance();
                n
            },
            _ => return Err(()),
        };
        match self.token {
            Token::Equal => self.advance(),
            _ => return Err(()),
        }
        let (def, source) = match self.token {
            Token::Id(n) => {
                let (l, r) = self.span;
                let len: usize = if r.byte >= l.byte {
                    r.byte - l.byte
                } else {
                    0
                };
                self.advance();
                (n, Source::File { pos: l, len })
            },
            _ => return Err(()),
        };
        match self.token {
            Token::Eos => {},
            _ => return Err(()),
        }
        assert(source == source_of(toks, i + 3));
        Ok(Stmt::TypeDef(pos, name, Box::new(Type::Ident(source, def, None))))
    }

    /// Parses an expression.
    fn parse_expr(&mut self) -> (r: Result<Expr, ()>)
        requires
            old(self).wf(),
        ensures
            final(self).wf(),
            final(self).toks() == old(self).toks(),
            match prec_spec(old(self).toks(), old(self).at(), 0) {
                Some((e, j)) => r == Ok::<Expr, ()>(e) && final(self).at() == j && old(self).at()
                    < j,
                None => r is Err,
            },
        decreases rest(old(self).toks(), old(self).at()), 3nat,
    {
        self.parse_expr_prec(0)
    }

    /// Parses an expression whose operators have at least precedence
    /// `min_prec`, by precedence climbing.
    fn parse_expr_prec(&mut self, min_prec: u8) -> (r: Result<Expr, ()>)
        requires
            old(self).wf(),
        ensures
            final(self).wf(),
            final(self).toks() == old(self).toks(),
            match prec_spec(old(self).toks(), old(self).at(), min_prec) {
                Some((e, j)) => r == Ok::<Expr, ()>(e) && final(self).at() == j && old(self).at()
                    < j,
                None => r is Err,
            },
        decreases rest(old(self).toks(), old(self).at()), 2nat,
    {
        let ghost toks = self.toks();
        let ghost i = self.at();
        // Parse initial left operand
        let mut expr = match self.parse_expr_primary() {
            Ok(expr) => expr,
            Err(()) => return Err(()),
        };
        assert(prec_spec(toks, i, min_prec) == climb_spec(toks, self.at(), expr, min_prec));
        // Parse operators and right operands
        loop
            invariant
                self.wf(),
                self.toks() == toks,
                toks == old(self).toks(),
                i == old(self).at(),
                i < self.at() <= toks.len(),
                prec_spec(toks, i, min_prec) == climb_spec(toks, self.at(), expr, min_prec),
            ensures
                self.wf(),
                self.toks() == toks,
                i < self.at(),
                prec_spec(toks, i, min_prec) == Some((expr, self.at())),
            decreases rest(toks, self.at()),
        {
            let ghost j = self.at();
            let ghost e0 = expr;
            // Is token a binary operator?
            let (prec, assoc, fix) = match Self::op_info(self.token) {
                Some(info) => info,
                None => break,
            };
            // Is operator's precedence at least minimum?
            if prec < min_prec {
                break;
            }
            // Consume operator
            self.advance();
            // Construct expression
            match fix {
                Fix::Infix(op) => {
                    // Parse right operand
                    let next: u8 = match assoc {
                        Assoc::Left => prec + 1,
                        Assoc::Right => prec,
                    };
                    let rhs = match self.parse_expr_prec(next) {
                        Ok(rhs) => rhs,
                        Err(()) => return Err(()),
                    };
                    // Append to expression
                    expr = Expr::Binary(op, Box::new(expr), Box::new(rhs));
                },
                Fix::Postfix(op) => {
                    // Append to expression
                    expr = Expr::Unary(op, Box::new(expr));
                },
            }
            assert(prec_spec(toks, i, min_prec) == climb_spec(toks, self.at(), expr, min_prec));
        }
        Ok(expr)
    }

    /// Parses a primary expression: a prefix operator and its operand, an
    /// identifier, an integer, or an expression in parentheses.
    fn parse_expr_primary(&mut self) -> (r: Result<Expr, ()>)
        requires
            old(self).wf(),
        ensures
            final(self).wf(),
            final(self).toks() == old(self).toks(),
            match primary_spec(old(self).toks(), old(self).at()) {
                Some((e, j)) => r == Ok::<Expr, ()>(e) && final(self).at() == j && old(self).at()
                    < j,
                None => r is Err,
            },
        decreases rest(old(self).toks(), old(self).at()), 1nat,
    {
        let ghost toks = self.toks();
        let ghost i = self.at();
        // Unary operator
        match Self::prefix_op_info(self.token) {
            Some((prec, ctor)) => {
                self.advance();
                let expr = match self.parse_expr_prec(prec) {
                    Ok(expr) => expr,
                    Err(()) => return Err(()),
                };
                return Ok(
                    match ctor {
                        Some(op) => Expr::Unary(op, Box::new(expr)),
                        None => expr,
                    },
                );
            },
            None => {},
        }
        // Atom
        match self.token {
            // ID
            Token::Id(x) => {
                self.advance();
                Ok(Expr::Ident(x))
            },
            // INT
            Token::Int(x) => {
                self.advance();
                Ok(Expr::Int(x as i128))
            },
            // '(' expr ')'
            Token::ParenL => {
                self.advance();
                let expr = match self.parse_expr() {
                    Ok(expr) => expr,
                    Err(()) => return Err(()),
                };
                match self.token {
                    Token::ParenR => self.advance(),
                    _ => return Err(()),
                }
                Ok(expr)
            },
            _ => Err(()),
        }
    }

    /// The operator that `token` writes after an operand, if any.
    fn op_info(token: Token) -> (r: Option<(u8, Assoc, Fix)>)
        ensures
            r == op_info_spec(token),
    {
        match token {
            Token::PlusPlus => Some((10, Assoc::Left, Fix::Postfix(UnaryOp::Increment))),
            Token::MinusMinus => Some((10, Assoc::Left, Fix::Postfix(UnaryOp::Decrement))),
            // (prefix operators not shown)
            Token::Star => Some((8, Assoc::Left, Fix::Infix(BinaryOp::Multiply))),
            Token::Slash => Some((8, Assoc::Left, Fix::Infix(BinaryOp::Divide))),
            Token::Percent => Some((8, Assoc::Left, Fix::Infix(BinaryOp::Modulo))),
            Token::Plus => Some((7, Assoc::Left, Fix::Infix(BinaryOp::Add))),
            Token::Minus => Some((7, Assoc::Left, Fix::Infix(BinaryOp::Subtract))),
            Token::LessLess => Some((6, Assoc::Left, Fix::Infix(BinaryOp::ShiftL))),
            Token::MoreMore => Some((6, Assoc::Left, Fix::Infix(BinaryOp::ShiftR))),
            Token::Ampersand => Some((5, Assoc::Left, Fix::Infix(BinaryOp::BitAnd))),
            Token::Caret => Some((4, Assoc::Left, Fix::Infix(BinaryOp::BitXor))),
            Token::Pipe => Some((3, Assoc::Left, Fix::Infix(BinaryOp::BitOr))),
            Token::DotTilde => Some((2, Assoc::Left, Fix::Infix(BinaryOp::BitChange))),
            Token::DotBang => Some((2, Assoc::Left, Fix::Infix(BinaryOp::BitClear))),
            Token::DotEqual => Some((2, Assoc::Left, Fix::Infix(BinaryOp::BitSet))),
            Token::DotQuestion => Some((2, Assoc::Left, Fix::Infix(BinaryOp::BitTest))),
            Token::Question => Some((1, Assoc::Left, Fix::Postfix(UnaryOp::Test))),
            Token::LessMore => Some((1, Assoc::Left, Fix::Infix(BinaryOp::Compare))),
            Token::Equal => Some((0, Assoc::Right, Fix::Infix(BinaryOp::Move))),
            _ => None,
        }
    }

    /// The operator that `token` writes before an operand, if any.
    fn prefix_op_info(token: Token) -> (r: Option<(u8, Option<UnaryOp>)>)
        ensures
            r == prefix_op_info_spec(token),
    {
        match token {
            Token::Bang => Some((9, Some(UnaryOp::Clear))),
            Token::Tilde => Some((9, Some(UnaryOp::Complement))),
            Token::Plus => Some((9, None)),
            Token::Minus => Some((9, Some(UnaryOp::Negate))),
            _ => None,
        }
    }
}

// -----------------------------------------------------------------------------
// Laws of operator precedence

/// The precedence of the operator a token writes after an operand.
pub open spec fn infix_prec(t: Token) -> int {
    match op_info_spec(t) {
        Some((p, _, _)) => p as int,
        None => -1,
    }
}

/// The infix operators bind in this order, tightest first: `* / %`, then
/// `+ -`, then `<< >>`, then `&`, then `^`, then `|`, then `.~ .! .= .?`,
/// then `<>`, then `=`; postfix `++ --` bind tighter than all of them and
/// `?` as loosely as `<>`.  All group to the left but `=`, which groups to
/// the right.
pub proof fn law_precedence_order()
    ensures
        infix_prec(Token::PlusPlus) == infix_prec(Token::MinusMinus),
        infix_prec(Token::MinusMinus) > infix_prec(Token::Star),
        infix_prec(Token::Star) == infix_prec(Token::Slash),
        infix_prec(Token::Slash) == infix_prec(Token::Percent),
        infix_prec(Token::Percent) > infix_prec(Token::Plus),
        infix_prec(Token::Plus) == infix_prec(Token::Minus),
        infix_prec(Token::Minus) > infix_prec(Token::LessLess),
        infix_prec(Token::LessLess) == infix_prec(Token::MoreMore),
        infix_prec(Token::MoreMore) > infix_prec(Token::Ampersand),
        infix_prec(Token::Ampersand) > infix_prec(Token::Caret),
        infix_prec(Token::Caret) > infix_prec(Token::Pipe),
        infix_prec(Token::Pipe) > infix_prec(Token::DotTilde),
        infix_prec(Token::DotTilde) == infix_prec(Token::DotBang),
        infix_prec(Token::DotBang) == infix_prec(Token::DotEqual),
        infix_prec(Token::DotEqual) == infix_prec(Token::DotQuestion),
        infix_prec(Token::DotQuestion) > infix_prec(Token::LessMore),
        infix_prec(Token::LessMore) == infix_prec(Token::Question),
        infix_prec(Token::LessMore) > infix_prec(Token::Equal),
        infix_prec(Token::Equal) >= 0,
        forall|t: Token|
            #[trigger] op_info_spec(t) matches Some((_, assoc, _)) ==> (assoc == Assoc::Right
                <==> t == Token::Equal),
{
}

/// Of two left-grouping infix operators in `a op1 b op2 c`, the one of
/// higher precedence takes its operands first: `a op1 (b op2 c)` when `op2`
/// binds tighter, else `(a op1 b) op2 c`.
pub proof fn law_infix_grouping(toks: Seq<(Pos, Token, Pos)>, a: Name, b: Name, c: Name)
    requires
        toks.len() == 5,
        tok(toks, 0) == Token::Id(a),
        tok(toks, 2) == Token::Id(b),
        tok(toks, 4) == Token::Id(c),
        op_info_spec(tok(toks, 1)) matches Some((p1, Assoc::Left, Fix::Infix(_))) && p1 < 255,
        op_info_spec(tok(toks, 3)) matches Some((p2, Assoc::Left, Fix::Infix(_))) && p2 < 255,
    ensures
        ({
            let (p1, o1) = (infix_prec(tok(toks, 1)), op_info_spec(tok(toks, 1)).unwrap().2->Infix_0);
            let (p2, o2) = (infix_prec(tok(toks, 3)), op_info_spec(tok(toks, 3)).unwrap().2->Infix_0);
            let (ea, eb, ec) = (Expr::Ident(a), Expr::Ident(b), Expr::Ident(c));
            prec_spec(toks, 0, 0) == Some(
                (
                    if p1 < p2 {
                        Expr::Binary(o1, Box::new(ea), Box::new(Expr::Binary(o2, Box::new(eb), Box::new(ec))))
                    } else {
                        Expr::Binary(o2, Box::new(Expr::Binary(o1, Box::new(ea), Box::new(eb))), Box::new(ec))
                    },
                    5int,
                ),
            )
        }),
{
    let (p1, _, f1) = op_info_spec(tok(toks, 1)).unwrap();
    let (p2, _, f2) = op_info_spec(tok(toks, 3)).unwrap();
    let o1 = f1->Infix_0;
    let o2 = f2->Infix_0;
    let ea = Expr::Ident(a);
    let eb = Expr::Ident(b);
    let ec = Expr::Ident(c);
    assert(tok(toks, 5) == Token::Eof);
    assert(primary_spec(toks, 0) == Some((ea, 1int)));
    assert(primary_spec(toks, 2) == Some((eb, 3int)));
    assert(primary_spec(toks, 4) == Some((ec, 5int)));
    assert(climb_spec(toks, 5, ec, (p2 + 1) as u8) == Some((ec, 5int)));
    assert(prec_spec(toks, 4, (p2 + 1) as u8) == Some((ec, 5int)));
    if p1 < p2 {
        let bc = Expr::Binary(o2, Box::new(eb), Box::new(ec));
        assert(climb_spec(toks, 5, bc, (p1 + 1) as u8) == Some((bc, 5int)));
        assert(climb_spec(toks, 3, eb, (p1 + 1) as u8) == Some((bc, 5int)));
        assert(prec_spec(toks, 2, (p1 + 1) as u8) == Some((bc, 5int)));
        let abc = Expr::Binary(o1, Box::new(ea), Box::new(bc));
        assert(climb_spec(toks, 5, abc, 0) == Some((abc, 5int)));
        assert(climb_spec(toks, 1, ea, 0) == Some((abc, 5int)));
    } else {
        assert(climb_spec(toks, 3, eb, (p1 + 1) as u8) == Some((eb, 3int)));
        assert(prec_spec(toks, 2, (p1 + 1) as u8) == Some((eb, 3int)));
        let ab = Expr::Binary(o1, Box::new(ea), Box::new(eb));
        let abc = Expr::Binary(o2, Box::new(ab), Box::new(ec));
        assert(climb_spec(toks, 5, abc, 0) == Some((abc, 5int)));
        assert(climb_spec(toks, 3, ab, 0) == Some((abc, 5int)));
        assert(climb_spec(toks, 1, ea, 0) == Some((abc, 5int)));
    }
}

/// `a | b & c` is `a | (b & c)`, and `a & b | c` is `(a & b) | c`, for any
/// names: `&` binds tighter than `|`.
pub proof fn law_and_binds_tighter_than_or(toks: Seq<(Pos, Token, Pos)>, a: Name, b: Name, c: Name)
    requires
        toks.len() == 5,
        tok(toks, 0) == Token::Id(a),
        tok(toks, 2) == Token::Id(b),
        tok(toks, 4) == Token::Id(c),
        (tok(toks, 1) == Token::Pipe && tok(toks, 3) == Token::Ampersand) || (tok(toks, 1)
            == Token::Ampersand && tok(toks, 3) == Token::Pipe),
    ensures
        tok(toks, 1) == Token::Pipe ==> prec_spec(toks, 0, 0) == Some(
            (
                Expr::Binary(
                    BinaryOp::BitOr,
                    Box::new(Expr::Ident(a)),
                    Box::new(Expr::Binary(BinaryOp::BitAnd, Box::new(Expr::Ident(b)), Box::new(Expr::Ident(c)))),
                ),
                5int,
            ),
        ),
        tok(toks, 1) == Token::Ampersand ==> prec_spec(toks, 0, 0) == Some(
            (
                Expr::Binary(
                    BinaryOp::BitOr,
                    Box::new(Expr::Binary(BinaryOp::BitAnd, Box::new(Expr::Ident(a)), Box::new(Expr::Ident(b)))),
                    Box::new(Expr::Ident(c)),
                ),
                5int,
            ),
        ),
{
    law_precedence_order();
    law_infix_grouping(toks, a, b, c);
}

} // verus!
