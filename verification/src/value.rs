//! Values of evaluated expressions: types, assembler constants and target
//! locations, with their types; and the checks that operations make on
//! them.

use vstd::prelude::*;

use crate::ast::{BinaryOp, Expr};
use crate::codegen::ResolvedType;
use crate::pos::Source;
use crate::targets::mcf5307::Loc;
use crate::util::bob::Bob;

verus! {

/// A value: a type, a constant for the assembler, or a location of the
/// target.
pub enum Value<'a> {
    /// A type; the type itself is that of the containing operand.
    Type,
    /// An assembler constant.
    Const(Bob<'a, Expr>),
    /// A ColdFire location.
    Cf(Bob<'a, Loc>),
}

impl<'a> Value<'a> {
    /// Whether the value is a type.
    pub fn is_type(&self) -> (r: bool)
        ensures
            r == self is Type,
    {
        match self {
            Value::Type => true,
            _ => false,
        }
    }

    /// Whether the value is a constant.
    pub fn is_const(&self) -> (r: bool)
        ensures
            r == self is Const,
    {
        match self {
            Value::Const(_) => true,
            _ => false,
        }
    }

    /// Returns the constant's expression.
    pub fn as_const(&self) -> (r: &Expr)
        requires
            self is Const,
        ensures
            *r == self->Const_0.value(),
    {
        match self {
            Value::Const(e) => e.get(),
            _ => vstd::pervasive::unreached(),
        }
    }

    /// Returns the constant's expression, boxed: the box it is in if it is
    /// owned, else a copy.
    pub fn to_const(self) -> (r: Box<Expr>)
        requires
            self is Const,
        ensures
            *r == self->Const_0.value(),
    {
        match self {
            Value::Const(Bob::Owned(e)) => e,
            Value::Const(Bob::Borrowed(e)) => Box::new(e.copy()),
            _ => vstd::pervasive::unreached(),
        }
    }
}

/// A typed value, the result of evaluating an expression.
pub struct Operand<'a> {
    /// The value.
    pub value: Value<'a>,
    /// Its type.
    pub ty: ResolvedType<'a>,
    /// Whether the value was obtained by reducing an expression.
    pub reduced: bool,
}

impl<'a> Operand<'a> {
    /// Whether the value is a constant.
    pub fn is_const(&self) -> (r: bool)
        ensures
            r == self.value is Const,
    {
        self.value.is_const()
    }

    /// Whether the value is a type.
    pub fn is_type(&self) -> (r: bool)
        ensures
            r == self.value is Type,
    {
        self.value.is_type()
    }

    /// Returns the constant's expression.
    pub fn as_const(&self) -> (r: &Expr)
        requires
            self.value is Const,
        ensures
            *r == self.value->Const_0.value(),
    {
        self.value.as_const()
    }

    /// Returns the constant's expression, boxed (see `Value::to_const`).
    pub fn to_const(self) -> (r: Box<Expr>)
        requires
            self.value is Const,
        ensures
            *r == self.value->Const_0.value(),
    {
        self.value.to_const()
    }

    /// Where the value came from; not yet tracked.
    pub fn source(&self) -> (r: Source)
        ensures
            r == Source::BuiltIn,
    {
        Source::BuiltIn
    }
}

/// A complaint about an operand.
#[derive(Clone, Copy, PartialEq, Eq, Structural, Debug)]
pub enum Message {
    /// A constant was required.
    NotConst,
    /// A type was required.
    NotType,
}

/// Checks that the operand of a unary operation on constants is a
/// constant, and logs a complaint if not.
pub fn ck_const_unary(x: &Operand, log: &mut Vec<(Message, Source)>) -> (r: bool)
    ensures
        r == x.value is Const,
        final(log)@ == (if r {
            old(log)@
        } else {
            old(log)@.push((Message::NotConst, Source::BuiltIn))
        }),
{
    if !x.is_const() {
        log.push((Message::NotConst, x.source()));
        return false;
    }
    true
}

/// Checks that both operands of a binary operation on constants are
/// constants, and logs a complaint about the first that is not.
pub fn ck_const_binary(l: &Operand, r: &Operand, log: &mut Vec<(Message, Source)>) -> (ok: bool)
    ensures
        ok == (l.value is Const && r.value is Const),
        final(log)@ == (if ok {
            old(log)@
        } else {
            old(log)@.push((Message::NotConst, Source::BuiltIn))
        }),
{
    if !l.is_const() {
        log.push((Message::NotConst, l.source()));
        return false;
    }
    if !r.is_const() {
        log.push((Message::NotConst, r.source()));
        return false;
    }
    true
}

/// Checks that a cast has a constant to cast and a type to cast to, and
/// logs a complaint about the first that is wrong.
pub fn ck_const_cast(l: &Operand, r: &Operand, log: &mut Vec<(Message, Source)>) -> (ok: bool)
    ensures
        ok == (l.value is Const && r.value is Type),
        final(log)@ == (if !(l.value is Const) {
            old(log)@.push((Message::NotConst, Source::BuiltIn))
        } else if !(r.value is Type) {
            old(log)@.push((Message::NotType, Source::BuiltIn))
        } else {
            old(log)@
        }),
{
    if !l.is_const() {
        log.push((Message::NotConst, l.source()));
        return false;
    }
    if !r.is_type() {
        log.push((Message::NotType, r.source()));
        return false;
    }
    true
}

/// The sum of two expressions.
pub fn expr_add(lhs: Box<Expr>, rhs: Box<Expr>) -> (r: Expr)
    ensures
        r == Expr::Binary(BinaryOp::Add, lhs, rhs),
{
    Expr::Binary(BinaryOp::Add, lhs, rhs)
}

} // verus!
