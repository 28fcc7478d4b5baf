use aex::assembly::{
    fmt_imm_att, fmt_imm_dollar, fmt_int_c, fmt_int_intel, fmt_int_moto, fmt_raw, fmt_reg_att,
    gas_flavor, vasm_mot_flavor,
};
use aex::ast::{BinaryOp, Expr};
use aex::mem::Interner;
use aex::codegen::ResolvedType;
use aex::operator::{stub_eval, BinaryDispatch, BinaryImpl, Const, Context, Operand, TargetBinaryOp};
use aex::pos::Source;
use aex::types::form::TypeForm;
use aex::types::Type;
use aex::util::bob::Bob;
use aex::value::{ck_const_binary, ck_const_cast, ck_const_unary, expr_add, Message, Operand as ValueOperand, Value};

#[test]
fn flavors_write_integers() {
    let mut s = String::new();
    fmt_int_c(&mut s, 255);
    s.push(' ');
    fmt_int_intel(&mut s, 255);
    s.push(' ');
    fmt_int_moto(&mut s, 255);
    s.push(' ');
    fmt_int_c(&mut s, -16);
    s.push(' ');
    fmt_reg_att(&mut s, "d0");
    s.push(' ');
    fmt_raw(&mut s, "raw");
    assert_eq!(s, "0xFF 0FFh $FF 0x-10 %d0 raw");
}

#[test]
fn flavors_write_immediates() {
    let names = Interner::new();
    let e = Expr::Binary(BinaryOp::Add, Box::new(Expr::Int(1)), Box::new(Expr::Int(26)));
    let mut s = String::new();
    assert!(fmt_imm_att(&e, &mut s, &gas_flavor(), &names).is_ok());
    assert_eq!(s, "#(0x1 + 0x1A)");
    let mut s = String::new();
    assert!(fmt_imm_dollar(&Expr::Int(26), &mut s, &vasm_mot_flavor(), &names).is_ok());
    assert_eq!(s, "$$1A");
    let mut s = String::new();
    assert!(fmt_imm_att(&Expr::Str("x".to_string()), &mut s, &gas_flavor(), &names).is_err());
    assert_eq!(s, "");
}

#[test]
fn const_checks() {
    let t = Type::Int(Source::BuiltIn, None);
    let ty = ResolvedType { ty: &t, form: TypeForm::Inty(None) };
    let e = Expr::Int(3);
    let c = ValueOperand { value: Value::Const(Bob::Borrowed(&e)), ty, reduced: false };
    let k = ValueOperand { value: Value::Type, ty, reduced: false };
    let mut log = Vec::new();
    assert!(c.is_const() && !c.is_type());
    assert_eq!(*c.as_const(), Expr::Int(3));
    assert!(ck_const_unary(&c, &mut log));
    assert!(!ck_const_unary(&k, &mut log));
    assert!(ck_const_binary(&c, &c, &mut log));
    assert!(!ck_const_binary(&c, &k, &mut log));
    assert!(ck_const_cast(&c, &k, &mut log));
    assert!(!ck_const_cast(&c, &c, &mut log));
    assert_eq!(log.len(), 3);
    assert_eq!(log[0].0, Message::NotConst);
    assert_eq!(log[2].0, Message::NotType);
    assert_eq!(
        expr_add(Box::new(Expr::Int(1)), Box::new(Expr::Int(2))),
        Expr::Binary(BinaryOp::Add, Box::new(Expr::Int(1)), Box::new(Expr::Int(2)))
    );
}

#[derive(Clone, Copy)]
struct V(bool);

impl Const for V {
    type Expr = u8;
    fn constant(&self) -> bool {
        self.0
    }
    fn new_const(_e: u8) -> Self {
        V(true)
    }
    fn is_const(&self) -> bool {
        self.0
    }
    fn unwrap_const(self) -> u8 {
        0
    }
}

/// An implementation that marks its result with whether its tag is odd.
struct Tagged(u8);

impl BinaryImpl<V> for Tagged {
    fn accepts<'a>(&self, _operands: [Operand<'a, V>; 2]) -> bool {
        true
    }
    fn gives<'a>(&self, _operands: [Operand<'a, V>; 2], _r: Result<Operand<'a, V>, ()>) -> bool {
        true
    }
    fn apply<'a>(&self, operands: [Operand<'a, V>; 2], _context: Context) -> Result<Operand<'a, V>, ()> {
        Ok(Operand { value: V(self.0 % 2 == 1), ..operands[0] })
    }
}

#[test]
fn dispatch_selects() {
    let mut d: BinaryDispatch<Tagged> = BinaryDispatch::new();
    d.const_op = Some(Tagged(1));
    d.implicit_op = Some(Tagged(2));
    d.explicit_ops.push(("a", Tagged(3)));
    d.explicit_ops.push(("q", Tagged(4)));
    let t = Type::Int(Source::BuiltIn, None);
    let c = [Operand { value: V(true), ttype: &t, source: Source::BuiltIn }; 2];
    let n = [Operand { value: V(true), ttype: &t, source: Source::BuiltIn }, Operand { value: V(false), ttype: &t, source: Source::BuiltIn }];
    assert!(d.invoke(None, c, Context).unwrap().value.0);
    assert!(!d.invoke(None, n, Context).unwrap().value.0);
    assert!(d.invoke(Some("a"), n, Context).unwrap().value.0);
    assert!(!d.invoke(Some("q"), c, Context).unwrap().value.0);
    assert!(d.select(Some("x"), true).is_none());
}

#[test]
fn dispatch_invokes_target_operation() {
    let mut d: BinaryDispatch<TargetBinaryOp<Checks>> = BinaryDispatch::new();
    d.implicit_op = Some(TargetBinaryOp { default_width: 32, checks: Checks });
    d.const_op = Some(TargetBinaryOp { default_width: 0, checks: Checks });
    let t = Type::Int(Source::BuiltIn, None);
    let a = Operand { value: V(true), ttype: &t, source: Source::BuiltIn };
    let b = Operand { value: V(false), ttype: &t, source: Source::BuiltIn };
    assert!(d.invoke(None, [a, b], Context).unwrap().value.0);
    assert!(d.invoke(None, [a, a], Context).is_err());
}

struct Checks;

impl aex::operator::BinaryChecks<V> for Checks {
    fn modes_ok(&self, a: V, _b: V) -> bool {
        a.0
    }
    fn types_meet(&self, a: Type, _b: Type) -> Option<Type> {
        Some(a)
    }
    fn form_width(&self, _a: TypeForm, _b: TypeForm, width: u8) -> Option<u8> {
        Some(width)
    }
    fn check_modes(&self, values: [&V; 2]) -> bool {
        values[0].0
    }
    fn check_types<'a>(&self, types: [&'a Type; 2]) -> Option<&'a Type> {
        Some(types[0])
    }
    fn check_forms(&self, _forms: [TypeForm; 2], width: u8) -> Option<u8> {
        if width == 0 { None } else { Some(width) }
    }
}

#[test]
fn target_binary_op_invokes_checks() {
    let t = Type::Int(Source::BuiltIn, None);
    let op = TargetBinaryOp { default_width: 32, checks: Checks };
    let a = Operand { value: V(true), ttype: &t, source: Source::BuiltIn };
    let b = Operand { value: V(false), ttype: &t, source: Source::BuiltIn };
    let r = op.invoke([a, b], Context).unwrap();
    assert!(r.value.0);
    assert!(op.invoke([b, a], Context).is_err());
    let zero = TargetBinaryOp { default_width: 0, checks: Checks };
    assert!(zero.invoke([a, b], Context).is_err());
}

#[test]
fn stub_eval_fails_at_the_leaves() {
    let mut d: BinaryDispatch<Tagged> = BinaryDispatch::new();
    d.implicit_op = Some(Tagged(2));
    d.const_op = Some(Tagged(1));
    let sum = Expr::Binary(BinaryOp::Add, Box::new(Expr::Int(1)), Box::new(Expr::Int(2)));
    let r: Result<Operand<V>, ()> = stub_eval(&sum, &d, Context);
    assert!(r.is_err());
    let r: Result<Operand<V>, ()> = stub_eval(&Expr::Int(1), &d, Context);
    assert!(r.is_err());
}

#[test]
fn constants_to_boxes() {
    let t = Type::Int(Source::BuiltIn, None);
    let ty = ResolvedType { ty: &t, form: TypeForm::Inty(None) };
    let e = Expr::Binary(BinaryOp::Add, Box::new(Expr::Int(1)), Box::new(Expr::Str("s".to_string())));
    let borrowed = ValueOperand { value: Value::Const(Bob::Borrowed(&e)), ty, reduced: false };
    assert_eq!(*borrowed.to_const(), e);
    let owned = Value::Const(Bob::Owned(Box::new(Expr::Int(7))));
    assert_eq!(*owned.to_const(), Expr::Int(7));
    assert_eq!(e.copy(), e);
}
