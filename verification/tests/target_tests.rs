use aex::ast::Expr;
use aex::codegen::ResolvedType;
use aex::mem::{Interner, Name};
use aex::pos::{Pos, Source};
use aex::assembly::{gas_flavor, vasm_mot_flavor};
use aex::ast::BinaryOp;
use aex::targets::mcf5307::{
    adda, check_form_inty, Evaluator, check_modes_src_addr, fmt_loc, mode_any, select_op, typecheck, Loc,
    Mcf5307, OpError, Operand, Output, LONG, M_Addr, M_Data, M_Dst, M_Imm, M_PcDisp, M_Src,
};
use aex::types::form::TypeForm;
use aex::types::int_spec::IntSpec;
use aex::types::Type;

fn i32spec() -> IntSpec {
    IntSpec { store_width: 32, value_width: 32, value_scale: 0, signed: true }
}

fn operand<'a>(loc: Loc, ty: ResolvedType<'a>) -> Operand<'a> {
    Operand { loc, ty, pos: Pos::bof(Name(0)) }
}

#[test]
fn modes() {
    assert!(mode_any(M_Data, M_Src));
    assert!(!mode_any(M_PcDisp, M_Dst));
    assert!(check_modes_src_addr(M_Imm, M_Addr));
    assert!(!check_modes_src_addr(M_Imm, M_Data));
    assert_eq!(Loc::AddrInd(2).mode(), 1 << 7);
}

#[test]
fn widths_and_opcodes() {
    assert_eq!(check_form_inty(TypeForm::Inty(None)), Some(LONG));
    assert_eq!(check_form_inty(TypeForm::Inty(Some(IntSpec { store_width: 16, value_width: 12, value_scale: 0, signed: false }))), Some(16));
    assert_eq!(check_form_inty(TypeForm::Floaty(None)), None);
    let ops = [(8u8, "add.b"), (16u8, "add.w"), (32u8, "add.l"), (32u8, "other")];
    assert_eq!(select_op(32, &ops), Some("add.l"));
    assert_eq!(select_op(8, &ops), Some("add.b"));
    assert_eq!(select_op(64, &ops), None);
}

#[test]
fn adda_accepts_source_to_address_register() {
    let t = Type::Int(Source::BuiltIn, Some(i32spec()));
    let ty = ResolvedType { ty: &t, form: TypeForm::Inty(Some(i32spec())) };
    let op = adda();
    let names = Interner::new();
    let mut out = Output::new(gas_flavor(), &names);
    let r = op.invoke(operand(Loc::Data(0), ty), operand(Loc::Addr(1), ty), &mut out).unwrap();
    assert_eq!(r.loc, Loc::Addr(1));
    assert!(std::ptr::eq(r.ty.ty, &t));
    assert_eq!(out.code.as_str(), "    adda.l %d0, %a1\n");
    assert!(out.log.is_empty());
    // A second instruction follows the first.
    let r = op.invoke(operand(Loc::AddrIndInc(6), ty), operand(Loc::Addr(7), ty), &mut out).unwrap();
    assert_eq!(r.loc, Loc::Addr(7));
    assert_eq!(out.code.as_str(), "    adda.l %d0, %a1\n    adda.l (%fp)+, %sp\n");
}

#[test]
fn adda_errors() {
    let t = Type::Int(Source::BuiltIn, Some(i32spec()));
    let ty = ResolvedType { ty: &t, form: TypeForm::Inty(Some(i32spec())) };
    let t8 = Type::Int(Source::BuiltIn, None);
    let ty8 = ResolvedType { ty: &t8, form: TypeForm::Inty(Some(IntSpec { store_width: 8, value_width: 8, value_scale: 0, signed: false })) };
    let f = Type::Float(Source::BuiltIn, None);
    let fty = ResolvedType { ty: &f, form: TypeForm::Floaty(None) };
    let fany = Type::Float(Source::BuiltIn, None);
    let fty2 = ResolvedType { ty: &fany, form: TypeForm::Floaty(None) };
    let op = adda();
    let names = Interner::new();
    let mut out = Output::new(gas_flavor(), &names);
    let at = Pos::bof(Name(5));
    let src = |loc: Loc, ty| Operand { loc, ty, pos: at };
    // Destination not an address register.
    assert!(op.invoke(src(Loc::Data(0), ty), operand(Loc::Data(1), ty), &mut out).is_err());
    // Types that do not meet.
    assert!(op.invoke(src(Loc::Data(0), fty), operand(Loc::Addr(1), ty), &mut out).is_err());
    // Floating types meet but have no integral width.
    assert!(op.invoke(src(Loc::Data(0), fty), operand(Loc::Addr(1), fty2), &mut out).is_err());
    // A byte-wide type has no opcode.
    assert!(op.invoke(src(Loc::Data(0), ty8), operand(Loc::Addr(1), ty8), &mut out).is_err());
    // An immediate out of its type's range.
    assert!(op.invoke(src(Loc::Imm(Expr::Int(1 << 40)), ty), operand(Loc::Addr(1), ty), &mut out).is_err());
    assert_eq!(
        out.log,
        vec![
            (OpError::AddrModes, at),
            (OpError::IncompatibleTypes, at),
            (OpError::OperandTypes, at),
            (OpError::OperandSizes, at),
            (OpError::ValueOutOfRange, at),
        ]
    );
    assert_eq!(out.code.as_str(), "");
    // In range, it is accepted.
    assert!(op.invoke(operand(Loc::Imm(Expr::Int(-5)), ty), operand(Loc::Addr(1), ty), &mut out).is_ok());
    assert_eq!(out.code.as_str(), "    adda.l #0x-5, %a1\n");
    assert_eq!(out.log.len(), 5);
}

#[test]
fn adda_decides_without_writing() {
    let t = Type::Int(Source::BuiltIn, Some(i32spec()));
    let ty = ResolvedType { ty: &t, form: TypeForm::Inty(Some(i32spec())) };
    let op = adda();
    let r = op.invoke_given(operand(Loc::Data(0), ty), operand(Loc::Addr(1), ty), true).unwrap();
    assert_eq!(r.0, "adda.l");
    assert_eq!(r.1.loc, Loc::Addr(1));
    assert_eq!(
        op.invoke_given(operand(Loc::Data(0), ty), operand(Loc::Data(1), ty), true).unwrap_err(),
        OpError::AddrModes
    );
}

#[test]
fn locations_as_text() {
    let a = gas_flavor();
    let mut names = Interner::new();
    let label = names.intern("start");
    let cases = [
        (Loc::Imm(Expr::Int(26)), "#0x1A"),
        (Loc::Abs16(Expr::Int(16)), "(0x10).w"),
        (Loc::Abs32(Expr::Int(16)), "(0x10).l"),
        (Loc::Data(7), "%d7"),
        (Loc::Addr(5), "%a5"),
        (Loc::Addr(6), "%fp"),
        (Loc::AddrInd(0), "(%a0)"),
        (Loc::AddrIndDec(7), "-(%sp)"),
        (Loc::AddrIndInc(3), "(%a3)+"),
        (Loc::Imm(Expr::Ident(label)), "#start"),
        (
            Loc::Abs32(Expr::Binary(BinaryOp::Add, Box::new(Expr::Ident(label)), Box::new(Expr::Int(4)))),
            "((start + 0x4)).l",
        ),
    ];
    for (loc, text) in cases {
        let mut s = String::new();
        assert!(fmt_loc(&loc, &mut s, &a, &names).is_ok());
        assert_eq!(s, text);
    }
    let mut s = String::new();
    assert!(fmt_loc(&Loc::Imm(Expr::Int(26)), &mut s, &vasm_mot_flavor(), &names).is_ok());
    assert_eq!(s, "#$1A");
    let mut s = String::new();
    assert!(fmt_loc(&Loc::Data(8), &mut s, &a, &names).is_err());
    assert!(fmt_loc(&Loc::Imm(Expr::Str("x".to_string())), &mut s, &a, &names).is_err());
    assert!(fmt_loc(&Loc::Imm(Expr::Ident(Name(7))), &mut s, &a, &names).is_err());
    assert_eq!(s, "");
}

#[test]
fn typecheck_same_type() {
    let t = Type::Int(Source::BuiltIn, Some(i32spec()));
    let ty = ResolvedType { ty: &t, form: TypeForm::Inty(Some(i32spec())) };
    assert!(typecheck(ty, ty).is_some());
}

#[test]
fn label_type() {
    let target = Mcf5307::new(Name(1), Name(2));
    match target.label_type() {
        Type::Ptr(_, a, v) => {
            assert_eq!(**a, Type::Ident(Source::BuiltIn, Name(1), None));
            assert_eq!(**v, Type::Ident(Source::BuiltIn, Name(2), None));
        }
        _ => panic!("not a pointer"),
    }
}

#[test]
fn evaluator_add_selectors() {
    let t = Type::Int(Source::BuiltIn, Some(i32spec()));
    let ty = ResolvedType { ty: &t, form: TypeForm::Inty(Some(i32spec())) };
    let names = Interner::new();
    let mut out = Output::new(gas_flavor(), &names);
    let r = Evaluator::add(operand(Loc::Data(0), ty), operand(Loc::Data(1), ty), "", &mut out).unwrap();
    assert_eq!(r.loc, Loc::Data(1));
    assert_eq!(out.code.as_str(), "");
    let r = Evaluator::add(operand(Loc::Data(0), ty), operand(Loc::Addr(2), ty), "a", &mut out).unwrap();
    assert_eq!(r.loc, Loc::Addr(2));
    assert_eq!(out.code.as_str(), "    adda.l %d0, %a2\n");
    assert!(Evaluator::add(operand(Loc::Data(0), ty), operand(Loc::Data(2), ty), "a", &mut out).is_err());
    assert!(Evaluator::add(operand(Loc::Data(0), ty), operand(Loc::Addr(2), ty), "q", &mut out).is_err());
    let bof = Pos::bof(Name(0));
    assert_eq!(out.log, vec![(OpError::AddrModes, bof), (OpError::NoOpForSelector, bof)]);
    assert_eq!(out.code.as_str(), "    adda.l %d0, %a2\n");
}

#[test]
fn evaluator_eval_fails_on_what_it_cannot_evaluate() {
    let names = Interner::new();
    let mut out = Output::new(gas_flavor(), &names);
    let sum = Expr::Binary(BinaryOp::Add, Box::new(Expr::Int(1)), Box::new(Expr::Int(2)));
    assert!(Evaluator::eval(&sum, &mut out).is_err());
    assert!(Evaluator::eval(&Expr::Int(1), &mut out).is_err());
    assert_eq!(out.code.as_str(), "");
    assert!(out.log.is_empty());
}
