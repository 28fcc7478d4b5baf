//! The ColdFire MCF5307: addressing modes, operands, and the checks that
//! choose an instruction for an operation.

#![allow(non_upper_case_globals)]

use vstd::prelude::*;

use crate::assembly::{expr_in_flavor, fmt_expr, op_line, writable, Assembly, AsmFlavor, ImmStyle, RegStyle};
use crate::ast::Expr;
use crate::codegen::{compat_spec, ResolvedType};
use crate::mem::{Interner, Name};
use crate::pos::{Pos, Source};
use crate::types::contains::Contains;
use crate::types::form::TypeForm;
use crate::types::int_spec::IntSpec;
use crate::types::Type;
use crate::operator::str_eq;
use crate::util::text::push_char;
use crate::util::same_type;

verus! {

// -----------------------------------------------------------------------------
// Addressing modes

/// A set of addressing modes, one bit each.
pub type Mode = u32;

pub const M_Imm: Mode = 1 << 0;
pub const M_Abs16: Mode = 1 << 1;
pub const M_Abs32: Mode = 1 << 2;
pub const M_Data: Mode = 1 << 3;
pub const M_Addr: Mode = 1 << 4;
pub const M_Ctrl: Mode = 1 << 5;
pub const M_Regs: Mode = 1 << 6;
pub const M_AddrInd: Mode = 1 << 7;
pub const M_AddrIndInc: Mode = 1 << 8;
pub const M_AddrIndDec: Mode = 1 << 9;
pub const M_AddrDisp: Mode = 1 << 10;
pub const M_AddrDispIdx: Mode = 1 << 11;
pub const M_PcDisp: Mode = 1 << 12;
pub const M_PcDispIdx: Mode = 1 << 13;
pub const M_PC: Mode = 1 << 14;
pub const M_SR: Mode = 1 << 15;
pub const M_CCR: Mode = 1 << 16;
pub const M_BC: Mode = 1 << 17;

/// The register modes.
pub const M_Reg: Mode = M_Data | M_Addr;

/// The modes a destination operand may have.
pub const M_Dst: Mode = M_Reg | M_AddrInd | M_AddrIndInc | M_AddrIndDec | M_AddrDisp
    | M_AddrDispIdx;

/// The modes a source operand may have.
pub const M_Src: Mode = M_Dst | M_Imm | M_PcDisp | M_PcDispIdx;

/// Whether `mode` is one of `modes`.
pub fn mode_any(mode: Mode, modes: Mode) -> (r: bool)
    ensures
        r == (mode & modes != 0),
{
    mode & modes != 0
}

/// Where an operand is: an immediate or absolute value, or a register
/// (numbered 0 to 7) used directly or as an address.
#[derive(PartialEq, Eq, Debug)]
pub enum Loc {
    /// Immediate value.
    Imm(Expr),
    /// Absolute 16-bit address.
    Abs16(Expr),
    /// Absolute 32-bit address.
    Abs32(Expr),
    /// Data register.
    Data(u8),
    /// Address register.
    Addr(u8),
    /// Address register indirect.
    AddrInd(u8),
    /// Address register indirect, pre-decrement.
    AddrIndDec(u8),
    /// Address register indirect, post-increment.
    AddrIndInc(u8),
}

impl Loc {
    /// The addressing mode of the location.
    pub open spec fn spec_mode(&self) -> Mode {
        match self {
            Loc::Imm(..) => M_Imm,
            Loc::Abs16(..) => M_Abs16,
            Loc::Abs32(..) => M_Abs32,
            Loc::Data(..) => M_Data,
            Loc::Addr(..) => M_Addr,
            Loc::AddrInd(..) => M_AddrInd,
            Loc::AddrIndDec(..) => M_AddrIndDec,
            Loc::AddrIndInc(..) => M_AddrIndInc,
        }
    }

    /// Returns the addressing mode of the location.
    pub fn mode(&self) -> (r: Mode)
        ensures
            r == self.spec_mode(),
    {
        match self {
            Loc::Imm(..) => M_Imm,
            Loc::Abs16(..) => M_Abs16,
            Loc::Abs32(..) => M_Abs32,
            Loc::Data(..) => M_Data,
            Loc::Addr(..) => M_Addr,
            Loc::AddrInd(..) => M_AddrInd,
            Loc::AddrIndDec(..) => M_AddrIndDec,
            Loc::AddrIndInc(..) => M_AddrIndInc,
        }
    }
}

/// An operand of an instruction: where it is, its type, and where it was
/// written.
#[derive(Debug)]
pub struct Operand<'a> {
    /// The location of the operand.
    pub loc: Loc,
    /// The type of the operand.
    pub ty: ResolvedType<'a>,
    /// Where the operand was written.
    pub pos: Pos,
}

// -----------------------------------------------------------------------------
// Values in types

impl Contains<Expr> for IntSpec {
    open spec fn spec_contains(&self, item: Expr) -> Option<bool> {
        match item {
            Expr::Int(v) => Some(self.holds(v as int)),
            _ => None,
        }
    }

    open spec fn can_contain(&self) -> bool {
        self.bounds_ok()
    }

    /// Whether an integer literal is in the type's range; unknown for any
    /// other expression.
    fn contains(&self, expr: &Expr) -> (r: Option<bool>) {
        match expr {
            Expr::Int(v) => Some(self.holds_value(*v)),
            _ => None,
        }
    }
}

impl Contains<Expr> for TypeForm {
    open spec fn spec_contains(&self, item: Expr) -> Option<bool> {
        match self {
            TypeForm::Inty(s) => s.spec_contains(item),
            TypeForm::Floaty(_) => None,
            TypeForm::Opaque(_) => Some(false),
        }
    }

    open spec fn can_contain(&self) -> bool {
        self.bounds_ok()
    }

    /// Whether an expression is in the form's range: unknown for unbounded
    /// integers and floating-point forms, never for opaque forms.
    fn contains(&self, expr: &Expr) -> (r: Option<bool>) {
        match self {
            TypeForm::Inty(s) => s.contains(expr),
            // Don't know for now
            TypeForm::Floaty(_) => None,
            TypeForm::Opaque(_) => Some(false),
        }
    }
}

// -----------------------------------------------------------------------------
// Checks

/// The type two operand types meet at: `x` when they are the very same type
/// as written, else as `compat_spec` says.
pub fn typecheck<'a>(x: ResolvedType<'a>, y: ResolvedType<'a>) -> (r: Option<ResolvedType<'a>>)
    ensures
        r == Some(x) || r == compat_spec(x, y),
        *x.ty != *y.ty ==> r == compat_spec(x, y),
{
    ResolvedType::check_compat(x, y)
}

/// The opcode of the first entry of `ops` for the width `w`.
pub open spec fn select_spec(w: u8, ops: Seq<(u8, &'static str)>) -> Option<&'static str>
    decreases ops.len(),
{
    if ops.len() == 0 {
        None
    } else if ops[0].0 == w {
        Some(ops[0].1)
    } else {
        select_spec(w, ops.drop_first())
    }
}

/// Returns the opcode of the first entry of `ops` for the width `ty_width`.
pub fn select_op(ty_width: u8, ops: &[(u8, &'static str)]) -> (r: Option<&'static str>)
    ensures
        r == select_spec(ty_width, ops@),
{
    let mut i: usize = 0;
    assert(ops@.skip(0) =~= ops@);
    while i < ops.len()
        invariant
            i <= ops.len(),
            select_spec(ty_width, ops@) == select_spec(ty_width, ops@.skip(i as int)),
        decreases ops.len() - i,
    {
        assert(ops@.skip(i as int).drop_first() =~= ops@.skip(i + 1));
        assert(ops@.skip(i as int)[0] == ops@[i as int]);
        let (op_width, op) = ops[i];
        if op_width == ty_width {
            return Some(op);
        }
        i = i + 1;
    }
    None
}

/// Bits in a byte.
pub const BYTE: u8 = 8;
/// Bits in a word.
pub const WORD: u8 = 16;
/// Bits in a longword.
pub const LONG: u8 = 32;

/// Whether the modes suit an instruction that writes an address register
/// from any source.
pub fn check_modes_src_addr(src: Mode, dst: Mode) -> (r: bool)
    ensures
        r == (dst == M_Addr && src & M_Src != 0),
{
    dst == M_Addr && mode_any(src, M_Src)
}

/// The operation width for an integral form: its stored width, or a
/// longword when unbounded; none for other forms.
pub open spec fn form_inty_spec(form: TypeForm) -> Option<u8> {
    match form {
        TypeForm::Inty(None) => Some(LONG),
        TypeForm::Inty(Some(s)) => Some(s.store_width),
        _ => None,
    }
}

/// Returns the operation width for an integral form.
pub fn check_form_inty(form: TypeForm) -> (r: Option<u8>)
    ensures
        r == form_inty_spec(form),
{
    match form {
        TypeForm::Inty(None) => Some(LONG),
        TypeForm::Inty(Some(s)) => Some(s.store_width),
        _ => None,
    }
}

/// The check of the addressing modes of an operation.
#[derive(Clone, Copy, PartialEq, Eq, Structural, Debug)]
pub enum ModeCheck {
    /// See `check_modes_src_addr`.
    SrcAddr,
}

/// The check of the types of an operation.
#[derive(Clone, Copy, PartialEq, Eq, Structural, Debug)]
pub enum TypeCheck {
    /// See `typecheck`.
    Compat,
}

/// The check of the form of an operation's type, giving its width.
#[derive(Clone, Copy, PartialEq, Eq, Structural, Debug)]
pub enum FormCheck {
    /// See `check_form_inty`.
    Inty,
}

impl ModeCheck {
    /// Whether the check accepts the modes.
    pub open spec fn spec_check(self, src: Mode, dst: Mode) -> bool {
        match self {
            ModeCheck::SrcAddr => dst == M_Addr && src & M_Src != 0,
        }
    }

    /// Returns whether the check accepts the modes.
    pub fn check(self, src: Mode, dst: Mode) -> (r: bool)
        ensures
            r == self.spec_check(src, dst),
    {
        match self {
            ModeCheck::SrcAddr => check_modes_src_addr(src, dst),
        }
    }
}

impl TypeCheck {
    /// The type the check gives, given whether the types are the very same.
    pub open spec fn spec_check<'a>(self, x: ResolvedType<'a>, y: ResolvedType<'a>, same: bool) -> Option<
        ResolvedType<'a>,
    > {
        match self {
            TypeCheck::Compat => if same {
                Some(x)
            } else {
                compat_spec(x, y)
            },
        }
    }

    /// Returns the type the check gives, given whether the types are the
    /// very same.
    pub fn check<'a>(self, x: ResolvedType<'a>, y: ResolvedType<'a>, same: bool) -> (r: Option<
        ResolvedType<'a>,
    >)
        ensures
            r == self.spec_check(x, y, same),
    {
        match self {
            TypeCheck::Compat => ResolvedType::check_compat_given(x, y, same),
        }
    }
}

impl FormCheck {
    /// The width the check gives for a form.
    pub open spec fn spec_check(self, form: TypeForm) -> Option<u8> {
        match self {
            FormCheck::Inty => form_inty_spec(form),
        }
    }

    /// Returns the width the check gives for a form.
    pub fn check(self, form: TypeForm) -> (r: Option<u8>)
        ensures
            r == self.spec_check(form),
    {
        match self {
            FormCheck::Inty => check_form_inty(form),
        }
    }
}

// -----------------------------------------------------------------------------
// Operands as assembly text

/// The digit for a number below ten.
pub open spec fn digit(n: u8) -> char {
    (48 + n) as char
}

/// The name of data register `n`: `d0` to `d7`.
pub open spec fn data_reg_name(n: u8) -> Seq<char> {
    seq!['d', digit(n)]
}

/// The name of address register `n`: `a0` to `a5`, then `fp` and `sp`.
pub open spec fn addr_reg_name(n: u8) -> Seq<char> {
    if n == 6 {
        seq!['f', 'p']
    } else if n == 7 {
        seq!['s', 'p']
    } else {
        seq!['a', digit(n)]
    }
}

/// A register as the flavor writes it.
pub open spec fn reg_text(a: AsmFlavor, name: Seq<char>) -> Seq<char> {
    match a.fmt_reg {
        RegStyle::Att => seq!['%'] + name,
    }
}

/// The mark before an immediate value in the flavor.
pub open spec fn imm_mark(a: AsmFlavor) -> char {
    match a.fmt_imm {
        ImmStyle::Att => '#',
        ImmStyle::Dollar => '$',
    }
}

/// A location as the flavor writes it: an immediate after its mark, an
/// absolute address in parentheses with its size (`.w` or `.l`), a
/// register by name, indirection in parentheses, with `-` before for
/// pre-decrement and `+` after for post-increment.  There is no text for a
/// register numbered above 7, nor for an expression the flavor cannot write
/// with the texts of `names`.
pub open spec fn loc_text(loc: Loc, a: AsmFlavor, names: Seq<Seq<char>>) -> Option<Seq<char>> {
    match loc {
        Loc::Imm(e) => match expr_in_flavor(e, a, names) {
            Some(t) => Some(seq![imm_mark(a)] + t),
            None => None,
        },
        Loc::Abs16(e) => match expr_in_flavor(e, a, names) {
            Some(t) => Some(seq!['('] + t + seq![')', '.', 'w']),
            None => None,
        },
        Loc::Abs32(e) => match expr_in_flavor(e, a, names) {
            Some(t) => Some(seq!['('] + t + seq![')', '.', 'l']),
            None => None,
        },
        Loc::Data(n) => if n < 8 {
            Some(reg_text(a, data_reg_name(n)))
        } else {
            None
        },
        Loc::Addr(n) => if n < 8 {
            Some(reg_text(a, addr_reg_name(n)))
        } else {
            None
        },
        Loc::AddrInd(n) => if n < 8 {
            Some(seq!['('] + reg_text(a, addr_reg_name(n)) + seq![')'])
        } else {
            None
        },
        Loc::AddrIndDec(n) => if n < 8 {
            Some(seq!['-', '('] + reg_text(a, addr_reg_name(n)) + seq![')'])
        } else {
            None
        },
        Loc::AddrIndInc(n) => if n < 8 {
            Some(seq!['('] + reg_text(a, addr_reg_name(n)) + seq![')', '+'])
        } else {
            None
        },
    }
}

/// Appends a register of two characters as the flavor writes it.
fn push_reg(f: &mut String, a: &AsmFlavor, c0: char, c1: char)
    ensures
        final(f)@ == old(f)@ + reg_text(*a, seq![c0, c1]),
{
    match a.fmt_reg {
        RegStyle::Att => {
            push_char(f, '%');
            push_char(f, c0);
            push_char(f, c1);
        },
    }
    assert(f@ =~= old(f)@ + reg_text(*a, seq![c0, c1]));
}

/// Returns the characters of the name of data register `n`.
fn data_reg_chars(n: u8) -> (r: (char, char))
    requires
        n < 8,
    ensures
        seq![r.0, r.1] == data_reg_name(n),
{
    ('d', (48u8 + n) as char)
}

/// Returns the characters of the name of address register `n`.
fn addr_reg_chars(n: u8) -> (r: (char, char))
    requires
        n < 8,
    ensures
        seq![r.0, r.1] == addr_reg_name(n),
{
    if n == 6 {
        ('f', 'p')
    } else if n == 7 {
        ('s', 'p')
    } else {
        ('a', (48u8 + n) as char)
    }
}

/// Appends a location as the flavor writes it (see `loc_text`); `Err`,
/// writing nothing, where there is no text for it.
pub fn fmt_loc(loc: &Loc, f: &mut String, a: &AsmFlavor, names: &Interner) -> (r: Result<(), ()>)
    ensures
        match loc_text(*loc, *a, names@) {
            Some(t) => r is Ok && final(f)@ == old(f)@ + t,
            None => r is Err && final(f)@ == old(f)@,
        },
{
    match loc {
        Loc::Imm(e) => {
            if !writable(e, a, names) {
                return Err(());
            }
            match a.fmt_imm {
                ImmStyle::Att => push_char(f, '#'),
                ImmStyle::Dollar => push_char(f, '$'),
            }
            let _ = fmt_expr(e, f, a, names);
            assert(f@ =~= old(f)@ + loc_text(*loc, *a, names@).unwrap());
            Ok(())
        },
        Loc::Abs16(e) | Loc::Abs32(e) => {
            if !writable(e, a, names) {
                return Err(());
            }
            push_char(f, '(');
            let _ = fmt_expr(e, f, a, names);
            push_char(f, ')');
            push_char(f, '.');
            match loc {
                Loc::Abs16(_) => push_char(f, 'w'),
                _ => push_char(f, 'l'),
            }
            assert(f@ =~= old(f)@ + loc_text(*loc, *a, names@).unwrap());
            Ok(())
        },
        Loc::Data(n) => {
            if *n >= 8 {
                return Err(());
            }
            let (c0, c1) = data_reg_chars(*n);
            push_reg(f, a, c0, c1);
            Ok(())
        },
        Loc::Addr(n) => {
            if *n >= 8 {
                return Err(());
            }
            let (c0, c1) = addr_reg_chars(*n);
            push_reg(f, a, c0, c1);
            Ok(())
        },
        Loc::AddrInd(n) | Loc::AddrIndDec(n) | Loc::AddrIndInc(n) => {
            if *n >= 8 {
                return Err(());
            }
            let (c0, c1) = addr_reg_chars(*n);
            if let Loc::AddrIndDec(_) = loc {
                push_char(f, '-');
            }
            push_char(f, '(');
            push_reg(f, a, c0, c1);
            push_char(f, ')');
            if let Loc::AddrIndInc(_) = loc {
                push_char(f, '+');
            }
            assert(f@ =~= old(f)@ + loc_text(*loc, *a, names@).unwrap());
            Ok(())
        },
    }
}

/// Where code generation writes: assembly text in a flavor of syntax, with
/// names written by their texts in an interner, and the log of the errors
/// found, each with where it was found.
pub struct Output<'n> {
    /// The assembly text.
    pub code: Assembly,
    /// The errors, in the order found.
    pub log: Vec<(OpError, Pos)>,
    /// The flavor of syntax the text is written in.
    pub flavor: AsmFlavor,
    /// The texts of names.
    pub names: &'n Interner,
}

impl<'n> Output<'n> {
    /// No text and no errors, in the given flavor, with the given texts of
    /// names.
    pub fn new(flavor: AsmFlavor, names: &'n Interner) -> (r: Self)
        ensures
            r.code@ == Seq::<char>::empty(),
            r.log@ == Seq::<(OpError, Pos)>::empty(),
            r.flavor == flavor,
            r.names == names,
    {
        Output { code: Assembly::new(), log: Vec::new(), flavor, names }
    }
}

// -----------------------------------------------------------------------------
// Binary operations

/// Why an operation has no instruction for its operands.
#[derive(Clone, Copy, PartialEq, Eq, Structural, Debug)]
pub enum OpError {
    /// No instruction for the operands' addressing modes.
    AddrModes,
    /// The operands' types do not meet.
    IncompatibleTypes,
    /// No instruction for the operands' type.
    OperandTypes,
    /// No instruction for the operands' size.
    OperandSizes,
    /// The immediate source value is out of its type's range.
    ValueOutOfRange,
    /// No instruction for the selector.
    NoOpForSelector,
}

/// An operation of two operands, with the instructions that implement it.
pub struct BinaryOp {
    /// The opcodes, each with the width it works at.
    pub opcodes: Vec<(u8, &'static str)>,
    /// The width of operations on unbounded types.
    pub default_width: u8,
    /// The check of the operands' addressing modes.
    pub check_modes: ModeCheck,
    /// The check of the operands' types.
    pub check_types: TypeCheck,
    /// The check of the meeting type's form.
    pub check_form: FormCheck,
}

/// The operation adding to an address register.
pub fn adda() -> (r: BinaryOp)
    ensures
        r.opcodes@ == seq![(LONG, "adda.l")],
        r.default_width == LONG,
        r.check_modes == ModeCheck::SrcAddr,
        r.check_types == TypeCheck::Compat,
        r.check_form == FormCheck::Inty,
{
    BinaryOp {
        opcodes: vec![(LONG, "adda.l")],
        default_width: LONG,
        check_modes: ModeCheck::SrcAddr,
        check_types: TypeCheck::Compat,
        check_form: FormCheck::Inty,
    }
}

/// The instruction for an operation with the given opcodes and checks on
/// `src` and `dst`, and the result operand, given whether the operands'
/// types are the very same: the modes are checked, then the types meet,
/// then the width comes from the form and selects the opcode, then an
/// immediate source must be in its type's range; the result is `dst` with
/// the meeting type.
pub open spec fn binary_spec<'a>(
    opcodes: Seq<(u8, &'static str)>,
    check_modes: ModeCheck,
    check_types: TypeCheck,
    check_form: FormCheck,
    src: Operand<'a>,
    dst: Operand<'a>,
    same: bool,
) -> Result<(&'static str, Operand<'a>), OpError> {
    if !check_modes.spec_check(src.loc.spec_mode(), dst.loc.spec_mode()) {
        Err(OpError::AddrModes)
    } else {
        match check_types.spec_check(dst.ty, src.ty, same) {
            None => Err(OpError::IncompatibleTypes),
            Some(ty) => match check_form.spec_check(ty.form) {
                None => Err(OpError::OperandTypes),
                Some(w) => match select_spec(w, opcodes) {
                    None => Err(OpError::OperandSizes),
                    Some(op) => {
                        if src.loc matches Loc::Imm(e) && src.ty.form.spec_contains(e) == Some(
                            false,
                        ) {
                            Err(OpError::ValueOutOfRange)
                        } else {
                            Ok((op, Operand { loc: dst.loc, ty, pos: dst.pos }))
                        }
                    },
                },
            },
        }
    }
}

impl BinaryOp {
    /// The instruction for the operation on `src` and `dst` and the result
    /// operand, given whether the operands' types are the very same (see
    /// `binary_spec`).
    pub open spec fn invoke_spec<'a>(&self, src: Operand<'a>, dst: Operand<'a>, same: bool) -> Result<
        (&'static str, Operand<'a>),
        OpError,
    > {
        binary_spec(self.opcodes@, self.check_modes, self.check_types, self.check_form, src, dst, same)
    }

    /// The instruction for the operation on `src` and `dst` and the result,
    /// given whether the operands' types are the very same (see
    /// `invoke_spec`).
    pub fn invoke_given<'a>(&self, src: Operand<'a>, dst: Operand<'a>, same: bool) -> (r: Result<
        (&'static str, Operand<'a>),
        OpError,
    >)
        requires
            src.loc is Imm ==> src.ty.form.bounds_ok(),
        ensures
            r == self.invoke_spec(src, dst, same),
    {
        // Mode check
        let ok = self.check_modes.check(src.loc.mode(), dst.loc.mode());
        if !ok {
            return Err(OpError::AddrModes);
        }
        // General type check
        let ty = match self.check_types.check(dst.ty, src.ty, same) {
            Some(ty) => ty,
            None => return Err(OpError::IncompatibleTypes),
        };
        // Opcode type check
        let w = match self.check_form.check(ty.form) {
            Some(w) => w,
            None => return Err(OpError::OperandTypes),
        };
        // Opcode variant check
        let op = match select_op(w, self.opcodes.as_slice()) {
            Some(op) => op,
            None => return Err(OpError::OperandSizes),
        };
        // Value check
        if let Loc::Imm(expr) = &src.loc {
            if src.ty.form.contains(expr) == Some(false) {
                return Err(OpError::ValueOutOfRange);
            }
        }
        Ok((op, Operand { ty, ..dst }))
    }

    /// Carries out the operation on `src` and `dst`: writes its
    /// instruction with both operands, or logs why there is none at the
    /// source operand's position (see `emit_spec`), with the types taken as
    /// the very same at most when they are equal as written.
    pub fn invoke<'a, 'n>(&self, src: Operand<'a>, dst: Operand<'a>, out: &mut Output<'n>) -> (r: Result<
        Operand<'a>,
        (),
    >)
        requires
            src.loc is Imm ==> src.ty.form.bounds_ok(),
            texts_where_found(
                self.opcodes@,
                self.check_modes,
                self.check_types,
                self.check_form,
                src,
                dst,
                old(out).flavor,
                old(out).names@,
            ),
        ensures
            exists|same: bool|
                (same ==> *dst.ty.ty == *src.ty.ty) && #[trigger] emit_spec(
                    self.invoke_spec(src, dst, same),
                    src,
                    dst,
                    *old(out),
                    *final(out),
                    r,
                ),
    {
        let same = same_type(dst.ty.ty, src.ty.ty);
        let ghost s = src;
        let ghost d = dst;
        let pos = src.pos;
        let mut src_text = String::new();
        let src_ok = fmt_loc(&src.loc, &mut src_text, &out.flavor, out.names);
        let mut dst_text = String::new();
        let dst_ok = fmt_loc(&dst.loc, &mut dst_text, &out.flavor, out.names);
        let found = self.invoke_given(src, dst, same);
        match found {
            Ok((op, res)) => {
                out.code.write_op_2(op, src_text.as_str(), dst_text.as_str());
                assert(emit_spec(self.invoke_spec(s, d, same), s, d, *old(out), *out, Ok::<Operand<'a>, ()>(res)));
                Ok(res)
            },
            Err(e) => {
                out.log.push((e, pos));
                assert(emit_spec(self.invoke_spec(s, d, same), s, d, *old(out), *out, Err::<Operand<'a>, ()>(())));
                Err(())
            },
        }
    }
}

/// Whether both operands have a text in the flavor wherever the checks
/// find an instruction for them, which is where the instruction is written.
pub open spec fn texts_where_found<'a>(
    opcodes: Seq<(u8, &'static str)>,
    check_modes: ModeCheck,
    check_types: TypeCheck,
    check_form: FormCheck,
    src: Operand<'a>,
    dst: Operand<'a>,
    a: AsmFlavor,
    names: Seq<Seq<char>>,
) -> bool {
    (binary_spec(opcodes, check_modes, check_types, check_form, src, dst, true) is Ok
        || binary_spec(opcodes, check_modes, check_types, check_form, src, dst, false) is Ok)
        ==> loc_text(src.loc, a, names) is Some && loc_text(dst.loc, a, names) is Some
}

/// What carrying out an operation does, given what the checks found: with
/// an instruction, the result operand is given and the instruction is
/// written after the text there was, with the source and then the
/// destination operand; without, it fails and the reason is logged at the
/// source operand's position.  The flavor stays.
pub open spec fn emit_spec<'a>(
    found: Result<(&'static str, Operand<'a>), OpError>,
    src: Operand<'a>,
    dst: Operand<'a>,
    before: Output,
    after: Output,
    r: Result<Operand<'a>, ()>,
) -> bool {
    &&& after.flavor == before.flavor
    &&& after.names == before.names
    &&& match found {
        Ok((op, res)) => {
            &&& r == Ok::<Operand<'a>, ()>(res)
            &&& after.code@ == before.code@ + op_line(
                op@,
                seq![
                    loc_text(src.loc, before.flavor, before.names@).unwrap(),
                    loc_text(dst.loc, before.flavor, before.names@).unwrap(),
                ],
            )
            &&& after.log@ == before.log@
        },
        Err(e) => {
            &&& r is Err
            &&& after.code@ == before.code@
            &&& after.log@ == before.log@.push((e, src.pos))
        },
    }
}

/// The evaluator of expressions for the target.
pub struct Evaluator;

impl Evaluator {
    /// Evaluates an expression, writing its code.  Only a sum is evaluated,
    /// by evaluating its operands and adding them; no other expression
    /// gives an operand, so evaluation fails, with nothing written or
    /// logged.
    pub fn eval<'a, 'n>(expr: &Expr, out: &mut Output<'n>) -> (r: Result<Operand<'a>, ()>)
        ensures
            r is Err,
            *final(out) == *old(out),
        decreases expr,
    {
        match expr {
            Expr::Binary(crate::ast::BinaryOp::Add, src, dst) => {
                let src = match Self::eval(src, out) {
                    Ok(o) => o,
                    Err(()) => return Err(()),
                };
                let dst = match Self::eval(dst, out) {
                    Ok(o) => o,
                    Err(()) => return Err(()),
                };
                Self::add(src, dst, "", out)
            },
            // Subtraction and the others are not evaluated.
            _ => Err(()),
        }
    }

    /// Adds `src` to `dst` by the instruction the selector names: with no
    /// selector, `dst` as it is and nothing written; with `a`, as `adda`
    /// does; with any other selector, a failure, logged at the source
    /// operand's position.
    pub fn add<'a, 'n>(src: Operand<'a>, dst: Operand<'a>, sel: &str, out: &mut Output<'n>) -> (r: Result<
        Operand<'a>,
        (),
    >)
        requires
            src.loc is Imm ==> src.ty.form.bounds_ok(),
            sel@ == seq!['a'] ==> texts_where_found(
                seq![(LONG, "adda.l")],
                ModeCheck::SrcAddr,
                TypeCheck::Compat,
                FormCheck::Inty,
                src,
                dst,
                old(out).flavor,
                old(out).names@,
            ),
        ensures
            sel@.len() == 0 ==> r == Ok::<Operand<'a>, ()>(dst) && *final(out) == *old(out),
            sel@ == seq!['a'] ==> exists|same: bool|
                (same ==> *dst.ty.ty == *src.ty.ty) && #[trigger] emit_spec(
                    binary_spec(
                        seq![(LONG, "adda.l")],
                        ModeCheck::SrcAddr,
                        TypeCheck::Compat,
                        FormCheck::Inty,
                        src,
                        dst,
                        same,
                    ),
                    src,
                    dst,
                    *old(out),
                    *final(out),
                    r,
                ),
            sel@.len() != 0 && sel@ != seq!['a'] ==> {
                &&& r is Err
                &&& final(out).code@ == old(out).code@
                &&& final(out).log@ == old(out).log@.push((OpError::NoOpForSelector, src.pos))
                &&& final(out).flavor == old(out).flavor
                &&& final(out).names == old(out).names
            },
    {
        proof {
            reveal_strlit("");
            reveal_strlit("a");
            assert(""@ =~= Seq::<char>::empty());
            assert("a"@ =~= seq!['a']);
        }
        // Choose via selector
        if str_eq(sel, "") {
            return Ok(dst);
        }
        assert(sel@.len() != 0) by {
            if sel@.len() == 0 {
                assert(sel@ =~= ""@);
            }
        }
        if str_eq(sel, "a") {
            let op = adda();
            assert(op.opcodes@ == seq![(LONG, "adda.l")]);
            return op.invoke(src, dst, out);
        }
        out.log.push((OpError::NoOpForSelector, src.pos));
        Err(())
    }
}

// -----------------------------------------------------------------------------
// The target

/// The MCF5307 target: its type of code addresses.
pub struct Mcf5307 {
    ptr_type: Type,
}

impl Mcf5307 {
    /// The target, with labels typed as pointers of type `int_name` to
    /// values of type `byte_name`.
    pub fn new(int_name: Name, byte_name: Name) -> (r: Self)
        ensures
            r.label_type_spec() == Type::Ptr(
                Source::BuiltIn,
                Box::new(Type::Ident(Source::BuiltIn, int_name, None)),
                Box::new(Type::Ident(Source::BuiltIn, byte_name, None)),
            ),
    {
        Mcf5307 {
            ptr_type: Type::Ptr(
                Source::BuiltIn,
                Box::new(Type::Ident(Source::BuiltIn, int_name, None)),
                Box::new(Type::Ident(Source::BuiltIn, byte_name, None)),
            ),
        }
    }

    /// The type of labels.
    pub closed spec fn label_type_spec(&self) -> Type {
        self.ptr_type
    }

    /// Returns the type of labels.
    pub fn label_type(&self) -> (r: &Type)
        ensures
            *r == self.label_type_spec(),
    {
        &self.ptr_type
    }
}

// -----------------------------------------------------------------------------
// Laws of addressing modes

/// Each location has the mode bit of its own kind, and no two kinds share a
/// bit: a location is immediate, absolute, a register or indirect exactly
/// when its mode says so.
pub proof fn law_mode_of_each_location(loc: Loc)
    ensures
        loc.spec_mode() == 0x001 <==> loc is Imm,
        loc.spec_mode() == 0x002 <==> loc is Abs16,
        loc.spec_mode() == 0x004 <==> loc is Abs32,
        loc.spec_mode() == 0x008 <==> loc is Data,
        loc.spec_mode() == 0x010 <==> loc is Addr,
        loc.spec_mode() == 0x080 <==> loc is AddrInd,
        loc.spec_mode() == 0x100 <==> loc is AddrIndInc,
        loc.spec_mode() == 0x200 <==> loc is AddrIndDec,
{
    assert(M_Imm == 0x001) by (bit_vector);
    assert(M_Abs16 == 0x002) by (bit_vector);
    assert(M_Abs32 == 0x004) by (bit_vector);
    assert(M_Data == 0x008) by (bit_vector);
    assert(M_Addr == 0x010) by (bit_vector);
    assert(M_AddrInd == 0x080) by (bit_vector);
    assert(M_AddrIndInc == 0x100) by (bit_vector);
    assert(M_AddrIndDec == 0x200) by (bit_vector);
}

/// Any register or indirect location, and any immediate, can be added to an
/// address register by `adda`'s mode check; absolute addresses cannot be
/// sources, and only an address register can be the destination.
pub proof fn law_adda_modes(src: Loc, dst: Loc)
    ensures
        ModeCheck::SrcAddr.spec_check(src.spec_mode(), dst.spec_mode()) <==> (dst is Addr && !(
        src is Abs16) && !(src is Abs32)),
{
    law_mode_of_each_location(src);
    law_mode_of_each_location(dst);
    assert(M_Src == 0x3f99u32) by {
        assert((1u32 << 3u32) | (1u32 << 4u32) | (1u32 << 7u32) | (1u32 << 8u32) | (1u32 << 9u32) | (
        1u32 << 10u32) | (1u32 << 11u32) | (1u32 << 0u32) | (1u32 << 12u32) | (1u32 << 13u32)
            == 0x3f99u32) by (bit_vector);
    }
    assert(M_Addr == 16u32) by (bit_vector);
    assert(dst.spec_mode() == M_Addr <==> dst is Addr);
    let m = src.spec_mode();
    match src {
        Loc::Imm(..) => {
            assert(m == 1);
            assert(1u32 & 0x3f99u32 != 0) by (bit_vector);
        },
        Loc::Abs16(..) => {
            assert(m == 2);
            assert(2u32 & 0x3f99u32 == 0) by (bit_vector);
        },
        Loc::Abs32(..) => {
            assert(m == 4);
            assert(4u32 & 0x3f99u32 == 0) by (bit_vector);
        },
        Loc::Data(..) => {
            assert(m == 8);
            assert(8u32 & 0x3f99u32 != 0) by (bit_vector);
        },
        Loc::Addr(..) => {
            assert(m == 16);
            assert(16u32 & 0x3f99u32 != 0) by (bit_vector);
        },
        Loc::AddrInd(..) => {
            assert(m == 128);
            assert(128u32 & 0x3f99u32 != 0) by (bit_vector);
        },
        Loc::AddrIndDec(..) => {
            assert(m == 512);
            assert(512u32 & 0x3f99u32 != 0) by (bit_vector);
        },
        Loc::AddrIndInc(..) => {
            assert(m == 256);
            assert(256u32 & 0x3f99u32 != 0) by (bit_vector);
        },
    }
}

} // verus!
