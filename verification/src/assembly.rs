//! Assembly text: labels and instructions, one per line.

use vstd::prelude::*;

use crate::ast::{BinaryOp, Expr};
use crate::mem::Interner;
use crate::util::text::{hex_upper, push_char, push_hex_upper, push_str};

verus! {

/// Assembly source text.
pub struct Assembly(String);

impl View for Assembly {
    type V = Seq<char>;

    closed spec fn view(&self) -> Seq<char> {
        self.0@
    }
}

/// The indentation of an instruction.
pub open spec fn indent() -> Seq<char> {
    seq![' ', ' ', ' ', ' ']
}

/// The operands of an instruction, separated by a comma and a space.
pub open spec fn joined(args: Seq<Seq<char>>) -> Seq<char>
    decreases args.len(),
{
    if args.len() == 0 {
        Seq::empty()
    } else if args.len() == 1 {
        args[0]
    } else {
        joined(args.drop_last()) + seq![',', ' '] + args.last()
    }
}

/// The line of an instruction: indented, the opcode, then the operands
/// after a space, if there are any.
pub open spec fn op_line(op: Seq<char>, args: Seq<Seq<char>>) -> Seq<char> {
    indent() + op + (if args.len() == 0 {
        Seq::empty()
    } else {
        seq![' '] + joined(args)
    }) + seq!['\n']
}

/// The texts of a slice of texts.
pub open spec fn texts(args: Seq<&str>) -> Seq<Seq<char>> {
    args.map_values(|a: &str| a@)
}

impl Assembly {
    /// Returns empty assembly text.
    pub fn new() -> (r: Self)
        ensures
            r@ == Seq::<char>::empty(),
    {
        Assembly(String::new())
    }

    fn push_indent(&mut self)
        ensures
            final(self)@ == old(self)@ + indent(),
    {
        push_char(&mut self.0, ' ');
        push_char(&mut self.0, ' ');
        push_char(&mut self.0, ' ');
        push_char(&mut self.0, ' ');
        assert(self@ =~= old(self)@ + indent());
    }

    /// Ends the line.
    pub fn write_line(&mut self)
        ensures
            final(self)@ == old(self)@ + seq!['\n'],
    {
        push_char(&mut self.0, '\n');
    }

    /// Writes a label line: the name and a colon.
    pub fn write_label(&mut self, name: &str)
        ensures
            final(self)@ == old(self)@ + name@ + seq![':', '\n'],
    {
        push_str(&mut self.0, name);
        push_char(&mut self.0, ':');
        push_char(&mut self.0, '\n');
        assert(self@ =~= old(self)@ + name@ + seq![':', '\n']);
    }

    /// Writes an instruction with no operands.
    pub fn write_op_0(&mut self, op: &str)
        ensures
            final(self)@ == old(self)@ + op_line(op@, seq![]),
    {
        self.push_indent();
        push_str(&mut self.0, op);
        push_char(&mut self.0, '\n');
        assert(self@ =~= old(self)@ + op_line(op@, seq![]));
    }

    /// Writes an instruction with one operand.
    pub fn write_op_1(&mut self, op: &str, a: &str)
        ensures
            final(self)@ == old(self)@ + op_line(op@, seq![a@]),
    {
        self.push_indent();
        push_str(&mut self.0, op);
        push_char(&mut self.0, ' ');
        push_str(&mut self.0, a);
        push_char(&mut self.0, '\n');
        assert(joined(seq![a@]) == a@);
        assert(self@ =~= old(self)@ + op_line(op@, seq![a@]));
    }

    /// Writes an instruction with two operands.
    pub fn write_op_2(&mut self, op: &str, a: &str, b: &str)
        ensures
            final(self)@ == old(self)@ + op_line(op@, seq![a@, b@]),
    {
        self.push_indent();
        push_str(&mut self.0, op);
        push_char(&mut self.0, ' ');
        push_str(&mut self.0, a);
        push_char(&mut self.0, ',');
        push_char(&mut self.0, ' ');
        push_str(&mut self.0, b);
        push_char(&mut self.0, '\n');
        assert(seq![a@, b@].drop_last() =~= seq![a@]);
        assert(joined(seq![a@]) == a@);
        assert(self@ =~= old(self)@ + op_line(op@, seq![a@, b@]));
    }

    /// Writes an instruction with three operands.
    pub fn write_op_3(&mut self, op: &str, a: &str, b: &str, c: &str)
        ensures
            final(self)@ == old(self)@ + op_line(op@, seq![a@, b@, c@]),
    {
        self.push_indent();
        push_str(&mut self.0, op);
        push_char(&mut self.0, ' ');
        push_str(&mut self.0, a);
        push_char(&mut self.0, ',');
        push_char(&mut self.0, ' ');
        push_str(&mut self.0, b);
        push_char(&mut self.0, ',');
        push_char(&mut self.0, ' ');
        push_str(&mut self.0, c);
        push_char(&mut self.0, '\n');
        proof {
            law_op_lines_agree(op@, a@, b@, c@);
        }
        assert(self@ =~= old(self)@ + op_line(op@, seq![a@, b@, c@]));
    }

    /// Writes an instruction with any number of operands.
    pub fn write_op_n(&mut self, op: &str, args: &[&str])
        ensures
            final(self)@ == old(self)@ + op_line(op@, texts(args@)),
    {
        let ghost t = texts(args@);
        if args.len() == 0 {
            assert(t =~= seq![]);
            self.write_op_0(op)
        } else if args.len() == 1 {
            assert(t =~= seq![args[0]@]);
            self.write_op_1(op, args[0])
        } else if args.len() == 2 {
            assert(t =~= seq![args[0]@, args[1]@]);
            self.write_op_2(op, args[0], args[1])
        } else if args.len() == 3 {
            assert(t =~= seq![args[0]@, args[1]@, args[2]@]);
            self.write_op_3(op, args[0], args[1], args[2])
        } else {
            self.push_indent();
            push_str(&mut self.0, op);
            push_char(&mut self.0, ' ');
            push_str(&mut self.0, args[0]);
            assert(t.take(1) =~= seq![args[0]@]);
            let mut i: usize = 1;
            while i < args.len()
                invariant
                    1 <= i <= args.len(),
                    t == texts(args@),
                    self@ == old(self)@ + indent() + op@ + seq![' '] + joined(t.take(i as int)),
                decreases args.len() - i,
            {
                push_char(&mut self.0, ',');
                push_char(&mut self.0, ' ');
                push_str(&mut self.0, args[i]);
                assert(t.take(i + 1).drop_last() =~= t.take(i as int));
                assert(self@ =~= old(self)@ + indent() + op@ + seq![' '] + joined(t.take(i + 1)));
                i = i + 1;
            }
            assert(t.take(args.len() as int) =~= t);
            self.write_line();
            assert(self@ =~= old(self)@ + op_line(op@, t));
        }
    }

    /// Removes all text.
    pub fn clear(&mut self)
        ensures
            final(self)@ == Seq::<char>::empty(),
    {
        self.0 = String::new();
    }

    /// Returns the text.
    pub fn as_str(&self) -> (r: &str)
        ensures
            r@ == self@,
    {
        self.0.as_str()
    }
}

/// Writing an instruction with up to three operands is writing it with
/// the operands as a list.
pub proof fn law_op_lines_agree(op: Seq<char>, a: Seq<char>, b: Seq<char>, c: Seq<char>)
    ensures
        op_line(op, seq![a]) == indent() + op + seq![' '] + a + seq!['\n'],
        op_line(op, seq![a, b]) == indent() + op + seq![' '] + a + seq![',', ' '] + b + seq!['\n'],
        op_line(op, seq![a, b, c]) == indent() + op + seq![' '] + a + seq![',', ' '] + b + seq![
            ',',
            ' ',
        ] + c + seq!['\n'],
{
    assert(seq![a, b].drop_last() =~= seq![a]);
    assert(seq![a, b, c].drop_last() =~= seq![a, b]);
    assert(joined(seq![a]) == a);
    assert(joined(seq![a, b]) == a + seq![',', ' '] + b);
    assert(joined(seq![a, b, c]) == a + seq![',', ' '] + b + seq![',', ' '] + c);
    assert(op_line(op, seq![a]) =~= indent() + op + seq![' '] + a + seq!['\n']);
    assert(op_line(op, seq![a, b]) =~= indent() + op + seq![' '] + a + seq![',', ' '] + b + seq![
        '\n',
    ]);
    assert(op_line(op, seq![a, b, c]) =~= indent() + op + seq![' '] + a + seq![',', ' '] + b
        + seq![',', ' '] + c + seq!['\n']);
}

// -----------------------------------------------------------------------------
// Flavors of assembly syntax

/// How integers are written.
#[derive(Clone, Copy, PartialEq, Eq, Structural, Debug)]
pub enum IntStyle {
    /// `0xFF`
    C,
    /// `0FFh`
    Intel,
    /// `$FF`
    Moto,
}

/// How registers are written.
#[derive(Clone, Copy, PartialEq, Eq, Structural, Debug)]
pub enum RegStyle {
    /// `%r0`
    Att,
}

/// How immediate values are written.
#[derive(Clone, Copy, PartialEq, Eq, Structural, Debug)]
pub enum ImmStyle {
    /// `#v`
    Att,
    /// `$v`
    Dollar,
}

/// A flavor of assembly syntax.
#[derive(Clone, Copy, PartialEq, Eq, Structural, Debug)]
pub struct AsmFlavor {
    /// How integers are written.
    pub fmt_int: IntStyle,
    /// How registers are written.
    pub fmt_reg: RegStyle,
    /// How immediate values are written.
    pub fmt_imm: ImmStyle,
}

/// The syntax of the GNU assembler.
pub fn gas_flavor() -> (r: AsmFlavor)
    ensures
        r == (AsmFlavor { fmt_int: IntStyle::C, fmt_reg: RegStyle::Att, fmt_imm: ImmStyle::Att }),
{
    AsmFlavor { fmt_int: IntStyle::C, fmt_reg: RegStyle::Att, fmt_imm: ImmStyle::Att }
}

/// The Motorola syntax of vasm.
pub fn vasm_mot_flavor() -> (r: AsmFlavor)
    ensures
        r == (AsmFlavor { fmt_int: IntStyle::Moto, fmt_reg: RegStyle::Att, fmt_imm: ImmStyle::Att }),
{
    AsmFlavor { fmt_int: IntStyle::Moto, fmt_reg: RegStyle::Att, fmt_imm: ImmStyle::Att }
}

/// The upper-case hexadecimal digits of an integer, after a minus sign if
/// it is negative.
pub open spec fn signed_hex(n: int) -> Seq<char> {
    if n < 0 {
        seq!['-'] + hex_upper((-n) as nat)
    } else {
        hex_upper(n as nat)
    }
}

/// An integer as a flavor of syntax writes it.
pub open spec fn int_in_style(style: IntStyle, n: int) -> Seq<char> {
    match style {
        IntStyle::C => seq!['0', 'x'] + signed_hex(n),
        IntStyle::Intel => seq!['0'] + signed_hex(n) + seq!['h'],
        IntStyle::Moto => seq!['$'] + signed_hex(n),
    }
}

/// Appends the upper-case hexadecimal digits of `n`, after a minus sign if
/// it is negative.
fn push_signed_hex(f: &mut String, n: i128)
    ensures
        final(f)@ == old(f)@ + signed_hex(n as int),
{
    if n < 0 {
        push_char(f, '-');
        let m: u128 = if n == i128::MIN {
            0x8000_0000_0000_0000_0000_0000_0000_0000u128
        } else {
            (-n) as u128
        };
        push_hex_wide(f, m);
    } else {
        push_hex_wide(f, n as u128);
    }
    assert(f@ =~= old(f)@ + signed_hex(n as int));
}

/// Appends the upper-case hexadecimal representation of `n`.
fn push_hex_wide(f: &mut String, n: u128)
    ensures
        final(f)@ == old(f)@ + hex_upper(n as nat),
    decreases n,
{
    if n >= 16 {
        push_hex_wide(f, n / 16);
    }
    let d: u8 = (n % 16) as u8;
    let c: u8 = if d < 10 {
        48u8 + d
    } else {
        55u8 + d
    };
    push_char(f, c as char);
    assert(f@ =~= old(f)@ + hex_upper(n as nat));
}

/// Appends `s` as it is.
pub fn fmt_raw(f: &mut String, s: &str)
    ensures
        final(f)@ == old(f)@ + s@,
{
    push_str(f, s);
}

/// Appends `n` as C writes it: `0xFF`.
pub fn fmt_int_c(f: &mut String, n: i128)
    ensures
        final(f)@ == old(f)@ + int_in_style(IntStyle::C, n as int),
{
    push_char(f, '0');
    push_char(f, 'x');
    push_signed_hex(f, n);
    assert(f@ =~= old(f)@ + int_in_style(IntStyle::C, n as int));
}

/// Appends `n` as Intel writes it: `0FFh`.
pub fn fmt_int_intel(f: &mut String, n: i128)
    ensures
        final(f)@ == old(f)@ + int_in_style(IntStyle::Intel, n as int),
{
    push_char(f, '0');
    push_signed_hex(f, n);
    push_char(f, 'h');
    assert(f@ =~= old(f)@ + int_in_style(IntStyle::Intel, n as int));
}

/// Appends `n` as Motorola writes it: `$FF`.
pub fn fmt_int_moto(f: &mut String, n: i128)
    ensures
        final(f)@ == old(f)@ + int_in_style(IntStyle::Moto, n as int),
{
    push_char(f, '$');
    push_signed_hex(f, n);
    assert(f@ =~= old(f)@ + int_in_style(IntStyle::Moto, n as int));
}

/// Appends a register as AT&T writes it: `%r0`.
pub fn fmt_reg_att(f: &mut String, r: &str)
    ensures
        final(f)@ == old(f)@ + seq!['%'] + r@,
{
    push_char(f, '%');
    push_str(f, r);
}

/// An expression as a flavor of syntax writes it, where the flavor can:
/// names by their text in `names`, integers in the flavor's style, and sums
/// in parentheses.
pub open spec fn expr_in_flavor(e: Expr, a: AsmFlavor, names: Seq<Seq<char>>) -> Option<Seq<char>>
    decreases e,
{
    match e {
        Expr::Ident(n) => if n.0 < names.len() {
            Some(names[n.0 as int])
        } else {
            None
        },
        Expr::Int(n) => Some(int_in_style(a.fmt_int, n as int)),
        Expr::Binary(BinaryOp::Add, l, r) => match (
            expr_in_flavor(*l, a, names),
            expr_in_flavor(*r, a, names),
        ) {
            (Some(x), Some(y)) => Some(seq!['('] + x + seq![' ', '+', ' '] + y + seq![')']),
            _ => None,
        },
        _ => None,
    }
}

/// The number of nodes of an expression.
pub open spec fn expr_size(e: Expr) -> nat
    decreases e,
{
    match e {
        Expr::Unary(_, x) => 1 + expr_size(*x),
        Expr::Binary(_, x, y) => 1 + expr_size(*x) + expr_size(*y),
        _ => 1,
    }
}

/// Whether the flavor can write the expression.
pub fn writable(e: &Expr, a: &AsmFlavor, names: &Interner) -> (r: bool)
    ensures
        r == expr_in_flavor(*e, *a, names@) is Some,
    decreases e,
{
    match e {
        Expr::Ident(n) => n.0 < names.len(),
        Expr::Int(_) => true,
        Expr::Binary(BinaryOp::Add, l, r) => writable(l, a, names) && writable(r, a, names),
        _ => false,
    }
}

/// Appends an expression as the flavor writes it; `Err`, writing nothing,
/// where it cannot.
pub fn fmt_expr(e: &Expr, f: &mut String, a: &AsmFlavor, names: &Interner) -> (r: Result<(), ()>)
    ensures
        match expr_in_flavor(*e, *a, names@) {
            Some(t) => r is Ok && final(f)@ == old(f)@ + t,
            None => r is Err && final(f)@ == old(f)@,
        },
    decreases expr_size(*e), 1nat,
{
    match e {
        Expr::Ident(n) => {
            if n.0 < names.len() {
                push_str(f, names.get(*n));
                Ok(())
            } else {
                Err(())
            }
        },
        Expr::Int(n) => {
            match a.fmt_int {
                IntStyle::C => fmt_int_c(f, *n),
                IntStyle::Intel => fmt_int_intel(f, *n),
                IntStyle::Moto => fmt_int_moto(f, *n),
            }
            Ok(())
        },
        Expr::Binary(BinaryOp::Add, l, r) => {
            fmt_op_add(l, r, f, a, names)
        },
        _ => Err(()),
    }
}

/// Appends a sum as the flavor writes it: `(lhs + rhs)`; `Err`, writing
/// nothing, where it cannot write an operand.
pub fn fmt_op_add(lhs: &Expr, rhs: &Expr, f: &mut String, a: &AsmFlavor, names: &Interner) -> (r:
    Result<(), ()>)
    ensures
        match (expr_in_flavor(*lhs, *a, names@), expr_in_flavor(*rhs, *a, names@)) {
            (Some(x), Some(y)) => r is Ok && final(f)@ == old(f)@ + seq!['('] + x + seq![' ', '+', ' ']
                + y + seq![')'],
            _ => r is Err && final(f)@ == old(f)@,
        },
    decreases expr_size(*lhs) + expr_size(*rhs) + 1, 0nat,
{
    if !writable(lhs, a, names) || !writable(rhs, a, names) {
        return Err(());
    }
    push_char(f, '(');
    let _ = fmt_expr(lhs, f, a, names);
    push_char(f, ' ');
    push_char(f, '+');
    push_char(f, ' ');
    let _ = fmt_expr(rhs, f, a, names);
    push_char(f, ')');
    assert(f@ =~= old(f)@ + seq!['('] + expr_in_flavor(*lhs, *a, names@).unwrap() + seq![
        ' ',
        '+',
        ' ',
    ] + expr_in_flavor(*rhs, *a, names@).unwrap() + seq![')']);
    Ok(())
}

/// Appends an immediate value as AT&T writes it: `#` and the value.
pub fn fmt_imm_att(v: &Expr, f: &mut String, a: &AsmFlavor, names: &Interner) -> (r: Result<(), ()>)
    ensures
        match expr_in_flavor(*v, *a, names@) {
            Some(t) => r is Ok && final(f)@ == old(f)@ + seq!['#'] + t,
            None => r is Err && final(f)@ == old(f)@,
        },
{
    if !writable(v, a, names) {
        return Err(());
    }
    push_char(f, '#');
    let r = fmt_expr(v, f, a, names);
    assert(f@ =~= old(f)@ + seq!['#'] + expr_in_flavor(*v, *a, names@).unwrap());
    r
}

/// Appends an immediate value with a dollar sign: `$` and the value.
pub fn fmt_imm_dollar(v: &Expr, f: &mut String, a: &AsmFlavor, names: &Interner) -> (r: Result<(), ()>)
    ensures
        match expr_in_flavor(*v, *a, names@) {
            Some(t) => r is Ok && final(f)@ == old(f)@ + seq!['$'] + t,
            None => r is Err && final(f)@ == old(f)@,
        },
{
    if !writable(v, a, names) {
        return Err(());
    }
    push_char(f, '$');
    let r = fmt_expr(v, f, a, names);
    assert(f@ =~= old(f)@ + seq!['$'] + expr_in_flavor(*v, *a, names@).unwrap());
    r
}

} // verus!
