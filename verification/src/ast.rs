//! The abstract syntax tree: statements and expressions as parsed.

use vstd::prelude::*;

use vstd::string::*;
use vstd::utf8::encode_scalar;

use crate::mem::{Name, Interner};
use crate::util::text::{decimal, digit_char, hex_upper, push_char, push_decimal, push_hex_upper, push_str};
use crate::pos::Pos;
use crate::types::Type;

verus! {

/// A statement.
#[derive(PartialEq, Eq, Debug)]
pub enum Stmt {
    /// An expression evaluated for its effect.
    Eval(Pos, Box<Expr>),
    /// A type definition: the defined name and the type it stands for.
    TypeDef(Pos, Name, Box<Type>),
}

/// An operator that takes one operand.
#[derive(Clone, Copy, PartialEq, Eq, Structural, Debug)]
pub enum UnaryOp {
    /// `x++`
    Increment,
    /// `x--`
    Decrement,
    /// `!x`
    Clear,
    /// `~x`
    Complement,
    /// `-x`
    Negate,
    /// `x?`
    Test,
}

/// An operator that takes two operands.
#[derive(Clone, Copy, PartialEq, Eq, Structural, Debug)]
pub enum BinaryOp {
    /// `x * y`
    Multiply,
    /// `x / y`
    Divide,
    /// `x % y`
    Modulo,
    /// `x + y`
    Add,
    /// `x - y`
    Subtract,
    /// `x << y`
    ShiftL,
    /// `x >> y`
    ShiftR,
    /// `x & y`
    BitAnd,
    /// `x ^ y`
    BitXor,
    /// `x | y`
    BitOr,
    /// `x .~ y`
    BitChange,
    /// `x .! y`
    BitClear,
    /// `x .= y`
    BitSet,
    /// `x .? y`
    BitTest,
    /// `x <> y`
    Compare,
    /// `x = y`
    Move,
}

/// An expression.
#[derive(PartialEq, Eq, Debug)]
pub enum Expr {
    /// A name.
    Ident(Name),
    /// A string literal.
    Str(String),
    /// An integer literal.
    Int(i128),
    /// An operator applied to one operand.
    Unary(UnaryOp, Box<Expr>),
    /// An operator applied to two operands.
    Binary(BinaryOp, Box<Expr>, Box<Expr>),
}

impl Expr {
    /// Returns a copy of the expression.
    pub fn copy(&self) -> (r: Expr)
        ensures
            r == *self,
        decreases self,
    {
        match self {
            Expr::Ident(n) => Expr::Ident(*n),
            Expr::Str(s) => Expr::Str(s.clone()),
            Expr::Int(i) => Expr::Int(*i),
            Expr::Unary(op, x) => Expr::Unary(*op, Box::new(x.copy())),
            Expr::Binary(op, x, y) => Expr::Binary(*op, Box::new(x.copy()), Box::new(y.copy())),
        }
    }
}

/// A program: a sequence of statements.
pub type Ast = Vec<Stmt>;

// -----------------------------------------------------------------------------
// Formatting

/// The octal escape of a byte: a backslash and three octal digits.
pub open spec fn octal_escape(b: u8) -> Seq<char> {
    seq!['\\', digit_char((b / 64) as nat), digit_char(((b / 8) % 8) as nat), digit_char((b % 8) as nat)]
}

/// The octal escapes of bytes, in order.
pub open spec fn octal_escapes(bs: Seq<u8>) -> Seq<char>
    decreases bs.len(),
{
    if bs.len() == 0 {
        Seq::empty()
    } else {
        octal_escapes(bs.drop_last()) + octal_escape(bs.last())
    }
}

/// How a character is written in a string literal: named escapes for
/// backspace, tab, newline, form feed, carriage return, the double quote
/// and the backslash; printable ASCII as itself; anything else as the octal
/// escapes of its UTF-8 bytes.
pub open spec fn escape_char(c: char) -> Seq<char> {
    if c == '\x08' {
        seq!['\\', 'b']
    } else if c == '\x09' {
        seq!['\\', 't']
    } else if c == '\x0A' {
        seq!['\\', 'n']
    } else if c == '\x0C' {
        seq!['\\', 'f']
    } else if c == '\x0D' {
        seq!['\\', 'r']
    } else if c == '"' {
        seq!['\\', '"']
    } else if c == '\\' {
        seq!['\\', '\\']
    } else if 0x20 <= (c as u32) <= 0x7E {
        seq![c]
    } else {
        octal_escapes(encode_scalar(c as u32))
    }
}

/// The characters of `s`, each escaped.
pub open spec fn escaped(s: Seq<char>) -> Seq<char>
    decreases s.len(),
{
    if s.len() == 0 {
        Seq::empty()
    } else {
        escaped(s.drop_last()) + escape_char(s.last())
    }
}

/// `s` as a string literal: escaped, in double quotes.
pub open spec fn quoted(s: Seq<char>) -> Seq<char> {
    seq!['"'] + escaped(s) + seq!['"']
}

/// How an integer literal is written: in upper-case hexadecimal after `0x`
/// when it is above 9 and fits in 64 unsigned bits, else in decimal.
pub open spec fn int_text(i: int) -> Seq<char> {
    if 9 < i <= u64::MAX {
        seq!['0', 'x'] + hex_upper(i as nat)
    } else if i < 0 {
        seq!['-'] + decimal((-i) as nat)
    } else {
        decimal(i as nat)
    }
}

/// Whether every character of `s` is printable ASCII.
pub open spec fn printable(s: Seq<char>) -> bool {
    forall|i: int| 0 <= i < s.len() ==> 0x20 <= #[trigger] (s[i] as u32) <= 0x7E
}

proof fn lemma_printable_concat(a: Seq<char>, b: Seq<char>)
    requires
        printable(a),
        printable(b),
    ensures
        printable(a + b),
{
    assert forall|i: int| 0 <= i < (a + b).len() implies 0x20 <= #[trigger] ((a + b)[i] as u32)
        <= 0x7E by {
        if i < a.len() {
            assert((a + b)[i] == a[i]);
        } else {
            assert((a + b)[i] == b[i - a.len()]);
        }
    }
}

proof fn lemma_octal_printable(bs: Seq<u8>)
    ensures
        printable(octal_escapes(bs)),
    decreases bs.len(),
{
    if bs.len() > 0 {
        lemma_octal_printable(bs.drop_last());
        let b = bs.last();
        assert(printable(octal_escape(b))) by {
            assert(b / 64 < 8) by (nonlinear_arith)
                requires
                    b < 256,
            ;
        }
        lemma_printable_concat(octal_escapes(bs.drop_last()), octal_escape(b));
    }
}

proof fn lemma_escaped_printable(s: Seq<char>)
    ensures
        printable(escaped(s)),
    decreases s.len(),
{
    if s.len() > 0 {
        lemma_escaped_printable(s.drop_last());
        let c = s.last();
        assert(printable(escape_char(c))) by {
            lemma_octal_printable(encode_scalar(c as u32));
        }
        lemma_printable_concat(escaped(s.drop_last()), escape_char(c));
    }
}

/// A string literal as written holds only printable ASCII characters,
/// whatever the string holds.
pub proof fn law_quoted_printable(s: Seq<char>)
    ensures
        printable(quoted(s)),
{
    lemma_escaped_printable(s);
    lemma_printable_concat(seq!['"'], escaped(s));
    lemma_printable_concat(seq!['"'] + escaped(s), seq!['"']);
}

/// Returns the bytes of the UTF-8 encoding of `c`.
pub fn utf8_bytes(c: char) -> (r: Vec<u8>)
    ensures
        r@ == encode_scalar(c as u32),
{
    let v: u32 = c as u32;
    proof {
        vstd::utf8::char_is_scalar(c);
    }
    if v <= 0x7F {
        vec![(v & 0x7F) as u8]
    } else if v <= 0x7FF {
        vec![0xC0 | ((v >> 6) & 0x1F) as u8, 0x80 | (v & 0x3F) as u8]
    } else if v <= 0xFFFF {
        vec![
            0xE0 | ((v >> 12) & 0x0F) as u8,
            0x80 | ((v >> 6) & 0x3F) as u8,
            0x80 | (v & 0x3F) as u8,
        ]
    } else {
        vec![
            0xF0 | ((v >> 18) & 0x7) as u8,
            0x80 | ((v >> 12) & 0x3F) as u8,
            0x80 | ((v >> 6) & 0x3F) as u8,
            0x80 | (v & 0x3F) as u8,
        ]
    }
}

/// Appends the octal escapes of the UTF-8 bytes of `c`.
pub fn fmt_esc_utf8(c: char, f: &mut String)
    ensures
        final(f)@ == old(f)@ + octal_escapes(encode_scalar(c as u32)),
{
    let buf = utf8_bytes(c);
    let mut i: usize = 0;
    while i < buf.len()
        invariant
            i <= buf.len(),
            buf@ == encode_scalar(c as u32),
            f@ == old(f)@ + octal_escapes(buf@.take(i as int)),
        decreases buf.len() - i,
    {
        let b: u8 = buf[i];
        push_char(f, '\\');
        push_char(f, (48u8 + b / 64) as char);
        push_char(f, (48u8 + (b / 8) % 8) as char);
        push_char(f, (48u8 + b % 8) as char);
        proof {
            assert(buf@.take(i + 1).drop_last() =~= buf@.take(i as int));
        }
        assert(f@ =~= old(f)@ + octal_escapes(buf@.take(i + 1)));
        i = i + 1;
    }
    assert(buf@.take(buf.len() as int) =~= buf@);
}

/// Appends `c` as written in a string literal.
pub fn push_escaped(f: &mut String, c: char)
    ensures
        final(f)@ == old(f)@ + escape_char(c),
{
    if c == '\x08' {
        push_char(f, '\\');
        push_char(f, 'b');
    } else if c == '\x09' {
        push_char(f, '\\');
        push_char(f, 't');
    } else if c == '\x0A' {
        push_char(f, '\\');
        push_char(f, 'n');
    } else if c == '\x0C' {
        push_char(f, '\\');
        push_char(f, 'f');
    } else if c == '\x0D' {
        push_char(f, '\\');
        push_char(f, 'r');
    } else if c == '"' {
        push_char(f, '\\');
        push_char(f, '"');
    } else if c == '\\' {
        push_char(f, '\\');
        push_char(f, '\\');
    } else if 0x20 <= (c as u32) && (c as u32) <= 0x7E {
        push_char(f, c);
    } else {
        fmt_esc_utf8(c, f);
    }
    assert(f@ =~= old(f)@ + escape_char(c));
}

/// Returns `s` as a string literal: in double quotes, with backspace, tab,
/// newline, form feed, carriage return, quote and backslash escaped by
/// name, printable ASCII as is, and every other character as the octal
/// escapes of its UTF-8 bytes.
pub fn fmt_str(s: &str) -> (r: String)
    ensures
        r@ == quoted(s@),
{
    let mut f = String::new();
    push_char(&mut f, '"');
    let n = s.unicode_len();
    let mut i: usize = 0;
    while i < n
        invariant
            n == s@.len(),
            i <= n,
            f@ == seq!['"'] + escaped(s@.take(i as int)),
        decreases n - i,
    {
        let c = s.get_char(i);
        push_escaped(&mut f, c);
        proof {
            assert(s@.take(i + 1).drop_last() =~= s@.take(i as int));
        }
        assert(f@ =~= seq!['"'] + escaped(s@.take(i + 1)));
        i = i + 1;
    }
    push_char(&mut f, '"');
    assert(s@.take(n as int) =~= s@);
    assert(f@ =~= quoted(s@));
    f
}

/// Returns an integer literal as written: `0x` and upper-case hexadecimal
/// digits when above 9 and within 64 unsigned bits, else decimal.
pub fn fmt_int(i: i128) -> (r: String)
    ensures
        r@ == int_text(i as int),
{
    let mut f = String::new();
    if 9 < i && i <= 0xFFFF_FFFF_FFFF_FFFF {
        push_char(&mut f, '0');
        push_char(&mut f, 'x');
        push_hex_upper(&mut f, i as u64);
    } else if i < 0 {
        push_char(&mut f, '-');
        let m: u128 = if i == i128::MIN {
            0x8000_0000_0000_0000_0000_0000_0000_0000u128
        } else {
            (-i) as u128
        };
        push_decimal(&mut f, m);
    } else {
        push_decimal(&mut f, i as u128);
    }
    assert(f@ =~= int_text(i as int));
    f
}

impl Expr {
    /// Whether the expression can be written out: not an operation.
    pub open spec fn is_atom(&self) -> bool {
        !(self is Unary) && !(self is Binary)
    }

    /// How the expression is written, with names from `names`.
    pub open spec fn display_view(&self, names: Seq<Seq<char>>) -> Seq<char> {
        match self {
            Expr::Ident(n) => names[n.0 as int],
            Expr::Str(s) => quoted(s@),
            Expr::Int(i) => int_text(*i as int),
            _ => Seq::empty(),
        }
    }

    /// Returns the expression as written: a name as its text, a string as a
    /// string literal, an integer as `fmt_int` writes it.
    pub fn display_with(&self, names: &Interner) -> (r: String)
        requires
            self.is_atom(),
            self matches Expr::Ident(n) ==> (n.0 as int) < names@.len(),
        ensures
            r@ == self.display_view(names@),
    {
        match self {
            Expr::Ident(n) => {
                let mut f = String::new();
                push_str(&mut f, names.get(*n));
                assert(f@ =~= names@[n.0 as int]);
                f
            },
            Expr::Str(s) => fmt_str(s.as_str()),
            Expr::Int(i) => fmt_int(*i),
            _ => String::new(),
        }
    }
}

} // verus!
