//! Tokens of the lexer, and the builder that accumulates their characters,
//! numbers and positions.

use vstd::prelude::*;
use vstd::string::*;

use crate::mem::{Interner, Name};
use crate::operator::{str_eq, OperatorTable};
use crate::pos::{Pos, Source};
use crate::util::text::{push_char, utf8_len};

verus! {

/// A token.
#[derive(Clone, Copy, PartialEq, Eq, Structural, Debug)]
pub enum Token {
    /// Identifier.
    Id(Name),
    /// Condition flag.
    Flag(Name),
    /// Literal: integer.
    Int(u128),
    /// Literal: character.
    Char(char),
    /// Literal: string.
    Str(Name),
    /// Keyword: type
    KwType,
    /// Keyword: struct
    KwStruct,
    /// Keyword: union
    KwUnion,
    /// Keyword: if
    KwIf,
    /// Keyword: else
    KwElse,
    /// Keyword: loop
    KwLoop,
    /// Keyword: while
    KwWhile,
    /// Keyword: break
    KwBreak,
    /// Keyword: continue
    KwContinue,
    /// Keyword: return
    KwReturn,
    /// Keyword: jump
    KwJump,
    /// `{`
    BraceL,
    /// `}`
    BraceR,
    /// `(`
    ParenL,
    /// `)`
    ParenR,
    /// `[`
    BracketL,
    /// `]`
    BracketR,
    /// `:`
    Colon,
    /// `,`
    Comma,
    /// An operator, by its interned characters.
    Op(Name),
    /// End of statement.
    Eos,
    /// End of file.
    Eof,
    /// Lexical error.
    Error,
}

/// The state of a compilation that lexing shares: the interned strings, the
/// operators, and the errors reported.
pub struct Compiler {
    /// The interned strings.
    pub strings: Interner,
    /// The operators of the language.
    pub operators: OperatorTable,
    /// The errors reported, with where they were found.
    pub log: Vec<(LexError, Source)>,
}

impl Compiler {
    /// A compilation with no strings, no operators and no errors.
    pub fn new() -> (r: Self)
        ensures
            r.strings@ == Seq::<Seq<char>>::empty(),
            r.strings.wf(),
            r.operators.wf(),
            forall|chars: Seq<char>| r.operators.entry(chars) is None,
            r.log@ == Seq::<(LexError, Source)>::empty(),
    {
        Compiler { strings: Interner::new(), operators: OperatorTable::new(), log: Vec::new() }
    }
}

/// A lexical error.
#[derive(Clone, Copy, PartialEq, Eq, Structural, Debug)]
pub enum LexError {
    /// An unrecognized character.
    Unrec(char),
    /// An unrecognized character in a number.
    UnrecNum(char),
    /// An unrecognized escape.
    UnrecEsc(char),
    /// An unterminated character literal.
    UntermChar,
    /// An unterminated string literal.
    UntermStr,
    /// An unterminated escape.
    UntermEsc,
    /// A character literal not of one character.
    LengthChar,
    /// An escape beyond the Unicode scalar values.
    OverflowEsc,
}

/// The greatest Unicode code point.
pub const UNICODE_MAX: u32 = 0x10FFFF;

/// Calls `char::from_u32`, which gives the character of a Unicode scalar
/// value and `None` for any other number (surrogates and numbers beyond
/// `0x10FFFF`).
#[verifier::external_body]
fn char_from_u32(n: u32) -> (r: Option<char>)
    ensures
        r is Some <==> vstd::utf8::is_scalar(n),
        r matches Some(c) ==> c as u32 == n,
{
    char::from_u32(n)
}

/// The keywords and their tokens.
pub open spec fn keyword_spec(s: Seq<char>) -> Option<Token> {
    if s == "type"@ {
        Some(Token::KwType)
    } else if s == "struct"@ {
        Some(Token::KwStruct)
    } else if s == "union"@ {
        Some(Token::KwUnion)
    } else if s == "if"@ {
        Some(Token::KwIf)
    } else if s == "else"@ {
        Some(Token::KwElse)
    } else if s == "loop"@ {
        Some(Token::KwLoop)
    } else if s == "while"@ {
        Some(Token::KwWhile)
    } else if s == "break"@ {
        Some(Token::KwBreak)
    } else if s == "continue"@ {
        Some(Token::KwContinue)
    } else if s == "return"@ {
        Some(Token::KwReturn)
    } else if s == "jump"@ {
        Some(Token::KwJump)
    } else {
        None
    }
}

/// Returns the keyword token that `s` spells, if any.
pub fn keywords(s: &str) -> (r: Option<Token>)
    ensures
        r == keyword_spec(s@),
{
    if str_eq(s, "type") {
        Some(Token::KwType)
    } else if str_eq(s, "struct") {
        Some(Token::KwStruct)
    } else if str_eq(s, "union") {
        Some(Token::KwUnion)
    } else if str_eq(s, "if") {
        Some(Token::KwIf)
    } else if str_eq(s, "else") {
        Some(Token::KwElse)
    } else if str_eq(s, "loop") {
        Some(Token::KwLoop)
    } else if str_eq(s, "while") {
        Some(Token::KwWhile)
    } else if str_eq(s, "break") {
        Some(Token::KwBreak)
    } else if str_eq(s, "continue") {
        Some(Token::KwContinue)
    } else if str_eq(s, "return") {
        Some(Token::KwReturn)
    } else if str_eq(s, "jump") {
        Some(Token::KwJump)
    } else {
        None
    }
}

/// The value of a decimal digit character.
pub open spec fn digit_value(c: char) -> int {
    (c as u32) as int - 0x30
}

/// Accumulates the parts of a token while the lexer reads it.
pub struct TokenBuilder<'a> {
    start: Pos,
    current: Pos,
    number: u128,
    buffer: String,
    strings: &'a mut Interner,
    log: Vec<(LexError, Source)>,
}

impl<'a> TokenBuilder<'a> {
    /// Where the token starts.
    pub closed spec fn start_pos(&self) -> Pos {
        self.start
    }

    /// The position of the current character.
    pub closed spec fn current_pos(&self) -> Pos {
        self.current
    }

    /// The number accumulated.
    pub closed spec fn number(&self) -> u128 {
        self.number
    }

    /// The characters accumulated.
    pub closed spec fn buffer(&self) -> Seq<char> {
        self.buffer@
    }

    /// The interned strings.
    pub closed spec fn strings(&self) -> Seq<Seq<char>> {
        self.strings@
    }

    /// The errors reported, with where they were found.
    pub closed spec fn log(&self) -> Seq<(LexError, Source)> {
        self.log@
    }

    /// The token starts no later than the current character, in the same
    /// file, and the interned strings are each stored once.
    pub closed spec fn wf(&self) -> bool {
        &&& self.start.file == self.current.file
        &&& self.start.byte <= self.current.byte
        &&& self.strings.wf()
    }

    /// The source of the token so far: from its start to the current
    /// character.
    pub open spec fn source_spec(&self) -> Source {
        Source::File {
            pos: self.start_pos(),
            len: (self.current_pos().byte - self.start_pos().byte) as usize,
        }
    }

    /// A builder at the beginning of the file named `file`.
    pub fn new(file: Name, strings: &'a mut Interner) -> (r: Self)
        requires
            old(strings).wf(),
        ensures
            r.wf(),
            r.start_pos() == (Pos { file, byte: 0, line: 1, column: 1 }),
            r.current_pos() == (Pos { file, byte: 0, line: 1, column: 1 }),
            r.number() == 0,
            r.buffer() == Seq::<char>::empty(),
            r.strings() == old(strings)@,
            r.log() == Seq::<(LexError, Source)>::empty(),
    {
        TokenBuilder {
            start: Pos::bof(file),
            current: Pos::bof(file),
            number: 0,
            buffer: String::new(),
            strings,
            log: Vec::new(),
        }
    }

    // Position actions

    /// Starts a token at the current character.
    pub fn start(&mut self)
        requires
            old(self).wf(),
        ensures
            final(self).wf(),
            final(self).start_pos() == old(self).current_pos(),
            final(self).current_pos() == old(self).current_pos(),
            final(self).number() == old(self).number(),
            final(self).buffer() == old(self).buffer(),
            final(self).strings() == old(self).strings(),
            final(self).log() == old(self).log(),
    {
        self.start = self.current;
    }

    /// Moves past the character `c` on the current line.
    pub fn advance(&mut self, c: char)
        requires
            old(self).wf(),
            old(self).current_pos().byte + utf8_len(c) <= usize::MAX,
            old(self).current_pos().column < u32::MAX,
        ensures
            final(self).wf(),
            final(self).start_pos() == old(self).start_pos(),
            final(self).current_pos() == (Pos {
                file: old(self).current_pos().file,
                byte: (old(self).current_pos().byte + utf8_len(c)) as usize,
                line: old(self).current_pos().line,
                column: (old(self).current_pos().column + 1) as u32,
            }),
            final(self).number() == old(self).number(),
            final(self).buffer() == old(self).buffer(),
            final(self).strings() == old(self).strings(),
            final(self).log() == old(self).log(),
    {
        self.current.advance(c);
    }

    /// Moves to the start of the next line.
    pub fn newline(&mut self)
        requires
            old(self).wf(),
            old(self).current_pos().line < u32::MAX,
        ensures
            final(self).wf(),
            final(self).start_pos() == old(self).start_pos(),
            final(self).current_pos() == (Pos {
                line: (old(self).current_pos().line + 1) as u32,
                column: 1,
                ..old(self).current_pos()
            }),
            final(self).number() == old(self).number(),
            final(self).buffer() == old(self).buffer(),
            final(self).strings() == old(self).strings(),
            final(self).log() == old(self).log(),
    {
        self.current.newline();
    }

    /// Returns the source of the token so far.
    pub fn source(&self) -> (r: Source)
        requires
            self.wf(),
        ensures
            r == self.source_spec(),
    {
        let len = self.current.byte - self.start.byte;
        Source::File { pos: self.start, len }
    }

    // Number actions

    /// Appends the digit `digit` to the number in base `base`.
    fn add_num(&mut self, base: u8, digit: u8)
        requires
            old(self).number() * base + digit <= u128::MAX,
        ensures
            final(self).number() == old(self).number() * base + digit,
            final(self).start_pos() == old(self).start_pos(),
            final(self).current_pos() == old(self).current_pos(),
            final(self).buffer() == old(self).buffer(),
            final(self).strings() == old(self).strings(),
            final(self).log() == old(self).log(),
            final(self).wf() == old(self).wf(),
    {
        proof {
            assert(self.number * (base as u128) <= u128::MAX) by (nonlinear_arith)
                requires
                    self.number * base + digit <= u128::MAX,
                    digit >= 0,
            ;
        }
        self.number = self.number * (base as u128) + (digit as u128);
    }

    /// Appends a decimal digit.
    pub fn add_dec(&mut self, c: char)
        requires
            0x30 <= c as u32 <= 0x39,
            old(self).number() * 10 + digit_value(c) <= u128::MAX,
        ensures
            final(self).number() == old(self).number() * 10 + digit_value(c),
            final(self).start_pos() == old(self).start_pos(),
            final(self).current_pos() == old(self).current_pos(),
            final(self).buffer() == old(self).buffer(),
            final(self).strings() == old(self).strings(),
            final(self).log() == old(self).log(),
            final(self).wf() == old(self).wf(),
    {
        self.add_num(10, int_from_dg(c))
    }

    /// Appends a hexadecimal digit from `0` to `9`.
    pub fn add_hex_dg(&mut self, c: char)
        requires
            0x30 <= c as u32 <= 0x39,
            old(self).number() * 16 + digit_value(c) <= u128::MAX,
        ensures
            final(self).number() == old(self).number() * 16 + digit_value(c),
            final(self).start_pos() == old(self).start_pos(),
            final(self).current_pos() == old(self).current_pos(),
            final(self).buffer() == old(self).buffer(),
            final(self).strings() == old(self).strings(),
            final(self).log() == old(self).log(),
            final(self).wf() == old(self).wf(),
    {
        self.add_num(16, int_from_dg(c))
    }

    /// Appends a hexadecimal digit from `A` to `F`.
    pub fn add_hex_uc(&mut self, c: char)
        requires
            0x41 <= c as u32 <= 0x46,
            old(self).number() * 16 + (c as u32 - 0x37) <= u128::MAX,
        ensures
            final(self).number() == old(self).number() * 16 + (c as u32 - 0x37),
            final(self).start_pos() == old(self).start_pos(),
            final(self).current_pos() == old(self).current_pos(),
            final(self).buffer() == old(self).buffer(),
            final(self).strings() == old(self).strings(),
            final(self).log() == old(self).log(),
            final(self).wf() == old(self).wf(),
    {
        self.add_num(16, int_from_hex_uc(c))
    }

    /// Appends a hexadecimal digit from `a` to `f`.
    pub fn add_hex_lc(&mut self, c: char)
        requires
            0x61 <= c as u32 <= 0x66,
            old(self).number() * 16 + (c as u32 - 0x57) <= u128::MAX,
        ensures
            final(self).number() == old(self).number() * 16 + (c as u32 - 0x57),
            final(self).start_pos() == old(self).start_pos(),
            final(self).current_pos() == old(self).current_pos(),
            final(self).buffer() == old(self).buffer(),
            final(self).strings() == old(self).strings(),
            final(self).log() == old(self).log(),
            final(self).wf() == old(self).wf(),
    {
        self.add_num(16, int_from_hex_lc(c))
    }

    /// Appends an octal digit.
    pub fn add_oct(&mut self, c: char)
        requires
            0x30 <= c as u32 <= 0x37,
            old(self).number() * 8 + digit_value(c) <= u128::MAX,
        ensures
            final(self).number() == old(self).number() * 8 + digit_value(c),
            final(self).start_pos() == old(self).start_pos(),
            final(self).current_pos() == old(self).current_pos(),
            final(self).buffer() == old(self).buffer(),
            final(self).strings() == old(self).strings(),
            final(self).log() == old(self).log(),
            final(self).wf() == old(self).wf(),
    {
        self.add_num(8, int_from_dg(c))
    }

    /// Appends a binary digit.
    pub fn add_bin(&mut self, c: char)
        requires
            0x30 <= c as u32 <= 0x31,
            old(self).number() * 2 + digit_value(c) <= u128::MAX,
        ensures
            final(self).number() == old(self).number() * 2 + digit_value(c),
            final(self).start_pos() == old(self).start_pos(),
            final(self).current_pos() == old(self).current_pos(),
            final(self).buffer() == old(self).buffer(),
            final(self).strings() == old(self).strings(),
            final(self).log() == old(self).log(),
            final(self).wf() == old(self).wf(),
    {
        self.add_num(2, int_from_dg(c))
    }

    /// Returns the number accumulated as a token, and starts a new number.
    pub fn get_num(&mut self) -> (r: Token)
        ensures
            r == Token::Int(old(self).number()),
            final(self).number() == 0,
            final(self).start_pos() == old(self).start_pos(),
            final(self).current_pos() == old(self).current_pos(),
            final(self).buffer() == old(self).buffer(),
            final(self).strings() == old(self).strings(),
            final(self).log() == old(self).log(),
            final(self).wf() == old(self).wf(),
    {
        let number = self.number;
        self.number = 0;
        Token::Int(number)
    }

    // Character/String Actions

    /// Appends a character.
    pub fn add_char(&mut self, c: char)
        ensures
            final(self).buffer() == old(self).buffer().push(c),
            final(self).number() == old(self).number(),
            final(self).start_pos() == old(self).start_pos(),
            final(self).current_pos() == old(self).current_pos(),
            final(self).strings() == old(self).strings(),
            final(self).log() == old(self).log(),
            final(self).wf() == old(self).wf(),
    {
        push_char(&mut self.buffer, c);
    }

    /// Appends the character whose code is the number accumulated, and
    /// starts a new number; an error token, and the number kept, if the
    /// number is no Unicode scalar value.
    pub fn add_esc(&mut self) -> (r: Option<Token>)
        requires
            old(self).wf(),
        ensures
            final(self).wf(),
            final(self).start_pos() == old(self).start_pos(),
            final(self).current_pos() == old(self).current_pos(),
            final(self).strings() == old(self).strings(),
            if old(self).number() <= UNICODE_MAX && vstd::utf8::is_scalar(old(self).number() as u32) {
                &&& r is None
                &&& final(self).buffer().len() == old(self).buffer().len() + 1
                &&& final(self).buffer().drop_last() == old(self).buffer()
                &&& final(self).buffer().last() as u32 == old(self).number()
                &&& final(self).number() == 0
                &&& final(self).log() == old(self).log()
            } else {
                &&& r == Some(Token::Error)
                &&& final(self).buffer() == old(self).buffer()
                &&& final(self).number() == old(self).number()
                &&& final(self).log() == old(self).log().push(
                    (LexError::OverflowEsc, old(self).source_spec()),
                )
            },
    {
        if self.number <= UNICODE_MAX as u128 {
            let n: u32 = self.number as u32;
            match char_from_u32(n) {
                Some(c) => {
                    push_char(&mut self.buffer, c);
                    self.number = 0;
                    return None;
                },
                None => {},
            }
        }
        Some(self.err_overflow_esc())
    }

    /// Interns the characters accumulated, and starts a new string.
    fn intern_str(&mut self) -> (r: Name)
        requires
            old(self).wf(),
        ensures
            final(self).wf(),
            r.0 == old(self).strings.name_for(old(self).buffer()),
            final(self).strings() == (if old(self).strings().contains(old(self).buffer()) {
                old(self).strings()
            } else {
                old(self).strings().push(old(self).buffer())
            }),
            final(self).strings()[r.0 as int] == old(self).buffer(),
            final(self).buffer() == Seq::<char>::empty(),
            final(self).number() == old(self).number(),
            final(self).start_pos() == old(self).start_pos(),
            final(self).current_pos() == old(self).current_pos(),
            final(self).log() == old(self).log(),
    {
        let s = self.strings.intern(self.buffer.as_str());
        proof {
            let b = old(self).buffer();
            let before = old(self).strings();
            if before.contains(b) {
                let k = choose|k: int| 0 <= k < before.len() && before[k] == b;
                assert(0 <= k < before.len() && before[k] == b);
            }
        }
        self.buffer = String::new();
        s
    }

    /// Returns the first character accumulated as a token, and starts a new
    /// string.
    pub fn get_char(&mut self) -> (r: Token)
        requires
            old(self).buffer().len() > 0,
        ensures
            r == Token::Char(old(self).buffer()[0]),
            final(self).buffer() == Seq::<char>::empty(),
            final(self).number() == old(self).number(),
            final(self).start_pos() == old(self).start_pos(),
            final(self).current_pos() == old(self).current_pos(),
            final(self).strings() == old(self).strings(),
            final(self).log() == old(self).log(),
            final(self).wf() == old(self).wf(),
    {
        let c = self.buffer.as_str().get_char(0);
        self.buffer = String::new();
        Token::Char(c)
    }

    /// Returns the characters accumulated, interned, as a string token, and
    /// starts a new string.
    pub fn get_str(&mut self) -> (r: Token)
        requires
            old(self).wf(),
        ensures
            final(self).wf(),
            r matches Token::Str(n) && final(self).strings()[n.0 as int] == old(self).buffer(),
            final(self).buffer() == Seq::<char>::empty(),
            final(self).strings() == (if old(self).strings().contains(old(self).buffer()) {
                old(self).strings()
            } else {
                old(self).strings().push(old(self).buffer())
            }),
    {
        Token::Str(self.intern_str())
    }

    /// Returns the keyword that the characters accumulated spell, or else
    /// them, interned, as an identifier; starts a new string.
    pub fn get_id_or_keyword(&mut self) -> (r: Token)
        requires
            old(self).wf(),
        ensures
            final(self).wf(),
            final(self).buffer() == Seq::<char>::empty(),
            match keyword_spec(old(self).buffer()) {
                Some(k) => r == k,
                None => r matches Token::Id(n) && final(self).strings()[n.0 as int] == old(
                    self,
                ).buffer(),
            },
    {
        let s = self.intern_str();
        match keywords(self.strings.get(s)) {
            Some(k) => k,
            None => Token::Id(s),
        }
    }

    // Error Actions

    fn report(&mut self, e: LexError) -> (r: Token)
        requires
            old(self).wf(),
        ensures
            r == Token::Error,
            final(self).wf(),
            final(self).log() == old(self).log().push((e, old(self).source_spec())),
            final(self).start_pos() == old(self).start_pos(),
            final(self).current_pos() == old(self).current_pos(),
            final(self).number() == old(self).number(),
            final(self).buffer() == old(self).buffer(),
            final(self).strings() == old(self).strings(),
    {
        let src = self.source();
        self.log.push((e, src));
        Token::Error
    }

    /// Reports an unrecognized character.
    pub fn err_unrec(&mut self, c: char) -> (r: Token)
        requires
            old(self).wf(),
        ensures
            r == Token::Error,
            final(self).wf(),
            final(self).log() == old(self).log().push((LexError::Unrec(c), old(self).source_spec())),
    {
        self.report(LexError::Unrec(c))
    }

    /// Reports an unrecognized character in a number.
    pub fn err_unrec_num(&mut self, c: char) -> (r: Token)
        requires
            old(self).wf(),
        ensures
            r == Token::Error,
            final(self).wf(),
            final(self).log() == old(self).log().push((LexError::UnrecNum(c), old(self).source_spec())),
    {
        self.report(LexError::UnrecNum(c))
    }

    /// Reports an unrecognized escape.
    pub fn err_unrec_esc(&mut self, c: char) -> (r: Token)
        requires
            old(self).wf(),
        ensures
            r == Token::Error,
            final(self).wf(),
            final(self).log() == old(self).log().push((LexError::UnrecEsc(c), old(self).source_spec())),
    {
        self.report(LexError::UnrecEsc(c))
    }

    /// Reports an unterminated character literal.
    pub fn err_unterm_char(&mut self) -> (r: Token)
        requires
            old(self).wf(),
        ensures
            r == Token::Error,
            final(self).wf(),
            final(self).log() == old(self).log().push((LexError::UntermChar, old(self).source_spec())),
    {
        self.report(LexError::UntermChar)
    }

    /// Reports an unterminated string literal.
    pub fn err_unterm_str(&mut self) -> (r: Token)
        requires
            old(self).wf(),
        ensures
            r == Token::Error,
            final(self).wf(),
            final(self).log() == old(self).log().push((LexError::UntermStr, old(self).source_spec())),
    {
        self.report(LexError::UntermStr)
    }

    /// Reports an unterminated escape.
    pub fn err_unterm_esc(&mut self) -> (r: Token)
        requires
            old(self).wf(),
        ensures
            r == Token::Error,
            final(self).wf(),
            final(self).log() == old(self).log().push((LexError::UntermEsc, old(self).source_spec())),
    {
        self.report(LexError::UntermEsc)
    }

    /// Reports a character literal not of one character.
    pub fn err_length_char(&mut self) -> (r: Token)
        requires
            old(self).wf(),
        ensures
            r == Token::Error,
            final(self).wf(),
            final(self).log() == old(self).log().push((LexError::LengthChar, old(self).source_spec())),
    {
        self.report(LexError::LengthChar)
    }

    /// Reports an escape beyond the Unicode scalar values.
    pub fn err_overflow_esc(&mut self) -> (r: Token)
        requires
            old(self).wf(),
        ensures
            r == Token::Error,
            final(self).wf(),
            final(self).log() == old(self).log().push((LexError::OverflowEsc, old(self).source_spec())),
            final(self).start_pos() == old(self).start_pos(),
            final(self).current_pos() == old(self).current_pos(),
            final(self).number() == old(self).number(),
            final(self).buffer() == old(self).buffer(),
            final(self).strings() == old(self).strings(),
    {
        self.report(LexError::OverflowEsc)
    }

    /// The errors reported so far, with where they were found.
    pub fn errors(&self) -> (r: &Vec<(LexError, Source)>)
        ensures
            r@ == self.log(),
    {
        &self.log
    }
}

/// The value of a decimal digit.
fn int_from_dg(c: char) -> (r: u8)
    requires
        0x30 <= c as u32 <= 0x39,
    ensures
        r == digit_value(c),
{
    (c as u8) - 0x30
}

/// The value of an upper-case hexadecimal digit letter.
fn int_from_hex_uc(c: char) -> (r: u8)
    requires
        0x41 <= c as u32 <= 0x46,
    ensures
        r == c as u32 - 0x37,
{
    (c as u8) - 0x37
}

/// The value of a lower-case hexadecimal digit letter.
fn int_from_hex_lc(c: char) -> (r: u8)
    requires
        0x61 <= c as u32 <= 0x66,
    ensures
        r == c as u32 - 0x57,
{
    (c as u8) - 0x57
}

} // verus!
