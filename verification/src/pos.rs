//! Positions in named source files, for programs whose file names are
//! interned.

use vstd::prelude::*;

use crate::mem::{Name, Interner};
use crate::util::text::{len_utf8, push_char, push_decimal, push_str, utf8_len, decimal};

verus! {

/// Where a piece of the program came from.
#[derive(Clone, Copy, PartialEq, Eq, Structural, Hash, Debug)]
pub enum Source {
    /// Intrinsic language feature.
    BuiltIn,
    /// A span of a source file.
    File {
        /// The position of the span's start.
        pos: Pos,
        /// The length of the span, in bytes.
        len: usize,
    },
}

/// A position within a named source file.
#[derive(Clone, Copy, PartialEq, Eq, Structural, Hash, Debug)]
pub struct Pos {
    /// The file's name.
    pub file: Name,
    /// 0-based byte offset.
    pub byte: usize,
    /// 1-based line number.
    pub line: u32,
    /// 1-based column number.
    pub column: u32,
}

impl Pos {
    /// Returns the position at the beginning of the file named `file`.
    pub fn bof(file: Name) -> (r: Pos)
        ensures
            r == (Pos { file, byte: 0, line: 1, column: 1 }),
    {
        Pos { file, byte: 0, line: 1, column: 1 }
    }

    /// Moves past the character `c` on the current line.
    pub fn advance(&mut self, c: char)
        requires
            old(self).byte + utf8_len(c) <= usize::MAX,
            old(self).column < u32::MAX,
        ensures
            *final(self) == (Pos {
                file: old(self).file,
                byte: (old(self).byte + utf8_len(c)) as usize,
                line: old(self).line,
                column: (old(self).column + 1) as u32,
            }),
    {
        self.byte = self.byte + len_utf8(c);
        self.column = self.column + 1;
    }

    /// Moves to the start of the next line; the byte offset is unchanged.
    pub fn newline(&mut self)
        requires
            old(self).line < u32::MAX,
        ensures
            *final(self) == (Pos {
                file: old(self).file,
                byte: old(self).byte,
                line: (old(self).line + 1) as u32,
                column: 1,
            }),
    {
        self.line = self.line + 1;
        self.column = 1;
    }

    /// The position formatted with the table of file names: file name, line
    /// and column.
    pub open spec fn format_view(self, strs: Seq<Seq<char>>) -> Seq<char> {
        strs[self.file.0 as int] + seq![':'] + decimal(self.line as nat) + seq![':'] + decimal(
            self.column as nat,
        )
    }

    /// Returns the position formatted with the table of file names:
    /// `file:line:column`.
    pub fn format_with(&self, strs: &Interner) -> (r: String)
        requires
            (self.file.0 as int) < strs@.len(),
        ensures
            r@ == self.format_view(strs@),
    {
        let mut s = String::new();
        push_str(&mut s, strs.get(self.file));
        push_char(&mut s, ':');
        push_decimal(&mut s, self.line as u128);
        push_char(&mut s, ':');
        push_decimal(&mut s, self.column as u128);
        assert(s@ =~= self.format_view(strs@));
        s
    }

    /// The position as debugged: file name index, byte offset, line and
    /// column.
    pub open spec fn debug_view(self) -> Seq<char> {
        self.file.debug_view() + seq!['['] + decimal(self.byte as nat) + seq![']', ':'] + decimal(
            self.line as nat,
        ) + seq![':'] + decimal(self.column as nat)
    }

    /// Returns the position as debugged: `<file>[byte]:line:column`.
    pub fn debug_string(&self) -> (r: String)
        ensures
            r@ == self.debug_view(),
    {
        let mut s = String::new();
        self.file.push_debug(&mut s);
        push_char(&mut s, '[');
        push_decimal(&mut s, self.byte as u128);
        push_char(&mut s, ']');
        push_char(&mut s, ':');
        push_decimal(&mut s, self.line as u128);
        push_char(&mut s, ':');
        push_decimal(&mut s, self.column as u128);
        assert(s@ =~= self.debug_view());
        s
    }
}

} // verus!
