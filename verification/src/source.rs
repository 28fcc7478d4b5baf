//! Source files, positions within them, and source spans.

use vstd::prelude::*;
use vstd::std_specs::cmp::PartialOrdSpec;
use vstd::utf8::is_char_boundary;
use vstd::utf8::valid_utf8;
use vstd::string::StringSliceAdditionalSpecFns;

use crate::util::text::{len_utf8, push_char, push_decimal, push_str, utf8_len, decimal};

verus! {

/// A source file: its name and its text.
#[derive(Clone, PartialEq, Eq, Hash, Debug)]
pub struct File {
    name: String,
    data: String,
}

impl File {
    /// The name of the file.
    pub closed spec fn name_view(&self) -> Seq<char> {
        self.name@
    }

    /// The text of the file.
    pub closed spec fn data_view(&self) -> Seq<char> {
        self.data@
    }

    /// The UTF-8 bytes of the file's text.
    pub open spec fn bytes(&self) -> Seq<u8> {
        vstd::utf8::encode_utf8(self.data_view())
    }

    /// Creates a file of the given name holding the given text.
    pub fn new(name: &str, data: String) -> (r: File)
        ensures
            r.name_view() == name@,
            r.data_view() == data@,
    {
        File { name: name.to_owned(), data }
    }

    /// Returns the name of the file.
    pub fn name(&self) -> (r: &str)
        ensures
            r@ == self.name_view(),
    {
        self.name.as_str()
    }

    /// Returns the text of the file.
    pub fn data(&self) -> (r: &str)
        ensures
            r@ == self.data_view(),
    {
        self.data.as_str()
    }

    /// Whether two files have the same name and the same text.
    pub open spec fn same_file(&self, other: &File) -> bool {
        self.name_view() == other.name_view() && self.data_view() == other.data_view()
    }

    /// Returns whether two files have the same name and the same text.
    pub fn same_as(&self, other: &File) -> (r: bool)
        ensures
            r == self.same_file(other),
    {
        self.name == other.name && self.data == other.data
    }

    /// The file as displayed: its name.
    pub fn display_string(&self) -> (r: String)
        ensures
            r@ == self.name_view(),
    {
        self.name.clone()
    }

    /// The file as debugged: its name, then its length in bytes in
    /// parentheses.
    pub fn debug_string(&self) -> (r: String)
        ensures
            r@ == self.name_view() + seq!['('] + decimal(self.bytes().len()) + seq![')'],
    {
        let mut s = self.name.clone();
        push_char(&mut s, '(');
        let len: usize = self.data.as_str().as_bytes().len();
        push_decimal(&mut s, len as u128);
        push_char(&mut s, ')');
        assert(s@ =~= self.name_view() + seq!['('] + decimal(self.bytes().len()) + seq![')']);
        s
    }
}

/// A position within a source file.
#[derive(Clone, Copy, PartialEq, Eq, Structural, Hash, Debug)]
pub struct Pos {
    /// 0-based byte offset.
    pub byte: usize,
    /// 1-based line number.
    pub line: u32,
    /// 1-based column number.
    pub column: u32,
}

impl Pos {
    /// Returns the position at the beginning of a file.
    pub fn bof() -> (r: Pos)
        ensures
            r == (Pos { byte: 0, line: 1, column: 1 }),
    {
        Pos { byte: 0, line: 1, column: 1 }
    }

    /// Moves past the character `c` on the current line.
    pub fn advance(&mut self, c: char)
        requires
            old(self).byte + utf8_len(c) <= usize::MAX,
            old(self).column < u32::MAX,
        ensures
            *final(self) == (Pos {
                byte: (old(self).byte + utf8_len(c)) as usize,
                line: old(self).line,
                column: (old(self).column + 1) as u32,
            }),
    {
        self.byte = self.byte + len_utf8(c);
        self.column = self.column + 1;
    }

    /// Moves to the start of the next line; the byte offset is unchanged.
    pub fn newline(&mut self)
        requires
            old(self).line < u32::MAX,
        ensures
            *final(self) == (Pos { byte: old(self).byte, line: (old(self).line + 1) as u32, column: 1 }),
    {
        self.line = self.line + 1;
        self.column = 1;
    }

    /// The position as displayed: line and column.
    pub open spec fn display_view(self) -> Seq<char> {
        decimal(self.line as nat) + seq![':'] + decimal(self.column as nat)
    }

    /// Returns the position as displayed: `line:column`.
    pub fn display_string(&self) -> (r: String)
        ensures
            r@ == self.display_view(),
    {
        let mut s = String::new();
        self.push_display(&mut s);
        assert(s@ =~= self.display_view());
        s
    }

    /// Appends the position as displayed.
    pub fn push_display(&self, s: &mut String)
        ensures
            final(s)@ == old(s)@ + self.display_view(),
    {
        push_decimal(s, self.line as u128);
        push_char(s, ':');
        push_decimal(s, self.column as u128);
        assert(s@ =~= old(s)@ + self.display_view());
    }

    /// The position as debugged: line, column and byte offset.
    pub open spec fn debug_view(self) -> Seq<char> {
        self.display_view() + seq!['['] + decimal(self.byte as nat) + seq![']']
    }

    /// Returns the position as debugged: `line:column[byte]`.
    pub fn debug_string(&self) -> (r: String)
        ensures
            r@ == self.debug_view(),
    {
        let mut s = String::new();
        self.push_debug(&mut s);
        assert(s@ =~= self.debug_view());
        s
    }

    /// Appends the position as debugged.
    pub fn push_debug(&self, s: &mut String)
        ensures
            final(s)@ == old(s)@ + self.debug_view(),
    {
        self.push_display(s);
        push_char(s, '[');
        push_decimal(s, self.byte as u128);
        push_char(s, ']');
        assert(s@ =~= old(s)@ + self.debug_view());
    }
}

/// Positions are ordered by their byte offset alone.
impl PartialOrd for Pos {
    fn partial_cmp(&self, other: &Self) -> (r: Option<std::cmp::Ordering>) {
        self.byte.partial_cmp(&other.byte)
    }
}

impl vstd::std_specs::cmp::PartialOrdSpecImpl for Pos {
    open spec fn obeys_partial_cmp_spec() -> bool {
        true
    }

    open spec fn partial_cmp_spec(&self, other: &Self) -> Option<std::cmp::Ordering> {
        PartialOrdSpec::partial_cmp_spec(&self.byte, &other.byte)
    }
}

/// Where a piece of the program came from.
#[derive(Clone, Copy, PartialEq, Eq, Hash, Debug)]
pub enum Source<'a> {
    /// Intrinsic language feature.
    BuiltIn,
    /// A span of a source file.
    File {
        /// The source file.
        file: &'a File,
        /// The position of the span's start within the file.
        pos: Pos,
        /// The length of the span, in bytes.
        len: usize,
    },
}

impl<'a> Source<'a> {
    /// Whether the span lies within its file and starts and ends on
    /// character boundaries.
    pub open spec fn in_file(self) -> bool {
        match self {
            Source::BuiltIn => true,
            Source::File { file, pos, len } => {
                &&& pos.byte + len <= file.bytes().len()
                &&& is_char_boundary(file.bytes(), pos.byte as int)
                &&& is_char_boundary(file.bytes(), pos.byte + len)
            },
        }
    }

    /// The bytes of the text of the span.
    pub open spec fn text_bytes(self) -> Seq<u8> {
        match self {
            Source::BuiltIn => Seq::empty(),
            Source::File { file, pos, len } => file.bytes().subrange(
                pos.byte as int,
                pos.byte + len,
            ),
        }
    }

    /// Returns the text of the span; empty for built-in features.
    pub fn as_ref(&self) -> (r: &'a str)
        requires
            self.in_file(),
        ensures
            r.spec_bytes() == self.text_bytes(),
    {
        match *self {
            Source::BuiltIn => {
                let r: &'a str = "";
                proof {
                    reveal_strlit("");
                }
                assert(r.spec_bytes() =~= Seq::<u8>::empty());
                r
            },
            Source::File { file, pos, len } => {
                let data: &'a str = file.data.as_str();
                proof {
                    vstd::utf8::encode_utf8_valid_utf8(data@);
                    vstd::utf8::valid_utf8_split(data.spec_bytes(), pos.byte as int);
                    lemma_boundary_after_split(data.spec_bytes(), pos.byte as int, len as int);
                }
                let (_, rest) = data.split_at(pos.byte);
                let (text, _) = rest.split_at(len);
                assert(text.spec_bytes() =~= self.text_bytes());
                text
            },
        }
    }

    /// Returns the union of two spans of one file: from the start of the
    /// earlier-starting span to the later of their ends.  A built-in source
    /// yields the other.
    pub fn bitor(self, rhs: Source<'a>) -> (r: Source<'a>)
        requires
            self.union_ok(rhs),
        ensures
            r == self.spec_union(rhs),
    {
        match (self, rhs) {
            (Source::File { file: lf, pos: lp, len: ln }, Source::File { file: rf, pos: rp, len: rn }) => {
                let lend: usize = lp.byte + ln;
                let rend: usize = rp.byte + rn;
                let end: usize = if lend < rend {
                    rend
                } else {
                    lend
                };
                if lp.byte < rp.byte {
                    Source::File { file: lf, pos: lp, len: end - lp.byte }
                } else {
                    Source::File { file: rf, pos: rp, len: end - rp.byte }
                }
            },
            (Source::BuiltIn, rhs) => rhs,
            (lhs, _) => lhs,
        }
    }

    /// Whether two spans can be united: spans of files must be of the
    /// same file, and the united span must fit in a `usize`.
    pub open spec fn union_ok(self, rhs: Source<'a>) -> bool {
        match (self, rhs) {
            (Source::File { file: lf, pos: lp, len: ln }, Source::File { file: rf, pos: rp, len: rn }) => {
                &&& lf.same_file(rf)
                &&& lp.byte + ln <= usize::MAX
                &&& rp.byte + rn <= usize::MAX
            },
            _ => true,
        }
    }

    /// The union of two spans: for spans of a file, the span from the
    /// earlier start to the later end; a built-in source adds nothing.
    pub open spec fn spec_union(self, rhs: Source<'a>) -> Source<'a> {
        match (self, rhs) {
            (Source::File { file: lf, pos: lp, len: ln }, Source::File { file: rf, pos: rp, len: rn }) => {
                let end = if lp.byte + ln < rp.byte + rn {
                    rp.byte + rn
                } else {
                    lp.byte + ln
                };
                if lp.byte < rp.byte {
                    Source::File { file: lf, pos: lp, len: (end - lp.byte) as usize }
                } else {
                    Source::File { file: rf, pos: rp, len: (end - rp.byte) as usize }
                }
            },
            (Source::BuiltIn, rhs) => rhs,
            (lhs, _) => lhs,
        }
    }
}

impl<'a> Source<'a> {
    /// The source as displayed: `(built-in)`, or the file's name and the
    /// span's position.
    pub open spec fn display_view(self) -> Seq<char> {
        match self {
            Source::BuiltIn => seq!['(', 'b', 'u', 'i', 'l', 't', '-', 'i', 'n', ')'],
            Source::File { file, pos, len } => file.name_view() + seq![':'] + pos.display_view(),
        }
    }

    /// The source as debugged: `Source::BuiltIn`, or the file, position and
    /// length debugged.
    pub open spec fn debug_view(self) -> Seq<char> {
        match self {
            Source::BuiltIn => seq![
                'S', 'o', 'u', 'r', 'c', 'e', ':', ':', 'B', 'u', 'i', 'l', 't', 'I', 'n'
            ],
            Source::File { file, pos, len } => file.name_view() + seq!['('] + decimal(
                file.bytes().len(),
            ) + seq![')'] + seq![':'] + pos.debug_view() + seq!['+'] + decimal(len as nat),
        }
    }

    /// Returns the source as displayed.
    pub fn display_string(&self) -> (r: String)
        ensures
            r@ == self.display_view(),
    {
        match *self {
            Source::BuiltIn => {
                let t = "(built-in)";
                proof {
                    reveal_strlit("(built-in)");
                }
                let r = t.to_owned();
                assert(r@ =~= self.display_view());
                r
            },
            Source::File { file, pos, len } => {
                let mut s = file.display_string();
                push_char(&mut s, ':');
                pos.push_display(&mut s);
                assert(s@ =~= self.display_view());
                s
            },
        }
    }

    /// Returns the source as debugged.
    pub fn debug_string(&self) -> (r: String)
        ensures
            r@ == self.debug_view(),
    {
        match *self {
            Source::BuiltIn => {
                let t = "Source::BuiltIn";
                proof {
                    reveal_strlit("Source::BuiltIn");
                }
                let r = t.to_owned();
                assert(r@ =~= self.debug_view());
                r
            },
            Source::File { file, pos, len } => {
                let mut s = file.debug_string();
                push_char(&mut s, ':');
                pos.push_debug(&mut s);
                push_char(&mut s, '+');
                push_decimal(&mut s, len as u128);
                assert(s@ =~= self.debug_view());
                s
            },
        }
    }
}

/// A built-in source is neutral in a union, on either side.
pub proof fn law_union_builtin_neutral<'a>(s: Source<'a>)
    ensures
        Source::BuiltIn.spec_union(s) == s,
        s.spec_union(Source::BuiltIn) == s,
{
}

/// The union of two spans of a file that start at different bytes does not
/// depend on the order of its operands.
pub proof fn law_union_commutes<'a>(a: Source<'a>, b: Source<'a>)
    requires
        a.union_ok(b),
        a matches Source::File { pos: pa, .. } && b matches Source::File { pos: pb, .. }
            ==> pa.byte != pb.byte,
    ensures
        b.union_ok(a),
        a.spec_union(b) == b.spec_union(a),
{
}

/// The union of two spans of a file starts where the earlier one starts and
/// ends where the later one ends, so that it covers both spans.
pub proof fn law_union_extent<'a>(
    file_a: &'a File,
    pa: Pos,
    la: usize,
    file_b: &'a File,
    pb: Pos,
    lb: usize,
)
    requires
        (Source::File { file: file_a, pos: pa, len: la }).union_ok(
            Source::File { file: file_b, pos: pb, len: lb },
        ),
    ensures
        (Source::File { file: file_a, pos: pa, len: la }).spec_union(
            Source::File { file: file_b, pos: pb, len: lb },
        ) matches Source::File { file, pos, len } && {
            &&& file.same_file(file_a)
            &&& pos.byte == (if pa.byte < pb.byte {
                pa.byte
            } else {
                pb.byte
            })
            &&& pos.byte + len == (if pa.byte + la < pb.byte + lb {
                pb.byte + lb
            } else {
                pa.byte + la
            })
            &&& pos.byte <= pa.byte && pa.byte + la <= pos.byte + len
            &&& pos.byte <= pb.byte && pb.byte + lb <= pos.byte + len
        },
{
}

proof fn lemma_boundary_after_split(bytes: Seq<u8>, start: int, len: int)
    requires
        valid_utf8(bytes),
        0 <= start,
        0 <= len,
        start + len <= bytes.len(),
        is_char_boundary(bytes, start),
        is_char_boundary(bytes, start + len),
    ensures
        is_char_boundary(bytes.subrange(start, bytes.len() as int), len),
{
    let rest = bytes.subrange(start, bytes.len() as int);
    vstd::utf8::valid_utf8_split(bytes, start);
    if start + len == bytes.len() {
        vstd::utf8::is_char_boundary_start_end_of_seq(rest);
        assert(rest.len() == len);
    } else if len > 0 {
        vstd::utf8::is_char_boundary_iff_not_is_continuation_byte(bytes, start + len);
        vstd::utf8::is_char_boundary_iff_not_is_continuation_byte(rest, len);
        assert(rest[len] == bytes[start + len]);
    }
}

} // verus!
