use std::io::{Cursor, Read};

use aex::mem::{Name, Interner};
use aex::pos;
use aex::source::{File, Pos, Source};

fn file_abc() -> File {
    File::new("f", "abc".to_string())
}

#[test]
fn source_source_text() {
    let f = file_abc();
    let s = Source::File { file: &f, pos: Pos::bof(), len: 2 };
    assert_eq!(s.as_ref(), "ab");
}

#[test]
fn source_source_fmt_display() {
    let f = file_abc();
    let s = Source::File { file: &f, pos: Pos::bof(), len: 2 };
    assert_eq!(s.display_string(), "f:1:1");
}

#[test]
fn source_source_fmt_debug() {
    let f = file_abc();
    let s = Source::File { file: &f, pos: Pos::bof(), len: 2 };
    assert_eq!(s.debug_string(), "f(3):1:1[0]+2");
}

#[test]
fn builtin_source_formats() {
    assert_eq!(Source::BuiltIn.display_string(), "(built-in)");
    assert_eq!(Source::BuiltIn.debug_string(), "Source::BuiltIn");
    assert_eq!(Source::BuiltIn.as_ref(), "");
}

#[test]
fn source_union() {
    let f = File::new("f", "abcdefghijklmnop".to_string());
    let pa = Pos::bof();
    let mut pb = pa;
    pb.advance('_');
    pb.advance('_');
    pb.advance('_');
    let sa = Source::File { file: &f, pos: pa, len: 2 };
    let sb = Source::File { file: &f, pos: pb, len: 2 };
    let ex = Source::File { file: &f, pos: pa, len: 5 };
    assert_eq!(sa.bitor(sb), ex);
    assert_eq!(sb.bitor(sa), ex);
}

#[test]
fn source_union_of_nested_spans() {
    let f = File::new("f", "abcdefghijklmnop".to_string());
    let pa = Pos::bof();
    let mut pb = pa;
    pb.advance('_');
    pb.advance('_');
    let outer = Source::File { file: &f, pos: pa, len: 10 };
    let inner = Source::File { file: &f, pos: pb, len: 4 };
    assert_eq!(outer.bitor(inner), outer);
    assert_eq!(inner.bitor(outer), outer);
    assert_eq!(outer.bitor(outer), outer);
}

#[test]
fn source_union_with_builtin() {
    let f = file_abc();
    let s = Source::File { file: &f, pos: Pos::bof(), len: 1 };
    assert_eq!(Source::BuiltIn.bitor(s), s);
    assert_eq!(s.bitor(Source::BuiltIn), s);
}

#[test]
fn source_text_multibyte() {
    let f = File::new("g", "aé€b".to_string());
    let mut p = Pos::bof();
    p.advance('a');
    let s = Source::File { file: &f, pos: p, len: 5 };
    assert_eq!(s.as_ref(), "é€");
}

#[test]
fn file_new() {
    let f = File::new("f", "abc".to_string());
    assert_eq!(f, file_abc());
    assert_eq!(f.name(), "f");
    assert_eq!(f.data(), "abc");
}

#[test]
fn source_file_new() {
    let mut c = Cursor::new("abc");
    let mut data = String::new();
    c.read_to_string(&mut data).unwrap();
    let f = File::new("f", data);
    assert_eq!(f, file_abc());
}

#[test]
fn file_from_reader() {
    let mut c = Cursor::new("abc");
    let mut data = String::new();
    c.read_to_string(&mut data).unwrap();
    let f = File::new("f", data);
    assert_eq!(f.name(), "f");
    assert_eq!(f.data(), "abc");
}

#[test]
fn source_file_name() {
    assert_eq!(file_abc().name(), "f");
}

#[test]
fn file_name() {
    let f = file_abc();
    assert_eq!(f.name(), "f");
}

#[test]
fn source_file_data() {
    assert_eq!(file_abc().data(), "abc");
}

#[test]
fn file_data() {
    let f = file_abc();
    assert_eq!(f.data(), "abc");
}

#[test]
fn source_file_fmt_display() {
    assert_eq!(file_abc().display_string(), "f");
}

#[test]
fn file_fmt_display() {
    let f = file_abc();
    assert_eq!(f.display_string(), "f");
}

#[test]
fn source_file_fmt_debug() {
    assert_eq!(file_abc().debug_string(), "f(3)");
}

#[test]
fn file_fmt_debug() {
    let f = file_abc();
    assert_eq!(f.debug_string(), "f(3)");
}

#[test]
fn file_fmt_debug_counts_bytes() {
    let f = File::new("u", "é".to_string());
    assert_eq!(f.debug_string(), "u(2)");
}

#[test]
fn file_same_as() {
    let a = file_abc();
    let b = File::new("f", "abc".to_string());
    let c = File::new("f", "abd".to_string());
    assert!(a.same_as(&b));
    assert!(!a.same_as(&c));
}

#[test]
fn source_pos_bof() {
    let p = Pos::bof();
    assert_eq!(p, Pos { byte: 0, line: 1, column: 1 });
}

#[test]
fn source_pos_advance() {
    let mut p = Pos::bof();
    p.advance('a');
    assert_eq!(p, Pos { byte: 1, line: 1, column: 2 });
    p.advance('\u{10ABCD}');
    assert_eq!(p, Pos { byte: 5, line: 1, column: 3 });
}

#[test]
fn source_pos_newline() {
    let mut p = Pos::bof();
    p.advance('\n');
    p.newline();
    assert_eq!(p, Pos { byte: 1, line: 2, column: 1 });
}

#[test]
fn pos_compare() {
    let mut a = Pos::bof();
    a.advance('a');
    let mut b = Pos::bof();
    b.advance('b');
    b.advance('b');
    assert!(a < b);
    assert!(b > a);
    assert!(a == a);
}

#[test]
fn source_pos_fmt_display() {
    let p = Pos { byte: 1, line: 2, column: 3 };
    assert_eq!(p.display_string(), "2:3");
}

#[test]
fn source_pos_fmt_debug() {
    let p = Pos { byte: 1, line: 2, column: 3 };
    assert_eq!(p.debug_string(), "2:3[1]");
}

const FILE: Name = Name(0);

#[test]
fn pos_bof() {
    let p = pos::Pos::bof(FILE);
    assert_eq!(p, pos::Pos { file: FILE, byte: 0, line: 1, column: 1 });
}

#[test]
fn pos_advance() {
    let mut p = pos::Pos::bof(FILE);
    p.advance('a');
    assert_eq!(p, pos::Pos { file: FILE, byte: 1, line: 1, column: 2 });
    p.advance('\u{10ABCD}');
    assert_eq!(p, pos::Pos { file: FILE, byte: 5, line: 1, column: 3 });
}

#[test]
fn pos_newline() {
    let mut p = pos::Pos::bof(FILE);
    p.advance('\n');
    p.newline();
    assert_eq!(p, pos::Pos { file: FILE, byte: 1, line: 2, column: 1 });
}

#[test]
fn fmt_format() {
    let mut strs = Interner::with_capacity(1);
    let file = strs.intern_ref("file.ext");
    let p = pos::Pos { file, byte: 1, line: 2, column: 3 };
    assert_eq!(p.format_with(&strs), "file.ext:2:3");
}

#[test]
fn pos_fmt_debug() {
    let p = pos::Pos { file: FILE, byte: 1, line: 2, column: 3 };
    assert_eq!(p.debug_string(), "<0>[1]:2:3");
}

#[test]
fn fmt_display() {
    let mut strs = Interner::new();
    let f = strs.intern("f");
    let p = pos::Pos { file: f, byte: 1, line: 2, column: 3 };
    assert_eq!(p.format_with(&strs), "f:2:3");
}

#[test]
fn intern() {
    let a_str = "Hello".to_string();
    let b_str = "Hello".to_string();
    let c_str = "olleH".to_string();
    let mut strs = Interner::new();
    let a = strs.intern(&a_str);
    let b = strs.intern(&b_str);
    let c = strs.intern(&c_str);
    assert_eq!(a, b);
    assert_ne!(a, c);
    assert_eq!(strs.get(b), "Hello");
    assert_eq!(strs.get(c), "olleH");
}

#[test]
fn intern_ref() {
    let mut strs = Interner::new();
    let a = strs.intern_ref("Hello");
    let b = strs.intern_ref("Hello");
    let c = strs.intern_ref("olleH");
    assert_eq!(a, b);
    assert_ne!(a, c);
    assert_eq!(strs.len(), 2);
}
