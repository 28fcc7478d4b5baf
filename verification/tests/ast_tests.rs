use aex::ast::{self, fmt_int, Expr};
use aex::mem::Interner;

#[test]
fn fmt_ident() {
    let mut names = Interner::new();
    let a = names.intern("a");
    let expr = Expr::Ident(a);
    let text = expr.display_with(&names);
    assert_eq!(text, "a");
}

#[test]
fn fmt_str() {
    let raw = "\
        \x08\x09\x0A\x0C\x0D\
        !\"#$%&'()*+,-./0123456789:;<=>?\
        @ABCDEFGHIJKLMNOPQRSTUVWXYZ[\\]^_\
        `abcdefghijklmnopqrstuvwxyz{|}~\
        \x13\x7F\u{7FFF}\
    ";
    let formatted = "\"\
        \\b\\t\\n\\f\\r\
        !\\\"#$%&'()*+,-./0123456789:;<=>?\
        @ABCDEFGHIJKLMNOPQRSTUVWXYZ[\\\\]^_\
        `abcdefghijklmnopqrstuvwxyz{|}~\
        \\023\\177\\347\\277\\277\
    \"";
    let expr = Expr::Str(raw.to_string());
    let text = expr.display_with(&Interner::new());
    assert_eq!(text, formatted);
}

#[test]
fn fmt_int_small() {
    let expr = Expr::Int(7);
    let text = expr.display_with(&Interner::new());
    assert_eq!(text, "7");
}

#[test]
fn fmt_int_large() {
    let expr = Expr::Int(42);
    let text = expr.display_with(&Interner::new());
    assert_eq!(text, "0x2A");
}

#[test]
fn fmt_str_empty_and_four_byte_char() {
    assert_eq!(ast::fmt_str(""), "\"\"");
    assert_eq!(ast::fmt_str("\u{1F600}"), "\"\\360\\237\\230\\200\"");
    assert_eq!(ast::fmt_str("\u{E9}"), "\"\\303\\251\"");
}

#[test]
fn fmt_int_edges() {
    assert_eq!(fmt_int(9), "9");
    assert_eq!(fmt_int(10), "0xA");
    assert_eq!(fmt_int(0), "0");
    assert_eq!(fmt_int(-5), "-5");
    assert_eq!(fmt_int(u64::MAX as i128), "0xFFFFFFFFFFFFFFFF");
    assert_eq!(fmt_int(u64::MAX as i128 + 1), "18446744073709551616");
    assert_eq!(fmt_int(i128::MIN), "-170141183460469231731687303715884105728");
}

#[test]
fn fmt_str_is_printable_ascii() {
    let text = ast::fmt_str("\u{1F600}\n\0\u{7F}\u{FFFF}tab\there");
    assert!(text.chars().all(|c| (' '..='~').contains(&c)));
}
