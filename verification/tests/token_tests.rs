use aex::mem::{Interner, Name};
use aex::pos::Source;
use aex::token::{keywords, LexError, Token, TokenBuilder};

#[test]
fn numbers_accumulate() {
    let mut strings = Interner::new();
    let mut b = TokenBuilder::new(Name(0), &mut strings);
    b.add_dec('4');
    b.add_dec('2');
    assert_eq!(b.get_num(), Token::Int(42));
    b.add_hex_dg('1');
    b.add_hex_uc('F');
    b.add_hex_lc('a');
    assert_eq!(b.get_num(), Token::Int(0x1FA));
    b.add_oct('7');
    b.add_oct('1');
    assert_eq!(b.get_num(), Token::Int(0o71));
    b.add_bin('1');
    b.add_bin('0');
    b.add_bin('1');
    assert_eq!(b.get_num(), Token::Int(5));
    assert_eq!(b.get_num(), Token::Int(0));
}

#[test]
fn identifiers_and_keywords() {
    let mut strings = Interner::new();
    let mut b = TokenBuilder::new(Name(0), &mut strings);
    for c in "type".chars() {
        b.add_char(c);
    }
    assert_eq!(b.get_id_or_keyword(), Token::KwType);
    for c in "foo".chars() {
        b.add_char(c);
    }
    let t = b.get_id_or_keyword();
    for c in "foo".chars() {
        b.add_char(c);
    }
    let u = b.get_id_or_keyword();
    assert_eq!(t, u);
    assert!(matches!(t, Token::Id(_)));
    assert_eq!(keywords("jump"), Some(Token::KwJump));
    assert_eq!(keywords("jumps"), None);
}

#[test]
fn chars_strings_and_escapes() {
    let mut strings = Interner::new();
    let s;
    {
        let mut b = TokenBuilder::new(Name(0), &mut strings);
        b.add_char('x');
        b.add_char('y');
        assert_eq!(b.get_char(), Token::Char('x'));
        b.add_dec('6');
        b.add_dec('5');
        assert_eq!(b.add_esc(), None);
        assert_eq!(b.get_char(), Token::Char('A'));
        b.add_char('h');
        b.add_char('i');
        s = b.get_str();
    }
    match s {
        Token::Str(n) => assert_eq!(strings.get(n), "hi"),
        _ => panic!(),
    }
}

#[test]
fn escape_overflow_and_errors() {
    let mut strings = Interner::new();
    let mut b = TokenBuilder::new(Name(0), &mut strings);
    for c in "1114112".chars() {
        b.add_dec(c);
    }
    assert_eq!(b.add_esc(), Some(Token::Error));
    // A surrogate is no character either.
    let _ = b.get_num();
    for c in "55296".chars() {
        b.add_dec(c);
    }
    assert_eq!(b.add_esc(), Some(Token::Error));
    b.start();
    b.advance('a');
    b.advance('b');
    assert_eq!(b.err_unrec('!'), Token::Error);
    assert_eq!(b.err_unterm_str(), Token::Error);
    let errors = b.errors();
    assert_eq!(errors.len(), 4);
    assert_eq!(errors[0].0, LexError::OverflowEsc);
    assert_eq!(errors[2].0, LexError::Unrec('!'));
    match errors[2].1 {
        Source::File { pos, len } => {
            assert_eq!(pos.byte, 0);
            assert_eq!(len, 2);
        }
        _ => panic!(),
    }
}

#[test]
fn positions() {
    let mut strings = Interner::new();
    let mut b = TokenBuilder::new(Name(3), &mut strings);
    b.advance('a');
    b.newline();
    b.start();
    b.advance('\u{e9}');
    match b.source() {
        Source::File { pos, len } => {
            assert_eq!(pos.line, 2);
            assert_eq!(pos.column, 1);
            assert_eq!(pos.byte, 1);
            assert_eq!(len, 2);
        }
        _ => panic!(),
    }
}
