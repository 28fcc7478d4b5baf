use aex::operator::{
    binary_result, select_opcode, str_eq, Arity, Assoc, Operand, Operator, OperatorEntry,
    OperatorTable,
};
use aex::pos::Source;
use aex::ptr::Ptr;
use aex::types::Type;
use aex::util::{ToWith, With};

fn op(chars: &'static str, prec: u8, assoc: Assoc, arity: Arity) -> Operator {
    Operator { chars, prec, assoc, arity }
}

#[test]
fn operator_table() {
    let mut table = OperatorTable::new();
    assert!(table.get("-").is_none());
    table.add(op("-", 9, Assoc::Right, Arity::Unary));
    table.add(op("-", 7, Assoc::Left, Arity::Binary));
    table.add(op("++", 10, Assoc::Left, Arity::Unary));
    let e = table.get("-").unwrap();
    assert_eq!(e.prefix.unwrap().prec, 9);
    assert_eq!(e.suffix.unwrap().prec, 7);
    let e = table.get("++").unwrap();
    assert!(e.prefix.is_none());
    assert_eq!(e.suffix.unwrap().arity, Arity::Unary);
    assert!(table.get("+").is_none());
    // A later operator replaces an earlier one of the same kind.
    table.add(op("-", 6, Assoc::Left, Arity::Binary));
    assert_eq!(table.get("-").unwrap().suffix.unwrap().prec, 6);
    assert_eq!(table.get("-").unwrap().prefix.unwrap().prec, 9);
}

#[test]
fn operator_entry_new() {
    let e = OperatorEntry::new();
    assert!(e.prefix.is_none() && e.suffix.is_none());
}

#[test]
fn strings_compare() {
    assert!(str_eq("<<", "<<"));
    assert!(!str_eq("<<", "<"));
    assert!(!str_eq("ab", "ba"));
    assert!(str_eq("", ""));
}

#[test]
fn opcodes() {
    let ops = [(16u8, "x.w"), (32u8, "x.l")];
    assert_eq!(select_opcode(32, &ops), Some("x.l"));
    assert_eq!(select_opcode(8, &ops), None);
}

#[test]
fn binary_results() {
    let t = Type::Int(Source::BuiltIn, None);
    let u = Type::Float(Source::BuiltIn, None);
    let a = Operand { value: 1u8, ttype: &t, source: Source::BuiltIn };
    let b = Operand { value: 2u8, ttype: &t, source: Source::BuiltIn };
    let ops = [a, b];
    assert!(binary_result(&ops, false, Some(&u), Some(32)).is_err());
    assert!(binary_result(&ops, true, None, Some(32)).is_err());
    assert!(binary_result(&ops, true, Some(&u), None).is_err());
    let r = binary_result(&ops, true, Some(&u), Some(32)).unwrap();
    assert_eq!(r.value, 1);
    assert!(std::ptr::eq(r.ttype, &u));
}

#[test]
fn ptr_points_to_value() {
    let x = 5u32;
    let y = 5u32;
    let p = Ptr::from(&x);
    let q = Ptr::from(&y);
    assert_eq!(*p, 5);
    assert!(p == q);
    let c = p.clone();
    assert!(std::ptr::eq(c.as_ref(), &x));
}

#[test]
fn with_pairs() {
    assert_eq!(5.with("x"), With(5, "x"));
}

#[test]
fn operator_new_and_table_views() {
    let minus = Operator::new("-", 7, Assoc::Left, Arity::Binary);
    assert_eq!(minus.chars, "-");
    assert_eq!(minus.prec, 7);
    assert_eq!(minus.assoc, Assoc::Left);
    assert_eq!(minus.arity, Arity::Binary);
    let mut table = OperatorTable::new();
    assert!(table.map().is_empty());
    table.add(minus);
    table.add(Operator::new("-", 9, Assoc::Right, Arity::Unary));
    table.add(Operator::new("*", 8, Assoc::Left, Arity::Binary));
    let entries = table.map();
    assert_eq!(entries.len(), 2);
    assert!(entries.iter().any(|e| e.0 == "-" && e.1.prefix.unwrap().prec == 9));
    assert!(entries.iter().any(|e| e.0 == "*" && e.1.suffix.unwrap().prec == 8));
    assert_eq!(table.get_nonprefix("-").unwrap().prec, 7);
    assert_eq!(table.get_nonprefix("*").unwrap().prec, 8);
    assert!(table.get_nonprefix("/").is_none());
}
