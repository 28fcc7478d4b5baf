use aex::ast::Stmt;
use aex::mem::Name;
use aex::pos::{Pos, Source};
use aex::scope::ScopeMap;
use aex::types::form::TypeForm;
use aex::types::int_spec::IntSpec;
use aex::types::res::{process_typedefs, ResolvedType};
use aex::types::{Member, Type};

const A: Name = Name(1);
const B: Name = Name(2);
const C: Name = Name(3);

fn u8_spec() -> IntSpec {
    IntSpec { store_width: 8, value_width: 8, value_scale: 0, signed: false }
}

fn int8() -> Type {
    Type::Int(Source::BuiltIn, Some(u8_spec()))
}

fn named(n: Name) -> Type {
    Type::Ident(Source::BuiltIn, n, None)
}

fn empty_struct() -> Type {
    Type::Struct(Source::BuiltIn, vec![])
}

fn typedef(n: Name, t: Type) -> Stmt {
    Stmt::TypeDef(Pos::bof(Name(0)), n, Box::new(t))
}

#[test]
fn compute_scalars() {
    let scope = ScopeMap::<Type>::new(None);
    let t = int8();
    let r = ResolvedType::compute(&t, &scope).unwrap();
    assert_eq!(r.info.form, TypeForm::Inty(Some(u8_spec())));
    assert_eq!(r.info.step, 0);
    assert_eq!(r.info.count, 1);
    let f = Type::Float(Source::BuiltIn, None);
    let r = ResolvedType::compute(&f, &scope).unwrap();
    assert_eq!(r.info.form, TypeForm::Floaty(None));
}

#[test]
fn compute_array_takes_length() {
    let scope = ScopeMap::<Type>::new(None);
    let t = Type::Array(Source::BuiltIn, Box::new(int8()), Some(12));
    let r = ResolvedType::compute(&t, &scope).unwrap();
    assert_eq!(r.info.count, 12);
    assert_eq!(r.info.form, TypeForm::Inty(Some(u8_spec())));
    // Elements of unknown size are refused.
    let u = Type::Array(Source::BuiltIn, Box::new(Type::Int(Source::BuiltIn, None)), Some(3));
    assert!(ResolvedType::compute(&u, &scope).is_err());
}

#[test]
fn compute_follows_names() {
    let defs = vec![int8()];
    let mut scope = ScopeMap::<Type>::new(None);
    assert!(scope.define_ref(A, &defs[0]).is_ok());
    let t = named(A);
    let r = ResolvedType::compute(&t, &scope).unwrap();
    assert_eq!(r.info.form, TypeForm::Inty(Some(u8_spec())));
    // Unknown names fail.
    let u = named(B);
    assert!(ResolvedType::compute(&u, &scope).is_err());
}

#[test]
fn compute_rejects_self_reference() {
    let defs = vec![named(A)];
    let mut scope = ScopeMap::<Type>::new(None);
    assert!(scope.define_ref(A, &defs[0]).is_ok());
    assert!(ResolvedType::compute(&named(A), &scope).is_err());
}

#[test]
fn compute_pointer_needs_integral_address() {
    let scope = ScopeMap::<Type>::new(None);
    let p = Type::Ptr(Source::BuiltIn, Box::new(int8()), Box::new(Type::Float(Source::BuiltIn, None)));
    let r = ResolvedType::compute(&p, &scope).unwrap();
    assert_eq!(r.info.form, TypeForm::Inty(Some(u8_spec())));
    let q = Type::Ptr(Source::BuiltIn, Box::new(Type::Float(Source::BuiltIn, None)), Box::new(int8()));
    assert!(ResolvedType::compute(&q, &scope).is_err());
    assert!(ResolvedType::compute(&empty_struct(), &scope).is_err());
}

#[test]
fn typedefs_of_structures_verify() {
    // A = struct { x: B, y: C }; B = struct {}; C = struct {}
    let ast = vec![
        typedef(A, Type::Struct(Source::BuiltIn, vec![Member(Name(10), named(B)), Member(Name(11), named(C))])),
        typedef(B, empty_struct()),
        typedef(C, empty_struct()),
    ];
    let mut tys = ScopeMap::<Type>::new(None);
    assert_eq!(process_typedefs(&ast, &mut tys), Ok(()));
    assert!(tys.lookup(A).is_some());
    assert!(tys.lookup(B).is_some());
}

#[test]
fn typedef_members_share_marks() {
    // A = struct { x: B, y: B }: the second reference to B finds it marked.
    let ast = vec![
        typedef(A, Type::Struct(Source::BuiltIn, vec![Member(Name(10), named(B)), Member(Name(11), named(B))])),
        typedef(B, empty_struct()),
    ];
    let mut tys = ScopeMap::<Type>::new(None);
    assert_eq!(process_typedefs(&ast, &mut tys), Err(()));
}

#[test]
fn typedef_of_itself_is_rejected() {
    let ast = vec![typedef(A, named(A)), typedef(B, empty_struct())];
    let mut tys = ScopeMap::<Type>::new(None);
    assert_eq!(process_typedefs(&ast, &mut tys), Err(()));
    // Every definition is still defined.
    assert!(tys.lookup(A).is_some());
    assert!(tys.lookup(B).is_some());
}

#[test]
fn typedefs_accept_scalars_and_refuse_unknown_names() {
    let ast = vec![typedef(A, int8())];
    let mut tys = ScopeMap::<Type>::new(None);
    assert_eq!(process_typedefs(&ast, &mut tys), Ok(()));
    // A pointer with an integral address type verifies; one with a
    // structure as its address type does not.
    let ast = vec![
        typedef(A, Type::Ptr(Source::BuiltIn, Box::new(int8()), Box::new(empty_struct()))),
        typedef(B, Type::Ptr(Source::BuiltIn, Box::new(empty_struct()), Box::new(int8()))),
    ];
    let mut tys = ScopeMap::<Type>::new(None);
    assert_eq!(process_typedefs(&ast, &mut tys), Err(()));
    let ast = vec![typedef(A, Type::Ptr(Source::BuiltIn, Box::new(int8()), Box::new(empty_struct())))];
    let mut tys = ScopeMap::<Type>::new(None);
    assert_eq!(process_typedefs(&ast, &mut tys), Ok(()));
    let ast = vec![typedef(B, named(C))];
    let mut tys = ScopeMap::<Type>::new(None);
    assert_eq!(process_typedefs(&ast, &mut tys), Err(()));
}

#[test]
fn typedefs_of_functions_and_arrays() {
    // C = func(p: struct{}) -> (); A = [struct { m: struct{} }; 4]
    let ast = vec![
        typedef(C, Type::Func(Source::BuiltIn, vec![Member(Name(10), empty_struct())], vec![])),
        typedef(
            A,
            Type::Array(
                Source::BuiltIn,
                Box::new(Type::Struct(Source::BuiltIn, vec![Member(Name(11), empty_struct())])),
                Some(4),
            ),
        ),
    ];
    let mut tys = ScopeMap::<Type>::new(None);
    assert_eq!(process_typedefs(&ast, &mut tys), Ok(()));
}

#[test]
fn typedefs_array_of_empty_structure_is_refused() {
    let ast = vec![typedef(A, Type::Array(Source::BuiltIn, Box::new(empty_struct()), Some(2)))];
    let mut tys = ScopeMap::<Type>::new(None);
    assert_eq!(process_typedefs(&ast, &mut tys), Err(()));
}
