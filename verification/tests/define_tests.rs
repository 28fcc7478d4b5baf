use aex::ast::Stmt;
use aex::mem::Name;
use aex::pos::{Pos, Source};
use aex::types::define::{define_types, tydefs_to_map, tydefs_to_vec, ResolveType, TypeScope};
use aex::types::form::TypeForm;
use aex::types::int_spec::IntSpec;
use aex::types::{Member, Type};

const A: Name = Name(1);
const B: Name = Name(2);
const S: Name = Name(3);

fn uint(w: u8) -> Type {
    Type::Int(Source::BuiltIn, Some(IntSpec { store_width: w, value_width: w, value_scale: 0, signed: false }))
}

fn named(n: Name) -> Type {
    Type::Ident(Source::BuiltIn, n, None)
}

fn typedef(n: Name, t: Type) -> Stmt {
    Stmt::TypeDef(Pos::bof(Name(0)), n, Box::new(t))
}

#[test]
fn define_in_order() {
    let ast = vec![typedef(B, uint(8)), typedef(A, named(B))];
    let mut scope = TypeScope::new(None);
    assert_eq!(define_types(&ast, &mut scope), Ok(()));
    let a = scope.lookup(A).unwrap();
    assert_eq!(a.info.form, TypeForm::Inty(Some(IntSpec { store_width: 8, value_width: 8, value_scale: 0, signed: false })));
    assert_eq!(*a.ast, named(B));
}

#[test]
fn define_forward_reference_defines_twice() {
    // Resolving A defines B first; defining B again afterwards fails.
    let ast = vec![typedef(A, named(B)), typedef(B, uint(8))];
    let mut scope = TypeScope::new(None);
    assert_eq!(define_types(&ast, &mut scope), Err(()));
    assert!(scope.lookup(A).is_some());
    assert!(scope.lookup(B).is_some());
}

#[test]
fn define_struct_and_union_sizes() {
    let members = || vec![Member(Name(10), uint(8)), Member(Name(11), uint(16))];
    let ast = vec![
        typedef(S, Type::Struct(Source::BuiltIn, members())),
        typedef(A, Type::Union(Source::BuiltIn, members())),
        typedef(B, Type::Func(Source::BuiltIn, members(), vec![])),
    ];
    let mut scope = TypeScope::new(None);
    assert_eq!(define_types(&ast, &mut scope), Ok(()));
    assert_eq!(scope.lookup(S).unwrap().info.form, TypeForm::Opaque(Some(3)));
    assert_eq!(scope.lookup(A).unwrap().info.form, TypeForm::Opaque(Some(2)));
    assert_eq!(scope.lookup(B).unwrap().info.form, TypeForm::Opaque(None));
}

#[test]
fn define_rejects_duplicates_and_unsized_members() {
    let ast = vec![typedef(A, uint(8)), typedef(A, uint(16))];
    let mut scope = TypeScope::new(None);
    assert_eq!(define_types(&ast, &mut scope), Err(()));
    assert!(scope.lookup(A).is_none());
    let ast = vec![typedef(S, Type::Struct(Source::BuiltIn, vec![Member(Name(10), Type::Int(Source::BuiltIn, None))]))];
    let mut scope = TypeScope::new(None);
    assert_eq!(define_types(&ast, &mut scope), Err(()));
    assert!(scope.lookup(S).is_none());
    let ast: Vec<Stmt> = vec![];
    let mut scope = TypeScope::new(None);
    assert_eq!(define_types(&ast, &mut scope), Ok(()));
}

#[test]
fn typedef_lists() {
    let ast = vec![typedef(A, uint(8)), typedef(B, uint(8)), typedef(A, uint(16))];
    let vec = tydefs_to_vec(&ast);
    assert_eq!(vec.len(), 3);
    assert!(tydefs_to_map(&vec).is_err());
    let vec2 = vec[..2].to_vec();
    assert_eq!(tydefs_to_map(&vec2).unwrap().len(), 2);
}

#[test]
fn scope_resolves_known_names() {
    let ast = vec![typedef(B, uint(16))];
    let mut scope = TypeScope::new(None);
    assert_eq!(define_types(&ast, &mut scope), Ok(()));
    let s = Type::Struct(Source::BuiltIn, vec![Member(Name(10), named(B)), Member(Name(11), uint(8))]);
    let r = scope.resolve(&s).unwrap();
    assert_eq!(r.info.form, TypeForm::Opaque(Some(3)));
    assert!(scope.resolve(&named(A)).is_err());
    let p = Type::Ptr(Source::BuiltIn, Box::new(named(B)), Box::new(named(B)));
    assert_eq!(scope.resolve(&p).unwrap().info.form, scope.lookup(B).unwrap().info.form);
}
