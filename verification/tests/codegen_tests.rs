use aex::assembly::gas_flavor;
use aex::codegen::{CodeGenerator, ResolvedType};
use aex::targets::mcf5307::Output;
use aex::mem::{Interner, Name};
use aex::scope::Scope;
use aex::types::float::FloatSpec;
use aex::types::form::TypeForm;
use aex::types::int_spec::IntSpec;
use aex::pos::Source;
use aex::types::Type;

fn ispec(w: u8, signed: bool) -> IntSpec {
    IntSpec { store_width: w, value_width: w, value_scale: 0, signed }
}

#[test]
fn resolve_forms() {
    let mut scope: Scope<(), Type> = Scope::new();
    assert!(scope.types.define(Name(1), Type::Int(Source::BuiltIn, Some(ispec(16, true)))).is_ok());
    let named = Type::Ident(Source::BuiltIn, Name(1), None);
    let r = ResolvedType::resolve(&named, &scope).unwrap();
    assert_eq!(r.form, TypeForm::Inty(Some(ispec(16, true))));
    let ptr = Type::Ptr(Source::BuiltIn, Box::new(named), Box::new(Type::Float(Source::BuiltIn, None)));
    let r = ResolvedType::resolve(&ptr, &scope).unwrap();
    assert_eq!(r.form, TypeForm::Inty(Some(ispec(16, true))));
    let st = Type::Struct(Source::BuiltIn, vec![]);
    assert_eq!(ResolvedType::resolve(&st, &scope).unwrap().form, TypeForm::Opaque(None));
    let unknown = Type::Ident(Source::BuiltIn, Name(2), None);
    assert!(ResolvedType::resolve(&unknown, &scope).is_err());
}

#[test]
fn compat_same_type_and_unbounded() {
    let t8 = Type::Int(Source::BuiltIn, Some(ispec(8, false)));
    let t8b = Type::Int(Source::BuiltIn, Some(ispec(8, false)));
    let any = Type::Int(Source::BuiltIn, None);
    let f = Type::Float(Source::BuiltIn, None);
    let x = ResolvedType { ty: &t8, form: TypeForm::Inty(Some(ispec(8, false))) };
    let x2 = ResolvedType { ty: &t8b, form: TypeForm::Inty(Some(ispec(8, false))) };
    let a = ResolvedType { ty: &any, form: TypeForm::Inty(None) };
    let fl = ResolvedType { ty: &f, form: TypeForm::Floaty(None) };
    // A type is compatible with itself.
    assert!(std::ptr::eq(ResolvedType::check_compat(x, x).unwrap().ty, &t8));
    // Two bounded types that are not the same type do not meet.
    assert!(ResolvedType::check_compat(x, x2).is_none());
    // An unbounded type meets the bounded one.
    assert!(std::ptr::eq(ResolvedType::check_compat(x, a).unwrap().ty, &t8));
    assert!(std::ptr::eq(ResolvedType::check_compat(a, x).unwrap().ty, &t8));
    // Different forms do not meet.
    assert!(ResolvedType::check_compat(a, fl).is_none());
    assert!(ResolvedType::check_compat_given(x, x2, true).is_some());
}

#[test]
fn extend_rules() {
    let t8 = Type::Int(Source::BuiltIn, None);
    let t16 = Type::Int(Source::BuiltIn, None);
    let u8t = ResolvedType { ty: &t8, form: TypeForm::Inty(Some(ispec(8, false))) };
    let u16t = ResolvedType { ty: &t16, form: TypeForm::Inty(Some(ispec(16, false))) };
    let s16t = ResolvedType { ty: &t16, form: TypeForm::Inty(Some(ispec(16, true))) };
    let any = ResolvedType { ty: &t16, form: TypeForm::Inty(None) };
    assert_eq!(ResolvedType::check_extend(u8t, u16t).unwrap().form, u16t.form);
    assert!(ResolvedType::check_extend(u16t, u8t).is_none());
    assert!(ResolvedType::check_extend(u8t, s16t).is_none());
    assert!(ResolvedType::check_extend(u8t, any).is_none());
    let f32t = ResolvedType { ty: &t8, form: TypeForm::Floaty(Some(FloatSpec { value_width: 24, store_width: 32 })) };
    let f64t = ResolvedType { ty: &t16, form: TypeForm::Floaty(Some(FloatSpec { value_width: 53, store_width: 64 })) };
    assert_eq!(ResolvedType::check_extend(f32t, f64t).unwrap().form, f64t.form);
    assert!(ResolvedType::check_extend(f64t, f32t).is_none());
}

#[test]
fn extend_is_reflexive_and_transitive() {
    let t = Type::Int(Source::BuiltIn, None);
    let a = ResolvedType { ty: &t, form: TypeForm::Inty(Some(ispec(8, true))) };
    let b = ResolvedType { ty: &t, form: TypeForm::Inty(Some(ispec(16, true))) };
    let c = ResolvedType { ty: &t, form: TypeForm::Inty(Some(ispec(32, true))) };
    assert_eq!(ResolvedType::check_extend(a, a).unwrap().form, a.form);
    assert!(ResolvedType::check_extend(a, b).is_some());
    assert!(ResolvedType::check_extend(b, c).is_some());
    assert_eq!(ResolvedType::check_extend(a, c).unwrap().form, c.form);
    // Where extension holds, the types do not meet by form.
    assert!(ResolvedType::check_compat_given(a, b, false).is_none());
}

#[test]
fn code_generator_starts_empty() {
    let names = Interner::new();
    let cg: CodeGenerator<u8, Type> = CodeGenerator::new(Output::new(gas_flavor(), &names));
    assert_eq!(cg.out.code.as_str(), "");
    assert!(cg.out.log.is_empty());
    assert!(cg.scope.symbols.lookup(Name(0)).is_none());
    assert!(cg.scope.types.lookup(Name(0)).is_none());
}
