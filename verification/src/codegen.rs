//! Types as code generation sees them: a type as written, with its form, and
//! the rules by which two operand types meet.

use vstd::prelude::*;

use crate::mem::Name;
use crate::scope::Scope;
use crate::targets::mcf5307::Output;
use crate::types::form::TypeForm;
use crate::types::res::type_size;
use crate::types::Type;
use crate::util::same_type;

verus! {

/// A type as written in the source, with the form it reduces to.
#[derive(Clone, Copy, Debug)]
pub struct ResolvedType<'a> {
    /// The type as written.
    pub ty: &'a Type,
    /// The type reduced to what type checking and code generation need.
    pub form: TypeForm,
}

/// The form of `ty` in `env`, following at most `fuel` names; `None` if
/// `fuel` does not suffice.  A named type has the form of its definition
/// (unknown names fail), a pointer that of its address type; integers are
/// integral, floating-point types are floating; everything else is opaque.
pub open spec fn form_spec(env: Map<Name, Type>, ty: Type, fuel: nat) -> Option<Result<TypeForm, ()>>
    decreases fuel, type_size(ty),
{
    match ty {
        Type::Ident(_, n, _) => {
            if !env.contains_key(n) {
                Some(Err(()))
            } else if fuel == 0 {
                None
            } else {
                form_spec(env, env[n], (fuel - 1) as nat)
            }
        },
        Type::Int(_, s) => Some(Ok(TypeForm::Inty(s))),
        Type::Float(_, s) => Some(Ok(TypeForm::Floaty(s))),
        Type::Ptr(_, p, _) => form_spec(env, *p, fuel),
        _ => Some(Ok(TypeForm::Opaque(None))),
    }
}

/// Computing the form of `ty` in `env` ends: the names it follows do not
/// lead back to themselves.
pub open spec fn form_resolves(env: Map<Name, Type>, ty: Type) -> bool {
    exists|fuel: nat| (#[trigger] form_spec(env, ty, fuel)) is Some
}

/// The form of `ty` in `env`, where computing it ends.
pub open spec fn resolved_form(env: Map<Name, Type>, ty: Type) -> Result<TypeForm, ()> {
    form_spec(env, ty, choose|fuel: nat| (#[trigger] form_spec(env, ty, fuel)) is Some).unwrap()
}

/// Two forms meet when they are both integral or both floating, and at
/// least one of them is unbounded: the result is the bounded one, if any,
/// else `x`.
pub open spec fn compat_spec<'a>(x: ResolvedType<'a>, y: ResolvedType<'a>) -> Option<ResolvedType<'a>> {
    match (x.form, y.form) {
        (TypeForm::Inty(xf), TypeForm::Inty(yf)) => {
            if yf is None {
                Some(x)
            } else if xf is None {
                Some(y)
            } else {
                None
            }
        },
        (TypeForm::Floaty(xf), TypeForm::Floaty(yf)) => {
            if yf is None {
                Some(x)
            } else if xf is None {
                Some(y)
            } else {
                None
            }
        },
        _ => None,
    }
}

/// `x` extends to `y` when both are bounded and of the same form, and `x` is
/// no wider than `y` in value and in storage (and, for integers, of the same
/// signedness): the result is `y`.
pub open spec fn extend_spec<'a>(x: ResolvedType<'a>, y: ResolvedType<'a>) -> Option<ResolvedType<'a>> {
    match (x.form, y.form) {
        (TypeForm::Inty(Some(xf)), TypeForm::Inty(Some(yf))) => {
            if xf.value_width <= yf.value_width && xf.store_width <= yf.store_width && xf.signed
                == yf.signed {
                Some(y)
            } else {
                None
            }
        },
        (TypeForm::Floaty(Some(xf)), TypeForm::Floaty(Some(yf))) => {
            if xf.value_width <= yf.value_width && xf.store_width <= yf.store_width {
                Some(y)
            } else {
                None
            }
        },
        _ => None,
    }
}

impl<'a> ResolvedType<'a> {
    /// Resolves the form of `ty` with the types of `scope`.
    pub fn resolve<S>(ty: &'a Type, scope: &Scope<'a, S, Type>) -> (r: Result<Self, ()>)
        requires
            form_resolves(scope.types.visible(), *ty),
        ensures
            r is Ok <==> resolved_form(scope.types.visible(), *ty) is Ok,
            r matches Ok(rt) ==> *rt.ty == *ty && Ok::<TypeForm, ()>(rt.form) == resolved_form(
                scope.types.visible(),
                *ty,
            ),
    {
        let ghost fuel = choose|fuel: nat|
            (#[trigger] form_spec(scope.types.visible(), *ty, fuel)) is Some;
        match Self::resolve_form(ty, scope, Ghost(fuel)) {
            Ok(form) => Ok(ResolvedType { ty, form }),
            Err(()) => Err(()),
        }
    }

    /// Computes the form of `ty`, following at most `fuel` names.
    fn resolve_form<S>(ty: &Type, scope: &Scope<'a, S, Type>, Ghost(fuel): Ghost<nat>) -> (r: Result<
        TypeForm,
        (),
    >)
        requires
            form_spec(scope.types.visible(), *ty, fuel) is Some,
        ensures
            form_spec(scope.types.visible(), *ty, fuel) == Some(r),
        decreases fuel, type_size(*ty),
    {
        match ty {
            Type::Ident(_, n, _) => {
                // For type references, form is that of referenced type
                match scope.types.lookup(*n) {
                    Some(def) => Self::resolve_form(def, scope, Ghost((fuel - 1) as nat)),
                    None => Err(()),
                }
            },
            // For integers, form is inty
            Type::Int(_, s) => Ok(TypeForm::Inty(*s)),
            // For floats, form is floaty
            Type::Float(_, s) => Ok(TypeForm::Floaty(*s)),
            // For pointers, form is that of address type (probably inty)
            Type::Ptr(_, addr, _) => Self::resolve_form(addr, scope, Ghost(fuel)),
            // Everything else is opaque
            _ => Ok(TypeForm::Opaque(None)),
        }
    }

    /// The type that two operand types meet at, given whether they are the
    /// very same type: a type meets itself; otherwise see `compat_spec`.
    pub fn check_compat_given(x: Self, y: Self, same: bool) -> (r: Option<Self>)
        ensures
            r == (if same {
                Some(x)
            } else {
                compat_spec(x, y)
            }),
    {
        // A type is compatible with itself
        if same {
            return Some(x);
        }
        // Otherwise, two types are compatible if:
        //   - they are of the same form, and
        //   - at least one is unbounded.
        match (x.form, y.form) {
            (TypeForm::Inty(xf), TypeForm::Inty(yf)) => match (xf, yf) {
                (_, None) => Some(x),
                (None, _) => Some(y),
                _ => None,
            },
            (TypeForm::Floaty(xf), TypeForm::Floaty(yf)) => match (xf, yf) {
                (_, None) => Some(x),
                (None, _) => Some(y),
                _ => None,
            },
            _ => None,
        }
    }

    /// The type that two operand types meet at: `x` when both are the very
    /// same type as written, else as `compat_spec` says.  Types that are
    /// different as written always go by `compat_spec`.
    pub fn check_compat(x: Self, y: Self) -> (r: Option<Self>)
        ensures
            r == Some(x) || r == compat_spec(x, y),
            *x.ty != *y.ty ==> r == compat_spec(x, y),
    {
        let same = same_type(x.ty, y.ty);
        Self::check_compat_given(x, y, same)
    }

    /// The type that `x` extends to as `y`, if it does (see `extend_spec`).
    pub fn check_extend(x: Self, y: Self) -> (r: Option<Self>)
        ensures
            r == extend_spec(x, y),
    {
        // Type A is extendible to type B if:
        //   - A and B are of the same form, and
        //   - neither A nor B is unbounded, and
        //   - A is narrower or same width as B.
        match (x.form, y.form) {
            (TypeForm::Inty(xf), TypeForm::Inty(yf)) => match (xf, yf) {
                (Some(xf), Some(yf)) => {
                    if xf.value_width <= yf.value_width && xf.store_width <= yf.store_width
                        && xf.signed == yf.signed {
                        Some(y)
                    } else {
                        None
                    }
                },
                _ => None,
            },
            (TypeForm::Floaty(xf), TypeForm::Floaty(yf)) => match (xf, yf) {
                (Some(xf), Some(yf)) => {
                    if xf.value_width <= yf.value_width && xf.store_width <= yf.store_width {
                        Some(y)
                    } else {
                        None
                    }
                },
                _ => None,
            },
            _ => None,
        }
    }
}

/// A code generator: where it writes, and the scope of names it resolves
/// symbols and types in.
pub struct CodeGenerator<'a, S, T> {
    /// Where the code and the errors go.
    pub out: Output<'a>,
    /// The names defined so far.
    pub scope: Scope<'a, S, T>,
}

impl<'a, S, T> CodeGenerator<'a, S, T> {
    /// A code generator writing to `out`, with nothing defined yet.
    pub fn new(out: Output<'a>) -> (r: Self)
        ensures
            r.out == out,
            r.scope.symbols.own() == Map::<Name, S>::empty(),
            r.scope.types.own() == Map::<Name, T>::empty(),
            r.scope.symbols.parent() is None,
            r.scope.types.parent() is None,
    {
        CodeGenerator { out, scope: Scope::new() }
    }
}

/// Whether two types meet does not depend on their order.
pub proof fn law_compat_symmetric<'a>(x: ResolvedType<'a>, y: ResolvedType<'a>)
    ensures
        compat_spec(x, y) is Some <==> compat_spec(y, x) is Some,
{
}

/// Two operand types of the same kind, both integral or both floating,
/// meet exactly when at least one is unbounded, and then at the bounded
/// one; when both are unbounded, at the first.  The two kinds meet alike,
/// and types of different kinds, or opaque ones, never meet.
pub proof fn law_compat_unbounded_meets<'a>(x: ResolvedType<'a>, y: ResolvedType<'a>)
    ensures
        (x.form is Inty && y.form is Inty) || (x.form is Floaty && y.form is Floaty) ==> {
            &&& compat_spec(x, y) is Some <==> (x.form.spec_value_width() is None
                || y.form.spec_value_width() is None)
            &&& y.form.spec_value_width() is None ==> compat_spec(x, y) == Some(x)
            &&& y.form.spec_value_width() is Some && x.form.spec_value_width() is None
                ==> compat_spec(x, y) == Some(y)
        },
        !((x.form is Inty && y.form is Inty) || (x.form is Floaty && y.form is Floaty))
            ==> compat_spec(x, y) is None,
{
}

/// A bounded scalar type extends to itself.
pub proof fn law_extend_reflexive<'a>(x: ResolvedType<'a>)
    requires
        x.form matches TypeForm::Inty(Some(_)) || x.form matches TypeForm::Floaty(Some(_)),
    ensures
        extend_spec(x, x) == Some(x),
{
}

/// Extension is transitive: extending in two steps is extending in one.
pub proof fn law_extend_transitive<'a>(x: ResolvedType<'a>, y: ResolvedType<'a>, z: ResolvedType<'a>)
    requires
        extend_spec(x, y) is Some,
        extend_spec(y, z) is Some,
    ensures
        extend_spec(x, z) == Some(z),
{
}

/// A type that extends to another meets it only where one is unbounded,
/// which extension excludes: extension and meeting never both hold.
pub proof fn law_extend_excludes_compat<'a>(x: ResolvedType<'a>, y: ResolvedType<'a>)
    requires
        extend_spec(x, y) is Some,
    ensures
        compat_spec(x, y) is None,
{
}

} // verus!
