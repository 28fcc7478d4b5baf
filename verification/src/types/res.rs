//! Resolution of types: following type names through a scope, computing
//! what code generation needs to know of each type, and rejecting circular
//! definitions.
//!
//! Following a type name marks it as used; reaching a name that is already
//! marked is an error.  The value type of a pointer and the members of a
//! function start again with no marks.  A definition that reaches itself
//! through such a fresh start would be followed forever: the functions here
//! are specified with a count of name lookups (`fuel`), and each requires
//! that some count suffices.

use std::collections::HashSet;
use vstd::prelude::*;

use crate::ast::Stmt;
use crate::mem::Name;
use crate::scope::{lemma_visible_with, ScopeMap};
use crate::types::form::{TypeForm, TypeInfo};
use crate::types::{Member, Type};

verus! {

broadcast use vstd::std_specs::hash::group_hash_axioms;

// -----------------------------------------------------------------------------
// Sizes of type expressions

/// The number of nodes of a type expression.
pub open spec fn type_size(ty: Type) -> nat
    decreases ty,
{
    match ty {
        Type::Array(_, t, _) => 1 + type_size(*t),
        Type::Ptr(_, p, v) => 1 + type_size(*p) + type_size(*v),
        Type::Struct(_, ms) => 1 + members_size(ms@),
        Type::Union(_, ms) => 1 + members_size(ms@),
        Type::Func(_, ps, rs) => 1 + members_size(ps@) + members_size(rs@),
        _ => 1,
    }
}

/// The number of nodes of a list of members, plus one.
pub open spec fn members_size(ms: Seq<Member>) -> nat
    decreases ms,
{
    if ms.len() == 0 {
        1
    } else {
        type_size(ms[0].1) + members_size(ms.drop_first())
    }
}

/// A member is smaller than the members from it on, which are no larger
/// than all of them.
pub proof fn lemma_member_smaller(ms: Seq<Member>, i: int)
    requires
        0 <= i < ms.len(),
    ensures
        type_size(ms[i].1) + members_size(ms.skip(i + 1)) == members_size(ms.skip(i)),
        type_size(ms[i].1) < members_size(ms.skip(i)),
        members_size(ms.skip(i + 1)) < members_size(ms.skip(i)),
        members_size(ms.skip(i)) <= members_size(ms),
{
    assert(ms.skip(i).drop_first() =~= ms.skip(i + 1));
    assert(ms.skip(i)[0] == ms[i]);
    lemma_size_positive(ms[i].1);
    lemma_members_size_positive(ms.skip(i + 1));
    lemma_skip_size(ms, i);
}

/// Every type expression has a node.
pub proof fn lemma_size_positive(ty: Type)
    ensures
        type_size(ty) >= 1,
{
}

/// Every list of members counts at least one.
pub proof fn lemma_members_size_positive(ms: Seq<Member>)
    ensures
        members_size(ms) >= 1,
{
    if ms.len() > 0 {
        lemma_size_positive(ms[0].1);
    }
}

/// Dropping members does not make the list larger.
pub proof fn lemma_skip_size(ms: Seq<Member>, i: int)
    requires
        0 <= i <= ms.len(),
    ensures
        members_size(ms.skip(i)) <= members_size(ms),
    decreases i,
{
    if i == 0 {
        assert(ms.skip(0) =~= ms);
    } else {
        lemma_skip_size(ms, i - 1);
        assert(ms.skip(i - 1).drop_first() =~= ms.skip(i));
    }
}

// -----------------------------------------------------------------------------
// Marks of used names

/// The names followed so far, to reject circular references.
pub struct Used {
    used: Option<HashSet<usize>>,
}

impl Used {
    /// The marked names.
    pub closed spec fn marks(&self) -> Set<Name> {
        match self.used {
            None => Set::empty(),
            Some(h) => Set::new(|n: Name| h@.contains(n.0)),
        }
    }

    /// No name marked.
    pub fn none() -> (r: Used)
        ensures
            r.marks() == Set::<Name>::empty(),
    {
        Used { used: None }
    }

    /// `name` alone marked.
    pub fn one(name: Name) -> (r: Used)
        ensures
            r.marks() == Set::<Name>::empty().insert(name),
    {
        let mut h = HashSet::new();
        h.insert(name.0);
        let r = Used { used: Some(h) };
        assert(r.marks() =~= Set::<Name>::empty().insert(name));
        r
    }

    /// Marks `name`; returns whether it was not marked before.
    pub fn mark(&mut self, name: Name) -> (r: bool)
        ensures
            final(self).marks() == old(self).marks().insert(name),
            r == !old(self).marks().contains(name),
    {
        let mut h = match self.used.take() {
            Some(h) => h,
            None => HashSet::new(),
        };
        let r = h.insert(name.0);
        self.used = Some(h);
        assert(self.marks() =~= old(self).marks().insert(name));
        r
    }
}

// -----------------------------------------------------------------------------
// Type information

/// What is resolved of a type: the type as written and its information.
#[derive(Clone, Copy, Debug)]
pub struct ResolvedType<'a> {
    /// The type as written.
    pub ast: &'a Type,
    /// Its information for type checking and code generation.
    pub info: TypeInfo,
}

/// The information of a single value of the given form.
pub open spec fn scalar_info(form: TypeForm) -> TypeInfo {
    TypeInfo { form, step: 0, count: 1 }
}

/// The element count of an array: its length, or 0 if unknown.
pub open spec fn array_count(len: Option<usize>) -> usize {
    match len {
        Some(n) => n,
        None => 0,
    }
}

/// The resolution of `ty` in `env` with the names `used` already marked,
/// following at most `fuel` names: the information (or failure) and the
/// marks afterwards; `None` if `fuel` does not suffice.  Named types are
/// looked up and marked; arrays need elements of known size; a pointer's
/// address type must be integral, and its value type is resolved with no
/// marks; structures, unions and functions are not resolved.
pub open spec fn resolve_spec(env: Map<Name, Type>, ty: Type, used: Set<Name>, fuel: nat) -> Option<
    (Result<TypeInfo, ()>, Set<Name>),
>
    decreases fuel, type_size(ty),
{
    match ty {
        Type::Ident(_, n, _) => {
            if !env.contains_key(n) || used.contains(n) {
                Some((Err(()), used))
            } else if fuel == 0 {
                None
            } else {
                resolve_spec(env, env[n], used.insert(n), (fuel - 1) as nat)
            }
        },
        Type::Int(_, s) => Some((Ok(scalar_info(TypeForm::Inty(s))), used)),
        Type::Float(_, s) => Some((Ok(scalar_info(TypeForm::Floaty(s))), used)),
        Type::Array(_, t, len) => match resolve_spec(env, *t, used, fuel) {
            Some((Ok(info), u)) => Some(
                (
                    if info.form.spec_size_bytes() == 0 {
                        Err(())
                    } else {
                        Ok(TypeInfo { form: info.form, step: info.step, count: array_count(len) })
                    },
                    u,
                ),
            ),
            Some((Err(_), u)) => Some((Err(()), u)),
            None => None,
        },
        Type::Ptr(_, p, v) => match resolve_spec(env, *p, used, fuel) {
            Some((Ok(info), u)) => match resolve_spec(env, *v, Set::empty(), fuel) {
                None => None,
                Some((Err(_), _)) => Some((Err(()), u)),
                Some((Ok(_), _)) => Some(
                    (
                        if info.form is Inty {
                            Ok(info)
                        } else {
                            Err(())
                        },
                        u,
                    ),
                ),
            },
            Some((Err(_), u)) => Some((Err(()), u)),
            None => None,
        },
        _ => Some((Err(()), used)),
    }
}

/// Resolving `ty` in `env` ends.
pub open spec fn resolves(env: Map<Name, Type>, ty: Type) -> bool {
    exists|fuel: nat| (#[trigger] resolve_spec(env, ty, Set::empty(), fuel)) is Some
}

/// The resolution of `ty` in `env`, where it ends.
pub open spec fn resolution(env: Map<Name, Type>, ty: Type) -> Result<TypeInfo, ()> {
    resolve_spec(
        env,
        ty,
        Set::empty(),
        choose|fuel: nat| (#[trigger] resolve_spec(env, ty, Set::empty(), fuel)) is Some,
    ).unwrap().0
}

impl<'a> ResolvedType<'a> {
    /// Resolves `ty` with the types of `scope`.
    pub fn compute(ty: &'a Type, scope: &ScopeMap<'a, Type>) -> (r: Result<ResolvedType<'a>, ()>)
        requires
            resolves(scope.visible(), *ty),
        ensures
            r is Ok <==> resolution(scope.visible(), *ty) is Ok,
            r matches Ok(rt) ==> *rt.ast == *ty && Ok::<TypeInfo, ()>(rt.info) == resolution(
                scope.visible(),
                *ty,
            ),
    {
        let ghost fuel = choose|fuel: nat|
            (#[trigger] resolve_spec(scope.visible(), *ty, Set::empty(), fuel)) is Some;
        let mut resolver = TypeResolver::new(scope);
        match resolver.resolve(ty, Ghost(fuel)) {
            Ok(info) => Ok(ResolvedType { ast: ty, info }),
            Err(e) => Err(e),
        }
    }
}

/// Resolves types with the types of a scope, marking the names it follows.
pub struct TypeResolver<'r, 'a> {
    used: Used,
    scope: &'r ScopeMap<'a, Type>,
}

impl<'r, 'a> TypeResolver<'r, 'a> {
    /// The names marked so far.
    pub closed spec fn marks(&self) -> Set<Name> {
        self.used.marks()
    }

    /// The types it resolves with.
    pub closed spec fn env(&self) -> Map<Name, Type> {
        self.scope.visible()
    }

    /// A resolver with no names marked.
    pub fn new(scope: &'r ScopeMap<'a, Type>) -> (r: Self)
        ensures
            r.marks() == Set::<Name>::empty(),
            r.env() == scope.visible(),
    {
        TypeResolver { used: Used::none(), scope }
    }

    /// A resolver with the same scope and no names marked.
    pub fn child(&self) -> (r: Self)
        ensures
            r.marks() == Set::<Name>::empty(),
            r.env() == self.env(),
    {
        TypeResolver { used: Used::none(), scope: self.scope }
    }

    /// Resolves `ty`, following at most `fuel` names.
    pub fn resolve(&mut self, ty: &Type, Ghost(fuel): Ghost<nat>) -> (r: Result<TypeInfo, ()>)
        requires
            resolve_spec(old(self).env(), *ty, old(self).marks(), fuel) is Some,
        ensures
            final(self).env() == old(self).env(),
            resolve_spec(old(self).env(), *ty, old(self).marks(), fuel) == Some(
                (r, final(self).marks()),
            ),
        decreases fuel, type_size(*ty), 1nat,
    {
        match ty {
            Type::Ident(_, name, _) => {
                let def = match self.resolve_ref(*name) {
                    Ok(def) => def,
                    Err(()) => return Err(()),
                };
                self.resolve(def, Ghost((fuel - 1) as nat))
            },
            Type::Int(_, spec) => self.resolve_int(*spec),
            Type::Float(_, spec) => self.resolve_float(*spec),
            Type::Array(_, elem, len) => self.resolve_array(elem, *len, Ghost(fuel)),
            Type::Ptr(_, addr, val) => self.resolve_ptr(addr, val, Ghost(fuel)),
            Type::Struct(..) => self.resolve_struct(),
            Type::Union(..) => self.resolve_union(),
            Type::Func(..) => self.resolve_func(),
        }
    }

    /// Looks up and marks the type named `name`, giving its definition;
    /// fails for unknown names and names already marked.
    fn resolve_ref(&mut self, name: Name) -> (r: Result<&'r Type, ()>)
        ensures
            final(self).env() == old(self).env(),
            match r {
                Ok(def) => {
                    &&& old(self).env().contains_key(name)
                    &&& !old(self).marks().contains(name)
                    &&& *def == old(self).env()[name]
                    &&& final(self).marks() == old(self).marks().insert(name)
                },
                Err(_) => {
                    &&& !old(self).env().contains_key(name) || old(self).marks().contains(name)
                    &&& final(self).marks() == old(self).marks()
                },
            },
    {
        // Look up type name
        let ty = match self.scope.lookup(name) {
            Some(ty) => ty,
            None => {
                // Type not found
                return Err(());
            },
        };
        // Disallow circular reference
        if !self.used.mark(name) {
            assert(old(self).marks().insert(name) =~= old(self).marks());
            return Err(());
        }
        Ok(ty)
    }

    fn resolve_int(&mut self, spec: Option<crate::types::int_spec::IntSpec>) -> (r: Result<TypeInfo, ()>)
        ensures
            final(self).env() == old(self).env(),
            final(self).marks() == old(self).marks(),
            r == Ok::<TypeInfo, ()>(scalar_info(TypeForm::Inty(spec))),
    {
        Ok(TypeInfo { form: TypeForm::Inty(spec), step: 0, count: 1 })
    }

    fn resolve_float(&mut self, spec: Option<crate::types::float::FloatSpec>) -> (r: Result<TypeInfo, ()>)
        ensures
            final(self).env() == old(self).env(),
            final(self).marks() == old(self).marks(),
            r == Ok::<TypeInfo, ()>(scalar_info(TypeForm::Floaty(spec))),
    {
        Ok(TypeInfo { form: TypeForm::Floaty(spec), step: 0, count: 1 })
    }

    fn resolve_array(&mut self, elem: &Type, len: Option<usize>, Ghost(fuel): Ghost<nat>) -> (r:
        Result<TypeInfo, ()>)
        requires
            resolve_spec(old(self).env(), Type::Array(arbitrary(), Box::new(*elem), len), old(self).marks(), fuel) is Some,
        ensures
            final(self).env() == old(self).env(),
            resolve_spec(old(self).env(), Type::Array(arbitrary(), Box::new(*elem), len), old(self).marks(), fuel)
                == Some((r, final(self).marks())),
        decreases fuel, type_size(*elem) + 1, 0nat,
    {
        let info = match self.resolve(elem, Ghost(fuel)) {
            Ok(info) => info,
            Err(()) => return Err(()),
        };
        if info.form.size_bytes() == 0 {
            // Array element does not have known size
            return Err(());
        }
        let count = match len {
            Some(n) => n,
            None => 0,
        };
        Ok(TypeInfo { form: info.form, step: info.step, count })
    }

    fn resolve_ptr(&mut self, addr: &Type, val: &Type, Ghost(fuel): Ghost<nat>) -> (r: Result<
        TypeInfo,
        (),
    >)
        requires
            resolve_spec(
                old(self).env(),
                Type::Ptr(arbitrary(), Box::new(*addr), Box::new(*val)),
                old(self).marks(),
                fuel,
            ) is Some,
        ensures
            final(self).env() == old(self).env(),
            resolve_spec(
                old(self).env(),
                Type::Ptr(arbitrary(), Box::new(*addr), Box::new(*val)),
                old(self).marks(),
                fuel,
            ) == Some((r, final(self).marks())),
        decreases fuel, type_size(*addr) + type_size(*val) + 1, 0nat,
    {
        let info = match self.resolve(addr, Ghost(fuel)) {
            Ok(info) => info,
            Err(()) => return Err(()),
        };
        let mut child = self.child();
        match child.resolve(val, Ghost(fuel)) {
            Ok(_) => {},
            Err(()) => return Err(()),
        }
        match info.form {
            TypeForm::Inty(..) => Ok(info),
            // Type not valid as a pointer
            _ => Err(()),
        }
    }

    fn resolve_struct(&mut self) -> (r: Result<TypeInfo, ()>)
        ensures
            final(self).env() == old(self).env(),
            final(self).marks() == old(self).marks(),
            r == Err::<TypeInfo, ()>(()),
    {
        Err(())
    }

    fn resolve_union(&mut self) -> (r: Result<TypeInfo, ()>)
        ensures
            final(self).env() == old(self).env(),
            final(self).marks() == old(self).marks(),
            r == Err::<TypeInfo, ()>(()),
    {
        Err(())
    }

    fn resolve_func(&mut self) -> (r: Result<TypeInfo, ()>)
        ensures
            final(self).env() == old(self).env(),
            final(self).marks() == old(self).marks(),
            r == Err::<TypeInfo, ()>(()),
    {
        Err(())
    }
}

} // verus!

verus! {

// -----------------------------------------------------------------------------
// Verification of type definitions

/// The verification of `ty` in `env` with the names `used` already marked,
/// following at most `fuel` names: the form of the type (or failure) and the
/// marks afterwards; `None` if `fuel` does not suffice or a size does not
/// fit in a `usize`.  Named types are looked up and marked; arrays need
/// elements of known size; a pointer's address type must be integral, and
/// its value type is verified with no marks; a structure or union has as
/// size the count of its members, all of which must verify; a function's
/// parameters and results are verified with no marks.  Integers and
/// floating-point types are resolved already: they verify, with their form.
pub open spec fn verify_spec(env: Map<Name, Type>, ty: Type, used: Set<Name>, fuel: nat) -> Option<
    (Result<TypeForm, ()>, Set<Name>),
>
    decreases fuel, type_size(ty), 1nat,
{
    match ty {
        Type::Ident(_, n, _) => {
            if !env.contains_key(n) || used.contains(n) {
                Some((Err(()), used))
            } else if fuel == 0 {
                None
            } else {
                verify_spec(env, env[n], used.insert(n), (fuel - 1) as nat)
            }
        },
        Type::Array(_, t, _) => match verify_spec(env, *t, used, fuel) {
            Some((Ok(form), u)) => Some(
                (
                    if form.spec_size_bytes() != 0 {
                        Ok(form)
                    } else {
                        Err(())
                    },
                    u,
                ),
            ),
            Some((Err(_), u)) => Some((Err(()), u)),
            None => None,
        },
        Type::Ptr(_, p, v) => match verify_spec(env, *p, used, fuel) {
            Some((Ok(form), u)) => match verify_spec(env, *v, Set::empty(), fuel) {
                None => None,
                Some((Err(_), _)) => Some((Err(()), u)),
                Some((Ok(_), _)) => Some(
                    (
                        if form is Inty {
                            Ok(form)
                        } else {
                            Err(())
                        },
                        u,
                    ),
                ),
            },
            Some((Err(_), u)) => Some((Err(()), u)),
            None => None,
        },
        Type::Struct(_, ms) => {
            proof {
                assert(ms@.skip(0) =~= ms@);
            }
            members_opaque(members_from(env, ms@, 0, used, fuel, 0, true))
        },
        Type::Union(_, ms) => {
            proof {
                assert(ms@.skip(0) =~= ms@);
            }
            members_opaque(members_from(env, ms@, 0, used, fuel, 0, true))
        },
        Type::Func(_, ps, rs) => {
            proof {
                assert(ps@.skip(0) =~= ps@);
                assert(rs@.skip(0) =~= rs@);
            }
            match (
                members_from(env, ps@, 0, Set::empty(), fuel, 0, true),
                members_from(env, rs@, 0, Set::empty(), fuel, 0, true),
            ) {
                (Some((a, a_ok, _)), Some((b, b_ok, _))) => {
                    if !a_ok || !b_ok {
                        Some((Err(()), used))
                    } else if a + b > usize::MAX {
                        None
                    } else {
                        Some((Ok(TypeForm::Opaque(Some((a + b) as usize))), used))
                    }
                },
                _ => None,
            }
        },
        Type::Int(_, spec) => Some((Ok(TypeForm::Inty(spec)), used)),
        Type::Float(_, spec) => Some((Ok(TypeForm::Floaty(spec)), used)),
    }
}

/// The form of a structure or union from the verification of its members.
pub open spec fn members_opaque(m: Option<(nat, bool, Set<Name>)>) -> Option<
    (Result<TypeForm, ()>, Set<Name>),
> {
    match m {
        None => None,
        Some((count, ok, u)) => {
            if !ok {
                Some((Err(()), u))
            } else if count > usize::MAX {
                None
            } else {
                Some((Ok(TypeForm::Opaque(Some(count as usize))), u))
            }
        },
    }
}

/// The verification of the members of `ms` from index `i` on, sharing the
/// marks: the count of members that verify (added to `count`), whether all
/// do (and `ok`), and the marks afterwards.  Every member is verified, also
/// after one fails.
pub open spec fn members_from(
    env: Map<Name, Type>,
    ms: Seq<Member>,
    i: int,
    used: Set<Name>,
    fuel: nat,
    count: nat,
    ok: bool,
) -> Option<(nat, bool, Set<Name>)>
    decreases fuel, members_size(ms.skip(i)), 0nat,
{
    if 0 <= i < ms.len() {
        proof {
            lemma_member_smaller(ms, i);
        }
        match verify_spec(env, ms[i].1, used, fuel) {
            None => None,
            Some((r, u)) => members_from(
                env,
                ms,
                i + 1,
                u,
                fuel,
                if r is Ok {
                    count + 1
                } else {
                    count
                },
                ok && r is Ok,
            ),
        }
    } else {
        Some((count, ok, used))
    }
}

/// Verifies `ty`, following at most `fuel` names.
fn verify_type(ty: &Type, tys: &ScopeMap<Type>, used: &mut Used, Ghost(fuel): Ghost<nat>) -> (r:
    Result<TypeForm, ()>)
    requires
        verify_spec(tys.visible(), *ty, old(used).marks(), fuel) is Some,
    ensures
        verify_spec(tys.visible(), *ty, old(used).marks(), fuel) == Some((r, final(used).marks())),
    decreases fuel, type_size(*ty), 1nat,
{
    match ty {
        Type::Ident(_, name, _) => {
            let ty = match tys.lookup(*name) {
                Some(ty) => ty,
                None => {
                    // Type not found
                    return Err(());
                },
            };
            if !used.mark(*name) {
                // Unsupported circular reference
                assert(old(used).marks().insert(*name) =~= old(used).marks());
                return Err(());
            }
            let ghost m1 = used.marks();
            let r = verify_type(ty, tys, used, Ghost((fuel - 1) as nat));
            assert(verify_spec(tys.visible(), *ty, m1, (fuel - 1) as nat) == Some((r, used.marks())));
            r
        },
        Type::Array(_, elem, _) => {
            // must be sized type, or a ref to one
            let form = match verify_type(elem, tys, used, Ghost(fuel)) {
                Ok(form) => form,
                Err(()) => return Err(()),
            };
            if form.size_bytes() != 0 {
                Ok(form)
            } else {
                // Array elements must have a known size
                Err(())
            }
        },
        Type::Ptr(_, addr, val) => {
            // ptr_ty must be integral type, or a ref to one
            let form = match verify_type(addr, tys, used, Ghost(fuel)) {
                Ok(form) => form,
                Err(()) => return Err(()),
            };
            let mut fresh = Used::none();
            match verify_type(val, tys, &mut fresh, Ghost(fuel)) {
                Ok(_) => {},
                Err(()) => return Err(()),
            }
            match form {
                TypeForm::Inty(..) => Ok(form),
                // Pointers must have an integral type
                _ => Err(()),
            }
        },
        Type::Struct(_, members) => {
            let size = match verify_members(members.as_slice(), tys, used, Ghost(fuel)) {
                Ok(size) => size,
                Err(()) => return Err(()),
            };
            Ok(TypeForm::Opaque(Some(size)))
        },
        Type::Union(_, members) => {
            let size = match verify_members(members.as_slice(), tys, used, Ghost(fuel)) {
                Ok(size) => size,
                Err(()) => return Err(()),
            };
            Ok(TypeForm::Opaque(Some(size)))
        },
        Type::Func(_, params, rets) => {
            let mut params_used = Used::none();
            let a = verify_members(params.as_slice(), tys, &mut params_used, Ghost(fuel));
            let mut rets_used = Used::none();
            let b = verify_members(rets.as_slice(), tys, &mut rets_used, Ghost(fuel));
            let a = match a {
                Ok(a) => a,
                Err(()) => return Err(()),
            };
            let b = match b {
                Ok(b) => b,
                Err(()) => return Err(()),
            };
            Ok(TypeForm::Opaque(Some(a + b)))
        },
        // Remaining types are in resolved form already
        Type::Int(_, spec) => Ok(TypeForm::Inty(*spec)),
        Type::Float(_, spec) => Ok(TypeForm::Floaty(*spec)),
    }
}

/// Verifies each member, sharing the marks, and counts those that verify;
/// fails if any does not.
fn verify_members(members: &[Member], tys: &ScopeMap<Type>, used: &mut Used, Ghost(fuel): Ghost<nat>) -> (r:
    Result<usize, ()>)
    requires
        members_from(tys.visible(), members@, 0, old(used).marks(), fuel, 0, true) is Some,
    ensures
        members_from(tys.visible(), members@, 0, old(used).marks(), fuel, 0, true) matches Some(
            (count, ok, u),
        ) && u == final(used).marks() && r == (if ok {
            Ok::<usize, ()>(count as usize)
        } else {
            Err::<usize, ()>(())
        }),
    decreases fuel, members_size(members@), 0nat,
{
    let ghost env = tys.visible();
    let ghost total = members_from(env, members@, 0, used.marks(), fuel, 0, true);
    let mut size: usize = 0;
    let mut ok = true;
    let mut i: usize = 0;
    while i < members.len()
        invariant
            env == tys.visible(),
            0 <= i <= members.len(),
            size <= i,
            total is Some,
            members_from(env, members@, i as int, used.marks(), fuel, size as nat, ok) == total,
        decreases members.len() - i,
    {
        proof {
            lemma_member_smaller(members@, i as int);
        }
        match verify_type(&members[i].1, tys, used, Ghost(fuel)) {
            Ok(_) => size = size + 1,
            Err(()) => ok = false,
        }
        i = i + 1;
    }
    if ok {
        Ok(size)
    } else {
        Err(())
    }
}

// -----------------------------------------------------------------------------
// Processing of type definitions

/// The type definitions among `stmts`, in order: each name with its type.
pub open spec fn typedefs(stmts: Seq<Stmt>) -> Seq<(Name, Type)>
    decreases stmts.len(),
{
    if stmts.len() == 0 {
        Seq::empty()
    } else {
        let rest = typedefs(stmts.drop_last());
        match stmts.last() {
            Stmt::TypeDef(_, n, t) => rest.push((n, *t)),
            _ => rest,
        }
    }
}

/// `m` with each of `defs` defined in turn.
pub open spec fn define_all(m: Map<Name, Type>, defs: Seq<(Name, Type)>) -> Map<Name, Type>
    decreases defs.len(),
{
    if defs.len() == 0 {
        m
    } else {
        define_all(m, defs.drop_last()).insert(defs.last().0, defs.last().1)
    }
}

/// No name of `defs` is defined in `m`, and none is defined twice.
pub open spec fn definitions_fresh(m: Map<Name, Type>, defs: Seq<(Name, Type)>) -> bool {
    &&& forall|i: int| 0 <= i < defs.len() ==> !m.contains_key(#[trigger] defs[i].0)
    &&& forall|i: int, j: int| 0 <= i < j < defs.len() ==> #[trigger] defs[i].0 != #[trigger] defs[j].0
}

/// Verifying the definition of `name` as `ty` in `env` ends.
pub open spec fn verifies(env: Map<Name, Type>, name: Name, ty: Type) -> bool {
    exists|fuel: nat| (#[trigger] verify_spec(env, ty, Set::empty().insert(name), fuel)) is Some
}

/// The verification of the definition of `name` as `ty` in `env`, where it
/// ends: the definition's own name starts out marked.
pub open spec fn verdict(env: Map<Name, Type>, name: Name, ty: Type) -> Result<TypeForm, ()> {
    verify_spec(
        env,
        ty,
        Set::empty().insert(name),
        choose|fuel: nat| (#[trigger] verify_spec(env, ty, Set::empty().insert(name), fuel)) is Some,
    ).unwrap().0
}

/// The pairs of names and types that `s` refers to.
pub open spec fn deref_defs(s: Seq<(Name, &Type)>) -> Seq<(Name, Type)> {
    s.map_values(|p: (Name, &Type)| (p.0, *p.1))
}

/// Defines the types of the type definitions in `ast` in `tys`, then
/// verifies each definition with its own name marked.  Every definition is
/// defined, and every one verified, also after one fails.
pub fn process_typedefs<'a>(ast: &'a Vec<Stmt>, tys: &mut ScopeMap<'a, Type>) -> (r: Result<(), ()>)
    requires
        definitions_fresh(old(tys).own(), typedefs(ast@)),
        forall|i: int|
            0 <= i < typedefs(ast@).len() ==> verifies(
                old(tys).visible_with(define_all(old(tys).own(), typedefs(ast@))),
                #[trigger] typedefs(ast@)[i].0,
                typedefs(ast@)[i].1,
            ),
    ensures
        final(tys).own() == define_all(old(tys).own(), typedefs(ast@)),
        final(tys).parent() == old(tys).parent(),
        r is Ok <==> forall|i: int|
            0 <= i < typedefs(ast@).len() ==> (verdict(
                final(tys).visible(),
                #[trigger] typedefs(ast@)[i].0,
                typedefs(ast@)[i].1,
            ) is Ok),
{
    let ghost defs = typedefs(ast@);
    let ghost own0 = tys.own();
    let ghost env = old(tys).visible_with(define_all(old(tys).own(), defs));

    // Collect type definitions
    let mut tydefs: Vec<(Name, &'a Type)> = Vec::new();
    let mut k: usize = 0;
    while k < ast.len()
        invariant
            k <= ast.len(),
            deref_defs(tydefs@) == typedefs(ast@.take(k as int)),
        decreases ast.len() - k,
    {
        match &ast[k] {
            Stmt::TypeDef(_, name, ty) => {
                tydefs.push((*name, &**ty));
            },
            _ => {},
        }
        proof {
            assert(ast@.take(k + 1).drop_last() =~= ast@.take(k as int));
            assert(deref_defs(tydefs@) =~= typedefs(ast@.take(k + 1)));
        }
        k = k + 1;
    }
    assert(ast@.take(ast.len() as int) =~= ast@);

    // Add defined types to scope
    let mut j: usize = 0;
    while j < tydefs.len()
        invariant
            j <= tydefs.len(),
            deref_defs(tydefs@) == defs,
            tys.own() == define_all(own0, defs.take(j as int)),
            tys.parent() == old(tys).parent(),
        decreases tydefs.len() - j,
    {
        let (name, ty) = tydefs[j];
        let _ = tys.define_ref(name, ty);
        proof {
            assert(defs.take(j + 1).drop_last() =~= defs.take(j as int));
            assert(defs[j as int] == (name, *ty));
        }
        j = j + 1;
    }
    assert(defs.take(defs.len() as int) =~= defs);
    proof {
        lemma_visible_with(*tys);
    }

    // Verify type definitions are sound
    let mut ok = true;
    let mut j: usize = 0;
    while j < tydefs.len()
        invariant
            j <= tydefs.len(),
            deref_defs(tydefs@) == defs,
            tys.visible() == env,
            forall|i: int| 0 <= i < defs.len() ==> verifies(env, #[trigger] defs[i].0, defs[i].1),
            ok <==> forall|i: int| 0 <= i < j ==> (verdict(env, #[trigger] defs[i].0, defs[i].1) is Ok),
        decreases tydefs.len() - j,
    {
        let (name, ty) = tydefs[j];
        assert(defs[j as int] == (name, *ty));
        assert(verifies(env, defs[j as int].0, defs[j as int].1));
        let ghost fuel = choose|fuel: nat|
            (#[trigger] verify_spec(env, *ty, Set::empty().insert(name), fuel)) is Some;
        let mut used = Used::one(name);
        let good = verify_type(ty, tys, &mut used, Ghost(fuel)).is_ok();
        ok = ok && good;
        j = j + 1;
    }

    // Done
    if ok {
        Ok(())
    } else {
        Err(())
    }
}

/// A type defined as its own name is rejected: following the name finds it
/// marked already.
pub proof fn law_self_reference_rejected(env: Map<Name, Type>, name: Name)
    requires
        env.contains_key(name),
        env[name] matches Type::Ident(_, n, _) && n == name,
    ensures
        verifies(env, name, env[name]),
        verdict(env, name, env[name]) is Err,
{
    assert(verify_spec(env, env[name], Set::empty().insert(name), 0) is Some);
}

/// A pointer resolves exactly when its address type resolves to an
/// integral form and its value type resolves on its own, from no marks: the
/// names marked while resolving the address type never make the value type
/// fail.  The pointer then has the address type's information.
pub proof fn law_ptr_resolves_apart(
    env: Map<Name, Type>,
    src: crate::pos::Source,
    p: Type,
    v: Type,
    used: Set<Name>,
    fuel: nat,
)
    requires
        resolve_spec(env, p, used, fuel) is Some,
        resolve_spec(env, v, Set::empty(), fuel) is Some,
    ensures
        ({
            let r = resolve_spec(env, Type::Ptr(src, Box::new(p), Box::new(v)), used, fuel).unwrap().0;
            let rp = resolve_spec(env, p, used, fuel).unwrap().0;
            let rv = resolve_spec(env, v, Set::empty(), fuel).unwrap().0;
            &&& r is Ok <==> (rp matches Ok(info) && info.form is Inty && rv is Ok)
            &&& r is Ok ==> r == rp
        }),
{
}

/// A pointer addressed by, and pointing to, the same integral named type
/// resolves to that type's information: the name marked for the address
/// type is not marked for the value type.
pub proof fn law_ptr_to_its_own_address_type(
    env: Map<Name, Type>,
    src: crate::pos::Source,
    p: Type,
    v: Type,
    a: Name,
    fuel: nat,
)
    requires
        p matches Type::Ident(_, n, _) && n == a,
        v matches Type::Ident(_, n, _) && n == a,
        env.contains_key(a),
        env[a] is Int,
        fuel >= 1,
    ensures
        resolve_spec(env, Type::Ptr(src, Box::new(p), Box::new(v)), Set::<Name>::empty(), fuel) == Some(
            (Ok::<TypeInfo, ()>(scalar_info(TypeForm::Inty(env[a]->Int_1))), Set::<Name>::empty().insert(a)),
        ),
{
    let marked = Set::<Name>::empty().insert(a);
    assert(resolve_spec(env, env[a], marked, (fuel - 1) as nat) == Some(
        (Ok::<TypeInfo, ()>(scalar_info(TypeForm::Inty(env[a]->Int_1))), marked),
    ));
    assert(resolve_spec(env, p, Set::empty(), fuel) == Some(
        (Ok::<TypeInfo, ()>(scalar_info(TypeForm::Inty(env[a]->Int_1))), Set::<Name>::empty().insert(a)),
    ));
    assert(resolve_spec(env, v, Set::empty(), fuel) == Some(
        (Ok::<TypeInfo, ()>(scalar_info(TypeForm::Inty(env[a]->Int_1))), Set::<Name>::empty().insert(a)),
    ));
}

} // verus!
