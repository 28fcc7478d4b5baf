//! Definition of the types of a program's type definitions in a scope of
//! resolved types.
//!
//! Each definition is resolved in turn; a name that is not yet resolved is
//! resolved from its definition first, and defined in the scope as soon as
//! it is.  Names are not marked here, so a definition that reaches itself
//! would be followed forever: the functions are specified with a count of
//! definitions followed (`fuel`), and each requires that some count
//! suffices.  Structures have the sum of their members' sizes, unions the
//! greatest.

use vstd::prelude::*;

use crate::ast::Stmt;
use crate::mem::Name;
use crate::scope::{lemma_visible_with, ScopeMap};
use crate::types::form::{TypeForm, TypeInfo};
use crate::types::res::{
    array_count, deref_defs, define_all, lemma_member_smaller, members_size, scalar_info,
    type_size, typedefs, ResolvedType,
};
use crate::types::{Member, Type};

verus! {

/// A scope of resolved types.
pub type TypeScope<'a> = ScopeMap<'a, ResolvedType<'a>>;

/// The information of each resolved type.
pub open spec fn infos<'a>(m: Map<Name, ResolvedType<'a>>) -> Map<Name, TypeInfo> {
    m.map_values(|r: ResolvedType<'a>| r.info)
}

/// The information of the types that the enclosing scopes resolve.
pub open spec fn outer_infos<'a>(scope: &TypeScope<'a>) -> Map<Name, TypeInfo> {
    match scope.parent() {
        Some(p) => infos(p.visible()),
        None => Map::empty(),
    }
}

/// The resolution of `ty` with the definitions `defs`, the types `outer`
/// resolved by enclosing scopes and `own` resolved here, following at most
/// `fuel` definitions: the information (or failure) and the types resolved
/// here afterwards; `None` where `fuel` does not suffice or a size does not
/// fit in a `usize`.
pub open spec fn def_resolve_spec(
    defs: Map<Name, Type>,
    outer: Map<Name, TypeInfo>,
    own: Map<Name, TypeInfo>,
    ty: Type,
    fuel: nat,
) -> Option<(Result<TypeInfo, ()>, Map<Name, TypeInfo>)>
    decreases fuel, type_size(ty), 1nat,
{
    match ty {
        Type::Ident(_, n, _) => {
            let known = outer.union_prefer_right(own);
            if known.contains_key(n) {
                Some((Ok(known[n]), own))
            } else if !defs.contains_key(n) {
                Some((Err(()), own))
            } else if fuel == 0 {
                None
            } else {
                match def_resolve_spec(defs, outer, own, defs[n], (fuel - 1) as nat) {
                    Some((Ok(info), o)) => Some((Ok(info), o.insert(n, info))),
                    Some((Err(_), o)) => Some((Err(()), o)),
                    None => None,
                }
            }
        },
        Type::Int(_, s) => Some((Ok(scalar_info(TypeForm::Inty(s))), own)),
        Type::Float(_, s) => Some((Ok(scalar_info(TypeForm::Floaty(s))), own)),
        Type::Array(_, t, len) => match def_resolve_spec(defs, outer, own, *t, fuel) {
            Some((Ok(info), o)) => Some(
                (
                    if info.form.spec_size_bytes() == 0 {
                        Err(())
                    } else {
                        Ok(TypeInfo { form: info.form, step: info.step, count: array_count(len) })
                    },
                    o,
                ),
            ),
            Some((Err(_), o)) => Some((Err(()), o)),
            None => None,
        },
        Type::Ptr(_, p, v) => match def_resolve_spec(defs, outer, own, *p, fuel) {
            Some((Ok(info), o)) => match def_resolve_spec(defs, outer, o, *v, fuel) {
                Some((Ok(_), o2)) => Some(
                    (
                        if info.form is Inty {
                            Ok(info)
                        } else {
                            Err(())
                        },
                        o2,
                    ),
                ),
                Some((Err(_), o2)) => Some((Err(()), o2)),
                None => None,
            },
            Some((Err(_), o)) => Some((Err(()), o)),
            None => None,
        },
        Type::Struct(_, ms) => {
            proof {
                assert(ms@.skip(0) =~= ms@);
            }
            sized_members(def_members_from(defs, outer, own, ms@, 0, fuel, 0, true, false))
        },
        Type::Union(_, ms) => {
            proof {
                assert(ms@.skip(0) =~= ms@);
            }
            sized_members(def_members_from(defs, outer, own, ms@, 0, fuel, 0, true, true))
        },
        Type::Func(_, ps, rs) => {
            proof {
                assert(ps@.skip(0) =~= ps@);
                assert(rs@.skip(0) =~= rs@);
            }
            match def_sub_members_from(defs, outer, own, ps@, 0, fuel, true) {
                Some((false, o)) => Some((Err(()), o)),
                Some((true, o)) => match def_sub_members_from(defs, outer, o, rs@, 0, fuel, true) {
                    Some((false, o2)) => Some((Err(()), o2)),
                    Some((true, o2)) => Some((Ok(scalar_info(TypeForm::Opaque(None))), o2)),
                    None => None,
                },
                None => None,
            }
        },
    }
}

/// The information of a structure or union from the resolution of its
/// members.
pub open spec fn sized_members(m: Option<(usize, bool, Map<Name, TypeInfo>)>) -> Option<
    (Result<TypeInfo, ()>, Map<Name, TypeInfo>),
> {
    match m {
        Some((size, true, o)) => Some((Ok(scalar_info(TypeForm::Opaque(Some(size)))), o)),
        Some((_, false, o)) => Some((Err(()), o)),
        None => None,
    }
}

/// The resolution of the members of `ms` from index `i` on: their sizes
/// combined into `size` (summed, or for a union the greatest), whether all
/// resolve to a known size (and `ok`), and the types resolved here
/// afterwards.  Every member is resolved, also after one fails.
pub open spec fn def_members_from(
    defs: Map<Name, Type>,
    outer: Map<Name, TypeInfo>,
    own: Map<Name, TypeInfo>,
    ms: Seq<Member>,
    i: int,
    fuel: nat,
    size: usize,
    ok: bool,
    is_union: bool,
) -> Option<(usize, bool, Map<Name, TypeInfo>)>
    decreases fuel, members_size(ms.skip(i)), 0nat,
{
    if 0 <= i < ms.len() {
        proof {
            lemma_member_smaller(ms, i);
        }
        match def_resolve_spec(defs, outer, own, ms[i].1, fuel) {
            None => None,
            Some((Err(_), o)) => def_members_from(
                defs,
                outer,
                o,
                ms,
                i + 1,
                fuel,
                size,
                false,
                is_union,
            ),
            Some((Ok(info), o)) => {
                let bytes = info.form.spec_size_bytes();
                if bytes == 0 {
                    def_members_from(defs, outer, o, ms, i + 1, fuel, size, false, is_union)
                } else if is_union {
                    def_members_from(
                        defs,
                        outer,
                        o,
                        ms,
                        i + 1,
                        fuel,
                        if size > bytes {
                            size
                        } else {
                            bytes as usize
                        },
                        ok,
                        is_union,
                    )
                } else if size + bytes > usize::MAX {
                    None
                } else {
                    def_members_from(
                        defs,
                        outer,
                        o,
                        ms,
                        i + 1,
                        fuel,
                        (size + bytes) as usize,
                        ok,
                        is_union,
                    )
                }
            },
        }
    } else {
        Some((size, ok, own))
    }
}

/// The resolution of each member of `ms` from index `i` on, on its own:
/// whether all resolve (and `ok`), and the types resolved here afterwards.
pub open spec fn def_sub_members_from(
    defs: Map<Name, Type>,
    outer: Map<Name, TypeInfo>,
    own: Map<Name, TypeInfo>,
    ms: Seq<Member>,
    i: int,
    fuel: nat,
    ok: bool,
) -> Option<(bool, Map<Name, TypeInfo>)>
    decreases fuel, members_size(ms.skip(i)), 0nat,
{
    if 0 <= i < ms.len() {
        proof {
            lemma_member_smaller(ms, i);
        }
        match def_resolve_spec(defs, outer, own, ms[i].1, fuel) {
            None => None,
            Some((r, o)) => def_sub_members_from(defs, outer, o, ms, i + 1, fuel, ok && r is Ok),
        }
    } else {
        Some((ok, own))
    }
}

/// The bytes that a member of a scalar type takes: that of its form.
pub open spec fn scalar_bytes(t: Type) -> nat {
    match t {
        Type::Int(_, s) => TypeForm::Inty(s).spec_size_bytes(),
        Type::Float(_, s) => TypeForm::Floaty(s).spec_size_bytes(),
        _ => 0,
    }
}

/// Every member of `ms` is of an integer or floating-point type of known,
/// nonzero size.
pub open spec fn sized_scalars(ms: Seq<Member>) -> bool {
    forall|i: int|
        0 <= i < ms.len() ==> (ms[i].1 is Int || ms[i].1 is Float) && 0 < #[trigger] scalar_bytes(
            ms[i].1,
        ) <= usize::MAX
}

proof fn lemma_union_members(
    defs: Map<Name, Type>,
    outer: Map<Name, TypeInfo>,
    own: Map<Name, TypeInfo>,
    ms: Seq<Member>,
    i: int,
    fuel: nat,
    size: usize,
    ok: bool,
)
    requires
        0 <= i <= ms.len(),
        sized_scalars(ms),
    ensures
        def_members_from(defs, outer, own, ms, i, fuel, size, ok, true) matches Some((m, ok2, o)) && {
            &&& ok2 == ok
            &&& o == own
            &&& size <= m
            &&& forall|j: int| i <= j < ms.len() ==> scalar_bytes(ms[j].1) <= m
            &&& m == size || exists|j: int| i <= j < ms.len() && m == scalar_bytes(ms[j].1)
        },
    decreases ms.len() - i,
{
    if i < ms.len() {
        let t = ms[i].1;
        let bytes = scalar_bytes(t);
        assert(0 < scalar_bytes(ms[i].1) <= usize::MAX);
        assert(def_resolve_spec(defs, outer, own, t, fuel) matches Some((Ok(info), o))
            && o == own && info.form.spec_size_bytes() == bytes);
        let next: usize = if size > bytes {
            size
        } else {
            bytes as usize
        };
        lemma_union_members(defs, outer, own, ms, i + 1, fuel, next, ok);
        let (m, ok2, o) = def_members_from(defs, outer, own, ms, i + 1, fuel, next, ok, true).unwrap();
        assert(def_members_from(defs, outer, own, ms, i, fuel, size, ok, true) == Some((m, ok2, o)));
        if m == next && next != size {
            assert(m == scalar_bytes(ms[i].1));
        }
        if m != next {
            let j = choose|j: int| i + 1 <= j < ms.len() && m == scalar_bytes(ms[j].1);
            assert(i <= j < ms.len() && m == scalar_bytes(ms[j].1));
        }
    }
}

/// A union of members of known sizes has the size of its greatest member:
/// no member is larger, and some member is as large (an empty union has
/// size 0).  So the size does not depend on the order of the members.
pub proof fn law_union_size_is_greatest(
    defs: Map<Name, Type>,
    outer: Map<Name, TypeInfo>,
    own: Map<Name, TypeInfo>,
    src: crate::pos::Source,
    ms: Vec<Member>,
    fuel: nat,
)
    requires
        sized_scalars(ms@),
    ensures
        def_resolve_spec(defs, outer, own, Type::Union(src, ms), fuel) matches Some((Ok(info), o)) && {
            &&& o == own
            &&& info.count == 1
            &&& info.form matches TypeForm::Opaque(Some(size)) && {
                &&& forall|j: int| 0 <= j < ms@.len() ==> scalar_bytes(ms@[j].1) <= size
                &&& ms@.len() == 0 ==> size == 0
                &&& ms@.len() > 0 ==> exists|j: int| 0 <= j < ms@.len() && size == scalar_bytes(ms@[j].1)
            }
        },
{
    assert(ms@.skip(0) =~= ms@);
    lemma_union_members(defs, outer, own, ms@, 0, fuel, 0, true);
    if ms@.len() > 0 {
        assert(scalar_bytes(ms@[0].1) > 0);
    }
}

/// The total bytes of the members of `ms` from index `i` on.
pub open spec fn scalar_total(ms: Seq<Member>, i: int) -> nat
    decreases ms.len() - i,
{
    if 0 <= i < ms.len() {
        scalar_bytes(ms[i].1) + scalar_total(ms, i + 1)
    } else {
        0
    }
}

proof fn lemma_struct_members(
    defs: Map<Name, Type>,
    outer: Map<Name, TypeInfo>,
    own: Map<Name, TypeInfo>,
    ms: Seq<Member>,
    i: int,
    fuel: nat,
    size: usize,
    ok: bool,
)
    requires
        0 <= i <= ms.len(),
        sized_scalars(ms),
        size + scalar_total(ms, i) <= usize::MAX,
    ensures
        def_members_from(defs, outer, own, ms, i, fuel, size, ok, false) == Some(
            ((size + scalar_total(ms, i)) as usize, ok, own),
        ),
    decreases ms.len() - i,
{
    if i < ms.len() {
        let bytes = scalar_bytes(ms[i].1);
        assert(0 < scalar_bytes(ms[i].1) <= usize::MAX);
        assert(def_resolve_spec(defs, outer, own, ms[i].1, fuel) matches Some((Ok(info), o))
            && o == own && info.form.spec_size_bytes() == bytes);
        assert(scalar_total(ms, i) == bytes + scalar_total(ms, i + 1));
        lemma_struct_members(defs, outer, own, ms, i + 1, fuel, (size + bytes) as usize, ok);
        assert(def_members_from(defs, outer, own, ms, i, fuel, size, ok, false)
            == def_members_from(defs, outer, own, ms, i + 1, fuel, (size + bytes) as usize, ok, false));
    } else {
        assert(scalar_total(ms, i) == 0);
    }
}

/// A structure of members of known sizes has the sum of their sizes.
pub proof fn law_struct_size_is_sum(
    defs: Map<Name, Type>,
    outer: Map<Name, TypeInfo>,
    own: Map<Name, TypeInfo>,
    src: crate::pos::Source,
    ms: Vec<Member>,
    fuel: nat,
)
    requires
        sized_scalars(ms@),
        scalar_total(ms@, 0) <= usize::MAX,
    ensures
        def_resolve_spec(defs, outer, own, Type::Struct(src, ms), fuel) == Some(
            (Ok::<TypeInfo, ()>(scalar_info(TypeForm::Opaque(Some(scalar_total(ms@, 0) as usize)))), own),
        ),
{
    assert(ms@.skip(0) =~= ms@);
    lemma_struct_members(defs, outer, own, ms@, 0, fuel, 0, true);
}

/// The information of the types of a scope: those of its enclosing scopes,
/// overridden by its own.
pub proof fn lemma_scope_infos<'a>(scope: TypeScope<'a>)
    ensures
        infos(scope.visible()) == outer_infos(&scope).union_prefer_right(infos(scope.own())),
{
    lemma_visible_with(scope);
    assert(infos(scope.visible()) =~= outer_infos(&scope).union_prefer_right(infos(scope.own())));
}

/// The definitions of a program, looked up by name.
pub struct InTypeDef<'r, 'a> {
    defs: &'r Vec<(Name, &'a Type)>,
}

impl<'r, 'a> InTypeDef<'r, 'a> {
    /// The definitions by name.
    pub closed spec fn defs(&self) -> Map<Name, Type> {
        define_all(Map::empty(), deref_defs(self.defs@))
    }

    /// Returns the definition of `name`, if any.
    fn get(&self, name: Name) -> (r: Option<&'a Type>)
        ensures
            r is Some <==> self.defs().contains_key(name),
            r matches Some(t) ==> *t == self.defs()[name],
    {
        let mut i = self.defs.len();
        while i > 0
            invariant
                i <= self.defs@.len(),
                define_all(Map::empty(), deref_defs(self.defs@)) == self.defs(),
                forall|j: int| i <= j < self.defs@.len() ==> self.defs@[j].0 != name,
            decreases i,
        {
            i = i - 1;
            if self.defs[i].0 == name {
                proof {
                    lemma_define_all_last(deref_defs(self.defs@), i as int, name);
                }
                return Some(self.defs[i].1);
            }
        }
        proof {
            lemma_define_all_absent(deref_defs(self.defs@), name);
        }
        None
    }

    /// Resolves the type named `name`: from the scope if it is resolved
    /// already, else from its definition, then defined in the scope.
    fn lookup(&self, name: Name, scope: &mut TypeScope<'a>, Ghost(fuel): Ghost<nat>) -> (r: Result<
        TypeInfo,
        (),
    >)
        requires
            def_resolve_spec(
                self.defs(),
                outer_infos(old(scope)),
                infos(old(scope).own()),
                Type::Ident(crate::pos::Source::BuiltIn, name, None),
                fuel,
            ) is Some,
        ensures
            final(scope).parent() == old(scope).parent(),
            def_resolve_spec(
                self.defs(),
                outer_infos(old(scope)),
                infos(old(scope).own()),
                Type::Ident(crate::pos::Source::BuiltIn, name, None),
                fuel,
            ) == Some((r, infos(final(scope).own()))),
        decreases fuel, 1nat, 0nat,
    {
        proof {
            lemma_scope_infos(*scope);
        }
        // Check if type is resolved already
        match scope.lookup(name) {
            Some(ty) => return Ok(ty.info),
            None => {},
        }
        // Check if type is defined in current scope
        let def = match self.get(name) {
            Some(def) => def,
            None => return Err(()),
        };
        // Resolve definition
        let resolver = TypeResolver::new(self);
        let info = match resolver.resolve(def, scope, Ghost((fuel - 1) as nat)) {
            Ok(info) => info,
            Err(()) => return Err(()),
        };
        let ghost before = infos(scope.own());
        let _ = scope.define(name, ResolvedType { ast: def, info });
        assert(infos(scope.own()) =~= before.insert(name, info));
        proof {
            lemma_scope_infos(*scope);
        }
        match scope.lookup(name) {
            Some(ty) => Ok(ty.info),
            None => vstd::pervasive::unreached(),
        }
    }
}

/// `define_all` of distinct names gives each name its own type.
proof fn lemma_define_all_last(d: Seq<(Name, Type)>, i: int, n: Name)
    requires
        0 <= i < d.len(),
        d[i].0 == n,
        forall|j: int| i < j < d.len() ==> d[j].0 != n,
    ensures
        define_all(Map::empty(), d).contains_key(n),
        define_all(Map::empty(), d)[n] == d[i].1,
    decreases d.len(),
{
    if i < d.len() - 1 {
        lemma_define_all_last(d.drop_last(), i, n);
    }
}

/// `define_all` defines only the names it is given.
proof fn lemma_define_all_absent(d: Seq<(Name, Type)>, n: Name)
    requires
        forall|j: int| 0 <= j < d.len() ==> d[j].0 != n,
    ensures
        !define_all(Map::empty(), d).contains_key(n),
    decreases d.len(),
{
    if d.len() > 0 {
        lemma_define_all_absent(d.drop_last(), n);
    }
}

/// Resolves types in the context of a program's definitions.
pub struct TypeResolver<'c, 'r, 'a> {
    ctx: &'c InTypeDef<'r, 'a>,
}

impl<'c, 'r, 'a> TypeResolver<'c, 'r, 'a> {
    /// The definitions it resolves with.
    pub closed spec fn defs(&self) -> Map<Name, Type> {
        self.ctx.defs()
    }

    /// A resolver in the context `ctx`.
    pub fn new(ctx: &'c InTypeDef<'r, 'a>) -> (r: Self)
        ensures
            r.defs() == ctx.defs(),
    {
        TypeResolver { ctx }
    }

    /// A resolver in the same context, for a type resolved on its own.
    pub fn sub(&self) -> (r: Self)
        ensures
            r.defs() == self.defs(),
    {
        Self::new(self.ctx)
    }

    /// Resolves `ty`, following at most `fuel` definitions.
    pub fn resolve(&self, ty: &'a Type, scope: &mut TypeScope<'a>, Ghost(fuel): Ghost<nat>) -> (r:
        Result<TypeInfo, ()>)
        requires
            def_resolve_spec(self.defs(), outer_infos(old(scope)), infos(old(scope).own()), *ty, fuel) is Some,
        ensures
            final(scope).parent() == old(scope).parent(),
            def_resolve_spec(self.defs(), outer_infos(old(scope)), infos(old(scope).own()), *ty, fuel)
                == Some((r, infos(final(scope).own()))),
        decreases fuel, type_size(*ty), 1nat,
    {
        match ty {
            Type::Ident(_, name, _) => {
                proof {
                    assert(def_resolve_spec(
                        self.defs(),
                        outer_infos(scope),
                        infos(scope.own()),
                        *ty,
                        fuel,
                    ) == def_resolve_spec(
                        self.defs(),
                        outer_infos(scope),
                        infos(scope.own()),
                        Type::Ident(crate::pos::Source::BuiltIn, *name, None),
                        fuel,
                    ));
                }
                self.ctx.lookup(*name, scope, Ghost(fuel))
            },
            Type::Int(_, s) => Ok(TypeInfo { form: TypeForm::Inty(*s), step: 0, count: 1 }),
            Type::Float(_, s) => Ok(TypeInfo { form: TypeForm::Floaty(*s), step: 0, count: 1 }),
            Type::Array(_, elem, len) => {
                let info = match self.resolve(elem, scope, Ghost(fuel)) {
                    Ok(info) => info,
                    Err(()) => return Err(()),
                };
                if info.form.size_bytes() == 0 {
                    // Array element does not have known size
                    return Err(());
                }
                let count = match len {
                    Some(n) => *n,
                    None => 0,
                };
                Ok(TypeInfo { form: info.form, step: info.step, count })
            },
            Type::Ptr(_, addr, val) => {
                let info = match self.resolve(addr, scope, Ghost(fuel)) {
                    Ok(info) => info,
                    Err(()) => return Err(()),
                };
                match self.sub().resolve(val, scope, Ghost(fuel)) {
                    Ok(_) => {},
                    Err(()) => return Err(()),
                }
                match info.form {
                    TypeForm::Inty(..) => Ok(info),
                    // Type not valid as a pointer
                    _ => Err(()),
                }
            },
            Type::Struct(_, members) => {
                let size = match self.resolve_members(members.as_slice(), false, scope, Ghost(fuel)) {
                    Ok(size) => size,
                    Err(()) => return Err(()),
                };
                Ok(TypeInfo { form: TypeForm::Opaque(Some(size)), step: 0, count: 1 })
            },
            Type::Union(_, members) => {
                let size = match self.resolve_members(members.as_slice(), true, scope, Ghost(fuel)) {
                    Ok(size) => size,
                    Err(()) => return Err(()),
                };
                Ok(TypeInfo { form: TypeForm::Opaque(Some(size)), step: 0, count: 1 })
            },
            Type::Func(_, params, rets) => {
                match self.sub_resolve_members(params.as_slice(), scope, Ghost(fuel)) {
                    Ok(()) => {},
                    Err(()) => return Err(()),
                }
                match self.sub_resolve_members(rets.as_slice(), scope, Ghost(fuel)) {
                    Ok(()) => {},
                    Err(()) => return Err(()),
                }
                Ok(TypeInfo { form: TypeForm::Opaque(None), step: 0, count: 1 })
            },
        }
    }

    /// Resolves each member, combining the sizes (summed, or for a union the
    /// greatest); fails if any member fails or has no known size.
    fn resolve_members(
        &self,
        members: &'a [Member],
        is_union: bool,
        scope: &mut TypeScope<'a>,
        Ghost(fuel): Ghost<nat>,
    ) -> (r: Result<usize, ()>)
        requires
            def_members_from(
                self.defs(),
                outer_infos(old(scope)),
                infos(old(scope).own()),
                members@,
                0,
                fuel,
                0,
                true,
                is_union,
            ) is Some,
        ensures
            final(scope).parent() == old(scope).parent(),
            def_members_from(
                self.defs(),
                outer_infos(old(scope)),
                infos(old(scope).own()),
                members@,
                0,
                fuel,
                0,
                true,
                is_union,
            ) matches Some((size, ok, o)) && o == infos(final(scope).own()) && r == (if ok {
                Ok::<usize, ()>(size)
            } else {
                Err::<usize, ()>(())
            }),
        decreases fuel, members_size(members@), 0nat,
    {
        let ghost outer = outer_infos(scope);
        let ghost total = def_members_from(
            self.defs(),
            outer,
            infos(scope.own()),
            members@,
            0,
            fuel,
            0,
            true,
            is_union,
        );
        let ghost parent = scope.parent();
        let mut size: usize = 0;
        let mut ok = true;
        let mut i: usize = 0;
        while i < members.len()
            invariant
                i <= members@.len(),
                scope.parent() == parent,
                outer_infos(scope) == outer,
                total is Some,
                def_members_from(
                    self.defs(),
                    outer,
                    infos(scope.own()),
                    members@,
                    i as int,
                    fuel,
                    size,
                    ok,
                    is_union,
                ) == total,
            decreases members.len() - i,
        {
            proof {
                lemma_member_smaller(members@, i as int);
            }
            match self.resolve(&members[i].1, scope, Ghost(fuel)) {
                Ok(info) => {
                    let bytes = info.form.size_bytes();
                    if bytes == 0 {
                        // Unsized type
                        ok = false;
                    } else if is_union {
                        size = max(size, bytes);
                    } else {
                        size = sum(size, bytes);
                    }
                },
                Err(()) => {
                    ok = false;
                },
            }
            i = i + 1;
        }
        if ok {
            Ok(size)
        } else {
            Err(())
        }
    }

    /// Resolves each member on its own; fails if any fails.
    fn sub_resolve_members(&self, members: &'a [Member], scope: &mut TypeScope<'a>, Ghost(fuel): Ghost<nat>) -> (r:
        Result<(), ()>)
        requires
            def_sub_members_from(
                self.defs(),
                outer_infos(old(scope)),
                infos(old(scope).own()),
                members@,
                0,
                fuel,
                true,
            ) is Some,
        ensures
            final(scope).parent() == old(scope).parent(),
            def_sub_members_from(
                self.defs(),
                outer_infos(old(scope)),
                infos(old(scope).own()),
                members@,
                0,
                fuel,
                true,
            ) matches Some((ok, o)) && o == infos(final(scope).own()) && r == (if ok {
                Ok::<(), ()>(())
            } else {
                Err::<(), ()>(())
            }),
        decreases fuel, members_size(members@), 0nat,
    {
        let ghost outer = outer_infos(scope);
        let ghost total = def_sub_members_from(
            self.defs(),
            outer,
            infos(scope.own()),
            members@,
            0,
            fuel,
            true,
        );
        let ghost parent = scope.parent();
        let mut ok = true;
        let mut i: usize = 0;
        while i < members.len()
            invariant
                i <= members@.len(),
                scope.parent() == parent,
                outer_infos(scope) == outer,
                total is Some,
                def_sub_members_from(
                    self.defs(),
                    outer,
                    infos(scope.own()),
                    members@,
                    i as int,
                    fuel,
                    ok,
                ) == total,
            decreases members.len() - i,
        {
            proof {
                lemma_member_smaller(members@, i as int);
            }
            if self.sub().resolve(&members[i].1, scope, Ghost(fuel)).is_err() {
                ok = false;
            }
            i = i + 1;
        }
        if ok {
            Ok(())
        } else {
            Err(())
        }
    }
}

/// The sum of two sizes.
fn sum(a: usize, b: usize) -> (r: usize)
    requires
        a + b <= usize::MAX,
    ensures
        r == a + b,
{
    a + b
}

/// The greater of two sizes.
fn max(a: usize, b: usize) -> (r: usize)
    ensures
        r == (if a > b {
            a
        } else {
            b
        }),
{
    if a > b {
        a
    } else {
        b
    }
}

// -----------------------------------------------------------------------------
// Defining the types of a program

/// No name is defined twice.
pub open spec fn names_distinct(d: Seq<(Name, Type)>) -> bool {
    forall|i: int, j: int| 0 <= i < j < d.len() ==> #[trigger] d[i].0 != #[trigger] d[j].0
}

/// Resolving `ty` with the definitions and types given ends.
pub open spec fn def_resolves(
    defs: Map<Name, Type>,
    outer: Map<Name, TypeInfo>,
    own: Map<Name, TypeInfo>,
    ty: Type,
) -> bool {
    exists|fuel: nat| (#[trigger] def_resolve_spec(defs, outer, own, ty, fuel)) is Some
}

/// The resolution of `ty` with the definitions and types given, where it
/// ends.
pub open spec fn def_resolution(
    defs: Map<Name, Type>,
    outer: Map<Name, TypeInfo>,
    own: Map<Name, TypeInfo>,
    ty: Type,
) -> (Result<TypeInfo, ()>, Map<Name, TypeInfo>) {
    def_resolve_spec(
        defs,
        outer,
        own,
        ty,
        choose|fuel: nat| (#[trigger] def_resolve_spec(defs, outer, own, ty, fuel)) is Some,
    ).unwrap()
}

/// The processing of the definitions `list` from index `i` on, with the
/// definitions by name `defs`: each is resolved and, if it resolves,
/// defined; the result is whether every one resolved and was not defined
/// already (and `ok`), and the types resolved here afterwards; `None` where
/// a resolution does not end.
pub open spec fn process_from(
    defs: Map<Name, Type>,
    outer: Map<Name, TypeInfo>,
    own: Map<Name, TypeInfo>,
    list: Seq<(Name, Type)>,
    i: int,
    ok: bool,
) -> Option<(bool, Map<Name, TypeInfo>)>
    decreases list.len() - i,
{
    if 0 <= i < list.len() {
        if !def_resolves(defs, outer, own, list[i].1) {
            None
        } else {
            match def_resolution(defs, outer, own, list[i].1) {
                (Ok(info), o) => process_from(
                    defs,
                    outer,
                    o.insert(list[i].0, info),
                    list,
                    i + 1,
                    ok && !o.contains_key(list[i].0),
                ),
                (Err(_), o) => process_from(defs, outer, o, list, i + 1, false),
            }
        }
    } else {
        Some((ok, own))
    }
}

/// Returns the type definitions of `ast`, in order.
pub fn tydefs_to_vec<'a>(ast: &'a Vec<Stmt>) -> (r: Vec<(Name, &'a Type)>)
    ensures
        deref_defs(r@) == typedefs(ast@),
{
    let mut tydefs: Vec<(Name, &'a Type)> = Vec::new();
    let mut k: usize = 0;
    while k < ast.len()
        invariant
            k <= ast.len(),
            deref_defs(tydefs@) == typedefs(ast@.take(k as int)),
        decreases ast.len() - k,
    {
        match &ast[k] {
            Stmt::TypeDef(_, name, ty) => {
                tydefs.push((*name, &**ty));
            },
            _ => {},
        }
        proof {
            assert(ast@.take(k + 1).drop_last() =~= ast@.take(k as int));
            assert(deref_defs(tydefs@) =~= typedefs(ast@.take(k + 1)));
        }
        k = k + 1;
    }
    assert(ast@.take(ast.len() as int) =~= ast@);
    tydefs
}

/// Returns the type definitions by name, failing if a name is defined
/// twice.
pub fn tydefs_to_map<'a>(vec: &Vec<(Name, &'a Type)>) -> (r: Result<Vec<(Name, &'a Type)>, ()>)
    ensures
        r is Ok <==> names_distinct(deref_defs(vec@)),
        r matches Ok(m) ==> m@ == vec@,
{
    let mut map: Vec<(Name, &'a Type)> = Vec::new();
    let mut ok = true;
    let mut i: usize = 0;
    while i < vec.len()
        invariant
            i <= vec@.len(),
            map@ == vec@.take(i as int),
            ok <==> names_distinct(deref_defs(vec@.take(i as int))),
        decreases vec.len() - i,
    {
        let (name, ty) = vec[i];
        let mut j: usize = 0;
        let mut fresh = true;
        while j < i
            invariant
                j <= i < vec@.len(),
                fresh <==> forall|k: int| 0 <= k < j ==> vec@[k].0 != name,
            decreases i - j,
        {
            if vec[j].0 == name {
                fresh = false;
            }
            j = j + 1;
        }
        if !fresh {
            // Duplicate type definition
            ok = false;
        }
        map.push((name, ty));
        proof {
            let d = deref_defs(vec@.take(i + 1));
            let d0 = deref_defs(vec@.take(i as int));
            assert(map@ =~= vec@.take(i + 1));
            if fresh && names_distinct(d0) {
                assert forall|a: int, b: int| 0 <= a < b < d.len() implies #[trigger] d[a].0
                    != #[trigger] d[b].0 by {
                    if b < i {
                        assert(d0[a].0 != d0[b].0);
                    }
                }
            }
            if names_distinct(d) {
                assert forall|a: int, b: int| 0 <= a < b < d0.len() implies #[trigger] d0[a].0
                    != #[trigger] d0[b].0 by {
                    assert(d[a].0 != d[b].0);
                }
                if !fresh {
                    let k = choose|k: int| 0 <= k < i && vec@[k].0 == name;
                    assert(d[k].0 != d[i as int].0);
                }
            }
        }
        i = i + 1;
    }
    assert(vec@.take(vec.len() as int) =~= vec@);
    if ok {
        Ok(map)
    } else {
        Err(())
    }
}

/// Resolves each definition of `vec` in turn with the definitions `map`,
/// and defines in `scope` those that resolve; every definition is
/// processed, also after one fails.
pub fn process_typedefs<'a>(
    vec: &Vec<(Name, &'a Type)>,
    map: &Vec<(Name, &'a Type)>,
    scope: &mut TypeScope<'a>,
) -> (r: Result<(), ()>)
    requires
        process_from(
            define_all(Map::empty(), deref_defs(map@)),
            outer_infos(old(scope)),
            infos(old(scope).own()),
            deref_defs(vec@),
            0,
            true,
        ) is Some,
    ensures
        final(scope).parent() == old(scope).parent(),
        process_from(
            define_all(Map::empty(), deref_defs(map@)),
            outer_infos(old(scope)),
            infos(old(scope).own()),
            deref_defs(vec@),
            0,
            true,
        ) matches Some((ok, o)) && o == infos(final(scope).own()) && (r is Ok <==> ok),
{
    let ctx = InTypeDef { defs: map };
    let ghost defs = ctx.defs();
    let ghost outer = outer_infos(scope);
    let ghost list = deref_defs(vec@);
    let ghost total = process_from(defs, outer, infos(scope.own()), list, 0, true);
    let ghost parent = scope.parent();
    let mut ok = true;
    let mut i: usize = 0;
    while i < vec.len()
        invariant
            i <= vec@.len(),
            list == deref_defs(vec@),
            defs == ctx.defs(),
            scope.parent() == parent,
            outer_infos(scope) == outer,
            total is Some,
            process_from(defs, outer, infos(scope.own()), list, i as int, ok) == total,
        decreases vec.len() - i,
    {
        let (name, ty) = vec[i];
        assert(list[i as int] == (name, *ty));
        let ghost own = infos(scope.own());
        let ghost fuel = choose|fuel: nat|
            (#[trigger] def_resolve_spec(defs, outer, own, *ty, fuel)) is Some;
        let res = TypeResolver::new(&ctx);
        match res.resolve(ty, scope, Ghost(fuel)) {
            Ok(info) => {
                let ghost o = infos(scope.own());
                let defined = scope.define(name, ResolvedType { ast: ty, info }).is_ok();
                assert(infos(scope.own()) =~= o.insert(name, info));
                ok = ok && defined;
            },
            Err(()) => {
                ok = false;
            },
        }
        i = i + 1;
    }
    if ok {
        Ok(())
    } else {
        Err(())
    }
}

/// Defines the types of the type definitions of `ast` in `scope`: fails
/// without defining any if a name is defined twice; else as
/// `process_typedefs` does.
pub fn define_types<'a>(ast: &'a Vec<Stmt>, scope: &mut TypeScope<'a>) -> (r: Result<(), ()>)
    requires
        names_distinct(typedefs(ast@)) ==> process_from(
            define_all(Map::empty(), typedefs(ast@)),
            outer_infos(old(scope)),
            infos(old(scope).own()),
            typedefs(ast@),
            0,
            true,
        ) is Some,
    ensures
        final(scope).parent() == old(scope).parent(),
        typedefs(ast@).len() == 0 ==> r is Ok && final(scope).own() == old(scope).own(),
        typedefs(ast@).len() != 0 && !names_distinct(typedefs(ast@)) ==> r is Err
            && final(scope).own() == old(scope).own(),
        typedefs(ast@).len() != 0 && names_distinct(typedefs(ast@)) ==> (process_from(
            define_all(Map::empty(), typedefs(ast@)),
            outer_infos(old(scope)),
            infos(old(scope).own()),
            typedefs(ast@),
            0,
            true,
        ) matches Some((ok, o)) && o == infos(final(scope).own()) && (r is Ok <==> ok)),
{
    // Collect type definitions into vec
    let vec = tydefs_to_vec(ast);
    if vec.len() == 0 {
        return Ok(());
    }
    // Collect type definitions into map
    let map = match tydefs_to_map(&vec) {
        Ok(map) => map,
        Err(()) => return Err(()),
    };
    // Verify soundness and define the types
    process_typedefs(&vec, &map, scope)
}

// -----------------------------------------------------------------------------
// Resolving with the types of a scope alone

/// Something that resolves types as written.
pub trait ResolveType<'a> {
    /// Whether resolving `ty` is defined (its sizes fit in a `usize`).
    spec fn resolvable(&self, ty: Type) -> bool;

    /// The resolution of `ty`.
    spec fn resolution(&self, ty: Type) -> Result<TypeInfo, ()>;

    /// Resolves `ty`.
    fn resolve(&self, ty: &'a Type) -> (r: Result<ResolvedType<'a>, ()>)
        requires
            self.resolvable(*ty),
        ensures
            r is Ok <==> self.resolution(*ty) is Ok,
            r matches Ok(rt) ==> *rt.ast == *ty && Ok::<TypeInfo, ()>(rt.info) == self.resolution(
                *ty,
            ),
    ;
}

impl<'a> ResolveType<'a> for TypeScope<'a> {
    /// A scope resolves with the types it has resolved, and no definitions.
    open spec fn resolvable(&self, ty: Type) -> bool {
        def_resolve_spec(Map::empty(), outer_infos(self), infos(self.own()), ty, 0) is Some
    }

    open spec fn resolution(&self, ty: Type) -> Result<TypeInfo, ()> {
        def_resolve_spec(Map::empty(), outer_infos(self), infos(self.own()), ty, 0).unwrap().0
    }

    fn resolve(&self, ty: &'a Type) -> (r: Result<ResolvedType<'a>, ()>) {
        let resolver = ScopeResolver { scope: self };
        match resolver.resolve(ty) {
            Ok(info) => Ok(ResolvedType { ast: ty, info }),
            Err(()) => Err(()),
        }
    }
}

/// Resolves types with the types that a scope has resolved.
struct ScopeResolver<'s, 'a> {
    scope: &'s TypeScope<'a>,
}

impl<'s, 'a> ScopeResolver<'s, 'a> {
    spec fn outer(&self) -> Map<Name, TypeInfo> {
        outer_infos(self.scope)
    }

    spec fn own(&self) -> Map<Name, TypeInfo> {
        infos(self.scope.own())
    }

    /// Resolves a named type: known if the scope has resolved it.
    fn lookup(&self, name: Name) -> (r: Result<TypeInfo, ()>)
        ensures
            def_resolve_spec(
                Map::empty(),
                self.outer(),
                self.own(),
                Type::Ident(crate::pos::Source::BuiltIn, name, None),
                0,
            ) == Some((r, self.own())),
    {
        proof {
            lemma_scope_infos(*self.scope);
        }
        match self.scope.lookup(name) {
            Some(ty) => Ok(ty.info),
            // Type not found
            None => Err(()),
        }
    }

    fn resolve(&self, ty: &Type) -> (r: Result<TypeInfo, ()>)
        requires
            def_resolve_spec(Map::empty(), self.outer(), self.own(), *ty, 0) is Some,
        ensures
            def_resolve_spec(Map::empty(), self.outer(), self.own(), *ty, 0) == Some((r, self.own())),
        decreases type_size(*ty), 1nat,
    {
        match ty {
            Type::Ident(_, name, _) => {
                proof {
                    assert(def_resolve_spec(Map::empty(), self.outer(), self.own(), *ty, 0)
                        == def_resolve_spec(
                        Map::empty(),
                        self.outer(),
                        self.own(),
                        Type::Ident(crate::pos::Source::BuiltIn, *name, None),
                        0,
                    ));
                }
                self.lookup(*name)
            },
            Type::Int(_, s) => Ok(TypeInfo { form: TypeForm::Inty(*s), step: 0, count: 1 }),
            Type::Float(_, s) => Ok(TypeInfo { form: TypeForm::Floaty(*s), step: 0, count: 1 }),
            Type::Array(_, elem, len) => {
                let info = match self.resolve(elem) {
                    Ok(info) => info,
                    Err(()) => return Err(()),
                };
                if info.form.size_bytes() == 0 {
                    // Array element does not have known size
                    return Err(());
                }
                let count = match len {
                    Some(n) => *n,
                    None => 0,
                };
                Ok(TypeInfo { form: info.form, step: info.step, count })
            },
            Type::Ptr(_, addr, val) => {
                let info = match self.resolve(addr) {
                    Ok(info) => info,
                    Err(()) => return Err(()),
                };
                match self.resolve(val) {
                    Ok(_) => {},
                    Err(()) => return Err(()),
                }
                match info.form {
                    TypeForm::Inty(..) => Ok(info),
                    // Type not valid as a pointer
                    _ => Err(()),
                }
            },
            Type::Struct(_, members) => {
                let size = match self.resolve_members(members.as_slice(), false) {
                    Ok(size) => size,
                    Err(()) => return Err(()),
                };
                Ok(TypeInfo { form: TypeForm::Opaque(Some(size)), step: 0, count: 1 })
            },
            Type::Union(_, members) => {
                let size = match self.resolve_members(members.as_slice(), true) {
                    Ok(size) => size,
                    Err(()) => return Err(()),
                };
                Ok(TypeInfo { form: TypeForm::Opaque(Some(size)), step: 0, count: 1 })
            },
            Type::Func(_, params, rets) => {
                match self.sub_resolve_members(params.as_slice()) {
                    Ok(()) => {},
                    Err(()) => return Err(()),
                }
                match self.sub_resolve_members(rets.as_slice()) {
                    Ok(()) => {},
                    Err(()) => return Err(()),
                }
                Ok(TypeInfo { form: TypeForm::Opaque(None), step: 0, count: 1 })
            },
        }
    }

    fn resolve_members(&self, members: &[Member], is_union: bool) -> (r: Result<usize, ()>)
        requires
            def_members_from(Map::empty(), self.outer(), self.own(), members@, 0, 0, 0, true, is_union) is Some,
        ensures
            def_members_from(Map::empty(), self.outer(), self.own(), members@, 0, 0, 0, true, is_union)
                matches Some((size, ok, o)) && o == self.own() && r == (if ok {
                Ok::<usize, ()>(size)
            } else {
                Err::<usize, ()>(())
            }),
        decreases members_size(members@), 0nat,
    {
        let ghost total = def_members_from(
            Map::empty(),
            self.outer(),
            self.own(),
            members@,
            0,
            0,
            0,
            true,
            is_union,
        );
        let mut size: usize = 0;
        let mut ok = true;
        let mut i: usize = 0;
        while i < members.len()
            invariant
                i <= members@.len(),
                total is Some,
                def_members_from(
                    Map::empty(),
                    self.outer(),
                    self.own(),
                    members@,
                    i as int,
                    0,
                    size,
                    ok,
                    is_union,
                ) == total,
            decreases members.len() - i,
        {
            proof {
                lemma_member_smaller(members@, i as int);
            }
            match self.resolve(&members[i].1) {
                Ok(info) => {
                    let bytes = info.form.size_bytes();
                    if bytes == 0 {
                        ok = false;
                    } else if is_union {
                        size = max(size, bytes);
                    } else {
                        size = sum(size, bytes);
                    }
                },
                Err(()) => {
                    ok = false;
                },
            }
            i = i + 1;
        }
        if ok {
            Ok(size)
        } else {
            Err(())
        }
    }

    fn sub_resolve_members(&self, members: &[Member]) -> (r: Result<(), ()>)
        requires
            def_sub_members_from(Map::empty(), self.outer(), self.own(), members@, 0, 0, true) is Some,
        ensures
            def_sub_members_from(Map::empty(), self.outer(), self.own(), members@, 0, 0, true)
                matches Some((ok, o)) && o == self.own() && r == (if ok {
                Ok::<(), ()>(())
            } else {
                Err::<(), ()>(())
            }),
        decreases members_size(members@), 0nat,
    {
        let ghost total = def_sub_members_from(
            Map::empty(),
            self.outer(),
            self.own(),
            members@,
            0,
            0,
            true,
        );
        let mut ok = true;
        let mut i: usize = 0;
        while i < members.len()
            invariant
                i <= members@.len(),
                total is Some,
                def_sub_members_from(Map::empty(), self.outer(), self.own(), members@, i as int, 0, ok)
                    == total,
            decreases members.len() - i,
        {
            proof {
                lemma_member_smaller(members@, i as int);
            }
            if self.resolve(&members[i].1).is_err() {
                ok = false;
            }
            i = i + 1;
        }
        if ok {
            Ok(())
        } else {
            Err(())
        }
    }
}

} // verus!
