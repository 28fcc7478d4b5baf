//! Lexical scopes: maps from names to objects, each with an optional
//! enclosing scope.

use std::collections::HashMap;
use vstd::prelude::*;

use crate::mem::Name;
use crate::util::bob::Bob;
use crate::util::Lookup;

verus! {

broadcast use vstd::std_specs::hash::group_hash_axioms;

/// A scope of symbols and a scope of types.
pub struct Scope<'a, S, T> {
    /// The symbols defined in the scope.
    pub symbols: ScopeMap<'a, S>,
    /// The types defined in the scope.
    pub types: ScopeMap<'a, T>,
}

impl<'a, S, T> Scope<'a, S, T> {
    /// Returns an empty scope with no enclosing scope.
    pub fn new() -> (r: Self)
        ensures
            r.symbols.own() == Map::<Name, S>::empty(),
            r.types.own() == Map::<Name, T>::empty(),
            r.symbols.parent() is None,
            r.types.parent() is None,
    {
        Scope { symbols: ScopeMap::new(None), types: ScopeMap::new(None) }
    }

    /// Returns an empty scope enclosed by `parent`.
    pub fn with_parent(parent: &'a Scope<'a, S, T>) -> (r: Self)
        ensures
            r.symbols.own() == Map::<Name, S>::empty(),
            r.types.own() == Map::<Name, T>::empty(),
            r.symbols.parent() == Some(&parent.symbols),
            r.types.parent() == Some(&parent.types),
    {
        Scope {
            symbols: ScopeMap::new(Some(&parent.symbols)),
            types: ScopeMap::new(Some(&parent.types)),
        }
    }
}

/// A map from names to objects, which are owned or borrowed, with an
/// optional enclosing map that is searched for names not defined here.
pub struct ScopeMap<'a, T> {
    map: HashMap<usize, Bob<'a, T>>,
    parent: Option<&'a ScopeMap<'a, T>>,
}

impl<'a, T> ScopeMap<'a, T> {
    /// The objects defined in this map itself.
    pub closed spec fn own(&self) -> Map<Name, T> {
        Map::new(|n: Name| self.map@.contains_key(n.0), |n: Name| self.map@[n.0].value())
    }

    /// The enclosing map, if any.
    pub closed spec fn parent(&self) -> Option<&'a ScopeMap<'a, T>> {
        self.parent
    }

    /// The objects visible from this map: its own, and those of the
    /// enclosing maps that it does not redefine.
    pub open spec fn visible(&self) -> Map<Name, T>
        decreases self,
    {
        match self.parent() {
            Some(p) => {
                proof {
                    lemma_parent_decreases(*self, p);
                }
                p.visible().union_prefer_right(self.own())
            },
            None => self.own(),
        }
    }

    /// The objects that would be visible from this map if it defined `own`
    /// itself.
    pub open spec fn visible_with(&self, own: Map<Name, T>) -> Map<Name, T> {
        match self.parent() {
            Some(p) => p.visible().union_prefer_right(own),
            None => own,
        }
    }

    /// Returns an empty map with the given enclosing map.
    pub fn new(parent: Option<&'a ScopeMap<'a, T>>) -> (r: Self)
        ensures
            r.own() == Map::<Name, T>::empty(),
            r.parent() == parent,
    {
        let r = ScopeMap { map: HashMap::new(), parent };
        assert(r.own() =~= Map::<Name, T>::empty());
        r
    }

    /// Defines `name` as the owned object `obj`.  If the name was already
    /// defined in this map, the definition is replaced and the replaced
    /// object is returned as the error.
    pub fn define(&mut self, name: Name, obj: T) -> (r: Result<(), Bob<'a, T>>)
        ensures
            final(self).own() == old(self).own().insert(name, obj),
            final(self).parent() == old(self).parent(),
            r is Err <==> old(self).own().contains_key(name),
            r matches Err(b) ==> b.value() == old(self).own()[name],
    {
        self.insert(name, Bob::Owned(Box::new(obj)))
    }

    /// Defines `name` as the borrowed object `obj`.  If the name was already
    /// defined in this map, the definition is replaced and the replaced
    /// object is returned as the error.
    pub fn define_ref(&mut self, name: Name, obj: &'a T) -> (r: Result<(), Bob<'a, T>>)
        ensures
            final(self).own() == old(self).own().insert(name, *obj),
            final(self).parent() == old(self).parent(),
            r is Err <==> old(self).own().contains_key(name),
            r matches Err(b) ==> b.value() == old(self).own()[name],
    {
        self.insert(name, Bob::Borrowed(obj))
    }

    fn insert(&mut self, name: Name, obj: Bob<'a, T>) -> (r: Result<(), Bob<'a, T>>)
        ensures
            final(self).own() == old(self).own().insert(name, obj.value()),
            final(self).parent() == old(self).parent(),
            r is Err <==> old(self).own().contains_key(name),
            r matches Err(b) ==> b.value() == old(self).own()[name],
    {
        let ghost v = obj.value();
        let prev = self.map.insert(name.0, obj);
        assert(self.own() =~= old(self).own().insert(name, v));
        match prev {
            None => Ok(()),
            Some(b) => Err(b),
        }
    }

    /// Returns the object that `name` names here or, failing that, in the
    /// enclosing maps.
    pub fn lookup(&self, name: Name) -> (r: Option<&T>)
        ensures
            r matches Some(v) ==> self.visible().contains_key(name) && self.visible()[name] == *v,
            r is None ==> !self.visible().contains_key(name),
            self.own().contains_key(name) ==> r == Some(&self.own()[name]),
            !self.own().contains_key(name) && self.parent() is None ==> r is None,
            !self.own().contains_key(name) && self.parent() is Some ==> match r {
                Some(v) => self.parent().unwrap().visible().contains_key(name)
                    && self.parent().unwrap().visible()[name] == *v,
                None => !self.parent().unwrap().visible().contains_key(name),
            },
        decreases self,
    {
        // First, look in this map
        match self.map.get(&name.0) {
            Some(obj) => {
                return Some(obj.get());
            },
            None => {},
        }
        // Else, look in the enclosing map, if any
        match self.parent {
            Some(parent) => {
                assert(decreases_to!(self => parent));
                parent.lookup(name)
            },
            None => None,
        }
    }
}

impl<'a, T> Lookup<Name, T> for ScopeMap<'a, T> {
    open spec fn spec_lookup(&self, key: Name) -> Option<T> {
        if self.visible().contains_key(key) {
            Some(self.visible()[key])
        } else {
            None
        }
    }

    fn lookup(&self, key: &Name) -> (r: Option<&T>) {
        ScopeMap::lookup(self, *key)
    }
}

/// A definition is visible at once, whatever the enclosing maps hold.
pub proof fn law_defined_is_visible<'a, T>(
    before: ScopeMap<'a, T>,
    after: ScopeMap<'a, T>,
    name: Name,
    obj: T,
)
    requires
        after.own() == before.own().insert(name, obj),
        after.parent() == before.parent(),
    ensures
        after.visible().contains_key(name),
        after.visible()[name] == obj,
{
}

/// A map's own definition hides any definition of the same name in the
/// enclosing maps.
pub proof fn law_own_shadows<'a, T>(m: ScopeMap<'a, T>, name: Name)
    requires
        m.own().contains_key(name),
    ensures
        m.visible().contains_key(name),
        m.visible()[name] == m.own()[name],
{
    lemma_visible_with(m);
}

/// A name that a map does not define itself is looked up in its enclosing
/// map.
pub proof fn law_inherited<'a, T>(m: ScopeMap<'a, T>, parent: &'a ScopeMap<'a, T>, name: Name)
    requires
        m.parent() == Some(parent),
        !m.own().contains_key(name),
    ensures
        m.visible().contains_key(name) == parent.visible().contains_key(name),
        m.visible().contains_key(name) ==> m.visible()[name] == parent.visible()[name],
{
    assert(decreases_to!(m => parent)) by {
        lemma_parent_decreases(m, parent);
    }
}

/// A name is visible nowhere exactly when the map does not define it and
/// its enclosing map, if there is one, shows nothing under it.
pub proof fn law_absent<'a, T>(m: ScopeMap<'a, T>, name: Name)
    ensures
        !m.visible().contains_key(name) <==> {
            &&& !m.own().contains_key(name)
            &&& (m.parent() is None || !m.parent().unwrap().visible().contains_key(name))
        },
{
}

/// What a map shows is what its enclosing maps show, overridden by its own
/// definitions.
pub proof fn lemma_visible_with<'a, T>(m: ScopeMap<'a, T>)
    ensures
        m.visible() == m.visible_with(m.own()),
{
    match m.parent() {
        Some(p) => lemma_parent_decreases(m, p),
        None => {},
    }
}

/// A map's enclosing map is smaller than the map.
pub proof fn lemma_parent_decreases<'a, T>(m: ScopeMap<'a, T>, parent: &'a ScopeMap<'a, T>)
    requires
        m.parent() == Some(parent),
    ensures
        decreases_to!(m => parent),
{
    match m.parent {
        Some(p) => {
            assert(decreases_to!(m => p));
        },
        None => {},
    }
}

} // verus!
