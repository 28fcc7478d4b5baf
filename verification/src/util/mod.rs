//! Utilities.

pub mod bob;
pub mod byte_order;
pub mod fmap;
pub mod text;

use vstd::prelude::*;

use crate::types::Type;

verus! {

/// A value paired with the context it is to be shown in.
#[derive(Clone, Copy, PartialEq, Eq, Debug)]
pub struct With<T, C>(pub T, pub C);

/// Pairing a value with a context.
pub trait ToWith: Sized {
    /// Pairs the value with the context `c`.
    fn with<C>(self, c: C) -> (r: With<Self, C>)
        ensures
            r == With(self, c),
    {
        With(self, c)
    }
}

impl<T: Sized> ToWith for T {

}

/// Something in which objects can be looked up by key.
pub trait Lookup<K, V> {
    /// The object that `key` names, if any.
    spec fn spec_lookup(&self, key: K) -> Option<V>;

    fn lookup(&self, key: &K) -> (r: Option<&V>)
        ensures
            match r {
                Some(v) => self.spec_lookup(*key) == Some(*v),
                None => self.spec_lookup(*key) is None,
            },
    ;
}

/// Calls `std::ptr::eq`, which tells whether two references point to the
/// same place.  Nothing is stated of the result: for a type of size zero,
/// two different values may sit at one address.
#[verifier::external_body]
pub fn ref_eq<T: ?Sized>(x: &T, y: &T) -> (r: bool) {
    std::ptr::eq(x, y)
}

/// Calls `std::ptr::eq` on two types as written, telling whether they are
/// the very same type.  A `Type` has a nonzero size, so two references to
/// one place refer to one value: a true result means that the types are
/// equal.  The converse is not stated.
#[verifier::external_body]
pub(crate) fn same_type(x: &Type, y: &Type) -> (r: bool)
    ensures
        r ==> x == y,
{
    std::ptr::eq(x, y)
}

} // verus!
