//! A copyable pointer to an immutable value, compared by the value.

use std::borrow::Borrow;
use std::ops::Deref;
use vstd::prelude::*;
use vstd::std_specs::cmp::PartialEqSpec;

verus! {

/// A pointer to an immutable value that lives at least as long as `'a`.
pub struct Ptr<'a, T: 'a>(&'a T);

impl<'a, T: 'a> Ptr<'a, T> {
    /// The value pointed to.
    pub closed spec fn value(&self) -> T {
        *self.0
    }

    /// Returns the reference, with the pointer's whole lifetime.
    pub fn as_ref(self) -> (r: &'a T)
        ensures
            *r == self.value(),
    {
        self.0
    }
}

impl<'a, T: 'a> From<&'a T> for Ptr<'a, T> {
    /// Points to `other`.
    fn from(other: &'a T) -> (r: Self)
        ensures
            r.value() == *other,
    {
        Ptr(other)
    }
}

impl<'a, T: 'a> vstd::std_specs::convert::FromSpecImpl<&'a T> for Ptr<'a, T> {
    open spec fn obeys_from_spec() -> bool {
        true
    }

    closed spec fn from_spec(v: &'a T) -> Self {
        Ptr(v)
    }
}

impl<'a, T: 'a> Clone for Ptr<'a, T> {
    /// Returns a pointer to the same value.
    fn clone(&self) -> (r: Self)
        ensures
            r == *self,
    {
        Ptr(self.0)
    }
}

impl<'a, T: 'a> Copy for Ptr<'a, T> {

}

impl<'a, T: 'a> Deref for Ptr<'a, T> {
    type Target = T;

    fn deref(&self) -> (r: &T)
        ensures
            *r == self.value(),
    {
        self.0
    }
}

impl<'a, T: 'a> Borrow<T> for Ptr<'a, T> {
    fn borrow(&self) -> &T {
        self.0
    }
}

impl<'a, T: PartialEq> PartialEq for Ptr<'a, T> {
    /// Compares the values pointed to.
    fn eq(&self, other: &Self) -> (r: bool) {
        self.0 == other.0
    }

    fn ne(&self, other: &Self) -> (r: bool) {
        self.0 != other.0
    }
}

impl<'a, T: PartialEq> vstd::std_specs::cmp::PartialEqSpecImpl for Ptr<'a, T> {
    open spec fn obeys_eq_spec() -> bool {
        T::obeys_eq_spec()
    }

    open spec fn eq_spec(&self, other: &Self) -> bool {
        self.value().eq_spec(&other.value())
    }
}

impl<'a, T: Eq> Eq for Ptr<'a, T> {

}

} // verus!
