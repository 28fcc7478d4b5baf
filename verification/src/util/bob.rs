//! Bob ("Borrow or Box"): a pointer to an immutable value that is either
//! borrowed or boxed.

use std::borrow::Borrow;
use std::ops::Deref;
use vstd::prelude::*;
use vstd::std_specs::cmp::PartialEqSpec;
use vstd::std_specs::cmp::PartialOrdSpec;

verus! {

/// A pointer to an immutable value that is either borrowed or boxed.
pub enum Bob<'a, T: 'a> {
    /// Borrowed value.
    Borrowed(&'a T),
    /// Owned value.
    Owned(Box<T>),
}

impl<'a, T> Bob<'a, T> {
    /// The value pointed to.
    pub open spec fn value(&self) -> T {
        match self {
            Bob::Borrowed(b) => **b,
            Bob::Owned(o) => **o,
        }
    }

    /// Returns a `Bob` that borrows this instance's value.
    pub fn dup(&self) -> (r: Bob<'_, T>)
        ensures
            r is Borrowed,
            r.value() == self.value(),
    {
        Bob::Borrowed(self.get())
    }

    /// Returns a reference to the value pointed to.
    pub fn get(&self) -> (r: &T)
        ensures
            *r == self.value(),
    {
        match self {
            Bob::Borrowed(b) => *b,
            Bob::Owned(o) => &**o,
        }
    }
}

impl<'a, T: Clone> Clone for Bob<'a, T> {
    /// Returns a `Bob` that owns a clone of this instance's value.
    fn clone(&self) -> (r: Self)
        ensures
            r is Owned,
            cloned(self.value(), r.value()),
    {
        let v = self.get().clone();
        Bob::Owned(Box::new(v))
    }
}

impl<'a, T: 'a> From<T> for Bob<'a, T> {
    /// Boxes `t`.
    fn from(t: T) -> (r: Self) {
        Bob::Owned(Box::new(t))
    }
}

impl<'a, T: 'a> vstd::std_specs::convert::FromSpecImpl<T> for Bob<'a, T> {
    open spec fn obeys_from_spec() -> bool {
        true
    }

    open spec fn from_spec(v: T) -> Self {
        Bob::Owned(Box::new(v))
    }
}

impl<'a, T: 'a> From<&'a T> for Bob<'a, T> {
    /// Borrows `t`.
    fn from(t: &'a T) -> (r: Self) {
        Bob::Borrowed(t)
    }
}

impl<'a, T: 'a> vstd::std_specs::convert::FromSpecImpl<&'a T> for Bob<'a, T> {
    open spec fn obeys_from_spec() -> bool {
        true
    }

    open spec fn from_spec(v: &'a T) -> Self {
        Bob::Borrowed(v)
    }
}

impl<'a, T: 'a> AsRef<T> for Bob<'a, T> {
    fn as_ref(&self) -> (r: &T)
        ensures
            *r == self.value(),
    {
        self.get()
    }
}

impl<'a, T: 'a> Borrow<T> for Bob<'a, T> {
    fn borrow(&self) -> &T {
        self.get()
    }
}

impl<'a, T: 'a> Deref for Bob<'a, T> {
    type Target = T;

    fn deref(&self) -> (r: &T)
        ensures
            *r == self.value(),
    {
        self.get()
    }
}

impl<'a, T: PartialEq> PartialEq for Bob<'a, T> {
    /// Compares the values pointed to.
    fn eq(&self, other: &Self) -> (r: bool) {
        self.get() == other.get()
    }

    fn ne(&self, other: &Self) -> (r: bool) {
        self.get() != other.get()
    }
}

impl<'a, T: PartialEq> vstd::std_specs::cmp::PartialEqSpecImpl for Bob<'a, T> {
    open spec fn obeys_eq_spec() -> bool {
        T::obeys_eq_spec()
    }

    open spec fn eq_spec(&self, other: &Self) -> bool {
        self.value().eq_spec(&other.value())
    }
}

impl<'a, T: Eq> Eq for Bob<'a, T> {

}

impl<'a, T: PartialOrd> PartialOrd for Bob<'a, T> {
    /// Compares the values pointed to.
    fn partial_cmp(&self, other: &Self) -> (r: Option<std::cmp::Ordering>) {
        self.get().partial_cmp(other.get())
    }

    fn lt(&self, other: &Self) -> (r: bool) {
        self.get() < other.get()
    }

    fn le(&self, other: &Self) -> (r: bool) {
        self.get() <= other.get()
    }

    fn gt(&self, other: &Self) -> (r: bool) {
        self.get() > other.get()
    }

    fn ge(&self, other: &Self) -> (r: bool) {
        self.get() >= other.get()
    }
}

impl<'a, T: PartialOrd> vstd::std_specs::cmp::PartialOrdSpecImpl for Bob<'a, T> {
    open spec fn obeys_partial_cmp_spec() -> bool {
        T::obeys_partial_cmp_spec()
    }

    open spec fn partial_cmp_spec(&self, other: &Self) -> Option<std::cmp::Ordering> {
        self.value().partial_cmp_spec(&other.value())
    }
}

} // verus!
