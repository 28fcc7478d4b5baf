//! Containment of values in a type.

use vstd::prelude::*;

verus! {

/// A value domain that can tell whether it holds a given item.
///
/// `Some(true)` means the item is definitely in the domain, `Some(false)`
/// that it is definitely not, and `None` that this is not known.
pub trait Contains<T> {
    /// What `contains` answers for `item`.
    spec fn spec_contains(&self, item: T) -> Option<bool>;

    /// Whether the domain is well formed enough to be asked.
    spec fn can_contain(&self) -> bool;

    fn contains(&self, item: &T) -> (r: Option<bool>)
        requires
            self.can_contain(),
        ensures
            r == self.spec_contains(*item),
    ;
}

/// An optional domain knows nothing when it is absent.
impl<T, S: Contains<T>> Contains<T> for Option<S> {
    open spec fn spec_contains(&self, item: T) -> Option<bool> {
        match self {
            Some(s) => s.spec_contains(item),
            None => None,
        }
    }

    open spec fn can_contain(&self) -> bool {
        match self {
            Some(s) => s.can_contain(),
            None => true,
        }
    }

    fn contains(&self, item: &T) -> (r: Option<bool>) {
        match self {
            Some(s) => s.contains(item),
            None => None,
        }
    }
}

} // verus!
