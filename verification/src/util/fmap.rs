//! Mapping a function over the items of a fixed-size array.

use vstd::prelude::*;

verus! {

/// A container whose items can be mapped to a new container of the same
/// shape.
pub trait Fmap<T, U> {
    /// The container of mapped items.
    type Out;

    /// The items of the container, in order.
    spec fn items(&self) -> Seq<T>;

    /// The items of a container of mapped items, in order.
    spec fn out_items(out: Self::Out) -> Seq<U>;

    /// Returns the container of `f` applied to each item, in order.
    fn fmap<'a, F>(&'a self, f: F) -> (r: Self::Out) where F: Fn(&'a T) -> U, T: 'a
        requires
            forall|i: int| 0 <= i < self.items().len() ==> call_requires(f, (&self.items()[i],)),
        ensures
            Self::out_items(r).len() == self.items().len(),
            forall|i: int|
                0 <= i < self.items().len() ==> call_ensures(
                    f,
                    (&self.items()[i],),
                    #[trigger] Self::out_items(r)[i],
                ),
    ;
}

impl<T, U> Fmap<T, U> for [T; 0] {
    type Out = [U; 0];

    open spec fn items(&self) -> Seq<T> {
        self@
    }

    open spec fn out_items(out: [U; 0]) -> Seq<U> {
        out@
    }

    fn fmap<'a, F>(&'a self, f: F) -> (r: [U; 0]) where F: Fn(&'a T) -> U, T: 'a {
        let r: [U; 0] = [];
        assert(r@.len() == 0);
        r
    }
}

impl<T, U> Fmap<T, U> for [T; 1] {
    type Out = [U; 1];

    open spec fn items(&self) -> Seq<T> {
        self@
    }

    open spec fn out_items(out: [U; 1]) -> Seq<U> {
        out@
    }

    fn fmap<'a, F>(&'a self, f: F) -> (r: [U; 1]) where F: Fn(&'a T) -> U, T: 'a {
        let ghost items = <[T; 1] as Fmap<T, U>>::items(self);
        assert(call_requires(f, (&items[0],)));
        let a = f(&self[0]);
        [a]
    }
}

impl<T, U> Fmap<T, U> for [T; 2] {
    type Out = [U; 2];

    open spec fn items(&self) -> Seq<T> {
        self@
    }

    open spec fn out_items(out: [U; 2]) -> Seq<U> {
        out@
    }

    fn fmap<'a, F>(&'a self, f: F) -> (r: [U; 2]) where F: Fn(&'a T) -> U, T: 'a {
        let ghost items = <[T; 2] as Fmap<T, U>>::items(self);
        assert(call_requires(f, (&items[0],)));
        assert(call_requires(f, (&items[1],)));
        let a = f(&self[0]);
        let b = f(&self[1]);
        [a, b]
    }
}

} // verus!
