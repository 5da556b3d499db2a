//! The optional-value recycler, wrapping one inner recycler.

use vstd::prelude::*;
use crate::recycler::Recyclable;
use crate::recycler::Recycler;

verus! {

/// A recycler for optional values. It keeps no stash of its own: a present
/// value is forwarded to the inner recycler, and an absent value carries no
/// allocation, so recycling it reclaims nothing.
pub struct OptionRecycler<R: Recycler> {
    /// The recycler for the contained shape.
    pub recycler: R,
}

impl<R: Recycler> Recycler for OptionRecycler<R> {
    type Item = Option<R::Item>;

    /// Well-formed exactly when the inner recycler is.
    open spec fn wf(&self) -> bool {
        self.recycler.wf()
    }

    /// Nothing is stashed in the inner recycler.
    open spec fn pristine(&self) -> bool {
        self.recycler.pristine()
    }

    /// A present value is absorbed by the inner recycler; an absent value
    /// carries no storage and leaves everything as it was.
    open spec fn absorbed(pre: Self, item: Option<R::Item>, post: Self) -> bool {
        match item {
            Some(inner) => R::absorbed(pre.recycler, inner, post.recycler),
            None => post == pre,
        }
    }

    /// A present value is released by the inner recycler; an absent value
    /// is produced without touching anything.
    open spec fn released(pre: Self, item: Option<R::Item>, post: Self) -> bool {
        match item {
            Some(inner) => R::released(pre.recycler, inner, post.recycler),
            None => post == pre,
        }
    }

    fn make() -> (r: Self) {
        OptionRecycler { recycler: R::make() }
    }

    fn recycle(&mut self, item: Option<R::Item>) {
        match item {
            Some(thing) => self.recycler.recycle(thing),
            None => (),
        }
    }

    fn recreate(&mut self, other: &Option<R::Item>) -> (result: Option<R::Item>)
        ensures
            result is Some <==> *other is Some,
    {
        match other {
            Some(thing) => Some(self.recycler.recreate(thing)),
            None => None,
        }
    }
}

impl<R: Recycler> core::default::Default for OptionRecycler<R> {
    fn default() -> (r: Self)
        ensures
            r.wf(),
            r.pristine(),
    {
        Self::make()
    }
}

impl<T: Recyclable> Recyclable for Option<T> {
    type DefaultRecycler = OptionRecycler<T::DefaultRecycler>;
}

} // verus!
