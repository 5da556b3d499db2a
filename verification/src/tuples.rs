//! Tuple recyclers: composites with one independently typed recycler per
//! field, and no stash of their own — a tuple shell carries no heap storage
//! distinct from its fields.

use vstd::prelude::*;
use crate::recycler::Recyclable;
use crate::recycler::Recycler;

verus! {

impl<R1: Recycler, R2: Recycler> Recycler for (R1, R2) {
    type Item = (R1::Item, R2::Item);

    /// Well-formed exactly when every field's recycler is.
    open spec fn wf(&self) -> bool {
        self.0.wf() && self.1.wf()
    }

    /// Nothing is stashed in either field's recycler.
    open spec fn pristine(&self) -> bool {
        self.0.pristine() && self.1.pristine()
    }

    /// Each field is absorbed by its own recycler.
    open spec fn absorbed(pre: Self, item: (R1::Item, R2::Item), post: Self) -> bool {
        R1::absorbed(pre.0, item.0, post.0) && R2::absorbed(pre.1, item.1, post.1)
    }

    /// Each field is released by its own recycler.
    open spec fn released(pre: Self, item: (R1::Item, R2::Item), post: Self) -> bool {
        R1::released(pre.0, item.0, post.0) && R2::released(pre.1, item.1, post.1)
    }

    fn make() -> (r: Self) {
        (R1::make(), R2::make())
    }

    fn recycle(&mut self, item: (R1::Item, R2::Item)) {
        let (part1, part2) = item;
        self.0.recycle(part1);
        self.1.recycle(part2);
    }

    fn recreate(&mut self, other: &(R1::Item, R2::Item)) -> (result: (R1::Item, R2::Item)) {
        (self.0.recreate(&other.0), self.1.recreate(&other.1))
    }
}

impl<R1: Recycler, R2: Recycler, R3: Recycler> Recycler for (R1, R2, R3) {
    type Item = (R1::Item, R2::Item, R3::Item);

    /// Well-formed exactly when every field's recycler is.
    open spec fn wf(&self) -> bool {
        self.0.wf() && self.1.wf() && self.2.wf()
    }

    /// Nothing is stashed in any field's recycler.
    open spec fn pristine(&self) -> bool {
        self.0.pristine() && self.1.pristine() && self.2.pristine()
    }

    /// Each field is absorbed by its own recycler.
    open spec fn absorbed(pre: Self, item: (R1::Item, R2::Item, R3::Item), post: Self) -> bool {
        &&& R1::absorbed(pre.0, item.0, post.0)
        &&& R2::absorbed(pre.1, item.1, post.1)
        &&& R3::absorbed(pre.2, item.2, post.2)
    }

    /// Each field is released by its own recycler.
    open spec fn released(pre: Self, item: (R1::Item, R2::Item, R3::Item), post: Self) -> bool {
        &&& R1::released(pre.0, item.0, post.0)
        &&& R2::released(pre.1, item.1, post.1)
        &&& R3::released(pre.2, item.2, post.2)
    }

    fn make() -> (r: Self) {
        (R1::make(), R2::make(), R3::make())
    }

    fn recycle(&mut self, item: (R1::Item, R2::Item, R3::Item)) {
        let (part1, part2, part3) = item;
        self.0.recycle(part1);
        self.1.recycle(part2);
        self.2.recycle(part3);
    }

    fn recreate(&mut self, other: &(R1::Item, R2::Item, R3::Item)) -> (result: (
        R1::Item,
        R2::Item,
        R3::Item,
    )) {
        (self.0.recreate(&other.0), self.1.recreate(&other.1), self.2.recreate(&other.2))
    }
}

impl<A: Recyclable, B: Recyclable> Recyclable for (A, B) {
    type DefaultRecycler = (A::DefaultRecycler, B::DefaultRecycler);
}

impl<A: Recyclable, B: Recyclable, C: Recyclable> Recyclable for (A, B, C) {
    type DefaultRecycler = (A::DefaultRecycler, B::DefaultRecycler, C::DefaultRecycler);
}

} // verus!
