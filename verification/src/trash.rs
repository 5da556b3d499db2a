//! The inert recycler, for shapes with no reusable heap storage.

use vstd::prelude::*;
use crate::recycler::Recyclable;
use crate::recycler::Recycler;
use core::marker::PhantomData;

verus! {

/// A recycler that pools nothing: it drops whatever it is given and copies
/// directly from the reference on `recreate`. This backs fixed-size scalar
/// shapes, which carry no heap storage worth reclaiming.
pub struct TrashRecycler<Item> {
    marker: PhantomData<Item>,
}

impl<Item: Copy + DeepView> Recycler for TrashRecycler<Item> {
    type Item = Item;

    /// An inert recycler holds no state, so it is always well-formed.
    open spec fn wf(&self) -> bool {
        true
    }

    /// An inert recycler stashes nothing.
    open spec fn pristine(&self) -> bool {
        true
    }

    /// Dropping a value leaves an inert recycler exactly as it was.
    open spec fn absorbed(pre: Self, item: Item, post: Self) -> bool {
        post == pre
    }

    /// Copying a value leaves an inert recycler exactly as it was.
    open spec fn released(pre: Self, item: Item, post: Self) -> bool {
        post == pre
    }

    fn make() -> (r: Self) {
        TrashRecycler { marker: PhantomData }
    }

    fn recycle(&mut self, _item: Item) {
    }

    fn recreate(&mut self, other: &Item) -> (result: Item)
        ensures
            result == *other,
    {
        *other
    }
}

impl<Item: Copy + DeepView> core::default::Default for TrashRecycler<Item> {
    fn default() -> (r: Self)
        ensures
            r.wf(),
            r.pristine(),
    {
        Self::make()
    }
}

impl Recyclable for u8 {
    type DefaultRecycler = TrashRecycler<Self>;
}

impl Recyclable for i8 {
    type DefaultRecycler = TrashRecycler<Self>;
}

impl Recyclable for u16 {
    type DefaultRecycler = TrashRecycler<Self>;
}

impl Recyclable for i16 {
    type DefaultRecycler = TrashRecycler<Self>;
}

impl Recyclable for u32 {
    type DefaultRecycler = TrashRecycler<Self>;
}

impl Recyclable for i32 {
    type DefaultRecycler = TrashRecycler<Self>;
}

impl Recyclable for u64 {
    type DefaultRecycler = TrashRecycler<Self>;
}

impl Recyclable for i64 {
    type DefaultRecycler = TrashRecycler<Self>;
}

impl Recyclable for usize {
    type DefaultRecycler = TrashRecycler<Self>;
}

impl Recyclable for isize {
    type DefaultRecycler = TrashRecycler<Self>;
}

impl Recyclable for bool {
    type DefaultRecycler = TrashRecycler<Self>;
}

} // verus!

