//! The common recycler contract, and the mapping from a value shape to its
//! default recycler.

use vstd::prelude::*;

verus! {

/// A stateful pooling object for one shape of value.
///
/// `recycle` takes ownership of a no-longer-needed value and reclaims its
/// backing storage; `recreate` hands back a value equal to a borrowed
/// reference value, reusing reclaimed storage wherever possible. Recyclers
/// for compound shapes own recyclers for their constituent shapes and
/// delegate to them, so both operations recurse symmetrically through the
/// same composition tree.
pub trait Recycler: Sized {
    /// The shape of value this recycler manages.
    type Item: DeepView;

    /// Well-formedness of the recycler's state: every container it holds for
    /// reuse is empty of live data, and its nested recyclers (if any) are
    /// well-formed in turn.
    spec fn wf(&self) -> bool;

    /// Nothing is stashed, here or in any nested recycler.
    spec fn pristine(&self) -> bool;

    /// How a `recycle` call that consumed `item` moved this recycler from
    /// `pre` to `post`: the item's own shell entered this recycler's stash
    /// (where the shape has one), and every constituent of `item` was
    /// absorbed, recursively, by the matching nested recycler.
    spec fn absorbed(pre: Self, item: Self::Item, post: Self) -> bool;

    /// How a `recreate` call that produced `item` moved this recycler from
    /// `pre` to `post`: the item's own shell was withdrawn from this
    /// recycler's stash whenever one was stashed (where the shape has one),
    /// and every constituent of `item` was released, recursively, by the
    /// matching nested recycler.
    spec fn released(pre: Self, item: Self::Item, post: Self) -> bool;

    /// A fresh recycler with nothing stashed.
    fn make() -> (r: Self)
        ensures
            r.wf(),
            r.pristine(),
    ;

    /// Consumes `item` and reclaims its storage for later requests.
    /// Infallible: there is no input it rejects.
    fn recycle(&mut self, item: Self::Item)
        requires
            old(self).wf(),
        ensures
            final(self).wf(),
            Self::absorbed(*old(self), item, *final(self)),
    ;

    /// Produces a value equal to `*other` — same elements, same order, same
    /// content, at any nesting depth — preferring reclaimed storage over a
    /// fresh allocation.
    fn recreate(&mut self, other: &Self::Item) -> (result: Self::Item)
        requires
            old(self).wf(),
        ensures
            final(self).wf(),
            result.deep_view() == other.deep_view(),
            Self::released(*old(self), result, *final(self)),
    ;
}

/// A value shape that knows which recycler type manages it by default. The
/// association is resolved at compile time and is deterministic: the same
/// shape always yields the same recycler type, composed recursively out of
/// the default recyclers of its constituent shapes.
pub trait Recyclable: DeepView + Sized {
    /// The recycler type that manages this shape by default.
    type DefaultRecycler: Recycler<Item = Self>;
}

/// A fresh, default-constructed recycler for the shape `T`, with an empty
/// stash.
pub fn make_recycler<T: Recyclable>() -> (r: T::DefaultRecycler)
    ensures
        r.wf(),
        r.pristine(),
{
    <T::DefaultRecycler as Recycler>::make()
}

} // verus!
