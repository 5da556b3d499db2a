//! The sequence recycler, a composite over an element recycler.

use vstd::prelude::*;
use crate::recycler::Recyclable;
use crate::recycler::Recycler;

verus! {

/// The element-recycler states reachable from `pre` by absorbing every
/// element of `items`, one at a time from the last element down to the
/// first — the order in which `recycle` drains a sequence.
pub open spec fn absorbed_elems<R: Recycler>(pre: R, items: Seq<R::Item>, post: R) -> bool
    decreases items.len(),
{
    if items.len() == 0 {
        post == pre
    } else {
        exists|mid: R|
            absorbed_elems(pre, items.subrange(1, items.len() as int), mid) && #[trigger] R::absorbed(
                mid,
                items[0],
                post,
            )
    }
}

/// The element-recycler states reachable from `pre` by releasing every
/// element of `items`, one at a time in sequence order — the order in which
/// `recreate` fills a sequence.
pub open spec fn released_elems<R: Recycler>(pre: R, items: Seq<R::Item>, post: R) -> bool
    decreases items.len(),
{
    if items.len() == 0 {
        post == pre
    } else {
        exists|mid: R|
            released_elems(pre, items.drop_last(), mid) && #[trigger] R::released(
                mid,
                items.last(),
                post,
            )
    }
}

/// A recycler for sequence containers and, through a nested recycler, their
/// elements. It keeps a stash of previously used, now emptied containers,
/// each retaining its reserved capacity. `recycle` recycles every element
/// through the nested recycler, then stashes the emptied shell; `recreate`
/// fills a withdrawn shell (or a fresh one, when the stash is empty) with
/// recreated elements, preserving the reference's element order exactly.
pub struct VecRecycler<R: Recycler> {
    /// The recycler for the element shape.
    pub recycler: R,
    stash: Vec<Vec<R::Item>>,
}

impl<R: Recycler> VecRecycler<R> {
    /// The nested recycler for the element shape, as seen by contracts.
    pub closed spec fn element_recycler(&self) -> R {
        self.recycler
    }

    /// The stashed containers' contents, in stash order.
    pub closed spec fn stash_contents(&self) -> Seq<Seq<<R::Item as DeepView>::V>> {
        Seq::new(self.stash@.len(), |i: int| self.stash@[i].deep_view())
    }

    /// An empty container, paired with a mutable handle to the element
    /// recycler: the container is withdrawn from the stash when one is
    /// available, and freshly allocated otherwise. Elements pushed into it
    /// should come from the handed-out element recycler, so that pooling
    /// applies at every nesting level.
    pub fn new(&mut self) -> (ret: (Vec<R::Item>, &mut R))
        requires
            old(self).wf(),
        ensures
            ret.0@.len() == 0,
            *ret.1 == old(self).element_recycler(),
            final(self).element_recycler() == *final(ret.1),
            old(self).stash_contents().len() > 0 ==> final(self).stash_contents()
                == old(self).stash_contents().drop_last(),
            old(self).stash_contents().len() == 0 ==> final(self).stash_contents()
                == old(self).stash_contents(),
            (*final(ret.1)).wf() ==> final(self).wf(),
    {
        let v = match self.stash.pop() {
            Some(v0) => v0,
            None => Vec::new(),
        };
        proof {
            if old(self).stash_contents().len() > 0 {
                assert(v.deep_view() == old(self).stash_contents()[old(self).stash@.len() - 1]);
                assert(self.stash_contents() =~= old(self).stash_contents().drop_last());
            } else {
                assert(self.stash_contents() =~= old(self).stash_contents());
            }
        }
        (v, &mut self.recycler)
    }
}

impl<R: Recycler> Recycler for VecRecycler<R> {
    type Item = Vec<R::Item>;

    /// Every stashed container is empty of elements, and the element
    /// recycler is well-formed in turn.
    open spec fn wf(&self) -> bool {
        &&& self.element_recycler().wf()
        &&& forall|i: int| 0 <= i < self.stash_contents().len()
            ==> (#[trigger] self.stash_contents()[i]).len() == 0
    }

    /// No container is stashed, here or in the element recycler.
    open spec fn pristine(&self) -> bool {
        self.stash_contents().len() == 0 && self.element_recycler().pristine()
    }

    /// The emptied shell enters this recycler's stash, and every element is
    /// absorbed by the element recycler, from the last down to the first.
    open spec fn absorbed(pre: Self, item: Vec<R::Item>, post: Self) -> bool {
        &&& post.stash_contents() == pre.stash_contents().push(
            Seq::<<R::Item as DeepView>::V>::empty(),
        )
        &&& absorbed_elems(pre.element_recycler(), item@, post.element_recycler())
    }

    /// The produced shell is withdrawn from this recycler's stash whenever
    /// one is stashed, and every element is released by the element
    /// recycler, in sequence order.
    open spec fn released(pre: Self, item: Vec<R::Item>, post: Self) -> bool {
        &&& pre.stash_contents().len() > 0 ==> post.stash_contents()
            == pre.stash_contents().drop_last()
        &&& pre.stash_contents().len() == 0 ==> post.stash_contents() == pre.stash_contents()
        &&& released_elems(pre.element_recycler(), item@, post.element_recycler())
    }

    fn make() -> (r: Self)
        ensures
            r.stash_contents() == Seq::<Seq<<R::Item as DeepView>::V>>::empty(),
    {
        let r = VecRecycler { recycler: R::make(), stash: Vec::new() };
        proof {
            assert(r.stash_contents() =~= Seq::<Seq<<R::Item as DeepView>::V>>::empty());
        }
        r
    }

    fn recycle(&mut self, item: Vec<R::Item>) {
        let ghost items0: Seq<R::Item> = item@;
        let mut v = item;
        proof {
            assert(v@ =~= items0.subrange(0, v@.len() as int));
            assert(items0.subrange(v@.len() as int, items0.len() as int).len() == 0);
        }
        while v.len() > 0
            invariant
                old(self).wf(),
                self.recycler.wf(),
                self.stash@ == old(self).stash@,
                v@.len() <= items0.len(),
                v@ == items0.subrange(0, v@.len() as int),
                absorbed_elems(
                    old(self).element_recycler(),
                    items0.subrange(v@.len() as int, items0.len() as int),
                    self.element_recycler(),
                ),
            decreases v@.len(),
        {
            let ghost m: int = v@.len() as int;
            let ghost r_before: R = self.recycler;
            let x = v.pop().unwrap();
            self.recycler.recycle(x);
            proof {
                let consumed = items0.subrange(m - 1, items0.len() as int);
                assert(x == items0[m - 1]);
                assert(v@ =~= items0.subrange(0, m - 1));
                assert(consumed.subrange(1, consumed.len() as int) =~= items0.subrange(
                    m,
                    items0.len() as int,
                ));
                assert(R::absorbed(r_before, consumed[0], self.recycler));
                assert(absorbed_elems(
                    old(self).element_recycler(),
                    consumed,
                    self.element_recycler(),
                ));
            }
        }
        self.stash.push(v);
        proof {
            assert(items0.subrange(0, items0.len() as int) =~= items0);
            assert(v.deep_view() =~= Seq::<<R::Item as DeepView>::V>::empty());
            assert(self.stash_contents() =~= old(self).stash_contents().push(
                Seq::<<R::Item as DeepView>::V>::empty(),
            ));
        }
    }

    fn recreate(&mut self, other: &Vec<R::Item>) -> (result: Vec<R::Item>) {
        let mut v = match self.stash.pop() {
            Some(v0) => v0,
            None => Vec::new(),
        };
        proof {
            if old(self).stash_contents().len() > 0 {
                assert(v.deep_view() == old(self).stash_contents()[old(self).stash@.len() - 1]);
                assert(self.stash_contents() =~= old(self).stash_contents().drop_last());
            } else {
                assert(self.stash_contents() =~= old(self).stash_contents());
            }
            assert(v@.len() == 0);
        }
        let n = other.len();
        for i in 0..n
            invariant
                n == other@.len(),
                self.wf(),
                old(self).stash_contents().len() > 0 ==> self.stash_contents()
                    == old(self).stash_contents().drop_last(),
                old(self).stash_contents().len() == 0 ==> self.stash_contents()
                    == old(self).stash_contents(),
                v@.len() == i,
                forall|j: int| 0 <= j < i ==> (#[trigger] v@[j].deep_view())
                    == other@[j].deep_view(),
                released_elems(old(self).element_recycler(), v@, self.element_recycler()),
        {
            let ghost v_prev: Seq<R::Item> = v@;
            let ghost r_before: R = self.recycler;
            let x = self.recycler.recreate(&other[i]);
            v.push(x);
            proof {
                assert(v@.drop_last() =~= v_prev);
                assert(R::released(r_before, v@.last(), self.recycler));
                assert(released_elems(
                    old(self).element_recycler(),
                    v@,
                    self.element_recycler(),
                ));
            }
        }
        proof {
            assert forall|j: int| 0 <= j < v.deep_view().len() implies v.deep_view()[j]
                == other.deep_view()[j] by {
                assert(v.deep_view()[j] == v@[j].deep_view());
                assert(other.deep_view()[j] == other@[j].deep_view());
            }
            assert(v.deep_view() =~= other.deep_view());
        }
        v
    }
}

impl<R: Recycler> core::default::Default for VecRecycler<R> {
    fn default() -> (r: Self)
        ensures
            r.wf(),
            r.pristine(),
            r.stash_contents() == Seq::<Seq<<R::Item as DeepView>::V>>::empty(),
    {
        Self::make()
    }
}

impl<T: Recyclable> Recyclable for Vec<T> {
    type DefaultRecycler = VecRecycler<T::DefaultRecycler>;
}

} // verus!
