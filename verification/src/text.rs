//! The buffer recycler, for text.

use vstd::prelude::*;
use crate::recycler::Recyclable;
use crate::recycler::Recycler;

verus! {

/// Relies on String::clear: it removes every character while keeping the
/// buffer's allocated capacity.
pub assume_specification[ String::clear ](s: &mut String)
    ensures
        final(s)@ == Seq::<char>::empty(),
;

/// A recycler for text buffers. It keeps a stash of previously used, now
/// cleared buffers, each retaining its allocated capacity; `recycle` clears a
/// buffer and stashes it, and `recreate`/`new_from` fill a withdrawn buffer
/// (or a fresh one, when the stash is empty) from the reference.
pub struct StringRecycler {
    stash: Vec<String>,
}

impl StringRecycler {
    /// The stashed buffers' contents, in stash order.
    pub closed spec fn stash_contents(&self) -> Seq<Seq<char>> {
        Seq::new(self.stash@.len(), |i: int| self.stash@[i]@)
    }

    /// An empty buffer: withdrawn from the stash when one is available,
    /// freshly allocated otherwise.
    pub fn new(&mut self) -> (s: String)
        requires
            old(self).wf(),
        ensures
            final(self).wf(),
            s@ == Seq::<char>::empty(),
            old(self).stash_contents().len() > 0 ==> final(self).stash_contents()
                == old(self).stash_contents().drop_last(),
            old(self).stash_contents().len() == 0 ==> final(self).stash_contents()
                == old(self).stash_contents(),
    {
        match self.stash.pop() {
            Some(s) => {
                proof {
                    assert(s@ == old(self).stash_contents()[old(self).stash@.len() - 1]);
                    assert(s@ =~= Seq::<char>::empty());
                    assert(self.stash_contents() =~= old(self).stash_contents().drop_last());
                }
                s
            },
            None => {
                proof {
                    assert(self.stash_contents() =~= old(self).stash_contents());
                }
                String::new()
            },
        }
    }

    /// An owned buffer holding the same characters as `s`, built in a
    /// withdrawn stashed buffer when one is available.
    pub fn new_from(&mut self, s: &str) -> (r: String)
        requires
            old(self).wf(),
        ensures
            final(self).wf(),
            r@ == s@,
            old(self).stash_contents().len() > 0 ==> final(self).stash_contents()
                == old(self).stash_contents().drop_last(),
            old(self).stash_contents().len() == 0 ==> final(self).stash_contents()
                == old(self).stash_contents(),
    {
        let mut r = self.new();
        r.append(s);
        proof {
            assert(r@ =~= s@);
        }
        r
    }
}

impl Recycler for StringRecycler {
    type Item = String;

    /// Every stashed buffer is cleared of content.
    open spec fn wf(&self) -> bool {
        forall|i: int| 0 <= i < self.stash_contents().len()
            ==> (#[trigger] self.stash_contents()[i]).len() == 0
    }

    /// No buffer is stashed.
    open spec fn pristine(&self) -> bool {
        self.stash_contents().len() == 0
    }

    /// Recycling a buffer stashes exactly that buffer, cleared.
    open spec fn absorbed(pre: Self, item: String, post: Self) -> bool {
        post.stash_contents() == pre.stash_contents().push(Seq::<char>::empty())
    }

    /// Recreating a buffer withdraws the last stashed buffer when there is
    /// one, and touches nothing when the stash is empty.
    open spec fn released(pre: Self, item: String, post: Self) -> bool {
        &&& pre.stash_contents().len() > 0 ==> post.stash_contents()
            == pre.stash_contents().drop_last()
        &&& pre.stash_contents().len() == 0 ==> post.stash_contents() == pre.stash_contents()
    }

    fn make() -> (r: Self)
        ensures
            r.stash_contents() == Seq::<Seq<char>>::empty(),
    {
        let r = StringRecycler { stash: Vec::new() };
        proof {
            assert(r.stash_contents() =~= Seq::<Seq<char>>::empty());
        }
        r
    }

    fn recycle(&mut self, item: String) {
        let mut s = item;
        s.clear();
        self.stash.push(s);
        proof {
            assert(self.stash_contents() =~= old(self).stash_contents().push(
                Seq::<char>::empty(),
            ));
        }
    }

    fn recreate(&mut self, other: &String) -> (result: String) {
        self.new_from(other.as_str())
    }
}

impl core::default::Default for StringRecycler {
    fn default() -> (r: Self)
        ensures
            r.wf(),
            r.pristine(),
            r.stash_contents() == Seq::<Seq<char>>::empty(),
    {
        Self::make()
    }
}

impl Recyclable for String {
    type DefaultRecycler = StringRecycler;
}

} // verus!
