//! A fixed-size rotating pool of pre-spawned actor addresses.
//!
//! The pool holds the strong addresses of `size` already-running actors in
//! a rotating buffer, identified here by their slot number. A checkout
//! removes the oldest entry; a release appends it again. The pool never
//! creates entries beyond its fixed size, every checked-out entry is
//! returned exactly once, and the buffer never holds an entry twice — so
//! two checkouts without a release in between always yield two distinct
//! actors.
//!
//! The asynchronous host maps slot numbers to the spawned actors' real
//! addresses, suspends a checkout while the buffer is momentarily empty,
//! and releases through a scope-end guard.

use vstd::prelude::*;

verus! {

/// A rotating buffer of the slot numbers `0 .. size`, each present at most
/// once; absent numbers are checked out.
pub struct Pool {
    buffer: Vec<usize>,
    size: usize,
}

impl Pool {
    /// The buffer's contents, oldest first.
    pub closed spec fn buffer(&self) -> Seq<usize> {
        self.buffer@
    }

    /// The fixed number of pooled actors, set at construction.
    pub closed spec fn size(&self) -> nat {
        self.size as nat
    }

    /// The pool's invariant: the buffer holds pairwise distinct slot
    /// numbers below `size`, hence never more than `size` of them.
    pub open spec fn wf(&self) -> bool {
        &&& self.buffer().no_duplicates()
        &&& forall|i: int| 0 <= i < self.buffer().len() ==> self.buffer()[i] < self.size()
    }

    /// Builds a pool of `instances` actors, all idle in the buffer in slot
    /// order.
    pub fn with_instances(instances: usize) -> (p: Pool)
        ensures
            p.wf(),
            p.size() == instances,
            p.buffer() == Seq::new(instances as nat, |i: int| i as usize),
    {
        let mut buffer: Vec<usize> = Vec::new();
        let mut i: usize = 0;
        while i < instances
            invariant
                i <= instances,
                buffer@ == Seq::new(i as nat, |j: int| j as usize),
            decreases instances - i,
        {
            buffer.push(i);
            proof {
                assert(buffer@ =~= Seq::new((i + 1) as nat, |j: int| j as usize));
            }
            i = i + 1;
        }
        let p = Pool { buffer, size: instances };
        proof {
            assert forall|a: int, b: int|
                0 <= a < p.buffer().len() && 0 <= b < p.buffer().len() && a != b implies p.buffer()[a]
                != p.buffer()[b] by {};
        }
        p
    }

    /// Checks out the oldest pooled address; yields nothing while all
    /// instances are checked out (the host then suspends and retries when
    /// one is released).
    pub fn take(&mut self) -> (r: Option<usize>)
        requires
            old(self).wf(),
        ensures
            final(self).wf(),
            final(self).size() == old(self).size(),
            old(self).buffer().len() == 0 ==> r is None && *final(self) == *old(self),
            old(self).buffer().len() > 0 ==> r == Some(old(self).buffer()[0])
                && final(self).buffer() == old(self).buffer().drop_first(),
    {
        if self.buffer.len() == 0 {
            None
        } else {
            let id = self.buffer.remove(0);
            proof {
                assert(self.buffer@ =~= old(self).buffer().drop_first());
            }
            Some(id)
        }
    }

    /// Returns a checked-out address to the back of the buffer. A pooled
    /// address is released exactly once, so it is never already present.
    pub fn release(&mut self, id: usize)
        requires
            old(self).wf(),
            id < old(self).size(),
            !old(self).buffer().contains(id),
        ensures
            final(self).wf(),
            final(self).size() == old(self).size(),
            final(self).buffer() == old(self).buffer().push(id),
    {
        self.buffer.push(id);
    }
}

/// With at least two pooled addresses, two checkouts with no release in
/// between yield two distinct actors; and after a release, the next
/// checkout of an otherwise empty pool returns exactly the released one.
pub proof fn lemma_rotation_distinct_and_returning(p: Pool)
    requires
        p.wf(),
    ensures
        p.buffer().len() >= 2 ==> p.buffer()[0] != p.buffer().drop_first()[0],
        p.buffer().len() == 0 ==> forall|id: usize| p.buffer().push(id)[0] == id,
{
    if p.buffer().len() >= 2 {
        assert(p.buffer().drop_first()[0] == p.buffer()[1]);
    }
}

} // verus!
