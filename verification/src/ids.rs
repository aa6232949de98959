//! Allocation of device ids: a counter that starts at 0, and a pool of
//! freed ids that is used up, last freed first, before the counter moves.

use vstd::prelude::*;
use crate::protocol::DeviceId;

verus! {

/// The counter and the pool of freed ids.
#[derive(Debug)]
pub struct IdAllocator {
    /// The smallest id that was never handed out.
    pub next: DeviceId,
    /// Ids handed out once and given back since, oldest first.
    pub free: Vec<DeviceId>,
}

/// Whether `post` is `pre` after it handed out an id: the id freed last has
/// left the pool where the pool held any, else the counter has advanced.
pub open spec fn handed_out(pre: IdAllocator, post: IdAllocator) -> bool {
    if pre.free@.len() > 0 {
        post.free@ == pre.free@.drop_last() && post.next == pre.next
    } else {
        post.free@ == pre.free@ && post.next == pre.next + 1
    }
}

/// Whether `post` is `pre` after `id` was given back: it is the last in
/// the pool, and the counter stands where it stood.
pub open spec fn given_back(pre: IdAllocator, post: IdAllocator, id: DeviceId) -> bool {
    post.free@ == pre.free@.push(id) && post.next == pre.next
}

impl IdAllocator {
    /// Every pooled id was handed out before, and none is pooled twice.
    pub open spec fn wf(&self) -> bool {
        &&& forall|i: int| 0 <= i < self.free@.len() ==> #[trigger] self.free@[i] < self.next
        &&& self.free@.no_duplicates()
    }

    /// Whether `id` is handed out and not given back.
    pub open spec fn in_use(&self, id: DeviceId) -> bool {
        id < self.next && !self.free@.contains(id)
    }

    /// The id that the next allocation hands out: the one freed last where
    /// the pool holds any, else the counter's; none where the pool is empty
    /// and the counter has reached the largest id.
    pub open spec fn peek(&self) -> Option<DeviceId> {
        if self.free@.len() > 0 {
            Some(self.free@.last())
        } else if self.next < u64::MAX {
            Some(self.next)
        } else {
            None
        }
    }

    /// An allocator that has handed out nothing.
    pub fn new() -> (r: IdAllocator)
        ensures
            r.wf(),
            r.next == 0,
            r.free@.len() == 0,
            forall|id: DeviceId| !r.in_use(id),
    {
        IdAllocator { next: 0, free: Vec::new() }
    }

    /// Hands out an id: the one freed last where the pool holds any, else
    /// the counter's, which then advances. `None` where the pool is empty
    /// and the counter has reached the largest id.
    pub fn allocate(&mut self) -> (r: Option<DeviceId>)
        requires
            old(self).wf(),
        ensures
            final(self).wf(),
            r == old(self).peek(),
            old(self).free@.len() > 0 ==> r == Some(old(self).free@.last()) && final(self).free@
                == old(self).free@.drop_last() && final(self).next == old(self).next,
            old(self).free@.len() == 0 && old(self).next < u64::MAX ==> r == Some(old(self).next)
                && final(self).next == old(self).next + 1 && final(self).free@ == old(self).free@,
            old(self).free@.len() == 0 && old(self).next == u64::MAX ==> r is None && *final(self)
                == *old(self),
            r is Some ==> !old(self).in_use(r->0) && final(self).in_use(r->0),
            forall|id: DeviceId|
                r != Some(id) ==> (#[trigger] final(self).in_use(id) <==> old(self).in_use(id)),
    {
        if self.free.len() > 0 {
            let id = self.free.pop().unwrap();
            proof {
                let before = old(self).free@;
                let after = self.free@;
                assert(after =~= before.drop_last());
                assert(before[before.len() - 1] == id);
                assert(before.contains(id));
                assert(!after.contains(id)) by {
                    if after.contains(id) {
                        let k = choose|k: int| 0 <= k < after.len() && after[k] == id;
                        assert(before[k] == id);
                    }
                }
                assert forall|other: DeviceId| other != id implies (#[trigger] self.in_use(other)
                    <==> old(self).in_use(other)) by {
                    if before.contains(other) {
                        let k = choose|k: int| 0 <= k < before.len() && before[k] == other;
                        assert(after[k] == other);
                    }
                    if after.contains(other) {
                        let k = choose|k: int| 0 <= k < after.len() && after[k] == other;
                        assert(before[k] == other);
                    }
                }
            }
            Some(id)
        } else if self.next < u64::MAX {
            let id = self.next;
            self.next = id + 1;
            Some(id)
        } else {
            None
        }
    }

    /// Gives `id` back to the pool.
    pub fn release(&mut self, id: DeviceId)
        requires
            old(self).wf(),
            old(self).in_use(id),
        ensures
            final(self).wf(),
            final(self).next == old(self).next,
            final(self).free@ == old(self).free@.push(id),
            !final(self).in_use(id),
            forall|other: DeviceId|
                other != id ==> (#[trigger] final(self).in_use(other) <==> old(self).in_use(other)),
    {
        self.free.push(id);
        proof {
            let before = old(self).free@;
            let after = self.free@;
            assert(after[after.len() - 1] == id);
            assert(after.contains(id));
            assert forall|other: DeviceId| other != id implies (#[trigger] self.in_use(other)
                <==> old(self).in_use(other)) by {
                if before.contains(other) {
                    let k = choose|k: int| 0 <= k < before.len() && before[k] == other;
                    assert(after[k] == other);
                }
                if after.contains(other) {
                    let k = choose|k: int| 0 <= k < after.len() && after[k] == other;
                    assert(before[k] == other);
                }
            }
        }
    }

    /// Whether the allocator is in order.
    pub fn is_wf(&self) -> (r: bool)
        ensures
            r == self.wf(),
    {
        let n: usize = self.free.len();
        let mut i: usize = 0;
        while i < n
            invariant
                i <= n,
                n == self.free@.len(),
                forall|k: int| 0 <= k < i ==> #[trigger] self.free@[k] < self.next,
                forall|a: int, b: int| 0 <= a < i && 0 <= b < a ==> self.free@[a] != self.free@[b],
            decreases n - i,
        {
            if self.free[i] >= self.next {
                return false;
            }
            let mut j: usize = 0;
            while j < i
                invariant
                    j <= i,
                    i < n,
                    n == self.free@.len(),
                    forall|b: int| 0 <= b < j ==> self.free@[i as int] != self.free@[b],
                decreases i - j,
            {
                if self.free[j] == self.free[i] {
                    assert(!self.free@.no_duplicates());
                    return false;
                }
                j = j + 1;
            }
            i = i + 1;
        }
        assert(self.free@.no_duplicates()) by {
            assert forall|a: int, b: int|
                0 <= a < self.free@.len() && 0 <= b < self.free@.len() && a
                    != b implies self.free@[a] != self.free@[b] by {
                if b < a {
                } else {
                    assert(self.free@[b] != self.free@[a]);
                }
            }
        }
        true
    }

    /// Whether `id` is handed out and not given back.
    pub fn is_in_use(&self, id: DeviceId) -> (r: bool)
        ensures
            r == self.in_use(id),
    {
        if id >= self.next {
            return false;
        }
        let mut i: usize = 0;
        while i < self.free.len()
            invariant
                i <= self.free.len(),
                forall|k: int| 0 <= k < i ==> self.free@[k] != id,
            decreases self.free.len() - i,
        {
            if self.free[i] == id {
                assert(self.free@.contains(id));
                return false;
            }
            i = i + 1;
        }
        true
    }
}

/// An id that was given back is the next one handed out: freed ids are
/// reused, the one freed last first.
pub proof fn lemma_freed_id_is_reused(before: IdAllocator, after: IdAllocator, id: DeviceId)
    requires
        before.wf(),
        before.in_use(id),
        after.next == before.next,
        after.free@ == before.free@.push(id),
    ensures
        after.wf(),
        after.peek() == Some(id),
        !after.in_use(id),
{
    assert(after.free@.last() == id);
    assert(after.free@.contains(id));
    assert forall|i: int, j: int|
        0 <= i < after.free@.len() && 0 <= j < after.free@.len() && i != j implies after.free@[i]
        != after.free@[j] by {
        if i == before.free@.len() {
            assert(before.free@[j] == after.free@[j]);
            assert(before.free@.contains(after.free@[j]));
        } else if j == before.free@.len() {
            assert(before.free@[i] == after.free@[i]);
            assert(before.free@.contains(after.free@[i]));
        } else {
            assert(before.free@[i] == after.free@[i]);
            assert(before.free@[j] == after.free@[j]);
        }
    }
}

} // verus!
