//! A free-list pool of reusable command allocators.
//!
//! A command allocator is the backing memory for recorded GPU commands; it
//! must not be reset while the GPU may still be reading from it.  The pool
//! therefore tags every returned allocator with the fence value that must be
//! reached before the allocator is safe to reset.  `request` hands out the
//! most recently freed allocator whose tag the fence has already reached
//! (keeping the active set small and cache-hot), and constructs a brand-new
//! allocator only when no freed allocator qualifies — the pool itself never
//! blocks.

use vstd::prelude::*;
use crate::context::CommandListType;

verus! {

/// A command allocator, identified by its creation-order id.  The native
/// allocator object it stands for is owned by the pool's surroundings.
#[derive(Clone, Copy, PartialEq, Eq, Structural, Debug)]
pub struct CommandAllocator {
    pub id: usize,
}

/// The pool: how many allocators were ever constructed, and which of them
/// are currently free, each tagged with the fence value that must be
/// reached before it may be handed out again.  The most recently freed
/// entry sits at the end.
pub struct CommandAllocatorPool {
    pub list_type: CommandListType,
    pub created: usize,
    pub free_list: Vec<(u64, CommandAllocator)>,
}

/// The index of the entry `request` reuses at completed fence value `v`:
/// the most recently freed entry whose tag is at most `v`, or `-1` when no
/// free entry qualifies.
pub open spec fn spec_reusable_index(list: Seq<(u64, CommandAllocator)>, v: u64) -> int
    decreases list.len(),
{
    if list.len() == 0 {
        -1
    } else if list.last().0 <= v {
        list.len() - 1
    } else {
        spec_reusable_index(list.drop_last(), v)
    }
}

/// Pool reuse completeness: an entry is reused exactly when some free entry
/// qualifies, the reused entry itself qualifies, and every entry freed
/// after it does not — so `request` reuses the most recently freed
/// eligible allocator whenever one is available, and constructs a new one
/// only when none qualifies.
pub proof fn lemma_reusable_index_characterization(list: Seq<(u64, CommandAllocator)>, v: u64)
    ensures
        -1 <= spec_reusable_index(list, v) < list.len(),
        (spec_reusable_index(list, v) == -1) <==> (forall|i: int|
            0 <= i < list.len() ==> (#[trigger] list[i]).0 > v),
        spec_reusable_index(list, v) >= 0 ==> {
            let k = spec_reusable_index(list, v);
            &&& k < list.len()
            &&& list[k].0 <= v
            &&& forall|i: int| k < i < list.len() ==> (#[trigger] list[i]).0 > v
        },
    decreases list.len(),
{
    if list.len() == 0 {
    } else if list.last().0 <= v {
        assert(spec_reusable_index(list, v) == list.len() - 1);
        assert(list[list.len() - 1].0 <= v);
    } else {
        let dl = list.drop_last();
        lemma_reusable_index_characterization(dl, v);
        assert forall|i: int| 0 <= i < dl.len() implies #[trigger] dl[i] == list[i] by {}
        assert(list[list.len() - 1].0 > v);
        if spec_reusable_index(dl, v) == -1 {
            assert forall|i: int| 0 <= i < list.len() implies (#[trigger] list[i]).0 > v by {
                if i < dl.len() {
                    assert(list[i] == dl[i]);
                }
            }
        } else {
            let k = spec_reusable_index(dl, v);
            assert(0 <= k < dl.len());
            assert(dl[k] == list[k]);
            assert forall|i: int| k < i < list.len() implies (#[trigger] list[i]).0 > v by {
                if i < dl.len() {
                    assert(list[i] == dl[i]);
                }
            }
        }
    }
}

impl CommandAllocatorPool {
    /// Every free entry names an allocator this pool constructed, and no
    /// allocator is on the free list twice — an allocator is either lent
    /// out or free, never both, and never lent to two callers.
    pub open spec fn well_formed(self) -> bool {
        &&& forall|i: int|
            0 <= i < self.free_list@.len() ==> (#[trigger] self.free_list@[i]).1.id < self.created
        &&& forall|i: int, j: int|
            0 <= i < j < self.free_list@.len() ==> (#[trigger] self.free_list@[i]).1.id != (
            #[trigger] self.free_list@[j]).1.id
    }

    /// Whether some free entry holds the allocator `id`.
    pub open spec fn is_free(self, id: usize) -> bool {
        exists|i: int| 0 <= i < self.free_list@.len() && (#[trigger] self.free_list@[i]).1.id == id
    }

    pub fn new(list_type: CommandListType) -> (r: Self)
        ensures
            r.list_type == list_type,
            r.created == 0,
            r.free_list@.len() == 0,
            r.well_formed(),
    {
        CommandAllocatorPool { list_type, created: 0, free_list: Vec::new() }
    }

    /// Returns an allocator that is safe to reset once the fence has
    /// reached `completed_fence_value`: the most recently freed allocator
    /// whose tag is already reached, if any freed allocator qualifies,
    /// else a brand-new allocator.  A reused allocator's tag never exceeds
    /// `completed_fence_value`, so GPU work recorded into it is done.
    pub fn request(&mut self, completed_fence_value: u64) -> (r: CommandAllocator)
        requires
            old(self).well_formed(),
            old(self).created < usize::MAX,
        ensures
            final(self).well_formed(),
            final(self).list_type == old(self).list_type,
            r.id < final(self).created,
            !final(self).is_free(r.id),
            ({
                let list = old(self).free_list@;
                let k = spec_reusable_index(list, completed_fence_value);
                if k >= 0 {
                    // Reuse: the most recently freed, already-safe
                    // allocator; its entry leaves the free list.
                    &&& r == list[k].1
                    &&& list[k].0 <= completed_fence_value
                    &&& final(self).free_list@ == list.remove(k)
                    &&& final(self).created == old(self).created
                } else {
                    // No freed allocator is safe yet: construct a new one.
                    &&& r.id == old(self).created
                    &&& final(self).free_list@ == list
                    &&& final(self).created == old(self).created + 1
                }
            }),
    {
        let ghost list = self.free_list@;
        let ghost k = spec_reusable_index(list, completed_fence_value);
        proof {
            lemma_reusable_index_characterization(list, completed_fence_value);
        }

        // Walk the free list from the most recently freed entry backwards.
        let mut i: usize = self.free_list.len();
        while i > 0
            invariant
                i <= list.len(),
                *self == *old(self),
                old(self).well_formed(),
                old(self).created < usize::MAX,
                list == self.free_list@,
                k == spec_reusable_index(list, completed_fence_value),
                k < i,
                forall|j: int|
                    i <= j < list.len() ==> (#[trigger] list[j]).0 > completed_fence_value,
            decreases i,
        {
            i -= 1;
            proof {
                lemma_reusable_index_characterization(list, completed_fence_value);
            }
            let (tag, allocator) = self.free_list[i];
            if tag <= completed_fence_value {
                proof {
                    // `i` qualifies and everything after it does not, so it
                    // is exactly the reusable index.
                    assert(list[i as int].0 <= completed_fence_value);
                    assert(k >= 0);
                    assert(k == i);
                }
                self.free_list.remove(i);
                proof {
                    let newlist = self.free_list@;
                    assert(newlist == list.remove(i as int));
                    assert forall|a: int|
                        0 <= a < newlist.len() implies (#[trigger] newlist[a]) == (if a < i {
                        list[a]
                    } else {
                        list[a + 1]
                    }) by {}
                    assert forall|a: int, b: int|
                        0 <= a < b < newlist.len() implies (#[trigger] newlist[a]).1.id != (
                        #[trigger] newlist[b]).1.id by {
                        let a0: int = if a < i { a } else { a + 1 };
                        let b0: int = if b < i { b } else { b + 1 };
                        assert(newlist[a] == list[a0]);
                        assert(newlist[b] == list[b0]);
                        assert(0 <= a0 < b0 < list.len());
                    }
                    assert forall|a: int|
                        0 <= a < newlist.len() implies (#[trigger] newlist[a]).1.id
                        != allocator.id by {
                        let a0: int = if a < i { a } else { a + 1 };
                        assert(newlist[a] == list[a0]);
                        assert(a0 != i);
                    }
                }
                return allocator;
            }
        }

        proof {
            // The whole list was scanned without a qualifying tag.
            lemma_reusable_index_characterization(list, completed_fence_value);
            assert(k == -1);
        }
        let fresh = CommandAllocator { id: self.created };
        self.created = self.created + 1;
        fresh
    }

    /// Returns an allocator to the pool, tagged with the fence value that
    /// will be signaled once the last command list recorded through it has
    /// finished on the GPU.
    pub fn free(&mut self, fence_value: u64, allocator: CommandAllocator)
        requires
            old(self).well_formed(),
            allocator.id < old(self).created,
            !old(self).is_free(allocator.id),
        ensures
            final(self).well_formed(),
            final(self).list_type == old(self).list_type,
            final(self).free_list@ == old(self).free_list@.push((fence_value, allocator)),
            final(self).created == old(self).created,
    {
        self.free_list.push((fence_value, allocator));
    }
}

} // verus!
