//! The command queue: submission, fence bookkeeping and allocator pooling.
//!
//! The queue owns the fence it signals and a pool of command allocators.
//! Its fence target counter increases by one per submission; an allocator
//! requested from the queue is safe to reset because the pool only reuses
//! entries whose tagged fence value the GPU has already reached, and a
//! freed allocator is tagged with the last signaled target, after which
//! its recorded work is certainly finished.

use vstd::prelude::*;
use crate::context::{CommandListType, GraphicsCommandList};
use crate::pool::{spec_reusable_index, CommandAllocator, CommandAllocatorPool};
use crate::sync::{Fence, WaitStatus};

verus! {

pub struct CommandQueue {
    pub fence: Fence,
    pub command_allocator_pool: CommandAllocatorPool,
    /// The last fence value this queue signaled (0 before any submission).
    pub fence_value: u64,
    /// How many command lists have been submitted for execution.
    pub submissions: u64,
}

impl CommandQueue {
    /// The queue's signaled counter is exactly the fence's signaled value.
    pub open spec fn well_formed(self) -> bool {
        &&& self.fence.well_formed()
        &&& self.fence.signaled == self.fence_value
        &&& self.command_allocator_pool.well_formed()
    }

    pub fn new(list_type: CommandListType) -> (r: Self)
        ensures
            r.well_formed(),
            r.fence_value == 0,
            r.fence.completed == 0,
            r.command_allocator_pool.list_type == list_type,
            r.command_allocator_pool.created == 0,
            r.command_allocator_pool.free_list@.len() == 0,
            r.submissions == 0,
    {
        CommandQueue {
            fence: Fence::new(),
            command_allocator_pool: CommandAllocatorPool::new(list_type),
            fence_value: 0,
            submissions: 0,
        }
    }

    /// An allocator that is safe to reset now: the most recently freed
    /// one whose tag has been reached, freshly constructed when none
    /// qualifies.
    pub fn request_allocator(&mut self) -> (r: CommandAllocator)
        requires
            old(self).well_formed(),
            old(self).command_allocator_pool.created < usize::MAX,
        ensures
            final(self).well_formed(),
            final(self).fence == old(self).fence,
            final(self).fence_value == old(self).fence_value,
            final(self).submissions == old(self).submissions,
            r.id < final(self).command_allocator_pool.created,
            !final(self).command_allocator_pool.is_free(r.id),
            ({
                let list = old(self).command_allocator_pool.free_list@;
                let k = spec_reusable_index(list, old(self).fence.completed);
                if k >= 0 {
                    &&& r == list[k].1
                    &&& list[k].0 <= old(self).fence.completed
                    &&& final(self).command_allocator_pool.free_list@ == list.remove(k)
                    &&& final(self).command_allocator_pool.created == old(
                        self,
                    ).command_allocator_pool.created
                } else {
                    &&& r.id == old(self).command_allocator_pool.created
                    &&& final(self).command_allocator_pool.free_list@ == list
                    &&& final(self).command_allocator_pool.created == old(
                        self,
                    ).command_allocator_pool.created + 1
                }
            }),
    {
        let completed: u64 = self.fence.get_value();
        self.command_allocator_pool.request(completed)
    }

    /// Returns an allocator once its last recorded work has been submitted:
    /// it is tagged with the last signaled fence target, so the pool will
    /// not reuse it before the GPU has finished that submission.
    pub fn free_allocator(&mut self, command_allocator: CommandAllocator)
        requires
            old(self).well_formed(),
            command_allocator.id < old(self).command_allocator_pool.created,
            !old(self).command_allocator_pool.is_free(command_allocator.id),
        ensures
            final(self).well_formed(),
            final(self).fence == old(self).fence,
            final(self).fence_value == old(self).fence_value,
            final(self).submissions == old(self).submissions,
            final(self).command_allocator_pool.created == old(self).command_allocator_pool.created,
            final(self).command_allocator_pool.free_list@ == old(
                self,
            ).command_allocator_pool.free_list@.push(
                (old(self).fence_value, command_allocator),
            ),
    {
        let tag: u64 = self.fence_value;
        self.command_allocator_pool.free(tag, command_allocator);
    }

    /// A fresh command list recording into a newly requested allocator.
    pub fn create_command_list(&mut self) -> (r: (GraphicsCommandList, CommandAllocator))
        requires
            old(self).well_formed(),
            old(self).command_allocator_pool.created < usize::MAX,
        ensures
            final(self).well_formed(),
            final(self).fence == old(self).fence,
            final(self).fence_value == old(self).fence_value,
            final(self).submissions == old(self).submissions,
            r.0.list_type == old(self).command_allocator_pool.list_type,
            r.0.is_open,
            r.0.barriers@.len() == 0,
            r.0.copies@.len() == 0,
            r.1.id < final(self).command_allocator_pool.created,
            !final(self).command_allocator_pool.is_free(r.1.id),
            ({
                let list = old(self).command_allocator_pool.free_list@;
                let k = spec_reusable_index(list, old(self).fence.completed);
                if k >= 0 {
                    &&& r.1 == list[k].1
                    &&& list[k].0 <= old(self).fence.completed
                    &&& final(self).command_allocator_pool.free_list@ == list.remove(k)
                    &&& final(self).command_allocator_pool.created == old(
                        self,
                    ).command_allocator_pool.created
                } else {
                    &&& r.1.id == old(self).command_allocator_pool.created
                    &&& final(self).command_allocator_pool.free_list@ == list
                    &&& final(self).command_allocator_pool.created == old(
                        self,
                    ).command_allocator_pool.created + 1
                }
            }),
    {
        let list_type = self.command_allocator_pool.list_type;
        let command_allocator = self.request_allocator();
        (GraphicsCommandList::new(list_type), command_allocator)
    }

    /// Submits a closed command list; the GPU will execute it in submission
    /// order.
    pub fn execute_command_list(&mut self, command_list: &GraphicsCommandList)
        requires
            old(self).well_formed(),
            !command_list.is_open,
            old(self).submissions < u64::MAX,
        ensures
            *final(self) == (CommandQueue { submissions: (old(self).submissions + 1) as u64, ..*old(self) }),
    {
        self.submissions = self.submissions + 1;
    }

    /// Signals the next fence target after a submission: all work submitted
    /// so far will eventually be marked complete under this value.
    pub fn signal_fence(&mut self)
        requires
            old(self).well_formed(),
            old(self).fence_value < u64::MAX,
        ensures
            final(self).well_formed(),
            final(self).fence_value == old(self).fence_value + 1,
            final(self).fence.signaled == final(self).fence_value,
            final(self).fence.completed == old(self).fence.completed,
            final(self).command_allocator_pool == old(self).command_allocator_pool,
            final(self).submissions == old(self).submissions,
    {
        self.fence_value = self.fence_value + 1;
        self.fence.signal(self.fence_value);
    }

    /// Blocks until the GPU reaches the last signaled target; immediate when
    /// it already has.
    pub fn wait_for_fence(&mut self)
        requires
            old(self).well_formed(),
        ensures
            final(self).well_formed(),
            final(self).fence_value == old(self).fence_value,
            final(self).fence.signaled == old(self).fence.signaled,
            final(self).fence.completed >= old(self).fence.completed,
            final(self).fence.completed >= old(self).fence_value,
            final(self).command_allocator_pool == old(self).command_allocator_pool,
            final(self).submissions == old(self).submissions,
            old(self).fence.completed >= old(self).fence_value ==> *final(self) == *old(self),
    {
        let target: u64 = self.fence_value;
        if self.fence.get_value() < target {
            let _status: WaitStatus = self.fence.wait(target);
        }
    }

    /// Drains the queue: signals a final target and waits for it.
    pub fn flush(&mut self)
        requires
            old(self).well_formed(),
            old(self).fence_value < u64::MAX,
        ensures
            final(self).well_formed(),
            final(self).fence_value == old(self).fence_value + 1,
            final(self).fence.completed == final(self).fence_value,
            final(self).command_allocator_pool == old(self).command_allocator_pool,
            final(self).submissions == old(self).submissions,
    {
        self.signal_fence();
        self.wait_for_fence();
    }

    /// Whether the GPU has reached `fence_value`; never blocks.
    pub fn is_fence_complete(&self, fence_value: u64) -> (r: bool)
        ensures
            r == (fence_value <= self.fence.completed),
    {
        fence_value <= self.fence.get_value()
    }
}

} // verus!
