//! Command recording: the command list and the barrier-batching context.
//!
//! A command list is open while commands are being recorded into it and
//! must be closed before submission.  The context accumulates resource
//! state-transition barriers and flushes each batch into the command list
//! exactly once, so the driver sees one batched barrier command instead of
//! one per transition.

use vstd::prelude::*;
use crate::memory::{AllocationType, MemoryAllocator};
use crate::pool::CommandAllocator;
use crate::queue::CommandQueue;
use crate::resource::{Barrier, BufferCopyRegion, CopyCommand, GpuResource, ResourceState};

verus! {

/// The kinds of command lists and allocators the device distinguishes.
#[derive(Clone, Copy, PartialEq, Eq, Structural, Debug)]
pub enum CommandListType {
    Direct,
    Compute,
    Copy,
}

/// The model of a graphics command list: its kind, whether it is open for
/// recording, and the barriers and copy regions recorded since the last
/// reset.
pub struct GraphicsCommandList {
    pub list_type: CommandListType,
    pub is_open: bool,
    pub barriers: Vec<Barrier>,
    pub copies: Vec<CopyCommand>,
}

impl GraphicsCommandList {
    /// A freshly created command list of the given kind, open for recording.
    pub fn new(list_type: CommandListType) -> (r: Self)
        ensures
            r.list_type == list_type,
            r.is_open,
            r.barriers@.len() == 0,
            r.copies@.len() == 0,
    {
        GraphicsCommandList { list_type, is_open: true, barriers: Vec::new(), copies: Vec::new() }
    }

    /// Reopens the list for a new frame, recording into `_allocator`'s
    /// backing memory; everything previously recorded is discarded.
    pub fn reset(&mut self, _allocator: &CommandAllocator)
        ensures
            final(self).list_type == old(self).list_type,
            final(self).is_open,
            final(self).barriers@.len() == 0,
            final(self).copies@.len() == 0,
    {
        self.is_open = true;
        self.barriers = Vec::new();
        self.copies = Vec::new();
    }

    /// Closes the list; it can then be submitted but not recorded into.
    pub fn close(&mut self)
        requires
            old(self).is_open,
        ensures
            !final(self).is_open,
            final(self).list_type == old(self).list_type,
            final(self).barriers == old(self).barriers,
            final(self).copies == old(self).copies,
    {
        self.is_open = false;
    }

    /// Records a batch of barriers as a single command.
    pub fn insert_resource_barriers(&mut self, barriers: &Vec<Barrier>)
        requires
            old(self).is_open,
            old(self).barriers@.len() + barriers@.len() <= usize::MAX,
        ensures
            final(self).is_open,
            final(self).list_type == old(self).list_type,
            final(self).barriers@ == old(self).barriers@ + barriers@,
            final(self).copies == old(self).copies,
    {
        let mut i: usize = 0;
        while i < barriers.len()
            invariant
                i <= barriers@.len(),
                self.is_open,
                self.list_type == old(self).list_type,
                self.barriers@ == old(self).barriers@ + barriers@.take(i as int),
                self.copies == old(self).copies,
            decreases barriers@.len() - i,
        {
            self.barriers.push(barriers[i]);
            assert(barriers@.take(i + 1) == barriers@.take(i as int).push(barriers@[i as int]));
            i += 1;
        }
        assert(barriers@.take(barriers@.len() as int) == barriers@);
    }

    /// Records a buffer copy of the given regions from `source` to `dest`,
    /// one command per region.
    pub fn copy_buffer(
        &mut self,
        dest: &GpuResource,
        source: &GpuResource,
        regions: &Vec<BufferCopyRegion>,
    )
        requires
            old(self).is_open,
            old(self).copies@.len() + regions@.len() <= usize::MAX,
        ensures
            final(self).is_open,
            final(self).list_type == old(self).list_type,
            final(self).barriers == old(self).barriers,
            final(self).copies@.len() == old(self).copies@.len() + regions@.len(),
            forall|j: int|
                0 <= j < old(self).copies@.len() ==> #[trigger] final(self).copies@[j] == old(self).copies@[j],
            forall|j: int|
                old(self).copies@.len() <= j < final(self).copies@.len() ==> #[trigger] final(self).copies@[j] == (CopyCommand {
                    dest: dest.native.ptr,
                    source: source.native.ptr,
                    region: regions@[j - old(self).copies@.len()],
                }),
            regions@.len() == 1 ==> final(self).copies@ == old(self).copies@.push(
                (CopyCommand {
                    dest: dest.native.ptr,
                    source: source.native.ptr,
                    region: regions@[0],
                }),
            ),
    {
        let mut i: usize = 0;
        while i < regions.len()
            invariant
                i <= regions@.len(),
                self.is_open,
                self.list_type == old(self).list_type,
                self.barriers == old(self).barriers,
                self.copies@.len() == old(self).copies@.len() + i,
                forall|j: int|
                    0 <= j < old(self).copies@.len() ==> #[trigger] self.copies@[j] == old(self).copies@[j],
                forall|j: int|
                    old(self).copies@.len() <= j < old(self).copies@.len() + i
                        ==> #[trigger] self.copies@[j] == (CopyCommand {
                        dest: dest.native.ptr,
                        source: source.native.ptr,
                        region: regions@[j - old(self).copies@.len()],
                    }),
            decreases regions@.len() - i,
        {
            self.copies.push(
                CopyCommand {
                    dest: dest.native.as_ptr(),
                    source: source.native.as_ptr(),
                    region: regions[i],
                },
            );
            i += 1;
        }
        proof {
            if regions@.len() == 1 {
                assert(self.copies@ =~= old(self).copies@.push(
                    (CopyCommand {
                        dest: dest.native.ptr,
                        source: source.native.ptr,
                        region: regions@[0],
                    }),
                ));
            }
        }
    }
}

/// A recording context: a command list plus the batch of state-transition
/// barriers accumulated since the last flush.
pub struct CommandContext {
    pub resource_barriers: Vec<Barrier>,
    pub command_list: GraphicsCommandList,
}

impl CommandContext {
    pub fn new() -> (r: Self)
        ensures
            r.resource_barriers@.len() == 0,
            r.command_list.list_type == CommandListType::Direct,
            r.command_list.is_open,
            r.command_list.barriers@.len() == 0,
            r.command_list.copies@.len() == 0,
    {
        CommandContext {
            resource_barriers: Vec::new(),
            command_list: GraphicsCommandList::new(CommandListType::Direct),
        }
    }

    /// Moves `resource` to `new_state`.  When the tracked state already
    /// equals the requested one, no barrier is emitted and nothing changes;
    /// otherwise exactly one barrier is accumulated and the tracked state is
    /// updated immediately.  With `flush` set, the accumulated batch is
    /// recorded into the command list at once.
    pub fn transition_resource(
        &mut self,
        resource: &mut GpuResource,
        new_state: ResourceState,
        flush: bool,
    )
        requires
            flush ==> old(self).command_list.is_open,
            old(self).command_list.barriers@.len() + old(self).resource_barriers@.len() + 1
                <= usize::MAX,
        ensures
            final(resource).native == old(resource).native,
            final(resource).usage_state == new_state,
            ({
                // the batch after the elision decision, before any flush
                let pending = if old(resource).usage_state == new_state {
                    old(self).resource_barriers@
                } else {
                    old(self).resource_barriers@.push(
                        (Barrier {
                            resource: old(resource).native.ptr,
                            state_before: old(resource).usage_state,
                            state_after: new_state,
                        }),
                    )
                };
                if flush {
                    &&& final(self).resource_barriers@.len() == 0
                    &&& final(self).command_list.barriers@ == old(self).command_list.barriers@
                        + pending
                } else {
                    &&& final(self).resource_barriers@ == pending
                    &&& final(self).command_list == old(self).command_list
                }
            }),
            final(self).command_list.is_open == old(self).command_list.is_open,
            final(self).command_list.copies == old(self).command_list.copies,
    {
        if resource.usage_state != new_state {
            let barrier = Barrier {
                resource: resource.native.as_ptr(),
                state_before: resource.usage_state,
                state_after: new_state,
            };
            self.resource_barriers.push(barrier);
            resource.usage_state = new_state;
        }
        if flush {
            self.flush_resource_barriers();
        }
    }

    /// Submits what has been recorded so far and keeps recording: the
    /// accumulated barriers are batched in exactly once, the closed list is
    /// executed, a new fence target is signaled (and, on request, drained),
    /// and the list is reset against `command_allocator` for further
    /// recording.
    pub fn flush(
        &mut self,
        command_queue: &mut CommandQueue,
        command_allocator: &CommandAllocator,
        wait_for_completion: bool,
    )
        requires
            old(self).command_list.is_open,
            old(self).command_list.barriers@.len() + old(self).resource_barriers@.len()
                <= usize::MAX,
            old(command_queue).well_formed(),
            old(command_queue).fence_value < u64::MAX,
            old(command_queue).submissions < u64::MAX,
        ensures
            final(self).command_list.is_open,
            final(self).command_list.barriers@.len() == 0,
            final(self).command_list.copies@.len() == 0,
            final(self).command_list.list_type == old(self).command_list.list_type,
            final(self).resource_barriers@.len() == 0,
            final(command_queue).well_formed(),
            final(command_queue).fence_value == old(command_queue).fence_value + 1,
            final(command_queue).submissions == old(command_queue).submissions + 1,
            final(command_queue).command_allocator_pool == old(command_queue).command_allocator_pool,
            wait_for_completion ==> final(command_queue).fence.completed == final(command_queue).fence_value,
            !wait_for_completion ==> final(command_queue).fence.completed == old(command_queue).fence.completed,
    {
        self.flush_resource_barriers();
        self.command_list.close();
        command_queue.execute_command_list(&self.command_list);
        command_queue.signal_fence();
        if wait_for_completion {
            command_queue.wait_for_fence();
        }
        self.command_list.reset(command_allocator);
    }

    /// Ends recording: the accumulated barriers are batched in exactly
    /// once, the closed list is executed, a new fence target is signaled
    /// (and, on request, drained), and the allocator goes back to the
    /// queue's pool under that target.
    pub fn end(
        &mut self,
        command_queue: &mut CommandQueue,
        command_allocator: CommandAllocator,
        wait_for_completion: bool,
    )
        requires
            old(self).command_list.is_open,
            old(self).command_list.barriers@.len() + old(self).resource_barriers@.len()
                <= usize::MAX,
            old(command_queue).well_formed(),
            old(command_queue).fence_value < u64::MAX,
            old(command_queue).submissions < u64::MAX,
            command_allocator.id < old(command_queue).command_allocator_pool.created,
            !old(command_queue).command_allocator_pool.is_free(command_allocator.id),
        ensures
            !final(self).command_list.is_open,
            final(self).command_list.barriers@ == old(self).command_list.barriers@ + old(self).resource_barriers@,
            final(self).command_list.copies == old(self).command_list.copies,
            final(self).resource_barriers@.len() == 0,
            final(command_queue).well_formed(),
            final(command_queue).fence_value == old(command_queue).fence_value + 1,
            final(command_queue).submissions == old(command_queue).submissions + 1,
            final(command_queue).command_allocator_pool.free_list@ == old(command_queue).command_allocator_pool.free_list@.push(
                ((old(command_queue).fence_value + 1) as u64, command_allocator),
            ),
            final(command_queue).command_allocator_pool.created == old(command_queue).command_allocator_pool.created,
            wait_for_completion ==> final(command_queue).fence.completed == final(command_queue).fence_value,
            !wait_for_completion ==> final(command_queue).fence.completed == old(command_queue).fence.completed,
    {
        self.flush_resource_barriers();
        self.command_list.close();
        command_queue.execute_command_list(&self.command_list);
        command_queue.signal_fence();
        command_queue.free_allocator(command_allocator);
        if wait_for_completion {
            command_queue.wait_for_fence();
        }
    }

    /// Fills a GPU buffer: stages the bytes in a fresh CPU-writable upload
    /// allocation, moves the destination to the copy-destination state,
    /// records the copy of `size` bytes from offset `offset` of the staging
    /// buffer, moves the destination to the readable state, submits the
    /// closed list under `command_allocator` and blocks until the GPU is
    /// done — after which the destination is readable and the allocator is
    /// back in the queue's pool under the signaled target.  (The byte copy
    /// into the mapped staging memory happens on the native side.)
    pub fn init_buffer(
        &mut self,
        command_queue: &mut CommandQueue,
        command_allocator: CommandAllocator,
        upload_allocator: &mut MemoryAllocator,
        dest: &mut GpuResource,
        size: u64,
        offset: u64,
    )
        requires
            old(self).command_list.is_open,
            old(self).resource_barriers@.len() == 0,
            old(self).command_list.barriers@.len() + 2 <= usize::MAX,
            old(self).command_list.copies@.len() < usize::MAX,
            old(command_queue).well_formed(),
            old(command_queue).fence_value < u64::MAX,
            old(command_queue).submissions < u64::MAX,
            command_allocator.id < old(command_queue).command_allocator_pool.created,
            !old(command_queue).command_allocator_pool.is_free(command_allocator.id),
            old(upload_allocator).allocation_type == AllocationType::CpuWritable,
            old(upload_allocator).next_handle < u64::MAX,
            old(upload_allocator).allocations@.len() < usize::MAX,
        ensures
            // the destination ends readable, whatever state it was in
            final(dest).native == old(dest).native,
            final(dest).usage_state == ResourceState::GenericRead,
            // one staging buffer of `size` bytes was allocated
            final(upload_allocator).allocations@.len() == old(upload_allocator).allocations@.len()
                + 1,
            final(upload_allocator).allocations@.last().size == size,
            // the copy was recorded: `size` bytes read at `offset` of the
            // fresh staging buffer, written at the destination's start
            final(self).command_list.copies@ == old(self).command_list.copies@.push(
                (CopyCommand {
                    dest: old(dest).native.ptr,
                    source: old(upload_allocator).next_handle,
                    region: BufferCopyRegion { source_offset: offset, dest_offset: 0, size },
                }),
            ),
            !final(self).command_list.is_open,
            final(self).resource_barriers@.len() == 0,
            // the work was submitted, signaled and fully drained
            final(command_queue).well_formed(),
            final(command_queue).submissions == old(command_queue).submissions + 1,
            final(command_queue).fence_value == old(command_queue).fence_value + 1,
            final(command_queue).fence.completed == final(command_queue).fence_value,
            // the allocator is back in the pool under the new target
            final(command_queue).command_allocator_pool.free_list@ == old(command_queue).command_allocator_pool.free_list@.push(
                ((old(command_queue).fence_value + 1) as u64, command_allocator),
            ),
            final(command_queue).command_allocator_pool.created == old(command_queue).command_allocator_pool.created,
    {
        // Stage the data in upload memory; the native side maps the buffer
        // and copies the bytes in.
        let staging: usize = upload_allocator.allocate(size);

        // Move the destination into the copy-destination state and make the
        // barrier visible before the copy.
        self.transition_resource(dest, ResourceState::CopyDest, true);

        // Record the copy from the staging buffer.
        let mut regions: Vec<BufferCopyRegion> = Vec::new();
        regions.push(BufferCopyRegion { source_offset: offset, dest_offset: 0, size });
        self.command_list.copy_buffer(
            dest,
            &upload_allocator.allocations[staging].resource,
            &regions,
        );

        // Make the buffer readable for what comes next.
        self.transition_resource(dest, ResourceState::GenericRead, true);

        // Submit, signal, hand the allocator back, and wait for completion.
        self.end(command_queue, command_allocator, true);

    }

    /// Records the accumulated barrier batch into the command list, exactly
    /// once, and empties the batch.
    pub fn flush_resource_barriers(&mut self)
        requires
            old(self).command_list.is_open,
            old(self).command_list.barriers@.len() + old(self).resource_barriers@.len()
                <= usize::MAX,
        ensures
            final(self).resource_barriers@.len() == 0,
            final(self).command_list.barriers@ == old(self).command_list.barriers@ + old(self).resource_barriers@,
            final(self).command_list.is_open,
            final(self).command_list.list_type == old(self).command_list.list_type,
            final(self).command_list.copies == old(self).command_list.copies,
    {
        self.command_list.insert_resource_barriers(&self.resource_barriers);
        self.resource_barriers = Vec::new();
    }
}

} // verus!
