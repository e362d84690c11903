use adamant::buffer::{BufferError, GpuBuffer};
use adamant::com::ComPtr;
use adamant::context::{CommandContext, CommandListType};
use adamant::memory::{AllocationType, MemoryAllocator};
use adamant::queue::CommandQueue;
use adamant::resource::{GpuResource, ResourceState};

#[test]
fn memory_allocator_creates_one_buffer_per_request() {
    let mut alloc = MemoryAllocator::new(AllocationType::CpuWritable, 100);
    let a = alloc.allocate(64);
    let b = alloc.allocate(128);
    assert_eq!(a, 0);
    assert_eq!(b, 1);
    assert_eq!(alloc.allocations.len(), 2);
    assert_eq!(alloc.allocations[0].size, 64);
    assert_eq!(alloc.allocations[1].size, 128);
    // distinct buffers at distinct addresses, readable by the GPU
    assert_ne!(
        alloc.allocations[0].resource.native.as_ptr(),
        alloc.allocations[1].resource.native.as_ptr(),
    );
    assert_eq!(alloc.allocations[0].resource.usage_state, ResourceState::GenericRead);
}

#[test]
fn gpu_only_allocations_start_unordered_access() {
    let mut alloc = MemoryAllocator::new(AllocationType::GpuOnly, 0);
    let a = alloc.allocate(16);
    assert_eq!(alloc.allocations[a].resource.usage_state, ResourceState::UnorderedAccess);
}

#[test]
fn init_buffer_uploads_transitions_and_drains() {
    let mut queue = CommandQueue::new(CommandListType::Direct);
    let mut ctx = CommandContext::new();
    let mut upload = MemoryAllocator::new(AllocationType::CpuWritable, 100);
    let mut dest = GpuResource::create(ComPtr::from_ptr(7), ResourceState::Common);

    let allocator = queue.request_allocator();
    ctx.init_buffer(&mut queue, allocator, &mut upload, &mut dest, 256, 8);

    // the destination ended up readable
    assert_eq!(dest.usage_state, ResourceState::GenericRead);
    // the staging buffer was allocated and the copy recorded
    assert_eq!(upload.allocations.len(), 1);
    assert_eq!(upload.allocations[0].size, 256);
    assert_eq!(ctx.command_list.copies.len(), 1);
    // the copy reads the fresh staging buffer and writes the destination
    assert_eq!(ctx.command_list.copies[0].dest, 7);
    assert_eq!(ctx.command_list.copies[0].source, 100);
    assert_eq!(ctx.command_list.copies[0].region.source_offset, 8);
    assert_eq!(ctx.command_list.copies[0].region.size, 256);
    // both transitions were batched into the list
    assert_eq!(ctx.command_list.barriers.len(), 2);
    assert_eq!(ctx.command_list.barriers[0].state_after, ResourceState::CopyDest);
    assert_eq!(ctx.command_list.barriers[1].state_after, ResourceState::GenericRead);
    // the queue was signaled, drained, and got its allocator back
    assert_eq!(queue.submissions, 1);
    assert_eq!(queue.fence_value, 1);
    assert!(queue.is_fence_complete(1));
    assert_eq!(queue.command_allocator_pool.free_list.len(), 1);
    assert_eq!(queue.command_allocator_pool.free_list[0].0, 1);
}

#[test]
fn gpu_buffer_wraps_a_created_resource() {
    let buffer = GpuBuffer::create(ComPtr::from_ptr(9), 1024).unwrap();
    assert_eq!(buffer.size, 1024);
    assert_eq!(buffer.resource.usage_state, ResourceState::Common);
    assert_eq!(buffer.resource.native.as_ptr(), 9);

    let err = GpuBuffer::create(ComPtr::empty(), 1024).unwrap_err();
    assert_eq!(err, BufferError::GpuBufferCreateFailed);
}

#[test]
fn flush_submits_and_keeps_recording() {
    let mut queue = CommandQueue::new(CommandListType::Direct);
    let mut ctx = CommandContext::new();
    let mut resource = GpuResource::create(ComPtr::from_ptr(3), ResourceState::Common);
    let allocator = queue.request_allocator();

    ctx.transition_resource(&mut resource, ResourceState::CopyDest, false);
    ctx.flush(&mut queue, &allocator, true);

    // submitted, signaled and drained; the list is open again and empty
    assert_eq!(queue.submissions, 1);
    assert_eq!(queue.fence_value, 1);
    assert!(queue.is_fence_complete(1));
    assert!(ctx.command_list.is_open);
    assert_eq!(ctx.command_list.barriers.len(), 0);
    assert_eq!(ctx.resource_barriers.len(), 0);
}

#[test]
fn end_submits_and_returns_the_allocator() {
    let mut queue = CommandQueue::new(CommandListType::Direct);
    let mut ctx = CommandContext::new();
    let allocator = queue.request_allocator();

    ctx.end(&mut queue, allocator, false);

    // submitted and signaled but not drained; the allocator is pooled
    // under the new target
    assert_eq!(queue.submissions, 1);
    assert_eq!(queue.fence_value, 1);
    assert!(!queue.is_fence_complete(1));
    assert!(!ctx.command_list.is_open);
    assert_eq!(queue.command_allocator_pool.free_list.len(), 1);
    assert_eq!(queue.command_allocator_pool.free_list[0].0, 1);
}
