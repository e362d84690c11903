use adamant::com::ComPtr;
use adamant::context::CommandContext;
use adamant::resource::{BufferCopyRegion, GpuResource, ResourceState};

#[test]
fn transition_to_same_state_emits_no_barrier() {
    let mut ctx = CommandContext::new();
    let mut resource = GpuResource::create(ComPtr::from_ptr(42), ResourceState::Present);
    ctx.transition_resource(&mut resource, ResourceState::Present, false);
    assert_eq!(ctx.resource_barriers.len(), 0);
    assert_eq!(resource.usage_state, ResourceState::Present);
}

#[test]
fn transition_to_new_state_emits_exactly_one_barrier() {
    let mut ctx = CommandContext::new();
    let mut resource = GpuResource::create(ComPtr::from_ptr(42), ResourceState::Present);
    ctx.transition_resource(&mut resource, ResourceState::RenderTarget, false);
    assert_eq!(ctx.resource_barriers.len(), 1);
    let barrier = ctx.resource_barriers[0];
    assert_eq!(barrier.resource, 42);
    assert_eq!(barrier.state_before, ResourceState::Present);
    assert_eq!(barrier.state_after, ResourceState::RenderTarget);
    // the tracked state is updated immediately
    assert_eq!(resource.usage_state, ResourceState::RenderTarget);
    // repeating the request is now elided
    ctx.transition_resource(&mut resource, ResourceState::RenderTarget, false);
    assert_eq!(ctx.resource_barriers.len(), 1);
}

#[test]
fn flush_records_each_batch_exactly_once() {
    let mut ctx = CommandContext::new();
    let mut resource = GpuResource::create(ComPtr::from_ptr(7), ResourceState::Common);
    ctx.transition_resource(&mut resource, ResourceState::CopyDest, false);
    assert_eq!(ctx.command_list.barriers.len(), 0);
    ctx.flush_resource_barriers();
    assert_eq!(ctx.command_list.barriers.len(), 1);
    assert_eq!(ctx.resource_barriers.len(), 0);
    // flushing again must not resubmit the old batch
    ctx.flush_resource_barriers();
    assert_eq!(ctx.command_list.barriers.len(), 1);
}

#[test]
fn transition_with_flush_batches_into_the_list() {
    let mut ctx = CommandContext::new();
    let mut a = GpuResource::create(ComPtr::from_ptr(1), ResourceState::Common);
    let mut b = GpuResource::create(ComPtr::from_ptr(2), ResourceState::Common);
    ctx.transition_resource(&mut a, ResourceState::CopyDest, false);
    ctx.transition_resource(&mut b, ResourceState::CopySource, true);
    assert_eq!(ctx.command_list.barriers.len(), 2);
    assert_eq!(ctx.resource_barriers.len(), 0);
}

#[test]
fn copy_buffer_records_regions() {
    let mut ctx = CommandContext::new();
    let dest = GpuResource::create(ComPtr::from_ptr(1), ResourceState::CopyDest);
    let source = GpuResource::create(ComPtr::from_ptr(2), ResourceState::CopySource);
    let regions = vec![BufferCopyRegion { source_offset: 0, dest_offset: 16, size: 64 }];
    ctx.command_list.copy_buffer(&dest, &source, &regions);
    assert_eq!(ctx.command_list.copies.len(), 1);
    assert_eq!(ctx.command_list.copies[0].dest, 1);
    assert_eq!(ctx.command_list.copies[0].source, 2);
    assert_eq!(ctx.command_list.copies[0].region.size, 64);
    assert_eq!(ctx.command_list.copies[0].region.dest_offset, 16);
}
