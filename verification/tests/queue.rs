use adamant::context::CommandListType;
use adamant::queue::CommandQueue;

#[test]
fn signal_and_wait_drain_the_queue() {
    let mut queue = CommandQueue::new(CommandListType::Direct);
    queue.signal_fence();
    assert_eq!(queue.fence_value, 1);
    assert!(!queue.is_fence_complete(1));
    queue.wait_for_fence();
    assert!(queue.is_fence_complete(1));
}

#[test]
fn flush_reaches_the_new_target() {
    let mut queue = CommandQueue::new(CommandListType::Direct);
    queue.flush();
    queue.flush();
    assert_eq!(queue.fence_value, 2);
    assert!(queue.is_fence_complete(2));
}

#[test]
fn queue_allocators_cycle_through_the_pool() {
    let mut queue = CommandQueue::new(CommandListType::Direct);
    let a = queue.request_allocator();
    assert_eq!(a.id, 0);
    // freed under the last signaled target (none yet: zero), which the
    // fence has already reached, so the allocator is reused at once
    queue.free_allocator(a);
    let b = queue.request_allocator();
    assert_eq!(b.id, 0);
    assert_eq!(queue.command_allocator_pool.created, 1);

    // after a signal the tag is ahead of the GPU: a new allocator is built
    queue.signal_fence();
    queue.free_allocator(b);
    let c = queue.request_allocator();
    assert_eq!(c.id, 1);
    // once drained, the freed allocator is eligible again
    queue.wait_for_fence();
    let d = queue.request_allocator();
    assert_eq!(d.id, 0);
}

#[test]
fn create_command_list_hands_out_an_open_list() {
    let mut queue = CommandQueue::new(CommandListType::Direct);
    let (mut list, allocator) = queue.create_command_list();
    assert!(list.is_open);
    assert_eq!(allocator.id, 0);
    list.close();
    queue.execute_command_list(&list);
    queue.signal_fence();
    queue.free_allocator(allocator);
    assert_eq!(queue.command_allocator_pool.free_list.len(), 1);
}
