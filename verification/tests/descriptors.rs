use adamant::descriptor::{
    DescriptorAllocator, DescriptorHeap, DescriptorHeapKind, DESCRIPTOR_HEAP_SIZE,
};

#[test]
fn heap_bump_allocations_do_not_overlap() {
    let mut heap = DescriptorHeap::new(100, 4, 8);
    let first = heap.allocate_cpu(2);
    let second = heap.allocate_cpu(3);
    assert_eq!(first.ptr, 100);
    assert_eq!(second.ptr, 108);
    // the first range is [100, 108), the second [108, 120)
    assert!(first.ptr + 2 * 4 <= second.ptr);
    assert_eq!(heap.allocated, 5);
}

#[test]
fn allocator_starts_a_heap_on_first_request() {
    let mut alloc = DescriptorAllocator::new(DescriptorHeapKind::DepthStencilView, 8);
    let d = alloc.allocate().unwrap();
    assert_eq!(d.ptr, 0);
    assert_eq!(alloc.heaps.len(), 1);
    assert_eq!(alloc.free_descriptors_count, DESCRIPTOR_HEAP_SIZE - 1);
}

#[test]
fn allocator_overflows_into_a_second_heap() {
    // capacity 256; 300 one-at-a-time requests need exactly two heaps,
    // and the 257th lands at the second heap's first slot
    let mut alloc = DescriptorAllocator::new(DescriptorHeapKind::RenderTargetView, 1);
    let mut ptrs = Vec::new();
    for _ in 0..300 {
        ptrs.push(alloc.allocate().unwrap().ptr);
    }
    assert_eq!(alloc.heaps.len(), 2);
    // first heap: slots 0..=255 at addresses 0..=255
    assert_eq!(ptrs[0], 0);
    assert_eq!(ptrs[255], 255);
    // the 257th allocation is at offset 0 of the second heap
    assert_eq!(ptrs[256], alloc.heaps[1].base);
    assert_eq!(ptrs[256], 256);
    assert_eq!(ptrs[299], 299);
    // neither heap ever exceeded its capacity
    assert!(alloc.heaps[0].allocated <= alloc.heaps[0].capacity);
    assert_eq!(alloc.heaps[0].allocated, 256);
    assert_eq!(alloc.heaps[1].allocated, 44);
}

#[test]
fn allocator_abandons_a_tail_that_cannot_fit() {
    let mut alloc = DescriptorAllocator::new(DescriptorHeapKind::RenderTargetView, 2);
    let first = alloc.allocate_many(200).unwrap();
    // 56 slots remain; a request for 100 opens a new heap
    let second = alloc.allocate_many(100).unwrap();
    assert_eq!(first.ptr, 0);
    assert_eq!(second.ptr, 512);  // 256 slots of size 2
    assert_eq!(alloc.heaps.len(), 2);
    assert_eq!(alloc.heaps[0].allocated, 200);
    assert_eq!(alloc.heaps[1].allocated, 100);
}
