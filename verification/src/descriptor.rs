//! Bump-allocated descriptor heaps.
//!
//! A descriptor heap is a fixed-capacity page of GPU-addressable resource
//! view slots, handed out by bumping a cursor: returned descriptors stay
//! stable for the heap's lifetime and are never recycled.  A
//! `DescriptorAllocator` owns a growing sequence of such heaps; each heap is
//! used until a request no longer fits, at which point a new fixed-size heap
//! is started and the old heap's remaining slots are abandoned.

use vstd::prelude::*;

verus! {

/// Number of slots in every heap a `DescriptorAllocator` creates.
pub const DESCRIPTOR_HEAP_SIZE: u32 = 256;

#[derive(Clone, Copy, PartialEq, Eq, Structural, Debug)]
pub enum DescriptorError {
    DescriptorHeapCreateFailed,
}

/// Which kind of resource views a heap holds.
#[derive(Clone, Copy, PartialEq, Eq, Structural, Debug)]
pub enum DescriptorHeapKind {
    RenderTargetView,
    DepthStencilView,
}

/// A handle to a descriptor slot: the address of the slot in its heap.
#[derive(Clone, Copy, PartialEq, Eq, Structural, Debug)]
pub struct CpuDescriptor {
    pub ptr: u64,
}

/// One fixed-capacity page of descriptor slots, allocated front to back.
/// `base` is the address of the first slot and `descriptor_size` the
/// per-slot increment, both reported by the device when the native heap is
/// created.
pub struct DescriptorHeap {
    pub base: u64,
    pub descriptor_size: u32,
    pub capacity: u32,
    pub allocated: u32,
}

impl DescriptorHeap {
    /// Slots never outrun the page, and every slot address fits the address
    /// space.
    pub open spec fn well_formed(self) -> bool {
        &&& self.descriptor_size >= 1
        &&& self.allocated <= self.capacity
        &&& self.base + self.capacity * self.descriptor_size <= u64::MAX
    }

    /// The address of the slot `index` slots past the heap start.
    pub open spec fn slot_address(self, index: int) -> int {
        self.base + index * self.descriptor_size
    }

    pub fn new(base: u64, descriptor_size: u32, capacity: u32) -> (r: Self)
        requires
            descriptor_size >= 1,
            base + capacity * descriptor_size <= u64::MAX,
        ensures
            r == (DescriptorHeap { base, descriptor_size, capacity, allocated: 0 }),
            r.well_formed(),
    {
        DescriptorHeap { base, descriptor_size, capacity, allocated: 0 }
    }

    /// Hands out `count` contiguous slots, bumping the cursor.  The returned
    /// handle addresses the first of them; no later allocation from this
    /// heap overlaps it.
    pub fn allocate_cpu(&mut self, count: u32) -> (r: CpuDescriptor)
        requires
            old(self).well_formed(),
            1 <= count,
            old(self).allocated + count <= old(self).capacity,
        ensures
            final(self).well_formed(),
            r.ptr == old(self).slot_address(old(self).allocated as int),
            final(self).allocated == old(self).allocated + count,
            final(self).base == old(self).base,
            final(self).descriptor_size == old(self).descriptor_size,
            final(self).capacity == old(self).capacity,
    {
        proof {
            lemma_slot_arithmetic_bounds(
                self.base as int,
                self.descriptor_size as int,
                self.capacity as int,
                self.allocated as int,
                count as int,
            );
        }
        let offset: u64 = (self.allocated as u64) * (self.descriptor_size as u64);
        let handle = CpuDescriptor { ptr: self.base + offset };
        self.allocated = self.allocated + count;
        handle
    }
}

/// `allocated * size` and `(allocated + count) * size` stay within the
/// page's extent `capacity * size` whenever `allocated + count <= capacity`.
proof fn lemma_slot_arithmetic_bounds(base: int, size: int, capacity: int, allocated: int, count: int)
    requires
        size >= 1,
        0 <= allocated,
        0 <= count,
        allocated + count <= capacity,
        base >= 0,
        base + capacity * size <= u64::MAX,
    ensures
        allocated * size <= capacity * size,
        (allocated + count) * size <= capacity * size,
        base + allocated * size + count * size <= u64::MAX,
        (allocated + count) * size == allocated * size + count * size,
        allocated * size >= 0,
        count * size >= count,
{
    assert(allocated * size <= capacity * size && (allocated + count) * size <= capacity * size
        && (allocated + count) * size == allocated * size + count * size && allocated * size >= 0
        && count * size >= count) by (nonlinear_arith)
        requires
            size >= 1,
            0 <= allocated,
            0 <= count,
            allocated + count <= capacity,
    ;
}

/// An append-only allocator over a growing sequence of fixed-size heaps.
/// The current (last) heap serves requests until one does not fit; then a
/// fresh heap is created and the old heap's free tail is abandoned.
pub struct DescriptorAllocator {
    pub kind: DescriptorHeapKind,
    pub descriptor_size: u32,
    pub heaps: Vec<DescriptorHeap>,
    pub current_heap_id: Option<usize>,
    pub free_descriptors_count: u32,
    pub next_heap_base: u64,
}

impl DescriptorAllocator {
    pub open spec fn well_formed(self) -> bool {
        &&& self.descriptor_size >= 1
        &&& forall|i: int|
            0 <= i < self.heaps@.len() ==> (#[trigger] self.heaps@[i]).well_formed()
                && self.heaps@[i].descriptor_size == self.descriptor_size
                && self.heaps@[i].capacity == DESCRIPTOR_HEAP_SIZE
        &&& match self.current_heap_id {
            None => self.heaps@.len() == 0 && self.free_descriptors_count == DESCRIPTOR_HEAP_SIZE,
            Some(i) => i + 1 == self.heaps@.len() && self.free_descriptors_count
                == DESCRIPTOR_HEAP_SIZE - self.heaps@[i as int].allocated,
        }
    }

    pub fn new(kind: DescriptorHeapKind, descriptor_size: u32) -> (r: Self)
        requires
            descriptor_size >= 1,
        ensures
            r.well_formed(),
            r.kind == kind,
            r.descriptor_size == descriptor_size,
            r.heaps@.len() == 0,
            r.next_heap_base == 0,
    {
        DescriptorAllocator {
            kind,
            descriptor_size,
            heaps: Vec::new(),
            current_heap_id: None,
            free_descriptors_count: DESCRIPTOR_HEAP_SIZE,
            next_heap_base: 0,
        }
    }

    /// Returns a handle to `count` contiguous descriptor slots.  When the
    /// current heap has too little room (or no heap exists yet), a new
    /// fixed-size heap is created and the request is served from its start;
    /// the only failure is running out of address space for a new heap.
    pub fn allocate_many(&mut self, count: u32) -> (r: Result<CpuDescriptor, DescriptorError>)
        requires
            old(self).well_formed(),
            1 <= count <= DESCRIPTOR_HEAP_SIZE,
        ensures
            final(self).well_formed(),
            final(self).kind == old(self).kind,
            final(self).descriptor_size == old(self).descriptor_size,
            ({
                let fits = old(self).current_heap_id is Some && count <= old(
                    self,
                ).free_descriptors_count;
                let cur = old(self).heaps@.len() - 1;
                match r {
                    Ok(d) => {
                        if fits {
                            // Served from the current heap at its cursor.
                            &&& d.ptr == old(self).heaps@[cur].slot_address(
                                old(self).heaps@[cur].allocated as int,
                            )
                            &&& final(self).heaps@ == old(self).heaps@.update(
                                cur,
                                (DescriptorHeap {
                                    allocated: (old(self).heaps@[cur].allocated + count) as u32,
                                    ..old(self).heaps@[cur]
                                }),
                            )
                            &&& final(self).next_heap_base == old(self).next_heap_base
                        } else {
                            // A fresh heap was created; the request starts at
                            // its first slot.
                            &&& d.ptr == old(self).next_heap_base
                            &&& final(self).heaps@ == old(self).heaps@.push(
                                (DescriptorHeap {
                                    base: old(self).next_heap_base,
                                    descriptor_size: old(self).descriptor_size,
                                    capacity: DESCRIPTOR_HEAP_SIZE,
                                    allocated: count,
                                }),
                            )
                            &&& final(self).next_heap_base == old(self).next_heap_base
                                + DESCRIPTOR_HEAP_SIZE * old(self).descriptor_size
                        }
                    },
                    Err(e) => {
                        // Only heap creation can fail, and only for want of
                        // address space.
                        &&& e == DescriptorError::DescriptorHeapCreateFailed
                        &&& !fits
                        &&& old(self).next_heap_base + DESCRIPTOR_HEAP_SIZE * old(
                            self,
                        ).descriptor_size > u64::MAX
                        &&& *final(self) == *old(self)
                    },
                }
            }),
    {
        let fits: bool = match self.current_heap_id {
            Some(_) => count <= self.free_descriptors_count,
            None => false,
        };
        let heap_id: usize;
        if !fits {
            let page_extent: u64 = (DESCRIPTOR_HEAP_SIZE as u64) * (self.descriptor_size as u64);
            if self.next_heap_base > u64::MAX - page_extent {
                return Err(DescriptorError::DescriptorHeapCreateFailed);
            }
            let heap = DescriptorHeap::new(
                self.next_heap_base,
                self.descriptor_size,
                DESCRIPTOR_HEAP_SIZE,
            );
            self.next_heap_base = self.next_heap_base + page_extent;
            heap_id = self.heaps.len();
            self.heaps.push(heap);
            self.current_heap_id = Some(heap_id);
            self.free_descriptors_count = DESCRIPTOR_HEAP_SIZE;
        } else {
            heap_id = match self.current_heap_id {
                Some(i) => i,
                None => 0,  // unreachable: `fits` implies a current heap
            };
        }
        let descriptor = self.heaps[heap_id].allocate_cpu(count);
        self.free_descriptors_count = self.free_descriptors_count - count;
        Ok(descriptor)
    }

    /// Returns a handle to a single descriptor slot: the current heap's
    /// next slot, or the first slot of a freshly created heap when the
    /// current one is full.
    pub fn allocate(&mut self) -> (r: Result<CpuDescriptor, DescriptorError>)
        requires
            old(self).well_formed(),
        ensures
            final(self).well_formed(),
            final(self).kind == old(self).kind,
            final(self).descriptor_size == old(self).descriptor_size,
            ({
                let fits = old(self).current_heap_id is Some && old(self).free_descriptors_count
                    >= 1;
                let cur = old(self).heaps@.len() - 1;
                match r {
                    Ok(d) => {
                        if fits {
                            &&& d.ptr == old(self).heaps@[cur].slot_address(
                                old(self).heaps@[cur].allocated as int,
                            )
                            &&& final(self).heaps@.len() == old(self).heaps@.len()
                        } else {
                            &&& d.ptr == old(self).next_heap_base
                            &&& final(self).heaps@.len() == old(self).heaps@.len() + 1
                        }
                    },
                    Err(e) => {
                        // only heap creation can fail, and only for want
                        // of address space
                        &&& e == DescriptorError::DescriptorHeapCreateFailed
                        &&& !fits
                        &&& old(self).next_heap_base + DESCRIPTOR_HEAP_SIZE * old(
                            self,
                        ).descriptor_size > u64::MAX
                        &&& *final(self) == *old(self)
                    },
                }
            }),
    {
        self.allocate_many(1)
    }
}

/// Descriptor monotonicity within a heap: two successive bump allocations
/// hand out disjoint slot ranges.  The first call, made with `allocated`
/// slots already used, covers addresses `[base + allocated*size,
/// base + (allocated+c1)*size)`; the second call then starts exactly where
/// the first ended, so the ranges never overlap.
pub proof fn lemma_heap_allocations_disjoint(h: DescriptorHeap, c1: int, c2: int)
    requires
        h.well_formed(),
        c1 >= 1,
        c2 >= 1,
        h.allocated + c1 + c2 <= h.capacity,
    ensures
        // the first range is non-empty and ends where the second begins
        h.slot_address(h.allocated as int) < h.slot_address(h.allocated + c1),
        h.slot_address(h.allocated + c1) < h.slot_address(h.allocated + c1 + c2),
        // both stay inside the page
        h.slot_address(h.allocated + c1 + c2) <= h.base + h.capacity * h.descriptor_size,
{
    let size = h.descriptor_size as int;
    let a = h.allocated as int;
    assert(a * size < (a + c1) * size && (a + c1) * size < (a + c1 + c2) * size && (a + c1 + c2)
        * size <= h.capacity * size) by (nonlinear_arith)
        requires
            size >= 1,
            a >= 0,
            c1 >= 1,
            c2 >= 1,
            a + c1 + c2 <= h.capacity,
    ;
}

} // verus!
