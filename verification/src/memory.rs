//! Upload memory: one committed buffer per allocation.
//!
//! The allocator hands out one native buffer per request — no sub-allocation
//! — and keeps ownership of everything it created.  A CPU-writable
//! allocation is created readable by the GPU; a GPU-only allocation starts
//! writable by GPU compute.

use vstd::prelude::*;
use crate::com::ComPtr;
use crate::resource::{GpuResource, ResourceState};

verus! {

/// Where an allocation lives and who writes it.
#[derive(Clone, Copy, PartialEq, Eq, Structural, Debug)]
pub enum AllocationType {
    GpuOnly,
    CpuWritable,
}

/// The usage state a fresh allocation of the given type starts in.
pub open spec fn spec_initial_state(allocation_type: AllocationType) -> ResourceState {
    match allocation_type {
        AllocationType::GpuOnly => ResourceState::UnorderedAccess,
        AllocationType::CpuWritable => ResourceState::GenericRead,
    }
}

/// One allocation: a native buffer of `size` bytes.
pub struct Memory {
    pub resource: GpuResource,
    pub size: u64,
}

/// The allocator: plain one-to-one allocation, each request creating a new
/// buffer that the allocator keeps alive.
pub struct MemoryAllocator {
    pub allocation_type: AllocationType,
    pub allocations: Vec<Memory>,
    /// Address the next created buffer will get.
    pub next_handle: u64,
}

impl MemoryAllocator {
    pub fn new(allocation_type: AllocationType, first_handle: u64) -> (r: Self)
        ensures
            r.allocation_type == allocation_type,
            r.allocations@.len() == 0,
            r.next_handle == first_handle,
    {
        MemoryAllocator { allocation_type, allocations: Vec::new(), next_handle: first_handle }
    }

    /// Creates a buffer of `size` bytes and returns its index among this
    /// allocator's allocations.  The buffer starts in the state its
    /// allocation type dictates.
    pub fn allocate(&mut self, size: u64) -> (r: usize)
        requires
            old(self).next_handle < u64::MAX,
            old(self).allocations@.len() < usize::MAX,
        ensures
            r == old(self).allocations@.len(),
            final(self).allocation_type == old(self).allocation_type,
            final(self).next_handle == old(self).next_handle + 1,
            final(self).allocations@ == old(self).allocations@.push(
                (Memory {
                    resource: GpuResource {
                        native: ComPtr { ptr: old(self).next_handle },
                        usage_state: spec_initial_state(old(self).allocation_type),
                    },
                    size,
                }),
            ),
    {
        let state = match self.allocation_type {
            AllocationType::GpuOnly => ResourceState::UnorderedAccess,
            AllocationType::CpuWritable => ResourceState::GenericRead,
        };
        let handle = ComPtr::from_ptr(self.next_handle);
        self.next_handle = self.next_handle + 1;
        let index: usize = self.allocations.len();
        self.allocations.push(Memory { resource: GpuResource::create(handle, state), size });
        index
    }
}

} // verus!
