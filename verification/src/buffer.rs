//! GPU-resident buffers.
//!
//! A `GpuBuffer` is a committed buffer in GPU-preferred memory, created in
//! the common state and filled through the upload path (see
//! `CommandContext::init_buffer`).  The native committed-resource call
//! happens outside; the wrapper records the buffer's handle and size and
//! tracks its usage state.

use vstd::prelude::*;
use crate::com::ComPtr;
use crate::resource::{GpuResource, ResourceState};

verus! {

#[derive(Clone, Copy, PartialEq, Eq, Structural, Debug)]
pub enum BufferError {
    GpuBufferCreateFailed,
}

/// A buffer of `size` bytes in GPU-preferred memory.
#[derive(Debug)]
pub struct GpuBuffer {
    pub resource: GpuResource,
    pub size: u64,
}

impl GpuBuffer {
    /// Wraps the created buffer, which starts in the common state.  A null
    /// handle means the native creation failed.
    pub fn create(resource: ComPtr, size: u64) -> (r: Result<Self, BufferError>)
        ensures
            resource.ptr != 0 ==> (r matches Ok(b) && b == (GpuBuffer {
                resource: GpuResource {
                    native: ComPtr { ptr: resource.ptr },
                    usage_state: ResourceState::Common,
                },
                size,
            })),
            resource.ptr == 0 ==> r == Err::<GpuBuffer, BufferError>(
                BufferError::GpuBufferCreateFailed,
            ),
    {
        if resource.is_null() {
            Err(BufferError::GpuBufferCreateFailed)
        } else {
            Ok(GpuBuffer { resource: GpuResource::create(resource, ResourceState::Common), size })
        }
    }
}

} // verus!
