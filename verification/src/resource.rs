//! GPU resources and their tracked usage states.
//!
//! Every GPU resource carries a "current usage state" tracked on the CPU
//! side.  A resource-state transition barrier is the GPU command declaring
//! that the resource's access pattern changes from one usage mode to
//! another; the tracked state is updated the moment a barrier is recorded,
//! which is sound under a single command queue where program order equals
//! execution order.

use vstd::prelude::*;
use crate::com::ComPtr;

verus! {

/// The usage modes a resource can be in.
#[derive(Clone, Copy, PartialEq, Eq, Structural, Debug)]
pub enum ResourceState {
    Common,
    Present,
    RenderTarget,
    DepthWrite,
    CopyDest,
    CopySource,
    GenericRead,
    UnorderedAccess,
}

#[derive(Clone, Copy, PartialEq, Eq, Structural, Debug)]
pub enum GpuResourceError {
    GpuResourceMapFailed,
}

/// A native resource handle together with its tracked usage state.
#[derive(Debug)]
pub struct GpuResource {
    pub native: ComPtr,
    pub usage_state: ResourceState,
}

impl GpuResource {
    /// Wraps a native resource whose current usage state is `state`.
    pub fn create(resource: ComPtr, state: ResourceState) -> (r: Self)
        ensures
            r.native.ptr == resource.ptr,
            r.usage_state == state,
    {
        GpuResource { native: resource, usage_state: state }
    }
}

/// A recorded state-transition barrier: the named resource moves from
/// `state_before` to `state_after`.
#[derive(Clone, Copy, PartialEq, Eq, Structural, Debug)]
pub struct Barrier {
    pub resource: u64,
    pub state_before: ResourceState,
    pub state_after: ResourceState,
}

/// One region of a buffer-to-buffer copy command.
#[derive(Clone, Copy, PartialEq, Eq, Structural, Debug)]
pub struct BufferCopyRegion {
    pub source_offset: u64,
    pub dest_offset: u64,
    pub size: u64,
}

/// A recorded buffer copy: `size` bytes from `source` at `source_offset`
/// to `dest` at `dest_offset`.
#[derive(Clone, Copy, PartialEq, Eq, Structural, Debug)]
pub struct CopyCommand {
    pub dest: u64,
    pub source: u64,
    pub region: BufferCopyRegion,
}

} // verus!
