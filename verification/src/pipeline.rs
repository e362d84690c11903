//! The per-frame render pipeline.
//!
//! The pipeline owns the swapchain, the per-back-buffer fence targets, the
//! allocator pool and the recording context, and drives the frame cycle
//! `prepare` → `clear`/record → `present`.  Presentation applies the
//! bounded-lead pacing policy: after submitting and signaling frame `N`,
//! the CPU blocks only when the *next* back buffer's previously recorded
//! fence target has not yet been reached, so the CPU runs at most
//! `back_buffer_count - 1` frames ahead of the GPU.  A device-removed or
//! device-reset status from presentation or resize tears the whole
//! device-dependent state down and rebuilds it with frame state reset to
//! its initial values.
//!
//! The native calls themselves (create, execute, present, resize) happen
//! outside; their observable outcomes enter as `PresentStatus` and
//! `ResizeStatus` values, and every decision taken on them is verified.

use vstd::prelude::*;
use crate::com::ComPtr;
use crate::context::{CommandContext, CommandListType};
use crate::descriptor::{CpuDescriptor, DescriptorHeap};
use crate::params::{
    spec_color_space,
    spec_device_feature_level,
    spec_feature_level_rank,
    spec_no_srgb,
    spec_support_consistent,
    compute_color_space,
    no_srgb,
    ColorSpace,
    DeviceSupport,
    FeatureLevel,
    Format,
    InitFlags,
    InitParams,
};
use crate::pool::{spec_reusable_index, CommandAllocator, CommandAllocatorPool};
use crate::resource::{GpuResource, ResourceState};
use crate::swapchain::Swapchain;
use crate::sync::{Fence, WaitStatus};

verus! {

/// Outcome of the native present call, handed in by the caller.
#[derive(Clone, Copy, PartialEq, Eq, Structural, Debug)]
pub enum PresentStatus {
    Success,
    DeviceRemoved,
    DeviceReset,
    Failure,
}

/// Outcome of the native buffer-resize call, handed in by the caller.
#[derive(Clone, Copy, PartialEq, Eq, Structural, Debug)]
pub enum ResizeStatus {
    Success,
    DeviceRemoved,
    DeviceReset,
    Failure,
}

/// What a completed `present` did.
#[derive(Clone, Copy, PartialEq, Eq, Structural, Debug)]
pub enum PresentResult {
    /// The frame reached the screen and the pipeline advanced.
    Presented,
    /// The device was lost; the pipeline was rebuilt to its initial state.
    DeviceLost,
}

#[derive(Clone, Copy, PartialEq, Eq, Structural, Debug)]
pub enum GraphicsError {
    PresentFailed,
    ResizeFailed,
}

/// Where the pipeline stands in the frame cycle.
#[derive(Clone, Copy, PartialEq, Eq, Structural, Debug)]
pub enum Phase {
    /// Between frames: ready for `prepare` or a resize.
    Ready,
    /// Mid-frame: `prepare` has run, `present` has not.
    Recording,
}

/// The render core.
pub struct GraphicsCore {
    // command recording
    pub context: CommandContext,
    pub allocator_pool: CommandAllocatorPool,
    /// The allocator serving the frame currently being recorded.
    pub frame_allocator: CommandAllocator,
    // swapchain objects
    pub swapchain: Swapchain,
    pub render_targets: Vec<GpuResource>,
    pub depth_stencil: GpuResource,
    // presentation/synchronization fence state
    pub fence: Fence,
    pub fence_values: Vec<u64>,
    // descriptor heaps for render-target and depth-stencil views
    pub rtv_heap: DescriptorHeap,
    pub dsv_heap: DescriptorHeap,
    pub rtv_descriptor_size: u32,
    // properties
    pub back_buffer_format: Format,
    pub depth_buffer_format: Format,
    pub back_buffer_count: u32,
    pub min_feature_level: FeatureLevel,
    /// The tier the created device actually runs at.
    pub feature_level: FeatureLevel,
    pub window_handle: u64,
    pub back_buffer_width: u32,
    pub back_buffer_height: u32,
    pub color_space: ColorSpace,
    /// Effective flags: the requested ones, restricted to what the device
    /// supports.
    pub flags: InitFlags,
    /// What the adapter and output reported at device bring-up.
    pub support: DeviceSupport,
    // frame state
    pub back_buffer_index: u32,
    pub phase: Phase,
}

impl GraphicsCore {
    pub open spec fn count(self) -> int {
        self.back_buffer_count as int
    }

    pub open spec fn current(self) -> int {
        self.back_buffer_index as int
    }

    /// The fence target recorded for the current back buffer: the value
    /// that will be signaled when this buffer's frame is submitted.
    pub open spec fn current_fence_target(self) -> u64 {
        self.fence_values@[self.current()]
    }

    pub open spec fn well_formed(self) -> bool {
        &&& 2 <= self.back_buffer_count <= 3
        &&& self.fence_values@.len() == self.count()
        &&& self.render_targets@.len() == self.count()
        &&& self.back_buffer_index < self.back_buffer_count
        &&& self.swapchain.well_formed()
        &&& self.swapchain.buffer_count == self.back_buffer_count
        &&& self.swapchain.current_index == self.back_buffer_index
        &&& self.fence.well_formed()
        &&& self.allocator_pool.well_formed()
        // Pacing: the current slot holds the highest recorded target, and
        // nothing above it has been signaled — so every wait is on a value
        // some submission will reach.
        &&& forall|i: int|
            0 <= i < self.fence_values@.len() ==> #[trigger] self.fence_values@[i]
                <= self.current_fence_target()
        &&& self.fence.signaled <= self.current_fence_target()
        // Tracked resource states follow the frame phase.
        &&& self.depth_stencil.usage_state == ResourceState::DepthWrite
        &&& (self.phase is Ready ==> forall|i: int|
            0 <= i < self.render_targets@.len() ==> (#[trigger] self.render_targets@[i]).usage_state
                == ResourceState::Present)
        &&& (self.phase is Ready ==> self.context.command_list.barriers@.len() <= 2)
        &&& (self.phase is Recording ==> {
            &&& self.render_targets@[self.current()].usage_state == ResourceState::RenderTarget
            &&& forall|i: int|
                0 <= i < self.render_targets@.len() && i != self.current() ==> (
                #[trigger] self.render_targets@[i]).usage_state == ResourceState::Present
            &&& self.context.command_list.is_open
            &&& self.context.command_list.barriers@.len() == 1
            &&& self.frame_allocator.id < self.allocator_pool.created
            &&& !self.allocator_pool.is_free(self.frame_allocator.id)
        })
        // Barriers are flushed as soon as they are recorded.
        &&& self.context.resource_barriers@.len() == 0
        // The device never runs below the requested minimum tier.
        &&& spec_support_consistent(self.support, self.min_feature_level)
        &&& spec_feature_level_rank(self.feature_level) >= spec_feature_level_rank(
            self.min_feature_level,
        )
        // View heaps: one render-target view per back buffer, one
        // depth-stencil view.
        &&& self.rtv_heap.well_formed()
        &&& self.rtv_heap.descriptor_size == self.rtv_descriptor_size
        &&& self.rtv_heap.capacity == self.back_buffer_count
        &&& self.rtv_descriptor_size >= 1
        &&& self.dsv_heap.well_formed()
    }

    /// Brings the render core up for the given configuration.  `support` is
    /// what the adapter and output reported; the tearing flag is kept only
    /// when the device supports it.  `rtv_descriptor_size` is the
    /// device-reported increment between render-target view slots.
    pub fn new(params: InitParams, support: DeviceSupport, rtv_descriptor_size: u32) -> (r: Self)
        requires
            params.valid(),
            rtv_descriptor_size >= 1,
            spec_support_consistent(support, params.min_feature_level),
        ensures
            r.well_formed(),
            r.phase is Ready,
            r.back_buffer_index == 0,
            r.back_buffer_count == params.back_buffer_count,
            r.fence.completed == 0 && r.fence.signaled == 0,
            forall|i: int| 0 <= i < r.fence_values@.len() ==> #[trigger] r.fence_values@[i] == 0,
            r.allocator_pool.created == 0 && r.allocator_pool.free_list@.len() == 0,
            r.flags.allow_tearing == (params.flags.allow_tearing && support.allow_tearing),
            r.flags.enable_hdr == params.flags.enable_hdr,
            r.color_space == spec_color_space(
                spec_no_srgb(params.back_buffer_format),
                params.flags.enable_hdr,
                support.hdr10,
            ),
            r.back_buffer_format == params.back_buffer_format,
            r.depth_buffer_format == params.depth_buffer_format,
            r.back_buffer_width == params.window_width,
            r.back_buffer_height == params.window_height,
            r.window_handle == params.window_handle,
            r.support == support,
            r.rtv_descriptor_size == rtv_descriptor_size,
            r.min_feature_level == params.min_feature_level,
            r.feature_level == spec_device_feature_level(support, params.min_feature_level),
            spec_feature_level_rank(r.feature_level) >= spec_feature_level_rank(
                params.min_feature_level,
            ),
    {
        // Tearing is kept only where the display pipeline supports it.
        let allow_tearing: bool = params.flags.allow_tearing && support.allow_tearing;
        let flags = InitFlags { allow_tearing, enable_hdr: params.flags.enable_hdr };

        // Swapchain buffers are created without the sRGB qualifier.
        let swap_format = no_srgb(params.back_buffer_format);
        let swapchain = Swapchain::new(
            params.window_width,
            params.window_height,
            swap_format,
            params.back_buffer_count,
            allow_tearing,
        );

        // HDR output is negotiated against the reported display support.
        let color_space = compute_color_space(swap_format, params.flags.enable_hdr, support.hdr10);

        // One render-target view slot per back buffer, one depth-stencil
        // view slot.
        proof {
            lemma_view_heap_extent(params.back_buffer_count as int, rtv_descriptor_size as int);
        }
        // The device runs at its highest reported tier, or the requested
        // minimum when the capability query failed.
        let feature_level = match support.max_feature_level {
            Some(level) => level,
            None => params.min_feature_level,
        };

        let rtv_heap = DescriptorHeap::new(0, rtv_descriptor_size, params.back_buffer_count);
        let dsv_base: u64 = (params.back_buffer_count as u64) * (rtv_descriptor_size as u64);
        let dsv_heap = DescriptorHeap::new(dsv_base, rtv_descriptor_size, 1);

        let render_targets = create_render_targets(params.back_buffer_count, 1);
        let depth_stencil = GpuResource::create(
            ComPtr::from_ptr(params.back_buffer_count as u64 + 1),
            ResourceState::DepthWrite,
        );

        let fence_values = filled_fence_values(params.back_buffer_count, 0);

        GraphicsCore {
            context: CommandContext::new(),
            allocator_pool: CommandAllocatorPool::new(CommandListType::Direct),
            frame_allocator: CommandAllocator { id: 0 },
            swapchain,
            render_targets,
            depth_stencil,
            fence: Fence::new(),
            fence_values,
            rtv_heap,
            dsv_heap,
            rtv_descriptor_size,
            back_buffer_format: params.back_buffer_format,
            depth_buffer_format: params.depth_buffer_format,
            back_buffer_count: params.back_buffer_count,
            min_feature_level: params.min_feature_level,
            feature_level,
            window_handle: params.window_handle,
            back_buffer_width: params.window_width,
            back_buffer_height: params.window_height,
            color_space,
            flags,
            support,
            back_buffer_index: 0,
            phase: Phase::Ready,
        }
    }

    /// Begins a frame: obtains an allocator that is safe to reset through
    /// the pool (which only reuses allocators whose tagged fence value the
    /// GPU has reached), resets the command list against it, and records
    /// the barrier moving the current back buffer from presentable to
    /// render-target-writable.
    pub fn prepare(&mut self)
        requires
            old(self).well_formed(),
            old(self).phase is Ready,
            old(self).allocator_pool.created < usize::MAX,
        ensures
            final(self).well_formed(),
            final(self).phase is Recording,
            // the allocator came from the pool at the current completed
            // value: the most recently freed safe one, else a new one
            ({
                let list = old(self).allocator_pool.free_list@;
                let k = spec_reusable_index(list, old(self).fence.completed);
                if k >= 0 {
                    &&& final(self).frame_allocator == list[k].1
                    &&& list[k].0 <= old(self).fence.completed
                    &&& final(self).allocator_pool.free_list@ == list.remove(k)
                    &&& final(self).allocator_pool.created == old(self).allocator_pool.created
                } else {
                    &&& final(self).frame_allocator.id == old(self).allocator_pool.created
                    &&& final(self).allocator_pool.free_list@ == list
                    &&& final(self).allocator_pool.created == old(self).allocator_pool.created + 1
                }
            }),
            // exactly one barrier was recorded: presentable → render target
            final(self).context.command_list.is_open,
            final(self).context.command_list.barriers@ == seq![
                (crate::resource::Barrier {
                    resource: old(self).render_targets@[old(self).current()].native.ptr,
                    state_before: ResourceState::Present,
                    state_after: ResourceState::RenderTarget,
                }),
            ],
            final(self).render_targets@ == old(self).render_targets@.update(
                old(self).current(),
                (GpuResource {
                    native: old(self).render_targets@[old(self).current()].native,
                    usage_state: ResourceState::RenderTarget,
                }),
            ),
            // nothing else moves
            final(self).fence == old(self).fence,
            final(self).fence_values == old(self).fence_values,
            final(self).swapchain == old(self).swapchain,
            final(self).back_buffer_index == old(self).back_buffer_index,
    {
        let completed: u64 = self.fence.get_value();
        let allocator = self.allocator_pool.request(completed);
        self.frame_allocator = allocator;
        self.context.command_list.reset(&allocator);

        let idx: usize = self.back_buffer_index as usize;
        self.context.transition_resource(
            &mut self.render_targets[idx],
            ResourceState::RenderTarget,
            true,
        );
        self.phase = Phase::Recording;
    }

    /// Record-time drawing access: clearing the render target and setting
    /// viewport and scissor are native commands with no tracked effect.
    pub fn clear(&self)
        requires
            self.well_formed(),
            self.phase is Recording,
    {
    }

    /// The render-target view slot of the current back buffer.
    pub fn get_rtv_descriptor(&self) -> (r: CpuDescriptor)
        requires
            self.well_formed(),
        ensures
            r.ptr == self.rtv_heap.base + self.current() * self.rtv_descriptor_size,
    {
        proof {
            let idx = self.current();
            let size = self.rtv_descriptor_size as int;
            let cap = self.rtv_heap.capacity as int;
            assert(idx * size >= 0 && idx * size <= cap * size) by (nonlinear_arith)
                requires
                    0 <= idx < cap,
                    size >= 1,
            ;
        }
        let offset: u64 = (self.back_buffer_index as u64) * (self.rtv_descriptor_size as u64);
        CpuDescriptor { ptr: self.rtv_heap.base + offset }
    }

    /// Ends the frame: records the barrier moving the back buffer to the
    /// presentable state, closes the list (the caller submits it and
    /// presents), and acts on the reported status.  On success the frame
    /// advances under the bounded-lead pacing policy; a device-removed or
    /// device-reset status rebuilds the pipeline; any other failure is
    /// surfaced without advancing the frame.
    pub fn present(&mut self, status: PresentStatus) -> (r: Result<PresentResult, GraphicsError>)
        requires
            old(self).well_formed(),
            old(self).phase is Recording,
            old(self).current_fence_target() < u64::MAX,
        ensures
            final(self).well_formed(),
            final(self).phase is Ready,
            status is Success ==> {
                let v = old(self).current_fence_target();
                let next = (old(self).current() + 1) % old(self).count();
                &&& r == Ok::<PresentResult, GraphicsError>(PresentResult::Presented)
                &&& final(self).back_buffer_index == next
                // the frame's target was signaled, and the next buffer's
                // previously recorded target has been reached before reuse
                &&& final(self).fence.signaled == v
                &&& final(self).fence.completed >= old(self).fence_values@[next]
                &&& final(self).fence_values@ == old(self).fence_values@.update(next, (v + 1) as u64)
                // the frame's allocator went back to the pool, tagged with
                // the value signaled after its submission
                &&& final(self).allocator_pool.free_list@ == old(self).allocator_pool.free_list@
                    .push((v, old(self).frame_allocator))
                &&& final(self).allocator_pool.created == old(self).allocator_pool.created
            },
            (status is DeviceRemoved || status is DeviceReset) ==> {
                &&& r == Ok::<PresentResult, GraphicsError>(PresentResult::DeviceLost)
                &&& final(self).back_buffer_index == 0
                &&& final(self).fence.completed == 0 && final(self).fence.signaled == 0
                &&& forall|i: int|
                    0 <= i < final(self).fence_values@.len()
                        ==> #[trigger] final(self).fence_values@[i] == 0
                &&& final(self).allocator_pool.created == 0
                &&& final(self).back_buffer_count == old(self).back_buffer_count
            },
            status is Failure ==> {
                &&& r == Err::<PresentResult, GraphicsError>(GraphicsError::PresentFailed)
                &&& final(self).back_buffer_index == old(self).back_buffer_index
                &&& final(self).fence == old(self).fence
                &&& final(self).fence_values == old(self).fence_values
            },
    {
        // Transition the render target to the presentable state and submit
        // the batched barriers exactly once.
        let idx: usize = self.back_buffer_index as usize;
        self.context.transition_resource(
            &mut self.render_targets[idx],
            ResourceState::Present,
            true,
        );
        self.context.command_list.close();
        // The closed list is executed on the queue here; the present call's
        // outcome arrives as `status`.
        match status {
            PresentStatus::DeviceRemoved | PresentStatus::DeviceReset => {
                // A lost device invalidates the whole object graph.
                self.handle_device_lost();
                Ok(PresentResult::DeviceLost)
            },
            PresentStatus::Failure => {
                self.phase = Phase::Ready;
                Err(GraphicsError::PresentFailed)
            },
            PresentStatus::Success => {
                self.swapchain.present();
                self.move_to_next_frame();
                self.phase = Phase::Ready;
                Ok(PresentResult::Presented)
            },
        }
    }

    /// The bounded-lead pacing step: signal the frame's fence target, free
    /// its allocator under that tag, adopt the swapchain's new buffer index,
    /// block only if that buffer's previous frame has not finished, and
    /// record the target for its next use.
    fn move_to_next_frame(&mut self)
        requires
            2 <= old(self).back_buffer_count <= 3,
            old(self).fence_values@.len() == old(self).count(),
            old(self).back_buffer_index < old(self).back_buffer_count,
            old(self).swapchain.well_formed(),
            old(self).swapchain.buffer_count == old(self).back_buffer_count,
            old(self).swapchain.current_index == (old(self).current() + 1) % old(self).count(),
            old(self).fence.well_formed(),
            old(self).fence.signaled <= old(self).current_fence_target(),
            forall|i: int|
                0 <= i < old(self).fence_values@.len() ==> #[trigger] old(self).fence_values@[i]
                    <= old(self).current_fence_target(),
            old(self).current_fence_target() < u64::MAX,
            old(self).allocator_pool.well_formed(),
            old(self).frame_allocator.id < old(self).allocator_pool.created,
            !old(self).allocator_pool.is_free(old(self).frame_allocator.id),
        ensures
            ({
                let v = old(self).current_fence_target();
                let next = (old(self).current() + 1) % old(self).count();
                &&& final(self).back_buffer_index == next
                &&& final(self).fence.well_formed()
                &&& final(self).fence.signaled == v
                &&& final(self).fence.completed >= old(self).fence_values@[next]
                &&& final(self).fence_values@ == old(self).fence_values@.update(next, (v + 1) as u64)
                &&& final(self).allocator_pool.well_formed()
                &&& final(self).allocator_pool.free_list@ == old(self).allocator_pool.free_list@
                    .push((v, old(self).frame_allocator))
                &&& final(self).allocator_pool.created == old(self).allocator_pool.created
                &&& *final(self) == (GraphicsCore {
                    back_buffer_index: final(self).back_buffer_index,
                    fence: final(self).fence,
                    fence_values: final(self).fence_values,
                    allocator_pool: final(self).allocator_pool,
                    ..*old(self)
                })
            }),
    {
        let idx: usize = self.back_buffer_index as usize;
        let current_fence_value: u64 = self.fence_values[idx];

        // Schedule the signal for the work just submitted.
        self.fence.signal(current_fence_value);

        // The allocator's recorded work finishes no later than this signal.
        self.allocator_pool.free(current_fence_value, self.frame_allocator);

        // Adopt the swapchain's new current buffer.
        self.back_buffer_index = self.swapchain.get_current_back_buffer_index();
        let next: usize = self.back_buffer_index as usize;

        // If the next frame's buffer is not ready to be reused, wait until
        // it is; the awaited value was signaled when that buffer was last
        // submitted, so the wait always terminates.
        let target: u64 = self.fence_values[next];
        if self.fence.get_value() < target {
            let _status: WaitStatus = self.fence.wait(target);
        }

        // Record the target for this buffer's next frame.
        self.fence_values[next] = current_fence_value + 1;
    }

    /// Drains the GPU: signals the current frame's target, waits until the
    /// GPU reaches it, and moves the target past it.
    pub fn wait_for_gpu(&mut self)
        requires
            old(self).well_formed(),
            old(self).current_fence_target() < u64::MAX,
        ensures
            final(self).well_formed(),
            final(self).fence.completed == old(self).current_fence_target(),
            final(self).fence.signaled == old(self).current_fence_target(),
            final(self).fence_values@ == old(self).fence_values@.update(
                old(self).current(),
                (old(self).current_fence_target() + 1) as u64,
            ),
            *final(self) == (GraphicsCore {
                fence: final(self).fence,
                fence_values: final(self).fence_values,
                ..*old(self)
            }),
    {
        let idx: usize = self.back_buffer_index as usize;
        let fence_value: u64 = self.fence_values[idx];
        self.fence.signal(fence_value);
        let _status: WaitStatus = self.fence.wait(fence_value);
        self.fence_values[idx] = fence_value + 1;
    }

    /// Full teardown and rebuild after a device-removed or device-reset
    /// status: the device-dependent object graph is recreated and the
    /// in-flight frame state — back-buffer index and all fence targets —
    /// returns to its initial values.
    fn handle_device_lost(&mut self)
        requires
            2 <= old(self).back_buffer_count <= 3,
            old(self).rtv_descriptor_size >= 1,
            old(self).rtv_heap.well_formed(),
            old(self).rtv_heap.descriptor_size == old(self).rtv_descriptor_size,
            old(self).rtv_heap.capacity == old(self).back_buffer_count,
            old(self).dsv_heap.well_formed(),
            spec_support_consistent(old(self).support, old(self).min_feature_level),
        ensures
            final(self).well_formed(),
            final(self).phase is Ready,
            final(self).back_buffer_index == 0,
            final(self).fence.completed == 0 && final(self).fence.signaled == 0,
            forall|i: int|
                0 <= i < final(self).fence_values@.len() ==> #[trigger] final(self).fence_values@[i]
                    == 0,
            final(self).fence_values@.len() == old(self).count(),
            final(self).allocator_pool.created == 0,
            final(self).allocator_pool.free_list@.len() == 0,
            final(self).back_buffer_count == old(self).back_buffer_count,
            final(self).back_buffer_width == old(self).back_buffer_width,
            final(self).back_buffer_height == old(self).back_buffer_height,
            final(self).window_handle == old(self).window_handle,
            final(self).support == old(self).support,
            final(self).flags.enable_hdr == old(self).flags.enable_hdr,
            final(self).flags.allow_tearing == (old(self).flags.allow_tearing
                && old(self).support.allow_tearing),
            final(self).back_buffer_format == spec_no_srgb(old(self).back_buffer_format),
            final(self).feature_level == spec_device_feature_level(
                old(self).support,
                old(self).min_feature_level,
            ),
            spec_feature_level_rank(final(self).feature_level) >= spec_feature_level_rank(
                old(self).min_feature_level,
            ),
            final(self).color_space == spec_color_space(
                spec_no_srgb(old(self).back_buffer_format),
                old(self).flags.enable_hdr,
                old(self).support.hdr10,
            ),
    {
        // Re-restrict the tearing flag to what the (new) device supports.
        let allow_tearing: bool = self.flags.allow_tearing && self.support.allow_tearing;
        self.flags = InitFlags { allow_tearing, enable_hdr: self.flags.enable_hdr };

        // The back-buffer format loses its sRGB qualifier, as when the
        // swapchain is first created.
        self.back_buffer_format = no_srgb(self.back_buffer_format);

        // The new device's tier, re-determined from the reported support.
        self.feature_level = match self.support.max_feature_level {
            Some(level) => level,
            None => self.min_feature_level,
        };

        // Fresh command recording state and an empty allocator pool.
        self.context = CommandContext::new();
        self.allocator_pool = CommandAllocatorPool::new(CommandListType::Direct);
        self.frame_allocator = CommandAllocator { id: 0 };

        // Fresh synchronization state: all fence targets return to zero.
        self.fence = Fence::new();
        let count: u32 = self.back_buffer_count;
        self.fence_values = filled_fence_values(count, 0);

        // A new swapchain starting at buffer zero, new render targets in
        // the presentable state, and a new depth/stencil surface.
        self.swapchain = Swapchain::new(
            self.back_buffer_width,
            self.back_buffer_height,
            self.back_buffer_format,
            count,
            allow_tearing,
        );
        self.render_targets = create_render_targets(count, 1);
        self.depth_stencil = GpuResource::create(
            ComPtr::from_ptr(count as u64 + 1),
            ResourceState::DepthWrite,
        );

        // HDR output is renegotiated for the new swapchain.
        self.color_space = compute_color_space(
            self.back_buffer_format,
            self.flags.enable_hdr,
            self.support.hdr10,
        );

        self.back_buffer_index = 0;
        self.phase = Phase::Ready;
    }

    /// Tears the render core down, consuming it.  The handle of every
    /// resource the core owned comes back exactly once — the depth/stencil
    /// surface first, then each render target in buffer order — so the
    /// surrounding program hands each to the native release exactly once:
    /// neither a leak nor a double release is possible.  Callers drain the
    /// GPU first (`wait_for_gpu`) so nothing released is still in flight.
    pub fn destroy(self) -> (released: Vec<u64>)
        requires
            self.well_formed(),
            self.phase is Ready,
        ensures
            released@.len() == self.count() + 1,
            released@[0] == self.depth_stencil.native.ptr,
            forall|i: int|
                0 <= i < self.count() ==> #[trigger] released@[1 + i] == self.render_targets@[
                    i
                ].native.ptr,
    {
        let mut released: Vec<u64> = Vec::new();
        released.push(self.depth_stencil.native.as_ptr());
        let mut n: usize = 0;
        while n < self.render_targets.len()
            invariant
                n <= self.render_targets@.len(),
                released@.len() == 1 + n,
                released@[0] == self.depth_stencil.native.ptr,
                forall|i: int|
                    0 <= i < n ==> #[trigger] released@[1 + i] == self.render_targets@[
                        i
                    ].native.ptr,
            decreases self.render_targets@.len() - n,
        {
            released.push(self.render_targets[n].native.as_ptr());
            n += 1;
        }
        released
    }

    /// Reacts to a window-size change.  With unchanged dimensions only the
    /// color space is refreshed and `false` is returned.  Otherwise the
    /// reported dimensions are clamped to at least one pixel (a minimized
    /// window reports zero), the GPU is drained, every fence target is
    /// carried over, the swapchain buffers are resized (their ring
    /// restarting at buffer zero) and the size-dependent resources are
    /// recreated.  A device-removed or device-reset status from the resize
    /// rebuilds the pipeline instead.
    pub fn on_window_size_changed(&mut self, width: u32, height: u32, status: ResizeStatus) -> (r:
        Result<bool, GraphicsError>)
        requires
            old(self).well_formed(),
            old(self).phase is Ready,
            old(self).current_fence_target() < u64::MAX,
        ensures
            final(self).well_formed(),
            final(self).phase is Ready,
            width == old(self).back_buffer_width && height == old(self).back_buffer_height ==> {
                &&& r == Ok::<bool, GraphicsError>(false)
                &&& *final(self) == (GraphicsCore { color_space: final(self).color_space, ..*old(self) })
                &&& final(self).color_space == spec_color_space(
                    old(self).back_buffer_format,
                    old(self).flags.enable_hdr,
                    old(self).support.hdr10,
                )
            },
            (width != old(self).back_buffer_width || height != old(self).back_buffer_height) ==> ({
                // zero dimensions are clamped to one pixel
                let w = if width == 0 { 1u32 } else { width };
                let h = if height == 0 { 1u32 } else { height };
                &&& final(self).back_buffer_width == w
                &&& final(self).back_buffer_height == h
                &&& (status is Success ==> {
                    let drained = old(self).current_fence_target();
                    &&& r == Ok::<bool, GraphicsError>(true)
                    &&& final(self).back_buffer_index == 0
                    // the GPU was fully drained before resources were touched
                    &&& final(self).fence.completed == drained
                    // every buffer's target carries over the drained frame
                    &&& forall|i: int|
                        0 <= i < final(self).fence_values@.len()
                            ==> #[trigger] final(self).fence_values@[i] == drained + 1
                    &&& final(self).swapchain.width == w
                    &&& final(self).swapchain.height == h
                })
                &&& ((status is DeviceRemoved || status is DeviceReset) ==> {
                    &&& r == Ok::<bool, GraphicsError>(true)
                    &&& final(self).back_buffer_index == 0
                    &&& final(self).fence.completed == 0 && final(self).fence.signaled == 0
                    &&& final(self).allocator_pool.created == 0
                })
                &&& (status is Failure ==> r == Err::<bool, GraphicsError>(
                    GraphicsError::ResizeFailed,
                ))
            }),
    {
        if width == self.back_buffer_width && height == self.back_buffer_height {
            // Same client area: only the output's color space may have
            // changed (the window may have moved to another display).
            self.color_space = compute_color_space(
                self.back_buffer_format,
                self.flags.enable_hdr,
                self.support.hdr10,
            );
            return Ok(false);
        }

        // A minimized window reports zero: clamp to one pixel.
        let clamped_width: u32 = if width == 0 { 1 } else { width };
        let clamped_height: u32 = if height == 0 { 1 } else { height };
        self.back_buffer_width = clamped_width;
        self.back_buffer_height = clamped_height;

        // Wait until all previous GPU work is complete.
        self.wait_for_gpu();

        // Carry every buffer's fence target over the drain point: none of
        // the old frames may gate reuse of the resized buffers.
        let carried: u64 = self.fence_values[self.back_buffer_index as usize];
        let count: u32 = self.back_buffer_count;
        self.fence_values = filled_fence_values(count, carried);

        match status {
            ResizeStatus::DeviceRemoved | ResizeStatus::DeviceReset => {
                // The resize itself reported a lost device: rebuild
                // everything and do not touch the old swapchain further.
                self.handle_device_lost();
                Ok(true)
            },
            ResizeStatus::Failure => Err(GraphicsError::ResizeFailed),
            ResizeStatus::Success => {
                self.swapchain.resize_buffers(clamped_width, clamped_height);
                self.back_buffer_index = self.swapchain.get_current_back_buffer_index();

                // Recreate the render targets and the depth/stencil surface
                // for the new size.
                self.render_targets = create_render_targets(count, 1);
                self.depth_stencil = GpuResource::create(
                    ComPtr::from_ptr(count as u64 + 1),
                    ResourceState::DepthWrite,
                );

                // Renegotiate HDR output for the resized swapchain.
                self.color_space = compute_color_space(
                    self.back_buffer_format,
                    self.flags.enable_hdr,
                    self.support.hdr10,
                );
                Ok(true)
            },
        }
    }
}

/// A fence-target vector holding `value` for each of `count` back buffers.
fn filled_fence_values(count: u32, value: u64) -> (r: Vec<u64>)
    ensures
        r@.len() == count,
        forall|j: int| 0 <= j < count ==> #[trigger] r@[j] == value,
{
    let mut fence_values: Vec<u64> = Vec::new();
    let mut i: u32 = 0;
    while i < count
        invariant
            i <= count,
            fence_values@.len() == i,
            forall|j: int| 0 <= j < i ==> #[trigger] fence_values@[j] == value,
        decreases count - i,
    {
        fence_values.push(value);
        i += 1;
    }
    fence_values
}

/// The view heaps' combined extent fits the address space: at most three
/// render-target slots and one depth-stencil slot.
proof fn lemma_view_heap_extent(count: int, size: int)
    requires
        0 <= count <= 3,
        0 <= size < 0x1_0000_0000,
    ensures
        count * size + size <= u64::MAX,
        count * size >= 0,
{
    assert(count * size <= 3 * 0xFFFF_FFFFint && count * size >= 0) by (nonlinear_arith)
        requires
            0 <= count <= 3,
            0 <= size < 0x1_0000_0000,
    ;
}

/// Fresh render targets for every back buffer, in the presentable state.
/// `first_handle` is the address of the first buffer's native resource.
fn create_render_targets(count: u32, first_handle: u64) -> (r: Vec<GpuResource>)
    requires
        first_handle + count <= u64::MAX,
    ensures
        r@.len() == count,
        forall|i: int|
            0 <= i < count ==> (#[trigger] r@[i]).usage_state == ResourceState::Present,
        forall|i: int| 0 <= i < count ==> (#[trigger] r@[i]).native.ptr == first_handle + i,
{
    let mut render_targets: Vec<GpuResource> = Vec::new();
    let mut n: u32 = 0;
    while n < count
        invariant
            n <= count,
            first_handle + count <= u64::MAX,
            render_targets@.len() == n,
            forall|i: int|
                0 <= i < n ==> (#[trigger] render_targets@[i]).usage_state
                    == ResourceState::Present,
            forall|i: int|
                0 <= i < n ==> (#[trigger] render_targets@[i]).native.ptr == first_handle + i,
        decreases count - n,
    {
        let handle = ComPtr::from_ptr(first_handle + n as u64);
        render_targets.push(GpuResource::create(handle, ResourceState::Present));
        n += 1;
    }
    render_targets
}

} // verus!
