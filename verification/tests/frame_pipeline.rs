use adamant::params::{DeviceSupport, FeatureLevel, Format, InitParams};
use adamant::pipeline::{GraphicsCore, GraphicsError, Phase, PresentResult, PresentStatus,
    ResizeStatus};
use adamant::resource::ResourceState;

fn double_buffered_core() -> GraphicsCore {
    let params = InitParams::new(1, 640, 480);
    let support = DeviceSupport {
        allow_tearing: false,
        hdr10: false,
        max_feature_level: Some(FeatureLevel::Level12_1),
    };
    GraphicsCore::new(params, support, 32)
}

#[test]
fn back_buffer_index_cycles_over_three_frames() {
    let mut core = double_buffered_core();
    assert_eq!(core.back_buffer_index, 0);
    assert_eq!(core.feature_level, FeatureLevel::Level12_1);
    assert_eq!(core.min_feature_level, FeatureLevel::Level11_0);

    let mut seen = Vec::new();
    for _ in 0..3 {
        core.prepare();
        core.clear();
        let result = core.present(PresentStatus::Success).unwrap();
        assert_eq!(result, PresentResult::Presented);
        seen.push(core.back_buffer_index);
    }
    // with two back buffers the index cycles 0,1,0,1: after each of the
    // three presents it reads 1, 0, 1
    assert_eq!(seen, vec![1, 0, 1]);
    // every wait so far was on an already-signaled value; the fence shows
    // bounded lead: frame targets grew by one per frame
    assert_eq!(core.fence_values, vec![2, 3]);
    assert_eq!(core.fence.signaled, 2);
}

#[test]
fn prepare_records_one_barrier_to_render_target() {
    let mut core = double_buffered_core();
    core.prepare();
    assert_eq!(core.phase, Phase::Recording);
    assert_eq!(core.context.command_list.barriers.len(), 1);
    let barrier = core.context.command_list.barriers[0];
    assert_eq!(barrier.state_before, ResourceState::Present);
    assert_eq!(barrier.state_after, ResourceState::RenderTarget);
    assert_eq!(
        core.render_targets[core.back_buffer_index as usize].usage_state,
        ResourceState::RenderTarget,
    );
}

#[test]
fn device_lost_on_present_rebuilds_to_initial_state() {
    let mut core = double_buffered_core();
    // run one good frame so some fence state exists
    core.prepare();
    core.clear();
    core.present(PresentStatus::Success).unwrap();
    assert_eq!(core.back_buffer_index, 1);

    // the next present reports a removed device
    core.prepare();
    core.clear();
    let result = core.present(PresentStatus::DeviceRemoved).unwrap();
    assert_eq!(result, PresentResult::DeviceLost);

    // the pipeline is a rebuilt, ready one: the back-buffer index matches
    // the new swapchain's reported index and all fence state is discarded
    assert_eq!(core.phase, Phase::Ready);
    assert_eq!(core.back_buffer_index, core.swapchain.get_current_back_buffer_index());
    assert_eq!(core.back_buffer_index, 0);
    assert_eq!(core.fence_values, vec![0, 0]);
    assert_eq!(core.fence.get_value(), 0);
    assert_eq!(core.allocator_pool.created, 0);

    // and it renders again
    core.prepare();
    core.clear();
    let result = core.present(PresentStatus::Success).unwrap();
    assert_eq!(result, PresentResult::Presented);
    assert_eq!(core.back_buffer_index, 1);
}

#[test]
fn failed_present_is_surfaced_without_advancing() {
    let mut core = double_buffered_core();
    core.prepare();
    core.clear();
    let err = core.present(PresentStatus::Failure).unwrap_err();
    assert_eq!(err, GraphicsError::PresentFailed);
    assert_eq!(core.back_buffer_index, 0);
    assert_eq!(core.fence_values, vec![0, 0]);
    assert_eq!(core.phase, Phase::Ready);
}

#[test]
fn resize_with_same_size_only_refreshes_color_space() {
    let mut core = double_buffered_core();
    let resized = core.on_window_size_changed(640, 480, ResizeStatus::Success).unwrap();
    assert!(!resized);
    assert_eq!(core.swapchain.width, 640);
}

#[test]
fn resize_drains_recreates_and_restarts_the_ring() {
    let mut core = double_buffered_core();
    // advance one frame so the ring is off zero
    core.prepare();
    core.clear();
    core.present(PresentStatus::Success).unwrap();
    assert_eq!(core.back_buffer_index, 1);

    let resized = core.on_window_size_changed(800, 600, ResizeStatus::Success).unwrap();
    assert!(resized);
    assert_eq!(core.back_buffer_width, 800);
    assert_eq!(core.back_buffer_height, 600);
    assert_eq!(core.swapchain.width, 800);
    assert_eq!(core.swapchain.height, 600);
    assert_eq!(core.back_buffer_index, 0);
    // every buffer's fence target carried over the drain point
    assert_eq!(core.fence_values[0], core.fence_values[1]);
    // and rendering continues
    core.prepare();
    core.clear();
    core.present(PresentStatus::Success).unwrap();
    assert_eq!(core.back_buffer_index, 1);
}

#[test]
fn failed_resize_is_surfaced() {
    let mut core = double_buffered_core();
    let err = core.on_window_size_changed(800, 600, ResizeStatus::Failure).unwrap_err();
    assert_eq!(err, GraphicsError::ResizeFailed);
}

#[test]
fn device_lost_on_resize_rebuilds() {
    let mut core = double_buffered_core();
    let resized = core.on_window_size_changed(800, 600, ResizeStatus::DeviceRemoved).unwrap();
    assert!(resized);
    assert_eq!(core.phase, Phase::Ready);
    assert_eq!(core.back_buffer_index, 0);
    assert_eq!(core.fence.get_value(), 0);
    assert_eq!(core.back_buffer_width, 800);
}

#[test]
fn resize_clamps_a_minimized_window_to_one_pixel() {
    let mut core = double_buffered_core();
    // a minimized window reports (0, 0): the resize happens, clamped
    let resized = core.on_window_size_changed(0, 0, ResizeStatus::Success).unwrap();
    assert!(resized);
    assert_eq!(core.back_buffer_width, 1);
    assert_eq!(core.back_buffer_height, 1);
    assert_eq!(core.swapchain.width, 1);
    assert_eq!(core.swapchain.height, 1);
    // and rendering continues
    core.prepare();
    core.clear();
    core.present(PresentStatus::Success).unwrap();
    assert_eq!(core.back_buffer_index, 1);
}

#[test]
fn destroy_releases_every_owned_handle_exactly_once() {
    let mut core = double_buffered_core();
    core.prepare();
    core.clear();
    core.present(PresentStatus::Success).unwrap();
    core.wait_for_gpu();

    let depth = core.depth_stencil.native.as_ptr();
    let rt0 = core.render_targets[0].native.as_ptr();
    let rt1 = core.render_targets[1].native.as_ptr();
    let released = core.destroy();

    // one release per owned resource: the depth/stencil surface and each
    // render target, with no handle listed twice
    assert_eq!(released, vec![depth, rt0, rt1]);
    assert_ne!(released[0], released[1]);
    assert_ne!(released[0], released[2]);
    assert_ne!(released[1], released[2]);
}

#[test]
fn rtv_descriptor_follows_the_back_buffer_index() {
    let mut core = double_buffered_core();
    assert_eq!(core.get_rtv_descriptor().ptr, 0);
    core.prepare();
    core.clear();
    core.present(PresentStatus::Success).unwrap();
    // slot of buffer 1, with the device-reported increment of 32
    assert_eq!(core.get_rtv_descriptor().ptr, 32);
}

#[test]
fn allocators_are_pooled_across_frames() {
    let mut core = double_buffered_core();
    // first frame constructs allocator 0; it is freed under target 0,
    // which the fence has already reached, so the second frame reuses it
    core.prepare();
    assert_eq!(core.frame_allocator.id, 0);
    core.clear();
    core.present(PresentStatus::Success).unwrap();

    core.prepare();
    assert_eq!(core.frame_allocator.id, 0);
    core.clear();
    core.present(PresentStatus::Success).unwrap();

    // that frame was freed under target 1, which the GPU has not reached:
    // the third frame must construct a new allocator
    core.prepare();
    assert_eq!(core.frame_allocator.id, 1);
    assert_eq!(core.allocator_pool.created, 2);
    core.clear();
    core.present(PresentStatus::Success).unwrap();

    // from here the pacing wait keeps one older freed allocator safe each
    // frame: the two allocators alternate and no further one is built
    core.prepare();
    assert_eq!(core.frame_allocator.id, 0);
    core.clear();
    core.present(PresentStatus::Success).unwrap();

    core.prepare();
    assert_eq!(core.frame_allocator.id, 1);
    assert_eq!(core.allocator_pool.created, 2);
}
