use adamant::descriptor::{DescriptorAllocator, DescriptorError, DescriptorHeapKind};
use adamant::params::{
    compute_color_space, no_srgb, ColorSpace, Format, InitFlags, InitParams,
};
use adamant::swapchain::Swapchain;

#[test]
fn no_srgb_strips_the_srgb_qualifier() {
    assert_eq!(no_srgb(Format::R8G8B8A8UnormSrgb), Format::R8G8B8A8Unorm);
    assert_eq!(no_srgb(Format::B8G8R8A8UnormSrgb), Format::B8G8R8A8Unorm);
    assert_eq!(no_srgb(Format::B8G8R8X8UnormSrgb), Format::B8G8R8X8Unorm);
    assert_eq!(no_srgb(Format::R8G8B8A8Unorm), Format::R8G8B8A8Unorm);
    assert_eq!(no_srgb(Format::D32Float), Format::D32Float);
}

#[test]
fn color_space_follows_format_and_support() {
    // HDR requested and supported: precision decides
    assert_eq!(
        compute_color_space(Format::R10G10B10A2Unorm, true, true),
        ColorSpace::RgbFullG2084NoneP2020,
    );
    assert_eq!(
        compute_color_space(Format::R16G16B16A16Float, true, true),
        ColorSpace::RgbFullG10NoneP709,
    );
    assert_eq!(
        compute_color_space(Format::R8G8B8A8Unorm, true, true),
        ColorSpace::RgbFullG22NoneP709,
    );
    // HDR not requested, or not supported: always standard dynamic range
    assert_eq!(
        compute_color_space(Format::R10G10B10A2Unorm, false, true),
        ColorSpace::RgbFullG22NoneP709,
    );
    assert_eq!(
        compute_color_space(Format::R10G10B10A2Unorm, true, false),
        ColorSpace::RgbFullG22NoneP709,
    );
}

#[test]
fn init_params_defaults() {
    let params = InitParams::new(7, 1280, 720);
    assert_eq!(params.window_handle, 7);
    assert_eq!(params.window_width, 1280);
    assert_eq!(params.window_height, 720);
    assert_eq!(params.back_buffer_format, Format::R8G8B8A8Unorm);
    assert_eq!(params.depth_buffer_format, Format::D32Float);
    assert_eq!(params.back_buffer_count, 2);
    assert_eq!(params.flags, InitFlags::none());
}

#[test]
fn swapchain_ring_rotates_and_resets() {
    let mut chain = Swapchain::new(640, 480, Format::R8G8B8A8Unorm, 3, false);
    assert_eq!(chain.get_current_back_buffer_index(), 0);
    chain.present();
    chain.present();
    assert_eq!(chain.get_current_back_buffer_index(), 2);
    chain.present();
    assert_eq!(chain.get_current_back_buffer_index(), 0);
    chain.resize_buffers(800, 600);
    assert_eq!(chain.get_current_back_buffer_index(), 0);
    assert_eq!(chain.width, 800);
}

#[test]
fn heap_creation_fails_when_address_space_runs_out() {
    let mut alloc = DescriptorAllocator {
        kind: DescriptorHeapKind::RenderTargetView,
        descriptor_size: 1,
        heaps: Vec::new(),
        current_heap_id: None,
        free_descriptors_count: 256,
        next_heap_base: u64::MAX - 5,
    };
    let err = alloc.allocate().unwrap_err();
    assert_eq!(err, DescriptorError::DescriptorHeapCreateFailed);
    assert_eq!(alloc.heaps.len(), 0);
}
