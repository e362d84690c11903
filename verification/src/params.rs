//! Configuration for the graphics layer: recognized options, pixel formats,
//! feature tiers and the color-space selection rules.

use vstd::prelude::*;

verus! {

/// Boolean options of the layer.
#[derive(Clone, Copy, PartialEq, Eq, Structural, Debug)]
pub struct InitFlags {
    /// Present with a sync interval of zero on variable-refresh-rate
    /// displays.
    pub allow_tearing: bool,
    /// Negotiate an HDR10 color space when the output supports it.
    pub enable_hdr: bool,
}

impl InitFlags {
    pub fn none() -> (r: Self)
        ensures
            !r.allow_tearing,
            !r.enable_hdr,
    {
        InitFlags { allow_tearing: false, enable_hdr: false }
    }
}

/// The pixel formats the layer recognizes for back and depth buffers.
#[derive(Clone, Copy, PartialEq, Eq, Structural, Debug)]
pub enum Format {
    Unknown,
    R8G8B8A8Unorm,
    R8G8B8A8UnormSrgb,
    B8G8R8A8Unorm,
    B8G8R8A8UnormSrgb,
    B8G8R8X8Unorm,
    B8G8R8X8UnormSrgb,
    R10G10B10A2Unorm,
    R16G16B16A16Float,
    D32Float,
}

/// The linear format backing an sRGB format; swapchain buffers are created
/// without the sRGB qualifier.
pub open spec fn spec_no_srgb(format: Format) -> Format {
    match format {
        Format::R8G8B8A8UnormSrgb => Format::R8G8B8A8Unorm,
        Format::B8G8R8A8UnormSrgb => Format::B8G8R8A8Unorm,
        Format::B8G8R8X8UnormSrgb => Format::B8G8R8X8Unorm,
        _ => format,
    }
}

/// Strips the sRGB qualifier from a back-buffer format.
pub fn no_srgb(format: Format) -> (r: Format)
    ensures
        r == spec_no_srgb(format),
{
    match format {
        Format::R8G8B8A8UnormSrgb => Format::R8G8B8A8Unorm,
        Format::B8G8R8A8UnormSrgb => Format::B8G8R8A8Unorm,
        Format::B8G8R8X8UnormSrgb => Format::B8G8R8X8Unorm,
        _ => format,
    }
}

/// Device feature tiers the layer can ask for.
#[derive(Clone, Copy, PartialEq, Eq, Structural, Debug)]
pub enum FeatureLevel {
    Level11_0,
    Level11_1,
    Level12_0,
    Level12_1,
}

/// The position of a tier in the feature-level order, lowest first.
pub open spec fn spec_feature_level_rank(level: FeatureLevel) -> int {
    match level {
        FeatureLevel::Level11_0 => 0,
        FeatureLevel::Level11_1 => 1,
        FeatureLevel::Level12_0 => 2,
        FeatureLevel::Level12_1 => 3,
    }
}

/// The color spaces a swapchain can present in.
#[derive(Clone, Copy, PartialEq, Eq, Structural, Debug)]
pub enum ColorSpace {
    /// Standard dynamic range.
    RgbFullG22NoneP709,
    /// HDR10: the application produces the HDR10 signal.
    RgbFullG2084NoneP2020,
    /// Linear values: the system produces the HDR10 signal.
    RgbFullG10NoneP709,
}

/// The color space for a back-buffer format: HDR output is chosen only when
/// it is requested, the display supports HDR10, and the format carries
/// enough precision; everything else presents in standard dynamic range.
pub open spec fn spec_color_space(
    back_buffer_format: Format,
    enable_hdr: bool,
    hdr10_supported: bool,
) -> ColorSpace {
    if enable_hdr && hdr10_supported {
        match back_buffer_format {
            Format::R10G10B10A2Unorm => ColorSpace::RgbFullG2084NoneP2020,
            Format::R16G16B16A16Float => ColorSpace::RgbFullG10NoneP709,
            _ => ColorSpace::RgbFullG22NoneP709,
        }
    } else {
        ColorSpace::RgbFullG22NoneP709
    }
}

/// Picks the color space to present in.  `hdr10_supported` is what the
/// output reported when queried for HDR10 support.
pub fn compute_color_space(
    back_buffer_format: Format,
    enable_hdr: bool,
    hdr10_supported: bool,
) -> (r: ColorSpace)
    ensures
        r == spec_color_space(back_buffer_format, enable_hdr, hdr10_supported),
{
    if enable_hdr && hdr10_supported {
        match back_buffer_format {
            Format::R10G10B10A2Unorm => ColorSpace::RgbFullG2084NoneP2020,
            Format::R16G16B16A16Float => ColorSpace::RgbFullG10NoneP709,
            _ => ColorSpace::RgbFullG22NoneP709,
        }
    } else {
        ColorSpace::RgbFullG22NoneP709
    }
}

/// What the adapter and output turned out to support, gathered by the
/// surrounding program when the device is brought up.
#[derive(Clone, Copy, Debug)]
pub struct DeviceSupport {
    /// Variable-refresh-rate (tearing) presents are available.
    pub allow_tearing: bool,
    /// The output supports the HDR10 color space.
    pub hdr10: bool,
    /// The highest feature tier the device reported, where the capability
    /// query succeeded.
    pub max_feature_level: Option<FeatureLevel>,
}

/// The feature tier a device runs at: the highest reported tier, or the
/// requested minimum when the capability query failed.
pub open spec fn spec_device_feature_level(
    support: DeviceSupport,
    min_feature_level: FeatureLevel,
) -> FeatureLevel {
    match support.max_feature_level {
        Some(level) => level,
        None => min_feature_level,
    }
}

/// A capability report is consistent with a requested minimum tier when
/// any reported maximum is at least that minimum — which holds of a real
/// report, since the device was created at the minimum tier.
pub open spec fn spec_support_consistent(
    support: DeviceSupport,
    min_feature_level: FeatureLevel,
) -> bool {
    match support.max_feature_level {
        Some(level) => spec_feature_level_rank(level) >= spec_feature_level_rank(
            min_feature_level,
        ),
        None => true,
    }
}

/// The recognized configuration options of the layer.
pub struct InitParams {
    pub window_title: String,
    pub window_handle: u64,
    pub window_width: u32,
    pub window_height: u32,
    pub back_buffer_format: Format,
    pub depth_buffer_format: Format,
    pub back_buffer_count: u32,
    pub min_feature_level: FeatureLevel,
    pub flags: InitFlags,
}

impl InitParams {
    /// The configurations the layer accepts: a non-empty client area and
    /// two or three back buffers.
    pub open spec fn valid(self) -> bool {
        &&& self.window_width >= 1
        &&& self.window_height >= 1
        &&& 2 <= self.back_buffer_count <= 3
    }

    /// Defaults for the given window: an 8-bit UNORM back buffer, a 32-bit
    /// float depth buffer, two back buffers, the baseline feature tier and
    /// no optional flags.
    pub fn new(window_handle: u64, window_width: u32, window_height: u32) -> (r: Self)
        requires
            window_width >= 1,
            window_height >= 1,
        ensures
            r.window_title@.len() == 0,
            r.window_handle == window_handle,
            r.window_width == window_width,
            r.window_height == window_height,
            r.back_buffer_format == Format::R8G8B8A8Unorm,
            r.depth_buffer_format == Format::D32Float,
            r.back_buffer_count == 2,
            r.min_feature_level == FeatureLevel::Level11_0,
            !r.flags.allow_tearing,
            !r.flags.enable_hdr,
            r.valid(),
    {
        InitParams {
            window_title: String::new(),
            window_handle,
            window_width,
            window_height,
            back_buffer_format: Format::R8G8B8A8Unorm,
            depth_buffer_format: Format::D32Float,
            back_buffer_count: 2,
            min_feature_level: FeatureLevel::Level11_0,
            flags: InitFlags { allow_tearing: false, enable_hdr: false },
        }
    }
}

} // verus!
