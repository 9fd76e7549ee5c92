//! Per-backend capability tables.
//!
//! Every negotiation entry point (`find_supported_format`,
//! `find_supported_sample_count`, swapchain creation) is decided against
//! these tables, so a capability is a pure function of the backend and the
//! queried value. Each table exists once as a spec function and once as an
//! executable mirror proved equal to it.

use vstd::prelude::*;
use crate::types::{
    RafxBackend, RafxColorSpace, RafxDeviceInfo, RafxFormat, RafxPresentMode, RafxQueueType,
    RafxResourceType, RafxSampleCount,
};

verus! {

/// Whether `format` can be rendered to as a color attachment on `backend`.
pub open spec fn spec_format_color_renderable(backend: RafxBackend, format: RafxFormat) -> bool {
    match format {
        RafxFormat::Undefined => false,
        RafxFormat::R8G8B8A8Unorm => true,
        RafxFormat::R8G8B8A8Srgb => true,
        RafxFormat::B8G8R8A8Unorm => true,
        RafxFormat::B8G8R8A8Srgb => true,
        // Wide color targets need render-to-float support, which the GLES2
        // level of the GL backend does not offer.
        RafxFormat::R16G16B16A16Sfloat => backend != RafxBackend::Gl,
        RafxFormat::R32G32B32A32Sfloat => backend != RafxBackend::Gl,
        RafxFormat::D24UnormS8Uint => false,
        RafxFormat::D32Sfloat => false,
    }
}

/// Executable mirror of `spec_format_color_renderable`.
pub fn format_color_renderable(backend: RafxBackend, format: RafxFormat) -> (r: bool)
    ensures
        r == spec_format_color_renderable(backend, format),
{
    match format {
        RafxFormat::Undefined => false,
        RafxFormat::R8G8B8A8Unorm => true,
        RafxFormat::R8G8B8A8Srgb => true,
        RafxFormat::B8G8R8A8Unorm => true,
        RafxFormat::B8G8R8A8Srgb => true,
        RafxFormat::R16G16B16A16Sfloat => backend != RafxBackend::Gl,
        RafxFormat::R32G32B32A32Sfloat => backend != RafxBackend::Gl,
        RafxFormat::D24UnormS8Uint => false,
        RafxFormat::D32Sfloat => false,
    }
}

/// Whether `format` can serve as a depth/stencil attachment on `backend`.
pub open spec fn spec_format_depth_stencil(backend: RafxBackend, format: RafxFormat) -> bool {
    match format {
        // Metal drops the packed 24-bit depth format on most hardware.
        RafxFormat::D24UnormS8Uint => backend != RafxBackend::Metal,
        RafxFormat::D32Sfloat => true,
        _ => false,
    }
}

/// Whether `format` supports shader storage (read-write) access on `backend`.
pub open spec fn spec_format_read_write(backend: RafxBackend, format: RafxFormat) -> bool {
    match format {
        // sRGB-encoded and depth formats are never storage images, and the
        // GL backend has no storage images at all.
        RafxFormat::R8G8B8A8Unorm => backend != RafxBackend::Gl,
        RafxFormat::B8G8R8A8Unorm => backend != RafxBackend::Gl,
        RafxFormat::R16G16B16A16Sfloat => backend != RafxBackend::Gl,
        RafxFormat::R32G32B32A32Sfloat => backend != RafxBackend::Gl,
        _ => false,
    }
}

/// Whether `format` satisfies every use named by `resource_type` on
/// `backend`. A usage with no flag set only asks for plain sampling, which
/// every defined format supports.
pub open spec fn spec_format_supported(
    backend: RafxBackend,
    format: RafxFormat,
    resource_type: RafxResourceType,
) -> bool {
    &&& format != RafxFormat::Undefined
    &&& resource_type.render_target_color ==> spec_format_color_renderable(backend, format)
    &&& resource_type.render_target_depth_stencil ==> spec_format_depth_stencil(backend, format)
    &&& resource_type.texture_read_write ==> spec_format_read_write(backend, format)
}

/// Executable mirror of `spec_format_supported`.
pub fn format_supported(
    backend: RafxBackend,
    format: RafxFormat,
    resource_type: RafxResourceType,
) -> (r: bool)
    ensures
        r == spec_format_supported(backend, format, resource_type),
{
    let color_ok = match format {
        RafxFormat::Undefined => false,
        RafxFormat::R8G8B8A8Unorm => true,
        RafxFormat::R8G8B8A8Srgb => true,
        RafxFormat::B8G8R8A8Unorm => true,
        RafxFormat::B8G8R8A8Srgb => true,
        RafxFormat::R16G16B16A16Sfloat => backend != RafxBackend::Gl,
        RafxFormat::R32G32B32A32Sfloat => backend != RafxBackend::Gl,
        RafxFormat::D24UnormS8Uint => false,
        RafxFormat::D32Sfloat => false,
    };
    let depth_ok = match format {
        RafxFormat::D24UnormS8Uint => backend != RafxBackend::Metal,
        RafxFormat::D32Sfloat => true,
        _ => false,
    };
    let rw_ok = match format {
        RafxFormat::R8G8B8A8Unorm => backend != RafxBackend::Gl,
        RafxFormat::B8G8R8A8Unorm => backend != RafxBackend::Gl,
        RafxFormat::R16G16B16A16Sfloat => backend != RafxBackend::Gl,
        RafxFormat::R32G32B32A32Sfloat => backend != RafxBackend::Gl,
        _ => false,
    };
    format != RafxFormat::Undefined
        && (!resource_type.render_target_color || color_ok)
        && (!resource_type.render_target_depth_stencil || depth_ok)
        && (!resource_type.texture_read_write || rw_ok)
}

/// Whether `backend` can render with `sample_count` samples per pixel.
pub open spec fn spec_sample_count_supported(
    backend: RafxBackend,
    sample_count: RafxSampleCount,
) -> bool {
    match sample_count {
        RafxSampleCount::SampleCount1 => true,
        RafxSampleCount::SampleCount2 => backend != RafxBackend::Gl,
        RafxSampleCount::SampleCount4 => true,
        RafxSampleCount::SampleCount8 => backend == RafxBackend::Vulkan || backend
            == RafxBackend::Empty,
        RafxSampleCount::SampleCount16 => backend == RafxBackend::Empty,
    }
}

/// Executable mirror of `spec_sample_count_supported`.
pub fn sample_count_supported(backend: RafxBackend, sample_count: RafxSampleCount) -> (r: bool)
    ensures
        r == spec_sample_count_supported(backend, sample_count),
{
    match sample_count {
        RafxSampleCount::SampleCount1 => true,
        RafxSampleCount::SampleCount2 => backend != RafxBackend::Gl,
        RafxSampleCount::SampleCount4 => true,
        RafxSampleCount::SampleCount8 => backend == RafxBackend::Vulkan || backend
            == RafxBackend::Empty,
        RafxSampleCount::SampleCount16 => backend == RafxBackend::Empty,
    }
}

/// Whether `backend` exposes a native queue family matching `queue_type`.
/// The GL backend drives everything through its single context, which only
/// behaves like a graphics queue.
pub open spec fn spec_queue_type_supported(
    backend: RafxBackend,
    queue_type: RafxQueueType,
) -> bool {
    match backend {
        RafxBackend::Gl => queue_type == RafxQueueType::Graphics,
        _ => true,
    }
}

/// Executable mirror of `spec_queue_type_supported`.
pub fn queue_type_supported(backend: RafxBackend, queue_type: RafxQueueType) -> (r: bool)
    ensures
        r == spec_queue_type_supported(backend, queue_type),
{
    match backend {
        RafxBackend::Gl => queue_type == RafxQueueType::Graphics,
        _ => true,
    }
}

/// Whether `backend` can pace presentation with `mode`. FIFO is mandatory
/// everywhere, so negotiation can always fall back to it.
pub open spec fn spec_present_mode_supported(
    backend: RafxBackend,
    mode: RafxPresentMode,
) -> bool {
    match mode {
        RafxPresentMode::Fifo => true,
        RafxPresentMode::Mailbox => backend == RafxBackend::Vulkan || backend
            == RafxBackend::Empty,
        RafxPresentMode::Immediate => backend != RafxBackend::Metal,
    }
}

/// Executable mirror of `spec_present_mode_supported`.
pub fn present_mode_supported(backend: RafxBackend, mode: RafxPresentMode) -> (r: bool)
    ensures
        r == spec_present_mode_supported(backend, mode),
{
    match mode {
        RafxPresentMode::Fifo => true,
        RafxPresentMode::Mailbox => backend == RafxBackend::Vulkan || backend
            == RafxBackend::Empty,
        RafxPresentMode::Immediate => backend != RafxBackend::Metal,
    }
}

/// The fewest backbuffer images a swapchain on `backend` can have.
pub open spec fn spec_min_swapchain_images(backend: RafxBackend) -> u32 {
    match backend {
        RafxBackend::Vulkan => 2,
        RafxBackend::Metal => 2,
        RafxBackend::Gl => 2,
        RafxBackend::Empty => 1,
    }
}

/// The most backbuffer images a swapchain on `backend` can have.
pub open spec fn spec_max_swapchain_images(backend: RafxBackend) -> u32 {
    match backend {
        RafxBackend::Vulkan => 8,
        RafxBackend::Metal => 3,
        RafxBackend::Gl => 4,
        RafxBackend::Empty => 16,
    }
}

/// The image count a backend prefers when the caller's range allows a choice.
pub open spec fn spec_preferred_swapchain_images(backend: RafxBackend) -> u32 {
    match backend {
        RafxBackend::Gl => 2,
        _ => 3,
    }
}

/// Executable mirror of `spec_min_swapchain_images`.
pub fn min_swapchain_images(backend: RafxBackend) -> (r: u32)
    ensures
        r == spec_min_swapchain_images(backend),
{
    match backend {
        RafxBackend::Vulkan => 2,
        RafxBackend::Metal => 2,
        RafxBackend::Gl => 2,
        RafxBackend::Empty => 1,
    }
}

/// Executable mirror of `spec_max_swapchain_images`.
pub fn max_swapchain_images(backend: RafxBackend) -> (r: u32)
    ensures
        r == spec_max_swapchain_images(backend),
{
    match backend {
        RafxBackend::Vulkan => 8,
        RafxBackend::Metal => 3,
        RafxBackend::Gl => 4,
        RafxBackend::Empty => 16,
    }
}

/// Executable mirror of `spec_preferred_swapchain_images`.
pub fn preferred_swapchain_images(backend: RafxBackend) -> (r: u32)
    ensures
        r == spec_preferred_swapchain_images(backend),
{
    match backend {
        RafxBackend::Gl => 2,
        _ => 3,
    }
}

/// The presentable format a backend falls back to when the caller states no
/// preference: a BGRA backbuffer, sRGB-encoded exactly when the color space
/// asks for sRGB.
pub open spec fn spec_default_swapchain_format(color_space: RafxColorSpace) -> RafxFormat {
    match color_space {
        RafxColorSpace::Srgb => RafxFormat::B8G8R8A8Srgb,
        RafxColorSpace::SrgbExtended => RafxFormat::B8G8R8A8Unorm,
    }
}

/// Executable mirror of `spec_default_swapchain_format`.
pub fn default_swapchain_format(color_space: RafxColorSpace) -> (r: RafxFormat)
    ensures
        r == spec_default_swapchain_format(color_space),
{
    match color_space {
        RafxColorSpace::Srgb => RafxFormat::B8G8R8A8Srgb,
        RafxColorSpace::SrgbExtended => RafxFormat::B8G8R8A8Unorm,
    }
}

/// The capability record a device context reports when it is opened without
/// a native probe: the loosest limits the backends document.
pub open spec fn spec_default_device_info(backend: RafxBackend) -> RafxDeviceInfo {
    RafxDeviceInfo {
        min_uniform_buffer_offset_alignment: 256,
        min_storage_buffer_offset_alignment: 64,
        upload_buffer_texture_alignment: 16,
        upload_buffer_texture_row_alignment: 1,
        supports_clamp_to_border_color: backend != RafxBackend::Gl,
    }
}

/// Executable mirror of `spec_default_device_info`.
pub fn default_device_info(backend: RafxBackend) -> (r: RafxDeviceInfo)
    ensures
        r == spec_default_device_info(backend),
{
    RafxDeviceInfo {
        min_uniform_buffer_offset_alignment: 256,
        min_storage_buffer_offset_alignment: 64,
        upload_buffer_texture_alignment: 16,
        upload_buffer_texture_row_alignment: 1,
        supports_clamp_to_border_color: backend != RafxBackend::Gl,
    }
}

} // verus!
