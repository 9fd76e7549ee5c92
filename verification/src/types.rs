use vstd::prelude::*;

verus! {

/// The closed set of graphics backends.
#[derive(Clone, Copy, Debug, PartialEq, Eq, Structural)]
pub enum RafxBackend {
    Vulkan,
    Metal,
    Gl,
    Empty,
}

/// Queue families a device can expose.
#[derive(Clone, Copy, Debug, PartialEq, Eq, Structural)]
pub enum RafxQueueType {
    Graphics,
    Compute,
    Transfer,
}

/// How presentation is paced.
#[derive(Clone, Copy, Debug, PartialEq, Eq, Structural)]
pub enum RafxPresentMode {
    Immediate,
    Mailbox,
    Fifo,
}

/// Color space of the presentable images.
#[derive(Clone, Copy, Debug, PartialEq, Eq, Structural)]
pub enum RafxColorSpace {
    Srgb,
    SrgbExtended,
}

/// Pixel formats. A small representative set: enough to exercise the
/// per-backend capability tables and the negotiation entry points.
#[derive(Clone, Copy, Debug, PartialEq, Eq, Structural)]
pub enum RafxFormat {
    Undefined,
    R8G8B8A8Unorm,
    R8G8B8A8Srgb,
    B8G8R8A8Unorm,
    B8G8R8A8Srgb,
    R16G16B16A16Sfloat,
    R32G32B32A32Sfloat,
    D24UnormS8Uint,
    D32Sfloat,
}

/// MSAA sample counts.
#[derive(Clone, Copy, Debug, PartialEq, Eq, Structural)]
pub enum RafxSampleCount {
    SampleCount1,
    SampleCount2,
    SampleCount4,
    SampleCount8,
    SampleCount16,
}

/// How a resource will be used. Field sets are a backend-agnostic superset;
/// a backend that ignores a flag documents that at its capability table.
#[derive(Clone, Copy, Debug, PartialEq, Eq, Structural)]
pub struct RafxResourceType {
    /// Rendered to as a color attachment.
    pub render_target_color: bool,
    /// Rendered to as a depth/stencil attachment.
    pub render_target_depth_stencil: bool,
    /// Read and written from shaders as a storage resource.
    pub texture_read_write: bool,
    /// Bound as a uniform buffer.
    pub uniform_buffer: bool,
}

impl RafxResourceType {
    /// A resource used only for plain sampling/transfer: no flag set.
    pub fn none() -> (r: RafxResourceType)
        ensures
            r == (RafxResourceType {
                render_target_color: false,
                render_target_depth_stencil: false,
                texture_read_write: false,
                uniform_buffer: false,
            }),
    {
        RafxResourceType {
            render_target_color: false,
            render_target_depth_stencil: false,
            texture_read_write: false,
            uniform_buffer: false,
        }
    }
}

/// Where a buffer's memory lives.
#[derive(Clone, Copy, Debug, PartialEq, Eq, Structural)]
pub enum RafxMemoryUsage {
    GpuOnly,
    CpuOnly,
    CpuToGpu,
    GpuToCpu,
}

/// Sampler filtering.
#[derive(Clone, Copy, Debug, PartialEq, Eq, Structural)]
pub enum RafxFilterType {
    Nearest,
    Linear,
}

/// Sampler addressing outside the [0, 1] range.
#[derive(Clone, Copy, Debug, PartialEq, Eq, Structural)]
pub enum RafxAddressMode {
    Mirror,
    Repeat,
    ClampToEdge,
    ClampToBorder,
}

/// Mip-map selection mode.
#[derive(Clone, Copy, Debug, PartialEq, Eq, Structural)]
pub enum RafxMipMapMode {
    Nearest,
    Linear,
}

/// Shader pipeline stages.
#[derive(Clone, Copy, Debug, PartialEq, Eq, Structural)]
pub enum RafxShaderStage {
    Vertex,
    Fragment,
    Compute,
}

/// Primitive assembly for graphics pipelines.
#[derive(Clone, Copy, Debug, PartialEq, Eq, Structural)]
pub enum RafxPrimitiveTopology {
    PointList,
    LineList,
    TriangleList,
    TriangleStrip,
}

/// A three-dimensional extent in pixels.
#[derive(Clone, Copy, Debug, PartialEq, Eq, Structural)]
pub struct RafxExtents3D {
    pub width: u32,
    pub height: u32,
    pub depth: u32,
}

/// Capability information of an open device: alignment requirements and
/// supported clamp modes. Shared by every clone of a device context.
#[derive(Clone, Copy, Debug, PartialEq, Eq, Structural)]
pub struct RafxDeviceInfo {
    pub min_uniform_buffer_offset_alignment: u32,
    pub min_storage_buffer_offset_alignment: u32,
    pub upload_buffer_texture_alignment: u32,
    pub upload_buffer_texture_row_alignment: u32,
    pub supports_clamp_to_border_color: bool,
}

/// A device info record is well formed when every alignment requirement is
/// at least one byte.
pub open spec fn spec_device_info_wf(info: RafxDeviceInfo) -> bool {
    &&& info.min_uniform_buffer_offset_alignment >= 1
    &&& info.min_storage_buffer_offset_alignment >= 1
    &&& info.upload_buffer_texture_alignment >= 1
    &&& info.upload_buffer_texture_row_alignment >= 1
}

} // verus!
