//! Plain-data resource definitions: the sole input surface for resource
//! creation. Each definition carries a validity predicate; creation
//! validates the definition against the backend's capability tables and
//! the device's limits and fails with a descriptive error instead of
//! panicking in native code.

use vstd::prelude::*;
use crate::caps::{
    spec_format_color_renderable, spec_format_depth_stencil, spec_format_supported,
    spec_sample_count_supported,
};
use crate::types::{
    RafxAddressMode, RafxBackend, RafxColorSpace, RafxDeviceInfo, RafxExtents3D, RafxFilterType,
    RafxFormat, RafxMemoryUsage, RafxMipMapMode, RafxPresentMode, RafxPrimitiveTopology,
    RafxQueueType, RafxResourceType, RafxSampleCount, RafxShaderStage,
};

verus! {

/// The widest push-constant range every backend honors, in bytes.
pub const MAX_PUSH_CONSTANT_BYTES: u32 = 128;

/// Descriptor sets a root signature can bind at once.
pub const MAX_DESCRIPTOR_SET_LAYOUTS: u32 = 4;

/// What a swapchain is created from: dimensions, pacing, color space, a
/// format preference (`Undefined` asks the backend to choose) and the range
/// of backbuffer image counts the caller accepts.
#[derive(Clone, Copy, Debug, PartialEq, Eq, Structural)]
pub struct RafxSwapchainDef {
    pub width: u32,
    pub height: u32,
    pub present_mode: RafxPresentMode,
    pub color_space: RafxColorSpace,
    pub format: RafxFormat,
    pub min_image_count: u32,
    pub max_image_count: u32,
}

/// A swapchain definition is well formed when it names a nonempty surface
/// and a nonempty image-count range.
pub open spec fn spec_swapchain_def_wf(def: RafxSwapchainDef) -> bool {
    &&& def.width >= 1
    &&& def.height >= 1
    &&& 1 <= def.min_image_count <= def.max_image_count
}

/// Executable mirror of `spec_swapchain_def_wf`.
pub fn swapchain_def_wf(def: &RafxSwapchainDef) -> (r: bool)
    ensures
        r == spec_swapchain_def_wf(*def),
{
    def.width >= 1 && def.height >= 1 && 1 <= def.min_image_count && def.min_image_count
        <= def.max_image_count
}

/// What a buffer is created from.
#[derive(Clone, Copy, Debug, PartialEq, Eq, Structural)]
pub struct RafxBufferDef {
    /// Size in bytes; must be nonzero.
    pub size: u64,
    /// Required placement alignment in bytes; zero asks for the default.
    pub alignment: u32,
    pub memory_usage: RafxMemoryUsage,
    pub queue_type: RafxQueueType,
    pub resource_type: RafxResourceType,
    /// Keep the buffer mapped for its whole lifetime.
    pub always_mapped: bool,
}

/// Whether `n` is a power of two.
pub open spec fn spec_is_power_of_two(n: u32) -> bool
    decreases n,
{
    if n == 0 {
        false
    } else if n == 1 {
        true
    } else {
        n % 2 == 0 && spec_is_power_of_two(n / 2)
    }
}

/// Executable mirror of `spec_is_power_of_two`.
pub fn is_power_of_two(n: u32) -> (r: bool)
    ensures
        r == spec_is_power_of_two(n),
{
    let mut m: u32 = n;
    if m == 0 {
        return false;
    }
    while m > 1
        invariant
            m >= 1,
            spec_is_power_of_two(n) == spec_is_power_of_two(m),
        decreases m,
    {
        if m % 2 != 0 {
            return false;
        }
        m = m / 2;
    }
    true
}

/// A buffer definition is valid for a device when it is nonempty, any
/// explicit alignment is a power of two, and a uniform buffer's explicit
/// alignment honors the device's minimum uniform-buffer alignment.
pub open spec fn spec_buffer_def_valid(def: RafxBufferDef, info: RafxDeviceInfo) -> bool {
    &&& def.size >= 1
    &&& def.alignment == 0 || spec_is_power_of_two(def.alignment)
    &&& def.resource_type.uniform_buffer && def.alignment != 0 ==> def.alignment
        >= info.min_uniform_buffer_offset_alignment
}

/// Executable mirror of `spec_buffer_def_valid`.
pub fn buffer_def_valid(def: &RafxBufferDef, info: &RafxDeviceInfo) -> (r: bool)
    ensures
        r == spec_buffer_def_valid(*def, *info),
{
    def.size >= 1 && (def.alignment == 0 || is_power_of_two(def.alignment)) && (
    !(def.resource_type.uniform_buffer && def.alignment != 0) || def.alignment
        >= info.min_uniform_buffer_offset_alignment)
}

/// What a texture is created from.
#[derive(Clone, Copy, Debug, PartialEq, Eq, Structural)]
pub struct RafxTextureDef {
    pub extents: RafxExtents3D,
    pub array_length: u32,
    pub mip_count: u32,
    pub format: RafxFormat,
    pub sample_count: RafxSampleCount,
    pub resource_type: RafxResourceType,
}

/// The number of mip levels a dimension of `n` pixels admits: one level
/// per halving, plus the base level.
pub open spec fn spec_max_mip_levels(n: u32) -> int
    decreases n,
{
    if n <= 1 {
        1
    } else {
        1 + spec_max_mip_levels(n / 2)
    }
}

/// Dimensions below `pow2(k)` admit at most `k` mip levels (for `k >= 1`).
proof fn lemma_max_mip_levels_le(k: nat, n: u32)
    requires
        k >= 1,
        n < vstd::arithmetic::power2::pow2(k),
    ensures
        1 <= spec_max_mip_levels(n) <= k,
    decreases k,
{
    vstd::arithmetic::power2::lemma_pow2_unfold(k);
    if n <= 1 {
    } else {
        vstd::arithmetic::power2::lemma_pow2_pos((k - 1) as nat);
        if k == 1 {
            vstd::arithmetic::power2::lemma2_to64();
            assert(false);
        } else {
            lemma_max_mip_levels_le((k - 1) as nat, n / 2);
        }
    }
}

/// The mip chain of a dimension never exceeds 32 levels.
pub proof fn lemma_max_mip_levels_bound(n: u32)
    ensures
        1 <= spec_max_mip_levels(n) <= 32,
{
    vstd::arithmetic::power2::lemma2_to64();
    lemma_max_mip_levels_le(32, n);
}

/// Executable mirror of `spec_max_mip_levels`.
pub fn max_mip_levels(n: u32) -> (r: u32)
    ensures
        r == spec_max_mip_levels(n),
{
    let mut m: u32 = n;
    let mut levels: u32 = 1;
    proof {
        lemma_max_mip_levels_bound(n);
        lemma_max_mip_levels_bound(m);
    }
    while m > 1
        invariant
            levels >= 1,
            levels + spec_max_mip_levels(m) == 1 + spec_max_mip_levels(n),
            spec_max_mip_levels(n) <= 32,
            1 <= spec_max_mip_levels(m),
        decreases m,
    {
        proof {
            lemma_max_mip_levels_bound(m / 2);
        }
        m = m / 2;
        levels = levels + 1;
    }
    levels
}

/// The longest dimension of an extent.
pub open spec fn spec_extent_max_dim(e: RafxExtents3D) -> u32 {
    if e.width >= e.height && e.width >= e.depth {
        e.width
    } else if e.height >= e.depth {
        e.height
    } else {
        e.depth
    }
}

/// Executable mirror of `spec_extent_max_dim`.
pub fn extent_max_dim(e: &RafxExtents3D) -> (r: u32)
    ensures
        r == spec_extent_max_dim(*e),
{
    if e.width >= e.height && e.width >= e.depth {
        e.width
    } else if e.height >= e.depth {
        e.height
    } else {
        e.depth
    }
}

/// The backend-independent part of texture validity: extents and layer
/// count nonzero, the mip chain fits the extents, and multisampling is only
/// asked of single-mip render targets.
pub open spec fn spec_texture_def_structural(def: RafxTextureDef) -> bool {
    &&& def.extents.width >= 1
    &&& def.extents.height >= 1
    &&& def.extents.depth >= 1
    &&& def.array_length >= 1
    &&& 1 <= def.mip_count <= spec_max_mip_levels(spec_extent_max_dim(def.extents))
    &&& def.sample_count != RafxSampleCount::SampleCount1 ==> def.mip_count == 1
        && (def.resource_type.render_target_color || def.resource_type.render_target_depth_stencil)
}

/// A texture definition is valid on a backend when it is structurally
/// sound and the backend supports its sample count and its format for
/// every requested use.
pub open spec fn spec_texture_def_valid(def: RafxTextureDef, backend: RafxBackend) -> bool {
    &&& spec_texture_def_structural(def)
    &&& spec_sample_count_supported(backend, def.sample_count)
    &&& spec_format_supported(backend, def.format, def.resource_type)
}

/// Executable mirror of `spec_texture_def_structural`.
pub fn texture_def_structural(def: &RafxTextureDef) -> (r: bool)
    ensures
        r == spec_texture_def_structural(*def),
{
    let dims_ok = def.extents.width >= 1 && def.extents.height >= 1 && def.extents.depth >= 1
        && def.array_length >= 1;
    let mips_ok = 1 <= def.mip_count && def.mip_count <= max_mip_levels(
        extent_max_dim(&def.extents),
    );
    let msaa_ok = def.sample_count == RafxSampleCount::SampleCount1 || (def.mip_count == 1 && (
    def.resource_type.render_target_color || def.resource_type.render_target_depth_stencil));
    dims_ok && mips_ok && msaa_ok
}

/// Executable mirror of `spec_texture_def_valid`.
pub fn texture_def_valid(def: &RafxTextureDef, backend: RafxBackend) -> (r: bool)
    ensures
        r == spec_texture_def_valid(*def, backend),
{
    texture_def_structural(def) && crate::caps::sample_count_supported(backend, def.sample_count)
        && crate::caps::format_supported(backend, def.format, def.resource_type)
}

/// What a sampler is created from.
#[derive(Clone, Copy, Debug, PartialEq, Eq, Structural)]
pub struct RafxSamplerDef {
    pub min_filter: RafxFilterType,
    pub mag_filter: RafxFilterType,
    pub mip_map_mode: RafxMipMapMode,
    pub address_mode_u: RafxAddressMode,
    pub address_mode_v: RafxAddressMode,
    pub address_mode_w: RafxAddressMode,
}

/// A sampler definition is valid for a device unless it asks for
/// clamp-to-border on a device that does not support border colors.
pub open spec fn spec_sampler_def_valid(def: RafxSamplerDef, info: RafxDeviceInfo) -> bool {
    (def.address_mode_u == RafxAddressMode::ClampToBorder || def.address_mode_v
        == RafxAddressMode::ClampToBorder || def.address_mode_w == RafxAddressMode::ClampToBorder)
        ==> info.supports_clamp_to_border_color
}

/// Executable mirror of `spec_sampler_def_valid`.
pub fn sampler_def_valid(def: &RafxSamplerDef, info: &RafxDeviceInfo) -> (r: bool)
    ensures
        r == spec_sampler_def_valid(*def, *info),
{
    let wants_border = def.address_mode_u == RafxAddressMode::ClampToBorder || def.address_mode_v
        == RafxAddressMode::ClampToBorder || def.address_mode_w == RafxAddressMode::ClampToBorder;
    !wants_border || info.supports_clamp_to_border_color
}

/// One stage of a shader program.
#[derive(Clone, Copy, Debug, PartialEq, Eq, Structural)]
pub struct RafxShaderStageDef {
    pub stage: RafxShaderStage,
}

/// A stage list builds a shader when it is nonempty, names each stage at
/// most once, and is either a lone compute stage or a graphics program
/// anchored by a vertex stage.
pub open spec fn spec_shader_stages_valid(stages: Seq<RafxShaderStageDef>) -> bool {
    &&& stages.len() >= 1
    &&& forall|i: int, j: int|
        0 <= i < j < stages.len() ==> (#[trigger] stages[i]).stage != (#[trigger] stages[j]).stage
    &&& if exists|i: int| 0 <= i < stages.len() && (#[trigger] stages[i]).stage
        == RafxShaderStage::Compute {
        stages.len() == 1
    } else {
        exists|i: int| 0 <= i < stages.len() && (#[trigger] stages[i]).stage
            == RafxShaderStage::Vertex
    }
}

/// Executable mirror of `spec_shader_stages_valid`.
pub fn shader_stages_valid(stages: &Vec<RafxShaderStageDef>) -> (r: bool)
    ensures
        r == spec_shader_stages_valid(stages@),
{
    if stages.len() == 0 {
        return false;
    }
    let n: usize = stages.len();
    let mut i: usize = 0;
    let mut has_compute: bool = false;
    let mut has_vertex: bool = false;
    while i < n
        invariant
            n == stages.len(),
            i <= n,
            has_compute == exists|k: int|
                0 <= k < i && (#[trigger] stages@[k]).stage == RafxShaderStage::Compute,
            has_vertex == exists|k: int|
                0 <= k < i && (#[trigger] stages@[k]).stage == RafxShaderStage::Vertex,
            forall|p: int, q: int|
                0 <= p < q < i ==> (#[trigger] stages@[p]).stage != (#[trigger] stages@[q]).stage,
        decreases n - i,
    {
        let mut j: usize = 0;
        while j < i
            invariant
                n == stages.len(),
                j <= i < n,
                forall|p: int|
                    0 <= p < j ==> (#[trigger] stages@[p]).stage != stages@[i as int].stage,
            decreases i - j,
        {
            if stages[j].stage == stages[i].stage {
                return false;
            }
            j = j + 1;
        }
        if stages[i].stage == RafxShaderStage::Compute {
            has_compute = true;
        }
        if stages[i].stage == RafxShaderStage::Vertex {
            has_vertex = true;
        }
        i = i + 1;
    }
    if has_compute {
        stages.len() == 1
    } else {
        has_vertex
    }
}

/// What a shader module is created from: the compiled artifact bytes.
#[derive(Clone, Debug)]
pub struct RafxShaderModuleDef {
    pub bytecode: Vec<u8>,
}

/// A shader module is valid on a backend when it is nonempty; the Vulkan
/// backend additionally requires whole SPIR-V words.
pub open spec fn spec_shader_module_def_valid(
    def: RafxShaderModuleDef,
    backend: RafxBackend,
) -> bool {
    &&& def.bytecode.len() >= 1
    &&& backend == RafxBackend::Vulkan ==> def.bytecode.len() % 4 == 0
}

/// Executable mirror of `spec_shader_module_def_valid`.
pub fn shader_module_def_valid(def: &RafxShaderModuleDef, backend: RafxBackend) -> (r: bool)
    ensures
        r == spec_shader_module_def_valid(*def, backend),
{
    def.bytecode.len() >= 1 && (backend != RafxBackend::Vulkan || def.bytecode.len() % 4 == 0)
}

/// What a root signature is created from: how many bindings each descriptor
/// set layout holds, and the push-constant range.
#[derive(Clone, Debug)]
pub struct RafxRootSignatureDef {
    pub descriptor_set_binding_counts: Vec<u32>,
    pub push_constant_bytes: u32,
}

/// A root signature is valid when it stays within the common limits and
/// every named set layout has at least one binding.
pub open spec fn spec_root_signature_def_valid(def: RafxRootSignatureDef) -> bool {
    &&& def.descriptor_set_binding_counts.len() <= MAX_DESCRIPTOR_SET_LAYOUTS
    &&& def.push_constant_bytes <= MAX_PUSH_CONSTANT_BYTES
    &&& forall|i: int|
        0 <= i < def.descriptor_set_binding_counts.len()
            ==> #[trigger] def.descriptor_set_binding_counts[i] >= 1
}

/// Executable mirror of `spec_root_signature_def_valid`.
pub fn root_signature_def_valid(def: &RafxRootSignatureDef) -> (r: bool)
    ensures
        r == spec_root_signature_def_valid(*def),
{
    if def.descriptor_set_binding_counts.len() > MAX_DESCRIPTOR_SET_LAYOUTS as usize {
        return false;
    }
    if def.push_constant_bytes > MAX_PUSH_CONSTANT_BYTES {
        return false;
    }
    let n: usize = def.descriptor_set_binding_counts.len();
    let mut i: usize = 0;
    while i < n
        invariant
            n == def.descriptor_set_binding_counts.len(),
            i <= n,
            forall|k: int| 0 <= k < i ==> #[trigger] def.descriptor_set_binding_counts@[k] >= 1,
        decreases n - i,
    {
        if def.descriptor_set_binding_counts[i] == 0 {
            return false;
        }
        i = i + 1;
    }
    true
}

/// What a descriptor set array is created from.
#[derive(Clone, Copy, Debug, PartialEq, Eq, Structural)]
pub struct RafxDescriptorSetArrayDef {
    pub set_index: u32,
    pub array_length: u32,
}

/// A descriptor set array is valid when it names a bindable set and holds
/// at least one set.
pub open spec fn spec_descriptor_set_array_def_valid(def: RafxDescriptorSetArrayDef) -> bool {
    &&& def.set_index < MAX_DESCRIPTOR_SET_LAYOUTS
    &&& def.array_length >= 1
}

/// Executable mirror of `spec_descriptor_set_array_def_valid`.
pub fn descriptor_set_array_def_valid(def: &RafxDescriptorSetArrayDef) -> (r: bool)
    ensures
        r == spec_descriptor_set_array_def_valid(*def),
{
    def.set_index < MAX_DESCRIPTOR_SET_LAYOUTS && def.array_length >= 1
}

/// What a graphics pipeline is created from: its attachment formats,
/// multisampling and primitive assembly.
#[derive(Clone, Debug)]
pub struct RafxGraphicsPipelineDef {
    pub color_formats: Vec<RafxFormat>,
    /// `Undefined` means the pipeline renders without a depth attachment.
    pub depth_stencil_format: RafxFormat,
    pub sample_count: RafxSampleCount,
    pub primitive_topology: RafxPrimitiveTopology,
}

/// A graphics pipeline must render to something: at least one color or
/// depth attachment.
pub open spec fn spec_graphics_pipeline_has_attachments(def: RafxGraphicsPipelineDef) -> bool {
    def.color_formats.len() >= 1 || def.depth_stencil_format != RafxFormat::Undefined
}

/// Every color format of the pipeline is color-renderable and any depth
/// format is depth-capable on the backend.
pub open spec fn spec_graphics_pipeline_formats_ok(
    def: RafxGraphicsPipelineDef,
    backend: RafxBackend,
) -> bool {
    &&& forall|i: int|
        0 <= i < def.color_formats.len() ==> spec_format_color_renderable(
            backend,
            #[trigger] def.color_formats[i],
        )
    &&& def.depth_stencil_format != RafxFormat::Undefined ==> spec_format_depth_stencil(
        backend,
        def.depth_stencil_format,
    )
}

/// A graphics pipeline definition is valid on a backend when it has at
/// least one attachment, every attachment format is usable, and the sample
/// count is supported.
pub open spec fn spec_graphics_pipeline_def_valid(
    def: RafxGraphicsPipelineDef,
    backend: RafxBackend,
) -> bool {
    &&& spec_graphics_pipeline_has_attachments(def)
    &&& spec_graphics_pipeline_formats_ok(def, backend)
    &&& spec_sample_count_supported(backend, def.sample_count)
}

/// Executable mirror of `spec_graphics_pipeline_formats_ok`.
pub fn graphics_pipeline_formats_ok(def: &RafxGraphicsPipelineDef, backend: RafxBackend) -> (r:
    bool)
    ensures
        r == spec_graphics_pipeline_formats_ok(*def, backend),
{
    let n: usize = def.color_formats.len();
    let mut i: usize = 0;
    while i < n
        invariant
            n == def.color_formats.len(),
            i <= n,
            forall|k: int|
                0 <= k < i ==> spec_format_color_renderable(
                    backend,
                    #[trigger] def.color_formats@[k],
                ),
        decreases n - i,
    {
        let rt_color = RafxResourceType {
            render_target_color: true,
            render_target_depth_stencil: false,
            texture_read_write: false,
            uniform_buffer: false,
        };
        if !crate::caps::format_supported(backend, def.color_formats[i], rt_color) {
            return false;
        }
        i = i + 1;
    }
    if def.depth_stencil_format != RafxFormat::Undefined {
        let rt_depth = RafxResourceType {
            render_target_color: false,
            render_target_depth_stencil: true,
            texture_read_write: false,
            uniform_buffer: false,
        };
        if !crate::caps::format_supported(backend, def.depth_stencil_format, rt_depth) {
            return false;
        }
    }
    true
}

/// Executable mirror of `spec_graphics_pipeline_def_valid`.
pub fn graphics_pipeline_def_valid(def: &RafxGraphicsPipelineDef, backend: RafxBackend) -> (r:
    bool)
    ensures
        r == spec_graphics_pipeline_def_valid(*def, backend),
{
    let has_attachments = def.color_formats.len() >= 1 || def.depth_stencil_format
        != RafxFormat::Undefined;
    has_attachments && graphics_pipeline_formats_ok(def, backend)
        && crate::caps::sample_count_supported(backend, def.sample_count)
}

/// What a compute pipeline is created from.
#[derive(Clone, Copy, Debug, PartialEq, Eq, Structural)]
pub struct RafxComputePipelineDef {
    pub stage: RafxShaderStage,
}

/// A compute pipeline must be built from a compute stage.
pub open spec fn spec_compute_pipeline_def_valid(def: RafxComputePipelineDef) -> bool {
    def.stage == RafxShaderStage::Compute
}

} // verus!
