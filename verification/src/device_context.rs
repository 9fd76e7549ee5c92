//! Device contexts: the connection to an open device.
//!
//! Each backend has a context type whose clones share one reference-counted
//! inner record holding the device's capability info; the native device is
//! torn down when the last clone drops, so destruction is purely
//! ownership-driven and no call can ever reach a destroyed device. The
//! `RafxDeviceContext` facade wraps one backend context and dispatches every
//! operation to it; its backend tag is fixed at construction.

use vstd::prelude::*;
use std::sync::Arc;
use crate::caps::{
    default_device_info, format_supported, queue_type_supported, sample_count_supported,
    spec_default_device_info, spec_format_supported, spec_queue_type_supported,
    spec_sample_count_supported,
};
use crate::defs::{
    buffer_def_valid, descriptor_set_array_def_valid, root_signature_def_valid, sampler_def_valid,
    shader_module_def_valid, shader_stages_valid, spec_buffer_def_valid,
    spec_compute_pipeline_def_valid, spec_descriptor_set_array_def_valid,
    spec_graphics_pipeline_def_valid, spec_root_signature_def_valid, spec_sampler_def_valid,
    spec_shader_module_def_valid, spec_shader_stages_valid, spec_texture_def_valid, RafxBufferDef,
    RafxComputePipelineDef, RafxDescriptorSetArrayDef, RafxGraphicsPipelineDef,
    RafxRootSignatureDef, RafxSamplerDef, RafxShaderModuleDef, RafxShaderStageDef,
    RafxSwapchainDef, RafxTextureDef,
};
use crate::error::{RafxError, RafxResult};
use crate::resources::{
    RafxBuffer, RafxDescriptorSetArray, RafxPipeline, RafxPipelineType, RafxQueue,
    RafxRootSignature, RafxSampler, RafxShader, RafxShaderModule, RafxTexture,
};
use crate::swapchain::{
    RafxSwapchain, RafxSwapchainEmpty, RafxSwapchainGl, RafxSwapchainMetal, RafxSwapchainVulkan,
    SwapchainState,
};
use crate::sync::{FenceState, RafxFence, RafxFenceStatus, RafxSemaphore};
use crate::types::{
    spec_device_info_wf, RafxBackend, RafxDeviceInfo, RafxFormat, RafxQueueType, RafxResourceType,
    RafxSampleCount, RafxShaderStage,
};

verus! {

/// Relies on `std::sync::Arc::clone`: the returned handle points to the
/// same allocation, so it carries the same inner value and keeps it alive.
#[verifier::external_body]
fn clone_arc<T>(arc: &Arc<T>) -> (r: Arc<T>)
    ensures
        r == *arc,
{
    Arc::clone(arc)
}

/// The first candidate at or after position `i` that satisfies the
/// requested use on `backend`, in the caller's priority order.
pub open spec fn spec_find_format_from(
    backend: RafxBackend,
    candidates: Seq<RafxFormat>,
    resource_type: RafxResourceType,
    i: int,
) -> Option<RafxFormat>
    decreases candidates.len() - i,
{
    if i < 0 || i >= candidates.len() {
        None
    } else if spec_format_supported(backend, candidates[i], resource_type) {
        Some(candidates[i])
    } else {
        spec_find_format_from(backend, candidates, resource_type, i + 1)
    }
}

/// What `find_supported_format` negotiates: the first candidate satisfying
/// the requested use, or nothing. Absence is a negotiation result the
/// caller handles, never an error.
pub open spec fn spec_find_supported_format(
    backend: RafxBackend,
    candidates: Seq<RafxFormat>,
    resource_type: RafxResourceType,
) -> Option<RafxFormat> {
    spec_find_format_from(backend, candidates, resource_type, 0)
}

/// The negotiation result is order-sensitive and exact: a found format is
/// a supported candidate before which no candidate is supported, and an
/// empty result means no candidate is supported at all.
pub proof fn lemma_find_format_characterization(
    backend: RafxBackend,
    candidates: Seq<RafxFormat>,
    resource_type: RafxResourceType,
)
    ensures
        match spec_find_supported_format(backend, candidates, resource_type) {
            Some(f) => exists|k: int|
                #![auto]
                0 <= k < candidates.len() && candidates[k] == f && spec_format_supported(
                    backend,
                    f,
                    resource_type,
                ) && forall|j: int|
                    0 <= j < k ==> !spec_format_supported(
                        backend,
                        #[trigger] candidates[j],
                        resource_type,
                    ),
            None => forall|j: int|
                0 <= j < candidates.len() ==> !spec_format_supported(
                    backend,
                    #[trigger] candidates[j],
                    resource_type,
                ),
        },
{
    lemma_find_format_from_characterization(backend, candidates, resource_type, 0);
}

/// Induction step for `lemma_find_format_characterization`.
proof fn lemma_find_format_from_characterization(
    backend: RafxBackend,
    candidates: Seq<RafxFormat>,
    resource_type: RafxResourceType,
    i: int,
)
    requires
        0 <= i <= candidates.len(),
    ensures
        match spec_find_format_from(backend, candidates, resource_type, i) {
            Some(f) => exists|k: int|
                #![auto]
                i <= k < candidates.len() && candidates[k] == f && spec_format_supported(
                    backend,
                    f,
                    resource_type,
                ) && forall|j: int|
                    i <= j < k ==> !spec_format_supported(
                        backend,
                        #[trigger] candidates[j],
                        resource_type,
                    ),
            None => forall|j: int|
                i <= j < candidates.len() ==> !spec_format_supported(
                    backend,
                    #[trigger] candidates[j],
                    resource_type,
                ),
        },
    decreases candidates.len() - i,
{
    if i < candidates.len() {
        if !spec_format_supported(backend, candidates[i], resource_type) {
            lemma_find_format_from_characterization(backend, candidates, resource_type, i + 1);
        }
    }
}

/// The first candidate at or after position `i` that `backend` supports.
pub open spec fn spec_find_sample_count_from(
    backend: RafxBackend,
    candidates: Seq<RafxSampleCount>,
    i: int,
) -> Option<RafxSampleCount>
    decreases candidates.len() - i,
{
    if i < 0 || i >= candidates.len() {
        None
    } else if spec_sample_count_supported(backend, candidates[i]) {
        Some(candidates[i])
    } else {
        spec_find_sample_count_from(backend, candidates, i + 1)
    }
}

/// What `find_supported_sample_count` negotiates: the first supported
/// candidate, or nothing.
pub open spec fn spec_find_supported_sample_count(
    backend: RafxBackend,
    candidates: Seq<RafxSampleCount>,
) -> Option<RafxSampleCount> {
    spec_find_sample_count_from(backend, candidates, 0)
}

/// Negotiate a format: the first element of `candidates` whose
/// capabilities on `backend` satisfy `resource_type`, or `None` when no
/// candidate qualifies.
fn find_supported_format_impl(
    backend: RafxBackend,
    candidates: &[RafxFormat],
    resource_type: RafxResourceType,
) -> (r: Option<RafxFormat>)
    ensures
        r == spec_find_supported_format(backend, candidates@, resource_type),
{
    let n: usize = candidates.len();
    let mut i: usize = 0;
    while i < n
        invariant
            n == candidates@.len(),
            i <= n,
            spec_find_supported_format(backend, candidates@, resource_type)
                == spec_find_format_from(backend, candidates@, resource_type, i as int),
        decreases n - i,
    {
        if format_supported(backend, candidates[i], resource_type) {
            return Some(candidates[i]);
        }
        i = i + 1;
    }
    None
}

/// Negotiate an MSAA sample count: the first element of `candidates` that
/// `backend` supports, or `None` when no candidate qualifies.
fn find_supported_sample_count_impl(
    backend: RafxBackend,
    candidates: &[RafxSampleCount],
) -> (r: Option<RafxSampleCount>)
    ensures
        r == spec_find_supported_sample_count(backend, candidates@),
{
    let n: usize = candidates.len();
    let mut i: usize = 0;
    while i < n
        invariant
            n == candidates@.len(),
            i <= n,
            spec_find_supported_sample_count(backend, candidates@) == spec_find_sample_count_from(
                backend,
                candidates@,
                i as int,
            ),
        decreases n - i,
    {
        if sample_count_supported(backend, candidates[i]) {
            return Some(candidates[i]);
        }
        i = i + 1;
    }
    None
}

/// Whether every fence in the list belongs to `backend`.
pub open spec fn spec_fences_match_backend(fences: Seq<RafxFence>, backend: RafxBackend) -> bool {
    forall|i: int| 0 <= i < fences.len() ==> (#[trigger] fences[i]).spec_backend() == backend
}

/// Whether every fence in the list has an associated submission.
pub open spec fn spec_all_fences_submitted(fences: Seq<RafxFence>) -> bool {
    forall|i: int|
        0 <= i < fences.len() ==> (#[trigger] fences[i]).spec_state() != FenceState::Unsubmitted
}

/// Block until every fence's associated submission completes.
///
/// Waiting on a fence that was never submitted would never return, so it
/// is reported as `Timeout` and nothing changes. Otherwise the call
/// returns only once every fence is complete: on return each fence is in
/// the `Complete` state, with its backend tag untouched. No fence is
/// reset here; resetting happens at the next submission that names it.
fn wait_for_fences_impl(backend: RafxBackend, fences: &mut Vec<RafxFence>) -> (r: RafxResult<()>)
    requires
        spec_fences_match_backend(old(fences)@, backend),
    ensures
        final(fences)@.len() == old(fences)@.len(),
        r is Ok <==> spec_all_fences_submitted(old(fences)@),
        r is Ok ==> forall|i: int|
            0 <= i < final(fences)@.len() ==> (#[trigger] final(fences)@[i]).spec_backend() == old(fences)@[i].spec_backend() && final(fences)@[i].spec_state() == FenceState::Complete,
        r is Err ==> r == RafxResult::<()>::Err(RafxError::Timeout) && final(fences)@ == old(fences)@,
{
    let n: usize = fences.len();
    let mut i: usize = 0;
    while i < n
        invariant
            n == fences@.len(),
            i <= n,
            fences@ == old(fences)@,
            forall|j: int|
                0 <= j < i ==> (#[trigger] fences@[j]).spec_state() != FenceState::Unsubmitted,
        decreases n - i,
    {
        let status = fences[i].get_fence_status();
        if status == RafxFenceStatus::Unsubmitted {
            return Err(RafxError::Timeout);
        }
        i = i + 1;
    }
    let mut k: usize = 0;
    while k < n
        invariant
            n == fences@.len(),
            k <= n,
            forall|j: int|
                k <= j < n ==> #[trigger] fences@[j] == old(fences)@[j],
            forall|j: int|
                0 <= j < k ==> (#[trigger] fences@[j]).spec_backend() == old(fences)@[j].spec_backend() && fences@[j].spec_state() == FenceState::Complete,
        decreases n - k,
    {
        let mut f: RafxFence = fences[k];
        f.set_state(FenceState::Complete);
        fences.set(k, f);
        k = k + 1;
    }
    Ok(())
}

/// Create a queue, failing when the backend lacks a matching native queue
/// family.
fn create_queue_impl(backend: RafxBackend, queue_type: RafxQueueType) -> (r: RafxResult<RafxQueue>)
    ensures
        r is Ok <==> spec_queue_type_supported(backend, queue_type),
        r matches Ok(q) ==> q == (RafxQueue { backend, queue_type }),
        r is Err ==> r == RafxResult::<RafxQueue>::Err(RafxError::UnsupportedFeature),
{
    if queue_type_supported(backend, queue_type) {
        Ok(RafxQueue { backend, queue_type })
    } else {
        Err(RafxError::UnsupportedFeature)
    }
}

/// Create a sampler, failing when the definition asks for clamp-to-border
/// on a device without border colors.
fn create_sampler_impl(
    backend: RafxBackend,
    info: &RafxDeviceInfo,
    sampler_def: &RafxSamplerDef,
) -> (r: RafxResult<RafxSampler>)
    ensures
        r is Ok <==> spec_sampler_def_valid(*sampler_def, *info),
        r matches Ok(s) ==> s == (RafxSampler { backend, sampler_def: *sampler_def }),
        r is Err ==> r == RafxResult::<RafxSampler>::Err(RafxError::UnsupportedFeature),
{
    if sampler_def_valid(sampler_def, info) {
        Ok(RafxSampler { backend, sampler_def: *sampler_def })
    } else {
        Err(RafxError::UnsupportedFeature)
    }
}

/// Create a texture after validating the definition: structural faults are
/// `InvalidDefinition`, an unsupported sample count is
/// `UnsupportedFeature`, and a format unfit for the requested use is
/// `UnsupportedFormat`.
fn create_texture_impl(backend: RafxBackend, texture_def: &RafxTextureDef) -> (r: RafxResult<
    RafxTexture,
>)
    ensures
        r is Ok <==> spec_texture_def_valid(*texture_def, backend),
        r matches Ok(t) ==> t == (RafxTexture { backend, texture_def: *texture_def }),
        !crate::defs::spec_texture_def_structural(*texture_def) ==> r == RafxResult::<
            RafxTexture,
        >::Err(RafxError::InvalidDefinition),
        crate::defs::spec_texture_def_structural(*texture_def) && !spec_sample_count_supported(
            backend,
            texture_def.sample_count,
        ) ==> r == RafxResult::<RafxTexture>::Err(RafxError::UnsupportedFeature),
        crate::defs::spec_texture_def_structural(*texture_def) && spec_sample_count_supported(
            backend,
            texture_def.sample_count,
        ) && !spec_format_supported(backend, texture_def.format, texture_def.resource_type) ==> r
            == RafxResult::<RafxTexture>::Err(RafxError::UnsupportedFormat),
{
    if !crate::defs::texture_def_structural(texture_def) {
        Err(RafxError::InvalidDefinition)
    } else if !sample_count_supported(backend, texture_def.sample_count) {
        Err(RafxError::UnsupportedFeature)
    } else if !format_supported(backend, texture_def.format, texture_def.resource_type) {
        Err(RafxError::UnsupportedFormat)
    } else {
        Ok(RafxTexture { backend, texture_def: *texture_def })
    }
}

/// Create a buffer, failing on a malformed definition.
fn create_buffer_impl(
    backend: RafxBackend,
    info: &RafxDeviceInfo,
    buffer_def: &RafxBufferDef,
) -> (r: RafxResult<RafxBuffer>)
    ensures
        r is Ok <==> spec_buffer_def_valid(*buffer_def, *info),
        r matches Ok(b) ==> b == (RafxBuffer { backend, buffer_def: *buffer_def }),
        r is Err ==> r == RafxResult::<RafxBuffer>::Err(RafxError::InvalidDefinition),
{
    if buffer_def_valid(buffer_def, info) {
        Ok(RafxBuffer { backend, buffer_def: *buffer_def })
    } else {
        Err(RafxError::InvalidDefinition)
    }
}

/// Create a shader program from its stages, failing when the stage list is
/// empty, repeats a stage, or is neither a lone compute stage nor a
/// vertex-anchored graphics program.
fn create_shader_impl(backend: RafxBackend, stages: Vec<RafxShaderStageDef>) -> (r: RafxResult<
    RafxShader,
>)
    ensures
        r is Ok <==> spec_shader_stages_valid(stages@),
        r matches Ok(s) ==> s.backend == backend && s.stage_count == stages@.len(),
        r is Err ==> r == RafxResult::<RafxShader>::Err(RafxError::InvalidDefinition),
{
    if shader_stages_valid(&stages) {
        Ok(RafxShader { backend, stage_count: stages.len() })
    } else {
        Err(RafxError::InvalidDefinition)
    }
}

/// Create a shader module from a compiled artifact, failing when the
/// artifact is empty or, on Vulkan, not whole SPIR-V words.
fn create_shader_module_impl(backend: RafxBackend, def: RafxShaderModuleDef) -> (r: RafxResult<
    RafxShaderModule,
>)
    ensures
        r is Ok <==> spec_shader_module_def_valid(def, backend),
        r matches Ok(m) ==> m.backend == backend && m.bytecode_len == def.bytecode@.len(),
        r is Err ==> r == RafxResult::<RafxShaderModule>::Err(RafxError::InvalidDefinition),
{
    if shader_module_def_valid(&def, backend) {
        Ok(RafxShaderModule { backend, bytecode_len: def.bytecode.len() })
    } else {
        Err(RafxError::InvalidDefinition)
    }
}

/// Copy a list of binding counts.
fn copy_binding_counts(v: &Vec<u32>) -> (r: Vec<u32>)
    ensures
        r@ == v@,
{
    let n: usize = v.len();
    let mut r: Vec<u32> = Vec::new();
    let mut i: usize = 0;
    while i < n
        invariant
            n == v@.len(),
            i <= n,
            r@ == v@.subrange(0, i as int),
        decreases n - i,
    {
        r.push(v[i]);
        proof {
            assert(r@ =~= v@.subrange(0, i + 1));
        }
        i = i + 1;
    }
    proof {
        assert(r@ =~= v@);
    }
    r
}

/// Create a root signature, failing when the definition exceeds the common
/// binding limits.
fn create_root_signature_impl(backend: RafxBackend, def: &RafxRootSignatureDef) -> (r: RafxResult<
    RafxRootSignature,
>)
    ensures
        r is Ok <==> spec_root_signature_def_valid(*def),
        r matches Ok(s) ==> s.backend == backend && s.descriptor_set_binding_counts@
            == def.descriptor_set_binding_counts@,
        r is Err ==> r == RafxResult::<RafxRootSignature>::Err(RafxError::InvalidDefinition),
{
    if root_signature_def_valid(def) {
        Ok(
            RafxRootSignature {
                backend,
                descriptor_set_binding_counts: copy_binding_counts(
                    &def.descriptor_set_binding_counts,
                ),
            },
        )
    } else {
        Err(RafxError::InvalidDefinition)
    }
}

/// Create a descriptor set array, failing when the definition names an
/// out-of-range set or holds no sets.
fn create_descriptor_set_array_impl(
    backend: RafxBackend,
    def: &RafxDescriptorSetArrayDef,
) -> (r: RafxResult<RafxDescriptorSetArray>)
    ensures
        r is Ok <==> spec_descriptor_set_array_def_valid(*def),
        r matches Ok(a) ==> a == (RafxDescriptorSetArray {
            backend,
            descriptor_set_array_def: *def,
        }),
        r is Err ==> r == RafxResult::<RafxDescriptorSetArray>::Err(RafxError::InvalidDefinition),
{
    if descriptor_set_array_def_valid(def) {
        Ok(RafxDescriptorSetArray { backend, descriptor_set_array_def: *def })
    } else {
        Err(RafxError::InvalidDefinition)
    }
}

/// Create a graphics pipeline: no attachments is `InvalidDefinition`, an
/// unusable attachment format is `UnsupportedFormat`, and an unsupported
/// sample count is `UnsupportedFeature`.
fn create_graphics_pipeline_impl(backend: RafxBackend, def: &RafxGraphicsPipelineDef) -> (r:
    RafxResult<RafxPipeline>)
    ensures
        r is Ok <==> spec_graphics_pipeline_def_valid(*def, backend),
        r matches Ok(p) ==> p.backend == backend && p.pipeline_type == RafxPipelineType::Graphics,
        !crate::defs::spec_graphics_pipeline_has_attachments(*def) ==> r == RafxResult::<
            RafxPipeline,
        >::Err(RafxError::InvalidDefinition),
        crate::defs::spec_graphics_pipeline_has_attachments(*def)
            && !crate::defs::spec_graphics_pipeline_formats_ok(*def, backend) ==> r == RafxResult::<
            RafxPipeline,
        >::Err(RafxError::UnsupportedFormat),
        crate::defs::spec_graphics_pipeline_has_attachments(*def)
            && crate::defs::spec_graphics_pipeline_formats_ok(*def, backend)
            && !spec_sample_count_supported(backend, def.sample_count) ==> r == RafxResult::<
            RafxPipeline,
        >::Err(RafxError::UnsupportedFeature),
{
    let has_attachments = def.color_formats.len() >= 1 || def.depth_stencil_format
        != crate::types::RafxFormat::Undefined;
    if !has_attachments {
        Err(RafxError::InvalidDefinition)
    } else if !crate::defs::graphics_pipeline_formats_ok(def, backend) {
        Err(RafxError::UnsupportedFormat)
    } else if !sample_count_supported(backend, def.sample_count) {
        Err(RafxError::UnsupportedFeature)
    } else {
        Ok(RafxPipeline { backend, pipeline_type: RafxPipelineType::Graphics })
    }
}

/// Create a compute pipeline, failing when the stage is not a compute
/// stage.
fn create_compute_pipeline_impl(backend: RafxBackend, def: &RafxComputePipelineDef) -> (r:
    RafxResult<RafxPipeline>)
    ensures
        r is Ok <==> spec_compute_pipeline_def_valid(*def),
        r matches Ok(p) ==> p.backend == backend && p.pipeline_type == RafxPipelineType::Compute,
        r is Err ==> r == RafxResult::<RafxPipeline>::Err(RafxError::InvalidDefinition),
{
    if def.stage == RafxShaderStage::Compute {
        Ok(RafxPipeline { backend, pipeline_type: RafxPipelineType::Compute })
    } else {
        Err(RafxError::InvalidDefinition)
    }
}

/// The record shared by every clone of a Vulkan device context.
#[derive(Debug)]
pub struct RafxDeviceContextVulkanInner {
    pub device_info: RafxDeviceInfo,
}

/// The record shared by every clone of a Metal device context.
#[derive(Debug)]
pub struct RafxDeviceContextMetalInner {
    pub device_info: RafxDeviceInfo,
}

/// The record shared by every clone of a GL device context.
#[derive(Debug)]
pub struct RafxDeviceContextGlInner {
    pub device_info: RafxDeviceInfo,
}

/// The record shared by every clone of an Empty-backend device context.
#[derive(Debug)]
pub struct RafxDeviceContextEmptyInner {
    pub device_info: RafxDeviceInfo,
}

impl RafxDeviceContextGlInner {
    /// Open the GL device record. GL reports one pack-alignment value that
    /// governs every buffer and texture upload alignment, and the GLES2
    /// level offers no border color; the caller passes the probed value in.
    pub fn new(pack_alignment: u32) -> (r: RafxResult<Self>)
        ensures
            r is Ok <==> pack_alignment >= 1,
            r matches Ok(inner) ==> inner.device_info == (RafxDeviceInfo {
                min_uniform_buffer_offset_alignment: pack_alignment,
                min_storage_buffer_offset_alignment: pack_alignment,
                upload_buffer_texture_alignment: pack_alignment,
                upload_buffer_texture_row_alignment: pack_alignment,
                supports_clamp_to_border_color: false,
            }),
            r matches Ok(inner) ==> spec_device_info_wf(inner.device_info),
            r is Err ==> r == RafxResult::<Self>::Err(RafxError::DeviceLost),
    {
        if pack_alignment == 0 {
            return Err(RafxError::DeviceLost);
        }
        Ok(
            RafxDeviceContextGlInner {
                device_info: RafxDeviceInfo {
                    min_uniform_buffer_offset_alignment: pack_alignment,
                    min_storage_buffer_offset_alignment: pack_alignment,
                    upload_buffer_texture_alignment: pack_alignment,
                    upload_buffer_texture_row_alignment: pack_alignment,
                    supports_clamp_to_border_color: false,
                },
            },
        )
    }
}

/// A Vulkan device context; clones share one inner record.
#[derive(Debug)]
pub struct RafxDeviceContextVulkan {
    pub inner: Arc<RafxDeviceContextVulkanInner>,
}

/// A Metal device context; clones share one inner record.
#[derive(Debug)]
pub struct RafxDeviceContextMetal {
    pub inner: Arc<RafxDeviceContextMetalInner>,
}

/// A GL device context; clones share one inner record.
#[derive(Debug)]
pub struct RafxDeviceContextGl {
    pub inner: Arc<RafxDeviceContextGlInner>,
}

/// An Empty-backend device context; clones share one inner record.
#[derive(Debug)]
pub struct RafxDeviceContextEmpty {
    pub inner: Arc<RafxDeviceContextEmptyInner>,
}

impl RafxDeviceContextVulkan {
    /// Open a Vulkan device context with the documented default limits.
    pub fn new() -> (r: Self)
        ensures
            r.inner.device_info == spec_default_device_info(RafxBackend::Vulkan),
            spec_device_info_wf(r.inner.device_info),
    {
        RafxDeviceContextVulkan {
            inner: Arc::new(
                RafxDeviceContextVulkanInner {
                    device_info: default_device_info(RafxBackend::Vulkan),
                },
            ),
        }
    }

    /// The capability info shared by every clone of this context.
    pub fn device_info(&self) -> (r: &RafxDeviceInfo)
        ensures
            *r == self.inner.device_info,
    {
        &self.inner.device_info
    }
}

impl Clone for RafxDeviceContextVulkan {
    /// A clone shares the same inner record and keeps the device alive.
    fn clone(&self) -> (r: Self)
        ensures
            r.inner == self.inner,
    {
        RafxDeviceContextVulkan { inner: clone_arc(&self.inner) }
    }
}

impl RafxDeviceContextMetal {
    /// Open a Metal device context with the documented default limits.
    pub fn new() -> (r: Self)
        ensures
            r.inner.device_info == spec_default_device_info(RafxBackend::Metal),
            spec_device_info_wf(r.inner.device_info),
    {
        RafxDeviceContextMetal {
            inner: Arc::new(
                RafxDeviceContextMetalInner {
                    device_info: default_device_info(RafxBackend::Metal),
                },
            ),
        }
    }

    /// The capability info shared by every clone of this context.
    pub fn device_info(&self) -> (r: &RafxDeviceInfo)
        ensures
            *r == self.inner.device_info,
    {
        &self.inner.device_info
    }
}

impl Clone for RafxDeviceContextMetal {
    /// A clone shares the same inner record and keeps the device alive.
    fn clone(&self) -> (r: Self)
        ensures
            r.inner == self.inner,
    {
        RafxDeviceContextMetal { inner: clone_arc(&self.inner) }
    }
}

impl RafxDeviceContextGl {
    /// Wrap an opened GL device record in a context handle.
    pub fn new(inner: Arc<RafxDeviceContextGlInner>) -> (r: RafxResult<Self>)
        ensures
            r matches Ok(c) && c.inner == inner,
    {
        Ok(RafxDeviceContextGl { inner })
    }

    /// The capability info shared by every clone of this context.
    pub fn device_info(&self) -> (r: &RafxDeviceInfo)
        ensures
            *r == self.inner.device_info,
    {
        &self.inner.device_info
    }
}

impl Clone for RafxDeviceContextGl {
    /// A clone shares the same inner record and keeps the device alive.
    fn clone(&self) -> (r: Self)
        ensures
            r.inner == self.inner,
    {
        RafxDeviceContextGl { inner: clone_arc(&self.inner) }
    }
}

impl RafxDeviceContextGl {
    /// Create a queue (see the facade's `create_queue`).
    pub fn create_queue(&self, queue_type: RafxQueueType) -> (r: RafxResult<RafxQueue>)
        ensures
            r is Ok <==> spec_queue_type_supported(RafxBackend::Gl, queue_type),
            r matches Ok(q) ==> q == (RafxQueue { backend: RafxBackend::Gl, queue_type }),
            r is Err ==> r == RafxResult::<RafxQueue>::Err(RafxError::UnsupportedFeature),
    {
        create_queue_impl(RafxBackend::Gl, queue_type)
    }

    /// Allocate a fence; it starts unsubmitted.
    pub fn create_fence(&self) -> (r: RafxResult<RafxFence>)
        ensures
            r matches Ok(f) && f.spec_backend() == RafxBackend::Gl && f.spec_state()
                == FenceState::Unsubmitted,
    {
        Ok(RafxFence::new(RafxBackend::Gl))
    }

    /// Allocate a semaphore; it starts unsignaled.
    pub fn create_semaphore(&self) -> (r: RafxResult<RafxSemaphore>)
        ensures
            r matches Ok(s) && s.spec_backend() == RafxBackend::Gl && !s.spec_signaled(),
    {
        Ok(RafxSemaphore::new(RafxBackend::Gl))
    }

    /// Create a GL swapchain (see the facade's `create_swapchain`). The
    /// caller connects the surface to its window; this crate does not open
    /// or own windows.
    pub fn create_swapchain(&self, swapchain_def: &RafxSwapchainDef) -> (r: RafxResult<
        RafxSwapchainGl,
    >)
        ensures
            r is Ok <==> crate::swapchain::spec_can_build_swapchain(
                RafxBackend::Gl,
                *swapchain_def,
            ),
            r matches Ok(sc) ==> sc.swapchain == SwapchainState::spec_built(
                RafxBackend::Gl,
                *swapchain_def,
            ) && sc.swapchain.wf(),
            r matches Err(e) ==> e == crate::swapchain::spec_swapchain_build_error(
                RafxBackend::Gl,
                *swapchain_def,
            ),
    {
        match SwapchainState::build(RafxBackend::Gl, swapchain_def) {
            Ok(s) => Ok(RafxSwapchainGl { swapchain: s }),
            Err(e) => Err(e),
        }
    }

    /// Block until the given fences complete (see the facade's
    /// `wait_for_fences`).
    pub fn wait_for_fences(&self, fences: &mut Vec<RafxFence>) -> (r: RafxResult<()>)
        requires
            spec_fences_match_backend(old(fences)@, RafxBackend::Gl),
        ensures
            final(fences)@.len() == old(fences)@.len(),
            r is Ok <==> spec_all_fences_submitted(old(fences)@),
            r is Ok ==> forall|i: int|
                0 <= i < final(fences)@.len() ==> (#[trigger] final(fences)@[i]).spec_backend() == old(fences)@[i].spec_backend() && final(fences)@[i].spec_state() == FenceState::Complete,
            r is Err ==> r == RafxResult::<()>::Err(RafxError::Timeout) && final(fences)@ == old(fences)@,
    {
        wait_for_fences_impl(RafxBackend::Gl, fences)
    }

    /// Create a sampler (see the facade's `create_sampler`).
    pub fn create_sampler(&self, sampler_def: &RafxSamplerDef) -> (r: RafxResult<RafxSampler>)
        ensures
            r is Ok <==> spec_sampler_def_valid(*sampler_def, self.inner.device_info),
            r matches Ok(s) ==> s == (RafxSampler {
                backend: RafxBackend::Gl,
                sampler_def: *sampler_def,
            }),
            r is Err ==> r == RafxResult::<RafxSampler>::Err(RafxError::UnsupportedFeature),
    {
        create_sampler_impl(RafxBackend::Gl, self.device_info(), sampler_def)
    }

    /// Create a texture (see the facade's `create_texture`).
    pub fn create_texture(&self, texture_def: &RafxTextureDef) -> (r: RafxResult<RafxTexture>)
        ensures
            r is Ok <==> spec_texture_def_valid(*texture_def, RafxBackend::Gl),
            r matches Ok(t) ==> t == (RafxTexture {
                backend: RafxBackend::Gl,
                texture_def: *texture_def,
            }),
            !crate::defs::spec_texture_def_structural(*texture_def) ==> r == RafxResult::<
                RafxTexture,
            >::Err(RafxError::InvalidDefinition),
            crate::defs::spec_texture_def_structural(*texture_def) && !spec_sample_count_supported(
                RafxBackend::Gl,
                texture_def.sample_count,
            ) ==> r == RafxResult::<RafxTexture>::Err(RafxError::UnsupportedFeature),
            crate::defs::spec_texture_def_structural(*texture_def) && spec_sample_count_supported(
                RafxBackend::Gl,
                texture_def.sample_count,
            ) && !spec_format_supported(
                RafxBackend::Gl,
                texture_def.format,
                texture_def.resource_type,
            ) ==> r == RafxResult::<RafxTexture>::Err(RafxError::UnsupportedFormat),
    {
        create_texture_impl(RafxBackend::Gl, texture_def)
    }

    /// Create a buffer (see the facade's `create_buffer`).
    pub fn create_buffer(&self, buffer_def: &RafxBufferDef) -> (r: RafxResult<RafxBuffer>)
        ensures
            r is Ok <==> spec_buffer_def_valid(*buffer_def, self.inner.device_info),
            r matches Ok(b) ==> b == (RafxBuffer {
                backend: RafxBackend::Gl,
                buffer_def: *buffer_def,
            }),
            r is Err ==> r == RafxResult::<RafxBuffer>::Err(RafxError::InvalidDefinition),
    {
        create_buffer_impl(RafxBackend::Gl, self.device_info(), buffer_def)
    }

    /// Create a shader program (see the facade's `create_shader`).
    pub fn create_shader(&self, stages: Vec<RafxShaderStageDef>) -> (r: RafxResult<RafxShader>)
        ensures
            r is Ok <==> spec_shader_stages_valid(stages@),
            r matches Ok(s) ==> s.backend == RafxBackend::Gl && s.stage_count == stages@.len(),
            r is Err ==> r == RafxResult::<RafxShader>::Err(RafxError::InvalidDefinition),
    {
        create_shader_impl(RafxBackend::Gl, stages)
    }

    /// Create a root signature (see the facade's `create_root_signature`).
    pub fn create_root_signature(&self, root_signature_def: &RafxRootSignatureDef) -> (r:
        RafxResult<RafxRootSignature>)
        ensures
            r is Ok <==> spec_root_signature_def_valid(*root_signature_def),
            r matches Ok(s) ==> s.backend == RafxBackend::Gl && s.descriptor_set_binding_counts@
                == root_signature_def.descriptor_set_binding_counts@,
            r is Err ==> r == RafxResult::<RafxRootSignature>::Err(RafxError::InvalidDefinition),
    {
        create_root_signature_impl(RafxBackend::Gl, root_signature_def)
    }

    /// Create a descriptor set array (see the facade's
    /// `create_descriptor_set_array`).
    pub fn create_descriptor_set_array(&self, descriptor_set_array_def: &RafxDescriptorSetArrayDef)
        -> (r: RafxResult<RafxDescriptorSetArray>)
        ensures
            r is Ok <==> spec_descriptor_set_array_def_valid(*descriptor_set_array_def),
            r matches Ok(a) ==> a == (RafxDescriptorSetArray {
                backend: RafxBackend::Gl,
                descriptor_set_array_def: *descriptor_set_array_def,
            }),
            r is Err ==> r == RafxResult::<RafxDescriptorSetArray>::Err(
                RafxError::InvalidDefinition,
            ),
    {
        create_descriptor_set_array_impl(RafxBackend::Gl, descriptor_set_array_def)
    }

    /// Create a graphics pipeline (see the facade's
    /// `create_graphics_pipeline`).
    pub fn create_graphics_pipeline(&self, graphics_pipeline_def: &RafxGraphicsPipelineDef) -> (r:
        RafxResult<RafxPipeline>)
        ensures
            r is Ok <==> spec_graphics_pipeline_def_valid(*graphics_pipeline_def, RafxBackend::Gl),
            r matches Ok(p) ==> p.backend == RafxBackend::Gl && p.pipeline_type
                == RafxPipelineType::Graphics,
            !crate::defs::spec_graphics_pipeline_has_attachments(*graphics_pipeline_def) ==> r
                == RafxResult::<RafxPipeline>::Err(RafxError::InvalidDefinition),
            crate::defs::spec_graphics_pipeline_has_attachments(*graphics_pipeline_def)
                && !crate::defs::spec_graphics_pipeline_formats_ok(
                *graphics_pipeline_def,
                RafxBackend::Gl,
            ) ==> r == RafxResult::<RafxPipeline>::Err(RafxError::UnsupportedFormat),
            crate::defs::spec_graphics_pipeline_has_attachments(*graphics_pipeline_def)
                && crate::defs::spec_graphics_pipeline_formats_ok(
                *graphics_pipeline_def,
                RafxBackend::Gl,
            ) && !spec_sample_count_supported(
                RafxBackend::Gl,
                graphics_pipeline_def.sample_count,
            ) ==> r == RafxResult::<RafxPipeline>::Err(RafxError::UnsupportedFeature),
    {
        create_graphics_pipeline_impl(RafxBackend::Gl, graphics_pipeline_def)
    }

    /// Create a compute pipeline (see the facade's
    /// `create_compute_pipeline`). The GL backend exposes no compute
    /// queue, so its pipelines are still validated but can only be bound
    /// where a compute-capable context exists.
    pub fn create_compute_pipeline(&self, compute_pipeline_def: &RafxComputePipelineDef) -> (r:
        RafxResult<RafxPipeline>)
        ensures
            r is Ok <==> spec_compute_pipeline_def_valid(*compute_pipeline_def),
            r matches Ok(p) ==> p.backend == RafxBackend::Gl && p.pipeline_type
                == RafxPipelineType::Compute,
            r is Err ==> r == RafxResult::<RafxPipeline>::Err(RafxError::InvalidDefinition),
    {
        create_compute_pipeline_impl(RafxBackend::Gl, compute_pipeline_def)
    }

    /// Create a shader module (see the facade's `create_shader_module`).
    pub fn create_shader_module(&self, data: RafxShaderModuleDef) -> (r: RafxResult<
        RafxShaderModule,
    >)
        ensures
            r is Ok <==> spec_shader_module_def_valid(data, RafxBackend::Gl),
            r matches Ok(m) ==> m.backend == RafxBackend::Gl && m.bytecode_len
                == data.bytecode@.len(),
            r is Err ==> r == RafxResult::<RafxShaderModule>::Err(RafxError::InvalidDefinition),
    {
        create_shader_module_impl(RafxBackend::Gl, data)
    }

    /// Negotiate a format (see the facade's `find_supported_format`).
    pub fn find_supported_format(
        &self,
        candidates: &[RafxFormat],
        resource_type: RafxResourceType,
    ) -> (r: Option<RafxFormat>)
        ensures
            r == spec_find_supported_format(RafxBackend::Gl, candidates@, resource_type),
    {
        find_supported_format_impl(RafxBackend::Gl, candidates, resource_type)
    }

    /// Negotiate a sample count (see the facade's
    /// `find_supported_sample_count`).
    pub fn find_supported_sample_count(&self, candidates: &[RafxSampleCount]) -> (r: Option<
        RafxSampleCount,
    >)
        ensures
            r == spec_find_supported_sample_count(RafxBackend::Gl, candidates@),
    {
        find_supported_sample_count_impl(RafxBackend::Gl, candidates)
    }
}

impl RafxDeviceContextEmpty {
    /// Open an Empty-backend device context: a no-op device for headless
    /// runs and tests.
    pub fn new() -> (r: Self)
        ensures
            r.inner.device_info == spec_default_device_info(RafxBackend::Empty),
            spec_device_info_wf(r.inner.device_info),
    {
        RafxDeviceContextEmpty {
            inner: Arc::new(
                RafxDeviceContextEmptyInner {
                    device_info: default_device_info(RafxBackend::Empty),
                },
            ),
        }
    }

    /// The capability info shared by every clone of this context.
    pub fn device_info(&self) -> (r: &RafxDeviceInfo)
        ensures
            *r == self.inner.device_info,
    {
        &self.inner.device_info
    }
}

impl Clone for RafxDeviceContextEmpty {
    /// A clone shares the same inner record and keeps the device alive.
    fn clone(&self) -> (r: Self)
        ensures
            r.inner == self.inner,
    {
        RafxDeviceContextEmpty { inner: clone_arc(&self.inner) }
    }
}

/// The device context facade: one variant per backend, chosen once at
/// construction and immutable for the context's lifetime. Every operation
/// forwards to the active backend.
#[derive(Debug)]
pub enum RafxDeviceContext {
    Vk(RafxDeviceContextVulkan),
    Metal(RafxDeviceContextMetal),
    Gl(RafxDeviceContextGl),
    Empty(RafxDeviceContextEmpty),
}

impl RafxDeviceContext {
    /// The backend this context was constructed for.
    pub open spec fn spec_backend(self) -> RafxBackend {
        match self {
            RafxDeviceContext::Vk(_) => RafxBackend::Vulkan,
            RafxDeviceContext::Metal(_) => RafxBackend::Metal,
            RafxDeviceContext::Gl(_) => RafxBackend::Gl,
            RafxDeviceContext::Empty(_) => RafxBackend::Empty,
        }
    }

    /// The capability info of the wrapped context.
    pub open spec fn spec_device_info(self) -> RafxDeviceInfo {
        match self {
            RafxDeviceContext::Vk(c) => c.inner.device_info,
            RafxDeviceContext::Metal(c) => c.inner.device_info,
            RafxDeviceContext::Gl(c) => c.inner.device_info,
            RafxDeviceContext::Empty(c) => c.inner.device_info,
        }
    }

    /// Executable mirror of `spec_backend`.
    pub fn backend(&self) -> (r: RafxBackend)
        ensures
            r == self.spec_backend(),
    {
        match self {
            RafxDeviceContext::Vk(_) => RafxBackend::Vulkan,
            RafxDeviceContext::Metal(_) => RafxBackend::Metal,
            RafxDeviceContext::Gl(_) => RafxBackend::Gl,
            RafxDeviceContext::Empty(_) => RafxBackend::Empty,
        }
    }

    /// The capability info shared by every clone of this context.
    pub fn device_info(&self) -> (r: &RafxDeviceInfo)
        ensures
            *r == self.spec_device_info(),
    {
        match self {
            RafxDeviceContext::Vk(c) => c.device_info(),
            RafxDeviceContext::Metal(c) => c.device_info(),
            RafxDeviceContext::Gl(c) => c.device_info(),
            RafxDeviceContext::Empty(c) => c.device_info(),
        }
    }

    /// Create a queue of the requested family; fails with
    /// `UnsupportedFeature` exactly when this backend lacks a matching
    /// native queue family.
    pub fn create_queue(&self, queue_type: RafxQueueType) -> (r: RafxResult<RafxQueue>)
        ensures
            r is Ok <==> spec_queue_type_supported(self.spec_backend(), queue_type),
            r matches Ok(q) ==> q == (RafxQueue { backend: self.spec_backend(), queue_type }),
            r is Err ==> r == RafxResult::<RafxQueue>::Err(RafxError::UnsupportedFeature),
    {
        create_queue_impl(self.backend(), queue_type)
    }

    /// Allocate a fence; it starts unsubmitted.
    pub fn create_fence(&self) -> (r: RafxResult<RafxFence>)
        ensures
            r matches Ok(f) && f.spec_backend() == self.spec_backend() && f.spec_state()
                == FenceState::Unsubmitted,
    {
        Ok(RafxFence::new(self.backend()))
    }

    /// Allocate a semaphore; it starts unsignaled.
    pub fn create_semaphore(&self) -> (r: RafxResult<RafxSemaphore>)
        ensures
            r matches Ok(s) && s.spec_backend() == self.spec_backend() && !s.spec_signaled(),
    {
        Ok(RafxSemaphore::new(self.backend()))
    }

    /// Create a swapchain for this backend from `swapchain_def`. The
    /// negotiated image count always lies in the caller's requested range
    /// (and within the backend's own bounds), and it stays fixed until
    /// `rebuild`. The caller connects the surface to its window; this
    /// crate does not open or own windows.
    pub fn create_swapchain(&self, swapchain_def: &RafxSwapchainDef) -> (r: RafxResult<
        RafxSwapchain,
    >)
        ensures
            r is Ok <==> crate::swapchain::spec_can_build_swapchain(
                self.spec_backend(),
                *swapchain_def,
            ),
            r matches Ok(sc) ==> sc.wf() && sc.spec_backend() == self.spec_backend()
                && sc.spec_state() == SwapchainState::spec_built(
                self.spec_backend(),
                *swapchain_def,
            ),
            r matches Ok(sc) ==> swapchain_def.min_image_count <= sc.spec_state().image_count
                <= swapchain_def.max_image_count,
            r matches Err(e) ==> e == crate::swapchain::spec_swapchain_build_error(
                self.spec_backend(),
                *swapchain_def,
            ),
    {
        proof {
            if crate::swapchain::spec_can_build_swapchain(self.spec_backend(), *swapchain_def) {
                SwapchainState::lemma_negotiated_image_count_in_bounds(
                    self.spec_backend(),
                    *swapchain_def,
                );
            }
        }
        match self {
            RafxDeviceContext::Vk(_) => {
                match SwapchainState::build(RafxBackend::Vulkan, swapchain_def) {
                    Ok(s) => Ok(RafxSwapchain::Vk(RafxSwapchainVulkan { swapchain: s })),
                    Err(e) => Err(e),
                }
            },
            RafxDeviceContext::Metal(_) => {
                match SwapchainState::build(RafxBackend::Metal, swapchain_def) {
                    Ok(s) => Ok(RafxSwapchain::Metal(RafxSwapchainMetal { swapchain: s })),
                    Err(e) => Err(e),
                }
            },
            RafxDeviceContext::Gl(_) => {
                match SwapchainState::build(RafxBackend::Gl, swapchain_def) {
                    Ok(s) => Ok(RafxSwapchain::Gl(RafxSwapchainGl { swapchain: s })),
                    Err(e) => Err(e),
                }
            },
            RafxDeviceContext::Empty(_) => {
                match SwapchainState::build(RafxBackend::Empty, swapchain_def) {
                    Ok(s) => Ok(RafxSwapchain::Empty(RafxSwapchainEmpty { swapchain: s })),
                    Err(e) => Err(e),
                }
            },
        }
    }

    /// Block the calling thread until every given fence's submission
    /// completes. Waiting on a never-submitted fence reports `Timeout` and
    /// changes nothing; otherwise every fence is complete on return. No
    /// fence is reset here; resetting happens at the next submission.
    pub fn wait_for_fences(&self, fences: &mut Vec<RafxFence>) -> (r: RafxResult<()>)
        requires
            spec_fences_match_backend(old(fences)@, self.spec_backend()),
        ensures
            final(fences)@.len() == old(fences)@.len(),
            r is Ok <==> spec_all_fences_submitted(old(fences)@),
            r is Ok ==> forall|i: int|
                0 <= i < final(fences)@.len() ==> (#[trigger] final(fences)@[i]).spec_backend() == old(fences)@[i].spec_backend() && final(fences)@[i].spec_state() == FenceState::Complete,
            r is Err ==> r == RafxResult::<()>::Err(RafxError::Timeout) && final(fences)@ == old(fences)@,
    {
        wait_for_fences_impl(self.backend(), fences)
    }

    /// Create a sampler; fails with `UnsupportedFeature` exactly when the
    /// definition asks for clamp-to-border on a device without border
    /// colors.
    pub fn create_sampler(&self, sampler_def: &RafxSamplerDef) -> (r: RafxResult<RafxSampler>)
        ensures
            r is Ok <==> spec_sampler_def_valid(*sampler_def, self.spec_device_info()),
            r matches Ok(s) ==> s == (RafxSampler {
                backend: self.spec_backend(),
                sampler_def: *sampler_def,
            }),
            r is Err ==> r == RafxResult::<RafxSampler>::Err(RafxError::UnsupportedFeature),
    {
        create_sampler_impl(self.backend(), self.device_info(), sampler_def)
    }

    /// Create a texture: a structurally malformed definition is
    /// `InvalidDefinition`, an unsupported sample count is
    /// `UnsupportedFeature`, and a format unfit for the requested use is
    /// `UnsupportedFormat`.
    pub fn create_texture(&self, texture_def: &RafxTextureDef) -> (r: RafxResult<RafxTexture>)
        ensures
            r is Ok <==> spec_texture_def_valid(*texture_def, self.spec_backend()),
            r matches Ok(t) ==> t == (RafxTexture {
                backend: self.spec_backend(),
                texture_def: *texture_def,
            }),
            !crate::defs::spec_texture_def_structural(*texture_def) ==> r == RafxResult::<
                RafxTexture,
            >::Err(RafxError::InvalidDefinition),
            crate::defs::spec_texture_def_structural(*texture_def) && !spec_sample_count_supported(
                self.spec_backend(),
                texture_def.sample_count,
            ) ==> r == RafxResult::<RafxTexture>::Err(RafxError::UnsupportedFeature),
            crate::defs::spec_texture_def_structural(*texture_def) && spec_sample_count_supported(
                self.spec_backend(),
                texture_def.sample_count,
            ) && !spec_format_supported(
                self.spec_backend(),
                texture_def.format,
                texture_def.resource_type,
            ) ==> r == RafxResult::<RafxTexture>::Err(RafxError::UnsupportedFormat),
    {
        create_texture_impl(self.backend(), texture_def)
    }

    /// Create a buffer; fails with `InvalidDefinition` exactly when the
    /// definition is empty, misaligned, or breaks the device's uniform
    /// buffer alignment.
    pub fn create_buffer(&self, buffer_def: &RafxBufferDef) -> (r: RafxResult<RafxBuffer>)
        ensures
            r is Ok <==> spec_buffer_def_valid(*buffer_def, self.spec_device_info()),
            r matches Ok(b) ==> b == (RafxBuffer {
                backend: self.spec_backend(),
                buffer_def: *buffer_def,
            }),
            r is Err ==> r == RafxResult::<RafxBuffer>::Err(RafxError::InvalidDefinition),
    {
        create_buffer_impl(self.backend(), self.device_info(), buffer_def)
    }

    /// Create a shader program from its stages; fails with
    /// `InvalidDefinition` exactly when the stage list is empty, repeats a
    /// stage, or is neither a lone compute stage nor a vertex-anchored
    /// graphics program.
    pub fn create_shader(&self, stages: Vec<RafxShaderStageDef>) -> (r: RafxResult<RafxShader>)
        ensures
            r is Ok <==> spec_shader_stages_valid(stages@),
            r matches Ok(s) ==> s.backend == self.spec_backend() && s.stage_count == stages@.len(),
            r is Err ==> r == RafxResult::<RafxShader>::Err(RafxError::InvalidDefinition),
    {
        create_shader_impl(self.backend(), stages)
    }

    /// Create a root signature; fails with `InvalidDefinition` exactly
    /// when the definition exceeds the common binding limits.
    pub fn create_root_signature(&self, root_signature_def: &RafxRootSignatureDef) -> (r:
        RafxResult<RafxRootSignature>)
        ensures
            r is Ok <==> spec_root_signature_def_valid(*root_signature_def),
            r matches Ok(s) ==> s.backend == self.spec_backend()
                && s.descriptor_set_binding_counts@
                == root_signature_def.descriptor_set_binding_counts@,
            r is Err ==> r == RafxResult::<RafxRootSignature>::Err(RafxError::InvalidDefinition),
    {
        create_root_signature_impl(self.backend(), root_signature_def)
    }

    /// Create a descriptor set array; fails with `InvalidDefinition`
    /// exactly when the definition names an out-of-range set or holds no
    /// sets.
    pub fn create_descriptor_set_array(&self, descriptor_set_array_def: &RafxDescriptorSetArrayDef)
        -> (r: RafxResult<RafxDescriptorSetArray>)
        ensures
            r is Ok <==> spec_descriptor_set_array_def_valid(*descriptor_set_array_def),
            r matches Ok(a) ==> a == (RafxDescriptorSetArray {
                backend: self.spec_backend(),
                descriptor_set_array_def: *descriptor_set_array_def,
            }),
            r is Err ==> r == RafxResult::<RafxDescriptorSetArray>::Err(
                RafxError::InvalidDefinition,
            ),
    {
        create_descriptor_set_array_impl(self.backend(), descriptor_set_array_def)
    }

    /// Create a graphics pipeline: no attachments is `InvalidDefinition`,
    /// an unusable attachment format is `UnsupportedFormat`, and an
    /// unsupported sample count is `UnsupportedFeature`.
    pub fn create_graphics_pipeline(&self, graphics_pipeline_def: &RafxGraphicsPipelineDef) -> (r:
        RafxResult<RafxPipeline>)
        ensures
            r is Ok <==> spec_graphics_pipeline_def_valid(
                *graphics_pipeline_def,
                self.spec_backend(),
            ),
            r matches Ok(p) ==> p.backend == self.spec_backend() && p.pipeline_type
                == RafxPipelineType::Graphics,
            !crate::defs::spec_graphics_pipeline_has_attachments(*graphics_pipeline_def) ==> r
                == RafxResult::<RafxPipeline>::Err(RafxError::InvalidDefinition),
            crate::defs::spec_graphics_pipeline_has_attachments(*graphics_pipeline_def)
                && !crate::defs::spec_graphics_pipeline_formats_ok(
                *graphics_pipeline_def,
                self.spec_backend(),
            ) ==> r == RafxResult::<RafxPipeline>::Err(RafxError::UnsupportedFormat),
            crate::defs::spec_graphics_pipeline_has_attachments(*graphics_pipeline_def)
                && crate::defs::spec_graphics_pipeline_formats_ok(
                *graphics_pipeline_def,
                self.spec_backend(),
            ) && !spec_sample_count_supported(self.spec_backend(), graphics_pipeline_def.sample_count)
                ==> r == RafxResult::<RafxPipeline>::Err(RafxError::UnsupportedFeature),
    {
        create_graphics_pipeline_impl(self.backend(), graphics_pipeline_def)
    }

    /// Create a compute pipeline; fails with `InvalidDefinition` exactly
    /// when the stage is not a compute stage.
    pub fn create_compute_pipeline(&self, compute_pipeline_def: &RafxComputePipelineDef) -> (r:
        RafxResult<RafxPipeline>)
        ensures
            r is Ok <==> spec_compute_pipeline_def_valid(*compute_pipeline_def),
            r matches Ok(p) ==> p.backend == self.spec_backend() && p.pipeline_type
                == RafxPipelineType::Compute,
            r is Err ==> r == RafxResult::<RafxPipeline>::Err(RafxError::InvalidDefinition),
    {
        create_compute_pipeline_impl(self.backend(), compute_pipeline_def)
    }

    /// Create a shader module; fails with `InvalidDefinition` exactly when
    /// the artifact is empty or, on Vulkan, not whole SPIR-V words.
    pub fn create_shader_module(&self, data: RafxShaderModuleDef) -> (r: RafxResult<
        RafxShaderModule,
    >)
        ensures
            r is Ok <==> spec_shader_module_def_valid(data, self.spec_backend()),
            r matches Ok(m) ==> m.backend == self.spec_backend() && m.bytecode_len
                == data.bytecode@.len(),
            r is Err ==> r == RafxResult::<RafxShaderModule>::Err(RafxError::InvalidDefinition),
    {
        create_shader_module_impl(self.backend(), data)
    }

    /// Returns the first candidate, in the caller's priority order, whose
    /// capabilities satisfy the requested usage; `None` when no candidate
    /// qualifies. Absence is a negotiation result, never an error.
    pub fn find_supported_format(
        &self,
        candidates: &[RafxFormat],
        resource_type: RafxResourceType,
    ) -> (r: Option<RafxFormat>)
        ensures
            r == spec_find_supported_format(self.spec_backend(), candidates@, resource_type),
    {
        find_supported_format_impl(self.backend(), candidates, resource_type)
    }

    /// Returns the first candidate sample count this backend supports;
    /// `None` when no candidate qualifies.
    pub fn find_supported_sample_count(&self, candidates: &[RafxSampleCount]) -> (r: Option<
        RafxSampleCount,
    >)
        ensures
            r == spec_find_supported_sample_count(self.spec_backend(), candidates@),
    {
        find_supported_sample_count_impl(self.backend(), candidates)
    }
}

impl Clone for RafxDeviceContext {
    /// A clone shares the wrapped context's inner record: same backend,
    /// same device info, same liveness.
    fn clone(&self) -> (r: Self)
        ensures
            r.spec_backend() == self.spec_backend(),
            r.spec_device_info() == self.spec_device_info(),
    {
        match self {
            RafxDeviceContext::Vk(c) => RafxDeviceContext::Vk(c.clone()),
            RafxDeviceContext::Metal(c) => RafxDeviceContext::Metal(c.clone()),
            RafxDeviceContext::Gl(c) => RafxDeviceContext::Gl(c.clone()),
            RafxDeviceContext::Empty(c) => RafxDeviceContext::Empty(c.clone()),
        }
    }
}

} // verus!
