//! Resource objects handed out by a device context.
//!
//! Every resource is exclusively owned by its caller and carries the
//! definition it was created from together with its backend tag; native
//! state is torn down when the owner drops the value. Sharing a resource
//! across threads requires moving it; concurrent native calls on one
//! object without external synchronization are a caller obligation, not
//! something these types lock against.

use vstd::prelude::*;
use crate::defs::{RafxBufferDef, RafxDescriptorSetArrayDef, RafxSamplerDef, RafxTextureDef};
use crate::error::{RafxError, RafxResult};
use crate::sync::{FenceState, RafxFence};
use crate::types::{RafxBackend, RafxQueueType};

verus! {

/// A command queue of one backend.
#[derive(Clone, Copy, Debug, PartialEq, Eq, Structural)]
pub struct RafxQueue {
    pub backend: RafxBackend,
    pub queue_type: RafxQueueType,
}

impl RafxQueue {
    /// The queue family this queue was created for.
    pub fn queue_type(&self) -> (r: RafxQueueType)
        ensures
            r == self.queue_type,
    {
        self.queue_type
    }

    /// Submit recorded work to this queue. The fence is reset and attached
    /// to the submission; it completes only after `completion_delay` wait
    /// steps, the modeled backends' deterministic stand-in for the time the
    /// device spends on the work.
    ///
    /// Submitting a fence that is still attached to incomplete work is
    /// rejected by the backends, so it is excluded here.
    pub fn submit(&self, signal_fence: &mut RafxFence, completion_delay: u64)
        requires
            old(signal_fence).spec_backend() == self.backend,
            !(old(signal_fence).spec_state() is Incomplete),
        ensures
            final(signal_fence).spec_backend() == self.backend,
            final(signal_fence).spec_state() == (FenceState::Incomplete {
                remaining_ticks: completion_delay,
            }),
    {
        signal_fence.set_state(FenceState::Incomplete { remaining_ticks: completion_delay });
    }

    /// Present an acquired backbuffer. The device waits on the given
    /// semaphore and consumes its signal; waiting on a semaphore that was
    /// never signaled would stall the queue forever, so it is excluded.
    /// Presentation fails with `SurfaceOutOfDate` exactly when the surface
    /// changed under the swapchain; the caller then rebuilds and retries
    /// the frame. The swapchain's cached state is not touched.
    pub fn present(
        &self,
        swapchain: &mut crate::swapchain::RafxSwapchain,
        wait_semaphore: &mut crate::sync::RafxSemaphore,
        image_index: u32,
    ) -> (r: RafxResult<()>)
        requires
            old(swapchain).wf(),
            old(swapchain).spec_backend() == self.backend,
            old(wait_semaphore).spec_backend() == self.backend,
            old(wait_semaphore).spec_signaled(),
            image_index < old(swapchain).spec_state().image_count,
        ensures
            final(swapchain).wf(),
            *final(swapchain) == *old(swapchain),
            final(wait_semaphore).spec_backend() == old(wait_semaphore).spec_backend(),
            !final(wait_semaphore).spec_signaled(),
            r is Ok <==> !old(swapchain).spec_state().out_of_date,
            r is Err ==> r == RafxResult::<()>::Err(RafxError::SurfaceOutOfDate),
    {
        wait_semaphore.set_signaled(false);
        if swapchain_out_of_date(swapchain) {
            Err(RafxError::SurfaceOutOfDate)
        } else {
            Ok(())
        }
    }
}

/// Whether the surface changed under the swapchain since it was built.
fn swapchain_out_of_date(swapchain: &crate::swapchain::RafxSwapchain) -> (r: bool)
    ensures
        r == swapchain.spec_state().out_of_date,
{
    match swapchain {
        crate::swapchain::RafxSwapchain::Vk(inner) => inner.swapchain.out_of_date,
        crate::swapchain::RafxSwapchain::Metal(inner) => inner.swapchain.out_of_date,
        crate::swapchain::RafxSwapchain::Gl(inner) => inner.swapchain.out_of_date,
        crate::swapchain::RafxSwapchain::Empty(inner) => inner.swapchain.out_of_date,
    }
}

/// A buffer created from a `RafxBufferDef`.
#[derive(Clone, Copy, Debug, PartialEq, Eq, Structural)]
pub struct RafxBuffer {
    pub backend: RafxBackend,
    pub buffer_def: RafxBufferDef,
}

impl RafxBuffer {
    /// The definition this buffer was created from.
    pub fn buffer_def(&self) -> (r: &RafxBufferDef)
        ensures
            *r == self.buffer_def,
    {
        &self.buffer_def
    }
}

/// A texture created from a `RafxTextureDef`.
#[derive(Clone, Copy, Debug, PartialEq, Eq, Structural)]
pub struct RafxTexture {
    pub backend: RafxBackend,
    pub texture_def: RafxTextureDef,
}

impl RafxTexture {
    /// The definition this texture was created from.
    pub fn texture_def(&self) -> (r: &RafxTextureDef)
        ensures
            *r == self.texture_def,
    {
        &self.texture_def
    }
}

/// A sampler created from a `RafxSamplerDef`.
#[derive(Clone, Copy, Debug, PartialEq, Eq, Structural)]
pub struct RafxSampler {
    pub backend: RafxBackend,
    pub sampler_def: RafxSamplerDef,
}

/// A compiled shader module.
#[derive(Clone, Debug)]
pub struct RafxShaderModule {
    pub backend: RafxBackend,
    /// Size of the artifact the module was built from, in bytes.
    pub bytecode_len: usize,
}

/// A shader program built from one or more stages.
#[derive(Clone, Debug)]
pub struct RafxShader {
    pub backend: RafxBackend,
    /// How many stages the program holds.
    pub stage_count: usize,
}

/// A root signature: the descriptor/resource binding layout a pipeline
/// expects.
#[derive(Clone, Debug)]
pub struct RafxRootSignature {
    pub backend: RafxBackend,
    /// Bindings per descriptor set layout, as validated at creation.
    pub descriptor_set_binding_counts: Vec<u32>,
}

/// An array of descriptor sets bound at one set index.
#[derive(Clone, Copy, Debug, PartialEq, Eq, Structural)]
pub struct RafxDescriptorSetArray {
    pub backend: RafxBackend,
    pub descriptor_set_array_def: RafxDescriptorSetArrayDef,
}

/// Whether a pipeline renders or computes.
#[derive(Clone, Copy, Debug, PartialEq, Eq, Structural)]
pub enum RafxPipelineType {
    Graphics,
    Compute,
}

/// A compiled pipeline.
#[derive(Clone, Debug)]
pub struct RafxPipeline {
    pub backend: RafxBackend,
    pub pipeline_type: RafxPipelineType,
}

impl RafxPipeline {
    /// Whether this pipeline renders or computes.
    pub fn pipeline_type(&self) -> (r: RafxPipelineType)
        ensures
            r == self.pipeline_type,
    {
        self.pipeline_type
    }
}

/// One acquired backbuffer: the texture to render into and its index
/// within the swapchain.
#[derive(Clone, Copy, Debug, PartialEq, Eq, Structural)]
pub struct RafxSwapchainImage {
    pub texture: RafxTexture,
    pub swapchain_image_index: u32,
}

} // verus!
