//! Render job contexts: the three short-lived records that carry per-phase
//! state across the extract, prepare and write phases of building a frame.
//!
//! Each context is constructed fresh for one phase of one frame. Instead of
//! lifetime-erased references, phase state lives in a frame-scoped arena
//! owned by the frame loop, and a context holds validated slots into that
//! arena: a slot names the frame it belongs to, and a context only ever
//! combines slots of one frame.

use vstd::prelude::*;
use crate::device_context::RafxDeviceContext;
use crate::types::{RafxFormat, RafxSampleCount};

verus! {

/// A handle into the frame arena: the frame it was allocated for and the
/// slot within that frame's storage.
#[derive(Clone, Copy, Debug, PartialEq, Eq, Structural)]
pub struct ArenaSlot {
    pub frame_index: u64,
    pub slot_index: u32,
}

/// Per-phase state of the extract phase: where in the frame arena the
/// world, the shared resources, the renderer resources and the asset
/// manager were parked for this frame.
pub struct RenderJobExtractContext {
    pub world: ArenaSlot,
    pub resources: ArenaSlot,
    pub render_resources: ArenaSlot,
    pub asset_manager: ArenaSlot,
}

impl RenderJobExtractContext {
    /// Gather the extract-phase state. All slots must come from the same
    /// frame: an extract context never outlives or mixes frames.
    pub fn new(
        world: ArenaSlot,
        resources: ArenaSlot,
        render_resources: ArenaSlot,
        asset_manager: ArenaSlot,
    ) -> (r: RenderJobExtractContext)
        requires
            resources.frame_index == world.frame_index,
            render_resources.frame_index == world.frame_index,
            asset_manager.frame_index == world.frame_index,
        ensures
            r.world == world,
            r.resources == resources,
            r.render_resources == render_resources,
            r.asset_manager == asset_manager,
    {
        RenderJobExtractContext { world, resources, render_resources, asset_manager }
    }

    /// The frame every slot of this context belongs to.
    pub open spec fn spec_frame_index(self) -> u64 {
        self.world.frame_index
    }
}

/// Per-phase state of the prepare phase: the device context plus the
/// frame-arena slots of the resource context and renderer resources.
pub struct RenderJobPrepareContext {
    pub device_context: RafxDeviceContext,
    pub resource_context: ArenaSlot,
    pub render_resources: ArenaSlot,
}

impl RenderJobPrepareContext {
    /// Gather the prepare-phase state; both slots must come from the same
    /// frame.
    pub fn new(
        device_context: RafxDeviceContext,
        resource_context: ArenaSlot,
        render_resources: ArenaSlot,
    ) -> (r: RenderJobPrepareContext)
        requires
            render_resources.frame_index == resource_context.frame_index,
        ensures
            r.device_context == device_context,
            r.resource_context == resource_context,
            r.render_resources == render_resources,
    {
        RenderJobPrepareContext { device_context, resource_context, render_resources }
    }
}

/// The render-target shape a write-phase pass renders into.
#[derive(Clone, Debug)]
pub struct RenderTargetMeta {
    pub color_formats: Vec<RafxFormat>,
    /// `Undefined` when the pass has no depth attachment.
    pub depth_stencil_format: RafxFormat,
    pub sample_count: RafxSampleCount,
}

/// Per-phase state of the write phase: the device context, the slots of
/// the resource context and the command buffer being recorded, and the
/// render-target shape of the pass.
pub struct RenderJobWriteContext {
    pub device_context: RafxDeviceContext,
    pub resource_context: ArenaSlot,
    pub command_buffer: ArenaSlot,
    pub render_target_meta: RenderTargetMeta,
}

/// What a render-graph visit hands to the write phase for one render pass.
pub struct VisitRenderPassArgs {
    pub device_context: RafxDeviceContext,
    pub resource_context: ArenaSlot,
    pub command_buffer: ArenaSlot,
    pub render_target_meta: RenderTargetMeta,
}

impl RenderJobWriteContext {
    /// Gather the write-phase state; the command buffer must be recorded
    /// in the same frame the resource context belongs to.
    pub fn new(
        device_context: RafxDeviceContext,
        resource_context: ArenaSlot,
        command_buffer: ArenaSlot,
        render_target_meta: RenderTargetMeta,
    ) -> (r: RenderJobWriteContext)
        requires
            command_buffer.frame_index == resource_context.frame_index,
        ensures
            r.device_context == device_context,
            r.resource_context == resource_context,
            r.command_buffer == command_buffer,
            r.render_target_meta == render_target_meta,
    {
        RenderJobWriteContext { device_context, resource_context, command_buffer, render_target_meta }
    }

    /// Build the write-phase context from what a render-graph visit hands
    /// to a render pass.
    pub fn from_graph_visit_render_pass_args(visit_renderpass_args: VisitRenderPassArgs) -> (r:
        RenderJobWriteContext)
        requires
            visit_renderpass_args.command_buffer.frame_index
                == visit_renderpass_args.resource_context.frame_index,
        ensures
            r.device_context == visit_renderpass_args.device_context,
            r.resource_context == visit_renderpass_args.resource_context,
            r.command_buffer == visit_renderpass_args.command_buffer,
            r.render_target_meta == visit_renderpass_args.render_target_meta,
    {
        RenderJobWriteContext::new(
            visit_renderpass_args.device_context,
            visit_renderpass_args.resource_context,
            visit_renderpass_args.command_buffer,
            visit_renderpass_args.render_target_meta,
        )
    }
}

} // verus!
