use rafx_api::device_context::{RafxDeviceContext, RafxDeviceContextEmpty};
use rafx_api::render_contexts::{
    ArenaSlot, RenderJobExtractContext, RenderJobPrepareContext, RenderJobWriteContext,
    RenderTargetMeta, VisitRenderPassArgs,
};
use rafx_api::render_options::{DebugUiState, RenderOptions, TonemapperType};
use rafx_api::types::{RafxFormat, RafxSampleCount};

#[test]
fn tonemapper_conversion_is_bounds_checked() {
    assert_eq!(TonemapperType::from_i32(0), Some(TonemapperType::Off));
    assert_eq!(TonemapperType::from_i32(6), Some(TonemapperType::LogDerivative));
    assert_eq!(TonemapperType::from_i32(9), Some(TonemapperType::Max));
    assert_eq!(TonemapperType::from_i32(10), None);
    assert_eq!(TonemapperType::from_i32(-1), None);
}

#[test]
fn tonemapper_conversion_round_trips() {
    for i in 0..=9 {
        let tonemapper = TonemapperType::from_i32(i).unwrap();
        assert_eq!(tonemapper.index(), i);
    }
}

#[test]
fn tonemapper_display_names() {
    assert_eq!(TonemapperType::Off.display_name(), "None");
    assert_eq!(TonemapperType::StephenHillACES.display_name(), "Stephen Hill ACES");
    assert_eq!(TonemapperType::Hejl2015.display_name(), "Hejl 2015");
    assert_eq!(TonemapperType::FilmicALU.display_name(), "Filmic ALU (Hable)");
    assert_eq!(TonemapperType::VisualizeLuma.display_name(), "Visualize RGB Luma");
    assert_eq!(TonemapperType::Max.display_name(), "MAX_TONEMAPPER_VALUE");
}

#[test]
fn stock_render_options() {
    let flat = RenderOptions::default_2d();
    assert!(!flat.enable_msaa);
    assert!(!flat.enable_hdr);
    assert!(!flat.enable_bloom);
    assert_eq!(flat.blur_pass_count, 0);
    assert_eq!(flat.tonemapper_type, TonemapperType::Off);
    assert!(!flat.show_feature_toggles);

    let scene = RenderOptions::default_3d();
    assert!(scene.enable_msaa);
    assert!(scene.enable_hdr);
    assert!(scene.enable_bloom);
    assert_eq!(scene.blur_pass_count, 5);
    assert_eq!(scene.tonemapper_type, TonemapperType::LogDerivative);
    assert!(scene.show_feature_toggles);
    assert!(scene.enable_visibility_update);
}

#[test]
fn debug_ui_starts_closed() {
    let state = DebugUiState::default();
    assert!(!state.show_render_options);
    assert!(!state.show_asset_list);
}

fn slot(frame_index: u64, slot_index: u32) -> ArenaSlot {
    ArenaSlot { frame_index, slot_index }
}

#[test]
fn extract_context_gathers_one_frame() {
    let context = RenderJobExtractContext::new(slot(7, 0), slot(7, 1), slot(7, 2), slot(7, 3));
    assert_eq!(context.world, slot(7, 0));
    assert_eq!(context.resources, slot(7, 1));
    assert_eq!(context.render_resources, slot(7, 2));
    assert_eq!(context.asset_manager, slot(7, 3));
}

#[test]
fn prepare_and_write_contexts_carry_their_state() {
    let device_context = RafxDeviceContext::Empty(RafxDeviceContextEmpty::new());
    let prepare = RenderJobPrepareContext::new(device_context.clone(), slot(3, 0), slot(3, 1));
    assert_eq!(prepare.resource_context, slot(3, 0));
    assert_eq!(prepare.render_resources, slot(3, 1));

    let meta = RenderTargetMeta {
        color_formats: vec![RafxFormat::B8G8R8A8Srgb],
        depth_stencil_format: RafxFormat::D32Sfloat,
        sample_count: RafxSampleCount::SampleCount4,
    };
    let write = RenderJobWriteContext::new(device_context.clone(), slot(3, 0), slot(3, 2), meta);
    assert_eq!(write.command_buffer, slot(3, 2));
    assert_eq!(write.render_target_meta.color_formats, vec![RafxFormat::B8G8R8A8Srgb]);
    assert_eq!(write.render_target_meta.sample_count, RafxSampleCount::SampleCount4);
}

#[test]
fn write_context_from_graph_visit_args() {
    let device_context = RafxDeviceContext::Empty(RafxDeviceContextEmpty::new());
    let args = VisitRenderPassArgs {
        device_context,
        resource_context: slot(11, 0),
        command_buffer: slot(11, 5),
        render_target_meta: RenderTargetMeta {
            color_formats: vec![RafxFormat::R8G8B8A8Unorm],
            depth_stencil_format: RafxFormat::Undefined,
            sample_count: RafxSampleCount::SampleCount1,
        },
    };
    let write = RenderJobWriteContext::from_graph_visit_render_pass_args(args);
    assert_eq!(write.resource_context, slot(11, 0));
    assert_eq!(write.command_buffer, slot(11, 5));
    assert_eq!(write.render_target_meta.depth_stencil_format, RafxFormat::Undefined);
}
