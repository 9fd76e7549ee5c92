use rafx_api::defs::RafxSwapchainDef;
use rafx_api::device_context::{
    RafxDeviceContext, RafxDeviceContextEmpty, RafxDeviceContextGl, RafxDeviceContextGlInner,
    RafxDeviceContextMetal, RafxDeviceContextVulkan,
};
use rafx_api::error::RafxError;
use rafx_api::types::{RafxColorSpace, RafxFormat, RafxPresentMode};
use std::sync::Arc;

fn basic_def() -> RafxSwapchainDef {
    RafxSwapchainDef {
        width: 800,
        height: 600,
        present_mode: RafxPresentMode::Fifo,
        color_space: RafxColorSpace::Srgb,
        format: RafxFormat::Undefined,
        min_image_count: 1,
        max_image_count: 8,
    }
}

fn all_backends() -> Vec<RafxDeviceContext> {
    vec![
        RafxDeviceContext::Vk(RafxDeviceContextVulkan::new()),
        RafxDeviceContext::Metal(RafxDeviceContextMetal::new()),
        RafxDeviceContext::Gl(
            RafxDeviceContextGl::new(Arc::new(RafxDeviceContextGlInner::new(4).unwrap())).unwrap(),
        ),
        RafxDeviceContext::Empty(RafxDeviceContextEmpty::new()),
    ]
}

#[test]
fn image_count_within_requested_range_on_every_backend() {
    for device_context in all_backends() {
        let def = basic_def();
        let swapchain = device_context.create_swapchain(&def).unwrap();
        let count = swapchain.image_count();
        assert!(count >= def.min_image_count as usize);
        assert!(count <= def.max_image_count as usize);
    }
}

#[test]
fn image_count_stable_until_rebuild() {
    for device_context in all_backends() {
        let mut swapchain = device_context.create_swapchain(&basic_def()).unwrap();
        let count = swapchain.image_count();
        let mut fence = device_context.create_fence().unwrap();
        for _ in 0..5 {
            swapchain.acquire_next_image_fence(&mut fence).unwrap();
            assert_eq!(swapchain.image_count(), count);
        }
    }
}

#[test]
fn rebuild_with_unchanged_def_preserves_format() {
    for device_context in all_backends() {
        let def = basic_def();
        let mut swapchain = device_context.create_swapchain(&def).unwrap();
        let format_before = swapchain.format();
        swapchain.rebuild(&def).unwrap();
        assert_eq!(swapchain.format(), format_before);
    }
}

#[test]
fn empty_backend_frame_scenario() {
    let device_context = RafxDeviceContext::Empty(RafxDeviceContextEmpty::new());
    let def = RafxSwapchainDef {
        width: 800,
        height: 600,
        present_mode: RafxPresentMode::Fifo,
        color_space: RafxColorSpace::Srgb,
        format: RafxFormat::Undefined,
        min_image_count: 2,
        max_image_count: 2,
    };
    let mut swapchain = device_context.create_swapchain(&def).unwrap();
    assert_eq!(swapchain.image_count(), 2);
    let mut fence = device_context.create_fence().unwrap();
    let image = swapchain.acquire_next_image_fence(&mut fence).unwrap();
    assert!(image.swapchain_image_index == 0 || image.swapchain_image_index == 1);
    let def2 = RafxSwapchainDef { width: 1024, height: 768, ..def };
    swapchain.rebuild(&def2).unwrap();
    assert_eq!(swapchain.swapchain_def().width, 1024);
    assert_eq!(swapchain.swapchain_def().height, 768);
}

#[test]
fn acquire_cycles_through_all_images() {
    let device_context = RafxDeviceContext::Empty(RafxDeviceContextEmpty::new());
    let def = RafxSwapchainDef { min_image_count: 3, max_image_count: 3, ..basic_def() };
    let mut swapchain = device_context.create_swapchain(&def).unwrap();
    let mut fence = device_context.create_fence().unwrap();
    let mut seen: Vec<u32> = Vec::new();
    for _ in 0..6 {
        let image = swapchain.acquire_next_image_fence(&mut fence).unwrap();
        seen.push(image.swapchain_image_index);
    }
    assert_eq!(seen, vec![0, 1, 2, 0, 1, 2]);
}

#[test]
fn surface_change_fails_acquire_until_rebuild() {
    let device_context = RafxDeviceContext::Empty(RafxDeviceContextEmpty::new());
    let mut swapchain = device_context.create_swapchain(&basic_def()).unwrap();
    let mut fence = device_context.create_fence().unwrap();
    swapchain.acquire_next_image_fence(&mut fence).unwrap();
    swapchain.notify_surface_changed();
    let result = swapchain.acquire_next_image_fence(&mut fence);
    assert_eq!(result.unwrap_err(), RafxError::SurfaceOutOfDate);
    swapchain.rebuild(&basic_def()).unwrap();
    let image = swapchain.acquire_next_image_fence(&mut fence).unwrap();
    assert_eq!(image.swapchain_image_index, 0);
}

#[test]
fn explicit_format_preference_is_honored() {
    let device_context = RafxDeviceContext::Vk(RafxDeviceContextVulkan::new());
    let def = RafxSwapchainDef { format: RafxFormat::R8G8B8A8Unorm, ..basic_def() };
    let swapchain = device_context.create_swapchain(&def).unwrap();
    assert_eq!(swapchain.format(), RafxFormat::R8G8B8A8Unorm);
}

#[test]
fn undefined_preference_falls_back_to_color_space_default() {
    let device_context = RafxDeviceContext::Empty(RafxDeviceContextEmpty::new());
    let swapchain = device_context.create_swapchain(&basic_def()).unwrap();
    assert_eq!(swapchain.format(), RafxFormat::B8G8R8A8Srgb);
    let def = RafxSwapchainDef { color_space: RafxColorSpace::SrgbExtended, ..basic_def() };
    let swapchain = device_context.create_swapchain(&def).unwrap();
    assert_eq!(swapchain.format(), RafxFormat::B8G8R8A8Unorm);
}

#[test]
fn unsupported_format_preference_is_reported() {
    let gl_inner = Arc::new(RafxDeviceContextGlInner::new(4).unwrap());
    let device_context = RafxDeviceContext::Gl(RafxDeviceContextGl::new(gl_inner).unwrap());
    let def = RafxSwapchainDef { format: RafxFormat::R16G16B16A16Sfloat, ..basic_def() };
    assert_eq!(device_context.create_swapchain(&def).unwrap_err(), RafxError::UnsupportedFormat);
}

#[test]
fn unsatisfiable_image_count_range_is_reported() {
    let device_context = RafxDeviceContext::Vk(RafxDeviceContextVulkan::new());
    let def = RafxSwapchainDef { min_image_count: 9, max_image_count: 9, ..basic_def() };
    assert_eq!(device_context.create_swapchain(&def).unwrap_err(), RafxError::UnsupportedFeature);
}

#[test]
fn malformed_swapchain_def_is_reported() {
    let device_context = RafxDeviceContext::Empty(RafxDeviceContextEmpty::new());
    let def = RafxSwapchainDef { width: 0, ..basic_def() };
    assert_eq!(device_context.create_swapchain(&def).unwrap_err(), RafxError::InvalidDefinition);
    let def = RafxSwapchainDef { min_image_count: 3, max_image_count: 2, ..basic_def() };
    assert_eq!(device_context.create_swapchain(&def).unwrap_err(), RafxError::InvalidDefinition);
}

#[test]
fn failed_rebuild_leaves_swapchain_unchanged() {
    let device_context = RafxDeviceContext::Empty(RafxDeviceContextEmpty::new());
    let mut swapchain = device_context.create_swapchain(&basic_def()).unwrap();
    let count = swapchain.image_count();
    let format = swapchain.format();
    let bad = RafxSwapchainDef { height: 0, ..basic_def() };
    assert_eq!(swapchain.rebuild(&bad).unwrap_err(), RafxError::InvalidDefinition);
    assert_eq!(swapchain.image_count(), count);
    assert_eq!(swapchain.format(), format);
    assert_eq!(swapchain.swapchain_def().width, 800);
}

#[test]
fn backend_accessors_expose_only_the_owning_variant() {
    let device_context = RafxDeviceContext::Empty(RafxDeviceContextEmpty::new());
    let swapchain = device_context.create_swapchain(&basic_def()).unwrap();
    assert!(swapchain.empty_swapchain().is_some());
    assert!(swapchain.vk_swapchain().is_none());
    assert!(swapchain.metal_swapchain().is_none());
    assert!(swapchain.gl_swapchain().is_none());

    let device_context = RafxDeviceContext::Vk(RafxDeviceContextVulkan::new());
    let swapchain = device_context.create_swapchain(&basic_def()).unwrap();
    assert!(swapchain.vk_swapchain().is_some());
    assert!(swapchain.empty_swapchain().is_none());
}

#[test]
fn metal_caps_its_image_count() {
    let device_context = RafxDeviceContext::Metal(RafxDeviceContextMetal::new());
    let def = RafxSwapchainDef { min_image_count: 1, max_image_count: 16, ..basic_def() };
    let swapchain = device_context.create_swapchain(&def).unwrap();
    assert!(swapchain.image_count() <= 3);
    assert!(swapchain.image_count() >= 2);
}
