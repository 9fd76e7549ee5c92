use rafx_api::defs::RafxSwapchainDef;
use rafx_api::device_context::{RafxDeviceContext, RafxDeviceContextEmpty};
use rafx_api::error::RafxError;
use rafx_api::sync::RafxFenceStatus;
use rafx_api::types::{RafxColorSpace, RafxFormat, RafxPresentMode, RafxQueueType};

fn empty_context() -> RafxDeviceContext {
    RafxDeviceContext::Empty(RafxDeviceContextEmpty::new())
}

fn basic_def() -> RafxSwapchainDef {
    RafxSwapchainDef {
        width: 640,
        height: 480,
        present_mode: RafxPresentMode::Mailbox,
        color_space: RafxColorSpace::Srgb,
        format: RafxFormat::Undefined,
        min_image_count: 2,
        max_image_count: 3,
    }
}

#[test]
fn a_fence_never_reports_complete_before_its_work_completes() {
    let device_context = empty_context();
    let queue = device_context.create_queue(RafxQueueType::Graphics).unwrap();
    let mut fence = device_context.create_fence().unwrap();
    assert_eq!(fence.get_fence_status(), RafxFenceStatus::Unsubmitted);

    // The Empty backend completes a submission after a controllable delay.
    queue.submit(&mut fence, 3);
    assert_eq!(fence.get_fence_status(), RafxFenceStatus::Incomplete);

    let mut fences = vec![fence];
    device_context.wait_for_fences(&mut fences).unwrap();
    assert_eq!(fences[0].get_fence_status(), RafxFenceStatus::Complete);
}

#[test]
fn waiting_on_an_unsubmitted_fence_times_out_and_changes_nothing() {
    let device_context = empty_context();
    let queue = device_context.create_queue(RafxQueueType::Graphics).unwrap();
    let mut submitted = device_context.create_fence().unwrap();
    queue.submit(&mut submitted, 1);
    let unsubmitted = device_context.create_fence().unwrap();

    let mut fences = vec![submitted, unsubmitted];
    assert_eq!(device_context.wait_for_fences(&mut fences).unwrap_err(), RafxError::Timeout);
    assert_eq!(fences[0].get_fence_status(), RafxFenceStatus::Incomplete);
    assert_eq!(fences[1].get_fence_status(), RafxFenceStatus::Unsubmitted);
}

#[test]
fn waiting_on_several_fences_completes_all_of_them() {
    let device_context = empty_context();
    let queue = device_context.create_queue(RafxQueueType::Graphics).unwrap();
    let mut fences = Vec::new();
    for delay in [0, 5, 100] {
        let mut fence = device_context.create_fence().unwrap();
        queue.submit(&mut fence, delay);
        fences.push(fence);
    }
    device_context.wait_for_fences(&mut fences).unwrap();
    for fence in &fences {
        assert_eq!(fence.get_fence_status(), RafxFenceStatus::Complete);
    }
}

#[test]
fn acquire_with_fence_signals_the_fence() {
    let device_context = empty_context();
    let mut swapchain = device_context.create_swapchain(&basic_def()).unwrap();
    let mut fence = device_context.create_fence().unwrap();
    assert_eq!(fence.get_fence_status(), RafxFenceStatus::Unsubmitted);
    swapchain.acquire_next_image_fence(&mut fence).unwrap();
    assert_eq!(fence.get_fence_status(), RafxFenceStatus::Complete);
}

#[test]
fn acquire_submit_present_round_trip() {
    let device_context = empty_context();
    let queue = device_context.create_queue(RafxQueueType::Graphics).unwrap();
    let mut swapchain = device_context.create_swapchain(&basic_def()).unwrap();
    let mut acquire_semaphore = device_context.create_semaphore().unwrap();
    let mut frame_fence = device_context.create_fence().unwrap();

    let image = swapchain.acquire_next_image_semaphore(&mut acquire_semaphore).unwrap();
    queue.submit(&mut frame_fence, 2);
    queue.present(&mut swapchain, &mut acquire_semaphore, image.swapchain_image_index).unwrap();

    let mut fences = vec![frame_fence];
    device_context.wait_for_fences(&mut fences).unwrap();
    assert_eq!(fences[0].get_fence_status(), RafxFenceStatus::Complete);

    // The consumed semaphore can gate the next frame's acquire again.
    let image = swapchain.acquire_next_image_semaphore(&mut acquire_semaphore).unwrap();
    assert_eq!(image.swapchain_image_index, 1);
}

#[test]
fn present_reports_a_changed_surface() {
    let device_context = empty_context();
    let queue = device_context.create_queue(RafxQueueType::Graphics).unwrap();
    let mut swapchain = device_context.create_swapchain(&basic_def()).unwrap();
    let mut semaphore = device_context.create_semaphore().unwrap();
    let image = swapchain.acquire_next_image_semaphore(&mut semaphore).unwrap();
    swapchain.notify_surface_changed();
    assert_eq!(
        queue.present(&mut swapchain, &mut semaphore, image.swapchain_image_index).unwrap_err(),
        RafxError::SurfaceOutOfDate
    );
}

#[test]
fn fence_and_semaphore_accessors_expose_only_the_owning_backend() {
    let device_context = empty_context();
    let fence = device_context.create_fence().unwrap();
    assert!(fence.empty_fence().is_some());
    assert!(fence.vk_fence().is_none());
    assert!(fence.metal_fence().is_none());
    assert!(fence.gl_fence().is_none());
    let semaphore = device_context.create_semaphore().unwrap();
    assert!(semaphore.empty_semaphore().is_some());
    assert!(semaphore.vk_semaphore().is_none());
    assert!(semaphore.metal_semaphore().is_none());
    assert!(semaphore.gl_semaphore().is_none());
}

#[test]
fn acquired_image_exposes_a_render_target_of_the_swapchain_shape() {
    let device_context = empty_context();
    let mut swapchain = device_context.create_swapchain(&basic_def()).unwrap();
    let format = swapchain.format();
    let mut fence = device_context.create_fence().unwrap();
    let image = swapchain.acquire_next_image_fence(&mut fence).unwrap();
    let def = image.texture.texture_def();
    assert_eq!(def.extents.width, 640);
    assert_eq!(def.extents.height, 480);
    assert_eq!(def.format, format);
    assert!(def.resource_type.render_target_color);
    assert_eq!(def.mip_count, 1);
}
