use rafx_api::device_context::{RafxDeviceContext, RafxDeviceContextEmpty};
use rafx_api::error::RafxError;
use rafx_api::tracking::DeviceContextTracking;

#[test]
fn clones_keep_the_device_alive_and_the_last_release_destroys_it() {
    let mut tracking = DeviceContextTracking::new();
    assert_eq!(tracking.live_count(), 1);
    assert!(!tracking.is_destroyed());

    let first_clone = tracking.register_clone();
    let second_clone = tracking.register_clone();
    assert_eq!(tracking.live_count(), 3);

    tracking.release(first_clone);
    assert!(!tracking.is_destroyed());
    tracking.release(0);
    assert!(!tracking.is_destroyed());
    assert!(tracking.check_device_alive().is_ok());

    tracking.release(second_clone);
    assert!(tracking.is_destroyed());
    assert_eq!(tracking.live_count(), 0);
}

#[test]
fn a_destroyed_device_refuses_work_with_an_error() {
    let mut tracking = DeviceContextTracking::new();
    tracking.release(0);
    assert!(tracking.is_destroyed());
    assert_eq!(tracking.check_device_alive().unwrap_err(), RafxError::DeviceLost);
}

#[test]
fn creation_indices_are_fresh() {
    let mut tracking = DeviceContextTracking::new();
    let a = tracking.register_clone();
    let b = tracking.register_clone();
    let c = tracking.register_clone();
    assert!(a != b && b != c && a != c);
    assert!(a != 0 && b != 0 && c != 0);
}

#[test]
fn release_order_does_not_matter() {
    let mut tracking = DeviceContextTracking::new();
    let a = tracking.register_clone();
    let b = tracking.register_clone();
    tracking.release(b);
    tracking.release(0);
    assert!(!tracking.is_destroyed());
    tracking.release(a);
    assert!(tracking.is_destroyed());
}

#[test]
fn context_clones_share_one_device() {
    // Ownership-driven sharing: every clone reads the same inner record,
    // and the record outlives dropped clones as long as one clone remains.
    let device_context = RafxDeviceContext::Empty(RafxDeviceContextEmpty::new());
    let first = device_context.clone();
    let second = device_context.clone();
    let alignment = device_context.device_info().min_uniform_buffer_offset_alignment;
    drop(device_context);
    drop(first);
    assert_eq!(second.device_info().min_uniform_buffer_offset_alignment, alignment);
    assert!(second.create_fence().is_ok());
}
