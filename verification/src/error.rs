use vstd::prelude::*;

verus! {

/// Backend-agnostic error taxonomy. Every native failure a backend can
/// surface is mapped onto one of these values; negotiation misses
/// (no matching format or sample count) are represented as `None` results,
/// never as errors.
#[derive(Clone, Copy, Debug, PartialEq, Eq, Structural)]
pub enum RafxError {
    /// The device was lost or torn down; fatal for the frame loop.
    DeviceLost,
    /// The surface no longer matches the swapchain; rebuild and retry.
    SurfaceOutOfDate,
    /// A blocking wait gave up before the work completed.
    Timeout,
    /// A requested pixel format is not supported for the requested use.
    UnsupportedFormat,
    /// A requested capability is not available on this backend.
    UnsupportedFeature,
    /// A native allocation failed.
    AllocationFailure,
    /// A caller-supplied definition violates a backend constraint.
    InvalidDefinition,
}

/// The result type used by every fallible operation in this crate.
pub type RafxResult<T> = Result<T, RafxError>;

} // verus!
