//! Fences and semaphores.
//!
//! A fence signals host-visible completion: it is created unsubmitted,
//! becomes incomplete when a submission names it, and completes only when
//! that submission's work completes. A semaphore is a device-side ordering
//! token with no host-observable state. Each primitive wraps exactly one
//! backend's native object; mixing backends is caught by the fallible
//! accessors.
//!
//! In the modeled backends a submission carries an explicit number of wait
//! steps before it completes, so completion is deterministic and a fence
//! can never report complete before its work is done.

use vstd::prelude::*;
use crate::types::RafxBackend;

verus! {

/// The host-observable answer of a fence status query.
#[derive(Clone, Copy, Debug, PartialEq, Eq, Structural)]
pub enum RafxFenceStatus {
    /// The fence was never named by a submission; waiting on it would
    /// never finish.
    Unsubmitted,
    /// The associated submission has not completed yet.
    Incomplete,
    /// The associated submission has completed.
    Complete,
}

/// The internal fence state: as the status, but an incomplete fence also
/// remembers how many wait steps of work remain.
#[derive(Clone, Copy, Debug, PartialEq, Eq, Structural)]
pub enum FenceState {
    Unsubmitted,
    Incomplete { remaining_ticks: u64 },
    Complete,
}

/// The status a fence state reports to the host.
pub open spec fn spec_fence_status_of(state: FenceState) -> RafxFenceStatus {
    match state {
        FenceState::Unsubmitted => RafxFenceStatus::Unsubmitted,
        FenceState::Incomplete { .. } => RafxFenceStatus::Incomplete,
        FenceState::Complete => RafxFenceStatus::Complete,
    }
}

/// A fence of the Vulkan backend.
#[derive(Clone, Copy, Debug, PartialEq, Eq, Structural)]
pub struct RafxFenceVulkan {
    pub state: FenceState,
}

/// A fence of the Metal backend.
#[derive(Clone, Copy, Debug, PartialEq, Eq, Structural)]
pub struct RafxFenceMetal {
    pub state: FenceState,
}

/// A fence of the GL backend.
#[derive(Clone, Copy, Debug, PartialEq, Eq, Structural)]
pub struct RafxFenceGl {
    pub state: FenceState,
}

/// A fence of the Empty backend.
#[derive(Clone, Copy, Debug, PartialEq, Eq, Structural)]
pub struct RafxFenceEmpty {
    pub state: FenceState,
}

/// A host-waitable synchronization primitive, tagged by its backend.
#[derive(Clone, Copy, Debug, PartialEq, Eq, Structural)]
pub enum RafxFence {
    Vk(RafxFenceVulkan),
    Metal(RafxFenceMetal),
    Gl(RafxFenceGl),
    Empty(RafxFenceEmpty),
}

impl RafxFence {
    /// The backend this fence was created by.
    pub open spec fn spec_backend(self) -> RafxBackend {
        match self {
            RafxFence::Vk(_) => RafxBackend::Vulkan,
            RafxFence::Metal(_) => RafxBackend::Metal,
            RafxFence::Gl(_) => RafxBackend::Gl,
            RafxFence::Empty(_) => RafxBackend::Empty,
        }
    }

    /// The internal state, independent of the backend tag.
    pub open spec fn spec_state(self) -> FenceState {
        match self {
            RafxFence::Vk(f) => f.state,
            RafxFence::Metal(f) => f.state,
            RafxFence::Gl(f) => f.state,
            RafxFence::Empty(f) => f.state,
        }
    }

    /// A freshly created, unsubmitted fence of the given backend.
    pub(crate) fn new(backend: RafxBackend) -> (r: RafxFence)
        ensures
            r.spec_backend() == backend,
            r.spec_state() == FenceState::Unsubmitted,
    {
        match backend {
            RafxBackend::Vulkan => RafxFence::Vk(RafxFenceVulkan { state: FenceState::Unsubmitted }),
            RafxBackend::Metal => RafxFence::Metal(
                RafxFenceMetal { state: FenceState::Unsubmitted },
            ),
            RafxBackend::Gl => RafxFence::Gl(RafxFenceGl { state: FenceState::Unsubmitted }),
            RafxBackend::Empty => RafxFence::Empty(
                RafxFenceEmpty { state: FenceState::Unsubmitted },
            ),
        }
    }

    /// Executable mirror of `spec_backend`.
    pub fn backend(&self) -> (r: RafxBackend)
        ensures
            r == self.spec_backend(),
    {
        match self {
            RafxFence::Vk(_) => RafxBackend::Vulkan,
            RafxFence::Metal(_) => RafxBackend::Metal,
            RafxFence::Gl(_) => RafxBackend::Gl,
            RafxFence::Empty(_) => RafxBackend::Empty,
        }
    }

    /// What the fence reports to the host right now. A fence never reports
    /// `Complete` while work remains: completeness of the internal state is
    /// exactly what is reported.
    pub fn get_fence_status(&self) -> (r: RafxFenceStatus)
        ensures
            r == spec_fence_status_of(self.spec_state()),
    {
        match self.state_ref() {
            FenceState::Unsubmitted => RafxFenceStatus::Unsubmitted,
            FenceState::Incomplete { .. } => RafxFenceStatus::Incomplete,
            FenceState::Complete => RafxFenceStatus::Complete,
        }
    }

    /// Replace the internal state, keeping the backend tag.
    pub(crate) fn set_state(&mut self, state: FenceState)
        ensures
            final(self).spec_backend() == old(self).spec_backend(),
            final(self).spec_state() == state,
    {
        match self {
            RafxFence::Vk(f) => f.state = state,
            RafxFence::Metal(f) => f.state = state,
            RafxFence::Gl(f) => f.state = state,
            RafxFence::Empty(f) => f.state = state,
        }
    }

    /// Borrow the internal state, whichever backend owns it.
    pub(crate) fn state_ref(&self) -> (r: &FenceState)
        ensures
            *r == self.spec_state(),
    {
        match self {
            RafxFence::Vk(f) => &f.state,
            RafxFence::Metal(f) => &f.state,
            RafxFence::Gl(f) => &f.state,
            RafxFence::Empty(f) => &f.state,
        }
    }

    /// Get the underlying Vulkan fence, if this fence belongs to the
    /// Vulkan backend.
    pub fn vk_fence(&self) -> (r: Option<&RafxFenceVulkan>)
        ensures
            r is Some <==> self is Vk,
            r matches Some(f) ==> *f == self->Vk_0,
    {
        match self {
            RafxFence::Vk(inner) => Some(inner),
            _ => None,
        }
    }

    /// Get the underlying Metal fence, if this fence belongs to the Metal
    /// backend.
    pub fn metal_fence(&self) -> (r: Option<&RafxFenceMetal>)
        ensures
            r is Some <==> self is Metal,
            r matches Some(f) ==> *f == self->Metal_0,
    {
        match self {
            RafxFence::Metal(inner) => Some(inner),
            _ => None,
        }
    }

    /// Get the underlying GL fence, if this fence belongs to the GL
    /// backend.
    pub fn gl_fence(&self) -> (r: Option<&RafxFenceGl>)
        ensures
            r is Some <==> self is Gl,
            r matches Some(f) ==> *f == self->Gl_0,
    {
        match self {
            RafxFence::Gl(inner) => Some(inner),
            _ => None,
        }
    }

    /// Get the underlying Empty-backend fence, if this fence belongs to
    /// the Empty backend.
    pub fn empty_fence(&self) -> (r: Option<&RafxFenceEmpty>)
        ensures
            r is Some <==> self is Empty,
            r matches Some(f) ==> *f == self->Empty_0,
    {
        match self {
            RafxFence::Empty(inner) => Some(inner),
            _ => None,
        }
    }
}

/// A semaphore of the Vulkan backend.
#[derive(Clone, Copy, Debug, PartialEq, Eq, Structural)]
pub struct RafxSemaphoreVulkan {
    pub signaled: bool,
}

/// A semaphore of the Metal backend.
#[derive(Clone, Copy, Debug, PartialEq, Eq, Structural)]
pub struct RafxSemaphoreMetal {
    pub signaled: bool,
}

/// A semaphore of the GL backend.
#[derive(Clone, Copy, Debug, PartialEq, Eq, Structural)]
pub struct RafxSemaphoreGl {
    pub signaled: bool,
}

/// A semaphore of the Empty backend.
#[derive(Clone, Copy, Debug, PartialEq, Eq, Structural)]
pub struct RafxSemaphoreEmpty {
    pub signaled: bool,
}

/// A device-side ordering token, tagged by its backend. The signal state
/// is deliberately not queryable from the host; it only orders acquire,
/// submit and present against each other.
#[derive(Clone, Copy, Debug, PartialEq, Eq, Structural)]
pub enum RafxSemaphore {
    Vk(RafxSemaphoreVulkan),
    Metal(RafxSemaphoreMetal),
    Gl(RafxSemaphoreGl),
    Empty(RafxSemaphoreEmpty),
}

impl RafxSemaphore {
    /// The backend this semaphore was created by.
    pub open spec fn spec_backend(self) -> RafxBackend {
        match self {
            RafxSemaphore::Vk(_) => RafxBackend::Vulkan,
            RafxSemaphore::Metal(_) => RafxBackend::Metal,
            RafxSemaphore::Gl(_) => RafxBackend::Gl,
            RafxSemaphore::Empty(_) => RafxBackend::Empty,
        }
    }

    /// Whether the device-side signal is pending, as ghost state.
    pub open spec fn spec_signaled(self) -> bool {
        match self {
            RafxSemaphore::Vk(s) => s.signaled,
            RafxSemaphore::Metal(s) => s.signaled,
            RafxSemaphore::Gl(s) => s.signaled,
            RafxSemaphore::Empty(s) => s.signaled,
        }
    }

    /// A freshly created, unsignaled semaphore of the given backend.
    pub(crate) fn new(backend: RafxBackend) -> (r: RafxSemaphore)
        ensures
            r.spec_backend() == backend,
            !r.spec_signaled(),
    {
        match backend {
            RafxBackend::Vulkan => RafxSemaphore::Vk(RafxSemaphoreVulkan { signaled: false }),
            RafxBackend::Metal => RafxSemaphore::Metal(RafxSemaphoreMetal { signaled: false }),
            RafxBackend::Gl => RafxSemaphore::Gl(RafxSemaphoreGl { signaled: false }),
            RafxBackend::Empty => RafxSemaphore::Empty(RafxSemaphoreEmpty { signaled: false }),
        }
    }

    /// Executable mirror of `spec_backend`.
    pub fn backend(&self) -> (r: RafxBackend)
        ensures
            r == self.spec_backend(),
    {
        match self {
            RafxSemaphore::Vk(_) => RafxBackend::Vulkan,
            RafxSemaphore::Metal(_) => RafxBackend::Metal,
            RafxSemaphore::Gl(_) => RafxBackend::Gl,
            RafxSemaphore::Empty(_) => RafxBackend::Empty,
        }
    }

    /// Replace the signal state, keeping the backend tag.
    pub(crate) fn set_signaled(&mut self, signaled: bool)
        ensures
            final(self).spec_backend() == old(self).spec_backend(),
            final(self).spec_signaled() == signaled,
    {
        match self {
            RafxSemaphore::Vk(s) => s.signaled = signaled,
            RafxSemaphore::Metal(s) => s.signaled = signaled,
            RafxSemaphore::Gl(s) => s.signaled = signaled,
            RafxSemaphore::Empty(s) => s.signaled = signaled,
        }
    }

    /// Get the underlying Vulkan semaphore, if this semaphore belongs to
    /// the Vulkan backend.
    pub fn vk_semaphore(&self) -> (r: Option<&RafxSemaphoreVulkan>)
        ensures
            r is Some <==> self is Vk,
            r matches Some(s) ==> *s == self->Vk_0,
    {
        match self {
            RafxSemaphore::Vk(inner) => Some(inner),
            _ => None,
        }
    }

    /// Get the underlying Metal semaphore, if this semaphore belongs to
    /// the Metal backend.
    pub fn metal_semaphore(&self) -> (r: Option<&RafxSemaphoreMetal>)
        ensures
            r is Some <==> self is Metal,
            r matches Some(s) ==> *s == self->Metal_0,
    {
        match self {
            RafxSemaphore::Metal(inner) => Some(inner),
            _ => None,
        }
    }

    /// Get the underlying GL semaphore, if this semaphore belongs to the
    /// GL backend.
    pub fn gl_semaphore(&self) -> (r: Option<&RafxSemaphoreGl>)
        ensures
            r is Some <==> self is Gl,
            r matches Some(s) ==> *s == self->Gl_0,
    {
        match self {
            RafxSemaphore::Gl(inner) => Some(inner),
            _ => None,
        }
    }

    /// Get the underlying Empty-backend semaphore, if this semaphore
    /// belongs to the Empty backend.
    pub fn empty_semaphore(&self) -> (r: Option<&RafxSemaphoreEmpty>)
        ensures
            r is Some <==> self is Empty,
            r matches Some(s) ==> *s == self->Empty_0,
    {
        match self {
            RafxSemaphore::Empty(inner) => Some(inner),
            _ => None,
        }
    }
}

/// A fence reports `Complete` only in the `Complete` state: while any work
/// remains (the state is incomplete with however many steps, or the fence
/// was never submitted) the reported status is not `Complete`.
pub proof fn lemma_no_false_fence_completion(fence: RafxFence)
    requires
        fence.spec_state() != FenceState::Complete,
    ensures
        spec_fence_status_of(fence.spec_state()) != RafxFenceStatus::Complete,
{
}

} // verus!
