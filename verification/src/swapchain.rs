//! The swapchain: a set of images acting as the backbuffer of a window.
//!
//! `RafxSwapchain` is a closed polymorphic type over one variant per
//! backend. Image count and format are negotiated at creation and fixed
//! for the lifetime of a swapchain instance; `rebuild` replaces the native
//! state in place (preserving the logical handle) and renegotiates both,
//! so callers re-query after a rebuild. When the surface changes under the
//! swapchain, acquisition fails with `SurfaceOutOfDate` until the caller
//! rebuilds.

use vstd::prelude::*;
use crate::caps::{
    default_swapchain_format, max_swapchain_images, min_swapchain_images, present_mode_supported,
    preferred_swapchain_images, spec_default_swapchain_format, spec_format_color_renderable,
    spec_max_swapchain_images, spec_min_swapchain_images, spec_preferred_swapchain_images,
    spec_present_mode_supported,
};
use crate::defs::{swapchain_def_wf, spec_swapchain_def_wf, RafxSwapchainDef, RafxTextureDef};
use crate::error::{RafxError, RafxResult};
use crate::resources::{RafxSwapchainImage, RafxTexture};
use crate::sync::{FenceState, RafxFence, RafxSemaphore};
use crate::types::{
    RafxBackend, RafxExtents3D, RafxFormat, RafxPresentMode, RafxResourceType, RafxSampleCount,
};

verus! {

/// The image count a backend settles on for a definition: its preferred
/// count, clamped into the intersection of the caller's range and the
/// backend's bounds.
pub open spec fn spec_negotiated_image_count(backend: RafxBackend, def: RafxSwapchainDef) -> u32 {
    let lo = if def.min_image_count >= spec_min_swapchain_images(backend) {
        def.min_image_count
    } else {
        spec_min_swapchain_images(backend)
    };
    let hi = if def.max_image_count <= spec_max_swapchain_images(backend) {
        def.max_image_count
    } else {
        spec_max_swapchain_images(backend)
    };
    let preferred = spec_preferred_swapchain_images(backend);
    if preferred <= lo {
        lo
    } else if preferred >= hi {
        hi
    } else {
        preferred
    }
}

/// Whether the caller's image-count range intersects the backend's bounds.
pub open spec fn spec_image_count_compatible(backend: RafxBackend, def: RafxSwapchainDef) -> bool {
    &&& def.max_image_count >= spec_min_swapchain_images(backend)
    &&& def.min_image_count <= spec_max_swapchain_images(backend)
}

/// Whether the definition's format preference can be honored: either the
/// caller lets the backend choose, or the named format is presentable.
pub open spec fn spec_format_preference_available(
    backend: RafxBackend,
    def: RafxSwapchainDef,
) -> bool {
    def.format == RafxFormat::Undefined || spec_format_color_renderable(backend, def.format)
}

/// The format a swapchain ends up with: the caller's preference when it is
/// available, otherwise the backend's default for the color space.
pub open spec fn spec_negotiated_format(backend: RafxBackend, def: RafxSwapchainDef) -> RafxFormat {
    if def.format == RafxFormat::Undefined {
        spec_default_swapchain_format(def.color_space)
    } else {
        def.format
    }
}

/// The present mode a swapchain ends up with: the caller's choice when the
/// backend supports it, otherwise FIFO, which is mandatory everywhere.
pub open spec fn spec_negotiated_present_mode(
    backend: RafxBackend,
    def: RafxSwapchainDef,
) -> RafxPresentMode {
    if spec_present_mode_supported(backend, def.present_mode) {
        def.present_mode
    } else {
        RafxPresentMode::Fifo
    }
}

/// Whether a swapchain can be built on `backend` from `def`.
pub open spec fn spec_can_build_swapchain(backend: RafxBackend, def: RafxSwapchainDef) -> bool {
    &&& spec_swapchain_def_wf(def)
    &&& spec_format_preference_available(backend, def)
    &&& spec_image_count_compatible(backend, def)
}

/// The error creation or rebuild reports when a swapchain cannot be built,
/// checked in this order: a malformed definition, an unavailable format
/// preference, an unsatisfiable image-count range.
pub open spec fn spec_swapchain_build_error(backend: RafxBackend, def: RafxSwapchainDef) -> RafxError {
    if !spec_swapchain_def_wf(def) {
        RafxError::InvalidDefinition
    } else if !spec_format_preference_available(backend, def) {
        RafxError::UnsupportedFormat
    } else {
        RafxError::UnsupportedFeature
    }
}

/// The cached state of a live swapchain, shared by every backend variant:
/// the definition it was created from, the negotiated format, present mode
/// and image count, the cursor of the next backbuffer handed out, and
/// whether the surface has changed since the last (re)build.
#[derive(Clone, Copy, Debug, PartialEq, Eq, Structural)]
pub struct SwapchainState {
    pub backend: RafxBackend,
    pub swapchain_def: RafxSwapchainDef,
    pub format: RafxFormat,
    pub present_mode: RafxPresentMode,
    pub image_count: u32,
    pub next_image_index: u32,
    pub out_of_date: bool,
}

impl SwapchainState {
    /// Well-formedness: the cached values are exactly what negotiation
    /// yields for the stored definition, and the cursor stays in range.
    pub open spec fn wf(self) -> bool {
        &&& spec_can_build_swapchain(self.backend, self.swapchain_def)
        &&& self.format == spec_negotiated_format(self.backend, self.swapchain_def)
        &&& self.present_mode == spec_negotiated_present_mode(self.backend, self.swapchain_def)
        &&& self.image_count == spec_negotiated_image_count(self.backend, self.swapchain_def)
        &&& 1 <= self.image_count
        &&& self.next_image_index < self.image_count
    }

    /// The ghost state a fresh (re)build yields.
    pub open spec fn spec_built(backend: RafxBackend, def: RafxSwapchainDef) -> SwapchainState {
        SwapchainState {
            backend,
            swapchain_def: def,
            format: spec_negotiated_format(backend, def),
            present_mode: spec_negotiated_present_mode(backend, def),
            image_count: spec_negotiated_image_count(backend, def),
            next_image_index: 0,
            out_of_date: false,
        }
    }

    /// Negotiation keeps the image count inside the caller's range and the
    /// backend's bounds whenever they intersect, and the count is positive.
    pub proof fn lemma_negotiated_image_count_in_bounds(backend: RafxBackend, def: RafxSwapchainDef)
        requires
            spec_swapchain_def_wf(def),
            spec_image_count_compatible(backend, def),
        ensures
            def.min_image_count <= spec_negotiated_image_count(backend, def)
                <= def.max_image_count,
            spec_min_swapchain_images(backend) <= spec_negotiated_image_count(backend, def)
                <= spec_max_swapchain_images(backend),
            spec_negotiated_image_count(backend, def) >= 1,
    {
    }

    /// A freshly built state is well formed.
    pub proof fn lemma_built_wf(backend: RafxBackend, def: RafxSwapchainDef)
        requires
            spec_can_build_swapchain(backend, def),
        ensures
            SwapchainState::spec_built(backend, def).wf(),
    {
        SwapchainState::lemma_negotiated_image_count_in_bounds(backend, def);
    }

    /// Build the cached state for `backend` from `def`, negotiating the
    /// format, present mode and image count.
    pub fn build(backend: RafxBackend, def: &RafxSwapchainDef) -> (r: RafxResult<SwapchainState>)
        ensures
            r is Ok <==> spec_can_build_swapchain(backend, *def),
            r matches Ok(s) ==> s == SwapchainState::spec_built(backend, *def) && s.wf(),
            r matches Err(e) ==> e == spec_swapchain_build_error(backend, *def),
    {
        if !swapchain_def_wf(def) {
            return Err(RafxError::InvalidDefinition);
        }
        let format_ok = match def.format {
            RafxFormat::Undefined => true,
            _ => crate::caps::format_color_renderable(backend, def.format),
        };
        if !format_ok {
            return Err(RafxError::UnsupportedFormat);
        }
        let b_min = min_swapchain_images(backend);
        let b_max = max_swapchain_images(backend);
        if def.max_image_count < b_min || def.min_image_count > b_max {
            return Err(RafxError::UnsupportedFeature);
        }
        let lo = if def.min_image_count >= b_min {
            def.min_image_count
        } else {
            b_min
        };
        let hi = if def.max_image_count <= b_max {
            def.max_image_count
        } else {
            b_max
        };
        let preferred = preferred_swapchain_images(backend);
        let image_count = if preferred <= lo {
            lo
        } else if preferred >= hi {
            hi
        } else {
            preferred
        };
        let format = match def.format {
            RafxFormat::Undefined => default_swapchain_format(def.color_space),
            _ => def.format,
        };
        let present_mode = if present_mode_supported(backend, def.present_mode) {
            def.present_mode
        } else {
            RafxPresentMode::Fifo
        };
        proof {
            SwapchainState::lemma_built_wf(backend, *def);
        }
        Ok(
            SwapchainState {
                backend,
                swapchain_def: *def,
                format,
                present_mode,
                image_count,
                next_image_index: 0,
                out_of_date: false,
            },
        )
    }

    /// The definition of the texture an acquired backbuffer exposes: a
    /// single-mip, single-sample color render target of the swapchain's
    /// extent and format.
    pub open spec fn spec_image_texture_def(self) -> RafxTextureDef {
        RafxTextureDef {
            extents: RafxExtents3D {
                width: self.swapchain_def.width,
                height: self.swapchain_def.height,
                depth: 1,
            },
            array_length: 1,
            mip_count: 1,
            format: self.format,
            sample_count: RafxSampleCount::SampleCount1,
            resource_type: RafxResourceType {
                render_target_color: true,
                render_target_depth_stencil: false,
                texture_read_write: false,
                uniform_buffer: false,
            },
        }
    }

    /// Hand out the next backbuffer index and advance the cursor, or
    /// report that the surface changed and a rebuild is needed first.
    /// The cached definition, format and image count never change here.
    pub fn acquire_next(&mut self) -> (r: RafxResult<u32>)
        requires
            old(self).wf(),
        ensures
            final(self).wf(),
            old(self).out_of_date ==> r == RafxResult::<u32>::Err(RafxError::SurfaceOutOfDate)
                && *final(self) == *old(self),
            !old(self).out_of_date ==> r == RafxResult::<u32>::Ok(old(self).next_image_index)
                && *final(self) == (SwapchainState {
                next_image_index: ((old(self).next_image_index + 1) % (old(self).image_count as int)) as u32,
                ..*old(self)
            }),
    {
        if self.out_of_date {
            return Err(RafxError::SurfaceOutOfDate);
        }
        let index = self.next_image_index;
        self.next_image_index = (index + 1) % self.image_count;
        Ok(index)
    }

    /// Destroy and recreate the native swapchain state in place from a new
    /// definition. On failure the swapchain is left exactly as it was.
    pub fn rebuild_state(&mut self, def: &RafxSwapchainDef) -> (r: RafxResult<()>)
        requires
            old(self).wf(),
        ensures
            final(self).wf(),
            final(self).backend == old(self).backend,
            r is Ok <==> spec_can_build_swapchain(old(self).backend, *def),
            r is Ok ==> *final(self) == SwapchainState::spec_built(old(self).backend, *def),
            r matches Err(e) ==> e == spec_swapchain_build_error(old(self).backend, *def)
                && *final(self) == *old(self),
    {
        match SwapchainState::build(self.backend, def) {
            Ok(built) => {
                *self = built;
                Ok(())
            },
            Err(e) => Err(e),
        }
    }

    /// Record that the surface no longer matches the swapchain (for
    /// example after a window resize): every acquire fails with
    /// `SurfaceOutOfDate` until the swapchain is rebuilt.
    pub fn notify_surface_changed(&mut self)
        requires
            old(self).wf(),
        ensures
            final(self).wf(),
            *final(self) == (SwapchainState { out_of_date: true, ..*old(self) }),
    {
        self.out_of_date = true;
    }
}

/// The Vulkan backend's swapchain.
#[derive(Clone, Copy, Debug, PartialEq, Eq, Structural)]
pub struct RafxSwapchainVulkan {
    pub swapchain: SwapchainState,
}

/// The Metal backend's swapchain.
#[derive(Clone, Copy, Debug, PartialEq, Eq, Structural)]
pub struct RafxSwapchainMetal {
    pub swapchain: SwapchainState,
}

/// The GL backend's swapchain.
#[derive(Clone, Copy, Debug, PartialEq, Eq, Structural)]
pub struct RafxSwapchainGl {
    pub swapchain: SwapchainState,
}

/// The Empty backend's swapchain: fully functional, deterministic, and
/// backed by no native state at all.
#[derive(Clone, Copy, Debug, PartialEq, Eq, Structural)]
pub struct RafxSwapchainEmpty {
    pub swapchain: SwapchainState,
}

/// A set of images that act as a "backbuffer" of a window.
#[derive(Debug)]
pub enum RafxSwapchain {
    Vk(RafxSwapchainVulkan),
    Metal(RafxSwapchainMetal),
    Gl(RafxSwapchainGl),
    Empty(RafxSwapchainEmpty),
}

impl RafxSwapchain {
    /// The backend variant this swapchain was created on.
    pub open spec fn spec_backend(self) -> RafxBackend {
        match self {
            RafxSwapchain::Vk(_) => RafxBackend::Vulkan,
            RafxSwapchain::Metal(_) => RafxBackend::Metal,
            RafxSwapchain::Gl(_) => RafxBackend::Gl,
            RafxSwapchain::Empty(_) => RafxBackend::Empty,
        }
    }

    /// The cached state of the wrapped backend swapchain.
    pub open spec fn spec_state(self) -> SwapchainState {
        match self {
            RafxSwapchain::Vk(inner) => inner.swapchain,
            RafxSwapchain::Metal(inner) => inner.swapchain,
            RafxSwapchain::Gl(inner) => inner.swapchain,
            RafxSwapchain::Empty(inner) => inner.swapchain,
        }
    }

    /// Well-formedness: the wrapped state is well formed and belongs to
    /// the backend of this variant.
    pub open spec fn wf(self) -> bool {
        &&& self.spec_state().wf()
        &&& self.spec_state().backend == self.spec_backend()
    }

    /// Executable mirror of `spec_backend`.
    pub fn backend(&self) -> (r: RafxBackend)
        ensures
            r == self.spec_backend(),
    {
        match self {
            RafxSwapchain::Vk(_) => RafxBackend::Vulkan,
            RafxSwapchain::Metal(_) => RafxBackend::Metal,
            RafxSwapchain::Gl(_) => RafxBackend::Gl,
            RafxSwapchain::Empty(_) => RafxBackend::Empty,
        }
    }

    /// Borrow the wrapped state, whichever backend owns it.
    fn state_ref(&self) -> (r: &SwapchainState)
        ensures
            *r == self.spec_state(),
    {
        match self {
            RafxSwapchain::Vk(inner) => &inner.swapchain,
            RafxSwapchain::Metal(inner) => &inner.swapchain,
            RafxSwapchain::Gl(inner) => &inner.swapchain,
            RafxSwapchain::Empty(inner) => &inner.swapchain,
        }
    }

    /// Get the number of images in the swapchain. This is important to know
    /// because it indicates how many frames may be "in-flight" at a time -
    /// which affects how long a resource may be "in-use" after a command
    /// buffer referencing it has been submitted. Fixed until `rebuild`.
    pub fn image_count(&self) -> (r: usize)
        ensures
            r == self.spec_state().image_count,
    {
        self.state_ref().image_count as usize
    }

    /// Get the format of the images used in the swapchain. Fixed until
    /// `rebuild`.
    pub fn format(&self) -> (r: RafxFormat)
        ensures
            r == self.spec_state().format,
    {
        self.state_ref().format
    }

    /// Return the metadata used to create the swapchain.
    pub fn swapchain_def(&self) -> (r: &RafxSwapchainDef)
        ensures
            *r == self.spec_state().swapchain_def,
    {
        &self.state_ref().swapchain_def
    }

    /// Acquire the next image. The given fence will be signaled when it is
    /// available.
    ///
    /// This is the same as `acquire_next_image_semaphore` except that it
    /// signals a fence. The fence must come from the same backend and must
    /// not be attached to still-incomplete work. When the surface has
    /// changed, the acquire fails with `SurfaceOutOfDate`, nothing is
    /// signaled, and the swapchain must be rebuilt first.
    pub fn acquire_next_image_fence(&mut self, fence: &mut RafxFence) -> (r: RafxResult<
        RafxSwapchainImage,
    >)
        requires
            old(self).wf(),
            old(fence).spec_backend() == old(self).spec_backend(),
            !(old(fence).spec_state() is Incomplete),
        ensures
            final(self).wf(),
            final(self).spec_backend() == old(self).spec_backend(),
            final(fence).spec_backend() == old(fence).spec_backend(),
            final(self).spec_state().swapchain_def == old(self).spec_state().swapchain_def,
            final(self).spec_state().format == old(self).spec_state().format,
            final(self).spec_state().image_count == old(self).spec_state().image_count,
            old(self).spec_state().out_of_date ==> r == RafxResult::<RafxSwapchainImage>::Err(
                RafxError::SurfaceOutOfDate,
            ) && *final(self) == *old(self) && *final(fence) == *old(fence),
            !old(self).spec_state().out_of_date ==> {
                &&& r matches Ok(image)
                &&& image.swapchain_image_index == old(self).spec_state().next_image_index
                &&& image.swapchain_image_index < old(self).spec_state().image_count
                &&& image.texture == (RafxTexture {
                    backend: old(self).spec_backend(),
                    texture_def: old(self).spec_state().spec_image_texture_def(),
                })
                &&& final(fence).spec_state() == FenceState::Complete
                &&& final(self).spec_state() == (SwapchainState {
                    next_image_index: ((old(self).spec_state().next_image_index + 1) % (old(
                        self).spec_state().image_count as int)) as u32,
                    ..old(self).spec_state()
                })
            },
    {
        let backend = self.backend();
        let texture_def = self.image_texture_def();
        let index_result = self.acquire_index();
        match index_result {
            Ok(index) => {
                fence.set_state(FenceState::Complete);
                Ok(
                    RafxSwapchainImage {
                        texture: RafxTexture { backend, texture_def },
                        swapchain_image_index: index,
                    },
                )
            },
            Err(e) => Err(e),
        }
    }

    /// Acquire the next image. The given semaphore will be signaled when it
    /// is available.
    ///
    /// This is the same as `acquire_next_image_fence` except that it
    /// signals a semaphore. The semaphore must come from the same backend
    /// and must not carry an unconsumed signal.
    pub fn acquire_next_image_semaphore(&mut self, semaphore: &mut RafxSemaphore) -> (r: RafxResult<
        RafxSwapchainImage,
    >)
        requires
            old(self).wf(),
            old(semaphore).spec_backend() == old(self).spec_backend(),
            !old(semaphore).spec_signaled(),
        ensures
            final(self).wf(),
            final(self).spec_backend() == old(self).spec_backend(),
            final(semaphore).spec_backend() == old(semaphore).spec_backend(),
            final(self).spec_state().swapchain_def == old(self).spec_state().swapchain_def,
            final(self).spec_state().format == old(self).spec_state().format,
            final(self).spec_state().image_count == old(self).spec_state().image_count,
            old(self).spec_state().out_of_date ==> r == RafxResult::<RafxSwapchainImage>::Err(
                RafxError::SurfaceOutOfDate,
            ) && *final(self) == *old(self) && *final(semaphore) == *old(semaphore),
            !old(self).spec_state().out_of_date ==> {
                &&& r matches Ok(image)
                &&& image.swapchain_image_index == old(self).spec_state().next_image_index
                &&& image.swapchain_image_index < old(self).spec_state().image_count
                &&& image.texture == (RafxTexture {
                    backend: old(self).spec_backend(),
                    texture_def: old(self).spec_state().spec_image_texture_def(),
                })
                &&& final(semaphore).spec_signaled()
                &&& final(self).spec_state() == (SwapchainState {
                    next_image_index: ((old(self).spec_state().next_image_index + 1) % (old(
                        self).spec_state().image_count as int)) as u32,
                    ..old(self).spec_state()
                })
            },
    {
        let backend = self.backend();
        let texture_def = self.image_texture_def();
        let index_result = self.acquire_index();
        match index_result {
            Ok(index) => {
                semaphore.set_signaled(true);
                Ok(
                    RafxSwapchainImage {
                        texture: RafxTexture { backend, texture_def },
                        swapchain_image_index: index,
                    },
                )
            },
            Err(e) => Err(e),
        }
    }

    /// Rebuild the swapchain. This is most commonly called when a window is
    /// resized. The native state is replaced in place; the logical handle
    /// (and its backend variant) is preserved, but the image count and
    /// format are renegotiated, so callers must re-query them. Rebuilding
    /// with the definition the swapchain already has leaves the format
    /// unchanged. On failure the swapchain is left exactly as it was.
    pub fn rebuild(&mut self, swapchain_def: &RafxSwapchainDef) -> (r: RafxResult<()>)
        requires
            old(self).wf(),
        ensures
            final(self).wf(),
            final(self).spec_backend() == old(self).spec_backend(),
            r is Ok <==> spec_can_build_swapchain(old(self).spec_backend(), *swapchain_def),
            r is Ok ==> final(self).spec_state() == SwapchainState::spec_built(
                old(self).spec_backend(),
                *swapchain_def,
            ),
            r is Ok && *swapchain_def == old(self).spec_state().swapchain_def
                ==> final(self).spec_state().format == old(self).spec_state().format,
            r matches Err(e) ==> e == spec_swapchain_build_error(
                old(self).spec_backend(),
                *swapchain_def,
            ) && *final(self) == *old(self),
    {
        match self {
            RafxSwapchain::Vk(inner) => inner.swapchain.rebuild_state(swapchain_def),
            RafxSwapchain::Metal(inner) => inner.swapchain.rebuild_state(swapchain_def),
            RafxSwapchain::Gl(inner) => inner.swapchain.rebuild_state(swapchain_def),
            RafxSwapchain::Empty(inner) => inner.swapchain.rebuild_state(swapchain_def),
        }
    }

    /// Record that the surface no longer matches the swapchain (for
    /// example after a window resize): every acquire fails with
    /// `SurfaceOutOfDate` until the swapchain is rebuilt.
    pub fn notify_surface_changed(&mut self)
        requires
            old(self).wf(),
        ensures
            final(self).wf(),
            final(self).spec_backend() == old(self).spec_backend(),
            final(self).spec_state() == (SwapchainState {
                out_of_date: true,
                ..old(self).spec_state()
            }),
    {
        match self {
            RafxSwapchain::Vk(inner) => inner.swapchain.notify_surface_changed(),
            RafxSwapchain::Metal(inner) => inner.swapchain.notify_surface_changed(),
            RafxSwapchain::Gl(inner) => inner.swapchain.notify_surface_changed(),
            RafxSwapchain::Empty(inner) => inner.swapchain.notify_surface_changed(),
        }
    }

    /// Get the underlying vulkan API object. This provides access to any
    /// internally created vulkan objects.
    pub fn vk_swapchain(&self) -> (r: Option<&RafxSwapchainVulkan>)
        ensures
            r is Some <==> self is Vk,
            r matches Some(inner) ==> *inner == self->Vk_0,
    {
        match self {
            RafxSwapchain::Vk(inner) => Some(inner),
            _ => None,
        }
    }

    /// Get the underlying metal API object. This provides access to any
    /// internally created metal objects.
    pub fn metal_swapchain(&self) -> (r: Option<&RafxSwapchainMetal>)
        ensures
            r is Some <==> self is Metal,
            r matches Some(inner) ==> *inner == self->Metal_0,
    {
        match self {
            RafxSwapchain::Metal(inner) => Some(inner),
            _ => None,
        }
    }

    /// Get the underlying gl API object. This provides access to any
    /// internally created gl objects.
    pub fn gl_swapchain(&self) -> (r: Option<&RafxSwapchainGl>)
        ensures
            r is Some <==> self is Gl,
            r matches Some(inner) ==> *inner == self->Gl_0,
    {
        match self {
            RafxSwapchain::Gl(inner) => Some(inner),
            _ => None,
        }
    }

    /// Get the underlying Empty-backend object.
    pub fn empty_swapchain(&self) -> (r: Option<&RafxSwapchainEmpty>)
        ensures
            r is Some <==> self is Empty,
            r matches Some(inner) ==> *inner == self->Empty_0,
    {
        match self {
            RafxSwapchain::Empty(inner) => Some(inner),
            _ => None,
        }
    }

    /// The texture definition acquired images expose (see
    /// `SwapchainState::spec_image_texture_def`).
    fn image_texture_def(&self) -> (r: RafxTextureDef)
        ensures
            r == self.spec_state().spec_image_texture_def(),
    {
        let state = self.state_ref();
        RafxTextureDef {
            extents: RafxExtents3D {
                width: state.swapchain_def.width,
                height: state.swapchain_def.height,
                depth: 1,
            },
            array_length: 1,
            mip_count: 1,
            format: state.format,
            sample_count: RafxSampleCount::SampleCount1,
            resource_type: RafxResourceType {
                render_target_color: true,
                render_target_depth_stencil: false,
                texture_read_write: false,
                uniform_buffer: false,
            },
        }
    }

    /// Advance the wrapped state's cursor (see `SwapchainState::acquire_next`).
    fn acquire_index(&mut self) -> (r: RafxResult<u32>)
        requires
            old(self).wf(),
        ensures
            final(self).wf(),
            final(self).spec_backend() == old(self).spec_backend(),
            old(self).spec_state().out_of_date ==> r == RafxResult::<u32>::Err(
                RafxError::SurfaceOutOfDate,
            ) && *final(self) == *old(self),
            !old(self).spec_state().out_of_date ==> r == RafxResult::<u32>::Ok(
                old(self).spec_state().next_image_index,
            ) && final(self).spec_state() == (SwapchainState {
                next_image_index: ((old(self).spec_state().next_image_index + 1) % (old(
                    self).spec_state().image_count as int)) as u32,
                ..old(self).spec_state()
            }),
    {
        match self {
            RafxSwapchain::Vk(inner) => inner.swapchain.acquire_next(),
            RafxSwapchain::Metal(inner) => inner.swapchain.acquire_next(),
            RafxSwapchain::Gl(inner) => inner.swapchain.acquire_next(),
            RafxSwapchain::Empty(inner) => inner.swapchain.acquire_next(),
        }
    }
}

} // verus!
