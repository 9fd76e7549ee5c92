//! A backend-polymorphic graphics device abstraction.
//!
//! The crate exposes a uniform contract over a closed set of graphics
//! backends (Vulkan, Metal, GL and a no-op Empty backend for headless use):
//! device contexts, resource creation with validated definitions, swapchain
//! acquisition and rebuild, and fence/semaphore synchronization.

pub mod caps;
pub mod defs;
pub mod device_context;
pub mod error;
pub mod render_contexts;
pub mod render_options;
pub mod resources;
pub mod swapchain;
pub mod sync;
pub mod tracking;
pub mod types;

pub use error::{RafxError, RafxResult};
