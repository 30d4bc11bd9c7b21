//! Decision logic for bringing up a hardware-accelerated graphics context.
//!
//! The library covers the parts of context initialization that involve
//! actual decisions: negotiating instance extensions and validation layers,
//! resolving queue families, probing swapchain support, selecting a
//! physical device, planning logical-device creation, classifying
//! diagnostic messages, and ordering teardown. The driver and windowing
//! calls themselves are left to the embedding program, which hands this
//! library the plain values it queried and executes the plans it returns.

pub mod device;
pub mod diagnostics;
pub mod errors;
pub mod extensions;
pub mod lifecycle;
pub mod queue_family;
pub mod suitability;
pub mod swapchain;
pub mod version;
