//! Verified negotiation core for bringing up a GPU rendering backend.
//!
//! The library covers the logic that decides *what* to create: queue-family
//! resolution, physical-device suitability and selection, swapchain parameter
//! negotiation (surface format, present mode, extent, image count, sharing
//! mode), instance/device creation planning, and the strict reverse-order
//! teardown of a partially or fully built backend context.
//!
//! The native graphics API itself is driven by an unverified shell around this
//! library: that shell queries devices and surfaces, hands the results to the
//! functions here as plain values, and executes the plans they return.

pub mod context;
pub mod devices;
pub mod errors;
pub mod instance;
pub mod names;
pub mod queue_family;
pub mod swapchain;
