//! Bootstrap logic for a Vulkan context bound to a native window: capability
//! negotiation, platform surface requirements, physical-device and queue-family
//! selection, logical-device planning and the ordered lifecycle of the driver
//! objects. The driver calls themselves are made by the host; this crate decides
//! what to create, in which order, and what to tear down.
pub mod config;
pub mod device;
pub mod error;
pub mod instance;
pub mod laws;
pub mod lifecycle;
pub mod platform;
pub mod selection;
pub mod vulkan;
