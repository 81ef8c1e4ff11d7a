use vstd::prelude::*;

verus! {

/// Why a context could not be brought up. Each kind is terminal for one bootstrap
/// attempt; the driver's own result code is kept where the driver refused a call.
#[derive(Clone, Copy, Debug, PartialEq, Eq, Structural)]
pub enum VkError {
    /// The native window handle is null or belongs to another windowing platform.
    InvalidWindowHandle,
    /// The runtime reports an API version below the requested minimum.
    VersionNotSupported,
    /// The driver refused to create the instance (or its debug messenger).
    InstanceCreationFailed(i32),
    /// The instance exposes no physical device at all.
    NoPhysicalDevices,
    /// No physical device can both draw and present to the surface with the
    /// required extensions.
    NoSuitableDevice,
    /// The driver refused to create the logical device.
    DeviceCreationFailed(i32),
}

} // verus!
