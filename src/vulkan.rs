//! The items of `ash` that the bootstrap logic relies on, each with the contract
//! that ash's source gives it.
use vstd::prelude::*;

verus! {

/// Name of the core presentation extension, `VK_KHR_surface`.
pub open spec fn surface_extension() -> Seq<char> {
    "VK_KHR_surface"@
}

/// Name of the swapchain device extension, `VK_KHR_swapchain`.
pub open spec fn swapchain_extension() -> Seq<char> {
    "VK_KHR_swapchain"@
}

/// `VK_QUEUE_GRAPHICS_BIT`: the family can record draw commands.
pub const QUEUE_GRAPHICS: u32 = 0x1;

/// `VK_QUEUE_COMPUTE_BIT`: the family can dispatch compute work.
pub const QUEUE_COMPUTE: u32 = 0x2;

/// `VK_QUEUE_TRANSFER_BIT`: the family can run copy commands.
pub const QUEUE_TRANSFER: u32 = 0x4;

/// Every bit of `required` is set in `flags`.
pub open spec fn has_flags(flags: u32, required: u32) -> bool {
    flags & required == required
}

/// Relies on ash's `vk::QueueFlags::contains` (with `from_raw` to carry the bits):
/// true when every bit of `required` is set in `flags`.
#[verifier::external_body]
pub(crate) fn queue_flags_contain(flags: u32, required: u32) -> (r: bool)
    ensures
        r == has_flags(flags, required),
{
    ash::vk::QueueFlags::from_raw(flags).contains(ash::vk::QueueFlags::from_raw(required))
}

/// Name of the X11 (Xlib) surface extension, `VK_KHR_xlib_surface`.
pub open spec fn xlib_surface_extension() -> Seq<char> {
    "VK_KHR_xlib_surface"@
}

/// Name of the Win32 surface extension, `VK_KHR_win32_surface`.
pub open spec fn win32_surface_extension() -> Seq<char> {
    "VK_KHR_win32_surface"@
}

/// Name of the Metal layer surface extension, `VK_EXT_metal_surface`.
pub open spec fn metal_surface_extension() -> Seq<char> {
    "VK_EXT_metal_surface"@
}

/// Name of the debug utilities instance extension, `VK_EXT_debug_utils`.
pub open spec fn debug_utils_extension() -> Seq<char> {
    "VK_EXT_debug_utils"@
}

/// Major number of a packed API version.
pub open spec fn version_major(version: u32) -> u32 {
    (version >> 22u32) & 0x7fu32
}

/// Minor number of a packed API version.
pub open spec fn version_minor(version: u32) -> u32 {
    (version >> 12u32) & 0x3ffu32
}

/// Relies on ash's `vk::api_version_major`, which reads bits 22 to 28.
pub assume_specification[ ash::vk::api_version_major ](version: u32) -> (r: u32)
    ensures
        r == version_major(version),
;

/// Relies on ash's `vk::api_version_minor`, which reads bits 12 to 21.
pub assume_specification[ ash::vk::api_version_minor ](version: u32) -> (r: u32)
    ensures
        r == version_minor(version),
;

/// Relies on ash's `vk::make_api_version`, which packs the four numbers by shifts.
pub assume_specification[ ash::vk::make_api_version ](variant: u32, major: u32, minor: u32, patch: u32) -> (r: u32)
    ensures
        r == (variant << 29u32) | (major << 22u32) | (minor << 12u32) | patch,
;

/// Relies on ash's `khr::XlibSurface::name`, the static name of the Xlib surface extension.
#[verifier::external_body]
pub(crate) fn xlib_surface_extension_name() -> (r: String)
    ensures
        r@ == xlib_surface_extension(),
{
    ash::extensions::khr::XlibSurface::name().to_string_lossy().into_owned()
}

/// Relies on ash's `khr::Win32Surface::name`, the static name of the Win32 surface extension.
#[verifier::external_body]
pub(crate) fn win32_surface_extension_name() -> (r: String)
    ensures
        r@ == win32_surface_extension(),
{
    ash::extensions::khr::Win32Surface::name().to_string_lossy().into_owned()
}

/// Relies on ash's `ext::MetalSurface::name`, the static name of the Metal surface extension.
#[verifier::external_body]
pub(crate) fn metal_surface_extension_name() -> (r: String)
    ensures
        r@ == metal_surface_extension(),
{
    ash::extensions::ext::MetalSurface::name().to_string_lossy().into_owned()
}

/// Relies on ash's `ext::DebugUtils::name`, the static name of the debug utilities extension.
#[verifier::external_body]
pub(crate) fn debug_utils_extension_name() -> (r: String)
    ensures
        r@ == debug_utils_extension(),
{
    ash::extensions::ext::DebugUtils::name().to_string_lossy().into_owned()
}

/// Relies on ash's `khr::Surface::name`, the static name of the surface extension.
#[verifier::external_body]
pub(crate) fn surface_extension_name() -> (r: String)
    ensures
        r@ == surface_extension(),
{
    ash::extensions::khr::Surface::name().to_string_lossy().into_owned()
}

/// Relies on ash's `khr::Swapchain::name`, the static name of the swapchain extension.
#[verifier::external_body]
pub(crate) fn swapchain_extension_name() -> (r: String)
    ensures
        r@ == swapchain_extension(),
{
    ash::extensions::khr::Swapchain::name().to_string_lossy().into_owned()
}

} // verus!
