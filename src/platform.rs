//! The windowing platforms a surface can be made for, and what each needs.
use vstd::prelude::*;

use crate::config::names_view;
use crate::error::VkError;
use crate::vulkan::{
    metal_surface_extension, metal_surface_extension_name, surface_extension, surface_extension_name,
    win32_surface_extension, win32_surface_extension_name, xlib_surface_extension,
    xlib_surface_extension_name,
};

verus! {

/// The surface provider a build uses; the host picks it for its target.
#[derive(Clone, Copy, Debug, PartialEq, Eq, Structural)]
pub enum Platform {
    X11,
    Win32,
    MacOs,
}

/// A native window as the host hands it over: addresses are kept as integers and
/// are only read, never owned.
#[derive(Clone, Copy, Debug, PartialEq, Eq, Structural)]
pub enum NativeWindow {
    /// An Xlib display connection and a window id on it.
    X11 { display: usize, window: u64 },
    /// A Win32 window handle and its module instance.
    Win32 { hwnd: usize, hinstance: usize },
    /// A Core Animation layer backing a view.
    MacOs { layer: usize },
}

/// The instance extensions that a surface on `p` needs.
pub open spec fn platform_extensions(p: Platform) -> Seq<Seq<char>> {
    match p {
        Platform::X11 => seq![surface_extension(), xlib_surface_extension()],
        Platform::Win32 => seq![surface_extension(), win32_surface_extension()],
        Platform::MacOs => seq![surface_extension(), metal_surface_extension()],
    }
}

/// The window belongs to platform `p` and its handle is not null.
pub open spec fn window_usable(p: Platform, w: NativeWindow) -> bool {
    match (p, w) {
        (Platform::X11, NativeWindow::X11 { display, .. }) => display != 0,
        (Platform::Win32, NativeWindow::Win32 { hwnd, .. }) => hwnd != 0,
        (Platform::MacOs, NativeWindow::MacOs { layer }) => layer != 0,
        _ => false,
    }
}

/// The instance extensions that surface creation on `platform` needs.
pub fn required_extensions_for_platform(platform: Platform) -> (r: Vec<String>)
    ensures
        names_view(r@) == platform_extensions(platform),
{
    let mut r: Vec<String> = Vec::new();
    r.push(surface_extension_name());
    match platform {
        Platform::X11 => r.push(xlib_surface_extension_name()),
        Platform::Win32 => r.push(win32_surface_extension_name()),
        Platform::MacOs => r.push(metal_surface_extension_name()),
    }
    assert(names_view(r@) =~= platform_extensions(platform));
    r
}

/// Rejects a window of another platform, or one whose handle is null, before any
/// driver object is made for it.
pub fn check_window(platform: Platform, window: &NativeWindow) -> (r: Result<(), VkError>)
    ensures
        r is Ok <==> window_usable(platform, *window),
        r is Err ==> r == Err::<(), VkError>(VkError::InvalidWindowHandle),
{
    let usable = match (platform, *window) {
        (Platform::X11, NativeWindow::X11 { display, .. }) => display != 0,
        (Platform::Win32, NativeWindow::Win32 { hwnd, .. }) => hwnd != 0,
        (Platform::MacOs, NativeWindow::MacOs { layer }) => layer != 0,
        _ => false,
    };
    if usable {
        Ok(())
    } else {
        Err(VkError::InvalidWindowHandle)
    }
}

} // verus!
