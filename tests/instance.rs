use vk_context::config::VkConfig;
use vk_context::error::VkError;
use vk_context::instance::{check_version, instance_extensions, instance_layers, requested_api_version, version_supported};
use vk_context::platform::{check_window, required_extensions_for_platform, NativeWindow, Platform};

fn names(list: &[&str]) -> Vec<String> {
    list.iter().map(|s| s.to_string()).collect()
}

fn with_minimum(major: u8, minor: u8) -> VkConfig {
    VkConfig { minimum_version: (major, minor), ..VkConfig::default() }
}

#[test]
fn default_config_values() {
    let c = VkConfig::default();
    assert_eq!(c.minimum_version, (1, 2));
    assert!(!c.request_validation_layers);
    assert!(c.use_default_debug_messenger);
    assert!(!c.required_dedicated_transfer_queue);
    assert_eq!(c.required_device_extensions, names(&["VK_KHR_swapchain", "VK_KHR_surface"]));
    let d = c.clone();
    assert_eq!(d.minimum_version, c.minimum_version);
    assert_eq!(d.required_device_extensions, c.required_device_extensions);
}

#[test]
fn version_comparison() {
    let v = |major, minor, patch| ash::vk::make_api_version(0, major, minor, patch);
    assert!(version_supported(v(1, 3, 0), (1, 2)));
    assert!(version_supported(v(1, 2, 0), (1, 2)));
    assert!(version_supported(v(2, 0, 0), (1, 2)));
    assert!(!version_supported(v(1, 1, 250), (1, 2)));
    assert!(!version_supported(v(0, 9, 0), (1, 0)));
}

#[test]
fn version_below_minimum_is_rejected() {
    let reported = ash::vk::make_api_version(0, 1, 1, 0);
    assert_eq!(check_version(&with_minimum(1, 2), reported), Err(VkError::VersionNotSupported));
    assert_eq!(check_version(&with_minimum(1, 1), reported), Ok(()));
    assert_eq!(check_version(&with_minimum(2, 0), ash::vk::make_api_version(0, 1, 3, 0)), Err(VkError::VersionNotSupported));
}

#[test]
fn requested_version_is_the_minimum() {
    assert_eq!(requested_api_version(&with_minimum(1, 2)), ash::vk::API_VERSION_1_2);
    assert_eq!(requested_api_version(&with_minimum(1, 0)), 1 << 22);
    assert_eq!(requested_api_version(&with_minimum(1, 3)), 4206592);
}

#[test]
fn instance_extensions_add_debug_utils_once() {
    let required = names(&["VK_KHR_surface", "VK_KHR_xlib_surface"]);
    let mut c = VkConfig::default();
    assert_eq!(
        instance_extensions(&c, &required),
        names(&["VK_KHR_surface", "VK_KHR_xlib_surface", "VK_EXT_debug_utils"])
    );
    let already = names(&["VK_EXT_debug_utils", "VK_KHR_surface"]);
    assert_eq!(instance_extensions(&c, &already), already);
    c.use_default_debug_messenger = false;
    assert_eq!(instance_extensions(&c, &required), required);
    assert_eq!(instance_extensions(&c, &Vec::new()), Vec::<String>::new());
}

#[test]
fn validation_layer_only_when_requested() {
    let mut c = VkConfig::default();
    assert!(instance_layers(&c).is_empty());
    c.request_validation_layers = true;
    assert_eq!(instance_layers(&c), names(&["VK_LAYER_KHRONOS_validation"]));
}

#[test]
fn platform_extension_lists() {
    assert_eq!(required_extensions_for_platform(Platform::X11), names(&["VK_KHR_surface", "VK_KHR_xlib_surface"]));
    assert_eq!(required_extensions_for_platform(Platform::Win32), names(&["VK_KHR_surface", "VK_KHR_win32_surface"]));
    assert_eq!(required_extensions_for_platform(Platform::MacOs), names(&["VK_KHR_surface", "VK_EXT_metal_surface"]));
}

#[test]
fn null_display_is_invalid_window_handle() {
    let w = NativeWindow::X11 { display: 0, window: 42 };
    assert_eq!(check_window(Platform::X11, &w), Err(VkError::InvalidWindowHandle));
    let w = NativeWindow::X11 { display: 0x1000, window: 42 };
    assert_eq!(check_window(Platform::X11, &w), Ok(()));
}

#[test]
fn window_of_another_platform_is_invalid() {
    let w = NativeWindow::Win32 { hwnd: 0x10, hinstance: 0x20 };
    assert_eq!(check_window(Platform::X11, &w), Err(VkError::InvalidWindowHandle));
    assert_eq!(check_window(Platform::Win32, &w), Ok(()));
    assert_eq!(check_window(Platform::Win32, &NativeWindow::Win32 { hwnd: 0, hinstance: 0x20 }), Err(VkError::InvalidWindowHandle));
    assert_eq!(check_window(Platform::MacOs, &NativeWindow::MacOs { layer: 0 }), Err(VkError::InvalidWindowHandle));
    assert_eq!(check_window(Platform::MacOs, &NativeWindow::MacOs { layer: 8 }), Ok(()));
}
