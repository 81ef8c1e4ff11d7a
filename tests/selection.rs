use vk_context::config::VkConfig;
use vk_context::device::{device_extensions, plan_device, QueueAllocation, QueueRole};
use vk_context::error::VkError;
use vk_context::selection::{
    contains_name, find_present_family, find_transfer_family, offers_all_names, select_device, DeviceProfile,
    QueueFamilyProfile, Selection,
};
use vk_context::vulkan::{QUEUE_COMPUTE, QUEUE_GRAPHICS, QUEUE_TRANSFER};

fn family(flags: u32, presents: bool) -> QueueFamilyProfile {
    QueueFamilyProfile { flags, queue_count: 1, presents }
}

fn names(list: &[&str]) -> Vec<String> {
    list.iter().map(|s| s.to_string()).collect()
}

fn device(families: Vec<QueueFamilyProfile>, extensions: &[&str]) -> DeviceProfile {
    DeviceProfile { queue_families: families, extensions: names(extensions) }
}

fn config(dedicated: bool, required: &[&str]) -> VkConfig {
    VkConfig {
        minimum_version: (1, 0),
        request_validation_layers: false,
        use_default_debug_messenger: false,
        required_dedicated_transfer_queue: dedicated,
        required_device_extensions: names(required),
    }
}

#[test]
fn flag_constants_match_ash() {
    assert_eq!(QUEUE_GRAPHICS, ash::vk::QueueFlags::GRAPHICS.as_raw());
    assert_eq!(QUEUE_COMPUTE, ash::vk::QueueFlags::COMPUTE.as_raw());
    assert_eq!(QUEUE_TRANSFER, ash::vk::QueueFlags::TRANSFER.as_raw());
}

#[test]
fn empty_enumeration_is_no_physical_devices() {
    let r = select_device(&Vec::new(), &config(false, &[]));
    assert_eq!(r, Err(VkError::NoPhysicalDevices));
}

#[test]
fn no_graphics_present_family_is_no_suitable_device() {
    let devices = vec![
        // graphics without presentation, presentation without graphics
        device(vec![family(QUEUE_GRAPHICS, false), family(QUEUE_TRANSFER, true)], &[]),
        device(vec![family(QUEUE_COMPUTE | QUEUE_TRANSFER, true)], &[]),
    ];
    assert_eq!(select_device(&devices, &config(false, &[])), Err(VkError::NoSuitableDevice));
    assert_eq!(select_device(&devices, &config(true, &[])), Err(VkError::NoSuitableDevice));
}

#[test]
fn first_suitable_device_and_lowest_family_win() {
    let devices = vec![
        device(vec![family(QUEUE_TRANSFER, true)], &[]),
        device(vec![family(QUEUE_COMPUTE, true), family(QUEUE_GRAPHICS, true), family(QUEUE_GRAPHICS, true)], &[]),
        device(vec![family(QUEUE_GRAPHICS, true)], &[]),
    ];
    let r = select_device(&devices, &config(false, &[]));
    assert_eq!(r, Ok(Selection { device_index: 1, graphics_family: 1, transfer_family: 1 }));
    // the same input always gives the same answer
    assert_eq!(select_device(&devices, &config(false, &[])), r);
}

#[test]
fn dedicated_transfer_family_is_preferred() {
    let devices = vec![device(vec![family(QUEUE_GRAPHICS | QUEUE_TRANSFER, true), family(QUEUE_TRANSFER, false)], &[])];
    let r = select_device(&devices, &config(true, &[]));
    assert_eq!(r, Ok(Selection { device_index: 0, graphics_family: 0, transfer_family: 1 }));
}

#[test]
fn transfer_falls_back_to_graphics_family() {
    let devices = vec![device(vec![family(QUEUE_GRAPHICS | QUEUE_TRANSFER, true), family(QUEUE_COMPUTE, false)], &[])];
    let r = select_device(&devices, &config(true, &[]));
    assert_eq!(r, Ok(Selection { device_index: 0, graphics_family: 0, transfer_family: 0 }));
}

#[test]
fn no_dedicated_transfer_when_not_wanted() {
    let devices = vec![device(vec![family(QUEUE_GRAPHICS, true), family(QUEUE_TRANSFER, false)], &[])];
    let r = select_device(&devices, &config(false, &[]));
    assert_eq!(r, Ok(Selection { device_index: 0, graphics_family: 0, transfer_family: 0 }));
}

#[test]
fn device_missing_an_extension_is_skipped() {
    let devices = vec![
        device(vec![family(QUEUE_GRAPHICS, true)], &["VK_KHR_swapchain"]),
        device(vec![family(QUEUE_GRAPHICS, false), family(QUEUE_GRAPHICS, true)], &["VK_KHR_maintenance1", "VK_KHR_swapchain"]),
    ];
    let r = select_device(&devices, &config(false, &["VK_KHR_swapchain", "VK_KHR_maintenance1"]));
    assert_eq!(r, Ok(Selection { device_index: 1, graphics_family: 1, transfer_family: 1 }));
    let only_first = vec![device(vec![family(QUEUE_GRAPHICS, true)], &["VK_KHR_swapchain"])];
    assert_eq!(
        select_device(&only_first, &config(false, &["VK_KHR_maintenance1"])),
        Err(VkError::NoSuitableDevice)
    );
}

#[test]
fn default_config_rejects_device_without_its_extensions() {
    let devices = vec![device(vec![family(QUEUE_GRAPHICS, true)], &["VK_KHR_swapchain"])];
    assert_eq!(select_device(&devices, &VkConfig::default()), Err(VkError::NoSuitableDevice));
    let devices = vec![device(vec![family(QUEUE_GRAPHICS, true)], &["VK_KHR_surface", "VK_KHR_swapchain"])];
    assert!(select_device(&devices, &VkConfig::default()).is_ok());
}

#[test]
fn family_searches() {
    let fams = vec![family(QUEUE_TRANSFER, false), family(QUEUE_GRAPHICS | QUEUE_TRANSFER, true), family(QUEUE_TRANSFER, true)];
    assert_eq!(find_present_family(&fams), Some(1));
    assert_eq!(find_transfer_family(&fams, 0), Some(1));
    assert_eq!(find_transfer_family(&fams, 1), Some(0));
    assert_eq!(find_present_family(&vec![family(QUEUE_GRAPHICS, false)]), None);
    assert_eq!(find_transfer_family(&vec![family(QUEUE_TRANSFER, true)], 0), None);
}

#[test]
fn name_lookups() {
    let offered = names(&["a", "bc"]);
    assert!(contains_name(&offered, &"bc".to_string()));
    assert!(!contains_name(&offered, &"b".to_string()));
    assert!(offers_all_names(&offered, &names(&["bc", "a"])));
    assert!(offers_all_names(&offered, &names(&[])));
    assert!(!offers_all_names(&offered, &names(&["a", "d"])));
}

#[test]
fn plan_with_shared_family_requests_it_once() {
    let s = Selection { device_index: 0, graphics_family: 2, transfer_family: 2 };
    let plan = plan_device(&s, &config(false, &["VK_KHR_swapchain"]));
    assert_eq!(plan.queue_families, vec![2]);
    assert_eq!(
        plan.allocations,
        vec![
            QueueAllocation { family_index: 2, role: QueueRole::Graphics },
            QueueAllocation { family_index: 2, role: QueueRole::Transfer },
        ]
    );
    assert_eq!(plan.extensions, names(&["VK_KHR_swapchain"]));
    assert_eq!(plan.family_for(QueueRole::Transfer), Some(2));
    assert_eq!(plan.family_for(QueueRole::VideoDecode), None);
}

#[test]
fn plan_with_dedicated_transfer_requests_both() {
    let s = Selection { device_index: 3, graphics_family: 0, transfer_family: 1 };
    let plan = plan_device(&s, &config(true, &[]));
    assert_eq!(plan.queue_families, vec![0, 1]);
    assert_eq!(plan.family_for(QueueRole::Graphics), Some(0));
    assert_eq!(plan.family_for(QueueRole::Transfer), Some(1));
    assert_eq!(plan.extensions, names(&["VK_KHR_swapchain"]));
}

#[test]
fn device_extensions_add_swapchain() {
    assert_eq!(device_extensions(&config(false, &["VK_KHR_maintenance1"])), names(&["VK_KHR_maintenance1", "VK_KHR_swapchain"]));
    assert_eq!(device_extensions(&VkConfig::default()), names(&["VK_KHR_swapchain", "VK_KHR_surface"]));
}
