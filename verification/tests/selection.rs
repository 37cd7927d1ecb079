use vkboot::devices::PhysicalDeviceInfo;
use vkboot::devices::check_physical_device;
use vkboot::devices::pick_physical_device;
use vkboot::errors::BackendError;
use vkboot::queue_family::QueueFamilyProps;
use vkboot::swapchain::Extent2D;
use vkboot::swapchain::PresentMode;
use vkboot::swapchain::SurfaceCapabilities;
use vkboot::swapchain::SurfaceFormat;
use vkboot::swapchain::SwapchainSupport;

fn caps() -> SurfaceCapabilities {
    SurfaceCapabilities {
        min_image_count: 2,
        max_image_count: 8,
        current_extent: Extent2D { width: 800, height: 600 },
        min_image_extent: Extent2D { width: 1, height: 1 },
        max_image_extent: Extent2D { width: 4096, height: 4096 },
        current_transform: 1,
    }
}

fn swapchain_ext() -> Vec<u8> {
    b"VK_KHR_swapchain".to_vec()
}

/// A device passing every suitability check, with the given scoring metric.
fn good_device(score: u32) -> PhysicalDeviceInfo {
    PhysicalDeviceInfo {
        queue_families: vec![QueueFamilyProps { graphics: true, present: true }],
        extensions: vec![swapchain_ext(), b"VK_KHR_maintenance1".to_vec()],
        support: SwapchainSupport {
            capabilities: caps(),
            formats: vec![SurfaceFormat { format: 50, color_space: 0 }],
            present_modes: vec![PresentMode::Fifo],
        },
        max_compute_shared_memory_size: score,
    }
}

#[test]
fn suitable_device_passes_the_check() {
    let required = vec![swapchain_ext()];
    assert!(check_physical_device(&good_device(0), &required).is_ok());
}

#[test]
fn device_without_graphics_family_is_rejected() {
    let mut dev = good_device(0);
    dev.queue_families = vec![QueueFamilyProps { graphics: false, present: true }];
    let required = vec![swapchain_ext()];
    let err = check_physical_device(&dev, &required).unwrap_err();
    assert_eq!(err.0, "Missing required queue families.");
}

#[test]
fn device_without_required_extensions_is_rejected() {
    let mut dev = good_device(0);
    dev.extensions = vec![b"VK_KHR_maintenance1".to_vec()];
    let required = vec![swapchain_ext()];
    let err = check_physical_device(&dev, &required).unwrap_err();
    assert_eq!(err.0, "Missing required device extensions.");
}

#[test]
fn device_with_empty_present_modes_is_rejected() {
    let mut dev = good_device(0);
    dev.support.present_modes = Vec::new();
    let required = vec![swapchain_ext()];
    let err = check_physical_device(&dev, &required).unwrap_err();
    assert_eq!(err.0, "Insufficient swapchain support.");
}

#[test]
fn device_with_empty_format_list_is_rejected() {
    let mut dev = good_device(0);
    dev.support.formats = Vec::new();
    let required = vec![swapchain_ext()];
    let err = check_physical_device(&dev, &required).unwrap_err();
    assert_eq!(err.0, "Insufficient swapchain support.");
}

#[test]
fn selector_skips_unsuitable_device_and_picks_the_suitable_one() {
    // Device A lacks the required extensions; device B satisfies everything.
    let mut a = good_device(1_000_000);
    a.extensions = Vec::new();
    let b = good_device(1);
    let required = vec![swapchain_ext()];
    let picked = pick_physical_device(&vec![a, b], &required).unwrap();
    assert_eq!(picked, 1);
}

#[test]
fn selector_skips_device_without_graphics_family_without_aborting() {
    let mut a = good_device(1_000_000);
    a.queue_families = vec![QueueFamilyProps { graphics: false, present: true }];
    let b = good_device(2);
    let required = vec![swapchain_ext()];
    let picked = pick_physical_device(&vec![a, b], &required).unwrap();
    assert_eq!(picked, 1);
}

#[test]
fn selector_prefers_the_greater_metric() {
    let required = vec![swapchain_ext()];
    let picked =
        pick_physical_device(&vec![good_device(16), good_device(64), good_device(32)], &required)
            .unwrap();
    assert_eq!(picked, 1);
}

#[test]
fn selector_keeps_the_first_among_equal_metrics() {
    let required = vec![swapchain_ext()];
    let picked =
        pick_physical_device(&vec![good_device(8), good_device(64), good_device(64)], &required)
            .unwrap();
    assert_eq!(picked, 1);
}

#[test]
fn selector_fails_on_an_empty_enumeration() {
    let required = vec![swapchain_ext()];
    let err = pick_physical_device(&Vec::new(), &required).unwrap_err();
    assert_eq!(err, BackendError::NoSuitableDevice);
}

#[test]
fn selector_fails_when_no_device_is_suitable() {
    let mut a = good_device(4);
    a.support.present_modes = Vec::new();
    let mut b = good_device(8);
    b.extensions = Vec::new();
    let required = vec![swapchain_ext()];
    let err = pick_physical_device(&vec![a, b], &required).unwrap_err();
    assert_eq!(err, BackendError::NoSuitableDevice);
}
