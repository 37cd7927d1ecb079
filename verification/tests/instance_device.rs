use vkboot::devices::plan_logical_device;
use vkboot::devices::unique_queue_families;
use vkboot::errors::BackendError;
use vkboot::instance::InstanceConfig;
use vkboot::instance::plan_instance;
use vkboot::instance::portability_required;
use vkboot::queue_family::QueueFamilyIndices;

fn validation_layer() -> Vec<u8> {
    b"VK_LAYER_KHRONOS_validation".to_vec()
}

fn config(validation_enabled: bool, portability_platform: bool) -> InstanceConfig {
    InstanceConfig {
        window_extensions: vec![b"VK_KHR_surface".to_vec(), b"VK_KHR_xlib_surface".to_vec()],
        validation_enabled,
        validation_layer: validation_layer(),
        debug_utils_extension: b"VK_EXT_debug_utils".to_vec(),
        properties2_extension: b"VK_KHR_get_physical_device_properties2".to_vec(),
        portability_enumeration_extension: b"VK_KHR_portability_enumeration".to_vec(),
        portability_platform,
        loaded_api_version: 4_206_808,
        portability_min_version: 4_206_808,
    }
}

#[test]
fn requested_but_unavailable_validation_layer_is_fatal() {
    let available: Vec<Vec<u8>> = vec![b"VK_LAYER_other".to_vec()];
    let err = plan_instance(&config(true, false), &available).unwrap_err();
    assert_eq!(err, BackendError::ValidationLayerUnavailable);
}

#[test]
fn validation_adds_the_debug_extension_and_layer() {
    let available = vec![validation_layer()];
    let plan = plan_instance(&config(true, false), &available).unwrap();
    assert_eq!(
        plan.extensions,
        vec![
            b"VK_KHR_surface".to_vec(),
            b"VK_KHR_xlib_surface".to_vec(),
            b"VK_EXT_debug_utils".to_vec(),
        ]
    );
    assert_eq!(plan.layers, vec![validation_layer()]);
    assert!(plan.attach_debug_messenger);
    assert!(!plan.enumerate_portability);
}

#[test]
fn without_validation_only_window_extensions_are_requested() {
    let available: Vec<Vec<u8>> = Vec::new();
    let plan = plan_instance(&config(false, false), &available).unwrap();
    assert_eq!(
        plan.extensions,
        vec![b"VK_KHR_surface".to_vec(), b"VK_KHR_xlib_surface".to_vec()]
    );
    assert!(plan.layers.is_empty());
    assert!(!plan.attach_debug_messenger);
}

#[test]
fn portability_platform_appends_the_portability_extensions() {
    let available: Vec<Vec<u8>> = Vec::new();
    let plan = plan_instance(&config(false, true), &available).unwrap();
    assert_eq!(
        plan.extensions,
        vec![
            b"VK_KHR_surface".to_vec(),
            b"VK_KHR_xlib_surface".to_vec(),
            b"VK_KHR_get_physical_device_properties2".to_vec(),
            b"VK_KHR_portability_enumeration".to_vec(),
        ]
    );
    assert!(plan.enumerate_portability);
}

#[test]
fn portability_requires_the_minimum_loaded_version() {
    assert!(portability_required(true, 100, 100));
    assert!(portability_required(true, 101, 100));
    assert!(!portability_required(true, 99, 100));
    assert!(!portability_required(false, 100, 100));
}

#[test]
fn old_loader_on_portability_platform_skips_the_workaround() {
    let mut cfg = config(false, true);
    cfg.loaded_api_version = 4_206_807;
    let available: Vec<Vec<u8>> = Vec::new();
    let plan = plan_instance(&cfg, &available).unwrap();
    assert_eq!(
        plan.extensions,
        vec![b"VK_KHR_surface".to_vec(), b"VK_KHR_xlib_surface".to_vec()]
    );
    assert!(!plan.enumerate_portability);
}

#[test]
fn equal_indices_deduplicate_to_one_family() {
    let indices = QueueFamilyIndices { graphics: 3, present: 3 };
    assert_eq!(unique_queue_families(&indices), vec![3]);
}

#[test]
fn differing_indices_keep_both_families() {
    let indices = QueueFamilyIndices { graphics: 3, present: 5 };
    assert_eq!(unique_queue_families(&indices), vec![3, 5]);
}

#[test]
fn device_plan_produces_one_descriptor_for_a_shared_family() {
    let indices = QueueFamilyIndices { graphics: 2, present: 2 };
    let required = vec![b"VK_KHR_swapchain".to_vec()];
    let plan = plan_logical_device(&indices, false, &validation_layer(), &required, false, &b"VK_KHR_portability_subset".to_vec());
    assert_eq!(plan.queue_create.len(), 1);
    assert_eq!(plan.queue_create[0].queue_family_index, 2);
    assert_eq!(plan.queue_create[0].queue_count, 1);
    assert!(plan.layers.is_empty());
    assert_eq!(plan.extensions, required);
    assert_eq!(plan.graphics_queue_family, 2);
    assert_eq!(plan.present_queue_family, 2);
}

#[test]
fn device_plan_produces_two_descriptors_for_distinct_families() {
    let indices = QueueFamilyIndices { graphics: 0, present: 4 };
    let required = vec![b"VK_KHR_swapchain".to_vec()];
    let plan = plan_logical_device(&indices, true, &validation_layer(), &required, false, &b"VK_KHR_portability_subset".to_vec());
    assert_eq!(plan.queue_create.len(), 2);
    assert_eq!(plan.queue_create[0].queue_family_index, 0);
    assert_eq!(plan.queue_create[1].queue_family_index, 4);
    assert_eq!(plan.layers, vec![validation_layer()]);
}

#[test]
fn device_plan_appends_the_portability_subset_extension() {
    let indices = QueueFamilyIndices { graphics: 0, present: 0 };
    let required = vec![b"VK_KHR_swapchain".to_vec()];
    let plan = plan_logical_device(&indices, false, &validation_layer(), &required, true, &b"VK_KHR_portability_subset".to_vec());
    assert_eq!(
        plan.extensions,
        vec![b"VK_KHR_swapchain".to_vec(), b"VK_KHR_portability_subset".to_vec()]
    );
}
