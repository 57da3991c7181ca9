use cube_renderer::descriptors::{
    create_descriptor_set_layout, create_descriptor_sets, pool_can_allocate,
    DESCRIPTOR_POOL_CAPACITY,
};
use cube_renderer::error::SetupError;
use cube_renderer::instance::{
    check_device_extension_support, find_queue_families, is_device_suitable, pick_physical_device,
    swapchain_extension_name_bytes, unique_queue_families, DeviceSupportInfo,
    QueueFamilyProperties,
};

fn family(graphics: bool, present: bool) -> QueueFamilyProperties {
    QueueFamilyProperties {
        supports_graphics: graphics,
        supports_present: present,
    }
}

#[test]
fn queue_family_discovery_stops_once_complete() {
    // Family 0 offers graphics only, family 1 both; discovery completes at
    // family 1 and takes it for both slots.
    let families = vec![family(true, false), family(true, true), family(false, true)];
    let indices = find_queue_families(&families);
    assert_eq!(indices.graphics_family, Some(1));
    assert_eq!(indices.present_family, Some(1));
    assert!(indices.is_complete());
}

#[test]
fn queue_family_discovery_may_split_families() {
    let families = vec![family(true, false), family(false, true)];
    let indices = find_queue_families(&families);
    assert_eq!(indices.graphics_family, Some(0));
    assert_eq!(indices.present_family, Some(1));
}

#[test]
fn queue_family_discovery_reports_missing_support() {
    let families = vec![family(false, true), family(false, true)];
    let indices = find_queue_families(&families);
    assert_eq!(indices.graphics_family, None);
    assert!(!indices.is_complete());
}

fn adapter(families: Vec<QueueFamilyProperties>, ext: bool, formats: usize, modes: usize) -> DeviceSupportInfo {
    DeviceSupportInfo {
        queue_families: families,
        swapchain_extension_supported: ext,
        surface_format_count: formats,
        present_mode_count: modes,
    }
}

#[test]
fn first_suitable_adapter_wins() {
    let devices = vec![
        adapter(vec![family(true, true)], false, 1, 1),
        adapter(vec![family(true, true)], true, 1, 1),
        adapter(vec![family(true, true)], true, 4, 4),
    ];
    let (index, indices) = pick_physical_device(&devices).unwrap();
    assert_eq!(index, 1);
    assert_eq!(indices.graphics_family, Some(0));
    assert_eq!(indices.present_family, Some(0));
}

#[test]
fn suitability_requires_all_four_conditions() {
    assert!(is_device_suitable(&adapter(
        vec![family(true, true)],
        true,
        1,
        1
    )));
    assert!(!is_device_suitable(&adapter(
        vec![family(true, false)],
        true,
        1,
        1
    )));
    assert!(!is_device_suitable(&adapter(
        vec![family(true, true)],
        false,
        1,
        1
    )));
    assert!(!is_device_suitable(&adapter(
        vec![family(true, true)],
        true,
        0,
        1
    )));
    assert!(!is_device_suitable(&adapter(
        vec![family(true, true)],
        true,
        1,
        0
    )));
}

#[test]
fn no_suitable_adapter_is_a_hard_error() {
    let devices = vec![adapter(vec![family(true, false)], true, 1, 1)];
    assert_eq!(
        pick_physical_device(&devices),
        Err(SetupError::NoSuitableDevice)
    );
    assert_eq!(
        pick_physical_device(&Vec::new()),
        Err(SetupError::NoSuitableDevice)
    );
}

#[test]
fn each_setup_failure_carries_a_diagnostic() {
    assert_eq!(SetupError::NoSuitableDevice.message(), "no suitable GPU adapter");
    assert_eq!(
        SetupError::NoMatchingMemoryType.message(),
        "no matching memory type"
    );
    assert_eq!(SetupError::NoSupportedFormat.message(), "no supported format");
}

#[test]
fn extension_check_looks_for_the_swapchain_extension() {
    let name = swapchain_extension_name_bytes();
    assert_eq!(name, b"VK_KHR_swapchain".to_vec());

    let with = vec![b"VK_KHR_surface".to_vec(), b"VK_KHR_swapchain".to_vec()];
    assert!(check_device_extension_support(&with));

    let without = vec![b"VK_KHR_surface".to_vec(), b"VK_KHR_swapchain_x".to_vec()];
    assert!(!check_device_extension_support(&without));
    assert!(!check_device_extension_support(&Vec::new()));
}

#[test]
fn logical_device_deduplicates_shared_families() {
    assert_eq!(unique_queue_families(2, 2), vec![2]);
    assert_eq!(unique_queue_families(0, 3), vec![0, 3]);
}

#[test]
fn descriptor_layout_binds_one_uniform_for_the_vertex_stage() {
    let layout = create_descriptor_set_layout();
    assert_eq!(layout.binding, 0);
    assert_eq!(layout.descriptor_count, 1);
    assert!(layout.vertex_stage_visible);
}

#[test]
fn descriptor_sets_bind_each_image_to_its_own_buffer() {
    let writes = create_descriptor_sets(3);
    assert_eq!(writes.len(), 3);
    for (i, w) in writes.iter().enumerate() {
        assert_eq!(w.set_index, i);
        assert_eq!(w.buffer_index, i);
        assert_eq!(w.binding, 0);
        assert_eq!(w.array_element, 0);
        assert_eq!(w.offset, 0);
        assert_eq!(w.range, 192);
    }
}

#[test]
fn pool_exhaustion_is_detected_not_grown_past() {
    assert!(pool_can_allocate(3));
    assert!(pool_can_allocate(DESCRIPTOR_POOL_CAPACITY as usize));
    assert!(!pool_can_allocate(DESCRIPTOR_POOL_CAPACITY as usize + 1));
}
