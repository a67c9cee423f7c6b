use vkrust::vk_select::{
    choose_device_queues, default_device_settings, default_instance_settings, find_memory_type, gpu_only_memory, gpu_to_cpu_memory, staging_memory,
    unavailable_names, MemoryHeap, MemoryType, QueueFamily, VK_MEMORY_PROPERTY_DEVICE_LOCAL_BIT,
    VK_MEMORY_PROPERTY_HOST_CACHED_BIT, VK_MEMORY_PROPERTY_HOST_COHERENT_BIT,
    VK_MEMORY_PROPERTY_HOST_VISIBLE_BIT, VK_QUEUE_COMPUTE_BIT, VK_QUEUE_GRAPHICS_BIT,
    VK_QUEUE_TRANSFER_BIT,
};

fn memory(flags: &[u32]) -> (Vec<MemoryType>, Vec<MemoryHeap>) {
    let types = flags.iter().map(|f| MemoryType { property_flags: *f, heap_index: 0 }).collect();
    (types, vec![MemoryHeap { size: 1 << 30, flags: 1 }])
}

fn family(queue_flags: u32, supports_present: bool) -> QueueFamily {
    QueueFamily { queue_flags, supports_present }
}

#[test]
fn memory_type_lookup() {
    let m = memory(&[
        VK_MEMORY_PROPERTY_DEVICE_LOCAL_BIT,
        VK_MEMORY_PROPERTY_HOST_VISIBLE_BIT | VK_MEMORY_PROPERTY_HOST_COHERENT_BIT,
        VK_MEMORY_PROPERTY_HOST_VISIBLE_BIT,
    ]);
    assert_eq!(find_memory_type(&m, VK_MEMORY_PROPERTY_HOST_VISIBLE_BIT), Some(1));
    assert_eq!(find_memory_type(&m, VK_MEMORY_PROPERTY_HOST_CACHED_BIT), None);
    assert_eq!(staging_memory(&m), 1);
    assert_eq!(gpu_only_memory(&m), 0);
    assert_eq!(gpu_to_cpu_memory(&m), 1);
}

#[test]
fn host_cached_memory_serves_read_back() {
    let m = memory(&[VK_MEMORY_PROPERTY_DEVICE_LOCAL_BIT, VK_MEMORY_PROPERTY_HOST_CACHED_BIT]);
    assert_eq!(gpu_to_cpu_memory(&m), 1);
    assert_eq!(find_memory_type(&memory(&[]), VK_MEMORY_PROPERTY_DEVICE_LOCAL_BIT), None);
}

#[test]
fn first_suitable_device_is_chosen() {
    let all = VK_QUEUE_GRAPHICS_BIT | VK_QUEUE_COMPUTE_BIT | VK_QUEUE_TRANSFER_BIT;
    let devices = vec![
        // Can draw but not present.
        vec![family(all, false)],
        vec![family(all, true), family(VK_QUEUE_COMPUTE_BIT, false), family(VK_QUEUE_TRANSFER_BIT, false)],
        vec![family(all, true)],
    ];
    let s = choose_device_queues(&devices);
    assert_eq!(s.physical_device, 1);
    assert_eq!(s.queue_family_indices, vec![0, 1, 2]);
}

#[test]
fn repeated_families_are_merged() {
    let all = VK_QUEUE_GRAPHICS_BIT | VK_QUEUE_COMPUTE_BIT | VK_QUEUE_TRANSFER_BIT;
    let s = choose_device_queues(&vec![vec![family(all, true)]]);
    assert_eq!(s.physical_device, 0);
    assert_eq!(s.queue_family_indices, vec![0]);
    let s = choose_device_queues(&vec![vec![
        family(VK_QUEUE_GRAPHICS_BIT, true),
        family(VK_QUEUE_COMPUTE_BIT | VK_QUEUE_TRANSFER_BIT, false),
    ]]);
    assert_eq!(s.queue_family_indices, vec![0, 1]);
    // Only consecutive repeats are merged.
    let s = choose_device_queues(&vec![vec![
        family(all, true),
        family(VK_QUEUE_COMPUTE_BIT, false),
    ]]);
    assert_eq!(s.queue_family_indices, vec![0, 1, 0]);
}

#[test]
fn unavailable_layers_are_reported_in_order() {
    let requested = vec!["b".to_string(), "non_existant_layer".to_string(), "a".to_string(), "zz".to_string()];
    let available = vec!["a".to_string(), "b".to_string()];
    assert_eq!(
        unavailable_names(&requested, &available),
        vec!["non_existant_layer".to_string(), "zz".to_string()]
    );
    assert!(unavailable_names(&vec![], &available).is_empty());
}

#[test]
fn default_instance_layers_and_extensions() {
    let debug_unix = default_instance_settings(true, false, true);
    assert_eq!(debug_unix.layers, vec!["VK_LAYER_LUNARG_standard_validation".to_string()]);
    assert_eq!(
        debug_unix.extensions,
        vec![
            "VK_EXT_debug_report".to_string(),
            "VK_KHR_surface".to_string(),
            "VK_KHR_xcb_surface".to_string(),
            "VK_KHR_display".to_string(),
        ]
    );
    assert_eq!(debug_unix.application_name, "rust vulkan application");
    let release_windows = default_instance_settings(false, true, false);
    assert!(release_windows.layers.is_empty());
    assert_eq!(
        release_windows.extensions,
        vec!["VK_KHR_surface".to_string(), "VK_KHR_win32_surface".to_string(), "VK_KHR_display".to_string()]
    );
}

#[test]
fn default_device_layers_and_extensions() {
    let (layers, extensions) = default_device_settings(false);
    assert!(layers.is_empty());
    assert_eq!(extensions, vec!["VK_KHR_swapchain".to_string()]);
    let (layers, _) = default_device_settings(true);
    assert_eq!(layers, vec!["VK_LAYER_LUNARG_standard_validation".to_string()]);
}
