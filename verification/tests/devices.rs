//! What instances and devices are created with.

use ash::vk;
use ignis::device::{
    choose_device, choose_families, default_device_score, device_plan, external_device,
    instance_plan, local_memory, queue_allocations, ManagedConfig, MemoryHeap, PhysicalDeviceInfo,
    QueueAllocation, QueueFamilies,
};
use ignis::error::Error;
use ignis::queue::QueueType;

fn physical(device_type: vk::PhysicalDeviceType, local_memory: u64) -> PhysicalDeviceInfo {
    PhysicalDeviceInfo {
        handle: local_memory,
        device_type: device_type.as_raw(),
        local_memory,
        queue_families: vec![7],
    }
}

#[test]
fn local_heaps_are_added_up() {
    let local = vk::MemoryHeapFlags::DEVICE_LOCAL.as_raw();
    let heap = |size: u64, flags: u32| MemoryHeap { size, flags };
    assert_eq!(local_memory(&vec![]), 0);
    assert_eq!(local_memory(&vec![heap(5, local), heap(100, 0), heap(7, local | 2)]), 12);
    assert_eq!(local_memory(&vec![heap(u64::MAX, local), heap(1, local)]), u64::MAX);
}

#[test]
fn configuration_starts_with_its_defaults() {
    let c = ManagedConfig::new("demo", vk::API_VERSION_1_3);
    assert_eq!(c.app_name, "demo");
    assert_eq!(c.app_version, vk::make_api_version(0, 1, 0, 0));
    assert_eq!(c.vulkan_version, vk::API_VERSION_1_3);
    assert!(!c.raytracing);
    assert!(c.instance_extensions.is_empty());
    assert!(c.device_extensions.is_empty());
}

#[test]
fn instance_is_created_from_the_configuration() {
    let c = ManagedConfig::new("demo", vk::API_VERSION_1_2)
        .app_version(9)
        .enable_validation(true)
        .instance_extension("VK_EXT_a");
    let plan = instance_plan(&c, &vec!["VK_KHR_p".to_string()]);
    assert_eq!(plan.app_name, "demo");
    assert_eq!(plan.app_version, 9);
    assert_eq!(plan.engine_name, "Ignis");
    assert_eq!(plan.engine_version, vk::make_api_version(0, 0, 1, 0));
    assert_eq!(plan.api_version, vk::API_VERSION_1_2);
    assert_eq!(plan.layers, vec!["VK_LAYER_KHRONOS_validation"]);
    assert_eq!(plan.extensions, vec!["VK_EXT_a", "VK_KHR_p"]);
    let quiet = instance_plan(&c.enable_validation(false), &vec![]);
    assert!(quiet.layers.is_empty());
}

#[test]
fn discrete_device_is_preferred() {
    let devices = vec![
        physical(vk::PhysicalDeviceType::INTEGRATED_GPU, 900),
        physical(vk::PhysicalDeviceType::DISCRETE_GPU, 100),
        physical(vk::PhysicalDeviceType::CPU, 1000),
    ];
    assert_eq!(default_device_score(&devices), 1);
    assert!(matches!(choose_device(&devices, None), Ok(1)));
    assert!(matches!(choose_device(&devices, Some(2)), Ok(2)));
    assert!(matches!(choose_device(&vec![], None), Err(Error::NoSuitableDevice)));
    assert_eq!(default_device_score(&vec![]), 0);
}

#[test]
fn more_local_memory_breaks_ties() {
    let devices = vec![
        physical(vk::PhysicalDeviceType::DISCRETE_GPU, 100),
        physical(vk::PhysicalDeviceType::DISCRETE_GPU, 300),
        physical(vk::PhysicalDeviceType::DISCRETE_GPU, 200),
    ];
    assert_eq!(default_device_score(&devices), 1);
}

#[test]
fn families_fall_back_to_graphics() {
    assert!(matches!(
        choose_families(&vec![7, 6, 4]),
        Ok(QueueFamilies { graphics: 0, compute: 1, transfer: 2 })
    ));
    assert!(matches!(
        choose_families(&vec![4, 7]),
        Ok(QueueFamilies { graphics: 1, compute: 1, transfer: 0 })
    ));
    assert!(matches!(
        choose_families(&vec![6]),
        Err(Error::NoSuitableQueueFamily(QueueType::Graphics))
    ));
}

#[test]
fn families_are_asked_for_once() {
    assert_eq!(QueueFamilies { graphics: 0, compute: 0, transfer: 0 }.unique(), vec![0]);
    assert_eq!(QueueFamilies { graphics: 0, compute: 2, transfer: 2 }.unique(), vec![0, 2]);
    assert_eq!(QueueFamilies { graphics: 0, compute: 1, transfer: 2 }.unique(), vec![0, 1, 2]);
}

#[test]
fn device_is_created_from_the_configuration() {
    let plain = ManagedConfig::new("demo", vk::API_VERSION_1_1).device_extension("VK_KHR_d");
    match device_plan(&plain, &vec![7, 4], &vec!["VK_KHR_q".to_string()]) {
        Ok(p) => {
            assert_eq!(p.families, vec![0, 1]);
            assert_eq!(p.extensions, vec!["VK_KHR_d", "VK_KHR_q"]);
            assert!(!p.supports_timelines);
            assert!(!p.features.timeline_semaphore);
            assert!(!p.features.ray_tracing_pipeline);
            let queues = queue_allocations(&p, &vec![7, 4], &vec![11, 12]);
            assert_eq!(queues.len(), 2);
            assert_eq!(queues[1].family_index, 1);
            assert_eq!(queues[1].handle, 12);
            assert_eq!(queues[1].capabilities, 4);
        }
        Err(_) => unreachable!(),
    }
    let traced = ManagedConfig::new("demo", vk::API_VERSION_1_2).enable_raytracing(true);
    match device_plan(&traced, &vec![7], &vec![]) {
        Ok(p) => {
            assert!(p.supports_timelines);
            assert!(p.features.acceleration_structure);
            assert!(p.features.buffer_device_address);
            for name in [
                "VK_KHR_ray_tracing_pipeline",
                "VK_KHR_acceleration_structure",
                "VK_KHR_deferred_host_operations",
            ] {
                assert_eq!(p.extensions.iter().filter(|e| *e == name).count(), 2);
            }
        }
        Err(_) => unreachable!(),
    }
    assert!(matches!(
        device_plan(&plain, &vec![4], &vec![]),
        Err(Error::NoSuitableQueueFamily(QueueType::Graphics))
    ));
}

#[test]
fn external_device_needs_a_queue() {
    assert!(matches!(
        external_device(&vec![], vk::API_VERSION_1_3),
        Err(Error::InvalidConfig("at least one queue allocation is required"))
    ));
    let queues =
        vec![QueueAllocation { family_index: 0, queue_index: 0, handle: 1, capabilities: 7 }];
    assert!(matches!(external_device(&queues, vk::API_VERSION_1_1), Ok(false)));
    assert!(matches!(external_device(&queues, vk::API_VERSION_1_2), Ok(true)));
    assert!(matches!(external_device(&queues, vk::make_api_version(0, 2, 0, 0)), Ok(true)));
    assert!(matches!(external_device(&queues, vk::make_api_version(0, 0, 9, 0)), Ok(false)));
}

#[test]
fn other_types_are_told_apart_by_local_memory() {
    let devices = vec![
        physical(vk::PhysicalDeviceType::VIRTUAL_GPU, 100),
        physical(vk::PhysicalDeviceType::CPU, 200),
        physical(vk::PhysicalDeviceType::OTHER, 150),
    ];
    assert_eq!(default_device_score(&devices), 1);
    let devices = vec![
        physical(vk::PhysicalDeviceType::CPU, 900),
        physical(vk::PhysicalDeviceType::INTEGRATED_GPU, 1),
        physical(vk::PhysicalDeviceType::OTHER, 901),
    ];
    assert_eq!(default_device_score(&devices), 1);
}
