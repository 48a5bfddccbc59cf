use frame_core::device::{
    find_queue_family, init_device, PhysicalDevice, PhysicalDeviceType, Selection, QUEUE_COMPUTE,
    QUEUE_GRAPHICS,
};

fn device(kind: PhysicalDeviceType, swapchain: bool, families: &[u32]) -> PhysicalDevice {
    PhysicalDevice {
        supports_swapchain: swapchain,
        queue_families: families.to_vec(),
        device_type: kind,
    }
}

const BOTH: u32 = QUEUE_GRAPHICS | QUEUE_COMPUTE;

#[test]
fn the_discrete_device_is_preferred() {
    let devices = vec![
        device(PhysicalDeviceType::Cpu, true, &[BOTH]),
        device(PhysicalDeviceType::IntegratedGpu, true, &[BOTH]),
        device(PhysicalDeviceType::DiscreteGpu, true, &[BOTH]),
        device(PhysicalDeviceType::VirtualGpu, true, &[BOTH]),
    ];
    assert_eq!(init_device(&devices, BOTH), Some(Selection { device: 2, queue_family: 0 }));
}

#[test]
fn kinds_are_preferred_in_their_order() {
    let kinds = [
        PhysicalDeviceType::Unknown,
        PhysicalDeviceType::Other,
        PhysicalDeviceType::Cpu,
        PhysicalDeviceType::VirtualGpu,
        PhysicalDeviceType::IntegratedGpu,
        PhysicalDeviceType::DiscreteGpu,
    ];
    for count in 1..=kinds.len() {
        let devices: Vec<PhysicalDevice> =
            kinds[..count].iter().map(|kind| device(*kind, true, &[BOTH])).collect();
        assert_eq!(
            init_device(&devices, BOTH),
            Some(Selection { device: count - 1, queue_family: 0 })
        );
    }
}

#[test]
fn of_equally_preferred_devices_the_first_is_chosen() {
    let devices = vec![
        device(PhysicalDeviceType::Other, true, &[BOTH]),
        device(PhysicalDeviceType::IntegratedGpu, true, &[0, BOTH]),
        device(PhysicalDeviceType::IntegratedGpu, true, &[BOTH]),
    ];
    assert_eq!(init_device(&devices, BOTH), Some(Selection { device: 1, queue_family: 1 }));
}

#[test]
fn a_device_without_an_image_chain_is_passed_over() {
    let devices = vec![
        device(PhysicalDeviceType::DiscreteGpu, false, &[BOTH]),
        device(PhysicalDeviceType::Cpu, true, &[BOTH]),
    ];
    assert_eq!(init_device(&devices, BOTH), Some(Selection { device: 1, queue_family: 0 }));
}

#[test]
fn a_device_without_a_suitable_queue_family_is_passed_over() {
    let devices = vec![
        device(PhysicalDeviceType::DiscreteGpu, true, &[QUEUE_COMPUTE, QUEUE_GRAPHICS]),
        device(PhysicalDeviceType::DiscreteGpu, true, &[]),
        device(PhysicalDeviceType::Other, true, &[QUEUE_COMPUTE, 0x4, BOTH | 0x8]),
    ];
    assert_eq!(init_device(&devices, BOTH), Some(Selection { device: 2, queue_family: 2 }));
}

#[test]
fn no_device_is_chosen_when_none_is_eligible() {
    assert_eq!(init_device(&Vec::new(), BOTH), None);
    let devices = vec![
        device(PhysicalDeviceType::DiscreteGpu, false, &[BOTH]),
        device(PhysicalDeviceType::IntegratedGpu, true, &[QUEUE_GRAPHICS]),
        device(PhysicalDeviceType::Cpu, true, &[]),
    ];
    assert_eq!(init_device(&devices, BOTH), None);
}

#[test]
fn with_nothing_required_the_first_family_suits() {
    let devices = vec![
        device(PhysicalDeviceType::IntegratedGpu, true, &[]),
        device(PhysicalDeviceType::IntegratedGpu, true, &[0x4, BOTH]),
    ];
    let required = QUEUE_GRAPHICS & QUEUE_COMPUTE;
    assert_eq!(required, 0);
    assert_eq!(init_device(&devices, required), Some(Selection { device: 1, queue_family: 0 }));
}

#[test]
fn the_first_suitable_queue_family_is_found() {
    assert_eq!(find_queue_family(&vec![0x4, QUEUE_GRAPHICS, BOTH, BOTH], BOTH), Some(2));
    assert_eq!(find_queue_family(&vec![BOTH | 0x10], QUEUE_GRAPHICS), Some(0));
    assert_eq!(find_queue_family(&vec![QUEUE_COMPUTE, 0x4], QUEUE_GRAPHICS), None);
    assert_eq!(find_queue_family(&Vec::new(), 0), None);
}
