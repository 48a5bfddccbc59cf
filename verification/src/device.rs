//! The choice of the physical device and queue family to render with, on what
//! the devices report of themselves.

use vstd::prelude::*;

verus! {

/// The kind of a physical device.
#[derive(Clone, Copy, Debug, PartialEq, Eq, Structural)]
pub enum PhysicalDeviceType {
    DiscreteGpu,
    IntegratedGpu,
    VirtualGpu,
    Cpu,
    Other,
    /// A kind that has no name here.
    Unknown,
}

/// The flag of a queue family that takes graphics work.
pub const QUEUE_GRAPHICS: u32 = 0x1;

/// The flag of a queue family that takes compute work.
pub const QUEUE_COMPUTE: u32 = 0x2;

/// What a physical device reports of itself.
#[derive(Clone, Debug, PartialEq, Eq)]
pub struct PhysicalDevice {
    /// Whether it can present to a surface through an image chain.
    pub supports_swapchain: bool,
    /// The capability flags of each of its queue families, as bit sets.
    pub queue_families: Vec<u32>,
    pub device_type: PhysicalDeviceType,
}

/// A device and one of its queue families, by their places.
#[derive(Clone, Copy, Debug, PartialEq, Eq, Structural)]
pub struct Selection {
    pub device: usize,
    pub queue_family: u32,
}

/// The rank of a kind of device: the lower, the more it is preferred.
pub open spec fn preference(kind: PhysicalDeviceType) -> int {
    match kind {
        PhysicalDeviceType::DiscreteGpu => 0,
        PhysicalDeviceType::IntegratedGpu => 1,
        PhysicalDeviceType::VirtualGpu => 2,
        PhysicalDeviceType::Cpu => 3,
        PhysicalDeviceType::Other => 4,
        PhysicalDeviceType::Unknown => 5,
    }
}

/// Whether a queue family with these flags has every one of the required flags.
pub open spec fn suits(flags: u32, required: u32) -> bool {
    flags & required == required
}

/// Whether the family at `at` is the first of `families` that suits.
pub open spec fn first_suitable(families: Seq<u32>, required: u32, at: int) -> bool {
    &&& 0 <= at < families.len()
    &&& suits(families[at], required)
    &&& forall|j: int| 0 <= j < at ==> !suits(#[trigger] families[j], required)
}

/// Whether a device can be chosen at all: it supports an image chain and one
/// of its queue families suits.
pub open spec fn eligible(device: PhysicalDevice, required: u32) -> bool {
    &&& device.supports_swapchain
    &&& exists|i: int|
        0 <= i < device.queue_families@.len() && suits(#[trigger] device.queue_families@[i], required)
}

/// Whether `choice` is the device to render with: eligible, of a kind at least
/// as preferred as that of every other eligible device, the first such in the
/// list, together with the first of its queue families that suits.
pub open spec fn is_best(devices: Seq<PhysicalDevice>, required: u32, choice: Selection) -> bool {
    &&& choice.device < devices.len()
    &&& devices[choice.device as int].supports_swapchain
    &&& first_suitable(
        devices[choice.device as int].queue_families@,
        required,
        choice.queue_family as int,
    )
    &&& forall|j: int|
        0 <= j < devices.len() && eligible(#[trigger] devices[j], required) ==> preference(
            devices[choice.device as int].device_type,
        ) <= preference(devices[j].device_type)
    &&& forall|j: int|
        0 <= j < choice.device && eligible(#[trigger] devices[j], required) ==> preference(
            devices[choice.device as int].device_type,
        ) < preference(devices[j].device_type)
}

fn rank(kind: PhysicalDeviceType) -> (r: u8)
    ensures
        r == preference(kind),
{
    match kind {
        PhysicalDeviceType::DiscreteGpu => 0,
        PhysicalDeviceType::IntegratedGpu => 1,
        PhysicalDeviceType::VirtualGpu => 2,
        PhysicalDeviceType::Cpu => 3,
        PhysicalDeviceType::Other => 4,
        PhysicalDeviceType::Unknown => 5,
    }
}

/// The place of the first queue family that has every required flag.
pub fn find_queue_family(families: &Vec<u32>, required: u32) -> (found: Option<u32>)
    requires
        families.len() <= u32::MAX,
    ensures
        match found {
            Some(at) => first_suitable(families@, required, at as int),
            None => forall|j: int| 0 <= j < families.len() ==> !suits(#[trigger] families[j], required),
        },
{
    let mut i: usize = 0;
    while i < families.len()
        invariant
            i <= families.len() <= u32::MAX,
            forall|j: int| 0 <= j < i ==> !suits(#[trigger] families[j], required),
        decreases families.len() - i,
    {
        if families[i] & required == required {
            return Some(i as u32);
        }
        i += 1;
    }
    None
}

/// Chooses the device to render with and its queue family: among the devices
/// that support an image chain and have a queue family with every required
/// flag, the one of the most preferred kind, and of several such the first.
/// There is none exactly when no device is eligible.
pub fn init_device(devices: &Vec<PhysicalDevice>, required: u32) -> (choice: Option<Selection>)
    requires
        forall|i: int| 0 <= i < devices.len() ==> (#[trigger] devices[i]).queue_families.len() <= u32::MAX,
    ensures
        match choice {
            Some(selection) => is_best(devices@, required, selection),
            None => forall|j: int| 0 <= j < devices.len() ==> !eligible(#[trigger] devices[j], required),
        },
{
    let mut choice: Option<Selection> = None;
    let mut best: u8 = 0;
    let mut i: usize = 0;
    while i < devices.len()
        invariant
            i <= devices.len(),
            forall|k: int|
                0 <= k < devices.len() ==> (#[trigger] devices[k]).queue_families.len() <= u32::MAX,
            match choice {
                Some(selection) => {
                    &&& is_best(devices@.take(i as int), required, selection)
                    &&& best == preference(devices[selection.device as int].device_type)
                },
                None => forall|j: int| 0 <= j < i ==> !eligible(#[trigger] devices[j], required),
            },
        decreases devices.len() - i,
    {
        let device = &devices[i];
        let ghost seen = devices@.take(i as int);
        let ghost next = devices@.take(i + 1);
        assert(forall|j: int| 0 <= j < i ==> next[j] == seen[j]);
        assert(next[i as int] == devices[i as int]);
        let mut family: Option<u32> = None;
        if device.supports_swapchain {
            family = find_queue_family(&device.queue_families, required);
        }
        match family {
            Some(queue_family) => {
                assert(eligible(devices[i as int], required));
                let r = rank(device.device_type);
                let better = match choice {
                    Some(_) => r < best,
                    None => true,
                };
                if better {
                    choice = Some(Selection { device: i, queue_family });
                    best = r;
                }
                assert(is_best(next, required, choice.unwrap()));
            },
            None => {
                assert(!eligible(devices[i as int], required));
                if let Some(selection) = choice {
                    assert(is_best(next, required, selection));
                }
            },
        }
        i += 1;
    }
    assert(devices@.take(devices.len() as int) =~= devices@);
    choice
}

} // verus!
