use vulkan_bootstrap::error::InitError;
use vulkan_bootstrap::queues::{
    after_present_answer, begin_present_scan, device_config, device_extensions, find_graphics_family,
    find_present_family, get_queues_indices, unique_queue_families, DeviceFeature, PresentScan, QueueContainer,
};
use vulkanalia::vk::{self, Handle};

const GRAPHICS: u32 = 1;
const COMPUTE: u32 = 2;
const TRANSFER: u32 = 4;

fn scan(graphics: Option<u32>, support: &[bool]) -> (Result<(u32, u32), InitError>, Vec<u32>) {
    let count = support.len() as u32;
    let mut asked = Vec::new();
    let mut step = begin_present_scan(count);
    loop {
        match step {
            PresentScan::Query { family } => {
                asked.push(family);
                step = after_present_answer(graphics, family, count, support[family as usize]);
            }
            PresentScan::Found { graphics, present } => return (Ok((graphics, present)), asked),
            PresentScan::Missing => return (Err(InitError::MissingQueueFamilies), asked),
        }
    }
}

#[test]
fn graphics_flag_is_the_lowest_bit() {
    assert_eq!(vk::QueueFlags::GRAPHICS.bits(), GRAPHICS);
    assert_eq!(find_graphics_family(&[GRAPHICS]), Some(0));
    assert_eq!(find_graphics_family(&[COMPUTE]), None);
    assert_eq!(find_graphics_family(&[TRANSFER | COMPUTE]), None);
    assert_eq!(find_graphics_family(&[0xffff_fffe]), None);
    assert_eq!(find_graphics_family(&[0xffff_ffff]), Some(0));
    assert_eq!(find_graphics_family(&[0x8000_0001]), Some(0));
}

#[test]
fn graphics_family_is_the_first_with_the_flag() {
    assert_eq!(find_graphics_family(&[COMPUTE, TRANSFER, GRAPHICS | COMPUTE, GRAPHICS]), Some(2));
    assert_eq!(find_graphics_family(&[GRAPHICS | TRANSFER, GRAPHICS]), Some(0));
    assert_eq!(find_graphics_family(&[]), None);
}

#[test]
fn present_family_is_the_first_that_presents() {
    assert_eq!(find_present_family(&[false, true, true]), Some(1));
    assert_eq!(find_present_family(&[true]), Some(0));
    assert_eq!(find_present_family(&[false, false]), None);
    assert_eq!(find_present_family(&[]), None);
}

#[test]
fn indices_may_be_one_family_or_two() {
    assert_eq!(get_queues_indices(&[GRAPHICS, COMPUTE], &[true, true]), Ok((0, 0)));
    assert_eq!(get_queues_indices(&[GRAPHICS, COMPUTE], &[false, true]), Ok((0, 1)));
    assert_eq!(get_queues_indices(&[COMPUTE, TRANSFER, GRAPHICS], &[false, true, true]), Ok((2, 1)));
}

#[test]
fn indices_are_missing_without_graphics_or_presentation() {
    assert_eq!(get_queues_indices(&[COMPUTE, TRANSFER], &[true, true]), Err(InitError::MissingQueueFamilies));
    assert_eq!(get_queues_indices(&[GRAPHICS, TRANSFER], &[false, false]), Err(InitError::MissingQueueFamilies));
    assert_eq!(get_queues_indices(&[], &[]), Err(InitError::MissingQueueFamilies));
}

#[test]
fn scan_finds_what_the_whole_list_gives() {
    let cases: Vec<(Vec<u32>, Vec<bool>)> = vec![
        (vec![], vec![]),
        (vec![GRAPHICS], vec![true]),
        (vec![GRAPHICS], vec![false]),
        (vec![COMPUTE], vec![true]),
        (vec![COMPUTE, GRAPHICS, GRAPHICS], vec![false, false, true]),
        (vec![COMPUTE, GRAPHICS, GRAPHICS], vec![true, false, true]),
        (vec![COMPUTE, TRANSFER], vec![false, true]),
    ];
    for (flags, support) in cases {
        let graphics = find_graphics_family(&flags);
        assert_eq!(scan(graphics, &support).0, get_queues_indices(&flags, &support));
    }
}

#[test]
fn scan_stops_at_the_first_family_that_presents() {
    let (found, asked) = scan(Some(4), &[false, false, true, true, false]);
    assert_eq!(found, Ok((4, 2)));
    assert_eq!(asked, vec![0, 1, 2]);
}

#[test]
fn scan_without_graphics_asks_every_family_and_fails() {
    let (found, asked) = scan(None, &[true, false, true]);
    assert_eq!(found, Err(InitError::MissingQueueFamilies));
    assert_eq!(asked, vec![0, 1, 2]);
}

#[test]
fn scan_steps_are_as_stated() {
    assert_eq!(begin_present_scan(0), PresentScan::Missing);
    assert_eq!(begin_present_scan(2), PresentScan::Query { family: 0 });
    assert_eq!(after_present_answer(Some(1), 0, 2, true), PresentScan::Found { graphics: 1, present: 0 });
    assert_eq!(after_present_answer(Some(1), 0, 2, false), PresentScan::Query { family: 1 });
    assert_eq!(after_present_answer(Some(1), 1, 2, false), PresentScan::Missing);
    assert_eq!(after_present_answer(None, 0, 2, true), PresentScan::Query { family: 1 });
    assert_eq!(after_present_answer(None, 1, 2, true), PresentScan::Missing);
    assert_eq!(
        after_present_answer(Some(0), u32::MAX - 1, u32::MAX, true),
        PresentScan::Found { graphics: 0, present: u32::MAX - 1 }
    );
    assert_eq!(after_present_answer(Some(0), u32::MAX - 1, u32::MAX, false), PresentScan::Missing);
}

#[test]
fn container_keeps_what_it_is_given() {
    let graphics = vk::Queue::from_raw(0x10);
    let present = vk::Queue::from_raw(0x20);
    let queues = QueueContainer::new(0, 2, graphics, present);
    assert_eq!(queues.graphics_index(), 0);
    assert_eq!(queues.present_index(), 2);
    assert_eq!(queues.graphics_queue(), graphics);
    assert_eq!(queues.present_queue(), present);
    assert!(!queues.shares_family());
    let shared = QueueContainer::new(1, 1, graphics, graphics);
    assert!(shared.shares_family());
    assert_eq!(shared.present_queue(), graphics);
}

#[test]
fn unique_families_name_each_family_once() {
    assert_eq!(unique_queue_families(0, 0), vec![0]);
    assert_eq!(unique_queue_families(7, 7), vec![7]);
    assert_eq!(unique_queue_families(0, 1), vec![0, 1]);
    assert_eq!(unique_queue_families(3, 1), vec![3, 1]);
}

#[test]
fn device_extensions_are_the_swapchain_alone() {
    assert_eq!(device_extensions(), vec![b"VK_KHR_swapchain".to_vec()]);
    assert_eq!(
        device_extensions(),
        vec![vk::KHR_SWAPCHAIN_EXTENSION.name.as_cstr().to_bytes().to_vec()]
    );
}

#[test]
fn device_config_asks_one_queue_of_each_family() {
    let config = device_config(0, 0);
    assert_eq!(config.queue_family_indices, vec![0]);
    assert_eq!(config.queues_per_family, 1);
    assert_eq!(config.queue_index, 0);
    assert_eq!(config.extensions, vec![b"VK_KHR_swapchain".to_vec()]);
    assert_eq!(config.features, Vec::<DeviceFeature>::new());
    let config = device_config(2, 5);
    assert_eq!(config.queue_family_indices, vec![2, 5]);
    assert_eq!(config.queues_per_family, 1);
    assert_eq!(config.queue_index, 0);
}
