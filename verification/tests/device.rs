use vulkan_bootstrap::device::{
    after_device_type, after_extensions, after_features, after_swapchain_support, begin_probe,
    has_geometry_shader, has_required_extensions, is_discrete_gpu, is_suitable_device, pick_physical_device,
    PhysicalDeviceInfo, ProbeStep,
};
use vulkan_bootstrap::error::InitError;
use vulkan_bootstrap::swapchain::{Extent2D, SurfaceCapabilities, SurfaceFormat, SwapchainSupport};
use vulkanalia::vk;

fn support(formats: usize, modes: usize) -> SwapchainSupport {
    let extent = Extent2D { width: 1, height: 1 };
    let capabilities = SurfaceCapabilities {
        min_image_count: 2,
        max_image_count: 0,
        current_extent: extent,
        min_image_extent: extent,
        max_image_extent: extent,
        current_transform: 1,
    };
    SwapchainSupport::new(
        capabilities,
        vec![SurfaceFormat { format: 50, color_space: 0 }; formats],
        vec![2; modes],
    )
}

fn device(device_type: vk::PhysicalDeviceType, geometry_shader: u32, swapchain: bool, formats: usize, modes: usize) -> PhysicalDeviceInfo {
    let mut extensions = vec![b"VK_KHR_maintenance1".to_vec()];
    if swapchain {
        extensions.push(b"VK_KHR_swapchain".to_vec());
    }
    PhysicalDeviceInfo {
        device_type: device_type.as_raw(),
        geometry_shader,
        extensions,
        support: support(formats, modes),
    }
}

fn good() -> PhysicalDeviceInfo {
    device(vk::PhysicalDeviceType::DISCRETE_GPU, vk::TRUE, true, 1, 1)
}

fn probe(devices: &[PhysicalDeviceInfo]) -> (Result<usize, InitError>, Vec<ProbeStep>) {
    let count = devices.len();
    let mut asked = Vec::new();
    let mut step = begin_probe(count);
    loop {
        asked.push(step);
        step = match step {
            ProbeStep::QueryDeviceType { device } => after_device_type(device, count, devices[device].device_type),
            ProbeStep::QueryFeatures { device } => after_features(device, count, devices[device].geometry_shader),
            ProbeStep::QueryExtensions { device } => after_extensions(device, count, &devices[device].extensions),
            ProbeStep::QuerySwapchainSupport { device } => {
                after_swapchain_support(device, count, &devices[device].support)
            }
            ProbeStep::Select { device } => return (Ok(device), asked),
            ProbeStep::NoneSuitable => return (Err(InitError::NoSuitableDevice), asked),
        };
    }
}

#[test]
fn discrete_gpu_is_type_two() {
    assert!(is_discrete_gpu(vk::PhysicalDeviceType::DISCRETE_GPU.as_raw()));
    assert!(is_discrete_gpu(2));
    assert!(!is_discrete_gpu(vk::PhysicalDeviceType::INTEGRATED_GPU.as_raw()));
    assert!(!is_discrete_gpu(vk::PhysicalDeviceType::OTHER.as_raw()));
    assert!(!is_discrete_gpu(vk::PhysicalDeviceType::VIRTUAL_GPU.as_raw()));
    assert!(!is_discrete_gpu(vk::PhysicalDeviceType::CPU.as_raw()));
    assert!(!is_discrete_gpu(-2));
}

#[test]
fn geometry_shader_needs_the_true_value() {
    assert!(has_geometry_shader(vk::TRUE));
    assert!(has_geometry_shader(1));
    assert!(!has_geometry_shader(vk::FALSE));
    assert!(!has_geometry_shader(2));
}

#[test]
fn required_extension_is_the_swapchain() {
    assert!(has_required_extensions(&[b"VK_KHR_swapchain".to_vec()]));
    assert!(has_required_extensions(&[b"VK_EXT_a".to_vec(), b"VK_KHR_swapchain".to_vec()]));
    assert!(has_required_extensions(&[
        vk::KHR_SWAPCHAIN_EXTENSION.name.as_cstr().to_bytes().to_vec()
    ]));
    assert!(!has_required_extensions(&[b"VK_KHR_swapchain2".to_vec()]));
    assert!(!has_required_extensions(&[b"VK_KHR_surface".to_vec()]));
    assert!(!has_required_extensions(&[]));
}

#[test]
fn suitable_device_meets_every_requirement() {
    assert!(is_suitable_device(&good()));
    assert!(!is_suitable_device(&device(vk::PhysicalDeviceType::INTEGRATED_GPU, vk::TRUE, true, 1, 1)));
    assert!(!is_suitable_device(&device(vk::PhysicalDeviceType::DISCRETE_GPU, vk::FALSE, true, 1, 1)));
    assert!(!is_suitable_device(&device(vk::PhysicalDeviceType::DISCRETE_GPU, vk::TRUE, false, 1, 1)));
    assert!(!is_suitable_device(&device(vk::PhysicalDeviceType::DISCRETE_GPU, vk::TRUE, true, 0, 1)));
    assert!(!is_suitable_device(&device(vk::PhysicalDeviceType::DISCRETE_GPU, vk::TRUE, true, 1, 0)));
}

#[test]
fn pick_takes_the_first_suitable_device() {
    let devices = vec![
        device(vk::PhysicalDeviceType::INTEGRATED_GPU, vk::TRUE, true, 3, 3),
        device(vk::PhysicalDeviceType::DISCRETE_GPU, vk::TRUE, true, 1, 0),
        good(),
        good(),
        device(vk::PhysicalDeviceType::CPU, vk::TRUE, true, 1, 1),
        good(),
    ];
    assert_eq!(pick_physical_device(&devices), Ok(2));
    assert_eq!(pick_physical_device(&devices[3..]), Ok(0));
    assert_eq!(pick_physical_device(&devices[4..]), Ok(1));
    assert_eq!(pick_physical_device(&[good()]), Ok(0));
}

#[test]
fn pick_finds_nothing_without_a_suitable_device() {
    let devices = vec![
        device(vk::PhysicalDeviceType::INTEGRATED_GPU, vk::TRUE, true, 3, 3),
        device(vk::PhysicalDeviceType::DISCRETE_GPU, vk::FALSE, true, 1, 1),
        device(vk::PhysicalDeviceType::DISCRETE_GPU, vk::TRUE, false, 1, 1),
    ];
    assert_eq!(pick_physical_device(&devices), Err(InitError::NoSuitableDevice));
    assert_eq!(pick_physical_device(&[]), Err(InitError::NoSuitableDevice));
}

#[test]
fn probe_selects_what_pick_selects() {
    let lists = vec![
        vec![],
        vec![good()],
        vec![device(vk::PhysicalDeviceType::CPU, vk::TRUE, true, 1, 1)],
        vec![
            device(vk::PhysicalDeviceType::INTEGRATED_GPU, vk::TRUE, true, 3, 3),
            device(vk::PhysicalDeviceType::DISCRETE_GPU, vk::FALSE, true, 1, 1),
            device(vk::PhysicalDeviceType::DISCRETE_GPU, vk::TRUE, false, 1, 1),
            device(vk::PhysicalDeviceType::DISCRETE_GPU, vk::TRUE, true, 0, 1),
            good(),
            good(),
        ],
        vec![
            device(vk::PhysicalDeviceType::DISCRETE_GPU, vk::TRUE, true, 1, 0),
            device(vk::PhysicalDeviceType::VIRTUAL_GPU, vk::TRUE, true, 1, 1),
        ],
    ];
    for devices in lists {
        assert_eq!(probe(&devices).0, pick_physical_device(&devices));
    }
}

#[test]
fn probe_asks_no_more_than_it_takes() {
    let devices = vec![
        device(vk::PhysicalDeviceType::INTEGRATED_GPU, vk::TRUE, true, 3, 3),
        device(vk::PhysicalDeviceType::DISCRETE_GPU, vk::FALSE, true, 1, 1),
        device(vk::PhysicalDeviceType::DISCRETE_GPU, vk::TRUE, false, 1, 1),
        good(),
        good(),
    ];
    let (picked, asked) = probe(&devices);
    assert_eq!(picked, Ok(3));
    assert_eq!(
        asked,
        vec![
            ProbeStep::QueryDeviceType { device: 0 },
            ProbeStep::QueryDeviceType { device: 1 },
            ProbeStep::QueryFeatures { device: 1 },
            ProbeStep::QueryDeviceType { device: 2 },
            ProbeStep::QueryFeatures { device: 2 },
            ProbeStep::QueryExtensions { device: 2 },
            ProbeStep::QueryDeviceType { device: 3 },
            ProbeStep::QueryFeatures { device: 3 },
            ProbeStep::QueryExtensions { device: 3 },
            ProbeStep::QuerySwapchainSupport { device: 3 },
            ProbeStep::Select { device: 3 },
        ]
    );
}

#[test]
fn probe_of_no_device_ends_at_once() {
    assert_eq!(begin_probe(0), ProbeStep::NoneSuitable);
    assert_eq!(begin_probe(3), ProbeStep::QueryDeviceType { device: 0 });
    assert_eq!(after_device_type(2, 3, 0), ProbeStep::NoneSuitable);
    assert_eq!(after_features(0, 1, 0), ProbeStep::NoneSuitable);
    assert_eq!(after_extensions(0, 2, &[]), ProbeStep::QueryDeviceType { device: 1 });
    assert_eq!(after_swapchain_support(1, 2, &support(0, 0)), ProbeStep::NoneSuitable);
}
