use vulkan_bootstrap::error::InitError;
use vulkan_bootstrap::instance::{instance_config, validation_layer_name};
use vulkan_bootstrap::names::{contains_name, name_eq};
use vulkanalia::vk;

fn name(text: &str) -> Vec<u8> {
    text.as_bytes().to_vec()
}

#[test]
fn validation_layer_has_its_khronos_name() {
    assert_eq!(validation_layer_name(), b"VK_LAYER_KHRONOS_validation".to_vec());
    let as_vulkan_holds_it = vk::ExtensionName::from_bytes(b"VK_LAYER_KHRONOS_validation");
    assert_eq!(validation_layer_name(), as_vulkan_holds_it.as_cstr().to_bytes().to_vec());
}

#[test]
fn instance_without_validation_enables_no_layer() {
    let extensions = vec![name("VK_KHR_surface"), name("VK_KHR_xcb_surface")];
    let config = instance_config(extensions.clone(), &[], false).unwrap();
    assert!(config.layers.is_empty());
    assert_eq!(config.extensions, extensions);
}

#[test]
fn instance_without_validation_does_not_read_the_layers() {
    let layers = vec![name("VK_LAYER_KHRONOS_validation"), name("VK_LAYER_MESA_overlay")];
    let config = instance_config(vec![], &layers, false).unwrap();
    assert!(config.layers.is_empty());
    assert!(config.extensions.is_empty());
}

#[test]
fn instance_with_validation_enables_the_layer() {
    let layers = vec![name("VK_LAYER_MESA_overlay"), name("VK_LAYER_KHRONOS_validation")];
    let extensions = vec![name("VK_KHR_surface"), name("VK_KHR_wayland_surface")];
    let config = instance_config(extensions.clone(), &layers, true).unwrap();
    assert_eq!(config.layers, vec![name("VK_LAYER_KHRONOS_validation")]);
    assert_eq!(config.extensions, extensions);
}

#[test]
fn instance_with_validation_fails_without_the_layer() {
    let layers = vec![name("VK_LAYER_MESA_overlay"), name("VK_LAYER_KHRONOS_validatio")];
    let outcome = instance_config(vec![name("VK_KHR_surface")], &layers, true);
    assert_eq!(outcome.unwrap_err(), InitError::MissingValidationLayer);
    let outcome = instance_config(vec![], &[], true);
    assert_eq!(outcome.unwrap_err(), InitError::MissingValidationLayer);
}

#[test]
fn instance_identity_is_fixed() {
    let config = instance_config(vec![], &[], false).unwrap();
    assert_eq!(config.application_name, b"Vulkan Tutorial\0".to_vec());
    assert_eq!(config.engine_name, b"No Engine\0".to_vec());
    assert_eq!(config.application_version, vk::make_version(1, 0, 0));
    assert_eq!(config.engine_version, vk::make_version(1, 0, 0));
    assert_eq!(config.api_version, vk::make_version(1, 0, 0));
    assert_eq!(config.api_version, 4194304);
    assert_eq!(config.api_version, 1 << 22);
}

#[test]
fn names_are_equal_byte_for_byte() {
    assert!(name_eq(b"VK_KHR_swapchain", b"VK_KHR_swapchain"));
    assert!(name_eq(b"", b""));
    assert!(!name_eq(b"VK_KHR_swapchain", b"VK_KHR_swapchaim"));
    assert!(!name_eq(b"VK_KHR_swapchain", b"VK_KHR_swapchai"));
    assert!(!name_eq(b"", b"a"));
    assert!(!name_eq(b"vk_khr_swapchain", b"VK_KHR_swapchain"));
}

#[test]
fn names_are_found_in_a_list() {
    let names = vec![name("a"), name("bc"), name("def")];
    assert!(contains_name(&names, b"a"));
    assert!(contains_name(&names, b"def"));
    assert!(!contains_name(&names, b"de"));
    assert!(!contains_name(&[], b"a"));
}

#[test]
fn errors_describe_themselves() {
    assert_eq!(
        InitError::MissingValidationLayer.message(),
        "Validation layer requested not supported. You may need to install them"
    );
    assert_eq!(InitError::NoSuitableDevice.message(), "Failed to find suitable physical device.");
    assert_eq!(InitError::MissingQueueFamilies.message(), "Missing required queue families.");
}
