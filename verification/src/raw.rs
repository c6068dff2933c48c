//! What this crate takes from `vulkanalia`: the raw values of the Vulkan enumerants and flag
//! bits that its decisions compare against or hand out, and two small functions.
//!
//! Every executable function in this file is trusted: Verus believes its contract and does not
//! read its body. Each contract says what the named item of `vulkanalia` is, so that a reader
//! can hold it against that crate's source. Beside each stands the spec function that the
//! contracts of the other modules use.

use vstd::prelude::*;
use vulkanalia::vk;

verus! {

/// Handle of an image; this crate only carries it.
#[verifier::external_type_specification]
#[verifier::external_body]
pub struct ExImage(vk::Image);

/// Handle of an image view; this crate only carries it.
#[verifier::external_type_specification]
#[verifier::external_body]
pub struct ExImageView(vk::ImageView);

/// Handle of a device queue; this crate only carries it.
#[verifier::external_type_specification]
#[verifier::external_body]
pub struct ExQueue(vk::Queue);

/// Error code of a failed Vulkan command; this crate only carries it.
#[verifier::external_type_specification]
#[verifier::external_body]
pub struct ExErrorCode(vk::ErrorCode);

/// A packed Vulkan version: major above bit 22, minor above bit 12, patch below.
pub open spec fn spec_make_version(major: u32, minor: u32, patch: u32) -> u32 {
    (major << 22) | (minor << 12) | patch
}

/// `vk::make_version`: shifts `major` left by 22 and `minor` by 12 within 32 bits and ors the
/// three parts together. It masks nothing and does not panic.
#[verifier::external_body]
pub(crate) fn make_version(major: u32, minor: u32, patch: u32) -> (version: u32)
    ensures
        version == spec_make_version(major, minor, patch),
{
    vk::make_version(major, minor, patch)
}

/// Whether raw queue flags have the graphics bit, the lowest one.
pub open spec fn spec_has_graphics(queue_flags: u32) -> bool {
    queue_flags & 1 == 1
}

/// `vk::QueueFlags::contains` with `vk::QueueFlags::GRAPHICS` (bit 0), on flags rebuilt from
/// their raw bits by `from_bits_truncate`, which keeps every bit that the type names.
#[verifier::external_body]
pub(crate) fn has_graphics(queue_flags: u32) -> (found: bool)
    ensures
        found == spec_has_graphics(queue_flags),
{
    vk::QueueFlags::from_bits_truncate(queue_flags).contains(vk::QueueFlags::GRAPHICS)
}

/// Raw value of the device type "discrete GPU".
pub open spec fn spec_discrete_gpu() -> i32 {
    2
}

/// `vk::PhysicalDeviceType::DISCRETE_GPU`, which the source defines as 2.
#[verifier::external_body]
pub(crate) fn discrete_gpu() -> (raw: i32)
    ensures
        raw == spec_discrete_gpu(),
{
    vk::PhysicalDeviceType::DISCRETE_GPU.as_raw()
}

/// Raw value of a 32-bit Vulkan boolean that is set.
pub open spec fn spec_bool_true() -> u32 {
    1
}

/// `vk::TRUE`, which the source defines as 1.
#[verifier::external_body]
pub(crate) fn bool_true() -> (raw: u32)
    ensures
        raw == spec_bool_true(),
{
    vk::TRUE
}

/// Raw value of the format with 8-bit B, G, R, A channels and sRGB encoding.
pub open spec fn spec_b8g8r8a8_srgb() -> i32 {
    50
}

/// `vk::Format::B8G8R8A8_SRGB`, which the source defines as 50.
#[verifier::external_body]
pub(crate) fn b8g8r8a8_srgb() -> (raw: i32)
    ensures
        raw == spec_b8g8r8a8_srgb(),
{
    vk::Format::B8G8R8A8_SRGB.as_raw()
}

/// Raw value of the non-linear sRGB colour space.
pub open spec fn spec_srgb_nonlinear() -> i32 {
    0
}

/// `vk::ColorSpaceKHR::SRGB_NONLINEAR`, which the source defines as 0.
#[verifier::external_body]
pub(crate) fn srgb_nonlinear() -> (raw: i32)
    ensures
        raw == spec_srgb_nonlinear(),
{
    vk::ColorSpaceKHR::SRGB_NONLINEAR.as_raw()
}

/// Raw value of the present mode "mailbox".
pub open spec fn spec_mailbox() -> i32 {
    1
}

/// `vk::PresentModeKHR::MAILBOX`, which the source defines as 1.
#[verifier::external_body]
pub(crate) fn mailbox() -> (raw: i32)
    ensures
        raw == spec_mailbox(),
{
    vk::PresentModeKHR::MAILBOX.as_raw()
}

/// Raw value of the present mode "FIFO".
pub open spec fn spec_fifo() -> i32 {
    2
}

/// `vk::PresentModeKHR::FIFO`, which the source defines as 2.
#[verifier::external_body]
pub(crate) fn fifo() -> (raw: i32)
    ensures
        raw == spec_fifo(),
{
    vk::PresentModeKHR::FIFO.as_raw()
}

/// Raw value of the sharing mode "exclusive".
pub open spec fn spec_exclusive() -> i32 {
    0
}

/// `vk::SharingMode::EXCLUSIVE`, which the source defines as 0.
#[verifier::external_body]
pub(crate) fn exclusive() -> (raw: i32)
    ensures
        raw == spec_exclusive(),
{
    vk::SharingMode::EXCLUSIVE.as_raw()
}

/// Raw value of the sharing mode "concurrent".
pub open spec fn spec_concurrent() -> i32 {
    1
}

/// `vk::SharingMode::CONCURRENT`, which the source defines as 1.
#[verifier::external_body]
pub(crate) fn concurrent() -> (raw: i32)
    ensures
        raw == spec_concurrent(),
{
    vk::SharingMode::CONCURRENT.as_raw()
}

/// Raw bit of the image usage "colour attachment".
pub open spec fn spec_color_attachment() -> u32 {
    16
}

/// `vk::ImageUsageFlags::COLOR_ATTACHMENT`, which the source defines as `1 << 4`.
#[verifier::external_body]
pub(crate) fn color_attachment() -> (raw: u32)
    ensures
        raw == spec_color_attachment(),
{
    vk::ImageUsageFlags::COLOR_ATTACHMENT.bits()
}

/// Raw bit of the composite alpha mode "opaque".
pub open spec fn spec_opaque() -> u32 {
    1
}

/// `vk::CompositeAlphaFlagsKHR::OPAQUE`, which the source defines as 1.
#[verifier::external_body]
pub(crate) fn opaque() -> (raw: u32)
    ensures
        raw == spec_opaque(),
{
    vk::CompositeAlphaFlagsKHR::OPAQUE.bits()
}

/// Raw bit of the image aspect "colour".
pub open spec fn spec_aspect_color() -> u32 {
    1
}

/// `vk::ImageAspectFlags::COLOR`, which the source defines as 1.
#[verifier::external_body]
pub(crate) fn aspect_color() -> (raw: u32)
    ensures
        raw == spec_aspect_color(),
{
    vk::ImageAspectFlags::COLOR.bits()
}

/// Raw value of the component swizzle "identity".
pub open spec fn spec_swizzle_identity() -> i32 {
    0
}

/// `vk::ComponentSwizzle::IDENTITY`, which the source defines as 0.
#[verifier::external_body]
pub(crate) fn swizzle_identity() -> (raw: i32)
    ensures
        raw == spec_swizzle_identity(),
{
    vk::ComponentSwizzle::IDENTITY.as_raw()
}

/// Raw value of the image view type "2D".
pub open spec fn spec_view_type_2d() -> i32 {
    1
}

/// `vk::ImageViewType::_2D`, which the source defines as 1.
#[verifier::external_body]
pub(crate) fn view_type_2d() -> (raw: i32)
    ensures
        raw == spec_view_type_2d(),
{
    vk::ImageViewType::_2D.as_raw()
}

/// The bytes of an ASCII text, one per character.
pub open spec fn ascii_bytes(text: Seq<char>) -> Seq<u8> {
    Seq::new(text.len(), |i: int| text[i] as u8)
}

/// Name of the swapchain device extension, without a terminator.
pub open spec fn spec_swapchain_extension_name() -> Seq<u8> {
    ascii_bytes("VK_KHR_swapchain"@)
}

/// `vk::KHR_SWAPCHAIN_EXTENSION.name`, which the source builds from the bytes of
/// `VK_KHR_swapchain`, as the bytes before its terminator.
#[verifier::external_body]
pub(crate) fn swapchain_extension_name() -> (name: Vec<u8>)
    ensures
        name@ == spec_swapchain_extension_name(),
{
    vk::KHR_SWAPCHAIN_EXTENSION.name.as_cstr().to_bytes().to_vec()
}

} // verus!
