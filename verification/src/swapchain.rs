//! The parameters of a swapchain: surface format, present mode, extent, image count and
//! sharing mode, each chosen from what a device reports for a surface.
//!
//! Enumerants and flags are held as the raw values that Vulkan gives them.

use crate::raw::{
    b8g8r8a8_srgb, color_attachment, concurrent, exclusive, fifo, mailbox, opaque, spec_b8g8r8a8_srgb,
    spec_color_attachment, spec_concurrent, spec_exclusive, spec_fifo, spec_mailbox, spec_opaque,
    spec_srgb_nonlinear, srgb_nonlinear,
};
use vstd::prelude::*;

verus! {

/// Width and height in pixels.
#[derive(Clone, Copy, Debug, PartialEq, Eq, Structural)]
pub struct Extent2D {
    pub width: u32,
    pub height: u32,
}

/// A pixel format together with the colour space it is shown in.
#[derive(Clone, Copy, Debug, PartialEq, Eq, Structural)]
pub struct SurfaceFormat {
    pub format: i32,
    pub color_space: i32,
}

/// What a surface allows, as far as the choices below read it.
#[derive(Clone, Copy, Debug, PartialEq, Eq, Structural)]
pub struct SurfaceCapabilities {
    pub min_image_count: u32,
    /// Zero stands for "no upper limit".
    pub max_image_count: u32,
    /// A width of `u32::MAX` stands for "decided by the swapchain".
    pub current_extent: Extent2D,
    pub min_image_extent: Extent2D,
    pub max_image_extent: Extent2D,
    pub current_transform: u32,
}

/// What one physical device reports for one surface, at one moment.
#[derive(Debug)]
pub struct SwapchainSupport {
    pub capabilities: SurfaceCapabilities,
    pub formats: Vec<SurfaceFormat>,
    pub present_modes: Vec<i32>,
}

impl SwapchainSupport {
    /// Puts the three answers of a device together.
    pub fn new(
        capabilities: SurfaceCapabilities,
        formats: Vec<SurfaceFormat>,
        present_modes: Vec<i32>,
    ) -> (support: Self)
        ensures
            support.capabilities == capabilities,
            support.formats == formats,
            support.present_modes == present_modes,
    {
        SwapchainSupport { capabilities, formats, present_modes }
    }

    /// A device can present to the surface when it offers a format and a present mode.
    pub open spec fn spec_is_adequate(&self) -> bool {
        self.formats@.len() > 0 && self.present_modes@.len() > 0
    }

    /// Whether at least one format and one present mode are offered.
    pub fn is_adequate(&self) -> (adequate: bool)
        ensures
            adequate == self.spec_is_adequate(),
    {
        !(self.formats.len() == 0 || self.present_modes.len() == 0)
    }
}

/// The format every choice prefers: 8-bit BGRA, sRGB encoded, in the non-linear sRGB space.
pub open spec fn preferred_format() -> SurfaceFormat {
    SurfaceFormat { format: spec_b8g8r8a8_srgb(), color_space: spec_srgb_nonlinear() }
}

/// Whether the preferred format is among `formats`.
pub open spec fn offers_preferred_format(formats: Seq<SurfaceFormat>) -> bool {
    exists|i: int| 0 <= i < formats.len() && #[trigger] formats[i] == preferred_format()
}

/// The preferred format where it is offered, at whatever position; else the first format.
pub open spec fn spec_surface_format(formats: Seq<SurfaceFormat>) -> SurfaceFormat {
    if offers_preferred_format(formats) {
        preferred_format()
    } else {
        formats[0]
    }
}

/// Chooses the surface format of a swapchain from the non-empty list a device offers.
pub fn get_swapchain_surface_format(formats: &[SurfaceFormat]) -> (chosen: SurfaceFormat)
    requires
        formats@.len() > 0,
    ensures
        chosen == spec_surface_format(formats@),
{
    let format = b8g8r8a8_srgb();
    let color_space = srgb_nonlinear();
    let mut i: usize = 0;
    while i < formats.len()
        invariant
            i <= formats@.len(),
            format == spec_b8g8r8a8_srgb(),
            color_space == spec_srgb_nonlinear(),
            forall|j: int| 0 <= j < i ==> formats@[j] != preferred_format(),
        decreases formats@.len() - i,
    {
        let candidate = formats[i];
        if candidate.format == format && candidate.color_space == color_space {
            return candidate;
        }
        i += 1;
    }
    formats[0]
}

/// Whatever is chosen was offered.
pub proof fn lemma_surface_format_is_offered(formats: Seq<SurfaceFormat>)
    requires
        formats.len() > 0,
    ensures
        formats.contains(spec_surface_format(formats)),
{
    if offers_preferred_format(formats) {
        let i = choose|i: int| 0 <= i < formats.len() && #[trigger] formats[i] == preferred_format();
        assert(formats[i] == spec_surface_format(formats));
    } else {
        assert(formats[0] == spec_surface_format(formats));
    }
}

/// How the present mode is chosen.
#[derive(Clone, Copy, Debug, PartialEq, Eq, Structural)]
pub enum PresentPolicy {
    /// FIFO, which every device has, whatever else is offered.
    Fifo,
    /// Mailbox where the device offers it, FIFO elsewhere.
    PreferMailbox,
}

/// The present mode that `policy` picks among `present_modes`.
pub open spec fn spec_present_mode(policy: PresentPolicy, present_modes: Seq<i32>) -> i32 {
    match policy {
        PresentPolicy::Fifo => spec_fifo(),
        PresentPolicy::PreferMailbox => if present_modes.contains(spec_mailbox()) {
            spec_mailbox()
        } else {
            spec_fifo()
        },
    }
}

/// Chooses the present mode under `policy`.
pub fn select_present_mode(policy: PresentPolicy, present_modes: &[i32]) -> (mode: i32)
    ensures
        mode == spec_present_mode(policy, present_modes@),
{
    match policy {
        PresentPolicy::Fifo => fifo(),
        PresentPolicy::PreferMailbox => {
            let wanted = mailbox();
            let mut i: usize = 0;
            while i < present_modes.len()
                invariant
                    i <= present_modes@.len(),
                    policy == PresentPolicy::PreferMailbox,
                    wanted == spec_mailbox(),
                    forall|j: int| 0 <= j < i ==> present_modes@[j] != spec_mailbox(),
                decreases present_modes@.len() - i,
            {
                if present_modes[i] == wanted {
                    assert(present_modes@[i as int] == spec_mailbox());
                    return wanted;
                }
                i += 1;
            }
            fifo()
        },
    }
}

/// Chooses the present mode of a swapchain: FIFO, whatever the device offers.
pub fn get_swapchain_present_mode(present_modes: &[i32]) -> (mode: i32)
    ensures
        mode == spec_fifo(),
{
    select_present_mode(PresentPolicy::Fifo, present_modes)
}

/// `value` brought up to `min` after it was brought down to `max`.
///
/// With `min <= max` this is the point of `[min, max]` nearest to `value`; with `min > max`
/// it is `min`.
pub open spec fn spec_clamp(min: u32, max: u32, value: u32) -> u32 {
    let capped = if value < max { value } else { max };
    if capped < min { min } else { capped }
}

fn clamp(min: u32, max: u32, value: u32) -> (clamped: u32)
    ensures
        clamped == spec_clamp(min, max, value),
{
    let capped = if value < max { value } else { max };
    if capped < min { min } else { capped }
}

/// Within bounds that are in order, clamping lands inside them and moves nothing that is
/// inside already.
pub proof fn lemma_clamp_within(min: u32, max: u32, value: u32)
    requires
        min <= max,
    ensures
        min <= spec_clamp(min, max, value) <= max,
        min <= value <= max ==> spec_clamp(min, max, value) == value,
        value < min ==> spec_clamp(min, max, value) == min,
        value > max ==> spec_clamp(min, max, value) == max,
{
}

/// The surface leaves the extent to the swapchain when it reports this width.
pub open spec fn extent_is_undefined(capabilities: SurfaceCapabilities) -> bool {
    capabilities.current_extent.width == u32::MAX
}

/// The current extent of the surface where it has one; else the window's size, each side
/// clamped between the smallest and the largest extent the surface allows.
pub open spec fn spec_swapchain_extent(window_size: Extent2D, capabilities: SurfaceCapabilities) -> Extent2D {
    if !extent_is_undefined(capabilities) {
        capabilities.current_extent
    } else {
        Extent2D {
            width: spec_clamp(
                capabilities.min_image_extent.width,
                capabilities.max_image_extent.width,
                window_size.width,
            ),
            height: spec_clamp(
                capabilities.min_image_extent.height,
                capabilities.max_image_extent.height,
                window_size.height,
            ),
        }
    }
}

/// Chooses the extent of a swapchain for a window of `window_size` pixels.
pub fn get_swapchain_extent(window_size: Extent2D, capabilities: SurfaceCapabilities) -> (extent: Extent2D)
    ensures
        extent == spec_swapchain_extent(window_size, capabilities),
{
    if capabilities.current_extent.width != u32::MAX {
        capabilities.current_extent
    } else {
        Extent2D {
            width: clamp(
                capabilities.min_image_extent.width,
                capabilities.max_image_extent.width,
                window_size.width,
            ),
            height: clamp(
                capabilities.min_image_extent.height,
                capabilities.max_image_extent.height,
                window_size.height,
            ),
        }
    }
}

/// A surface with a definite extent gets exactly that; one without gets an extent inside its
/// bounds, wherever those are in order.
pub proof fn lemma_swapchain_extent(window_size: Extent2D, capabilities: SurfaceCapabilities)
    ensures
        !extent_is_undefined(capabilities) ==> spec_swapchain_extent(window_size, capabilities)
            == capabilities.current_extent,
        extent_is_undefined(capabilities) && capabilities.min_image_extent.width
            <= capabilities.max_image_extent.width ==> capabilities.min_image_extent.width
            <= spec_swapchain_extent(window_size, capabilities).width
            <= capabilities.max_image_extent.width,
        extent_is_undefined(capabilities) && capabilities.min_image_extent.height
            <= capabilities.max_image_extent.height ==> capabilities.min_image_extent.height
            <= spec_swapchain_extent(window_size, capabilities).height
            <= capabilities.max_image_extent.height,
{
}

/// One image more than the surface needs at least, but no more than it allows at most, where
/// it names a most.
pub open spec fn spec_image_count(capabilities: SurfaceCapabilities) -> int {
    let wanted = capabilities.min_image_count + 1;
    if capabilities.max_image_count != 0 && wanted > capabilities.max_image_count {
        capabilities.max_image_count as int
    } else {
        wanted
    }
}

/// The number of images to ask for.
pub fn swapchain_image_count(capabilities: SurfaceCapabilities) -> (count: u32)
    requires
        capabilities.min_image_count < u32::MAX,
    ensures
        count == spec_image_count(capabilities),
{
    let mut count = capabilities.min_image_count + 1;
    if capabilities.max_image_count != 0 && count > capabilities.max_image_count {
        count = capabilities.max_image_count;
    }
    count
}

/// Without an upper limit the count is the minimum plus one; with one, it never exceeds it.
pub proof fn lemma_image_count(capabilities: SurfaceCapabilities)
    ensures
        capabilities.max_image_count == 0 ==> spec_image_count(capabilities)
            == capabilities.min_image_count + 1,
        capabilities.max_image_count != 0 ==> spec_image_count(capabilities)
            <= capabilities.max_image_count,
        capabilities.min_image_count < capabilities.max_image_count ==> spec_image_count(capabilities)
            == capabilities.min_image_count + 1,
{
}

/// How the images of a swapchain are shared between queue families.
#[derive(Debug)]
pub struct Sharing {
    pub mode: i32,
    /// The families that share the images; empty where one family owns them.
    pub queue_family_indices: Vec<u32>,
}

/// Chooses the sharing mode: one family owns the images where graphics and presentation use the
/// same family; else both families share them.
pub fn swapchain_sharing(graphics_index: u32, present_index: u32) -> (sharing: Sharing)
    ensures
        graphics_index == present_index ==> sharing.mode == spec_exclusive()
            && sharing.queue_family_indices@ == Seq::<u32>::empty(),
        graphics_index != present_index ==> sharing.mode == spec_concurrent()
            && sharing.queue_family_indices@ == seq![graphics_index, present_index],
{
    let mut queue_family_indices: Vec<u32> = Vec::new();
    let mode = if graphics_index != present_index {
        queue_family_indices.push(graphics_index);
        queue_family_indices.push(present_index);
        concurrent()
    } else {
        exclusive()
    };
    Sharing { mode, queue_family_indices }
}

/// Everything a swapchain is created with, but for the surface it belongs to.
#[derive(Debug)]
pub struct SwapchainConfig {
    pub min_image_count: u32,
    pub image_format: i32,
    pub image_color_space: i32,
    pub image_extent: Extent2D,
    pub image_array_layers: u32,
    pub image_usage: u32,
    pub image_sharing_mode: i32,
    pub queue_family_indices: Vec<u32>,
    pub pre_transform: u32,
    pub composite_alpha: u32,
    pub present_mode: i32,
    pub clipped: bool,
    /// Whether the new swapchain replaces an earlier one.
    pub replaces_old_swapchain: bool,
}

/// Decides how the swapchain of a window is created, from the window's size in pixels, the
/// queue families for graphics and presentation, and what the device reports for the surface.
pub fn swapchain_config(
    window_size: Extent2D,
    graphics_index: u32,
    present_index: u32,
    support: &SwapchainSupport,
) -> (config: SwapchainConfig)
    requires
        support.formats@.len() > 0,
        support.capabilities.min_image_count < u32::MAX,
    ensures
        config.min_image_count == spec_image_count(support.capabilities),
        config.image_format == spec_surface_format(support.formats@).format,
        config.image_color_space == spec_surface_format(support.formats@).color_space,
        config.image_extent == spec_swapchain_extent(window_size, support.capabilities),
        config.image_array_layers == 1,
        config.image_usage == spec_color_attachment(),
        graphics_index == present_index ==> config.image_sharing_mode == spec_exclusive()
            && config.queue_family_indices@ == Seq::<u32>::empty(),
        graphics_index != present_index ==> config.image_sharing_mode == spec_concurrent()
            && config.queue_family_indices@ == seq![graphics_index, present_index],
        config.pre_transform == support.capabilities.current_transform,
        config.composite_alpha == spec_opaque(),
        config.present_mode == spec_fifo(),
        config.clipped,
        !config.replaces_old_swapchain,
{
    let surface_format = get_swapchain_surface_format(support.formats.as_slice());
    let present_mode = get_swapchain_present_mode(support.present_modes.as_slice());
    let extent = get_swapchain_extent(window_size, support.capabilities);
    let image_count = swapchain_image_count(support.capabilities);
    let sharing = swapchain_sharing(graphics_index, present_index);
    SwapchainConfig {
        min_image_count: image_count,
        image_format: surface_format.format,
        image_color_space: surface_format.color_space,
        image_extent: extent,
        image_array_layers: 1,
        image_usage: color_attachment(),
        image_sharing_mode: sharing.mode,
        queue_family_indices: sharing.queue_family_indices,
        pre_transform: support.capabilities.current_transform,
        composite_alpha: opaque(),
        present_mode,
        clipped: true,
        replaces_old_swapchain: false,
    }
}

} // verus!
