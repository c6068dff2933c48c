//! Queue families: which one draws, which one presents, and how a logical device is created
//! for them.

use crate::error::InitError;
use crate::raw::{
    has_graphics, spec_has_graphics, spec_swapchain_extension_name, swapchain_extension_name,
};
use vstd::prelude::*;
use vulkanalia::vk;

verus! {

/// `family` is the first family whose flags have the graphics bit.
pub open spec fn is_first_graphics_family(queue_flags: Seq<u32>, family: int) -> bool {
    &&& 0 <= family < queue_flags.len()
    &&& spec_has_graphics(queue_flags[family])
    &&& forall|j: int| 0 <= j < family ==> !spec_has_graphics(#[trigger] queue_flags[j])
}

/// No family has the graphics bit.
pub open spec fn has_no_graphics_family(queue_flags: Seq<u32>) -> bool {
    forall|j: int| 0 <= j < queue_flags.len() ==> !spec_has_graphics(#[trigger] queue_flags[j])
}

/// `family` is the first family that can present to the surface.
pub open spec fn is_first_present_family(present_support: Seq<bool>, family: int) -> bool {
    &&& 0 <= family < present_support.len()
    &&& present_support[family]
    &&& forall|j: int| 0 <= j < family ==> !#[trigger] present_support[j]
}

/// No family can present to the surface.
pub open spec fn has_no_present_family(present_support: Seq<bool>) -> bool {
    forall|j: int| 0 <= j < present_support.len() ==> !#[trigger] present_support[j]
}

/// `found` is what a search for the first graphics family gives.
pub open spec fn is_graphics_family_of(queue_flags: Seq<u32>, found: Option<u32>) -> bool {
    match found {
        Some(family) => is_first_graphics_family(queue_flags, family as int),
        None => has_no_graphics_family(queue_flags),
    }
}

/// `found` is the pair of the first graphics family and the first family that presents, where
/// both exist, and nothing where either is missing.
pub open spec fn are_queue_indices_of(
    queue_flags: Seq<u32>,
    present_support: Seq<bool>,
    found: Option<(u32, u32)>,
) -> bool {
    match found {
        Some((graphics, present)) => {
            &&& is_first_graphics_family(queue_flags, graphics as int)
            &&& is_first_present_family(present_support, present as int)
        },
        None => has_no_graphics_family(queue_flags) || has_no_present_family(present_support),
    }
}

/// Finds the first family that takes graphics commands, from the flags of each family.
pub fn find_graphics_family(queue_flags: &[u32]) -> (found: Option<u32>)
    requires
        queue_flags@.len() <= u32::MAX,
    ensures
        is_graphics_family_of(queue_flags@, found),
{
    let mut i: usize = 0;
    while i < queue_flags.len()
        invariant
            i <= queue_flags@.len() <= u32::MAX,
            forall|j: int| 0 <= j < i ==> !spec_has_graphics(#[trigger] queue_flags@[j]),
        decreases queue_flags@.len() - i,
    {
        if has_graphics(queue_flags[i]) {
            return Some(i as u32);
        }
        i += 1;
    }
    None
}

/// Finds the first family that can present, from the answer for each family.
pub fn find_present_family(present_support: &[bool]) -> (found: Option<u32>)
    requires
        present_support@.len() <= u32::MAX,
    ensures
        match found {
            Some(family) => is_first_present_family(present_support@, family as int),
            None => has_no_present_family(present_support@),
        },
{
    let mut i: usize = 0;
    while i < present_support.len()
        invariant
            i <= present_support@.len() <= u32::MAX,
            forall|j: int| 0 <= j < i ==> !#[trigger] present_support@[j],
        decreases present_support@.len() - i,
    {
        if present_support[i] {
            return Some(i as u32);
        }
        i += 1;
    }
    None
}

/// The pair an outcome holds, or nothing where it is a failure.
pub open spec fn resolved_indices(outcome: Result<(u32, u32), InitError>) -> Option<(u32, u32)> {
    match outcome {
        Ok(indices) => Some(indices),
        Err(_) => None,
    }
}

/// Resolves the queue families of a device for a surface: the first that takes graphics
/// commands and the first that presents. They may be one family. Where the device lacks
/// either the outcome is `MissingQueueFamilies`.
pub fn get_queues_indices(queue_flags: &[u32], present_support: &[bool]) -> (outcome: Result<
    (u32, u32),
    InitError,
>)
    requires
        queue_flags@.len() <= u32::MAX,
        present_support@.len() <= u32::MAX,
    ensures
        are_queue_indices_of(queue_flags@, present_support@, resolved_indices(outcome)),
        outcome matches Err(error) ==> error == InitError::MissingQueueFamilies,
{
    let graphics = find_graphics_family(queue_flags);
    let present = find_present_family(present_support);
    match (graphics, present) {
        (Some(graphics), Some(present)) => Ok((graphics, present)),
        _ => Err(InitError::MissingQueueFamilies),
    }
}

/// A step of the search for the family that presents, for a caller that has to ask the
/// device about one family at a time.
#[derive(Clone, Copy, Debug, PartialEq, Eq, Structural)]
pub enum PresentScan {
    /// Ask whether `family` can present to the surface, and come back with the answer.
    Query { family: u32 },
    /// Both families are known.
    Found { graphics: u32, present: u32 },
    /// Every family was asked about, and graphics or presentation is missing.
    Missing,
}

/// The step that starts at `family`: a question where that family exists, the end elsewhere.
pub open spec fn spec_scan_from(family: int, family_count: u32) -> PresentScan {
    if family < family_count {
        PresentScan::Query { family: family as u32 }
    } else {
        PresentScan::Missing
    }
}

/// The step after the device said whether `family` can present.
pub open spec fn spec_after_present_answer(
    graphics: Option<u32>,
    family: u32,
    family_count: u32,
    supported: bool,
) -> PresentScan {
    if supported && graphics is Some {
        PresentScan::Found { graphics: graphics->0, present: family }
    } else {
        spec_scan_from(family + 1, family_count)
    }
}

/// Starts the search among `family_count` families.
pub fn begin_present_scan(family_count: u32) -> (step: PresentScan)
    ensures
        step == spec_scan_from(0, family_count),
{
    if family_count > 0 {
        PresentScan::Query { family: 0 }
    } else {
        PresentScan::Missing
    }
}

/// Takes the device's answer for `family` and says what to do next: stop with both families
/// where this one presents and `graphics` is known, else go on to the next family, and give up
/// after the last.
pub fn after_present_answer(graphics: Option<u32>, family: u32, family_count: u32, supported: bool) -> (step:
    PresentScan)
    requires
        family < family_count,
    ensures
        step == spec_after_present_answer(graphics, family, family_count, supported),
{
    if supported {
        if let Some(graphics) = graphics {
            return PresentScan::Found { graphics, present: family };
        }
    }
    if family + 1 < family_count {
        PresentScan::Query { family: family + 1 }
    } else {
        PresentScan::Missing
    }
}

/// Where a search ends that is at `step` and gets its answers from `present_support`.
pub open spec fn scan_outcome(graphics: Option<u32>, present_support: Seq<bool>, step: PresentScan) -> Option<
    (u32, u32),
>
    decreases
        match step {
            PresentScan::Query { family } => present_support.len() - family,
            _ => 0,
        },
{
    match step {
        PresentScan::Query { family } => if family < present_support.len() <= u32::MAX {
            scan_outcome(
                graphics,
                present_support,
                spec_after_present_answer(
                    graphics,
                    family,
                    present_support.len() as u32,
                    present_support[family as int],
                ),
            )
        } else {
            None
        },
        PresentScan::Found { graphics, present } => Some((graphics, present)),
        PresentScan::Missing => None,
    }
}

proof fn lemma_scan_from(queue_flags: Seq<u32>, present_support: Seq<bool>, graphics: Option<u32>, family: int)
    requires
        present_support.len() <= u32::MAX,
        is_graphics_family_of(queue_flags, graphics),
        0 <= family <= present_support.len(),
        graphics is Some ==> forall|j: int| 0 <= j < family ==> !#[trigger] present_support[j],
    ensures
        are_queue_indices_of(
            queue_flags,
            present_support,
            scan_outcome(graphics, present_support, spec_scan_from(family, present_support.len() as u32)),
        ),
    decreases present_support.len() - family,
{
    reveal_with_fuel(scan_outcome, 2);
    let family_count = present_support.len() as u32;
    if family < present_support.len() {
        let next = spec_after_present_answer(graphics, family as u32, family_count, present_support[family]);
        assert(scan_outcome(graphics, present_support, spec_scan_from(family, family_count)) == scan_outcome(
            graphics,
            present_support,
            next,
        ));
        if present_support[family] && graphics is Some {
            assert(is_first_present_family(present_support, family));
        } else {
            assert(next == spec_scan_from(family + 1, family_count));
            lemma_scan_from(queue_flags, present_support, graphics, family + 1);
        }
    }
}

/// Asking family by family finds what looking at all the answers finds: the search that starts
/// at the first family, fed the answers of the device, ends with the first graphics family and
/// the first family that presents, or with nothing where either is missing.
pub proof fn lemma_present_scan_finds_indices(
    queue_flags: Seq<u32>,
    present_support: Seq<bool>,
    graphics: Option<u32>,
)
    requires
        present_support.len() <= u32::MAX,
        is_graphics_family_of(queue_flags, graphics),
    ensures
        are_queue_indices_of(
            queue_flags,
            present_support,
            scan_outcome(graphics, present_support, spec_scan_from(0, present_support.len() as u32)),
        ),
{
    lemma_scan_from(queue_flags, present_support, graphics, 0);
}

/// The families and the queues an application draws and presents with.
#[derive(Clone, Copy, Debug)]
pub struct QueueContainer {
    graphics_index: u32,
    present_index: u32,
    graphics_queue: vk::Queue,
    present_queue: vk::Queue,
}

impl QueueContainer {
    pub closed spec fn spec_graphics_index(&self) -> u32 {
        self.graphics_index
    }

    pub closed spec fn spec_present_index(&self) -> u32 {
        self.present_index
    }

    pub closed spec fn spec_graphics_queue(&self) -> vk::Queue {
        self.graphics_queue
    }

    pub closed spec fn spec_present_queue(&self) -> vk::Queue {
        self.present_queue
    }

    /// Keeps the two families and the queue taken from each.
    pub fn new(graphics_index: u32, present_index: u32, graphics_queue: vk::Queue, present_queue: vk::Queue) -> (queues:
        Self)
        ensures
            queues.spec_graphics_index() == graphics_index,
            queues.spec_present_index() == present_index,
            queues.spec_graphics_queue() == graphics_queue,
            queues.spec_present_queue() == present_queue,
    {
        QueueContainer { graphics_index, present_index, graphics_queue, present_queue }
    }

    /// The family that takes graphics commands.
    pub fn graphics_index(&self) -> (index: u32)
        ensures
            index == self.spec_graphics_index(),
    {
        self.graphics_index
    }

    /// The family that presents.
    pub fn present_index(&self) -> (index: u32)
        ensures
            index == self.spec_present_index(),
    {
        self.present_index
    }

    /// The queue that takes graphics commands.
    pub fn graphics_queue(&self) -> (queue: vk::Queue)
        ensures
            queue == self.spec_graphics_queue(),
    {
        self.graphics_queue
    }

    /// The queue that presents.
    pub fn present_queue(&self) -> (queue: vk::Queue)
        ensures
            queue == self.spec_present_queue(),
    {
        self.present_queue
    }

    /// Whether drawing and presenting use one family.
    pub fn shares_family(&self) -> (shared: bool)
        ensures
            shared == (self.spec_graphics_index() == self.spec_present_index()),
    {
        self.graphics_index == self.present_index
    }
}

/// The two families without a repeat: one entry where they are the same family, else graphics
/// first.
pub open spec fn spec_unique_queue_families(graphics_index: u32, present_index: u32) -> Seq<u32> {
    if graphics_index == present_index {
        seq![graphics_index]
    } else {
        seq![graphics_index, present_index]
    }
}

/// The families a logical device needs queues from, each named once.
pub fn unique_queue_families(graphics_index: u32, present_index: u32) -> (families: Vec<u32>)
    ensures
        families@ == spec_unique_queue_families(graphics_index, present_index),
{
    let mut families: Vec<u32> = Vec::new();
    families.push(graphics_index);
    if present_index != graphics_index {
        families.push(present_index);
    }
    families
}

/// The device extensions that every device must have and that are enabled on it.
pub open spec fn spec_device_extensions() -> Seq<Seq<u8>> {
    seq![spec_swapchain_extension_name()]
}

/// The device extensions that every device must have and that are enabled on it.
pub fn device_extensions() -> (extensions: Vec<Vec<u8>>)
    ensures
        extensions@.len() == spec_device_extensions().len(),
        forall|i: int| 0 <= i < extensions@.len() ==> (#[trigger] extensions@[i])@ == spec_device_extensions()[i],
{
    let mut extensions: Vec<Vec<u8>> = Vec::new();
    extensions.push(swapchain_extension_name());
    extensions
}

/// An optional capability of a device that has to be enabled when the device is created.
#[derive(Clone, Copy, Debug, PartialEq, Eq, Structural)]
pub enum DeviceFeature {
    GeometryShader,
}

/// Everything a logical device is created with, but for the priority of its queues.
#[derive(Debug)]
pub struct DeviceConfig {
    /// The families that get queues, each once.
    pub queue_family_indices: Vec<u32>,
    /// How many queues each of those families gets.
    pub queues_per_family: u32,
    /// The index, within its family, of the queue that is then taken from it.
    pub queue_index: u32,
    pub extensions: Vec<Vec<u8>>,
    /// The features that are enabled; every other feature stays off.
    pub features: Vec<DeviceFeature>,
}

/// Decides how the logical device is created for the two families: one queue from each
/// family, each family once, the required extensions, and no feature.
pub fn device_config(graphics_index: u32, present_index: u32) -> (config: DeviceConfig)
    ensures
        config.queue_family_indices@ == spec_unique_queue_families(graphics_index, present_index),
        config.queues_per_family == 1,
        config.queue_index == 0,
        config.extensions@.len() == spec_device_extensions().len(),
        forall|i: int|
            0 <= i < config.extensions@.len() ==> (#[trigger] config.extensions@[i])@
                == spec_device_extensions()[i],
        config.features@ == Seq::<DeviceFeature>::empty(),
{
    DeviceConfig {
        queue_family_indices: unique_queue_families(graphics_index, present_index),
        queues_per_family: 1,
        queue_index: 0,
        extensions: device_extensions(),
        features: Vec::new(),
    }
}

/// The families of a device are named once each, and both are among them.
pub proof fn lemma_unique_queue_families(graphics_index: u32, present_index: u32)
    ensures
        spec_unique_queue_families(graphics_index, present_index).no_duplicates(),
        spec_unique_queue_families(graphics_index, present_index).contains(graphics_index),
        spec_unique_queue_families(graphics_index, present_index).contains(present_index),
        forall|family: u32|
            spec_unique_queue_families(graphics_index, present_index).contains(family) ==> family
                == graphics_index || family == present_index,
{
    let families = spec_unique_queue_families(graphics_index, present_index);
    assert(families[0] == graphics_index);
    if graphics_index != present_index {
        assert(families[1] == present_index);
    }
}

} // verus!
