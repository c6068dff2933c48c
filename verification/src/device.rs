//! Which physical device an application runs on: the first one, in the order the instance
//! lists them, that is a discrete GPU with geometry shaders, has the required extensions and
//! can present to the surface.

use crate::error::InitError;
use crate::names::{contains_name, spec_contains_name};
use crate::queues::{device_extensions, spec_device_extensions};
use crate::raw::{bool_true, discrete_gpu, spec_bool_true, spec_discrete_gpu};
use crate::swapchain::SwapchainSupport;
use vstd::prelude::*;

verus! {

/// What a physical device reports about itself and about the surface.
#[derive(Debug)]
pub struct PhysicalDeviceInfo {
    pub device_type: i32,
    /// The 32-bit boolean that says whether geometry shaders are supported.
    pub geometry_shader: u32,
    /// The names of the device extensions on offer.
    pub extensions: Vec<Vec<u8>>,
    pub support: SwapchainSupport,
}

/// Every required device extension is among `extensions`.
pub open spec fn spec_has_required_extensions(extensions: Seq<Vec<u8>>) -> bool {
    forall|k: int|
        0 <= k < spec_device_extensions().len() ==> spec_contains_name(
            extensions,
            #[trigger] spec_device_extensions()[k],
        )
}

/// Whether a device type is "discrete GPU".
pub fn is_discrete_gpu(device_type: i32) -> (discrete: bool)
    ensures
        discrete == (device_type == spec_discrete_gpu()),
{
    device_type == discrete_gpu()
}

/// Whether the feature flag for geometry shaders is set.
pub fn has_geometry_shader(geometry_shader: u32) -> (set: bool)
    ensures
        set == (geometry_shader == spec_bool_true()),
{
    geometry_shader == bool_true()
}

/// Whether a device offers every required extension.
pub fn has_required_extensions(extensions: &[Vec<u8>]) -> (complete: bool)
    ensures
        complete == spec_has_required_extensions(extensions@),
{
    let required = device_extensions();
    let mut k: usize = 0;
    while k < required.len()
        invariant
            k <= required@.len(),
            required@.len() == spec_device_extensions().len(),
            forall|i: int|
                0 <= i < required@.len() ==> (#[trigger] required@[i])@ == spec_device_extensions()[i],
            forall|i: int|
                0 <= i < k ==> spec_contains_name(extensions@, #[trigger] spec_device_extensions()[i]),
        decreases required@.len() - k,
    {
        if !contains_name(extensions, required[k].as_slice()) {
            assert(!spec_contains_name(extensions@, spec_device_extensions()[k as int]));
            return false;
        }
        k += 1;
    }
    true
}

/// A device is suitable when it is a discrete GPU, supports geometry shaders, offers the
/// required extensions, and has a surface format and a present mode for the surface.
pub open spec fn spec_is_suitable(info: PhysicalDeviceInfo) -> bool {
    &&& info.device_type == spec_discrete_gpu()
    &&& info.geometry_shader == spec_bool_true()
    &&& spec_has_required_extensions(info.extensions@)
    &&& info.support.spec_is_adequate()
}

/// Whether a device is suitable.
pub fn is_suitable_device(info: &PhysicalDeviceInfo) -> (suitable: bool)
    ensures
        suitable == spec_is_suitable(*info),
{
    is_discrete_gpu(info.device_type) && has_geometry_shader(info.geometry_shader)
        && has_required_extensions(info.extensions.as_slice()) && info.support.is_adequate()
}

/// `device` is suitable and no device listed before it is.
pub open spec fn is_first_suitable(devices: Seq<PhysicalDeviceInfo>, device: int) -> bool {
    &&& 0 <= device < devices.len()
    &&& spec_is_suitable(devices[device])
    &&& forall|j: int| 0 <= j < device ==> !spec_is_suitable(#[trigger] devices[j])
}

/// No device is suitable.
pub open spec fn none_is_suitable(devices: Seq<PhysicalDeviceInfo>) -> bool {
    forall|j: int| 0 <= j < devices.len() ==> !spec_is_suitable(#[trigger] devices[j])
}

/// `picked` is the first suitable device, or nothing where none is suitable.
pub open spec fn is_pick_of(devices: Seq<PhysicalDeviceInfo>, picked: Option<int>) -> bool {
    match picked {
        Some(device) => is_first_suitable(devices, device),
        None => none_is_suitable(devices),
    }
}

/// What an outcome picked: the position of the device, or nothing where it is a failure.
pub open spec fn picked_device(outcome: Result<usize, InitError>) -> Option<int> {
    match outcome {
        Ok(device) => Some(device as int),
        Err(_) => None,
    }
}

/// Picks the device to run on: the position of the first suitable device. Devices are not
/// ranked; a later device is never preferred to an earlier suitable one. Where no device is
/// suitable the outcome is `NoSuitableDevice`.
pub fn pick_physical_device(devices: &[PhysicalDeviceInfo]) -> (outcome: Result<usize, InitError>)
    ensures
        is_pick_of(devices@, picked_device(outcome)),
        outcome matches Err(error) ==> error == InitError::NoSuitableDevice,
{
    let mut i: usize = 0;
    while i < devices.len()
        invariant
            i <= devices@.len(),
            forall|j: int| 0 <= j < i ==> !spec_is_suitable(#[trigger] devices@[j]),
        decreases devices@.len() - i,
    {
        if is_suitable_device(&devices[i]) {
            return Ok(i);
        }
        i += 1;
    }
    Err(InitError::NoSuitableDevice)
}

/// Where a suitable device is listed, one is picked, and it is that device or an earlier one.
pub proof fn lemma_pick_is_first(devices: Seq<PhysicalDeviceInfo>, picked: Option<int>, suitable: int)
    requires
        is_pick_of(devices, picked),
        0 <= suitable < devices.len(),
        spec_is_suitable(devices[suitable]),
    ensures
        picked is Some,
        picked->0 <= suitable,
        spec_is_suitable(devices[picked->0]),
{
}

/// Two picks from one list are the same pick.
pub proof fn lemma_pick_is_unique(devices: Seq<PhysicalDeviceInfo>, first: Option<int>, second: Option<int>)
    requires
        is_pick_of(devices, first),
        is_pick_of(devices, second),
    ensures
        first == second,
{
    if first is Some && second is Some {
        let a = first->0;
        let b = second->0;
        if a < b {
            assert(!spec_is_suitable(devices[a]));
        }
        if b < a {
            assert(!spec_is_suitable(devices[b]));
        }
    } else if first is Some {
        assert(!spec_is_suitable(devices[first->0]));
    } else if second is Some {
        assert(!spec_is_suitable(devices[second->0]));
    }
}

/// A step of the search for a device, for a caller that has to ask each device one thing at a
/// time and asks no more of a device than it takes to rule it out.
#[derive(Clone, Copy, Debug, PartialEq, Eq, Structural)]
pub enum ProbeStep {
    /// Ask for the type of `device`.
    QueryDeviceType { device: usize },
    /// Ask for the features of `device`.
    QueryFeatures { device: usize },
    /// Ask for the extensions of `device`.
    QueryExtensions { device: usize },
    /// Ask what `device` offers for the surface.
    QuerySwapchainSupport { device: usize },
    /// `device` is the one to run on.
    Select { device: usize },
    /// Every device was ruled out.
    NoneSuitable,
}

/// The step that starts at `device`: its first question where it exists, the end elsewhere.
pub open spec fn spec_probe_from(device: int, device_count: usize) -> ProbeStep {
    if device < device_count {
        ProbeStep::QueryDeviceType { device: device as usize }
    } else {
        ProbeStep::NoneSuitable
    }
}

fn probe_from(device: usize, device_count: usize) -> (step: ProbeStep)
    ensures
        step == spec_probe_from(device as int, device_count),
{
    if device < device_count {
        ProbeStep::QueryDeviceType { device }
    } else {
        ProbeStep::NoneSuitable
    }
}

/// Starts the search among `device_count` devices.
pub fn begin_probe(device_count: usize) -> (step: ProbeStep)
    ensures
        step == spec_probe_from(0, device_count),
{
    probe_from(0, device_count)
}

/// The step after `device` reported its type.
pub open spec fn spec_after_device_type(device: usize, device_count: usize, device_type: i32) -> ProbeStep {
    if device_type == spec_discrete_gpu() {
        ProbeStep::QueryFeatures { device }
    } else {
        spec_probe_from(device + 1, device_count)
    }
}

/// The step after `device` reported whether it supports geometry shaders.
pub open spec fn spec_after_features(device: usize, device_count: usize, geometry_shader: u32) -> ProbeStep {
    if geometry_shader == spec_bool_true() {
        ProbeStep::QueryExtensions { device }
    } else {
        spec_probe_from(device + 1, device_count)
    }
}

/// The step after `device` reported its extensions.
pub open spec fn spec_after_extensions(device: usize, device_count: usize, extensions: Seq<Vec<u8>>) -> ProbeStep {
    if spec_has_required_extensions(extensions) {
        ProbeStep::QuerySwapchainSupport { device }
    } else {
        spec_probe_from(device + 1, device_count)
    }
}

/// The step after `device` reported what it offers for the surface.
pub open spec fn spec_after_swapchain_support(device: usize, device_count: usize, support: SwapchainSupport) -> ProbeStep {
    if support.spec_is_adequate() {
        ProbeStep::Select { device }
    } else {
        spec_probe_from(device + 1, device_count)
    }
}

/// Takes the type of `device`: a discrete GPU is asked for its features, any other device is
/// passed over.
pub fn after_device_type(device: usize, device_count: usize, device_type: i32) -> (step: ProbeStep)
    requires
        device < device_count,
    ensures
        step == spec_after_device_type(device, device_count, device_type),
{
    if is_discrete_gpu(device_type) {
        ProbeStep::QueryFeatures { device }
    } else {
        probe_from(device + 1, device_count)
    }
}

/// Takes the geometry-shader feature of `device`: with it the device is asked for its
/// extensions, without it the device is passed over.
pub fn after_features(device: usize, device_count: usize, geometry_shader: u32) -> (step: ProbeStep)
    requires
        device < device_count,
    ensures
        step == spec_after_features(device, device_count, geometry_shader),
{
    if has_geometry_shader(geometry_shader) {
        ProbeStep::QueryExtensions { device }
    } else {
        probe_from(device + 1, device_count)
    }
}

/// Takes the extensions of `device`: with all the required ones the device is asked about the
/// surface, else it is passed over.
pub fn after_extensions(device: usize, device_count: usize, extensions: &[Vec<u8>]) -> (step: ProbeStep)
    requires
        device < device_count,
    ensures
        step == spec_after_extensions(device, device_count, extensions@),
{
    if has_required_extensions(extensions) {
        ProbeStep::QuerySwapchainSupport { device }
    } else {
        probe_from(device + 1, device_count)
    }
}

/// Takes what `device` offers for the surface: with a format and a present mode the device is
/// selected, else it is passed over.
pub fn after_swapchain_support(device: usize, device_count: usize, support: &SwapchainSupport) -> (step: ProbeStep)
    requires
        device < device_count,
    ensures
        step == spec_after_swapchain_support(device, device_count, *support),
{
    if support.is_adequate() {
        ProbeStep::Select { device }
    } else {
        probe_from(device + 1, device_count)
    }
}

/// The device a step is about, or the number of devices where it is about none.
pub open spec fn probe_device(devices: Seq<PhysicalDeviceInfo>, step: ProbeStep) -> int {
    match step {
        ProbeStep::QueryDeviceType { device } => device as int,
        ProbeStep::QueryFeatures { device } => device as int,
        ProbeStep::QueryExtensions { device } => device as int,
        ProbeStep::QuerySwapchainSupport { device } => device as int,
        _ => devices.len() as int,
    }
}

/// How many questions a step leaves open for its device.
pub open spec fn probe_questions_left(step: ProbeStep) -> int {
    match step {
        ProbeStep::QueryDeviceType { .. } => 4,
        ProbeStep::QueryFeatures { .. } => 3,
        ProbeStep::QueryExtensions { .. } => 2,
        ProbeStep::QuerySwapchainSupport { .. } => 1,
        _ => 0,
    }
}

/// Where a search ends that is at `step` and gets its answers from `devices`.
pub open spec fn probe_outcome(devices: Seq<PhysicalDeviceInfo>, step: ProbeStep) -> Option<int>
    decreases devices.len() - probe_device(devices, step), probe_questions_left(step),
{
    let count = devices.len() as usize;
    if devices.len() > usize::MAX {
        None
    } else {
        match step {
            ProbeStep::QueryDeviceType { device } => if device < devices.len() {
                probe_outcome(devices, spec_after_device_type(device, count, devices[device as int].device_type))
            } else {
                None
            },
            ProbeStep::QueryFeatures { device } => if device < devices.len() {
                probe_outcome(devices, spec_after_features(device, count, devices[device as int].geometry_shader))
            } else {
                None
            },
            ProbeStep::QueryExtensions { device } => if device < devices.len() {
                probe_outcome(devices, spec_after_extensions(device, count, devices[device as int].extensions@))
            } else {
                None
            },
            ProbeStep::QuerySwapchainSupport { device } => if device < devices.len() {
                probe_outcome(devices, spec_after_swapchain_support(device, count, devices[device as int].support))
            } else {
                None
            },
            ProbeStep::Select { device } => Some(device as int),
            ProbeStep::NoneSuitable => None,
        }
    }
}

proof fn lemma_probe_from(devices: Seq<PhysicalDeviceInfo>, device: int)
    requires
        devices.len() <= usize::MAX,
        0 <= device <= devices.len(),
        forall|j: int| 0 <= j < device ==> !spec_is_suitable(#[trigger] devices[j]),
    ensures
        is_pick_of(devices, probe_outcome(devices, spec_probe_from(device, devices.len() as usize))),
    decreases devices.len() - device,
{
    reveal_with_fuel(probe_outcome, 5);
    let count = devices.len() as usize;
    if device < devices.len() {
        let info = devices[device];
        let d = device as usize;
        let next = spec_probe_from(device + 1, count);
        if spec_is_suitable(info) {
            assert(spec_after_device_type(d, count, info.device_type) == ProbeStep::QueryFeatures { device: d });
            assert(spec_after_features(d, count, info.geometry_shader) == ProbeStep::QueryExtensions { device: d });
            assert(spec_after_extensions(d, count, info.extensions@) == ProbeStep::QuerySwapchainSupport {
                device: d,
            });
            assert(spec_after_swapchain_support(d, count, info.support) == ProbeStep::Select { device: d });
            assert(probe_outcome(devices, spec_probe_from(device, count)) == Some(device));
        } else {
            lemma_probe_from(devices, device + 1);
            assert(probe_outcome(devices, spec_probe_from(device, count)) == probe_outcome(devices, next));
        }
    }
}

/// Asking device by device, and each device question by question, selects the device that
/// looking at every answer at once picks: the first suitable one, or none.
pub proof fn lemma_probe_selects_pick(devices: Seq<PhysicalDeviceInfo>)
    requires
        devices.len() <= usize::MAX,
    ensures
        is_pick_of(devices, probe_outcome(devices, spec_probe_from(0, devices.len() as usize))),
{
    lemma_probe_from(devices, 0);
}

} // verus!
