//! The order in which the resources of an application are acquired and destroyed.
//!
//! A resource is destroyed before everything it was made from: the image views before the
//! swapchain and the device, the swapchain before the device and the surface, device and
//! surface before the instance.

use vstd::prelude::*;

verus! {

/// What an application acquires at start-up and has to destroy.
#[derive(Clone, Copy, Debug, PartialEq, Eq, Structural)]
pub enum Resource {
    Instance,
    Surface,
    Device,
    Swapchain,
    ImageViews,
}

/// `child` is made from `parent`, and so has to be destroyed before it.
pub open spec fn depends_on(child: Resource, parent: Resource) -> bool {
    match (child, parent) {
        (Resource::Surface, Resource::Instance) => true,
        (Resource::Device, Resource::Instance) => true,
        (Resource::Swapchain, Resource::Device) => true,
        (Resource::Swapchain, Resource::Surface) => true,
        (Resource::ImageViews, Resource::Swapchain) => true,
        (Resource::ImageViews, Resource::Device) => true,
        _ => false,
    }
}

/// The order of acquisition.
pub open spec fn spec_acquisition_order() -> Seq<Resource> {
    seq![
        Resource::Instance,
        Resource::Surface,
        Resource::Device,
        Resource::Swapchain,
        Resource::ImageViews,
    ]
}

/// What is destroyed, and in which order, after the first `acquired` resources were acquired:
/// those resources, the last one first.
pub open spec fn spec_teardown_after(acquired: int) -> Seq<Resource> {
    spec_acquisition_order().take(acquired).reverse()
}

/// The order of destruction of an application that acquired everything.
pub open spec fn spec_teardown_order() -> Seq<Resource> {
    spec_teardown_after(spec_acquisition_order().len() as int)
}

/// The resources in the order in which they are acquired.
pub fn acquisition_order() -> (order: Vec<Resource>)
    ensures
        order@ == spec_acquisition_order(),
{
    let mut order: Vec<Resource> = Vec::new();
    order.push(Resource::Instance);
    order.push(Resource::Surface);
    order.push(Resource::Device);
    order.push(Resource::Swapchain);
    order.push(Resource::ImageViews);
    assert(order@ =~= spec_acquisition_order());
    order
}

/// The resources to destroy, in order, when start-up ended after `acquired` of them were
/// acquired. Counts beyond the last resource stand for all of them.
pub fn teardown_after(acquired: usize) -> (order: Vec<Resource>)
    ensures
        acquired <= spec_acquisition_order().len() ==> order@ == spec_teardown_after(acquired as int),
        acquired > spec_acquisition_order().len() ==> order@ == spec_teardown_order(),
{
    let acquisition = acquisition_order();
    let count = if acquired < acquisition.len() { acquired } else { acquisition.len() };
    let mut order: Vec<Resource> = Vec::new();
    let mut left: usize = count;
    while left > 0
        invariant
            left <= count <= acquisition@.len(),
            acquisition@ == spec_acquisition_order(),
            order@.len() == count - left,
            forall|i: int| 0 <= i < order@.len() ==> order@[i] == acquisition@[count - 1 - i],
        decreases left,
    {
        left -= 1;
        order.push(acquisition[left]);
    }
    assert(order@ =~= spec_teardown_after(count as int));
    order
}

/// The resources to destroy, in order, at the end of an application that acquired them all.
pub fn teardown_order() -> (order: Vec<Resource>)
    ensures
        order@ == spec_teardown_order(),
{
    teardown_after(usize::MAX)
}

/// Image views go first, then the swapchain, the device, the surface, and the instance last.
pub proof fn lemma_teardown_order()
    ensures
        spec_teardown_order() == seq![
            Resource::ImageViews,
            Resource::Swapchain,
            Resource::Device,
            Resource::Surface,
            Resource::Instance,
        ],
{
    assert(spec_teardown_order() =~= seq![
        Resource::ImageViews,
        Resource::Swapchain,
        Resource::Device,
        Resource::Surface,
        Resource::Instance,
    ]);
}

/// Nothing is acquired before what it is made from, and each resource is acquired once.
pub proof fn lemma_acquisition_respects_dependencies()
    ensures
        spec_acquisition_order().no_duplicates(),
        forall|i: int, j: int|
            0 <= i < spec_acquisition_order().len() && 0 <= j < spec_acquisition_order().len() && depends_on(
                #[trigger] spec_acquisition_order()[i],
                #[trigger] spec_acquisition_order()[j],
            ) ==> j < i,
{
}

/// However far start-up got, what it acquired is destroyed once each, and nothing is destroyed
/// after something it was made from.
pub proof fn lemma_teardown_respects_dependencies(acquired: int)
    requires
        0 <= acquired <= spec_acquisition_order().len(),
    ensures
        spec_teardown_after(acquired).len() == acquired,
        spec_teardown_after(acquired).no_duplicates(),
        forall|k: int|
            0 <= k < acquired ==> spec_teardown_after(acquired).contains(#[trigger] spec_acquisition_order()[k]),
        forall|i: int, j: int|
            0 <= i < acquired && 0 <= j < acquired && depends_on(
                #[trigger] spec_teardown_after(acquired)[i],
                #[trigger] spec_teardown_after(acquired)[j],
            ) ==> i < j,
{
    let order = spec_teardown_after(acquired);
    assert forall|k: int| 0 <= k < acquired implies order.contains(#[trigger] spec_acquisition_order()[k]) by {
        assert(order[acquired - 1 - k] == spec_acquisition_order()[k]);
    }
}

} // verus!
