//! The views onto the images of a swapchain: how each is created, and the rule that a batch of
//! them is kept whole or not at all.

use crate::raw::{
    aspect_color, spec_aspect_color, spec_swizzle_identity, spec_view_type_2d, swizzle_identity, view_type_2d,
};
use vstd::prelude::*;
use vulkanalia::vk;

verus! {

/// Which channel of the image each channel of the view reads.
#[derive(Clone, Copy, Debug, PartialEq, Eq, Structural)]
pub struct ComponentMapping {
    pub r: i32,
    pub g: i32,
    pub b: i32,
    pub a: i32,
}

/// The part of an image that a view shows.
#[derive(Clone, Copy, Debug, PartialEq, Eq, Structural)]
pub struct SubresourceRange {
    pub aspect_mask: u32,
    pub base_mip_level: u32,
    pub level_count: u32,
    pub base_array_layer: u32,
    pub layer_count: u32,
}

/// Everything an image view is created with.
#[derive(Clone, Copy, Debug)]
pub struct ImageViewConfig {
    pub image: vk::Image,
    pub view_type: i32,
    pub format: i32,
    pub components: ComponentMapping,
    pub subresource_range: SubresourceRange,
}

/// Every channel of the view reads the same channel of the image.
pub open spec fn identity_mapping() -> ComponentMapping {
    ComponentMapping {
        r: spec_swizzle_identity(),
        g: spec_swizzle_identity(),
        b: spec_swizzle_identity(),
        a: spec_swizzle_identity(),
    }
}

/// The colour of the first mip level of the first array layer, and nothing else.
pub open spec fn color_target_range() -> SubresourceRange {
    SubresourceRange {
        aspect_mask: spec_aspect_color(),
        base_mip_level: 0,
        level_count: 1,
        base_array_layer: 0,
        layer_count: 1,
    }
}

/// The view to render to `image`: two-dimensional, in the format of the swapchain, channels
/// unchanged, over the colour of one mip level and one layer.
pub open spec fn spec_image_view_config(image: vk::Image, format: i32) -> ImageViewConfig {
    ImageViewConfig {
        image,
        view_type: spec_view_type_2d(),
        format,
        components: identity_mapping(),
        subresource_range: color_target_range(),
    }
}

/// Decides how the view onto one swapchain image is created.
pub fn image_view_config(image: vk::Image, format: i32) -> (config: ImageViewConfig)
    ensures
        config == spec_image_view_config(image, format),
{
    let identity = swizzle_identity();
    ImageViewConfig {
        image,
        view_type: view_type_2d(),
        format,
        components: ComponentMapping { r: identity, g: identity, b: identity, a: identity },
        subresource_range: SubresourceRange {
            aspect_mask: aspect_color(),
            base_mip_level: 0,
            level_count: 1,
            base_array_layer: 0,
            layer_count: 1,
        },
    }
}

/// `failure` is the first attempt that failed, and every attempt before it succeeded.
pub open spec fn is_first_failure(attempts: Seq<Result<vk::ImageView, vk::ErrorCode>>, failure: int) -> bool {
    &&& 0 <= failure < attempts.len()
    &&& attempts[failure] is Err
    &&& forall|j: int| 0 <= j < failure ==> (#[trigger] attempts[j]) is Ok
}

/// Every attempt succeeded.
pub open spec fn all_succeeded(attempts: Seq<Result<vk::ImageView, vk::ErrorCode>>) -> bool {
    forall|j: int| 0 <= j < attempts.len() ==> (#[trigger] attempts[j]) is Ok
}

/// Turns the outcome of each attempt to create a view into the outcome of the batch: every
/// view, in the order of the attempts, where all succeeded; else the error of the first
/// attempt that failed, and no view at all.
pub fn collect_image_views(attempts: &[Result<vk::ImageView, vk::ErrorCode>]) -> (outcome: Result<
    Vec<vk::ImageView>,
    vk::ErrorCode,
>)
    ensures
        outcome is Ok <==> all_succeeded(attempts@),
        outcome matches Ok(views) ==> {
            &&& views@.len() == attempts@.len()
            &&& forall|i: int| 0 <= i < views@.len() ==> attempts@[i] == Ok::<vk::ImageView, vk::ErrorCode>(views@[i])
        },
        outcome matches Err(error) ==> exists|failure: int|
            is_first_failure(attempts@, failure) && #[trigger] attempts@[failure] == Err::<
                vk::ImageView,
                vk::ErrorCode,
            >(error),
{
    let mut views: Vec<vk::ImageView> = Vec::new();
    let mut i: usize = 0;
    while i < attempts.len()
        invariant
            i <= attempts@.len(),
            views@.len() == i,
            forall|j: int| 0 <= j < i ==> attempts@[j] == Ok::<vk::ImageView, vk::ErrorCode>(views@[j]),
        decreases attempts@.len() - i,
    {
        match attempts[i] {
            Ok(view) => {
                views.push(view);
            },
            Err(error) => {
                assert(is_first_failure(attempts@, i as int));
                return Err(error);
            },
        }
        i += 1;
    }
    Ok(views)
}

/// What to do after an attempt to create a view.
#[derive(Debug)]
pub enum BatchStep {
    /// Create the next view.
    Continue,
    /// Every image has its view.
    Complete,
    /// The attempt failed. The batch keeps no view; the views made so far are handed back to be
    /// destroyed.
    Failed { error: vk::ErrorCode, discarded: Vec<vk::ImageView> },
}

/// The views of a swapchain while they are created one by one, in the order of its images.
#[derive(Debug)]
pub struct ImageViewBatch {
    images: Vec<vk::Image>,
    format: i32,
    views: Vec<vk::ImageView>,
    failed: bool,
}

impl ImageViewBatch {
    /// The images of the swapchain.
    pub closed spec fn images(&self) -> Seq<vk::Image> {
        self.images@
    }

    /// The format of the swapchain.
    pub closed spec fn format(&self) -> i32 {
        self.format
    }

    /// The views the batch holds.
    pub closed spec fn views(&self) -> Seq<vk::ImageView> {
        self.views@
    }

    /// Whether an attempt has failed.
    pub closed spec fn has_failed(&self) -> bool {
        self.failed
    }

    /// A batch holds at most one view per image, and none once an attempt has failed.
    pub open spec fn wf(&self) -> bool {
        &&& self.views().len() <= self.images().len()
        &&& self.has_failed() ==> self.views().len() == 0
    }

    /// A view is still to be created.
    pub open spec fn is_pending(&self) -> bool {
        !self.has_failed() && self.views().len() < self.images().len()
    }

    /// Every image has its view.
    pub open spec fn is_complete(&self) -> bool {
        !self.has_failed() && self.views().len() == self.images().len()
    }

    /// Starts a batch for the images of a swapchain of the given format.
    pub fn new(images: Vec<vk::Image>, format: i32) -> (batch: Self)
        ensures
            batch.wf(),
            batch.images() == images@,
            batch.format() == format,
            batch.views() == Seq::<vk::ImageView>::empty(),
            !batch.has_failed(),
    {
        ImageViewBatch { images, format, views: Vec::new(), failed: false }
    }

    /// The view to create next: the one for the first image without a view, unless the batch
    /// is complete or has failed.
    pub fn next_request(&self) -> (request: Option<ImageViewConfig>)
        requires
            self.wf(),
        ensures
            request is Some <==> self.is_pending(),
            request matches Some(config) ==> config == spec_image_view_config(
                self.images()[self.views().len() as int],
                self.format(),
            ),
    {
        if !self.failed && self.views.len() < self.images.len() {
            Some(image_view_config(self.images[self.views.len()], self.format))
        } else {
            None
        }
    }

    /// Takes the outcome of the attempt that `next_request` asked for. A view is kept, after
    /// those made before it. A failure empties the batch for good: the views made before it
    /// leave the batch and come back in the step, so that none is retained.
    pub fn record(&mut self, attempt: Result<vk::ImageView, vk::ErrorCode>) -> (step: BatchStep)
        requires
            old(self).wf(),
            old(self).is_pending(),
        ensures
            final(self).wf(),
            final(self).images() == old(self).images(),
            final(self).format() == old(self).format(),
            match attempt {
                Ok(view) => {
                    &&& !final(self).has_failed()
                    &&& final(self).views() == old(self).views().push(view)
                    &&& final(self).is_complete() ==> step is Complete
                    &&& !final(self).is_complete() ==> step is Continue
                },
                Err(error) => {
                    &&& final(self).has_failed()
                    &&& final(self).views() == Seq::<vk::ImageView>::empty()
                    &&& step matches BatchStep::Failed { error: reported, discarded }
                    &&& reported == error
                    &&& discarded@ == old(self).views()
                },
            },
    {
        match attempt {
            Ok(view) => {
                self.views.push(view);
                if self.views.len() == self.images.len() {
                    BatchStep::Complete
                } else {
                    BatchStep::Continue
                }
            },
            Err(error) => {
                let mut discarded: Vec<vk::ImageView> = Vec::new();
                std::mem::swap(&mut self.views, &mut discarded);
                self.failed = true;
                BatchStep::Failed { error, discarded }
            },
        }
    }

    /// Ends the batch: its views, one per image and in the order of the images, where it is
    /// complete; nothing where a view is missing or an attempt has failed.
    pub fn into_views(self) -> (views: Option<Vec<vk::ImageView>>)
        requires
            self.wf(),
        ensures
            views is Some <==> self.is_complete(),
            views matches Some(all) ==> all@ == self.views() && all@.len() == self.images().len(),
    {
        if !self.failed && self.views.len() == self.images.len() {
            Some(self.views)
        } else {
            None
        }
    }
}

/// A batch in which an attempt has failed holds no view, asks for none, and never completes.
pub proof fn lemma_failed_batch_keeps_nothing(batch: ImageViewBatch)
    requires
        batch.wf(),
        batch.has_failed(),
    ensures
        batch.views() == Seq::<vk::ImageView>::empty(),
        !batch.is_pending(),
        !batch.is_complete(),
{
    assert(batch.views() =~= Seq::<vk::ImageView>::empty());
}

} // verus!
