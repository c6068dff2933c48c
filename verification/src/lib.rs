//! The decisions of a Vulkan start-up sequence, stated and proved.
//!
//! An application that brings Vulkan up for a window creates an instance, picks a physical
//! device, resolves its queue families, creates a logical device, a swapchain and one view per
//! swapchain image, and then runs a paced event loop. The commands that do this talk to a
//! driver; what they are called with is decided here, from plain values, and every decision
//! comes with a contract that Verus proves.
//!
//! - [`instance`]: the identity of the application and the validation layer.
//! - [`device`]: the first suitable physical device.
//! - [`queues`]: the families for graphics and presentation, and the logical device.
//! - [`swapchain`]: format, present mode, extent, image count and sharing mode.
//! - [`image_views`]: the views onto the swapchain images, kept whole or not at all.
//! - [`lifecycle`]: the order of acquisition and destruction.
//! - [`frame`]: the state of the run loop and the pause that paces it.
//! - [`raw`]: the values and functions taken from `vulkanalia`, on trust.
//!
//! Where the caller can only learn one fact at a time from the driver, a decision comes in
//! steps: each step names the next question, takes the answer, and a lemma shows that the
//! steps end where the decision over all the facts at once ends.

pub mod device;
pub mod error;
pub mod frame;
pub mod image_views;
pub mod instance;
pub mod lifecycle;
pub mod names;
pub mod queues;
pub mod raw;
pub mod swapchain;
