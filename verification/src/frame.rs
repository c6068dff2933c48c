//! The run loop: what each event leads to, and how long to pause so that frames come at a
//! fixed rate.

use vstd::prelude::*;

verus! {

/// Nanoseconds in a second.
pub const NANOS_PER_SECOND: u32 = 1_000_000_000;

/// The time a frame is given at `fps` frames per second, in whole nanoseconds.
pub open spec fn spec_frame_interval_nanos(fps: u32) -> int {
    NANOS_PER_SECOND as int / fps as int
}

/// The time a frame is given at `fps` frames per second, in whole nanoseconds.
pub fn frame_interval_nanos(fps: u32) -> (nanos: u32)
    requires
        fps > 0,
    ensures
        nanos == spec_frame_interval_nanos(fps),
{
    NANOS_PER_SECOND / fps
}

/// The time left of a frame after `elapsed_nanos` of it have passed, or nothing where the
/// frame has used up its time.
pub open spec fn spec_remaining_frame_time(interval_nanos: u32, elapsed_nanos: u128) -> Option<u32> {
    if elapsed_nanos < interval_nanos {
        Some((interval_nanos - elapsed_nanos) as u32)
    } else {
        None
    }
}

/// How long to pause at the end of an iteration that took `elapsed_nanos`, so that the
/// iteration lasts `interval_nanos` in all. An iteration that took that long or longer is
/// not paused.
pub fn remaining_frame_time(interval_nanos: u32, elapsed_nanos: u128) -> (pause: Option<u32>)
    ensures
        pause == spec_remaining_frame_time(interval_nanos, elapsed_nanos),
        match pause {
            Some(nanos) => elapsed_nanos + nanos == interval_nanos,
            None => elapsed_nanos >= interval_nanos,
        },
{
    if elapsed_nanos < interval_nanos as u128 {
        Some(interval_nanos - (elapsed_nanos as u32))
    } else {
        None
    }
}

/// With its pause, no iteration is shorter than the interval.
pub proof fn lemma_iteration_lasts_interval(interval_nanos: u32, elapsed_nanos: u128)
    ensures
        elapsed_nanos + match spec_remaining_frame_time(interval_nanos, elapsed_nanos) {
            Some(nanos) => nanos as int,
            None => 0,
        } >= interval_nanos,
{
}

/// What the window system reports to the loop.
#[derive(Clone, Copy, Debug, PartialEq, Eq, Structural)]
pub enum LoopEvent {
    /// Every pending event was handled; this is the moment to draw.
    MainEventsCleared,
    /// The user asked to close the window.
    CloseRequested,
    /// Anything else.
    Other,
}

/// What the loop does about an event.
#[derive(Clone, Copy, Debug, PartialEq, Eq, Structural)]
pub enum LoopAction {
    /// Draw a frame; `frame_count` iterations came before this one.
    Render { frame_count: u64 },
    /// Leave the loop.
    Exit,
    /// Nothing.
    Idle,
}

/// The state of the run loop: how many iterations have run, and whether the application is
/// closing.
#[derive(Clone, Copy, Debug, PartialEq, Eq, Structural)]
pub struct LoopDriver {
    pub frame_count: u64,
    pub destroying: bool,
    pub frame_interval_nanos: u32,
}

/// What an event leads to in a given state: a frame while the application is not closing,
/// the exit when the window is to be closed, and nothing else.
pub open spec fn spec_action(driver: LoopDriver, event: LoopEvent) -> LoopAction {
    match event {
        LoopEvent::MainEventsCleared if !driver.destroying => LoopAction::Render {
            frame_count: driver.frame_count,
        },
        LoopEvent::CloseRequested => LoopAction::Exit,
        _ => LoopAction::Idle,
    }
}

/// The state after an event: one more iteration, and closing from the moment the window is
/// to be closed.
pub open spec fn spec_after_event(driver: LoopDriver, event: LoopEvent) -> LoopDriver {
    LoopDriver {
        frame_count: (driver.frame_count + 1) as u64,
        destroying: driver.destroying || event == LoopEvent::CloseRequested,
        frame_interval_nanos: driver.frame_interval_nanos,
    }
}

impl LoopDriver {
    /// A loop that has not run yet, for `fps` frames per second.
    pub fn new(fps: u32) -> (driver: Self)
        requires
            fps > 0,
        ensures
            driver.frame_count == 0,
            !driver.destroying,
            driver.frame_interval_nanos == spec_frame_interval_nanos(fps),
    {
        LoopDriver { frame_count: 0, destroying: false, frame_interval_nanos: frame_interval_nanos(fps) }
    }

    /// Takes one event: says what to do about it and counts the iteration.
    pub fn on_event(&mut self, event: LoopEvent) -> (action: LoopAction)
        requires
            old(self).frame_count < u64::MAX,
        ensures
            action == spec_action(*old(self), event),
            *final(self) == spec_after_event(*old(self), event),
    {
        let action = match event {
            LoopEvent::MainEventsCleared => {
                if !self.destroying {
                    LoopAction::Render { frame_count: self.frame_count }
                } else {
                    LoopAction::Idle
                }
            },
            LoopEvent::CloseRequested => {
                self.destroying = true;
                LoopAction::Exit
            },
            LoopEvent::Other => LoopAction::Idle,
        };
        self.frame_count = self.frame_count + 1;
        action
    }

    /// How long to pause at the end of an iteration that took `elapsed_nanos`.
    pub fn pause_after(&self, elapsed_nanos: u128) -> (pause: Option<u32>)
        ensures
            pause == spec_remaining_frame_time(self.frame_interval_nanos, elapsed_nanos),
    {
        remaining_frame_time(self.frame_interval_nanos, elapsed_nanos)
    }
}

/// Once the window is to be closed, no frame is drawn again.
pub proof fn lemma_no_frame_while_closing(driver: LoopDriver, event: LoopEvent)
    requires
        driver.destroying,
    ensures
        !(spec_action(driver, event) is Render),
        spec_after_event(driver, event).destroying,
{
}

} // verus!
