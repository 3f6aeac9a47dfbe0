use vstd::prelude::*;

use crate::error::RenderError;

verus! {

/// The number of frame slots, each with its own semaphores and fence.
pub const MAX_FRAMES_IN_FLIGHT: usize = 2;

/// What acquiring the next swapchain image reported.
#[derive(Clone, Copy, Debug, PartialEq, Eq, Structural)]
pub enum AcquireOutcome {
    /// An image was acquired (possibly from a suboptimal surface).
    Acquired(u32),
    /// The surface no longer matches the swapchain.
    OutOfDate,
    /// Any other API error code.
    Failed(i32),
}

/// What presenting the rendered image reported.
#[derive(Clone, Copy, Debug, PartialEq, Eq, Structural)]
pub enum PresentOutcome {
    Presented,
    Suboptimal,
    OutOfDate,
    /// Any other API error code.
    Failed(i32),
}

/// What the frame loop does after an acquire.
#[derive(Clone, Copy, Debug, PartialEq, Eq, Structural)]
pub enum AcquireAction {
    /// Skip this frame's submission and presentation; recreate the swapchain.
    Recreate,
    /// Stop with this error.
    Fail(RenderError),
    /// Render into `image` with frame slot `slot`, after waiting on the fence
    /// of `wait_slot` if the image was still tracked by that slot.
    Render { image: usize, slot: usize, wait_slot: Option<usize> },
}

/// What the frame loop does after a present.
#[derive(Clone, Copy, Debug, PartialEq, Eq, Structural)]
pub enum PresentAction {
    /// Recreate the swapchain, then go on with the next frame.
    Recreate,
    /// Stop with this error.
    Fail(RenderError),
    /// Go on with the next frame.
    Continue,
}

/// The abstract state of the frame synchronizer.
pub struct FrameState {
    /// The frame slot the next frame uses.
    pub frame: nat,
    /// For each swapchain image, the frame slot whose fence guards it, if any.
    pub images_in_flight: Seq<Option<usize>>,
    /// Whether a resize was signalled and not yet handled.
    pub resized: bool,
}

/// A well-formed state: the slot index is in range, and each tracked image
/// names a live slot, whose fence guards that image until it is reused.
pub open spec fn frame_state_wf(s: FrameState) -> bool {
    &&& s.frame < MAX_FRAMES_IN_FLIGHT
    &&& forall|i: int| 0 <= i < s.images_in_flight.len() && (#[trigger] s.images_in_flight[i]).is_some()
        ==> s.images_in_flight[i].unwrap() < MAX_FRAMES_IN_FLIGHT
}

/// Per-frame synchronization bookkeeping: the cycling frame slot, the fence
/// tracking of each swapchain image, and the pending-resize flag.
pub struct FrameSync {
    frame: usize,
    images_in_flight: Vec<Option<usize>>,
    resized: bool,
}

impl View for FrameSync {
    type V = FrameState;

    closed spec fn view(&self) -> FrameState {
        FrameState { frame: self.frame as nat, images_in_flight: self.images_in_flight@, resized: self.resized }
    }
}

impl FrameSync {
    /// The state for a fresh swapchain of `image_count` images: slot 0, no
    /// image tracked, no resize pending.
    pub fn new(image_count: usize) -> (r: FrameSync)
        ensures
            frame_state_wf(r@),
            r@.frame == 0,
            r@.images_in_flight == Seq::new(image_count as nat, |i: int| None::<usize>),
            !r@.resized,
    {
        let r = FrameSync { frame: 0, images_in_flight: untracked_images(image_count), resized: false };
        r
    }

    /// The frame slot whose fence the next frame waits on first.
    pub fn current_slot(&self) -> (r: usize)
        ensures
            r as nat == self@.frame,
    {
        self.frame
    }

    /// The number of swapchain images tracked.
    pub fn image_count(&self) -> (r: usize)
        ensures
            r == self@.images_in_flight.len(),
    {
        self.images_in_flight.len()
    }

    /// The frame slot that tracks image `image`, if any.
    pub fn image_owner(&self, image: usize) -> (r: Option<usize>)
        requires
            image < self@.images_in_flight.len(),
        ensures
            r == self@.images_in_flight[image as int],
    {
        self.images_in_flight[image]
    }

    /// Whether a resize is pending.
    pub fn resized(&self) -> (r: bool)
        ensures
            r == self@.resized,
    {
        self.resized
    }

    /// Records an external resize notification.
    pub fn notify_resized(&mut self)
        requires
            frame_state_wf(old(self)@),
        ensures
            frame_state_wf(final(self)@),
            final(self)@ == (FrameState { resized: true, ..old(self)@ }),
    {
        self.resized = true;
    }

    /// Decides what follows an acquire. Out-of-date skips the frame for a
    /// swapchain recreation and changes nothing here; another error is fatal;
    /// an acquired image is recorded as owned by the current slot, after a
    /// wait on the slot that last used it, if any. No other image's entry
    /// changes.
    pub fn on_acquire(&mut self, outcome: AcquireOutcome) -> (r: AcquireAction)
        requires
            frame_state_wf(old(self)@),
            outcome matches AcquireOutcome::Acquired(i) ==> (i as int) < old(self)@.images_in_flight.len(),
        ensures
            frame_state_wf(final(self)@),
            match outcome {
                AcquireOutcome::OutOfDate => r == AcquireAction::Recreate && final(self)@ == old(self)@,
                AcquireOutcome::Failed(code) => r == AcquireAction::Fail(RenderError::Api(code)) && final(self)@ == old(self)@,
                AcquireOutcome::Acquired(i) => {
                    &&& r == (AcquireAction::Render {
                        image: i as usize,
                        slot: old(self)@.frame as usize,
                        wait_slot: old(self)@.images_in_flight[i as int],
                    })
                    &&& final(self)@ == (FrameState {
                        images_in_flight: old(self)@.images_in_flight.update(i as int, Some(old(self)@.frame as usize)),
                        ..old(self)@
                    })
                },
            },
    {
        match outcome {
            AcquireOutcome::OutOfDate => AcquireAction::Recreate,
            AcquireOutcome::Failed(code) => AcquireAction::Fail(RenderError::Api(code)),
            AcquireOutcome::Acquired(i) => {
                let image = i as usize;
                let wait_slot = self.images_in_flight[image];
                let slot = self.frame;
                self.images_in_flight.set(image, Some(slot));
                AcquireAction::Render { image, slot, wait_slot }
            },
        }
    }

    /// Decides what follows a present. An API error is fatal and changes
    /// nothing here. Otherwise a suboptimal or out-of-date surface, or a
    /// pending resize, calls for a recreation and clears the resize flag; and
    /// the frame slot advances to the next one.
    pub fn on_present(&mut self, outcome: PresentOutcome) -> (r: PresentAction)
        requires
            frame_state_wf(old(self)@),
        ensures
            frame_state_wf(final(self)@),
            ({
                let stale = outcome == PresentOutcome::Suboptimal || outcome == PresentOutcome::OutOfDate;
                let next = FrameState {
                    frame: (old(self)@.frame + 1) % (MAX_FRAMES_IN_FLIGHT as nat),
                    resized: false,
                    ..old(self)@
                };
                if let PresentOutcome::Failed(code) = outcome {
                    r == PresentAction::Fail(RenderError::Api(code)) && final(self)@ == old(self)@
                } else if old(self)@.resized || stale {
                    r == PresentAction::Recreate && final(self)@ == next
                } else {
                    r == PresentAction::Continue && final(self)@ == next
                }
            }),
    {
        if let PresentOutcome::Failed(code) = outcome {
            return PresentAction::Fail(RenderError::Api(code));
        }
        let stale = match outcome {
            PresentOutcome::Suboptimal => true,
            PresentOutcome::OutOfDate => true,
            _ => false,
        };
        let action = if self.resized || stale {
            self.resized = false;
            PresentAction::Recreate
        } else {
            PresentAction::Continue
        };
        self.frame = (self.frame + 1) % MAX_FRAMES_IN_FLIGHT;
        action
    }

    /// Resets the image tracking for a recreated swapchain of `image_count`
    /// images: every image starts untracked. The frame slot and the resize
    /// flag are kept.
    pub fn on_recreated(&mut self, image_count: usize)
        requires
            frame_state_wf(old(self)@),
        ensures
            frame_state_wf(final(self)@),
            final(self)@ == (FrameState {
                images_in_flight: Seq::new(image_count as nat, |i: int| None::<usize>),
                ..old(self)@
            }),
    {
        self.images_in_flight = untracked_images(image_count);
    }
}

fn untracked_images(image_count: usize) -> (r: Vec<Option<usize>>)
    ensures
        r@ == Seq::new(image_count as nat, |i: int| None::<usize>),
{
    let mut v: Vec<Option<usize>> = Vec::new();
    let mut i: usize = 0;
    while i < image_count
        invariant
            i <= image_count,
            v@ == Seq::new(i as nat, |k: int| None::<usize>),
        decreases image_count - i,
    {
        v.push(None);
        i = i + 1;
        assert(v@ =~= Seq::new(i as nat, |k: int| None::<usize>));
    }
    v
}

} // verus!
