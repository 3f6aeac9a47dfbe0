use vstd::prelude::*;

use crate::commands::{InstanceCount, SecondaryCommandTable, MAX_INSTANCES, MIN_INSTANCES};
use crate::frame::{frame_state_wf, AcquireAction, AcquireOutcome, FrameState, FrameSync, PresentAction, PresentOutcome};
use crate::swapchain::{chosen_extent, chosen_image_count, planned, Extent2D, SurfaceCapabilities, SurfaceFormat, SwapchainPlan};

verus! {

/// The abstract state of the engine.
pub struct EngineState {
    /// The choices the current swapchain was created with.
    pub plan: SwapchainPlan,
    /// The number of images the current swapchain holds.
    pub image_count: nat,
    /// The frame synchronizer's state.
    pub frame: FrameState,
    /// The secondary command buffers, by image and instance.
    pub secondary: Seq<Seq<usize>>,
    /// The number of object instances drawn.
    pub instances: nat,
}

pub open spec fn engine_wf(e: EngineState) -> bool {
    &&& frame_state_wf(e.frame)
    &&& e.frame.images_in_flight.len() == e.image_count
    &&& e.secondary.len() >= e.image_count
    &&& MIN_INSTANCES <= e.instances <= MAX_INSTANCES
}

/// The state after the swapchain is rebuilt with `plan` and turns out to hold
/// `image_count` images: every per-image table is reset to that length and
/// emptied; the frame slot, the resize flag and the instance count are kept.
pub open spec fn recreated(e: EngineState, plan: SwapchainPlan, image_count: nat) -> EngineState {
    EngineState {
        plan,
        image_count,
        frame: FrameState { images_in_flight: Seq::new(image_count, |i: int| None::<usize>), ..e.frame },
        secondary: Seq::new(image_count, |i: int| Seq::<usize>::empty()),
        instances: e.instances,
    }
}

/// Recreating the swapchain twice in succession, on a surface whose
/// capabilities, formats and present modes stay the same and with no resize
/// in between, gives the same swapchain both times, extent and image count
/// included, and the same engine state as recreating it once.
pub proof fn lemma_recreation_idempotent(
    e: EngineState,
    caps: SurfaceCapabilities,
    formats: Seq<SurfaceFormat>,
    modes: Seq<i32>,
    window: Extent2D,
    image_count: nat,
)
    ensures
        ({
            let once = recreated(e, planned(caps, formats, modes, window), image_count);
            let twice = recreated(once, planned(caps, formats, modes, window), image_count);
            &&& twice == once
            &&& twice.plan.extent == once.plan.extent
            &&& twice.plan.image_count == once.plan.image_count
            &&& once.plan.extent == chosen_extent(caps, window)
            &&& once.plan.image_count == chosen_image_count(caps)
        }),
{
}

/// Recreation keeps the engine well formed.
pub proof fn lemma_recreation_keeps_wf(e: EngineState, plan: SwapchainPlan, image_count: nat)
    requires
        engine_wf(e),
    ensures
        engine_wf(recreated(e, plan, image_count)),
{
}

/// The engine's own state, owned by the driving loop and passed to every
/// operation: the current swapchain's choices and image count, frame
/// synchronization, the secondary command buffer table and the instance count.
pub struct Engine {
    plan: SwapchainPlan,
    image_count: usize,
    sync: FrameSync,
    secondary: SecondaryCommandTable,
    instances: InstanceCount,
}

impl View for Engine {
    type V = EngineState;

    closed spec fn view(&self) -> EngineState {
        EngineState {
            plan: self.plan,
            image_count: self.image_count as nat,
            frame: self.sync@,
            secondary: self.secondary@,
            instances: self.instances.count as nat,
        }
    }
}

impl Engine {
    /// The state once the first swapchain, made with `plan`, holds
    /// `image_count` images: slot 0, nothing in flight, one instance.
    pub fn initialize(plan: SwapchainPlan, image_count: usize) -> (r: Engine)
        ensures
            engine_wf(r@),
            r@.plan == plan,
            r@.image_count == image_count,
            r@.frame == (FrameState { frame: 0, images_in_flight: Seq::new(image_count as nat, |i: int| None::<usize>), resized: false }),
            r@.secondary == Seq::new(image_count as nat, |i: int| Seq::<usize>::empty()),
            r@.instances == MIN_INSTANCES,
    {
        Engine {
            plan,
            image_count,
            sync: FrameSync::new(image_count),
            secondary: SecondaryCommandTable::new(image_count),
            instances: InstanceCount::new(),
        }
    }

    pub fn plan(&self) -> (r: SwapchainPlan)
        ensures
            r == self@.plan,
    {
        self.plan
    }

    pub fn image_count(&self) -> (r: usize)
        ensures
            r == self@.image_count,
    {
        self.image_count
    }

    pub fn instances(&self) -> (r: usize)
        ensures
            r == self@.instances,
    {
        self.instances.count
    }

    /// The frame slot whose fence the next frame waits on first.
    pub fn current_slot(&self) -> (r: usize)
        ensures
            r == self@.frame.frame,
    {
        self.sync.current_slot()
    }

    /// The frame slot that tracks image `image`, if any.
    pub fn image_owner(&self, image: usize) -> (r: Option<usize>)
        requires
            image < self@.frame.images_in_flight.len(),
        ensures
            r == self@.frame.images_in_flight[image as int],
    {
        self.sync.image_owner(image)
    }

    /// Records an external resize notification.
    pub fn notify_resized(&mut self)
        requires
            engine_wf(old(self)@),
        ensures
            engine_wf(final(self)@),
            final(self)@ == (EngineState { frame: FrameState { resized: true, ..old(self)@.frame }, ..old(self)@ }),
    {
        self.sync.notify_resized();
    }

    /// Sets the number of instances drawn; a count outside
    /// `MIN_INSTANCES..=MAX_INSTANCES` is refused and changes nothing.
    pub fn set_instance_count(&mut self, n: usize) -> (accepted: bool)
        requires
            engine_wf(old(self)@),
        ensures
            engine_wf(final(self)@),
            accepted == (MIN_INSTANCES <= n <= MAX_INSTANCES),
            final(self)@ == (EngineState { instances: if accepted { n as nat } else { old(self)@.instances }, ..old(self)@ }),
    {
        if MIN_INSTANCES <= n && n <= MAX_INSTANCES {
            self.instances = InstanceCount { count: n };
            true
        } else {
            false
        }
    }

    /// Draws one more instance, up to the maximum; returns whether it did.
    pub fn increase_instances(&mut self) -> (accepted: bool)
        requires
            engine_wf(old(self)@),
        ensures
            engine_wf(final(self)@),
            accepted == (old(self)@.instances < MAX_INSTANCES),
            final(self)@ == (EngineState {
                instances: if accepted { old(self)@.instances + 1 } else { old(self)@.instances },
                ..old(self)@
            }),
    {
        self.instances.increase()
    }

    /// Draws one instance fewer, down to the minimum; returns whether it did.
    pub fn decrease_instances(&mut self) -> (accepted: bool)
        requires
            engine_wf(old(self)@),
        ensures
            engine_wf(final(self)@),
            accepted == (old(self)@.instances > MIN_INSTANCES),
            final(self)@ == (EngineState {
                instances: if accepted { (old(self)@.instances - 1) as nat } else { old(self)@.instances },
                ..old(self)@
            }),
    {
        self.instances.decrease()
    }

    /// Decides what follows an acquire (see `FrameSync::on_acquire`).
    pub fn on_acquire(&mut self, outcome: AcquireOutcome) -> (r: AcquireAction)
        requires
            engine_wf(old(self)@),
            outcome matches AcquireOutcome::Acquired(i) ==> (i as int) < old(self)@.image_count,
        ensures
            engine_wf(final(self)@),
            final(self)@ == (EngineState { frame: final(self)@.frame, ..old(self)@ }),
            match outcome {
                AcquireOutcome::OutOfDate => r == AcquireAction::Recreate && final(self)@ == old(self)@,
                AcquireOutcome::Failed(code) => r == AcquireAction::Fail(crate::error::RenderError::Api(code)) && final(self)@ == old(self)@,
                AcquireOutcome::Acquired(i) => {
                    &&& r == (AcquireAction::Render {
                        image: i as usize,
                        slot: old(self)@.frame.frame as usize,
                        wait_slot: old(self)@.frame.images_in_flight[i as int],
                    })
                    &&& final(self)@.frame == (FrameState {
                        images_in_flight: old(self)@.frame.images_in_flight.update(i as int, Some(old(self)@.frame.frame as usize)),
                        ..old(self)@.frame
                    })
                },
            },
    {
        self.sync.on_acquire(outcome)
    }

    /// Decides what follows a present (see `FrameSync::on_present`).
    pub fn on_present(&mut self, outcome: PresentOutcome) -> (r: PresentAction)
        requires
            engine_wf(old(self)@),
        ensures
            engine_wf(final(self)@),
            final(self)@ == (EngineState { frame: final(self)@.frame, ..old(self)@ }),
            ({
                let stale = outcome == PresentOutcome::Suboptimal || outcome == PresentOutcome::OutOfDate;
                let next = FrameState {
                    frame: (old(self)@.frame.frame + 1) % (crate::frame::MAX_FRAMES_IN_FLIGHT as nat),
                    resized: false,
                    ..old(self)@.frame
                };
                if let PresentOutcome::Failed(code) = outcome {
                    r == PresentAction::Fail(crate::error::RenderError::Api(code)) && final(self)@ == old(self)@
                } else if old(self)@.frame.resized || stale {
                    r == PresentAction::Recreate && final(self)@.frame == next
                } else {
                    r == PresentAction::Continue && final(self)@.frame == next
                }
            }),
    {
        self.sync.on_present(outcome)
    }

    /// Records that the swapchain was rebuilt with `plan` and holds
    /// `image_count` images.
    pub fn swapchain_recreated(&mut self, plan: SwapchainPlan, image_count: usize)
        requires
            engine_wf(old(self)@),
        ensures
            engine_wf(final(self)@),
            final(self)@ == recreated(old(self)@, plan, image_count as nat),
    {
        self.plan = plan;
        self.image_count = image_count;
        self.sync.on_recreated(image_count);
        self.secondary = SecondaryCommandTable::new(image_count);
    }

    /// How many secondary command buffers must still be allocated for image
    /// `image` so that every drawn instance has one.
    pub fn secondary_shortfall(&self, image: usize) -> (r: usize)
        requires
            engine_wf(self@),
            image < self@.image_count,
        ensures
            r == if self@.secondary[image as int].len() >= self@.instances {
                0
            } else {
                (self@.instances - self@.secondary[image as int].len()) as usize
            },
    {
        self.secondary.shortfall(image, self.instances.count)
    }

    /// Adds newly allocated secondary command buffers for image `image`;
    /// the buffers already held keep their places.
    pub fn add_secondary_buffers(&mut self, image: usize, buffers: &Vec<usize>)
        requires
            engine_wf(old(self)@),
            image < old(self)@.image_count,
        ensures
            engine_wf(final(self)@),
            final(self)@ == (EngineState {
                secondary: old(self)@.secondary.update(image as int, old(self)@.secondary[image as int] + buffers@),
                ..old(self)@
            }),
    {
        self.secondary.extend(image, buffers);
        assert(self.secondary@ =~= old(self)@.secondary.update(image as int, old(self)@.secondary[image as int] + buffers@));
    }

    /// The secondary command buffers of image `image`, one per drawn instance.
    pub fn secondary_buffers(&self, image: usize) -> (r: Vec<usize>)
        requires
            engine_wf(self@),
            image < self@.image_count,
            self@.secondary[image as int].len() >= self@.instances,
        ensures
            r@ == self@.secondary[image as int].subrange(0, self@.instances as int),
    {
        self.secondary.buffers_for(image, self.instances.count)
    }

    /// All secondary command buffers of image `image`, for release.
    pub fn all_secondary_buffers(&self, image: usize) -> (r: Vec<usize>)
        requires
            engine_wf(self@),
            image < self@.image_count,
        ensures
            r@ == self@.secondary[image as int],
    {
        let n = self.secondary.row_len(image);
        let r = self.secondary.buffers_for(image, n);
        assert(r@ =~= self@.secondary[image as int]);
        r
    }
}

} // verus!
