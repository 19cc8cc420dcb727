use vstd::prelude::*;
use crate::error::AllocationError;
use crate::quad::{PostProcessMaterial, PostProcessQuad};
use crate::texture::{allocation_error, DeviceLimits, RenderTarget, TargetView};

verus! {

/// The window has a new client size, in pixels.
#[derive(Clone, Copy, Debug, PartialEq, Eq, Structural)]
pub struct ResizeEvent {
    pub width: u32,
    pub height: u32,
}

/// What the coordinator did with the notification that was pending.
#[derive(Clone, Copy, Debug, PartialEq, Eq, Structural)]
pub enum ResizeOutcome {
    /// No notification was pending.
    Idle,
    /// The window has the size that the target already has: nothing was done.
    Unchanged,
    /// The target was allocated anew at this size, the material bound to the
    /// new allocation and the quad made anew.
    Applied { width: u32, height: u32 },
    /// The size cannot be allocated: target, material and quad were kept as
    /// they were.
    Rejected(AllocationError),
}

/// What becomes of a pending notification, given the target as it is.
pub open spec fn outcome_of(
    pending: Option<ResizeEvent>,
    target: TargetView,
    limits: DeviceLimits,
) -> ResizeOutcome {
    match pending {
        None => ResizeOutcome::Idle,
        Some(event) => if event.width == target.width && event.height == target.height {
            ResizeOutcome::Unchanged
        } else {
            match allocation_error(event.width, event.height, limits) {
                Some(e) => ResizeOutcome::Rejected(e),
                None => ResizeOutcome::Applied { width: event.width, height: event.height },
            }
        },
    }
}

/// The notification that is pending after a run of notifications has come
/// in, one after the other.
pub open spec fn coalesced(pending: Option<ResizeEvent>, events: Seq<ResizeEvent>) -> Option<
    ResizeEvent,
>
    decreases events.len(),
{
    if events.len() == 0 {
        pending
    } else {
        coalesced(Some(events[0]), events.drop_first())
    }
}

/// Of a run of notifications only the last one stays pending.
pub proof fn lemma_coalesced_is_last(pending: Option<ResizeEvent>, events: Seq<ResizeEvent>)
    requires
        events.len() > 0,
    ensures
        coalesced(pending, events) == Some(events.last()),
    decreases events.len(),
{
    let rest = events.drop_first();
    if rest.len() > 0 {
        lemma_coalesced_is_last(Some(events[0]), rest);
        assert(rest.last() == events.last());
    } else {
        assert(coalesced(Some(events[0]), rest) == Some(events[0]));
    }
}

/// Keeps the off-screen target, the material that samples it and the
/// full-screen quad at the size of the window. Notifications of a new size
/// go into a single slot, so that of those that come in between two frames
/// only the last one is acted on.
pub struct ResizeCoordinator {
    pending: Option<ResizeEvent>,
}

impl View for ResizeCoordinator {
    type V = Option<ResizeEvent>;

    closed spec fn view(&self) -> Option<ResizeEvent> {
        self.pending
    }
}

impl ResizeCoordinator {
    /// A coordinator with nothing pending.
    pub fn new() -> (coordinator: ResizeCoordinator)
        ensures
            coordinator@ is None,
    {
        ResizeCoordinator { pending: None }
    }

    /// The notification that waits for the next frame, if there is one.
    pub fn pending(&self) -> (pending: Option<ResizeEvent>)
        ensures
            pending == self@,
    {
        self.pending
    }

    /// Takes a notification in; one that was pending is forgotten.
    pub fn notify(&mut self, event: ResizeEvent)
        ensures
            final(self)@ == Some(event),
    {
        self.pending = Some(event);
    }

    /// Takes a run of notifications in, oldest first.
    pub fn notify_all(&mut self, events: &Vec<ResizeEvent>)
        ensures
            final(self)@ == coalesced(old(self)@, events@),
            events@.len() > 0 ==> final(self)@ == Some(events@.last()),
    {
        let mut i: usize = 0;
        assert(events@.skip(0) =~= events@);
        while i < events.len()
            invariant
                i <= events@.len(),
                coalesced(self@, events@.skip(i as int)) == coalesced(old(self)@, events@),
            decreases events@.len() - i,
        {
            proof {
                let rest = events@.skip(i as int);
                assert(rest.drop_first() =~= events@.skip(i + 1));
            }
            self.notify(events[i]);
            i += 1;
        }
        proof {
            if events@.len() > 0 {
                lemma_coalesced_is_last(old(self)@, events@);
            }
        }
    }

    /// Acts on the pending notification, once. A new size that can be
    /// allocated is applied to all three at once: the target is allocated
    /// anew, the material is bound to the new allocation, and the quad is
    /// made anew. A size of zero, or one beyond the limits, changes nothing.
    pub fn process(
        &mut self,
        target: &mut RenderTarget,
        material: &mut PostProcessMaterial,
        quad: &mut PostProcessQuad,
        limits: &DeviceLimits,
    ) -> (outcome: ResizeOutcome)
        requires
            old(target).wf(),
        ensures
            final(self)@ is None,
            outcome == outcome_of(old(self)@, old(target)@, *limits),
            final(target).wf(),
            match outcome {
                ResizeOutcome::Applied { width, height } => {
                    &&& final(target)@ == old(target)@.resized(width, height)
                    &&& *final(material) == old(material).rebound(final(target)@)
                    &&& *final(quad) == old(quad).regenerated(width, height)
                },
                _ => {
                    &&& *final(target) == *old(target)
                    &&& *final(material) == *old(material)
                    &&& *final(quad) == *old(quad)
                },
            },
    {
        let pending = self.pending;
        self.pending = None;
        match pending {
            None => ResizeOutcome::Idle,
            Some(event) => {
                if event.width == target.width() && event.height == target.height() {
                    ResizeOutcome::Unchanged
                } else {
                    match target.resize(event.width, event.height, limits) {
                        Err(e) => ResizeOutcome::Rejected(e),
                        Ok(()) => {
                            material.refresh(target);
                            quad.regenerate(event.width, event.height);
                            ResizeOutcome::Applied { width: event.width, height: event.height }
                        },
                    }
                }
            },
        }
    }
}

} // verus!
