//! The frame scheduler: a state machine driven once per displayed frame.
//!
//! The scheduler owns the decisions of the frame loop — when to skip a frame,
//! when to rebuild the image chain and the synchronization ring, how each
//! acquire/wait/present outcome changes the state — while the GPU calls
//! themselves are performed outside the library and reported back as plain
//! outcome values.

use vstd::prelude::*;
use crate::swapchain::{
    SurfaceCaps, SurfaceFormat, PresentMode, Extent2D, ChainError, plan_swapchain,
    spec_choose_extent, spec_choose_image_count, spec_choose_present_mode, format_choice_ok,
};
use crate::sync::{SyncRing, MarkerObs, spec_next_slot};

verus! {

/// What the scheduler knows about the presentable image chain it owns.
#[derive(Clone, Copy, Debug, PartialEq, Eq, Structural)]
pub struct ChainInfo {
    pub extent: Extent2D,
    pub image_count: u32,
    pub format: SurfaceFormat,
    pub present_mode: PresentMode,
}

/// What acquiring the next chain image reported.
#[derive(Clone, Copy, Debug, PartialEq, Eq, Structural)]
pub enum AcquireOutcome {
    /// An image index was produced; `suboptimal` means the chain still works
    /// but should be rebuilt proactively.
    Ready { image_index: u32, suboptimal: bool },
    /// The chain no longer matches the surface and must be rebuilt.
    OutOfDate,
    /// Any other acquire failure.
    Failed,
}

/// What the bounded wait on the active slot's completion marker reported.
#[derive(Clone, Copy, Debug, PartialEq, Eq, Structural)]
pub enum WaitOutcome {
    Signaled,
    TimedOut,
    Failed,
}

/// What presenting the rendered image reported.
#[derive(Clone, Copy, Debug, PartialEq, Eq, Structural)]
pub enum PresentOutcome {
    Presented { suboptimal: bool },
    OutOfDate,
    Failed,
}

/// How many rebuilds may fail in a row before the failure is treated as
/// unrecoverable rather than retried.
pub const MAX_REBUILD_ATTEMPTS: u32 = 8;

/// The frame scheduler's state: the synchronization ring, the pending-work
/// flags, and the current chain generation.
#[verifier::ext_equal]
pub struct Scheduler {
    pub ring: SyncRing,
    /// The surface has zero area; all GPU work is skipped.
    pub minimized: bool,
    /// The chain no longer matches the surface and is rebuilt at the next
    /// frame boundary.
    pub needs_resize: bool,
    /// CPU and GPU may have drifted while no frames were submitted; the ring
    /// is rebuilt wholesale at the next frame boundary.
    pub needs_full_sync: bool,
    /// The current chain generation, absent until the first build succeeds.
    pub chain: Option<ChainInfo>,
    /// Consecutive failed rebuild attempts; a successful rebuild clears it.
    /// Transient failures are retried each frame, but never silently forever:
    /// past `MAX_REBUILD_ATTEMPTS` the caller must treat the loss as fatal.
    pub rebuild_failures: u32,
}

/// The state after the surface reports a new size: zero area parks the
/// scheduler as minimized, a nonzero area schedules a rebuild.
pub open spec fn spec_notify_surface_size(s: Scheduler, width: u32, height: u32) -> Scheduler {
    if width == 0 || height == 0 {
        Scheduler { minimized: true, ..s }
    } else {
        Scheduler { minimized: false, needs_resize: true, ..s }
    }
}

/// The state after a resize request (suboptimal/out-of-date report or an
/// explicit window change).
pub open spec fn spec_request_resize(s: Scheduler) -> Scheduler {
    Scheduler { needs_resize: true, ..s }
}

/// The state after visibility or focus is regained.
pub open spec fn spec_notify_focus_regained(s: Scheduler) -> Scheduler {
    Scheduler { needs_full_sync: true, ..s }
}

impl Scheduler {
    /// The scheduler invariant: a well-formed ring and a plausible chain.
    pub open spec fn wf(self) -> bool {
        &&& self.ring.wf()
        &&& self.chain matches Some(c) ==> c.image_count >= 1
    }

    /// A fresh scheduler with `frames_in_flight` synchronization slots, no
    /// chain yet and nothing pending.
    pub fn new(frames_in_flight: usize) -> (s: Scheduler)
        requires
            frames_in_flight >= 1,
        ensures
            s.wf(),
            s.ring.slots.len() == frames_in_flight,
            s.ring.current == 0,
            s.ring.completed@ == 0,
            forall|i: int|
                0 <= i < frames_in_flight ==> s.ring.slots@[i] == MarkerObs::Signaled,
            !s.minimized,
            !s.needs_resize,
            !s.needs_full_sync,
            s.chain is None,
            s.rebuild_failures == 0,
    {
        Scheduler {
            ring: SyncRing::new(frames_in_flight),
            minimized: false,
            needs_resize: false,
            needs_full_sync: false,
            chain: None,
            rebuild_failures: 0,
        }
    }

    /// The surface reported a new drawable size.
    pub fn notify_surface_size(&mut self, width: u32, height: u32)
        requires
            old(self).wf(),
        ensures
            final (self).wf(),
            *final (self) == spec_notify_surface_size(*old(self), width, height),
    {
        if width == 0 || height == 0 {
            self.minimized = true;
        } else {
            self.minimized = false;
            self.needs_resize = true;
        }
    }

    /// Ask for a chain rebuild at the next frame boundary.
    pub fn request_resize(&mut self)
        requires
            old(self).wf(),
        ensures
            final (self).wf(),
            *final (self) == spec_request_resize(*old(self)),
    {
        self.needs_resize = true;
    }

    /// Visibility or focus was regained after the scheduler was backgrounded.
    pub fn notify_focus_regained(&mut self)
        requires
            old(self).wf(),
        ensures
            final (self).wf(),
            *final (self) == spec_notify_focus_regained(*old(self)),
    {
        self.needs_full_sync = true;
    }

    /// Complete a full synchronization: the caller has blocked until the GPU
    /// was idle and recreated the ring's GPU objects; the model ring is
    /// rebuilt wholesale and the frame index returns to 0.
    pub fn run_full_sync(&mut self)
        requires
            old(self).wf(),
        ensures
            final (self).wf(),
            final (self).ring.slots.len() == old(self).ring.slots.len(),
            final (self).ring.current == 0,
            final (self).ring.completed@ == 0,
            forall|i: int|
                0 <= i < final (self).ring.slots.len() ==> final (self).ring.slots@[i]
                    == MarkerObs::Signaled,
            !final (self).needs_full_sync,
            final (self).minimized == old(self).minimized,
            final (self).needs_resize == old(self).needs_resize,
            final (self).chain == old(self).chain,
            final (self).rebuild_failures == old(self).rebuild_failures,
    {
        self.ring.rebuild();
        self.needs_full_sync = false;
    }

    /// Handle a pending resize at the frame boundary: with a zero requested
    /// area the scheduler parks as minimized and keeps the rebuild pending;
    /// otherwise the old chain generation is discarded and a new one is
    /// planned from the surface report, the ring is rebuilt and the frame
    /// index returns to 0. With no surface format at all the chain stays
    /// gone, the error is reported and one more consecutive failure counts;
    /// a caller seeing `rebuild_failures` reach `MAX_REBUILD_ATTEMPTS` must
    /// treat the loss as fatal instead of retrying forever.
    pub fn apply_rebuild(
        &mut self,
        caps: &SurfaceCaps,
        formats: &Vec<SurfaceFormat>,
        modes: &Vec<PresentMode>,
        width: u32,
        height: u32,
    ) -> (r: Result<(), ChainError>)
        requires
            old(self).wf(),
            caps.wf(),
        ensures
            final (self).wf(),
            width == 0 || height == 0 ==> r is Ok && *final (self) == (Scheduler {
                minimized: true,
                ..*old(self)
            }),
            width > 0 && height > 0 && formats@.len() == 0 ==> r == Result::<
                (),
                ChainError,
            >::Err(ChainError::NoSurfaceFormat) && *final (self) == (Scheduler {
                chain: None,
                rebuild_failures: if old(self).rebuild_failures == u32::MAX {
                    u32::MAX
                } else {
                    (old(self).rebuild_failures + 1) as u32
                },
                ..*old(self)
            }),
            width > 0 && height > 0 && formats@.len() > 0 ==> {
                &&& r is Ok
                &&& final (self).chain matches Some(c) && {
                    &&& c.extent == spec_choose_extent(*caps, width, height)
                    &&& c.image_count == spec_choose_image_count(*caps)
                    &&& caps.min_image_count <= c.image_count
                    &&& caps.max_image_count > 0 ==> c.image_count <= caps.max_image_count
                    &&& format_choice_ok(formats@, c.format)
                    &&& c.present_mode == spec_choose_present_mode(modes@)
                }
                &&& !final (self).minimized
                &&& !final (self).needs_resize
                &&& final (self).rebuild_failures == 0
                &&& final (self).needs_full_sync == old(self).needs_full_sync
                &&& final (self).ring.slots.len() == old(self).ring.slots.len()
                &&& final (self).ring.current == 0
                &&& final (self).ring.completed@ == 0
                &&& forall|i: int|
                    0 <= i < final (self).ring.slots.len() ==> final (self).ring.slots@[i]
                        == MarkerObs::Signaled
            },
    {
        if width == 0 || height == 0 {
            self.minimized = true;
            return Ok(());
        }
        match plan_swapchain(caps, formats, modes, width, height) {
            Err(e) => {
                self.chain = None;
                if self.rebuild_failures < u32::MAX {
                    self.rebuild_failures = self.rebuild_failures + 1;
                }
                Err(e)
            },
            Ok(plan) => {
                self.chain = Some(
                    ChainInfo {
                        extent: plan.extent,
                        image_count: plan.image_count,
                        format: plan.format,
                        present_mode: plan.present_mode,
                    },
                );
                self.ring.rebuild();
                self.needs_resize = false;
                self.minimized = false;
                self.rebuild_failures = 0;
                Ok(())
            },
        }
    }

    /// Digest the acquire report: out-of-date stops the frame and schedules a
    /// rebuild; suboptimal proceeds this frame but schedules a rebuild for
    /// the next; any other failure stops the frame without a state change.
    pub fn on_acquire(&mut self, outcome: AcquireOutcome) -> (proceed: bool)
        requires
            old(self).wf(),
        ensures
            final (self).wf(),
            outcome == AcquireOutcome::OutOfDate ==> !proceed && *final (self)
                == spec_request_resize(*old(self)),
            outcome matches AcquireOutcome::Ready { suboptimal, .. } ==> proceed && *final (self)
                == (if suboptimal {
                spec_request_resize(*old(self))
            } else {
                *old(self)
            }),
            outcome == AcquireOutcome::Failed ==> !proceed && *final (self) == *old(self),
    {
        match outcome {
            AcquireOutcome::Ready { image_index: _, suboptimal } => {
                if suboptimal {
                    self.needs_resize = true;
                }
                true
            },
            AcquireOutcome::OutOfDate => {
                self.needs_resize = true;
                false
            },
            AcquireOutcome::Failed => false,
        }
    }

    /// Digest the bounded wait on the active slot's completion marker: on
    /// success the marker is observed signaled and only then reset for
    /// reuse; a timeout is treated as a suspected GPU stall — the frame is
    /// skipped and a rebuild scheduled; any other failure skips the frame
    /// without a state change.
    pub fn on_marker_wait(&mut self, outcome: WaitOutcome) -> (proceed: bool)
        requires
            old(self).wf(),
        ensures
            final (self).wf(),
            outcome == WaitOutcome::Signaled ==> {
                &&& proceed
                &&& final (self).ring.slots@ == old(self).ring.slots@.update(
                    old(self).ring.current as int,
                    MarkerObs::Reset,
                )
                &&& final (self).ring.current == old(self).ring.current
                &&& final (self).ring.completed == old(self).ring.completed
                &&& final (self).minimized == old(self).minimized
                &&& final (self).needs_resize == old(self).needs_resize
                &&& final (self).needs_full_sync == old(self).needs_full_sync
                &&& final (self).chain == old(self).chain
                &&& final (self).rebuild_failures == old(self).rebuild_failures
            },
            outcome == WaitOutcome::TimedOut ==> !proceed && *final (self) == spec_request_resize(
                *old(self),
            ),
            outcome == WaitOutcome::Failed ==> !proceed && *final (self) == *old(self),
    {
        match outcome {
            WaitOutcome::Signaled => {
                self.ring.observe_current_signaled();
                self.ring.reset_current();
                proof {
                    assert(final (self).ring.slots@ =~= old(self).ring.slots@.update(
                        old(self).ring.current as int,
                        MarkerObs::Reset,
                    ));
                }
                true
            },
            WaitOutcome::TimedOut => {
                self.needs_resize = true;
                false
            },
            WaitOutcome::Failed => false,
        }
    }

    /// Digest the present report: a suboptimal, out-of-date or failed present
    /// schedules a rebuild for the next frame but never fails the current
    /// one.
    pub fn on_present(&mut self, outcome: PresentOutcome)
        requires
            old(self).wf(),
        ensures
            final (self).wf(),
            outcome == (PresentOutcome::Presented { suboptimal: false }) ==> *final (self) == *old(
                self,
            ),
            outcome != (PresentOutcome::Presented { suboptimal: false }) ==> *final (self)
                == spec_request_resize(*old(self)),
    {
        match outcome {
            PresentOutcome::Presented { suboptimal } => {
                if suboptimal {
                    self.needs_resize = true;
                }
            },
            PresentOutcome::OutOfDate => {
                self.needs_resize = true;
            },
            PresentOutcome::Failed => {
                self.needs_resize = true;
            },
        }
    }

    /// Close the frame: the active slot advances to `(current + 1) mod K`
    /// and one more frame counts as completed.
    pub fn end_frame(&mut self)
        requires
            old(self).wf(),
        ensures
            final (self).wf(),
            final (self).ring.slots@ == old(self).ring.slots@,
            final (self).ring.completed@ == old(self).ring.completed@ + 1,
            final (self).ring.current as nat == spec_next_slot(
                old(self).ring.current as nat,
                old(self).ring.slots.len() as nat,
            ),
            final (self).minimized == old(self).minimized,
            final (self).needs_resize == old(self).needs_resize,
            final (self).needs_full_sync == old(self).needs_full_sync,
            final (self).chain == old(self).chain,
            final (self).rebuild_failures == old(self).rebuild_failures,
    {
        self.ring.advance();
    }
}

/// Law: requesting a rebuild is idempotent — any number of resize requests
/// before the next frame boundary leaves the same state as a single one, and
/// the rebuild that then runs clears the flag, so exactly one rebuild
/// follows.
pub proof fn lemma_resize_request_idempotent(s: Scheduler)
    ensures
        spec_request_resize(spec_request_resize(s)) == spec_request_resize(s),
{
}

/// Law: a minimized scheduler that sees a nonzero size `(w, h)` leaves the
/// minimized state with a rebuild pending, and the chain that rebuild plans
/// has extent exactly `(w, h)` whenever the surface reports no fixed extent
/// and `(w, h)` lies within its bounds.
pub proof fn lemma_minimized_to_normal(s: Scheduler, w: u32, h: u32, caps: SurfaceCaps)
    requires
        s.minimized,
        w > 0,
        h > 0,
        caps.wf(),
        caps.current_extent.width == crate::swapchain::EXTENT_UNDEFINED,
        caps.min_image_extent.width <= w <= caps.max_image_extent.width,
        caps.min_image_extent.height <= h <= caps.max_image_extent.height,
    ensures
        !spec_notify_surface_size(s, w, h).minimized,
        spec_notify_surface_size(s, w, h).needs_resize,
        spec_choose_extent(caps, w, h) == (Extent2D { width: w, height: h }),
{
}

/// Law: after any rebuild with a nonzero area, the planned image count lies
/// within the bounds the surface reported at rebuild time.
pub proof fn lemma_rebuild_image_count_in_bounds(caps: SurfaceCaps)
    requires
        caps.wf(),
    ensures
        caps.min_image_count <= spec_choose_image_count(caps),
        caps.max_image_count > 0 ==> spec_choose_image_count(caps) <= caps.max_image_count,
{
}

} // verus!
