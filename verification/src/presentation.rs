//! The presentation loop: a state machine that decides, tick by tick, which
//! GPU actions the driver performs, and folds their outcomes back in.
//!
//! The driver owns the outside work (compute dispatch, image acquisition,
//! command submission, presenting) and polls this machine for what to do
//! next; the machine owns every decision: when to terminate, when to rebuild
//! the swapchain, which image a frame targets, and which completion token the
//! next submission must join with.

use vstd::prelude::*;

use crate::frame::{AcquireOutcome, ComputeStep, FrameFuture, PointerPos, PresentOutcome,
    WindowEvent};
use crate::pacer::FramePacer;
use crate::swapchain::{Extent, RecreateOutcome, SwapchainState};

verus! {

/// Where the loop stands within a tick.
#[derive(Clone, Copy, PartialEq, Eq, Structural, Debug)]
pub enum Phase {
    /// Between ticks.
    Idle,
    /// The compute step is dispatched; an image is to be acquired.
    Acquiring,
    /// The swapchain must be rebuilt before further use. `resume` says
    /// whether this tick still renders after a successful rebuild: it does
    /// when the rebuild serves a pending resize, it does not when the chain
    /// went out of date at acquisition.
    Resizing { resume: bool },
    /// An image is acquired; the command sequence is to be recorded and
    /// submitted.
    Submitting { image_index: u32 },
    /// The frame is submitted; the present request is to be chained and
    /// flushed.
    Presenting { image_index: u32 },
    /// A close request ended the loop; no further frames are issued.
    Terminated,
}

/// What a tick starts with.
#[derive(Clone, Copy, PartialEq, Eq, Structural, Debug)]
pub enum TickStart {
    /// The loop is done; stop driving it.
    Exit,
    /// Dispatch the compute step with this uniform data, wait for its
    /// completion, then acquire an image.
    Compute { step: ComputeStep },
}

/// What to do after an acquisition outcome is folded in.
#[derive(Clone, Copy, PartialEq, Eq, Structural, Debug)]
pub enum AcquireStep {
    /// Record and submit the command sequence for this image.
    Render { image_index: u32 },
    /// The chain is out of date: rebuild it; this tick renders nothing.
    Rebuild,
}

/// What to do after a rebuild outcome is folded in.
#[derive(Clone, Copy, PartialEq, Eq, Structural, Debug)]
pub enum RecreateStep {
    /// The chain matches the window again; acquire an image this same tick.
    AcquireNow,
    /// This tick renders nothing; begin the next tick when ready.
    SkipTick,
}

/// Everything the driver needs to submit a frame's command sequence.
#[derive(Clone, Copy, PartialEq, Eq, Structural, Debug)]
pub struct SubmitInfo {
    /// The swapchain image (and framebuffer) the sequence targets.
    pub image_index: u32,
    /// The previous frame's completion token, to be joined with the new
    /// image's availability signal as the submission's precondition. Handing
    /// it out consumes it: the token is at-most-once-awaitable.
    pub precondition: FrameFuture,
}

/// The loop's entire state: swapchain, pacing clock, cached input, the one
/// live completion token, and the submission and presentation histories.
pub struct PresentationLoop {
    pub swapchain: SwapchainState,
    pub pacer: FramePacer,
    pub phase: Phase,
    /// The one live completion token between frames.
    pub previous_frame_end: FrameFuture,
    /// The swapchain should be rebuilt before the next image is acquired.
    pub resize_needed: bool,
    /// A close request was seen; the next tick terminates the loop.
    pub close_requested: bool,
    /// The window's current client-area dimensions, from resize events.
    pub window_extent: Extent,
    /// Last known pointer position, from pointer events.
    pub pointer: PointerPos,
    /// Image index of each submitted frame, in submission order.
    pub submitted: Vec<u32>,
    /// Image index of each present request issued, in presentation order.
    pub presented: Vec<u32>,
}

impl PresentationLoop {
    /// Well-formedness: the swapchain is well-formed; a frame in flight
    /// targets an existing image; and the presentation history equals the
    /// submission history, except between submission and present request,
    /// where the submission history is exactly one frame ahead.
    pub open spec fn wf(self) -> bool {
        &&& self.swapchain.wf()
        &&& match self.phase {
            Phase::Submitting { image_index } => {
                &&& image_index < self.swapchain.image_count
                &&& self.presented@ == self.submitted@
            },
            Phase::Presenting { image_index } => {
                &&& image_index < self.swapchain.image_count
                &&& self.submitted@ == self.presented@.push(image_index)
            },
            _ => self.presented@ == self.submitted@,
        }
    }

    pub fn new(swapchain: SwapchainState, window_extent: Extent, start_micros: u64) -> (lp: Self)
        requires
            swapchain.wf(),
        ensures
            lp.wf(),
            lp.swapchain == swapchain,
            lp.pacer.last_micros == start_micros,
            lp.phase is Idle,
            lp.previous_frame_end is Completed,
            !lp.resize_needed,
            !lp.close_requested,
            lp.window_extent == window_extent,
            lp.pointer == (PointerPos { x: 0, y: 0 }),
            lp.submitted@ == Seq::<u32>::empty(),
            lp.presented@ == Seq::<u32>::empty(),
    {
        PresentationLoop {
            swapchain,
            pacer: FramePacer::new(start_micros),
            phase: Phase::Idle,
            previous_frame_end: FrameFuture::Completed,
            resize_needed: false,
            close_requested: false,
            window_extent,
            pointer: PointerPos { x: 0, y: 0 },
            submitted: Vec::new(),
            presented: Vec::new(),
        }
    }

    /// Folds a window event into the cached state: a resize records the new
    /// target dimensions and flags the chain for rebuild, a close request
    /// makes the next tick terminate, a pointer move updates the position the
    /// next tick's uniform state picks up. Nothing else changes.
    pub fn handle_event(&mut self, event: WindowEvent)
        requires
            old(self).wf(),
        ensures
            final(self).wf(),
            final(self).swapchain == old(self).swapchain,
            final(self).pacer == old(self).pacer,
            final(self).phase == old(self).phase,
            final(self).previous_frame_end == old(self).previous_frame_end,
            final(self).submitted == old(self).submitted,
            final(self).presented == old(self).presented,
            match event {
                WindowEvent::CloseRequested => {
                    &&& final(self).close_requested
                    &&& final(self).resize_needed == old(self).resize_needed
                    &&& final(self).window_extent == old(self).window_extent
                    &&& final(self).pointer == old(self).pointer
                },
                WindowEvent::Resized { width, height } => {
                    &&& final(self).resize_needed
                    &&& final(self).window_extent == (Extent { width, height })
                    &&& final(self).close_requested == old(self).close_requested
                    &&& final(self).pointer == old(self).pointer
                },
                WindowEvent::PointerMoved { x, y } => {
                    &&& final(self).pointer == (PointerPos { x, y })
                    &&& final(self).resize_needed == old(self).resize_needed
                    &&& final(self).close_requested == old(self).close_requested
                    &&& final(self).window_extent == old(self).window_extent
                },
            },
    {
        match event {
            WindowEvent::CloseRequested => {
                self.close_requested = true;
            },
            WindowEvent::Resized { width, height } => {
                self.resize_needed = true;
                self.window_extent = Extent { width, height };
            },
            WindowEvent::PointerMoved { x, y } => {
                self.pointer = PointerPos { x, y };
            },
        }
    }

    /// Starts a tick. On a pending close request the loop terminates and no
    /// frame is issued. Otherwise the pacer advances, the tick's uniform
    /// state is built from the cached input, and the machine heads either to
    /// a pending rebuild (which, if it succeeds, still renders this tick) or
    /// straight to acquisition.
    pub fn begin_tick(&mut self, now_micros: u64) -> (r: TickStart)
        requires
            old(self).wf(),
            old(self).phase is Idle,
        ensures
            final(self).wf(),
            final(self).swapchain == old(self).swapchain,
            final(self).previous_frame_end == old(self).previous_frame_end,
            final(self).resize_needed == old(self).resize_needed,
            final(self).close_requested == old(self).close_requested,
            final(self).window_extent == old(self).window_extent,
            final(self).pointer == old(self).pointer,
            final(self).submitted == old(self).submitted,
            final(self).presented == old(self).presented,
            old(self).close_requested ==> {
                &&& r is Exit
                &&& final(self).phase is Terminated
                &&& final(self).pacer == old(self).pacer
            },
            !old(self).close_requested ==> {
                &&& r matches TickStart::Compute { step }
                &&& step == (ComputeStep {
                    delta_micros: old(self).pacer.spec_delta(now_micros),
                    pointer: old(self).pointer,
                })
                &&& step.delta_micros >= 1
                &&& final(self).phase == if old(self).resize_needed {
                    Phase::Resizing { resume: true }
                } else {
                    Phase::Acquiring
                }
                &&& final(self).pacer.last_micros == if now_micros > old(self).pacer.last_micros {
                    now_micros
                } else {
                    old(self).pacer.last_micros
                }
            },
    {
        if self.close_requested {
            self.phase = Phase::Terminated;
            TickStart::Exit
        } else {
            let delta_micros = self.pacer.tick(now_micros);
            if self.resize_needed {
                self.phase = Phase::Resizing { resume: true };
            } else {
                self.phase = Phase::Acquiring;
            }
            TickStart::Compute { step: ComputeStep { delta_micros, pointer: self.pointer } }
        }
    }

    /// Dimensions a rebuild must use: the window's current client area.
    pub fn resize_target(&self) -> (e: Extent)
        ensures
            e == self.window_extent,
    {
        self.window_extent
    }

    /// Folds in the outcome of an acquire-next-image request. On success the
    /// frame proceeds against the acquired image; a suboptimal image is still
    /// used this frame, but flags a rebuild for the next tick. On out-of-date
    /// the tick renders nothing: the chain must be rebuilt first.
    pub fn apply_acquire(&mut self, outcome: AcquireOutcome) -> (r: AcquireStep)
        requires
            old(self).wf(),
            old(self).phase is Acquiring,
            outcome matches AcquireOutcome::Acquired { image_index, .. } ==> image_index < old(
                self,
            ).swapchain.image_count,
        ensures
            final(self).wf(),
            final(self).swapchain == old(self).swapchain,
            final(self).pacer == old(self).pacer,
            final(self).previous_frame_end == old(self).previous_frame_end,
            final(self).close_requested == old(self).close_requested,
            final(self).window_extent == old(self).window_extent,
            final(self).pointer == old(self).pointer,
            final(self).submitted == old(self).submitted,
            final(self).presented == old(self).presented,
            match outcome {
                AcquireOutcome::Acquired { image_index, suboptimal } => {
                    &&& r == (AcquireStep::Render { image_index })
                    &&& final(self).phase == (Phase::Submitting { image_index })
                    &&& final(self).resize_needed == (old(self).resize_needed || suboptimal)
                },
                AcquireOutcome::OutOfDate => {
                    &&& r is Rebuild
                    &&& final(self).phase == (Phase::Resizing { resume: false })
                    &&& final(self).resize_needed
                },
            },
    {
        match outcome {
            AcquireOutcome::Acquired { image_index, suboptimal } => {
                if suboptimal {
                    self.resize_needed = true;
                }
                self.phase = Phase::Submitting { image_index };
                AcquireStep::Render { image_index }
            },
            AcquireOutcome::OutOfDate => {
                self.resize_needed = true;
                self.phase = Phase::Resizing { resume: false };
                AcquireStep::Rebuild
            },
        }
    }

    /// Folds in the outcome of rebuilding the swapchain against the current
    /// window dimensions. On success the chain and all framebuffers now match
    /// the window, the pending-resize flag clears, and the tick either
    /// resumes with acquisition or ends, depending on why the rebuild ran.
    /// If the backend refused the dimensions, the prior chain is untouched,
    /// the flag stays set for a later retry, and this tick renders nothing.
    pub fn apply_recreate(&mut self, outcome: RecreateOutcome) -> (r: RecreateStep)
        requires
            old(self).wf(),
            old(self).phase is Resizing,
            outcome matches RecreateOutcome::Created { image_count } ==> image_count >= 1,
        ensures
            final(self).wf(),
            final(self).pacer == old(self).pacer,
            final(self).previous_frame_end == old(self).previous_frame_end,
            final(self).close_requested == old(self).close_requested,
            final(self).window_extent == old(self).window_extent,
            final(self).pointer == old(self).pointer,
            final(self).submitted == old(self).submitted,
            final(self).presented == old(self).presented,
            match outcome {
                RecreateOutcome::Created { image_count } => {
                    &&& !final(self).resize_needed
                    &&& final(self).swapchain.extent == old(self).window_extent
                    &&& final(self).swapchain.image_count == image_count
                    &&& final(self).swapchain.framebuffers@.len() == image_count as nat
                    &&& forall|i: int|
                        0 <= i < image_count as int
                            ==> (#[trigger] final(self).swapchain.framebuffers@[i]).extent == old(
                            self,
                        ).window_extent
                    &&& final(self).swapchain.format == old(self).swapchain.format
                    &&& final(self).swapchain.present_mode == old(self).swapchain.present_mode
                    &&& if old(self).phase == (Phase::Resizing { resume: true }) {
                        r is AcquireNow && final(self).phase is Acquiring
                    } else {
                        r is SkipTick && final(self).phase is Idle
                    }
                },
                RecreateOutcome::UnsupportedDimensions => {
                    &&& final(self).swapchain == old(self).swapchain
                    &&& final(self).resize_needed == old(self).resize_needed
                    &&& r is SkipTick
                    &&& final(self).phase is Idle
                },
            },
    {
        let target = self.window_extent;
        match self.swapchain.recreate(target, outcome) {
            Ok(()) => {
                self.resize_needed = false;
                let resume = match self.phase {
                    Phase::Resizing { resume } => resume,
                    _ => false,
                };
                if resume {
                    self.phase = Phase::Acquiring;
                    RecreateStep::AcquireNow
                } else {
                    self.phase = Phase::Idle;
                    RecreateStep::SkipTick
                }
            },
            Err(_) => {
                self.phase = Phase::Idle;
                RecreateStep::SkipTick
            },
        }
    }

    /// Records the frame in submission order and hands the driver what the
    /// submission needs: the target image index and the previous frame's
    /// completion token, consumed here to be joined with the new image's
    /// availability signal.
    pub fn submit_frame(&mut self) -> (info: SubmitInfo)
        requires
            old(self).wf(),
            old(self).phase is Submitting,
        ensures
            final(self).wf(),
            final(self).swapchain == old(self).swapchain,
            final(self).pacer == old(self).pacer,
            final(self).resize_needed == old(self).resize_needed,
            final(self).close_requested == old(self).close_requested,
            final(self).window_extent == old(self).window_extent,
            final(self).pointer == old(self).pointer,
            final(self).presented == old(self).presented,
            info.precondition == old(self).previous_frame_end,
            final(self).previous_frame_end is Completed,
            old(self).phase matches Phase::Submitting { image_index } ==> {
                &&& info.image_index == image_index
                &&& final(self).phase == (Phase::Presenting { image_index })
                &&& final(self).submitted@ == old(self).submitted@.push(image_index)
            },
    {
        let image_index = match self.phase {
            Phase::Submitting { image_index } => image_index,
            _ => 0,
        };
        let info = SubmitInfo { image_index, precondition: self.previous_frame_end };
        self.previous_frame_end = FrameFuture::Completed;
        self.submitted.push(image_index);
        self.phase = Phase::Presenting { image_index };
        info
    }

    /// Folds in the outcome of chaining the present request and flushing.
    /// The request for the submitted image was issued either way, so it is
    /// recorded in presentation order and the histories are equal again; only
    /// the new completion token depends on the outcome. On success the
    /// frame's pending token becomes the new "previous frame end"; on
    /// out-of-date the chain is flagged for rebuild and the token resets to a
    /// no-op; on any other failure the token resets and the loop carries on.
    pub fn apply_present(&mut self, outcome: PresentOutcome)
        requires
            old(self).wf(),
            old(self).phase is Presenting,
        ensures
            final(self).wf(),
            final(self).swapchain == old(self).swapchain,
            final(self).pacer == old(self).pacer,
            final(self).close_requested == old(self).close_requested,
            final(self).window_extent == old(self).window_extent,
            final(self).pointer == old(self).pointer,
            final(self).submitted == old(self).submitted,
            final(self).phase is Idle,
            old(self).phase matches Phase::Presenting { image_index } ==> final(self).presented@
                == old(self).presented@.push(image_index),
            final(self).presented@ == old(self).submitted@,
            match outcome {
                PresentOutcome::Presented => {
                    &&& final(self).previous_frame_end == (FrameFuture::Pending(
                        old(self).presented@.len() as u64,
                    ))
                    &&& final(self).resize_needed == old(self).resize_needed
                },
                PresentOutcome::OutOfDate => {
                    &&& final(self).previous_frame_end is Completed
                    &&& final(self).resize_needed
                },
                PresentOutcome::OtherError => {
                    &&& final(self).previous_frame_end is Completed
                    &&& final(self).resize_needed == old(self).resize_needed
                },
            },
    {
        let image_index = match self.phase {
            Phase::Presenting { image_index } => image_index,
            _ => 0,
        };
        let frame_number: u64 = self.presented.len() as u64;
        self.presented.push(image_index);
        match outcome {
            PresentOutcome::Presented => {
                self.previous_frame_end = FrameFuture::Pending(frame_number);
            },
            PresentOutcome::OutOfDate => {
                self.resize_needed = true;
                self.previous_frame_end = FrameFuture::Completed;
            },
            PresentOutcome::OtherError => {
                self.previous_frame_end = FrameFuture::Completed;
            },
        }
        self.phase = Phase::Idle;
    }
}

/// Law: presentation order equals submission order. The image indices handed
/// to the presentation engine are always a prefix of those submitted, in the
/// same order — frame `i`'s image reaches the presentation engine before
/// frame `i + 1`'s — and whenever no frame sits between submission and
/// present request, the two histories are equal.
pub proof fn lemma_presentation_order_matches_submission(lp: PresentationLoop)
    requires
        lp.wf(),
    ensures
        lp.presented@.is_prefix_of(lp.submitted@),
        lp.phase !is Presenting ==> lp.presented@ == lp.submitted@,
{
    match lp.phase {
        Phase::Presenting { image_index } => {
            assert(lp.submitted@ == lp.presented@.push(image_index));
            assert(lp.submitted@.subrange(0, lp.presented@.len() as int) =~= lp.presented@);
        },
        _ => {
            assert(lp.submitted@.subrange(0, lp.presented@.len() as int) =~= lp.presented@);
        },
    }
}

} // verus!
