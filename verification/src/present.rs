//! The presentation loop's state machine.
//!
//! One iteration runs: recreate the swapchain if it was flagged, acquire
//! an image, drive the emulation core for one video frame, drain audio,
//! blit, submit and present.  The decisions — when to recreate, when to
//! skip the core, when the session is lost — are made here over plain
//! values; the host performs the GPU work and hands back each step's
//! outcome.  The frame-in-flight future is modelled as a single slot
//! whose value is moved out and replaced every iteration.

use vstd::prelude::*;

verus! {

/// What acquiring the next swapchain image reported.
#[derive(Clone, Copy, Debug, PartialEq, Eq, Structural)]
pub enum AcquireOutcome {
    Success { image_index: usize, suboptimal: bool },
    OutOfDate,
    Failure,
}

/// What submitting and presenting the frame reported.
#[derive(Clone, Copy, Debug, PartialEq, Eq, Structural)]
pub enum SubmitOutcome {
    Completed,
    OutOfDate,
    Failure,
}

/// What the loop must do with the rest of the iteration.
#[derive(Clone, Copy, Debug, PartialEq, Eq, Structural)]
pub enum FrameDirective {
    /// Drive the core one video frame, drain audio, blit to the image and
    /// submit.
    Render { image_index: usize },
    /// Skip the iteration entirely; the core is not advanced and audio is
    /// not drained.
    SkipFrame,
    /// Unrecoverable; terminate the session.
    FatalError,
}

/// The single frame-in-flight slot: either the trivially-complete
/// placeholder or the chain of work submitted by an earlier frame.
#[derive(Clone, Copy, Debug, PartialEq, Eq, Structural)]
pub enum FutureSlot {
    Placeholder,
    Chained { serial: u64 },
}

#[derive(Clone, Copy, Debug, PartialEq, Eq, Structural)]
pub struct PresentLoop {
    /// The swapchain must be recreated before the next acquire.
    pub recreate_swapchain: bool,
    /// The last submitted unit of GPU work, threaded into the next frame.
    pub in_flight: FutureSlot,
    /// Completed whole-video-frame advances of the emulation core.
    pub core_frames: u64,
    /// Frames successfully submitted for presentation.
    pub frames_presented: u64,
}

/// The serial the next successful submission chains onto the slot.
pub open spec fn spec_next_serial(slot: FutureSlot) -> nat {
    match slot {
        FutureSlot::Placeholder => 1,
        FutureSlot::Chained { serial } => serial as nat + 1,
    }
}

/// Start of an iteration: the recreation flag is consumed; the host must
/// recreate the swapchain exactly when it was set, before acquiring.
pub open spec fn spec_begin_iteration(s: PresentLoop) -> (PresentLoop, bool) {
    (PresentLoop { recreate_swapchain: false, ..s }, s.recreate_swapchain)
}

/// The acquire decision.  Out-of-date surfaces are never an error: the
/// iteration is skipped, recreation is flagged, and — deliberately — the
/// core is not advanced, so emulation and audio are not double-driven.
/// A suboptimal acquire proceeds normally but flags recreation for the
/// next iteration.  Anything else is fatal.
pub open spec fn spec_handle_acquire(s: PresentLoop, o: AcquireOutcome) -> (
    PresentLoop,
    FrameDirective,
) {
    match o {
        AcquireOutcome::Success { image_index, suboptimal } => (
            PresentLoop {
                recreate_swapchain: s.recreate_swapchain || suboptimal,
                core_frames: (s.core_frames + 1) as u64,
                ..s
            },
            FrameDirective::Render { image_index },
        ),
        AcquireOutcome::OutOfDate => (
            PresentLoop { recreate_swapchain: true, ..s },
            FrameDirective::SkipFrame,
        ),
        AcquireOutcome::Failure => (s, FrameDirective::FatalError),
    }
}

/// The submit decision.  A completed submission becomes the new
/// in-flight future; an out-of-date present drops the frame, flags
/// recreation and replaces the slot with a fresh placeholder; anything
/// else is fatal.
pub open spec fn spec_handle_submit(s: PresentLoop, o: SubmitOutcome) -> (
    PresentLoop,
    FrameDirective,
) {
    match o {
        SubmitOutcome::Completed => (
            PresentLoop {
                in_flight: FutureSlot::Chained {
                    serial: spec_next_serial(s.in_flight) as u64,
                },
                frames_presented: (s.frames_presented + 1) as u64,
                ..s
            },
            FrameDirective::SkipFrame,
        ),
        SubmitOutcome::OutOfDate => (
            PresentLoop { recreate_swapchain: true, in_flight: FutureSlot::Placeholder, ..s },
            FrameDirective::SkipFrame,
        ),
        SubmitOutcome::Failure => (s, FrameDirective::FatalError),
    }
}

impl PresentLoop {
    /// A fresh session: nothing in flight beyond the trivially-complete
    /// placeholder, no recreation pending.
    pub fn new() -> (r: PresentLoop)
        ensures
            r == (PresentLoop {
                recreate_swapchain: false,
                in_flight: FutureSlot::Placeholder,
                core_frames: 0,
                frames_presented: 0,
            }),
    {
        PresentLoop {
            recreate_swapchain: false,
            in_flight: FutureSlot::Placeholder,
            core_frames: 0,
            frames_presented: 0,
        }
    }

    /// A window resize only marks the swapchain for recreation; the
    /// recreation itself happens at the start of the next iteration.
    pub fn note_resize(&mut self)
        ensures
            *final(self) == (PresentLoop { recreate_swapchain: true, ..*old(self) }),
    {
        self.recreate_swapchain = true;
    }

    /// Consumes the recreation flag; returns whether the host must
    /// recreate the swapchain now, before this iteration's acquire.
    pub fn begin_iteration(&mut self) -> (recreate_now: bool)
        ensures
            (*final(self), recreate_now) == spec_begin_iteration(*old(self)),
    {
        let r = self.recreate_swapchain;
        self.recreate_swapchain = false;
        r
    }

    /// Applies the acquire outcome; see `spec_handle_acquire`.
    pub fn handle_acquire(&mut self, outcome: AcquireOutcome) -> (d: FrameDirective)
        requires
            old(self).core_frames < u64::MAX,
        ensures
            (*final(self), d) == spec_handle_acquire(*old(self), outcome),
    {
        match outcome {
            AcquireOutcome::Success { image_index, suboptimal } => {
                if suboptimal {
                    self.recreate_swapchain = true;
                }
                self.core_frames = self.core_frames + 1;
                FrameDirective::Render { image_index }
            },
            AcquireOutcome::OutOfDate => {
                self.recreate_swapchain = true;
                FrameDirective::SkipFrame
            },
            AcquireOutcome::Failure => FrameDirective::FatalError,
        }
    }

    /// Applies the submit outcome; see `spec_handle_submit`.
    pub fn handle_submit(&mut self, outcome: SubmitOutcome) -> (d: FrameDirective)
        requires
            spec_next_serial(old(self).in_flight) <= u64::MAX,
            old(self).frames_presented < u64::MAX,
        ensures
            (*final(self), d) == spec_handle_submit(*old(self), outcome),
    {
        match outcome {
            SubmitOutcome::Completed => {
                let serial = match self.in_flight {
                    FutureSlot::Placeholder => 1,
                    FutureSlot::Chained { serial } => serial + 1,
                };
                self.in_flight = FutureSlot::Chained { serial };
                self.frames_presented = self.frames_presented + 1;
                FrameDirective::SkipFrame
            },
            SubmitOutcome::OutOfDate => {
                self.recreate_swapchain = true;
                self.in_flight = FutureSlot::Placeholder;
                FrameDirective::SkipFrame
            },
            SubmitOutcome::Failure => FrameDirective::FatalError,
        }
    }
}

/// A presentation mode the surface may offer, in host-independent
/// terms.
#[derive(Clone, Copy, Debug, PartialEq, Eq, Structural)]
pub enum PresentModeKind {
    Mailbox,
    Immediate,
    Fifo,
    FifoRelaxed,
    Other,
}

/// The preference order among presentation modes: lower ranks first.
pub fn present_mode_rank(mode: PresentModeKind) -> (r: u8)
    ensures
        mode is Mailbox ==> r == 0,
        mode is Immediate ==> r == 1,
        mode is Fifo ==> r == 2,
        mode is FifoRelaxed ==> r == 3,
        mode is Other ==> r == 4,
{
    match mode {
        PresentModeKind::Mailbox => 0,
        PresentModeKind::Immediate => 1,
        PresentModeKind::Fifo => 2,
        PresentModeKind::FifoRelaxed => 3,
        PresentModeKind::Other => 4,
    }
}

/// Out-of-date recovery: an out-of-date acquire never advances the
/// emulation core that iteration, flags the swapchain for recreation,
/// and the very next iteration performs the recreation before its
/// acquire.
pub proof fn lemma_out_of_date_skips_core(s: PresentLoop)
    ensures
        ({
            let (s1, d) = spec_handle_acquire(s, AcquireOutcome::OutOfDate);
            let (s2, recreate_now) = spec_begin_iteration(s1);
            &&& d == FrameDirective::SkipFrame
            &&& s1.core_frames == s.core_frames
            &&& s1.recreate_swapchain
            &&& recreate_now
            &&& !s2.recreate_swapchain
        }),
{
}

/// A suboptimal acquire is not skipped: the frame still renders, but the
/// swapchain is flagged for recreation before the next acquire.
pub proof fn lemma_suboptimal_renders_then_recreates(s: PresentLoop, image_index: usize)
    requires
        s.core_frames < u64::MAX,
    ensures
        ({
            let (s1, d) = spec_handle_acquire(
                s,
                AcquireOutcome::Success { image_index, suboptimal: true },
            );
            &&& d == (FrameDirective::Render { image_index })
            &&& s1.core_frames == s.core_frames + 1
            &&& s1.recreate_swapchain
        }),
{
}

/// The future baton: each successfully presented frame consumes the
/// previous in-flight future and replaces it with its own, one serial
/// later; an out-of-date present replaces it with the placeholder.
pub proof fn lemma_future_baton(s: PresentLoop)
    requires
        spec_next_serial(s.in_flight) <= u64::MAX,
    ensures
        spec_handle_submit(s, SubmitOutcome::Completed).0.in_flight == (FutureSlot::Chained {
            serial: spec_next_serial(s.in_flight) as u64,
        }),
        spec_handle_submit(s, SubmitOutcome::OutOfDate).0.in_flight == FutureSlot::Placeholder,
{
}

} // verus!
