//! The per-frame synchronization state machine: wait on the slot's fence,
//! acquire an image, record and submit, present, advance.
//!
//! The controller decides; its caller performs each action against the
//! graphics backend and reports the outcome back as an event.

use crate::swapchain::{Extent2D, SwapchainState};
use vstd::prelude::*;

verus! {

/// Number of frame slots, each with its own command buffer, semaphores,
/// fence and uniform buffer.
pub const MAX_FRAMES_IN_FLIGHT: usize = 2;

/// Where the controller stands within a frame cycle.
#[derive(Clone, Copy, Debug, PartialEq, Eq, Structural)]
pub enum Phase {
    /// Between cycles.
    Idle,
    /// Waiting on the current slot's in-flight fence.
    WaitingForFence,
    /// Acquiring the next presentable image.
    Acquiring,
    /// Recording and submitting the current slot's command buffer.
    Rendering { image_index: u32 },
    /// Presenting the rendered image.
    Presenting { image_index: u32 },
    /// Waiting for the swapchain to be rebuilt.
    Recreating,
    /// Torn down after a close request.
    Closed,
    /// Stopped on an unrecoverable failure.
    Failed,
}

/// What the window or the backend reports to the controller.
#[derive(Clone, Copy, Debug, PartialEq, Eq, Structural)]
pub enum FrameEvent {
    /// The loop is ready to draw another frame.
    Redraw,
    /// The window's drawable area changed.
    Resized { width: u32, height: u32 },
    /// The current slot's fence was observed signaled.
    FenceSignaled,
    /// An image was acquired.
    Acquired { image_index: u32 },
    /// Acquisition reported the swapchain out of date.
    AcquireOutOfDate,
    /// Acquisition failed in any other way.
    AcquireFailed,
    /// The current slot's command buffer was submitted, signaling its fence
    /// on completion.
    Submitted,
    /// The image was queued for presentation.
    Presented { suboptimal: bool },
    /// Presentation reported the swapchain out of date.
    PresentOutOfDate,
    /// Presentation failed in any other way.
    PresentFailed,
    /// The swapchain was rebuilt with this many images.
    Recreated { image_count: usize },
    /// The window is closing.
    CloseRequested,
}

/// What the controller asks its caller to do next.
#[derive(Clone, Copy, Debug, PartialEq, Eq, Structural)]
pub enum FrameAction {
    /// Nothing to do now.
    Nothing,
    /// Block on the slot's in-flight fence, then report `FenceSignaled`.
    WaitForFence { slot: usize },
    /// Acquire the next image, signaling the slot's image-available semaphore.
    AcquireImage { slot: usize },
    /// Reset the slot's fence and command buffer, record the render pass into
    /// the framebuffer of `image_index`, write the slot's uniform data, and
    /// submit, signaling the slot's render-finished semaphore and fence.
    RecordAndSubmit { slot: usize, image_index: u32 },
    /// Present `image_index` once the slot's render-finished semaphore fires.
    Present { slot: usize, image_index: u32 },
    /// Wait for the device to go idle, then rebuild the swapchain and report
    /// `Recreated`.
    RecreateSwapchain,
    /// Wait for the device to go idle, then destroy everything in reverse
    /// order of creation.
    Teardown,
    /// Stop: the failure cannot be recovered.
    Abort,
}

/// The abstract state of a [`FrameController`].
pub ghost struct ControllerModel {
    /// Index of the slot the current cycle uses.
    pub current_frame: int,
    /// Per slot: a submission that used the slot has not yet been observed
    /// complete through the slot's fence.
    pub in_flight: Seq<bool>,
    pub phase: Phase,
    /// A resize was reported and the swapchain has not been rebuilt since.
    pub resize_pending: bool,
    /// The window's last reported size.
    pub window: Extent2D,
    /// Number of images in the current swapchain.
    pub image_count: int,
}

/// The states the controller can be in.
pub open spec fn inv(s: ControllerModel) -> bool {
    &&& 0 <= s.current_frame < MAX_FRAMES_IN_FLIGHT
    &&& s.in_flight.len() == MAX_FRAMES_IN_FLIGHT
    &&& s.phase is Acquiring ==> !s.in_flight[s.current_frame]
    &&& s.phase matches Phase::Rendering { image_index } ==> !s.in_flight[s.current_frame]
        && image_index < s.image_count
    &&& s.phase matches Phase::Presenting { image_index } ==> s.in_flight[s.current_frame]
        && image_index < s.image_count
}

pub open spec fn advanced(frame: int) -> int {
    (frame + 1) % (MAX_FRAMES_IN_FLIGHT as int)
}

/// The controller's transition: the state after event `e` and the action it
/// asks for. An event that does not fit the phase is ignored.
pub open spec fn next(s: ControllerModel, e: FrameEvent) -> (ControllerModel, FrameAction) {
    let slot = s.current_frame as usize;
    let ignored = (s, FrameAction::Nothing);
    if s.phase is Closed || s.phase is Failed {
        ignored
    } else {
        match e {
            FrameEvent::CloseRequested => (
                ControllerModel { phase: Phase::Closed, ..s },
                FrameAction::Teardown,
            ),
            FrameEvent::Resized { width, height } => (
                ControllerModel { window: Extent2D { width, height }, resize_pending: true, ..s },
                FrameAction::Nothing,
            ),
            FrameEvent::Redraw => {
                if s.phase is Idle && s.window.width > 0 && s.window.height > 0 {
                    (
                        ControllerModel { phase: Phase::WaitingForFence, ..s },
                        FrameAction::WaitForFence { slot },
                    )
                } else {
                    ignored
                }
            },
            FrameEvent::FenceSignaled => {
                if s.phase is WaitingForFence {
                    (
                        ControllerModel {
                            phase: Phase::Acquiring,
                            in_flight: s.in_flight.update(s.current_frame, false),
                            ..s
                        },
                        FrameAction::AcquireImage { slot },
                    )
                } else {
                    ignored
                }
            },
            FrameEvent::Acquired { image_index } => {
                if !(s.phase is Acquiring) {
                    ignored
                } else if image_index < s.image_count {
                    (
                        ControllerModel { phase: Phase::Rendering { image_index }, ..s },
                        FrameAction::RecordAndSubmit { slot, image_index },
                    )
                } else {
                    (ControllerModel { phase: Phase::Failed, ..s }, FrameAction::Abort)
                }
            },
            FrameEvent::AcquireOutOfDate => {
                if s.phase is Acquiring {
                    (
                        ControllerModel { phase: Phase::Recreating, resize_pending: false, ..s },
                        FrameAction::RecreateSwapchain,
                    )
                } else {
                    ignored
                }
            },
            FrameEvent::AcquireFailed => {
                if s.phase is Acquiring {
                    (ControllerModel { phase: Phase::Failed, ..s }, FrameAction::Abort)
                } else {
                    ignored
                }
            },
            FrameEvent::Submitted => {
                if let Phase::Rendering { image_index } = s.phase {
                    (
                        ControllerModel {
                            phase: Phase::Presenting { image_index },
                            in_flight: s.in_flight.update(s.current_frame, true),
                            ..s
                        },
                        FrameAction::Present { slot, image_index },
                    )
                } else {
                    ignored
                }
            },
            FrameEvent::Presented { suboptimal } => {
                if !(s.phase is Presenting) {
                    ignored
                } else if suboptimal || s.resize_pending {
                    (
                        ControllerModel {
                            phase: Phase::Recreating,
                            resize_pending: false,
                            current_frame: advanced(s.current_frame),
                            ..s
                        },
                        FrameAction::RecreateSwapchain,
                    )
                } else {
                    (
                        ControllerModel {
                            phase: Phase::Idle,
                            current_frame: advanced(s.current_frame),
                            ..s
                        },
                        FrameAction::Nothing,
                    )
                }
            },
            FrameEvent::PresentOutOfDate => {
                if s.phase is Presenting {
                    (
                        ControllerModel {
                            phase: Phase::Recreating,
                            resize_pending: false,
                            current_frame: advanced(s.current_frame),
                            ..s
                        },
                        FrameAction::RecreateSwapchain,
                    )
                } else {
                    ignored
                }
            },
            FrameEvent::PresentFailed => {
                if s.phase is Presenting {
                    (ControllerModel { phase: Phase::Failed, ..s }, FrameAction::Abort)
                } else {
                    ignored
                }
            },
            FrameEvent::Recreated { image_count } => {
                if s.phase is Recreating {
                    (
                        ControllerModel { phase: Phase::Idle, image_count: image_count as int, ..s },
                        FrameAction::Nothing,
                    )
                } else {
                    ignored
                }
            },
        }
    }
}

/// Every transition keeps the controller within its states.
pub proof fn lemma_next_preserves_inv(s: ControllerModel, e: FrameEvent)
    requires
        inv(s),
    ensures
        inv(next(s, e).0),
{
}

/// A slot's command buffer is recorded only when no submission that used the
/// slot is outstanding, and an outstanding submission is cleared only by
/// observing that slot's fence signaled. So the command buffer that cycle `k`
/// submitted on slot `k mod N` is not recorded again before the fence that
/// submission signals has been seen signaled.
pub proof fn lemma_slot_reuse_waits_for_fence(s: ControllerModel, e: FrameEvent)
    requires
        inv(s),
    ensures
        next(s, e).1 matches FrameAction::RecordAndSubmit { slot, .. } ==> slot
            == s.current_frame && !s.in_flight[slot as int],
        forall|i: int|
            0 <= i < MAX_FRAMES_IN_FLIGHT && s.in_flight[i] && !(#[trigger] next(s, e).0.in_flight[i])
                ==> e is FenceSignaled && s.phase is WaitingForFence && i == s.current_frame,
        next(s, e).1 matches FrameAction::Present { slot, .. } ==> slot == s.current_frame
            && next(s, e).0.in_flight[slot as int],
{
}

/// The frame counter moves only when a cycle has been presented, and then by
/// one slot.
pub proof fn lemma_advance_only_after_present(s: ControllerModel, e: FrameEvent)
    requires
        inv(s),
    ensures
        next(s, e).0.current_frame != s.current_frame ==> s.phase is Presenting && (
        e is Presented || e is PresentOutOfDate) && next(s, e).0.current_frame == advanced(
            s.current_frame,
        ),
{
}

/// While the window has zero width or height no frame is started and nothing
/// changes; once both are positive, the next redraw starts a cycle on the
/// same slot as before.
pub proof fn lemma_suspend_on_zero_size(s: ControllerModel, width: u32, height: u32)
    requires
        inv(s),
        (s.phase is Idle),
    ensures
        (s.window.width == 0 || s.window.height == 0 ==> next(s, FrameEvent::Redraw) == (
        s,
        FrameAction::Nothing,
        )),
        (next(s, FrameEvent::Resized { width, height }).0.current_frame == s.current_frame),
        (next(s, FrameEvent::Resized { width, height }).0.phase == s.phase),
        (width > 0 && height > 0 ==> next(
            next(s, FrameEvent::Resized { width, height }).0,
            FrameEvent::Redraw,
        ).1 == FrameAction::WaitForFence { slot: s.current_frame as usize }),
{
}

/// An acquire that reports the swapchain out of date ends the cycle: the
/// frame counter and the slots stay as they were, the swapchain is rebuilt,
/// and until it is, nothing is submitted or presented.
pub proof fn lemma_aborted_acquire(s: ControllerModel, e: FrameEvent)
    requires
        inv(s),
        (s.phase is Acquiring),
    ensures
        next(s, FrameEvent::AcquireOutOfDate).1 == FrameAction::RecreateSwapchain,
        next(s, FrameEvent::AcquireOutOfDate).0.current_frame == s.current_frame,
        next(s, FrameEvent::AcquireOutOfDate).0.in_flight == s.in_flight,
        next(s, FrameEvent::AcquireOutOfDate).0.phase == Phase::Recreating,
        !(next(next(s, FrameEvent::AcquireOutOfDate).0, e).1 is RecordAndSubmit),
        !(next(next(s, FrameEvent::AcquireOutOfDate).0, e).1 is Present),
        next(next(s, FrameEvent::AcquireOutOfDate).0, e).0.current_frame == s.current_frame,
{
}

/// While the swapchain is being rebuilt nothing is recorded, submitted or
/// presented, and the frame slots are left as they are.
pub proof fn lemma_quiet_while_recreating(s: ControllerModel, e: FrameEvent)
    requires
        inv(s),
        (s.phase is Recreating),
    ensures
        !(next(s, e).1 is RecordAndSubmit),
        !(next(s, e).1 is Present),
        next(s, e).0.current_frame == s.current_frame,
        next(s, e).0.in_flight == s.in_flight,
{
}

/// The state of a controller fresh from startup: slot 0, no submission
/// outstanding, no resize pending.
pub open spec fn initial(window: Extent2D, image_count: int) -> ControllerModel {
    ControllerModel {
        current_frame: 0,
        in_flight: seq![false, false],
        phase: Phase::Idle,
        resize_pending: false,
        window,
        image_count,
    }
}

/// Drives the acquire, record, submit and present cycle over
/// [`MAX_FRAMES_IN_FLIGHT`] frame slots.
pub struct FrameController {
    current_frame: usize,
    in_flight: Vec<bool>,
    phase: Phase,
    resize_pending: bool,
    window: Extent2D,
    image_count: usize,
}

impl View for FrameController {
    type V = ControllerModel;

    closed spec fn view(&self) -> ControllerModel {
        ControllerModel {
            current_frame: self.current_frame as int,
            in_flight: self.in_flight@,
            phase: self.phase,
            resize_pending: self.resize_pending,
            window: self.window,
            image_count: self.image_count as int,
        }
    }
}

impl FrameController {
    pub open spec fn wf(&self) -> bool {
        inv(self@)
    }

    /// A controller for a window of the given size and a swapchain of
    /// `image_count` images.
    pub fn new(window: Extent2D, image_count: usize) -> (r: Self)
        ensures
            r.wf(),
            r@ == initial(window, image_count as int),
    {
        let mut in_flight: Vec<bool> = Vec::new();
        in_flight.push(false);
        in_flight.push(false);
        assert(in_flight@ =~= seq![false, false]);
        FrameController {
            current_frame: 0,
            in_flight,
            phase: Phase::Idle,
            resize_pending: false,
            window,
            image_count,
        }
    }

    /// Index of the slot the current cycle uses.
    pub fn current_frame(&self) -> (r: usize)
        ensures
            r == self@.current_frame,
    {
        self.current_frame
    }

    pub fn phase(&self) -> (r: Phase)
        ensures
            r == self@.phase,
    {
        self.phase
    }

    /// Whether a resize was reported that the swapchain has not caught up with.
    pub fn resize_pending(&self) -> (r: bool)
        ensures
            r == self@.resize_pending,
    {
        self.resize_pending
    }

    /// Whether a submission that used `slot` is still outstanding.
    pub fn slot_in_flight(&self, slot: usize) -> (r: bool)
        requires
            self.wf(),
            slot < MAX_FRAMES_IN_FLIGHT,
        ensures
            r == self@.in_flight[slot as int],
    {
        self.in_flight[slot]
    }

    fn advance(&mut self)
        requires
            old(self).current_frame < MAX_FRAMES_IN_FLIGHT,
        ensures
            final(self)@ == (ControllerModel {
                current_frame: advanced(old(self)@.current_frame),
                ..old(self)@
            }),
    {
        self.current_frame = (self.current_frame + 1) % MAX_FRAMES_IN_FLIGHT;
    }

    /// Takes one event and returns the action it calls for.
    pub fn step(&mut self, event: FrameEvent) -> (r: FrameAction)
        requires
            old(self).wf(),
        ensures
            final(self).wf(),
            (final(self)@, r) == next(old(self)@, event),
    {
        proof {
            lemma_next_preserves_inv(self@, event);
        }
        if let Phase::Closed = self.phase {
            return FrameAction::Nothing;
        }
        if let Phase::Failed = self.phase {
            return FrameAction::Nothing;
        }
        let slot = self.current_frame;
        match event {
            FrameEvent::CloseRequested => {
                self.phase = Phase::Closed;
                FrameAction::Teardown
            },
            FrameEvent::Resized { width, height } => {
                self.window = Extent2D { width, height };
                self.resize_pending = true;
                FrameAction::Nothing
            },
            FrameEvent::Redraw => {
                if let Phase::Idle = self.phase {
                    if self.window.width > 0 && self.window.height > 0 {
                        self.phase = Phase::WaitingForFence;
                        return FrameAction::WaitForFence { slot };
                    }
                }
                FrameAction::Nothing
            },
            FrameEvent::FenceSignaled => {
                if let Phase::WaitingForFence = self.phase {
                    self.phase = Phase::Acquiring;
                    self.in_flight.set(slot, false);
                    FrameAction::AcquireImage { slot }
                } else {
                    FrameAction::Nothing
                }
            },
            FrameEvent::Acquired { image_index } => {
                if let Phase::Acquiring = self.phase {
                    if (image_index as usize) < self.image_count {
                        self.phase = Phase::Rendering { image_index };
                        FrameAction::RecordAndSubmit { slot, image_index }
                    } else {
                        self.phase = Phase::Failed;
                        FrameAction::Abort
                    }
                } else {
                    FrameAction::Nothing
                }
            },
            FrameEvent::AcquireOutOfDate => {
                if let Phase::Acquiring = self.phase {
                    self.phase = Phase::Recreating;
                    self.resize_pending = false;
                    FrameAction::RecreateSwapchain
                } else {
                    FrameAction::Nothing
                }
            },
            FrameEvent::AcquireFailed => {
                if let Phase::Acquiring = self.phase {
                    self.phase = Phase::Failed;
                    FrameAction::Abort
                } else {
                    FrameAction::Nothing
                }
            },
            FrameEvent::Submitted => {
                if let Phase::Rendering { image_index } = self.phase {
                    self.phase = Phase::Presenting { image_index };
                    self.in_flight.set(slot, true);
                    FrameAction::Present { slot, image_index }
                } else {
                    FrameAction::Nothing
                }
            },
            FrameEvent::Presented { suboptimal } => {
                if let Phase::Presenting { .. } = self.phase {
                    self.advance();
                    if suboptimal || self.resize_pending {
                        self.phase = Phase::Recreating;
                        self.resize_pending = false;
                        FrameAction::RecreateSwapchain
                    } else {
                        self.phase = Phase::Idle;
                        FrameAction::Nothing
                    }
                } else {
                    FrameAction::Nothing
                }
            },
            FrameEvent::PresentOutOfDate => {
                if let Phase::Presenting { .. } = self.phase {
                    self.advance();
                    self.phase = Phase::Recreating;
                    self.resize_pending = false;
                    FrameAction::RecreateSwapchain
                } else {
                    FrameAction::Nothing
                }
            },
            FrameEvent::PresentFailed => {
                if let Phase::Presenting { .. } = self.phase {
                    self.phase = Phase::Failed;
                    FrameAction::Abort
                } else {
                    FrameAction::Nothing
                }
            },
            FrameEvent::Recreated { image_count } => {
                if let Phase::Recreating = self.phase {
                    self.phase = Phase::Idle;
                    self.image_count = image_count;
                }
                FrameAction::Nothing
            },
        }
    }
}

/// What one frame's command buffer records: a render pass into the
/// framebuffer of the acquired image over the whole swapchain extent (also
/// the viewport and scissor), the fixed pipeline, the vertex and index
/// buffers, the slot's descriptor set, and one indexed draw.
#[derive(Clone, Copy, Debug, PartialEq, Eq, Structural)]
pub struct DrawCommands {
    /// The frame slot whose command buffer and descriptor set are used.
    pub slot: usize,
    pub framebuffer: u64,
    pub extent: Extent2D,
    pub index_count: u32,
}

/// Describes the commands to record for `slot` and the acquired image; none
/// when the slot or the image index is out of range.
pub fn draw_commands(
    swapchain: &SwapchainState,
    slot: usize,
    image_index: u32,
    index_count: u32,
) -> (r: Option<DrawCommands>)
    ensures
        r is Some <==> slot < MAX_FRAMES_IN_FLIGHT && image_index < swapchain@.images.len(),
        r matches Some(d) ==> d == (DrawCommands {
            slot,
            framebuffer: swapchain@.images[image_index as int].framebuffer,
            extent: swapchain@.plan.extent,
            index_count,
        }),
{
    if slot >= MAX_FRAMES_IN_FLIGHT {
        return None;
    }
    match swapchain.image(image_index as usize) {
        Some(img) => Some(
            DrawCommands { slot, framebuffer: img.framebuffer, extent: swapchain.extent(), index_count },
        ),
        None => None,
    }
}

} // verus!
