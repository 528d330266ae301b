use vstd::prelude::*;
use crate::error::VulkanError;
use crate::surface::Extent;

verus! {

/// Where the current frame stands.
#[derive(Debug, Clone, Copy, PartialEq, Eq, Structural)]
pub enum FrameState {
    Idle,
    Acquiring,
    Recording,
    Submitted,
}

/// The frame-in-flight token: whether submitted work may still be reading
/// this window's per-frame resources.
#[derive(Debug, Clone, Copy, PartialEq, Eq, Structural)]
pub enum FrameToken {
    /// Nothing to wait for.
    Ready,
    /// The last frame's work was submitted and must be waited on.
    InFlight,
}

/// What the caller does at the start of a frame.
#[derive(Debug, Clone, Copy, PartialEq, Eq, Structural)]
pub enum BeginStep {
    /// The window has no area: draw nothing this frame.
    Skip,
    /// Wait on the previous frame when asked, rebuild the surface when asked,
    /// then acquire the next image.
    Acquire { wait_previous: bool, recreate_surface: bool },
}

/// What acquiring the next image gave.
#[derive(Debug, Clone)]
pub enum AcquireOutcome {
    Acquired { image_index: u32, suboptimal: bool },
    OutOfDate,
    Failed(String),
}

/// What submitting and presenting the frame gave.
#[derive(Debug, Clone)]
pub enum PresentOutcome {
    Presented,
    OutOfDate,
    Failed(String),
}

/// The per-window frame state machine: Idle, Acquiring, Recording, Submitted.
#[derive(Debug, Clone, Copy, PartialEq, Eq, Structural)]
pub struct FrameScheduler {
    pub state: FrameState,
    /// The surface must be rebuilt before the next image is acquired.
    pub needs_recreate: bool,
    pub token: FrameToken,
}

impl FrameScheduler {
    /// An idle scheduler with nothing in flight and a fresh surface.
    pub fn new() -> (r: Self)
        ensures
            r.state == FrameState::Idle,
            !r.needs_recreate,
            r.token == FrameToken::Ready,
    {
        FrameScheduler { state: FrameState::Idle, needs_recreate: false, token: FrameToken::Ready }
    }

    /// Starts a frame at window size `extent`. A zero-area window skips the
    /// frame and changes nothing. Otherwise the previous frame's token is waited
    /// on (when one is in flight) and consumed, a pending surface rebuild is
    /// carried out, and the scheduler moves on to acquiring.
    pub fn begin_frame(&mut self, extent: Extent) -> (r: BeginStep)
        requires
            old(self).state == FrameState::Idle,
        ensures
            extent.zero_area() ==> r == BeginStep::Skip && *final(self) == *old(self),
            !extent.zero_area() ==> r == (BeginStep::Acquire {
                wait_previous: old(self).token == FrameToken::InFlight,
                recreate_surface: old(self).needs_recreate,
            }) && *final(self) == (FrameScheduler {
                state: FrameState::Acquiring,
                needs_recreate: false,
                token: FrameToken::Ready,
            }),
    {
        if extent.is_zero_area() {
            return BeginStep::Skip;
        }
        let step = BeginStep::Acquire {
            wait_previous: self.token == FrameToken::InFlight,
            recreate_surface: self.needs_recreate,
        };
        self.state = FrameState::Acquiring;
        self.needs_recreate = false;
        self.token = FrameToken::Ready;
        step
    }

    /// Takes the result of acquiring an image. An image moves the frame on to
    /// recording and, when the surface called itself suboptimal, asks for a
    /// rebuild before the next frame. An out-of-date surface asks for a rebuild
    /// and ends the frame without error. Any other failure ends the frame with a
    /// swapchain error.
    pub fn acquired(&mut self, outcome: AcquireOutcome) -> (r: Result<Option<u32>, VulkanError>)
        requires
            old(self).state == FrameState::Acquiring,
        ensures
            final(self).token == old(self).token,
            match outcome {
                AcquireOutcome::Acquired { image_index, suboptimal } => {
                    &&& r == Ok::<Option<u32>, VulkanError>(Some(image_index))
                    &&& final(self).state == FrameState::Recording
                    &&& final(self).needs_recreate == (old(self).needs_recreate || suboptimal)
                },
                AcquireOutcome::OutOfDate => {
                    &&& r == Ok::<Option<u32>, VulkanError>(None)
                    &&& final(self).state == FrameState::Idle
                    &&& final(self).needs_recreate
                },
                AcquireOutcome::Failed(msg) => {
                    &&& r matches Err(VulkanError::SwapchainError(m)) && m == msg
                    &&& final(self).state == FrameState::Idle
                    &&& final(self).needs_recreate == old(self).needs_recreate
                },
            },
    {
        match outcome {
            AcquireOutcome::Acquired { image_index, suboptimal } => {
                self.state = FrameState::Recording;
                if suboptimal {
                    self.needs_recreate = true;
                }
                Ok(Some(image_index))
            },
            AcquireOutcome::OutOfDate => {
                self.state = FrameState::Idle;
                self.needs_recreate = true;
                Ok(None)
            },
            AcquireOutcome::Failed(msg) => {
                self.state = FrameState::Idle;
                Err(VulkanError::SwapchainError(msg))
            },
        }
    }

    /// The recorded commands were handed to the queue.
    pub fn submitted(&mut self)
        requires
            old(self).state == FrameState::Recording,
        ensures
            *final(self) == (FrameScheduler { state: FrameState::Submitted, ..*old(self) }),
    {
        self.state = FrameState::Submitted;
    }

    /// The window changed size: rebuild the surface before the next image.
    pub fn request_recreate(&mut self)
        ensures
            *final(self) == (FrameScheduler { needs_recreate: true, ..*old(self) }),
    {
        self.needs_recreate = true;
    }

    /// Abandons the current frame after a failure while recording or
    /// submitting: nothing was handed over, so nothing is in flight.
    pub fn abort_frame(&mut self)
        ensures
            *final(self) == (FrameScheduler { state: FrameState::Idle, ..*old(self) }),
    {
        self.state = FrameState::Idle;
    }

    /// Takes the result of presenting. A presented frame leaves its token in
    /// flight. An out-of-date surface asks for a rebuild, is no error, and
    /// leaves a fresh token so the next frame does not wait on work that will
    /// not complete normally. Any other failure is a command-buffer error, also
    /// with a fresh token. The scheduler is idle afterwards in every case.
    pub fn presented(&mut self, outcome: PresentOutcome) -> (r: Result<(), VulkanError>)
        requires
            old(self).state == FrameState::Submitted,
        ensures
            final(self).state == FrameState::Idle,
            match outcome {
                PresentOutcome::Presented => {
                    &&& r is Ok
                    &&& final(self).token == FrameToken::InFlight
                    &&& final(self).needs_recreate == old(self).needs_recreate
                },
                PresentOutcome::OutOfDate => {
                    &&& r is Ok
                    &&& final(self).token == FrameToken::Ready
                    &&& final(self).needs_recreate
                },
                PresentOutcome::Failed(msg) => {
                    &&& r matches Err(VulkanError::CommandBufferError(m)) && m == msg
                    &&& final(self).token == FrameToken::Ready
                    &&& final(self).needs_recreate == old(self).needs_recreate
                },
            },
    {
        self.state = FrameState::Idle;
        match outcome {
            PresentOutcome::Presented => {
                self.token = FrameToken::InFlight;
                Ok(())
            },
            PresentOutcome::OutOfDate => {
                self.needs_recreate = true;
                self.token = FrameToken::Ready;
                Ok(())
            },
            PresentOutcome::Failed(msg) => {
                self.token = FrameToken::Ready;
                Err(VulkanError::CommandBufferError(msg))
            },
        }
    }
}

} // verus!
