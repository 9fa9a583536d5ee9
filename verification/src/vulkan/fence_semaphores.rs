//! The fences and semaphores of a window's render loop.

use vstd::prelude::*;

verus! {

/// How a fence is made.
#[derive(Clone, Copy, Debug, PartialEq, Eq, Structural)]
pub struct FenceInfo {
    /// A fence that is made signaled lets the first wait on it pass at once.
    pub signaled: bool,
}

/// Which of the loop's two semaphores is meant.
#[derive(Clone, Copy, Debug, PartialEq, Eq, Structural)]
pub enum SemaphoreRole {
    /// Signaled when the swapchain has handed out an image.
    PresentComplete,
    /// Signaled when the frame's commands have run.
    RenderingComplete,
}

/// The two fences of a window, the one that gates the draw command buffer
/// and the one that gates the setup command buffer. Both are made
/// signaled, so that the first use of either buffer does not block.
pub fn create_fences() -> (r: (FenceInfo, FenceInfo))
    ensures
        r.0.signaled,
        r.1.signaled,
{
    (FenceInfo { signaled: true }, FenceInfo { signaled: true })
}

/// The two semaphores of a window: the first tells that an image was
/// acquired, the second that rendering to it is complete.
pub fn create_semaphores() -> (r: (SemaphoreRole, SemaphoreRole))
    ensures
        r.0 == SemaphoreRole::PresentComplete,
        r.1 == SemaphoreRole::RenderingComplete,
{
    (SemaphoreRole::PresentComplete, SemaphoreRole::RenderingComplete)
}

} // verus!
