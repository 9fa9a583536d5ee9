//! The swapchain that is built for a surface: how many images it asks for,
//! in which mode it presents, and at which resolution.

use vstd::prelude::*;
use crate::vulkan::surface::{AAASurface, Extent2D, SurfaceCapabilities, UNDEFINED_EXTENT};

verus! {

/// Bit of a transform mask that stands for "no transform".
pub const TRANSFORM_IDENTITY: u32 = 0x1;

/// How a swapchain hands its images to the display.
#[derive(Clone, Copy, Debug, PartialEq, Eq, Structural)]
pub enum PresentMode {
    Immediate,
    /// Low latency: a newer image replaces the one that waits.
    Mailbox,
    /// Strict first-in, first-out; every surface offers it.
    Fifo,
    FifoRelaxed,
    /// A mode this library does not choose, with its number.
    Other(i32),
}

#[derive(Clone, Copy, Debug, PartialEq, Eq, Structural)]
pub enum SwapchainError {
    /// The resolution has no area: such a swapchain must not be built.
    ZeroExtent,
}

/// The parameters of one swapchain generation.
#[derive(Clone, Copy, Debug, PartialEq, Eq, Structural)]
pub struct AAASwapchain {
    pub desired_image_count: u32,
    pub present_mode: PresentMode,
    pub extent: Extent2D,
    pub pre_transform: u32,
}

/// Mailbox where the surface offers it, first-in first-out otherwise.
pub open spec fn preferred_present_mode(modes: Seq<PresentMode>) -> PresentMode {
    if modes.contains(PresentMode::Mailbox) {
        PresentMode::Mailbox
    } else {
        PresentMode::Fifo
    }
}

/// One image more than the surface needs at least, but no more than its
/// upper limit, where it has one.
pub open spec fn desired_image_count(min_image_count: u32, max_image_count: u32) -> int {
    if max_image_count > 0 && min_image_count + 1 > max_image_count {
        max_image_count as int
    } else {
        min_image_count + 1
    }
}

/// The surface's own resolution, or the caller's where the surface leaves it open.
pub open spec fn resolved_extent(current_extent: Extent2D, width: u32, height: u32) -> Extent2D {
    if current_extent.width == UNDEFINED_EXTENT {
        Extent2D { width, height }
    } else {
        current_extent
    }
}

/// No transform where the surface supports that, its current transform otherwise.
pub open spec fn preferred_transform(capabilities: SurfaceCapabilities) -> u32 {
    if capabilities.supported_transforms & TRANSFORM_IDENTITY == TRANSFORM_IDENTITY {
        TRANSFORM_IDENTITY
    } else {
        capabilities.current_transform
    }
}

impl Extent2D {
    /// Whether the resolution has no area.
    pub open spec fn is_empty(self) -> bool {
        self.width == 0 || self.height == 0
    }

    pub fn has_no_area(&self) -> (r: bool)
        ensures
            r == self.is_empty(),
    {
        self.width == 0 || self.height == 0
    }
}

pub fn choose_present_mode(modes: &Vec<PresentMode>) -> (r: PresentMode)
    ensures
        r == preferred_present_mode(modes@),
{
    let mut i: usize = 0;
    while i < modes.len()
        invariant
            i <= modes@.len(),
            forall|j: int| 0 <= j < i ==> modes@[j] != PresentMode::Mailbox,
        decreases modes@.len() - i,
    {
        if modes[i] == PresentMode::Mailbox {
            return PresentMode::Mailbox;
        }
        i += 1;
    }
    PresentMode::Fifo
}

/// The number of images to ask for. A count that does not fit the type is
/// cut down to the largest that does.
pub fn clamp_image_count(min_image_count: u32, max_image_count: u32) -> (r: u32)
    ensures
        r == if desired_image_count(min_image_count, max_image_count) <= u32::MAX {
            desired_image_count(min_image_count, max_image_count)
        } else {
            u32::MAX as int
        },
        max_image_count > 0 ==> r == desired_image_count(min_image_count, max_image_count),
        max_image_count > 0 ==> r <= max_image_count,
        max_image_count > 0 ==> r == min_image_count + 1 || r == max_image_count,
{
    if max_image_count > 0 && min_image_count >= max_image_count {
        max_image_count
    } else if min_image_count == u32::MAX {
        u32::MAX
    } else {
        min_image_count + 1
    }
}

pub fn resolve_extent(current_extent: Extent2D, width: u32, height: u32) -> (r: Extent2D)
    ensures
        r == resolved_extent(current_extent, width, height),
        current_extent.width == UNDEFINED_EXTENT ==> r == (Extent2D { width, height }),
        current_extent.width != UNDEFINED_EXTENT ==> r == current_extent,
{
    if current_extent.width == UNDEFINED_EXTENT {
        Extent2D { width, height }
    } else {
        current_extent
    }
}

pub fn choose_pre_transform(capabilities: &SurfaceCapabilities) -> (r: u32)
    ensures
        r == preferred_transform(*capabilities),
{
    if capabilities.supported_transforms & TRANSFORM_IDENTITY == TRANSFORM_IDENTITY {
        TRANSFORM_IDENTITY
    } else {
        capabilities.current_transform
    }
}

impl AAASwapchain {
    /// What `new` builds from a surface, the modes it offers, and the
    /// caller's window size, where the resolution has an area.
    pub open spec fn planned(
        capabilities: SurfaceCapabilities,
        modes: Seq<PresentMode>,
        width: u32,
        height: u32,
    ) -> AAASwapchain {
        let count = desired_image_count(capabilities.min_image_count, capabilities.max_image_count);
        AAASwapchain {
            desired_image_count: if count <= u32::MAX {
                count as u32
            } else {
                u32::MAX
            },
            present_mode: preferred_present_mode(modes),
            extent: resolved_extent(capabilities.current_extent, width, height),
            pre_transform: preferred_transform(capabilities),
        }
    }

    /// Plans the swapchain of a surface for a window of `width` by `height`.
    /// A resolution without area is refused: the window is minimized and no
    /// swapchain may be built for it.
    pub fn new(surface: &AAASurface, present_modes: &Vec<PresentMode>, width: u32, height: u32) -> (r:
        Result<AAASwapchain, SwapchainError>)
        ensures
            resolved_extent(surface.capabilities.current_extent, width, height).is_empty() ==> r
                == Err::<AAASwapchain, SwapchainError>(SwapchainError::ZeroExtent),
            !resolved_extent(surface.capabilities.current_extent, width, height).is_empty() ==> r
                == Ok::<AAASwapchain, SwapchainError>(
                Self::planned(surface.capabilities, present_modes@, width, height),
            ),
    {
        let extent = resolve_extent(surface.capabilities.current_extent, width, height);
        if extent.has_no_area() {
            return Err(SwapchainError::ZeroExtent);
        }
        Ok(
            AAASwapchain {
                desired_image_count: clamp_image_count(
                    surface.capabilities.min_image_count,
                    surface.capabilities.max_image_count,
                ),
                present_mode: choose_present_mode(present_modes),
                extent,
                pre_transform: choose_pre_transform(&surface.capabilities),
            },
        )
    }
}

} // verus!
