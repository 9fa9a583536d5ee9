//! The framebuffers of a swapchain generation: one for each image that is
//! presented.

use vstd::prelude::*;
use crate::vulkan::surface::AAASurface;

verus! {

/// What one framebuffer is made from.
#[derive(Clone, Copy, Debug, PartialEq, Eq)]
pub struct FramebufferInfo {
    pub render_pass: u64,
    /// The view of the presented image, then the view of the depth image.
    pub attachments: [u64; 2],
    pub width: u32,
    pub height: u32,
    pub layers: u32,
}

/// The framebuffer for the presented image behind `present_image_view`.
pub open spec fn framebuffer_for(
    surface: AAASurface,
    present_image_view: u64,
    depth_image_view: u64,
    renderpass: u64,
) -> FramebufferInfo {
    FramebufferInfo {
        render_pass: renderpass,
        attachments: [present_image_view, depth_image_view],
        width: surface.capabilities.current_extent.width,
        height: surface.capabilities.current_extent.height,
        layers: 1,
    }
}

/// The framebuffers to make: one for each presented image, in the order of
/// `present_image_views`, each with the one depth view beside it, as large
/// as the surface says it is, and one layer deep.
pub fn create_framebuffers(
    surface: &AAASurface,
    present_image_views: &Vec<u64>,
    depth_image_view: u64,
    renderpass: u64,
) -> (r: Vec<FramebufferInfo>)
    ensures
        r@.len() == present_image_views@.len(),
        forall|i: int|
            0 <= i < r@.len() ==> #[trigger] r@[i] == framebuffer_for(
                *surface,
                present_image_views@[i],
                depth_image_view,
                renderpass,
            ),
{
    let mut r: Vec<FramebufferInfo> = Vec::new();
    let mut i: usize = 0;
    while i < present_image_views.len()
        invariant
            i <= present_image_views@.len(),
            r@.len() == i,
            forall|j: int|
                0 <= j < i ==> #[trigger] r@[j] == framebuffer_for(
                    *surface,
                    present_image_views@[j],
                    depth_image_view,
                    renderpass,
                ),
        decreases present_image_views@.len() - i,
    {
        r.push(
            FramebufferInfo {
                render_pass: renderpass,
                attachments: [present_image_views[i], depth_image_view],
                width: surface.capabilities.current_extent.width,
                height: surface.capabilities.current_extent.height,
                layers: 1,
            },
        );
        i += 1;
    }
    r
}

} // verus!
