//! What the graphics pipeline is told about vertices and about the part of
//! the image it draws to.

use vstd::prelude::*;
use crate::vulkan::surface::AAASurface;
use crate::vulkan::surface_resources::{full_scissor, full_viewport, Rect2D, Viewport};

verus! {

/// Format of an attribute of four 32-bit floats.
pub const FORMAT_VEC4: i32 = 109;

/// Format of an attribute of two 32-bit floats.
pub const FORMAT_VEC2: i32 = 103;

/// Bytes from one vertex to the next.
pub const VERTEX_STRIDE: u32 = 40;

/// Where one attribute of a vertex is found.
#[derive(Clone, Copy, Debug, PartialEq, Eq, Structural)]
pub struct VertexAttribute {
    pub location: u32,
    pub binding: u32,
    pub format: i32,
    /// Bytes from the start of the vertex.
    pub offset: u32,
}

/// The parts of the pipeline's state that this library decides.
#[derive(Clone, Copy, Debug, PartialEq, Eq)]
pub struct PipelineSetup {
    pub viewports: [Viewport; 1],
    pub scissors: [Rect2D; 1],
    /// Position, texture coordinate, colour.
    pub vertex_attributes: [VertexAttribute; 3],
    pub vertex_stride: u32,
    /// Viewport and scissor are set while commands are recorded, so that
    /// they can change from frame to frame without a new pipeline.
    pub dynamic_viewport: bool,
    pub dynamic_scissor: bool,
}

/// Bytes that an attribute of `components` 32-bit floats takes.
pub open spec fn attribute_bytes(components: int) -> int {
    4 * components
}

/// The attributes of a vertex: four floats of position, two of texture
/// coordinate, four of colour, one after the other.
pub open spec fn vertex_layout() -> [VertexAttribute; 3] {
    [
        VertexAttribute { location: 0, binding: 0, format: FORMAT_VEC4, offset: 0 },
        VertexAttribute {
            location: 1,
            binding: 0,
            format: FORMAT_VEC2,
            offset: attribute_bytes(4) as u32,
        },
        VertexAttribute {
            location: 2,
            binding: 0,
            format: FORMAT_VEC4,
            offset: (attribute_bytes(4) + attribute_bytes(2)) as u32,
        },
    ]
}

/// The state of the pipeline for `surface`: viewport and scissor cover
/// the resolution that the surface reports, and both are dynamic.
pub fn create_pipeline(surface: &AAASurface) -> (r: PipelineSetup)
    ensures
        r.viewports == [
            full_viewport(
                surface.capabilities.current_extent.width,
                surface.capabilities.current_extent.height,
            ),
        ],
        r.scissors == [
            full_scissor(
                surface.capabilities.current_extent.width,
                surface.capabilities.current_extent.height,
            ),
        ],
        r.vertex_attributes == vertex_layout(),
        r.vertex_stride == attribute_bytes(4) + attribute_bytes(2) + attribute_bytes(4),
        r.dynamic_viewport,
        r.dynamic_scissor,
{
    let extent = surface.capabilities.current_extent;
    PipelineSetup {
        viewports: [
            Viewport {
                x: 0,
                y: 0,
                width: extent.width,
                height: extent.height,
                min_depth: 0,
                max_depth: 1,
            },
        ],
        scissors: [Rect2D { x: 0, y: 0, width: extent.width, height: extent.height }],
        vertex_attributes: [
            VertexAttribute { location: 0, binding: 0, format: FORMAT_VEC4, offset: 0 },
            VertexAttribute { location: 1, binding: 0, format: FORMAT_VEC2, offset: 16 },
            VertexAttribute { location: 2, binding: 0, format: FORMAT_VEC4, offset: 24 },
        ],
        vertex_stride: VERTEX_STRIDE,
        dynamic_viewport: true,
        dynamic_scissor: true,
    }
}

} // verus!
