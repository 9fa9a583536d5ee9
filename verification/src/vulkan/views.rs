//! Device memory for images and buffers: which memory type serves a
//! request, and what the depth buffer of a swapchain generation asks for.

use vstd::prelude::*;
use crate::vulkan::surface::Extent2D;
use crate::vulkan::swapchain::AAASwapchain;

verus! {

/// The largest number of memory types that a device reports.
pub const MAX_MEMORY_TYPES: usize = 32;

/// Memory that the device reaches fastest.
pub const MEMORY_DEVICE_LOCAL: u32 = 0x1;

/// Memory that the host can map.
pub const MEMORY_HOST_VISIBLE: u32 = 0x2;

/// Mapped memory whose writes the device sees without a flush.
pub const MEMORY_HOST_COHERENT: u32 = 0x4;

/// What an image or a buffer asks of the memory it is bound to.
#[derive(Clone, Copy, Debug, PartialEq, Eq, Structural)]
pub struct MemoryRequirements {
    pub size: u64,
    pub alignment: u64,
    /// Bit `i` is set where memory type `i` can hold the object.
    pub memory_type_bits: u32,
}

/// One memory type of a device.
#[derive(Clone, Copy, Debug, PartialEq, Eq, Structural)]
pub struct MemoryType {
    pub property_flags: u32,
    pub heap_index: u32,
}

/// The memory types of a physical device, in the order the device lists them.
#[derive(Clone, Debug, PartialEq, Eq)]
pub struct PhysicalDeviceMemoryProperties {
    pub memory_types: Vec<MemoryType>,
}

/// A resolution with a depth.
#[derive(Clone, Copy, Debug, PartialEq, Eq, Structural)]
pub struct Extent3D {
    pub width: u32,
    pub height: u32,
    pub depth: u32,
}

/// The depth buffer of a swapchain generation: its size, and the memory to allocate for it.
#[derive(Clone, Copy, Debug, PartialEq, Eq, Structural)]
pub struct DepthPlan {
    pub extent: Extent3D,
    pub allocation_size: u64,
    pub memory_type_index: u32,
}

#[derive(Clone, Copy, Debug, PartialEq, Eq, Structural)]
pub enum MemoryError {
    /// No memory type of the device both can hold the object and has the properties asked for.
    NoSuitableMemoryType,
}

/// Whether memory type `index`, with flags `property_flags`, serves a request
/// for an object that fits the types in `type_bits` and needs all of `flags`.
pub open spec fn type_serves(type_bits: u32, index: u32, property_flags: u32, flags: u32) -> bool {
    (1u32 << index) & type_bits != 0 && property_flags & flags == flags
}

/// Whether `index` is the first memory type in `types` that serves the request.
pub open spec fn first_serving(types: Seq<MemoryType>, type_bits: u32, flags: u32, index: int) -> bool {
    &&& 0 <= index < types.len()
    &&& index < MAX_MEMORY_TYPES
    &&& type_serves(type_bits, index as u32, types[index].property_flags, flags)
    &&& forall|j: int|
        0 <= j < index ==> !type_serves(type_bits, j as u32, #[trigger] types[j].property_flags, flags)
}

/// Whether no memory type in `types`, among the first `MAX_MEMORY_TYPES`, serves the request.
pub open spec fn none_serving(types: Seq<MemoryType>, type_bits: u32, flags: u32) -> bool {
    forall|j: int|
        0 <= j < types.len() && j < MAX_MEMORY_TYPES ==> !type_serves(
            type_bits,
            j as u32,
            #[trigger] types[j].property_flags,
            flags,
        )
}

/// The index of the first memory type that can hold an object with the
/// requirements `memory_req` and has all the properties in `flags`. A
/// device lists at most `MAX_MEMORY_TYPES` types; any beyond are not looked at.
pub fn find_memorytype_index(
    memory_req: &MemoryRequirements,
    memory_prop: &PhysicalDeviceMemoryProperties,
    flags: u32,
) -> (r: Option<u32>)
    ensures
        match r {
            Some(index) => first_serving(
                memory_prop.memory_types@,
                memory_req.memory_type_bits,
                flags,
                index as int,
            ),
            None => none_serving(memory_prop.memory_types@, memory_req.memory_type_bits, flags),
        },
{
    let mut index: u32 = 0;
    while index < 32 && (index as usize) < memory_prop.memory_types.len()
        invariant
            index <= 32,
            index <= memory_prop.memory_types@.len(),
            forall|j: int|
                0 <= j < index ==> !type_serves(
                    memory_req.memory_type_bits,
                    j as u32,
                    #[trigger] memory_prop.memory_types@[j].property_flags,
                    flags,
                ),
        decreases 32 - index,
    {
        let memory_type = &memory_prop.memory_types[index as usize];
        if (1u32 << index) & memory_req.memory_type_bits != 0 && memory_type.property_flags & flags
            == flags {
            return Some(index);
        }
        index += 1;
    }
    None
}

/// The size of the depth image for the images of `swapchain`.
pub fn depth_image_extent(swapchain: &AAASwapchain) -> (r: Extent3D)
    ensures
        r == depth_extent(swapchain.extent),
{
    Extent3D { width: swapchain.extent.width, height: swapchain.extent.height, depth: 1 }
}

/// The depth buffer for the images of `swapchain`: as large as they are,
/// one layer deep, in memory that is local to the device and as large as
/// `depth_requirements` ask.
pub fn create_views_and_depth(
    swapchain: &AAASwapchain,
    depth_requirements: &MemoryRequirements,
    memory_prop: &PhysicalDeviceMemoryProperties,
) -> (r: Result<DepthPlan, MemoryError>)
    ensures
        match r {
            Ok(plan) => {
                &&& first_serving(
                    memory_prop.memory_types@,
                    depth_requirements.memory_type_bits,
                    MEMORY_DEVICE_LOCAL,
                    plan.memory_type_index as int,
                )
                &&& plan.allocation_size == depth_requirements.size
                &&& plan.extent == depth_extent(swapchain.extent)
            },
            Err(e) => e == MemoryError::NoSuitableMemoryType && none_serving(
                memory_prop.memory_types@,
                depth_requirements.memory_type_bits,
                MEMORY_DEVICE_LOCAL,
            ),
        },
{
    match find_memorytype_index(depth_requirements, memory_prop, MEMORY_DEVICE_LOCAL) {
        Some(memory_type_index) => Ok(
            DepthPlan {
                extent: depth_image_extent(swapchain),
                allocation_size: depth_requirements.size,
                memory_type_index,
            },
        ),
        None => Err(MemoryError::NoSuitableMemoryType),
    }
}

/// A flat resolution as one that is a single layer deep.
pub open spec fn depth_extent(extent: Extent2D) -> Extent3D {
    Extent3D { width: extent.width, height: extent.height, depth: 1 }
}

} // verus!
