//! Meshes: the vertex and index data that a caller hands over, and what it
//! takes to place them in memory that the GPU reads.

use vstd::prelude::*;
use crate::vulkan::views::{
    find_memorytype_index, first_serving, none_serving, type_serves, MemoryRequirements,
    PhysicalDeviceMemoryProperties,
};

verus! {

/// Bytes that one vertex takes in a vertex buffer.
pub const VERTEX_SIZE: u64 = 40;

/// Bytes that one index takes in an index buffer.
pub const INDEX_SIZE: u64 = 4;

/// Properties of the memory that mesh data is written to: the host maps it
/// (bit `0x2`) and the device sees the writes without a flush (bit `0x4`).
pub const UPLOAD_MEMORY: u32 = 0x6;

/// One vertex. Each component is the bit pattern of a 32-bit float, as it
/// lies in the vertex buffer.
#[derive(Clone, Copy, Debug, PartialEq, Eq)]
pub struct Vertex {
    pub pos: [u32; 4],
    pub uv: [u32; 2],
    pub color: [u32; 4],
}

#[derive(Clone, Debug, PartialEq, Eq)]
pub struct Mesh {
    pub vertices: Vec<Vertex>,
    pub indices: Vec<u32>,
}

/// A buffer that holds mesh data, and the memory that is allocated for it.
#[derive(Clone, Copy, Debug, PartialEq, Eq, Structural)]
pub struct BufferUpload {
    /// Bytes of mesh data, which is the size of the buffer.
    pub size: u64,
    /// Bytes of memory to allocate.
    pub allocation_size: u64,
    pub memory_type_index: u32,
}

/// A mesh whose data has its place on the GPU.
#[derive(Clone, Debug, PartialEq, Eq)]
pub struct RegisteredMesh {
    pub mesh: Mesh,
    pub vertex_buffer: BufferUpload,
    pub index_buffer: BufferUpload,
}

#[derive(Clone, Debug, PartialEq, Eq)]
pub struct Model {
    pub meshes: Vec<Mesh>,
}

#[derive(Clone, Debug, PartialEq, Eq)]
pub struct Scene {
    pub models: Vec<Model>,
}

/// The sizes of the two buffers of a mesh, in bytes.
#[derive(Clone, Copy, Debug, PartialEq, Eq, Structural)]
pub struct BufferSizes {
    pub vertex_bytes: u64,
    pub index_bytes: u64,
}

/// Which of the two buffers of a mesh is meant.
#[derive(Clone, Copy, Debug, PartialEq, Eq, Structural)]
pub enum MeshBuffer {
    Index,
    Vertex,
}

#[derive(Clone, Copy, Debug, PartialEq, Eq, Structural)]
pub enum MeshError {
    /// The data of the mesh takes more bytes than a buffer size can say.
    TooLarge,
    /// No memory type that the host can write serves this buffer.
    NoSuitableMemoryType(MeshBuffer),
}

impl Mesh {
    /// Bytes of vertex data.
    pub open spec fn vertex_bytes(&self) -> int {
        self.vertices@.len() * VERTEX_SIZE
    }

    /// Bytes of index data.
    pub open spec fn index_bytes(&self) -> int {
        self.indices@.len() * INDEX_SIZE
    }

    /// The sizes of the buffers to make for the mesh, or `None` where one
    /// of them has no size that fits.
    pub fn buffer_sizes(&self) -> (r: Option<BufferSizes>)
        ensures
            match r {
                Some(sizes) => sizes.vertex_bytes == self.vertex_bytes() && sizes.index_bytes
                    == self.index_bytes(),
                None => self.vertex_bytes() > u64::MAX || self.index_bytes() > u64::MAX,
            },
    {
        let vertex_count = self.vertices.len() as u64;
        let index_count = self.indices.len() as u64;
        match (vertex_count.checked_mul(VERTEX_SIZE), index_count.checked_mul(INDEX_SIZE)) {
            (Some(vertex_bytes), Some(index_bytes)) => Some(BufferSizes { vertex_bytes, index_bytes }),
            _ => None,
        }
    }

    /// Places the mesh: for each of its two buffers, the memory to
    /// allocate is as large as the buffer's requirements ask, of the first
    /// memory type that can hold the buffer and that the host can write.
    /// The index buffer is placed first; the first buffer that cannot be
    /// placed decides the error.
    pub fn register(
        self,
        index_requirements: &MemoryRequirements,
        vertex_requirements: &MemoryRequirements,
        device_memory_properties: &PhysicalDeviceMemoryProperties,
    ) -> (r: Result<RegisteredMesh, MeshError>)
        ensures
            match r {
                Ok(registered) => {
                    &&& registered.mesh == self
                    &&& registered.index_buffer.size == self.index_bytes()
                    &&& registered.vertex_buffer.size == self.vertex_bytes()
                    &&& registered.index_buffer.allocation_size == index_requirements.size
                    &&& registered.vertex_buffer.allocation_size == vertex_requirements.size
                    &&& first_serving(
                        device_memory_properties.memory_types@,
                        index_requirements.memory_type_bits,
                        UPLOAD_MEMORY,
                        registered.index_buffer.memory_type_index as int,
                    )
                    &&& first_serving(
                        device_memory_properties.memory_types@,
                        vertex_requirements.memory_type_bits,
                        UPLOAD_MEMORY,
                        registered.vertex_buffer.memory_type_index as int,
                    )
                },
                Err(MeshError::TooLarge) => self.vertex_bytes() > u64::MAX || self.index_bytes()
                    > u64::MAX,
                Err(MeshError::NoSuitableMemoryType(MeshBuffer::Index)) => {
                    &&& self.vertex_bytes() <= u64::MAX
                    &&& self.index_bytes() <= u64::MAX
                    &&& none_serving(
                        device_memory_properties.memory_types@,
                        index_requirements.memory_type_bits,
                        UPLOAD_MEMORY,
                    )
                },
                Err(MeshError::NoSuitableMemoryType(MeshBuffer::Vertex)) => {
                    &&& self.vertex_bytes() <= u64::MAX
                    &&& self.index_bytes() <= u64::MAX
                    &&& !none_serving(
                        device_memory_properties.memory_types@,
                        index_requirements.memory_type_bits,
                        UPLOAD_MEMORY,
                    )
                    &&& none_serving(
                        device_memory_properties.memory_types@,
                        vertex_requirements.memory_type_bits,
                        UPLOAD_MEMORY,
                    )
                },
            },
    {
        let sizes = match self.buffer_sizes() {
            Some(sizes) => sizes,
            None => {
                return Err(MeshError::TooLarge);
            },
        };
        let index_type = match find_memorytype_index(
            index_requirements,
            device_memory_properties,
            UPLOAD_MEMORY,
        ) {
            Some(index) => index,
            None => {
                return Err(MeshError::NoSuitableMemoryType(MeshBuffer::Index));
            },
        };
        let vertex_type = match find_memorytype_index(
            vertex_requirements,
            device_memory_properties,
            UPLOAD_MEMORY,
        ) {
            Some(index) => index,
            None => {
                // The index buffer found its memory type, so some type serves it.
                assert(type_serves(
                    index_requirements.memory_type_bits,
                    index_type,
                    device_memory_properties.memory_types@[index_type as int].property_flags,
                    UPLOAD_MEMORY,
                ));
                return Err(MeshError::NoSuitableMemoryType(MeshBuffer::Vertex));
            },
        };
        Ok(
            RegisteredMesh {
                mesh: self,
                vertex_buffer: BufferUpload {
                    size: sizes.vertex_bytes,
                    allocation_size: vertex_requirements.size,
                    memory_type_index: vertex_type,
                },
                index_buffer: BufferUpload {
                    size: sizes.index_bytes,
                    allocation_size: index_requirements.size,
                    memory_type_index: index_type,
                },
            },
        )
    }
}

} // verus!
