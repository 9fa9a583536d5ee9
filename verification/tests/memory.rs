use pulsar::model::{BufferSizes, BufferUpload, Mesh, MeshBuffer, MeshError, Vertex, INDEX_SIZE, UPLOAD_MEMORY, VERTEX_SIZE};
use pulsar::vulkan::command_buffers::{create_command_buffers, CommandBuffers, COMMAND_BUFFER_COUNT};
use pulsar::vulkan::command_pools::{create_command_pools, CommandPoolInfo};
use pulsar::vulkan::fence_semaphores::{create_fences, create_semaphores, SemaphoreRole};
use pulsar::vulkan::framebuffer::{create_framebuffers, FramebufferInfo};
use pulsar::vulkan::pipeline::{create_pipeline, VertexAttribute, FORMAT_VEC2, FORMAT_VEC4, VERTEX_STRIDE};
use pulsar::vulkan::surface::{AAASurface, Extent2D, SurfaceCapabilities, SurfaceFormat};
use pulsar::vulkan::surface_resources::{Rect2D, Viewport};
use pulsar::vulkan::swapchain::{AAASwapchain, PresentMode};
use pulsar::vulkan::views::{
    create_views_and_depth, find_memorytype_index, DepthPlan, Extent3D, MemoryError,
    MemoryRequirements, MemoryType, PhysicalDeviceMemoryProperties, MEMORY_DEVICE_LOCAL,
    MEMORY_HOST_COHERENT, MEMORY_HOST_VISIBLE,
};

fn properties(flags: &[u32]) -> PhysicalDeviceMemoryProperties {
    PhysicalDeviceMemoryProperties {
        memory_types: flags.iter().map(|f| MemoryType { property_flags: *f, heap_index: 0 }).collect(),
    }
}

fn requirements(size: u64, memory_type_bits: u32) -> MemoryRequirements {
    MemoryRequirements { size, alignment: 16, memory_type_bits }
}

fn surface(width: u32, height: u32) -> AAASurface {
    let caps = SurfaceCapabilities {
        min_image_count: 2,
        max_image_count: 3,
        current_extent: Extent2D { width, height },
        supported_transforms: 1,
        current_transform: 1,
    };
    AAASurface::new(1, 2, 0, &vec![SurfaceFormat { format: 44, color_space: 0 }], caps).unwrap()
}

fn vertex() -> Vertex {
    Vertex { pos: [0; 4], uv: [0; 2], color: [0; 4] }
}

#[test]
fn first_type_that_fits_and_has_the_properties() {
    let props = properties(&[0x1, 0x6, 0x7, 0x6]);
    assert_eq!(find_memorytype_index(&requirements(64, 0b1111), &props, 0x6), Some(1));
    assert_eq!(find_memorytype_index(&requirements(64, 0b1100), &props, 0x6), Some(2));
    assert_eq!(find_memorytype_index(&requirements(64, 0b1000), &props, 0x6), Some(3));
    assert_eq!(find_memorytype_index(&requirements(64, 0b1111), &props, MEMORY_DEVICE_LOCAL), Some(0));
    assert_eq!(find_memorytype_index(&requirements(64, 0b1110), &props, MEMORY_DEVICE_LOCAL), Some(2));
}

#[test]
fn no_type_serves() {
    let props = properties(&[0x1, 0x2]);
    assert_eq!(find_memorytype_index(&requirements(64, 0b11), &props, 0x6), None);
    assert_eq!(find_memorytype_index(&requirements(64, 0), &props, 0x1), None);
    assert_eq!(find_memorytype_index(&requirements(64, 0b100), &props, 0x1), None);
    assert_eq!(find_memorytype_index(&requirements(64, u32::MAX), &properties(&[]), 0), None);
}

#[test]
fn no_properties_asked_takes_the_first_that_fits() {
    let props = properties(&[0x8, 0x0, 0x1]);
    assert_eq!(find_memorytype_index(&requirements(1, 0b110), &props, 0), Some(1));
}

#[test]
fn types_beyond_the_thirty_second_are_not_looked_at() {
    let mut flags = vec![0u32; 40];
    flags[31] = 0x1;
    flags[35] = 0x3;
    let props = properties(&flags);
    assert_eq!(find_memorytype_index(&requirements(1, u32::MAX), &props, 0x1), Some(31));
    assert_eq!(find_memorytype_index(&requirements(1, u32::MAX), &props, 0x2), None);
}

#[test]
fn memory_property_bits() {
    assert_eq!(MEMORY_HOST_VISIBLE | MEMORY_HOST_COHERENT, UPLOAD_MEMORY);
    assert_eq!(MEMORY_DEVICE_LOCAL, 1);
}

#[test]
fn depth_buffer_is_device_local_and_as_large_as_the_swapchain() {
    let swapchain = AAASwapchain::new(&surface(1280, 720), &vec![PresentMode::Fifo], 1, 1).unwrap();
    let props = properties(&[0x6, 0x1]);
    assert_eq!(
        create_views_and_depth(&swapchain, &requirements(1_843_200, 0b11), &props),
        Ok(DepthPlan {
            extent: Extent3D { width: 1280, height: 720, depth: 1 },
            allocation_size: 1_843_200,
            memory_type_index: 1,
        })
    );
    assert_eq!(
        create_views_and_depth(&swapchain, &requirements(1_843_200, 0b01), &props),
        Err(MemoryError::NoSuitableMemoryType)
    );
}

#[test]
fn buffer_sizes_are_count_times_element_size() {
    let mesh = Mesh { vertices: vec![vertex(); 4], indices: vec![0, 1, 2, 2, 3, 0] };
    assert_eq!(mesh.buffer_sizes(), Some(BufferSizes { vertex_bytes: 160, index_bytes: 24 }));
    assert_eq!(VERTEX_SIZE, 40);
    assert_eq!(INDEX_SIZE, 4);
    assert_eq!(VERTEX_SIZE as usize, std::mem::size_of::<Vertex>());
    let empty = Mesh { vertices: vec![], indices: vec![] };
    assert_eq!(empty.buffer_sizes(), Some(BufferSizes { vertex_bytes: 0, index_bytes: 0 }));
}

#[test]
fn a_mesh_is_placed_in_host_writable_memory() {
    let mesh = Mesh { vertices: vec![vertex(); 4], indices: vec![0, 1, 2, 2, 3, 0] };
    let props = properties(&[0x1, 0x2, 0x6, 0xe]);
    let registered = mesh.clone().register(&requirements(256, 0b1110), &requirements(512, 0b1000), &props).unwrap();
    assert_eq!(registered.mesh, mesh);
    assert_eq!(
        registered.index_buffer,
        BufferUpload { size: 24, allocation_size: 256, memory_type_index: 2 }
    );
    assert_eq!(
        registered.vertex_buffer,
        BufferUpload { size: 160, allocation_size: 512, memory_type_index: 3 }
    );
}

#[test]
fn a_mesh_without_memory_is_refused() {
    let mesh = Mesh { vertices: vec![vertex()], indices: vec![0] };
    let props = properties(&[0x1, 0x6]);
    assert_eq!(
        mesh.clone().register(&requirements(4, 0b01), &requirements(40, 0b10), &props),
        Err(MeshError::NoSuitableMemoryType(MeshBuffer::Index))
    );
    assert_eq!(
        mesh.clone().register(&requirements(4, 0b10), &requirements(40, 0b01), &props),
        Err(MeshError::NoSuitableMemoryType(MeshBuffer::Vertex))
    );
    assert_eq!(
        mesh.register(&requirements(4, 0b01), &requirements(40, 0b01), &props),
        Err(MeshError::NoSuitableMemoryType(MeshBuffer::Index))
    );
}

#[test]
fn one_framebuffer_for_each_presented_image() {
    let s = surface(1280, 720);
    assert_eq!(
        create_framebuffers(&s, &vec![100, 101, 102], 900, 55),
        vec![
            FramebufferInfo { render_pass: 55, attachments: [100, 900], width: 1280, height: 720, layers: 1 },
            FramebufferInfo { render_pass: 55, attachments: [101, 900], width: 1280, height: 720, layers: 1 },
            FramebufferInfo { render_pass: 55, attachments: [102, 900], width: 1280, height: 720, layers: 1 },
        ]
    );
    assert_eq!(create_framebuffers(&s, &vec![], 900, 55), vec![]);
}

#[test]
fn pipeline_covers_the_surface_and_lays_out_the_vertex() {
    let setup = create_pipeline(&surface(800, 600));
    assert_eq!(
        setup.viewports,
        [Viewport { x: 0, y: 0, width: 800, height: 600, min_depth: 0, max_depth: 1 }]
    );
    assert_eq!(setup.scissors, [Rect2D { x: 0, y: 0, width: 800, height: 600 }]);
    assert_eq!(
        setup.vertex_attributes,
        [
            VertexAttribute { location: 0, binding: 0, format: FORMAT_VEC4, offset: 0 },
            VertexAttribute { location: 1, binding: 0, format: FORMAT_VEC2, offset: 16 },
            VertexAttribute { location: 2, binding: 0, format: FORMAT_VEC4, offset: 24 },
        ]
    );
    assert_eq!(setup.vertex_stride, 40);
    assert_eq!(VERTEX_STRIDE as u64, VERTEX_SIZE);
    assert!(setup.dynamic_viewport && setup.dynamic_scissor);
}

#[test]
fn fences_are_made_signaled() {
    let (draw, setup) = create_fences();
    assert!(draw.signaled);
    assert!(setup.signaled);
    assert_eq!(
        create_semaphores(),
        (SemaphoreRole::PresentComplete, SemaphoreRole::RenderingComplete)
    );
}

#[test]
fn setup_buffer_first_draw_buffer_second() {
    assert_eq!(
        create_command_buffers(&vec![70, 71]),
        Some(CommandBuffers { setup: 70, draw: 71 })
    );
    assert_eq!(
        create_command_buffers(&vec![70, 71, 72]),
        Some(CommandBuffers { setup: 70, draw: 71 })
    );
    assert_eq!(create_command_buffers(&vec![70]), None);
    assert_eq!(create_command_buffers(&vec![]), None);
    assert_eq!(COMMAND_BUFFER_COUNT, 2);
}

#[test]
fn command_pool_lets_buffers_be_reset() {
    assert_eq!(
        create_command_pools(3),
        CommandPoolInfo { reset_command_buffer: true, queue_family_index: 3 }
    );
}
