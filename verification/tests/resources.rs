use pulsar::model::{BufferUpload, Mesh, RegisteredMesh};
use pulsar::vulkan::graphics::{};
use pulsar::vulkan::recreation::{recreation_step, GpuStep, RECREATION_STEPS};
use pulsar::vulkan::record::{DeviceCall, WAIT_FOREVER};
use pulsar::vulkan::surface::{AAASurface, Extent2D, SurfaceCapabilities, SurfaceFormat};
use pulsar::vulkan::surface_resources::{
    AAAResources, Ledger, LifetimeError, Rect2D, ResourceKind, Viewport, KIND_COUNT,
};
use pulsar::vulkan::swapchain::{PresentMode, SwapchainError};

fn surface(width: u32, height: u32) -> AAASurface {
    let caps = SurfaceCapabilities {
        min_image_count: 2,
        max_image_count: 0,
        current_extent: Extent2D { width, height },
        supported_transforms: 1,
        current_transform: 1,
    };
    AAASurface::new(1, 2, 0, &vec![SurfaceFormat { format: 44, color_space: 0 }], caps).unwrap()
}

fn full_ledger() -> Ledger {
    let mut ledger = Ledger::new();
    while let Some(kind) = ledger.next_to_create() {
        ledger.create(kind).unwrap();
    }
    ledger
}

#[test]
fn kinds_keep_their_place() {
    for rank in 0..KIND_COUNT {
        assert_eq!(ResourceKind::from_index(rank).index(), rank);
    }
    assert_eq!(ResourceKind::Instance.index(), 0);
    assert_eq!(ResourceKind::Device.index(), 2);
    assert_eq!(ResourceKind::Swapchain.index(), 3);
    assert_eq!(ResourceKind::MeshBuffers.index(), KIND_COUNT - 1);
    assert_eq!(ResourceKind::from_index(KIND_COUNT + 5), ResourceKind::MeshBuffers);
}

#[test]
fn whatever_is_needed_was_made_earlier() {
    for a in 0..KIND_COUNT {
        for b in 0..KIND_COUNT {
            let (kind, other) = (ResourceKind::from_index(a), ResourceKind::from_index(b));
            if kind.needs(&other) {
                assert!(b < a);
            }
        }
    }
    assert!(ResourceKind::Framebuffers.needs(&ResourceKind::RenderPass));
    assert!(ResourceKind::Framebuffers.needs(&ResourceKind::Device));
    assert!(ResourceKind::Swapchain.needs(&ResourceKind::Surface));
    assert!(!ResourceKind::Surface.needs(&ResourceKind::Device));
    assert!(!ResourceKind::Device.needs(&ResourceKind::Device));
}

#[test]
fn generation_scoped_kinds() {
    let scoped: Vec<ResourceKind> = (0..KIND_COUNT)
        .map(ResourceKind::from_index)
        .filter(|k| k.is_generation_scoped())
        .collect();
    assert_eq!(
        scoped,
        vec![
            ResourceKind::Swapchain,
            ResourceKind::PresentImageViews,
            ResourceKind::DepthImage,
            ResourceKind::DepthMemory,
            ResourceKind::DepthView,
            ResourceKind::Framebuffers,
        ]
    );
}

#[test]
fn creation_order_is_accepted_and_teardown_is_its_reverse() {
    let mut ledger = Ledger::new();
    let mut made = vec![];
    while let Some(kind) = ledger.next_to_create() {
        assert_eq!(ledger.create(kind), Ok(()));
        assert!(ledger.is_live(kind));
        made.push(kind);
    }
    assert_eq!(made.len(), KIND_COUNT);
    assert_eq!(made[0], ResourceKind::Instance);
    assert_eq!(made[2], ResourceKind::Device);
    let mut released = vec![];
    while let Some(kind) = ledger.next_to_destroy() {
        assert_eq!(ledger.destroy(kind), Ok(()));
        assert!(!ledger.is_live(kind));
        released.push(kind);
    }
    made.reverse();
    assert_eq!(released, made);
    assert_eq!(ledger.next_to_destroy(), None);
    assert_eq!(ledger.next_to_create(), Some(ResourceKind::Instance));
}

#[test]
fn device_leaves_after_all_its_children() {
    let mut ledger = full_ledger();
    assert_eq!(
        ledger.destroy(ResourceKind::Device),
        Err(LifetimeError::StillInUse(ResourceKind::Swapchain))
    );
    while let Some(kind) = ledger.next_to_destroy() {
        if kind == ResourceKind::Device {
            break;
        }
        ledger.destroy(kind).unwrap();
    }
    assert_eq!(ledger.destroy(ResourceKind::Device), Ok(()));
    assert_eq!(ledger.next_to_destroy(), Some(ResourceKind::Surface));
}

#[test]
fn double_release_is_flagged() {
    let mut ledger = full_ledger();
    assert_eq!(ledger.destroy(ResourceKind::MeshBuffers), Ok(()));
    assert_eq!(ledger.destroy(ResourceKind::MeshBuffers), Err(LifetimeError::NotLive));
}

#[test]
fn double_creation_is_flagged() {
    let mut ledger = Ledger::new();
    assert_eq!(ledger.create(ResourceKind::Instance), Ok(()));
    assert_eq!(ledger.create(ResourceKind::Instance), Err(LifetimeError::AlreadyLive));
}

#[test]
fn use_of_a_released_object_is_flagged() {
    let mut ledger = Ledger::new();
    ledger.create(ResourceKind::Instance).unwrap();
    ledger.create(ResourceKind::Device).unwrap();
    assert_eq!(
        ledger.create(ResourceKind::Swapchain),
        Err(LifetimeError::MissingDependency(ResourceKind::Surface))
    );
    assert_eq!(
        ledger.create(ResourceKind::Framebuffers),
        Err(LifetimeError::MissingDependency(ResourceKind::PresentImageViews))
    );
    assert!(!ledger.is_live(ResourceKind::Swapchain));
    assert_eq!(
        ledger.destroy(ResourceKind::Instance),
        Err(LifetimeError::StillInUse(ResourceKind::Device))
    );
    assert!(ledger.is_live(ResourceKind::Instance));
}

#[test]
fn rebuilding_is_accepted_by_the_ledger() {
    let mut ledger = full_ledger();
    for step in 0..RECREATION_STEPS {
        assert_eq!(ledger.apply(recreation_step(step).unwrap()), Ok(()));
    }
    assert_eq!(ledger.next_to_create(), None);
}

#[test]
fn rebuilding_out_of_order_is_refused() {
    let mut ledger = full_ledger();
    assert_eq!(
        ledger.apply(GpuStep::Destroy(ResourceKind::Swapchain)),
        Err(LifetimeError::StillInUse(ResourceKind::PresentImageViews))
    );
    assert_eq!(ledger.apply(GpuStep::Create(ResourceKind::Swapchain)), Err(LifetimeError::AlreadyLive));
    assert_eq!(ledger.apply(GpuStep::WaitDeviceIdle), Ok(()));
    assert_eq!(ledger.apply(GpuStep::RefreshSurface), Ok(()));
    assert_eq!(ledger.apply(GpuStep::TransitionDepthLayout), Ok(()));
}

#[test]
fn resources_start_with_the_surface_resolution() {
    let resources =
        AAAResources::new(&surface(1280, 720), &vec![PresentMode::Mailbox], 640, 480).unwrap();
    assert_eq!(
        resources.viewports,
        [Viewport { x: 0, y: 0, width: 1280, height: 720, min_depth: 0, max_depth: 1 }]
    );
    assert_eq!(resources.scissors, [Rect2D { x: 0, y: 0, width: 1280, height: 720 }]);
    assert_eq!(resources.swapchain.extent, Extent2D { width: 1280, height: 720 });
    assert_eq!(resources.swapchain.desired_image_count, 3);
    assert_eq!(resources.swapchain.present_mode, PresentMode::Mailbox);
    assert!(resources.generation_live);
    assert!(resources.registered_meshes.is_empty());
}

#[test]
fn resources_without_area_are_refused() {
    assert_eq!(
        AAAResources::new(&surface(0, 720), &vec![], 640, 480).err(),
        Some(SwapchainError::ZeroExtent)
    );
}

#[test]
fn viewport_and_scissor_follow_a_resize() {
    let mut resources = AAAResources::new(&surface(1280, 720), &vec![], 1280, 720).unwrap();
    resources.recreate_viewports(640, 480);
    assert_eq!(
        resources.viewports,
        [Viewport { x: 0, y: 0, width: 640, height: 480, min_depth: 0, max_depth: 1 }]
    );
    assert_eq!(resources.scissors, [Rect2D { x: 0, y: 0, width: 1280, height: 720 }]);
    resources.recreate_scissors(640, 480);
    assert_eq!(resources.scissors, [Rect2D { x: 0, y: 0, width: 640, height: 480 }]);
}

#[test]
fn meshes_get_their_handles_in_order() {
    let mut resources = AAAResources::new(&surface(1280, 720), &vec![], 1280, 720).unwrap();
    let mesh = |indices: Vec<u32>| RegisteredMesh {
        mesh: Mesh { vertices: vec![], indices },
        vertex_buffer: BufferUpload { size: 0, allocation_size: 0, memory_type_index: 0 },
        index_buffer: BufferUpload { size: 0, allocation_size: 0, memory_type_index: 0 },
    };
    assert_eq!(resources.register_mesh(mesh(vec![0, 1, 2, 2, 3, 0])), 0);
    assert_eq!(resources.register_mesh(mesh(vec![0, 1, 2])), 1);
    assert_eq!(resources.register_mesh(mesh(vec![])), 2);
    assert_eq!(resources.registered_meshes.len(), 3);
    assert_eq!(resources.registered_meshes[1].mesh.indices, vec![0, 1, 2]);
}

#[test]
fn depth_layout_transition_is_one_use_of_the_setup_buffer() {
    let resources = AAAResources::new(&surface(1280, 720), &vec![], 1280, 720).unwrap();
    let submission = resources.register_depth_image_memory(5, 6, 7);
    let calls = submission.calls;
    assert_eq!(calls.len(), 7);
    assert_eq!(calls[0], DeviceCall::WaitForFence { fence: 6, timeout: WAIT_FOREVER });
    assert_eq!(calls[6], DeviceCall::QueueSubmit { queue: 7, command_buffer: 5, signal_fence: 6 });
    assert!(submission.wait_mask.is_empty());
    assert!(submission.wait_semaphores.is_empty());
    assert!(submission.signal_semaphores.is_empty());
}
