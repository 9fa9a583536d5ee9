use pulsar::vulkan::surface::{
    AAASurface, Extent2D, PhysicalDevice, QueueFamily, QueueSelection, SurfaceCapabilities,
    SurfaceError, SurfaceFormat, QUEUE_GRAPHICS,
};

fn family(queue_flags: u32, supports_surface: bool) -> QueueFamily {
    QueueFamily { queue_flags, supports_surface }
}

fn caps() -> SurfaceCapabilities {
    SurfaceCapabilities {
        min_image_count: 2,
        max_image_count: 3,
        current_extent: Extent2D { width: 1280, height: 720 },
        supported_transforms: 1,
        current_transform: 1,
    }
}

#[test]
fn first_suitable_family_of_first_suitable_device_is_chosen() {
    let devices = vec![
        PhysicalDevice { handle: 10, queue_families: vec![family(0x2, true), family(0x4, true)] },
        PhysicalDevice {
            handle: 20,
            queue_families: vec![
                family(QUEUE_GRAPHICS, false),
                family(QUEUE_GRAPHICS | 0x2, true),
                family(QUEUE_GRAPHICS, true),
            ],
        },
        PhysicalDevice { handle: 30, queue_families: vec![family(QUEUE_GRAPHICS, true)] },
    ];
    assert_eq!(
        AAASurface::select_queue_family(&devices),
        Ok(QueueSelection { device: 1, family: 1 })
    );
}

#[test]
fn graphics_without_presentation_is_not_enough() {
    let devices = vec![PhysicalDevice {
        handle: 1,
        queue_families: vec![family(QUEUE_GRAPHICS, false), family(0x2, true)],
    }];
    assert_eq!(AAASurface::select_queue_family(&devices), Err(SurfaceError::NoSuitableDevice));
}

#[test]
fn no_device_gives_no_suitable_device() {
    assert_eq!(AAASurface::select_queue_family(&vec![]), Err(SurfaceError::NoSuitableDevice));
    let empty = vec![PhysicalDevice { handle: 1, queue_families: vec![] }];
    assert_eq!(AAASurface::select_queue_family(&empty), Err(SurfaceError::NoSuitableDevice));
}

#[test]
fn suitability_needs_the_graphics_bit() {
    assert!(family(QUEUE_GRAPHICS | 0x8, true).is_suitable());
    assert!(!family(0x8, true).is_suitable());
    assert!(!family(QUEUE_GRAPHICS, false).is_suitable());
}

#[test]
fn surface_takes_its_first_format() {
    let formats = vec![
        SurfaceFormat { format: 50, color_space: 0 },
        SurfaceFormat { format: 44, color_space: 0 },
    ];
    let surface = AAASurface::new(5, 20, 1, &formats, caps()).unwrap();
    assert_eq!(surface.format, SurfaceFormat { format: 50, color_space: 0 });
    assert_eq!(surface.surface_khr, 5);
    assert_eq!(surface.physical_device, 20);
    assert_eq!(surface.queue_family_index, 1);
    assert_eq!(surface.capabilities, caps());
}

#[test]
fn surface_without_format_is_refused() {
    assert_eq!(AAASurface::new(5, 20, 1, &vec![], caps()), Err(SurfaceError::NoSurfaceFormat));
}

#[test]
fn recreate_refreshes_format_and_capabilities() {
    let mut surface =
        AAASurface::new(5, 20, 1, &vec![SurfaceFormat { format: 50, color_space: 0 }], caps()).unwrap();
    let mut fresh = caps();
    fresh.current_extent = Extent2D { width: 640, height: 480 };
    let formats = vec![SurfaceFormat { format: 37, color_space: 3 }];
    assert_eq!(surface.recreate(&formats, fresh), Ok(()));
    assert_eq!(surface.format, SurfaceFormat { format: 37, color_space: 3 });
    assert_eq!(surface.capabilities.current_extent, Extent2D { width: 640, height: 480 });
    assert_eq!(surface.physical_device, 20);
}

#[test]
fn recreate_without_format_changes_nothing() {
    let mut surface =
        AAASurface::new(5, 20, 1, &vec![SurfaceFormat { format: 50, color_space: 0 }], caps()).unwrap();
    let before = surface;
    let mut fresh = caps();
    fresh.min_image_count = 9;
    assert_eq!(surface.recreate(&vec![], fresh), Err(SurfaceError::NoSurfaceFormat));
    assert_eq!(surface, before);
}
