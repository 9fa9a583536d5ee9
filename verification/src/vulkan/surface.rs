//! The presentation surface: its format, its capabilities, and the choice of
//! the physical device and queue family that can draw and present to it.

use vstd::prelude::*;

verus! {

/// Width that a surface reports when it leaves the resolution to the swapchain.
pub const UNDEFINED_EXTENT: u32 = 0xFFFF_FFFF;

/// Bit of `queue_flags` that marks a queue family as able to run graphics commands.
pub const QUEUE_GRAPHICS: u32 = 0x1;

/// A resolution in pixels.
#[derive(Clone, Copy, Debug, PartialEq, Eq, Structural)]
pub struct Extent2D {
    pub width: u32,
    pub height: u32,
}

/// Pixel format and colour space of the images a surface presents.
#[derive(Clone, Copy, Debug, PartialEq, Eq, Structural)]
pub struct SurfaceFormat {
    pub format: i32,
    pub color_space: i32,
}

/// What the swapchain decisions read from a surface's capabilities.
#[derive(Clone, Copy, Debug, PartialEq, Eq, Structural)]
pub struct SurfaceCapabilities {
    pub min_image_count: u32,
    /// Zero means that the surface sets no upper limit.
    pub max_image_count: u32,
    /// Its width is `UNDEFINED_EXTENT` when the swapchain decides the resolution.
    pub current_extent: Extent2D,
    pub supported_transforms: u32,
    pub current_transform: u32,
}

/// One queue family of a physical device, as seen from one surface.
#[derive(Clone, Copy, Debug, PartialEq, Eq, Structural)]
pub struct QueueFamily {
    pub queue_flags: u32,
    /// Whether the family can present to the surface in question.
    pub supports_surface: bool,
}

/// A physical device with its queue families, in the order the instance lists them.
#[derive(Clone, Debug, PartialEq, Eq)]
pub struct PhysicalDevice {
    pub handle: u64,
    pub queue_families: Vec<QueueFamily>,
}

/// The place of a queue family: the index of its device, and its own index there.
#[derive(Clone, Copy, Debug, PartialEq, Eq, Structural)]
pub struct QueueSelection {
    pub device: usize,
    pub family: usize,
}

#[derive(Clone, Copy, Debug, PartialEq, Eq, Structural)]
pub enum SurfaceError {
    /// No queue family of any device both runs graphics commands and presents to the surface.
    NoSuitableDevice,
    /// The surface lists no format.
    NoSurfaceFormat,
}

/// A surface bound to the device and queue family that serve it.
#[derive(Clone, Copy, Debug, PartialEq, Eq, Structural)]
pub struct AAASurface {
    pub surface_khr: u64,
    pub format: SurfaceFormat,
    pub capabilities: SurfaceCapabilities,
    pub physical_device: u64,
    pub queue_family_index: u32,
}

impl QueueFamily {
    /// A family is suitable when it runs graphics commands and presents to the surface.
    pub open spec fn suitable(self) -> bool {
        self.queue_flags & QUEUE_GRAPHICS == QUEUE_GRAPHICS && self.supports_surface
    }

    pub fn is_suitable(&self) -> (r: bool)
        ensures
            r == self.suitable(),
    {
        self.queue_flags & QUEUE_GRAPHICS == QUEUE_GRAPHICS && self.supports_surface
    }
}

/// Whether family `q` of device `d` exists and is suitable.
pub open spec fn suitable_at(devices: Seq<PhysicalDevice>, d: int, q: int) -> bool {
    &&& 0 <= d < devices.len()
    &&& 0 <= q < devices[d].queue_families@.len()
    &&& devices[d].queue_families@[q].suitable()
}

/// Whether `(d1, q1)` comes before `(d2, q2)` when devices are walked in order
/// and, within a device, its families in order.
pub open spec fn comes_before(d1: int, q1: int, d2: int, q2: int) -> bool {
    d1 < d2 || (d1 == d2 && q1 < q2)
}

/// Whether `(d, q)` is the first suitable family.
pub open spec fn first_suitable(devices: Seq<PhysicalDevice>, d: int, q: int) -> bool {
    &&& suitable_at(devices, d, q)
    &&& forall|d1: int, q1: int|
        #![trigger suitable_at(devices, d1, q1)]
        suitable_at(devices, d1, q1) ==> !comes_before(d1, q1, d, q)
}

/// The first suitable family of one device, if it has one.
fn first_suitable_family(families: &Vec<QueueFamily>) -> (r: Option<usize>)
    ensures
        match r {
            Some(q) => q < families@.len() && families@[q as int].suitable() && forall|j: int|
                0 <= j < q ==> !families@[j].suitable(),
            None => forall|j: int| 0 <= j < families@.len() ==> !families@[j].suitable(),
        },
{
    let mut q: usize = 0;
    while q < families.len()
        invariant
            q <= families@.len(),
            forall|j: int| 0 <= j < q ==> !families@[j].suitable(),
        decreases families@.len() - q,
    {
        if families[q].is_suitable() {
            return Some(q);
        }
        q += 1;
    }
    None
}

impl AAASurface {
    /// Picks the queue family that the surface's device is made with: the
    /// first one, over the devices in order and each device's families in
    /// order, that runs graphics commands and presents to the surface.
    /// Where no device can serve the surface, the error says so.
    pub fn select_queue_family(devices: &Vec<PhysicalDevice>) -> (r: Result<
        QueueSelection,
        SurfaceError,
    >)
        ensures
            match r {
                Ok(s) => first_suitable(devices@, s.device as int, s.family as int),
                Err(e) => e == SurfaceError::NoSuitableDevice && forall|d: int, q: int|
                    !suitable_at(devices@, d, q),
            },
    {
        let mut d: usize = 0;
        while d < devices.len()
            invariant
                d <= devices@.len(),
                forall|d1: int, q1: int| 0 <= d1 < d ==> !suitable_at(devices@, d1, q1),
            decreases devices@.len() - d,
        {
            match first_suitable_family(&devices[d].queue_families) {
                Some(q) => {
                    return Ok(QueueSelection { device: d, family: q });
                },
                None => {},
            }
            d += 1;
        }
        Err(SurfaceError::NoSuitableDevice)
    }

    /// Binds a surface to the chosen device and queue family. The surface
    /// takes the first format that it lists; one that lists none is refused.
    pub fn new(
        surface_khr: u64,
        physical_device: u64,
        queue_family_index: u32,
        formats: &Vec<SurfaceFormat>,
        capabilities: SurfaceCapabilities,
    ) -> (r: Result<AAASurface, SurfaceError>)
        ensures
            formats@.len() == 0 ==> r == Err::<AAASurface, SurfaceError>(
                SurfaceError::NoSurfaceFormat,
            ),
            formats@.len() > 0 ==> r == Ok::<AAASurface, SurfaceError>(
                AAASurface {
                    surface_khr,
                    format: formats@[0],
                    capabilities,
                    physical_device,
                    queue_family_index,
                },
            ),
    {
        if formats.len() == 0 {
            return Err(SurfaceError::NoSurfaceFormat);
        }
        Ok(
            AAASurface {
                surface_khr,
                format: formats[0],
                capabilities,
                physical_device,
                queue_family_index,
            },
        )
    }

    /// Takes over the format and capabilities that the surface reports now.
    /// Where it lists no format, nothing changes and the error says so.
    pub fn recreate(&mut self, formats: &Vec<SurfaceFormat>, capabilities: SurfaceCapabilities) -> (r:
        Result<(), SurfaceError>)
        ensures
            formats@.len() == 0 ==> r == Err::<(), SurfaceError>(SurfaceError::NoSurfaceFormat)
                && *final(self) == *old(self),
            formats@.len() > 0 ==> r == Ok::<(), SurfaceError>(()) && *final(self) == (AAASurface {
                format: formats@[0],
                capabilities,
                ..*old(self)
            }),
    {
        if formats.len() == 0 {
            return Err(SurfaceError::NoSurfaceFormat);
        }
        self.format = formats[0];
        self.capabilities = capabilities;
        Ok(())
    }
}

} // verus!
