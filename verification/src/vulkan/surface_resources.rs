//! The GPU objects of one window: the order in which they are made, what
//! each of them needs alive, and a ledger that refuses a double release or
//! the release of something that is still needed.

use vstd::prelude::*;
use crate::model::RegisteredMesh;
use crate::vulkan::pipeline::create_pipeline;
use crate::vulkan::record::{record_submit_commandbuffer, submit_calls, Submission};
use crate::vulkan::surface::AAASurface;
use crate::vulkan::swapchain::{AAASwapchain, PresentMode, SwapchainError, resolved_extent};

verus! {

/// The GPU objects of one window, in the order of their creation.
#[derive(Clone, Copy, Debug, PartialEq, Eq, Structural)]
pub enum ResourceKind {
    Instance,
    Surface,
    Device,
    Swapchain,
    Fences,
    PresentImageViews,
    DepthImage,
    DepthMemory,
    DepthView,
    Semaphores,
    RenderPass,
    DescriptorPool,
    DescriptorSetLayout,
    ShaderModules,
    PipelineLayout,
    Pipeline,
    Framebuffers,
    CommandPool,
    UniformBuffer,
    Texture,
    MeshBuffers,
}

/// How many kinds of object there are.
pub const KIND_COUNT: usize = 21;

impl ResourceKind {
    /// The place of a kind in the order of creation.
    pub open spec fn rank(self) -> nat {
        match self {
            ResourceKind::Instance => 0,
            ResourceKind::Surface => 1,
            ResourceKind::Device => 2,
            ResourceKind::Swapchain => 3,
            ResourceKind::Fences => 4,
            ResourceKind::PresentImageViews => 5,
            ResourceKind::DepthImage => 6,
            ResourceKind::DepthMemory => 7,
            ResourceKind::DepthView => 8,
            ResourceKind::Semaphores => 9,
            ResourceKind::RenderPass => 10,
            ResourceKind::DescriptorPool => 11,
            ResourceKind::DescriptorSetLayout => 12,
            ResourceKind::ShaderModules => 13,
            ResourceKind::PipelineLayout => 14,
            ResourceKind::Pipeline => 15,
            ResourceKind::Framebuffers => 16,
            ResourceKind::CommandPool => 17,
            ResourceKind::UniformBuffer => 18,
            ResourceKind::Texture => 19,
            ResourceKind::MeshBuffers => 20,
        }
    }

    /// The kind at a place in the order of creation.
    pub open spec fn at(rank: nat) -> ResourceKind {
        if rank == 0 {
            ResourceKind::Instance
        } else if rank == 1 {
            ResourceKind::Surface
        } else if rank == 2 {
            ResourceKind::Device
        } else if rank == 3 {
            ResourceKind::Swapchain
        } else if rank == 4 {
            ResourceKind::Fences
        } else if rank == 5 {
            ResourceKind::PresentImageViews
        } else if rank == 6 {
            ResourceKind::DepthImage
        } else if rank == 7 {
            ResourceKind::DepthMemory
        } else if rank == 8 {
            ResourceKind::DepthView
        } else if rank == 9 {
            ResourceKind::Semaphores
        } else if rank == 10 {
            ResourceKind::RenderPass
        } else if rank == 11 {
            ResourceKind::DescriptorPool
        } else if rank == 12 {
            ResourceKind::DescriptorSetLayout
        } else if rank == 13 {
            ResourceKind::ShaderModules
        } else if rank == 14 {
            ResourceKind::PipelineLayout
        } else if rank == 15 {
            ResourceKind::Pipeline
        } else if rank == 16 {
            ResourceKind::Framebuffers
        } else if rank == 17 {
            ResourceKind::CommandPool
        } else if rank == 18 {
            ResourceKind::UniformBuffer
        } else if rank == 19 {
            ResourceKind::Texture
        } else {
            ResourceKind::MeshBuffers
        }
    }

    /// Whether an object of this kind belongs to one swapchain generation:
    /// it is released and made anew whenever the swapchain is rebuilt.
    pub open spec fn generation_scoped(self) -> bool {
        match self {
            ResourceKind::Swapchain
            | ResourceKind::PresentImageViews
            | ResourceKind::DepthImage
            | ResourceKind::DepthMemory
            | ResourceKind::DepthView
            | ResourceKind::Framebuffers => true,
            _ => false,
        }
    }

    /// Whether an object of this kind is allocated against the device.
    pub open spec fn device_child(self) -> bool {
        match self {
            ResourceKind::Instance | ResourceKind::Surface | ResourceKind::Device => false,
            _ => true,
        }
    }

    /// Whether an object of kind `self` needs the object of kind `other`
    /// alive for as long as it lives itself.
    pub open spec fn depends_on(self, other: ResourceKind) -> bool {
        ||| other == ResourceKind::Device && self.device_child()
        ||| match (self, other) {
            (ResourceKind::Surface, ResourceKind::Instance) => true,
            (ResourceKind::Device, ResourceKind::Instance) => true,
            (ResourceKind::Swapchain, ResourceKind::Surface) => true,
            (ResourceKind::PresentImageViews, ResourceKind::Swapchain) => true,
            (ResourceKind::DepthMemory, ResourceKind::DepthImage) => true,
            (ResourceKind::DepthView, ResourceKind::DepthImage) => true,
            (ResourceKind::DepthView, ResourceKind::DepthMemory) => true,
            (ResourceKind::PipelineLayout, ResourceKind::DescriptorSetLayout) => true,
            (ResourceKind::Pipeline, ResourceKind::PipelineLayout) => true,
            (ResourceKind::Pipeline, ResourceKind::RenderPass) => true,
            (ResourceKind::Pipeline, ResourceKind::ShaderModules) => true,
            (ResourceKind::Framebuffers, ResourceKind::RenderPass) => true,
            (ResourceKind::Framebuffers, ResourceKind::PresentImageViews) => true,
            (ResourceKind::Framebuffers, ResourceKind::DepthView) => true,
            _ => false,
        }
    }

    pub fn index(&self) -> (r: usize)
        ensures
            r == self.rank(),
            r < KIND_COUNT,
    {
        match self {
            ResourceKind::Instance => 0,
            ResourceKind::Surface => 1,
            ResourceKind::Device => 2,
            ResourceKind::Swapchain => 3,
            ResourceKind::Fences => 4,
            ResourceKind::PresentImageViews => 5,
            ResourceKind::DepthImage => 6,
            ResourceKind::DepthMemory => 7,
            ResourceKind::DepthView => 8,
            ResourceKind::Semaphores => 9,
            ResourceKind::RenderPass => 10,
            ResourceKind::DescriptorPool => 11,
            ResourceKind::DescriptorSetLayout => 12,
            ResourceKind::ShaderModules => 13,
            ResourceKind::PipelineLayout => 14,
            ResourceKind::Pipeline => 15,
            ResourceKind::Framebuffers => 16,
            ResourceKind::CommandPool => 17,
            ResourceKind::UniformBuffer => 18,
            ResourceKind::Texture => 19,
            ResourceKind::MeshBuffers => 20,
        }
    }

    /// The kind at place `rank`; beyond the last place, the last kind.
    pub fn from_index(rank: usize) -> (r: ResourceKind)
        ensures
            r == Self::at(rank as nat),
            rank < KIND_COUNT ==> r.rank() == rank,
    {
        match rank {
            0 => ResourceKind::Instance,
            1 => ResourceKind::Surface,
            2 => ResourceKind::Device,
            3 => ResourceKind::Swapchain,
            4 => ResourceKind::Fences,
            5 => ResourceKind::PresentImageViews,
            6 => ResourceKind::DepthImage,
            7 => ResourceKind::DepthMemory,
            8 => ResourceKind::DepthView,
            9 => ResourceKind::Semaphores,
            10 => ResourceKind::RenderPass,
            11 => ResourceKind::DescriptorPool,
            12 => ResourceKind::DescriptorSetLayout,
            13 => ResourceKind::ShaderModules,
            14 => ResourceKind::PipelineLayout,
            15 => ResourceKind::Pipeline,
            16 => ResourceKind::Framebuffers,
            17 => ResourceKind::CommandPool,
            18 => ResourceKind::UniformBuffer,
            19 => ResourceKind::Texture,
            _ => ResourceKind::MeshBuffers,
        }
    }

    pub fn is_generation_scoped(&self) -> (r: bool)
        ensures
            r == self.generation_scoped(),
    {
        match self {
            ResourceKind::Swapchain
            | ResourceKind::PresentImageViews
            | ResourceKind::DepthImage
            | ResourceKind::DepthMemory
            | ResourceKind::DepthView
            | ResourceKind::Framebuffers => true,
            _ => false,
        }
    }

    pub fn needs(&self, other: &ResourceKind) -> (r: bool)
        ensures
            r == self.depends_on(*other),
    {
        let device_child = match self {
            ResourceKind::Instance | ResourceKind::Surface | ResourceKind::Device => false,
            _ => true,
        };
        let through_device = device_child && match other {
            ResourceKind::Device => true,
            _ => false,
        };
        through_device || match (self, other) {
            (ResourceKind::Surface, ResourceKind::Instance) => true,
            (ResourceKind::Device, ResourceKind::Instance) => true,
            (ResourceKind::Swapchain, ResourceKind::Surface) => true,
            (ResourceKind::PresentImageViews, ResourceKind::Swapchain) => true,
            (ResourceKind::DepthMemory, ResourceKind::DepthImage) => true,
            (ResourceKind::DepthView, ResourceKind::DepthImage) => true,
            (ResourceKind::DepthView, ResourceKind::DepthMemory) => true,
            (ResourceKind::PipelineLayout, ResourceKind::DescriptorSetLayout) => true,
            (ResourceKind::Pipeline, ResourceKind::PipelineLayout) => true,
            (ResourceKind::Pipeline, ResourceKind::RenderPass) => true,
            (ResourceKind::Pipeline, ResourceKind::ShaderModules) => true,
            (ResourceKind::Framebuffers, ResourceKind::RenderPass) => true,
            (ResourceKind::Framebuffers, ResourceKind::PresentImageViews) => true,
            (ResourceKind::Framebuffers, ResourceKind::DepthView) => true,
            _ => false,
        }
    }
}

/// Each kind has its own place, and every place below `KIND_COUNT` has its kind.
pub proof fn lemma_rank_at(kind: ResourceKind)
    ensures
        kind.rank() < KIND_COUNT,
        ResourceKind::at(kind.rank()) == kind,
{
}

/// The place below `KIND_COUNT` that a kind was taken from is its rank.
pub proof fn lemma_at_rank(rank: nat)
    requires
        rank < KIND_COUNT,
    ensures
        ResourceKind::at(rank).rank() == rank,
{
}

/// Whatever an object needs alive was made before it.
pub proof fn lemma_dependency_made_earlier(kind: ResourceKind, other: ResourceKind)
    requires
        kind.depends_on(other),
    ensures
        other.rank() < kind.rank(),
{
}

/// Why the ledger refuses to make or release an object.
#[derive(Clone, Copy, Debug, PartialEq, Eq, Structural)]
pub enum LifetimeError {
    /// An object of this kind is alive already.
    AlreadyLive,
    /// The object needs one of the kind named, which is not alive.
    MissingDependency(ResourceKind),
    /// No object of this kind is alive: it was never made, or it is released twice.
    NotLive,
    /// A live object of the kind named still needs the one to be released.
    StillInUse(ResourceKind),
}

/// Whether an object of kind `kind` may be made while `live` are alive.
pub open spec fn can_create(live: Set<ResourceKind>, kind: ResourceKind) -> bool {
    &&& !live.contains(kind)
    &&& forall|other: ResourceKind| #[trigger] kind.depends_on(other) ==> live.contains(other)
}

/// Whether the object of kind `kind` may be released while `live` are alive.
pub open spec fn can_destroy(live: Set<ResourceKind>, kind: ResourceKind) -> bool {
    &&& live.contains(kind)
    &&& forall|other: ResourceKind| live.contains(other) ==> !#[trigger] other.depends_on(kind)
}

/// Whether `other` is, in the order of creation, the first that `kind`
/// needs and that is not among `live`.
pub open spec fn first_missing(live: Set<ResourceKind>, kind: ResourceKind, other: ResourceKind) -> bool {
    &&& kind.depends_on(other)
    &&& !live.contains(other)
    &&& forall|k: ResourceKind|
        #[trigger] kind.depends_on(k) && !live.contains(k) ==> other.rank() <= k.rank()
}

/// Whether `other` is, in the order of creation, the first among `live` that needs `kind`.
pub open spec fn first_user(live: Set<ResourceKind>, kind: ResourceKind, other: ResourceKind) -> bool {
    &&& other.depends_on(kind)
    &&& live.contains(other)
    &&& forall|k: ResourceKind|
        #[trigger] k.depends_on(kind) && live.contains(k) ==> other.rank() <= k.rank()
}

/// The kinds whose place in the order of creation is below `count`.
pub open spec fn made_up_to(count: nat) -> Set<ResourceKind> {
    Set::new(|k: ResourceKind| k.rank() < count)
}

/// A copy of `flags` with the flag at place `at` set to `value`.
fn with_flag(flags: &Vec<bool>, at: usize, value: bool) -> (r: Vec<bool>)
    requires
        at < flags@.len(),
    ensures
        r@ == flags@.update(at as int, value),
{
    let mut r: Vec<bool> = Vec::new();
    let mut i: usize = 0;
    while i < flags.len()
        invariant
            i <= flags@.len(),
            at < flags@.len(),
            r@.len() == i,
            forall|j: int| 0 <= j < i ==> r@[j] == flags@.update(at as int, value)[j],
        decreases flags@.len() - i,
    {
        r.push(if i == at { value } else { flags[i] });
        i += 1;
    }
    assert(r@ =~= flags@.update(at as int, value));
    r
}

/// The record of which GPU objects of a window are alive.
pub struct Ledger {
    live: Vec<bool>,
}

impl View for Ledger {
    type V = Set<ResourceKind>;

    /// The kinds of which an object is alive.
    closed spec fn view(&self) -> Set<ResourceKind> {
        Set::new(|k: ResourceKind| self.live@[k.rank() as int])
    }
}

impl Ledger {
    #[verifier::type_invariant]
    spec fn wf(self) -> bool {
        self.live@.len() == KIND_COUNT
    }

    /// A ledger with nothing alive.
    pub fn new() -> (r: Ledger)
        ensures
            r@ == Set::<ResourceKind>::empty(),
    {
        let mut live: Vec<bool> = Vec::new();
        let mut i: usize = 0;
        while i < KIND_COUNT
            invariant
                i <= KIND_COUNT,
                live@.len() == i,
                forall|j: int| 0 <= j < i ==> !live@[j],
            decreases KIND_COUNT - i,
        {
            live.push(false);
            i += 1;
        }
        let r = Ledger { live };
        assert(r@ =~= Set::<ResourceKind>::empty());
        r
    }

    pub fn is_live(&self, kind: ResourceKind) -> (r: bool)
        ensures
            r == self@.contains(kind),
    {
        proof {
            use_type_invariant(self);
        }
        self.live[kind.index()]
    }

    /// Records that an object of kind `kind` was made. It is refused, and
    /// the ledger stays as it is, where one is alive already or where
    /// something that it needs is not.
    pub fn create(&mut self, kind: ResourceKind) -> (r: Result<(), LifetimeError>)
        ensures
            match r {
                Ok(()) => can_create(old(self)@, kind) && final(self)@ == old(self)@.insert(kind),
                Err(LifetimeError::AlreadyLive) => old(self)@.contains(kind) && final(self)@ == old(
                    self,
                )@,
                Err(LifetimeError::MissingDependency(other)) => !old(self)@.contains(kind)
                    && first_missing(old(self)@, kind, other) && final(self)@ == old(self)@,
                Err(_) => false,
            },
    {
        proof {
            use_type_invariant(&*self);
        }
        let at = kind.index();
        if self.live[at] {
            return Err(LifetimeError::AlreadyLive);
        }
        let mut i: usize = 0;
        while i < KIND_COUNT
            invariant
                i <= KIND_COUNT,
                self.live@.len() == KIND_COUNT,
                *self == *old(self),
                at == kind.rank(),
                !self@.contains(kind),
                forall|k: ResourceKind|
                    #[trigger] kind.depends_on(k) && k.rank() < i ==> self@.contains(k),
            decreases KIND_COUNT - i,
        {
            let other = ResourceKind::from_index(i);
            if kind.needs(&other) && !self.live[i] {
                proof {
                    assert(other.rank() == i);
                    assert(!self@.contains(other));
                    assert forall|k: ResourceKind| #[trigger]
                        kind.depends_on(k) && !self@.contains(k) implies other.rank() <= k.rank() by {
                        if k.rank() < i {
                            assert(self@.contains(k));
                        }
                    }
                }
                return Err(LifetimeError::MissingDependency(other));
            }
            proof {
                assert forall|k: ResourceKind| #[trigger]
                    kind.depends_on(k) && k.rank() < i + 1 implies self@.contains(k) by {
                    lemma_rank_at(k);
                }
            }
            i += 1;
        }
        self.live = with_flag(&self.live, at, true);
        proof {
            assert forall|k: ResourceKind| #[trigger] kind.depends_on(k) implies old(self)@.contains(
                k,
            ) by {
                lemma_rank_at(k);
            }
            assert(self@ =~= old(self)@.insert(kind)) by {
                assert forall|k: ResourceKind| self@.contains(k) == old(self)@.insert(kind).contains(
                    k,
                ) by {
                    lemma_rank_at(k);
                }
            }
        }
        Ok(())
    }

    /// Records that the object of kind `kind` was released. It is refused,
    /// and the ledger stays as it is, where none is alive or where a live
    /// object still needs it.
    pub fn destroy(&mut self, kind: ResourceKind) -> (r: Result<(), LifetimeError>)
        ensures
            match r {
                Ok(()) => can_destroy(old(self)@, kind) && final(self)@ == old(self)@.remove(kind),
                Err(LifetimeError::NotLive) => !old(self)@.contains(kind) && final(self)@ == old(
                    self,
                )@,
                Err(LifetimeError::StillInUse(other)) => old(self)@.contains(kind) && first_user(
                    old(self)@,
                    kind,
                    other,
                ) && final(self)@ == old(self)@,
                Err(_) => false,
            },
    {
        proof {
            use_type_invariant(&*self);
        }
        let at = kind.index();
        if !self.live[at] {
            return Err(LifetimeError::NotLive);
        }
        let mut i: usize = 0;
        while i < KIND_COUNT
            invariant
                i <= KIND_COUNT,
                self.live@.len() == KIND_COUNT,
                *self == *old(self),
                at == kind.rank(),
                self@.contains(kind),
                forall|k: ResourceKind|
                    #[trigger] k.depends_on(kind) && k.rank() < i ==> !self@.contains(k),
            decreases KIND_COUNT - i,
        {
            let other = ResourceKind::from_index(i);
            if other.needs(&kind) && self.live[i] {
                proof {
                    assert(other.rank() == i);
                    assert(self@.contains(other));
                    assert forall|k: ResourceKind| #[trigger]
                        k.depends_on(kind) && self@.contains(k) implies other.rank() <= k.rank() by {
                        if k.rank() < i {
                            assert(!self@.contains(k));
                        }
                    }
                }
                return Err(LifetimeError::StillInUse(other));
            }
            proof {
                assert forall|k: ResourceKind| #[trigger]
                    k.depends_on(kind) && k.rank() < i + 1 implies !self@.contains(k) by {
                    lemma_rank_at(k);
                }
            }
            i += 1;
        }
        self.live = with_flag(&self.live, at, false);
        proof {
            assert forall|k: ResourceKind| old(self)@.contains(k) implies !#[trigger] k.depends_on(
                kind,
            ) by {
                lemma_rank_at(k);
            }
            assert(self@ =~= old(self)@.remove(kind)) by {
                assert forall|k: ResourceKind| self@.contains(k) == old(self)@.remove(kind).contains(
                    k,
                ) by {
                    lemma_rank_at(k);
                }
            }
        }
        Ok(())
    }

    /// The object to make next: the first, in the order of creation, that
    /// is not alive. `None` means that everything is alive.
    pub fn next_to_create(&self) -> (r: Option<ResourceKind>)
        ensures
            match r {
                Some(kind) => {
                    &&& !self@.contains(kind)
                    &&& forall|k: ResourceKind| k.rank() < kind.rank() ==> self@.contains(k)
                    &&& can_create(self@, kind)
                },
                None => forall|k: ResourceKind| self@.contains(k),
            },
    {
        proof {
            use_type_invariant(self);
        }
        let mut i: usize = 0;
        while i < KIND_COUNT
            invariant
                i <= KIND_COUNT,
                self.live@.len() == KIND_COUNT,
                forall|k: ResourceKind| k.rank() < i ==> self@.contains(k),
            decreases KIND_COUNT - i,
        {
            if !self.live[i] {
                let kind = ResourceKind::from_index(i);
                proof {
                    assert forall|k: ResourceKind| #[trigger] kind.depends_on(k) implies self@.contains(
                        k,
                    ) by {
                        lemma_dependency_made_earlier(kind, k);
                    }
                }
                return Some(kind);
            }
            i += 1;
        }
        proof {
            assert forall|k: ResourceKind| self@.contains(k) by {
                lemma_rank_at(k);
            }
        }
        None
    }

    /// The object to release next: the last made of those alive, so that
    /// objects leave in the exact reverse of the order of creation. `None`
    /// means that nothing is alive.
    pub fn next_to_destroy(&self) -> (r: Option<ResourceKind>)
        ensures
            match r {
                Some(kind) => {
                    &&& self@.contains(kind)
                    &&& forall|k: ResourceKind| k.rank() > kind.rank() ==> !self@.contains(k)
                    &&& can_destroy(self@, kind)
                },
                None => self@ == Set::<ResourceKind>::empty(),
            },
    {
        proof {
            use_type_invariant(self);
        }
        let mut i: usize = KIND_COUNT;
        while i > 0
            invariant
                i <= KIND_COUNT,
                self.live@.len() == KIND_COUNT,
                forall|k: ResourceKind| k.rank() >= i ==> !self@.contains(k),
            decreases i,
        {
            i -= 1;
            if self.live[i] {
                let kind = ResourceKind::from_index(i);
                proof {
                    assert forall|k: ResourceKind| self@.contains(k) implies !#[trigger] k.depends_on(
                        kind,
                    ) by {
                        if k.depends_on(kind) {
                            lemma_dependency_made_earlier(k, kind);
                        }
                    }
                }
                return Some(kind);
            }
        }
        assert(self@ =~= Set::<ResourceKind>::empty());
        None
    }
}

/// Made in the order of creation, starting from nothing, every object is
/// accepted: what it needs is alive by then.
pub proof fn lemma_creation_order_accepted(count: nat)
    requires
        count < KIND_COUNT,
    ensures
        can_create(made_up_to(count), ResourceKind::at(count)),
        made_up_to(count).insert(ResourceKind::at(count)) == made_up_to(count + 1),
{
    let kind = ResourceKind::at(count);
    lemma_at_rank(count);
    assert forall|other: ResourceKind| #[trigger] kind.depends_on(other) implies made_up_to(
        count,
    ).contains(other) by {
        lemma_dependency_made_earlier(kind, other);
    }
    assert(made_up_to(count).insert(kind) =~= made_up_to(count + 1)) by {
        assert forall|k: ResourceKind| made_up_to(count).insert(kind).contains(k) == made_up_to(
            count + 1,
        ).contains(k) by {
            lemma_rank_at(k);
        }
    }
}

/// Released in the exact reverse of the order of creation, every object is
/// accepted: nothing alive needs it any more. After the last release
/// nothing is alive.
pub proof fn lemma_reverse_order_accepted(count: nat)
    requires
        count < KIND_COUNT,
    ensures
        can_destroy(made_up_to(count + 1), ResourceKind::at(count)),
        made_up_to(count + 1).remove(ResourceKind::at(count)) == made_up_to(count),
        made_up_to(0) == Set::<ResourceKind>::empty(),
{
    let kind = ResourceKind::at(count);
    lemma_at_rank(count);
    assert forall|other: ResourceKind| made_up_to(count + 1).contains(other) implies !#[trigger] other.depends_on(
        kind,
    ) by {
        if other.depends_on(kind) {
            lemma_dependency_made_earlier(other, kind);
        }
    }
    assert(made_up_to(count + 1).remove(kind) =~= made_up_to(count)) by {
        assert forall|k: ResourceKind| made_up_to(count + 1).remove(kind).contains(k) == made_up_to(
            count,
        ).contains(k) by {
            lemma_rank_at(k);
        }
    }
    assert(made_up_to(0) =~= Set::<ResourceKind>::empty());
}

/// The part of the image that is drawn to. Every field is a whole number;
/// the depth range is the full one, from `min_depth` to `max_depth`.
#[derive(Clone, Copy, Debug, PartialEq, Eq, Structural)]
pub struct Viewport {
    pub x: u32,
    pub y: u32,
    pub width: u32,
    pub height: u32,
    pub min_depth: u32,
    pub max_depth: u32,
}

/// A rectangle of pixels.
#[derive(Clone, Copy, Debug, PartialEq, Eq, Structural)]
pub struct Rect2D {
    pub x: i32,
    pub y: i32,
    pub width: u32,
    pub height: u32,
}

/// The viewport that covers an image of `width` by `height`.
pub open spec fn full_viewport(width: u32, height: u32) -> Viewport {
    Viewport { x: 0, y: 0, width, height, min_depth: 0, max_depth: 1 }
}

/// The scissor that cuts nothing off an image of `width` by `height`.
pub open spec fn full_scissor(width: u32, height: u32) -> Rect2D {
    Rect2D { x: 0, y: 0, width, height }
}

/// What the render loop knows of the GPU objects it draws with.
pub struct AAAResources {
    /// The swapchain of the current generation.
    pub swapchain: AAASwapchain,
    /// Whether the objects of a swapchain generation exist.
    pub generation_live: bool,
    pub viewports: [Viewport; 1],
    pub scissors: [Rect2D; 1],
    /// The meshes to draw; the place of a mesh here is its handle.
    pub registered_meshes: Vec<RegisteredMesh>,
}

impl AAAResources {
    /// The resources of a window of `width` by `height` on `surface`, with
    /// no mesh registered yet. The swapchain is planned as
    /// `AAASwapchain::new` plans it; viewport and scissor cover the
    /// resolution that the surface reports. The objects themselves are made
    /// by the caller, in the order that a `Ledger` gives, before the render
    /// loop runs.
    pub fn new(surface: &AAASurface, present_modes: &Vec<PresentMode>, width: u32, height: u32) -> (r:
        Result<AAAResources, SwapchainError>)
        ensures
            match r {
                Ok(resources) => {
                    &&& !resolved_extent(surface.capabilities.current_extent, width, height).is_empty()
                    &&& resources.swapchain == AAASwapchain::planned(
                        surface.capabilities,
                        present_modes@,
                        width,
                        height,
                    )
                    &&& resources.generation_live
                    &&& resources.viewports == [
                        full_viewport(
                            surface.capabilities.current_extent.width,
                            surface.capabilities.current_extent.height,
                        ),
                    ]
                    &&& resources.scissors == [
                        full_scissor(
                            surface.capabilities.current_extent.width,
                            surface.capabilities.current_extent.height,
                        ),
                    ]
                    &&& resources.registered_meshes@.len() == 0
                },
                Err(e) => e == SwapchainError::ZeroExtent && resolved_extent(
                    surface.capabilities.current_extent,
                    width,
                    height,
                ).is_empty(),
            },
    {
        let swapchain = match AAASwapchain::new(surface, present_modes, width, height) {
            Ok(swapchain) => swapchain,
            Err(e) => {
                return Err(e);
            },
        };
        let pipeline = create_pipeline(surface);
        Ok(
            AAAResources {
                swapchain,
                generation_live: true,
                viewports: pipeline.viewports,
                scissors: pipeline.scissors,
                registered_meshes: Vec::new(),
            },
        )
    }

    /// Makes the viewport cover an image of `width` by `height`.
    pub fn recreate_viewports(&mut self, width: u32, height: u32)
        ensures
            final(self).viewports == [full_viewport(width, height)],
            final(self).swapchain == old(self).swapchain,
            final(self).generation_live == old(self).generation_live,
            final(self).scissors == old(self).scissors,
            final(self).registered_meshes == old(self).registered_meshes,
    {
        self.viewports = [Viewport { x: 0, y: 0, width, height, min_depth: 0, max_depth: 1 }];
    }

    /// Makes the scissor cut nothing off an image of `width` by `height`.
    pub fn recreate_scissors(&mut self, width: u32, height: u32)
        ensures
            final(self).scissors == [full_scissor(width, height)],
            final(self).swapchain == old(self).swapchain,
            final(self).generation_live == old(self).generation_live,
            final(self).viewports == old(self).viewports,
            final(self).registered_meshes == old(self).registered_meshes,
    {
        self.scissors = [Rect2D { x: 0, y: 0, width, height }];
    }

    /// The use of the setup command buffer that brings a new depth image
    /// into the layout in which it is drawn to: gated by the buffer's own
    /// fence, on the presentation queue, waiting for no semaphore and
    /// signaling none.
    pub fn register_depth_image_memory(
        &self,
        setup_command_buffer: u64,
        setup_commands_reuse_fence: u64,
        present_queue: u64,
    ) -> (r: Submission)
        ensures
            r.calls@ == submit_calls(setup_command_buffer, setup_commands_reuse_fence, present_queue),
            r.wait_mask@.len() == 0,
            r.wait_semaphores@.len() == 0,
            r.signal_semaphores@.len() == 0,
    {
        record_submit_commandbuffer(
            setup_command_buffer,
            setup_commands_reuse_fence,
            present_queue,
            Vec::new(),
            Vec::new(),
            Vec::new(),
        )
    }

    /// Takes a placed mesh into the set that is drawn every frame, after
    /// those already there, and returns its handle.
    pub fn register_mesh(&mut self, mesh: RegisteredMesh) -> (handle: usize)
        ensures
            handle == old(self).registered_meshes@.len(),
            final(self).registered_meshes@ == old(self).registered_meshes@.push(mesh),
            final(self).swapchain == old(self).swapchain,
            final(self).generation_live == old(self).generation_live,
            final(self).viewports == old(self).viewports,
            final(self).scissors == old(self).scissors,
    {
        let handle = self.registered_meshes.len();
        self.registered_meshes.push(mesh);
        handle
    }
}

} // verus!
