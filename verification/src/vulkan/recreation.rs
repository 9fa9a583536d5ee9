//! Rebuilding the swapchain: the steps it takes, the order they must keep,
//! and what they do to the record of live objects.

use vstd::prelude::*;
use crate::vulkan::surface_resources::{
    can_create, can_destroy, Ledger, LifetimeError, ResourceKind,
};

verus! {

/// One step of rebuilding the swapchain.
#[derive(Clone, Copy, Debug, PartialEq, Eq, Structural)]
pub enum GpuStep {
    /// Block until the device has finished all work.
    WaitDeviceIdle,
    Destroy(ResourceKind),
    /// Ask the surface for its formats, its capabilities and its present modes.
    RefreshSurface,
    Create(ResourceKind),
    /// Bring the new depth image into the layout in which it is drawn to.
    TransitionDepthLayout,
}

/// The place of the step that asks the surface, in the steps of rebuilding.
pub const REFRESH_STEP: usize = 7;

/// The number of steps of rebuilding.
pub const RECREATION_STEPS: usize = 15;

/// The step at place `step` of rebuilding the swapchain: wait for the
/// device, release the objects of the old generation in the reverse of the
/// order in which they were made, ask the surface, make the swapchain and
/// then the objects that hang on it, and bring the depth image into use.
pub open spec fn recreation_step_at(step: int) -> GpuStep {
    if step <= 0 {
        GpuStep::WaitDeviceIdle
    } else if step == 1 {
        GpuStep::Destroy(ResourceKind::Framebuffers)
    } else if step == 2 {
        GpuStep::Destroy(ResourceKind::DepthView)
    } else if step == 3 {
        GpuStep::Destroy(ResourceKind::DepthMemory)
    } else if step == 4 {
        GpuStep::Destroy(ResourceKind::DepthImage)
    } else if step == 5 {
        GpuStep::Destroy(ResourceKind::PresentImageViews)
    } else if step == 6 {
        GpuStep::Destroy(ResourceKind::Swapchain)
    } else if step == 7 {
        GpuStep::RefreshSurface
    } else if step == 8 {
        GpuStep::Create(ResourceKind::Swapchain)
    } else if step == 9 {
        GpuStep::Create(ResourceKind::PresentImageViews)
    } else if step == 10 {
        GpuStep::Create(ResourceKind::DepthImage)
    } else if step == 11 {
        GpuStep::Create(ResourceKind::DepthMemory)
    } else if step == 12 {
        GpuStep::Create(ResourceKind::DepthView)
    } else if step == 13 {
        GpuStep::Create(ResourceKind::Framebuffers)
    } else {
        GpuStep::TransitionDepthLayout
    }
}

/// The steps of rebuilding the swapchain, in their order.
pub open spec fn recreation_plan() -> Seq<GpuStep> {
    Seq::new(RECREATION_STEPS as nat, |step: int| recreation_step_at(step))
}

/// The step at place `step` of rebuilding, if there is one.
pub fn recreation_step(step: usize) -> (r: Option<GpuStep>)
    ensures
        step < RECREATION_STEPS ==> r == Some(recreation_plan()[step as int]),
        step >= RECREATION_STEPS ==> r.is_none(),
{
    match step {
        0 => Some(GpuStep::WaitDeviceIdle),
        1 => Some(GpuStep::Destroy(ResourceKind::Framebuffers)),
        2 => Some(GpuStep::Destroy(ResourceKind::DepthView)),
        3 => Some(GpuStep::Destroy(ResourceKind::DepthMemory)),
        4 => Some(GpuStep::Destroy(ResourceKind::DepthImage)),
        5 => Some(GpuStep::Destroy(ResourceKind::PresentImageViews)),
        6 => Some(GpuStep::Destroy(ResourceKind::Swapchain)),
        7 => Some(GpuStep::RefreshSurface),
        8 => Some(GpuStep::Create(ResourceKind::Swapchain)),
        9 => Some(GpuStep::Create(ResourceKind::PresentImageViews)),
        10 => Some(GpuStep::Create(ResourceKind::DepthImage)),
        11 => Some(GpuStep::Create(ResourceKind::DepthMemory)),
        12 => Some(GpuStep::Create(ResourceKind::DepthView)),
        13 => Some(GpuStep::Create(ResourceKind::Framebuffers)),
        14 => Some(GpuStep::TransitionDepthLayout),
        _ => None,
    }
}

impl GpuStep {
    /// Whether the step waits for the device to finish all work.
    pub open spec fn waits(self) -> bool {
        self == GpuStep::WaitDeviceIdle
    }

    /// Whether the step releases an object of a swapchain generation.
    pub open spec fn releases_generation(self) -> bool {
        self matches GpuStep::Destroy(kind) && kind.generation_scoped()
    }

    /// Whether the step makes a swapchain.
    pub open spec fn makes_swapchain(self) -> bool {
        self == GpuStep::Create(ResourceKind::Swapchain)
    }

    /// Whether the step makes an object that hangs on the swapchain: an
    /// object of a swapchain generation other than the swapchain itself.
    pub open spec fn makes_dependent(self) -> bool {
        self matches GpuStep::Create(kind) && kind.generation_scoped() && kind
            != ResourceKind::Swapchain
    }

    pub fn is_generation_release(&self) -> (r: bool)
        ensures
            r == self.releases_generation(),
    {
        match self {
            GpuStep::Destroy(kind) => kind.is_generation_scoped(),
            _ => false,
        }
    }

    pub fn is_dependent_creation(&self) -> (r: bool)
        ensures
            r == self.makes_dependent(),
    {
        match self {
            GpuStep::Create(ResourceKind::Swapchain) => false,
            GpuStep::Create(kind) => kind.is_generation_scoped(),
            _ => false,
        }
    }
}

/// Whether idle-wait, release, the new swapchain and what hangs on it
/// follow each other in `steps` as rebuilding demands: every release of an
/// object of the old generation has a wait for the device before it; every
/// such release comes before the new swapchain is made; and the swapchain
/// is made before any other object of the new generation.
pub open spec fn recreation_order_valid(steps: Seq<GpuStep>) -> bool {
    &&& forall|j: int|
        0 <= j < steps.len() && #[trigger] steps[j].releases_generation() ==> exists|i: int|
            0 <= i < j && #[trigger] steps[i].waits()
    &&& forall|i: int, j: int|
        0 <= i < steps.len() && 0 <= j < steps.len() && #[trigger] steps[i].releases_generation()
            && #[trigger] steps[j].makes_swapchain() ==> i < j
    &&& forall|i: int, j: int|
        0 <= i < steps.len() && 0 <= j < steps.len() && #[trigger] steps[i].makes_swapchain()
            && #[trigger] steps[j].makes_dependent() ==> i < j
}

/// Whether the first `count` of `steps` are in a valid order.
#[verifier::opaque]
spec fn valid_so_far(steps: Seq<GpuStep>, count: int) -> bool {
    recreation_order_valid(steps.subrange(0, count))
}

/// Whether one of the first `count` of `steps` waits for the device.
#[verifier::opaque]
spec fn waited_so_far(steps: Seq<GpuStep>, count: int) -> bool {
    exists|i: int| 0 <= i < count && #[trigger] steps[i].waits()
}

/// Whether one of the first `count` of `steps` makes a swapchain.
#[verifier::opaque]
spec fn swapchain_so_far(steps: Seq<GpuStep>, count: int) -> bool {
    exists|i: int| 0 <= i < count && #[trigger] steps[i].makes_swapchain()
}

/// Whether one of the first `count` of `steps` makes an object that hangs on the swapchain.
#[verifier::opaque]
spec fn dependent_so_far(steps: Seq<GpuStep>, count: int) -> bool {
    exists|i: int| 0 <= i < count && #[trigger] steps[i].makes_dependent()
}

proof fn lemma_nothing_so_far(steps: Seq<GpuStep>)
    ensures
        valid_so_far(steps, 0),
        !waited_so_far(steps, 0),
        !swapchain_so_far(steps, 0),
        !dependent_so_far(steps, 0),
{
    reveal(valid_so_far);
    reveal(waited_so_far);
    reveal(swapchain_so_far);
    reveal(dependent_so_far);
}

proof fn lemma_all_so_far(steps: Seq<GpuStep>)
    requires
        valid_so_far(steps, steps.len() as int),
    ensures
        recreation_order_valid(steps),
{
    reveal(valid_so_far);
    assert(steps.subrange(0, steps.len() as int) =~= steps);
}

/// A release without an earlier wait, or after a swapchain was made, makes
/// the whole sequence invalid.
proof fn lemma_release_out_of_order(steps: Seq<GpuStep>, at: int)
    requires
        0 <= at < steps.len(),
        steps[at].releases_generation(),
        !waited_so_far(steps, at) || swapchain_so_far(steps, at),
    ensures
        !recreation_order_valid(steps),
{
    reveal(waited_so_far);
    reveal(swapchain_so_far);
    if recreation_order_valid(steps) {
        if !waited_so_far(steps, at) {
            let i = choose|i: int| 0 <= i < at && #[trigger] steps[i].waits();
            assert(false);
        } else {
            let j = choose|j: int| 0 <= j < at && #[trigger] steps[j].makes_swapchain();
            assert(steps[at].releases_generation() && steps[j].makes_swapchain());
            assert(false);
        }
    }
}

/// A swapchain that is made after an object that hangs on it makes the
/// whole sequence invalid.
proof fn lemma_swapchain_out_of_order(steps: Seq<GpuStep>, at: int)
    requires
        0 <= at < steps.len(),
        steps[at].makes_swapchain(),
        dependent_so_far(steps, at),
    ensures
        !recreation_order_valid(steps),
{
    reveal(dependent_so_far);
    if recreation_order_valid(steps) {
        let j = choose|j: int| 0 <= j < at && #[trigger] steps[j].makes_dependent();
        assert(steps[at].makes_swapchain() && steps[j].makes_dependent());
        assert(false);
    }
}

/// A step that is in order keeps the sequence valid.
proof fn lemma_step_in_order(steps: Seq<GpuStep>, at: int)
    requires
        0 <= at < steps.len(),
        valid_so_far(steps, at),
        steps[at].releases_generation() ==> waited_so_far(steps, at) && !swapchain_so_far(steps, at),
        steps[at].makes_swapchain() ==> !dependent_so_far(steps, at),
    ensures
        valid_so_far(steps, at + 1),
        waited_so_far(steps, at + 1) == (waited_so_far(steps, at) || steps[at].waits()),
        swapchain_so_far(steps, at + 1) == (swapchain_so_far(steps, at)
            || steps[at].makes_swapchain()),
        dependent_so_far(steps, at + 1) == (dependent_so_far(steps, at)
            || steps[at].makes_dependent()),
{
    reveal(valid_so_far);
    reveal(waited_so_far);
    reveal(swapchain_so_far);
    reveal(dependent_so_far);
    let before = steps.subrange(0, at);
    let after = steps.subrange(0, at + 1);
    assert forall|j: int|
        0 <= j < after.len() && #[trigger] after[j].releases_generation() implies exists|i: int|
        0 <= i < j && #[trigger] after[i].waits() by {
        if j < at {
            assert(before[j].releases_generation());
            let i = choose|i: int| 0 <= i < j && #[trigger] before[i].waits();
            assert(after[i].waits());
        } else {
            let i = choose|i: int| 0 <= i < at && #[trigger] steps[i].waits();
            assert(after[i].waits());
        }
    }
    assert forall|i: int, j: int|
        0 <= i < after.len() && 0 <= j < after.len() && #[trigger] after[i].releases_generation()
            && #[trigger] after[j].makes_swapchain() implies i < j by {
        if i < at && j < at {
            assert(before[i].releases_generation() && before[j].makes_swapchain());
        } else if i == at && j < at {
            assert(steps[j].makes_swapchain());
        }
    }
    assert forall|i: int, j: int|
        0 <= i < after.len() && 0 <= j < after.len() && #[trigger] after[i].makes_swapchain()
            && #[trigger] after[j].makes_dependent() implies i < j by {
        if i < at && j < at {
            assert(before[i].makes_swapchain() && before[j].makes_dependent());
        } else if i == at && j < at {
            assert(steps[j].makes_dependent());
        }
    }
    if waited_so_far(steps, at) {
        let i = choose|i: int| 0 <= i < at && #[trigger] steps[i].waits();
        assert(0 <= i < at + 1 && steps[i].waits());
    }
    if swapchain_so_far(steps, at) {
        let i = choose|i: int| 0 <= i < at && #[trigger] steps[i].makes_swapchain();
        assert(0 <= i < at + 1 && steps[i].makes_swapchain());
    }
    if dependent_so_far(steps, at) {
        let i = choose|i: int| 0 <= i < at && #[trigger] steps[i].makes_dependent();
        assert(0 <= i < at + 1 && steps[i].makes_dependent());
    }
    assert(steps[at].waits() || !steps[at].waits());
    assert(steps[at].makes_swapchain() || !steps[at].makes_swapchain());
    assert(steps[at].makes_dependent() || !steps[at].makes_dependent());
}

/// Whether `steps`, as they were made on a device, are in a valid order
/// for rebuilding a swapchain.
pub fn is_valid_recreation(steps: &Vec<GpuStep>) -> (r: bool)
    ensures
        r == recreation_order_valid(steps@),
{
    let mut waited = false;
    let mut swapchain_made = false;
    let mut dependent_made = false;
    let mut at: usize = 0;
    proof {
        lemma_nothing_so_far(steps@);
    }
    while at < steps.len()
        invariant
            at <= steps@.len(),
            valid_so_far(steps@, at as int),
            waited == waited_so_far(steps@, at as int),
            swapchain_made == swapchain_so_far(steps@, at as int),
            dependent_made == dependent_so_far(steps@, at as int),
        decreases steps@.len() - at,
    {
        let step = steps[at];
        let makes_swapchain = match step {
            GpuStep::Create(ResourceKind::Swapchain) => true,
            _ => false,
        };
        let waits = match step {
            GpuStep::WaitDeviceIdle => true,
            _ => false,
        };
        if step.is_generation_release() && (!waited || swapchain_made) {
            proof {
                lemma_release_out_of_order(steps@, at as int);
            }
            return false;
        }
        if makes_swapchain && dependent_made {
            proof {
                lemma_swapchain_out_of_order(steps@, at as int);
            }
            return false;
        }
        proof {
            lemma_step_in_order(steps@, at as int);
        }
        waited = waited || waits;
        swapchain_made = swapchain_made || makes_swapchain;
        dependent_made = dependent_made || step.is_dependent_creation();
        at += 1;
    }
    proof {
        lemma_all_so_far(steps@);
    }
    true
}

proof fn lemma_order_pair(plan: Seq<GpuStep>, i: int, j: int)
    requires
        plan == recreation_plan(),
        0 <= i < plan.len(),
        0 <= j < plan.len(),
    ensures
        plan[j].releases_generation() ==> 0 < j && plan[0].waits(),
        plan[i].releases_generation() && plan[j].makes_swapchain() ==> i < j,
        plan[i].makes_swapchain() && plan[j].makes_dependent() ==> i < j,
{
}

/// Rebuilding touches nothing but the objects of a swapchain generation:
/// whatever outlives the generations, the pipeline among it, is neither
/// released nor made anew.
pub proof fn lemma_rebuilding_spares_long_lived(step: int)
    requires
        0 <= step < RECREATION_STEPS,
    ensures
        recreation_plan()[step] matches GpuStep::Destroy(kind) ==> kind.generation_scoped(),
        recreation_plan()[step] matches GpuStep::Create(kind) ==> kind.generation_scoped(),
{
}

/// The steps of rebuilding are in a valid order.
pub proof fn lemma_recreation_order()
    ensures
        recreation_order_valid(recreation_plan()),
{
    let plan = recreation_plan();
    assert forall|j: int|
        0 <= j < plan.len() && #[trigger] plan[j].releases_generation() implies exists|i: int|
        0 <= i < j && #[trigger] plan[i].waits() by {
        lemma_order_pair(plan, j, j);
    }
    assert forall|i: int, j: int|
        0 <= i < plan.len() && 0 <= j < plan.len() && #[trigger] plan[i].releases_generation()
            && #[trigger] plan[j].makes_swapchain() implies i < j by {
        lemma_order_pair(plan, i, j);
    }
    assert forall|i: int, j: int|
        0 <= i < plan.len() && 0 <= j < plan.len() && #[trigger] plan[i].makes_swapchain()
            && #[trigger] plan[j].makes_dependent() implies i < j by {
        lemma_order_pair(plan, i, j);
    }
}

/// The steps of rebuilding are in a valid order also where they start with
/// the surface, because no generation exists.
pub proof fn lemma_recreation_order_from_refresh()
    ensures
        recreation_order_valid(
            recreation_plan().subrange(REFRESH_STEP as int, RECREATION_STEPS as int),
        ),
{
    let tail = recreation_plan().subrange(REFRESH_STEP as int, RECREATION_STEPS as int);
    assert forall|j: int| 0 <= j < tail.len() implies !#[trigger] tail[j].releases_generation() by {
        assert(tail[j] == recreation_step_at(j + 7));
    }
    assert forall|i: int, j: int|
        0 <= i < tail.len() && 0 <= j < tail.len() && #[trigger] tail[i].makes_swapchain()
            && #[trigger] tail[j].makes_dependent() implies i < j by {
        assert(tail[i] == recreation_step_at(i + 7));
        assert(tail[j] == recreation_step_at(j + 7));
    }
}

/// What a step of rebuilding makes of the set of live objects, where the
/// ledger accepts it: a release takes the object out, a creation puts it
/// in, and the other steps leave the set as it is.
pub open spec fn live_after(live: Set<ResourceKind>, step: GpuStep) -> Option<Set<ResourceKind>> {
    match step {
        GpuStep::Destroy(kind) => if can_destroy(live, kind) {
            Some(live.remove(kind))
        } else {
            None
        },
        GpuStep::Create(kind) => if can_create(live, kind) {
            Some(live.insert(kind))
        } else {
            None
        },
        _ => Some(live),
    }
}

/// What the steps of rebuilding from place `from` up to place `to` make of
/// the set of live objects, where the ledger accepts every one of them.
pub open spec fn live_after_steps(live: Set<ResourceKind>, from: int, to: int) -> Option<
    Set<ResourceKind>,
>
    decreases to - from,
{
    if from >= to {
        Some(live)
    } else {
        match live_after(live, recreation_step_at(from)) {
            Some(next) => live_after_steps(next, from + 1, to),
            None => None,
        }
    }
}

impl Ledger {
    /// Takes note of a step of rebuilding that was made.
    pub fn apply(&mut self, step: GpuStep) -> (r: Result<(), LifetimeError>)
        ensures
            match live_after(old(self)@, step) {
                Some(live) => r.is_ok() && final(self)@ == live,
                None => r.is_err() && final(self)@ == old(self)@,
            },
    {
        match step {
            GpuStep::Destroy(kind) => self.destroy(kind),
            GpuStep::Create(kind) => self.create(kind),
            _ => Ok(()),
        }
    }
}

/// With every object of the window alive, the ledger accepts the steps of
/// rebuilding, each in its turn: nothing is released that is still needed,
/// nothing is made before what it needs. Afterwards every object is alive
/// again.
pub proof fn lemma_rebuilding_accepted(live: Set<ResourceKind>)
    requires
        forall|kind: ResourceKind| live.contains(kind),
    ensures
        live_after_steps(live, 0, RECREATION_STEPS as int) == Some(live),
{
    let l6 = live.remove(ResourceKind::Framebuffers);
    let l5 = l6.remove(ResourceKind::DepthView);
    let l4 = l5.remove(ResourceKind::DepthMemory);
    let l3 = l4.remove(ResourceKind::DepthImage);
    let l2 = l3.remove(ResourceKind::PresentImageViews);
    let l1 = l2.remove(ResourceKind::Swapchain);
    lemma_build_accepted(l1);
    assert(live_after_steps(l1, 7, 15) == Some(live)) by {
        assert(l1.insert(ResourceKind::Swapchain).insert(ResourceKind::PresentImageViews).insert(
            ResourceKind::DepthImage,
        ).insert(ResourceKind::DepthMemory).insert(ResourceKind::DepthView).insert(
            ResourceKind::Framebuffers,
        ) =~= live);
    }
    assert(live_after_steps(l2, 6, 15) == Some(live));
    assert(live_after_steps(l3, 5, 15) == Some(live));
    assert(live_after_steps(l4, 4, 15) == Some(live));
    assert(live_after_steps(l5, 3, 15) == Some(live));
    assert(live_after_steps(l6, 2, 15) == Some(live));
    assert(live_after_steps(live, 1, 15) == Some(live));
}

/// With everything alive but the objects of a swapchain generation, the
/// ledger accepts the steps that build a generation, and afterwards every
/// object of the generation is alive beside the others.
pub proof fn lemma_build_accepted(live: Set<ResourceKind>)
    requires
        forall|kind: ResourceKind| #[trigger] live.contains(kind) == !kind.generation_scoped(),
    ensures
        live_after_steps(live, REFRESH_STEP as int, RECREATION_STEPS as int) == Some(
            live.insert(ResourceKind::Swapchain).insert(ResourceKind::PresentImageViews).insert(
                ResourceKind::DepthImage,
            ).insert(ResourceKind::DepthMemory).insert(ResourceKind::DepthView).insert(
                ResourceKind::Framebuffers,
            ),
        ),
{
    let l8 = live.insert(ResourceKind::Swapchain);
    let l9 = l8.insert(ResourceKind::PresentImageViews);
    let l10 = l9.insert(ResourceKind::DepthImage);
    let l11 = l10.insert(ResourceKind::DepthMemory);
    let l12 = l11.insert(ResourceKind::DepthView);
    let l13 = l12.insert(ResourceKind::Framebuffers);
    assert(live_after_steps(l13, 15, 15) == Some(l13));
    assert(live_after_steps(l13, 14, 15) == Some(l13));
    assert(live_after_steps(l12, 13, 15) == Some(l13));
    assert(live_after_steps(l11, 12, 15) == Some(l13));
    assert(live_after_steps(l10, 11, 15) == Some(l13));
    assert(live_after_steps(l9, 10, 15) == Some(l13));
    assert(live_after_steps(l8, 9, 15) == Some(l13));
    assert(live_after_steps(live, 8, 15) == Some(l13));
}

} // verus!
