//! The render loop as a state machine. The caller performs the action that
//! `cycle` hands out, and reports what came of it as the next event.

use vstd::prelude::*;
use crate::input_manager::Observation;
use crate::model::RegisteredMesh;
use crate::vulkan::fence_semaphores::SemaphoreRole;
use crate::vulkan::record::WAIT_FOREVER;
use crate::vulkan::surface::{AAASurface, SurfaceCapabilities, SurfaceFormat};
use crate::vulkan::recreation::{
    recreation_plan, recreation_step, recreation_step_at, GpuStep, RECREATION_STEPS, REFRESH_STEP,
};
use crate::vulkan::surface_resources::{
    full_scissor, full_viewport, AAAResources, Rect2D, ResourceKind, Viewport,
};
use crate::vulkan::swapchain::{resolved_extent, AAASwapchain, PresentMode, SwapchainError};

verus! {

/// The states of the render loop.
#[derive(Clone, Copy, Debug, PartialEq, Eq, Structural)]
pub enum LoopState {
    /// Minimized: nothing is presented.
    Idle,
    /// Frame after frame is drawn and presented.
    Running,
    /// The swapchain is being rebuilt.
    Recreating,
    /// The loop has ended.
    Stopped,
}

/// Where exactly the loop stands.
#[derive(Clone, Copy, Debug, PartialEq, Eq, Structural)]
pub enum Phase {
    /// Minimized; the signals are read again after a pause.
    Idle,
    /// Between two frames; the signals are read next.
    FrameStart,
    /// An image has been asked for.
    Acquiring,
    /// The commands that draw to image `image` are being recorded and submitted.
    Drawing { image: u32 },
    /// Image `image` has been handed over for presentation.
    Presenting { image: u32 },
    /// Step `step` of rebuilding the swapchain, for a window of `width` by
    /// `height`, is under way.
    Recreating { step: usize, width: u32, height: u32 },
    Stopped,
}

/// What the caller reports.
#[derive(Clone, Debug, PartialEq, Eq)]
pub enum LoopEvent {
    /// The signals, as they were just read.
    Observed(Observation),
    /// The swapchain gave the image with this index.
    Acquired { index: u32 },
    /// The commands of the frame were submitted.
    Submitted,
    /// The image was handed over for presentation.
    Presented,
    /// Acquiring or presenting found the surface out of date.
    OutOfDate,
    /// The surface was asked; this is what it reports now.
    SurfaceRefreshed {
        formats: Vec<SurfaceFormat>,
        capabilities: SurfaceCapabilities,
        present_modes: Vec<PresentMode>,
    },
    /// The step of rebuilding that was asked for is done.
    StepDone,
    /// A call on the GPU failed, with this code.
    Failed { code: i32 },
}

/// Why the loop gave up.
#[derive(Clone, Copy, Debug, PartialEq, Eq, Structural)]
pub enum Fault {
    /// A call on the GPU failed with an error other than "out of date".
    Device { code: i32 },
    /// The event reported does not answer the action that was handed out.
    Unexpected,
    /// The surface lists no format.
    NoSurfaceFormat,
}

/// What the caller is to do next.
#[derive(Clone, Copy, Debug, PartialEq, Eq, Structural)]
pub enum LoopAction {
    /// Read the signals and report them.
    Observe,
    /// Touch nothing on the GPU, pause, then read the signals and report them.
    Park,
    /// Ask the swapchain for its next image, waiting up to `timeout`
    /// nanoseconds; the swapchain signals `signal` when the image is ready.
    AcquireImage { timeout: u64, signal: SemaphoreRole },
    /// Record the frame's commands for this image and submit them.
    Draw { image: u32 },
    /// Hand this image over for presentation, which waits for `wait`.
    Present { image: u32, wait: SemaphoreRole },
    /// Make this step of rebuilding the swapchain.
    Recreate(GpuStep),
    /// The loop has ended; make no further call on the GPU.
    Halt,
    /// The loop has ended on an error that must be reported.
    Abort(Fault),
}

impl LoopAction {
    /// Whether the action makes a call on the GPU.
    pub open spec fn touches_gpu(self) -> bool {
        match self {
            LoopAction::AcquireImage { .. }
            | LoopAction::Draw { .. }
            | LoopAction::Present { .. }
            | LoopAction::Recreate(_) => true,
            LoopAction::Observe | LoopAction::Park | LoopAction::Halt | LoopAction::Abort(_) => false,
        }
    }

    /// Whether the action makes or releases a swapchain.
    pub open spec fn touches_swapchain(self) -> bool {
        self == LoopAction::Recreate(GpuStep::Create(ResourceKind::Swapchain)) || self
            == LoopAction::Recreate(GpuStep::Destroy(ResourceKind::Swapchain))
    }

    pub fn is_gpu_call(&self) -> (r: bool)
        ensures
            r == self.touches_gpu(),
    {
        match self {
            LoopAction::AcquireImage { .. }
            | LoopAction::Draw { .. }
            | LoopAction::Present { .. }
            | LoopAction::Recreate(_) => true,
            LoopAction::Observe | LoopAction::Park | LoopAction::Halt | LoopAction::Abort(_) => false,
        }
    }
}

impl Phase {
    /// The state of the loop that a phase belongs to.
    pub open spec fn state(self) -> LoopState {
        match self {
            Phase::Idle => LoopState::Idle,
            Phase::FrameStart
            | Phase::Acquiring
            | Phase::Drawing { .. }
            | Phase::Presenting { .. } => LoopState::Running,
            Phase::Recreating { .. } => LoopState::Recreating,
            Phase::Stopped => LoopState::Stopped,
        }
    }
}

/// The pipeline stage at which a frame's commands wait for the image.
pub const STAGE_BOTTOM_OF_PIPE: u32 = 0x2000;

/// The number of commands of a frame that come before those of the first mesh.
pub const FIXED_COMMANDS: usize = 5;

/// One command of a frame.
#[derive(Clone, Copy, Debug, PartialEq, Eq, Structural)]
pub enum DrawCommand {
    /// Begin the render pass on the framebuffer of the image, clearing colour and depth.
    BeginRenderPass { image: u32, render_area: Rect2D },
    BindDescriptorSets,
    BindPipeline,
    SetViewport(Viewport),
    SetScissor(Rect2D),
    /// Bind the vertex buffer of the registered mesh with this handle.
    BindVertexBuffer { mesh: usize },
    /// Bind the index buffer of the registered mesh with this handle.
    BindIndexBuffer { mesh: usize },
    /// Draw this many indices of the buffers that are bound, once.
    DrawIndexed { index_count: usize },
    EndRenderPass,
}

/// What it takes to draw one frame.
#[derive(Clone, Debug, PartialEq, Eq)]
pub struct FramePlan {
    /// The commands to record, in their order.
    pub commands: Vec<DrawCommand>,
    /// The semaphore that the submission waits for: the image is acquired.
    pub wait: SemaphoreRole,
    /// The stage at which it waits.
    pub wait_stage: u32,
    /// The semaphore that the submission signals: rendering is complete.
    pub signal: SemaphoreRole,
}

/// The command at place `at` of a frame that draws `meshes` to image
/// `image`: the render pass is begun, descriptor sets and pipeline are
/// bound, viewport and scissor are set; then, for each mesh in its turn,
/// its vertex buffer and its index buffer are bound and its indices are
/// drawn; then the render pass is ended.
pub open spec fn frame_command_at(
    meshes: Seq<RegisteredMesh>,
    image: u32,
    render_area: Rect2D,
    viewport: Viewport,
    scissor: Rect2D,
    at: int,
) -> DrawCommand {
    if at <= 0 {
        DrawCommand::BeginRenderPass { image, render_area }
    } else if at == 1 {
        DrawCommand::BindDescriptorSets
    } else if at == 2 {
        DrawCommand::BindPipeline
    } else if at == 3 {
        DrawCommand::SetViewport(viewport)
    } else if at == 4 {
        DrawCommand::SetScissor(scissor)
    } else if at < FIXED_COMMANDS + 3 * meshes.len() {
        let mesh = (at - FIXED_COMMANDS) / 3;
        if (at - FIXED_COMMANDS) % 3 == 0 {
            DrawCommand::BindVertexBuffer { mesh: mesh as usize }
        } else if (at - FIXED_COMMANDS) % 3 == 1 {
            DrawCommand::BindIndexBuffer { mesh: mesh as usize }
        } else {
            DrawCommand::DrawIndexed { index_count: meshes[mesh].mesh.indices@.len() as usize }
        }
    } else {
        DrawCommand::EndRenderPass
    }
}

/// The request for the next image: the wait has no limit, and the
/// swapchain signals the semaphore that the frame's commands wait for.
pub open spec fn acquire() -> LoopAction {
    LoopAction::AcquireImage { timeout: WAIT_FOREVER, signal: SemaphoreRole::PresentComplete }
}

/// The render loop of one window.
pub struct AAAGraphics {
    pub surface: AAASurface,
    pub resources: AAAResources,
    pub phase: Phase,
    /// The window's width for which the swapchain was last built.
    pub width: u32,
    /// The window's height for which the swapchain was last built.
    pub height: u32,
}

impl AAAGraphics {
    /// Whether the loop is in a state that it can reach: while it draws a
    /// frame the objects of a swapchain generation exist, and while it
    /// rebuilds them they count as gone and the step under way is one of
    /// the steps of rebuilding.
    pub open spec fn wf(self) -> bool {
        match self.phase {
            Phase::FrameStart
            | Phase::Acquiring
            | Phase::Drawing { .. }
            | Phase::Presenting { .. } => self.resources.generation_live,
            Phase::Recreating { step, .. } => step < RECREATION_STEPS
                && !self.resources.generation_live,
            Phase::Idle | Phase::Stopped => true,
        }
    }

    /// The loop, ended, with `action` as its last word.
    pub open spec fn stopped(self, action: LoopAction) -> (AAAGraphics, LoopAction) {
        (AAAGraphics { phase: Phase::Stopped, ..self }, action)
    }

    /// The loop as it sets out to rebuild the swapchain for a window of
    /// `width` by `height`. Where no generation exists there is nothing to
    /// wait for and nothing to release: rebuilding starts with the surface.
    pub open spec fn recreating(self, width: u32, height: u32) -> (AAAGraphics, LoopAction) {
        let first = if self.resources.generation_live {
            0usize
        } else {
            REFRESH_STEP
        };
        (
            AAAGraphics {
                phase: Phase::Recreating { step: first, width, height },
                resources: AAAResources { generation_live: false, ..self.resources },
                ..self
            },
            LoopAction::Recreate(recreation_plan()[first as int]),
        )
    }

    /// What the loop does with the signals, read between two frames or
    /// while it is minimized.
    pub open spec fn observed(self, seen: Observation) -> (AAAGraphics, LoopAction) {
        if seen.exiting {
            self.stopped(LoopAction::Halt)
        } else if seen.idle() {
            (AAAGraphics { phase: Phase::Idle, ..self }, LoopAction::Park)
        } else if self.phase == Phase::Idle || !self.resources.generation_live || seen.width
            != self.width || seen.height != self.height {
            self.recreating(seen.width, seen.height)
        } else {
            (AAAGraphics { phase: Phase::Acquiring, ..self }, acquire())
        }
    }

    /// What the loop does with the surface's answer while it rebuilds the
    /// swapchain for a window of `width` by `height`.
    pub open spec fn refreshed(
        self,
        width: u32,
        height: u32,
        formats: Seq<SurfaceFormat>,
        capabilities: SurfaceCapabilities,
        present_modes: Seq<PresentMode>,
    ) -> (AAAGraphics, LoopAction) {
        if formats.len() == 0 {
            self.stopped(LoopAction::Abort(Fault::NoSurfaceFormat))
        } else {
            let surface = AAASurface { format: formats[0], capabilities, ..self.surface };
            let resized = AAAResources {
                viewports: [full_viewport(width, height)],
                scissors: [full_scissor(width, height)],
                ..self.resources
            };
            if resolved_extent(capabilities.current_extent, width, height).is_empty() {
                (AAAGraphics { surface, resources: resized, phase: Phase::Idle, ..self }, LoopAction::Park)
            } else {
                (
                    AAAGraphics {
                        surface,
                        resources: AAAResources {
                            swapchain: AAASwapchain::planned(capabilities, present_modes, width, height),
                            ..resized
                        },
                        phase: Phase::Recreating { step: (REFRESH_STEP + 1) as usize, width, height },
                        ..self
                    },
                    LoopAction::Recreate(recreation_plan()[REFRESH_STEP + 1]),
                )
            }
        }
    }

    /// What the loop does when step `step` of rebuilding, other than the
    /// one that asks the surface, is done.
    pub open spec fn step_done(self, step: usize, width: u32, height: u32) -> (AAAGraphics, LoopAction) {
        if step + 1 < RECREATION_STEPS {
            (
                AAAGraphics {
                    phase: Phase::Recreating { step: (step + 1) as usize, width, height },
                    ..self
                },
                LoopAction::Recreate(recreation_plan()[step + 1]),
            )
        } else if step + 1 == RECREATION_STEPS {
            (
                AAAGraphics {
                    phase: Phase::FrameStart,
                    resources: AAAResources { generation_live: true, ..self.resources },
                    width,
                    height,
                    ..self
                },
                LoopAction::Observe,
            )
        } else {
            self.stopped(LoopAction::Abort(Fault::Unexpected))
        }
    }

    /// The loop after an event, and the action it hands out.
    pub open spec fn next(self, event: LoopEvent) -> (AAAGraphics, LoopAction) {
        match self.phase {
            Phase::Stopped => (self, LoopAction::Halt),
            _ => match event {
                LoopEvent::Failed { code } => self.stopped(LoopAction::Abort(Fault::Device { code })),
                _ => match self.phase {
                    Phase::Idle | Phase::FrameStart => match event {
                        LoopEvent::Observed(seen) => self.observed(seen),
                        _ => self.stopped(LoopAction::Abort(Fault::Unexpected)),
                    },
                    Phase::Acquiring => match event {
                        LoopEvent::Acquired { index } => (
                            AAAGraphics { phase: Phase::Drawing { image: index }, ..self },
                            LoopAction::Draw { image: index },
                        ),
                        LoopEvent::OutOfDate => self.recreating(self.width, self.height),
                        _ => self.stopped(LoopAction::Abort(Fault::Unexpected)),
                    },
                    Phase::Drawing { image } => match event {
                        LoopEvent::Submitted => (
                            AAAGraphics { phase: Phase::Presenting { image }, ..self },
                            LoopAction::Present { image, wait: SemaphoreRole::RenderingComplete },
                        ),
                        _ => self.stopped(LoopAction::Abort(Fault::Unexpected)),
                    },
                    Phase::Presenting { image } => match event {
                        LoopEvent::Presented => (
                            AAAGraphics { phase: Phase::FrameStart, ..self },
                            LoopAction::Observe,
                        ),
                        LoopEvent::OutOfDate => self.recreating(self.width, self.height),
                        _ => self.stopped(LoopAction::Abort(Fault::Unexpected)),
                    },
                    Phase::Recreating { step, width, height } => if step == REFRESH_STEP {
                        match event {
                            LoopEvent::SurfaceRefreshed { formats, capabilities, present_modes } =>
                                self.refreshed(width, height, formats@, capabilities, present_modes@),
                            _ => self.stopped(LoopAction::Abort(Fault::Unexpected)),
                        }
                    } else {
                        match event {
                            LoopEvent::StepDone => self.step_done(step, width, height),
                            _ => self.stopped(LoopAction::Abort(Fault::Unexpected)),
                        }
                    },
                    Phase::Stopped => (self, LoopAction::Halt),
                },
            },
        }
    }

    /// The loop of a window of `width` by `height` on `surface`, about to
    /// read the signals for its first frame.
    pub fn new(surface: AAASurface, present_modes: &Vec<PresentMode>, width: u32, height: u32) -> (r:
        Result<AAAGraphics, SwapchainError>)
        ensures
            match r {
                Ok(graphics) => {
                    &&& !resolved_extent(surface.capabilities.current_extent, width, height).is_empty()
                    &&& graphics.wf()
                    &&& graphics.surface == surface
                    &&& graphics.phase == Phase::FrameStart
                    &&& graphics.width == width
                    &&& graphics.height == height
                    &&& graphics.resources.generation_live
                    &&& graphics.resources.swapchain == AAASwapchain::planned(
                        surface.capabilities,
                        present_modes@,
                        width,
                        height,
                    )
                    &&& graphics.resources.viewports == [
                        full_viewport(
                            surface.capabilities.current_extent.width,
                            surface.capabilities.current_extent.height,
                        ),
                    ]
                    &&& graphics.resources.scissors == [
                        full_scissor(
                            surface.capabilities.current_extent.width,
                            surface.capabilities.current_extent.height,
                        ),
                    ]
                    &&& graphics.resources.registered_meshes@.len() == 0
                },
                Err(e) => e == SwapchainError::ZeroExtent && resolved_extent(
                    surface.capabilities.current_extent,
                    width,
                    height,
                ).is_empty(),
            },
    {
        match AAAResources::new(&surface, present_modes, width, height) {
            Ok(resources) => Ok(
                AAAGraphics { surface, resources, phase: Phase::FrameStart, width, height },
            ),
            Err(e) => Err(e),
        }
    }

    /// The commands of a frame that draws to image `image`.
    pub open spec fn frame_commands(self, image: u32) -> Seq<DrawCommand> {
        Seq::new(
            (FIXED_COMMANDS + 3 * self.resources.registered_meshes@.len() + 1) as nat,
            |at: int|
                frame_command_at(
                    self.resources.registered_meshes@,
                    image,
                    full_scissor(
                        self.surface.capabilities.current_extent.width,
                        self.surface.capabilities.current_extent.height,
                    ),
                    self.resources.viewports[0],
                    self.resources.scissors[0],
                    at,
                ),
        )
    }

    /// What it takes to draw the frame on image `image`: the commands to
    /// record, one indexed draw for each registered mesh among them; the
    /// submission waits until the image is acquired and signals that
    /// rendering is complete.
    pub fn frame_plan(&self, image: u32) -> (r: FramePlan)
        ensures
            r.commands@ == self.frame_commands(image),
            r.wait == SemaphoreRole::PresentComplete,
            r.wait_stage == STAGE_BOTTOM_OF_PIPE,
            r.signal == SemaphoreRole::RenderingComplete,
    {
        let extent = self.surface.capabilities.current_extent;
        let render_area = Rect2D { x: 0, y: 0, width: extent.width, height: extent.height };
        let viewport = self.resources.viewports[0];
        let scissor = self.resources.scissors[0];
        let mut commands: Vec<DrawCommand> = Vec::new();
        commands.push(DrawCommand::BeginRenderPass { image, render_area });
        commands.push(DrawCommand::BindDescriptorSets);
        commands.push(DrawCommand::BindPipeline);
        commands.push(DrawCommand::SetViewport(viewport));
        commands.push(DrawCommand::SetScissor(scissor));
        let mut mesh: usize = 0;
        while mesh < self.resources.registered_meshes.len()
            invariant
                mesh <= self.resources.registered_meshes@.len(),
                commands@.len() == FIXED_COMMANDS + 3 * mesh,
                render_area == full_scissor(
                    self.surface.capabilities.current_extent.width,
                    self.surface.capabilities.current_extent.height,
                ),
                viewport == self.resources.viewports[0],
                scissor == self.resources.scissors[0],
                forall|at: int|
                    0 <= at < commands@.len() ==> #[trigger] commands@[at] == frame_command_at(
                        self.resources.registered_meshes@,
                        image,
                        render_area,
                        viewport,
                        scissor,
                        at,
                    ),
            decreases self.resources.registered_meshes@.len() - mesh,
        {
            let index_count = self.resources.registered_meshes[mesh].mesh.indices.len();
            commands.push(DrawCommand::BindVertexBuffer { mesh });
            commands.push(DrawCommand::BindIndexBuffer { mesh });
            commands.push(DrawCommand::DrawIndexed { index_count });
            mesh += 1;
        }
        commands.push(DrawCommand::EndRenderPass);
        proof {
            assert(commands@ =~= self.frame_commands(image));
        }
        FramePlan {
            commands,
            wait: SemaphoreRole::PresentComplete,
            wait_stage: STAGE_BOTTOM_OF_PIPE,
            signal: SemaphoreRole::RenderingComplete,
        }
    }

    /// The state of the loop.
    pub fn state(&self) -> (r: LoopState)
        ensures
            r == self.phase.state(),
    {
        match self.phase {
            Phase::Idle => LoopState::Idle,
            Phase::FrameStart
            | Phase::Acquiring
            | Phase::Drawing { .. }
            | Phase::Presenting { .. } => LoopState::Running,
            Phase::Recreating { .. } => LoopState::Recreating,
            Phase::Stopped => LoopState::Stopped,
        }
    }

    /// The steps that release the objects of the current swapchain
    /// generation: the wait for the device, then each object, in the
    /// reverse of the order in which they were made.
    pub fn destroy_swapchain(&self) -> (r: Vec<GpuStep>)
        ensures
            r@ == recreation_plan().subrange(0, REFRESH_STEP as int),
        recreation_plan().subrange(0, REFRESH_STEP as int) == seq![
            GpuStep::WaitDeviceIdle,
            GpuStep::Destroy(ResourceKind::Framebuffers),
            GpuStep::Destroy(ResourceKind::DepthView),
            GpuStep::Destroy(ResourceKind::DepthMemory),
            GpuStep::Destroy(ResourceKind::DepthImage),
            GpuStep::Destroy(ResourceKind::PresentImageViews),
            GpuStep::Destroy(ResourceKind::Swapchain),
        ],
    {
        let mut r: Vec<GpuStep> = Vec::new();
        r.push(GpuStep::WaitDeviceIdle);
        r.push(GpuStep::Destroy(ResourceKind::Framebuffers));
        r.push(GpuStep::Destroy(ResourceKind::DepthView));
        r.push(GpuStep::Destroy(ResourceKind::DepthMemory));
        r.push(GpuStep::Destroy(ResourceKind::DepthImage));
        r.push(GpuStep::Destroy(ResourceKind::PresentImageViews));
        r.push(GpuStep::Destroy(ResourceKind::Swapchain));
        assert(r@ =~= recreation_plan().subrange(0, REFRESH_STEP as int));
        assert(r@ =~= seq![
            GpuStep::WaitDeviceIdle,
            GpuStep::Destroy(ResourceKind::Framebuffers),
            GpuStep::Destroy(ResourceKind::DepthView),
            GpuStep::Destroy(ResourceKind::DepthMemory),
            GpuStep::Destroy(ResourceKind::DepthImage),
            GpuStep::Destroy(ResourceKind::PresentImageViews),
            GpuStep::Destroy(ResourceKind::Swapchain),
        ]);
        r
    }

    fn stop(&mut self, action: LoopAction) -> (r: LoopAction)
        ensures
            (*final(self), r) == old(self).stopped(action),
    {
        self.phase = Phase::Stopped;
        action
    }

    /// Sets out to rebuild the swapchain for a window of `width` by
    /// `height`, and hands out the first step.
    pub fn recreate_swapchain(&mut self, width: u32, height: u32) -> (r: LoopAction)
        ensures
            (*final(self), r) == old(self).recreating(width, height),
    {
        if self.resources.generation_live {
            self.resources.generation_live = false;
            self.phase = Phase::Recreating { step: 0, width, height };
            LoopAction::Recreate(GpuStep::WaitDeviceIdle)
        } else {
            self.phase = Phase::Recreating { step: REFRESH_STEP, width, height };
            LoopAction::Recreate(GpuStep::RefreshSurface)
        }
    }

    fn on_observed(&mut self, seen: Observation) -> (r: LoopAction)
        ensures
            (*final(self), r) == old(self).observed(seen),
    {
        if seen.exiting {
            self.stop(LoopAction::Halt)
        } else if seen.is_idle() {
            self.phase = Phase::Idle;
            LoopAction::Park
        } else {
            let was_idle = match self.phase {
                Phase::Idle => true,
                _ => false,
            };
            if was_idle || !self.resources.generation_live || seen.width != self.width || seen.height
                != self.height {
                self.recreate_swapchain(seen.width, seen.height)
            } else {
                self.phase = Phase::Acquiring;
                LoopAction::AcquireImage {
                    timeout: WAIT_FOREVER,
                    signal: SemaphoreRole::PresentComplete,
                }
            }
        }
    }

    fn on_refreshed(
        &mut self,
        width: u32,
        height: u32,
        formats: Vec<SurfaceFormat>,
        capabilities: SurfaceCapabilities,
        present_modes: Vec<PresentMode>,
    ) -> (r: LoopAction)
        ensures
            (*final(self), r) == old(self).refreshed(
                width,
                height,
                formats@,
                capabilities,
                present_modes@,
            ),
    {
        match self.surface.recreate(&formats, capabilities) {
            Err(_) => self.stop(LoopAction::Abort(Fault::NoSurfaceFormat)),
            Ok(()) => {
                self.resources.recreate_viewports(width, height);
                self.resources.recreate_scissors(width, height);
                match AAASwapchain::new(&self.surface, &present_modes, width, height) {
                    Err(_) => {
                        self.phase = Phase::Idle;
                        LoopAction::Park
                    },
                    Ok(swapchain) => {
                        self.resources.swapchain = swapchain;
                        self.phase = Phase::Recreating { step: REFRESH_STEP + 1, width, height };
                        LoopAction::Recreate(GpuStep::Create(ResourceKind::Swapchain))
                    },
                }
            },
        }
    }

    fn on_step_done(&mut self, step: usize, width: u32, height: u32) -> (r: LoopAction)
        ensures
            (*final(self), r) == old(self).step_done(step, width, height),
    {
        if step >= RECREATION_STEPS {
            return self.stop(LoopAction::Abort(Fault::Unexpected));
        }
        match recreation_step(step + 1) {
            Some(following) => {
                self.phase = Phase::Recreating { step: step + 1, width, height };
                LoopAction::Recreate(following)
            },
            None => {
                self.phase = Phase::FrameStart;
                self.resources.generation_live = true;
                self.width = width;
                self.height = height;
                LoopAction::Observe
            },
        }
    }

    /// Takes the event that answers the last action and hands out the next
    /// action. The first event of a new loop is an `Observed`.
    pub fn cycle(&mut self, event: LoopEvent) -> (r: LoopAction)
        ensures
            (*final(self), r) == old(self).next(event),
            old(self).wf() ==> final(self).wf(),
    {
        proof {
            if self.wf() {
                lemma_next_keeps_wf(*self, event);
            }
        }
        match self.phase {
            Phase::Stopped => {
                return LoopAction::Halt;
            },
            _ => {},
        }
        match event {
            LoopEvent::Failed { code } => {
                return self.stop(LoopAction::Abort(Fault::Device { code }));
            },
            _ => {},
        }
        match self.phase {
            Phase::Idle | Phase::FrameStart => match event {
                LoopEvent::Observed(seen) => self.on_observed(seen),
                _ => self.stop(LoopAction::Abort(Fault::Unexpected)),
            },
            Phase::Acquiring => match event {
                LoopEvent::Acquired { index } => {
                    self.phase = Phase::Drawing { image: index };
                    LoopAction::Draw { image: index }
                },
                LoopEvent::OutOfDate => {
                    let width = self.width;
                    let height = self.height;
                    self.recreate_swapchain(width, height)
                },
                _ => self.stop(LoopAction::Abort(Fault::Unexpected)),
            },
            Phase::Drawing { image } => match event {
                LoopEvent::Submitted => {
                    self.phase = Phase::Presenting { image };
                    LoopAction::Present { image, wait: SemaphoreRole::RenderingComplete }
                },
                _ => self.stop(LoopAction::Abort(Fault::Unexpected)),
            },
            Phase::Presenting { image } => match event {
                LoopEvent::Presented => {
                    self.phase = Phase::FrameStart;
                    LoopAction::Observe
                },
                LoopEvent::OutOfDate => {
                    let width = self.width;
                    let height = self.height;
                    self.recreate_swapchain(width, height)
                },
                _ => self.stop(LoopAction::Abort(Fault::Unexpected)),
            },
            Phase::Recreating { step, width, height } => {
                if step == REFRESH_STEP {
                    match event {
                        LoopEvent::SurfaceRefreshed { formats, capabilities, present_modes } =>
                            self.on_refreshed(width, height, formats, capabilities, present_modes),
                        _ => self.stop(LoopAction::Abort(Fault::Unexpected)),
                    }
                } else {
                    match event {
                        LoopEvent::StepDone => self.on_step_done(step, width, height),
                        _ => self.stop(LoopAction::Abort(Fault::Unexpected)),
                    }
                }
            },
            Phase::Stopped => LoopAction::Halt,
        }
    }
}

impl AAAGraphics {
    /// The loop after a sequence of events, and the actions it handed out,
    /// one for each event.
    pub open spec fn run(self, events: Seq<LoopEvent>) -> (AAAGraphics, Seq<LoopAction>)
        decreases events.len(),
    {
        if events.len() == 0 {
            (self, Seq::empty())
        } else {
            let (before, actions) = self.run(events.drop_last());
            let (after, action) = before.next(events.last());
            (after, actions.push(action))
        }
    }
}

/// An event at the end of a sequence is taken by the loop as the earlier
/// events left it.
pub proof fn lemma_run_push(graphics: AAAGraphics, events: Seq<LoopEvent>, event: LoopEvent)
    ensures
        graphics.run(events.push(event)) == (
            graphics.run(events).0.next(event).0,
            graphics.run(events).1.push(graphics.run(events).0.next(event).1),
        ),
        graphics.run(events).1.len() == events.len(),
    decreases events.len(),
{
    assert(events.push(event).drop_last() =~= events);
    assert(events.push(event).last() == event);
    if events.len() > 0 {
        lemma_run_push(graphics, events.drop_last(), events.last());
        assert(events.drop_last().push(events.last()) =~= events);
    }
}

/// Whatever is reported, a loop in a state that it can reach goes on to
/// such a state. So the loop asks for an image, draws or presents only
/// while the objects of a swapchain generation exist.
pub proof fn lemma_next_keeps_wf(graphics: AAAGraphics, event: LoopEvent)
    requires
        graphics.wf(),
    ensures
        graphics.next(event).0.wf(),
        graphics.next(event).1 is AcquireImage || graphics.next(event).1 is Draw || graphics.next(
            event,
        ).1 is Present ==> graphics.resources.generation_live && graphics.next(
            event,
        ).0.resources.generation_live,
{
}

/// While the swapchain is rebuilt, the loop hands out the steps in their
/// order and leaves none out: the action that leads into step `step` is
/// that step, and an event that leaves the loop rebuilding leads into the
/// step that follows.
pub proof fn lemma_recreation_follows_plan(graphics: AAAGraphics, event: LoopEvent)
    requires
        graphics.wf(),
    ensures
        graphics.next(event).0.phase matches Phase::Recreating { step, .. } ==> {
            &&& step < RECREATION_STEPS
            &&& graphics.next(event).1 == LoopAction::Recreate(recreation_plan()[step as int])
            &&& graphics.phase matches Phase::Recreating { step: before, .. } ==> step == before + 1
            &&& !(graphics.phase is Recreating) ==> step == 0 || step == REFRESH_STEP
        },
        !(graphics.next(event).0.phase is Recreating) ==> !(graphics.next(event).1 is Recreate),
{
}

/// The loop never asks for a swapchain without area: when it hands out the
/// step that makes the swapchain, the swapchain it has planned has one.
pub proof fn lemma_no_swapchain_without_area(graphics: AAAGraphics, event: LoopEvent)
    requires
        graphics.next(event).1 == LoopAction::Recreate(GpuStep::Create(ResourceKind::Swapchain)),
        graphics.wf(),
    ensures
        !graphics.next(event).0.resources.swapchain.extent.is_empty(),
{
    match graphics.phase {
        Phase::Recreating { step, width, height } => {
            if step != REFRESH_STEP {
                assert(recreation_plan()[step + 1] != GpuStep::Create(ResourceKind::Swapchain));
            }
        },
        _ => {},
    }
}

/// Once the loop has stopped it stays stopped, whatever is reported, and
/// hands out nothing but `Halt`: no call on the GPU follows.
pub proof fn lemma_stopped_is_final(graphics: AAAGraphics, events: Seq<LoopEvent>)
    requires
        graphics.phase == Phase::Stopped,
    ensures
        graphics.run(events).0 == graphics,
        graphics.run(events).1.len() == events.len(),
        forall|i: int|
            0 <= i < events.len() ==> #[trigger] graphics.run(events).1[i] == LoopAction::Halt,
        forall|i: int| 0 <= i < events.len() ==> !(#[trigger] graphics.run(events).1[i]).touches_gpu(),
    decreases events.len(),
{
    if events.len() > 0 {
        lemma_stopped_is_final(graphics, events.drop_last());
    }
}

/// The exit flag, seen between two frames or while minimized, stops the
/// loop at once, without another call on the GPU. In the middle of a frame
/// the signals are not looked at: a frame that was begun is submitted and
/// presented first.
pub proof fn lemma_exit_stops(graphics: AAAGraphics, seen: Observation)
    requires
        graphics.phase == Phase::FrameStart || graphics.phase == Phase::Idle,
        seen.exiting,
    ensures
        graphics.next(LoopEvent::Observed(seen)).0.phase == Phase::Stopped,
        graphics.next(LoopEvent::Observed(seen)).1 == LoopAction::Halt,
{
}

/// The events that report `sizes`, one after the other, with no exit flag
/// and no minimized flag beyond what the size says.
pub open spec fn resizes(sizes: Seq<(u32, u32)>) -> Seq<LoopEvent> {
    sizes.map_values(
        |size: (u32, u32)|
            LoopEvent::Observed(
                Observation { exiting: false, minimized: false, width: size.0, height: size.1 },
            ),
    )
}

/// Resizes to a width or a height of zero, however many, leave the
/// swapchain alone: the loop idles, hands out nothing but `Park`, and its
/// surface and resources stay as they were.
pub proof fn lemma_zero_size_touches_nothing(graphics: AAAGraphics, sizes: Seq<(u32, u32)>)
    requires
        graphics.phase == Phase::FrameStart || graphics.phase == Phase::Idle,
        forall|i: int| 0 <= i < sizes.len() ==> (#[trigger] sizes[i]).0 == 0 || sizes[i].1 == 0,
    ensures
        graphics.run(resizes(sizes)).0.resources == graphics.resources,
        graphics.run(resizes(sizes)).0.surface == graphics.surface,
        graphics.run(resizes(sizes)).0.width == graphics.width,
        graphics.run(resizes(sizes)).0.height == graphics.height,
        sizes.len() > 0 ==> graphics.run(resizes(sizes)).0.phase == Phase::Idle,
        graphics.run(resizes(sizes)).1.len() == sizes.len(),
        forall|i: int|
            0 <= i < sizes.len() ==> #[trigger] graphics.run(resizes(sizes)).1[i] == LoopAction::Park,
        forall|i: int|
            0 <= i < sizes.len() ==> !(#[trigger] graphics.run(resizes(sizes)).1[i]).touches_swapchain(),
    decreases sizes.len(),
{
    if sizes.len() > 0 {
        let earlier = sizes.drop_last();
        lemma_zero_size_touches_nothing(graphics, earlier);
        assert(resizes(sizes).drop_last() =~= resizes(earlier));
        let last = sizes.last();
        assert(resizes(sizes).last() == LoopEvent::Observed(
            Observation { exiting: false, minimized: false, width: last.0, height: last.1 },
        ));
    }
}

/// Events taken one sequence after another have the effect of the two
/// sequences in turn.
pub proof fn lemma_run_concat(graphics: AAAGraphics, first: Seq<LoopEvent>, second: Seq<LoopEvent>)
    ensures
        graphics.run(first + second) == (
            graphics.run(first).0.run(second).0,
            graphics.run(first).1 + graphics.run(first).0.run(second).1,
        ),
    decreases second.len(),
{
    if second.len() == 0 {
        assert(first + second =~= first);
        assert(graphics.run(first).1 + Seq::<LoopAction>::empty() =~= graphics.run(first).1);
    } else {
        lemma_run_concat(graphics, first, second.drop_last());
        assert((first + second).drop_last() =~= first + second.drop_last());
        assert((first + second).last() == second.last());
        let middle = graphics.run(first).0;
        let (before, actions) = middle.run(second.drop_last());
        let (after, action) = before.next(second.last());
        assert(graphics.run(first).1 + actions.push(action) =~= (graphics.run(first).1
            + actions).push(action));
    }
}

/// A single event is taken by the loop as it stands.
pub proof fn lemma_run_one(graphics: AAAGraphics, event: LoopEvent)
    ensures
        graphics.run(seq![event]) == (graphics.next(event).0, seq![graphics.next(event).1]),
{
    lemma_run_push(graphics, Seq::empty(), event);
    assert(Seq::<LoopEvent>::empty().push(event) =~= seq![event]);
    assert(graphics.run(Seq::empty()).1 =~= Seq::<LoopAction>::empty());
    assert(Seq::<LoopAction>::empty().push(graphics.next(event).1) =~= seq![graphics.next(event).1]);
}

/// `count` reports that a step is done.
pub open spec fn steps_done(count: nat) -> Seq<LoopEvent> {
    Seq::new(count, |i: int| LoopEvent::StepDone)
}

/// While the steps that are reported done are neither the one that asks the
/// surface nor the last, the loop hands out the next step for each.
proof fn lemma_steps_done(graphics: AAAGraphics, step: usize, width: u32, height: u32, count: nat)
    requires
        graphics.phase == (Phase::Recreating { step, width, height }),
        step + count < RECREATION_STEPS,
        step + count <= REFRESH_STEP || REFRESH_STEP < step,
    ensures
        graphics.run(steps_done(count)).0 == (AAAGraphics {
            phase: Phase::Recreating { step: (step + count) as usize, width, height },
            ..graphics
        }),
        graphics.run(steps_done(count)).1 == Seq::new(
            count,
            |i: int| LoopAction::Recreate(recreation_step_at(step + 1 + i)),
        ),
    decreases count,
{
    let expected = Seq::new(count, |i: int| LoopAction::Recreate(recreation_step_at(step + 1 + i)));
    if count == 0 {
        assert(graphics.run(steps_done(count)).1 =~= expected);
    } else {
        let fewer = (count - 1) as nat;
        lemma_steps_done(graphics, step, width, height, fewer);
        assert(steps_done(count).drop_last() =~= steps_done(fewer));
        assert(steps_done(count).last() == LoopEvent::StepDone);
        let before = graphics.run(steps_done(fewer)).0;
        assert(before.phase == (Phase::Recreating { step: (step + fewer) as usize, width, height }));
        assert(recreation_plan()[step + fewer + 1] == recreation_step_at(step + fewer + 1));
        assert(graphics.run(steps_done(count)).1 =~= expected);
    }
}

/// What the surface reports when it is asked.
pub open spec fn surface_refreshed(
    formats: Vec<SurfaceFormat>,
    capabilities: SurfaceCapabilities,
    present_modes: Vec<PresentMode>,
) -> LoopEvent {
    LoopEvent::SurfaceRefreshed { formats, capabilities, present_modes }
}

/// The events of a resize that is seen and of the rebuilding that follows
/// it, where every step goes well. With a generation alive, seven steps
/// are reported done before the surface answers; seven more follow it.
pub open spec fn resize_events(generation_live: bool, seen: Observation, refreshed: LoopEvent) -> Seq<
    LoopEvent,
> {
    seq![LoopEvent::Observed(seen)] + steps_done(
        if generation_live {
            REFRESH_STEP as nat
        } else {
            0
        },
    ) + seq![refreshed] + steps_done((RECREATION_STEPS - REFRESH_STEP - 1) as nat)
}

/// The actions of one rebuilding: its steps from `first` on, in their
/// order, and then the look at the signals that opens the next frame.
pub open spec fn rebuilding_actions(first: int) -> Seq<LoopAction> {
    Seq::new(
        (RECREATION_STEPS - first + 1) as nat,
        |i: int|
            if first + i < RECREATION_STEPS {
                LoopAction::Recreate(recreation_step_at(first + i))
            } else {
                LoopAction::Observe
            },
    )
}

/// A resize to a size with an area, seen while the loop is minimized, or
/// seen between two frames and other than the size the swapchain was built
/// for, makes the loop rebuild the swapchain once: it hands out the steps
/// of rebuilding in their order, among them exactly one that makes a
/// swapchain, and then opens the next frame with viewport and scissor on
/// the new size. Where no generation was alive, nothing is released.
pub proof fn lemma_resize_builds_one_swapchain(
    graphics: AAAGraphics,
    seen: Observation,
    formats: Vec<SurfaceFormat>,
    capabilities: SurfaceCapabilities,
    present_modes: Vec<PresentMode>,
)
    requires
        graphics.phase == Phase::Idle || (graphics.phase == Phase::FrameStart && (seen.width
            != graphics.width || seen.height != graphics.height)),
        !seen.exiting,
        !seen.idle(),
        formats@.len() > 0,
        !resolved_extent(capabilities.current_extent, seen.width, seen.height).is_empty(),
    ensures
        ({
            let live = graphics.resources.generation_live;
            let events = resize_events(live, seen, surface_refreshed(formats, capabilities, present_modes));
            let (after, actions) = graphics.run(events);
            let first: int = if live {
                0
            } else {
                REFRESH_STEP as int
            };
            &&& actions == rebuilding_actions(first)
            &&& forall|i: int|
                0 <= i < actions.len() ==> (#[trigger] actions[i] == LoopAction::Recreate(
                    GpuStep::Create(ResourceKind::Swapchain),
                ) <==> i == 8 - first)
            &&& forall|i: int|
                0 <= i < actions.len() ==> (#[trigger] actions[i] == LoopAction::Recreate(
                    GpuStep::Destroy(ResourceKind::Swapchain),
                ) <==> live && i == 6)
            &&& after.phase == Phase::FrameStart
            &&& after.width == seen.width
            &&& after.height == seen.height
            &&& after.resources.generation_live
            &&& after.resources.viewports == [full_viewport(seen.width, seen.height)]
            &&& after.resources.scissors == [full_scissor(seen.width, seen.height)]
            &&& after.resources.swapchain == AAASwapchain::planned(
                capabilities,
                present_modes@,
                seen.width,
                seen.height,
            )
            &&& after.resources.registered_meshes == graphics.resources.registered_meshes
            &&& after.surface == (AAASurface { format: formats@[0], capabilities, ..graphics.surface })
        }),
{
    let live = graphics.resources.generation_live;
    let refreshed = surface_refreshed(formats, capabilities, present_modes);
    let first: int = if live {
        0
    } else {
        REFRESH_STEP as int
    };
    let width = seen.width;
    let height = seen.height;
    // The observation starts the rebuilding.
    let e0 = seq![LoopEvent::Observed(seen)];
    lemma_run_one(graphics, LoopEvent::Observed(seen));
    let (g0, a0) = graphics.run(e0);
    assert(recreation_plan()[first] == recreation_step_at(first));
    assert(g0.phase == (Phase::Recreating { step: first as usize, width, height }));
    assert(a0 =~= seq![LoopAction::Recreate(recreation_step_at(first))]);
    // The steps before the surface is asked.
    let before_count: nat = if live {
        REFRESH_STEP as nat
    } else {
        0
    };
    let e1 = steps_done(before_count);
    lemma_steps_done(g0, first as usize, width, height, before_count);
    let (g1, a1) = g0.run(e1);
    assert(g1.phase == (Phase::Recreating { step: REFRESH_STEP, width, height }));
    // The surface answers.
    let e2 = seq![refreshed];
    lemma_run_one(g1, refreshed);
    let (g2, a2) = g1.run(e2);
    assert(recreation_plan()[REFRESH_STEP + 1] == recreation_step_at(REFRESH_STEP + 1));
    assert(g2.phase == (Phase::Recreating { step: (REFRESH_STEP + 1) as usize, width, height }));
    assert(a2 =~= seq![LoopAction::Recreate(recreation_step_at(REFRESH_STEP + 1))]);
    // The steps after it, but for the last.
    let e3 = steps_done(6);
    lemma_steps_done(g2, (REFRESH_STEP + 1) as usize, width, height, 6);
    let (g3, a3) = g2.run(e3);
    assert(g3.phase == (Phase::Recreating { step: 14, width, height }));
    // The last step opens the next frame.
    let e4 = seq![LoopEvent::StepDone];
    lemma_run_one(g3, LoopEvent::StepDone);
    let (g4, a4) = g3.run(e4);
    assert(g4.phase == Phase::FrameStart);
    assert(a4 =~= seq![LoopAction::Observe]);
    // Put together.
    let events = resize_events(live, seen, refreshed);
    assert(steps_done(7) =~= e3 + e4);
    assert(events =~= e0 + e1 + e2 + e3 + e4);
    lemma_run_concat(graphics, e0, e1);
    lemma_run_concat(graphics, e0 + e1, e2);
    lemma_run_concat(graphics, e0 + e1 + e2, e3);
    lemma_run_concat(graphics, e0 + e1 + e2 + e3, e4);
    let (after, actions) = graphics.run(events);
    assert(after == g4);
    assert(actions == a0 + a1 + a2 + a3 + a4);
    assert(actions =~= rebuilding_actions(first));
}

/// A frame is begun only for the size that the signals show: when the
/// loop, between two frames, goes on to ask for an image, the window has
/// the size for which the swapchain was last built.
pub proof fn lemma_frame_at_observed_size(graphics: AAAGraphics, seen: Observation)
    requires
        graphics.phase == Phase::FrameStart,
        graphics.next(LoopEvent::Observed(seen)).1 is AcquireImage,
    ensures
        seen.width == graphics.width,
        seen.height == graphics.height,
        !seen.exiting,
        !seen.idle(),
{
}

} // verus!
