use pulsar::input_manager::Observation;
use pulsar::model::{BufferUpload, Mesh, RegisteredMesh};
use pulsar::vulkan::fence_semaphores::SemaphoreRole;
use pulsar::vulkan::graphics::{AAAGraphics, DrawCommand, Fault, LoopAction, LoopEvent, LoopState, Phase, STAGE_BOTTOM_OF_PIPE};
use pulsar::vulkan::recreation::{is_valid_recreation, recreation_step, GpuStep, RECREATION_STEPS, REFRESH_STEP};
use pulsar::vulkan::surface::{AAASurface, Extent2D, SurfaceCapabilities, SurfaceFormat, UNDEFINED_EXTENT};
use pulsar::vulkan::surface_resources::{Rect2D, ResourceKind, Viewport};
use pulsar::vulkan::swapchain::{PresentMode, SwapchainError};

fn caps(width: u32, height: u32) -> SurfaceCapabilities {
    SurfaceCapabilities {
        min_image_count: 2,
        max_image_count: 3,
        current_extent: Extent2D { width, height },
        supported_transforms: 1,
        current_transform: 1,
    }
}

fn formats() -> Vec<SurfaceFormat> {
    vec![SurfaceFormat { format: 44, color_space: 0 }]
}

fn modes() -> Vec<PresentMode> {
    vec![PresentMode::Fifo, PresentMode::Mailbox]
}

fn graphics(width: u32, height: u32) -> AAAGraphics {
    let surface = AAASurface::new(1, 2, 0, &formats(), caps(width, height)).unwrap();
    AAAGraphics::new(surface, &modes(), width, height).unwrap()
}

fn acquire() -> LoopAction {
    LoopAction::AcquireImage { timeout: u64::MAX, signal: SemaphoreRole::PresentComplete }
}

fn present(image: u32) -> LoopAction {
    LoopAction::Present { image, wait: SemaphoreRole::RenderingComplete }
}

fn seen(width: u32, height: u32) -> LoopEvent {
    LoopEvent::Observed(Observation { exiting: false, minimized: false, width, height })
}

fn quad(indices: usize) -> RegisteredMesh {
    RegisteredMesh {
        mesh: Mesh { vertices: vec![], indices: vec![0; indices] },
        vertex_buffer: BufferUpload { size: 0, allocation_size: 0, memory_type_index: 0 },
        index_buffer: BufferUpload { size: 0, allocation_size: 0, memory_type_index: 0 },
    }
}

/// A device that does well whatever it is asked, and keeps count.
struct Device {
    width: u32,
    height: u32,
    next_image: u32,
    frames: u32,
    swapchains_made: u32,
    swapchains_released: u32,
    steps: Vec<GpuStep>,
    gpu_calls: u32,
}

fn device(width: u32, height: u32) -> Device {
    Device {
        width,
        height,
        next_image: 0,
        frames: 0,
        swapchains_made: 0,
        swapchains_released: 0,
        steps: vec![],
        gpu_calls: 0,
    }
}

fn perform(device: &mut Device, action: LoopAction) -> Option<LoopEvent> {
    match action {
        LoopAction::Observe | LoopAction::Park => Some(seen(device.width, device.height)),
        LoopAction::AcquireImage { timeout, signal } => {
            assert_eq!(timeout, u64::MAX);
            assert_eq!(signal, SemaphoreRole::PresentComplete);
            device.gpu_calls += 1;
            let index = device.next_image;
            device.next_image = (device.next_image + 1) % 3;
            Some(LoopEvent::Acquired { index })
        }
        LoopAction::Draw { .. } => {
            device.gpu_calls += 1;
            Some(LoopEvent::Submitted)
        }
        LoopAction::Present { wait, .. } => {
            assert_eq!(wait, SemaphoreRole::RenderingComplete);
            device.gpu_calls += 1;
            device.frames += 1;
            Some(LoopEvent::Presented)
        }
        LoopAction::Recreate(step) => {
            device.gpu_calls += 1;
            device.steps.push(step);
            match step {
                GpuStep::Create(ResourceKind::Swapchain) => device.swapchains_made += 1,
                GpuStep::Destroy(ResourceKind::Swapchain) => device.swapchains_released += 1,
                _ => {}
            }
            if step == GpuStep::RefreshSurface {
                Some(LoopEvent::SurfaceRefreshed {
                    formats: formats(),
                    capabilities: caps(device.width, device.height),
                    present_modes: modes(),
                })
            } else {
                Some(LoopEvent::StepDone)
            }
        }
        LoopAction::Halt | LoopAction::Abort(_) => None,
    }
}

/// Runs the loop on the device until `frames` more frames are presented.
fn run_frames(graphics: &mut AAAGraphics, device: &mut Device, frames: u32) {
    let target = device.frames + frames;
    let mut event = seen(device.width, device.height);
    let mut guard = 0;
    while device.frames < target || graphics.phase != Phase::FrameStart {
        let action = graphics.cycle(event);
        event = perform(device, action).expect("the loop stopped");
        guard += 1;
        assert!(guard < 10_000);
    }
}

#[test]
fn a_frame_is_observe_acquire_draw_present() {
    let mut g = graphics(1280, 720);
    assert_eq!(g.state(), LoopState::Running);
    assert_eq!(g.cycle(seen(1280, 720)), acquire());
    assert_eq!(g.phase, Phase::Acquiring);
    assert_eq!(g.cycle(LoopEvent::Acquired { index: 2 }), LoopAction::Draw { image: 2 });
    assert_eq!(g.phase, Phase::Drawing { image: 2 });
    assert_eq!(g.cycle(LoopEvent::Submitted), present(2));
    assert_eq!(g.phase, Phase::Presenting { image: 2 });
    assert_eq!(g.cycle(LoopEvent::Presented), LoopAction::Observe);
    assert_eq!(g.phase, Phase::FrameStart);
    assert_eq!(g.state(), LoopState::Running);
}

#[test]
fn three_frames_then_resize_rebuilds_once() {
    let mut g = graphics(1280, 720);
    g.resources.register_mesh(quad(6));
    g.resources.register_mesh(quad(6));
    let mut d = device(1280, 720);
    run_frames(&mut g, &mut d, 3);
    assert_eq!(d.frames, 3);
    assert_eq!(d.swapchains_made, 0);
    assert_eq!(g.resources.viewports[0], Viewport { x: 0, y: 0, width: 1280, height: 720, min_depth: 0, max_depth: 1 });

    d.width = 640;
    d.height = 480;
    let mut event = seen(640, 480);
    let mut fourth_draw = None;
    while fourth_draw.is_none() {
        let action = g.cycle(event);
        if let LoopAction::Draw { image } = action {
            fourth_draw = Some(image);
        }
        event = perform(&mut d, action).unwrap();
    }
    assert_eq!(d.swapchains_made, 1);
    assert_eq!(d.swapchains_released, 1);
    assert_eq!(d.steps.len(), RECREATION_STEPS);
    assert_eq!(d.steps.iter().filter(|s| **s == GpuStep::WaitDeviceIdle).count(), 1);
    assert_eq!(
        g.resources.viewports,
        [Viewport { x: 0, y: 0, width: 640, height: 480, min_depth: 0, max_depth: 1 }]
    );
    assert_eq!(g.resources.scissors, [Rect2D { x: 0, y: 0, width: 640, height: 480 }]);
    assert_eq!(g.resources.swapchain.extent, Extent2D { width: 640, height: 480 });
    assert_eq!((g.width, g.height), (640, 480));
    let plan = g.frame_plan(fourth_draw.unwrap());
    assert_eq!(
        plan.commands[3],
        DrawCommand::SetViewport(Viewport {
            x: 0,
            y: 0,
            width: 640,
            height: 480,
            min_depth: 0,
            max_depth: 1
        })
    );
    assert!(is_valid_recreation(&d.steps));
}

#[test]
fn a_frame_draws_every_mesh_once() {
    let mut g = graphics(1280, 720);
    g.resources.register_mesh(quad(6));
    g.resources.register_mesh(quad(3));
    let plan = g.frame_plan(2);
    let area = Rect2D { x: 0, y: 0, width: 1280, height: 720 };
    assert_eq!(
        plan.commands,
        vec![
            DrawCommand::BeginRenderPass { image: 2, render_area: area },
            DrawCommand::BindDescriptorSets,
            DrawCommand::BindPipeline,
            DrawCommand::SetViewport(Viewport {
                x: 0,
                y: 0,
                width: 1280,
                height: 720,
                min_depth: 0,
                max_depth: 1
            }),
            DrawCommand::SetScissor(area),
            DrawCommand::BindVertexBuffer { mesh: 0 },
            DrawCommand::BindIndexBuffer { mesh: 0 },
            DrawCommand::DrawIndexed { index_count: 6 },
            DrawCommand::BindVertexBuffer { mesh: 1 },
            DrawCommand::BindIndexBuffer { mesh: 1 },
            DrawCommand::DrawIndexed { index_count: 3 },
            DrawCommand::EndRenderPass,
        ]
    );
    assert_eq!(plan.wait, SemaphoreRole::PresentComplete);
    assert_eq!(plan.wait_stage, STAGE_BOTTOM_OF_PIPE);
    assert_eq!(plan.signal, SemaphoreRole::RenderingComplete);
}

#[test]
fn a_frame_without_meshes_still_clears() {
    let g = graphics(800, 600);
    let plan = g.frame_plan(0);
    assert_eq!(plan.commands.len(), 6);
    assert_eq!(plan.commands[5], DrawCommand::EndRenderPass);
}

#[test]
fn recorded_steps_are_judged_by_their_order() {
    let wait = GpuStep::WaitDeviceIdle;
    let release = |kind| GpuStep::Destroy(kind);
    let make = |kind| GpuStep::Create(kind);
    let full: Vec<GpuStep> = (0..RECREATION_STEPS).map(|i| recreation_step(i).unwrap()).collect();
    assert!(is_valid_recreation(&full));
    assert!(is_valid_recreation(&full[REFRESH_STEP..].to_vec()));
    assert!(is_valid_recreation(&vec![]));
    assert!(is_valid_recreation(&vec![release(ResourceKind::Pipeline)]));
    // A release without a wait before it.
    assert!(!is_valid_recreation(&vec![release(ResourceKind::Framebuffers), wait]));
    assert!(!is_valid_recreation(&full[1..].to_vec()));
    // A release after the new swapchain was made.
    assert!(!is_valid_recreation(&vec![
        wait,
        make(ResourceKind::Swapchain),
        release(ResourceKind::Swapchain),
    ]));
    // A framebuffer before the swapchain.
    assert!(!is_valid_recreation(&vec![
        wait,
        release(ResourceKind::Swapchain),
        make(ResourceKind::Framebuffers),
        make(ResourceKind::Swapchain),
    ]));
    assert!(!is_valid_recreation(&vec![make(ResourceKind::DepthImage), make(ResourceKind::Swapchain)]));
    assert!(is_valid_recreation(&vec![make(ResourceKind::Swapchain), make(ResourceKind::DepthImage)]));
}

#[test]
fn zero_size_resizes_touch_no_swapchain() {
    let mut g = graphics(1280, 720);
    let mut d = device(1280, 720);
    run_frames(&mut g, &mut d, 1);
    let swapchain = g.resources.swapchain;
    for (width, height) in [(0, 720), (1280, 0), (0, 0), (0, 1), (7, 0)] {
        assert_eq!(g.cycle(seen(width, height)), LoopAction::Park);
        assert_eq!(g.phase, Phase::Idle);
        assert_eq!(g.state(), LoopState::Idle);
        assert_eq!(g.resources.swapchain, swapchain);
        assert!(g.resources.generation_live);
    }
    d.width = 800;
    d.height = 600;
    run_frames(&mut g, &mut d, 1);
    assert_eq!(d.swapchains_made, 1);
    assert_eq!(d.swapchains_released, 1);
    assert_eq!(g.resources.swapchain.extent, Extent2D { width: 800, height: 600 });
}

#[test]
fn restoring_the_same_size_after_minimizing_rebuilds_once() {
    let mut g = graphics(1280, 720);
    let mut d = device(1280, 720);
    assert_eq!(g.cycle(seen(0, 0)), LoopAction::Park);
    assert_eq!(g.cycle(seen(0, 0)), LoopAction::Park);
    run_frames(&mut g, &mut d, 2);
    assert_eq!(d.swapchains_made, 1);
}

#[test]
fn minimized_flag_idles_whatever_the_size() {
    let mut g = graphics(1280, 720);
    let minimized = Observation { exiting: false, minimized: true, width: 1280, height: 720 };
    assert_eq!(g.cycle(LoopEvent::Observed(minimized)), LoopAction::Park);
    assert_eq!(g.phase, Phase::Idle);
}

#[test]
fn rebuilding_waits_then_releases_then_builds() {
    let mut g = graphics(1280, 720);
    let mut d = device(640, 480);
    run_frames(&mut g, &mut d, 1);
    let expected: Vec<GpuStep> = (0..RECREATION_STEPS).map(|i| recreation_step(i).unwrap()).collect();
    assert_eq!(d.steps, expected);
    let place = |step: GpuStep| d.steps.iter().position(|s| *s == step).unwrap();
    let wait = place(GpuStep::WaitDeviceIdle);
    let make_swapchain = place(GpuStep::Create(ResourceKind::Swapchain));
    for kind in [
        ResourceKind::Framebuffers,
        ResourceKind::DepthView,
        ResourceKind::DepthMemory,
        ResourceKind::DepthImage,
        ResourceKind::PresentImageViews,
        ResourceKind::Swapchain,
    ] {
        assert!(wait < place(GpuStep::Destroy(kind)));
        assert!(place(GpuStep::Destroy(kind)) < make_swapchain);
    }
    for kind in [
        ResourceKind::PresentImageViews,
        ResourceKind::DepthImage,
        ResourceKind::DepthMemory,
        ResourceKind::DepthView,
        ResourceKind::Framebuffers,
    ] {
        assert!(make_swapchain < place(GpuStep::Create(kind)));
    }
    assert!(place(GpuStep::Destroy(ResourceKind::Swapchain)) < place(GpuStep::RefreshSurface));
    assert!(place(GpuStep::RefreshSurface) < make_swapchain);
    assert_eq!(place(GpuStep::TransitionDepthLayout), RECREATION_STEPS - 1);
}

#[test]
fn the_steps_of_rebuilding_by_place() {
    assert_eq!(recreation_step(0), Some(GpuStep::WaitDeviceIdle));
    assert_eq!(recreation_step(1), Some(GpuStep::Destroy(ResourceKind::Framebuffers)));
    assert_eq!(recreation_step(6), Some(GpuStep::Destroy(ResourceKind::Swapchain)));
    assert_eq!(recreation_step(REFRESH_STEP), Some(GpuStep::RefreshSurface));
    assert_eq!(recreation_step(8), Some(GpuStep::Create(ResourceKind::Swapchain)));
    assert_eq!(recreation_step(13), Some(GpuStep::Create(ResourceKind::Framebuffers)));
    assert_eq!(recreation_step(14), Some(GpuStep::TransitionDepthLayout));
    assert_eq!(recreation_step(RECREATION_STEPS), None);
    assert_eq!(recreation_step(usize::MAX), None);
}

#[test]
fn destroy_swapchain_is_the_releasing_part() {
    let g = graphics(1280, 720);
    assert_eq!(
        g.destroy_swapchain(),
        vec![
            GpuStep::WaitDeviceIdle,
            GpuStep::Destroy(ResourceKind::Framebuffers),
            GpuStep::Destroy(ResourceKind::DepthView),
            GpuStep::Destroy(ResourceKind::DepthMemory),
            GpuStep::Destroy(ResourceKind::DepthImage),
            GpuStep::Destroy(ResourceKind::PresentImageViews),
            GpuStep::Destroy(ResourceKind::Swapchain),
        ]
    );
}

#[test]
fn out_of_date_on_acquire_rebuilds_and_skips_the_frame() {
    let mut g = graphics(1280, 720);
    assert_eq!(g.cycle(seen(1280, 720)), acquire());
    assert_eq!(g.cycle(LoopEvent::OutOfDate), LoopAction::Recreate(GpuStep::WaitDeviceIdle));
    assert_eq!(g.phase, Phase::Recreating { step: 0, width: 1280, height: 720 });
    assert_eq!(g.state(), LoopState::Recreating);
    assert!(!g.resources.generation_live);
}

#[test]
fn out_of_date_on_present_rebuilds() {
    let mut g = graphics(1280, 720);
    g.cycle(seen(1280, 720));
    g.cycle(LoopEvent::Acquired { index: 0 });
    g.cycle(LoopEvent::Submitted);
    let mut action = g.cycle(LoopEvent::OutOfDate);
    assert_eq!(action, LoopAction::Recreate(GpuStep::WaitDeviceIdle));
    let mut d = device(1280, 720);
    while d.frames < 1 {
        let event = perform(&mut d, action).unwrap();
        action = g.cycle(event);
    }
    assert_eq!(d.swapchains_made, 1);
    assert_eq!(d.swapchains_released, 1);
    assert_eq!(d.steps.len(), RECREATION_STEPS);
}

#[test]
fn any_other_failure_is_fatal() {
    let mut g = graphics(1280, 720);
    g.cycle(seen(1280, 720));
    assert_eq!(
        g.cycle(LoopEvent::Failed { code: -4 }),
        LoopAction::Abort(Fault::Device { code: -4 })
    );
    assert_eq!(g.phase, Phase::Stopped);
    assert_eq!(g.state(), LoopState::Stopped);
    assert_eq!(g.cycle(LoopEvent::Acquired { index: 0 }), LoopAction::Halt);
}

#[test]
fn an_event_that_answers_nothing_is_fatal() {
    let mut g = graphics(1280, 720);
    assert_eq!(g.cycle(LoopEvent::Presented), LoopAction::Abort(Fault::Unexpected));
    assert_eq!(g.phase, Phase::Stopped);
    let mut g = graphics(1280, 720);
    g.phase = Phase::Recreating { step: 99, width: 1, height: 1 };
    assert_eq!(g.cycle(LoopEvent::StepDone), LoopAction::Abort(Fault::Unexpected));
}

#[test]
fn exit_flag_stops_the_loop_between_frames() {
    let mut g = graphics(1280, 720);
    let mut d = device(1280, 720);
    run_frames(&mut g, &mut d, 2);
    let calls = d.gpu_calls;
    let exiting = Observation { exiting: true, minimized: false, width: 1280, height: 720 };
    let action = g.cycle(LoopEvent::Observed(exiting));
    assert_eq!(action, LoopAction::Halt);
    assert!(!action.is_gpu_call());
    assert_eq!(g.phase, Phase::Stopped);
    for event in [
        seen(1280, 720),
        LoopEvent::Acquired { index: 0 },
        LoopEvent::Submitted,
        LoopEvent::Presented,
        LoopEvent::OutOfDate,
        LoopEvent::StepDone,
        LoopEvent::Failed { code: 1 },
    ] {
        let action = g.cycle(event);
        assert_eq!(action, LoopAction::Halt);
        assert!(perform(&mut d, action).is_none());
    }
    assert_eq!(d.gpu_calls, calls);
    assert_eq!(g.phase, Phase::Stopped);
}

#[test]
fn exit_flag_is_not_looked_at_in_mid_frame() {
    let mut g = graphics(1280, 720);
    g.cycle(seen(1280, 720));
    g.cycle(LoopEvent::Acquired { index: 1 });
    assert_eq!(g.cycle(LoopEvent::Submitted), present(1));
    assert_eq!(g.cycle(LoopEvent::Presented), LoopAction::Observe);
    let exiting = Observation { exiting: true, minimized: true, width: 0, height: 0 };
    assert_eq!(g.cycle(LoopEvent::Observed(exiting)), LoopAction::Halt);
}

#[test]
fn exit_flag_stops_a_minimized_loop() {
    let mut g = graphics(1280, 720);
    g.cycle(seen(0, 0));
    let exiting = Observation { exiting: true, minimized: true, width: 0, height: 0 };
    assert_eq!(g.cycle(LoopEvent::Observed(exiting)), LoopAction::Halt);
    assert_eq!(g.phase, Phase::Stopped);
}

#[test]
fn surface_without_area_parks_the_rebuilding() {
    let mut g = graphics(1280, 720);
    let mut action = g.cycle(seen(640, 480));
    while action != LoopAction::Recreate(GpuStep::RefreshSurface) {
        action = g.cycle(LoopEvent::StepDone);
    }
    let refreshed = LoopEvent::SurfaceRefreshed {
        formats: formats(),
        capabilities: caps(0, 0),
        present_modes: modes(),
    };
    assert_eq!(g.cycle(refreshed), LoopAction::Park);
    assert_eq!(g.phase, Phase::Idle);
    assert!(!g.resources.generation_live);
    // With no generation alive, the next rebuilding has nothing to release.
    let mut d = device(640, 480);
    run_frames(&mut g, &mut d, 1);
    assert_eq!(d.steps[0], GpuStep::RefreshSurface);
    assert_eq!(d.swapchains_made, 1);
    assert_eq!(d.swapchains_released, 0);
    assert!(g.resources.generation_live);
}

#[test]
fn surface_without_format_aborts_the_rebuilding() {
    let mut g = graphics(1280, 720);
    let mut action = g.cycle(seen(640, 480));
    while action != LoopAction::Recreate(GpuStep::RefreshSurface) {
        action = g.cycle(LoopEvent::StepDone);
    }
    let refreshed = LoopEvent::SurfaceRefreshed {
        formats: vec![],
        capabilities: caps(640, 480),
        present_modes: modes(),
    };
    assert_eq!(g.cycle(refreshed), LoopAction::Abort(Fault::NoSurfaceFormat));
    assert_eq!(g.phase, Phase::Stopped);
}

#[test]
fn undefined_surface_extent_takes_the_observed_size() {
    let mut g = graphics(1280, 720);
    let mut action = g.cycle(seen(300, 200));
    while action != LoopAction::Recreate(GpuStep::RefreshSurface) {
        action = g.cycle(LoopEvent::StepDone);
    }
    let refreshed = LoopEvent::SurfaceRefreshed {
        formats: formats(),
        capabilities: caps(UNDEFINED_EXTENT, UNDEFINED_EXTENT),
        present_modes: vec![],
    };
    assert_eq!(g.cycle(refreshed), LoopAction::Recreate(GpuStep::Create(ResourceKind::Swapchain)));
    assert_eq!(g.resources.swapchain.extent, Extent2D { width: 300, height: 200 });
    assert_eq!(g.resources.swapchain.present_mode, PresentMode::Fifo);
}

#[test]
fn a_loop_cannot_start_without_area() {
    let surface = AAASurface::new(1, 2, 0, &formats(), caps(UNDEFINED_EXTENT, 0)).unwrap();
    assert_eq!(AAAGraphics::new(surface, &modes(), 0, 720).err(), Some(SwapchainError::ZeroExtent));
}

#[test]
fn only_calls_on_the_gpu_count_as_such() {
    assert!(acquire().is_gpu_call());
    assert!(LoopAction::Draw { image: 0 }.is_gpu_call());
    assert!(present(0).is_gpu_call());
    assert!(LoopAction::Recreate(GpuStep::WaitDeviceIdle).is_gpu_call());
    assert!(!LoopAction::Observe.is_gpu_call());
    assert!(!LoopAction::Park.is_gpu_call());
    assert!(!LoopAction::Halt.is_gpu_call());
    assert!(!LoopAction::Abort(Fault::Unexpected).is_gpu_call());
}
