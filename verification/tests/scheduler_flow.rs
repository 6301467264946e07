use metaballs::pipeline::PipelineBuilder;
use metaballs::pipeline::SPIRV_MAGIC;
use metaballs::scheduler::FrameAction;
use metaballs::scheduler::FrameScheduler;
use metaballs::scheduler::SchedulerEvent;
use metaballs::scheduler::SchedulerMode;
use metaballs::surface::PixelFormat;

fn module_bytes(words: &[u32]) -> Vec<u8> {
    let mut bytes = Vec::new();
    for w in words {
        bytes.extend_from_slice(&w.to_le_bytes());
    }
    bytes
}

fn scheduler_at(width: u32, height: u32) -> FrameScheduler {
    let vs = module_bytes(&[SPIRV_MAGIC, 1]);
    let fs = module_bytes(&[SPIRV_MAGIC, 2]);
    let (pipeline, bind_group) =
        PipelineBuilder::new(vs, fs, PixelFormat::Bgra8Unorm).build().unwrap();
    FrameScheduler::new(width, height, PixelFormat::Bgra8Unorm, 0, pipeline, bind_group)
}

fn screen_bytes(width: f32, height: f32) -> Vec<u8> {
    let mut v = width.to_le_bytes().to_vec();
    v.extend_from_slice(&height.to_le_bytes());
    v
}

/// Start at 800x600: the first frame renders with a (800.0, 600.0)
/// screen payload and a time payload of about zero.  A resize to
/// 1024x768 stages the new screen payload before any further render
/// pass.  A close request ends the loop and nothing more is submitted.
#[test]
fn startup_resize_close_flow() {
    let mut s = scheduler_at(800, 600);
    assert_eq!(s.mode, SchedulerMode::Running);
    assert_eq!(
        s.handle_event(SchedulerEvent::IdleTick, 0),
        FrameAction::RequestRedraw
    );
    let t0 = 0.0004f32.to_bits();
    assert_eq!(
        s.handle_event(SchedulerEvent::RedrawRequested, t0),
        FrameAction::RenderFrame
    );
    assert_eq!(
        s.uniforms.current_screen_size_payload(),
        screen_bytes(800.0, 600.0)
    );
    let submitted = f32::from_le_bytes(s.uniforms.current_time_payload().try_into().unwrap());
    assert!(submitted >= 0.0 && submitted < 0.001);

    let a = s.handle_event(SchedulerEvent::Resized { width: 1024, height: 768 }, t0);
    assert_eq!(a, FrameAction::Reconfigure);
    assert_eq!(s.surface.dims.width, 1024);
    assert_eq!(s.surface.dims.height, 768);
    assert_eq!(s.msaa.dims, s.surface.dims);
    assert_eq!(
        s.uniforms.current_screen_size_payload(),
        screen_bytes(1024.0, 768.0)
    );

    assert_eq!(
        s.handle_event(SchedulerEvent::CloseRequested, t0),
        FrameAction::Exit
    );
    assert_eq!(s.mode, SchedulerMode::Exiting);
    assert_eq!(
        s.handle_event(SchedulerEvent::RedrawRequested, t0),
        FrameAction::Exit
    );
    assert_eq!(
        s.handle_event(SchedulerEvent::IdleTick, t0),
        FrameAction::Exit
    );
}

/// Two consecutive redraw ticks with no intervening resize use the same
/// screen payload, a strictly increasing time payload and the same
/// pipeline and bind-group objects.
#[test]
fn two_redraw_ticks_share_everything_but_time() {
    let mut s = scheduler_at(800, 600);
    let pipeline_before = s.pipeline.clone();
    let bind_group_before = s.bind_group;
    let t1 = 0.5f32.to_bits();
    let t2 = 0.52f32.to_bits();
    assert_eq!(
        s.handle_event(SchedulerEvent::RedrawRequested, t1),
        FrameAction::RenderFrame
    );
    let screen1 = s.uniforms.current_screen_size_payload();
    let time1 = s.uniforms.current_time_payload();
    assert_eq!(
        s.handle_event(SchedulerEvent::RedrawRequested, t2),
        FrameAction::RenderFrame
    );
    let screen2 = s.uniforms.current_screen_size_payload();
    let time2 = s.uniforms.current_time_payload();
    assert_eq!(screen1, screen2);
    let f1 = f32::from_le_bytes(time1.try_into().unwrap());
    let f2 = f32::from_le_bytes(time2.try_into().unwrap());
    assert!(f1 < f2);
    assert_eq!(s.pipeline, pipeline_before);
    assert_eq!(s.bind_group, bind_group_before);
}

/// A resize to the current size leaves every observable part of the
/// state as it was, though the reconfiguration action still occurs.
#[test]
fn same_size_resize_is_idempotent() {
    let mut s = scheduler_at(800, 600);
    let t = 0.25f32.to_bits();
    assert_eq!(
        s.handle_event(SchedulerEvent::RedrawRequested, t),
        FrameAction::RenderFrame
    );
    let surface = s.surface;
    let msaa = s.msaa;
    let uniforms = s.uniforms;
    let mode = s.mode;
    let a = s.handle_event(SchedulerEvent::Resized { width: 800, height: 600 }, t);
    assert_eq!(a, FrameAction::Reconfigure);
    assert_eq!(s.surface, surface);
    assert_eq!(s.msaa, msaa);
    assert_eq!(s.uniforms, uniforms);
    assert_eq!(s.mode, mode);
}

/// A resize to (0, 0) creates no zero-sized target and suspends
/// drawing until a positive size is observed again.
#[test]
fn zero_size_suspends_drawing() {
    let mut s = scheduler_at(800, 600);
    let t = 0.1f32.to_bits();
    let a = s.handle_event(SchedulerEvent::Resized { width: 0, height: 0 }, t);
    assert_eq!(a, FrameAction::SuspendDraw);
    // the old positive-sized targets stand; nothing zero-sized exists
    assert_eq!(s.surface.dims.width, 800);
    assert_eq!(s.surface.dims.height, 600);
    assert_eq!(s.msaa.dims, s.surface.dims);
    assert_eq!(
        s.handle_event(SchedulerEvent::RedrawRequested, t),
        FrameAction::SuspendDraw
    );
    // a positive resize resumes drawing
    let b = s.handle_event(SchedulerEvent::Resized { width: 640, height: 480 }, t);
    assert_eq!(b, FrameAction::Reconfigure);
    assert_eq!(
        s.handle_event(SchedulerEvent::RedrawRequested, t),
        FrameAction::RenderFrame
    );
}

/// After any sequence of resize events, surface and MSAA dimensions
/// agree with each other and with the most recent resize before a draw.
#[test]
fn targets_track_most_recent_resize() {
    let mut s = scheduler_at(320, 200);
    let t = 0.0f32.to_bits();
    let sizes: [(u32, u32); 5] = [(1, 1), (1920, 1080), (0, 500), (300, 200), (800, 600)];
    for (w, h) in sizes {
        s.handle_event(SchedulerEvent::Resized { width: w, height: h }, t);
    }
    assert_eq!(
        s.handle_event(SchedulerEvent::RedrawRequested, t),
        FrameAction::RenderFrame
    );
    assert_eq!(s.surface.dims.width, 800);
    assert_eq!(s.surface.dims.height, 600);
    assert_eq!(s.msaa.dims, s.surface.dims);
    assert_eq!(s.msaa.sample_count, 16);
    assert_eq!(s.msaa.format, s.surface.format);
}

/// Events the system does not consume change nothing.
#[test]
fn other_events_are_ignored() {
    let mut s = scheduler_at(800, 600);
    let surface = s.surface;
    assert_eq!(s.handle_event(SchedulerEvent::Other, 0), FrameAction::Ignore);
    assert_eq!(s.surface, surface);
    assert_eq!(s.mode, SchedulerMode::Running);
}
