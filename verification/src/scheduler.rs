use vstd::prelude::*;

use crate::pipeline::BindGroupModel;
use crate::pipeline::RenderPipelineState;
use crate::surface::MsaaTargetDescriptor;
use crate::surface::PixelFormat;
use crate::surface::PresentModeKind;
use crate::surface::SurfaceConfiguration;
use crate::surface::SurfaceDims;
use crate::uniforms::UniformStore;

verus! {

/// Whether the control loop keeps scheduling frames.
#[derive(Clone, Copy, PartialEq, Eq, Structural, Debug)]
pub enum SchedulerMode {
    Running,
    Exiting,
}

/// One event from the external window/event source.  Every other event
/// kind the source can deliver is `Other` and carries nothing for this
/// system.
#[derive(Clone, Copy, PartialEq, Eq, Structural, Debug)]
pub enum SchedulerEvent {
    Resized { width: u32, height: u32 },
    CloseRequested,
    RedrawRequested,
    /// The poll loop ran out of events: request a redraw so that a
    /// frame is produced on every idle tick.
    IdleTick,
    Other,
}

/// What the driver must do with the GPU and the window after a step.
#[derive(Clone, Copy, PartialEq, Eq, Structural, Debug)]
pub enum FrameAction {
    /// Ask the window for a redraw.
    RequestRedraw,
    /// Rebuild the swap chain and the MSAA target at the new size, then
    /// submit a copy-only command batch carrying the current
    /// screen-size payload, so the uniform is current before the next
    /// draw.
    Reconfigure,
    /// Acquire a presentation image and record one render pass: clear
    /// the MSAA attachment, bind pipeline and bind group, draw the
    /// full-screen triangle pair, resolve into the acquired image,
    /// submit.  The time payload to copy first is the store's current
    /// one.
    RenderFrame,
    /// Do nothing: the window has no drawable area right now.
    SuspendDraw,
    /// Leave the event loop; the process exits cleanly.
    Exit,
    /// Nothing to do for this event.
    Ignore,
}

/// Frame times never run backwards.
pub open spec fn frames_monotone(frames: Seq<u32>) -> bool {
    forall|i: int, j: int| 0 <= i <= j < frames.len() ==> #[trigger] frames[i] <= #[trigger] frames[j]
}

/// The control loop.  On each tick it updates uniforms, acquires a
/// presentation image, records a single render pass and submits it; on
/// a resize it reconfigures the presentation surface and the MSAA
/// target atomically; on a close request it leaves the loop.
pub struct FrameScheduler {
    pub mode: SchedulerMode,
    pub surface: SurfaceConfiguration,
    pub msaa: MsaaTargetDescriptor,
    pub uniforms: UniformStore,
    pub pipeline: RenderPipelineState,
    pub bind_group: BindGroupModel,
    /// The most recently observed window size; the construction size
    /// until the first resize event.
    pub last_size: SurfaceDims,
    /// Time payloads (32-bit float bit patterns) of the frames
    /// submitted so far, oldest first.
    pub frames: Ghost<Seq<u32>>,
}

impl FrameScheduler {
    /// Everything a step preserves: the surface and the MSAA target
    /// agree on size and format at the fixed sample count, the
    /// screen-size uniform matches them, the pipeline stays the one
    /// built at startup, and submitted frame times are monotone.
    pub open spec fn wf(self) -> bool {
        &&& self.msaa.matches(self.surface)
        &&& self.uniforms.width == self.surface.dims.width
        &&& self.uniforms.height == self.surface.dims.height
        &&& self.last_size.is_drawable() ==> self.surface.dims == self.last_size
        &&& self.pipeline.is_fixed_state(self.surface.format)
        &&& self.bind_group.is_fixed_layout()
        &&& frames_monotone(self.frames@)
        &&& self.frames@.len() > 0 ==> self.frames@[self.frames@.len() - 1]
            <= self.uniforms.time_bits
    }

    /// Drawing is suspended while the window has a zero dimension.
    pub open spec fn can_draw(self) -> bool {
        self.last_size.is_drawable()
    }

    pub fn new(
        width: u32,
        height: u32,
        format: PixelFormat,
        time_bits: u32,
        pipeline: RenderPipelineState,
        bind_group: BindGroupModel,
    ) -> (r: FrameScheduler)
        requires
            pipeline.is_fixed_state(format),
            bind_group.is_fixed_layout(),
        ensures
            r.wf(),
            r.mode == SchedulerMode::Running,
            r.surface == (SurfaceConfiguration {
                dims: SurfaceDims { width, height },
                format,
                present_mode: PresentModeKind::Mailbox,
            }),
            r.msaa.matches(r.surface),
            r.uniforms == (UniformStore { time_bits, width, height }),
            r.pipeline == pipeline,
            r.bind_group == bind_group,
            r.last_size == (SurfaceDims { width, height }),
            r.frames@ == Seq::<u32>::empty(),
    {
        let surface = SurfaceConfiguration::new(width, height, format);
        let msaa = MsaaTargetDescriptor::new(&surface);
        FrameScheduler {
            mode: SchedulerMode::Running,
            surface,
            msaa,
            uniforms: UniformStore::new(width, height, time_bits),
            pipeline,
            bind_group,
            last_size: SurfaceDims { width, height },
            frames: Ghost(Seq::empty()),
        }
    }
}

/// What a resize step does.  A positive size reconfigures both coupled
/// targets atomically and stages the new screen-size uniform; a zero
/// size creates nothing and suspends drawing; a resize to the current
/// size leaves the state exactly as it was, though the reconfiguration
/// work still occurs.
pub open spec fn resize_post(
    pre: FrameScheduler,
    post: FrameScheduler,
    a: FrameAction,
    width: u32,
    height: u32,
) -> bool {
    let size = SurfaceDims { width, height };
    &&& post.wf()
    &&& post.mode == pre.mode
    &&& post.pipeline == pre.pipeline
    &&& post.bind_group == pre.bind_group
    &&& post.frames@ == pre.frames@
    &&& post.uniforms.time_bits == pre.uniforms.time_bits
    &&& pre.mode == SchedulerMode::Exiting ==> post == pre && a == FrameAction::Exit
    &&& pre.mode == SchedulerMode::Running ==> {
        &&& post.last_size == size
        &&& if size.is_drawable() {
            &&& post.surface.dims == size
            &&& post.surface.format == pre.surface.format
            &&& post.surface.present_mode == pre.surface.present_mode
            &&& post.msaa.dims == size
            &&& post.uniforms.width == width
            &&& post.uniforms.height == height
            &&& a == FrameAction::Reconfigure
        } else {
            &&& post.surface == pre.surface
            &&& post.msaa == pre.msaa
            &&& post.uniforms == pre.uniforms
            &&& a == FrameAction::SuspendDraw
        }
    }
    &&& pre.mode == SchedulerMode::Running && pre.last_size == size ==> post == pre
}

/// What a redraw step does.  While running and drawable it records the
/// new elapsed time and submits one frame; nothing else moves, so two
/// consecutive ticks share the screen payload and the pipeline
/// objects.  While suspended or exiting nothing is acquired or
/// submitted.
pub open spec fn redraw_post(
    pre: FrameScheduler,
    post: FrameScheduler,
    a: FrameAction,
    time_bits: u32,
) -> bool {
    &&& post.wf()
    &&& post.mode == pre.mode
    &&& post.surface == pre.surface
    &&& post.msaa == pre.msaa
    &&& post.pipeline == pre.pipeline
    &&& post.bind_group == pre.bind_group
    &&& post.last_size == pre.last_size
    &&& post.uniforms.width == pre.uniforms.width
    &&& post.uniforms.height == pre.uniforms.height
    &&& pre.mode == SchedulerMode::Exiting ==> post == pre && a == FrameAction::Exit
    &&& pre.mode == SchedulerMode::Running ==> {
        if pre.can_draw() {
            &&& post.uniforms.time_bits == time_bits
            &&& post.frames@ == pre.frames@.push(time_bits)
            &&& a == FrameAction::RenderFrame
        } else {
            &&& post == pre
            &&& a == FrameAction::SuspendDraw
        }
    }
}

/// What a close request does: the loop transitions to `Exiting` and no
/// further frames are scheduled or submitted.
pub open spec fn close_post(pre: FrameScheduler, post: FrameScheduler, a: FrameAction) -> bool {
    &&& post.wf()
    &&& post.mode == SchedulerMode::Exiting
    &&& post.surface == pre.surface
    &&& post.msaa == pre.msaa
    &&& post.uniforms == pre.uniforms
    &&& post.pipeline == pre.pipeline
    &&& post.bind_group == pre.bind_group
    &&& post.last_size == pre.last_size
    &&& post.frames@ == pre.frames@
    &&& a == FrameAction::Exit
}

/// What an idle tick does: while running, ask for a redraw, so the poll
/// loop produces a steady frame cadence; no state moves.
pub open spec fn idle_post(pre: FrameScheduler, post: FrameScheduler, a: FrameAction) -> bool {
    &&& post == pre
    &&& a == (if pre.mode == SchedulerMode::Running {
        FrameAction::RequestRedraw
    } else {
        FrameAction::Exit
    })
}

impl FrameScheduler {
    /// The resize transition: both targets are rebuilt in one atomic
    /// operation so their dimensions can never disagree, and the
    /// screen-size uniform is staged for a copy-only submission before
    /// the next draw.  A zero dimension suspends drawing instead of
    /// creating a zero-sized GPU resource.
    pub fn handle_resize(&mut self, width: u32, height: u32) -> (a: FrameAction)
        requires
            old(self).wf(),
        ensures
            resize_post(*old(self), *final(self), a, width, height),
    {
        if self.mode == SchedulerMode::Exiting {
            return FrameAction::Exit;
        }
        self.last_size = SurfaceDims { width, height };
        if width > 0 && height > 0 {
            self.surface.reconfigure(width, height);
            self.msaa.reconfigure(width, height);
            self.uniforms.set_screen_size(width, height);
            FrameAction::Reconfigure
        } else {
            FrameAction::SuspendDraw
        }
    }

    /// The redraw transition: update the elapsed-time uniform and
    /// submit one frame.  `time_bits` is the bit pattern of elapsed
    /// seconds as a 32-bit float; elapsed time is monotonic and
    /// non-negative, so its bit pattern never decreases.
    pub fn handle_redraw(&mut self, time_bits: u32) -> (a: FrameAction)
        requires
            old(self).wf(),
            time_bits >= old(self).uniforms.time_bits,
        ensures
            redraw_post(*old(self), *final(self), a, time_bits),
    {
        if self.mode == SchedulerMode::Exiting {
            return FrameAction::Exit;
        }
        if !self.last_size.drawable() {
            return FrameAction::SuspendDraw;
        }
        let ghost pre_frames = self.frames@;
        self.uniforms.set_time_bits(time_bits);
        self.frames = Ghost(pre_frames.push(time_bits));
        proof {
            assert forall|i: int, j: int|
                0 <= i <= j < self.frames@.len() implies #[trigger] self.frames@[i]
                <= #[trigger] self.frames@[j] by {
                if j < pre_frames.len() {
                    assert(pre_frames[i] <= pre_frames[j]);
                } else if i < pre_frames.len() {
                    assert(pre_frames[i] <= pre_frames[pre_frames.len() - 1]);
                }
            }
        }
        FrameAction::RenderFrame
    }

    /// The close transition: no further frames are scheduled.
    pub fn handle_close(&mut self) -> (a: FrameAction)
        requires
            old(self).wf(),
        ensures
            close_post(*old(self), *final(self), a),
    {
        self.mode = SchedulerMode::Exiting;
        FrameAction::Exit
    }

    /// The idle transition: request a redraw on every tick.
    pub fn handle_idle(&self) -> (a: FrameAction)
        requires
            self.wf(),
        ensures
            idle_post(*self, *self, a),
    {
        if self.mode == SchedulerMode::Running {
            FrameAction::RequestRedraw
        } else {
            FrameAction::Exit
        }
    }

    /// One step of the control loop: dispatches an event to its
    /// transition.  `time_bits` is the current elapsed time, read by
    /// the driver right before the call.
    pub fn handle_event(&mut self, event: SchedulerEvent, time_bits: u32) -> (a: FrameAction)
        requires
            old(self).wf(),
            time_bits >= old(self).uniforms.time_bits,
        ensures
            final(self).wf(),
            event matches SchedulerEvent::Resized { width, height } ==> resize_post(
                *old(self),
                *final(self),
                a,
                width,
                height,
            ),
            event == SchedulerEvent::RedrawRequested ==> redraw_post(
                *old(self),
                *final(self),
                a,
                time_bits,
            ),
            event == SchedulerEvent::CloseRequested ==> close_post(*old(self), *final(self), a),
            event == SchedulerEvent::IdleTick ==> idle_post(*old(self), *final(self), a),
            event == SchedulerEvent::Other ==> *final(self) == *old(self) && a
                == FrameAction::Ignore,
    {
        match event {
            SchedulerEvent::Resized { width, height } => self.handle_resize(width, height),
            SchedulerEvent::RedrawRequested => self.handle_redraw(time_bits),
            SchedulerEvent::CloseRequested => self.handle_close(),
            SchedulerEvent::IdleTick => self.handle_idle(),
            SchedulerEvent::Other => FrameAction::Ignore,
        }
    }
}

/// Immediately before any draw — that is, whenever a frame can be
/// recorded at all — the presentation surface's configured dimensions
/// and the offscreen MSAA target's dimensions are equal to each other
/// and to the most recent observed window size.
pub proof fn lemma_targets_agree_before_draw(s: FrameScheduler)
    requires
        s.wf(),
        s.can_draw(),
    ensures
        s.surface.dims == s.last_size,
        s.msaa.dims == s.last_size,
        s.msaa.dims == s.surface.dims,
{
}

/// The time payloads of submitted frames are monotone: across any two
/// successive (or distant) frames the elapsed-time bit pattern never
/// decreases.
pub proof fn lemma_frame_times_monotone(s: FrameScheduler, i: int, j: int)
    requires
        s.wf(),
        0 <= i <= j < s.frames@.len(),
    ensures
        s.frames@[i] <= s.frames@[j],
{
}

} // verus!
