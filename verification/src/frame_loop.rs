//! The frame loop state machine: window event handling, per-frame phases from
//! acquisition through presentation, the surface error policy, the recorded
//! command sequence of one frame, and frame pacing.
//!
//! The loop itself is driven by the surrounding application, which polls the
//! windowing toolkit, performs the GPU calls, and reports their outcomes back
//! into this state machine. The machine decides; the application acts.

use vstd::prelude::*;
use crate::mesh_builder::Mesh;
use crate::surface::SurfaceConfiguration;

verus! {

/// The keys the loop reacts to.
#[derive(Clone, Copy, Debug, PartialEq, Eq, Structural)]
pub enum Key {
    Escape,
    Other,
}

/// A discrete event from the windowing toolkit, as the loop consumes it.
#[derive(Clone, Copy, Debug, PartialEq, Eq, Structural)]
pub enum HostEvent {
    CloseRequested,
    Resized(u32, u32),
    KeyPressed(Key),
    RedrawRequested,
    Other,
}

/// What the surface reported when a presentable image was requested.
#[derive(Clone, Copy, Debug, PartialEq, Eq, Structural)]
pub enum SurfaceError {
    Lost,
    Outdated,
    OutOfMemory,
    Timeout,
    Other,
}

/// Where one frame iteration stands.
#[derive(Clone, Copy, Debug, PartialEq, Eq, Structural)]
pub enum Phase {
    Idle,
    Acquiring,
    Recording,
    Submitting,
    Presenting,
}

/// Bit pattern of the 64-bit float 0.45, the red and green components of the
/// fixed clear color.
pub const CLEAR_COLOR_RG_BITS: u64 = 0x3FDC_CCCC_CCCC_CCCD;

/// Bit pattern of the 64-bit float 0.0, the blue and alpha components of the
/// fixed clear color.
pub const CLEAR_COLOR_BA_BITS: u64 = 0x0000_0000_0000_0000;

/// The constant color each frame is cleared to, each component a 64-bit float
/// held as its bit pattern.
#[derive(Clone, Copy, Debug, PartialEq, Eq, Structural)]
pub struct ClearColor {
    pub r_bits: u64,
    pub g_bits: u64,
    pub b_bits: u64,
    pub a_bits: u64,
}

/// The fixed clear color: a dim yellow, fully transparent alpha.
pub open spec fn clear_color_spec() -> ClearColor {
    ClearColor {
        r_bits: CLEAR_COLOR_RG_BITS,
        g_bits: CLEAR_COLOR_RG_BITS,
        b_bits: CLEAR_COLOR_BA_BITS,
        a_bits: CLEAR_COLOR_BA_BITS,
    }
}

/// One step of a frame's command sequence, for the application to perform
/// against the GPU backend in order.
#[derive(Clone, Copy, Debug, PartialEq, Eq, Structural)]
pub enum RenderCommand {
    BeginRenderPass { clear: ClearColor },
    SetPipeline,
    SetVertexBuffer { slot: u32 },
    SetIndexBuffer,
    Draw { vertex_count: u32, instance_count: u32 },
    DrawIndexed { index_count: u32, instance_count: u32 },
    EndRenderPass,
    Submit,
    Present,
}

/// The full command sequence of one frame for `mesh`: begin the one render
/// pass with the fixed clear, bind the pipeline and the vertex buffer at slot
/// 0 (and the index buffer when the mesh has one), issue one draw covering
/// the whole mesh for one instance, close the pass, submit, present.
pub open spec fn frame_commands(mesh: Mesh) -> Seq<RenderCommand> {
    if mesh.indexed() {
        seq![
            RenderCommand::BeginRenderPass { clear: clear_color_spec() },
            RenderCommand::SetPipeline,
            RenderCommand::SetVertexBuffer { slot: 0 },
            RenderCommand::SetIndexBuffer,
            RenderCommand::DrawIndexed { index_count: mesh.num_of_indices, instance_count: 1 },
            RenderCommand::EndRenderPass,
            RenderCommand::Submit,
            RenderCommand::Present,
        ]
    } else {
        seq![
            RenderCommand::BeginRenderPass { clear: clear_color_spec() },
            RenderCommand::SetPipeline,
            RenderCommand::SetVertexBuffer { slot: 0 },
            RenderCommand::Draw { vertex_count: mesh.num_of_vertices, instance_count: 1 },
            RenderCommand::EndRenderPass,
            RenderCommand::Submit,
            RenderCommand::Present,
        ]
    }
}

/// An event that makes the loop stop: a close request or the escape key.
pub open spec fn is_exit_event(event: HostEvent) -> bool {
    ||| event is CloseRequested
    ||| event matches HostEvent::KeyPressed(k) && k is Escape
}

/// Whether an event is a resize the surface is actually reconfigured for: a
/// resize with both dimensions strictly positive.
pub open spec fn event_applies_resize(event: HostEvent) -> bool {
    match event {
        HostEvent::Resized(w, h) => w > 0 && h > 0,
        _ => false,
    }
}

/// The configuration in force after one event: a valid resize replaces the
/// dimensions exactly; everything else leaves the configuration alone.
pub open spec fn config_after_event(
    config: SurfaceConfiguration,
    event: HostEvent,
) -> SurfaceConfiguration {
    match event {
        HostEvent::Resized(w, h) => if w > 0 && h > 0 {
            SurfaceConfiguration { width: w, height: h, ..config }
        } else {
            config
        },
        _ => config,
    }
}

/// The long-lived render loop state: the surface configuration in force,
/// where the current frame stands, whether the loop still runs, and whether
/// the surface must be recreated before the next acquisition.
#[derive(Clone, Copy, Debug, PartialEq, Eq, Structural)]
pub struct FrameLoop {
    pub config: SurfaceConfiguration,
    pub phase: Phase,
    pub running: bool,
    pub needs_recreate: bool,
}

/// The state after an acquisition failure: back to idle; a lost or outdated
/// surface demands recreation; out of memory stops the loop; anything else
/// only drops the frame.
pub open spec fn acquire_failed_spec(pre: FrameLoop, error: SurfaceError) -> FrameLoop {
    FrameLoop {
        phase: Phase::Idle,
        running: pre.running && !(error is OutOfMemory),
        needs_recreate: pre.needs_recreate || error is Lost || error is Outdated,
        ..pre
    }
}

impl FrameLoop {
    /// The configuration in force is always one that was applied.
    pub open spec fn well_formed(self) -> bool {
        self.config.well_formed()
    }

    /// A new frame may be acquired only from an idle, running loop whose
    /// surface needs no recreation.
    pub open spec fn acquire_allowed(self) -> bool {
        self.running && !self.needs_recreate && self.phase is Idle
    }

    /// A fresh loop around an applied configuration: idle, running, with a
    /// valid surface.
    pub fn new(config: SurfaceConfiguration) -> (fl: FrameLoop)
        requires
            config.well_formed(),
        ensures
            fl.config == config,
            fl.phase is Idle,
            fl.running,
            !fl.needs_recreate,
            fl.well_formed(),
            fl.acquire_allowed(),
    {
        FrameLoop { config, phase: Phase::Idle, running: true, needs_recreate: false }
    }

    /// Consumes one window event between frames. A close request or the
    /// escape key stops the loop; a resize with both dimensions positive
    /// replaces the configured size exactly and asks the application to
    /// reconfigure the surface; a zero-area resize and every other event
    /// change nothing.
    pub fn handle_event(&mut self, event: &HostEvent) -> (reconfigure: bool)
        requires
            old(self).phase is Idle,
        ensures
            final(self).phase is Idle,
            final(self).needs_recreate == old(self).needs_recreate,
            final(self).running == (old(self).running && !is_exit_event(*event)),
            final(self).config == config_after_event(old(self).config, *event),
            reconfigure == event_applies_resize(*event),
            old(self).well_formed() ==> final(self).well_formed(),
    {
        match event {
            HostEvent::CloseRequested => {
                self.running = false;
                false
            },
            HostEvent::KeyPressed(Key::Escape) => {
                self.running = false;
                false
            },
            HostEvent::Resized(w, h) => self.config.resize(*w, *h),
            _ => false,
        }
    }

    /// Recreates what a lost or outdated surface demands: the application
    /// rebinds the surface to the window and applies the configuration in
    /// force, whose dimensions are returned.
    pub fn recover(&mut self) -> (size: (u32, u32))
        requires
            old(self).needs_recreate,
            old(self).running,
            old(self).phase is Idle,
        ensures
            *final(self) == (FrameLoop { needs_recreate: false, ..*old(self) }),
            size == (old(self).config.width, old(self).config.height),
            old(self).well_formed() ==> final(self).acquire_allowed(),
    {
        self.needs_recreate = false;
        (self.config.width, self.config.height)
    }

    /// Starts a frame: the application may now request a presentable image
    /// from the surface.
    pub fn start_acquire(&mut self)
        requires
            old(self).acquire_allowed(),
        ensures
            *final(self) == (FrameLoop { phase: Phase::Acquiring, ..*old(self) }),
    {
        self.phase = Phase::Acquiring;
    }

    /// A presentable image was acquired; recording may begin.
    pub fn acquire_succeeded(&mut self)
        requires
            old(self).phase is Acquiring,
        ensures
            *final(self) == (FrameLoop { phase: Phase::Recording, ..*old(self) }),
    {
        self.phase = Phase::Recording;
    }

    /// The surface refused to hand out an image. The frame is dropped either
    /// way: a lost or outdated surface marks the loop for recreation, an
    /// out-of-memory report stops it, and any other error only skips the
    /// frame.
    pub fn acquire_failed(&mut self, error: &SurfaceError)
        requires
            old(self).phase is Acquiring,
        ensures
            *final(self) == acquire_failed_spec(*old(self), *error),
    {
        self.phase = Phase::Idle;
        match error {
            SurfaceError::Lost => {
                self.needs_recreate = true;
            },
            SurfaceError::Outdated => {
                self.needs_recreate = true;
            },
            SurfaceError::OutOfMemory => {
                self.running = false;
            },
            _ => {},
        }
    }

    /// Plans the recording of this frame over `mesh` and hands the full
    /// ordered command sequence to the application.
    pub fn record_commands(&mut self, mesh: &Mesh) -> (cmds: Vec<RenderCommand>)
        requires
            old(self).phase is Recording,
        ensures
            *final(self) == (FrameLoop { phase: Phase::Submitting, ..*old(self) }),
            cmds@ == frame_commands(*mesh),
    {
        self.phase = Phase::Submitting;
        let mut cmds: Vec<RenderCommand> = Vec::new();
        cmds.push(RenderCommand::BeginRenderPass { clear: clear_color() });
        cmds.push(RenderCommand::SetPipeline);
        cmds.push(RenderCommand::SetVertexBuffer { slot: 0 });
        match &mesh.index_data {
            Option::Some(_) => {
                cmds.push(RenderCommand::SetIndexBuffer);
                cmds.push(
                    RenderCommand::DrawIndexed {
                        index_count: mesh.num_of_indices,
                        instance_count: 1,
                    },
                );
            },
            Option::None => {
                cmds.push(
                    RenderCommand::Draw {
                        vertex_count: mesh.num_of_vertices,
                        instance_count: 1,
                    },
                );
            },
        }
        cmds.push(RenderCommand::EndRenderPass);
        cmds.push(RenderCommand::Submit);
        cmds.push(RenderCommand::Present);
        proof {
            assert(cmds@ =~= frame_commands(*mesh));
        }
        cmds
    }

    /// The recorded commands were closed and handed to the queue, in order
    /// after every earlier submission.
    pub fn submit_frame(&mut self)
        requires
            old(self).phase is Submitting,
        ensures
            *final(self) == (FrameLoop { phase: Phase::Presenting, ..*old(self) }),
    {
        self.phase = Phase::Presenting;
    }

    /// The acquired image was presented; the iteration is over.
    pub fn present_frame(&mut self)
        requires
            old(self).phase is Presenting,
        ensures
            *final(self) == (FrameLoop { phase: Phase::Idle, ..*old(self) }),
    {
        self.phase = Phase::Idle;
    }
}

/// The fixed clear color as a value.
pub fn clear_color() -> (c: ClearColor)
    ensures
        c == clear_color_spec(),
{
    ClearColor {
        r_bits: CLEAR_COLOR_RG_BITS,
        g_bits: CLEAR_COLOR_RG_BITS,
        b_bits: CLEAR_COLOR_BA_BITS,
        a_bits: CLEAR_COLOR_BA_BITS,
    }
}

/// Surface error policy law: after a lost or outdated surface is reported,
/// the loop demands recreation and allows no acquisition until `recover` has
/// run; after an out-of-memory report the loop has stopped and allows no
/// acquisition at all.
pub proof fn lemma_surface_error_policy(pre: FrameLoop, error: SurfaceError)
    requires
        pre.phase is Acquiring,
    ensures
        (error is Lost || error is Outdated) ==> acquire_failed_spec(pre, error).needs_recreate
            && !acquire_failed_spec(pre, error).acquire_allowed(),
        error is OutOfMemory ==> !acquire_failed_spec(pre, error).running && !acquire_failed_spec(
            pre,
            error,
        ).acquire_allowed(),
{
}

/// The target interval of one frame iteration, in nanoseconds: a sixtieth of
/// a second.
pub const TARGET_FRAME_NANOS: u64 = 16_666_667;

/// How long to sleep after an iteration that took `elapsed` nanoseconds: the
/// remainder of the target interval, or nothing once the target is met.
pub open spec fn pacing_sleep_spec(elapsed: u64) -> u64 {
    if elapsed < TARGET_FRAME_NANOS {
        (TARGET_FRAME_NANOS - elapsed) as u64
    } else {
        0u64
    }
}

/// Decides the pacing sleep after one iteration of work.
pub fn pacing_sleep_nanos(elapsed_nanos: u64) -> (sleep: u64)
    ensures
        sleep == pacing_sleep_spec(elapsed_nanos),
        elapsed_nanos < TARGET_FRAME_NANOS ==> elapsed_nanos + sleep == TARGET_FRAME_NANOS,
        elapsed_nanos >= TARGET_FRAME_NANOS ==> sleep == 0,
{
    if elapsed_nanos < TARGET_FRAME_NANOS {
        TARGET_FRAME_NANOS - elapsed_nanos
    } else {
        0
    }
}

/// Frame pacing law: an iteration that finishes under the target interval is
/// padded with sleep so that work plus sleep reaches the target; one that
/// meets or exceeds the target gets no sleep and the next iteration starts at
/// once.
pub proof fn lemma_frame_pacing(elapsed_nanos: u64)
    ensures
        elapsed_nanos < TARGET_FRAME_NANOS ==> elapsed_nanos + pacing_sleep_spec(elapsed_nanos)
            >= TARGET_FRAME_NANOS,
        elapsed_nanos >= TARGET_FRAME_NANOS ==> pacing_sleep_spec(elapsed_nanos) == 0,
{
}

} // verus!
