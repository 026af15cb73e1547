//! Per-frame orchestration: compute, then render, then present, and what to do when the
//! presentation surface cannot hand out a frame. The renderer decides; the caller runs
//! the device work that each decision names.
use vstd::prelude::*;
use crate::grid::{Dispatch, Grid, GridDim, GridView};
use crate::pipeline::{
    compute_layout_entries, compute_layout_spec, lemma_grid_sets_match_layouts,
    render_layout_entries, render_layout_spec, render_pipeline_settings, render_pipeline_spec,
    set_matches, LayoutEntry, RenderPipelineSettings,
};

verus! {

/// Side length, in cells, of the grid a renderer is created with.
pub const GRID_SIDE: u32 = 32;

/// Where the renderer stands within one frame tick.
#[derive(Clone, Copy, Debug, PartialEq, Eq, Structural)]
pub enum FramePhase {
    /// No work of the current tick has been issued.
    Idle,
    /// The compute pass has been submitted.
    Updating,
    /// A frame was acquired and the draw is being recorded and submitted.
    Rendering,
    /// The frame has been presented.
    Presented,
}

/// Why the surface could not hand out the next frame.
#[derive(Clone, Copy, Debug, PartialEq, Eq, Structural)]
pub enum SurfaceErrorKind {
    Lost,
    Outdated,
    Timeout,
    OutOfMemory,
}

/// Size of the presentation surface, in physical pixels.
#[derive(Clone, Copy, Debug, PartialEq, Eq, Structural)]
pub struct SurfaceSize {
    pub width: u32,
    pub height: u32,
}

/// Window events the renderer tells apart.
#[derive(Clone, Copy, Debug, PartialEq, Eq, Structural)]
pub enum HostEvent {
    CloseRequested,
    RedrawRequested,
    Resized(SurfaceSize),
    /// Any other event (keyboard, mouse, focus, ...).
    Other,
}

/// The single draw of the render pass.
#[derive(Clone, Copy, Debug, PartialEq, Eq, Structural)]
pub struct DrawCall {
    pub vertex_count: u32,
    pub instance_count: u32,
}

/// What to do after the surface refused a frame.
#[derive(Clone, Copy, Debug, PartialEq, Eq, Structural)]
pub enum FrameAction {
    /// Configure the surface again with this size; the next frame retries.
    Reconfigure(SurfaceSize),
    /// Fatal: stop the application.
    Exit,
    /// Report the error; the next frame's acquisition retries.
    LogAndRetry,
}

/// What the event loop does with a window event.
#[derive(Clone, Copy, Debug, PartialEq, Eq, Structural)]
pub enum EventResponse {
    /// Stop the event loop.
    Exit,
    /// Run one frame: `update`, then `render`.
    RunFrame,
    /// Configure the surface with this size.
    Reconfigure(SurfaceSize),
    /// Nothing to do.
    Ignore,
}

/// The full-screen triangle: three vertices derived from the vertex index, one instance.
pub open spec fn full_screen_draw() -> DrawCall {
    DrawCall { vertex_count: 3, instance_count: 1 }
}

/// The action owed to each surface error: a lost surface is configured again with the
/// last known size, running out of memory is fatal, the rest retry on the next frame.
pub open spec fn error_action_spec(err: SurfaceErrorKind, size: SurfaceSize) -> FrameAction {
    match err {
        SurfaceErrorKind::Lost => FrameAction::Reconfigure(size),
        SurfaceErrorKind::OutOfMemory => FrameAction::Exit,
        SurfaceErrorKind::Outdated => FrameAction::LogAndRetry,
        SurfaceErrorKind::Timeout => FrameAction::LogAndRetry,
    }
}

/// A size the surface can be configured with.
pub open spec fn is_presentable(size: SurfaceSize) -> bool {
    size.width > 0 && size.height > 0
}

/// What a renderer holds: the grid, the two binding layouts and the render pipeline's
/// settings (all fixed at creation), the size the surface is configured with, and where
/// the current frame stands.
pub struct RendererView {
    pub grid: GridView,
    pub render_layout: Seq<LayoutEntry>,
    pub compute_layout: Seq<LayoutEntry>,
    pub pipeline: RenderPipelineSettings,
    pub surface_size: SurfaceSize,
    pub phase: FramePhase,
}

impl RendererView {
    /// The same renderer in another phase.
    pub open spec fn with_phase(self, phase: FramePhase) -> RendererView {
        RendererView { phase, ..self }
    }

    /// The state after `update`: compute submitted, nothing else changed.
    pub open spec fn updated(self) -> RendererView {
        self.with_phase(FramePhase::Updating)
    }

    /// The state after `render` was handed the outcome of a frame acquisition.
    pub open spec fn rendered(self, acquired: Result<(), SurfaceErrorKind>) -> RendererView {
        self.with_phase(if acquired is Ok { FramePhase::Rendering } else { FramePhase::Idle })
    }

    /// The state after `present`.
    pub open spec fn presented(self) -> RendererView {
        if self.phase == FramePhase::Rendering {
            self.with_phase(FramePhase::Presented)
        } else {
            self
        }
    }

    /// One frame whose acquisition succeeds: the state after it, the compute dispatch and
    /// the draw it issued.
    pub open spec fn frame(self) -> (RendererView, Dispatch, DrawCall) {
        (
            self.updated().rendered(Ok(())).presented(),
            self.grid.dims.dispatch_spec(),
            full_screen_draw(),
        )
    }
}

/// Host-side state of the renderer. The grid, the layouts and the pipeline settings are
/// written once, at creation.
#[derive(Debug)]
pub struct Renderer {
    grid: Grid,
    render_layout: Vec<LayoutEntry>,
    compute_layout: Vec<LayoutEntry>,
    pipeline: RenderPipelineSettings,
    surface_size: SurfaceSize,
    phase: FramePhase,
}

impl View for Renderer {
    type V = RendererView;

    closed spec fn view(&self) -> RendererView {
        RendererView {
            grid: self.grid@,
            render_layout: self.render_layout@,
            compute_layout: self.compute_layout@,
            pipeline: self.pipeline,
            surface_size: self.surface_size,
            phase: self.phase,
        }
    }
}

impl Renderer {
    /// A renderer over a fresh `32 x 32` grid of random fields, for a surface of `size`.
    /// Its layouts are the render and compute layouts, each filled by the grid's binding
    /// set of the same stage.
    pub fn new(size: SurfaceSize) -> (r: Renderer)
        ensures
            r@.grid.dims == (GridDim { x: GRID_SIDE, y: GRID_SIDE }),
            r.grid_wf(),
            r@.render_layout == render_layout_spec(),
            r@.compute_layout == compute_layout_spec(),
            set_matches(r@.render_layout, r@.grid.render_set),
            set_matches(r@.compute_layout, r@.grid.compute_set),
            r@.pipeline == render_pipeline_spec(),
            r@.surface_size == size,
            r@.phase == FramePhase::Idle,
    {
        let dims = GridDim::new(GRID_SIDE, GRID_SIDE);
        assert(dims.cells() == 1024) by (nonlinear_arith)
            requires
                dims.x == 32,
                dims.y == 32,
        ;
        let grid = Grid::with_dims(dims);
        proof {
            lemma_grid_sets_match_layouts();
        }
        Renderer {
            grid,
            render_layout: render_layout_entries(),
            compute_layout: compute_layout_entries(),
            pipeline: render_pipeline_settings(),
            surface_size: size,
            phase: FramePhase::Idle,
        }
    }

    /// The renderer's grid is well formed.
    pub closed spec fn grid_wf(&self) -> bool {
        self.grid.wf()
    }

    pub fn grid(&self) -> (r: &Grid)
        requires
            self.grid_wf(),
        ensures
            r@ == self@.grid,
            r.wf(),
    {
        &self.grid
    }

    pub fn render_layout(&self) -> (r: &Vec<LayoutEntry>)
        ensures
            r@ == self@.render_layout,
    {
        &self.render_layout
    }

    pub fn compute_layout(&self) -> (r: &Vec<LayoutEntry>)
        ensures
            r@ == self@.compute_layout,
    {
        &self.compute_layout
    }

    pub fn pipeline(&self) -> (r: RenderPipelineSettings)
        ensures
            r == self@.pipeline,
    {
        self.pipeline
    }

    pub fn surface_size(&self) -> (r: SurfaceSize)
        ensures
            r == self@.surface_size,
    {
        self.surface_size
    }

    pub fn phase(&self) -> (r: FramePhase)
        ensures
            r == self@.phase,
    {
        self.phase
    }

    /// Starts the compute stage: returns the workgroup counts to dispatch, `(x / 16,
    /// y / 16, 1)` over the grid, and records that the compute pass was submitted.
    pub fn update(&mut self) -> (r: Dispatch)
        ensures
            r == old(self)@.grid.dims.dispatch_spec(),
            final(self)@ == old(self)@.updated(),
            final(self).grid_wf() == old(self).grid_wf(),
    {
        self.phase = FramePhase::Updating;
        self.grid.dims().dispatch_size()
    }

    /// Render stage, given the outcome of acquiring the next surface frame: on success
    /// the full-screen draw to record, on failure the same error, typed. The compute pass
    /// of this frame tick must have been submitted first, so that the draw samples the
    /// image it wrote.
    pub fn render(&mut self, acquired: Result<(), SurfaceErrorKind>) -> (r: Result<
        DrawCall,
        SurfaceErrorKind,
    >)
        requires
            old(self)@.phase == FramePhase::Updating,
        ensures
            acquired is Ok <==> r == Ok::<DrawCall, SurfaceErrorKind>(full_screen_draw()),
            forall|e: SurfaceErrorKind|
                acquired == Err::<(), SurfaceErrorKind>(e) <==> r == Err::<
                    DrawCall,
                    SurfaceErrorKind,
                >(e),
            final(self)@ == old(self)@.rendered(acquired),
            final(self).grid_wf() == old(self).grid_wf(),
    {
        match acquired {
            Ok(()) => {
                self.phase = FramePhase::Rendering;
                Ok(DrawCall { vertex_count: 3, instance_count: 1 })
            },
            Err(e) => {
                self.phase = FramePhase::Idle;
                Err(e)
            },
        }
    }

    /// Records that the rendered frame was presented.
    pub fn present(&mut self)
        ensures
            final(self)@ == old(self)@.presented(),
            final(self).grid_wf() == old(self).grid_wf(),
    {
        if self.phase == FramePhase::Rendering {
            self.phase = FramePhase::Presented;
        }
    }

    /// Offers an event to the renderer; `true` would mean it was fully handled. No event
    /// is handled yet.
    pub fn input(&mut self, event: &HostEvent) -> (r: bool)
        ensures
            !r,
            final(self)@ == old(self)@,
            final(self).grid_wf() == old(self).grid_wf(),
    {
        false
    }

    /// The window was resized. Only the surface's size follows; the grid keeps its
    /// resolution. A size with a zero side cannot be presented and is not taken.
    /// Returns whether the surface must be configured again.
    pub fn resize(&mut self, new_size: SurfaceSize) -> (r: bool)
        ensures
            r == is_presentable(new_size),
            final(self)@ == (RendererView {
                surface_size: if r { new_size } else { old(self)@.surface_size },
                ..old(self)@
            }),
            final(self).grid_wf() == old(self).grid_wf(),
    {
        if new_size.width > 0 && new_size.height > 0 {
            self.surface_size = new_size;
            true
        } else {
            false
        }
    }

    /// What to do after the surface refused a frame with `err`.
    pub fn surface_error_action(&self, err: SurfaceErrorKind) -> (r: FrameAction)
        ensures
            r == error_action_spec(err, self@.surface_size),
    {
        match err {
            SurfaceErrorKind::Lost => FrameAction::Reconfigure(self.surface_size),
            SurfaceErrorKind::OutOfMemory => FrameAction::Exit,
            SurfaceErrorKind::Outdated => FrameAction::LogAndRetry,
            SurfaceErrorKind::Timeout => FrameAction::LogAndRetry,
        }
    }

    /// Dispatches a window event: the renderer sees it first, then a close request stops
    /// the loop, a redraw runs a frame and a resize reconfigures the surface.
    pub fn window_event(&mut self, event: HostEvent) -> (r: EventResponse)
        ensures
            r == match event {
                HostEvent::CloseRequested => EventResponse::Exit,
                HostEvent::RedrawRequested => EventResponse::RunFrame,
                HostEvent::Resized(s) => if is_presentable(s) {
                    EventResponse::Reconfigure(s)
                } else {
                    EventResponse::Ignore
                },
                HostEvent::Other => EventResponse::Ignore,
            },
            final(self)@ == (RendererView {
                surface_size: match event {
                    HostEvent::Resized(s) => if is_presentable(s) {
                        s
                    } else {
                        old(self)@.surface_size
                    },
                    _ => old(self)@.surface_size,
                },
                ..old(self)@
            }),
            final(self).grid_wf() == old(self).grid_wf(),
    {
        if self.input(&event) {
            return EventResponse::Ignore;
        }
        match event {
            HostEvent::CloseRequested => EventResponse::Exit,
            HostEvent::RedrawRequested => EventResponse::RunFrame,
            HostEvent::Resized(s) => {
                if self.resize(s) {
                    EventResponse::Reconfigure(s)
                } else {
                    EventResponse::Ignore
                }
            },
            HostEvent::Other => EventResponse::Ignore,
        }
    }
}

/// Frames repeat: with the fields unchanged, a second successful frame submits the same
/// compute dispatch and the same draw over the same grid as the first, and leaves the
/// renderer in the same state: both frames compute their image from the same inputs.
pub proof fn lemma_frames_repeat(r: RendererView)
    ensures
        r.frame().0.frame().1 == r.frame().1,
        r.frame().0.frame().2 == r.frame().2,
        r.frame().0.frame().0 == r.frame().0,
        r.frame().0.grid == r.grid,
{
}

/// Only running out of memory is fatal: every other surface error leads to a retry.
pub proof fn lemma_only_out_of_memory_exits(err: SurfaceErrorKind, size: SurfaceSize)
    ensures
        error_action_spec(err, size) == FrameAction::Exit <==> err == SurfaceErrorKind::OutOfMemory,
{
}

} // verus!
