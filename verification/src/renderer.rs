//! The render core: the derived camera the compute stage consumes, the
//! fixed full-screen geometry, alignment and dispatch-size formulas, and
//! the per-frame protocol that sequences acquisition, compute, graphics
//! and presentation.
//!
//! The GPU itself sits outside this crate; the renderer here decides, for
//! every step of a frame, what work the host must hand to the device next,
//! and owns the bookkeeping (camera, canvas size, frame timing) that those
//! decisions read.

use vstd::prelude::*;
use crate::camera::Camera;
use crate::fixed::{tdiv, tdiv_i128, SCALE};

verus! {

/// Iteration budget of a freshly built render camera.
pub const BASE_ITERS: u32 = 300;

/// Floor for the iteration budget.
pub const MIN_ITERS: u32 = 10;

/// Step of one resolution-adjustment command.
pub const RES_STEP: u32 = 10;

/// Largest canvas side for which the dispatch-size formula stays in range.
pub const MAX_CANVAS_SIDE: u32 = u32::MAX - 7;

/// The render-ready projection of a [`Camera`], plus the iteration budget
/// the compute stage runs with.  Translation and zoom are in thousandths.
#[derive(Clone, Copy, PartialEq, Eq, Structural, Debug)]
pub struct RenderCamera {
    pub translation_x: i64,
    pub translation_y: i64,
    pub zoom: i64,
    pub max_iters: u32,
}

/// The iteration budget derived from a zoom factor: three tenths of the
/// zoom, saturated to the `u32` range, then halved.
pub open spec fn derived_iters(zoom: int) -> int {
    let raw = tdiv(zoom * ZOOM_ITER_NUMER as int, SCALE as int);
    (if raw > u32::MAX { u32::MAX as int } else { raw }) / 2
}

/// Numerator that ties the iteration budget to the zoom factor: the budget
/// grows by three tenths of a zoom unit (pre-halving), in thousandths.
pub const ZOOM_ITER_NUMER: i64 = 300;

impl RenderCamera {
    /// The budget never drops below the floor, and the zoom factor carried
    /// over from the camera is at least one.
    pub open spec fn well_formed(self) -> bool {
        self.zoom >= SCALE && self.max_iters >= MIN_ITERS
    }

    /// What a render camera freshly derived from a view looks like.
    pub open spec fn derived_spec(cam: Camera) -> RenderCamera {
        RenderCamera {
            translation_x: cam.center_x,
            translation_y: cam.center_y,
            zoom: cam.zoom,
            max_iters: derived_iters(cam.zoom as int) as u32,
        }
    }

    /// Builds the base render camera: centered, unmagnified, with the base
    /// iteration budget.
    pub fn new() -> (rc: RenderCamera)
        ensures
            rc.translation_x == 0,
            rc.translation_y == 0,
            rc.zoom == SCALE,
            rc.max_iters == BASE_ITERS,
            rc.well_formed(),
    {
        RenderCamera { translation_x: 0, translation_y: 0, zoom: SCALE, max_iters: BASE_ITERS }
    }

    /// Derives a render camera from a view, with the zoom-scaled iteration
    /// budget.
    pub fn from_camera(cam: Camera) -> (rc: RenderCamera)
        requires
            cam.well_formed(),
        ensures
            rc == RenderCamera::derived_spec(cam),
            rc.well_formed(),
    {
        let raw: i128 = tdiv_i128((cam.zoom as i128) * (ZOOM_ITER_NUMER as i128), SCALE as i128);
        proof {
            crate::fixed::lemma_div_le(
                (SCALE * ZOOM_ITER_NUMER) as int,
                cam.zoom * ZOOM_ITER_NUMER,
                SCALE as int,
            );
        }
        let capped: u32 = if raw > u32::MAX as i128 {
            u32::MAX
        } else {
            raw as u32
        };
        let iters: u32 = capped / 2;
        RenderCamera {
            translation_x: cam.center_x,
            translation_y: cam.center_y,
            zoom: cam.zoom,
            max_iters: iters,
        }
    }
}

/// One corner of the fixed full-screen triangle, in thousandths of a
/// normalized device coordinate.
#[derive(Clone, Copy, PartialEq, Debug)]
pub struct Vertex {
    pub position: [i64; 2],
    pub tex_coords: [i64; 2],
}

/// Builds the fixed triangle that covers the whole viewport: three corners
/// spanning twice the screen so one draw fills every pixel.
pub fn fullscreen_triangle() -> (v: Vec<Vertex>)
    ensures
        v@.len() == 3,
        v@[0] == (Vertex { position: [-1000i64, -1000i64], tex_coords: [0i64, 0i64] }),
        v@[1] == (Vertex { position: [-1000i64, 3000i64], tex_coords: [0i64, 2000i64] }),
        v@[2] == (Vertex { position: [3000i64, -1000i64], tex_coords: [2000i64, 0i64] }),
{
    let mut v: Vec<Vertex> = Vec::new();
    v.push(Vertex { position: [-1000, -1000], tex_coords: [0, 0] });
    v.push(Vertex { position: [-1000, 3000], tex_coords: [0, 2000] });
    v.push(Vertex { position: [3000, -1000], tex_coords: [2000, 0] });
    v
}

/// Whether `min` is a power of two: exactly one bit set.
pub open spec fn is_pow2(min: u32) -> bool {
    min >= 1 && (min & ((min - 1) as u32)) == 0
}

/// Rounds `original` up to the next multiple of `min`, where `min` is zero
/// or a power of two; a zero `min` imposes no alignment.
pub fn pad(min: u32, original: u32) -> (r: u32)
    requires
        min == 0 || is_pow2(min),
        original + min <= 0x1_0000_0000,
    ensures
        min == 0 ==> r == original,
        min > 0 ==> r % min == 0 && original <= r && r < original + min,
{
    if min > 0 {
        let m1 = min - 1;
        let s = original + m1;
        let r = s & !m1;
        proof {
            assert(r % min == 0 && original <= r && r < original + min) by (bit_vector)
                requires
                    s == original + m1,
                    r == s & !m1,
                    (min & m1) == 0,
                    min >= 1,
                    m1 == min - 1,
                    original + min <= 0x1_0000_0000,
            ;
        }
        r
    } else {
        original
    }
}

/// Number of compute workgroups that cover a canvas: the side divided by
/// the workgroup side, rounded up, and a single layer in depth.
pub fn workgroup_counts(width: u32, height: u32) -> (g: (u32, u32, u32))
    requires
        width <= MAX_CANVAS_SIDE,
        height <= MAX_CANVAS_SIDE,
    ensures
        g.0 == (width + 7) / 8,
        g.1 == (height + 7) / 8,
        g.2 == 1,
        8 * g.0 >= width,
        8 * g.1 >= height,
        width > 0 ==> 8 * (g.0 - 1) < width,
        height > 0 ==> 8 * (g.1 - 1) < height,
{
    ((width + 7) / 8, (height + 7) / 8, 1)
}

/// The stages one frame passes through; failures drop back to `Idle`.
#[derive(Clone, Copy, PartialEq, Eq, Structural, Debug)]
pub enum FrameStage {
    Idle,
    Acquiring,
    Acquired,
    ComputeSubmitted,
    GraphicsSubmitted,
}

/// What the host reports back after performing the last requested action.
#[derive(Clone, Copy, PartialEq, Eq, Structural, Debug)]
pub enum FrameEvent {
    AcquireSucceeded,
    AcquireFailed,
    ComputeFlushed,
    GraphicsQueued,
    Presented,
}

/// The per-dispatch parameter block the compute stage consumes, in
/// thousandths where fractional.
#[derive(Clone, Copy, PartialEq, Eq, Structural, Debug)]
pub struct PushConstants {
    pub scale: i64,
    pub translation_x: i64,
    pub translation_y: i64,
    pub max_iters: u32,
}

/// Everything the host needs to record and submit the compute dispatch.
#[derive(Clone, Copy, PartialEq, Eq, Structural, Debug)]
pub struct ComputePass {
    pub push: PushConstants,
    pub groups_x: u32,
    pub groups_y: u32,
    pub groups_z: u32,
}

/// Everything the host needs to record the full-screen graphics pass.
#[derive(Clone, Copy, PartialEq, Eq, Structural, Debug)]
pub struct GraphicsPass {
    pub viewport_width: u32,
    pub viewport_height: u32,
    pub clear_red: i64,
    pub clear_green: i64,
    pub clear_blue: i64,
    pub clear_alpha: i64,
    pub vertex_count: u32,
    pub instance_count: u32,
}

/// The next piece of work the host must perform for the current frame.
#[derive(Clone, Copy, PartialEq, Eq, Structural, Debug)]
pub enum FrameAction {
    Skip,
    Acquire,
    DispatchCompute(ComputePass),
    RecordGraphics(GraphicsPass),
    Present,
    FrameDone,
}

/// The render core: the camera the shader consumes, the canvas size, frame
/// timing, and the stage the current frame has reached.
#[derive(Clone, Copy, PartialEq, Eq, Structural, Debug)]
pub struct Renderer {
    pub camera: RenderCamera,
    pub canvas_width: u32,
    pub canvas_height: u32,
    pub previous_frame_nanos: u64,
    pub delta_nanos: u64,
    pub stage: FrameStage,
}

impl Renderer {
    /// Valid camera, and a canvas whose dispatch grid stays in range.
    pub open spec fn well_formed(self) -> bool {
        self.camera.well_formed() && self.canvas_width <= MAX_CANVAS_SIDE && self.canvas_height
            <= MAX_CANVAS_SIDE
    }

    /// The compute dispatch for the current camera and canvas: push
    /// constants straight from the render camera, and one workgroup per
    /// eight-by-eight pixel tile, rounded up.
    pub open spec fn compute_plan_spec(self) -> ComputePass {
        ComputePass {
            push: PushConstants {
                scale: self.camera.zoom,
                translation_x: self.camera.translation_x,
                translation_y: self.camera.translation_y,
                max_iters: self.camera.max_iters,
            },
            groups_x: ((self.canvas_width + 7) / 8) as u32,
            groups_y: ((self.canvas_height + 7) / 8) as u32,
            groups_z: 1,
        }
    }

    /// The graphics pass for the current canvas: a viewport covering the
    /// canvas, a fixed grey clear, and one draw of the full-screen
    /// triangle.
    pub open spec fn graphics_plan_spec(self) -> GraphicsPass {
        GraphicsPass {
            viewport_width: self.canvas_width,
            viewport_height: self.canvas_height,
            clear_red: 300,
            clear_green: 300,
            clear_blue: 300,
            clear_alpha: 1000,
            vertex_count: 3,
            instance_count: 1,
        }
    }

    /// Which event the protocol is waiting for at each stage.
    pub open spec fn expects(self, event: FrameEvent) -> bool {
        stage_expects(self.stage, event)
    }

    /// Builds the render core from the initial view: the camera is derived
    /// from the view, the canvas matches the window, and timing starts at
    /// the given instant with no frame pending.
    pub fn new(camera: Camera, width: u32, height: u32, now_nanos: u64) -> (r: Renderer)
        requires
            camera.well_formed(),
            width <= MAX_CANVAS_SIDE,
            height <= MAX_CANVAS_SIDE,
        ensures
            r.camera == RenderCamera::derived_spec(camera),
            r.canvas_width == width,
            r.canvas_height == height,
            r.previous_frame_nanos == now_nanos,
            r.delta_nanos == 0,
            r.stage == FrameStage::Idle,
            r.well_formed(),
    {
        Renderer {
            camera: RenderCamera::from_camera(camera),
            canvas_width: width,
            canvas_height: height,
            previous_frame_nanos: now_nanos,
            delta_nanos: 0,
            stage: FrameStage::Idle,
        }
    }

    /// Current iteration budget.
    pub fn get_iter(&self) -> (n: u32)
        ensures
            n == self.camera.max_iters,
    {
        self.camera.max_iters
    }

    /// Time the last frame took, in nanoseconds.
    pub fn get_delta(&self) -> (d: u64)
        ensures
            d == self.delta_nanos,
    {
        self.delta_nanos
    }

    /// Takes the fresh translation and zoom from the view while keeping the
    /// iteration budget, so a user-chosen resolution survives camera
    /// updates.
    pub fn update_view(&mut self, cam: Camera)
        requires
            old(self).well_formed(),
            cam.well_formed(),
        ensures
            final(self).camera.translation_x == cam.center_x,
            final(self).camera.translation_y == cam.center_y,
            final(self).camera.zoom == cam.zoom,
            final(self).camera.max_iters == old(self).camera.max_iters,
            final(self).canvas_width == old(self).canvas_width,
            final(self).canvas_height == old(self).canvas_height,
            final(self).previous_frame_nanos == old(self).previous_frame_nanos,
            final(self).delta_nanos == old(self).delta_nanos,
            final(self).stage == old(self).stage,
            final(self).well_formed(),
    {
        let iter = self.camera.max_iters;
        let mut rc = RenderCamera::from_camera(cam);
        rc.max_iters = iter;
        self.camera = rc;
    }

    /// Matches the canvas to a resized window; takes effect with the next
    /// frame.
    pub fn resize(&mut self, width: u32, height: u32)
        requires
            old(self).well_formed(),
            width <= MAX_CANVAS_SIDE,
            height <= MAX_CANVAS_SIDE,
        ensures
            final(self).canvas_width == width,
            final(self).canvas_height == height,
            final(self).camera == old(self).camera,
            final(self).previous_frame_nanos == old(self).previous_frame_nanos,
            final(self).delta_nanos == old(self).delta_nanos,
            final(self).stage == old(self).stage,
            final(self).well_formed(),
    {
        self.canvas_width = width;
        self.canvas_height = height;
    }

    /// Starts one frame: refreshes the timing bookkeeping, skips the frame
    /// wholesale when the window has a zero side, and otherwise asks the
    /// host to acquire the next swapchain image.
    pub fn render(&mut self, now_nanos: u64, window_width: u32, window_height: u32) -> (a:
        FrameAction)
        requires
            old(self).well_formed(),
            old(self).stage == FrameStage::Idle,
        ensures
            final(self).camera == old(self).camera,
            final(self).canvas_width == old(self).canvas_width,
            final(self).canvas_height == old(self).canvas_height,
            final(self).previous_frame_nanos == now_nanos,
            final(self).delta_nanos == if now_nanos >= old(self).previous_frame_nanos {
                (now_nanos - old(self).previous_frame_nanos) as u64
            } else {
                0u64
            },
            window_width == 0 || window_height == 0 ==> a == FrameAction::Skip && final(self).stage
                == FrameStage::Idle,
            window_width > 0 && window_height > 0 ==> a == FrameAction::Acquire
                && final(self).stage == FrameStage::Acquiring,
            final(self).well_formed(),
    {
        self.delta_nanos = if now_nanos >= self.previous_frame_nanos {
            now_nanos - self.previous_frame_nanos
        } else {
            0
        };
        self.previous_frame_nanos = now_nanos;
        if window_width == 0 || window_height == 0 {
            FrameAction::Skip
        } else {
            self.stage = FrameStage::Acquiring;
            FrameAction::Acquire
        }
    }

    /// Drives the frame protocol one step: given what the host just
    /// finished, moves to the next stage and says what to do next.  A
    /// failed acquire drops the frame; the graphics pass is only handed
    /// out once the compute dispatch has been flushed, so the canvas is
    /// never sampled before it is written.
    pub fn advance(&mut self, event: FrameEvent) -> (a: FrameAction)
        requires
            old(self).well_formed(),
            old(self).expects(event),
        ensures
            final(self).camera == old(self).camera,
            final(self).canvas_width == old(self).canvas_width,
            final(self).canvas_height == old(self).canvas_height,
            final(self).previous_frame_nanos == old(self).previous_frame_nanos,
            final(self).delta_nanos == old(self).delta_nanos,
            event == FrameEvent::AcquireSucceeded ==> final(self).stage == FrameStage::Acquired
                && a == FrameAction::DispatchCompute(old(self).compute_plan_spec()),
            event == FrameEvent::AcquireFailed ==> final(self).stage == FrameStage::Idle && a
                == FrameAction::Skip,
            event == FrameEvent::ComputeFlushed ==> final(self).stage
                == FrameStage::ComputeSubmitted && a == FrameAction::RecordGraphics(
                old(self).graphics_plan_spec(),
            ),
            event == FrameEvent::GraphicsQueued ==> final(self).stage
                == FrameStage::GraphicsSubmitted && a == FrameAction::Present,
            event == FrameEvent::Presented ==> final(self).stage == FrameStage::Idle && a
                == FrameAction::FrameDone,
            final(self).stage == stage_after(event),
            final(self).well_formed(),
    {
        match event {
            FrameEvent::AcquireSucceeded => {
                self.stage = FrameStage::Acquired;
                let g = workgroup_counts(self.canvas_width, self.canvas_height);
                FrameAction::DispatchCompute(
                    ComputePass {
                        push: PushConstants {
                            scale: self.camera.zoom,
                            translation_x: self.camera.translation_x,
                            translation_y: self.camera.translation_y,
                            max_iters: self.camera.max_iters,
                        },
                        groups_x: g.0,
                        groups_y: g.1,
                        groups_z: g.2,
                    },
                )
            },
            FrameEvent::AcquireFailed => {
                self.stage = FrameStage::Idle;
                FrameAction::Skip
            },
            FrameEvent::ComputeFlushed => {
                self.stage = FrameStage::ComputeSubmitted;
                FrameAction::RecordGraphics(
                    GraphicsPass {
                        viewport_width: self.canvas_width,
                        viewport_height: self.canvas_height,
                        clear_red: 300,
                        clear_green: 300,
                        clear_blue: 300,
                        clear_alpha: 1000,
                        vertex_count: 3,
                        instance_count: 1,
                    },
                )
            },
            FrameEvent::GraphicsQueued => {
                self.stage = FrameStage::GraphicsSubmitted;
                FrameAction::Present
            },
            FrameEvent::Presented => {
                self.stage = FrameStage::Idle;
                FrameAction::FrameDone
            },
        }
    }
}


/// Which event the protocol accepts at each stage.
pub open spec fn stage_expects(stage: FrameStage, event: FrameEvent) -> bool {
    match event {
        FrameEvent::AcquireSucceeded => stage == FrameStage::Acquiring,
        FrameEvent::AcquireFailed => stage == FrameStage::Acquiring,
        FrameEvent::ComputeFlushed => stage == FrameStage::Acquired,
        FrameEvent::GraphicsQueued => stage == FrameStage::ComputeSubmitted,
        FrameEvent::Presented => stage == FrameStage::GraphicsSubmitted,
    }
}

/// The stage one accepted event leads to; [`Renderer::advance`] promises
/// to land exactly here.
pub open spec fn stage_after(event: FrameEvent) -> FrameStage {
    match event {
        FrameEvent::AcquireSucceeded => FrameStage::Acquired,
        FrameEvent::AcquireFailed => FrameStage::Idle,
        FrameEvent::ComputeFlushed => FrameStage::ComputeSubmitted,
        FrameEvent::GraphicsQueued => FrameStage::GraphicsSubmitted,
        FrameEvent::Presented => FrameStage::Idle,
    }
}

/// Whether a whole event trace is accepted, step by step, from a stage.
pub open spec fn run_accepted(stage: FrameStage, evs: Seq<FrameEvent>) -> bool
    decreases evs.len(),
{
    evs.len() == 0 || (stage_expects(stage, evs[0]) && run_accepted(
        stage_after(evs[0]),
        evs.subrange(1, evs.len() as int),
    ))
}

/// The stage a trace of accepted events ends in.
pub open spec fn run_stage(stage: FrameStage, evs: Seq<FrameEvent>) -> FrameStage
    decreases evs.len(),
{
    if evs.len() == 0 {
        stage
    } else {
        run_stage(stage_after(evs[0]), evs.subrange(1, evs.len() as int))
    }
}

/// An accepted trace can be peeled from the back: the prefix is accepted,
/// it ends in a stage that accepts the last event, and the whole trace
/// ends where that event leads.
proof fn lemma_run_last(stage: FrameStage, evs: Seq<FrameEvent>)
    requires
        evs.len() > 0,
        run_accepted(stage, evs),
    ensures
        run_accepted(stage, evs.drop_last()),
        stage_expects(run_stage(stage, evs.drop_last()), evs.last()),
        run_stage(stage, evs) == stage_after(evs.last()),
    decreases evs.len(),
{
    let rest = evs.subrange(1, evs.len() as int);
    assert(run_stage(stage, evs) == run_stage(stage_after(evs[0]), rest));
    if evs.len() == 1 {
        assert(evs.drop_last() =~= Seq::<FrameEvent>::empty());
        assert(rest =~= Seq::<FrameEvent>::empty());
        assert(run_stage(stage_after(evs[0]), rest) == stage_after(evs[0]));
        assert(evs.last() == evs[0]);
    } else {
        lemma_run_last(stage_after(evs[0]), rest);
        assert(rest.drop_last() =~= evs.drop_last().subrange(
            1,
            evs.drop_last().len() as int,
        ));
        assert(rest.last() == evs.last());
        assert(evs.drop_last()[0] == evs[0]);
        assert(run_stage(stage, evs.drop_last()) == run_stage(
            stage_after(evs[0]),
            rest.drop_last(),
        ));
    }
}

/// Law: the protocol presents a frame only through the full chain; any
/// accepted trace that has just handed out the present request ends with
/// acquire success, compute flush and graphics queue, in that order.  In
/// particular no frame is presented before its own compute pass was
/// flushed on an acquired swapchain image.
pub proof fn lemma_present_follows_compute(evs: Seq<FrameEvent>)
    requires
        run_accepted(FrameStage::Idle, evs),
        run_stage(FrameStage::Idle, evs) == FrameStage::GraphicsSubmitted,
    ensures
        evs.len() >= 3,
        evs[evs.len() - 1] == FrameEvent::GraphicsQueued,
        evs[evs.len() - 2] == FrameEvent::ComputeFlushed,
        evs[evs.len() - 3] == FrameEvent::AcquireSucceeded,
{
    assert(evs.len() > 0);
    lemma_run_last(FrameStage::Idle, evs);
    assert(evs.last() == FrameEvent::GraphicsQueued);
    let evs1 = evs.drop_last();
    assert(run_stage(FrameStage::Idle, evs1) == FrameStage::ComputeSubmitted);
    assert(evs1.len() > 0);
    lemma_run_last(FrameStage::Idle, evs1);
    assert(evs1.last() == FrameEvent::ComputeFlushed);
    let evs2 = evs1.drop_last();
    assert(run_stage(FrameStage::Idle, evs2) == FrameStage::Acquired);
    assert(evs2.len() > 0);
    lemma_run_last(FrameStage::Idle, evs2);
    assert(evs2.last() == FrameEvent::AcquireSucceeded);
    assert(evs1.last() == evs[evs.len() - 2]);
    assert(evs2.last() == evs[evs.len() - 3]);
}

} // verus!
