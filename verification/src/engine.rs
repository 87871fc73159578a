//! The outer shell: maps user commands onto the camera and delegates frame
//! production to the render core.

use vstd::prelude::*;
use crate::camera::{
    pan_one, pan_shift, zoom_next, Camera, PanDir, PAN_SPEED, ZOOM_ACCEL, ZOOM_SPEED,
};
use crate::fixed::{lemma_div_shrinks, lemma_mag_mul_le, lemma_tdiv_mag, mag, tdiv_i128, SCALE};
use crate::renderer::{FrameAction, FrameStage, Renderer, MAX_CANVAS_SIDE, MIN_ITERS, RES_STEP};

verus! {

/// The interactive application core: the camera the user steers and the
/// render core that turns it into frames.
pub struct Engine {
    pub camera: Camera,
    pub renderer: Renderer,
}

impl Engine {
    pub open spec fn well_formed(self) -> bool {
        self.camera.well_formed() && self.renderer.well_formed()
    }

    /// Builds the engine over a window of the given size: a default camera
    /// and a render core derived from it.
    pub fn new(width: u32, height: u32, now_nanos: u64) -> (e: Engine)
        requires
            width <= MAX_CANVAS_SIDE,
            height <= MAX_CANVAS_SIDE,
        ensures
            e.camera == Camera::default_spec(),
            e.renderer.camera == crate::renderer::RenderCamera::derived_spec(
                Camera::default_spec(),
            ),
            e.renderer.canvas_width == width,
            e.renderer.canvas_height == height,
            e.renderer.previous_frame_nanos == now_nanos,
            e.renderer.delta_nanos == 0,
            e.renderer.stage == FrameStage::Idle,
            e.well_formed(),
    {
        let camera = Camera::new();
        let renderer = Renderer::new(camera, width, height, now_nanos);
        Engine { camera, renderer }
    }

    /// Starts one frame: pushes the current camera into the render core
    /// (keeping the iteration budget) and begins the frame protocol.
    pub fn render(&mut self, now_nanos: u64, window_width: u32, window_height: u32) -> (a:
        FrameAction)
        requires
            old(self).well_formed(),
            old(self).renderer.stage == FrameStage::Idle,
        ensures
            final(self).camera == old(self).camera,
            final(self).renderer.camera.translation_x == old(self).camera.center_x,
            final(self).renderer.camera.translation_y == old(self).camera.center_y,
            final(self).renderer.camera.zoom == old(self).camera.zoom,
            final(self).renderer.camera.max_iters == old(self).renderer.camera.max_iters,
            final(self).renderer.canvas_width == old(self).renderer.canvas_width,
            final(self).renderer.canvas_height == old(self).renderer.canvas_height,
            final(self).renderer.previous_frame_nanos == now_nanos,
            window_width == 0 || window_height == 0 ==> a == FrameAction::Skip
                && final(self).renderer.stage == FrameStage::Idle,
            window_width > 0 && window_height > 0 ==> a == FrameAction::Acquire
                && final(self).renderer.stage == FrameStage::Acquiring,
            final(self).well_formed(),
    {
        self.renderer.update_view(self.camera);
        self.renderer.render(now_nanos, window_width, window_height)
    }

    /// Pans the view up: the center moves one zoom-scaled step along the
    /// negative vertical axis and nothing else changes.
    pub fn camera_up(&mut self)
        requires
            old(self).well_formed(),
            old(self).camera.center_y >= i64::MIN + PAN_SPEED,
        ensures
            final(self).camera == pan_one(old(self).camera, PanDir::Up),
            final(self).camera.center_x == old(self).camera.center_x,
            final(self).camera.zoom == old(self).camera.zoom,
            final(self).renderer == old(self).renderer,
            final(self).well_formed(),
    {
        let s = pan_shift_at(self.camera.zoom);
        self.camera.center_y = self.camera.center_y - s;
    }

    /// Pans the view down: the mirror image of [`Engine::camera_up`].
    pub fn camera_down(&mut self)
        requires
            old(self).well_formed(),
            old(self).camera.center_y <= i64::MAX - PAN_SPEED,
        ensures
            final(self).camera == pan_one(old(self).camera, PanDir::Down),
            final(self).camera.center_x == old(self).camera.center_x,
            final(self).camera.zoom == old(self).camera.zoom,
            final(self).renderer == old(self).renderer,
            final(self).well_formed(),
    {
        let s = pan_shift_at(self.camera.zoom);
        self.camera.center_y = self.camera.center_y + s;
    }

    /// Pans the view right: the center moves one zoom-scaled step along
    /// the positive horizontal axis.
    pub fn camera_right(&mut self)
        requires
            old(self).well_formed(),
            old(self).camera.center_x <= i64::MAX - PAN_SPEED,
        ensures
            final(self).camera == pan_one(old(self).camera, PanDir::Right),
            final(self).camera.center_y == old(self).camera.center_y,
            final(self).camera.zoom == old(self).camera.zoom,
            final(self).renderer == old(self).renderer,
            final(self).well_formed(),
    {
        let s = pan_shift_at(self.camera.zoom);
        self.camera.center_x = self.camera.center_x + s;
    }

    /// Pans the view left: the mirror image of [`Engine::camera_right`].
    pub fn camera_left(&mut self)
        requires
            old(self).well_formed(),
            old(self).camera.center_x >= i64::MIN + PAN_SPEED,
        ensures
            final(self).camera == pan_one(old(self).camera, PanDir::Left),
            final(self).camera.center_y == old(self).camera.center_y,
            final(self).camera.zoom == old(self).camera.zoom,
            final(self).renderer == old(self).renderer,
            final(self).well_formed(),
    {
        let s = pan_shift_at(self.camera.zoom);
        self.camera.center_x = self.camera.center_x - s;
    }

    /// Zooms by `delta` (in thousandths of a wheel unit): the step is
    /// scaled by the zoom speed and by the current magnification, and the
    /// result never drops below one.
    pub fn zoom(&mut self, delta: i64)
        requires
            old(self).well_formed(),
            zoom_next(old(self).camera.zoom as int, delta as int) <= i64::MAX,
        ensures
            final(self).camera.zoom == zoom_next(old(self).camera.zoom as int, delta as int),
            final(self).camera.center_x == old(self).camera.center_x,
            final(self).camera.center_y == old(self).camera.center_y,
            final(self).renderer == old(self).renderer,
            final(self).well_formed(),
    {
        let _ = self.zoom_checked(delta);
    }

    /// Zooms like [`Engine::zoom`], but first checks that the new
    /// magnification is representable; when it is not, the view is left
    /// untouched and `false` comes back.
    pub fn zoom_checked(&mut self, delta: i64) -> (ok: bool)
        requires
            old(self).well_formed(),
        ensures
            ok == (zoom_next(old(self).camera.zoom as int, delta as int) <= i64::MAX),
            ok ==> final(self).camera.zoom == zoom_next(
                old(self).camera.zoom as int,
                delta as int,
            ),
            !ok ==> final(self).camera.zoom == old(self).camera.zoom,
            final(self).camera.center_x == old(self).camera.center_x,
            final(self).camera.center_y == old(self).camera.center_y,
            final(self).renderer == old(self).renderer,
            final(self).well_formed(),
    {
        let z: i128 = self.camera.zoom as i128;
        let d: i128 = delta as i128;
        let t: i128 = tdiv_i128(d * (ZOOM_SPEED as i128), SCALE as i128);
        let g: i128 = tdiv_i128((ZOOM_ACCEL as i128) * z, SCALE as i128);
        let gain: i128 = if g < SCALE as i128 {
            SCALE as i128
        } else {
            g
        };
        proof {
            lemma_tdiv_mag(d * (ZOOM_SPEED as int), SCALE as int);
            lemma_tdiv_mag((ZOOM_ACCEL as int) * z, SCALE as int);
            lemma_mag_mul_le(d as int, ZOOM_SPEED as int, 9_223_372_036_854_775_808int, 300);
            crate::fixed::lemma_div_le(
                mag(d * (ZOOM_SPEED as int)),
                2_767_011_611_056_432_742_400int,
                SCALE as int,
            );
            lemma_mag_mul_le(ZOOM_ACCEL as int, z as int, 250, 9_223_372_036_854_775_808int);
            crate::fixed::lemma_div_le(
                mag((ZOOM_ACCEL as int) * z),
                2_305_843_009_213_693_952_000int,
                SCALE as int,
            );
            lemma_mag_mul_le(
                t as int,
                gain as int,
                2_767_011_611_056_432_742int,
                2_305_843_009_213_693_952int,
            );
        }
        let step: i128 = tdiv_i128(t * gain, SCALE as i128);
        proof {
            lemma_tdiv_mag(t as int * gain as int, SCALE as int);
        }
        let n: i128 = z + step;
        let zn: i128 = if n < SCALE as i128 {
            SCALE as i128
        } else {
            n
        };
        if zn <= i64::MAX as i128 {
            self.camera.zoom = zn as i64;
            true
        } else {
            false
        }
    }

    /// Raises the iteration budget by one step.
    pub fn resolution_up(&mut self)
        requires
            old(self).well_formed(),
            old(self).renderer.camera.max_iters <= u32::MAX - RES_STEP,
        ensures
            final(self).renderer.camera.max_iters == old(self).renderer.camera.max_iters
                + RES_STEP,
            final(self).renderer.camera.translation_x == old(self).renderer.camera.translation_x,
            final(self).renderer.camera.translation_y == old(self).renderer.camera.translation_y,
            final(self).renderer.camera.zoom == old(self).renderer.camera.zoom,
            final(self).camera == old(self).camera,
            final(self).renderer.canvas_width == old(self).renderer.canvas_width,
            final(self).renderer.canvas_height == old(self).renderer.canvas_height,
            final(self).renderer.previous_frame_nanos == old(self).renderer.previous_frame_nanos,
            final(self).renderer.delta_nanos == old(self).renderer.delta_nanos,
            final(self).renderer.stage == old(self).renderer.stage,
            final(self).well_formed(),
    {
        self.renderer.camera.max_iters = self.renderer.camera.max_iters + RES_STEP;
    }

    /// Lowers the iteration budget by one step, clamped to the floor.
    pub fn resolution_down(&mut self)
        requires
            old(self).well_formed(),
        ensures
            final(self).renderer.camera.max_iters == res_down(
                old(self).renderer.camera.max_iters as int,
            ),
            final(self).renderer.camera.translation_x == old(self).renderer.camera.translation_x,
            final(self).renderer.camera.translation_y == old(self).renderer.camera.translation_y,
            final(self).renderer.camera.zoom == old(self).renderer.camera.zoom,
            final(self).camera == old(self).camera,
            final(self).renderer.canvas_width == old(self).renderer.canvas_width,
            final(self).renderer.canvas_height == old(self).renderer.canvas_height,
            final(self).renderer.previous_frame_nanos == old(self).renderer.previous_frame_nanos,
            final(self).renderer.delta_nanos == old(self).renderer.delta_nanos,
            final(self).renderer.stage == old(self).renderer.stage,
            final(self).well_formed(),
    {
        let k = self.renderer.camera.max_iters;
        self.renderer.camera.max_iters = if k - RES_STEP < MIN_ITERS {
            MIN_ITERS
        } else {
            k - RES_STEP
        };
    }

    /// Current magnification, in thousandths.
    pub fn get_zoom(&self) -> (z: i64)
        ensures
            z == self.camera.zoom,
    {
        self.camera.zoom
    }

    /// Matches the render core to a resized window.
    pub fn resize(&mut self, width: u32, height: u32)
        requires
            old(self).well_formed(),
            width <= MAX_CANVAS_SIDE,
            height <= MAX_CANVAS_SIDE,
        ensures
            final(self).renderer.canvas_width == width,
            final(self).renderer.canvas_height == height,
            final(self).camera == old(self).camera,
            final(self).renderer.camera == old(self).renderer.camera,
            final(self).renderer.previous_frame_nanos == old(self).renderer.previous_frame_nanos,
            final(self).renderer.delta_nanos == old(self).renderer.delta_nanos,
            final(self).renderer.stage == old(self).renderer.stage,
            final(self).well_formed(),
    {
        self.renderer.resize(width, height);
    }

    /// Puts the camera back to the startup view and pushes it into the
    /// render core; the iteration budget survives the reset.
    pub fn reset_camera(&mut self)
        requires
            old(self).well_formed(),
        ensures
            final(self).camera == Camera::default_spec(),
            final(self).renderer.camera.translation_x == 0,
            final(self).renderer.camera.translation_y == 0,
            final(self).renderer.camera.zoom == SCALE,
            final(self).renderer.camera.max_iters == old(self).renderer.camera.max_iters,
            final(self).renderer.canvas_width == old(self).renderer.canvas_width,
            final(self).renderer.canvas_height == old(self).renderer.canvas_height,
            final(self).renderer.previous_frame_nanos == old(self).renderer.previous_frame_nanos,
            final(self).renderer.delta_nanos == old(self).renderer.delta_nanos,
            final(self).renderer.stage == old(self).renderer.stage,
            final(self).well_formed(),
    {
        self.camera = Camera::new();
        self.renderer.update_view(self.camera);
    }
}

/// The iteration budget after one lowering step: ten less, clamped to the
/// floor.
pub open spec fn res_down(k: int) -> int {
    if k - RES_STEP < MIN_ITERS {
        MIN_ITERS as int
    } else {
        k - RES_STEP
    }
}

/// Law: raising then lowering the iteration budget gives it back exactly;
/// lowering then raising gives it back whenever the lowering step did not
/// hit the floor.
pub proof fn lemma_resolution_round_trip(k: int)
    requires
        k >= MIN_ITERS,
    ensures
        res_down(k + RES_STEP) == k,
        k >= MIN_ITERS + RES_STEP ==> res_down(k) + RES_STEP == k,
{
}

/// How far one pan command moves at the given magnification; never more
/// than the base pan speed.
fn pan_shift_at(zoom: i64) -> (s: i64)
    requires
        zoom >= SCALE,
    ensures
        s as int == pan_shift(zoom as int),
        0 <= s <= PAN_SPEED,
{
    proof {
        lemma_div_shrinks((PAN_SPEED * SCALE) as int, SCALE as int, zoom as int);
    }
    (((PAN_SPEED * SCALE) as u64) / (zoom as u64)) as i64
}

} // verus!
