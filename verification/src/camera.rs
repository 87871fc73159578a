//! Interactive view state: pan offset and magnification.
//!
//! Coordinates and the zoom factor are fixed-point values in thousandths of
//! a world unit.  Pan steps shrink with magnification so the apparent speed
//! stays constant, and the zoom factor never drops below one.

use vstd::prelude::*;
use crate::fixed::{tdiv, SCALE};

verus! {

/// Pan step per command: a quarter of a world unit, in thousandths.
pub const PAN_SPEED: i64 = 250;

/// Zoom gain per wheel unit: three tenths, in thousandths.
pub const ZOOM_SPEED: i64 = 300;

/// Fraction of the current zoom that scales a zoom step: a quarter,
/// in thousandths.
pub const ZOOM_ACCEL: i64 = 250;

/// The view the user steers: a pan offset and a magnification factor,
/// all in thousandths of a world unit.
#[derive(Clone, Copy, PartialEq, Eq, Structural, Debug)]
pub struct Camera {
    pub center_x: i64,
    pub center_y: i64,
    pub zoom: i64,
}

/// One pan command, along a single axis.
#[derive(Clone, Copy, PartialEq, Eq, Structural, Debug)]
pub enum PanDir {
    Up,
    Down,
    Left,
    Right,
}

impl Camera {
    /// The magnification never drops below one world unit per unit.
    pub open spec fn well_formed(self) -> bool {
        self.zoom >= SCALE
    }

    /// The startup view: centered, unmagnified.
    pub open spec fn default_spec() -> Camera {
        Camera { center_x: 0, center_y: 0, zoom: SCALE }
    }

    /// Builds the startup view.
    pub fn new() -> (c: Camera)
        ensures
            c == Camera::default_spec(),
            c.well_formed(),
    {
        Camera { center_x: 0, center_y: 0, zoom: SCALE }
    }
}

/// Fixed-point product of two milli-scaled values.
pub open spec fn fixprod(a: int, b: int) -> int {
    tdiv(a * b, SCALE as int)
}

/// How far one pan command moves the center at the given magnification:
/// the pan speed divided by the zoom factor.
pub open spec fn pan_shift(zoom: int) -> int
    recommends
        zoom >= SCALE,
{
    (PAN_SPEED * SCALE) as int / zoom
}

/// The view after one pan command: the center moves by the zoom-scaled pan
/// step along the requested axis and nothing else changes.
pub open spec fn pan_one(cam: Camera, dir: PanDir) -> Camera {
    let s = pan_shift(cam.zoom as int);
    match dir {
        PanDir::Up => Camera { center_y: (cam.center_y - s) as i64, ..cam },
        PanDir::Down => Camera { center_y: (cam.center_y + s) as i64, ..cam },
        PanDir::Right => Camera { center_x: (cam.center_x + s) as i64, ..cam },
        PanDir::Left => Camera { center_x: (cam.center_x - s) as i64, ..cam },
    }
}

/// The view after a whole sequence of pan commands.
pub open spec fn pan_applied(cam: Camera, dirs: Seq<PanDir>) -> Camera
    decreases dirs.len(),
{
    if dirs.len() == 0 {
        cam
    } else {
        pan_applied(pan_one(cam, dirs[0]), dirs.subrange(1, dirs.len() as int))
    }
}

/// Law: panning never changes the magnification, over any sequence of pan
/// commands.
pub proof fn lemma_pan_keeps_zoom(cam: Camera, dirs: Seq<PanDir>)
    ensures
        pan_applied(cam, dirs).zoom == cam.zoom,
    decreases dirs.len(),
{
    if dirs.len() > 0 {
        lemma_pan_keeps_zoom(pan_one(cam, dirs[0]), dirs.subrange(1, dirs.len() as int));
    }
}

/// Law: one pan command moves the center only along its own axis.
pub proof fn lemma_pan_axis(cam: Camera, dir: PanDir)
    ensures
        dir == PanDir::Up || dir == PanDir::Down ==> pan_one(cam, dir).center_x == cam.center_x,
        dir == PanDir::Left || dir == PanDir::Right ==> pan_one(cam, dir).center_y
            == cam.center_y,
{
}

/// Law: a sequence of purely vertical pan commands leaves the horizontal
/// center untouched, and a purely horizontal sequence the vertical one.
pub proof fn lemma_pan_sequence_axis(cam: Camera, dirs: Seq<PanDir>)
    ensures
        (forall|k: int|
            0 <= k < dirs.len() ==> dirs[k] == PanDir::Up || dirs[k] == PanDir::Down)
            ==> pan_applied(cam, dirs).center_x == cam.center_x,
        (forall|k: int|
            0 <= k < dirs.len() ==> dirs[k] == PanDir::Left || dirs[k] == PanDir::Right)
            ==> pan_applied(cam, dirs).center_y == cam.center_y,
    decreases dirs.len(),
{
    if dirs.len() > 0 {
        lemma_pan_sequence_axis(pan_one(cam, dirs[0]), dirs.subrange(1, dirs.len() as int));
        assert forall|k: int| 0 <= k < dirs.len() - 1 implies dirs.subrange(
            1,
            dirs.len() as int,
        )[k] == dirs[k + 1] by {}
    }
}

/// The factor a zoom step is scaled by: at least one, and a quarter of the
/// current zoom at high magnification.
pub open spec fn zoom_gain(zoom: int) -> int {
    let g = fixprod(ZOOM_ACCEL as int, zoom);
    if g < SCALE {
        SCALE as int
    } else {
        g
    }
}

/// The magnification after one zoom command: the delta is scaled by the
/// zoom speed and the gain, then the result is clamped to at least one.
pub open spec fn zoom_next(zoom: int, delta: int) -> int {
    let n = zoom + fixprod(fixprod(delta, ZOOM_SPEED as int), zoom_gain(zoom));
    if n < SCALE {
        SCALE as int
    } else {
        n
    }
}

/// The magnification after a whole sequence of zoom commands.
pub open spec fn zoom_applied(zoom: int, deltas: Seq<int>) -> int
    decreases deltas.len(),
{
    if deltas.len() == 0 {
        zoom
    } else {
        zoom_applied(zoom_next(zoom, deltas[0]), deltas.subrange(1, deltas.len() as int))
    }
}

/// Law: after any sequence of zoom commands the magnification is still at
/// least one.
pub proof fn lemma_zoom_floor(zoom: int, deltas: Seq<int>)
    requires
        zoom >= SCALE,
    ensures
        zoom_applied(zoom, deltas) >= SCALE,
    decreases deltas.len(),
{
    if deltas.len() > 0 {
        lemma_zoom_floor(zoom_next(zoom, deltas[0]), deltas.subrange(1, deltas.len() as int));
    }
}

} // verus!
