//! Escape-time iteration, pixel mapping and pixel shading.

use mandelbrowser::fractal::{escape_iterations, pixel_color, pixel_to_plane, shade_pixel};

#[test]
fn far_point_escapes_immediately() {
    // c = 3: the first step lands at 3*3 + 3 = 12, far outside the circle.
    assert_eq!(escape_iterations(3000, 0, 50), 0);
}

#[test]
fn origin_never_escapes() {
    // c = 0: the orbit is constantly zero and the periodicity shortcut
    // fires at once; the result is still the full budget.
    assert_eq!(escape_iterations(0, 0, 77), 77);
}

#[test]
fn minus_one_cycles() {
    // c = -1: the orbit alternates between 0 and -1 forever.
    assert_eq!(escape_iterations(-1000, 0, 64), 64);
}

#[test]
fn half_escapes_after_four_steps() {
    // c = 0.5 in thousandths: 500 -> 750 -> 1062 -> 1627 -> 3147 -> 10403;
    // the fifth orbit point is the first outside the circle.
    assert_eq!(escape_iterations(500, 0, 300), 4);
}

#[test]
fn budget_caps_the_count() {
    // Same point, but the budget runs out before the escape.
    assert_eq!(escape_iterations(500, 0, 3), 3);
}

#[test]
fn zero_budget_returns_zero() {
    assert_eq!(escape_iterations(500, 0, 0), 0);
}

#[test]
fn interior_bulb_point_runs_full_budget() {
    // c = -0.1: well inside the main cardioid.
    assert_eq!(escape_iterations(-100, 0, 500), 500);
}

#[test]
fn canvas_center_maps_to_translation() {
    // The pixel halfway across a square canvas sits at the horizontal
    // center of the view, two units below its top.
    assert_eq!(pixel_to_plane(400, 0, 800, 800, 1000, 0, 0), (0, -2000));
}

#[test]
fn canvas_origin_maps_left_of_center() {
    assert_eq!(pixel_to_plane(0, 0, 800, 800, 1000, 0, 0), (-2000, -2000));
}

#[test]
fn zoom_narrows_the_mapped_span() {
    // At double magnification the offsets halve, then the translation
    // shifts the point.
    assert_eq!(pixel_to_plane(0, 0, 800, 800, 2000, 100, 200), (-900, -800));
}

#[test]
fn aspect_ratio_stretches_horizontally() {
    // A canvas twice as wide maps its right half twice as far out.
    let (x, _y) = pixel_to_plane(1599, 400, 1600, 800, 1000, 0, 0);
    // x_norm = 999, span = 999 * 4 = 3996, aspect doubles it: 7992 - 2000.
    assert_eq!(x, 5992);
}

#[test]
fn shade_is_survived_fraction() {
    assert_eq!(pixel_color(150, 300), (500, 500, 500, 100));
    assert_eq!(pixel_color(300, 300), (1000, 1000, 1000, 100));
    assert_eq!(pixel_color(0, 10), (0, 0, 0, 100));
    assert_eq!(pixel_color(1, 3), (333, 333, 333, 100));
}

#[test]
fn mapped_points_feed_the_iteration() {
    // End to end on the CPU model: map a pixel, then iterate it.
    let (cx, cy) = pixel_to_plane(400, 400, 800, 800, 1000, 0, 0);
    assert_eq!((cx, cy), (0, 0));
    assert_eq!(escape_iterations(cx, cy, 300), 300);
    let (cx, cy) = pixel_to_plane(799, 400, 800, 800, 1000, 0, 0);
    assert!(cx > 1500);
    assert!(escape_iterations(cx, cy, 300) < 300);
}

#[test]
fn shade_pixel_composes_map_iterate_color() {
    // The canvas center maps to the origin, which never escapes: full
    // shade at translucent alpha.
    assert_eq!(shade_pixel(400, 400, 800, 800, 1000, 0, 0, 300), (1000, 1000, 1000, 100));
    // The right edge escapes immediately: zero shade.
    assert_eq!(shade_pixel(799, 400, 800, 800, 1000, 0, 0, 300).0, 0);
}
