//! Camera and engine behavior: pan, zoom, reset, resolution adjustment.

use mandelbrowser::camera::Camera;
use mandelbrowser::engine::Engine;
use mandelbrowser::renderer::RenderCamera;

fn engine() -> Engine {
    Engine::new(512, 512, 0)
}

#[test]
fn new_camera_is_default() {
    let c = Camera::new();
    assert_eq!(c.center_x, 0);
    assert_eq!(c.center_y, 0);
    assert_eq!(c.zoom, 1000);
}

#[test]
fn pan_moves_only_requested_axis() {
    let mut e = engine();
    e.camera_up();
    assert_eq!(e.camera.center_x, 0);
    assert_eq!(e.camera.center_y, -250);
    assert_eq!(e.camera.zoom, 1000);
    e.camera_right();
    assert_eq!(e.camera.center_x, 250);
    assert_eq!(e.camera.center_y, -250);
    assert_eq!(e.camera.zoom, 1000);
    e.camera_down();
    e.camera_down();
    assert_eq!(e.camera.center_x, 250);
    assert_eq!(e.camera.center_y, 250);
    e.camera_left();
    assert_eq!(e.camera.center_x, 0);
    assert_eq!(e.camera.center_y, 250);
    assert_eq!(e.camera.zoom, 1000);
}

#[test]
fn pan_step_shrinks_with_zoom() {
    // One pan at double magnification moves the center by -0.25 / 2.0,
    // i.e. -125 thousandths.
    let mut e = engine();
    e.camera.zoom = 2000;
    e.camera_up();
    assert_eq!(e.camera.center_y, -125);
    assert_eq!(e.camera.center_x, 0);
    assert_eq!(e.camera.zoom, 2000);
}

#[test]
fn zoom_scenario_from_rest() {
    // zoom(0.5) from 1.0: 1.0 + 0.5 * 0.3 * max(1.0, 0.25) = 1.15.
    let mut e = engine();
    e.zoom(500);
    assert_eq!(e.get_zoom(), 1150);
}

#[test]
fn zoom_never_drops_below_one() {
    let mut e = engine();
    for _ in 0..10 {
        e.zoom(-500);
        assert!(e.get_zoom() >= 1000);
    }
    assert_eq!(e.get_zoom(), 1000);
    e.zoom(500);
    e.zoom(500);
    e.zoom(-5000);
    assert!(e.get_zoom() >= 1000);
}

#[test]
fn zoom_step_scales_with_magnification() {
    // At zoom 8.0 the gain is 0.25 * 8.0 = 2.0, so zoom(0.5) adds
    // 0.5 * 0.3 * 2.0 = 0.3.
    let mut e = engine();
    e.camera.zoom = 8000;
    e.zoom(500);
    assert_eq!(e.get_zoom(), 8300);
}

#[test]
fn zoom_checked_reports_overflow() {
    let mut e = engine();
    e.camera.zoom = i64::MAX - 1;
    let ok = e.zoom_checked(i64::MAX);
    assert!(!ok);
    assert_eq!(e.camera.zoom, i64::MAX - 1);
    let ok = e.zoom_checked(0);
    assert!(ok);
}

#[test]
fn reset_restores_default_view() {
    let mut e = engine();
    e.camera_up();
    e.camera_left();
    e.zoom(500);
    e.reset_camera();
    assert_eq!(e.camera.center_x, 0);
    assert_eq!(e.camera.center_y, 0);
    assert_eq!(e.camera.zoom, 1000);
    assert_eq!(e.renderer.camera.translation_x, 0);
    assert_eq!(e.renderer.camera.translation_y, 0);
    assert_eq!(e.renderer.camera.zoom, 1000);
}

#[test]
fn reset_keeps_iteration_budget() {
    let mut e = engine();
    e.resolution_up();
    let budget = e.renderer.camera.max_iters;
    e.reset_camera();
    assert_eq!(e.renderer.camera.max_iters, budget);
}

#[test]
fn resolution_never_drops_below_floor() {
    let mut e = engine();
    // The initial derived budget is 150; forty downward steps bottom out
    // at the floor of 10.
    for _ in 0..40 {
        e.resolution_down();
        assert!(e.renderer.camera.max_iters >= 10);
    }
    assert_eq!(e.renderer.camera.max_iters, 10);
}

#[test]
fn resolution_up_then_down_is_identity() {
    let mut e = engine();
    let start = e.renderer.camera.max_iters;
    e.resolution_up();
    assert_eq!(e.renderer.camera.max_iters, start + 10);
    e.resolution_down();
    assert_eq!(e.renderer.camera.max_iters, start);
}

#[test]
fn resolution_down_then_up_is_identity_above_floor() {
    let mut e = engine();
    let start = e.renderer.camera.max_iters;
    assert!(start >= 20);
    e.resolution_down();
    e.resolution_up();
    assert_eq!(e.renderer.camera.max_iters, start);
}

#[test]
fn resolution_down_then_up_at_floor_overshoots() {
    let mut e = engine();
    for _ in 0..40 {
        e.resolution_down();
    }
    assert_eq!(e.renderer.camera.max_iters, 10);
    e.resolution_down();
    e.resolution_up();
    assert_eq!(e.renderer.camera.max_iters, 20);
}

#[test]
fn base_render_camera_has_base_budget() {
    let rc = RenderCamera::new();
    assert_eq!(rc.max_iters, 300);
    assert_eq!(rc.zoom, 1000);
    assert_eq!(rc.translation_x, 0);
    assert_eq!(rc.translation_y, 0);
}

#[test]
fn derived_budget_scales_with_zoom() {
    let mut cam = Camera::new();
    let rc = RenderCamera::from_camera(cam);
    assert_eq!(rc.max_iters, 150);
    cam.zoom = 2000;
    let rc = RenderCamera::from_camera(cam);
    assert_eq!(rc.max_iters, 300);
}

#[test]
fn update_view_merges_and_keeps_budget() {
    let mut e = engine();
    let budget = e.renderer.camera.max_iters;
    e.camera_down();
    e.camera_right();
    let action = e.render(5, 512, 512);
    assert!(matches!(action, mandelbrowser::renderer::FrameAction::Acquire));
    assert_eq!(e.renderer.camera.translation_x, 250);
    assert_eq!(e.renderer.camera.translation_y, 250);
    assert_eq!(e.renderer.camera.zoom, 1000);
    assert_eq!(e.renderer.camera.max_iters, budget);
}
