//! Render core behavior: alignment, dispatch sizes, geometry, and the
//! per-frame protocol.

use mandelbrowser::camera::Camera;
use mandelbrowser::renderer::{
    fullscreen_triangle, pad, workgroup_counts, FrameAction, FrameEvent, FrameStage, Renderer,
};

fn renderer() -> Renderer {
    Renderer::new(Camera::new(), 512, 512, 0)
}

#[test]
fn pad_rounds_up_to_alignment() {
    assert_eq!(pad(16, 50), 64);
    assert_eq!(pad(16, 64), 64);
    assert_eq!(pad(4, 5), 8);
    assert_eq!(pad(1, 37), 37);
    assert_eq!(pad(8, 0), 0);
    assert_eq!(pad(256, 1), 256);
}

#[test]
fn pad_with_zero_alignment_is_identity() {
    assert_eq!(pad(0, 37), 37);
    assert_eq!(pad(0, 0), 0);
}

#[test]
fn workgroups_cover_canvas() {
    assert_eq!(workgroup_counts(512, 512), (64, 64, 1));
    assert_eq!(workgroup_counts(17, 16), (3, 2, 1));
    assert_eq!(workgroup_counts(1, 1), (1, 1, 1));
    assert_eq!(workgroup_counts(8, 9), (1, 2, 1));
    assert_eq!(workgroup_counts(0, 5), (0, 1, 1));
}

#[test]
fn triangle_spans_twice_the_screen() {
    let v = fullscreen_triangle();
    assert_eq!(v.len(), 3);
    assert_eq!(v[0].position, [-1000, -1000]);
    assert_eq!(v[0].tex_coords, [0, 0]);
    assert_eq!(v[1].position, [-1000, 3000]);
    assert_eq!(v[1].tex_coords, [0, 2000]);
    assert_eq!(v[2].position, [3000, -1000]);
    assert_eq!(v[2].tex_coords, [2000, 0]);
}

#[test]
fn frame_protocol_happy_path() {
    let mut r = renderer();
    assert_eq!(r.stage, FrameStage::Idle);

    let a = r.render(7, 512, 512);
    assert_eq!(a, FrameAction::Acquire);
    assert_eq!(r.stage, FrameStage::Acquiring);
    assert_eq!(r.previous_frame_nanos, 7);
    assert_eq!(r.delta_nanos, 7);

    let a = r.advance(FrameEvent::AcquireSucceeded);
    assert_eq!(r.stage, FrameStage::Acquired);
    match a {
        FrameAction::DispatchCompute(cp) => {
            assert_eq!(cp.push.scale, 1000);
            assert_eq!(cp.push.translation_x, 0);
            assert_eq!(cp.push.translation_y, 0);
            assert_eq!(cp.push.max_iters, 150);
            assert_eq!(cp.groups_x, 64);
            assert_eq!(cp.groups_y, 64);
            assert_eq!(cp.groups_z, 1);
        },
        other => panic!("expected a compute dispatch, got {:?}", other),
    }

    let a = r.advance(FrameEvent::ComputeFlushed);
    assert_eq!(r.stage, FrameStage::ComputeSubmitted);
    match a {
        FrameAction::RecordGraphics(gp) => {
            assert_eq!(gp.viewport_width, 512);
            assert_eq!(gp.viewport_height, 512);
            assert_eq!(gp.clear_red, 300);
            assert_eq!(gp.clear_green, 300);
            assert_eq!(gp.clear_blue, 300);
            assert_eq!(gp.clear_alpha, 1000);
            assert_eq!(gp.vertex_count, 3);
            assert_eq!(gp.instance_count, 1);
        },
        other => panic!("expected a graphics pass, got {:?}", other),
    }

    let a = r.advance(FrameEvent::GraphicsQueued);
    assert_eq!(a, FrameAction::Present);
    assert_eq!(r.stage, FrameStage::GraphicsSubmitted);

    let a = r.advance(FrameEvent::Presented);
    assert_eq!(a, FrameAction::FrameDone);
    assert_eq!(r.stage, FrameStage::Idle);
}

#[test]
fn zero_width_window_skips_frame() {
    let mut r = renderer();
    let before_camera = r.camera;
    let a = r.render(9, 0, 512);
    assert_eq!(a, FrameAction::Skip);
    assert_eq!(r.stage, FrameStage::Idle);
    assert_eq!(r.camera, before_camera);
    assert_eq!(r.canvas_width, 512);
    assert_eq!(r.canvas_height, 512);
    // The timing policy is applied even for skipped frames.
    assert_eq!(r.previous_frame_nanos, 9);
    assert_eq!(r.delta_nanos, 9);
}

#[test]
fn zero_height_window_skips_frame() {
    let mut r = renderer();
    let a = r.render(3, 512, 0);
    assert_eq!(a, FrameAction::Skip);
    assert_eq!(r.stage, FrameStage::Idle);
}

#[test]
fn failed_acquire_drops_frame() {
    let mut r = renderer();
    let a = r.render(1, 512, 512);
    assert_eq!(a, FrameAction::Acquire);
    let a = r.advance(FrameEvent::AcquireFailed);
    assert_eq!(a, FrameAction::Skip);
    assert_eq!(r.stage, FrameStage::Idle);
}

#[test]
fn delta_time_tracks_frame_gaps() {
    let mut r = renderer();
    let _ = r.render(100, 512, 512);
    let _ = r.advance(FrameEvent::AcquireFailed);
    assert_eq!(r.delta_nanos, 100);
    let _ = r.render(175, 512, 512);
    assert_eq!(r.delta_nanos, 75);
    assert_eq!(r.previous_frame_nanos, 175);
    assert_eq!(r.get_delta(), 75);
}

#[test]
fn resize_changes_canvas_and_dispatch() {
    let mut r = renderer();
    r.resize(100, 60);
    assert_eq!(r.canvas_width, 100);
    assert_eq!(r.canvas_height, 60);
    let _ = r.render(1, 100, 60);
    let a = r.advance(FrameEvent::AcquireSucceeded);
    match a {
        FrameAction::DispatchCompute(cp) => {
            assert_eq!(cp.groups_x, 13);
            assert_eq!(cp.groups_y, 8);
        },
        other => panic!("expected a compute dispatch, got {:?}", other),
    }
}

#[test]
fn get_iter_reports_budget() {
    let r = renderer();
    assert_eq!(r.get_iter(), 150);
}
