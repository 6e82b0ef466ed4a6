use global_clock::background::Rgba8;
use global_clock::compositor::{
    AcquireOutcome, Compositor, Layer, RedrawResult, SurfaceState, select_render_format,
};
use global_clock::wallclock::{TimeOfDay, UtcInstant};

#[test]
fn fresh_compositor_state() {
    let c = Compositor::new();
    assert_eq!(c.surface, SurfaceState::Unconfigured);
    assert_eq!(c.viewport.projection.x_num, 1);
    assert_eq!(c.viewport.projection.x_den, 1);
    assert_eq!(c.globe.uniforms.rotation.num, 0);
    assert_eq!(c.clock_face.config.width, 1024);
}

#[test]
fn ready_frame_renders_in_fixed_layer_order() {
    let mut c = Compositor::new();
    c.reconfigure(720, 720);
    let outcomes = vec![AcquireOutcome::Ready];
    match c.redraw(&outcomes, 720, 720) {
        RedrawResult::Rendered { reconfigures, plan } => {
            assert_eq!(reconfigures, 0);
            assert_eq!(plan.layers, vec![Layer::Background, Layer::Globe, Layer::ClockFace]);
            assert_eq!(plan.clear_color, Rgba8 { r: 0, g: 0, b: 0, a: 255 });
            assert_eq!(plan.globe_uniforms, c.globe.uniforms);
            assert_eq!(plan.clock_strokes.len(), 4);
        }
        other => panic!("expected a rendered frame, got {:?}", other),
    }
    assert_eq!(c.surface, SurfaceState::Configured { width: 720, height: 720 });
}

#[test]
fn lost_surface_reconfigures_and_completes() {
    // A lost surface is reconfigured and the acquisition retried within the
    // same redraw; the frame still completes without an error.
    let mut c = Compositor::new();
    c.reconfigure(720, 720);
    let outcomes = vec![AcquireOutcome::Lost, AcquireOutcome::Ready];
    match c.redraw(&outcomes, 720, 720) {
        RedrawResult::Rendered { reconfigures, plan } => {
            assert_eq!(reconfigures, 1);
            assert_eq!(plan.layers.len(), 3);
        }
        other => panic!("expected a rendered frame, got {:?}", other),
    }
    assert_eq!(c.surface, SurfaceState::Configured { width: 720, height: 720 });
}

#[test]
fn timeout_and_outdated_skip_the_frame() {
    let mut c = Compositor::new();
    c.reconfigure(720, 720);
    let before = c.surface;
    assert_eq!(c.redraw(&vec![AcquireOutcome::Timeout], 720, 720), RedrawResult::Skipped);
    assert_eq!(c.surface, before);
    assert_eq!(c.redraw(&vec![AcquireOutcome::Outdated], 720, 720), RedrawResult::Skipped);
    assert_eq!(c.surface, before);
}

#[test]
fn other_acquisition_errors_are_fatal() {
    let mut c = Compositor::new();
    c.reconfigure(720, 720);
    assert_eq!(c.redraw(&vec![AcquireOutcome::Failure], 720, 720), RedrawResult::Failed);
}

#[test]
fn lost_then_fatal_still_reconfigures() {
    let mut c = Compositor::new();
    c.reconfigure(100, 100);
    let outcomes = vec![AcquireOutcome::Lost, AcquireOutcome::Failure];
    assert_eq!(c.redraw(&outcomes, 640, 480), RedrawResult::Failed);
    assert_eq!(c.surface, SurfaceState::Configured { width: 640, height: 480 });
}

#[test]
fn resize_reprojects_and_reconfigures() {
    let mut c = Compositor::new();
    c.window_resized(1440, 720);
    assert_eq!(c.surface, SurfaceState::Configured { width: 1440, height: 720 });
    assert_eq!(c.viewport.projection.x_num, 720);
    assert_eq!(c.viewport.projection.x_den, 1440);
    assert_eq!(c.viewport.projection.y_num, 720);
    assert_eq!(c.viewport.projection.y_den, 720);
}

#[test]
fn update_feeds_both_components() {
    let mut c = Compositor::new();
    let utc = UtcInstant::from_parts(0, 78);
    let local = TimeOfDay::from_hms(12, 0, 0);
    c.update(&utc, &local);
    assert_eq!(c.globe.uniforms.rotation.num, 21600);
    assert_eq!(c.globe.uniforms.tilt_phase.num, 0);
    assert_eq!(c.clock_face.hour_angle.num, 43200);
    assert_eq!(c.clock_face.minute_angle.num, 0);
}

#[test]
fn update_now_stays_in_bounds() {
    // The system clock sample, whatever it reads, lands within the models'
    // ranges and is applied through the same exact formulas.
    let mut c = Compositor::new();
    let (utc, local) = c.update_now();
    assert!(utc.day_seconds < 86400);
    assert!(utc.day_of_year0 < 366);
    assert!(local.secs < 86400);
    assert_eq!(c.globe.uniforms.rotation.num, (utc.day_seconds + 21600) % 86400);
    assert_eq!(c.globe.uniforms.tilt_phase.num, (utc.day_of_year0 + 287) % 365);
    assert_eq!(c.clock_face.hour_angle.num, local.secs);
    assert_eq!(c.clock_face.minute_angle.num, local.secs % 3600);
}

#[test]
fn first_srgb_format_is_selected() {
    assert_eq!(select_render_format(&vec![false, true, true, false]), 1);
    assert_eq!(select_render_format(&vec![true, false]), 0);
}

#[test]
fn no_srgb_format_falls_back_to_first() {
    assert_eq!(select_render_format(&vec![false, false, false]), 0);
}
