use global_clock::clock_face::{ClockFace, Config, StrokeCommand, clear_color, stroke_style};
use global_clock::wallclock::TimeOfDay;

#[test]
fn default_dial_layout() {
    let cfg = Config::default();
    assert_eq!(cfg.width, 1024);
    assert_eq!(cfg.major_ticks, 4);
    assert_eq!(cfg.minor_ticks, 5);
    assert_eq!(cfg.major_inner_milli, 850);
    assert_eq!(cfg.major_outer_milli, 950);
    assert_eq!(cfg.minor_inner_milli, 900);
    assert_eq!(cfg.minor_outer_milli, 950);
    assert_eq!(cfg.hour_hand_milli, 400);
    assert_eq!(cfg.minute_hand_milli, 600);
}

#[test]
fn stroke_plan_shape_and_ticks() {
    let face = ClockFace::new();
    let plan = face.draw();
    assert_eq!(plan.len(), 4);
    assert_eq!(plan[0].width_milli, 20);
    assert_eq!(plan[1].width_milli, 15);
    assert_eq!(plan[2].width_milli, 20);
    assert_eq!(plan[3].width_milli, 15);

    // Four full-length major ticks, a quarter turn apart.
    assert_eq!(plan[0].segments.len(), 4);
    for (k, seg) in plan[0].segments.iter().enumerate() {
        assert_eq!(seg.angle.num, k as u32);
        assert_eq!(seg.angle.den, 4);
        assert_eq!(seg.inner_milli, 850);
        assert_eq!(seg.outer_milli, 950);
    }

    // Five short ticks inside each of the four major intervals, on a grid
    // of 24ths of a turn, skipping the grid points the major ticks occupy.
    assert_eq!(plan[1].segments.len(), 20);
    for seg in plan[1].segments.iter() {
        assert_eq!(seg.angle.den, 24);
        assert_ne!(seg.angle.num % 6, 0);
        assert_eq!(seg.inner_milli, 900);
        assert_eq!(seg.outer_milli, 950);
    }
    assert_eq!(plan[1].segments[0].angle.num, 1);
    assert_eq!(plan[1].segments[4].angle.num, 5);
    assert_eq!(plan[1].segments[5].angle.num, 7);
    assert_eq!(plan[1].segments[19].angle.num, 23);
}

#[test]
fn hands_follow_set_time() {
    let mut face = ClockFace::new();
    face.set_time(&TimeOfDay::from_hms(6, 30, 0));
    let plan = face.draw();
    // Hour hand: one segment from the center, 0.4 of the radius long.
    assert_eq!(plan[2].segments.len(), 1);
    let hour = &plan[2].segments[0];
    assert_eq!(hour.angle.num, 23400);
    assert_eq!(hour.angle.den, 86400);
    assert_eq!(hour.inner_milli, 0);
    assert_eq!(hour.outer_milli, 400);
    // Minute hand: one segment from the center, 0.6 of the radius long.
    assert_eq!(plan[3].segments.len(), 1);
    let minute = &plan[3].segments[0];
    assert_eq!(minute.angle.num, 1800);
    assert_eq!(minute.angle.den, 3600);
    assert_eq!(minute.inner_milli, 0);
    assert_eq!(minute.outer_milli, 600);
}

#[test]
fn set_time_keeps_layout() {
    let mut face = ClockFace::new();
    let before = face.config;
    face.set_time(&TimeOfDay::from_hms(23, 59, 59));
    assert_eq!(face.config, before);
}

#[test]
fn paint_and_clear_constants() {
    let style = stroke_style();
    assert_eq!(style.red_milli, 1000);
    assert_eq!(style.green_milli, 1000);
    assert_eq!(style.blue_milli, 1000);
    assert_eq!(style.alpha_milli, 500);
    assert!(style.anti_alias);
    assert!(style.round_cap);
    let clear = clear_color();
    assert_eq!((clear.r, clear.g, clear.b, clear.a), (0, 0, 0, 0));
}

#[test]
fn stroke_plan_is_pure_in_the_hand_angles() {
    let mut a = ClockFace::new();
    let mut b = ClockFace::new();
    a.set_time(&TimeOfDay::from_hms(10, 8, 23));
    b.set_time(&TimeOfDay::from_hms(10, 8, 23));
    assert_eq!(a.draw(), b.draw());
    let mut c = ClockFace::new();
    c.set_time(&TimeOfDay::from_hms(10, 8, 24));
    assert_ne!(a.draw(), c.draw());
}

fn rasterize(plan: &[StrokeCommand], width: u32) -> tiny_skia::Pixmap {
    let style = stroke_style();
    let mut paint = tiny_skia::Paint::default();
    paint.set_color(
        tiny_skia::Color::from_rgba(
            style.red_milli as f32 / 1000.0,
            style.green_milli as f32 / 1000.0,
            style.blue_milli as f32 / 1000.0,
            style.alpha_milli as f32 / 1000.0,
        )
        .unwrap(),
    );
    paint.anti_alias = style.anti_alias;

    let transform = tiny_skia::Transform::identity()
        .post_translate(1.0, -1.0)
        .post_scale(width as f32 / 2.0, width as f32 / -2.0);

    let mut pixmap = tiny_skia::Pixmap::new(width, width).unwrap();
    let clear = clear_color();
    pixmap.fill(
        tiny_skia::Color::from_rgba8(clear.r, clear.g, clear.b, clear.a),
    );
    for (i, command) in plan.iter().enumerate() {
        let mut pb = tiny_skia::PathBuilder::new();
        for seg in command.segments.iter() {
            let angle =
                seg.angle.num as f32 / seg.angle.den as f32 * std::f32::consts::TAU;
            // Ticks radiate from the +X axis counterclockwise; hands swing
            // clockwise from the dial's up axis.
            let (dx, dy) = if i < 2 {
                (angle.cos(), angle.sin())
            } else {
                (angle.sin(), angle.cos())
            };
            pb.move_to(seg.inner_milli as f32 / 1000.0 * dx, seg.inner_milli as f32 / 1000.0 * dy);
            pb.line_to(seg.outer_milli as f32 / 1000.0 * dx, seg.outer_milli as f32 / 1000.0 * dy);
        }
        let path = pb.finish().unwrap();
        let mut stroke = tiny_skia::Stroke::default();
        stroke.width = command.width_milli as f32 / 1000.0;
        stroke.line_cap = tiny_skia::LineCap::Round;
        pixmap.stroke_path(&path, &paint, &stroke, transform, None);
    }
    pixmap
}

#[test]
fn rasterized_pixels_are_identical_for_identical_angles() {
    let mut a = ClockFace::new();
    let mut b = ClockFace::new();
    a.set_time(&TimeOfDay::from_hms(3, 41, 9));
    b.set_time(&TimeOfDay::from_hms(3, 41, 9));
    let pix_a = rasterize(&a.draw(), 256);
    let pix_b = rasterize(&b.draw(), 256);
    assert_eq!(pix_a.data(), pix_b.data());
    // The dial actually leaves a mark: the clear is overwritten somewhere.
    assert!(pix_a.data().iter().any(|&byte| byte != 0));
}
