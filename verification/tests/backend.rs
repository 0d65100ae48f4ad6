use plotters_druid::color::{pack_rgba32, Color};
use plotters_druid::ctx::PlottingCtx;
use plotters_druid::ops::{PaintOp, PathEl, ShapeStyle, TextStyle};

fn red() -> Color {
    Color { r: 255, g: 0, b: 0, a: 255 }
}

fn style() -> ShapeStyle {
    ShapeStyle { color: red(), stroke_width: 2 }
}

#[test]
fn size_reports_construction() {
    let ctx = PlottingCtx::new(640, 480);
    assert_eq!(ctx.get_size(), (640, 480));
    assert!(ctx.ops().is_empty());
}

#[test]
fn prepare_and_present_do_nothing() {
    let mut ctx = PlottingCtx::new(10, 10);
    assert!(ctx.ensure_prepared().is_ok());
    assert!(ctx.present().is_ok());
    assert!(ctx.ops().is_empty());
}

#[test]
fn pixel_fills_unit_square() {
    let mut ctx = PlottingCtx::new(100, 100);
    ctx.draw_pixel((3, 4), red()).unwrap();
    assert_eq!(
        ctx.ops()[0],
        PaintOp::FillRect { x0: 3, y0: 4, x1: 4, y1: 5, color: 0xFF00_00FF }
    );
}

#[test]
fn line_strokes_segment() {
    let mut ctx = PlottingCtx::new(100, 100);
    ctx.draw_line((1, 2), (30, 40), &style()).unwrap();
    assert_eq!(
        ctx.ops()[0],
        PaintOp::StrokeLine { x0: 1, y0: 2, x1: 30, y1: 40, color: 0xFF00_00FF, width: 2 }
    );
}

#[test]
fn rect_filled_fills_and_unfilled_strokes() {
    let mut ctx = PlottingCtx::new(100, 100);
    ctx.draw_rect((1, 2), (9, 8), &style(), true).unwrap();
    ctx.draw_rect((1, 2), (9, 8), &style(), false).unwrap();
    assert_eq!(
        ctx.ops()[0],
        PaintOp::FillRect { x0: 1, y0: 2, x1: 9, y1: 8, color: 0xFF00_00FF }
    );
    assert_eq!(
        ctx.ops()[1],
        PaintOp::StrokeRect { x0: 1, y0: 2, x1: 9, y1: 8, color: 0xFF00_00FF, width: 2 }
    );
}

#[test]
fn empty_path_records_nothing() {
    let mut ctx = PlottingCtx::new(100, 100);
    let points: Vec<(i32, i32)> = Vec::new();
    ctx.draw_path(&points, &style()).unwrap();
    assert!(ctx.ops().is_empty());
}

#[test]
fn single_point_path_is_move_then_degenerate_line() {
    let mut ctx = PlottingCtx::new(100, 100);
    ctx.draw_path(&vec![(5, 6)], &style()).unwrap();
    assert_eq!(
        ctx.ops()[0],
        PaintOp::StrokePath {
            path: vec![PathEl::MoveTo { x: 5, y: 6 }, PathEl::LineTo { x: 5, y: 6 }],
            color: 0xFF00_00FF,
            width: 2,
        }
    );
}

#[test]
fn path_visits_every_point_in_order() {
    let mut ctx = PlottingCtx::new(100, 100);
    ctx.draw_path(&vec![(0, 0), (10, 0), (10, 10)], &style()).unwrap();
    assert_eq!(
        ctx.ops()[0],
        PaintOp::StrokePath {
            path: vec![
                PathEl::MoveTo { x: 0, y: 0 },
                PathEl::LineTo { x: 0, y: 0 },
                PathEl::LineTo { x: 10, y: 0 },
                PathEl::LineTo { x: 10, y: 10 },
            ],
            color: 0xFF00_00FF,
            width: 2,
        }
    );
}

#[test]
fn circle_requests_stay_distinguishable() {
    // The unfilled request strokes the outline instead of filling it, so a
    // filled and an unfilled circle at the same center and radius differ.
    let mut ctx = PlottingCtx::new(100, 100);
    ctx.draw_circle((7, 8), 5, &style(), true).unwrap();
    ctx.draw_circle((7, 8), 5, &style(), false).unwrap();
    assert_eq!(
        ctx.ops()[0],
        PaintOp::FillCircle { x: 7, y: 8, radius: 5, color: 0xFF00_00FF }
    );
    assert_eq!(
        ctx.ops()[1],
        PaintOp::StrokeCircle { x: 7, y: 8, radius: 5, color: 0xFF00_00FF, width: 2 }
    );
    assert_ne!(ctx.ops()[0], ctx.ops()[1]);
}

#[test]
fn text_draw_agrees_with_estimate() {
    let ts = TextStyle { family: String::from("serif"), size: 12, color: red() };
    let mut ctx = PlottingCtx::new(200, 200);
    let measured = (40, 10);
    let estimated = ctx.estimate_text_size("hello", &ts, measured).unwrap();
    ctx.draw_text("hello", &ts, (100, 50), measured).unwrap();
    match &ctx.ops()[0] {
        PaintOp::DrawText { text, family, size, color, x2, y2, width, height } => {
            assert_eq!(text, "hello");
            assert_eq!(family, "serif");
            assert_eq!(*size, 12);
            assert_eq!(*color, pack_rgba32(red()));
            // The anchor-to-origin offset is half of the estimated size:
            // in doubled coordinates, 2 * 100 - 160 == 40 and 2 * 50 - 90 == 10.
            assert_eq!(*x2, 2 * 100 - estimated.0 as i64);
            assert_eq!(*y2, 2 * 50 - estimated.1 as i64);
            assert_eq!((*width, *height), estimated);
            // The drawn origin itself: anchor minus half the measurement.
            assert_eq!(*x2 / 2, 100 - 40 / 2);
            assert_eq!(*y2 / 2, 50 - 10 / 2);
        }
        other => panic!("expected a text operation, got {:?}", other),
    }
}

#[test]
fn corner_pixel_does_not_wrap() {
    let mut ctx = PlottingCtx::new(100, 100);
    ctx.draw_pixel((i32::MAX, i32::MAX), red()).unwrap();
    assert_eq!(
        ctx.ops()[0],
        PaintOp::FillRect {
            x0: i32::MAX as i64,
            y0: i32::MAX as i64,
            x1: i32::MAX as i64 + 1,
            y1: i32::MAX as i64 + 1,
            color: 0xFF00_00FF,
        }
    );
}
