//! Translation of the charting side's primitive drawing requests into the
//! operations the toolkit's vector surface performs.

use vstd::prelude::*;

use crate::color::{rgba32, pack_rgba32, Color};

verus! {

/// A stroke style as the charting side supplies it: a color and a stroke
/// width in backend units.
#[derive(Clone, Copy, Debug, PartialEq, Eq, Structural)]
pub struct ShapeStyle {
    pub color: Color,
    pub stroke_width: u32,
}

/// A text style: the requested font family by name, the font size in
/// backend units, and the text color.
#[derive(Clone, Debug, PartialEq, Eq)]
pub struct TextStyle {
    pub family: String,
    pub size: u32,
    pub color: Color,
}

/// One element of a vector path, in the charting side's coordinates.
#[derive(Clone, Copy, Debug, PartialEq, Eq, Structural)]
pub enum PathEl {
    MoveTo { x: i32, y: i32 },
    LineTo { x: i32, y: i32 },
}

/// One operation on the toolkit's paint surface.  Colors are packed in the
/// toolkit's 32-bit big-endian R, G, B, A layout; coordinates are widened
/// so that derived corners never wrap.  A text origin is kept in doubled
/// coordinates (`x2`, `y2`) so that centering on the anchor stays exact
/// over the integers.
#[derive(Clone, Debug, PartialEq, Eq)]
pub enum PaintOp {
    FillRect { x0: i64, y0: i64, x1: i64, y1: i64, color: u32 },
    StrokeRect { x0: i64, y0: i64, x1: i64, y1: i64, color: u32, width: u32 },
    StrokeLine { x0: i64, y0: i64, x1: i64, y1: i64, color: u32, width: u32 },
    StrokePath { path: Vec<PathEl>, color: u32, width: u32 },
    FillCircle { x: i64, y: i64, radius: u32, color: u32 },
    StrokeCircle { x: i64, y: i64, radius: u32, color: u32, width: u32 },
    DrawText {
        text: String,
        family: String,
        size: u32,
        color: u32,
        x2: i64,
        y2: i64,
        width: u32,
        height: u32,
    },
}

/// The operation a pixel request performs: a unit square filled at the
/// pixel's own coordinates.
pub open spec fn spec_pixel_op(point: (i32, i32), color: Color) -> PaintOp {
    PaintOp::FillRect {
        x0: point.0 as i64,
        y0: point.1 as i64,
        x1: (point.0 + 1) as i64,
        y1: (point.1 + 1) as i64,
        color: rgba32(color),
    }
}

/// The operation a line request performs.
pub open spec fn spec_line_op(from: (i32, i32), to: (i32, i32), style: ShapeStyle) -> PaintOp {
    PaintOp::StrokeLine {
        x0: from.0 as i64,
        y0: from.1 as i64,
        x1: to.0 as i64,
        y1: to.1 as i64,
        color: rgba32(style.color),
        width: style.stroke_width,
    }
}

/// The operation a rectangle request performs: a fill of the rectangle when
/// filled, a stroke of its outline otherwise.
pub open spec fn spec_rect_op(
    upper_left: (i32, i32),
    bottom_right: (i32, i32),
    style: ShapeStyle,
    fill: bool,
) -> PaintOp {
    if fill {
        PaintOp::FillRect {
            x0: upper_left.0 as i64,
            y0: upper_left.1 as i64,
            x1: bottom_right.0 as i64,
            y1: bottom_right.1 as i64,
            color: rgba32(style.color),
        }
    } else {
        PaintOp::StrokeRect {
            x0: upper_left.0 as i64,
            y0: upper_left.1 as i64,
            x1: bottom_right.0 as i64,
            y1: bottom_right.1 as i64,
            color: rgba32(style.color),
            width: style.stroke_width,
        }
    }
}

/// The operation a circle request performs: a fill when filled, a stroke of
/// the outline otherwise, so the two requests stay distinguishable.
pub open spec fn spec_circle_op(
    center: (i32, i32),
    radius: u32,
    style: ShapeStyle,
    fill: bool,
) -> PaintOp {
    if fill {
        PaintOp::FillCircle {
            x: center.0 as i64,
            y: center.1 as i64,
            radius: radius,
            color: rgba32(style.color),
        }
    } else {
        PaintOp::StrokeCircle {
            x: center.0 as i64,
            y: center.1 as i64,
            radius: radius,
            color: rgba32(style.color),
            width: style.stroke_width,
        }
    }
}

/// The path a point sequence materializes to: nothing for an empty
/// sequence; otherwise a move-to at the first point followed by a line-to
/// for every point in order — the first point again included, as a
/// deliberate zero-length opening segment.
pub open spec fn path_elements_of(points: Seq<(i32, i32)>) -> Seq<PathEl> {
    if points.len() == 0 {
        Seq::empty()
    } else {
        Seq::new(
            points.len() + 1,
            |i: int|
                if i == 0 {
                    PathEl::MoveTo { x: points[0].0, y: points[0].1 }
                } else {
                    PathEl::LineTo { x: points[i - 1].0, y: points[i - 1].1 }
                },
        )
    }
}

/// The doubled top-left origin of text centered on an anchor: twice the
/// anchor minus the measured size, exact over the integers.
pub open spec fn centered_origin2(pos: (i32, i32), measured: (u32, u32)) -> (int, int) {
    (2 * pos.0 - measured.0, 2 * pos.1 - measured.1)
}

/// Translates a pixel request.
pub fn pixel_op(point: (i32, i32), color: Color) -> (op: PaintOp)
    ensures
        op == spec_pixel_op(point, color),
{
    PaintOp::FillRect {
        x0: point.0 as i64,
        y0: point.1 as i64,
        x1: (point.0 as i64) + 1,
        y1: (point.1 as i64) + 1,
        color: pack_rgba32(color),
    }
}

/// Translates a line request.
pub fn line_op(from: (i32, i32), to: (i32, i32), style: &ShapeStyle) -> (op: PaintOp)
    ensures
        op == spec_line_op(from, to, *style),
{
    PaintOp::StrokeLine {
        x0: from.0 as i64,
        y0: from.1 as i64,
        x1: to.0 as i64,
        y1: to.1 as i64,
        color: pack_rgba32(style.color),
        width: style.stroke_width,
    }
}

/// Translates a rectangle request.
pub fn rect_op(
    upper_left: (i32, i32),
    bottom_right: (i32, i32),
    style: &ShapeStyle,
    fill: bool,
) -> (op: PaintOp)
    ensures
        op == spec_rect_op(upper_left, bottom_right, *style, fill),
{
    if fill {
        PaintOp::FillRect {
            x0: upper_left.0 as i64,
            y0: upper_left.1 as i64,
            x1: bottom_right.0 as i64,
            y1: bottom_right.1 as i64,
            color: pack_rgba32(style.color),
        }
    } else {
        PaintOp::StrokeRect {
            x0: upper_left.0 as i64,
            y0: upper_left.1 as i64,
            x1: bottom_right.0 as i64,
            y1: bottom_right.1 as i64,
            color: pack_rgba32(style.color),
            width: style.stroke_width,
        }
    }
}

/// Translates a circle request.
pub fn circle_op(center: (i32, i32), radius: u32, style: &ShapeStyle, fill: bool) -> (op: PaintOp)
    ensures
        op == spec_circle_op(center, radius, *style, fill),
{
    if fill {
        PaintOp::FillCircle {
            x: center.0 as i64,
            y: center.1 as i64,
            radius: radius,
            color: pack_rgba32(style.color),
        }
    } else {
        PaintOp::StrokeCircle {
            x: center.0 as i64,
            y: center.1 as i64,
            radius: radius,
            color: pack_rgba32(style.color),
            width: style.stroke_width,
        }
    }
}

/// Materializes the path for a point sequence, eagerly, since the surface
/// needs random access to the first point.
pub fn build_path_elements(points: &Vec<(i32, i32)>) -> (els: Vec<PathEl>)
    ensures
        els@ == path_elements_of(points@),
{
    let mut els: Vec<PathEl> = Vec::new();
    if points.len() > 0 {
        let p0 = points[0];
        els.push(PathEl::MoveTo { x: p0.0, y: p0.1 });
    }
    let mut i: usize = 0;
    while i < points.len()
        invariant
            i <= points@.len(),
            points@.len() > 0 ==> els@ =~= path_elements_of(points@).subrange(0, i + 1),
            points@.len() == 0 ==> els@ == Seq::<PathEl>::empty(),
        decreases points@.len() - i,
    {
        let p = points[i];
        els.push(PathEl::LineTo { x: p.0, y: p.1 });
        proof {
            assert(els@ =~= path_elements_of(points@).subrange(0, i + 2));
        }
        i += 1;
    }
    proof {
        if points@.len() > 0 {
            assert(els@ =~= path_elements_of(points@));
        }
    }
    els
}

/// Translates a path request: an empty point sequence issues no operation
/// at all — the resolution chosen for the empty-geometry question — and a
/// non-empty one strokes the materialized path.
pub fn path_op(points: &Vec<(i32, i32)>, style: &ShapeStyle) -> (op: Option<PaintOp>)
    ensures
        points@.len() == 0 ==> op is None,
        points@.len() > 0 ==> (op matches Some(o) && o matches PaintOp::StrokePath {
            path: els,
            color,
            width,
        } && els@ == path_elements_of(points@) && color == rgba32(style.color) && width
            == style.stroke_width),
{
    if points.len() == 0 {
        None
    } else {
        Some(
            PaintOp::StrokePath {
                path: build_path_elements(points),
                color: pack_rgba32(style.color),
                width: style.stroke_width,
            },
        )
    }
}

/// Translates a text request.  The measured size comes from the toolkit's
/// text engine, which this layer cannot run itself; the caller hands it in,
/// and the operation centers the text on the anchor from it.
pub fn text_op(text: &str, style: &TextStyle, pos: (i32, i32), measured: (u32, u32)) -> (op:
    PaintOp)
    ensures
        op matches PaintOp::DrawText { text: t, family, size, color, x2, y2, width, height }
            && t@ == text@ && family@ == style.family@ && size == style.size && color == rgba32(
            style.color,
        ) && (x2 as int, y2 as int) == centered_origin2(pos, measured) && width == measured.0
            && height == measured.1,
{
    PaintOp::DrawText {
        text: text.to_owned(),
        family: style.family.as_str().to_owned(),
        size: style.size,
        color: pack_rgba32(style.color),
        x2: 2 * (pos.0 as i64) - (measured.0 as i64),
        y2: 2 * (pos.1 as i64) - (measured.1 as i64),
        width: measured.0,
        height: measured.1,
    }
}

/// Law: translating a point sequence to a path yields no elements for an
/// empty sequence, and otherwise exactly one move-to at the first point
/// followed by one line-to per point, in order — so a one-point sequence
/// yields precisely a move-to and a line-to at that same point.
pub proof fn lemma_path_elements(points: Seq<(i32, i32)>)
    ensures
        points.len() == 0 ==> path_elements_of(points).len() == 0,
        points.len() > 0 ==> path_elements_of(points).len() == points.len() + 1,
        points.len() > 0 ==> path_elements_of(points)[0] == (PathEl::MoveTo {
            x: points[0].0,
            y: points[0].1,
        }),
        forall|i: int|
            0 <= i < points.len() ==> path_elements_of(points)[i + 1] == (PathEl::LineTo {
                x: points[i].0,
                y: points[i].1,
            }),
{
}

/// Law: a filled and an unfilled circle request at the same center and
/// radius translate to different operations — the unfilled request strokes
/// the outline rather than filling it.
pub proof fn lemma_circle_requests_distinguishable(
    center: (i32, i32),
    radius: u32,
    style: ShapeStyle,
)
    ensures
        spec_circle_op(center, radius, style, true) != spec_circle_op(
            center,
            radius,
            style,
            false,
        ),
{
}

/// Law: text drawing and text measurement agree — for the same measured
/// size, the anchor-to-origin offset of the drawn text is exactly half of
/// that measurement, stated here in doubled coordinates.
pub proof fn lemma_text_centering(pos: (i32, i32), measured: (u32, u32))
    ensures
        2 * pos.0 - centered_origin2(pos, measured).0 == measured.0,
        2 * pos.1 - centered_origin2(pos, measured).1 == measured.1,
{
}

} // verus!
