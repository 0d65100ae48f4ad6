//! The drawing surface of one paint call: it satisfies the charting side's
//! drawing contract and records, in order, the operation each request
//! performs on the toolkit surface.

use vstd::prelude::*;

use crate::color::{rgba32, Color};
use crate::ops::{
    path_elements_of, centered_origin2, path_op, pixel_op, line_op, rect_op, circle_op, text_op,
    PaintOp, ShapeStyle, TextStyle, spec_pixel_op, spec_line_op, spec_rect_op, spec_circle_op,
};

verus! {

/// The error kind the drawing contract's result channel carries.  No
/// operation of this surface ever produces it — the toolkit calls are
/// treated as non-failing — so the type carries no payload and exists only
/// to satisfy the result-typed contract.
#[derive(Clone, Copy, Debug, PartialEq, Eq, Structural)]
pub struct NoThrow;

/// The drawing surface handle for a single paint call.  It keeps the
/// surface's size for the whole call and records every translated
/// operation; its view is the recorded sequence, oldest first.
pub struct PlottingCtx {
    width: u32,
    height: u32,
    ops: Vec<PaintOp>,
}

impl View for PlottingCtx {
    type V = Seq<PaintOp>;

    closed spec fn view(&self) -> Seq<PaintOp> {
        self.ops@
    }
}

impl PlottingCtx {
    /// The surface's size, fixed for the whole paint call.
    pub closed spec fn dims(&self) -> (u32, u32) {
        (self.width, self.height)
    }

    /// A fresh surface of the given size with nothing drawn yet.
    pub fn new(width: u32, height: u32) -> (ctx: PlottingCtx)
        ensures
            ctx@ == Seq::<PaintOp>::empty(),
            ctx.dims() == (width, height),
    {
        PlottingCtx { width, height, ops: Vec::new() }
    }

    /// The recorded operations, oldest first.
    pub fn ops(&self) -> (r: &Vec<PaintOp>)
        ensures
            r@ == self@,
    {
        &self.ops
    }

    /// The surface's integer width and height.
    pub fn get_size(&self) -> (s: (u32, u32))
        ensures
            s == self.dims(),
    {
        (self.width, self.height)
    }

    /// Begin-of-frame hook.  The surface has no staging step, so nothing
    /// happens and the call always succeeds.
    pub fn ensure_prepared(&mut self) -> (r: Result<(), NoThrow>)
        ensures
            *final(self) == *old(self),
            r is Ok,
    {
        Ok(())
    }

    /// End-of-frame hook.  Likewise nothing to do; always succeeds.
    pub fn present(&mut self) -> (r: Result<(), NoThrow>)
        ensures
            *final(self) == *old(self),
            r is Ok,
    {
        Ok(())
    }

    /// Draws one pixel by filling a unit square at its coordinates.
    pub fn draw_pixel(&mut self, point: (i32, i32), color: Color) -> (r: Result<(), NoThrow>)
        ensures
            r is Ok,
            final(self).dims() == old(self).dims(),
            final(self)@ == old(self)@.push(spec_pixel_op(point, color)),
    {
        let op = pixel_op(point, color);
        self.ops.push(op);
        Ok(())
    }

    /// Strokes a line segment between two points.
    pub fn draw_line(&mut self, from: (i32, i32), to: (i32, i32), style: &ShapeStyle) -> (r:
        Result<(), NoThrow>)
        ensures
            r is Ok,
            final(self).dims() == old(self).dims(),
            final(self)@ == old(self)@.push(spec_line_op(from, to, *style)),
    {
        let op = line_op(from, to, style);
        self.ops.push(op);
        Ok(())
    }

    /// Draws a rectangle given opposite corners: filled when `fill` is set,
    /// its outline stroked otherwise.
    pub fn draw_rect(
        &mut self,
        upper_left: (i32, i32),
        bottom_right: (i32, i32),
        style: &ShapeStyle,
        fill: bool,
    ) -> (r: Result<(), NoThrow>)
        ensures
            r is Ok,
            final(self).dims() == old(self).dims(),
            final(self)@ == old(self)@.push(spec_rect_op(upper_left, bottom_right, *style, fill)),
    {
        let op = rect_op(upper_left, bottom_right, style, fill);
        self.ops.push(op);
        Ok(())
    }

    /// Draws a path through the given points.  An empty point sequence
    /// performs no operation at all; otherwise the materialized path is
    /// stroked.
    pub fn draw_path(&mut self, points: &Vec<(i32, i32)>, style: &ShapeStyle) -> (r: Result<
        (),
        NoThrow,
    >)
        ensures
            r is Ok,
            final(self).dims() == old(self).dims(),
            points@.len() == 0 ==> final(self)@ == old(self)@,
            points@.len() > 0 ==> final(self)@ == old(self)@.push(final(self)@.last()),
            points@.len() > 0 ==> (final(self)@.last() matches PaintOp::StrokePath {
                path: els,
                color,
                width,
            } && els@ == path_elements_of(points@) && color == rgba32(style.color) && width
                == style.stroke_width),
    {
        match path_op(points, style) {
            Some(op) => {
                self.ops.push(op);
            },
            None => {},
        }
        Ok(())
    }

    /// Draws a circle at a center and radius: filled when `fill` is set,
    /// its outline stroked otherwise.
    pub fn draw_circle(
        &mut self,
        center: (i32, i32),
        radius: u32,
        style: &ShapeStyle,
        fill: bool,
    ) -> (r: Result<(), NoThrow>)
        ensures
            r is Ok,
            final(self).dims() == old(self).dims(),
            final(self)@ == old(self)@.push(spec_circle_op(center, radius, *style, fill)),
    {
        let op = circle_op(center, radius, style, fill);
        self.ops.push(op);
        Ok(())
    }

    /// Draws text centered on the anchor point.  The measured size comes
    /// from the toolkit's text engine, which this surface cannot run; the
    /// caller hands it in, and the recorded origin is twice the anchor
    /// minus that measurement.
    pub fn draw_text(
        &mut self,
        text: &str,
        style: &TextStyle,
        pos: (i32, i32),
        measured: (u32, u32),
    ) -> (r: Result<(), NoThrow>)
        ensures
            r is Ok,
            final(self).dims() == old(self).dims(),
            final(self)@ == old(self)@.push(final(self)@.last()),
            final(self)@.last() matches PaintOp::DrawText {
                text: t,
                family,
                size,
                color,
                x2,
                y2,
                width,
                height,
            } && t@ == text@ && family@ == style.family@ && size == style.size && color == rgba32(
                style.color,
            ) && (x2 as int, y2 as int) == centered_origin2(pos, measured) && width == measured.0
                && height == measured.1,
    {
        let op = text_op(text, style, pos, measured);
        self.ops.push(op);
        Ok(())
    }

    /// Reports the measured size of the text as the toolkit's text engine
    /// determined it: the surface adds nothing to the measurement, so what
    /// was measured is exactly what is reported.  Always succeeds.
    pub fn estimate_text_size(&self, _text: &str, _style: &TextStyle, measured: (u32, u32)) -> (r:
        Result<(u32, u32), NoThrow>)
        ensures
            r == Ok::<(u32, u32), NoThrow>(measured),
    {
        Ok(measured)
    }
}

} // verus!
