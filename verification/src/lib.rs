//! A bridge that lets a charting library draw into a GUI toolkit's paint
//! surface.
//!
//! The charting side issues primitive drawing requests (pixels, lines,
//! rectangles, paths, circles, text) over integer coordinates and
//! byte-channel colors.  This crate translates each request into the
//! operation the toolkit's vector surface performs, and offers the
//! plotting-program capability that a widget host forwards its lifecycle
//! calls to.

pub mod color;
pub mod ctx;
pub mod ops;
pub mod program;
