//! The plotting-program capability: five widget lifecycle hooks, four with
//! harmless defaults, and the paint mediation that scopes a drawing
//! surface to a single paint call.

use vstd::prelude::*;

use crate::ctx::PlottingCtx;

verus! {

/// The size a plotting program asks the layout pass for.
#[derive(Clone, Copy, Debug, PartialEq, Eq, Structural)]
pub struct PlotSize {
    pub width: u32,
    pub height: u32,
}

/// The side of the square a program falls back to when it does not choose
/// a size of its own.  The value carries no meaning beyond being a usable
/// fallback.
pub const DEFAULT_PLOT_SIDE: u32 = 500;

/// A plotting program: a capability a concrete chart implements, with a
/// hook for each widget lifecycle phase.  Every hook but the drawing one
/// has a harmless default, so a chart implements only what it needs.
pub trait PlottingProgram<T> {
    /// Reacts to an input event.  By default nothing happens and the data
    /// is left as it was.
    fn handle_event(&mut self, data: &mut T)
        default_ensures
            *final(data) == *old(data),
    {
    }

    /// Reacts to a lifecycle notification.  By default nothing happens.
    fn handle_lifecycle(&mut self, data: &T) {
    }

    /// Chooses the widget's size for the layout pass.  A program that does
    /// not override this yields exactly the fixed fallback square.
    fn layout_plot(&mut self, data: &T) -> (size: PlotSize)
        default_ensures
            size == (PlotSize { width: DEFAULT_PLOT_SIDE, height: DEFAULT_PLOT_SIDE }),
    {
        PlotSize { width: DEFAULT_PLOT_SIDE, height: DEFAULT_PLOT_SIDE }
    }

    /// Reacts to a change of the data.  By default nothing happens.
    fn update_self(&mut self, old_data: &T, data: &T) {
    }

    /// Draws the plot on the surface of the current paint call.  A program
    /// may record any operations but leaves the surface's size as it found
    /// it; the default draws nothing at all.
    fn draw_plot(&mut self, ctx: &mut PlottingCtx, data: &T)
        ensures
            final(ctx).dims() == old(ctx).dims(),
        default_ensures
            *final(ctx) == *old(ctx),
    {
    }
}

/// One paint call: builds a drawing surface of the given size, scoped to
/// this call alone, hands it to the program, and returns it with the
/// operations the program recorded.
pub fn run_paint<T, P: PlottingProgram<T>>(
    program: &mut P,
    data: &T,
    width: u32,
    height: u32,
) -> (ctx: PlottingCtx)
    ensures
        ctx.dims() == (width, height),
{
    let mut ctx = PlottingCtx::new(width, height);
    program.draw_plot(&mut ctx, data);
    ctx
}

} // verus!
