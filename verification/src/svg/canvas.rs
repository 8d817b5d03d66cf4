//! The markup canvas: draws render to markup text, and ending the
//! canvas extracts the text and destroys the canvas early.
//!
//! Ending neutralizes the handle: its pointer becomes null, and the
//! later teardown of a neutralized handle is a guaranteed no-op, so
//! the canvas is destroyed exactly once.

use vstd::prelude::*;

use crate::canvas;
use crate::data::Data;
use crate::engine::Engine;
use crate::native::CanvasKind;
use crate::native::NativeCanvas;
use crate::paint::Paint;
use crate::point::Point;
use crate::rect::Rect;
use crate::scalar;

verus! {

/// An owned markup canvas.  The pointer is null exactly after
/// [`Canvas::end`] extracted the markup and destroyed the canvas.
pub struct Canvas {
    /// Pointer to the canvas object; null after ending.
    pub canvas: usize,
}

impl Canvas {
    /// The handle is live or already neutralized in `e`.
    pub open spec fn is_valid(self, e: Engine<NativeCanvas>) -> bool {
        self.canvas == 0 || e.is_live(self.canvas)
    }

    /// A fresh markup canvas covering `bounds`.
    pub fn new(bounds: Rect, e: &mut Engine<NativeCanvas>) -> (r: Canvas)
        requires
            old(e).wf(),
        ensures
            final(e).wf(),
            final(e).slots@.len() == old(e).slots@.len() + 1,
            final(e).slots@.subrange(0, old(e).slots@.len() as int) == old(e).slots@,
            r.canvas == old(e).slots@.len() + 1,
            final(e).is_live(r.canvas),
            final(e).count_of(r.canvas) == 1,
            final(e).value_of(r.canvas).kind is Svg,
            final(e).value_of(r.canvas).buf@ == "<svg>"@,
    {
        let buf = String::from_str("<svg>");
        let p = e.allocate(NativeCanvas { kind: CanvasKind::Svg, buf });
        proof {
            assert(final(e).slots@.subrange(0, old(e).slots@.len() as int) =~= old(e).slots@);
        }
        Canvas { canvas: p }
    }

    /// Draws a circle on the canvas.
    pub fn draw_circle(&self, center: Point, radius: scalar, paint: &Paint, e: &mut Engine<
        NativeCanvas,
    >)
        requires
            old(e).wf(),
            self.canvas != 0,
            old(e).is_live(self.canvas),
            center.x > i32::MIN,
            center.y > i32::MIN,
            radius > i32::MIN,
        ensures
            final(e).wf(),
            final(e).slots@.len() == old(e).slots@.len(),
            final(e).is_live(self.canvas),
            final(e).value_of(self.canvas).kind == old(e).value_of(self.canvas).kind,
            old(e).value_of(self.canvas).kind is Svg ==> final(e).value_of(self.canvas).buf@ == old(
                e,
            ).value_of(self.canvas).buf@ + canvas::ellipse_markup(
                paint.n.color,
                center.x,
                center.y,
                radius,
            ),
    {
        let c = canvas::Canvas { ptr: self.canvas };
        let _appended = c.draw_circle(center, radius, paint, e);
    }

    /// Ends the drawing: extracts the markup, closed off, destroys
    /// the canvas early, and neutralizes the handle so that its later
    /// teardown does nothing.
    pub fn end(&mut self, e: &mut Engine<NativeCanvas>) -> (d: Data)
        requires
            old(e).wf(),
            old(self).canvas != 0,
            old(e).is_live(old(self).canvas),
        ensures
            final(e).wf(),
            final(self).canvas == 0,
            final(e).slots@ == old(e).released(old(self).canvas),
            d.text@ == old(e).value_of(old(self).canvas).buf@ + "</svg>"@,
    {
        let mut text = e.get(self.canvas).buf.clone();
        text.append("</svg>");
        e.release(self.canvas);
        self.canvas = 0;
        Data { text }
    }

    /// Tears the canvas down.  A neutralized handle — one already
    /// ended — leaves the engine exactly as it was: the destructor
    /// never runs twice.
    pub fn drop_handle(self, e: &mut Engine<NativeCanvas>)
        requires
            old(e).wf(),
            self.is_valid(*old(e)),
        ensures
            final(e).wf(),
            self.canvas == 0 ==> *final(e) == *old(e),
            self.canvas != 0 ==> final(e).slots@ == old(e).released(self.canvas),
    {
        if self.canvas != 0 {
            e.release(self.canvas);
        }
    }
}

} // verus!
