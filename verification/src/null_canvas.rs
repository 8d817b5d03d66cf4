//! The null canvas: a canvas that swallows every drawing call.

use vstd::prelude::*;

use crate::canvas::Canvas;
use crate::canvas::OwnedCanvas;
use crate::engine::Engine;
use crate::native::CanvasKind;
use crate::native::NativeCanvas;

verus! {

impl Canvas {
    /// An owned canvas that swallows every drawing call.
    pub fn new_null(e: &mut Engine<NativeCanvas>) -> (r: OwnedCanvas)
        requires
            old(e).wf(),
        ensures
            final(e).wf(),
            final(e).slots@.len() == old(e).slots@.len() + 1,
            final(e).slots@.subrange(0, old(e).slots@.len() as int) == old(e).slots@,
            r.canvas.ptr == old(e).slots@.len() + 1,
            final(e).is_live(r.canvas.ptr),
            final(e).count_of(r.canvas.ptr) == 1,
            final(e).value_of(r.canvas.ptr).kind is Null,
    {
        new_null_canvas(e)
    }
}

/// An owned canvas that swallows every drawing call.
pub fn new_null_canvas(e: &mut Engine<NativeCanvas>) -> (r: OwnedCanvas)
    requires
        old(e).wf(),
    ensures
        final(e).wf(),
        final(e).slots@.len() == old(e).slots@.len() + 1,
        final(e).slots@.subrange(0, old(e).slots@.len() as int) == old(e).slots@,
        r.canvas.ptr == old(e).slots@.len() + 1,
        final(e).is_live(r.canvas.ptr),
        final(e).count_of(r.canvas.ptr) == 1,
        final(e).value_of(r.canvas.ptr).kind is Null,
{
    let buf = String::new();
    let p = e.allocate(NativeCanvas { kind: CanvasKind::Null, buf });
    proof {
        assert(final(e).slots@.subrange(0, old(e).slots@.len() as int) =~= old(e).slots@);
    }
    OwnedCanvas { canvas: Canvas { ptr: p } }
}

} // verus!
