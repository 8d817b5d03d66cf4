//! The owned paint handle.

use vstd::prelude::*;

use crate::handles::Handle;
use crate::native::NativePaint;
use crate::Color;

verus! {

/// An exclusively owned paint.
pub type Paint = Handle<NativePaint>;

/// The colour a fresh paint carries: opaque black.
pub const PAINT_DEFAULT_COLOR: Color = 0xff00_0000;

impl Default for Handle<NativePaint> {
    /// A fresh paint: opaque black.
    fn default() -> (r: Self)
        ensures
            r.n == (NativePaint { color: PAINT_DEFAULT_COLOR }),
    {
        Handle { n: NativePaint { color: PAINT_DEFAULT_COLOR } }
    }
}

impl Handle<NativePaint> {
    /// The paint's colour.
    pub fn color(&self) -> (c: Color)
        ensures
            c == self.n.color,
    {
        self.n.color
    }

    /// Replaces the paint's colour.
    pub fn set_color(&mut self, color: Color)
        ensures
            final(self).n == (NativePaint { color }),
    {
        self.n.color = color;
    }
}

} // verus!
