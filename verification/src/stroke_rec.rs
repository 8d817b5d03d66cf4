//! The owned stroke-record handle.

use vstd::prelude::*;

use crate::handles::Handle;
use crate::native::NativeStrokeRec;
use crate::scalar;

verus! {

/// An exclusively owned stroke record.
pub type StrokeRec = Handle<NativeStrokeRec>;

impl Handle<NativeStrokeRec> {
    /// A stroke record with the given stroke width.
    pub fn new(width: scalar) -> (r: Self)
        ensures
            r.n == (NativeStrokeRec { width }),
    {
        Handle { n: NativeStrokeRec { width } }
    }

    /// The stroke width.
    pub fn width(&self) -> (w: scalar)
        ensures
            w == self.n.width,
    {
        self.n.width
    }
}

} // verus!
