//! The owned path handle.

use vstd::prelude::*;

use crate::handles::Handle;
use crate::native::NativePath;
use crate::native::NativePoint;

verus! {

/// An exclusively owned path.
pub type Path = Handle<NativePath>;

impl Handle<NativePath> {
    /// An empty path.
    pub fn new() -> (r: Self)
        ensures
            r.n.points@.len() == 0,
    {
        Handle { n: NativePath { points: Vec::new() } }
    }

    /// The points of the path's outline.
    pub fn points(&self) -> (r: &Vec<NativePoint>)
        ensures
            r == self.n.points,
    {
        &self.n.points
    }

    /// How many points the outline holds.
    pub fn count_points(&self) -> (r: usize)
        ensures
            r == self.n.points@.len(),
    {
        self.n.points.len()
    }
}

} // verus!
