//! The shared image-filter handle and the crop rectangle its
//! factories take.

use vstd::prelude::*;

use crate::handles::RCHandle;
use crate::native::NativeImageFilter;
use crate::rect::Rect;

verus! {

/// A reference-counted handle to a native image filter.
pub type ImageFilter = RCHandle<NativeImageFilter>;

/// An optional clipping rectangle handed to image-filter factories.
#[derive(Clone, Copy, PartialEq, Eq, Structural, Debug)]
pub struct CropRect {
    /// The clipping rectangle.
    pub rect: Rect,
    /// Which edges of the rectangle clip.
    pub flags: u32,
}

impl CropRect {
    /// A crop rectangle clipping at all four edges.
    pub fn new(rect: Rect) -> (c: CropRect)
        ensures
            c == (CropRect { rect, flags: 0xfu32 }),
    {
        CropRect { rect, flags: 0xf }
    }
}

} // verus!
