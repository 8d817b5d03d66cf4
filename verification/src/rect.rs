//! Rectangles with scalar edges, with their layout contract.

use vstd::prelude::*;

use crate::layout::layout_eq;
use crate::layout::NativeTransmutable;
use crate::layout::TypeLayout;
use crate::native::rect_layout;
use crate::native::NativeRect;
use crate::scalar;
use crate::size::ISize;

verus! {

/// An axis-aligned rectangle given by its four edges.
#[derive(Clone, Copy, PartialEq, Eq, Structural, Debug)]
pub struct Rect {
    /// Left edge.
    pub left: scalar,
    /// Top edge.
    pub top: scalar,
    /// Right edge.
    pub right: scalar,
    /// Bottom edge.
    pub bottom: scalar,
}

impl NativeTransmutable<NativeRect> for Rect {
    open spec fn native_valid(n: NativeRect) -> bool {
        true
    }

    open spec fn from_native_spec(n: NativeRect) -> Rect {
        Rect { left: n.left, top: n.top, right: n.right, bottom: n.bottom }
    }

    open spec fn to_native_spec(self) -> NativeRect {
        NativeRect { left: self.left, top: self.top, right: self.right, bottom: self.bottom }
    }

    proof fn lemma_cast_roundtrip(self, n: NativeRect) {
    }

    fn from_native(n: NativeRect) -> Rect {
        Rect { left: n.left, top: n.top, right: n.right, bottom: n.bottom }
    }

    fn into_native(self) -> NativeRect {
        NativeRect { left: self.left, top: self.top, right: self.right, bottom: self.bottom }
    }

    fn test_layout() {
        let a = TypeLayout::packed_record(4, 4);
        let b = rect_layout();
        proof {
            assert(a.fields@ =~= b.fields@);
        }
        let same = layout_eq(&a, &b);
        assert(same);
    }
}

impl Rect {
    /// The rectangle with the given edges.
    pub fn new(left: scalar, top: scalar, right: scalar, bottom: scalar) -> (r: Rect)
        ensures
            r == (Rect { left, top, right, bottom }),
    {
        Rect { left, top, right, bottom }
    }

    /// The empty rectangle at the origin.
    pub fn new_empty() -> (r: Rect)
        ensures
            r == (Rect { left: 0i32, top: 0i32, right: 0i32, bottom: 0i32 }),
    {
        Rect { left: 0, top: 0, right: 0, bottom: 0 }
    }

    /// The rectangle spanning a size from the origin.
    pub fn from_size(size: ISize) -> (r: Rect)
        ensures
            r == (Rect { left: 0i32, top: 0i32, right: size.width, bottom: size.height }),
    {
        Rect { left: 0, top: 0, right: size.width, bottom: size.height }
    }

    /// Width of the rectangle.
    pub fn width(self) -> (w: scalar)
        requires
            i32::MIN <= self.right - self.left <= i32::MAX,
        ensures
            w == self.right - self.left,
    {
        self.right - self.left
    }

    /// Height of the rectangle.
    pub fn height(self) -> (h: scalar)
        requires
            i32::MIN <= self.bottom - self.top <= i32::MAX,
        ensures
            h == self.bottom - self.top,
    {
        self.bottom - self.top
    }

    /// Whether the rectangle spans no area.
    pub fn is_empty(self) -> (r: bool)
        ensures
            r <==> (self.right <= self.left || self.bottom <= self.top),
    {
        self.right <= self.left || self.bottom <= self.top
    }
}

} // verus!
