//! Integer and scalar sizes, with their layout contracts.

use vstd::prelude::*;

use crate::layout::layout_eq;
use crate::layout::NativeTransmutable;
use crate::layout::TypeLayout;
use crate::native::isize_layout;
use crate::native::size_layout;
use crate::native::NativeISize;
use crate::native::NativeSize;
use crate::scalar;

verus! {

/// A size with 32-bit integer extents.
#[derive(Clone, Copy, PartialEq, Eq, Structural, Debug)]
pub struct ISize {
    /// Horizontal extent.
    pub width: i32,
    /// Vertical extent.
    pub height: i32,
}

impl NativeTransmutable<NativeISize> for ISize {
    open spec fn native_valid(n: NativeISize) -> bool {
        true
    }

    open spec fn from_native_spec(n: NativeISize) -> ISize {
        ISize { width: n.width, height: n.height }
    }

    open spec fn to_native_spec(self) -> NativeISize {
        NativeISize { width: self.width, height: self.height }
    }

    proof fn lemma_cast_roundtrip(self, n: NativeISize) {
    }

    fn from_native(n: NativeISize) -> ISize {
        ISize { width: n.width, height: n.height }
    }

    fn into_native(self) -> NativeISize {
        NativeISize { width: self.width, height: self.height }
    }

    fn test_layout() {
        let a = TypeLayout::packed_record(2, 4);
        let b = isize_layout();
        proof {
            assert(a.fields@ =~= b.fields@);
        }
        let same = layout_eq(&a, &b);
        assert(same);
    }
}

impl ISize {
    /// A size with the given extents.
    pub fn new(w: i32, h: i32) -> (s: ISize)
        ensures
            s == (ISize { width: w, height: h }),
    {
        ISize { width: w, height: h }
    }

    /// The empty size: both extents zero.
    pub fn new_empty() -> (s: ISize)
        ensures
            s == (ISize { width: 0i32, height: 0i32 }),
    {
        Self::new(0, 0)
    }

    /// Replaces both extents.
    pub fn set(&mut self, w: i32, h: i32)
        ensures
            *final(self) == (ISize { width: w, height: h }),
    {
        *self = Self::new(w, h);
    }

    /// Whether both extents are zero.
    pub fn is_zero(self) -> (r: bool)
        ensures
            r <==> (self.width == 0 && self.height == 0),
    {
        self.width == 0 && self.height == 0
    }

    /// Whether the size spans no area: an extent is zero or negative.
    pub fn is_empty(self) -> (r: bool)
        ensures
            r <==> (self.width <= 0 || self.height <= 0),
    {
        self.width <= 0 || self.height <= 0
    }

    /// Resets both extents to zero.
    pub fn set_empty(&mut self)
        ensures
            *final(self) == (ISize { width: 0i32, height: 0i32 }),
    {
        *self = Self::new_empty();
    }

    /// Whether the size has the given extents.
    pub fn equals(self, w: i32, h: i32) -> (r: bool)
        ensures
            r <==> (self.width == w && self.height == h),
    {
        self.width == w && self.height == h
    }
}

/// A size with scalar extents.
#[derive(Clone, Copy, PartialEq, Eq, Structural, Debug)]
pub struct Size {
    /// Horizontal extent.
    pub width: scalar,
    /// Vertical extent.
    pub height: scalar,
}

impl NativeTransmutable<NativeSize> for Size {
    open spec fn native_valid(n: NativeSize) -> bool {
        true
    }

    open spec fn from_native_spec(n: NativeSize) -> Size {
        Size { width: n.width, height: n.height }
    }

    open spec fn to_native_spec(self) -> NativeSize {
        NativeSize { width: self.width, height: self.height }
    }

    proof fn lemma_cast_roundtrip(self, n: NativeSize) {
    }

    fn from_native(n: NativeSize) -> Size {
        Size { width: n.width, height: n.height }
    }

    fn into_native(self) -> NativeSize {
        NativeSize { width: self.width, height: self.height }
    }

    fn test_layout() {
        let a = TypeLayout::packed_record(2, 4);
        let b = size_layout();
        proof {
            assert(a.fields@ =~= b.fields@);
        }
        let same = layout_eq(&a, &b);
        assert(same);
    }
}

impl Size {
    /// A size with the given extents.
    pub fn new(w: scalar, h: scalar) -> (s: Size)
        ensures
            s == (Size { width: w, height: h }),
    {
        Size { width: w, height: h }
    }

    /// The scalar view of an integer size.
    pub fn from_isize(src: ISize) -> (s: Size)
        ensures
            s == (Size { width: src.width, height: src.height }),
    {
        Self::new(src.width, src.height)
    }

    /// The empty size: both extents zero.
    pub fn new_empty() -> (s: Size)
        ensures
            s == (Size { width: 0i32, height: 0i32 }),
    {
        Self::new(0, 0)
    }

    /// Replaces both extents.
    pub fn set(&mut self, w: scalar, h: scalar)
        ensures
            *final(self) == (Size { width: w, height: h }),
    {
        *self = Self::new(w, h);
    }

    /// Whether both extents are zero.
    pub fn is_zero(self) -> (r: bool)
        ensures
            r <==> (self.width == 0 && self.height == 0),
    {
        self.width == 0 && self.height == 0
    }

    /// Whether the size spans no area: an extent is zero or negative.
    pub fn is_empty(self) -> (r: bool)
        ensures
            r <==> (self.width <= 0 || self.height <= 0),
    {
        self.width <= 0 || self.height <= 0
    }

    /// Resets both extents to zero.
    pub fn set_empty(&mut self)
        ensures
            *final(self) == (Size { width: 0i32, height: 0i32 }),
    {
        *self = Self::new_empty();
    }

    /// Whether the size has the given extents.
    pub fn equals(self, w: scalar, h: scalar) -> (r: bool)
        ensures
            r <==> (self.width == w && self.height == h),
    {
        self.width == w && self.height == h
    }

    /// The integer size nearest this one.  Integer scalars are their
    /// own rounding.
    pub fn to_round(self) -> (s: ISize)
        ensures
            s == (ISize { width: self.width, height: self.height }),
    {
        ISize::new(self.width, self.height)
    }

    /// The integer size at or above this one.  Integer scalars are
    /// their own ceiling.
    pub fn to_ceil(self) -> (s: ISize)
        ensures
            s == (ISize { width: self.width, height: self.height }),
    {
        ISize::new(self.width, self.height)
    }

    /// The integer size at or below this one.  Integer scalars are
    /// their own floor.
    pub fn to_floor(self) -> (s: ISize)
        ensures
            s == (ISize { width: self.width, height: self.height }),
    {
        ISize::new(self.width, self.height)
    }
}

} // verus!
