//! Integer and scalar points, with their layout contracts.

use vstd::prelude::*;

use crate::layout::layout_eq;
use crate::layout::NativeTransmutable;
use crate::layout::TypeLayout;
use crate::native::ipoint_layout;
use crate::native::point_layout;
use crate::native::NativeIPoint;
use crate::native::NativePoint;
use crate::scalar;

verus! {

/// An integer vector is an integer point used as a displacement.
pub type IVector = IPoint;

/// A point with 32-bit integer coordinates.
#[derive(Clone, Copy, PartialEq, Eq, Structural, Debug)]
pub struct IPoint {
    /// Horizontal coordinate.
    pub x: i32,
    /// Vertical coordinate.
    pub y: i32,
}

impl NativeTransmutable<NativeIPoint> for IPoint {
    open spec fn native_valid(n: NativeIPoint) -> bool {
        true
    }

    open spec fn from_native_spec(n: NativeIPoint) -> IPoint {
        IPoint { x: n.x, y: n.y }
    }

    open spec fn to_native_spec(self) -> NativeIPoint {
        NativeIPoint { x: self.x, y: self.y }
    }

    proof fn lemma_cast_roundtrip(self, n: NativeIPoint) {
    }

    fn from_native(n: NativeIPoint) -> IPoint {
        IPoint { x: n.x, y: n.y }
    }

    fn into_native(self) -> NativeIPoint {
        NativeIPoint { x: self.x, y: self.y }
    }

    fn test_layout() {
        let a = TypeLayout::packed_record(2, 4);
        let b = ipoint_layout();
        proof {
            assert(a.fields@ =~= b.fields@);
        }
        let same = layout_eq(&a, &b);
        assert(same);
    }
}

impl IPoint {
    /// A point at the given coordinates.
    pub fn new(x: i32, y: i32) -> (p: IPoint)
        ensures
            p == (IPoint { x, y }),
    {
        IPoint { x, y }
    }

    /// Whether both coordinates are zero.
    pub fn is_zero(self) -> (r: bool)
        ensures
            r <==> (self.x == 0 && self.y == 0),
    {
        let x = self.x;
        let y = self.y;
        proof {
            assert(((x | y) == 0) <==> (x == 0 && y == 0)) by (bit_vector);
        }
        (x | y) == 0
    }

    /// Replaces both coordinates.
    pub fn set(&mut self, x: i32, y: i32)
        ensures
            *final(self) == (IPoint { x, y }),
    {
        *self = IPoint::new(x, y);
    }

    /// Whether the point lies at the given coordinates.
    pub fn equals(self, x: i32, y: i32) -> (r: bool)
        ensures
            r <==> (self.x == x && self.y == y),
    {
        self.x == x && self.y == y
    }

    /// Moves the point by a displacement; subtraction is an offset by
    /// the negated vector.
    pub fn offset(&mut self, d: IVector)
        requires
            i32::MIN <= old(self).x + d.x <= i32::MAX,
            i32::MIN <= old(self).y + d.y <= i32::MAX,
        ensures
            *final(self) == (IPoint {
                x: (old(self).x + d.x) as i32,
                y: (old(self).y + d.y) as i32,
            }),
    {
        self.x = self.x + d.x;
        self.y = self.y + d.y;
    }

    /// Flips both coordinates.
    pub fn negate(&mut self)
        requires
            old(self).x > i32::MIN,
            old(self).y > i32::MIN,
        ensures
            final(self).x == -old(self).x as int,
            final(self).y == -old(self).y as int,
    {
        self.x = -self.x;
        self.y = -self.y;
    }
}

/// A vector is a point used as a displacement.
pub type Vector = Point;

/// A point with scalar coordinates.
#[derive(Clone, Copy, PartialEq, Eq, Structural, Debug)]
pub struct Point {
    /// Horizontal coordinate.
    pub x: scalar,
    /// Vertical coordinate.
    pub y: scalar,
}

impl NativeTransmutable<NativePoint> for Point {
    open spec fn native_valid(n: NativePoint) -> bool {
        true
    }

    open spec fn from_native_spec(n: NativePoint) -> Point {
        Point { x: n.x, y: n.y }
    }

    open spec fn to_native_spec(self) -> NativePoint {
        NativePoint { x: self.x, y: self.y }
    }

    proof fn lemma_cast_roundtrip(self, n: NativePoint) {
    }

    fn from_native(n: NativePoint) -> Point {
        Point { x: n.x, y: n.y }
    }

    fn into_native(self) -> NativePoint {
        NativePoint { x: self.x, y: self.y }
    }

    fn test_layout() {
        let a = TypeLayout::packed_record(2, 4);
        let b = point_layout();
        proof {
            assert(a.fields@ =~= b.fields@);
        }
        let same = layout_eq(&a, &b);
        assert(same);
    }
}

impl Point {
    /// A point at the given coordinates.
    pub fn new(x: scalar, y: scalar) -> (p: Point)
        ensures
            p == (Point { x, y }),
    {
        Point { x, y }
    }

    /// Whether both coordinates are zero.
    pub fn is_zero(self) -> (r: bool)
        ensures
            r <==> (self.x == 0 && self.y == 0),
    {
        self.x == 0 && self.y == 0
    }

    /// Replaces both coordinates.
    pub fn set(&mut self, x: scalar, y: scalar)
        ensures
            *final(self) == (Point { x, y }),
    {
        *self = Point::new(x, y);
    }

    /// Replaces the coordinates with those of an integer point.
    pub fn iset(&mut self, p: IPoint)
        ensures
            *final(self) == (Point { x: p.x, y: p.y }),
    {
        self.x = p.x;
        self.y = p.y;
    }

    /// Replaces the coordinates with the absolute values of `p`'s.
    pub fn set_abs(&mut self, p: Point)
        requires
            p.x > i32::MIN,
            p.y > i32::MIN,
        ensures
            final(self).x == if p.x < 0 {
                -p.x as int
            } else {
                p.x as int
            },
            final(self).y == if p.y < 0 {
                -p.y as int
            } else {
                p.y as int
            },
    {
        self.x = if p.x < 0 {
            -p.x
        } else {
            p.x
        };
        self.y = if p.y < 0 {
            -p.y
        } else {
            p.y
        };
    }

    /// Moves every point of the slice by the same displacement.
    pub fn offset_points(points: &mut Vec<Point>, offset: Vector)
        requires
            forall|i: int|
                0 <= i < old(points)@.len() ==> i32::MIN <= (#[trigger] old(points)@[i]).x + offset.x
                    <= i32::MAX && i32::MIN <= old(points)@[i].y + offset.y <= i32::MAX,
        ensures
            final(points)@.len() == old(points)@.len(),
            forall|i: int|
                0 <= i < old(points)@.len() ==> #[trigger] final(points)@[i] == (Point {
                    x: ((old(points)@[i]).x + offset.x) as i32,
                    y: ((old(points)@[i]).y + offset.y) as i32,
                }),
    {
        let mut i: usize = 0;
        while i < points.len()
            invariant
                i <= points@.len(),
                points@.len() == old(points)@.len(),
                forall|j: int|
                    i <= j < points@.len() ==> #[trigger] points@[j] == old(points)@[j],
                forall|j: int|
                    0 <= j < i ==> #[trigger] points@[j] == (Point {
                        x: ((old(points)@[j]).x + offset.x) as i32,
                        y: ((old(points)@[j]).y + offset.y) as i32,
                    }),
                forall|j: int|
                    0 <= j < old(points)@.len() ==> i32::MIN <= (#[trigger] old(points)@[j]).x
                        + offset.x <= i32::MAX && i32::MIN <= old(points)@[j].y + offset.y
                        <= i32::MAX,
            decreases points@.len() - i,
        {
            let p = &mut points[i];
            p.offset(offset);
            i = i + 1;
        }
    }

    /// Moves the point by a displacement.
    pub fn offset(&mut self, d: Vector)
        requires
            i32::MIN <= old(self).x + d.x <= i32::MAX,
            i32::MIN <= old(self).y + d.y <= i32::MAX,
        ensures
            *final(self) == (Point {
                x: (old(self).x + d.x) as i32,
                y: (old(self).y + d.y) as i32,
            }),
    {
        self.x = self.x + d.x;
        self.y = self.y + d.y;
    }

    /// Distance of the point from the origin: the integer square root
    /// of the sum of squared coordinates.
    pub fn length(self) -> (r: scalar)
        requires
            (self.x as int) * (self.x as int) + (self.y as int) * (self.y as int) <= 0x7fff_ffff
                * 0x7fff_ffff,
        ensures
            is_isqrt(
                (self.x as int) * (self.x as int) + (self.y as int) * (self.y as int),
                r as int,
            ),
    {
        let x = self.x as i64;
        let y = self.y as i64;
        proof {
            assert(x * x >= 0 && y * y >= 0) by (nonlinear_arith);
        }
        let xx = x * x;
        let yy = y * y;
        let n = (xx + yy) as u64;
        let r = isqrt_u64(n);
        proof {
            lemma_isqrt_bound(n as int, r as int, 0x7fff_ffff);
        }
        r as i32
    }

    /// Distance of the point from the origin.
    pub fn distance_to_origin(self) -> (r: scalar)
        requires
            (self.x as int) * (self.x as int) + (self.y as int) * (self.y as int) <= 0x7fff_ffff
                * 0x7fff_ffff,
        ensures
            is_isqrt(
                (self.x as int) * (self.x as int) + (self.y as int) * (self.y as int),
                r as int,
            ),
    {
        self.length()
    }

    /// Distance between two points.
    pub fn distance(a: Point, b: Point) -> (r: scalar)
        requires
            i32::MIN < a.x - b.x < i32::MAX,
            i32::MIN < a.y - b.y < i32::MAX,
            (a.x - b.x) * (a.x - b.x) + (a.y - b.y) * (a.y - b.y) <= 0x7fff_ffff * 0x7fff_ffff,
        ensures
            is_isqrt((a.x - b.x) * (a.x - b.x) + (a.y - b.y) * (a.y - b.y), r as int),
    {
        Point::new(a.x - b.x, a.y - b.y).length()
    }

    /// Length of the vector `(x, y)`.
    pub fn length_xy(x: scalar, y: scalar) -> (r: scalar)
        requires
            (x as int) * (x as int) + (y as int) * (y as int) <= 0x7fff_ffff * 0x7fff_ffff,
        ensures
            is_isqrt((x as int) * (x as int) + (y as int) * (y as int), r as int),
    {
        Point::new(x, y).length()
    }

    /// The point scaled by an integer factor.
    pub fn scaled(self, scale: scalar) -> (p: Point)
        requires
            i32::MIN <= self.x * scale <= i32::MAX,
            i32::MIN <= self.y * scale <= i32::MAX,
        ensures
            p == (Point { x: (self.x * scale) as i32, y: (self.y * scale) as i32 }),
    {
        Point { x: self.x * scale, y: self.y * scale }
    }

    /// Scales the point in place.
    pub fn scale(&mut self, scale: scalar)
        requires
            i32::MIN <= old(self).x * scale <= i32::MAX,
            i32::MIN <= old(self).y * scale <= i32::MAX,
        ensures
            *final(self) == (Point {
                x: (old(self).x * scale) as i32,
                y: (old(self).y * scale) as i32,
            }),
    {
        *self = self.scaled(scale);
    }

    /// Flips both coordinates.
    pub fn negate(&mut self)
        requires
            old(self).x > i32::MIN,
            old(self).y > i32::MIN,
        ensures
            final(self).x == -old(self).x as int,
            final(self).y == -old(self).y as int,
    {
        self.x = -self.x;
        self.y = -self.y;
    }

    /// Whether both coordinates are finite.  Integer scalars always
    /// are.
    pub fn is_finite(self) -> (r: bool)
        ensures
            r,
    {
        true
    }

    /// Whether the point lies at the given coordinates.
    pub fn equals(self, x: scalar, y: scalar) -> (r: bool)
        ensures
            r <==> (self.x == x && self.y == y),
    {
        self.x == x && self.y == y
    }

    /// Dot product of two vectors.
    pub fn dot_product(a: Vector, b: Vector) -> (r: scalar)
        requires
            i32::MIN <= a.x * b.x + a.y * b.y <= i32::MAX,
            i32::MIN <= a.x * b.x <= i32::MAX,
            i32::MIN <= a.y * b.y <= i32::MAX,
        ensures
            r == a.x * b.x + a.y * b.y,
    {
        a.x * b.x + a.y * b.y
    }

    /// Cross product of two vectors.
    pub fn cross_product(a: Vector, b: Vector) -> (r: scalar)
        requires
            i32::MIN <= a.x * b.y - a.y * b.x <= i32::MAX,
            i32::MIN <= a.x * b.y <= i32::MAX,
            i32::MIN <= a.y * b.x <= i32::MAX,
        ensures
            r == a.x * b.y - a.y * b.x,
    {
        a.x * b.y - a.y * b.x
    }

    /// Dot product with another vector.
    pub fn dot(self, vec: Vector) -> (r: scalar)
        requires
            i32::MIN <= self.x * vec.x + self.y * vec.y <= i32::MAX,
            i32::MIN <= self.x * vec.x <= i32::MAX,
            i32::MIN <= self.y * vec.y <= i32::MAX,
        ensures
            r == self.x * vec.x + self.y * vec.y,
    {
        Point::dot_product(self, vec)
    }

    /// Cross product with another vector.
    pub fn cross(self, vec: Vector) -> (r: scalar)
        requires
            i32::MIN <= self.x * vec.y - self.y * vec.x <= i32::MAX,
            i32::MIN <= self.x * vec.y <= i32::MAX,
            i32::MIN <= self.y * vec.x <= i32::MAX,
        ensures
            r == self.x * vec.y - self.y * vec.x,
    {
        Point::cross_product(self, vec)
    }
}

/// `r` is the integer square root of `n`.
pub open spec fn is_isqrt(n: int, r: int) -> bool {
    r >= 0 && r * r <= n && n < (r + 1) * (r + 1)
}

/// An integer square root of a number at most `m * m` is at most `m`.
proof fn lemma_isqrt_bound(n: int, r: int, m: int)
    requires
        is_isqrt(n, r),
        m >= 0,
        n <= m * m,
    ensures
        r <= m,
{
    if r > m {
        assert(r * r > m * m) by (nonlinear_arith)
            requires
                r > m >= 0,
        ;
    }
}

/// Integer square root by bisection: the root lies in a bracket
/// whose lower end squares below the number and whose upper end
/// squares above it.
fn isqrt_u64(n: u64) -> (r: u64)
    ensures
        is_isqrt(n as int, r as int),
{
    if n == 0 {
        return 0;
    }
    let mut lo: u64 = 0;
    let mut hi: u64 = 0x1_0000_0000;
    proof {
        assert((n as int) < 0x1_0000_0000 * 0x1_0000_0000);
    }
    while hi - lo > 1
        invariant
            lo < hi,
            hi <= 0x1_0000_0000u64,
            (lo as int) * (lo as int) <= n as int,
            (n as int) < (hi as int) * (hi as int),
        decreases hi - lo,
    {
        let mid = lo + (hi - lo) / 2;
        proof {
            assert((mid as int) * (mid as int) <= 0x1_0000_0000 * 0x1_0000_0000)
                by (nonlinear_arith)
                requires
                    0 <= mid as int <= 0x1_0000_0000,
            ;
        }
        if (mid as u128) * (mid as u128) <= n as u128 {
            lo = mid;
        } else {
            hi = mid;
        }
    }
    lo
}


/// A point with three scalar coordinates, used to describe lights.
#[derive(Clone, Copy, PartialEq, Eq, Structural, Debug)]
pub struct Point3 {
    /// Horizontal coordinate.
    pub x: scalar,
    /// Vertical coordinate.
    pub y: scalar,
    /// Depth coordinate.
    pub z: scalar,
}

impl Point3 {
    /// A point at the given coordinates.
    pub fn new(x: scalar, y: scalar, z: scalar) -> (p: Point3)
        ensures
            p == (Point3 { x, y, z }),
    {
        Point3 { x, y, z }
    }
}

} // verus!
