//! The shared path-effect handle: dashes and combinations of
//! effects, with the queries the engine answers about them.

use vstd::prelude::*;

use crate::engine::Engine;
use crate::handles::RCHandle;
use crate::layout::layout_eq;
use crate::layout::FieldLayout;
use crate::layout::TypeLayout;
use crate::matrix::Matrix;
use crate::native;
use crate::native::NativePathEffect;
use crate::native::NativePoint;
use crate::path::Path;
use crate::point::Point;
use crate::point::Vector;
use crate::rect::Rect;
use crate::scalar;
use crate::stroke_rec::StrokeRec;

verus! {

/// A reference-counted handle to a native path effect.
pub type PathEffect = RCHandle<NativePathEffect>;

/// How the points of a broken-up path are to be drawn.  The native
/// side carries these as an open set of combinable bits.
#[derive(Clone, Copy, PartialEq, Eq, Structural, Debug)]
pub struct PointFlags {
    /// The raw bit word.
    pub bits: u32,
}

/// Draw the points as circles.
pub const POINT_FLAG_CIRCLES: u32 = 1;

/// Draw the points along the stored path.
pub const POINT_FLAG_USE_PATH: u32 = 2;

/// Clip the points to the stored clip rectangle.
pub const POINT_FLAG_USE_CLIP: u32 = 4;

/// A path broken up into drawable points.
pub struct PointData {
    /// How the points are to be drawn.
    pub flags: PointFlags,
    /// The points to draw.
    pub points: Vec<Point>,
    /// The extent of each point.
    pub size: Vector,
    /// The clip in force when `POINT_FLAG_USE_CLIP` is set.
    pub clip_rect: Rect,
    /// The path to draw when `POINT_FLAG_USE_PATH` is set.
    pub path: Path,
    /// The cap at the start of the path.
    pub first: Path,
    /// The cap at the end of the path.
    pub last: Path,
}

impl Default for PointData {
    /// Point data with nothing to draw.
    fn default() -> (r: Self)
        ensures
            r.flags.bits == 0,
            r.points@.len() == 0,
            r.size == (Vector { x: 0i32, y: 0i32 }),
            r.clip_rect == (Rect { left: 0i32, top: 0i32, right: 0i32, bottom: 0i32 }),
            r.path.n.points@.len() == 0,
            r.first.n.points@.len() == 0,
            r.last.n.points@.len() == 0,
    {
        PointData {
            flags: PointFlags { bits: 0 },
            points: Vec::new(),
            size: Vector { x: 0, y: 0 },
            clip_rect: Rect { left: 0, top: 0, right: 0, bottom: 0 },
            path: Path::new(),
            first: Path::new(),
            last: Path::new(),
        }
    }
}

impl PointData {
    /// The points to draw.
    pub fn points(&self) -> (r: &Vec<Point>)
        ensures
            r == self.points,
    {
        &self.points
    }

    /// The mandatory layout check of the point-data record against
    /// the declaration set.
    pub fn test_layout() {
        let mut fields: Vec<FieldLayout> = Vec::new();
        fields.push(FieldLayout { offset: 0, size: 4 });
        fields.push(FieldLayout { offset: 8, size: 8 });
        fields.push(FieldLayout { offset: 16, size: 4 });
        fields.push(FieldLayout { offset: 24, size: 8 });
        fields.push(FieldLayout { offset: 32, size: 16 });
        fields.push(FieldLayout { offset: 48, size: 8 });
        fields.push(FieldLayout { offset: 56, size: 8 });
        fields.push(FieldLayout { offset: 64, size: 8 });
        let a = TypeLayout { size: 72, align: 8, fields };
        let b = native::point_data_layout();
        proof {
            assert(a.fields@ =~= b.fields@);
        }
        let same = layout_eq(&a, &b);
        assert(same);
    }
}

/// A dash's description: its intervals and its phase.
#[derive(Clone, PartialEq, Debug)]
pub struct DashInfo {
    /// The on/off intervals, in order.
    pub intervals: Vec<scalar>,
    /// Offset into the first interval.
    pub phase: scalar,
}

/// The 32-bit little-endian value at byte offset `k`.
pub open spec fn le32_at(s: Seq<u8>, k: int) -> scalar {
    ((s[k] as u32) | ((s[k + 1] as u32) << 8) | ((s[k + 2] as u32) << 16) | ((s[k
        + 3] as u32) << 24)) as i32
}

/// Whether a byte stream is a well-formed serialized dash: the dash
/// tag, an even interval count of at least two, and exactly the
/// intervals and the phase behind it.
pub open spec fn dash_bytes_wf(s: Seq<u8>) -> bool {
    &&& s.len() >= 2
    &&& s[0] == 1u8
    &&& s[1] >= 2
    &&& s[1] % 2 == 0
    &&& s.len() == 2 + 4 * (s[1] as int) + 4
}

impl RCHandle<NativePathEffect> {
    /// Whether the effect in `e` is a dash.
    pub open spec fn is_dash(self, e: Engine<NativePathEffect>) -> bool {
        self.value_in(e) is Dash
    }

    /// The sum of two effects: both applied to the source.
    pub fn sum(
        first: &PathEffect,
        second: &PathEffect,
        e: &mut Engine<NativePathEffect>,
    ) -> (r: PathEffect)
        requires
            old(e).wf(),
            first.is_valid(*old(e)),
            second.is_valid(*old(e)),
        ensures
            final(e).wf(),
            final(e).slots@ == old(e).allocated(
                NativePathEffect::Sum { first: first.ptr, second: second.ptr },
            ),
            r.is_valid(*final(e)),
            r.value_in(*final(e)) == (NativePathEffect::Sum {
                first: first.ptr,
                second: second.ptr,
            }),
    {
        let p = e.allocate(NativePathEffect::Sum { first: first.ptr, second: second.ptr });
        let r = RCHandle::from_ptr(p, e);
        r.unwrap()
    }

    /// The composition of two effects: the first applied to the
    /// second's output.
    pub fn compose(
        first: &PathEffect,
        second: &PathEffect,
        e: &mut Engine<NativePathEffect>,
    ) -> (r: PathEffect)
        requires
            old(e).wf(),
            first.is_valid(*old(e)),
            second.is_valid(*old(e)),
        ensures
            final(e).wf(),
            final(e).slots@ == old(e).allocated(
                NativePathEffect::Compose { first: first.ptr, second: second.ptr },
            ),
            r.is_valid(*final(e)),
            r.value_in(*final(e)) == (NativePathEffect::Compose {
                first: first.ptr,
                second: second.ptr,
            }),
    {
        let p = e.allocate(NativePathEffect::Compose { first: first.ptr, second: second.ptr });
        let r = RCHandle::from_ptr(p, e);
        r.unwrap()
    }

    /// Applies the effect to a path.  The engine filters through a
    /// dash and hands the geometry back unchanged; an effect it
    /// cannot apply yields nothing.
    pub fn filter_path(
        &self,
        src: &Path,
        stroke_rec: &StrokeRec,
        cull_rect: Rect,
        e: &Engine<NativePathEffect>,
    ) -> (r: Option<(Path, StrokeRec)>)
        requires
            self.is_valid(*e),
        ensures
            r.is_some() <==> self.is_dash(*e),
            r.is_some() ==> r.unwrap().0.n.points@ == src.n.points@ && r.unwrap().1.n
                == stroke_rec.n,
    {
        let mut dst = Path::new();
        let mut stroke_rec_r = StrokeRec::new(stroke_rec.native().width);
        if self.filter_path_inplace(&mut dst, src, &mut stroke_rec_r, cull_rect, e) {
            Some((dst, stroke_rec_r))
        } else {
            None
        }
    }

    /// Applies the effect to a path in place.  Succeeds exactly for a
    /// dash; on success the destination takes the source's geometry
    /// and the stroke record keeps its state.
    pub fn filter_path_inplace(
        &self,
        dst: &mut Path,
        src: &Path,
        stroke_rec: &mut StrokeRec,
        cull_rect: Rect,
        e: &Engine<NativePathEffect>,
    ) -> (r: bool)
        requires
            self.is_valid(*e),
        ensures
            r <==> self.is_dash(*e),
            r ==> final(dst).n.points@ == src.n.points@,
            !r ==> *final(dst) == *old(dst),
            *final(stroke_rec) == *old(stroke_rec),
    {
        match e.get(self.ptr) {
            NativePathEffect::Dash { .. } => {
                let mut points: Vec<NativePoint> = Vec::new();
                let mut i: usize = 0;
                while i < src.n.points.len()
                    invariant
                        i <= src.n.points@.len(),
                        points@ == src.n.points@.subrange(0, i as int),
                    decreases src.n.points@.len() - i,
                {
                    points.push(src.n.points[i]);
                    proof {
                        assert(points@ =~= src.n.points@.subrange(0, i as int + 1));
                    }
                    i = i + 1;
                }
                proof {
                    assert(src.n.points@.subrange(0, src.n.points@.len() as int) =~= src.n.points@);
                }
                dst.n.points = points;
                true
            },
            _ => false,
        }
    }

    /// Breaks a path up into drawable points.  The engine can break
    /// up only a dash; the points then follow the source's geometry,
    /// drawn as circles of the stroke's width.
    pub fn as_points(
        &self,
        src: &Path,
        stroke_rect: &StrokeRec,
        matrix: &Matrix,
        cull_rect: Rect,
        e: &Engine<NativePathEffect>,
    ) -> (r: Option<PointData>)
        requires
            self.is_valid(*e),
        ensures
            r.is_some() <==> self.is_dash(*e),
            r.is_some() ==> ({
                let pd = r.unwrap();
                &&& pd.flags.bits == POINT_FLAG_CIRCLES
                &&& pd.points@.len() == src.n.points@.len()
                &&& forall|i: int|
                    0 <= i < src.n.points@.len() ==> #[trigger] pd.points@[i] == (Point {
                        x: src.n.points@[i].x,
                        y: src.n.points@[i].y,
                    })
                &&& pd.size == (Vector { x: stroke_rect.n.width, y: stroke_rect.n.width })
                &&& pd.clip_rect == cull_rect
                &&& pd.path.n.points@.len() == 0
            }),
    {
        match e.get(self.ptr) {
            NativePathEffect::Dash { .. } => {
                let mut points: Vec<Point> = Vec::new();
                let mut i: usize = 0;
                while i < src.n.points.len()
                    invariant
                        i <= src.n.points@.len(),
                        points@.len() == i,
                        forall|j: int|
                            0 <= j < i ==> #[trigger] points@[j] == (Point {
                                x: src.n.points@[j].x,
                                y: src.n.points@[j].y,
                            }),
                    decreases src.n.points@.len() - i,
                {
                    let np = src.n.points[i];
                    points.push(Point { x: np.x, y: np.y });
                    i = i + 1;
                }
                let width = stroke_rect.native().width;
                Some(
                    PointData {
                        flags: PointFlags { bits: POINT_FLAG_CIRCLES },
                        points,
                        size: Vector { x: width, y: width },
                        clip_rect: cull_rect,
                        path: Path::new(),
                        first: Path::new(),
                        last: Path::new(),
                    },
                )
            },
            _ => None,
        }
    }

    /// The conservative bound of the effect's output for a source
    /// bound: the engine reports the source bound itself.
    pub fn compute_fast_bounds(&self, src: Rect, e: &Engine<NativePathEffect>) -> (r: Rect)
        requires
            self.is_valid(*e),
        ensures
            r == src,
    {
        src
    }

    /// The effect's dash description, where it is a dash.
    pub fn as_dash(&self, e: &Engine<NativePathEffect>) -> (r: Option<DashInfo>)
        requires
            self.is_valid(*e),
        ensures
            r.is_some() <==> self.is_dash(*e),
            r.is_some() ==> (self.value_in(*e) matches NativePathEffect::Dash { intervals, phase }
                && intervals@ == r.unwrap().intervals@ && phase == r.unwrap().phase),
    {
        self.as_a_dash(e)
    }

    /// The effect's dash description, where it is a dash: its
    /// intervals and phase, copied out.
    pub fn as_a_dash(&self, e: &Engine<NativePathEffect>) -> (r: Option<DashInfo>)
        requires
            self.is_valid(*e),
        ensures
            r.is_some() <==> self.is_dash(*e),
            r.is_some() ==> (self.value_in(*e) matches NativePathEffect::Dash { intervals, phase }
                && intervals@ == r.unwrap().intervals@ && phase == r.unwrap().phase),
    {
        match e.get(self.ptr) {
            NativePathEffect::Dash { intervals, phase } => {
                let mut out: Vec<scalar> = Vec::new();
                let mut i: usize = 0;
                while i < intervals.len()
                    invariant
                        i <= intervals@.len(),
                        out@ == intervals@.subrange(0, i as int),
                    decreases intervals@.len() - i,
                {
                    out.push(intervals[i]);
                    proof {
                        assert(out@ =~= intervals@.subrange(0, i as int + 1));
                    }
                    i = i + 1;
                }
                proof {
                    assert(intervals@.subrange(0, intervals@.len() as int) =~= intervals@);
                }
                Some(DashInfo { intervals: out, phase: *phase })
            },
            _ => None,
        }
    }

    /// Rebuilds an effect from its serialized form.  Only a
    /// well-formed serialized dash deserializes; everything else
    /// yields nothing and leaves the engine untouched.
    pub fn deserialize(data: &Vec<u8>, e: &mut Engine<NativePathEffect>) -> (r: Option<PathEffect>)
        requires
            old(e).wf(),
        ensures
            final(e).wf(),
            r.is_some() <==> dash_bytes_wf(data@),
            r.is_none() ==> final(e).slots@ == old(e).slots@,
            r.is_some() ==> final(e).slots@.len() == old(e).slots@.len() + 1
                && final(e).slots@.subrange(0, old(e).slots@.len() as int) == old(e).slots@
                && r.unwrap().is_valid(*final(e)) && (match r.unwrap().value_in(*final(e)) {
                NativePathEffect::Dash { intervals, phase } => {
                    &&& intervals@.len() == data@[1] as int
                    &&& forall|i: int|
                        0 <= i < intervals@.len() ==> #[trigger] intervals@[i] == le32_at(
                            data@,
                            2 + 4 * i,
                        )
                    &&& phase == le32_at(data@, 2 + 4 * (data@[1] as int))
                },
                _ => false,
            }),
    {
        if data.len() < 2 {
            return None;
        }
        if data[0] != 1 {
            return None;
        }
        let count = data[1] as usize;
        if count < 2 || count % 2 != 0 {
            return None;
        }
        if data.len() != 2 + 4 * count + 4 {
            return None;
        }
        let mut intervals: Vec<scalar> = Vec::new();
        let mut i: usize = 0;
        while i < count
            invariant
                count <= 255,
                data@.len() == 2 + 4 * count + 4,
                i <= count,
                intervals@.len() == i,
                forall|j: int|
                    0 <= j < i ==> #[trigger] intervals@[j] == le32_at(data@, 2 + 4 * j),
            decreases count - i,
        {
            let k = 2 + 4 * i;
            let v: scalar = ((data[k] as u32) | ((data[k + 1] as u32) << 8) | ((data[k
                + 2] as u32) << 16) | ((data[k + 3] as u32) << 24)) as i32;
            intervals.push(v);
            i = i + 1;
        }
        let k = 2 + 4 * count;
        let phase: scalar = ((data[k] as u32) | ((data[k + 1] as u32) << 8) | ((data[k
            + 2] as u32) << 16) | ((data[k + 3] as u32) << 24)) as i32;
        let p = e.allocate(NativePathEffect::Dash { intervals, phase });
        let r = RCHandle::from_ptr(p, e);
        proof {
            assert(final(e).slots@.subrange(0, old(e).slots@.len() as int) =~= old(e).slots@);
        }
        Some(r.unwrap())
    }
}

} // verus!
