//! The owned interpolator handle: key frames over time, queried for
//! the interpolation parameter and the interpolated values.
//!
//! The engine folds a query time into the animation's first play by
//! dividing out whole plays of the duration; the mirror flag runs odd
//! plays backwards, and past the last play the animation freezes at
//! its end.  The parameter is a fixed-point fraction scaled by
//! [`UNIT_SCALAR`].

use vstd::prelude::*;

use crate::handles::Handle;
use crate::layout::layout_eq;
use crate::layout::NativeTransmutable;
use crate::layout::TypeLayout;
use crate::native;
use crate::native::KeyFrame;
use crate::native::NativeInterpolator;
use crate::scalar;

verus! {

/// What a time query found.
#[derive(Clone, Copy, PartialEq, Eq, Structural, Debug)]
pub enum InterpolatorResult {
    /// The time falls inside the animation.
    Normal,
    /// The time falls before the first frame.
    FreezeStart,
    /// The time falls past the last play.
    FreezeEnd,
}

impl NativeTransmutable<i32> for InterpolatorResult {
    open spec fn native_valid(n: i32) -> bool {
        n == native::INTERPOLATOR_RESULT_NORMAL || n == native::INTERPOLATOR_RESULT_FREEZE_START
            || n == native::INTERPOLATOR_RESULT_FREEZE_END
    }

    open spec fn from_native_spec(n: i32) -> InterpolatorResult {
        if n == native::INTERPOLATOR_RESULT_NORMAL {
            InterpolatorResult::Normal
        } else if n == native::INTERPOLATOR_RESULT_FREEZE_START {
            InterpolatorResult::FreezeStart
        } else {
            InterpolatorResult::FreezeEnd
        }
    }

    open spec fn to_native_spec(self) -> i32 {
        match self {
            InterpolatorResult::Normal => native::INTERPOLATOR_RESULT_NORMAL,
            InterpolatorResult::FreezeStart => native::INTERPOLATOR_RESULT_FREEZE_START,
            InterpolatorResult::FreezeEnd => native::INTERPOLATOR_RESULT_FREEZE_END,
        }
    }

    proof fn lemma_cast_roundtrip(self, n: i32) {
    }

    fn from_native(n: i32) -> InterpolatorResult {
        if n == native::INTERPOLATOR_RESULT_NORMAL {
            InterpolatorResult::Normal
        } else if n == native::INTERPOLATOR_RESULT_FREEZE_START {
            InterpolatorResult::FreezeStart
        } else {
            InterpolatorResult::FreezeEnd
        }
    }

    fn into_native(self) -> i32 {
        match self {
            InterpolatorResult::Normal => native::INTERPOLATOR_RESULT_NORMAL,
            InterpolatorResult::FreezeStart => native::INTERPOLATOR_RESULT_FREEZE_START,
            InterpolatorResult::FreezeEnd => native::INTERPOLATOR_RESULT_FREEZE_END,
        }
    }

    fn test_layout() {
        let a = TypeLayout::packed_record(1, 4);
        let b = native::enum32_layout();
        proof {
            assert(a.fields@ =~= b.fields@);
        }
        let same = layout_eq(&a, &b);
        assert(same);
    }
}

/// An exclusively owned interpolator.
pub type Interpolator = Handle<NativeInterpolator>;

/// The interpolation parameter covering one whole interval.
pub const UNIT_SCALAR: scalar = 0x10000;

/// Where a time query landed: the parameter within the interval, the
/// interval's first frame, and whether the time hit it exactly.
#[derive(Clone, Copy, PartialEq, Eq, Structural, Debug)]
pub struct TimeToT {
    /// The parameter within the interval, scaled by [`UNIT_SCALAR`].
    pub t: scalar,
    /// Index of the interval's first frame.
    pub index: usize,
    /// Whether the folded time hit the frame exactly.
    pub exact: bool,
}

/// The interpolator's frame storage matches its frame count.
pub open spec fn interp_wf(n: NativeInterpolator) -> bool {
    n.frames@.len() == n.frame_count
}

/// The time of frame `i`.
pub open spec fn frame_time(n: NativeInterpolator, i: int) -> int {
    n.frames@[i].unwrap().time as int
}

/// The values of frame `i`.
pub open spec fn frame_values(n: NativeInterpolator, i: int) -> Seq<scalar> {
    n.frames@[i].unwrap().values@
}

/// The interpolator is fully built: at least two frames, all set, in
/// strictly increasing time order, each with one value per element.
pub open spec fn built(n: NativeInterpolator) -> bool {
    &&& interp_wf(n)
    &&& n.frame_count >= 2
    &&& forall|i: int| 0 <= i < n.frame_count ==> (#[trigger] n.frames@[i]) is Some
    &&& forall|i: int|
        0 <= i < n.frame_count - 1 ==> #[trigger] frame_time(n, i) < frame_time(n, i + 1)
    &&& forall|i: int|
        0 <= i < n.frame_count ==> (#[trigger] frame_values(n, i)).len() == n.elem_count
}

/// Time of the animation's first frame.
pub open spec fn start_time(n: NativeInterpolator) -> int {
    frame_time(n, 0)
}

/// Time of the animation's last frame.
pub open spec fn end_time(n: NativeInterpolator) -> int {
    frame_time(n, n.frame_count - 1)
}

/// Length of one play.
pub open spec fn play_length(n: NativeInterpolator) -> int {
    end_time(n) - start_time(n)
}

/// How many whole plays have passed at `time`.
pub open spec fn plays_done(n: NativeInterpolator, time: int) -> int {
    (time - start_time(n)) / play_length(n)
}

/// How far into the current play `time` is.
pub open spec fn play_offset(n: NativeInterpolator, time: int) -> int {
    (time - start_time(n)) % play_length(n)
}

/// Whether `time` lies past the last play.
pub open spec fn is_frozen(n: NativeInterpolator, time: int) -> bool {
    plays_done(n, time) >= n.repeat
}

/// The time folded into the first play, with odd plays mirrored.
pub open spec fn folded_time(n: NativeInterpolator, time: int) -> int {
    if n.mirror && plays_done(n, time) % 2 == 1 {
        start_time(n) + (play_length(n) - play_offset(n, time))
    } else {
        start_time(n) + play_offset(n, time)
    }
}

/// `i` is the interval the folded time `t` falls into: the last
/// frame at or before it.
pub open spec fn good_index(n: NativeInterpolator, t: int, i: int) -> bool {
    &&& 0 <= i <= n.frame_count - 2
    &&& frame_time(n, i) <= t
    &&& (i == n.frame_count - 2 || t < frame_time(n, i + 1))
}

/// The parameter of the folded time `t` within interval `i`.
pub open spec fn t_within(n: NativeInterpolator, t: int, i: int) -> int {
    ((t - frame_time(n, i)) * UNIT_SCALAR) / (frame_time(n, i + 1) - frame_time(n, i))
}

impl Default for Handle<NativeInterpolator> {
    /// A fresh interpolator with no elements and no frames.
    fn default() -> (r: Self)
        ensures
            r.n.elem_count == 0,
            r.n.frame_count == 0,
            interp_wf(r.n),
            r.n.repeat == 1,
            !r.n.mirror,
            !r.n.reset,
    {
        Interpolator::new(0, 0)
    }
}

impl Handle<NativeInterpolator> {
    /// A fresh interpolator with room for the given elements and
    /// frames, all frames still empty.
    pub fn new(elem_count: usize, frame_count: usize) -> (r: Self)
        ensures
            r.n.elem_count == elem_count,
            r.n.frame_count == frame_count,
            interp_wf(r.n),
            forall|i: int| 0 <= i < frame_count ==> (#[trigger] r.n.frames@[i]) is None,
            r.n.repeat == 1,
            !r.n.mirror,
            !r.n.reset,
    {
        let mut frames: Vec<Option<KeyFrame>> = Vec::new();
        let mut i: usize = 0;
        while i < frame_count
            invariant
                i <= frame_count,
                frames@.len() == i,
                forall|j: int| 0 <= j < i ==> (#[trigger] frames@[j]) is None,
            decreases frame_count - i,
        {
            frames.push(None);
            i = i + 1;
        }
        Handle {
            n: NativeInterpolator {
                elem_count,
                frame_count,
                frames,
                repeat: 1,
                mirror: false,
                reset: false,
            },
        }
    }

    /// Empties the interpolator and gives it new room.
    pub fn reset(&mut self, elem_count: usize, frame_count: usize) -> (r: &mut Self)
        ensures
            (*r).n.elem_count == elem_count,
            (*r).n.frame_count == frame_count,
            interp_wf((*r).n),
            forall|i: int| 0 <= i < frame_count ==> (#[trigger] (*r).n.frames@[i]) is None,
            (*r).n.repeat == old(self).n.repeat,
            (*r).n.mirror == old(self).n.mirror,
            (*r).n.reset == old(self).n.reset,
            *final(self) == *final(r),
    {
        let mut frames: Vec<Option<KeyFrame>> = Vec::new();
        let mut i: usize = 0;
        while i < frame_count
            invariant
                i <= frame_count,
                frames@.len() == i,
                forall|j: int| 0 <= j < i ==> (#[trigger] frames@[j]) is None,
            decreases frame_count - i,
        {
            frames.push(None);
            i = i + 1;
        }
        self.n.elem_count = elem_count;
        self.n.frame_count = frame_count;
        self.n.frames = frames;
        self
    }

    /// Sets whether odd plays run backwards.
    pub fn set_mirror(&mut self, mirror: bool) -> (r: &mut Self)
        ensures
            (*r).n == (NativeInterpolator { mirror, ..old(self).n }),
            *final(self) == *final(r),
    {
        self.n.mirror = mirror;
        self
    }

    /// Sets how many times the animation plays.
    pub fn set_repeat_count(&mut self, repeat_count: scalar) -> (r: &mut Self)
        ensures
            (*r).n == (NativeInterpolator { repeat: repeat_count, ..old(self).n }),
            *final(self) == *final(r),
    {
        self.n.repeat = repeat_count;
        self
    }

    /// Sets whether the animation resets to the start when done.
    pub fn set_reset(&mut self, reset: bool) -> (r: &mut Self)
        ensures
            (*r).n == (NativeInterpolator { reset, ..old(self).n }),
            *final(self) == *final(r),
    {
        self.n.reset = reset;
        self
    }

    /// How many values each frame interpolates.
    pub fn elem_count(&self) -> (r: usize)
        ensures
            r == self.n.elem_count,
    {
        self.n.elem_count
    }

    /// The animation's first and last frame times, in milliseconds;
    /// absent until every frame is set.
    pub fn duration(&self) -> (r: Option<(u64, u64)>)
        requires
            interp_wf(self.n),
        ensures
            r.is_some() <==> (self.n.frame_count > 0 && forall|i: int|
                0 <= i < self.n.frame_count ==> (#[trigger] self.n.frames@[i]) is Some),
            r.is_some() ==> r.unwrap().0 == frame_time(self.n, 0) && r.unwrap().1 == frame_time(
                self.n,
                self.n.frame_count - 1,
            ),
    {
        if self.n.frame_count == 0 {
            return None;
        }
        let mut i: usize = 0;
        while i < self.n.frame_count
            invariant
                interp_wf(self.n),
                i <= self.n.frame_count,
                forall|j: int| 0 <= j < i ==> (#[trigger] self.n.frames@[j]) is Some,
            decreases self.n.frame_count - i,
        {
            match &self.n.frames[i] {
                Some(_) => (),
                None => {
                    return None;
                },
            }
            i = i + 1;
        }
        let start = self.get_time(0);
        let end = self.get_time(self.n.frame_count - 1);
        Some((start as u64, end as u64))
    }

    /// Sets one key frame.  The frame must land in range and strictly
    /// after its predecessor; the engine refuses anything else.
    pub fn set_key_frame(
        &mut self,
        index: usize,
        time_ms: u32,
        values: &Vec<scalar>,
        blend: Option<(scalar, scalar, scalar, scalar)>,
    ) -> (r: bool)
        requires
            interp_wf(old(self).n),
            values@.len() == old(self).n.elem_count,
        ensures
            interp_wf(final(self).n),
            r <==> (index < old(self).n.frame_count && (index == 0 || (old(self).n.frames@[index
                - 1] is Some && frame_time(old(self).n, index - 1) < time_ms))),
            !r ==> *final(self) == *old(self),
            r ==> ({
                let before = old(self).n;
                let after = final(self).n;
                &&& after.frames@.len() == before.frames@.len()
                &&& after.frames@[index as int] is Some
                &&& frame_time(after, index as int) == time_ms
                &&& frame_values(after, index as int) == values@
                &&& forall|j: int|
                    0 <= j < before.frames@.len() && j != index ==> after.frames@[j]
                        == before.frames@[j]
                &&& after.elem_count == before.elem_count
                &&& after.frame_count == before.frame_count
                &&& after.repeat == before.repeat
                &&& after.mirror == before.mirror
                &&& after.reset == before.reset
            }),
    {
        if index >= self.n.frame_count {
            return false;
        }
        if index > 0 {
            let ok = match &self.n.frames[index - 1] {
                Some(f) => f.time < time_ms,
                None => false,
            };
            if !ok {
                return false;
            }
        }
        let mut copied: Vec<scalar> = Vec::new();
        let mut i: usize = 0;
        while i < values.len()
            invariant
                i <= values@.len(),
                copied@ == values@.subrange(0, i as int),
            decreases values@.len() - i,
        {
            copied.push(values[i]);
            proof {
                assert(copied@ =~= values@.subrange(0, i as int + 1));
            }
            i = i + 1;
        }
        proof {
            assert(values@.subrange(0, values@.len() as int) =~= values@);
        }
        let slot = &mut self.n.frames[index];
        *slot = Some(KeyFrame { time: time_ms, values: copied });
        true
    }

    /// The values the animation holds at a query time: the first
    /// frame's before the start, the last frame's — or the first's,
    /// when reset is on — past the last play, and the interpolation
    /// of the surrounding frames within a play.
    pub fn time_to_values(&self, time_ms: u32, values: &mut Vec<scalar>) -> (r: InterpolatorResult)
        requires
            built(self.n),
            old(values)@.len() == self.n.elem_count,
        ensures
            ({
                let after = final(values)@;
                let n = self.n;
                let time = time_ms as int;
                &&& after.len() == old(values)@.len()
                &&& (time < start_time(n) ==> r == InterpolatorResult::FreezeStart && after
                    == frame_values(n, 0))
                &&& (time >= start_time(n) && is_frozen(n, time) ==> r
                    == InterpolatorResult::FreezeEnd && after == (if n.reset {
                    frame_values(n, 0)
                } else {
                    frame_values(n, n.frame_count - 1)
                }))
                &&& (time >= start_time(n) && !is_frozen(n, time) ==> r
                    == InterpolatorResult::Normal && (exists|i: int|
                    #[trigger] good_index(n, folded_time(n, time), i) && (forall|j: int|
                        0 <= j < n.elem_count ==> after[j] == lerp_spec(
                            frame_values(n, i)[j] as int,
                            frame_values(n, i + 1)[j] as int,
                            t_within(n, folded_time(n, time), i),
                        ))))
            }),
    {
        let (result, tt) = self.time_to_t(time_ms);
        match result {
            InterpolatorResult::FreezeStart => {
                let src = self.get_values(0);
                copy_values_into(values, src);
            },
            InterpolatorResult::FreezeEnd => {
                if self.n.reset {
                    let src = self.get_values(0);
                    copy_values_into(values, src);
                } else {
                    let src = self.get_values(self.n.frame_count - 1);
                    copy_values_into(values, src);
                }
            },
            InterpolatorResult::Normal => {
                let idx = tt.index;
                proof {
                    lemma_folded_in_play(self.n, time_ms as int);
                    lemma_t_bounded(self.n, folded_time(self.n, time_ms as int), idx as int);
                }
                let a_values = self.get_values(idx);
                let b_values = self.get_values(idx + 1);
                let mut j: usize = 0;
                while j < values.len()
                    invariant
                        values@.len() == a_values@.len(),
                        values@.len() == b_values@.len(),
                        0 <= tt.t <= UNIT_SCALAR,
                        j <= values@.len(),
                        forall|k: int|
                            0 <= k < j ==> values@[k] == lerp_spec(
                                a_values@[k] as int,
                                b_values@[k] as int,
                                tt.t as int,
                            ),
                    decreases values@.len() - j,
                {
                    let a = a_values[j];
                    let b = b_values[j];
                    let v = lerp_exec(a, b, tt.t);
                    let slot = &mut values[j];
                    *slot = v;
                    j = j + 1;
                }
                proof {
                    let eff = folded_time(self.n, time_ms as int);
                    assert(good_index(self.n, eff, idx as int) && (forall|k: int|
                        0 <= k < self.n.elem_count ==> values@[k] == lerp_spec(
                            frame_values(self.n, idx as int)[k] as int,
                            frame_values(self.n, idx as int + 1)[k] as int,
                            t_within(self.n, eff, idx as int),
                        )));
                }
            },
        }
        result
    }

    /// The values of frame `i`, which must be set.
    fn get_values<'a>(&'a self, i: usize) -> (r: &'a Vec<scalar>)
        requires
            interp_wf(self.n),
            i < self.n.frame_count,
            self.n.frames@[i as int] is Some,
        ensures
            r@ == frame_values(self.n, i as int),
    {
        match &self.n.frames[i] {
            Some(f) => &f.values,
            None => vstd::pervasive::unreached(),
        }
    }

    /// The time of frame `i`, which must be set.
    fn get_time(&self, i: usize) -> (t: u32)
        requires
            interp_wf(self.n),
            i < self.n.frame_count,
            self.n.frames@[i as int] is Some,
        ensures
            t == frame_time(self.n, i as int),
    {
        match &self.n.frames[i] {
            Some(f) => f.time,
            None => 0,
        }
    }

    /// Where a query time lands in the animation: the result kind,
    /// the interval, and the parameter within it.  A repeat count of
    /// zero or less leaves nothing to play: every time at or past the
    /// start is frozen at the end.
    pub fn time_to_t(&self, time_ms: u32) -> (r: (InterpolatorResult, TimeToT))
        requires
            built(self.n),
        ensures
            time_ms < start_time(self.n) ==> r == (
                InterpolatorResult::FreezeStart,
                TimeToT { t: 0i32, index: 0usize, exact: false },
            ),
            time_ms >= start_time(self.n) && is_frozen(self.n, time_ms as int) ==> r.0
                == InterpolatorResult::FreezeEnd && r.1.t == UNIT_SCALAR && r.1.index == self
                .n.frame_count - 2 && r.1.exact,
            time_ms >= start_time(self.n) && !is_frozen(self.n, time_ms as int) ==> r.0
                == InterpolatorResult::Normal && good_index(
                self.n,
                folded_time(self.n, time_ms as int),
                r.1.index as int,
            ) && r.1.t == t_within(self.n, folded_time(self.n, time_ms as int), r.1.index as int)
                && (r.1.exact <==> folded_time(self.n, time_ms as int) == frame_time(
                self.n,
                r.1.index as int,
            )),
    {
        let count = self.n.frame_count;
        proof {
            lemma_times_increase(self.n, 0, self.n.frame_count - 1);
        }
        let start = self.get_time(0);
        let end = self.get_time(count - 1);
        if time_ms < start {
            return (InterpolatorResult::FreezeStart, TimeToT { t: 0, index: 0, exact: false });
        }
        let played = time_ms - start;
        let dur = end - start;
        let cycles = played / dur;
        let frac = played % dur;
        if cycles as i64 >= self.n.repeat as i64 {
            return (
                InterpolatorResult::FreezeEnd,
                TimeToT { t: UNIT_SCALAR, index: count - 2, exact: true },
            );
        }
        let eff: u32 = if self.n.mirror && cycles % 2 == 1 {
            start + (dur - frac)
        } else {
            start + frac
        };
        let mut idx: usize = 0;
        while idx < count - 2 && self.get_time(idx + 1) <= eff
            invariant
                built(self.n),
                count == self.n.frame_count,
                idx <= count - 2,
                frame_time(self.n, idx as int) <= eff,
            decreases count - idx,
        {
            idx = idx + 1;
        }
        let ft = self.get_time(idx);
        let nt = self.get_time(idx + 1);
        proof {
            assert(ft <= eff);
            assert(ft < nt);
        }
        let diff = eff - ft;
        let num = (diff as u64) * (UNIT_SCALAR as u64);
        let den = (nt - ft) as u64;
        let t64 = num / den;
        proof {
            lemma_fraction_bounded((eff - ft) as int, (nt - ft) as int, UNIT_SCALAR as int);
        }
        let t = t64 as i32;
        (InterpolatorResult::Normal, TimeToT { t, index: idx, exact: eff == ft })
    }
}

/// A parameter over a full interval never exceeds the unit: with
/// `0 <= a <= b` and a positive unit, `(a * u) / b <= u`.
proof fn lemma_fraction_bounded(a: int, b: int, u: int)
    requires
        0 <= a <= b,
        0 < b,
        0 < u,
    ensures
        0 <= (a * u) / b <= u,
{
    assert(a * u <= b * u) by (nonlinear_arith)
        requires
            a <= b,
            u > 0,
    ;
    assert(a * u >= 0) by (nonlinear_arith)
        requires
            a >= 0,
            u >= 0,
    ;
    vstd::arithmetic::div_mod::lemma_div_is_ordered(a * u, b * u, b);
    assert(b * u == u * b) by (nonlinear_arith);
    vstd::arithmetic::div_mod::lemma_div_multiples_vanish(u, b);
    vstd::arithmetic::div_mod::lemma_div_pos_is_pos(a * u, b);
}


/// Frame times increase over any distance, not only between
/// neighbours.
proof fn lemma_times_increase(n: NativeInterpolator, i: int, j: int)
    requires
        built(n),
        0 <= i < j < n.frame_count,
    ensures
        frame_time(n, i) < frame_time(n, j),
    decreases j - i,
{
    if j == i + 1 {
    } else {
        lemma_times_increase(n, i, j - 1);
    }
}


/// The interpolated value between `a` and `b` at parameter `t`.
pub open spec fn lerp_spec(a: int, b: int, t: int) -> int {
    if b >= a {
        a + ((b - a) * t) / (UNIT_SCALAR as int)
    } else {
        a - ((a - b) * t) / (UNIT_SCALAR as int)
    }
}

/// A folded time stays within the play it was folded into.
proof fn lemma_folded_in_play(n: NativeInterpolator, time: int)
    requires
        built(n),
        time >= start_time(n),
    ensures
        start_time(n) <= folded_time(n, time) <= end_time(n),
{
    lemma_times_increase(n, 0, n.frame_count - 1);
    vstd::arithmetic::div_mod::lemma_mod_bound(time - start_time(n), play_length(n));
}

/// The parameter within a good interval lies between zero and the
/// unit.
proof fn lemma_t_bounded(n: NativeInterpolator, eff: int, i: int)
    requires
        built(n),
        good_index(n, eff, i),
        eff <= end_time(n),
    ensures
        0 <= t_within(n, eff, i) <= UNIT_SCALAR,
{
    assert(frame_time(n, i) < frame_time(n, i + 1));
    if i < n.frame_count - 2 {
        lemma_times_increase(n, i + 1, n.frame_count - 1);
    }
    lemma_fraction_bounded(
        eff - frame_time(n, i),
        frame_time(n, i + 1) - frame_time(n, i),
        UNIT_SCALAR as int,
    );
}

/// Interpolates between two scalars at a unit-scaled parameter.
fn lerp_exec(a: scalar, b: scalar, t: scalar) -> (r: scalar)
    requires
        0 <= t <= UNIT_SCALAR,
    ensures
        r == lerp_spec(a as int, b as int, t as int),
{
    if b >= a {
        let d = (b as i64) - (a as i64);
        proof {
            assert(d * (t as i64) <= 0x1_0000_0000i64 * 0x10000i64 && d * (t as i64) >= 0)
                by (nonlinear_arith)
                requires
                    0 <= d <= 0x1_0000_0000i64,
                    0 <= t as i64 <= 0x10000i64,
            ;
        }
        let num = d * (t as i64);
        let q = num / 0x10000i64;
        proof {
            assert(d * (t as int) == (t as int) * d) by (nonlinear_arith);
            if d > 0 {
                lemma_fraction_bounded(t as int, UNIT_SCALAR as int, d as int);
            } else {
                assert(d * (t as int) == 0) by (nonlinear_arith)
                    requires
                        d == 0,
                ;
            }
        }
        ((a as i64) + q) as i32
    } else {
        let d = (a as i64) - (b as i64);
        proof {
            assert(d * (t as i64) <= 0x1_0000_0000i64 * 0x10000i64 && d * (t as i64) >= 0)
                by (nonlinear_arith)
                requires
                    0 <= d <= 0x1_0000_0000i64,
                    0 <= t as i64 <= 0x10000i64,
            ;
        }
        let num = d * (t as i64);
        let q = num / 0x10000i64;
        proof {
            assert(d * (t as int) == (t as int) * d) by (nonlinear_arith);
            if d > 0 {
                lemma_fraction_bounded(t as int, UNIT_SCALAR as int, d as int);
            } else {
                assert(d * (t as int) == 0) by (nonlinear_arith)
                    requires
                        d == 0,
                ;
            }
        }
        ((a as i64) - q) as i32
    }
}

/// Copies one value vector over another of the same length.
fn copy_values_into(dst: &mut Vec<scalar>, src: &Vec<scalar>)
    requires
        old(dst)@.len() == src@.len(),
    ensures
        final(dst)@ == src@,
{
    let mut i: usize = 0;
    while i < src.len()
        invariant
            dst@.len() == src@.len(),
            i <= src@.len(),
            forall|j: int| 0 <= j < i ==> dst@[j] == src@[j],
        decreases src@.len() - i,
    {
        let slot = &mut dst[i];
        *slot = src[i];
        i = i + 1;
    }
    proof {
        assert(dst@ =~= src@);
    }
}

} // verus!
