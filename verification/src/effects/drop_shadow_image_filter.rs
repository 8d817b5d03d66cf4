//! The drop-shadow image filter factory.

use vstd::prelude::*;

use crate::engine::Engine;
use crate::handles::RCHandle;
use crate::image_filter::CropRect;
use crate::image_filter::ImageFilter;
use crate::layout::layout_eq;
use crate::layout::NativeTransmutable;
use crate::layout::TypeLayout;
use crate::native;
use crate::native::ImageFilterKind;
use crate::native::NativeImageFilter;
use crate::point::Vector;
use crate::scalar;
use crate::Color;

verus! {

/// Whether the shadow is drawn under the source or alone.
#[derive(Clone, Copy, PartialEq, Eq, Structural, Debug)]
pub enum ShadowMode {
    /// Draw the shadow, then the source over it.
    DrawShadowAndForeground,
    /// Draw only the shadow.
    DrawShadowOnly,
}

impl NativeTransmutable<i32> for ShadowMode {
    open spec fn native_valid(n: i32) -> bool {
        n == native::SHADOW_MODE_DRAW_SHADOW_AND_FOREGROUND || n
            == native::SHADOW_MODE_DRAW_SHADOW_ONLY
    }

    open spec fn from_native_spec(n: i32) -> ShadowMode {
        if n == native::SHADOW_MODE_DRAW_SHADOW_AND_FOREGROUND {
            ShadowMode::DrawShadowAndForeground
        } else {
            ShadowMode::DrawShadowOnly
        }
    }

    open spec fn to_native_spec(self) -> i32 {
        match self {
            ShadowMode::DrawShadowAndForeground => native::SHADOW_MODE_DRAW_SHADOW_AND_FOREGROUND,
            ShadowMode::DrawShadowOnly => native::SHADOW_MODE_DRAW_SHADOW_ONLY,
        }
    }

    proof fn lemma_cast_roundtrip(self, n: i32) {
    }

    fn from_native(n: i32) -> ShadowMode {
        if n == native::SHADOW_MODE_DRAW_SHADOW_AND_FOREGROUND {
            ShadowMode::DrawShadowAndForeground
        } else {
            ShadowMode::DrawShadowOnly
        }
    }

    fn into_native(self) -> i32 {
        match self {
            ShadowMode::DrawShadowAndForeground => native::SHADOW_MODE_DRAW_SHADOW_AND_FOREGROUND,
            ShadowMode::DrawShadowOnly => native::SHADOW_MODE_DRAW_SHADOW_ONLY,
        }
    }

    fn test_layout() {
        let a = TypeLayout::packed_record(1, 4);
        let b = native::enum32_layout();
        proof {
            assert(a.fields@ =~= b.fields@);
        }
        let same = layout_eq(&a, &b);
        assert(same);
    }
}

/// The native record a successful drop-shadow factory call produces.
pub open spec fn drop_shadow_filter(
    dx: scalar,
    dy: scalar,
    sigma_x: scalar,
    sigma_y: scalar,
    color: Color,
    mode: i32,
    input: usize,
    has_crop: bool,
) -> NativeImageFilter {
    NativeImageFilter {
        s0: dx,
        s1: dy,
        s2: sigma_x,
        s3: sigma_y,
        color,
        mode,
        input,
        has_crop,
        ..native::blank_image_filter(ImageFilterKind::DropShadow)
    }
}

impl RCHandle<NativeImageFilter> {
    /// A drop shadow of this filter's output.  Fails exactly on a
    /// negative sigma, which the engine rejects with a null result.
    pub fn drop_shadow(
        &self,
        crop_rect: Option<&CropRect>,
        delta: Vector,
        sigma: (scalar, scalar),
        color: Color,
        shadow_mode: ShadowMode,
        e: &mut Engine<NativeImageFilter>,
    ) -> (r: Option<Self>)
        requires
            old(e).wf(),
            self.is_valid(*old(e)),
        ensures
            final(e).wf(),
            r.is_some() <==> (sigma.0 >= 0 && sigma.1 >= 0),
            r.is_none() ==> final(e).slots@ == old(e).slots@,
            r.is_some() ==> final(e).slots@ == old(e).allocated(
                drop_shadow_filter(
                    delta.x,
                    delta.y,
                    sigma.0,
                    sigma.1,
                    color,
                    shadow_mode.to_native_spec(),
                    self.ptr,
                    crop_rect.is_some(),
                ),
            ) && r.unwrap().is_valid(*final(e)) && r.unwrap().value_in(*final(e))
                == drop_shadow_filter(
                delta.x,
                delta.y,
                sigma.0,
                sigma.1,
                color,
                shadow_mode.to_native_spec(),
                self.ptr,
                crop_rect.is_some(),
            ),
    {
        new(delta, sigma, color, shadow_mode, self, crop_rect, e)
    }
}

/// Makes a drop-shadow image filter over `input`.  Fails exactly on a
/// negative sigma, which the engine rejects with a null result.
pub fn new(
    delta: Vector,
    sigma: (scalar, scalar),
    color: Color,
    shadow_mode: ShadowMode,
    input: &ImageFilter,
    crop_rect: Option<&CropRect>,
    e: &mut Engine<NativeImageFilter>,
) -> (r: Option<ImageFilter>)
    requires
        old(e).wf(),
        input.is_valid(*old(e)),
    ensures
        final(e).wf(),
        r.is_some() <==> (sigma.0 >= 0 && sigma.1 >= 0),
        r.is_none() ==> final(e).slots@ == old(e).slots@,
        r.is_some() ==> final(e).slots@ == old(e).allocated(
            drop_shadow_filter(
                delta.x,
                delta.y,
                sigma.0,
                sigma.1,
                color,
                shadow_mode.to_native_spec(),
                input.ptr,
                crop_rect.is_some(),
            ),
        ) && r.unwrap().is_valid(*final(e)) && r.unwrap().value_in(*final(e))
            == drop_shadow_filter(
            delta.x,
            delta.y,
            sigma.0,
            sigma.1,
            color,
            shadow_mode.to_native_spec(),
            input.ptr,
            crop_rect.is_some(),
        ),
{
    if sigma.0 >= 0 && sigma.1 >= 0 {
        let mut value = native::make_blank_image_filter(ImageFilterKind::DropShadow);
        value.s0 = delta.x;
        value.s1 = delta.y;
        value.s2 = sigma.0;
        value.s3 = sigma.1;
        value.color = color;
        value.mode = shadow_mode.into_native();
        value.input = input.ptr;
        value.has_crop = crop_rect.is_some();
        let p = e.allocate(value);
        RCHandle::from_ptr(p, e)
    } else {
        RCHandle::from_ptr(0, e)
    }
}

} // verus!
