//! The gaussian-blur image filter factory.

use vstd::prelude::*;

use crate::engine::Engine;
use crate::handles::RCHandle;
use crate::image_filter::CropRect;
use crate::image_filter::ImageFilter;
use crate::layout::layout_eq;
use crate::layout::NativeTransmutable;
use crate::layout::TypeLayout;
use crate::native;
use crate::native::ImageFilterKind;
use crate::native::NativeImageFilter;
use crate::scalar;

verus! {

/// How the blur samples beyond the filtered region's edge.
#[derive(Clone, Copy, PartialEq, Eq, Structural, Debug)]
pub enum TileMode {
    /// Repeat the edge pixel.
    Clamp,
    /// Wrap around to the opposite edge.
    Repeat,
    /// Treat the outside as transparent black.
    ClampToBlack,
}

impl NativeTransmutable<i32> for TileMode {
    open spec fn native_valid(n: i32) -> bool {
        n == native::TILE_MODE_CLAMP || n == native::TILE_MODE_REPEAT
            || n == native::TILE_MODE_CLAMP_TO_BLACK
    }

    open spec fn from_native_spec(n: i32) -> TileMode {
        if n == native::TILE_MODE_CLAMP {
            TileMode::Clamp
        } else if n == native::TILE_MODE_REPEAT {
            TileMode::Repeat
        } else {
            TileMode::ClampToBlack
        }
    }

    open spec fn to_native_spec(self) -> i32 {
        match self {
            TileMode::Clamp => native::TILE_MODE_CLAMP,
            TileMode::Repeat => native::TILE_MODE_REPEAT,
            TileMode::ClampToBlack => native::TILE_MODE_CLAMP_TO_BLACK,
        }
    }

    proof fn lemma_cast_roundtrip(self, n: i32) {
    }

    fn from_native(n: i32) -> TileMode {
        if n == native::TILE_MODE_CLAMP {
            TileMode::Clamp
        } else if n == native::TILE_MODE_REPEAT {
            TileMode::Repeat
        } else {
            TileMode::ClampToBlack
        }
    }

    fn into_native(self) -> i32 {
        match self {
            TileMode::Clamp => native::TILE_MODE_CLAMP,
            TileMode::Repeat => native::TILE_MODE_REPEAT,
            TileMode::ClampToBlack => native::TILE_MODE_CLAMP_TO_BLACK,
        }
    }

    fn test_layout() {
        let a = TypeLayout::packed_record(1, 4);
        let b = native::enum32_layout();
        proof {
            assert(a.fields@ =~= b.fields@);
        }
        let same = layout_eq(&a, &b);
        assert(same);
    }
}

/// The declared tile-mode value of an optional argument: absent means
/// clamp to black.
pub open spec fn tile_mode_value(tile_mode: Option<TileMode>) -> i32 {
    match tile_mode {
        Some(t) => t.to_native_spec(),
        None => native::TILE_MODE_CLAMP_TO_BLACK,
    }
}

/// The native record a successful blur factory call produces.
pub open spec fn blur_filter(
    sigma_x: scalar,
    sigma_y: scalar,
    input: usize,
    has_crop: bool,
    mode: i32,
) -> NativeImageFilter {
    NativeImageFilter {
        s0: sigma_x,
        s1: sigma_y,
        input,
        has_crop,
        mode,
        ..native::blank_image_filter(ImageFilterKind::Blur)
    }
}

impl RCHandle<NativeImageFilter> {
    /// A blur of this filter's output.  Fails exactly on a negative
    /// sigma, which the engine rejects with a null result.
    pub fn blur(
        &self,
        crop_rect: Option<&CropRect>,
        sigma: (scalar, scalar),
        tile_mode: Option<TileMode>,
        e: &mut Engine<NativeImageFilter>,
    ) -> (r: Option<Self>)
        requires
            old(e).wf(),
            self.is_valid(*old(e)),
        ensures
            final(e).wf(),
            r.is_some() <==> (sigma.0 >= 0 && sigma.1 >= 0),
            r.is_none() ==> final(e).slots@ == old(e).slots@,
            r.is_some() ==> final(e).slots@ == old(e).allocated(
                blur_filter(
                    sigma.0,
                    sigma.1,
                    self.ptr,
                    crop_rect.is_some(),
                    tile_mode_value(tile_mode),
                ),
            ) && r.unwrap().is_valid(*final(e)) && r.unwrap().value_in(*final(e)) == blur_filter(
                sigma.0,
                sigma.1,
                self.ptr,
                crop_rect.is_some(),
                tile_mode_value(tile_mode),
            ),
    {
        new(sigma, self, crop_rect, tile_mode, e)
    }
}

/// Makes a blur image filter over `input`.  Fails exactly on a
/// negative sigma, which the engine rejects with a null result.
pub fn new(
    sigma: (scalar, scalar),
    input: &ImageFilter,
    crop_rect: Option<&CropRect>,
    tile_mode: Option<TileMode>,
    e: &mut Engine<NativeImageFilter>,
) -> (r: Option<ImageFilter>)
    requires
        old(e).wf(),
        input.is_valid(*old(e)),
    ensures
        final(e).wf(),
        r.is_some() <==> (sigma.0 >= 0 && sigma.1 >= 0),
        r.is_none() ==> final(e).slots@ == old(e).slots@,
        r.is_some() ==> final(e).slots@ == old(e).allocated(
            blur_filter(
                sigma.0,
                sigma.1,
                input.ptr,
                crop_rect.is_some(),
                tile_mode_value(tile_mode),
            ),
        ) && r.unwrap().is_valid(*final(e)) && r.unwrap().value_in(*final(e)) == blur_filter(
            sigma.0,
            sigma.1,
            input.ptr,
            crop_rect.is_some(),
            tile_mode_value(tile_mode),
        ),
{
    if sigma.0 >= 0 && sigma.1 >= 0 {
        let mode = match tile_mode {
            Some(t) => t,
            None => TileMode::ClampToBlack,
        };
        let mut value = native::make_blank_image_filter(ImageFilterKind::Blur);
        value.s0 = sigma.0;
        value.s1 = sigma.1;
        value.input = input.ptr;
        value.has_crop = crop_rect.is_some();
        value.mode = mode.into_native();
        let p = e.allocate(value);
        RCHandle::from_ptr(p, e)
    } else {
        RCHandle::from_ptr(0, e)
    }
}

} // verus!
