//! The owned font handle: a typeface reference and the scaling state
//! applied to it, with the glyph operations the engine offers on it.
//!
//! The engine's text shaping is modeled deterministically: decoding
//! follows [`crate::text_encoding`], every code point below `0x10000`
//! maps to the glyph of its own value, and each glyph advances the
//! pen by the font's size.

use vstd::prelude::*;

use crate::engine::Engine;
use crate::font_metrics::FontMetrics;
use crate::font_metrics::Flags;
use crate::handles::Handle;
use crate::handles::RCHandle;
use crate::layout::layout_eq;
use crate::layout::NativeTransmutable;
use crate::layout::TypeLayout;
use crate::native;
use crate::native::NativeFont;
use crate::native::NativeTypeface;
use crate::scalar;
use crate::paint::Paint;
use crate::path::Path;
use crate::point::Point;
use crate::rect::Rect;
use crate::text_encoding::decode_units;
use crate::text_encoding::text_units;
use crate::text_encoding::TextEncoding;
use crate::typeface::Typeface;
use crate::GlyphId;
use crate::Unichar;

verus! {

/// How glyph edges are rendered.
#[derive(Clone, Copy, PartialEq, Eq, Structural, Debug)]
pub enum Edging {
    /// No anti-aliasing.
    Alias,
    /// Anti-aliased edges.
    AntiAlias,
    /// Anti-aliased edges with sub-pixel coverage.
    SubpixelAntiAlias,
}

impl NativeTransmutable<i32> for Edging {
    open spec fn native_valid(n: i32) -> bool {
        n == native::EDGING_ALIAS || n == native::EDGING_ANTI_ALIAS || n
            == native::EDGING_SUBPIXEL_ANTI_ALIAS
    }

    open spec fn from_native_spec(n: i32) -> Edging {
        if n == native::EDGING_ALIAS {
            Edging::Alias
        } else if n == native::EDGING_ANTI_ALIAS {
            Edging::AntiAlias
        } else {
            Edging::SubpixelAntiAlias
        }
    }

    open spec fn to_native_spec(self) -> i32 {
        match self {
            Edging::Alias => native::EDGING_ALIAS,
            Edging::AntiAlias => native::EDGING_ANTI_ALIAS,
            Edging::SubpixelAntiAlias => native::EDGING_SUBPIXEL_ANTI_ALIAS,
        }
    }

    proof fn lemma_cast_roundtrip(self, n: i32) {
    }

    fn from_native(n: i32) -> Edging {
        if n == native::EDGING_ALIAS {
            Edging::Alias
        } else if n == native::EDGING_ANTI_ALIAS {
            Edging::AntiAlias
        } else {
            Edging::SubpixelAntiAlias
        }
    }

    fn into_native(self) -> i32 {
        match self {
            Edging::Alias => native::EDGING_ALIAS,
            Edging::AntiAlias => native::EDGING_ANTI_ALIAS,
            Edging::SubpixelAntiAlias => native::EDGING_SUBPIXEL_ANTI_ALIAS,
        }
    }

    fn test_layout() {
        let a = TypeLayout::packed_record(1, 4);
        let b = native::enum32_layout();
        proof {
            assert(a.fields@ =~= b.fields@);
        }
        let same = layout_eq(&a, &b);
        assert(same);
    }
}

/// How much the engine hints glyph outlines.
#[derive(Clone, Copy, PartialEq, Eq, Structural, Debug)]
pub enum FontHinting {
    /// Hinting switched off.
    NoHinting,
    /// Slight hinting.
    Slight,
    /// Normal hinting.
    Normal,
    /// Full hinting.
    Full,
}

impl NativeTransmutable<i32> for FontHinting {
    open spec fn native_valid(n: i32) -> bool {
        n == native::FONT_HINTING_NONE || n == native::FONT_HINTING_SLIGHT || n
            == native::FONT_HINTING_NORMAL || n == native::FONT_HINTING_FULL
    }

    open spec fn from_native_spec(n: i32) -> FontHinting {
        if n == native::FONT_HINTING_NONE {
            FontHinting::NoHinting
        } else if n == native::FONT_HINTING_SLIGHT {
            FontHinting::Slight
        } else if n == native::FONT_HINTING_NORMAL {
            FontHinting::Normal
        } else {
            FontHinting::Full
        }
    }

    open spec fn to_native_spec(self) -> i32 {
        match self {
            FontHinting::NoHinting => native::FONT_HINTING_NONE,
            FontHinting::Slight => native::FONT_HINTING_SLIGHT,
            FontHinting::Normal => native::FONT_HINTING_NORMAL,
            FontHinting::Full => native::FONT_HINTING_FULL,
        }
    }

    proof fn lemma_cast_roundtrip(self, n: i32) {
    }

    fn from_native(n: i32) -> FontHinting {
        if n == native::FONT_HINTING_NONE {
            FontHinting::NoHinting
        } else if n == native::FONT_HINTING_SLIGHT {
            FontHinting::Slight
        } else if n == native::FONT_HINTING_NORMAL {
            FontHinting::Normal
        } else {
            FontHinting::Full
        }
    }

    fn into_native(self) -> i32 {
        match self {
            FontHinting::NoHinting => native::FONT_HINTING_NONE,
            FontHinting::Slight => native::FONT_HINTING_SLIGHT,
            FontHinting::Normal => native::FONT_HINTING_NORMAL,
            FontHinting::Full => native::FONT_HINTING_FULL,
        }
    }

    fn test_layout() {
        let a = TypeLayout::packed_record(1, 4);
        let b = native::enum32_layout();
        proof {
            assert(a.fields@ =~= b.fields@);
        }
        let same = layout_eq(&a, &b);
        assert(same);
    }
}

/// An exclusively owned font.
pub type Font = Handle<NativeFont>;

/// The font state with one flag bit set or cleared.
pub open spec fn with_flag(f: NativeFont, bit: u32, on: bool) -> NativeFont {
    NativeFont {
        flags: if on {
            f.flags | bit
        } else {
            f.flags & !bit
        },
        ..f
    }
}

/// The size an optional size argument resolves to.
pub open spec fn size_or_default(size: Option<scalar>) -> scalar {
    match size {
        Some(s) => s,
        None => native::FONT_DEFAULT_SIZE,
    }
}

impl Default for Handle<NativeFont> {
    /// A fresh font: default typeface, default size, no scaling.
    fn default() -> (r: Self)
        ensures
            r.n == native::default_font(0usize, native::FONT_DEFAULT_SIZE),
    {
        Handle { n: native::make_default_font(0, native::FONT_DEFAULT_SIZE) }
    }
}

impl Handle<NativeFont> {
    /// The font's typeface pointer is null or live in `e`.
    pub open spec fn typeface_ok(self, e: Engine<NativeTypeface>) -> bool {
        self.n.typeface == 0 || e.is_live(self.n.typeface)
    }

    /// A font over `typeface` at the given size, or the default size.
    /// The font takes a share of the typeface.
    pub fn from_typeface(
        typeface: &Typeface,
        size: Option<scalar>,
        e: &mut Engine<NativeTypeface>,
    ) -> (r: Self)
        requires
            old(e).wf(),
            typeface.is_valid(*old(e)),
            old(e).count_of(typeface.ptr) < u32::MAX,
        ensures
            final(e).wf(),
            final(e).slots@ == old(e).retained(typeface.ptr),
            r.n == native::default_font(typeface.ptr, size_or_default(size)),
            r.typeface_ok(*final(e)),
    {
        e.retain(typeface.ptr);
        let s = match size {
            Some(s) => s,
            None => native::FONT_DEFAULT_SIZE,
        };
        Handle { n: native::make_default_font(typeface.ptr, s) }
    }

    /// A font over `typeface` at the given size.  The font takes a
    /// share of the typeface.
    pub fn from_typeface_with_size(
        typeface: &Typeface,
        size: scalar,
        e: &mut Engine<NativeTypeface>,
    ) -> (r: Self)
        requires
            old(e).wf(),
            typeface.is_valid(*old(e)),
            old(e).count_of(typeface.ptr) < u32::MAX,
        ensures
            final(e).wf(),
            final(e).slots@ == old(e).retained(typeface.ptr),
            r.n == native::default_font(typeface.ptr, size),
            r.typeface_ok(*final(e)),
    {
        Self::from_typeface(typeface, Some(size), e)
    }

    /// A font over `typeface` with size, horizontal scale and skew.
    /// The font takes a share of the typeface.
    pub fn from_typeface_with_size_scale_and_skew(
        typeface: &Typeface,
        size: scalar,
        scale: scalar,
        skew: scalar,
        e: &mut Engine<NativeTypeface>,
    ) -> (r: Self)
        requires
            old(e).wf(),
            typeface.is_valid(*old(e)),
            old(e).count_of(typeface.ptr) < u32::MAX,
        ensures
            final(e).wf(),
            final(e).slots@ == old(e).retained(typeface.ptr),
            r.n == (NativeFont {
                scale_x: scale,
                skew_x: skew,
                ..native::default_font(typeface.ptr, size)
            }),
            r.typeface_ok(*final(e)),
    {
        let mut font = Self::from_typeface(typeface, Some(size), e);
        font.n.scale_x = scale;
        font.n.skew_x = skew;
        font
    }

    /// A font over `typeface` with size, horizontal scale and skew.
    /// The font takes a share of the typeface.
    pub fn from_typeface_with_params(
        typeface: &Typeface,
        size: scalar,
        scale: scalar,
        skew: scalar,
        e: &mut Engine<NativeTypeface>,
    ) -> (r: Self)
        requires
            old(e).wf(),
            typeface.is_valid(*old(e)),
            old(e).count_of(typeface.ptr) < u32::MAX,
        ensures
            final(e).wf(),
            final(e).slots@ == old(e).retained(typeface.ptr),
            r.n == (NativeFont {
                scale_x: scale,
                skew_x: skew,
                ..native::default_font(typeface.ptr, size)
            }),
            r.typeface_ok(*final(e)),
    {
        Self::from_typeface_with_size_scale_and_skew(typeface, size, scale, skew, e)
    }

    /// Whether auto-hinting is forced.
    pub fn is_force_auto_hinting(&self) -> (r: bool)
        ensures
            r == (self.n.flags & native::FONT_FLAG_FORCE_AUTO_HINTING != 0),
    {
        self.n.flags & native::FONT_FLAG_FORCE_AUTO_HINTING != 0
    }

    /// Whether embedded bitmaps may be used.
    pub fn is_embedded_bitmaps(&self) -> (r: bool)
        ensures
            r == (self.n.flags & native::FONT_FLAG_EMBEDDED_BITMAPS != 0),
    {
        self.n.flags & native::FONT_FLAG_EMBEDDED_BITMAPS != 0
    }

    /// Whether glyphs are positioned at sub-pixel accuracy.
    pub fn is_subpixel(&self) -> (r: bool)
        ensures
            r == (self.n.flags & native::FONT_FLAG_SUBPIXEL != 0),
    {
        self.n.flags & native::FONT_FLAG_SUBPIXEL != 0
    }

    /// Whether metrics scale linearly.
    pub fn is_linear_metrics(&self) -> (r: bool)
        ensures
            r == (self.n.flags & native::FONT_FLAG_LINEAR_METRICS != 0),
    {
        self.n.flags & native::FONT_FLAG_LINEAR_METRICS != 0
    }

    /// Whether bold is approximated.
    pub fn is_embolden(&self) -> (r: bool)
        ensures
            r == (self.n.flags & native::FONT_FLAG_EMBOLDEN != 0),
    {
        self.n.flags & native::FONT_FLAG_EMBOLDEN != 0
    }

    /// Sets whether auto-hinting is forced.
    pub fn set_force_autohinting(&mut self, force_auto_hinting: bool) -> (r: &mut Self)
        ensures
            (*r).n == with_flag(old(self).n, native::FONT_FLAG_FORCE_AUTO_HINTING, force_auto_hinting),
            *final(self) == *final(r),
    {
        self.set_flag(native::FONT_FLAG_FORCE_AUTO_HINTING, force_auto_hinting)
    }

    /// Sets whether embedded bitmaps may be used.
    pub fn set_embedded_bitmaps(&mut self, embedded_bitmaps: bool) -> (r: &mut Self)
        ensures
            (*r).n == with_flag(old(self).n, native::FONT_FLAG_EMBEDDED_BITMAPS, embedded_bitmaps),
            *final(self) == *final(r),
    {
        self.set_flag(native::FONT_FLAG_EMBEDDED_BITMAPS, embedded_bitmaps)
    }

    /// Sets whether glyphs are positioned at sub-pixel accuracy.
    pub fn set_subpixel(&mut self, subpixel: bool) -> (r: &mut Self)
        ensures
            (*r).n == with_flag(old(self).n, native::FONT_FLAG_SUBPIXEL, subpixel),
            *final(self) == *final(r),
    {
        self.set_flag(native::FONT_FLAG_SUBPIXEL, subpixel)
    }

    /// Sets whether metrics scale linearly.
    pub fn set_linear_metrics(&mut self, linear_metrics: bool) -> (r: &mut Self)
        ensures
            (*r).n == with_flag(old(self).n, native::FONT_FLAG_LINEAR_METRICS, linear_metrics),
            *final(self) == *final(r),
    {
        self.set_flag(native::FONT_FLAG_LINEAR_METRICS, linear_metrics)
    }

    /// Sets whether bold is approximated.
    pub fn set_embolden(&mut self, embolden: bool) -> (r: &mut Self)
        ensures
            (*r).n == with_flag(old(self).n, native::FONT_FLAG_EMBOLDEN, embolden),
            *final(self) == *final(r),
    {
        self.set_flag(native::FONT_FLAG_EMBOLDEN, embolden)
    }

    /// Sets or clears one flag bit.
    fn set_flag(&mut self, bit: u32, on: bool) -> (r: &mut Self)
        ensures
            (*r).n == with_flag(old(self).n, bit, on),
            *final(self) == *final(r),
    {
        if on {
            self.n.flags = self.n.flags | bit;
        } else {
            self.n.flags = self.n.flags & !bit;
        }
        self
    }

    /// The font's glyph edging.
    pub fn edging(&self) -> (r: Edging)
        requires
            Edging::native_valid(self.n.edging),
        ensures
            r == Edging::from_native_spec(self.n.edging),
    {
        Edging::from_native(self.n.edging)
    }

    /// Sets the font's glyph edging.
    pub fn set_edging(&mut self, edging: Edging) -> (r: &mut Self)
        ensures
            (*r).n == (NativeFont { edging: edging.to_native_spec(), ..old(self).n }),
            *final(self) == *final(r),
    {
        self.n.edging = edging.into_native();
        self
    }

    /// Sets the font's hinting level.
    pub fn set_hinting(&mut self, hinting: FontHinting) -> (r: &mut Self)
        ensures
            (*r).n == (NativeFont { hinting: hinting.to_native_spec(), ..old(self).n }),
            *final(self) == *final(r),
    {
        self.n.hinting = hinting.into_native();
        self
    }

    /// The font's hinting level.
    pub fn hinting(&self) -> (r: FontHinting)
        requires
            FontHinting::native_valid(self.n.hinting),
        ensures
            r == FontHinting::from_native_spec(self.n.hinting),
    {
        FontHinting::from_native(self.n.hinting)
    }

    /// A copy of the font at another size.  Fails exactly on a
    /// negative size, which the engine rejects; a copy takes its own
    /// share of the typeface.
    pub fn with_size(&self, size: scalar, e: &mut Engine<NativeTypeface>) -> (r: Option<Self>)
        requires
            old(e).wf(),
            self.typeface_ok(*old(e)),
            self.n.typeface != 0 ==> old(e).count_of(self.n.typeface) < u32::MAX,
        ensures
            final(e).wf(),
            r.is_some() <==> size >= 0,
            r.is_none() ==> final(e).slots@ == old(e).slots@,
            r.is_some() ==> (r.unwrap().n == (NativeFont { size, ..self.n }) && (if self.n.typeface
                != 0 {
                final(e).slots@ == old(e).retained(self.n.typeface)
            } else {
                final(e).slots@ == old(e).slots@
            })),
    {
        if size >= 0 {
            if self.n.typeface != 0 {
                e.retain(self.n.typeface);
            }
            let mut n = self.n;
            n.size = size;
            Some(Handle { n })
        } else {
            None
        }
    }

    /// The font's typeface, as a new share; `None` while the font
    /// uses the default.
    pub fn typeface(&self, e: &mut Engine<NativeTypeface>) -> (r: Option<Typeface>)
        requires
            old(e).wf(),
            self.typeface_ok(*old(e)),
            self.n.typeface != 0 ==> old(e).count_of(self.n.typeface) < u32::MAX,
        ensures
            final(e).wf(),
            r.is_some() <==> self.n.typeface != 0,
            self.n.typeface == 0 ==> *final(e) == *old(e),
            self.n.typeface != 0 ==> final(e).slots@ == old(e).retained(self.n.typeface),
            r.is_some() ==> r.unwrap().ptr == self.n.typeface && r.unwrap().is_valid(*final(e)),
    {
        RCHandle::from_unshared_ptr(self.n.typeface, e)
    }

    /// The font's typeface, or the engine's default where the font
    /// uses none; always a new share.
    pub fn typeface_or_default(&self, e: &mut Engine<NativeTypeface>) -> (r: Typeface)
        requires
            old(e).wf(),
            self.typeface_ok(*old(e)),
            self.n.typeface != 0 ==> old(e).count_of(self.n.typeface) < u32::MAX,
        ensures
            final(e).wf(),
            self.n.typeface != 0 ==> final(e).slots@ == old(e).retained(self.n.typeface)
                && r.ptr == self.n.typeface,
            self.n.typeface == 0 ==> final(e).slots@ == old(e).allocated(
                NativeTypeface { unique_id: 0u32 },
            ),
            r.is_valid(*final(e)),
    {
        if self.n.typeface != 0 {
            let r = RCHandle::from_unshared_ptr(self.n.typeface, e);
            r.unwrap()
        } else {
            Typeface::new_default(e)
        }
    }

    /// The font's text size.
    pub fn size(&self) -> (r: scalar)
        ensures
            r == self.n.size,
    {
        self.n.size
    }

    /// The font's horizontal scale.
    pub fn scale_x(&self) -> (r: scalar)
        ensures
            r == self.n.scale_x,
    {
        self.n.scale_x
    }

    /// The font's horizontal skew.
    pub fn skew_x(&self) -> (r: scalar)
        ensures
            r == self.n.skew_x,
    {
        self.n.skew_x
    }

    /// Replaces the font's typeface: takes a share of the new one and
    /// gives the old share back.
    pub fn set_typeface(&mut self, tf: &Typeface, e: &mut Engine<NativeTypeface>)
        requires
            old(e).wf(),
            tf.is_valid(*old(e)),
            old(self).typeface_ok(*old(e)),
            old(e).count_of(tf.ptr) < u32::MAX,
        ensures
            final(e).wf(),
            final(self).n == (NativeFont { typeface: tf.ptr, ..old(self).n }),
            old(self).n.typeface == 0 ==> final(e).slots@ == old(e).retained(tf.ptr),
            old(self).n.typeface != 0 ==> final(e).slots@ == crate::engine::seq_released(
                old(e).retained(tf.ptr),
                old(self).n.typeface,
            ),
    {
        e.retain(tf.ptr);
        if self.n.typeface != 0 {
            e.release(self.n.typeface);
        }
        self.n.typeface = tf.ptr;
    }

    /// Sets the font's text size.
    pub fn set_size(&mut self, size: scalar) -> (r: &mut Self)
        ensures
            (*r).n == (NativeFont { size, ..old(self).n }),
            *final(self) == *final(r),
    {
        self.n.size = size;
        self
    }

    /// Sets the font's horizontal scale.
    pub fn set_scale_x(&mut self, scale_x: scalar) -> (r: &mut Self)
        ensures
            (*r).n == (NativeFont { scale_x, ..old(self).n }),
            *final(self) == *final(r),
    {
        self.n.scale_x = scale_x;
        self
    }

    /// Sets the font's horizontal skew.
    pub fn set_skew_x(&mut self, skew_x: scalar) -> (r: &mut Self)
        ensures
            (*r).n == (NativeFont { skew_x, ..old(self).n }),
            *final(self) == *final(r),
    {
        self.n.skew_x = skew_x;
        self
    }

    /// Tears the font down: gives its typeface share back.  Runs at
    /// most once, because it consumes the handle.
    pub fn drop_handle(self, e: &mut Engine<NativeTypeface>)
        requires
            old(e).wf(),
            self.typeface_ok(*old(e)),
        ensures
            final(e).wf(),
            self.n.typeface == 0 ==> *final(e) == *old(e),
            self.n.typeface != 0 ==> final(e).slots@ == old(e).released(self.n.typeface),
    {
        if self.n.typeface != 0 {
            e.release(self.n.typeface);
        }
    }
}


/// The glyph of one text unit: code points below `0x10000` map to
/// the glyph of their own value, all others to the missing glyph.
pub open spec fn glyph_for(u: u32) -> GlyphId {
    if 0 < u && u < 0x10000 {
        u as u16
    } else {
        0u16
    }
}

/// The glyph a decoded unit yields under an encoding: glyph streams
/// pass their units through, the rest map code points.
pub open spec fn unit_glyph(encoding: TextEncoding, u: u32) -> GlyphId {
    match encoding {
        TextEncoding::GlyphId => u as u16,
        _ => glyph_for(u),
    }
}

/// The glyph of one character.
pub open spec fn char_glyph(c: char) -> GlyphId {
    glyph_for(c as u32)
}

/// The glyph of one code point, which may be negative.
pub open spec fn unichar_glyph(uni: Unichar) -> GlyphId {
    if 0 < uni && uni < 0x10000 {
        uni as u16
    } else {
        0u16
    }
}

/// Maps one text unit to its glyph.
fn glyph_of_unit(u: u32) -> (g: GlyphId)
    ensures
        g == glyph_for(u),
{
    if 0 < u && u < 0x10000 {
        u as u16
    } else {
        0
    }
}

/// The metrics the engine reports for a font of the given size.
pub open spec fn metrics_of(size: scalar) -> FontMetrics {
    FontMetrics {
        flags: Flags { bits: 0xfu32 },
        top: ((0 - size) as i32),
        ascent: ((0 - size) as i32),
        descent: 0i32,
        bottom: 0i32,
        leading: 0i32,
        avg_char_width: size,
        max_char_width: size,
        x_min: 0i32,
        x_max: size,
        x_height: size,
        cap_height: size,
        underline_thickness: 1i32,
        underline_position: 0i32,
        strikeout_thickness: 1i32,
        strikeout_position: ((0 - size) as i32),
    }
}

/// The bound the engine reports for any glyph of a font of the given
/// size.
pub open spec fn glyph_bound(size: scalar) -> Rect {
    Rect { left: 0i32, top: ((0 - size) as i32), right: size, bottom: 0i32 }
}

impl Handle<NativeFont> {
    /// The glyphs of a string.  A buffer with room for them all gets
    /// them; a shorter buffer makes the call a count-only probe that
    /// writes nothing.  Returns how many glyphs the string has.
    pub fn str_to_glyphs(&self, s: &str, glyphs: &mut Vec<GlyphId>) -> (r: usize)
        ensures
            r == s@.len(),
            final(glyphs)@.len() == old(glyphs)@.len(),
            old(glyphs)@.len() < r ==> final(glyphs)@ == old(glyphs)@,
            old(glyphs)@.len() >= r ==> (forall|i: int|
                0 <= i < r ==> #[trigger] final(glyphs)@[i] == char_glyph(s@[i])) && (forall|i: int|
                r <= i < old(glyphs)@.len() ==> #[trigger] final(glyphs)@[i] == old(glyphs)@[i]),
    {
        let count = s.unicode_len();
        if glyphs.len() < count {
            return count;
        }
        let mut i: usize = 0;
        while i < count
            invariant
                count == s@.len(),
                count <= glyphs@.len(),
                glyphs@.len() == old(glyphs)@.len(),
                i <= count,
                forall|j: int| 0 <= j < i ==> #[trigger] glyphs@[j] == char_glyph(s@[j]),
                forall|j: int| i <= j < glyphs@.len() ==> #[trigger] glyphs@[j] == old(glyphs)@[j],
            decreases count - i,
        {
            let c = s.get_char(i);
            let g = glyph_of_unit(c as u32);
            let slot = &mut glyphs[i];
            *slot = g;
            i = i + 1;
        }
        count
    }

    /// How many glyphs a string has.
    pub fn count_str(&self, s: &str) -> (r: usize)
        ensures
            r == s@.len(),
    {
        s.unicode_len()
    }

    /// The glyphs of encoded text.  A buffer with room for them all
    /// gets them; a shorter buffer makes the call a count-only probe
    /// that writes nothing.  Returns how many glyphs the text has.
    pub fn text_to_glyphs(
        &self,
        text: &Vec<u8>,
        encoding: TextEncoding,
        glyphs: &mut Vec<GlyphId>,
    ) -> (r: usize)
        ensures
            r == text_units(text@, encoding).len(),
            final(glyphs)@.len() == old(glyphs)@.len(),
            old(glyphs)@.len() < r ==> final(glyphs)@ == old(glyphs)@,
            old(glyphs)@.len() >= r ==> (forall|i: int|
                0 <= i < r ==> #[trigger] final(glyphs)@[i] == unit_glyph(
                    encoding,
                    text_units(text@, encoding)[i],
                )) && (forall|i: int|
                r <= i < old(glyphs)@.len() ==> #[trigger] final(glyphs)@[i] == old(glyphs)@[i]),
    {
        let units = decode_units(text, encoding);
        let count = units.len();
        if glyphs.len() < count {
            return count;
        }
        let mut i: usize = 0;
        while i < count
            invariant
                units@ == text_units(text@, encoding),
                count == units@.len(),
                count <= glyphs@.len(),
                glyphs@.len() == old(glyphs)@.len(),
                i <= count,
                forall|j: int|
                    0 <= j < i ==> #[trigger] glyphs@[j] == unit_glyph(encoding, units@[j]),
                forall|j: int| i <= j < glyphs@.len() ==> #[trigger] glyphs@[j] == old(glyphs)@[j],
            decreases count - i,
        {
            let u = units[i];
            let g: GlyphId = match encoding {
                TextEncoding::GlyphId => #[verifier::truncate] (u as u16),
                _ => glyph_of_unit(u),
            };
            let slot = &mut glyphs[i];
            *slot = g;
            i = i + 1;
        }
        count
    }

    /// How many glyphs encoded text has.
    pub fn count_text(&self, text: &Vec<u8>, encoding: TextEncoding) -> (r: usize)
        ensures
            r == text_units(text@, encoding).len(),
    {
        let units = decode_units(text, encoding);
        units.len()
    }

    /// The glyphs of a string, as a fresh vector.
    pub fn str_to_glyphs_vec(&self, s: &str) -> (r: Vec<GlyphId>)
        ensures
            r@.len() == s@.len(),
            forall|i: int| 0 <= i < s@.len() ==> #[trigger] r@[i] == char_glyph(s@[i]),
    {
        let count = self.count_str(s);
        let mut glyphs: Vec<GlyphId> = zero_glyphs(count);
        let resulting_count = self.str_to_glyphs(s, &mut glyphs);
        assert(count == resulting_count);
        glyphs
    }

    /// The glyphs of encoded text, as a fresh vector.
    pub fn text_to_glyphs_vec(&self, text: &Vec<u8>, encoding: TextEncoding) -> (r: Vec<GlyphId>)
        ensures
            r@.len() == text_units(text@, encoding).len(),
            forall|i: int|
                0 <= i < r@.len() ==> #[trigger] r@[i] == unit_glyph(
                    encoding,
                    text_units(text@, encoding)[i],
                ),
    {
        let count = self.count_text(text, encoding);
        let mut glyphs: Vec<GlyphId> = zero_glyphs(count);
        let resulting_count = self.text_to_glyphs(text, encoding, &mut glyphs);
        assert(count == resulting_count);
        glyphs
    }

    /// The width and bound of a string: every glyph advances the pen
    /// by the font's size.
    pub fn measure_str(&self, s: &str, paint: Option<&Paint>) -> (r: (scalar, Rect))
        requires
            self.n.size > i32::MIN,
            i32::MIN <= s@.len() * self.n.size <= i32::MAX,
        ensures
            r.0 == s@.len() * self.n.size,
            r.1 == (Rect {
                left: 0i32,
                top: ((0 - self.n.size) as i32),
                right: r.0,
                bottom: 0i32,
            }),
    {
        let count = s.unicode_len();
        let width = self.advance_width(count);
        (width, Rect { left: 0, top: -self.n.size, right: width, bottom: 0 })
    }

    /// The width and bound of encoded text: every glyph advances the
    /// pen by the font's size.
    pub fn measure_text(&self, text: &Vec<u8>, encoding: TextEncoding, paint: Option<&Paint>) -> (r:
        (scalar, Rect))
        requires
            self.n.size > i32::MIN,
            i32::MIN <= text_units(text@, encoding).len() * self.n.size <= i32::MAX,
        ensures
            r.0 == text_units(text@, encoding).len() * self.n.size,
            r.1 == (Rect {
                left: 0i32,
                top: ((0 - self.n.size) as i32),
                right: r.0,
                bottom: 0i32,
            }),
    {
        let count = self.count_text(text, encoding);
        let width = self.advance_width(count);
        (width, Rect { left: 0, top: -self.n.size, right: width, bottom: 0 })
    }

    /// The width `count` glyphs advance the pen by; the size may be
    /// of either sign.
    fn advance_width(&self, count: usize) -> (w: scalar)
        requires
            i32::MIN <= count * self.n.size <= i32::MAX,
        ensures
            w == count * self.n.size,
    {
        let size = self.n.size;
        if size == 0 {
            proof {
                assert((count as int) * 0 == 0) by (nonlinear_arith);
            }
            return 0;
        }
        proof {
            assert(count as int <= 0x8000_0000) by (nonlinear_arith)
                requires
                    count as int >= 0,
                    size as int != 0,
                    -0x8000_0000 <= (count as int) * (size as int) <= 0x7fff_ffff,
            ;
            assert(-0x4000_0000_0000_0000 <= (count as int) * (size as int)
                <= 0x4000_0000_0000_0000) by (nonlinear_arith)
                requires
                    0 <= count as int <= 0x8000_0000,
                    -0x8000_0000 <= size as int <= 0x7fff_ffff,
            ;
        }
        let w = (count as i64) * (size as i64);
        w as i32
    }

    /// The glyph of one code point.
    pub fn unichar_to_glyph(&self, uni: Unichar) -> (g: GlyphId)
        ensures
            g == unichar_glyph(uni),
    {
        if 0 < uni && uni < 0x10000 {
            uni as u16
        } else {
            0
        }
    }

    /// The glyphs of a sequence of code points.
    pub fn unichar_to_glyphs(&self, uni: &Vec<Unichar>, glyphs: &mut Vec<GlyphId>)
        requires
            uni@.len() == old(glyphs)@.len(),
        ensures
            final(glyphs)@.len() == old(glyphs)@.len(),
            forall|i: int|
                0 <= i < uni@.len() ==> #[trigger] final(glyphs)@[i] == unichar_glyph(uni@[i]),
    {
        let mut i: usize = 0;
        while i < uni.len()
            invariant
                uni@.len() == glyphs@.len(),
                i <= uni@.len(),
                forall|j: int|
                    0 <= j < i ==> #[trigger] glyphs@[j] == unichar_glyph(uni@[j]),
            decreases uni@.len() - i,
        {
            let u = uni[i];
            let g = self.unichar_to_glyph(u);
            let slot = &mut glyphs[i];
            *slot = g;
            i = i + 1;
        }
    }

    /// Fills each glyph's advance; the engine advances every glyph by
    /// the font's size.
    pub fn widths(&self, glyphs: &Vec<GlyphId>, widths: &mut Vec<scalar>)
        requires
            glyphs@.len() == old(widths)@.len(),
            self.n.size > i32::MIN,
        ensures
            final(widths)@.len() == old(widths)@.len(),
            forall|i: int|
                0 <= i < glyphs@.len() ==> #[trigger] final(widths)@[i] == self.n.size,
    {
        self.get_widths(glyphs, widths)
    }

    /// Fills each glyph's advance; the engine advances every glyph by
    /// the font's size.
    pub fn get_widths(&self, glyphs: &Vec<GlyphId>, widths: &mut Vec<scalar>)
        requires
            glyphs@.len() == old(widths)@.len(),
            self.n.size > i32::MIN,
        ensures
            final(widths)@.len() == old(widths)@.len(),
            forall|i: int|
                0 <= i < glyphs@.len() ==> #[trigger] final(widths)@[i] == self.n.size,
    {
        let mut bounds: Vec<Rect> = zero_rects(glyphs.len());
        self.get_widths_bounds(glyphs, widths, &mut bounds, None);
    }

    /// Fills each glyph's advance and bound.
    pub fn widths_bounds(
        &self,
        glyphs: &Vec<GlyphId>,
        widths: &mut Vec<scalar>,
        bounds: &mut Vec<Rect>,
        paint: Option<&Paint>,
    )
        requires
            glyphs@.len() == old(widths)@.len(),
            glyphs@.len() == old(bounds)@.len(),
            self.n.size > i32::MIN,
        ensures
            final(widths)@.len() == old(widths)@.len(),
            final(bounds)@.len() == old(bounds)@.len(),
            forall|i: int|
                0 <= i < glyphs@.len() ==> #[trigger] final(widths)@[i] == self.n.size,
            forall|i: int|
                0 <= i < glyphs@.len() ==> #[trigger] final(bounds)@[i] == glyph_bound(self.n.size),
    {
        self.get_widths_bounds(glyphs, widths, bounds, paint);
    }

    /// Fills each glyph's advance and bound: the engine advances
    /// every glyph by the font's size and bounds it by the size
    /// square over the baseline.
    pub fn get_widths_bounds(
        &self,
        glyphs: &Vec<GlyphId>,
        widths: &mut Vec<scalar>,
        bounds: &mut Vec<Rect>,
        paint: Option<&Paint>,
    )
        requires
            glyphs@.len() == old(widths)@.len(),
            glyphs@.len() == old(bounds)@.len(),
            self.n.size > i32::MIN,
        ensures
            final(widths)@.len() == old(widths)@.len(),
            final(bounds)@.len() == old(bounds)@.len(),
            forall|i: int|
                0 <= i < glyphs@.len() ==> #[trigger] final(widths)@[i] == self.n.size,
            forall|i: int|
                0 <= i < glyphs@.len() ==> #[trigger] final(bounds)@[i] == glyph_bound(self.n.size),
    {
        let count = glyphs.len();
        let mut i: usize = 0;
        while i < count
            invariant
                count == glyphs@.len(),
                widths@.len() == glyphs@.len(),
                bounds@.len() == glyphs@.len(),
                self.n.size > i32::MIN,
                i <= count,
                forall|j: int| 0 <= j < i ==> #[trigger] widths@[j] == self.n.size,
                forall|j: int| 0 <= j < i ==> #[trigger] bounds@[j] == glyph_bound(self.n.size),
            decreases count - i,
        {
            let wslot = &mut widths[i];
            *wslot = self.n.size;
            let bslot = &mut bounds[i];
            *bslot = Rect { left: 0, top: -self.n.size, right: self.n.size, bottom: 0 };
            i = i + 1;
        }
    }

    /// Fills each glyph's bound.
    pub fn bounds(&self, glyphs: &Vec<GlyphId>, bounds: &mut Vec<Rect>, paint: Option<&Paint>)
        requires
            glyphs@.len() == old(bounds)@.len(),
            self.n.size > i32::MIN,
        ensures
            final(bounds)@.len() == old(bounds)@.len(),
            forall|i: int|
                0 <= i < glyphs@.len() ==> #[trigger] final(bounds)@[i] == glyph_bound(self.n.size),
    {
        self.get_bounds(glyphs, bounds, paint)
    }

    /// Fills each glyph's bound.
    pub fn get_bounds(&self, glyphs: &Vec<GlyphId>, bounds: &mut Vec<Rect>, paint: Option<&Paint>)
        requires
            glyphs@.len() == old(bounds)@.len(),
            self.n.size > i32::MIN,
        ensures
            final(bounds)@.len() == old(bounds)@.len(),
            forall|i: int|
                0 <= i < glyphs@.len() ==> #[trigger] final(bounds)@[i] == glyph_bound(self.n.size),
    {
        let mut widths: Vec<scalar> = zero_scalars(glyphs.len());
        self.get_widths_bounds(glyphs, &mut widths, bounds, paint);
    }

    /// Fills each glyph's pen position from an origin.
    pub fn pos(&self, glyphs: &Vec<GlyphId>, pos: &mut Vec<Point>, origin: Option<Point>)
        requires
            glyphs@.len() == old(pos)@.len(),
            i32::MIN <= origin_point(origin).x + glyphs@.len() * self.n.size <= i32::MAX,
        ensures
            final(pos)@.len() == old(pos)@.len(),
            forall|i: int|
                0 <= i < glyphs@.len() ==> #[trigger] final(pos)@[i] == (Point {
                    x: ((origin_point(origin).x + i * self.n.size) as i32),
                    y: origin_point(origin).y,
                }),
    {
        self.get_pos(glyphs, pos, origin)
    }

    /// Fills each glyph's pen position from an origin: the pen starts
    /// there and advances by the font's size per glyph.
    pub fn get_pos(&self, glyphs: &Vec<GlyphId>, pos: &mut Vec<Point>, origin: Option<Point>)
        requires
            glyphs@.len() == old(pos)@.len(),
            i32::MIN <= origin_point(origin).x + glyphs@.len() * self.n.size <= i32::MAX,
        ensures
            final(pos)@.len() == old(pos)@.len(),
            forall|i: int|
                0 <= i < glyphs@.len() ==> #[trigger] final(pos)@[i] == (Point {
                    x: ((origin_point(origin).x + i * self.n.size) as i32),
                    y: origin_point(origin).y,
                }),
    {
        let org = match origin {
            Some(p) => p,
            None => Point { x: 0, y: 0 },
        };
        let count = glyphs.len();
        let mut x: scalar = org.x;
        let mut i: usize = 0;
        while i < count
            invariant
                count == glyphs@.len(),
                pos@.len() == glyphs@.len(),
                org == origin_point(origin),
                i32::MIN <= org.x + count * self.n.size <= i32::MAX,
                i <= count,
                x == org.x + i * self.n.size,
                forall|j: int|
                    0 <= j < i ==> #[trigger] pos@[j] == (Point {
                        x: ((org.x + j * self.n.size) as i32),
                        y: org.y,
                    }),
            decreases count - i,
        {
            let slot = &mut pos[i];
            *slot = Point { x, y: org.y };
            proof {
                lemma_advance_step(org.x as int, i as int, count as int, self.n.size as int);
            }
            x = x + self.n.size;
            i = i + 1;
        }
    }

    /// Fills each glyph's horizontal pen position from an origin.
    pub fn x_pos(&self, glyphs: &Vec<GlyphId>, xpos: &mut Vec<scalar>, origin: Option<scalar>)
        requires
            glyphs@.len() == old(xpos)@.len(),
            i32::MIN <= origin_x(origin) + glyphs@.len() * self.n.size <= i32::MAX,
        ensures
            final(xpos)@.len() == old(xpos)@.len(),
            forall|i: int|
                0 <= i < glyphs@.len() ==> #[trigger] final(xpos)@[i] == ((origin_x(origin) + i
                    * self.n.size) as i32),
    {
        self.get_x_pos(glyphs, xpos, origin)
    }

    /// Fills each glyph's horizontal pen position from an origin: the
    /// pen starts there and advances by the font's size per glyph.
    pub fn get_x_pos(&self, glyphs: &Vec<GlyphId>, xpos: &mut Vec<scalar>, origin: Option<scalar>)
        requires
            glyphs@.len() == old(xpos)@.len(),
            i32::MIN <= origin_x(origin) + glyphs@.len() * self.n.size <= i32::MAX,
        ensures
            final(xpos)@.len() == old(xpos)@.len(),
            forall|i: int|
                0 <= i < glyphs@.len() ==> #[trigger] final(xpos)@[i] == ((origin_x(origin) + i
                    * self.n.size) as i32),
    {
        let org = match origin {
            Some(x) => x,
            None => 0,
        };
        let count = glyphs.len();
        let mut x: scalar = org;
        let mut i: usize = 0;
        while i < count
            invariant
                count == glyphs@.len(),
                xpos@.len() == glyphs@.len(),
                org == origin_x(origin),
                i32::MIN <= org + count * self.n.size <= i32::MAX,
                i <= count,
                x == org + i * self.n.size,
                forall|j: int|
                    0 <= j < i ==> #[trigger] xpos@[j] == ((org + j * self.n.size) as i32),
            decreases count - i,
        {
            let slot = &mut xpos[i];
            *slot = x;
            proof {
                lemma_advance_step(org as int, i as int, count as int, self.n.size as int);
            }
            x = x + self.n.size;
            i = i + 1;
        }
    }

    /// The outline of one glyph; absent exactly for the missing
    /// glyph, which has none.
    pub fn path(&self, glyph_id: GlyphId) -> (r: Option<Path>)
        ensures
            r.is_some() <==> glyph_id != 0,
            r.is_some() ==> r.unwrap().n.points@.len() == 0,
    {
        self.get_path(glyph_id)
    }

    /// The outline of one glyph; absent exactly for the missing
    /// glyph, which has none.
    pub fn get_path(&self, glyph_id: GlyphId) -> (r: Option<Path>)
        ensures
            r.is_some() <==> glyph_id != 0,
            r.is_some() ==> r.unwrap().n.points@.len() == 0,
    {
        if glyph_id != 0 {
            Some(Path::new())
        } else {
            None
        }
    }

    /// The font's line spacing and metrics.
    pub fn metrics(&self) -> (r: (scalar, FontMetrics))
        requires
            self.n.size > i32::MIN,
        ensures
            r.0 == self.n.size,
            r.1 == metrics_of(self.n.size),
    {
        let size = self.n.size;
        let m = FontMetrics {
            flags: Flags { bits: 0xf },
            top: -size,
            ascent: -size,
            descent: 0,
            bottom: 0,
            leading: 0,
            avg_char_width: size,
            max_char_width: size,
            x_min: 0,
            x_max: size,
            x_height: size,
            cap_height: size,
            underline_thickness: 1,
            underline_position: 0,
            strikeout_thickness: 1,
            strikeout_position: -size,
        };
        (size, m)
    }

    /// The font's line spacing.
    pub fn spacing(&self) -> (r: scalar)
        ensures
            r == self.n.size,
    {
        self.n.size
    }
}

/// The origin an optional origin point resolves to.
pub open spec fn origin_point(origin: Option<Point>) -> Point {
    match origin {
        Some(p) => p,
        None => Point { x: 0i32, y: 0i32 },
    }
}

/// The origin an optional horizontal origin resolves to.
pub open spec fn origin_x(origin: Option<scalar>) -> scalar {
    match origin {
        Some(x) => x,
        None => 0i32,
    }
}

/// A pen at `org + i * size` with `i < count` more glyphs to place
/// stays between the origin and the final position, whichever way
/// the size points.
proof fn lemma_advance_step(org: int, i: int, count: int, size: int)
    requires
        0 <= i < count,
        i32::MIN <= org <= i32::MAX,
        i32::MIN <= org + count * size <= i32::MAX,
    ensures
        i32::MIN <= org + (i + 1) * size <= i32::MAX,
        (i + 1) * size == i * size + size,
{
    assert((i + 1) * size == i * size + size) by (nonlinear_arith);
    if size >= 0 {
        assert(0 <= (i + 1) * size <= count * size) by (nonlinear_arith)
            requires
                0 <= i + 1 <= count,
                size >= 0,
        ;
    } else {
        assert(count * size <= (i + 1) * size <= 0) by (nonlinear_arith)
            requires
                0 <= i + 1 <= count,
                size < 0,
        ;
    }
}

/// A fresh vector of `n` missing glyphs.
fn zero_glyphs(n: usize) -> (r: Vec<GlyphId>)
    ensures
        r@.len() == n,
{
    let mut v: Vec<GlyphId> = Vec::new();
    let mut i: usize = 0;
    while i < n
        invariant
            v@.len() == i,
            i <= n,
        decreases n - i,
    {
        v.push(0);
        i = i + 1;
    }
    v
}

/// A fresh vector of `n` zero scalars.
fn zero_scalars(n: usize) -> (r: Vec<scalar>)
    ensures
        r@.len() == n,
{
    let mut v: Vec<scalar> = Vec::new();
    let mut i: usize = 0;
    while i < n
        invariant
            v@.len() == i,
            i <= n,
        decreases n - i,
    {
        v.push(0);
        i = i + 1;
    }
    v
}

/// A fresh vector of `n` empty rectangles.
fn zero_rects(n: usize) -> (r: Vec<Rect>)
    ensures
        r@.len() == n,
{
    let mut v: Vec<Rect> = Vec::new();
    let mut i: usize = 0;
    while i < n
        invariant
            v@.len() == i,
            i <= n,
        decreases n - i,
    {
        v.push(Rect { left: 0, top: 0, right: 0, bottom: 0 });
        i = i + 1;
    }
    v
}

} // verus!
