//! Font metrics: a flag word and fifteen scalar measurements, with the
//! optional measurements gated by their validity flags.

use vstd::prelude::*;

use crate::layout::layout_eq;
use crate::layout::NativeTransmutable;
use crate::layout::TypeLayout;
use crate::native;
use crate::native::NativeFontMetrics;
use crate::scalar;

verus! {

/// Validity flags of the optional font-metric measurements.
///
/// The native side carries these as an open set of combinable bits, so
/// the wrapper does too: a plain bit word with one named constant per
/// declared bit, not a closed enumeration.
#[derive(Clone, Copy, PartialEq, Eq, Structural, Debug)]
pub struct Flags {
    /// The raw bit word.
    pub bits: u32,
}

/// The underline-thickness measurement is valid.
pub const UNDERLINE_THICKNESS_IS_VALID: u32 = native::UNDERLINE_THICKNESS_IS_VALID_FLAG;

/// The underline-position measurement is valid.
pub const UNDERLINE_POSITION_IS_VALID: u32 = native::UNDERLINE_POSITION_IS_VALID_FLAG;

/// The strikeout-thickness measurement is valid.
pub const STRIKEOUT_THICKNESS_IS_VALID: u32 = native::STRIKEOUT_THICKNESS_IS_VALID_FLAG;

/// The strikeout-position measurement is valid.
pub const STRIKEOUT_POSITION_IS_VALID: u32 = native::STRIKEOUT_POSITION_IS_VALID_FLAG;

impl Flags {
    /// Whether every bit of `flag` is set.
    pub fn contains(self, flag: u32) -> (r: bool)
        ensures
            r <==> (self.bits & flag == flag),
    {
        self.bits & flag == flag
    }
}

/// Measurements of a font at a given size.
#[derive(Clone, Copy, PartialEq, Eq, Structural, Debug)]
pub struct FontMetrics {
    /// Which of the optional measurements carry a valid value.
    pub flags: Flags,
    /// Greatest extent above the origin of any glyph.
    pub top: scalar,
    /// Recommended distance above the baseline.
    pub ascent: scalar,
    /// Recommended distance below the baseline.
    pub descent: scalar,
    /// Greatest extent below the origin of any glyph.
    pub bottom: scalar,
    /// Recommended distance between lines of text.
    pub leading: scalar,
    /// Average character width.
    pub avg_char_width: scalar,
    /// Greatest character width.
    pub max_char_width: scalar,
    /// Leftmost glyph bound.
    pub x_min: scalar,
    /// Rightmost glyph bound.
    pub x_max: scalar,
    /// Height of a lower-case letter without ascenders.
    pub x_height: scalar,
    /// Height of an upper-case letter.
    pub cap_height: scalar,
    /// Underline thickness; ask through [`FontMetrics::underline_thickness`].
    pub underline_thickness: scalar,
    /// Underline position; ask through [`FontMetrics::underline_position`].
    pub underline_position: scalar,
    /// Strikeout thickness; ask through [`FontMetrics::strikeout_thickness`].
    pub strikeout_thickness: scalar,
    /// Strikeout position; ask through [`FontMetrics::strikeout_position`].
    pub strikeout_position: scalar,
}

impl NativeTransmutable<NativeFontMetrics> for FontMetrics {
    open spec fn native_valid(n: NativeFontMetrics) -> bool {
        true
    }

    open spec fn from_native_spec(n: NativeFontMetrics) -> FontMetrics {
        FontMetrics {
            flags: Flags { bits: n.flags },
            top: n.top,
            ascent: n.ascent,
            descent: n.descent,
            bottom: n.bottom,
            leading: n.leading,
            avg_char_width: n.avg_char_width,
            max_char_width: n.max_char_width,
            x_min: n.x_min,
            x_max: n.x_max,
            x_height: n.x_height,
            cap_height: n.cap_height,
            underline_thickness: n.underline_thickness,
            underline_position: n.underline_position,
            strikeout_thickness: n.strikeout_thickness,
            strikeout_position: n.strikeout_position,
        }
    }

    open spec fn to_native_spec(self) -> NativeFontMetrics {
        NativeFontMetrics {
            flags: self.flags.bits,
            top: self.top,
            ascent: self.ascent,
            descent: self.descent,
            bottom: self.bottom,
            leading: self.leading,
            avg_char_width: self.avg_char_width,
            max_char_width: self.max_char_width,
            x_min: self.x_min,
            x_max: self.x_max,
            x_height: self.x_height,
            cap_height: self.cap_height,
            underline_thickness: self.underline_thickness,
            underline_position: self.underline_position,
            strikeout_thickness: self.strikeout_thickness,
            strikeout_position: self.strikeout_position,
        }
    }

    proof fn lemma_cast_roundtrip(self, n: NativeFontMetrics) {
    }

    fn from_native(n: NativeFontMetrics) -> FontMetrics {
        FontMetrics {
            flags: Flags { bits: n.flags },
            top: n.top,
            ascent: n.ascent,
            descent: n.descent,
            bottom: n.bottom,
            leading: n.leading,
            avg_char_width: n.avg_char_width,
            max_char_width: n.max_char_width,
            x_min: n.x_min,
            x_max: n.x_max,
            x_height: n.x_height,
            cap_height: n.cap_height,
            underline_thickness: n.underline_thickness,
            underline_position: n.underline_position,
            strikeout_thickness: n.strikeout_thickness,
            strikeout_position: n.strikeout_position,
        }
    }

    fn into_native(self) -> NativeFontMetrics {
        NativeFontMetrics {
            flags: self.flags.bits,
            top: self.top,
            ascent: self.ascent,
            descent: self.descent,
            bottom: self.bottom,
            leading: self.leading,
            avg_char_width: self.avg_char_width,
            max_char_width: self.max_char_width,
            x_min: self.x_min,
            x_max: self.x_max,
            x_height: self.x_height,
            cap_height: self.cap_height,
            underline_thickness: self.underline_thickness,
            underline_position: self.underline_position,
            strikeout_thickness: self.strikeout_thickness,
            strikeout_position: self.strikeout_position,
        }
    }

    fn test_layout() {
        let a = TypeLayout::packed_record(16, 4);
        let b = native::font_metrics_layout();
        proof {
            assert(a.fields@ =~= b.fields@);
        }
        let same = layout_eq(&a, &b);
        assert(same);
    }
}

impl FontMetrics {
    /// The underline thickness, when its validity flag is set.
    pub fn underline_thickness(&self) -> (r: Option<scalar>)
        ensures
            r == if self.flags.bits & UNDERLINE_THICKNESS_IS_VALID == UNDERLINE_THICKNESS_IS_VALID {
                Some(self.underline_thickness)
            } else {
                Option::<scalar>::None
            },
    {
        self.if_valid(UNDERLINE_THICKNESS_IS_VALID, self.underline_thickness)
    }

    /// The underline position, when its validity flag is set.
    pub fn underline_position(&self) -> (r: Option<scalar>)
        ensures
            r == if self.flags.bits & UNDERLINE_POSITION_IS_VALID == UNDERLINE_POSITION_IS_VALID {
                Some(self.underline_position)
            } else {
                Option::<scalar>::None
            },
    {
        self.if_valid(UNDERLINE_POSITION_IS_VALID, self.underline_position)
    }

    /// The strikeout thickness, when its validity flag is set.
    pub fn strikeout_thickness(&self) -> (r: Option<scalar>)
        ensures
            r == if self.flags.bits & STRIKEOUT_THICKNESS_IS_VALID == STRIKEOUT_THICKNESS_IS_VALID {
                Some(self.strikeout_thickness)
            } else {
                Option::<scalar>::None
            },
    {
        self.if_valid(STRIKEOUT_THICKNESS_IS_VALID, self.strikeout_thickness)
    }

    /// The strikeout position, when its validity flag is set.
    pub fn strikeout_position(&self) -> (r: Option<scalar>)
        ensures
            r == if self.flags.bits & STRIKEOUT_POSITION_IS_VALID == STRIKEOUT_POSITION_IS_VALID {
                Some(self.strikeout_position)
            } else {
                Option::<scalar>::None
            },
    {
        self.if_valid(STRIKEOUT_POSITION_IS_VALID, self.strikeout_position)
    }

    /// `value`, when every bit of `flag` is set in the metrics' flag
    /// word.
    pub fn if_valid(&self, flag: u32, value: scalar) -> (r: Option<scalar>)
        ensures
            r == if self.flags.bits & flag == flag {
                Some(value)
            } else {
                Option::<scalar>::None
            },
    {
        if self.flags.contains(flag) {
            Some(value)
        } else {
            None
        }
    }
}

} // verus!
