//! The low-level declaration set.
//!
//! This module plays the role of the generated declaration file: for
//! each native type the wrapper layer touches it records the type's
//! shape — a plain struct of plain fields — and the layout the
//! declaration generator measured for it.  Wrapper types check their
//! own layout against these records through the layout contract.
//!
//! Native enumerations are carried as their underlying 32-bit integer,
//! with one named constant per declared value, because the native side
//! admits any carrier value and closed Rust enums do not.

use vstd::prelude::*;

use crate::layout::TypeLayout;
use crate::scalar;

verus! {

/// Native integer point: two 32-bit coordinates.
#[derive(Clone, Copy, PartialEq, Eq, Structural, Debug)]
pub struct NativeIPoint {
    /// Horizontal coordinate.
    pub x: i32,
    /// Vertical coordinate.
    pub y: i32,
}

/// Native scalar point: two scalar coordinates.
#[derive(Clone, Copy, PartialEq, Eq, Structural, Debug)]
pub struct NativePoint {
    /// Horizontal coordinate.
    pub x: scalar,
    /// Vertical coordinate.
    pub y: scalar,
}

/// Native integer size: width and height.
#[derive(Clone, Copy, PartialEq, Eq, Structural, Debug)]
pub struct NativeISize {
    /// Horizontal extent.
    pub width: i32,
    /// Vertical extent.
    pub height: i32,
}

/// Native scalar size: width and height.
#[derive(Clone, Copy, PartialEq, Eq, Structural, Debug)]
pub struct NativeSize {
    /// Horizontal extent.
    pub width: scalar,
    /// Vertical extent.
    pub height: scalar,
}

/// Recorded layout of [`NativeIPoint`]: two packed 4-byte fields.
pub fn ipoint_layout() -> (l: TypeLayout)
    ensures
        l.size == 8,
        l.align == 4,
        l.fields@.len() == 2,
        forall|i: int|
            0 <= i < 2 ==> #[trigger] l.fields@[i] == (crate::layout::FieldLayout {
                offset: (i * 4) as usize,
                size: 4usize,
            }),
{
    TypeLayout::packed_record(2, 4)
}

/// Recorded layout of [`NativePoint`]: two packed 4-byte fields.
pub fn point_layout() -> (l: TypeLayout)
    ensures
        l.size == 8,
        l.align == 4,
        l.fields@.len() == 2,
        forall|i: int|
            0 <= i < 2 ==> #[trigger] l.fields@[i] == (crate::layout::FieldLayout {
                offset: (i * 4) as usize,
                size: 4usize,
            }),
{
    TypeLayout::packed_record(2, 4)
}

/// Recorded layout of [`NativeISize`]: two packed 4-byte fields.
pub fn isize_layout() -> (l: TypeLayout)
    ensures
        l.size == 8,
        l.align == 4,
        l.fields@.len() == 2,
        forall|i: int|
            0 <= i < 2 ==> #[trigger] l.fields@[i] == (crate::layout::FieldLayout {
                offset: (i * 4) as usize,
                size: 4usize,
            }),
{
    TypeLayout::packed_record(2, 4)
}

/// Recorded layout of [`NativeSize`]: two packed 4-byte fields.
pub fn size_layout() -> (l: TypeLayout)
    ensures
        l.size == 8,
        l.align == 4,
        l.fields@.len() == 2,
        forall|i: int|
            0 <= i < 2 ==> #[trigger] l.fields@[i] == (crate::layout::FieldLayout {
                offset: (i * 4) as usize,
                size: 4usize,
            }),
{
    TypeLayout::packed_record(2, 4)
}


/// Native font metrics record: a flag word and fifteen scalar
/// measurements, in declaration order.
#[derive(Clone, Copy, PartialEq, Eq, Structural, Debug)]
pub struct NativeFontMetrics {
    /// Which of the optional measurements carry a valid value.
    pub flags: u32,
    /// Greatest extent above the origin of any glyph.
    pub top: scalar,
    /// Recommended distance above the baseline.
    pub ascent: scalar,
    /// Recommended distance below the baseline.
    pub descent: scalar,
    /// Greatest extent below the origin of any glyph.
    pub bottom: scalar,
    /// Recommended distance between lines of text.
    pub leading: scalar,
    /// Average character width.
    pub avg_char_width: scalar,
    /// Greatest character width.
    pub max_char_width: scalar,
    /// Leftmost glyph bound.
    pub x_min: scalar,
    /// Rightmost glyph bound.
    pub x_max: scalar,
    /// Height of a lower-case letter without ascenders.
    pub x_height: scalar,
    /// Height of an upper-case letter.
    pub cap_height: scalar,
    /// Underline thickness; valid only when its flag is set.
    pub underline_thickness: scalar,
    /// Underline position; valid only when its flag is set.
    pub underline_position: scalar,
    /// Strikeout thickness; valid only when its flag is set.
    pub strikeout_thickness: scalar,
    /// Strikeout position; valid only when its flag is set.
    pub strikeout_position: scalar,
}

/// Flag bit: the underline-thickness measurement is valid.
pub const UNDERLINE_THICKNESS_IS_VALID_FLAG: u32 = 1;

/// Flag bit: the underline-position measurement is valid.
pub const UNDERLINE_POSITION_IS_VALID_FLAG: u32 = 2;

/// Flag bit: the strikeout-thickness measurement is valid.
pub const STRIKEOUT_THICKNESS_IS_VALID_FLAG: u32 = 4;

/// Flag bit: the strikeout-position measurement is valid.
pub const STRIKEOUT_POSITION_IS_VALID_FLAG: u32 = 8;

/// Recorded layout of [`NativeFontMetrics`]: sixteen packed 4-byte
/// fields.
pub fn font_metrics_layout() -> (l: TypeLayout)
    ensures
        l.size == 64,
        l.align == 4,
        l.fields@.len() == 16,
        forall|i: int|
            0 <= i < 16 ==> #[trigger] l.fields@[i] == (crate::layout::FieldLayout {
                offset: (i * 4) as usize,
                size: 4usize,
            }),
{
    TypeLayout::packed_record(16, 4)
}


/// Native rectangle: four packed scalar edges.
#[derive(Clone, Copy, PartialEq, Eq, Structural, Debug)]
pub struct NativeRect {
    /// Left edge.
    pub left: scalar,
    /// Top edge.
    pub top: scalar,
    /// Right edge.
    pub right: scalar,
    /// Bottom edge.
    pub bottom: scalar,
}

/// Recorded layout of [`NativeRect`]: four packed 4-byte fields.
pub fn rect_layout() -> (l: TypeLayout)
    ensures
        l.size == 16,
        l.align == 4,
        l.fields@.len() == 4,
        forall|i: int|
            0 <= i < 4 ==> #[trigger] l.fields@[i] == (crate::layout::FieldLayout {
                offset: (i * 4) as usize,
                size: 4usize,
            }),
{
    TypeLayout::packed_record(4, 4)
}

/// Recorded layout of every native enumeration carried as one 32-bit
/// value.
pub fn enum32_layout() -> (l: TypeLayout)
    ensures
        l.size == 4,
        l.align == 4,
        l.fields@.len() == 1,
        l.fields@[0] == (crate::layout::FieldLayout { offset: 0usize, size: 4usize }),
{
    TypeLayout::packed_record(1, 4)
}

/// Declared value of the blur tile mode `clamp`.
pub const TILE_MODE_CLAMP: i32 = 0;

/// Declared value of the blur tile mode `repeat`.
pub const TILE_MODE_REPEAT: i32 = 1;

/// Declared value of the blur tile mode `clamp to black`.
pub const TILE_MODE_CLAMP_TO_BLACK: i32 = 2;

/// Declared value of the drop-shadow mode drawing shadow and
/// foreground.
pub const SHADOW_MODE_DRAW_SHADOW_AND_FOREGROUND: i32 = 0;

/// Declared value of the drop-shadow mode drawing the shadow only.
pub const SHADOW_MODE_DRAW_SHADOW_ONLY: i32 = 1;

/// A native triple of scalar coordinates, used for light positions.
#[derive(Clone, Copy, PartialEq, Eq, Structural, Debug)]
pub struct NativePoint3 {
    /// Horizontal coordinate.
    pub x: scalar,
    /// Vertical coordinate.
    pub y: scalar,
    /// Depth coordinate.
    pub z: scalar,
}

/// A native image filter object: the record of the factory call that
/// made it.  The engine renders through these; the wrapper layer only
/// owns and shares them.
#[derive(Clone, Copy, PartialEq, Eq, Structural, Debug)]
pub struct NativeImageFilter {
    /// Which factory made the filter.
    pub kind: ImageFilterKind,
    /// Light direction or position, for the lighting factories.
    pub light: NativePoint3,
    /// Spot-light target, for the spot-lighting factories.
    pub target: NativePoint3,
    /// The factory's scalar arguments, in its argument order.
    pub s0: scalar,
    /// The factory's second scalar argument.
    pub s1: scalar,
    /// The factory's third scalar argument.
    pub s2: scalar,
    /// The factory's fourth scalar argument.
    pub s3: scalar,
    /// The factory's fifth scalar argument.
    pub s4: scalar,
    /// Colour argument of the factory, where it takes one.
    pub color: u32,
    /// Mode argument of the factory, as its declared 32-bit value.
    pub mode: i32,
    /// Pointer to the input filter the factory composed over.
    pub input: usize,
    /// Whether a crop rectangle was supplied.
    pub has_crop: bool,
}

/// The image-filter record shared by every factory: all arguments
/// zero except those the factory sets.
pub open spec fn blank_image_filter(kind: ImageFilterKind) -> NativeImageFilter {
    NativeImageFilter {
        kind,
        light: NativePoint3 { x: 0i32, y: 0i32, z: 0i32 },
        target: NativePoint3 { x: 0i32, y: 0i32, z: 0i32 },
        s0: 0i32,
        s1: 0i32,
        s2: 0i32,
        s3: 0i32,
        s4: 0i32,
        color: 0u32,
        mode: 0i32,
        input: 0usize,
        has_crop: false,
    }
}

/// An executable copy of [`blank_image_filter`].
pub fn make_blank_image_filter(kind: ImageFilterKind) -> (f: NativeImageFilter)
    ensures
        f == blank_image_filter(kind),
{
    NativeImageFilter {
        kind,
        light: NativePoint3 { x: 0, y: 0, z: 0 },
        target: NativePoint3 { x: 0, y: 0, z: 0 },
        s0: 0,
        s1: 0,
        s2: 0,
        s3: 0,
        s4: 0,
        color: 0,
        mode: 0,
        input: 0,
        has_crop: false,
    }
}

/// The factories that produce native image filters.
#[derive(Clone, Copy, PartialEq, Eq, Structural, Debug)]
pub enum ImageFilterKind {
    /// A gaussian blur.
    Blur,
    /// A drop shadow.
    DropShadow,
    /// Diffuse lighting from a distant light.
    DistantLitDiffuse,
    /// Diffuse lighting from a point light.
    PointLitDiffuse,
    /// Diffuse lighting from a spot light.
    SpotLitDiffuse,
    /// Specular lighting from a distant light.
    DistantLitSpecular,
    /// Specular lighting from a point light.
    PointLitSpecular,
    /// Specular lighting from a spot light.
    SpotLitSpecular,
}

/// A native shader object: the record of the factory call that made
/// it.
#[derive(Clone, Copy, Debug)]
pub struct NativeShader {
    /// Which factory made the shader.
    pub kind: ShaderKind,
    /// Base frequency along x.
    pub base_frequency_x: scalar,
    /// Base frequency along y.
    pub base_frequency_y: scalar,
    /// Number of octaves summed.
    pub num_octaves: usize,
    /// Seed, or z coordinate for improved noise.
    pub seed: scalar,
    /// Tile size the noise repeats over, where one was supplied.
    pub tile_size: Option<crate::size::ISize>,
}

/// The factories that produce native shaders.
#[derive(Clone, Copy, PartialEq, Eq, Structural, Debug)]
pub enum ShaderKind {
    /// Fractal perlin noise.
    FractalNoise,
    /// Turbulence perlin noise.
    Turbulence,
    /// Improved perlin noise.
    ImprovedNoise,
}


/// Font flag bit: forced auto-hinting.
pub const FONT_FLAG_FORCE_AUTO_HINTING: u32 = 1;

/// Font flag bit: embedded bitmaps allowed.
pub const FONT_FLAG_EMBEDDED_BITMAPS: u32 = 2;

/// Font flag bit: sub-pixel positioning.
pub const FONT_FLAG_SUBPIXEL: u32 = 4;

/// Font flag bit: linearly scalable metrics.
pub const FONT_FLAG_LINEAR_METRICS: u32 = 8;

/// Font flag bit: approximated bold.
pub const FONT_FLAG_EMBOLDEN: u32 = 16;

/// Declared value of glyph edging without anti-aliasing.
pub const EDGING_ALIAS: i32 = 0;

/// Declared value of anti-aliased glyph edging.
pub const EDGING_ANTI_ALIAS: i32 = 1;

/// Declared value of sub-pixel anti-aliased glyph edging.
pub const EDGING_SUBPIXEL_ANTI_ALIAS: i32 = 2;

/// Declared value of hinting switched off.
pub const FONT_HINTING_NONE: i32 = 0;

/// Declared value of slight hinting.
pub const FONT_HINTING_SLIGHT: i32 = 1;

/// Declared value of normal hinting.
pub const FONT_HINTING_NORMAL: i32 = 2;

/// Declared value of full hinting.
pub const FONT_HINTING_FULL: i32 = 3;

/// Size a font takes when none is given.
pub const FONT_DEFAULT_SIZE: scalar = 12;

/// A native typeface object.
#[derive(Clone, Copy, PartialEq, Eq, Structural, Debug)]
pub struct NativeTypeface {
    /// The typeface's identifier.
    pub unique_id: u32,
}

/// A native font: a typeface reference and the scaling state applied
/// to it.
#[derive(Clone, Copy, PartialEq, Eq, Structural, Debug)]
pub struct NativeFont {
    /// Pointer to the typeface, or null for the default.
    pub typeface: usize,
    /// Text size.
    pub size: scalar,
    /// Horizontal scale applied to glyphs.
    pub scale_x: scalar,
    /// Horizontal skew applied to glyphs.
    pub skew_x: scalar,
    /// The font's boolean settings, as `FONT_FLAG` bits.
    pub flags: u32,
    /// Glyph edging, as its declared 32-bit value.
    pub edging: i32,
    /// Glyph hinting, as its declared 32-bit value.
    pub hinting: i32,
}

/// The font state a plain construction yields.
pub open spec fn default_font(typeface: usize, size: scalar) -> NativeFont {
    NativeFont {
        typeface,
        size,
        scale_x: 1i32,
        skew_x: 0i32,
        flags: 0u32,
        edging: EDGING_ANTI_ALIAS,
        hinting: FONT_HINTING_NORMAL,
    }
}

/// An executable copy of [`default_font`].
pub fn make_default_font(typeface: usize, size: scalar) -> (f: NativeFont)
    ensures
        f == default_font(typeface, size),
{
    NativeFont {
        typeface,
        size,
        scale_x: 1,
        skew_x: 0,
        flags: 0,
        edging: EDGING_ANTI_ALIAS,
        hinting: FONT_HINTING_NORMAL,
    }
}

/// A native paint object; the wrapper layer reads only its colour.
#[derive(Clone, Copy, PartialEq, Eq, Structural, Debug)]
pub struct NativePaint {
    /// The paint's colour, packed as 32-bit ARGB.
    pub color: u32,
}

/// A native path: the points of its outline.
#[derive(Debug)]
pub struct NativePath {
    /// The outline's points.
    pub points: Vec<NativePoint>,
}


/// A native stroke record; the wrapper layer reads only its width.
#[derive(Clone, Copy, PartialEq, Eq, Structural, Debug)]
pub struct NativeStrokeRec {
    /// The stroke width.
    pub width: scalar,
}


/// A native data table: a sequence of byte entries.
#[derive(Debug)]
pub struct NativeDataTable {
    /// The entries, in table order.
    pub entries: Vec<Vec<u8>>,
}


/// A native path effect: the record of how it was made.
#[derive(Clone, Debug)]
pub enum NativePathEffect {
    /// A dash over intervals, offset by a phase.
    Dash {
        /// The on/off intervals, in order.
        intervals: Vec<scalar>,
        /// Offset into the first interval.
        phase: scalar,
    },
    /// The sum of two effects: both applied to the source.
    Sum {
        /// Pointer to the first summand.
        first: usize,
        /// Pointer to the second summand.
        second: usize,
    },
    /// The composition of two effects: the first applied to the
    /// second's output.
    Compose {
        /// Pointer to the outer effect.
        first: usize,
        /// Pointer to the inner effect.
        second: usize,
    },
}

/// Recorded layout of the native point-data record: a flag word, a
/// point array pointer with its count, a size, a clip rectangle, and
/// three paths.
pub fn point_data_layout() -> (l: TypeLayout)
    ensures
        l.size == 72,
        l.align == 8,
        l.fields@ =~= point_data_fields(),
{
    let mut fields: Vec<crate::layout::FieldLayout> = Vec::new();
    fields.push(crate::layout::FieldLayout { offset: 0, size: 4 });
    fields.push(crate::layout::FieldLayout { offset: 8, size: 8 });
    fields.push(crate::layout::FieldLayout { offset: 16, size: 4 });
    fields.push(crate::layout::FieldLayout { offset: 24, size: 8 });
    fields.push(crate::layout::FieldLayout { offset: 32, size: 16 });
    fields.push(crate::layout::FieldLayout { offset: 48, size: 8 });
    fields.push(crate::layout::FieldLayout { offset: 56, size: 8 });
    fields.push(crate::layout::FieldLayout { offset: 64, size: 8 });
    proof {
        assert(fields@ =~= point_data_fields());
    }
    TypeLayout { size: 72, align: 8, fields }
}

/// The field placement of the native point-data record.
pub open spec fn point_data_fields() -> Seq<crate::layout::FieldLayout> {
    seq![
        crate::layout::FieldLayout { offset: 0usize, size: 4usize },
        crate::layout::FieldLayout { offset: 8usize, size: 8usize },
        crate::layout::FieldLayout { offset: 16usize, size: 4usize },
        crate::layout::FieldLayout { offset: 24usize, size: 8usize },
        crate::layout::FieldLayout { offset: 32usize, size: 16usize },
        crate::layout::FieldLayout { offset: 48usize, size: 8usize },
        crate::layout::FieldLayout { offset: 56usize, size: 8usize },
        crate::layout::FieldLayout { offset: 64usize, size: 8usize },
    ]
}


/// A native variation coordinate: an axis tag and its value.
#[derive(Clone, Copy, PartialEq, Eq, Structural, Debug)]
pub struct NativeCoordinate {
    /// The variation axis, as a four-character tag.
    pub axis: u32,
    /// The position on the axis.
    pub value: scalar,
}

/// Recorded layout of [`NativeCoordinate`]: two packed 4-byte fields.
pub fn coordinate_layout() -> (l: TypeLayout)
    ensures
        l.size == 8,
        l.align == 4,
        l.fields@.len() == 2,
        forall|i: int|
            0 <= i < 2 ==> #[trigger] l.fields@[i] == (crate::layout::FieldLayout {
                offset: (i * 4) as usize,
                size: 4usize,
            }),
{
    TypeLayout::packed_record(2, 4)
}

/// Recorded layout of the native font-arguments record: a collection
/// index, then a coordinate array pointer with its count.
pub fn font_arguments_layout() -> (l: TypeLayout)
    ensures
        l.size == 24,
        l.align == 8,
        l.fields@ =~= font_arguments_fields(),
{
    let mut fields: Vec<crate::layout::FieldLayout> = Vec::new();
    fields.push(crate::layout::FieldLayout { offset: 0, size: 4 });
    fields.push(crate::layout::FieldLayout { offset: 8, size: 8 });
    fields.push(crate::layout::FieldLayout { offset: 16, size: 4 });
    proof {
        assert(fields@ =~= font_arguments_fields());
    }
    TypeLayout { size: 24, align: 8, fields }
}

/// The field placement of the native font-arguments record.
pub open spec fn font_arguments_fields() -> Seq<crate::layout::FieldLayout> {
    seq![
        crate::layout::FieldLayout { offset: 0usize, size: 4usize },
        crate::layout::FieldLayout { offset: 8usize, size: 8usize },
        crate::layout::FieldLayout { offset: 16usize, size: 4usize },
    ]
}


/// What a native canvas renders to.
#[derive(Clone, Copy, PartialEq, Eq, Structural, Debug)]
pub enum CanvasKind {
    /// A canvas that swallows every drawing call.
    Null,
    /// A canvas that renders drawing calls as vector-graphics markup.
    Svg,
}

/// A native canvas: its kind and the markup it has rendered so far.
pub struct NativeCanvas {
    /// What the canvas renders to.
    pub kind: CanvasKind,
    /// The markup rendered so far; meaningful for the markup canvas.
    pub buf: String,
}


/// Declared value of the normal interpolation result.
pub const INTERPOLATOR_RESULT_NORMAL: i32 = 0;

/// Declared value of the frozen-at-start interpolation result.
pub const INTERPOLATOR_RESULT_FREEZE_START: i32 = 1;

/// Declared value of the frozen-at-end interpolation result.
pub const INTERPOLATOR_RESULT_FREEZE_END: i32 = 2;

/// One key frame of an interpolator: its time and its values.
#[derive(Debug)]
pub struct KeyFrame {
    /// The frame's time, in milliseconds.
    pub time: u32,
    /// One value per interpolated element.
    pub values: Vec<scalar>,
}

/// A native interpolator: key frames over time, with repeat and
/// mirror state.
#[derive(Debug)]
pub struct NativeInterpolator {
    /// How many values each frame interpolates.
    pub elem_count: usize,
    /// How many frames the interpolator has room for.
    pub frame_count: usize,
    /// The frames, each set or still empty; always `frame_count` long.
    pub frames: Vec<Option<KeyFrame>>,
    /// How many times the animation plays.
    pub repeat: scalar,
    /// Whether odd plays run backwards.
    pub mirror: bool,
    /// Whether the animation resets to the start when done.
    pub reset: bool,
}

} // verus!
