//! A safety layer over a 2D graphics engine's object model.
//!
//! The crate is organised around three ownership disciplines for native
//! objects — exclusively owned handles, intrusively reference-counted
//! handles, and non-owning borrows — together with the layout contract
//! that lets wrapper types stand in for native types, and the build-time
//! pipeline that produces the low-level declaration set.
//!
//! The native engine itself is out of scope: it is modeled by an explicit
//! object table ([`engine::Engine`]) whose behaviour every wrapper
//! operation is specified and verified against.  Scalar quantities are
//! carried as plain integers in this model.

use vstd::prelude::*;

pub mod engine;
pub mod handles;
pub mod layout;
pub mod native;
pub mod point;
pub mod size;
pub mod font_metrics;
pub mod rect;
pub mod image_filter;
pub mod shader;
pub mod effects;
pub mod typeface;
pub mod paint;
pub mod path;
pub mod stroke_rec;
pub mod text_encoding;
pub mod font;
pub mod data_table;
pub mod path_effect;
pub mod font_arguments;
pub mod canvas;
pub mod data;
pub mod svg;
pub mod null_canvas;
pub mod utils;
pub mod pipeline;
pub mod matrix;

verus! {

/// Scalar quantity of the graphics model.  Carried as a plain integer.
#[allow(non_camel_case_types)]
pub type scalar = i32;

/// Identifier of a glyph within a typeface.
pub type GlyphId = u16;

/// A Unicode code point, sign-extended as the engine carries it.
pub type Unichar = i32;

/// Four-character tag, packed big-endian into 32 bits.
pub type FourByteTag = u32;

/// A colour, packed as 32-bit ARGB.
pub type Color = u32;

} // verus!
