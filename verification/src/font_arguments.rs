//! Arguments selecting a face from a font collection and a position
//! in its variation design space.

use vstd::prelude::*;

use crate::layout::layout_eq;
use crate::layout::FieldLayout;
use crate::layout::NativeTransmutable;
use crate::layout::TypeLayout;
use crate::native;
use crate::native::NativeCoordinate;
use crate::scalar;
use crate::FourByteTag;

verus! {

/// A position on one variation axis.
#[derive(Clone, Copy, PartialEq, Eq, Structural, Debug)]
pub struct Coordinate {
    /// The variation axis, as a four-character tag.
    pub axis: FourByteTag,
    /// The position on the axis.
    pub value: scalar,
}

impl NativeTransmutable<NativeCoordinate> for Coordinate {
    open spec fn native_valid(n: NativeCoordinate) -> bool {
        true
    }

    open spec fn from_native_spec(n: NativeCoordinate) -> Coordinate {
        Coordinate { axis: n.axis, value: n.value }
    }

    open spec fn to_native_spec(self) -> NativeCoordinate {
        NativeCoordinate { axis: self.axis, value: self.value }
    }

    proof fn lemma_cast_roundtrip(self, n: NativeCoordinate) {
    }

    fn from_native(n: NativeCoordinate) -> Coordinate {
        Coordinate { axis: n.axis, value: n.value }
    }

    fn into_native(self) -> NativeCoordinate {
        NativeCoordinate { axis: self.axis, value: self.value }
    }

    fn test_layout() {
        let a = TypeLayout::packed_record(2, 4);
        let b = native::coordinate_layout();
        proof {
            assert(a.fields@ =~= b.fields@);
        }
        let same = layout_eq(&a, &b);
        assert(same);
    }
}

/// A borrowed position in variation design space: one coordinate per
/// axis.
#[derive(Debug)]
pub struct VariationPosition<'a> {
    /// The coordinates, one per axis.
    pub coordinates: &'a Vec<Coordinate>,
}

/// Arguments selecting a face: a collection index and a variation
/// position, which the arguments copy and own.
#[derive(Debug)]
pub struct FontArguments {
    /// Index of the face within its collection.
    pub collection_index: usize,
    /// The owned variation position.
    pub coordinates: Vec<Coordinate>,
}

impl Default for FontArguments {
    /// Arguments selecting the first face with no variation.
    fn default() -> (r: Self)
        ensures
            r.collection_index == 0,
            r.coordinates@.len() == 0,
    {
        FontArguments::new()
    }
}

impl FontArguments {
    /// Arguments selecting the first face with no variation.
    pub fn new() -> (r: Self)
        ensures
            r.collection_index == 0,
            r.coordinates@.len() == 0,
    {
        FontArguments { collection_index: 0, coordinates: Vec::new() }
    }

    /// Selects a face by its index within the collection.  The index
    /// must fit the native record's signed 32-bit field; the engine
    /// refuses anything wider.
    pub fn set_collection_index(&mut self, collection_index: usize) -> (r: &mut Self)
        requires
            collection_index <= i32::MAX,
        ensures
            (*r).collection_index == collection_index,
            (*r).coordinates@ == old(self).coordinates@,
            *final(self) == *final(r),
    {
        self.collection_index = collection_index;
        self
    }

    /// Replaces the variation position, copying the borrowed
    /// coordinates in; the arguments own the copy from then on.
    pub fn set_variation_design_position(self, position: VariationPosition<'_>) -> (r:
        FontArguments)
        ensures
            r.collection_index == self.collection_index,
            r.coordinates@ == position.coordinates@,
    {
        let mut coordinates: Vec<Coordinate> = Vec::new();
        let mut i: usize = 0;
        while i < position.coordinates.len()
            invariant
                i <= position.coordinates@.len(),
                coordinates@ == position.coordinates@.subrange(0, i as int),
            decreases position.coordinates@.len() - i,
        {
            coordinates.push(position.coordinates[i]);
            proof {
                assert(coordinates@ =~= position.coordinates@.subrange(0, i as int + 1));
            }
            i = i + 1;
        }
        proof {
            assert(position.coordinates@.subrange(0, position.coordinates@.len() as int)
                =~= position.coordinates@);
        }
        FontArguments { collection_index: self.collection_index, coordinates }
    }

    /// The selected face's index within its collection.
    pub fn collection_index(&self) -> (r: usize)
        ensures
            r == self.collection_index,
    {
        self.collection_index
    }

    /// The variation position, borrowed from the arguments.
    pub fn variation_design_position(&self) -> (r: VariationPosition<'_>)
        ensures
            r.coordinates@ == self.coordinates@,
    {
        VariationPosition { coordinates: &self.coordinates }
    }

    /// The mandatory layout check of the font-arguments record
    /// against the declaration set.
    pub fn test_layout() {
        let mut fields: Vec<FieldLayout> = Vec::new();
        fields.push(FieldLayout { offset: 0, size: 4 });
        fields.push(FieldLayout { offset: 8, size: 8 });
        fields.push(FieldLayout { offset: 16, size: 4 });
        let a = TypeLayout { size: 24, align: 8, fields };
        let b = native::font_arguments_layout();
        proof {
            assert(a.fields@ =~= b.fields@);
        }
        let same = layout_eq(&a, &b);
        assert(same);
    }
}

} // verus!
