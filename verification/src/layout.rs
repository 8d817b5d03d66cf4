//! The layout-transmutation contract.
//!
//! A wrapper type may stand in for a native type only when the two
//! have the same size, alignment, and field layout.  The contract is
//! the trait [`NativeTransmutable`]: every implementer must exhibit
//! the cast in both directions, prove it a bijection, and provide a
//! layout check that compares the wrapper's layout against the layout
//! the declaration set records for the native type.  An implementer
//! that cannot prove the round trip or the layout equality does not
//! verify — an untested layout contract cannot exist here.

use vstd::prelude::*;

verus! {

/// Position and extent of one field within a type's layout.
#[derive(Clone, Copy, PartialEq, Eq, Structural, Debug)]
pub struct FieldLayout {
    /// Byte offset of the field from the start of the value.
    pub offset: usize,
    /// Byte size of the field.
    pub size: usize,
}

/// Size, alignment and field placement of one type.
pub struct TypeLayout {
    /// Total byte size of the type.
    pub size: usize,
    /// Byte alignment of the type.
    pub align: usize,
    /// The fields in declaration order.
    pub fields: Vec<FieldLayout>,
}

impl TypeLayout {
    /// A layout of `count` consecutive fields of `each` bytes, packed
    /// without padding — the shape of every plain record the wrapper
    /// layer mirrors.
    pub fn packed_record(count: usize, each: usize) -> (l: TypeLayout)
        requires
            each > 0,
            count * each <= usize::MAX,
        ensures
            l.size == count * each,
            l.align == each,
            l.fields@.len() == count,
            forall|i: int|
                0 <= i < count ==> #[trigger] l.fields@[i] == (FieldLayout {
                    offset: (i * each) as usize,
                    size: each,
                }),
    {
        let mut fields: Vec<FieldLayout> = Vec::new();
        let mut i: usize = 0;
        while i < count
            invariant
                i <= count,
                each > 0,
                count * each <= usize::MAX,
                fields@.len() == i,
                forall|j: int|
                    0 <= j < i ==> #[trigger] fields@[j] == (FieldLayout {
                        offset: (j * each) as usize,
                        size: each,
                    }),
            decreases count - i,
        {
            proof {
                assert(i * each <= count * each) by (nonlinear_arith)
                    requires
                        i < count,
                        each > 0,
                ;
            }
            fields.push(FieldLayout { offset: i * each, size: each });
            i = i + 1;
        }
        TypeLayout { size: count * each, align: each, fields }
    }
}

/// Whether two layouts agree in size, alignment, and every field.
pub fn layout_eq(a: &TypeLayout, b: &TypeLayout) -> (r: bool)
    ensures
        r <==> (a.size == b.size && a.align == b.align && a.fields@ =~= b.fields@),
{
    if a.size != b.size || a.align != b.align || a.fields.len() != b.fields.len() {
        return false;
    }
    let mut i: usize = 0;
    while i < a.fields.len()
        invariant
            i <= a.fields@.len(),
            a.fields@.len() == b.fields@.len(),
            forall|j: int| 0 <= j < i ==> a.fields@[j] == b.fields@[j],
        decreases a.fields@.len() - i,
    {
        let fa = a.fields[i];
        let fb = b.fields[i];
        if fa.offset != fb.offset || fa.size != fb.size {
            return false;
        }
        i = i + 1;
    }
    true
}

/// The layout contract: wrapper type `Self` may alias native type `N`.
///
/// The cast is a bijection between wrapper and valid native values,
/// and both sides lay their fields out identically.  Each implementer
/// proves this once, here; everything above then relies on it.
pub trait NativeTransmutable<N>: Sized {
    /// Which native values the wrapper view covers.  `true` for plain
    /// records; restricted for enumerations, whose native carrier
    /// admits values outside the declared set.
    spec fn native_valid(n: N) -> bool;

    /// The wrapper view of a native value.
    spec fn from_native_spec(n: N) -> Self;

    /// The native view of a wrapper value.
    spec fn to_native_spec(self) -> N;

    /// The casts invert each other: writing through either view and
    /// reading through the other loses nothing.
    proof fn lemma_cast_roundtrip(self, n: N)
        requires
            Self::native_valid(n),
        ensures
            Self::from_native_spec(self.to_native_spec()) == self,
            Self::from_native_spec(n).to_native_spec() == n,
            Self::native_valid(self.to_native_spec()),
    ;

    /// Casts a native value to its wrapper view.
    fn from_native(n: N) -> (r: Self)
        requires
            Self::native_valid(n),
        ensures
            r == Self::from_native_spec(n),
    ;

    /// Casts a wrapper value to its native view.
    fn into_native(self) -> (r: N)
        ensures
            r == self.to_native_spec(),
    ;

    /// The mandatory layout check: compares the wrapper type's own
    /// layout against the layout the declaration set records for the
    /// native type.  Verification makes the check's success a theorem;
    /// running it re-computes the same comparison.
    fn test_layout();
}

} // verus!
