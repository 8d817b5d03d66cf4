//! The shared data-table handle: an immutable table of byte entries,
//! read under bounds and element-size checks.

use vstd::prelude::*;

use crate::engine::Engine;
use crate::handles::RCHandle;
use crate::native::NativeDataTable;

verus! {

/// A reference-counted handle to a native data table.
pub type DataTable = RCHandle<NativeDataTable>;

impl RCHandle<NativeDataTable> {
    /// The table's entries in `e`.
    pub open spec fn entries_in(self, e: Engine<NativeDataTable>) -> Seq<Vec<u8>> {
        self.value_in(e).entries@
    }

    /// Whether the table holds no entry.
    pub fn is_empty(&self, e: &Engine<NativeDataTable>) -> (r: bool)
        requires
            self.is_valid(*e),
        ensures
            r <==> self.entries_in(*e).len() == 0,
    {
        self.count(e) == 0
    }

    /// How many entries the table holds.
    pub fn count(&self, e: &Engine<NativeDataTable>) -> (r: usize)
        requires
            self.is_valid(*e),
        ensures
            r == self.entries_in(*e).len(),
    {
        e.get(self.ptr).entries.len()
    }

    /// The byte size of one entry.  The index must be in bounds;
    /// the caller checks it against [`DataTable::count`].
    pub fn at_size(&self, index: usize, e: &Engine<NativeDataTable>) -> (r: usize)
        requires
            self.is_valid(*e),
            index < self.entries_in(*e).len(),
        ensures
            r == self.entries_in(*e)[index as int]@.len(),
    {
        e.get(self.ptr).entries[index].len()
    }

    /// One entry's bytes.  The index must be in bounds; the caller
    /// checks it against [`DataTable::count`].
    pub fn at<'a>(&self, index: usize, e: &'a Engine<NativeDataTable>) -> (r: &'a Vec<u8>)
        requires
            self.is_valid(*e),
            index < self.entries_in(*e).len(),
        ensures
            r@ == self.entries_in(*e)[index as int]@,
    {
        &e.get(self.ptr).entries[index]
    }

    /// One entry's bytes together with its element count for elements
    /// of `elem_size` bytes.  The entry's byte size must divide into
    /// elements exactly; an inexact size is a contract violation the
    /// caller must rule out, never a silent truncation.
    pub fn at_t<'a>(&self, index: usize, elem_size: usize, e: &'a Engine<NativeDataTable>) -> (r: (
        &'a Vec<u8>,
        usize,
    ))
        requires
            self.is_valid(*e),
            index < self.entries_in(*e).len(),
            elem_size > 0,
            (self.entries_in(*e)[index as int]@.len() as int) % (elem_size as int) == 0,
        ensures
            r.0@ == self.entries_in(*e)[index as int]@,
            r.1 * elem_size == self.entries_in(*e)[index as int]@.len(),
    {
        let entry = &e.get(self.ptr).entries[index];
        let size = entry.len();
        let elements = size / elem_size;
        proof {
            vstd::arithmetic::div_mod::lemma_fundamental_div_mod(size as int, elem_size as int);
            assert((elements as int) * (elem_size as int) == size as int) by (nonlinear_arith)
                requires
                    size as int == (elem_size as int) * (elements as int),
            ;
        }
        (entry, elements)
    }

    /// One entry's text: the entry must close with its only NUL
    /// byte — anything else is a caller error the engine fails loudly
    /// on — and the bytes before the terminator come back.
    pub fn at_str(&self, index: usize, e: &Engine<NativeDataTable>) -> (r: Vec<u8>)
        requires
            self.is_valid(*e),
            index < self.entries_in(*e).len(),
            self.entries_in(*e)[index as int]@.len() >= 1,
            self.entries_in(*e)[index as int]@.last() == 0u8,
            forall|j: int|
                0 <= j < self.entries_in(*e)[index as int]@.len() - 1
                    ==> self.entries_in(*e)[index as int]@[j] != 0u8,
        ensures
            r@ == self.entries_in(*e)[index as int]@.take(
                self.entries_in(*e)[index as int]@.len() - 1,
            ),
    {
        let entry = self.at(index, e);
        let text_len = entry.len() - 1;
        let mut out: Vec<u8> = Vec::new();
        let mut j: usize = 0;
        while j < text_len
            invariant
                text_len < entry@.len(),
                j <= text_len,
                out@ == entry@.subrange(0, j as int),
            decreases text_len - j,
        {
            out.push(entry[j]);
            proof {
                assert(out@ =~= entry@.subrange(0, j as int + 1));
            }
            j = j + 1;
        }
        proof {
            assert(entry@.subrange(0, text_len as int) =~= self.entries_in(*e)[index as int]@.take(
                self.entries_in(*e)[index as int]@.len() - 1,
            ));
        }
        out
    }

    /// A cursor over the table's entries.
    pub fn iter<'a>(&'a self, e: &Engine<NativeDataTable>) -> (r: Iter<'a>)
        requires
            self.is_valid(*e),
        ensures
            r.table == self,
            r.count == self.entries_in(*e).len(),
            r.current == 0,
    {
        Iter { table: self, count: self.count(e), current: 0 }
    }

    /// A fresh table with no entries.
    pub fn new_empty(e: &mut Engine<NativeDataTable>) -> (r: Self)
        requires
            old(e).wf(),
        ensures
            final(e).wf(),
            final(e).slots@.len() == old(e).slots@.len() + 1,
            final(e).slots@.subrange(0, old(e).slots@.len() as int) == old(e).slots@,
            r.is_valid(*final(e)),
            final(e).count_of(r.ptr) == 1,
            r.entries_in(*final(e)).len() == 0,
    {
        let value = NativeDataTable { entries: Vec::new() };
        let p = e.allocate(value);
        let r = RCHandle::from_ptr(p, e);
        proof {
            assert(final(e).slots@.subrange(0, old(e).slots@.len() as int) =~= old(e).slots@);
        }
        r.unwrap()
    }

    /// A fresh table copying one entry per given slice.
    pub fn from_slices(slices: &Vec<Vec<u8>>, e: &mut Engine<NativeDataTable>) -> (r: Self)
        requires
            old(e).wf(),
        ensures
            final(e).wf(),
            final(e).slots@.len() == old(e).slots@.len() + 1,
            final(e).slots@.subrange(0, old(e).slots@.len() as int) == old(e).slots@,
            r.is_valid(*final(e)),
            final(e).count_of(r.ptr) == 1,
            r.entries_in(*final(e)).len() == slices@.len(),
            forall|i: int|
                0 <= i < slices@.len() ==> #[trigger] r.entries_in(*final(e))[i]@ == slices@[i]@,
    {
        let mut entries: Vec<Vec<u8>> = Vec::new();
        let mut i: usize = 0;
        while i < slices.len()
            invariant
                i <= slices@.len(),
                entries@.len() == i,
                forall|j: int| 0 <= j < i ==> #[trigger] entries@[j]@ == slices@[j]@,
            decreases slices@.len() - i,
        {
            entries.push(copy_bytes(&slices[i]));
            i = i + 1;
        }
        let p = e.allocate(NativeDataTable { entries });
        let r = RCHandle::from_ptr(p, e);
        proof {
            assert(final(e).slots@.subrange(0, old(e).slots@.len() as int) =~= old(e).slots@);
        }
        r.unwrap()
    }

    /// A fresh table cutting a copied slice into entries of
    /// `elem_size` bytes each.  The slice's byte size must divide
    /// into elements exactly.
    pub fn from_slice(data: &Vec<u8>, elem_size: usize, e: &mut Engine<NativeDataTable>) -> (r:
        Self)
        requires
            old(e).wf(),
            elem_size > 0,
            (data@.len() as int) % (elem_size as int) == 0,
        ensures
            final(e).wf(),
            final(e).slots@.len() == old(e).slots@.len() + 1,
            final(e).slots@.subrange(0, old(e).slots@.len() as int) == old(e).slots@,
            r.is_valid(*final(e)),
            final(e).count_of(r.ptr) == 1,
            r.entries_in(*final(e)).len() * elem_size == data@.len(),
            forall|i: int|
                0 <= i < r.entries_in(*final(e)).len() ==> #[trigger] r.entries_in(*final(e))[i]@
                    == data@.subrange(i * elem_size, i * elem_size + elem_size),
    {
        let count = data.len() / elem_size;
        proof {
            vstd::arithmetic::div_mod::lemma_fundamental_div_mod(
                data@.len() as int,
                elem_size as int,
            );
            assert((count as int) * (elem_size as int) == data@.len() as int) by (nonlinear_arith)
                requires
                    data@.len() as int == (elem_size as int) * (count as int),
            ;
        }
        let mut entries: Vec<Vec<u8>> = Vec::new();
        let mut off: usize = 0;
        let mut i: usize = 0;
        while i < count
            invariant
                elem_size > 0,
                count * elem_size == data@.len(),
                data@.len() <= usize::MAX,
                i <= count,
                off == i * elem_size,
                entries@.len() == i,
                forall|j: int|
                    0 <= j < i ==> #[trigger] entries@[j]@ == data@.subrange(
                        j * elem_size,
                        j * elem_size + elem_size,
                    ),
            decreases count - i,
        {
            proof {
                assert(((i as int) + 1) * (elem_size as int) == (i as int) * (elem_size as int)
                    + elem_size) by (nonlinear_arith);
                assert(((i as int) + 1) * (elem_size as int) <= (count as int) * (
                elem_size as int)) by (nonlinear_arith)
                    requires
                        (i as int) + 1 <= count as int,
                        elem_size as int >= 0,
                ;
            }
            let mut entry: Vec<u8> = Vec::new();
            let mut j: usize = 0;
            while j < elem_size
                invariant
                    elem_size > 0,
                    off + elem_size <= data@.len(),
                    data@.len() <= usize::MAX,
                    j <= elem_size,
                    entry@.len() == j,
                    entry@ == data@.subrange(off as int, off as int + j),
                decreases elem_size - j,
            {
                entry.push(data[off + j]);
                proof {
                    assert(entry@ =~= data@.subrange(off as int, off as int + j + 1));
                }
                j = j + 1;
            }
            entries.push(entry);
            off = off + elem_size;
            i = i + 1;
        }
        let p = e.allocate(NativeDataTable { entries });
        let r = RCHandle::from_ptr(p, e);
        proof {
            assert(final(e).slots@.subrange(0, old(e).slots@.len() as int) =~= old(e).slots@);
        }
        r.unwrap()
    }
}

/// Copies a byte vector.
fn copy_bytes(data: &Vec<u8>) -> (r: Vec<u8>)
    ensures
        r@ == data@,
{
    let mut out: Vec<u8> = Vec::new();
    let mut i: usize = 0;
    while i < data.len()
        invariant
            i <= data@.len(),
            out@ == data@.subrange(0, i as int),
        decreases data@.len() - i,
    {
        out.push(data[i]);
        proof {
            assert(out@ =~= data@.subrange(0, i as int + 1));
        }
        i = i + 1;
    }
    proof {
        assert(data@.subrange(0, data@.len() as int) =~= data@);
    }
    out
}


/// A cursor over a table's entries, bounds-checked against the count
/// taken when it was made.
pub struct Iter<'a> {
    /// The table walked over.
    pub table: &'a DataTable,
    /// The count the cursor was made with.
    pub count: usize,
    /// The next entry to hand out.
    pub current: usize,
}

impl<'a> Iter<'a> {
    /// The next entry, or nothing once the count is reached.
    pub fn next<'e>(&mut self, e: &'e Engine<NativeDataTable>) -> (r: Option<&'e Vec<u8>>)
        requires
            old(self).table.is_valid(*e),
            old(self).count == old(self).table.entries_in(*e).len(),
            old(self).current <= old(self).count,
        ensures
            final(self).table == old(self).table,
            final(self).count == old(self).count,
            r.is_some() <==> old(self).current < old(self).count,
            r.is_some() ==> final(self).current == old(self).current + 1 && r.unwrap()@ == old(
                self,
            ).table.entries_in(*e)[old(self).current as int]@,
            r.is_none() ==> final(self).current == old(self).current,
    {
        if self.current < self.count {
            let entry = self.table.at(self.current, e);
            self.current = self.current + 1;
            Some(entry)
        } else {
            None
        }
    }
}

} // verus!
