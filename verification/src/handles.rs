//! The three ownership disciplines of the wrapper layer.
//!
//! * [`Handle`] — an exclusively owned native value, held inline; there
//!   is exactly one owner, and mutation goes through `&mut self` only.
//! * [`RCHandle`] — a pointer to a native object with an intrusive
//!   reference count, living in an [`Engine`]; many handles may alias
//!   one object, and the object dies when the last handle is dropped.
//! * [`Borrows`] — a non-owning reference to a native value owned
//!   elsewhere; it can never outlive its owner and is never destroyed.
//!
//! A handle never touches a reference count itself: cloning and
//! dropping delegate to the engine's atomic retain and release.

use vstd::prelude::*;

use crate::engine::lemma_live_count_update;
use crate::engine::Engine;

verus! {

/// An exclusively owned native value.
///
/// The wrapped value is stored inline: constructing the handle moves a
/// fully initialized native value in, and the handle's owner is the
/// value's only owner from then on.
pub struct Handle<N> {
    /// The wrapped native value.
    pub n: N,
}

impl<N> Handle<N> {
    /// Wraps an already fully constructed native value by move.
    pub fn from_native(n: N) -> (h: Self)
        ensures
            h.n == n,
    {
        Handle { n }
    }

    /// Shared access to the wrapped native value.
    pub fn native(&self) -> (r: &N)
        ensures
            *r == self.n,
    {
        &self.n
    }

    /// Exclusive access to the wrapped native value; only an exclusive
    /// borrow of the handle grants it.
    pub fn native_mut(&mut self) -> (r: &mut N)
        ensures
            *r == old(self).n,
            final(self).n == *final(r),
    {
        &mut self.n
    }

    /// Consumes the handle and hands the native value back.
    pub fn into_native(self) -> (n: N)
        ensures
            n == self.n,
    {
        self.n
    }
}

/// A handle to a native object with an intrusive reference count.
///
/// The pointer is never null: factories that can fail hand back a null
/// pointer, and [`RCHandle::from_ptr`] turns that into `None` rather
/// than a live handle around null.
pub struct RCHandle<N> {
    /// The non-null pointer into the object's engine.
    pub ptr: usize,
    /// Marker tying the handle to its native type.
    pub _mark: core::marker::PhantomData<N>,
}

impl<N> RCHandle<N> {
    /// The handle points at a live object of `e`.
    pub open spec fn is_valid(self, e: Engine<N>) -> bool {
        e.is_live(self.ptr)
    }

    /// The object's value in `e`.
    pub open spec fn value_in(self, e: Engine<N>) -> N {
        e.value_of(self.ptr)
    }

    /// Wraps a pointer that already owns one reference — the calling
    /// convention of factories that hand back a fresh (+1) reference.
    /// A null pointer becomes `None`; the count is not touched.
    pub fn from_ptr(ptr: usize, e: &Engine<N>) -> (r: Option<Self>)
        requires
            ptr == 0 || e.is_live(ptr),
        ensures
            r.is_some() <==> ptr != 0,
            r.is_some() ==> r.unwrap().ptr == ptr && r.unwrap().is_valid(*e),
    {
        if ptr == 0 {
            None
        } else {
            Some(RCHandle { ptr, _mark: core::marker::PhantomData })
        }
    }

    /// Wraps a pointer whose reference is still owned by someone else,
    /// taking a share by incrementing the count.  A null pointer
    /// becomes `None` and leaves the engine untouched.
    pub fn from_unshared_ptr(ptr: usize, e: &mut Engine<N>) -> (r: Option<Self>)
        requires
            old(e).wf(),
            ptr == 0 || (old(e).is_live(ptr) && old(e).count_of(ptr) < u32::MAX),
        ensures
            final(e).wf(),
            r.is_some() <==> ptr != 0,
            ptr == 0 ==> *final(e) == *old(e),
            ptr != 0 ==> final(e).slots@ == old(e).retained(ptr),
            r.is_some() ==> r.unwrap().ptr == ptr && r.unwrap().is_valid(*final(e)),
    {
        if ptr == 0 {
            None
        } else {
            e.retain(ptr);
            Some(RCHandle { ptr, _mark: core::marker::PhantomData })
        }
    }

    /// Clones the handle: one more reference to the same object.
    pub fn clone_handle(&self, e: &mut Engine<N>) -> (r: Self)
        requires
            old(e).wf(),
            self.is_valid(*old(e)),
            old(e).count_of(self.ptr) < u32::MAX,
        ensures
            final(e).wf(),
            final(e).slots@ == old(e).retained(self.ptr),
            r.ptr == self.ptr,
            r.is_valid(*final(e)),
            self.is_valid(*final(e)),
    {
        e.retain(self.ptr);
        RCHandle { ptr: self.ptr, _mark: core::marker::PhantomData }
    }

    /// Drops the handle: gives its reference back.  The object dies
    /// exactly when this was the last reference; the wrapper never
    /// frees anything itself.
    pub fn drop_handle(self, e: &mut Engine<N>)
        requires
            old(e).wf(),
            self.is_valid(*old(e)),
        ensures
            final(e).wf(),
            final(e).slots@ == old(e).released(self.ptr),
            old(e).count_of(self.ptr) > 1 ==> final(e).is_live(self.ptr),
            old(e).count_of(self.ptr) == 1 ==> !final(e).is_live(self.ptr),
    {
        e.release(self.ptr);
    }

    /// Reads the shared native object.
    pub fn shared_native<'a>(&self, e: &'a Engine<N>) -> (r: &'a N)
        requires
            self.is_valid(*e),
        ensures
            *r == self.value_in(*e),
    {
        e.get(self.ptr)
    }
}

/// A non-owning reference to a native value owned elsewhere.
///
/// The borrow can never outlive the owner it came from — the lifetime
/// ties it down — and dropping it destroys nothing.
pub struct Borrows<'a, N> {
    /// The borrowed native value.
    pub n: &'a N,
}

impl<'a, N> Borrows<'a, N> {
    /// Borrows a native value without taking ownership.
    pub fn from_ref(n: &'a N) -> (b: Self)
        ensures
            b.n == n,
    {
        Borrows { n }
    }

    /// Reads through the borrow.
    pub fn native(&self) -> (r: &'a N)
        ensures
            r == self.n,
    {
        self.n
    }
}

/// Cloning a reference-counted handle and then dropping the clone is
/// invisible: the object stays alive and the whole object table — the
/// object's observable state included — is exactly what it was.
pub proof fn lemma_clone_then_drop_clone_restores<N>(
    e0: Engine<N>,
    e1: Engine<N>,
    e2: Engine<N>,
    p: usize,
)
    requires
        e0.wf(),
        e0.is_live(p),
        e0.count_of(p) < u32::MAX,
        e1.slots@ == e0.retained(p),
        e2.slots@ == e1.released(p),
    ensures
        e2.slots@ =~= e0.slots@,
        e2.is_live(p),
        e2.value_of(p) == e0.value_of(p),
{
    assert(e2.slots@ =~= e0.slots@);
}

/// Dropping the last outstanding handle destroys the object: one
/// reference left and one release make the object dead.
pub proof fn lemma_drop_last_destroys<N>(e0: Engine<N>, e1: Engine<N>, p: usize)
    requires
        e0.wf(),
        e0.is_live(p),
        e0.count_of(p) == 1,
        e1.slots@ == e0.released(p),
    ensures
        !e1.is_live(p),
        e1.wf(),
{
}


/// A shared object goes away exactly once, however its shares are
/// given back: four outstanding references — the original and three
/// clones — survive the first three releases with the object alive
/// and its value untouched, and the fourth release, whichever handle
/// performs it, destroys the object and brings the live-object count
/// back down by exactly the one allocation.  Releases of one object
/// act on that object alone, so the order of the four handles is
/// immaterial.
pub proof fn lemma_four_shares_free_exactly_once<N>(
    e0: Engine<N>,
    e1: Engine<N>,
    e2: Engine<N>,
    e3: Engine<N>,
    e4: Engine<N>,
    p: usize,
)
    requires
        e0.wf(),
        e0.is_live(p),
        e0.count_of(p) == 4,
        e1.slots@ == e0.released(p),
        e2.slots@ == e1.released(p),
        e3.slots@ == e2.released(p),
        e4.slots@ == e3.released(p),
    ensures
        e1.is_live(p) && e1.value_of(p) == e0.value_of(p),
        e2.is_live(p) && e2.value_of(p) == e0.value_of(p),
        e3.is_live(p) && e3.value_of(p) == e0.value_of(p),
        !e4.is_live(p),
        e4.live_count() == e0.live_count() - 1,
{
    let k = (p - 1) as int;
    let n = e0.slots@.len() as int;
    assert(e1.slots@ =~= e0.slots@.update(k, e1.slots@[k]));
    assert(e2.slots@ =~= e1.slots@.update(k, e2.slots@[k]));
    assert(e3.slots@ =~= e2.slots@.update(k, e3.slots@[k]));
    assert(e4.slots@ =~= e3.slots@.update(k, e4.slots@[k]));
    lemma_live_count_update(e0.slots@, k, e1.slots@[k], n);
    lemma_live_count_update(e1.slots@, k, e2.slots@[k], n);
    lemma_live_count_update(e2.slots@, k, e3.slots@[k], n);
    lemma_live_count_update(e3.slots@, k, e4.slots@[k], n);
}

} // verus!
