//! Model of the native engine's object store.
//!
//! Every native object that the wrapper layer manages lives in an
//! [`Engine`]: a table of slots, each holding the object's value, its
//! intrusive reference count, and whether the object is still alive.
//! A "pointer" into the table is a `usize`; `0` is the null pointer and
//! `p` with `1 <= p <= slots.len()` refers to slot `p - 1`.
//!
//! All reference-count mutation goes through [`Engine::retain`] and
//! [`Engine::release`], the model of the engine's atomic increment and
//! decrement; the wrapper layer never touches a count directly.  An
//! object dies exactly when its count reaches zero, and a dead slot is
//! never revived, so the destructor of an object runs at most once.

use vstd::prelude::*;

verus! {

/// One cell of the object table: an object's value, its intrusive
/// reference count, and whether it is still alive.
#[verifier::ext_equal]
pub struct Slot<T> {
    /// The object's value.  Meaningful only while `alive`.
    pub value: T,
    /// The intrusive reference count embedded in the object.
    pub ref_count: u32,
    /// Whether the object has not yet been destroyed.
    pub alive: bool,
}

/// The object table standing for the native engine's heap of
/// reference-counted objects of one native type `T`.
#[verifier::ext_equal]
pub struct Engine<T> {
    /// The slots, in allocation order.  Slots are never removed, so a
    /// pointer stays in range forever; death is recorded in the slot.
    pub slots: Vec<Slot<T>>,
}

impl<T> Engine<T> {
    /// The engine's invariant: an object is alive exactly while its
    /// reference count is positive.
    pub open spec fn wf(self) -> bool {
        forall|i: int|
            0 <= i < self.slots@.len() ==> ((#[trigger] self.slots@[i]).alive <==> self.slots@[i].ref_count
                > 0)
    }

    /// `p` is a non-null pointer into the table.
    pub open spec fn in_range(self, p: usize) -> bool {
        1 <= p && p <= self.slots@.len()
    }

    /// The slot `p` points at.
    pub open spec fn slot_of(self, p: usize) -> Slot<T> {
        self.slots@[p - 1]
    }

    /// `p` points at a live object.
    pub open spec fn is_live(self, p: usize) -> bool {
        self.in_range(p) && self.slot_of(p).alive
    }

    /// The value of the object `p` points at.
    pub open spec fn value_of(self, p: usize) -> T {
        self.slot_of(p).value
    }

    /// The reference count of the object `p` points at.
    pub open spec fn count_of(self, p: usize) -> u32 {
        self.slot_of(p).ref_count
    }

    /// Number of live objects among the first `n` slots.
    pub open spec fn live_count_to(self, n: int) -> int {
        seq_live_count_to(self.slots@, n)
    }

    /// Number of live objects in the table — the model of a debug-build
    /// allocation tracker.
    pub open spec fn live_count(self) -> int {
        self.live_count_to(self.slots@.len() as int)
    }

    /// The slot table after a fresh allocation: one more slot, alive,
    /// with one reference.
    pub open spec fn allocated(self, value: T) -> Seq<Slot<T>> {
        seq_allocated(self.slots@, value)
    }

    /// The slot table after the intrusive count of `p` was incremented.
    pub open spec fn retained(self, p: usize) -> Seq<Slot<T>> {
        seq_retained(self.slots@, p)
    }

    /// The slot table after the intrusive count of `p` was decremented;
    /// at zero the object dies.
    pub open spec fn released(self, p: usize) -> Seq<Slot<T>> {
        seq_released(self.slots@, p)
    }

    /// An empty engine: no objects allocated yet.
    pub fn new() -> (e: Engine<T>)
        ensures
            e.wf(),
            e.slots@.len() == 0,
            e.live_count() == 0,
    {
        Engine { slots: Vec::new() }
    }

    /// Allocates a fresh object with one reference and hands back the
    /// pointer to it.  The model of a native factory's successful path.
    pub fn allocate(&mut self, value: T) -> (p: usize)
        requires
            old(self).wf(),
        ensures
            final(self).wf(),
            final(self).slots@ == old(self).allocated(value),
            p == old(self).slots@.len() + 1,
            final(self).is_live(p),
            final(self).count_of(p) == 1,
            final(self).value_of(p) == value,
    {
        self.slots.push(Slot { value, ref_count: 1, alive: true });
        self.slots.len()
    }

    /// Increments the intrusive reference count of `p` — the model of
    /// the engine's atomic increment.
    pub fn retain(&mut self, p: usize)
        requires
            old(self).wf(),
            old(self).is_live(p),
            old(self).count_of(p) < u32::MAX,
        ensures
            final(self).wf(),
            final(self).slots@ == old(self).retained(p),
    {
        let idx = p - 1;
        let slot = &mut self.slots[idx];
        slot.ref_count = slot.ref_count + 1;
        assert(self.slots@ =~= old(self).retained(p));
    }

    /// Decrements the intrusive reference count of `p`; when the count
    /// reaches zero the object is destroyed — the model of the engine's
    /// atomic decrement with its embedded teardown.
    pub fn release(&mut self, p: usize)
        requires
            old(self).wf(),
            old(self).is_live(p),
        ensures
            final(self).wf(),
            final(self).slots@ == old(self).released(p),
    {
        let idx = p - 1;
        let slot = &mut self.slots[idx];
        slot.ref_count = slot.ref_count - 1;
        if slot.ref_count == 0 {
            slot.alive = false;
        }
        assert(self.slots@ =~= old(self).released(p));
    }

    /// Whether `p` points at a live object — the model of a native
    /// is-alive probe.
    pub fn is_alive(&self, p: usize) -> (r: bool)
        ensures
            r == self.is_live(p),
    {
        p >= 1 && p <= self.slots.len() && self.slots[p - 1].alive
    }

    /// Reads the object `p` points at.
    pub fn get(&self, p: usize) -> (v: &T)
        requires
            self.is_live(p),
        ensures
            *v == self.value_of(p),
    {
        &self.slots[p - 1].value
    }

    /// Replaces the value of the live object `p` points at — the
    /// model of mutating a native object in place.
    pub fn set_value(&mut self, p: usize, value: T)
        requires
            old(self).wf(),
            old(self).is_live(p),
        ensures
            final(self).wf(),
            final(self).slots@ == seq_value_set(old(self).slots@, p, value),
            final(self).is_live(p),
            final(self).count_of(p) == old(self).count_of(p),
            final(self).value_of(p) == value,
    {
        let idx = p - 1;
        let slot = &mut self.slots[idx];
        slot.value = value;
        assert(self.slots@ =~= seq_value_set(old(self).slots@, p, value));
    }

    /// Counts the live objects in the table — the model of a
    /// debug-build allocation tracker's leak report.
    pub fn live_objects(&self) -> (n: usize)
        ensures
            n == self.live_count(),
    {
        let mut n: usize = 0;
        let mut i: usize = 0;
        while i < self.slots.len()
            invariant
                i <= self.slots@.len(),
                n == self.live_count_to(i as int),
                n <= i,
            decreases self.slots@.len() - i,
        {
            if self.slots[i].alive {
                n = n + 1;
            }
            i = i + 1;
        }
        n
    }
}


/// A slot table after a fresh allocation: one more slot, alive, with
/// one reference.
pub open spec fn seq_allocated<T>(s: Seq<Slot<T>>, value: T) -> Seq<Slot<T>> {
    s.push(Slot { value, ref_count: 1u32, alive: true })
}

/// `p` points at a live object of the slot table.
pub open spec fn seq_live<T>(s: Seq<Slot<T>>, p: usize) -> bool {
    1 <= p && p <= s.len() && s[p - 1].alive
}

/// A slot table after the intrusive count of `p` was incremented.
pub open spec fn seq_retained<T>(s: Seq<Slot<T>>, p: usize) -> Seq<Slot<T>> {
    s.update(p - 1, Slot { ref_count: (s[p - 1].ref_count + 1) as u32, ..s[p - 1] })
}

/// A slot table after the intrusive count of `p` was decremented; at
/// zero the object dies.
pub open spec fn seq_released<T>(s: Seq<Slot<T>>, p: usize) -> Seq<Slot<T>> {
    s.update(
        p - 1,
        Slot {
            ref_count: (s[p - 1].ref_count - 1) as u32,
            alive: s[p - 1].ref_count > 1,
            ..s[p - 1]
        },
    )
}


/// A slot table after the value of `p` was replaced in place.
pub open spec fn seq_value_set<T>(s: Seq<Slot<T>>, p: usize, value: T) -> Seq<Slot<T>> {
    s.update(p - 1, Slot { value, ..s[p - 1] })
}


/// Number of live objects among the first `n` slots of a slot table.
pub open spec fn seq_live_count_to<T>(s: Seq<Slot<T>>, n: int) -> int
    decreases n,
{
    if n <= 0 {
        0
    } else {
        seq_live_count_to(s, n - 1) + if s[n - 1].alive {
            1int
        } else {
            0int
        }
    }
}

/// Replacing one slot moves the live count by exactly the change in
/// that slot's liveness, and not at all when the slot lies past the
/// counted prefix.
pub proof fn lemma_live_count_update<T>(s: Seq<Slot<T>>, k: int, slot: Slot<T>, n: int)
    requires
        0 <= k < s.len(),
        0 <= n <= s.len(),
    ensures
        k >= n ==> seq_live_count_to(s.update(k, slot), n) == seq_live_count_to(s, n),
        k < n && slot.alive == s[k].alive ==> seq_live_count_to(s.update(k, slot), n)
            == seq_live_count_to(s, n),
        k < n && slot.alive && !s[k].alive ==> seq_live_count_to(s.update(k, slot), n)
            == seq_live_count_to(s, n) + 1,
        k < n && !slot.alive && s[k].alive ==> seq_live_count_to(s.update(k, slot), n)
            == seq_live_count_to(s, n) - 1,
    decreases n,
{
    if n > 0 {
        lemma_live_count_update(s, k, slot, n - 1);
    }
}

} // verus!
