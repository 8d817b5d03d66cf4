//! The shared typeface handle.

use vstd::prelude::*;

use crate::engine::Engine;
use crate::handles::RCHandle;
use crate::native::NativeTypeface;

verus! {

/// A reference-counted handle to a native typeface.
pub type Typeface = RCHandle<NativeTypeface>;

impl RCHandle<NativeTypeface> {
    /// The engine's default typeface, as a fresh reference.
    pub fn new_default(e: &mut Engine<NativeTypeface>) -> (r: Self)
        requires
            old(e).wf(),
        ensures
            final(e).wf(),
            final(e).slots@ == old(e).allocated(NativeTypeface { unique_id: 0u32 }),
            r.is_valid(*final(e)),
            r.value_in(*final(e)) == (NativeTypeface { unique_id: 0u32 }),
    {
        let p = e.allocate(NativeTypeface { unique_id: 0 });
        let r = RCHandle::from_ptr(p, e);
        r.unwrap()
    }
}

} // verus!
