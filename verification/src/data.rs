//! An owned block of rendered output.

use vstd::prelude::*;

verus! {

/// Rendered output handed out of the engine, owned by the holder.
pub struct Data {
    /// The output's text.
    pub text: String,
}

impl Data {
    /// The output's text.
    pub fn as_text(&self) -> (r: &String)
        ensures
            r@ == self.text@,
    {
        &self.text
    }
}

} // verus!
