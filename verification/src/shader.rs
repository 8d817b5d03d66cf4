//! The shared shader handle.

use vstd::prelude::*;

use crate::handles::RCHandle;
use crate::native::NativeShader;

verus! {

/// A reference-counted handle to a native shader.
pub type Shader = RCHandle<NativeShader>;

} // verus!
