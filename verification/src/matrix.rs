//! A plane transform, carried for the engine's geometry queries.

use vstd::prelude::*;

use crate::scalar;

verus! {

/// An affine plane transform.
#[derive(Clone, Copy, PartialEq, Eq, Structural, Debug)]
pub struct Matrix {
    /// Horizontal scale.
    pub scale_x: scalar,
    /// Horizontal shear.
    pub skew_x: scalar,
    /// Horizontal translation.
    pub trans_x: scalar,
    /// Vertical shear.
    pub skew_y: scalar,
    /// Vertical scale.
    pub scale_y: scalar,
    /// Vertical translation.
    pub trans_y: scalar,
}

impl Matrix {
    /// The transform that moves nothing.
    pub fn new_identity() -> (m: Matrix)
        ensures
            m == (Matrix {
                scale_x: 1i32,
                skew_x: 0i32,
                trans_x: 0i32,
                skew_y: 0i32,
                scale_y: 1i32,
                trans_y: 0i32,
            }),
    {
        Matrix { scale_x: 1, skew_x: 0, trans_x: 0, skew_y: 0, scale_y: 1, trans_y: 0 }
    }
}

} // verus!
