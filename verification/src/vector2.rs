use vstd::prelude::*;

use crate::scalar::{ONE_BITS, ZERO_BITS};

verus! {

/// A pair of backend scalars — a position, an origin, or a per-axis scale in
/// a draw request. The core routes these values to the per-quad transform
/// parameters without computing on them, so each component holds the raw bit
/// pattern of the backend's 32-bit scalar (see the `scalar` module). The
/// floating-point vector arithmetic of the rendering pipeline lives with the
/// backend.
#[derive(Clone, Copy, Debug, PartialEq, Eq, Structural)]
pub struct Vector2 {
    pub x: u32,
    pub y: u32,
}

impl Vector2 {
    pub fn new(x: u32, y: u32) -> (v: Vector2)
        ensures
            v == (Vector2 { x, y }),
    {
        Vector2 { x, y }
    }

    /// Both components zero.
    pub open spec fn zero_spec() -> Vector2 {
        Vector2 { x: ZERO_BITS, y: ZERO_BITS }
    }

    pub fn zero() -> (v: Vector2)
        ensures
            v == Vector2::zero_spec(),
    {
        Vector2 { x: ZERO_BITS, y: ZERO_BITS }
    }

    /// Both components one — the default per-axis scale of a draw request.
    pub open spec fn one_spec() -> Vector2 {
        Vector2 { x: ONE_BITS, y: ONE_BITS }
    }

    pub fn one() -> (v: Vector2)
        ensures
            v == Vector2::one_spec(),
    {
        Vector2 { x: ONE_BITS, y: ONE_BITS }
    }
}

impl Default for Vector2 {
    /// The default vector is zero on both axes.
    fn default() -> (v: Vector2)
        ensures
            v == Vector2::zero_spec(),
    {
        Vector2::zero()
    }
}

} // verus!
