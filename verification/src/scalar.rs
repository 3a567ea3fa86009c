use vstd::prelude::*;

verus! {

/// The batch core routes a number of caller-supplied scalar parameters —
/// positions, rotation angles, scale factors, depths, tint channels — from a
/// draw request to the vertex stream without ever computing on them: the
/// arithmetic that consumes them (the per-quad transform matrix) is done by
/// the GPU backend. The core therefore carries each such scalar as the raw
/// bit pattern of the backend's 32-bit IEEE 754 value, an opaque 32-bit
/// token that is stored and copied but never interpreted.

/// Bit pattern of the scalar value zero.
pub const ZERO_BITS: u32 = 0;

/// Bit pattern of the scalar value one (IEEE 754 single precision: sign 0,
/// biased exponent 127, mantissa 0).
pub const ONE_BITS: u32 = 0x3F80_0000;

} // verus!
