use vstd::prelude::*;

use crate::scalar::ONE_BITS;

verus! {

/// An RGBA tint, conventionally in [0, 1] per channel but unclamped. The
/// core never computes on channel values — it routes them to the four
/// vertices of the quad they tint — so each channel holds the raw bit
/// pattern of the backend's 32-bit scalar (see the `scalar` module).
/// Channel order is red, green, blue, alpha, and the core emits it in that
/// order.
#[derive(Clone, Copy, Debug, PartialEq, Eq, Structural)]
pub struct Color {
    pub red: u32,
    pub green: u32,
    pub blue: u32,
    pub alpha: u32,
}

impl Color {
    pub fn new(red: u32, green: u32, blue: u32, alpha: u32) -> (c: Color)
        ensures
            c == (Color { red, green, blue, alpha }),
    {
        Color { red, green, blue, alpha }
    }

    /// Opaque white: every channel one. The default tint of a draw request.
    pub open spec fn opaque_white_spec() -> Color {
        Color { red: ONE_BITS, green: ONE_BITS, blue: ONE_BITS, alpha: ONE_BITS }
    }

    pub fn opaque_white() -> (c: Color)
        ensures
            c == Color::opaque_white_spec(),
    {
        Color { red: ONE_BITS, green: ONE_BITS, blue: ONE_BITS, alpha: ONE_BITS }
    }
}

} // verus!
