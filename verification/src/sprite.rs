use vstd::prelude::*;

verus! {

/// A handle into the sprite atlas: the index of the layer that holds the
/// image, and the image's dimensions as they were at registration time —
/// before padding to the common cell size. The original dimensions are what
/// default source rectangles are built from.
#[derive(Clone, Copy, Debug)]
pub struct Sprite {
    index: u32,
    dimensions: (u32, u32),
}

impl Sprite {
    /// The atlas layer this sprite selects.
    pub closed spec fn index_spec(self) -> u32 {
        self.index
    }

    /// Width and height of the registered image, before padding.
    pub closed spec fn dimensions_spec(self) -> (u32, u32) {
        self.dimensions
    }

    pub fn index(&self) -> (r: u32)
        ensures
            r == self.index_spec(),
    {
        self.index
    }

    pub fn dimensions(&self) -> (r: (u32, u32))
        ensures
            r == self.dimensions_spec(),
    {
        self.dimensions
    }

    /// The reserved sprite: layer 0 of every atlas holds a 1×1 opaque-white
    /// image, registered before all others, so that screen clearing can be
    /// drawn as an ordinary tinted quad.
    pub closed spec fn reserved_spec() -> Sprite {
        Sprite { index: 0, dimensions: (1u32, 1u32) }
    }

    pub fn reserved() -> (s: Sprite)
        ensures
            s == Sprite::reserved_spec(),
            s.index_spec() == 0,
            s.dimensions_spec() == (1u32, 1u32),
    {
        Sprite { index: 0, dimensions: (1, 1) }
    }

    pub(crate) fn from_parts(index: u32, dimensions: (u32, u32)) -> (s: Sprite)
        ensures
            s.index_spec() == index,
            s.dimensions_spec() == dimensions,
    {
        Sprite { index, dimensions }
    }
}

impl Default for Sprite {
    /// The default sprite is the reserved 1×1 white sprite on layer 0.
    fn default() -> (s: Sprite)
        ensures
            s.index_spec() == 0,
            s.dimensions_spec() == (1u32, 1u32),
    {
        Sprite::reserved()
    }
}

} // verus!
