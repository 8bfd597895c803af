use vstd::prelude::*;

verus! {

/// The bit pattern of the 32-bit IEEE-754 value one, the alpha component of
/// the default border color.
pub const COMPONENT_ONE_BITS: u32 = 0x3F80_0000;

/// One texel: a four-component color value.
///
/// Each component holds the raw bit pattern of a 32-bit IEEE-754 value. The
/// library stores, moves and compares components; it never does arithmetic on
/// them, so the bit pattern is all it needs, and a round trip through the
/// library returns a component exactly as it was given.
#[derive(Clone, Copy, Debug, PartialEq, Eq, Structural)]
pub struct Texel {
    pub r: u32,
    pub g: u32,
    pub b: u32,
    pub a: u32,
}

/// The texel every component of which is the zero bit pattern: the value a
/// fresh texture is filled with.
pub open spec fn zero_texel() -> Texel {
    Texel { r: 0, g: 0, b: 0, a: 0 }
}

/// The border color a sampler starts with: opaque black, `[0, 0, 0, 1]`.
pub open spec fn default_border_color() -> Texel {
    Texel { r: 0, g: 0, b: 0, a: COMPONENT_ONE_BITS }
}

impl Texel {
    /// Builds a texel from its four raw components.
    pub fn new(r: u32, g: u32, b: u32, a: u32) -> (t: Texel)
        ensures
            t == (Texel { r, g, b, a }),
    {
        Texel { r, g, b, a }
    }
}

} // verus!
