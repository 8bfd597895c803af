use vstd::prelude::*;

verus! {

/// One fixed-point unit is 1/65536 of the normalized coordinate range, so
/// `COORD_ONE` units stand for the coordinate 1.0.
pub const COORD_ONE: i64 = 65536;

/// Half of [`COORD_ONE`]: the rounding offset used when a level-of-detail
/// value is resolved to the nearest mip level.
pub const COORD_HALF: i64 = 32768;

/// Twice [`COORD_ONE`]: the period of the mirrored wrap mode.
pub const COORD_TWO: i64 = 131072;

/// A one-dimensional extent: the width of a texture level, and likewise an
/// integer texel coordinate within such a level.
#[derive(Clone, Copy, Debug, PartialEq, Eq, Structural)]
pub struct Extent1d {
    pub x: usize,
}

/// A normalized one-dimensional sample coordinate in fixed point: the
/// coordinate's value is `units / COORD_ONE`, so the texture's own extent
/// spans the units 0 through `COORD_ONE`.
#[derive(Clone, Copy, Debug, PartialEq, Eq, Structural)]
pub struct NormalizeCoord1d {
    pub units: i64,
}

/// A level-of-detail selector in the same fixed-point scale as
/// [`NormalizeCoord1d`]: `units / COORD_ONE` names a (possibly fractional)
/// position in the mip chain.
#[derive(Clone, Copy, Debug, PartialEq, Eq, Structural)]
pub struct Lod {
    pub units: i64,
}

} // verus!
