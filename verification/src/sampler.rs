use vstd::prelude::*;
use crate::extent::{COORD_HALF, COORD_ONE, COORD_TWO, Lod};

verus! {

/// Policy for resolving a normalized sample coordinate that falls outside
/// the texture's extent.
#[derive(Clone, Copy, Debug, PartialEq, Eq, Structural)]
pub enum Wrap {
    /// Out-of-range coordinates are pulled to the nearest edge texel.
    ClampToEdge,
    /// Out-of-range accesses yield the sampler's border color.
    ClampToBorder,
    /// The coordinate repeats with period one.
    Repeat,
    /// The coordinate repeats with period two, reflected on every other
    /// period.
    MirrorRepeat,
}

/// Texel filtering policy recorded by a sampler.
///
/// The policy is part of the sampler's configuration; sampling and mipmap
/// reduction in this library always resolve to a single nearest texel, since
/// blending texel values is floating-point arithmetic, which the library
/// does not perform.
#[derive(Clone, Copy, Debug, PartialEq, Eq, Structural)]
pub enum Filter {
    Nearest,
    Linear,
}

/// A coordinate clamped to the normalized range: the resolution of
/// [`Wrap::ClampToEdge`], and of [`Wrap::ClampToBorder`] once an access is
/// known to be in range.
pub open spec fn clamped_units(units: int) -> int {
    if units < 0 {
        0
    } else if units > COORD_ONE {
        COORD_ONE as int
    } else {
        units
    }
}

/// The resolution of [`Wrap::MirrorRepeat`]: the coordinate folded into one
/// period of the reflected pattern.
pub open spec fn mirrored_units(units: int) -> int {
    let m = units % (COORD_TWO as int);
    if m > COORD_ONE {
        (COORD_TWO as int) - m
    } else {
        m
    }
}

/// A normalized coordinate folded into the range `[0, COORD_ONE]` under the
/// given wrap mode.
pub open spec fn wrapped_units(wrap: Wrap, units: int) -> int {
    match wrap {
        Wrap::ClampToEdge => clamped_units(units),
        Wrap::ClampToBorder => clamped_units(units),
        Wrap::Repeat => units % (COORD_ONE as int),
        Wrap::MirrorRepeat => mirrored_units(units),
    }
}

/// The texel index nearest to a folded coordinate on a level of the given
/// width: the unit interval is split into `width` equal cells, and the
/// coordinate 1.0 itself falls to the last cell.
pub open spec fn nearest_index(units: int, width: int) -> int {
    let i = (units * width) / (COORD_ONE as int);
    if i >= width {
        width - 1
    } else {
        i
    }
}

/// The mip level a level-of-detail value resolves to in a chain of `levels`
/// levels: rounded to the nearest whole level, half units rounding up, and
/// clamped to the chain.
pub open spec fn lod_level_index(levels: int, units: int) -> int {
    if units <= 0 {
        0
    } else {
        let l = (units + COORD_HALF) / (COORD_ONE as int);
        if l >= levels {
            levels - 1
        } else {
            l
        }
    }
}

/// Euclidean remainder of a fixed-point coordinate by a positive period.
pub fn euclid_mod_units(units: i64, period: u64) -> (r: u64)
    requires
        0 < period <= COORD_TWO,
    ensures
        r as int == units as int % period as int,
{
    if units >= 0 {
        (units as u64) % period
    } else {
        let mag: u64 = ((-(units + 1)) as u64) + 1;
        let rem: u64 = mag % period;
        proof {
            let u = units as int;
            let p = period as int;
            let m = mag as int;
            vstd::arithmetic::div_mod::lemma_fundamental_div_mod(m, p);
            if m % p == 0 {
                assert(u == p * (-(m / p)) + 0) by {
                    assert(m == p * (m / p) + m % p);
                    assert(p * (-(m / p)) == -(p * (m / p))) by (nonlinear_arith);
                };
                vstd::arithmetic::div_mod::lemma_fundamental_div_mod_converse_mod(
                    u, p, -(m / p), 0);
            } else {
                assert(u == p * (-(m / p) - 1) + (p - m % p)) by {
                    assert(m == p * (m / p) + m % p);
                    assert(p * (-(m / p) - 1) == -(p * (m / p)) - p) by (nonlinear_arith);
                };
                vstd::arithmetic::div_mod::lemma_fundamental_div_mod_converse_mod(
                    u, p, -(m / p) - 1, p - m % p);
            }
        }
        if rem == 0 {
            0
        } else {
            period - rem
        }
    }
}

/// A normalized coordinate folded into `[0, COORD_ONE]` under the sampler's
/// wrap mode.
pub fn wrap_coord_units(wrap: Wrap, units: i64) -> (u: u64)
    ensures
        u as int == wrapped_units(wrap, units as int),
        u <= COORD_ONE,
{
    match wrap {
        Wrap::ClampToEdge | Wrap::ClampToBorder => {
            if units < 0 {
                0
            } else if units > COORD_ONE {
                COORD_ONE as u64
            } else {
                units as u64
            }
        },
        Wrap::Repeat => euclid_mod_units(units, COORD_ONE as u64),
        Wrap::MirrorRepeat => {
            let m: u64 = euclid_mod_units(units, COORD_TWO as u64);
            if m > COORD_ONE as u64 {
                (COORD_TWO as u64) - m
            } else {
                m
            }
        },
    }
}

/// The texel index nearest to a folded coordinate on a level of the given
/// width.
pub fn nearest_texel_index(units: u64, width: usize) -> (i: usize)
    requires
        units <= COORD_ONE,
        1 <= width <= 0xFFFF_FFFFusize,
    ensures
        i as int == nearest_index(units as int, width as int),
        i < width,
{
    proof {
        assert(units * width <= 65536 * 0xFFFF_FFFFu64) by (nonlinear_arith)
            requires units <= 65536 && width <= 0xFFFF_FFFFu64;
    }
    let prod: u64 = units * (width as u64);
    let idx: u64 = prod / (COORD_ONE as u64);
    if idx >= width as u64 {
        width - 1
    } else {
        idx as usize
    }
}

/// The mip level a level-of-detail value resolves to in a chain of `levels`
/// levels.
pub fn lod_level_of(levels: usize, lod: Lod) -> (l: usize)
    requires
        levels >= 1,
    ensures
        l as int == lod_level_index(levels as int, lod.units as int),
        l < levels,
{
    if lod.units <= 0 {
        0
    } else {
        let r: u64 = ((lod.units as u64) + (COORD_HALF as u64)) / (COORD_ONE as u64);
        if r >= levels as u64 {
            levels - 1
        } else {
            r as usize
        }
    }
}

} // verus!
