use vstd::prelude::*;
use crate::extent::Extent1d;
use crate::texel::{Texel, zero_texel};

verus! {

/// The widest texture this library accepts; keeps every index computation
/// inside 64-bit arithmetic.
pub const MAX_EXTENT: usize = 0xFFFF_FFFF;

/// The width of mip level `level` in a chain whose base level has width
/// `base`: each level halves the one above it, and the width bottoms out
/// at one.
pub open spec fn level_width(base: int, level: int) -> int
    decreases level,
{
    if level <= 0 {
        base
    } else {
        let up = level_width(base, level - 1);
        if up <= 1 {
            1
        } else {
            up / 2
        }
    }
}

/// Every level of a chain with a positive base width is at least one texel
/// wide and no wider than the base.
pub proof fn lemma_level_width_bounds(base: int, level: int)
    requires
        base >= 1,
        level >= 0,
    ensures
        1 <= level_width(base, level) <= base,
    decreases level,
{
    if level > 0 {
        lemma_level_width_bounds(base, level - 1);
    }
}

/// A texel coordinate on a level, doubled, lands inside the level above it.
pub proof fn lemma_doubled_coord(base: int, level: int, x: int)
    requires
        base >= 1,
        level >= 1,
        0 <= x < level_width(base, level),
    ensures
        0 <= 2 * x < level_width(base, level - 1),
{
    lemma_level_width_bounds(base, level - 1);
    let up = level_width(base, level - 1);
    if up > 1 {
        vstd::arithmetic::div_mod::lemma_fundamental_div_mod(up, 2);
    }
}

/// The shape of a texture: how many levels and layers it holds and how wide
/// its base level is. Two textures of equal shape accept exactly the same
/// accesses.
pub struct TexShape {
    pub levels: int,
    pub layers: int,
    pub extent: int,
}

/// A one-dimensional array texture: `levels` mip levels, each holding
/// `layers` independent rows of texels, where level zero is `extent` texels
/// wide and each further level halves that width (bottoming out at one).
///
/// The texture owns its storage; samplers borrow it per call, so any number
/// of sampler handles may address the same texture and each sees the
/// others' writes.
pub struct Texture1DArray {
    data: Vec<Vec<Vec<Texel>>>,
}

impl Texture1DArray {
    /// How many mip levels the texture holds.
    pub closed spec fn num_levels(self) -> int {
        self.data@.len() as int
    }

    /// How many layers each level holds.
    pub closed spec fn num_layers(self) -> int {
        self.data@[0]@.len() as int
    }

    /// The width of the base level.
    pub closed spec fn base_extent(self) -> int {
        self.data@[0]@[0]@.len() as int
    }

    /// How many layers the storage actually holds at `level`.
    pub closed spec fn layer_count_at(self, level: int) -> int {
        self.data@[level]@.len() as int
    }

    /// How many texels the storage actually holds in one row.
    pub closed spec fn width_at(self, level: int, layer: int) -> int {
        self.data@[level]@[layer]@.len() as int
    }

    /// The texel stored at an exact address.
    pub closed spec fn texel_at(self, level: int, layer: int, x: int) -> Texel {
        self.data@[level]@[layer]@[x]
    }

    /// The texture's shape.
    pub open spec fn shape(self) -> TexShape {
        TexShape {
            levels: self.num_levels(),
            layers: self.num_layers(),
            extent: self.base_extent(),
        }
    }

    /// An address names a texel the texture actually holds.
    pub open spec fn in_bounds(self, level: int, layer: int, x: int) -> bool {
        &&& 0 <= level < self.num_levels()
        &&& 0 <= layer < self.num_layers()
        &&& 0 <= x < level_width(self.base_extent(), level)
    }

    /// Well-formedness: the texture is non-empty, its base level is no wider
    /// than [`MAX_EXTENT`], and every level holds the same number of layers,
    /// each exactly as wide as the mip chain prescribes.
    pub open spec fn wf(self) -> bool {
        &&& 1 <= self.num_levels()
        &&& 1 <= self.num_layers()
        &&& 1 <= self.base_extent() <= MAX_EXTENT
        &&& forall|l: int|
            0 <= l < self.num_levels() ==> #[trigger] self.layer_count_at(l) == self.num_layers()
        &&& forall|l: int, y: int|
            0 <= l < self.num_levels() && 0 <= y < self.num_layers()
                ==> #[trigger] self.width_at(l, y) == level_width(self.base_extent(), l)
    }
}

/// Relates a texture to the one it was before a uniform clear with `c`:
/// the shape is kept and every texel now holds `c`.
pub open spec fn cleared(pre: Texture1DArray, post: Texture1DArray, c: Texel) -> bool {
    &&& post.wf()
    &&& post.shape() == pre.shape()
    &&& forall|l: int, y: int, x: int|
        post.in_bounds(l, y, x) ==> #[trigger] post.texel_at(l, y, x) == c
}

/// Relates a texture to the one it was before a single texel write of `c`
/// at `(level, layer, x)`: the shape is kept, the addressed texel now holds
/// `c`, and every other texel is untouched.
pub open spec fn written(
    pre: Texture1DArray,
    post: Texture1DArray,
    level: int,
    layer: int,
    x: int,
    c: Texel,
) -> bool {
    &&& post.wf()
    &&& post.shape() == pre.shape()
    &&& post.texel_at(level, layer, x) == c
    &&& forall|l: int, y: int, xx: int|
        pre.in_bounds(l, y, xx) && !(l == level && y == layer && xx == x)
            ==> #[trigger] post.texel_at(l, y, xx) == pre.texel_at(l, y, xx)
}

/// The sub-range of a texture that a mipmap regeneration rewrites: the
/// levels strictly below the base of the regenerated range, at the layers
/// the range names.
pub open spec fn mip_region(
    base_layer: int,
    max_layer: int,
    base_level: int,
    max_level: int,
    level: int,
    layer: int,
) -> bool {
    base_level < level <= max_level && base_layer <= layer <= max_layer
}

/// Relates a texture to the one it was before a mipmap regeneration over
/// the given layer and level sub-range: the shape is kept, every texel
/// outside the rewritten region is untouched, and inside the region each
/// texel is the point-sampled reduction of the level above it — the texel
/// at twice its coordinate.
pub open spec fn mip_reduced(
    pre: Texture1DArray,
    post: Texture1DArray,
    base_layer: int,
    max_layer: int,
    base_level: int,
    max_level: int,
) -> bool {
    &&& post.wf()
    &&& post.shape() == pre.shape()
    &&& forall|l: int, y: int, x: int|
        pre.in_bounds(l, y, x) && !mip_region(base_layer, max_layer, base_level, max_level, l, y)
            ==> #[trigger] post.texel_at(l, y, x) == pre.texel_at(l, y, x)
    &&& forall|l: int, y: int, x: int|
        pre.in_bounds(l, y, x) && mip_region(base_layer, max_layer, base_level, max_level, l, y)
            ==> #[trigger] post.texel_at(l, y, x) == post.texel_at(l - 1, y, 2 * x)
}

impl Texture1DArray {
    /// Allocates a texture of the given base extent, layer count and level
    /// count, with every texel of every level holding the zero bit pattern.
    pub fn new(extent: Extent1d, layers: usize, levels: usize) -> (t: Texture1DArray)
        requires
            1 <= extent.x <= MAX_EXTENT,
            1 <= layers,
            1 <= levels,
        ensures
            t.wf(),
            t.num_levels() == levels,
            t.num_layers() == layers,
            t.base_extent() == extent.x,
            forall|l: int, y: int, x: int|
                t.in_bounds(l, y, x) ==> #[trigger] t.texel_at(l, y, x) == zero_texel(),
    {
        let mut data: Vec<Vec<Vec<Texel>>> = Vec::new();
        let mut width: usize = extent.x;
        let mut l: usize = 0;
        while l < levels
            invariant
                l <= levels,
                1 <= extent.x <= MAX_EXTENT,
                data@.len() == l,
                width as int == level_width(extent.x as int, l as int),
                1 <= width <= extent.x,
                forall|ll: int| 0 <= ll < l ==> #[trigger] data@[ll]@.len() == layers,
                forall|ll: int, y: int|
                    0 <= ll < l && 0 <= y < layers
                        ==> #[trigger] data@[ll]@[y]@.len() == level_width(extent.x as int, ll),
                forall|ll: int, y: int, x: int|
                    0 <= ll < l && 0 <= y < layers && 0 <= x < level_width(extent.x as int, ll)
                        ==> #[trigger] data@[ll]@[y]@[x] == zero_texel(),
            decreases levels - l,
        {
            let mut level_vec: Vec<Vec<Texel>> = Vec::new();
            let mut y: usize = 0;
            while y < layers
                invariant
                    y <= layers,
                    level_vec@.len() == y,
                    forall|yy: int| 0 <= yy < y ==> #[trigger] level_vec@[yy]@.len() == width,
                    forall|yy: int, x: int|
                        0 <= yy < y && 0 <= x < width
                            ==> #[trigger] level_vec@[yy]@[x] == zero_texel(),
                decreases layers - y,
            {
                let mut row: Vec<Texel> = Vec::new();
                let mut x: usize = 0;
                while x < width
                    invariant
                        x <= width,
                        row@.len() == x,
                        forall|xx: int| 0 <= xx < x ==> #[trigger] row@[xx] == zero_texel(),
                    decreases width - x,
                {
                    row.push(Texel { r: 0, g: 0, b: 0, a: 0 });
                    x = x + 1;
                }
                level_vec.push(row);
                y = y + 1;
            }
            data.push(level_vec);
            if width > 1 {
                width = width / 2;
            }
            l = l + 1;
        }
        proof {
            lemma_level_width_bounds(extent.x as int, 0);
        }
        Texture1DArray { data }
    }

    /// How many mip levels the texture holds.
    pub fn levels(&self) -> (n: usize)
        requires
            self.wf(),
        ensures
            n == self.num_levels(),
    {
        self.data.len()
    }

    /// How many layers the texture holds.
    pub fn layers(&self) -> (n: usize)
        requires
            self.wf(),
        ensures
            n == self.num_layers(),
    {
        self.data[0].len()
    }

    /// The width of the base level.
    pub fn extent(&self) -> (e: Extent1d)
        requires
            self.wf(),
        ensures
            e.x == self.base_extent(),
    {
        Extent1d { x: self.data[0][0].len() }
    }

    /// The width of one mip level.
    pub fn level_extent(&self, level: usize) -> (e: Extent1d)
        requires
            self.wf(),
            level < self.num_levels(),
        ensures
            e.x == level_width(self.base_extent(), level as int),
    {
        proof {
            assert(self.layer_count_at(level as int) == self.num_layers());
            assert(self.width_at(level as int, 0) == level_width(self.base_extent(), level as int));
        }
        Extent1d { x: self.data[level][0].len() }
    }

    /// Reads the texel at an exact address.
    pub fn texel(&self, level: usize, layer: usize, x: usize) -> (t: Texel)
        requires
            self.wf(),
            self.in_bounds(level as int, layer as int, x as int),
        ensures
            t == self.texel_at(level as int, layer as int, x as int),
    {
        proof {
            assert(self.layer_count_at(level as int) == self.num_layers());
            assert(self.width_at(level as int, layer as int)
                == level_width(self.base_extent(), level as int));
        }
        self.data[level][layer][x]
    }

    /// Overwrites the texel at an exact address, touching nothing else.
    pub fn set_texel(&mut self, level: usize, layer: usize, x: usize, texel: Texel)
        requires
            old(self).wf(),
            old(self).in_bounds(level as int, layer as int, x as int),
        ensures
            written(*old(self), *final(self), level as int, layer as int, x as int, texel),
    {
        proof {
            assert(old(self).layer_count_at(level as int) == old(self).num_layers());
            assert(old(self).width_at(level as int, layer as int)
                == level_width(old(self).base_extent(), level as int));
        }
        self.data[level][layer][x] = texel;
        proof {
            assert forall|l: int, y: int, xx: int|
                old(self).in_bounds(l, y, xx) && !(l == level && y == layer && xx == x)
                    implies #[trigger] self.texel_at(l, y, xx) == old(self).texel_at(l, y, xx)
            by {
                assert(old(self).layer_count_at(l) == old(self).num_layers());
                assert(old(self).width_at(l, y) == level_width(old(self).base_extent(), l));
            }
            assert forall|l: int| 0 <= l < self.num_levels()
                implies #[trigger] self.layer_count_at(l) == self.num_layers()
            by {
                assert(old(self).layer_count_at(l) == old(self).num_layers());
            }
            assert forall|l: int, y: int|
                0 <= l < self.num_levels() && 0 <= y < self.num_layers()
                    implies #[trigger] self.width_at(l, y)
                        == level_width(self.base_extent(), l)
            by {
                assert(old(self).width_at(l, y) == level_width(old(self).base_extent(), l));
            }
        }
    }

    /// Overwrites one row of one level with a uniform texel.
    fn fill_row(&mut self, level: usize, layer: usize, c: Texel)
        requires
            old(self).wf(),
            level < old(self).num_levels(),
            layer < old(self).num_layers(),
        ensures
            final(self).wf(),
            final(self).shape() == old(self).shape(),
            forall|x: int|
                0 <= x < level_width(old(self).base_extent(), level as int)
                    ==> #[trigger] final(self).texel_at(level as int, layer as int, x) == c,
            forall|l: int, y: int, xx: int|
                old(self).in_bounds(l, y, xx) && !(l == level && y == layer)
                    ==> #[trigger] final(self).texel_at(l, y, xx)
                        == old(self).texel_at(l, y, xx),
    {
        let w: usize = self.level_extent(level).x;
        let mut x: usize = 0;
        while x < w
            invariant
                self.wf(),
                self.shape() == old(self).shape(),
                level < self.num_levels(),
                layer < self.num_layers(),
                x <= w,
                w == level_width(old(self).base_extent(), level as int),
                forall|xx: int|
                    0 <= xx < x
                        ==> #[trigger] self.texel_at(level as int, layer as int, xx) == c,
                forall|l: int, y: int, xx: int|
                    old(self).in_bounds(l, y, xx) && !(l == level && y == layer && xx < x)
                        ==> #[trigger] self.texel_at(l, y, xx) == old(self).texel_at(l, y, xx),
            decreases w - x,
        {
            self.set_texel(level, layer, x, c);
            x = x + 1;
        }
    }

    /// Overwrites every texel of every level and layer with a uniform
    /// texel, as a sampler's clear operation asks.
    pub fn fill(&mut self, c: Texel)
        requires
            old(self).wf(),
        ensures
            cleared(*old(self), *final(self), c),
    {
        let levels: usize = self.levels();
        let layers: usize = self.layers();
        let mut l: usize = 0;
        while l < levels
            invariant
                self.wf(),
                self.shape() == old(self).shape(),
                levels == self.num_levels(),
                layers == self.num_layers(),
                l <= levels,
                forall|ll: int, y: int, x: int|
                    self.in_bounds(ll, y, x) && ll < l
                        ==> #[trigger] self.texel_at(ll, y, x) == c,
            decreases levels - l,
        {
            let mut y: usize = 0;
            while y < layers
                invariant
                    self.wf(),
                    self.shape() == old(self).shape(),
                    levels == self.num_levels(),
                    layers == self.num_layers(),
                    l < levels,
                    y <= layers,
                    forall|ll: int, yy: int, x: int|
                        self.in_bounds(ll, yy, x) && (ll < l || (ll == l && yy < y))
                            ==> #[trigger] self.texel_at(ll, yy, x) == c,
                decreases layers - y,
            {
                self.fill_row(l, y, c);
                y = y + 1;
            }
            l = l + 1;
        }
    }

    /// Rewrites one row of one level with the point-sampled reduction of
    /// the level above it: each texel takes the value at twice its
    /// coordinate, one level up.
    fn reduce_row(&mut self, level: usize, layer: usize)
        requires
            old(self).wf(),
            1 <= level < old(self).num_levels(),
            layer < old(self).num_layers(),
        ensures
            final(self).wf(),
            final(self).shape() == old(self).shape(),
            forall|x: int|
                0 <= x < level_width(old(self).base_extent(), level as int)
                    ==> #[trigger] final(self).texel_at(level as int, layer as int, x)
                        == old(self).texel_at(level as int - 1, layer as int, 2 * x),
            forall|l: int, y: int, xx: int|
                old(self).in_bounds(l, y, xx) && !(l == level && y == layer)
                    ==> #[trigger] final(self).texel_at(l, y, xx)
                        == old(self).texel_at(l, y, xx),
    {
        let w: usize = self.level_extent(level).x;
        let mut x: usize = 0;
        while x < w
            invariant
                self.wf(),
                self.shape() == old(self).shape(),
                1 <= level < self.num_levels(),
                layer < self.num_layers(),
                x <= w,
                w == level_width(old(self).base_extent(), level as int),
                forall|xx: int|
                    0 <= xx < x
                        ==> #[trigger] self.texel_at(level as int, layer as int, xx)
                            == old(self).texel_at(level as int - 1, layer as int, 2 * xx),
                forall|l: int, y: int, xx: int|
                    old(self).in_bounds(l, y, xx) && !(l == level && y == layer && xx < x)
                        ==> #[trigger] self.texel_at(l, y, xx) == old(self).texel_at(l, y, xx),
            decreases w - x,
        {
            proof {
                lemma_doubled_coord(old(self).base_extent(), level as int, x as int);
                lemma_level_width_bounds(old(self).base_extent(), level as int - 1);
            }
            let v: Texel = self.texel(level - 1, layer, 2 * x);
            self.set_texel(level, layer, x, v);
            x = x + 1;
        }
    }

    /// Rewrites the named layer range of one level with the point-sampled
    /// reduction of the level above it.
    fn reduce_level(&mut self, level: usize, base_layer: usize, max_layer: usize)
        requires
            old(self).wf(),
            1 <= level < old(self).num_levels(),
            base_layer <= max_layer < old(self).num_layers(),
        ensures
            final(self).wf(),
            final(self).shape() == old(self).shape(),
            forall|y: int, x: int|
                base_layer <= y <= max_layer
                    && 0 <= x < level_width(old(self).base_extent(), level as int)
                    ==> #[trigger] final(self).texel_at(level as int, y, x)
                        == old(self).texel_at(level as int - 1, y, 2 * x),
            forall|l: int, y: int, xx: int|
                old(self).in_bounds(l, y, xx)
                    && !(l == level && base_layer <= y <= max_layer)
                    ==> #[trigger] final(self).texel_at(l, y, xx)
                        == old(self).texel_at(l, y, xx),
    {
        let layers: usize = self.layers();
        let mut y: usize = base_layer;
        while y <= max_layer
            invariant
                self.wf(),
                self.shape() == old(self).shape(),
                1 <= level < self.num_levels(),
                base_layer <= y,
                y <= max_layer + 1,
                max_layer < layers,
                layers == self.num_layers(),
                forall|yy: int, x: int|
                    base_layer <= yy < y
                        && 0 <= x < level_width(old(self).base_extent(), level as int)
                        ==> #[trigger] self.texel_at(level as int, yy, x)
                            == old(self).texel_at(level as int - 1, yy, 2 * x),
                forall|l: int, yy: int, xx: int|
                    old(self).in_bounds(l, yy, xx)
                        && !(l == level && base_layer <= yy < y)
                        ==> #[trigger] self.texel_at(l, yy, xx)
                            == old(self).texel_at(l, yy, xx),
            decreases max_layer + 1 - y,
        {
            self.reduce_row(level, y);
            y = y + 1;
        }
    }

    /// Regenerates the mip chain over an explicit layer and level
    /// sub-range: each level of the range, from the one just above
    /// `base_level` down to `max_level`, is rewritten row by row with the
    /// point-sampled reduction of the level above it, and no texel outside
    /// the range is touched.
    pub fn regenerate(
        &mut self,
        base_layer: usize,
        max_layer: usize,
        base_level: usize,
        max_level: usize,
    )
        requires
            old(self).wf(),
            base_layer <= max_layer < old(self).num_layers(),
            base_level <= max_level < old(self).num_levels(),
        ensures
            mip_reduced(
                *old(self),
                *final(self),
                base_layer as int,
                max_layer as int,
                base_level as int,
                max_level as int,
            ),
    {
        let levels: usize = self.levels();
        let mut l: usize = base_level + 1;
        while l <= max_level
            invariant
                self.wf(),
                self.shape() == old(self).shape(),
                base_level < l,
                l <= max_level + 1,
                base_layer <= max_layer < self.num_layers(),
                max_level < levels,
                levels == self.num_levels(),
                forall|ll: int, y: int, x: int|
                    old(self).in_bounds(ll, y, x)
                        && !(base_level < ll < l && base_layer <= y <= max_layer)
                        ==> #[trigger] self.texel_at(ll, y, x) == old(self).texel_at(ll, y, x),
                forall|ll: int, y: int, x: int|
                    old(self).in_bounds(ll, y, x)
                        && base_level < ll < l && base_layer <= y <= max_layer
                        ==> #[trigger] self.texel_at(ll, y, x)
                            == self.texel_at(ll - 1, y, 2 * x),
            decreases max_level + 1 - l,
        {
            let ghost before = *self;
            self.reduce_level(l, base_layer, max_layer);
            proof {
                assert forall|ll: int, y: int, x: int|
                    old(self).in_bounds(ll, y, x)
                        && base_level < ll < l + 1 && base_layer <= y <= max_layer
                        implies #[trigger] self.texel_at(ll, y, x)
                            == self.texel_at(ll - 1, y, 2 * x)
                by {
                    lemma_doubled_coord(old(self).base_extent(), ll, x);
                    if ll < l {
                        assert(self.texel_at(ll, y, x) == before.texel_at(ll, y, x));
                        assert(self.texel_at(ll - 1, y, 2 * x)
                            == before.texel_at(ll - 1, y, 2 * x));
                    } else {
                        assert(self.texel_at(ll, y, x) == before.texel_at(ll - 1, y, 2 * x));
                        assert(self.texel_at(ll - 1, y, 2 * x)
                            == before.texel_at(ll - 1, y, 2 * x));
                    }
                }
            }
            l = l + 1;
        }
    }
}

} // verus!
