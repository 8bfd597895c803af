use vstd::prelude::*;
use crate::extent::{COORD_ONE, Extent1d, Lod, NormalizeCoord1d};
use crate::sampler::{
    Filter, Wrap, lod_level_index, lod_level_of, nearest_index, nearest_texel_index,
    wrap_coord_units, wrapped_units,
};
use crate::texel::{COMPONENT_ONE_BITS, Texel, default_border_color};
use crate::texture::{
    TexShape, Texture1DArray, cleared, lemma_level_width_bounds, level_width, mip_reduced,
    mip_region, written,
};

verus! {

/// A 1D-array texture sampler handle.
///
/// The handle binds a wrap mode, a mipmap filter, a minification filter and
/// a border color to the shape of one [`Texture1DArray`]; the texture itself
/// is borrowed per call, so any number of handles may address the same
/// texture and each observes the others' clears and writes. Mutating
/// operations ask for exclusive access to the handle; ordering mutations
/// against reads issued through other handles over the same texture is the
/// caller's obligation.
pub struct FSampler1DArray {
    wrap: Wrap,
    mip: Filter,
    min: Filter,
    border: Texel,
    shape: Ghost<TexShape>,
}

/// A sample access lands inside the texture's extent: the coordinate lies
/// in the normalized range and the layer names a stored row.
pub open spec fn sample_in_extent(t: Texture1DArray, coord: NormalizeCoord1d, layer: int) -> bool {
    &&& 0 <= coord.units <= COORD_ONE
    &&& 0 <= layer < t.num_layers()
}

/// What a filtered sample resolves to: under [`Wrap::ClampToBorder`], an
/// access outside the texture's extent yields the sampler's border color;
/// every other access folds the coordinate by the wrap mode, rounds the
/// level-of-detail value to the nearest mip level, clamps the layer, and
/// reads the nearest texel.
pub open spec fn sample_spec(
    s: FSampler1DArray,
    t: Texture1DArray,
    coord: NormalizeCoord1d,
    layer: int,
    lod: Lod,
) -> Texel {
    if s.wrap_mode() == Wrap::ClampToBorder && !sample_in_extent(t, coord, layer) {
        s.border_color()
    } else {
        let y = if layer < 0 {
            0
        } else if layer >= t.num_layers() {
            t.num_layers() - 1
        } else {
            layer
        };
        let l = lod_level_index(t.num_levels(), lod.units as int);
        let u = wrapped_units(s.wrap_mode(), coord.units as int);
        let x = nearest_index(u, level_width(t.base_extent(), l));
        t.texel_at(l, y, x)
    }
}

impl FSampler1DArray {
    /// The wrap mode the sampler was built with.
    pub closed spec fn wrap_mode(self) -> Wrap {
        self.wrap
    }

    /// The mipmap filter the sampler was built with.
    pub closed spec fn mip_filter(self) -> Filter {
        self.mip
    }

    /// The minification filter the sampler was built with.
    pub closed spec fn min_filter(self) -> Filter {
        self.min
    }

    /// The sampler's current border color.
    pub closed spec fn border_color(self) -> Texel {
        self.border
    }

    /// The shape of the texture the sampler was built over.
    pub closed spec fn bound_shape(self) -> TexShape {
        self.shape@
    }

    /// The sampler was built over a texture of this texture's shape, so the
    /// texture accepts every access the sampler issues.
    pub open spec fn binds(self, t: Texture1DArray) -> bool {
        t.shape() == self.bound_shape()
    }

    /// Builds a sampler over a texture: the given wrap mode and the two
    /// filter modes are recorded, and the border color starts at the
    /// default opaque black.
    pub fn new(texture: &Texture1DArray, wrap: Wrap, mip: Filter, min: Filter) -> (s:
        FSampler1DArray)
        requires
            texture.wf(),
        ensures
            s.wrap_mode() == wrap,
            s.mip_filter() == mip,
            s.min_filter() == min,
            s.border_color() == default_border_color(),
            s.binds(*texture),
    {
        FSampler1DArray {
            wrap,
            mip,
            min,
            border: Texel { r: 0, g: 0, b: 0, a: COMPONENT_ONE_BITS },
            shape: Ghost(texture.shape()),
        }
    }

    /// Replaces the border color returned for border-mode accesses outside
    /// the texture's extent; the rest of the configuration is untouched.
    pub fn set_border_color(&mut self, color: Texel)
        ensures
            final(self).border_color() == color,
            final(self).wrap_mode() == old(self).wrap_mode(),
            final(self).mip_filter() == old(self).mip_filter(),
            final(self).min_filter() == old(self).min_filter(),
            final(self).bound_shape() == old(self).bound_shape(),
    {
        self.border = color;
    }

    /// Overwrites every texel at every level and layer of the bound
    /// texture with one uniform value. The change is made to the shared
    /// storage: every other sampler over the same texture observes it.
    pub fn clear(&mut self, texture: &mut Texture1DArray, texel: Texel)
        requires
            old(texture).wf(),
            old(self).binds(*old(texture)),
        ensures
            *final(self) == *old(self),
            cleared(*old(texture), *final(texture), texel),
            final(self).binds(*final(texture)),
    {
        texture.fill(texel);
    }

    /// Regenerates the complete mip chain of the bound texture from its
    /// base level, every layer included. Each level takes the point-sampled
    /// reduction of the level above it; the filter argument names the
    /// requested policy, and blending texel values — floating-point
    /// arithmetic — is not performed by this library.
    pub fn generate_mipmaps(&mut self, texture: &mut Texture1DArray, minification: Filter)
        requires
            old(texture).wf(),
            old(self).binds(*old(texture)),
        ensures
            *final(self) == *old(self),
            mip_reduced(
                *old(texture),
                *final(texture),
                0,
                old(texture).num_layers() - 1,
                0,
                old(texture).num_levels() - 1,
            ),
            final(self).binds(*final(texture)),
    {
        let layers: usize = texture.layers();
        let levels: usize = texture.levels();
        texture.regenerate(0, layers - 1, 0, levels - 1);
    }

    /// Regenerates the mip chain of the bound texture over an explicit
    /// layer and level sub-range; texels outside the sub-range keep their
    /// values. As with [`Self::generate_mipmaps`], each regenerated level
    /// is the point-sampled reduction of the level above it.
    pub fn generate_mipmaps_detail(
        &mut self,
        texture: &mut Texture1DArray,
        base_layer: usize,
        max_layer: usize,
        base_level: usize,
        max_level: usize,
        minification: Filter,
    )
        requires
            old(texture).wf(),
            old(self).binds(*old(texture)),
            base_layer <= max_layer < old(texture).num_layers(),
            base_level <= max_level < old(texture).num_levels(),
        ensures
            *final(self) == *old(self),
            mip_reduced(
                *old(texture),
                *final(texture),
                base_layer as int,
                max_layer as int,
                base_level as int,
                max_level as int,
            ),
            final(self).binds(*final(texture)),
    {
        texture.regenerate(base_layer, max_layer, base_level, max_level);
    }

    /// Reads the texel at an exact integer address: no filtering, no wrap
    /// mode, no border substitution.
    pub fn texel_fetch(
        &self,
        texture: &Texture1DArray,
        texel_coord: Extent1d,
        layer: usize,
        level: usize,
    ) -> (t: Texel)
        requires
            texture.wf(),
            self.binds(*texture),
            texture.in_bounds(level as int, layer as int, texel_coord.x as int),
        ensures
            t == texture.texel_at(level as int, layer as int, texel_coord.x as int),
    {
        texture.texel(level, layer, texel_coord.x)
    }

    /// Writes the texel at an exact integer address, touching nothing
    /// else. The change is made to the shared storage: every other sampler
    /// over the same texture observes it.
    pub fn texel_write(
        &mut self,
        texture: &mut Texture1DArray,
        texel_coord: Extent1d,
        layer: usize,
        level: usize,
        texel: Texel,
    )
        requires
            old(texture).wf(),
            old(self).binds(*old(texture)),
            old(texture).in_bounds(level as int, layer as int, texel_coord.x as int),
        ensures
            *final(self) == *old(self),
            written(
                *old(texture),
                *final(texture),
                level as int,
                layer as int,
                texel_coord.x as int,
                texel,
            ),
            final(self).binds(*final(texture)),
    {
        texture.set_texel(level, layer, texel_coord.x, texel);
    }

    /// Samples the bound texture at a normalized coordinate and a
    /// level-of-detail value, resolving the access exactly as
    /// [`sample_spec`] states: border substitution outside the extent under
    /// [`Wrap::ClampToBorder`], and the nearest texel of the nearest mip
    /// level otherwise.
    pub fn texel_lod(
        &self,
        texture: &Texture1DArray,
        sample_coord: NormalizeCoord1d,
        layer: usize,
        level: Lod,
    ) -> (t: Texel)
        requires
            texture.wf(),
            self.binds(*texture),
        ensures
            t == sample_spec(*self, *texture, sample_coord, layer as int, level),
    {
        let layers: usize = texture.layers();
        let out_of_extent: bool = sample_coord.units < 0 || sample_coord.units > COORD_ONE
            || layer >= layers;
        if self.wrap == Wrap::ClampToBorder && out_of_extent {
            return self.border;
        }
        let y: usize = if layer >= layers {
            layers - 1
        } else {
            layer
        };
        let l: usize = lod_level_of(texture.levels(), level);
        let u: u64 = wrap_coord_units(self.wrap, sample_coord.units);
        let w: usize = texture.level_extent(l).x;
        proof {
            lemma_level_width_bounds(texture.base_extent(), l as int);
        }
        let x: usize = nearest_texel_index(u, w);
        texture.texel(l, y, x)
    }
}

/// After a uniform clear, a fetch at any in-range address returns the
/// cleared value: [`FSampler1DArray::clear`] leaves no texel behind, and
/// [`FSampler1DArray::texel_fetch`] returns exactly the stored texel.
pub proof fn lemma_fetch_after_clear(
    pre: Texture1DArray,
    post: Texture1DArray,
    c: Texel,
    level: int,
    layer: int,
    x: int,
)
    requires
        cleared(pre, post, c),
        post.in_bounds(level, layer, x),
    ensures
        post.texel_at(level, layer, x) == c,
{
}

/// Read-after-write consistency at exact integer addresses: a fetch at the
/// address a write just filled returns the written value, and a fetch at
/// any other in-range address returns what was there before.
pub proof fn lemma_fetch_after_write(
    pre: Texture1DArray,
    post: Texture1DArray,
    level: int,
    layer: int,
    x: int,
    c: Texel,
    l2: int,
    y2: int,
    x2: int,
)
    requires
        written(pre, post, level, layer, x, c),
        pre.in_bounds(l2, y2, x2),
    ensures
        post.texel_at(level, layer, x) == c,
        !(l2 == level && y2 == layer && x2 == x)
            ==> post.texel_at(l2, y2, x2) == pre.texel_at(l2, y2, x2),
{
}

/// Under [`Wrap::ClampToBorder`], a sample outside the texture's extent
/// returns the sampler's border color — in particular, the color a
/// preceding [`FSampler1DArray::set_border_color`] installed.
pub proof fn lemma_border_sample(
    s: FSampler1DArray,
    t: Texture1DArray,
    coord: NormalizeCoord1d,
    layer: int,
    lod: Lod,
)
    requires
        s.wrap_mode() == Wrap::ClampToBorder,
        !sample_in_extent(t, coord, layer),
    ensures
        sample_spec(s, t, coord, layer, lod) == s.border_color(),
{
}

/// A mipmap regeneration restricted to a sub-range does not alter texel
/// values outside that range: levels at or above the base of the range,
/// levels below its maximum, and layers outside its layer span all keep
/// whatever a clear or a write had put there.
pub proof fn lemma_mipmaps_range_preserves_outside(
    pre: Texture1DArray,
    post: Texture1DArray,
    base_layer: int,
    max_layer: int,
    base_level: int,
    max_level: int,
    level: int,
    layer: int,
    x: int,
)
    requires
        mip_reduced(pre, post, base_layer, max_layer, base_level, max_level),
        pre.in_bounds(level, layer, x),
        !mip_region(base_layer, max_layer, base_level, max_level, level, layer),
    ensures
        post.texel_at(level, layer, x) == pre.texel_at(level, layer, x),
{
}

/// Sampler handles share the texture's storage: when a clear is issued
/// through one of two independently constructed samplers over the same
/// texture, the other still binds the texture and fetches the cleared
/// value at every in-range address.
pub proof fn lemma_aliased_clear_observed(
    a: FSampler1DArray,
    b: FSampler1DArray,
    pre: Texture1DArray,
    post: Texture1DArray,
    c: Texel,
    level: int,
    layer: int,
    x: int,
)
    requires
        a.binds(pre),
        b.binds(pre),
        cleared(pre, post, c),
        post.in_bounds(level, layer, x),
    ensures
        b.binds(post),
        post.texel_at(level, layer, x) == c,
{
}

/// Sampler handles share the texture's storage: a texel write issued
/// through one of two independently constructed samplers over the same
/// texture is what the other fetches at the written address.
pub proof fn lemma_aliased_write_observed(
    a: FSampler1DArray,
    b: FSampler1DArray,
    pre: Texture1DArray,
    post: Texture1DArray,
    level: int,
    layer: int,
    x: int,
    c: Texel,
)
    requires
        a.binds(pre),
        b.binds(pre),
        written(pre, post, level, layer, x, c),
    ensures
        b.binds(post),
        post.texel_at(level, layer, x) == c,
{
}

} // verus!
