use texsampler::extent::{Extent1d, Lod, NormalizeCoord1d};
use texsampler::sampler::{Filter, Wrap};
use texsampler::sampler1d_array::FSampler1DArray;
use texsampler::texel::Texel;
use texsampler::texture::Texture1DArray;

fn rgba(r: f32, g: f32, b: f32, a: f32) -> Texel {
    Texel { r: r.to_bits(), g: g.to_bits(), b: b.to_bits(), a: a.to_bits() }
}

fn coord(units: i64) -> NormalizeCoord1d {
    NormalizeCoord1d { units }
}

fn lod(units: i64) -> Lod {
    Lod { units }
}

fn mark(n: u32) -> Texel {
    Texel { r: n, g: n + 1, b: n + 2, a: n + 3 }
}

#[test]
fn clear_then_fetch_returns_clear_value() {
    let mut tex = Texture1DArray::new(Extent1d { x: 8 }, 2, 4);
    let mut s = FSampler1DArray::new(&tex, Wrap::ClampToEdge, Filter::Nearest, Filter::Nearest);
    let c = rgba(0.25, 0.5, 0.75, 1.0);
    s.clear(&mut tex, c);
    let widths = [8usize, 4, 2, 1];
    for level in 0..4usize {
        for layer in 0..2usize {
            for x in 0..widths[level] {
                assert_eq!(s.texel_fetch(&tex, Extent1d { x }, layer, level), c);
            }
        }
    }
}

#[test]
fn write_then_fetch_returns_written_value() {
    let mut tex = Texture1DArray::new(Extent1d { x: 8 }, 2, 4);
    let mut s = FSampler1DArray::new(&tex, Wrap::ClampToEdge, Filter::Nearest, Filter::Nearest);
    let c = rgba(0.0, 0.0, 0.0, 1.0);
    s.clear(&mut tex, c);
    let v = rgba(0.125, -2.5, 7.0, 0.5);
    s.texel_write(&mut tex, Extent1d { x: 3 }, 1, 0, v);
    assert_eq!(s.texel_fetch(&tex, Extent1d { x: 3 }, 1, 0), v);
    assert_eq!(s.texel_fetch(&tex, Extent1d { x: 2 }, 1, 0), c);
    assert_eq!(s.texel_fetch(&tex, Extent1d { x: 3 }, 0, 0), c);
}

#[test]
fn border_sample_outside_extent_returns_border_color() {
    let mut tex = Texture1DArray::new(Extent1d { x: 4 }, 2, 1);
    let mut s = FSampler1DArray::new(&tex, Wrap::ClampToBorder, Filter::Linear, Filter::Linear);
    let red = rgba(1.0, 0.0, 0.0, 1.0);
    let c = rgba(0.2, 0.4, 0.6, 0.8);
    s.set_border_color(red);
    s.clear(&mut tex, c);
    assert_eq!(s.texel_lod(&tex, coord(-1), 0, lod(0)), red);
    assert_eq!(s.texel_lod(&tex, coord(65537), 0, lod(0)), red);
    assert_eq!(s.texel_lod(&tex, coord(0), 5, lod(0)), red);
    assert_eq!(s.texel_lod(&tex, coord(0), 0, lod(0)), c);
}

#[test]
fn mipmap_range_preserves_outside() {
    let mut tex = Texture1DArray::new(Extent1d { x: 8 }, 2, 4);
    let mut s = FSampler1DArray::new(&tex, Wrap::ClampToEdge, Filter::Nearest, Filter::Nearest);
    let c0 = rgba(0.5, 0.5, 0.5, 1.0);
    s.clear(&mut tex, c0);
    let a = mark(10);
    let b = mark(20);
    let cc = mark(30);
    let d = mark(40);
    s.texel_write(&mut tex, Extent1d { x: 0 }, 0, 0, a);
    s.texel_write(&mut tex, Extent1d { x: 0 }, 1, 0, b);
    s.texel_write(&mut tex, Extent1d { x: 0 }, 0, 2, cc);
    s.texel_write(&mut tex, Extent1d { x: 1 }, 1, 1, d);
    s.texel_write(&mut tex, Extent1d { x: 2 }, 0, 1, mark(50));
    s.generate_mipmaps_detail(&mut tex, 0, 0, 0, 1, Filter::Nearest);
    // level 1, layer 0 was regenerated from level 0
    assert_eq!(s.texel_fetch(&tex, Extent1d { x: 0 }, 0, 1), a);
    assert_eq!(s.texel_fetch(&tex, Extent1d { x: 2 }, 0, 1), c0);
    // everything outside the layer/level sub-range kept its value
    assert_eq!(s.texel_fetch(&tex, Extent1d { x: 1 }, 1, 1), d);
    assert_eq!(s.texel_fetch(&tex, Extent1d { x: 0 }, 0, 2), cc);
    assert_eq!(s.texel_fetch(&tex, Extent1d { x: 0 }, 0, 0), a);
    assert_eq!(s.texel_fetch(&tex, Extent1d { x: 0 }, 1, 0), b);
    assert_eq!(s.texel_fetch(&tex, Extent1d { x: 0 }, 0, 3), c0);
    assert_eq!(s.texel_fetch(&tex, Extent1d { x: 0 }, 1, 3), c0);
}

#[test]
fn aliased_samplers_observe_clear_and_write() {
    let mut tex = Texture1DArray::new(Extent1d { x: 4 }, 1, 1);
    let mut s1 = FSampler1DArray::new(&tex, Wrap::Repeat, Filter::Nearest, Filter::Nearest);
    let mut s2 = FSampler1DArray::new(&tex, Wrap::ClampToBorder, Filter::Linear, Filter::Nearest);
    let c = rgba(0.1, 0.2, 0.3, 0.4);
    s1.clear(&mut tex, c);
    for x in 0..4usize {
        assert_eq!(s2.texel_fetch(&tex, Extent1d { x }, 0, 0), c);
    }
    let v = mark(7);
    s2.texel_write(&mut tex, Extent1d { x: 1 }, 0, 0, v);
    assert_eq!(s1.texel_fetch(&tex, Extent1d { x: 1 }, 0, 0), v);
    assert_eq!(s1.texel_fetch(&tex, Extent1d { x: 0 }, 0, 0), c);
}

#[test]
fn sampler_scenario_border_and_clear() {
    let mut tex = Texture1DArray::new(Extent1d { x: 8 }, 3, 2);
    let mut s = FSampler1DArray::new(&tex, Wrap::ClampToBorder, Filter::Linear, Filter::Linear);
    s.set_border_color(rgba(1.0, 0.0, 0.0, 1.0));
    s.clear(&mut tex, rgba(0.0, 0.0, 0.0, 1.0));
    let widths = [8usize, 4];
    for level in 0..2usize {
        for layer in 0..3usize {
            for x in 0..widths[level] {
                assert_eq!(
                    s.texel_fetch(&tex, Extent1d { x }, layer, level),
                    rgba(0.0, 0.0, 0.0, 1.0)
                );
            }
        }
    }
    assert_eq!(s.texel_lod(&tex, coord(32768), 9, lod(0)), rgba(1.0, 0.0, 0.0, 1.0));
}

#[test]
fn generate_mipmaps_chains_to_base() {
    let mut tex = Texture1DArray::new(Extent1d { x: 8 }, 1, 4);
    let mut s = FSampler1DArray::new(&tex, Wrap::ClampToEdge, Filter::Nearest, Filter::Nearest);
    for x in 0..8usize {
        s.texel_write(&mut tex, Extent1d { x }, 0, 0, mark(10 * x as u32));
    }
    s.generate_mipmaps(&mut tex, Filter::Nearest);
    for x in 0..4usize {
        assert_eq!(s.texel_fetch(&tex, Extent1d { x }, 0, 1), mark(10 * (2 * x) as u32));
    }
    for x in 0..2usize {
        assert_eq!(s.texel_fetch(&tex, Extent1d { x }, 0, 2), mark(10 * (4 * x) as u32));
    }
    assert_eq!(s.texel_fetch(&tex, Extent1d { x: 0 }, 0, 3), mark(0));
}

#[test]
fn default_border_is_opaque_black() {
    let tex = Texture1DArray::new(Extent1d { x: 4 }, 1, 1);
    let s = FSampler1DArray::new(&tex, Wrap::ClampToBorder, Filter::Nearest, Filter::Nearest);
    let got = s.texel_lod(&tex, coord(-1), 0, lod(0));
    assert_eq!(got, rgba(0.0, 0.0, 0.0, 1.0));
    assert_eq!(got, Texel { r: 0, g: 0, b: 0, a: 0x3F80_0000 });
}

#[test]
fn wrap_modes_fold_coordinates() {
    let mut tex = Texture1DArray::new(Extent1d { x: 4 }, 1, 1);
    let mut setup = FSampler1DArray::new(&tex, Wrap::ClampToEdge, Filter::Nearest, Filter::Nearest);
    for x in 0..4usize {
        setup.texel_write(&mut tex, Extent1d { x }, 0, 0, mark(x as u32));
    }
    let edge = FSampler1DArray::new(&tex, Wrap::ClampToEdge, Filter::Nearest, Filter::Nearest);
    assert_eq!(edge.texel_lod(&tex, coord(-100), 0, lod(0)), mark(0));
    assert_eq!(edge.texel_lod(&tex, coord(70000), 0, lod(0)), mark(3));
    let repeat = FSampler1DArray::new(&tex, Wrap::Repeat, Filter::Nearest, Filter::Nearest);
    assert_eq!(repeat.texel_lod(&tex, coord(65536 + 32768), 0, lod(0)), mark(2));
    assert_eq!(repeat.texel_lod(&tex, coord(-1), 0, lod(0)), mark(3));
    let mirror = FSampler1DArray::new(&tex, Wrap::MirrorRepeat, Filter::Nearest, Filter::Nearest);
    assert_eq!(mirror.texel_lod(&tex, coord(-16384), 0, lod(0)), mark(1));
    assert_eq!(mirror.texel_lod(&tex, coord(65536 + 200), 0, lod(0)), mark(3));
    let border = FSampler1DArray::new(&tex, Wrap::ClampToBorder, Filter::Nearest, Filter::Nearest);
    assert_eq!(border.texel_lod(&tex, coord(49152), 0, lod(0)), mark(3));
}

#[test]
fn lod_rounds_to_nearest_level() {
    let mut tex = Texture1DArray::new(Extent1d { x: 8 }, 1, 4);
    let mut s = FSampler1DArray::new(&tex, Wrap::ClampToEdge, Filter::Nearest, Filter::Nearest);
    for level in 0..4usize {
        s.texel_write(&mut tex, Extent1d { x: 0 }, 0, level, mark(100 * level as u32));
    }
    assert_eq!(s.texel_lod(&tex, coord(0), 0, lod(32768)), mark(100));
    assert_eq!(s.texel_lod(&tex, coord(0), 0, lod(32767)), mark(0));
    assert_eq!(s.texel_lod(&tex, coord(0), 0, lod(98304)), mark(200));
    assert_eq!(s.texel_lod(&tex, coord(0), 0, lod(655360)), mark(300));
    assert_eq!(s.texel_lod(&tex, coord(0), 0, lod(-65536)), mark(0));
}

#[test]
fn texture_new_is_zero_filled() {
    let tex = Texture1DArray::new(Extent1d { x: 4 }, 2, 3);
    let zero = Texel { r: 0, g: 0, b: 0, a: 0 };
    assert_eq!(tex.texel(0, 0, 0), zero);
    assert_eq!(tex.texel(0, 1, 3), zero);
    assert_eq!(tex.texel(1, 0, 1), zero);
    assert_eq!(tex.texel(2, 1, 0), zero);
    assert_eq!(tex.levels(), 3);
    assert_eq!(tex.layers(), 2);
    assert_eq!(tex.extent(), Extent1d { x: 4 });
    assert_eq!(tex.level_extent(2), Extent1d { x: 1 });
}

#[test]
fn texel_components_round_trip_exactly() {
    let mut tex = Texture1DArray::new(Extent1d { x: 2 }, 1, 1);
    let mut s = FSampler1DArray::new(&tex, Wrap::ClampToEdge, Filter::Nearest, Filter::Nearest);
    let odd = Texel {
        r: (1e-40f32).to_bits(),
        g: f32::NAN.to_bits(),
        b: (-0.0f32).to_bits(),
        a: f32::INFINITY.to_bits(),
    };
    s.texel_write(&mut tex, Extent1d { x: 1 }, 0, 0, odd);
    let back = s.texel_fetch(&tex, Extent1d { x: 1 }, 0, 0);
    assert_eq!(back, odd);
    assert_eq!(f32::from_bits(back.g).is_nan(), true);
    assert_eq!(f32::from_bits(back.b), -0.0f32);
}
