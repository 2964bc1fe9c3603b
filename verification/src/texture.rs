//! The procedural texture generator: five fixed per-pixel rules and a
//! row-major buffer builder. Every rule is a pure function of the pixel
//! coordinates, so a texture is fully determined by its rule and size.

use vstd::prelude::*;

use crate::trig::{cos_milli_spec, sin_milli_spec, cos_milli, sin_milli};

verus! {

/// Largest texture side length.
pub const TEX_SIDE_MAX: u32 = 1024;

/// One RGBA8 pixel.
#[derive(Clone, Copy, Debug, PartialEq, Eq, Structural)]
pub struct Rgba {
    pub r: u8,
    pub g: u8,
    pub b: u8,
    pub a: u8,
}

/// The five fixed per-pixel rules.
#[derive(Clone, Copy, Debug, PartialEq, Eq, Structural)]
pub enum PatternRule {
    /// Checkerboard of two green tones in 16-pixel cells.
    Grass,
    /// Vertical sine-banded tan gradient.
    Wood,
    /// Pseudo-random grey speckle from a fixed integer hash.
    Stone,
    /// Sum-of-sines blue wave, translucent.
    Water,
    /// Sawtooth grey bands keyed by the column.
    Metal,
}

/// An immutable RGBA8 pixel buffer in row-major order.
pub struct Texture {
    pub width: u32,
    pub height: u32,
    pub data: Vec<u8>,
}

/// The fixed integer hash behind the stone speckle.
pub open spec fn stone_hash_spec(u: u32) -> u32 {
    let v = u.wrapping_mul(747796405).wrapping_add(2891336453);
    let v2 = v ^ (v >> 16);
    let v3 = v2.wrapping_mul(2246822519);
    v3 ^ (v3 >> 13)
}

/// The hash input for a stone pixel: the two coordinates spread by two
/// fixed odd constants and mixed.
pub open spec fn stone_seed_spec(x: u32, y: u32) -> u32 {
    x.wrapping_mul(374761393) ^ y.wrapping_mul(668265263)
}

/// The sine-band height of a wood column, in [0, 40].
pub open spec fn wood_band_spec(x: int) -> int {
    (sin_milli_spec(125 * x) + 1000) / 50
}

/// The wave height of a water pixel, in [0, 30].
pub open spec fn water_wave_spec(x: int, y: int) -> int {
    let s = sin_milli_spec((x * 10_000) / 128);
    let c = cos_milli_spec((y * 14_000) / 128);
    ((s + c + 2000) * 30) / 4000
}

/// The pixel each rule yields at (x, y); the same coordinates always
/// yield the same pixel.
#[verifier::opaque]
pub open spec fn pixel_spec(rule: PatternRule, x: int, y: int) -> Rgba {
    match rule {
        PatternRule::Grass => {
            if (x / 16) % 2 == (y / 16) % 2 {
                Rgba { r: 46, g: 140, b: 64, a: 255 }
            } else {
                Rgba { r: 38, g: 120, b: 56, a: 255 }
            }
        },
        PatternRule::Wood => {
            let t = wood_band_spec(x);
            Rgba {
                r: (110 + t) as u8,
                g: (72 + (t * 7) / 10) as u8,
                b: (45 + (t * 2) / 5) as u8,
                a: 255,
            }
        },
        PatternRule::Stone => {
            let h = stone_hash_spec(stone_seed_spec(x as u32, y as u32));
            let g = (120 + (h & 0xFF) / 6) as u8;
            Rgba { r: g, g: g, b: g, a: 255 }
        },
        PatternRule::Water => {
            let w = water_wave_spec(x, y);
            Rgba { r: 40, g: (120 + w) as u8, b: (200 + (w * 4) / 5) as u8, a: 160 }
        },
        PatternRule::Metal => {
            let v = (200 - (x % 8) * 4) as u8;
            Rgba { r: v, g: v, b: v, a: 255 }
        },
    }
}

/// Computes the pixel of one rule at (x, y).
pub fn pixel_at(rule: &PatternRule, x: u32, y: u32) -> (r: Rgba)
    requires
        x < TEX_SIDE_MAX,
        y < TEX_SIDE_MAX,
    ensures
        r == pixel_spec(*rule, x as int, y as int),
{
    proof {
        reveal(pixel_spec);
    }
    match rule {
        PatternRule::Grass => {
            if (x / 16) % 2 == (y / 16) % 2 {
                Rgba { r: 46, g: 140, b: 64, a: 255 }
            } else {
                Rgba { r: 38, g: 120, b: 56, a: 255 }
            }
        },
        PatternRule::Wood => {
            let s: i64 = sin_milli(125 * (x as i64));
            let t: i64 = (s + 1000) / 50;
            Rgba {
                r: (110 + t) as u8,
                g: (72 + (t * 7) / 10) as u8,
                b: (45 + (t * 2) / 5) as u8,
                a: 255,
            }
        },
        PatternRule::Stone => {
            let seed: u32 = x.wrapping_mul(374761393) ^ y.wrapping_mul(668265263);
            let v: u32 = seed.wrapping_mul(747796405).wrapping_add(2891336453);
            let v2: u32 = v ^ (v >> 16);
            let v3: u32 = v2.wrapping_mul(2246822519);
            let h: u32 = v3 ^ (v3 >> 13);
            let masked: u32 = h & 0xFF;
            proof {
                assert(masked <= 0xFF) by (bit_vector)
                    requires
                        masked == h & 0xFF,
                ;
            }
            let g: u8 = (120 + masked / 6) as u8;
            Rgba { r: g, g: g, b: g, a: 255 }
        },
        PatternRule::Water => {
            let s: i64 = sin_milli(((x as i64) * 10_000) / 128);
            let c: i64 = cos_milli(((y as i64) * 14_000) / 128);
            let w: i64 = ((s + c + 2000) * 30) / 4000;
            Rgba { r: 40, g: (120 + w) as u8, b: (200 + (w * 4) / 5) as u8, a: 160 }
        },
        PatternRule::Metal => {
            let v: u8 = (200 - (x % 8) * 4) as u8;
            Rgba { r: v, g: v, b: v, a: 255 }
        },
    }
}

/// The four bytes of the pixel at (x, y) stand at their row-major place
/// in the buffer.
pub open spec fn pixel_ok(data: Seq<u8>, rule: PatternRule, w: int, x: int, y: int) -> bool {
    let base = 4 * (y * w + x);
    &&& data[base] == pixel_spec(rule, x, y).r
    &&& data[base + 1] == pixel_spec(rule, x, y).g
    &&& data[base + 2] == pixel_spec(rule, x, y).b
    &&& data[base + 3] == pixel_spec(rule, x, y).a
}

/// A texture holds exactly its rule's pixels, row-major.
pub open spec fn texture_matches(t: Texture, rule: PatternRule, w: int, h: int) -> bool {
    &&& t.width == w
    &&& t.height == h
    &&& t.data@.len() == 4 * w * h
    &&& forall|x: int, y: int|
        0 <= x < w && 0 <= y < h ==> #[trigger] pixel_ok(t.data@, rule, w, x, y)
}

/// Builds the full pixel buffer of one rule in row-major order: rows
/// outer, columns inner, four bytes per pixel.
pub fn make_image(rule: PatternRule, width: u32, height: u32) -> (t: Texture)
    requires
        0 < width <= TEX_SIDE_MAX,
        0 < height <= TEX_SIDE_MAX,
    ensures
        texture_matches(t, rule, width as int, height as int),
{
    let mut data: Vec<u8> = Vec::new();
    let w = width as usize;
    let h = height as usize;
    let mut y: usize = 0;
    while y < h
        invariant
            w == width,
            h == height,
            width <= TEX_SIDE_MAX,
            height <= TEX_SIDE_MAX,
            0 <= y <= h,
            data@.len() == 4 * y * w,
            forall|xi: int, yi: int|
                0 <= xi < w && 0 <= yi < y ==> #[trigger] pixel_ok(data@, rule, w as int, xi, yi),
        decreases h - y,
    {
        let mut x: usize = 0;
        while x < w
            invariant
                w == width,
                h == height,
                width <= TEX_SIDE_MAX,
                height <= TEX_SIDE_MAX,
                0 <= y < h,
                0 <= x <= w,
                data@.len() == 4 * y * w + 4 * x,
                forall|xi: int, yi: int|
                    0 <= xi < w && 0 <= yi < y ==> #[trigger] pixel_ok(
                        data@,
                        rule,
                        w as int,
                        xi,
                        yi,
                    ),
                forall|xi: int|
                    0 <= xi < x ==> #[trigger] pixel_ok(data@, rule, w as int, xi, y as int),
            decreases w - x,
        {
            let px = pixel_at(&rule, x as u32, y as u32);
            let ghost pre = data@;
            data.push(px.r);
            data.push(px.g);
            data.push(px.b);
            data.push(px.a);
            proof {
                assert forall|xi: int, yi: int|
                    0 <= xi < w && 0 <= yi < y implies #[trigger] pixel_ok(
                    data@,
                    rule,
                    w as int,
                    xi,
                    yi,
                ) by {
                    assert(pixel_ok(pre, rule, w as int, xi, yi));
                    assert(0 <= 4 * (yi * w + xi) && 4 * (yi * w + xi) + 3 < pre.len() as int)
                        by (nonlinear_arith)
                        requires
                            0 <= xi < w,
                            0 <= yi < y,
                            pre.len() == 4 * (y as int) * w + 4 * (x as int),
                            0 <= x,
                    ;
                }
                assert forall|xi: int|
                    0 <= xi < x implies #[trigger] pixel_ok(data@, rule, w as int, xi, y as int) by {
                    assert(pixel_ok(pre, rule, w as int, xi, y as int));
                    assert(0 <= 4 * ((y as int) * w + xi) && 4 * ((y as int) * w + xi) + 3
                        < pre.len() as int) by (nonlinear_arith)
                        requires
                            0 <= xi < x,
                            pre.len() == 4 * (y as int) * w + 4 * (x as int),
                            0 <= y,
                            0 <= w,
                    ;
                }
                assert(4 * ((y as int) * w + (x as int)) == pre.len() as int) by (nonlinear_arith)
                    requires
                        pre.len() == 4 * (y as int) * w + 4 * (x as int),
                ;
                assert(data@[pre.len() as int] == px.r);
                assert(data@[pre.len() as int + 1] == px.g);
                assert(data@[pre.len() as int + 2] == px.b);
                assert(data@[pre.len() as int + 3] == px.a);
                assert(pixel_ok(data@, rule, w as int, x as int, y as int));
            }
            x = x + 1;
        }
        proof {
            assert(4 * ((y + 1) as int) * w == 4 * (y as int) * w + 4 * w) by (nonlinear_arith);
            assert forall|xi: int, yi: int|
                0 <= xi < w && 0 <= yi < y + 1 implies #[trigger] pixel_ok(
                data@,
                rule,
                w as int,
                xi,
                yi,
            ) by {
                if yi < y {
                    assert(pixel_ok(data@, rule, w as int, xi, yi));
                } else {
                    assert(pixel_ok(data@, rule, w as int, xi, y as int));
                }
            }
        }
        y = y + 1;
    }
    proof {
        assert(4 * (height as int) * (width as int) == 4 * (width as int) * (height as int))
            by (nonlinear_arith);
    }
    Texture { width, height, data }
}

} // verus!
