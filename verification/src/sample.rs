//! Sampling an image between its pixels.
//!
//! Sample positions are in 16.16 fixed point. The bicubic sampler fits a
//! Catmull-Rom spline through four pixels in each direction; its arithmetic
//! is exact until the final rounding, so a flat image comes out flat.

use vstd::prelude::*;
use crate::color::{alpha, alpha_of, argb, blue, blue_of, green, green_of, pack, red, red_of};
use crate::fixed::{floor_div, lemma_mul_bound};

verus! {

/// The cube of 1 in fixed point.
pub open spec fn one_cubed() -> int {
    0x1_0000_0000_0000
}

/// The channel of a pixel: 0 for alpha, then red, green and blue.
pub open spec fn channel_of(p: u32, ch: int) -> int {
    if ch == 0 {
        alpha_of(p)
    } else if ch == 1 {
        red_of(p)
    } else if ch == 2 {
        green_of(p)
    } else {
        blue_of(p)
    }
}

/// A coordinate held to the image: not below 0, then not above `side - 1`.
pub open spec fn edge_clamped(v: int, side: int) -> int {
    let low = if v < 0 {
        0
    } else {
        v
    };
    if low > side - 1 {
        side - 1
    } else {
        low
    }
}

/// The pixel at `(px, py)` of a square image of the side given, with
/// coordinates held to the image's edges; 0 where the buffer has no such
/// pixel.
pub open spec fn texel(pixels: Seq<u32>, side: int, px: int, py: int) -> u32 {
    let idx = edge_clamped(py, side) * side + edge_clamped(px, side);
    if 0 <= edge_clamped(px, side) && 0 <= edge_clamped(py, side) && idx < pixels.len() {
        pixels[idx]
    } else {
        0
    }
}

/// The Catmull-Rom spline through four values at the fraction `t` between
/// the second and the third, times twice the cube of 1 in fixed point.
pub open spec fn hermite(a: int, b: int, c: int, d: int, t: int) -> int {
    (-a + 3 * b - 3 * c + d) * (t * t * t) + (2 * a - 5 * b + 4 * c - d) * (t * t) * 65536 + (-a
        + c) * t * 0x1_0000_0000 + 2 * b * one_cubed()
}

/// One row of the bicubic sample: the spline through four neighbouring
/// pixels of row `py` around column `x0`.
pub open spec fn sample_row(pixels: Seq<u32>, side: int, x0: int, py: int, fx: int, ch: int) -> int {
    hermite(
        channel_of(texel(pixels, side, x0 - 1, py), ch),
        channel_of(texel(pixels, side, x0, py), ch),
        channel_of(texel(pixels, side, x0 + 1, py), ch),
        channel_of(texel(pixels, side, x0 + 2, py), ch),
        fx,
    )
}

/// One channel of the bicubic sample at the fixed-point position
/// `(x, y)`: the spline through the four row splines, rounded down and held
/// to eight bits.
pub open spec fn sample_channel(pixels: Seq<u32>, side: int, x: int, y: int, ch: int) -> int {
    let x0 = x / 65536;
    let y0 = y / 65536;
    let fx = x % 65536;
    let fy = y % 65536;
    let v = hermite(
        sample_row(pixels, side, x0, y0 - 1, fx, ch),
        sample_row(pixels, side, x0, y0, fx, ch),
        sample_row(pixels, side, x0, y0 + 1, fx, ch),
        sample_row(pixels, side, x0, y0 + 2, fx, ch),
        fy,
    ) / (4 * one_cubed() * one_cubed());
    if v < 0 {
        0
    } else if v > 255 {
        255
    } else {
        v
    }
}

/// The bicubic sample of a square image at the fixed-point position `(x, y)`.
pub open spec fn bicubic(pixels: Seq<u32>, side: int, x: int, y: int) -> u32 {
    argb(
        sample_channel(pixels, side, x, y, 0),
        sample_channel(pixels, side, x, y, 1),
        sample_channel(pixels, side, x, y, 2),
        sample_channel(pixels, side, x, y, 3),
    )
}

/// The spline through four equal values is that value.
pub proof fn lemma_hermite_flat(v: int, t: int)
    ensures
        hermite(v, v, v, v, t) == 2 * v * one_cubed(),
{
    assert((-v + 3 * v - 3 * v + v) * (t * t * t) == 0) by (nonlinear_arith);
    assert((2 * v - 5 * v + 4 * v - v) * (t * t) * 65536 == 0) by (nonlinear_arith);
    assert((-v + v) * t * 0x1_0000_0000 == 0) by (nonlinear_arith);
}

/// Whether the image is complete and of one colour.
pub open spec fn is_flat(pixels: Seq<u32>, side: int, colour: u32) -> bool {
    &&& side > 0
    &&& pixels.len() >= side * side
    &&& forall|i: int| 0 <= i < pixels.len() ==> pixels[i] == colour
}

proof fn lemma_texel_flat(pixels: Seq<u32>, side: int, colour: u32, px: int, py: int)
    requires
        is_flat(pixels, side, colour),
    ensures
        texel(pixels, side, px, py) == colour,
{
    let cx = edge_clamped(px, side);
    let cy = edge_clamped(py, side);
    assert(0 <= cx <= side - 1);
    assert(0 <= cy <= side - 1);
    assert(0 <= cy * side + cx < side * side) by (nonlinear_arith)
        requires
            0 <= cx <= side - 1,
            0 <= cy <= side - 1,
    ;
}

/// A flat image comes out flat: the bicubic sample of a complete image of
/// one colour is that colour, at every position.
pub proof fn lemma_bicubic_flat(pixels: Seq<u32>, side: int, colour: u32, x: int, y: int)
    requires
        is_flat(pixels, side, colour),
    ensures
        bicubic(pixels, side, x, y) == colour,
{
    let x0 = x / 65536;
    let y0 = y / 65536;
    let fx = x % 65536;
    let fy = y % 65536;
    assert forall|ch: int| 0 <= ch <= 3 implies sample_channel(pixels, side, x, y, ch)
        == channel_of(colour, ch) by {
        let v = channel_of(colour, ch);
        assert forall|px: int, py: int| #[trigger]
            texel(pixels, side, px, py) == colour by {
            lemma_texel_flat(pixels, side, colour, px, py);
        }
        lemma_hermite_flat(v, fx);
        let r = 2 * v * one_cubed();
        assert(sample_row(pixels, side, x0, y0 - 1, fx, ch) == r);
        assert(sample_row(pixels, side, x0, y0, fx, ch) == r);
        assert(sample_row(pixels, side, x0, y0 + 1, fx, ch) == r);
        assert(sample_row(pixels, side, x0, y0 + 2, fx, ch) == r);
        lemma_hermite_flat(r, fy);
        let k = one_cubed();
        assert(2 * r * k == v * (4 * k * k)) by (nonlinear_arith)
            requires
                r == 2 * v * k,
        ;
        assert(4 * k * k > 0) by (nonlinear_arith)
            requires
                k > 0,
        ;
        vstd::arithmetic::div_mod::lemma_div_by_multiple(v, 4 * k * k);
        crate::color::lemma_argb_of_channels(colour);
    }
    crate::color::lemma_argb_of_channels(colour);
    assert(sample_channel(pixels, side, x, y, 0) == alpha_of(colour));
    assert(sample_channel(pixels, side, x, y, 1) == red_of(colour));
    assert(sample_channel(pixels, side, x, y, 2) == green_of(colour));
    assert(sample_channel(pixels, side, x, y, 3) == blue_of(colour));
}

proof fn lemma_hermite_bound(a: int, b: int, c: int, d: int, t: int, m: int)
    requires
        -m <= a <= m,
        -m <= b <= m,
        -m <= c <= m,
        -m <= d <= m,
        0 <= t < 65536,
    ensures
        -(24 * m * one_cubed()) <= hermite(a, b, c, d, t) <= 24 * m * one_cubed(),
        0 <= t * t <= 0x1_0000_0000,
        0 <= t * t * t <= 0x1_0000_0000_0000,
{
    assert(0 <= t * t <= 0x1_0000_0000 && 0 <= t * t * t <= 0x1_0000_0000_0000)
        by (nonlinear_arith)
        requires
            0 <= t < 65536,
    ;
    lemma_mul_bound(-a + 3 * b - 3 * c + d, 8 * m, t * t * t, 0x1_0000_0000_0000);
    lemma_mul_bound(2 * a - 5 * b + 4 * c - d, 12 * m, t * t, 0x1_0000_0000);
    lemma_mul_bound(-a + c, 2 * m, t, 65536);
}

fn hermite_of(a: i128, b: i128, c: i128, d: i128, t: i128, Ghost(m): Ghost<int>) -> (r: i128)
    requires
        -m <= a <= m,
        -m <= b <= m,
        -m <= c <= m,
        -m <= d <= m,
        0 <= m <= 0x2000_0000_0000_0000,
        0 <= t < 65536,
    ensures
        r == hermite(a as int, b as int, c as int, d as int, t as int),
        -(24 * m * one_cubed()) <= r <= 24 * m * one_cubed(),
{
    proof {
        lemma_hermite_bound(a as int, b as int, c as int, d as int, t as int, m);
        lemma_mul_bound(-a + 3 * b - 3 * c + d, 8 * m, t * t * t, 0x1_0000_0000_0000);
        lemma_mul_bound(2 * a - 5 * b + 4 * c - d, 12 * m, t * t, 0x1_0000_0000);
        lemma_mul_bound(-a + c, 2 * m, t as int, 65536);
    }
    let t2: i128 = t * t;
    let t3: i128 = t2 * t;
    let c3: i128 = -a + 3 * b - 3 * c + d;
    let c2: i128 = 2 * a - 5 * b + 4 * c - d;
    let c1: i128 = -a + c;
    c3 * t3 + c2 * t2 * 65536 + c1 * t * 0x1_0000_0000 + 2 * b * 0x1_0000_0000_0000
}

fn clamp_index(v: i64, side: usize) -> (r: Option<usize>)
    requires
        -0x4000_0000_0000_0000 <= v <= 0x4000_0000_0000_0000,
    ensures
        match r {
            Some(i) => i == edge_clamped(v as int, side as int),
            None => edge_clamped(v as int, side as int) < 0,
        },
{
    if side == 0 {
        return None;
    }
    if v < 0 {
        Some(0)
    } else if v as u64 > (side - 1) as u64 {
        Some(side - 1)
    } else {
        Some(v as usize)
    }
}

fn fetch(pixels: &[u32], side: usize, px: i64, py: i64) -> (p: u32)
    requires
        -0x4000_0000_0000_0000 <= px <= 0x4000_0000_0000_0000,
        -0x4000_0000_0000_0000 <= py <= 0x4000_0000_0000_0000,
    ensures
        p == texel(pixels@, side as int, px as int, py as int),
{
    match (clamp_index(px, side), clamp_index(py, side)) {
        (Some(cx), Some(cy)) => {
            assert(0 <= cy * side <= 0xffff_ffff_ffff_ffff * 0xffff_ffff_ffff_ffff)
                by (nonlinear_arith)
                requires
                    0 <= cy <= 0xffff_ffff_ffff_ffff,
                    0 <= side <= 0xffff_ffff_ffff_ffff,
            ;
            let idx: u128 = cy as u128 * side as u128 + cx as u128;
            if idx < pixels.len() as u128 {
                pixels[idx as usize]
            } else {
                0
            }
        },
        _ => 0,
    }
}

fn channel(p: u32, ch: u8) -> (r: i128)
    ensures
        r == channel_of(p, ch as int),
        0 <= r <= 255,
{
    if ch == 0 {
        alpha(p) as i128
    } else if ch == 1 {
        red(p) as i128
    } else if ch == 2 {
        green(p) as i128
    } else {
        blue(p) as i128
    }
}

fn row_of(pixels: &[u32], side: usize, x0: i64, py: i64, fx: i128, ch: u8) -> (r: i128)
    requires
        -0x2000_0000_0000_0000 <= x0 <= 0x2000_0000_0000_0000,
        -0x2000_0000_0000_0000 <= py <= 0x2000_0000_0000_0000,
        0 <= fx < 65536,
    ensures
        r == sample_row(pixels@, side as int, x0 as int, py as int, fx as int, ch as int),
        -(24 * 255 * one_cubed()) <= r <= 24 * 255 * one_cubed(),
{
    let a: i128 = channel(fetch(pixels, side, x0 - 1, py), ch);
    let b: i128 = channel(fetch(pixels, side, x0, py), ch);
    let c: i128 = channel(fetch(pixels, side, x0 + 1, py), ch);
    let d: i128 = channel(fetch(pixels, side, x0 + 2, py), ch);
    hermite_of(a, b, c, d, fx, Ghost(255))
}

fn channel_sample(pixels: &[u32], side: usize, x: i64, y: i64, ch: u8) -> (r: u32)
    ensures
        r == sample_channel(pixels@, side as int, x as int, y as int, ch as int),
        r <= 255,
{
    let x0: i64 = floor_div(x as i128, 65536) as i64;
    let y0: i64 = floor_div(y as i128, 65536) as i64;
    let fx: i128 = x as i128 - x0 as i128 * 65536;
    let fy: i128 = y as i128 - y0 as i128 * 65536;
    let r0: i128 = row_of(pixels, side, x0, y0 - 1, fx, ch);
    let r1: i128 = row_of(pixels, side, x0, y0, fx, ch);
    let r2: i128 = row_of(pixels, side, x0, y0 + 1, fx, ch);
    let r3: i128 = row_of(pixels, side, x0, y0 + 2, fx, ch);
    let v: i128 = hermite_of(r0, r1, r2, r3, fy, Ghost(24 * 255 * one_cubed()));
    let q: i128 = floor_div(v, 4 * 0x1_0000_0000_0000 * 0x1_0000_0000_0000);
    if q < 0 {
        0
    } else if q > 255 {
        255
    } else {
        q as u32
    }
}

/// Samples a square image of the side `src_w` at the fixed-point position
/// `(x, y)`, with bicubic reconstruction of each channel.
pub fn bicubic_sample(pixels: &[u32], src_w: usize, x: i64, y: i64) -> (p: u32)
    ensures
        p == bicubic(pixels@, src_w as int, x as int, y as int),
{
    let a: u32 = channel_sample(pixels, src_w, x, y, 0);
    let r: u32 = channel_sample(pixels, src_w, x, y, 1);
    let g: u32 = channel_sample(pixels, src_w, x, y, 2);
    let b: u32 = channel_sample(pixels, src_w, x, y, 3);
    pack(a, r, g, b)
}


/// The value between four corner values at the fractions `fx` across and
/// `fy` down, rounded down and held to eight bits.
pub open spec fn lerp2(c00: int, c10: int, c01: int, c11: int, fx: int, fy: int) -> int {
    let top = c00 * 65536 + (c10 - c00) * fx;
    let bottom = c01 * 65536 + (c11 - c01) * fx;
    let v = (top * 65536 + (bottom - top) * fy) / 0x1_0000_0000;
    if v < 0 {
        0
    } else if v > 255 {
        255
    } else {
        v
    }
}

/// The pixel between four corner pixels, channel by channel.
pub open spec fn bilinear_mix(p00: u32, p10: u32, p01: u32, p11: u32, fx: int, fy: int) -> u32 {
    argb(
        lerp2(alpha_of(p00), alpha_of(p10), alpha_of(p01), alpha_of(p11), fx, fy),
        lerp2(red_of(p00), red_of(p10), red_of(p01), red_of(p11), fx, fy),
        lerp2(green_of(p00), green_of(p10), green_of(p01), green_of(p11), fx, fy),
        lerp2(blue_of(p00), blue_of(p10), blue_of(p01), blue_of(p11), fx, fy),
    )
}

/// The pixel at `(px, py)` of a square image, 0 where the buffer has none.
pub open spec fn pixel_at(pixels: Seq<u32>, side: int, px: int, py: int) -> u32 {
    let idx = py * side + px;
    if 0 <= idx < pixels.len() {
        pixels[idx]
    } else {
        0
    }
}

/// The bilinear sample of a square image at the fixed-point position
/// `(x, y)`: the mix of the pixel there with its right and lower
/// neighbours, which at the last column and row are that column and row.
pub open spec fn bilinear(pixels: Seq<u32>, side: int, x: int, y: int) -> u32 {
    let x0 = x / 65536;
    let y0 = y / 65536;
    let x1 = if x0 + 1 > side - 1 {
        side - 1
    } else {
        x0 + 1
    };
    let y1 = if y0 + 1 > side - 1 {
        side - 1
    } else {
        y0 + 1
    };
    bilinear_mix(
        pixel_at(pixels, side, x0, y0),
        pixel_at(pixels, side, x1, y0),
        pixel_at(pixels, side, x0, y1),
        pixel_at(pixels, side, x1, y1),
        x % 65536,
        y % 65536,
    )
}

fn lerp_channel(c00: u32, c10: u32, c01: u32, c11: u32, fx: u32, fy: u32) -> (r: u32)
    requires
        c00 <= 255,
        c10 <= 255,
        c01 <= 255,
        c11 <= 255,
    ensures
        r == lerp2(c00 as int, c10 as int, c01 as int, c11 as int, fx as int, fy as int),
        r <= 255,
{
    proof {
        lemma_mul_bound(c10 - c00, 255, fx as int, 0xffff_ffff);
        lemma_mul_bound(c11 - c01, 255, fx as int, 0xffff_ffff);
    }
    let top: i128 = c00 as i128 * 65536 + (c10 as i128 - c00 as i128) * fx as i128;
    let bottom: i128 = c01 as i128 * 65536 + (c11 as i128 - c01 as i128) * fx as i128;
    proof {
        lemma_mul_bound(bottom - top, 0x200_0000_0000int, fy as int, 0xffff_ffff);
    }
    let v: i128 = floor_div(top * 65536 + (bottom - top) * fy as i128, 0x1_0000_0000);
    if v < 0 {
        0
    } else if v > 255 {
        255
    } else {
        v as u32
    }
}

/// Mixes four corner pixels at the fractions `fx` across and `fy` down,
/// both in 16.16 fixed point.
pub fn bilinear_blend(p00: u32, p10: u32, p01: u32, p11: u32, fx: u32, fy: u32) -> (p: u32)
    ensures
        p == bilinear_mix(p00, p10, p01, p11, fx as int, fy as int),
{
    let a: u32 = lerp_channel(alpha(p00), alpha(p10), alpha(p01), alpha(p11), fx, fy);
    let r: u32 = lerp_channel(red(p00), red(p10), red(p01), red(p11), fx, fy);
    let g: u32 = lerp_channel(green(p00), green(p10), green(p01), green(p11), fx, fy);
    let b: u32 = lerp_channel(blue(p00), blue(p10), blue(p01), blue(p11), fx, fy);
    pack(a, r, g, b)
}

fn pixel_or_zero(pixels: &[u32], side: usize, px: i128, py: i128) -> (p: u32)
    requires
        -1 <= px <= 0x2_0000_0000_0000,
        -1 <= py <= 0x2_0000_0000_0000,
    ensures
        p == pixel_at(pixels@, side as int, px as int, py as int),
{
    proof {
        lemma_mul_bound(py as int, 0x2_0000_0000_0000, side as int, 0xffff_ffff_ffff_ffff);
    }
    let idx: i128 = py * side as i128 + px;
    if idx >= 0 && idx < pixels.len() as i128 {
        pixels[idx as usize]
    } else {
        0
    }
}

/// Samples a square image of the side `src_w` at the fixed-point position
/// `(x, y)`, mixing the four pixels around it.
pub fn bilinear_sample(pixels: &[u32], src_w: usize, x: u64, y: u64) -> (p: u32)
    ensures
        p == bilinear(pixels@, src_w as int, x as int, y as int),
{
    let x0: i128 = (x / 65536) as i128;
    let y0: i128 = (y / 65536) as i128;
    let last: i128 = src_w as i128 - 1;
    let x1: i128 = if x0 + 1 > last {
        last
    } else {
        x0 + 1
    };
    let y1: i128 = if y0 + 1 > last {
        last
    } else {
        y0 + 1
    };
    let p00: u32 = pixel_or_zero(pixels, src_w, x0, y0);
    let p10: u32 = pixel_or_zero(pixels, src_w, x1, y0);
    let p01: u32 = pixel_or_zero(pixels, src_w, x0, y1);
    let p11: u32 = pixel_or_zero(pixels, src_w, x1, y1);
    bilinear_blend(p00, p10, p01, p11, (x % 65536) as u32, (y % 65536) as u32)
}

} // verus!
