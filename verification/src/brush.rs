//! Brushes: the inks of the compositor as they are held while painting,
//! and the loop that paints a block with one.

use vstd::prelude::*;
use crate::color::{alpha, alpha_blend, blue, green, pack, red};
use crate::fixed::{is_sqrt, isqrt_wide, lemma_mul_bound, lemma_sqrt_unique, sqrt_of};
use crate::paint::{
    bar_alpha, corner_distance, coverage, dabbed, drawn, faded, glow_alpha, in_rounded_square,
    painted, reflection_rows, row_fade, sample_pos, shaded, tinted, Ink, Stroke, MAX_PEAK,
};
use crate::sample::{bicubic_sample, bilinear_sample};

verus! {

/// An ink, with the pixels of an image borrowed from where they are kept.
pub enum Brush<'a> {
    Icon { pixels: &'a [u32], src: u32, dst: u32, smooth: bool },
    Reflection { pixels: &'a [u32], src: u32, dst: u32, smooth: bool },
    Glow { radius: u32, rgb: (u8, u8, u8), peak: u32 },
    Dot { radius: u32, color: u32 },
    Placeholder { size: u32, color: u32 },
    Bar { width: u32, height: u32, rgb: (u8, u8, u8), alpha: u8, edge: u8 },
    Background { width: u32, height: u32, radius: u32, color: u32 },
}

impl<'a> View for Brush<'a> {
    type V = Ink;

    open spec fn view(&self) -> Ink {
        match *self {
            Brush::Icon { pixels, src, dst, smooth } => Ink::Icon {
                pixels: pixels@,
                src,
                dst,
                smooth,
            },
            Brush::Reflection { pixels, src, dst, smooth } => Ink::Reflection {
                pixels: pixels@,
                src,
                dst,
                smooth,
            },
            Brush::Glow { radius, rgb, peak } => Ink::Glow { radius, rgb, peak },
            Brush::Dot { radius, color } => Ink::Dot { radius, color },
            Brush::Placeholder { size, color } => Ink::Placeholder { size, color },
            Brush::Bar { width, height, rgb, alpha, edge } => Ink::Bar {
                width,
                height,
                rgb,
                alpha,
                edge,
            },
            Brush::Background { width, height, radius, color } => Ink::Background {
                width,
                height,
                radius,
                color,
            },
        }
    }
}

fn tint(a: u32, rgb: (u8, u8, u8)) -> (p: u32)
    requires
        a <= 255,
    ensures
        p == tinted(a as int, rgb),
{
    pack(a, rgb.0 as u32, rgb.1 as u32, rgb.2 as u32)
}

fn position(i: u64, src: u32, dst: u32) -> (r: u64)
    requires
        i < dst,
    ensures
        r == sample_pos(i as int, src as int, dst as int),
        r <= 0xffff_ffff * 65536,
{
    assert(0 <= i * src <= dst * src && dst * src <= 0xffff_ffff * 0xffff_ffff)
        by (nonlinear_arith)
        requires
            0 <= i < dst <= 0xffff_ffff,
            0 <= src <= 0xffff_ffff,
    ;
    let n: u128 = i as u128 * src as u128 * 65536;
    let q: u128 = n / dst as u128;
    assert(q <= src * 65536) by {
        assert(n <= (src * 65536) * dst) by (nonlinear_arith)
            requires
                n == i * src * 65536,
                0 <= i < dst,
                0 <= src,
        ;
        vstd::arithmetic::div_mod::lemma_div_is_ordered(
            n as int,
            (src * 65536) * dst,
            dst as int,
        );
        vstd::arithmetic::div_mod::lemma_div_by_multiple(src * 65536, dst as int);
    }
    q as u64
}

/// The root of a number that lies between two squares lies between their
/// roots.
proof fn lemma_sqrt_between(v: int, s: int, lo: int, hi: int)
    by (nonlinear_arith)
    requires
        is_sqrt(v, s),
        0 <= lo,
        0 <= hi,
        lo * lo <= v,
        v < hi * hi,
    ensures
        lo <= s < hi,
{
}

fn root_q8(d: u128) -> (s: u64)
    requires
        d <= 0x4_0000_0000_0000_0000,
    ensures
        s == sqrt_of(d * 65536),
        is_sqrt(d * 65536, s as int),
{
    let s: u64 = isqrt_wide(d * 65536);
    proof {
        let t = sqrt_of(d * 65536);
        assert(is_sqrt(d * 65536, t));
        lemma_sqrt_unique(d * 65536, s as int, t);
    }
    s
}

fn glow_strength(radius: u32, peak: u32, dx: i64, dy: i64) -> (a: u32)
    requires
        peak <= MAX_PEAK,
        -(radius as int) <= dx <= radius,
        -(radius as int) <= dy <= radius,
    ensures
        a == glow_alpha(radius as int, peak as int, dx as int, dy as int),
        a <= 255,
{
    if radius == 0 {
        return 0;
    }
    proof {
        lemma_mul_bound(dx as int, radius as int, if dx >= 0 {
            dx as int
        } else {
            -dx as int
        }, radius as int);
        lemma_mul_bound(dy as int, radius as int, if dy >= 0 {
            dy as int
        } else {
            -dy as int
        }, radius as int);
        assert(dx * dx >= 0 && dy * dy >= 0) by (nonlinear_arith);
        assert(dx * dx <= radius * radius && dy * dy <= radius * radius) by (nonlinear_arith)
            requires
                -(radius as int) <= dx <= radius,
                -(radius as int) <= dy <= radius,
        ;
        assert(radius * radius <= 0xffff_ffff * 0xffff_ffff) by (nonlinear_arith)
            requires
                radius <= 0xffff_ffff,
        ;
    }
    let d: u128 = (dx as i128 * dx as i128 + dy as i128 * dy as i128) as u128;
    let rr: u128 = radius as u128 * radius as u128;
    if d > rr {
        return 0;
    }
    let s: u64 = root_q8(d);
    let full: u128 = radius as u128 * 256;
    proof {
        assert(full * full == rr * 65536) by (nonlinear_arith)
            requires
                full == radius * 256,
                rr == radius * radius,
        ;
        assert((full + 1) * (full + 1) > full * full) by (nonlinear_arith)
            requires
                full >= 0,
        ;
        lemma_sqrt_between(d * 65536, s as int, 0, full as int + 1);
    }
    let left: u128 = full - s as u128;
    proof {
        assert(0 <= left * left <= full * full) by (nonlinear_arith)
            requires
                0 <= left <= full,
        ;
        assert(full * full <= 0xff_ffff_ff00 * 0xff_ffff_ff00) by (nonlinear_arith)
            requires
                0 <= full <= 0xff_ffff_ff00,
        ;
        assert(0 < full * full) by (nonlinear_arith)
            requires
                0 < full,
        ;
        lemma_mul_bound(peak as int, MAX_PEAK as int, (left * left) as int, (full * full) as int);
    }
    let n: u128 = peak as u128 * (left * left);
    let den: u128 = 65536 * (full * full);
    let a: u128 = n / den;
    proof {
        assert(n <= 255 * den);
        vstd::arithmetic::div_mod::lemma_div_is_ordered(n as int, 255 * den, den as int);
        vstd::arithmetic::div_mod::lemma_div_by_multiple(255, den as int);
    }
    a as u32
}

fn bar_strength(height: u32, peak: u8, edge: u8, r: u64) -> (a: u32)
    requires
        1 <= edge <= 50,
        r < height,
    ensures
        a == bar_alpha(height as int, peak as int, edge as int, r as int),
        a <= 255,
{
    let h: u64 = height as u64;
    let e: u64 = edge as u64;
    let p: u64 = peak as u64;
    assert(e * h <= 50 * 0xffff_ffff && e * h > 0 && 0 <= (100 - e) * h <= 99 * 0xffff_ffff)
        by (nonlinear_arith)
        requires
            1 <= e <= 50,
            0 < h <= 0xffff_ffff,
    ;
    assert(0 <= p * 100 * r <= 25500 * 0xffff_ffff && 0 <= p * 100 * (h - r) <= 25500
        * 0xffff_ffff) by (nonlinear_arith)
        requires
            0 <= p <= 255,
            0 <= r < h <= 0xffff_ffff,
    ;
    if r * 100 < e * h {
        let n: u64 = p * 100 * r;
        proof {
            assert(n <= p * (e * h)) by (nonlinear_arith)
                requires
                    n == p * 100 * r,
                    r * 100 < e * h,
                    0 <= p,
            ;
            vstd::arithmetic::div_mod::lemma_div_is_ordered(
                n as int,
                p * (e * h),
                (e * h) as int,
            );
            vstd::arithmetic::div_mod::lemma_div_by_multiple(p as int, (e * h) as int);
        }
        (n / (e * h)) as u32
    } else if r * 100 > (100 - e) * h {
        let n: u64 = p * 100 * (h - r);
        proof {
            assert(n <= p * (e * h)) by (nonlinear_arith)
                requires
                    n == p * 100 * (h - r),
                    r * 100 > (100 - e) * h,
                    0 <= p,
            ;
            vstd::arithmetic::div_mod::lemma_div_is_ordered(
                n as int,
                p * (e * h),
                (e * h) as int,
            );
            vstd::arithmetic::div_mod::lemma_div_by_multiple(p as int, (e * h) as int);
        }
        (n / (e * h)) as u32
    } else {
        peak as u32
    }
}

fn square_sum(a: i64, b: i64) -> (r: u128)
    requires
        -0x2_0000_0000 <= a <= 0x2_0000_0000,
        -0x2_0000_0000 <= b <= 0x2_0000_0000,
    ensures
        r == a * a + b * b,
        r <= 0x8_0000_0000_0000_0000,
{
    assert(0 <= a * a <= 0x2_0000_0000 * 0x2_0000_0000 && 0 <= b * b <= 0x2_0000_0000
        * 0x2_0000_0000) by (nonlinear_arith)
        requires
            -0x2_0000_0000 <= a <= 0x2_0000_0000,
            -0x2_0000_0000 <= b <= 0x2_0000_0000,
    ;
    (a as i128 * a as i128 + b as i128 * b as i128) as u128
}

fn inside_rounded(size: u32, c: u64, r: u64) -> (inside: bool)
    requires
        c < size,
        r < size,
    ensures
        inside == in_rounded_square(size as int, c as int, r as int),
{
    let s: i64 = size as i64;
    let rad: i64 = s / 6;
    let x: i64 = c as i64;
    let y: i64 = r as i64;
    let rr: u128 = square_sum(rad, 0);
    if x < rad && y < rad {
        square_sum(rad - x, rad - y) <= rr
    } else if x >= s - rad && y < rad {
        square_sum(x - (s - rad - 1), rad - y) <= rr
    } else if x < rad && y >= s - rad {
        square_sum(rad - x, y - (s - rad - 1)) <= rr
    } else if x >= s - rad && y >= s - rad {
        square_sum(x - (s - rad - 1), y - (s - rad - 1)) <= rr
    } else {
        true
    }
}

fn corner_of(w: u32, h: u32, radius: u32, c: u64, r: u64) -> (d: Option<u128>)
    requires
        c < w,
        r < h,
    ensures
        match d {
            Some(v) => corner_distance(w as int, h as int, radius as int, c as int, r as int)
                == Some(v as int) && v <= 0x8_0000_0000_0000_0000,
            None => corner_distance(w as int, h as int, radius as int, c as int, r as int)
                is None,
        },
{
    let rad: i64 = radius as i64;
    let x: i64 = c as i64;
    let y: i64 = r as i64;
    let right: i64 = w as i64 - rad;
    let low: i64 = h as i64 - rad;
    if x < rad && y < rad {
        Some(square_sum(rad - x, rad - y))
    } else if x >= right && y < rad {
        Some(square_sum(x - (right - 1), rad - y))
    } else if x < rad && y >= low {
        Some(square_sum(rad - x, y - (low - 1)))
    } else if x >= right && y >= low {
        Some(square_sum(x - (right - 1), y - (low - 1)))
    } else {
        None
    }
}

fn cover_of(radius: u32, d: Option<u128>) -> (cover: u32)
    requires
        d matches Some(v) ==> v <= 0x8_0000_0000_0000_0000,
    ensures
        cover == coverage(
            radius as int,
            match d {
                Some(v) => Some(v as int),
                None => None,
            },
        ),
        cover <= 256,
{
    match d {
        None => 256,
        Some(v) => {
            let rad: u128 = radius as u128;
            assert(rad * rad <= 0xffff_ffff * 0xffff_ffff && (rad + 1) * (rad + 1)
                <= 0x1_0000_0000 * 0x1_0000_0000) by (nonlinear_arith)
                requires
                    0 <= rad <= 0xffff_ffff,
            ;
            if v < rad * rad {
                256
            } else if v < (rad + 1) * (rad + 1) {
                let s: u64 = root_q8(v);
                proof {
                    assert((rad * 256) * (rad * 256) == rad * rad * 65536) by (nonlinear_arith);
                    assert(((rad + 1) * 256) * ((rad + 1) * 256) == (rad + 1) * (rad + 1) * 65536)
                        by (nonlinear_arith);
                    lemma_sqrt_between(
                        v * 65536,
                        s as int,
                        (rad * 256) as int,
                        ((rad + 1) * 256) as int,
                    );
                }
                ((rad + 1) * 256 - s as u128) as u32
            } else {
                0
            }
        },
    }
}

fn shade(base: u32, height: u32, r: u64) -> (v: u32)
    requires
        base <= 255,
        r < height,
    ensures
        v == shaded(base as int, height as int, r as int),
        v <= 255,
{
    let h: u128 = height as u128;
    let y: u128 = r as u128;
    let b: u128 = base as u128;
    let v: u128 = if y * 100 < 15 * h {
        proof {
            lemma_mul_bound(b as int, 255, (399 * h - 524 * y) as int, 399 * 0xffff_ffffint);
        }
        b * (399 * h - 524 * y) / (300 * h)
    } else {
        proof {
            lemma_mul_bound(b as int, 255, (27 * h - 2 * y) as int, 27 * 0xffff_ffffint);
        }
        b * (27 * h - 2 * y) / (25 * h)
    };
    if v > 255 {
        255
    } else {
        v as u32
    }
}

impl<'a> Brush<'a> {
    /// How many cells wide the block of the brush is.
    pub fn cols(&self) -> (n: u64)
        ensures
            n == self@.cols(),
            n <= 0x1_ffff_ffff,
    {
        match self {
            Brush::Icon { dst, .. } => *dst as u64,
            Brush::Reflection { dst, .. } => *dst as u64,
            Brush::Glow { radius, .. } => 2 * (*radius as u64) + 1,
            Brush::Dot { radius, .. } => 2 * (*radius as u64) + 1,
            Brush::Placeholder { size, .. } => *size as u64,
            Brush::Bar { width, .. } => *width as u64,
            Brush::Background { width, .. } => *width as u64,
        }
    }

    /// How many cells high the block of the brush is.
    pub fn rows(&self) -> (n: u64)
        ensures
            n == self@.rows(),
            n <= 0x1_ffff_ffff,
    {
        match self {
            Brush::Icon { dst, .. } => *dst as u64,
            Brush::Reflection { dst, .. } => (*dst as u64) * 35 / 100,
            Brush::Glow { radius, .. } => 2 * (*radius as u64) + 1,
            Brush::Dot { radius, .. } => 2 * (*radius as u64) + 1,
            Brush::Placeholder { size, .. } => *size as u64,
            Brush::Bar { height, .. } => *height as u64,
            Brush::Background { height, .. } => *height as u64,
        }
    }

    /// What the cell in column `c` and row `r` of the block does.
    pub fn stroke_at(&self, c: u64, r: u64) -> (stroke: Stroke)
        requires
            self@.wf(),
            c < self@.cols(),
            r < self@.rows(),
        ensures
            stroke == self@.stroke(c as int, r as int),
    {
        match self {
            Brush::Icon { pixels, src, dst, smooth } => icon_stroke(
                pixels,
                *src,
                *dst,
                *smooth,
                c,
                r,
            ),
            Brush::Reflection { pixels, src, dst, smooth } => reflection_stroke(
                pixels,
                *src,
                *dst,
                *smooth,
                c,
                r,
            ),
            Brush::Glow { radius, rgb, peak } => {
                let a: u32 = glow_strength(
                    *radius,
                    *peak,
                    c as i64 - *radius as i64,
                    r as i64 - *radius as i64,
                );
                if a > 0 {
                    Stroke::Over(tint(a, *rgb))
                } else {
                    Stroke::Skip
                }
            },
            Brush::Dot { radius, color } => {
                let d: u128 = square_sum(c as i64 - *radius as i64, r as i64 - *radius as i64);
                let rr: u128 = square_sum(*radius as i64, 0);
                if d <= rr {
                    Stroke::Put(*color)
                } else {
                    Stroke::Skip
                }
            },
            Brush::Placeholder { size, color } => {
                if inside_rounded(*size, c, r) {
                    Stroke::Over(*color)
                } else {
                    Stroke::Skip
                }
            },
            Brush::Bar { height, rgb, alpha, edge, .. } => Stroke::Over(
                tint(bar_strength(*height, *alpha, *edge, r), *rgb),
            ),
            Brush::Background { width, height, radius, color } => background_stroke(
                *width,
                *height,
                *radius,
                *color,
                c,
                r,
            ),
        }
    }
}

fn icon_stroke(pixels: &[u32], src: u32, dst: u32, smooth: bool, c: u64, r: u64) -> (stroke:
    Stroke)
    requires
        c < dst,
        r < dst,
    ensures
        stroke == (Ink::Icon { pixels: pixels@, src, dst, smooth }).stroke(c as int, r as int),
{
    let x: u64 = position(c, src, dst);
    let y: u64 = position(r, src, dst);
    if smooth {
        Stroke::Over(bicubic_sample(pixels, src as usize, x as i64, y as i64))
    } else {
        Stroke::Over(bilinear_sample(pixels, src as usize, x, y))
    }
}

fn fade(p: u32, row_alpha: u64) -> (out: u32)
    requires
        row_alpha <= 60,
    ensures
        out == faded(p, row_alpha as int),
{
    let sa: u64 = alpha(p) as u64;
    assert(sa * row_alpha <= 255 * 60) by (nonlinear_arith)
        requires
            sa <= 255,
            row_alpha <= 60,
    ;
    let a: u64 = sa * row_alpha / 255;
    let a: u64 = if a > row_alpha {
        row_alpha
    } else {
        a
    };
    pack(a as u32, red(p), green(p), blue(p))
}

fn fade_of_row(h: u64, r: u64) -> (row_alpha: u64)
    requires
        r < h <= 0xffff_ffff,
    ensures
        row_alpha == row_fade(h as int, r as int),
        row_alpha <= 60,
{
    let rest: u128 = (h - r) as u128;
    let whole: u128 = h as u128;
    assert(0 < rest * rest <= whole * whole && whole * whole <= 0xffff_ffff * 0xffff_ffff)
        by (nonlinear_arith)
        requires
            0 < rest <= whole <= 0xffff_ffff,
    ;
    proof {
        vstd::arithmetic::div_mod::lemma_div_is_ordered(
            60 * (rest * rest),
            60 * (whole * whole),
            (whole * whole) as int,
        );
        vstd::arithmetic::div_mod::lemma_div_by_multiple(60, (whole * whole) as int);
    }
    (60 * (rest * rest) / (whole * whole)) as u64
}

fn reflection_stroke(pixels: &[u32], src: u32, dst: u32, smooth: bool, c: u64, r: u64) -> (stroke:
    Stroke)
    requires
        c < dst,
        r < reflection_rows(dst as int),
    ensures
        stroke == (Ink::Reflection { pixels: pixels@, src, dst, smooth }).stroke(
            c as int,
            r as int,
        ),
{
    let h: u64 = (dst as u64) * 35 / 100;
    let x: u64 = position(c, src, dst);
    let y: u64 = position(dst as u64 - 1 - r, src, dst);
    let p: u32 = if smooth {
        bicubic_sample(pixels, src as usize, x as i64, y as i64)
    } else {
        bilinear_sample(pixels, src as usize, x, y)
    };
    Stroke::Over(fade(p, fade_of_row(h, r)))
}

fn background_stroke(width: u32, height: u32, radius: u32, color: u32, c: u64, r: u64) -> (stroke:
    Stroke)
    requires
        c < width,
        r < height,
    ensures
        stroke == (Ink::Background { width, height, radius, color }).stroke(c as int, r as int),
{
    let cover: u32 = cover_of(radius, corner_of(width, height, radius, c, r));
    if cover > 0 {
        let sa: u32 = alpha(color);
        assert(sa * cover <= 255 * 256) by (nonlinear_arith)
            requires
                sa <= 255,
                cover <= 256,
        ;
        let a: u32 = sa * cover / 256;
        Stroke::Put(
            pack(
                a,
                shade(red(color), height, r),
                shade(green(color), height, r),
                shade(blue(color), height, r),
            ),
        )
    } else {
        Stroke::Skip
    }
}

/// The furthest from the surface's corner that a block may begin.
pub const FAR: i128 = 0x10_0000_0000_0000_0000_0000_0000;

/// Applies a stroke to the pixel at `(px, py)` of the buffer.
pub fn dab(buffer: &mut [u32], buf_width: usize, px: i128, py: i128, stroke: Stroke)
    requires
        -2 * FAR <= px <= 2 * FAR,
        -2 * FAR <= py <= 2 * FAR,
    ensures
        final(buffer)@ == dabbed(old(buffer)@, buf_width as int, px as int, py as int, stroke),
{
    if px < 0 || py < 0 {
        return ;
    }
    let len: usize = buffer.len();
    if px > 0xffff_ffff_ffff_ffff {
        assert(py * buf_width >= 0) by (nonlinear_arith)
            requires
                py >= 0,
                buf_width >= 0,
        ;
        return ;
    }
    if buf_width > 0 && py > 0xffff_ffff_ffff_ffff {
        assert(py * buf_width >= py) by (nonlinear_arith)
            requires
                py >= 0,
                buf_width >= 1,
        ;
        return ;
    }
    let idx: u128 = if buf_width == 0 {
        assert(py * buf_width == 0) by (nonlinear_arith)
            requires
                buf_width == 0,
        ;
        px as u128
    } else {
        assert(0 <= py * buf_width <= 0xffff_ffff_ffff_ffff * 0xffff_ffff_ffff_ffff)
            by (nonlinear_arith)
            requires
                0 <= py <= 0xffff_ffff_ffff_ffff,
                0 <= buf_width <= 0xffff_ffff_ffff_ffff,
        ;
        py as u128 * buf_width as u128 + px as u128
    };
    if idx >= len as u128 {
        return ;
    }
    let i: usize = idx as usize;
    match stroke {
        Stroke::Skip => {},
        Stroke::Put(p) => {
            buffer[i] = p;
        },
        Stroke::Over(p) => {
            let under: u32 = buffer[i];
            buffer[i] = alpha_blend(under, p);
        },
    }
}

/// Paints the block of a brush into the buffer, with the block's upper
/// left cell on the pixel `(ox, oy)`.
pub fn fill_block(buffer: &mut [u32], buf_width: usize, ox: i128, oy: i128, brush: &Brush<'_>)
    requires
        brush@.wf(),
        -FAR <= ox <= FAR,
        -FAR <= oy <= FAR,
    ensures
        final(buffer)@ == drawn(old(buffer)@, buf_width as int, ox as int, oy as int, brush@),
        final(buffer)@.len() == old(buffer)@.len(),
{
    proof {
        crate::paint::lemma_drawn_len(
            old(buffer)@,
            buf_width as int,
            ox as int,
            oy as int,
            brush@,
        );
    }
    let cols: u64 = brush.cols();
    let rows: u64 = brush.rows();
    let ghost before = buffer@;
    let ghost ink = brush@;
    if cols == 0 {
        return ;
    }
    let mut r: u64 = 0;
    assert(0 * cols == 0) by (nonlinear_arith);
    while r < rows
        invariant
            r <= rows,
            0 < cols <= 0x1_ffff_ffff,
            rows <= 0x1_ffff_ffff,
            cols == ink.cols(),
            rows == ink.rows(),
            ink == brush@,
            ink.wf(),
            -FAR <= ox <= FAR,
            -FAR <= oy <= FAR,
            buffer@ == painted(before, buf_width as int, ox as int, oy as int, ink, r * cols),
        decreases rows - r,
    {
        let mut c: u64 = 0;
        while c < cols
            invariant
                r < rows,
                c <= cols,
                0 < cols <= 0x1_ffff_ffff,
                rows <= 0x1_ffff_ffff,
                cols == ink.cols(),
                rows == ink.rows(),
                ink == brush@,
                ink.wf(),
                -FAR <= ox <= FAR,
                -FAR <= oy <= FAR,
                buffer@ == painted(
                    before,
                    buf_width as int,
                    ox as int,
                    oy as int,
                    ink,
                    r * cols + c,
                ),
            decreases cols - c,
        {
            let stroke: Stroke = brush.stroke_at(c, r);
            proof {
                let k = r * cols + c;
                assert(k >= 0) by (nonlinear_arith)
                    requires
                        k == r * cols + c,
                        r >= 0,
                        cols >= 0,
                        c >= 0,
                ;
                assert(k == cols * r + c) by (nonlinear_arith)
                    requires
                        k == r * cols + c,
                ;
                vstd::arithmetic::div_mod::lemma_fundamental_div_mod_converse(
                    k,
                    cols as int,
                    r as int,
                    c as int,
                );
            }
            dab(buffer, buf_width, ox + c as i128, oy + r as i128, stroke);
            c += 1;
        }
        proof {
            assert(r * cols + cols == (r + 1) * cols) by (nonlinear_arith);
        }
        r += 1;
    }
    proof {
        assert(r * cols == ink.cols() * ink.rows()) by (nonlinear_arith)
            requires
                r == ink.rows(),
                cols == ink.cols(),
        ;
    }
}

} // verus!
