//! Packed ARGB pixels and the arithmetic on them.
//!
//! A pixel is a `u32` holding four channels of eight bits each: alpha in the
//! highest byte, then red, green and blue.

use vstd::prelude::*;

verus! {

/// The alpha channel of a packed pixel.
pub open spec fn alpha_of(p: u32) -> int {
    (p as int / 0x100_0000) % 256
}

/// The red channel of a packed pixel.
pub open spec fn red_of(p: u32) -> int {
    (p as int / 0x1_0000) % 256
}

/// The green channel of a packed pixel.
pub open spec fn green_of(p: u32) -> int {
    (p as int / 0x100) % 256
}

/// The blue channel of a packed pixel.
pub open spec fn blue_of(p: u32) -> int {
    p as int % 256
}

/// The pixel with the four channels given, each in `0..=255`.
pub open spec fn argb(a: int, r: int, g: int, b: int) -> u32 {
    (a * 0x100_0000 + r * 0x1_0000 + g * 0x100 + b) as u32
}

/// A value is a channel when it fits in eight bits.
pub open spec fn is_channel(c: int) -> bool {
    0 <= c <= 255
}

/// Packing and unpacking are inverse to each other.
pub proof fn lemma_channels_of_argb(a: int, r: int, g: int, b: int)
    requires
        is_channel(a),
        is_channel(r),
        is_channel(g),
        is_channel(b),
    ensures
        alpha_of(argb(a, r, g, b)) == a,
        red_of(argb(a, r, g, b)) == r,
        green_of(argb(a, r, g, b)) == g,
        blue_of(argb(a, r, g, b)) == b,
{
    let p = a * 0x100_0000 + r * 0x1_0000 + g * 0x100 + b;
    assert(0 <= p <= u32::MAX);
    vstd::arithmetic::div_mod::lemma_fundamental_div_mod_converse(
        p,
        0x100_0000,
        a,
        r * 0x1_0000 + g * 0x100 + b,
    );
    vstd::arithmetic::div_mod::lemma_fundamental_div_mod_converse(
        p,
        0x1_0000,
        a * 0x100 + r,
        g * 0x100 + b,
    );
    vstd::arithmetic::div_mod::lemma_fundamental_div_mod_converse(
        p,
        0x100,
        a * 0x1_0000 + r * 0x100 + g,
        b,
    );
    vstd::arithmetic::div_mod::lemma_fundamental_div_mod_converse(a * 0x100 + r, 256, a, r);
    vstd::arithmetic::div_mod::lemma_fundamental_div_mod_converse(
        a * 0x1_0000 + r * 0x100 + g,
        256,
        a * 0x100 + r,
        g,
    );
    vstd::arithmetic::div_mod::lemma_small_mod(a as nat, 256);
}

/// Every pixel is the packing of its four channels.
pub proof fn lemma_argb_of_channels(p: u32)
    ensures
        argb(alpha_of(p), red_of(p), green_of(p), blue_of(p)) == p,
        is_channel(alpha_of(p)),
        is_channel(red_of(p)),
        is_channel(green_of(p)),
        is_channel(blue_of(p)),
{
}

/// The alpha channel of `p`.
pub fn alpha(p: u32) -> (r: u32)
    ensures
        r == alpha_of(p),
{
    (p / 0x100_0000) % 256
}

/// The red channel of `p`.
pub fn red(p: u32) -> (r: u32)
    ensures
        r == red_of(p),
{
    (p / 0x1_0000) % 256
}

/// The green channel of `p`.
pub fn green(p: u32) -> (r: u32)
    ensures
        r == green_of(p),
{
    (p / 0x100) % 256
}

/// The blue channel of `p`.
pub fn blue(p: u32) -> (r: u32)
    ensures
        r == blue_of(p),
{
    p % 256
}

/// Packs four channels into a pixel.
pub fn pack(a: u32, r: u32, g: u32, b: u32) -> (p: u32)
    requires
        a <= 255,
        r <= 255,
        g <= 255,
        b <= 255,
    ensures
        p == argb(a as int, r as int, g as int, b as int),
{
    a * 0x100_0000 + r * 0x1_0000 + g * 0x100 + b
}

/// The alpha of `src` laid over a destination of alpha `da`.
pub open spec fn over_alpha(sa: int, da: int) -> int {
    sa + da * (255 - sa) / 255
}

/// One colour channel of `src` laid over `dst`: the weighted mean of the
/// two, held to eight bits.
pub open spec fn over_channel(sc: int, dc: int, sa: int, da: int) -> int {
    let mixed = (sc * sa + dc * da * (255 - sa) / 255) / over_alpha(sa, da);
    if mixed > 255 {
        255
    } else {
        mixed
    }
}

/// Source-over compositing of `src` onto `dst`. A transparent source leaves
/// the destination as it is, an opaque source replaces it.
pub open spec fn blend_over(dst: u32, src: u32) -> u32 {
    let sa = alpha_of(src);
    let da = alpha_of(dst);
    if sa == 0 {
        dst
    } else if sa == 255 {
        src
    } else {
        argb(
            over_alpha(sa, da),
            over_channel(red_of(src), red_of(dst), sa, da),
            over_channel(green_of(src), green_of(dst), sa, da),
            over_channel(blue_of(src), blue_of(dst), sa, da),
        )
    }
}

proof fn lemma_over_alpha_bounds(sa: int, da: int)
    requires
        1 <= sa <= 255,
        0 <= da <= 255,
    ensures
        sa <= over_alpha(sa, da) <= 255,
{
    assert(0 <= da * (255 - sa) <= 255 * (255 - sa)) by (nonlinear_arith)
        requires
            1 <= sa <= 255,
            0 <= da <= 255,
    ;
}

fn blend_channel(sc: u32, dc: u32, sa: u32, da: u32) -> (r: u32)
    requires
        sc <= 255,
        dc <= 255,
        1 <= sa <= 255,
        da <= 255,
    ensures
        r == over_channel(sc as int, dc as int, sa as int, da as int),
        r <= 255,
{
    proof {
        lemma_over_alpha_bounds(sa as int, da as int);
        assert(sc * sa <= 255 * 255) by (nonlinear_arith)
            requires
                sc <= 255,
                sa <= 255,
        ;
        assert(0 <= dc * da <= 255 * 255) by (nonlinear_arith)
            requires
                dc <= 255,
                da <= 255,
        ;
        assert(0 <= (dc * da) * (255 - sa) <= 255 * 255 * 255) by (nonlinear_arith)
            requires
                0 <= dc * da <= 255 * 255,
                1 <= sa <= 255,
        ;
    }
    let out_a: u32 = sa + da * (255 - sa) / 255;
    let mixed: u32 = (sc * sa + dc * da * (255 - sa) / 255) / out_a;
    if mixed > 255 {
        255
    } else {
        mixed
    }
}

/// Composites `src` over `dst`.
pub fn alpha_blend(dst: u32, src: u32) -> (out: u32)
    ensures
        out == blend_over(dst, src),
{
    let sa: u32 = alpha(src);
    if sa == 0 {
        return dst;
    }
    if sa == 255 {
        return src;
    }
    let da: u32 = alpha(dst);
    proof {
        lemma_over_alpha_bounds(sa as int, da as int);
    }
    let out_a: u32 = sa + da * (255 - sa) / 255;
    let out_r: u32 = blend_channel(red(src), red(dst), sa, da);
    let out_g: u32 = blend_channel(green(src), green(dst), sa, da);
    let out_b: u32 = blend_channel(blue(src), blue(dst), sa, da);
    pack(out_a, out_r, out_g, out_b)
}

/// A colour channel made a fifth brighter, held to eight bits.
pub open spec fn brighter(c: int) -> int {
    if c * 120 / 100 > 255 {
        255
    } else {
        c * 120 / 100
    }
}

fn brighten_channel(c: u32) -> (r: u32)
    requires
        c <= 255,
    ensures
        r == brighter(c as int),
        r <= 255,
{
    let v: u32 = c * 120 / 100;
    if v > 255 {
        255
    } else {
        v
    }
}

/// Brightens the colour of a pixel by a fifth and keeps its alpha.
pub fn brighten_pixel(pixel: u32) -> (out: u32)
    ensures
        out == argb(
            alpha_of(pixel),
            brighter(red_of(pixel)),
            brighter(green_of(pixel)),
            brighter(blue_of(pixel)),
        ),
{
    let r: u32 = brighten_channel(red(pixel));
    let g: u32 = brighten_channel(green(pixel));
    let b: u32 = brighten_channel(blue(pixel));
    pack(alpha(pixel), r, g, b)
}

} // verus!
