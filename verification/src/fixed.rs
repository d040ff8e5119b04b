//! 16.16 fixed-point arithmetic.
//!
//! A fixed-point value `v` stands for the rational number `v / 65536`.
//! Intermediate results are computed in `i128`, so that no operation here
//! can overflow on any input.

use vstd::prelude::*;

verus! {

/// The fixed-point representation of 1.
pub const ONE: i64 = 65536;

/// The fixed-point value that stands for the whole number `n`.
pub open spec fn whole(n: int) -> int {
    n * 65536
}

/// The pixel a fixed-point coordinate falls on: the integer part for
/// non-negative values, 0 for negative ones, saturating at `u32::MAX`.
pub open spec fn pixel_of(v: int) -> int {
    if v < 0 {
        0
    } else if v / 65536 > u32::MAX as int {
        u32::MAX as int
    } else {
        v / 65536
    }
}

/// The distance between two numbers.
pub open spec fn distance(a: int, b: int) -> int {
    if a >= b {
        a - b
    } else {
        b - a
    }
}

/// Division rounding toward negative infinity.
pub fn floor_div(a: i128, b: i128) -> (r: i128)
    requires
        b > 0,
    ensures
        r == a as int / b as int,
{
    if a >= 0 {
        a / b
    } else {
        let m: i128 = -(a + 1);
        let q: i128 = m / b;
        assert(q == m as int / b as int);
        assert(a as int / b as int == -(m as int / b as int) - 1) by (nonlinear_arith)
            requires
                b > 0,
                m == -(a + 1),
                m >= 0,
        {
            let q0 = m as int / b as int;
            let r0 = m as int % b as int;
            assert(m as int == b as int * q0 + r0);
            assert(0 <= r0 < b);
            assert(a as int == b as int * (-q0 - 1) + (b as int - 1 - r0));
            assert(0 <= b as int - 1 - r0 < b);
            vstd::arithmetic::div_mod::lemma_fundamental_div_mod_converse(
                a as int,
                b as int,
                -q0 - 1,
                b as int - 1 - r0,
            );
        }
        -q - 1
    }
}

/// The pixel that the fixed-point coordinate `v` falls on.
pub fn to_pixel(v: i128) -> (r: u32)
    ensures
        r == pixel_of(v as int),
{
    if v < 0 {
        0
    } else {
        let q: i128 = v / 65536;
        if q > 0xffff_ffff {
            0xffff_ffff
        } else {
            q as u32
        }
    }
}

/// `n` is the integer square root of `v`.
pub open spec fn is_sqrt(v: int, n: int) -> bool {
    n >= 0 && n * n <= v < (n + 1) * (n + 1)
}


/// Division rounding toward zero.
pub open spec fn trunc_div(a: int, d: int) -> int {
    if a >= 0 {
        a / d
    } else {
        -((-a) / d)
    }
}

/// Division rounding toward zero.
pub fn div_toward_zero(a: i128, d: i128) -> (r: i128)
    requires
        d > 0,
        a > i128::MIN,
    ensures
        r == trunc_div(a as int, d as int),
{
    if a >= 0 {
        a / d
    } else {
        -((-a) / d)
    }
}

/// A quotient of non-negative numbers is at least another when the cross
/// products say so.
pub proof fn lemma_div_cross(n1: int, d1: int, n2: int, d2: int)
    requires
        d1 > 0,
        d2 > 0,
        n2 >= 0,
        n1 * d2 >= n2 * d1,
    ensures
        n1 / d1 >= n2 / d2,
{
    let q = n2 / d2;
    vstd::arithmetic::div_mod::lemma_fundamental_div_mod(n2, d2);
    assert(n2 >= d2 * q) by {
        vstd::arithmetic::div_mod::lemma_mod_bound(n2, d2);
    }
    assert(q >= 0) by {
        vstd::arithmetic::div_mod::lemma_div_pos_is_pos(n2, d2);
    }
    assert(n1 >= q * d1) by (nonlinear_arith)
        requires
            d1 > 0,
            d2 > 0,
            q >= 0,
            n2 >= d2 * q,
            n1 * d2 >= n2 * d1,
    ;
    vstd::arithmetic::div_mod::lemma_div_is_ordered(q * d1, n1, d1);
    vstd::arithmetic::div_mod::lemma_div_by_multiple(q, d1);
}


/// A product is bounded by the product of the bounds of its factors.
pub proof fn lemma_mul_bound(x: int, xb: int, y: int, yb: int)
    by (nonlinear_arith)
    requires
        -xb <= x <= xb,
        0 <= y <= yb,
    ensures
        -(xb * yb) <= x * y <= xb * yb,
{
}

/// The integer square root: the largest `r` with `r * r <= v`.
pub fn isqrt_wide(v: u128) -> (r: u64)
    ensures
        is_sqrt(v as int, r as int),
{
    let mut lo: u128 = 0;
    let mut hi: u128 = 0x1_0000_0000_0000_0000;
    assert(0x1_0000_0000_0000_0000int * 0x1_0000_0000_0000_0000int > u128::MAX as int);
    while hi - lo > 1
        invariant
            lo < hi <= 0x1_0000_0000_0000_0000,
            lo * lo <= v,
            hi * hi > v,
        decreases hi - lo,
    {
        let mid: u128 = lo + (hi - lo) / 2;
        assert(mid * mid <= 0xffff_ffff_ffff_ffff * 0xffff_ffff_ffff_ffff) by (nonlinear_arith)
            requires
                mid <= 0xffff_ffff_ffff_ffff,
        ;
        if mid * mid <= v {
            lo = mid;
        } else {
            hi = mid;
        }
    }
    assert(hi == lo + 1);
    lo as u64
}

/// A number has one integer square root.
pub proof fn lemma_sqrt_unique(v: int, a: int, b: int)
    by (nonlinear_arith)
    requires
        is_sqrt(v, a),
        is_sqrt(v, b),
    ensures
        a == b,
{
}

/// The integer square root of `v`.
pub open spec fn sqrt_of(v: int) -> int {
    choose|n: int| is_sqrt(v, n)
}

} // verus!
