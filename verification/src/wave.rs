//! The magnification wave and the easing of animated values.
//!
//! Icons near the pointer grow. How much is set by a bell-shaped falloff of
//! the distance between pointer and icon: 1 at the pointer, one half at
//! half the radius, 0 at the radius and beyond, and never growing in
//! between. The bell follows the raised cosine `(1 + cos(pi t)) / 2`. To
//! stay in integer arithmetic it is computed with Bhaskara's rational
//! approximation of the cosine, `(1 - 4 t^2) / (1 + t^2)` for `t` up to one
//! half, mirrored beyond it.

use vstd::prelude::*;
use crate::fixed::{div_toward_zero, trunc_div, lemma_div_cross};

verus! {

/// The falloff at the share `t` of the radius, both in 16.16 fixed point,
/// for `t` from 0 to 1: `(2 - 3 t^2) / (2 + 2 t^2)` up to one half, and
/// `5 (1 - t)^2 / (2 + 2 (1 - t)^2)` beyond it.
pub open spec fn falloff(t: int) -> int {
    if 2 * t <= 65536 {
        (2 * 0x1_0000_0000 - 3 * (t * t)) * 65536 / (2 * (0x1_0000_0000 + t * t))
    } else {
        5 * ((65536 - t) * (65536 - t)) * 65536 / (2 * (0x1_0000_0000 + (65536 - t) * (65536
            - t)))
    }
}

/// The radius of the wave: three and a half icons, in fixed point.
pub open spec fn wave_radius(icon_size: int) -> int {
    icon_size * 7 * 32768
}

/// The scale that an icon at distance `dist` from the pointer grows to,
/// for a wave of the radius and the largest scale given.
pub open spec fn wave_target(dist: int, radius: int, max_scale: int) -> int {
    if dist < radius {
        65536 + trunc_div((max_scale - 65536) * falloff(dist * 65536 / radius), 65536)
    } else {
        65536
    }
}

/// A scale one step closer to its target: three tenths of the way, or the
/// target itself once it is within a thousandth.
pub open spec fn eased_scale(current: int, target: int) -> int {
    if scale_moving(current, target) {
        current + trunc_div((target - current) * 3, 10)
    } else {
        target
    }
}

/// Whether a scale is more than a thousandth away from its target.
pub open spec fn scale_moving(current: int, target: int) -> bool {
    target - current > 65 || current - target > 65
}

/// A position one step closer to its target: fifteen hundredths of the
/// way, or unchanged once it is within half a pixel.
pub open spec fn eased_position(current: int, target: int) -> int {
    if position_moving(current, target) {
        current + trunc_div((target - current) * 15, 100)
    } else {
        current
    }
}

/// Whether a position is more than half a pixel away from its target.
pub open spec fn position_moving(current: int, target: int) -> bool {
    target - current > 32768 || current - target > 32768
}

proof fn lemma_square_bounds(t: int, hi: int)
    by (nonlinear_arith)
    requires
        0 <= t <= hi,
    ensures
        0 <= t * t <= hi * hi,
{
}

/// The falloff stays between 0 and 1, is 1 at the pointer and 0 at the
/// radius, and is at least one half exactly up to half the radius.
pub proof fn lemma_falloff_bounds(t: int)
    requires
        0 <= t <= 65536,
    ensures
        0 <= falloff(t) <= 65536,
        2 * t <= 65536 ==> falloff(t) >= 32768,
        2 * t > 65536 ==> falloff(t) <= 32768,
        falloff(0) == 65536,
        falloff(65536) == 0,
{
    assert(falloff(0) == 65536) by {
        assert(0int * 0int == 0) by (nonlinear_arith);
        vstd::arithmetic::div_mod::lemma_div_by_multiple(65536, 0x2_0000_0000int);
        assert((2 * 0x1_0000_0000 - 3 * 0) * 65536 == 65536 * (2 * 0x1_0000_0000));
    }
    assert(falloff(65536) == 0) by {
        assert((65536 - 65536int) * (65536 - 65536int) == 0) by (nonlinear_arith);
    }
    if 2 * t <= 65536 {
        let a = t * t;
        lemma_square_bounds(t, 32768);
        let n = (2 * 0x1_0000_0000 - 3 * a) * 65536;
        let d = 2 * (0x1_0000_0000 + a);
        assert(n >= 32768 * d);
        assert(n <= 65536 * d);
        vstd::arithmetic::div_mod::lemma_div_is_ordered(32768 * d, n, d);
        vstd::arithmetic::div_mod::lemma_div_is_ordered(n, 65536 * d, d);
        vstd::arithmetic::div_mod::lemma_div_by_multiple(32768, d);
        vstd::arithmetic::div_mod::lemma_div_by_multiple(65536, d);
    } else {
        let u = 65536 - t;
        let a = u * u;
        lemma_square_bounds(u, 32767);
        let n = 5 * a * 65536;
        let d = 2 * (0x1_0000_0000 + a);
        assert(0 <= n <= 32768 * d);
        vstd::arithmetic::div_mod::lemma_div_is_ordered(n, 32768 * d, d);
        vstd::arithmetic::div_mod::lemma_div_by_multiple(32768, d);
        vstd::arithmetic::div_mod::lemma_div_pos_is_pos(n, d);
    }
}

/// The falloff never grows with the distance.
pub proof fn lemma_falloff_decreases(t1: int, t2: int)
    requires
        0 <= t1 <= t2 <= 65536,
    ensures
        falloff(t2) <= falloff(t1),
{
    lemma_falloff_bounds(t1);
    lemma_falloff_bounds(t2);
    if 2 * t2 <= 65536 {
        let a = t1 * t1;
        let b = t2 * t2;
        lemma_square_bounds(t1, t2);
        lemma_square_bounds(t2, 32768);
        let n1 = (2 * 0x1_0000_0000 - 3 * a) * 65536;
        let d1 = 2 * (0x1_0000_0000 + a);
        let n2 = (2 * 0x1_0000_0000 - 3 * b) * 65536;
        let d2 = 2 * (0x1_0000_0000 + b);
        assert(n1 * d2 >= n2 * d1) by (nonlinear_arith)
            requires
                0 <= a <= b,
                n1 == (2 * 0x1_0000_0000 - 3 * a) * 65536,
                d1 == 2 * (0x1_0000_0000 + a),
                n2 == (2 * 0x1_0000_0000 - 3 * b) * 65536,
                d2 == 2 * (0x1_0000_0000 + b),
        ;
        lemma_div_cross(n1, d1, n2, d2);
    } else if 2 * t1 > 65536 {
        let u1 = 65536 - t1;
        let u2 = 65536 - t2;
        let a = u1 * u1;
        let b = u2 * u2;
        lemma_square_bounds(u2, u1);
        lemma_square_bounds(u1, 32767);
        let n1 = 5 * a * 65536;
        let d1 = 2 * (0x1_0000_0000 + a);
        let n2 = 5 * b * 65536;
        let d2 = 2 * (0x1_0000_0000 + b);
        assert(n1 * d2 >= n2 * d1) by (nonlinear_arith)
            requires
                0 <= b <= a,
                n1 == 5 * a * 65536,
                d1 == 2 * (0x1_0000_0000 + a),
                n2 == 5 * b * 65536,
                d2 == 2 * (0x1_0000_0000 + b),
        ;
        lemma_div_cross(n1, d1, n2, d2);
    }
}

/// The wave is highest at the pointer, never grows with the distance, and
/// leaves icons at and beyond the radius at their own size.
pub proof fn lemma_wave_shape(d1: int, d2: int, radius: int, max_scale: int)
    requires
        0 <= d1 <= d2,
        max_scale >= 65536,
    ensures
        wave_target(d2, radius, max_scale) <= wave_target(d1, radius, max_scale),
        65536 <= wave_target(d1, radius, max_scale) <= max_scale,
        radius > 0 ==> wave_target(0, radius, max_scale) == max_scale,
        d1 >= radius ==> wave_target(d1, radius, max_scale) == 65536,
{
    let gain = max_scale - 65536;
    if radius > 0 {
        assert(0int * 65536 / radius == 0) by {
            vstd::arithmetic::div_mod::lemma_div_basics(radius);
        }
        lemma_falloff_bounds(0);
        assert(gain * 65536 / 65536 == gain) by {
            vstd::arithmetic::div_mod::lemma_div_by_multiple(gain, 65536);
        }
    }
    if d1 < radius {
        let t1 = d1 * 65536 / radius;
        lemma_unit_ratio(d1, radius);
        lemma_falloff_bounds(t1);
        let f1 = falloff(t1);
        lemma_gain_bounds(gain, f1);
        if d2 < radius {
            let t2 = d2 * 65536 / radius;
            lemma_unit_ratio(d2, radius);
            vstd::arithmetic::div_mod::lemma_div_is_ordered(d1 * 65536, d2 * 65536, radius);
            lemma_falloff_decreases(t1, t2);
            lemma_falloff_bounds(t2);
            let f2 = falloff(t2);
            lemma_gain_bounds(gain, f2);
            assert(gain * f2 <= gain * f1) by (nonlinear_arith)
                requires
                    gain >= 0,
                    f2 <= f1,
            ;
            vstd::arithmetic::div_mod::lemma_div_is_ordered(gain * f2, gain * f1, 65536);
        }
    }
}

proof fn lemma_unit_ratio(d: int, radius: int)
    requires
        0 <= d < radius,
    ensures
        0 <= d * 65536 / radius < 65536,
{
    vstd::arithmetic::div_mod::lemma_div_pos_is_pos(d * 65536, radius);
    assert(d * 65536 < radius * 65536);
    vstd::arithmetic::div_mod::lemma_div_by_multiple_is_strongly_ordered(
        d * 65536,
        radius * 65536,
        65536,
        radius,
    );
    vstd::arithmetic::div_mod::lemma_div_by_multiple(65536, radius);
    assert(radius * 65536 == 65536 * radius);
}

proof fn lemma_gain_bounds(gain: int, f: int)
    requires
        gain >= 0,
        0 <= f <= 65536,
    ensures
        0 <= gain * f,
        0 <= gain * f / 65536 <= gain,
        trunc_div(gain * f, 65536) == gain * f / 65536,
{
    assert(0 <= gain * f <= gain * 65536) by (nonlinear_arith)
        requires
            gain >= 0,
            0 <= f <= 65536,
    ;
}

/// The falloff at `t`.
pub fn falloff_at(t: u32) -> (f: u32)
    requires
        t <= 65536,
    ensures
        f == falloff(t as int),
        f <= 65536,
{
    proof {
        lemma_falloff_bounds(t as int);
    }
    let one_sq: u64 = 0x1_0000_0000;
    if 2 * t <= 65536 {
        proof {
            lemma_square_bounds(t as int, 32768);
        }
        let a: u64 = (t as u64) * (t as u64);
        ((2 * one_sq - 3 * a) * 65536 / (2 * (one_sq + a))) as u32
    } else {
        let u: u64 = 65536 - t as u64;
        proof {
            lemma_square_bounds(u as int, 32767);
        }
        let a: u64 = u * u;
        (5 * a * 65536 / (2 * (one_sq + a))) as u32
    }
}

/// The scale that an icon at distance `dist` from the pointer grows to,
/// all in fixed point.
pub fn wave_scale(dist: u64, radius: u64, max_scale: u32) -> (target: u32)
    ensures
        target == wave_target(dist as int, radius as int, max_scale as int),
{
    if dist < radius {
        proof {
            lemma_unit_ratio(dist as int, radius as int);
        }
        let t: u32 = ((dist as u128) * 65536 / (radius as u128)) as u32;
        let f: i128 = falloff_at(t) as i128;
        let gain: i128 = max_scale as i128 - 65536;
        assert(-65536 * 65536 <= gain * f <= 0xffff_ffff * 65536 && (gain >= 0 ==> gain * f
            >= 0) && (gain <= 0 ==> gain * f <= 0)) by (nonlinear_arith)
            requires
                -65536 <= gain <= 0xffff_ffff,
                0 <= f <= 65536,
        ;
        let grown: i128 = div_toward_zero(gain * f, 65536);
        assert(-65536 <= grown <= gain || gain <= grown <= 0) by {
            if gain >= 0 {
                lemma_gain_bounds(gain as int, f as int);
            } else {
                lemma_gain_bounds(-gain as int, f as int);
                assert(-(gain * f) == (-gain) * f) by (nonlinear_arith);
            }
        }
        (65536 + grown) as u32
    } else {
        65536
    }
}

/// Moves a scale one step toward its target, and says whether it is still
/// on its way.
pub fn ease_scale(current: u32, target: u32) -> (r: (u32, bool))
    ensures
        r.0 == eased_scale(current as int, target as int),
        r.1 == scale_moving(current as int, target as int),
{
    let d: i128 = target as i128 - current as i128;
    if d > 65 || d < -65 {
        let step: i128 = div_toward_zero(d * 3, 10);
        ((current as i128 + step) as u32, true)
    } else {
        (target, false)
    }
}

/// Moves a position one step toward its target, and says whether it moved.
pub fn ease_position(current: i64, target: i64) -> (r: (i64, bool))
    ensures
        r.0 == eased_position(current as int, target as int),
        r.1 == position_moving(current as int, target as int),
{
    let d: i128 = target as i128 - current as i128;
    if d > 32768 || d < -32768 {
        let step: i128 = div_toward_zero(d * 15, 100);
        ((current as i128 + step) as i64, true)
    } else {
        (current, false)
    }
}

/// A step of easing brings a scale strictly closer to its target, and
/// never past it.
pub proof fn lemma_scale_step_approaches(current: int, target: int)
    requires
        scale_moving(current, target),
    ensures
        current < target ==> current < eased_scale(current, target) <= target,
        current > target ==> target <= eased_scale(current, target) < current,
{
}

/// A step of easing brings a position strictly closer to its target, and
/// never past it.
pub proof fn lemma_position_step_approaches(current: int, target: int)
    requires
        position_moving(current, target),
    ensures
        current < target ==> current < eased_position(current, target) < target,
        current > target ==> target < eased_position(current, target) < current,
{
}

/// Easing keeps the order of growing icons: of two scales that start
/// from one value and head for targets above it, the one with the higher
/// target is no lower after a step. This holds unless the higher target is
/// only just out of reach (between 66 and 216 parts above the start) while
/// the lower is within reach (at most 65 above): the lower scale then
/// snaps to its target, and the higher moves three tenths of its way.
pub proof fn lemma_easing_keeps_order(current: int, t1: int, t2: int)
    requires
        current <= t1 <= t2,
        t2 - current <= 65 || t1 - current > 65 || t2 - current >= 217,
    ensures
        eased_scale(current, t1) <= eased_scale(current, t2),
{
}

} // verus!
