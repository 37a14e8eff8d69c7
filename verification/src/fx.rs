//! Saturating fixed-point scalars.
//!
//! Every physical quantity of the engine (length, angle, velocity, torque,
//! time) is an `i64` counting micro-units: `SCALE` ticks make one unit.
//! All arithmetic saturates at `FX_LIMIT`, which both fixes the operating
//! range of the simulation and keeps every intermediate product inside the
//! `i64` range, so no operation can overflow.

use vstd::prelude::*;

verus! {

/// Number of ticks in one unit: values carry six decimal fractional digits.
pub const SCALE: i64 = 1_000_000;

/// Half a unit, used to halve angles exactly.
pub const HALF: i64 = 500_000;

/// The saturation bound: about three thousand units. Keeping both factors
/// of a product inside this bound keeps the product inside `i64`.
pub const FX_LIMIT: i64 = 3_000_000_000;

pub open spec fn fx_in_range(a: i64) -> bool {
    -FX_LIMIT <= a && a <= FX_LIMIT
}

/// Absolute value of a mathematical integer.
pub open spec fn abs_int(v: int) -> int {
    if v >= 0 {
        v
    } else {
        -v
    }
}

/// Saturation of an unbounded intermediate into the engine range.
pub open spec fn sat(v: int) -> i64 {
    if v > FX_LIMIT {
        FX_LIMIT
    } else if v < -FX_LIMIT {
        (-FX_LIMIT) as i64
    } else {
        v as i64
    }
}

/// Division truncated toward zero (the rounding the executable code uses);
/// meaningful only for `d != 0`.
pub open spec fn div_trunc(n: int, d: int) -> int {
    if (n >= 0) == (d >= 0) {
        abs_int(n) / abs_int(d)
    } else {
        -(abs_int(n) / abs_int(d))
    }
}

pub open spec fn s_add(a: i64, b: i64) -> i64 {
    sat(a + b)
}

pub open spec fn s_sub(a: i64, b: i64) -> i64 {
    sat(a - b)
}

pub open spec fn s_neg(a: i64) -> i64 {
    sat(-a as int)
}

pub open spec fn s_mul(a: i64, b: i64) -> i64 {
    sat(div_trunc(a * b, SCALE as int))
}

pub open spec fn s_div(a: i64, b: i64) -> i64 {
    sat(div_trunc(a * (SCALE as int), b as int))
}

/// Clamp into a symmetric interval, used by the motor torque bound.
pub open spec fn s_clamp(v: i64, lo: i64, hi: i64) -> i64 {
    if v < lo {
        lo
    } else if v > hi {
        hi
    } else {
        v
    }
}

/// Saturate an intermediate that already fits `i64`.
pub fn fx_sat(v: i64) -> (r: i64)
    ensures
        r == sat(v as int),
        fx_in_range(r),
{
    if v > FX_LIMIT {
        FX_LIMIT
    } else if v < -FX_LIMIT {
        -FX_LIMIT
    } else {
        v
    }
}

pub fn fx_add(a: i64, b: i64) -> (r: i64)
    requires
        fx_in_range(a),
        fx_in_range(b),
    ensures
        r == s_add(a, b),
        fx_in_range(r),
{
    fx_sat(a + b)
}

pub fn fx_sub(a: i64, b: i64) -> (r: i64)
    requires
        fx_in_range(a),
        fx_in_range(b),
    ensures
        r == s_sub(a, b),
        fx_in_range(r),
{
    fx_sat(a - b)
}

pub fn fx_neg(a: i64) -> (r: i64)
    requires
        fx_in_range(a),
    ensures
        r == s_neg(a),
        fx_in_range(r),
{
    fx_sat(-a)
}

pub fn fx_clamp(v: i64, lo: i64, hi: i64) -> (r: i64)
    ensures
        r == s_clamp(v, lo, hi),
{
    if v < lo {
        lo
    } else if v > hi {
        hi
    } else {
        v
    }
}

/// Truncating division of a signed numerator by a positive denominator.
fn div_trunc_by_pos(p: i64, d: i64) -> (r: i64)
    requires
        d >= 1,
        p > i64::MIN,
    ensures
        r == div_trunc(p as int, d as int),
        abs_int(r as int) <= abs_int(p as int),
{
    if p >= 0 {
        let m: u64 = p as u64;
        let dd: u64 = d as u64;
        let q: u64 = m / dd;
        proof {
            vstd::arithmetic::div_mod::lemma_div_is_ordered_by_denominator(m as int, 1, dd as int);
            vstd::arithmetic::div_mod::lemma_div_by_multiple(m as int, 1int);
        }
        q as i64
    } else {
        let m: u64 = (-p) as u64;
        let dd: u64 = d as u64;
        let q: u64 = m / dd;
        proof {
            vstd::arithmetic::div_mod::lemma_div_is_ordered_by_denominator(m as int, 1, dd as int);
            vstd::arithmetic::div_mod::lemma_div_by_multiple(m as int, 1int);
        }
        -(q as i64)
    }
}

pub fn fx_mul(a: i64, b: i64) -> (r: i64)
    requires
        fx_in_range(a),
        fx_in_range(b),
    ensures
        r == s_mul(a, b),
        fx_in_range(r),
{
    proof {
        assert(-9_000_000_000_000_000_000 <= a * b <= 9_000_000_000_000_000_000)
            by (nonlinear_arith)
            requires
                -3_000_000_000 <= a <= 3_000_000_000,
                -3_000_000_000 <= b <= 3_000_000_000,
        ;
    }
    let p: i64 = a * b;
    let q: i64 = div_trunc_by_pos(p, SCALE);
    fx_sat(q)
}

pub fn fx_div(a: i64, b: i64) -> (r: i64)
    requires
        fx_in_range(a),
        fx_in_range(b),
        b != 0,
    ensures
        r == s_div(a, b),
        fx_in_range(r),
{
    let p: i64 = a * SCALE;
    let babs: i64 = if b < 0 {
        -b
    } else {
        b
    };
    let q: i64 = div_trunc_by_pos(p, babs);
    let signed: i64 = if b < 0 {
        -q
    } else {
        q
    };
    fx_sat(signed)
}

/// Multiplying by one whole unit is exact.
pub proof fn lemma_s_mul_scale(a: i64)
    requires
        fx_in_range(a),
    ensures
        s_mul(a, SCALE) == a,
        s_mul(SCALE, a) == a,
{
    assert(a * (SCALE as int) == (SCALE as int) * a) by (nonlinear_arith);
    if a >= 0 {
        assert((a * (SCALE as int)) / (SCALE as int) == a) by (nonlinear_arith)
            requires
                a >= 0,
        ;
    } else {
        assert(((-a) * (SCALE as int)) / (SCALE as int) == -a) by (nonlinear_arith)
            requires
                a < 0,
        ;
        assert(-(a * (SCALE as int)) == (-a) * (SCALE as int)) by (nonlinear_arith);
    }
}

/// Multiplying by zero is exactly zero.
pub proof fn lemma_s_mul_zero(a: i64)
    ensures
        s_mul(a, 0) == 0,
        s_mul(0, a) == 0,
{
    assert(a * 0 == 0) by (nonlinear_arith);
    assert(0 * a == 0) by (nonlinear_arith);
}

/// Adding zero to an in-range value changes nothing.
pub proof fn lemma_s_add_zero(a: i64)
    requires
        fx_in_range(a),
    ensures
        s_add(a, 0) == a,
        s_sub(a, 0) == a,
{
}

/// Half a turn, in micro-radians.
pub const PI_FX: i64 = 3_141_593;

/// A full turn, in micro-radians.
pub const TWO_PI_FX: i64 = 6_283_185;

pub const C2: i64 = 2_000_000;

pub const C3: i64 = 3_000_000;

pub const C8: i64 = 8_000_000;

pub const C6: i64 = 6_000_000;

pub const C12: i64 = 12_000_000;

pub const C20: i64 = 20_000_000;

pub const C30: i64 = 30_000_000;

pub const C42: i64 = 42_000_000;

pub const C56: i64 = 56_000_000;

pub const C72: i64 = 72_000_000;

/// Reduction of an angle into [-PI_FX, PI_FX] by whole turns.
pub open spec fn s_wrap(a: i64) -> i64
    decreases abs_int(a as int),
    when fx_in_range(a)
{
    if a > PI_FX {
        s_wrap((a - TWO_PI_FX) as i64)
    } else if a < -PI_FX {
        s_wrap((a + TWO_PI_FX) as i64)
    } else {
        a
    }
}

/// Sine of a reduced angle: the odd Taylor polynomial through the ninth
/// power, evaluated in Horner form so no intermediate saturates.
pub open spec fn s_sin_poly(t: i64) -> i64 {
    let u = s_mul(t, t);
    let h3 = s_sub(SCALE, s_div(u, C72));
    let h2 = s_sub(SCALE, s_mul(s_div(u, C42), h3));
    let h1 = s_sub(SCALE, s_mul(s_div(u, C20), h2));
    let h0 = s_sub(SCALE, s_mul(s_div(u, C6), h1));
    s_mul(t, h0)
}

/// Cosine of a reduced angle: the even Taylor polynomial through the
/// eighth power, in Horner form.
pub open spec fn s_cos_poly(t: i64) -> i64 {
    let u = s_mul(t, t);
    let h3 = s_sub(SCALE, s_div(u, C56));
    let h2 = s_sub(SCALE, s_mul(s_div(u, C30), h3));
    let h1 = s_sub(SCALE, s_mul(s_div(u, C12), h2));
    s_sub(SCALE, s_mul(s_div(u, C2), h1))
}

pub open spec fn s_sin(a: i64) -> i64 {
    s_sin_poly(s_wrap(a))
}

pub open spec fn s_cos(a: i64) -> i64 {
    s_cos_poly(s_wrap(a))
}

/// Reduce an angle into [-PI_FX, PI_FX] by whole turns.
pub fn fx_wrap(a: i64) -> (r: i64)
    requires
        fx_in_range(a),
    ensures
        r == s_wrap(a),
        -PI_FX <= r <= PI_FX,
{
    let mut t: i64 = a;
    while t > PI_FX || t < -PI_FX
        invariant
            fx_in_range(t),
            s_wrap(t) == s_wrap(a),
        decreases abs_int(t as int),
    {
        if t > PI_FX {
            t = t - TWO_PI_FX;
        } else {
            t = t + TWO_PI_FX;
        }
    }
    t
}

fn fx_sin_poly(t: i64) -> (r: i64)
    requires
        -PI_FX <= t <= PI_FX,
    ensures
        r == s_sin_poly(t),
        fx_in_range(r),
{
    let u: i64 = fx_mul(t, t);
    let h3: i64 = fx_sub(SCALE, fx_div(u, C72));
    let h2: i64 = fx_sub(SCALE, fx_mul(fx_div(u, C42), h3));
    let h1: i64 = fx_sub(SCALE, fx_mul(fx_div(u, C20), h2));
    let h0: i64 = fx_sub(SCALE, fx_mul(fx_div(u, C6), h1));
    fx_mul(t, h0)
}

fn fx_cos_poly(t: i64) -> (r: i64)
    requires
        -PI_FX <= t <= PI_FX,
    ensures
        r == s_cos_poly(t),
        fx_in_range(r),
{
    let u: i64 = fx_mul(t, t);
    let h3: i64 = fx_sub(SCALE, fx_div(u, C56));
    let h2: i64 = fx_sub(SCALE, fx_mul(fx_div(u, C30), h3));
    let h1: i64 = fx_sub(SCALE, fx_mul(fx_div(u, C12), h2));
    fx_sub(SCALE, fx_mul(fx_div(u, C2), h1))
}

pub fn fx_sin(a: i64) -> (r: i64)
    requires
        fx_in_range(a),
    ensures
        r == s_sin(a),
        fx_in_range(r),
{
    let t: i64 = fx_wrap(a);
    fx_sin_poly(t)
}

pub fn fx_cos(a: i64) -> (r: i64)
    requires
        fx_in_range(a),
    ensures
        r == s_cos(a),
        fx_in_range(r),
{
    let t: i64 = fx_wrap(a);
    fx_cos_poly(t)
}

/// An angle of zero has sine zero and cosine one, exactly.
pub proof fn lemma_trig_zero()
    ensures
        s_sin(0) == 0,
        s_cos(0) == SCALE,
{
    lemma_s_mul_zero(0);
    assert(s_wrap(0) == 0);
    assert(s_mul(0, 0) == 0);
    assert(div_trunc(0, C72 as int) == 0);
    assert(s_sin_poly(0) == 0) by {
        lemma_s_mul_zero(s_sub(SCALE, s_mul(s_div(0, C6), s_sub(SCALE, s_mul(s_div(0, C20),
            s_sub(SCALE, s_mul(s_div(0, C42), s_sub(SCALE, s_div(0, C72)))))))));
    }
    assert(s_cos_poly(0) == SCALE) by {
        lemma_s_mul_zero(s_sub(SCALE, s_mul(s_div(0, C12), s_sub(SCALE, s_mul(s_div(0, C30),
            s_sub(SCALE, s_div(0, C56)))))));
    }
}

} // verus!
