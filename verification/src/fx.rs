//! Saturating fixed-point arithmetic over `i64`, with a sine.
//!
//! A value `v: i64` stands for the real number `v / SCALE`.  Products and
//! quotients are computed exactly in `i128` and then truncated toward zero,
//! as hardware division does; every result is clamped to the `i64` range,
//! so no operation here can overflow or panic.

use vstd::prelude::*;

verus! {

/// Number of fixed-point units that stand for the real value one.
pub const SCALE: i64 = 1_000_000_000;

/// The circle constants, in fixed-point units (rounded to the nearest unit).
pub const PI_FX: i64 = 3_141_592_654;

pub const TWO_PI_FX: i64 = 6_283_185_307;

pub const HALF_PI_FX: i64 = 1_570_796_327;

pub open spec fn spec_abs(x: int) -> int {
    if x < 0 {
        -x
    } else {
        x
    }
}

/// Clamp an unbounded integer to the `i64` range.
pub open spec fn spec_sat(x: int) -> int {
    if x > i64::MAX as int {
        i64::MAX as int
    } else if x < i64::MIN as int {
        i64::MIN as int
    } else {
        x
    }
}

/// The quotient truncated toward zero, the rounding hardware division uses.
pub open spec fn spec_div_trunc(a: int, b: int) -> int
    recommends
        b != 0,
{
    if (a < 0) == (b < 0) {
        spec_abs(a) / spec_abs(b)
    } else {
        -(spec_abs(a) / spec_abs(b))
    }
}

/// Sum clamped to the `i64` range.
pub open spec fn spec_fx_add(a: int, b: int) -> int {
    spec_sat(a + b)
}

/// Difference clamped to the `i64` range.
pub open spec fn spec_fx_sub(a: int, b: int) -> int {
    spec_sat(a - b)
}

/// Negation clamped to the `i64` range.
pub open spec fn spec_fx_neg(a: int) -> int {
    spec_sat(-a)
}

/// Fixed-point product: `a * b / SCALE`, truncated, clamped.
pub open spec fn spec_fx_mul(a: int, b: int) -> int {
    spec_sat(spec_div_trunc(a * b, SCALE as int))
}

/// Fixed-point quotient: `a * SCALE / b`, truncated, clamped.
pub open spec fn spec_fx_div(a: int, b: int) -> int
    recommends
        b != 0,
{
    spec_sat(spec_div_trunc(a * SCALE, b))
}

fn sat_from_i128(x: i128) -> (r: i64)
    ensures
        r as int == spec_sat(x as int),
{
    if x > i64::MAX as i128 {
        i64::MAX
    } else if x < i64::MIN as i128 {
        i64::MIN
    } else {
        x as i64
    }
}

fn div_trunc_i128(a: i128, b: i128) -> (q: i128)
    requires
        b != 0,
        a > i128::MIN,
        b > i128::MIN,
    ensures
        q as int == spec_div_trunc(a as int, b as int),
        spec_abs(q as int) <= spec_abs(a as int),
{
    let neg: bool = (a < 0) != (b < 0);
    let ua: u128 = if a >= 0 {
        a as u128
    } else {
        (-a) as u128
    };
    let ub: u128 = if b >= 0 {
        b as u128
    } else {
        (-b) as u128
    };
    let uq: u128 = ua / ub;
    proof {
        vstd::arithmetic::div_mod::lemma_div_basics_4(ua as int, ub as int);
        vstd::arithmetic::div_mod::lemma_div_basics_5(ua as int, ub as int);
    }
    if neg {
        -(uq as i128)
    } else {
        uq as i128
    }
}

/// Truncating division of `i64` values by a positive divisor.
pub fn div_i64(a: i64, b: i64) -> (r: i64)
    requires
        b > 0,
    ensures
        r as int == spec_div_trunc(a as int, b as int),
        spec_abs(r as int) == spec_abs(a as int) / (b as int),
        spec_abs(r as int) <= 0x8000_0000_0000_0000int / (b as int),
        a >= 0 ==> 0 <= r <= a,
        a < 0 ==> a <= r <= 0,
{
    proof {
        vstd::arithmetic::div_mod::lemma_div_is_ordered(
            spec_abs(a as int),
            0x8000_0000_0000_0000int,
            b as int,
        );
        vstd::arithmetic::div_mod::lemma_div_basics_4(spec_abs(a as int), b as int);
        vstd::arithmetic::div_mod::lemma_div_basics_5(spec_abs(a as int), b as int);
    }
    let q: i128 = div_trunc_i128(a as i128, b as i128);
    q as i64
}

/// Saturating addition.
pub fn fx_add(a: i64, b: i64) -> (r: i64)
    ensures
        r as int == spec_fx_add(a as int, b as int),
{
    let s: i128 = (a as i128) + (b as i128);
    sat_from_i128(s)
}

/// Saturating subtraction.
pub fn fx_sub(a: i64, b: i64) -> (r: i64)
    ensures
        r as int == spec_fx_sub(a as int, b as int),
{
    let s: i128 = (a as i128) - (b as i128);
    sat_from_i128(s)
}

/// Saturating negation.
pub fn fx_neg(a: i64) -> (r: i64)
    ensures
        r as int == spec_fx_neg(a as int),
{
    let s: i128 = -(a as i128);
    sat_from_i128(s)
}

/// Fixed-point multiplication.
pub fn fx_mul(a: i64, b: i64) -> (r: i64)
    ensures
        r as int == spec_fx_mul(a as int, b as int),
{
    proof {
        assert((a as int) * (b as int) <= 0x4000_0000_0000_0000_0000_0000_0000_0000
            && (a as int) * (b as int) >= -0x4000_0000_0000_0000_0000_0000_0000_0000)
            by (nonlinear_arith)
            requires
                -0x8000_0000_0000_0000 <= a as int <= 0x7fff_ffff_ffff_ffff,
                -0x8000_0000_0000_0000 <= b as int <= 0x7fff_ffff_ffff_ffff,
        ;
    }
    let p: i128 = (a as i128) * (b as i128);
    let q: i128 = div_trunc_i128(p, SCALE as i128);
    sat_from_i128(q)
}

/// Fixed-point division by a nonzero divisor.
pub fn fx_div(a: i64, b: i64) -> (r: i64)
    requires
        b != 0,
    ensures
        r as int == spec_fx_div(a as int, b as int),
{
    proof {
        assert((a as int) * (SCALE as int) <= 0x4000_0000_0000_0000_0000_0000_0000_0000
            && (a as int) * (SCALE as int) >= -0x4000_0000_0000_0000_0000_0000_0000_0000)
            by (nonlinear_arith)
            requires
                -0x8000_0000_0000_0000 <= a as int <= 0x7fff_ffff_ffff_ffff,
                SCALE == 1_000_000_000,
        ;
    }
    let p: i128 = (a as i128) * (SCALE as i128);
    let q: i128 = div_trunc_i128(p, b as i128);
    sat_from_i128(q)
}

/// The odd Taylor polynomial of the sine up to the eleventh power, in
/// nested form, evaluated in fixed point.  Close to the sine only on
/// `[-pi/2, pi/2]`; `spec_sin` reduces its argument into that range first.
pub open spec fn spec_sin_poly(t: int) -> int {
    let t2: int = spec_fx_mul(t, t);
    let c5: int = SCALE - spec_div_trunc(t2, 110);
    let c4: int = SCALE - spec_div_trunc(spec_fx_mul(t2, c5), 72);
    let c3: int = SCALE - spec_div_trunc(spec_fx_mul(t2, c4), 42);
    let c2: int = SCALE - spec_div_trunc(spec_fx_mul(t2, c3), 20);
    let c1: int = SCALE - spec_div_trunc(spec_fx_mul(t2, c2), 6);
    spec_fx_mul(t, c1)
}

/// The fixed-point sine: reduce the angle modulo `TWO_PI_FX`, fold it into
/// `[-pi/2, pi/2]` by the symmetries of the sine, and evaluate the
/// polynomial; the sign of the angle carries over since the sine is odd.
pub open spec fn spec_sin(x: int) -> int {
    let mag: int = spec_abs(x);
    let rm: int = mag % (TWO_PI_FX as int);
    let t0: int = if rm > PI_FX as int {
        rm - TWO_PI_FX
    } else {
        rm
    };
    let t: int = if t0 > HALF_PI_FX as int {
        PI_FX - t0
    } else if t0 < -(HALF_PI_FX as int) {
        -(PI_FX as int) - t0
    } else {
        t0
    };
    let s: int = spec_sin_poly(t);
    if x < 0 {
        spec_fx_neg(s)
    } else {
        s
    }
}

/// The fixed-point cosine, as the sine shifted by a quarter turn.
pub open spec fn spec_cos(x: int) -> int {
    spec_sin(spec_fx_add(x, HALF_PI_FX as int))
}

fn sin_poly(t: i64) -> (r: i64)
    ensures
        r as int == spec_sin_poly(t as int),
{
    let t2: i64 = fx_mul(t, t);
    proof {
        assert((t as int) * (t as int) >= 0) by (nonlinear_arith);
        vstd::arithmetic::div_mod::lemma_div_basics_4(
            spec_abs((t as int) * (t as int)),
            SCALE as int,
        );
    }
    let c5: i64 = SCALE - div_i64(t2, 110);
    let c4: i64 = SCALE - div_i64(fx_mul(t2, c5), 72);
    let c3: i64 = SCALE - div_i64(fx_mul(t2, c4), 42);
    let c2: i64 = SCALE - div_i64(fx_mul(t2, c3), 20);
    let c1: i64 = SCALE - div_i64(fx_mul(t2, c2), 6);
    fx_mul(t, c1)
}

/// The fixed-point sine of an angle in fixed-point radians.
pub fn sin_fx(x: i64) -> (r: i64)
    ensures
        r as int == spec_sin(x as int),
{
    let mag: u64 = if x >= 0 {
        x as u64
    } else {
        (-(x as i128)) as u64
    };
    let rm: u64 = mag % (TWO_PI_FX as u64);
    let r0: i64 = rm as i64;
    let t0: i64 = if r0 > PI_FX {
        r0 - TWO_PI_FX
    } else {
        r0
    };
    let t: i64 = if t0 > HALF_PI_FX {
        PI_FX - t0
    } else if t0 < -HALF_PI_FX {
        -PI_FX - t0
    } else {
        t0
    };
    let s: i64 = sin_poly(t);
    if x < 0 {
        fx_neg(s)
    } else {
        s
    }
}

/// The fixed-point cosine of an angle in fixed-point radians.
pub fn cos_fx(x: i64) -> (r: i64)
    ensures
        r as int == spec_cos(x as int),
{
    sin_fx(fx_add(x, HALF_PI_FX))
}

} // verus!
