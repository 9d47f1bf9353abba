//! A single damped pendulum with its own gravity: one Runge-Kutta step.

use crate::fx::{
    div_i64, fx_add, fx_div, fx_mul, fx_neg, fx_sub, sin_fx, spec_div_trunc, spec_fx_add,
    spec_fx_div, spec_fx_mul, spec_fx_neg, spec_fx_sub, spec_sin,
};
use vstd::prelude::*;

verus! {

/// Time derivative of `(angle, angular velocity)` for one damped
/// pendulum: the angle moves by the angular velocity, the angular
/// velocity by `-(g/l) sin(angle) - (b/m) * angular velocity`, with drag
/// coefficient `b`.
pub open spec fn spec_deriv1(th: int, om: int, l: int, m: int, b: int, g: int) -> (int, int)
    recommends
        l != 0,
        m != 0,
{
    (
        om,
        spec_fx_sub(
            spec_fx_neg(spec_fx_mul(spec_fx_div(g, l), spec_sin(th))),
            spec_fx_mul(spec_fx_div(b, m), om),
        ),
    )
}

/// One classical Runge-Kutta step of `dt` nanoseconds for a single damped
/// pendulum: four derivative evaluations combined with weights 1, 2, 2, 1.
pub open spec fn spec_rk4_step(
    th: int,
    om: int,
    dt: int,
    l: int,
    m: int,
    b: int,
    g: int,
) -> (int, int)
    recommends
        l != 0,
        m != 0,
{
    let half: int = spec_div_trunc(dt, 2);
    let kk1: (int, int) = spec_deriv1(th, om, l, m, b, g);
    let kk2: (int, int) = spec_deriv1(
        spec_fx_add(th, spec_fx_mul(half, kk1.0)),
        spec_fx_add(om, spec_fx_mul(half, kk1.1)),
        l,
        m,
        b,
        g,
    );
    let kk3: (int, int) = spec_deriv1(
        spec_fx_add(th, spec_fx_mul(half, kk2.0)),
        spec_fx_add(om, spec_fx_mul(half, kk2.1)),
        l,
        m,
        b,
        g,
    );
    let kk4: (int, int) = spec_deriv1(
        spec_fx_add(th, spec_fx_mul(dt, kk3.0)),
        spec_fx_add(om, spec_fx_mul(dt, kk3.1)),
        l,
        m,
        b,
        g,
    );
    let st: int = spec_fx_add(
        spec_fx_add(spec_fx_add(kk1.0, spec_fx_add(kk2.0, kk2.0)), spec_fx_add(kk3.0, kk3.0)),
        kk4.0,
    );
    let so: int = spec_fx_add(
        spec_fx_add(spec_fx_add(kk1.1, spec_fx_add(kk2.1, kk2.1)), spec_fx_add(kk3.1, kk3.1)),
        kk4.1,
    );
    (
        spec_fx_add(th, spec_div_trunc(spec_fx_mul(st, dt), 6)),
        spec_fx_add(om, spec_div_trunc(spec_fx_mul(so, dt), 6)),
    )
}

fn deriv1(th: i64, om: i64, l: i64, m: i64, b: i64, g: i64) -> (r: (i64, i64))
    requires
        l != 0,
        m != 0,
    ensures
        r.0 as int == spec_deriv1(th as int, om as int, l as int, m as int, b as int, g as int).0,
        r.1 as int == spec_deriv1(th as int, om as int, l as int, m as int, b as int, g as int).1,
{
    (om, fx_sub(fx_neg(fx_mul(fx_div(g, l), sin_fx(th))), fx_mul(fx_div(b, m), om)))
}

/// One Runge-Kutta step for a single damped pendulum, returning the new
/// `(angle, angular velocity)`.  Length and mass must not round to zero,
/// as the torque divides by both; hosts clamp them beforehand.
pub fn rk4_step(theta: i64, omega: i64, dt: i64, l: i64, m: i64, b: i64, g: i64) -> (r: (i64, i64))
    requires
        l != 0,
        m != 0,
    ensures
        r.0 as int == spec_rk4_step(
            theta as int,
            omega as int,
            dt as int,
            l as int,
            m as int,
            b as int,
            g as int,
        ).0,
        r.1 as int == spec_rk4_step(
            theta as int,
            omega as int,
            dt as int,
            l as int,
            m as int,
            b as int,
            g as int,
        ).1,
{
    let half: i64 = div_i64(dt, 2);
    let kk1: (i64, i64) = deriv1(theta, omega, l, m, b, g);
    let kk2: (i64, i64) = deriv1(
        fx_add(theta, fx_mul(half, kk1.0)),
        fx_add(omega, fx_mul(half, kk1.1)),
        l,
        m,
        b,
        g,
    );
    let kk3: (i64, i64) = deriv1(
        fx_add(theta, fx_mul(half, kk2.0)),
        fx_add(omega, fx_mul(half, kk2.1)),
        l,
        m,
        b,
        g,
    );
    let kk4: (i64, i64) = deriv1(
        fx_add(theta, fx_mul(dt, kk3.0)),
        fx_add(omega, fx_mul(dt, kk3.1)),
        l,
        m,
        b,
        g,
    );
    let st: i64 = fx_add(
        fx_add(fx_add(kk1.0, fx_add(kk2.0, kk2.0)), fx_add(kk3.0, kk3.0)),
        kk4.0,
    );
    let so: i64 = fx_add(
        fx_add(fx_add(kk1.1, fx_add(kk2.1, kk2.1)), fx_add(kk3.1, kk3.1)),
        kk4.1,
    );
    (
        fx_add(theta, div_i64(fx_mul(st, dt), 6)),
        fx_add(omega, div_i64(fx_mul(so, dt), 6)),
    )
}

} // verus!
