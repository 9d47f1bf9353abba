//! The torque model: per-link parameters and angular accelerations.
//!
//! Each link is a simple pendulum under gravity, pulled toward each
//! neighbouring link by a linear angular spring.  This deliberately simple
//! torque sum (not a full coupled-chain mass matrix) defines the observable
//! trajectory and is kept exactly as stated here.

use crate::fx::{
    fx_div, fx_mul, fx_neg, fx_sub, sin_fx, spec_fx_div, spec_fx_mul, spec_fx_neg, spec_fx_sub,
    spec_sin,
};
use vstd::pervasive::VecAdditionalExecFns;
use vstd::prelude::*;

verus! {

/// Greatest number of links a simulation can hold.
pub const MAX_LINKS: usize = 7;

/// Standard gravity, 9.81 metres per square second, in fixed-point units.
pub const GRAVITY_FX: i64 = 9_810_000_000;

/// The angular spring constant between neighbouring links, 5.0.
pub const COUPLING_FX: i64 = 5_000_000_000;

/// Physical parameters of one link: rod length in fixed-point metres and
/// bob mass in fixed-point kilograms.
#[derive(Clone, Copy, PartialEq, Eq, Structural)]
pub struct LinkParams {
    pub length: i64,
    pub mass: i64,
}

/// A sequence of fixed-point words read as mathematical integers.
pub open spec fn ints(s: Seq<i64>) -> Seq<int> {
    Seq::new(s.len(), |i: int| s[i] as int)
}

/// Moment of inertia of a link: mass times length squared.
pub open spec fn spec_inertia(mass: int, length: int) -> int {
    spec_fx_mul(spec_fx_mul(mass, length), length)
}

/// Angular acceleration of link `i`: the gravitational restoring torque
/// plus the spring torque toward each neighbouring link, divided by the
/// link's moment of inertia.  A link whose inertia rounds to zero is
/// defined to accelerate by exactly zero, so a zero mass or length can
/// never divide.
pub open spec fn spec_accel(
    lengths: Seq<int>,
    masses: Seq<int>,
    thetas: Seq<int>,
    n: int,
    i: int,
) -> int
    recommends
        0 <= i < n,
        n <= lengths.len(),
        n <= masses.len(),
        n <= thetas.len(),
{
    let im: int = spec_inertia(masses[i], lengths[i]);
    if im == 0 {
        0
    } else {
        let grav: int = spec_fx_neg(
            spec_fx_mul(spec_fx_div(GRAVITY_FX as int, lengths[i]), spec_sin(thetas[i])),
        );
        let with_prev: int = if i > 0 {
            spec_fx_sub(
                grav,
                spec_fx_mul(COUPLING_FX as int, spec_fx_sub(thetas[i], thetas[i - 1])),
            )
        } else {
            grav
        };
        let torque: int = if i + 1 < n {
            spec_fx_sub(
                with_prev,
                spec_fx_mul(COUPLING_FX as int, spec_fx_sub(thetas[i], thetas[i + 1])),
            )
        } else {
            with_prev
        };
        spec_fx_div(torque, im)
    }
}

/// A fixed-point product with a zero factor is exactly zero.
pub proof fn lemma_fx_mul_zero(a: int)
    ensures
        spec_fx_mul(a, 0) == 0,
        spec_fx_mul(0, a) == 0,
{
    vstd::arithmetic::div_mod::lemma_div_basics(1_000_000_000int);
}

/// A zero mass or a zero length makes the moment of inertia zero.
pub proof fn lemma_zero_factor_inertia(mass: int, length: int)
    requires
        mass == 0 || length == 0,
    ensures
        spec_inertia(mass, length) == 0,
{
    if length == 0 {
        lemma_fx_mul_zero(mass);
        lemma_fx_mul_zero(spec_fx_mul(mass, length));
    } else {
        lemma_fx_mul_zero(length);
        lemma_fx_mul_zero(spec_fx_mul(mass, length));
    }
}

/// A degenerate link — zero mass or zero length — accelerates by exactly
/// zero, on every step, whatever the angles of the chain.
pub proof fn lemma_degenerate_link_accel(
    lengths: Seq<int>,
    masses: Seq<int>,
    thetas: Seq<int>,
    n: int,
    i: int,
)
    requires
        0 <= i < n,
        n <= lengths.len(),
        n <= masses.len(),
        n <= thetas.len(),
        masses[i] == 0 || lengths[i] == 0,
    ensures
        spec_accel(lengths, masses, thetas, n, i) == 0,
{
    lemma_zero_factor_inertia(masses[i], lengths[i]);
}

/// Angular accelerations for the first `n` links, written to `out[0..n]`;
/// entries past `n` are left alone.
pub fn accelerations_impl(
    n: usize,
    lengths: &Vec<i64>,
    masses: &Vec<i64>,
    thetas: &Vec<i64>,
    out: &mut Vec<i64>,
)
    requires
        n <= MAX_LINKS,
        lengths@.len() >= n,
        masses@.len() >= n,
        thetas@.len() >= n,
        old(out)@.len() >= n,
    ensures
        final(out)@.len() == old(out)@.len(),
        forall|j: int|
            0 <= j < n ==> final(out)@[j] as int == spec_accel(
                ints(lengths@),
                ints(masses@),
                ints(thetas@),
                n as int,
                j,
            ),
        forall|j: int| n <= j < final(out)@.len() ==> final(out)@[j] == old(out)@[j],
{
    let mut i: usize = 0;
    while i < n
        invariant
            n <= MAX_LINKS,
            lengths@.len() >= n,
            masses@.len() >= n,
            thetas@.len() >= n,
            out@.len() == old(out)@.len(),
            out@.len() >= n,
            i <= n,
            forall|j: int|
                0 <= j < i ==> out@[j] as int == spec_accel(
                    ints(lengths@),
                    ints(masses@),
                    ints(thetas@),
                    n as int,
                    j,
                ),
            forall|j: int| i <= j < out@.len() ==> out@[j] == old(out)@[j],
        decreases n - i,
    {
        let li: i64 = lengths[i];
        let mi: i64 = masses[i];
        let im: i64 = fx_mul(fx_mul(mi, li), li);
        if im == 0 {
            out.set(i, 0);
        } else {
            proof {
                if li == 0 {
                    lemma_zero_factor_inertia(mi as int, li as int);
                }
            }
            let mut torque: i64 = fx_neg(fx_mul(fx_div(GRAVITY_FX, li), sin_fx(thetas[i])));
            if i > 0 {
                torque = fx_sub(torque, fx_mul(COUPLING_FX, fx_sub(thetas[i], thetas[i - 1])));
            }
            if i + 1 < n {
                torque = fx_sub(torque, fx_mul(COUPLING_FX, fx_sub(thetas[i], thetas[i + 1])));
            }
            out.set(i, fx_div(torque, im));
        }
        i = i + 1;
    }
}

/// The first `n` even slots of a packed state vector: the angles.
pub open spec fn spec_thetas_of(y: Seq<int>, n: int) -> Seq<int>
    recommends
        0 <= n,
{
    Seq::new(n as nat, |i: int| y[2 * i])
}

/// Slot `j` of the derivative of a packed state vector: the angle slots
/// move by the paired angular velocity, the velocity slots by the torque
/// model's acceleration.
pub open spec fn spec_deriv_at(
    lengths: Seq<int>,
    masses: Seq<int>,
    y: Seq<int>,
    n: int,
    j: int,
) -> int
    recommends
        0 <= j < 2 * n,
        n <= lengths.len(),
        n <= masses.len(),
        2 * n <= y.len(),
{
    if j % 2 == 0 {
        y[j + 1]
    } else {
        spec_accel(lengths, masses, spec_thetas_of(y, n), n, j / 2)
    }
}

/// Derivative of the packed state vector `y`, written to `out[0..2n]`;
/// entries past `2n` are left alone.
pub fn deriv_impl(n: usize, lengths: &Vec<i64>, masses: &Vec<i64>, y: &Vec<i64>, out: &mut Vec<i64>)
    requires
        n <= MAX_LINKS,
        lengths@.len() >= n,
        masses@.len() >= n,
        y@.len() >= 2 * n,
        old(out)@.len() >= 2 * n,
    ensures
        final(out)@.len() == old(out)@.len(),
        forall|j: int|
            0 <= j < 2 * n ==> final(out)@[j] as int == spec_deriv_at(
                ints(lengths@),
                ints(masses@),
                ints(y@),
                n as int,
                j,
            ),
        forall|j: int| 2 * n <= j < final(out)@.len() ==> final(out)@[j] == old(out)@[j],
{
    let mut thetas: Vec<i64> = Vec::new();
    let mut acc: Vec<i64> = Vec::new();
    let mut i: usize = 0;
    while i < n
        invariant
            n <= MAX_LINKS,
            y@.len() >= 2 * n,
            i <= n,
            thetas@.len() == i,
            acc@.len() == i,
            forall|j: int| 0 <= j < i ==> thetas@[j] == y@[2 * j],
        decreases n - i,
    {
        thetas.push(y[2 * i]);
        acc.push(0);
        i = i + 1;
    }
    accelerations_impl(n, lengths, masses, &thetas, &mut acc);
    proof {
        assert(ints(thetas@) =~= spec_thetas_of(ints(y@), n as int));
    }
    let mut k: usize = 0;
    while k < n
        invariant
            n <= MAX_LINKS,
            lengths@.len() >= n,
            masses@.len() >= n,
            y@.len() >= 2 * n,
            out@.len() == old(out)@.len(),
            out@.len() >= 2 * n,
            k <= n,
            acc@.len() == n,
            forall|j: int|
                0 <= j < n ==> acc@[j] as int == spec_accel(
                    ints(lengths@),
                    ints(masses@),
                    spec_thetas_of(ints(y@), n as int),
                    n as int,
                    j,
                ),
            forall|j: int|
                0 <= j < 2 * k ==> out@[j] as int == spec_deriv_at(
                    ints(lengths@),
                    ints(masses@),
                    ints(y@),
                    n as int,
                    j,
                ),
            forall|j: int| 2 * k <= j < out@.len() ==> out@[j] == old(out)@[j],
        decreases n - k,
    {
        out.set(2 * k, y[2 * k + 1]);
        out.set(2 * k + 1, acc[k]);
        k = k + 1;
    }
}

} // verus!
