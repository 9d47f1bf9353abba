//! The classical fourth-order Runge-Kutta step over the packed state.

use crate::fx::{div_i64, fx_add, fx_mul, spec_div_trunc, spec_fx_add, spec_fx_mul};
use crate::pendulum::{deriv_impl, ints, spec_deriv_at, MAX_LINKS};
use vstd::pervasive::VecAdditionalExecFns;
use vstd::prelude::*;

verus! {

/// Angles and angular velocities interleaved into one flat vector:
/// `[theta_0, omega_0, theta_1, omega_1, ...]`.
pub open spec fn spec_pack(th: Seq<int>, om: Seq<int>, n: int) -> Seq<int>
    recommends
        0 <= n,
        n <= th.len(),
        n <= om.len(),
{
    Seq::new((2 * n) as nat, |j: int| if j % 2 == 0 { th[j / 2] } else { om[j / 2] })
}

/// The whole derivative vector of a packed state.
pub open spec fn spec_deriv_seq(lengths: Seq<int>, masses: Seq<int>, y: Seq<int>, n: int) -> Seq<
    int,
>
    recommends
        0 <= n,
        n <= lengths.len(),
        n <= masses.len(),
        2 * n <= y.len(),
{
    Seq::new((2 * n) as nat, |j: int| spec_deriv_at(lengths, masses, y, n, j))
}

/// The intermediate state `y + c * k` of one Runge-Kutta stage.
pub open spec fn spec_axpy(y: Seq<int>, c: int, k: Seq<int>) -> Seq<int>
    recommends
        y.len() <= k.len(),
{
    Seq::new(y.len(), |j: int| spec_fx_add(y[j], spec_fx_mul(c, k[j])))
}

/// The weighted Runge-Kutta increment for slot `j`:
/// `dt * (k1 + 2*k2 + 2*k3 + k4) / 6`.
pub open spec fn spec_rk_delta(
    k1: Seq<int>,
    k2: Seq<int>,
    k3: Seq<int>,
    k4: Seq<int>,
    dt: int,
    j: int,
) -> int {
    let s: int = spec_fx_add(
        spec_fx_add(spec_fx_add(k1[j], spec_fx_add(k2[j], k2[j])), spec_fx_add(k3[j], k3[j])),
        k4[j],
    );
    spec_div_trunc(spec_fx_mul(s, dt), 6)
}

/// One full Runge-Kutta step of size `dt` nanoseconds: the pair of the new
/// angle sequence and the new angular velocity sequence, each of length `n`.
pub open spec fn spec_step(
    lengths: Seq<int>,
    masses: Seq<int>,
    th: Seq<int>,
    om: Seq<int>,
    n: int,
    dt: int,
) -> (Seq<int>, Seq<int>)
    recommends
        0 <= n,
        n <= lengths.len(),
        n <= masses.len(),
        n <= th.len(),
        n <= om.len(),
{
    let y: Seq<int> = spec_pack(th, om, n);
    let half: int = spec_div_trunc(dt, 2);
    let k1: Seq<int> = spec_deriv_seq(lengths, masses, y, n);
    let k2: Seq<int> = spec_deriv_seq(lengths, masses, spec_axpy(y, half, k1), n);
    let k3: Seq<int> = spec_deriv_seq(lengths, masses, spec_axpy(y, half, k2), n);
    let k4: Seq<int> = spec_deriv_seq(lengths, masses, spec_axpy(y, dt, k3), n);
    (
        Seq::new(n as nat, |i: int| spec_fx_add(th[i], spec_rk_delta(k1, k2, k3, k4, dt, 2 * i))),
        Seq::new(
            n as nat,
            |i: int| spec_fx_add(om[i], spec_rk_delta(k1, k2, k3, k4, dt, 2 * i + 1)),
        ),
    )
}

/// Fill `tmp[0..count]` with the stage state `y + c * k`.
fn axpy_into(count: usize, y: &Vec<i64>, c: i64, k: &Vec<i64>, tmp: &mut Vec<i64>)
    requires
        y@.len() >= count,
        k@.len() >= count,
        old(tmp)@.len() >= count,
    ensures
        final(tmp)@.len() == old(tmp)@.len(),
        forall|j: int|
            0 <= j < count ==> final(tmp)@[j] as int == spec_fx_add(
                y@[j] as int,
                spec_fx_mul(c as int, k@[j] as int),
            ),
        forall|j: int| count <= j < final(tmp)@.len() ==> final(tmp)@[j] == old(tmp)@[j],
{
    let mut j: usize = 0;
    while j < count
        invariant
            j <= count,
            y@.len() >= count,
            k@.len() >= count,
            tmp@.len() == old(tmp)@.len(),
            tmp@.len() >= count,
            forall|t: int|
                0 <= t < j ==> tmp@[t] as int == spec_fx_add(
                    y@[t] as int,
                    spec_fx_mul(c as int, k@[t] as int),
                ),
            forall|t: int| j <= t < tmp@.len() ==> tmp@[t] == old(tmp)@[t],
        decreases count - j,
    {
        tmp.set(j, fx_add(y[j], fx_mul(c, k[j])));
        j = j + 1;
    }
}

/// Add each link's weighted Runge-Kutta increment to its angle and
/// angular velocity.
fn apply_deltas(
    n: usize,
    theta: &mut Vec<i64>,
    omega: &mut Vec<i64>,
    dt: i64,
    k1: &Vec<i64>,
    k2: &Vec<i64>,
    k3: &Vec<i64>,
    k4: &Vec<i64>,
)
    requires
        n <= MAX_LINKS,
        old(theta)@.len() >= n,
        old(omega)@.len() >= n,
        k1@.len() >= 2 * n,
        k2@.len() >= 2 * n,
        k3@.len() >= 2 * n,
        k4@.len() >= 2 * n,
    ensures
        final(theta)@.len() == old(theta)@.len(),
        final(omega)@.len() == old(omega)@.len(),
        forall|i: int|
            0 <= i < n ==> final(theta)@[i] as int == spec_fx_add(
                old(theta)@[i] as int,
                spec_rk_delta(ints(k1@), ints(k2@), ints(k3@), ints(k4@), dt as int, 2 * i),
            ),
        forall|i: int|
            0 <= i < n ==> final(omega)@[i] as int == spec_fx_add(
                old(omega)@[i] as int,
                spec_rk_delta(ints(k1@), ints(k2@), ints(k3@), ints(k4@), dt as int, 2 * i + 1),
            ),
        forall|i: int| n <= i < final(theta)@.len() ==> final(theta)@[i] == old(theta)@[i],
        forall|i: int| n <= i < final(omega)@.len() ==> final(omega)@[i] == old(omega)@[i],
{
    let mut i: usize = 0;
    while i < n
        invariant
            i <= n,
            n <= MAX_LINKS,
            k1@.len() >= 2 * n,
            k2@.len() >= 2 * n,
            k3@.len() >= 2 * n,
            k4@.len() >= 2 * n,
            theta@.len() == old(theta)@.len(),
            omega@.len() == old(omega)@.len(),
            theta@.len() >= n,
            omega@.len() >= n,
            forall|t: int|
                0 <= t < i ==> theta@[t] as int == spec_fx_add(
                    old(theta)@[t] as int,
                    spec_rk_delta(ints(k1@), ints(k2@), ints(k3@), ints(k4@), dt as int, 2 * t),
                ),
            forall|t: int|
                0 <= t < i ==> omega@[t] as int == spec_fx_add(
                    old(omega)@[t] as int,
                    spec_rk_delta(
                        ints(k1@),
                        ints(k2@),
                        ints(k3@),
                        ints(k4@),
                        dt as int,
                        2 * t + 1,
                    ),
                ),
            forall|t: int| i <= t < theta@.len() ==> theta@[t] == old(theta)@[t],
            forall|t: int| i <= t < omega@.len() ==> omega@[t] == old(omega)@[t],
        decreases n - i,
    {
        let st: i64 = fx_add(
            fx_add(fx_add(k1[2 * i], fx_add(k2[2 * i], k2[2 * i])), fx_add(k3[2 * i], k3[2 * i])),
            k4[2 * i],
        );
        let so: i64 = fx_add(
            fx_add(
                fx_add(k1[2 * i + 1], fx_add(k2[2 * i + 1], k2[2 * i + 1])),
                fx_add(k3[2 * i + 1], k3[2 * i + 1]),
            ),
            k4[2 * i + 1],
        );
        let new_theta: i64 = fx_add(theta[i], div_i64(fx_mul(st, dt), 6));
        let new_omega: i64 = fx_add(omega[i], div_i64(fx_mul(so, dt), 6));
        theta.set(i, new_theta);
        omega.set(i, new_omega);
        i = i + 1;
    }
}

/// Advance all `n` links by one Runge-Kutta step of `dt` nanoseconds,
/// updating `theta` and `omega` in place.  The four scratch buffers are
/// caller-owned so that repeated stepping allocates nothing; on return they
/// hold the four stage derivatives.
#[verifier::loop_isolation(false)]
#[verifier::rlimit(50)]
pub fn step_rk4(
    n: usize,
    lengths: &Vec<i64>,
    masses: &Vec<i64>,
    theta: &mut Vec<i64>,
    omega: &mut Vec<i64>,
    dt: i64,
    k1: &mut Vec<i64>,
    k2: &mut Vec<i64>,
    k3: &mut Vec<i64>,
    k4: &mut Vec<i64>,
)
    requires
        n <= MAX_LINKS,
        lengths@.len() >= n,
        masses@.len() >= n,
        old(theta)@.len() >= n,
        old(omega)@.len() >= n,
        old(k1)@.len() >= 2 * n,
        old(k2)@.len() >= 2 * n,
        old(k3)@.len() >= 2 * n,
        old(k4)@.len() >= 2 * n,
    ensures
        final(theta)@.len() == old(theta)@.len(),
        final(omega)@.len() == old(omega)@.len(),
        final(k1)@.len() == old(k1)@.len(),
        final(k2)@.len() == old(k2)@.len(),
        final(k3)@.len() == old(k3)@.len(),
        final(k4)@.len() == old(k4)@.len(),
        forall|i: int|
            0 <= i < n ==> final(theta)@[i] as int == spec_step(
                ints(lengths@),
                ints(masses@),
                ints(old(theta)@),
                ints(old(omega)@),
                n as int,
                dt as int,
            ).0[i],
        forall|i: int|
            0 <= i < n ==> final(omega)@[i] as int == spec_step(
                ints(lengths@),
                ints(masses@),
                ints(old(theta)@),
                ints(old(omega)@),
                n as int,
                dt as int,
            ).1[i],
        forall|i: int| n <= i < final(theta)@.len() ==> final(theta)@[i] == old(theta)@[i],
        forall|i: int| n <= i < final(omega)@.len() ==> final(omega)@[i] == old(omega)@[i],
{
    let ghost gl: Seq<int> = ints(lengths@);
    let ghost gm: Seq<int> = ints(masses@);
    let ghost gth: Seq<int> = ints(old(theta)@);
    let ghost gom: Seq<int> = ints(old(omega)@);
    let ghost packed: Seq<int> = spec_pack(gth, gom, n as int);

    // Pack the current state; `tmp` starts as a copy of it and carries the
    // intermediate state of each later stage.
    let mut y: Vec<i64> = Vec::new();
    let mut tmp: Vec<i64> = Vec::new();
    let mut i: usize = 0;
    while i < n
        invariant
            i <= n,
            y@.len() == 2 * i,
            tmp@.len() == 2 * i,
            forall|j: int| 0 <= j < i ==> y@[2 * j] == theta@[j] && y@[2 * j + 1] == omega@[j],
            theta@ == old(theta)@,
            omega@ == old(omega)@,
        decreases n - i,
    {
        y.push(theta[i]);
        y.push(omega[i]);
        tmp.push(0);
        tmp.push(0);
        i = i + 1;
    }
    proof {
        assert(ints(y@) =~= packed);
    }

    let ghost half_g: int = spec_div_trunc(dt as int, 2);
    let ghost k1s: Seq<int> = spec_deriv_seq(gl, gm, packed, n as int);
    let ghost y2: Seq<int> = spec_axpy(packed, half_g, k1s);
    let ghost k2s: Seq<int> = spec_deriv_seq(gl, gm, y2, n as int);
    let ghost y3: Seq<int> = spec_axpy(packed, half_g, k2s);
    let ghost k3s: Seq<int> = spec_deriv_seq(gl, gm, y3, n as int);
    let ghost y4: Seq<int> = spec_axpy(packed, dt as int, k3s);
    let ghost k4s: Seq<int> = spec_deriv_seq(gl, gm, y4, n as int);

    deriv_impl(n, lengths, masses, &y, k1);
    let half: i64 = div_i64(dt, 2);
    axpy_into(2 * n, &y, half, k1, &mut tmp);
    proof {
        assert(ints(tmp@) =~= y2);
    }
    deriv_impl(n, lengths, masses, &tmp, k2);
    axpy_into(2 * n, &y, half, k2, &mut tmp);
    proof {
        assert(ints(tmp@) =~= y3);
    }
    deriv_impl(n, lengths, masses, &tmp, k3);
    axpy_into(2 * n, &y, dt, k3, &mut tmp);
    proof {
        assert(ints(tmp@) =~= y4);
    }
    deriv_impl(n, lengths, masses, &tmp, k4);

    apply_deltas(n, theta, omega, dt, k1, k2, k3, k4);
    proof {
        let res = spec_step(gl, gm, gth, gom, n as int, dt as int);
        assert forall|i: int| 0 <= i < n implies theta@[i] as int == res.0[i] && omega@[i] as int
            == res.1[i] by {
            assert(ints(k1@)[2 * i] == k1s[2 * i]);
            assert(ints(k2@)[2 * i] == k2s[2 * i]);
            assert(ints(k3@)[2 * i] == k3s[2 * i]);
            assert(ints(k4@)[2 * i] == k4s[2 * i]);
            assert(ints(k1@)[2 * i + 1] == k1s[2 * i + 1]);
            assert(ints(k2@)[2 * i + 1] == k2s[2 * i + 1]);
            assert(ints(k3@)[2 * i + 1] == k3s[2 * i + 1]);
            assert(ints(k4@)[2 * i + 1] == k4s[2 * i + 1]);
        }
    }
}

} // verus!
