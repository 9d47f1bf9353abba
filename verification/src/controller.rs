//! The adaptive sub-stepping controller.
//!
//! A frame's elapsed wall time is clamped into `[0, MAX_FRAME_NS]`, split
//! into a whole number of sub-steps of at most `MAX_STEP_NS` each, and the
//! Runge-Kutta stepper is run once per sub-step, so the explicit scheme
//! never takes a step above its stability bound however long a frame took.

use crate::pendulum::{ints, MAX_LINKS};
use crate::solver::{spec_step, step_rk4};
use vstd::prelude::*;

verus! {

/// Upper bound on the elapsed time one call integrates: 0.05 seconds.
pub const MAX_FRAME_NS: i64 = 50_000_000;

/// Upper bound on one Runge-Kutta step: 0.005 seconds.
pub const MAX_STEP_NS: i64 = 5_000_000;

/// The error of a call made with a link count the engine cannot hold.
#[derive(Clone, Copy, Debug, PartialEq, Eq, Structural)]
pub enum SimError {
    InvalidLinkCount,
}

/// Elapsed time clamped into `[0, MAX_FRAME_NS]`: a clock anomaly counts
/// as no time, a frame hitch as at most one twentieth of a second.
pub open spec fn spec_clamp_elapsed(elapsed: int) -> int {
    if elapsed < 0 {
        0
    } else if elapsed > MAX_FRAME_NS as int {
        MAX_FRAME_NS as int
    } else {
        elapsed
    }
}

/// How many sub-steps a positive span is split into: the span divided by
/// the step bound, rounded up.
pub open spec fn spec_step_count(span: int) -> int
    recommends
        span > 0,
{
    if span % (MAX_STEP_NS as int) == 0 {
        span / (MAX_STEP_NS as int)
    } else {
        span / (MAX_STEP_NS as int) + 1
    }
}

/// The size of each sub-step of a positive span.
pub open spec fn spec_substep(span: int) -> int
    recommends
        span > 0,
{
    span / spec_step_count(span)
}

/// The state after `k` Runge-Kutta steps of `dt` nanoseconds each.
pub open spec fn spec_advance_steps(
    lengths: Seq<int>,
    masses: Seq<int>,
    th: Seq<int>,
    om: Seq<int>,
    n: int,
    dt: int,
    k: nat,
) -> (Seq<int>, Seq<int>)
    decreases k,
{
    if k == 0 {
        (th, om)
    } else {
        let s: (Seq<int>, Seq<int>) = spec_step(lengths, masses, th, om, n, dt);
        spec_advance_steps(lengths, masses, s.0, s.1, n, dt, (k - 1) as nat)
    }
}

/// The state after integrating a span of nanoseconds with the sub-step
/// policy; a span of no time leaves the state alone.
pub open spec fn spec_integrate_span(
    lengths: Seq<int>,
    masses: Seq<int>,
    th: Seq<int>,
    om: Seq<int>,
    n: int,
    span: int,
) -> (Seq<int>, Seq<int>) {
    if span <= 0 {
        (th, om)
    } else {
        spec_advance_steps(
            lengths,
            masses,
            th,
            om,
            n,
            spec_substep(span),
            spec_step_count(span) as nat,
        )
    }
}

/// The state one frame later: the elapsed time is clamped first.
pub open spec fn spec_advance(
    lengths: Seq<int>,
    masses: Seq<int>,
    th: Seq<int>,
    om: Seq<int>,
    n: int,
    elapsed: int,
) -> (Seq<int>, Seq<int>) {
    spec_integrate_span(lengths, masses, th, om, n, spec_clamp_elapsed(elapsed))
}

/// Clamp a frame's elapsed nanoseconds into `[0, MAX_FRAME_NS]`.
pub fn clamp_elapsed(elapsed_ns: i64) -> (r: i64)
    ensures
        r as int == spec_clamp_elapsed(elapsed_ns as int),
        0 <= r <= MAX_FRAME_NS,
{
    if elapsed_ns < 0 {
        0
    } else if elapsed_ns > MAX_FRAME_NS {
        MAX_FRAME_NS
    } else {
        elapsed_ns
    }
}

/// The stability bound of the sub-step policy: a positive span always
/// splits into at least one sub-step, and no sub-step is ever longer than
/// `MAX_STEP_NS` (or shorter than a nanosecond), however long the span.
pub proof fn lemma_substep_bounds(span: int)
    requires
        span > 0,
    ensures
        1 <= spec_step_count(span) <= span,
        1 <= spec_substep(span) <= MAX_STEP_NS as int,
{
    let si: int = span;
    let m: int = MAX_STEP_NS as int;
    vstd::arithmetic::div_mod::lemma_div_pos_is_pos(si, m);
    vstd::arithmetic::div_mod::lemma_div_basics_5(si, m);
    vstd::arithmetic::div_mod::lemma_fundamental_div_mod(si, m);
    if si % m == 0 {
        // The count is s / m >= 1 because s is a positive multiple of m,
        // and then s / (s / m) == m exactly.
        assert(si == m * (si / m));
        assert(si / m >= 1) by {
            if si / m == 0 {
                assert(si == m * 0);
            }
        }
        vstd::arithmetic::div_mod::lemma_div_multiples_vanish(m, si / m);
        assert(((si / m) * m) as int / (si / m) == m);
        assert(si == (si / m) * m);
    } else {
        // The count is s / m + 1 and s < m * count, so each sub-step is
        // below m; it is at least one because the count is at most s.
        let st: int = si / m + 1;
        assert(si < m * st);
        vstd::arithmetic::div_mod::lemma_div_is_ordered(si, m * st - 1, st);
        vstd::arithmetic::div_mod::lemma_div_multiples_vanish(m, st);
        assert((st * m) as int / st == m);
        assert(m * st == st * m) by (nonlinear_arith);
        assert((m * st - 1) / st < m) by {
            vstd::arithmetic::div_mod::lemma_fundamental_div_mod(m * st - 1, st);
            if (m * st - 1) / st >= m {
                vstd::arithmetic::div_mod::lemma_div_is_ordered_by_denominator(m * st - 1, st, st);
                assert(st * ((m * st - 1) / st) <= m * st - 1 < st * ((m * st - 1) / st) + st);
                assert(st * ((m * st - 1) / st) >= st * m) by (nonlinear_arith)
                    requires
                        (m * st - 1) / st >= m,
                        st > 0,
                ;
            }
        }
        if si / m == 0 {
            assert(st == 1);
            vstd::arithmetic::div_mod::lemma_div_basics(si);
        } else {
            assert(st <= si) by {
                vstd::arithmetic::div_mod::lemma_div_is_ordered_by_denominator(si, 2, m);
                vstd::arithmetic::div_mod::lemma_div_is_ordered(2, si, 2);
                assert(si / m <= si / 2);
                assert(si / 2 + 1 <= si) by {
                    vstd::arithmetic::div_mod::lemma_fundamental_div_mod(si, 2);
                    vstd::arithmetic::div_mod::lemma_mod_bound(si, 2);
                }
            }
            vstd::arithmetic::div_mod::lemma_div_is_ordered_by_denominator(si, st, si);
            vstd::arithmetic::div_mod::lemma_div_basics(si);
        }
    }
}

/// Split a positive span into its sub-step count and sub-step size.
/// The count is at least one and each sub-step is between one nanosecond
/// and `MAX_STEP_NS`.
pub fn substep_plan(span_ns: i64) -> (r: (i64, i64))
    requires
        span_ns > 0,
    ensures
        r.0 as int == spec_step_count(span_ns as int),
        r.1 as int == spec_substep(span_ns as int),
        1 <= r.0,
        1 <= r.1 <= MAX_STEP_NS,
{
    let s: u64 = span_ns as u64;
    let q: u64 = s / (MAX_STEP_NS as u64);
    let rem: u64 = s % (MAX_STEP_NS as u64);
    let steps: u64 = if rem == 0 {
        q
    } else {
        q + 1
    };
    proof {
        lemma_substep_bounds(span_ns as int);
    }
    let sub: u64 = s / steps;
    (steps as i64, sub as i64)
}

/// One Runge-Kutta step reads only the first `n` entries of the state.
pub proof fn lemma_step_prefix(
    lengths: Seq<int>,
    masses: Seq<int>,
    th1: Seq<int>,
    om1: Seq<int>,
    th2: Seq<int>,
    om2: Seq<int>,
    n: int,
    dt: int,
)
    requires
        0 <= n,
        n <= th1.len(),
        n <= om1.len(),
        n <= th2.len(),
        n <= om2.len(),
        forall|i: int| 0 <= i < n ==> th1[i] == th2[i],
        forall|i: int| 0 <= i < n ==> om1[i] == om2[i],
    ensures
        spec_step(lengths, masses, th1, om1, n, dt) == spec_step(lengths, masses, th2, om2, n, dt),
{
    assert(crate::solver::spec_pack(th1, om1, n) =~= crate::solver::spec_pack(th2, om2, n));
    assert(spec_step(lengths, masses, th1, om1, n, dt).0 =~= spec_step(
        lengths,
        masses,
        th2,
        om2,
        n,
        dt,
    ).0);
    assert(spec_step(lengths, masses, th1, om1, n, dt).1 =~= spec_step(
        lengths,
        masses,
        th2,
        om2,
        n,
        dt,
    ).1);
}

/// Each state sequence keeps length `n` through any number of steps.
pub proof fn lemma_advance_steps_len(
    lengths: Seq<int>,
    masses: Seq<int>,
    th: Seq<int>,
    om: Seq<int>,
    n: int,
    dt: int,
    k: nat,
)
    requires
        0 <= n,
        th.len() == n,
        om.len() == n,
    ensures
        spec_advance_steps(lengths, masses, th, om, n, dt, k).0.len() == n,
        spec_advance_steps(lengths, masses, th, om, n, dt, k).1.len() == n,
    decreases k,
{
    if k != 0 {
        let s: (Seq<int>, Seq<int>) = spec_step(lengths, masses, th, om, n, dt);
        lemma_advance_steps_len(lengths, masses, s.0, s.1, n, dt, (k - 1) as nat);
    }
}

/// Peeling the last step off a run of `k + 1` equal steps.
pub proof fn lemma_advance_steps_snoc(
    lengths: Seq<int>,
    masses: Seq<int>,
    th: Seq<int>,
    om: Seq<int>,
    n: int,
    dt: int,
    k: nat,
)
    requires
        0 <= n,
        th.len() == n,
        om.len() == n,
    ensures
        ({
            let s = spec_advance_steps(lengths, masses, th, om, n, dt, k);
            spec_advance_steps(lengths, masses, th, om, n, dt, k + 1) == spec_step(
                lengths,
                masses,
                s.0,
                s.1,
                n,
                dt,
            )
        }),
    decreases k,
{
    let s1: (Seq<int>, Seq<int>) = spec_step(lengths, masses, th, om, n, dt);
    assert(spec_advance_steps(lengths, masses, th, om, n, dt, k + 1) == spec_advance_steps(
        lengths,
        masses,
        s1.0,
        s1.1,
        n,
        dt,
        k,
    ));
    if k != 0 {
        lemma_advance_steps_snoc(lengths, masses, s1.0, s1.1, n, dt, (k - 1) as nat);
        assert(spec_advance_steps(lengths, masses, th, om, n, dt, k) == spec_advance_steps(
            lengths,
            masses,
            s1.0,
            s1.1,
            n,
            dt,
            (k - 1) as nat,
        ));
    }
}

/// A run of `j + k` equal steps is a run of `j` followed by a run of `k`.
pub proof fn lemma_advance_steps_add(
    lengths: Seq<int>,
    masses: Seq<int>,
    th: Seq<int>,
    om: Seq<int>,
    n: int,
    dt: int,
    j: nat,
    k: nat,
)
    requires
        0 <= n,
        th.len() == n,
        om.len() == n,
    ensures
        ({
            let s = spec_advance_steps(lengths, masses, th, om, n, dt, j);
            spec_advance_steps(lengths, masses, th, om, n, dt, j + k) == spec_advance_steps(
                lengths,
                masses,
                s.0,
                s.1,
                n,
                dt,
                k,
            )
        }),
    decreases j,
{
    if j != 0 {
        let s1: (Seq<int>, Seq<int>) = spec_step(lengths, masses, th, om, n, dt);
        lemma_advance_steps_add(lengths, masses, s1.0, s1.1, n, dt, (j - 1) as nat, k);
    }
}

/// Integrate a span of nanoseconds without clamping: split it into
/// sub-steps and run the Runge-Kutta stepper once per sub-step.  A span of
/// no time (or a negative one) leaves the state alone.
#[verifier::loop_isolation(false)]
pub fn integrate_span(
    n: usize,
    lengths: &Vec<i64>,
    masses: &Vec<i64>,
    theta: &mut Vec<i64>,
    omega: &mut Vec<i64>,
    span_ns: i64,
    k1: &mut Vec<i64>,
    k2: &mut Vec<i64>,
    k3: &mut Vec<i64>,
    k4: &mut Vec<i64>,
)
    requires
        n <= MAX_LINKS,
        lengths@.len() >= n,
        masses@.len() >= n,
        old(theta)@.len() >= n,
        old(omega)@.len() >= n,
        old(k1)@.len() >= 2 * n,
        old(k2)@.len() >= 2 * n,
        old(k3)@.len() >= 2 * n,
        old(k4)@.len() >= 2 * n,
    ensures
        final(theta)@.len() == old(theta)@.len(),
        final(omega)@.len() == old(omega)@.len(),
        final(k1)@.len() == old(k1)@.len(),
        final(k2)@.len() == old(k2)@.len(),
        final(k3)@.len() == old(k3)@.len(),
        final(k4)@.len() == old(k4)@.len(),
        forall|i: int|
            0 <= i < n ==> final(theta)@[i] as int == spec_integrate_span(
                ints(lengths@),
                ints(masses@),
                ints(old(theta)@).take(n as int),
                ints(old(omega)@).take(n as int),
                n as int,
                span_ns as int,
            ).0[i],
        forall|i: int|
            0 <= i < n ==> final(omega)@[i] as int == spec_integrate_span(
                ints(lengths@),
                ints(masses@),
                ints(old(theta)@).take(n as int),
                ints(old(omega)@).take(n as int),
                n as int,
                span_ns as int,
            ).1[i],
        forall|i: int| n <= i < final(theta)@.len() ==> final(theta)@[i] == old(theta)@[i],
        forall|i: int| n <= i < final(omega)@.len() ==> final(omega)@[i] == old(omega)@[i],
{
    let ghost gl: Seq<int> = ints(lengths@);
    let ghost gm: Seq<int> = ints(masses@);
    let ghost gth: Seq<int> = ints(old(theta)@).take(n as int);
    let ghost gom: Seq<int> = ints(old(omega)@).take(n as int);
    if span_ns <= 0 {
        return ;
    }
    let plan: (i64, i64) = substep_plan(span_ns);
    let steps: i64 = plan.0;
    let sub: i64 = plan.1;
    let mut done: i64 = 0;
    while done < steps
        invariant
            0 <= done <= steps,
            theta@.len() == old(theta)@.len(),
            omega@.len() == old(omega)@.len(),
            k1@.len() == old(k1)@.len(),
            k2@.len() == old(k2)@.len(),
            k3@.len() == old(k3)@.len(),
            k4@.len() == old(k4)@.len(),
            forall|i: int|
                0 <= i < n ==> theta@[i] as int == spec_advance_steps(
                    gl,
                    gm,
                    gth,
                    gom,
                    n as int,
                    sub as int,
                    done as nat,
                ).0[i],
            forall|i: int|
                0 <= i < n ==> omega@[i] as int == spec_advance_steps(
                    gl,
                    gm,
                    gth,
                    gom,
                    n as int,
                    sub as int,
                    done as nat,
                ).1[i],
            forall|i: int| n <= i < theta@.len() ==> theta@[i] == old(theta)@[i],
            forall|i: int| n <= i < omega@.len() ==> omega@[i] == old(omega)@[i],
        decreases steps - done,
    {
        let ghost cur: (Seq<int>, Seq<int>) = spec_advance_steps(
            gl,
            gm,
            gth,
            gom,
            n as int,
            sub as int,
            done as nat,
        );
        let ghost prev_th: Seq<int> = ints(theta@);
        let ghost prev_om: Seq<int> = ints(omega@);
        step_rk4(n, lengths, masses, theta, omega, sub, k1, k2, k3, k4);
        proof {
            lemma_advance_steps_len(gl, gm, gth, gom, n as int, sub as int, done as nat);
            lemma_step_prefix(gl, gm, prev_th, prev_om, cur.0, cur.1, n as int, sub as int);
            lemma_advance_steps_snoc(gl, gm, gth, gom, n as int, sub as int, done as nat);
        }
        done = done + 1;
    }
}

/// Advance the chain by one frame: reject an impossible link count, clamp
/// the elapsed time, then integrate the clamped span in sub-steps.
pub fn advance(
    n: usize,
    lengths: &Vec<i64>,
    masses: &Vec<i64>,
    theta: &mut Vec<i64>,
    omega: &mut Vec<i64>,
    elapsed_ns: i64,
    k1: &mut Vec<i64>,
    k2: &mut Vec<i64>,
    k3: &mut Vec<i64>,
    k4: &mut Vec<i64>,
) -> (r: Result<(), SimError>)
    requires
        1 <= n <= MAX_LINKS ==> lengths@.len() >= n && masses@.len() >= n && old(theta)@.len() >= n
            && old(omega)@.len() >= n && old(k1)@.len() >= 2 * n && old(k2)@.len() >= 2 * n && old(
            k3,
        )@.len() >= 2 * n && old(k4)@.len() >= 2 * n,
    ensures
        r is Ok <==> 1 <= n <= MAX_LINKS,
        r is Err ==> final(theta)@ == old(theta)@ && final(omega)@ == old(omega)@,
        final(theta)@.len() == old(theta)@.len(),
        final(omega)@.len() == old(omega)@.len(),
        r is Ok ==> forall|i: int|
            0 <= i < n ==> final(theta)@[i] as int == spec_advance(
                ints(lengths@),
                ints(masses@),
                ints(old(theta)@).take(n as int),
                ints(old(omega)@).take(n as int),
                n as int,
                elapsed_ns as int,
            ).0[i],
        r is Ok ==> forall|i: int|
            0 <= i < n ==> final(omega)@[i] as int == spec_advance(
                ints(lengths@),
                ints(masses@),
                ints(old(theta)@).take(n as int),
                ints(old(omega)@).take(n as int),
                n as int,
                elapsed_ns as int,
            ).1[i],
        forall|i: int| n <= i < final(theta)@.len() ==> final(theta)@[i] == old(theta)@[i],
        forall|i: int| n <= i < final(omega)@.len() ==> final(omega)@[i] == old(omega)@[i],
{
    if n == 0 || n > MAX_LINKS {
        return Err(SimError::InvalidLinkCount);
    }
    let clamped: i64 = clamp_elapsed(elapsed_ns);
    integrate_span(n, lengths, masses, theta, omega, clamped, k1, k2, k3, k4);
    Ok(())
}

/// Put the chain back at its initial angles with no motion: angle `i`
/// becomes `initial_theta[i]` and every angular velocity becomes zero.
/// The host is expected to clear its history buffers alongside.
pub fn reset(
    n: usize,
    initial_theta: &Vec<i64>,
    theta: &mut Vec<i64>,
    omega: &mut Vec<i64>,
) -> (r: Result<(), SimError>)
    requires
        1 <= n <= MAX_LINKS ==> initial_theta@.len() >= n && old(theta)@.len() >= n && old(
            omega,
        )@.len() >= n,
    ensures
        r is Ok <==> 1 <= n <= MAX_LINKS,
        r is Err ==> final(theta)@ == old(theta)@ && final(omega)@ == old(omega)@,
        final(theta)@.len() == old(theta)@.len(),
        final(omega)@.len() == old(omega)@.len(),
        r is Ok ==> forall|i: int|
            0 <= i < n ==> final(theta)@[i] == initial_theta@[i] && final(omega)@[i] == 0i64,
        forall|i: int| n <= i < final(theta)@.len() ==> final(theta)@[i] == old(theta)@[i],
        forall|i: int| n <= i < final(omega)@.len() ==> final(omega)@[i] == old(omega)@[i],
{
    if n == 0 || n > MAX_LINKS {
        return Err(SimError::InvalidLinkCount);
    }
    let mut i: usize = 0;
    while i < n
        invariant
            i <= n,
            n <= MAX_LINKS,
            initial_theta@.len() >= n,
            theta@.len() == old(theta)@.len(),
            omega@.len() == old(omega)@.len(),
            theta@.len() >= n,
            omega@.len() >= n,
            forall|j: int| 0 <= j < i ==> theta@[j] == initial_theta@[j] && omega@[j] == 0i64,
            forall|j: int| i <= j < theta@.len() ==> theta@[j] == old(theta)@[j],
            forall|j: int| i <= j < omega@.len() ==> omega@[j] == old(omega)@[j],
        decreases n - i,
    {
        theta.set(i, initial_theta[i]);
        omega.set(i, 0);
        i = i + 1;
    }
    Ok(())
}

/// A run over a whole sequence of frame times, one `advance` per entry.
pub open spec fn spec_run(
    lengths: Seq<int>,
    masses: Seq<int>,
    th: Seq<int>,
    om: Seq<int>,
    n: int,
    elapsed: Seq<int>,
) -> (Seq<int>, Seq<int>)
    decreases elapsed.len(),
{
    if elapsed.len() == 0 {
        (th, om)
    } else {
        let s: (Seq<int>, Seq<int>) = spec_advance(lengths, masses, th, om, n, elapsed[0]);
        spec_run(lengths, masses, s.0, s.1, n, elapsed.drop_first())
    }
}

/// Determinism: two runs from equal parameters, equal initial state and an
/// equal sequence of frame times produce exactly the same trajectory.
pub proof fn lemma_run_deterministic(
    lengths1: Seq<int>,
    masses1: Seq<int>,
    th1: Seq<int>,
    om1: Seq<int>,
    n1: int,
    elapsed1: Seq<int>,
    lengths2: Seq<int>,
    masses2: Seq<int>,
    th2: Seq<int>,
    om2: Seq<int>,
    n2: int,
    elapsed2: Seq<int>,
)
    requires
        lengths1 == lengths2,
        masses1 == masses2,
        th1 == th2,
        om1 == om2,
        n1 == n2,
        elapsed1 == elapsed2,
    ensures
        spec_run(lengths1, masses1, th1, om1, n1, elapsed1) == spec_run(
            lengths2,
            masses2,
            th2,
            om2,
            n2,
            elapsed2,
        ),
{
}

/// Clamping: a frame of `MAX_FRAME_NS` or more nanoseconds integrates
/// exactly the clamped span and not a nanosecond more.
pub proof fn lemma_advance_clamps(
    lengths: Seq<int>,
    masses: Seq<int>,
    th: Seq<int>,
    om: Seq<int>,
    n: int,
    elapsed: int,
)
    requires
        elapsed >= MAX_FRAME_NS as int,
    ensures
        spec_advance(lengths, masses, th, om, n, elapsed) == spec_integrate_span(
            lengths,
            masses,
            th,
            om,
            n,
            MAX_FRAME_NS as int,
        ),
{
}

/// Sub-step invariance: a span that is a whole number of maximal sub-steps
/// integrates to exactly the same state whether it is handed over in one
/// piece or split anywhere at a sub-step boundary.
pub proof fn lemma_substep_invariance(
    lengths: Seq<int>,
    masses: Seq<int>,
    th: Seq<int>,
    om: Seq<int>,
    n: int,
    a: int,
    b: int,
)
    requires
        0 <= n,
        th.len() == n,
        om.len() == n,
        a >= 0,
        b >= 0,
        a % (MAX_STEP_NS as int) == 0,
        b % (MAX_STEP_NS as int) == 0,
    ensures
        ({
            let s = spec_integrate_span(lengths, masses, th, om, n, a);
            spec_integrate_span(lengths, masses, th, om, n, a + b) == spec_integrate_span(
                lengths,
                masses,
                s.0,
                s.1,
                n,
                b,
            )
        }),
{
    let m: int = MAX_STEP_NS as int;
    if a == 0 {
    } else if b == 0 {
    } else {
        let qa: int = a / m;
        let qb: int = b / m;
        vstd::arithmetic::div_mod::lemma_fundamental_div_mod(a, m);
        vstd::arithmetic::div_mod::lemma_fundamental_div_mod(b, m);
        assert(a == m * qa && b == m * qb);
        assert(qa >= 1 && qb >= 1) by {
            vstd::arithmetic::div_mod::lemma_div_pos_is_pos(a, m);
            vstd::arithmetic::div_mod::lemma_div_pos_is_pos(b, m);
            if qa == 0 {
                assert(a == m * 0);
            }
            if qb == 0 {
                assert(b == m * 0);
            }
        }
        // The three spans are exact multiples, so each splits into maximal
        // sub-steps: count a+b = qa + qb, count a = qa, count b = qb, and
        // every sub-step is exactly m.
        assert(a + b == (qa + qb) * m) by (nonlinear_arith)
            requires
                a == m * qa,
                b == m * qb,
        ;
        vstd::arithmetic::div_mod::lemma_mod_multiples_basic(qa + qb, m);
        vstd::arithmetic::div_mod::lemma_div_by_multiple(qa + qb, m);
        assert((a + b) % m == 0 && (a + b) / m == qa + qb);
        vstd::arithmetic::div_mod::lemma_div_multiples_vanish(m, qa + qb);
        assert(((qa + qb) * m) as int / (qa + qb) == m);
        assert(spec_substep(a + b) == m);
        vstd::arithmetic::div_mod::lemma_div_multiples_vanish(m, qa);
        assert((qa * m) as int / qa == m);
        assert(a == qa * m) by (nonlinear_arith)
            requires
                a == m * qa,
        ;
        assert(spec_substep(a) == m);
        vstd::arithmetic::div_mod::lemma_div_multiples_vanish(m, qb);
        assert((qb * m) as int / qb == m);
        assert(b == qb * m) by (nonlinear_arith)
            requires
                b == m * qb,
        ;
        assert(spec_substep(b) == m);
        lemma_advance_steps_add(lengths, masses, th, om, n, m, qa as nat, qb as nat);
    }
}

} // verus!
