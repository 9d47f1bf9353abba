//! Numerical behaviour of the chain dynamics: energy conservation, the
//! small-angle period, determinism, sub-step invariance, clamping and
//! degenerate links.

use pendulum_sim::controller::{advance, integrate_span, reset, substep_plan, SimError};
use pendulum_sim::fx::SCALE;
use pendulum_sim::pendulum::accelerations_impl;

fn to_f(x: i64) -> f64 {
    x as f64 / SCALE as f64
}

fn scratch() -> (Vec<i64>, Vec<i64>, Vec<i64>, Vec<i64>) {
    (vec![0; 14], vec![0; 14], vec![0; 14], vec![0; 14])
}

fn energy_single(theta: i64, omega: i64) -> f64 {
    // Unit length and mass: E = g (1 - cos theta) + omega^2 / 2.
    9.81 * (1.0 - to_f(theta).cos()) + 0.5 * to_f(omega) * to_f(omega)
}

#[test]
fn energy_stays_within_half_percent_over_thousand_steps() {
    let lengths: Vec<i64> = vec![SCALE];
    let masses: Vec<i64> = vec![SCALE];
    let mut theta: Vec<i64> = vec![300_000_000];
    let mut omega: Vec<i64> = vec![0];
    let (mut k1, mut k2, mut k3, mut k4) = scratch();
    let e0 = energy_single(theta[0], omega[0]);
    // One span of five seconds splits into exactly 1000 steps of 5 ms.
    integrate_span(
        1,
        &lengths,
        &masses,
        &mut theta,
        &mut omega,
        5_000_000_000,
        &mut k1,
        &mut k2,
        &mut k3,
        &mut k4,
    );
    let e1 = energy_single(theta[0], omega[0]);
    assert!((e1 - e0).abs() <= 0.005 * e0, "energy drifted: {e0} -> {e1}");
}

#[test]
fn small_angle_period_matches_analytic_value() {
    let lengths: Vec<i64> = vec![SCALE];
    let masses: Vec<i64> = vec![SCALE];
    let mut theta: Vec<i64> = vec![50_000_000];
    let mut omega: Vec<i64> = vec![0];
    let (mut k1, mut k2, mut k3, mut k4) = scratch();
    let mut crossings: Vec<f64> = Vec::new();
    let mut prev = theta[0];
    // Ten seconds of simulated time in 5 ms steps.
    for step in 0..2000u64 {
        integrate_span(
            1,
            &lengths,
            &masses,
            &mut theta,
            &mut omega,
            5_000_000,
            &mut k1,
            &mut k2,
            &mut k3,
            &mut k4,
        );
        let cur = theta[0];
        if (prev < 0) != (cur < 0) && prev != cur {
            let t0 = step as f64 * 0.005;
            let frac = to_f(prev).abs() / (to_f(prev).abs() + to_f(cur).abs());
            crossings.push(t0 + frac * 0.005);
        }
        prev = cur;
    }
    assert!(crossings.len() >= 4, "too few zero crossings");
    let first = crossings[0];
    let last = crossings[crossings.len() - 1];
    // Consecutive crossings are half periods apart.
    let period = 2.0 * (last - first) / (crossings.len() - 1) as f64;
    let analytic = 2.0 * std::f64::consts::PI * (1.0f64 / 9.81).sqrt();
    assert!(
        (period - analytic).abs() <= 0.02 * analytic,
        "period {period} vs analytic {analytic}"
    );
}

#[test]
fn identical_runs_are_bit_identical() {
    let lengths: Vec<i64> = vec![SCALE, 1_500_000_000, 800_000_000];
    let masses: Vec<i64> = vec![SCALE, 700_000_000, 1_200_000_000];
    let elapsed = [16_666_667i64, 33_000_000, 5_000_000, 49_999_999, 1];
    let mut run = |_tag: u32| -> (Vec<i64>, Vec<i64>) {
        let mut theta: Vec<i64> = vec![700_000_000, 400_000_000, -300_000_000];
        let mut omega: Vec<i64> = vec![0, 0, 0];
        let (mut k1, mut k2, mut k3, mut k4) = scratch();
        for &e in elapsed.iter() {
            advance(
                3,
                &lengths,
                &masses,
                &mut theta,
                &mut omega,
                e,
                &mut k1,
                &mut k2,
                &mut k3,
                &mut k4,
            )
            .unwrap();
        }
        (theta, omega)
    };
    let a = run(0);
    let b = run(1);
    assert_eq!(a, b);
}

#[test]
fn one_second_in_one_span_equals_ten_tenths() {
    let lengths: Vec<i64> = vec![SCALE, SCALE];
    let masses: Vec<i64> = vec![SCALE, SCALE];
    let mut theta_a: Vec<i64> = vec![300_000_000, -200_000_000];
    let mut omega_a: Vec<i64> = vec![0, 100_000_000];
    let mut theta_b = theta_a.clone();
    let mut omega_b = omega_a.clone();
    let (mut k1, mut k2, mut k3, mut k4) = scratch();
    integrate_span(
        2,
        &lengths,
        &masses,
        &mut theta_a,
        &mut omega_a,
        1_000_000_000,
        &mut k1,
        &mut k2,
        &mut k3,
        &mut k4,
    );
    for _ in 0..10 {
        integrate_span(
            2,
            &lengths,
            &masses,
            &mut theta_b,
            &mut omega_b,
            100_000_000,
            &mut k1,
            &mut k2,
            &mut k3,
            &mut k4,
        );
    }
    assert_eq!(theta_a, theta_b);
    assert_eq!(omega_a, omega_b);
}

#[test]
fn huge_elapsed_time_integrates_only_the_clamped_span() {
    let lengths: Vec<i64> = vec![SCALE];
    let masses: Vec<i64> = vec![SCALE];
    let mut theta_a: Vec<i64> = vec![300_000_000];
    let mut omega_a: Vec<i64> = vec![0];
    let mut theta_b = theta_a.clone();
    let mut omega_b = omega_a.clone();
    let mut theta_c = theta_a.clone();
    let mut omega_c = omega_a.clone();
    let (mut k1, mut k2, mut k3, mut k4) = scratch();
    // Ten seconds of wall time...
    advance(
        1,
        &lengths,
        &masses,
        &mut theta_a,
        &mut omega_a,
        10_000_000_000,
        &mut k1,
        &mut k2,
        &mut k3,
        &mut k4,
    )
    .unwrap();
    // ... behaves exactly like 0.05 s of wall time ...
    advance(
        1,
        &lengths,
        &masses,
        &mut theta_b,
        &mut omega_b,
        50_000_000,
        &mut k1,
        &mut k2,
        &mut k3,
        &mut k4,
    )
    .unwrap();
    // ... which is an unclamped span of 0.05 s.
    integrate_span(
        1,
        &lengths,
        &masses,
        &mut theta_c,
        &mut omega_c,
        50_000_000,
        &mut k1,
        &mut k2,
        &mut k3,
        &mut k4,
    );
    assert_eq!(theta_a, theta_b);
    assert_eq!(omega_a, omega_b);
    assert_eq!(theta_a, theta_c);
    assert_eq!(omega_a, omega_c);
    // And it moved the pendulum far less than ten real seconds would have.
    assert!((to_f(theta_a[0]) - 0.3).abs() < 0.02);
}

#[test]
fn negative_elapsed_time_integrates_nothing() {
    let lengths: Vec<i64> = vec![SCALE];
    let masses: Vec<i64> = vec![SCALE];
    let mut theta: Vec<i64> = vec![300_000_000];
    let mut omega: Vec<i64> = vec![42];
    let (mut k1, mut k2, mut k3, mut k4) = scratch();
    advance(
        1,
        &lengths,
        &masses,
        &mut theta,
        &mut omega,
        -5,
        &mut k1,
        &mut k2,
        &mut k3,
        &mut k4,
    )
    .unwrap();
    assert_eq!(theta, vec![300_000_000]);
    assert_eq!(omega, vec![42]);
}

#[test]
fn degenerate_mass_keeps_its_link_still() {
    let lengths: Vec<i64> = vec![SCALE, SCALE];
    let masses: Vec<i64> = vec![SCALE, 0];
    let mut theta: Vec<i64> = vec![300_000_000, 100_000_000];
    let mut omega: Vec<i64> = vec![0, 0];
    let (mut k1, mut k2, mut k3, mut k4) = scratch();
    for _ in 0..200 {
        integrate_span(
            2,
            &lengths,
            &masses,
            &mut theta,
            &mut omega,
            5_000_000,
            &mut k1,
            &mut k2,
            &mut k3,
            &mut k4,
        );
    }
    // The massless link never accelerates, so from rest it never moves.
    assert_eq!(theta[1], 100_000_000);
    assert_eq!(omega[1], 0);
    // The healthy link does move.
    assert_ne!(theta[0], 300_000_000);
}

#[test]
fn degenerate_length_gives_zero_acceleration() {
    let lengths: Vec<i64> = vec![SCALE, 0];
    let masses: Vec<i64> = vec![SCALE, SCALE];
    let thetas: Vec<i64> = vec![300_000_000, 900_000_000];
    let mut out: Vec<i64> = vec![7, 7];
    accelerations_impl(2, &lengths, &masses, &thetas, &mut out);
    assert_eq!(out[1], 0);
    assert_ne!(out[0], 0);
}

#[test]
fn acceleration_at_rest_at_bottom_is_zero() {
    let lengths: Vec<i64> = vec![SCALE];
    let masses: Vec<i64> = vec![SCALE];
    let thetas: Vec<i64> = vec![0];
    let mut out: Vec<i64> = vec![7];
    accelerations_impl(1, &lengths, &masses, &thetas, &mut out);
    assert_eq!(out[0], 0);
}

#[test]
fn substep_plan_splits_exactly() {
    assert_eq!(substep_plan(50_000_000), (10, 5_000_000));
    assert_eq!(substep_plan(5_000_000), (1, 5_000_000));
    assert_eq!(substep_plan(7_000_000), (2, 3_500_000));
    assert_eq!(substep_plan(1), (1, 1));
    assert_eq!(substep_plan(16_666_667), (4, 4_166_666));
}

#[test]
fn invalid_link_counts_are_rejected() {
    let lengths: Vec<i64> = vec![SCALE];
    let masses: Vec<i64> = vec![SCALE];
    let mut theta: Vec<i64> = vec![1];
    let mut omega: Vec<i64> = vec![2];
    let (mut k1, mut k2, mut k3, mut k4) = scratch();
    let r = advance(
        0,
        &lengths,
        &masses,
        &mut theta,
        &mut omega,
        1_000_000,
        &mut k1,
        &mut k2,
        &mut k3,
        &mut k4,
    );
    assert_eq!(r, Err(SimError::InvalidLinkCount));
    let r = advance(
        8,
        &lengths,
        &masses,
        &mut theta,
        &mut omega,
        1_000_000,
        &mut k1,
        &mut k2,
        &mut k3,
        &mut k4,
    );
    assert_eq!(r, Err(SimError::InvalidLinkCount));
    assert_eq!(reset(0, &lengths, &mut theta, &mut omega), Err(SimError::InvalidLinkCount));
    assert_eq!(theta, vec![1]);
    assert_eq!(omega, vec![2]);
}

#[test]
fn reset_restores_initial_angles_and_stills_motion() {
    let init: Vec<i64> = vec![700_000_000, -400_000_000];
    let mut theta: Vec<i64> = vec![1, 2];
    let mut omega: Vec<i64> = vec![3, 4];
    reset(2, &init, &mut theta, &mut omega).unwrap();
    assert_eq!(theta, init);
    assert_eq!(omega, vec![0, 0]);
}
