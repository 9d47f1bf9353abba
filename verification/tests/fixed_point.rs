//! The fixed-point substrate: saturation, truncation toward zero, and the
//! packed derivative layout.

use pendulum_sim::fx::{div_i64, fx_add, fx_div, fx_mul, fx_neg, fx_sub, SCALE};
use pendulum_sim::pendulum::deriv_impl;
use pendulum_sim::solver::step_rk4;

#[test]
fn sums_and_negation_saturate_at_the_i64_range() {
    assert_eq!(fx_add(i64::MAX, 1), i64::MAX);
    assert_eq!(fx_add(i64::MIN, -1), i64::MIN);
    assert_eq!(fx_sub(i64::MIN, 1), i64::MIN);
    assert_eq!(fx_neg(i64::MIN), i64::MAX);
    assert_eq!(fx_mul(i64::MAX, i64::MAX), i64::MAX);
    assert_eq!(fx_mul(i64::MAX, i64::MIN), i64::MIN);
}

#[test]
fn products_and_quotients_truncate_toward_zero() {
    assert_eq!(fx_mul(3_000_000_000, 2_000_000_000), 6_000_000_000);
    // -1e-9 * 1e-9 rounds to zero, not toward negative infinity.
    assert_eq!(fx_mul(-1, 1), 0);
    assert_eq!(fx_div(SCALE, 3_000_000_000), 333_333_333);
    assert_eq!(fx_div(-SCALE, 3_000_000_000), -333_333_333);
    assert_eq!(div_i64(-7, 2), -3);
    assert_eq!(div_i64(7, 2), 3);
}

#[test]
fn derivative_interleaves_velocity_and_acceleration() {
    let lengths: Vec<i64> = vec![SCALE];
    let masses: Vec<i64> = vec![SCALE];
    // Packed state [angle, velocity] with the pendulum at the bottom.
    let y: Vec<i64> = vec![0, 123];
    let mut out: Vec<i64> = vec![7, 7, 99];
    deriv_impl(1, &lengths, &masses, &y, &mut out);
    // The angle slot moves by the velocity; at the bottom the velocity
    // slot does not accelerate; slots past 2n are untouched.
    assert_eq!(out, vec![123, 0, 99]);
}

#[test]
fn a_step_at_the_bottom_moves_the_angle_linearly() {
    let lengths: Vec<i64> = vec![SCALE];
    let masses: Vec<i64> = vec![SCALE];
    let mut theta: Vec<i64> = vec![0];
    let mut omega: Vec<i64> = vec![SCALE];
    let mut k1: Vec<i64> = vec![0; 2];
    let mut k2: Vec<i64> = vec![0; 2];
    let mut k3: Vec<i64> = vec![0; 2];
    let mut k4: Vec<i64> = vec![0; 2];
    step_rk4(
        1, &lengths, &masses, &mut theta, &mut omega, 5_000_000, &mut k1, &mut k2, &mut k3,
        &mut k4,
    );
    // With omega = 1 rad/s the angle grows by about dt; the higher-order
    // stages pull it slightly back as the pendulum starts restoring.
    assert!(theta[0] > 4_990_000 && theta[0] <= 5_000_000, "theta {}", theta[0]);
    // Gravity decelerates the swing away from the bottom.
    assert!(omega[0] < SCALE);
}
