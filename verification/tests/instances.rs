//! The three simulation instances: the chain, the single damped
//! pendulum, and the wave display.

use pendulum_sim::fx::{cos_fx, sin_fx, HALF_PI_FX, PI_FX, SCALE};
use pendulum_sim::npendulum::NPendulumApp;
use pendulum_sim::plots::PlotKind;
use pendulum_sim::single::PendulumApp;
use pendulum_sim::wave::{PendulumSimulation, PendulumWaveApp, QUARTER_PI_FX};

fn to_f(x: i64) -> f64 {
    x as f64 / SCALE as f64
}

#[test]
fn sine_is_exact_at_zero_and_odd() {
    assert_eq!(sin_fx(0), 0);
    for &x in &[1i64, 50_000_000, 300_000_000, 1_570_796_327, 3_000_000_000, 7_000_000_000] {
        assert_eq!(sin_fx(-x), -sin_fx(x));
    }
}

#[test]
fn sine_and_cosine_track_the_real_functions() {
    for i in -20i64..=20 {
        let x = i * 500_000_000;
        assert!((to_f(sin_fx(x)) - to_f(x).sin()).abs() < 1e-6);
        assert!((to_f(cos_fx(x)) - to_f(x).cos()).abs() < 1e-6);
    }
    assert!((to_f(sin_fx(HALF_PI_FX)) - 1.0).abs() < 1e-6);
    assert!(to_f(sin_fx(PI_FX)).abs() < 1e-6);
}

#[test]
fn chain_advance_records_one_sample_per_substep() {
    let mut app = NPendulumApp::default();
    assert_eq!(app.n, 3);
    // A sixtieth of a second splits into four sub-steps of 4166666 ns.
    app.advance(16_666_667);
    assert_eq!(app.time_ns, 4 * 4_166_666);
    for i in 0..3usize {
        assert_eq!(app.histories[i].len(), 4);
        assert_eq!(app.histories[i].get(0).0, 4_166_666);
        assert_eq!(app.histories[i].get(3).0, 4 * 4_166_666);
    }
    // A frame of no time integrates nothing and records nothing.
    app.advance(0);
    assert_eq!(app.histories[0].len(), 4);
    assert_eq!(app.time_ns, 4 * 4_166_666);
}

#[test]
fn chain_reset_restores_pose_and_clears_histories() {
    let mut app = NPendulumApp::default();
    app.advance(50_000_000);
    assert_ne!(app.theta[0], 700_000_000);
    assert!(app.histories[0].len() > 0);
    let t = app.time_ns;
    app.reset_state();
    assert_eq!(app.theta[0], 700_000_000);
    assert_eq!(app.theta[1], 400_000_000);
    assert_eq!(app.theta[2], -300_000_000);
    assert_eq!(app.omega, vec![0; 7]);
    assert_eq!(app.histories[0].len(), 0);
    // The sample clock keeps running so timestamps stay monotone.
    assert_eq!(app.time_ns, t);
}

#[test]
fn chain_runs_are_deterministic() {
    let mut a = NPendulumApp::default();
    let mut b = NPendulumApp::default();
    for _ in 0..30 {
        a.advance(16_666_667);
        b.advance(16_666_667);
    }
    assert_eq!(a.theta, b.theta);
    assert_eq!(a.omega, b.omega);
    assert_eq!(a.time_ns, b.time_ns);
}

#[test]
fn chain_rejects_bad_link_counts() {
    let mut app = NPendulumApp::default();
    assert!(app.set_links(0).is_err());
    assert_eq!(app.n, 3);
    assert!(app.set_links(8).is_err());
    assert_eq!(app.n, 3);
    assert!(app.set_links(7).is_ok());
    assert_eq!(app.n, 7);
}

#[test]
fn single_pendulum_energy_is_exact_at_the_bottom() {
    let mut app = PendulumApp::default();
    app.theta = 0;
    app.omega = SCALE;
    let (potential, kinetic, total) = app.calculate_energy();
    // Kinetic: m/2 * (l*omega)^2 = 0.5 exactly in fixed point.
    assert_eq!(kinetic, 500_000_000);
    // Potential: g*(1 - cos 0), zero up to the sine polynomial's rounding
    // (the fixed-point cosine of zero is 56 billionths under one).
    assert_eq!(potential, 549);
    assert_eq!(total, potential + kinetic);
}

#[test]
fn single_pendulum_paused_frame_only_clamps() {
    let mut app = PendulumApp::default();
    app.length = 0;
    app.gravity = 1_000_000_000_000;
    let theta0 = app.theta;
    app.advance(16_666_667);
    assert_eq!(app.length, 100_000_000);
    assert_eq!(app.gravity, 20_000_000_000);
    assert_eq!(app.theta, theta0);
    assert_eq!(app.history.len(), 0);
}

#[test]
fn single_pendulum_advances_and_samples_when_running() {
    let mut app = PendulumApp::default();
    app.running = true;
    let theta0 = app.theta;
    app.advance(16_666_667);
    assert_ne!(app.theta, theta0);
    assert_eq!(app.history.len(), 1);
    assert_eq!(app.history[0].0, app.time_ns);
    // The sampled angle is reported in degrees.
    let deg = to_f(app.history[0].1);
    assert!((deg - to_f(app.theta).to_degrees()).abs() < 1e-5);
}

#[test]
fn single_pendulum_swings_toward_the_bottom() {
    let mut app = PendulumApp::default();
    app.running = true;
    // From a positive angle at rest, gravity pulls the angle down.
    for _ in 0..30 {
        app.advance(16_666_667);
    }
    assert!(app.theta < 350_000_000);
    assert!(app.omega < 0);
}

#[test]
fn applying_a_preset_sets_state_and_parameters() {
    let mut app = PendulumApp::default();
    app.omega = 55;
    app.apply_preset(1);
    assert_eq!(app.drag, 450_000_000);
    assert_eq!(app.mass, SCALE);
    // 30 degrees in fixed-point radians.
    assert_eq!(app.initial_theta, 523_598_790);
    assert_eq!(app.theta, 523_598_790);
    assert_eq!(app.omega, 0);
    assert_eq!(app.current_preset, 1);
    // An index past the presets changes nothing.
    let before = app.theta;
    app.apply_preset(9);
    assert_eq!(app.theta, before);
    assert_eq!(app.current_preset, 1);
}

#[test]
fn full_history_drops_oldest_when_auto_clearing() {
    let mut app = PendulumApp::default();
    for i in 0..4097i64 {
        app.push_history(i);
    }
    assert_eq!(app.history.len(), 4096);
    assert_eq!(app.history[0].0, 1);
    assert_eq!(app.history[4095].0, 4096);
    assert_eq!(app.selected_plot, PlotKind::Angle);
}

#[test]
fn wave_default_lengths_and_periods_grow() {
    let sim = PendulumSimulation::default();
    assert_eq!(sim.pendulums.len(), 9);
    assert_eq!(sim.pendulums[0].length, 1_000_000_000);
    assert_eq!(sim.pendulums[8].length, 1_800_000_000);
    assert_eq!(sim.pendulums[0].period, 2_000_000_000);
    assert_eq!(sim.pendulums[8].period, 3_600_000_000);
    assert_eq!(sim.pendulums[0].angle, HALF_PI_FX);
}

#[test]
fn wave_update_damps_and_moves() {
    let mut sim = PendulumSimulation::default();
    // A zero-time update at rest changes nothing.
    sim.update(0);
    assert_eq!(sim.pendulums[0].angle, HALF_PI_FX);
    assert_eq!(sim.pendulums[0].angular_velocity, 0);
    assert_eq!(sim.time, 0);
    // A real step pulls every pendulum toward the bottom.
    sim.update(5_000_000);
    assert_eq!(sim.time, 5_000_000);
    for p in sim.pendulums.iter() {
        assert!(p.angle < HALF_PI_FX);
        assert!(p.angular_velocity < 0);
    }
}

#[test]
fn wave_reset_returns_to_a_quarter_turn() {
    let mut sim = PendulumSimulation::default();
    sim.update(5_000_000);
    sim.reset();
    assert_eq!(sim.time, 0);
    for p in sim.pendulums.iter() {
        assert_eq!(p.angle, QUARTER_PI_FX);
        assert_eq!(p.angular_velocity, 0);
    }
}

#[test]
fn wave_app_skips_first_frame_and_pauses() {
    let mut app = PendulumWaveApp::default();
    // The first frame only records the clock.
    app.update_simulation(1_000_000_000);
    assert_eq!(app.simulation.pendulums[0].angle, HALF_PI_FX);
    assert_eq!(app.last_update, Some(1_000_000_000));
    // The second frame advances by the difference.
    app.update_simulation(1_005_000_000);
    assert!(app.simulation.pendulums[0].angle < HALF_PI_FX);
    // Paused frames change nothing at all.
    app.paused = true;
    let angle = app.simulation.pendulums[0].angle;
    app.update_simulation(2_000_000_000);
    assert_eq!(app.simulation.pendulums[0].angle, angle);
    assert_eq!(app.last_update, Some(1_005_000_000));
}
