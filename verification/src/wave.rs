//! The pendulum-wave display model: a row of uncoupled pendulums of
//! slightly different lengths, stepped by damped explicit Euler, whose
//! differing periods make a travelling wave for the viewer.

use crate::fx::{
    div_i64, fx_add, fx_div, fx_mul, fx_neg, fx_sub, sin_fx, spec_abs, spec_div_trunc,
    spec_fx_add, spec_fx_div, spec_fx_mul, spec_fx_neg, spec_fx_sub, spec_sat, spec_sin,
    HALF_PI_FX, SCALE,
};
use vstd::pervasive::VecAdditionalExecFns;
use vstd::prelude::*;

verus! {

/// Gravity used by the wave model: 9.8 metres per square second.
pub const WAVE_GRAVITY_FX: i64 = 9_800_000_000;

/// Fraction of angular velocity kept each step: 0.9999.
pub const WAVE_DAMPING_FX: i64 = 999_900_000;

/// A quarter turn, pi/4, in fixed-point radians.
pub const QUARTER_PI_FX: i64 = 785_398_163;

/// One pendulum of the wave: its dynamics state plus the display period
/// the host uses for labelling.
#[derive(Clone, Copy, PartialEq, Eq, Structural)]
pub struct Pendulum {
    pub length: i64,
    pub angle: i64,
    pub angular_velocity: i64,
    pub period: i64,
}

/// The sine as the wave model evaluates it: the cubic Taylor shortcut
/// `a - a^3/6` below half a radian, the full sine otherwise.
pub open spec fn spec_wave_sin(a: int) -> int {
    if spec_abs(a) < 500_000_000 {
        spec_fx_sub(a, spec_div_trunc(spec_fx_mul(spec_fx_mul(a, a), a), 6))
    } else {
        spec_sin(a)
    }
}

/// One damped explicit-Euler step of `dt` nanoseconds: the velocity takes
/// the gravitational acceleration, the angle takes the new velocity, and
/// the velocity is then damped.
pub open spec fn spec_wave_step(p: Pendulum, dt: int) -> Pendulum
    recommends
        p.length != 0,
{
    let accel: int = spec_fx_neg(
        spec_fx_mul(
            spec_fx_div(WAVE_GRAVITY_FX as int, p.length as int),
            spec_wave_sin(p.angle as int),
        ),
    );
    let om1: int = spec_fx_add(p.angular_velocity as int, spec_fx_mul(accel, dt));
    let th1: int = spec_fx_add(p.angle as int, spec_fx_mul(om1, dt));
    let om2: int = spec_fx_mul(om1, WAVE_DAMPING_FX as int);
    Pendulum { length: p.length, angle: th1 as i64, angular_velocity: om2 as i64, period: p.period }
}

fn wave_sin(a: i64) -> (r: i64)
    ensures
        r as int == spec_wave_sin(a as int),
{
    let small: bool = if a >= 0 {
        a < 500_000_000
    } else {
        a > -500_000_000
    };
    if small {
        fx_sub(a, div_i64(fx_mul(fx_mul(a, a), a), 6))
    } else {
        sin_fx(a)
    }
}

fn step_pendulum(p: Pendulum, dt: i64) -> (r: Pendulum)
    requires
        p.length != 0,
    ensures
        r == spec_wave_step(p, dt as int),
{
    let accel: i64 = fx_neg(fx_mul(fx_div(WAVE_GRAVITY_FX, p.length), wave_sin(p.angle)));
    let om1: i64 = fx_add(p.angular_velocity, fx_mul(accel, dt));
    let th1: i64 = fx_add(p.angle, fx_mul(om1, dt));
    let om2: i64 = fx_mul(om1, WAVE_DAMPING_FX);
    Pendulum { length: p.length, angle: th1, angular_velocity: om2, period: p.period }
}

/// The whole wave: its pendulums and the accumulated display time.
pub struct PendulumSimulation {
    pub pendulums: Vec<Pendulum>,
    /// Nanoseconds of accumulated display time.
    pub time: i64,
}

impl PendulumSimulation {
    /// Well-formed: no pendulum's length rounds to zero, so the torque
    /// division is always defined.
    pub open spec fn wf(&self) -> bool {
        forall|i: int|
            0 <= i < self.pendulums@.len() ==> (#[trigger] self.pendulums@[i]).length != 0
    }

    /// Advance every pendulum by `delta_ns` and accumulate the time.
    pub fn update(&mut self, delta_ns: i64)
        requires
            old(self).wf(),
        ensures
            final(self).wf(),
            final(self).time as int == spec_sat(old(self).time + delta_ns),
            final(self).pendulums@.len() == old(self).pendulums@.len(),
            forall|i: int|
                0 <= i < old(self).pendulums@.len() ==> final(self).pendulums@[i]
                    == spec_wave_step(old(self).pendulums@[i], delta_ns as int),
    {
        self.time = fx_add(self.time, delta_ns);
        let total: usize = self.pendulums.len();
        let mut i: usize = 0;
        while i < total
            invariant
                i <= total,
                total == old(self).pendulums@.len(),
                self.time as int == spec_sat(old(self).time + delta_ns),
                self.pendulums@.len() == total,
                forall|j: int|
                    0 <= j < i ==> self.pendulums@[j] == spec_wave_step(
                        old(self).pendulums@[j],
                        delta_ns as int,
                    ),
                forall|j: int|
                    i <= j < total ==> self.pendulums@[j] == old(self).pendulums@[j],
                old(self).wf(),
            decreases total - i,
        {
            let p: Pendulum = self.pendulums[i];
            let np: Pendulum = step_pendulum(p, delta_ns);
            self.pendulums.set(i, np);
            i = i + 1;
        }
    }

    /// Put every pendulum back at a quarter turn with no motion and zero
    /// the display time.
    pub fn reset(&mut self)
        requires
            old(self).wf(),
        ensures
            final(self).wf(),
            final(self).time == 0i64,
            final(self).pendulums@.len() == old(self).pendulums@.len(),
            forall|i: int|
                0 <= i < old(self).pendulums@.len() ==> final(self).pendulums@[i] == (Pendulum {
                    angle: QUARTER_PI_FX,
                    angular_velocity: 0i64,
                    ..old(self).pendulums@[i]
                }),
    {
        self.time = 0;
        let total: usize = self.pendulums.len();
        let mut i: usize = 0;
        while i < total
            invariant
                i <= total,
                total == old(self).pendulums@.len(),
                self.time == 0i64,
                self.pendulums@.len() == total,
                forall|j: int|
                    0 <= j < i ==> self.pendulums@[j] == (Pendulum {
                        angle: QUARTER_PI_FX,
                        angular_velocity: 0i64,
                        ..old(self).pendulums@[j]
                    }),
                forall|j: int|
                    i <= j < total ==> self.pendulums@[j] == old(self).pendulums@[j],
                old(self).wf(),
            decreases total - i,
        {
            let p: Pendulum = self.pendulums[i];
            self.pendulums.set(
                i,
                Pendulum { length: p.length, angle: QUARTER_PI_FX, angular_velocity: 0, period: p.period },
            );
            i = i + 1;
        }
    }
}

impl Default for PendulumSimulation {
    /// Nine pendulums at a right angle, at rest: lengths grow by a tenth
    /// of a metre each, display periods by a fifth of a second.
    fn default() -> (s: Self)
        ensures
            s.wf(),
            s.time == 0i64,
            s.pendulums@.len() == 9,
            forall|i: int|
                0 <= i < 9 ==> s.pendulums@[i] == (Pendulum {
                    length: (1_000_000_000 + i * 100_000_000) as i64,
                    angle: HALF_PI_FX,
                    angular_velocity: 0i64,
                    period: (2_000_000_000 + i * 200_000_000) as i64,
                }),
    {
        let mut pendulums: Vec<Pendulum> = Vec::new();
        let mut i: usize = 0;
        while i < 9
            invariant
                i <= 9,
                pendulums@.len() == i,
                forall|j: int|
                    0 <= j < i ==> pendulums@[j] == (Pendulum {
                        length: (1_000_000_000 + j * 100_000_000) as i64,
                        angle: HALF_PI_FX,
                        angular_velocity: 0i64,
                        period: (2_000_000_000 + j * 200_000_000) as i64,
                    }),
            decreases 9 - i,
        {
            let length: i64 = SCALE + (i as i64) * 100_000_000;
            let period: i64 = 2_000_000_000 + (i as i64) * 200_000_000;
            pendulums.push(
                Pendulum { length, angle: HALF_PI_FX, angular_velocity: 0, period },
            );
            i = i + 1;
        }
        PendulumSimulation { pendulums, time: 0 }
    }
}

/// The wave host's decision layer: pause state and frame timing.
pub struct PendulumWaveApp {
    pub simulation: PendulumSimulation,
    pub paused: bool,
    /// The clock reading of the previous frame, if one has happened.
    pub last_update: Option<i64>,
}

impl PendulumWaveApp {
    /// One frame at clock reading `current_time_ns`: paused, nothing
    /// happens; otherwise the wave advances by the time since the last
    /// frame (none on the first frame) and the clock reading is kept.
    pub fn update_simulation(&mut self, current_time_ns: i64)
        requires
            old(self).simulation.wf(),
        ensures
            final(self).simulation.wf(),
            final(self).paused == old(self).paused,
            old(self).paused ==> *final(self) == *old(self),
            !old(self).paused ==> final(self).last_update == Some(current_time_ns),
            !old(self).paused && old(self).last_update is None
                ==> final(self).simulation == old(self).simulation,
            ({
                match old(self).last_update {
                    Option::None => true,
                    Option::Some(last) => !old(self).paused ==> {
                        let delta = spec_fx_sub(current_time_ns as int, last as int);
                        &&& final(self).simulation.time as int == spec_sat(
                            old(self).simulation.time + delta,
                        )
                        &&& final(self).simulation.pendulums@.len() == old(
                            self,
                        ).simulation.pendulums@.len()
                        &&& forall|i: int|
                            0 <= i < old(self).simulation.pendulums@.len()
                                ==> final(self).simulation.pendulums@[i] == spec_wave_step(
                                old(self).simulation.pendulums@[i],
                                delta,
                            )
                    },
                }
            }),
    {
        if self.paused {
            return ;
        }
        if let Option::Some(last) = self.last_update {
            let delta: i64 = fx_sub(current_time_ns, last);
            self.simulation.update(delta);
        }
        self.last_update = Some(current_time_ns);
    }
}

impl Default for PendulumWaveApp {
    /// A fresh wave, not paused, with no frame seen yet.
    fn default() -> (s: Self)
        ensures
            s.simulation.wf(),
            !s.paused,
            s.last_update is None,
            s.simulation.time == 0i64,
            s.simulation.pendulums@.len() == 9,
    {
        PendulumWaveApp { simulation: PendulumSimulation::default(), paused: false, last_update: None }
    }
}

} // verus!
