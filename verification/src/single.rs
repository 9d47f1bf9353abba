//! A self-contained single-pendulum simulation with drag, presets and a
//! sampled history.
//!
//! Unlike the chain, this pendulum has its own gravity and a linear drag
//! term, and it samples its history at a fixed rate rather than once per
//! sub-step: an accumulator gathers integrated time and emits one sample
//! whenever it passes the sampling interval.

use crate::controller::{MAX_FRAME_NS, MAX_STEP_NS};
use crate::fx::{
    cos_fx, fx_add, fx_mul, fx_sub, spec_cos, spec_fx_add, spec_fx_mul, spec_fx_sub, spec_sat,
    SCALE,
};
use crate::physics::{rk4_step, spec_rk4_step};
use crate::plots::PlotKind;
use vstd::prelude::*;

verus! {

/// Degrees per radian, fixed point: 180 / pi.
pub const DEG_PER_RAD_FX: i64 = 57_295_779_513;

/// Radians per degree, fixed point: pi / 180.
pub const RAD_PER_DEG_FX: i64 = 17_453_293;

/// The elapsed time assumed for a frame whose clock reads zero or ran
/// backwards: one sixtieth of a second.
pub const FALLBACK_FRAME_NS: i64 = 16_666_667;

/// How many history samples this pendulum retains.
pub const SINGLE_HISTORY_CAP: usize = 4096;

/// One half, fixed point.
pub const HALF_FX: i64 = 500_000_000;

/// A named parameter set: lengths and masses in fixed-point SI units, the
/// initial angle in fixed-point degrees.
#[derive(Clone)]
pub struct Preset {
    pub name: String,
    pub length: i64,
    pub mass: i64,
    pub drag: i64,
    pub gravity: i64,
    pub initial_angle: i64,
}

/// Clamp a fixed-point value into `[lo, hi]`.
pub open spec fn spec_clamp(x: int, lo: int, hi: int) -> int {
    if x < lo {
        lo
    } else if x > hi {
        hi
    } else {
        x
    }
}

/// Append a `(time, angle, velocity)` sample; when the queue is full and
/// auto-clearing is on, the oldest sample makes room first.
pub open spec fn spec_push_history(
    h: Seq<(i64, i64, i64)>,
    auto: bool,
    t: i64,
    th: i64,
    om: i64,
) -> Seq<(i64, i64, i64)> {
    let h2: Seq<(i64, i64, i64)> = if auto && h.len() == SINGLE_HISTORY_CAP as nat {
        h.drop_first()
    } else {
        h
    };
    h2.push((t, th, om))
}

/// Mechanical energy of the pendulum: potential `m g l (1 - cos angle)`
/// and kinetic `(m / 2) (l omega)^2`, as `(potential, kinetic, total)`.
pub open spec fn spec_calculate_energy(th: int, om: int, l: int, m: int, g: int) -> (
    int,
    int,
    int,
) {
    let potential: int = spec_fx_mul(
        spec_fx_mul(spec_fx_mul(m, g), l),
        spec_fx_sub(SCALE as int, spec_cos(th)),
    );
    let lw: int = spec_fx_mul(l, om);
    let kinetic: int = spec_fx_mul(spec_fx_mul(HALF_FX as int, m), spec_fx_mul(lw, lw));
    (potential, kinetic, spec_fx_add(potential, kinetic))
}

/// The state a frame of integration reaches: starting from angle `th`,
/// velocity `om`, sample accumulator `accum`, clock `t` and history `h`,
/// consume `remaining` nanoseconds in chunks of at most `MAX_STEP_NS`,
/// integrating each chunk and emitting one degree-valued sample whenever
/// the accumulator passes the sampling interval `sdt`.
pub open spec fn spec_single_frame(
    th: int,
    om: int,
    accum: int,
    t: int,
    h: Seq<(i64, i64, i64)>,
    remaining: int,
    l: int,
    m: int,
    b: int,
    g: int,
    sdt: int,
    auto: bool,
) -> (int, int, int, int, Seq<(i64, i64, i64)>)
    recommends
        l != 0,
        m != 0,
        sdt >= 1,
    decreases remaining,
{
    if remaining <= 0 {
        (th, om, accum, t, h)
    } else {
        let step: int = if remaining < MAX_STEP_NS as int {
            remaining
        } else {
            MAX_STEP_NS as int
        };
        let s: (int, int) = spec_rk4_step(th, om, step, l, m, b, g);
        let t2: int = spec_sat(t + step);
        let acc2: int = spec_sat(accum + step);
        if acc2 >= sdt {
            let h2: Seq<(i64, i64, i64)> = spec_push_history(
                h,
                auto,
                t2 as i64,
                spec_fx_mul(s.0, DEG_PER_RAD_FX as int) as i64,
                spec_fx_mul(s.1, DEG_PER_RAD_FX as int) as i64,
            );
            spec_single_frame(
                s.0,
                s.1,
                acc2 - sdt,
                t2,
                h2,
                remaining - step,
                l,
                m,
                b,
                g,
                sdt,
                auto,
            )
        } else {
            spec_single_frame(s.0, s.1, acc2, t2, h, remaining - step, l, m, b, g, sdt, auto)
        }
    }
}

/// A complete single-pendulum instance: physical parameters, run state,
/// sampling bookkeeping, presets and the host's display choices.
pub struct PendulumApp {
    pub length: i64,
    pub mass: i64,
    pub drag: i64,
    pub gravity: i64,
    /// Whether frames integrate at all.
    pub running: bool,
    /// Multiplier applied to each frame's elapsed time, fixed point.
    pub simulation_speed: i64,
    pub theta: i64,
    pub omega: i64,
    pub initial_theta: i64,
    /// `(time, angle, velocity)` samples, angles in fixed-point degrees.
    pub history: Vec<(i64, i64, i64)>,
    /// Whether a full history drops its oldest sample to accept a new one.
    pub auto_reset_history: bool,
    /// Nanoseconds of integrated time gathered toward the next sample.
    pub sample_accum: i64,
    /// Nanoseconds between history samples.
    pub sample_dt: i64,
    /// Nanoseconds of simulated time since this instance started.
    pub time_ns: i64,
    /// Seconds of history the host plots.
    pub plot_seconds: i64,
    pub show_timeline: bool,
    pub selected_plot: PlotKind,
    pub dark_mode: bool,
    pub show_help: bool,
    pub presets: Vec<Preset>,
    pub current_preset: usize,
}

impl PendulumApp {
    /// Well-formed: positive sampling interval, nonnegative bookkeeping,
    /// and a history bounded by its capacity whenever auto-clearing is on.
    pub open spec fn wf(&self) -> bool {
        &&& self.sample_dt >= 1
        &&& self.sample_accum >= 0
        &&& self.time_ns >= 0
        &&& self.auto_reset_history ==> self.history@.len() <= SINGLE_HISTORY_CAP
    }

    /// Keep each physical parameter inside the range the model accepts:
    /// length and mass in `[0.1, 10]`, drag in `[0, 2]`, gravity in
    /// `[0.1, 20]` (fixed-point SI units).
    pub fn clamp_parameters(&mut self)
        ensures
            *final(self) == (PendulumApp {
                length: spec_clamp(old(self).length as int, 100_000_000, 10_000_000_000) as i64,
                mass: spec_clamp(old(self).mass as int, 100_000_000, 10_000_000_000) as i64,
                drag: spec_clamp(old(self).drag as int, 0, 2_000_000_000) as i64,
                gravity: spec_clamp(old(self).gravity as int, 100_000_000, 20_000_000_000) as i64,
                ..*old(self)
            }),
    {
        if self.length < 100_000_000 {
            self.length = 100_000_000;
        }
        if self.length > 10_000_000_000 {
            self.length = 10_000_000_000;
        }
        if self.mass < 100_000_000 {
            self.mass = 100_000_000;
        }
        if self.mass > 10_000_000_000 {
            self.mass = 10_000_000_000;
        }
        if self.drag < 0 {
            self.drag = 0;
        }
        if self.drag > 2_000_000_000 {
            self.drag = 2_000_000_000;
        }
        if self.gravity < 100_000_000 {
            self.gravity = 100_000_000;
        }
        if self.gravity > 20_000_000_000 {
            self.gravity = 20_000_000_000;
        }
    }

    /// The pendulum's current energy as `(potential, kinetic, total)`.
    pub fn calculate_energy(&self) -> (r: (i64, i64, i64))
        ensures
            r.0 as int == spec_calculate_energy(
                self.theta as int,
                self.omega as int,
                self.length as int,
                self.mass as int,
                self.gravity as int,
            ).0,
            r.1 as int == spec_calculate_energy(
                self.theta as int,
                self.omega as int,
                self.length as int,
                self.mass as int,
                self.gravity as int,
            ).1,
            r.2 as int == spec_calculate_energy(
                self.theta as int,
                self.omega as int,
                self.length as int,
                self.mass as int,
                self.gravity as int,
            ).2,
    {
        let potential: i64 = fx_mul(
            fx_mul(fx_mul(self.mass, self.gravity), self.length),
            fx_sub(SCALE, cos_fx(self.theta)),
        );
        let lw: i64 = fx_mul(self.length, self.omega);
        let kinetic: i64 = fx_mul(fx_mul(HALF_FX, self.mass), fx_mul(lw, lw));
        (potential, kinetic, fx_add(potential, kinetic))
    }

    /// Record one `(time, angle, velocity)` sample, angles in degrees.
    pub fn push_history(&mut self, t: i64)
        requires
            old(self).wf(),
        ensures
            *final(self) == (PendulumApp {
                history: final(self).history,
                ..*old(self)
            }),
            final(self).history@ == spec_push_history(
                old(self).history@,
                old(self).auto_reset_history,
                t,
                spec_fx_mul(old(self).theta as int, DEG_PER_RAD_FX as int) as i64,
                spec_fx_mul(old(self).omega as int, DEG_PER_RAD_FX as int) as i64,
            ),
            final(self).wf(),
    {
        if self.auto_reset_history && self.history.len() == SINGLE_HISTORY_CAP {
            self.history.remove(0);
            proof {
                assert(self.history@ =~= old(self).history@.drop_first());
            }
        }
        let th_deg: i64 = fx_mul(self.theta, DEG_PER_RAD_FX);
        let om_deg: i64 = fx_mul(self.omega, DEG_PER_RAD_FX);
        self.history.push((t, th_deg, om_deg));
    }

    /// Adopt the preset at `idx`: copy its parameters, put the pendulum at
    /// the preset's initial angle with no motion, and clear the history if
    /// auto-clearing is on.  An index past the presets changes nothing.
    pub fn apply_preset(&mut self, idx: usize)
        requires
            old(self).wf(),
        ensures
            final(self).wf(),
            idx >= old(self).presets@.len() ==> *final(self) == *old(self),
            idx < old(self).presets@.len() ==> {
                let p = old(self).presets@[idx as int];
                &&& final(self).length == p.length
                &&& final(self).mass == p.mass
                &&& final(self).drag == p.drag
                &&& final(self).gravity == p.gravity
                &&& final(self).initial_theta as int == spec_fx_mul(
                    p.initial_angle as int,
                    RAD_PER_DEG_FX as int,
                )
                &&& final(self).theta == final(self).initial_theta
                &&& final(self).omega == 0
                &&& final(self).current_preset == idx
                &&& final(self).history@.len() == (if old(self).auto_reset_history {
                    0int
                } else {
                    old(self).history@.len() as int
                })
            },
    {
        if idx < self.presets.len() {
            let length: i64 = self.presets[idx].length;
            let mass: i64 = self.presets[idx].mass;
            let drag: i64 = self.presets[idx].drag;
            let gravity: i64 = self.presets[idx].gravity;
            let initial_angle: i64 = self.presets[idx].initial_angle;
            self.length = length;
            self.mass = mass;
            self.drag = drag;
            self.gravity = gravity;
            self.initial_theta = fx_mul(initial_angle, RAD_PER_DEG_FX);
            self.theta = self.initial_theta;
            self.omega = 0;
            self.current_preset = idx;
            if self.auto_reset_history {
                self.history.clear();
            }
        }
    }

    /// Integrate one frame while running: a nonpositive elapsed time falls
    /// back to one sixtieth of a second, the elapsed time is capped at
    /// `MAX_FRAME_NS` and scaled by the simulation speed, the parameters
    /// are clamped, and the span is consumed in chunks of at most
    /// `MAX_STEP_NS`, sampling the history at the fixed rate.  A paused
    /// pendulum only clamps its parameters.
    #[verifier::loop_isolation(false)]
    pub fn advance(&mut self, elapsed_ns: i64)
        requires
            old(self).wf(),
        ensures
            final(self).wf(),
            final(self).length as int == spec_clamp(
                old(self).length as int,
                100_000_000,
                10_000_000_000,
            ),
            final(self).mass as int == spec_clamp(
                old(self).mass as int,
                100_000_000,
                10_000_000_000,
            ),
            final(self).drag as int == spec_clamp(old(self).drag as int, 0, 2_000_000_000),
            final(self).gravity as int == spec_clamp(
                old(self).gravity as int,
                100_000_000,
                20_000_000_000,
            ),
            final(self).running == old(self).running,
            final(self).simulation_speed == old(self).simulation_speed,
            final(self).initial_theta == old(self).initial_theta,
            final(self).sample_dt == old(self).sample_dt,
            final(self).presets == old(self).presets,
            ({
                let dt0 = if elapsed_ns <= 0 {
                    FALLBACK_FRAME_NS as int
                } else {
                    elapsed_ns as int
                };
                let dt1 = if dt0 > MAX_FRAME_NS as int {
                    MAX_FRAME_NS as int
                } else {
                    dt0
                };
                let dt = spec_fx_mul(dt1, old(self).simulation_speed as int);
                let fr = spec_single_frame(
                    old(self).theta as int,
                    old(self).omega as int,
                    old(self).sample_accum as int,
                    old(self).time_ns as int,
                    old(self).history@,
                    if old(self).running {
                        dt
                    } else {
                        0
                    },
                    spec_clamp(old(self).length as int, 100_000_000, 10_000_000_000),
                    spec_clamp(old(self).mass as int, 100_000_000, 10_000_000_000),
                    spec_clamp(old(self).drag as int, 0, 2_000_000_000),
                    spec_clamp(old(self).gravity as int, 100_000_000, 20_000_000_000),
                    old(self).sample_dt as int,
                    old(self).auto_reset_history,
                );
                &&& final(self).theta as int == fr.0
                &&& final(self).omega as int == fr.1
                &&& final(self).sample_accum as int == fr.2
                &&& final(self).time_ns as int == fr.3
                &&& final(self).history@ == fr.4
            }),
    {
        let mut dt: i64 = elapsed_ns;
        if dt <= 0 {
            dt = FALLBACK_FRAME_NS;
        }
        if dt > MAX_FRAME_NS {
            dt = MAX_FRAME_NS;
        }
        dt = fx_mul(dt, self.simulation_speed);
        self.clamp_parameters();
        if !self.running {
            return ;
        }
        let ghost l: int = self.length as int;
        let ghost m: int = self.mass as int;
        let ghost b: int = self.drag as int;
        let ghost g: int = self.gravity as int;
        let ghost sdt: int = self.sample_dt as int;
        let ghost auto: bool = self.auto_reset_history;
        let ghost fr0 = spec_single_frame(
            self.theta as int,
            self.omega as int,
            self.sample_accum as int,
            self.time_ns as int,
            self.history@,
            dt as int,
            l,
            m,
            b,
            g,
            sdt,
            auto,
        );
        let mut remaining: i64 = dt;
        while remaining > 0
            invariant
                self.wf(),
                self.length as int == l,
                self.mass as int == m,
                self.drag as int == b,
                self.gravity as int == g,
                self.sample_dt as int == sdt,
                self.auto_reset_history == auto,
                self.running == old(self).running,
                self.simulation_speed == old(self).simulation_speed,
                self.initial_theta == old(self).initial_theta,
                self.presets == old(self).presets,
                self.selected_plot == old(self).selected_plot,
                self.plot_seconds == old(self).plot_seconds,
                self.show_timeline == old(self).show_timeline,
                self.dark_mode == old(self).dark_mode,
                self.show_help == old(self).show_help,
                self.current_preset == old(self).current_preset,
                spec_single_frame(
                    self.theta as int,
                    self.omega as int,
                    self.sample_accum as int,
                    self.time_ns as int,
                    self.history@,
                    remaining as int,
                    l,
                    m,
                    b,
                    g,
                    sdt,
                    auto,
                ) == fr0,
            decreases remaining,
        {
            let step: i64 = if remaining < MAX_STEP_NS {
                remaining
            } else {
                MAX_STEP_NS
            };
            let s: (i64, i64) = rk4_step(self.theta, self.omega, step, self.length, self.mass, self.drag, self.gravity);
            self.theta = s.0;
            self.omega = s.1;
            let t2: i64 = fx_add(self.time_ns, step);
            proof {
                assert(t2 >= self.time_ns);
            }
            self.time_ns = t2;
            let acc2: i64 = fx_add(self.sample_accum, step);
            self.sample_accum = acc2;
            if acc2 >= self.sample_dt {
                self.push_history(t2);
                self.sample_accum = acc2 - self.sample_dt;
            }
            remaining = remaining - step;
        }
    }
}

/// The three presets a fresh instance offers.
fn default_presets() -> (v: Vec<Preset>)
    ensures
        v@.len() == 3,
        v@[0].length == SCALE && v@[0].mass == SCALE && v@[0].drag == 0i64 && v@[0].gravity
            == 9_810_000_000i64 && v@[0].initial_angle == 45_000_000_000i64,
        v@[1].length == SCALE && v@[1].mass == SCALE && v@[1].drag == 450_000_000i64
            && v@[1].gravity == 9_810_000_000i64 && v@[1].initial_angle == 30_000_000_000i64,
        v@[2].length == 2_000_000_000i64 && v@[2].mass == 600_000_000i64 && v@[2].drag
            == 80_000_000i64 && v@[2].gravity == 9_810_000_000i64 && v@[2].initial_angle
            == 60_000_000_000i64,
{
    let mut v: Vec<Preset> = Vec::new();
    v.push(
        Preset {
            name: "Simple".to_string(),
            length: SCALE,
            mass: SCALE,
            drag: 0,
            gravity: 9_810_000_000,
            initial_angle: 45_000_000_000,
        },
    );
    v.push(
        Preset {
            name: "Damped".to_string(),
            length: SCALE,
            mass: SCALE,
            drag: 450_000_000,
            gravity: 9_810_000_000,
            initial_angle: 30_000_000_000,
        },
    );
    v.push(
        Preset {
            name: "Long".to_string(),
            length: 2_000_000_000,
            mass: 600_000_000,
            drag: 80_000_000,
            gravity: 9_810_000_000,
            initial_angle: 60_000_000_000,
        },
    );
    v
}

impl Default for PendulumApp {
    /// A unit pendulum at 0.35 radians, paused, with the standard presets.
    fn default() -> (s: Self)
        ensures
            s.wf(),
            s.length == SCALE,
            s.mass == SCALE,
            s.drag == 0i64,
            s.gravity == 9_810_000_000i64,
            !s.running,
            s.simulation_speed == SCALE,
            s.theta == 350_000_000i64,
            s.omega == 0i64,
            s.initial_theta == 350_000_000i64,
            s.history@.len() == 0,
            s.auto_reset_history,
            s.sample_accum == 0i64,
            s.sample_dt == FALLBACK_FRAME_NS,
            s.time_ns == 0i64,
            s.presets@.len() == 3,
            s.current_preset == 0,
            s.selected_plot == PlotKind::Angle,
    {
        PendulumApp {
            length: SCALE,
            mass: SCALE,
            drag: 0,
            gravity: 9_810_000_000,
            running: false,
            simulation_speed: SCALE,
            theta: 350_000_000,
            omega: 0,
            initial_theta: 350_000_000,
            history: Vec::new(),
            auto_reset_history: true,
            sample_accum: 0,
            sample_dt: FALLBACK_FRAME_NS,
            time_ns: 0,
            plot_seconds: 10,
            show_timeline: true,
            selected_plot: PlotKind::Angle,
            dark_mode: true,
            show_help: false,
            presets: default_presets(),
            current_preset: 0,
        }
    }
}

} // verus!
