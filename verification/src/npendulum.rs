//! A self-contained multi-link simulation instance.
//!
//! One value of `NPendulumApp` owns the whole state of one chain: link
//! count, per-link parameters, angles and angular velocities, initial
//! angles, one history queue per link, the simulation clock and the four
//! scratch buffers the stepper reuses.  The host hands it elapsed frame
//! time; everything else is deterministic.

use crate::controller::{
    clamp_elapsed, spec_advance, spec_advance_steps, spec_clamp_elapsed, spec_step_count,
    spec_substep, substep_plan, SimError,
};
use crate::fx::{fx_add, spec_sat, SCALE};
use crate::history::{spec_push_sample, History};
use crate::pendulum::{ints, LinkParams, MAX_LINKS};
use crate::solver::spec_step;
use vstd::pervasive::VecAdditionalExecFns;
use vstd::prelude::*;

verus! {

/// A complete simulation instance for one chain of links.
pub struct NPendulumApp {
    /// How many links are simulated; the vectors below always hold
    /// `MAX_LINKS` slots of which the first `n` are meaningful.
    pub n: usize,
    /// Per-link length and mass.
    pub params: Vec<LinkParams>,
    /// Current angle of each link, fixed-point radians.
    pub theta: Vec<i64>,
    /// Current angular velocity of each link, fixed-point radians per second.
    pub omega: Vec<i64>,
    /// The angles a reset returns to.
    pub init_theta: Vec<i64>,
    /// One sample queue per link, fed with `(time, angle)` pairs.
    pub histories: Vec<History>,
    /// Nanoseconds of simulated time since this instance started; the
    /// timestamp source for the history queues.  It only ever grows.
    pub time_ns: i64,
    /// Scratch buffers for the four Runge-Kutta stages, reused across
    /// steps so that steady-state stepping allocates nothing.
    pub k1: Vec<i64>,
    pub k2: Vec<i64>,
    pub k3: Vec<i64>,
    pub k4: Vec<i64>,
}

impl NPendulumApp {
    /// Well-formed: a legal link count, every buffer at its fixed size,
    /// and each history queue sound and no newer than the clock.
    pub open spec fn wf(&self) -> bool {
        &&& 1 <= self.n <= MAX_LINKS
        &&& self.params@.len() == MAX_LINKS
        &&& self.theta@.len() == MAX_LINKS
        &&& self.omega@.len() == MAX_LINKS
        &&& self.init_theta@.len() == MAX_LINKS
        &&& self.histories@.len() == MAX_LINKS
        &&& self.k1@.len() == 2 * MAX_LINKS
        &&& self.k2@.len() == 2 * MAX_LINKS
        &&& self.k3@.len() == 2 * MAX_LINKS
        &&& self.k4@.len() == 2 * MAX_LINKS
        &&& self.time_ns >= 0
        &&& forall|i: int| 0 <= i < MAX_LINKS ==> (#[trigger] self.histories@[i]).wf()
        &&& forall|i: int|
            0 <= i < MAX_LINKS ==> ((#[trigger] self.histories@[i])@.len() > 0
                ==> self.histories@[i]@[self.histories@[i]@.len() - 1].0 <= self.time_ns)
    }

    /// The lengths of the simulated links, as mathematical integers.
    pub open spec fn spec_lengths(&self) -> Seq<int> {
        Seq::new(self.n as nat, |i: int| self.params@[i].length as int)
    }

    /// The masses of the simulated links, as mathematical integers.
    pub open spec fn spec_masses(&self) -> Seq<int> {
        Seq::new(self.n as nat, |i: int| self.params@[i].mass as int)
    }

    /// The simulated state: the first `n` angles and angular velocities.
    pub open spec fn spec_state(&self) -> (Seq<int>, Seq<int>) {
        (ints(self.theta@).take(self.n as int), ints(self.omega@).take(self.n as int))
    }

    /// The contents of all history queues.
    pub open spec fn hist_views(&self) -> Seq<Seq<(i64, i64)>> {
        Seq::new(self.histories@.len(), |i: int| self.histories@[i]@)
    }

    /// Choose how many links to simulate; counts outside
    /// `1 ..= MAX_LINKS` are rejected and change nothing.
    pub fn set_links(&mut self, n: usize) -> (r: Result<(), SimError>)
        requires
            old(self).wf(),
        ensures
            final(self).wf(),
            r is Ok <==> 1 <= n <= MAX_LINKS,
            r is Ok ==> final(self).n == n,
            r is Err ==> final(self).n == old(self).n,
            final(self).params == old(self).params,
            final(self).theta == old(self).theta,
            final(self).omega == old(self).omega,
            final(self).init_theta == old(self).init_theta,
            final(self).histories == old(self).histories,
            final(self).time_ns == old(self).time_ns,
    {
        if n == 0 || n > MAX_LINKS {
            Err(SimError::InvalidLinkCount)
        } else {
            self.n = n;
            Ok(())
        }
    }

    /// Put the simulated links back at their initial angles with no
    /// motion and forget their histories.  The simulation clock keeps its
    /// value, so sample timestamps stay monotone over the instance's life.
    pub fn reset_state(&mut self)
        requires
            old(self).wf(),
        ensures
            final(self).wf(),
            final(self).n == old(self).n,
            final(self).params == old(self).params,
            final(self).init_theta == old(self).init_theta,
            final(self).time_ns == old(self).time_ns,
            final(self).theta@.len() == old(self).theta@.len(),
            final(self).omega@.len() == old(self).omega@.len(),
            final(self).histories@.len() == old(self).histories@.len(),
            forall|i: int|
                0 <= i < old(self).n ==> final(self).theta@[i] == old(self).init_theta@[i],
            forall|i: int| 0 <= i < old(self).n ==> final(self).omega@[i] == 0i64,
            forall|i: int| 0 <= i < old(self).n ==> final(self).histories@[i]@.len() == 0,
            forall|i: int|
                old(self).n <= i < MAX_LINKS ==> final(self).theta@[i] == old(self).theta@[i],
            forall|i: int|
                old(self).n <= i < MAX_LINKS ==> final(self).omega@[i] == old(self).omega@[i],
            forall|i: int|
                old(self).n <= i < MAX_LINKS ==> final(self).histories@[i] == old(
                    self,
                ).histories@[i],
    {
        let n: usize = self.n;
        let mut i: usize = 0;
        while i < n
            invariant
                old(self).wf(),
                i <= n,
                n == old(self).n,
                n <= MAX_LINKS,
                self.n == old(self).n,
                self.params == old(self).params,
                self.init_theta == old(self).init_theta,
                self.time_ns == old(self).time_ns,
                self.k1 == old(self).k1,
                self.k2 == old(self).k2,
                self.k3 == old(self).k3,
                self.k4 == old(self).k4,
                self.theta@.len() == MAX_LINKS,
                self.omega@.len() == MAX_LINKS,
                self.histories@.len() == MAX_LINKS,
                forall|j: int| 0 <= j < i ==> self.theta@[j] == old(self).init_theta@[j],
                forall|j: int| 0 <= j < i ==> self.omega@[j] == 0i64,
                forall|j: int| 0 <= j < i ==> (#[trigger] self.histories@[j])@.len() == 0,
                forall|j: int| 0 <= j < i ==> (#[trigger] self.histories@[j]).wf(),
                forall|j: int| i <= j < MAX_LINKS ==> self.theta@[j] == old(self).theta@[j],
                forall|j: int| i <= j < MAX_LINKS ==> self.omega@[j] == old(self).omega@[j],
                forall|j: int|
                    i <= j < MAX_LINKS ==> #[trigger] self.histories@[j] == old(
                        self,
                    ).histories@[j],
            decreases n - i,
        {
            let v: i64 = self.init_theta[i];
            self.theta.set(i, v);
            self.omega.set(i, 0);
            let ghost prev: Seq<History> = self.histories@;
            let mut h: History = self.histories.remove(i);
            h.clear();
            self.histories.insert(i, h);
            proof {
                assert(self.histories@ =~= prev.update(i as int, self.histories@[i as int]));
            }
            i = i + 1;
        }
    }

    /// Record one `(time, angle)` sample per simulated link.
    pub fn push_histories(&mut self)
        requires
            old(self).wf(),
        ensures
            final(self).wf(),
            final(self).n == old(self).n,
            final(self).params == old(self).params,
            final(self).theta == old(self).theta,
            final(self).omega == old(self).omega,
            final(self).init_theta == old(self).init_theta,
            final(self).time_ns == old(self).time_ns,
            final(self).histories@.len() == MAX_LINKS,
            forall|i: int|
                0 <= i < old(self).n ==> final(self).histories@[i]@ == spec_push_sample(
                    old(self).histories@[i]@,
                    old(self).time_ns,
                    old(self).theta@[i],
                ),
            forall|i: int|
                old(self).n <= i < MAX_LINKS ==> final(self).histories@[i] == old(
                    self,
                ).histories@[i],
    {
        let n: usize = self.n;
        let t: i64 = self.time_ns;
        let mut i: usize = 0;
        while i < n
            invariant
                old(self).wf(),
                i <= n,
                n == old(self).n,
                n <= MAX_LINKS,
                t == old(self).time_ns,
                self.n == old(self).n,
                self.params == old(self).params,
                self.theta == old(self).theta,
                self.omega == old(self).omega,
                self.init_theta == old(self).init_theta,
                self.time_ns == old(self).time_ns,
                self.k1 == old(self).k1,
                self.k2 == old(self).k2,
                self.k3 == old(self).k3,
                self.k4 == old(self).k4,
                self.histories@.len() == MAX_LINKS,
                forall|j: int|
                    0 <= j < i ==> (#[trigger] self.histories@[j])@ == spec_push_sample(
                        old(self).histories@[j]@,
                        old(self).time_ns,
                        old(self).theta@[j],
                    ),
                forall|j: int| 0 <= j < i ==> (#[trigger] self.histories@[j]).wf(),
                forall|j: int|
                    0 <= j < i ==> ((#[trigger] self.histories@[j])@.len() > 0
                        ==> self.histories@[j]@[self.histories@[j]@.len() - 1].0 <= self.time_ns),
                forall|j: int|
                    i <= j < MAX_LINKS ==> #[trigger] self.histories@[j] == old(
                        self,
                    ).histories@[j],
            decreases n - i,
        {
            let v: i64 = self.theta[i];
            let ghost prev: Seq<History> = self.histories@;
            let mut h: History = self.histories.remove(i);
            h.push(t, v);
            self.histories.insert(i, h);
            proof {
                assert(self.histories@ =~= prev.update(i as int, self.histories@[i as int]));
            }
            i = i + 1;
        }
    }

    /// One Runge-Kutta step of `dt` nanoseconds on the simulated links,
    /// leaving clock and histories alone.
    pub fn step_rk4(&mut self, dt: i64)
        requires
            old(self).wf(),
        ensures
            final(self).wf(),
            final(self).n == old(self).n,
            final(self).params == old(self).params,
            final(self).init_theta == old(self).init_theta,
            final(self).histories == old(self).histories,
            final(self).time_ns == old(self).time_ns,
            final(self).theta@.len() == MAX_LINKS,
            final(self).omega@.len() == MAX_LINKS,
            forall|i: int|
                0 <= i < old(self).n ==> final(self).theta@[i] as int == spec_step(
                    old(self).spec_lengths(),
                    old(self).spec_masses(),
                    old(self).spec_state().0,
                    old(self).spec_state().1,
                    old(self).n as int,
                    dt as int,
                ).0[i],
            forall|i: int|
                0 <= i < old(self).n ==> final(self).omega@[i] as int == spec_step(
                    old(self).spec_lengths(),
                    old(self).spec_masses(),
                    old(self).spec_state().0,
                    old(self).spec_state().1,
                    old(self).n as int,
                    dt as int,
                ).1[i],
            forall|i: int|
                old(self).n <= i < MAX_LINKS ==> final(self).theta@[i] == old(self).theta@[i],
            forall|i: int|
                old(self).n <= i < MAX_LINKS ==> final(self).omega@[i] == old(self).omega@[i],
    {
        let n: usize = self.n;
        let mut lengths: Vec<i64> = Vec::new();
        let mut masses: Vec<i64> = Vec::new();
        let mut i: usize = 0;
        while i < n
            invariant
                old(self).wf(),
                i <= n,
                n == old(self).n,
                self == old(self),
                lengths@.len() == i,
                masses@.len() == i,
                forall|j: int| 0 <= j < i ==> lengths@[j] == self.params@[j].length,
                forall|j: int| 0 <= j < i ==> masses@[j] == self.params@[j].mass,
            decreases n - i,
        {
            lengths.push(self.params[i].length);
            masses.push(self.params[i].mass);
            i = i + 1;
        }
        proof {
            assert(ints(lengths@) =~= old(self).spec_lengths());
            assert(ints(masses@) =~= old(self).spec_masses());
        }
        crate::solver::step_rk4(
            n,
            &lengths,
            &masses,
            &mut self.theta,
            &mut self.omega,
            dt,
            &mut self.k1,
            &mut self.k2,
            &mut self.k3,
            &mut self.k4,
        );
        proof {
            crate::controller::lemma_step_prefix(
                old(self).spec_lengths(),
                old(self).spec_masses(),
                ints(old(self).theta@),
                ints(old(self).omega@),
                old(self).spec_state().0,
                old(self).spec_state().1,
                n as int,
                dt as int,
            );
        }
    }
}

/// The state a frame loop reaches after `k` sub-steps of `dt` nanoseconds
/// each, starting from angles `th`, velocities `om`, clock `t` and history
/// contents `hs`: each sub-step advances the state by one Runge-Kutta
/// step, moves the clock by `dt` (saturating), and records one
/// `(clock, angle)` sample per simulated link.
pub open spec fn spec_frame(
    lengths: Seq<int>,
    masses: Seq<int>,
    th: Seq<int>,
    om: Seq<int>,
    n: int,
    dt: int,
    t: int,
    hs: Seq<Seq<(i64, i64)>>,
    k: nat,
) -> (Seq<int>, Seq<int>, int, Seq<Seq<(i64, i64)>>)
    decreases k,
{
    if k == 0 {
        (th, om, t, hs)
    } else {
        let s: (Seq<int>, Seq<int>) = spec_step(lengths, masses, th, om, n, dt);
        let t2: int = spec_sat(t + dt);
        let hs2: Seq<Seq<(i64, i64)>> = Seq::new(
            hs.len(),
            |i: int|
                if 0 <= i < n {
                    spec_push_sample(hs[i], t2 as i64, s.0[i] as i64)
                } else {
                    hs[i]
                },
        );
        spec_frame(lengths, masses, s.0, s.1, n, dt, t2, hs2, (k - 1) as nat)
    }
}

/// The frame loop moves the state exactly as the bare stepper iteration
/// does, and keeps the number of history queues.
pub proof fn lemma_frame_state(
    lengths: Seq<int>,
    masses: Seq<int>,
    th: Seq<int>,
    om: Seq<int>,
    n: int,
    dt: int,
    t: int,
    hs: Seq<Seq<(i64, i64)>>,
    k: nat,
)
    ensures
        spec_frame(lengths, masses, th, om, n, dt, t, hs, k).0 == spec_advance_steps(
            lengths,
            masses,
            th,
            om,
            n,
            dt,
            k,
        ).0,
        spec_frame(lengths, masses, th, om, n, dt, t, hs, k).1 == spec_advance_steps(
            lengths,
            masses,
            th,
            om,
            n,
            dt,
            k,
        ).1,
        spec_frame(lengths, masses, th, om, n, dt, t, hs, k).3.len() == hs.len(),
    decreases k,
{
    if k != 0 {
        let s: (Seq<int>, Seq<int>) = spec_step(lengths, masses, th, om, n, dt);
        let t2: int = spec_sat(t + dt);
        let hs2: Seq<Seq<(i64, i64)>> = Seq::new(
            hs.len(),
            |i: int|
                if 0 <= i < n {
                    spec_push_sample(hs[i], t2 as i64, s.0[i] as i64)
                } else {
                    hs[i]
                },
        );
        lemma_frame_state(lengths, masses, s.0, s.1, n, dt, t2, hs2, (k - 1) as nat);
    }
}

/// Peeling the last sub-step off a frame loop of `k + 1` sub-steps.
pub proof fn lemma_frame_snoc(
    lengths: Seq<int>,
    masses: Seq<int>,
    th: Seq<int>,
    om: Seq<int>,
    n: int,
    dt: int,
    t: int,
    hs: Seq<Seq<(i64, i64)>>,
    k: nat,
)
    ensures
        ({
            let f = spec_frame(lengths, masses, th, om, n, dt, t, hs, k);
            let s = spec_step(lengths, masses, f.0, f.1, n, dt);
            let t2 = spec_sat(f.2 + dt);
            spec_frame(lengths, masses, th, om, n, dt, t, hs, k + 1) == (
                s.0,
                s.1,
                t2,
                Seq::new(
                    f.3.len(),
                    |i: int|
                        if 0 <= i < n {
                            spec_push_sample(f.3[i], t2 as i64, s.0[i] as i64)
                        } else {
                            f.3[i]
                        },
                ),
            )
        }),
    decreases k,
{
    let s1: (Seq<int>, Seq<int>) = spec_step(lengths, masses, th, om, n, dt);
    let t1: int = spec_sat(t + dt);
    let hs1: Seq<Seq<(i64, i64)>> = Seq::new(
        hs.len(),
        |i: int|
            if 0 <= i < n {
                spec_push_sample(hs[i], t1 as i64, s1.0[i] as i64)
            } else {
                hs[i]
            },
    );
    assert(spec_frame(lengths, masses, th, om, n, dt, t, hs, k + 1) == spec_frame(
        lengths,
        masses,
        s1.0,
        s1.1,
        n,
        dt,
        t1,
        hs1,
        k,
    ));
    if k != 0 {
        lemma_frame_snoc(lengths, masses, s1.0, s1.1, n, dt, t1, hs1, (k - 1) as nat);
        assert(spec_frame(lengths, masses, th, om, n, dt, t, hs, k) == spec_frame(
            lengths,
            masses,
            s1.0,
            s1.1,
            n,
            dt,
            t1,
            hs1,
            (k - 1) as nat,
        ));
    }
}

impl NPendulumApp {
    /// Advance one frame: clamp the elapsed nanoseconds, split the clamped
    /// span into sub-steps, and for each sub-step run one Runge-Kutta
    /// step, move the clock by the sub-step and record one history sample
    /// per link.  A clamped span of zero integrates nothing and records
    /// nothing.
    #[verifier::loop_isolation(false)]
    pub fn advance(&mut self, elapsed_ns: i64)
        requires
            old(self).wf(),
        ensures
            final(self).wf(),
            final(self).n == old(self).n,
            final(self).params == old(self).params,
            final(self).init_theta == old(self).init_theta,
            final(self).theta@.len() == MAX_LINKS,
            final(self).omega@.len() == MAX_LINKS,
            final(self).histories@.len() == MAX_LINKS,
            forall|i: int|
                0 <= i < old(self).n ==> final(self).theta@[i] as int == spec_advance(
                    old(self).spec_lengths(),
                    old(self).spec_masses(),
                    old(self).spec_state().0,
                    old(self).spec_state().1,
                    old(self).n as int,
                    elapsed_ns as int,
                ).0[i],
            forall|i: int|
                0 <= i < old(self).n ==> final(self).omega@[i] as int == spec_advance(
                    old(self).spec_lengths(),
                    old(self).spec_masses(),
                    old(self).spec_state().0,
                    old(self).spec_state().1,
                    old(self).n as int,
                    elapsed_ns as int,
                ).1[i],
            forall|i: int|
                old(self).n <= i < MAX_LINKS ==> final(self).theta@[i] == old(self).theta@[i],
            forall|i: int|
                old(self).n <= i < MAX_LINKS ==> final(self).omega@[i] == old(self).omega@[i],
            forall|i: int|
                old(self).n <= i < MAX_LINKS ==> final(self).histories@[i] == old(
                    self,
                ).histories@[i],
            ({
                let c = spec_clamp_elapsed(elapsed_ns as int);
                let fr = spec_frame(
                    old(self).spec_lengths(),
                    old(self).spec_masses(),
                    old(self).spec_state().0,
                    old(self).spec_state().1,
                    old(self).n as int,
                    spec_substep(c),
                    old(self).time_ns as int,
                    old(self).hist_views(),
                    if c > 0 {
                        spec_step_count(c) as nat
                    } else {
                        0
                    },
                );
                &&& final(self).time_ns as int == fr.2
                &&& forall|i: int|
                    0 <= i < old(self).n ==> final(self).histories@[i]@ == fr.3[i]
            }),
    {
        let ghost gl: Seq<int> = old(self).spec_lengths();
        let ghost gm: Seq<int> = old(self).spec_masses();
        let ghost gst: (Seq<int>, Seq<int>) = old(self).spec_state();
        let ghost t0: int = old(self).time_ns as int;
        let ghost hs0: Seq<Seq<(i64, i64)>> = old(self).hist_views();
        let clamped: i64 = clamp_elapsed(elapsed_ns);
        if clamped == 0 {
            return ;
        }
        let plan: (i64, i64) = substep_plan(clamped);
        let steps: i64 = plan.0;
        let sub: i64 = plan.1;
        let mut done: i64 = 0;
        while done < steps
            invariant
                old(self).wf(),
                0 <= done <= steps,
                steps as int == spec_step_count(clamped as int),
                sub as int == spec_substep(clamped as int),
                1 <= sub,
                self.wf(),
                self.n == old(self).n,
                self.params == old(self).params,
                self.init_theta == old(self).init_theta,
                self.theta@.len() == MAX_LINKS,
                self.omega@.len() == MAX_LINKS,
                self.histories@.len() == MAX_LINKS,
                ({
                    let fr = spec_frame(
                        gl,
                        gm,
                        gst.0,
                        gst.1,
                        self.n as int,
                        sub as int,
                        t0,
                        hs0,
                        done as nat,
                    );
                    &&& forall|i: int| 0 <= i < self.n ==> self.theta@[i] as int == fr.0[i]
                    &&& forall|i: int| 0 <= i < self.n ==> self.omega@[i] as int == fr.1[i]
                    &&& self.time_ns as int == fr.2
                    &&& forall|i: int| 0 <= i < self.n ==> self.histories@[i]@ == fr.3[i]
                }),
                forall|i: int| self.n <= i < MAX_LINKS ==> self.theta@[i] == old(self).theta@[i],
                forall|i: int| self.n <= i < MAX_LINKS ==> self.omega@[i] == old(self).omega@[i],
                forall|i: int|
                    self.n <= i < MAX_LINKS ==> self.histories@[i] == old(self).histories@[i],
            decreases steps - done,
        {
            let ghost fr = spec_frame(
                gl,
                gm,
                gst.0,
                gst.1,
                self.n as int,
                sub as int,
                t0,
                hs0,
                done as nat,
            );
            let ghost pre = *self;
            proof {
                lemma_frame_state(gl, gm, gst.0, gst.1, pre.n as int, sub as int, t0, hs0, done as nat);
                crate::controller::lemma_advance_steps_len(
                    gl,
                    gm,
                    gst.0,
                    gst.1,
                    pre.n as int,
                    sub as int,
                    done as nat,
                );
            }
            self.step_rk4(sub);
            proof {
                assert(pre.spec_lengths() =~= gl);
                assert(pre.spec_masses() =~= gm);
                assert(pre.spec_state().0 =~= fr.0);
                assert(pre.spec_state().1 =~= fr.1);
            }
            let t2: i64 = fx_add(self.time_ns, sub);
            proof {
                assert(t2 >= self.time_ns);
            }
            self.time_ns = t2;
            self.push_histories();
            done = done + 1;
            proof {
                lemma_frame_snoc(
                    gl,
                    gm,
                    gst.0,
                    gst.1,
                    pre.n as int,
                    sub as int,
                    t0,
                    hs0,
                    (done - 1) as nat,
                );
            }
        }
        proof {
            lemma_frame_state(gl, gm, gst.0, gst.1, self.n as int, sub as int, t0, hs0, steps as nat);
        }
    }
}

impl Default for NPendulumApp {
    /// Three links of unit length and mass in a bent pose, at rest, with
    /// empty histories and the clock at zero.
    fn default() -> (s: Self)
        ensures
            s.wf(),
            s.n == 3,
            forall|i: int|
                0 <= i < MAX_LINKS ==> s.params@[i] == (LinkParams { length: SCALE, mass: SCALE }),
            s.init_theta@[0] == 700_000_000i64,
            s.init_theta@[1] == 400_000_000i64,
            s.init_theta@[2] == -300_000_000i64,
            forall|i: int| 3 <= i < MAX_LINKS ==> s.init_theta@[i] == 0i64,
            s.theta@ == s.init_theta@,
            forall|i: int| 0 <= i < MAX_LINKS ==> s.omega@[i] == 0i64,
            forall|i: int| 0 <= i < MAX_LINKS ==> s.histories@[i]@.len() == 0,
            s.time_ns == 0,
    {
        let mut params: Vec<LinkParams> = Vec::new();
        let mut omega: Vec<i64> = Vec::new();
        let mut histories: Vec<History> = Vec::new();
        let mut i: usize = 0;
        while i < MAX_LINKS
            invariant
                i <= MAX_LINKS,
                params@.len() == i,
                omega@.len() == i,
                histories@.len() == i,
                forall|j: int|
                    0 <= j < i ==> params@[j] == (LinkParams { length: SCALE, mass: SCALE }),
                forall|j: int| 0 <= j < i ==> omega@[j] == 0i64,
                forall|j: int| 0 <= j < i ==> (#[trigger] histories@[j])@.len() == 0,
                forall|j: int| 0 <= j < i ==> (#[trigger] histories@[j]).wf(),
            decreases MAX_LINKS - i,
        {
            params.push(LinkParams { length: SCALE, mass: SCALE });
            omega.push(0);
            histories.push(History::new());
            i = i + 1;
        }
        let mut k1: Vec<i64> = Vec::new();
        let mut k2: Vec<i64> = Vec::new();
        let mut k3: Vec<i64> = Vec::new();
        let mut k4: Vec<i64> = Vec::new();
        let mut j: usize = 0;
        while j < 2 * MAX_LINKS
            invariant
                j <= 2 * MAX_LINKS,
                k1@.len() == j,
                k2@.len() == j,
                k3@.len() == j,
                k4@.len() == j,
            decreases 2 * MAX_LINKS - j,
        {
            k1.push(0);
            k2.push(0);
            k3.push(0);
            k4.push(0);
            j = j + 1;
        }
        let mut init_theta: Vec<i64> = Vec::new();
        let mut theta: Vec<i64> = Vec::new();
        init_theta.push(700_000_000);
        init_theta.push(400_000_000);
        init_theta.push(-300_000_000);
        theta.push(700_000_000);
        theta.push(400_000_000);
        theta.push(-300_000_000);
        let mut m: usize = 3;
        while m < MAX_LINKS
            invariant
                3 <= m <= MAX_LINKS,
                init_theta@.len() == m,
                theta@.len() == m,
                init_theta@[0] == 700_000_000i64,
                init_theta@[1] == 400_000_000i64,
                init_theta@[2] == -300_000_000i64,
                forall|j: int| 3 <= j < m ==> init_theta@[j] == 0i64,
                forall|j: int| 0 <= j < m ==> theta@[j] == init_theta@[j],
            decreases MAX_LINKS - m,
        {
            init_theta.push(0);
            theta.push(0);
            m = m + 1;
        }
        proof {
            assert(theta@ =~= init_theta@);
        }
        NPendulumApp { n: 3, params, theta, omega, init_theta, histories, time_ns: 0, k1, k2, k3, k4 }
    }
}

} // verus!
