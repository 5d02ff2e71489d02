//! The damped-spring animation integrator.
//!
//! Each tick applies force, then velocity, then position, in that order, and
//! snaps exactly onto the target once both the displacement and the velocity
//! are inside the configured precision band, so a spring settles instead of
//! oscillating forever.  Velocity and position are clamped into wide safety
//! bands, which keeps the integrator stable for any parameters; for ordinary
//! parameters the clamps never bind.

use vstd::prelude::*;

use crate::fixed::{abs_int, clamp_spec, clamp64, mul_div, tdiv, SCALE};

verus! {

/// Upper bound on spring stiffness and damping rates (whole units per second).
pub const RATE_MAX: i64 = 100_000;

/// Magnitude band that velocities are kept inside.
pub const VEL_MAX: i64 = 1_000_000_000_000;

/// Magnitude band that spring positions are kept inside.
pub const PROG_MAX: i64 = 1_000_000_000;

/// Longest tick the integrator accepts: one second.
pub const DT_MAX: i64 = 1_000_000;

#[derive(Debug, Clone, Copy, PartialEq, Eq)]
pub struct SpringParams {
    /// Restoring rate toward the target, whole units per squared second.
    pub stiffness: i64,
    /// Rate opposing the current velocity, whole units per second.
    pub damping: i64,
    /// Fixed-point half-width of the settling band.
    pub precision: i64,
}

impl SpringParams {
    pub open spec fn wf(self) -> bool {
        &&& 0 <= self.stiffness <= RATE_MAX
        &&& 0 <= self.damping <= RATE_MAX
        &&& 0 < self.precision <= SCALE
    }

    pub fn new(stiffness: i64, damping: i64, precision: i64) -> (r: SpringParams)
        requires
            0 <= stiffness <= RATE_MAX,
            0 <= damping <= RATE_MAX,
            0 < precision <= SCALE,
        ensures
            r == (SpringParams { stiffness, damping, precision }),
            r.wf(),
    {
        SpringParams { stiffness, damping, precision }
    }
}

/// The stock dropdown spring: stiffness 170, damping 26, precision 0.01.
impl Default for SpringParams {
    fn default() -> (r: SpringParams)
        ensures
            r == (SpringParams { stiffness: 170, damping: 26, precision: 10_000 }),
            r.wf(),
    {
        SpringParams { stiffness: 170, damping: 26, precision: 10_000 }
    }
}

#[derive(Debug, Clone, Copy, PartialEq, Eq)]
pub struct SpringState {
    /// Animated position, fixed-point.
    pub progress: i64,
    /// Position the spring is pulled toward, fixed-point.
    pub target: i64,
    /// Current velocity, fixed-point units per second.
    pub velocity: i64,
}

impl SpringState {
    pub open spec fn wf(self) -> bool {
        &&& -PROG_MAX <= self.progress <= PROG_MAX
        &&& -PROG_MAX <= self.target <= PROG_MAX
        &&& -VEL_MAX <= self.velocity <= VEL_MAX
    }

    /// A spring at rest exactly on its target.
    pub open spec fn settled(self) -> bool {
        self.progress == self.target && self.velocity == 0
    }

    pub fn at(progress: i64) -> (r: SpringState)
        requires
            -PROG_MAX <= progress <= PROG_MAX,
        ensures
            r == (SpringState { progress, target: progress, velocity: 0 }),
            r.wf(),
            r.settled(),
    {
        SpringState { progress, target: progress, velocity: 0 }
    }
}

/// The acceleration the spring exerts: restoring force minus damping force.
pub open spec fn spring_accel(s: SpringState, p: SpringParams) -> int {
    p.stiffness * (s.target - s.progress) - p.damping * s.velocity
}

/// One integration tick: force, then velocity, then position, then the snap
/// onto the target when displacement and the new velocity are both inside the
/// precision band.
pub open spec fn spring_step_spec(s: SpringState, p: SpringParams, dt: int) -> SpringState {
    let disp = s.target - s.progress;
    let v1 = clamp_spec(
        s.velocity + tdiv(spring_accel(s, p) * dt, SCALE as int),
        -VEL_MAX as int,
        VEL_MAX as int,
    );
    let x1 = clamp_spec(s.progress + tdiv(v1 * dt, SCALE as int), -PROG_MAX as int, PROG_MAX as int);
    if abs_int(disp) < p.precision && abs_int(v1) < p.precision {
        SpringState { progress: s.target, target: s.target, velocity: 0 }
    } else {
        SpringState { progress: x1 as i64, target: s.target, velocity: v1 as i64 }
    }
}

use crate::fixed::lemma_scale_shrinks;

/// Advances the spring by `dt` seconds.
pub fn spring_step(s: &mut SpringState, p: &SpringParams, dt: i64)
    requires
        old(s).wf(),
        p.wf(),
        0 <= dt <= DT_MAX,
    ensures
        *final(s) == spring_step_spec(*old(s), *p, dt as int),
        final(s).wf(),
{
    let disp: i64 = s.target - s.progress;
    proof {
        let k = p.stiffness as int;
        let c = p.damping as int;
        assert(abs_int(k * disp) <= RATE_MAX as int * (2 * PROG_MAX as int) && abs_int(
            c * s.velocity,
        ) <= RATE_MAX as int * VEL_MAX as int) by (nonlinear_arith)
            requires
                0 <= k <= RATE_MAX as int,
                0 <= c <= RATE_MAX as int,
                abs_int(disp as int) <= 2 * PROG_MAX as int,
                abs_int(s.velocity as int) <= VEL_MAX as int,
        ;
    }
    let accel: i64 = p.stiffness * disp - p.damping * s.velocity;
    proof {
        lemma_scale_shrinks(accel as int, dt as int);
    }
    let dv: i64 = mul_div(accel, dt, SCALE);
    let v1: i64 = clamp64(s.velocity + dv, -VEL_MAX, VEL_MAX);
    proof {
        lemma_scale_shrinks(v1 as int, dt as int);
    }
    let dx: i64 = mul_div(v1, dt, SCALE);
    let x1: i64 = clamp64(s.progress + dx, -PROG_MAX, PROG_MAX);
    let disp_abs: i64 = if disp < 0 {
        -disp
    } else {
        disp
    };
    let v1_abs: i64 = if v1 < 0 {
        -v1
    } else {
        v1
    };
    if disp_abs < p.precision && v1_abs < p.precision {
        s.progress = s.target;
        s.velocity = 0;
    } else {
        s.progress = x1;
        s.velocity = v1;
    }
}

/// A settled spring is a fixed point of the integrator: once the position
/// sits exactly on the target with no velocity, every further tick leaves
/// the state unchanged.
pub proof fn lemma_spring_settled_stays(s: SpringState, p: SpringParams, dt: int)
    requires
        s.wf(),
        p.wf(),
        0 <= dt <= DT_MAX as int,
        s.settled(),
    ensures
        spring_step_spec(s, p, dt) == s,
{
    let sc = SCALE as int;
    assert(spring_accel(s, p) == 0) by (nonlinear_arith)
        requires
            s.target == s.progress,
            s.velocity == 0,
            spring_accel(s, p) == p.stiffness * (s.target - s.progress) - p.damping * s.velocity,
    ;
    assert(tdiv(0 * dt, sc) == 0) by (nonlinear_arith)
        requires
            sc > 0,
    ;
}

/// Snapping is exact: whenever a tick ends inside the settling band, the
/// spring is placed exactly on its target with velocity zero, and it is
/// settled from then on.
pub proof fn lemma_spring_snap_exact(s: SpringState, p: SpringParams, dt: int)
    requires
        s.wf(),
        p.wf(),
        0 <= dt <= DT_MAX as int,
    ensures
        ({
            let disp = s.target - s.progress;
            let v1 = clamp_spec(
                s.velocity + tdiv(spring_accel(s, p) * dt, SCALE as int),
                -VEL_MAX as int,
                VEL_MAX as int,
            );
            abs_int(disp) < p.precision && abs_int(v1) < p.precision
                ==> spring_step_spec(s, p, dt).settled()
        }),
{
}

/// The integrator is idempotent under zero-delta ticks: a tick that advances
/// time by nothing either leaves the spring untouched or snaps a spring
/// already inside its settling band, and a second such tick changes nothing
/// more.
pub proof fn lemma_spring_zero_dt_idempotent(s: SpringState, p: SpringParams)
    requires
        s.wf(),
        p.wf(),
    ensures
        spring_step_spec(spring_step_spec(s, p, 0), p, 0) == spring_step_spec(s, p, 0),
{
    lemma_spring_zero_dt_cases(s, p);
    let once = spring_step_spec(s, p, 0);
    if once == s {
    } else {
        assert(once.settled());
        assert(once.wf());
        lemma_spring_settled_stays(once, p, 0);
    }
}

/// A zero-delta tick either leaves the spring untouched or snaps one that is
/// already inside its settling band.
proof fn lemma_spring_zero_dt_cases(s: SpringState, p: SpringParams)
    requires
        s.wf(),
        p.wf(),
    ensures
        spring_step_spec(s, p, 0) == s || (spring_step_spec(s, p, 0).settled()
            && spring_step_spec(s, p, 0).wf()),
{
    let sc = SCALE as int;
    assert(spring_accel(s, p) * 0 == 0) by (nonlinear_arith);
    assert(s.velocity as int * 0 == 0) by (nonlinear_arith);
    assert(tdiv(0, sc) == 0);
}

} // verus!
