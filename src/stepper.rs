//! The adaptive step-size rules of the embedded Runge-Kutta stepper.
//!
//! The caller evaluates the stages and reduces the embedded error estimate to
//! a scalar; it reports here whether that scalar is within the tolerance, and
//! the step sizes that the usual formula `0.9 h (tol / error)^(1/q)` proposes.
//! These rules decide whether the step is kept or retried, and how large the
//! next one is. Steps are signed: a backward run takes negative steps, and the
//! limits apply to their magnitude.

use vstd::prelude::*;
use crate::time::Duration;

verus! {

/// Step-size limits and the number of attempts allowed for one step.
#[derive(Clone, Copy, Debug, PartialEq, Eq, Structural)]
pub struct StepOptions {
    pub min_step: Duration,
    pub max_step: Duration,
    pub attempts: u8,
}

impl StepOptions {
    pub open spec fn wf(self) -> bool {
        &&& self.min_step.wf()
        &&& self.max_step.wf()
        &&& 0 < self.min_step.nanos <= self.max_step.nanos
        &&& self.attempts >= 1
    }
}

/// How the step's scalar error compares with the tolerance.
#[derive(Clone, Copy, Debug, PartialEq, Eq, Structural)]
pub struct ErrorCheck {
    /// `error <= tolerance`
    pub within: bool,
}

/// The step size being tried and the number of evaluations spent on this step.
#[derive(Clone, Copy, Debug, PartialEq, Eq, Structural)]
pub struct StepTrial {
    pub step: Duration,
    pub attempts: u8,
}

/// The size of a step, whatever its direction.
pub open spec fn magnitude(d: Duration) -> int {
    if d.nanos < 0 {
        -d.nanos
    } else {
        d.nanos as int
    }
}

pub open spec fn spec_accepts(trial: StepTrial, opts: StepOptions, check: ErrorCheck) -> bool {
    check.within || magnitude(trial.step) <= opts.min_step.nanos || trial.attempts >= opts.attempts
}

/// A proposed step held within the step limits by magnitude, and pointed in the
/// direction of `direction` (forward when `direction` is zero).
pub open spec fn clamped_like(proposal: Duration, direction: Duration, opts: StepOptions) -> Duration {
    let m = magnitude(proposal);
    let c = if m < opts.min_step.nanos {
        opts.min_step.nanos as int
    } else if m > opts.max_step.nanos {
        opts.max_step.nanos as int
    } else {
        m
    };
    Duration { nanos: (if direction.nanos < 0 { -c } else { c }) as i128 }
}

fn clamp_magnitude(proposal: Duration, direction: Duration, opts: &StepOptions) -> (r: Duration)
    requires
        proposal.wf(),
        opts.wf(),
    ensures
        r == clamped_like(proposal, direction, *opts),
        r.wf(),
{
    let m = proposal.abs();
    let c: i128 = if m.nanos < opts.min_step.nanos {
        opts.min_step.nanos
    } else if m.nanos > opts.max_step.nanos {
        opts.max_step.nanos
    } else {
        m.nanos
    };
    if direction.nanos < 0 {
        Duration { nanos: -c }
    } else {
        Duration { nanos: c }
    }
}

impl StepTrial {
    /// The first evaluation of a step with the given size.
    pub fn first(step: Duration) -> (r: StepTrial)
        ensures
            r.step == step,
            r.attempts == 1,
    {
        StepTrial { step, attempts: 1 }
    }

    /// An adaptive step is kept when its error is within the tolerance, when
    /// its magnitude is already at (or below) the smallest step, or when the
    /// attempts are used up. The last is no failure.
    pub fn accepts(&self, opts: &StepOptions, check: ErrorCheck) -> (r: bool)
        requires
            self.step.wf(),
        ensures
            r == spec_accepts(*self, *opts, check),
    {
        check.within || self.step.abs().nanos <= opts.min_step.nanos || self.attempts >= opts.attempts
    }

    /// The attempts allowed for this step are all used.
    pub fn exhausted(&self, opts: &StepOptions) -> (r: bool)
        ensures
            r == (self.attempts >= opts.attempts),
    {
        self.attempts >= opts.attempts
    }

    /// Attempts are left, so an evaluation may still be rejected.
    pub open spec fn attempts_left(self, opts: StepOptions) -> bool {
        self.attempts < opts.attempts
    }

    /// After a rejected evaluation: try again with the shrunk step, held within
    /// the step limits by magnitude and kept in the direction of the trial, and
    /// count one more attempt.
    pub fn retry(&mut self, opts: &StepOptions, shrunk: Duration)
        requires
            old(self).attempts_left(*opts),
            opts.wf(),
            shrunk.wf(),
        ensures
            final(self).attempts == old(self).attempts + 1,
            final(self).step == clamped_like(shrunk, old(self).step, *opts),
    {
        self.attempts = self.attempts + 1;
        self.step = clamp_magnitude(shrunk, self.step, opts);
    }
}

/// The step size to start the next step with, once a step of size `used` was
/// kept: the grown proposal, held within the step limits by magnitude, in the
/// direction of `used`.
pub fn next_step_size(opts: &StepOptions, used: Duration, grown: Duration) -> (r: Duration)
    requires
        opts.wf(),
        grown.wf(),
    ensures
        r == clamped_like(grown, used, *opts),
        r.wf(),
{
    clamp_magnitude(grown, used, opts)
}

/// The step size recorded for a kept step: in fixed-step mode the configured
/// step itself, exactly; otherwise the size of the trial that was kept.
pub fn recorded_step(fixed: bool, configured: Duration, kept: &StepTrial) -> (r: Duration)
    ensures
        fixed ==> r == configured,
        !fixed ==> r == kept.step,
{
    if fixed {
        configured
    } else {
        kept.step
    }
}

/// A step is never retried beyond the attempts allowed: from the first
/// evaluation, each retry counts one attempt, and once they are used up the
/// evaluation is kept whatever its error.
pub proof fn retries_are_bounded(trial: StepTrial, opts: StepOptions, check: ErrorCheck)
    requires
        trial.attempts >= 1,
    ensures
        trial.attempts >= opts.attempts ==> spec_accepts(trial, opts, check),
        !spec_accepts(trial, opts, check) ==> trial.attempts_left(opts),
{
}

/// Step-size control never turns a run around: a retried step and the next
/// step both point the way the step before them did, and their magnitude lies
/// within the step limits.
pub proof fn step_control_keeps_direction(proposal: Duration, direction: Duration, opts: StepOptions)
    requires
        opts.wf(),
    ensures
        ({
            let r = clamped_like(proposal, direction, opts);
            &&& (direction.nanos < 0) == (r.nanos < 0)
            &&& opts.min_step.nanos <= magnitude(r) <= opts.max_step.nanos
        }),
{
}

} // verus!
