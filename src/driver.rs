//! Decisions of the propagation driver: how a run for a duration is set up,
//! which step comes next, and how the step setting is restored at the end.
//!
//! The caller owns the loop: it asks `next_action`, performs the step with its
//! stepper, and asks again with the new epoch and the stepper's next step.

use vstd::prelude::*;
use crate::time::{Duration, Epoch, NANOS_PER_MINUTE, in_range};

verus! {

/// The step size the stepper will try next, and whether it adapts it.
#[derive(Clone, Copy, Debug, PartialEq, Eq, Structural)]
pub struct StepSetting {
    pub step: Duration,
    pub fixed: bool,
}

impl StepSetting {
    /// Allows setting the step size of the propagator.
    pub fn set_step(&mut self, step: Duration, fixed: bool)
        ensures
            final(self).step == step,
            final(self).fixed == fixed,
    {
        self.step = step;
        self.fixed = fixed;
    }
}

/// A propagation run towards a fixed stop epoch.
#[derive(Clone, Copy, Debug, PartialEq, Eq, Structural)]
pub struct DurationRun {
    pub stop: Epoch,
    /// The run goes back in time: the step size is negated while it lasts.
    pub backward: bool,
    /// The duration is long enough to be announced in the log.
    pub announce: bool,
}

/// How a request to propagate for a duration starts.
#[derive(Clone, Copy, Debug, PartialEq, Eq, Structural)]
pub enum Start {
    /// A zero duration: the state is returned as it is, untouched.
    Unchanged,
    /// A run, with the step setting the stepper uses while it lasts.
    Run { run: DurationRun, working: StepSetting },
}

/// What the driver does next.
#[derive(Clone, Copy, Debug, PartialEq, Eq, Structural)]
pub enum DriveAction {
    /// Take one ordinary step with the current setting.
    Step,
    /// Take one fixed step of exactly this duration, which ends on the stop epoch.
    FinalStep(Duration),
    /// The state lies on the stop epoch: the run is over.
    Finish,
}

/// Durations of more than two minutes either way are announced.
pub open spec fn announced(duration: Duration) -> bool {
    duration.nanos > 2 * NANOS_PER_MINUTE || duration.nanos < -2 * NANOS_PER_MINUTE
}

/// A step of `step` from `now` reaches or passes the stop epoch: forward, when
/// it would land beyond it; backward, when it would land on it or beyond it.
pub open spec fn crosses_stop(run: DurationRun, now: Epoch, step: Duration) -> bool {
    if run.backward {
        now.nanos + step.nanos <= run.stop.nanos
    } else {
        now.nanos + step.nanos > run.stop.nanos
    }
}

pub open spec fn spec_start(now: Epoch, duration: Duration, setting: StepSetting) -> Start {
    if duration.nanos == 0 {
        Start::Unchanged
    } else {
        let backward = duration.nanos < 1;
        Start::Run {
            run: DurationRun {
                stop: Epoch { nanos: (now.nanos + duration.nanos) as i128 },
                backward,
                announce: announced(duration),
            },
            working: StepSetting {
                step: if backward { Duration { nanos: (-setting.step.nanos) as i128 } } else { setting.step },
                fixed: setting.fixed,
            },
        }
    }
}

pub open spec fn spec_next_action(run: DurationRun, now: Epoch, step: Duration) -> DriveAction {
    if !crosses_stop(run, now, step) {
        DriveAction::Step
    } else if now == run.stop {
        DriveAction::Finish
    } else {
        DriveAction::FinalStep(Duration { nanos: (run.stop.nanos - now.nanos) as i128 })
    }
}

/// Sets up a propagation from `now` for `duration`. A zero duration leaves
/// everything as it is. A negative one (under one nanosecond) runs backward,
/// with the step size negated for the length of the run.
pub fn start_run(now: Epoch, duration: Duration, setting: StepSetting) -> (r: Start)
    requires
        now.wf(),
        duration.wf(),
        setting.step.wf(),
        in_range(now.nanos + duration.nanos),
    ensures
        r == spec_start(now, duration, setting),
{
    if duration.is_zero() {
        return Start::Unchanged;
    }
    let backward = duration.nanos < 1;
    let announce = duration.nanos > 2 * NANOS_PER_MINUTE || duration.nanos < -2 * NANOS_PER_MINUTE;
    let step = if backward {
        setting.step.negated()
    } else {
        setting.step
    };
    Start::Run {
        run: DurationRun { stop: now.shifted(duration), backward, announce },
        working: StepSetting { step, fixed: setting.fixed },
    }
}

/// Chooses the next move of a run, given the current epoch and the step the
/// stepper would take next. Where that step would reach or pass the stop
/// epoch, the run ends with one fixed step of exactly the remaining duration,
/// or at once when nothing remains.
pub fn next_action(run: &DurationRun, now: Epoch, step: Duration) -> (r: DriveAction)
    requires
        run.stop.wf(),
        now.wf(),
        step.wf(),
        in_range(run.stop.nanos - now.nanos),
    ensures
        r == spec_next_action(*run, now, step),
        r matches DriveAction::FinalStep(d) ==> now.nanos + d.nanos == run.stop.nanos && d.wf(),
{
    let crosses = if run.backward {
        now.nanos + step.nanos <= run.stop.nanos
    } else {
        now.nanos + step.nanos > run.stop.nanos
    };
    if !crosses {
        DriveAction::Step
    } else if now == run.stop {
        DriveAction::Finish
    } else {
        DriveAction::FinalStep(run.stop.since(now))
    }
}

/// The step setting to keep once the run is over: the setting the stepper
/// ended with, turned back to the forward direction after a backward run.
pub fn end_run(run: &DurationRun, working: StepSetting) -> (r: StepSetting)
    requires
        working.step.wf(),
    ensures
        r.fixed == working.fixed,
        r.step.nanos == if run.backward { -working.step.nanos } else { working.step.nanos as int },
{
    if run.backward {
        StepSetting { step: working.step.negated(), fixed: working.fixed }
    } else {
        working
    }
}

/// Propagating for a zero duration hands the state back untouched: no step is
/// taken and the step setting is not changed.
pub proof fn zero_duration_leaves_state(now: Epoch, setting: StepSetting)
    ensures
        spec_start(now, Duration { nanos: 0 }, setting) == Start::Unchanged,
{
}

/// Propagating for a duration and then for its opposite ends on the starting
/// epoch: the second run stops exactly where the first one began, and goes the
/// other way.
pub proof fn reverse_run_returns_to_start(now: Epoch, duration: Duration, setting: StepSetting)
    requires
        now.wf(),
        duration.wf(),
        duration.nanos != 0,
        in_range(now.nanos + duration.nanos),
    ensures
        ({
            let first = spec_start(now, duration, setting);
            let there = Epoch { nanos: (now.nanos + duration.nanos) as i128 };
            let back = spec_start(there, Duration { nanos: (-duration.nanos) as i128 }, setting);
            &&& first matches Start::Run { run: r1, .. }
            &&& back matches Start::Run { run: r2, .. }
            &&& r1.stop == there
            &&& r2.stop == now
            &&& r1.backward != r2.backward
        }),
{
}

/// Every run ends on its stop epoch: the fixed final step covers exactly the
/// remaining duration, and a run finishes without a step only on the stop epoch.
pub proof fn run_ends_on_stop(run: DurationRun, now: Epoch, step: Duration)
    requires
        run.stop.wf(),
        now.wf(),
    ensures
        spec_next_action(run, now, step) matches DriveAction::FinalStep(d)
            ==> now.nanos + d.nanos == run.stop.nanos,
        spec_next_action(run, now, step) == DriveAction::Finish ==> now == run.stop,
{
}

/// The epoch on which a run that is at `now` ends when the stepper always takes
/// the whole step `step` it is given, or `None` if that takes more than `fuel`
/// moves.
pub open spec fn fixed_run_end(run: DurationRun, now: Epoch, step: Duration, fuel: nat) -> Option<Epoch>
    decreases fuel,
{
    if fuel == 0 {
        None
    } else {
        match spec_next_action(run, now, step) {
            DriveAction::Step => fixed_run_end(
                run,
                Epoch { nanos: (now.nanos + step.nanos) as i128 },
                step,
                (fuel - 1) as nat,
            ),
            DriveAction::FinalStep(d) => Some(Epoch { nanos: (now.nanos + d.nanos) as i128 }),
            DriveAction::Finish => Some(now),
        }
    }
}

/// With a fixed step in the direction of the run, the run ends, after at most
/// `|stop - now| / |step| + 1` moves, and it ends exactly on the stop epoch.
pub proof fn fixed_run_ends_on_stop(run: DurationRun, now: Epoch, step: Duration)
    requires
        run.stop.wf(),
        now.wf(),
        step.wf(),
        if run.backward {
            step.nanos < 0 && run.stop.nanos <= now.nanos
        } else {
            step.nanos > 0 && now.nanos <= run.stop.nanos
        },
    ensures
        fixed_run_end(
            run,
            now,
            step,
            (if run.backward { (now.nanos - run.stop.nanos) / (-step.nanos) } else { (run.stop.nanos
                - now.nanos) / (step.nanos as int) } + 1) as nat,
        ) == Some(run.stop),
    decreases (if run.backward { now.nanos - run.stop.nanos } else { run.stop.nanos - now.nanos }),
{
    let gap: int = if run.backward { now.nanos - run.stop.nanos } else { run.stop.nanos - now.nanos };
    let mag: int = if run.backward { -step.nanos } else { step.nanos as int };
    let fuel: nat = (gap / mag + 1) as nat;
    match spec_next_action(run, now, step) {
        DriveAction::Step => {
            let next = Epoch { nanos: (now.nanos + step.nanos) as i128 };
            assert(gap >= mag);
            assert((gap - mag) / mag == gap / mag - 1) by {
                vstd::arithmetic::div_mod::lemma_div_minus_one(gap, mag);
            }
            fixed_run_ends_on_stop(run, next, step);
        },
        DriveAction::FinalStep(d) => {},
        DriveAction::Finish => {},
    }
}

} // verus!
