//! Control of the B-Plane targeter: which searches run and in which order,
//! when a search stops, which failures surface, and which search's velocity
//! correction is kept.
//!
//! A search holds one velocity component fixed and solves the 2x2 system of
//! (B.T, B.R) in the other two, or solves the full 3x3 system of (B.T, B.R,
//! LTOF) in all three. The caller builds the B-Plane and solves the linear
//! systems; it reports here whether the residuals met their tolerances and
//! whether the residual norm failed to decrease.

use vstd::prelude::*;

verus! {

/// The most corrections one search applies.
pub const MAX_ITERATIONS: u32 = 10;

/// The kinds of search, in the order in which they run.
#[derive(Clone, Copy, Debug, PartialEq, Eq, Structural)]
pub enum SearchKind {
    HoldVx,
    HoldVy,
    HoldVz,
    Full,
}

/// Components of a Cartesian state.
#[derive(Clone, Copy, Debug, PartialEq, Eq, Structural)]
pub enum StateParameter {
    X,
    Y,
    Z,
    VX,
    VY,
    VZ,
}

#[derive(Clone, Copy, Debug, PartialEq, Eq, Structural)]
pub enum TargetingError {
    /// The component a 2x2 search holds fixed is not a velocity component.
    BadInvariant,
    /// The full search did not converge within the allowed iterations.
    MaxIterReached,
    /// The residual of the full search stopped decreasing.
    CorrectionIneffective,
}

pub open spec fn rank(k: SearchKind) -> int {
    match k {
        SearchKind::HoldVx => 0,
        SearchKind::HoldVy => 1,
        SearchKind::HoldVz => 2,
        SearchKind::Full => 3,
    }
}

pub open spec fn spec_following(k: SearchKind) -> Option<SearchKind> {
    match k {
        SearchKind::HoldVx => Some(SearchKind::HoldVy),
        SearchKind::HoldVy => Some(SearchKind::HoldVz),
        SearchKind::HoldVz => Some(SearchKind::Full),
        SearchKind::Full => None,
    }
}

/// The search that runs after `k`, if any.
pub fn following(k: SearchKind) -> (r: Option<SearchKind>)
    ensures
        r == spec_following(k),
        r matches Some(n) ==> rank(n) == rank(k) + 1,
        r is None <==> k == SearchKind::Full,
{
    match k {
        SearchKind::HoldVx => Some(SearchKind::HoldVy),
        SearchKind::HoldVy => Some(SearchKind::HoldVz),
        SearchKind::HoldVz => Some(SearchKind::Full),
        SearchKind::Full => None,
    }
}

/// The velocity component a 2x2 search holds fixed.
pub fn held_parameter(k: SearchKind) -> (r: Option<StateParameter>)
    ensures
        r == match k {
            SearchKind::HoldVx => Some(StateParameter::VX),
            SearchKind::HoldVy => Some(StateParameter::VY),
            SearchKind::HoldVz => Some(StateParameter::VZ),
            SearchKind::Full => None::<StateParameter>,
        },
{
    match k {
        SearchKind::HoldVx => Some(StateParameter::VX),
        SearchKind::HoldVy => Some(StateParameter::VY),
        SearchKind::HoldVz => Some(StateParameter::VZ),
        SearchKind::Full => None,
    }
}

pub open spec fn spec_free_components(held: StateParameter) -> Option<(usize, usize)> {
    match held {
        StateParameter::VX => Some((1usize, 2usize)),
        StateParameter::VY => Some((0usize, 2usize)),
        StateParameter::VZ => Some((0usize, 1usize)),
        _ => None,
    }
}

/// The two velocity components (0 for vx, 1 for vy, 2 for vz) that a 2x2
/// search varies when `held` is held fixed: the columns of its Jacobian,
/// and the components its correction is added to.
pub fn free_components(held: StateParameter) -> (r: Result<(usize, usize), TargetingError>)
    ensures
        spec_free_components(held) matches Some(c) ==> r == Ok::<(usize, usize), TargetingError>(c),
        spec_free_components(held) is None ==> r == Err::<(usize, usize), TargetingError>(
            TargetingError::BadInvariant,
        ),
        r matches Ok(c) ==> c.0 < c.1 < 3,
{
    match held {
        StateParameter::VX => Ok((1, 2)),
        StateParameter::VY => Ok((0, 2)),
        StateParameter::VZ => Ok((0, 1)),
        _ => Err(TargetingError::BadInvariant),
    }
}

/// The slots of a 7-slot hyperdual that carry the partial derivatives with
/// respect to the two velocity components left free when `held` is held fixed: slots 4,
/// 5 and 6 hold the partials with respect to vx, vy and vz.
pub fn jacobian2_slots(held: StateParameter) -> (r: Result<(usize, usize), TargetingError>)
    ensures
        spec_free_components(held) matches Some(c) ==> r == Ok::<(usize, usize), TargetingError>(
            ((c.0 + 4) as usize, (c.1 + 4) as usize),
        ),
        spec_free_components(held) is None ==> r == Err::<(usize, usize), TargetingError>(
            TargetingError::BadInvariant,
        ),
{
    match free_components(held) {
        Ok(c) => Ok((c.0 + 4, c.1 + 4)),
        Err(e) => Err(e),
    }
}

/// What came of one search.
#[derive(Clone, Copy, Debug, PartialEq, Eq, Structural)]
pub struct PassOutcome {
    pub kind: SearchKind,
    /// The residuals met their tolerances.
    pub converged: bool,
    /// Corrections applied before the search stopped.
    pub iterations: u32,
}

/// What to do with the residuals of the current B-Plane.
#[derive(Clone, Copy, Debug, PartialEq, Eq, Structural)]
pub enum Assessment {
    /// The target is met: record the LTOF and stop this search.
    Converged,
    /// Stop this search quietly and go on with the next one.
    Abandon,
    Fail(TargetingError),
    /// Solve for a velocity correction, apply it and iterate.
    Correct,
}

/// Where the targeter goes after a search has stopped.
#[derive(Clone, Copy, Debug, PartialEq, Eq, Structural)]
pub struct PassEnd {
    /// Replace the LTOF target with the LTOF of the best search so far before
    /// the next search starts.
    pub substitute_ltof: bool,
    /// The search to run next; none when the targeter is done.
    pub next: Option<SearchKind>,
}

/// The state of a targeting run.
pub struct Targeter {
    /// The first search: the full one alone when an LTOF target is armed,
    /// otherwise the three 2x2 searches and then the full one.
    pub first: SearchKind,
    pub current: SearchKind,
    pub iteration: u32,
    pub done: bool,
    /// The search whose total correction is the smallest so far.
    pub best: Option<SearchKind>,
    pub outcomes: Vec<PassOutcome>,
}

pub open spec fn spec_assess(
    first: SearchKind,
    current: SearchKind,
    iteration: u32,
    converged: bool,
    diverged: bool,
) -> Assessment {
    if converged {
        Assessment::Converged
    } else if current == SearchKind::Full && diverged {
        if first == SearchKind::Full {
            Assessment::Fail(TargetingError::CorrectionIneffective)
        } else {
            Assessment::Abandon
        }
    } else if iteration >= MAX_ITERATIONS {
        if first == SearchKind::Full {
            Assessment::Fail(TargetingError::MaxIterReached)
        } else {
            Assessment::Abandon
        }
    } else {
        Assessment::Correct
    }
}

impl Targeter {
    pub open spec fn wf(self) -> bool {
        &&& rank(self.first) <= rank(self.current)
        &&& self.first == SearchKind::HoldVx || self.first == SearchKind::Full
        &&& self.iteration <= MAX_ITERATIONS
        &&& self.done ==> self.current == SearchKind::Full
        &&& self.outcomes@.len() == rank(self.current) - rank(self.first) + if self.done { 1int } else { 0 }
        &&& forall|i: int|
            0 <= i < self.outcomes@.len() ==> rank(#[trigger] self.outcomes@[i].kind) == rank(self.first) + i
        &&& self.best matches Some(b) ==> rank(self.first) <= rank(b) <= rank(self.current)
    }

    /// A targeting run: with an LTOF target, the full search alone; without
    /// one, the 2x2 searches holding vx, vy and vz in turn, then the full one.
    pub fn new(ltof_armed: bool) -> (r: Targeter)
        ensures
            r.wf(),
            r.first == (if ltof_armed { SearchKind::Full } else { SearchKind::HoldVx }),
            r.current == r.first,
            r.iteration == 0,
            !r.done,
            r.best is None,
            r.outcomes@.len() == 0,
    {
        let first = if ltof_armed {
            SearchKind::Full
        } else {
            SearchKind::HoldVx
        };
        Targeter { first, current: first, iteration: 0, done: false, best: None, outcomes: Vec::new() }
    }

    /// Judges the residuals of the current B-Plane. `converged`: every residual
    /// lies within its tolerance. `diverged`: the residual norm of the full
    /// search is no smaller than at the previous iteration. A search that
    /// diverges, or that has already applied its last correction, stops: that
    /// fails the run when the full search is the only one, and otherwise moves
    /// on to the next search.
    pub fn assess(&self, converged: bool, diverged: bool) -> (r: Assessment)
        requires
            self.wf(),
        ensures
            r == spec_assess(self.first, self.current, self.iteration, converged, diverged),
            r is Fail ==> self.first == SearchKind::Full && self.current == SearchKind::Full,
    {
        if converged {
            Assessment::Converged
        } else if self.current == SearchKind::Full && diverged {
            if self.first == SearchKind::Full {
                Assessment::Fail(TargetingError::CorrectionIneffective)
            } else {
                Assessment::Abandon
            }
        } else if self.iteration >= MAX_ITERATIONS {
            if self.first == SearchKind::Full {
                Assessment::Fail(TargetingError::MaxIterReached)
            } else {
                Assessment::Abandon
            }
        } else {
            Assessment::Correct
        }
    }

    /// A correction was applied: count the iteration.
    pub fn corrected(&mut self)
        requires
            old(self).wf(),
            old(self).iteration < MAX_ITERATIONS,
        ensures
            final(self).wf(),
            final(self).iteration == old(self).iteration + 1,
            final(self).first == old(self).first,
            final(self).current == old(self).current,
            final(self).done == old(self).done,
            final(self).best == old(self).best,
            final(self).outcomes@ == old(self).outcomes@,
    {
        self.iteration = self.iteration + 1;
    }

    /// The current search has stopped. `converged` says whether it met the
    /// target; `smaller` whether its total correction is smaller than the best
    /// one so far, which it then replaces. After the search that holds vz, the
    /// LTOF target takes the LTOF of the best search. The next search starts
    /// from iteration zero.
    pub fn close_pass(&mut self, converged: bool, smaller: bool) -> (r: PassEnd)
        requires
            old(self).wf(),
            !old(self).done,
        ensures
            final(self).wf(),
            final(self).first == old(self).first,
            final(self).outcomes@ == old(self).outcomes@.push(
                PassOutcome { kind: old(self).current, converged, iterations: old(self).iteration },
            ),
            final(self).best == if smaller { Some(old(self).current) } else { old(self).best },
            r.substitute_ltof == (old(self).current == SearchKind::HoldVz),
            r.next == spec_following(old(self).current),
            r.next matches Some(n) ==> final(self).current == n && !final(self).done,
            r.next is None ==> final(self).done && final(self).current == old(self).current,
            final(self).iteration == 0,
    {
        let outcome = PassOutcome { kind: self.current, converged, iterations: self.iteration };
        self.outcomes.push(outcome);
        if smaller {
            self.best = Some(self.current);
        }
        let substitute_ltof = self.current == SearchKind::HoldVz;
        let next = following(self.current);
        match next {
            Some(n) => {
                self.current = n;
            },
            None => {
                self.done = true;
            },
        }
        self.iteration = 0;
        PassEnd { substitute_ltof, next }
    }
}

/// Failures surface only from the full search run alone: when the run starts
/// with the 2x2 searches, neither the iteration limit nor a growing residual
/// ends it with an error.
pub proof fn relaxed_run_never_fails(t: Targeter, converged: bool, diverged: bool)
    requires
        t.first == SearchKind::HoldVx,
    ensures
        !(spec_assess(t.first, t.current, t.iteration, converged, diverged) is Fail),
{
}

/// A search applies at most `MAX_ITERATIONS` corrections, and the outcome of
/// each is judged: once the last correction is applied, the next judgement
/// either accepts the result or stops the search.
pub proof fn corrections_are_bounded(t: Targeter, converged: bool, diverged: bool)
    requires
        t.wf(),
    ensures
        t.iteration <= MAX_ITERATIONS,
        spec_assess(t.first, t.current, t.iteration, converged, diverged) == Assessment::Correct
            ==> t.iteration < MAX_ITERATIONS,
{
}

/// The searches of a run follow one another in order, from the first one to
/// the full search, each once.
pub proof fn searches_run_in_order(t: Targeter)
    requires
        t.wf(),
        t.done,
    ensures
        t.current == SearchKind::Full,
        t.outcomes@.len() == 4 - rank(t.first),
        forall|i: int| 0 <= i < t.outcomes@.len() ==> rank(#[trigger] t.outcomes@[i].kind) == rank(t.first) + i,
{
}

} // verus!
