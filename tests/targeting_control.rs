use nyx_space::targeting::{
    following, free_components, held_parameter, jacobian2_slots, Assessment, PassOutcome, SearchKind,
    StateParameter, Targeter, TargetingError, MAX_ITERATIONS,
};

#[test]
fn search_order() {
    assert_eq!(following(SearchKind::HoldVx), Some(SearchKind::HoldVy));
    assert_eq!(following(SearchKind::HoldVy), Some(SearchKind::HoldVz));
    assert_eq!(following(SearchKind::HoldVz), Some(SearchKind::Full));
    assert_eq!(following(SearchKind::Full), None);
    assert_eq!(held_parameter(SearchKind::HoldVy), Some(StateParameter::VY));
    assert_eq!(held_parameter(SearchKind::Full), None);
}

#[test]
fn jacobian_columns_per_held_component() {
    assert_eq!(free_components(StateParameter::VX), Ok((1, 2)));
    assert_eq!(free_components(StateParameter::VY), Ok((0, 2)));
    assert_eq!(free_components(StateParameter::VZ), Ok((0, 1)));
    assert_eq!(jacobian2_slots(StateParameter::VX), Ok((5, 6)));
    assert_eq!(jacobian2_slots(StateParameter::VY), Ok((4, 6)));
    assert_eq!(jacobian2_slots(StateParameter::VZ), Ok((4, 5)));
    assert_eq!(jacobian2_slots(StateParameter::X), Err(TargetingError::BadInvariant));
    assert_eq!(free_components(StateParameter::Z), Err(TargetingError::BadInvariant));
}

#[test]
fn armed_ltof_runs_full_search_only() {
    let mut t = Targeter::new(true);
    assert_eq!(t.current, SearchKind::Full);
    assert_eq!(t.assess(false, false), Assessment::Correct);
    assert_eq!(t.assess(false, true), Assessment::Fail(TargetingError::CorrectionIneffective));
    assert_eq!(t.assess(true, true), Assessment::Converged);
    for _ in 0..MAX_ITERATIONS {
        assert_eq!(t.assess(false, false), Assessment::Correct);
        t.corrected();
    }
    // The tenth correction is judged: it may still converge.
    assert_eq!(t.assess(true, false), Assessment::Converged);
    assert_eq!(t.assess(false, false), Assessment::Fail(TargetingError::MaxIterReached));
    let end = t.close_pass(false, true);
    assert_eq!(end.next, None);
    assert!(!end.substitute_ltof);
    assert!(t.done);
    assert_eq!(t.best, Some(SearchKind::Full));
}

#[test]
fn unarmed_run_tries_every_search_and_keeps_best() {
    let mut t = Targeter::new(false);
    assert_eq!(t.current, SearchKind::HoldVx);
    // Without convergence after the last correction, a 2x2 search stops quietly.
    for _ in 0..MAX_ITERATIONS {
        t.corrected();
    }
    assert_eq!(t.assess(false, false), Assessment::Abandon);
    let e0 = t.close_pass(false, true);
    assert_eq!(e0.next, Some(SearchKind::HoldVy));
    assert_eq!(t.iteration, 0);
    t.corrected();
    assert_eq!(t.assess(true, false), Assessment::Converged);
    let e1 = t.close_pass(true, true);
    assert_eq!(e1.next, Some(SearchKind::HoldVz));
    let e2 = t.close_pass(true, false);
    assert!(e2.substitute_ltof);
    assert_eq!(e2.next, Some(SearchKind::Full));
    // A diverging full search after the 2x2 searches is abandoned, not an error.
    assert_eq!(t.assess(false, true), Assessment::Abandon);
    let e3 = t.close_pass(false, false);
    assert_eq!(e3.next, None);
    assert_eq!(t.best, Some(SearchKind::HoldVy));
    assert_eq!(
        t.outcomes,
        vec![
            PassOutcome { kind: SearchKind::HoldVx, converged: false, iterations: MAX_ITERATIONS },
            PassOutcome { kind: SearchKind::HoldVy, converged: true, iterations: 1 },
            PassOutcome { kind: SearchKind::HoldVz, converged: true, iterations: 0 },
            PassOutcome { kind: SearchKind::Full, converged: false, iterations: 0 },
        ]
    );
}

#[test]
fn two_by_two_divergence_is_ignored() {
    let t = Targeter::new(false);
    assert_eq!(t.assess(false, true), Assessment::Correct);
}
