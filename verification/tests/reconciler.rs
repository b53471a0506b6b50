use deactivator::ActResult;
use deactivator::Action;
use deactivator::ActivationState;
use deactivator::DeactivationOutcome;
use deactivator::Reconciler;
use deactivator::RunSummary;

fn names(list: &[&str]) -> Vec<String> {
    list.iter().map(|s| s.to_string()).collect()
}

#[test]
fn active_candidate_confirmed_deactivated_counts_once() {
    let mut r = Reconciler::new(names(&["alice"]));
    assert_eq!(r.next_action(), Action::Lookup(0));
    assert_eq!(r.on_lookup(ActivationState::Active), None);
    assert_eq!(r.next_action(), Action::Deactivate(0));
    r.on_act(ActResult::Delivered);
    assert_eq!(r.next_action(), Action::Lookup(0));
    assert_eq!(
        r.on_lookup(ActivationState::Inactive),
        Some(DeactivationOutcome::Deactivated)
    );
    assert_eq!(r.next_action(), Action::Report);
    assert_eq!(r.summary(), RunSummary { deactivated: 1, total: 1 });
}

#[test]
fn already_inactive_candidate_is_skipped_without_a_request() {
    let mut r = Reconciler::new(names(&["alice", "bob"]));
    assert_eq!(r.next_action(), Action::Lookup(0));
    assert_eq!(
        r.on_lookup(ActivationState::Inactive),
        Some(DeactivationOutcome::AlreadyInactive)
    );
    // The machine went straight to the next candidate's pre-check:
    // no deactivation request was ever asked for.
    assert_eq!(r.next_action(), Action::Lookup(1));
}

#[test]
fn unknown_candidate_is_skipped_without_a_request() {
    let mut r = Reconciler::new(names(&["alice"]));
    assert_eq!(r.next_action(), Action::Lookup(0));
    assert_eq!(
        r.on_lookup(ActivationState::Unknown),
        Some(DeactivationOutcome::RequestFailed)
    );
    assert_eq!(r.next_action(), Action::Report);
    assert_eq!(r.summary(), RunSummary { deactivated: 0, total: 1 });
}

#[test]
fn post_check_still_active_is_unconfirmed_and_not_counted() {
    let mut r = Reconciler::new(names(&["alice"]));
    assert_eq!(r.on_lookup(ActivationState::Active), None);
    r.on_act(ActResult::Delivered);
    assert_eq!(
        r.on_lookup(ActivationState::Active),
        Some(DeactivationOutcome::Unconfirmed)
    );
    assert_eq!(r.summary(), RunSummary { deactivated: 0, total: 1 });
}

#[test]
fn post_check_unknown_is_unconfirmed_and_not_counted() {
    let mut r = Reconciler::new(names(&["alice"]));
    assert_eq!(r.on_lookup(ActivationState::Active), None);
    r.on_act(ActResult::Delivered);
    assert_eq!(
        r.on_lookup(ActivationState::Unknown),
        Some(DeactivationOutcome::Unconfirmed)
    );
    assert_eq!(r.summary(), RunSummary { deactivated: 0, total: 1 });
}

#[test]
fn transport_error_halts_the_run() {
    // Candidates ["dave"]: pre-check Active, then the request fails at the
    // transport level. The run aborts: the only action left is Halt, so no
    // later step happens and no summary is ever produced.
    let mut r = Reconciler::new(names(&["dave"]));
    assert_eq!(r.next_action(), Action::Lookup(0));
    assert_eq!(r.on_lookup(ActivationState::Active), None);
    assert_eq!(r.next_action(), Action::Deactivate(0));
    r.on_act(ActResult::TransportError);
    assert_eq!(r.next_action(), Action::Halt);
}

#[test]
fn transport_error_leaves_later_candidates_unevaluated() {
    let mut r = Reconciler::new(names(&["dave", "erin"]));
    assert_eq!(r.on_lookup(ActivationState::Active), None);
    r.on_act(ActResult::TransportError);
    // The second candidate's pre-check is never asked for.
    assert_eq!(r.next_action(), Action::Halt);
}

#[test]
fn rerun_over_all_inactive_list_is_idempotent() {
    // Every candidate already inactive: the summary is (0, N) and no
    // deactivation request is ever asked for.
    let mut r = Reconciler::new(names(&["alice", "bob", "carol"]));
    let mut writes = 0;
    loop {
        match r.next_action() {
            Action::Lookup(_) => {
                r.on_lookup(ActivationState::Inactive);
            }
            Action::Deactivate(_) => {
                writes += 1;
                r.on_act(ActResult::Delivered);
            }
            Action::Report => break,
            Action::Halt => panic!("run aborted"),
        }
    }
    assert_eq!(writes, 0);
    assert_eq!(r.summary(), RunSummary { deactivated: 0, total: 3 });
}

#[test]
fn mixed_run_counts_only_the_confirmed_deactivation() {
    // alice: Active, delivered, confirmed Inactive -> counted.
    // bob: already Inactive -> skipped.
    // carol: Active, delivered, still Active -> Unconfirmed, noticed.
    let mut r = Reconciler::new(names(&["alice", "bob", "carol"]));
    let mut notices: Vec<String> = Vec::new();

    assert_eq!(r.next_action(), Action::Lookup(0));
    assert_eq!(r.on_lookup(ActivationState::Active), None);
    assert_eq!(r.next_action(), Action::Deactivate(0));
    assert_eq!(r.candidate(0).as_str(), "alice");
    r.on_act(ActResult::Delivered);
    assert_eq!(r.next_action(), Action::Lookup(0));
    assert_eq!(
        r.on_lookup(ActivationState::Inactive),
        Some(DeactivationOutcome::Deactivated)
    );

    assert_eq!(r.next_action(), Action::Lookup(1));
    assert_eq!(
        r.on_lookup(ActivationState::Inactive),
        Some(DeactivationOutcome::AlreadyInactive)
    );
    notices.push(r.candidate(1).clone());

    assert_eq!(r.next_action(), Action::Lookup(2));
    assert_eq!(r.on_lookup(ActivationState::Active), None);
    assert_eq!(r.next_action(), Action::Deactivate(2));
    r.on_act(ActResult::Delivered);
    assert_eq!(r.next_action(), Action::Lookup(2));
    assert_eq!(
        r.on_lookup(ActivationState::Active),
        Some(DeactivationOutcome::Unconfirmed)
    );
    notices.push(r.candidate(2).clone());

    assert_eq!(r.next_action(), Action::Report);
    assert_eq!(r.summary(), RunSummary { deactivated: 1, total: 3 });
    assert_eq!(notices, vec!["bob".to_string(), "carol".to_string()]);
}

#[test]
fn empty_candidate_list_reports_immediately() {
    let r = Reconciler::new(Vec::new());
    assert_eq!(r.next_action(), Action::Report);
    assert_eq!(r.summary(), RunSummary { deactivated: 0, total: 0 });
    assert_eq!(r.total(), 0);
}

#[test]
fn candidates_are_processed_in_input_order() {
    let mut r = Reconciler::new(names(&["first", "second", "third"]));
    for i in 0..3 {
        assert_eq!(r.next_action(), Action::Lookup(i));
        assert_eq!(r.candidate(i).as_str(), ["first", "second", "third"][i]);
        r.on_lookup(ActivationState::Unknown);
    }
    assert_eq!(r.next_action(), Action::Report);
}
