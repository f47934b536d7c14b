//! The delegation barrier.
use agent_daemon::delegation_runner::{
    child_recovery, classify_subagents, completion_wakeup_needs_drive,
    delegation_wakeup_client_input_id, launch_is_partial, open_barrier, recover_active_delegation,
    repair_completed_delegation_publication, ChildRecovery, InFlightBarriers,
};
use agent_daemon::interop::parse_json;
use agent_daemon::records::{Delegation, DelegationKind, DelegationStatus, QueuedInputStatus};
use agent_daemon::transcript::{HistoryTree, TranscriptEntry, TranscriptItem, TurnOutcome};

fn delegation(status: DelegationStatus, expected: i32) -> Delegation {
    Delegation {
        id: "d1".to_string(),
        parent_session_id: "parent".to_string(),
        workflow: None,
        label: None,
        kind: DelegationKind::ReadonlyFanout,
        status,
        attempt_id: "attempt-1".to_string(),
        expected_subagents: expected,
    }
}

fn history(outcome: TurnOutcome) -> HistoryTree {
    HistoryTree {
        session_id: "c".to_string(),
        active_leaf_id: Some("e1".to_string()),
        entries: vec![TranscriptEntry {
            id: "e1".to_string(),
            item: TranscriptItem::TurnFinished { turn_id: 1, outcome },
        }],
    }
}

#[test]
fn positions_are_recovered_in_order() {
    let slots = recover_active_delegation(
        &delegation(DelegationStatus::Running, 3),
        &vec![(2, "c2".to_string()), (0, "c0".to_string()), (0, "late".to_string())],
    );
    let found: Vec<(i32, Option<&str>)> =
        slots.iter().map(|s| (s.index, s.session_id.as_deref())).collect();
    assert_eq!(found, vec![(0, Some("c0")), (1, None), (2, Some("c2"))]);
    let none = recover_active_delegation(&delegation(DelegationStatus::Running, -1), &Vec::new());
    assert!(none.is_empty());
    assert_eq!(child_recovery(true), ChildRecovery::KeepOpenTurn);
    assert_eq!(child_recovery(false), ChildRecovery::RecoverTail);
}

#[test]
fn launches_are_partial_until_all_are_spawned() {
    let row = delegation(DelegationStatus::Running, 2);
    assert!(launch_is_partial(&row, 1));
    assert!(!launch_is_partial(&row, 2));
    assert!(!launch_is_partial(&row, 3));
    assert!(launch_is_partial(&delegation(DelegationStatus::Running, -1), 5));
}

#[test]
fn barriers_do_not_nest() {
    let mut in_flight = InFlightBarriers::new();
    assert!(in_flight.enter("d1"));
    assert!(in_flight.enter("d2"));
    assert!(!in_flight.enter("d1"));
    in_flight.leave("d1");
    assert!(in_flight.enter("d1"));
    in_flight.leave("unknown");
    assert!(!in_flight.enter("d2"));
}

#[test]
fn only_running_delegations_have_a_barrier() {
    assert!(open_barrier(None).is_none());
    for status in [
        DelegationStatus::Done,
        DelegationStatus::DoneWithFailures,
        DelegationStatus::Cancelled,
        DelegationStatus::Failed,
    ] {
        assert!(open_barrier(Some(delegation(status, 1))).is_none());
    }
    let barrier = open_barrier(Some(delegation(DelegationStatus::Running, 1))).unwrap();
    assert!(barrier.after_recovery(false).is_none());
}

#[test]
fn one_failure_taints_a_delegation_in_any_order() {
    let good = || history(TurnOutcome::Graceful);
    let bad = || history(TurnOutcome::Crashed);
    assert_eq!(classify_subagents(&Vec::new()), DelegationStatus::Done);
    assert_eq!(classify_subagents(&vec![good(), good()]), DelegationStatus::Done);
    assert_eq!(classify_subagents(&vec![bad(), good()]), DelegationStatus::DoneWithFailures);
    assert_eq!(classify_subagents(&vec![good(), bad()]), DelegationStatus::DoneWithFailures);
}

#[test]
fn a_won_claim_is_published_once() {
    let met = || {
        open_barrier(Some(delegation(DelegationStatus::Running, 1)))
            .unwrap()
            .after_recovery(true)
            .unwrap()
    };
    let claim = met().classify(&vec![history(TurnOutcome::Graceful)]);
    assert_eq!(claim.status, DelegationStatus::Done);
    assert!(claim.after_claim(false).is_none());
    let completed = met()
        .classify(&vec![history(TurnOutcome::Graceful)])
        .after_claim(true)
        .unwrap();
    assert_eq!(completed.delegation.status, DelegationStatus::Done);
    assert_eq!(completed.client_input_id, "delegation-steer:d1:attempt-1");
    let snapshot = parse_json(r#"{"delegation_id":"d1","status":"done"}"#).unwrap();
    let wakeup = completed.publication(&snapshot).unwrap();
    assert_eq!(wakeup.parent_session_id, "parent");
    assert_eq!(wakeup.client_input_id, "delegation-steer:d1:attempt-1");
    assert_eq!(wakeup.observation.result_json, snapshot);

    let repaired =
        repair_completed_delegation_publication(delegation(DelegationStatus::DoneWithFailures, 1))
            .unwrap();
    assert_eq!(repaired.client_input_id, wakeup.client_input_id);
    assert_eq!(repaired.delegation.status, DelegationStatus::DoneWithFailures);
    for status in [DelegationStatus::Running, DelegationStatus::Cancelled, DelegationStatus::Failed] {
        assert!(repair_completed_delegation_publication(delegation(status, 1)).is_none());
    }
}

#[test]
fn attempts_have_keys_of_their_own() {
    let mut second = delegation(DelegationStatus::Done, 1);
    second.attempt_id = "attempt-2".to_string();
    assert_eq!(delegation_wakeup_client_input_id(&second), "delegation-steer:d1:attempt-2");
}

#[test]
fn queued_wakeups_are_driven() {
    assert!(completion_wakeup_needs_drive(Some(QueuedInputStatus::Queued)));
    assert!(completion_wakeup_needs_drive(Some(QueuedInputStatus::Consuming)));
    assert!(!completion_wakeup_needs_drive(Some(QueuedInputStatus::Consumed)));
    assert!(!completion_wakeup_needs_drive(Some(QueuedInputStatus::Cancelled)));
    assert!(!completion_wakeup_needs_drive(None));
}
