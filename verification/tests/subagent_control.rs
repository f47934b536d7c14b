//! Steering and interrupting subagents.
use agent_daemon::delegation_tools::SubagentWorkState;
use agent_daemon::json::Json;
use agent_daemon::records::{
    Delegation, DelegationKind, DelegationStatus, EnqueuedControl, QueuedInputStatus,
    SubagentControlKind, SubagentControlPhase, SubagentControlRecord, SubagentType,
};
use agent_daemon::subagent_control::{
    ensure_subagent_steer_allowed, map_subagent_control_store_error, subagent_control_result,
    ControlAsk, ControlLookup, ControlReload, ControlRequest, InterruptSubagentParams, ScopeQuery,
    SteerSubagentParams, SubagentScope,
};
use agent_daemon::types::RpcError;

fn delegation(status: DelegationStatus) -> Delegation {
    Delegation {
        id: "d1".to_string(),
        parent_session_id: "parent".to_string(),
        workflow: None,
        label: None,
        kind: DelegationKind::Full,
        status,
        attempt_id: "attempt-1".to_string(),
        expected_subagents: 1,
    }
}

fn query() -> ScopeQuery {
    ScopeQuery {
        subagent_id: "child".to_string(),
        parent_session_id: "parent".to_string(),
    }
}

fn scope(status: DelegationStatus) -> SubagentScope {
    query()
        .with_parent(Some(Some("parent".to_string())))
        .unwrap()
        .with_type(Some(SubagentType::Full))
        .unwrap()
        .with_delegation_id(Some(Some("d1".to_string())))
        .unwrap()
        .with_delegation(Some(delegation(status)))
        .unwrap()
}

fn steer(interrupt: Option<bool>, id: Option<&str>) -> ControlRequest {
    ControlRequest::steer(&SteerSubagentParams {
        subagent_id: " child ".to_string(),
        message: " go left ".to_string(),
        interrupt,
        client_control_id: id.map(str::to_string),
    })
    .unwrap()
}

fn record(phase: SubagentControlPhase, status: QueuedInputStatus) -> SubagentControlRecord {
    SubagentControlRecord {
        input_id: "input-1".to_string(),
        status,
        kind: SubagentControlKind::Steer,
        phase,
        interrupt: true,
        interrupted: false,
        interrupt_outcome: None,
        target_active_leaf_id: Some("old-leaf".to_string()),
        target_turn_id: Some(7),
        target_action_attempt_ids: vec!["attempt-1".to_string()],
        delegation_running: true,
    }
}

fn queued() -> EnqueuedControl {
    EnqueuedControl {
        input_id: "input-1".to_string(),
        replayed: false,
        control_phase: Some(SubagentControlPhase::PendingInterrupt),
        control_interrupt_outcome: Some("waiting".to_string()),
    }
}

fn busy() -> SubagentWorkState {
    SubagentWorkState {
        has_unfinished_actions: true,
        has_queued_inputs: false,
        has_active_runtime: false,
        active_leaf_is_turn_boundary: false,
    }
}

fn text(value: &Json, key: &str) -> Option<String> {
    value.get(key).as_ref().and_then(Json::as_str).map(str::to_string)
}

#[test]
fn combined_control_result_reports_durable_interrupt_phase_truthfully() {
    let pending = record(SubagentControlPhase::PendingInterrupt, QueuedInputStatus::Queued);
    let result = subagent_control_result("child", &pending, false, None);
    assert_eq!(result.get("accepted"), Some(Json::Bool(true)));
    assert_eq!(text(&result, "phase").as_deref(), Some("pending_interrupt"));
    assert_eq!(result.get("interrupted"), Some(Json::Null));
    assert_eq!(text(&result, "drive_status").as_deref(), Some("pending"));

    let applied = SubagentControlRecord {
        phase: SubagentControlPhase::InterruptApplied,
        interrupted: true,
        interrupt_outcome: Some("interrupted".to_string()),
        ..pending
    };
    let result =
        subagent_control_result("child", &applied, false, Some("postcommit drive failed"));
    assert_eq!(result.get("accepted"), Some(Json::Bool(true)));
    assert_eq!(text(&result, "phase").as_deref(), Some("interrupt_applied"));
    assert_eq!(result.get("interrupted"), Some(Json::Bool(true)));
    assert_eq!(text(&result, "interrupt_outcome").as_deref(), Some("interrupted"));
    assert_eq!(text(&result, "drive_status").as_deref(), Some("failed"));
}

#[test]
fn drive_statuses_follow_the_phase() {
    for (phase, status, expected, outstanding) in [
        (SubagentControlPhase::Ready, QueuedInputStatus::Queued, "started", true),
        (SubagentControlPhase::Ready, QueuedInputStatus::Consuming, "started", true),
        (SubagentControlPhase::Ready, QueuedInputStatus::Consumed, "settled", false),
        (SubagentControlPhase::Cancelled, QueuedInputStatus::Cancelled, "cancelled", false),
        (SubagentControlPhase::InterruptApplied, QueuedInputStatus::Queued, "pending", true),
    ] {
        let result = subagent_control_result("child", &record(phase, status), true, None);
        assert_eq!(text(&result, "drive_status").as_deref(), Some(expected));
        assert_eq!(result.get("queued"), Some(Json::Bool(outstanding)));
        assert_eq!(result.get("replayed"), Some(Json::Bool(true)));
        assert_eq!(result.get("drive_error"), Some(Json::Null));
        assert_eq!(text(&result, "input_id").as_deref(), Some("input-1"));
    }
}

#[test]
fn scopes_are_checked_step_by_step() {
    let error = query().with_parent(None).unwrap_err();
    assert_eq!((error.code.as_str(), error.message.as_str()), ("subagent_not_found", "subagent not found"));
    for loaded in [None, Some("other".to_string())] {
        let error = query().with_parent(Some(loaded)).unwrap_err();
        assert_eq!(error.message, "subagent is not in scope");
    }
    let child = query().with_parent(Some(Some("parent".to_string()))).unwrap();
    assert_eq!(child.with_type(None).unwrap_err().code, "subagent_not_found");
    let subagent = || {
        query()
            .with_parent(Some(Some("parent".to_string())))
            .unwrap()
            .with_type(Some(SubagentType::ReadOnly))
            .unwrap()
    };
    assert!(subagent().with_delegation_id(None).is_err());
    assert!(subagent().with_delegation_id(Some(None)).is_err());
    let member = || subagent().with_delegation_id(Some(Some("d1".to_string()))).unwrap();
    assert_eq!(member().with_delegation(None).unwrap_err().code, "delegation_not_found");
    let mut stranger = delegation(DelegationStatus::Running);
    stranger.parent_session_id = "other".to_string();
    assert_eq!(member().with_delegation(Some(stranger)).unwrap_err().code, "subagent_not_found");
}

#[test]
fn steering_needs_a_running_delegation_and_work() {
    let idle = SubagentWorkState { has_unfinished_actions: false, ..busy() };
    let at_boundary = SubagentWorkState { active_leaf_is_turn_boundary: true, ..idle };
    let running = scope(DelegationStatus::Running);
    assert!(ensure_subagent_steer_allowed(&running, &busy()).is_ok());
    assert_eq!(
        ensure_subagent_steer_allowed(&running, &at_boundary).unwrap_err().code,
        "subagent_terminal"
    );
    assert_eq!(
        ensure_subagent_steer_allowed(&running, &idle).unwrap_err().code,
        "subagent_not_running"
    );
    assert_eq!(
        ensure_subagent_steer_allowed(&scope(DelegationStatus::Done), &busy()).unwrap_err().code,
        "delegation_not_running"
    );
    let queued_at_boundary = SubagentWorkState { has_queued_inputs: true, ..at_boundary };
    assert!(ensure_subagent_steer_allowed(&running, &queued_at_boundary).is_ok());
}

#[test]
fn requests_are_trimmed_and_get_an_id() {
    let request = steer(None, Some(" mine "));
    assert_eq!(request.subagent_id, "child");
    assert_eq!(request.client_control_id, "mine");
    assert_eq!(
        request.ask,
        ControlAsk::Steer { message: "go left".to_string(), interrupt: false }
    );
    let first = steer(Some(true), None).client_control_id;
    let second = steer(Some(true), None).client_control_id;
    assert_eq!(first.len(), 36);
    assert_ne!(first, second);
    let request = ControlRequest::interrupt_with(
        &InterruptSubagentParams { subagent_id: "child".to_string(), client_control_id: None },
        "fresh".to_string(),
    )
    .unwrap();
    assert_eq!(request.client_control_id, "fresh");
    assert_eq!(request.ask, ControlAsk::Interrupt);
}

#[test]
fn requests_name_the_first_blank_field() {
    let params = |subagent_id: &str, message: &str, id: Option<&str>| SteerSubagentParams {
        subagent_id: subagent_id.to_string(),
        message: message.to_string(),
        interrupt: None,
        client_control_id: id.map(str::to_string),
    };
    let refused = |p: SteerSubagentParams| ControlRequest::steer(&p).unwrap_err().message;
    assert_eq!(refused(params("", "", Some(""))), "subagent_id cannot be empty");
    assert_eq!(refused(params("c", " ", Some(""))), "message cannot be empty");
    assert_eq!(refused(params("c", "m", Some(" "))), "client_control_id cannot be empty");
    let error = ControlRequest::interrupt(&InterruptSubagentParams {
        subagent_id: "c".to_string(),
        client_control_id: Some(String::new()),
    })
    .unwrap_err();
    assert_eq!(error.message, "client_control_id cannot be empty");
}

#[test]
fn replays_are_answered_whatever_became_of_the_delegation() {
    let control = steer(None, Some("id")).in_scope(&scope(DelegationStatus::Done));
    assert_eq!(control.client_input_id, "subagent-control:d1:id");
    let found = record(SubagentControlPhase::Ready, QueuedInputStatus::Queued);
    match control.after_lookup(Some(&found)) {
        ControlLookup::Replay { nudge, reason, result } => {
            assert!(nudge);
            assert_eq!(reason, "steer_subagent.replay");
            assert_eq!(result.get("replayed"), Some(Json::Bool(true)));
        }
        other => panic!("unexpected {other:?}"),
    }
    let interrupt = ControlRequest::interrupt(&InterruptSubagentParams {
        subagent_id: "child".to_string(),
        client_control_id: Some("id".to_string()),
    })
    .unwrap()
    .in_scope(&scope(DelegationStatus::Running));
    match interrupt.after_lookup(Some(&found)) {
        ControlLookup::Replay { nudge, reason, .. } => {
            assert!(!nudge);
            assert_eq!(reason, "interrupt_subagent.replay");
        }
        other => panic!("unexpected {other:?}"),
    }
}

#[test]
fn settled_replays_are_not_nudged() {
    for found in [
        record(SubagentControlPhase::Cancelled, QueuedInputStatus::Queued),
        record(SubagentControlPhase::Ready, QueuedInputStatus::Consumed),
        SubagentControlRecord {
            delegation_running: false,
            ..record(SubagentControlPhase::Ready, QueuedInputStatus::Queued)
        },
    ] {
        let control = steer(None, Some("id")).in_scope(&scope(DelegationStatus::Running));
        match control.after_lookup(Some(&found)) {
            ControlLookup::Replay { nudge, .. } => assert!(!nudge),
            other => panic!("unexpected {other:?}"),
        }
    }
}

#[test]
fn fresh_controls_need_a_running_delegation() {
    let control = steer(None, Some("id")).in_scope(&scope(DelegationStatus::Cancelled));
    match control.after_lookup(None) {
        ControlLookup::Refused(error) => assert_eq!(
            error.message,
            "cannot steer a subagent whose delegation is terminal"
        ),
        other => panic!("unexpected {other:?}"),
    }
    let interrupt = ControlRequest::interrupt(&InterruptSubagentParams {
        subagent_id: "child".to_string(),
        client_control_id: None,
    })
    .unwrap()
    .in_scope(&scope(DelegationStatus::Failed));
    match interrupt.after_lookup(None) {
        ControlLookup::Refused(error) => assert_eq!(
            error.message,
            "cannot interrupt a subagent whose delegation is terminal"
        ),
        other => panic!("unexpected {other:?}"),
    }
}

#[test]
fn an_accepted_control_stays_accepted() {
    let drive = |interrupt: Option<bool>, had_unfinished: bool| {
        let control = steer(interrupt, Some("id")).in_scope(&scope(DelegationStatus::Running));
        let fresh = match control.after_lookup(None) {
            ControlLookup::Fresh(fresh) => fresh,
            other => panic!("unexpected {other:?}"),
        };
        fresh
            .after_recovery(scope(DelegationStatus::Running))
            .unwrap()
            .with_work(&busy())
            .unwrap()
            .after_enqueue(had_unfinished, Some(queued()))
            .unwrap()
    };
    assert!(!drive(None, true).drive_inline);
    assert!(drive(None, false).drive_inline);
    let accepted = drive(Some(true), true);
    assert!(accepted.drive_inline);
    assert_eq!(accepted.drive_reason, "steer_subagent.accepted");
    let (driven, failure) = accepted.after_drive(Some(RpcError::new("model", "down")));
    let failure = failure.unwrap();
    assert_eq!(failure.reason, "steer_subagent.reconcile");
    let event = failure.event();
    assert_eq!(text(&event, "error").as_deref(), Some("down"));
    assert_eq!(event.get("accepted"), Some(Json::Bool(true)));
    assert_eq!(driven.drive_error.as_deref(), Some("model: down"));
    let (answer, failure) = driven.after_reload(ControlReload::Found(record(
        SubagentControlPhase::InterruptApplied,
        QueuedInputStatus::Queued,
    )));
    assert!(failure.is_none());
    assert_eq!(text(&answer, "drive_status").as_deref(), Some("failed"));
    assert_eq!(text(&answer, "drive_error").as_deref(), Some("model: down"));
    assert_eq!(answer.get("accepted"), Some(Json::Bool(true)));
}

#[test]
fn controls_that_go_missing_are_still_accepted() {
    let accepted = |ask_interrupt: bool| {
        let request = if ask_interrupt {
            ControlRequest::interrupt(&InterruptSubagentParams {
                subagent_id: "child".to_string(),
                client_control_id: Some("id".to_string()),
            })
            .unwrap()
        } else {
            steer(None, Some("id"))
        };
        let fresh = match request.in_scope(&scope(DelegationStatus::Running)).after_lookup(None) {
            ControlLookup::Fresh(fresh) => fresh,
            other => panic!("unexpected {other:?}"),
        };
        fresh
            .after_recovery(scope(DelegationStatus::Running))
            .unwrap()
            .with_work(&busy())
            .unwrap()
            .after_enqueue(true, Some(queued()))
            .unwrap()
            .after_drive(None)
            .0
    };
    let (answer, failure) = accepted(false).after_reload(ControlReload::Missing);
    assert_eq!(failure.unwrap().reason, "steer_subagent.reload");
    assert_eq!(answer.get("accepted"), Some(Json::Bool(true)));
    assert_eq!(
        text(&answer, "drive_error").as_deref(),
        Some("durably accepted subagent control could not be reloaded")
    );
    assert!(answer.get("interrupt_outcome").is_none());
    let (answer, failure) =
        accepted(true).after_reload(ControlReload::Failed("store is away".to_string()));
    assert!(failure.is_none());
    assert_eq!(text(&answer, "drive_error").as_deref(), Some("store is away"));
    assert_eq!(text(&answer, "interrupt_outcome").as_deref(), Some("waiting"));
    assert_eq!(text(&answer, "phase").as_deref(), Some("pending_interrupt"));
    let (_, failure) = accepted(true).after_reload(ControlReload::Missing);
    let failure = failure.unwrap();
    assert_eq!(failure.error.code, "accepted_control_missing");
    assert_eq!(
        failure.error.message,
        "durably accepted subagent interrupt could not be reloaded"
    );
}

#[test]
fn a_delegation_that_ends_while_recovering_refuses() {
    let control = steer(None, Some("id")).in_scope(&scope(DelegationStatus::Running));
    let fresh = match control.after_lookup(None) {
        ControlLookup::Fresh(fresh) => fresh,
        other => panic!("unexpected {other:?}"),
    };
    let error = fresh.after_recovery(scope(DelegationStatus::Done)).unwrap_err();
    assert_eq!(error.code, "delegation_not_running");
    assert_eq!(error.message, "cannot steer a subagent whose delegation is terminal");
}

#[test]
fn a_delegation_that_ends_while_queueing_refuses() {
    let control = steer(None, Some("id")).in_scope(&scope(DelegationStatus::Running));
    let fresh = match control.after_lookup(None) {
        ControlLookup::Fresh(fresh) => fresh,
        other => panic!("unexpected {other:?}"),
    };
    let error = fresh
        .after_recovery(scope(DelegationStatus::Running))
        .unwrap()
        .with_work(&busy())
        .unwrap()
        .after_enqueue(false, None)
        .unwrap_err();
    assert_eq!(error.code, "delegation_not_running");
}

#[test]
fn control_id_conflicts_are_told_apart() {
    let other = RpcError::new("internal", "text");
    let error = map_subagent_control_store_error("x client_control_id_conflict y", other.clone());
    assert_eq!(error.code, "client_control_id_conflict");
    let error = map_subagent_control_store_error("client_control_id", other);
    assert_eq!(error.code, "internal");
}
