//! Starting and cancelling delegations, and the model's tools.
use agent_daemon::delegation_tools::{
    cancel_requested, cancel_subagent_without_reactivation, cancelled_answer,
    finish_delegation_tool, is_delegation_tool_name, load_delegation_for_parent,
    map_delegation_create_error, parent_session_id_from_params, prepare_delegation_tool,
    read_start_fanout, read_start_full, reject_if_subagent, trim_required,
    write_cancelled_subagent_transcripts, CancelClaim, CancelOutcome, CancelStep, CancelledMember,
    CreateDelegationFailure, DelegatedTask, DelegationTool, StartFanoutParams, StartFullParams,
    SubagentWorkState, WonCancel,
};
use agent_daemon::interop::pretty_json;
use agent_daemon::json::{Json, JsonObject};
use agent_daemon::records::{Delegation, DelegationKind, DelegationStatus, SubagentType};
use agent_daemon::transcript::{
    HistoryTree, ToolCall, ToolResultStatus, TranscriptEntry, TranscriptItem, UserMessage,
};
use agent_daemon::types::RpcError;

fn delegation(id: &str, status: DelegationStatus) -> Delegation {
    Delegation {
        id: id.to_string(),
        parent_session_id: "parent".to_string(),
        workflow: None,
        label: None,
        kind: DelegationKind::ReadonlyFanout,
        status,
        attempt_id: "attempt-1".to_string(),
        expected_subagents: 1,
    }
}

fn call(name: &str, args: &str) -> ToolCall {
    ToolCall {
        id: "call-7".to_string(),
        tool_name: name.to_string(),
        args_json: args.to_string(),
    }
}

fn task(role: &str, prompt: &str) -> DelegatedTask {
    DelegatedTask { role: role.to_string(), prompt: prompt.to_string() }
}

#[test]
fn delegation_tool_interception_accepts_only_canonical_names() {
    for name in [
        "delegate_writing_task",
        "delegate_readonly_tasks",
        "inspect_delegation",
        "cancel_delegation",
        "steer_subagent",
        "interrupt_subagent",
    ] {
        assert!(
            is_delegation_tool_name(name),
            "{name} should be intercepted"
        );
    }
    for old in [
        "stage_start_full",
        "stage_start_readonly_fanout",
        "stage_status",
        "stage_cancel",
    ] {
        assert!(
            !is_delegation_tool_name(old),
            "{old} must not be intercepted"
        );
    }
    assert!(!is_delegation_tool_name("delegation.list"));
    assert!(!is_delegation_tool_name("delegation.start_full"));
}

#[test]
fn work_states_tell_activity_from_completion() {
    let idle = SubagentWorkState {
        has_unfinished_actions: false,
        has_queued_inputs: false,
        has_active_runtime: false,
        active_leaf_is_turn_boundary: true,
    };
    assert!(idle.is_completion_terminal());
    assert!(!idle.has_active_work());
    for busy in [
        SubagentWorkState { has_unfinished_actions: true, ..idle },
        SubagentWorkState { has_queued_inputs: true, ..idle },
        SubagentWorkState { has_active_runtime: true, ..idle },
    ] {
        assert!(busy.has_active_work());
        assert!(!busy.is_completion_terminal());
    }
    let mid_turn = SubagentWorkState { active_leaf_is_turn_boundary: false, ..idle };
    assert!(!mid_turn.is_completion_terminal());
    assert!(!mid_turn.has_active_work());
}

#[test]
fn required_fields_are_trimmed() {
    assert_eq!(trim_required("\u{2003} a b \n", "x").unwrap(), "a b");
    let error = trim_required(" \t", "message").unwrap_err();
    assert_eq!(error.code, "invalid_params");
    assert_eq!(error.message, "message cannot be empty");
}

#[test]
fn parents_are_named_by_text() {
    let params = Json::Object(JsonObject::new().with("parent_session_id", Json::text(" p ")));
    assert_eq!(parent_session_id_from_params(&params).unwrap(), "p");
    for bad in [
        Json::Null,
        Json::Object(JsonObject::new()),
        Json::Object(JsonObject::new().with("parent_session_id", Json::number(7))),
        Json::Object(JsonObject::new().with("parent_session_id", Json::text("  "))),
    ] {
        let error = parent_session_id_from_params(&bad).unwrap_err();
        assert_eq!(error.code, "invalid_params");
        assert_eq!(error.message, "parent_session_id cannot be empty");
    }
}

#[test]
fn delegations_are_scoped_to_their_parent() {
    let row = delegation("d", DelegationStatus::Done);
    assert!(load_delegation_for_parent(Some(row), "parent").is_ok());
    let row = delegation("d", DelegationStatus::Done);
    assert_eq!(
        load_delegation_for_parent(Some(row), "other").unwrap_err().message,
        "delegation is not in scope"
    );
    assert_eq!(
        load_delegation_for_parent(None, "parent").unwrap_err().message,
        "delegation not found"
    );
}

#[test]
fn create_conflicts_are_told_apart() {
    let error = map_delegation_create_error(CreateDelegationFailure::RunningConflict);
    assert_eq!(error.code, "delegation_already_running");
    let error = map_delegation_create_error(CreateDelegationFailure::Other(RpcError::new("c", "m")));
    assert_eq!((error.code.as_str(), error.message.as_str()), ("c", "m"));
}

#[test]
fn a_full_delegation_spawns_one_writer() {
    let start = read_start_full(StartFullParams {
        role: " implementer ".to_string(),
        prompt: " build ".to_string(),
        workflow: Some("w".to_string()),
        label: None,
    })
    .unwrap();
    assert_eq!(start.kind, DelegationKind::Full);
    assert_eq!(start.expected_subagents(), 1);
    let mut spawning = start.created("parent", "d1");
    let spawn = spawning.next_spawn().unwrap();
    assert_eq!(spawn.role, "implementer");
    assert_eq!(spawn.task, "build");
    assert_eq!(spawn.subagent_type, SubagentType::Full);
    assert_eq!(spawn.delegation_id, "d1");
    spawning.record("child-1".to_string());
    assert!(spawning.next_spawn().is_none());
    let answer = spawning.answer();
    assert_eq!(answer.get("delegation_id").as_ref().and_then(Json::as_str), Some("d1"));
    assert_eq!(answer.get("subagent_session_id").as_ref().and_then(Json::as_str), Some("child-1"));
}

#[test]
fn a_fanout_spawns_readers_in_order() {
    let start = read_start_fanout(StartFanoutParams {
        tasks: vec![task("a", "one"), task("b", "two")],
        workflow: None,
        label: None,
    })
    .unwrap();
    assert_eq!(start.expected_subagents(), 2);
    let mut spawning = start.created("parent", "d2");
    for (role, id) in [("a", "c1"), ("b", "c2")] {
        let spawn = spawning.next_spawn().unwrap();
        assert_eq!(spawn.role, role);
        assert_eq!(spawn.subagent_type, SubagentType::ReadOnly);
        spawning.record(id.to_string());
    }
    assert_eq!(
        pretty_json(&spawning.answer()),
        "{\n  \"delegation_id\": \"d2\",\n  \"subagent_session_ids\": [\n    \"c1\",\n    \"c2\"\n  ]\n}"
    );
}

#[test]
fn a_failed_spawn_fails_the_delegation() {
    let start = read_start_fanout(StartFanoutParams {
        tasks: vec![task("a", "one")],
        workflow: None,
        label: None,
    })
    .unwrap();
    let compensation = start.created("parent", "d3").failed(RpcError::new("spawn", "no"));
    assert_eq!(compensation.delegation_id, "d3");
    assert_eq!(compensation.status, DelegationStatus::Failed);
    assert_eq!(compensation.error.code, "spawn");
}

#[test]
fn starts_name_the_first_blank_field() {
    let start = |role: &str, prompt: &str| {
        read_start_full(StartFullParams {
            role: role.to_string(),
            prompt: prompt.to_string(),
            workflow: None,
            label: None,
        })
    };
    assert_eq!(start(" ", " ").unwrap_err().message, "role cannot be empty");
    assert_eq!(start("r", " ").unwrap_err().message, "prompt cannot be empty");
    let fanout = |tasks: Vec<DelegatedTask>| {
        read_start_fanout(StartFanoutParams { tasks, workflow: None, label: None })
    };
    assert_eq!(fanout(Vec::new()).unwrap_err().message, "tasks cannot be empty");
    assert_eq!(
        fanout(vec![task("a", "b"), task("c", ""), task("", "")]).unwrap_err().message,
        "prompt cannot be empty"
    );
}

#[test]
fn subagents_do_not_delegate() {
    assert!(reject_if_subagent(None).is_ok());
    for kind in [SubagentType::Full, SubagentType::ReadOnly] {
        assert_eq!(
            reject_if_subagent(Some(kind)).unwrap_err().code,
            "delegations_not_allowed_for_subagent"
        );
    }
}

fn claim(id: &str) -> CancelClaim {
    match cancel_requested(delegation(id, DelegationStatus::Running)) {
        CancelStep::Claim(claim) => claim,
        other => panic!("unexpected {other:?}"),
    }
}

fn won(id: &str) -> WonCancel {
    match claim(id).cancel_claimed(true) {
        CancelOutcome::Won(won) => won,
        other => panic!("unexpected {other:?}"),
    }
}

#[test]
fn only_running_delegations_are_cancelled() {
    for status in [
        DelegationStatus::Done,
        DelegationStatus::DoneWithFailures,
        DelegationStatus::Cancelled,
        DelegationStatus::Failed,
    ] {
        match cancel_requested(delegation("d", status)) {
            CancelStep::Unchanged(answer) => {
                assert_eq!(answer.get("cancelled").as_ref().and_then(Json::as_bool), Some(false))
            }
            other => panic!("unexpected {other:?}"),
        }
    }
    assert_eq!(claim("d").delegation().id, "d");
    assert_eq!(won("d").delegation().id, "d");
    match claim("d").cancel_claimed(false) {
        CancelOutcome::Unchanged(answer) => {
            assert_eq!(answer.get("cancelled").as_ref().and_then(Json::as_bool), Some(false))
        }
        other => panic!("unexpected {other:?}"),
    }
}

#[test]
fn cancelled_subagents_are_not_reactivated() {
    let live = cancel_subagent_without_reactivation(true, Some(SubagentType::ReadOnly));
    assert!(live.interrupt_live && !live.cancel_stored && live.destroy_workspaces);
    let stored = cancel_subagent_without_reactivation(false, Some(SubagentType::Full));
    assert!(!stored.interrupt_live && stored.cancel_stored && !stored.destroy_workspaces);
}

fn cancelled_member(session_id: &str) -> CancelledMember {
    CancelledMember {
        session_id: session_id.to_string(),
        history: HistoryTree {
            session_id: session_id.to_string(),
            active_leaf_id: None,
            entries: vec![TranscriptEntry {
                id: "u".to_string(),
                item: TranscriptItem::UserMessage(UserMessage::text("hello")),
            }],
        },
    }
}

#[test]
fn cancellation_keeps_transcripts_only() {
    let row = won("d1");
    let kept = write_cancelled_subagent_transcripts(&row, "/w", &vec![cancelled_member(" c1 ")]);
    assert_eq!(kept.handoff_dir, "/w/.pi-handoff/d1");
    assert_eq!(kept.writes[0].path, "/w/.pi-handoff/d1/cancelled/c1.transcript.md");
    assert_eq!(kept.writes[0].content, "## User\n\nhello\n\n");
    let answer = cancelled_answer(&row, kept).unwrap();
    assert_eq!(answer.get("cancelled").as_ref().and_then(Json::as_bool), Some(true));
    assert_eq!(answer.get("handoff_dir").as_ref().and_then(Json::as_str), Some("/w/.pi-handoff/d1"));
    let Some(Json::List(rows)) = answer.get("subagents") else {
        panic!("no list")
    };
    assert_eq!(rows[0].get("subagent_id").as_ref().and_then(Json::as_str), Some(" c1 "));
    assert_eq!(
        rows[0].get("transcript_file").as_ref().and_then(Json::as_str),
        Some("cancelled/c1.transcript.md")
    );
}

#[test]
fn cancellation_stops_at_unsafe_ids() {
    let row = won("d1");
    let kept = write_cancelled_subagent_transcripts(
        &row,
        "/w",
        &vec![cancelled_member("c1"), cancelled_member("a/b")],
    );
    assert_eq!(kept.writes.len(), 1);
    assert_eq!(
        cancelled_answer(&row, kept).unwrap_err().message,
        "subagent_id is not a valid path segment"
    );
    let kept = write_cancelled_subagent_transcripts(
        &won(".."),
        "/w",
        &vec![cancelled_member("c1")],
    );
    assert!(kept.writes.is_empty());
    assert_eq!(
        kept.refused.unwrap().message,
        "delegation_id is not a valid path segment"
    );
}

#[test]
fn tool_names_and_tools_agree() {
    for name in ["delegate_writing_task", "interrupt_subagent"] {
        assert!(DelegationTool::from_name(name).is_some());
    }
    assert_eq!(DelegationTool::from_name("steer_subagent"), Some(DelegationTool::SteerSubagent));
    assert_eq!(DelegationTool::from_name("steer"), None);
}

#[test]
fn control_ids_come_from_the_call() {
    let prepared = prepare_delegation_tool(
        &call(
            "steer_subagent",
            r#"{"subagent_id":"c","message":"m","client_control_id":"forged"}"#,
        ),
        None,
    )
    .unwrap();
    assert_eq!(prepared.tool, DelegationTool::SteerSubagent);
    assert_eq!(
        prepared.params.get("client_control_id").as_ref().and_then(Json::as_str),
        Some("tool-call:call-7")
    );
    assert_eq!(prepared.params.get("subagent_id").as_ref().and_then(Json::as_str), Some("c"));

    let prepared =
        prepare_delegation_tool(&call("inspect_delegation", r#"{"delegation_id":"d"}"#), None).unwrap();
    assert!(prepared.params.get("client_control_id").is_none());
    assert_eq!(prepared.params.get("delegation_id").as_ref().and_then(Json::as_str), Some("d"));
}

#[test]
fn bad_tool_calls_are_answered_with_errors() {
    let refused = |name: &str, args: &str, kind: Option<SubagentType>| {
        let message = prepare_delegation_tool(&call(name, args), kind).unwrap_err();
        assert_eq!(message.tool_call_id, "call-7");
        assert_eq!(message.tool_name, name);
        assert_eq!(message.status, ToolResultStatus::Error);
        message.output
    };
    assert_eq!(
        refused("inspect_delegation", "{}", Some(SubagentType::ReadOnly)),
        "delegations_not_allowed_for_subagent: only the top-level session can run delegations; subagents cannot spawn subagents"
    );
    assert!(refused("inspect_delegation", "{", None)
        .starts_with("inspect_delegation arguments were invalid JSON: EOF while parsing"));
    assert_eq!(
        refused("interrupt_subagent", "[]", None),
        "interrupt_subagent arguments must be a JSON object"
    );
    assert_eq!(
        refused("stage_cancel", "{}", None),
        "unknown_tool: unknown delegation tool: stage_cancel"
    );
}

#[test]
fn tool_results_are_indented_json_or_one_line() {
    let ok = finish_delegation_tool(
        &call("inspect_delegation", "{}"),
        Ok(Json::Object(JsonObject::new().with("b", Json::Bool(true)).with("a", Json::number(-1)))),
    );
    assert_eq!(ok.status, ToolResultStatus::Success);
    assert_eq!(ok.output, "{\n  \"a\": -1,\n  \"b\": true\n}");
    let failed =
        finish_delegation_tool(&call("inspect_delegation", "{}"), Err(RpcError::new("c", "m")));
    assert_eq!(failed.status, ToolResultStatus::Error);
    assert_eq!(failed.output, "c: m");
}
