//! Delegation snapshots and the wakeups that carry them.
use agent_daemon::delegation_snapshot::{
    build_delegation_snapshot, completion_wakeup_observation, subagent_wakeup_observation,
    SnapshotMember,
};
use agent_daemon::delegation_tools::SubagentWorkState;
use agent_daemon::handoff::SubagentArtifact;
use agent_daemon::interop::{parse_json, pretty_json};
use agent_daemon::json::Json;
use agent_daemon::records::{
    Delegation, DelegationKind, DelegationStatus, DelegationSubagent, SessionActivity, SubagentType,
};

fn json(text: &str) -> Json {
    parse_json(text).expect("valid JSON")
}

fn delegation(status: DelegationStatus, expected: i32) -> Delegation {
    Delegation {
        id: "delegation_1".to_string(),
        parent_session_id: "parent".to_string(),
        workflow: None,
        label: Some("review".to_string()),
        kind: DelegationKind::ReadonlyFanout,
        status,
        attempt_id: "attempt-1".to_string(),
        expected_subagents: expected,
    }
}

fn member(id: &str, activity: SessionActivity, work: Option<SubagentWorkState>) -> SnapshotMember {
    SnapshotMember {
        subagent: DelegationSubagent {
            session_id: id.to_string(),
            role: Some("explorer".to_string()),
            subagent_type: Some(SubagentType::ReadOnly),
            activity,
            task: Some("look".to_string()),
        },
        work,
        final_message_exists: false,
        cancelled_transcript_exists: false,
    }
}

fn artifact(id: &str, terminal_status: Option<&'static str>) -> SubagentArtifact {
    SubagentArtifact {
        session_id: id.to_string(),
        terminal_status,
        outcome: Some("approved".to_string()),
        has_final_message: true,
        has_task_prompt: true,
    }
}

fn busy() -> Option<SubagentWorkState> {
    Some(SubagentWorkState {
        has_unfinished_actions: true,
        has_queued_inputs: false,
        has_active_runtime: false,
        active_leaf_is_turn_boundary: true,
    })
}

fn settled() -> Option<SubagentWorkState> {
    Some(SubagentWorkState {
        has_unfinished_actions: false,
        has_queued_inputs: false,
        has_active_runtime: false,
        active_leaf_is_turn_boundary: true,
    })
}

fn text(value: &Json, key: &str) -> Option<String> {
    value.get(key).as_ref().and_then(Json::as_str).map(str::to_string)
}

fn count(view: &Json, key: &str) -> u64 {
    view.get("progress").and_then(|p| p.get(key)).as_ref().and_then(Json::as_u64).unwrap()
}

#[test]
fn completion_wakeup_observation_carries_bounded_snapshot_and_summary() {
    let snapshot = json(
        r#"{
            "delegation_id": "delegation_1",
            "kind": "readonly_fanout",
            "status": "done",
            "label": "review",
            "progress": {
                "expected": 1,
                "spawned": 1,
                "terminal": 1,
                "running": 0,
                "failed": 0
            },
            "subagents": [{
                "id": "child_1",
                "status": "done",
                "final_message_file": "child_1/final_message.md",
                "outcome": "approved",
                "task_prompt_file": "child_1/task_prompt.md",
                "transcript_file": "child_1/transcript.md"
            }],
            "handoff_dir": "/tmp/.pi-handoff/delegation_1"
        }"#,
    );
    let delegation = delegation(DelegationStatus::Done, 1);

    let observation = completion_wakeup_observation(&snapshot, &delegation).expect("observation");

    assert_eq!(observation.tool_name, "inspect_delegation");
    assert!(observation
        .tool_call_id
        .as_str()
        .starts_with("call_inspect_delegation_"));
    assert!(observation.tool_call_id.as_str().len() <= 64);
    assert_eq!(
        observation.args_json,
        "{\"delegation_id\":\"delegation_1\"}"
    );
    assert_eq!(observation.result_json, snapshot);
    assert!(observation
        .summary
        .as_deref()
        .unwrap()
        .contains("completed with status done"));
}

#[test]
fn completion_wakeup_observation_call_id_stays_under_provider_limit_for_uuid_ids() {
    let snapshot = json(
        r#"{
            "delegation_id": "delegation_6d17ff90-6e46-4c3f-88ad-d92d77350d52",
            "kind": "readonly_fanout",
            "status": "done",
            "progress": {
                "terminal": 4,
                "failed": 0
            },
            "subagents": [],
            "handoff_dir": "/tmp/.pi-handoff/delegation_6d17ff90-6e46-4c3f-88ad-d92d77350d52"
        }"#,
    );
    let delegation = Delegation {
        id: "delegation_6d17ff90-6e46-4c3f-88ad-d92d77350d52".to_string(),
        parent_session_id: "parent".to_string(),
        workflow: None,
        label: None,
        kind: DelegationKind::ReadonlyFanout,
        status: DelegationStatus::Done,
        attempt_id: "62847e1a-b705-48ee-899b-b062ccdf38f6".to_string(),
        expected_subagents: 4,
    };

    let first = completion_wakeup_observation(&snapshot, &delegation)
        .expect("observation")
        .tool_call_id;
    let second = completion_wakeup_observation(&snapshot, &delegation)
        .expect("observation")
        .tool_call_id;

    assert_eq!(first, second);
    assert!(first.as_str().starts_with("call_inspect_delegation_"));
    assert!(first.as_str().len() <= 64);
    assert_ne!(
        first.as_str(),
        "call_inspect_delegation_delegation_6d17ff90_6e46_4c3f_88ad_d92d77350d52_62847e1a_b705_48ee_899b_b062ccdf38f6"
    );
}

#[test]
fn partial_wakeup_observation_carries_running_snapshot_and_short_call_id() {
    let snapshot = json(
        r#"{
            "delegation_id": "delegation_6d17ff90-6e46-4c3f-88ad-d92d77350d52",
            "kind": "readonly_fanout",
            "status": "running",
            "label": "review",
            "progress": {
                "expected": 3,
                "spawned": 3,
                "terminal": 1,
                "running": 2,
                "failed": 0
            },
            "subagents": [{
                "id": "child_6d17ff90-6e46-4c3f-88ad-d92d77350d52",
                "status": "done",
                "final_message_file": "child/final_message.md",
                "outcome": "approved"
            }],
            "handoff_dir": "/tmp/.pi-handoff/delegation_6d17ff90-6e46-4c3f-88ad-d92d77350d52"
        }"#,
    );
    let delegation = Delegation {
        id: "delegation_6d17ff90-6e46-4c3f-88ad-d92d77350d52".to_string(),
        parent_session_id: "parent".to_string(),
        workflow: None,
        label: Some("review".to_string()),
        kind: DelegationKind::ReadonlyFanout,
        status: DelegationStatus::Running,
        attempt_id: "62847e1a-b705-48ee-899b-b062ccdf38f6".to_string(),
        expected_subagents: 3,
    };

    let first = subagent_wakeup_observation(
        &snapshot,
        &delegation,
        "child_6d17ff90-6e46-4c3f-88ad-d92d77350d52",
    )
    .expect("partial observation");
    let second = subagent_wakeup_observation(
        &snapshot,
        &delegation,
        "child_6d17ff90-6e46-4c3f-88ad-d92d77350d52",
    )
    .expect("partial observation");

    assert_eq!(first.tool_name, "inspect_delegation");
    assert_eq!(first.tool_call_id, second.tool_call_id);
    assert!(first
        .tool_call_id
        .as_str()
        .starts_with("call_inspect_delegation_child_"));
    assert!(first.tool_call_id.as_str().len() <= 64);
    assert_eq!(
        first.args_json,
        "{\"delegation_id\":\"delegation_6d17ff90-6e46-4c3f-88ad-d92d77350d52\"}"
    );
    assert_eq!(text(&first.result_json, "status").as_deref(), Some("running"));
    assert!(first
        .summary
        .as_deref()
        .unwrap()
        .contains("Subagent child_6d17ff90-6e46-4c3f-88ad-d92d77350d52 finished"));
    assert!(first.summary.as_deref().unwrap().contains("2 running"));
}

#[test]
fn wakeups_read_exactly() {
    let snapshot = json(
        r#"{"delegation_id":"d\"1","kind":"full","status":"done_with_failures","label":null,
            "progress":{"terminal":3,"failed":1,"running":2},
            "subagents":[{"id":7},{"id":"child_1","outcome":"say \"hi\"\n"}]}"#,
    );
    let row = delegation(DelegationStatus::Running, 1);
    let whole = completion_wakeup_observation(&snapshot, &row).unwrap();
    assert_eq!(
        whole.summary.as_deref(),
        Some("Delegation d\"1 (full subagent) completed with status done_with_failures: 2 ok, 1 failed.")
    );
    assert_eq!(whole.args_json, "{\"delegation_id\":\"d\\\"1\"}");
    assert_eq!(
        whole.tool_call_id,
        "call_inspect_delegation_43340acb7f64a7437b25f6b04f5e75be"
    );
    let part = subagent_wakeup_observation(&snapshot, &row, "child_1").unwrap();
    assert_eq!(
        part.summary.as_deref(),
        Some("Subagent child_1 finished with status terminal outcome \"say \\\"hi\\\"\\n\". Delegation d\"1 (full subagent) is still done_with_failures: 3 terminal, 2 running, 1 failed.")
    );
    assert_eq!(
        part.tool_call_id,
        "call_inspect_delegation_child_437dc756883cc5068280500947bb6677"
    );
}

#[test]
fn wakeups_of_bare_snapshots_fall_back() {
    let row = delegation(DelegationStatus::Done, 1);
    let whole = completion_wakeup_observation(&json("{}"), &row).unwrap();
    assert_eq!(
        whole.summary.as_deref(),
        Some("Delegation <unknown> (delegation) completed with status terminal: 0 ok, 0 failed.")
    );
    let odd = json(r#"{"kind":"swarm","label":"x","progress":{"terminal":1,"failed":2.5}}"#);
    let part = subagent_wakeup_observation(&odd, &row, "c").unwrap();
    assert_eq!(
        part.summary.as_deref(),
        Some("Subagent c finished. Delegation <unknown> (swarm) (x) is still running: 1 terminal, 0 running, 0 failed.")
    );
    let failed = json(r#"{"progress":{"terminal":1,"failed":2}}"#);
    let whole = completion_wakeup_observation(&failed, &row).unwrap();
    assert!(whole.summary.unwrap().ends_with(": 0 ok, 2 failed."));
}

#[test]
fn a_running_snapshot_counts_what_is_terminal() {
    let row = delegation(DelegationStatus::Running, 4);
    let snapshot = build_delegation_snapshot(
        &row,
        "/w/.pi-handoff/delegation_1",
        &vec![artifact("done", Some("done")), artifact("busy", Some("done"))],
        &vec![
            member("done", SessionActivity::Idle, settled()),
            member("busy", SessionActivity::Idle, busy()),
        ],
    );
    assert!(snapshot.writes.is_empty());
    let view = snapshot.outcome.unwrap();
    assert_eq!(count(&view, "expected"), 4);
    assert_eq!(count(&view, "spawned"), 2);
    assert_eq!(count(&view, "terminal"), 1);
    assert_eq!(count(&view, "running"), 3);
    assert_eq!(count(&view, "failed"), 0);
    let Some(Json::List(rows)) = view.get("subagents") else {
        panic!("no list")
    };
    assert_eq!(text(&rows[0], "status").as_deref(), Some("done"));
    assert_eq!(text(&rows[0], "outcome").as_deref(), Some("approved"));
    assert_eq!(text(&rows[0], "final_message_file").as_deref(), Some("done/final_message.md"));
    assert_eq!(rows[0].get("steerable"), Some(Json::Bool(false)));
    assert_eq!(text(&rows[1], "status").as_deref(), Some("running"));
    assert_eq!(rows[1].get("outcome"), Some(Json::Null));
    assert_eq!(rows[1].get("final_message_file"), Some(Json::Null));
    assert_eq!(text(&rows[1], "transcript_file").as_deref(), Some("busy/transcript.md"));
    assert_eq!(rows[1].get("steerable"), Some(Json::Bool(true)));
    assert_eq!(text(&view, "handoff_dir").as_deref(), Some("/w/.pi-handoff/delegation_1"));
    assert_eq!(text(&view, "label").as_deref(), Some("review"));
}

#[test]
fn a_member_row_reads_exactly() {
    let row = delegation(DelegationStatus::DoneWithFailures, 1);
    let snapshot = build_delegation_snapshot(
        &row,
        "/h",
        &vec![artifact("c1", Some("failed"))],
        &vec![member("c1", SessionActivity::Queued, None)],
    );
    let view = snapshot.outcome.unwrap();
    assert_eq!(count(&view, "failed"), 1);
    assert_eq!(count(&view, "running"), 0);
    assert_eq!(
        pretty_json(&view.get("subagents").as_ref().and_then(Json::as_list).unwrap()[0]),
        "{\n  \"activity\": \"queued\",\n  \"final_message_file\": \"c1/final_message.md\",\n  \"id\": \"c1\",\n  \"outcome\": \"approved\",\n  \"role\": \"explorer\",\n  \"status\": \"failed\",\n  \"steerable\": false,\n  \"subagent_type\": \"read_only\",\n  \"task_prompt_file\": \"c1/task_prompt.md\",\n  \"transcript_file\": \"c1/transcript.md\",\n  \"type\": \"read_only\"\n}"
    );
}

#[test]
fn cancelled_snapshots_show_what_is_left() {
    let row = delegation(DelegationStatus::Cancelled, 2);
    let mut kept = member(" c1 ", SessionActivity::Idle, None);
    kept.final_message_exists = true;
    kept.cancelled_transcript_exists = true;
    let gone = member("c2", SessionActivity::Running, None);
    let snapshot = build_delegation_snapshot(&row, "/h", &Vec::new(), &vec![kept, gone]);
    assert_eq!(snapshot.writes.len(), 2);
    assert_eq!(snapshot.writes[0].path, "/h/c1/task_prompt.md");
    assert_eq!(snapshot.writes[0].content, "look");
    let view = snapshot.outcome.unwrap();
    assert_eq!(count(&view, "terminal"), 0);
    assert_eq!(count(&view, "running"), 0);
    let Some(Json::List(rows)) = view.get("subagents") else {
        panic!("no list")
    };
    assert_eq!(text(&rows[0], "status").as_deref(), Some("cancelled"));
    assert_eq!(text(&rows[0], "final_message_file").as_deref(), Some("c1/final_message.md"));
    assert_eq!(text(&rows[0], "transcript_file").as_deref(), Some("cancelled/c1.transcript.md"));
    assert_eq!(text(&rows[0], "task_prompt_file").as_deref(), Some(" c1 /task_prompt.md"));
    assert_eq!(rows[1].get("transcript_file"), Some(Json::Null));
}

#[test]
fn failed_snapshots_point_at_no_transcript() {
    let row = delegation(DelegationStatus::Failed, 1);
    let mut m = member("c1", SessionActivity::Idle, None);
    m.subagent.task = None;
    let snapshot = build_delegation_snapshot(&row, "/h", &Vec::new(), &vec![m]);
    assert!(snapshot.writes.is_empty());
    let view = snapshot.outcome.unwrap();
    let Some(Json::List(rows)) = view.get("subagents") else {
        panic!("no list")
    };
    for key in ["transcript_file", "final_message_file", "task_prompt_file", "outcome"] {
        assert_eq!(rows[0].get(key), Some(Json::Null));
    }
    assert_eq!(text(&rows[0], "status").as_deref(), Some("failed"));
}

#[test]
fn unsafe_members_end_a_snapshot() {
    let row = delegation(DelegationStatus::Cancelled, 2);
    let snapshot = build_delegation_snapshot(
        &row,
        "/h",
        &Vec::new(),
        &vec![
            member("c1", SessionActivity::Idle, None),
            member("../c2", SessionActivity::Idle, None),
        ],
    );
    assert_eq!(snapshot.writes.len(), 1);
    assert_eq!(
        snapshot.outcome.unwrap_err().message,
        "subagent_id is not a valid path segment"
    );
}
