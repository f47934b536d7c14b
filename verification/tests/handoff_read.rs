//! Reading one handoff file.
use agent_daemon::delegation_tools::SubagentWorkState;
use agent_daemon::handoff_read::{
    confine_target, open_read, parse_handoff_file_request, read_allowed_for_status, read_content,
    resolve_handoff_file_path, safe_path_segment, unavailable_handoff_file_error,
    validate_member_subagent, HandoffFileRequest, HandoffGate, HandoffReadRefresh, HostOutcome, PermittedRead,
    ReadHandoffFileParams,
};
use agent_daemon::json::Json;
use agent_daemon::records::{
    Delegation, DelegationKind, DelegationStatus, DelegationSubagent, SessionActivity, SubagentType,
};

const CWD: &str = "/home/u/.local/state/pi-relay/sessions/parent/cwd";

fn delegation(status: DelegationStatus) -> Delegation {
    Delegation {
        id: "delegation-1".to_string(),
        parent_session_id: "parent".to_string(),
        workflow: None,
        label: None,
        kind: DelegationKind::Full,
        status,
        attempt_id: "attempt-1".to_string(),
        expected_subagents: 1,
    }
}

fn subagent(session_id: &str, task: Option<&str>) -> DelegationSubagent {
    DelegationSubagent {
        session_id: session_id.to_string(),
        role: None,
        subagent_type: Some(SubagentType::Full),
        activity: SessionActivity::Idle,
        task: task.map(str::to_string),
    }
}

fn params(subagent_id: Option<&str>, file: &str) -> ReadHandoffFileParams {
    ReadHandoffFileParams {
        delegation_id: "delegation-1".to_string(),
        subagent_id: subagent_id.map(str::to_string),
        file: file.to_string(),
    }
}

fn work(terminal: bool) -> SubagentWorkState {
    SubagentWorkState {
        has_unfinished_actions: !terminal,
        has_queued_inputs: false,
        has_active_runtime: false,
        active_leaf_is_turn_boundary: terminal,
    }
}

#[test]
fn resolves_subagent_file_under_subagent_dir() {
    let path = resolve_handoff_file_path(
        CWD,
        "delegation-1",
        HandoffFileRequest::Normal { subagent_id: "child-9", file: "final_message.md" },
    )
    .unwrap();
    assert_eq!(
        std::path::PathBuf::from(path),
        std::path::Path::new(CWD)
            .join(".pi-handoff")
            .join("delegation-1")
            .join("child-9")
            .join("final_message.md")
    );
}

#[test]
fn resolves_cancelled_transcript_under_cancelled_dir() {
    let request = parse_handoff_file_request(None, "cancelled/child-9.transcript.md").unwrap();
    let path = resolve_handoff_file_path(CWD, "delegation-1", request).unwrap();
    assert_eq!(
        std::path::PathBuf::from(path),
        std::path::Path::new(CWD)
            .join(".pi-handoff")
            .join("delegation-1")
            .join("cancelled")
            .join("child-9.transcript.md")
    );
}

#[test]
fn rejects_unknown_file_name() {
    let error = parse_handoff_file_request(None, "secrets.env").unwrap_err();
    assert_eq!(error.code, "invalid_params");
}

#[test]
fn rejects_index_json_because_snapshots_replaced_root_manifests() {
    let error = parse_handoff_file_request(None, "index.json").unwrap_err();
    assert_eq!(error.code, "invalid_params");
}

#[test]
fn rejects_traversal_in_delegation_id() {
    for evil in ["..", "../other", "a/b", "/etc", "delegation/../..", "."] {
        let error = resolve_handoff_file_path(
            CWD,
            evil,
            HandoffFileRequest::Normal { subagent_id: "child", file: "transcript.md" },
        )
        .unwrap_err();
        assert_eq!(
            error.code, "invalid_params",
            "delegation_id {evil} must be rejected"
        );
    }
}

#[test]
fn rejects_traversal_in_subagent_id() {
    for evil in ["..", "../x", "a/b", "/abs"] {
        let error = resolve_handoff_file_path(
            CWD,
            "delegation-1",
            HandoffFileRequest::Normal { subagent_id: evil, file: "transcript.md" },
        )
        .unwrap_err();
        assert_eq!(
            error.code, "invalid_params",
            "subagent_id {evil} must be rejected"
        );
    }
}

#[test]
fn rejects_traversal_in_cancelled_transcript_path() {
    for evil in [
        "cancelled/../child.transcript.md",
        "cancelled/a/b.transcript.md",
        "cancelled//child.transcript.md",
    ] {
        let error = parse_handoff_file_request(None, evil).unwrap_err();
        assert_eq!(
            error.code, "invalid_params",
            "cancelled path {evil} must be rejected"
        );
    }
}

#[test]
fn rejects_mismatched_subagent_id_for_cancelled_transcript_path() {
    let error = parse_handoff_file_request(Some("other-child"), "cancelled/child-9.transcript.md")
        .unwrap_err();
    assert_eq!(error.code, "invalid_params");
}

#[test]
fn requires_subagent_id_for_subagent_files() {
    let error = parse_handoff_file_request(None, "transcript.md").unwrap_err();
    assert_eq!(error.code, "invalid_params");
}

#[test]
fn file_requests_tell_why_they_are_refused() {
    assert_eq!(
        parse_handoff_file_request(None, "transcript.md").unwrap_err().message,
        "transcript.md requires a subagent_id"
    );
    assert_eq!(
        parse_handoff_file_request(Some("c"), "x").unwrap_err().message,
        "file must be one of task_prompt.md | final_message.md | transcript.md | cancelled/<subagent_id>.transcript.md, got x"
    );
    assert_eq!(
        parse_handoff_file_request(Some("o"), "cancelled/c.transcript.md").unwrap_err().message,
        "subagent_id does not match cancellation transcript path"
    );
    // The prefix and the suffix may not overlap.
    assert!(parse_handoff_file_request(None, "cancelled/.transcript.md").is_err());
    assert_eq!(
        parse_handoff_file_request(Some("c"), "cancelled/c.transcript.md").unwrap().subagent_id(),
        "c"
    );
    assert_eq!(safe_path_segment("a/b", "x").unwrap_err().message, "x is not a valid path segment");
}

#[test]
fn statuses_bound_what_is_read() {
    let normal = |file: &'static str| HandoffFileRequest::Normal { subagent_id: "c", file };
    let kept = HandoffFileRequest::CancelledTranscript { subagent_id: "c" };
    for (status, prompt, message, transcript, cancelled) in [
        (DelegationStatus::Running, Some(true), None, Some(true), Some(false)),
        (DelegationStatus::Done, Some(true), Some(true), Some(true), Some(false)),
        (DelegationStatus::DoneWithFailures, Some(true), Some(true), Some(true), Some(false)),
        (DelegationStatus::Cancelled, Some(true), Some(true), Some(false), Some(true)),
        (DelegationStatus::Failed, Some(true), Some(false), Some(false), Some(false)),
    ] {
        assert_eq!(read_allowed_for_status(status, normal("task_prompt.md")).unwrap(), prompt);
        assert_eq!(read_allowed_for_status(status, normal("final_message.md")).unwrap(), message);
        assert_eq!(read_allowed_for_status(status, normal("transcript.md")).unwrap(), transcript);
        assert_eq!(read_allowed_for_status(status, kept).unwrap(), cancelled);
    }
    assert_eq!(
        read_allowed_for_status(DelegationStatus::Running, normal("other")).unwrap_err().message,
        "unsupported handoff file other"
    );
    assert_eq!(
        unavailable_handoff_file_error(DelegationStatus::Failed).message,
        "handoff files are not published for failed delegations"
    );
    assert_eq!(
        unavailable_handoff_file_error(DelegationStatus::Done).message,
        "handoff file not found"
    );
}

#[test]
fn only_members_have_handoff_files() {
    let members = vec![subagent("a", None), subagent("b", None)];
    let request = |id: &'static str| HandoffFileRequest::CancelledTranscript { subagent_id: id };
    assert!(validate_member_subagent(request("b"), &members).is_ok());
    let error = validate_member_subagent(request("c"), &members).unwrap_err();
    assert_eq!(error.code, "handoff_file_not_found");
    assert_eq!(error.message, "subagent does not belong to this delegation");
}

fn permitted(gate: HandoffGate) -> PermittedRead {
    match gate {
        HandoffGate::Permitted(read) => read,
        other => panic!("unexpected {other:?}"),
    }
}

#[test]
fn a_read_goes_through_every_gate() {
    let undecided = || {
        let read = open_read(
            Some(delegation(DelegationStatus::Running)),
            "parent",
            params(Some("child"), "final_message.md"),
        )
        .unwrap();
        match read.gate(vec![subagent("child", Some("task"))]) {
            HandoffGate::NeedsWorkState(undecided) => undecided,
            other => panic!("unexpected {other:?}"),
        }
    };
    assert_eq!(undecided().read().subagent_id, "child");
    assert_eq!(
        undecided().gate_with_work(&work(false)).unwrap_err().message,
        "handoff file not found; the delegation may not have finished yet"
    );
    let read = undecided().gate_with_work(&work(true)).unwrap();
    assert_eq!(read.read().file, "final_message.md");
    assert_eq!(read.refresh(".pi-handoff/d").unwrap(), HandoffReadRefresh::Artifacts);
    let target = read.target("/w").unwrap();
    assert_eq!(target.path, "/w/.pi-handoff/delegation-1/child/final_message.md");
    assert_eq!(target.root, "/w/.pi-handoff");
    let answer = read.answer("text".to_string());
    assert_eq!(answer.get("content").as_ref().and_then(Json::as_str), Some("text"));
    assert_eq!(answer.get("file").as_ref().and_then(Json::as_str), Some("final_message.md"));
    assert_eq!(answer.get("subagent_id").as_ref().and_then(Json::as_str), Some("child"));
    assert_eq!(answer.get("delegation_id").as_ref().and_then(Json::as_str), Some("delegation-1"));
}

#[test]
fn reads_are_scoped_to_the_parent() {
    let error = open_read(
        Some(delegation(DelegationStatus::Done)),
        "stranger",
        params(Some("child"), "transcript.md"),
    )
    .unwrap_err();
    assert_eq!(error.code, "delegation_not_found");
    assert_eq!(error.message, "delegation is not in scope");
    let error = open_read(None, "parent", params(Some("child"), "transcript.md")).unwrap_err();
    assert_eq!(error.message, "delegation not found");
}

#[test]
fn task_prompts_are_written_before_they_are_read() {
    let read = |task: Option<&str>| {
        let read = open_read(
            Some(delegation(DelegationStatus::Failed)),
            "parent",
            params(Some("child"), "task_prompt.md"),
        )
        .unwrap();
        permitted(read.gate(vec![subagent("child", task)]))
    };
    match read(Some("do it")).refresh(".pi-handoff/delegation-1").unwrap() {
        HandoffReadRefresh::TaskPrompt(write) => {
            assert_eq!(write.path, ".pi-handoff/delegation-1/child/task_prompt.md");
            assert_eq!(write.content, "do it");
        }
        other => panic!("unexpected {other:?}"),
    }
    let error = read(None).refresh("d").unwrap_err();
    assert_eq!(error.message, "task prompt is unavailable for this subagent");
}

#[test]
fn cancelled_delegations_hand_out_what_was_kept() {
    let members = || vec![subagent("child", None)];
    let kept = open_read(
        Some(delegation(DelegationStatus::Cancelled)),
        "parent",
        params(None, "cancelled/child.transcript.md"),
    )
    .unwrap();
    let kept = permitted(kept.gate(members()));
    assert_eq!(kept.refresh("d").unwrap(), HandoffReadRefresh::Nothing);
    assert_eq!(
        kept.target("/w").unwrap().path,
        "/w/.pi-handoff/delegation-1/cancelled/child.transcript.md"
    );
    let normal = open_read(
        Some(delegation(DelegationStatus::Cancelled)),
        "parent",
        params(Some("child"), "transcript.md"),
    )
    .unwrap();
    match normal.gate(members()) {
        HandoffGate::Refused(error) => assert_eq!(
            error.message,
            "normal handoff files are not published for cancelled delegations"
        ),
        other => panic!("unexpected {other:?}"),
    }
}

#[test]
fn files_resolve_below_every_workspace() {
    let request = HandoffFileRequest::Normal { subagent_id: "c", file: "transcript.md" };
    for (workspace, path) in [
        ("/w", "/w/.pi-handoff/d/c/transcript.md"),
        ("/w/", "/w/.pi-handoff/d/c/transcript.md"),
        ("/", "/.pi-handoff/d/c/transcript.md"),
        ("", ".pi-handoff/d/c/transcript.md"),
    ] {
        assert_eq!(resolve_handoff_file_path(workspace, "d", request).unwrap(), path);
    }
}

#[test]
fn resolved_targets_stay_below_the_root() {
    let done = |path: &str| HostOutcome::Done(path.to_string());
    assert_eq!(confine_target(done("/r/d/f"), done("/r")).unwrap(), "/r/d/f");
    assert_eq!(confine_target(done("/f"), done("/")).unwrap(), "/f");
    let error = confine_target(done("/root2/f"), done("/root")).unwrap_err();
    assert_eq!(error.message, "resolved handoff path escapes the handoff directory");
    assert_eq!(
        confine_target(HostOutcome::NotFound, done("/r")).unwrap_err().code,
        "handoff_file_not_found"
    );
    assert_eq!(
        confine_target(HostOutcome::Failed, done("/r")).unwrap_err().code,
        "handoff_file_read_failed"
    );
    assert_eq!(
        confine_target(done("/r/f"), HostOutcome::NotFound).unwrap_err().code,
        "handoff_file_read_failed"
    );
    assert_eq!(read_content(done("text")).unwrap(), "text");
    assert_eq!(read_content(HostOutcome::NotFound).unwrap_err().code, "handoff_file_not_found");
    assert_eq!(read_content(HostOutcome::Failed).unwrap_err().code, "handoff_file_read_failed");
}
