//! Adjacent sessions.
use agent_daemon::adjacent_sessions::{
    adjacent_initial_task_message, adjacent_relationships, adjacent_session_list_view,
    adjacent_session_metadata, adjacent_session_system_prompt, new_session_id,
    refresh_relationship_status, relationship_root_session_id, require_adjacent_relationship,
    spawned_adjacent_session_view, AdjacentMaterialization, AdjacentSessionSpawnParams,
    AdjacentSessionSpawnRequest, AdjacentSpawn, AdjacentWorkspaceMode, FailedSpawnStage,
    ListedAdjacentSession, SessionRelationship, SessionRelationshipControlMode,
    SessionRelationshipKind, SessionRelationshipStatus, SessionRelationshipVisibility,
    SessionWorkspace, SourceConfig,
};
use agent_daemon::config::stable_default_provider;
use agent_daemon::interop::{parse_json, pretty_json};
use agent_daemon::json::Json;
use agent_daemon::records::SessionActivity;

fn json(text: &str) -> Json {
    parse_json(text).expect("valid JSON")
}

fn params(source: &str, task: &str) -> AdjacentSessionSpawnParams {
    AdjacentSessionSpawnParams {
        source_session_id: source.to_string(),
        session_id: None,
        task: task.to_string(),
        initial_context: None,
        workspace_mode: None,
        display_name: None,
        provider: None,
        metadata: None,
    }
}

fn relationship(
    kind: SessionRelationshipKind,
    status: SessionRelationshipStatus,
) -> SessionRelationship {
    SessionRelationship {
        relationship_id: "relationship_1".to_string(),
        source_session_id: "source".to_string(),
        target_session_id: "child".to_string(),
        root_session_id: "root".to_string(),
        kind,
        control_mode: SessionRelationshipControlMode::NoControl,
        status,
    }
}

fn spawn(mode: &str, session_id: Option<&str>) -> AdjacentSpawn {
    let mut request = params("source", "task");
    request.workspace_mode = Some(mode.to_string());
    request.session_id = session_id.map(str::to_string);
    request.display_name = Some("Name".to_string());
    AdjacentSessionSpawnRequest::from_params(request)
        .unwrap()
        .begin(SourceConfig {
            project_id: Some(7),
            workspaces: vec![SessionWorkspace {
                workspace_dir: "repo".to_string(),
                remote_branch: Some("main".to_string()),
            }],
            provider: stable_default_provider(),
            metadata: json(r#"{"harness":true}"#),
        })
        .unwrap()
}

#[test]
fn spawn_request_defaults_to_same_project_fresh_and_trims_context() {
    let request = AdjacentSessionSpawnRequest::from_params(AdjacentSessionSpawnParams {
        session_id: Some(" child ".to_string()),
        initial_context: Some(" context ".to_string()),
        ..params(" source ", " Train a CIFAR VAE ")
    })
    .expect("request parses");

    assert_eq!(request.source_session_id, "source");
    assert_eq!(request.session_id.as_deref(), Some("child"));
    assert_eq!(request.task, "Train a CIFAR VAE");
    assert_eq!(request.initial_context.as_deref(), Some("context"));
    assert_eq!(
        request.workspace_mode,
        AdjacentWorkspaceMode::SameProjectFresh
    );
}

#[test]
fn spawn_request_accepts_fork_current() {
    let request = AdjacentSessionSpawnRequest::from_params(AdjacentSessionSpawnParams {
        workspace_mode: Some("fork_current".to_string()),
        ..params("source", "Use dirty training utilities from the source session")
    })
    .expect("request parses");

    assert_eq!(request.workspace_mode, AdjacentWorkspaceMode::ForkCurrent);
}

#[test]
fn adjacent_metadata_is_visible_and_inherits_harness() {
    let metadata = adjacent_session_metadata(
        json(r#"{ "custom": true }"#),
        "source",
        AdjacentWorkspaceMode::ForkCurrent,
        &json(r#"{ "harness": true }"#),
    );

    assert_eq!(
        pretty_json(&metadata),
        pretty_json(&json(
            r#"{
                "custom": true,
                "harness": true,
                "adjacent_session": true,
                "source_session_id": "source",
                "workspace_mode": "fork_current"
            }"#
        ))
    );
    assert!(metadata.get("hidden").is_none());
}

#[test]
fn metadata_of_the_caller_wins_over_the_harness() {
    let metadata = adjacent_session_metadata(
        json(r#"{"harness":false,"workspace_mode":"mine"}"#),
        "source",
        AdjacentWorkspaceMode::SameProjectFresh,
        &json(r#"{"harness":true}"#),
    );
    assert_eq!(metadata.get("harness"), Some(Json::Bool(false)));
    assert_eq!(
        metadata.get("workspace_mode").as_ref().and_then(Json::as_str),
        Some("same_project_fresh")
    );
    let metadata = adjacent_session_metadata(
        Json::List(Vec::new()),
        "source",
        AdjacentWorkspaceMode::SameProjectFresh,
        &json(r#"{"harness":"true"}"#),
    );
    assert!(metadata.get("harness").is_none());
}

#[test]
fn spawn_requests_tell_what_is_wrong() {
    let refused = |p| AdjacentSessionSpawnRequest::from_params(p).unwrap_err();
    assert_eq!(refused(params(" ", "")).message, "source_session_id cannot be empty");
    assert_eq!(refused(params("s", "\n")).message, "task cannot be empty");
    let mut big = params("s", "t");
    big.initial_context = Some(format!("{}\u{e9}", "x".repeat(65535)));
    let error = refused(big);
    assert_eq!(error.code, "initial_context_too_large");
    assert_eq!(error.message, "initial_context exceeds 65536 bytes");
    let mut fits = params("s", "t");
    fits.initial_context = Some(format!(" {}\u{e9} ", "x".repeat(65534)));
    assert!(AdjacentSessionSpawnRequest::from_params(fits).is_ok());
    let mut odd = params("s", "t");
    odd.workspace_mode = Some(" fork ".to_string());
    assert_eq!(
        refused(odd).message,
        "workspace_mode must be `same_project_fresh` or `fork_current`, got `fork`"
    );
    let mut blank = params("s", "t");
    blank.workspace_mode = Some(" ".to_string());
    blank.session_id = Some(" ".to_string());
    let request = AdjacentSessionSpawnRequest::from_params(blank).unwrap();
    assert_eq!(request.workspace_mode, AdjacentWorkspaceMode::SameProjectFresh);
    assert_eq!(request.session_id, None);
}

#[test]
fn only_project_sessions_spawn() {
    let error = AdjacentSessionSpawnRequest::from_params(params("source", "task"))
        .unwrap()
        .begin(SourceConfig {
            project_id: None,
            workspaces: Vec::new(),
            provider: stable_default_provider(),
            metadata: Json::Null,
        })
        .unwrap_err();
    assert_eq!(error.code, "project_required");
}

#[test]
fn workspaces_follow_the_mode() {
    let fork = spawn("fork_current", None);
    assert!(fork.needs_idle_source());
    assert_eq!(fork.materialize_adjacent_workspaces(), AdjacentMaterialization::Fork);
    let fresh = spawn("same_project_fresh", None);
    assert!(!fresh.needs_idle_source());
    match fresh.materialize_adjacent_workspaces() {
        AdjacentMaterialization::Fresh(requested) => {
            assert_eq!(requested.len(), 1);
            assert_eq!(requested[0].workspace_dir, "repo");
            assert_eq!(requested[0].branch.as_deref(), Some("main"));
        }
        other => panic!("unexpected {other:?}"),
    }
}

#[test]
fn children_are_named_and_recorded() {
    assert_eq!(spawn("fork_current", Some("mine")).child_session_id("f"), "mine");
    let child = spawn("fork_current", None);
    assert_eq!(child.child_session_id("f"), "session_f");
    assert!(AdjacentSpawn::require_unused("mine", false).is_ok());
    let error = AdjacentSpawn::require_unused("mine", true).unwrap_err();
    assert_eq!(error.code, "session_exists");
    assert_eq!(error.message, "session already exists and is not reusable: mine");

    let row = child.relationship(
        "f",
        "session_f",
        Some(relationship(SessionRelationshipKind::Related, SessionRelationshipStatus::Idle)),
        Some("leaf".to_string()),
    );
    assert_eq!(row.status, SessionRelationshipStatus::Idle);
    let row = row.started(SessionActivity::Queued);
    assert_eq!(row.relationship_id, "relationship_f");
    assert_eq!(row.source_session_id, "source");
    assert_eq!(row.target_session_id, "session_f");
    assert_eq!(row.root_session_id, "root");
    assert_eq!(row.kind, SessionRelationshipKind::RelatedFork);
    assert_eq!(row.control_mode, SessionRelationshipControlMode::NoControl);
    assert_eq!(row.visibility, SessionRelationshipVisibility::TopLevel);
    assert_eq!(row.display_name.as_deref(), Some("Name"));
    assert_eq!(row.spawned_from_leaf_id.as_deref(), Some("leaf"));
    assert_eq!(row.status, SessionRelationshipStatus::Running);
    assert_eq!(
        row.metadata.get("workspace_mode").as_ref().and_then(Json::as_str),
        Some("fork_current")
    );
    assert_eq!(child.child_metadata().get("harness"), Some(Json::Bool(true)));
    assert_eq!(child.into_provider(), stable_default_provider());
    assert_eq!(relationship_root_session_id(None, "source"), "source");
    assert_eq!(FailedSpawnStage::RelationshipInsert.reason(), "relationship insert failure");
    assert_eq!(FailedSpawnStage::InitialDispatch.reason(), "initial dispatch failure");
}

#[test]
fn fresh_session_ids_differ() {
    let first = new_session_id();
    assert!(first.starts_with("session_"));
    assert_eq!(first.len(), 44);
    assert_ne!(first, new_session_id());
}

#[test]
fn replays_need_the_relationship() {
    let related = || relationship(SessionRelationshipKind::Related, SessionRelationshipStatus::Idle);
    let (spawned, _, status) = spawn("fork_current", Some("child"))
        .replay("child", Some(related()), SessionActivity::Running)
        .unwrap();
    assert!(spawned.replayed);
    assert_eq!(spawned.project_id, 7);
    assert_eq!(status, Some(SessionRelationshipStatus::Running));
    for refused in [
        None,
        Some(SessionRelationship { source_session_id: "other".to_string(), ..related() }),
        Some(SessionRelationship {
            control_mode: SessionRelationshipControlMode::Other("parent".to_string()),
            ..related()
        }),
        Some(SessionRelationship {
            kind: SessionRelationshipKind::Other("subagent".to_string()),
            ..related()
        }),
    ] {
        let error = require_adjacent_relationship(refused, "source").unwrap_err();
        assert_eq!(error.code, "adjacent_session_not_found");
    }
}

#[test]
fn only_adjacent_relationships_are_listed() {
    let row = |id: &str, kind| SessionRelationship {
        relationship_id: id.to_string(),
        ..relationship(kind, SessionRelationshipStatus::Idle)
    };
    let kept = adjacent_relationships(vec![
        row("1", SessionRelationshipKind::Other("x".to_string())),
        row("2", SessionRelationshipKind::Related),
        row("3", SessionRelationshipKind::Other("y".to_string())),
        row("4", SessionRelationshipKind::RelatedFork),
    ]);
    let ids: Vec<&str> = kept.iter().map(|r| r.relationship_id.as_str()).collect();
    assert_eq!(ids, vec!["2", "4"]);
}

#[test]
fn relationship_statuses_settle() {
    let refresh = |status, activity| {
        refresh_relationship_status(&relationship(SessionRelationshipKind::Related, status), activity)
    };
    let (idle, running) = (SessionActivity::Idle, SessionActivity::Running);
    assert_eq!(refresh(SessionRelationshipStatus::Idle, idle), None);
    assert_eq!(refresh(SessionRelationshipStatus::Running, running), None);
    assert_eq!(refresh(SessionRelationshipStatus::Running, SessionActivity::Queued), None);
    assert_eq!(refresh(SessionRelationshipStatus::Completed, running), None);
    assert_eq!(
        refresh(SessionRelationshipStatus::Running, idle),
        Some(SessionRelationshipStatus::Idle)
    );
    assert_eq!(
        refresh(SessionRelationshipStatus::Other("failed".to_string()), idle),
        Some(SessionRelationshipStatus::Idle)
    );
}

#[test]
fn texts_name_the_source() {
    assert_eq!(
        adjacent_initial_task_message("s", "do it", Some("ctx")),
        "Adjacent session task spawned from session `s`:\n\ndo it\n\nThis is a visible top-level adjacent session, not a hidden parent-controlled subagent. Work independently on this related objective and report results clearly in this session.\n\n# Initial context\n\nctx"
    );
    assert!(!spawn("fork_current", None).initial_task().contains("# Initial context"));
    let prompt = adjacent_session_system_prompt("base", "s", AdjacentWorkspaceMode::ForkCurrent);
    assert!(prompt.starts_with("base\n\n# Adjacent session contract\n\n"));
    assert!(prompt.contains("source session `s`.\n"));
    assert!(prompt.contains("Your workspace mode is `fork_current`."));
}

#[test]
fn answers_read_exactly() {
    let (spawned, _, _) = spawn("fork_current", Some("child"))
        .replay(
            "child",
            Some(relationship(SessionRelationshipKind::Related, SessionRelationshipStatus::Idle)),
            SessionActivity::Idle,
        )
        .unwrap();
    assert_eq!(
        pretty_json(&spawned_adjacent_session_view(&spawned, Json::text("view"))),
        "{\n  \"activity\": \"idle\",\n  \"relationship\": \"view\",\n  \"replayed\": true,\n  \"session_id\": \"child\",\n  \"source_session_id\": \"source\"\n}"
    );
    let rows = vec![ListedAdjacentSession {
        relationship: Json::Null,
        activity: SessionActivity::Queued,
    }];
    assert_eq!(
        pretty_json(&adjacent_session_list_view("s", &rows)),
        "{\n  \"adjacent_sessions\": [\n    {\n      \"activity\": \"queued\",\n      \"relationship\": null\n    }\n  ],\n  \"source_session_id\": \"s\"\n}"
    );
}
