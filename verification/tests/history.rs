//! History switches and forks.
use agent_daemon::history::{
    ensure_history_source_idle, parse_history_target, prepare_history_target, HistorySwitch,
    RequiredNullableString, SwitchOnlyParams,
};
use agent_daemon::history_fork::{
    fork_candidate, fork_metadata, fork_outcome, forked_metadata, new_workspace_id,
    require_project, ForkOutcome, ForkResult,
};
use agent_daemon::interop::{parse_json, pretty_json};
use agent_daemon::json::{Json, JsonObject};
use agent_daemon::types::RpcError;

fn json(text: &str) -> Json {
    parse_json(text).expect("valid JSON")
}

fn object(value: Json) -> JsonObject {
    match value {
        Json::Object(object) => object,
        other => panic!("unexpected {other:?}"),
    }
}

#[test]
fn switch_and_fork_reject_malformed_shared_targets() {
    let malformed = [
        json(r#"{ "session_id": "s1" }"#),
        json(r#"{ "session_id": "s1", "leaf_id": 7 }"#),
        json(
            r#"{
            "session_id": "s1",
            "leaf_id": null,
            "expected_active_leaf_id": 7
        }"#,
        ),
        json(
            r#"{
            "session_id": "s1",
            "leaf_id": null,
            "expected_transcript_revision": "7"
        }"#,
        ),
        json(
            r#"{
            "session_id": "s1",
            "leaf_id": null,
            "expected_transcript_revision": null
        }"#,
        ),
        json(
            r#"{
            "session_id": "s1",
            "leaf_id": null,
            "active_branch_entry_ids": [7]
        }"#,
        ),
        json(
            r#"{
            "session_id": "s1",
            "leaf_id": null,
            "active_branch_entry_ids": null
        }"#,
        ),
        json(
            r#"{
            "session_id": "s1",
            "leaf_id": null,
            "unexpected": true
        }"#,
        ),
    ];

    for params in malformed {
        assert_eq!(
            parse_history_target(&params, &["return_active_branch", "missing_body_ids"])
                .expect_err("switch rejects malformed target")
                .code,
            "invalid_params"
        );
        assert_eq!(
            parse_history_target(&params, &[])
                .expect_err("fork rejects malformed target")
                .code,
            "invalid_params"
        );
    }
}

#[test]
fn switch_rejects_malformed_operation_fields() {
    for params in [
        json(
            r#"{
            "session_id": "s1",
            "leaf_id": null,
            "return_active_branch": "true"
        }"#,
        ),
        json(
            r#"{
            "session_id": "s1",
            "leaf_id": null,
            "return_active_branch": null
        }"#,
        ),
        json(
            r#"{
            "session_id": "s1",
            "leaf_id": null,
            "missing_body_ids": [7]
        }"#,
        ),
        json(
            r#"{
            "session_id": "s1",
            "leaf_id": null,
            "missing_body_ids": null
        }"#,
        ),
    ] {
        parse_history_target(&params, &["return_active_branch", "missing_body_ids"])
            .expect("common target parses");
        assert_eq!(
            HistorySwitch::parse(&params)
                .expect_err("switch rejects")
                .code,
            "invalid_params"
        );
        assert_eq!(
            SwitchOnlyParams::from_object(&object(params))
                .expect_err("switch-only field rejects")
                .code,
            "invalid_params"
        );
    }
}

#[test]
fn target_parser_preserves_missing_and_explicit_empty_fences() {
    let omitted = parse_history_target(&json(r#"{ "session_id": "s1", "leaf_id": null }"#), &[])
        .expect("omitted target fences parse");
    let explicit = parse_history_target(
        &json(
            r#"{
            "session_id": "s1",
            "leaf_id": null,
            "expected_active_leaf_id": null,
            "active_branch_entry_ids": []
        }"#,
        ),
        &[],
    )
    .expect("explicit target fences parse");

    assert_eq!(omitted.expected_active_leaf_id, None);
    assert_eq!(omitted.active_branch_entry_ids, None);
    assert_eq!(explicit.expected_active_leaf_id, Some(None));
    assert_eq!(explicit.active_branch_entry_ids, Some(Vec::new()));
}

#[test]
fn targets_decode_every_field() {
    let target = parse_history_target(
        &json(
            r#"{"session_id":"s1","leaf_id":"l1","expected_active_leaf_id":"l0",
                "expected_transcript_revision":-7,"active_branch_entry_ids":["a","b"]}"#,
        ),
        &[],
    )
    .unwrap();
    assert_eq!(target.session_id, "s1");
    assert_eq!(target.leaf_id.as_deref(), Some("l1"));
    assert_eq!(target.expected_active_leaf_id, Some(Some("l0".to_string())));
    assert_eq!(target.expected_transcript_revision, Some(-7));
    assert_eq!(
        target.active_branch_entry_ids,
        Some(vec!["a".to_string(), "b".to_string()])
    );
}

#[test]
fn refusals_of_targets_tell_the_reason() {
    let refused = |text: &str| parse_history_target(&json(text), &[]).unwrap_err().message;
    assert_eq!(refused("[]"), "params must be an object");
    assert_eq!(refused(r#"{"zz":1,"extra":1}"#), "unknown field `extra`");
    let built = Json::Object(
        JsonObject::new()
            .with("zz", Json::Null)
            .with("session_id", Json::Null)
            .with("aa", Json::Null)
            .with("a", Json::Null),
    );
    let refused_built = |fields: &[&str]| parse_history_target(&built, fields).unwrap_err().message;
    assert_eq!(refused_built(&[]), "unknown field `a`");
    assert_eq!(refused_built(&["a"]), "unknown field `aa`");
    assert_eq!(refused_built(&["aa", "a"]), "unknown field `zz`");
    assert_eq!(refused("{}"), "missing field `session_id`");
    assert_eq!(refused(r#"{"session_id":"s"}"#), "missing field `leaf_id`");
    assert_eq!(
        refused(r#"{"session_id":7,"leaf_id":7}"#),
        "data did not match any variant of untagged enum RequiredNullableString"
    );
    assert_eq!(
        refused(r#"{"session_id":7,"leaf_id":null}"#),
        "invalid type: integer `7`, expected a string"
    );
    assert_eq!(
        refused(r#"{"session_id":"s","leaf_id":null,"expected_active_leaf_id":7}"#),
        "invalid type: integer `7`, expected a string"
    );
    assert_eq!(
        refused(r#"{"expected_transcript_revision":9223372036854775808}"#),
        "invalid value: integer `9223372036854775808`, expected i64"
    );
    assert_eq!(
        refused(r#"{"expected_transcript_revision":1.5}"#),
        "invalid type: floating point `1.5`, expected i64"
    );
    assert_eq!(
        refused(r#"{"active_branch_entry_ids":"a"}"#),
        "invalid type: string \"a\", expected a sequence"
    );
}

#[test]
fn switches_default_to_no_branch() {
    let switch = HistorySwitch::parse(&json(
        r#"{"session_id":"s1","leaf_id":"l1","return_active_branch":true,"missing_body_ids":["b"]}"#,
    ))
    .unwrap();
    assert!(switch.return_active_branch);
    assert_eq!(switch.missing_body_ids, Some(vec!["b".to_string()]));
    assert_eq!(switch.target.session_id, "s1");
    let switch = HistorySwitch::parse(&json(r#"{"session_id":"s1","leaf_id":null}"#)).unwrap();
    assert!(!switch.return_active_branch);
    assert_eq!(switch.missing_body_ids, None);
    let error = HistorySwitch::parse(&json(
        r#"{"session_id":"s1","leaf_id":null,"return_active_branch":"true"}"#,
    ))
    .unwrap_err();
    assert_eq!(error.message, "invalid type: string \"true\", expected a boolean");
}

#[test]
fn nullable_strings_take_strings_and_null() {
    let decoded = RequiredNullableString::decode(&Json::text("x")).unwrap();
    assert_eq!(decoded.into_option().as_deref(), Some("x"));
    assert_eq!(RequiredNullableString::decode(&Json::Null).unwrap(), RequiredNullableString::Null);
    assert!(RequiredNullableString::decode(&Json::Bool(true)).is_err());
}

#[test]
fn history_operations_need_idle_delegations() {
    let target =
        || parse_history_target(&json(r#"{"session_id":"s","leaf_id":null}"#), &[]).unwrap();
    assert_eq!(ensure_history_source_idle(target(), false).unwrap().target(), &target());
    let error = ensure_history_source_idle(target(), true).unwrap_err();
    assert_eq!(error.code, "session_busy");
    assert_eq!(error.message, "history operations require all delegations to be idle");
}

#[test]
fn fences_are_held_against_the_active_leaf() {
    let target = |text: &str| {
        let parsed = parse_history_target(&json(text), &[]).unwrap();
        ensure_history_source_idle(parsed, false).unwrap()
    };
    let open = || target(r#"{"session_id":"s","leaf_id":null}"#);
    let empty = || target(r#"{"session_id":"s","leaf_id":null,"expected_active_leaf_id":null}"#);
    let exact = || target(r#"{"session_id":"s","leaf_id":null,"expected_active_leaf_id":"l"}"#);
    assert!(prepare_history_target(open(), Some("l"), true).is_ok());
    assert!(prepare_history_target(open(), None, true).is_ok());
    assert!(prepare_history_target(empty(), None, true).is_ok());
    assert!(prepare_history_target(exact(), Some("l"), true).is_ok());
    for (target, leaf) in [(empty(), Some("l")), (exact(), None), (exact(), Some("m"))] {
        assert_eq!(
            prepare_history_target(target, leaf, false).unwrap_err().code,
            "history_changed"
        );
    }
    assert_eq!(exact().require_active_leaf(None).unwrap_err().code, "history_changed");
    let fenced = exact().require_active_leaf(Some("l")).unwrap();
    assert_eq!(fenced.target().session_id, "s");
    assert!(fenced.require_boundary(true).is_ok());
    let error = prepare_history_target(exact(), Some("l"), false).unwrap_err();
    assert_eq!(error.code, "not_turn_boundary");
    assert_eq!(error.message, "history operation requires a turn boundary");
}

#[test]
fn forks_come_of_prepared_targets() {
    let target = parse_history_target(&json(r#"{"session_id":"s","leaf_id":"l"}"#), &[]).unwrap();
    let idle = ensure_history_source_idle(target, false).unwrap();
    let prepared = prepare_history_target(idle, None, true).unwrap();
    assert_eq!(prepared.target().leaf_id.as_deref(), Some("l"));
    assert_eq!(
        forked_metadata(&prepared, json(r#"{"title":"T"}"#)),
        fork_metadata(json(r#"{"title":"T"}"#), "s", Some("l"))
    );
}

#[test]
fn forks_start_afresh_and_inherit_the_rest() {
    let metadata = fork_metadata(
        json(
            r#"{"title":"T","archived":true,"hidden":true,"subagent":true,"subagent_type":"full",
                "role_name":"r","task":"t","role_file_path":"p","prompt_profile":"subagent",
                "subagent_parent_idle_notification_key":"k",
                "compaction":{"auto":true,"auto_state":{"n":1}}}"#,
        ),
        "source",
        Some("leaf"),
    );
    let expected = json(
        r#"{"title":"T","prompt_profile":"parent","compaction":{"auto":true},
            "fork":{"source_session_id":"source","source_leaf_id":"leaf"}}"#,
    );
    assert_eq!(pretty_json(&metadata), pretty_json(&expected));
    let again = fork_metadata(metadata, "source", Some("leaf"));
    assert_eq!(pretty_json(&again), pretty_json(&expected));
    let bare = fork_metadata(Json::text("none"), "source", None);
    assert_eq!(
        pretty_json(&bare),
        pretty_json(&json(
            r#"{"prompt_profile":"parent","fork":{"source_session_id":"source","source_leaf_id":null}}"#
        ))
    );
    let odd = fork_metadata(json(r#"{"compaction":7}"#), "source", None);
    assert_eq!(odd.get("compaction").as_ref().and_then(Json::as_u64), Some(7));
}

#[test]
fn forks_need_a_project() {
    assert!(require_project(true).is_ok());
    let error = require_project(false).unwrap_err();
    assert_eq!(error.code, "project_required");
    assert_eq!(error.message, "history.fork requires a managed project session");
}

#[test]
fn forks_get_fresh_ids() {
    assert!(new_workspace_id().starts_with("workspace_"));
    assert_eq!(new_workspace_id().len(), 46);
    assert!(fork_candidate().starts_with("session_"));
    assert_ne!(fork_candidate(), fork_candidate());
}

#[test]
fn forks_are_answered_or_cleaned_up() {
    let created = ForkResult {
        session_id: "child".to_string(),
        source_session_id: "source".to_string(),
        source_leaf_id: None,
        active_leaf_id: Some("leaf".to_string()),
        session_revision: 1,
        queue_revision: 0,
        transcript_revision: 2,
        last_event_id: Some(-3),
    };
    match fork_outcome(Ok(created)) {
        ForkOutcome::Answer(answer) => assert_eq!(
            pretty_json(&answer),
            "{\n  \"active_leaf_id\": \"leaf\",\n  \"last_event_id\": -3,\n  \"queue_revision\": 0,\n  \"session_id\": \"child\",\n  \"session_revision\": 1,\n  \"source_leaf_id\": null,\n  \"source_session_id\": \"source\",\n  \"transcript_revision\": 2\n}"
        ),
        other => panic!("unexpected {other:?}"),
    }
    assert_eq!(
        fork_outcome(Err(RpcError::new("c", "m"))),
        ForkOutcome::CleanUp(RpcError::new("c", "m"))
    );
}
