//! The delegation list.
use agent_daemon::delegation_list::{
    bounded_delegation_list_limit, list_subagent_status, progress_from_subagent_overview,
    progress_view, DelegationList, DelegationListParams, ListedSubagent,
};
use agent_daemon::interop::pretty_json;
use agent_daemon::json::Json;
use agent_daemon::records::{
    Delegation, DelegationKind, DelegationProgress, DelegationStatus, DelegationSubagentOverview,
    SessionActivity, SubagentType,
};

fn delegation(id: &str, status: DelegationStatus, expected: i32) -> Delegation {
    Delegation {
        id: id.to_string(),
        parent_session_id: "parent".to_string(),
        workflow: Some("flow".to_string()),
        label: None,
        kind: DelegationKind::Full,
        status,
        attempt_id: "attempt".to_string(),
        expected_subagents: expected,
    }
}

fn subagent(id: &str, terminal: Option<&str>, activity: SessionActivity) -> ListedSubagent {
    ListedSubagent {
        overview: DelegationSubagentOverview {
            session_id: id.to_string(),
            role: None,
            title: Some("Title".to_string()),
            subagent_type: Some(SubagentType::Full),
            activity,
            terminal_status: terminal.map(str::to_string),
            has_task: true,
        },
        has_active_runtime: false,
    }
}

fn list(limit: Option<i64>) -> DelegationList {
    DelegationList::read(&DelegationListParams {
        parent_session_id: " parent ".to_string(),
        limit,
    })
    .unwrap()
}

#[test]
fn limits_are_bounded() {
    assert_eq!(bounded_delegation_list_limit(None).unwrap(), 3);
    assert_eq!(bounded_delegation_list_limit(Some(0)).unwrap(), 0);
    assert_eq!(bounded_delegation_list_limit(Some(100)).unwrap(), 100);
    for limit in [-1, 101, i64::MAX] {
        let error = bounded_delegation_list_limit(Some(limit)).unwrap_err();
        assert_eq!(error.code, "invalid_params");
        assert_eq!(error.message, "limit must be between 0 and 100");
    }
}

#[test]
fn pages_are_cut_at_the_limit() {
    assert_eq!(list(Some(2)).parent_session_id, "parent");
    assert_eq!(list(Some(2)).fetch_limit(), 3);
    let rows = |n: usize| {
        (0..n)
            .map(|i| delegation(&format!("d{i}"), DelegationStatus::Done, 1))
            .collect::<Vec<_>>()
    };
    let page = list(Some(2)).page(rows(3));
    assert!(page.has_more());
    assert_eq!(page.rows().len(), 2);
    assert_eq!(page.rows()[1].delegation.id, "d1");
    assert!(page.rows()[1].subagents.is_empty());
    let mut page = list(Some(2)).page(rows(2));
    assert!(!page.has_more());
    assert_eq!(page.rows().len(), 2);
    page.load(1, vec![subagent("c", None, SessionActivity::Idle)]);
    assert_eq!(page.rows()[1].subagents.len(), 1);
    assert_eq!(page.rows()[1].delegation.id, "d1");
    assert!(page.rows()[0].subagents.is_empty());
    assert!(!page.has_more());
}

#[test]
fn lists_need_a_session() {
    let error = DelegationList::read(&DelegationListParams {
        parent_session_id: " ".to_string(),
        limit: Some(-1),
    })
    .unwrap_err();
    assert_eq!(error.message, "parent_session_id cannot be empty");
    assert!(list(None).require_session(true).is_ok());
    let error = list(None).require_session(false).unwrap_err();
    assert_eq!(error.code, "internal_error");
    assert_eq!(error.message, "session not found: parent");
}

#[test]
fn progress_counts_every_subagent_once() {
    let rows = vec![
        subagent("a", Some("done"), SessionActivity::Idle),
        subagent("b", Some("failed"), SessionActivity::Idle),
        subagent("c", None, SessionActivity::Running),
    ];
    let running = delegation("d", DelegationStatus::Running, 5);
    assert_eq!(
        progress_from_subagent_overview(&running, &rows),
        DelegationProgress { expected: 5, spawned: 3, terminal: 2, running: 3, failed: 1 }
    );
    let done = delegation("d", DelegationStatus::Done, 5);
    assert_eq!(progress_from_subagent_overview(&done, &rows).running, 0);
    let fewer = delegation("d", DelegationStatus::Running, -2);
    let progress = progress_from_subagent_overview(&fewer, &rows);
    assert_eq!((progress.expected, progress.running), (-2, 1));
    assert_eq!(
        pretty_json(&progress_view(progress)),
        "{\n  \"expected\": -2,\n  \"failed\": 1,\n  \"running\": 1,\n  \"spawned\": 3,\n  \"terminal\": 2\n}"
    );
}

#[test]
fn listed_statuses_follow_the_delegation() {
    let status = |s, terminal, activity| {
        list_subagent_status(s, &subagent("a", terminal, activity).overview)
    };
    let idle = SessionActivity::Idle;
    assert_eq!(status(DelegationStatus::Running, Some("interrupted"), idle), "interrupted");
    assert_eq!(status(DelegationStatus::Running, None, idle), "running");
    assert_eq!(status(DelegationStatus::Running, None, SessionActivity::Queued), "queued");
    assert_eq!(status(DelegationStatus::Done, None, idle), "done");
    assert_eq!(status(DelegationStatus::DoneWithFailures, Some("failed"), idle), "failed");
    assert_eq!(status(DelegationStatus::Cancelled, Some("done"), idle), "cancelled");
    assert_eq!(status(DelegationStatus::Failed, Some("done"), idle), "failed");
}

#[test]
fn rows_offer_only_live_subagents_for_steering() {
    let steerable = |status, s: ListedSubagent| {
        let mut page = list(None).page(vec![delegation("d", status, 1)]);
        page.load(0, vec![s]);
        let answer = page.answer().unwrap();
        let Some(Json::List(delegations)) = answer.get("delegations") else {
            panic!("no list")
        };
        let Some(Json::List(rows)) = delegations[0].get("subagents") else {
            panic!("no list")
        };
        rows[0].get("steerable").as_ref().and_then(Json::as_bool).unwrap()
    };
    let running = DelegationStatus::Running;
    assert!(steerable(running, subagent("a", None, SessionActivity::Queued)));
    assert!(!steerable(running, subagent("a", None, SessionActivity::Idle)));
    let mut live = subagent("a", None, SessionActivity::Idle);
    live.has_active_runtime = true;
    assert!(steerable(running, live));
    assert!(!steerable(running, subagent("a", Some("done"), SessionActivity::Running)));
    assert!(!steerable(DelegationStatus::Done, subagent("a", None, SessionActivity::Running)));
    let mut plain = subagent("a", None, SessionActivity::Running);
    plain.overview.subagent_type = None;
    assert!(!steerable(running, plain));
}

#[test]
fn the_list_reads_exactly() {
    let mut page = list(Some(1)).page(vec![
        delegation("d1", DelegationStatus::Running, 1),
        delegation("d2", DelegationStatus::Running, 1),
    ]);
    page.load(0, vec![subagent("c1", None, SessionActivity::Running)]);
    assert_eq!(
        pretty_json(&page.answer().unwrap()),
        "{\n  \"delegations\": [\n    {\n      \"delegation_id\": \"d1\",\n      \"kind\": \"full\",\n      \"label\": null,\n      \"progress\": {\n        \"expected\": 1,\n        \"failed\": 0,\n        \"running\": 1,\n        \"spawned\": 1,\n        \"terminal\": 0\n      },\n      \"status\": \"running\",\n      \"subagents\": [\n        {\n          \"activity\": \"running\",\n          \"final_message_file\": null,\n          \"id\": \"c1\",\n          \"outcome\": null,\n          \"role\": null,\n          \"status\": \"running\",\n          \"steerable\": true,\n          \"subagent_type\": \"full\",\n          \"task_prompt_file\": \"c1/task_prompt.md\",\n          \"title\": \"Title\",\n          \"transcript_file\": null,\n          \"type\": \"full\"\n        }\n      ],\n      \"workflow\": \"flow\"\n    }\n  ],\n  \"has_more\": true,\n  \"limit\": 1,\n  \"parent_session_id\": \"parent\"\n}"
    );
}

#[test]
fn unsafe_ids_refuse_the_list() {
    let mut page = list(None).page(vec![delegation("d1", DelegationStatus::Running, 1)]);
    page.load(0, vec![subagent("a/b", None, SessionActivity::Running)]);
    assert_eq!(
        page.answer().unwrap_err().message,
        "subagent_id is not a valid path segment"
    );
}
