//! The compaction ledger.
use agent_daemon::delegation_context::{
    bounded_suggested_next, compaction_delegation_ledger, empty_compaction_delegation_ledger,
    inline_code, ledger_header, ledger_subagent, optional_inline_code, optional_transcript_file,
    truncate_chars, LedgerDelegation, LedgerSubagent,
};
use agent_daemon::records::{
    Delegation, DelegationKind, DelegationProgress, DelegationStatus, SessionActivity, SubagentType,
};

fn delegation(id: &str, status: DelegationStatus) -> Delegation {
    Delegation {
        id: id.to_string(),
        parent_session_id: "parent".to_string(),
        workflow: None,
        label: None,
        kind: DelegationKind::ReadonlyFanout,
        status,
        attempt_id: "attempt".to_string(),
        expected_subagents: 1,
    }
}

fn ledger(
    delegations: Vec<(Delegation, DelegationProgress, Vec<LedgerSubagent>)>,
    workspace: &str,
) -> String {
    let rows = delegations
        .into_iter()
        .map(|(delegation, progress, subagents)| LedgerDelegation {
            delegation,
            progress,
            subagents,
        })
        .collect();
    compaction_delegation_ledger(None, workspace, &rows).expect("render context")
}

#[test]
fn empty_compaction_ledger_is_explicit_and_compact() {
    let text = empty_compaction_delegation_ledger();
    assert!(text.starts_with("## Delegation state at compaction time"));
    assert!(text.contains("No delegations existed for this parent session at compaction time."));
    assert!(!text.contains("## Current delegations"));
    assert_eq!(compaction_delegation_ledger(None, "/w", &Vec::new()), Some(text));
}

#[test]
fn bounded_compaction_ledger_omits_transcript_and_final_message_bodies() {
    let long_final = format!(
        "{}\n\nsuggested_next: approved",
        "final-message ".repeat(100)
    );
    let subagents = (0..10)
        .map(|index| LedgerSubagent {
            session_id: format!("child_{index}"),
            role: Some("explorer".to_string()),
            subagent_type: Some(SubagentType::ReadOnly),
            activity: SessionActivity::Idle,
            status: "terminal".to_string(),
            steerable: false,
            final_message: Some(long_final.clone()),
        })
        .collect::<Vec<_>>();
    let text = ledger(
        vec![(
            delegation("delegation_1", DelegationStatus::Done),
            DelegationProgress {
                expected: 10,
                spawned: 10,
                terminal: 10,
                running: 0,
                failed: 0,
            },
            subagents,
        )],
        "/tmp/session",
    );

    assert!(text.starts_with("## Delegation state at compaction time"));
    assert!(text.contains("completed before compaction"));
    assert!(text.contains("... 2 more subagent(s) omitted"));
    assert!(text.contains("final_message_file: `child_0/final_message.md`"));
    assert!(text.contains("suggested_next: \"approved\""));
    assert!(text.contains("Full transcript and final-message contents are not inlined"));
    assert!(!text.contains("final-message final-message"));
    assert!(!text.contains("## User"));
    assert!(!text.contains("## Assistant"));
    assert!(!text.contains("transcript body"));
    assert!(!text.contains("child_9/final_message.md"));
}

#[test]
fn running_compaction_ledger_has_point_in_time_status_and_no_final_message_inline() {
    let text = ledger(
        vec![(
            delegation("delegation_running", DelegationStatus::Running),
            DelegationProgress {
                expected: 1,
                spawned: 1,
                terminal: 0,
                running: 1,
                failed: 0,
            },
            vec![LedgerSubagent {
                session_id: "impl".to_string(),
                role: Some("implementer".to_string()),
                subagent_type: Some(SubagentType::Full),
                activity: SessionActivity::Running,
                status: "running".to_string(),
                steerable: true,
                final_message: Some("not yet relevant".to_string()),
            }],
        )],
        "/tmp/session",
    );

    assert!(text.contains("status: running"));
    assert!(text.contains("running at compaction time; point-in-time only"));
    assert!(text.contains("steerable: true"));
    assert!(text.contains("transcript_file: `impl/transcript.md`"));
    assert!(!text.contains("final_message:"));
    assert!(!text.contains("not yet relevant"));
}

#[test]
fn omitted_count_uses_spawned_progress_not_loaded_subagent_count() {
    let subagents = (0..9)
        .map(|index| LedgerSubagent {
            session_id: format!("child_{index}"),
            role: Some("explorer".to_string()),
            subagent_type: Some(SubagentType::ReadOnly),
            activity: SessionActivity::Idle,
            status: "terminal".to_string(),
            steerable: false,
            final_message: None,
        })
        .collect::<Vec<_>>();
    let text = ledger(
        vec![(
            delegation("delegation_large", DelegationStatus::Done),
            DelegationProgress {
                expected: 20,
                spawned: 20,
                terminal: 20,
                running: 0,
                failed: 0,
            },
            subagents,
        )],
        "/tmp/session",
    );

    assert!(text.contains("... 12 more subagent(s) omitted"));
    assert!(text.contains("subagent_id: `child_7`"));
    assert!(!text.contains("subagent_id: `child_8`"));
}

#[test]
fn failed_delegation_ledger_does_not_point_at_normal_transcript_artifacts() {
    let text = ledger(
        vec![(
            delegation("delegation_failed", DelegationStatus::Failed),
            DelegationProgress {
                expected: 1,
                spawned: 1,
                terminal: 0,
                running: 0,
                failed: 0,
            },
            vec![LedgerSubagent {
                session_id: "impl_failed".to_string(),
                role: Some("implementer".to_string()),
                subagent_type: Some(SubagentType::Full),
                activity: SessionActivity::Idle,
                status: "failed".to_string(),
                steerable: false,
                final_message: None,
            }],
        )],
        "/tmp/session",
    );

    assert!(text.contains("transcript_file: null"));
    assert!(text.contains("failed before compaction"));
    assert!(!text.contains("impl_failed/transcript.md"));
    assert!(!text.contains("final_message_file:"));
}

#[test]
fn a_ledger_entry_reads_exactly() {
    let mut row = delegation("d`1", DelegationStatus::Cancelled);
    row.workflow = Some("flow".to_string());
    row.label = Some(String::new());
    let text = ledger(
        vec![(
            row,
            DelegationProgress { expected: 1, spawned: -1, terminal: 0, running: 0, failed: 0 },
            vec![ledger_subagent(
                DelegationStatus::Cancelled,
                "c".to_string(),
                None,
                None,
                SessionActivity::Idle,
                true,
                true,
                None,
            )],
        )],
        "/w",
    );
    let entry = text.strip_prefix(ledger_header().as_str()).unwrap();
    assert_eq!(
        entry,
        "\n- delegation_id: `d\\`1`; kind: readonly_fanout; status: cancelled; progress: expected 1, spawned -1, terminal 0, running 0, failed 0; compaction_note: cancelled before compaction; workflow: `flow`; handoff_dir: `/w/.pi-handoff/d\\`1`\n  - subagent_id: `c`; role: null; type: unknown; activity: idle; status: cancelled; steerable: false; transcript_file: `cancelled/c.transcript.md`"
    );
}

#[test]
fn ledger_subagents_show_where_they_stand() {
    let row = |status, kind, activity, terminal, live| {
        let shown = ledger_subagent(
            status,
            "c".to_string(),
            None,
            Some(kind),
            activity,
            terminal,
            live,
            None,
        );
        (shown.status, shown.steerable)
    };
    let (running, done) = (DelegationStatus::Running, DelegationStatus::Done);
    let (full, reader) = (SubagentType::Full, SubagentType::ReadOnly);
    assert_eq!(row(running, full, SessionActivity::Queued, false, false), ("queued".to_string(), true));
    assert_eq!(row(running, full, SessionActivity::Idle, false, true), ("idle".to_string(), true));
    assert_eq!(row(running, full, SessionActivity::Idle, false, false), ("idle".to_string(), false));
    assert_eq!(row(running, reader, SessionActivity::Running, false, true), ("running".to_string(), false));
    assert_eq!(row(running, full, SessionActivity::Running, true, true), ("terminal".to_string(), false));
    assert_eq!(row(done, full, SessionActivity::Idle, false, false), ("done".to_string(), false));
    assert_eq!(row(done, full, SessionActivity::Idle, true, false), ("terminal".to_string(), false));
}

/// The ledger's part: what the store and the provider add around it is theirs.
#[test]
fn parent_compaction_output_appends_complete_delegation_ledger_after_provider_summary() {
    let progress = |terminal, running| DelegationProgress {
        expected: 1,
        spawned: 1,
        terminal,
        running,
        failed: 0,
    };
    let member = |status, id: &str, kind, activity, terminal, message: Option<&str>| {
        ledger_subagent(
            status,
            id.to_string(),
            Some("explorer".to_string()),
            Some(kind),
            activity,
            terminal,
            false,
            message.map(str::to_string),
        )
    };
    let (done, failures) = (DelegationStatus::Done, DelegationStatus::DoneWithFailures);
    let (cancelled, failed) = (DelegationStatus::Cancelled, DelegationStatus::Failed);
    let running = DelegationStatus::Running;
    let (full, reader) = (SubagentType::Full, SubagentType::ReadOnly);
    let idle = SessionActivity::Idle;
    let ledger = ledger(
        vec![
            (
                delegation("d_done", done),
                progress(1, 0),
                vec![member(
                    done,
                    "review_done",
                    reader,
                    idle,
                    true,
                    Some("Looks good.\n\noutcome: approved"),
                )],
            ),
            (
                delegation("d_failures", failures),
                progress(1, 0),
                vec![member(
                    failures,
                    "review_failed",
                    reader,
                    idle,
                    true,
                    Some("Tests failed.\n\noutcome: changes_requested"),
                )],
            ),
            (
                delegation("d_cancelled", cancelled),
                progress(0, 1),
                vec![member(cancelled, "impl_cancelled", full, idle, false, None)],
            ),
            (
                delegation("d_failed", failed),
                progress(1, 0),
                vec![member(failed, "impl_failed", full, idle, true, None)],
            ),
            (
                delegation("d_running", running),
                progress(0, 1),
                vec![member(running, "impl_running", full, SessionActivity::Running, false, None)],
            ),
        ],
        "/w",
    );

    assert!(ledger.starts_with("## Delegation state at compaction time"));
    assert!(!ledger.contains("## Current delegations"));
    assert!(ledger.contains("delegation_id: `d_running`"));
    assert!(
        ledger.contains("status: running; progress: expected 1, spawned 1, terminal 0, running 1")
    );
    assert!(ledger.contains("running at compaction time; point-in-time only"));
    assert!(ledger.contains("delegation_id: `d_done`"));
    assert!(ledger.contains("status: done"));
    assert!(ledger.contains("completed before compaction"));
    assert!(ledger.contains("final_message_file: `review_done/final_message.md`"));
    assert!(ledger.contains("outcome: \"approved\""));
    assert!(!ledger.contains("\"Looks good.\\n\\noutcome: approved\""));
    assert!(ledger.contains("delegation_id: `d_failures`"));
    assert!(ledger.contains("status: done_with_failures"));
    assert!(ledger.contains("completed with failures before compaction"));
    assert!(ledger.contains("delegation_id: `d_cancelled`"));
    assert!(ledger.contains("status: cancelled"));
    assert!(ledger.contains("cancelled before compaction"));
    assert!(ledger.contains("transcript_file: `cancelled/impl_cancelled.transcript.md`"));
    assert!(ledger.contains("delegation_id: `d_failed`"));
    assert!(ledger.contains("status: failed"));
    assert!(ledger.contains("failed before compaction"));
    assert!(ledger.contains("transcript_file: null"));
    assert!(ledger.contains("Full transcript and final-message contents are not inlined"));
    assert!(!ledger.contains("## User"));
    assert!(!ledger.contains("## Assistant"));
    assert!(!ledger.contains("transcript body"));
}

#[test]
fn outcomes_are_shown_as_their_message_spells_them() {
    let line = |message: &str| {
        let text = ledger(
            vec![(
                delegation("d", DelegationStatus::Done),
                DelegationProgress { expected: 1, spawned: 1, terminal: 1, running: 0, failed: 0 },
                vec![ledger_subagent(
                    DelegationStatus::Done,
                    "c".to_string(),
                    None,
                    Some(SubagentType::ReadOnly),
                    SessionActivity::Idle,
                    true,
                    false,
                    Some(message.to_string()),
                )],
            )],
            "/w",
        );
        text.rsplit_once("; final_message_file: ").unwrap().1.to_string()
    };
    assert_eq!(
        line("Looks good.\n\noutcome: approved\n"),
        "`c/final_message.md`; outcome: \"approved\""
    );
    assert_eq!(
        line("suggested_next: say \"hi\""),
        "`c/final_message.md`; suggested_next: \"say \\\"hi\\\"\""
    );
    assert_eq!(
        line("outcome: \\ \u{8}\u{c}\t\u{1}\u{1f}\u{7f}/\u{e4}."),
        "`c/final_message.md`; outcome: \"\\\\ \\b\\f\\t\\u0001\\u001f\u{7f}/\u{e4}.\""
    );
    assert_eq!(line("outcome:"), "`c/final_message.md`");
    assert_eq!(line("nothing"), "`c/final_message.md`");
}

#[test]
fn subagent_sessions_get_no_ledger() {
    assert_eq!(compaction_delegation_ledger(Some(SubagentType::Full), "/w", &Vec::new()), None);
}

#[test]
fn inline_code_stays_on_one_line() {
    assert_eq!(inline_code("a`b\nc\rd\\"), "a\\`b\\nc\\rd\\");
    assert_eq!(optional_inline_code(Some("x")), "`x`");
    assert_eq!(optional_inline_code(Some("")), "null");
    assert_eq!(optional_inline_code(None), "null");
    assert_eq!(optional_transcript_file(DelegationStatus::Failed, "c"), "null");
    assert_eq!(optional_transcript_file(DelegationStatus::Done, "c"), "`c/transcript.md`");
}

#[test]
fn outcomes_are_bounded() {
    assert_eq!(truncate_chars("abcd", 4), "abcd");
    assert_eq!(truncate_chars("abcde", 4), "abcd\u{2026}");
    assert_eq!(truncate_chars("\u{e4}\u{f6}\u{fc}", 2), "\u{e4}\u{f6}\u{2026}");
    let long = format!("outcome: {}", "x".repeat(121));
    let bounded = bounded_suggested_next(&long).unwrap();
    assert_eq!(bounded, format!("{}\u{2026}", "x".repeat(120)));
    assert_eq!(bounded_suggested_next("nothing"), None);
}
