//! Rendering, final messages, path segments and the refresh of handoff files.
use agent_daemon::delegation_tools::SubagentWorkState;
use agent_daemon::handoff::{
    active_branch_is_terminal, delegation_dir, delegation_path, extract_final_message,
    extract_outcome, extract_suggested_next, fenced, handoff_root,
    refresh_delegation_handoff_artifacts, refresh_task_prompt_artifact_if_present,
    render_transcript_markdown, safe_handoff_path_segment, subagent_outcome, task_prompt_rel,
    terminal_subagent_status, user_message_text, DelegationMember, SubagentArtifact,
};
use agent_daemon::records::{
    Delegation, DelegationKind, DelegationStatus, DelegationSubagent, SessionActivity, SubagentType,
};
use agent_daemon::transcript::{
    AssistantMessage, ContentBlock, HistoryTree, ToolCall, ToolResultMessage, ToolResultStatus,
    TranscriptEntry, TranscriptItem, TurnOutcome, UserMessage,
};

fn entry(id: &str, item: TranscriptItem) -> TranscriptEntry {
    TranscriptEntry { id: id.to_string(), item }
}

fn history(entries: Vec<TranscriptEntry>) -> HistoryTree {
    HistoryTree {
        session_id: "child".to_string(),
        active_leaf_id: entries.last().map(|entry| entry.id.clone()),
        entries,
    }
}

fn tool_call(id: &str, name: &str, args: &str) -> ToolCall {
    ToolCall {
        id: id.to_string(),
        tool_name: name.to_string(),
        args_json: args.to_string(),
    }
}

fn assistant(text: &str, tool_calls: Vec<ToolCall>) -> TranscriptItem {
    TranscriptItem::AssistantMessage(AssistantMessage {
        text: text.to_string(),
        tool_calls,
    })
}

fn finished(outcome: TurnOutcome) -> TranscriptItem {
    TranscriptItem::TurnFinished { turn_id: 1, outcome }
}

fn delegation(status: DelegationStatus) -> Delegation {
    Delegation {
        id: "delegation-1".to_string(),
        parent_session_id: "parent".to_string(),
        workflow: None,
        label: None,
        kind: DelegationKind::ReadonlyFanout,
        status,
        attempt_id: "attempt-1".to_string(),
        expected_subagents: 1,
    }
}

fn member(session_id: &str, task: Option<&str>, idle: bool, history: HistoryTree) -> DelegationMember {
    DelegationMember {
        subagent: DelegationSubagent {
            session_id: session_id.to_string(),
            role: Some("explorer".to_string()),
            subagent_type: Some(SubagentType::ReadOnly),
            activity: SessionActivity::Idle,
            task: task.map(str::to_string),
        },
        history,
        work: Some(SubagentWorkState {
            has_unfinished_actions: false,
            has_queued_inputs: false,
            has_active_runtime: !idle,
            active_leaf_is_turn_boundary: true,
        }),
    }
}

fn approved() -> HistoryTree {
    history(vec![
        entry("a", assistant("Looks good.\n\noutcome: approved", Vec::new())),
        entry("tf", finished(TurnOutcome::Graceful)),
    ])
}

#[test]
fn render_is_exhaustive_and_dedups_tool_calls() {
    let call = tool_call("call_1", "Bash", r#"{"command":"ls"}"#);
    let history = history(vec![
        entry("u", TranscriptItem::UserMessage(UserMessage::text("do it"))),
        entry("a", assistant("running a command", vec![call.clone()])),
        entry(
            "tcs",
            TranscriptItem::ToolCallStarted { turn_id: 1, tool_call: call.clone() },
        ),
        entry(
            "tr",
            TranscriptItem::ToolResult(ToolResultMessage::success(
                &call,
                "file_a\nfile_b".to_string(),
            )),
        ),
        entry("tf", finished(TurnOutcome::Graceful)),
    ]);

    let rendered = render_transcript_markdown(&history);
    assert!(rendered.contains("## User\n\ndo it"));
    assert!(rendered.contains("## Assistant\n\nrunning a command"));
    assert_eq!(rendered.matches("### Tool call: Bash").count(), 1);
    assert!(rendered.contains("\"command\": \"ls\""));
    assert!(rendered.contains("### Tool result: Bash [success]"));
    assert!(rendered.contains("file_a\nfile_b"));
}

#[test]
fn render_includes_failed_tool_results_and_compaction() {
    let history = history(vec![
        entry(
            "tr",
            TranscriptItem::ToolResult(ToolResultMessage {
                tool_call_id: "c".to_string(),
                tool_name: "Bash".to_string(),
                output: "boom".to_string(),
                status: ToolResultStatus::Error,
            }),
        ),
        entry(
            "tr2",
            TranscriptItem::ToolResult(ToolResultMessage {
                tool_call_id: "c2".to_string(),
                tool_name: "Edit".to_string(),
                output: String::new(),
                status: ToolResultStatus::Crashed,
            }),
        ),
        entry(
            "cs",
            TranscriptItem::CompactionSummary { summary: "summarized history".to_string() },
        ),
    ]);
    let rendered = render_transcript_markdown(&history);
    assert!(rendered.contains("### Tool result: Bash [error]"));
    assert!(rendered.contains("boom"));
    assert!(rendered.contains("### Tool result: Edit [crashed]"));
    assert!(rendered.contains("## Compaction summary\n\nsummarized history"));
}

#[test]
fn extract_final_message_takes_last_assistant_text() {
    let history = history(vec![
        entry("a1", assistant("first", Vec::new())),
        entry("a2", assistant("final answer", Vec::new())),
        // A trailing message that only calls a tool has no text and is skipped.
        entry("a3", assistant("", vec![tool_call("c", "Bash", "{}")])),
    ]);
    assert_eq!(extract_final_message(&history), "final answer");
}

#[test]
fn suggested_next_reads_trailing_line_verbatim() {
    assert_eq!(
        extract_suggested_next("Looks good.\n\nsuggested_next: approved"),
        Some("approved".to_string())
    );
    // Out-of-set values are recorded verbatim, never validated against an enum.
    assert_eq!(
        extract_suggested_next("done\nsuggested_next: ship_it_now"),
        Some("ship_it_now".to_string())
    );
    assert_eq!(extract_suggested_next("no marker here"), None);
    assert_eq!(extract_suggested_next("suggested_next:"), None);
}

#[test]
fn outcome_defaults_to_crashed_without_a_finished_turn() {
    let empty = history(vec![entry(
        "u",
        TranscriptItem::UserMessage(UserMessage::text("hi")),
    )]);
    assert_eq!(subagent_outcome(&empty), TurnOutcome::Crashed);

    let interrupted = history(vec![entry("tf", finished(TurnOutcome::Interrupted))]);
    assert_eq!(subagent_outcome(&interrupted), TurnOutcome::Interrupted);
}

#[test]
fn outcome_line_is_the_last_filled_one() {
    assert_eq!(
        extract_outcome("outcome: first\nmore\r\n  outcome:  needs work \r\n\n \t\n"),
        Some("needs work".to_string())
    );
    assert_eq!(extract_outcome("outcome: early\nthen prose"), None);
    assert_eq!(extract_outcome(""), None);
    assert_eq!(extract_outcome(" \n\u{3000}\n"), None);
    assert_eq!(extract_outcome("Outcome: no"), None);
}

#[test]
fn user_blocks_stand_one_per_line() {
    let message = UserMessage {
        content: vec![
            ContentBlock::Text { text: "see".to_string() },
            ContentBlock::Image,
            ContentBlock::Text { text: "this".to_string() },
        ],
    };
    assert_eq!(user_message_text(&message), "see\n[image]\nthis");
    assert_eq!(user_message_text(&UserMessage { content: Vec::new() }), "");
}

#[test]
fn rendering_is_exact_and_piecewise() {
    assert_eq!(fenced("json", "{}\n\n"), "```json\n{}\n```");
    let first = history(vec![
        entry("u", TranscriptItem::UserMessage(UserMessage::text("  hi  "))),
        entry("b", assistant("   ", Vec::new())),
    ]);
    let second = history(vec![
        entry(
            "t",
            TranscriptItem::ToolCallStarted {
                turn_id: 1,
                tool_call: tool_call("c", "Raw", "not json"),
            },
        ),
        entry("o", TranscriptItem::DaemonToolObservation { rendered: None }),
        entry(
            "p",
            TranscriptItem::DaemonToolObservation { rendered: Some(" seen ".to_string()) },
        ),
    ]);
    let whole = history(vec![
        entry("u", TranscriptItem::UserMessage(UserMessage::text("  hi  "))),
        entry("b", assistant("   ", Vec::new())),
        entry(
            "t",
            TranscriptItem::ToolCallStarted {
                turn_id: 1,
                tool_call: tool_call("c", "Raw", "not json"),
            },
        ),
        entry("o", TranscriptItem::DaemonToolObservation { rendered: None }),
        entry(
            "p",
            TranscriptItem::DaemonToolObservation { rendered: Some(" seen ".to_string()) },
        ),
    ]);
    let a = render_transcript_markdown(&first);
    let b = render_transcript_markdown(&second);
    assert_eq!(a, "## User\n\nhi\n\n");
    assert_eq!(
        b,
        "### Tool call: Raw\n\n```json\nnot json\n```\n\n\
         ## Daemon observation\n\nDaemon observation could not be rendered.\n\n\
         ## Daemon observation\n\nseen\n\n"
    );
    assert_eq!(render_transcript_markdown(&whole), format!("{a}{b}"));
}

#[test]
fn branches_are_terminal_at_boundaries() {
    let empty = HistoryTree {
        session_id: "s".to_string(),
        active_leaf_id: None,
        entries: Vec::new(),
    };
    assert_eq!(terminal_subagent_status(&empty), Some("done"));
    assert!(active_branch_is_terminal(&empty));
    for (outcome, status) in [
        (TurnOutcome::Graceful, "done"),
        (TurnOutcome::Interrupted, "failed"),
        (TurnOutcome::Crashed, "failed"),
    ] {
        let branch = history(vec![entry("tf", finished(outcome))]);
        assert_eq!(terminal_subagent_status(&branch), Some(status));
        assert!(active_branch_is_terminal(&branch));
    }
    let compacted = history(vec![entry(
        "cs",
        TranscriptItem::CompactionSummary { summary: "s".to_string() },
    )]);
    assert_eq!(terminal_subagent_status(&compacted), Some("done"));
    let open = history(vec![
        entry("tf", finished(TurnOutcome::Graceful)),
        entry("u", TranscriptItem::UserMessage(UserMessage::text("more"))),
    ]);
    assert_eq!(terminal_subagent_status(&open), None);
    assert!(!active_branch_is_terminal(&open));
}

#[test]
fn segments_are_plain_names() {
    assert_eq!(
        safe_handoff_path_segment("  child-9 ", "subagent_id").unwrap(),
        "child-9"
    );
    assert_eq!(safe_handoff_path_segment("...", "subagent_id").unwrap(), "...");
    for evil in ["", "  ", ".", "..", "a/b", "/a", "a/", "./a", "a/.", "a\0b", " .. "] {
        let error = safe_handoff_path_segment(evil, "subagent_id").unwrap_err();
        assert_eq!(error.code, "invalid_params");
        assert_eq!(error.message, "subagent_id is not a valid path segment");
    }
}

#[test]
fn directories_stand_below_the_workspace() {
    assert_eq!(delegation_dir("d1"), ".pi-handoff/d1");
    assert_eq!(handoff_root("/work"), "/work/.pi-handoff");
    assert_eq!(handoff_root("/"), "/.pi-handoff");
    assert_eq!(delegation_path("/work", "d1"), "/work/.pi-handoff/d1");
    assert_eq!(task_prompt_rel("child"), "child/task_prompt.md");
}

#[test]
fn artifacts_refer_to_what_was_written() {
    let artifact = SubagentArtifact {
        session_id: "child".to_string(),
        terminal_status: Some("done"),
        outcome: None,
        has_final_message: true,
        has_task_prompt: false,
    };
    assert_eq!(artifact.final_message_rel().as_deref(), Some("child/final_message.md"));
    assert_eq!(artifact.transcript_rel(), "child/transcript.md");
    assert_eq!(artifact.task_prompt_rel(), None);
}

#[test]
fn task_prompts_need_a_task_and_a_plain_name() {
    let write = refresh_task_prompt_artifact_if_present(".pi-handoff/d", " child ", Some(" do "))
        .unwrap()
        .unwrap();
    assert_eq!(write.path, ".pi-handoff/d/child/task_prompt.md");
    assert_eq!(write.content, " do ");
    assert!(refresh_task_prompt_artifact_if_present("d", "child", Some("  "))
        .unwrap()
        .is_none());
    assert!(refresh_task_prompt_artifact_if_present("d", "child", None)
        .unwrap()
        .is_none());
    assert!(refresh_task_prompt_artifact_if_present("d", "..", None).is_err());
}

#[test]
fn refresh_publishes_final_messages_of_complete_subagents() {
    let members = vec![
        member("child-1", Some("review"), true, approved()),
        member("child-2", None, false, approved()),
    ];
    let refresh =
        refresh_delegation_handoff_artifacts(&delegation(DelegationStatus::Running), true, &members);
    assert_eq!(refresh.dir, ".pi-handoff/delegation-1");
    assert!(refresh.refused.is_none());
    let paths: Vec<&str> = refresh.writes.iter().map(|write| write.path.as_str()).collect();
    assert_eq!(
        paths,
        vec![
            ".pi-handoff/delegation-1/child-1/task_prompt.md",
            ".pi-handoff/delegation-1/child-1/final_message.md",
            ".pi-handoff/delegation-1/child-1/transcript.md",
            ".pi-handoff/delegation-1/child-2/transcript.md",
        ]
    );
    assert_eq!(refresh.writes[1].content, "Looks good.\n\noutcome: approved");
    assert_eq!(refresh.artifacts[0].outcome.as_deref(), Some("approved"));
    assert_eq!(refresh.artifacts[0].terminal_status, Some("done"));
    assert!(refresh.artifacts[0].has_final_message);
    assert_eq!(refresh.artifacts[1].outcome, None);
    assert!(!refresh.artifacts[1].has_final_message);
}

#[test]
fn refresh_stops_at_an_unsafe_session_id() {
    let members = vec![
        member("child-1", None, true, approved()),
        member("../escape", None, true, approved()),
        member("child-3", None, true, approved()),
    ];
    let refresh =
        refresh_delegation_handoff_artifacts(&delegation(DelegationStatus::Done), false, &members);
    assert_eq!(refresh.artifacts.len(), 1);
    assert_eq!(refresh.writes.len(), 1);
    assert_eq!(
        refresh.refused.unwrap().message,
        "subagent_id is not a valid path segment"
    );
}

#[test]
fn cancelled_and_failed_delegations_publish_nothing() {
    for status in [DelegationStatus::Cancelled, DelegationStatus::Failed] {
        let members = vec![member("child-1", Some("task"), true, approved())];
        let refresh = refresh_delegation_handoff_artifacts(&delegation(status), true, &members);
        assert!(refresh.writes.is_empty());
        assert!(refresh.artifacts.is_empty());
        assert!(refresh.refused.is_none());
    }
}
