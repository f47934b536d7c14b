//! The delegation snapshot, and the observations that wake the parent.
//!
//! The snapshot reports where every subagent of a delegation stands, with
//! references to its handoff files and without their contents. It is what
//! `inspect_delegation` returns and what a wakeup carries.
use vstd::prelude::*;

use crate::delegation_tools::SubagentWorkState;
use crate::handoff::{
    self, cancelled_transcript_rel, final_message_rel, publishes_files,
    refresh_task_prompt_artifact_if_present, safe_handoff_path_segment, task_prompt_rel,
    SubagentArtifact, WorkspaceWrite,
};
use crate::interop::{self, debug_quoted, quoted, sha256_digest};
use crate::json::{self, Json, JsonObject, JsonView};
use crate::records::{
    self, opt_str, type_json, Delegation, DelegationStatus, DelegationSubagent, SessionActivity,
};
use crate::text::{self, decimal_u64, same};
use crate::types::RpcError;

verus! {

/// A subagent with what a snapshot reads of it: its work state while the
/// delegation runs, and which of its files a cancelled delegation still has.
#[derive(Debug, PartialEq, Eq)]
pub struct SnapshotMember {
    pub subagent: DelegationSubagent,
    pub work: Option<SubagentWorkState>,
    pub final_message_exists: bool,
    pub cancelled_transcript_exists: bool,
}

/// A snapshot: the task prompts to write, and the view or the refusal that
/// ended it.
#[derive(Debug, PartialEq, Eq)]
pub struct DelegationSnapshot {
    pub writes: Vec<WorkspaceWrite>,
    pub outcome: Result<Json, RpcError>,
}

/// The first artifact of this session.
pub open spec fn artifact_for(artifacts: Seq<SubagentArtifact>, session_id: Seq<char>) -> Option<
    SubagentArtifact,
>
    decreases artifacts.len(),
{
    if artifacts.len() == 0 {
        None
    } else if artifacts[0].session_id@ == session_id {
        Some(artifacts[0])
    } else {
        artifact_for(artifacts.skip(1), session_id)
    }
}

fn find_artifact<'a>(artifacts: &'a Vec<SubagentArtifact>, session_id: &str) -> (r: Option<
    &'a SubagentArtifact,
>)
    ensures
        r is Some <==> artifact_for(artifacts@, session_id@) is Some,
        r matches Some(a) ==> artifact_for(artifacts@, session_id@) == Some(*a),
{
    let mut i: usize = 0;
    assert(artifacts@.skip(0) == artifacts@);
    while i < artifacts.len()
        invariant
            i <= artifacts.len(),
            artifact_for(artifacts@, session_id@) == artifact_for(
                artifacts@.skip(i as int),
                session_id@,
            ),
        decreases artifacts.len() - i,
    {
        let ghost rest = artifacts@.skip(i as int);
        assert(rest[0] == artifacts@[i as int]);
        assert(rest.skip(1) == artifacts@.skip(i + 1));
        if same(artifacts[i].session_id.as_str(), session_id) {
            return Some(&artifacts[i]);
        }
        i += 1;
    }
    None
}

/// The terminal status that counts: that of the branch, unless the delegation
/// runs and the subagent still has work.
pub open spec fn completion_status(
    status: DelegationStatus,
    work: Option<SubagentWorkState>,
    artifact: Option<SubagentArtifact>,
) -> Option<Seq<char>> {
    if status is Running && (work matches Some(w) && !w.terminal()) {
        None
    } else {
        match artifact {
            Some(a) => records::opt_str_view(a.terminal_status),
            None => None,
        }
    }
}

/// The status that a snapshot shows of a subagent.
pub open spec fn shown_status(
    status: DelegationStatus,
    activity: SessionActivity,
    completed: Option<Seq<char>>,
) -> Seq<char> {
    match status {
        DelegationStatus::Running => match completed {
            Some(s) => s,
            None => if activity is Idle {
                "running"@
            } else {
                activity.name()
            },
        },
        DelegationStatus::Done | DelegationStatus::DoneWithFailures => match completed {
            Some(s) => s,
            None => status.name(),
        },
        DelegationStatus::Cancelled | DelegationStatus::Failed => status.name(),
    }
}

/// A subagent can be steered: its delegation runs, it is a subagent, it is not
/// complete, and it has work.
pub open spec fn steerable(
    status: DelegationStatus,
    m: SnapshotMember,
    completed: Option<Seq<char>>,
) -> bool {
    &&& status is Running
    &&& m.subagent.subagent_type is Some
    &&& completed is None
    &&& (m.work matches Some(w) && w.active())
}

/// The outcome that the artifact records, once the subagent is complete.
pub open spec fn shown_outcome(
    completed: Option<Seq<char>>,
    artifact: Option<SubagentArtifact>,
) -> Option<Seq<char>> {
    match artifact {
        Some(a) => if completed is Some {
            records::opt_view(a.outcome)
        } else {
            None
        },
        None => None,
    }
}

/// Where the final message can be read: what a cancelled delegation still has,
/// else what was published of a complete subagent.
pub open spec fn shown_final_message(
    status: DelegationStatus,
    m: SnapshotMember,
    completed: Option<Seq<char>>,
    artifact: Option<SubagentArtifact>,
) -> Option<Seq<char>> {
    let id = m.subagent.session_id@;
    if status is Cancelled {
        if m.final_message_exists {
            Some(handoff::member_file(text::trimmed(id), "final_message.md"@))
        } else {
            None
        }
    } else {
        match artifact {
            Some(a) => if completed is Some && a.has_final_message {
                Some(handoff::member_file(a.session_id@, "final_message.md"@))
            } else {
                None
            },
            None => None,
        }
    }
}

/// Where the transcript can be read.
pub open spec fn shown_transcript(
    status: DelegationStatus,
    m: SnapshotMember,
    artifact: Option<SubagentArtifact>,
) -> Option<Seq<char>> {
    let id = m.subagent.session_id@;
    if status is Cancelled {
        if m.cancelled_transcript_exists {
            Some("cancelled/"@ + text::trimmed(id) + ".transcript.md"@)
        } else {
            None
        }
    } else {
        match artifact {
            Some(a) => Some(handoff::member_file(a.session_id@, "transcript.md"@)),
            None => None,
        }
    }
}

/// Where the task prompt can be read.
pub open spec fn shown_task_prompt(m: SnapshotMember, artifact: Option<SubagentArtifact>) -> Option<
    Seq<char>,
> {
    match artifact {
        Some(a) => if a.has_task_prompt {
            Some(handoff::member_file(a.session_id@, handoff::TASK_PROMPT_FILE@))
        } else {
            None
        },
        None => if handoff::written_task(records::opt_view(m.subagent.task)) is Some {
            Some(handoff::member_file(m.subagent.session_id@, handoff::TASK_PROMPT_FILE@))
        } else {
            None
        },
    }
}

/// One subagent of a snapshot.
pub open spec fn member_view(
    status: DelegationStatus,
    m: SnapshotMember,
    artifact: Option<SubagentArtifact>,
) -> JsonView {
    let completed = completion_status(status, m.work, artifact);
    JsonView::Object(
        json::no_entries().insert("id"@, JsonView::Text(m.subagent.session_id@)).insert(
            "role"@,
            json::opt_text_view(records::opt_view(m.subagent.role)),
        ).insert("type"@, records::type_view(m.subagent.subagent_type)).insert(
            "subagent_type"@,
            records::type_view(m.subagent.subagent_type),
        ).insert("activity"@, JsonView::Text(m.subagent.activity.name())).insert(
            "status"@,
            JsonView::Text(shown_status(status, m.subagent.activity, completed)),
        ).insert("steerable"@, JsonView::Bool(steerable(status, m, completed))).insert(
            "outcome"@,
            json::opt_text_view(shown_outcome(completed, artifact)),
        ).insert(
            "final_message_file"@,
            json::opt_text_view(shown_final_message(status, m, completed, artifact)),
        ).insert(
            "transcript_file"@,
            json::opt_text_view(shown_transcript(status, m, artifact)),
        ).insert("task_prompt_file"@, json::opt_text_view(shown_task_prompt(m, artifact))),
    )
}

/// The member's paths are built from its session id, which must be a plain
/// name then: under a cancelled delegation, and where no artifact vouches for
/// it.
pub open spec fn member_refused(
    status: DelegationStatus,
    m: SnapshotMember,
    artifact: Option<SubagentArtifact>,
) -> bool {
    (status is Cancelled || artifact is None) && !handoff::safe_segment(m.subagent.session_id@)
}

/// The write of a member's task prompt where no artifact vouches for it.
pub open spec fn member_prompt_write(
    dir: Seq<char>,
    m: SnapshotMember,
    artifact: Option<SubagentArtifact>,
) -> Seq<(Seq<char>, Seq<char>)> {
    match handoff::written_task(records::opt_view(m.subagent.task)) {
        Some(task) => if artifact is None {
            seq![handoff::task_prompt_write(dir, m.subagent.session_id@, task)]
        } else {
            Seq::empty()
        },
        None => Seq::empty(),
    }
}

fn member_row(
    status: DelegationStatus,
    dir: &str,
    m: &SnapshotMember,
    artifact: Option<&SubagentArtifact>,
    completed: Option<&str>,
    writes: &mut Vec<WorkspaceWrite>,
) -> (r: Result<Json, RpcError>)
    requires
        records::opt_str_view(completed) == completion_status(
            status,
            m.work,
            (match artifact {
                Some(a) => Some(*a),
                None => None,
            }),
        ),
    ensures
        ({
            let a = match artifact {
                Some(a) => Some(*a),
                None => None,
            };
            &&& r is Err <==> member_refused(status, *m, a)
            &&& r matches Err(e) ==> e@ == handoff::segment_error("subagent_id"@) && final(writes)@
                == old(writes)@
            &&& r matches Ok(row) ==> row@ == member_view(status, *m, a) && handoff::writes_view(
                final(writes)@,
            ) == handoff::writes_view(old(writes)@) + member_prompt_write(dir@, *m, a)
        }),
{
    let id = m.subagent.session_id.as_str();
    let running = match status {
        DelegationStatus::Running => true,
        _ => false,
    };
    let cancelled = match status {
        DelegationStatus::Cancelled => true,
        _ => false,
    };
    let segment = if cancelled {
        match safe_handoff_path_segment(id, "subagent_id") {
            Ok(segment) => segment,
            Err(e) => {
                return Err(e);
            },
        }
    } else {
        String::new()
    };
    let outcome = match artifact {
        Some(a) => if completed.is_some() {
            opt_str(&a.outcome)
        } else {
            None
        },
        None => None,
    };
    let final_message_file = if cancelled {
        if m.final_message_exists {
            Some(final_message_rel(segment.as_str()))
        } else {
            None
        }
    } else {
        match artifact {
            Some(a) => if completed.is_some() {
                a.final_message_rel()
            } else {
                None
            },
            None => None,
        }
    };
    let transcript_file = if cancelled {
        if m.cancelled_transcript_exists {
            Some(cancelled_transcript_rel(segment.as_str()))
        } else {
            None
        }
    } else {
        match artifact {
            Some(a) => Some(a.transcript_rel()),
            None => None,
        }
    };
    let ghost before = handoff::writes_view(writes@);
    let task_prompt_file = match artifact {
        Some(a) => {
            assert(before + Seq::<(Seq<char>, Seq<char>)>::empty() == before);
            a.task_prompt_rel()
        },
        None => match refresh_task_prompt_artifact_if_present(
            dir,
            id,
            opt_str(&m.subagent.task),
        ) {
            Ok(Some(write)) => {
                let ghost task = handoff::written_task(records::opt_view(m.subagent.task))->0;
                writes.push(write);
                assert(handoff::writes_view(writes@) == before.push(
                    handoff::task_prompt_write(dir@, id@, task),
                ));
                assert(before.push(handoff::task_prompt_write(dir@, id@, task)) == before + seq![
                    handoff::task_prompt_write(dir@, id@, task),
                ]);
                Some(task_prompt_rel(id))
            },
            Ok(None) => {
                assert(before + Seq::<(Seq<char>, Seq<char>)>::empty() == before);
                None
            },
            Err(e) => {
                return Err(e);
            },
        },
    };
    let shown = match status {
        DelegationStatus::Running => match completed {
            Some(s) => s,
            None => match m.subagent.activity {
                SessionActivity::Idle => "running",
                activity => activity.as_str(),
            },
        },
        DelegationStatus::Done | DelegationStatus::DoneWithFailures => match completed {
            Some(s) => s,
            None => status.as_str(),
        },
        DelegationStatus::Cancelled | DelegationStatus::Failed => status.as_str(),
    };
    let has_active_work = match &m.work {
        Some(work) => work.has_active_work(),
        None => false,
    };
    let can_steer = running && m.subagent.subagent_type.is_some() && completed.is_none()
        && has_active_work;
    Ok(
        Json::Object(
            JsonObject::new().with("id", Json::text(id)).with(
                "role",
                Json::opt_text(opt_str(&m.subagent.role)),
            ).with("type", type_json(m.subagent.subagent_type)).with(
                "subagent_type",
                type_json(m.subagent.subagent_type),
            ).with("activity", Json::text(m.subagent.activity.as_str())).with(
                "status",
                Json::text(shown),
            ).with("steerable", Json::Bool(can_steer)).with("outcome", Json::opt_text(outcome)).with(
                "final_message_file",
                Json::opt_text(opt_str(&final_message_file)),
            ).with("transcript_file", Json::opt_text(opt_str(&transcript_file))).with(
                "task_prompt_file",
                Json::opt_text(opt_str(&task_prompt_file)),
            ),
        ),
    )
}

// ---------------------------------------------------------------------------
// Counts

/// The member counts as terminal.
pub open spec fn counts_terminal(
    status: DelegationStatus,
    artifacts: Seq<SubagentArtifact>,
    m: SnapshotMember,
) -> bool {
    handoff::publishes(status) && completion_status(
        status,
        m.work,
        artifact_for(artifacts, m.subagent.session_id@),
    ) is Some
}

pub open spec fn counts_failed(
    status: DelegationStatus,
    artifacts: Seq<SubagentArtifact>,
    m: SnapshotMember,
) -> bool {
    handoff::publishes(status) && completion_status(
        status,
        m.work,
        artifact_for(artifacts, m.subagent.session_id@),
    ) == Some("failed"@)
}

/// How many members count as terminal.
pub open spec fn terminal_members(
    status: DelegationStatus,
    artifacts: Seq<SubagentArtifact>,
    members: Seq<SnapshotMember>,
) -> nat
    decreases members.len(),
{
    if members.len() == 0 {
        0
    } else {
        terminal_members(status, artifacts, members.drop_last()) + (if counts_terminal(
            status,
            artifacts,
            members.last(),
        ) {
            1nat
        } else {
            0
        })
    }
}

/// How many members count as failed.
pub open spec fn failed_members(
    status: DelegationStatus,
    artifacts: Seq<SubagentArtifact>,
    members: Seq<SnapshotMember>,
) -> nat
    decreases members.len(),
{
    if members.len() == 0 {
        0
    } else {
        failed_members(status, artifacts, members.drop_last()) + (if counts_failed(
            status,
            artifacts,
            members.last(),
        ) {
            1nat
        } else {
            0
        })
    }
}

/// How many count as running: while the delegation runs, the members that are
/// not terminal and those that are still to be spawned.
pub open spec fn running_members(delegation: Delegation, spawned: int, terminal: int) -> int {
    if delegation.status is Running {
        spawned - terminal + (if delegation.expected_subagents > spawned {
            delegation.expected_subagents - spawned
        } else {
            0
        })
    } else {
        0
    }
}

proof fn lemma_member_counts(
    status: DelegationStatus,
    artifacts: Seq<SubagentArtifact>,
    members: Seq<SnapshotMember>,
)
    ensures
        failed_members(status, artifacts, members) <= terminal_members(status, artifacts, members)
            <= members.len(),
    decreases members.len(),
{
    if members.len() > 0 {
        lemma_member_counts(status, artifacts, members.drop_last());
    }
}

/// While a delegation runs, every expected or spawned subagent counts as either
/// terminal or running, and failures count as terminal; afterwards none counts
/// as running.
pub proof fn law_snapshot_counts_add_up(
    delegation: Delegation,
    artifacts: Seq<SubagentArtifact>,
    members: Seq<SnapshotMember>,
)
    ensures
        ({
            let spawned = members.len() as int;
            let terminal = terminal_members(delegation.status, artifacts, members) as int;
            let failed = failed_members(delegation.status, artifacts, members) as int;
            let running = running_members(delegation, spawned, terminal);
            &&& 0 <= failed <= terminal <= spawned
            &&& running >= 0
            &&& delegation.status is Running ==> terminal + running == (if spawned
                >= delegation.expected_subagents {
                spawned
            } else {
                delegation.expected_subagents as int
            })
            &&& !(delegation.status is Running) ==> running == 0
        }),
{
    lemma_member_counts(delegation.status, artifacts, members);
}

/// A subagent that a snapshot offers for steering is not counted as terminal,
/// its delegation runs, and it has work.
pub proof fn law_steerable_members_are_live(
    status: DelegationStatus,
    artifacts: Seq<SubagentArtifact>,
    m: SnapshotMember,
)
    ensures
        ({
            let artifact = artifact_for(artifacts, m.subagent.session_id@);
            steerable(status, m, completion_status(status, m.work, artifact)) ==> {
                &&& status is Running
                &&& !counts_terminal(status, artifacts, m)
                &&& m.work matches Some(w) && w.active()
            }
        }),
{
}

/// A cancelled delegation's snapshot never points at a normal transcript, and
/// a failed one's at no transcript and no final message of its own.
pub proof fn law_terminal_snapshots_hide_transcripts(m: SnapshotMember)
    ensures
        shown_transcript(DelegationStatus::Failed, m, None) is None,
        shown_final_message(DelegationStatus::Failed, m, None, None) is None,
        shown_transcript(DelegationStatus::Cancelled, m, None) is Some ==> shown_transcript(
            DelegationStatus::Cancelled,
            m,
            None,
        )->0 == "cancelled/"@ + text::trimmed(m.subagent.session_id@) + ".transcript.md"@,
{
}

// ---------------------------------------------------------------------------
// The snapshot

pub open spec fn counts_view(
    expected: int,
    spawned: int,
    terminal: int,
    running: int,
    failed: int,
) -> JsonView {
    JsonView::Object(
        json::no_entries().insert("expected"@, json::int_view(expected)).insert(
            "spawned"@,
            json::int_view(spawned),
        ).insert("terminal"@, json::int_view(terminal)).insert(
            "running"@,
            json::int_view(running),
        ).insert("failed"@, json::int_view(failed)),
    )
}

pub open spec fn delegation_view_of(
    delegation: Delegation,
    subagents: Seq<JsonView>,
    handoff_dir: Seq<char>,
    terminal: int,
    running: int,
    failed: int,
) -> JsonView {
    let spawned = subagents.len() as int;
    JsonView::Object(
        json::no_entries().insert("delegation_id"@, JsonView::Text(delegation.id@)).insert(
            "kind"@,
            JsonView::Text(delegation.kind.name()),
        ).insert("status"@, JsonView::Text(delegation.status.name())).insert(
            "workflow"@,
            json::opt_text_view(records::opt_view(delegation.workflow)),
        ).insert("label"@, json::opt_text_view(records::opt_view(delegation.label))).insert(
            "expected_subagents"@,
            json::int_view(delegation.expected_subagents as int),
        ).insert("spawned_subagents"@, json::int_view(spawned)).insert(
            "terminal_subagents"@,
            json::int_view(terminal),
        ).insert("running_subagents"@, json::int_view(running)).insert(
            "failed_subagents"@,
            json::int_view(failed),
        ).insert(
            "progress"@,
            counts_view(
                delegation.expected_subagents as int,
                spawned,
                terminal,
                running,
                failed,
            ),
        ).insert("subagents"@, JsonView::List(subagents)).insert(
            "handoff_dir"@,
            JsonView::Text(handoff_dir),
        ),
    )
}

fn delegation_view(
    delegation: &Delegation,
    subagents: Vec<Json>,
    handoff_dir: &str,
    terminal: usize,
    running: usize,
    failed: usize,
) -> (r: Json)
    ensures
        r@ == delegation_view_of(
            *delegation,
            json::list_view(subagents@),
            handoff_dir@,
            terminal as int,
            running as int,
            failed as int,
        ),
{
    proof {
        json::lemma_list_view(subagents@);
    }
    let spawned: usize = subagents.len();
    let expected: i64 = delegation.expected_subagents as i64;
    let progress = Json::Object(
        JsonObject::new().with("expected", Json::number(expected)).with(
            "spawned",
            Json::count(spawned),
        ).with("terminal", Json::count(terminal)).with("running", Json::count(running)).with(
            "failed",
            Json::count(failed),
        ),
    );
    Json::Object(
        JsonObject::new().with("delegation_id", Json::text(delegation.id.as_str())).with(
            "kind",
            Json::text(delegation.kind.as_str()),
        ).with("status", Json::text(delegation.status.as_str())).with(
            "workflow",
            Json::opt_text(opt_str(&delegation.workflow)),
        ).with("label", Json::opt_text(opt_str(&delegation.label))).with(
            "expected_subagents",
            Json::number(expected),
        ).with("spawned_subagents", Json::count(spawned)).with(
            "terminal_subagents",
            Json::count(terminal),
        ).with("running_subagents", Json::count(running)).with(
            "failed_subagents",
            Json::count(failed),
        ).with("progress", progress).with("subagents", Json::List(subagents)).with(
            "handoff_dir",
            Json::text(handoff_dir),
        ),
    )
}

/// The rows of the members.
pub open spec fn member_views(
    status: DelegationStatus,
    artifacts: Seq<SubagentArtifact>,
    members: Seq<SnapshotMember>,
) -> Seq<JsonView> {
    members.map_values(
        |m: SnapshotMember|
            member_view(status, m, artifact_for(artifacts, m.subagent.session_id@)),
    )
}

/// The task prompts that the members' rows write, one after the other.
pub open spec fn prompt_writes(
    dir: Seq<char>,
    artifacts: Seq<SubagentArtifact>,
    members: Seq<SnapshotMember>,
) -> Seq<(Seq<char>, Seq<char>)>
    decreases members.len(),
{
    if members.len() == 0 {
        Seq::empty()
    } else {
        prompt_writes(dir, artifacts, members.drop_last()) + member_prompt_write(
            dir,
            members.last(),
            artifact_for(artifacts, members.last().subagent.session_id@),
        )
    }
}

/// The first `n` members are shown, and the next one is refused.
pub open spec fn shown_prefix(
    status: DelegationStatus,
    artifacts: Seq<SubagentArtifact>,
    members: Seq<SnapshotMember>,
    n: int,
) -> bool {
    &&& 0 <= n <= members.len()
    &&& forall|i: int|
        0 <= i < n ==> !member_refused(
            status,
            #[trigger] members[i],
            artifact_for(artifacts, members[i].subagent.session_id@),
        )
    &&& n < members.len() ==> member_refused(
        status,
        members[n],
        artifact_for(artifacts, members[n].subagent.session_id@),
    )
}

/// The whole snapshot of a delegation.
pub open spec fn snapshot_view(
    delegation: Delegation,
    handoff_dir: Seq<char>,
    artifacts: Seq<SubagentArtifact>,
    members: Seq<SnapshotMember>,
) -> JsonView {
    let terminal = terminal_members(delegation.status, artifacts, members) as int;
    delegation_view_of(
        delegation,
        member_views(delegation.status, artifacts, members),
        handoff_dir,
        terminal,
        running_members(delegation, members.len() as int, terminal),
        failed_members(delegation.status, artifacts, members) as int,
    )
}

/// Builds the snapshot of a delegation from its members and from what is
/// published of them.
pub fn build_delegation_snapshot(
    delegation: &Delegation,
    handoff_dir: &str,
    artifacts: &Vec<SubagentArtifact>,
    members: &Vec<SnapshotMember>,
) -> (r: DelegationSnapshot)
    ensures
        exists|n: int|
            {
                &&& #[trigger] shown_prefix(delegation.status, artifacts@, members@, n)
                &&& handoff::writes_view(r.writes@) == prompt_writes(
                    handoff_dir@,
                    artifacts@,
                    members@.take(n),
                )
                &&& r.outcome is Ok <==> n == members@.len()
            },
        r.outcome matches Ok(view) ==> view@ == snapshot_view(
            *delegation,
            handoff_dir@,
            artifacts@,
            members@,
        ),
        r.outcome matches Err(e) ==> e@ == handoff::segment_error("subagent_id"@),
{
    let status = delegation.status;
    let counted = publishes_files(status);
    let is_running = match status {
        DelegationStatus::Running => true,
        _ => false,
    };
    let mut terminal: usize = 0;
    let mut failed: usize = 0;
    let mut rows: Vec<Json> = Vec::new();
    let mut writes: Vec<WorkspaceWrite> = Vec::new();
    assert(handoff::writes_view(writes@) == Seq::<(Seq<char>, Seq<char>)>::empty());
    let mut i: usize = 0;
    while i < members.len()
        invariant
            i <= members.len(),
            status == delegation.status,
            counted == handoff::publishes(status),
            terminal == terminal_members(status, artifacts@, members@.take(i as int)),
            failed == failed_members(status, artifacts@, members@.take(i as int)),
            rows@.len() == i,
            forall|j: int|
                0 <= j < i ==> (#[trigger] rows@[j])@ == member_view(
                    status,
                    members@[j],
                    artifact_for(artifacts@, members@[j].subagent.session_id@),
                ),
            forall|j: int|
                0 <= j < i ==> !member_refused(
                    status,
                    #[trigger] members@[j],
                    artifact_for(artifacts@, members@[j].subagent.session_id@),
                ),
            handoff::writes_view(writes@) == prompt_writes(
                handoff_dir@,
                artifacts@,
                members@.take(i as int),
            ),
        decreases members.len() - i,
    {
        let m = &members[i];
        let artifact = find_artifact(artifacts, m.subagent.session_id.as_str());
        let busy = match status {
            DelegationStatus::Running => match &m.work {
                Some(work) => !work.is_completion_terminal(),
                None => false,
            },
            _ => false,
        };
        let completed = if busy {
            None
        } else {
            match artifact {
                Some(a) => a.terminal_status,
                None => None,
            }
        };
        proof {
            assert(members@.take(i + 1).drop_last() == members@.take(i as int));
            lemma_member_counts(status, artifacts@, members@.take(i as int));
            lemma_member_counts(status, artifacts@, members@.take(i + 1));
        }
        match member_row(status, handoff_dir, m, artifact, completed, &mut writes) {
            Ok(row) => rows.push(row),
            Err(e) => {
                assert(shown_prefix(status, artifacts@, members@, i as int));
                return DelegationSnapshot { writes, outcome: Err(e) };
            },
        }
        if counted {
            match completed {
                Some(s) => {
                    terminal += 1;
                    if same(s, "failed") {
                        failed += 1;
                    }
                },
                None => {},
            }
        }
        i += 1;
    }
    assert(members@.take(i as int) == members@);
    proof {
        json::lemma_list_view(rows@);
        assert(json::list_view(rows@) == member_views(status, artifacts@, members@));
        lemma_member_counts(status, artifacts@, members@);
        assert(shown_prefix(status, artifacts@, members@, members@.len() as int));
    }
    let spawned: usize = members.len();
    let running: usize = if is_running {
        let live: usize = spawned - terminal;
        if delegation.expected_subagents > 0 && (delegation.expected_subagents as usize) > spawned {
            live + (delegation.expected_subagents as usize - spawned)
        } else {
            live
        }
    } else {
        0
    };
    let view = delegation_view(delegation, rows, handoff_dir, terminal, running, failed);
    DelegationSnapshot { writes, outcome: Ok(view) }
}

// ---------------------------------------------------------------------------
// Wakeups

/// What the daemon observed, in the shape of a tool call and its result.
#[derive(Debug, PartialEq, Eq)]
pub struct DaemonToolObservation {
    pub tool_call_id: String,
    pub tool_name: String,
    pub args_json: String,
    pub summary: Option<String>,
    pub result_json: Json,
}

/// An observation of `inspect_delegation` on this delegation.
pub open spec fn inspects(
    o: DaemonToolObservation,
    tool_call_id: Seq<char>,
    delegation_id: Seq<char>,
    summary: Seq<char>,
    snapshot: JsonView,
) -> bool {
    &&& o.tool_call_id@ == tool_call_id
    &&& o.tool_name@ == "inspect_delegation"@
    &&& o.args_json@ == "{\"delegation_id\":"@ + interop::quoted_text(delegation_id) + "}"@
    &&& records::opt_view(o.summary) == Some(summary)
    &&& o.result_json@ == snapshot
}

impl DaemonToolObservation {
    pub fn inspect_delegation(
        tool_call_id: String,
        delegation_id: &str,
        summary: String,
        snapshot: Json,
    ) -> (r: DaemonToolObservation)
        ensures
            inspects(r, tool_call_id@, delegation_id@, summary@, snapshot@),
    {
        let id = match quoted(delegation_id) {
            Ok(id) => id,
            Err(_) => String::new(),
        };
        let args_json = "{\"delegation_id\":".to_owned().concat(id.as_str()).concat("}");
        DaemonToolObservation {
            tool_call_id,
            tool_name: "inspect_delegation".to_owned(),
            args_json,
            summary: Some(summary),
            result_json: snapshot,
        }
    }
}

/// The text under a key of the snapshot.
pub open spec fn snapshot_text(snapshot: JsonView, key: Seq<char>) -> Option<Seq<char>> {
    json::text_view(json::get_view(snapshot, key))
}

fn snapshot_string(snapshot: &Json, key: &str) -> (r: Option<String>)
    ensures
        records::opt_view(r) == snapshot_text(snapshot@, key@),
{
    match snapshot.get(key) {
        Some(Json::Text(s)) => Some(s),
        _ => None,
    }
}

/// A count of the snapshot's progress; none counts as zero.
pub open spec fn progress_count(snapshot: JsonView, key: Seq<char>) -> u64 {
    match json::get_view(snapshot, "progress"@) {
        Some(progress) => match json::get_view(progress, key) {
            Some(value) => match json::as_u64_view(value) {
                Some(n) => n,
                None => 0,
            },
            None => 0,
        },
        None => 0,
    }
}

fn snapshot_progress_count(snapshot: &Json, key: &str) -> (r: u64)
    ensures
        r == progress_count(snapshot@, key@),
{
    match snapshot.get("progress") {
        Some(progress) => match progress.get(key) {
            Some(value) => match value.as_u64() {
                Some(n) => n,
                None => 0,
            },
            None => 0,
        },
        None => 0,
    }
}

pub open spec fn or_else(value: Option<Seq<char>>, other: Seq<char>) -> Seq<char> {
    match value {
        Some(s) => s,
        None => other,
    }
}

/// How a summary calls the kind of a delegation.
pub open spec fn kind_label(kind: Option<Seq<char>>) -> Seq<char> {
    match kind {
        Some(k) => if k == "full"@ {
            "full subagent"@
        } else if k == "readonly_fanout"@ {
            "read-only fan-out"@
        } else {
            k
        },
        None => "delegation"@,
    }
}

fn kind_text(kind: Option<String>) -> (r: String)
    ensures
        r@ == kind_label(records::opt_view(kind)),
{
    match kind {
        Some(k) => if same(k.as_str(), "full") {
            "full subagent".to_owned()
        } else if same(k.as_str(), "readonly_fanout") {
            "read-only fan-out".to_owned()
        } else {
            k
        },
        None => "delegation".to_owned(),
    }
}

/// The label in brackets, where there is one.
pub open spec fn label_suffix(label: Option<Seq<char>>) -> Seq<char> {
    match label {
        Some(l) => " ("@ + l + ")"@,
        None => Seq::empty(),
    }
}

fn label_text(label: Option<String>) -> (r: String)
    ensures
        r@ == label_suffix(records::opt_view(label)),
{
    match label {
        Some(l) => " (".to_owned().concat(l.as_str()).concat(")"),
        None => {
            let empty = String::new();
            assert(empty@ == Seq::<char>::empty());
            empty
        },
    }
}

/// The bytes of a text.
pub open spec fn bytes_of(s: Seq<char>) -> Seq<u8> {
    vstd::utf8::encode_utf8(s)
}

fn append_bytes(out: &mut Vec<u8>, s: &str)
    ensures
        final(out)@ == old(out)@ + bytes_of(s@),
{
    let bytes = s.as_bytes();
    let ghost before = out@;
    let mut i: usize = 0;
    assert(before + bytes@.take(0) == before);
    while i < bytes.len()
        invariant
            i <= bytes.len(),
            out@ == before + bytes@.take(i as int),
        decreases bytes.len() - i,
    {
        assert((before + bytes@.take(i as int)).push(bytes@[i as int]) == before + bytes@.take(
            i + 1,
        ));
        out.push(bytes[i]);
        i += 1;
    }
    assert(bytes@.take(i as int) == bytes@);
}

/// Each byte as two hexadecimal digits.
pub open spec fn hex_text(bytes: Seq<u8>) -> Seq<char>
    decreases bytes.len(),
{
    if bytes.len() == 0 {
        Seq::empty()
    } else {
        hex_text(bytes.drop_last()).push(text::hex_digit(bytes.last() as int / 16)).push(
            text::hex_digit(bytes.last() as int % 16),
        )
    }
}

fn hex_char(d: u8) -> (r: char)
    requires
        d < 16,
    ensures
        r == text::hex_digit(d as int),
{
    if d < 10 {
        (48 + d) as char
    } else {
        (87 + d) as char
    }
}

fn hex_of(bytes: &Vec<u8>, n: usize) -> (r: String)
    requires
        n <= bytes.len(),
    ensures
        r@ == hex_text(bytes@.take(n as int)),
{
    let mut out = String::new();
    let mut i: usize = 0;
    assert(bytes@.take(0) == Seq::<u8>::empty());
    assert(out@ == Seq::<char>::empty());
    while i < n
        invariant
            i <= n <= bytes.len(),
            out@ == hex_text(bytes@.take(i as int)),
        decreases n - i,
    {
        assert(bytes@.take(i + 1).drop_last() == bytes@.take(i as int));
        out.push(hex_char(bytes[i] / 16));
        out.push(hex_char(bytes[i] % 16));
        i += 1;
    }
    out
}

/// The call id of a completion: a recognisable prefix and a digest of the
/// delegation and its attempt.
pub open spec fn completion_call_id(delegation: Delegation) -> Seq<char> {
    "call_inspect_delegation_"@ + hex_text(
        interop::sha256(
            bytes_of(delegation.id@) + seq![0u8] + bytes_of(delegation.attempt_id@),
        ).take(16),
    )
}

fn short_delegation_observation_call_id(delegation: &Delegation) -> (r: String)
    ensures
        r@ == completion_call_id(*delegation),
        r@.len() == 56,
{
    let mut bytes: Vec<u8> = Vec::new();
    append_bytes(&mut bytes, delegation.id.as_str());
    assert(bytes@ == bytes_of(delegation.id@));
    bytes.push(0);
    assert(bytes@ == bytes_of(delegation.id@) + seq![0u8]);
    append_bytes(&mut bytes, delegation.attempt_id.as_str());
    let digest = sha256_digest(bytes.as_slice());
    proof {
        reveal_strlit("call_inspect_delegation_");
        lemma_hex_length(digest@.take(16));
    }
    "call_inspect_delegation_".to_owned().concat(hex_of(&digest, 16).as_str())
}

/// The call id of one subagent's completion within a running delegation.
pub open spec fn subagent_call_id(delegation: Delegation, subagent_id: Seq<char>) -> Seq<char> {
    "call_inspect_delegation_child_"@ + hex_text(
        interop::sha256(
            bytes_of(delegation.id@) + seq![0u8] + bytes_of(delegation.attempt_id@) + seq![0u8]
                + bytes_of(subagent_id),
        ).take(16),
    )
}

fn short_delegation_subagent_observation_call_id(delegation: &Delegation, subagent_id: &str) -> (r:
    String)
    ensures
        r@ == subagent_call_id(*delegation, subagent_id@),
        r@.len() == 62,
{
    let mut bytes: Vec<u8> = Vec::new();
    append_bytes(&mut bytes, delegation.id.as_str());
    assert(bytes@ == bytes_of(delegation.id@));
    bytes.push(0);
    assert(bytes@ == bytes_of(delegation.id@) + seq![0u8]);
    append_bytes(&mut bytes, delegation.attempt_id.as_str());
    let ghost head = bytes@;
    bytes.push(0);
    assert(bytes@ == head + seq![0u8]);
    append_bytes(&mut bytes, subagent_id);
    let digest = sha256_digest(bytes.as_slice());
    proof {
        reveal_strlit("call_inspect_delegation_child_");
        lemma_hex_length(digest@.take(16));
    }
    "call_inspect_delegation_child_".to_owned().concat(hex_of(&digest, 16).as_str())
}

proof fn lemma_hex_length(bytes: Seq<u8>)
    ensures
        hex_text(bytes).len() == 2 * bytes.len(),
    decreases bytes.len(),
{
    if bytes.len() > 0 {
        lemma_hex_length(bytes.drop_last());
    }
}

/// What a completion's summary says.
pub open spec fn completion_summary(snapshot: JsonView) -> Seq<char> {
    let terminal = progress_count(snapshot, "terminal"@);
    let failed = progress_count(snapshot, "failed"@);
    let ok = if terminal >= failed {
        terminal - failed
    } else {
        0
    };
    "Delegation "@ + or_else(snapshot_text(snapshot, "delegation_id"@), "<unknown>"@) + " ("@
        + kind_label(snapshot_text(snapshot, "kind"@)) + ")"@ + label_suffix(
        snapshot_text(snapshot, "label"@),
    ) + " completed with status "@ + or_else(snapshot_text(snapshot, "status"@), "terminal"@)
        + ": "@ + text::decimal(ok) + " ok, "@ + text::decimal(failed as int) + " failed."@
}

/// Builds the observation that is delivered to the parent when a delegation
/// completes. It carries the same snapshot as `inspect_delegation`.
pub fn completion_wakeup_observation(snapshot: &Json, delegation: &Delegation) -> (r: Result<
    DaemonToolObservation,
    RpcError,
>)
    ensures
        r is Ok && inspects(
            r->Ok_0,
            completion_call_id(*delegation),
            or_else(snapshot_text(snapshot@, "delegation_id"@), "<unknown>"@),
            completion_summary(snapshot@),
            snapshot@,
        ),
        r->Ok_0.tool_call_id@.len() == 56,
{
    let delegation_id = match snapshot_string(snapshot, "delegation_id") {
        Some(id) => id,
        None => "<unknown>".to_owned(),
    };
    let kind = kind_text(snapshot_string(snapshot, "kind"));
    let label = label_text(snapshot_string(snapshot, "label"));
    let status = match snapshot_string(snapshot, "status") {
        Some(status) => status,
        None => "terminal".to_owned(),
    };
    let terminal: u64 = snapshot_progress_count(snapshot, "terminal");
    let failed: u64 = snapshot_progress_count(snapshot, "failed");
    let ok: u64 = terminal.saturating_sub(failed);
    let summary = "Delegation ".to_owned().concat(delegation_id.as_str()).concat(" (").concat(
        kind.as_str(),
    ).concat(
        ")",
    ).concat(label.as_str()).concat(" completed with status ").concat(status.as_str()).concat(": ").concat(
        decimal_u64(ok).as_str(),
    ).concat(" ok, ").concat(decimal_u64(failed).as_str()).concat(" failed.");
    let tool_call_id = short_delegation_observation_call_id(delegation);
    Ok(
        DaemonToolObservation::inspect_delegation(
            tool_call_id,
            delegation_id.as_str(),
            summary,
            snapshot.clone(),
        ),
    )
}

/// The first subagent of the list with this id.
pub open spec fn row_with_id(rows: Seq<JsonView>, subagent_id: Seq<char>) -> Option<JsonView>
    decreases rows.len(),
{
    if rows.len() == 0 {
        None
    } else if json::get_view(rows[0], "id"@) == Some(JsonView::Text(subagent_id)) {
        Some(rows[0])
    } else {
        row_with_id(rows.skip(1), subagent_id)
    }
}

/// The snapshot's row of this subagent.
pub open spec fn snapshot_row(snapshot: JsonView, subagent_id: Seq<char>) -> Option<JsonView> {
    match json::get_view(snapshot, "subagents"@) {
        Some(JsonView::List(rows)) => row_with_id(rows, subagent_id),
        _ => None,
    }
}

fn find_row<'a>(rows: &'a Vec<Json>, subagent_id: &str) -> (r: Option<&'a Json>)
    ensures
        r is Some <==> row_with_id(json::list_view(rows@), subagent_id@) is Some,
        r matches Some(row) ==> row_with_id(json::list_view(rows@), subagent_id@) == Some(row@),
{
    let ghost views = json::list_view(rows@);
    proof {
        json::lemma_list_view(rows@);
    }
    let mut i: usize = 0;
    assert(views.skip(0) == views);
    while i < rows.len()
        invariant
            i <= rows.len(),
            views == json::list_view(rows@),
            views.len() == rows@.len(),
            forall|j: int| 0 <= j < rows@.len() ==> #[trigger] views[j] == json::json_view(rows@[j]),
            row_with_id(views, subagent_id@) == row_with_id(views.skip(i as int), subagent_id@),
        decreases rows.len() - i,
    {
        let ghost rest = views.skip(i as int);
        assert(rest[0] == views[i as int]);
        assert(rest.skip(1) == views.skip(i + 1));
        if let Some(id) = rows[i].get("id") {
            if let Some(id) = id.as_str() {
                if same(id, subagent_id) {
                    return Some(&rows[i]);
                }
            }
        }
        i += 1;
    }
    None
}

/// What a partial wakeup says of the subagent that finished.
pub open spec fn finished_text(snapshot: JsonView, subagent_id: Seq<char>) -> Seq<char> {
    match snapshot_row(snapshot, subagent_id) {
        None => "Subagent "@ + subagent_id + " finished."@,
        Some(row) => "Subagent "@ + subagent_id + " finished with status "@ + or_else(
            snapshot_text(row, "status"@),
            "terminal"@,
        ) + (match snapshot_text(row, "outcome"@) {
            Some(outcome) => " outcome "@ + interop::debug_text(outcome),
            None => Seq::empty(),
        }) + "."@,
    }
}

fn finished_summary(snapshot: &Json, subagent_id: &str) -> (r: String)
    ensures
        r@ == finished_text(snapshot@, subagent_id@),
{
    let rows = match snapshot.get("subagents") {
        Some(Json::List(rows)) => rows,
        _ => Vec::new(),
    };
    let row = find_row(&rows, subagent_id);
    match row {
        None => "Subagent ".to_owned().concat(subagent_id).concat(" finished."),
        Some(row) => {
            let status = match snapshot_string(row, "status") {
                Some(status) => status,
                None => "terminal".to_owned(),
            };
            let outcome = match snapshot_string(row, "outcome") {
                Some(outcome) => " outcome ".to_owned().concat(debug_quoted(outcome.as_str()).as_str()),
                None => {
                    let empty = String::new();
                    assert(empty@ == Seq::<char>::empty());
                    empty
                },
            };
            "Subagent ".to_owned().concat(subagent_id).concat(" finished with status ").concat(
                status.as_str(),
            ).concat(outcome.as_str()).concat(".")
        },
    }
}

/// What a partial wakeup's summary says.
pub open spec fn partial_summary(snapshot: JsonView, subagent_id: Seq<char>) -> Seq<char> {
    finished_text(snapshot, subagent_id) + " Delegation "@ + or_else(
        snapshot_text(snapshot, "delegation_id"@),
        "<unknown>"@,
    ) + " ("@ + kind_label(snapshot_text(snapshot, "kind"@)) + ")"@ + label_suffix(
        snapshot_text(snapshot, "label"@),
    ) + " is still "@ + or_else(snapshot_text(snapshot, "status"@), "running"@) + ": "@
        + text::decimal(progress_count(snapshot, "terminal"@) as int) + " terminal, "@
        + text::decimal(progress_count(snapshot, "running"@) as int) + " running, "@
        + text::decimal(progress_count(snapshot, "failed"@) as int) + " failed."@
}

/// Builds the observation that is delivered when one subagent of a delegation
/// that still runs has finished. It carries the snapshot of the whole
/// delegation.
pub fn subagent_wakeup_observation(
    snapshot: &Json,
    delegation: &Delegation,
    subagent_id: &str,
) -> (r: Result<DaemonToolObservation, RpcError>)
    ensures
        r is Ok && inspects(
            r->Ok_0,
            subagent_call_id(*delegation, subagent_id@),
            or_else(snapshot_text(snapshot@, "delegation_id"@), "<unknown>"@),
            partial_summary(snapshot@, subagent_id@),
            snapshot@,
        ),
        r->Ok_0.tool_call_id@.len() == 62,
{
    let delegation_id = match snapshot_string(snapshot, "delegation_id") {
        Some(id) => id,
        None => "<unknown>".to_owned(),
    };
    let kind = kind_text(snapshot_string(snapshot, "kind"));
    let label = label_text(snapshot_string(snapshot, "label"));
    let status = match snapshot_string(snapshot, "status") {
        Some(status) => status,
        None => "running".to_owned(),
    };
    let terminal: u64 = snapshot_progress_count(snapshot, "terminal");
    let running: u64 = snapshot_progress_count(snapshot, "running");
    let failed: u64 = snapshot_progress_count(snapshot, "failed");
    let summary = finished_summary(snapshot, subagent_id).concat(" Delegation ").concat(
        delegation_id.as_str(),
    ).concat(" (").concat(kind.as_str()).concat(")").concat(label.as_str()).concat(" is still ").concat(
        status.as_str(),
    ).concat(": ").concat(decimal_u64(terminal).as_str()).concat(" terminal, ").concat(
        decimal_u64(running).as_str(),
    ).concat(" running, ").concat(decimal_u64(failed).as_str()).concat(" failed.");
    let tool_call_id = short_delegation_subagent_observation_call_id(delegation, subagent_id);
    Ok(
        DaemonToolObservation::inspect_delegation(
            tool_call_id,
            delegation_id.as_str(),
            summary,
            snapshot.clone(),
        ),
    )
}

/// The same delegation and attempt always get the same call id, whatever else
/// the row says: a replayed wakeup carries the id of the first.
pub proof fn law_call_ids_are_stable(a: Delegation, b: Delegation, subagent_id: Seq<char>)
    requires
        a.id@ == b.id@,
        a.attempt_id@ == b.attempt_id@,
    ensures
        completion_call_id(a) == completion_call_id(b),
        subagent_call_id(a, subagent_id) == subagent_call_id(b, subagent_id),
        "call_inspect_delegation_"@.is_prefix_of(completion_call_id(a)),
        "call_inspect_delegation_child_"@.is_prefix_of(subagent_call_id(a, subagent_id)),
{
}

/// A completion's summary tells what the snapshot holds: the delegation, its
/// kind, label and status, the failed ones and the rest of the terminal ones.
pub proof fn law_summary_counts_the_snapshot(
    delegation: Delegation,
    subagents: Seq<JsonView>,
    handoff_dir: Seq<char>,
    terminal: int,
    running: int,
    failed: int,
)
    requires
        0 <= failed <= terminal <= u64::MAX,
        0 <= running <= u64::MAX,
    ensures
        ({
            let snapshot = delegation_view_of(
                delegation,
                subagents,
                handoff_dir,
                terminal,
                running,
                failed,
            );
            &&& progress_count(snapshot, "terminal"@) == terminal
            &&& progress_count(snapshot, "running"@) == running
            &&& progress_count(snapshot, "failed"@) == failed
            &&& completion_summary(snapshot) == "Delegation "@ + delegation.id@ + " ("@ + kind_label(
                Some(delegation.kind.name()),
            ) + ")"@ + label_suffix(records::opt_view(delegation.label))
                + " completed with status "@ + delegation.status.name() + ": "@ + text::decimal(
                terminal - failed,
            ) + " ok, "@ + text::decimal(failed) + " failed."@
        }),
{
    reveal_snapshot_keys();
    let snapshot = delegation_view_of(
        delegation,
        subagents,
        handoff_dir,
        terminal,
        running,
        failed,
    );
    assert(snapshot_text(snapshot, "delegation_id"@) == Some(delegation.id@));
    assert(snapshot_text(snapshot, "kind"@) == Some(delegation.kind.name()));
    assert(snapshot_text(snapshot, "label"@) == records::opt_view(delegation.label));
    assert(snapshot_text(snapshot, "status"@) == Some(delegation.status.name()));
}

/// What is published of a subagent is the first artifact that carries its
/// session id; a subagent whose id none carries has none.
pub proof fn law_artifacts_are_found_by_id(
    artifacts: Seq<SubagentArtifact>,
    session_id: Seq<char>,
    i: int,
)
    ensures
        0 <= i < artifacts.len() && artifacts[i].session_id@ == session_id && (forall|j: int|
            0 <= j < i ==> (#[trigger] artifacts[j]).session_id@ != session_id) ==> artifact_for(
            artifacts,
            session_id,
        ) == Some(artifacts[i]),
        (forall|j: int|
            0 <= j < artifacts.len() ==> (#[trigger] artifacts[j]).session_id@ != session_id)
            ==> artifact_for(artifacts, session_id) is None,
    decreases artifacts.len(),
{
    if artifacts.len() > 0 {
        let rest = artifacts.skip(1);
        assert forall|j: int| 0 <= j < rest.len() implies #[trigger] rest[j] == artifacts[j + 1] by {
        }
        law_artifacts_are_found_by_id(rest, session_id, i - 1);
    }
}

/// The terminal status that counts is the published one, and it counts in every
/// case but one: while the delegation runs, a subagent that has an unfinished
/// action, a queued input or a live runtime, or that is not at a turn boundary,
/// is not complete.
pub proof fn law_work_in_progress_is_not_complete(
    status: DelegationStatus,
    work: Option<SubagentWorkState>,
    artifact: Option<SubagentArtifact>,
    s: Seq<char>,
)
    ensures
        completion_status(status, work, artifact) == Some(s) <==> {
            &&& artifact matches Some(a) && (a.terminal_status matches Some(t) && t@ == s)
            &&& !(status is Running && (work matches Some(w) && (w.has_unfinished_actions
                || w.has_queued_inputs || w.has_active_runtime || !w.active_leaf_is_turn_boundary)))
        },
{
}

proof fn lemma_count_is_filter(
    members: Seq<SnapshotMember>,
    status: DelegationStatus,
    artifacts: Seq<SubagentArtifact>,
    failed: spec_fn(SnapshotMember) -> bool,
    terminal: spec_fn(SnapshotMember) -> bool,
)
    requires
        forall|m: SnapshotMember| #[trigger] failed(m) == counts_failed(status, artifacts, m),
        forall|m: SnapshotMember| #[trigger] terminal(m) == counts_terminal(status, artifacts, m),
    ensures
        failed_members(status, artifacts, members) == members.filter(failed).len(),
        terminal_members(status, artifacts, members) == members.filter(terminal).len(),
    decreases members.len(),
{
    reveal(Seq::filter);
    if members.len() > 0 {
        lemma_count_is_filter(members.drop_last(), status, artifacts, failed, terminal);
    }
}

/// A snapshot of a running or completed delegation counts as failed every
/// member whose published status is `failed`, and as terminal every member that
/// has a published status, leaving out, while it runs, the members that still
/// have work. The snapshot of a cancelled or failed delegation counts none.
pub proof fn law_every_failed_member_counts(
    delegation: Delegation,
    handoff_dir: Seq<char>,
    artifacts: Seq<SubagentArtifact>,
    members: Seq<SnapshotMember>,
)
    ensures
        ({
            let snapshot = snapshot_view(delegation, handoff_dir, artifacts, members);
            let status = delegation.status;
            let busy = |m: SnapshotMember|
                status is Running && (m.work matches Some(w) && (w.has_unfinished_actions
                    || w.has_queued_inputs || w.has_active_runtime
                    || !w.active_leaf_is_turn_boundary));
            let failed = members.filter(
                |m: SnapshotMember|
                    !busy(m) && (artifact_for(artifacts, m.subagent.session_id@) matches Some(a) && (
                    a.terminal_status matches Some(t) && t@ == "failed"@)),
            ).len() as int;
            let terminal = members.filter(
                |m: SnapshotMember|
                    !busy(m) && (artifact_for(artifacts, m.subagent.session_id@) matches Some(a)
                        && a.terminal_status is Some),
            ).len() as int;
            let published = status is Running || status is Done || status is DoneWithFailures;
            let running = if status is Running {
                (if members.len() >= delegation.expected_subagents {
                    members.len() as int
                } else {
                    delegation.expected_subagents as int
                }) - terminal
            } else {
                0
            };
            let progress = json::get_view(snapshot, "progress"@)->0;
            &&& json::get_view(snapshot, "failed_subagents"@) == Some(
                json::int_view(if published { failed } else { 0 }),
            )
            &&& json::get_view(progress, "failed"@) == Some(
                json::int_view(if published { failed } else { 0 }),
            )
            &&& json::get_view(snapshot, "terminal_subagents"@) == Some(
                json::int_view(if published { terminal } else { 0 }),
            )
            &&& json::get_view(progress, "terminal"@) == Some(
                json::int_view(if published { terminal } else { 0 }),
            )
            &&& json::get_view(snapshot, "running_subagents"@) == Some(json::int_view(running))
            &&& json::get_view(progress, "running"@) == Some(json::int_view(running))
        }),
{
    let status = delegation.status;
    let busy = |m: SnapshotMember|
        status is Running && (m.work matches Some(w) && (w.has_unfinished_actions
            || w.has_queued_inputs || w.has_active_runtime || !w.active_leaf_is_turn_boundary));
    let failed = |m: SnapshotMember|
        !busy(m) && (artifact_for(artifacts, m.subagent.session_id@) matches Some(a) && (
        a.terminal_status matches Some(t) && t@ == "failed"@));
    let terminal = |m: SnapshotMember|
        !busy(m) && (artifact_for(artifacts, m.subagent.session_id@) matches Some(a)
            && a.terminal_status is Some);
    reveal_snapshot_keys();
    if handoff::publishes(status) {
        lemma_count_is_filter(members, status, artifacts, failed, terminal);
    } else {
        lemma_nothing_counts(status, artifacts, members);
    }
}

proof fn lemma_nothing_counts(
    status: DelegationStatus,
    artifacts: Seq<SubagentArtifact>,
    members: Seq<SnapshotMember>,
)
    requires
        !handoff::publishes(status),
    ensures
        failed_members(status, artifacts, members) == 0,
        terminal_members(status, artifacts, members) == 0,
    decreases members.len(),
{
    if members.len() > 0 {
        lemma_nothing_counts(status, artifacts, members.drop_last());
    }
}

/// The failed count of a running or completed delegation is the number of rows
/// of the same snapshot that show the status `failed`.
pub proof fn law_failed_count_matches_the_rows(
    delegation: Delegation,
    handoff_dir: Seq<char>,
    artifacts: Seq<SubagentArtifact>,
    members: Seq<SnapshotMember>,
)
    requires
        delegation.status is Running || delegation.status is Done
            || delegation.status is DoneWithFailures,
    ensures
        ({
            let snapshot = snapshot_view(delegation, handoff_dir, artifacts, members);
            let rows = json::get_view(snapshot, "subagents"@)->0->List_0;
            let shown = rows.filter(
                |row: JsonView|
                    json::get_view(row, "status"@) == Some(JsonView::Text("failed"@)),
            ).len() as int;
            &&& rows.len() == members.len()
            &&& json::get_view(snapshot, "failed_subagents"@) == Some(json::int_view(shown))
            &&& json::get_view(
                json::get_view(snapshot, "progress"@)->0,
                "failed"@,
            ) == Some(json::int_view(shown))
        }),
{
    reveal_snapshot_keys();
    lemma_failed_rows(delegation.status, artifacts, members);
}

proof fn lemma_failed_rows(
    status: DelegationStatus,
    artifacts: Seq<SubagentArtifact>,
    members: Seq<SnapshotMember>,
)
    requires
        handoff::publishes(status),
    ensures
        failed_members(status, artifacts, members) == member_views(
            status,
            artifacts,
            members,
        ).filter(
            |row: JsonView| json::get_view(row, "status"@) == Some(JsonView::Text("failed"@)),
        ).len(),
    decreases members.len(),
{
    reveal(Seq::filter);
    if members.len() > 0 {
        let rows = member_views(status, artifacts, members);
        let m = members.last();
        let artifact = artifact_for(artifacts, m.subagent.session_id@);
        lemma_failed_rows(status, artifacts, members.drop_last());
        assert(rows.drop_last() == member_views(status, artifacts, members.drop_last()));
        assert(rows.last() == member_view(status, m, artifact));
        reveal_row_keys();
        reveal_status_names();
        assert(json::get_view(rows.last(), "status"@) == Some(
            JsonView::Text(
                shown_status(
                    status,
                    m.subagent.activity,
                    completion_status(status, m.work, artifact),
                ),
            ),
        ));
    }
}

/// A snapshot tells the delegation as its row has it, one row for each member
/// in their order, and every count twice, alike.
pub proof fn law_snapshots_tell_the_delegation(
    delegation: Delegation,
    handoff_dir: Seq<char>,
    artifacts: Seq<SubagentArtifact>,
    members: Seq<SnapshotMember>,
    i: int,
)
    requires
        0 <= i < members.len(),
    ensures
        ({
            let snapshot = snapshot_view(delegation, handoff_dir, artifacts, members);
            let rows = json::get_view(snapshot, "subagents"@)->0->List_0;
            let progress = json::get_view(snapshot, "progress"@)->0;
            &&& json::get_view(snapshot, "delegation_id"@) == Some(JsonView::Text(delegation.id@))
            &&& json::get_view(snapshot, "kind"@) == Some(
                JsonView::Text(
                    match delegation.kind {
                        records::DelegationKind::Full => "full"@,
                        records::DelegationKind::ReadonlyFanout => "readonly_fanout"@,
                    },
                ),
            )
            &&& json::get_view(snapshot, "status"@) == Some(
                JsonView::Text(
                    match delegation.status {
                        DelegationStatus::Running => "running"@,
                        DelegationStatus::Done => "done"@,
                        DelegationStatus::DoneWithFailures => "done_with_failures"@,
                        DelegationStatus::Cancelled => "cancelled"@,
                        DelegationStatus::Failed => "failed"@,
                    },
                ),
            )
            &&& json::get_view(snapshot, "workflow"@) == Some(
                match delegation.workflow {
                    Some(w) => JsonView::Text(w@),
                    None => JsonView::Null,
                },
            )
            &&& json::get_view(snapshot, "label"@) == Some(
                match delegation.label {
                    Some(l) => JsonView::Text(l@),
                    None => JsonView::Null,
                },
            )
            &&& json::get_view(snapshot, "handoff_dir"@) == Some(JsonView::Text(handoff_dir))
            &&& json::get_view(snapshot, "expected_subagents"@) == Some(
                json::int_view(delegation.expected_subagents as int),
            )
            &&& json::get_view(snapshot, "spawned_subagents"@) == Some(
                json::int_view(members.len() as int),
            )
            &&& json::get_view(progress, "expected"@) == json::get_view(
                snapshot,
                "expected_subagents"@,
            )
            &&& json::get_view(progress, "spawned"@) == json::get_view(
                snapshot,
                "spawned_subagents"@,
            )
            &&& json::get_view(progress, "terminal"@) == json::get_view(
                snapshot,
                "terminal_subagents"@,
            )
            &&& json::get_view(progress, "running"@) == json::get_view(
                snapshot,
                "running_subagents"@,
            )
            &&& json::get_view(progress, "failed"@) == json::get_view(snapshot, "failed_subagents"@)
            &&& rows.len() == members.len()
            &&& json::get_view(rows[i], "id"@) == Some(
                JsonView::Text(members[i].subagent.session_id@),
            )
            &&& rows[i] == member_view(
                delegation.status,
                members[i],
                artifact_for(artifacts, members[i].subagent.session_id@),
            )
        }),
{
    reveal_snapshot_keys();
    reveal_row_keys();
}

/// What the row of a member says of who it is and where it stands. Its status
/// is the published one once it is complete; until then a running delegation
/// shows what the session does, an idle one as running, and any other shows its
/// own status. It is offered for steering exactly while the delegation runs and
/// the subagent, being one, is not complete and has something left to run.
pub proof fn law_rows_tell_where_members_stand(
    status: DelegationStatus,
    m: SnapshotMember,
    artifact: Option<SubagentArtifact>,
)
    ensures
        ({
            let row = member_view(status, m, artifact);
            let completed = completion_status(status, m.work, artifact);
            let kind = match m.subagent.subagent_type {
                Some(records::SubagentType::Full) => JsonView::Text("full"@),
                Some(records::SubagentType::ReadOnly) => JsonView::Text("read_only"@),
                None => JsonView::Null,
            };
            let doing = match m.subagent.activity {
                SessionActivity::Idle => "idle"@,
                SessionActivity::Queued => "queued"@,
                SessionActivity::Running => "running"@,
            };
            &&& json::get_view(row, "id"@) == Some(JsonView::Text(m.subagent.session_id@))
            &&& json::get_view(row, "role"@) == Some(
                match m.subagent.role {
                    Some(r) => JsonView::Text(r@),
                    None => JsonView::Null,
                },
            )
            &&& json::get_view(row, "type"@) == Some(kind)
            &&& json::get_view(row, "subagent_type"@) == Some(kind)
            &&& json::get_view(row, "activity"@) == Some(JsonView::Text(doing))
            &&& status is Cancelled ==> json::get_view(row, "status"@) == Some(
                JsonView::Text("cancelled"@),
            )
            &&& status is Failed ==> json::get_view(row, "status"@) == Some(
                JsonView::Text("failed"@),
            )
            &&& (status is Running || status is Done || status is DoneWithFailures) ==> (
            match completed {
                Some(s) => json::get_view(row, "status"@) == Some(JsonView::Text(s)),
                None => {
                    &&& status is Done ==> json::get_view(row, "status"@) == Some(
                        JsonView::Text("done"@),
                    )
                    &&& status is DoneWithFailures ==> json::get_view(row, "status"@) == Some(
                        JsonView::Text("done_with_failures"@),
                    )
                    &&& status is Running && m.subagent.activity is Idle ==> json::get_view(
                        row,
                        "status"@,
                    ) == Some(JsonView::Text("running"@))
                    &&& status is Running && !(m.subagent.activity is Idle) ==> json::get_view(
                        row,
                        "status"@,
                    ) == Some(JsonView::Text(doing))
                },
            })
            &&& json::get_view(row, "steerable"@) == Some(
                JsonView::Bool(
                    status is Running && m.subagent.subagent_type is Some && completed is None && (
                    m.work matches Some(w) && (w.has_unfinished_actions || w.has_queued_inputs
                        || w.has_active_runtime)),
                ),
            )
        }),
{
    reveal_row_keys();
}

/// What the row of a member says of its files: a cancelled delegation names what
/// it still has, any other what is published, the outcome and the final message
/// only once the member is complete.
pub proof fn law_rows_name_the_files(
    status: DelegationStatus,
    m: SnapshotMember,
    artifact: Option<SubagentArtifact>,
)
    requires
        artifact matches Some(a) ==> a.session_id@ == m.subagent.session_id@,
    ensures
        ({
            let row = member_view(status, m, artifact);
            let complete = completion_status(status, m.work, artifact) is Some;
            let id = m.subagent.session_id@;
            &&& json::get_view(row, "outcome"@) == Some(
                match artifact {
                    Some(a) => if complete && a.outcome is Some {
                        JsonView::Text(a.outcome->0@)
                    } else {
                        JsonView::Null
                    },
                    None => JsonView::Null,
                },
            )
            &&& status is Cancelled ==> {
                &&& json::get_view(row, "final_message_file"@) == Some(
                    if m.final_message_exists {
                        JsonView::Text(text::trimmed(id) + "/"@ + "final_message.md"@)
                    } else {
                        JsonView::Null
                    },
                )
                &&& json::get_view(row, "transcript_file"@) == Some(
                    if m.cancelled_transcript_exists {
                        JsonView::Text("cancelled/"@ + text::trimmed(id) + ".transcript.md"@)
                    } else {
                        JsonView::Null
                    },
                )
            }
            &&& !(status is Cancelled) ==> {
                &&& json::get_view(row, "final_message_file"@) == Some(
                    if complete && (artifact matches Some(a) && a.has_final_message) {
                        JsonView::Text(id + "/"@ + "final_message.md"@)
                    } else {
                        JsonView::Null
                    },
                )
                &&& json::get_view(row, "transcript_file"@) == Some(
                    if artifact is Some {
                        JsonView::Text(id + "/"@ + "transcript.md"@)
                    } else {
                        JsonView::Null
                    },
                )
            }
            &&& json::get_view(row, "task_prompt_file"@) == Some(
                if (match artifact {
                    Some(a) => a.has_task_prompt,
                    None => m.subagent.task matches Some(t) && text::trimmed(t@).len() > 0,
                }) {
                    JsonView::Text(id + "/"@ + "task_prompt.md"@)
                } else {
                    JsonView::Null
                },
            )
        }),
{
    reveal_row_keys();
}

/// A row is refused exactly when its session id is no plain name and the row
/// would build paths from it: under a cancelled delegation, and where nothing is
/// published of the member.
pub proof fn law_rows_refuse_unsafe_ids(
    status: DelegationStatus,
    m: SnapshotMember,
    artifact: Option<SubagentArtifact>,
)
    ensures
        handoff::safe_segment(m.subagent.session_id@) ==> !member_refused(status, m, artifact),
        !handoff::safe_segment(m.subagent.session_id@) ==> (member_refused(status, m, artifact)
            <==> status is Cancelled || artifact is None),
{
}

/// A snapshot writes the task prompt of every member that has a task of more
/// than white space and no artifact, with that task as its content, and nothing
/// of any other member; the members are taken in their order.
pub proof fn law_snapshots_write_missing_prompts(
    dir: Seq<char>,
    artifacts: Seq<SubagentArtifact>,
    members: Seq<SnapshotMember>,
    m: SnapshotMember,
)
    ensures
        prompt_writes(dir, artifacts, Seq::empty()).len() == 0,
        prompt_writes(dir, artifacts, members.push(m)) == prompt_writes(dir, artifacts, members) + (
        match m.subagent.task {
            Some(task) => if text::trimmed(task@).len() > 0 && artifact_for(
                artifacts,
                m.subagent.session_id@,
            ) is None {
                seq![
                    (
                        dir + "/"@ + (text::trimmed(m.subagent.session_id@) + "/"@
                            + "task_prompt.md"@),
                        task@,
                    ),
                ]
            } else {
                Seq::empty()
            },
            None => Seq::empty(),
        }),
{
    assert(members.push(m).drop_last() == members);
}

proof fn reveal_row_keys()
    ensures
        "id"@.len() == 2,
        "role"@.len() == 4,
        "role"@[0] == 'r',
        "type"@.len() == 4,
        "type"@[0] == 't',
        "subagent_type"@.len() == 13,
        "activity"@.len() == 8,
        "status"@.len() == 6,
        "steerable"@.len() == 9,
        "outcome"@.len() == 7,
        "final_message_file"@.len() == 18,
        "transcript_file"@.len() == 15,
        "task_prompt_file"@.len() == 16,
{
    reveal_strlit("id");
    reveal_strlit("role");
    reveal_strlit("type");
    reveal_strlit("subagent_type");
    reveal_strlit("activity");
    reveal_strlit("status");
    reveal_strlit("steerable");
    reveal_strlit("outcome");
    reveal_strlit("final_message_file");
    reveal_strlit("transcript_file");
    reveal_strlit("task_prompt_file");
}

proof fn reveal_status_names()
    ensures
        "failed"@.len() == 6,
        "idle"@.len() == 4,
        "queued"@.len() == 6,
        "queued"@[0] == 'q',
        "failed"@[0] == 'f',
        "running"@.len() == 7,
        "done"@.len() == 4,
        "done_with_failures"@.len() == 18,
{
    reveal_strlit("failed");
    reveal_strlit("idle");
    reveal_strlit("queued");
    reveal_strlit("running");
    reveal_strlit("done");
    reveal_strlit("done_with_failures");
}

/// The row of a subagent is the first whose id is its own; there is none where
/// no row carries the id.
pub proof fn law_rows_are_found_by_id(rows: Seq<JsonView>, subagent_id: Seq<char>, i: int)
    ensures
        0 <= i < rows.len() && json::get_view(rows[i], "id"@) == Some(JsonView::Text(subagent_id))
            && (forall|j: int|
            0 <= j < i ==> json::get_view(#[trigger] rows[j], "id"@) != Some(
                JsonView::Text(subagent_id),
            )) ==> row_with_id(rows, subagent_id) == Some(rows[i]),
        (forall|j: int|
            0 <= j < rows.len() ==> json::get_view(#[trigger] rows[j], "id"@) != Some(
                JsonView::Text(subagent_id),
            )) ==> row_with_id(rows, subagent_id) is None,
    decreases rows.len(),
{
    if rows.len() > 0 {
        let rest = rows.skip(1);
        assert forall|j: int| 0 <= j < rest.len() implies #[trigger] rest[j] == rows[j + 1] by {
        }
        law_rows_are_found_by_id(rest, subagent_id, i - 1);
    }
}

/// Summaries call the two kinds of delegation by plain names, and put a label in
/// brackets.
pub proof fn law_summaries_name_kinds_plainly(delegation: Delegation, label: Seq<char>)
    ensures
        kind_label(Some(delegation.kind.name())) == (match delegation.kind {
            records::DelegationKind::Full => "full subagent"@,
            records::DelegationKind::ReadonlyFanout => "read-only fan-out"@,
        }),
        kind_label(None) == "delegation"@,
        label_suffix(None).len() == 0,
        label_suffix(Some(label)) == " ("@ + label + ")"@,
{
    reveal_strlit("full");
    reveal_strlit("readonly_fanout");
    assert("full"@.len() == 4);
    assert("readonly_fanout"@.len() == 15);
}

/// A partial wakeup's summary tells what the snapshot holds: the subagent that
/// finished, the delegation, its kind, label and status, and its terminal,
/// running and failed counts, each in its own place.
pub proof fn law_partial_summary_counts_the_snapshot(
    delegation: Delegation,
    subagents: Seq<JsonView>,
    handoff_dir: Seq<char>,
    terminal: int,
    running: int,
    failed: int,
    subagent_id: Seq<char>,
)
    requires
        0 <= failed <= terminal <= u64::MAX,
        0 <= running <= u64::MAX,
    ensures
        ({
            let snapshot = delegation_view_of(
                delegation,
                subagents,
                handoff_dir,
                terminal,
                running,
                failed,
            );
            partial_summary(snapshot, subagent_id) == finished_text(snapshot, subagent_id)
                + " Delegation "@ + delegation.id@ + " ("@ + kind_label(
                Some(delegation.kind.name()),
            ) + ")"@ + label_suffix(records::opt_view(delegation.label)) + " is still "@
                + delegation.status.name() + ": "@ + text::decimal(terminal) + " terminal, "@
                + text::decimal(running) + " running, "@ + text::decimal(failed) + " failed."@
        }),
{
    reveal_snapshot_keys();
    let snapshot = delegation_view_of(
        delegation,
        subagents,
        handoff_dir,
        terminal,
        running,
        failed,
    );
    assert(snapshot_text(snapshot, "delegation_id"@) == Some(delegation.id@));
    assert(snapshot_text(snapshot, "kind"@) == Some(delegation.kind.name()));
    assert(snapshot_text(snapshot, "label"@) == records::opt_view(delegation.label));
    assert(snapshot_text(snapshot, "status"@) == Some(delegation.status.name()));
}

/// A partial wakeup names the finished subagent with the status and, where there
/// is one, the outcome of its row in the snapshot; without a row it only says
/// that the subagent finished.
pub proof fn law_partial_wakeups_tell_the_row(
    snapshot: JsonView,
    subagent_id: Seq<char>,
    rows: Seq<JsonView>,
    i: int,
    status: Seq<char>,
)
    requires
        json::get_view(snapshot, "subagents"@) == Some(JsonView::List(rows)),
    ensures
        0 <= i < rows.len() && json::get_view(rows[i], "id"@) == Some(JsonView::Text(subagent_id))
            && (forall|j: int|
            0 <= j < i ==> json::get_view(#[trigger] rows[j], "id"@) != Some(
                JsonView::Text(subagent_id),
            )) && json::get_view(rows[i], "status"@) == Some(JsonView::Text(status))
            ==> finished_text(snapshot, subagent_id) == "Subagent "@ + subagent_id
            + " finished with status "@ + status + (match json::get_view(rows[i], "outcome"@) {
            Some(JsonView::Text(outcome)) => " outcome "@ + interop::debug_text(outcome),
            _ => Seq::empty(),
        }) + "."@,
        (forall|j: int|
            0 <= j < rows.len() ==> json::get_view(#[trigger] rows[j], "id"@) != Some(
                JsonView::Text(subagent_id),
            )) ==> finished_text(snapshot, subagent_id) == "Subagent "@ + subagent_id
            + " finished."@,
{
    law_rows_are_found_by_id(rows, subagent_id, i);
}

/// Every byte is rendered as its high and then its low half, in lower case.
pub proof fn law_hex_keeps_every_byte(bytes: Seq<u8>, i: int)
    requires
        0 <= i < bytes.len(),
    ensures
        hex_text(bytes).len() == 2 * bytes.len(),
        ({
            let high = bytes[i] as int / 16;
            let low = bytes[i] as int % 16;
            &&& hex_text(bytes)[2 * i] as int == (if high < 10 { 48 + high } else { 87 + high })
            &&& hex_text(bytes)[2 * i + 1] as int == (if low < 10 { 48 + low } else { 87 + low })
        }),
    decreases bytes.len(),
{
    lemma_hex_length(bytes);
    lemma_hex_length(bytes.drop_last());
    if i < bytes.len() - 1 {
        law_hex_keeps_every_byte(bytes.drop_last(), i);
    }
}

/// A call id is its prefix and the digits of the first half of the digest of the
/// delegation's id and attempt, and the subagent's id where it is one's own,
/// told apart by zero bytes.
pub proof fn law_call_ids_digest_the_attempt(delegation: Delegation, subagent_id: Seq<char>)
    ensures
        ({
            let key = vstd::utf8::encode_utf8(delegation.id@) + seq![0u8] + vstd::utf8::encode_utf8(
                delegation.attempt_id@,
            );
            &&& completion_call_id(delegation).skip("call_inspect_delegation_"@.len() as int)
                == hex_text(interop::sha256(key).take(16))
            &&& subagent_call_id(delegation, subagent_id).skip(
                "call_inspect_delegation_child_"@.len() as int,
            ) == hex_text(
                interop::sha256(key + seq![0u8] + vstd::utf8::encode_utf8(subagent_id)).take(16),
            )
        }),
{
}

proof fn reveal_snapshot_keys()
    ensures
        "delegation_id"@.len() == 13,
        "kind"@.len() == 4,
        "status"@.len() == 6,
        "status"@[0] == 's',
        "failed"@.len() == 6,
        "failed"@[0] == 'f',
        "workflow"@.len() == 8,
        "workflow"@[0] == 'w',
        "progress"@.len() == 8,
        "progress"@[0] == 'p',
        "terminal"@.len() == 8,
        "terminal"@[0] == 't',
        "expected"@.len() == 8,
        "expected"@[0] == 'e',
        "spawned"@.len() == 7,
        "spawned"@[0] == 's',
        "running"@.len() == 7,
        "running"@[0] == 'r',
        "label"@.len() == 5,
        "expected_subagents"@.len() == 18,
        "expected_subagents"@[0] == 'e',
        "spawned_subagents"@.len() == 17,
        "spawned_subagents"@[0] == 's',
        "terminal_subagents"@.len() == 18,
        "terminal_subagents"@[0] == 't',
        "running_subagents"@.len() == 17,
        "running_subagents"@[0] == 'r',
        "failed_subagents"@.len() == 16,
        "subagents"@.len() == 9,
        "handoff_dir"@.len() == 11,
{
    reveal_strlit("delegation_id");
    reveal_strlit("kind");
    reveal_strlit("status");
    reveal_strlit("failed");
    reveal_strlit("workflow");
    reveal_strlit("progress");
    reveal_strlit("terminal");
    reveal_strlit("expected");
    reveal_strlit("spawned");
    reveal_strlit("running");
    reveal_strlit("label");
    reveal_strlit("expected_subagents");
    reveal_strlit("spawned_subagents");
    reveal_strlit("terminal_subagents");
    reveal_strlit("running_subagents");
    reveal_strlit("failed_subagents");
    reveal_strlit("subagents");
    reveal_strlit("handoff_dir");
}

/// A snapshot has but one point at which it can be refused.
pub proof fn law_one_prefix_is_shown(
    status: DelegationStatus,
    artifacts: Seq<SubagentArtifact>,
    members: Seq<SnapshotMember>,
    n: int,
    k: int,
)
    requires
        shown_prefix(status, artifacts, members, n),
        shown_prefix(status, artifacts, members, k),
    ensures
        n == k,
        n == members.len() <==> forall|i: int|
            0 <= i < members.len() ==> !member_refused(
                status,
                #[trigger] members[i],
                artifact_for(artifacts, members[i].subagent.session_id@),
            ),
{
    if n < k {
        assert(!member_refused(
            status,
            members[n],
            artifact_for(artifacts, members[n].subagent.session_id@),
        ));
    }
    if k < n {
        assert(!member_refused(
            status,
            members[k],
            artifact_for(artifacts, members[k].subagent.session_id@),
        ));
    }
    if n < members.len() {
        assert(member_refused(
            status,
            members[n],
            artifact_for(artifacts, members[n].subagent.session_id@),
        ));
    }
}

/// An observation is a call of `inspect_delegation` with the delegation's id as
/// its one argument, the summary beside it and the snapshot as its result.
pub proof fn law_observations_inspect_the_delegation(
    o: DaemonToolObservation,
    tool_call_id: Seq<char>,
    delegation_id: Seq<char>,
    summary: Seq<char>,
    snapshot: JsonView,
)
    requires
        inspects(o, tool_call_id, delegation_id, summary, snapshot),
    ensures
        o.tool_call_id@ == tool_call_id,
        o.tool_name@ == "inspect_delegation"@,
        o.args_json@ == "{\"delegation_id\":"@ + interop::quoted_text(delegation_id) + "}"@,
        o.summary matches Some(s) && s@ == summary,
        o.result_json@ == snapshot,
{
}

/// A completion's summary counts as well those that are terminal and did not
/// fail, and never fewer than none; what the snapshot does not tell is left
/// unknown.
pub proof fn law_summaries_of_any_snapshot(snapshot: JsonView)
    ensures
        ({
            let terminal = progress_count(snapshot, "terminal"@) as int;
            let failed = progress_count(snapshot, "failed"@) as int;
            let well = if terminal > failed {
                terminal - failed
            } else {
                0
            };
            &&& (": "@ + text::decimal(well) + " ok, "@ + text::decimal(failed)
                + " failed."@).is_suffix_of(completion_summary(snapshot))
            &&& !(snapshot is Object) ==> completion_summary(snapshot) == "Delegation "@
                + "<unknown>"@ + " ("@ + "delegation"@ + ")"@ + Seq::empty()
                + " completed with status "@ + "terminal"@ + ": "@ + text::decimal(0) + " ok, "@
                + text::decimal(0) + " failed."@
            &&& !(snapshot is Object) ==> progress_count(snapshot, "terminal"@) == 0
        }),
{
}

/// A partial wakeup of a snapshot that tells nothing of the delegation leaves it
/// unknown, as still running and with nothing counted.
pub proof fn law_partial_summaries_without_a_snapshot(
    snapshot: JsonView,
    subagent_id: Seq<char>,
)
    requires
        !(snapshot is Object),
    ensures
        partial_summary(snapshot, subagent_id) == "Subagent "@ + subagent_id + " finished."@
            + " Delegation "@ + "<unknown>"@ + " ("@ + "delegation"@ + ")"@ + Seq::empty()
            + " is still "@ + "running"@ + ": "@ + text::decimal(0) + " terminal, "@
            + text::decimal(0) + " running, "@ + text::decimal(0) + " failed."@,
{
}

/// A row without a status of its own is told as terminal.
pub proof fn law_rows_without_a_status(
    snapshot: JsonView,
    subagent_id: Seq<char>,
    rows: Seq<JsonView>,
    i: int,
)
    requires
        json::get_view(snapshot, "subagents"@) == Some(JsonView::List(rows)),
        0 <= i < rows.len(),
        json::get_view(rows[i], "id"@) == Some(JsonView::Text(subagent_id)),
        forall|j: int|
            0 <= j < i ==> json::get_view(#[trigger] rows[j], "id"@) != Some(
                JsonView::Text(subagent_id),
            ),
        !(json::get_view(rows[i], "status"@) matches Some(JsonView::Text(_))),
        !(json::get_view(rows[i], "outcome"@) matches Some(JsonView::Text(_))),
    ensures
        finished_text(snapshot, subagent_id) == "Subagent "@ + subagent_id
            + " finished with status "@ + "terminal"@ + Seq::empty() + "."@,
{
    law_rows_are_found_by_id(rows, subagent_id, i);
}

/// A snapshot and its rows hold these entries and no others: references to files
/// and never what the files hold.
pub proof fn law_snapshots_hold_no_contents(
    delegation: Delegation,
    handoff_dir: Seq<char>,
    artifacts: Seq<SubagentArtifact>,
    members: Seq<SnapshotMember>,
    m: SnapshotMember,
    artifact: Option<SubagentArtifact>,
    key: Seq<char>,
)
    ensures
        json::get_view(member_view(delegation.status, m, artifact), key) is Some <==> {
            ||| key == "id"@
            ||| key == "role"@
            ||| key == "type"@
            ||| key == "subagent_type"@
            ||| key == "activity"@
            ||| key == "status"@
            ||| key == "steerable"@
            ||| key == "outcome"@
            ||| key == "final_message_file"@
            ||| key == "transcript_file"@
            ||| key == "task_prompt_file"@
        },
        json::get_view(snapshot_view(delegation, handoff_dir, artifacts, members), key) is Some
            <==> {
            ||| key == "delegation_id"@
            ||| key == "kind"@
            ||| key == "status"@
            ||| key == "workflow"@
            ||| key == "label"@
            ||| key == "expected_subagents"@
            ||| key == "spawned_subagents"@
            ||| key == "terminal_subagents"@
            ||| key == "running_subagents"@
            ||| key == "failed_subagents"@
            ||| key == "progress"@
            ||| key == "subagents"@
            ||| key == "handoff_dir"@
        },
{
}

} // verus!
