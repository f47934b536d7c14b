//! The rows that the session store holds, as far as the daemon's rules read
//! them.
use vstd::prelude::*;

use crate::json::{Json, JsonView};

verus! {

/// Where a delegation stands.
#[derive(Clone, Copy, Debug, PartialEq, Eq, Structural)]
pub enum DelegationStatus {
    Running,
    Done,
    DoneWithFailures,
    Cancelled,
    Failed,
}

impl DelegationStatus {
    /// The stored name.
    pub open spec fn name(self) -> Seq<char> {
        match self {
            DelegationStatus::Running => "running"@,
            DelegationStatus::Done => "done"@,
            DelegationStatus::DoneWithFailures => "done_with_failures"@,
            DelegationStatus::Cancelled => "cancelled"@,
            DelegationStatus::Failed => "failed"@,
        }
    }

    pub fn as_str(self) -> (r: &'static str)
        ensures
            r@ == self.name(),
    {
        match self {
            DelegationStatus::Running => "running",
            DelegationStatus::Done => "done",
            DelegationStatus::DoneWithFailures => "done_with_failures",
            DelegationStatus::Cancelled => "cancelled",
            DelegationStatus::Failed => "failed",
        }
    }
}

/// How a delegation runs its subagents.
#[derive(Clone, Copy, Debug, PartialEq, Eq, Structural)]
pub enum DelegationKind {
    Full,
    ReadonlyFanout,
}

impl DelegationKind {
    /// The stored name.
    pub open spec fn name(self) -> Seq<char> {
        match self {
            DelegationKind::Full => "full"@,
            DelegationKind::ReadonlyFanout => "readonly_fanout"@,
        }
    }

    pub fn as_str(self) -> (r: &'static str)
        ensures
            r@ == self.name(),
    {
        match self {
            DelegationKind::Full => "full",
            DelegationKind::ReadonlyFanout => "readonly_fanout",
        }
    }
}

/// What a subagent may do to the workspace.
#[derive(Clone, Copy, Debug, PartialEq, Eq, Structural)]
pub enum SubagentType {
    Full,
    ReadOnly,
}

impl SubagentType {
    /// The stored name.
    pub open spec fn name(self) -> Seq<char> {
        match self {
            SubagentType::Full => "full"@,
            SubagentType::ReadOnly => "read_only"@,
        }
    }

    pub fn as_str(self) -> (r: &'static str)
        ensures
            r@ == self.name(),
    {
        match self {
            SubagentType::Full => "full",
            SubagentType::ReadOnly => "read_only",
        }
    }
}

/// What a session is doing.
#[derive(Clone, Copy, Debug, PartialEq, Eq, Structural)]
pub enum SessionActivity {
    Idle,
    Queued,
    Running,
}

impl SessionActivity {
    /// The stored name.
    pub open spec fn name(self) -> Seq<char> {
        match self {
            SessionActivity::Idle => "idle"@,
            SessionActivity::Queued => "queued"@,
            SessionActivity::Running => "running"@,
        }
    }

    pub fn as_str(self) -> (r: &'static str)
        ensures
            r@ == self.name(),
    {
        match self {
            SessionActivity::Idle => "idle",
            SessionActivity::Queued => "queued",
            SessionActivity::Running => "running",
        }
    }
}

/// How far an accepted subagent control has come.
#[derive(Clone, Copy, Debug, PartialEq, Eq, Structural)]
pub enum SubagentControlPhase {
    PendingInterrupt,
    InterruptApplied,
    Ready,
    Cancelled,
}

impl SubagentControlPhase {
    /// The stored name.
    pub open spec fn name(self) -> Seq<char> {
        match self {
            SubagentControlPhase::PendingInterrupt => "pending_interrupt"@,
            SubagentControlPhase::InterruptApplied => "interrupt_applied"@,
            SubagentControlPhase::Ready => "ready"@,
            SubagentControlPhase::Cancelled => "cancelled"@,
        }
    }

    pub fn as_str(self) -> (r: &'static str)
        ensures
            r@ == self.name(),
    {
        match self {
            SubagentControlPhase::PendingInterrupt => "pending_interrupt",
            SubagentControlPhase::InterruptApplied => "interrupt_applied",
            SubagentControlPhase::Ready => "ready",
            SubagentControlPhase::Cancelled => "cancelled",
        }
    }
}

/// Where a queued input stands.
#[derive(Clone, Copy, Debug, PartialEq, Eq, Structural)]
pub enum QueuedInputStatus {
    Queued,
    Consuming,
    Consumed,
    Cancelled,
}

impl QueuedInputStatus {
    /// Still to be worked off.
    pub open spec fn outstanding(self) -> bool {
        self is Queued || self is Consuming
    }

    pub fn is_outstanding(self) -> (r: bool)
        ensures
            r == self.outstanding(),
    {
        match self {
            QueuedInputStatus::Queued | QueuedInputStatus::Consuming => true,
            QueuedInputStatus::Consumed | QueuedInputStatus::Cancelled => false,
        }
    }
}

/// What a subagent control asks for.
#[derive(Clone, Copy, Debug, PartialEq, Eq, Structural)]
pub enum SubagentControlKind {
    Steer,
    Interrupt,
}

/// The text of an optional string.
pub open spec fn opt_view(value: Option<String>) -> Option<Seq<char>> {
    match value {
        Some(s) => Some(s@),
        None => None,
    }
}

/// The text of an optional string slice.
pub open spec fn opt_str_view(value: Option<&str>) -> Option<Seq<char>> {
    match value {
        Some(s) => Some(s@),
        None => None,
    }
}

/// An optional string as a slice.
pub fn opt_str(value: &Option<String>) -> (r: Option<&str>)
    ensures
        opt_str_view(r) == opt_view(*value),
{
    match value {
        Some(s) => Some(s.as_str()),
        None => None,
    }
}

/// A copy of an optional string.
pub fn opt_clone(value: &Option<String>) -> (r: Option<String>)
    ensures
        opt_view(r) == opt_view(*value),
{
    match value {
        Some(s) => Some(s.clone()),
        None => None,
    }
}

/// A delegation row.
#[derive(Debug, PartialEq, Eq)]
pub struct Delegation {
    pub id: String,
    pub parent_session_id: String,
    pub workflow: Option<String>,
    pub label: Option<String>,
    pub kind: DelegationKind,
    pub status: DelegationStatus,
    pub attempt_id: String,
    pub expected_subagents: i32,
}

/// The view of a delegation row.
pub ghost struct DelegationView {
    pub id: Seq<char>,
    pub parent_session_id: Seq<char>,
    pub workflow: Option<Seq<char>>,
    pub label: Option<Seq<char>>,
    pub kind: DelegationKind,
    pub status: DelegationStatus,
    pub attempt_id: Seq<char>,
    pub expected_subagents: int,
}

impl View for Delegation {
    type V = DelegationView;

    open spec fn view(&self) -> DelegationView {
        DelegationView {
            id: self.id@,
            parent_session_id: self.parent_session_id@,
            workflow: opt_view(self.workflow),
            label: opt_view(self.label),
            kind: self.kind,
            status: self.status,
            attempt_id: self.attempt_id@,
            expected_subagents: self.expected_subagents as int,
        }
    }
}

impl Clone for Delegation {
    fn clone(&self) -> (r: Delegation)
        ensures
            r@ == self@,
    {
        Delegation {
            id: self.id.clone(),
            parent_session_id: self.parent_session_id.clone(),
            workflow: opt_clone(&self.workflow),
            label: opt_clone(&self.label),
            kind: self.kind,
            status: self.status,
            attempt_id: self.attempt_id.clone(),
            expected_subagents: self.expected_subagents,
        }
    }
}

/// How many subagents a delegation expects, has spawned, and where they stand.
#[derive(Clone, Copy, Debug, PartialEq, Eq)]
pub struct DelegationProgress {
    pub expected: i32,
    pub spawned: i32,
    pub terminal: i32,
    pub running: i32,
    pub failed: i32,
}

/// One subagent session of a delegation.
#[derive(Debug, PartialEq, Eq)]
pub struct DelegationSubagent {
    pub session_id: String,
    pub role: Option<String>,
    pub subagent_type: Option<SubagentType>,
    pub activity: SessionActivity,
    pub task: Option<String>,
}

/// One subagent session as the delegation list reads it.
#[derive(Debug, PartialEq, Eq)]
pub struct DelegationSubagentOverview {
    pub session_id: String,
    pub role: Option<String>,
    pub title: Option<String>,
    pub subagent_type: Option<SubagentType>,
    pub activity: SessionActivity,
    pub terminal_status: Option<String>,
    pub has_task: bool,
}

/// A subagent control that was durably accepted.
#[derive(Debug, PartialEq, Eq)]
pub struct SubagentControlRecord {
    pub input_id: String,
    pub status: QueuedInputStatus,
    pub kind: SubagentControlKind,
    pub phase: SubagentControlPhase,
    pub interrupt: bool,
    pub interrupted: bool,
    pub interrupt_outcome: Option<String>,
    pub target_active_leaf_id: Option<String>,
    pub target_turn_id: Option<u64>,
    pub target_action_attempt_ids: Vec<String>,
    pub delegation_running: bool,
}

/// What the store answers when a subagent control is queued.
#[derive(Debug, PartialEq, Eq)]
pub struct EnqueuedControl {
    pub input_id: String,
    pub replayed: bool,
    pub control_phase: Option<SubagentControlPhase>,
    pub control_interrupt_outcome: Option<String>,
}

/// A subagent type as JSON.
pub open spec fn type_view(subagent_type: Option<SubagentType>) -> JsonView {
    match subagent_type {
        Some(t) => JsonView::Text(t.name()),
        None => JsonView::Null,
    }
}

pub fn type_json(subagent_type: Option<SubagentType>) -> (r: Json)
    ensures
        r@ == type_view(subagent_type),
{
    match subagent_type {
        Some(t) => Json::text(t.as_str()),
        None => Json::Null,
    }
}

/// Every status, kind, type, activity and phase is stored under a name of its
/// own.
pub proof fn law_stored_names(
    status: DelegationStatus,
    kind: DelegationKind,
    subagent_type: SubagentType,
    activity: SessionActivity,
    phase: SubagentControlPhase,
)
    ensures
        status.name() == (match status {
            DelegationStatus::Running => "running"@,
            DelegationStatus::Done => "done"@,
            DelegationStatus::DoneWithFailures => "done_with_failures"@,
            DelegationStatus::Cancelled => "cancelled"@,
            DelegationStatus::Failed => "failed"@,
        }),
        kind.name() == (match kind {
            DelegationKind::Full => "full"@,
            DelegationKind::ReadonlyFanout => "readonly_fanout"@,
        }),
        subagent_type.name() == (match subagent_type {
            SubagentType::Full => "full"@,
            SubagentType::ReadOnly => "read_only"@,
        }),
        activity.name() == (match activity {
            SessionActivity::Idle => "idle"@,
            SessionActivity::Queued => "queued"@,
            SessionActivity::Running => "running"@,
        }),
        phase.name() == (match phase {
            SubagentControlPhase::PendingInterrupt => "pending_interrupt"@,
            SubagentControlPhase::InterruptApplied => "interrupt_applied"@,
            SubagentControlPhase::Ready => "ready"@,
            SubagentControlPhase::Cancelled => "cancelled"@,
        }),
{
}

/// Different statuses have different names.
pub proof fn law_status_names_are_distinct(a: DelegationStatus, b: DelegationStatus)
    ensures
        a.name() == b.name() <==> a == b,
{
    reveal_strlit("running");
    reveal_strlit("done");
    reveal_strlit("done_with_failures");
    reveal_strlit("cancelled");
    reveal_strlit("failed");
    assert("running"@.len() == 7);
    assert("done"@.len() == 4);
    assert("done_with_failures"@.len() == 18);
    assert("cancelled"@.len() == 9);
    assert("failed"@.len() == 6);
}

/// An input is still to be worked off until it is consumed or cancelled.
pub proof fn law_outstanding_inputs(status: QueuedInputStatus)
    ensures
        status.outstanding() <==> !(status is Consumed || status is Cancelled),
{
}

/// An optional text is there exactly when its string is, and is its text; a
/// subagent type is shown by its name.
pub proof fn law_optional_values(value: String, slice: &str, subagent_type: SubagentType)
    ensures
        opt_view(Some(value)) == Some(value@),
        opt_view(None) is None,
        opt_str_view(Some(slice)) == Some(slice@),
        opt_str_view(None) is None,
        type_view(Some(subagent_type)) == JsonView::Text(
            match subagent_type {
                SubagentType::Full => "full"@,
                SubagentType::ReadOnly => "read_only"@,
            },
        ),
        type_view(None) == JsonView::Null,
{
}

} // verus!
