//! Starting, inspecting, steering and cancelling delegations.
use vstd::prelude::*;

use crate::handoff::{
    self, cancelled_transcript_rel, delegation_path, render_transcript_markdown,
    safe_handoff_path_segment, WorkspaceWrite,
};
use crate::interop::{self, parse_json, pretty_json};
use crate::json::{self, Json, JsonObject, JsonView};
use crate::paths::{self, join};
use crate::records::{Delegation, DelegationKind, DelegationStatus, SubagentType};
use crate::text::{self, same};
use crate::transcript::{
    self, HistoryTree, ToolCall, ToolResultMessage, ToolResultStatus,
};
use crate::types::{self, RpcError};

verus! {

/// What a subagent session still has to do.
#[derive(Clone, Copy, Debug, PartialEq, Eq)]
pub struct SubagentWorkState {
    pub has_unfinished_actions: bool,
    pub has_queued_inputs: bool,
    pub has_active_runtime: bool,
    pub active_leaf_is_turn_boundary: bool,
}

impl SubagentWorkState {
    /// There is something left to run.
    pub open spec fn active(self) -> bool {
        self.has_unfinished_actions || self.has_queued_inputs || self.has_active_runtime
    }

    /// At a turn boundary with nothing left to run.
    pub open spec fn terminal(self) -> bool {
        self.active_leaf_is_turn_boundary && !self.active()
    }

    pub fn has_active_work(&self) -> (r: bool)
        ensures
            r == self.active(),
    {
        self.has_unfinished_actions || self.has_queued_inputs || self.has_active_runtime
    }

    pub fn is_completion_terminal(&self) -> (r: bool)
        ensures
            r == self.terminal(),
    {
        self.active_leaf_is_turn_boundary && !self.has_active_work()
    }
}

/// How a blank field is refused.
pub open spec fn empty_field_error(field: Seq<char>) -> (Seq<char>, Seq<char>) {
    ("invalid_params"@, field + " cannot be empty"@)
}

/// A field without the white space around it; a blank field is refused.
pub fn trim_required(value: &str, field: &str) -> (r: Result<String, RpcError>)
    ensures
        r is Ok <==> text::trimmed(value@).len() > 0,
        r matches Ok(s) ==> s@ == text::trimmed(value@),
        r matches Err(e) ==> e@ == empty_field_error(field@),
{
    let kept = value.trim();
    if kept.is_empty() {
        Err(RpcError::with_message("invalid_params", field.to_owned().concat(" cannot be empty")))
    } else {
        Ok(kept.to_owned())
    }
}

/// The delegation belongs to the parent.
pub open spec fn belongs_to(row: Option<Delegation>, parent_session_id: Seq<char>) -> bool {
    row matches Some(d) && d.parent_session_id@ == parent_session_id
}

/// How a delegation that is missing or belongs elsewhere is refused.
pub open spec fn delegation_refusal(row: Option<Delegation>) -> (Seq<char>, Seq<char>) {
    (
        "delegation_not_found"@,
        if row is None {
            "delegation not found"@
        } else {
            "delegation is not in scope"@
        },
    )
}

/// A parent sees only its own delegations.
pub fn load_delegation_for_parent(row: Option<Delegation>, parent_session_id: &str) -> (r: Result<
    Delegation,
    RpcError,
>)
    ensures
        r is Ok <==> belongs_to(row, parent_session_id@),
        r matches Ok(d) ==> row == Some(d),
        r matches Err(e) ==> e@ == delegation_refusal(row),
{
    match row {
        None => Err(RpcError::new("delegation_not_found", "delegation not found")),
        Some(delegation) => if same(delegation.parent_session_id.as_str(), parent_session_id) {
            Ok(delegation)
        } else {
            Err(RpcError::new("delegation_not_found", "delegation is not in scope"))
        },
    }
}

/// The parent that an RPC names, without the white space around it; a missing,
/// blank or non-text parent is refused.
pub fn parent_session_id_from_params(params: &Json) -> (r: Result<String, RpcError>)
    ensures
        ({
            let given = json::text_view(json::get_view(params@, "parent_session_id"@));
            let named = given matches Some(id) && text::trimmed(id).len() > 0;
            &&& r is Ok <==> named
            &&& r matches Ok(id) ==> id@ == text::trimmed(given->0)
            &&& r matches Err(e) ==> e@ == empty_field_error("parent_session_id"@)
        }),
{
    proof {
        reveal_strlit("parent_session_id");
        reveal_strlit(" cannot be empty");
        reveal_strlit("parent_session_id cannot be empty");
        assert("parent_session_id"@ + " cannot be empty"@ == "parent_session_id cannot be empty"@);
    }
    match params.get("parent_session_id") {
        Some(value) => match value.as_str() {
            Some(id) => trim_required(id, "parent_session_id"),
            None => Err(RpcError::new("invalid_params", "parent_session_id cannot be empty")),
        },
        None => Err(RpcError::new("invalid_params", "parent_session_id cannot be empty")),
    }
}

/// Only the top-level session orchestrates delegations: a subagent, full or
/// read-only, never spawns one of its own.
pub fn reject_if_subagent(subagent_type: Option<SubagentType>) -> (r: Result<(), RpcError>)
    ensures
        r is Ok <==> subagent_type is None,
        r matches Err(e) ==> e@ == subagent_refusal(),
{
    match subagent_type {
        None => Ok(()),
        Some(_) => Err(
            RpcError::new(
                "delegations_not_allowed_for_subagent",
                "only the top-level session can run delegations; subagents cannot spawn subagents",
            ),
        ),
    }
}

pub open spec fn subagent_refusal() -> (Seq<char>, Seq<char>) {
    (
        "delegations_not_allowed_for_subagent"@,
        "only the top-level session can run delegations; subagents cannot spawn subagents"@,
    )
}

// ---------------------------------------------------------------------------
// Starting a delegation

/// Why the store did not create a delegation.
#[derive(Debug, PartialEq, Eq)]
pub enum CreateDelegationFailure {
    /// The parent has a running delegation already.
    RunningConflict,
    Other(RpcError),
}

pub fn map_delegation_create_error(failure: CreateDelegationFailure) -> (r: RpcError)
    ensures
        match failure {
            CreateDelegationFailure::RunningConflict => r@ == (
                "delegation_already_running"@,
                "a delegation is already running for this session; wait for it to finish before starting another"@,
            ),
            CreateDelegationFailure::Other(e) => r == e,
        },
{
    match failure {
        CreateDelegationFailure::RunningConflict => RpcError::new(
            "delegation_already_running",
            "a delegation is already running for this session; wait for it to finish before starting another",
        ),
        CreateDelegationFailure::Other(e) => e,
    }
}

/// One task of a delegation: the subagent's role and its prompt.
#[derive(Debug, PartialEq, Eq)]
pub struct DelegatedTask {
    pub role: String,
    pub prompt: String,
}

#[derive(Debug, PartialEq, Eq)]
pub struct StartFullParams {
    pub role: String,
    pub prompt: String,
    pub workflow: Option<String>,
    pub label: Option<String>,
}

#[derive(Debug, PartialEq, Eq)]
pub struct StartFanoutParams {
    pub tasks: Vec<DelegatedTask>,
    pub workflow: Option<String>,
    pub label: Option<String>,
}

/// A delegation that is to be created. A full delegation has exactly one task;
/// a fan-out has one or more, all read-only.
#[derive(Debug, PartialEq, Eq)]
pub struct DelegationStart {
    pub kind: DelegationKind,
    pub workflow: Option<String>,
    pub label: Option<String>,
    pub tasks: Vec<DelegatedTask>,
}

impl DelegationStart {
    pub open spec fn wf(self) -> bool {
        self.tasks@.len() > 0 && (self.kind is Full ==> self.tasks@.len() == 1)
    }
}

/// The blank field of a task, role before prompt.
pub open spec fn blank_task_field(task: DelegatedTask) -> Option<Seq<char>> {
    if text::trimmed(task.role@).len() == 0 {
        Some("role"@)
    } else if text::trimmed(task.prompt@).len() == 0 {
        Some("prompt"@)
    } else {
        None
    }
}

/// The task without the white space around its texts.
pub open spec fn trimmed_task(r: DelegatedTask, task: DelegatedTask) -> bool {
    r.role@ == text::trimmed(task.role@) && r.prompt@ == text::trimmed(task.prompt@)
}

fn read_task(role: &str, prompt: &str) -> (r: Result<DelegatedTask, RpcError>)
    ensures
        r is Ok <==> text::trimmed(role@).len() > 0 && text::trimmed(prompt@).len() > 0,
        r matches Ok(t) ==> t.role@ == text::trimmed(role@) && t.prompt@ == text::trimmed(prompt@),
        r matches Err(e) ==> e@ == empty_field_error(
            if text::trimmed(role@).len() == 0 {
                "role"@
            } else {
                "prompt"@
            },
        ),
{
    let role = match trim_required(role, "role") {
        Ok(role) => role,
        Err(e) => {
            return Err(e);
        },
    };
    match trim_required(prompt, "prompt") {
        Ok(prompt) => Ok(DelegatedTask { role, prompt }),
        Err(e) => Err(e),
    }
}

/// The first blank field among the tasks.
pub open spec fn first_blank_field(tasks: Seq<DelegatedTask>) -> Option<Seq<char>>
    decreases tasks.len(),
{
    if tasks.len() == 0 {
        None
    } else {
        match first_blank_field(tasks.drop_last()) {
            Some(field) => Some(field),
            None => blank_task_field(tasks.last()),
        }
    }
}

proof fn lemma_first_blank_field(tasks: Seq<DelegatedTask>, n: int)
    requires
        0 <= n < tasks.len(),
        first_blank_field(tasks.take(n)) is None,
        blank_task_field(tasks[n]) is Some,
    ensures
        first_blank_field(tasks) == blank_task_field(tasks[n]),
    decreases tasks.len(),
{
    if n + 1 == tasks.len() {
        assert(tasks.drop_last() == tasks.take(n));
    } else {
        let head = tasks.drop_last();
        assert(head.take(n) == tasks.take(n));
        lemma_first_blank_field(head, n);
    }
}

/// Reads the start of the single full, writing subagent of a delegation.
pub fn read_start_full(params: StartFullParams) -> (r: Result<DelegationStart, RpcError>)
    ensures
        ({
            let blank = blank_task_field(
                (DelegatedTask { role: params.role, prompt: params.prompt }),
            );
            &&& r is Ok <==> blank is None
            &&& r matches Err(e) ==> e@ == empty_field_error(blank->0)
            &&& r matches Ok(s) ==> {
                &&& s.wf()
                &&& s.kind is Full
                &&& s.workflow == params.workflow
                &&& s.label == params.label
                &&& s.tasks@.len() == 1
                &&& s.tasks@[0].role@ == text::trimmed(params.role@)
                &&& s.tasks@[0].prompt@ == text::trimmed(params.prompt@)
            }
        }),
{
    match read_task(params.role.as_str(), params.prompt.as_str()) {
        Ok(task) => {
            let mut tasks: Vec<DelegatedTask> = Vec::new();
            tasks.push(task);
            Ok(
                DelegationStart {
                    kind: DelegationKind::Full,
                    workflow: params.workflow,
                    label: params.label,
                    tasks,
                },
            )
        },
        Err(e) => Err(e),
    }
}

/// Reads the start of a read-only fan-out, one subagent per task.
pub fn read_start_fanout(params: StartFanoutParams) -> (r: Result<DelegationStart, RpcError>)
    ensures
        r is Ok <==> params.tasks@.len() > 0 && first_blank_field(params.tasks@) is None,
        r matches Err(e) ==> e@ == (if params.tasks@.len() == 0 {
            empty_field_error("tasks"@)
        } else {
            empty_field_error(first_blank_field(params.tasks@)->0)
        }),
        r matches Ok(s) ==> {
            &&& s.wf()
            &&& s.kind is ReadonlyFanout
            &&& s.workflow == params.workflow
            &&& s.label == params.label
            &&& s.tasks@.len() == params.tasks@.len()
            &&& forall|i: int|
                0 <= i < s.tasks@.len() ==> trimmed_task(#[trigger] s.tasks@[i], params.tasks@[i])
        },
{
    if params.tasks.len() == 0 {
        proof {
            reveal_strlit("tasks");
            reveal_strlit(" cannot be empty");
            reveal_strlit("tasks cannot be empty");
            assert("tasks"@ + " cannot be empty"@ == "tasks cannot be empty"@);
        }
        return Err(RpcError::new("invalid_params", "tasks cannot be empty"));
    }
    let mut tasks: Vec<DelegatedTask> = Vec::new();
    let mut i: usize = 0;
    while i < params.tasks.len()
        invariant
            i <= params.tasks.len(),
            params.tasks@.len() > 0,
            tasks@.len() == i,
            first_blank_field(params.tasks@.take(i as int)) is None,
            forall|j: int|
                0 <= j < i ==> trimmed_task(#[trigger] tasks@[j], params.tasks@[j]),
        decreases params.tasks.len() - i,
    {
        match read_task(params.tasks[i].role.as_str(), params.tasks[i].prompt.as_str()) {
            Ok(task) => {
                assert(params.tasks@.take(i + 1).drop_last() == params.tasks@.take(i as int));
                tasks.push(task);
            },
            Err(e) => {
                proof {
                    lemma_first_blank_field(params.tasks@, i as int);
                }
                return Err(e);
            },
        }
        i += 1;
    }
    assert(params.tasks@.take(i as int) == params.tasks@);
    Ok(
        DelegationStart {
            kind: DelegationKind::ReadonlyFanout,
            workflow: params.workflow,
            label: params.label,
            tasks,
        },
    )
}

/// One subagent to be spawned.
#[derive(Debug, PartialEq, Eq)]
pub struct DelegationSubagentSpawn {
    pub parent_session_id: String,
    pub role: String,
    pub task: String,
    pub subagent_type: SubagentType,
    pub delegation_id: String,
}

/// A created delegation whose subagents are being spawned, one task after the
/// other.
#[derive(Debug, PartialEq, Eq)]
pub struct SpawningDelegation {
    pub parent_session_id: String,
    pub delegation_id: String,
    pub start: DelegationStart,
    pub spawned: Vec<String>,
}

/// The type of every subagent of such a delegation.
pub open spec fn member_type(kind: DelegationKind) -> SubagentType {
    match kind {
        DelegationKind::Full => SubagentType::Full,
        DelegationKind::ReadonlyFanout => SubagentType::ReadOnly,
    }
}

/// The spawn of the delegation's task number `i`.
pub open spec fn spawn_of(s: DelegationSubagentSpawn, d: SpawningDelegation, i: int) -> bool {
    &&& s.parent_session_id@ == d.parent_session_id@
    &&& s.role@ == d.start.tasks@[i].role@
    &&& s.task@ == d.start.tasks@[i].prompt@
    &&& s.subagent_type == member_type(d.start.kind)
    &&& s.delegation_id@ == d.delegation_id@
}

pub open spec fn started_view(d: SpawningDelegation) -> JsonView {
    let head = json::no_entries().insert("delegation_id"@, JsonView::Text(d.delegation_id@));
    JsonView::Object(
        match d.start.kind {
            DelegationKind::Full => head.insert(
                "subagent_session_id"@,
                JsonView::Text(d.spawned@[0]@),
            ),
            DelegationKind::ReadonlyFanout => head.insert(
                "subagent_session_ids"@,
                JsonView::List(d.spawned@.map_values(|s: String| JsonView::Text(s@))),
            ),
        },
    )
}

/// What a failed spawn leaves to be done: the delegation is moved to this
/// status and its subagents are cancelled, and the error is reported.
#[derive(Debug, PartialEq, Eq)]
pub struct SpawnCompensation {
    pub delegation_id: String,
    pub status: DelegationStatus,
    pub error: RpcError,
}

impl DelegationStart {
    /// How many subagents the delegation row expects.
    pub fn expected_subagents(&self) -> (r: i32)
        requires
            self.tasks@.len() <= i32::MAX,
        ensures
            r == self.tasks@.len(),
    {
        self.tasks.len() as i32
    }

    pub fn created(self, parent_session_id: &str, delegation_id: &str) -> (r: SpawningDelegation)
        ensures
            r.parent_session_id@ == parent_session_id@,
            r.delegation_id@ == delegation_id@,
            r.start == self,
            r.spawned@.len() == 0,
    {
        SpawningDelegation {
            parent_session_id: parent_session_id.to_owned(),
            delegation_id: delegation_id.to_owned(),
            start: self,
            spawned: Vec::new(),
        }
    }
}

impl SpawningDelegation {
    /// The next subagent to spawn; none when every task has one.
    pub fn next_spawn(&self) -> (r: Option<DelegationSubagentSpawn>)
        ensures
            r is Some <==> self.spawned@.len() < self.start.tasks@.len(),
            r matches Some(s) ==> spawn_of(s, *self, self.spawned@.len() as int),
    {
        let i: usize = self.spawned.len();
        if i >= self.start.tasks.len() {
            return None;
        }
        let subagent_type = match self.start.kind {
            DelegationKind::Full => SubagentType::Full,
            DelegationKind::ReadonlyFanout => SubagentType::ReadOnly,
        };
        Some(
            DelegationSubagentSpawn {
                parent_session_id: self.parent_session_id.clone(),
                role: self.start.tasks[i].role.clone(),
                task: self.start.tasks[i].prompt.clone(),
                subagent_type,
                delegation_id: self.delegation_id.clone(),
            },
        )
    }

    /// Notes the session that the last spawn started.
    pub fn record(&mut self, session_id: String)
        ensures
            final(self).spawned@ == old(self).spawned@.push(session_id),
            final(self).parent_session_id == old(self).parent_session_id,
            final(self).delegation_id == old(self).delegation_id,
            final(self).start == old(self).start,
    {
        self.spawned.push(session_id);
    }

    /// A spawn failed: the delegation fails as a whole, so that a partial one
    /// neither keeps running nor blocks the parent.
    pub fn failed(self, error: RpcError) -> (r: SpawnCompensation)
        ensures
            r.delegation_id == self.delegation_id,
            r.status is Failed,
            r.error == error,
    {
        SpawnCompensation {
            delegation_id: self.delegation_id,
            status: DelegationStatus::Failed,
            error,
        }
    }

    /// The answer once every task has its subagent.
    pub fn answer(&self) -> (r: Json)
        requires
            self.start.wf(),
            self.spawned@.len() == self.start.tasks@.len(),
        ensures
            r@ == started_view(*self),
    {
        let head = JsonObject::new().with("delegation_id", Json::text(self.delegation_id.as_str()));
        match self.start.kind {
            DelegationKind::Full => Json::Object(
                head.with("subagent_session_id", Json::text(self.spawned[0].as_str())),
            ),
            DelegationKind::ReadonlyFanout => {
                let mut ids: Vec<Json> = Vec::new();
                let mut i: usize = 0;
                while i < self.spawned.len()
                    invariant
                        i <= self.spawned.len(),
                        ids@.len() == i,
                        forall|j: int|
                            0 <= j < i ==> (#[trigger] ids@[j])@ == JsonView::Text(
                                self.spawned@[j]@,
                            ),
                    decreases self.spawned.len() - i,
                {
                    ids.push(Json::text(self.spawned[i].as_str()));
                    i += 1;
                }
                proof {
                    json::lemma_list_view(ids@);
                    assert(json::list_view(ids@) == self.spawned@.map_values(
                        |s: String| JsonView::Text(s@),
                    ));
                }
                Json::Object(head.with("subagent_session_ids", Json::List(ids)))
            },
        }
    }
}

/// A delegation is homogeneous: every spawn of a fan-out is read-only, and a
/// full delegation spawns exactly one full subagent.
pub proof fn law_delegations_are_homogeneous(
    d: SpawningDelegation,
    s: DelegationSubagentSpawn,
    i: int,
)
    requires
        d.start.wf(),
        0 <= i < d.start.tasks@.len(),
        spawn_of(s, d, i),
    ensures
        d.start.kind is ReadonlyFanout <==> s.subagent_type is ReadOnly,
        d.start.kind is Full ==> i == 0 && d.start.tasks@.len() == 1,
{
}

// ---------------------------------------------------------------------------
// Cancelling a delegation

/// The answer when nothing was cancelled.
pub open spec fn not_cancelled_view() -> JsonView {
    JsonView::Object(json::no_entries().insert("cancelled"@, JsonView::Bool(false)))
}

/// A running delegation whose attempt is to be moved to cancelled.
#[derive(Debug, PartialEq, Eq)]
pub struct CancelClaim {
    delegation: Delegation,
}

/// A delegation that this request cancelled: its subagents are torn down and
/// their transcripts kept. Only a claim that was won makes one.
#[derive(Debug, PartialEq, Eq)]
pub struct WonCancel {
    delegation: Delegation,
}

/// What a cancel request comes to before its compare-and-set.
#[derive(Debug, PartialEq, Eq)]
pub enum CancelStep {
    /// The delegation keeps its status; this is the answer.
    Unchanged(Json),
    Claim(CancelClaim),
}

/// What a cancel request comes to after its compare-and-set.
#[derive(Debug, PartialEq, Eq)]
pub enum CancelOutcome {
    /// Another request or the completion was first; this is the answer.
    Unchanged(Json),
    Won(WonCancel),
}

fn not_cancelled() -> (r: Json)
    ensures
        r@ == not_cancelled_view(),
{
    Json::Object(JsonObject::new().with("cancelled", Json::Bool(false)))
}

/// Only an in-flight delegation can be cancelled; a terminal one keeps its
/// status.
pub fn cancel_requested(delegation: Delegation) -> (r: CancelStep)
    ensures
        delegation.status is Running ==> (r matches CancelStep::Claim(c) && c.of() == delegation),
        !(delegation.status is Running) ==> (r matches CancelStep::Unchanged(a) && a@
            == not_cancelled_view()),
{
    match delegation.status {
        DelegationStatus::Running => CancelStep::Claim(CancelClaim { delegation }),
        _ => CancelStep::Unchanged(not_cancelled()),
    }
}

impl CancelClaim {
    #[verifier::type_invariant]
    spec fn claims_a_running_one(self) -> bool {
        self.delegation.status is Running
    }

    /// The delegation that is claimed.
    pub closed spec fn of(self) -> Delegation {
        self.delegation
    }

    pub fn delegation(&self) -> (r: &Delegation)
        ensures
            *r == self.of(),
            r.status is Running,
    {
        proof {
            use_type_invariant(self);
        }
        &self.delegation
    }

    /// Only the request that wins the compare-and-set goes on; the loser leaves
    /// everything as it is.
    pub fn cancel_claimed(self, won: bool) -> (r: CancelOutcome)
        ensures
            won ==> (r matches CancelOutcome::Won(w) && w.of() == self.of()),
            !won ==> (r matches CancelOutcome::Unchanged(a) && a@ == not_cancelled_view()),
    {
        proof {
            use_type_invariant(&self);
        }
        if won {
            CancelOutcome::Won(WonCancel { delegation: self.delegation })
        } else {
            CancelOutcome::Unchanged(not_cancelled())
        }
    }
}

impl WonCancel {
    #[verifier::type_invariant]
    spec fn was_running(self) -> bool {
        self.delegation.status is Running
    }

    /// The delegation as it was when it was claimed.
    pub closed spec fn of(self) -> Delegation {
        self.delegation
    }

    pub fn delegation(&self) -> (r: &Delegation)
        ensures
            *r == self.of(),
            r.status is Running,
    {
        proof {
            use_type_invariant(self);
        }
        &self.delegation
    }
}

/// How a subagent of a cancelled delegation is stopped. Nothing is driven
/// afterwards, so that queued inputs cannot bring it back.
#[derive(Clone, Copy, Debug, PartialEq, Eq)]
pub struct SubagentCancellation {
    /// Interrupt the live session, to keep a turn boundary.
    pub interrupt_live: bool,
    /// Cancel the stored work of a session that is not live.
    pub cancel_stored: bool,
    /// Destroy the disposable workspace.
    pub destroy_workspaces: bool,
}

pub fn cancel_subagent_without_reactivation(live: bool, subagent_type: Option<SubagentType>) -> (r:
    SubagentCancellation)
    ensures
        r.interrupt_live == live,
        r.cancel_stored == !live,
        r.destroy_workspaces == (subagent_type == Some(SubagentType::ReadOnly)),
{
    let destroy_workspaces = match subagent_type {
        Some(SubagentType::ReadOnly) => true,
        _ => false,
    };
    SubagentCancellation { interrupt_live: live, cancel_stored: !live, destroy_workspaces }
}

/// A subagent of a cancelled delegation with its transcript.
#[derive(Debug, PartialEq, Eq)]
pub struct CancelledMember {
    pub session_id: String,
    pub history: HistoryTree,
}

/// The transcripts that a cancellation keeps: files with their absolute paths,
/// the references to report, and the refusal that ended the work early.
#[derive(Debug, PartialEq, Eq)]
pub struct CancelledTranscripts {
    pub handoff_dir: String,
    pub writes: Vec<WorkspaceWrite>,
    pub subagents: Vec<Json>,
    pub refused: Option<RpcError>,
}

/// Path and content of one kept transcript.
pub open spec fn kept_transcript(handoff_dir: Seq<char>, m: CancelledMember) -> (
    Seq<char>,
    Seq<char>,
) {
    (
        paths::joined(
            paths::joined(handoff_dir, "cancelled"@),
            text::trimmed(m.session_id@) + ".transcript.md"@,
        ),
        handoff::transcript_markdown(m.history.entries@),
    )
}

pub open spec fn kept_reference(m: CancelledMember) -> JsonView {
    JsonView::Object(
        json::no_entries().insert("subagent_id"@, JsonView::Text(m.session_id@)).insert(
            "transcript_file"@,
            JsonView::Text("cancelled/"@ + text::trimmed(m.session_id@) + ".transcript.md"@),
        ),
    )
}

/// The first `n` members all have ids that are plain names, and the next has
/// none.
pub open spec fn safe_prefix(members: Seq<CancelledMember>, n: int) -> bool {
    &&& 0 <= n <= members.len()
    &&& forall|i: int|
        0 <= i < n ==> handoff::safe_segment((#[trigger] members[i]).session_id@)
    &&& n < members.len() ==> !handoff::safe_segment(members[n].session_id@)
}

/// The transcripts to keep of a delegation that was cancelled, up to the first
/// subagent whose id is no plain name. A request that lost its claim has nothing
/// to call this with.
pub fn write_cancelled_subagent_transcripts(
    won: &WonCancel,
    workspace: &str,
    members: &Vec<CancelledMember>,
) -> (r: CancelledTranscripts)
    ensures
        won.of().status is Running,
        r.writes@.len() == r.subagents@.len(),
        !handoff::safe_segment(won.of().id@) ==> {
            &&& r.writes@.len() == 0
            &&& r.refused matches Some(e) && e@ == handoff::segment_error("delegation_id"@)
        },
        handoff::safe_segment(won.of().id@) ==> {
            let n = r.writes@.len() as int;
            &&& r.handoff_dir@ == paths::joined(
                workspace@,
                handoff::delegation_dir_of(text::trimmed(won.of().id@)),
            )
            &&& safe_prefix(members@, n)
            &&& forall|i: int|
                0 <= i < n ==> (#[trigger] r.writes@[i].path@, r.writes@[i].content@)
                    == kept_transcript(r.handoff_dir@, members@[i])
            &&& forall|i: int|
                0 <= i < n ==> (#[trigger] r.subagents@[i])@ == kept_reference(members@[i])
            &&& r.refused is Some <==> n < members@.len()
            &&& r.refused matches Some(e) ==> e@ == handoff::segment_error("subagent_id"@)
        },
{
    let delegation = won.delegation();
    let mut writes: Vec<WorkspaceWrite> = Vec::new();
    let mut subagents: Vec<Json> = Vec::new();
    let segment = match safe_handoff_path_segment(delegation.id.as_str(), "delegation_id") {
        Ok(segment) => segment,
        Err(e) => {
            return CancelledTranscripts {
                handoff_dir: String::new(),
                writes,
                subagents,
                refused: Some(e),
            };
        },
    };
    let handoff_dir = delegation_path(workspace, segment.as_str());
    let dir = join(handoff_dir.as_str(), "cancelled");
    let mut i: usize = 0;
    while i < members.len()
        invariant
            i <= members.len(),
            writes@.len() == i,
            subagents@.len() == i,
            handoff::safe_segment(delegation.id@),
            *delegation == won.of(),
            delegation.status is Running,
            handoff_dir@ == paths::joined(
                workspace@,
                handoff::delegation_dir_of(text::trimmed(delegation.id@)),
            ),
            dir@ == paths::joined(handoff_dir@, "cancelled"@),
            forall|j: int|
                0 <= j < i ==> handoff::safe_segment((#[trigger] members@[j]).session_id@),
            forall|j: int|
                0 <= j < i ==> (#[trigger] writes@[j].path@, writes@[j].content@)
                    == kept_transcript(handoff_dir@, members@[j]),
            forall|j: int|
                0 <= j < i ==> (#[trigger] subagents@[j])@ == kept_reference(members@[j]),
        decreases members.len() - i,
    {
        let name = match safe_handoff_path_segment(members[i].session_id.as_str(), "subagent_id") {
            Ok(name) => name,
            Err(e) => {
                return CancelledTranscripts { handoff_dir, writes, subagents, refused: Some(e) };
            },
        };
        let content = render_transcript_markdown(&members[i].history);
        let file = name.clone().concat(".transcript.md");
        let path = join(dir.as_str(), file.as_str());
        writes.push(WorkspaceWrite { path, content });
        let transcript_file = cancelled_transcript_rel(name.as_str());
        subagents.push(
            Json::Object(
                JsonObject::new().with("subagent_id", Json::text(members[i].session_id.as_str())).with(
                    "transcript_file",
                    Json::Text(transcript_file),
                ),
            ),
        );
        i += 1;
    }
    CancelledTranscripts { handoff_dir, writes, subagents, refused: None }
}

pub open spec fn cancelled_view(
    delegation_id: Seq<char>,
    handoff_dir: Seq<char>,
    subagents: Seq<JsonView>,
) -> JsonView {
    JsonView::Object(
        json::no_entries().insert("cancelled"@, JsonView::Bool(true)).insert(
            "delegation_id"@,
            JsonView::Text(delegation_id),
        ).insert("handoff_dir"@, JsonView::Text(handoff_dir)).insert(
            "subagents"@,
            JsonView::List(subagents),
        ),
    )
}

/// The answer of the request that cancelled the delegation.
pub fn cancelled_answer(won: &WonCancel, kept: CancelledTranscripts) -> (r: Result<
    Json,
    RpcError,
>)
    ensures
        match kept.refused {
            Some(e) => r == Err::<Json, RpcError>(e),
            None => r matches Ok(a) && a@ == cancelled_view(
                won.of().id@,
                kept.handoff_dir@,
                json::list_view(kept.subagents@),
            ),
        },
{
    match kept.refused {
        Some(e) => Err(e),
        None => Ok(
            Json::Object(
                JsonObject::new().with("cancelled", Json::Bool(true)).with(
                    "delegation_id",
                    Json::text(won.delegation.id.as_str()),
                ).with("handoff_dir", Json::Text(kept.handoff_dir)).with(
                    "subagents",
                    Json::List(kept.subagents),
                ),
            ),
        ),
    }
}

// ---------------------------------------------------------------------------
// The model's tools

/// The delegation tools of the model.
#[derive(Clone, Copy, Debug, PartialEq, Eq, Structural)]
pub enum DelegationTool {
    DelegateWritingTask,
    DelegateReadonlyTasks,
    InspectDelegation,
    CancelDelegation,
    SteerSubagent,
    InterruptSubagent,
}

impl DelegationTool {
    pub open spec fn name(self) -> Seq<char> {
        match self {
            DelegationTool::DelegateWritingTask => "delegate_writing_task"@,
            DelegationTool::DelegateReadonlyTasks => "delegate_readonly_tasks"@,
            DelegationTool::InspectDelegation => "inspect_delegation"@,
            DelegationTool::CancelDelegation => "cancel_delegation"@,
            DelegationTool::SteerSubagent => "steer_subagent"@,
            DelegationTool::InterruptSubagent => "interrupt_subagent"@,
        }
    }

    pub fn from_name(name: &str) -> (r: Option<DelegationTool>)
        ensures
            r matches Some(tool) ==> tool.name() == name@,
            r is Some <==> names_a_tool(name@),
    {
        if same(name, "delegate_writing_task") {
            Some(DelegationTool::DelegateWritingTask)
        } else if same(name, "delegate_readonly_tasks") {
            Some(DelegationTool::DelegateReadonlyTasks)
        } else if same(name, "inspect_delegation") {
            Some(DelegationTool::InspectDelegation)
        } else if same(name, "cancel_delegation") {
            Some(DelegationTool::CancelDelegation)
        } else if same(name, "steer_subagent") {
            Some(DelegationTool::SteerSubagent)
        } else if same(name, "interrupt_subagent") {
            Some(DelegationTool::InterruptSubagent)
        } else {
            None
        }
    }
}

/// The name is one of the delegation tools'.
pub open spec fn names_a_tool(name: Seq<char>) -> bool {
    ||| name == "delegate_writing_task"@
    ||| name == "delegate_readonly_tasks"@
    ||| name == "inspect_delegation"@
    ||| name == "cancel_delegation"@
    ||| name == "steer_subagent"@
    ||| name == "interrupt_subagent"@
}

pub fn is_delegation_tool_name(name: &str) -> (r: bool)
    ensures
        r == names_a_tool(name@),
{
    DelegationTool::from_name(name).is_some()
}

/// No two tools share a name.
pub proof fn law_tool_names_are_distinct(a: DelegationTool, b: DelegationTool)
    ensures
        a.name() == b.name() <==> a == b,
        names_a_tool(a.name()),
{
    reveal_strlit("delegate_writing_task");
    reveal_strlit("delegate_readonly_tasks");
    reveal_strlit("inspect_delegation");
    reveal_strlit("cancel_delegation");
    reveal_strlit("steer_subagent");
    reveal_strlit("interrupt_subagent");
    assert("delegate_writing_task"@.len() == 21);
    assert("delegate_readonly_tasks"@.len() == 23);
    assert("inspect_delegation"@.len() == 18);
    assert("cancel_delegation"@.len() == 17);
    assert("steer_subagent"@.len() == 14);
    assert("interrupt_subagent"@.len() == 18);
    assert("inspect_delegation"@[2] == 's');
    assert("interrupt_subagent"@[2] == 't');
}

/// A tool call that is ready to be run.
#[derive(Debug, PartialEq, Eq)]
pub struct PreparedToolCall {
    pub tool: DelegationTool,
    pub params: Json,
}

/// The tool takes a control id, which the daemon supplies.
pub open spec fn takes_control_id(name: Seq<char>) -> bool {
    name == "steer_subagent"@ || name == "interrupt_subagent"@
}

/// The arguments with the control id of this call in place of any that the
/// model supplied.
pub open spec fn with_control_id(
    params: Map<Seq<char>, JsonView>,
    call_id: Seq<char>,
) -> JsonView {
    JsonView::Object(
        params.insert("client_control_id"@, JsonView::Text("tool-call:"@ + call_id)),
    )
}

/// Why a tool call is answered with an error before it runs.
pub open spec fn tool_call_refusal(
    call: ToolCall,
    subagent_type: Option<SubagentType>,
) -> Option<Seq<char>> {
    if subagent_type is Some {
        Some(types::error_line(subagent_refusal()))
    } else {
        match interop::parsed_json(call.args_json@) {
            Err(error) => Some(call.tool_name@ + " arguments were invalid JSON: "@ + error),
            Ok(params) => if takes_control_id(call.tool_name@) && !(params is Object) {
                Some(call.tool_name@ + " arguments must be a JSON object"@)
            } else if !names_a_tool(call.tool_name@) {
                Some(
                    types::error_line(
                        ("unknown_tool"@, "unknown delegation tool: "@ + call.tool_name@),
                    ),
                )
            } else {
                None
            },
        }
    }
}

/// The arguments that the tool is run with.
pub open spec fn tool_call_params(call: ToolCall) -> JsonView {
    let params = interop::parsed_json(call.args_json@)->Ok_0;
    if takes_control_id(call.tool_name@) {
        with_control_id(params->Object_0, call.id@)
    } else {
        params
    }
}

/// Reads a call of a delegation tool. Retries keep the call's id, so the
/// control id is always the daemon's own.
pub fn prepare_delegation_tool(call: &ToolCall, subagent_type: Option<SubagentType>) -> (r: Result<
    PreparedToolCall,
    ToolResultMessage,
>)
    ensures
        r is Ok <==> tool_call_refusal(*call, subagent_type) is None,
        r matches Err(m) ==> transcript::answers(
            m,
            *call,
            tool_call_refusal(*call, subagent_type)->0,
            ToolResultStatus::Error,
        ),
        r matches Ok(p) ==> p.tool.name() == call.tool_name@ && p.params@ == tool_call_params(
            *call,
        ),
{
    match reject_if_subagent(subagent_type) {
        Ok(_) => {},
        Err(e) => {
            return Err(ToolResultMessage::error(call, e.line()));
        },
    }
    let parsed = match parse_json(call.args_json.as_str()) {
        Ok(parsed) => parsed,
        Err(error) => {
            let output = call.tool_name.clone().concat(" arguments were invalid JSON: ").concat(
                error.as_str(),
            );
            return Err(ToolResultMessage::error(call, output));
        },
    };
    let name = call.tool_name.as_str();
    let params = if same(name, "steer_subagent") || same(name, "interrupt_subagent") {
        match parsed {
            Json::Object(mut object) => {
                let id = "tool-call:".to_owned().concat(call.id.as_str());
                object.insert("client_control_id", Json::Text(id));
                Json::Object(object)
            },
            _ => {
                let output = call.tool_name.clone().concat(" arguments must be a JSON object");
                return Err(ToolResultMessage::error(call, output));
            },
        }
    } else {
        parsed
    };
    match DelegationTool::from_name(name) {
        Some(tool) => Ok(PreparedToolCall { tool, params }),
        None => {
            let error = RpcError::with_message(
                "unknown_tool",
                "unknown delegation tool: ".to_owned().concat(name),
            );
            Err(ToolResultMessage::error(call, error.line()))
        },
    }
}

/// Wraps what a tool came to as its result: indented JSON, or the error on one
/// line.
pub fn finish_delegation_tool(call: &ToolCall, result: Result<Json, RpcError>) -> (r:
    ToolResultMessage)
    ensures
        match result {
            Ok(value) => transcript::answers(
                r,
                *call,
                interop::pretty_text(value@),
                ToolResultStatus::Success,
            ),
            Err(e) => transcript::answers(
                r,
                *call,
                types::error_line(e@),
                ToolResultStatus::Error,
            ),
        },
{
    match result {
        Ok(value) => ToolResultMessage::success(call, pretty_json(&value)),
        Err(e) => ToolResultMessage::error(call, e.line()),
    }
}

// ---------------------------------------------------------------------------
// Laws

/// A subagent has work exactly while an action is unfinished, an input is queued
/// or its runtime is live, each by itself; it is terminal exactly when none of
/// these holds and it is at a turn boundary.
pub proof fn law_work_states(w: SubagentWorkState)
    ensures
        w.has_unfinished_actions ==> w.active() && !w.terminal(),
        w.has_queued_inputs ==> w.active() && !w.terminal(),
        w.has_active_runtime ==> w.active() && !w.terminal(),
        !w.active_leaf_is_turn_boundary ==> !w.terminal(),
        !w.has_unfinished_actions && !w.has_queued_inputs && !w.has_active_runtime ==> !w.active()
            && (w.terminal() <==> w.active_leaf_is_turn_boundary),
{
}

/// A parent is given a delegation exactly when the row is there and names that
/// parent; a missing row and a foreign one are refused under the same code.
pub proof fn law_parents_see_their_own(row: Option<Delegation>, parent_session_id: Seq<char>)
    ensures
        belongs_to(row, parent_session_id) <==> row is Some && row->0.parent_session_id@
            == parent_session_id,
        delegation_refusal(row).0 == "delegation_not_found"@,
        row is None ==> delegation_refusal(row).1 == "delegation not found"@,
        row is Some ==> delegation_refusal(row).1 == "delegation is not in scope"@,
{
}

/// A blank field is refused by its name.
pub proof fn law_blank_fields_are_named(field: Seq<char>)
    ensures
        empty_field_error(field).0 == "invalid_params"@,
        empty_field_error(field).1 == field + " cannot be empty"@,
{
}

/// A start is refused for the first task that has a blank role or a blank
/// prompt, and there for the role before the prompt; it is accepted exactly when
/// every task has both.
pub proof fn law_first_blank_task_refuses(tasks: Seq<DelegatedTask>, i: int)
    ensures
        0 <= i < tasks.len() && (forall|j: int|
            0 <= j < i ==> text::trimmed((#[trigger] tasks[j]).role@).len() > 0 && text::trimmed(
                tasks[j].prompt@,
            ).len() > 0) && text::trimmed(tasks[i].role@).len() == 0 ==> first_blank_field(tasks)
            == Some("role"@),
        0 <= i < tasks.len() && (forall|j: int|
            0 <= j < i ==> text::trimmed((#[trigger] tasks[j]).role@).len() > 0 && text::trimmed(
                tasks[j].prompt@,
            ).len() > 0) && text::trimmed(tasks[i].role@).len() > 0 && text::trimmed(
            tasks[i].prompt@,
        ).len() == 0 ==> first_blank_field(tasks) == Some("prompt"@),
        first_blank_field(tasks) is None <==> forall|j: int|
            0 <= j < tasks.len() ==> text::trimmed((#[trigger] tasks[j]).role@).len() > 0
                && text::trimmed(tasks[j].prompt@).len() > 0,
    decreases tasks.len(),
{
    if tasks.len() > 0 {
        let head = tasks.drop_last();
        law_first_blank_task_refuses(head, i);
        assert forall|j: int| 0 <= j < head.len() implies #[trigger] head[j] == tasks[j] by {
        }
        if first_blank_field(head) is None && blank_task_field(tasks.last()) is None {
            assert forall|j: int| 0 <= j < tasks.len() implies text::trimmed(
                (#[trigger] tasks[j]).role@,
            ).len() > 0 && text::trimmed(tasks[j].prompt@).len() > 0 by {
                if j < head.len() {
                    assert(head[j] == tasks[j]);
                }
            }
        }
        if forall|j: int|
            0 <= j < tasks.len() ==> text::trimmed((#[trigger] tasks[j]).role@).len() > 0
                && text::trimmed(tasks[j].prompt@).len() > 0 {
            assert(tasks[tasks.len() - 1] == tasks.last());
        }
        if 0 <= i && i == tasks.len() - 1 && (forall|j: int|
            0 <= j < i ==> text::trimmed((#[trigger] tasks[j]).role@).len() > 0 && text::trimmed(
                tasks[j].prompt@,
            ).len() > 0) {
            assert(first_blank_field(head) is None);
        }
    }
}

/// The subagent of a task is spawned for that task: with its role and its prompt,
/// under the parent and the delegation, as a writing subagent in a full
/// delegation and as a read-only one in a fan-out.
pub proof fn law_spawns_carry_their_task(
    s: DelegationSubagentSpawn,
    d: SpawningDelegation,
    i: int,
)
    requires
        spawn_of(s, d, i),
        0 <= i < d.start.tasks@.len(),
    ensures
        s.role@ == d.start.tasks@[i].role@,
        s.task@ == d.start.tasks@[i].prompt@,
        s.parent_session_id@ == d.parent_session_id@,
        s.delegation_id@ == d.delegation_id@,
        d.start.kind is Full ==> s.subagent_type is Full,
        d.start.kind is ReadonlyFanout ==> s.subagent_type is ReadOnly,
{
}

/// The answer of a start names the delegation and every session that was
/// spawned, in the order of the tasks.
pub proof fn law_starts_are_answered_in_order(d: SpawningDelegation, i: int)
    requires
        0 <= i < d.spawned@.len(),
    ensures
        ({
            let answer = started_view(d);
            &&& json::get_view(answer, "delegation_id"@) == Some(JsonView::Text(d.delegation_id@))
            &&& d.start.kind is Full ==> {
                &&& json::get_view(answer, "subagent_session_id"@) == Some(
                    JsonView::Text(d.spawned@[0]@),
                )
                &&& json::get_view(answer, "subagent_session_ids"@) is None
            }
            &&& d.start.kind is ReadonlyFanout ==> {
                let ids = json::get_view(answer, "subagent_session_ids"@);
                &&& ids matches Some(JsonView::List(ids)) && ids.len() == d.spawned@.len()
                    && ids[i] == JsonView::Text(d.spawned@[i]@)
                &&& json::get_view(answer, "subagent_session_id"@) is None
            }
        }),
{
    reveal_strlit("delegation_id");
    reveal_strlit("subagent_session_id");
    reveal_strlit("subagent_session_ids");
    assert("delegation_id"@.len() == 13);
    assert("subagent_session_id"@.len() == 19);
    assert("subagent_session_ids"@.len() == 20);
}

/// A cancelled delegation is answered as cancelled, with its id, its directory
/// and the kept transcripts; one that was not, with that alone.
pub proof fn law_cancellations_are_answered(
    delegation_id: Seq<char>,
    handoff_dir: Seq<char>,
    subagents: Seq<JsonView>,
)
    ensures
        ({
            let answer = cancelled_view(delegation_id, handoff_dir, subagents);
            &&& json::get_view(answer, "cancelled"@) == Some(JsonView::Bool(true))
            &&& json::get_view(answer, "delegation_id"@) == Some(JsonView::Text(delegation_id))
            &&& json::get_view(answer, "handoff_dir"@) == Some(JsonView::Text(handoff_dir))
            &&& json::get_view(answer, "subagents"@) == Some(JsonView::List(subagents))
            &&& json::get_view(not_cancelled_view(), "cancelled"@) == Some(JsonView::Bool(false))
            &&& json::get_view(not_cancelled_view(), "delegation_id"@) is None
        }),
{
    reveal_strlit("cancelled");
    reveal_strlit("delegation_id");
    reveal_strlit("handoff_dir");
    reveal_strlit("subagents");
    assert("cancelled"@.len() == 9);
    assert("cancelled"@[0] == 'c');
    assert("delegation_id"@.len() == 13);
    assert("handoff_dir"@.len() == 11);
    assert("subagents"@.len() == 9);
    assert("subagents"@[0] == 's');
}

/// The kept transcript of a subagent is the rendering of its own history, and is
/// written where the reference to it says.
pub proof fn law_kept_transcripts_match_their_references(
    handoff_dir: Seq<char>,
    m: CancelledMember,
)
    requires
        handoff::safe_segment(m.session_id@),
    ensures
        ({
            let file = "cancelled/"@ + text::trimmed(m.session_id@) + ".transcript.md"@;
            let (path, content) = kept_transcript(handoff_dir, m);
            &&& content == handoff::transcript_markdown(m.history.entries@)
            &&& handoff_dir.len() > 0 && handoff_dir.last() != '/' ==> path == handoff_dir + "/"@
                + file
            &&& json::get_view(kept_reference(m), "subagent_id"@) == Some(
                JsonView::Text(m.session_id@),
            )
            &&& json::get_view(kept_reference(m), "transcript_file"@) == Some(JsonView::Text(file))
        }),
{
    reveal_strlit("subagent_id");
    reveal_strlit("transcript_file");
    reveal_strlit("cancelled");
    reveal_strlit("cancelled/");
    reveal_strlit("/");
    assert("subagent_id"@.len() == 11);
    assert("transcript_file"@.len() == 15);
    let name = text::trimmed(m.session_id@) + ".transcript.md"@;
    assert(name[0] == text::trimmed(m.session_id@)[0]);
    assert(!text::trimmed(m.session_id@).contains('/'));
    assert(name[0] != '/');
    assert("cancelled"@ + "/"@ == "cancelled/"@);
    if handoff_dir.len() > 0 && handoff_dir.last() != '/' {
        let file = "cancelled/"@ + text::trimmed(m.session_id@) + ".transcript.md"@;
        let (path, content) = kept_transcript(handoff_dir, m);
        assert((handoff_dir + "/"@ + "cancelled"@).last() == 'd');
        assert(path == handoff_dir + "/"@ + "cancelled"@ + "/"@ + name);
        assert(path == handoff_dir + "/"@ + file);
    }
}

/// A tool call is refused in exactly these cases, the first that holds: the
/// caller is a subagent; the arguments are no JSON; a tool that takes a control
/// id got arguments that are no object; or the name is no delegation tool's.
pub proof fn law_tool_calls_are_refused_in_order(
    call: ToolCall,
    subagent_type: Option<SubagentType>,
)
    ensures
        ({
            let refusal = tool_call_refusal(call, subagent_type);
            let parsed = interop::parsed_json(call.args_json@);
            let controls = call.tool_name@ == "steer_subagent"@ || call.tool_name@
                == "interrupt_subagent"@;
            let known = controls || call.tool_name@ == "delegate_writing_task"@ || call.tool_name@
                == "delegate_readonly_tasks"@ || call.tool_name@ == "inspect_delegation"@
                || call.tool_name@ == "cancel_delegation"@;
            &&& subagent_type is Some ==> refusal == Some(
                "delegations_not_allowed_for_subagent"@ + ": "@
                    + "only the top-level session can run delegations; subagents cannot spawn subagents"@,
            )
            &&& subagent_type is None && parsed is Err ==> refusal == Some(
                call.tool_name@ + " arguments were invalid JSON: "@ + parsed->Err_0,
            )
            &&& subagent_type is None && parsed is Ok && controls && !(parsed->Ok_0 is Object)
                ==> refusal == Some(call.tool_name@ + " arguments must be a JSON object"@)
            &&& subagent_type is None && parsed is Ok && !known ==> refusal == Some(
                "unknown_tool"@ + ": "@ + ("unknown delegation tool: "@ + call.tool_name@),
            )
            &&& refusal is None <==> subagent_type is None && parsed is Ok && known && (controls
                ==> parsed->Ok_0 is Object)
        }),
{
}

/// A control call runs under the id of the call itself, whatever id the model
/// supplied, with its other arguments as they are; any other tool runs with
/// exactly the arguments that it was called with.
pub proof fn law_control_ids_are_the_calls_own(call: ToolCall, key: Seq<char>)
    requires
        interop::parsed_json(call.args_json@) is Ok,
    ensures
        ({
            let given = interop::parsed_json(call.args_json@)->Ok_0;
            let params = tool_call_params(call);
            let controls = call.tool_name@ == "steer_subagent"@ || call.tool_name@
                == "interrupt_subagent"@;
            &&& controls && given is Object ==> {
                &&& json::get_view(params, "client_control_id"@) == Some(
                    JsonView::Text("tool-call:"@ + call.id@),
                )
                &&& key != "client_control_id"@ ==> json::get_view(params, key) == json::get_view(
                    given,
                    key,
                )
            }
            &&& !controls ==> params == given
        }),
{
}

/// A cancellation keeps transcripts up to one point only: the first subagent
/// whose id is no plain name.
pub proof fn law_one_prefix_is_kept(members: Seq<CancelledMember>, n: int, k: int)
    requires
        safe_prefix(members, n),
        safe_prefix(members, k),
    ensures
        n == k,
        forall|i: int|
            0 <= i < n ==> handoff::safe_segment((#[trigger] members[i]).session_id@),
        n < members.len() ==> !handoff::safe_segment(members[n].session_id@),
{
    if n < k {
        assert(handoff::safe_segment(members[n].session_id@));
    }
    if k < n {
        assert(handoff::safe_segment(members[k].session_id@));
    }
}

/// A task is read with its own role and prompt, trimmed.
pub proof fn law_tasks_are_trimmed(r: DelegatedTask, task: DelegatedTask)
    requires
        trimmed_task(r, task),
    ensures
        r.role@ == text::trimmed(task.role@),
        r.prompt@ == text::trimmed(task.prompt@),
{
}

} // verus!
