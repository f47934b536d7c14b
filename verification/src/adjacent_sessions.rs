//! Adjacent sessions: visible top-level sessions that are spawned from another
//! session of the same project and work on their own.
use vstd::prelude::*;

use crate::config::ProviderConfig;
use crate::delegation_tools;
use crate::interop::{self, fresh_uuid};
use crate::json::{self, Json, JsonObject, JsonView};
use crate::records::{self, SessionActivity};
use crate::text::{self, same};
use crate::types::RpcError;

verus! {

pub const MAX_INITIAL_CONTEXT_BYTES: usize = 65536;

/// Where an adjacent session works: in fresh workspaces of the same project, or
/// in a fork of the source's current ones.
#[derive(Clone, Copy, Debug, PartialEq, Eq, Structural)]
pub enum AdjacentWorkspaceMode {
    SameProjectFresh,
    ForkCurrent,
}

/// What a relationship between two sessions is.
#[derive(Debug, PartialEq, Eq)]
pub enum SessionRelationshipKind {
    Related,
    RelatedFork,
    Other(String),
}

/// Whether the source controls the target.
#[derive(Debug, PartialEq, Eq)]
pub enum SessionRelationshipControlMode {
    NoControl,
    Other(String),
}

#[derive(Debug, PartialEq, Eq)]
pub enum SessionRelationshipVisibility {
    TopLevel,
    Other(String),
}

#[derive(Debug, PartialEq, Eq)]
pub enum SessionRelationshipStatus {
    Idle,
    Running,
    Completed,
    Other(String),
}

/// A stored relationship, as far as the rules read it.
#[derive(Debug, PartialEq, Eq)]
pub struct SessionRelationship {
    pub relationship_id: String,
    pub source_session_id: String,
    pub target_session_id: String,
    pub root_session_id: String,
    pub kind: SessionRelationshipKind,
    pub control_mode: SessionRelationshipControlMode,
    pub status: SessionRelationshipStatus,
}

impl AdjacentWorkspaceMode {
    pub open spec fn name(self) -> Seq<char> {
        match self {
            AdjacentWorkspaceMode::SameProjectFresh => "same_project_fresh"@,
            AdjacentWorkspaceMode::ForkCurrent => "fork_current"@,
        }
    }

    /// The mode that a request names; fresh workspaces where it names none.
    pub fn from_param(value: Option<String>) -> (r: Result<AdjacentWorkspaceMode, RpcError>)
        ensures
            ({
                let given = named_mode(records::opt_view(value));
                &&& r is Ok <==> given == "same_project_fresh"@ || given == "fork_current"@
                &&& r matches Ok(mode) ==> mode.name() == given
                &&& r matches Err(e) ==> e@ == mode_error(given)
            }),
    {
        let given = match &value {
            Some(v) => {
                let kept = v.as_str().trim();
                if kept.is_empty() {
                    "same_project_fresh"
                } else {
                    kept
                }
            },
            None => "same_project_fresh",
        };
        if same(given, "same_project_fresh") {
            Ok(AdjacentWorkspaceMode::SameProjectFresh)
        } else if same(given, "fork_current") {
            Ok(AdjacentWorkspaceMode::ForkCurrent)
        } else {
            Err(
                RpcError::with_message(
                    "invalid_params",
                    "workspace_mode must be `same_project_fresh` or `fork_current`, got `".to_owned().concat(
                        given,
                    ).concat("`"),
                ),
            )
        }
    }

    pub fn as_str(self) -> (r: &'static str)
        ensures
            r@ == self.name(),
    {
        match self {
            AdjacentWorkspaceMode::SameProjectFresh => "same_project_fresh",
            AdjacentWorkspaceMode::ForkCurrent => "fork_current",
        }
    }

    pub fn relationship_kind(self) -> (r: SessionRelationshipKind)
        ensures
            self is SameProjectFresh ==> r is Related,
            self is ForkCurrent ==> r is RelatedFork,
    {
        match self {
            AdjacentWorkspaceMode::SameProjectFresh => SessionRelationshipKind::Related,
            AdjacentWorkspaceMode::ForkCurrent => SessionRelationshipKind::RelatedFork,
        }
    }
}

/// The mode that a request names, without the white space around it.
pub open spec fn named_mode(value: Option<Seq<char>>) -> Seq<char> {
    match value {
        Some(v) => if text::trimmed(v).len() > 0 {
            text::trimmed(v)
        } else {
            "same_project_fresh"@
        },
        None => "same_project_fresh"@,
    }
}

pub open spec fn mode_error(given: Seq<char>) -> (Seq<char>, Seq<char>) {
    (
        "invalid_params"@,
        "workspace_mode must be `same_project_fresh` or `fork_current`, got `"@ + given + "`"@,
    )
}

/// A value without the white space around it; a blank one is refused.
pub fn validate_non_empty(value: String, field: &str) -> (r: Result<String, RpcError>)
    ensures
        r is Ok <==> text::trimmed(value@).len() > 0,
        r matches Ok(s) ==> s@ == text::trimmed(value@),
        r matches Err(e) ==> e@ == delegation_tools::empty_field_error(field@),
{
    delegation_tools::trim_required(value.as_str(), field)
}

// ---------------------------------------------------------------------------
// The request

#[derive(Debug, PartialEq, Eq)]
pub struct AdjacentSessionSpawnParams {
    pub source_session_id: String,
    pub session_id: Option<String>,
    pub task: String,
    pub initial_context: Option<String>,
    pub workspace_mode: Option<String>,
    pub display_name: Option<String>,
    pub provider: Option<ProviderConfig>,
    pub metadata: Option<Json>,
}

#[derive(Debug, PartialEq, Eq)]
pub struct AdjacentSessionSpawnRequest {
    pub source_session_id: String,
    pub session_id: Option<String>,
    pub task: String,
    pub initial_context: Option<String>,
    pub workspace_mode: AdjacentWorkspaceMode,
    pub display_name: Option<String>,
    pub provider: Option<ProviderConfig>,
    pub metadata: Json,
}

/// The text without the white space around it, where anything is left.
pub open spec fn filled(value: Option<Seq<char>>) -> Option<Seq<char>> {
    match value {
        Some(v) => if text::trimmed(v).len() > 0 {
            Some(text::trimmed(v))
        } else {
            None
        },
        None => None,
    }
}

fn keep_filled(value: Option<String>) -> (r: Option<String>)
    ensures
        records::opt_view(r) == filled(records::opt_view(value)),
{
    match value {
        Some(v) => {
            let kept = v.as_str().trim();
            if kept.is_empty() {
                None
            } else {
                Some(kept.to_owned())
            }
        },
        None => None,
    }
}

/// The length of a text in bytes.
pub open spec fn byte_length(s: Seq<char>) -> nat {
    vstd::utf8::encode_utf8(s).len()
}

/// Why a spawn request is refused.
pub open spec fn spawn_refusal(p: AdjacentSessionSpawnParams) -> Option<(Seq<char>, Seq<char>)> {
    let context = filled(records::opt_view(p.initial_context));
    let mode = named_mode(records::opt_view(p.workspace_mode));
    if text::trimmed(p.source_session_id@).len() == 0 {
        Some(delegation_tools::empty_field_error("source_session_id"@))
    } else if text::trimmed(p.task@).len() == 0 {
        Some(delegation_tools::empty_field_error("task"@))
    } else if context is Some && byte_length(context->0) > MAX_INITIAL_CONTEXT_BYTES {
        Some(("initial_context_too_large"@, "initial_context exceeds 65536 bytes"@))
    } else if mode != "same_project_fresh"@ && mode != "fork_current"@ {
        Some(mode_error(mode))
    } else {
        None
    }
}

impl AdjacentSessionSpawnRequest {
    pub fn from_params(params: AdjacentSessionSpawnParams) -> (r: Result<
        AdjacentSessionSpawnRequest,
        RpcError,
    >)
        ensures
            r is Ok <==> spawn_refusal(params) is None,
            r matches Err(e) ==> Some(e@) == spawn_refusal(params),
            r matches Ok(q) ==> {
                &&& q.source_session_id@ == text::trimmed(params.source_session_id@)
                &&& records::opt_view(q.session_id) == filled(records::opt_view(params.session_id))
                &&& q.task@ == text::trimmed(params.task@)
                &&& records::opt_view(q.initial_context) == filled(
                    records::opt_view(params.initial_context),
                )
                &&& q.workspace_mode.name() == named_mode(records::opt_view(params.workspace_mode))
                &&& q.display_name == params.display_name
                &&& q.provider == params.provider
                &&& q.metadata@ == (match params.metadata {
                    Some(m) => m@,
                    None => JsonView::Object(json::no_entries()),
                })
            },
    {
        let source_session_id = match validate_non_empty(
            params.source_session_id,
            "source_session_id",
        ) {
            Ok(id) => id,
            Err(e) => {
                return Err(e);
            },
        };
        let task = match validate_non_empty(params.task, "task") {
            Ok(task) => task,
            Err(e) => {
                return Err(e);
            },
        };
        let initial_context = keep_filled(params.initial_context);
        if let Some(context) = &initial_context {
            if context.as_str().as_bytes().len() > MAX_INITIAL_CONTEXT_BYTES {
                return Err(
                    RpcError::new(
                        "initial_context_too_large",
                        "initial_context exceeds 65536 bytes",
                    ),
                );
            }
        }
        let session_id = keep_filled(params.session_id);
        let workspace_mode = match AdjacentWorkspaceMode::from_param(params.workspace_mode) {
            Ok(mode) => mode,
            Err(e) => {
                return Err(e);
            },
        };
        let metadata = match params.metadata {
            Some(metadata) => metadata,
            None => Json::Object(JsonObject::new()),
        };
        Ok(
            AdjacentSessionSpawnRequest {
                source_session_id,
                session_id,
                task,
                initial_context,
                workspace_mode,
                display_name: params.display_name,
                provider: params.provider,
                metadata,
            },
        )
    }
}

// ---------------------------------------------------------------------------
// Relationships

pub open spec fn adjacent(relationship: SessionRelationship) -> bool {
    relationship.kind is Related || relationship.kind is RelatedFork
}

pub fn is_adjacent_relationship(relationship: &SessionRelationship) -> (r: bool)
    ensures
        r == adjacent(*relationship),
{
    match relationship.kind {
        SessionRelationshipKind::Related | SessionRelationshipKind::RelatedFork => true,
        SessionRelationshipKind::Other(_) => false,
    }
}

/// The adjacent ones among a session's relationships, in order.
pub fn adjacent_relationships(relationships: Vec<SessionRelationship>) -> (r: Vec<
    SessionRelationship,
>)
    ensures
        r@ == relationships@.filter(|x: SessionRelationship| adjacent(x)),
{
    let ghost all = relationships@;
    let ghost keep = |x: SessionRelationship| adjacent(x);
    let mut kept = relationships;
    let mut i: usize = 0;
    let ghost mut done: Seq<SessionRelationship> = Seq::empty();
    assert(all == done + kept@.skip(0));
    assert(done.filter(keep) =~= Seq::<SessionRelationship>::empty()) by {
        reveal(Seq::filter);
    }
    assert(kept@.take(0) =~= Seq::<SessionRelationship>::empty());
    while i < kept.len()
        invariant
            i <= kept.len(),
            keep == (|x: SessionRelationship| adjacent(x)),
            all == done + kept@.skip(i as int),
            kept@.take(i as int) == done.filter(keep),
        decreases kept.len() - i,
    {
        let ghost was = kept@;
        let ghost next = kept@[i as int];
        proof {
            assert(done.push(next).filter(keep) == (if keep(next) {
                done.filter(keep).push(next)
            } else {
                done.filter(keep)
            })) by {
                reveal(Seq::filter);
                assert(done.push(next).drop_last() == done);
            }
            assert(done + was.skip(i as int) == done.push(next) + was.skip(i + 1));
            done = done.push(next);
        }
        if is_adjacent_relationship(&kept[i]) {
            assert(was.take(i + 1) == was.take(i as int).push(next));
            i += 1;
        } else {
            kept.remove(i);
            assert(kept@.skip(i as int) == was.skip(i + 1));
            assert(kept@.take(i as int) == was.take(i as int));
        }
    }
    assert(done == all);
    assert(kept@.take(i as int) == kept@);
    kept
}

/// The relationship makes the target an adjacent session of the source.
pub open spec fn ties(relationship: Option<SessionRelationship>, source_session_id: Seq<char>) -> bool {
    relationship matches Some(r) && r.source_session_id@ == source_session_id
        && r.control_mode is NoControl && adjacent(r)
}

/// A session that exists may be answered again only where it is an adjacent
/// session of the same source.
pub fn require_adjacent_relationship(
    relationship: Option<SessionRelationship>,
    source_session_id: &str,
) -> (r: Result<SessionRelationship, RpcError>)
    ensures
        r is Ok <==> ties(relationship, source_session_id@),
        r matches Ok(rel) ==> relationship == Some(rel),
        r matches Err(e) ==> e@ == (
            "adjacent_session_not_found"@,
            "adjacent session relationship not found"@,
        ),
{
    if let Some(relationship) = relationship {
        let uncontrolled = match relationship.control_mode {
            SessionRelationshipControlMode::NoControl => true,
            SessionRelationshipControlMode::Other(_) => false,
        };
        if same(relationship.source_session_id.as_str(), source_session_id) && uncontrolled
            && is_adjacent_relationship(&relationship) {
            return Ok(relationship);
        }
    }
    Err(RpcError::new("adjacent_session_not_found", "adjacent session relationship not found"))
}

/// The status that an activity gives a relationship.
pub fn relationship_status(activity: SessionActivity) -> (r: SessionRelationshipStatus)
    ensures
        activity is Idle ==> r is Idle,
        !(activity is Idle) ==> r is Running,
{
    match activity {
        SessionActivity::Idle => SessionRelationshipStatus::Idle,
        SessionActivity::Queued | SessionActivity::Running => SessionRelationshipStatus::Running,
    }
}

/// The relationship's status is behind the session's activity. A completed one
/// stays as it is.
pub open spec fn status_is_stale(status: SessionRelationshipStatus, activity: SessionActivity) -> bool {
    &&& !(status is Completed)
    &&& !(activity is Idle && status is Idle)
    &&& !(!(activity is Idle) && status is Running)
}

/// The status to store, where the stored one is behind.
pub fn refresh_relationship_status(
    relationship: &SessionRelationship,
    activity: SessionActivity,
) -> (r: Option<SessionRelationshipStatus>)
    ensures
        r is Some <==> status_is_stale(relationship.status, activity),
        r matches Some(s) ==> if activity is Idle {
            s is Idle
        } else {
            s is Running
        },
{
    let idle = match activity {
        SessionActivity::Idle => true,
        _ => false,
    };
    match relationship.status {
        SessionRelationshipStatus::Completed => None,
        SessionRelationshipStatus::Idle => if idle {
            None
        } else {
            Some(relationship_status(activity))
        },
        SessionRelationshipStatus::Running => if idle {
            Some(relationship_status(activity))
        } else {
            None
        },
        SessionRelationshipStatus::Other(_) => Some(relationship_status(activity)),
    }
}

// ---------------------------------------------------------------------------
// The spawn

/// A workspace of a session.
#[derive(Debug, PartialEq, Eq)]
pub struct SessionWorkspace {
    pub workspace_dir: String,
    pub remote_branch: Option<String>,
}

/// A workspace that is asked for.
#[derive(Debug, PartialEq, Eq)]
pub struct RequestedWorkspace {
    pub workspace_dir: String,
    pub branch: Option<String>,
}

/// What the spawn reads of the source session's configuration.
#[derive(Debug, PartialEq, Eq)]
pub struct SourceConfig {
    pub project_id: Option<u128>,
    pub workspaces: Vec<SessionWorkspace>,
    pub provider: ProviderConfig,
    pub metadata: Json,
}

/// A spawn from a session that belongs to a project.
#[derive(Debug, PartialEq, Eq)]
pub struct AdjacentSpawn {
    pub request: AdjacentSessionSpawnRequest,
    pub project_id: u128,
    pub workspaces: Vec<SessionWorkspace>,
    pub provider: ProviderConfig,
    pub source_metadata: Json,
}

/// A session that was started, or found again.
#[derive(Debug, PartialEq, Eq)]
pub struct SpawnedAdjacentSession {
    pub source_session_id: String,
    pub session_id: String,
    pub project_id: u128,
    pub activity: SessionActivity,
    pub replayed: bool,
}

impl AdjacentSessionSpawnRequest {
    /// Only project sessions spawn adjacent ones.
    pub fn begin(self, source: SourceConfig) -> (r: Result<AdjacentSpawn, RpcError>)
        ensures
            r is Ok <==> source.project_id is Some,
            r matches Ok(s) ==> {
                &&& s.request == self
                &&& source.project_id == Some(s.project_id)
                &&& s.workspaces == source.workspaces
                &&& s.provider == source.provider
                &&& s.source_metadata == source.metadata
            },
            r matches Err(e) ==> e@ == (
                "project_required"@,
                "adjacent sessions can only be spawned from project sessions"@,
            ),
    {
        match source.project_id {
            Some(project_id) => Ok(
                AdjacentSpawn {
                    request: self,
                    project_id,
                    workspaces: source.workspaces,
                    provider: source.provider,
                    source_metadata: source.metadata,
                },
            ),
            None => Err(
                RpcError::new(
                    "project_required",
                    "adjacent sessions can only be spawned from project sessions",
                ),
            ),
        }
    }
}

/// How the workspaces of the child come about.
#[derive(Debug, PartialEq, Eq)]
pub enum AdjacentMaterialization {
    /// The project's own, with these directories and branches.
    Fresh(Vec<RequestedWorkspace>),
    /// A fork of the source's current ones.
    Fork,
}

pub open spec fn requests(r: RequestedWorkspace, w: SessionWorkspace) -> bool {
    r.workspace_dir@ == w.workspace_dir@ && records::opt_view(r.branch) == records::opt_view(
        w.remote_branch,
    )
}

/// The relationship that is recorded for a started child.
#[derive(Debug, PartialEq, Eq)]
pub struct CreateSessionRelationship {
    pub relationship_id: String,
    pub source_session_id: String,
    pub target_session_id: String,
    pub root_session_id: String,
    pub kind: SessionRelationshipKind,
    pub control_mode: SessionRelationshipControlMode,
    pub visibility: SessionRelationshipVisibility,
    pub display_name: Option<String>,
    pub task: String,
    pub spawned_from_leaf_id: Option<String>,
    pub status: SessionRelationshipStatus,
    pub metadata: Json,
}

impl CreateSessionRelationship {
    /// The relationship to record once the child was started.
    pub fn started(self, activity: SessionActivity) -> (r: CreateSessionRelationship)
        ensures
            r == (CreateSessionRelationship {
                status: if activity is Idle {
                    SessionRelationshipStatus::Idle
                } else {
                    SessionRelationshipStatus::Running
                },
                ..self
            }),
    {
        let mut row = self;
        row.status = relationship_status(activity);
        row
    }
}

/// Where a started child is torn down again.
#[derive(Clone, Copy, Debug, PartialEq, Eq, Structural)]
pub enum FailedSpawnStage {
    RelationshipInsert,
    InitialDispatch,
}

impl FailedSpawnStage {
    /// The reason that is logged with the clean-up.
    pub fn reason(self) -> (r: &'static str)
        ensures
            r@ == (match self {
                FailedSpawnStage::RelationshipInsert => "relationship insert failure"@,
                FailedSpawnStage::InitialDispatch => "initial dispatch failure"@,
            }),
    {
        match self {
            FailedSpawnStage::RelationshipInsert => "relationship insert failure",
            FailedSpawnStage::InitialDispatch => "initial dispatch failure",
        }
    }
}

/// A child's id made of a fresh one.
pub open spec fn generated_session_id(fresh: Seq<char>) -> Seq<char> {
    "session_"@ + fresh
}

/// A session id with a fresh suffix.
pub fn session_id_with(fresh: &str) -> (r: String)
    ensures
        r@ == generated_session_id(fresh@),
{
    "session_".to_owned().concat(fresh)
}

/// A random suffix for an id.
pub fn new_suffix() -> (r: String)
    ensures
        interop::uuid_text(r@),
{
    fresh_uuid()
}

/// A random session id.
pub fn new_session_id() -> (r: String)
    ensures
        exists|fresh: Seq<char>|
            interop::uuid_text(fresh) && r@ == #[trigger] generated_session_id(fresh),
{
    let fresh = new_suffix();
    session_id_with(fresh.as_str())
}

impl AdjacentSpawn {
    /// The existing session that the request names is answered again.
    pub fn replay(
        &self,
        session_id: &str,
        relationship: Option<SessionRelationship>,
        activity: SessionActivity,
    ) -> (r: Result<
        (SpawnedAdjacentSession, SessionRelationship, Option<SessionRelationshipStatus>),
        RpcError,
    >)
        ensures
            r is Ok <==> ties(relationship, self.request.source_session_id@),
            r matches Ok(a) ==> {
                &&& a.0.source_session_id@ == self.request.source_session_id@
                &&& a.0.session_id@ == session_id@
                &&& a.0.project_id == self.project_id
                &&& a.0.activity == activity
                &&& a.0.replayed
                &&& relationship == Some(a.1)
                &&& a.2 is Some <==> status_is_stale(a.1.status, activity)
                &&& a.2 matches Some(s) ==> if activity is Idle {
                    s is Idle
                } else {
                    s is Running
                }
            },
            r matches Err(e) ==> e@ == (
                "adjacent_session_not_found"@,
                "adjacent session relationship not found"@,
            ),
    {
        let relationship = match require_adjacent_relationship(
            relationship,
            self.request.source_session_id.as_str(),
        ) {
            Ok(relationship) => relationship,
            Err(e) => {
                return Err(e);
            },
        };
        let status = refresh_relationship_status(&relationship, activity);
        Ok(
            (
                SpawnedAdjacentSession {
                    source_session_id: self.request.source_session_id.clone(),
                    session_id: session_id.to_owned(),
                    project_id: self.project_id,
                    activity,
                    replayed: true,
                },
                relationship,
                status,
            ),
        )
    }

    /// A fork of the current workspaces needs the source to be idle.
    pub fn needs_idle_source(&self) -> (r: bool)
        ensures
            r == (self.request.workspace_mode is ForkCurrent),
    {
        match self.request.workspace_mode {
            AdjacentWorkspaceMode::ForkCurrent => true,
            AdjacentWorkspaceMode::SameProjectFresh => false,
        }
    }

    /// The child's id: the one that was asked for, or one made of `fresh`.
    pub fn child_session_id(&self, fresh: &str) -> (r: String)
        ensures
            r@ == (match self.request.session_id {
                Some(id) => id@,
                None => generated_session_id(fresh@),
            }),
    {
        match &self.request.session_id {
            Some(id) => id.clone(),
            None => session_id_with(fresh),
        }
    }

    /// An id that is taken by now is refused.
    pub fn require_unused(session_id: &str, exists: bool) -> (r: Result<(), RpcError>)
        ensures
            r is Ok <==> !exists,
            r matches Err(e) ==> e@ == (
                "session_exists"@,
                "session already exists and is not reusable: "@ + session_id@,
            ),
    {
        if exists {
            Err(
                RpcError::with_message(
                    "session_exists",
                    "session already exists and is not reusable: ".to_owned().concat(session_id),
                ),
            )
        } else {
            Ok(())
        }
    }

    /// How the child's workspaces come about.
    pub fn materialize_adjacent_workspaces(&self) -> (r: AdjacentMaterialization)
        ensures
            self.request.workspace_mode is ForkCurrent ==> r is Fork,
            self.request.workspace_mode is SameProjectFresh ==> {
                &&& r matches AdjacentMaterialization::Fresh(v)
                &&& v@.len() == self.workspaces@.len()
                &&& forall|i: int|
                    0 <= i < v@.len() ==> requests(#[trigger] v@[i], self.workspaces@[i])
            },
    {
        match self.request.workspace_mode {
            AdjacentWorkspaceMode::ForkCurrent => AdjacentMaterialization::Fork,
            AdjacentWorkspaceMode::SameProjectFresh => {
                let mut requested: Vec<RequestedWorkspace> = Vec::new();
                let mut i: usize = 0;
                while i < self.workspaces.len()
                    invariant
                        i <= self.workspaces.len(),
                        requested@.len() == i,
                        forall|j: int|
                            0 <= j < i ==> requests(#[trigger] requested@[j], self.workspaces@[j]),
                    decreases self.workspaces.len() - i,
                {
                    requested.push(
                        RequestedWorkspace {
                            workspace_dir: self.workspaces[i].workspace_dir.clone(),
                            branch: records::opt_clone(&self.workspaces[i].remote_branch),
                        },
                    );
                    i += 1;
                }
                AdjacentMaterialization::Fresh(requested)
            },
        }
    }

    /// The child's metadata.
    pub fn child_metadata(&self) -> (r: Json)
        ensures
            r@ == adjacent_metadata_view(
                self.request.metadata@,
                self.request.source_session_id@,
                self.request.workspace_mode,
                self.source_metadata@,
            ),
    {
        adjacent_session_metadata(
            self.request.metadata.clone(),
            self.request.source_session_id.as_str(),
            self.request.workspace_mode,
            &self.source_metadata,
        )
    }

    /// The child's first message.
    pub fn initial_task(&self) -> (r: String)
        ensures
            r@ == initial_task_text(
                self.request.source_session_id@,
                self.request.task@,
                records::opt_view(self.request.initial_context),
            ),
    {
        adjacent_initial_task_message(
            self.request.source_session_id.as_str(),
            self.request.task.as_str(),
            records::opt_str(&self.request.initial_context),
        )
    }

    /// The relationship of a child that is yet to be started: the source does
    /// not control it, and it stands at the top level.
    pub fn relationship(
        &self,
        fresh: &str,
        session_id: &str,
        source_relationship: Option<SessionRelationship>,
        source_leaf_id: Option<String>,
    ) -> (r: CreateSessionRelationship)
        ensures
            r.relationship_id@ == "relationship_"@ + fresh@,
            r.source_session_id@ == self.request.source_session_id@,
            r.target_session_id@ == session_id@,
            r.root_session_id@ == root_session(
                source_relationship,
                self.request.source_session_id@,
            ),
            self.request.workspace_mode is SameProjectFresh ==> r.kind is Related,
            self.request.workspace_mode is ForkCurrent ==> r.kind is RelatedFork,
            r.control_mode is NoControl,
            r.visibility is TopLevel,
            records::opt_view(r.display_name) == records::opt_view(self.request.display_name),
            r.task@ == self.request.task@,
            r.spawned_from_leaf_id == source_leaf_id,
            r.status is Idle,
            r.metadata@ == JsonView::Object(
                json::no_entries().insert(
                    "workspace_mode"@,
                    JsonView::Text(self.request.workspace_mode.name()),
                ),
            ),
    {
        let root_session_id = relationship_root_session_id(
            source_relationship,
            self.request.source_session_id.as_str(),
        );
        CreateSessionRelationship {
            relationship_id: "relationship_".to_owned().concat(fresh),
            source_session_id: self.request.source_session_id.clone(),
            target_session_id: session_id.to_owned(),
            root_session_id,
            kind: self.request.workspace_mode.relationship_kind(),
            control_mode: SessionRelationshipControlMode::NoControl,
            visibility: SessionRelationshipVisibility::TopLevel,
            display_name: records::opt_clone(&self.request.display_name),
            task: self.request.task.clone(),
            spawned_from_leaf_id: source_leaf_id,
            status: SessionRelationshipStatus::Idle,
            metadata: Json::Object(
                JsonObject::new().with(
                    "workspace_mode",
                    Json::text(self.request.workspace_mode.as_str()),
                ),
            ),
        }
    }

    /// The provider of the child: its own, or the source's.
    pub fn into_provider(self) -> (r: ProviderConfig)
        ensures
            r == (match self.request.provider {
                Some(p) => p,
                None => self.provider,
            }),
    {
        match self.request.provider {
            Some(provider) => provider,
            None => self.provider,
        }
    }
}

/// The root of a chain of relationships: the source's own root, or the source.
pub open spec fn root_session(
    source_relationship: Option<SessionRelationship>,
    source_session_id: Seq<char>,
) -> Seq<char> {
    match source_relationship {
        Some(r) => r.root_session_id@,
        None => source_session_id,
    }
}

pub fn relationship_root_session_id(
    source_relationship: Option<SessionRelationship>,
    source_session_id: &str,
) -> (r: String)
    ensures
        r@ == root_session(source_relationship, source_session_id@),
{
    match source_relationship {
        Some(relationship) => relationship.root_session_id,
        None => source_session_id.to_owned(),
    }
}

// ---------------------------------------------------------------------------
// Metadata and texts

pub open spec fn object_entries(value: JsonView) -> Map<Seq<char>, JsonView> {
    match value {
        JsonView::Object(o) => o,
        _ => json::no_entries(),
    }
}

/// The metadata of an adjacent session: the caller's, with the source's harness
/// flag where the caller sets none, and the marks of an adjacent session.
pub open spec fn adjacent_metadata_view(
    metadata: JsonView,
    source_session_id: Seq<char>,
    mode: AdjacentWorkspaceMode,
    source_metadata: JsonView,
) -> JsonView {
    let given = object_entries(metadata);
    let harness = json::get_view(source_metadata, "harness"@) == Some(JsonView::Bool(true));
    let base = if harness && !given.contains_key("harness"@) {
        given.insert("harness"@, JsonView::Bool(true))
    } else {
        given
    };
    JsonView::Object(
        base.insert("adjacent_session"@, JsonView::Bool(true)).insert(
            "source_session_id"@,
            JsonView::Text(source_session_id),
        ).insert("workspace_mode"@, JsonView::Text(mode.name())),
    )
}

pub fn adjacent_session_metadata(
    metadata: Json,
    source_session_id: &str,
    workspace_mode: AdjacentWorkspaceMode,
    source_metadata: &Json,
) -> (r: Json)
    ensures
        r@ == adjacent_metadata_view(
            metadata@,
            source_session_id@,
            workspace_mode,
            source_metadata@,
        ),
{
    let mut object = match metadata {
        Json::Object(object) => object,
        _ => JsonObject::new(),
    };
    let harness = match source_metadata.get("harness") {
        Some(value) => match value.as_bool() {
            Some(b) => b,
            None => false,
        },
        None => false,
    };
    if harness && object.get("harness").is_none() {
        object.insert("harness", Json::Bool(true));
    }
    object.insert("adjacent_session", Json::Bool(true));
    object.insert("source_session_id", Json::text(source_session_id));
    object.insert("workspace_mode", Json::text(workspace_mode.as_str()));
    Json::Object(object)
}

/// The first message of an adjacent session.
pub open spec fn initial_task_text(
    source_session_id: Seq<char>,
    task: Seq<char>,
    initial_context: Option<Seq<char>>,
) -> Seq<char> {
    let message = "Adjacent session task spawned from session `"@ + source_session_id + "`:\n\n"@
        + task
        + "\n\nThis is a visible top-level adjacent session, not a hidden parent-controlled subagent. Work independently on this related objective and report results clearly in this session."@;
    match initial_context {
        Some(context) => message + "\n\n# Initial context\n\n"@ + context,
        None => message,
    }
}

pub fn adjacent_initial_task_message(
    source_session_id: &str,
    task: &str,
    initial_context: Option<&str>,
) -> (r: String)
    ensures
        r@ == initial_task_text(
            source_session_id@,
            task@,
            records::opt_str_view(initial_context),
        ),
{
    let message = "Adjacent session task spawned from session `".to_owned().concat(
        source_session_id,
    ).concat("`:\n\n").concat(task).concat(
        "\n\nThis is a visible top-level adjacent session, not a hidden parent-controlled subagent. Work independently on this related objective and report results clearly in this session.",
    );
    match initial_context {
        Some(context) => message.concat("\n\n# Initial context\n\n").concat(context),
        None => message,
    }
}

/// The system prompt of an adjacent session: the usual one and its contract.
pub open spec fn system_prompt_text(
    base: Seq<char>,
    source_session_id: Seq<char>,
    mode: AdjacentWorkspaceMode,
) -> Seq<char> {
    base
        + "\n\n# Adjacent session contract\n\nYou are a visible top-level adjacent session spawned from source session `"@
        + source_session_id
        + "`.\nThis task is related to the source session's project but is not a parent-controlled subtask. Do not assume the source session can inspect, steer, or merge your work like a subagent.\nYour workspace mode is `"@
        + mode.name()
        + "`. Keep your context focused on this adjacent objective and report concise results clearly.\n"@
}

pub fn adjacent_session_system_prompt(
    base: &str,
    source_session_id: &str,
    workspace_mode: AdjacentWorkspaceMode,
) -> (r: String)
    ensures
        r@ == system_prompt_text(base@, source_session_id@, workspace_mode),
{
    base.to_owned().concat(
        "\n\n# Adjacent session contract\n\nYou are a visible top-level adjacent session spawned from source session `",
    ).concat(source_session_id).concat(
        "`.\nThis task is related to the source session's project but is not a parent-controlled subtask. Do not assume the source session can inspect, steer, or merge your work like a subagent.\nYour workspace mode is `",
    ).concat(workspace_mode.as_str()).concat(
        "`. Keep your context focused on this adjacent objective and report concise results clearly.\n",
    )
}

// ---------------------------------------------------------------------------
// Answers

pub open spec fn spawned_view(s: SpawnedAdjacentSession, relationship: JsonView) -> JsonView {
    JsonView::Object(
        json::no_entries().insert("source_session_id"@, JsonView::Text(s.source_session_id@)).insert(
            "session_id"@,
            JsonView::Text(s.session_id@),
        ).insert("relationship"@, relationship).insert(
            "activity"@,
            JsonView::Text(s.activity.name()),
        ).insert("replayed"@, JsonView::Bool(s.replayed)),
    )
}

/// The answer of a spawn, with the view of its relationship.
pub fn spawned_adjacent_session_view(spawned: &SpawnedAdjacentSession, relationship: Json) -> (r:
    Json)
    ensures
        r@ == spawned_view(*spawned, relationship@),
{
    Json::Object(
        JsonObject::new().with(
            "source_session_id",
            Json::text(spawned.source_session_id.as_str()),
        ).with("session_id", Json::text(spawned.session_id.as_str())).with(
            "relationship",
            relationship,
        ).with("activity", Json::text(spawned.activity.as_str())).with(
            "replayed",
            Json::Bool(spawned.replayed),
        ),
    )
}

/// One adjacent session of a list: the view of its relationship and what it is
/// doing.
#[derive(Debug, PartialEq, Eq)]
pub struct ListedAdjacentSession {
    pub relationship: Json,
    pub activity: SessionActivity,
}

pub open spec fn listed_view(s: ListedAdjacentSession) -> JsonView {
    JsonView::Object(
        json::no_entries().insert("relationship"@, s.relationship@).insert(
            "activity"@,
            JsonView::Text(s.activity.name()),
        ),
    )
}

/// The answer of a list request.
pub fn adjacent_session_list_view(source_session_id: &str, sessions: &Vec<ListedAdjacentSession>) -> (r:
    Json)
    ensures
        r@ == JsonView::Object(
            json::no_entries().insert("source_session_id"@, JsonView::Text(source_session_id@)).insert(
                "adjacent_sessions"@,
                JsonView::List(sessions@.map_values(|s: ListedAdjacentSession| listed_view(s))),
            ),
        ),
{
    let mut rows: Vec<Json> = Vec::new();
    let mut i: usize = 0;
    while i < sessions.len()
        invariant
            i <= sessions.len(),
            rows@.len() == i,
            forall|j: int| 0 <= j < i ==> (#[trigger] rows@[j])@ == listed_view(sessions@[j]),
        decreases sessions.len() - i,
    {
        rows.push(
            Json::Object(
                JsonObject::new().with("relationship", sessions[i].relationship.clone()).with(
                    "activity",
                    Json::text(sessions[i].activity.as_str()),
                ),
            ),
        );
        i += 1;
    }
    proof {
        json::lemma_list_view(rows@);
        assert(json::list_view(rows@) == sessions@.map_values(
            |s: ListedAdjacentSession| listed_view(s),
        ));
    }
    Json::Object(
        JsonObject::new().with("source_session_id", Json::text(source_session_id)).with(
            "adjacent_sessions",
            Json::List(rows),
        ),
    )
}

// ---------------------------------------------------------------------------
// Laws

/// Whatever the caller puts into the metadata stays, save under the three marks
/// of an adjacent session, and nothing is added but those and the harness flag
/// of a harnessed source.
pub proof fn law_callers_metadata_is_kept(
    metadata: JsonView,
    source_session_id: Seq<char>,
    mode: AdjacentWorkspaceMode,
    source_metadata: JsonView,
    key: Seq<char>,
)
    requires
        key != "adjacent_session"@,
        key != "source_session_id"@,
        key != "workspace_mode"@,
    ensures
        ({
            let r = adjacent_metadata_view(metadata, source_session_id, mode, source_metadata);
            let given = json::get_view(metadata, key);
            &&& given is Some ==> json::get_view(r, key) == given
            &&& given is None && key != "harness"@ ==> json::get_view(r, key) is None
            &&& given is None && key == "harness"@ ==> json::get_view(r, key) == (
            if json::get_view(source_metadata, "harness"@) == Some(JsonView::Bool(true)) {
                Some(JsonView::Bool(true))
            } else {
                None
            })
        }),
{
}

/// A status that was refreshed is up to date, so that refreshing again changes
/// nothing, and a completed relationship never changes.
pub proof fn law_status_refresh_settles(
    status: SessionRelationshipStatus,
    activity: SessionActivity,
)
    ensures
        activity is Idle ==> !status_is_stale(SessionRelationshipStatus::Idle, activity),
        !(activity is Idle) ==> !status_is_stale(SessionRelationshipStatus::Running, activity),
        status is Completed ==> !status_is_stale(status, activity),
{
}

/// A mode that is left out or blank is the fresh one; any other is taken as it
/// is given, trimmed.
pub proof fn law_modes_are_named(value: Option<Seq<char>>)
    ensures
        match value {
            Some(v) => if text::trimmed(v).len() > 0 {
                named_mode(value) == text::trimmed(v)
            } else {
                named_mode(value) == "same_project_fresh"@
            },
            None => named_mode(value) == "same_project_fresh"@,
        },
        AdjacentWorkspaceMode::SameProjectFresh.name() == "same_project_fresh"@,
        AdjacentWorkspaceMode::ForkCurrent.name() == "fork_current"@,
{
}

/// An optional text counts exactly when it is more than white space, and then
/// trimmed.
pub proof fn law_blank_texts_are_left_out(v: Seq<char>)
    ensures
        filled(None) is None,
        text::trimmed(v).len() == 0 ==> filled(Some(v)) is None,
        text::trimmed(v).len() > 0 ==> filled(Some(v)) == Some(text::trimmed(v)),
{
}

/// A spawn is refused in exactly these cases, the first that holds: a blank
/// source; a blank task; an initial context of more than 65536 bytes, trimmed;
/// or a mode that is none of the two.
pub proof fn law_spawns_are_refused_in_order(p: AdjacentSessionSpawnParams)
    ensures
        ({
            let refusal = spawn_refusal(p);
            let source = text::trimmed(p.source_session_id@).len() > 0;
            let task = text::trimmed(p.task@).len() > 0;
            let fits = p.initial_context matches Some(c) ==> vstd::utf8::encode_utf8(
                text::trimmed(c@),
            ).len() <= 65536 || text::trimmed(c@).len() == 0;
            let fresh = p.workspace_mode is None || text::trimmed(p.workspace_mode->0@).len() == 0
                || text::trimmed(p.workspace_mode->0@) == "same_project_fresh"@;
            let fork = p.workspace_mode is Some && text::trimmed(p.workspace_mode->0@)
                == "fork_current"@;
            &&& !source ==> refusal == Some(
                ("invalid_params"@, "source_session_id"@ + " cannot be empty"@),
            )
            &&& source && !task ==> refusal == Some(
                ("invalid_params"@, "task"@ + " cannot be empty"@),
            )
            &&& source && task && !fits ==> refusal == Some(
                ("initial_context_too_large"@, "initial_context exceeds 65536 bytes"@),
            )
            &&& source && task && fits && !fresh && !fork ==> refusal == Some(
                (
                    "invalid_params"@,
                    "workspace_mode must be `same_project_fresh` or `fork_current`, got `"@
                        + text::trimmed(p.workspace_mode->0@) + "`"@,
                ),
            )
            &&& refusal is None <==> source && task && fits && (fresh || fork)
        }),
{
}

/// A relationship is adjacent exactly when it is a related session or a related
/// fork; it ties a session to its source exactly when it is adjacent, starts at
/// that source and gives no control.
pub proof fn law_what_ties_sessions(r: SessionRelationship, source_session_id: Seq<char>)
    ensures
        adjacent(r) <==> !(r.kind is Other),
        ties(Some(r), source_session_id) <==> r.source_session_id@ == source_session_id && !(
        r.kind is Other) && !(r.control_mode is Other),
        !ties(None, source_session_id),
{
}

/// A stored status is stale exactly when it differs from what the session does;
/// a completed relationship stays completed.
pub proof fn law_stale_statuses(status: SessionRelationshipStatus, activity: SessionActivity)
    ensures
        status is Completed ==> !status_is_stale(status, activity),
        status is Idle ==> (status_is_stale(status, activity) <==> activity is Queued
            || activity is Running),
        status is Running ==> (status_is_stale(status, activity) <==> activity is Idle),
        status is Other ==> status_is_stale(status, activity),
{
}

/// A session spawned from an adjacent one has its root; one spawned from any
/// other has the source itself as its root.
pub proof fn law_roots_are_inherited(r: SessionRelationship, source_session_id: Seq<char>)
    ensures
        root_session(Some(r), source_session_id) == r.root_session_id@,
        root_session(None, source_session_id) == source_session_id,
{
}

/// The metadata of an adjacent session is always marked as such, with its source
/// and its mode, whatever the caller gave under those keys.
pub proof fn law_adjacent_metadata_is_marked(
    metadata: JsonView,
    source_session_id: Seq<char>,
    mode: AdjacentWorkspaceMode,
    source_metadata: JsonView,
)
    ensures
        ({
            let r = adjacent_metadata_view(metadata, source_session_id, mode, source_metadata);
            &&& json::get_view(r, "adjacent_session"@) == Some(JsonView::Bool(true))
            &&& json::get_view(r, "source_session_id"@) == Some(JsonView::Text(source_session_id))
            &&& json::get_view(r, "workspace_mode"@) == Some(
                JsonView::Text(
                    match mode {
                        AdjacentWorkspaceMode::SameProjectFresh => "same_project_fresh"@,
                        AdjacentWorkspaceMode::ForkCurrent => "fork_current"@,
                    },
                ),
            )
        }),
{
    reveal_strlit("adjacent_session");
    reveal_strlit("source_session_id");
    reveal_strlit("workspace_mode");
    assert("adjacent_session"@.len() == 16);
    assert("source_session_id"@.len() == 17);
    assert("workspace_mode"@.len() == 14);
}

/// The first message of an adjacent session names its source, then holds the
/// task; an initial context follows at the end, whole, and without one nothing
/// does.
pub proof fn law_initial_tasks_carry_task_and_context(
    source_session_id: Seq<char>,
    task: Seq<char>,
    context: Seq<char>,
)
    ensures
        ({
            let head = "Adjacent session task spawned from session `"@ + source_session_id
                + "`:\n\n"@ + task;
            let plain = initial_task_text(source_session_id, task, None);
            &&& head.is_prefix_of(plain)
            &&& plain.skip(head.len() as int)
                == "\n\nThis is a visible top-level adjacent session, not a hidden parent-controlled subagent. Work independently on this related objective and report results clearly in this session."@
            &&& initial_task_text(source_session_id, task, Some(context)) == plain
                + "\n\n# Initial context\n\n"@ + context
        }),
{
}

/// The system prompt of an adjacent session is the usual one, followed by a
/// contract that names the source and the mode.
pub proof fn law_prompts_name_source_and_mode(
    base: Seq<char>,
    source_session_id: Seq<char>,
    mode: AdjacentWorkspaceMode,
)
    ensures
        ({
            let prompt = system_prompt_text(base, source_session_id, mode);
            let named = match mode {
                AdjacentWorkspaceMode::SameProjectFresh => "same_project_fresh"@,
                AdjacentWorkspaceMode::ForkCurrent => "fork_current"@,
            };
            &&& base.is_prefix_of(prompt)
            &&& prompt.skip(base.len() as int)
                == "\n\n# Adjacent session contract\n\nYou are a visible top-level adjacent session spawned from source session `"@
                + source_session_id
                + "`.\nThis task is related to the source session's project but is not a parent-controlled subtask. Do not assume the source session can inspect, steer, or merge your work like a subagent.\nYour workspace mode is `"@
                + named
                + "`. Keep your context focused on this adjacent objective and report concise results clearly.\n"@
        }),
{
}

/// The answers of a spawn and of a list tell the sessions as they are.
pub proof fn law_adjacent_answers_tell_the_sessions(
    s: SpawnedAdjacentSession,
    relationship: JsonView,
    l: ListedAdjacentSession,
)
    ensures
        ({
            let answer = spawned_view(s, relationship);
            &&& json::get_view(answer, "source_session_id"@) == Some(
                JsonView::Text(s.source_session_id@),
            )
            &&& json::get_view(answer, "session_id"@) == Some(JsonView::Text(s.session_id@))
            &&& json::get_view(answer, "relationship"@) == Some(relationship)
            &&& json::get_view(answer, "activity"@) == Some(
                JsonView::Text(
                    match s.activity {
                        SessionActivity::Idle => "idle"@,
                        SessionActivity::Queued => "queued"@,
                        SessionActivity::Running => "running"@,
                    },
                ),
            )
            &&& json::get_view(answer, "replayed"@) == Some(JsonView::Bool(s.replayed))
            &&& json::get_view(listed_view(l), "relationship"@) == Some(l.relationship@)
            &&& json::get_view(listed_view(l), "activity"@) == Some(
                JsonView::Text(
                    match l.activity {
                        SessionActivity::Idle => "idle"@,
                        SessionActivity::Queued => "queued"@,
                        SessionActivity::Running => "running"@,
                    },
                ),
            )
        }),
{
    reveal_strlit("source_session_id");
    reveal_strlit("session_id");
    reveal_strlit("relationship");
    reveal_strlit("activity");
    reveal_strlit("replayed");
    assert("source_session_id"@.len() == 17);
    assert("session_id"@.len() == 10);
    assert("relationship"@.len() == 12);
    assert("activity"@.len() == 8);
    assert("activity"@[0] == 'a');
    assert("replayed"@.len() == 8);
    assert("replayed"@[0] == 'r');
}

/// A requested workspace has the directory and the branch of the source's.
pub proof fn law_requests_copy_the_workspace(r: RequestedWorkspace, w: SessionWorkspace)
    requires
        requests(r, w),
    ensures
        r.workspace_dir@ == w.workspace_dir@,
        match w.remote_branch {
            Some(b) => r.branch matches Some(c) && c@ == b@,
            None => r.branch is None,
        },
{
}

/// A generated session id is its prefix and the fresh part.
pub proof fn law_generated_ids_keep_the_fresh_part(a: Seq<char>, b: Seq<char>)
    ensures
        generated_session_id(a) == "session_"@ + a,
        generated_session_id(a) == generated_session_id(b) <==> a == b,
{
    assert(generated_session_id(a).skip("session_"@.len() as int) == a);
    assert(generated_session_id(b).skip("session_"@.len() as int) == b);
}

} // verus!
