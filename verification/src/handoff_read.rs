//! Reading one handoff file for inspection.
//!
//! This is the only way by which a client reaches the handoff files: the
//! delegation must belong to the parent, the file must be one of a closed
//! vocabulary, the subagent must belong to the delegation, the delegation's
//! status must permit the file, and the path that is read must lie below the
//! handoff root once it is resolved.
use vstd::prelude::*;

use crate::delegation_tools::{self, load_delegation_for_parent, SubagentWorkState};
use crate::handoff::{
    self, delegation_path, handoff_root, publishes_files, refresh_task_prompt_artifact_if_present,
    safe_handoff_path_segment, WorkspaceWrite, TASK_PROMPT_FILE,
};
use crate::json::{self, Json, JsonObject, JsonView};
use crate::paths::{self, is_within, join};
use crate::records::{self, opt_str, Delegation, DelegationStatus, DelegationSubagent};
use crate::text::{self, same, strip_prefix, strip_suffix};
use crate::types::RpcError;

verus! {

// ---------------------------------------------------------------------------
// The file vocabulary

/// A handoff file: one of a subagent's own, or the transcript that was kept
/// when its delegation was cancelled.
#[derive(Clone, Copy, Debug, PartialEq, Eq)]
pub enum HandoffFileRequest<'a> {
    Normal { subagent_id: &'a str, file: &'a str },
    CancelledTranscript { subagent_id: &'a str },
}

/// The subagent whose file is asked for.
pub open spec fn requested_subagent(request: HandoffFileRequest<'_>) -> Seq<char> {
    match request {
        HandoffFileRequest::Normal { subagent_id, .. } => subagent_id@,
        HandoffFileRequest::CancelledTranscript { subagent_id } => subagent_id@,
    }
}

impl HandoffFileRequest<'_> {
    pub fn subagent_id(&self) -> (r: &str)
        ensures
            r@ == requested_subagent(*self),
    {
        match self {
            HandoffFileRequest::Normal { subagent_id, .. } => subagent_id,
            HandoffFileRequest::CancelledTranscript { subagent_id } => subagent_id,
        }
    }
}

/// The files of a subagent's own.
pub open spec fn normal_file(file: Seq<char>) -> bool {
    file == TASK_PROMPT_FILE@ || file == "final_message.md"@ || file == "transcript.md"@
}

/// The id in `cancelled/<subagent_id>.transcript.md`.
pub open spec fn cancelled_id(file: Seq<char>) -> Option<Seq<char>> {
    let rest = file.skip("cancelled/"@.len() as int);
    if "cancelled/"@.is_prefix_of(file) && ".transcript.md"@.is_suffix_of(rest) {
        Some(rest.take(rest.len() - ".transcript.md"@.len()))
    } else {
        None
    }
}

/// Why a file name asks for nothing that is known.
pub open spec fn request_refusal(subagent_id: Option<Seq<char>>, file: Seq<char>) -> Option<
    (Seq<char>, Seq<char>),
> {
    if normal_file(file) {
        if subagent_id is None {
            Some(("invalid_params"@, file + " requires a subagent_id"@))
        } else {
            None
        }
    } else if cancelled_id(file) is Some {
        let id = cancelled_id(file)->0;
        if !handoff::safe_segment(id) {
            Some(handoff::segment_error("subagent_id"@))
        } else if subagent_id is Some && subagent_id != Some(id) {
            Some(
                (
                    "invalid_params"@,
                    "subagent_id does not match cancellation transcript path"@,
                ),
            )
        } else {
            None
        }
    } else {
        Some(
            (
                "invalid_params"@,
                "file must be one of task_prompt.md | final_message.md | transcript.md | cancelled/<subagent_id>.transcript.md, got "@
                    + file,
            ),
        )
    }
}

/// The subagent that a known file name is about.
pub open spec fn named_subagent(subagent_id: Option<Seq<char>>, file: Seq<char>) -> Seq<char> {
    if normal_file(file) {
        subagent_id->0
    } else {
        cancelled_id(file)->0
    }
}

/// What a file name asks for.
pub open spec fn file_request(
    r: Result<HandoffFileRequest<'_>, RpcError>,
    subagent_id: Option<Seq<char>>,
    file: Seq<char>,
) -> bool {
    match request_refusal(subagent_id, file) {
        Some(refusal) => r matches Err(e) && e@ == refusal,
        None => match r {
            Ok(HandoffFileRequest::Normal { subagent_id: i, file: f }) => normal_file(file) && i@
                == named_subagent(subagent_id, file) && f@ == file,
            Ok(HandoffFileRequest::CancelledTranscript { subagent_id: i }) => !normal_file(file)
                && i@ == named_subagent(subagent_id, file),
            Err(_) => false,
        },
    }
}

/// Resolves the closed handoff file vocabulary.
pub fn parse_handoff_file_request<'a>(subagent_id: Option<&'a str>, file: &'a str) -> (r: Result<
    HandoffFileRequest<'a>,
    RpcError,
>)
    ensures
        file_request(r, records::opt_str_view(subagent_id), file@),
{
    if same(file, TASK_PROMPT_FILE) || same(file, "final_message.md") || same(file, "transcript.md") {
        return match subagent_id {
            Some(subagent_id) => Ok(HandoffFileRequest::Normal { subagent_id, file }),
            None => Err(
                RpcError::with_message(
                    "invalid_params",
                    file.to_owned().concat(" requires a subagent_id"),
                ),
            ),
        };
    }
    if let Some(rest) = strip_prefix(file, "cancelled/") {
        assert(file@.skip("cancelled/"@.len() as int) == rest@);
        if let Some(name) = strip_suffix(rest, ".transcript.md") {
            assert(rest@.take(rest@.len() - ".transcript.md"@.len()) == name@);
            match safe_handoff_path_segment(name, "subagent_id") {
                Ok(_) => {},
                Err(e) => {
                    return Err(e);
                },
            }
            if let Some(given) = subagent_id {
                if !same(given, name) {
                    return Err(
                        RpcError::new(
                            "invalid_params",
                            "subagent_id does not match cancellation transcript path",
                        ),
                    );
                }
            }
            return Ok(HandoffFileRequest::CancelledTranscript { subagent_id: name });
        }
    }
    Err(
        RpcError::with_message(
            "invalid_params",
            "file must be one of task_prompt.md | final_message.md | transcript.md | cancelled/<subagent_id>.transcript.md, got ".to_owned().concat(
                file,
            ),
        ),
    )
}

// ---------------------------------------------------------------------------
// What a status permits

/// Whether a file may be read at this status, a normal one by its name or a
/// cancellation transcript without one: `None` where the subagent's own
/// completion decides.
pub open spec fn file_permitted(status: DelegationStatus, normal: Option<Seq<char>>) -> Option<bool> {
    match normal {
        None => Some(status is Cancelled),
        Some(file) => match status {
            DelegationStatus::Running => if file == "final_message.md"@ {
                None
            } else {
                Some(true)
            },
            DelegationStatus::Done | DelegationStatus::DoneWithFailures => Some(true),
            DelegationStatus::Cancelled => Some(
                file == TASK_PROMPT_FILE@ || file == "final_message.md"@,
            ),
            DelegationStatus::Failed => Some(file == TASK_PROMPT_FILE@),
        },
    }
}

/// What the status says of the requested file.
pub open spec fn status_permits(status: DelegationStatus, request: HandoffFileRequest<'_>) -> Option<
    bool,
> {
    match request {
        HandoffFileRequest::CancelledTranscript { .. } => file_permitted(status, None),
        HandoffFileRequest::Normal { file, .. } => file_permitted(status, Some(file@)),
    }
}

/// The request names a file that the running delegation does not know.
pub open spec fn unsupported_while_running(
    status: DelegationStatus,
    request: HandoffFileRequest<'_>,
) -> bool {
    status is Running && (request matches HandoffFileRequest::Normal { file, .. } && !normal_file(
        file@,
    ))
}

/// Whether the status permits the file, where it alone decides.
pub fn read_allowed_for_status(status: DelegationStatus, request: HandoffFileRequest<'_>) -> (r:
    Result<Option<bool>, RpcError>)
    ensures
        r is Err <==> unsupported_while_running(status, request),
        r matches Err(e) ==> request matches HandoffFileRequest::Normal { file, .. } && e@ == (
            "invalid_params"@,
            "unsupported handoff file "@ + file@,
        ),
        r matches Ok(allowed) ==> allowed == status_permits(status, request),
{
    match request {
        HandoffFileRequest::CancelledTranscript { .. } => match status {
            DelegationStatus::Cancelled => Ok(Some(true)),
            _ => Ok(Some(false)),
        },
        HandoffFileRequest::Normal { file, .. } => match status {
            DelegationStatus::Running => if same(file, "final_message.md") {
                Ok(None)
            } else if same(file, TASK_PROMPT_FILE) || same(file, "transcript.md") {
                Ok(Some(true))
            } else {
                Err(
                    RpcError::with_message(
                        "invalid_params",
                        "unsupported handoff file ".to_owned().concat(file),
                    ),
                )
            },
            DelegationStatus::Done | DelegationStatus::DoneWithFailures => Ok(Some(true)),
            DelegationStatus::Cancelled => Ok(
                Some(same(file, TASK_PROMPT_FILE) || same(file, "final_message.md")),
            ),
            DelegationStatus::Failed => Ok(Some(same(file, TASK_PROMPT_FILE))),
        },
    }
}

/// How a file that may not be read is refused.
pub open spec fn unavailable_message(status: DelegationStatus) -> Seq<char> {
    match status {
        DelegationStatus::Running =>
            "handoff file not found; the delegation may not have finished yet"@,
        DelegationStatus::Cancelled =>
            "normal handoff files are not published for cancelled delegations"@,
        DelegationStatus::Failed => "handoff files are not published for failed delegations"@,
        DelegationStatus::Done | DelegationStatus::DoneWithFailures => "handoff file not found"@,
    }
}

pub fn unavailable_handoff_file_error(status: DelegationStatus) -> (r: RpcError)
    ensures
        r@ == ("handoff_file_not_found"@, unavailable_message(status)),
{
    match status {
        DelegationStatus::Running => RpcError::new(
            "handoff_file_not_found",
            "handoff file not found; the delegation may not have finished yet",
        ),
        DelegationStatus::Cancelled => RpcError::new(
            "handoff_file_not_found",
            "normal handoff files are not published for cancelled delegations",
        ),
        DelegationStatus::Failed => RpcError::new(
            "handoff_file_not_found",
            "handoff files are not published for failed delegations",
        ),
        DelegationStatus::Done | DelegationStatus::DoneWithFailures => RpcError::new(
            "handoff_file_not_found",
            "handoff file not found",
        ),
    }
}

/// A session of the delegation's.
pub open spec fn is_member(members: Seq<DelegationSubagent>, subagent_id: Seq<char>) -> bool {
    exists|i: int| 0 <= i < members.len() && (#[trigger] members[i]).session_id@ == subagent_id
}

fn find_member<'a>(members: &'a Vec<DelegationSubagent>, subagent_id: &str) -> (r: Option<
    &'a DelegationSubagent,
>)
    ensures
        r is Some <==> is_member(members@, subagent_id@),
        r matches Some(m) ==> first_member(members@, subagent_id@) == Some(*m),
{
    let mut i: usize = 0;
    while i < members.len()
        invariant
            i <= members.len(),
            forall|j: int| 0 <= j < i ==> (#[trigger] members@[j]).session_id@ != subagent_id@,
        decreases members.len() - i,
    {
        if same(members[i].session_id.as_str(), subagent_id) {
            proof {
                lemma_first_member(members@, subagent_id@, i as int);
            }
            return Some(&members[i]);
        }
        i += 1;
    }
    None
}

/// The first member with this session id.
pub open spec fn first_member(members: Seq<DelegationSubagent>, subagent_id: Seq<char>) -> Option<
    DelegationSubagent,
>
    decreases members.len(),
{
    if members.len() == 0 {
        None
    } else if members[0].session_id@ == subagent_id {
        Some(members[0])
    } else {
        first_member(members.skip(1), subagent_id)
    }
}

proof fn lemma_first_member(members: Seq<DelegationSubagent>, subagent_id: Seq<char>, n: int)
    requires
        0 <= n < members.len(),
        members[n].session_id@ == subagent_id,
        forall|j: int| 0 <= j < n ==> (#[trigger] members[j]).session_id@ != subagent_id,
    ensures
        first_member(members, subagent_id) == Some(members[n]),
    decreases n,
{
    if n > 0 {
        let rest = members.skip(1);
        assert forall|j: int| 0 <= j < n - 1 implies (#[trigger] rest[j]).session_id@
            != subagent_id by {
            assert(rest[j] == members[j + 1]);
        }
        lemma_first_member(rest, subagent_id, n - 1);
    }
}

pub open spec fn not_a_member() -> (Seq<char>, Seq<char>) {
    ("handoff_file_not_found"@, "subagent does not belong to this delegation"@)
}

/// Only a member of the delegation has handoff files in it.
pub fn validate_member_subagent(
    request: HandoffFileRequest<'_>,
    members: &Vec<DelegationSubagent>,
) -> (r: Result<(), RpcError>)
    ensures
        r is Ok <==> is_member(members@, requested_subagent(request)),
        r matches Err(e) ==> e@ == not_a_member(),
{
    match find_member(members, request.subagent_id()) {
        Some(_) => Ok(()),
        None => Err(
            RpcError::new("handoff_file_not_found", "subagent does not belong to this delegation"),
        ),
    }
}

// ---------------------------------------------------------------------------
// Where the file stands

/// A segment that is a plain name once it is trimmed.
pub fn safe_path_segment(segment: &str, field: &str) -> (r: Result<String, RpcError>)
    ensures
        r is Ok <==> handoff::safe_segment(segment@),
        r matches Ok(name) ==> name@ == text::trimmed(segment@),
        r matches Err(e) ==> e@ == handoff::segment_error(field@),
{
    safe_handoff_path_segment(segment, field)
}

/// The path of a handoff file below its delegation's directory.
pub open spec fn file_below(dir: Seq<char>, request: HandoffFileRequest<'_>) -> Seq<char> {
    match request {
        HandoffFileRequest::Normal { subagent_id, file } => paths::joined(
            paths::joined(dir, text::trimmed(subagent_id@)),
            file@,
        ),
        HandoffFileRequest::CancelledTranscript { subagent_id } => paths::joined(
            paths::joined(dir, "cancelled"@),
            text::trimmed(subagent_id@) + ".transcript.md"@,
        ),
    }
}

/// Resolves a handoff file request to a path below
/// `<workspace>/.pi-handoff/<delegation_id>/`.
pub fn resolve_handoff_file_path(
    workspace: &str,
    delegation_id: &str,
    request: HandoffFileRequest<'_>,
) -> (r: Result<String, RpcError>)
    ensures
        r is Ok <==> handoff::safe_segment(delegation_id@) && handoff::safe_segment(
            requested_subagent(request),
        ),
        r matches Ok(path) ==> path@ == file_below(
            paths::joined(
                workspace@,
                handoff::delegation_dir_of(text::trimmed(delegation_id@)),
            ),
            request,
        ),
        r matches Err(e) ==> e@ == handoff::segment_error(
            if handoff::safe_segment(delegation_id@) {
                "subagent_id"@
            } else {
                "delegation_id"@
            },
        ),
{
    let delegation_segment = match safe_path_segment(delegation_id, "delegation_id") {
        Ok(segment) => segment,
        Err(e) => {
            return Err(e);
        },
    };
    let dir = delegation_path(workspace, delegation_segment.as_str());
    let subagent_segment = match safe_path_segment(request.subagent_id(), "subagent_id") {
        Ok(segment) => segment,
        Err(e) => {
            return Err(e);
        },
    };
    match request {
        HandoffFileRequest::Normal { file, .. } => Ok(
            join(join(dir.as_str(), subagent_segment.as_str()).as_str(), file),
        ),
        HandoffFileRequest::CancelledTranscript { .. } => Ok(
            join(
                join(dir.as_str(), "cancelled").as_str(),
                subagent_segment.concat(".transcript.md").as_str(),
            ),
        ),
    }
}

// ---------------------------------------------------------------------------
// The read

#[derive(Debug, PartialEq, Eq)]
pub struct ReadHandoffFileParams {
    pub delegation_id: String,
    pub subagent_id: Option<String>,
    pub file: String,
}

/// A read of a known file of a delegation in scope, not yet known to be
/// permitted.
#[derive(Debug, PartialEq, Eq)]
pub struct HandoffRead {
    pub delegation: Delegation,
    /// The file as the caller named it.
    pub file: String,
    pub subagent_id: String,
    pub cancelled_transcript: bool,
}

impl HandoffRead {
    /// The file that is read.
    pub fn request(&self) -> (r: HandoffFileRequest<'_>)
        ensures
            read_request(*self, r),
    {
        if self.cancelled_transcript {
            HandoffFileRequest::CancelledTranscript { subagent_id: self.subagent_id.as_str() }
        } else {
            HandoffFileRequest::Normal {
                subagent_id: self.subagent_id.as_str(),
                file: self.file.as_str(),
            }
        }
    }
}

/// `request` is the file that the read is for.
pub open spec fn read_request(read: HandoffRead, request: HandoffFileRequest<'_>) -> bool {
    match request {
        HandoffFileRequest::Normal { subagent_id, file } => !read.cancelled_transcript
            && subagent_id@ == read.subagent_id@ && file@ == read.file@,
        HandoffFileRequest::CancelledTranscript { subagent_id } => read.cancelled_transcript
            && subagent_id@ == read.subagent_id@,
    }
}

/// The read is for a file of the vocabulary, and its ids are safe segments.
pub open spec fn sound_read(read: HandoffRead) -> bool {
    &&& handoff::safe_segment(read.delegation.id@)
    &&& handoff::safe_segment(read.subagent_id@)
    &&& if read.cancelled_transcript {
        cancelled_id(read.file@) == Some(read.subagent_id@)
    } else {
        normal_file(read.file@)
    }
}

/// The first reason to refuse a read before anything else is loaded.
pub open spec fn opening_refusal(
    row: Option<Delegation>,
    parent_session_id: Seq<char>,
    params: ReadHandoffFileParams,
) -> Option<(Seq<char>, Seq<char>)> {
    let subagent_id = records::opt_view(params.subagent_id);
    if !delegation_tools::belongs_to(row, parent_session_id) {
        Some(delegation_tools::delegation_refusal(row))
    } else if request_refusal(subagent_id, params.file@) is Some {
        request_refusal(subagent_id, params.file@)
    } else if !handoff::safe_segment(row->0.id@) {
        Some(handoff::segment_error("delegation_id"@))
    } else if !handoff::safe_segment(named_subagent(subagent_id, params.file@)) {
        Some(handoff::segment_error("subagent_id"@))
    } else {
        None
    }
}

/// Opens a read: the delegation must be the parent's, the file must be one of
/// the vocabulary, and both ids must be plain names.
pub fn open_read(
    row: Option<Delegation>,
    parent_session_id: &str,
    params: ReadHandoffFileParams,
) -> (r: Result<HandoffRead, RpcError>)
    ensures
        r is Ok <==> opening_refusal(row, parent_session_id@, params) is None,
        r matches Err(e) ==> Some(e@) == opening_refusal(row, parent_session_id@, params),
        r matches Ok(read) ==> {
            &&& row == Some(read.delegation)
            &&& read.file == params.file
            &&& sound_read(read)
            &&& read.cancelled_transcript <==> !normal_file(params.file@)
            &&& read.subagent_id@ == named_subagent(
                records::opt_view(params.subagent_id),
                params.file@,
            )
        },
{
    let delegation = match load_delegation_for_parent(row, parent_session_id) {
        Ok(delegation) => delegation,
        Err(e) => {
            return Err(e);
        },
    };
    let (subagent_id, cancelled_transcript) = match parse_handoff_file_request(
        opt_str(&params.subagent_id),
        params.file.as_str(),
    ) {
        Ok(HandoffFileRequest::Normal { subagent_id, .. }) => (subagent_id.to_owned(), false),
        Ok(HandoffFileRequest::CancelledTranscript { subagent_id }) => (
            subagent_id.to_owned(),
            true,
        ),
        Err(e) => {
            return Err(e);
        },
    };
    match safe_path_segment(delegation.id.as_str(), "delegation_id") {
        Ok(_) => {},
        Err(e) => {
            return Err(e);
        },
    }
    match safe_path_segment(subagent_id.as_str(), "subagent_id") {
        Ok(_) => {},
        Err(e) => {
            return Err(e);
        },
    }
    Ok(HandoffRead { delegation, file: params.file, subagent_id, cancelled_transcript })
}

/// What is brought up to date before a file is read.
#[derive(Debug, PartialEq, Eq)]
pub enum HandoffReadRefresh {
    /// The subagent's task prompt is written.
    TaskPrompt(WorkspaceWrite),
    /// The delegation's normal files are written, final messages too.
    Artifacts,
    /// Only what was written before is read.
    Nothing,
}

/// A read that the delegation's status and the subagent's work permit. Only
/// through one is anything written, resolved or answered.
#[derive(Debug, PartialEq, Eq)]
pub struct PermittedRead {
    read: HandoffRead,
    members: Vec<DelegationSubagent>,
}

/// A read of a member's file that the subagent's own completion decides.
#[derive(Debug, PartialEq, Eq)]
pub struct UndecidedRead {
    read: HandoffRead,
    members: Vec<DelegationSubagent>,
}

/// Whether a read may go on.
#[derive(Debug, PartialEq, Eq)]
pub enum HandoffGate {
    Permitted(PermittedRead),
    Refused(RpcError),
    NeedsWorkState(UndecidedRead),
}

/// The read is for a member of the delegation, and its status does not refuse
/// the file.
pub open spec fn may_be_read(read: HandoffRead, members: Seq<DelegationSubagent>) -> bool {
    is_member(members, read.subagent_id@) && permitted(read) != Some(false)
}

impl HandoffRead {
    /// The read may go on for a member of the delegation whose status permits
    /// the file.
    pub fn gate(self, members: Vec<DelegationSubagent>) -> (r: HandoffGate)
        ensures
            if !is_member(members@, self.subagent_id@) {
                r matches HandoffGate::Refused(e) && e@ == not_a_member()
            } else if self.delegation.status is Running && !self.cancelled_transcript
                && !normal_file(self.file@) {
                r matches HandoffGate::Refused(e) && e@ == (
                    "invalid_params"@,
                    "unsupported handoff file "@ + self.file@,
                )
            } else {
                match permitted(self) {
                    Some(true) => r matches HandoffGate::Permitted(p) && p.of() == self
                        && p.members() == members@,
                    Some(false) => r matches HandoffGate::Refused(e) && e@ == (
                        "handoff_file_not_found"@,
                        unavailable_message(self.delegation.status),
                    ),
                    None => r matches HandoffGate::NeedsWorkState(u) && u.of() == self
                        && u.members() == members@,
                }
            },
    {
        let request = self.request();
        match validate_member_subagent(request, &members) {
            Ok(_) => {},
            Err(e) => {
                return HandoffGate::Refused(e);
            },
        }
        match read_allowed_for_status(self.delegation.status, request) {
            Ok(Some(true)) => HandoffGate::Permitted(PermittedRead { read: self, members }),
            Ok(Some(false)) => HandoffGate::Refused(
                unavailable_handoff_file_error(self.delegation.status),
            ),
            Ok(None) => HandoffGate::NeedsWorkState(UndecidedRead { read: self, members }),
            Err(e) => HandoffGate::Refused(e),
        }
    }
}

impl UndecidedRead {
    #[verifier::type_invariant]
    spec fn is_undecided(self) -> bool {
        is_member(self.members@, self.read.subagent_id@) && permitted(self.read) is None
    }

    pub closed spec fn of(self) -> HandoffRead {
        self.read
    }

    pub closed spec fn members(self) -> Seq<DelegationSubagent> {
        self.members@
    }

    pub fn read(&self) -> (r: &HandoffRead)
        ensures
            *r == self.of(),
    {
        &self.read
    }

    /// The subagent's completion opens its final message while the delegation
    /// runs.
    pub fn gate_with_work(self, work: &SubagentWorkState) -> (r: Result<PermittedRead, RpcError>)
        ensures
            r is Ok <==> work.terminal(),
            r matches Ok(p) ==> p.of() == self.of() && p.members() == self.members(),
            r matches Err(e) ==> e@ == (
                "handoff_file_not_found"@,
                unavailable_message(self.of().delegation.status),
            ),
    {
        proof {
            use_type_invariant(&self);
        }
        if work.is_completion_terminal() {
            Ok(PermittedRead { read: self.read, members: self.members })
        } else {
            Err(unavailable_handoff_file_error(self.read.delegation.status))
        }
    }
}

impl PermittedRead {
    #[verifier::type_invariant]
    spec fn is_permitted(self) -> bool {
        may_be_read(self.read, self.members@)
    }

    pub closed spec fn of(self) -> HandoffRead {
        self.read
    }

    pub closed spec fn members(self) -> Seq<DelegationSubagent> {
        self.members@
    }

    pub fn read(&self) -> (r: &HandoffRead)
        ensures
            *r == self.of(),
            may_be_read(self.of(), self.members()),
    {
        proof {
            use_type_invariant(self);
        }
        &self.read
    }

    /// What to bring up to date before the read. A task prompt that is not
    /// there is refused; cancelled and failed delegations are left as they are.
    pub fn refresh(&self, dir: &str) -> (r: Result<HandoffReadRefresh, RpcError>)
        ensures
            may_be_read(self.of(), self.members()),
            reads_task_prompt(self.of()) ==> {
                let member = first_member(self.members(), self.of().subagent_id@);
                match member {
                    None => false,
                    Some(_) if !handoff::safe_segment(self.of().subagent_id@) => r matches Err(e) && e@
                        == handoff::segment_error("subagent_id"@),
                    Some(m) => match handoff::written_task(records::opt_view(m.task)) {
                        None => r matches Err(e) && e@ == (
                            "handoff_file_not_found"@,
                            "task prompt is unavailable for this subagent"@,
                        ),
                        Some(task) => r matches Ok(HandoffReadRefresh::TaskPrompt(w)) && (
                            w.path@,
                            w.content@,
                        ) == handoff::task_prompt_write(dir@, self.of().subagent_id@, task),
                    },
                }
            },
            !reads_task_prompt(self.of()) ==> r is Ok && (if handoff::publishes(
                self.of().delegation.status,
            ) {
                r->Ok_0 is Artifacts
            } else {
                r->Ok_0 is Nothing
            }),
    {
        proof {
            use_type_invariant(self);
        }
        if !self.read.cancelled_transcript && same(self.read.file.as_str(), TASK_PROMPT_FILE) {
            let member = match find_member(&self.members, self.read.subagent_id.as_str()) {
                Some(member) => member,
                None => {
                    return Err(
                        RpcError::new(
                            "handoff_file_not_found",
                            "subagent does not belong to this delegation",
                        ),
                    );
                },
            };
            return match refresh_task_prompt_artifact_if_present(
                dir,
                self.read.subagent_id.as_str(),
                opt_str(&member.task),
            ) {
                Ok(Some(write)) => Ok(HandoffReadRefresh::TaskPrompt(write)),
                Ok(None) => Err(
                    RpcError::new(
                        "handoff_file_not_found",
                        "task prompt is unavailable for this subagent",
                    ),
                ),
                Err(e) => Err(e),
            };
        }
        if publishes_files(self.read.delegation.status) {
            Ok(HandoffReadRefresh::Artifacts)
        } else {
            Ok(HandoffReadRefresh::Nothing)
        }
    }

    /// The path to read and the root that it must stay below.
    pub fn target(&self, workspace: &str) -> (r: Result<HandoffTarget, RpcError>)
        ensures
            may_be_read(self.of(), self.members()),
            r is Ok <==> handoff::safe_segment(self.of().delegation.id@) && handoff::safe_segment(
                self.of().subagent_id@,
            ),
            r matches Ok(t) ==> t.root@ == paths::joined(workspace@, handoff::HANDOFF_DIR@)
                && t.path@ == target_path(workspace@, self.of()),
            r matches Err(e) ==> e@ == handoff::segment_error(
                if handoff::safe_segment(self.of().delegation.id@) {
                    "subagent_id"@
                } else {
                    "delegation_id"@
                },
            ),
    {
        proof {
            use_type_invariant(self);
        }
        let request = self.read.request();
        match resolve_handoff_file_path(workspace, self.read.delegation.id.as_str(), request) {
            Ok(path) => Ok(HandoffTarget { path, root: handoff_root(workspace) }),
            Err(e) => Err(e),
        }
    }

    /// The answer that carries the file.
    pub fn answer(&self, content: String) -> (r: Json)
        ensures
            r@ == read_answer_view(self.of(), content@),
    {
        Json::Object(
            JsonObject::new().with("delegation_id", Json::text(self.read.delegation.id.as_str())).with(
                "subagent_id",
                Json::text(self.read.subagent_id.as_str()),
            ).with("file", Json::text(self.read.file.as_str())).with("content", Json::Text(content)),
        )
    }
}

/// What the status says of the read's file.
pub open spec fn permitted(read: HandoffRead) -> Option<bool> {
    file_permitted(
        read.delegation.status,
        if read.cancelled_transcript {
            None
        } else {
            Some(read.file@)
        },
    )
}

pub open spec fn reads_task_prompt(read: HandoffRead) -> bool {
    !read.cancelled_transcript && read.file@ == TASK_PROMPT_FILE@
}

/// The path of the read's file.
pub open spec fn target_path(workspace: Seq<char>, read: HandoffRead) -> Seq<char> {
    let dir = paths::joined(
        workspace,
        handoff::delegation_dir_of(text::trimmed(read.delegation.id@)),
    );
    if read.cancelled_transcript {
        paths::joined(
            paths::joined(dir, "cancelled"@),
            text::trimmed(read.subagent_id@) + ".transcript.md"@,
        )
    } else {
        paths::joined(paths::joined(dir, text::trimmed(read.subagent_id@)), read.file@)
    }
}

pub open spec fn read_answer_view(read: HandoffRead, content: Seq<char>) -> JsonView {
    JsonView::Object(
        json::no_entries().insert("delegation_id"@, JsonView::Text(read.delegation.id@)).insert(
            "subagent_id"@,
            JsonView::Text(read.subagent_id@),
        ).insert("file"@, JsonView::Text(read.file@)).insert("content"@, JsonView::Text(content)),
    )
}

/// The path to read and the root that it must stay below.
#[derive(Debug, PartialEq, Eq)]
pub struct HandoffTarget {
    pub path: String,
    pub root: String,
}

/// What a host file operation came to.
#[derive(Debug, PartialEq, Eq)]
pub enum HostOutcome {
    Done(String),
    NotFound,
    Failed,
}

pub open spec fn file_not_found() -> (Seq<char>, Seq<char>) {
    (
        "handoff_file_not_found"@,
        "handoff file not found; the delegation may not have finished yet"@,
    )
}

pub open spec fn read_failed() -> (Seq<char>, Seq<char>) {
    ("handoff_file_read_failed"@, "failed to read handoff file"@)
}

/// The resolved path to read. A path that leaves the resolved root, by whatever
/// link, is refused, and no refusal tells a host path.
pub fn confine_target(resolved: HostOutcome, root: HostOutcome) -> (r: Result<String, RpcError>)
    ensures
        match (resolved, root) {
            (HostOutcome::NotFound, _) => r matches Err(e) && e@ == file_not_found(),
            (HostOutcome::Failed, _) => r matches Err(e) && e@ == read_failed(),
            (HostOutcome::Done(path), HostOutcome::Done(root)) => if paths::within(path@, root@) {
                r == Ok::<String, RpcError>(path)
            } else {
                r matches Err(e) && e@ == (
                    "invalid_params"@,
                    "resolved handoff path escapes the handoff directory"@,
                )
            },
            (HostOutcome::Done(_), _) => r matches Err(e) && e@ == read_failed(),
        },
{
    match resolved {
        HostOutcome::NotFound => Err(
            RpcError::new(
                "handoff_file_not_found",
                "handoff file not found; the delegation may not have finished yet",
            ),
        ),
        HostOutcome::Failed => Err(
            RpcError::new("handoff_file_read_failed", "failed to read handoff file"),
        ),
        HostOutcome::Done(path) => match root {
            HostOutcome::Done(root) => if is_within(path.as_str(), root.as_str()) {
                Ok(path)
            } else {
                Err(
                    RpcError::new(
                        "invalid_params",
                        "resolved handoff path escapes the handoff directory",
                    ),
                )
            },
            _ => Err(RpcError::new("handoff_file_read_failed", "failed to read handoff file")),
        },
    }
}

/// The content that was read.
pub fn read_content(content: HostOutcome) -> (r: Result<String, RpcError>)
    ensures
        match content {
            HostOutcome::Done(text) => r == Ok::<String, RpcError>(text),
            HostOutcome::NotFound => r matches Err(e) && e@ == file_not_found(),
            HostOutcome::Failed => r matches Err(e) && e@ == read_failed(),
        },
{
    match content {
        HostOutcome::Done(text) => Ok(text),
        HostOutcome::NotFound => Err(
            RpcError::new(
                "handoff_file_not_found",
                "handoff file not found; the delegation may not have finished yet",
            ),
        ),
        HostOutcome::Failed => Err(
            RpcError::new("handoff_file_read_failed", "failed to read handoff file"),
        ),
    }
}

// ---------------------------------------------------------------------------
// Laws

proof fn lemma_joined_name(base: Seq<char>, name: Seq<char>)
    requires
        base.len() > 0,
        base.last() != '/',
        name.len() > 0,
        name[0] != '/',
    ensures
        paths::joined(base, name) == base + "/"@ + name,
        paths::joined(base, name).last() == name.last(),
{
}

/// Joining a relative path to a base and then going on with a slash is joining
/// the longer path.
proof fn lemma_joined_further(base: Seq<char>, name: Seq<char>, rest: Seq<char>)
    requires
        name.len() > 0,
        name[0] != '/',
    ensures
        paths::joined(base, name).len() > 0,
        paths::joined(base, name).last() == name.last(),
        paths::joined(base, name) + rest == paths::joined(base, name + rest),
{
    assert((name + rest)[0] == name[0]);
    if base.len() == 0 || base.last() == '/' {
        assert(base + name + rest == base + (name + rest));
    } else {
        assert(base + "/"@ + name + rest == base + "/"@ + (name + rest));
    }
}

/// A file that resolves stands in a directory of its own directly below the
/// delegation's directory, which stands directly below the workspace's handoff
/// root: no id can lead elsewhere.
pub proof fn law_resolved_files_stay_below(
    workspace: Seq<char>,
    delegation_id: Seq<char>,
    request: HandoffFileRequest<'_>,
)
    requires
        handoff::safe_segment(delegation_id),
        handoff::safe_segment(requested_subagent(request)),
        request matches HandoffFileRequest::Normal { file, .. } ==> normal_file(file@),
    ensures
        ({
            let delegation = text::trimmed(delegation_id);
            let subagent = text::trimmed(requested_subagent(request));
            let path = file_below(
                paths::joined(workspace, handoff::delegation_dir_of(delegation)),
                request,
            );
            &&& paths::plain_name(delegation)
            &&& paths::plain_name(subagent)
            &&& path == paths::joined(
                workspace,
                handoff::HANDOFF_DIR@ + "/"@ + delegation + "/"@ + match request {
                    HandoffFileRequest::Normal { file, .. } => subagent + "/"@ + file@,
                    HandoffFileRequest::CancelledTranscript { .. } => "cancelled"@ + "/"@ + (
                    subagent + ".transcript.md"@),
                },
            )
            &&& paths::within(path, paths::joined(workspace, handoff::HANDOFF_DIR@))
        }),
{
    let delegation = text::trimmed(delegation_id);
    let subagent = text::trimmed(requested_subagent(request));
    let dir_name = handoff::delegation_dir_of(delegation);
    reveal_strlit(".pi-handoff");
    reveal_strlit("/");
    reveal_strlit("cancelled");
    reveal_strlit(".transcript.md");
    reveal_strlit("task_prompt.md");
    reveal_strlit("final_message.md");
    reveal_strlit("transcript.md");
    assert(!delegation.contains('/'));
    assert(delegation.contains(delegation.last()));
    assert(!subagent.contains('/'));
    assert(subagent.contains(subagent[0]));
    assert(subagent.contains(subagent.last()));
    assert(dir_name[0] == '.');
    assert(dir_name.last() == delegation.last());
    let dir = paths::joined(workspace, dir_name);
    let root = paths::joined(workspace, handoff::HANDOFF_DIR@);
    let path = file_below(dir, request);
    let tail = match request {
        HandoffFileRequest::Normal { file, .. } => subagent + "/"@ + file@,
        HandoffFileRequest::CancelledTranscript { .. } => "cancelled"@ + "/"@ + (subagent
            + ".transcript.md"@),
    };
    lemma_joined_further(workspace, dir_name, "/"@ + tail);
    match request {
        HandoffFileRequest::Normal { file, .. } => {
            lemma_joined_name(dir, subagent);
            lemma_joined_name(paths::joined(dir, subagent), file@);
        },
        HandoffFileRequest::CancelledTranscript { .. } => {
            let name = subagent + ".transcript.md"@;
            lemma_joined_name(dir, "cancelled"@);
            assert(name[0] == subagent[0]);
            lemma_joined_name(paths::joined(dir, "cancelled"@), name);
        },
    }
    assert(path == dir + ("/"@ + tail));
    assert(dir_name + ("/"@ + tail) == handoff::HANDOFF_DIR@ + "/"@ + delegation + "/"@ + tail);
    let below = "/"@ + delegation + "/"@ + tail;
    lemma_joined_further(workspace, handoff::HANDOFF_DIR@, below);
    assert(handoff::HANDOFF_DIR@ + below == dir_name + ("/"@ + tail));
    assert(path == root + below);
    assert(paths::joined(root, Seq::empty()) == root + "/"@);
    assert((root + "/"@).is_prefix_of(path));
}

/// A file that a refresh publishes is the file that a read of it resolves to:
/// for ids without white space around them, the written path joined to the
/// workspace is the path that is read.
pub proof fn law_published_files_are_read_back(
    workspace: Seq<char>,
    read: HandoffRead,
)
    requires
        sound_read(read),
        !read.cancelled_transcript,
        read.delegation.id@ == text::trimmed(read.delegation.id@),
        read.subagent_id@ == text::trimmed(read.subagent_id@),
    ensures
        target_path(workspace, read) == paths::joined(
            workspace,
            handoff::delegation_dir_of(read.delegation.id@) + "/"@ + handoff::member_file(
                read.subagent_id@,
                read.file@,
            ),
        ),
{
    let delegation = read.delegation.id@;
    let subagent = read.subagent_id@;
    reveal_strlit(".pi-handoff");
    reveal_strlit("/");
    reveal_strlit("task_prompt.md");
    reveal_strlit("final_message.md");
    reveal_strlit("transcript.md");
    assert(delegation.contains(delegation.last()));
    assert(subagent.contains(subagent[0]));
    assert(subagent.contains(subagent.last()));
    let dir_name = handoff::delegation_dir_of(delegation);
    assert(dir_name[0] == '.');
    assert(dir_name.last() == delegation.last());
    let member = handoff::member_file(subagent, read.file@);
    lemma_joined_further(workspace, dir_name, "/"@ + member);
    let dir = paths::joined(workspace, dir_name);
    lemma_joined_name(dir, subagent);
    lemma_joined_name(paths::joined(dir, subagent), read.file@);
    assert(target_path(workspace, read) == dir + ("/"@ + member));
    assert(dir_name + ("/"@ + member) == dir_name + "/"@ + member);
}

/// A cancelled or failed delegation never hands out a normal transcript, a
/// failed one hands out task prompts only, and a cancellation transcript is
/// handed out by a cancelled delegation only.
pub proof fn law_terminal_reads_are_bounded(read: HandoffRead)
    requires
        sound_read(read),
    ensures
        read.delegation.status is Cancelled && permitted(read) == Some(true)
            && !read.cancelled_transcript ==> read.file@ != "transcript.md"@,
        read.delegation.status is Failed && permitted(read) == Some(true) ==> reads_task_prompt(
            read,
        ),
        read.cancelled_transcript ==> permitted(read) == Some(read.delegation.status is Cancelled),
        permitted(read) is None <==> read.delegation.status is Running
            && !read.cancelled_transcript && read.file@ == "final_message.md"@,
        reads_task_prompt(read) ==> permitted(read) == Some(true),
{
    reveal_strlit("task_prompt.md");
    reveal_strlit("final_message.md");
    reveal_strlit("transcript.md");
}

/// Which of the files of a subagent may be read at which status. The task prompt
/// always may. While the delegation runs the transcript may, and of the final
/// message the subagent's own work decides. Once it completed all may. Of a
/// cancelled one the final message still may and the transcript may not; of a
/// failed one neither. A kept transcript may be read of a cancelled one alone.
pub proof fn law_what_may_be_read(status: DelegationStatus)
    ensures
        file_permitted(status, Some("task_prompt.md"@)) == Some(true),
        file_permitted(status, Some("transcript.md"@)) == Some(
            status is Running || status is Done || status is DoneWithFailures,
        ),
        file_permitted(status, Some("final_message.md"@)) == (match status {
            DelegationStatus::Running => None,
            DelegationStatus::Done => Some(true),
            DelegationStatus::DoneWithFailures => Some(true),
            DelegationStatus::Cancelled => Some(true),
            DelegationStatus::Failed => Some(false),
        }),
        file_permitted(status, None) == Some(status is Cancelled),
{
    reveal_strlit("task_prompt.md");
    reveal_strlit("transcript.md");
    reveal_strlit("final_message.md");
    assert("task_prompt.md"@.len() == 14);
    assert("transcript.md"@.len() == 13);
    assert("final_message.md"@.len() == 16);
}

/// The permission of a request is that of the file it names.
pub proof fn law_requests_are_permitted_by_file(
    status: DelegationStatus,
    subagent_id: &str,
    file: &str,
)
    ensures
        status_permits(status, HandoffFileRequest::Normal { subagent_id, file }) == file_permitted(
            status,
            Some(file@),
        ),
        status_permits(status, HandoffFileRequest::CancelledTranscript { subagent_id })
            == file_permitted(status, None),
        requested_subagent(HandoffFileRequest::Normal { subagent_id, file }) == subagent_id@,
        requested_subagent(HandoffFileRequest::CancelledTranscript { subagent_id })
            == subagent_id@,
{
}

/// The three files of a subagent need a subagent id and take any; nothing else
/// but a kept transcript can be asked for.
pub proof fn law_files_need_their_subagent(subagent_id: Option<Seq<char>>, file: Seq<char>)
    ensures
        ({
            let normal = file == "task_prompt.md"@ || file == "final_message.md"@ || file
                == "transcript.md"@;
            &&& normal_file(file) <==> normal
            &&& normal && subagent_id is None ==> request_refusal(subagent_id, file) == Some(
                ("invalid_params"@, file + " requires a subagent_id"@),
            )
            &&& normal && subagent_id is Some ==> request_refusal(subagent_id, file) is None
                && named_subagent(subagent_id, file) == subagent_id->0
            &&& !normal && (forall|id: Seq<char>|
                file != #[trigger] ("cancelled/"@ + id + ".transcript.md"@)) ==> request_refusal(
                subagent_id,
                file,
            ) == Some(
                (
                    "invalid_params"@,
                    "file must be one of task_prompt.md | final_message.md | transcript.md | cancelled/<subagent_id>.transcript.md, got "@
                        + file,
                ),
            )
        }),
{
    if cancelled_id(file) is Some {
        let rest = file.skip("cancelled/"@.len() as int);
        let id = cancelled_id(file)->0;
        assert(rest == id + ".transcript.md"@);
        assert(file == "cancelled/"@ + id + ".transcript.md"@);
    }
}

/// A kept transcript names its subagent in its path: the id must be a plain name,
/// and a subagent id that is given besides must be the same.
pub proof fn law_kept_transcripts_name_their_subagent(
    subagent_id: Option<Seq<char>>,
    id: Seq<char>,
)
    ensures
        ({
            let file = "cancelled/"@ + id + ".transcript.md"@;
            &&& !handoff::safe_segment(id) ==> request_refusal(subagent_id, file) == Some(
                ("invalid_params"@, "subagent_id"@ + " is not a valid path segment"@),
            )
            &&& handoff::safe_segment(id) && (subagent_id matches Some(given) && given != id)
                ==> request_refusal(subagent_id, file) == Some(
                (
                    "invalid_params"@,
                    "subagent_id does not match cancellation transcript path"@,
                ),
            )
            &&& handoff::safe_segment(id) && (subagent_id matches Some(given) ==> given == id)
                ==> request_refusal(subagent_id, file) is None && named_subagent(subagent_id, file)
                == id
        }),
{
    let file = "cancelled/"@ + id + ".transcript.md"@;
    reveal_strlit("cancelled/");
    reveal_strlit(".transcript.md");
    reveal_strlit("task_prompt.md");
    reveal_strlit("transcript.md");
    reveal_strlit("final_message.md");
    assert(file[0] == 'c');
    assert("task_prompt.md"@[0] == 't');
    assert("transcript.md"@[0] == 't');
    assert("final_message.md"@[0] == 'f');
    let rest = file.skip(10);
    assert(rest == id + ".transcript.md"@);
    assert("cancelled/"@.is_prefix_of(file));
    assert(".transcript.md"@.is_suffix_of(rest));
    assert(rest.take(rest.len() - 14) == id);
}

/// A subagent belongs to a delegation exactly when a member carries its id, and
/// it is the first that does.
pub proof fn law_members_are_found_by_id(
    members: Seq<DelegationSubagent>,
    subagent_id: Seq<char>,
    i: int,
)
    ensures
        0 <= i < members.len() && members[i].session_id@ == subagent_id ==> is_member(
            members,
            subagent_id,
        ),
        0 <= i < members.len() && members[i].session_id@ == subagent_id && (forall|j: int|
            0 <= j < i ==> (#[trigger] members[j]).session_id@ != subagent_id) ==> first_member(
            members,
            subagent_id,
        ) == Some(members[i]),
        (forall|j: int|
            0 <= j < members.len() ==> (#[trigger] members[j]).session_id@ != subagent_id) ==> !(
        is_member(members, subagent_id)) && first_member(members, subagent_id) is None,
    decreases members.len(),
{
    if members.len() > 0 {
        let rest = members.skip(1);
        assert forall|j: int| 0 <= j < rest.len() implies #[trigger] rest[j] == members[j + 1] by {
        }
        law_members_are_found_by_id(rest, subagent_id, i - 1);
    }
}

/// A read is refused in exactly these cases, the first that holds: the
/// delegation is missing or not the parent's; the file cannot be asked for so;
/// or the delegation's or the subagent's id is no plain name.
pub proof fn law_reads_are_refused_in_order(
    row: Option<Delegation>,
    parent_session_id: Seq<char>,
    params: ReadHandoffFileParams,
)
    ensures
        ({
            let refusal = opening_refusal(row, parent_session_id, params);
            let asked = request_refusal(records::opt_view(params.subagent_id), params.file@);
            let named = named_subagent(records::opt_view(params.subagent_id), params.file@);
            &&& row is None ==> refusal == Some(("delegation_not_found"@, "delegation not found"@))
            &&& row matches Some(d) ==> {
                let own = d.parent_session_id@ == parent_session_id;
                &&& !own ==> refusal == Some(
                    ("delegation_not_found"@, "delegation is not in scope"@),
                )
                &&& own && asked is Some ==> refusal == asked
                &&& own && asked is None && !handoff::safe_segment(d.id@) ==> refusal == Some(
                    ("invalid_params"@, "delegation_id"@ + " is not a valid path segment"@),
                )
                &&& own && asked is None && handoff::safe_segment(d.id@) && !handoff::safe_segment(
                    named,
                ) ==> refusal == Some(
                    ("invalid_params"@, "subagent_id"@ + " is not a valid path segment"@),
                )
                &&& refusal is None <==> own && asked is None && handoff::safe_segment(d.id@)
                    && handoff::safe_segment(named)
            }
        }),
{
}

/// The answer of a read names the delegation, the subagent and the file as they
/// were asked for, and holds the content.
pub proof fn law_read_answers_hold_the_content(read: HandoffRead, content: Seq<char>)
    ensures
        ({
            let answer = read_answer_view(read, content);
            &&& json::get_view(answer, "delegation_id"@) == Some(
                JsonView::Text(read.delegation.id@),
            )
            &&& json::get_view(answer, "subagent_id"@) == Some(JsonView::Text(read.subagent_id@))
            &&& json::get_view(answer, "file"@) == Some(JsonView::Text(read.file@))
            &&& json::get_view(answer, "content"@) == Some(JsonView::Text(content))
        }),
{
    reveal_strlit("delegation_id");
    reveal_strlit("subagent_id");
    reveal_strlit("file");
    reveal_strlit("content");
    assert("delegation_id"@.len() == 13);
    assert("subagent_id"@.len() == 11);
    assert("file"@.len() == 4);
    assert("content"@.len() == 7);
}

/// How a file that may not be read, or is not there, is refused at each status.
pub proof fn law_unavailable_files_are_explained(status: DelegationStatus)
    ensures
        unavailable_message(status) == (match status {
            DelegationStatus::Running =>
                "handoff file not found; the delegation may not have finished yet"@,
            DelegationStatus::Done => "handoff file not found"@,
            DelegationStatus::DoneWithFailures => "handoff file not found"@,
            DelegationStatus::Cancelled =>
                "normal handoff files are not published for cancelled delegations"@,
            DelegationStatus::Failed => "handoff files are not published for failed delegations"@,
        }),
{
}

/// What a cancellation keeps of a subagent is what a read of its kept transcript
/// goes for.
pub proof fn law_kept_transcripts_are_read_back(
    workspace: Seq<char>,
    read: HandoffRead,
    m: delegation_tools::CancelledMember,
)
    requires
        read.cancelled_transcript,
        text::trimmed(read.subagent_id@) == text::trimmed(m.session_id@),
    ensures
        target_path(workspace, read) == delegation_tools::kept_transcript(
            paths::joined(workspace, ".pi-handoff"@ + "/"@ + text::trimmed(read.delegation.id@)),
            m,
        ).0,
{
}

/// A read goes for the file that its request resolves to.
pub proof fn law_reads_resolve_their_request(
    workspace: Seq<char>,
    read: HandoffRead,
    request: HandoffFileRequest<'_>,
)
    requires
        read_request(read, request),
    ensures
        target_path(workspace, read) == file_below(
            paths::joined(workspace, ".pi-handoff"@ + "/"@ + text::trimmed(read.delegation.id@)),
            request,
        ),
        requested_subagent(request) == read.subagent_id@,
        read.cancelled_transcript <==> request is CancelledTranscript,
        request matches HandoffFileRequest::Normal { file, .. } ==> file@ == read.file@,
{
}

/// What may be read once it is asked for: a kept transcript of a cancelled
/// delegation alone; a task prompt always; a transcript while the delegation
/// runs and once it completed; a final message once it completed and of a
/// cancelled one, while of a running one the subagent's own work decides.
pub proof fn law_reads_are_permitted_by_file(read: HandoffRead)
    ensures
        read.cancelled_transcript ==> permitted(read) == Some(read.delegation.status is Cancelled),
        !read.cancelled_transcript && read.file@ == "task_prompt.md"@ ==> permitted(read) == Some(
            true,
        ),
        !read.cancelled_transcript && read.file@ == "transcript.md"@ ==> permitted(read) == Some(
            !(read.delegation.status is Cancelled || read.delegation.status is Failed),
        ),
        !read.cancelled_transcript && read.file@ == "final_message.md"@ ==> {
            &&& read.delegation.status is Running ==> permitted(read) is None
            &&& !(read.delegation.status is Running) ==> permitted(read) == Some(
                !(read.delegation.status is Failed),
            )
        },
        reads_task_prompt(read) <==> !read.cancelled_transcript && read.file@ == "task_prompt.md"@,
{
    law_what_may_be_read(read.delegation.status);
}

/// A request that was read names its file and its subagent, and is one for a
/// kept transcript exactly when the file is none of the three normal ones.
pub proof fn law_requests_keep_what_was_asked(
    r: Result<HandoffFileRequest<'_>, RpcError>,
    subagent_id: Option<Seq<char>>,
    file: Seq<char>,
)
    requires
        file_request(r, subagent_id, file),
    ensures
        r is Ok <==> request_refusal(subagent_id, file) is None,
        r matches Err(e) ==> request_refusal(subagent_id, file) == Some((e.code@, e.message@)),
        r matches Ok(request) ==> {
            &&& requested_subagent(request) == named_subagent(subagent_id, file)
            &&& match request {
                HandoffFileRequest::Normal { file: f, .. } => f@ == file && (file
                    == "task_prompt.md"@ || file == "final_message.md"@ || file
                    == "transcript.md"@),
                HandoffFileRequest::CancelledTranscript { .. } => file != "task_prompt.md"@ && file
                    != "final_message.md"@ && file != "transcript.md"@,
            }
        },
{
}

/// The one thing that a running delegation answers as an error of its own is a
/// request for none of its three files; no other request is answered so.
pub proof fn law_unsupported_files_are_running_ones(
    status: DelegationStatus,
    request: HandoffFileRequest<'_>,
)
    ensures
        unsupported_while_running(status, request) <==> status is Running && (match request {
            HandoffFileRequest::Normal { file, .. } => file@ != "task_prompt.md"@ && file@
                != "final_message.md"@ && file@ != "transcript.md"@,
            HandoffFileRequest::CancelledTranscript { .. } => false,
        }),
{
}

} // verus!
