//! Steering and interrupting a subagent.
//!
//! A control goes through fixed stages, each a type of its own: the request is
//! read, the subagent is found to be in the parent's scope, an earlier control
//! under the same id is answered again, the child is recovered and found to
//! have work, the control is queued, the child is driven, and the answer tells
//! what became of it. Each stage is made by the step before it, and every step
//! between two reads or writes of the store is a function here.
use vstd::prelude::*;

use crate::delegation_tools::{self, trim_required, SubagentWorkState};
use crate::interop::{self, fresh_uuid};
use crate::json::{self, Json, JsonObject, JsonView};
use crate::records::{
    self, opt_str, Delegation, DelegationStatus, EnqueuedControl, SubagentControlPhase,
    SubagentControlRecord, SubagentType,
};
use crate::text::{self, contains_text, same};
use crate::types::RpcError;

verus! {

// ---------------------------------------------------------------------------
// Scope

/// A subagent and the parent session that claims it.
#[derive(Debug, PartialEq, Eq)]
pub struct ScopeQuery {
    pub subagent_id: String,
    pub parent_session_id: String,
}

/// A session that is known to be a child of the parent.
#[derive(Debug, PartialEq, Eq)]
pub struct ScopeOfChild {
    pub query: ScopeQuery,
}

/// A child of the parent that is known to be a subagent.
#[derive(Debug, PartialEq, Eq)]
pub struct ScopeOfSubagent {
    pub query: ScopeQuery,
}

/// A subagent of the parent with the delegation that it names.
#[derive(Debug, PartialEq, Eq)]
pub struct ScopeOfMember {
    pub query: ScopeQuery,
    pub delegation_id: String,
}

/// A subagent in the parent's scope, with its delegation.
#[derive(Debug, PartialEq, Eq)]
pub struct SubagentScope {
    pub query: ScopeQuery,
    pub delegation: Delegation,
}

pub open spec fn not_in_scope() -> (Seq<char>, Seq<char>) {
    ("subagent_not_found"@, "subagent is not in scope"@)
}

fn out_of_scope() -> (r: RpcError)
    ensures
        r@ == not_in_scope(),
{
    RpcError::new("subagent_not_found", "subagent is not in scope")
}

impl ScopeQuery {
    /// The stored parent of the subagent decides; `None` where it could not be
    /// loaded.
    pub fn with_parent(self, loaded: Option<Option<String>>) -> (r: Result<ScopeOfChild, RpcError>)
        ensures
            r is Ok <==> (loaded matches Some(Some(parent)) && parent@
                == self.parent_session_id@),
            r matches Ok(s) ==> s.query == self,
            r matches Err(e) ==> e@ == (if loaded is None {
                ("subagent_not_found"@, "subagent not found"@)
            } else {
                not_in_scope()
            }),
    {
        match loaded {
            None => Err(RpcError::new("subagent_not_found", "subagent not found")),
            Some(None) => Err(out_of_scope()),
            Some(Some(parent)) => if same(parent.as_str(), self.parent_session_id.as_str()) {
                Ok(ScopeOfChild { query: self })
            } else {
                Err(out_of_scope())
            },
        }
    }
}

impl ScopeOfChild {
    /// Only a session with a subagent type is a subagent.
    pub fn with_type(self, subagent_type: Option<SubagentType>) -> (r: Result<
        ScopeOfSubagent,
        RpcError,
    >)
        ensures
            r is Ok <==> subagent_type is Some,
            r matches Ok(s) ==> s.query == self.query,
            r matches Err(e) ==> e@ == not_in_scope(),
    {
        match subagent_type {
            Some(_) => Ok(ScopeOfSubagent { query: self.query }),
            None => Err(out_of_scope()),
        }
    }
}

impl ScopeOfSubagent {
    /// The delegation that the subagent names; `None` where it could not be
    /// loaded.
    pub fn with_delegation_id(self, loaded: Option<Option<String>>) -> (r: Result<
        ScopeOfMember,
        RpcError,
    >)
        ensures
            r is Ok <==> loaded matches Some(Some(_)),
            r matches Ok(s) ==> s.query == self.query && loaded == Some(Some(s.delegation_id)),
            r matches Err(e) ==> e@ == not_in_scope(),
    {
        match loaded {
            Some(Some(delegation_id)) => Ok(ScopeOfMember { query: self.query, delegation_id }),
            _ => Err(out_of_scope()),
        }
    }
}

impl ScopeOfMember {
    /// The delegation row must exist and belong to the parent.
    pub fn with_delegation(self, row: Option<Delegation>) -> (r: Result<SubagentScope, RpcError>)
        ensures
            r is Ok <==> (row matches Some(d) && d.parent_session_id@
                == self.query.parent_session_id@),
            r matches Ok(s) ==> s.query == self.query && row == Some(s.delegation),
            r matches Err(e) ==> e@ == (if row is None {
                ("delegation_not_found"@, "delegation not found"@)
            } else {
                not_in_scope()
            }),
    {
        match row {
            None => Err(RpcError::new("delegation_not_found", "delegation not found")),
            Some(delegation) => if same(
                delegation.parent_session_id.as_str(),
                self.query.parent_session_id.as_str(),
            ) {
                Ok(SubagentScope { query: self.query, delegation })
            } else {
                Err(out_of_scope())
            },
        }
    }
}

pub open spec fn steer_needs_running() -> (Seq<char>, Seq<char>) {
    ("delegation_not_running"@, "cannot steer a subagent whose delegation is terminal"@)
}

fn ensure_delegation_running(scope: &SubagentScope) -> (r: Result<(), RpcError>)
    ensures
        r is Ok <==> scope.delegation.status is Running,
        r matches Err(e) ==> e@ == steer_needs_running(),
{
    if is_running(scope.delegation.status) {
        Ok(())
    } else {
        Err(
            RpcError::new(
                "delegation_not_running",
                "cannot steer a subagent whose delegation is terminal",
            ),
        )
    }
}

/// Why a subagent in scope may not be steered.
pub open spec fn steer_refusal(status: DelegationStatus, work: SubagentWorkState) -> Option<
    (Seq<char>, Seq<char>),
> {
    if !(status is Running) {
        Some(steer_needs_running())
    } else if work.terminal() {
        Some(("subagent_terminal"@, "cannot steer a subagent that is already terminal"@))
    } else if !work.active() {
        Some(
            (
                "subagent_not_running"@,
                "cannot steer a subagent without active work or queued input"@,
            ),
        )
    } else {
        None
    }
}

/// A subagent may be steered while its delegation runs and it has work left. A
/// boundary leaf with queued, unfinished or live work is still active; only an
/// idle child at a boundary is terminal.
pub fn ensure_subagent_steer_allowed(scope: &SubagentScope, work: &SubagentWorkState) -> (r: Result<
    (),
    RpcError,
>)
    ensures
        r is Ok <==> steer_refusal(scope.delegation.status, *work) is None,
        r matches Err(e) ==> Some(e@) == steer_refusal(scope.delegation.status, *work),
{
    match ensure_delegation_running(scope) {
        Ok(_) => {},
        Err(e) => {
            return Err(e);
        },
    }
    if work.is_completion_terminal() {
        return Err(
            RpcError::new("subagent_terminal", "cannot steer a subagent that is already terminal"),
        );
    }
    if !work.has_active_work() {
        return Err(
            RpcError::new(
                "subagent_not_running",
                "cannot steer a subagent without active work or queued input",
            ),
        );
    }
    Ok(())
}

fn is_running(status: DelegationStatus) -> (r: bool)
    ensures
        r == (status is Running),
{
    match status {
        DelegationStatus::Running => true,
        _ => false,
    }
}

/// A subagent may be steered exactly while its delegation runs and there is
/// something left for it to run.
pub proof fn law_steering_needs_work(status: DelegationStatus, work: SubagentWorkState)
    ensures
        steer_refusal(status, work) is None <==> status is Running && work.active(),
        work.terminal() ==> !work.active(),
{
}

// ---------------------------------------------------------------------------
// The request

/// What a control asks of the subagent.
#[derive(Debug, PartialEq, Eq)]
pub enum ControlAsk {
    Steer { message: String, interrupt: bool },
    Interrupt,
}

#[derive(Debug, PartialEq, Eq)]
pub struct SteerSubagentParams {
    pub subagent_id: String,
    pub message: String,
    pub interrupt: Option<bool>,
    pub client_control_id: Option<String>,
}

#[derive(Debug, PartialEq, Eq)]
pub struct InterruptSubagentParams {
    pub subagent_id: String,
    pub client_control_id: Option<String>,
}

/// A control as it was asked for.
#[derive(Debug, PartialEq, Eq)]
pub struct ControlRequest {
    pub subagent_id: String,
    pub client_control_id: String,
    pub ask: ControlAsk,
}

pub open spec fn blank(s: Seq<char>) -> bool {
    text::trimmed(s).len() == 0
}

/// The first required field that is blank.
pub open spec fn steer_blank_field(p: SteerSubagentParams) -> Option<Seq<char>> {
    if blank(p.subagent_id@) {
        Some("subagent_id"@)
    } else if blank(p.message@) {
        Some("message"@)
    } else if p.client_control_id matches Some(id) && blank(id@) {
        Some("client_control_id"@)
    } else {
        None
    }
}

pub open spec fn interrupt_blank_field(p: InterruptSubagentParams) -> Option<Seq<char>> {
    if blank(p.subagent_id@) {
        Some("subagent_id"@)
    } else if p.client_control_id matches Some(id) && blank(id@) {
        Some("client_control_id"@)
    } else {
        None
    }
}

/// The caller's control id, or a fresh one.
pub open spec fn control_id(given: Option<Seq<char>>, fresh: Seq<char>) -> Seq<char> {
    match given {
        Some(id) => text::trimmed(id),
        None => fresh,
    }
}

fn take_control_id(given: &Option<String>, fresh: String) -> (r: Result<String, RpcError>)
    ensures
        r is Ok <==> !(given matches Some(id) && blank(id@)),
        r matches Ok(id) ==> id@ == control_id(records::opt_view(*given), fresh@),
        r matches Err(e) ==> e@ == delegation_tools::empty_field_error("client_control_id"@),
{
    match given {
        Some(id) => trim_required(id.as_str(), "client_control_id"),
        None => Ok(fresh),
    }
}

impl ControlRequest {
    /// Reads a steer, with `fresh` as the control id where none is given.
    pub fn steer_with(params: &SteerSubagentParams, fresh: String) -> (r: Result<
        ControlRequest,
        RpcError,
    >)
        ensures
            r is Ok <==> steer_blank_field(*params) is None,
            r matches Err(e) ==> e@ == delegation_tools::empty_field_error(
                steer_blank_field(*params)->0,
            ),
            r matches Ok(q) ==> {
                &&& q.subagent_id@ == text::trimmed(params.subagent_id@)
                &&& q.client_control_id@ == control_id(
                    records::opt_view(params.client_control_id),
                    fresh@,
                )
                &&& q.ask matches ControlAsk::Steer { message, interrupt }
                &&& message@ == text::trimmed(params.message@)
                &&& interrupt == (params.interrupt == Some(true))
            },
    {
        let subagent_id = match trim_required(params.subagent_id.as_str(), "subagent_id") {
            Ok(id) => id,
            Err(e) => {
                return Err(e);
            },
        };
        let message = match trim_required(params.message.as_str(), "message") {
            Ok(message) => message,
            Err(e) => {
                return Err(e);
            },
        };
        let interrupt = match params.interrupt {
            Some(interrupt) => interrupt,
            None => false,
        };
        match take_control_id(&params.client_control_id, fresh) {
            Ok(client_control_id) => Ok(
                ControlRequest {
                    subagent_id,
                    client_control_id,
                    ask: ControlAsk::Steer { message, interrupt },
                },
            ),
            Err(e) => Err(e),
        }
    }

    /// Reads a steer; without a control id it gets a random one.
    pub fn steer(params: &SteerSubagentParams) -> (r: Result<ControlRequest, RpcError>)
        ensures
            r is Ok <==> steer_blank_field(*params) is None,
            r matches Err(e) ==> e@ == delegation_tools::empty_field_error(
                steer_blank_field(*params)->0,
            ),
            r matches Ok(q) ==> {
                &&& q.subagent_id@ == text::trimmed(params.subagent_id@)
                &&& match params.client_control_id {
                    Some(id) => q.client_control_id@ == text::trimmed(id@),
                    None => interop::uuid_text(q.client_control_id@),
                }
                &&& q.ask matches ControlAsk::Steer { message, interrupt }
                &&& message@ == text::trimmed(params.message@)
                &&& interrupt == (params.interrupt == Some(true))
            },
    {
        ControlRequest::steer_with(params, fresh_uuid())
    }

    /// Reads an interrupt, with `fresh` as the control id where none is given.
    pub fn interrupt_with(params: &InterruptSubagentParams, fresh: String) -> (r: Result<
        ControlRequest,
        RpcError,
    >)
        ensures
            r is Ok <==> interrupt_blank_field(*params) is None,
            r matches Err(e) ==> e@ == delegation_tools::empty_field_error(
                interrupt_blank_field(*params)->0,
            ),
            r matches Ok(q) ==> {
                &&& q.subagent_id@ == text::trimmed(params.subagent_id@)
                &&& q.client_control_id@ == control_id(
                    records::opt_view(params.client_control_id),
                    fresh@,
                )
                &&& q.ask is Interrupt
            },
    {
        let subagent_id = match trim_required(params.subagent_id.as_str(), "subagent_id") {
            Ok(id) => id,
            Err(e) => {
                return Err(e);
            },
        };
        match take_control_id(&params.client_control_id, fresh) {
            Ok(client_control_id) => Ok(
                ControlRequest { subagent_id, client_control_id, ask: ControlAsk::Interrupt },
            ),
            Err(e) => Err(e),
        }
    }

    /// Reads an interrupt; without a control id it gets a random one.
    pub fn interrupt(params: &InterruptSubagentParams) -> (r: Result<ControlRequest, RpcError>)
        ensures
            r is Ok <==> interrupt_blank_field(*params) is None,
            r matches Err(e) ==> e@ == delegation_tools::empty_field_error(
                interrupt_blank_field(*params)->0,
            ),
            r matches Ok(q) ==> {
                &&& q.subagent_id@ == text::trimmed(params.subagent_id@)
                &&& match params.client_control_id {
                    Some(id) => q.client_control_id@ == text::trimmed(id@),
                    None => interop::uuid_text(q.client_control_id@),
                }
                &&& q.ask is Interrupt
            },
    {
        ControlRequest::interrupt_with(params, fresh_uuid())
    }
}

// ---------------------------------------------------------------------------
// The control in its scope

/// Where the store or a drive stumbled after the control was accepted.
#[derive(Debug, PartialEq, Eq)]
pub struct DriveFailure {
    pub reason: &'static str,
    pub error: RpcError,
}

/// The event that records a failure after acceptance.
pub open spec fn failure_event_view(reason: Seq<char>, message: Seq<char>) -> JsonView {
    JsonView::Object(
        json::no_entries().insert("error"@, JsonView::Text(message)).insert(
            "reason"@,
            JsonView::Text(reason),
        ).insert("accepted"@, JsonView::Bool(true)),
    )
}

impl DriveFailure {
    /// The payload of the recorded event.
    pub fn event(&self) -> (r: Json)
        ensures
            r@ == failure_event_view(self.reason@, self.error.message@),
    {
        Json::Object(
            JsonObject::new().with("error", Json::text(self.error.message.as_str())).with(
                "reason",
                Json::text(self.reason),
            ).with("accepted", Json::Bool(true)),
        )
    }
}

/// The name of the operation, for the reasons that are logged.
pub open spec fn ask_name(ask: ControlAsk) -> Seq<char> {
    match ask {
        ControlAsk::Steer { .. } => "steer_subagent"@,
        ControlAsk::Interrupt => "interrupt_subagent"@,
    }
}

/// How a control on a terminal delegation is refused.
pub open spec fn terminal_delegation_error(ask: ControlAsk) -> (Seq<char>, Seq<char>) {
    (
        "delegation_not_running"@,
        match ask {
            ControlAsk::Steer { .. } => "cannot steer a subagent whose delegation is terminal"@,
            ControlAsk::Interrupt =>
                "cannot interrupt a subagent whose delegation is terminal"@,
        },
    )
}

fn terminal_delegation(ask: &ControlAsk) -> (r: RpcError)
    ensures
        r@ == terminal_delegation_error(*ask),
{
    match ask {
        ControlAsk::Steer { .. } => RpcError::new(
            "delegation_not_running",
            "cannot steer a subagent whose delegation is terminal",
        ),
        ControlAsk::Interrupt => RpcError::new(
            "delegation_not_running",
            "cannot interrupt a subagent whose delegation is terminal",
        ),
    }
}

/// The key under which a control is kept: its delegation and the caller's id.
pub open spec fn control_key(delegation_id: Seq<char>, client_control_id: Seq<char>) -> Seq<char> {
    "subagent-control:"@ + delegation_id + ":"@ + client_control_id
}

/// A control whose subagent is in scope.
#[derive(Debug, PartialEq, Eq)]
pub struct ScopedControl {
    pub subagent_id: String,
    pub parent_session_id: String,
    pub delegation_id: String,
    pub delegation_status: DelegationStatus,
    pub client_input_id: String,
    pub ask: ControlAsk,
}

impl ControlRequest {
    /// The control under its immutable key.
    pub fn in_scope(self, scope: &SubagentScope) -> (r: ScopedControl)
        ensures
            r.subagent_id == self.subagent_id,
            r.parent_session_id@ == scope.query.parent_session_id@,
            r.delegation_id@ == scope.delegation.id@,
            r.delegation_status == scope.delegation.status,
            r.client_input_id@ == control_key(scope.delegation.id@, self.client_control_id@),
            r.ask == self.ask,
    {
        let client_input_id = "subagent-control:".to_owned().concat(
            scope.delegation.id.as_str(),
        ).concat(":").concat(self.client_control_id.as_str());
        ScopedControl {
            subagent_id: self.subagent_id,
            parent_session_id: scope.query.parent_session_id.clone(),
            delegation_id: scope.delegation.id.clone(),
            delegation_status: scope.delegation.status,
            client_input_id,
            ask: self.ask,
        }
    }
}

/// A control found under its key is nudged again while its delegation runs, it
/// is still queued, and it has not come as far as it can.
pub open spec fn replay_nudges(ask: ControlAsk, control: SubagentControlRecord) -> bool {
    &&& control.delegation_running
    &&& control.status.outstanding()
    &&& match control.phase {
        SubagentControlPhase::PendingInterrupt | SubagentControlPhase::InterruptApplied => true,
        SubagentControlPhase::Ready => ask is Steer,
        SubagentControlPhase::Cancelled => false,
    }
}

/// What the control's answer calls the state of its drive.
pub open spec fn drive_status(control: SubagentControlRecord, drive_failed: bool) -> Seq<char> {
    if drive_failed {
        "failed"@
    } else {
        match control.phase {
            SubagentControlPhase::PendingInterrupt
            | SubagentControlPhase::InterruptApplied => "pending"@,
            SubagentControlPhase::Ready => if control.status.outstanding() {
                "started"@
            } else {
                "settled"@
            },
            SubagentControlPhase::Cancelled => "cancelled"@,
        }
    }
}

/// The answer that tells where an accepted control stands.
pub open spec fn control_result_view(
    subagent_id: Seq<char>,
    control: SubagentControlRecord,
    replayed: bool,
    drive_error: Option<Seq<char>>,
) -> JsonView {
    JsonView::Object(
        json::no_entries().insert("subagent_id"@, JsonView::Text(subagent_id)).insert(
            "accepted"@,
            JsonView::Bool(true),
        ).insert("queued"@, JsonView::Bool(control.status.outstanding())).insert(
            "input_id"@,
            JsonView::Text(control.input_id@),
        ).insert("replayed"@, JsonView::Bool(replayed)).insert(
            "phase"@,
            JsonView::Text(control.phase.name()),
        ).insert(
            "interrupted"@,
            if control.phase is PendingInterrupt {
                JsonView::Null
            } else {
                JsonView::Bool(control.interrupted)
            },
        ).insert(
            "interrupt_outcome"@,
            json::opt_text_view(records::opt_view(control.interrupt_outcome)),
        ).insert(
            "drive_status"@,
            JsonView::Text(drive_status(control, drive_error is Some)),
        ).insert("drive_error"@, json::opt_text_view(drive_error)),
    )
}

pub fn subagent_control_result(
    subagent_id: &str,
    control: &SubagentControlRecord,
    replayed: bool,
    drive_error: Option<&str>,
) -> (r: Json)
    ensures
        r@ == control_result_view(
            subagent_id@,
            *control,
            replayed,
            records::opt_str_view(drive_error),
        ),
{
    let queued = control.status.is_outstanding();
    let status = if drive_error.is_some() {
        "failed"
    } else {
        match control.phase {
            SubagentControlPhase::PendingInterrupt
            | SubagentControlPhase::InterruptApplied => "pending",
            SubagentControlPhase::Ready => if queued {
                "started"
            } else {
                "settled"
            },
            SubagentControlPhase::Cancelled => "cancelled",
        }
    };
    let interrupted = match control.phase {
        SubagentControlPhase::PendingInterrupt => Json::Null,
        _ => Json::Bool(control.interrupted),
    };
    Json::Object(
        JsonObject::new().with("subagent_id", Json::text(subagent_id)).with(
            "accepted",
            Json::Bool(true),
        ).with("queued", Json::Bool(queued)).with(
            "input_id",
            Json::text(control.input_id.as_str()),
        ).with("replayed", Json::Bool(replayed)).with(
            "phase",
            Json::text(control.phase.as_str()),
        ).with("interrupted", interrupted).with(
            "interrupt_outcome",
            Json::opt_text(opt_str(&control.interrupt_outcome)),
        ).with("drive_status", Json::text(status)).with(
            "drive_error",
            Json::opt_text(drive_error),
        ),
    )
}

/// What looking up the control under its key comes to.
#[derive(Debug, PartialEq, Eq)]
pub enum ControlLookup {
    /// It was accepted before: its answer, and whether its drive is nudged.
    Replay { nudge: bool, reason: &'static str, result: Json },
    /// It is new and its delegation is terminal.
    Refused(RpcError),
    /// It is new and its delegation runs.
    Fresh(FreshControl),
}

/// A new control of a running delegation.
#[derive(Debug, PartialEq, Eq)]
pub struct FreshControl {
    pub control: ScopedControl,
}

impl ScopedControl {
    /// An earlier control under the same key is answered whatever became of the
    /// delegation; a new one needs it to run.
    pub fn after_lookup(self, found: Option<&SubagentControlRecord>) -> (r: ControlLookup)
        ensures
            match found {
                Some(control) => {
                    &&& r matches ControlLookup::Replay { nudge, reason, result }
                    &&& nudge == replay_nudges(self.ask, *control)
                    &&& reason@ == ask_name(self.ask) + ".replay"@
                    &&& result@ == control_result_view(self.subagent_id@, *control, true, None)
                },
                None => if self.delegation_status is Running {
                    r matches ControlLookup::Fresh(f) && f.control == self
                } else {
                    r matches ControlLookup::Refused(e) && e@ == terminal_delegation_error(
                        self.ask,
                    )
                },
            },
    {
        match found {
            Some(control) => {
                let (reason, ready_counts) = match self.ask {
                    ControlAsk::Steer { .. } => {
                        proof {
                            reveal_strlit("steer_subagent");
                            reveal_strlit(".replay");
                            reveal_strlit("steer_subagent.replay");
                        }
                        ("steer_subagent.replay", true)
                    },
                    ControlAsk::Interrupt => {
                        proof {
                            reveal_strlit("interrupt_subagent");
                            reveal_strlit(".replay");
                            reveal_strlit("interrupt_subagent.replay");
                        }
                        ("interrupt_subagent.replay", false)
                    },
                };
                assert(reason@ == ask_name(self.ask) + ".replay"@);
                let unfinished = match control.phase {
                    SubagentControlPhase::PendingInterrupt
                    | SubagentControlPhase::InterruptApplied => true,
                    SubagentControlPhase::Ready => ready_counts,
                    SubagentControlPhase::Cancelled => false,
                };
                let nudge = control.delegation_running && unfinished
                    && control.status.is_outstanding();
                let result = subagent_control_result(
                    self.subagent_id.as_str(),
                    control,
                    true,
                    None,
                );
                ControlLookup::Replay { nudge, reason, result }
            },
            None => if is_running(self.delegation_status) {
                ControlLookup::Fresh(FreshControl { control: self })
            } else {
                ControlLookup::Refused(terminal_delegation(&self.ask))
            },
        }
    }
}

/// A new control whose delegation still runs after the child was recovered; the
/// child's work decides.
#[derive(Debug, PartialEq, Eq)]
pub struct RunningControl {
    pub control: ScopedControl,
    pub scope: SubagentScope,
}

impl FreshControl {
    /// The child was recovered: with its scope read again, the delegation must
    /// still run.
    pub fn after_recovery(self, scope: SubagentScope) -> (r: Result<RunningControl, RpcError>)
        ensures
            r is Ok <==> scope.delegation.status is Running,
            r matches Ok(running) ==> running.control == self.control && running.scope == scope,
            r matches Err(e) ==> e@ == steer_needs_running(),
    {
        match ensure_delegation_running(&scope) {
            Ok(_) => Ok(RunningControl { control: self.control, scope }),
            Err(e) => Err(e),
        }
    }
}

impl RunningControl {
    /// With the child's work read, the control may be queued or is refused.
    pub fn with_work(self, work: &SubagentWorkState) -> (r: Result<QueueableControl, RpcError>)
        ensures
            r is Ok <==> steer_refusal(self.scope.delegation.status, *work) is None,
            r matches Ok(q) ==> q.control == self.control,
            r matches Err(e) ==> Some(e@) == steer_refusal(self.scope.delegation.status, *work),
    {
        match ensure_subagent_steer_allowed(&self.scope, work) {
            Ok(_) => Ok(QueueableControl { control: self.control }),
            Err(e) => Err(e),
        }
    }
}

/// A control that may be handed to the store.
#[derive(Debug, PartialEq, Eq)]
pub struct QueueableControl {
    pub control: ScopedControl,
}

/// The child is driven within the request: always for an interrupt, and for a
/// steer that interrupts or finds nothing unfinished.
pub open spec fn drives_inline(ask: ControlAsk, had_unfinished_actions: bool) -> bool {
    match ask {
        ControlAsk::Steer { interrupt, .. } => interrupt || !had_unfinished_actions,
        ControlAsk::Interrupt => true,
    }
}

/// A control that the store accepted.
#[derive(Debug, PartialEq, Eq)]
pub struct AcceptedControl {
    pub subagent_id: String,
    pub ask: ControlAsk,
    pub queued: EnqueuedControl,
    pub drive_reason: &'static str,
    pub drive_inline: bool,
}

impl QueueableControl {
    /// The store queues the control, or finds the delegation terminal.
    pub fn after_enqueue(self, had_unfinished_actions: bool, queued: Option<EnqueuedControl>) -> (r:
        Result<AcceptedControl, RpcError>)
        ensures
            r is Ok <==> queued is Some,
            r matches Ok(a) ==> {
                &&& a.subagent_id == self.control.subagent_id
                &&& a.ask == self.control.ask
                &&& queued == Some(a.queued)
                &&& a.drive_reason@ == ask_name(self.control.ask) + ".accepted"@
                &&& a.drive_inline == drives_inline(self.control.ask, had_unfinished_actions)
            },
            r matches Err(e) ==> e@ == terminal_delegation_error(self.control.ask),
    {
        let queued = match queued {
            Some(queued) => queued,
            None => {
                return Err(terminal_delegation(&self.control.ask));
            },
        };
        let (drive_reason, drive_inline) = match &self.control.ask {
            ControlAsk::Steer { interrupt, .. } => {
                proof {
                    reveal_strlit("steer_subagent");
                    reveal_strlit(".accepted");
                    reveal_strlit("steer_subagent.accepted");
                }
                ("steer_subagent.accepted", *interrupt || !had_unfinished_actions)
            },
            ControlAsk::Interrupt => {
                proof {
                    reveal_strlit("interrupt_subagent");
                    reveal_strlit(".accepted");
                    reveal_strlit("interrupt_subagent.accepted");
                }
                ("interrupt_subagent.accepted", true)
            },
        };
        assert(drive_reason@ == ask_name(self.control.ask) + ".accepted"@);
        Ok(
            AcceptedControl {
                subagent_id: self.control.subagent_id,
                ask: self.control.ask,
                queued,
                drive_reason,
                drive_inline,
            },
        )
    }
}

/// An accepted control after its child was driven, or was left to the detached
/// drive.
#[derive(Debug, PartialEq, Eq)]
pub struct DrivenControl {
    pub accepted: AcceptedControl,
    pub drive_error: Option<String>,
}

impl AcceptedControl {
    /// Notes what the inline drive came to. A failure is recorded and does not
    /// undo the acceptance.
    pub fn after_drive(self, error: Option<RpcError>) -> (r: (DrivenControl, Option<DriveFailure>))
        ensures
            r.0.accepted == self,
            r.0.drive_error is Some <==> error is Some,
            r.1 is Some <==> error is Some,
            error matches Some(e) ==> {
                &&& r.0.drive_error->0@ == (e.code@ + ": "@ + e.message@)
                &&& r.1->0.reason@ == ask_name(self.ask) + ".reconcile"@
                &&& r.1->0.error == e
            },
    {
        match error {
            None => (DrivenControl { accepted: self, drive_error: None }, None),
            Some(error) => {
                let reason = match self.ask {
                    ControlAsk::Steer { .. } => {
                        proof {
                            reveal_strlit("steer_subagent");
                            reveal_strlit(".reconcile");
                            reveal_strlit("steer_subagent.reconcile");
                        }
                        "steer_subagent.reconcile"
                    },
                    ControlAsk::Interrupt => {
                        proof {
                            reveal_strlit("interrupt_subagent");
                            reveal_strlit(".reconcile");
                            reveal_strlit("interrupt_subagent.reconcile");
                        }
                        "interrupt_subagent.reconcile"
                    },
                };
                assert(reason@ == ask_name(self.ask) + ".reconcile"@);
                let line = error.line();
                (
                    DrivenControl { accepted: self, drive_error: Some(line) },
                    Some(DriveFailure { reason, error }),
                )
            },
        }
    }
}

/// What reading the accepted control again comes to.
#[derive(Debug, PartialEq, Eq)]
pub enum ControlReload {
    Found(SubagentControlRecord),
    Missing,
    Failed(String),
}

/// The phase that the store reported with the acceptance.
pub open spec fn queued_phase_view(phase: Option<SubagentControlPhase>) -> JsonView {
    match phase {
        Some(p) => JsonView::Text(p.name()),
        None => JsonView::Null,
    }
}

/// The answer for an accepted control that could not be read again. A pure
/// interrupt also tells the outcome that the store reported.
pub open spec fn pending_result_view(
    subagent_id: Seq<char>,
    ask: ControlAsk,
    queued: EnqueuedControl,
    drive_error: Seq<char>,
) -> JsonView {
    let head = json::no_entries().insert("subagent_id"@, JsonView::Text(subagent_id)).insert(
        "accepted"@,
        JsonView::Bool(true),
    ).insert("queued"@, JsonView::Bool(true)).insert(
        "input_id"@,
        JsonView::Text(queued.input_id@),
    ).insert("replayed"@, JsonView::Bool(queued.replayed)).insert(
        "phase"@,
        queued_phase_view(queued.control_phase),
    ).insert("interrupted"@, JsonView::Null);
    let told = match ask {
        ControlAsk::Steer { .. } => head,
        ControlAsk::Interrupt => head.insert(
            "interrupt_outcome"@,
            json::opt_text_view(records::opt_view(queued.control_interrupt_outcome)),
        ),
    };
    JsonView::Object(
        told.insert("drive_status"@, JsonView::Text("pending"@)).insert(
            "drive_error"@,
            JsonView::Text(drive_error),
        ),
    )
}

fn accepted_control_pending_result(
    subagent_id: &str,
    ask: &ControlAsk,
    queued: &EnqueuedControl,
    drive_error: &str,
) -> (r: Json)
    ensures
        r@ == pending_result_view(subagent_id@, *ask, *queued, drive_error@),
{
    let phase = match queued.control_phase {
        Some(phase) => Json::text(phase.as_str()),
        None => Json::Null,
    };
    let head = JsonObject::new().with("subagent_id", Json::text(subagent_id)).with(
        "accepted",
        Json::Bool(true),
    ).with("queued", Json::Bool(true)).with(
        "input_id",
        Json::text(queued.input_id.as_str()),
    ).with("replayed", Json::Bool(queued.replayed)).with("phase", phase).with(
        "interrupted",
        Json::Null,
    );
    let told = match ask {
        ControlAsk::Steer { .. } => head,
        ControlAsk::Interrupt => head.with(
            "interrupt_outcome",
            Json::opt_text(opt_str(&queued.control_interrupt_outcome)),
        ),
    };
    Json::Object(
        told.with("drive_status", Json::text("pending")).with(
            "drive_error",
            Json::text(drive_error),
        ),
    )
}

/// What is said of an accepted control that the store no longer shows.
pub open spec fn missing_control_message(ask: ControlAsk) -> Seq<char> {
    match ask {
        ControlAsk::Steer { .. } => "durably accepted subagent control could not be reloaded"@,
        ControlAsk::Interrupt => "durably accepted subagent interrupt could not be reloaded"@,
    }
}

impl DrivenControl {
    /// The answer of an accepted control, and the failure to record where it
    /// has gone missing.
    pub fn after_reload(self, reload: ControlReload) -> (r: (Json, Option<DriveFailure>))
        ensures
            r.0@ == (match reload {
                ControlReload::Found(control) => control_result_view(
                    self.accepted.subagent_id@,
                    control,
                    self.accepted.queued.replayed,
                    records::opt_view(self.drive_error),
                ),
                ControlReload::Missing => pending_result_view(
                    self.accepted.subagent_id@,
                    self.accepted.ask,
                    self.accepted.queued,
                    missing_control_message(self.accepted.ask),
                ),
                ControlReload::Failed(message) => pending_result_view(
                    self.accepted.subagent_id@,
                    self.accepted.ask,
                    self.accepted.queued,
                    message@,
                ),
            }),
            r.1 is Some <==> reload is Missing,
            r.1 matches Some(f) ==> f.reason@ == ask_name(self.accepted.ask) + ".reload"@
                && f.error@ == (
                "accepted_control_missing"@,
                missing_control_message(self.accepted.ask),
            ),
    {
        match reload {
            ControlReload::Found(control) => {
                let result = subagent_control_result(
                    self.accepted.subagent_id.as_str(),
                    &control,
                    self.accepted.queued.replayed,
                    opt_str(&self.drive_error),
                );
                (result, None)
            },
            ControlReload::Missing => {
                let (reason, message) = match self.accepted.ask {
                    ControlAsk::Steer { .. } => {
                        proof {
                            reveal_strlit("steer_subagent");
                            reveal_strlit(".reload");
                            reveal_strlit("steer_subagent.reload");
                        }
                        (
                            "steer_subagent.reload",
                            "durably accepted subagent control could not be reloaded",
                        )
                    },
                    ControlAsk::Interrupt => {
                        proof {
                            reveal_strlit("interrupt_subagent");
                            reveal_strlit(".reload");
                            reveal_strlit("interrupt_subagent.reload");
                        }
                        (
                            "interrupt_subagent.reload",
                            "durably accepted subagent interrupt could not be reloaded",
                        )
                    },
                };
                assert(reason@ == ask_name(self.accepted.ask) + ".reload"@);
                let result = accepted_control_pending_result(
                    self.accepted.subagent_id.as_str(),
                    &self.accepted.ask,
                    &self.accepted.queued,
                    message,
                );
                let error = RpcError::new("accepted_control_missing", message);
                (result, Some(DriveFailure { reason, error }))
            },
            ControlReload::Failed(message) => {
                let result = accepted_control_pending_result(
                    self.accepted.subagent_id.as_str(),
                    &self.accepted.ask,
                    &self.accepted.queued,
                    message.as_str(),
                );
                (result, None)
            },
        }
    }
}

/// The error of a store call on a control: a conflict over the control id is
/// told apart by the store's text, any other keeps the form it has.
pub fn map_subagent_control_store_error(store_text: &str, other: RpcError) -> (r: RpcError)
    ensures
        r@ == (if exists|i: int| text::stands_at(store_text@, "client_control_id_conflict"@, i) {
            (
                "client_control_id_conflict"@,
                "client_control_id was already used for a different subagent control"@,
            )
        } else {
            other@
        }),
{
    if contains_text(store_text, "client_control_id_conflict") {
        RpcError::new(
            "client_control_id_conflict",
            "client_control_id was already used for a different subagent control",
        )
    } else {
        other
    }
}

// ---------------------------------------------------------------------------
// Laws

/// Every answer after acceptance says so, whatever the drive came to and
/// whether or not the control could be read again.
pub proof fn law_acceptance_is_final(
    subagent_id: Seq<char>,
    ask: ControlAsk,
    queued: EnqueuedControl,
    control: SubagentControlRecord,
    replayed: bool,
    drive_error: Option<Seq<char>>,
    message: Seq<char>,
)
    ensures
        json::get_view(
            control_result_view(subagent_id, control, replayed, drive_error),
            "accepted"@,
        ) == Some(JsonView::Bool(true)),
        json::get_view(pending_result_view(subagent_id, ask, queued, message), "accepted"@) == Some(
            JsonView::Bool(true),
        ),
{
    reveal_control_keys();
}

/// An interrupt that is still pending is never told as done or as not done: it
/// is `null` exactly then, and otherwise what the record holds.
pub proof fn law_interrupt_is_told_truthfully(
    subagent_id: Seq<char>,
    control: SubagentControlRecord,
    replayed: bool,
    drive_error: Option<Seq<char>>,
)
    ensures
        json::get_view(
            control_result_view(subagent_id, control, replayed, drive_error),
            "interrupted"@,
        ) == Some(
            if control.phase is PendingInterrupt {
                JsonView::Null
            } else {
                JsonView::Bool(control.interrupted)
            },
        ),
        json::get_view(
            control_result_view(subagent_id, control, replayed, drive_error),
            "phase"@,
        ) == Some(JsonView::Text(control.phase.name())),
{
    reveal_control_keys();
}

/// Within one delegation, different control ids have different keys.
pub proof fn law_control_keys_differ(delegation_id: Seq<char>, a: Seq<char>, b: Seq<char>)
    ensures
        control_key(delegation_id, a) == control_key(delegation_id, b) <==> a == b,
{
    let ka = control_key(delegation_id, a);
    let kb = control_key(delegation_id, b);
    let head = ("subagent-control:"@ + delegation_id + ":"@).len() as int;
    assert(ka.skip(head) == a);
    assert(kb.skip(head) == b);
}

proof fn reveal_control_keys()
    ensures
        "subagent_id"@.len() == 11,
        "accepted"@.len() == 8,
        "accepted"@[0] == 'a',
        "queued"@.len() == 6,
        "input_id"@.len() == 8,
        "input_id"@[0] == 'i',
        "replayed"@.len() == 8,
        "replayed"@[0] == 'r',
        "phase"@.len() == 5,
        "interrupted"@.len() == 11,
        "interrupted"@[0] == 'i',
        "interrupt_outcome"@.len() == 17,
        "drive_status"@.len() == 12,
        "drive_error"@.len() == 11,
        "drive_error"@[0] == 'd',
        "subagent_id"@[0] == 's',
{
    reveal_strlit("subagent_id");
    reveal_strlit("accepted");
    reveal_strlit("queued");
    reveal_strlit("input_id");
    reveal_strlit("replayed");
    reveal_strlit("phase");
    reveal_strlit("interrupted");
    reveal_strlit("interrupt_outcome");
    reveal_strlit("drive_status");
    reveal_strlit("drive_error");
}

/// A steer is refused in exactly these cases, the first that holds: the
/// delegation does not run; the subagent is at a turn boundary with nothing left
/// to run; or it has nothing left to run at all.
pub proof fn law_steering_is_refused_in_order(status: DelegationStatus, work: SubagentWorkState)
    ensures
        ({
            let busy = work.has_unfinished_actions || work.has_queued_inputs
                || work.has_active_runtime;
            let refusal = steer_refusal(status, work);
            &&& !(status is Running) ==> refusal == Some(
                (
                    "delegation_not_running"@,
                    "cannot steer a subagent whose delegation is terminal"@,
                ),
            )
            &&& status is Running && !busy && work.active_leaf_is_turn_boundary ==> refusal == Some(
                ("subagent_terminal"@, "cannot steer a subagent that is already terminal"@),
            )
            &&& status is Running && !busy && !work.active_leaf_is_turn_boundary ==> refusal
                == Some(
                (
                    "subagent_not_running"@,
                    "cannot steer a subagent without active work or queued input"@,
                ),
            )
            &&& status is Running && busy ==> refusal is None
        }),
{
}

/// A steer names a blank subagent before a blank message, and that before a
/// blank control id; a control id that is left out is no blank one.
pub proof fn law_blank_control_fields(p: SteerSubagentParams, q: InterruptSubagentParams)
    ensures
        ({
            let id = text::trimmed(p.subagent_id@).len() > 0;
            let message = text::trimmed(p.message@).len() > 0;
            let control = p.client_control_id matches Some(c) ==> text::trimmed(c@).len() > 0;
            &&& !id ==> steer_blank_field(p) == Some("subagent_id"@)
            &&& id && !message ==> steer_blank_field(p) == Some("message"@)
            &&& id && message && !control ==> steer_blank_field(p) == Some("client_control_id"@)
            &&& id && message && control ==> steer_blank_field(p) is None
        }),
        ({
            let id = text::trimmed(q.subagent_id@).len() > 0;
            let control = q.client_control_id matches Some(c) ==> text::trimmed(c@).len() > 0;
            &&& !id ==> interrupt_blank_field(q) == Some("subagent_id"@)
            &&& id && !control ==> interrupt_blank_field(q) == Some("client_control_id"@)
            &&& id && control ==> interrupt_blank_field(q) is None
        }),
{
}

/// A control id that the caller gives is kept, trimmed; only a caller without
/// one gets a fresh one.
pub proof fn law_given_control_ids_are_kept(given: Seq<char>, fresh: Seq<char>)
    ensures
        control_id(Some(given), fresh) == text::trimmed(given),
        control_id(None, fresh) == fresh,
{
}

/// The key of a control names the delegation and, after a colon, the control's
/// id.
pub proof fn law_control_keys_name_both(delegation_id: Seq<char>, client_control_id: Seq<char>)
    ensures
        control_key(delegation_id, client_control_id) == "subagent-control:"@ + (delegation_id + (
        ":"@ + client_control_id)),
{
}

/// A replay nudges the drive of a control exactly while its delegation runs, its
/// input is still to be worked off, and the control is not settled: an interrupt
/// that is pending or applied always is not, a ready one only where it is a
/// steer.
pub proof fn law_replays_nudge_what_is_unsettled(ask: ControlAsk, control: SubagentControlRecord)
    ensures
        ({
            let nudges = replay_nudges(ask, control);
            let open = control.delegation_running && (control.status is Queued
                || control.status is Consuming);
            &&& !open ==> !nudges
            &&& open && control.phase is PendingInterrupt ==> nudges
            &&& open && control.phase is InterruptApplied ==> nudges
            &&& open && control.phase is Ready ==> (nudges <==> ask is Steer)
            &&& control.phase is Cancelled ==> !nudges
        }),
{
}

/// How the drive of a control is reported: a failed drive as failed, whatever
/// the phase; else an interrupt that is pending or applied as pending, a ready
/// control as started until its input is worked off and as settled afterwards,
/// and a cancelled one as cancelled.
pub proof fn law_drives_are_told_by_phase(control: SubagentControlRecord)
    ensures
        drive_status(control, true) == "failed"@,
        control.phase is PendingInterrupt || control.phase is InterruptApplied ==> drive_status(
            control,
            false,
        ) == "pending"@,
        control.phase is Ready && (control.status is Queued || control.status is Consuming)
            ==> drive_status(control, false) == "started"@,
        control.phase is Ready && (control.status is Consumed || control.status is Cancelled)
            ==> drive_status(control, false) == "settled"@,
        control.phase is Cancelled ==> drive_status(control, false) == "cancelled"@,
{
}

/// The answer of a control tells the record as it stands: its subagent and its
/// input, whether it is still queued and was replayed, the outcome of an
/// interrupt, and the drive with its error where there was one.
pub proof fn law_control_answers_tell_the_record(
    subagent_id: Seq<char>,
    control: SubagentControlRecord,
    replayed: bool,
    drive_error: Option<Seq<char>>,
)
    ensures
        ({
            let answer = control_result_view(subagent_id, control, replayed, drive_error);
            &&& json::get_view(answer, "subagent_id"@) == Some(JsonView::Text(subagent_id))
            &&& json::get_view(answer, "queued"@) == Some(
                JsonView::Bool(control.status is Queued || control.status is Consuming),
            )
            &&& json::get_view(answer, "input_id"@) == Some(JsonView::Text(control.input_id@))
            &&& json::get_view(answer, "replayed"@) == Some(JsonView::Bool(replayed))
            &&& json::get_view(answer, "phase"@) == Some(
                JsonView::Text(
                    match control.phase {
                        SubagentControlPhase::PendingInterrupt => "pending_interrupt"@,
                        SubagentControlPhase::InterruptApplied => "interrupt_applied"@,
                        SubagentControlPhase::Ready => "ready"@,
                        SubagentControlPhase::Cancelled => "cancelled"@,
                    },
                ),
            )
            &&& json::get_view(answer, "interrupt_outcome"@) == Some(
                match control.interrupt_outcome {
                    Some(o) => JsonView::Text(o@),
                    None => JsonView::Null,
                },
            )
            &&& json::get_view(answer, "drive_status"@) == Some(
                JsonView::Text(drive_status(control, drive_error is Some)),
            )
            &&& json::get_view(answer, "drive_error"@) == Some(
                match drive_error {
                    Some(e) => JsonView::Text(e),
                    None => JsonView::Null,
                },
            )
        }),
{
    reveal_control_keys();
}

/// The answer of a control that was accepted and could not be read again tells
/// what the queue said of it, as queued and pending, and never whether it
/// interrupted; only an interrupt tells an outcome.
pub proof fn law_pending_answers_tell_the_queue(
    subagent_id: Seq<char>,
    ask: ControlAsk,
    queued: EnqueuedControl,
    drive_error: Seq<char>,
)
    ensures
        ({
            let answer = pending_result_view(subagent_id, ask, queued, drive_error);
            &&& json::get_view(answer, "subagent_id"@) == Some(JsonView::Text(subagent_id))
            &&& json::get_view(answer, "queued"@) == Some(JsonView::Bool(true))
            &&& json::get_view(answer, "input_id"@) == Some(JsonView::Text(queued.input_id@))
            &&& json::get_view(answer, "replayed"@) == Some(JsonView::Bool(queued.replayed))
            &&& json::get_view(answer, "phase"@) == Some(
                match queued.control_phase {
                    Some(SubagentControlPhase::PendingInterrupt) => JsonView::Text(
                        "pending_interrupt"@,
                    ),
                    Some(SubagentControlPhase::InterruptApplied) => JsonView::Text(
                        "interrupt_applied"@,
                    ),
                    Some(SubagentControlPhase::Ready) => JsonView::Text("ready"@),
                    Some(SubagentControlPhase::Cancelled) => JsonView::Text("cancelled"@),
                    None => JsonView::Null,
                },
            )
            &&& json::get_view(answer, "interrupted"@) == Some(JsonView::Null)
            &&& ask is Steer ==> json::get_view(answer, "interrupt_outcome"@) is None
            &&& ask is Interrupt ==> json::get_view(answer, "interrupt_outcome"@) == Some(
                match queued.control_interrupt_outcome {
                    Some(o) => JsonView::Text(o@),
                    None => JsonView::Null,
                },
            )
            &&& json::get_view(answer, "drive_status"@) == Some(JsonView::Text("pending"@))
            &&& json::get_view(answer, "drive_error"@) == Some(JsonView::Text(drive_error))
        }),
{
    reveal_control_keys();
}

/// A steer is driven in line exactly when it interrupts or nothing was
/// unfinished, and an interrupt always is.
pub proof fn law_what_drives_in_line(ask: ControlAsk, had_unfinished_actions: bool)
    ensures
        match ask {
            ControlAsk::Steer { interrupt: true, .. } => drives_inline(ask, had_unfinished_actions),
            ControlAsk::Steer { interrupt: false, .. } => drives_inline(
                ask,
                had_unfinished_actions,
            ) <==> !had_unfinished_actions,
            ControlAsk::Interrupt => drives_inline(ask, had_unfinished_actions),
        },
{
}

/// What controls are called, and how they are refused and reported.
pub proof fn law_controls_are_named(ask: ControlAsk)
    ensures
        ask is Steer ==> {
            &&& ask_name(ask) == "steer_subagent"@
            &&& terminal_delegation_error(ask) == (
                "delegation_not_running"@,
                "cannot steer a subagent whose delegation is terminal"@,
            )
            &&& missing_control_message(ask)
                == "durably accepted subagent control could not be reloaded"@
        },
        ask is Interrupt ==> {
            &&& ask_name(ask) == "interrupt_subagent"@
            &&& terminal_delegation_error(ask) == (
                "delegation_not_running"@,
                "cannot interrupt a subagent whose delegation is terminal"@,
            )
            &&& missing_control_message(ask)
                == "durably accepted subagent interrupt could not be reloaded"@
        },
{
}

/// The event of a failed drive carries the error's message and the reason of the
/// drive, and says that the control stays accepted.
pub proof fn law_failure_events_tell_the_error(reason: Seq<char>, message: Seq<char>)
    ensures
        ({
            let event = failure_event_view(reason, message);
            &&& json::get_view(event, "error"@) == Some(JsonView::Text(message))
            &&& json::get_view(event, "reason"@) == Some(JsonView::Text(reason))
            &&& json::get_view(event, "accepted"@) == Some(JsonView::Bool(true))
        }),
{
    reveal_strlit("error");
    reveal_strlit("reason");
    reveal_strlit("accepted");
    assert("error"@.len() == 5);
    assert("reason"@.len() == 6);
    assert("accepted"@.len() == 8);
}

/// The answer of a control holds these entries and no others.
pub proof fn law_control_answers_hold_nothing_else(
    subagent_id: Seq<char>,
    control: SubagentControlRecord,
    replayed: bool,
    drive_error: Option<Seq<char>>,
    key: Seq<char>,
)
    ensures
        json::get_view(control_result_view(subagent_id, control, replayed, drive_error), key)
            is Some <==> {
            ||| key == "subagent_id"@
            ||| key == "accepted"@
            ||| key == "queued"@
            ||| key == "input_id"@
            ||| key == "replayed"@
            ||| key == "phase"@
            ||| key == "interrupted"@
            ||| key == "interrupt_outcome"@
            ||| key == "drive_status"@
            ||| key == "drive_error"@
        },
{
}

} // verus!
