//! The per-parent delegation list: a bounded newest-first page with compact
//! subagent rows.
use vstd::prelude::*;

use crate::delegation_tools::{self, trim_required};
use crate::handoff::{self, task_prompt_rel};
use crate::handoff_read::safe_path_segment;
use crate::json::{self, Json, JsonObject, JsonView};
use crate::records::{
    self, opt_str, type_json, Delegation, DelegationProgress, DelegationStatus,
    DelegationSubagentOverview, SessionActivity,
};
use crate::text::{self, same};
use crate::types::RpcError;

verus! {

pub const DEFAULT_DELEGATION_LIST_LIMIT: i64 = 3;

pub const MAX_DELEGATION_LIST_LIMIT: i64 = 100;

#[derive(Debug, PartialEq, Eq)]
pub struct DelegationListParams {
    pub parent_session_id: String,
    pub limit: Option<i64>,
}

/// The limit that is asked for, or the usual one.
pub open spec fn asked_limit(limit: Option<i64>) -> i64 {
    match limit {
        Some(n) => n,
        None => DEFAULT_DELEGATION_LIST_LIMIT,
    }
}

pub open spec fn limit_error() -> (Seq<char>, Seq<char>) {
    ("invalid_params"@, "limit must be between 0 and 100"@)
}

/// A page holds between none and a hundred delegations; three where no limit
/// is given.
pub fn bounded_delegation_list_limit(limit: Option<i64>) -> (r: Result<i64, RpcError>)
    ensures
        r is Ok <==> 0 <= asked_limit(limit) <= MAX_DELEGATION_LIST_LIMIT,
        r matches Ok(n) ==> n == asked_limit(limit),
        r matches Err(e) ==> e@ == limit_error(),
{
    let limit: i64 = match limit {
        Some(n) => n,
        None => DEFAULT_DELEGATION_LIST_LIMIT,
    };
    if limit < 0 || limit > MAX_DELEGATION_LIST_LIMIT {
        return Err(RpcError::new("invalid_params", "limit must be between 0 and 100"));
    }
    Ok(limit)
}

/// The status of a listed subagent.
pub open spec fn listed_status(
    delegation_status: DelegationStatus,
    subagent: DelegationSubagentOverview,
) -> Seq<char> {
    match delegation_status {
        DelegationStatus::Running => match subagent.terminal_status {
            Some(s) => s@,
            None => if subagent.activity is Idle {
                "running"@
            } else {
                subagent.activity.name()
            },
        },
        DelegationStatus::Done | DelegationStatus::DoneWithFailures => match subagent.terminal_status {
            Some(s) => s@,
            None => delegation_status.name(),
        },
        DelegationStatus::Cancelled | DelegationStatus::Failed => delegation_status.name(),
    }
}

pub fn list_subagent_status(
    delegation_status: DelegationStatus,
    subagent: &DelegationSubagentOverview,
) -> (r: String)
    ensures
        r@ == listed_status(delegation_status, *subagent),
{
    match delegation_status {
        DelegationStatus::Running => match &subagent.terminal_status {
            Some(s) => s.clone(),
            None => match subagent.activity {
                SessionActivity::Idle => "running".to_owned(),
                activity => activity.as_str().to_owned(),
            },
        },
        DelegationStatus::Done | DelegationStatus::DoneWithFailures => match &subagent.terminal_status {
            Some(s) => s.clone(),
            None => delegation_status.as_str().to_owned(),
        },
        DelegationStatus::Cancelled | DelegationStatus::Failed => delegation_status.as_str().to_owned(),
    }
}

// ---------------------------------------------------------------------------
// Progress

/// How many of the subagents have a terminal status.
pub open spec fn terminal_count(subagents: Seq<DelegationSubagentOverview>) -> nat
    decreases subagents.len(),
{
    if subagents.len() == 0 {
        0
    } else {
        terminal_count(subagents.drop_last()) + (if subagents.last().terminal_status is Some {
            1nat
        } else {
            0
        })
    }
}

/// How many of the subagents ended as failed.
pub open spec fn failed_count(subagents: Seq<DelegationSubagentOverview>) -> nat
    decreases subagents.len(),
{
    if subagents.len() == 0 {
        0
    } else {
        failed_count(subagents.drop_last()) + (if records::opt_view(
            subagents.last().terminal_status,
        ) == Some("failed"@) {
            1nat
        } else {
            0
        })
    }
}

/// How many are running: while the delegation runs, those that are spawned and
/// not terminal and those that are still to be spawned.
pub open spec fn running_count(delegation: Delegation, spawned: int, terminal: int) -> int {
    if delegation.status is Running {
        let missing = delegation.expected_subagents - spawned;
        spawned - terminal + (if missing > 0 {
            missing
        } else {
            0
        })
    } else {
        0
    }
}

proof fn lemma_counts(subagents: Seq<DelegationSubagentOverview>)
    ensures
        failed_count(subagents) <= terminal_count(subagents) <= subagents.len(),
    decreases subagents.len(),
{
    if subagents.len() > 0 {
        lemma_counts(subagents.drop_last());
    }
}

/// The progress of a delegation, from its subagent rows.
pub fn progress_from_subagent_overview(
    delegation: &Delegation,
    subagents: &Vec<ListedSubagent>,
) -> (r: DelegationProgress)
    requires
        subagents@.len() <= i32::MAX,
    ensures
        r.expected == delegation.expected_subagents,
        r.spawned == subagents@.len(),
        r.terminal == terminal_count(overviews(subagents@)),
        r.failed == failed_count(overviews(subagents@)),
        r.running == running_count(*delegation, r.spawned as int, r.terminal as int),
{
    let mut terminal: i32 = 0;
    let mut failed: i32 = 0;
    let mut i: usize = 0;
    while i < subagents.len()
        invariant
            i <= subagents.len() <= i32::MAX,
            terminal == terminal_count(overviews(subagents@.take(i as int))),
            failed == failed_count(overviews(subagents@.take(i as int))),
        decreases subagents.len() - i,
    {
        let ghost rows = overviews(subagents@.take(i + 1));
        proof {
            assert(rows.drop_last() == overviews(subagents@.take(i as int)));
            lemma_counts(rows.drop_last());
            lemma_counts(rows);
        }
        match &subagents[i].overview.terminal_status {
            Some(status) => {
                terminal += 1;
                if same(status.as_str(), "failed") {
                    failed += 1;
                }
            },
            None => {},
        }
        i += 1;
    }
    assert(subagents@.take(i as int) == subagents@);
    proof {
        lemma_counts(overviews(subagents@));
    }
    let spawned: i32 = subagents.len() as i32;
    let missing: i32 = if delegation.expected_subagents > spawned {
        delegation.expected_subagents - spawned
    } else {
        0
    };
    let running: i32 = match delegation.status {
        DelegationStatus::Running => spawned - terminal + missing,
        _ => 0,
    };
    DelegationProgress {
        expected: delegation.expected_subagents,
        spawned,
        terminal,
        running,
        failed,
    }
}

/// While a delegation runs, every expected or spawned subagent is either
/// terminal or running; afterwards none is running. Failures are terminal.
pub proof fn law_progress_adds_up(
    delegation: Delegation,
    subagents: Seq<DelegationSubagentOverview>,
)
    ensures
        failed_count(subagents) <= terminal_count(subagents) <= subagents.len(),
        ({
            let spawned = subagents.len() as int;
            let terminal = terminal_count(subagents) as int;
            let running = running_count(delegation, spawned, terminal);
            &&& running >= 0
            &&& delegation.status is Running ==> terminal + running == (if spawned
                >= delegation.expected_subagents {
                spawned
            } else {
                delegation.expected_subagents as int
            })
            &&& !(delegation.status is Running) ==> running == 0
        }),
{
    lemma_counts(subagents);
}

pub open spec fn progress_view_of(p: DelegationProgress) -> JsonView {
    JsonView::Object(
        json::no_entries().insert("expected"@, json::int_view(p.expected as int)).insert(
            "spawned"@,
            json::int_view(p.spawned as int),
        ).insert("terminal"@, json::int_view(p.terminal as int)).insert(
            "running"@,
            json::int_view(p.running as int),
        ).insert("failed"@, json::int_view(p.failed as int)),
    )
}

pub fn progress_view(progress: DelegationProgress) -> (r: Json)
    ensures
        r@ == progress_view_of(progress),
{
    Json::Object(
        JsonObject::new().with("expected", Json::number(progress.expected as i64)).with(
            "spawned",
            Json::number(progress.spawned as i64),
        ).with("terminal", Json::number(progress.terminal as i64)).with(
            "running",
            Json::number(progress.running as i64),
        ).with("failed", Json::number(progress.failed as i64)),
    )
}

// ---------------------------------------------------------------------------
// The page

/// A subagent row, and whether the session has a live runtime with work.
#[derive(Debug, PartialEq, Eq)]
pub struct ListedSubagent {
    pub overview: DelegationSubagentOverview,
    pub has_active_runtime: bool,
}

#[derive(Debug, PartialEq, Eq)]
pub struct ListedDelegation {
    pub delegation: Delegation,
    pub subagents: Vec<ListedSubagent>,
}

pub open spec fn overviews(subagents: Seq<ListedSubagent>) -> Seq<DelegationSubagentOverview> {
    subagents.map_values(|s: ListedSubagent| s.overview)
}

/// A listed subagent can be steered: its delegation runs, it is a subagent, it
/// has no terminal status, and it has something to do.
pub open spec fn listed_steerable(status: DelegationStatus, s: ListedSubagent) -> bool {
    &&& status is Running
    &&& s.overview.subagent_type is Some
    &&& s.overview.terminal_status is None
    &&& (!(s.overview.activity is Idle) || s.has_active_runtime)
}

pub open spec fn subagent_row_view(status: DelegationStatus, s: ListedSubagent) -> JsonView {
    let o = s.overview;
    JsonView::Object(
        json::no_entries().insert("id"@, JsonView::Text(o.session_id@)).insert(
            "status"@,
            JsonView::Text(listed_status(status, o)),
        ).insert("activity"@, JsonView::Text(o.activity.name())).insert(
            "role"@,
            json::opt_text_view(records::opt_view(o.role)),
        ).insert("title"@, json::opt_text_view(records::opt_view(o.title))).insert(
            "type"@,
            records::type_view(o.subagent_type),
        ).insert("subagent_type"@, records::type_view(o.subagent_type)).insert(
            "task_prompt_file"@,
            if o.has_task {
                JsonView::Text(handoff::member_file(o.session_id@, handoff::TASK_PROMPT_FILE@))
            } else {
                JsonView::Null
            },
        ).insert("steerable"@, JsonView::Bool(listed_steerable(status, s))).insert(
            "outcome"@,
            JsonView::Null,
        ).insert("final_message_file"@, JsonView::Null).insert("transcript_file"@, JsonView::Null),
    )
}

fn subagent_row(status: DelegationStatus, s: &ListedSubagent) -> (r: Json)
    ensures
        r@ == subagent_row_view(status, *s),
{
    let o = &s.overview;
    let task_prompt_file = if o.has_task {
        Json::Text(task_prompt_rel(o.session_id.as_str()))
    } else {
        Json::Null
    };
    let idle = match o.activity {
        SessionActivity::Idle => true,
        _ => false,
    };
    let running = match status {
        DelegationStatus::Running => true,
        _ => false,
    };
    let steerable = running && o.subagent_type.is_some() && o.terminal_status.is_none() && (!idle
        || s.has_active_runtime);
    Json::Object(
        JsonObject::new().with("id", Json::text(o.session_id.as_str())).with(
            "status",
            Json::Text(list_subagent_status(status, o)),
        ).with("activity", Json::text(o.activity.as_str())).with(
            "role",
            Json::opt_text(opt_str(&o.role)),
        ).with("title", Json::opt_text(opt_str(&o.title))).with(
            "type",
            type_json(o.subagent_type),
        ).with("subagent_type", type_json(o.subagent_type)).with(
            "task_prompt_file",
            task_prompt_file,
        ).with("steerable", Json::Bool(steerable)).with("outcome", Json::Null).with(
            "final_message_file",
            Json::Null,
        ).with("transcript_file", Json::Null),
    )
}

/// The progress that a listed delegation shows.
pub open spec fn listed_progress(d: ListedDelegation) -> DelegationProgress {
    let rows = overviews(d.subagents@);
    let terminal = terminal_count(rows) as int;
    DelegationProgress {
        expected: d.delegation.expected_subagents,
        spawned: rows.len() as i32,
        terminal: terminal as i32,
        running: running_count(d.delegation, rows.len() as int, terminal) as i32,
        failed: failed_count(rows) as i32,
    }
}

pub open spec fn delegation_row_view(d: ListedDelegation) -> JsonView {
    JsonView::Object(
        json::no_entries().insert("delegation_id"@, JsonView::Text(d.delegation.id@)).insert(
            "kind"@,
            JsonView::Text(d.delegation.kind.name()),
        ).insert("status"@, JsonView::Text(d.delegation.status.name())).insert(
            "workflow"@,
            json::opt_text_view(records::opt_view(d.delegation.workflow)),
        ).insert("label"@, json::opt_text_view(records::opt_view(d.delegation.label))).insert(
            "progress"@,
            progress_view_of(listed_progress(d)),
        ).insert(
            "subagents"@,
            JsonView::List(
                d.subagents@.map_values(
                    |s: ListedSubagent| subagent_row_view(d.delegation.status, s),
                ),
            ),
        ),
    )
}

/// Every subagent of the delegation has a session id that is a plain name.
pub open spec fn rows_are_safe(d: ListedDelegation) -> bool {
    forall|i: int|
        0 <= i < d.subagents@.len() ==> handoff::safe_segment(
            (#[trigger] d.subagents@[i]).overview.session_id@,
        )
}

fn delegation_row(d: &ListedDelegation) -> (r: Result<Json, RpcError>)
    requires
        d.subagents@.len() <= i32::MAX,
    ensures
        r is Ok <==> rows_are_safe(*d),
        r matches Ok(row) ==> row@ == delegation_row_view(*d),
        r matches Err(e) ==> e@ == handoff::segment_error("subagent_id"@),
{
    let progress = progress_from_subagent_overview(&d.delegation, &d.subagents);
    let mut rows: Vec<Json> = Vec::new();
    let mut i: usize = 0;
    while i < d.subagents.len()
        invariant
            i <= d.subagents.len(),
            rows@.len() == i,
            forall|j: int|
                0 <= j < i ==> handoff::safe_segment(
                    (#[trigger] d.subagents@[j]).overview.session_id@,
                ),
            forall|j: int|
                0 <= j < i ==> (#[trigger] rows@[j])@ == subagent_row_view(
                    d.delegation.status,
                    d.subagents@[j],
                ),
        decreases d.subagents.len() - i,
    {
        match safe_path_segment(d.subagents[i].overview.session_id.as_str(), "subagent_id") {
            Ok(_) => {},
            Err(e) => {
                assert(!handoff::safe_segment(d.subagents@[i as int].overview.session_id@));
                return Err(e);
            },
        }
        rows.push(subagent_row(d.delegation.status, &d.subagents[i]));
        i += 1;
    }
    proof {
        json::lemma_list_view(rows@);
        assert(json::list_view(rows@) == d.subagents@.map_values(
            |s: ListedSubagent| subagent_row_view(d.delegation.status, s),
        ));
        lemma_counts(overviews(d.subagents@));
    }
    Ok(
        Json::Object(
            JsonObject::new().with("delegation_id", Json::text(d.delegation.id.as_str())).with(
                "kind",
                Json::text(d.delegation.kind.as_str()),
            ).with("status", Json::text(d.delegation.status.as_str())).with(
                "workflow",
                Json::opt_text(opt_str(&d.delegation.workflow)),
            ).with("label", Json::opt_text(opt_str(&d.delegation.label))).with(
                "progress",
                progress_view(progress),
            ).with("subagents", Json::List(rows)),
        ),
    )
}

/// A list request with its bounds checked.
#[derive(Debug, PartialEq, Eq)]
pub struct DelegationList {
    pub parent_session_id: String,
    pub limit: i64,
}

/// One page of delegation rows, and whether there are more. Each row gets its
/// subagents as they are loaded.
#[derive(Debug, PartialEq, Eq)]
pub struct DelegationPage {
    list: DelegationList,
    rows: Vec<ListedDelegation>,
    has_more: bool,
}

impl DelegationPage {
    /// The list that this is a page of.
    pub closed spec fn list(self) -> DelegationList {
        self.list
    }

    pub closed spec fn row_views(self) -> Seq<ListedDelegation> {
        self.rows@
    }

    pub closed spec fn more(self) -> bool {
        self.has_more
    }

    pub fn rows(&self) -> (r: &Vec<ListedDelegation>)
        ensures
            r@ == self.row_views(),
    {
        &self.rows
    }

    pub fn has_more(&self) -> (r: bool)
        ensures
            r == self.more(),
    {
        self.has_more
    }

    /// Puts the subagents of a row in place; nothing else of the page changes.
    pub fn load(&mut self, row: usize, subagents: Vec<ListedSubagent>)
        requires
            row < old(self).row_views().len(),
        ensures
            final(self).list() == old(self).list(),
            final(self).more() == old(self).more(),
            final(self).row_views() == old(self).row_views().update(
                row as int,
                (ListedDelegation { subagents, ..old(self).row_views()[row as int] }),
            ),
    {
        self.rows[row].subagents = subagents;
    }

    /// The answer with the rows of the page.
    pub fn answer(&self) -> (r: Result<Json, RpcError>)
        requires
            forall|i: int|
                0 <= i < self.row_views().len() ==> (#[trigger] self.row_views()[i]).subagents@.len()
                    <= i32::MAX,
        ensures
            r is Ok <==> forall|i: int|
                0 <= i < self.row_views().len() ==> rows_are_safe(#[trigger] self.row_views()[i]),
            r matches Err(e) ==> e@ == handoff::segment_error("subagent_id"@),
            r matches Ok(answer) ==> answer@ == list_answer_view(
                self.list(),
                self.more(),
                self.row_views(),
            ),
    {
        let rows = &self.rows;
        let mut views: Vec<Json> = Vec::new();
        let mut i: usize = 0;
        while i < rows.len()
            invariant
                i <= rows.len(),
                rows@ == self.row_views(),
                views@.len() == i,
                forall|j: int|
                    0 <= j < rows@.len() ==> (#[trigger] rows@[j]).subagents@.len() <= i32::MAX,
                forall|j: int| 0 <= j < i ==> rows_are_safe(#[trigger] rows@[j]),
                forall|j: int| 0 <= j < i ==> (#[trigger] views@[j])@ == delegation_row_view(rows@[j]),
            decreases rows.len() - i,
        {
            match delegation_row(&rows[i]) {
                Ok(row) => views.push(row),
                Err(e) => {
                    assert(!rows_are_safe(self.row_views()[i as int]));
                    return Err(e);
                },
            }
            i += 1;
        }
        proof {
            json::lemma_list_view(views@);
            assert(json::list_view(views@) == rows@.map_values(
                |d: ListedDelegation| delegation_row_view(d),
            ));
        }
        Ok(
            Json::Object(
                JsonObject::new().with(
                    "parent_session_id",
                    Json::text(self.list.parent_session_id.as_str()),
                ).with("limit", Json::number(self.list.limit)).with("has_more", Json::Bool(self.has_more)).with(
                    "delegations",
                    Json::List(views),
                ),
            ),
        )
    }
}

impl DelegationList {
    pub open spec fn bounded(self) -> bool {
        0 <= self.limit <= MAX_DELEGATION_LIST_LIMIT
    }

    pub fn read(params: &DelegationListParams) -> (r: Result<DelegationList, RpcError>)
        ensures
            r is Ok <==> text::trimmed(params.parent_session_id@).len() > 0 && 0 <= asked_limit(
                params.limit,
            ) <= MAX_DELEGATION_LIST_LIMIT,
            r matches Ok(l) ==> l.bounded() && l.parent_session_id@ == text::trimmed(
                params.parent_session_id@,
            ) && l.limit == asked_limit(params.limit),
            r matches Err(e) ==> e@ == (if text::trimmed(params.parent_session_id@).len() == 0 {
                delegation_tools::empty_field_error("parent_session_id"@)
            } else {
                limit_error()
            }),
    {
        let parent_session_id = match trim_required(
            params.parent_session_id.as_str(),
            "parent_session_id",
        ) {
            Ok(id) => id,
            Err(e) => {
                return Err(e);
            },
        };
        match bounded_delegation_list_limit(params.limit) {
            Ok(limit) => Ok(DelegationList { parent_session_id, limit }),
            Err(e) => Err(e),
        }
    }

    /// Only a session that exists has a list.
    pub fn require_session(&self, exists: bool) -> (r: Result<(), RpcError>)
        ensures
            r is Ok <==> exists,
            r matches Err(e) ==> e@ == (
                "internal_error"@,
                "session not found: "@ + self.parent_session_id@,
            ),
    {
        if exists {
            Ok(())
        } else {
            Err(
                RpcError::with_message(
                    "internal_error",
                    "session not found: ".to_owned().concat(self.parent_session_id.as_str()),
                ),
            )
        }
    }

    /// One row more than the page holds is fetched, to learn of further rows.
    pub fn fetch_limit(&self) -> (r: i64)
        requires
            self.bounded(),
        ensures
            r == self.limit + 1,
    {
        self.limit + 1
    }

    /// The page of the fetched rows, none of which has its subagents yet.
    pub fn page(self, fetched: Vec<Delegation>) -> (r: DelegationPage)
        requires
            self.bounded(),
        ensures
            r.list() == self,
            r.more() <==> fetched@.len() > self.limit,
            r.row_views().len() == (if fetched@.len() > self.limit {
                self.limit as int
            } else {
                fetched@.len() as int
            }),
            forall|i: int|
                0 <= i < r.row_views().len() ==> (#[trigger] r.row_views()[i]).delegation
                    == fetched@[i] && r.row_views()[i].subagents@.len() == 0,
    {
        let limit: usize = self.limit as usize;
        let has_more = fetched.len() > limit;
        let ghost all = fetched@;
        let mut rest = fetched;
        rest.truncate(limit);
        let ghost kept = rest@;
        let mut rows: Vec<ListedDelegation> = Vec::new();
        while rest.len() > 0
            invariant
                kept.len() == rows@.len() + rest@.len(),
                rest@ == kept.skip(rows@.len() as int),
                forall|i: int|
                    0 <= i < rows@.len() ==> (#[trigger] rows@[i]).delegation == kept[i]
                        && rows@[i].subagents@.len() == 0,
            decreases rest.len(),
        {
            let delegation = rest.remove(0);
            rows.push(ListedDelegation { delegation, subagents: Vec::new() });
        }
        DelegationPage { list: self, rows, has_more }
    }
}

pub open spec fn list_answer_view(
    list: DelegationList,
    has_more: bool,
    page: Seq<ListedDelegation>,
) -> JsonView {
    JsonView::Object(
        json::no_entries().insert("parent_session_id"@, JsonView::Text(list.parent_session_id@)).insert(
            "limit"@,
            json::int_view(list.limit as int),
        ).insert("has_more"@, JsonView::Bool(has_more)).insert(
            "delegations"@,
            JsonView::List(page.map_values(|d: ListedDelegation| delegation_row_view(d))),
        ),
    )
}

/// A subagent that is listed as steerable belongs to a running delegation and
/// has no terminal status.
pub proof fn law_steerable_rows_are_live(status: DelegationStatus, s: ListedSubagent)
    ensures
        listed_steerable(status, s) ==> status is Running && s.overview.terminal_status is None,
{
}

proof fn lemma_list_counts_are_filters(subagents: Seq<DelegationSubagentOverview>)
    ensures
        terminal_count(subagents) == subagents.filter(
            |s: DelegationSubagentOverview| s.terminal_status is Some,
        ).len(),
        failed_count(subagents) == subagents.filter(
            |s: DelegationSubagentOverview|
                s.terminal_status matches Some(t) && t@ == "failed"@,
        ).len(),
    decreases subagents.len(),
{
    reveal(Seq::filter);
    if subagents.len() > 0 {
        lemma_list_counts_are_filters(subagents.drop_last());
    }
}

/// A listed delegation counts as terminal every subagent that has a terminal
/// status and as failed every one whose terminal status is `failed`, at every
/// status of the delegation; the others, and those still to be spawned, count as
/// running while it runs.
pub proof fn law_progress_counts_the_rows(d: ListedDelegation)
    requires
        d.subagents@.len() <= i32::MAX,
    ensures
        ({
            let p = listed_progress(d);
            let rows = d.subagents@.map_values(|s: ListedSubagent| s.overview);
            let terminal = rows.filter(
                |s: DelegationSubagentOverview| s.terminal_status is Some,
            ).len();
            let failed = rows.filter(
                |s: DelegationSubagentOverview|
                    s.terminal_status matches Some(t) && t@ == "failed"@,
            ).len();
            let most = if d.subagents@.len() >= d.delegation.expected_subagents {
                d.subagents@.len() as int
            } else {
                d.delegation.expected_subagents as int
            };
            &&& p.expected == d.delegation.expected_subagents
            &&& p.spawned == d.subagents@.len()
            &&& p.terminal == terminal
            &&& p.failed == failed
            &&& p.running == (if d.delegation.status is Running {
                most - terminal
            } else {
                0
            })
        }),
{
    let rows = overviews(d.subagents@);
    lemma_list_counts_are_filters(rows);
    lemma_counts(rows);
}

/// The row of a listed delegation tells the delegation as it is stored, its
/// progress count by count, and one row for each subagent in their order.
pub proof fn law_list_rows_tell_the_delegation(d: ListedDelegation, i: int)
    requires
        0 <= i < d.subagents@.len(),
    ensures
        ({
            let row = delegation_row_view(d);
            let p = listed_progress(d);
            let progress = json::get_view(row, "progress"@)->0;
            let subagents = json::get_view(row, "subagents"@)->0->List_0;
            &&& json::get_view(row, "delegation_id"@) == Some(JsonView::Text(d.delegation.id@))
            &&& json::get_view(row, "kind"@) == Some(
                JsonView::Text(
                    match d.delegation.kind {
                        records::DelegationKind::Full => "full"@,
                        records::DelegationKind::ReadonlyFanout => "readonly_fanout"@,
                    },
                ),
            )
            &&& json::get_view(row, "status"@) == Some(
                JsonView::Text(
                    match d.delegation.status {
                        DelegationStatus::Running => "running"@,
                        DelegationStatus::Done => "done"@,
                        DelegationStatus::DoneWithFailures => "done_with_failures"@,
                        DelegationStatus::Cancelled => "cancelled"@,
                        DelegationStatus::Failed => "failed"@,
                    },
                ),
            )
            &&& json::get_view(row, "workflow"@) == Some(
                match d.delegation.workflow {
                    Some(w) => JsonView::Text(w@),
                    None => JsonView::Null,
                },
            )
            &&& json::get_view(row, "label"@) == Some(
                match d.delegation.label {
                    Some(l) => JsonView::Text(l@),
                    None => JsonView::Null,
                },
            )
            &&& json::get_view(progress, "expected"@) == Some(json::int_view(p.expected as int))
            &&& json::get_view(progress, "spawned"@) == Some(json::int_view(p.spawned as int))
            &&& json::get_view(progress, "terminal"@) == Some(json::int_view(p.terminal as int))
            &&& json::get_view(progress, "running"@) == Some(json::int_view(p.running as int))
            &&& json::get_view(progress, "failed"@) == Some(json::int_view(p.failed as int))
            &&& subagents.len() == d.subagents@.len()
            &&& subagents[i] == subagent_row_view(d.delegation.status, d.subagents@[i])
        }),
{
    reveal_list_keys();
}

/// The row of a listed subagent tells who it is and where it stands. Its status
/// is the stored terminal one, unless the delegation was cancelled or failed;
/// without one it is what the session does while the delegation runs, an idle
/// one as running, and the delegation's own status afterwards.
pub proof fn law_list_rows_tell_the_subagent(status: DelegationStatus, s: ListedSubagent)
    ensures
        ({
            let row = subagent_row_view(status, s);
            let o = s.overview;
            let kind = match o.subagent_type {
                Some(records::SubagentType::Full) => JsonView::Text("full"@),
                Some(records::SubagentType::ReadOnly) => JsonView::Text("read_only"@),
                None => JsonView::Null,
            };
            let doing = match o.activity {
                SessionActivity::Idle => "idle"@,
                SessionActivity::Queued => "queued"@,
                SessionActivity::Running => "running"@,
            };
            let shown = json::get_view(row, "status"@);
            &&& json::get_view(row, "id"@) == Some(JsonView::Text(o.session_id@))
            &&& status is Cancelled ==> shown == Some(JsonView::Text("cancelled"@))
            &&& status is Failed ==> shown == Some(JsonView::Text("failed"@))
            &&& !(status is Cancelled || status is Failed) ==> (match o.terminal_status {
                Some(t) => shown == Some(JsonView::Text(t@)),
                None => shown == Some(
                    JsonView::Text(
                        if status is Done {
                            "done"@
                        } else if status is DoneWithFailures {
                            "done_with_failures"@
                        } else if o.activity is Idle {
                            "running"@
                        } else {
                            doing
                        },
                    ),
                ),
            })
            &&& json::get_view(row, "activity"@) == Some(JsonView::Text(doing))
            &&& json::get_view(row, "role"@) == Some(
                match o.role {
                    Some(r) => JsonView::Text(r@),
                    None => JsonView::Null,
                },
            )
            &&& json::get_view(row, "title"@) == Some(
                match o.title {
                    Some(t) => JsonView::Text(t@),
                    None => JsonView::Null,
                },
            )
            &&& json::get_view(row, "type"@) == Some(kind)
            &&& json::get_view(row, "subagent_type"@) == Some(kind)
            &&& json::get_view(row, "task_prompt_file"@) == Some(
                if o.has_task {
                    JsonView::Text(o.session_id@ + "/"@ + "task_prompt.md"@)
                } else {
                    JsonView::Null
                },
            )
            &&& json::get_view(row, "steerable"@) == Some(
                JsonView::Bool(
                    status is Running && o.subagent_type is Some && o.terminal_status is None && (
                    o.activity is Queued || o.activity is Running || s.has_active_runtime),
                ),
            )
            &&& json::get_view(row, "outcome"@) == Some(JsonView::Null)
            &&& json::get_view(row, "final_message_file"@) == Some(JsonView::Null)
            &&& json::get_view(row, "transcript_file"@) == Some(JsonView::Null)
        }),
{
    reveal_list_keys();
}

/// An answer names the session it lists, the limit it was asked with and whether
/// there are more delegations, and holds one row for each on the page, in order.
pub proof fn law_list_answers_tell_the_page(
    list: DelegationList,
    has_more: bool,
    page: Seq<ListedDelegation>,
    i: int,
)
    requires
        0 <= i < page.len(),
    ensures
        ({
            let answer = list_answer_view(list, has_more, page);
            let rows = json::get_view(answer, "delegations"@)->0->List_0;
            &&& json::get_view(answer, "parent_session_id"@) == Some(
                JsonView::Text(list.parent_session_id@),
            )
            &&& json::get_view(answer, "limit"@) == Some(json::int_view(list.limit as int))
            &&& json::get_view(answer, "has_more"@) == Some(JsonView::Bool(has_more))
            &&& rows.len() == page.len()
            &&& rows[i] == delegation_row_view(page[i])
        }),
{
    reveal_strlit("parent_session_id");
    reveal_strlit("limit");
    reveal_strlit("has_more");
    reveal_strlit("delegations");
    assert("parent_session_id"@.len() == 17);
    assert("limit"@.len() == 5);
    assert("has_more"@.len() == 8);
    assert("delegations"@.len() == 11);
}

/// The limit is the one that was asked for, three where none was, and a page
/// never asks for more than a hundred.
pub proof fn law_list_limits(limit: Option<i64>)
    ensures
        match limit {
            Some(n) => asked_limit(limit) == n,
            None => asked_limit(limit) == 3,
        },
        MAX_DELEGATION_LIST_LIMIT == 100,
{
}

proof fn reveal_list_keys()
    ensures
        "delegation_id"@.len() == 13,
        "kind"@.len() == 4,
        "kind"@[0] == 'k',
        "status"@.len() == 6,
        "status"@[0] == 's',
        "failed"@.len() == 6,
        "failed"@[0] == 'f',
        "workflow"@.len() == 8,
        "workflow"@[0] == 'w',
        "progress"@.len() == 8,
        "progress"@[0] == 'p',
        "terminal"@.len() == 8,
        "terminal"@[0] == 't',
        "expected"@.len() == 8,
        "expected"@[0] == 'e',
        "spawned"@.len() == 7,
        "spawned"@[0] == 's',
        "running"@.len() == 7,
        "running"@[0] == 'r',
        "label"@.len() == 5,
        "label"@[0] == 'l',
        "subagents"@.len() == 9,
        "subagents"@[1] == 'u',
        "id"@.len() == 2,
        "role"@.len() == 4,
        "role"@[0] == 'r',
        "title"@.len() == 5,
        "title"@[0] == 't',
        "type"@.len() == 4,
        "type"@[0] == 't',
        "subagent_type"@.len() == 13,
        "activity"@.len() == 8,
        "activity"@[0] == 'a',
        "steerable"@.len() == 9,
        "steerable"@[1] == 't',
        "outcome"@.len() == 7,
        "outcome"@[0] == 'o',
        "final_message_file"@.len() == 18,
        "transcript_file"@.len() == 15,
        "task_prompt_file"@.len() == 16,
{
    reveal_strlit("delegation_id");
    reveal_strlit("kind");
    reveal_strlit("status");
    reveal_strlit("failed");
    reveal_strlit("workflow");
    reveal_strlit("progress");
    reveal_strlit("terminal");
    reveal_strlit("expected");
    reveal_strlit("spawned");
    reveal_strlit("running");
    reveal_strlit("label");
    reveal_strlit("subagents");
    reveal_strlit("id");
    reveal_strlit("role");
    reveal_strlit("title");
    reveal_strlit("type");
    reveal_strlit("subagent_type");
    reveal_strlit("activity");
    reveal_strlit("steerable");
    reveal_strlit("outcome");
    reveal_strlit("final_message_file");
    reveal_strlit("transcript_file");
    reveal_strlit("task_prompt_file");
}

/// The rows of a list hold these entries and no others.
pub proof fn law_list_rows_hold_no_contents(
    status: DelegationStatus,
    s: ListedSubagent,
    d: ListedDelegation,
    key: Seq<char>,
)
    ensures
        json::get_view(subagent_row_view(status, s), key) is Some <==> {
            ||| key == "id"@
            ||| key == "status"@
            ||| key == "activity"@
            ||| key == "role"@
            ||| key == "title"@
            ||| key == "type"@
            ||| key == "subagent_type"@
            ||| key == "task_prompt_file"@
            ||| key == "steerable"@
            ||| key == "outcome"@
            ||| key == "final_message_file"@
            ||| key == "transcript_file"@
        },
        json::get_view(delegation_row_view(d), key) is Some <==> {
            ||| key == "delegation_id"@
            ||| key == "kind"@
            ||| key == "status"@
            ||| key == "workflow"@
            ||| key == "label"@
            ||| key == "progress"@
            ||| key == "subagents"@
        },
{
}

} // verus!
