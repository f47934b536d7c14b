//! The delegation barrier: how a delegation whose subagents are all terminal is
//! completed, published and repaired.
//!
//! ```text
//! on a subagent reaching its terminal idle, or at boot:
//!   recover each subagent's tail to a turn boundary
//!   if any subagent is not terminal: stop
//!   claim running -> done | done_with_failures
//!   if the claim is won:
//!     render the handoff files, queue the parent's wakeup, drive the parent
//! ```
//!
//! The terminal status is claimed before anything is published, so that a
//! cancellation that wins is never left with completed handoff files; boot
//! repair publishes again what a crash after the claim left out.
use vstd::prelude::*;

use crate::delegation_snapshot::{self, completion_wakeup_observation, DaemonToolObservation};
use crate::handoff::{self, terminal_subagent_status};
use crate::json::Json;
use crate::records::{self, Delegation, DelegationStatus, QueuedInputStatus};
use crate::text::same;
use crate::transcript::{HistoryTree, TranscriptItem};
use crate::types::RpcError;

verus! {

// ---------------------------------------------------------------------------
// Boot recovery of launches

/// The child of a delegation at one position: the session that was spawned for
/// it, or none where the launch did not get there.
#[derive(Debug, PartialEq, Eq)]
pub struct ChildSlot {
    pub index: i32,
    pub session_id: Option<String>,
}

/// The session that was spawned for this index; the first entry counts.
pub open spec fn child_at(children: Seq<(i32, String)>, index: i32) -> Option<Seq<char>>
    decreases children.len(),
{
    if children.len() == 0 {
        None
    } else if children[0].0 == index {
        Some(children[0].1@)
    } else {
        child_at(children.skip(1), index)
    }
}

fn find_child(children: &Vec<(i32, String)>, index: i32) -> (r: Option<String>)
    ensures
        records::opt_view(r) == child_at(children@, index),
{
    let mut i: usize = 0;
    assert(children@.skip(0) == children@);
    while i < children.len()
        invariant
            i <= children.len(),
            child_at(children@, index) == child_at(children@.skip(i as int), index),
        decreases children.len() - i,
    {
        let ghost rest = children@.skip(i as int);
        assert(rest[0] == children@[i as int]);
        assert(rest.skip(1) == children@.skip(i + 1));
        if children[i].0 == index {
            return Some(children[i].1.clone());
        }
        i += 1;
    }
    None
}

/// Every position of a delegation in order, with the session that is to be
/// recovered and driven there.
pub fn recover_active_delegation(delegation: &Delegation, children: &Vec<(i32, String)>) -> (r: Vec<
    ChildSlot,
>)
    ensures
        r@.len() == (if delegation.expected_subagents > 0 {
            delegation.expected_subagents as int
        } else {
            0
        }),
        forall|i: int|
            0 <= i < r@.len() ==> (#[trigger] r@[i]).index == i && records::opt_view(
                r@[i].session_id,
            ) == child_at(children@, i as i32),
{
    let mut slots: Vec<ChildSlot> = Vec::new();
    let mut index: i32 = 0;
    while index < delegation.expected_subagents
        invariant
            0 <= index,
            index <= delegation.expected_subagents || index == 0,
            slots@.len() == index,
            forall|i: int|
                0 <= i < slots@.len() ==> (#[trigger] slots@[i]).index == i && records::opt_view(
                    slots@[i].session_id,
                ) == child_at(children@, i as i32),
        decreases delegation.expected_subagents - index,
    {
        slots.push(ChildSlot { index, session_id: find_child(children, index) });
        index += 1;
    }
    slots
}

/// How a child's tail is brought up before its ready actions are dispatched.
#[derive(Clone, Copy, Debug, PartialEq, Eq, Structural)]
pub enum ChildRecovery {
    /// Nothing is pending: recover the tail to a boundary.
    RecoverTail,
    /// Actions are pending: load the session with its open turn.
    KeepOpenTurn,
}

pub fn child_recovery(has_pending_actions: bool) -> (r: ChildRecovery)
    ensures
        has_pending_actions ==> r is KeepOpenTurn,
        !has_pending_actions ==> r is RecoverTail,
{
    if has_pending_actions {
        ChildRecovery::KeepOpenTurn
    } else {
        ChildRecovery::RecoverTail
    }
}

/// A running delegation has fewer subagents than it expects: its launch is to
/// be carried on. A row with a negative count always is.
pub fn launch_is_partial(delegation: &Delegation, spawned: usize) -> (r: bool)
    ensures
        r == (delegation.expected_subagents < 0 || spawned < delegation.expected_subagents),
{
    delegation.expected_subagents < 0 || (spawned as u64) < (delegation.expected_subagents as u64)
}

// ---------------------------------------------------------------------------
// Re-entrancy

/// The delegations whose barrier is running right now. Recovering a sibling
/// can fire the same barrier again; the outermost one is the authority.
#[derive(Debug, PartialEq, Eq)]
pub struct InFlightBarriers {
    pub ids: Vec<String>,
}

pub open spec fn id_views(ids: Seq<String>) -> Seq<Seq<char>> {
    ids.map_values(|s: String| s@)
}

impl InFlightBarriers {
    /// The delegations in flight.
    pub open spec fn ids_in_flight(self) -> Set<Seq<char>> {
        id_views(self.ids@).to_set()
    }

    /// No delegation is noted twice.
    pub open spec fn wf(self) -> bool {
        id_views(self.ids@).no_duplicates()
    }

    pub fn new() -> (r: InFlightBarriers)
        ensures
            r.wf(),
            r.ids_in_flight() == Set::<Seq<char>>::empty(),
    {
        let r = InFlightBarriers { ids: Vec::new() };
        assert(r.ids_in_flight() =~= Set::<Seq<char>>::empty());
        r
    }

    fn position(&self, delegation_id: &str) -> (r: Option<usize>)
        ensures
            r is Some <==> self.ids_in_flight().contains(delegation_id@),
            r matches Some(i) ==> i < self.ids@.len() && self.ids@[i as int]@ == delegation_id@,
    {
        let mut i: usize = 0;
        while i < self.ids.len()
            invariant
                i <= self.ids.len(),
                forall|j: int| 0 <= j < i ==> (#[trigger] self.ids@[j])@ != delegation_id@,
            decreases self.ids.len() - i,
        {
            if same(self.ids[i].as_str(), delegation_id) {
                assert(id_views(self.ids@)[i as int] == delegation_id@);
                return Some(i);
            }
            i += 1;
        }
        proof {
            if self.ids_in_flight().contains(delegation_id@) {
                let j = choose|j: int|
                    0 <= j < id_views(self.ids@).len() && id_views(self.ids@)[j] == delegation_id@;
                assert(self.ids@[j]@ == delegation_id@);
            }
        }
        None
    }

    /// Notes that a barrier begins; false where it is running already.
    pub fn enter(&mut self, delegation_id: &str) -> (r: bool)
        requires
            old(self).wf(),
        ensures
            final(self).wf(),
            r == !old(self).ids_in_flight().contains(delegation_id@),
            final(self).ids_in_flight() == old(self).ids_in_flight().insert(delegation_id@),
    {
        let ghost before = id_views(self.ids@);
        if self.position(delegation_id).is_some() {
            assert(self.ids_in_flight() =~= self.ids_in_flight().insert(delegation_id@));
            return false;
        }
        self.ids.push(delegation_id.to_owned());
        proof {
            let after = id_views(self.ids@);
            assert(after =~= before.push(delegation_id@));
            assert(!before.contains(delegation_id@)) by {
                if before.contains(delegation_id@) {
                    assert(before.to_set().contains(delegation_id@));
                }
            }
            assert(after.to_set() =~= before.to_set().insert(delegation_id@)) by {
                assert forall|x: Seq<char>| #[trigger] after.contains(x) <==> before.contains(x)
                    || x == delegation_id@ by {
                    if before.contains(x) {
                        let j = choose|j: int| 0 <= j < before.len() && before[j] == x;
                        assert(after[j] == x);
                    }
                    if x == delegation_id@ {
                        assert(after[before.len() as int] == x);
                    }
                }
            }
        }
        true
    }

    /// Notes that the barrier has ended.
    pub fn leave(&mut self, delegation_id: &str)
        requires
            old(self).wf(),
        ensures
            final(self).wf(),
            final(self).ids_in_flight() == old(self).ids_in_flight().remove(delegation_id@),
    {
        let ghost before = id_views(self.ids@);
        match self.position(delegation_id) {
            Some(i) => {
                self.ids.remove(i);
                proof {
                    let after = id_views(self.ids@);
                    assert(after =~= before.remove(i as int));
                    assert(after.to_set() =~= before.to_set().remove(delegation_id@)) by {
                        assert forall|x: Seq<char>| #[trigger] after.contains(x) <==> (
                        before.contains(x) && x != delegation_id@) by {
                            if after.contains(x) {
                                let j = choose|j: int| 0 <= j < after.len() && after[j] == x;
                                if j < i {
                                    assert(before[j] == x);
                                } else {
                                    assert(before[j + 1] == x);
                                }
                                assert(before[i as int] == delegation_id@);
                            }
                            if before.contains(x) && x != delegation_id@ {
                                let j = choose|j: int| 0 <= j < before.len() && before[j] == x;
                                if j < i {
                                    assert(after[j] == x);
                                } else {
                                    assert(after[j - 1] == x);
                                }
                            }
                        }
                    }
                }
            },
            None => {
                assert(self.ids_in_flight() =~= self.ids_in_flight().remove(delegation_id@));
            },
        }
    }
}

/// A barrier that enters and leaves again leaves the others as they were, and a
/// second entry in between is turned away.
pub proof fn law_barriers_nest(in_flight: Set<Seq<char>>, delegation_id: Seq<char>)
    requires
        !in_flight.contains(delegation_id),
    ensures
        in_flight.insert(delegation_id).contains(delegation_id),
        in_flight.insert(delegation_id).remove(delegation_id) == in_flight,
{
    assert(in_flight.insert(delegation_id).remove(delegation_id) =~= in_flight);
}

// ---------------------------------------------------------------------------
// The barrier

/// A running delegation whose subagents are being recovered.
#[derive(Debug, PartialEq, Eq)]
pub struct RunningBarrier {
    pub delegation: Delegation,
}

/// A running delegation whose subagents are all terminal.
#[derive(Debug, PartialEq, Eq)]
pub struct MetBarrier {
    pub delegation: Delegation,
}

/// A delegation whose terminal status is to be claimed.
#[derive(Debug, PartialEq, Eq)]
pub struct BarrierClaim {
    pub delegation: Delegation,
    pub status: DelegationStatus,
}

/// A delegation that completed and is to be published.
#[derive(Debug, PartialEq, Eq)]
pub struct CompletedDelegation {
    pub delegation: Delegation,
    pub client_input_id: String,
}

/// A wakeup to be queued for the parent.
#[derive(Debug, PartialEq, Eq)]
pub struct WakeupPublication {
    pub parent_session_id: String,
    pub observation: DaemonToolObservation,
    pub client_input_id: String,
}

/// Opens the barrier of a delegation; one that is gone or terminal has none.
pub fn open_barrier(row: Option<Delegation>) -> (r: Option<RunningBarrier>)
    ensures
        r is Some <==> (row matches Some(d) && d.status is Running),
        r matches Some(b) ==> row == Some(b.delegation),
{
    match row {
        Some(delegation) => match delegation.status {
            DelegationStatus::Running => Some(RunningBarrier { delegation }),
            _ => None,
        },
        None => None,
    }
}

impl RunningBarrier {
    /// The barrier is met when every subagent is terminal.
    pub fn after_recovery(self, all_terminal: bool) -> (r: Option<MetBarrier>)
        ensures
            r is Some <==> all_terminal,
            r matches Some(b) ==> b.delegation == self.delegation,
    {
        if all_terminal {
            Some(MetBarrier { delegation: self.delegation })
        } else {
            None
        }
    }
}

/// Some subagent's branch ended as failed.
pub open spec fn any_failed(histories: Seq<HistoryTree>) -> bool {
    exists|i: int|
        0 <= i < histories.len() && handoff::branch_status(#[trigger] histories[i]) == Some(
            "failed"@,
        )
}

/// The status of a completed delegation, from its subagents' transcripts.
pub open spec fn completed_status(histories: Seq<HistoryTree>) -> DelegationStatus {
    if any_failed(histories) {
        DelegationStatus::DoneWithFailures
    } else {
        DelegationStatus::Done
    }
}

/// Folds the subagents' terminal statuses into the delegation's own.
pub fn classify_subagents(histories: &Vec<HistoryTree>) -> (r: DelegationStatus)
    ensures
        r == completed_status(histories@),
{
    let mut i: usize = 0;
    while i < histories.len()
        invariant
            i <= histories.len(),
            forall|j: int|
                0 <= j < i ==> handoff::branch_status(#[trigger] histories@[j]) != Some("failed"@),
        decreases histories.len() - i,
    {
        if let Some(status) = terminal_subagent_status(&histories[i]) {
            if same(status, "failed") {
                assert(handoff::branch_status(histories@[i as int]) == Some("failed"@));
                return DelegationStatus::DoneWithFailures;
            }
        }
        i += 1;
    }
    DelegationStatus::Done
}

impl MetBarrier {
    pub fn classify(self, histories: &Vec<HistoryTree>) -> (r: BarrierClaim)
        ensures
            r.delegation == self.delegation,
            r.status == completed_status(histories@),
    {
        let status = classify_subagents(histories);
        BarrierClaim { delegation: self.delegation, status }
    }
}

/// The key of a delegation's wakeup: one per delegation and attempt.
pub open spec fn wakeup_key(delegation_id: Seq<char>, attempt_id: Seq<char>) -> Seq<char> {
    "delegation-steer:"@ + delegation_id + ":"@ + attempt_id
}

pub fn delegation_wakeup_client_input_id(delegation: &Delegation) -> (r: String)
    ensures
        r@ == wakeup_key(delegation.id@, delegation.attempt_id@),
{
    "delegation-steer:".to_owned().concat(delegation.id.as_str()).concat(":").concat(
        delegation.attempt_id.as_str(),
    )
}

/// The same row at this status.
pub open spec fn at_status(d: Delegation, status: DelegationStatus, r: Delegation) -> bool {
    r@ == (records::DelegationView { status, ..d@ })
}

fn completed(delegation: Delegation, status: DelegationStatus) -> (r: CompletedDelegation)
    ensures
        at_status(delegation, status, r.delegation),
        r.client_input_id@ == wakeup_key(delegation.id@, delegation.attempt_id@),
{
    let client_input_id = delegation_wakeup_client_input_id(&delegation);
    let mut delegation = delegation;
    delegation.status = status;
    CompletedDelegation { delegation, client_input_id }
}

impl BarrierClaim {
    /// Only the claim that wins is published: another terminal child, boot or a
    /// cancellation may have been faster.
    pub fn after_claim(self, won: bool) -> (r: Option<CompletedDelegation>)
        ensures
            r is Some <==> won,
            r matches Some(c) ==> at_status(self.delegation, self.status, c.delegation)
                && c.client_input_id@ == wakeup_key(
                self.delegation.id@,
                self.delegation.attempt_id@,
            ),
    {
        if won {
            Some(completed(self.delegation, self.status))
        } else {
            None
        }
    }
}

/// What boot repairs: a delegation that completed, under the status of its row.
/// Cancelled and failed ones are never published again.
pub fn repair_completed_delegation_publication(delegation: Delegation) -> (r: Option<
    CompletedDelegation,
>)
    ensures
        r is Some <==> delegation.status is Done || delegation.status is DoneWithFailures,
        r matches Some(c) ==> at_status(delegation, delegation.status, c.delegation)
            && c.client_input_id@ == wakeup_key(delegation.id@, delegation.attempt_id@),
{
    match delegation.status {
        DelegationStatus::Done | DelegationStatus::DoneWithFailures => {
            let status = delegation.status;
            Some(completed(delegation, status))
        },
        _ => None,
    }
}

impl CompletedDelegation {
    /// The wakeup of the parent, from the snapshot of the completed delegation.
    pub fn publication(&self, snapshot: &Json) -> (r: Result<WakeupPublication, RpcError>)
        ensures
            r is Ok,
            r->Ok_0.parent_session_id@ == self.delegation.parent_session_id@,
            r->Ok_0.client_input_id@ == self.client_input_id@,
            delegation_snapshot::inspects(
                r->Ok_0.observation,
                delegation_snapshot::completion_call_id(self.delegation),
                delegation_snapshot::or_else(
                    delegation_snapshot::snapshot_text(snapshot@, "delegation_id"@),
                    "<unknown>"@,
                ),
                delegation_snapshot::completion_summary(snapshot@),
                snapshot@,
            ),
    {
        match completion_wakeup_observation(snapshot, &self.delegation) {
            Ok(observation) => Ok(
                WakeupPublication {
                    parent_session_id: self.delegation.parent_session_id.clone(),
                    observation,
                    client_input_id: self.client_input_id.clone(),
                },
            ),
            Err(e) => Err(e),
        }
    }
}

/// After a repair the parent is driven while its wakeup is still queued.
pub fn completion_wakeup_needs_drive(record: Option<QueuedInputStatus>) -> (r: bool)
    ensures
        r == (record matches Some(status) && status.outstanding()),
{
    match record {
        Some(status) => status.is_outstanding(),
        None => false,
    }
}

// ---------------------------------------------------------------------------
// Laws

/// A barrier completes a delegation as done or as done with failures and never
/// otherwise, and as done exactly when no subagent failed.
pub proof fn law_barrier_outcomes(histories: Seq<HistoryTree>)
    ensures
        completed_status(histories) is Done || completed_status(histories) is DoneWithFailures,
        completed_status(histories) is Done <==> forall|i: int|
            0 <= i < histories.len() ==> handoff::branch_status(#[trigger] histories[i]) != Some(
                "failed"@,
            ),
{
}

/// The order of the subagents does not matter to how a delegation completes.
pub proof fn law_classification_ignores_order(a: Seq<HistoryTree>, b: Seq<HistoryTree>)
    requires
        a.to_multiset() == b.to_multiset(),
    ensures
        completed_status(a) == completed_status(b),
{
    assert forall|x: HistoryTree| #[trigger] a.contains(x) <==> b.contains(x) by {
        vstd::seq_lib::to_multiset_contains(a, x);
        vstd::seq_lib::to_multiset_contains(b, x);
    }
    if any_failed(a) {
        let i = choose|i: int|
            0 <= i < a.len() && handoff::branch_status(#[trigger] a[i]) == Some("failed"@);
        assert(a.contains(a[i]));
        assert(b.contains(a[i]));
    }
    if any_failed(b) {
        let i = choose|i: int|
            0 <= i < b.len() && handoff::branch_status(#[trigger] b[i]) == Some("failed"@);
        assert(b.contains(b[i]));
        assert(a.contains(b[i]));
    }
}

/// A repair queues the wakeup under the key of the first publication: the key
/// depends on the delegation and its attempt alone, and attempts of one
/// delegation have keys of their own.
pub proof fn law_one_wakeup_per_attempt(
    delegation_id: Seq<char>,
    attempt: Seq<char>,
    other: Seq<char>,
)
    ensures
        wakeup_key(delegation_id, attempt) == wakeup_key(delegation_id, other) <==> attempt
            == other,
{
    let head = ("delegation-steer:"@ + delegation_id + ":"@).len() as int;
    assert(wakeup_key(delegation_id, attempt).skip(head) == attempt);
    assert(wakeup_key(delegation_id, other).skip(head) == other);
}

/// A delegation completes with failures exactly when the branch of some subagent
/// ends in a turn that was interrupted or crashed, whatever the subagents wrote.
pub proof fn law_failures_are_failed_turns(histories: Seq<HistoryTree>, leaves: Seq<int>)
    requires
        leaves.len() == histories.len(),
        forall|k: int|
            0 <= k < histories.len() ==> {
                let h = #[trigger] histories[k];
                &&& 0 <= leaves[k] < h.entries@.len()
                &&& h.active_leaf_id matches Some(leaf) && leaf@ == h.entries@[leaves[k]].id@
                &&& forall|j: int|
                    leaves[k] < j < h.entries@.len() ==> (#[trigger] h.entries@[j]).id@
                        != h.entries@[leaves[k]].id@
            },
    ensures
        completed_status(histories) is DoneWithFailures <==> exists|k: int|
            0 <= k < histories.len() && ((#[trigger] histories[k]).entries@[leaves[k]].item matches
                TranscriptItem::TurnFinished { outcome, .. } && (outcome is Interrupted
                || outcome is Crashed)),
{
    reveal_strlit("failed");
    reveal_strlit("done");
    assert("failed"@.len() == 6);
    assert("done"@.len() == 4);
    assert forall|k: int| 0 <= k < histories.len() implies (handoff::branch_status(
        #[trigger] histories[k],
    ) == Some("failed"@) <==> (histories[k].entries@[leaves[k]].item matches
        TranscriptItem::TurnFinished { outcome, .. } && (outcome is Interrupted
        || outcome is Crashed))) by {
        handoff::law_status_is_that_of_the_leaf(histories[k], leaves[k]);
    }
    if any_failed(histories) {
        let k = choose|k: int|
            0 <= k < histories.len() && handoff::branch_status(#[trigger] histories[k]) == Some(
                "failed"@,
            );
        assert(histories[k].entries@[leaves[k]].item is TurnFinished);
    }
}

/// The session at a position is that of the first child that carries its index;
/// there is none where no child does.
pub proof fn law_children_are_found_by_index(children: Seq<(i32, String)>, index: i32, i: int)
    ensures
        0 <= i < children.len() && children[i].0 == index && (forall|j: int|
            0 <= j < i ==> (#[trigger] children[j]).0 != index) ==> child_at(children, index)
            == Some(children[i].1@),
        (forall|j: int| 0 <= j < children.len() ==> (#[trigger] children[j]).0 != index)
            ==> child_at(children, index) is None,
    decreases children.len(),
{
    if children.len() > 0 {
        let rest = children.skip(1);
        assert forall|j: int| 0 <= j < rest.len() implies #[trigger] rest[j] == children[j + 1] by {
        }
        law_children_are_found_by_index(rest, index, i - 1);
    }
}

/// A claim changes nothing of a delegation's row but its status.
pub proof fn law_claims_change_the_status_alone(
    d: Delegation,
    status: DelegationStatus,
    r: Delegation,
)
    requires
        at_status(d, status, r),
    ensures
        r.status == status,
        r.id@ == d.id@,
        r.parent_session_id@ == d.parent_session_id@,
        records::opt_view(r.workflow) == records::opt_view(d.workflow),
        records::opt_view(r.label) == records::opt_view(d.label),
        r.kind == d.kind,
        r.attempt_id@ == d.attempt_id@,
        r.expected_subagents == d.expected_subagents,
{
}

/// A wakeup key names the delegation and, after a colon, the attempt.
pub proof fn law_wakeup_keys_name_the_attempt(delegation_id: Seq<char>, attempt_id: Seq<char>)
    ensures
        wakeup_key(delegation_id, attempt_id) == "delegation-steer:"@ + (delegation_id + (":"@
            + attempt_id)),
{
}

} // verus!
