//! The compaction ledger: what a parent session is told of its delegations when
//! its transcript is compacted.
//!
//! The ledger lists every delegation of the parent and a bounded number of its
//! subagents, with references to their files and without their contents.
//! Subagent sessions receive none: they summarise only their own work.
use vstd::prelude::*;

use crate::handoff::{self, cancelled_transcript_rel, delegation_path, extract_suggested_next};
use crate::interop::{self, quoted};
use crate::paths;
use crate::records::{
    self, opt_str, Delegation, DelegationProgress, DelegationStatus, SessionActivity, SubagentType,
};
use crate::text::{
    self, chars_of, decimal_i64, decimal_u64, last_nonempty_line, strip_prefix,
};

verus! {

pub const MAX_SUBAGENTS_PER_DELEGATION: usize = 8;

pub const MAX_SUGGESTED_NEXT_CHARS: usize = 120;

// ---------------------------------------------------------------------------
// Bounded and escaped text

/// The first `max_chars` characters, with an ellipsis where more follow.
pub open spec fn truncated(value: Seq<char>, max_chars: int) -> Seq<char> {
    if value.len() > max_chars {
        value.take(max_chars).push('\u{2026}')
    } else {
        value
    }
}

pub fn truncate_chars(value: &str, max_chars: usize) -> (r: String)
    ensures
        r@ == truncated(value@, max_chars as int),
        r@.len() <= max_chars + 1,
{
    let chars = chars_of(value);
    if chars.len() > max_chars {
        let mut out = value.substring_char(0, max_chars).to_owned();
        out.push('\u{2026}');
        assert(value@.subrange(0, max_chars as int) == value@.take(max_chars as int));
        out
    } else {
        value.to_owned()
    }
}

/// The outcome of a final message, bounded.
pub fn bounded_suggested_next(final_message: &str) -> (r: Option<String>)
    ensures
        records::opt_view(r) == bounded_outcome(final_message@),
{
    match extract_suggested_next(final_message) {
        Some(value) => Some(truncate_chars(value.as_str(), MAX_SUGGESTED_NEXT_CHARS)),
        None => None,
    }
}

pub open spec fn bounded_outcome(final_message: Seq<char>) -> Option<Seq<char>> {
    match handoff::outcome_of(final_message) {
        Some(value) => Some(truncated(value, MAX_SUGGESTED_NEXT_CHARS as int)),
        None => None,
    }
}

/// A character as it stands in inline code: back-ticks and line breaks are
/// escaped.
pub open spec fn code_char(c: char) -> Seq<char> {
    if c == '`' {
        seq!['\\', '`']
    } else if c == '\n' {
        seq!['\\', 'n']
    } else if c == '\r' {
        seq!['\\', 'r']
    } else {
        seq![c]
    }
}

/// A text as it stands in inline code.
pub open spec fn code_text(value: Seq<char>) -> Seq<char>
    decreases value.len(),
{
    if value.len() == 0 {
        Seq::empty()
    } else {
        code_text(value.drop_last()) + code_char(value.last())
    }
}

pub fn inline_code(value: &str) -> (r: String)
    ensures
        r@ == code_text(value@),
{
    let chars = chars_of(value);
    let mut out = String::new();
    let mut i: usize = 0;
    assert(out@ == Seq::<char>::empty());
    while i < chars.len()
        invariant
            i <= chars.len(),
            chars@ == value@,
            out@ == code_text(value@.take(i as int)),
        decreases chars.len() - i,
    {
        let ghost before = out@;
        assert(value@.take(i + 1).drop_last() == value@.take(i as int));
        let c = chars[i];
        if c == '`' {
            out.push('\\');
            out.push('`');
        } else if c == '\n' {
            out.push('\\');
            out.push('n');
        } else if c == '\r' {
            out.push('\\');
            out.push('r');
        } else {
            out.push(c);
        }
        assert(out@ == before + code_char(c));
        i += 1;
    }
    assert(value@.take(i as int) == value@);
    out
}

/// Inline code stays on one line and never closes early: it holds no line
/// break, and every back-tick in it follows a backslash.
pub proof fn law_inline_code_is_contained(value: Seq<char>)
    ensures
        forall|i: int|
            0 <= i < code_text(value).len() ==> #[trigger] code_text(value)[i] != '\n'
                && code_text(value)[i] != '\r',
        forall|i: int|
            0 <= i < code_text(value).len() && #[trigger] code_text(value)[i] == '`' ==> i > 0
                && code_text(value)[i - 1] == '\\',
    decreases value.len(),
{
    if value.len() > 0 {
        law_inline_code_is_contained(value.drop_last());
        let head = code_text(value.drop_last());
        let tail = code_char(value.last());
        let whole = code_text(value);
        assert forall|i: int| 0 <= i < whole.len() implies #[trigger] whole[i] != '\n' && whole[i]
            != '\r' by {
            if i < head.len() {
                assert(whole[i] == head[i]);
            } else {
                assert(whole[i] == tail[i - head.len()]);
            }
        }
        assert forall|i: int| 0 <= i < whole.len() && #[trigger] whole[i] == '`' implies i > 0
            && whole[i - 1] == '\\' by {
            if i < head.len() {
                assert(head[i] == '`');
                assert(whole[i - 1] == head[i - 1]);
            } else {
                assert(whole[i] == tail[i - head.len()]);
            }
        }
    }
}

/// The text as inline code between back-ticks, or `null`.
pub open spec fn optional_code(value: Option<Seq<char>>) -> Seq<char> {
    match value {
        Some(v) => if v.len() > 0 {
            "`"@ + code_text(v) + "`"@
        } else {
            "null"@
        },
        None => "null"@,
    }
}

pub fn optional_inline_code(value: Option<&str>) -> (r: String)
    ensures
        r@ == optional_code(records::opt_str_view(value)),
{
    match value {
        Some(v) => if v.is_empty() {
            "null".to_owned()
        } else {
            "`".to_owned().concat(inline_code(v).as_str()).concat("`")
        },
        None => "null".to_owned(),
    }
}

pub open spec fn type_label(subagent_type: Option<SubagentType>) -> Seq<char> {
    match subagent_type {
        Some(t) => t.name(),
        None => "unknown"@,
    }
}

fn optional_type(subagent_type: Option<SubagentType>) -> (r: &'static str)
    ensures
        r@ == type_label(subagent_type),
{
    match subagent_type {
        Some(t) => t.as_str(),
        None => "unknown",
    }
}

// ---------------------------------------------------------------------------
// The parts of the ledger

pub open spec fn header_text() -> Seq<char> {
    "## Delegation state at compaction time\n\n"@
        + "Point-in-time compaction ledger for this parent session. It lists every delegation row for the parent session, including running, done, done_with_failures, cancelled, and failed statuses. Per-subagent control-flow details and artifact file references are bounded. Full transcript and final-message contents are not inlined.\n\n"@
        + "This section is appended after provider compaction so fresh delegation facts cross the compaction boundary. Distinguish delegations that completed, were cancelled, or failed before compaction from delegations that were still running at compaction time. A running delegation entry is only a point-in-time fact: do not assume it completed; wait for a later completion observation or call `inspect_delegation`.\n"@
}

pub fn ledger_header() -> (r: String)
    ensures
        r@ == header_text(),
{
    "## Delegation state at compaction time\n\n".to_owned().concat(
        "Point-in-time compaction ledger for this parent session. It lists every delegation row for the parent session, including running, done, done_with_failures, cancelled, and failed statuses. Per-subagent control-flow details and artifact file references are bounded. Full transcript and final-message contents are not inlined.\n\n",
    ).concat(
        "This section is appended after provider compaction so fresh delegation facts cross the compaction boundary. Distinguish delegations that completed, were cancelled, or failed before compaction from delegations that were still running at compaction time. A running delegation entry is only a point-in-time fact: do not assume it completed; wait for a later completion observation or call `inspect_delegation`.\n",
    )
}

pub fn empty_compaction_delegation_ledger() -> (r: String)
    ensures
        r@ == header_text()
            + "\nNo delegations existed for this parent session at compaction time."@,
{
    ledger_header().concat("\nNo delegations existed for this parent session at compaction time.")
}

pub open spec fn status_note(status: DelegationStatus) -> Seq<char> {
    match status {
        DelegationStatus::Running =>
            "running at compaction time; point-in-time only; await later completion observation or inspect_delegation"@,
        DelegationStatus::Done => "completed before compaction"@,
        DelegationStatus::DoneWithFailures => "completed with failures before compaction"@,
        DelegationStatus::Cancelled => "cancelled before compaction"@,
        DelegationStatus::Failed => "failed before compaction"@,
    }
}

pub fn append_compaction_status_note(out: &mut String, status: DelegationStatus)
    ensures
        final(out)@ == old(out)@ + "; compaction_note: "@ + status_note(status),
{
    let note = match status {
        DelegationStatus::Running =>
            "running at compaction time; point-in-time only; await later completion observation or inspect_delegation",
        DelegationStatus::Done => "completed before compaction",
        DelegationStatus::DoneWithFailures => "completed with failures before compaction",
        DelegationStatus::Cancelled => "cancelled before compaction",
        DelegationStatus::Failed => "failed before compaction",
    };
    out.append("; compaction_note: ");
    out.append(note);
}

/// The transcript that a ledger refers to: none for a failed delegation, the
/// kept one for a cancelled one.
pub open spec fn ledger_transcript(status: DelegationStatus, subagent_id: Seq<char>) -> Option<
    Seq<char>,
> {
    match status {
        DelegationStatus::Cancelled => Some("cancelled/"@ + subagent_id + ".transcript.md"@),
        DelegationStatus::Failed => None,
        _ => Some(subagent_id + "/transcript.md"@),
    }
}

pub fn transcript_file_for(status: DelegationStatus, subagent_id: &str) -> (r: Option<String>)
    ensures
        records::opt_view(r) == ledger_transcript(status, subagent_id@),
{
    match status {
        DelegationStatus::Cancelled => Some(cancelled_transcript_rel(subagent_id)),
        DelegationStatus::Failed => None,
        _ => Some(subagent_id.to_owned().concat("/transcript.md")),
    }
}

pub open spec fn transcript_reference(status: DelegationStatus, subagent_id: Seq<char>) -> Seq<char> {
    match ledger_transcript(status, subagent_id) {
        Some(file) => "`"@ + code_text(file) + "`"@,
        None => "null"@,
    }
}

pub fn optional_transcript_file(status: DelegationStatus, subagent_id: &str) -> (r: String)
    ensures
        r@ == transcript_reference(status, subagent_id@),
{
    match transcript_file_for(status, subagent_id) {
        Some(file) => "`".to_owned().concat(inline_code(file.as_str()).as_str()).concat("`"),
        None => "null".to_owned(),
    }
}

/// Final messages are referred to once the delegation completed.
pub open spec fn completed(status: DelegationStatus) -> bool {
    status is Done || status is DoneWithFailures
}

pub fn final_message_relevant(status: DelegationStatus) -> (r: bool)
    ensures
        r == completed(status),
{
    match status {
        DelegationStatus::Done | DelegationStatus::DoneWithFailures => true,
        _ => false,
    }
}

/// The status that a ledger shows of a subagent.
pub open spec fn ledger_status(
    delegation_status: DelegationStatus,
    terminal: bool,
    activity: SessionActivity,
) -> Seq<char> {
    match delegation_status {
        DelegationStatus::Running => if terminal {
            "terminal"@
        } else {
            activity.name()
        },
        DelegationStatus::Done | DelegationStatus::DoneWithFailures => if terminal {
            "terminal"@
        } else {
            delegation_status.name()
        },
        DelegationStatus::Cancelled | DelegationStatus::Failed => delegation_status.name(),
    }
}

pub fn subagent_status(
    delegation_status: DelegationStatus,
    terminal: bool,
    activity: SessionActivity,
) -> (r: String)
    ensures
        r@ == ledger_status(delegation_status, terminal, activity),
{
    match delegation_status {
        DelegationStatus::Running => if terminal {
            "terminal".to_owned()
        } else {
            activity.as_str().to_owned()
        },
        DelegationStatus::Done | DelegationStatus::DoneWithFailures => if terminal {
            "terminal".to_owned()
        } else {
            delegation_status.as_str().to_owned()
        },
        DelegationStatus::Cancelled | DelegationStatus::Failed => delegation_status.as_str().to_owned(),
    }
}

/// A subagent as the ledger shows it, with the final message that was found
/// for it.
#[derive(Debug, PartialEq, Eq)]
pub struct LedgerSubagent {
    pub session_id: String,
    pub role: Option<String>,
    pub subagent_type: Option<SubagentType>,
    pub activity: SessionActivity,
    pub status: String,
    pub steerable: bool,
    pub final_message: Option<String>,
}

/// The ledger offers a writing subagent for steering while its delegation runs
/// and it is at work.
pub open spec fn ledger_steerable(
    delegation_status: DelegationStatus,
    subagent_type: Option<SubagentType>,
    activity: SessionActivity,
    terminal: bool,
    has_active_runtime: bool,
) -> bool {
    &&& delegation_status is Running
    &&& subagent_type == Some(SubagentType::Full)
    &&& !terminal
    &&& (!(activity is Idle) || has_active_runtime)
}

/// The ledger's subagent from what the store and the runtime say of it.
pub fn ledger_subagent(
    delegation_status: DelegationStatus,
    session_id: String,
    role: Option<String>,
    subagent_type: Option<SubagentType>,
    activity: SessionActivity,
    terminal: bool,
    has_active_runtime: bool,
    final_message: Option<String>,
) -> (r: LedgerSubagent)
    ensures
        r.session_id == session_id,
        r.role == role,
        r.subagent_type == subagent_type,
        r.activity == activity,
        r.status@ == ledger_status(delegation_status, terminal, activity),
        r.steerable == ledger_steerable(
            delegation_status,
            subagent_type,
            activity,
            terminal,
            has_active_runtime,
        ),
        r.final_message == final_message,
{
    let status = subagent_status(delegation_status, terminal, activity);
    let running = match delegation_status {
        DelegationStatus::Running => true,
        _ => false,
    };
    let writes = match subagent_type {
        Some(SubagentType::Full) => true,
        _ => false,
    };
    let idle = match activity {
        SessionActivity::Idle => true,
        _ => false,
    };
    let steerable = running && writes && !terminal && (!idle || has_active_runtime);
    LedgerSubagent {
        session_id,
        role,
        subagent_type,
        activity,
        status,
        steerable,
        final_message,
    }
}

pub open spec fn bool_text(b: bool) -> Seq<char> {
    if b {
        "true"@
    } else {
        "false"@
    }
}

/// What a ledger line says of the final message: where it is, and the outcome
/// that it states.
pub open spec fn final_message_reference(status: DelegationStatus, s: LedgerSubagent) -> Seq<char> {
    if completed(status) {
        let file = "; final_message_file: `"@ + code_text(s.session_id@) + "/final_message.md`"@;
        match stated_outcome(records::opt_view(s.final_message)) {
            Some((field, value)) => file + field + interop::quoted_text(value),
            None => file,
        }
    } else {
        Seq::empty()
    }
}

/// The field that an outcome is shown under: the one that its final message
/// spells it with.
pub open spec fn outcome_field(final_message: Seq<char>) -> Seq<char> {
    match text::last_filled_line(final_message) {
        Some(line) => if "outcome:"@.is_prefix_of(line) {
            "; outcome: "@
        } else {
            "; suggested_next: "@
        },
        None => "; suggested_next: "@,
    }
}

fn outcome_field_of(final_message: &str) -> (r: &'static str)
    ensures
        r@ == outcome_field(final_message@),
{
    if let Some(line) = last_nonempty_line(final_message) {
        if strip_prefix(line.as_str(), "outcome:").is_some() {
            return "; outcome: ";
        }
    }
    "; suggested_next: "
}

/// The outcome of a final message that was found: its field, and its bounded
/// value.
pub open spec fn stated_outcome(final_message: Option<Seq<char>>) -> Option<(Seq<char>, Seq<char>)> {
    match final_message {
        Some(message) => match bounded_outcome(text::trimmed(message)) {
            Some(value) => Some((outcome_field(text::trimmed(message)), value)),
            None => None,
        },
        None => None,
    }
}

/// One subagent's line.
pub open spec fn subagent_line(status: DelegationStatus, s: LedgerSubagent) -> Seq<char> {
    "  - subagent_id: `"@ + code_text(s.session_id@) + "`; role: "@ + optional_code(
        records::opt_view(s.role),
    ) + "; type: "@ + type_label(s.subagent_type) + "; activity: "@ + s.activity.name()
        + "; status: "@ + s.status@ + "; steerable: "@ + bool_text(s.steerable)
        + "; transcript_file: "@ + transcript_reference(status, s.session_id@)
        + final_message_reference(status, s) + "\n"@
}

fn append_subagent(out: &mut String, status: DelegationStatus, s: &LedgerSubagent)
    ensures
        final(out)@ == old(out)@ + subagent_line(status, *s),
{
    let steerable = if s.steerable {
        "true"
    } else {
        "false"
    };
    let mut line = "  - subagent_id: `".to_owned().concat(
        inline_code(s.session_id.as_str()).as_str(),
    ).concat("`; role: ").concat(optional_inline_code(opt_str(&s.role)).as_str()).concat(
        "; type: ",
    ).concat(optional_type(s.subagent_type)).concat("; activity: ").concat(
        s.activity.as_str(),
    ).concat("; status: ").concat(s.status.as_str()).concat("; steerable: ").concat(
        steerable,
    ).concat("; transcript_file: ").concat(
        optional_transcript_file(status, s.session_id.as_str()).as_str(),
    );
    let ghost head = line@;
    if final_message_relevant(status) {
        let mut reference = "; final_message_file: `".to_owned().concat(
            inline_code(s.session_id.as_str()).as_str(),
        ).concat("/final_message.md`");
        if let Some(message) = &s.final_message {
            let message = message.as_str().trim();
            if let Some(value) = bounded_suggested_next(message) {
                match quoted(value.as_str()) {
                    Ok(shown) => {
                        reference.append(outcome_field_of(message));
                        reference.append(shown.as_str());
                    },
                    Err(_) => {},
                }
            }
        }
        line.append(reference.as_str());
    } else {
        assert(head + Seq::<char>::empty() == head);
    }
    assert(line@ == head + final_message_reference(status, *s));
    line.append("\n");
    out.append(line.as_str());
}

/// A delegation as the ledger shows it.
#[derive(Debug, PartialEq, Eq)]
pub struct LedgerDelegation {
    pub delegation: Delegation,
    pub progress: DelegationProgress,
    pub subagents: Vec<LedgerSubagent>,
}

/// How many subagents are shown.
pub open spec fn shown_count(loaded: int) -> int {
    if loaded <= MAX_SUBAGENTS_PER_DELEGATION {
        loaded
    } else {
        MAX_SUBAGENTS_PER_DELEGATION as int
    }
}

/// How many subagents are left out, counting those that were spawned even where
/// they were not loaded.
pub open spec fn omitted_count(spawned: int, loaded: int) -> int {
    let shown = shown_count(loaded);
    if spawned > loaded {
        spawned - shown
    } else {
        loaded - shown
    }
}

/// The lines of the first subagents.
pub open spec fn subagent_lines(status: DelegationStatus, subagents: Seq<LedgerSubagent>) -> Seq<
    char,
>
    decreases subagents.len(),
{
    if subagents.len() == 0 {
        Seq::empty()
    } else {
        subagent_lines(status, subagents.drop_last()) + subagent_line(status, subagents.last())
    }
}

pub open spec fn omitted_line(omitted: int) -> Seq<char> {
    if omitted > 0 {
        "  - ... "@ + text::decimal(omitted)
            + " more subagent(s) omitted from compaction ledger; call `inspect_delegation`.\n"@
    } else {
        Seq::empty()
    }
}

/// The subagents' part of a delegation's entry.
pub open spec fn subagents_text(
    status: DelegationStatus,
    spawned: int,
    subagents: Seq<LedgerSubagent>,
) -> Seq<char> {
    subagent_lines(status, subagents.take(shown_count(subagents.len() as int))) + omitted_line(
        omitted_count(spawned, subagents.len() as int),
    )
}

pub fn append_subagents(
    out: &mut String,
    status: DelegationStatus,
    spawned_count: i32,
    subagents: &Vec<LedgerSubagent>,
)
    ensures
        final(out)@ == old(out)@ + subagents_text(status, spawned_count as int, subagents@),
{
    let shown: usize = if subagents.len() <= MAX_SUBAGENTS_PER_DELEGATION {
        subagents.len()
    } else {
        MAX_SUBAGENTS_PER_DELEGATION
    };
    let ghost before = out@;
    let mut i: usize = 0;
    assert(before + subagent_lines(status, subagents@.take(0)) == before);
    while i < shown
        invariant
            i <= shown <= subagents.len(),
            out@ == before + subagent_lines(status, subagents@.take(i as int)),
        decreases shown - i,
    {
        assert(subagents@.take(i + 1).drop_last() == subagents@.take(i as int));
        append_subagent(out, status, &subagents[i]);
        assert(before + (subagent_lines(status, subagents@.take(i as int)) + subagent_line(
            status,
            subagents@[i as int],
        )) == before + subagent_lines(status, subagents@.take(i as int)) + subagent_line(
            status,
            subagents@[i as int],
        ));
        i += 1;
    }
    let ghost lines = subagent_lines(status, subagents@.take(shown as int));
    let spawned: u64 = if spawned_count > 0 {
        spawned_count as u64
    } else {
        0
    };
    let loaded: u64 = subagents.len() as u64;
    let most: u64 = if spawned > loaded {
        spawned
    } else {
        loaded
    };
    let omitted: u64 = most - shown as u64;
    assert(omitted == omitted_count(spawned_count as int, subagents@.len() as int));
    if omitted > 0 {
        let line = "  - ... ".to_owned().concat(decimal_u64(omitted).as_str()).concat(
            " more subagent(s) omitted from compaction ledger; call `inspect_delegation`.\n",
        );
        out.append(line.as_str());
        assert(before + lines + omitted_line(omitted as int) == before + (lines + omitted_line(
            omitted as int,
        )));
    } else {
        assert(lines + omitted_line(omitted as int) == lines);
    }
}

/// A field that is shown where it is not empty.
pub open spec fn optional_field(prefix: Seq<char>, value: Option<Seq<char>>) -> Seq<char> {
    match value {
        Some(v) => if v.len() > 0 {
            prefix + code_text(v) + "`"@
        } else {
            Seq::empty()
        },
        None => Seq::empty(),
    }
}

fn append_optional_field(out: &mut String, prefix: &str, value: Option<&str>)
    ensures
        final(out)@ == old(out)@ + optional_field(prefix@, records::opt_str_view(value)),
{
    let ghost before = out@;
    match value {
        Some(v) => if !v.is_empty() {
            let field = prefix.to_owned().concat(inline_code(v).as_str()).concat("`");
            out.append(field.as_str());
        } else {
            assert(before + Seq::<char>::empty() == before);
        },
        None => {
            assert(before + Seq::<char>::empty() == before);
        },
    }
}

/// A delegation's own line, up to where its note begins.
pub open spec fn delegation_head(d: LedgerDelegation) -> Seq<char> {
    "\n- delegation_id: `"@ + code_text(d.delegation.id@) + "`; kind: "@ + d.delegation.kind.name()
        + "; status: "@ + d.delegation.status.name() + "; progress: expected "@ + text::decimal(
        d.progress.expected as int,
    ) + ", spawned "@ + text::decimal(d.progress.spawned as int) + ", terminal "@ + text::decimal(
        d.progress.terminal as int,
    ) + ", running "@ + text::decimal(d.progress.running as int) + ", failed "@ + text::decimal(
        d.progress.failed as int,
    )
}

/// A delegation's entry in the ledger.
pub open spec fn delegation_entry(workspace: Seq<char>, d: LedgerDelegation) -> Seq<char> {
    let handoff_dir = paths::joined(workspace, handoff::delegation_dir_of(d.delegation.id@));
    delegation_head(d) + "; compaction_note: "@ + status_note(d.delegation.status)
        + optional_field("; workflow: `"@, records::opt_view(d.delegation.workflow))
        + optional_field("; label: `"@, records::opt_view(d.delegation.label))
        + "; handoff_dir: `"@ + code_text(handoff_dir) + "`\n"@ + subagents_text(
        d.delegation.status,
        d.progress.spawned as int,
        d.subagents@,
    )
}

fn append_delegation(out: &mut String, workspace: &str, d: &LedgerDelegation)
    ensures
        final(out)@ == old(out)@ + delegation_entry(workspace@, *d),
{
    let handoff_dir = delegation_path(workspace, d.delegation.id.as_str());
    let mut entry = "\n- delegation_id: `".to_owned().concat(
        inline_code(d.delegation.id.as_str()).as_str(),
    ).concat("`; kind: ").concat(d.delegation.kind.as_str()).concat("; status: ").concat(
        d.delegation.status.as_str(),
    ).concat("; progress: expected ").concat(decimal_i64(d.progress.expected as i64).as_str()).concat(
        ", spawned ",
    ).concat(decimal_i64(d.progress.spawned as i64).as_str()).concat(", terminal ").concat(
        decimal_i64(d.progress.terminal as i64).as_str(),
    ).concat(", running ").concat(decimal_i64(d.progress.running as i64).as_str()).concat(
        ", failed ",
    ).concat(decimal_i64(d.progress.failed as i64).as_str());
    append_compaction_status_note(&mut entry, d.delegation.status);
    append_optional_field(&mut entry, "; workflow: `", opt_str(&d.delegation.workflow));
    append_optional_field(&mut entry, "; label: `", opt_str(&d.delegation.label));
    entry.append("; handoff_dir: `");
    entry.append(inline_code(handoff_dir.as_str()).as_str());
    entry.append("`\n");
    append_subagents(&mut entry, d.delegation.status, d.progress.spawned, &d.subagents);
    out.append(entry.as_str());
}

/// The entries of the delegations, one after the other.
pub open spec fn ledger_entries(workspace: Seq<char>, delegations: Seq<LedgerDelegation>) -> Seq<
    char,
>
    decreases delegations.len(),
{
    if delegations.len() == 0 {
        Seq::empty()
    } else {
        ledger_entries(workspace, delegations.drop_last()) + delegation_entry(
            workspace,
            delegations.last(),
        )
    }
}

/// The ledger of a top-level session.
pub open spec fn ledger_text(workspace: Seq<char>, delegations: Seq<LedgerDelegation>) -> Seq<char> {
    if delegations.len() == 0 {
        header_text() + "\nNo delegations existed for this parent session at compaction time."@
    } else {
        text::trimmed_end(header_text() + ledger_entries(workspace, delegations))
    }
}

/// Builds the compaction ledger of a session: none for a subagent, and every
/// delegation for a top-level session.
pub fn compaction_delegation_ledger(
    subagent_type: Option<SubagentType>,
    workspace: &str,
    delegations: &Vec<LedgerDelegation>,
) -> (r: Option<String>)
    ensures
        r is Some <==> subagent_type is None,
        r matches Some(ledger) ==> ledger@ == ledger_text(workspace@, delegations@),
{
    if subagent_type.is_some() {
        return None;
    }
    if delegations.len() == 0 {
        return Some(empty_compaction_delegation_ledger());
    }
    let mut out = ledger_header();
    let ghost head = out@;
    let mut i: usize = 0;
    assert(head + ledger_entries(workspace@, delegations@.take(0)) == head);
    while i < delegations.len()
        invariant
            i <= delegations.len(),
            out@ == head + ledger_entries(workspace@, delegations@.take(i as int)),
        decreases delegations.len() - i,
    {
        assert(delegations@.take(i + 1).drop_last() == delegations@.take(i as int));
        append_delegation(&mut out, workspace, &delegations[i]);
        let ghost done = ledger_entries(workspace@, delegations@.take(i as int));
        let ghost entry = delegation_entry(workspace@, delegations@[i as int]);
        assert(head + (done + entry) == head + done + entry);
        i += 1;
    }
    assert(delegations@.take(i as int) == delegations@);
    Some(out.as_str().trim_end().to_owned())
}

// ---------------------------------------------------------------------------
// Laws

/// The ledger is bounded: at most eight subagents of a delegation are shown,
/// and shown and omitted together are all that were spawned or loaded.
pub proof fn law_ledger_is_bounded(spawned: int, loaded: int)
    requires
        0 <= loaded,
    ensures
        0 <= shown_count(loaded) <= MAX_SUBAGENTS_PER_DELEGATION,
        omitted_count(spawned, loaded) >= 0,
        shown_count(loaded) + omitted_count(spawned, loaded) == (if spawned > loaded {
            spawned
        } else {
            loaded
        }),
{
}

/// No content of a final message enters the ledger of a delegation that did not
/// complete, and none but its outcome enters that of one that did: subagents
/// that differ in nothing else have the same line.
pub proof fn law_ledger_holds_outcomes_only(
    status: DelegationStatus,
    a: LedgerSubagent,
    b: LedgerSubagent,
)
    requires
        a.session_id@ == b.session_id@,
        records::opt_view(a.role) == records::opt_view(b.role),
        a.subagent_type == b.subagent_type,
        a.activity == b.activity,
        a.status@ == b.status@,
        a.steerable == b.steerable,
        completed(status) ==> stated_outcome(records::opt_view(a.final_message)) == stated_outcome(
            records::opt_view(b.final_message),
        ),
    ensures
        subagent_line(status, a) == subagent_line(status, b),
{
}

/// A failed delegation's ledger refers to no transcript and no final message.
pub proof fn law_failed_ledger_refers_to_nothing(s: LedgerSubagent)
    ensures
        transcript_reference(DelegationStatus::Failed, s.session_id@) == "null"@,
        final_message_reference(DelegationStatus::Failed, s) == Seq::<char>::empty(),
{
}

/// The entry of a delegation shows each count of its progress in its own place,
/// as a decimal number: what stands between `, failed ` and the compaction note
/// is the failed count, and so on for the others.
pub proof fn law_entries_show_the_counts(workspace: Seq<char>, d: LedgerDelegation)
    ensures
        ("\n- delegation_id: `"@ + code_text(d.delegation.id@) + "`; kind: "@ + (
        match d.delegation.kind {
            records::DelegationKind::Full => "full"@,
            records::DelegationKind::ReadonlyFanout => "readonly_fanout"@,
        }) + "; status: "@ + (match d.delegation.status {
            DelegationStatus::Running => "running"@,
            DelegationStatus::Done => "done"@,
            DelegationStatus::DoneWithFailures => "done_with_failures"@,
            DelegationStatus::Cancelled => "cancelled"@,
            DelegationStatus::Failed => "failed"@,
        }) + "; progress: expected "@ + text::decimal(d.progress.expected as int) + ", spawned "@
            + text::decimal(d.progress.spawned as int) + ", terminal "@ + text::decimal(
            d.progress.terminal as int,
        ) + ", running "@ + text::decimal(d.progress.running as int) + ", failed "@ + text::decimal(
            d.progress.failed as int,
        ) + "; compaction_note: "@ + (match d.delegation.status {
            DelegationStatus::Running =>
                "running at compaction time; point-in-time only; await later completion observation or inspect_delegation"@,
            DelegationStatus::Done => "completed before compaction"@,
            DelegationStatus::DoneWithFailures => "completed with failures before compaction"@,
            DelegationStatus::Cancelled => "cancelled before compaction"@,
            DelegationStatus::Failed => "failed before compaction"@,
        })).is_prefix_of(delegation_entry(workspace, d)),
{
}

/// What follows the note in the entry of a delegation: its workflow and label
/// where it has them, its handoff directory, and its subagents.
pub proof fn law_entries_end_with_the_subagents(workspace: Seq<char>, d: LedgerDelegation)
    ensures
        ((if d.delegation.workflow matches Some(w) && w@.len() > 0 {
            "; workflow: `"@ + code_text(d.delegation.workflow->0@) + "`"@
        } else {
            Seq::empty()
        }) + (if d.delegation.label matches Some(l) && l@.len() > 0 {
            "; label: `"@ + code_text(d.delegation.label->0@) + "`"@
        } else {
            Seq::empty()
        }) + "; handoff_dir: `"@ + code_text(
            paths::joined(workspace, ".pi-handoff"@ + "/"@ + d.delegation.id@),
        ) + "`\n"@ + subagents_text(
            d.delegation.status,
            d.progress.spawned as int,
            d.subagents@,
        )).is_suffix_of(delegation_entry(workspace, d)),
{
    let workflow = optional_field("; workflow: `"@, records::opt_view(d.delegation.workflow));
    let label = optional_field("; label: `"@, records::opt_view(d.delegation.label));
    let handoff_dir = code_text(
        paths::joined(workspace, handoff::delegation_dir_of(d.delegation.id@)),
    );
    let shown = subagents_text(d.delegation.status, d.progress.spawned as int, d.subagents@);
    lemma_suffix_apart(
        delegation_head(d) + "; compaction_note: "@ + status_note(d.delegation.status),
        workflow,
        label,
        "; handoff_dir: `"@,
        handoff_dir,
        "`\n"@,
        shown,
    );
}

proof fn lemma_suffix_apart(
    front: Seq<char>,
    a: Seq<char>,
    b: Seq<char>,
    c: Seq<char>,
    d: Seq<char>,
    e: Seq<char>,
    f: Seq<char>,
)
    ensures
        (a + b + c + d + e + f).is_suffix_of(front + a + b + c + d + e + f),
{
    lemma_regrouped(front, a, b);
    lemma_regrouped(front, a + b, c);
    lemma_regrouped(front, a + b + c, d);
    lemma_regrouped(front, a + b + c + d, e);
    lemma_regrouped(front, a + b + c + d + e, f);
    let tail = a + b + c + d + e + f;
    assert((front + tail).skip(front.len() as int) == tail);
}

proof fn lemma_regrouped(a: Seq<char>, b: Seq<char>, c: Seq<char>)
    ensures
        a + b + c == a + (b + c),
{
}

/// The text of five counts in a row.
spec fn counts_text(p: DelegationProgress, rest: Seq<char>) -> Seq<char> {
    text::decimal(p.expected as int) + (", spawned "@ + (text::decimal(p.spawned as int) + (
    ", terminal "@ + (text::decimal(p.terminal as int) + (", running "@ + (text::decimal(
        p.running as int,
    ) + (", failed "@ + (text::decimal(p.failed as int) + rest))))))))
}

proof fn lemma_counts_grouped(head: Seq<char>, p: DelegationProgress, rest: Seq<char>)
    ensures
        head + text::decimal(p.expected as int) + ", spawned "@ + text::decimal(p.spawned as int)
            + ", terminal "@ + text::decimal(p.terminal as int) + ", running "@ + text::decimal(
            p.running as int,
        ) + ", failed "@ + text::decimal(p.failed as int) + rest == head + counts_text(p, rest),
{
    let d1 = text::decimal(p.expected as int);
    let d2 = text::decimal(p.spawned as int);
    let d3 = text::decimal(p.terminal as int);
    let d4 = text::decimal(p.running as int);
    let d5 = text::decimal(p.failed as int);
    let p1 = head + d1;
    let p2 = p1 + ", spawned "@ + d2;
    let p3 = p2 + ", terminal "@ + d3;
    let p4 = p3 + ", running "@ + d4;
    lemma_regrouped(p4 + ", failed "@, d5, rest);
    lemma_regrouped(p4, ", failed "@, d5 + rest);
    let t4 = ", failed "@ + (d5 + rest);
    lemma_regrouped(p3 + ", running "@, d4, t4);
    lemma_regrouped(p3, ", running "@, d4 + t4);
    let t3 = ", running "@ + (d4 + t4);
    lemma_regrouped(p2 + ", terminal "@, d3, t3);
    lemma_regrouped(p2, ", terminal "@, d3 + t3);
    let t2 = ", terminal "@ + (d3 + t3);
    lemma_regrouped(p1 + ", spawned "@, d2, t2);
    lemma_regrouped(p1, ", spawned "@, d2 + t2);
    lemma_regrouped(head, d1, ", spawned "@ + (d2 + t2));
}

proof fn lemma_next_count(m: int, x: Seq<char>, n: int, y: Seq<char>, mark: Seq<char>)
    requires
        mark.len() > 0 && mark[0] == ',',
        text::decimal(m) + (mark + x) == text::decimal(n) + (mark + y),
    ensures
        m == n,
        x == y,
{
    text::law_decimals_end_where_digits_end(m, mark + x, n, mark + y);
    assert(x == (mark + x).skip(mark.len() as int));
    assert(y == (mark + y).skip(mark.len() as int));
}

proof fn lemma_counts_read_back(
    a: DelegationProgress,
    x: Seq<char>,
    b: DelegationProgress,
    y: Seq<char>,
)
    requires
        x.len() > 0 && x[0] == ';',
        y.len() > 0 && y[0] == ';',
        counts_text(a, x) == counts_text(b, y),
    ensures
        a == b,
{
    reveal_strlit(", spawned ");
    reveal_strlit(", terminal ");
    reveal_strlit(", running ");
    reveal_strlit(", failed ");
    let a5 = text::decimal(a.failed as int) + x;
    let b5 = text::decimal(b.failed as int) + y;
    let a4 = text::decimal(a.running as int) + (", failed "@ + a5);
    let b4 = text::decimal(b.running as int) + (", failed "@ + b5);
    let a3 = text::decimal(a.terminal as int) + (", running "@ + a4);
    let b3 = text::decimal(b.terminal as int) + (", running "@ + b4);
    let a2 = text::decimal(a.spawned as int) + (", terminal "@ + a3);
    let b2 = text::decimal(b.spawned as int) + (", terminal "@ + b3);
    lemma_next_count(a.expected as int, a2, b.expected as int, b2, ", spawned "@);
    lemma_next_count(a.spawned as int, a3, b.spawned as int, b3, ", terminal "@);
    lemma_next_count(a.terminal as int, a4, b.terminal as int, b4, ", running "@);
    lemma_next_count(a.running as int, a5, b.running as int, b5, ", failed "@);
    text::law_decimals_end_where_digits_end(a.failed as int, x, b.failed as int, y);
}

proof fn lemma_same_tail(front: Seq<char>, x: Seq<char>, y: Seq<char>)
    requires
        front + x == front + y,
    ensures
        x == y,
{
    assert(x == (front + x).skip(front.len() as int));
    assert(y == (front + y).skip(front.len() as int));
}

proof fn lemma_front_apart(
    front: Seq<char>,
    a: Seq<char>,
    b: Seq<char>,
    c: Seq<char>,
    d: Seq<char>,
    e: Seq<char>,
    f: Seq<char>,
    g: Seq<char>,
    h: Seq<char>,
)
    requires
        a.len() > 0,
    ensures
        front + a + b + c + d + e + f + g + h == front + (a + b + c + d + e + f + g + h),
        (a + b + c + d + e + f + g + h).len() > 0,
        (a + b + c + d + e + f + g + h)[0] == a[0],
{
    lemma_regrouped(front, a, b);
    lemma_regrouped(front, a + b, c);
    lemma_regrouped(front, a + b + c, d);
    lemma_regrouped(front, a + b + c + d, e);
    lemma_regrouped(front, a + b + c + d + e, f);
    lemma_regrouped(front, a + b + c + d + e + f, g);
    lemma_regrouped(front, a + b + c + d + e + f + g, h);
}

/// An entry is its head and something that starts where the note does.
proof fn lemma_entry_after_head(workspace: Seq<char>, d: LedgerDelegation) -> (rest: Seq<char>)
    ensures
        delegation_entry(workspace, d) == delegation_head(d) + rest,
        rest.len() > 0 && rest[0] == ';',
{
    reveal_strlit("; compaction_note: ");
    let handoff_dir = paths::joined(workspace, handoff::delegation_dir_of(d.delegation.id@));
    let note = status_note(d.delegation.status);
    let workflow = optional_field("; workflow: `"@, records::opt_view(d.delegation.workflow));
    let label = optional_field("; label: `"@, records::opt_view(d.delegation.label));
    let shown = subagents_text(d.delegation.status, d.progress.spawned as int, d.subagents@);
    lemma_front_apart(
        delegation_head(d),
        "; compaction_note: "@,
        note,
        workflow,
        label,
        "; handoff_dir: `"@,
        code_text(handoff_dir),
        "`\n"@,
        shown,
    );
    "; compaction_note: "@ + note + workflow + label + "; handoff_dir: `"@ + code_text(handoff_dir)
        + "`\n"@ + shown
}

/// A head is what stands before its counts, and the counts.
proof fn lemma_head_after_counts(d: LedgerDelegation, rest: Seq<char>)
    ensures
        delegation_head(d) + rest == before_counts(d.delegation) + counts_text(d.progress, rest),
{
    lemma_counts_grouped(before_counts(d.delegation), d.progress, rest);
}

/// What stands before the counts of a delegation.
spec fn before_counts(delegation: Delegation) -> Seq<char> {
    "\n- delegation_id: `"@ + code_text(delegation.id@) + "`; kind: "@ + delegation.kind.name()
        + "; status: "@ + delegation.status.name() + "; progress: expected "@
}

/// The counts can be read back from an entry: entries of one delegation at one
/// status are alike only where the expected, spawned, terminal, running and
/// failed counts are. So two that differ in one count alone differ.
pub proof fn law_entries_tell_counts_apart(
    workspace: Seq<char>,
    a: LedgerDelegation,
    b: LedgerDelegation,
)
    requires
        a.delegation.id@ == b.delegation.id@,
        a.delegation.kind == b.delegation.kind,
        a.delegation.status == b.delegation.status,
        delegation_entry(workspace, a) == delegation_entry(workspace, b),
    ensures
        a.progress == b.progress,
{
    let x = lemma_entry_after_head(workspace, a);
    let y = lemma_entry_after_head(workspace, b);
    lemma_head_after_counts(a, x);
    lemma_head_after_counts(b, y);
    let head = before_counts(a.delegation);
    assert(before_counts(b.delegation) == head);
    let p = counts_text(a.progress, x);
    let q = counts_text(b.progress, y);
    assert(head + p == head + q);
    lemma_same_tail(head, p, q);
    lemma_counts_read_back(a.progress, x, b.progress, y);
}

/// The ledger holds the entry of every delegation, in their order, and an entry
/// the line of every subagent that is shown.
pub proof fn law_ledger_lists_in_order(
    workspace: Seq<char>,
    delegations: Seq<LedgerDelegation>,
    d: LedgerDelegation,
    status: DelegationStatus,
    subagents: Seq<LedgerSubagent>,
    s: LedgerSubagent,
)
    ensures
        ledger_entries(workspace, Seq::empty()).len() == 0,
        ledger_entries(workspace, delegations.push(d)) == ledger_entries(workspace, delegations)
            + delegation_entry(workspace, d),
        subagent_lines(status, Seq::empty()).len() == 0,
        subagent_lines(status, subagents.push(s)) == subagent_lines(status, subagents)
            + subagent_line(status, s),
{
    assert(delegations.push(d).drop_last() == delegations);
    assert(subagents.push(s).drop_last() == subagents);
}

/// Up to eight subagents are all shown, and of more the first eight; a closing
/// line tells how many of those that were spawned or loaded are left out, where
/// any are.
pub proof fn law_first_eight_are_shown(
    status: DelegationStatus,
    spawned: int,
    subagents: Seq<LedgerSubagent>,
)
    ensures
        ({
            let shown = if subagents.len() <= 8 {
                subagents.len() as int
            } else {
                8
            };
            let most = if spawned > subagents.len() {
                spawned
            } else {
                subagents.len() as int
            };
            subagents_text(status, spawned, subagents) == subagent_lines(
                status,
                subagents.take(shown),
            ) + (if most > shown {
                "  - ... "@ + text::decimal(most - shown)
                    + " more subagent(s) omitted from compaction ledger; call `inspect_delegation`.\n"@
            } else {
                Seq::empty()
            })
        }),
{
}

/// What the line of a subagent says: who it is, what it may do, what it is
/// doing, where it stands, whether it can be steered, and where its transcript
/// is: none for a failed delegation, the kept one for a cancelled one.
pub proof fn law_lines_tell_the_subagent(status: DelegationStatus, s: LedgerSubagent)
    ensures
        ("  - subagent_id: `"@ + code_text(s.session_id@) + "`; role: "@ + (match s.role {
            Some(role) => if role@.len() > 0 {
                "`"@ + code_text(role@) + "`"@
            } else {
                "null"@
            },
            None => "null"@,
        }) + "; type: "@ + (match s.subagent_type {
            Some(SubagentType::Full) => "full"@,
            Some(SubagentType::ReadOnly) => "read_only"@,
            None => "unknown"@,
        }) + "; activity: "@ + (match s.activity {
            SessionActivity::Idle => "idle"@,
            SessionActivity::Queued => "queued"@,
            SessionActivity::Running => "running"@,
        }) + "; status: "@ + s.status@ + "; steerable: "@ + (if s.steerable {
            "true"@
        } else {
            "false"@
        }) + "; transcript_file: "@ + (match status {
            DelegationStatus::Failed => "null"@,
            DelegationStatus::Cancelled => "`"@ + code_text(
                "cancelled/"@ + s.session_id@ + ".transcript.md"@,
            ) + "`"@,
            _ => "`"@ + code_text(s.session_id@ + "/transcript.md"@) + "`"@,
        })).is_prefix_of(subagent_line(status, s)),
        !(status is Done || status is DoneWithFailures) ==> final_message_reference(status, s).len()
            == 0,
{
}

/// The line of a subagent of a completed delegation ends with where its final
/// message is, and with the outcome that the message states, cut after its
/// first hundred and twenty characters, under the name that the message gives
/// it.
pub proof fn law_lines_tell_the_outcome(
    status: DelegationStatus,
    s: LedgerSubagent,
    message: Seq<char>,
    value: Seq<char>,
)
    requires
        status is Done || status is DoneWithFailures,
    ensures
        ({
            let file = "; final_message_file: `"@ + code_text(s.session_id@)
                + "/final_message.md`"@;
            let stated = s.final_message matches Some(m) && text::trimmed(m@) == message;
            let shown = if value.len() > 120 {
                value.take(120).push('\u{2026}')
            } else {
                value
            };
            &&& s.final_message is None ==> final_message_reference(status, s) == file
            &&& stated && handoff::outcome_of(message) is None ==> final_message_reference(
                status,
                s,
            ) == file
            &&& stated && handoff::outcome_of(message) == Some(value) ==> final_message_reference(
                status,
                s,
            ) == file + (if text::last_filled_line(message) is Some && "outcome:"@.is_prefix_of(
                text::last_filled_line(message)->0,
            ) {
                "; outcome: "@
            } else {
                "; suggested_next: "@
            }) + interop::quoted_text(shown)
        }),
{
}

/// The status that the ledger shows: terminal for a subagent that is, unless its
/// delegation was cancelled or failed; else what the session does while the
/// delegation runs, and the delegation's own status afterwards.
pub proof fn law_ledger_statuses(
    status: DelegationStatus,
    terminal: bool,
    activity: SessionActivity,
)
    ensures
        ({
            let shown = ledger_status(status, terminal, activity);
            &&& status is Cancelled ==> shown == "cancelled"@
            &&& status is Failed ==> shown == "failed"@
            &&& !(status is Cancelled || status is Failed) && terminal ==> shown == "terminal"@
            &&& !terminal && status is Done ==> shown == "done"@
            &&& !terminal && status is DoneWithFailures ==> shown == "done_with_failures"@
            &&& !terminal && status is Running && activity is Idle ==> shown == "idle"@
            &&& !terminal && status is Running && activity is Queued ==> shown == "queued"@
            &&& !terminal && status is Running && activity is Running ==> shown == "running"@
        }),
{
}

/// Exactly the writing subagents of a running delegation that are not terminal
/// and are at work, by their activity or by a live runtime, are offered for
/// steering.
pub proof fn law_ledger_steers_writers_at_work(
    status: DelegationStatus,
    subagent_type: Option<SubagentType>,
    activity: SessionActivity,
    terminal: bool,
    has_active_runtime: bool,
)
    ensures
        ({
            let offered = ledger_steerable(
                status,
                subagent_type,
                activity,
                terminal,
                has_active_runtime,
            );
            &&& terminal || !(status is Running) ==> !offered
            &&& !(subagent_type == Some(SubagentType::Full)) ==> !offered
            &&& activity is Idle && !has_active_runtime ==> !offered
            &&& status is Running && subagent_type == Some(SubagentType::Full) && !terminal && (
            activity is Queued || activity is Running || has_active_runtime) ==> offered
        }),
{
}

/// Inline code is rendered character by character: a back-tick, a line feed and
/// a carriage return are escaped, and every other character stands as it is.
pub proof fn law_inline_code_is_piecewise(value: Seq<char>, c: char)
    ensures
        code_text(Seq::empty()).len() == 0,
        code_text(value.push(c)) == code_text(value) + (if c == '`' {
            seq!['\\', '`']
        } else if c == '\n' {
            seq!['\\', 'n']
        } else if c == '\r' {
            seq!['\\', 'r']
        } else {
            seq![c]
        }),
{
    assert(value.push(c).drop_last() == value);
}

/// A text that fits its bound is kept whole; of a longer one the first
/// characters are kept, as many as the bound, and an ellipsis follows.
pub proof fn law_truncation_keeps_the_front(value: Seq<char>, max_chars: int)
    requires
        0 <= max_chars,
    ensures
        value.len() <= max_chars ==> truncated(value, max_chars) == value,
        value.len() > max_chars ==> {
            &&& truncated(value, max_chars).len() == max_chars + 1
            &&& truncated(value, max_chars).last() == '\u{2026}'
            &&& forall|i: int|
                0 <= i < max_chars ==> #[trigger] truncated(value, max_chars)[i] == value[i]
        },
{
}

/// A ledger is its header and its entries, without the white space at the end;
/// a session without delegations is told so.
pub proof fn law_ledger_is_header_and_entries(
    workspace: Seq<char>,
    delegations: Seq<LedgerDelegation>,
)
    ensures
        delegations.len() == 0 ==> ledger_text(workspace, delegations) == header_text()
            + "\nNo delegations existed for this parent session at compaction time."@,
        delegations.len() > 0 ==> ledger_text(workspace, delegations) == text::trimmed_end(
            header_text() + ledger_entries(workspace, delegations),
        ),
{
}

/// A line holds nothing between its transcript and what it says of the final
/// message, and nothing after that but the end of the line; an entry holds
/// nothing between its note and what follows it.
pub proof fn law_entries_hold_nothing_else(
    workspace: Seq<char>,
    d: LedgerDelegation,
    status: DelegationStatus,
    s: LedgerSubagent,
)
    ensures
        subagent_line(status, s).len() == ("  - subagent_id: `"@ + code_text(s.session_id@)
            + "`; role: "@ + optional_code(records::opt_view(s.role)) + "; type: "@ + type_label(
            s.subagent_type,
        ) + "; activity: "@ + s.activity.name() + "; status: "@ + s.status@ + "; steerable: "@
            + bool_text(s.steerable) + "; transcript_file: "@ + transcript_reference(
            status,
            s.session_id@,
        )).len() + final_message_reference(status, s).len() + 1,
        subagent_line(status, s).last() == '\n',
        delegation_entry(workspace, d).len() == delegation_head(d).len() + "; compaction_note: "@.len()
            + status_note(d.delegation.status).len() + optional_field(
            "; workflow: `"@,
            records::opt_view(d.delegation.workflow),
        ).len() + optional_field("; label: `"@, records::opt_view(d.delegation.label)).len()
            + "; handoff_dir: `"@.len() + code_text(
            paths::joined(workspace, handoff::delegation_dir_of(d.delegation.id@)),
        ).len() + "`\n"@.len() + subagents_text(
            d.delegation.status,
            d.progress.spawned as int,
            d.subagents@,
        ).len(),
{
    reveal_strlit("\n");
}

} // verus!
