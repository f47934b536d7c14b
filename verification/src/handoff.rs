//! The delegation handoff directory.
//!
//! For every subagent of a delegation the daemon renders files from the durable
//! transcript under `<workspace>/.pi-handoff/<delegation_id>/`: the final
//! message, an exhaustive transcript and, where there is one, the task prompt.
//! This module decides what those files hold, where they stand, and which of
//! them are published at which status.
use vstd::prelude::*;

use crate::delegation_tools::SubagentWorkState;
use crate::interop::{self, parse_value, pretty_value};
use crate::paths::{self, is_plain_name, join};
use crate::records::{self, opt_str, Delegation, DelegationStatus, DelegationSubagent};
use crate::text::{self, last_nonempty_line, same, strip_prefix};
use crate::transcript::{
    AssistantMessage, ContentBlock, HistoryTree, ToolResultStatus, TranscriptEntry, TranscriptItem,
    TurnOutcome, UserMessage,
};
use crate::types::RpcError;

verus! {

pub const HANDOFF_DIR: &'static str = ".pi-handoff";

pub const TASK_PROMPT_FILE: &'static str = "task_prompt.md";

// ---------------------------------------------------------------------------
// What a transcript says of its session

/// The handoff status of a turn outcome.
pub open spec fn outcome_status(outcome: TurnOutcome) -> Seq<char> {
    match outcome {
        TurnOutcome::Graceful => "done"@,
        TurnOutcome::Interrupted | TurnOutcome::Crashed => "failed"@,
    }
}

/// The per-subagent handoff status of a terminal turn: a graceful turn is
/// `done`, an interrupted or crashed one is `failed`.
pub fn subagent_status(outcome: TurnOutcome) -> (r: &'static str)
    ensures
        r@ == outcome_status(outcome),
{
    match outcome {
        TurnOutcome::Graceful => "done",
        TurnOutcome::Interrupted | TurnOutcome::Crashed => "failed",
    }
}

/// The outcome of the last finished turn among the entries; crashed where no
/// turn finished.
pub open spec fn last_turn_outcome(entries: Seq<TranscriptEntry>) -> TurnOutcome
    decreases entries.len(),
{
    if entries.len() == 0 {
        TurnOutcome::Crashed
    } else {
        match entries.last().item {
            TranscriptItem::TurnFinished { outcome, .. } => outcome,
            _ => last_turn_outcome(entries.drop_last()),
        }
    }
}

/// The terminal outcome of a subagent, read from its durable transcript.
pub fn subagent_outcome(history: &HistoryTree) -> (r: TurnOutcome)
    ensures
        r == last_turn_outcome(history.entries@),
{
    let mut i: usize = history.entries.len();
    assert(history.entries@.take(i as int) == history.entries@);
    while i > 0
        invariant
            i <= history.entries.len(),
            last_turn_outcome(history.entries@) == last_turn_outcome(
                history.entries@.take(i as int),
            ),
        decreases i,
    {
        i -= 1;
        assert(history.entries@.take(i + 1).drop_last() == history.entries@.take(i as int));
        match &history.entries[i].item {
            TranscriptItem::TurnFinished { outcome, .. } => {
                return *outcome;
            },
            _ => {},
        }
    }
    TurnOutcome::Crashed
}

/// The item of the last entry with this id.
pub open spec fn item_with_id(entries: Seq<TranscriptEntry>, id: Seq<char>) -> Option<TranscriptItem>
    decreases entries.len(),
{
    if entries.len() == 0 {
        None
    } else if entries.last().id@ == id {
        Some(entries.last().item)
    } else {
        item_with_id(entries.drop_last(), id)
    }
}

fn find_item<'a>(entries: &'a Vec<TranscriptEntry>, id: &str) -> (r: Option<&'a TranscriptItem>)
    ensures
        r is Some <==> item_with_id(entries@, id@) is Some,
        r matches Some(item) ==> item_with_id(entries@, id@) == Some(*item),
{
    let mut i: usize = entries.len();
    assert(entries@.take(i as int) == entries@);
    while i > 0
        invariant
            i <= entries.len(),
            item_with_id(entries@, id@) == item_with_id(entries@.take(i as int), id@),
        decreases i,
    {
        i -= 1;
        assert(entries@.take(i + 1).drop_last() == entries@.take(i as int));
        if same(entries[i].id.as_str(), id) {
            return Some(&entries[i].item);
        }
    }
    None
}

/// The terminal status of an active branch: `done` for an empty branch and for
/// one that ends in a compaction summary, the turn's own status for one that
/// ends in a finished turn, and none for any other.
pub open spec fn branch_status(history: HistoryTree) -> Option<Seq<char>> {
    match history.active_leaf_id {
        None => Some("done"@),
        Some(leaf) => match item_with_id(history.entries@, leaf@) {
            Some(TranscriptItem::TurnFinished { outcome, .. }) => Some(outcome_status(outcome)),
            Some(TranscriptItem::CompactionSummary { .. }) => Some("done"@),
            _ => None,
        },
    }
}

/// The compact terminal status of a subagent's active branch.
pub fn terminal_subagent_status(history: &HistoryTree) -> (r: Option<&'static str>)
    ensures
        records::opt_str_view(r) == branch_status(*history),
{
    match &history.active_leaf_id {
        None => Some("done"),
        Some(leaf) => match find_item(&history.entries, leaf.as_str()) {
            Some(TranscriptItem::TurnFinished { outcome, .. }) => Some(subagent_status(*outcome)),
            Some(TranscriptItem::CompactionSummary { .. }) => Some("done"),
            _ => None,
        },
    }
}

/// An active branch is at a durable turn boundary.
pub open spec fn at_turn_boundary(history: HistoryTree) -> bool {
    match history.active_leaf_id {
        None => true,
        Some(leaf) => match item_with_id(history.entries@, leaf@) {
            Some(item) => item is TurnFinished || item is CompactionSummary,
            None => false,
        },
    }
}

/// Whether the active branch is at a durable turn boundary.
pub fn active_branch_is_terminal(history: &HistoryTree) -> (r: bool)
    ensures
        r == at_turn_boundary(*history),
{
    match &history.active_leaf_id {
        None => true,
        Some(leaf) => match find_item(&history.entries, leaf.as_str()) {
            Some(TranscriptItem::TurnFinished { .. }) => true,
            Some(TranscriptItem::CompactionSummary { .. }) => true,
            _ => false,
        },
    }
}

/// A branch has a terminal status exactly when it is at a turn boundary.
pub proof fn law_terminal_status_at_boundary(history: HistoryTree)
    ensures
        branch_status(history) is Some <==> at_turn_boundary(history),
{
}

/// The entry that an id names is the last one that carries it.
proof fn lemma_item_at(entries: Seq<TranscriptEntry>, id: Seq<char>, i: int)
    requires
        0 <= i < entries.len(),
        entries[i].id@ == id,
        forall|j: int| i < j < entries.len() ==> (#[trigger] entries[j]).id@ != id,
    ensures
        item_with_id(entries, id) == Some(entries[i].item),
    decreases entries.len(),
{
    if i < entries.len() - 1 {
        lemma_item_at(entries.drop_last(), id, i);
    }
}

/// An id that no entry carries names nothing.
proof fn lemma_no_item(entries: Seq<TranscriptEntry>, id: Seq<char>)
    requires
        forall|j: int| 0 <= j < entries.len() ==> (#[trigger] entries[j]).id@ != id,
    ensures
        item_with_id(entries, id) is None,
    decreases entries.len(),
{
    if entries.len() > 0 {
        lemma_no_item(entries.drop_last(), id);
    }
}

/// The terminal status of a branch is that of the entry it ends in, and of that
/// entry alone: a finished turn failed exactly when it was interrupted or
/// crashed, and is done exactly when it ended gracefully; a compaction summary
/// is done; any other entry is no end at all. What the other entries hold does
/// not matter.
pub proof fn law_status_is_that_of_the_leaf(history: HistoryTree, i: int)
    requires
        0 <= i < history.entries@.len(),
        history.active_leaf_id matches Some(leaf) && leaf@ == history.entries@[i].id@,
        forall|j: int|
            i < j < history.entries@.len() ==> (#[trigger] history.entries@[j]).id@
                != history.entries@[i].id@,
    ensures
        match history.entries@[i].item {
            TranscriptItem::TurnFinished { outcome, .. } => {
                &&& branch_status(history) == Some("failed"@) <==> (outcome is Interrupted
                    || outcome is Crashed)
                &&& branch_status(history) == Some("done"@) <==> outcome is Graceful
                &&& at_turn_boundary(history)
            },
            TranscriptItem::CompactionSummary { .. } => {
                &&& branch_status(history) == Some("done"@)
                &&& at_turn_boundary(history)
            },
            _ => branch_status(history) is None && !at_turn_boundary(history),
        },
{
    lemma_item_at(history.entries@, history.active_leaf_id->0@, i);
    reveal_strlit("done");
    reveal_strlit("failed");
    assert("done"@.len() == 4);
    assert("failed"@.len() == 6);
}

/// A branch without a leaf is done, and a leaf that no entry carries is no end.
pub proof fn law_status_without_a_leaf_entry(history: HistoryTree)
    ensures
        history.active_leaf_id is None ==> branch_status(history) == Some("done"@)
            && at_turn_boundary(history),
        (history.active_leaf_id matches Some(leaf) && forall|j: int|
            0 <= j < history.entries@.len() ==> (#[trigger] history.entries@[j]).id@ != leaf@)
            ==> branch_status(history) is None && !at_turn_boundary(history),
{
    if history.active_leaf_id is Some {
        let leaf = history.active_leaf_id->0@;
        if forall|j: int|
            0 <= j < history.entries@.len() ==> (#[trigger] history.entries@[j]).id@ != leaf {
            lemma_no_item(history.entries@, leaf);
        }
    }
}

/// Two histories that end in the same item have the same terminal status,
/// whatever else they hold.
pub proof fn law_same_leaf_same_status(a: HistoryTree, i: int, b: HistoryTree, j: int)
    requires
        0 <= i < a.entries@.len(),
        a.active_leaf_id matches Some(leaf) && leaf@ == a.entries@[i].id@,
        forall|k: int|
            i < k < a.entries@.len() ==> (#[trigger] a.entries@[k]).id@ != a.entries@[i].id@,
        0 <= j < b.entries@.len(),
        b.active_leaf_id matches Some(leaf) && leaf@ == b.entries@[j].id@,
        forall|k: int|
            j < k < b.entries@.len() ==> (#[trigger] b.entries@[k]).id@ != b.entries@[j].id@,
        a.entries@[i].item == b.entries@[j].item,
    ensures
        branch_status(a) == branch_status(b),
{
    lemma_item_at(a.entries@, a.active_leaf_id->0@, i);
    lemma_item_at(b.entries@, b.active_leaf_id->0@, j);
}

/// The outcome of a subagent is that of its last finished turn, wherever that
/// stands; one that never finished a turn crashed.
pub proof fn law_last_finished_turn_decides(entries: Seq<TranscriptEntry>, i: int)
    ensures
        0 <= i < entries.len() && entries[i].item is TurnFinished && (forall|j: int|
            i < j < entries.len() ==> !((#[trigger] entries[j]).item is TurnFinished))
            ==> last_turn_outcome(entries) == entries[i].item->TurnFinished_outcome,
        (forall|j: int|
            0 <= j < entries.len() ==> !((#[trigger] entries[j]).item is TurnFinished))
            ==> last_turn_outcome(entries) is Crashed,
    decreases entries.len(),
{
    if entries.len() > 0 && !(entries.last().item is TurnFinished) {
        law_last_finished_turn_decides(entries.drop_last(), i);
        assert(entries[entries.len() - 1] == entries.last());
    }
}

/// A turn is reported as failed exactly when it was interrupted or crashed, and
/// as done exactly when it ended gracefully.
pub proof fn law_turn_statuses(outcome: TurnOutcome)
    ensures
        outcome_status(outcome) == "failed"@ <==> outcome is Interrupted || outcome is Crashed,
        outcome_status(outcome) == "done"@ <==> outcome is Graceful,
{
    reveal_strlit("done");
    reveal_strlit("failed");
    assert("done"@.len() == 4);
    assert("failed"@.len() == 6);
}

// ---------------------------------------------------------------------------
// Rendering

pub open spec fn block_text(block: ContentBlock) -> Seq<char> {
    match block {
        ContentBlock::Text { text } => text@,
        ContentBlock::Image => "[image]"@,
    }
}

/// The blocks' texts, one per line.
pub open spec fn blocks_text(blocks: Seq<ContentBlock>) -> Seq<char>
    decreases blocks.len(),
{
    if blocks.len() == 0 {
        Seq::empty()
    } else if blocks.len() == 1 {
        block_text(blocks[0])
    } else {
        blocks_text(blocks.drop_last()) + "\n"@ + block_text(blocks.last())
    }
}

/// The text of a user message, with a placeholder for each image.
pub fn user_message_text(message: &UserMessage) -> (r: String)
    ensures
        r@ == blocks_text(message.content@),
{
    let mut out = String::new();
    let mut i: usize = 0;
    while i < message.content.len()
        invariant
            i <= message.content.len(),
            out@ == blocks_text(message.content@.take(i as int)),
        decreases message.content.len() - i,
    {
        let ghost head = message.content@.take(i + 1);
        assert(head.drop_last() == message.content@.take(i as int));
        if i > 0 {
            out.append("\n");
        }
        match &message.content[i] {
            ContentBlock::Text { text } => out.append(text.as_str()),
            ContentBlock::Image => out.append("[image]"),
        }
        assert(i == 0 ==> Seq::<char>::empty() + block_text(head[0]) == block_text(head[0]));
        i += 1;
    }
    assert(message.content@.take(i as int) == message.content@);
    out
}

/// A fenced block: the body without trailing white space, between fences.
pub open spec fn fenced_text(language: Seq<char>, body: Seq<char>) -> Seq<char> {
    "```"@ + language + "\n"@ + text::trimmed_end(body) + "\n```"@
}

pub fn fenced(language: &str, body: &str) -> (r: String)
    ensures
        r@ == fenced_text(language@, body@),
{
    "```".to_owned().concat(language).concat("\n").concat(body.trim_end()).concat("\n```")
}

pub open spec fn status_label(status: ToolResultStatus) -> Seq<char> {
    match status {
        ToolResultStatus::Success => "success"@,
        ToolResultStatus::Error => "error"@,
        ToolResultStatus::Interrupted => "interrupted"@,
        ToolResultStatus::Crashed => "crashed"@,
    }
}

pub fn tool_status_label(status: &ToolResultStatus) -> (r: &'static str)
    ensures
        r@ == status_label(*status),
{
    match status {
        ToolResultStatus::Success => "success",
        ToolResultStatus::Error => "error",
        ToolResultStatus::Interrupted => "interrupted",
        ToolResultStatus::Crashed => "crashed",
    }
}

/// Arguments as they are shown: indented where they are JSON, else as they are.
pub open spec fn shown_args(args_json: Seq<char>) -> Seq<char> {
    match interop::parsed_json(args_json) {
        Ok(value) => interop::pretty_text(value),
        Err(_) => args_json,
    }
}

fn show_args(args_json: &String) -> (r: String)
    ensures
        r@ == shown_args(args_json@),
{
    match parse_value(args_json.as_str()) {
        Ok(value) => pretty_value(&value),
        Err(_) => args_json.clone(),
    }
}

/// A section under a heading, left out where it would be empty.
pub open spec fn section(heading: Seq<char>, body: Seq<char>) -> Seq<char> {
    if text::trimmed(body).len() == 0 {
        Seq::empty()
    } else {
        heading + text::trimmed(body) + "\n\n"@
    }
}

/// The markdown of one transcript item. A tool call is shown where it started,
/// and not again in the message that made it.
pub open spec fn item_markdown(item: TranscriptItem) -> Seq<char> {
    match item {
        TranscriptItem::UserMessage(message) => section(
            "## User\n\n"@,
            blocks_text(message.content@),
        ),
        TranscriptItem::AssistantMessage(message) => section("## Assistant\n\n"@, message.text@),
        TranscriptItem::ToolCallStarted { tool_call, .. } => "### Tool call: "@
            + tool_call.tool_name@ + "\n\n"@ + fenced_text("json"@, shown_args(tool_call.args_json@))
            + "\n\n"@,
        TranscriptItem::ToolResult(result) => "### Tool result: "@ + result.tool_name@ + " ["@
            + status_label(result.status) + "]\n\n"@ + fenced_text(""@, result.output@) + "\n\n"@,
        TranscriptItem::CompactionSummary { summary } => "## Compaction summary\n\n"@
            + text::trimmed(summary@) + "\n\n"@,
        TranscriptItem::DaemonToolObservation { rendered } => "## Daemon observation\n\n"@
            + text::trimmed(
            match rendered {
                Some(t) => t@,
                None => "Daemon observation could not be rendered."@,
            },
        ) + "\n\n"@,
        TranscriptItem::TurnStarted { .. } | TranscriptItem::TurnFinished { .. } => Seq::empty(),
    }
}

/// The markdown of a list of entries, in order.
pub open spec fn transcript_markdown(entries: Seq<TranscriptEntry>) -> Seq<char>
    decreases entries.len(),
{
    if entries.len() == 0 {
        Seq::empty()
    } else {
        transcript_markdown(entries.drop_last()) + item_markdown(entries.last().item)
    }
}

fn append_section(out: &mut String, heading: &str, body: &str)
    ensures
        final(out)@ == old(out)@ + section(heading@, body@),
{
    let kept = body.trim();
    if !kept.is_empty() {
        out.append(heading.to_owned().concat(kept).concat("\n\n").as_str());
    } else {
        assert(out@ + Seq::<char>::empty() == out@);
    }
}

fn render_item(out: &mut String, item: &TranscriptItem)
    ensures
        final(out)@ == old(out)@ + item_markdown(*item),
{
    match item {
        TranscriptItem::UserMessage(message) => append_section(
            out,
            "## User\n\n",
            user_message_text(message).as_str(),
        ),
        TranscriptItem::AssistantMessage(message) => append_section(
            out,
            "## Assistant\n\n",
            message.text.as_str(),
        ),
        TranscriptItem::ToolCallStarted { tool_call, .. } => {
            let args = show_args(&tool_call.args_json);
            let shown = "### Tool call: ".to_owned().concat(tool_call.tool_name.as_str()).concat(
                "\n\n",
            ).concat(fenced("json", args.as_str()).as_str()).concat("\n\n");
            out.append(shown.as_str());
        },
        TranscriptItem::ToolResult(result) => {
            let shown = "### Tool result: ".to_owned().concat(result.tool_name.as_str()).concat(
                " [",
            ).concat(tool_status_label(&result.status)).concat("]\n\n").concat(
                fenced("", result.output.as_str()).as_str(),
            ).concat("\n\n");
            out.append(shown.as_str());
        },
        TranscriptItem::CompactionSummary { summary } => {
            let shown = "## Compaction summary\n\n".to_owned().concat(summary.as_str().trim()).concat(
                "\n\n",
            );
            out.append(shown.as_str());
        },
        TranscriptItem::DaemonToolObservation { rendered } => {
            let body = match rendered {
                Some(t) => t.as_str(),
                None => "Daemon observation could not be rendered.",
            };
            let shown = "## Daemon observation\n\n".to_owned().concat(body.trim()).concat("\n\n");
            out.append(shown.as_str());
        },
        TranscriptItem::TurnStarted { .. } | TranscriptItem::TurnFinished { .. } => {
            assert(out@ + Seq::<char>::empty() == out@);
        },
    }
}

/// Renders a subagent's full active branch to exhaustive, greppable markdown.
/// Nothing is truncated.
pub fn render_transcript_markdown(history: &HistoryTree) -> (r: String)
    ensures
        r@ == transcript_markdown(history.entries@),
{
    let mut out = String::new();
    let mut i: usize = 0;
    while i < history.entries.len()
        invariant
            i <= history.entries.len(),
            out@ == transcript_markdown(history.entries@.take(i as int)),
        decreases history.entries.len() - i,
    {
        assert(history.entries@.take(i + 1).drop_last() == history.entries@.take(i as int));
        render_item(&mut out, &history.entries[i].item);
        i += 1;
    }
    assert(history.entries@.take(i as int) == history.entries@);
    out
}

/// Rendering two stretches of a transcript one after the other gives the
/// rendering of the whole.
pub proof fn law_rendering_is_piecewise(first: Seq<TranscriptEntry>, second: Seq<TranscriptEntry>)
    ensures
        transcript_markdown(first + second) == transcript_markdown(first) + transcript_markdown(
            second,
        ),
    decreases second.len(),
{
    if second.len() == 0 {
        assert(first + second == first);
        assert(transcript_markdown(first) + transcript_markdown(second) == transcript_markdown(
            first,
        ));
    } else {
        law_rendering_is_piecewise(first, second.drop_last());
        assert((first + second).drop_last() == first + second.drop_last());
        assert(transcript_markdown(first) + (transcript_markdown(second.drop_last())
            + item_markdown(second.last().item)) == (transcript_markdown(first)
            + transcript_markdown(second.drop_last())) + item_markdown(second.last().item));
    }
}

/// Nothing is left out: what every entry renders to stands in the rendering,
/// after what the entries before it render to.
pub proof fn law_rendering_is_exhaustive(entries: Seq<TranscriptEntry>, i: int)
    requires
        0 <= i < entries.len(),
    ensures
        text::stands_at(
            transcript_markdown(entries),
            item_markdown(entries[i].item),
            transcript_markdown(entries.take(i)).len() as int,
        ),
{
    let head = entries.take(i + 1);
    let tail = entries.skip(i + 1);
    assert(entries == head + tail);
    law_rendering_is_piecewise(head, tail);
    assert(head.drop_last() == entries.take(i));
    let at = transcript_markdown(entries.take(i)).len() as int;
    let part = item_markdown(entries[i].item);
    assert(transcript_markdown(entries).subrange(at, at + part.len()) == part);
}

/// A transcript renders to what its entries render to, one after the other, and
/// to nothing else.
pub proof fn law_rendering_adds_nothing(entries: Seq<TranscriptEntry>, entry: TranscriptEntry)
    ensures
        transcript_markdown(Seq::empty()).len() == 0,
        transcript_markdown(entries.push(entry)) == transcript_markdown(entries) + item_markdown(
            entry.item,
        ),
{
    assert(entries.push(entry).drop_last() == entries);
}

/// The tool calls that a message carries are not rendered with it: two
/// messages with the same text render alike.
pub proof fn law_calls_render_once(a: AssistantMessage, b: AssistantMessage)
    requires
        a.text@ == b.text@,
    ensures
        item_markdown(TranscriptItem::AssistantMessage(a)) == item_markdown(
            TranscriptItem::AssistantMessage(b),
        ),
{
}

/// What each item of a transcript renders to. Messages stand trimmed under
/// their heading and are left out where they are blank; calls and results stand
/// in fences under the tool's name, a result with how it ended; the bounds of a
/// turn render to nothing.
pub proof fn law_items_render_under_their_headings(item: TranscriptItem)
    ensures
        match item {
            TranscriptItem::UserMessage(m) => {
                let body = text::trimmed(blocks_text(m.content@));
                &&& body.len() > 0 ==> item_markdown(item) == "## User\n\n"@ + body + "\n\n"@
                &&& body.len() == 0 ==> item_markdown(item).len() == 0
            },
            TranscriptItem::AssistantMessage(m) => {
                let body = text::trimmed(m.text@);
                &&& body.len() > 0 ==> item_markdown(item) == "## Assistant\n\n"@ + body + "\n\n"@
                &&& body.len() == 0 ==> item_markdown(item).len() == 0
            },
            TranscriptItem::ToolCallStarted { tool_call, .. } => {
                let body = match interop::parsed_json(tool_call.args_json@) {
                    Ok(value) => interop::pretty_text(value),
                    Err(_) => tool_call.args_json@,
                };
                item_markdown(item) == "### Tool call: "@ + tool_call.tool_name@ + "\n\n"@ + (
                "```"@ + "json"@ + "\n"@ + text::trimmed_end(body) + "\n```"@) + "\n\n"@
            },
            TranscriptItem::ToolResult(result) => {
                let ended = match result.status {
                    ToolResultStatus::Success => "success"@,
                    ToolResultStatus::Error => "error"@,
                    ToolResultStatus::Interrupted => "interrupted"@,
                    ToolResultStatus::Crashed => "crashed"@,
                };
                item_markdown(item) == "### Tool result: "@ + result.tool_name@ + " ["@ + ended
                    + "]\n\n"@ + ("```"@ + ""@ + "\n"@ + text::trimmed_end(result.output@)
                    + "\n```"@) + "\n\n"@
            },
            TranscriptItem::CompactionSummary { summary } => item_markdown(item)
                == "## Compaction summary\n\n"@ + text::trimmed(summary@) + "\n\n"@,
            TranscriptItem::DaemonToolObservation { rendered: Some(t) } => item_markdown(item)
                == "## Daemon observation\n\n"@ + text::trimmed(t@) + "\n\n"@,
            TranscriptItem::DaemonToolObservation { rendered: None } => item_markdown(item)
                == "## Daemon observation\n\n"@ + text::trimmed(
                "Daemon observation could not be rendered."@,
            ) + "\n\n"@,
            TranscriptItem::TurnStarted { .. } => item_markdown(item).len() == 0,
            TranscriptItem::TurnFinished { .. } => item_markdown(item).len() == 0,
        },
{
}

/// A user message reads as its blocks, one per line: texts as they are, and a
/// placeholder for each image.
pub proof fn law_blocks_stand_line_by_line(blocks: Seq<ContentBlock>, block: ContentBlock)
    ensures
        blocks_text(Seq::empty()).len() == 0,
        ({
            let shown = match block {
                ContentBlock::Text { text } => text@,
                ContentBlock::Image => "[image]"@,
            };
            blocks_text(blocks.push(block)) == (if blocks.len() == 0 {
                shown
            } else {
                blocks_text(blocks) + "\n"@ + shown
            })
        }),
{
    assert(blocks.push(block).drop_last() == blocks);
}

// ---------------------------------------------------------------------------
// The final message

/// The last assistant text among the entries that is more than white space;
/// empty where there is none.
pub open spec fn final_message_of(entries: Seq<TranscriptEntry>) -> Seq<char>
    decreases entries.len(),
{
    if entries.len() == 0 {
        Seq::empty()
    } else {
        match entries.last().item {
            TranscriptItem::AssistantMessage(message) => if text::trimmed(message.text@).len() > 0 {
                message.text@
            } else {
                final_message_of(entries.drop_last())
            },
            _ => final_message_of(entries.drop_last()),
        }
    }
}

/// The text of a message that is more than white space.
pub fn non_empty_text(message: &AssistantMessage) -> (r: Option<String>)
    ensures
        r is Some <==> text::trimmed(message.text@).len() > 0,
        r matches Some(t) ==> t@ == message.text@,
{
    if message.text.as_str().trim().is_empty() {
        None
    } else {
        Some(message.text.clone())
    }
}

/// Extracts a subagent's final message: the last non-empty assistant text on
/// its active branch.
pub fn extract_final_message(history: &HistoryTree) -> (r: String)
    ensures
        r@ == final_message_of(history.entries@),
{
    let mut i: usize = history.entries.len();
    assert(history.entries@.take(i as int) == history.entries@);
    while i > 0
        invariant
            i <= history.entries.len(),
            final_message_of(history.entries@) == final_message_of(history.entries@.take(i as int)),
        decreases i,
    {
        i -= 1;
        assert(history.entries@.take(i + 1).drop_last() == history.entries@.take(i as int));
        match &history.entries[i].item {
            TranscriptItem::AssistantMessage(message) => {
                match non_empty_text(message) {
                    Some(t) => {
                        return t;
                    },
                    None => {},
                }
            },
            _ => {},
        }
    }
    String::new()
}

/// The final message is the text of the last assistant message that holds more
/// than white space, however long or short it and the others are; it is empty
/// where there is no such message.
pub proof fn law_final_message_is_the_last_one(entries: Seq<TranscriptEntry>, i: int)
    ensures
        0 <= i < entries.len() && (entries[i].item matches TranscriptItem::AssistantMessage(m)
            && text::trimmed(m.text@).len() > 0) && (forall|j: int|
            i < j < entries.len() ==> ((#[trigger] entries[j]).item matches
                TranscriptItem::AssistantMessage(m) ==> text::trimmed(m.text@).len() == 0))
            ==> final_message_of(entries) == entries[i].item->AssistantMessage_0.text@,
        (forall|j: int|
            0 <= j < entries.len() ==> ((#[trigger] entries[j]).item matches
                TranscriptItem::AssistantMessage(m) ==> text::trimmed(m.text@).len() == 0))
            ==> final_message_of(entries).len() == 0,
    decreases entries.len(),
{
    if entries.len() > 0 {
        assert(entries[entries.len() - 1] == entries.last());
        law_final_message_is_the_last_one(entries.drop_last(), i);
    }
}

/// What a transcript gains after its final message leaves it as it is, unless
/// it is another message that holds more than white space: that one takes its
/// place.
pub proof fn law_later_messages_take_over(
    entries: Seq<TranscriptEntry>,
    entry: TranscriptEntry,
)
    ensures
        match entry.item {
            TranscriptItem::AssistantMessage(m) => final_message_of(entries.push(entry)) == (
            if text::trimmed(m.text@).len() > 0 {
                m.text@
            } else {
                final_message_of(entries)
            }),
            _ => final_message_of(entries.push(entry)) == final_message_of(entries),
        },
{
    assert(entries.push(entry).drop_last() == entries);
}

/// What follows the `outcome:` marker of a line, or its older spelling
/// `suggested_next:`.
pub open spec fn marked_value(line: Seq<char>) -> Option<Seq<char>> {
    if "outcome:"@.is_prefix_of(line) {
        Some(line.skip("outcome:"@.len() as int))
    } else if "suggested_next:"@.is_prefix_of(line) {
        Some(line.skip("suggested_next:"@.len() as int))
    } else {
        None
    }
}

/// The outcome that a final message states: the trimmed value on its last
/// non-empty line, where that line carries the marker and a value.
pub open spec fn outcome_of(final_message: Seq<char>) -> Option<Seq<char>> {
    match text::last_filled_line(final_message) {
        Some(line) => match marked_value(line) {
            Some(value) => if text::trimmed(value).len() > 0 {
                Some(text::trimmed(value))
            } else {
                None
            },
            None => None,
        },
        None => None,
    }
}

/// An outcome is read off the last line that holds more than white space and
/// off no other: it is what follows `outcome:` or `suggested_next:` at the start
/// of that line, trimmed. A line without either marker states none, and neither
/// does a marker with nothing behind it.
pub proof fn law_outcomes_stand_on_the_last_line(
    message: Seq<char>,
    from: int,
    to: int,
    value: Seq<char>,
)
    requires
        0 <= from <= to <= message.len(),
        from == 0 || message[from - 1] == '\n',
        to == message.len() || message[to] == '\n',
        forall|i: int| from <= i < to ==> message[i] != '\n',
        text::trimmed(message.subrange(from, to)).len() > 0,
        forall|i: int| to <= i < message.len() ==> text::is_white(#[trigger] message[i]),
    ensures
        ({
            let line = text::trimmed(message.subrange(from, to));
            let marked = line == "outcome:"@ + value || line == "suggested_next:"@ + value;
            &&& marked && text::trimmed(value).len() > 0 ==> outcome_of(message) == Some(
                text::trimmed(value),
            )
            &&& marked && text::trimmed(value).len() == 0 ==> outcome_of(message) is None
            &&& !"outcome:"@.is_prefix_of(line) && !"suggested_next:"@.is_prefix_of(line)
                ==> outcome_of(message) is None
        }),
{
    text::law_last_filled_line(message, from, to);
    reveal_strlit("outcome:");
    reveal_strlit("suggested_next:");
    let line = text::trimmed(message.subrange(from, to));
    if line == "outcome:"@ + value {
        assert("outcome:"@.is_prefix_of(line));
        assert(line.skip(8) == value);
    } else if line == "suggested_next:"@ + value {
        assert(line[0] == 's');
        assert(!"outcome:"@.is_prefix_of(line)) by {
            if "outcome:"@.is_prefix_of(line) {
                assert(line[0] == "outcome:"@[0]);
            }
        }
        assert("suggested_next:"@.is_prefix_of(line));
        assert(line.skip(15) == value);
    }
}

/// A message of white space alone states no outcome.
pub proof fn law_blank_messages_state_nothing(message: Seq<char>)
    requires
        forall|i: int| 0 <= i < message.len() ==> text::is_white(#[trigger] message[i]),
    ensures
        outcome_of(message) is None,
{
    text::law_last_filled_line(message, 0, 0);
}

/// Extracts a typed `outcome` edge label from a final message. The value is
/// recorded verbatim and never checked against a set of outcomes.
pub fn extract_outcome(final_message: &str) -> (r: Option<String>)
    ensures
        records::opt_view(r) == outcome_of(final_message@),
{
    let line = match last_nonempty_line(final_message) {
        Some(line) => line,
        None => {
            return None;
        },
    };
    let value = match strip_prefix(line.as_str(), "outcome:") {
        Some(rest) => {
            assert(rest@ == line@.skip("outcome:"@.len() as int));
            rest
        },
        None => match strip_prefix(line.as_str(), "suggested_next:") {
            Some(rest) => {
                assert(rest@ == line@.skip("suggested_next:"@.len() as int));
                rest
            },
            None => {
                return None;
            },
        },
    };
    let kept = value.trim();
    if kept.is_empty() {
        None
    } else {
        Some(kept.to_owned())
    }
}

/// The outcome by its older name.
pub fn extract_suggested_next(final_message: &str) -> (r: Option<String>)
    ensures
        records::opt_view(r) == outcome_of(final_message@),
{
    extract_outcome(final_message)
}

// ---------------------------------------------------------------------------
// Where the files stand

/// What is published of one subagent.
#[derive(Debug, PartialEq, Eq)]
pub struct SubagentArtifact {
    pub session_id: String,
    pub terminal_status: Option<&'static str>,
    pub outcome: Option<String>,
    pub has_final_message: bool,
    pub has_task_prompt: bool,
}

/// A file of a subagent, below the delegation's directory.
pub open spec fn member_file(session_id: Seq<char>, file: Seq<char>) -> Seq<char> {
    session_id + "/"@ + file
}

impl SubagentArtifact {
    pub fn final_message_rel(&self) -> (r: Option<String>)
        ensures
            r is Some <==> self.has_final_message,
            r matches Some(p) ==> p@ == member_file(self.session_id@, "final_message.md"@),
    {
        if self.has_final_message {
            Some(final_message_rel(self.session_id.as_str()))
        } else {
            None
        }
    }

    pub fn transcript_rel(&self) -> (r: String)
        ensures
            r@ == member_file(self.session_id@, "transcript.md"@),
    {
        self.session_id.clone().concat("/").concat("transcript.md")
    }

    pub fn task_prompt_rel(&self) -> (r: Option<String>)
        ensures
            r is Some <==> self.has_task_prompt,
            r matches Some(p) ==> p@ == member_file(self.session_id@, TASK_PROMPT_FILE@),
    {
        if self.has_task_prompt {
            Some(task_prompt_rel(self.session_id.as_str()))
        } else {
            None
        }
    }
}

pub fn final_message_rel(session_id: &str) -> (r: String)
    ensures
        r@ == member_file(session_id@, "final_message.md"@),
{
    session_id.to_owned().concat("/").concat("final_message.md")
}

/// The transcript that a cancellation leaves of a subagent, below the
/// delegation's directory.
pub fn cancelled_transcript_rel(session_id: &str) -> (r: String)
    ensures
        r@ == "cancelled/"@ + session_id@ + ".transcript.md"@,
{
    "cancelled/".to_owned().concat(session_id).concat(".transcript.md")
}

pub fn task_prompt_rel(session_id: &str) -> (r: String)
    ensures
        r@ == member_file(session_id@, TASK_PROMPT_FILE@),
{
    session_id.to_owned().concat("/").concat(TASK_PROMPT_FILE)
}

/// A dynamic segment names a file or directory of its own once the white space
/// around it is gone.
pub open spec fn safe_segment(segment: Seq<char>) -> bool {
    paths::plain_name(text::trimmed(segment))
}

/// How an unsafe segment is refused.
pub open spec fn segment_error(field: Seq<char>) -> (Seq<char>, Seq<char>) {
    ("invalid_params"@, field + " is not a valid path segment"@)
}

/// Rejects any dynamic path segment that is not a plain file or directory name,
/// and hands back the name without the white space around it.
pub fn safe_handoff_path_segment(segment: &str, field: &str) -> (r: Result<String, RpcError>)
    ensures
        r is Ok <==> safe_segment(segment@),
        r matches Ok(name) ==> name@ == text::trimmed(segment@),
        r matches Err(e) ==> e@ == segment_error(field@),
{
    let kept = segment.trim();
    if is_plain_name(kept) {
        Ok(kept.to_owned())
    } else {
        Err(
            RpcError::with_message(
                "invalid_params",
                field.to_owned().concat(" is not a valid path segment"),
            ),
        )
    }
}

/// The directory of a delegation's handoff files, below the workspace.
pub open spec fn delegation_dir_of(delegation_id: Seq<char>) -> Seq<char> {
    HANDOFF_DIR@ + "/"@ + delegation_id
}

/// The workspace-relative directory that holds a delegation's handoff files:
/// `.pi-handoff/<delegation_id>`.
pub fn delegation_dir(delegation_id: &str) -> (r: String)
    ensures
        r@ == delegation_dir_of(delegation_id@),
{
    HANDOFF_DIR.to_owned().concat("/").concat(delegation_id)
}

/// The handoff root of a workspace.
pub fn handoff_root(workspace: &str) -> (r: String)
    ensures
        r@ == paths::joined(workspace@, HANDOFF_DIR@),
{
    join(workspace, HANDOFF_DIR)
}

/// The directory of a delegation's handoff files in a workspace.
pub fn delegation_path(workspace: &str, delegation_id: &str) -> (r: String)
    ensures
        r@ == paths::joined(workspace@, delegation_dir_of(delegation_id@)),
{
    join(workspace, delegation_dir(delegation_id).as_str())
}

// ---------------------------------------------------------------------------
// What is written

/// One file to be written below the workspace.
#[derive(Debug, PartialEq, Eq)]
pub struct WorkspaceWrite {
    pub path: String,
    pub content: String,
}

/// Path and content of each write.
pub open spec fn writes_view(writes: Seq<WorkspaceWrite>) -> Seq<(Seq<char>, Seq<char>)> {
    writes.map_values(|w: WorkspaceWrite| (w.path@, w.content@))
}

/// The task of a subagent, where it is more than white space.
pub open spec fn written_task(task: Option<Seq<char>>) -> Option<Seq<char>> {
    match task {
        Some(t) => if text::trimmed(t).len() > 0 {
            Some(t)
        } else {
            None
        },
        None => None,
    }
}

/// The write of a subagent's task prompt.
pub open spec fn task_prompt_write(dir: Seq<char>, session_id: Seq<char>, task: Seq<char>) -> (
    Seq<char>,
    Seq<char>,
) {
    (dir + "/"@ + member_file(text::trimmed(session_id), TASK_PROMPT_FILE@), task)
}

/// Plans the write of a subagent's task prompt; nothing where there is no task.
pub fn refresh_task_prompt_artifact_if_present(
    dir: &str,
    session_id: &str,
    task: Option<&str>,
) -> (r: Result<Option<WorkspaceWrite>, RpcError>)
    ensures
        r is Ok <==> safe_segment(session_id@),
        r matches Err(e) ==> e@ == segment_error("subagent_id"@),
        r matches Ok(w) ==> (w is Some <==> written_task(records::opt_str_view(task)) is Some),
        r matches Ok(Some(w)) ==> (w.path@, w.content@) == task_prompt_write(
            dir@,
            session_id@,
            written_task(records::opt_str_view(task))->0,
        ),
{
    let segment = match safe_handoff_path_segment(session_id, "subagent_id") {
        Ok(segment) => segment,
        Err(e) => {
            return Err(e);
        },
    };
    match task {
        Some(task) => if task.trim().is_empty() {
            Ok(None)
        } else {
            let path = dir.to_owned().concat("/").concat(
                task_prompt_rel(segment.as_str()).as_str(),
            );
            Ok(Some(WorkspaceWrite { path, content: task.to_owned() }))
        },
        None => Ok(None),
    }
}

/// One subagent of a delegation with what a refresh reads of it. The work state
/// is read while the delegation runs.
#[derive(Debug, PartialEq, Eq)]
pub struct DelegationMember {
    pub subagent: DelegationSubagent,
    pub history: HistoryTree,
    pub work: Option<SubagentWorkState>,
}

/// The member's final message may be published: any member's once the
/// delegation is done, and a completed member's while it still runs.
pub open spec fn final_content_ready(status: DelegationStatus, work: Option<SubagentWorkState>) -> bool {
    match status {
        DelegationStatus::Running => work matches Some(w) && w.terminal(),
        DelegationStatus::Done | DelegationStatus::DoneWithFailures => true,
        DelegationStatus::Cancelled | DelegationStatus::Failed => false,
    }
}

/// The writes of one member, in order: the task prompt where there is one, the
/// final message where it may be published and is asked for, the transcript.
pub open spec fn member_writes(
    dir: Seq<char>,
    status: DelegationStatus,
    include_final_messages: bool,
    m: DelegationMember,
) -> Seq<(Seq<char>, Seq<char>)> {
    let id = m.subagent.session_id@;
    let prompt = match written_task(records::opt_view(m.subagent.task)) {
        Some(task) => seq![task_prompt_write(dir, id, task)],
        None => Seq::empty(),
    };
    let message = if include_final_messages && final_content_ready(status, m.work) {
        seq![
            (
                dir + "/"@ + member_file(id, "final_message.md"@),
                final_message_of(m.history.entries@),
            ),
        ]
    } else {
        Seq::empty()
    };
    prompt + message + seq![
        (
            dir + "/"@ + member_file(id, "transcript.md"@),
            transcript_markdown(m.history.entries@),
        ),
    ]
}

/// What is reported of one member.
pub open spec fn artifact_of(
    a: SubagentArtifact,
    status: DelegationStatus,
    include_final_messages: bool,
    m: DelegationMember,
) -> bool {
    let ready = final_content_ready(status, m.work);
    &&& a.session_id@ == m.subagent.session_id@
    &&& records::opt_str_view(a.terminal_status) == branch_status(m.history)
    &&& records::opt_view(a.outcome) == (if ready {
        outcome_of(final_message_of(m.history.entries@))
    } else {
        None
    })
    &&& a.has_final_message == (include_final_messages && ready)
    &&& a.has_task_prompt == (written_task(records::opt_view(m.subagent.task)) is Some)
}

fn refresh_member(
    dir: &str,
    status: DelegationStatus,
    include_final_messages: bool,
    m: &DelegationMember,
    writes: &mut Vec<WorkspaceWrite>,
) -> (r: Result<SubagentArtifact, RpcError>)
    ensures
        r is Ok <==> safe_segment(m.subagent.session_id@),
        r matches Ok(a) ==> artifact_of(a, status, include_final_messages, *m) && writes_view(
            final(writes)@,
        ) == writes_view(old(writes)@) + member_writes(dir@, status, include_final_messages, *m),
        r matches Err(e) ==> e@ == segment_error("subagent_id"@) && final(writes)@ == old(writes)@,
{
    let final_message = extract_final_message(&m.history);
    let transcript = render_transcript_markdown(&m.history);
    let terminal_status = terminal_subagent_status(&m.history);
    let ready = match status {
        DelegationStatus::Running => match &m.work {
            Some(work) => work.is_completion_terminal(),
            None => false,
        },
        DelegationStatus::Done | DelegationStatus::DoneWithFailures => true,
        DelegationStatus::Cancelled | DelegationStatus::Failed => false,
    };
    let outcome = if ready {
        extract_outcome(final_message.as_str())
    } else {
        None
    };
    let prompt = match refresh_task_prompt_artifact_if_present(
        dir,
        m.subagent.session_id.as_str(),
        opt_str(&m.subagent.task),
    ) {
        Ok(prompt) => prompt,
        Err(e) => {
            return Err(e);
        },
    };
    let has_task_prompt = prompt.is_some();
    let ghost before = writes_view(writes@);
    match prompt {
        Some(write) => writes.push(write),
        None => {},
    }
    let ghost with_prompt = writes_view(writes@);
    if include_final_messages && ready {
        let path = dir.to_owned().concat("/").concat(
            final_message_rel(m.subagent.session_id.as_str()).as_str(),
        );
        writes.push(WorkspaceWrite { path, content: final_message });
    }
    let ghost with_message = writes_view(writes@);
    let path = dir.to_owned().concat("/").concat(
        m.subagent.session_id.clone().concat("/").concat("transcript.md").as_str(),
    );
    writes.push(WorkspaceWrite { path, content: transcript });
    proof {
        let parts = member_writes(dir@, status, include_final_messages, *m);
        assert(writes_view(writes@) == before + parts);
    }
    Ok(
        SubagentArtifact {
            session_id: m.subagent.session_id.clone(),
            terminal_status,
            outcome,
            has_final_message: include_final_messages && ready,
            has_task_prompt,
        },
    )
}

/// What a refresh of a delegation's handoff files comes to: the files to write
/// in order, what is published of each subagent, and the refusal that ended
/// the refresh early.
#[derive(Debug, PartialEq, Eq)]
pub struct HandoffRefresh {
    pub dir: String,
    pub writes: Vec<WorkspaceWrite>,
    pub artifacts: Vec<SubagentArtifact>,
    pub refused: Option<RpcError>,
}

/// The delegation publishes files per subagent: it runs, or it completed.
pub open spec fn publishes(status: DelegationStatus) -> bool {
    status is Running || status is Done || status is DoneWithFailures
}

pub fn publishes_files(status: DelegationStatus) -> (r: bool)
    ensures
        r == publishes(status),
{
    match status {
        DelegationStatus::Running | DelegationStatus::Done | DelegationStatus::DoneWithFailures => true,
        DelegationStatus::Cancelled | DelegationStatus::Failed => false,
    }
}

/// How many members stand before the first with an unsafe session id.
pub open spec fn leading_safe(members: Seq<DelegationMember>) -> nat
    decreases members.len(),
{
    if members.len() == 0 {
        0
    } else {
        let before = leading_safe(members.drop_last());
        if before + 1 == members.len() && safe_segment(members.last().subagent.session_id@) {
            members.len()
        } else {
            before
        }
    }
}

/// The writes of the members, one after the other.
pub open spec fn all_writes(
    dir: Seq<char>,
    status: DelegationStatus,
    include_final_messages: bool,
    members: Seq<DelegationMember>,
) -> Seq<(Seq<char>, Seq<char>)>
    decreases members.len(),
{
    if members.len() == 0 {
        Seq::empty()
    } else {
        all_writes(dir, status, include_final_messages, members.drop_last()) + member_writes(
            dir,
            status,
            include_final_messages,
            members.last(),
        )
    }
}

proof fn lemma_leading_safe(members: Seq<DelegationMember>, n: int)
    requires
        0 <= n <= members.len(),
        forall|i: int| 0 <= i < n ==> safe_segment(#[trigger] members[i].subagent.session_id@),
        n < members.len() ==> !safe_segment(members[n].subagent.session_id@),
    ensures
        leading_safe(members) == n,
    decreases members.len(),
{
    if members.len() > 0 {
        let head = members.drop_last();
        assert forall|i: int| 0 <= i < n && i < head.len() implies safe_segment(
            #[trigger] head[i].subagent.session_id@,
        ) by {
            assert(head[i] == members[i]);
            assert(safe_segment(members[i].subagent.session_id@));
        }
        if n == members.len() {
            lemma_leading_safe(head, n - 1);
        } else {
            lemma_leading_safe(head, n);
        }
    }
}

/// Refreshes the handoff files of a delegation from durable transcripts.
///
/// Each subagent's transcript is written every time, its task prompt where it
/// has one, and its final message where that is asked for and the status
/// permits it. Cancelled and failed delegations publish nothing here. A session
/// id that is no plain name ends the refresh.
pub fn refresh_delegation_handoff_artifacts(
    delegation: &Delegation,
    include_final_messages: bool,
    members: &Vec<DelegationMember>,
) -> (r: HandoffRefresh)
    ensures
        r.dir@ == delegation_dir_of(delegation.id@),
        !publishes(delegation.status) ==> r.writes@.len() == 0 && r.artifacts@.len() == 0
            && r.refused is None,
        publishes(delegation.status) ==> {
            let n = leading_safe(members@) as int;
            &&& r.artifacts@.len() == n
            &&& forall|i: int|
                0 <= i < n ==> artifact_of(
                    #[trigger] r.artifacts@[i],
                    delegation.status,
                    include_final_messages,
                    members@[i],
                )
            &&& writes_view(r.writes@) == all_writes(
                r.dir@,
                delegation.status,
                include_final_messages,
                members@.take(n),
            )
            &&& r.refused is Some <==> n < members@.len()
            &&& r.refused matches Some(e) ==> e@ == segment_error("subagent_id"@)
        },
{
    let dir = delegation_dir(delegation.id.as_str());
    let mut writes: Vec<WorkspaceWrite> = Vec::new();
    let mut artifacts: Vec<SubagentArtifact> = Vec::new();
    if !publishes_files(delegation.status) {
        return HandoffRefresh { dir, writes, artifacts, refused: None };
    }
    assert(writes_view(writes@) == Seq::<(Seq<char>, Seq<char>)>::empty());
    let mut i: usize = 0;
    while i < members.len()
        invariant
            i <= members.len(),
            dir@ == delegation_dir_of(delegation.id@),
            publishes(delegation.status),
            artifacts@.len() == i,
            forall|j: int|
                0 <= j < i ==> safe_segment(#[trigger] members@[j].subagent.session_id@),
            forall|j: int|
                0 <= j < i ==> artifact_of(
                    #[trigger] artifacts@[j],
                    delegation.status,
                    include_final_messages,
                    members@[j],
                ),
            writes_view(writes@) == all_writes(
                dir@,
                delegation.status,
                include_final_messages,
                members@.take(i as int),
            ),
        decreases members.len() - i,
    {
        match refresh_member(
            dir.as_str(),
            delegation.status,
            include_final_messages,
            &members[i],
            &mut writes,
        ) {
            Ok(artifact) => artifacts.push(artifact),
            Err(e) => {
                proof {
                    lemma_leading_safe(members@, i as int);
                }
                return HandoffRefresh { dir, writes, artifacts, refused: Some(e) };
            },
        }
        assert(members@.take(i + 1).drop_last() == members@.take(i as int));
        i += 1;
    }
    proof {
        lemma_leading_safe(members@, i as int);
    }
    HandoffRefresh { dir, writes, artifacts, refused: None }
}

proof fn lemma_trimmed_away_keeps_names_plain(id: Seq<char>)
    requires
        safe_segment(id),
    ensures
        paths::plain_name(text::trimmed(id)),
        !id.contains('/'),
        id.len() > 0,
        id != "."@,
        id != ".."@,
{
    text::law_trimming(id);
    text::lemma_trimmed_window(id);
    let (from, to) = text::trimmed_window(id);
    let t = text::trimmed(id);
    reveal_strlit(".");
    reveal_strlit("..");
    if id.contains('/') {
        let i = choose|i: int| 0 <= i < id.len() && id[i] == '/';
        assert(from <= i < to);
        assert(t[i - from] == '/');
    }
    if id == "."@ || id == ".."@ {
        assert(!text::is_white('.'));
        assert(from == 0 && to == id.len());
        assert(t == id);
    }
}

/// Every file that a refresh writes for a safe session id stands in a directory
/// of its own directly below the delegation's, under one of three names.
pub proof fn law_writes_stay_inside(
    dir: Seq<char>,
    status: DelegationStatus,
    include_final_messages: bool,
    m: DelegationMember,
    i: int,
)
    requires
        safe_segment(m.subagent.session_id@),
        0 <= i < member_writes(dir, status, include_final_messages, m).len(),
    ensures
        exists|segment: Seq<char>, file: Seq<char>|
            #![trigger member_file(segment, file)]
            {
                &&& member_writes(dir, status, include_final_messages, m)[i].0 == dir + "/"@
                    + member_file(segment, file)
                &&& segment.len() > 0
                &&& !segment.contains('/')
                &&& segment != "."@
                &&& segment != ".."@
                &&& (file == TASK_PROMPT_FILE@ || file == "final_message.md"@ || file
                    == "transcript.md"@)
            },
{
    let id = m.subagent.session_id@;
    lemma_trimmed_away_keeps_names_plain(id);
    let writes = member_writes(dir, status, include_final_messages, m);
    let path = writes[i].0;
    if path == dir + "/"@ + member_file(text::trimmed(id), TASK_PROMPT_FILE@) {
    } else if path == dir + "/"@ + member_file(id, "final_message.md"@) {
    } else {
        assert(path == dir + "/"@ + member_file(id, "transcript.md"@));
    }
}

/// What is written of a member: its task prompt exactly when it has a task of
/// more than white space, with that task as its content; its final message
/// exactly when that is asked for and either the delegation is done or the
/// member itself is, at a turn boundary with nothing queued, unfinished or
/// running; and its transcript always, last.
pub proof fn law_members_are_written_in_full(
    dir: Seq<char>,
    status: DelegationStatus,
    include_final_messages: bool,
    m: DelegationMember,
)
    ensures
        ({
            let id = m.subagent.session_id@;
            let writes = member_writes(dir, status, include_final_messages, m);
            let has_task = m.subagent.task matches Some(t) && text::trimmed(t@).len() > 0;
            let ready = status is Done || status is DoneWithFailures || (status is Running && (
            m.work matches Some(w) && w.active_leaf_is_turn_boundary && !w.has_unfinished_actions
                && !w.has_queued_inputs && !w.has_active_runtime));
            let has_message = include_final_messages && ready;
            let prompts: int = if has_task {
                1
            } else {
                0
            };
            let messages: int = if has_message {
                1
            } else {
                0
            };
            &&& writes.len() == prompts + messages + 1
            &&& has_task ==> writes[0] == (
                dir + "/"@ + (text::trimmed(id) + "/"@ + "task_prompt.md"@),
                m.subagent.task->0@,
            )
            &&& has_message ==> writes[prompts] == (
                dir + "/"@ + (id + "/"@ + "final_message.md"@),
                final_message_of(m.history.entries@),
            )
            &&& writes.last() == (
                dir + "/"@ + (id + "/"@ + "transcript.md"@),
                transcript_markdown(m.history.entries@),
            )
        }),
{
}

/// What is published of a member: its own id, the terminal status of its own
/// branch, the outcome of its own final message once that may be published, and
/// whether its final message and its task prompt were written.
pub proof fn law_artifacts_tell_the_member(
    a: SubagentArtifact,
    status: DelegationStatus,
    include_final_messages: bool,
    m: DelegationMember,
)
    requires
        artifact_of(a, status, include_final_messages, m),
    ensures
        ({
            let ready = status is Done || status is DoneWithFailures || (status is Running && (
            m.work matches Some(w) && w.active_leaf_is_turn_boundary && !w.has_unfinished_actions
                && !w.has_queued_inputs && !w.has_active_runtime));
            &&& a.session_id@ == m.subagent.session_id@
            &&& match a.terminal_status {
                Some(s) => branch_status(m.history) == Some(s@),
                None => branch_status(m.history) is None,
            }
            &&& match a.outcome {
                Some(o) => ready && outcome_of(final_message_of(m.history.entries@)) == Some(o@),
                None => ready ==> outcome_of(final_message_of(m.history.entries@)) is None,
            }
            &&& a.has_final_message <==> include_final_messages && ready
            &&& a.has_task_prompt <==> (m.subagent.task matches Some(t) && text::trimmed(t@).len()
                > 0)
        }),
{
}

/// Files are published per subagent exactly while the delegation runs and once
/// it completed.
pub proof fn law_what_publishes(status: DelegationStatus)
    ensures
        publishes(status) <==> !(status is Cancelled || status is Failed),
{
}

/// A refresh goes up to the first member whose session id is no plain name:
/// every member before it is safe, and it is not.
pub proof fn law_refresh_stops_at_the_first_unsafe_id(members: Seq<DelegationMember>)
    ensures
        leading_safe(members) <= members.len(),
        forall|i: int|
            0 <= i < leading_safe(members) ==> safe_segment(
                #[trigger] members[i].subagent.session_id@,
            ),
        leading_safe(members) < members.len() ==> !safe_segment(
            members[leading_safe(members) as int].subagent.session_id@,
        ),
    decreases members.len(),
{
    if members.len() > 0 {
        law_refresh_stops_at_the_first_unsafe_id(members.drop_last());
        let n = leading_safe(members) as int;
        let head = members.drop_last();
        assert forall|i: int| 0 <= i < n implies safe_segment(
            #[trigger] members[i].subagent.session_id@,
        ) by {
            if i < head.len() {
                assert(members[i] == head[i]);
                assert(safe_segment(head[i].subagent.session_id@));
            }
        }
    }
}

/// The members' files are written member by member, in their order.
pub proof fn law_writes_are_piecewise(
    dir: Seq<char>,
    status: DelegationStatus,
    include_final_messages: bool,
    members: Seq<DelegationMember>,
    m: DelegationMember,
)
    ensures
        all_writes(dir, status, include_final_messages, Seq::empty()).len() == 0,
        all_writes(dir, status, include_final_messages, members.push(m)) == all_writes(
            dir,
            status,
            include_final_messages,
            members,
        ) + member_writes(dir, status, include_final_messages, m),
{
    assert(members.push(m).drop_last() == members);
}

/// A session id is safe exactly when, trimmed, it is one plain name: not empty,
/// neither `.` nor `..`, and without a separator or a NUL.
pub proof fn law_safe_ids_are_plain_names(segment: Seq<char>)
    ensures
        ({
            let name = text::trimmed(segment);
            safe_segment(segment) <==> {
                &&& name.len() > 0
                &&& name != "."@
                &&& name != ".."@
                &&& forall|i: int| 0 <= i < name.len() ==> #[trigger] name[i] != '/' && name[i]
                    != '\0'
            }
        }),
{
    let name = text::trimmed(segment);
    if name.contains('/') {
        let i = choose|i: int| 0 <= i < name.len() && name[i] == '/';
        assert(name[i] == '/');
    }
    if name.contains('\0') {
        let i = choose|i: int| 0 <= i < name.len() && name[i] == '\0';
        assert(name[i] == '\0');
    }
}

} // verus!
