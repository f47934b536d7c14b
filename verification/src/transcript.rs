//! A session's transcript, as far as rendering and classification read it.
use vstd::prelude::*;

verus! {

/// How a turn ended.
#[derive(Clone, Copy, Debug, PartialEq, Eq, Structural)]
pub enum TurnOutcome {
    Graceful,
    Interrupted,
    Crashed,
}

/// How a tool call ended.
#[derive(Clone, Copy, Debug, PartialEq, Eq, Structural)]
pub enum ToolResultStatus {
    Success,
    Error,
    Interrupted,
    Crashed,
}

/// One block of a user message.
#[derive(Debug, PartialEq, Eq)]
pub enum ContentBlock {
    Text { text: String },
    Image,
}

#[derive(Debug, PartialEq, Eq)]
pub struct UserMessage {
    pub content: Vec<ContentBlock>,
}

impl UserMessage {
    /// A message of one text block.
    pub fn text(text: &str) -> (r: UserMessage)
        ensures
            r.content@.len() == 1,
            r.content@[0] matches ContentBlock::Text { text: t } && t@ == text@,
    {
        let mut content: Vec<ContentBlock> = Vec::new();
        content.push(ContentBlock::Text { text: text.to_owned() });
        UserMessage { content }
    }
}

/// A tool call, with its arguments as the JSON text the model wrote.
#[derive(Debug, PartialEq, Eq)]
pub struct ToolCall {
    pub id: String,
    pub tool_name: String,
    pub args_json: String,
}

impl Clone for ToolCall {
    fn clone(&self) -> (r: ToolCall)
        ensures
            r.id@ == self.id@,
            r.tool_name@ == self.tool_name@,
            r.args_json@ == self.args_json@,
    {
        ToolCall {
            id: self.id.clone(),
            tool_name: self.tool_name.clone(),
            args_json: self.args_json.clone(),
        }
    }
}

/// A completion of the model: its text, and the tool calls that it made. The
/// calls also stand in the transcript as entries of their own.
#[derive(Debug, PartialEq, Eq)]
pub struct AssistantMessage {
    pub text: String,
    pub tool_calls: Vec<ToolCall>,
}

#[derive(Debug, PartialEq, Eq)]
pub struct ToolResultMessage {
    pub tool_call_id: String,
    pub tool_name: String,
    pub output: String,
    pub status: ToolResultStatus,
}

/// The result of `call` with this output and status.
pub open spec fn answers(
    r: ToolResultMessage,
    call: ToolCall,
    output: Seq<char>,
    status: ToolResultStatus,
) -> bool {
    &&& r.tool_call_id@ == call.id@
    &&& r.tool_name@ == call.tool_name@
    &&& r.output@ == output
    &&& r.status == status
}

impl ToolResultMessage {
    pub fn success(call: &ToolCall, output: String) -> (r: ToolResultMessage)
        ensures
            answers(r, *call, output@, ToolResultStatus::Success),
    {
        ToolResultMessage {
            tool_call_id: call.id.clone(),
            tool_name: call.tool_name.clone(),
            output,
            status: ToolResultStatus::Success,
        }
    }

    pub fn error(call: &ToolCall, output: String) -> (r: ToolResultMessage)
        ensures
            answers(r, *call, output@, ToolResultStatus::Error),
    {
        ToolResultMessage {
            tool_call_id: call.id.clone(),
            tool_name: call.tool_name.clone(),
            output,
            status: ToolResultStatus::Error,
        }
    }
}

/// One item of a transcript.
#[derive(Debug, PartialEq, Eq)]
pub enum TranscriptItem {
    UserMessage(UserMessage),
    AssistantMessage(AssistantMessage),
    ToolCallStarted { turn_id: u64, tool_call: ToolCall },
    ToolResult(ToolResultMessage),
    CompactionSummary { summary: String },
    /// What the daemon observed, by the text that it renders to; nothing where
    /// it cannot be rendered.
    DaemonToolObservation { rendered: Option<String> },
    TurnStarted { turn_id: u64 },
    TurnFinished { turn_id: u64, outcome: TurnOutcome },
}

#[derive(Debug, PartialEq, Eq)]
pub struct TranscriptEntry {
    pub id: String,
    pub item: TranscriptItem,
}

/// The active branch of a session: its entries, oldest first, and the leaf
/// that it ends in.
#[derive(Debug, PartialEq, Eq)]
pub struct HistoryTree {
    pub session_id: String,
    pub active_leaf_id: Option<String>,
    pub entries: Vec<TranscriptEntry>,
}

/// A tool result answers its own call, with the output and the status it was
/// given.
pub proof fn law_results_answer_their_call(
    r: ToolResultMessage,
    call: ToolCall,
    output: Seq<char>,
    status: ToolResultStatus,
)
    requires
        answers(r, call, output, status),
    ensures
        r.tool_call_id@ == call.id@,
        r.tool_name@ == call.tool_name@,
        r.output@ == output,
        r.status == status,
{
}

} // verus!
