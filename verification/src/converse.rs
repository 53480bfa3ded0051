//! The backend's conversational model: what a request to it is made of, and
//! the events of a response stream.
//!
//! Only what the translators read or write is modelled; every kind of event,
//! block or reason that they do not tell apart is `Unknown`.

use crate::document::{Document, DocumentView};
use vstd::prelude::*;

verus! {

/// Who speaks in a backend message.
#[derive(Clone, Copy, Debug, PartialEq, Eq, Structural)]
pub enum ConversationRole {
    Assistant,
    User,
    Unknown,
}

/// A block of the system prompt.
#[derive(Debug, PartialEq)]
pub enum SystemContentBlock {
    Text(String),
}

/// The content of a [`SystemContentBlock`].
pub enum SystemContentBlockView {
    Text(Seq<char>),
}

impl DeepView for SystemContentBlock {
    type V = SystemContentBlockView;

    open spec fn deep_view(&self) -> SystemContentBlockView {
        match self {
            SystemContentBlock::Text(text) => SystemContentBlockView::Text(text@),
        }
    }
}

/// A request of the model to run a tool.
#[derive(Debug, PartialEq)]
pub struct ToolUseBlock {
    pub tool_use_id: String,
    pub name: String,
    pub input: Document,
}

/// The content of a [`ToolUseBlock`].
pub struct ToolUseBlockView {
    pub tool_use_id: Seq<char>,
    pub name: Seq<char>,
    pub input: DocumentView,
}

impl DeepView for ToolUseBlock {
    type V = ToolUseBlockView;

    open spec fn deep_view(&self) -> ToolUseBlockView {
        ToolUseBlockView {
            tool_use_id: self.tool_use_id@,
            name: self.name@,
            input: self.input.deep_view(),
        }
    }
}

/// A piece of what a tool returned.
#[derive(Debug, PartialEq)]
pub enum ToolResultContentBlock {
    Text(String),
}

/// The content of a [`ToolResultContentBlock`].
pub enum ToolResultContentBlockView {
    Text(Seq<char>),
}

impl DeepView for ToolResultContentBlock {
    type V = ToolResultContentBlockView;

    open spec fn deep_view(&self) -> ToolResultContentBlockView {
        match self {
            ToolResultContentBlock::Text(text) => ToolResultContentBlockView::Text(text@),
        }
    }
}

/// What a tool returned, tied to the request that asked for it.
#[derive(Debug, PartialEq)]
pub struct ToolResultBlock {
    pub tool_use_id: String,
    pub content: Vec<ToolResultContentBlock>,
}

/// The content of a [`ToolResultBlock`].
pub struct ToolResultBlockView {
    pub tool_use_id: Seq<char>,
    pub content: Seq<ToolResultContentBlockView>,
}

impl DeepView for ToolResultBlock {
    type V = ToolResultBlockView;

    open spec fn deep_view(&self) -> ToolResultBlockView {
        ToolResultBlockView { tool_use_id: self.tool_use_id@, content: self.content.deep_view() }
    }
}

/// A block of a backend message.
#[derive(Debug, PartialEq)]
pub enum ContentBlock {
    Text(String),
    ToolResult(ToolResultBlock),
    ToolUse(ToolUseBlock),
}

/// The content of a [`ContentBlock`].
pub enum ContentBlockView {
    Text(Seq<char>),
    ToolResult(ToolResultBlockView),
    ToolUse(ToolUseBlockView),
}

impl DeepView for ContentBlock {
    type V = ContentBlockView;

    open spec fn deep_view(&self) -> ContentBlockView {
        match self {
            ContentBlock::Text(text) => ContentBlockView::Text(text@),
            ContentBlock::ToolResult(result) => ContentBlockView::ToolResult(result.deep_view()),
            ContentBlock::ToolUse(tool_use) => ContentBlockView::ToolUse(tool_use.deep_view()),
        }
    }
}

/// A message of the conversation as the backend takes it.
#[derive(Debug, PartialEq)]
pub struct BackendMessage {
    pub role: ConversationRole,
    pub content: Vec<ContentBlock>,
}

/// The content of a [`BackendMessage`].
pub struct BackendMessageView {
    pub role: ConversationRole,
    pub content: Seq<ContentBlockView>,
}

impl DeepView for BackendMessage {
    type V = BackendMessageView;

    open spec fn deep_view(&self) -> BackendMessageView {
        BackendMessageView { role: self.role, content: self.content.deep_view() }
    }
}

/// The schema of a tool's input.
#[derive(Debug, PartialEq)]
pub enum ToolInputSchema {
    Json(Document),
}

/// The description of one tool.
#[derive(Debug, PartialEq)]
pub struct ToolSpecification {
    pub name: String,
    pub description: Option<String>,
    pub input_schema: Option<ToolInputSchema>,
}

/// The content of a [`ToolSpecification`].
pub struct ToolSpecificationView {
    pub name: Seq<char>,
    pub description: Option<Seq<char>>,
    pub input_schema: Option<DocumentView>,
}

impl DeepView for ToolInputSchema {
    type V = DocumentView;

    open spec fn deep_view(&self) -> DocumentView {
        match self {
            ToolInputSchema::Json(schema) => schema.deep_view(),
        }
    }
}

impl DeepView for ToolSpecification {
    type V = ToolSpecificationView;

    open spec fn deep_view(&self) -> ToolSpecificationView {
        ToolSpecificationView {
            name: self.name@,
            description: self.description.deep_view(),
            input_schema: self.input_schema.deep_view(),
        }
    }
}

/// A tool that the model may call.
#[derive(Debug, PartialEq)]
pub enum Tool {
    ToolSpec(ToolSpecification),
}

impl DeepView for Tool {
    type V = ToolSpecificationView;

    open spec fn deep_view(&self) -> ToolSpecificationView {
        match self {
            Tool::ToolSpec(specification) => specification.deep_view(),
        }
    }
}

/// The one tool that the model has to call.
#[derive(Debug, PartialEq)]
pub struct SpecificToolChoice {
    pub name: String,
}

/// How the model is to choose among the tools.
#[derive(Debug, PartialEq)]
pub enum ToolChoice {
    /// The model has to call some tool.
    Any,
    /// The model decides whether to call a tool.
    Auto,
    /// The model has to call this tool.
    Tool(SpecificToolChoice),
}

/// The content of a [`ToolChoice`].
pub enum ToolChoiceView {
    Any,
    Auto,
    Tool(Seq<char>),
}

impl DeepView for ToolChoice {
    type V = ToolChoiceView;

    open spec fn deep_view(&self) -> ToolChoiceView {
        match self {
            ToolChoice::Any => ToolChoiceView::Any,
            ToolChoice::Auto => ToolChoiceView::Auto,
            ToolChoice::Tool(choice) => ToolChoiceView::Tool(choice.name@),
        }
    }
}

/// The tools of a request, and how to choose among them.
#[derive(Debug, PartialEq)]
pub struct ToolConfiguration {
    pub tools: Vec<Tool>,
    pub tool_choice: Option<ToolChoice>,
}

/// The content of a [`ToolConfiguration`].
pub struct ToolConfigurationView {
    pub tools: Seq<ToolSpecificationView>,
    pub tool_choice: Option<ToolChoiceView>,
}

impl DeepView for ToolConfiguration {
    type V = ToolConfigurationView;

    open spec fn deep_view(&self) -> ToolConfigurationView {
        ToolConfigurationView {
            tools: self.tools.deep_view(),
            tool_choice: self.tool_choice.deep_view(),
        }
    }
}

/// Why the backend stopped generating.
#[derive(Clone, Copy, Debug, PartialEq, Eq, Structural)]
pub enum StopReason {
    ContentFiltered,
    EndTurn,
    GuardrailIntervened,
    MaxTokens,
    StopSequence,
    ToolUse,
    Unknown,
}

/// Token counts as the backend reports them.
#[derive(Clone, Copy, Debug, PartialEq, Eq, Structural)]
pub struct TokenUsage {
    pub input_tokens: i32,
    pub output_tokens: i32,
    pub total_tokens: i32,
}

/// The start of a tool-use block.
#[derive(Debug, PartialEq)]
pub struct ToolUseBlockStart {
    pub tool_use_id: String,
    pub name: String,
}

/// The content of a [`ToolUseBlockStart`].
pub struct ToolUseBlockStartView {
    pub tool_use_id: Seq<char>,
    pub name: Seq<char>,
}

impl DeepView for ToolUseBlockStart {
    type V = ToolUseBlockStartView;

    open spec fn deep_view(&self) -> ToolUseBlockStartView {
        ToolUseBlockStartView { tool_use_id: self.tool_use_id@, name: self.name@ }
    }
}

/// A fragment of the JSON text of a tool call's input.
#[derive(Debug, PartialEq)]
pub struct ToolUseBlockDelta {
    pub input: String,
}

/// What opens a content block.
#[derive(Debug, PartialEq)]
pub enum ContentBlockStart {
    ToolUse(ToolUseBlockStart),
    Unknown,
}

/// The content of a [`ContentBlockStart`].
pub enum ContentBlockStartView {
    ToolUse(ToolUseBlockStartView),
    Unknown,
}

impl DeepView for ContentBlockStart {
    type V = ContentBlockStartView;

    open spec fn deep_view(&self) -> ContentBlockStartView {
        match self {
            ContentBlockStart::ToolUse(start) => ContentBlockStartView::ToolUse(start.deep_view()),
            ContentBlockStart::Unknown => ContentBlockStartView::Unknown,
        }
    }
}

/// An increment of a content block.
#[derive(Debug, PartialEq)]
pub enum ContentBlockDelta {
    Text(String),
    ToolUse(ToolUseBlockDelta),
    Unknown,
}

/// The content of a [`ContentBlockDelta`].
pub enum ContentBlockDeltaView {
    Text(Seq<char>),
    ToolUse(Seq<char>),
    Unknown,
}

impl DeepView for ContentBlockDelta {
    type V = ContentBlockDeltaView;

    open spec fn deep_view(&self) -> ContentBlockDeltaView {
        match self {
            ContentBlockDelta::Text(text) => ContentBlockDeltaView::Text(text@),
            ContentBlockDelta::ToolUse(tool_use) => ContentBlockDeltaView::ToolUse(tool_use.input@),
            ContentBlockDelta::Unknown => ContentBlockDeltaView::Unknown,
        }
    }
}

/// A content block has grown.
#[derive(Debug, PartialEq)]
pub struct ContentBlockDeltaEvent {
    pub delta: Option<ContentBlockDelta>,
    pub content_block_index: i32,
}

/// A content block has begun.
#[derive(Debug, PartialEq)]
pub struct ContentBlockStartEvent {
    pub start: Option<ContentBlockStart>,
    pub content_block_index: i32,
}

/// A content block has ended.
#[derive(Clone, Copy, Debug, PartialEq, Eq, Structural)]
pub struct ContentBlockStopEvent {
    pub content_block_index: i32,
}

/// A message has begun.
#[derive(Clone, Copy, Debug, PartialEq, Eq, Structural)]
pub struct MessageStartEvent {
    pub role: ConversationRole,
}

/// A message has ended.
#[derive(Clone, Copy, Debug, PartialEq, Eq, Structural)]
pub struct MessageStopEvent {
    pub stop_reason: StopReason,
}

/// What the backend reports about the whole response.
#[derive(Clone, Copy, Debug, PartialEq, Eq, Structural)]
pub struct ConverseStreamMetadataEvent {
    pub usage: Option<TokenUsage>,
}

/// One event of the backend's response stream.
#[derive(Debug, PartialEq)]
pub enum ConverseStreamOutput {
    ContentBlockDelta(ContentBlockDeltaEvent),
    ContentBlockStart(ContentBlockStartEvent),
    ContentBlockStop(ContentBlockStopEvent),
    MessageStart(MessageStartEvent),
    MessageStop(MessageStopEvent),
    Metadata(ConverseStreamMetadataEvent),
    Unknown,
}

/// The content of a [`ConverseStreamOutput`].
pub enum ConverseStreamOutputView {
    ContentBlockDelta { delta: Option<ContentBlockDeltaView>, content_block_index: i32 },
    ContentBlockStart { start: Option<ContentBlockStartView>, content_block_index: i32 },
    ContentBlockStop { content_block_index: i32 },
    MessageStart { role: ConversationRole },
    MessageStop { stop_reason: StopReason },
    Metadata { usage: Option<TokenUsage> },
    Unknown,
}

impl DeepView for ConverseStreamOutput {
    type V = ConverseStreamOutputView;

    open spec fn deep_view(&self) -> ConverseStreamOutputView {
        match self {
            ConverseStreamOutput::ContentBlockDelta(event) => ConverseStreamOutputView::ContentBlockDelta {
                delta: event.delta.deep_view(),
                content_block_index: event.content_block_index,
            },
            ConverseStreamOutput::ContentBlockStart(event) => ConverseStreamOutputView::ContentBlockStart {
                start: event.start.deep_view(),
                content_block_index: event.content_block_index,
            },
            ConverseStreamOutput::ContentBlockStop(event) => ConverseStreamOutputView::ContentBlockStop {
                content_block_index: event.content_block_index,
            },
            ConverseStreamOutput::MessageStart(event) => ConverseStreamOutputView::MessageStart {
                role: event.role,
            },
            ConverseStreamOutput::MessageStop(event) => ConverseStreamOutputView::MessageStop {
                stop_reason: event.stop_reason,
            },
            ConverseStreamOutput::Metadata(event) => ConverseStreamOutputView::Metadata {
                usage: event.usage,
            },
            ConverseStreamOutput::Unknown => ConverseStreamOutputView::Unknown,
        }
    }
}

} // verus!
