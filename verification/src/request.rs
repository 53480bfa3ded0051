//! The inbound chat-completions request.

use crate::json::{JsonValue, JsonView};
use vstd::prelude::*;

verus! {

/// A chat-completions request as a client sends it.
///
/// The four sampling parameters are single-precision numbers on the wire;
/// here each is held as its IEEE-754 bit pattern. No rule of the library
/// reads them.
#[derive(Debug, PartialEq)]
pub struct ChatCompletionsRequest {
    pub frequency_penalty: Option<u32>,
    pub logit_bias: Option<Vec<(String, String)>>,
    pub messages: Vec<Message>,
    pub max_tokens: Option<i32>,
    pub model: String,
    pub n: Option<i32>,
    pub presence_penalty: Option<u32>,
    pub stop: Option<Vec<String>>,
    pub stream: Option<bool>,
    pub stream_options: Option<StreamOptions>,
    pub temperature: Option<u32>,
    pub top_p: Option<u32>,
    pub user: Option<String>,
    pub tools: Option<Vec<OpenAITool>>,
    pub tool_choice: Option<OpenAIToolChoice>,
}

/// What the client asks of the stream itself.
#[derive(Clone, Copy, Debug, PartialEq, Eq, Structural)]
pub struct StreamOptions {
    pub include_usage: bool,
}

/// A tool that the client offers to the model.
#[derive(Debug, PartialEq)]
pub struct OpenAITool {
    pub tool_type: String,
    pub function: OpenAIToolFunction,
}

/// The function that a tool stands for.
#[derive(Debug, PartialEq)]
pub struct OpenAIToolFunction {
    pub name: String,
    pub description: Option<String>,
    /// The JSON schema of the tool's arguments.
    pub parameters: JsonValue,
}

/// How the model is to choose among the tools: a mode given by name, or one
/// function that it has to call.
#[derive(Debug, PartialEq)]
pub enum OpenAIToolChoice {
    String(String),
    Object { tool_type: String, function: OpenAIToolChoiceFunction },
}

/// The function that the model has to call.
#[derive(Debug, PartialEq)]
pub struct OpenAIToolChoiceFunction {
    pub name: String,
}

/// One message of the conversation.
#[derive(Debug, PartialEq)]
pub struct Message {
    pub contents: Option<Contents>,
    pub role: Role,
    /// Meaningful for the assistant role only.
    pub tool_calls: Option<Vec<OpenAIToolCall>>,
    /// Meaningful for the tool role only.
    pub tool_call_id: Option<String>,
}

/// A tool call that the assistant made.
#[derive(Debug, PartialEq)]
pub struct OpenAIToolCall {
    pub id: String,
    pub tool_type: String,
    pub function: OpenAIFunctionCall,
}

/// The function that a tool call names, and its arguments.
#[derive(Debug, PartialEq)]
pub struct OpenAIFunctionCall {
    pub name: String,
    /// The arguments as JSON text, not yet parsed.
    pub arguments: String,
}

/// Who speaks in a message.
#[derive(Clone, Copy, Debug, PartialEq, Eq, Structural)]
pub enum Role {
    Assistant,
    System,
    User,
    Tool,
}

/// The content of a message: one text, or a list of content blocks.
#[derive(Debug, PartialEq)]
pub enum Contents {
    Array(Vec<Content>),
    String(String),
}

/// A content block.
#[derive(Debug, PartialEq)]
pub enum Content {
    Text { text: String },
}

/// The content of a [`Content`].
pub enum ContentView {
    Text { text: Seq<char> },
}

/// The content of a [`Contents`].
pub enum ContentsView {
    Array(Seq<ContentView>),
    String(Seq<char>),
}

/// The content of an [`OpenAIFunctionCall`].
pub struct OpenAIFunctionCallView {
    pub name: Seq<char>,
    pub arguments: Seq<char>,
}

/// The content of an [`OpenAIToolCall`].
pub struct OpenAIToolCallView {
    pub id: Seq<char>,
    pub tool_type: Seq<char>,
    pub function: OpenAIFunctionCallView,
}

/// The content of a [`Message`].
pub struct MessageView {
    pub contents: Option<ContentsView>,
    pub role: Role,
    pub tool_calls: Option<Seq<OpenAIToolCallView>>,
    pub tool_call_id: Option<Seq<char>>,
}

/// The content of an [`OpenAIToolFunction`].
pub struct OpenAIToolFunctionView {
    pub name: Seq<char>,
    pub description: Option<Seq<char>>,
    pub parameters: JsonView,
}

/// The content of an [`OpenAITool`].
pub struct OpenAIToolView {
    pub tool_type: Seq<char>,
    pub function: OpenAIToolFunctionView,
}

/// The content of an [`OpenAIToolChoice`].
pub enum OpenAIToolChoiceView {
    String(Seq<char>),
    Object { tool_type: Seq<char>, function: Seq<char> },
}

/// The content of a [`ChatCompletionsRequest`].
pub struct RequestView {
    pub frequency_penalty: Option<u32>,
    pub logit_bias: Option<Seq<(Seq<char>, Seq<char>)>>,
    pub messages: Seq<MessageView>,
    pub max_tokens: Option<i32>,
    pub model: Seq<char>,
    pub n: Option<i32>,
    pub presence_penalty: Option<u32>,
    pub stop: Option<Seq<Seq<char>>>,
    pub stream: Option<bool>,
    pub stream_options: Option<StreamOptions>,
    pub temperature: Option<u32>,
    pub top_p: Option<u32>,
    pub user: Option<Seq<char>>,
    pub tools: Option<Seq<OpenAIToolView>>,
    pub tool_choice: Option<OpenAIToolChoiceView>,
}

impl DeepView for Content {
    type V = ContentView;

    open spec fn deep_view(&self) -> ContentView {
        match self {
            Content::Text { text } => ContentView::Text { text: text@ },
        }
    }
}

impl DeepView for Contents {
    type V = ContentsView;

    open spec fn deep_view(&self) -> ContentsView {
        match self {
            Contents::Array(blocks) => ContentsView::Array(blocks.deep_view()),
            Contents::String(text) => ContentsView::String(text@),
        }
    }
}

impl DeepView for OpenAIFunctionCall {
    type V = OpenAIFunctionCallView;

    open spec fn deep_view(&self) -> OpenAIFunctionCallView {
        OpenAIFunctionCallView { name: self.name@, arguments: self.arguments@ }
    }
}

impl DeepView for OpenAIToolCall {
    type V = OpenAIToolCallView;

    open spec fn deep_view(&self) -> OpenAIToolCallView {
        OpenAIToolCallView {
            id: self.id@,
            tool_type: self.tool_type@,
            function: self.function.deep_view(),
        }
    }
}

impl DeepView for Message {
    type V = MessageView;

    open spec fn deep_view(&self) -> MessageView {
        MessageView {
            contents: self.contents.deep_view(),
            role: self.role,
            tool_calls: self.tool_calls.deep_view(),
            tool_call_id: self.tool_call_id.deep_view(),
        }
    }
}

impl DeepView for OpenAIToolFunction {
    type V = OpenAIToolFunctionView;

    open spec fn deep_view(&self) -> OpenAIToolFunctionView {
        OpenAIToolFunctionView {
            name: self.name@,
            description: self.description.deep_view(),
            parameters: self.parameters.deep_view(),
        }
    }
}

impl DeepView for OpenAITool {
    type V = OpenAIToolView;

    open spec fn deep_view(&self) -> OpenAIToolView {
        OpenAIToolView { tool_type: self.tool_type@, function: self.function.deep_view() }
    }
}

impl DeepView for OpenAIToolChoice {
    type V = OpenAIToolChoiceView;

    open spec fn deep_view(&self) -> OpenAIToolChoiceView {
        match self {
            OpenAIToolChoice::String(mode) => OpenAIToolChoiceView::String(mode@),
            OpenAIToolChoice::Object { tool_type, function } => OpenAIToolChoiceView::Object {
                tool_type: tool_type@,
                function: function.name@,
            },
        }
    }
}

impl DeepView for ChatCompletionsRequest {
    type V = RequestView;

    open spec fn deep_view(&self) -> RequestView {
        RequestView {
            frequency_penalty: self.frequency_penalty,
            logit_bias: self.logit_bias.deep_view(),
            messages: self.messages.deep_view(),
            max_tokens: self.max_tokens,
            model: self.model@,
            n: self.n,
            presence_penalty: self.presence_penalty,
            stop: self.stop.deep_view(),
            stream: self.stream,
            stream_options: self.stream_options,
            temperature: self.temperature,
            top_p: self.top_p,
            user: self.user.deep_view(),
            tools: self.tools.deep_view(),
            tool_choice: self.tool_choice.deep_view(),
        }
    }
}

impl ContentsView {
    /// A text without characters and a list without blocks are both empty.
    pub open spec fn is_empty(self) -> bool {
        match self {
            ContentsView::String(text) => text.len() == 0,
            ContentsView::Array(blocks) => blocks.len() == 0,
        }
    }

    /// The texts of the content, in order: the one text, or that of each
    /// block.
    pub open spec fn texts(self) -> Seq<Seq<char>> {
        match self {
            ContentsView::String(text) => seq![text],
            ContentsView::Array(blocks) => Seq::new(blocks.len(), |i: int| blocks[i]->text),
        }
    }
}

impl Contents {
    /// Whether the content is empty.
    pub fn is_empty(&self) -> (r: bool)
        ensures
            r == self.deep_view().is_empty(),
    {
        match self {
            Contents::String(s) => s.as_str().is_empty(),
            Contents::Array(arr) => arr.is_empty(),
        }
    }
}

} // verus!
