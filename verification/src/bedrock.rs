//! The translation of a chat-completions request into a request to the
//! backend.
//!
//! System messages become the system prompt and never a backend message.
//! User and tool messages become backend messages of the user role, assistant
//! messages stay assistant messages. The tool calls of an assistant become
//! tool-use blocks, the answer of a tool becomes a tool-result block.

use crate::codec::{parse_json, parsed};
use crate::converse::{
    BackendMessage, BackendMessageView, ContentBlock, ContentBlockView, ConversationRole,
    SpecificToolChoice, SystemContentBlock, SystemContentBlockView, Tool, ToolChoice,
    ToolChoiceView, ToolConfiguration, ToolConfigurationView, ToolInputSchema,
    ToolResultBlock, ToolResultBlockView, ToolResultContentBlock, ToolResultContentBlockView,
    ToolSpecification, ToolSpecificationView, ToolUseBlock, ToolUseBlockView,
};
use crate::document::{
    document_of, lemma_document_object_content, no_key_twice, value_to_document, Document,
    DocumentView,
};
use crate::error::TranslationError;
use crate::json::{well_formed, JsonValue, JsonView};
use crate::request::{
    ChatCompletionsRequest, Content, Contents, ContentsView, Message, MessageView,
    OpenAITool, OpenAIToolCall, OpenAIToolCallView, OpenAIToolChoice, OpenAIToolChoiceView,
    OpenAIToolView, RequestView, Role,
};
use crate::text::str_equals;
use vstd::prelude::*;
use vstd::string::StringExecFns;

verus! {

/// A request as the backend takes it.
#[derive(Debug, PartialEq)]
pub struct BedrockChatCompletion {
    pub model_id: String,
    pub system_content_blocks: Vec<SystemContentBlock>,
    pub messages: Vec<BackendMessage>,
    pub tool_config: Option<ToolConfiguration>,
}

/// The content of a [`BedrockChatCompletion`].
pub struct BedrockChatCompletionView {
    pub model_id: Seq<char>,
    pub system_content_blocks: Seq<SystemContentBlockView>,
    pub messages: Seq<BackendMessageView>,
    pub tool_config: Option<ToolConfigurationView>,
}

impl DeepView for BedrockChatCompletion {
    type V = BedrockChatCompletionView;

    open spec fn deep_view(&self) -> BedrockChatCompletionView {
        BedrockChatCompletionView {
            model_id: self.model_id@,
            system_content_blocks: self.system_content_blocks.deep_view(),
            messages: self.messages.deep_view(),
            tool_config: self.tool_config.deep_view(),
        }
    }
}

/// One text block for each text, in order.
pub open spec fn text_blocks(texts: Seq<Seq<char>>) -> Seq<ContentBlockView> {
    Seq::new(texts.len(), |i: int| ContentBlockView::Text(texts[i]))
}

/// One system block for each text, in order.
pub open spec fn system_text_blocks(texts: Seq<Seq<char>>) -> Seq<SystemContentBlockView> {
    Seq::new(texts.len(), |i: int| SystemContentBlockView::Text(texts[i]))
}

/// One tool-result text for each text, in order.
pub open spec fn result_text_blocks(texts: Seq<Seq<char>>) -> Seq<ToolResultContentBlockView> {
    Seq::new(texts.len(), |i: int| ToolResultContentBlockView::Text(texts[i]))
}

/// The texts that have at least one character, in order.
pub open spec fn non_empty(texts: Seq<Seq<char>>) -> Seq<Seq<char>>
    decreases texts.len(),
{
    if texts.len() == 0 {
        Seq::empty()
    } else if texts.last().len() > 0 {
        non_empty(texts.drop_last()).push(texts.last())
    } else {
        non_empty(texts.drop_last())
    }
}

/// The texts in one, with a single space between neighbours.
pub open spec fn joined(texts: Seq<Seq<char>>) -> Seq<char>
    decreases texts.len(),
{
    if texts.len() == 0 {
        Seq::empty()
    } else if texts.len() == 1 {
        texts[0]
    } else {
        joined(texts.drop_last()) + seq![' '] + texts.last()
    }
}

/// The texts of a content that may be missing.
pub open spec fn texts_of(contents: Option<ContentsView>) -> Seq<Seq<char>> {
    match contents {
        Some(contents) => contents.texts(),
        None => Seq::empty(),
    }
}

/// The document with no members.
pub open spec fn empty_object() -> DocumentView {
    DocumentView::Object(Seq::empty())
}

/// The input of a tool call, given what reading its arguments as JSON gave:
/// the document of the value that was read, or the empty object where
/// nothing could be read.
pub open spec fn arguments_document(parsed: Option<JsonView>) -> DocumentView {
    match parsed {
        Some(value) => document_of(value),
        None => empty_object(),
    }
}

/// The input of a tool call whose arguments are the JSON text `arguments`.
/// A text without characters gives the empty object without being read.
pub open spec fn tool_input(arguments: Seq<char>) -> DocumentView {
    if arguments.len() == 0 {
        empty_object()
    } else {
        arguments_document(parsed(arguments))
    }
}

/// The tool-use block of a tool call.
pub open spec fn tool_use_of(call: OpenAIToolCallView) -> ToolUseBlockView {
    ToolUseBlockView {
        tool_use_id: call.id,
        name: call.function.name,
        input: tool_input(call.function.arguments),
    }
}

/// One tool-use block for each call, in order.
pub open spec fn tool_uses(calls: Seq<OpenAIToolCallView>) -> Seq<ContentBlockView> {
    Seq::new(calls.len(), |i: int| ContentBlockView::ToolUse(tool_use_of(calls[i])))
}

/// The backend message of an assistant message that carries tool calls: the
/// texts that are not empty, then the tool calls.
pub open spec fn assistant_with_tools(
    contents: Option<ContentsView>,
    calls: Seq<OpenAIToolCallView>,
) -> BackendMessageView {
    BackendMessageView {
        role: ConversationRole::Assistant,
        content: text_blocks(non_empty(texts_of(contents))) + tool_uses(calls),
    }
}

/// The backend message that answers the tool call `id` with `contents`: one
/// tool result, whose one text is the texts of the contents joined by a
/// space.
pub open spec fn tool_answer(contents: ContentsView, id: Seq<char>) -> BackendMessageView {
    BackendMessageView {
        role: ConversationRole::User,
        content: seq![
            ContentBlockView::ToolResult(
                ToolResultBlockView {
                    tool_use_id: id,
                    content: seq![ToolResultContentBlockView::Text(joined(contents.texts()))],
                },
            ),
        ],
    }
}

/// The tool result that a tool message stands for on its own: one text for
/// each text of its contents. Contents and id must be there and the contents
/// must not be empty.
pub open spec fn tool_result_of(message: MessageView) -> Result<
    ToolResultBlockView,
    TranslationError,
> {
    match message.contents {
        None => Err(TranslationError::MissingContents),
        Some(contents) => match message.tool_call_id {
            None => Err(TranslationError::MissingToolCallId),
            Some(id) => if contents.is_empty() {
                Err(TranslationError::EmptyToolContents)
            } else {
                Ok(
                    ToolResultBlockView {
                        tool_use_id: id,
                        content: result_text_blocks(contents.texts()),
                    },
                )
            },
        },
    }
}

/// The backend message that a message stands for on its own.
pub open spec fn message_of(message: MessageView) -> Result<BackendMessageView, TranslationError> {
    match message.role {
        Role::Assistant => Ok(
            BackendMessageView {
                role: ConversationRole::Assistant,
                content: text_blocks(texts_of(message.contents)) + tool_uses(
                    match message.tool_calls {
                        Some(calls) => calls,
                        None => Seq::empty(),
                    },
                ),
            },
        ),
        Role::Tool => match tool_result_of(message) {
            Err(error) => Err(error),
            Ok(result) => Ok(
                BackendMessageView {
                    role: ConversationRole::User,
                    content: seq![ContentBlockView::ToolResult(result)],
                },
            ),
        },
        _ => match message.contents {
            None => Err(TranslationError::MissingContents),
            Some(contents) => Ok(
                BackendMessageView {
                    role: ConversationRole::User,
                    content: text_blocks(contents.texts()),
                },
            ),
        },
    }
}

/// What one message of a request becomes: no backend message for a system
/// message, one backend message for any other, or the reason why the
/// request is refused.
pub open spec fn translate_message(message: MessageView) -> Result<
    Option<BackendMessageView>,
    TranslationError,
> {
    match message.role {
        Role::System => Ok(None),
        Role::Tool => match message.contents {
            None => Err(TranslationError::MissingContents),
            Some(contents) => match message.tool_call_id {
                None => Err(TranslationError::MissingToolCallId),
                Some(id) => Ok(Some(tool_answer(contents, id))),
            },
        },
        Role::Assistant => match message.tool_calls {
            Some(calls) => Ok(Some(assistant_with_tools(message.contents, calls))),
            None => match message_of(message) {
                Ok(made) => Ok(Some(made)),
                Err(error) => Err(error),
            },
        },
        Role::User => match message_of(message) {
            Ok(made) => Ok(Some(made)),
            Err(error) => Err(error),
        },
    }
}

/// The blocks that one message adds to the system prompt: one for each text
/// of a system message, none for any other message.
pub open spec fn system_group(message: MessageView) -> Seq<SystemContentBlockView> {
    if message.role == Role::System {
        system_text_blocks(texts_of(message.contents))
    } else {
        Seq::empty()
    }
}

/// The system prompt of a conversation: the groups of its messages, in the
/// order of the messages.
pub open spec fn system_blocks(messages: Seq<MessageView>) -> Seq<SystemContentBlockView>
    decreases messages.len(),
{
    if messages.len() == 0 {
        Seq::empty()
    } else {
        system_blocks(messages.drop_last()) + system_group(messages.last())
    }
}

/// The backend messages of a conversation, in the order of the messages, or
/// the reason why the first message that is refused is refused.
pub open spec fn translate_messages(messages: Seq<MessageView>) -> Result<
    Seq<BackendMessageView>,
    TranslationError,
>
    decreases messages.len(),
{
    if messages.len() == 0 {
        Ok(Seq::empty())
    } else {
        match translate_messages(messages.drop_last()) {
            Err(error) => Err(error),
            Ok(before) => match translate_message(messages.last()) {
                Err(error) => Err(error),
                Ok(None) => Ok(before),
                Ok(Some(made)) => Ok(before.push(made)),
            },
        }
    }
}

/// The specification of one tool: its name, its description, and the
/// document of its schema.
pub open spec fn tool_specification_of(tool: OpenAIToolView) -> ToolSpecificationView {
    ToolSpecificationView {
        name: tool.function.name,
        description: tool.function.description,
        input_schema: Some(document_of(tool.function.parameters)),
    }
}

/// The backend's tool choice: `"none"` sets none, `"required"` asks for any
/// tool, a named function asks for that tool; no choice at all, and any other
/// mode, leave the choice to the model.
pub open spec fn tool_choice_of(choice: Option<OpenAIToolChoiceView>) -> Option<ToolChoiceView> {
    match choice {
        None => Some(ToolChoiceView::Auto),
        Some(OpenAIToolChoiceView::String(mode)) => if mode == "none"@ {
            None
        } else if mode == "required"@ {
            Some(ToolChoiceView::Any)
        } else {
            Some(ToolChoiceView::Auto)
        },
        Some(OpenAIToolChoiceView::Object { function, .. }) => Some(ToolChoiceView::Tool(function)),
    }
}

/// The tool configuration for a list of tools. A list without tools is
/// refused.
pub open spec fn tool_configuration_of(
    tools: Seq<OpenAIToolView>,
    choice: Option<OpenAIToolChoiceView>,
) -> Result<ToolConfigurationView, TranslationError> {
    if tools.len() == 0 {
        Err(TranslationError::MissingTools)
    } else {
        Ok(
            ToolConfigurationView {
                tools: Seq::new(tools.len(), |i: int| tool_specification_of(tools[i])),
                tool_choice: tool_choice_of(choice),
            },
        )
    }
}

/// What a request becomes. The messages are translated first, then the
/// tools; the first refusal ends the translation.
pub open spec fn translate_request(request: RequestView) -> Result<
    BedrockChatCompletionView,
    TranslationError,
> {
    match translate_messages(request.messages) {
        Err(error) => Err(error),
        Ok(messages) => match request.tools {
            None => Ok(
                BedrockChatCompletionView {
                    model_id: request.model,
                    system_content_blocks: system_blocks(request.messages),
                    messages,
                    tool_config: None,
                },
            ),
            Some(tools) => match tool_configuration_of(tools, request.tool_choice) {
                Err(error) => Err(error),
                Ok(configuration) => Ok(
                    BedrockChatCompletionView {
                        model_id: request.model,
                        system_content_blocks: system_blocks(request.messages),
                        messages,
                        tool_config: Some(configuration),
                    },
                ),
            },
        },
    }
}

fn text_of(block: &Content) -> (r: &String)
    ensures
        r@ == block.deep_view()->text,
{
    match block {
        Content::Text { text } => text,
    }
}

fn empty_document() -> (r: Document)
    ensures
        r.deep_view() == empty_object(),
        no_key_twice(r.deep_view()),
{
    let members: Vec<(String, Document)> = Vec::new();
    proof {
        lemma_document_object_content(members);
        assert(members.deep_view() =~= Seq::empty());
    }
    Document::Object(members)
}

impl Contents {
    /// One content block for each text of the content.
    pub fn content_blocks(&self) -> (r: Vec<ContentBlock>)
        ensures
            r.deep_view() == text_blocks(self.deep_view().texts()),
    {
        let mut out: Vec<ContentBlock> = Vec::new();
        match self {
            Contents::String(text) => {
                out.push(ContentBlock::Text(text.clone()));
            },
            Contents::Array(blocks) => {
                let mut i: usize = 0;
                while i < blocks.len()
                    invariant
                        i <= blocks.len(),
                        out.len() == i,
                        forall|k: int|
                            0 <= k < i ==> (#[trigger] out[k]).deep_view() == ContentBlockView::Text(
                                blocks[k].deep_view()->text,
                            ),
                    decreases blocks.len() - i,
                {
                    out.push(ContentBlock::Text(text_of(&blocks[i]).clone()));
                    i += 1;
                }
            },
        }
        assert(out.deep_view() =~= text_blocks(self.deep_view().texts()));
        out
    }

    /// One system block for each text of the content.
    pub fn system_content_blocks(&self) -> (r: Vec<SystemContentBlock>)
        ensures
            r.deep_view() == system_text_blocks(self.deep_view().texts()),
    {
        let mut out: Vec<SystemContentBlock> = Vec::new();
        match self {
            Contents::String(text) => {
                out.push(SystemContentBlock::Text(text.clone()));
            },
            Contents::Array(blocks) => {
                let mut i: usize = 0;
                while i < blocks.len()
                    invariant
                        i <= blocks.len(),
                        out.len() == i,
                        forall|k: int|
                            0 <= k < i ==> (#[trigger] out[k]).deep_view()
                                == SystemContentBlockView::Text(blocks[k].deep_view()->text),
                    decreases blocks.len() - i,
                {
                    out.push(SystemContentBlock::Text(text_of(&blocks[i]).clone()));
                    i += 1;
                }
            },
        }
        assert(out.deep_view() =~= system_text_blocks(self.deep_view().texts()));
        out
    }

    /// One tool-result text for each text of the content. Empty content is
    /// refused.
    pub fn tool_result_content_blocks(&self) -> (r: Result<
        Vec<ToolResultContentBlock>,
        TranslationError,
    >)
        ensures
            match r {
                Ok(blocks) => !self.deep_view().is_empty() && blocks.deep_view()
                    == result_text_blocks(self.deep_view().texts()),
                Err(error) => self.deep_view().is_empty() && error
                    == TranslationError::EmptyToolContents,
            },
    {
        if self.is_empty() {
            return Err(TranslationError::EmptyToolContents);
        }
        let mut out: Vec<ToolResultContentBlock> = Vec::new();
        match self {
            Contents::String(text) => {
                out.push(ToolResultContentBlock::Text(text.clone()));
            },
            Contents::Array(blocks) => {
                let mut i: usize = 0;
                while i < blocks.len()
                    invariant
                        i <= blocks.len(),
                        out.len() == i,
                        forall|k: int|
                            0 <= k < i ==> (#[trigger] out[k]).deep_view()
                                == ToolResultContentBlockView::Text(blocks[k].deep_view()->text),
                    decreases blocks.len() - i,
                {
                    out.push(ToolResultContentBlock::Text(text_of(&blocks[i]).clone()));
                    i += 1;
                }
            },
        }
        assert(out.deep_view() =~= result_text_blocks(self.deep_view().texts()));
        Ok(out)
    }

    /// The texts of the content in one, with a space between neighbours.
    pub fn joined_text(&self) -> (r: String)
        ensures
            r@ == joined(self.deep_view().texts()),
    {
        match self {
            Contents::String(text) => text.clone(),
            Contents::Array(blocks) => {
                let ghost texts = self.deep_view().texts();
                let mut out = String::new();
                let mut i: usize = 0;
                assert(texts.take(0) =~= Seq::empty());
                while i < blocks.len()
                    invariant
                        i <= blocks.len(),
                        texts.len() == blocks.len(),
                        forall|k: int|
                            0 <= k < blocks.len() ==> #[trigger] texts[k]
                                == blocks[k].deep_view()->text,
                        out@ == joined(texts.take(i as int)),
                    decreases blocks.len() - i,
                {
                    proof {
                        reveal_strlit(" ");
                        assert(texts.take(i + 1).drop_last() =~= texts.take(i as int));
                        assert(texts.take(i + 1).last() == texts[i as int]);
                        assert(" "@ =~= seq![' ']);
                    }
                    if i > 0 {
                        out.append(" ");
                    }
                    out.append(text_of(&blocks[i]).as_str());
                    proof {
                        if i == 0 {
                            assert(joined(texts.take(0)) =~= Seq::empty());
                            assert(out@ =~= texts[0]);
                        }
                    }
                    i += 1;
                }
                assert(texts.take(blocks.len() as int) =~= texts);
                out
            },
        }
    }
}

/// The input of a tool call, given what reading its arguments gave.
pub fn parsed_arguments_to_document(parsed: Result<JsonValue, String>) -> (r: Document)
    ensures
        r.deep_view() == arguments_document(
            match parsed {
                Ok(value) => Some(value.deep_view()),
                Err(_) => None,
            },
        ),
        (parsed is Ok ==> well_formed(parsed->Ok_0.deep_view())) ==> no_key_twice(r.deep_view()),
{
    match parsed {
        Ok(value) => value_to_document(&value),
        Err(_) => empty_document(),
    }
}

/// The input of a tool call whose arguments are the JSON text `arguments`.
/// Arguments that cannot be read do not fail the call: they give the empty
/// object. No map of the input names a key twice.
pub fn tool_input_document(arguments: &str) -> (r: Document)
    ensures
        r.deep_view() == tool_input(arguments@),
        no_key_twice(r.deep_view()),
{
    if arguments.is_empty() {
        empty_document()
    } else {
        parsed_arguments_to_document(parse_json(arguments))
    }
}

impl ToolUseBlock {
    /// The tool-use block of a tool call. This never fails.
    pub fn try_from(tool_call: &OpenAIToolCall) -> (r: Result<ToolUseBlock, TranslationError>)
        ensures
            r is Ok,
            r->Ok_0.deep_view() == tool_use_of(tool_call.deep_view()),
    {
        let input = tool_input_document(tool_call.function.arguments.as_str());
        Ok(
            ToolUseBlock {
                tool_use_id: tool_call.id.clone(),
                name: tool_call.function.name.clone(),
                input,
            },
        )
    }
}

impl ToolResultBlock {
    /// The tool result that a tool message stands for on its own.
    pub fn try_from(message: &Message) -> (r: Result<ToolResultBlock, TranslationError>)
        ensures
            match r {
                Ok(block) => tool_result_of(message.deep_view()) == Ok::<
                    ToolResultBlockView,
                    TranslationError,
                >(block.deep_view()),
                Err(error) => tool_result_of(message.deep_view()) == Err::<
                    ToolResultBlockView,
                    TranslationError,
                >(error),
            },
    {
        let contents = match &message.contents {
            Some(contents) => contents,
            None => {
                return Err(TranslationError::MissingContents);
            },
        };
        let tool_call_id = match &message.tool_call_id {
            Some(id) => id,
            None => {
                return Err(TranslationError::MissingToolCallId);
            },
        };
        match contents.tool_result_content_blocks() {
            Ok(content) => Ok(ToolResultBlock { tool_use_id: tool_call_id.clone(), content }),
            Err(error) => Err(error),
        }
    }
}

fn tool_use_blocks(calls: &Vec<OpenAIToolCall>, out: &mut Vec<ContentBlock>)
    ensures
        final(out).deep_view() == old(out).deep_view() + tool_uses(calls.deep_view()),
{
    let ghost before = out.deep_view();
    let mut i: usize = 0;
    while i < calls.len()
        invariant
            i <= calls.len(),
            out.len() == before.len() + i,
            forall|k: int| 0 <= k < before.len() ==> (#[trigger] out[k]).deep_view() == before[k],
            forall|j: int|
                before.len() <= j < before.len() + i ==> (#[trigger] out[j]).deep_view()
                    == ContentBlockView::ToolUse(tool_use_of(calls[j - before.len()].deep_view())),
        decreases calls.len() - i,
    {
        match ToolUseBlock::try_from(&calls[i]) {
            Ok(tool_use) => {
                out.push(ContentBlock::ToolUse(tool_use));
            },
            Err(_) => {
                assert(false);
            },
        }
        i += 1;
    }
    assert(out.deep_view() =~= before + tool_uses(calls.deep_view()));
}

impl BackendMessage {
    /// The backend message that a message stands for on its own.
    pub fn try_from(message: &Message) -> (r: Result<BackendMessage, TranslationError>)
        ensures
            match r {
                Ok(made) => message_of(message.deep_view()) == Ok::<
                    BackendMessageView,
                    TranslationError,
                >(made.deep_view()),
                Err(error) => message_of(message.deep_view()) == Err::<
                    BackendMessageView,
                    TranslationError,
                >(error),
            },
    {
        match message.role {
            Role::Assistant => {
                let mut content_blocks: Vec<ContentBlock> = match &message.contents {
                    Some(contents) => contents.content_blocks(),
                    None => Vec::new(),
                };
                assert(content_blocks.deep_view() =~= text_blocks(
                    texts_of(message.deep_view().contents),
                ));
                match &message.tool_calls {
                    Some(tool_calls) => {
                        tool_use_blocks(tool_calls, &mut content_blocks);
                    },
                    None => {
                        assert(content_blocks.deep_view() + tool_uses(Seq::empty())
                            =~= content_blocks.deep_view());
                    },
                }
                Ok(BackendMessage { role: ConversationRole::Assistant, content: content_blocks })
            },
            Role::Tool => match ToolResultBlock::try_from(message) {
                Ok(tool_result) => {
                    let mut content: Vec<ContentBlock> = Vec::new();
                    content.push(ContentBlock::ToolResult(tool_result));
                    assert(content.deep_view() =~= seq![
                        ContentBlockView::ToolResult(tool_result.deep_view()),
                    ]);
                    Ok(BackendMessage { role: ConversationRole::User, content })
                },
                Err(error) => Err(error),
            },
            Role::User | Role::System => match &message.contents {
                Some(contents) => Ok(
                    BackendMessage {
                        role: ConversationRole::User,
                        content: contents.content_blocks(),
                    },
                ),
                None => Err(TranslationError::MissingContents),
            },
        }
    }
}

fn non_empty_text_blocks(contents: &Contents) -> (r: Vec<ContentBlock>)
    ensures
        r.deep_view() == text_blocks(non_empty(contents.deep_view().texts())),
{
    let ghost texts = contents.deep_view().texts();
    let mut out: Vec<ContentBlock> = Vec::new();
    match contents {
        Contents::String(text) => {
            proof {
                assert(texts.drop_last() =~= Seq::empty());
                assert(non_empty(texts.drop_last()) =~= Seq::empty());
            }
            if !text.as_str().is_empty() {
                out.push(ContentBlock::Text(text.clone()));
            }
            assert(out.deep_view() =~= text_blocks(non_empty(texts)));
        },
        Contents::Array(blocks) => {
            let mut i: usize = 0;
            assert(texts.take(0) =~= Seq::empty());
            assert(out.deep_view() =~= text_blocks(non_empty(texts.take(0))));
            while i < blocks.len()
                invariant
                    i <= blocks.len(),
                    texts.len() == blocks.len(),
                    forall|k: int|
                        0 <= k < blocks.len() ==> #[trigger] texts[k]
                            == blocks[k].deep_view()->text,
                    out.deep_view() == text_blocks(non_empty(texts.take(i as int))),
                decreases blocks.len() - i,
            {
                let ghost before = out.deep_view();
                proof {
                    assert(texts.take(i + 1).drop_last() =~= texts.take(i as int));
                    assert(texts.take(i + 1).last() == texts[i as int]);
                }
                let text = text_of(&blocks[i]);
                if !text.as_str().is_empty() {
                    out.push(ContentBlock::Text(text.clone()));
                    assert(out.deep_view() =~= before.push(ContentBlockView::Text(texts[i as int])));
                    assert(before.push(ContentBlockView::Text(texts[i as int])) =~= text_blocks(
                        non_empty(texts.take(i + 1)),
                    ));
                }
                i += 1;
            }
            assert(texts.take(blocks.len() as int) =~= texts);
        },
    }
    out
}

fn assistant_message_with_tool_calls(contents: &Option<Contents>, calls: &Vec<OpenAIToolCall>) -> (r:
    BackendMessage)
    ensures
        r.deep_view() == assistant_with_tools(contents.deep_view(), calls.deep_view()),
{
    let mut content_blocks: Vec<ContentBlock> = match contents {
        Some(contents) => non_empty_text_blocks(contents),
        None => Vec::new(),
    };
    proof {
        if contents is None {
            assert(non_empty(Seq::<Seq<char>>::empty()) =~= Seq::empty());
            assert(content_blocks.deep_view() =~= text_blocks(Seq::empty()));
        }
    }
    tool_use_blocks(calls, &mut content_blocks);
    BackendMessage { role: ConversationRole::Assistant, content: content_blocks }
}

fn tool_answer_message(contents: &Contents, tool_call_id: &String) -> (r: BackendMessage)
    ensures
        r.deep_view() == tool_answer(contents.deep_view(), tool_call_id@),
{
    let mut result_content: Vec<ToolResultContentBlock> = Vec::new();
    result_content.push(ToolResultContentBlock::Text(contents.joined_text()));
    let tool_result = ToolResultBlock { tool_use_id: tool_call_id.clone(), content: result_content };
    assert(tool_result.content.deep_view() =~= seq![
        ToolResultContentBlockView::Text(joined(contents.deep_view().texts())),
    ]);
    let mut content: Vec<ContentBlock> = Vec::new();
    content.push(ContentBlock::ToolResult(tool_result));
    assert(content.deep_view() =~= seq![ContentBlockView::ToolResult(tool_result.deep_view())]);
    BackendMessage { role: ConversationRole::User, content }
}

/// What one message of a request becomes: nothing for a system message, a
/// backend message for any other, or the reason why the request is refused.
pub fn message_to_backend(message: &Message) -> (r: Result<Option<BackendMessage>, TranslationError>)
    ensures
        match r {
            Ok(made) => translate_message(message.deep_view()) == Ok::<
                Option<BackendMessageView>,
                TranslationError,
            >(made.deep_view()),
            Err(error) => translate_message(message.deep_view()) == Err::<
                Option<BackendMessageView>,
                TranslationError,
            >(error),
        },
{
    match message.role {
        Role::System => Ok(None),
        Role::Tool => match &message.contents {
            None => Err(TranslationError::MissingContents),
            Some(contents) => match &message.tool_call_id {
                None => Err(TranslationError::MissingToolCallId),
                Some(tool_call_id) => Ok(Some(tool_answer_message(contents, tool_call_id))),
            },
        },
        Role::Assistant => match &message.tool_calls {
            Some(tool_calls) => Ok(
                Some(assistant_message_with_tool_calls(&message.contents, tool_calls)),
            ),
            None => match BackendMessage::try_from(message) {
                Ok(made) => Ok(Some(made)),
                Err(error) => Err(error),
            },
        },
        Role::User => match BackendMessage::try_from(message) {
            Ok(made) => Ok(Some(made)),
            Err(error) => Err(error),
        },
    }
}

/// The blocks that one message adds to the system prompt.
pub fn system_blocks_of_message(message: &Message) -> (r: Vec<SystemContentBlock>)
    ensures
        r.deep_view() == system_group(message.deep_view()),
{
    match message.role {
        Role::System => match &message.contents {
            Some(contents) => contents.system_content_blocks(),
            None => {
                let none: Vec<SystemContentBlock> = Vec::new();
                assert(none.deep_view() =~= system_text_blocks(Seq::empty()));
                none
            },
        },
        _ => {
            let none: Vec<SystemContentBlock> = Vec::new();
            assert(none.deep_view() =~= Seq::empty());
            none
        },
    }
}

/// Once a message is refused, the conversation is refused for the same
/// reason, whatever follows.
pub proof fn lemma_refusal_persists(messages: Seq<MessageView>, upto: int)
    requires
        0 <= upto <= messages.len(),
        translate_messages(messages.take(upto)) is Err,
    ensures
        translate_messages(messages) == translate_messages(messages.take(upto)),
    decreases messages.len() - upto,
{
    if upto < messages.len() {
        assert(messages.take(upto + 1).drop_last() =~= messages.take(upto));
        lemma_refusal_persists(messages, upto + 1);
    } else {
        assert(messages.take(upto) =~= messages);
    }
}

fn tool_choice_to_bedrock(openai_tool_choice: &Option<OpenAIToolChoice>) -> (r: Option<ToolChoice>)
    ensures
        r.deep_view() == tool_choice_of(openai_tool_choice.deep_view()),
{
    match openai_tool_choice {
        Some(OpenAIToolChoice::String(mode)) => {
            if str_equals(mode.as_str(), "none") {
                None
            } else if str_equals(mode.as_str(), "required") {
                Some(ToolChoice::Any)
            } else {
                Some(ToolChoice::Auto)
            }
        },
        Some(OpenAIToolChoice::Object { function, .. }) => Some(
            ToolChoice::Tool(SpecificToolChoice { name: function.name.clone() }),
        ),
        None => Some(ToolChoice::Auto),
    }
}

/// The backend's tool configuration for the tools of a request.
pub fn openai_tools_to_bedrock_tool_config(
    openai_tools: &Vec<OpenAITool>,
    openai_tool_choice: &Option<OpenAIToolChoice>,
) -> (r: Result<ToolConfiguration, TranslationError>)
    ensures
        match r {
            Ok(made) => tool_configuration_of(
                openai_tools.deep_view(),
                openai_tool_choice.deep_view(),
            ) == Ok::<ToolConfigurationView, TranslationError>(made.deep_view()),
            Err(error) => tool_configuration_of(
                openai_tools.deep_view(),
                openai_tool_choice.deep_view(),
            ) == Err::<ToolConfigurationView, TranslationError>(error),
        },
{
    let mut tools: Vec<Tool> = Vec::new();
    let mut i: usize = 0;
    while i < openai_tools.len()
        invariant
            i <= openai_tools.len(),
            tools.len() == i,
            forall|k: int|
                0 <= k < i ==> (#[trigger] tools[k]).deep_view() == tool_specification_of(
                    openai_tools[k].deep_view(),
                ),
        decreases openai_tools.len() - i,
    {
        let openai_tool = &openai_tools[i];
        let tool_spec = ToolSpecification {
            name: openai_tool.function.name.clone(),
            description: match &openai_tool.function.description {
                Some(description) => Some(description.clone()),
                None => None,
            },
            input_schema: Some(
                ToolInputSchema::Json(value_to_document(&openai_tool.function.parameters)),
            ),
        };
        tools.push(Tool::ToolSpec(tool_spec));
        i += 1;
    }
    if tools.len() == 0 {
        return Err(TranslationError::MissingTools);
    }
    let tool_choice = tool_choice_to_bedrock(openai_tool_choice);
    assert(tools.deep_view() =~= Seq::new(
        openai_tools.deep_view().len(),
        |i: int| tool_specification_of(openai_tools.deep_view()[i]),
    ));
    Ok(ToolConfiguration { tools, tool_choice })
}

/// Translates a chat-completions request into a request to the backend.
///
/// The messages are taken in order. A tool message without contents or
/// without the id of its call, and a user message without contents, refuse
/// the request; so does a list of tools without a tool. Tool-call arguments
/// that are no JSON do not: their input is the empty object.
pub fn process_chat_completions_request_to_bedrock_chat_completion(
    request: &ChatCompletionsRequest,
) -> (r: Result<BedrockChatCompletion, TranslationError>)
    ensures
        match r {
            Ok(made) => translate_request(request.deep_view()) == Ok::<
                BedrockChatCompletionView,
                TranslationError,
            >(made.deep_view()),
            Err(error) => translate_request(request.deep_view()) == Err::<
                BedrockChatCompletionView,
                TranslationError,
            >(error),
        },
{
    let mut system_content_blocks: Vec<SystemContentBlock> = Vec::new();
    let mut messages: Vec<BackendMessage> = Vec::new();
    let model_id = request.model.clone();
    let ghost all = request.messages.deep_view();
    let mut i: usize = 0;
    proof {
        assert(all.take(0) =~= Seq::empty());
        assert(messages.deep_view() =~= Seq::empty());
        assert(system_content_blocks.deep_view() =~= Seq::empty());
    }
    while i < request.messages.len()
        invariant
            i <= request.messages.len(),
            all == request.messages.deep_view(),
            translate_messages(all.take(i as int)) == Ok::<
                Seq<BackendMessageView>,
                TranslationError,
            >(messages.deep_view()),
            system_content_blocks.deep_view() == system_blocks(all.take(i as int)),
        decreases request.messages.len() - i,
    {
        let request_message = &request.messages[i];
        let ghost system_before = system_content_blocks.deep_view();
        let ghost messages_before = messages.deep_view();
        proof {
            assert(all.take(i + 1).drop_last() =~= all.take(i as int));
            assert(all.take(i + 1).last() == request_message.deep_view());
        }
        let mut group = system_blocks_of_message(request_message);
        let ghost group_view = group.deep_view();
        system_content_blocks.append(&mut group);
        assert(system_content_blocks.deep_view() =~= system_before + group_view);
        match message_to_backend(request_message) {
            Ok(Some(made)) => {
                messages.push(made);
                assert(messages.deep_view() =~= messages_before.push(made.deep_view()));
            },
            Ok(None) => {},
            Err(error) => {
                proof {
                    lemma_refusal_persists(all, i + 1);
                }
                return Err(error);
            },
        }
        i += 1;
    }
    assert(all.take(request.messages.len() as int) =~= all);
    let tool_config = match &request.tools {
        Some(tools) => match openai_tools_to_bedrock_tool_config(tools, &request.tool_choice) {
            Ok(configuration) => Some(configuration),
            Err(error) => {
                return Err(error);
            },
        },
        None => None,
    };
    Ok(BedrockChatCompletion { model_id, system_content_blocks, messages, tool_config })
}

/// The number of messages that are no system messages.
pub open spec fn spoken(messages: Seq<MessageView>) -> nat
    decreases messages.len(),
{
    if messages.len() == 0 {
        0
    } else if messages.last().role == Role::System {
        spoken(messages.drop_last())
    } else {
        spoken(messages.drop_last()) + 1
    }
}

/// A system message becomes no backend message, whatever it holds.
pub proof fn lemma_system_message_gives_no_backend_message(message: MessageView)
    requires
        message.role == Role::System,
    ensures
        translate_message(message) == Ok::<Option<BackendMessageView>, TranslationError>(None),
{
}

/// The system prompt grows by the group of each message, in the order of the
/// messages: by one block for each text of a system message, by nothing for
/// any other message.
pub proof fn lemma_system_prompt_by_message(messages: Seq<MessageView>, message: MessageView)
    ensures
        system_blocks(messages.push(message)) == system_blocks(messages) + system_group(message),
        message.role == Role::System ==> system_group(message) == system_text_blocks(
            texts_of(message.contents),
        ),
        message.role != Role::System ==> system_blocks(messages.push(message)) == system_blocks(
            messages,
        ),
{
    assert(messages.push(message).drop_last() =~= messages);
    assert(system_blocks(messages) + Seq::<SystemContentBlockView>::empty() =~= system_blocks(
        messages,
    ));
}

/// The system prompt of two stretches of a conversation, one after the
/// other, is the system prompt of the first followed by that of the second:
/// the order of the system messages is the order of their blocks.
pub proof fn lemma_system_prompt_in_order(first: Seq<MessageView>, second: Seq<MessageView>)
    ensures
        system_blocks(first + second) == system_blocks(first) + system_blocks(second),
    decreases second.len(),
{
    if second.len() == 0 {
        assert(first + second =~= first);
        assert(system_blocks(first) + system_blocks(second) =~= system_blocks(first));
    } else {
        lemma_system_prompt_in_order(first, second.drop_last());
        assert((first + second).drop_last() =~= first + second.drop_last());
        assert((first + second).last() == second.last());
        assert(system_blocks(first + second) =~= system_blocks(first) + system_blocks(second));
    }
}

/// A request that is translated gives one backend message for each message
/// that is no system message, and none for a system message.
pub proof fn lemma_backend_messages_count(messages: Seq<MessageView>)
    requires
        translate_messages(messages) is Ok,
    ensures
        translate_messages(messages)->Ok_0.len() == spoken(messages),
    decreases messages.len(),
{
    if messages.len() > 0 {
        lemma_backend_messages_count(messages.drop_last());
    }
}

/// What a translated request holds of its system messages: the system prompt
/// is made of their groups in order, and the backend messages are as many as
/// the other messages.
pub proof fn lemma_system_messages_of_request(request: RequestView)
    requires
        translate_request(request) is Ok,
    ensures
        translate_request(request)->Ok_0.system_content_blocks == system_blocks(request.messages),
        translate_request(request)->Ok_0.messages.len() == spoken(request.messages),
{
    lemma_backend_messages_count(request.messages);
}

/// `non_empty` keeps exactly the texts that have a character: it is the
/// filter by that property.
pub proof fn lemma_non_empty_is_filter(texts: Seq<Seq<char>>)
    ensures
        non_empty(texts) == texts.filter(|text: Seq<char>| text.len() > 0),
    decreases texts.len(),
{
    reveal(Seq::filter);
    if texts.len() > 0 {
        lemma_non_empty_is_filter(texts.drop_last());
    }
}

/// Every text of `non_empty(texts)` has a character, and there is one exactly
/// when some text of `texts` has a character.
pub proof fn lemma_non_empty(texts: Seq<Seq<char>>)
    ensures
        forall|i: int| 0 <= i < non_empty(texts).len() ==> (#[trigger] non_empty(texts)[i]).len() > 0,
        non_empty(texts).len() > 0 <==> exists|k: int|
            0 <= k < texts.len() && (#[trigger] texts[k]).len() > 0,
    decreases texts.len(),
{
    if texts.len() > 0 {
        let before = texts.drop_last();
        lemma_non_empty(before);
        if texts.last().len() > 0 {
            assert(texts[texts.len() - 1].len() > 0);
        } else if non_empty(texts).len() > 0 {
            let k = choose|k: int| 0 <= k < before.len() && (#[trigger] before[k]).len() > 0;
            assert(texts[k] == before[k]);
        } else {
            assert forall|k: int| 0 <= k < texts.len() implies !((#[trigger] texts[k]).len()
                > 0) by {
                if k < before.len() {
                    assert(before[k] == texts[k]);
                }
            }
        }
    }
}

/// An assistant message with tool calls becomes an assistant message whose
/// content ends with exactly one tool-use block for each call, in the order
/// of the calls. Before them stand the texts of the message that have a
/// character, and nothing else: so the message opens with a text block
/// exactly when some text of the message has a character.
pub proof fn lemma_assistant_tool_calls(message: MessageView)
    requires
        message.role == Role::Assistant,
        message.tool_calls is Some,
        message.tool_calls->0.len() > 0,
    ensures
        translate_message(message) is Ok,
        translate_message(message)->Ok_0 is Some,
        ({
            let made = translate_message(message)->Ok_0->0;
            let calls = message.tool_calls->0;
            let texts = non_empty(texts_of(message.contents));
            &&& made.role == ConversationRole::Assistant
            &&& made.content.len() == texts.len() + calls.len()
            &&& forall|i: int|
                0 <= i < texts.len() ==> #[trigger] made.content[i] == ContentBlockView::Text(
                    texts[i],
                )
            &&& forall|i: int|
                0 <= i < calls.len() ==> #[trigger] made.content[texts.len() + i]
                    == ContentBlockView::ToolUse(tool_use_of(calls[i]))
            &&& (made.content[0] is Text <==> exists|k: int|
                0 <= k < texts_of(message.contents).len() && (#[trigger] texts_of(
                    message.contents,
                )[k]).len() > 0)
        }),
{
    lemma_non_empty(texts_of(message.contents));
    let made = translate_message(message)->Ok_0->0;
    let calls = message.tool_calls->0;
    let texts = non_empty(texts_of(message.contents));
    if texts.len() == 0 {
        assert(made.content[0] == ContentBlockView::ToolUse(tool_use_of(calls[0])));
    }
}

/// A tool message that does not name its call refuses the whole request.
pub proof fn lemma_tool_message_without_call_id(request: RequestView, at: int)
    requires
        0 <= at < request.messages.len(),
        request.messages[at].role == Role::Tool,
        request.messages[at].tool_call_id is None,
    ensures
        translate_request(request) is Err,
        translate_message(request.messages[at]) is Err,
{
    let upto = request.messages.take(at + 1);
    assert(upto.last() == request.messages[at]);
    assert(translate_messages(upto) is Err);
    lemma_refusal_persists(request.messages, at + 1);
}

} // verus!
