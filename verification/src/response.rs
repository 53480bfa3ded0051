//! Streaming response chunks, their builders, and the translation of one
//! backend stream event into one chunk.

use crate::converse::{
    ContentBlockDelta, ContentBlockDeltaView, ContentBlockStart, ContentBlockStartView,
    ConversationRole, ConverseStreamOutput, ConverseStreamOutputView, StopReason, TokenUsage,
    ToolUseBlockDelta, ToolUseBlockStart, ToolUseBlockStartView,
};
use vstd::prelude::*;

verus! {

/// One streamed chat-completion chunk.
#[derive(Debug, PartialEq)]
pub struct ChatCompletionsResponse {
    pub choices: Vec<Choice>,
    pub created: Option<i64>,
    pub id: Option<String>,
    pub model: Option<String>,
    pub object: Option<String>,
    pub usage: Option<Usage>,
}

/// One alternative of a chunk. The library only ever makes one per chunk.
#[derive(Debug, PartialEq)]
pub struct Choice {
    pub delta: Option<Delta>,
    pub finish_reason: Option<String>,
    pub index: i32,
    pub logprobs: Option<String>,
}

/// What a chunk adds to the message.
#[derive(Debug, PartialEq)]
pub struct Delta {
    pub content: Option<String>,
    pub role: Option<String>,
    pub tool_calls: Option<Vec<ToolCall>>,
}

/// A tool call, or a fragment of one, in a delta.
#[derive(Debug, PartialEq)]
pub struct ToolCall {
    pub id: Option<String>,
    pub tool_type: String,
    pub function: Option<Function>,
    pub index: Option<i32>,
}

/// The function of a tool call: its name, and a fragment of its arguments.
#[derive(Debug, PartialEq)]
pub struct Function {
    pub name: Option<String>,
    pub arguments: Option<String>,
}

/// Token accounting of one completion.
#[derive(Clone, Copy, Debug, PartialEq, Eq, Structural)]
pub struct Usage {
    pub completion_tokens: i32,
    pub prompt_tokens: i32,
    pub total_tokens: i32,
}

impl Usage {
    /// No count is negative.
    pub open spec fn well_formed(self) -> bool {
        self.completion_tokens >= 0 && self.prompt_tokens >= 0 && self.total_tokens >= 0
    }
}

impl Default for Usage {
    fn default() -> (r: Usage)
        ensures
            r == (Usage { completion_tokens: 0, prompt_tokens: 0, total_tokens: 0 }),
    {
        Usage { completion_tokens: 0, prompt_tokens: 0, total_tokens: 0 }
    }
}

/// The content of a [`Function`].
pub struct FunctionView {
    pub name: Option<Seq<char>>,
    pub arguments: Option<Seq<char>>,
}

/// The content of a [`ToolCall`].
pub struct ToolCallView {
    pub id: Option<Seq<char>>,
    pub tool_type: Seq<char>,
    pub function: Option<FunctionView>,
    pub index: Option<i32>,
}

/// The content of a [`Delta`].
pub struct DeltaView {
    pub content: Option<Seq<char>>,
    pub role: Option<Seq<char>>,
    pub tool_calls: Option<Seq<ToolCallView>>,
}

/// The content of a [`Choice`].
pub struct ChoiceView {
    pub delta: Option<DeltaView>,
    pub finish_reason: Option<Seq<char>>,
    pub index: i32,
    pub logprobs: Option<Seq<char>>,
}

/// The content of a [`ChatCompletionsResponse`], and of the builder that
/// collects one.
pub struct ResponseView {
    pub choices: Seq<ChoiceView>,
    pub created: Option<i64>,
    pub id: Option<Seq<char>>,
    pub model: Option<Seq<char>>,
    pub object: Option<Seq<char>>,
    pub usage: Option<Usage>,
}

impl DeepView for Function {
    type V = FunctionView;

    open spec fn deep_view(&self) -> FunctionView {
        FunctionView { name: self.name.deep_view(), arguments: self.arguments.deep_view() }
    }
}

impl DeepView for ToolCall {
    type V = ToolCallView;

    open spec fn deep_view(&self) -> ToolCallView {
        ToolCallView {
            id: self.id.deep_view(),
            tool_type: self.tool_type@,
            function: self.function.deep_view(),
            index: self.index,
        }
    }
}

impl DeepView for Delta {
    type V = DeltaView;

    open spec fn deep_view(&self) -> DeltaView {
        DeltaView {
            content: self.content.deep_view(),
            role: self.role.deep_view(),
            tool_calls: self.tool_calls.deep_view(),
        }
    }
}

impl DeepView for Choice {
    type V = ChoiceView;

    open spec fn deep_view(&self) -> ChoiceView {
        ChoiceView {
            delta: self.delta.deep_view(),
            finish_reason: self.finish_reason.deep_view(),
            index: self.index,
            logprobs: self.logprobs.deep_view(),
        }
    }
}

impl DeepView for ChatCompletionsResponse {
    type V = ResponseView;

    open spec fn deep_view(&self) -> ResponseView {
        ResponseView {
            choices: self.choices.deep_view(),
            created: self.created,
            id: self.id.deep_view(),
            model: self.model.deep_view(),
            object: self.object.deep_view(),
            usage: self.usage,
        }
    }
}

/// A delta that says nothing.
pub open spec fn empty_delta() -> DeltaView {
    DeltaView { content: None, role: None, tool_calls: None }
}

/// The choice that stands in for a chunk that has none of its own.
pub open spec fn placeholder_choice() -> ChoiceView {
    ChoiceView { delta: Some(empty_delta()), finish_reason: None, index: 0, logprobs: None }
}

/// What [`ChatCompletionsResponseBuilder::build`] makes of what was collected:
/// the same chunk, with the placeholder choice where no choice was given.
pub open spec fn built(collected: ResponseView) -> ResponseView {
    ResponseView {
        choices: if collected.choices.len() == 0 {
            seq![placeholder_choice()]
        } else {
            collected.choices
        },
        ..collected
    }
}

impl ChatCompletionsResponse {
    /// A builder that has collected nothing yet.
    pub fn builder() -> (r: ChatCompletionsResponseBuilder)
        ensures
            r.deep_view() == (ResponseView {
                choices: Seq::empty(),
                created: None,
                id: None,
                model: None,
                object: None,
                usage: None,
            }),
    {
        let r = ChatCompletionsResponseBuilder {
            choices: Vec::new(),
            created: None,
            id: None,
            model: None,
            object: None,
            usage: None,
        };
        assert(r.choices.deep_view() =~= Seq::empty());
        r
    }
}

/// Collects the parts of a chunk.
pub struct ChatCompletionsResponseBuilder {
    choices: Vec<Choice>,
    created: Option<i64>,
    id: Option<String>,
    model: Option<String>,
    object: Option<String>,
    usage: Option<Usage>,
}

impl DeepView for ChatCompletionsResponseBuilder {
    type V = ResponseView;

    closed spec fn deep_view(&self) -> ResponseView {
        ResponseView {
            choices: self.choices.deep_view(),
            created: self.created,
            id: self.id.deep_view(),
            model: self.model.deep_view(),
            object: self.object.deep_view(),
            usage: self.usage,
        }
    }
}

impl ChatCompletionsResponseBuilder {
    /// Adds a choice after those that are there.
    pub fn choice(self, choice: Choice) -> (r: Self)
        ensures
            r.deep_view() == (ResponseView {
                choices: self.deep_view().choices.push(choice.deep_view()),
                ..self.deep_view()
            }),
    {
        let mut builder = self;
        builder.choices.push(choice);
        assert(builder.choices.deep_view() =~= self.choices.deep_view().push(choice.deep_view()));
        builder
    }

    /// Sets the creation time.
    pub fn created(self, created: Option<i64>) -> (r: Self)
        ensures
            r.deep_view() == (ResponseView { created, ..self.deep_view() }),
    {
        let mut builder = self;
        builder.created = created;
        builder
    }

    /// Sets the id.
    pub fn id(self, id: Option<String>) -> (r: Self)
        ensures
            r.deep_view() == (ResponseView { id: id.deep_view(), ..self.deep_view() }),
    {
        let mut builder = self;
        builder.id = id;
        builder
    }

    /// Sets the model.
    pub fn model(self, model: Option<String>) -> (r: Self)
        ensures
            r.deep_view() == (ResponseView { model: model.deep_view(), ..self.deep_view() }),
    {
        let mut builder = self;
        builder.model = model;
        builder
    }

    /// Sets the object tag.
    pub fn object(self, object: Option<String>) -> (r: Self)
        ensures
            r.deep_view() == (ResponseView { object: object.deep_view(), ..self.deep_view() }),
    {
        let mut builder = self;
        builder.object = object;
        builder
    }

    /// Sets the usage.
    pub fn usage(self, usage: Option<Usage>) -> (r: Self)
        ensures
            r.deep_view() == (ResponseView { usage, ..self.deep_view() }),
    {
        let mut builder = self;
        builder.usage = usage;
        builder
    }

    /// The chunk collected so far. A chunk always carries at least one
    /// choice: where none was given, the placeholder choice stands in.
    pub fn build(self) -> (r: ChatCompletionsResponse)
        ensures
            r.deep_view() == built(self.deep_view()),
            r.choices.len() >= 1,
    {
        let mut choices = self.choices;
        if choices.is_empty() {
            choices.push(
                Choice {
                    delta: Some(Delta { content: None, role: None, tool_calls: None }),
                    finish_reason: None,
                    index: 0,
                    logprobs: None,
                },
            );
            assert(choices.deep_view() =~= seq![placeholder_choice()]);
        }
        ChatCompletionsResponse {
            choices,
            created: self.created,
            id: self.id,
            model: self.model,
            object: self.object,
            usage: self.usage,
        }
    }
}

/// Collects the parts of a choice.
pub struct ChoiceBuilder {
    pub delta: Option<Delta>,
    pub finish_reason: Option<String>,
    pub index: i32,
    pub logprobs: Option<String>,
}

impl DeepView for ChoiceBuilder {
    type V = ChoiceView;

    open spec fn deep_view(&self) -> ChoiceView {
        ChoiceView {
            delta: self.delta.deep_view(),
            finish_reason: self.finish_reason.deep_view(),
            index: self.index,
            logprobs: self.logprobs.deep_view(),
        }
    }
}

impl Default for ChoiceBuilder {
    fn default() -> (r: ChoiceBuilder)
        ensures
            r.deep_view() == (ChoiceView {
                delta: None,
                finish_reason: None,
                index: 0,
                logprobs: None,
            }),
    {
        ChoiceBuilder { delta: None, finish_reason: None, index: 0, logprobs: None }
    }
}

impl ChoiceBuilder {
    /// Sets the delta.
    pub fn delta(self, delta: Option<Delta>) -> (r: Self)
        ensures
            r.deep_view() == (ChoiceView { delta: delta.deep_view(), ..self.deep_view() }),
    {
        let mut builder = self;
        builder.delta = delta;
        builder
    }

    /// Sets the finish reason.
    pub fn finish_reason(self, reason: Option<String>) -> (r: Self)
        ensures
            r.deep_view() == (ChoiceView { finish_reason: reason.deep_view(), ..self.deep_view() }),
    {
        let mut builder = self;
        builder.finish_reason = reason;
        builder
    }

    /// Sets the index.
    pub fn index(self, index: i32) -> (r: Self)
        ensures
            r.deep_view() == (ChoiceView { index, ..self.deep_view() }),
    {
        let mut builder = self;
        builder.index = index;
        builder
    }

    /// Sets the log probabilities.
    pub fn logprobs(self, logprobs: Option<String>) -> (r: Self)
        ensures
            r.deep_view() == (ChoiceView { logprobs: logprobs.deep_view(), ..self.deep_view() }),
    {
        let mut builder = self;
        builder.logprobs = logprobs;
        builder
    }

    /// The choice collected so far.
    pub fn build(self) -> (r: Choice)
        ensures
            r.deep_view() == self.deep_view(),
    {
        Choice {
            delta: self.delta,
            finish_reason: self.finish_reason,
            index: self.index,
            logprobs: self.logprobs,
        }
    }
}

/// Collects the counts of a usage.
#[derive(Clone, Copy, Debug, PartialEq, Eq, Structural)]
pub struct UsageBuilder {
    pub completion_tokens: i32,
    pub prompt_tokens: i32,
    pub total_tokens: i32,
}

impl Default for UsageBuilder {
    fn default() -> (r: UsageBuilder)
        ensures
            r == (UsageBuilder { completion_tokens: 0, prompt_tokens: 0, total_tokens: 0 }),
    {
        UsageBuilder { completion_tokens: 0, prompt_tokens: 0, total_tokens: 0 }
    }
}

impl UsageBuilder {
    /// Sets the number of tokens of the completion.
    pub fn completion_tokens(self, tokens: i32) -> (r: Self)
        ensures
            r == (UsageBuilder { completion_tokens: tokens, ..self }),
    {
        let mut builder = self;
        builder.completion_tokens = tokens;
        builder
    }

    /// Sets the number of tokens of the prompt.
    pub fn prompt_tokens(self, tokens: i32) -> (r: Self)
        ensures
            r == (UsageBuilder { prompt_tokens: tokens, ..self }),
    {
        let mut builder = self;
        builder.prompt_tokens = tokens;
        builder
    }

    /// Sets the number of tokens in all.
    pub fn total_tokens(self, tokens: i32) -> (r: Self)
        ensures
            r == (UsageBuilder { total_tokens: tokens, ..self }),
    {
        let mut builder = self;
        builder.total_tokens = tokens;
        builder
    }

    /// The usage collected so far.
    pub fn build(self) -> (r: Usage)
        ensures
            r == (Usage {
                completion_tokens: self.completion_tokens,
                prompt_tokens: self.prompt_tokens,
                total_tokens: self.total_tokens,
            }),
    {
        Usage {
            prompt_tokens: self.prompt_tokens,
            completion_tokens: self.completion_tokens,
            total_tokens: self.total_tokens,
        }
    }
}

/// The tool call that announces a tool-use block: its id and name, with no
/// argument text yet.
pub open spec fn tool_call_of_start(start: ToolUseBlockStartView, index: i32) -> ToolCallView {
    ToolCallView {
        id: Some(start.tool_use_id),
        tool_type: "function"@,
        function: Some(FunctionView { name: Some(start.name), arguments: Some(Seq::empty()) }),
        index: Some(index),
    }
}

/// The tool call that carries one fragment of argument text.
pub open spec fn tool_call_of_delta(input: Seq<char>, index: i32) -> ToolCallView {
    ToolCallView {
        id: None,
        tool_type: "function"@,
        function: Some(FunctionView { name: None, arguments: Some(input) }),
        index: Some(index),
    }
}

/// The `finish_reason` that each stop reason of the backend maps to.
pub open spec fn finish_reason_of(reason: StopReason) -> Seq<char> {
    match reason {
        StopReason::EndTurn => "stop"@,
        StopReason::ToolUse => "tool_calls"@,
        StopReason::MaxTokens => "length"@,
        _ => "stop"@,
    }
}

/// The delta that an event produces, if it produces one.
pub open spec fn event_delta(event: ConverseStreamOutputView) -> Option<DeltaView> {
    match event {
        ConverseStreamOutputView::MessageStart { role: ConversationRole::Assistant } => Some(
            DeltaView { content: Some(Seq::empty()), role: Some("assistant"@), tool_calls: None },
        ),
        ConverseStreamOutputView::MessageStart { .. } => None,
        ConverseStreamOutputView::ContentBlockStart {
            start: Some(ContentBlockStartView::ToolUse(start)),
            ..
        } => Some(
            DeltaView {
                content: None,
                role: None,
                tool_calls: Some(seq![tool_call_of_start(start, 0)]),
            },
        ),
        ConverseStreamOutputView::ContentBlockDelta {
            delta: Some(ContentBlockDeltaView::Text(text)),
            ..
        } => Some(DeltaView { content: Some(text), role: None, tool_calls: None }),
        ConverseStreamOutputView::ContentBlockDelta {
            delta: Some(ContentBlockDeltaView::ToolUse(input)),
            ..
        } => Some(
            DeltaView {
                content: None,
                role: None,
                tool_calls: Some(seq![tool_call_of_delta(input, 0)]),
            },
        ),
        _ => Some(empty_delta()),
    }
}

/// The `finish_reason` that an event produces: one for each end of message,
/// none for any other event.
pub open spec fn event_finish_reason(event: ConverseStreamOutputView) -> Option<Seq<char>> {
    match event {
        ConverseStreamOutputView::MessageStop { stop_reason } => Some(finish_reason_of(stop_reason)),
        _ => None,
    }
}

/// The usage that the backend counted.
pub open spec fn usage_of(counted: TokenUsage) -> Usage {
    Usage {
        completion_tokens: counted.output_tokens,
        prompt_tokens: counted.input_tokens,
        total_tokens: counted.total_tokens,
    }
}

/// The usage that an event reports: that of a metadata event that carries
/// one, none for any other event.
pub open spec fn event_usage(event: ConverseStreamOutputView) -> Option<Usage> {
    match event {
        ConverseStreamOutputView::Metadata { usage: Some(counted) } => Some(usage_of(counted)),
        _ => None,
    }
}

/// The one choice of the chunk that an event produces.
pub open spec fn event_choice(event: ConverseStreamOutputView) -> ChoiceView {
    ChoiceView {
        delta: event_delta(event),
        finish_reason: event_finish_reason(event),
        index: 0,
        logprobs: None,
    }
}

/// What is collected for one event: one choice, the object tag of a chunk,
/// and the usage if the event reports it. Id, creation time and model are
/// left to the stream that the event belongs to.
pub open spec fn event_chunk(event: ConverseStreamOutputView) -> ResponseView {
    ResponseView {
        choices: seq![event_choice(event)],
        created: None,
        id: None,
        model: None,
        object: Some("chat.completion.chunk"@),
        usage: event_usage(event),
    }
}

fn tool_use_block_delta_to_tool_call(tool_use_block_delta: &ToolUseBlockDelta, index: i32) -> (r:
    ToolCall)
    ensures
        r.deep_view() == tool_call_of_delta(tool_use_block_delta.input@, index),
{
    ToolCall {
        id: None,
        tool_type: "function".to_owned(),
        function: Some(Function { name: None, arguments: Some(tool_use_block_delta.input.clone()) }),
        index: Some(index),
    }
}

fn tool_use_block_start_to_tool_call(tool_use_block_start: &ToolUseBlockStart, index: i32) -> (r:
    ToolCall)
    ensures
        r.deep_view() == tool_call_of_start(tool_use_block_start.deep_view(), index),
{
    ToolCall {
        id: Some(tool_use_block_start.tool_use_id.clone()),
        tool_type: "function".to_owned(),
        function: Some(
            Function { name: Some(tool_use_block_start.name.clone()), arguments: Some(String::new()) },
        ),
        index: Some(index),
    }
}

fn delta_of_event(output: &ConverseStreamOutput) -> (r: Option<Delta>)
    ensures
        r.deep_view() == event_delta(output.deep_view()),
{
    match output {
        ConverseStreamOutput::MessageStart(event) => match event.role {
            ConversationRole::Assistant => Some(
                Delta {
                    content: Some(String::new()),
                    role: Some("assistant".to_owned()),
                    tool_calls: None,
                },
            ),
            _ => None,
        },
        ConverseStreamOutput::ContentBlockStart(event) => match &event.start {
            Some(ContentBlockStart::ToolUse(tool_use)) => {
                let mut calls: Vec<ToolCall> = Vec::new();
                calls.push(tool_use_block_start_to_tool_call(tool_use, 0));
                assert(calls.deep_view() =~= seq![
                    tool_call_of_start(tool_use.deep_view(), 0),
                ]);
                Some(Delta { content: None, role: None, tool_calls: Some(calls) })
            },
            _ => Some(Delta { content: None, role: None, tool_calls: None }),
        },
        ConverseStreamOutput::ContentBlockDelta(event) => match &event.delta {
            Some(ContentBlockDelta::Text(text)) => Some(
                Delta { content: Some(text.clone()), role: None, tool_calls: None },
            ),
            Some(ContentBlockDelta::ToolUse(tool_use)) => {
                let mut calls: Vec<ToolCall> = Vec::new();
                calls.push(tool_use_block_delta_to_tool_call(tool_use, 0));
                assert(calls.deep_view() =~= seq![tool_call_of_delta(tool_use.input@, 0)]);
                Some(Delta { content: None, role: None, tool_calls: Some(calls) })
            },
            _ => Some(Delta { content: None, role: None, tool_calls: None }),
        },
        _ => Some(Delta { content: None, role: None, tool_calls: None }),
    }
}

/// The `finish_reason` for a stop reason of the backend.
pub fn finish_reason_for(reason: StopReason) -> (r: String)
    ensures
        r@ == finish_reason_of(reason),
{
    match reason {
        StopReason::EndTurn => "stop".to_owned(),
        StopReason::ToolUse => "tool_calls".to_owned(),
        StopReason::MaxTokens => "length".to_owned(),
        _ => "stop".to_owned(),
    }
}

/// The usage that an event reports, if it reports one.
pub fn usage_of_event(output: &ConverseStreamOutput) -> (r: Option<Usage>)
    ensures
        r == event_usage(output.deep_view()),
{
    match output {
        ConverseStreamOutput::Metadata(event) => match event.usage {
            Some(counted) => Some(
                UsageBuilder::default().completion_tokens(counted.output_tokens).prompt_tokens(
                    counted.input_tokens,
                ).total_tokens(counted.total_tokens).build(),
            ),
            None => None,
        },
        _ => None,
    }
}

/// Translates one event of the backend's stream into the builder of one
/// chunk. Every event gives exactly one choice, with index 0. Where the event
/// reports usage, `usage_callback` is called with it, once, before the
/// builder is returned.
pub fn converse_stream_output_to_chat_completions_response_builder<F: Fn(&Usage)>(
    output: &ConverseStreamOutput,
    usage_callback: &F,
) -> (builder: ChatCompletionsResponseBuilder)
    requires
        forall|usage: &Usage| call_requires(*usage_callback, (usage,)),
    ensures
        builder.deep_view() == event_chunk(output.deep_view()),
        built(builder.deep_view()) == builder.deep_view(),
{
    let builder = ChatCompletionsResponse::builder().object(
        Some("chat.completion.chunk".to_owned()),
    );
    let finish_reason = match output {
        ConverseStreamOutput::MessageStop(event) => Some(finish_reason_for(event.stop_reason)),
        _ => None,
    };
    let choice = ChoiceBuilder::default().delta(delta_of_event(output)).finish_reason(
        finish_reason,
    ).index(0).build();
    let usage = usage_of_event(output);
    match &usage {
        Some(reported) => {
            usage_callback(reported);
        },
        None => {},
    }
    let builder = builder.choice(choice).usage(usage);
    assert(builder.deep_view().choices =~= seq![event_choice(output.deep_view())]);
    builder
}

/// The usage of counts that are not negative has no negative count.
pub proof fn lemma_usage_stays_well_formed(counted: TokenUsage)
    requires
        counted.input_tokens >= 0,
        counted.output_tokens >= 0,
        counted.total_tokens >= 0,
    ensures
        usage_of(counted).well_formed(),
{
}

/// Every chunk that an event produces carries exactly one choice, so none is
/// ever without a choice, whatever the event.
pub proof fn lemma_event_chunk_has_a_choice(event: ConverseStreamOutputView)
    ensures
        event_chunk(event).choices.len() == 1,
        built(event_chunk(event)).choices.len() >= 1,
        built(event_chunk(event)) == event_chunk(event),
{
}

/// A chunk that was built carries at least one choice, whatever was
/// collected.
pub proof fn lemma_built_has_a_choice(collected: ResponseView)
    ensures
        built(collected).choices.len() >= 1,
{
}

/// The `finish_reason` of a stop is a function of the stop reason alone and
/// is defined for every reason: `"tool_calls"` for a tool use, `"length"`
/// for the token limit, `"stop"` for every other reason.
pub proof fn lemma_finish_reason_total(reason: StopReason)
    ensures
        event_finish_reason(ConverseStreamOutputView::MessageStop { stop_reason: reason }) == Some(
            finish_reason_of(reason),
        ),
        reason == StopReason::ToolUse ==> finish_reason_of(reason) == "tool_calls"@,
        reason == StopReason::MaxTokens ==> finish_reason_of(reason) == "length"@,
        reason != StopReason::ToolUse && reason != StopReason::MaxTokens ==> finish_reason_of(reason)
            == "stop"@,
        event_delta(ConverseStreamOutputView::MessageStop { stop_reason: reason }) == Some(
            empty_delta(),
        ),
{
}


} // verus!
