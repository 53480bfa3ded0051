//! The JSON form of response chunks.
//!
//! Written, a member that has no value is left out, and the members of each
//! object stand in a fixed order. Read, a member that is missing or null has
//! no value, a member of another type than its own refuses the chunk, and a
//! member that the chunk does not know is passed over.

use crate::json::{
    array_member, array_value, entry_keys_distinct, given, i32_member, i64_member, int_value,
    json_int, object_value, present, read_array, read_i32, read_i64, read_string, string_member,
    string_value, well_formed, JsonValue, JsonView,
};
use crate::response::{
    built, ChatCompletionsResponse, ChatCompletionsResponseBuilder, Choice, ChoiceView, Delta,
    DeltaView, Function, FunctionView, ResponseView, ToolCall, ToolCallView, Usage,
};
use vstd::prelude::*;

verus! {

/// The JSON string of a text that may be missing.
pub open spec fn optional_string(text: Option<Seq<char>>) -> Option<JsonView> {
    match text {
        Some(text) => Some(JsonView::String(text)),
        None => None,
    }
}

/// The JSON number of an integer that may be missing.
pub open spec fn optional_int(number: Option<int>) -> Option<JsonView> {
    match number {
        Some(number) => Some(json_int(number)),
        None => None,
    }
}

/// The members of a usage, each with its value.
pub open spec fn usage_entries(usage: Usage) -> Seq<(Seq<char>, Option<JsonView>)> {
    seq![
        ("completion_tokens"@, Some(json_int(usage.completion_tokens as int))),
        ("prompt_tokens"@, Some(json_int(usage.prompt_tokens as int))),
        ("total_tokens"@, Some(json_int(usage.total_tokens as int))),
    ]
}

/// The JSON form of a usage.
pub open spec fn usage_json(usage: Usage) -> JsonView {
    JsonView::Object(present(usage_entries(usage)))
}

/// The members of a function, each with its value if it has one.
pub open spec fn function_entries(function: FunctionView) -> Seq<(Seq<char>, Option<JsonView>)> {
    seq![
        ("name"@, optional_string(function.name)),
        ("arguments"@, optional_string(function.arguments)),
    ]
}

/// The JSON form of the function of a tool call.
pub open spec fn function_json(function: FunctionView) -> JsonView {
    JsonView::Object(present(function_entries(function)))
}

/// The members of a tool call, each with its value if it has one.
pub open spec fn tool_call_entries(call: ToolCallView) -> Seq<(Seq<char>, Option<JsonView>)> {
    seq![
        ("id"@, optional_string(call.id)),
        ("type"@, Some(JsonView::String(call.tool_type))),
        (
            "function"@,
            match call.function {
                Some(function) => Some(function_json(function)),
                None => None,
            },
        ),
        (
            "index"@,
            match call.index {
                Some(index) => Some(json_int(index as int)),
                None => None,
            },
        ),
    ]
}

/// The JSON form of a tool call.
pub open spec fn tool_call_json(call: ToolCallView) -> JsonView {
    JsonView::Object(present(tool_call_entries(call)))
}

/// The members of a delta, each with its value if it has one.
pub open spec fn delta_entries(delta: DeltaView) -> Seq<(Seq<char>, Option<JsonView>)> {
    seq![
        ("content"@, optional_string(delta.content)),
        ("role"@, optional_string(delta.role)),
        (
            "tool_calls"@,
            match delta.tool_calls {
                Some(calls) => Some(
                    JsonView::Array(Seq::new(calls.len(), |i: int| tool_call_json(calls[i]))),
                ),
                None => None,
            },
        ),
    ]
}

/// The JSON form of a delta.
pub open spec fn delta_json(delta: DeltaView) -> JsonView {
    JsonView::Object(present(delta_entries(delta)))
}

/// The members of a choice, each with its value if it has one.
pub open spec fn choice_entries(choice: ChoiceView) -> Seq<(Seq<char>, Option<JsonView>)> {
    seq![
        (
            "delta"@,
            match choice.delta {
                Some(delta) => Some(delta_json(delta)),
                None => None,
            },
        ),
        ("finish_reason"@, optional_string(choice.finish_reason)),
        ("index"@, Some(json_int(choice.index as int))),
        ("logprobs"@, optional_string(choice.logprobs)),
    ]
}

/// The JSON form of a choice.
pub open spec fn choice_json(choice: ChoiceView) -> JsonView {
    JsonView::Object(present(choice_entries(choice)))
}

/// The members of a chunk, each with its value if it has one.
pub open spec fn response_entries(response: ResponseView) -> Seq<(Seq<char>, Option<JsonView>)> {
    seq![
        (
            "choices"@,
            Some(
                JsonView::Array(
                    Seq::new(response.choices.len(), |i: int| choice_json(response.choices[i])),
                ),
            ),
        ),
        (
            "created"@,
            match response.created {
                Some(created) => Some(json_int(created as int)),
                None => None,
            },
        ),
        ("id"@, optional_string(response.id)),
        ("model"@, optional_string(response.model)),
        ("object"@, optional_string(response.object)),
        (
            "usage"@,
            match response.usage {
                Some(usage) => Some(usage_json(usage)),
                None => None,
            },
        ),
    ]
}

/// The JSON form of a chunk.
pub open spec fn response_json(response: ResponseView) -> JsonView {
    JsonView::Object(present(response_entries(response)))
}

proof fn lemma_distinct_2(entries: Seq<(Seq<char>, Option<JsonView>)>)
    requires
        entries.len() == 2,
        entries[0].0 != entries[1].0,
    ensures
        entry_keys_distinct(entries),
{
}

proof fn lemma_distinct_3(entries: Seq<(Seq<char>, Option<JsonView>)>)
    requires
        entries.len() == 3,
        entries[0].0 != entries[1].0,
        entries[0].0 != entries[2].0,
        entries[1].0 != entries[2].0,
    ensures
        entry_keys_distinct(entries),
{
}

proof fn lemma_distinct_4(entries: Seq<(Seq<char>, Option<JsonView>)>)
    requires
        entries.len() == 4,
        entries[0].0 != entries[1].0,
        entries[0].0 != entries[2].0,
        entries[0].0 != entries[3].0,
        entries[1].0 != entries[2].0,
        entries[1].0 != entries[3].0,
        entries[2].0 != entries[3].0,
    ensures
        entry_keys_distinct(entries),
{
}

proof fn lemma_distinct_6(entries: Seq<(Seq<char>, Option<JsonView>)>)
    requires
        entries.len() == 6,
        forall|i: int, j: int|
            0 <= i < j < 6 ==> (#[trigger] entries[i]).0.len() != (#[trigger] entries[j]).0.len()
                || (i == 0 && j == 1 && entries[0].0[1] != entries[1].0[1]) || (i == 3 && j == 5
                && entries[3].0[0] != entries[5].0[0]),
    ensures
        entry_keys_distinct(entries),
{
}

fn entry(key: &str, value: Option<JsonValue>) -> (r: (String, Option<JsonValue>))
    ensures
        r.deep_view() == (key@, value.deep_view()),
{
    (key.to_owned(), value)
}

fn string_entry(key: &str, text: &Option<String>) -> (r: (String, Option<JsonValue>))
    ensures
        r.deep_view() == (key@, optional_string(text.deep_view())),
        r.1 is Some ==> well_formed(r.1->0.deep_view()),
{
    match text {
        Some(text) => entry(key, Some(string_value(text.as_str()))),
        None => entry(key, None),
    }
}

/// The JSON form of a usage.
pub fn usage_to_json(usage: &Usage) -> (r: JsonValue)
    ensures
        r.deep_view() == usage_json(*usage),
        well_formed(r.deep_view()),
{
    let mut entries: Vec<(String, Option<JsonValue>)> = Vec::new();
    entries.push(entry("completion_tokens", Some(int_value(usage.completion_tokens as i64))));
    entries.push(entry("prompt_tokens", Some(int_value(usage.prompt_tokens as i64))));
    entries.push(entry("total_tokens", Some(int_value(usage.total_tokens as i64))));
    proof {
        reveal_strlit("completion_tokens");
        assert("completion_tokens"@.len() == 17);
        reveal_strlit("prompt_tokens");
        assert("prompt_tokens"@.len() == 13);
        reveal_strlit("total_tokens");
        assert("total_tokens"@.len() == 12);
        assert(entries.deep_view() =~= usage_entries(*usage));
        lemma_distinct_3(usage_entries(*usage));
    }
    object_value(entries)
}

/// The JSON form of the function of a tool call.
pub fn function_to_json(function: &Function) -> (r: JsonValue)
    ensures
        r.deep_view() == function_json(function.deep_view()),
        well_formed(r.deep_view()),
{
    let mut entries: Vec<(String, Option<JsonValue>)> = Vec::new();
    entries.push(string_entry("name", &function.name));
    entries.push(string_entry("arguments", &function.arguments));
    proof {
        reveal_strlit("name");
        assert("name"@.len() == 4);
        reveal_strlit("arguments");
        assert("arguments"@.len() == 9);
        assert(entries.deep_view() =~= function_entries(function.deep_view()));
        lemma_distinct_2(function_entries(function.deep_view()));
    }
    object_value(entries)
}

/// The JSON form of a tool call.
pub fn tool_call_to_json(call: &ToolCall) -> (r: JsonValue)
    ensures
        r.deep_view() == tool_call_json(call.deep_view()),
        well_formed(r.deep_view()),
{
    let mut entries: Vec<(String, Option<JsonValue>)> = Vec::new();
    entries.push(string_entry("id", &call.id));
    entries.push(entry("type", Some(string_value(call.tool_type.as_str()))));
    entries.push(
        entry(
            "function",
            match &call.function {
                Some(function) => Some(function_to_json(function)),
                None => None,
            },
        ),
    );
    entries.push(
        entry(
            "index",
            match call.index {
                Some(index) => Some(int_value(index as i64)),
                None => None,
            },
        ),
    );
    proof {
        reveal_strlit("id");
        assert("id"@.len() == 2);
        reveal_strlit("type");
        assert("type"@.len() == 4);
        reveal_strlit("function");
        assert("function"@.len() == 8);
        reveal_strlit("index");
        assert("index"@.len() == 5);
        assert(entries.deep_view() =~= tool_call_entries(call.deep_view()));
        lemma_distinct_4(tool_call_entries(call.deep_view()));
    }
    object_value(entries)
}

/// The JSON form of a delta.
pub fn delta_to_json(delta: &Delta) -> (r: JsonValue)
    ensures
        r.deep_view() == delta_json(delta.deep_view()),
        well_formed(r.deep_view()),
{
    let calls = match &delta.tool_calls {
        Some(calls) => {
            let mut items: Vec<JsonValue> = Vec::new();
            let mut i: usize = 0;
            while i < calls.len()
                invariant
                    i <= calls.len(),
                    items.len() == i,
                    forall|k: int|
                        0 <= k < i ==> (#[trigger] items[k]).deep_view() == tool_call_json(
                            calls[k].deep_view(),
                        ) && well_formed(items[k].deep_view()),
                decreases calls.len() - i,
            {
                items.push(tool_call_to_json(&calls[i]));
                i += 1;
            }
            assert(items.deep_view() =~= Seq::new(
                calls.deep_view().len(),
                |i: int| tool_call_json(calls.deep_view()[i]),
            ));
            Some(array_value(items))
        },
        None => None,
    };
    let mut entries: Vec<(String, Option<JsonValue>)> = Vec::new();
    entries.push(string_entry("content", &delta.content));
    entries.push(string_entry("role", &delta.role));
    entries.push(entry("tool_calls", calls));
    proof {
        reveal_strlit("content");
        assert("content"@.len() == 7);
        reveal_strlit("role");
        assert("role"@.len() == 4);
        reveal_strlit("tool_calls");
        assert("tool_calls"@.len() == 10);
        assert(entries.deep_view() =~= delta_entries(delta.deep_view()));
        lemma_distinct_3(delta_entries(delta.deep_view()));
    }
    object_value(entries)
}

/// The JSON form of a choice.
pub fn choice_to_json(choice: &Choice) -> (r: JsonValue)
    ensures
        r.deep_view() == choice_json(choice.deep_view()),
        well_formed(r.deep_view()),
{
    let mut entries: Vec<(String, Option<JsonValue>)> = Vec::new();
    entries.push(
        entry(
            "delta",
            match &choice.delta {
                Some(delta) => Some(delta_to_json(delta)),
                None => None,
            },
        ),
    );
    entries.push(string_entry("finish_reason", &choice.finish_reason));
    entries.push(entry("index", Some(int_value(choice.index as i64))));
    entries.push(string_entry("logprobs", &choice.logprobs));
    proof {
        reveal_strlit("delta");
        assert("delta"@.len() == 5);
        reveal_strlit("finish_reason");
        assert("finish_reason"@.len() == 13);
        reveal_strlit("index");
        assert("index"@.len() == 5);
        reveal_strlit("logprobs");
        assert("logprobs"@.len() == 8);
        assert("delta"@[0] != "index"@[0]);
        assert(entries.deep_view() =~= choice_entries(choice.deep_view()));
        lemma_distinct_4(choice_entries(choice.deep_view()));
    }
    object_value(entries)
}

/// The JSON form of a chunk.
pub fn response_to_json(response: &ChatCompletionsResponse) -> (r: JsonValue)
    ensures
        r.deep_view() == response_json(response.deep_view()),
        well_formed(r.deep_view()),
{
    let mut items: Vec<JsonValue> = Vec::new();
    let mut i: usize = 0;
    while i < response.choices.len()
        invariant
            i <= response.choices.len(),
            items.len() == i,
            forall|k: int|
                0 <= k < i ==> (#[trigger] items[k]).deep_view() == choice_json(
                    response.choices[k].deep_view(),
                ) && well_formed(items[k].deep_view()),
        decreases response.choices.len() - i,
    {
        items.push(choice_to_json(&response.choices[i]));
        i += 1;
    }
    assert(items.deep_view() =~= Seq::new(
        response.deep_view().choices.len(),
        |i: int| choice_json(response.deep_view().choices[i]),
    ));
    let mut entries: Vec<(String, Option<JsonValue>)> = Vec::new();
    entries.push(entry("choices", Some(array_value(items))));
    entries.push(
        entry(
            "created",
            match response.created {
                Some(created) => Some(int_value(created)),
                None => None,
            },
        ),
    );
    entries.push(string_entry("id", &response.id));
    entries.push(string_entry("model", &response.model));
    entries.push(string_entry("object", &response.object));
    entries.push(
        entry(
            "usage",
            match &response.usage {
                Some(usage) => Some(usage_to_json(usage)),
                None => None,
            },
        ),
    );
    proof {
        reveal_strlit("choices");
        assert("choices"@.len() == 7);
        reveal_strlit("created");
        assert("created"@.len() == 7);
        reveal_strlit("id");
        assert("id"@.len() == 2);
        reveal_strlit("model");
        assert("model"@.len() == 5);
        reveal_strlit("object");
        assert("object"@.len() == 6);
        reveal_strlit("usage");
        assert("usage"@.len() == 5);
        assert("choices"@[1] != "created"@[1]);
        assert("model"@[0] != "usage"@[0]);
        assert(entries.deep_view() =~= response_entries(response.deep_view()));
        lemma_distinct_6(response_entries(response.deep_view()));
    }
    object_value(entries)
}

/// The usage that a JSON value stands for. All three counts have to be
/// there, and none may be negative.
pub open spec fn decode_usage(value: JsonView) -> Result<Usage, ()> {
    if !(value is Object) {
        Err(())
    } else {
        match (
            read_i32(given(value, "completion_tokens"@)),
            read_i32(given(value, "prompt_tokens"@)),
            read_i32(given(value, "total_tokens"@)),
        ) {
            (Ok(Some(completion_tokens)), Ok(Some(prompt_tokens)), Ok(Some(total_tokens))) => {
                let usage = Usage { completion_tokens, prompt_tokens, total_tokens };
                if usage.well_formed() {
                    Ok(usage)
                } else {
                    Err(())
                }
            },
            _ => Err(()),
        }
    }
}

/// The function that a JSON value stands for.
pub open spec fn decode_function(value: JsonView) -> Result<FunctionView, ()> {
    if !(value is Object) {
        Err(())
    } else {
        match (read_string(given(value, "name"@)), read_string(given(value, "arguments"@))) {
            (Ok(name), Ok(arguments)) => Ok(FunctionView { name, arguments }),
            _ => Err(()),
        }
    }
}

/// The tool call that a JSON value stands for. A call that does not say its
/// type is a function call.
pub open spec fn decode_tool_call(value: JsonView) -> Result<ToolCallView, ()> {
    if !(value is Object) {
        Err(())
    } else {
        match (
            read_string(given(value, "id"@)),
            read_string(given(value, "type"@)),
            given(value, "function"@),
            read_i32(given(value, "index"@)),
        ) {
            (Ok(id), Ok(kind), None, Ok(index)) => Ok(
                ToolCallView {
                    id,
                    tool_type: match kind {
                        Some(kind) => kind,
                        None => "function"@,
                    },
                    function: None,
                    index,
                },
            ),
            (Ok(id), Ok(kind), Some(function), Ok(index)) => match decode_function(function) {
                Ok(function) => Ok(
                    ToolCallView {
                        id,
                        tool_type: match kind {
                            Some(kind) => kind,
                            None => "function"@,
                        },
                        function: Some(function),
                        index,
                    },
                ),
                Err(_) => Err(()),
            },
            _ => Err(()),
        }
    }
}

/// The tool calls that the items of an array stand for, in order.
pub open spec fn decode_tool_calls(items: Seq<JsonView>) -> Result<Seq<ToolCallView>, ()>
    decreases items.len(),
{
    if items.len() == 0 {
        Ok(Seq::empty())
    } else {
        match (decode_tool_calls(items.drop_last()), decode_tool_call(items.last())) {
            (Ok(before), Ok(call)) => Ok(before.push(call)),
            _ => Err(()),
        }
    }
}

/// The delta that a JSON value stands for.
pub open spec fn decode_delta(value: JsonView) -> Result<DeltaView, ()> {
    if !(value is Object) {
        Err(())
    } else {
        match (
            read_string(given(value, "content"@)),
            read_string(given(value, "role"@)),
            read_array(given(value, "tool_calls"@)),
        ) {
            (Ok(content), Ok(role), Ok(None)) => Ok(DeltaView { content, role, tool_calls: None }),
            (Ok(content), Ok(role), Ok(Some(items))) => match decode_tool_calls(items) {
                Ok(calls) => Ok(DeltaView { content, role, tool_calls: Some(calls) }),
                Err(_) => Err(()),
            },
            _ => Err(()),
        }
    }
}

/// The choice that a JSON value stands for. A choice that does not say its
/// index has index 0.
pub open spec fn decode_choice(value: JsonView) -> Result<ChoiceView, ()> {
    if !(value is Object) {
        Err(())
    } else {
        match (
            given(value, "delta"@),
            read_string(given(value, "finish_reason"@)),
            read_i32(given(value, "index"@)),
            read_string(given(value, "logprobs"@)),
        ) {
            (None, Ok(finish_reason), Ok(index), Ok(logprobs)) => Ok(
                ChoiceView {
                    delta: None,
                    finish_reason,
                    index: match index {
                        Some(index) => index,
                        None => 0,
                    },
                    logprobs,
                },
            ),
            (Some(delta), Ok(finish_reason), Ok(index), Ok(logprobs)) => match decode_delta(
                delta,
            ) {
                Ok(delta) => Ok(
                    ChoiceView {
                        delta: Some(delta),
                        finish_reason,
                        index: match index {
                            Some(index) => index,
                            None => 0,
                        },
                        logprobs,
                    },
                ),
                Err(_) => Err(()),
            },
            _ => Err(()),
        }
    }
}

/// The choices that the items of an array stand for, in order.
pub open spec fn decode_choices(items: Seq<JsonView>) -> Result<Seq<ChoiceView>, ()>
    decreases items.len(),
{
    if items.len() == 0 {
        Ok(Seq::empty())
    } else {
        match (decode_choices(items.drop_last()), decode_choice(items.last())) {
            (Ok(before), Ok(choice)) => Ok(before.push(choice)),
            _ => Err(()),
        }
    }
}

/// What a chunk says itself, before the defaults of its stream come in.
pub open spec fn decode_collected(value: JsonView) -> Result<ResponseView, ()> {
    if !(value is Object) {
        Err(())
    } else {
        match (
            read_array(given(value, "choices"@)),
            read_i64(given(value, "created"@)),
            read_string(given(value, "id"@)),
            read_string(given(value, "model"@)),
            read_string(given(value, "object"@)),
            given(value, "usage"@),
        ) {
            (Ok(items), Ok(created), Ok(id), Ok(model), Ok(object), usage) => match (
                decode_choices(
                    match items {
                        Some(items) => items,
                        None => Seq::empty(),
                    },
                ),
                match usage {
                    Some(usage) => match decode_usage(usage) {
                        Ok(usage) => Ok(Some(usage)),
                        Err(_) => Err(()),
                    },
                    None => Ok(None),
                },
            ) {
                (Ok(choices), Ok(usage)) => Ok(
                    ResponseView { choices, created, id, model, object, usage },
                ),
                _ => Err(()),
            },
            _ => Err(()),
        }
    }
}

/// A chunk under the defaults of its stream: what the chunk does not say
/// about id, creation time, model and object tag is taken from the stream,
/// and a chunk without a choice gets the placeholder choice.
pub open spec fn with_defaults(
    collected: ResponseView,
    id: Seq<char>,
    created: i64,
    model: Seq<char>,
) -> ResponseView {
    built(
        ResponseView {
            choices: collected.choices,
            created: Some(
                match collected.created {
                    Some(created) => created,
                    None => created,
                },
            ),
            id: Some(
                match collected.id {
                    Some(id) => id,
                    None => id,
                },
            ),
            model: Some(
                match collected.model {
                    Some(model) => model,
                    None => model,
                },
            ),
            object: Some(
                match collected.object {
                    Some(object) => object,
                    None => "chat.completion.chunk"@,
                },
            ),
            usage: collected.usage,
        },
    )
}

/// The chunk that a JSON value stands for in a stream with the given
/// defaults.
pub open spec fn decode_chunk(value: JsonView, id: Seq<char>, created: i64, model: Seq<char>) -> Result<
    ResponseView,
    (),
> {
    match decode_collected(value) {
        Ok(collected) => Ok(with_defaults(collected, id, created, model)),
        Err(_) => Err(()),
    }
}

/// Reads a usage.
pub fn usage_from_json(value: &JsonValue) -> (r: Result<Usage, ()>)
    ensures
        r == decode_usage(value.deep_view()),
        r is Ok ==> r->Ok_0.well_formed(),
{
    if !value.is_object() {
        return Err(());
    }
    match (
        i32_member(value.given("completion_tokens")),
        i32_member(value.given("prompt_tokens")),
        i32_member(value.given("total_tokens")),
    ) {
        (Ok(Some(completion_tokens)), Ok(Some(prompt_tokens)), Ok(Some(total_tokens))) => {
            if completion_tokens >= 0 && prompt_tokens >= 0 && total_tokens >= 0 {
                Ok(Usage { completion_tokens, prompt_tokens, total_tokens })
            } else {
                Err(())
            }
        },
        _ => Err(()),
    }
}

/// Reads the function of a tool call.
pub fn function_from_json(value: &JsonValue) -> (r: Result<Function, ()>)
    ensures
        match r {
            Ok(function) => decode_function(value.deep_view()) == Ok::<FunctionView, ()>(
                function.deep_view(),
            ),
            Err(_) => decode_function(value.deep_view()) is Err,
        },
{
    if !value.is_object() {
        return Err(());
    }
    match (string_member(value.given("name")), string_member(value.given("arguments"))) {
        (Ok(name), Ok(arguments)) => Ok(Function { name, arguments }),
        _ => Err(()),
    }
}

/// Reads a tool call.
pub fn tool_call_from_json(value: &JsonValue) -> (r: Result<ToolCall, ()>)
    ensures
        match r {
            Ok(call) => decode_tool_call(value.deep_view()) == Ok::<ToolCallView, ()>(
                call.deep_view(),
            ),
            Err(_) => decode_tool_call(value.deep_view()) is Err,
        },
{
    if !value.is_object() {
        return Err(());
    }
    let id = match string_member(value.given("id")) {
        Ok(id) => id,
        Err(_) => {
            return Err(());
        },
    };
    let tool_type = match string_member(value.given("type")) {
        Ok(Some(kind)) => kind,
        Ok(None) => "function".to_owned(),
        Err(_) => {
            return Err(());
        },
    };
    let index = match i32_member(value.given("index")) {
        Ok(index) => index,
        Err(_) => {
            return Err(());
        },
    };
    let function = match value.given("function") {
        Some(function) => match function_from_json(function) {
            Ok(function) => Some(function),
            Err(_) => {
                return Err(());
            },
        },
        None => None,
    };
    Ok(ToolCall { id, tool_type, function, index })
}

proof fn lemma_tool_calls_refused(items: Seq<JsonView>, upto: int)
    requires
        0 <= upto <= items.len(),
        decode_tool_calls(items.take(upto)) is Err,
    ensures
        decode_tool_calls(items) is Err,
    decreases items.len() - upto,
{
    if upto < items.len() {
        assert(items.take(upto + 1).drop_last() =~= items.take(upto));
        lemma_tool_calls_refused(items, upto + 1);
    } else {
        assert(items.take(upto) =~= items);
    }
}

proof fn lemma_choices_refused(items: Seq<JsonView>, upto: int)
    requires
        0 <= upto <= items.len(),
        decode_choices(items.take(upto)) is Err,
    ensures
        decode_choices(items) is Err,
    decreases items.len() - upto,
{
    if upto < items.len() {
        assert(items.take(upto + 1).drop_last() =~= items.take(upto));
        lemma_choices_refused(items, upto + 1);
    } else {
        assert(items.take(upto) =~= items);
    }
}

/// Reads the tool calls of a delta.
pub fn tool_calls_from_json(items: &Vec<JsonValue>) -> (r: Result<Vec<ToolCall>, ()>)
    ensures
        match r {
            Ok(calls) => decode_tool_calls(items.deep_view()) == Ok::<Seq<ToolCallView>, ()>(
                calls.deep_view(),
            ),
            Err(_) => decode_tool_calls(items.deep_view()) is Err,
        },
{
    let ghost all = items.deep_view();
    let mut calls: Vec<ToolCall> = Vec::new();
    let mut i: usize = 0;
    assert(all.take(0) =~= Seq::empty());
    assert(calls.deep_view() =~= Seq::empty());
    while i < items.len()
        invariant
            i <= items.len(),
            all == items.deep_view(),
            decode_tool_calls(all.take(i as int)) == Ok::<Seq<ToolCallView>, ()>(calls.deep_view()),
        decreases items.len() - i,
    {
        let ghost before = calls.deep_view();
        proof {
            assert(all.take(i + 1).drop_last() =~= all.take(i as int));
            assert(all.take(i + 1).last() == items[i as int].deep_view());
        }
        match tool_call_from_json(&items[i]) {
            Ok(call) => {
                calls.push(call);
                assert(calls.deep_view() =~= before.push(call.deep_view()));
            },
            Err(_) => {
                proof {
                    lemma_tool_calls_refused(all, i + 1);
                }
                return Err(());
            },
        }
        i += 1;
    }
    assert(all.take(items.len() as int) =~= all);
    Ok(calls)
}

/// Reads a delta.
pub fn delta_from_json(value: &JsonValue) -> (r: Result<Delta, ()>)
    ensures
        match r {
            Ok(delta) => decode_delta(value.deep_view()) == Ok::<DeltaView, ()>(delta.deep_view()),
            Err(_) => decode_delta(value.deep_view()) is Err,
        },
{
    if !value.is_object() {
        return Err(());
    }
    let content = match string_member(value.given("content")) {
        Ok(content) => content,
        Err(_) => {
            return Err(());
        },
    };
    let role = match string_member(value.given("role")) {
        Ok(role) => role,
        Err(_) => {
            return Err(());
        },
    };
    let tool_calls = match array_member(value.given("tool_calls")) {
        Ok(Some(items)) => match tool_calls_from_json(items) {
            Ok(calls) => Some(calls),
            Err(_) => {
                return Err(());
            },
        },
        Ok(None) => None,
        Err(_) => {
            return Err(());
        },
    };
    Ok(Delta { content, role, tool_calls })
}

/// Reads a choice.
pub fn choice_from_json(value: &JsonValue) -> (r: Result<Choice, ()>)
    ensures
        match r {
            Ok(choice) => decode_choice(value.deep_view()) == Ok::<ChoiceView, ()>(
                choice.deep_view(),
            ),
            Err(_) => decode_choice(value.deep_view()) is Err,
        },
{
    if !value.is_object() {
        return Err(());
    }
    let finish_reason = match string_member(value.given("finish_reason")) {
        Ok(finish_reason) => finish_reason,
        Err(_) => {
            return Err(());
        },
    };
    let index = match i32_member(value.given("index")) {
        Ok(Some(index)) => index,
        Ok(None) => 0,
        Err(_) => {
            return Err(());
        },
    };
    let logprobs = match string_member(value.given("logprobs")) {
        Ok(logprobs) => logprobs,
        Err(_) => {
            return Err(());
        },
    };
    let delta = match value.given("delta") {
        Some(delta) => match delta_from_json(delta) {
            Ok(delta) => Some(delta),
            Err(_) => {
                return Err(());
            },
        },
        None => None,
    };
    Ok(Choice { delta, finish_reason, index, logprobs })
}

/// Reads the choices of a chunk.
pub fn choices_from_json(items: &Vec<JsonValue>) -> (r: Result<Vec<Choice>, ()>)
    ensures
        match r {
            Ok(choices) => decode_choices(items.deep_view()) == Ok::<Seq<ChoiceView>, ()>(
                choices.deep_view(),
            ),
            Err(_) => decode_choices(items.deep_view()) is Err,
        },
{
    let ghost all = items.deep_view();
    let mut choices: Vec<Choice> = Vec::new();
    let mut i: usize = 0;
    assert(all.take(0) =~= Seq::empty());
    assert(choices.deep_view() =~= Seq::empty());
    while i < items.len()
        invariant
            i <= items.len(),
            all == items.deep_view(),
            decode_choices(all.take(i as int)) == Ok::<Seq<ChoiceView>, ()>(choices.deep_view()),
        decreases items.len() - i,
    {
        let ghost before = choices.deep_view();
        proof {
            assert(all.take(i + 1).drop_last() =~= all.take(i as int));
            assert(all.take(i + 1).last() == items[i as int].deep_view());
        }
        match choice_from_json(&items[i]) {
            Ok(choice) => {
                choices.push(choice);
                assert(choices.deep_view() =~= before.push(choice.deep_view()));
            },
            Err(_) => {
                proof {
                    lemma_choices_refused(all, i + 1);
                }
                return Err(());
            },
        }
        i += 1;
    }
    assert(all.take(items.len() as int) =~= all);
    Ok(choices)
}

/// Reads a chunk of a stream whose defaults are `id`, `created` and `model`.
pub fn chunk_from_json(value: &JsonValue, id: &str, created: i64, model: &str) -> (r: Result<
    ChatCompletionsResponse,
    (),
>)
    ensures
        match r {
            Ok(chunk) => decode_chunk(value.deep_view(), id@, created, model@) == Ok::<
                ResponseView,
                (),
            >(chunk.deep_view()) && chunk.choices.len() >= 1,
            Err(_) => decode_chunk(value.deep_view(), id@, created, model@) is Err,
        },
{
    if !value.is_object() {
        return Err(());
    }
    let choices = match array_member(value.given("choices")) {
        Ok(Some(items)) => match choices_from_json(items) {
            Ok(choices) => choices,
            Err(_) => {
                return Err(());
            },
        },
        Ok(None) => {
            let none: Vec<Choice> = Vec::new();
            assert(none.deep_view() =~= Seq::empty());
            assert(decode_choices(Seq::empty()) == Ok::<Seq<ChoiceView>, ()>(Seq::empty()));
            none
        },
        Err(_) => {
            return Err(());
        },
    };
    let created = match i64_member(value.given("created")) {
        Ok(Some(created)) => created,
        Ok(None) => created,
        Err(_) => {
            return Err(());
        },
    };
    let id = match string_member(value.given("id")) {
        Ok(Some(id)) => id,
        Ok(None) => id.to_owned(),
        Err(_) => {
            return Err(());
        },
    };
    let model = match string_member(value.given("model")) {
        Ok(Some(model)) => model,
        Ok(None) => model.to_owned(),
        Err(_) => {
            return Err(());
        },
    };
    let object = match string_member(value.given("object")) {
        Ok(Some(object)) => object,
        Ok(None) => "chat.completion.chunk".to_owned(),
        Err(_) => {
            return Err(());
        },
    };
    let usage = match value.given("usage") {
        Some(usage) => match usage_from_json(usage) {
            Ok(usage) => Some(usage),
            Err(_) => {
                return Err(());
            },
        },
        None => None,
    };
    let mut builder = ChatCompletionsResponse::builder().created(Some(created)).id(Some(id)).model(
        Some(model),
    ).object(Some(object)).usage(usage);
    builder = with_choices(builder, choices);
    Ok(builder.build())
}

fn with_choices(builder: ChatCompletionsResponseBuilder, choices: Vec<Choice>) -> (r:
    ChatCompletionsResponseBuilder)
    requires
        builder.deep_view().choices.len() == 0,
    ensures
        r.deep_view() == (ResponseView { choices: choices.deep_view(), ..builder.deep_view() }),
{
    let ghost all = choices.deep_view();
    let ghost start = builder.deep_view();
    let mut builder = builder;
    let mut choices = choices;
    assert(start.choices =~= Seq::empty());
    while choices.len() > 0
        invariant
            builder.deep_view().choices + choices.deep_view() == all,
            builder.deep_view() == (ResponseView { choices: builder.deep_view().choices, ..start }),
        decreases choices.len(),
    {
        let ghost taken = builder.deep_view().choices;
        let ghost left = choices.deep_view();
        let choice = choices.remove(0);
        assert(choices.deep_view() =~= left.skip(1));
        assert(choice.deep_view() == left[0]);
        builder = builder.choice(choice);
        assert(builder.deep_view().choices + choices.deep_view() =~= taken + left);
    }
    assert(builder.deep_view().choices =~= all);
    builder
}

/// A chunk under the defaults of its stream carries at least one choice, an
/// id, a creation time, a model and an object tag, whatever the chunk says
/// itself.
pub proof fn lemma_with_defaults_is_complete(
    collected: ResponseView,
    id: Seq<char>,
    created: i64,
    model: Seq<char>,
)
    ensures
        with_defaults(collected, id, created, model).choices.len() >= 1,
        with_defaults(collected, id, created, model).id is Some,
        with_defaults(collected, id, created, model).created is Some,
        with_defaults(collected, id, created, model).model is Some,
        with_defaults(collected, id, created, model).object is Some,
        collected.id is None ==> with_defaults(collected, id, created, model).id == Some(id),
        collected.created is None ==> with_defaults(collected, id, created, model).created == Some(
            created,
        ),
        collected.model is None ==> with_defaults(collected, id, created, model).model == Some(
            model,
        ),
{
}

} // verus!
