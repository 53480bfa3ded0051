//! Server-sent events: the frames that a response stream is made of.
//!
//! A frame carries one payload: the JSON text of a chunk, the JSON text of
//! an error object, or the sentinel that ends the stream.

use crate::codec::{print_json, printed};
use crate::error::{
    category_of, code_of, opening_of, type_of, ErrorClassification, ErrorContext, StreamError,
    StreamErrorView, TranslationError,
};
use crate::json::{
    entry_keys_distinct, object_value, present, string_value, well_formed, JsonValue, JsonView,
};
use crate::response::ChatCompletionsResponse;
use crate::text::lower;
use crate::wire::{response_json, response_to_json};
use vstd::prelude::*;

verus! {

/// One server-sent event, given by its data.
#[derive(Debug, PartialEq)]
pub struct SseEvent {
    pub data: String,
}

impl DeepView for SseEvent {
    type V = Seq<char>;

    open spec fn deep_view(&self) -> Seq<char> {
        self.data@
    }
}

/// The payload that ends every stream.
pub open spec fn done_payload() -> Seq<char> {
    "[DONE]"@
}

/// The payload that stands in for an error object that could not be
/// printed.
pub open spec fn fallback_error_payload() -> Seq<char> {
    "{\"error\":{\"message\":\"Internal error\",\"type\":\"server_error\",\"param\":null,\"code\":\"serialization_error\"}}"@
}

/// The members of the inner object of an error object.
pub open spec fn error_entries(
    message: Seq<char>,
    kind: Seq<char>,
    code: Seq<char>,
) -> Seq<(Seq<char>, Option<JsonView>)> {
    seq![
        ("message"@, Some(JsonView::String(message))),
        ("type"@, Some(JsonView::String(kind))),
        ("param"@, Some(JsonView::Null)),
        ("code"@, Some(JsonView::String(code))),
    ]
}

/// The error object of a failure: `{"error": {message, type, param, code}}`,
/// with no `param`.
pub open spec fn error_object_json(message: Seq<char>, kind: Seq<char>, code: Seq<char>) -> JsonView {
    JsonView::Object(
        present(
            seq![("error"@, Some(JsonView::Object(present(error_entries(message, kind, code)))))],
        ),
    )
}

/// The error object of a classified failure.
pub open spec fn classification_json(
    category: crate::error::ErrorCategory,
    code: Seq<char>,
    message: Seq<char>,
) -> JsonView {
    error_object_json(message, type_of(category), code)
}

/// The event that ends every stream.
pub fn done_event() -> (r: SseEvent)
    ensures
        r.data@ == done_payload(),
{
    SseEvent { data: "[DONE]".to_owned() }
}

/// The event for a chunk, given what printing the chunk gave: the text as
/// the data of the event, or the printer's complaint as a serialization
/// error.
pub fn sse_event_from_encoding(encoded: Result<String, String>) -> (r: Result<SseEvent, StreamError>)
    ensures
        match encoded {
            Ok(text) => r is Ok && r->Ok_0.data@ == text@,
            Err(complaint) => r is Err && r->Err_0.deep_view() == StreamErrorView::Serialization(
                complaint@,
            ),
        },
{
    match encoded {
        Ok(data) => Ok(SseEvent { data }),
        Err(complaint) => Err(StreamError::Serialization(complaint)),
    }
}

/// The event that carries `response`: its data is the JSON text of the
/// chunk. A chunk can always be printed, so there always is an event; and
/// since it is the text of an object, it is never the sentinel.
pub fn create_sse_event(response: &ChatCompletionsResponse) -> (r: Result<SseEvent, StreamError>)
    ensures
        r is Ok,
        r->Ok_0.data@ == printed(response_json(response.deep_view())),
        r->Ok_0.data@ != done_payload(),
{
    proof {
        reveal_strlit("[DONE]");
    }
    sse_event_from_encoding(print_json(&response_to_json(response)))
}

fn error_object_of(message: &str, kind: &str, code: &str) -> (r: JsonValue)
    ensures
        r.deep_view() == error_object_json(message@, kind@, code@),
        well_formed(r.deep_view()),
{
    let mut inner: Vec<(String, Option<JsonValue>)> = Vec::new();
    inner.push(("message".to_owned(), Some(string_value(message))));
    inner.push(("type".to_owned(), Some(string_value(kind))));
    inner.push(("param".to_owned(), Some(JsonValue::Null)));
    inner.push(("code".to_owned(), Some(string_value(code))));
    proof {
        reveal_strlit("message");
        reveal_strlit("type");
        reveal_strlit("param");
        reveal_strlit("code");
        assert("message"@.len() == 7);
        assert("type"@.len() == 4);
        assert("param"@.len() == 5);
        assert("code"@.len() == 4);
        assert("type"@[0] != "code"@[0]);
        let ghost entries = error_entries(message@, kind@, code@);
        assert(inner.deep_view() =~= entries);
        assert(entries[1].0 != entries[3].0);
        assert(entry_keys_distinct(entries));
    }
    let inner_object = object_value(inner);
    let mut outer: Vec<(String, Option<JsonValue>)> = Vec::new();
    outer.push(("error".to_owned(), Some(inner_object)));
    assert(outer.deep_view() =~= seq![("error"@, Some(inner_object.deep_view()))]);
    object_value(outer)
}

/// The error object of a classified failure.
pub fn error_object(classification: &ErrorClassification) -> (r: JsonValue)
    ensures
        r.deep_view() == classification_json(
            classification.category,
            classification.code@,
            classification.message@,
        ),
        well_formed(r.deep_view()),
{
    let kind = classification.category.kind();
    error_object_of(
        classification.message.as_str(),
        kind.as_str(),
        classification.code.as_str(),
    )
}

/// The error object of a request that could not be translated.
pub open spec fn refusal_json(error: TranslationError) -> JsonView {
    error_object_json(error.description(), "invalid_request_error"@, error.code_of())
}

/// The error object of a request that could not be translated: the answer
/// to the request, in place of a stream.
pub fn translation_error_object(error: &TranslationError) -> (r: JsonValue)
    ensures
        r.deep_view() == refusal_json(*error),
        well_formed(r.deep_view()),
{
    let message = error.message();
    let code = error.code();
    error_object_of(message.as_str(), "invalid_request_error", code.as_str())
}

/// The event for an error object, given what printing the object gave: the
/// text where it was printed, the fixed fallback payload where it was not.
/// An error can always be delivered.
pub fn error_event_from_encoding(encoded: Result<String, String>) -> (r: SseEvent)
    ensures
        r.data@ == match encoded {
            Ok(text) => text@,
            Err(_) => fallback_error_payload(),
        },
{
    match encoded {
        Ok(data) => SseEvent { data },
        Err(_) => SseEvent {
            data: "{\"error\":{\"message\":\"Internal error\",\"type\":\"server_error\",\"param\":null,\"code\":\"serialization_error\"}}".to_owned(),
        },
    }
}

/// The payload of the error event of a classified failure: its error object,
/// printed.
pub open spec fn error_payload(
    category: crate::error::ErrorCategory,
    code: Seq<char>,
    message: Seq<char>,
) -> Seq<char> {
    printed(classification_json(category, code, message))
}

/// The payload that reports to the client the failure that `complaint`
/// describes and that happened in `context`: the error object of its
/// classification, printed.
pub open spec fn report(complaint: Seq<char>, context: ErrorContext) -> Seq<char> {
    let category = category_of(lower(complaint));
    error_payload(category, code_of(category, context), opening_of(category, context) + complaint)
}

/// The event that reports a classified failure to the client. An error
/// object can always be printed, so the fallback payload never stands in
/// for it here; and since it is the text of an object, it is never the
/// sentinel.
pub fn error_event(classification: &ErrorClassification) -> (r: SseEvent)
    ensures
        r.data@ == error_payload(
            classification.category,
            classification.code@,
            classification.message@,
        ),
        r.data@ != done_payload(),
{
    proof {
        reveal_strlit("[DONE]");
    }
    error_event_from_encoding(print_json(&error_object(classification)))
}

} // verus!
