//! The two providers: what each decides before and after the network.

use crate::bedrock::{
    process_chat_completions_request_to_bedrock_chat_completion, translate_request,
    BedrockChatCompletion, BedrockChatCompletionView,
};
use crate::error::{AppError, StreamError, StreamErrorView, TranslationError};
use crate::rechunk::SseRechunker;
use crate::request::{
    ChatCompletionsRequest, RequestView,
};
use crate::text::{concat_str, to_chars};
use vstd::prelude::*;

verus! {

/// Something that can turn a chat-completions request into a `T`.
pub trait ProcessChatCompletionsRequest<T> {
    /// What `request` becomes.
    fn process_chat_completions_request(&self, request: &ChatCompletionsRequest) -> T;
}

/// The provider that talks to the conversational backend.
#[derive(Debug, PartialEq)]
pub struct BedrockChatCompletionsProvider {}

impl BedrockChatCompletionsProvider {
    /// The provider.
    pub fn new() -> (r: Self) {
        BedrockChatCompletionsProvider {  }
    }
}

impl ProcessChatCompletionsRequest<
    Result<BedrockChatCompletion, TranslationError>,
> for BedrockChatCompletionsProvider {
    /// The request to the backend that `request` translates to.
    fn process_chat_completions_request(&self, request: &ChatCompletionsRequest) -> (r: Result<
        BedrockChatCompletion,
        TranslationError,
    >)
        ensures
            match r {
                Ok(made) => translate_request(request.deep_view()) == Ok::<
                    BedrockChatCompletionView,
                    TranslationError,
                >(made.deep_view()),
                Err(error) => translate_request(request.deep_view()) == Err::<
                    BedrockChatCompletionView,
                    TranslationError,
                >(error),
            },
    {
        process_chat_completions_request_to_bedrock_chat_completion(request)
    }
}

/// A character that may stand in the value of an HTTP header: a tab, or
/// anything from the space on but the delete character.
pub open spec fn is_header_char(c: char) -> bool {
    c == '\t' || (c as u32 >= 32 && c as u32 != 127)
}

/// Every character of `text` may stand in the value of an HTTP header.
pub open spec fn is_header_text(text: Seq<char>) -> bool {
    forall|i: int| 0 <= i < text.len() ==> is_header_char(#[trigger] text[i])
}

/// An HTTP status of the 2xx class.
pub open spec fn is_success_status(status: u16) -> bool {
    200 <= status < 300
}

/// The provider that passes a request through to the OpenAI API.
#[derive(Debug, PartialEq)]
pub struct OpenAIChatCompletionsProvider {
    api_key: String,
}

impl OpenAIChatCompletionsProvider {
    /// The key that the provider presents.
    pub closed spec fn key(&self) -> Seq<char> {
        self.api_key@
    }

    /// A provider that presents `api_key`.
    pub fn new(api_key: &str) -> (r: Self)
        ensures
            r.key() == api_key@,
    {
        OpenAIChatCompletionsProvider { api_key: api_key.to_owned() }
    }

    /// The address of the API.
    pub fn api_url() -> (r: String)
        ensures
            r@ == "https://api.openai.com/v1/chat/completions"@,
    {
        "https://api.openai.com/v1/chat/completions".to_owned()
    }

    /// The value of the `Authorization` header: `Bearer` and the key. A key
    /// with a character that no header value can hold is refused.
    pub fn authorization(&self) -> (r: Result<String, AppError>)
        ensures
            match r {
                Ok(value) => is_header_text(self.key()) && value@ == "Bearer "@ + self.key(),
                Err(error) => !is_header_text(self.key()) && error.text()
                    == "Invalid API key format"@,
            },
    {
        let key = to_chars(self.api_key.as_str());
        let mut i: usize = 0;
        while i < key.len()
            invariant
                i <= key.len(),
                key@ == self.key(),
                forall|k: int| 0 <= k < i ==> is_header_char(#[trigger] key[k]),
            decreases key.len() - i,
        {
            let c = key[i];
            if !(c == '\t' || (c as u32 >= 32 && c as u32 != 127)) {
                assert(!is_header_char(self.key()[i as int]));
                return Err(AppError::new("Invalid API key format".to_owned()));
            }
            i += 1;
        }
        Ok(concat_str("Bearer ", self.api_key.as_str()))
    }

    /// The request as it is passed through: the same request, with
    /// streaming switched on.
    pub fn prepare(request: &mut ChatCompletionsRequest)
        ensures
            final(request).deep_view() == (RequestView {
                stream: Some(true),
                ..old(request).deep_view()
            }),
    {
        request.stream = Some(true);
    }

    /// What an answer of the API with the given status means: nothing is
    /// wrong with a status of the 2xx class, any other is an error that
    /// carries the status and the body.
    pub fn check_status(status: u16, body: &str) -> (r: Result<(), StreamError>)
        ensures
            match r {
                Ok(_) => is_success_status(status),
                Err(error) => !is_success_status(status) && error.deep_view()
                    == (StreamErrorView::ApiResponse { status, message: body@ }),
            },
    {
        if 200 <= status && status < 300 {
            Ok(())
        } else {
            Err(StreamError::ApiResponse { status, message: body.to_owned() })
        }
    }

    /// The re-chunker for the answer to a request for `model`, under the
    /// given id and creation time.
    pub fn rechunker(id: String, created: i64, model: &str) -> (r: SseRechunker)
        ensures
            r.buffered() == Seq::<char>::empty(),
            r.id() == id@,
            r.created() == created,
            r.model() == model@,
    {
        SseRechunker::new(id, created, model.to_owned())
    }
}

} // verus!
