//! The errors of the library, and the classification of backend failures.
//!
//! A failure of the backend or of the transport arrives as a text. The
//! classifier looks for a few words in its ASCII lower-case form and gives it
//! a category, a stable code and a message for the user. The rules are tried
//! in a fixed order and the first that matches decides.

use crate::text::{
    concat_str, contains, decimal, from_chars, has_substring, lower, lowercase, occurs_at,
    push_decimal, to_chars,
};
use vstd::prelude::*;
use vstd::string::StringExecFns;

verus! {

/// Why a request could not be translated. Nothing is sent to the backend
/// once one of these is found.
#[derive(Clone, Copy, Debug, PartialEq, Eq, Structural)]
pub enum TranslationError {
    /// A message that has to carry content carries none.
    MissingContents,
    /// A tool message does not say which tool call it answers.
    MissingToolCallId,
    /// A tool result was asked for from content that is empty.
    EmptyToolContents,
    /// Tools were announced, and the list of them is empty.
    MissingTools,
}

impl TranslationError {
    /// The error in words.
    pub open spec fn description(self) -> Seq<char> {
        match self {
            TranslationError::MissingContents => "Message must have contents"@,
            TranslationError::MissingToolCallId => "Tool message must have tool_call_id"@,
            TranslationError::EmptyToolContents => "Tool message contents cannot be empty"@,
            TranslationError::MissingTools => "tools was not specified but it is required"@,
        }
    }

    /// The stable code of the error.
    pub open spec fn code_of(self) -> Seq<char> {
        match self {
            TranslationError::MissingContents => "missing_contents"@,
            TranslationError::MissingToolCallId => "missing_tool_call_id"@,
            TranslationError::EmptyToolContents => "empty_tool_contents"@,
            TranslationError::MissingTools => "missing_tools"@,
        }
    }

    /// The stable code of the error.
    pub fn code(&self) -> (r: String)
        ensures
            r@ == self.code_of(),
    {
        match self {
            TranslationError::MissingContents => "missing_contents".to_owned(),
            TranslationError::MissingToolCallId => "missing_tool_call_id".to_owned(),
            TranslationError::EmptyToolContents => "empty_tool_contents".to_owned(),
            TranslationError::MissingTools => "missing_tools".to_owned(),
        }
    }

    /// The HTTP status that goes with a request that cannot be translated:
    /// it is the client's fault.
    pub fn status(&self) -> (r: u16)
        ensures
            r == 400,
    {
        400
    }

    /// The error in words.
    pub fn message(&self) -> (r: String)
        ensures
            r@ == self.description(),
    {
        match self {
            TranslationError::MissingContents => "Message must have contents".to_owned(),
            TranslationError::MissingToolCallId => "Tool message must have tool_call_id".to_owned(),
            TranslationError::EmptyToolContents => "Tool message contents cannot be empty".to_owned(),
            TranslationError::MissingTools => "tools was not specified but it is required".to_owned(),
        }
    }
}

/// What went wrong while a response was streamed.
#[derive(Debug, PartialEq)]
pub enum StreamError {
    /// A chunk could not be encoded or decoded.
    Serialization(String),
    /// The stream of the backend broke.
    StreamReceive(String),
    /// The backend could not be reached, or turned the call down.
    Connection(String),
    /// The backend's client reported an error.
    AwsSdk(String),
    /// The HTTP client reported an error.
    HttpClient(String),
    /// The provider answered with an error status.
    ApiResponse { status: u16, message: String },
    /// Anything else.
    Other(String),
}

/// The content of a [`StreamError`].
pub enum StreamErrorView {
    Serialization(Seq<char>),
    StreamReceive(Seq<char>),
    Connection(Seq<char>),
    AwsSdk(Seq<char>),
    HttpClient(Seq<char>),
    ApiResponse { status: u16, message: Seq<char> },
    Other(Seq<char>),
}

impl DeepView for StreamError {
    type V = StreamErrorView;

    open spec fn deep_view(&self) -> StreamErrorView {
        match self {
            StreamError::Serialization(text) => StreamErrorView::Serialization(text@),
            StreamError::StreamReceive(text) => StreamErrorView::StreamReceive(text@),
            StreamError::Connection(text) => StreamErrorView::Connection(text@),
            StreamError::AwsSdk(text) => StreamErrorView::AwsSdk(text@),
            StreamError::HttpClient(text) => StreamErrorView::HttpClient(text@),
            StreamError::ApiResponse { status, message } => StreamErrorView::ApiResponse {
                status: *status,
                message: message@,
            },
            StreamError::Other(text) => StreamErrorView::Other(text@),
        }
    }
}

impl StreamErrorView {
    /// The error in words.
    pub open spec fn description(self) -> Seq<char> {
        match self {
            StreamErrorView::Serialization(text) => "Serialization error: "@ + text,
            StreamErrorView::StreamReceive(text) => "Stream receive error: "@ + text,
            StreamErrorView::Connection(text) => "Connection error: "@ + text,
            StreamErrorView::AwsSdk(text) => "AWS SDK error: "@ + text,
            StreamErrorView::HttpClient(text) => "HTTP client error: "@ + text,
            StreamErrorView::ApiResponse { status, message } => "API error: HTTP "@ + decimal(
                status as nat,
            ) + ": "@ + message,
            StreamErrorView::Other(text) => "Error: "@ + text,
        }
    }

    /// What the error itself says, without the words that name its kind.
    pub open spec fn complaint(self) -> Seq<char> {
        match self {
            StreamErrorView::Serialization(text) => text,
            StreamErrorView::StreamReceive(text) => text,
            StreamErrorView::Connection(text) => text,
            StreamErrorView::AwsSdk(text) => text,
            StreamErrorView::HttpClient(text) => text,
            StreamErrorView::ApiResponse { message, .. } => message,
            StreamErrorView::Other(text) => text,
        }
    }

    /// Where the error happened: while a chunk was encoded, while the stream
    /// was read, or, for every other error, while the backend was called.
    pub open spec fn context(self) -> ErrorContext {
        match self {
            StreamErrorView::Serialization(_) => ErrorContext::Serialization,
            StreamErrorView::StreamReceive(_) => ErrorContext::StreamReceive,
            _ => ErrorContext::Connection,
        }
    }
}

impl StreamError {
    /// The error in words.
    pub fn message(&self) -> (r: String)
        ensures
            r@ == self.deep_view().description(),
    {
        match self {
            StreamError::Serialization(text) => concat_str("Serialization error: ", text.as_str()),
            StreamError::StreamReceive(text) => concat_str("Stream receive error: ", text.as_str()),
            StreamError::Connection(text) => concat_str("Connection error: ", text.as_str()),
            StreamError::AwsSdk(text) => concat_str("AWS SDK error: ", text.as_str()),
            StreamError::HttpClient(text) => concat_str("HTTP client error: ", text.as_str()),
            StreamError::ApiResponse { status, message } => {
                let mut digits: Vec<char> = Vec::new();
                push_decimal(*status as u64, &mut digits);
                assert(digits@ =~= decimal(*status as nat));
                let mut out = concat_str("API error: HTTP ", from_chars(&digits).as_str());
                out.append(": ");
                out.append(message.as_str());
                out
            },
            StreamError::Other(text) => concat_str("Error: ", text.as_str()),
        }
    }
}

/// The kinds of failure that a client is told apart.
#[derive(Clone, Copy, Debug, PartialEq, Eq, Structural)]
pub enum ErrorCategory {
    AccessDenied,
    NotFound,
    Throttled,
    ServerError,
}

/// Where a failure happened.
#[derive(Clone, Copy, Debug, PartialEq, Eq, Structural)]
pub enum ErrorContext {
    /// While the backend was called, before any event came.
    Connection,
    /// While the stream was read.
    StreamReceive,
    /// While a chunk was encoded.
    Serialization,
}

/// A failure as a client is to see it.
#[derive(Debug, PartialEq)]
pub struct ErrorClassification {
    pub category: ErrorCategory,
    /// The stable code of the failure.
    pub code: String,
    /// The message for the user.
    pub message: String,
}

/// The first rule: the text speaks of access, and of a model or a denial.
pub open spec fn speaks_of_access(lowered: Seq<char>) -> bool {
    contains(lowered, "access"@) && (contains(lowered, "model"@) || contains(lowered, "denied"@))
}

/// The second rule: the text speaks of something that is not there.
pub open spec fn speaks_of_absence(lowered: Seq<char>) -> bool {
    contains(lowered, "not found"@) || contains(lowered, "does not exist"@)
}

/// The third rule: the text speaks of throttling, a rate or a limit.
pub open spec fn speaks_of_throttling(lowered: Seq<char>) -> bool {
    contains(lowered, "throttl"@) || contains(lowered, "rate"@) || contains(lowered, "limit"@)
}

/// The category of a failure whose lower-case description is `lowered`: the
/// first rule that matches decides, and a failure that no rule matches is a
/// server error.
pub open spec fn category_of(lowered: Seq<char>) -> ErrorCategory {
    if speaks_of_access(lowered) {
        ErrorCategory::AccessDenied
    } else if speaks_of_absence(lowered) {
        ErrorCategory::NotFound
    } else if speaks_of_throttling(lowered) {
        ErrorCategory::Throttled
    } else {
        ErrorCategory::ServerError
    }
}

/// The stable code of a category. That of a server error says where the
/// failure happened.
pub open spec fn code_of(category: ErrorCategory, context: ErrorContext) -> Seq<char> {
    match category {
        ErrorCategory::AccessDenied => "model_access_error"@,
        ErrorCategory::NotFound => "model_not_found"@,
        ErrorCategory::Throttled => "rate_limit_exceeded"@,
        ErrorCategory::ServerError => match context {
            ErrorContext::Connection => "connection_error"@,
            ErrorContext::StreamReceive => "stream_receive_error"@,
            ErrorContext::Serialization => "serialization_error"@,
        },
    }
}

/// The words that open the message for the user.
pub open spec fn opening_of(category: ErrorCategory, context: ErrorContext) -> Seq<char> {
    match category {
        ErrorCategory::AccessDenied => "Access to the requested model was denied: "@,
        ErrorCategory::NotFound => "The requested model was not found: "@,
        ErrorCategory::Throttled => "Rate limit exceeded, please retry later: "@,
        ErrorCategory::ServerError => match context {
            ErrorContext::Connection => "Connection error: "@,
            ErrorContext::StreamReceive => "Stream receive error: "@,
            ErrorContext::Serialization => "Serialization error: "@,
        },
    }
}

/// The HTTP status that goes with a category.
pub open spec fn status_of(category: ErrorCategory) -> u16 {
    match category {
        ErrorCategory::AccessDenied => 403,
        ErrorCategory::NotFound => 404,
        ErrorCategory::Throttled => 429,
        ErrorCategory::ServerError => 500,
    }
}

/// The `type` that the error object of a category carries.
pub open spec fn type_of(category: ErrorCategory) -> Seq<char> {
    match category {
        ErrorCategory::AccessDenied => "permission_error"@,
        ErrorCategory::NotFound => "not_found_error"@,
        ErrorCategory::Throttled => "rate_limit_error"@,
        ErrorCategory::ServerError => "server_error"@,
    }
}

impl ErrorCategory {
    /// The HTTP status that goes with the category.
    pub fn status(&self) -> (r: u16)
        ensures
            r == status_of(*self),
    {
        match self {
            ErrorCategory::AccessDenied => 403,
            ErrorCategory::NotFound => 404,
            ErrorCategory::Throttled => 429,
            ErrorCategory::ServerError => 500,
        }
    }

    /// The `type` that the error object of the category carries.
    pub fn kind(&self) -> (r: String)
        ensures
            r@ == type_of(*self),
    {
        match self {
            ErrorCategory::AccessDenied => "permission_error".to_owned(),
            ErrorCategory::NotFound => "not_found_error".to_owned(),
            ErrorCategory::Throttled => "rate_limit_error".to_owned(),
            ErrorCategory::ServerError => "server_error".to_owned(),
        }
    }

    /// The stable code of the category for a failure in `context`.
    pub fn code(&self, context: ErrorContext) -> (r: String)
        ensures
            r@ == code_of(*self, context),
    {
        match self {
            ErrorCategory::AccessDenied => "model_access_error".to_owned(),
            ErrorCategory::NotFound => "model_not_found".to_owned(),
            ErrorCategory::Throttled => "rate_limit_exceeded".to_owned(),
            ErrorCategory::ServerError => match context {
                ErrorContext::Connection => "connection_error".to_owned(),
                ErrorContext::StreamReceive => "stream_receive_error".to_owned(),
                ErrorContext::Serialization => "serialization_error".to_owned(),
            },
        }
    }

    fn opening(&self, context: ErrorContext) -> (r: String)
        ensures
            r@ == opening_of(*self, context),
    {
        match self {
            ErrorCategory::AccessDenied => "Access to the requested model was denied: ".to_owned(),
            ErrorCategory::NotFound => "The requested model was not found: ".to_owned(),
            ErrorCategory::Throttled => "Rate limit exceeded, please retry later: ".to_owned(),
            ErrorCategory::ServerError => match context {
                ErrorContext::Connection => "Connection error: ".to_owned(),
                ErrorContext::StreamReceive => "Stream receive error: ".to_owned(),
                ErrorContext::Serialization => "Serialization error: ".to_owned(),
            },
        }
    }
}

/// The category of a failure, given its description in ASCII lower case.
pub fn categorize(lowered: &Vec<char>) -> (r: ErrorCategory)
    ensures
        r == category_of(lowered@),
{
    if has_substring(lowered, &to_chars("access")) && (has_substring(lowered, &to_chars("model"))
        || has_substring(lowered, &to_chars("denied"))) {
        ErrorCategory::AccessDenied
    } else if has_substring(lowered, &to_chars("not found")) || has_substring(
        lowered,
        &to_chars("does not exist"),
    ) {
        ErrorCategory::NotFound
    } else if has_substring(lowered, &to_chars("throttl")) || has_substring(
        lowered,
        &to_chars("rate"),
    ) || has_substring(lowered, &to_chars("limit")) {
        ErrorCategory::Throttled
    } else {
        ErrorCategory::ServerError
    }
}

/// Classifies the failure that `description` describes and that happened in
/// `context`.
pub fn classify_error(description: &str, context: ErrorContext) -> (r: ErrorClassification)
    ensures
        r.category == category_of(lower(description@)),
        r.code@ == code_of(r.category, context),
        r.message@ == opening_of(r.category, context) + description@,
{
    let lowered = lowercase(&to_chars(description));
    let category = categorize(&lowered);
    let code = category.code(context);
    let mut message = category.opening(context);
    message.append(description);
    ErrorClassification { category, code, message }
}

impl StreamError {
    /// The error as a client is to see it: what the error itself says is
    /// classified, in the context that the kind of the error gives.
    pub fn classify(&self) -> (r: ErrorClassification)
        ensures
            r.category == category_of(lower(self.deep_view().complaint())),
            r.code@ == code_of(r.category, self.deep_view().context()),
            r.message@ == opening_of(r.category, self.deep_view().context())
                + self.deep_view().complaint(),
    {
        match self {
            StreamError::Serialization(text) => classify_error(
                text.as_str(),
                ErrorContext::Serialization,
            ),
            StreamError::StreamReceive(text) => classify_error(
                text.as_str(),
                ErrorContext::StreamReceive,
            ),
            StreamError::Connection(text) => classify_error(text.as_str(), ErrorContext::Connection),
            StreamError::AwsSdk(text) => classify_error(text.as_str(), ErrorContext::Connection),
            StreamError::HttpClient(text) => classify_error(text.as_str(), ErrorContext::Connection),
            StreamError::ApiResponse { message, .. } => classify_error(
                message.as_str(),
                ErrorContext::Connection,
            ),
            StreamError::Other(text) => classify_error(text.as_str(), ErrorContext::Connection),
        }
    }
}

/// The order of the rules: access before absence, absence before
/// throttling, and a server error only where no rule matches. The code of
/// the first three categories does not depend on where the failure happened.
pub proof fn lemma_rules_in_order(lowered: Seq<char>, context: ErrorContext)
    ensures
        speaks_of_access(lowered) ==> category_of(lowered) == ErrorCategory::AccessDenied,
        !speaks_of_access(lowered) && speaks_of_absence(lowered) ==> category_of(lowered)
            == ErrorCategory::NotFound,
        !speaks_of_access(lowered) && !speaks_of_absence(lowered) && speaks_of_throttling(lowered)
            ==> category_of(lowered) == ErrorCategory::Throttled,
        category_of(lowered) == ErrorCategory::ServerError <==> !speaks_of_access(lowered)
            && !speaks_of_absence(lowered) && !speaks_of_throttling(lowered),
        category_of(lowered) != ErrorCategory::ServerError ==> code_of(
            category_of(lowered),
            context,
        ) == code_of(category_of(lowered), ErrorContext::Connection),
{
}

/// A lower-case word that stands in a phrase whose letters may be capitals
/// stands in the lower-case form of every text that holds the phrase.
pub proof fn lemma_lower_keeps_word(
    text: Seq<char>,
    phrase: Seq<char>,
    word: Seq<char>,
    offset: int,
)
    requires
        contains(text, phrase),
        occurs_at(lower(phrase), word, offset),
    ensures
        contains(lower(text), word),
{
    let start = choose|i: int| occurs_at(text, phrase, i);
    assert(text.subrange(start, start + phrase.len()) == phrase);
    assert forall|k: int| 0 <= k < word.len() implies #[trigger] lower(text)[start + offset + k]
        == word[k] by {
        assert(text.subrange(start, start + phrase.len())[offset + k] == text[start + offset + k]);
        assert(lower(phrase).subrange(offset, offset + word.len())[k] == lower(phrase)[offset + k]);
    }
    assert(lower(text).subrange(start + offset, start + offset + word.len()) =~= word);
    assert(occurs_at(lower(text), word, start + offset));
}

/// A failure whose description holds `Throttling: rate exceeded` is a
/// throttling, with the code `rate_limit_exceeded`, wherever it happened,
/// unless one of the two rules that are tried first matches its description.
pub proof fn lemma_throttling_is_recognised(description: Seq<char>, context: ErrorContext)
    requires
        contains(description, "Throttling: rate exceeded"@),
        !speaks_of_access(lower(description)),
        !speaks_of_absence(lower(description)),
    ensures
        category_of(lower(description)) == ErrorCategory::Throttled,
        code_of(category_of(lower(description)), context) == "rate_limit_exceeded"@,
{
    reveal_strlit("Throttling: rate exceeded");
    reveal_strlit("rate");
    let phrase = "Throttling: rate exceeded"@;
    assert(lower(phrase).subrange(12, 16) =~= "rate"@);
    lemma_lower_keeps_word(description, phrase, "rate"@, 12);
}

/// The classification `Throttling: rate exceeded` itself, on its own: none
/// of the earlier rules matches it.
pub proof fn lemma_throttling_phrase(context: ErrorContext)
    ensures
        category_of(lower("Throttling: rate exceeded"@)) == ErrorCategory::Throttled,
        code_of(category_of(lower("Throttling: rate exceeded"@)), context)
            == "rate_limit_exceeded"@,
{
    reveal_strlit("Throttling: rate exceeded");
    reveal_strlit("rate");
    reveal_strlit("access");
    reveal_strlit("not found");
    reveal_strlit("does not exist");
    let phrase = "Throttling: rate exceeded"@;
    let lowered = lower(phrase);
    assert(lowered.subrange(12, 16) =~= "rate"@);
    assert(occurs_at(lowered, "rate"@, 12));
    assert forall|i: int| !occurs_at(lowered, "access"@, i) by {
        if occurs_at(lowered, "access"@, i) {
            assert(lowered.subrange(i, i + 6)[0] == lowered[i]);
            assert(lowered.subrange(i, i + 6)[1] == lowered[i + 1]);
        }
    }
    assert forall|i: int| !occurs_at(lowered, "not found"@, i) by {
        if occurs_at(lowered, "not found"@, i) {
            assert(lowered.subrange(i, i + 9)[0] == lowered[i]);
            assert(lowered.subrange(i, i + 9)[1] == lowered[i + 1]);
        }
    }
    assert forall|i: int| !occurs_at(lowered, "does not exist"@, i) by {
        if occurs_at(lowered, "does not exist"@, i) {
            assert(lowered.subrange(i, i + 14)[0] == lowered[i]);
            assert(lowered.subrange(i, i + 14)[1] == lowered[i + 1]);
        }
    }
}

/// What the HTTP layer answers when a request fails before any stream is
/// opened.
#[derive(Debug, PartialEq)]
pub struct AppError {
    message: String,
}

impl AppError {
    /// The message of the failure.
    pub closed spec fn text(&self) -> Seq<char> {
        self.message@
    }

    /// A failure with the given message.
    pub fn new(message: String) -> (r: AppError)
        ensures
            r.text() == message@,
    {
        AppError { message }
    }

    /// The failure of a stream, as the failure of the request.
    pub fn from_stream_error(error: &StreamError) -> (r: AppError)
        ensures
            r.text() == error.deep_view().description(),
    {
        AppError { message: error.message() }
    }

    /// The failure of a translation, as the failure of the request.
    pub fn from_translation_error(error: &TranslationError) -> (r: AppError)
        ensures
            r.text() == error.description(),
    {
        AppError { message: error.message() }
    }

    /// The message of the failure.
    pub fn message(&self) -> (r: &String)
        ensures
            r@ == self.text(),
    {
        &self.message
    }

    /// The HTTP status of the answer: 400 where the client switched
    /// streaming off, 500 for every other failure.
    pub fn status_code(&self) -> (r: u16)
        ensures
            r == if contains(self.text(), "Streaming is required"@) {
                400u16
            } else {
                500u16
            },
    {
        if has_substring(&to_chars(self.message.as_str()), &to_chars("Streaming is required")) {
            400
        } else {
            500
        }
    }

    /// The body of the answer.
    pub fn body(&self) -> (r: String)
        ensures
            r@ == "Error: "@ + self.text(),
    {
        concat_str("Error: ", self.message.as_str())
    }
}

} // verus!
