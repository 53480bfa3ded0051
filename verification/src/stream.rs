//! The translation of the backend's event stream into the events of a
//! chat-completions stream.
//!
//! The translator is a small state machine. Whoever reads the backend hands
//! it what came, one input at a time, and sends what it emits. Every event of
//! the backend gives exactly one chunk, in the order of arrival. The end of
//! the stream gives the sentinel. A failure gives one error event and the
//! sentinel, and nothing after that.

use crate::codec::printed;
use crate::converse::{ConverseStreamOutput, ConverseStreamOutputView};
use crate::error::{classify_error, ErrorContext, StreamError};
use crate::response::{
    built, converse_stream_output_to_chat_completions_response_builder, event_chunk,
    ChatCompletionsResponse, ResponseView, Usage,
};
use crate::sse::{create_sse_event, done_event, done_payload, error_event, report, SseEvent};
use crate::wire::response_json;
use vstd::prelude::*;

verus! {

/// What the reader of the backend's stream hands over.
#[derive(Debug, PartialEq)]
pub enum StreamInput {
    /// The next event.
    Event(ConverseStreamOutput),
    /// The stream has ended.
    End,
    /// The stream broke; the text says how.
    ReceiveError(String),
}

/// The state of one response stream: the id and the creation time that all
/// its chunks carry, and whether it has ended.
#[derive(Debug, PartialEq)]
pub struct StreamTranslator {
    id: String,
    created: i64,
    finished: bool,
}

/// The chunk of a stream for one event of the backend: what the event gives,
/// under the id and the creation time of the stream.
pub open spec fn stream_chunk(id: Seq<char>, created: i64, event: ConverseStreamOutputView) -> ResponseView {
    built(ResponseView { created: Some(created), id: Some(id), ..event_chunk(event) })
}

/// The payload of the chunk of a stream for one event of the backend.
pub open spec fn chunk_payload(id: Seq<char>, created: i64, event: ConverseStreamOutputView) -> Seq<
    char,
> {
    printed(response_json(stream_chunk(id, created, event)))
}

/// What a whole stream of the backend gives, under the given id and creation
/// time: one chunk for each event, in the order of the events, and then the
/// sentinel.
pub open spec fn translation(
    id: Seq<char>,
    created: i64,
    events: Seq<ConverseStreamOutputView>,
) -> Seq<Seq<char>> {
    Seq::new(
        events.len() + 1,
        |i: int|
            if 0 <= i < events.len() {
                chunk_payload(id, created, events[i])
            } else {
                done_payload()
            },
    )
}

/// A hexadecimal digit in lower case.
pub open spec fn is_lower_hex(c: char) -> bool {
    ('0' <= c && c <= '9') || ('a' <= c && c <= 'f')
}

/// A place of a hyphen in the text of an identifier.
pub open spec fn is_hyphen_place(i: int) -> bool {
    i == 8 || i == 13 || i == 18 || i == 23
}

/// The text of a random identifier: 36 characters, hyphens after the 8th,
/// 12th, 16th and 20th digit, lower-case hexadecimal digits everywhere else.
/// The first digit of the third group is the version, 4; the first digit of
/// the fourth group is the variant, one of `8`, `9`, `a`, `b`. Which digits
/// stand in the other 30 places is chance.
pub open spec fn is_random_id(text: Seq<char>) -> bool {
    &&& text.len() == 36
    &&& forall|i: int|
        0 <= i < 36 ==> if is_hyphen_place(i) {
            #[trigger] text[i] == '-'
        } else {
            is_lower_hex(text[i])
        }
    &&& text[14] == '4'
    &&& (text[19] == '8' || text[19] == '9' || text[19] == 'a' || text[19] == 'b')
}

/// `uuid::Uuid::new_v4`, as text: a random identifier of version 4, in the
/// hyphenated lower-case form that `Uuid` is displayed in. Only that form is
/// claimed. The call fails only where the system has no source of
/// randomness.
#[verifier::external_body]
fn random_id() -> (r: String)
    ensures
        is_random_id(r@),
{
    uuid::Uuid::new_v4().to_string()
}

/// `chrono::Utc::now`, as seconds since the epoch. The call fails where the
/// system clock stands before the epoch, so what it returns is never
/// negative; nothing else is claimed of it.
#[verifier::external_body]
fn unix_time() -> (r: i64)
    ensures
        r >= 0,
{
    chrono::Utc::now().timestamp()
}

/// The two events that end a stream after a failure: the report of the
/// failure, then the sentinel.
fn failure_events(complaint: &str, context: ErrorContext) -> (r: Vec<SseEvent>)
    ensures
        r.len() == 2,
        r[0].data@ == report(complaint@, context),
        r[0].data@ != done_payload(),
        r[1].data@ == done_payload(),
{
    let mut emitted: Vec<SseEvent> = Vec::new();
    emitted.push(error_event(&classify_error(complaint, context)));
    emitted.push(done_event());
    emitted
}

impl StreamTranslator {
    /// The id that every chunk of the stream carries.
    pub closed spec fn id(&self) -> Seq<char> {
        self.id@
    }

    /// The creation time that every chunk of the stream carries.
    pub closed spec fn created(&self) -> i64 {
        self.created
    }

    /// Whether the stream has ended.
    pub closed spec fn finished(&self) -> bool {
        self.finished
    }

    /// A stream under the given id and creation time.
    pub fn new(id: String, created: i64) -> (r: StreamTranslator)
        ensures
            r.id() == id@,
            r.created() == created,
            !r.finished(),
    {
        StreamTranslator { id, created, finished: false }
    }

    /// A stream that has not ended, under a fresh random id, created now.
    /// The id has the form of a random identifier and the creation time is
    /// the number of seconds since the epoch. This asks the system for
    /// randomness and for the time, and fails where it has neither.
    pub fn start() -> (r: StreamTranslator)
        ensures
            !r.finished(),
            is_random_id(r.id()),
            r.created() >= 0,
    {
        StreamTranslator::new(random_id(), unix_time())
    }

    /// The id that every chunk of the stream carries.
    pub fn stream_id(&self) -> (r: &String)
        ensures
            r@ == self.id(),
    {
        &self.id
    }

    /// The creation time that every chunk of the stream carries.
    pub fn created_at(&self) -> (r: i64)
        ensures
            r == self.created(),
    {
        self.created
    }

    /// Whether the stream has ended.
    pub fn is_finished(&self) -> (r: bool)
        ensures
            r == self.finished(),
    {
        self.finished
    }

    /// The chunk for one event of the backend. It carries exactly one choice.
    /// Where the event reports usage, `usage_callback` is called with it
    /// once.
    pub fn chunk<F: Fn(&Usage)>(&self, output: &ConverseStreamOutput, usage_callback: &F) -> (r:
        ChatCompletionsResponse)
        requires
            forall|usage: &Usage| call_requires(*usage_callback, (usage,)),
        ensures
            r.deep_view() == stream_chunk(self.id(), self.created(), output.deep_view()),
            r.choices.len() == 1,
    {
        let builder = converse_stream_output_to_chat_completions_response_builder(
            output,
            usage_callback,
        );
        let response = builder.id(Some(self.id.clone())).created(Some(self.created)).build();
        assert(response.deep_view().choices.len() == response.choices.len());
        response
    }

    /// Takes one input and gives the events to send, in order.
    ///
    /// An event of the backend gives its chunk, and nothing else. The end of
    /// the stream gives the sentinel. A broken stream gives the report of the
    /// failure and then the sentinel. After the sentinel nothing is emitted
    /// any more.
    pub fn step<F: Fn(&Usage)>(&mut self, input: &StreamInput, usage_callback: &F) -> (emitted: Vec<
        SseEvent,
    >)
        requires
            forall|usage: &Usage| call_requires(*usage_callback, (usage,)),
        ensures
            final(self).id() == old(self).id(),
            final(self).created() == old(self).created(),
            old(self).finished() ==> emitted.len() == 0 && final(self).finished(),
            !old(self).finished() ==> match input {
                StreamInput::Event(output) => {
                    &&& !final(self).finished()
                    &&& emitted.len() == 1
                    &&& emitted[0].data@ == chunk_payload(
                        old(self).id(),
                        old(self).created(),
                        output.deep_view(),
                    )
                    &&& emitted[0].data@ != done_payload()
                },
                StreamInput::End => {
                    &&& final(self).finished()
                    &&& emitted.len() == 1
                    &&& emitted[0].data@ == done_payload()
                },
                StreamInput::ReceiveError(complaint) => {
                    &&& final(self).finished()
                    &&& emitted.len() == 2
                    &&& emitted[0].data@ == report(complaint@, ErrorContext::StreamReceive)
                    &&& emitted[0].data@ != done_payload()
                    &&& emitted[1].data@ == done_payload()
                },
            },
    {
        if self.finished {
            return Vec::new();
        }
        match input {
            StreamInput::Event(output) => {
                let response = self.chunk(output, usage_callback);
                match create_sse_event(&response) {
                    Ok(event) => {
                        let mut emitted: Vec<SseEvent> = Vec::new();
                        emitted.push(event);
                        emitted
                    },
                    // A chunk is always printed. Were it not, the failure
                    // would end the stream as a broken stream does.
                    Err(error) => {
                        self.finished = true;
                        let complaint = match error {
                            StreamError::Serialization(complaint) => complaint,
                            _ => String::new(),
                        };
                        failure_events(complaint.as_str(), ErrorContext::Serialization)
                    },
                }
            },
            StreamInput::End => {
                self.finished = true;
                let mut emitted: Vec<SseEvent> = Vec::new();
                emitted.push(done_event());
                emitted
            },
            StreamInput::ReceiveError(complaint) => {
                self.finished = true;
                failure_events(complaint.as_str(), ErrorContext::StreamReceive)
            },
        }
    }
}

/// Translates a whole stream of the backend that ended without a transport
/// failure: the chunk of each event, in order, then the sentinel, and the
/// sentinel nowhere else. A stream that has ended already gives nothing.
#[verifier::loop_isolation(false)]
pub fn translate_stream<F: Fn(&Usage)>(
    translator: &mut StreamTranslator,
    events: &Vec<ConverseStreamOutput>,
    usage_callback: &F,
) -> (emitted: Vec<SseEvent>)
    requires
        forall|usage: &Usage| call_requires(*usage_callback, (usage,)),
    ensures
        final(translator).finished(),
        final(translator).id() == old(translator).id(),
        final(translator).created() == old(translator).created(),
        old(translator).finished() ==> emitted.len() == 0,
        !old(translator).finished() ==> {
            &&& emitted.deep_view() == translation(
                old(translator).id(),
                old(translator).created(),
                events.deep_view(),
            )
            &&& forall|i: int|
                0 <= i < events.len() ==> (#[trigger] emitted[i]).data@ != done_payload()
        },
{
    let ghost id = translator.id();
    let ghost created = translator.created();
    let mut emitted: Vec<SseEvent> = Vec::new();
    if translator.finished {
        return emitted;
    }
    let mut i: usize = 0;
    while i < events.len()
        invariant
            i <= events.len(),
            !translator.finished(),
            translator.id() == id,
            translator.created() == created,
            emitted.len() == i,
            forall|k: int|
                0 <= k < i ==> (#[trigger] emitted[k]).data@ == chunk_payload(
                    id,
                    created,
                    events[k].deep_view(),
                ) && emitted[k].data@ != done_payload(),
        decreases events.len() - i,
    {
        let response = translator.chunk(&events[i], usage_callback);
        match create_sse_event(&response) {
            Ok(event) => {
                emitted.push(event);
            },
            // A chunk is always printed. Were it not, the failure would end
            // the stream as a broken stream does.
            Err(error) => {
                translator.finished = true;
                let complaint = match error {
                    StreamError::Serialization(complaint) => complaint,
                    _ => String::new(),
                };
                let mut failure = failure_events(complaint.as_str(), ErrorContext::Serialization);
                emitted.append(&mut failure);
                return emitted;
            },
        }
        i += 1;
    }
    translator.finished = true;
    emitted.push(done_event());
    assert(emitted.deep_view() =~= translation(id, created, events.deep_view()));
    emitted
}

/// A whole stream of n events gives n + 1 items: the chunk of each event at
/// the place of the event, under the one id and creation time of the stream,
/// and the sentinel last.
pub proof fn lemma_translation(id: Seq<char>, created: i64, events: Seq<ConverseStreamOutputView>)
    ensures
        translation(id, created, events).len() == events.len() + 1,
        forall|i: int|
            0 <= i < events.len() ==> #[trigger] translation(id, created, events)[i]
                == chunk_payload(id, created, events[i]),
        translation(id, created, events)[events.len() as int] == done_payload(),
{
}

/// Every chunk of a stream carries exactly one choice, whatever the event and
/// whatever the stream.
pub proof fn lemma_stream_chunk_has_one_choice(
    id: Seq<char>,
    created: i64,
    event: ConverseStreamOutputView,
)
    ensures
        stream_chunk(id, created, event).choices.len() == 1,
        stream_chunk(id, created, event).id == Some(id),
        stream_chunk(id, created, event).created == Some(created),
{
}

} // verus!
