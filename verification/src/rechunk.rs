//! The re-chunker of a passed-through stream.
//!
//! The provider's own stream arrives as bytes, cut anywhere. The re-chunker
//! keeps what has come of the line that is not complete yet, takes the
//! complete lines apart, and turns each `data: ` line into one event in the
//! library's own chunk schema.

use crate::codec::{parse_json, parse_result, printed};
use crate::error::{StreamError, StreamErrorView};
use crate::json::JsonValue;
use crate::response::{ChatCompletionsResponse, Usage};
use crate::sse::{create_sse_event, done_event, done_payload, error_event, report, SseEvent};
use crate::text::{
    concat_chars, concat_str, find_char, from_chars, has_prefix, matches_at, slice, to_chars,
    trim, trimmed,
};
use crate::wire::{chunk_from_json, decode_chunk, response_json};
use vstd::prelude::*;
use vstd::utf8::{decode_utf8, valid_utf8};

verus! {

/// What a complete line asks for.
#[derive(Debug, PartialEq)]
pub enum LineAction {
    /// Nothing: the line is blank, or it is no data line.
    Skip,
    /// The sentinel: the line is `data: [DONE]`.
    Done,
    /// One chunk: the line is `data: ` and this payload.
    Payload(String),
}

/// The content of a [`LineAction`].
pub enum LineActionView {
    Skip,
    Done,
    Payload(Seq<char>),
}

impl DeepView for LineAction {
    type V = LineActionView;

    open spec fn deep_view(&self) -> LineActionView {
        match self {
            LineAction::Skip => LineActionView::Skip,
            LineAction::Done => LineActionView::Done,
            LineAction::Payload(payload) => LineActionView::Payload(payload@),
        }
    }
}

/// What the line `line` asks for. The line is trimmed first.
pub open spec fn line_action(line: Seq<char>) -> LineActionView {
    let trimmed = trim(line);
    if trimmed.len() == 0 {
        LineActionView::Skip
    } else if trimmed == "data: [DONE]"@ {
        LineActionView::Done
    } else if has_prefix(trimmed, "data: "@) {
        LineActionView::Payload(trimmed.skip("data: "@.len() as int))
    } else {
        LineActionView::Skip
    }
}

/// The position of the first line break in `text`, or the length of `text`
/// if it has none.
pub open spec fn first_break(text: Seq<char>) -> nat
    decreases text.len(),
{
    if text.len() == 0 || text[0] == '\n' {
        0
    } else {
        1 + first_break(text.skip(1))
    }
}

/// What stands in `text` after its last line break: the line that is not
/// complete yet.
pub open spec fn pending(text: Seq<char>) -> Seq<char>
    decreases text.len(),
{
    let at = first_break(text) as int;
    if at < text.len() {
        pending(text.skip(at + 1))
    } else {
        text
    }
}

/// What the complete lines of `text` ask for, in order, without the lines
/// that ask for nothing.
pub open spec fn actions(text: Seq<char>) -> Seq<LineActionView>
    decreases text.len(),
{
    let at = first_break(text) as int;
    if at < text.len() {
        match line_action(text.take(at)) {
            LineActionView::Skip => actions(text.skip(at + 1)),
            action => seq![action] + actions(text.skip(at + 1)),
        }
    } else {
        Seq::empty()
    }
}

/// The first line break of `text` is at `at` if no character before `at` is
/// one and either `at` is one or `at` is the end.
pub proof fn lemma_first_break(text: Seq<char>, at: int)
    requires
        0 <= at <= text.len(),
        forall|i: int| 0 <= i < at ==> text[i] != '\n',
        at < text.len() ==> text[at] == '\n',
    ensures
        first_break(text) == at,
    decreases at,
{
    if at > 0 {
        let rest = text.skip(1);
        assert forall|i: int| 0 <= i < at - 1 implies rest[i] != '\n' by {
            assert(rest[i] == text[i + 1]);
        }
        if at < text.len() {
            assert(rest[at - 1] == text[at]);
        }
        lemma_first_break(rest, at - 1);
    }
}

/// The first line break of a text that has one is the first line break of
/// the text with anything after it.
pub proof fn lemma_first_break_of_longer(text: Seq<char>, more: Seq<char>)
    requires
        first_break(text) < text.len(),
    ensures
        first_break(text + more) == first_break(text),
    decreases text.len(),
{
    if text[0] != '\n' {
        assert((text + more).skip(1) =~= text.skip(1) + more);
        lemma_first_break_of_longer(text.skip(1), more);
    }
}

/// The first line break of a text is a position in it or its end.
pub proof fn lemma_first_break_in_range(text: Seq<char>)
    ensures
        first_break(text) <= text.len(),
    decreases text.len(),
{
    if text.len() > 0 && text[0] != '\n' {
        lemma_first_break_in_range(text.skip(1));
    }
}

/// What is kept of a text holds no line break: every complete line has been
/// taken.
pub proof fn lemma_pending_is_one_line(text: Seq<char>)
    ensures
        forall|i: int| 0 <= i < pending(text).len() ==> #[trigger] pending(text)[i] != '\n',
        first_break(pending(text)) == pending(text).len(),
        actions(pending(text)) == Seq::<LineActionView>::empty(),
        pending(pending(text)) == pending(text),
    decreases text.len(),
{
    lemma_first_break_in_range(text);
    let at = first_break(text) as int;
    if at < text.len() {
        lemma_pending_is_one_line(text.skip(at + 1));
    } else {
        lemma_no_break_before(text, text.len() as int);
    }
}

/// No character before the first line break of a text is a line break.
pub proof fn lemma_no_break_before(text: Seq<char>, upto: int)
    requires
        0 <= upto <= first_break(text),
        upto <= text.len(),
    ensures
        forall|i: int| 0 <= i < upto ==> #[trigger] text[i] != '\n',
    decreases text.len(),
{
    if upto > 0 {
        let rest = text.skip(1);
        lemma_no_break_before(rest, upto - 1);
        assert forall|i: int| 0 <= i < upto implies #[trigger] text[i] != '\n' by {
            if i > 0 {
                assert(rest[i - 1] == text[i]);
            }
        }
    }
}

/// Buffering across a split: a text that arrives in two pieces asks for what
/// it asks for in one piece, and leaves the same line incomplete. The lines
/// that the first piece completes are taken at once; what it leaves is put
/// before the second piece.
pub proof fn lemma_split(first: Seq<char>, second: Seq<char>)
    ensures
        actions(first + second) == actions(first) + actions(pending(first) + second),
        pending(first + second) == pending(pending(first) + second),
    decreases first.len(),
{
    lemma_first_break_in_range(first);
    let at = first_break(first) as int;
    if at < first.len() {
        lemma_first_break_of_longer(first, second);
        let rest = first.skip(at + 1);
        assert((first + second).skip(at + 1) =~= rest + second);
        assert((first + second).take(at) =~= first.take(at));
        lemma_split(rest, second);
        assert(actions(first + second) =~= actions(first) + actions(pending(first) + second));
    } else {
        assert(actions(first) + actions(first + second) =~= actions(first + second));
    }
}

/// Splitting changes nothing that is given: a text that arrives in two
/// pieces gives what it gives in one piece. The lines that the first piece
/// completes give their items at once; the rest follows when the second
/// piece has come.
pub proof fn lemma_split_outputs(
    first: Seq<char>,
    second: Seq<char>,
    id: Seq<char>,
    created: i64,
    model: Seq<char>,
)
    ensures
        outputs(first + second, id, created, model) == outputs(first, id, created, model)
            + outputs(pending(first) + second, id, created, model),
{
    lemma_split(first, second);
    assert(outputs(first + second, id, created, model) =~= outputs(first, id, created, model)
        + outputs(pending(first) + second, id, created, model));
}

/// Pushing the pieces of a stream one after the other gives what the whole
/// stream gives in one piece, in the same order, and leaves the same line
/// incomplete, provided that the re-chunker holds no complete line when it
/// begins, as every re-chunker does.
pub proof fn lemma_fed(
    buffer: Seq<char>,
    pieces: Seq<Seq<char>>,
    id: Seq<char>,
    created: i64,
    model: Seq<char>,
)
    requires
        first_break(buffer) == buffer.len(),
    ensures
        fed(buffer, pieces, id, created, model) == outputs(
            buffer + joined(pieces),
            id,
            created,
            model,
        ),
        left(buffer, pieces) == pending(buffer + joined(pieces)),
    decreases pieces.len(),
{
    if pieces.len() == 0 {
        assert(buffer + joined(pieces) =~= buffer);
        assert(outputs(buffer, id, created, model) =~= Seq::empty());
    } else {
        let taken = buffer + pieces[0];
        let rest = pieces.skip(1);
        lemma_pending_is_one_line(taken);
        lemma_fed(pending(taken), rest, id, created, model);
        lemma_split_outputs(taken, joined(rest), id, created, model);
        lemma_split(taken, joined(rest));
        assert(buffer + joined(pieces) =~= taken + joined(rest));
    }
}

/// Any two ways of cutting one stream into pieces give the same items in the
/// same order, and leave the same line incomplete.
pub proof fn lemma_any_splitting(
    one: Seq<Seq<char>>,
    other: Seq<Seq<char>>,
    id: Seq<char>,
    created: i64,
    model: Seq<char>,
)
    requires
        joined(one) == joined(other),
    ensures
        fed(Seq::empty(), one, id, created, model) == fed(Seq::empty(), other, id, created, model),
        left(Seq::empty(), one) == left(Seq::empty(), other),
{
    lemma_fed(Seq::empty(), one, id, created, model);
    lemma_fed(Seq::empty(), other, id, created, model);
}

/// Every action among `actions(text)` asks for something.
pub proof fn lemma_actions_ask(text: Seq<char>)
    ensures
        forall|k: int| 0 <= k < actions(text).len() ==> !(#[trigger] actions(text)[k] is Skip),
    decreases text.len(),
{
    let at = first_break(text) as int;
    if at < text.len() {
        lemma_actions_ask(text.skip(at + 1));
        let rest = actions(text.skip(at + 1));
        assert forall|k: int| 0 <= k < actions(text).len() implies !(#[trigger] actions(text)[k]
            is Skip) by {
            if !(line_action(text.take(at)) is Skip) && k > 0 {
                assert(actions(text)[k] == rest[k - 1]);
            }
        }
    }
}

/// The complaint about a payload that is no chunk.
pub open spec fn not_a_chunk() -> Seq<char> {
    "Failed to parse OpenAI chunk: not a chunk"@
}

/// The complaint about a payload that is no JSON, given that of the reader.
pub open spec fn not_json(complaint: Seq<char>) -> Seq<char> {
    "Failed to parse OpenAI chunk: "@ + complaint
}

/// What a line gives: the payload of its event, or its failure.
pub open spec fn outcome_view(outcome: Result<SseEvent, StreamError>) -> Result<
    Seq<char>,
    StreamErrorView,
> {
    match outcome {
        Ok(event) => Ok(event.data@),
        Err(error) => Err(error.deep_view()),
    }
}

/// What each of some lines gives, in order.
pub open spec fn outcome_views(outcomes: Seq<Result<SseEvent, StreamError>>) -> Seq<
    Result<Seq<char>, StreamErrorView>,
> {
    Seq::new(outcomes.len(), |i: int| outcome_view(outcomes[i]))
}

/// What a line action owes, in a stream whose defaults are `id`, `created`
/// and `model`. A line that asks for nothing owes nothing. The sentinel line
/// owes the sentinel. A payload that is no JSON owes a serialization error
/// with the reader's complaint, a payload that is JSON and no chunk owes a
/// serialization error that says so, and a payload that is a chunk owes the
/// chunk, printed.
pub open spec fn owed(action: LineActionView, id: Seq<char>, created: i64, model: Seq<char>) -> Option<
    Result<Seq<char>, StreamErrorView>,
> {
    match action {
        LineActionView::Skip => None,
        LineActionView::Done => Some(Ok(done_payload())),
        LineActionView::Payload(payload) => Some(
            match parse_result(payload) {
                Err(complaint) => Err(StreamErrorView::Serialization(not_json(complaint))),
                Ok(value) => match decode_chunk(value, id, created, model) {
                    Err(_) => Err(StreamErrorView::Serialization(not_a_chunk())),
                    Ok(chunk) => Ok(printed(response_json(chunk))),
                },
            },
        ),
    }
}

/// Whether an outcome is what a line action owes.
pub open spec fn answers(
    outcome: Result<SseEvent, StreamError>,
    action: LineActionView,
    id: Seq<char>,
    created: i64,
    model: Seq<char>,
) -> bool {
    owed(action, id, created, model) == Some(outcome_view(outcome))
}

/// What the complete lines of `text` give, in order: for each line that asks
/// for something, what it owes.
pub open spec fn outputs(text: Seq<char>, id: Seq<char>, created: i64, model: Seq<char>) -> Seq<
    Result<Seq<char>, StreamErrorView>,
> {
    let asked = actions(text);
    Seq::new(asked.len(), |i: int| owed(asked[i], id, created, model)->0)
}

/// The pieces of a stream, one after the other, as one text.
pub open spec fn joined(pieces: Seq<Seq<char>>) -> Seq<char>
    decreases pieces.len(),
{
    if pieces.len() == 0 {
        Seq::empty()
    } else {
        pieces[0] + joined(pieces.skip(1))
    }
}

/// What a re-chunker that holds `buffer` gives when the pieces are pushed one
/// after the other: what the first piece completes, then what the rest gives
/// to the re-chunker as the first piece left it.
pub open spec fn fed(
    buffer: Seq<char>,
    pieces: Seq<Seq<char>>,
    id: Seq<char>,
    created: i64,
    model: Seq<char>,
) -> Seq<Result<Seq<char>, StreamErrorView>>
    decreases pieces.len(),
{
    if pieces.len() == 0 {
        Seq::empty()
    } else {
        outputs(buffer + pieces[0], id, created, model) + fed(
            pending(buffer + pieces[0]),
            pieces.skip(1),
            id,
            created,
            model,
        )
    }
}

/// What a re-chunker that holds `buffer` holds after the pieces were pushed
/// one after the other.
pub open spec fn left(buffer: Seq<char>, pieces: Seq<Seq<char>>) -> Seq<char>
    decreases pieces.len(),
{
    if pieces.len() == 0 {
        buffer
    } else {
        left(pending(buffer + pieces[0]), pieces.skip(1))
    }
}

/// `std::str::from_utf8`: the text that the bytes encode where they are valid
/// UTF-8, nothing where they are not.
#[verifier::external_body]
fn utf8_text(bytes: &[u8]) -> (r: Option<String>)
    ensures
        match r {
            Some(text) => valid_utf8(bytes@) && text@ == decode_utf8(bytes@),
            None => !valid_utf8(bytes@),
        },
{
    match std::str::from_utf8(bytes) {
        Ok(text) => Some(text.to_owned()),
        Err(_) => None,
    }
}

/// What the line `line` asks for.
pub fn classify_line(line: &Vec<char>) -> (r: LineAction)
    ensures
        r.deep_view() == line_action(line@),
{
    let content = trimmed(line);
    let done = to_chars("data: [DONE]");
    let prefix = to_chars("data: ");
    if content.len() == 0 {
        LineAction::Skip
    } else if content.len() == done.len() && matches_at(&content, &done, 0) {
        assert(content@.subrange(0, content.len() as int) =~= content@);
        LineAction::Done
    } else if matches_at(&content, &prefix, 0) {
        proof {
            if content@ == done@ {
                assert(content@.subrange(0, content.len() as int) =~= content@);
            }
            assert(content@.skip(prefix.len() as int) =~= content@.subrange(
                prefix.len() as int,
                content.len() as int,
            ));
        }
        LineAction::Payload(from_chars(&slice(&content, prefix.len(), content.len())))
    } else {
        proof {
            if content@ == done@ {
                assert(content@.subrange(0, content.len() as int) =~= content@);
            }
        }
        LineAction::Skip
    }
}

/// The chunk of a data line, given what reading its payload as JSON gave, in
/// a stream whose defaults are `id`, `created` and `model`. A payload that
/// could not be read, and a value that is no chunk, are serialization
/// errors.
pub fn chunk_for_payload(parsed: Result<JsonValue, String>, id: &str, created: i64, model: &str) -> (r:
    Result<ChatCompletionsResponse, StreamError>)
    ensures
        match parsed {
            Ok(value) => match decode_chunk(value.deep_view(), id@, created, model@) {
                Ok(chunk) => r is Ok && r->Ok_0.deep_view() == chunk && r->Ok_0.choices.len() >= 1,
                Err(_) => r is Err && r->Err_0.deep_view() == StreamErrorView::Serialization(
                    not_a_chunk(),
                ),
            },
            Err(complaint) => r is Err && r->Err_0.deep_view() == StreamErrorView::Serialization(
                not_json(complaint@),
            ),
        },
{
    match parsed {
        Ok(value) => match chunk_from_json(&value, id, created, model) {
            Ok(chunk) => Ok(chunk),
            Err(_) => Err(
                StreamError::Serialization("Failed to parse OpenAI chunk: not a chunk".to_owned()),
            ),
        },
        Err(complaint) => Err(
            StreamError::Serialization(
                concat_str("Failed to parse OpenAI chunk: ", complaint.as_str()),
            ),
        ),
    }
}

/// The state of one passed-through stream: the line that is not complete
/// yet, and what a chunk is given where it does not say it itself.
#[derive(Debug, PartialEq)]
pub struct SseRechunker {
    line_buffer: Vec<char>,
    id: String,
    created: i64,
    model: String,
}

impl SseRechunker {
    /// What has come of the line that is not complete yet.
    pub closed spec fn buffered(&self) -> Seq<char> {
        self.line_buffer@
    }

    /// The id of a chunk that names none.
    pub closed spec fn id(&self) -> Seq<char> {
        self.id@
    }

    /// The creation time of a chunk that names none.
    pub closed spec fn created(&self) -> i64 {
        self.created
    }

    /// The model of a chunk that names none.
    pub closed spec fn model(&self) -> Seq<char> {
        self.model@
    }

    /// A re-chunker that has seen nothing, with the defaults of its stream.
    pub fn new(id: String, created: i64, model: String) -> (r: SseRechunker)
        ensures
            r.buffered() == Seq::<char>::empty(),
            r.id() == id@,
            r.created() == created,
            r.model() == model@,
    {
        SseRechunker { line_buffer: Vec::new(), id, created, model }
    }

    /// What has come of the line that is not complete yet.
    pub fn buffer(&self) -> (r: String)
        ensures
            r@ == self.buffered(),
    {
        from_chars(&self.line_buffer)
    }

    /// Takes `text` in: what the lines that it completes ask for, in order,
    /// without the lines that ask for nothing. What stands after the last
    /// line break is kept for the next time.
    pub fn take_lines(&mut self, text: &str) -> (r: Vec<LineAction>)
        ensures
            r.deep_view() == actions(old(self).buffered() + text@),
            final(self).buffered() == pending(old(self).buffered() + text@),
            final(self).id() == old(self).id(),
            final(self).created() == old(self).created(),
            final(self).model() == old(self).model(),
    {
        let ghost all = self.line_buffer@ + text@;
        self.line_buffer = concat_chars(&self.line_buffer, &to_chars(text));
        let mut found: Vec<LineAction> = Vec::new();
        assert(found.deep_view() =~= Seq::empty());
        assert(found.deep_view() + actions(all) =~= actions(all));
        loop
            invariant
                found.deep_view() + actions(self.line_buffer@) == actions(all),
                pending(self.line_buffer@) == pending(all),
                self.id() == old(self).id(),
                self.created() == old(self).created(),
                self.model() == old(self).model(),
            ensures
                found.deep_view() == actions(all),
                self.line_buffer@ == pending(all),
                self.id() == old(self).id(),
                self.created() == old(self).created(),
                self.model() == old(self).model(),
            decreases self.line_buffer.len(),
        {
            let ghost before = found.deep_view();
            let ghost buffer = self.line_buffer@;
            match find_char(&self.line_buffer, '\n') {
                Some(at) => {
                    proof {
                        lemma_first_break(buffer, at as int);
                    }
                    let line = slice(&self.line_buffer, 0, at);
                    let rest = slice(&self.line_buffer, at + 1, self.line_buffer.len());
                    assert(line@ =~= buffer.take(at as int));
                    assert(rest@ =~= buffer.skip(at + 1));
                    self.line_buffer = rest;
                    let action = classify_line(&line);
                    match action {
                        LineAction::Skip => {},
                        _ => {
                            found.push(action);
                            assert(found.deep_view() =~= before + seq![action.deep_view()]);
                            assert(found.deep_view() + actions(rest@) =~= before + (seq![
                                action.deep_view(),
                            ] + actions(rest@)));
                        },
                    }
                },
                None => {
                    proof {
                        lemma_first_break(buffer, buffer.len() as int);
                        assert(found.deep_view() + Seq::<LineActionView>::empty()
                            =~= found.deep_view());
                    }
                    break ;
                },
            }
        }
        found
    }

    /// The event that a line action owes; nothing for a line that asks for
    /// nothing. Where the chunk of a payload reports usage, `usage_callback`
    /// is called with it once.
    pub fn answer<F: Fn(&Usage)>(&self, action: &LineAction, usage_callback: &F) -> (r: Option<
        Result<SseEvent, StreamError>,
    >)
        requires
            forall|usage: &Usage| call_requires(*usage_callback, (usage,)),
        ensures
            match r {
                Some(outcome) => owed(
                    action.deep_view(),
                    self.id(),
                    self.created(),
                    self.model(),
                ) == Some(outcome_view(outcome)),
                None => owed(action.deep_view(), self.id(), self.created(), self.model()) is None,
            },
    {
        match action {
            LineAction::Skip => None,
            LineAction::Done => Some(Ok(done_event())),
            LineAction::Payload(payload) => {
                match chunk_for_payload(
                    parse_json(payload.as_str()),
                    self.id.as_str(),
                    self.created,
                    self.model.as_str(),
                ) {
                    Ok(chunk) => {
                        match &chunk.usage {
                            Some(usage) => {
                                usage_callback(usage);
                            },
                            None => {},
                        }
                        Some(create_sse_event(&chunk))
                    },
                    Err(error) => Some(Err(error)),
                }
            },
        }
    }

    /// Takes `text` in and gives what the lines that it completes owe, in
    /// order. A line that fails gives its error and does not stop the lines
    /// after it.
    pub fn push_str<F: Fn(&Usage)>(&mut self, text: &str, usage_callback: &F) -> (emitted: Vec<
        Result<SseEvent, StreamError>,
    >)
        requires
            forall|usage: &Usage| call_requires(*usage_callback, (usage,)),
        ensures
            final(self).buffered() == pending(old(self).buffered() + text@),
            final(self).id() == old(self).id(),
            final(self).created() == old(self).created(),
            final(self).model() == old(self).model(),
            outcome_views(emitted@) == outputs(
                old(self).buffered() + text@,
                old(self).id(),
                old(self).created(),
                old(self).model(),
            ),
    {
        let found = self.take_lines(text);
        let ghost asked = actions(old(self).buffered() + text@);
        proof {
            lemma_actions_ask(old(self).buffered() + text@);
        }
        let mut emitted: Vec<Result<SseEvent, StreamError>> = Vec::new();
        let mut i: usize = 0;
        while i < found.len()
            invariant
                i <= found.len(),
                emitted.len() == i,
                found.deep_view() == asked,
                forall|usage: &Usage| call_requires(*usage_callback, (usage,)),
                forall|k: int| 0 <= k < asked.len() ==> !(#[trigger] asked[k] is Skip),
                forall|k: int|
                    0 <= k < i ==> owed(asked[k], self.id(), self.created(), self.model()) == Some(
                        outcome_view(#[trigger] emitted[k]),
                    ),
            decreases found.len() - i,
        {
            assert(found[i as int].deep_view() == asked[i as int]);
            match self.answer(&found[i], usage_callback) {
                Some(outcome) => {
                    emitted.push(outcome);
                },
                None => {
                    assert(false);
                },
            }
            i += 1;
        }
        assert(outcome_views(emitted@) =~= outputs(
            old(self).buffered() + text@,
            self.id(),
            self.created(),
            self.model(),
        ));
        emitted
    }

    /// Takes the bytes of one piece of the stream in. A piece that is no
    /// valid UTF-8 is dropped whole and changes nothing.
    pub fn push_bytes<F: Fn(&Usage)>(&mut self, bytes: &[u8], usage_callback: &F) -> (emitted: Vec<
        Result<SseEvent, StreamError>,
    >)
        requires
            forall|usage: &Usage| call_requires(*usage_callback, (usage,)),
        ensures
            final(self).id() == old(self).id(),
            final(self).created() == old(self).created(),
            final(self).model() == old(self).model(),
            !valid_utf8(bytes@) ==> emitted.len() == 0 && final(self).buffered() == old(
                self,
            ).buffered(),
            valid_utf8(bytes@) ==> {
                let text = old(self).buffered() + decode_utf8(bytes@);
                &&& final(self).buffered() == pending(text)
                &&& outcome_views(emitted@) == outputs(
                    text,
                    old(self).id(),
                    old(self).created(),
                    old(self).model(),
                )
            },
    {
        match utf8_text(bytes) {
            Some(text) => self.push_str(text.as_str(), usage_callback),
            None => Vec::new(),
        }
    }
}

/// The payload that reports the failure `error` to the client.
pub open spec fn report_of(error: StreamErrorView) -> Seq<char> {
    report(error.complaint(), error.context())
}

/// Whether one of the lines failed.
pub open spec fn has_failure(given: Seq<Result<Seq<char>, StreamErrorView>>) -> bool {
    exists|i: int| 0 <= i < given.len() && #[trigger] given[i] is Err
}

/// What a client is sent for what some lines gave: the payloads before the
/// first failure, in order, and, if there is a failure, its report and the
/// sentinel. Nothing that comes after a failure is sent.
pub open spec fn relayed(given: Seq<Result<Seq<char>, StreamErrorView>>) -> Seq<Seq<char>>
    decreases given.len(),
{
    if given.len() == 0 {
        Seq::empty()
    } else {
        match given[0] {
            Ok(payload) => seq![payload] + relayed(given.skip(1)),
            Err(error) => seq![report_of(error), done_payload()],
        }
    }
}

/// Where no line failed, every payload is sent, and nothing else.
pub proof fn lemma_relayed_without_failure(given: Seq<Result<Seq<char>, StreamErrorView>>)
    requires
        !has_failure(given),
    ensures
        relayed(given).len() == given.len(),
        forall|i: int| 0 <= i < given.len() ==> #[trigger] relayed(given)[i] == given[i]->Ok_0,
    decreases given.len(),
{
    if given.len() > 0 {
        let rest = given.skip(1);
        assert(given[0] is Ok);
        assert forall|i: int| 0 <= i < rest.len() implies !(#[trigger] rest[i] is Err) by {
            assert(rest[i] == given[i + 1]);
        }
        lemma_relayed_without_failure(rest);
        assert forall|i: int| 0 <= i < given.len() implies #[trigger] relayed(given)[i]
            == given[i]->Ok_0 by {
            if i > 0 {
                assert(relayed(given)[i] == relayed(rest)[i - 1]);
                assert(rest[i - 1] == given[i]);
            }
        }
    }
}

/// What the outcomes of some lines give a client, and whether the stream has
/// to end: a failure is reported once, followed by the sentinel, and ends
/// the stream.
pub fn relay_outcomes(outcomes: Vec<Result<SseEvent, StreamError>>) -> (r: (Vec<SseEvent>, bool))
    ensures
        r.0.deep_view() == relayed(outcome_views(outcomes@)),
        r.1 == has_failure(outcome_views(outcomes@)),
{
    let ghost all = outcome_views(outcomes@);
    let mut rest = outcomes;
    let mut emitted: Vec<SseEvent> = Vec::new();
    let ghost mut taken: int = 0;
    assert(all.skip(0) =~= all);
    assert(emitted.deep_view() + relayed(all) =~= relayed(all));
    while rest.len() > 0
        invariant
            all == outcome_views(outcomes@),
            0 <= taken <= all.len(),
            outcome_views(rest@) == all.skip(taken),
            emitted.deep_view() + relayed(all.skip(taken)) == relayed(all),
            forall|i: int| 0 <= i < taken ==> #[trigger] all[i] is Ok,
        decreases rest.len(),
    {
        let ghost before = emitted.deep_view();
        let ghost held = rest@;
        let outcome = rest.remove(0);
        proof {
            assert(outcome == held[0]);
            assert(outcome_view(outcome) == outcome_views(held)[0]);
            assert(outcome_view(outcome) == all[taken]);
            assert(outcome_views(rest@) =~= all.skip(taken + 1)) by {
                assert forall|i: int| 0 <= i < rest@.len() implies outcome_views(rest@)[i]
                    == all.skip(taken + 1)[i] by {
                    assert(rest@[i] == held[i + 1]);
                    assert(outcome_views(held)[i + 1] == all.skip(taken)[i + 1]);
                }
            }
            assert(all.skip(taken).skip(1) =~= all.skip(taken + 1));
        }
        match outcome {
            Ok(event) => {
                emitted.push(event);
                proof {
                    assert(emitted.deep_view() =~= before + seq![event.data@]);
                    assert(emitted.deep_view() + relayed(all.skip(taken + 1)) =~= before + relayed(
                        all.skip(taken),
                    ));
                    taken = taken + 1;
                }
            },
            Err(error) => {
                emitted.push(error_event(&error.classify()));
                emitted.push(done_event());
                proof {
                    assert(emitted.deep_view() =~= before + seq![
                        report_of(error.deep_view()),
                        done_payload(),
                    ]);
                    assert(all[taken] is Err);
                }
                return (emitted, true);
            },
        }
    }
    proof {
        assert(all.skip(taken) =~= Seq::empty());
        assert(emitted.deep_view() + Seq::<Seq<char>>::empty() =~= emitted.deep_view());
    }
    (emitted, false)
}

/// What the reader of the provider's stream hands over.
#[derive(Debug, PartialEq)]
pub enum PassthroughInput {
    /// The next piece of the stream.
    Bytes(Vec<u8>),
    /// The stream has ended.
    End,
    /// The stream broke; the text says how.
    ReceiveError(String),
}

/// The state of one passed-through response: its re-chunker, and whether the
/// response has ended.
#[derive(Debug, PartialEq)]
pub struct PassthroughTranslator {
    rechunker: SseRechunker,
    finished: bool,
}

impl PassthroughTranslator {
    /// The re-chunker of the response.
    pub closed spec fn rechunker(&self) -> SseRechunker {
        self.rechunker
    }

    /// Whether the response has ended.
    pub closed spec fn finished(&self) -> bool {
        self.finished
    }

    /// A response that has not begun, read by `rechunker`.
    pub fn new(rechunker: SseRechunker) -> (r: PassthroughTranslator)
        ensures
            r.rechunker() == rechunker,
            !r.finished(),
    {
        PassthroughTranslator { rechunker, finished: false }
    }

    /// Whether the response has ended.
    pub fn is_finished(&self) -> (r: bool)
        ensures
            r == self.finished(),
    {
        self.finished
    }

    /// Takes one input and gives the events to send, in order.
    ///
    /// A piece of the stream gives what its lines owe, up to the first line
    /// that fails; that failure is reported, the sentinel follows, and the
    /// response has ended. A broken stream is reported in the same way. The
    /// end of the stream gives nothing: the sentinel has come with the
    /// provider's own last line. After the end nothing is emitted any more.
    pub fn step<F: Fn(&Usage)>(&mut self, input: &PassthroughInput, usage_callback: &F) -> (emitted:
        Vec<SseEvent>)
        requires
            forall|usage: &Usage| call_requires(*usage_callback, (usage,)),
        ensures
            final(self).rechunker().id() == old(self).rechunker().id(),
            final(self).rechunker().created() == old(self).rechunker().created(),
            final(self).rechunker().model() == old(self).rechunker().model(),
            old(self).finished() ==> emitted.len() == 0 && final(self).finished()
                && final(self).rechunker() == old(self).rechunker(),
            !old(self).finished() ==> match input {
                PassthroughInput::Bytes(bytes) => {
                    &&& !valid_utf8(bytes@) ==> emitted.len() == 0 && !final(self).finished()
                        && final(self).rechunker().buffered() == old(self).rechunker().buffered()
                    &&& valid_utf8(bytes@) ==> {
                        let given = outputs(
                            old(self).rechunker().buffered() + decode_utf8(bytes@),
                            old(self).rechunker().id(),
                            old(self).rechunker().created(),
                            old(self).rechunker().model(),
                        );
                        &&& final(self).rechunker().buffered() == pending(
                            old(self).rechunker().buffered() + decode_utf8(bytes@),
                        )
                        &&& emitted.deep_view() == relayed(given)
                        &&& final(self).finished() == has_failure(given)
                    }
                },
                PassthroughInput::End => {
                    &&& emitted.len() == 0
                    &&& final(self).finished()
                    &&& final(self).rechunker() == old(self).rechunker()
                },
                PassthroughInput::ReceiveError(complaint) => {
                    &&& final(self).finished()
                    &&& final(self).rechunker() == old(self).rechunker()
                    &&& emitted.len() == 2
                    &&& emitted[0].data@ == report_of(StreamErrorView::StreamReceive(complaint@))
                    &&& emitted[1].data@ == done_payload()
                },
            },
    {
        if self.finished {
            return Vec::new();
        }
        match input {
            PassthroughInput::Bytes(bytes) => {
                let outcomes = self.rechunker.push_bytes(bytes.as_slice(), usage_callback);
                let ghost seen = outcomes@;
                let (emitted, failed) = relay_outcomes(outcomes);
                self.finished = failed;
                proof {
                    if !valid_utf8(bytes@) {
                        assert(outcome_views(seen) =~= Seq::empty());
                        assert(emitted.deep_view().len() == 0);
                    }
                }
                emitted
            },
            PassthroughInput::End => {
                self.finished = true;
                Vec::new()
            },
            PassthroughInput::ReceiveError(complaint) => {
                self.finished = true;
                let error = StreamError::StreamReceive(complaint.clone());
                let mut emitted: Vec<SseEvent> = Vec::new();
                emitted.push(error_event(&error.classify()));
                emitted.push(done_event());
                assert(emitted[0].data@ == report_of(error.deep_view()));
                emitted
            },
        }
    }
}

} // verus!
