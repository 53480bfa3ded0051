//! JSON text, read and written by `serde_json`.
//!
//! `serde_json` does the parsing and the printing. Its values are taken apart
//! and put together one level at a time by two trusted functions; walking the
//! tree is verified. `serde_json` is built with `preserve_order`, so that the
//! members of an object stay in the order in which they were read or given.

use crate::json::{
    keys_distinct, lemma_array_content, lemma_object_content, lemma_well_formed_array,
    lemma_well_formed_object, number_content, well_formed,
    JsonNumber, JsonValue, JsonView,
};
use vstd::prelude::*;

verus! {

/// `serde_json::Value`. Nothing inside a value is visible to a proof.
#[verifier::external_type_specification]
#[verifier::external_body]
pub struct ExSerdeValue(serde_json::Value);

/// `serde_json::Error`. Nothing inside an error is visible to a proof.
#[verifier::external_type_specification]
#[verifier::external_body]
pub struct ExSerdeError(serde_json::Error);

/// What a `serde_json::Value` holds.
pub uninterp spec fn value_content(value: serde_json::Value) -> JsonView;

/// What `serde_json::from_str` makes of a text: the content of the value it
/// reads, or, where it rejects the text, the words of its complaint.
pub uninterp spec fn parse_result(text: Seq<char>) -> Result<JsonView, Seq<char>>;

/// The words of a `serde_json::Error`, as it is displayed.
pub uninterp spec fn error_message(error: serde_json::Error) -> Seq<char>;

/// The text that `serde_json::to_string` prints for a value of the given
/// content.
pub uninterp spec fn printed(content: JsonView) -> Seq<char>;

/// The value that a text reads as, if it reads as one.
pub open spec fn parsed(text: Seq<char>) -> Option<JsonView> {
    match parse_result(text) {
        Ok(value) => Some(value),
        Err(_) => None,
    }
}

/// One level of a `serde_json::Value`: its own kind and payload, with the
/// values below it still as `serde_json` holds them.
enum Level<'a> {
    Null,
    Bool(bool),
    Number(&'a serde_json::Number),
    String(String),
    Array(Vec<&'a serde_json::Value>),
    Object(Vec<(String, &'a serde_json::Value)>),
}

/// One level of a value to hand to `serde_json`, with the values below it
/// already made.
enum Assembly {
    Null,
    Bool(bool),
    PosInt(u64),
    NegInt(i64),
    Float(serde_json::Number),
    String(String),
    Array(Vec<serde_json::Value>),
    Object(Vec<(String, serde_json::Value)>),
}

impl<'a> Level<'a> {
    /// The content that this level stands for.
    spec fn content(self) -> JsonView {
        match self {
            Level::Null => JsonView::Null,
            Level::Bool(b) => JsonView::Bool(b),
            Level::Number(n) => JsonView::Number(number_content(*n)),
            Level::String(s) => JsonView::String(s@),
            Level::Array(items) => JsonView::Array(
                Seq::new(items.len() as nat, |i: int| value_content(*items[i])),
            ),
            Level::Object(members) => JsonView::Object(
                Seq::new(
                    members.len() as nat,
                    |i: int| (members[i].0@, value_content(*members[i].1)),
                ),
            ),
        }
    }
}

impl Assembly {
    /// The content that this assembly stands for.
    spec fn content(self) -> JsonView {
        match self {
            Assembly::Null => JsonView::Null,
            Assembly::Bool(b) => JsonView::Bool(b),
            Assembly::PosInt(u) => JsonView::Number(JsonNumber::PosInt(u)),
            Assembly::NegInt(i) => JsonView::Number(JsonNumber::NegInt(i)),
            Assembly::Float(n) => JsonView::Number(JsonNumber::Float(n)),
            Assembly::String(s) => JsonView::String(s@),
            Assembly::Array(items) => JsonView::Array(
                Seq::new(items.len() as nat, |i: int| value_content(items[i])),
            ),
            Assembly::Object(members) => JsonView::Object(
                Seq::new(
                    members.len() as nat,
                    |i: int| (members[i].0@, value_content(members[i].1)),
                ),
            ),
        }
    }

    /// What `serde_json` keeps as it is given: numbers in the variant of
    /// their kind, objects without a repeated key.
    spec fn well_formed(self) -> bool {
        match self {
            Assembly::NegInt(i) => i < 0,
            Assembly::Float(n) => number_content(n) == JsonNumber::Float(n),
            Assembly::Object(_) => keys_distinct(self.content()->Object_0),
            _ => true,
        }
    }
}

/// `serde_json::from_str` at the type `serde_json::Value`: reads one JSON
/// text. The contract only names the outcome: the value's content, or the
/// words of the error.
#[verifier::external_body]
fn read_value(text: &str) -> (r: Result<serde_json::Value, serde_json::Error>)
    ensures
        match r {
            Ok(value) => parse_result(text@) == Ok::<JsonView, Seq<char>>(value_content(value)),
            Err(error) => parse_result(text@) == Err::<JsonView, Seq<char>>(error_message(error)),
        },
{
    serde_json::from_str::<serde_json::Value>(text)
}

/// `serde_json::to_string` on a `serde_json::Value`: prints one JSON text.
///
/// Printing a `Value` does not fail. `to_string` fails only where the
/// `Serialize` impl of its argument decides to fail, where a map has a key
/// that is no string, or where the writer fails. The impl of `Value` hands
/// every part to the serializer and never fails of its own, the keys of its
/// maps are strings, and the writer is a `Vec<u8>`. The text itself is only
/// named, as a function of the value's content; of the text of an object it
/// is said that it opens with a brace, which is the first thing the
/// serializer writes for a map.
#[verifier::external_body]
fn print_value(value: &serde_json::Value) -> (r: Result<String, serde_json::Error>)
    ensures
        r is Ok,
        r->Ok_0@ == printed(value_content(*value)),
        value_content(*value) is Object ==> r->Ok_0@.len() > 0 && r->Ok_0@[0] == '{',
{
    serde_json::to_string(value)
}

/// The `Display` text of a `serde_json::Error`. The contract only names it.
#[verifier::external_body]
fn error_text(error: &serde_json::Error) -> (r: String)
    ensures
        r@ == error_message(*error),
{
    error.to_string()
}

/// The variants of `serde_json::Value`, one level deep: the payload of the
/// variant, with the items of an array and the members of an object in their
/// order. A `serde_json` map holds no key twice.
#[verifier::external_body]
fn take_apart<'a>(value: &'a serde_json::Value) -> (r: Level<'a>)
    ensures
        r.content() == value_content(*value),
        r is Object ==> keys_distinct(r.content()->Object_0),
{
    match value {
        serde_json::Value::Null => Level::Null,
        serde_json::Value::Bool(b) => Level::Bool(*b),
        serde_json::Value::Number(n) => Level::Number(n),
        serde_json::Value::String(s) => Level::String(s.clone()),
        serde_json::Value::Array(items) => Level::Array(items.iter().collect()),
        serde_json::Value::Object(map) => Level::Object(
            map.iter().map(|(key, item)| (key.clone(), item)).collect(),
        ),
    }
}

/// The constructors of `serde_json::Value`, one level deep: `Value::from` for
/// the integers, the variant itself for the rest, the map of an object
/// collected from its members in their order.
#[verifier::external_body]
fn put_together(assembly: Assembly) -> (r: serde_json::Value)
    requires
        assembly.well_formed(),
    ensures
        value_content(r) == assembly.content(),
{
    match assembly {
        Assembly::Null => serde_json::Value::Null,
        Assembly::Bool(b) => serde_json::Value::Bool(b),
        Assembly::PosInt(u) => serde_json::Value::from(u),
        Assembly::NegInt(i) => serde_json::Value::from(i),
        Assembly::Float(n) => serde_json::Value::Number(n),
        Assembly::String(s) => serde_json::Value::String(s),
        Assembly::Array(items) => serde_json::Value::Array(items),
        Assembly::Object(members) => serde_json::Value::Object(members.into_iter().collect()),
    }
}

/// The value that a `serde_json::Value` holds, as a [`JsonValue`].
#[verifier::loop_isolation(false)]
fn from_serde(value: &serde_json::Value) -> (r: JsonValue)
    ensures
        r.deep_view() == value_content(*value),
        well_formed(r.deep_view()),
    decreases value_content(*value),
{
    match take_apart(value) {
        Level::Null => JsonValue::Null,
        Level::Bool(b) => JsonValue::Bool(b),
        Level::Number(n) => JsonValue::Number(JsonNumber::from_number(n)),
        Level::String(s) => JsonValue::String(s),
        Level::Array(items) => {
            let ghost below = value_content(*value)->Array_0;
            let mut out: Vec<JsonValue> = Vec::new();
            let mut i: usize = 0;
            while i < items.len()
                invariant
                    i <= items.len(),
                    out.len() == i,
                    forall|k: int|
                        0 <= k < i ==> (#[trigger] out[k]).deep_view() == below[k] && well_formed(
                            below[k],
                        ),
                decreases items.len() - i,
            {
                assert(below[i as int] == value_content(*items[i as int]));
                let ghost before = out@;
                let item = from_serde(items[i]);
                out.push(item);
                assert forall|k: int| 0 <= k <= i implies (#[trigger] out[k]).deep_view()
                    == below[k] && well_formed(below[k]) by {
                    if k < i {
                        assert(out[k] == before[k]);
                    }
                }
                i += 1;
            }
            proof {
                lemma_array_content(out);
                assert(out.deep_view() =~= below);
                lemma_well_formed_array(below);
            }
            JsonValue::Array(out)
        },
        Level::Object(members) => {
            let ghost below = value_content(*value)->Object_0;
            let mut out: Vec<(String, JsonValue)> = Vec::new();
            let mut i: usize = 0;
            while i < members.len()
                invariant
                    i <= members.len(),
                    out.len() == i,
                    forall|k: int|
                        0 <= k < i ==> (#[trigger] out[k]).0@ == below[k].0 && out[k].1.deep_view()
                            == below[k].1 && well_formed(below[k].1),
                decreases members.len() - i,
            {
                assert(below[i as int] == (members[i as int].0@, value_content(*members[i as int].1)));
                assert(decreases_to!(below => below[i as int]));
                assert(decreases_to!(below[i as int] => below[i as int].1));
                let item = from_serde(members[i].1);
                out.push((members[i].0.clone(), item));
                i += 1;
            }
            proof {
                lemma_object_content(out);
                assert(out.deep_view() =~= below);
                lemma_well_formed_object(below);
            }
            JsonValue::Object(out)
        },
    }
}

/// The `serde_json::Value` that holds what `value` holds.
#[verifier::loop_isolation(false)]
fn to_serde(value: &JsonValue) -> (r: serde_json::Value)
    requires
        well_formed(value.deep_view()),
    ensures
        value_content(r) == value.deep_view(),
    decreases value,
{
    match value {
        JsonValue::Null => put_together(Assembly::Null),
        JsonValue::Bool(b) => put_together(Assembly::Bool(*b)),
        JsonValue::Number(JsonNumber::PosInt(u)) => put_together(Assembly::PosInt(*u)),
        JsonValue::Number(JsonNumber::NegInt(i)) => put_together(Assembly::NegInt(*i)),
        JsonValue::Number(JsonNumber::Float(n)) => put_together(Assembly::Float(n.clone())),
        JsonValue::String(s) => put_together(Assembly::String(s.clone())),
        JsonValue::Array(items) => {
            let ghost shown = items.deep_view();
            proof {
                lemma_array_content(*items);
                lemma_well_formed_array(shown);
            }
            let mut out: Vec<serde_json::Value> = Vec::new();
            let mut i: usize = 0;
            while i < items.len()
                invariant
                    i <= items.len(),
                    out.len() == i,
                    forall|k: int| 0 <= k < i ==> value_content(#[trigger] out[k]) == shown[k],
                decreases items.len() - i,
            {
                assert(well_formed(shown[i as int]));
                let item = to_serde(&items[i]);
                out.push(item);
                i += 1;
            }
            let assembly = Assembly::Array(out);
            assert(assembly.content()->Array_0 =~= shown);
            put_together(assembly)
        },
        JsonValue::Object(members) => {
            let ghost shown = members.deep_view();
            proof {
                lemma_object_content(*members);
                lemma_well_formed_object(shown);
            }
            let mut out: Vec<(String, serde_json::Value)> = Vec::new();
            let mut i: usize = 0;
            while i < members.len()
                invariant
                    i <= members.len(),
                    out.len() == i,
                    forall|k: int|
                        0 <= k < i ==> (#[trigger] out[k]).0@ == shown[k].0 && value_content(
                            out[k].1,
                        ) == shown[k].1,
                decreases members.len() - i,
            {
                assert(well_formed(shown[i as int].1));
                let item = to_serde(&members[i].1);
                out.push((members[i].0.clone(), item));
                i += 1;
            }
            let assembly = Assembly::Object(out);
            assert(assembly.content()->Object_0 =~= shown);
            put_together(assembly)
        },
    }
}

/// What reading `text` as JSON gave: the value, or the reader's complaint.
/// A value that was read is well formed.
pub fn parse_json(text: &str) -> (r: Result<JsonValue, String>)
    ensures
        match r {
            Ok(value) => parse_result(text@) == Ok::<JsonView, Seq<char>>(value.deep_view())
                && well_formed(value.deep_view()),
            Err(complaint) => parse_result(text@) == Err::<JsonView, Seq<char>>(complaint@),
        },
{
    match read_value(text) {
        Ok(value) => Ok(from_serde(&value)),
        Err(error) => Err(error_text(&error)),
    }
}

/// The JSON text of `value`. Printing a well-formed value always gives a
/// text, and the text of an object opens with a brace; the result keeps the
/// printer's own type.
pub fn print_json(value: &JsonValue) -> (r: Result<String, String>)
    requires
        well_formed(value.deep_view()),
    ensures
        r is Ok,
        r->Ok_0@ == printed(value.deep_view()),
        value.deep_view() is Object ==> r->Ok_0@.len() > 0 && r->Ok_0@[0] == '{',
{
    let made = to_serde(value);
    match print_value(&made) {
        Ok(text) => Ok(text),
        Err(error) => Err(error_text(&error)),
    }
}

} // verus!
