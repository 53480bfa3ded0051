//! The backend's structured-value document, and the mapping between JSON
//! values and documents.
//!
//! The mapping is total and is written once: tool-call arguments and tool
//! schemas both go through [`value_to_document`].

use crate::json::{
    lemma_array_content, lemma_object_content, lemma_well_formed_array, lemma_well_formed_object,
    well_formed, JsonNumber, JsonValue, JsonView,
};
use vstd::prelude::*;

verus! {

/// A number in a document.
#[derive(Debug, PartialEq)]
pub enum DocumentNumber {
    /// An unsigned integer.
    PosInt(u64),
    /// A signed integer; used for the negative ones.
    NegInt(i64),
    /// A number that is no integer, kept as it was read.
    Float(serde_json::Number),
}

/// A structured value: null, boolean, number, string, ordered array, or
/// key/value map.
#[derive(Debug, PartialEq)]
pub enum Document {
    Object(Vec<(String, Document)>),
    Array(Vec<Document>),
    Number(DocumentNumber),
    String(String),
    Bool(bool),
    Null,
}

/// The content of a [`Document`].
pub enum DocumentView {
    Object(Seq<(Seq<char>, DocumentView)>),
    Array(Seq<DocumentView>),
    Number(DocumentNumber),
    String(Seq<char>),
    Bool(bool),
    Null,
}

impl DeepView for Document {
    type V = DocumentView;

    open spec fn deep_view(&self) -> DocumentView
        decreases self,
    {
        match self {
            Document::Null => DocumentView::Null,
            Document::Bool(b) => DocumentView::Bool(*b),
            Document::Number(n) => DocumentView::Number(*n),
            Document::String(s) => DocumentView::String(s@),
            Document::Array(items) => DocumentView::Array(
                Seq::new(
                    items.len() as nat,
                    |i: int|
                        if 0 <= i < items.len() {
                            items[i].deep_view()
                        } else {
                            DocumentView::Null
                        },
                ),
            ),
            Document::Object(members) => DocumentView::Object(
                Seq::new(
                    members.len() as nat,
                    |i: int|
                        if 0 <= i < members.len() {
                            (members[i].0@, members[i].1.deep_view())
                        } else {
                            (Seq::empty(), DocumentView::Null)
                        },
                ),
            ),
        }
    }
}

/// The content of an array document is the contents of its items, in order.
pub proof fn lemma_document_array_content(items: Vec<Document>)
    ensures
        Document::Array(items).deep_view() == DocumentView::Array(items.deep_view()),
{
    reveal_with_fuel(<Document as DeepView>::deep_view, 2);
    assert(Document::Array(items).deep_view()->Array_0 =~= items.deep_view());
}

/// The content of a map document is its members, in order.
pub proof fn lemma_document_object_content(members: Vec<(String, Document)>)
    ensures
        Document::Object(members).deep_view() == DocumentView::Object(members.deep_view()),
{
    reveal_with_fuel(<Document as DeepView>::deep_view, 2);
    assert(Document::Object(members).deep_view()->Object_0 =~= members.deep_view());
}

/// The document number for a JSON number: an integer goes by its sign, any
/// other number is kept.
pub open spec fn number_of(n: JsonNumber) -> DocumentNumber {
    match n {
        JsonNumber::PosInt(u) => DocumentNumber::PosInt(u),
        JsonNumber::NegInt(i) => if i >= 0 {
            DocumentNumber::PosInt(i as u64)
        } else {
            DocumentNumber::NegInt(i)
        },
        JsonNumber::Float(f) => DocumentNumber::Float(f),
    }
}

/// The JSON number for a document number.
pub open spec fn json_number_of(n: DocumentNumber) -> JsonNumber {
    match n {
        DocumentNumber::PosInt(u) => JsonNumber::PosInt(u),
        DocumentNumber::NegInt(i) => if i >= 0 {
            JsonNumber::PosInt(i as u64)
        } else {
            JsonNumber::NegInt(i)
        },
        DocumentNumber::Float(f) => JsonNumber::Float(f),
    }
}

/// The document for a JSON value: the same tree, kind by kind.
pub open spec fn document_of(value: JsonView) -> DocumentView
    decreases value,
{
    match value {
        JsonView::Null => DocumentView::Null,
        JsonView::Bool(b) => DocumentView::Bool(b),
        JsonView::Number(n) => DocumentView::Number(number_of(n)),
        JsonView::String(s) => DocumentView::String(s),
        JsonView::Array(items) => DocumentView::Array(
            Seq::new(
                items.len(),
                |i: int|
                    if 0 <= i < items.len() {
                        document_of(items[i])
                    } else {
                        DocumentView::Null
                    },
            ),
        ),
        JsonView::Object(members) => DocumentView::Object(
            Seq::new(
                members.len(),
                |i: int|
                    if 0 <= i < members.len() {
                        (members[i].0, document_of(members[i].1))
                    } else {
                        (Seq::empty(), DocumentView::Null)
                    },
            ),
        ),
    }
}

/// The JSON value for a document: the same tree, kind by kind.
pub open spec fn value_of(document: DocumentView) -> JsonView
    decreases document,
{
    match document {
        DocumentView::Null => JsonView::Null,
        DocumentView::Bool(b) => JsonView::Bool(b),
        DocumentView::Number(n) => JsonView::Number(json_number_of(n)),
        DocumentView::String(s) => JsonView::String(s),
        DocumentView::Array(items) => JsonView::Array(
            Seq::new(
                items.len(),
                |i: int|
                    if 0 <= i < items.len() {
                        value_of(items[i])
                    } else {
                        JsonView::Null
                    },
            ),
        ),
        DocumentView::Object(members) => JsonView::Object(
            Seq::new(
                members.len(),
                |i: int|
                    if 0 <= i < members.len() {
                        (members[i].0, value_of(members[i].1))
                    } else {
                        (Seq::empty(), JsonView::Null)
                    },
            ),
        ),
    }
}

/// The document of an array has one item for each item, in order.
pub proof fn lemma_document_of_array(items: Seq<JsonView>)
    ensures
        document_of(JsonView::Array(items)) is Array,
        document_of(JsonView::Array(items))->Array_0.len() == items.len(),
        forall|i: int|
            0 <= i < items.len() ==> document_of(JsonView::Array(items))->Array_0[i]
                == document_of(#[trigger] items[i]),
{
    reveal_with_fuel(document_of, 2);
}

/// The document of an object has one member for each member, in order and
/// under the same key.
pub proof fn lemma_document_of_object(members: Seq<(Seq<char>, JsonView)>)
    ensures
        document_of(JsonView::Object(members)) is Object,
        document_of(JsonView::Object(members))->Object_0.len() == members.len(),
        forall|i: int|
            0 <= i < members.len() ==> document_of(JsonView::Object(members))->Object_0[i] == (
                (#[trigger] members[i]).0,
                document_of(members[i].1),
            ),
{
    reveal_with_fuel(document_of, 2);
}

/// The value of an array document has one item for each item, in order.
pub proof fn lemma_value_of_array(items: Seq<DocumentView>)
    ensures
        value_of(DocumentView::Array(items)) is Array,
        value_of(DocumentView::Array(items))->Array_0.len() == items.len(),
        forall|i: int|
            0 <= i < items.len() ==> value_of(DocumentView::Array(items))->Array_0[i] == value_of(
                #[trigger] items[i],
            ),
{
    reveal_with_fuel(value_of, 2);
}

/// The value of a map document has one member for each member, in order and
/// under the same key.
pub proof fn lemma_value_of_object(members: Seq<(Seq<char>, DocumentView)>)
    ensures
        value_of(DocumentView::Object(members)) is Object,
        value_of(DocumentView::Object(members))->Object_0.len() == members.len(),
        forall|i: int|
            0 <= i < members.len() ==> value_of(DocumentView::Object(members))->Object_0[i] == (
                (#[trigger] members[i]).0,
                value_of(members[i].1),
            ),
{
    reveal_with_fuel(value_of, 2);
}

/// No key stands twice among the members of a map.
pub open spec fn map_keys_distinct(members: Seq<(Seq<char>, DocumentView)>) -> bool {
    forall|i: int, j: int| 0 <= i < j < members.len() ==> members[i].0 != members[j].0
}

/// No map in `document` names a key twice: every map of the document is a
/// map from keys to values.
pub open spec fn no_key_twice(document: DocumentView) -> bool
    decreases document,
{
    match document {
        DocumentView::Array(items) => forall|i: int|
            0 <= i < items.len() ==> no_key_twice(#[trigger] items[i]),
        DocumentView::Object(members) => map_keys_distinct(members) && forall|i: int|
            0 <= i < members.len() ==> no_key_twice((#[trigger] members[i]).1),
        _ => true,
    }
}

/// The document of a well-formed value names no key twice in any of its
/// maps: the mapping keeps the keys of every object as they are.
pub proof fn lemma_document_keeps_keys(value: JsonView)
    requires
        well_formed(value),
    ensures
        no_key_twice(document_of(value)),
    decreases value,
{
    match value {
        JsonView::Array(items) => {
            lemma_well_formed_array(items);
            lemma_document_of_array(items);
            let documents = document_of(value)->Array_0;
            assert forall|i: int| 0 <= i < documents.len() implies no_key_twice(
                #[trigger] documents[i],
            ) by {
                assert(decreases_to!(value => value->Array_0));
                assert(decreases_to!(value->Array_0 => value->Array_0[i]));
                assert(well_formed(items[i]));
                lemma_document_keeps_keys(items[i]);
            }
        },
        JsonView::Object(members) => {
            lemma_well_formed_object(members);
            lemma_document_of_object(members);
            let documents = document_of(value)->Object_0;
            assert forall|i: int| 0 <= i < documents.len() implies no_key_twice(
                (#[trigger] documents[i]).1,
            ) by {
                assert(decreases_to!(value => value->Object_0));
                assert(decreases_to!(value->Object_0 => value->Object_0[i]));
                assert(decreases_to!(value->Object_0[i] => value->Object_0[i].1));
                assert(well_formed(members[i].1));
                lemma_document_keeps_keys(members[i].1);
            }
            assert forall|i: int, j: int| 0 <= i < j < documents.len() implies documents[i].0
                != documents[j].0 by {
                assert(documents[i].0 == members[i].0);
                assert(documents[j].0 == members[j].0);
            }
        },
        _ => {},
    }
}

fn number_to_document(n: &JsonNumber) -> (r: DocumentNumber)
    ensures
        r == number_of(*n),
{
    match n {
        JsonNumber::PosInt(u) => DocumentNumber::PosInt(*u),
        JsonNumber::NegInt(i) => if *i >= 0 {
            DocumentNumber::PosInt(*i as u64)
        } else {
            DocumentNumber::NegInt(*i)
        },
        JsonNumber::Float(f) => DocumentNumber::Float(f.clone()),
    }
}

fn number_to_value(n: &DocumentNumber) -> (r: JsonNumber)
    ensures
        r == json_number_of(*n),
{
    match n {
        DocumentNumber::PosInt(u) => JsonNumber::PosInt(*u),
        DocumentNumber::NegInt(i) => if *i >= 0 {
            JsonNumber::PosInt(*i as u64)
        } else {
            JsonNumber::NegInt(*i)
        },
        DocumentNumber::Float(f) => JsonNumber::Float(f.clone()),
    }
}

/// The document for a JSON value. Where no object of the value names a key
/// twice, no map of the document does.
#[verifier::loop_isolation(false)]
pub fn value_to_document(value: &JsonValue) -> (r: Document)
    ensures
        r.deep_view() == document_of(value.deep_view()),
        well_formed(value.deep_view()) ==> no_key_twice(r.deep_view()),
    decreases value,
{
    proof {
        if well_formed(value.deep_view()) {
            lemma_document_keeps_keys(value.deep_view());
        }
    }
    match value {
        JsonValue::Null => Document::Null,
        JsonValue::Bool(b) => Document::Bool(*b),
        JsonValue::Number(n) => Document::Number(number_to_document(n)),
        JsonValue::String(s) => Document::String(s.clone()),
        JsonValue::Array(items) => {
            let ghost shown = items.deep_view();
            proof {
                lemma_array_content(*items);
                lemma_document_of_array(shown);
            }
            let mut out: Vec<Document> = Vec::new();
            let mut i: usize = 0;
            while i < items.len()
                invariant
                    i <= items.len(),
                    out.len() == i,
                    forall|k: int|
                        0 <= k < i ==> (#[trigger] out[k]).deep_view() == document_of(shown[k]),
                decreases items.len() - i,
            {
                let item = value_to_document(&items[i]);
                out.push(item);
                i += 1;
            }
            proof {
                lemma_document_array_content(out);
                assert(out.deep_view() =~= document_of(JsonView::Array(shown))->Array_0);
            }
            Document::Array(out)
        },
        JsonValue::Object(members) => {
            let ghost shown = members.deep_view();
            proof {
                lemma_object_content(*members);
                lemma_document_of_object(shown);
            }
            let mut out: Vec<(String, Document)> = Vec::new();
            let mut i: usize = 0;
            while i < members.len()
                invariant
                    i <= members.len(),
                    out.len() == i,
                    forall|k: int|
                        0 <= k < i ==> (#[trigger] out[k]).0@ == shown[k].0 && out[k].1.deep_view()
                            == document_of(shown[k].1),
                decreases members.len() - i,
            {
                let item = value_to_document(&members[i].1);
                out.push((members[i].0.clone(), item));
                i += 1;
            }
            proof {
                lemma_document_object_content(out);
                assert(out.deep_view() =~= document_of(JsonView::Object(shown))->Object_0);
            }
            Document::Object(out)
        },
    }
}

/// The JSON value for a document.
#[verifier::loop_isolation(false)]
pub fn document_to_value(document: &Document) -> (r: JsonValue)
    ensures
        r.deep_view() == value_of(document.deep_view()),
    decreases document,
{
    match document {
        Document::Null => JsonValue::Null,
        Document::Bool(b) => JsonValue::Bool(*b),
        Document::Number(n) => JsonValue::Number(number_to_value(n)),
        Document::String(s) => JsonValue::String(s.clone()),
        Document::Array(items) => {
            let ghost shown = items.deep_view();
            proof {
                lemma_document_array_content(*items);
                lemma_value_of_array(shown);
            }
            let mut out: Vec<JsonValue> = Vec::new();
            let mut i: usize = 0;
            while i < items.len()
                invariant
                    i <= items.len(),
                    out.len() == i,
                    forall|k: int|
                        0 <= k < i ==> (#[trigger] out[k]).deep_view() == value_of(shown[k]),
                decreases items.len() - i,
            {
                let item = document_to_value(&items[i]);
                out.push(item);
                i += 1;
            }
            proof {
                lemma_array_content(out);
                assert(out.deep_view() =~= value_of(DocumentView::Array(shown))->Array_0);
            }
            JsonValue::Array(out)
        },
        Document::Object(members) => {
            let ghost shown = members.deep_view();
            proof {
                lemma_document_object_content(*members);
                lemma_value_of_object(shown);
            }
            let mut out: Vec<(String, JsonValue)> = Vec::new();
            let mut i: usize = 0;
            while i < members.len()
                invariant
                    i <= members.len(),
                    out.len() == i,
                    forall|k: int|
                        0 <= k < i ==> (#[trigger] out[k]).0@ == shown[k].0 && out[k].1.deep_view()
                            == value_of(shown[k].1),
                decreases members.len() - i,
            {
                let item = document_to_value(&members[i].1);
                out.push((members[i].0.clone(), item));
                i += 1;
            }
            proof {
                lemma_object_content(out);
                assert(out.deep_view() =~= value_of(DocumentView::Object(shown))->Object_0);
            }
            JsonValue::Object(out)
        },
    }
}

/// Round trip: a well-formed JSON value that is mapped to a document and
/// back is the value it was.
pub proof fn lemma_round_trip(value: JsonView)
    requires
        well_formed(value),
    ensures
        value_of(document_of(value)) == value,
    decreases value,
{
    match value {
        JsonView::Array(items) => {
            lemma_well_formed_array(items);
            lemma_document_of_array(items);
            let documents = document_of(value)->Array_0;
            lemma_value_of_array(documents);
            assert forall|i: int| 0 <= i < items.len() implies value_of(documents[i])
                == items[i] by {
                assert(decreases_to!(value => value->Array_0));
                assert(decreases_to!(value->Array_0 => value->Array_0[i]));
                lemma_round_trip(items[i]);
            }
            assert(value_of(document_of(value))->Array_0 =~= items);
        },
        JsonView::Object(members) => {
            lemma_well_formed_object(members);
            lemma_document_of_object(members);
            let documents = document_of(value)->Object_0;
            lemma_value_of_object(documents);
            assert forall|i: int| 0 <= i < members.len() implies value_of(documents[i].1)
                == members[i].1 by {
                assert(decreases_to!(value => value->Object_0));
                assert(decreases_to!(value->Object_0 => value->Object_0[i]));
                assert(decreases_to!(value->Object_0[i] => value->Object_0[i].1));
                lemma_round_trip(members[i].1);
            }
            assert(value_of(document_of(value))->Object_0 =~= members);
        },
        _ => {},
    }
}

} // verus!
