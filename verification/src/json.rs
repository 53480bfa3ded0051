//! A plain model of JSON values.
//!
//! The translators read and build JSON through [`JsonValue`]; its content is
//! the mathematical tree [`JsonView`].

use vstd::prelude::*;

verus! {

/// `serde_json::Number`. Nothing inside a number is visible to a proof.
#[verifier::external_type_specification]
#[verifier::external_body]
pub struct ExSerdeNumber(serde_json::Number);

/// `Clone::clone` of `serde_json::Number`: the copy is the same number.
pub assume_specification[ <serde_json::Number as Clone>::clone ](n: &serde_json::Number) -> (r:
    serde_json::Number)
    ensures
        r == *n,
;

/// What `serde_json::Number::as_u64` returns for a number.
pub uninterp spec fn number_as_u64(n: serde_json::Number) -> Option<u64>;

/// What `serde_json::Number::as_i64` returns for a number.
pub uninterp spec fn number_as_i64(n: serde_json::Number) -> Option<i64>;

/// `serde_json::Number::as_u64`: the number as a `u64`, if it is an integer
/// that fits. The contract only names the result.
pub assume_specification[ serde_json::Number::as_u64 ](n: &serde_json::Number) -> (r: Option<u64>)
    ensures
        r == number_as_u64(*n),
;

/// `serde_json::Number::as_i64`: the number as an `i64`, if it is an integer
/// that fits. A result that is not negative is what `as_u64` returns too.
pub assume_specification[ serde_json::Number::as_i64 ](n: &serde_json::Number) -> (r: Option<i64>)
    ensures
        r == number_as_i64(*n),
        r is Some && r->0 >= 0 ==> number_as_u64(*n) == Some(r->0 as u64),
;

/// What a `serde_json::Number` holds: its integer where it is one, itself
/// where it is not.
pub open spec fn number_content(n: serde_json::Number) -> JsonNumber {
    match (number_as_u64(n), number_as_i64(n)) {
        (Some(u), _) => JsonNumber::PosInt(u),
        (None, Some(i)) => JsonNumber::NegInt(i),
        (None, None) => JsonNumber::Float(n),
    }
}

/// A JSON number.
#[derive(Debug, PartialEq)]
pub enum JsonNumber {
    /// A non-negative integer.
    PosInt(u64),
    /// A negative integer.
    NegInt(i64),
    /// A number that is no integer, kept as it was read.
    Float(serde_json::Number),
}

impl JsonNumber {
    /// A negative integer is below zero, and what is kept as a non-integer is
    /// one.
    pub open spec fn well_formed(self) -> bool {
        match self {
            JsonNumber::PosInt(_) => true,
            JsonNumber::NegInt(i) => i < 0,
            JsonNumber::Float(n) => number_content(n) == self,
        }
    }

    /// What a `serde_json::Number` holds.
    pub fn from_number(n: &serde_json::Number) -> (r: JsonNumber)
        ensures
            r == number_content(*n),
            r.well_formed(),
    {
        match n.as_u64() {
            Some(u) => JsonNumber::PosInt(u),
            None => match n.as_i64() {
                Some(i) => JsonNumber::NegInt(i),
                None => JsonNumber::Float(n.clone()),
            },
        }
    }

    /// A copy of this number.
    pub fn duplicate(&self) -> (r: JsonNumber)
        ensures
            r == *self,
    {
        match self {
            JsonNumber::PosInt(u) => JsonNumber::PosInt(*u),
            JsonNumber::NegInt(i) => JsonNumber::NegInt(*i),
            JsonNumber::Float(n) => JsonNumber::Float(n.clone()),
        }
    }
}

/// A JSON value. The members of an object keep their order.
#[derive(Debug, PartialEq)]
pub enum JsonValue {
    Null,
    Bool(bool),
    Number(JsonNumber),
    String(String),
    Array(Vec<JsonValue>),
    Object(Vec<(String, JsonValue)>),
}

/// The content of a [`JsonValue`].
pub enum JsonView {
    Null,
    Bool(bool),
    Number(JsonNumber),
    String(Seq<char>),
    Array(Seq<JsonView>),
    Object(Seq<(Seq<char>, JsonView)>),
}

impl DeepView for JsonValue {
    type V = JsonView;

    open spec fn deep_view(&self) -> JsonView
        decreases self,
    {
        match self {
            JsonValue::Null => JsonView::Null,
            JsonValue::Bool(b) => JsonView::Bool(*b),
            JsonValue::Number(n) => JsonView::Number(*n),
            JsonValue::String(s) => JsonView::String(s@),
            JsonValue::Array(items) => JsonView::Array(
                Seq::new(
                    items.len() as nat,
                    |i: int|
                        if 0 <= i < items.len() {
                            items[i].deep_view()
                        } else {
                            JsonView::Null
                        },
                ),
            ),
            JsonValue::Object(members) => JsonView::Object(
                Seq::new(
                    members.len() as nat,
                    |i: int|
                        if 0 <= i < members.len() {
                            (members[i].0@, members[i].1.deep_view())
                        } else {
                            (Seq::empty(), JsonView::Null)
                        },
                ),
            ),
        }
    }
}

/// The content of an array is the contents of its items, in order.
pub proof fn lemma_array_content(items: Vec<JsonValue>)
    ensures
        JsonValue::Array(items).deep_view() == JsonView::Array(items.deep_view()),
{
    reveal_with_fuel(<JsonValue as DeepView>::deep_view, 2);
    assert(JsonValue::Array(items).deep_view()->Array_0 =~= items.deep_view());
}

/// The content of an object is its members, each with its key and the content
/// of its value, in order.
pub proof fn lemma_object_content(members: Vec<(String, JsonValue)>)
    ensures
        JsonValue::Object(members).deep_view() == JsonView::Object(members.deep_view()),
{
    reveal_with_fuel(<JsonValue as DeepView>::deep_view, 2);
    assert(JsonValue::Object(members).deep_view()->Object_0 =~= members.deep_view());
}

/// No key stands twice among `members`.
pub open spec fn keys_distinct(members: Seq<(Seq<char>, JsonView)>) -> bool {
    forall|i: int, j: int| 0 <= i < j < members.len() ==> members[i].0 != members[j].0
}

/// Every number in `value` is well formed and no object names a key twice.
pub open spec fn well_formed(value: JsonView) -> bool
    decreases value,
{
    match value {
        JsonView::Number(n) => n.well_formed(),
        JsonView::Array(items) => forall|i: int|
            0 <= i < items.len() ==> well_formed(#[trigger] items[i]),
        JsonView::Object(members) => keys_distinct(members) && forall|i: int|
            0 <= i < members.len() ==> well_formed((#[trigger] members[i]).1),
        _ => true,
    }
}

/// An array is well formed exactly when each of its items is.
pub proof fn lemma_well_formed_array(items: Seq<JsonView>)
    ensures
        well_formed(JsonView::Array(items)) <==> (forall|i: int|
            0 <= i < items.len() ==> well_formed(#[trigger] items[i])),
{
    let whole = JsonView::Array(items);
    if well_formed(whole) {
        assert forall|i: int| 0 <= i < items.len() implies well_formed(#[trigger] items[i]) by {
            assert(decreases_to!(whole => whole->Array_0));
            assert(decreases_to!(whole->Array_0 => whole->Array_0[i]));
        }
    }
}

/// An object is well formed exactly when it names no key twice and each of
/// its values is well formed.
pub proof fn lemma_well_formed_object(members: Seq<(Seq<char>, JsonView)>)
    ensures
        well_formed(JsonView::Object(members)) <==> (keys_distinct(members) && forall|i: int|
            0 <= i < members.len() ==> well_formed((#[trigger] members[i]).1)),
{
    let whole = JsonView::Object(members);
    if well_formed(whole) {
        assert forall|i: int| 0 <= i < members.len() implies well_formed(
            (#[trigger] members[i]).1,
        ) by {
            assert(decreases_to!(whole => whole->Object_0));
            assert(decreases_to!(whole->Object_0 => whole->Object_0[i]));
            assert(decreases_to!(whole->Object_0[i] => whole->Object_0[i].1));
        }
    }
}

/// The value of the first member of `members` that is named `key`.
pub open spec fn member(members: Seq<(Seq<char>, JsonView)>, key: Seq<char>) -> Option<JsonView>
    decreases members.len(),
{
    if members.len() == 0 {
        None
    } else if members[0].0 == key {
        Some(members[0].1)
    } else {
        member(members.skip(1), key)
    }
}

/// The member `key` of an object; nothing for a missing member and for a
/// value that is no object.
pub open spec fn field(value: JsonView, key: Seq<char>) -> Option<JsonView> {
    match value {
        JsonView::Object(members) => member(members, key),
        _ => None,
    }
}

proof fn lemma_member_skip(members: Seq<(Seq<char>, JsonView)>, key: Seq<char>, from: int)
    requires
        0 <= from <= members.len(),
        forall|k: int| 0 <= k < from ==> members[k].0 != key,
    ensures
        member(members, key) == member(members.skip(from), key),
    decreases from,
{
    if from > 0 {
        lemma_member_skip(members, key, from - 1);
        let rest = members.skip(from - 1);
        assert(rest[0] == members[from - 1]);
        assert(rest.skip(1) =~= members.skip(from));
    } else {
        assert(members.skip(0) =~= members);
    }
}

impl JsonValue {
    /// The member `key` of this object.
    pub fn get(&self, key: &str) -> (r: Option<&JsonValue>)
        ensures
            r.deep_view() == field(self.deep_view(), key@),
    {
        match self {
            JsonValue::Object(members) => {
                let wanted = key.to_owned();
                let ghost shown = members.deep_view();
                proof {
                    lemma_object_content(*members);
                }
                let mut i: usize = 0;
                while i < members.len()
                    invariant
                        i <= members.len(),
                        wanted@ == key@,
                        shown == members.deep_view(),
                        self.deep_view() == JsonView::Object(shown),
                        forall|k: int| 0 <= k < i ==> shown[k].0 != key@,
                    decreases members.len() - i,
                {
                    if members[i].0 == wanted {
                        proof {
                            lemma_member_skip(shown, key@, i as int);
                            assert(shown.skip(i as int)[0] == shown[i as int]);
                            assert(shown[i as int] == members[i as int].deep_view());
                        }
                        return Some(&members[i].1);
                    }
                    i += 1;
                }
                proof {
                    lemma_member_skip(shown, key@, i as int);
                }
                None
            },
            _ => None,
        }
    }
}

/// The JSON number of an integer.
pub open spec fn json_int(i: int) -> JsonView {
    if i >= 0 {
        JsonView::Number(JsonNumber::PosInt(i as u64))
    } else {
        JsonView::Number(JsonNumber::NegInt(i as i64))
    }
}

/// The members of an object that is written down as a list of entries, of
/// which some have no value: the entries that have one, in order.
pub open spec fn present(entries: Seq<(Seq<char>, Option<JsonView>)>) -> Seq<
    (Seq<char>, JsonView),
>
    decreases entries.len(),
{
    if entries.len() == 0 {
        Seq::empty()
    } else {
        match entries[0].1 {
            Some(value) => seq![(entries[0].0, value)] + present(entries.skip(1)),
            None => present(entries.skip(1)),
        }
    }
}

/// No key stands twice among `entries`.
pub open spec fn entry_keys_distinct(entries: Seq<(Seq<char>, Option<JsonView>)>) -> bool {
    forall|i: int, j: int| 0 <= i < j < entries.len() ==> entries[i].0 != entries[j].0
}

/// Every value among `entries` is well formed.
pub open spec fn entries_well_formed(entries: Seq<(Seq<char>, Option<JsonView>)>) -> bool {
    forall|i: int|
        0 <= i < entries.len() && (#[trigger] entries[i]).1 is Some ==> well_formed(
            entries[i].1->0,
        )
}

/// The members that are present come from the entries: their keys are keys
/// of entries, no key stands twice if none does among the entries, and the
/// values are well formed if those of the entries are.
pub proof fn lemma_present(entries: Seq<(Seq<char>, Option<JsonView>)>)
    requires
        entry_keys_distinct(entries),
        entries_well_formed(entries),
    ensures
        keys_distinct(present(entries)),
        forall|m: int|
            0 <= m < present(entries).len() ==> exists|e: int|
                0 <= e < entries.len() && entries[e].0 == (#[trigger] present(entries)[m]).0,
        forall|m: int|
            0 <= m < present(entries).len() ==> well_formed((#[trigger] present(entries)[m]).1),
        well_formed(JsonView::Object(present(entries))),
    decreases entries.len(),
{
    if entries.len() > 0 {
        let rest = entries.skip(1);
        assert forall|i: int, j: int| 0 <= i < j < rest.len() implies rest[i].0 != rest[j].0 by {
            assert(rest[i] == entries[i + 1] && rest[j] == entries[j + 1]);
        }
        assert forall|i: int| 0 <= i < rest.len() && (#[trigger] rest[i]).1 is Some implies well_formed(
            rest[i].1->0,
        ) by {
            assert(rest[i] == entries[i + 1]);
        }
        lemma_present(rest);
        let tail = present(rest);
        let whole = present(entries);
        assert forall|m: int| 0 <= m < tail.len() implies exists|e: int|
            1 <= e < entries.len() && entries[e].0 == (#[trigger] tail[m]).0 by {
            let e = choose|e: int| 0 <= e < rest.len() && rest[e].0 == tail[m].0;
            assert(entries[e + 1] == rest[e]);
        }
        match entries[0].1 {
            Some(value) => {
                assert(well_formed(entries[0].1->0));
                assert forall|m: int| 0 <= m < whole.len() implies exists|e: int|
                    0 <= e < entries.len() && entries[e].0 == (#[trigger] whole[m]).0 by {
                    if m > 0 {
                        assert(whole[m] == tail[m - 1]);
                        let e = choose|e: int| 1 <= e < entries.len() && entries[e].0 == tail[m - 1].0;
                        assert(entries[e].0 == whole[m].0);
                    } else {
                        assert(entries[0].0 == whole[0].0);
                    }
                }
                assert forall|i: int, j: int| 0 <= i < j < whole.len() implies whole[i].0
                    != whole[j].0 by {
                    assert(whole[j] == tail[j - 1]);
                    if i > 0 {
                        assert(whole[i] == tail[i - 1]);
                    } else {
                        let e = choose|e: int| 1 <= e < entries.len() && entries[e].0 == tail[j - 1].0;
                        assert(entries[0].0 != entries[e].0);
                    }
                }
                assert forall|m: int| 0 <= m < whole.len() implies well_formed(
                    (#[trigger] whole[m]).1,
                ) by {
                    if m > 0 {
                        assert(whole[m] == tail[m - 1]);
                    }
                }
            },
            None => {
                assert forall|m: int| 0 <= m < whole.len() implies exists|e: int|
                    0 <= e < entries.len() && entries[e].0 == (#[trigger] whole[m]).0 by {
                    let e = choose|e: int| 1 <= e < entries.len() && entries[e].0 == tail[m].0;
                    assert(entries[e].0 == whole[m].0);
                }
            },
        }
    }
    lemma_well_formed_object(present(entries));
}

/// The JSON number for `i`.
pub fn int_value(i: i64) -> (r: JsonValue)
    ensures
        r.deep_view() == json_int(i as int),
        well_formed(r.deep_view()),
{
    if i >= 0 {
        JsonValue::Number(JsonNumber::PosInt(i as u64))
    } else {
        JsonValue::Number(JsonNumber::NegInt(i))
    }
}

/// The JSON string for `text`.
pub fn string_value(text: &str) -> (r: JsonValue)
    ensures
        r.deep_view() == JsonView::String(text@),
        well_formed(r.deep_view()),
{
    JsonValue::String(text.to_owned())
}

/// The JSON array of `items`.
pub fn array_value(items: Vec<JsonValue>) -> (r: JsonValue)
    requires
        forall|i: int| 0 <= i < items.len() ==> well_formed((#[trigger] items[i]).deep_view()),
    ensures
        r.deep_view() == JsonView::Array(items.deep_view()),
        well_formed(r.deep_view()),
{
    proof {
        lemma_array_content(items);
        lemma_well_formed_array(items.deep_view());
    }
    JsonValue::Array(items)
}

/// The JSON object whose members are the entries that have a value.
pub fn object_value(entries: Vec<(String, Option<JsonValue>)>) -> (r: JsonValue)
    requires
        entry_keys_distinct(entries.deep_view()),
        entries_well_formed(entries.deep_view()),
    ensures
        r.deep_view() == JsonView::Object(present(entries.deep_view())),
        well_formed(r.deep_view()),
{
    let ghost all = entries.deep_view();
    let mut entries = entries;
    let mut members: Vec<(String, JsonValue)> = Vec::new();
    assert(members.deep_view() =~= Seq::empty());
    assert(members.deep_view() + present(all) =~= present(all));
    while entries.len() > 0
        invariant
            members.deep_view() + present(entries.deep_view()) == present(all),
        decreases entries.len(),
    {
        let ghost before = members.deep_view();
        let ghost left = entries.deep_view();
        let entry = entries.remove(0);
        assert(entries.deep_view() =~= left.skip(1));
        assert(entry.deep_view() == left[0]);
        match entry.1 {
            Some(value) => {
                members.push((entry.0, value));
                assert(members.deep_view() =~= before + seq![(left[0].0, left[0].1->0)]);
                assert(members.deep_view() + present(left.skip(1)) =~= before + present(left));
            },
            None => {},
        }
    }
    proof {
        assert(present(entries.deep_view()) =~= Seq::empty());
        assert(members.deep_view() =~= present(all));
        lemma_present(all);
        lemma_object_content(members);
    }
    JsonValue::Object(members)
}

/// The member `key` of an object, if it is there and is not null.
pub open spec fn given(value: JsonView, key: Seq<char>) -> Option<JsonView> {
    match field(value, key) {
        Some(JsonView::Null) => None,
        other => other,
    }
}

/// A member that has to be a string where it is given.
pub open spec fn read_string(member: Option<JsonView>) -> Result<Option<Seq<char>>, ()> {
    match member {
        None => Ok(None),
        Some(JsonView::String(text)) => Ok(Some(text)),
        Some(_) => Err(()),
    }
}

/// A member that has to be an integer of 64 bits where it is given.
pub open spec fn read_i64(member: Option<JsonView>) -> Result<Option<i64>, ()> {
    match member {
        None => Ok(None),
        Some(JsonView::Number(JsonNumber::PosInt(u))) => if u <= i64::MAX as u64 {
            Ok(Some(u as i64))
        } else {
            Err(())
        },
        Some(JsonView::Number(JsonNumber::NegInt(i))) => Ok(Some(i)),
        Some(_) => Err(()),
    }
}

/// A member that has to be an integer of 32 bits where it is given.
pub open spec fn read_i32(member: Option<JsonView>) -> Result<Option<i32>, ()> {
    match read_i64(member) {
        Ok(Some(i)) => if i32::MIN <= i <= i32::MAX {
            Ok(Some(i as i32))
        } else {
            Err(())
        },
        Ok(None) => Ok(None),
        Err(_) => Err(()),
    }
}

/// A member that has to be an array where it is given.
pub open spec fn read_array(member: Option<JsonView>) -> Result<Option<Seq<JsonView>>, ()> {
    match member {
        None => Ok(None),
        Some(JsonView::Array(items)) => Ok(Some(items)),
        Some(_) => Err(()),
    }
}

impl JsonValue {
    /// The member `key` of this object, if it is there and is not null.
    pub fn given(&self, key: &str) -> (r: Option<&JsonValue>)
        ensures
            r.deep_view() == given(self.deep_view(), key@),
    {
        match self.get(key) {
            Some(JsonValue::Null) => None,
            other => other,
        }
    }

    /// Whether this is an object.
    pub fn is_object(&self) -> (r: bool)
        ensures
            r == (self.deep_view() is Object),
    {
        match self {
            JsonValue::Object(_) => true,
            _ => false,
        }
    }
}

/// Reads a member that has to be a string where it is given.
pub fn string_member(member: Option<&JsonValue>) -> (r: Result<Option<String>, ()>)
    ensures
        match r {
            Ok(text) => read_string(member.deep_view()) == Ok::<Option<Seq<char>>, ()>(
                text.deep_view(),
            ),
            Err(_) => read_string(member.deep_view()) is Err,
        },
{
    match member {
        None => Ok(None),
        Some(JsonValue::String(text)) => Ok(Some(text.clone())),
        Some(_) => Err(()),
    }
}

/// Reads a member that has to be an integer of 64 bits where it is given.
pub fn i64_member(member: Option<&JsonValue>) -> (r: Result<Option<i64>, ()>)
    ensures
        r == read_i64(member.deep_view()),
{
    match member {
        None => Ok(None),
        Some(JsonValue::Number(JsonNumber::PosInt(u))) => if *u <= i64::MAX as u64 {
            Ok(Some(*u as i64))
        } else {
            Err(())
        },
        Some(JsonValue::Number(JsonNumber::NegInt(i))) => Ok(Some(*i)),
        Some(_) => Err(()),
    }
}

/// Reads a member that has to be an integer of 32 bits where it is given.
pub fn i32_member(member: Option<&JsonValue>) -> (r: Result<Option<i32>, ()>)
    ensures
        r == read_i32(member.deep_view()),
{
    match i64_member(member) {
        Ok(Some(i)) => if i32::MIN as i64 <= i && i <= i32::MAX as i64 {
            Ok(Some(i as i32))
        } else {
            Err(())
        },
        Ok(None) => Ok(None),
        Err(_) => Err(()),
    }
}

/// Reads a member that has to be an array where it is given.
pub fn array_member(member: Option<&JsonValue>) -> (r: Result<Option<&Vec<JsonValue>>, ()>)
    ensures
        match r {
            Ok(items) => read_array(member.deep_view()) == Ok::<Option<Seq<JsonView>>, ()>(
                items.deep_view(),
            ),
            Err(_) => read_array(member.deep_view()) is Err,
        },
{
    match member {
        None => Ok(None),
        Some(JsonValue::Array(items)) => {
            proof {
                lemma_array_content(*items);
            }
            Ok(Some(items))
        },
        Some(_) => Err(()),
    }
}

/// Whether no key stands twice among `members`.
pub fn keys_are_distinct(members: &Vec<(String, JsonValue)>) -> (r: bool)
    ensures
        r == keys_distinct(members.deep_view()),
{
    let ghost shown = members.deep_view();
    let mut j: usize = 0;
    while j < members.len()
        invariant
            j <= members.len(),
            shown == members.deep_view(),
            forall|a: int, b: int| 0 <= a < b < j ==> shown[a].0 != shown[b].0,
        decreases members.len() - j,
    {
        let mut i: usize = 0;
        while i < j
            invariant
                i <= j < members.len(),
                shown == members.deep_view(),
                forall|a: int| 0 <= a < i ==> shown[a].0 != shown[j as int].0,
            decreases j - i,
        {
            if members[i].0 == members[j].0 {
                assert(shown[i as int].0 == shown[j as int].0);
                return false;
            }
            i += 1;
        }
        j += 1;
    }
    true
}

impl JsonNumber {
    /// Whether the number is well formed.
    pub fn is_well_formed(&self) -> (r: bool)
        ensures
            r == self.well_formed(),
    {
        match self {
            JsonNumber::PosInt(_) => true,
            JsonNumber::NegInt(i) => *i < 0,
            JsonNumber::Float(n) => n.as_u64().is_none() && n.as_i64().is_none(),
        }
    }
}

impl JsonValue {
    /// Whether the value is well formed: every number in it is, and no
    /// object in it names a key twice.
    #[verifier::loop_isolation(false)]
    pub fn is_well_formed(&self) -> (r: bool)
        ensures
            r == well_formed(self.deep_view()),
        decreases self,
    {
        match self {
            JsonValue::Number(n) => n.is_well_formed(),
            JsonValue::Array(items) => {
                proof {
                    lemma_array_content(*items);
                    lemma_well_formed_array(items.deep_view());
                }
                let mut i: usize = 0;
                while i < items.len()
                    invariant
                        i <= items.len(),
                        forall|k: int| 0 <= k < i ==> well_formed(#[trigger] items.deep_view()[k]),
                    decreases items.len() - i,
                {
                    if !items[i].is_well_formed() {
                        assert(!well_formed(items.deep_view()[i as int]));
                        return false;
                    }
                    i += 1;
                }
                true
            },
            JsonValue::Object(members) => {
                proof {
                    lemma_object_content(*members);
                    lemma_well_formed_object(members.deep_view());
                }
                if !keys_are_distinct(members) {
                    return false;
                }
                let mut i: usize = 0;
                while i < members.len()
                    invariant
                        i <= members.len(),
                        forall|k: int|
                            0 <= k < i ==> well_formed((#[trigger] members.deep_view()[k]).1),
                    decreases members.len() - i,
                {
                    if !members[i].1.is_well_formed() {
                        assert(!well_formed(members.deep_view()[i as int].1));
                        return false;
                    }
                    i += 1;
                }
                true
            },
            _ => true,
        }
    }
}

} // verus!
