//! The bridge to `serde_json`, which reads and writes the text form of JSON.
//!
//! What is taken on trust stands first: the outside types, a name for what
//! each outside call gives, and one small wrapper for each call. Carrying a
//! whole value over, level by level, is proved on top of those.

use vstd::prelude::*;
use crate::json::entries_view;
use crate::json::items_view;
use crate::json::lemma_array_view;
use crate::json::lemma_object_view;
use crate::json::Json;
use crate::json::JsonValue;

verus! {

/// `serde_json::Number`: a JSON number, carried as it is.
#[verifier::external_type_specification]
#[verifier::external_body]
pub struct ExNumber(serde_json::Number);

/// `serde_json::Value`: a JSON value as `serde_json` reads and writes it.
#[verifier::external_type_specification]
#[verifier::external_body]
pub struct ExValue(serde_json::Value);

/// `serde_json::Error`: why a text could not be read or a value not written.
#[verifier::external_type_specification]
#[verifier::external_body]
pub struct ExError(serde_json::Error);

/// What a `serde_json::Value` holds.
pub uninterp spec fn held(v: serde_json::Value) -> JsonValue;

/// What the `serde_json::Value` holds that is made of parts which hold a
/// number that is no integer of 64 bits, or an object: `serde_json` keeps
/// the entries of an object one per key and in the order of the keys, and
/// numbers in a form of its own.
pub uninterp spec fn kept(j: JsonValue) -> JsonValue;

/// The value that `serde_json::from_str` reads from a text, where it reads one.
pub uninterp spec fn parsed(text: Seq<char>) -> Option<JsonValue>;

/// The text that `serde_json::to_string` writes for a value that holds `j`.
pub uninterp spec fn rendered(j: JsonValue) -> Option<Seq<char>>;

/// The text that `serde_json::to_string_pretty` writes for a value that holds `j`.
pub uninterp spec fn rendered_pretty(j: JsonValue) -> Option<Seq<char>>;

/// A `serde_json::Value` taken apart, one level deep.
enum Parts {
    Null,
    Bool(bool),
    Integer(i64),
    Number(serde_json::Number),
    String(String),
    Array(Vec<serde_json::Value>),
    Object(Vec<(String, serde_json::Value)>),
}

/// What a list of values holds.
spec fn held_items(items: Seq<serde_json::Value>) -> Seq<JsonValue> {
    Seq::new(items.len(), |i: int| held(items[i]))
}

/// What a list of keyed values holds.
spec fn held_entries(entries: Seq<(String, serde_json::Value)>) -> Seq<
    (Seq<char>, JsonValue),
> {
    Seq::new(entries.len(), |i: int| (entries[i].0@, held(entries[i].1)))
}

impl Parts {
    /// What the parts hold together.
    spec fn value(self) -> JsonValue {
        match self {
            Parts::Null => JsonValue::Null,
            Parts::Bool(b) => JsonValue::Bool(b),
            Parts::Integer(i) => JsonValue::Integer(i),
            Parts::Number(n) => JsonValue::Number(n),
            Parts::String(s) => JsonValue::String(s@),
            Parts::Array(items) => JsonValue::Array(held_items(items@)),
            Parts::Object(entries) => JsonValue::Object(held_entries(entries@)),
        }
    }
}

/// `Clone` of `serde_json::Number` copies the number.
pub assume_specification[ <serde_json::Number as Clone>::clone ](n: &serde_json::Number) -> (r:
    serde_json::Number)
    ensures
        r == *n,
;

/// The variants of `serde_json::Value`, told apart: the parts hold what the
/// value held. A number in which `serde_json::Number::as_i64` finds an
/// integer is handed out as that integer; the entries of an object are
/// handed out in the order of `serde_json::Map::into_iter`.
#[verifier::external_body]
fn take_apart(v: serde_json::Value) -> (r: Parts)
    ensures
        r.value() == held(v),
{
    match v {
        serde_json::Value::Null => Parts::Null,
        serde_json::Value::Bool(b) => Parts::Bool(b),
        serde_json::Value::Number(n) => match n.as_i64() {
            Some(i) => Parts::Integer(i),
            None => Parts::Number(n),
        },
        serde_json::Value::String(s) => Parts::String(s),
        serde_json::Value::Array(a) => Parts::Array(a),
        serde_json::Value::Object(m) => Parts::Object(m.into_iter().collect()),
    }
}

/// The variants of `serde_json::Value`, built. Null, a truth value, a string
/// and an array hold what the parts hold. So does an integer: it goes through
/// `serde_json::Number::from`, and `serde_json::Number::as_i64` finds it
/// again. What a number of another kind and an object hold depends on what
/// the parts hold and on nothing else; the entries of an object go through
/// the `FromIterator` of `serde_json::Map`.
#[verifier::external_body]
fn put_together(p: Parts) -> (r: serde_json::Value)
    ensures
        held(r) == match p.value() {
            JsonValue::Number(n) => kept(JsonValue::Number(n)),
            JsonValue::Object(entries) => kept(JsonValue::Object(entries)),
            plain => plain,
        },
{
    match p {
        Parts::Null => serde_json::Value::Null,
        Parts::Bool(b) => serde_json::Value::Bool(b),
        Parts::Integer(i) => serde_json::Value::Number(serde_json::Number::from(i)),
        Parts::Number(n) => serde_json::Value::Number(n),
        Parts::String(s) => serde_json::Value::String(s),
        Parts::Array(a) => serde_json::Value::Array(a),
        Parts::Object(e) => serde_json::Value::Object(e.into_iter().collect()),
    }
}

/// `serde_json::from_str` for `serde_json::Value`: the value that the text
/// holds, if it is well-formed JSON.
#[verifier::external_body]
fn read(text: &str) -> (r: Result<serde_json::Value, serde_json::Error>)
    ensures
        match r {
            Ok(v) => parsed(text@) == Some(held(v)),
            Err(_) => parsed(text@) is None,
        },
{
    serde_json::from_str::<serde_json::Value>(text)
}

/// `serde_json::to_string` for `serde_json::Value`: the value as text on one
/// line. The writer puts no white space between the parts and escapes every
/// line feed inside a string, so the text holds none.
#[verifier::external_body]
fn write(v: &serde_json::Value) -> (r: Result<String, serde_json::Error>)
    ensures
        match r {
            Ok(s) => rendered(held(*v)) == Some(s@) && !s@.contains('\n'),
            Err(_) => rendered(held(*v)) is None,
        },
{
    serde_json::to_string(v)
}

/// `serde_json::to_string_pretty` for `serde_json::Value`: the value as
/// indented text.
#[verifier::external_body]
fn write_pretty(v: &serde_json::Value) -> (r: Result<String, serde_json::Error>)
    ensures
        match r {
            Ok(s) => rendered_pretty(held(*v)) == Some(s@),
            Err(_) => rendered_pretty(held(*v)) is None,
        },
{
    serde_json::to_string_pretty(v)
}

/// What the `serde_json::Value` holds that is made of `j`, level by level
/// from the leaves up: the same but for objects, whose entries `serde_json`
/// arranges, and for numbers that are no integers of 64 bits.
pub open spec fn normal(j: JsonValue) -> JsonValue
    decreases j, 1int,
{
    match j {
        JsonValue::Array(items) => JsonValue::Array(normal_items(items)),
        JsonValue::Object(entries) => kept(JsonValue::Object(normal_entries(entries))),
        JsonValue::Number(n) => kept(j),
        _ => j,
    }
}

/// What the items of an array are made into.
pub open spec fn normal_items(items: Seq<JsonValue>) -> Seq<JsonValue>
    decreases items, 0int,
{
    Seq::new(
        items.len(),
        |i: int|
            if 0 <= i < items.len() {
                normal(items[i])
            } else {
                JsonValue::Null
            },
    )
}

/// What the entries of an object are made into.
pub open spec fn normal_entries(entries: Seq<(Seq<char>, JsonValue)>) -> Seq<(Seq<char>, JsonValue)>
    decreases entries, 0int,
{
    Seq::new(
        entries.len(),
        |i: int|
            if 0 <= i < entries.len() {
                (entries[i].0, normal(entries[i].1))
            } else {
                (Seq::<char>::empty(), JsonValue::Null)
            },
    )
}

/// An array is made of what its items are made of.
proof fn lemma_normal_array(items: Seq<JsonValue>, made: Seq<JsonValue>)
    requires
        made.len() == items.len(),
        forall|i: int| 0 <= i < items.len() ==> made[i] == normal(items[i]),
    ensures
        normal(JsonValue::Array(items)) == JsonValue::Array(made),
{
    assert(normal_items(items) =~= made);
}

/// An object is made of its keys and of what its values are made of.
proof fn lemma_normal_object(
    entries: Seq<(Seq<char>, JsonValue)>,
    made: Seq<(Seq<char>, JsonValue)>,
)
    requires
        made.len() == entries.len(),
        forall|i: int|
            0 <= i < entries.len() ==> made[i] == (entries[i].0, normal(entries[i].1)),
    ensures
        normal(JsonValue::Object(entries)) == kept(JsonValue::Object(made)),
{
    assert(normal_entries(entries) =~= made);
}

/// The text of a JSON value on one line, where it can be written.
pub open spec fn compact(j: JsonValue) -> Option<Seq<char>> {
    rendered(normal(j))
}

/// The text of a JSON value with indentation, where it can be written.
pub open spec fn pretty(j: JsonValue) -> Option<Seq<char>> {
    rendered_pretty(normal(j))
}

/// Carries a `serde_json::Value` over into a `Json` that holds the same.
pub fn from_value(v: serde_json::Value) -> (r: Json)
    ensures
        r@ == held(v),
    decreases held(v),
{
    let ghost whole = held(v);
    match take_apart(v) {
        Parts::Null => Json::Null,
        Parts::Bool(b) => Json::Bool(b),
        Parts::Integer(i) => Json::Integer(i),
        Parts::Number(n) => Json::Number(n),
        Parts::String(s) => Json::String(s),
        Parts::Array(children) => {
            let ghost all = held_items(children@);
            let mut items: Vec<Json> = Vec::new();
            for child in it: children.into_iter()
                invariant
                    whole == held(v),
                    whole == JsonValue::Array(all),
                    all == held_items(it.seq()),
                    items@.len() == it.index(),
                    forall|k: int| 0 <= k < items@.len() ==> (#[trigger] items@[k])@ == all[k],
            {
                proof {
                    assert(all[it.index() as int] == held(child));
                    assert(decreases_to!(whole => whole->Array_0));
                    assert(decreases_to!(whole->Array_0 => whole->Array_0[it.index() as int]));
                }
                items.push(from_value(child));
            }
            proof {
                lemma_array_view(items);
                assert(items_view(items@) =~= all);
            }
            Json::Array(items)
        },
        Parts::Object(children) => {
            let ghost all = held_entries(children@);
            let mut entries: Vec<(String, Json)> = Vec::new();
            for child in it: children.into_iter()
                invariant
                    whole == held(v),
                    whole == JsonValue::Object(all),
                    all == held_entries(it.seq()),
                    entries@.len() == it.index(),
                    forall|k: int|
                        0 <= k < entries@.len() ==> (#[trigger] entries@[k]).0@ == all[k].0
                            && entries@[k].1@ == all[k].1,
            {
                proof {
                    assert(all[it.index() as int] == (child.0@, held(child.1)));
                    assert(decreases_to!(whole => whole->Object_0));
                    assert(decreases_to!(whole->Object_0 => whole->Object_0[it.index() as int]));
                    assert(decreases_to!(whole->Object_0[it.index() as int] => whole->Object_0[it.index() as int].1));
                }
                let (key, value) = child;
                entries.push((key, from_value(value)));
            }
            proof {
                lemma_object_view(entries);
                assert(entries_view(entries@) =~= all);
            }
            Json::Object(entries)
        },
    }
}

/// Carries a `Json` over into a `serde_json::Value`.
pub fn to_value(j: &Json) -> (r: serde_json::Value)
    ensures
        held(r) == normal(j@),
    decreases j,
{
    match j {
        Json::Null => put_together(Parts::Null),
        Json::Bool(b) => put_together(Parts::Bool(*b)),
        Json::Integer(i) => put_together(Parts::Integer(*i)),
        Json::Number(n) => put_together(Parts::Number(n.clone())),
        Json::String(s) => put_together(Parts::String(s.clone())),
        Json::Array(items) => {
            proof {
                lemma_array_view(*items);
            }
            let mut children: Vec<serde_json::Value> = Vec::new();
            let mut i: usize = 0;
            while i < items.len()
                invariant
                    i <= items.len(),
                    *j is Array && j->Array_0 == *items,
                    children@.len() == i,
                    forall|k: int| 0 <= k < i ==> held(#[trigger] children@[k]) == normal(items@[k]@),
                decreases items.len() - i,
            {
                assert(decreases_to!(*items => items[i as int]));
                children.push(to_value(&items[i]));
                i += 1;
            }
            proof {
                lemma_normal_array(items_view(items@), held_items(children@));
            }
            put_together(Parts::Array(children))
        },
        Json::Object(entries) => {
            proof {
                lemma_object_view(*entries);
            }
            let mut children: Vec<(String, serde_json::Value)> = Vec::new();
            let mut i: usize = 0;
            while i < entries.len()
                invariant
                    i <= entries.len(),
                    *j is Object && j->Object_0 == *entries,
                    children@.len() == i,
                    forall|k: int|
                        0 <= k < i ==> (#[trigger] children@[k]).0@ == entries@[k].0@ && held(
                            children@[k].1,
                        ) == normal(entries@[k].1@),
                decreases entries.len() - i,
            {
                assert(decreases_to!(*entries => entries[i as int]));
                children.push((entries[i].0.clone(), to_value(&entries[i].1)));
                i += 1;
            }
            proof {
                lemma_normal_object(entries_view(entries@), held_entries(children@));
            }
            put_together(Parts::Object(children))
        },
    }
}

/// The JSON value that a text holds, if it is well-formed.
pub fn parse(text: &str) -> (r: Option<Json>)
    ensures
        match r {
            Some(j) => parsed(text@) == Some(j@),
            None => parsed(text@) is None,
        },
{
    match read(text) {
        Ok(v) => Some(from_value(v)),
        Err(_) => None,
    }
}

/// The JSON value as text on one line; `None` where the writer fails. The
/// text holds no line feed.
pub fn to_text(j: &Json) -> (r: Option<String>)
    ensures
        match r {
            Some(s) => compact(j@) == Some(s@) && !s@.contains('\n'),
            None => compact(j@) is None,
        },
{
    match write(&to_value(j)) {
        Ok(s) => Some(s),
        Err(_) => None,
    }
}

/// The JSON value as indented text; `None` where the writer fails.
pub fn to_pretty(j: &Json) -> (r: Option<String>)
    ensures
        match r {
            Some(s) => pretty(j@) == Some(s@),
            None => pretty(j@) is None,
        },
{
    match write_pretty(&to_value(j)) {
        Ok(s) => Some(s),
        Err(_) => None,
    }
}

} // verus!
