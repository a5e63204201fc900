//! JSON values as the protocol engine reads and builds them.

use vstd::prelude::*;
use crate::text::same;

verus! {

/// A JSON value.
///
/// A number that is an integer and fits in 64 bits with sign is an `Integer`;
/// any other number is a `Number`, kept as `serde_json` holds it. An object is
/// a list of entries; where a key is repeated, the last entry with it is the
/// one that counts.
#[derive(Debug, PartialEq)]
pub enum Json {
    Null,
    Bool(bool),
    Integer(i64),
    Number(serde_json::Number),
    String(String),
    Array(Vec<Json>),
    Object(Vec<(String, Json)>),
}

/// What a `Json` stands for: the same tree over sequences.
pub enum JsonValue {
    Null,
    Bool(bool),
    Integer(i64),
    Number(serde_json::Number),
    String(Seq<char>),
    Array(Seq<JsonValue>),
    Object(Seq<(Seq<char>, JsonValue)>),
}

/// What `j` stands for.
pub open spec fn value_of(j: &Json) -> JsonValue
    decreases j,
{
    match j {
        Json::Null => JsonValue::Null,
        Json::Bool(b) => JsonValue::Bool(*b),
        Json::Integer(i) => JsonValue::Integer(*i),
        Json::Number(n) => JsonValue::Number(*n),
        Json::String(s) => JsonValue::String(s@),
        Json::Array(items) => JsonValue::Array(
            Seq::new(
                items@.len(),
                |i: int|
                    if 0 <= i < items@.len() {
                        value_of(&items@[i])
                    } else {
                        JsonValue::Null
                    },
            ),
        ),
        Json::Object(entries) => JsonValue::Object(
            Seq::new(
                entries@.len(),
                |i: int|
                    if 0 <= i < entries@.len() {
                        (entries@[i].0@, value_of(&entries@[i].1))
                    } else {
                        (Seq::<char>::empty(), JsonValue::Null)
                    },
            ),
        ),
    }
}

impl View for Json {
    type V = JsonValue;

    open spec fn view(&self) -> JsonValue {
        value_of(self)
    }
}

/// The values that a list of `Json` stands for.
pub open spec fn items_view(items: Seq<Json>) -> Seq<JsonValue> {
    Seq::new(items.len(), |i: int| items[i]@)
}

/// The entries that a list of keyed `Json` stands for.
pub open spec fn entries_view(entries: Seq<(String, Json)>) -> Seq<(Seq<char>, JsonValue)> {
    Seq::new(entries.len(), |i: int| (entries[i].0@, entries[i].1@))
}

/// The value under `key` in a list of entries: that of the last entry with this key.
pub open spec fn lookup(entries: Seq<(Seq<char>, JsonValue)>, key: Seq<char>) -> Option<JsonValue>
    decreases entries.len(),
{
    if entries.len() == 0 {
        None
    } else if entries.last().0 == key {
        Some(entries.last().1)
    } else {
        lookup(entries.drop_last(), key)
    }
}

impl JsonValue {
    /// The member `key` of an object; `None` for a missing member and for any other value.
    pub open spec fn field(self, key: Seq<char>) -> Option<JsonValue> {
        match self {
            JsonValue::Object(entries) => lookup(entries, key),
            _ => None,
        }
    }

    /// The characters of a string; `None` for any other value.
    pub open spec fn text(self) -> Option<Seq<char>> {
        match self {
            JsonValue::String(s) => Some(s),
            _ => None,
        }
    }

    /// The integer of an integer value; `None` for any other value.
    pub open spec fn integer(self) -> Option<i64> {
        match self {
            JsonValue::Integer(i) => Some(i),
            _ => None,
        }
    }

    /// The items of an array; `None` for any other value.
    pub open spec fn items(self) -> Option<Seq<JsonValue>> {
        match self {
            JsonValue::Array(items) => Some(items),
            _ => None,
        }
    }

    /// The entries of an object; `None` for any other value.
    pub open spec fn entries(self) -> Option<Seq<(Seq<char>, JsonValue)>> {
        match self {
            JsonValue::Object(entries) => Some(entries),
            _ => None,
        }
    }

    /// The characters of each item, where every item is a string.
    pub open spec fn texts(self) -> Option<Seq<Seq<char>>> {
        match self {
            JsonValue::Array(items) => if forall|i: int| 0 <= i < items.len() ==> items[i] is String {
                Some(Seq::new(items.len(), |i: int| items[i]->String_0))
            } else {
                None
            },
            _ => None,
        }
    }
}

/// An array's view is the list of its items' views.
pub proof fn lemma_array_view(items: Vec<Json>)
    ensures
        Json::Array(items)@ == JsonValue::Array(items_view(items@)),
{
    assert(Json::Array(items)@->Array_0 =~= items_view(items@));
}

/// An object's view is the list of its entries' views.
pub proof fn lemma_object_view(entries: Vec<(String, Json)>)
    ensures
        Json::Object(entries)@ == JsonValue::Object(entries_view(entries@)),
{
    let a = Json::Object(entries)@->Object_0;
    let b = entries_view(entries@);
    assert(a =~= b);
}

impl Clone for Json {
    fn clone(&self) -> (r: Json)
        ensures
            r@ == self@,
    {
        copy_of(self)
    }
}

/// A copy of `j`, part by part.
fn copy_of(j: &Json) -> (r: Json)
    ensures
        r@ == j@,
    decreases j,
{
    {
        match j {
            Json::Null => Json::Null,
            Json::Bool(b) => Json::Bool(*b),
            Json::Integer(i) => Json::Integer(*i),
            Json::Number(n) => Json::Number(n.clone()),
            Json::String(s) => Json::String(s.clone()),
            Json::Array(items) => {
                let mut copy: Vec<Json> = Vec::new();
                let mut i: usize = 0;
                while i < items.len()
                    invariant
                        i <= items.len(),
                        *j is Array && j->Array_0 == *items,
                        copy@.len() == i,
                        forall|k: int| 0 <= k < i ==> copy@[k]@ == items@[k]@,
                    decreases items.len() - i,
                {
                    assert(decreases_to!(*items => items[i as int]));
                    copy.push(copy_of(&items[i]));
                    i += 1;
                }
                proof {
                    lemma_array_view(copy);
                    lemma_array_view(*items);
                    assert(items_view(copy@) =~= items_view(items@));
                }
                Json::Array(copy)
            },
            Json::Object(entries) => {
                let mut copy: Vec<(String, Json)> = Vec::new();
                let mut i: usize = 0;
                while i < entries.len()
                    invariant
                        i <= entries.len(),
                        *j is Object && j->Object_0 == *entries,
                        copy@.len() == i,
                        forall|k: int|
                            0 <= k < i ==> copy@[k].0@ == entries@[k].0@ && copy@[k].1@
                                == entries@[k].1@,
                    decreases entries.len() - i,
                {
                    assert(decreases_to!(*entries => entries[i as int]));
                    copy.push((entries[i].0.clone(), copy_of(&entries[i].1)));
                    i += 1;
                }
                proof {
                    lemma_object_view(copy);
                    lemma_object_view(*entries);
                    assert(entries_view(copy@) =~= entries_view(entries@));
                }
                Json::Object(copy)
            },
        }
    }
}

impl Json {
    /// A string value with the characters of `s`.
    pub fn string(s: &str) -> (r: Json)
        ensures
            r@ == JsonValue::String(s@),
    {
        Json::String(s.to_owned())
    }

    /// The array of `items`.
    pub fn array(items: Vec<Json>) -> (r: Json)
        ensures
            r@ == JsonValue::Array(items_view(items@)),
    {
        proof {
            lemma_array_view(items);
        }
        Json::Array(items)
    }

    /// The object of `entries`.
    pub fn object(entries: Vec<(String, Json)>) -> (r: Json)
        ensures
            r@ == JsonValue::Object(entries_view(entries@)),
    {
        proof {
            lemma_object_view(entries);
        }
        Json::Object(entries)
    }

    /// Whether this is the value null.
    pub fn is_null(&self) -> (r: bool)
        ensures
            r == (self@ is Null),
    {
        match self {
            Json::Null => true,
            _ => false,
        }
    }

    /// The characters of a string value.
    pub fn as_str(&self) -> (r: Option<&str>)
        ensures
            match r {
                Some(s) => self@.text() == Some(s@),
                None => self@.text() is None,
            },
    {
        match self {
            Json::String(s) => Some(s.as_str()),
            _ => None,
        }
    }

    /// The integer of an integer value.
    pub fn as_i64(&self) -> (r: Option<i64>)
        ensures
            r == self@.integer(),
    {
        match self {
            Json::Integer(i) => Some(*i),
            _ => None,
        }
    }

    /// The items of an array value.
    pub fn as_array(&self) -> (r: Option<&Vec<Json>>)
        ensures
            match r {
                Some(items) => self@.items() == Some(items_view(items@)),
                None => self@.items() is None,
            },
    {
        match self {
            Json::Array(items) => {
                proof {
                    lemma_array_view(*items);
                }
                Some(items)
            },
            _ => None,
        }
    }

    /// The entries of an object value.
    pub fn as_object(&self) -> (r: Option<&Vec<(String, Json)>>)
        ensures
            match r {
                Some(entries) => self@.entries() == Some(entries_view(entries@)),
                None => self@.entries() is None,
            },
    {
        match self {
            Json::Object(entries) => {
                proof {
                    lemma_object_view(*entries);
                }
                Some(entries)
            },
            _ => None,
        }
    }

    /// The member `key` of an object value.
    pub fn get(&self, key: &str) -> (r: Option<&Json>)
        ensures
            match r {
                Some(v) => self@.field(key@) == Some(v@),
                None => self@.field(key@) is None,
            },
    {
        match self {
            Json::Object(entries) => {
                proof {
                    lemma_object_view(*entries);
                }
                let ghost all = entries_view(entries@);
                let mut i: usize = entries.len();
                proof {
                    assert(all.take(all.len() as int) =~= all);
                }
                while i > 0
                    invariant
                        i <= entries.len(),
                        all == entries_view(entries@),
                        self@ == JsonValue::Object(all),
                        lookup(all, key@) == lookup(all.take(i as int), key@),
                    decreases i,
                {
                    proof {
                        let t = all.take(i as int);
                        assert(t.last() == all[i - 1]);
                        assert(t.drop_last() =~= all.take(i - 1));
                    }
                    if same(entries[i - 1].0.as_str(), key) {
                        return Some(&entries[i - 1].1);
                    }
                    i -= 1;
                }
                None
            },
            _ => None,
        }
    }

    /// The strings of an array value whose items are all strings.
    pub fn as_strings(&self) -> (r: Option<Vec<String>>)
        ensures
            match r {
                Some(v) => self@.texts() == Some(crate::text::views(v@)),
                None => self@.texts() is None,
            },
    {
        match self {
            Json::Array(items) => {
                proof {
                    lemma_array_view(*items);
                }
                let mut out: Vec<String> = Vec::new();
                let mut i: usize = 0;
                while i < items.len()
                    invariant
                        i <= items.len(),
                        out@.len() == i,
                        self@ == JsonValue::Array(items_view(items@)),
                        forall|k: int| 0 <= k < i ==> items@[k]@ == JsonValue::String(out@[k]@),
                    decreases items.len() - i,
                {
                    match &items[i] {
                        Json::String(s) => {
                            out.push(s.clone());
                        },
                        _ => {
                            assert(!(items_view(items@)[i as int] is String));
                            return None;
                        },
                    }
                    i += 1;
                }
                proof {
                    let vals = items_view(items@);
                    assert forall|k: int| 0 <= k < vals.len() implies vals[k] is String by {
                        assert(items@[k]@ == JsonValue::String(out@[k]@));
                    }
                    assert(Seq::new(vals.len(), |k: int| vals[k]->String_0) =~= crate::text::views(
                        out@,
                    ));
                }
                Some(out)
            },
            _ => None,
        }
    }
}

/// The view of a JSON value or the message of a failure.
pub open spec fn json_outcome(r: Result<Json, String>) -> Result<JsonValue, Seq<char>> {
    match r {
        Ok(j) => Ok(j@),
        Err(e) => Err(e@),
    }
}

/// A list of no entries.
pub fn new_entries() -> (r: Vec<(String, Json)>)
    ensures
        entries_view(r@) == Seq::<(Seq<char>, JsonValue)>::empty(),
{
    let r: Vec<(String, Json)> = Vec::new();
    assert(entries_view(r@) =~= Seq::empty());
    r
}

/// A list of no items.
pub fn new_items() -> (r: Vec<Json>)
    ensures
        items_view(r@) == Seq::<JsonValue>::empty(),
{
    let r: Vec<Json> = Vec::new();
    assert(items_view(r@) =~= Seq::empty());
    r
}

/// Appends the entry `key`: `value` to a list of entries.
pub fn push_entry(entries: &mut Vec<(String, Json)>, key: &str, value: Json)
    ensures
        entries_view(final(entries)@) == entries_view(old(entries)@).push((key@, value@)),
{
    entries.push((key.to_owned(), value));
    assert(entries_view(entries@) =~= entries_view(old(entries)@).push((key@, value@)));
}

/// Appends `value` to a list of items.
pub fn push_item(items: &mut Vec<Json>, value: Json)
    ensures
        items_view(final(items)@) == items_view(old(items)@).push(value@),
{
    items.push(value);
    assert(items_view(items@) =~= items_view(old(items)@).push(value@));
}

} // verus!
