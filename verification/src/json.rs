//! A model of JSON values, as the protocol messages carry them.
//!
//! Turning JSON text into a [`JsonValue`] and back is left to the caller's
//! JSON library; everything the protocol reads from or writes into a message
//! is done on this model.

use vstd::prelude::*;
use crate::text::{str_eq, owned};

verus! {

/// A JSON number. Integers that fit in `i64` are `Int`, larger unsigned
/// integers `UInt`; any other number keeps the decimal text it was written
/// with.
#[derive(Debug)]
pub enum JsonNumber {
    Int(i64),
    UInt(u64),
    Float(String),
}

/// A JSON value. An object keeps its members in order; the protocol code
/// never puts the same key in one object twice.
#[derive(Debug)]
pub enum JsonValue {
    Null,
    Bool(bool),
    Number(JsonNumber),
    String(String),
    Array(Vec<JsonValue>),
    Object(Vec<(String, JsonValue)>),
}

/// The mathematical form of a JSON value: strings as character sequences,
/// integers as `int`.
#[verifier::ext_equal]
pub enum Json {
    Null,
    Bool(bool),
    Int(int),
    Float(Seq<char>),
    Str(Seq<char>),
    Array(Seq<Json>),
    Object(Seq<(Seq<char>, Json)>),
}

/// The mathematical form of a JSON value.
pub open spec fn json_view(v: JsonValue) -> Json
    decreases v,
{
    match v {
        JsonValue::Null => Json::Null,
        JsonValue::Bool(b) => Json::Bool(b),
        JsonValue::Number(JsonNumber::Int(i)) => Json::Int(i as int),
        JsonValue::Number(JsonNumber::UInt(u)) => Json::Int(u as int),
        JsonValue::Number(JsonNumber::Float(t)) => Json::Float(t@),
        JsonValue::String(s) => Json::Str(s@),
        JsonValue::Array(items) => Json::Array(items_view(items@)),
        JsonValue::Object(entries) => Json::Object(entries_view(entries@)),
    }
}

/// The mathematical form of a sequence of JSON values.
pub open spec fn items_view(s: Seq<JsonValue>) -> Seq<Json>
    decreases s,
{
    if s.len() == 0 {
        seq![]
    } else {
        items_view(s.drop_last()).push(json_view(s.last()))
    }
}

/// The mathematical form of the members of a JSON object.
pub open spec fn entries_view(s: Seq<(String, JsonValue)>) -> Seq<(Seq<char>, Json)>
    decreases s,
{
    if s.len() == 0 {
        seq![]
    } else {
        entries_view(s.drop_last()).push((s.last().0@, json_view(s.last().1)))
    }
}

impl View for JsonValue {
    type V = Json;

    open spec fn view(&self) -> Json {
        json_view(*self)
    }
}

/// The view of a sequence of values has the same length and holds the views
/// of the values, in order.
pub broadcast proof fn lemma_items_view(s: Seq<JsonValue>)
    ensures
        #[trigger] items_view(s).len() == s.len(),
        forall|i: int| 0 <= i < s.len() ==> #[trigger] items_view(s)[i] == json_view(s[i]),
    decreases s.len(),
{
    if s.len() > 0 {
        lemma_items_view(s.drop_last());
    }
}

/// The view of the members of an object has the same length and holds the
/// views of the members, in order.
pub broadcast proof fn lemma_entries_view(s: Seq<(String, JsonValue)>)
    ensures
        #[trigger] entries_view(s).len() == s.len(),
        forall|i: int|
            0 <= i < s.len() ==> #[trigger] entries_view(s)[i] == (s[i].0@, json_view(s[i].1)),
    decreases s.len(),
{
    if s.len() > 0 {
        lemma_entries_view(s.drop_last());
    }
}

/// The value of the first member of `es` named `key`.
pub open spec fn members_get(es: Seq<(Seq<char>, Json)>, key: Seq<char>) -> Option<Json>
    decreases es.len(),
{
    if es.len() == 0 {
        None
    } else if es[0].0 == key {
        Some(es[0].1)
    } else {
        members_get(es.skip(1), key)
    }
}

/// The member `key` of an object (`Value::get` with a string index); `None`
/// for an absent key and for anything but an object.
pub open spec fn json_get(j: Json, key: Seq<char>) -> Option<Json> {
    match j {
        Json::Object(es) => members_get(es, key),
        _ => None,
    }
}

/// The string a value holds, if it is a string (`Value::as_str`).
pub open spec fn json_str(j: Json) -> Option<Seq<char>> {
    match j {
        Json::Str(s) => Some(s),
        _ => None,
    }
}

/// An object member named by a string literal.
pub open spec fn member(key: &str, value: Json) -> (Seq<char>, Json) {
    (key@, value)
}

/// A string value given by a string literal.
pub open spec fn jstr(s: &str) -> Json {
    Json::Str(s@)
}

/// The empty JSON object.
pub open spec fn empty_object() -> Json {
    Json::Object(seq![])
}

impl JsonValue {
    /// A string value holding a copy of `s`.
    pub fn from_str(s: &str) -> (res: JsonValue)
        ensures
            res@ == Json::Str(s@),
    {
        JsonValue::String(owned(s))
    }

    /// A deep copy of the value.
    pub fn deep_clone(&self) -> (res: JsonValue)
        ensures
            res@ == self@,
        decreases self,
    {
        broadcast use lemma_items_view, lemma_entries_view;

        match self {
            JsonValue::Null => JsonValue::Null,
            JsonValue::Bool(b) => JsonValue::Bool(*b),
            JsonValue::Number(JsonNumber::Int(i)) => JsonValue::Number(JsonNumber::Int(*i)),
            JsonValue::Number(JsonNumber::UInt(u)) => JsonValue::Number(JsonNumber::UInt(*u)),
            JsonValue::Number(JsonNumber::Float(t)) => JsonValue::Number(
                JsonNumber::Float(t.clone()),
            ),
            JsonValue::String(s) => JsonValue::String(s.clone()),
            JsonValue::Array(items) => {
                let mut out: Vec<JsonValue> = Vec::new();
                let mut i: usize = 0;
                while i < items.len()
                    invariant
                        *self == JsonValue::Array(*items),
                        i <= items@.len(),
                        out@.len() == i,
                        forall|j: int| 0 <= j < i ==> json_view(#[trigger] out@[j]) == json_view(
                            items@[j],
                        ),
                    decreases items@.len() - i,
                {
                    proof {
                        assert(decreases_to!(*self => self->Array_0));
                        assert(decreases_to!(*items => items@));
                        assert(decreases_to!(items@ => items@[i as int]));
                    }
                    out.push(items[i].deep_clone());
                    i = i + 1;
                }
                proof {
                    lemma_items_view(out@);
                    lemma_items_view(items@);
                }
                assert(items_view(out@) =~= items_view(items@));
                JsonValue::Array(out)
            },
            JsonValue::Object(entries) => {
                let mut out: Vec<(String, JsonValue)> = Vec::new();
                let mut i: usize = 0;
                while i < entries.len()
                    invariant
                        *self == JsonValue::Object(*entries),
                        i <= entries@.len(),
                        out@.len() == i,
                        forall|j: int|
                            0 <= j < i ==> (#[trigger] out@[j]).0@ == entries@[j].0@ && json_view(
                                out@[j].1,
                            ) == json_view(entries@[j].1),
                    decreases entries@.len() - i,
                {
                    proof {
                        assert(decreases_to!(*self => self->Object_0));
                        assert(decreases_to!(*entries => entries@));
                        assert(decreases_to!(entries@ => entries@[i as int]));
                        assert(decreases_to!(entries@[i as int] => entries@[i as int].1));
                    }
                    let v = entries[i].1.deep_clone();
                    let k = entries[i].0.clone();
                    out.push((k, v));
                    assert(out@[i as int].0@ == entries@[i as int].0@);
                    i = i + 1;
                }
                proof {
                    lemma_entries_view(out@);
                    lemma_entries_view(entries@);
                }
                assert forall|j: int| 0 <= j < out@.len() implies entries_view(out@)[j]
                    == entries_view(entries@)[j] by {
                    assert(entries_view(out@)[j] == (out@[j].0@, json_view(out@[j].1)));
                    assert(entries_view(entries@)[j] == (entries@[j].0@, json_view(entries@[j].1)));
                }
                assert(entries_view(out@) =~= entries_view(entries@));
                JsonValue::Object(out)
            },
        }
    }

    /// The member `key` of an object; `None` for an absent key and for
    /// anything but an object (`Value::get`).
    pub fn get(&self, key: &str) -> (res: Option<&JsonValue>)
        ensures
            match json_get(self@, key@) {
                Some(j) => res is Some && res->0@ == j,
                None => res is None,
            },
    {
        broadcast use lemma_entries_view;

        match self {
            JsonValue::Object(entries) => {
                let ghost es = entries_view(entries@);
                proof {
                    lemma_entries_view(entries@);
                }
                let mut i: usize = 0;
                assert(es.skip(0) =~= es);
                while i < entries.len()
                    invariant
                        *self == JsonValue::Object(*entries),
                        es == entries_view(entries@),
                        es.len() == entries@.len(),
                        forall|j: int|
                            0 <= j < entries@.len() ==> #[trigger] es[j] == (
                                entries@[j].0@,
                                json_view(entries@[j].1),
                            ),
                        i <= entries@.len(),
                        members_get(es, key@) == members_get(es.skip(i as int), key@),
                    decreases entries@.len() - i,
                {
                    if str_eq(entries[i].0.as_str(), key) {
                        return Some(&entries[i].1);
                    }
                    assert(es.skip(i as int).skip(1) =~= es.skip(i + 1));
                    i = i + 1;
                }
                None
            },
            _ => None,
        }
    }

    /// The string held by a string value (`Value::as_str`).
    pub fn as_str(&self) -> (res: Option<&String>)
        ensures
            match json_str(self@) {
                Some(s) => res is Some && res->0@ == s,
                None => res is None,
            },
    {
        match self {
            JsonValue::String(s) => Some(s),
            _ => None,
        }
    }

    /// Whether the value is `null`.
    pub fn is_null(&self) -> (res: bool)
        ensures
            res == (self@ == Json::Null),
    {
        match self {
            JsonValue::Null => true,
            _ => false,
        }
    }
}

/// Whether the members of an object have pairwise distinct keys.
pub open spec fn distinct_keys(es: Seq<(Seq<char>, Json)>) -> bool {
    forall|i: int, j: int| 0 <= i < j < es.len() ==> (#[trigger] es[i]).0 != (#[trigger] es[j]).0
}

/// In an object whose keys are distinct, the member `key` is the value of
/// the one member with that key, and there is none when no member has it.
pub proof fn lemma_members_get_distinct(es: Seq<(Seq<char>, Json)>, key: Seq<char>)
    requires
        distinct_keys(es),
    ensures
        forall|i: int| 0 <= i < es.len() && (#[trigger] es[i]).0 == key ==> members_get(es, key) == Some(es[i].1),
        (forall|i: int| 0 <= i < es.len() ==> (#[trigger] es[i]).0 != key) ==> members_get(es, key) is None,
    decreases es.len(),
{
    if es.len() > 0 {
        let rest = es.skip(1);
        assert forall|i: int, j: int| 0 <= i < j < rest.len() implies (#[trigger] rest[i]).0 != (#[trigger] rest[j]).0 by {
            assert(rest[i] == es[i + 1]);
            assert(rest[j] == es[j + 1]);
        }
        lemma_members_get_distinct(rest, key);
        assert forall|i: int| 0 <= i < es.len() && (#[trigger] es[i]).0 == key implies members_get(es, key) == Some(es[i].1) by {
            if i > 0 {
                assert(es[0].0 != es[i].0);
                assert(rest[i - 1] == es[i]);
            }
        }
        if forall|i: int| 0 <= i < es.len() ==> (#[trigger] es[i]).0 != key {
            assert(es[0].0 != key);
            assert forall|i: int| 0 <= i < rest.len() implies (#[trigger] rest[i]).0 != key by {
                assert(rest[i] == es[i + 1]);
            }
        }
    }
}

/// Member order does not matter to `json_get`: two objects whose members are
/// the same, each with distinct keys, in any order, give the same value for
/// every key.
pub proof fn lemma_json_get_ignores_member_order(
    es: Seq<(Seq<char>, Json)>,
    es2: Seq<(Seq<char>, Json)>,
    key: Seq<char>,
)
    requires
        distinct_keys(es),
        distinct_keys(es2),
        es.to_multiset() == es2.to_multiset(),
    ensures
        json_get(Json::Object(es), key) == json_get(Json::Object(es2), key),
{
    broadcast use vstd::seq_lib::group_to_multiset_ensures;
    lemma_members_get_distinct(es, key);
    lemma_members_get_distinct(es2, key);
    if exists|i: int| 0 <= i < es.len() && (#[trigger] es[i]).0 == key {
        let i = choose|i: int| 0 <= i < es.len() && (#[trigger] es[i]).0 == key;
        assert(es.to_multiset().count(es[i]) > 0);
        assert(es2.contains(es[i]));
        let j = choose|j: int| 0 <= j < es2.len() && es2[j] == es[i];
        assert(es2[j].0 == key);
    } else if exists|j: int| 0 <= j < es2.len() && (#[trigger] es2[j]).0 == key {
        let j = choose|j: int| 0 <= j < es2.len() && (#[trigger] es2[j]).0 == key;
        assert(es2.to_multiset().count(es2[j]) > 0);
        assert(es.contains(es2[j]));
        let i = choose|i: int| 0 <= i < es.len() && es[i] == es2[j];
        assert(es[i].0 == key);
    }
}

} // verus!
