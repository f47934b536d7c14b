//! JSON values as the library holds them: plain data with a mathematical view.
//!
//! An object holds its entries in a `serde_json::Map`, and its view is a map.
use vstd::prelude::*;

use crate::interop::{
    self, json_of, number_as_u64, number_of, number_of_count, object_get, object_insert, object_new,
    object_remove, value_of,
};

verus! {

/// A JSON value.
#[derive(Debug, PartialEq, Eq)]
pub enum Json {
    Null,
    Bool(bool),
    Number(serde_json::Number),
    Text(String),
    List(Vec<Json>),
    Object(JsonObject),
}

/// The entries of a JSON object.
#[derive(Debug, PartialEq, Eq)]
pub struct JsonObject {
    pub map: serde_json::Map<String, serde_json::Value>,
}

/// The mathematical view of a JSON value.
pub ghost enum JsonView {
    Null,
    Bool(bool),
    Number(interop::NumberView),
    Text(Seq<char>),
    List(Seq<JsonView>),
    Object(Map<Seq<char>, JsonView>),
}

pub open spec fn json_view(j: Json) -> JsonView
    decreases j,
{
    match j {
        Json::Null => JsonView::Null,
        Json::Bool(b) => JsonView::Bool(b),
        Json::Number(n) => JsonView::Number(interop::number_view(n)),
        Json::Text(s) => JsonView::Text(s@),
        Json::List(v) => JsonView::List(list_view(v@)),
        Json::Object(o) => JsonView::Object(interop::object_view(o.map)),
    }
}

pub open spec fn list_view(s: Seq<Json>) -> Seq<JsonView>
    decreases s,
{
    if s.len() == 0 {
        Seq::empty()
    } else {
        list_view(s.drop_last()).push(json_view(s.last()))
    }
}

/// A list is viewed element by element.
pub proof fn lemma_list_view(s: Seq<Json>)
    ensures
        list_view(s).len() == s.len(),
        forall|i: int| 0 <= i < s.len() ==> #[trigger] list_view(s)[i] == json_view(s[i]),
    decreases s.len(),
{
    if s.len() > 0 {
        lemma_list_view(s.drop_last());
        assert forall|i: int| 0 <= i < s.len() implies #[trigger] list_view(s)[i] == json_view(
            s[i],
        ) by {
            if i < s.len() - 1 {
                assert(list_view(s.drop_last())[i] == json_view(s.drop_last()[i]));
            }
        }
    }
}

impl View for Json {
    type V = JsonView;

    open spec fn view(&self) -> JsonView {
        json_view(*self)
    }
}

impl View for JsonObject {
    type V = Map<Seq<char>, JsonView>;

    open spec fn view(&self) -> Map<Seq<char>, JsonView> {
        interop::object_view(self.map)
    }
}

/// An object without entries.
pub open spec fn no_entries() -> Map<Seq<char>, JsonView> {
    Map::empty()
}

/// The view of an integer.
pub open spec fn int_view(value: int) -> JsonView {
    JsonView::Number(interop::NumberView::Whole(value))
}

/// The integer that a view holds, where it fits in a `u64`.
pub open spec fn as_u64_view(value: JsonView) -> Option<u64> {
    match value {
        JsonView::Number(interop::NumberView::Whole(i)) => if 0 <= i <= u64::MAX {
            Some(i as u64)
        } else {
            None
        },
        _ => None,
    }
}

/// The value under `key`, where the view is an object that has one.
pub open spec fn get_view(value: JsonView, key: Seq<char>) -> Option<JsonView> {
    match value {
        JsonView::Object(o) => if o.contains_key(key) {
            Some(o[key])
        } else {
            None
        },
        _ => None,
    }
}

/// The text of a view that is one.
pub open spec fn text_view(value: Option<JsonView>) -> Option<Seq<char>> {
    match value {
        Some(JsonView::Text(s)) => Some(s),
        _ => None,
    }
}

/// The view of an optional string: the text, or `null`.
pub open spec fn opt_text_view(value: Option<Seq<char>>) -> JsonView {
    match value {
        Some(s) => JsonView::Text(s),
        None => JsonView::Null,
    }
}

impl JsonObject {
    pub fn new() -> (r: JsonObject)
        ensures
            r@ == no_entries(),
    {
        JsonObject { map: object_new() }
    }

    /// This object with `value` under `key`.
    pub fn with(self, key: &str, value: Json) -> (r: JsonObject)
        ensures
            r@ == self@.insert(key@, value@),
    {
        let mut map = self.map;
        object_insert(&mut map, key.to_owned(), value_of(&value));
        JsonObject { map }
    }

    /// The value under `key`.
    pub fn get(&self, key: &str) -> (r: Option<Json>)
        ensures
            r is Some <==> self@.contains_key(key@),
            r matches Some(v) ==> v@ == self@[key@],
    {
        match object_get(&self.map, key) {
            Some(value) => Some(json_of(value)),
            None => None,
        }
    }

    /// Drops whatever stands under `key`.
    pub fn remove(&mut self, key: &str)
        ensures
            final(self)@ == old(self)@.remove(key@),
    {
        object_remove(&mut self.map, key);
    }

    /// Puts `value` under `key`, in place of what stood there.
    pub fn insert(&mut self, key: &str, value: Json)
        ensures
            final(self)@ == old(self)@.insert(key@, value@),
    {
        object_insert(&mut self.map, key.to_owned(), value_of(&value));
    }
}

impl Json {
    pub fn text(value: &str) -> (r: Json)
        ensures
            r@ == JsonView::Text(value@),
    {
        Json::Text(value.to_owned())
    }

    /// The text, or `null`.
    pub fn opt_text(value: Option<&str>) -> (r: Json)
        ensures
            r@ == opt_text_view(match value { Some(s) => Some(s@), None => None }),
    {
        match value {
            Some(s) => Json::text(s),
            None => Json::Null,
        }
    }

    pub fn number(value: i64) -> (r: Json)
        ensures
            r@ == int_view(value as int),
    {
        Json::Number(number_of(value))
    }

    /// A count as a number.
    pub fn count(value: usize) -> (r: Json)
        ensures
            r@ == int_view(value as int),
    {
        Json::Number(number_of_count(value as u64))
    }

    /// The value under `key`, where this is an object that has one.
    pub fn get(&self, key: &str) -> (r: Option<Json>)
        ensures
            r is Some <==> get_view(self@, key@) is Some,
            r matches Some(v) ==> get_view(self@, key@) == Some(v@),
    {
        match self {
            Json::Object(o) => o.get(key),
            _ => None,
        }
    }

    pub fn as_str(&self) -> (r: Option<&str>)
        ensures
            r is Some <==> self@ is Text,
            r matches Some(s) ==> self@ == JsonView::Text(s@),
    {
        match self {
            Json::Text(s) => Some(s.as_str()),
            _ => None,
        }
    }

    pub fn as_bool(&self) -> (r: Option<bool>)
        ensures
            r is Some <==> self@ is Bool,
            r matches Some(b) ==> self@ == JsonView::Bool(b),
    {
        match self {
            Json::Bool(b) => Some(*b),
            _ => None,
        }
    }

    /// The integer, where this is one that fits in a `u64`.
    pub fn as_u64(&self) -> (r: Option<u64>)
        ensures
            r == as_u64_view(self@),
    {
        match self {
            Json::Number(n) => number_as_u64(n),
            _ => None,
        }
    }

    /// The elements, where this is a list.
    pub fn as_list(&self) -> (r: Option<&Vec<Json>>)
        ensures
            r is Some <==> self@ is List,
            r matches Some(v) ==> self@ == JsonView::List(list_view(v@)),
    {
        match self {
            Json::List(v) => Some(v),
            _ => None,
        }
    }
}

fn copy_list(v: &Vec<Json>) -> (r: Vec<Json>)
    ensures
        list_view(r@) == list_view(v@),
    decreases v,
{
    let mut out: Vec<Json> = Vec::new();
    let mut i: usize = 0;
    while i < v.len()
        invariant
            i <= v.len(),
            list_view(out@) == list_view(v@.take(i as int)),
        decreases v.len() - i,
    {
        let ghost was = out@;
        out.push(v[i].clone());
        assert(out@.drop_last() == was);
        assert(v@.take(i + 1).drop_last() == v@.take(i as int));
        i += 1;
    }
    assert(v@.take(i as int) == v@);
    out
}

impl Clone for Json {
    fn clone(&self) -> (r: Json)
        ensures
            r@ == self@,
        decreases self,
    {
        match self {
            Json::Null => Json::Null,
            Json::Bool(b) => Json::Bool(*b),
            Json::Number(n) => Json::Number(n.clone()),
            Json::Text(s) => Json::Text(s.clone()),
            Json::List(v) => Json::List(copy_list(v)),
            Json::Object(o) => Json::Object(o.clone()),
        }
    }
}

impl Clone for JsonObject {
    fn clone(&self) -> (r: JsonObject)
        ensures
            r@ == self@,
    {
        JsonObject { map: self.map.clone() }
    }
}

/// What stands under a key of an object is read under that key, and nothing is
/// read of what is no object or has no such key.
pub proof fn law_values_are_read_by_key(
    entries: Map<Seq<char>, JsonView>,
    value: JsonView,
    key: Seq<char>,
)
    ensures
        get_view(JsonView::Object(entries.insert(key, value)), key) == Some(value),
        entries.contains_key(key) ==> get_view(JsonView::Object(entries), key) == Some(
            entries[key],
        ),
        !entries.contains_key(key) ==> get_view(JsonView::Object(entries), key) is None,
        !(value is Object) ==> get_view(value, key) is None,
{
}

/// A text is read exactly from a text, and a count exactly from a whole number
/// that fits.
pub proof fn law_scalars_are_read_back(s: Seq<char>, n: int, other: JsonView)
    ensures
        text_view(Some(JsonView::Text(s))) == Some(s),
        !(other is Text) ==> text_view(Some(other)) is None,
        text_view(None) is None,
        0 <= n <= u64::MAX ==> as_u64_view(int_view(n)) == Some(n as u64),
        !(0 <= n <= u64::MAX) ==> as_u64_view(int_view(n)) is None,
        !(other is Number) ==> as_u64_view(other) is None,
        opt_text_view(Some(s)) == JsonView::Text(s),
        opt_text_view(None) == JsonView::Null,
{
}

} // verus!
