//! JSON documents as plain data.
//!
//! Proof tools exchange proofs, keys and settings as JSON. The codec reads such a
//! document through [`JsonValue`], a tree of plain values, and contracts speak of
//! its mathematical view [`JsonModel`]. Reading and writing JSON text is the
//! driver's part.

use vstd::prelude::*;

verus! {

/// A JSON document.
///
/// A number keeps what the codec reads of it: its value where it is an integer in
/// `0 ..= u64::MAX`, and nothing otherwise.
#[derive(Debug)]
pub enum JsonValue {
    Null,
    Bool(bool),
    Number(Option<u64>),
    Text(String),
    Array(Vec<JsonValue>),
    Object(Vec<(String, JsonValue)>),
}

/// The mathematical value of a [`JsonValue`].
pub enum JsonModel {
    Null,
    Bool(bool),
    Number(Option<u64>),
    Text(Seq<char>),
    Array(Seq<JsonModel>),
    Object(Seq<(Seq<char>, JsonModel)>),
}

/// The mathematical value of a document.
pub open spec fn model_of(value: JsonValue) -> JsonModel
    decreases value,
{
    match value {
        JsonValue::Null => JsonModel::Null,
        JsonValue::Bool(b) => JsonModel::Bool(b),
        JsonValue::Number(n) => JsonModel::Number(n),
        JsonValue::Text(s) => JsonModel::Text(s@),
        JsonValue::Array(items) => JsonModel::Array(
            Seq::new(
                items@.len(),
                |i: int|
                    if 0 <= i < items@.len() {
                        model_of(items@[i])
                    } else {
                        JsonModel::Null
                    },
            ),
        ),
        JsonValue::Object(entries) => JsonModel::Object(
            Seq::new(
                entries@.len(),
                |i: int|
                    if 0 <= i < entries@.len() {
                        (entries@[i].0@, model_of(entries@[i].1))
                    } else {
                        (Seq::empty(), JsonModel::Null)
                    },
            ),
        ),
    }
}

impl View for JsonValue {
    type V = JsonModel;

    open spec fn view(&self) -> JsonModel {
        model_of(*self)
    }
}

/// The views of a sequence of documents, one for one.
pub open spec fn views(items: Seq<JsonValue>) -> Seq<JsonModel> {
    Seq::new(items.len(), |i: int| items[i]@)
}

/// The views of the entries of an object, one for one.
pub open spec fn entry_views(entries: Seq<(String, JsonValue)>) -> Seq<(Seq<char>, JsonModel)> {
    Seq::new(entries.len(), |i: int| (entries[i].0@, entries[i].1@))
}

/// The member of an object that a key names: the last entry with that key.
pub open spec fn lookup(entries: Seq<(Seq<char>, JsonModel)>, key: Seq<char>) -> Option<JsonModel>
    decreases entries.len(),
{
    if entries.len() == 0 {
        None
    } else if entries.last().0 == key {
        Some(entries.last().1)
    } else {
        lookup(entries.drop_last(), key)
    }
}

impl JsonModel {
    /// The text of a string value.
    pub open spec fn as_text(self) -> Option<Seq<char>> {
        match self {
            JsonModel::Text(s) => Some(s),
            _ => None,
        }
    }

    /// The items of an array value.
    pub open spec fn as_items(self) -> Option<Seq<JsonModel>> {
        match self {
            JsonModel::Array(items) => Some(items),
            _ => None,
        }
    }

    /// The value of a number that is an unsigned 64-bit integer.
    pub open spec fn as_unsigned(self) -> Option<u64> {
        match self {
            JsonModel::Number(n) => n,
            _ => None,
        }
    }

    /// The member named `key` of an object; `None` for a missing member and for
    /// a value that is no object.
    pub open spec fn member(self, key: Seq<char>) -> Option<JsonModel> {
        match self {
            JsonModel::Object(entries) => lookup(entries, key),
            _ => None,
        }
    }

    /// The items of the array member named `key`.
    pub open spec fn member_items(self, key: Seq<char>) -> Option<Seq<JsonModel>> {
        match self.member(key) {
            Some(v) => v.as_items(),
            None => None,
        }
    }

    /// The text of the string member named `key`.
    pub open spec fn member_text(self, key: Seq<char>) -> Option<Seq<char>> {
        match self.member(key) {
            Some(v) => v.as_text(),
            None => None,
        }
    }

    /// The value of the unsigned number member named `key`.
    pub open spec fn member_unsigned(self, key: Seq<char>) -> Option<u64> {
        match self.member(key) {
            Some(v) => v.as_unsigned(),
            None => None,
        }
    }
}

impl JsonValue {
    /// A string value.
    pub fn text(s: &str) -> (value: JsonValue)
        ensures
            value@ == JsonModel::Text(s@),
    {
        JsonValue::Text(s.to_owned())
    }

    /// A number that is an unsigned integer.
    pub fn unsigned(n: u64) -> (value: JsonValue)
        ensures
            value@ == JsonModel::Number(Some(n)),
    {
        JsonValue::Number(Some(n))
    }

    /// An array of the given items.
    pub fn array(items: Vec<JsonValue>) -> (value: JsonValue)
        ensures
            value@ == JsonModel::Array(views(items@)),
    {
        let value = JsonValue::Array(items);
        assert(value@->Array_0 =~= views(items@));
        value
    }

    /// An object of the given entries.
    pub fn object(entries: Vec<(String, JsonValue)>) -> (value: JsonValue)
        ensures
            value@ == JsonModel::Object(entry_views(entries@)),
    {
        let value = JsonValue::Object(entries);
        assert(value@->Object_0 =~= entry_views(entries@));
        value
    }

    /// The text of a string value.
    pub fn as_str(&self) -> (r: Option<&str>)
        ensures
            match r {
                Some(s) => self@.as_text() == Some(s@),
                None => self@.as_text() is None,
            },
    {
        match self {
            JsonValue::Text(s) => Some(s.as_str()),
            _ => None,
        }
    }

    /// The items of an array value.
    pub fn as_array(&self) -> (r: Option<&Vec<JsonValue>>)
        ensures
            match r {
                Some(items) => self@.as_items() == Some(views(items@)),
                None => self@.as_items() is None,
            },
    {
        match self {
            JsonValue::Array(items) => {
                assert(self@.as_items()->0 =~= views(items@));
                Some(items)
            },
            _ => None,
        }
    }

    /// The value of a number that is an unsigned 64-bit integer.
    pub fn as_u64(&self) -> (r: Option<u64>)
        ensures
            r == self@.as_unsigned(),
    {
        match self {
            JsonValue::Number(n) => *n,
            _ => None,
        }
    }

    /// The member named `key` of an object.
    pub fn get(&self, key: &str) -> (r: Option<&JsonValue>)
        ensures
            match r {
                Some(v) => self@.member(key@) == Some(v@),
                None => self@.member(key@) is None,
            },
    {
        match self {
            JsonValue::Object(entries) => {
                let ghost model = self@->Object_0;
                let mut i: usize = entries.len();
                assert(model.take(i as int) =~= model);
                while i > 0
                    invariant
                        i <= entries.len(),
                        self@ == JsonModel::Object(model),
                        model.len() == entries.len(),
                        forall|j: int|
                            0 <= j < entries.len() ==> model[j] == (entries[j].0@, entries[j].1@),
                        lookup(model, key@) == lookup(model.take(i as int), key@),
                    decreases i,
                {
                    i -= 1;
                    let ghost rest = model.take(i as int + 1);
                    assert(rest.last() == model[i as int]);
                    assert(rest.drop_last() =~= model.take(i as int));
                    if entries[i].0.as_str().eq(key) {
                        return Some(&entries[i].1);
                    }
                }
                assert(model.take(0) =~= Seq::<(Seq<char>, JsonModel)>::empty());
                None
            },
            _ => None,
        }
    }

    /// The items of the array member named `key`.
    pub fn get_array(&self, key: &str) -> (r: Option<&Vec<JsonValue>>)
        ensures
            match r {
                Some(items) => self@.member_items(key@) == Some(views(items@)),
                None => self@.member_items(key@) is None,
            },
    {
        match self.get(key) {
            Some(v) => v.as_array(),
            None => None,
        }
    }

    /// The text of the string member named `key`.
    pub fn get_str(&self, key: &str) -> (r: Option<&str>)
        ensures
            match r {
                Some(s) => self@.member_text(key@) == Some(s@),
                None => self@.member_text(key@) is None,
            },
    {
        match self.get(key) {
            Some(v) => v.as_str(),
            None => None,
        }
    }

    /// The value of the unsigned number member named `key`.
    pub fn get_u64(&self, key: &str) -> (r: Option<u64>)
        ensures
            r == self@.member_unsigned(key@),
    {
        match self.get(key) {
            Some(v) => v.as_u64(),
            None => None,
        }
    }
}

} // verus!
