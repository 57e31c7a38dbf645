//! A plain model of JSON documents (package manifests, report output) and
//! the parse that produces it.

use vstd::prelude::*;
use vstd::string::*;

use crate::text::str_eq;

verus! {

#[verifier::external_type_specification]
#[verifier::external_body]
pub struct ExSerdeJsonValue(serde_json::Value);

/// A JSON value. Object entries keep the order in which the parser
/// yielded them; numbers keep their rendered text.
#[derive(Debug)]
pub enum JsonValue {
    Null,
    Bool(bool),
    Number(String),
    String(String),
    Array(Vec<JsonValue>),
    Object(Vec<(String, JsonValue)>),
}

/// The abstract value of a JSON document.
pub enum JsonView {
    Null,
    Bool(bool),
    Number(Seq<char>),
    Str(Seq<char>),
    Array(Seq<JsonView>),
    Object(Seq<(Seq<char>, JsonView)>),
}

impl JsonValue {
    /// The abstract value of this document.
    pub open spec fn json_view(self) -> JsonView
        decreases self,
    {
        match self {
            JsonValue::Null => JsonView::Null,
            JsonValue::Bool(b) => JsonView::Bool(b),
            JsonValue::Number(n) => JsonView::Number(n@),
            JsonValue::String(s) => JsonView::Str(s@),
            JsonValue::Array(items) => JsonView::Array(
                Seq::new(
                    items@.len(),
                    |i: int|
                        if 0 <= i < items@.len() {
                            items@[i].json_view()
                        } else {
                            JsonView::Null
                        },
                ),
            ),
            JsonValue::Object(entries) => JsonView::Object(
                Seq::new(
                    entries@.len(),
                    |i: int|
                        if 0 <= i < entries@.len() {
                            (entries@[i].0@, entries@[i].1.json_view())
                        } else {
                            (Seq::empty(), JsonView::Null)
                        },
                ),
            ),
        }
    }
}

/// The abstract values of object entries.
pub open spec fn entries_view(entries: Seq<(String, JsonValue)>) -> Seq<(Seq<char>, JsonView)> {
    Seq::new(entries.len(), |i: int| (entries[i].0@, entries[i].1.json_view()))
}

/// The abstract values of array items.
pub open spec fn items_view(items: Seq<JsonValue>) -> Seq<JsonView> {
    Seq::new(items.len(), |i: int| items[i].json_view())
}

/// An object with these entries.
pub fn json_object(entries: Vec<(String, JsonValue)>) -> (r: JsonValue)
    ensures
        r.json_view() == JsonView::Object(entries_view(entries@)),
{
    let r = JsonValue::Object(entries);
    proof {
        assert(r.json_view()->Object_0 =~= entries_view(entries@));
    }
    r
}

/// An array with these items.
pub fn json_array(items: Vec<JsonValue>) -> (r: JsonValue)
    ensures
        r.json_view() == JsonView::Array(items_view(items@)),
{
    let r = JsonValue::Array(items);
    proof {
        assert(r.json_view()->Array_0 =~= items_view(items@));
    }
    r
}

/// A string value.
pub fn json_str(s: &str) -> (r: JsonValue)
    ensures
        r.json_view() == JsonView::Str(s@),
{
    JsonValue::String(String::from_str(s))
}

/// The value of the first entry named `key`.
pub open spec fn entries_get(entries: Seq<(String, JsonValue)>, key: Seq<char>) -> Option<
    JsonValue,
>
    decreases entries.len(),
{
    if entries.len() == 0 {
        None
    } else if entries[0].0@ == key {
        Some(entries[0].1)
    } else {
        entries_get(entries.drop_first(), key)
    }
}

/// Some entry is named `key`.
pub open spec fn entries_has_key(entries: Seq<(String, JsonValue)>, key: Seq<char>) -> bool {
    exists|i: int| 0 <= i < entries.len() && entries[i].0@ == key
}

impl JsonValue {
    /// The member `key` of an object; `None` for any other value.
    pub open spec fn spec_get(self, key: Seq<char>) -> Option<JsonValue> {
        match self {
            JsonValue::Object(entries) => entries_get(entries@, key),
            _ => None,
        }
    }

    /// The text of a string value.
    pub open spec fn spec_as_str(self) -> Option<Seq<char>> {
        match self {
            JsonValue::String(s) => Some(s@),
            _ => None,
        }
    }

    /// An object that has a member named `key`.
    pub open spec fn spec_has_key(self, key: Seq<char>) -> bool {
        match self {
            JsonValue::Object(entries) => entries_has_key(entries@, key),
            _ => false,
        }
    }

    /// The member `field` is an object with a member named `key`.
    pub open spec fn spec_field_has_key(self, field: Seq<char>, key: Seq<char>) -> bool {
        match self.spec_get(field) {
            Some(inner) => inner.spec_has_key(key),
            None => false,
        }
    }

    /// The member `key` of an object.
    pub fn get(&self, key: &str) -> (r: Option<&JsonValue>)
        ensures
            match r {
                Some(v) => self.spec_get(key@) == Some(*v),
                None => self.spec_get(key@) is None,
            },
    {
        match self {
            JsonValue::Object(entries) => {
                let mut i: usize = 0;
                proof {
                    assert(entries@.skip(0) =~= entries@);
                }
                while i < entries.len()
                    invariant
                        i <= entries@.len(),
                        *self == JsonValue::Object(*entries),
                        entries_get(entries@, key@) == entries_get(entries@.skip(i as int), key@),
                    decreases entries@.len() - i,
                {
                    proof {
                        assert(entries@.skip(i as int).drop_first() =~= entries@.skip(i + 1));
                    }
                    assert(entries@.skip(i as int)[0] == entries@[i as int]);
                    if str_eq(entries[i].0.as_str(), key) {
                        return Some(&entries[i].1);
                    }
                    i += 1;
                }
                None
            },
            _ => None,
        }
    }

    /// The text of a string value.
    pub fn as_str(&self) -> (r: Option<&str>)
        ensures
            match r {
                Some(s) => self.spec_as_str() == Some(s@),
                None => self.spec_as_str() is None,
            },
    {
        match self {
            JsonValue::String(s) => Some(s.as_str()),
            _ => None,
        }
    }

    /// An object that has a member named `key`.
    pub fn has_key(&self, key: &str) -> (r: bool)
        ensures
            r == self.spec_has_key(key@),
    {
        match self {
            JsonValue::Object(entries) => {
                let mut i: usize = 0;
                while i < entries.len()
                    invariant
                        i <= entries@.len(),
                        *self == JsonValue::Object(*entries),
                        forall|j: int| 0 <= j < i ==> entries@[j].0@ != key@,
                    decreases entries@.len() - i,
                {
                    if str_eq(entries[i].0.as_str(), key) {
                        assert(entries@[i as int].0@ == key@);
                        return true;
                    }
                    i += 1;
                }
                false
            },
            _ => false,
        }
    }

    /// The member `field` is an object with a member named `key`.
    pub fn field_has_key(&self, field: &str, key: &str) -> (r: bool)
        ensures
            r == self.spec_field_has_key(field@, key@),
    {
        match self.get(field) {
            Some(inner) => inner.has_key(key),
            None => false,
        }
    }
}

/// What `serde_json::from_str::<serde_json::Value>` yields for a text: the
/// parsed document, or the rendered parse error.
pub uninterp spec fn json_from_str(text: Seq<char>) -> Result<JsonValue, Seq<char>>;

/// Calls `serde_json::from_str` into `serde_json::Value`. The contract
/// claims only that the result is a function of the text: the document
/// converted member by member, or the error's `Display` text.
#[verifier::external_body]
pub fn parse_json(text: &str) -> (r: Result<JsonValue, String>)
    ensures
        match (r, json_from_str(text@)) {
            (Ok(v), Ok(w)) => v == w,
            (Err(e), Err(m)) => e@ == m,
            _ => false,
        },
{
    match serde_json::from_str::<serde_json::Value>(text) {
        Ok(value) => Ok(json_from_serde(value)),
        Err(error) => Err(error.to_string()),
    }
}

/// Converts a `serde_json::Value` variant by variant; numbers through
/// `serde_json::Number`'s `Display`. Nothing is claimed of the result.
#[verifier::external_body]
fn json_from_serde(value: serde_json::Value) -> JsonValue {
    match value {
        serde_json::Value::Null => JsonValue::Null,
        serde_json::Value::Bool(b) => JsonValue::Bool(b),
        serde_json::Value::Number(n) => JsonValue::Number(n.to_string()),
        serde_json::Value::String(s) => JsonValue::String(s),
        serde_json::Value::Array(items) => JsonValue::Array(
            items.into_iter().map(json_from_serde).collect(),
        ),
        serde_json::Value::Object(map) => JsonValue::Object(
            map.into_iter().map(|(key, item)| (key, json_from_serde(item))).collect(),
        ),
    }
}

} // verus!
