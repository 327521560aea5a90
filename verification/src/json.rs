//! JSON documents as the admission stages read them.

use crate::text::same_text;
use serde_json::Value;
use vstd::prelude::*;

verus! {

/// A JSON number, by the two integer readings it allows. A number with a
/// fraction or an exponent, or outside both ranges, has neither.
#[derive(Clone, Copy, Debug)]
pub struct JsonNumber {
    /// The number as a signed integer of 64 bits, where it is one.
    pub signed: Option<i64>,
    /// The number as an unsigned integer of 64 bits, where it is one.
    pub unsigned: Option<u64>,
}

/// A named member of a JSON object.
#[derive(Debug)]
pub struct JsonMember {
    pub name: String,
    pub value: JsonValue,
}

/// A JSON document.
#[derive(Debug)]
pub enum JsonValue {
    Null,
    Bool(bool),
    Number(JsonNumber),
    String(String),
    Array(Vec<JsonValue>),
    Object(Vec<JsonMember>),
}

/// The value of the first member called `name`.
pub open spec fn member_named(members: Seq<JsonMember>, name: Seq<char>) -> Option<JsonValue>
    decreases members.len(),
{
    if members.len() == 0 {
        None
    } else if members[0].name@ == name {
        Some(members[0].value)
    } else {
        member_named(members.skip(1), name)
    }
}

impl JsonValue {
    /// The member `name` of an object; `None` for a value that is no object
    /// or has no such member.
    pub open spec fn field(&self, name: Seq<char>) -> Option<JsonValue> {
        match self {
            JsonValue::Object(members) => member_named(members@, name),
            _ => None,
        }
    }

    /// The text of a string.
    pub open spec fn text(&self) -> Option<Seq<char>> {
        match self {
            JsonValue::String(s) => Some(s@),
            _ => None,
        }
    }

    /// The items of an array.
    pub open spec fn items(&self) -> Option<Seq<JsonValue>> {
        match self {
            JsonValue::Array(items) => Some(items@),
            _ => None,
        }
    }

    /// A number as a signed integer.
    pub open spec fn signed(&self) -> Option<i64> {
        match self {
            JsonValue::Number(n) => n.signed,
            _ => None,
        }
    }

    /// A number as an unsigned integer.
    pub open spec fn unsigned(&self) -> Option<u64> {
        match self {
            JsonValue::Number(n) => n.unsigned,
            _ => None,
        }
    }

    /// Looks up a member of an object.
    pub fn get(&self, name: &str) -> (r: Option<&JsonValue>)
        ensures
            match r {
                Some(v) => self.field(name@) == Some(*v),
                None => self.field(name@) is None,
            },
    {
        match self {
            JsonValue::Object(members) => {
                let mut i: usize = 0;
                assert(members@.skip(0) =~= members@);
                while i < members.len()
                    invariant
                        0 <= i <= members.len(),
                        self.field(name@) == member_named(members@, name@),
                        member_named(members@, name@) == member_named(
                            members@.skip(i as int),
                            name@,
                        ),
                    decreases members.len() - i,
                {
                    let ghost rest = members@.skip(i as int);
                    assert(rest[0] == members@[i as int]);
                    assert(rest.skip(1) =~= members@.skip(i + 1));
                    if same_text(members[i].name.as_str(), name) {
                        return Some(&members[i].value);
                    }
                    i = i + 1;
                }
                None
            },
            _ => None,
        }
    }

    /// Reads a string.
    pub fn as_str(&self) -> (r: Option<&str>)
        ensures
            match r {
                Some(s) => self.text() == Some(s@),
                None => self.text() is None,
            },
    {
        match self {
            JsonValue::String(s) => Some(s.as_str()),
            _ => None,
        }
    }

    /// Reads an array.
    pub fn as_array(&self) -> (r: Option<&Vec<JsonValue>>)
        ensures
            match r {
                Some(items) => self.items() == Some(items@),
                None => self.items() is None,
            },
    {
        match self {
            JsonValue::Array(items) => Some(items),
            _ => None,
        }
    }

    /// Reads a number as a signed integer.
    pub fn as_i64(&self) -> (r: Option<i64>)
        ensures
            r == self.signed(),
    {
        match self {
            JsonValue::Number(n) => n.signed,
            _ => None,
        }
    }

    /// Reads a number as an unsigned integer.
    pub fn as_u64(&self) -> (r: Option<u64>)
        ensures
            r == self.unsigned(),
    {
        match self {
            JsonValue::Number(n) => n.unsigned,
            _ => None,
        }
    }
}

/// The bytes that a member of a document holds: the member is an array,
/// each item of it an integer from 0 to 255. `None` for anything else.
pub open spec fn byte_array_field(document: JsonValue, name: Seq<char>) -> Option<Seq<u8>> {
    match document.field(name) {
        Some(member) => match member.items() {
            Some(items) => if forall|i: int|
                0 <= i < items.len() ==> is_byte(#[trigger] items[i]) {
                Some(Seq::new(items.len(), |i: int| items[i].unsigned().unwrap() as u8))
            } else {
                None
            },
            None => None,
        },
        None => None,
    }
}

/// `item` is an integer from 0 to 255.
pub open spec fn is_byte(item: JsonValue) -> bool {
    item.unsigned() matches Some(n) && n <= 255
}

/// Reads a member that holds an array of bytes.
pub fn parse_json_byte_array(document: &JsonValue, name: &str) -> (r: Option<Vec<u8>>)
    ensures
        match r {
            Some(bytes) => byte_array_field(*document, name@) == Some(bytes@),
            None => byte_array_field(*document, name@) is None,
        },
{
    let items = match document.get(name) {
        Some(member) => match member.as_array() {
            Some(items) => items,
            None => { return None; },
        },
        None => { return None; },
    };
    let mut bytes: Vec<u8> = Vec::new();
    let mut i: usize = 0;
    while i < items.len()
        invariant
            0 <= i <= items.len(),
            bytes@.len() == i,
            forall|j: int| 0 <= j < i ==> is_byte(#[trigger] items@[j]),
            forall|j: int| 0 <= j < i ==> bytes@[j] == items@[j].unsigned().unwrap() as u8,
            document.field(name@) matches Some(member) && member.items() == Some(items@),
        decreases items.len() - i,
    {
        match items[i].as_u64() {
            Some(n) => {
                if n > 255 {
                    assert(!is_byte(items@[i as int]));
                    return None;
                }
                bytes.push(n as u8);
            },
            None => {
                assert(!is_byte(items@[i as int]));
                return None;
            },
        }
        i = i + 1;
    }
    assert(bytes@ =~= Seq::new(items@.len(), |i: int| items@[i].unsigned().unwrap() as u8));
    Some(bytes)
}

/// An outside type: a JSON value of serde_json.
#[verifier::external_type_specification]
#[verifier::external_body]
pub struct ExValue(Value);

/// The document that a body holds, as serde_json reads it; `None` where the
/// body is not one JSON value.
pub uninterp spec fn json_document(body: Seq<u8>) -> Option<JsonValue>;

/// The text that serde_json writes for the JSON value that it reads from a
/// body: the same value without insignificant white space; `None` where
/// the body is not one JSON value.
pub uninterp spec fn json_canonical_text(body: Seq<u8>) -> Option<Seq<char>>;

/// Copies a value of serde_json, variant by variant. A number is copied by
/// its two integer readings, `Number::as_i64` and `Number::as_u64`; the
/// members of an object in the order in which `Map::iter` hands them out.
/// Nothing is claimed of the result.
#[verifier::external_body]
pub(crate) fn json_from_serde(value: &Value) -> JsonValue {
    match value {
        Value::Null => JsonValue::Null,
        Value::Bool(b) => JsonValue::Bool(*b),
        Value::Number(n) => JsonValue::Number(JsonNumber { signed: n.as_i64(), unsigned: n.as_u64() }),
        Value::String(s) => JsonValue::String(s.clone()),
        Value::Array(items) => JsonValue::Array(items.iter().map(json_from_serde).collect()),
        Value::Object(map) => JsonValue::Object(
            map.iter().map(|(k, v)| JsonMember { name: k.clone(), value: json_from_serde(v) }).collect(),
        ),
    }
}

/// Calls `serde_json::from_slice` for a `serde_json::Value`. The value read
/// is a function of the body alone, and so is its copy: the contract gives
/// the result that name and claims no more.
#[verifier::external_body]
pub(crate) fn parse_json(body: &[u8]) -> (r: Option<JsonValue>)
    ensures
        r == json_document(body@),
{
    match serde_json::from_slice::<Value>(body) {
        Ok(value) => Some(json_from_serde(&value)),
        Err(_) => None,
    }
}

/// Calls `serde_json::from_slice` for a `serde_json::Value` and writes the
/// value out again with its `to_string`. The text is a function of the body
/// alone: the contract gives it that name and claims no more.
#[verifier::external_body]
pub(crate) fn canonical_json(body: &[u8]) -> (r: Option<String>)
    ensures
        match r {
            Some(text) => json_canonical_text(body@) == Some(text@),
            None => json_canonical_text(body@) is None,
        },
{
    match serde_json::from_slice::<Value>(body) {
        Ok(value) => Some(value.to_string()),
        Err(_) => None,
    }
}

} // verus!
