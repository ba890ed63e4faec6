//! A JSON value held as plain data, for fixture records and fuzz inputs.
use vstd::prelude::*;

verus! {

/// A JSON number as it was written: a non-negative integer, a negative
/// integer, or any other number kept in its decimal text.
#[derive(Clone, Debug)]
pub enum JsonNumber {
    PosInt(u64),
    NegInt(i64),
    Float(String),
}

/// A JSON value. An object keeps its members in order, each key once.
#[derive(Debug)]
pub enum JsonValue {
    Null,
    Bool(bool),
    Number(JsonNumber),
    Text(String),
    Array(Vec<JsonValue>),
    Object(Vec<(String, JsonValue)>),
}

/// The value of the first member of `members` whose key is `key`.
pub open spec fn member_of(members: Seq<(String, JsonValue)>, key: Seq<char>) -> Option<JsonValue>
    decreases members.len(),
{
    if members.len() == 0 {
        None
    } else if members[0].0@ == key {
        Some(members[0].1)
    } else {
        member_of(members.drop_first(), key)
    }
}

impl JsonValue {
    /// The member named `key` of an object; nothing for any other value.
    pub open spec fn spec_get(self, key: Seq<char>) -> Option<JsonValue> {
        match self {
            JsonValue::Object(members) => member_of(members@, key),
            _ => None,
        }
    }
}

} // verus!
