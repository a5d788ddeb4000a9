//! A JSON document as plain values, and field lookup in its objects.
use vstd::prelude::*;

verus! {

/// A JSON value.
///
/// Numbers are told apart as the metadata reader needs them: an integral
/// number (in the range of `i64` or `u64`) keeps its value; any other number
/// is only marked as such. An object keeps its members in document order.
#[derive(Debug)]
pub enum JsonValue {
    Null,
    Bool(bool),
    Int(i128),
    OtherNumber,
    Str(String),
    Array(Vec<JsonValue>),
    Object(Vec<(String, JsonValue)>),
}

/// The value of the first member named `key`, searching from position `i`.
pub open spec fn field_from(entries: Seq<(String, JsonValue)>, key: Seq<char>, i: int) -> Option<
    JsonValue,
>
    decreases entries.len() - i,
{
    if i < 0 || i >= entries.len() {
        None
    } else if entries[i].0@ == key {
        Some(entries[i].1)
    } else {
        field_from(entries, key, i + 1)
    }
}

/// The value of the first member named `key`.
pub open spec fn field(entries: Seq<(String, JsonValue)>, key: Seq<char>) -> Option<JsonValue> {
    field_from(entries, key, 0)
}

/// The text of the member named `key`, where that member is a string.
pub open spec fn text_field(entries: Seq<(String, JsonValue)>, key: Seq<char>) -> Option<Seq<char>> {
    match field(entries, key) {
        Some(JsonValue::Str(s)) => Some(s@),
        _ => None,
    }
}

/// The position of the first member named `key`.
pub fn find_field(entries: &Vec<(String, JsonValue)>, key: &String) -> (r: Option<usize>)
    ensures
        match r {
            Some(i) => i < entries@.len() && field(entries@, key@) == Some(entries@[i as int].1),
            None => field(entries@, key@) is None,
        },
{
    let mut i: usize = 0;
    while i < entries.len()
        invariant
            0 <= i <= entries@.len(),
            field(entries@, key@) == field_from(entries@, key@, i as int),
        decreases entries@.len() - i,
    {
        if entries[i].0 == *key {
            return Some(i);
        }
        i = i + 1;
    }
    None
}

} // verus!
