//! JSON documents as plain values: what a parsed document holds, looked up
//! by member name, text and array items.
use crate::text::{chars_eq_str, chars_of, string_of};
use vstd::prelude::*;

verus! {

/// A parsed JSON document. A number is kept as the text serde_json gives
/// it; an object keeps its members in serde_json's order, each name once.
pub enum JsonValue {
    Null,
    Bool(bool),
    Number(String),
    Text(String),
    Array(Vec<JsonValue>),
    Object(Vec<(String, JsonValue)>),
}

#[verifier::external_type_specification]
#[verifier::external_body]
pub struct ExJsonValue(serde_json::Value);

/// What `serde_json::from_str` makes of a text, as a `JsonValue`: `None`
/// where the text is not one JSON document.
pub uninterp spec fn parsed_json(body: Seq<char>) -> Option<JsonValue>;

/// `serde_json::from_str` into a `serde_json::Value`, converted member for
/// member into a `JsonValue`; on failure, serde_json's description of the
/// error. The contract claims that the text parses exactly when
/// `parsed_json` gives a document, and that the document is that one; the
/// description is not stated.
#[verifier::external_body]
pub fn parse_json(body: &str) -> (r: Result<JsonValue, String>)
    ensures
        r is Ok <==> parsed_json(body@) is Some,
        r matches Ok(v) ==> parsed_json(body@) == Some(v),
{
    match serde_json::from_str::<serde_json::Value>(body) {
        Ok(value) => Ok(json_value(&value)),
        Err(error) => Err(error.to_string()),
    }
}

/// Converts a `serde_json::Value`, one variant to the same variant, for
/// `parse_json`.
#[verifier::external_body]
fn json_value(value: &serde_json::Value) -> JsonValue {
    match value {
        serde_json::Value::Null => JsonValue::Null,
        serde_json::Value::Bool(b) => JsonValue::Bool(*b),
        serde_json::Value::Number(n) => JsonValue::Number(n.to_string()),
        serde_json::Value::String(s) => JsonValue::Text(s.clone()),
        serde_json::Value::Array(items) => JsonValue::Array(items.iter().map(json_value).collect()),
        serde_json::Value::Object(members) => JsonValue::Object(
            members.iter().map(|(k, v)| (k.clone(), json_value(v))).collect(),
        ),
    }
}

/// The first member of that name.
pub open spec fn lookup(members: Seq<(String, JsonValue)>, key: Seq<char>) -> Option<JsonValue>
    decreases members.len(),
{
    if members.len() == 0 {
        None
    } else if members[0].0@ == key {
        Some(members[0].1)
    } else {
        lookup(members.drop_first(), key)
    }
}

/// The member `key` of an object; nothing for any other value.
pub open spec fn member(value: JsonValue, key: Seq<char>) -> Option<JsonValue> {
    match value {
        JsonValue::Object(members) => lookup(members@, key),
        _ => None,
    }
}

/// The text of a JSON string.
pub open spec fn text_of(value: Option<JsonValue>) -> Option<Seq<char>> {
    match value {
        Some(JsonValue::Text(s)) => Some(s@),
        _ => None,
    }
}

/// The items of a JSON array; none for anything else.
pub open spec fn items_of(value: Option<JsonValue>) -> Seq<JsonValue> {
    match value {
        Some(JsonValue::Array(items)) => items@,
        _ => Seq::empty(),
    }
}

/// The member `key` of `value`, as `Value::get` with a name gives it.
pub fn json_member<'a>(value: &'a JsonValue, key: &str) -> (r: Option<&'a JsonValue>)
    ensures
        r is None <==> member(*value, key@) is None,
        r matches Some(v) ==> member(*value, key@) == Some(*v),
{
    match value {
        JsonValue::Object(members) => {
            let mut i: usize = 0;
            assert(members@.skip(0) =~= members@);
            while i < members.len()
                invariant
                    i <= members@.len(),
                    lookup(members@.skip(i as int), key@) == lookup(members@, key@),
                    member(*value, key@) == lookup(members@, key@),
                decreases members@.len() - i,
            {
                assert(members@.skip(i as int).drop_first() =~= members@.skip(i + 1));
                assert(members@.skip(i as int)[0] == members@[i as int]);
                if chars_eq_str(&chars_of(members[i].0.as_str()), key) {
                    return Some(&members[i].1);
                }
                i = i + 1;
            }
            assert(members@.skip(i as int).len() == 0);
            None
        },
        _ => None,
    }
}

/// The text of a JSON string, copied (`Value::as_str`).
pub fn json_text(value: Option<&JsonValue>) -> (r: Option<String>)
    ensures
        r is None <==> text_of(match value { Some(v) => Some(*v), None => None }) is None,
        r matches Some(t) ==> text_of(match value { Some(v) => Some(*v), None => None }) == Some(
            t@,
        ),
{
    match value {
        Some(JsonValue::Text(s)) => Some(string_of(&chars_of(s.as_str()))),
        _ => None,
    }
}

} // verus!
