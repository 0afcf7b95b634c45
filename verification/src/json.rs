use vstd::prelude::*;

use crate::text::str_eq;

verus! {

/// A JSON document, as the application reads it from a tool's output.
pub enum JsonValue {
    Null,
    Bool(bool),
    /// A number: its value where it is an integer in the range of `u64`, else `None`.
    Number(Option<u64>),
    String(String),
    Array(Vec<JsonValue>),
    /// An object's members, keys distinct, in the order the parser gave them.
    Object(Vec<(String, JsonValue)>),
}

/// The value of member `key` among `members`: the first with that key.
pub open spec fn member_spec(members: Seq<(String, JsonValue)>, key: Seq<char>) -> Option<JsonValue>
    decreases members.len(),
{
    if members.len() == 0 {
        None
    } else if members[0].0@ == key {
        Some(members[0].1)
    } else {
        member_spec(members.drop_first(), key)
    }
}

/// `value[key]`: the member `key` of an object; `None` for anything else, as a missing member.
pub open spec fn field_spec(value: JsonValue, key: Seq<char>) -> Option<JsonValue> {
    match value {
        JsonValue::Object(members) => member_spec(members@, key),
        _ => None,
    }
}

/// The value reached from `value` by following the member names `path`.
pub open spec fn path_spec(value: JsonValue, path: Seq<Seq<char>>) -> Option<JsonValue>
    decreases path.len(),
{
    if path.len() == 0 {
        Some(value)
    } else {
        match field_spec(value, path[0]) {
            Some(v) => path_spec(v, path.drop_first()),
            None => None,
        }
    }
}

/// Following one member name is looking that member up.
pub proof fn lemma_path_one(value: JsonValue, key: Seq<char>)
    ensures
        path_spec(value, seq![key]) == field_spec(value, key),
{
    assert(seq![key].drop_first() =~= Seq::<Seq<char>>::empty());
    match field_spec(value, key) {
        Some(w) => assert(path_spec(w, Seq::<Seq<char>>::empty()) == Some(w)),
        None => {},
    }
}

/// `as_str` of an optional value.
pub open spec fn str_of(value: Option<JsonValue>) -> Option<Seq<char>> {
    match value {
        Some(JsonValue::String(s)) => Some(s@),
        _ => None,
    }
}

/// `as_u64` of an optional value.
pub open spec fn u64_of(value: Option<JsonValue>) -> Option<u64> {
    match value {
        Some(JsonValue::Number(n)) => n,
        _ => None,
    }
}

/// `as_array` of an optional value.
pub open spec fn array_of(value: Option<JsonValue>) -> Option<Seq<JsonValue>> {
    match value {
        Some(JsonValue::Array(items)) => Some(items@),
        _ => None,
    }
}

/// The value an optional reference points to.
pub open spec fn deref_opt(o: Option<&JsonValue>) -> Option<JsonValue> {
    match o {
        Some(v) => Some(*v),
        None => None,
    }
}

/// The member `key` of an object.
pub fn field<'a>(value: &'a JsonValue, key: &str) -> (r: Option<&'a JsonValue>)
    ensures
        deref_opt(r) == field_spec(*value, key@),
{
    match value {
        JsonValue::Object(members) => {
            assert(members@.skip(0) =~= members@);
            let mut i: usize = 0;
            while i < members.len()
                invariant
                    i <= members@.len(),
                    field_spec(*value, key@) == member_spec(members@, key@),
                    member_spec(members@, key@) == member_spec(members@.skip(i as int), key@),
                decreases members@.len() - i,
            {
                if str_eq(members[i].0.as_str(), key) {
                    assert(members@.skip(i as int)[0] == members@[i as int]);
                    assert(members@.skip(i as int).len() > 0);
                    assert(member_spec(members@.skip(i as int), key@) == Some(members@[i as int].1));
                    let entry = &members[i];
                    assert(*entry == members@[i as int]);
                    return Some(&entry.1);
                }
                assert(members@.skip(i as int).drop_first() =~= members@.skip(i + 1));
                i = i + 1;
            }
            None
        },
        _ => None,
    }
}

/// The value reached by following two member names.
pub fn field2<'a>(value: &'a JsonValue, k1: &str, k2: &str) -> (r: Option<&'a JsonValue>)
    ensures
        deref_opt(r) == path_spec(*value, seq![k1@, k2@]),
{
    let ghost p = seq![k1@, k2@];
    assert(p.drop_first() =~= seq![k2@]);
    assert(seq![k2@].drop_first() =~= Seq::<Seq<char>>::empty());
    match field(value, k1) {
        Some(v) => {
            let r = field(v, k2);
            assert(path_spec(*v, seq![k2@]) == field_spec(*v, k2@)) by {
                match field_spec(*v, k2@) {
                    Some(w) => assert(path_spec(w, seq![k2@].drop_first()) == Some(w)),
                    None => {},
                }
            }
            r
        },
        None => None,
    }
}

/// `as_str`.
pub fn as_str<'a>(value: Option<&'a JsonValue>) -> (r: Option<&'a String>)
    ensures
        match r {
            Some(s) => str_of(deref_opt(value)) == Some(s@),
            None => str_of(deref_opt(value)) is None,
        },
{
    match value {
        Some(JsonValue::String(s)) => Some(s),
        _ => None,
    }
}

/// `as_u64`.
pub fn as_u64(value: Option<&JsonValue>) -> (r: Option<u64>)
    ensures
        r == u64_of(deref_opt(value)),
{
    match value {
        Some(JsonValue::Number(n)) => *n,
        _ => None,
    }
}

/// `as_array`.
pub fn as_array<'a>(value: Option<&'a JsonValue>) -> (r: Option<&'a Vec<JsonValue>>)
    ensures
        match r {
            Some(items) => array_of(deref_opt(value)) == Some(items@),
            None => array_of(deref_opt(value)) is None,
        },
{
    match value {
        Some(JsonValue::Array(items)) => Some(items),
        _ => None,
    }
}

/// serde_json's parsed document (declared so that the conversion below can name it).
#[verifier::external_type_specification]
#[verifier::external_body]
pub struct ExJsonDocument(serde_json::Value);

/// What `serde_json::from_slice` makes of `bytes`: the document, or the text of its error.
pub uninterp spec fn json_of_bytes(bytes: Seq<u8>) -> Result<JsonValue, Seq<char>>;

/// The content of a parse result: the document, or the error's text.
pub open spec fn parsed_view(p: Result<JsonValue, String>) -> Result<JsonValue, Seq<char>> {
    match p {
        Ok(v) => Ok(v),
        Err(e) => Err(e@),
    }
}

/// Parses JSON text: `serde_json::from_slice` into serde_json's `Value`, turned into a
/// `JsonValue`; an error as its `to_string()`. The contract claims that the result depends on
/// the bytes alone (it is named `json_of_bytes`); nothing more of the parser is stated.
#[verifier::external_body]
pub fn parse_json(bytes: &[u8]) -> (r: Result<JsonValue, String>)
    ensures
        parsed_view(r) == json_of_bytes(bytes@),
{
    match serde_json::from_slice::<serde_json::Value>(bytes) {
        Ok(v) => Ok(json_from_value(v)),
        Err(e) => Err(e.to_string()),
    }
}

/// The conversion step of `parse_json`: serde_json's value as the library's, variant for
/// variant (a number by `Number::as_u64`, object members in serde_json's order). Its result is
/// covered by `parse_json`'s contract; it has none of its own.
#[verifier::external_body]
fn json_from_value(v: serde_json::Value) -> JsonValue {
    match v {
        serde_json::Value::Null => JsonValue::Null,
        serde_json::Value::Bool(b) => JsonValue::Bool(b),
        serde_json::Value::Number(n) => JsonValue::Number(n.as_u64()),
        serde_json::Value::String(t) => JsonValue::String(t),
        serde_json::Value::Array(a) => JsonValue::Array(a.into_iter().map(json_from_value).collect()),
        serde_json::Value::Object(m) => JsonValue::Object(m.into_iter().map(|(k, w)| (k, json_from_value(w))).collect()),
    }
}

} // verus!
