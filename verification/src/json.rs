//! A JSON document model holding plain values, and member lookup on it.
use vstd::prelude::*;

verus! {

/// A JSON value. Numbers are kept as their textual form; object members keep
/// their order.
#[derive(Debug)]
pub enum JsonValue {
    Null,
    Bool(bool),
    Number(String),
    String(String),
    Array(Vec<JsonValue>),
    Object(Vec<(String, JsonValue)>),
}

/// The value of the first member named `key`, if any.
pub open spec fn object_get(members: Seq<(String, JsonValue)>, key: Seq<char>) -> Option<JsonValue>
    decreases members.len(),
{
    if members.len() == 0 {
        None
    } else if members[0].0@ == key {
        Some(members[0].1)
    } else {
        object_get(members.drop_first(), key)
    }
}

/// The member `key` of an object value; `None` for non-objects.
pub open spec fn value_get(value: JsonValue, key: Seq<char>) -> Option<JsonValue> {
    match value {
        JsonValue::Object(members) => object_get(members@, key),
        _ => None,
    }
}

/// The text of a string value; `None` for other values.
pub open spec fn value_as_str(value: Option<JsonValue>) -> Option<Seq<char>> {
    match value {
        Some(JsonValue::String(s)) => Some(s@),
        _ => None,
    }
}

/// Whether two strings hold the same characters.
pub fn str_eq(a: &str, b: &str) -> (eq: bool)
    ensures
        eq == (a@ == b@),
{
    let a_len = a.unicode_len();
    let b_len = b.unicode_len();
    if a_len != b_len {
        return false;
    }
    let mut i: usize = 0;
    while i < a_len
        invariant
            a_len == a@.len(),
            b_len == b@.len(),
            a_len == b_len,
            i <= a_len,
            forall|k: int| 0 <= k < i ==> a@[k] == b@[k],
        decreases a_len - i,
    {
        if a.get_char(i) != b.get_char(i) {
            return false;
        }
        i = i + 1;
    }
    assert(a@ =~= b@);
    true
}

/// The value of the first member named `key`, if any.
pub fn get_member<'a>(members: &'a Vec<(String, JsonValue)>, key: &str) -> (found: Option<&'a JsonValue>)
    ensures
        match found {
            Some(v) => object_get(members@, key@) == Some(*v),
            None => object_get(members@, key@) is None,
        },
{
    let n = members.len();
    let mut i: usize = 0;
    assert(members@.skip(0) =~= members@);
    while i < n
        invariant
            n == members@.len(),
            i <= n,
            object_get(members@, key@) == object_get(members@.skip(i as int), key@),
        decreases n - i,
    {
        assert(members@.skip(i as int).drop_first() =~= members@.skip(i + 1));
        if str_eq(members[i].0.as_str(), key) {
            return Some(&members[i].1);
        }
        i = i + 1;
    }
    None
}

/// The member `key` of `value` when it is an object.
pub fn get<'a>(value: &'a JsonValue, key: &str) -> (found: Option<&'a JsonValue>)
    ensures
        match found {
            Some(v) => value_get(*value, key@) == Some(*v),
            None => value_get(*value, key@) is None,
        },
{
    match value {
        JsonValue::Object(members) => get_member(members, key),
        _ => None,
    }
}

/// The text of `value` when it is a string.
pub fn as_str(value: Option<&JsonValue>) -> (text: Option<&str>)
    ensures
        match text {
            Some(t) => value_as_str(match value { Some(v) => Some(*v), None => None }) == Some(t@),
            None => value_as_str(match value { Some(v) => Some(*v), None => None }) is None,
        },
{
    match value {
        Some(JsonValue::String(s)) => Some(s.as_str()),
        _ => None,
    }
}

} // verus!
