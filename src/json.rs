//! The members of a JSON object, as far as the records of this library read
//! them, and a lookup by key.
use serde_json::Value;
use vstd::prelude::*;

verus! {

/// The value of one member of a JSON object.
#[derive(Debug)]
pub enum JsonValue {
    Null,
    Bool(bool),
    /// A number, with its value where it is a non-negative integer that fits
    /// in a `u64`.
    Number(Option<u64>),
    Str(String),
    /// An array or an object.
    Nested,
}

/// What a `JsonValue` holds, with text as a sequence of characters.
pub enum JsonTerm {
    Null,
    Bool(bool),
    Number(Option<u64>),
    Str(Seq<char>),
    Nested,
}

impl View for JsonValue {
    type V = JsonTerm;

    open spec fn view(&self) -> JsonTerm {
        match self {
            JsonValue::Null => JsonTerm::Null,
            JsonValue::Bool(b) => JsonTerm::Bool(*b),
            JsonValue::Number(n) => JsonTerm::Number(*n),
            JsonValue::Str(s) => JsonTerm::Str(s@),
            JsonValue::Nested => JsonTerm::Nested,
        }
    }
}

/// One member of a JSON object: a key and its value.
#[derive(Debug)]
pub struct JsonMember {
    pub key: String,
    pub value: JsonValue,
}

impl View for JsonMember {
    type V = (Seq<char>, JsonTerm);

    open spec fn view(&self) -> (Seq<char>, JsonTerm) {
        (self.key@, self.value@)
    }
}

/// The members of an object, as keys and terms.
pub open spec fn members_view(members: Seq<JsonMember>) -> Seq<(Seq<char>, JsonTerm)> {
    members.map_values(|m: JsonMember| m@)
}

/// The members of the JSON object that `body` holds, or `None` where `body`
/// is not a JSON object.
pub uninterp spec fn object_members_of(body: Seq<u8>) -> Option<Seq<(Seq<char>, JsonTerm)>>;

/// Relies on `serde_json::from_slice` to parse `body` as a JSON object (one
/// member per key), and on `serde_json::Number::as_u64` for the value of a
/// number; the result depends on the bytes alone.
#[verifier::external_body]
pub(crate) fn parse_object(body: &[u8]) -> (r: Option<Vec<JsonMember>>)
    ensures
        match object_members_of(body@) {
            Some(ms) => r matches Some(v) && members_view(v@) == ms,
            None => r is None,
        },
{
    let object = serde_json::from_slice::<serde_json::Map<String, Value>>(body).ok()?;
    Some(object.into_iter().map(|(key, value)| JsonMember { key, value: match value {
        Value::Null => JsonValue::Null,
        Value::Bool(b) => JsonValue::Bool(b),
        Value::Number(n) => JsonValue::Number(n.as_u64()),
        Value::String(s) => JsonValue::Str(s),
        Value::Array(_) | Value::Object(_) => JsonValue::Nested,
    } }).collect())
}

/// The value of the first member whose key is `key`.
pub open spec fn lookup(ms: Seq<(Seq<char>, JsonTerm)>, key: Seq<char>) -> Option<JsonTerm>
    decreases ms.len(),
{
    if ms.len() == 0 {
        None
    } else if ms[0].0 == key {
        Some(ms[0].1)
    } else {
        lookup(ms.drop_first(), key)
    }
}

/// Finds the value of the first member whose key is `key`.
pub fn find_member<'a>(members: &'a Vec<JsonMember>, key: &String) -> (r: Option<&'a JsonValue>)
    ensures
        match lookup(members_view(members@), key@) {
            Some(t) => r matches Some(v) && v@ == t,
            None => r is None,
        },
{
    let ghost ms = members_view(members@);
    let mut i: usize = 0;
    assert(ms.subrange(0, ms.len() as int) =~= ms);
    while i < members.len()
        invariant
            i <= members.len(),
            ms == members_view(members@),
            lookup(ms, key@) == lookup(ms.subrange(i as int, ms.len() as int), key@),
        decreases members.len() - i,
    {
        let ghost rest = ms.subrange(i as int, ms.len() as int);
        if members[i].key == *key {
            return Some(&members[i].value);
        }
        assert(rest.drop_first() =~= ms.subrange(i + 1, ms.len() as int));
        i = i + 1;
    }
    None
}

} // verus!
