//! A JSON document as the metadata logic reads it.
//!
//! Objects keep their entries in order; a key is looked up at its first entry. Numbers
//! keep the three forms that a JSON reader distinguishes: non-negative integers, negative
//! integers and floating-point numbers, the latter as their IEEE-754 bit pattern.
use vstd::prelude::*;
use crate::text::str_eq;
use serde_json::Value as SerdeValue;

verus! {

/// A JSON number.
#[derive(Debug, Clone, Copy, PartialEq, Eq, Structural)]
pub enum JsonNumber {
    /// A non-negative integer.
    PosInt(u64),
    /// A negative integer.
    NegInt(i64),
    /// Any other number, as the bits of its `f64` value.
    Float(u64),
}

/// A JSON value.
#[derive(Debug)]
pub enum JsonValue {
    Null,
    Bool(bool),
    Number(JsonNumber),
    Str(String),
    Array(Vec<JsonValue>),
    /// An object: member `i` is named `keys[i]` and holds `values[i]`.
    Object { keys: Vec<String>, values: Vec<JsonValue> },
}

/// The value of the first member named `key` (members past the shorter list are absent).
pub open spec fn lookup(keys: Seq<String>, values: Seq<JsonValue>, key: Seq<char>) -> Option<JsonValue>
    decreases keys.len(),
{
    if keys.len() == 0 || values.len() == 0 {
        None
    } else if keys[0]@ == key {
        Some(values[0])
    } else {
        lookup(keys.drop_first(), values.drop_first(), key)
    }
}

/// `Value::get` with a key: the member of an object, `None` for anything else.
pub open spec fn json_get(v: JsonValue, key: Seq<char>) -> Option<JsonValue> {
    match v {
        JsonValue::Object { keys, values } => lookup(keys@, values@, key),
        _ => None,
    }
}

/// Looks `key` up in an optional value.
pub open spec fn get_opt(v: Option<JsonValue>, key: Seq<char>) -> Option<JsonValue> {
    match v {
        Some(x) => json_get(x, key),
        None => None,
    }
}

/// `Value::as_str`.
pub open spec fn as_str_opt(v: Option<JsonValue>) -> Option<Seq<char>> {
    match v {
        Some(JsonValue::Str(s)) => Some(s@),
        _ => None,
    }
}

/// `Value::as_u64`.
pub open spec fn as_u64_opt(v: Option<JsonValue>) -> Option<u64> {
    match v {
        Some(JsonValue::Number(JsonNumber::PosInt(n))) => Some(n),
        _ => None,
    }
}

/// `Value::as_i64`.
pub open spec fn as_i64_opt(v: Option<JsonValue>) -> Option<i64> {
    match v {
        Some(JsonValue::Number(JsonNumber::PosInt(n))) => if n <= i64::MAX {
            Some(n as i64)
        } else {
            None
        },
        Some(JsonValue::Number(JsonNumber::NegInt(n))) => Some(n),
        _ => None,
    }
}

/// The number that `Value::as_f64` converts, when the value is a number.
pub open spec fn as_number_opt(v: Option<JsonValue>) -> Option<JsonNumber> {
    match v {
        Some(JsonValue::Number(n)) => Some(n),
        _ => None,
    }
}

/// `Value::as_array`.
pub open spec fn as_array_opt(v: Option<JsonValue>) -> Option<Seq<JsonValue>> {
    match v {
        Some(JsonValue::Array(a)) => Some(a@),
        _ => None,
    }
}

/// `Option::or`.
pub open spec fn or_else(a: Option<JsonValue>, b: Option<JsonValue>) -> Option<JsonValue> {
    match a {
        Some(x) => Some(x),
        None => b,
    }
}

/// Relates an optional reference to the optional value it stands for.
pub open spec fn deref_opt(r: Option<&JsonValue>) -> Option<JsonValue> {
    match r {
        Some(x) => Some(*x),
        None => None,
    }
}

impl JsonValue {
    /// `Value::get`: the member named `key` of an object.
    pub fn get(&self, key: &str) -> (r: Option<&JsonValue>)
        ensures
            deref_opt(r) == json_get(*self, key@),
    {
        match self {
            JsonValue::Object { keys, values } => {
                let mut i: usize = 0;
                assert(keys@.skip(0) == keys@);
                assert(values@.skip(0) == values@);
                while i < keys.len() && i < values.len()
                    invariant
                        i <= keys.len(),
                        i <= values.len(),
                        json_get(*self, key@) == lookup(keys@, values@, key@),
                        lookup(keys@, values@, key@) == lookup(
                            keys@.skip(i as int),
                            values@.skip(i as int),
                            key@,
                        ),
                    decreases keys.len() - i,
                {
                    assert(keys@.skip(i as int).drop_first() == keys@.skip(i + 1));
                    assert(values@.skip(i as int).drop_first() == values@.skip(i + 1));
                    assert(keys@.skip(i as int)[0] == keys@[i as int]);
                    assert(values@.skip(i as int)[0] == values@[i as int]);
                    if str_eq(keys[i].as_str(), key) {
                        assert(keys@.skip(i as int).len() > 0 && values@.skip(i as int).len() > 0);
                        assert(keys@[i as int]@ == key@);
                        assert(lookup(keys@.skip(i as int), values@.skip(i as int), key@) == Some(values@[i as int]));
                        return Some(&values[i]);
                    }
                    i += 1;
                }
                None
            },
            _ => None,
        }
    }

    /// `Value::as_str`.
    pub fn as_str(&self) -> (r: Option<&str>)
        ensures
            match r {
                Some(s) => as_str_opt(Some(*self)) == Some(s@),
                None => as_str_opt(Some(*self)) is None,
            },
    {
        match self {
            JsonValue::Str(s) => Some(s.as_str()),
            _ => None,
        }
    }

    /// `Value::as_u64`.
    pub fn as_u64(&self) -> (r: Option<u64>)
        ensures
            r == as_u64_opt(Some(*self)),
    {
        match self {
            JsonValue::Number(JsonNumber::PosInt(n)) => Some(*n),
            _ => None,
        }
    }

    /// `Value::as_i64`.
    pub fn as_i64(&self) -> (r: Option<i64>)
        ensures
            r == as_i64_opt(Some(*self)),
    {
        match self {
            JsonValue::Number(JsonNumber::PosInt(n)) => if *n <= i64::MAX as u64 {
                Some(*n as i64)
            } else {
                None
            },
            JsonValue::Number(JsonNumber::NegInt(n)) => Some(*n),
            _ => None,
        }
    }

    /// The number of a number value (what `Value::as_f64` converts).
    pub fn as_number(&self) -> (r: Option<JsonNumber>)
        ensures
            r == as_number_opt(Some(*self)),
    {
        match self {
            JsonValue::Number(n) => Some(*n),
            _ => None,
        }
    }

    /// `Value::as_array`.
    pub fn as_array(&self) -> (r: Option<&Vec<JsonValue>>)
        ensures
            match r {
                Some(a) => as_array_opt(Some(*self)) == Some(a@),
                None => as_array_opt(Some(*self)) is None,
            },
    {
        match self {
            JsonValue::Array(a) => Some(a),
            _ => None,
        }
    }
}

/// Looks `key` up in an optional reference.
pub fn get_in<'a>(v: Option<&'a JsonValue>, key: &str) -> (r: Option<&'a JsonValue>)
    ensures
        deref_opt(r) == get_opt(deref_opt(v), key@),
{
    match v {
        Some(x) => x.get(key),
        None => None,
    }
}

/// `Option::or` on optional references.
pub fn first_of<'a>(a: Option<&'a JsonValue>, b: Option<&'a JsonValue>) -> (r: Option<&'a JsonValue>)
    ensures
        deref_opt(r) == or_else(deref_opt(a), deref_opt(b)),
{
    match a {
        Some(x) => Some(x),
        None => b,
    }
}

/// The text of an optional value, as an owned string.
pub fn str_in(v: Option<&JsonValue>) -> (r: Option<String>)
    ensures
        r.deep_view() == as_str_opt(deref_opt(v)),
{
    match v {
        Some(x) => match x.as_str() {
            Some(s) => Some(s.to_owned()),
            None => None,
        },
        None => None,
    }
}

/// The non-negative integer of an optional value.
pub fn u64_in(v: Option<&JsonValue>) -> (r: Option<u64>)
    ensures
        r == as_u64_opt(deref_opt(v)),
{
    match v {
        Some(x) => x.as_u64(),
        None => None,
    }
}

/// The integer of an optional value that fits in `i64`.
pub fn i64_in(v: Option<&JsonValue>) -> (r: Option<i64>)
    ensures
        r == as_i64_opt(deref_opt(v)),
{
    match v {
        Some(x) => x.as_i64(),
        None => None,
    }
}

/// The number of an optional value.
pub fn number_in(v: Option<&JsonValue>) -> (r: Option<JsonNumber>)
    ensures
        r == as_number_opt(deref_opt(v)),
{
    match v {
        Some(x) => x.as_number(),
        None => None,
    }
}


/// `serde_json`'s JSON value, carried through unread.
#[verifier::external_type_specification]
#[verifier::external_body]
pub struct ExSerdeJsonValue(serde_json::Value);

/// The library's value for a `serde_json::Value`, variant by variant: numbers as a
/// non-negative integer, else a negative integer, else a float's bits; objects with their
/// entries in the order `serde_json` keeps them.
#[verifier::external_body]
fn from_serde_value(v: &serde_json::Value) -> JsonValue {
    match v {
        SerdeValue::Null => JsonValue::Null,
        SerdeValue::Bool(b) => JsonValue::Bool(*b),
        SerdeValue::Number(n) => JsonValue::Number(n.as_u64().map(JsonNumber::PosInt).or(n.as_i64().map(JsonNumber::NegInt))
            .unwrap_or(JsonNumber::Float(n.as_f64().map(|x| x.to_bits()).unwrap_or(0)))),
        SerdeValue::String(t) => JsonValue::Str(t.clone()),
        SerdeValue::Array(a) => JsonValue::Array(a.iter().map(from_serde_value).collect()),
        SerdeValue::Object(m) => JsonValue::Object {
            keys: m.keys().cloned().collect(),
            values: m.values().map(from_serde_value).collect(),
        },
    }
}

/// The value that `serde_json::from_str` reads from a text, in the library's form; `None`
/// when the text is not one JSON document.
pub uninterp spec fn json_parsed(text: Seq<char>) -> Option<JsonValue>;

/// Parses a text as one JSON document with `serde_json::from_str` and gives the value in
/// the library's form (`None` when it does not parse). What JSON text parses, and to what,
/// is not restated; the result is named (`json_parsed`).
#[verifier::external_body]
pub fn parse_json(text: &str) -> (r: Option<JsonValue>)
    ensures
        r == json_parsed(text@),
{
    serde_json::from_str::<serde_json::Value>(text).ok().map(|v| from_serde_value(&v))
}

} // verus!
