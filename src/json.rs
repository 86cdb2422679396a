//! The JSON values that frames and payloads carry, held as plain data.
use vstd::prelude::*;

verus! {

/// A JSON number as the text parser reports it: a non-negative integer, a
/// negative integer, or any other number kept as its decimal text.
#[derive(Debug, PartialEq)]
pub enum JsonNumber {
    UInt(u64),
    Int(i64),
    Float(String),
}

/// A JSON value. Object members are held in a list: a value built by hand keeps
/// its order, while one read from text by `from_text` has its members sorted by
/// key, each key once. Where a key occurs more than once, the last occurrence
/// counts, as when the members are inserted into a map one after the other.
#[derive(Debug, PartialEq)]
pub enum Json {
    Null,
    Bool(bool),
    Number(JsonNumber),
    Str(String),
    Array(Vec<Json>),
    Object(Vec<(String, Json)>),
}

/// The value of member `key` among `members`: its last occurrence, if any.
pub open spec fn field_of(members: Seq<(String, Json)>, key: Seq<char>) -> Option<Json>
    decreases members.len(),
{
    if members.len() == 0 {
        None
    } else if members.last().0@ == key {
        Some(members.last().1)
    } else {
        field_of(members.drop_last(), key)
    }
}

/// The value of `j` as a `u32`, where `j` is an integer in range.
pub open spec fn json_u32(j: Json) -> Option<u32> {
    match j {
        Json::Number(JsonNumber::UInt(n)) => if n <= u32::MAX {
            Some(n as u32)
        } else {
            None
        },
        Json::Number(JsonNumber::Int(n)) => if 0 <= n <= u32::MAX {
            Some(n as u32)
        } else {
            None
        },
        _ => None,
    }
}

/// The value of an optional member as a `u32`.
pub open spec fn field_u32(field: Option<Json>) -> Option<u32> {
    match field {
        Some(j) => json_u32(j),
        None => None,
    }
}

/// The position of the member that `field_of` reads.
pub fn find_field(members: &Vec<(String, Json)>, key: &String) -> (r: Option<usize>)
    ensures
        match r {
            Some(i) => {
                &&& i < members@.len()
                &&& members@[i as int].0@ == key@
                &&& field_of(members@, key@) == Some(members@[i as int].1)
            },
            None => field_of(members@, key@) is None,
        },
{
    let mut i: usize = members.len();
    assert(members@.take(i as int) =~= members@);
    while i > 0
        invariant
            i <= members@.len(),
            field_of(members@, key@) == field_of(members@.take(i as int), key@),
        decreases i,
    {
        assert(members@.take(i as int).drop_last() =~= members@.take(i - 1));
        if members[i - 1].0 == *key {
            return Some(i - 1);
        }
        i = i - 1;
    }
    None
}

/// Reads `j` as a `u32`.
pub fn as_u32(j: &Json) -> (r: Option<u32>)
    ensures
        r == json_u32(*j),
{
    match j {
        Json::Number(JsonNumber::UInt(n)) => if *n <= 0xffff_ffffu64 {
            Some(*n as u32)
        } else {
            None
        },
        Json::Number(JsonNumber::Int(n)) => if 0 <= *n && *n <= 0xffff_ffffi64 {
            Some(*n as u32)
        } else {
            None
        },
        _ => None,
    }
}

/// Reads member `key` of `members` as a `u32`.
pub fn member_u32(members: &Vec<(String, Json)>, key: &String) -> (r: Option<u32>)
    ensures
        r == field_u32(field_of(members@, key@)),
{
    match find_field(members, key) {
        Some(i) => as_u32(&members[i].1),
        None => None,
    }
}

/// `serde_json`'s value type, held opaquely: only the converters below look inside.
#[verifier::external_type_specification]
#[verifier::external_body]
pub struct ExValue(serde_json::Value);

/// What `serde_json::from_str` reads from `text`: a value, or the message of
/// its error.
pub uninterp spec fn parsed_json(text: Seq<char>) -> Result<Json, Seq<char>>;

/// The text that `serde_json::to_string` writes for `j`.
pub uninterp spec fn json_text(j: Json) -> Seq<char>;

/// `serde_json`'s number type, held opaquely.
#[verifier::external_type_specification]
#[verifier::external_body]
pub struct ExNumber(serde_json::Number);

/// A `serde_json::Number` in the library's form, as `serde_json` classifies it.
#[verifier::external_body]
fn number_of(n: &serde_json::Number) -> JsonNumber {
    match (n.as_u64(), n.as_i64()) {
        (Some(u), _) => JsonNumber::UInt(u),
        (None, Some(i)) => JsonNumber::Int(i),
        (None, None) => JsonNumber::Float(n.to_string()),
    }
}

/// A library number as a `serde_json::Value`; number text `serde_json` does not
/// read stands as `null`.
#[verifier::external_body]
fn value_of_number(n: &JsonNumber) -> serde_json::Value {
    match n {
        JsonNumber::UInt(u) => serde_json::Value::from(*u),
        JsonNumber::Int(i) => serde_json::Value::from(*i),
        JsonNumber::Float(t) => t.parse::<serde_json::Number>().map(
            serde_json::Value::Number,
        ).unwrap_or(serde_json::Value::Null),
    }
}

/// Moves a `serde_json::Value` into the library's form, variant by variant;
/// a number keeps `serde_json`'s own classification.
#[verifier::external_body]
fn json_of_value(v: serde_json::Value) -> Json {
    match v {
        serde_json::Value::Null => Json::Null,
        serde_json::Value::Bool(b) => Json::Bool(b),
        serde_json::Value::Number(n) => Json::Number(number_of(&n)),
        serde_json::Value::String(s) => Json::Str(s),
        serde_json::Value::Array(a) => Json::Array(a.into_iter().map(json_of_value).collect()),
        serde_json::Value::Object(m) => Json::Object(
            m.into_iter().map(|(k, v)| (k, json_of_value(v))).collect(),
        ),
    }
}

/// Copies a library JSON value into a `serde_json::Value`, variant by variant.
#[verifier::external_body]
fn value_of_json(j: &Json) -> serde_json::Value {
    match j {
        Json::Null => serde_json::Value::Null,
        Json::Bool(b) => serde_json::Value::Bool(*b),
        Json::Number(n) => value_of_number(n),
        Json::Str(s) => serde_json::Value::String(s.clone()),
        Json::Array(a) => serde_json::Value::Array(a.iter().map(value_of_json).collect()),
        Json::Object(m) => serde_json::Value::Object(
            m.iter().map(|(k, v)| (k.clone(), value_of_json(v))).collect(),
        ),
    }
}

/// Relies on `serde_json::from_str` (into a `serde_json::Value`): reads JSON text,
/// or gives the message of why it is not JSON.
#[verifier::external_body]
fn parse_json_text(text: &str) -> (r: Result<Json, String>)
    ensures
        match r {
            Ok(j) => parsed_json(text@) == Ok::<Json, Seq<char>>(j),
            Err(m) => parsed_json(text@) == Err::<Json, Seq<char>>(m@),
        },
{
    match serde_json::from_str::<serde_json::Value>(text) {
        Ok(v) => Ok(json_of_value(v)),
        Err(e) => Err(e.to_string()),
    }
}

/// Relies on `serde_json::to_string` (of a `serde_json::Value`, which always
/// serializes): the JSON text of a value.
#[verifier::external_body]
fn write_json_text(j: &Json) -> (r: String)
    ensures
        r@ == json_text(*j),
{
    serde_json::to_string(&value_of_json(j)).unwrap_or_default()
}

/// Reads JSON text; an error carries the reason the text is not JSON.
pub fn from_text(text: &str) -> (r: Result<Json, String>)
    ensures
        match r {
            Ok(j) => parsed_json(text@) == Ok::<Json, Seq<char>>(j),
            Err(m) => parsed_json(text@) == Err::<Json, Seq<char>>(m@),
        },
{
    parse_json_text(text)
}

/// The JSON text of `j`.
pub fn to_text(j: &Json) -> (r: String)
    ensures
        r@ == json_text(*j),
{
    write_json_text(j)
}

} // verus!
