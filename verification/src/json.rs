//! The library's own JSON form and the trusted parse that produces it.
//!
//! Remote responses arrive as JSON text. Parsing is delegated to serde_json;
//! everything after the parse — field lookup and the typed decoding of each
//! remote resource — is the library's own verified logic over [`Json`].

use vstd::prelude::*;

verus! {

/// A JSON document as the decoders read it. Numbers that fit `i64` are kept
/// exactly; any other number (fractional or out of range) is marked
/// [`Json::OtherNumber`], which no decoder accepts.
#[derive(Debug)]
pub enum Json {
    Null,
    Bool(bool),
    Int(i64),
    OtherNumber,
    Str(String),
    Arr(Vec<Json>),
    Obj(Vec<(String, Json)>),
}

#[verifier::external_type_specification]
#[verifier::external_body]
pub struct ExValue(serde_json::Value);

/// What parsing the given JSON text yields: `None` where the text is not
/// valid JSON, otherwise the parsed document. The result depends on the text
/// alone.
pub uninterp spec fn parsed_json(s: Seq<char>) -> Option<Json>;

/// Relies on serde_json::Value: carries a parsed document into the library's
/// own form, one arm per variant, fields moved as they stand. Numbers go
/// through `Number::as_i64`; a number it cannot represent becomes
/// `Json::OtherNumber`.
#[verifier::external_body]
fn json_of_value(v: serde_json::Value) -> Json {
    match v {
        serde_json::Value::Null => Json::Null,
        serde_json::Value::Bool(b) => Json::Bool(b),
        serde_json::Value::Number(n) => match n.as_i64() {
            Some(i) => Json::Int(i),
            None => Json::OtherNumber,
        },
        serde_json::Value::String(s) => Json::Str(s),
        serde_json::Value::Array(a) => Json::Arr(a.into_iter().map(json_of_value).collect()),
        serde_json::Value::Object(o) => Json::Obj(
            o.into_iter().map(|p| (p.0, json_of_value(p.1))).collect(),
        ),
    }
}

/// Relies on serde_json::from_str::<serde_json::Value>: parses JSON text into
/// a document, failing exactly on invalid JSON; the result depends on the
/// text alone.
#[verifier::external_body]
pub(crate) fn parse_json(s: &str) -> (r: Option<Json>)
    ensures
        r == parsed_json(s@),
{
    match serde_json::from_str::<serde_json::Value>(s) {
        Ok(v) => Some(json_of_value(v)),
        Err(_) => None,
    }
}

/// The value of the first field named `key` in an object's field list, if
/// any. Parsed objects carry each name at most once, so the first match is
/// the only one.
pub open spec fn lookup_field(fields: Seq<(String, Json)>, key: Seq<char>) -> Option<Json>
    decreases fields.len(),
{
    if fields.len() == 0 {
        None
    } else if fields[0].0@ == key {
        Some(fields[0].1)
    } else {
        lookup_field(fields.drop_first(), key)
    }
}

/// The string value of field `key`, where the field is present and holds a
/// string.
pub open spec fn str_field(fields: Seq<(String, Json)>, key: Seq<char>) -> Option<Seq<char>> {
    match lookup_field(fields, key) {
        Some(Json::Str(s)) => Some(s@),
        _ => None,
    }
}

/// The boolean value of field `key`, where the field is present and holds a
/// boolean.
pub open spec fn bool_field(fields: Seq<(String, Json)>, key: Seq<char>) -> Option<bool> {
    match lookup_field(fields, key) {
        Some(Json::Bool(b)) => Some(b),
        _ => None,
    }
}

/// The integer value of field `key`, where the field is present and holds an
/// integer that fits `i64`.
pub open spec fn int_field(fields: Seq<(String, Json)>, key: Seq<char>) -> Option<i64> {
    match lookup_field(fields, key) {
        Some(Json::Int(i)) => Some(i),
        _ => None,
    }
}

/// Finds the first field named `key` in an object's field list.
pub fn get_field<'a>(fields: &'a Vec<(String, Json)>, key: &str) -> (r: Option<&'a Json>)
    ensures
        match r {
            Some(j) => lookup_field(fields@, key@) == Some(*j),
            None => lookup_field(fields@, key@) is None,
        },
{
    let k: String = key.to_owned();
    let mut i: usize = 0;
    proof {
        assert(fields@.skip(0) =~= fields@);
    }
    while i < fields.len()
        invariant
            i <= fields.len(),
            k@ == key@,
            lookup_field(fields@, key@) == lookup_field(fields@.skip(i as int), key@),
        decreases fields.len() - i,
    {
        proof {
            assert(fields@.skip(i as int).drop_first() =~= fields@.skip(i as int + 1));
        }
        if fields[i].0 == k {
            return Some(&fields[i].1);
        }
        i = i + 1;
    }
    None
}

/// Reads field `key` as a string, `None` where it is absent or not a string.
pub fn get_str_field(fields: &Vec<(String, Json)>, key: &str) -> (r: Option<String>)
    ensures
        match r {
            Some(s) => str_field(fields@, key@) == Some(s@),
            None => str_field(fields@, key@) is None,
        },
{
    match get_field(fields, key) {
        Some(Json::Str(s)) => Some(s.clone()),
        _ => None,
    }
}

/// Reads field `key` as a boolean, `None` where it is absent or not a
/// boolean.
pub fn get_bool_field(fields: &Vec<(String, Json)>, key: &str) -> (r: Option<bool>)
    ensures
        match r {
            Some(b) => bool_field(fields@, key@) == Some(b),
            None => bool_field(fields@, key@) is None,
        },
{
    match get_field(fields, key) {
        Some(Json::Bool(b)) => Some(*b),
        _ => None,
    }
}

/// Reads field `key` as an `i64`, `None` where it is absent or not an
/// integer in range.
pub fn get_int_field(fields: &Vec<(String, Json)>, key: &str) -> (r: Option<i64>)
    ensures
        match r {
            Some(i) => int_field(fields@, key@) == Some(i),
            None => int_field(fields@, key@) is None,
        },
{
    match get_field(fields, key) {
        Some(Json::Int(i)) => Some(*i),
        _ => None,
    }
}

} // verus!
