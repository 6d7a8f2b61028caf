//! The library's own JSON tree, and the trusted boundary that produces it.
//!
//! The outside crate parses bytes into its own value type; a trusted
//! converter rebuilds that value as the library's `Json`, over which all
//! schema logic is verified. A number carries two readings: `uint` when the
//! number is a non-negative integer that fits `u64`, and `bits`, the IEEE-754
//! bit pattern of its closest double.

use vstd::prelude::*;

verus! {

#[verifier::external_type_specification]
#[verifier::external_body]
pub struct ExValue(serde_json::Value);

/// One parsed JSON value. Object fields are kept as a list of
/// (name, value) pairs; lookup takes the first match.
#[derive(Debug, PartialEq)]
pub enum Json {
    Null,
    Bool(bool),
    Num { uint: Option<u64>, bits: Option<u64> },
    Str(String),
    Arr(Vec<Json>),
    Obj(Vec<(String, Json)>),
}

/// The `Json` tree that a well-formed byte sequence parses to, or `None`
/// when the bytes are not a single JSON document. Parsing is a function of
/// the bytes alone, so the result only carries a name here.
pub uninterp spec fn json_of(bytes: Seq<u8>) -> Option<Json>;

/// Relies on `serde_json::from_slice::<Value>`: parses the bytes as one JSON
/// document, deterministically in the bytes alone. The converter below
/// rebuilds the returned tree as the library's `Json`.
#[verifier::external_body]
pub(crate) fn parse_json_bytes(bytes: &[u8]) -> (r: Option<Json>)
    ensures
        r == json_of(bytes@),
{
    match serde_json::from_slice::<serde_json::Value>(bytes) {
        Ok(v) => Some(json_from_value(&v)),
        Err(_) => None,
    }
}

/// Relies on `serde_json::Value`: tells its variants apart and moves their
/// contents into the library's `Json`, one arm per variant. Numbers are read
/// through `Number::as_u64` (integer reading) and `Number::as_f64` (bit
/// pattern of the closest double).
#[verifier::external_body]
fn json_from_value(v: &serde_json::Value) -> Json {
    match v {
        serde_json::Value::Null => Json::Null,
        serde_json::Value::Bool(b) => Json::Bool(*b),
        serde_json::Value::Number(n) => Json::Num {
            uint: n.as_u64(),
            bits: n.as_f64().map(|x| x.to_bits()),
        },
        serde_json::Value::String(s) => Json::Str(s.clone()),
        serde_json::Value::Array(a) => Json::Arr(a.iter().map(json_from_value).collect()),
        serde_json::Value::Object(m) => Json::Obj(
            m.iter().map(|(k, x)| (k.clone(), json_from_value(x))).collect(),
        ),
    }
}

/// The value of the first field named `key` at or after index `i`.
pub open spec fn spec_obj_get_from(fields: Seq<(String, Json)>, key: Seq<char>, i: int) -> Option<
    Json,
>
    decreases fields.len() - i,
{
    if i < 0 || i >= fields.len() {
        None
    } else if fields[i].0@ == key {
        Some(fields[i].1)
    } else {
        spec_obj_get_from(fields, key, i + 1)
    }
}

/// The value of the first field named `key`, if any.
pub open spec fn spec_obj_get(fields: Seq<(String, Json)>, key: Seq<char>) -> Option<Json> {
    spec_obj_get_from(fields, key, 0)
}

/// First-match field lookup over an object's field list.
pub fn obj_get<'a>(fields: &'a Vec<(String, Json)>, key: &str) -> (r: Option<&'a Json>)
    ensures
        (match r {
            Some(j) => spec_obj_get(fields@, key@) == Some(*j),
            None => spec_obj_get(fields@, key@) is None,
        }),
{
    let needle: String = key.to_owned();
    let mut i: usize = 0;
    while i < fields.len()
        invariant
            0 <= i <= fields@.len(),
            needle@ == key@,
            spec_obj_get(fields@, key@) == spec_obj_get_from(fields@, key@, i as int),
        decreases fields@.len() - i,
    {
        if fields[i].0 == needle {
            return Some(&fields[i].1);
        }
        i = i + 1;
    }
    None
}

} // verus!
