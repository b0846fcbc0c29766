//! A plain model of JSON documents, and the trusted parse that produces it.
//!
//! The feed hands the watcher arbitrary text; everything the decoders read
//! of it is held in [`JsonValue`]: objects as key/value vectors, numbers
//! either as the `i64` they denote or, where `i64` cannot hold them, by
//! their textual rendering.

use vstd::prelude::*;
use crate::text::str_eq;

verus! {

/// A parsed JSON document.
pub enum JsonValue {
    Null,
    Bool(bool),
    /// A number that `i64` holds exactly.
    Int(i64),
    /// Any other number, by its textual rendering.
    Num(String),
    Str(String),
    Arr(Vec<JsonValue>),
    Obj(Vec<(String, JsonValue)>),
}

/// A JSON number as a decoded record stores it.
#[derive(Clone, Debug, PartialEq, Eq)]
pub enum JsonNum {
    Int(i64),
    /// A number `i64` cannot hold, by its textual rendering.
    Other(String),
}

/// The mathematical shape of a [`JsonNum`].
pub enum JsonNumV {
    Int(i64),
    Other(Seq<char>),
}

impl View for JsonNum {
    type V = JsonNumV;

    open spec fn view(&self) -> JsonNumV {
        match self {
            JsonNum::Int(i) => JsonNumV::Int(*i),
            JsonNum::Other(s) => JsonNumV::Other(s@),
        }
    }
}

/// The value under a key among an object's fields: the first binding of the
/// key, nothing where the key is absent.
pub open spec fn spec_fields_get(fields: Seq<(String, JsonValue)>, key: Seq<char>) -> Option<
    JsonValue,
>
    decreases fields.len(),
{
    if fields.len() == 0 {
        None
    } else if fields[0].0@ == key {
        Some(fields[0].1)
    } else {
        spec_fields_get(fields.skip(1), key)
    }
}

/// The value under a key: nothing where the document is not an object or the
/// key is absent.
pub open spec fn spec_get(v: JsonValue, key: Seq<char>) -> Option<JsonValue> {
    match v {
        JsonValue::Obj(fields) => spec_fields_get(fields@, key),
        _ => None,
    }
}

/// Indexing as JSON documents are usually indexed: absent keys and
/// non-objects read as null.
pub open spec fn spec_index(v: JsonValue, key: Seq<char>) -> JsonValue {
    match spec_get(v, key) {
        Some(x) => x,
        None => JsonValue::Null,
    }
}

/// The string a value holds, where it is a string.
pub open spec fn spec_as_str(v: JsonValue) -> Option<Seq<char>> {
    match v {
        JsonValue::Str(s) => Some(s@),
        _ => None,
    }
}

/// The number a value holds, where it is a number.
pub open spec fn spec_as_num(v: JsonValue) -> Option<JsonNumV> {
    match v {
        JsonValue::Int(i) => Some(JsonNumV::Int(i)),
        JsonValue::Num(s) => Some(JsonNumV::Other(s@)),
        _ => None,
    }
}

/// The `i64` a value holds, where it is a number that `i64` holds exactly.
pub open spec fn spec_as_i64(v: JsonValue) -> Option<i64> {
    match v {
        JsonValue::Int(i) => Some(i),
        _ => None,
    }
}

/// Looks a key up among a document's fields.
pub fn obj_get<'a>(v: &'a JsonValue, key: &str) -> (r: Option<&'a JsonValue>)
    ensures
        match r {
            Some(x) => spec_get(*v, key@) == Some(*x),
            None => spec_get(*v, key@) is None,
        },
{
    match v {
        JsonValue::Obj(fields) => {
            let mut i: usize = 0;
            proof {
                assert(fields@.skip(0) =~= fields@);
            }
            while i < fields.len()
                invariant
                    *v is Obj,
                    v->Obj_0 == *fields,
                    i <= fields@.len(),
                    spec_fields_get(fields@, key@) == spec_fields_get(
                        fields@.skip(i as int),
                        key@,
                    ),
                decreases fields@.len() - i,
            {
                proof {
                    assert(fields@.skip(i as int)[0] == fields@[i as int]);
                    assert(fields@.skip(i as int).skip(1) =~= fields@.skip(i as int + 1));
                }
                if str_eq(fields[i].0.as_str(), key) {
                    proof {
                        assert(spec_fields_get(fields@.skip(i as int), key@) == Some(
                            fields@[i as int].1,
                        ));
                    }
                    return Some(&fields[i].1);
                }
                i += 1;
            }
            proof {
                assert(fields@.skip(i as int).len() == 0);
            }
            None
        },
        _ => None,
    }
}

/// Reads a string value.
pub fn json_as_str<'a>(v: &'a JsonValue) -> (r: Option<&'a String>)
    ensures
        match r {
            Some(s) => spec_as_str(*v) == Some(s@),
            None => spec_as_str(*v) is None,
        },
{
    match v {
        JsonValue::Str(s) => Some(s),
        _ => None,
    }
}

/// Reads a number value.
pub fn json_as_num(v: &JsonValue) -> (r: Option<JsonNum>)
    ensures
        match r {
            Some(n) => spec_as_num(*v) == Some(n@),
            None => spec_as_num(*v) is None,
        },
{
    match v {
        JsonValue::Int(i) => Some(JsonNum::Int(*i)),
        JsonValue::Num(s) => Some(JsonNum::Other(s.clone())),
        _ => None,
    }
}

/// Reads a number value that `i64` holds exactly.
pub fn json_as_i64(v: &JsonValue) -> (r: Option<i64>)
    ensures
        r == spec_as_i64(*v),
{
    match v {
        JsonValue::Int(i) => Some(*i),
        _ => None,
    }
}

#[verifier::external_type_specification]
#[verifier::external_body]
pub struct ExSerdeValue(serde_json::Value);

/// What parsing a text as JSON yields: the parsed document, or nothing where
/// the text is not valid JSON. The result depends on the text alone.
pub uninterp spec fn json_of(s: Seq<char>) -> Option<JsonValue>;

/// Relies on `serde_json::from_str`: parses the text as JSON and yields the
/// document, or nothing for malformed text. `json_value_from` carries the
/// parsed tree over into [`JsonValue`].
#[verifier::external_body]
pub fn parse_json(text: &str) -> (r: Option<JsonValue>)
    ensures
        r == json_of(text@),
{
    serde_json::from_str::<serde_json::Value>(text).ok().map(json_value_from)
}

/// Relies on `serde_json::Value`: rewrites the parsed tree as a
/// [`JsonValue`], variant for variant; a number that `i64` holds exactly
/// becomes `Int`, any other number keeps its textual rendering. Only
/// `parse_json` calls it.
#[verifier::external_body]
fn json_value_from(v: serde_json::Value) -> JsonValue {
    match v {
        serde_json::Value::Null => JsonValue::Null,
        serde_json::Value::Bool(b) => JsonValue::Bool(b),
        serde_json::Value::Number(n) => match n.as_i64() {
            Some(i) => JsonValue::Int(i),
            None => JsonValue::Num(n.to_string()),
        },
        serde_json::Value::String(s) => JsonValue::Str(s),
        serde_json::Value::Array(a) => JsonValue::Arr(
            a.into_iter().map(json_value_from).collect(),
        ),
        serde_json::Value::Object(m) => JsonValue::Obj(
            m.into_iter().map(|(k, x)| (k, json_value_from(x))).collect(),
        ),
    }
}

} // verus!
