//! A verified view of JSON documents.
//!
//! The remote catalog speaks JSON.  Tokenizing bytes into a document tree is
//! delegated to `serde_json` behind a small trusted layer; everything that
//! interprets the tree — which fields a record needs, which shapes are
//! accepted, how failures are reported — is verified library logic.
//!
//! The trusted layer gives each `serde_json::Value` a mathematical model of
//! type [`Json`] through the uninterpreted function [`json_model`], and names
//! the parse result of a byte sequence [`json_of`].  Each wrapper states, over
//! those names, exactly what the corresponding `serde_json` accessor returns.

use vstd::prelude::*;
use crate::api_error::ApiError;

verus! {

/// Mathematical model of a JSON document.
///
/// Numbers mirror `serde_json`'s internal storage: non-negative integers
/// (`PosInt`), negative integers (`NegInt`) and floating-point numbers
/// (`FloatNum`, whose value the library never reads).
pub enum Json {
    Null,
    Bool { b: bool },
    PosInt { n: u64 },
    NegInt { n: i64 },
    FloatNum,
    Str { s: Seq<char> },
    Arr { elems: Seq<Json> },
    Obj { entries: Map<Seq<char>, Json> },
}

/// The document a byte sequence parses to, or `None` when it is malformed.
/// `serde_json::from_slice` decides this; the result depends on the bytes
/// alone.
pub uninterp spec fn json_of(bytes: Seq<u8>) -> Option<Json>;

/// The model of a parsed `serde_json::Value`.
pub uninterp spec fn json_model(v: serde_json::Value) -> Json;

#[verifier::external_type_specification]
#[verifier::external_body]
pub struct ExValue(serde_json::Value);

/// Relies on `serde_json::from_slice::<Value>`: parses bytes into a JSON
/// document, failing exactly on malformed input.
#[verifier::external_body]
pub(crate) fn parse_json_bytes(bytes: &Vec<u8>) -> (r: Result<serde_json::Value, ApiError>)
    ensures
        r matches Ok(v) ==> json_of(bytes@) == Some(json_model(v)),
        r is Err ==> json_of(bytes@) is None,
        r matches Err(e) ==> e is DeserializationError,
{
    match serde_json::from_slice::<serde_json::Value>(bytes.as_slice()) {
        Ok(v) => Ok(v),
        Err(e) => Err(ApiError::DeserializationError { reason: e.to_string() }),
    }
}

/// Relies on `serde_json::Value::is_object`.
#[verifier::external_body]
pub(crate) fn json_is_object(v: &serde_json::Value) -> (r: bool)
    ensures
        r == (json_model(*v) is Obj),
{
    v.is_object()
}

/// Relies on `serde_json::Value::get` with a string index: looks a key up in
/// a JSON object, `None` on a missing key or a non-object.
#[verifier::external_body]
pub(crate) fn json_get<'a>(v: &'a serde_json::Value, key: &str) -> (r: Option<
    &'a serde_json::Value,
>)
    ensures
        match r {
            Some(f) => json_model(*v) matches Json::Obj { entries } && entries.contains_key(key@)
                && json_model(*f) == entries[key@],
            None => !(json_model(*v) matches Json::Obj { entries } && entries.contains_key(key@)),
        },
{
    v.get(key)
}

/// Relies on `serde_json::Value::as_str`.
#[verifier::external_body]
pub(crate) fn json_as_str<'a>(v: &'a serde_json::Value) -> (r: Option<&'a str>)
    ensures
        match r {
            Some(s) => json_model(*v) == (Json::Str { s: s@ }),
            None => !(json_model(*v) is Str),
        },
{
    v.as_str()
}

/// Relies on `serde_json::Value::as_u64`: the value of a non-negative
/// integer, `None` on anything else.
#[verifier::external_body]
pub(crate) fn json_as_u64(v: &serde_json::Value) -> (r: Option<u64>)
    ensures
        match r {
            Some(n) => json_model(*v) == (Json::PosInt { n }),
            None => !(json_model(*v) is PosInt),
        },
{
    v.as_u64()
}

/// Relies on `serde_json::Value::as_i64`: the value of an integer that fits
/// in `i64`, `None` on anything else.
#[verifier::external_body]
pub(crate) fn json_as_i64(v: &serde_json::Value) -> (r: Option<i64>)
    ensures
        match r {
            Some(n) => (n >= 0 && json_model(*v) == (Json::PosInt { n: n as u64 })) || json_model(
                *v,
            ) == (Json::NegInt { n }),
            None => !(json_model(*v) is NegInt) && (json_model(*v) matches Json::PosInt { n } ==> n
                > i64::MAX),
        },
{
    v.as_i64()
}

/// Relies on `serde_json::Value::is_null`.
#[verifier::external_body]
pub(crate) fn json_is_null(v: &serde_json::Value) -> (r: bool)
    ensures
        r == (json_model(*v) is Null),
{
    v.is_null()
}

/// Relies on `serde_json::Value::as_array`: the elements of a JSON array.
#[verifier::external_body]
pub(crate) fn json_as_array<'a>(v: &'a serde_json::Value) -> (r: Option<
    &'a Vec<serde_json::Value>,
>)
    ensures
        match r {
            Some(a) => json_model(*v) matches Json::Arr { elems } && a@.len() == elems.len() && (
            forall|i: int| 0 <= i < elems.len() ==> #[trigger] json_model(a@[i]) == elems[i]),
            None => !(json_model(*v) is Arr),
        },
{
    v.as_array()
}

/// The string content of field `key`, when the document is an object whose
/// field `key` is a string.
pub open spec fn str_field(j: Json, key: Seq<char>) -> Option<Seq<char>> {
    match j {
        Json::Obj { entries } => if entries.contains_key(key) {
            match entries[key] {
                Json::Str { s } => Some(s),
                _ => None,
            }
        } else {
            None
        },
        _ => None,
    }
}

/// The content of an optional string field: a missing key and an explicit
/// `null` both mean "absent"; any other non-string shape is rejected.
pub open spec fn opt_str_field(j: Json, key: Seq<char>) -> Option<Option<Seq<char>>> {
    match j {
        Json::Obj { entries } => if !entries.contains_key(key) {
            Some(None)
        } else {
            match entries[key] {
                Json::Null => Some(None),
                Json::Str { s } => Some(Some(s)),
                _ => None,
            }
        },
        _ => None,
    }
}

/// The value of field `key` as a `u32`, when it is a non-negative integer in
/// range.
pub open spec fn u32_field(j: Json, key: Seq<char>) -> Option<u32> {
    match j {
        Json::Obj { entries } => if entries.contains_key(key) {
            match entries[key] {
                Json::PosInt { n } => if n <= u32::MAX as u64 {
                    Some(n as u32)
                } else {
                    None
                },
                _ => None,
            }
        } else {
            None
        },
        _ => None,
    }
}

/// The value of field `key` as an `i32`, when it is an integer in range.
pub open spec fn i32_field(j: Json, key: Seq<char>) -> Option<i32> {
    match j {
        Json::Obj { entries } => if entries.contains_key(key) {
            match entries[key] {
                Json::PosInt { n } => if n <= i32::MAX as u64 {
                    Some(n as i32)
                } else {
                    None
                },
                Json::NegInt { n } => if i32::MIN as i64 <= n && n <= i32::MAX as i64 {
                    Some(n as i32)
                } else {
                    None
                },
                _ => None,
            }
        } else {
            None
        },
        _ => None,
    }
}

/// The elements of field `key`, when it is an array.
pub open spec fn arr_field(j: Json, key: Seq<char>) -> Option<Seq<Json>> {
    match j {
        Json::Obj { entries } => if entries.contains_key(key) {
            match entries[key] {
                Json::Arr { elems } => Some(elems),
                _ => None,
            }
        } else {
            None
        },
        _ => None,
    }
}

/// Whether every element of a JSON array is a string.
pub open spec fn all_strings(elems: Seq<Json>) -> bool {
    forall|i: int| 0 <= i < elems.len() ==> elems[i] is Str
}

/// The string contents of an all-string JSON array.
pub open spec fn string_values(elems: Seq<Json>) -> Seq<Seq<char>> {
    elems.map(|i: int, e: Json| e->s)
}

/// The contents of field `key` as a list of strings, when it is an array of
/// strings.
pub open spec fn str_arr_field(j: Json, key: Seq<char>) -> Option<Seq<Seq<char>>> {
    match j {
        Json::Obj { entries } => if entries.contains_key(key) {
            match entries[key] {
                Json::Arr { elems } => if all_strings(elems) {
                    Some(string_values(elems))
                } else {
                    None
                },
                _ => None,
            }
        } else {
            None
        },
        _ => None,
    }
}

/// Extracts a required string field.
pub fn get_string_field(v: &serde_json::Value, key: &str) -> (r: Option<String>)
    ensures
        match r {
            Some(s) => str_field(json_model(*v), key@) == Some(s@),
            None => str_field(json_model(*v), key@) is None,
        },
{
    match json_get(v, key) {
        None => None,
        Some(f) => match json_as_str(f) {
            None => None,
            Some(s) => Some(s.to_owned()),
        },
    }
}

/// Extracts an optional string field: missing keys and `null` yield
/// `Some(None)`, other non-string shapes are rejected.
pub fn get_opt_string_field(v: &serde_json::Value, key: &str) -> (r: Option<Option<String>>)
    ensures
        match r {
            Some(os) => opt_str_field(json_model(*v), key@) == match os {
                Some(s) => Some(Some(s@)),
                None => Some(None::<Seq<char>>),
            },
            None => opt_str_field(json_model(*v), key@) is None,
        },
{
    if !json_is_object(v) {
        return None;
    }
    match json_get(v, key) {
        None => Some(None),
        Some(f) => {
            if json_is_null(f) {
                Some(None)
            } else {
                match json_as_str(f) {
                    None => None,
                    Some(s) => Some(Some(s.to_owned())),
                }
            }
        },
    }
}

/// Extracts a required `u32` field.
pub fn get_u32_field(v: &serde_json::Value, key: &str) -> (r: Option<u32>)
    ensures
        match r {
            Some(n) => u32_field(json_model(*v), key@) == Some(n),
            None => u32_field(json_model(*v), key@) is None,
        },
{
    match json_get(v, key) {
        None => None,
        Some(f) => match json_as_u64(f) {
            None => None,
            Some(n) => if n <= u32::MAX as u64 {
                Some(n as u32)
            } else {
                None
            },
        },
    }
}

/// Extracts a required `i32` field.
pub fn get_i32_field(v: &serde_json::Value, key: &str) -> (r: Option<i32>)
    ensures
        match r {
            Some(n) => i32_field(json_model(*v), key@) == Some(n),
            None => i32_field(json_model(*v), key@) is None,
        },
{
    match json_get(v, key) {
        None => None,
        Some(f) => match json_as_i64(f) {
            None => None,
            Some(n) => if i32::MIN as i64 <= n && n <= i32::MAX as i64 {
                Some(n as i32)
            } else {
                None
            },
        },
    }
}

/// Extracts a required array field, handing back the raw elements.
pub fn get_array_field<'a>(v: &'a serde_json::Value, key: &str) -> (r: Option<
    &'a Vec<serde_json::Value>,
>)
    ensures
        match r {
            Some(a) => arr_field(json_model(*v), key@) matches Some(elems) && a@.len()
                == elems.len() && (forall|i: int|
                0 <= i < elems.len() ==> #[trigger] json_model(a@[i]) == elems[i]),
            None => arr_field(json_model(*v), key@) is None,
        },
{
    match json_get(v, key) {
        None => None,
        Some(f) => json_as_array(f),
    }
}

/// Extracts a required field holding an array of strings.
pub fn get_string_array_field(v: &serde_json::Value, key: &str) -> (r: Option<Vec<String>>)
    ensures
        match r {
            Some(list) => str_arr_field(json_model(*v), key@) == Some(list.deep_view()),
            None => str_arr_field(json_model(*v), key@) is None,
        },
{
    let f = match json_get(v, key) {
        None => {
            return None;
        },
        Some(f) => f,
    };
    let arr = match json_as_array(f) {
        None => {
            return None;
        },
        Some(a) => a,
    };
    let ghost elems = json_model(*f)->elems;
    let n = arr.len();
    let mut out: Vec<String> = Vec::new();
    let mut i: usize = 0;
    while i < n
        invariant
            n == arr.len(),
            i <= n,
            elems.len() == n,
            json_model(*v) is Obj,
            json_model(*v)->entries.contains_key(key@),
            json_model(*v)->entries[key@] == (Json::Arr { elems }),
            forall|k: int| 0 <= k < n ==> #[trigger] json_model(arr@[k]) == elems[k],
            out@.len() == i,
            forall|k: int| 0 <= k < i ==> elems[k] is Str,
            forall|k: int| 0 <= k < i ==> #[trigger] out@[k]@ == elems[k]->s,
        decreases n - i,
    {
        match json_as_str(&arr[i]) {
            None => {
                proof {
                    assert(!(elems[i as int] is Str));
                    assert(!all_strings(elems));
                }
                return None;
            },
            Some(s) => {
                out.push(s.to_owned());
            },
        }
        i = i + 1;
    }
    proof {
        assert(all_strings(elems));
        assert(out.deep_view() =~= string_values(elems));
    }
    Some(out)
}

} // verus!
