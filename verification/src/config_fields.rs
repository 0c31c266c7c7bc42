//! Reading provider configurations and QA answers out of JSON values.
//!
//! A configuration struct is read as `serde` reads a struct with named
//! fields from a JSON value: from an object by field name (other members are
//! ignored), or from an array by position (no more elements than fields); a
//! field that is absent takes its default, or fails the read when it has none.

use vstd::prelude::*;
use crate::json::{jget, jget_str, lemma_json_views, Json, JsonNumber, NumV, JV};
use crate::text::{parse_u32, parse_u32_spec, str_eq};

verus! {

/// A JSON value read as `u32`: an integer in range.
pub open spec fn u32_of(j: JV) -> Option<u32> {
    match j {
        JV::Number(NumV::PosInt(n)) => if n <= u32::MAX {
            Some(n as u32)
        } else {
            None
        },
        JV::Number(NumV::NegInt(i)) => if 0 <= i <= u32::MAX {
            Some(i as u32)
        } else {
            None
        },
        _ => None,
    }
}

/// A JSON value read as `bool`.
pub open spec fn bool_of(j: JV) -> Option<bool> {
    match j {
        JV::Bool(b) => Some(b),
        _ => None,
    }
}

/// The value given for field number `idx`, named `key`, of a struct.
pub open spec fn struct_field(obj: JV, idx: int, key: Seq<char>) -> Option<JV> {
    match obj {
        JV::Object(m) => crate::json::members_get(m, key),
        JV::Array(s) => if 0 <= idx < s.len() {
            Some(s[idx])
        } else {
            None
        },
        _ => None,
    }
}

/// The value can hold a struct of `n` fields: an object, or an array of at
/// most `n` elements.
pub open spec fn struct_shape(obj: JV, n: nat) -> bool {
    match obj {
        JV::Object(_) => true,
        JV::Array(s) => s.len() <= n,
        _ => false,
    }
}

/// A `u32` field: its value when given, else its default (`None`: required).
pub open spec fn u32_field(obj: JV, idx: int, key: Seq<char>, default: Option<u32>) -> Option<u32> {
    match struct_field(obj, idx, key) {
        Some(v) => u32_of(v),
        None => default,
    }
}

/// A string field: its value when given, else its default (`None`: required).
pub open spec fn str_field(obj: JV, idx: int, key: Seq<char>, default: Option<Seq<char>>) -> Option<
    Seq<char>,
> {
    match struct_field(obj, idx, key) {
        Some(v) => crate::json::jstr(v),
        None => default,
    }
}

/// A `bool` field: its value when given, else its default (`None`: required).
pub open spec fn bool_field(obj: JV, idx: int, key: Seq<char>, default: Option<bool>) -> Option<bool> {
    match struct_field(obj, idx, key) {
        Some(v) => bool_of(v),
        None => default,
    }
}

/// The answer for `key` read as `u32`: a string that parses as one.
pub open spec fn answer_u32(answers: JV, key: Seq<char>) -> Option<u32> {
    match jget_str(answers, key) {
        Some(s) => parse_u32_spec(s),
        None => None,
    }
}

/// The answer for `key` read as a flag: a boolean, or a string (`true` when
/// it is exactly `"true"`).
pub open spec fn answer_bool(answers: JV, key: Seq<char>) -> Option<bool> {
    match jget(answers, key) {
        Some(JV::Bool(b)) => Some(b),
        Some(JV::Str(s)) => Some(s == "true"@),
        _ => None,
    }
}

/// The answers hold a member named `key`.
pub open spec fn has_answer(answers: JV, key: Seq<char>) -> bool {
    jget(answers, key) is Some
}

/// Reads a JSON value as `u32`.
pub fn json_u32(j: &Json) -> (r: Option<u32>)
    ensures
        r == u32_of(j@),
{
    match j {
        Json::Number(JsonNumber::PosInt(n)) => if *n <= 4294967295u64 {
            Some(*n as u32)
        } else {
            None
        },
        Json::Number(JsonNumber::NegInt(i)) => if 0 <= *i && *i <= 4294967295i64 {
            Some(*i as u32)
        } else {
            None
        },
        _ => None,
    }
}

/// The value given for field number `idx`, named `key`, of a struct.
pub fn struct_field_of<'a>(obj: &'a Json, idx: usize, key: &str) -> (r: Option<&'a Json>)
    ensures
        r is Some <==> struct_field(obj@, idx as int, key@) is Some,
        r matches Some(v) ==> struct_field(obj@, idx as int, key@) == Some(v@),
{
    match obj {
        Json::Object(_) => obj.get(key),
        Json::Array(v) => {
            proof {
                lemma_json_views(v@);
            }
            if idx < v.len() {
                Some(&v[idx])
            } else {
                None
            }
        },
        _ => None,
    }
}

/// The value can hold a struct of `n` fields.
pub fn struct_shape_ok(obj: &Json, n: usize) -> (r: bool)
    ensures
        r == struct_shape(obj@, n as nat),
{
    match obj {
        Json::Object(_) => true,
        Json::Array(v) => {
            proof {
                lemma_json_views(v@);
            }
            v.len() <= n
        },
        _ => false,
    }
}

/// Reads a `u32` field.
pub fn read_u32_field(obj: &Json, idx: usize, key: &str, default: Option<u32>) -> (r: Option<u32>)
    ensures
        r == u32_field(obj@, idx as int, key@, default),
{
    match struct_field_of(obj, idx, key) {
        Some(v) => json_u32(v),
        None => default,
    }
}

/// Reads a string field.
pub fn read_str_field(obj: &Json, idx: usize, key: &str, default: Option<String>) -> (r: Option<
    String,
>)
    ensures
        crate::plan::opt_view(r) == str_field(obj@, idx as int, key@, crate::plan::opt_view(default)),
{
    match struct_field_of(obj, idx, key) {
        Some(v) => match v.as_str() {
            Some(s) => Some(s.clone()),
            None => None,
        },
        None => default,
    }
}

/// Reads a `bool` field.
pub fn read_bool_field(obj: &Json, idx: usize, key: &str, default: Option<bool>) -> (r: Option<bool>)
    ensures
        r == bool_field(obj@, idx as int, key@, default),
{
    match struct_field_of(obj, idx, key) {
        Some(v) => v.as_bool(),
        None => default,
    }
}

/// Reads the answer for `key` as `u32`.
pub fn read_answer_u32(answers: &Json, key: &str) -> (r: Option<u32>)
    ensures
        r == answer_u32(answers@, key@),
{
    match answers.get_str(key) {
        Some(s) => parse_u32(s.as_str()),
        None => None,
    }
}

/// Reads the answer for `key` as a flag.
pub fn read_answer_bool(answers: &Json, key: &str) -> (r: Option<bool>)
    ensures
        r == answer_bool(answers@, key@),
{
    match answers.get(key) {
        Some(Json::Bool(b)) => Some(*b),
        Some(Json::Str(s)) => Some(str_eq(s.as_str(), "true")),
        _ => None,
    }
}

/// The answers hold a member named `key`.
pub fn has_answer_key(answers: &Json, key: &str) -> (r: bool)
    ensures
        r == has_answer(answers@, key@),
{
    answers.get(key).is_some()
}

} // verus!
