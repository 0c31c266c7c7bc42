//! The JSON, CBOR and Base64 codecs of the outside crates.
//!
//! Each codec is a deterministic function of its input; its result is named
//! by an uninterpreted spec function, and the wrapper that calls it says that
//! it returned exactly that.

use vstd::prelude::*;
use crate::json::{Json, JsonNumber, JV};
use base64::Engine;

verus! {

#[verifier::external_type_specification]
#[verifier::external_body]
pub struct ExSerdeJsonValue(serde_json::Value);

/// Converts a `serde_json::Value` into the library's model, member for member.
#[verifier::external_body]
pub(crate) fn from_serde(v: serde_json::Value) -> Json {
    match v {
        serde_json::Value::Null => Json::Null,
        serde_json::Value::Bool(b) => Json::Bool(b),
        serde_json::Value::Number(n) => Json::Number(match (n.as_u64(), n.as_i64()) {
            (Some(u), _) => JsonNumber::PosInt(u),
            (None, Some(i)) => JsonNumber::NegInt(i),
            _ => JsonNumber::Decimal(n.to_string()),
        }),
        serde_json::Value::String(s) => Json::Str(s),
        serde_json::Value::Array(a) => Json::Array(a.into_iter().map(from_serde).collect()),
        serde_json::Value::Object(o) => Json::Object(
            o.into_iter().map(|(k, x)| (k, from_serde(x))).collect(),
        ),
    }
}

/// Converts the library's model into a `serde_json::Value`, member for member.
#[verifier::external_body]
pub(crate) fn to_serde(j: &Json) -> serde_json::Value {
    match j {
        Json::Null => serde_json::Value::Null,
        Json::Bool(b) => serde_json::Value::Bool(*b),
        Json::Number(JsonNumber::PosInt(u)) => serde_json::Value::from(*u),
        Json::Number(JsonNumber::NegInt(i)) => serde_json::Value::from(*i),
        Json::Number(JsonNumber::Decimal(s)) => serde_json::from_str(s).unwrap_or_default(),
        Json::Str(s) => serde_json::Value::String(s.clone()),
        Json::Array(a) => serde_json::Value::Array(a.iter().map(to_serde).collect()),
        Json::Object(m) => serde_json::Value::Object(
            m.iter().map(|(k, x)| (k.clone(), to_serde(x))).collect(),
        ),
    }
}

/// The value that `serde_json::from_slice::<serde_json::Value>` reads from
/// the bytes, if they are JSON.
pub uninterp spec fn parsed_json(bytes: Seq<u8>) -> Option<JV>;

/// The bytes that `serde_json::to_vec` writes for a value.
pub uninterp spec fn json_bytes_of(j: JV) -> Seq<u8>;

/// The text that `serde_json::to_string` writes for a value.
pub uninterp spec fn json_text_of(j: JV) -> Seq<char>;

/// What `greentic_types::cbor::canonical::to_canonical_cbor` gives for a
/// value: canonical CBOR bytes, or nothing when it refuses the value.
pub uninterp spec fn cbor_of(j: JV) -> Option<Seq<u8>>;

/// What `greentic_types::cbor::canonical::from_cbor::<serde_json::Value>`
/// reads from bytes, or the text of its error.
pub uninterp spec fn cbor_decoded(bytes: Seq<u8>) -> Result<JV, Seq<char>>;

/// The standard Base64 text of bytes (`base64::engine::general_purpose::STANDARD.encode`).
pub uninterp spec fn base64_of(bytes: Seq<u8>) -> Seq<char>;

/// What `STANDARD.decode` gives for a text, or the text of its error.
pub uninterp spec fn base64_decoded(text: Seq<char>) -> Result<Seq<u8>, Seq<char>>;

/// The text of the error that `serde_json::from_slice::<serde_json::Value>`
/// reports for bytes that are not JSON.
pub uninterp spec fn json_error_of(bytes: Seq<u8>) -> Seq<char>;

/// `serde_json::from_slice::<serde_json::Value>`: claims only that the result
/// is the value named by `parsed_json` for these bytes, or the error text
/// named by `json_error_of`.
#[verifier::external_body]
pub(crate) fn parse_json_bytes(bytes: &[u8]) -> (r: Result<Json, String>)
    ensures
        r is Ok <==> parsed_json(bytes@) is Some,
        r matches Ok(j) ==> parsed_json(bytes@) == Some(j@),
        r matches Err(e) ==> e@ == json_error_of(bytes@),
{
    serde_json::from_slice::<serde_json::Value>(bytes).map(from_serde).map_err(|e| e.to_string())
}

/// `serde_json::to_vec`: claims only that the bytes are those named by
/// `json_bytes_of` for the value.
#[verifier::external_body]
pub(crate) fn json_to_vec(j: &Json) -> (r: Vec<u8>)
    ensures
        r@ == json_bytes_of(j@),
{
    serde_json::to_vec(&to_serde(j)).unwrap_or_default()
}

/// `serde_json::to_string`: claims only that the text is the one named by
/// `json_text_of` for the value.
#[verifier::external_body]
pub(crate) fn json_to_string(j: &Json) -> (r: String)
    ensures
        r@ == json_text_of(j@),
{
    serde_json::to_string(&to_serde(j)).unwrap_or_default()
}

/// `greentic_types::cbor::canonical::to_canonical_cbor`: claims only that the
/// result is the one named by `cbor_of`.
#[verifier::external_body]
pub(crate) fn to_canonical_cbor(j: &Json) -> (r: Option<Vec<u8>>)
    ensures
        r is Some <==> cbor_of(j@) is Some,
        r matches Some(b) ==> cbor_of(j@) == Some(b@),
{
    greentic_types::cbor::canonical::to_canonical_cbor(&to_serde(j)).ok()
}

/// `greentic_types::cbor::canonical::from_cbor::<serde_json::Value>`: claims
/// only that the result is the one named by `cbor_decoded`.
#[verifier::external_body]
pub(crate) fn from_cbor(bytes: &[u8]) -> (r: Result<Json, String>)
    ensures
        r is Ok <==> cbor_decoded(bytes@) is Ok,
        r matches Ok(j) ==> cbor_decoded(bytes@)->Ok_0 == j@,
        r matches Err(e) ==> cbor_decoded(bytes@)->Err_0 == e@,
{
    greentic_types::cbor::canonical::from_cbor::<serde_json::Value>(bytes).map(from_serde).map_err(
        |e| e.to_string(),
    )
}

/// `base64::engine::general_purpose::STANDARD.encode`: claims only that the
/// text is the one named by `base64_of`.
#[verifier::external_body]
pub(crate) fn b64_encode(bytes: &[u8]) -> (r: String)
    ensures
        r@ == base64_of(bytes@),
{
    base64::engine::general_purpose::STANDARD.encode(bytes)
}

/// `base64::engine::general_purpose::STANDARD.decode`: claims only that the
/// result is the one named by `base64_decoded`.
#[verifier::external_body]
pub(crate) fn b64_decode(text: &str) -> (r: Result<Vec<u8>, String>)
    ensures
        r is Ok <==> base64_decoded(text@) is Ok,
        r matches Ok(b) ==> base64_decoded(text@)->Ok_0 == b@,
        r matches Err(e) ==> base64_decoded(text@)->Err_0 == e@,
{
    base64::engine::general_purpose::STANDARD.decode(text).map_err(|e| e.to_string())
}

} // verus!
