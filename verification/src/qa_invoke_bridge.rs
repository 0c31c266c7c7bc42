//! JSON bridge for QA operations dispatched through `schema-core-api invoke()`.
//!
//! The operator calls every provider operation through a JSON
//! `invoke(op, input_json)` path, while the native QA interface speaks CBOR;
//! this module bridges the two encodings.

use vstd::prelude::*;
use crate::codec::{cbor_decoded, json_bytes_of, json_error_of, parse_json_bytes, parsed_json};
use crate::component::{canonical_cbor_bytes, cbor_bytes_of, decode_cbor, qa_spec_jv};
use crate::helpers::{
    bundle_jv, error_jv, error_json, i18n_bundle_from_pairs, i18n_keys_from, json_bytes,
    qa_spec_for_mode, qa_spec_of, str_views, QaQuestionDef,
};
use crate::json::{
    jget, jget_str, lemma_member_views, member_views, push_member, str_array_json, str_array_jv,
    Json, JV,
};
use crate::text::{copy_str, str_eq};

verus! {

// ---------------------------------------------------------------------------
// Specifications
// ---------------------------------------------------------------------------

/// The `mode` of a request, `setup` when the input has none.
pub open spec fn mode_of(input: Seq<u8>) -> Seq<char> {
    match parsed_json(input) {
        Some(v) => match jget_str(v, "mode"@) {
            Some(m) => m,
            None => "setup"@,
        },
        None => "setup"@,
    }
}

/// The response to `qa-spec`: the QA spec for the requested mode, as JSON.
pub open spec fn qa_spec_response(
    input: Seq<u8>,
    provider: Seq<char>,
    setup: Seq<(&str, &str, bool)>,
    default_keys: Seq<&str>,
) -> Seq<u8> {
    json_bytes_of(qa_spec_jv(qa_spec_of(mode_of(input), provider, setup, default_keys)))
}

/// The members of an object with `key` set to `value`: the first member of
/// that name gets the value, or the member is added at the end.
pub open spec fn members_insert(m: Seq<(Seq<char>, JV)>, key: Seq<char>, value: JV) -> Seq<
    (Seq<char>, JV),
>
    decreases m.len(),
{
    if m.len() == 0 {
        seq![(key, value)]
    } else if m[0].0 == key {
        m.update(0, (key, value))
    } else {
        seq![m[0]] + members_insert(m.drop_first(), key, value)
    }
}

/// The mode an apply-answers request names, `setup` when it names none.
pub open spec fn apply_mode(input: JV) -> Seq<char> {
    match jget_str(input, "mode"@) {
        Some(m) => m,
        None => "setup"@,
    }
}

/// The answers handed to the provider: the request's `answers` (an empty
/// object when absent), with `existing_config` set to the request's
/// `current_config` when both are present and the answers are an object.
pub open spec fn apply_payload(input: JV) -> JV {
    let answers = match jget(input, "answers"@) {
        Some(a) => a,
        None => JV::Object(Seq::empty()),
    };
    match (jget(input, "current_config"@), answers) {
        (Some(c), JV::Object(m)) => JV::Object(members_insert(m, "existing_config"@, c)),
        _ => answers,
    }
}

/// The JSON response for the provider's CBOR reply: the decoded value, or an
/// error naming the decode failure.
pub open spec fn apply_response(result_cbor: Seq<u8>) -> Seq<u8> {
    match cbor_decoded(result_cbor) {
        Ok(v) => json_bytes_of(v),
        Err(e) => json_bytes_of(error_jv("cbor decode error: "@ + e)),
    }
}

/// The response to `i18n-keys`: the keys as a JSON array of strings.
pub open spec fn i18n_keys_response(keys: Seq<&str>) -> Seq<u8> {
    json_bytes_of(str_array_jv(str_views(keys)))
}

/// The locale a bundle request names: the input when it is a JSON string,
/// else `en`.
pub open spec fn locale_of(input: Seq<u8>) -> Seq<char> {
    match parsed_json(input) {
        Some(JV::Str(s)) => s,
        _ => "en"@,
    }
}

pub open spec fn bundle_error_members(message: Seq<char>) -> Seq<(Seq<char>, JV)> {
    seq![("error"@, JV::Str(message))]
}

/// The response to `i18n-bundle`: the bundle for the locale, as JSON.
pub open spec fn i18n_bundle_response(input: Seq<u8>, pairs: Seq<(&str, &str)>) -> Seq<u8> {
    match cbor_decoded(cbor_bytes_of(bundle_jv(locale_of(input), pairs))) {
        Ok(v) => json_bytes_of(v),
        Err(e) => json_bytes_of(JV::Object(bundle_error_members("cbor decode error: "@ + e))),
    }
}

/// The operations this bridge answers.
pub open spec fn is_qa_op(op: Seq<char>) -> bool {
    op == "qa-spec"@ || op == "apply-answers"@ || op == "i18n-keys"@ || op == "i18n-bundle"@
}

/// `r` is the response `bytes`.
pub open spec fn responds(r: Option<Vec<u8>>, bytes: Seq<u8>) -> bool {
    match r {
        Some(b) => b@ == bytes,
        None => false,
    }
}

/// `out` is what `bridge_apply_answers` answers for `input` when the
/// provider's apply function is `f`: an error for input that is not JSON,
/// else the JSON of what `f` replied to the request's mode and CBOR answers.
pub open spec fn applied<F: FnOnce(&str, Vec<u8>) -> Vec<u8>>(f: F, input: Seq<u8>, out: Seq<u8>) -> bool {
    match parsed_json(input) {
        None => out == json_bytes_of(error_jv("invalid input json: "@ + json_error_of(input))),
        Some(v) => exists|m: &str, c: Vec<u8>, res: Vec<u8>|
            m@ == apply_mode(v) && c@ == cbor_bytes_of(apply_payload(v)) && f.ensures((m, c), res)
                && out == apply_response(res@),
    }
}

// ---------------------------------------------------------------------------
// Bridges
// ---------------------------------------------------------------------------

/// Extract the mode string from JSON input, defaulting to `"setup"`.
pub fn extract_mode(input_json: &[u8]) -> (r: String)
    ensures
        r@ == mode_of(input_json@),
{
    match parse_json_bytes(input_json) {
        Ok(v) => match v.get_str("mode") {
            Some(m) => m.clone(),
            None => copy_str("setup"),
        },
        Err(_) => copy_str("setup"),
    }
}

/// `qa-spec`: JSON `{"mode":"setup"}` → the QA spec as JSON.
pub fn bridge_qa_spec(
    input_json: &[u8],
    provider_name: &str,
    setup_questions: &[QaQuestionDef],
    default_keys: &[&str],
) -> (r: Vec<u8>)
    ensures
        r@ == qa_spec_response(input_json@, provider_name@, setup_questions@, default_keys@),
{
    let mode = extract_mode(input_json);
    let spec = qa_spec_for_mode(mode.as_str(), provider_name, setup_questions, default_keys);
    json_bytes(&spec.to_json())
}

/// Sets `key` in an object's members, as `serde_json::Map::insert`.
pub(crate) fn insert_member(m: &mut Vec<(String, Json)>, key: &str, value: Json)
    ensures
        member_views(final(m)@) == members_insert(member_views(old(m)@), key@, value@),
{
    let ghost mv0 = member_views(m@);
    proof {
        lemma_member_views(m@);
    }
    let mut i: usize = 0;
    while i < m.len() && !str_eq(m[i].0.as_str(), key)
        invariant
            i <= m.len(),
            m@ == old(m)@,
            mv0 == member_views(m@),
            mv0.len() == m@.len(),
            forall|j: int| 0 <= j < m@.len() ==> #[trigger] mv0[j] == (m@[j].0@, crate::json::json_view(m@[j].1)),
            forall|j: int| 0 <= j < i ==> #[trigger] mv0[j].0 != key@,
        decreases m.len() - i,
    {
        i += 1;
    }
    proof {
        lemma_members_insert_at(mv0, key@, value@, i as int);
    }
    if i < m.len() {
        let ghost vj = value@;
        m.set(i, (copy_str(key), value));
        proof {
            lemma_member_views(m@);
            assert(member_views(m@) =~= mv0.update(i as int, (key@, vj)));
        }
    } else {
        push_member(m, key, value);
    }
}

proof fn lemma_members_insert_at(m: Seq<(Seq<char>, JV)>, key: Seq<char>, value: JV, i: int)
    requires
        0 <= i <= m.len(),
        forall|j: int| 0 <= j < i ==> #[trigger] m[j].0 != key,
        i < m.len() ==> m[i].0 == key,
    ensures
        i < m.len() ==> members_insert(m, key, value) == m.update(i, (key, value)),
        i == m.len() ==> members_insert(m, key, value) == m.push((key, value)),
    decreases m.len(),
{
    if m.len() > 0 {
        if i > 0 {
            assert forall|j: int| 0 <= j < i - 1 implies #[trigger] m.drop_first()[j].0 != key by {
                assert(m.drop_first()[j] == m[j + 1]);
            }
            lemma_members_insert_at(m.drop_first(), key, value, i - 1);
            if i < m.len() {
                assert(seq![m[0]] + m.drop_first().update(i - 1, (key, value)) =~= m.update(i, (key, value)));
            } else {
                assert(seq![m[0]] + m.drop_first().push((key, value)) =~= m.push((key, value)));
            }
        }
    } else {
        assert(seq![(key, value)] =~= m.push((key, value)));
    }
}

/// The provider's CBOR reply as a JSON response.
pub fn apply_answers_response(result_cbor: &[u8]) -> (r: Vec<u8>)
    ensures
        r@ == apply_response(result_cbor@),
{
    match decode_cbor(result_cbor) {
        Ok(result) => json_bytes(&result),
        Err(e) => {
            let mut msg = copy_str("cbor decode error: ");
            msg.append(e.as_str());
            json_bytes(&error_json(msg.as_str()))
        },
    }
}

/// The mode and the CBOR answers handed to the provider for a request.
pub fn apply_request(input: &Json) -> (r: (String, Vec<u8>))
    ensures
        r.0@ == apply_mode(input@),
        r.1@ == cbor_bytes_of(apply_payload(input@)),
{
    let mode = match input.get_str("mode") {
        Some(m) => m.clone(),
        None => copy_str("setup"),
    };
    let mut payload = match input.get("answers") {
        Some(a) => a.duplicate(),
        None => {
            let e: Vec<(String, Json)> = Vec::new();
            assert(member_views(e@) =~= Seq::empty());
            Json::Object(e)
        },
    };
    let ghost answers = payload@;
    match input.get("current_config") {
        Some(c) => {
            match &mut payload {
                Json::Object(m) => {
                    insert_member(m, "existing_config", c.duplicate());
                },
                _ => {},
            }
        },
        None => {},
    }
    assert(payload@ == apply_payload(input@));
    (mode, canonical_cbor_bytes(&payload))
}

/// `apply-answers`: JSON in, CBOR to the provider, CBOR back, JSON out.
///
/// The operator sends `{"mode":"setup", "current_config":{…}, "answers":{…}}`;
/// the provider's apply function takes the CBOR answers, with the current
/// configuration under `existing_config`.
pub fn bridge_apply_answers(input_json: &[u8], apply_fn: impl FnOnce(&str, Vec<u8>) -> Vec<u8>) -> (r:
    Vec<u8>)
    requires
        forall|m: &str, b: Vec<u8>| apply_fn.requires((m, b)),
    ensures
        applied(apply_fn, input_json@, r@),
{
    let input = match parse_json_bytes(input_json) {
        Ok(v) => v,
        Err(e) => {
            let mut msg = copy_str("invalid input json: ");
            msg.append(e.as_str());
            return json_bytes(&error_json(msg.as_str()));
        },
    };
    let (mode, answers_cbor) = apply_request(&input);
    let ghost b = answers_cbor;
    let m = mode.as_str();
    let result_cbor = apply_fn(m, answers_cbor);
    let r = apply_answers_response(result_cbor.as_slice());
    assert(apply_fn.ensures((m, b), result_cbor));
    r
}

/// `i18n-keys`: the keys as a JSON array of strings.
pub fn bridge_i18n_keys(i18n_keys_list: &[&str]) -> (r: Vec<u8>)
    ensures
        r@ == i18n_keys_response(i18n_keys_list@),
{
    let keys = i18n_keys_from(i18n_keys_list);
    json_bytes(&str_array_json(&keys))
}

/// `i18n-bundle`: `{"locale":"…","messages":{key:value}}` for the locale
/// given as a JSON string.
pub fn bridge_i18n_bundle(input_json: &[u8], i18n_pairs: &[(&str, &str)]) -> (r: Vec<u8>)
    ensures
        r@ == i18n_bundle_response(input_json@, i18n_pairs@),
{
    let locale = match parse_json_bytes(input_json) {
        Ok(Json::Str(s)) => s,
        _ => copy_str("en"),
    };
    let cbor = i18n_bundle_from_pairs(locale, i18n_pairs);
    match decode_cbor(cbor.as_slice()) {
        Ok(val) => json_bytes(&val),
        Err(e) => {
            let mut msg = copy_str("cbor decode error: ");
            msg.append(e.as_str());
            let mut m: Vec<(String, Json)> = Vec::new();
            push_member(&mut m, "error", Json::Str(msg));
            assert(member_views(m@) =~= bundle_error_members(
                "cbor decode error: "@ + cbor_decoded(cbor@)->Err_0,
            ));
            json_bytes(&Json::Object(m))
        },
    }
}

/// Try to dispatch a QA op through the JSON invoke path, with the provider's
/// own i18n pairs for `i18n-bundle`.
///
/// Returns the JSON response for `qa-spec`, `apply-answers`, `i18n-keys` and
/// `i18n-bundle`, and `None` for any other op so that the caller can fall
/// through to its own dispatch.
#[allow(clippy::too_many_arguments)]
pub fn dispatch_qa_ops_with_i18n(
    op: &str,
    input_json: &[u8],
    provider_name: &str,
    setup_questions: &[QaQuestionDef],
    default_keys: &[&str],
    i18n_keys_list: &[&str],
    i18n_pairs: &[(&str, &str)],
    apply_fn: impl FnOnce(&str, Vec<u8>) -> Vec<u8>,
) -> (r: Option<Vec<u8>>)
    requires
        forall|m: &str, b: Vec<u8>| apply_fn.requires((m, b)),
    ensures
        r is Some <==> is_qa_op(op@),
        op@ == "qa-spec"@ ==> responds(
            r,
            qa_spec_response(input_json@, provider_name@, setup_questions@, default_keys@),
        ),
        op@ == "apply-answers"@ ==> (r is Some && applied(apply_fn, input_json@, r.unwrap()@)),
        op@ == "i18n-keys"@ ==> responds(r, i18n_keys_response(i18n_keys_list@)),
        op@ == "i18n-bundle"@ ==> responds(r, i18n_bundle_response(input_json@, i18n_pairs@)),
{
    proof {
        reveal_strlit("qa-spec");
        reveal_strlit("apply-answers");
        reveal_strlit("i18n-keys");
        reveal_strlit("i18n-bundle");
        assert("qa-spec"@.len() == 7);
        assert("apply-answers"@.len() == 13);
        assert("i18n-keys"@.len() == 9);
        assert("i18n-bundle"@.len() == 11);
    }
    if str_eq(op, "qa-spec") {
        Some(bridge_qa_spec(input_json, provider_name, setup_questions, default_keys))
    } else if str_eq(op, "apply-answers") {
        Some(bridge_apply_answers(input_json, apply_fn))
    } else if str_eq(op, "i18n-keys") {
        Some(bridge_i18n_keys(i18n_keys_list))
    } else if str_eq(op, "i18n-bundle") {
        Some(bridge_i18n_bundle(input_json, i18n_pairs))
    } else {
        None
    }
}

/// Try to dispatch a QA op through the JSON invoke path, with no i18n pairs.
pub fn dispatch_qa_ops(
    op: &str,
    input_json: &[u8],
    provider_name: &str,
    setup_questions: &[QaQuestionDef],
    default_keys: &[&str],
    i18n_keys_list: &[&str],
    apply_fn: impl FnOnce(&str, Vec<u8>) -> Vec<u8>,
) -> (r: Option<Vec<u8>>)
    requires
        forall|m: &str, b: Vec<u8>| apply_fn.requires((m, b)),
    ensures
        r is Some <==> is_qa_op(op@),
        op@ == "qa-spec"@ ==> responds(
            r,
            qa_spec_response(input_json@, provider_name@, setup_questions@, default_keys@),
        ),
        op@ == "apply-answers"@ ==> (r is Some && applied(apply_fn, input_json@, r.unwrap()@)),
        op@ == "i18n-keys"@ ==> responds(r, i18n_keys_response(i18n_keys_list@)),
        op@ == "i18n-bundle"@ ==> responds(r, i18n_bundle_response(input_json@, Seq::empty())),
{
    let pairs: [(&str, &str); 0] = [];
    let r = dispatch_qa_ops_with_i18n(
        op,
        input_json,
        provider_name,
        setup_questions,
        default_keys,
        i18n_keys_list,
        &pairs,
        apply_fn,
    );
    assert(pairs@ =~= Seq::<(&str, &str)>::empty());
    r
}


// ---------------------------------------------------------------------------
// Laws
// ---------------------------------------------------------------------------

proof fn lemma_members_insert_get(m: Seq<(Seq<char>, JV)>, key: Seq<char>, value: JV, k: Seq<char>)
    ensures
        crate::json::members_get(members_insert(m, key, value), k) == if k == key {
            Some(value)
        } else {
            crate::json::members_get(m, k)
        },
    decreases m.len(),
{
    if m.len() == 0 {
        let s = seq![(key, value)];
        assert(members_insert(m, key, value) == s);
        assert(s[0] == (key, value));
        assert(s.drop_first() =~= Seq::<(Seq<char>, JV)>::empty());
        assert(crate::json::members_get(s.drop_first(), k) is None);
    } else if m[0].0 == key {
        let u = m.update(0, (key, value));
        assert(members_insert(m, key, value) == u);
        assert(u[0] == (key, value));
        assert(u.drop_first() =~= m.drop_first());
    } else {
        lemma_members_insert_get(m.drop_first(), key, value, k);
        let rest = members_insert(m.drop_first(), key, value);
        let s = seq![m[0]] + rest;
        assert(members_insert(m, key, value) == s);
        assert(s[0] == m[0]);
        assert(s.drop_first() =~= rest);
    }
}

/// The answers handed to the provider carry the request's `current_config`
/// as `existing_config`, and every other answer unchanged.
pub proof fn law_payload_carries_current_config(
    input: JV,
    current: JV,
    answers: Seq<(Seq<char>, JV)>,
    k: Seq<char>,
)
    requires
        jget(input, "current_config"@) == Some(current),
        jget(input, "answers"@) == Some(JV::Object(answers)),
    ensures
        jget(apply_payload(input), "existing_config"@) == Some(current),
        k != "existing_config"@ ==> jget(apply_payload(input), k) == crate::json::members_get(
            answers,
            k,
        ),
{
    lemma_members_insert_get(answers, "existing_config"@, current, "existing_config"@);
    lemma_members_insert_get(answers, "existing_config"@, current, k);
}

} // verus!
