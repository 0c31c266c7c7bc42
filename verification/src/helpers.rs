//! Shared helpers used by all messaging providers: descriptor and QA
//! builders, answer extraction, schema builders and standard responses.

use vstd::prelude::*;
use vstd::string::*;
use crate::codec::{json_bytes_of, json_to_vec};
use crate::component::{canonical_cbor_bytes, cbor_bytes_of, field_views, lemma_field_views, I18nText, KindV, OperationDescriptor, QaQuestionSpec, QaSpec, QaSpecV, QuestionKind, QuestionV, SchemaField, SchemaIr, SchemaV, question_views};
use crate::json::{jget, jget_str, member_views, push_member, Json, JV};
use crate::plan::opt_view;
use crate::text::{copy_str, lemma_str_lt_irreflexive, lemma_str_lt_total, lemma_str_lt_transitive, str_eq, str_less, str_lt, trim, trimmed, views};

verus! {

// ---------------------------------------------------------------------------
// JSON serialization
// ---------------------------------------------------------------------------

/// Serialize a value to JSON bytes.
pub fn json_bytes(value: &Json) -> (r: Vec<u8>)
    ensures
        r@ == json_bytes_of(value@),
{
    json_to_vec(value)
}

// ---------------------------------------------------------------------------
// I18n / descriptor helpers
// ---------------------------------------------------------------------------

/// Build an [`I18nText`] from a dotted key.
pub fn i18n(key: &str) -> (r: I18nText)
    ensures
        r.key@ == key@,
{
    I18nText { key: copy_str(key) }
}

/// Build an [`OperationDescriptor`] from a name and i18n keys.
pub fn op(name: &str, title_key: &str, desc_key: &str) -> (r: OperationDescriptor)
    ensures
        r.name@ == name@,
        r.title.key@ == title_key@,
        r.description.key@ == desc_key@,
{
    OperationDescriptor { name: copy_str(name), title: i18n(title_key), description: i18n(desc_key) }
}

/// A question with no help, error, default or skip condition.
pub open spec fn question_v(id: Seq<char>, label: Seq<char>, kind: KindV, required: bool) -> QuestionV {
    QuestionV {
        id,
        label,
        help: None,
        error: None,
        kind,
        required,
        default: None,
        skip_if: None,
    }
}

fn question(key: &str, text_key: &str, required: bool, kind: QuestionKind) -> (r: QaQuestionSpec)
    ensures
        r@ == question_v(key@, text_key@, kind@, required),
{
    QaQuestionSpec {
        id: copy_str(key),
        label: i18n(text_key),
        help: None,
        error: None,
        kind,
        required,
        default: None,
        skip_if: None,
    }
}

/// Build a text [`QaQuestionSpec`] from a key, i18n text key, and required flag.
pub fn qa_q(key: &str, text_key: &str, required: bool) -> (r: QaQuestionSpec)
    ensures
        r@ == question_v(key@, text_key@, KindV::Text, required),
{
    question(key, text_key, required, QuestionKind::Text)
}

/// Build a [`QaQuestionSpec`] for inline JSON input without a schema.
pub fn qa_inline_json(key: &str, text_key: &str, required: bool) -> (r: QaQuestionSpec)
    ensures
        r@ == question_v(key@, text_key@, KindV::InlineJson { schema: None }, required),
{
    question(key, text_key, required, QuestionKind::InlineJson { schema: None })
}

/// Build a [`QaQuestionSpec`] for inline JSON input with JSON Schema validation.
pub fn qa_inline_json_with_schema(key: &str, text_key: &str, required: bool, schema: Json) -> (r:
    QaQuestionSpec)
    ensures
        r@ == question_v(key@, text_key@, KindV::InlineJson { schema: Some(schema@) }, required),
{
    question(key, text_key, required, QuestionKind::InlineJson { schema: Some(schema) })
}

/// Build a [`QaQuestionSpec`] for an asset file reference under `assets/`.
pub fn qa_asset_ref(key: &str, text_key: &str, required: bool, file_types: Vec<String>) -> (r:
    QaQuestionSpec)
    ensures
        r@ == question_v(
            key@,
            text_key@,
            KindV::AssetRef {
                file_types: views(file_types@),
                base_path: Some("assets/"@),
                check_exists: true,
            },
            required,
        ),
{
    question(
        key,
        text_key,
        required,
        QuestionKind::AssetRef {
            file_types,
            base_path: Some(copy_str("assets/")),
            check_exists: true,
        },
    )
}

/// Build a [`QaQuestionSpec`] for an asset file reference with a custom base path.
pub fn qa_asset_ref_with_base(
    key: &str,
    text_key: &str,
    required: bool,
    file_types: Vec<String>,
    base_path: Option<String>,
    check_exists: bool,
) -> (r: QaQuestionSpec)
    ensures
        r@ == question_v(
            key@,
            text_key@,
            KindV::AssetRef {
                file_types: views(file_types@),
                base_path: opt_view(base_path),
                check_exists,
            },
            required,
        ),
{
    question(key, text_key, required, QuestionKind::AssetRef { file_types, base_path, check_exists })
}

// ---------------------------------------------------------------------------
// QA answer extraction
// ---------------------------------------------------------------------------

/// `answers[key]` trimmed when it is a non-blank string, else `default`.
pub open spec fn string_or_default_of(answers: JV, key: Seq<char>, default: Seq<char>) -> Seq<char> {
    match jget_str(answers, key) {
        Some(s) => if trimmed(s).len() > 0 {
            trimmed(s)
        } else {
            default
        },
        None => default,
    }
}

/// `answers[key]` trimmed when it is a non-blank string.
pub open spec fn optional_string_of(answers: JV, key: Seq<char>) -> Option<Seq<char>> {
    match jget_str(answers, key) {
        Some(s) => if trimmed(s).len() > 0 {
            Some(trimmed(s))
        } else {
            None
        },
        None => None,
    }
}

/// Extract a string from `answers[key]`, falling back to `default`.
pub fn string_or_default(answers: &Json, key: &str, default: &str) -> (r: String)
    ensures
        r@ == string_or_default_of(answers@, key@, default@),
{
    match answers.get_str(key) {
        Some(s) => {
            let t = trim(s.as_str());
            if t.as_str().is_empty() {
                copy_str(default)
            } else {
                t
            }
        },
        None => copy_str(default),
    }
}

/// Extract an optional non-empty string from `answers[key]`.
pub fn optional_string_from(answers: &Json, key: &str) -> (r: Option<String>)
    ensures
        opt_view(r) == optional_string_of(answers@, key@),
{
    match answers.get_str(key) {
        Some(s) => {
            let t = trim(s.as_str());
            if t.as_str().is_empty() {
                None
            } else {
                Some(t)
            }
        },
        None => None,
    }
}

/// `answers.existing_config`, else `answers.config`.
pub open spec fn existing_config_of(answers: JV) -> Option<JV> {
    match jget(answers, "existing_config"@) {
        Some(v) => Some(v),
        None => jget(answers, "config"@),
    }
}

/// The configuration value carried by the answers: `existing_config`, else
/// `config`. Decoding it into a configuration type is the caller's step.
pub fn existing_config_from_answers(answers: &Json) -> (r: Option<Json>)
    ensures
        crate::plan::opt_json_view(r) == existing_config_of(answers@),
{
    match answers.get("existing_config") {
        Some(v) => Some(v.duplicate()),
        None => match answers.get("config") {
            Some(v) => Some(v.duplicate()),
            None => None,
        },
    }
}

// ---------------------------------------------------------------------------
// Standard responses
// ---------------------------------------------------------------------------

pub open spec fn error_members(message: Seq<char>) -> Seq<(Seq<char>, JV)> {
    seq![("ok"@, JV::Bool(false)), ("error"@, JV::Str(message))]
}

/// `{"ok": false, "error": message}`.
pub open spec fn error_jv(message: Seq<char>) -> JV {
    JV::Object(error_members(message))
}

pub fn error_json(message: &str) -> (r: Json)
    ensures
        r@ == error_jv(message@),
{
    let mut m: Vec<(String, Json)> = Vec::new();
    push_member(&mut m, "ok", Json::Bool(false));
    push_member(&mut m, "error", Json::from_str(message));
    assert(member_views(m@) =~= error_members(message@));
    Json::Object(m)
}

/// Return a render_plan error response.
pub fn render_plan_error(message: &str) -> (r: Vec<u8>)
    ensures
        r@ == json_bytes_of(error_jv(message@)),
{
    json_bytes(&error_json(message))
}

/// Return an encode error response.
pub fn encode_error(message: &str) -> (r: Vec<u8>)
    ensures
        r@ == json_bytes_of(error_jv(message@)),
{
    json_bytes(&error_json(message))
}

pub open spec fn send_result_members(ok: bool, message: Option<Seq<char>>, retryable: bool) -> Seq<
    (Seq<char>, JV),
> {
    seq![
        ("ok"@, JV::Bool(ok)),
        ("message"@, crate::json::opt_str_jv(message)),
        ("retryable"@, JV::Bool(retryable)),
    ]
}

/// A send_payload result: `{"ok", "message", "retryable"}`.
pub open spec fn send_result_jv(ok: bool, message: Option<Seq<char>>, retryable: bool) -> JV {
    JV::Object(send_result_members(ok, message, retryable))
}

fn send_result_json(ok: bool, message: Option<String>, retryable: bool) -> (r: Json)
    ensures
        r@ == send_result_jv(ok, opt_view(message), retryable),
{
    let mut m: Vec<(String, Json)> = Vec::new();
    push_member(&mut m, "ok", Json::Bool(ok));
    push_member(&mut m, "message", crate::json::opt_str_json(&message));
    push_member(&mut m, "retryable", Json::Bool(retryable));
    assert(member_views(m@) =~= send_result_members(ok, opt_view(message), retryable));
    Json::Object(m)
}

/// Return a send_payload error response.
pub fn send_payload_error(message: &str, retryable: bool) -> (r: Vec<u8>)
    ensures
        r@ == json_bytes_of(send_result_jv(false, Some(message@), retryable)),
{
    json_bytes(&send_result_json(false, Some(copy_str(message)), retryable))
}

/// Return a send_payload success response.
pub fn send_payload_success() -> (r: Vec<u8>)
    ensures
        r@ == json_bytes_of(send_result_jv(true, None, false)),
{
    json_bytes(&send_result_json(true, None, false))
}

/// schema-core-api `describe()`: the JSON of a describe payload.
pub fn schema_core_describe(payload: &crate::component::DescribePayload) -> (r: Vec<u8>)
    ensures
        r@ == json_bytes_of(crate::component::describe_jv(*payload)),
{
    json_bytes(&payload.to_json())
}

pub open spec fn ok_members() -> Seq<(Seq<char>, JV)> {
    seq![("ok"@, JV::Bool(true))]
}

pub open spec fn healthy_members() -> Seq<(Seq<char>, JV)> {
    seq![("status"@, JV::Str("healthy"@))]
}

/// schema-core-api `validate_config()`: always `{"ok": true}`.
pub fn schema_core_validate_config() -> (r: Vec<u8>)
    ensures
        r@ == json_bytes_of(JV::Object(ok_members())),
{
    let mut m: Vec<(String, Json)> = Vec::new();
    push_member(&mut m, "ok", Json::Bool(true));
    assert(member_views(m@) =~= ok_members());
    json_bytes(&Json::Object(m))
}

/// schema-core-api `healthcheck()`: always `{"status": "healthy"}`.
pub fn schema_core_healthcheck() -> (r: Vec<u8>)
    ensures
        r@ == json_bytes_of(JV::Object(healthy_members())),
{
    let mut m: Vec<(String, Json)> = Vec::new();
    push_member(&mut m, "status", Json::from_str("healthy"));
    assert(member_views(m@) =~= healthy_members());
    json_bytes(&Json::Object(m))
}

// ---------------------------------------------------------------------------
// I18n helpers
// ---------------------------------------------------------------------------

pub open spec fn str_views(keys: Seq<&str>) -> Seq<Seq<char>> {
    keys.map_values(|k: &str| k@)
}

/// Convert a `&[&str]` key list to `Vec<String>`.
pub fn i18n_keys_from(keys: &[&str]) -> (r: Vec<String>)
    ensures
        views(r@) == str_views(keys@),
{
    let mut out: Vec<String> = Vec::new();
    let mut i: usize = 0;
    while i < keys.len()
        invariant
            i <= keys.len(),
            views(out@) == str_views(keys@).take(i as int),
        decreases keys.len() - i,
    {
        let s = copy_str(keys[i]);
        let ghost before = out@;
        out.push(s);
        assert(out@ == before.push(s));
        assert(views(before.push(s)) =~= views(before).push(s@));
        assert(views(out@) =~= str_views(keys@).take(i + 1));
        i += 1;
    }
    assert(str_views(keys@).take(i as int) =~= str_views(keys@));
    out
}

/// The locale, or `en` when it is blank.
pub open spec fn locale_or_en(locale: Seq<char>) -> Seq<char> {
    if trimmed(locale).len() == 0 {
        "en"@
    } else {
        locale
    }
}

pub open spec fn pair_members(pairs: Seq<(&str, &str)>) -> Seq<(Seq<char>, JV)> {
    pairs.map_values(|p: (&str, &str)| (p.0@, JV::Str(p.1@)))
}

pub open spec fn bundle_members(locale: Seq<char>, pairs: Seq<(&str, &str)>) -> Seq<(Seq<char>, JV)> {
    seq![
        ("locale"@, JV::Str(locale_or_en(locale))),
        ("messages"@, JV::Object(pair_members(pairs))),
    ]
}

/// `{"locale": locale (or "en"), "messages": {key: value, ...}}`.
pub open spec fn bundle_jv(locale: Seq<char>, pairs: Seq<(&str, &str)>) -> JV {
    JV::Object(bundle_members(locale, pairs))
}

pub fn i18n_bundle_json(locale: String, pairs: &[(&str, &str)]) -> (r: Json)
    ensures
        r@ == bundle_jv(locale@, pairs@),
{
    let loc = if crate::text::blank(locale.as_str()) {
        copy_str("en")
    } else {
        locale
    };
    let mut msgs: Vec<(String, Json)> = Vec::new();
    let mut i: usize = 0;
    while i < pairs.len()
        invariant
            i <= pairs.len(),
            member_views(msgs@) == pair_members(pairs@).take(i as int),
        decreases pairs.len() - i,
    {
        push_member(&mut msgs, pairs[i].0, Json::from_str(pairs[i].1));
        assert(member_views(msgs@) =~= pair_members(pairs@).take(i + 1));
        i += 1;
    }
    assert(pair_members(pairs@).take(i as int) =~= pair_members(pairs@));
    let mut m: Vec<(String, Json)> = Vec::new();
    push_member(&mut m, "locale", Json::Str(loc));
    push_member(&mut m, "messages", Json::Object(msgs));
    assert(member_views(m@) =~= bundle_members(locale@, pairs@));
    Json::Object(m)
}

/// Build an i18n bundle CBOR blob from explicit `(key, value)` pairs.
pub fn i18n_bundle_from_pairs(locale: String, pairs: &[(&str, &str)]) -> (r: Vec<u8>)
    ensures
        r@ == cbor_bytes_of(bundle_jv(locale@, pairs@)),
{
    canonical_cbor_bytes(&i18n_bundle_json(locale, pairs))
}

// ---------------------------------------------------------------------------
// Schema builder helpers
// ---------------------------------------------------------------------------

/// Build a `SchemaIr::String` (non-secret, no format).
pub fn schema_str(title: &str, desc: &str) -> (r: SchemaIr)
    ensures
        r@ == (SchemaV::String { title: title@, description: desc@, format: None, secret: false }),
{
    SchemaIr::String { title: i18n(title), description: i18n(desc), format: None, secret: false }
}

/// Build a `SchemaIr::String` with a format (e.g. `"uri"`).
pub fn schema_str_fmt(title: &str, desc: &str, format: &str) -> (r: SchemaIr)
    ensures
        r@ == (SchemaV::String {
            title: title@,
            description: desc@,
            format: Some(format@),
            secret: false,
        }),
{
    SchemaIr::String {
        title: i18n(title),
        description: i18n(desc),
        format: Some(copy_str(format)),
        secret: false,
    }
}

/// Build a secret `SchemaIr::String` (no format).
pub fn schema_secret(title: &str, desc: &str) -> (r: SchemaIr)
    ensures
        r@ == (SchemaV::String { title: title@, description: desc@, format: None, secret: true }),
{
    SchemaIr::String { title: i18n(title), description: i18n(desc), format: None, secret: true }
}

/// Build a `SchemaIr::Bool`.
pub fn schema_bool_ir(title: &str, desc: &str) -> (r: SchemaIr)
    ensures
        r@ == (SchemaV::Bool { title: title@, description: desc@ }),
{
    SchemaIr::Bool { title: i18n(title), description: i18n(desc) }
}

/// The last definition of `k`.
pub open spec fn last_def(defs: Seq<(Seq<char>, bool, SchemaV)>, k: Seq<char>) -> Option<
    (bool, SchemaV),
>
    decreases defs.len(),
{
    if defs.len() == 0 {
        None
    } else if defs.last().0 == k {
        Some((defs.last().1, defs.last().2))
    } else {
        last_def(defs.drop_last(), k)
    }
}

/// `fs` holds each defined name once, sorted by name, with its last
/// definition (what a `BTreeMap` filled from `defs` holds).
pub open spec fn built_from(
    fs: Seq<(Seq<char>, bool, SchemaV)>,
    defs: Seq<(Seq<char>, bool, SchemaV)>,
) -> bool {
    &&& forall|i: int, j: int| 0 <= i < j < fs.len() ==> str_lt(#[trigger] fs[i].0, #[trigger] fs[j].0)
    &&& forall|i: int| 0 <= i < fs.len() ==> last_def(defs, #[trigger] fs[i].0) == Some((fs[i].1, fs[i].2))
    &&& forall|k: Seq<char>| #[trigger] last_def(defs, k) is Some ==> exists|i: int| 0 <= i < fs.len() && fs[i].0 == k
}

pub open spec fn def_views(defs: Seq<(&str, bool, SchemaIr)>) -> Seq<(Seq<char>, bool, SchemaV)> {
    defs.map_values(|d: (&str, bool, SchemaIr)| (d.0@, d.1, d.2@))
}

proof fn lemma_last_def_push(
    defs: Seq<(Seq<char>, bool, SchemaV)>,
    d: (Seq<char>, bool, SchemaV),
    k: Seq<char>,
)
    ensures
        last_def(defs.push(d), k) == if d.0 == k {
            Some((d.1, d.2))
        } else {
            last_def(defs, k)
        },
{
    assert(defs.push(d).drop_last() == defs);
}

/// Adds one definition to a sorted field list.
fn insert_field(
    fields: &mut Vec<(String, SchemaField)>,
    name: &str,
    required: bool,
    schema: SchemaIr,
    Ghost(defs): Ghost<Seq<(Seq<char>, bool, SchemaV)>>,
)
    requires
        built_from(field_views(old(fields)@), defs),
    ensures
        built_from(field_views(final(fields)@), defs.push((name@, required, schema@))),
{
    let ghost d = (name@, required, schema@);
    let ghost defs2 = defs.push(d);
    proof {
        lemma_field_views(fields@);
    }
    let ghost fv = field_views(fields@);
    let mut j: usize = 0;
    while j < fields.len() && str_less(fields[j].0.as_str(), name)
        invariant
            j <= fields.len(),
            fv == field_views(fields@),
            fv.len() == fields@.len(),
            forall|i: int| 0 <= i < fields@.len() ==> #[trigger] fv[i] == (fields@[i].0@, fields@[i].1.required, crate::component::schema_view(fields@[i].1.schema)),
            forall|i: int| 0 <= i < j ==> str_lt(#[trigger] fv[i].0, name@),
        decreases fields.len() - j,
    {
        j += 1;
    }
    let field = SchemaField { required, schema };
    if j < fields.len() && str_eq(fields[j].0.as_str(), name) {
        fields.set(j, (copy_str(name), field));
        proof {
            lemma_field_views(fields@);
            let fv2 = field_views(fields@);
            assert(fv2 =~= fv.update(j as int, d));
            assert forall|a: int, b: int| 0 <= a < b < fv2.len() implies str_lt(#[trigger] fv2[a].0, #[trigger] fv2[b].0) by {
                assert(str_lt(fv[a].0, fv[b].0));
            }
            assert forall|i: int| 0 <= i < fv2.len() implies last_def(defs2, #[trigger] fv2[i].0) == Some((fv2[i].1, fv2[i].2)) by {
                lemma_last_def_push(defs, d, fv2[i].0);
                if i != j {
                    if i < j {
                        assert(str_lt(fv[i].0, fv[j as int].0));
                    } else {
                        assert(str_lt(fv[j as int].0, fv[i].0));
                    }
                    lemma_str_lt_irreflexive(fv[i].0);
                }
            }
            assert forall|k: Seq<char>| #[trigger] last_def(defs2, k) is Some implies exists|i: int| 0 <= i < fv2.len() && fv2[i].0 == k by {
                lemma_last_def_push(defs, d, k);
                if k == d.0 {
                    assert(fv2[j as int].0 == k);
                } else {
                    assert(last_def(defs, k) is Some);
                    let i = choose|i: int| 0 <= i < fv.len() && fv[i].0 == k;
                    assert(fv2[i].0 == k);
                }
            }
        }
    } else {
        proof {
            if j < fields.len() {
                lemma_str_lt_total(fv[j as int].0, name@);
            }
        }
        fields.insert(j, (copy_str(name), field));
        proof {
            lemma_field_views(fields@);
            let fv2 = field_views(fields@);
            assert(fv2 =~= fv.insert(j as int, d));
            // every old name after position j is greater than the new one
            assert forall|i: int| j <= i < fv.len() implies str_lt(name@, #[trigger] fv[i].0) by {
                if i > j {
                    assert(str_lt(fv[j as int].0, fv[i].0));
                    lemma_str_lt_transitive(name@, fv[j as int].0, fv[i].0);
                }
            }
            assert forall|a: int, b: int| 0 <= a < b < fv2.len() implies str_lt(#[trigger] fv2[a].0, #[trigger] fv2[b].0) by {
                if b < j {
                    assert(str_lt(fv[a].0, fv[b].0));
                } else if b == j {
                    assert(str_lt(fv[a].0, name@));
                } else if a < j {
                    assert(str_lt(fv[a].0, name@));
                    assert(str_lt(name@, fv[b - 1].0));
                    lemma_str_lt_transitive(fv[a].0, name@, fv[b - 1].0);
                } else if a == j {
                    assert(str_lt(name@, fv[b - 1].0));
                } else {
                    assert(str_lt(fv[a - 1].0, fv[b - 1].0));
                }
            }
            assert forall|i: int| 0 <= i < fv2.len() implies last_def(defs2, #[trigger] fv2[i].0) == Some((fv2[i].1, fv2[i].2)) by {
                lemma_last_def_push(defs, d, fv2[i].0);
                if i < j {
                    assert(str_lt(fv[i].0, name@));
                    lemma_str_lt_irreflexive(name@);
                } else if i > j {
                    assert(str_lt(name@, fv[i - 1].0));
                    lemma_str_lt_irreflexive(name@);
                }
            }
            assert forall|k: Seq<char>| #[trigger] last_def(defs2, k) is Some implies exists|i: int| 0 <= i < fv2.len() && fv2[i].0 == k by {
                lemma_last_def_push(defs, d, k);
                if k == d.0 {
                    assert(fv2[j as int].0 == k);
                } else {
                    assert(last_def(defs, k) is Some);
                    let i = choose|i: int| 0 <= i < fv.len() && fv[i].0 == k;
                    if i < j {
                        assert(fv2[i].0 == k);
                    } else {
                        assert(fv2[i + 1].0 == k);
                    }
                }
            }
        }
    }
}

/// `s` is the object schema with this title, description and flag, whose
/// fields are built from the definitions `defs`.
pub open spec fn schema_object(
    s: SchemaV,
    title: Seq<char>,
    desc: Seq<char>,
    defs: Seq<(Seq<char>, bool, SchemaV)>,
    additional_properties: bool,
) -> bool {
    s matches SchemaV::Object { title: t, description: d, fields, additional_properties: a } && t
        == title && d == desc && a == additional_properties && built_from(fields, defs)
}

/// Build a `SchemaIr::Object` from a list of `(name, required, schema)`; a
/// name defined twice keeps its last definition, and fields are sorted by name.
pub fn schema_obj(
    title: &str,
    desc: &str,
    field_defs: Vec<(&str, bool, SchemaIr)>,
    additional_properties: bool,
) -> (r: SchemaIr)
    ensures
        schema_object(r@, title@, desc@, def_views(field_defs@), additional_properties),
{
    let ghost all = def_views(field_defs@);
    let mut defs = field_defs;
    let mut fields: Vec<(String, SchemaField)> = Vec::new();
    let mut i: usize = 0;
    let ghost n = defs.len();
    assert(built_from(field_views(fields@), all.take(0)));
    while defs.len() > 0
        invariant
            i + defs.len() == n,
            n == all.len(),
            def_views(defs@) == all.skip(i as int),
            built_from(field_views(fields@), all.take(i as int)),
        decreases defs.len(),
    {
        let ghost before = defs@;
        let (name, required, schema) = defs.remove(0);
        assert(all.take(i + 1) =~= all.take(i as int).push((name@, required, schema@))) by {
            assert(def_views(before)[0] == all.skip(i as int)[0]);
            assert(all.skip(i as int)[0] == all[i as int]);
        }
        insert_field(&mut fields, name, required, schema, Ghost(all.take(i as int)));
        assert(def_views(defs@) =~= all.skip(i + 1)) by {
            assert(defs@ =~= before.subrange(1, before.len() as int));
            assert forall|k: int| 0 <= k < defs@.len() implies #[trigger] def_views(defs@)[k] == all.skip(i + 1)[k] by {
                assert(def_views(before)[k + 1] == all.skip(i as int)[k + 1]);
            }
        }
        i += 1;
    }
    assert(all.take(i as int) =~= all);
    SchemaIr::Object { title: i18n(title), description: i18n(desc), fields, additional_properties }
}

// ---------------------------------------------------------------------------
// QA spec builder
// ---------------------------------------------------------------------------

/// Question definition: `(key, i18n_text_key, required_in_setup)`.
pub type QaQuestionDef<'a> = (&'a str, &'a str, bool);

/// The first definition whose key is `k`.
pub open spec fn find_def<'a>(setup: Seq<(&'a str, &'a str, bool)>, k: Seq<char>) -> Option<
    (&'a str, &'a str, bool),
>
    decreases setup.len(),
{
    if setup.len() == 0 {
        None
    } else if setup[0].0@ == k {
        Some(setup[0])
    } else {
        find_def(setup.drop_first(), k)
    }
}

/// Default-mode questions: for each default key with a setup definition,
/// that question, required.
pub open spec fn default_questions(setup: Seq<(&str, &str, bool)>, keys: Seq<&str>) -> Seq<QuestionV>
    decreases keys.len(),
{
    if keys.len() == 0 {
        Seq::empty()
    } else {
        default_questions(setup, keys.drop_last()) + match find_def(setup, keys.last()@) {
            Some(d) => seq![question_v(d.0@, d.1@, KindV::Text, true)],
            None => Seq::empty(),
        }
    }
}

/// Setup questions with their own required flags (`keep`), or all optional.
pub open spec fn setup_questions_v(setup: Seq<(&str, &str, bool)>, keep: bool) -> Seq<QuestionV> {
    setup.map_values(|d: (&str, &str, bool)| question_v(d.0@, d.1@, KindV::Text, keep && d.2))
}

/// The QA spec for a mode: `default`, `setup`, `upgrade`; any other mode
/// gives the `remove` spec, which asks nothing.
pub open spec fn qa_spec_of(
    mode: Seq<char>,
    prefix: Seq<char>,
    setup: Seq<(&str, &str, bool)>,
    default_keys: Seq<&str>,
) -> QaSpecV {
    let m = if mode == "default"@ || mode == "setup"@ || mode == "upgrade"@ {
        mode
    } else {
        "remove"@
    };
    QaSpecV {
        mode: m,
        title: prefix + ".qa."@ + m + ".title"@,
        description: None,
        questions: if mode == "default"@ {
            default_questions(setup, default_keys)
        } else if mode == "setup"@ {
            setup_questions_v(setup, true)
        } else if mode == "upgrade"@ {
            setup_questions_v(setup, false)
        } else {
            Seq::empty()
        },
        defaults: Seq::empty(),
    }
}

fn title_key(prefix: &str, mode: &str) -> (r: I18nText)
    ensures
        r.key@ == prefix@ + ".qa."@ + mode@ + ".title"@,
{
    let mut k = copy_str(prefix);
    k.append(".qa.");
    k.append(mode);
    k.append(".title");
    I18nText { key: k }
}

fn find_setup_def<'a>(setup: &[QaQuestionDef<'a>], k: &str) -> (r: Option<QaQuestionDef<'a>>)
    ensures
        r == find_def(setup@, k@),
{
    let mut i: usize = 0;
    assert(setup@.skip(0) == setup@);
    while i < setup.len()
        invariant
            i <= setup.len(),
            find_def(setup@, k@) == find_def(setup@.skip(i as int), k@),
        decreases setup.len() - i,
    {
        assert(setup@.skip(i as int)[0] == setup@[i as int]);
        if str_eq(setup[i].0, k) {
            return Some(setup[i]);
        }
        assert(setup@.skip(i as int).drop_first() == setup@.skip(i + 1));
        i += 1;
    }
    None
}

/// Build a [`QaSpec`] for the given mode from shared question definitions.
///
/// Upgrade mode reuses the setup questions as optional; remove mode (and any
/// unknown mode) asks nothing.
pub fn qa_spec_for_mode(
    mode: &str,
    prefix: &str,
    setup_questions: &[QaQuestionDef],
    default_keys: &[&str],
) -> (r: QaSpec)
    ensures
        r@ == qa_spec_of(mode@, prefix@, setup_questions@, default_keys@),
{
    let mut questions: Vec<QaQuestionSpec> = Vec::new();
    let is_default = str_eq(mode, "default");
    let is_setup = str_eq(mode, "setup");
    let is_upgrade = str_eq(mode, "upgrade");
    let m: &str = if is_default {
        "default"
    } else if is_setup {
        "setup"
    } else if is_upgrade {
        "upgrade"
    } else {
        "remove"
    };
    if is_default {
        let mut i: usize = 0;
        while i < default_keys.len()
            invariant
                i <= default_keys.len(),
                question_views(questions@) == default_questions(setup_questions@, default_keys@.take(i as int)),
            decreases default_keys.len() - i,
        {
            let ghost before = questions@;
            assert(default_keys@.take(i + 1).drop_last() == default_keys@.take(i as int));
            match find_setup_def(setup_questions, default_keys[i]) {
                Some(d) => {
                    let q = qa_q(d.0, d.1, true);
                    questions.push(q);
                    assert(question_views(questions@) =~= question_views(before).push(q@));
                },
                None => {},
            }
            assert(question_views(questions@) =~= default_questions(setup_questions@, default_keys@.take(i + 1)));
            i += 1;
        }
        assert(default_keys@.take(i as int) == default_keys@);
    } else if is_setup || is_upgrade {
        let mut i: usize = 0;
        while i < setup_questions.len()
            invariant
                i <= setup_questions.len(),
                question_views(questions@) == setup_questions_v(setup_questions@, is_setup).take(i as int),
            decreases setup_questions.len() - i,
        {
            let d = setup_questions[i];
            let q = qa_q(d.0, d.1, is_setup && d.2);
            let ghost before = questions@;
            questions.push(q);
            assert(question_views(questions@) =~= question_views(before).push(q@));
            assert(question_views(questions@) =~= setup_questions_v(setup_questions@, is_setup).take(i + 1));
            i += 1;
        }
        assert(setup_questions_v(setup_questions@, is_setup).take(i as int) == setup_questions_v(setup_questions@, is_setup));
    } else {
        assert(question_views(questions@) =~= Seq::empty());
    }
    let r = QaSpec {
        mode: copy_str(m),
        title: title_key(prefix, m),
        description: None,
        questions,
        defaults: Vec::new(),
    };
    assert(member_views(r.defaults@) =~= Seq::empty());
    r
}


// ---------------------------------------------------------------------------
// Encode requests
// ---------------------------------------------------------------------------

/// The error of an encode request that neither accepted shape reads.
pub open spec fn encode_input_error(message_err: Seq<char>, envelope_err: Seq<char>) -> Seq<char> {
    "invalid encode input: "@ + message_err + "; envelope fallback failed: "@ + envelope_err
}

/// Reads an encode request in its current shape (`first`), falling back to
/// the legacy shape (`fallback`, tried only when the first read fails): the
/// value of the first read that succeeds, else an error naming both failures.
pub fn decode_with_fallback<T>(
    first: Result<T, String>,
    fallback: impl FnOnce() -> Result<T, String>,
) -> (r: Result<T, String>)
    requires
        fallback.requires(()),
    ensures
        first is Ok ==> r == first,
        first matches Err(e1) ==> exists|second: Result<T, String>|
            fallback.ensures((), second) && match second {
                Ok(t) => r matches Ok(x) && x == t,
                Err(e2) => r matches Err(m) && m@ == encode_input_error(e1@, e2@),
            },
{
    match first {
        Ok(value) => Ok(value),
        Err(message_err) => {
            let second = fallback();
            let ghost g = second;
            let r = match second {
                Ok(envelope) => Ok(envelope),
                Err(envelope_err) => {
                    let mut msg = copy_str("invalid encode input: ");
                    msg.append(message_err.as_str());
                    msg.append("; envelope fallback failed: ");
                    msg.append(envelope_err.as_str());
                    Err(msg)
                },
            };
            assert(fallback.ensures((), g));
            r
        },
    }
}

// ---------------------------------------------------------------------------
// Laws of the QA spec builder
// ---------------------------------------------------------------------------

proof fn lemma_mode_names_differ()
    ensures
        "default"@ != "setup"@,
        "default"@ != "upgrade"@,
        "setup"@ != "upgrade"@,
{
    reveal_strlit("default");
    reveal_strlit("setup");
    reveal_strlit("upgrade");
    assert("default"@.len() != "setup"@.len());
    assert("setup"@.len() != "upgrade"@.len());
    assert("default"@[0] != "upgrade"@[0]);
}

/// Upgrade mode asks the setup questions, in order, with their labels, all
/// optional.
pub proof fn law_upgrade_asks_setup_questions_optionally(
    prefix: Seq<char>,
    setup: Seq<(&str, &str, bool)>,
    default_keys: Seq<&str>,
)
    ensures
        qa_spec_of("upgrade"@, prefix, setup, default_keys).mode == "upgrade"@,
        qa_spec_of("upgrade"@, prefix, setup, default_keys).questions.len() == setup.len(),
        forall|i: int|
            0 <= i < setup.len() ==> {
                let q = #[trigger] qa_spec_of("upgrade"@, prefix, setup, default_keys).questions[i];
                q.id == setup[i].0@ && q.label == setup[i].1@ && !q.required && q.id
                    == qa_spec_of("setup"@, prefix, setup, default_keys).questions[i].id
            },
{
    lemma_mode_names_differ();
}

/// Any mode other than `default`, `setup` and `upgrade` is answered with the
/// `remove` spec, which asks nothing.
pub proof fn law_other_modes_ask_nothing(
    mode: Seq<char>,
    prefix: Seq<char>,
    setup: Seq<(&str, &str, bool)>,
    default_keys: Seq<&str>,
)
    requires
        mode != "default"@,
        mode != "setup"@,
        mode != "upgrade"@,
    ensures
        qa_spec_of(mode, prefix, setup, default_keys).mode == "remove"@,
        qa_spec_of(mode, prefix, setup, default_keys).questions.len() == 0,
{
}

proof fn lemma_find_def<'a>(setup: Seq<(&'a str, &'a str, bool)>, k: Seq<char>)
    ensures
        find_def(setup, k) matches Some(d) ==> d.0@ == k && exists|j: int|
            0 <= j < setup.len() && setup[j] == d,
    decreases setup.len(),
{
    if setup.len() > 0 && setup[0].0@ != k {
        lemma_find_def(setup.drop_first(), k);
        if let Some(d) = find_def(setup, k) {
            let j = choose|j: int| 0 <= j < setup.drop_first().len() && setup.drop_first()[j] == d;
            assert(setup[j + 1] == d);
        }
    }
}

/// In default mode every question is required, is named by one of the
/// default keys, and is a setup question with its setup label.
pub proof fn law_default_questions_are_required_setup_questions(
    setup: Seq<(&str, &str, bool)>,
    default_keys: Seq<&str>,
)
    ensures
        forall|i: int|
            0 <= i < default_questions(setup, default_keys).len() ==> {
                let q = #[trigger] default_questions(setup, default_keys)[i];
                &&& q.required
                &&& exists|j: int| 0 <= j < default_keys.len() && default_keys[j]@ == q.id
                &&& exists|j: int|
                    0 <= j < setup.len() && setup[j].0@ == q.id && setup[j].1@ == q.label
            },
    decreases default_keys.len(),
{
    if default_keys.len() > 0 {
        let rest = default_keys.drop_last();
        law_default_questions_are_required_setup_questions(setup, rest);
        let k = default_keys.last();
        lemma_find_def(setup, k@);
        let prev = default_questions(setup, rest);
        assert forall|i: int| 0 <= i < default_questions(setup, default_keys).len() implies {
            let q = #[trigger] default_questions(setup, default_keys)[i];
            &&& q.required
            &&& exists|j: int| 0 <= j < default_keys.len() && default_keys[j]@ == q.id
            &&& exists|j: int|
                0 <= j < setup.len() && setup[j].0@ == q.id && setup[j].1@ == q.label
        } by {
            let q = default_questions(setup, default_keys)[i];
            if i < prev.len() {
                assert(q == prev[i]);
                let j = choose|j: int| 0 <= j < rest.len() && rest[j]@ == q.id;
                assert(default_keys[j] == rest[j]);
            } else {
                let d = find_def(setup, k@)->Some_0;
                assert(q == question_v(d.0@, d.1@, KindV::Text, true));
                assert(default_keys[default_keys.len() - 1] == k);
                let j = choose|j: int| 0 <= j < setup.len() && setup[j] == d;
                assert(setup[j].0@ == q.id);
            }
        }
    }
}

} // verus!
