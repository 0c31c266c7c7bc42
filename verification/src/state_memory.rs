//! The in-memory state provider: its description, QA flow, configuration
//! and answers.

use vstd::prelude::*;
use crate::codec::{cbor_decoded, json_bytes_of, json_error_of, parsed_json};
use crate::component::{canonical_cbor_bytes, cbor_bytes_of, decode_cbor, hash_material, schema_hash, hex_of, sha256_of, describe_jv, qa_spec_jv, DescribePayload, OperationDescriptor, QaSpec, SchemaIr, SchemaV};
use crate::config_fields::{answer_u32, has_answer_key, read_answer_u32, read_u32_field, struct_shape, struct_shape_ok, u32_field};
use crate::helpers::{def_views, error_jv, error_json, existing_config_from_answers, existing_config_of, i18n, i18n_bundle_from_pairs, i18n_keys_from, json_bytes, qa_spec_for_mode, qa_spec_of, schema_bool_ir, schema_obj, schema_object, schema_str, str_views, bundle_jv, QaQuestionDef};
use crate::json::{member_views, push_member, Json, JsonNumber, NumV, JV};
use crate::qa_helpers::{failure_jv, mode_text, removal_jv, success_jv, ApplyAnswersResult, ConfigJson, QaMode};
use crate::qa_invoke_bridge::{apply_mode, apply_payload, apply_response, dispatch_qa_ops_with_i18n, i18n_bundle_response, i18n_keys_response, qa_spec_response};
use crate::text::{copy_str, parse_u32_spec, str_eq, views};

verus! {

// ---------------------------------------------------------------------------
// Identity, keys and questions
// ---------------------------------------------------------------------------

pub open spec fn provider_id() -> Seq<char> {
    "state-provider-memory"@
}

pub open spec fn world_id() -> Seq<char> {
    "component-v0-v6-v0"@
}

/// The i18n keys of the provider.
pub open spec fn i18n_key_seq() -> Seq<&'static str> {
    seq![
        "state.memory.op.describe.title",
        "state.memory.op.describe.description",
        "state.memory.schema.input.title",
        "state.memory.schema.input.description",
        "state.memory.schema.output.title",
        "state.memory.schema.output.description",
        "state.memory.schema.output.ok.title",
        "state.memory.schema.output.ok.description",
        "state.memory.schema.config.title",
        "state.memory.schema.config.description",
        "state.memory.schema.config.max_entries.title",
        "state.memory.schema.config.max_entries.description",
        "state.memory.schema.config.default_ttl_seconds.title",
        "state.memory.schema.config.default_ttl_seconds.description",
        "state.memory.qa.default.title",
        "state.memory.qa.setup.title",
        "state.memory.qa.upgrade.title",
        "state.memory.qa.remove.title",
        "state.memory.qa.setup.max_entries",
        "state.memory.qa.setup.default_ttl_seconds",
        "state.memory.flow.default.title",
        "state.memory.flow.default.config_summary",
    ]
}

/// The English texts of the provider's keys.
pub open spec fn i18n_pair_seq() -> Seq<(&'static str, &'static str)> {
    seq![
        ("state.memory.op.describe.title", "Describe"),
        ("state.memory.op.describe.description", "Describe in-memory state provider capabilities"),
        ("state.memory.schema.input.title", "State input"),
        ("state.memory.schema.input.description", "Input for in-memory state provider"),
        ("state.memory.schema.output.title", "State output"),
        ("state.memory.schema.output.description", "Result of in-memory state provider"),
        ("state.memory.schema.output.ok.title", "Success"),
        ("state.memory.schema.output.ok.description", "Whether the operation succeeded"),
        ("state.memory.schema.config.title", "Memory state config"),
        ("state.memory.schema.config.description", "In-memory state provider configuration"),
        ("state.memory.schema.config.max_entries.title", "Maximum Entries"),
        (
            "state.memory.schema.config.max_entries.description",
            "Maximum number of key-value entries to store (0 = unlimited)",
        ),
        ("state.memory.schema.config.default_ttl_seconds.title", "Default TTL (seconds)"),
        (
            "state.memory.schema.config.default_ttl_seconds.description",
            "Default time-to-live for entries in seconds (0 = no expiry)",
        ),
        ("state.memory.qa.default.title", "Default"),
        ("state.memory.qa.setup.title", "Setup"),
        ("state.memory.qa.upgrade.title", "Upgrade"),
        ("state.memory.qa.remove.title", "Remove"),
        ("state.memory.qa.setup.max_entries", "Maximum entries (0 = unlimited)"),
        ("state.memory.qa.setup.default_ttl_seconds", "Default TTL in seconds (0 = no expiry)"),
    ]
}

/// The setup questions: `(key, text key, required)`.
pub open spec fn setup_question_seq() -> Seq<(&'static str, &'static str, bool)> {
    seq![
        ("max_entries", "state.memory.qa.setup.max_entries", false),
        ("default_ttl_seconds", "state.memory.qa.setup.default_ttl_seconds", false),
    ]
}

/// The keys asked in default mode: none.
pub open spec fn default_key_seq() -> Seq<&'static str> {
    Seq::empty()
}

fn i18n_key_list() -> (r: Vec<&'static str>)
    ensures
        r@ == i18n_key_seq(),
{
    let r = vec![
        "state.memory.op.describe.title",
        "state.memory.op.describe.description",
        "state.memory.schema.input.title",
        "state.memory.schema.input.description",
        "state.memory.schema.output.title",
        "state.memory.schema.output.description",
        "state.memory.schema.output.ok.title",
        "state.memory.schema.output.ok.description",
        "state.memory.schema.config.title",
        "state.memory.schema.config.description",
        "state.memory.schema.config.max_entries.title",
        "state.memory.schema.config.max_entries.description",
        "state.memory.schema.config.default_ttl_seconds.title",
        "state.memory.schema.config.default_ttl_seconds.description",
        "state.memory.qa.default.title",
        "state.memory.qa.setup.title",
        "state.memory.qa.upgrade.title",
        "state.memory.qa.remove.title",
        "state.memory.qa.setup.max_entries",
        "state.memory.qa.setup.default_ttl_seconds",
        "state.memory.flow.default.title",
        "state.memory.flow.default.config_summary",
    ];
    assert(r@ =~= i18n_key_seq());
    r
}

fn i18n_pair_list() -> (r: Vec<(&'static str, &'static str)>)
    ensures
        r@ == i18n_pair_seq(),
{
    let r = vec![
        ("state.memory.op.describe.title", "Describe"),
        ("state.memory.op.describe.description", "Describe in-memory state provider capabilities"),
        ("state.memory.schema.input.title", "State input"),
        ("state.memory.schema.input.description", "Input for in-memory state provider"),
        ("state.memory.schema.output.title", "State output"),
        ("state.memory.schema.output.description", "Result of in-memory state provider"),
        ("state.memory.schema.output.ok.title", "Success"),
        ("state.memory.schema.output.ok.description", "Whether the operation succeeded"),
        ("state.memory.schema.config.title", "Memory state config"),
        ("state.memory.schema.config.description", "In-memory state provider configuration"),
        ("state.memory.schema.config.max_entries.title", "Maximum Entries"),
        (
            "state.memory.schema.config.max_entries.description",
            "Maximum number of key-value entries to store (0 = unlimited)",
        ),
        ("state.memory.schema.config.default_ttl_seconds.title", "Default TTL (seconds)"),
        (
            "state.memory.schema.config.default_ttl_seconds.description",
            "Default time-to-live for entries in seconds (0 = no expiry)",
        ),
        ("state.memory.qa.default.title", "Default"),
        ("state.memory.qa.setup.title", "Setup"),
        ("state.memory.qa.upgrade.title", "Upgrade"),
        ("state.memory.qa.remove.title", "Remove"),
        ("state.memory.qa.setup.max_entries", "Maximum entries (0 = unlimited)"),
        ("state.memory.qa.setup.default_ttl_seconds", "Default TTL in seconds (0 = no expiry)"),
    ];
    assert(r@ =~= i18n_pair_seq());
    r
}

fn setup_question_list() -> (r: Vec<QaQuestionDef<'static>>)
    ensures
        r@ == setup_question_seq(),
{
    let r = vec![
        ("max_entries", "state.memory.qa.setup.max_entries", false),
        ("default_ttl_seconds", "state.memory.qa.setup.default_ttl_seconds", false),
    ];
    assert(r@ =~= setup_question_seq());
    r
}

fn default_key_list() -> (r: Vec<&'static str>)
    ensures
        r@ == default_key_seq(),
{
    let r: Vec<&'static str> = Vec::new();
    assert(r@ =~= default_key_seq());
    r
}

// ---------------------------------------------------------------------------
// Configuration
// ---------------------------------------------------------------------------

/// The provider configuration.
#[derive(Debug, Clone, Copy, PartialEq, Eq, Structural)]
pub struct MemoryConfig {
    pub max_entries: u32,
    pub default_ttl_seconds: u32,
}

/// The default number of entries.
pub fn default_max_entries() -> (r: u32)
    ensures
        r == 10000,
{
    10000
}

/// The configuration used when the answers carry none.
pub open spec fn default_config() -> MemoryConfig {
    MemoryConfig { max_entries: 10000, default_ttl_seconds: 0 }
}

pub fn default_config_out() -> (r: MemoryConfig)
    ensures
        r == default_config(),
{
    MemoryConfig { max_entries: 10000, default_ttl_seconds: 0 }
}

/// The configuration a JSON value holds, read as `serde` reads it.
pub open spec fn config_of(j: JV) -> Option<MemoryConfig> {
    let a = u32_field(j, 0, "max_entries"@, Some(10000u32));
    let b = u32_field(j, 1, "default_ttl_seconds"@, Some(0u32));
    if struct_shape(j, 2) && a is Some && b is Some {
        Some(MemoryConfig { max_entries: a->Some_0, default_ttl_seconds: b->Some_0 })
    } else {
        None
    }
}

pub open spec fn config_members(c: MemoryConfig) -> Seq<(Seq<char>, JV)> {
    seq![
        ("max_entries"@, JV::Number(NumV::PosInt(c.max_entries as u64))),
        ("default_ttl_seconds"@, JV::Number(NumV::PosInt(c.default_ttl_seconds as u64))),
    ]
}

impl MemoryConfig {
    /// Reads a configuration from JSON.
    pub fn from_json(j: &Json) -> (r: Option<MemoryConfig>)
        ensures
            r == config_of(j@),
    {
        let a = read_u32_field(j, 0, "max_entries", Some(default_max_entries()));
        let b = read_u32_field(j, 1, "default_ttl_seconds", Some(0));
        if struct_shape_ok(j, 2) {
            match (a, b) {
                (Some(x), Some(y)) => Some(MemoryConfig { max_entries: x, default_ttl_seconds: y }),
                _ => None,
            }
        } else {
            None
        }
    }
}

impl ConfigJson for MemoryConfig {
    open spec fn config_jv(&self) -> JV {
        JV::Object(config_members(*self))
    }

    fn to_json(&self) -> (r: Json) {
        let mut m: Vec<(String, Json)> = Vec::new();
        push_member(&mut m, "max_entries", Json::Number(JsonNumber::PosInt(self.max_entries as u64)));
        push_member(
            &mut m,
            "default_ttl_seconds",
            Json::Number(JsonNumber::PosInt(self.default_ttl_seconds as u64)),
        );
        assert(member_views(m@) =~= config_members(*self));
        Json::Object(m)
    }
}

// ---------------------------------------------------------------------------
// Answers
// ---------------------------------------------------------------------------

/// The configuration the answers start from: the one they carry, else the default.
pub open spec fn base_config(answers: JV) -> MemoryConfig {
    match existing_config_of(answers) {
        Some(v) => match config_of(v) {
            Some(c) => c,
            None => default_config(),
        },
        None => default_config(),
    }
}

/// A field keeps its value unless the answer for it parses as `u32`.
pub open spec fn answered_u32(answers: JV, key: Seq<char>, current: u32) -> u32 {
    match answer_u32(answers, key) {
        Some(v) => v,
        None => current,
    }
}

/// The merged configuration: in `default`, `setup` and `upgrade` mode the
/// answers that parse replace the fields they name.
pub open spec fn merged_config(mode: Seq<char>, answers: JV) -> MemoryConfig {
    let base = base_config(answers);
    if mode == "setup"@ || mode == "default"@ || mode == "upgrade"@ {
        MemoryConfig {
            max_entries: answered_u32(answers, "max_entries"@, base.max_entries),
            default_ttl_seconds: answered_u32(
                answers,
                "default_ttl_seconds"@,
                base.default_ttl_seconds,
            ),
        }
    } else {
        base
    }
}

/// The cleanup steps on remove.
pub open spec fn cleanup_seq() -> Seq<Seq<char>> {
    seq!["delete_config_key"@, "delete_provider_state_namespace"@]
}

/// The result of applying answers, as JSON.
pub open spec fn apply_result(mode: Seq<char>, answers_cbor: Seq<u8>) -> JV {
    match cbor_decoded(answers_cbor) {
        Err(e) => failure_jv("invalid answers cbor: "@ + e),
        Ok(answers) => if mode == "remove"@ {
            removal_jv(cleanup_seq())
        } else {
            success_jv(merged_config(mode, answers).config_jv())
        },
    }
}

fn set_if_answered(answers: &Json, key: &str, field: &mut u32)
    ensures
        *final(field) == answered_u32(answers@, key@, *old(field)),
{
    if let Some(v) = read_answer_u32(answers, key) {
        *field = v;
    }
}

fn merge_answers(mode: &str, answers: &Json) -> (r: MemoryConfig)
    ensures
        r == merged_config(mode@, answers@),
{
    let mut merged = match existing_config_from_answers(answers) {
        Some(v) => match MemoryConfig::from_json(&v) {
            Some(c) => c,
            None => default_config_out(),
        },
        None => default_config_out(),
    };
    if str_eq(mode, "setup") || str_eq(mode, "default") {
        set_if_answered(answers, "max_entries", &mut merged.max_entries);
        set_if_answered(answers, "default_ttl_seconds", &mut merged.default_ttl_seconds);
    }
    if str_eq(mode, "upgrade") {
        if has_answer_key(answers, "max_entries") {
            set_if_answered(answers, "max_entries", &mut merged.max_entries);
        }
        if has_answer_key(answers, "default_ttl_seconds") {
            set_if_answered(answers, "default_ttl_seconds", &mut merged.default_ttl_seconds);
        }
    }
    merged
}

/// Applies QA answers (CBOR) in a mode and returns the CBOR result.
pub fn apply_answers_impl(mode: &str, answers_cbor: Vec<u8>) -> (r: Vec<u8>)
    ensures
        r@ == cbor_bytes_of(apply_result(mode@, answers_cbor@)),
{
    let answers = match decode_cbor(answers_cbor.as_slice()) {
        Ok(value) => value,
        Err(err) => {
            let mut msg = copy_str("invalid answers cbor: ");
            msg.append(err.as_str());
            let res = ApplyAnswersResult::<MemoryConfig>::decode_error(msg);
            assert(views(res.diagnostics@) =~= Seq::empty());
            return canonical_cbor_bytes(&res.to_json());
        },
    };
    if str_eq(mode, "remove") {
        let mut cleanup: Vec<String> = Vec::new();
        cleanup.push(copy_str("delete_config_key"));
        cleanup.push(copy_str("delete_provider_state_namespace"));
        assert(views(cleanup@) =~= cleanup_seq());
        let res = ApplyAnswersResult::<MemoryConfig>::remove(cleanup);
        assert(views(res.diagnostics@) =~= Seq::empty());
        return canonical_cbor_bytes(&res.to_json());
    }
    let merged = merge_answers(mode, &answers);
    let res = ApplyAnswersResult::success(merged);
    assert(views(res.diagnostics@) =~= Seq::empty());
    canonical_cbor_bytes(&res.to_json())
}

/// Applies QA answers in a mode of the QA interface.
pub fn apply_answers(mode: QaMode, answers_cbor: Vec<u8>) -> (r: Vec<u8>)
    ensures
        r@ == cbor_bytes_of(apply_result(mode_text(mode), answers_cbor@)),
{
    apply_answers_impl(mode.as_str(), answers_cbor)
}

// ---------------------------------------------------------------------------
// Description and QA
// ---------------------------------------------------------------------------

pub open spec fn output_defs() -> Seq<(Seq<char>, bool, SchemaV)> {
    seq![
        (
            "ok"@,
            true,
            SchemaV::Bool {
                title: "state.memory.schema.output.ok.title"@,
                description: "state.memory.schema.output.ok.description"@,
            },
        ),
    ]
}

pub open spec fn config_defs() -> Seq<(Seq<char>, bool, SchemaV)> {
    seq![
        (
            "max_entries"@,
            false,
            SchemaV::String {
                title: "state.memory.schema.config.max_entries.title"@,
                description: "state.memory.schema.config.max_entries.description"@,
                format: None,
                secret: false,
            },
        ),
        (
            "default_ttl_seconds"@,
            false,
            SchemaV::String {
                title: "state.memory.schema.config.default_ttl_seconds.title"@,
                description: "state.memory.schema.config.default_ttl_seconds.description"@,
                format: None,
                secret: false,
            },
        ),
    ]
}

/// The input schema: an object with no fields.
pub fn input_schema() -> (r: SchemaIr)
    ensures
        schema_object(
            r@,
            "state.memory.schema.input.title"@,
            "state.memory.schema.input.description"@,
            Seq::empty(),
            false,
        ),
{
    let defs: Vec<(&str, bool, SchemaIr)> = Vec::new();
    assert(def_views(defs@) =~= Seq::empty());
    schema_obj("state.memory.schema.input.title", "state.memory.schema.input.description", defs, false)
}

/// The output schema: a required `ok` flag.
pub fn output_schema() -> (r: SchemaIr)
    ensures
        schema_object(
            r@,
            "state.memory.schema.output.title"@,
            "state.memory.schema.output.description"@,
            output_defs(),
            false,
        ),
{
    let mut defs: Vec<(&str, bool, SchemaIr)> = Vec::new();
    defs.push(
        (
            "ok",
            true,
            schema_bool_ir(
                "state.memory.schema.output.ok.title",
                "state.memory.schema.output.ok.description",
            ),
        ),
    );
    assert(def_views(defs@) =~= output_defs());
    schema_obj(
        "state.memory.schema.output.title",
        "state.memory.schema.output.description",
        defs,
        false,
    )
}

/// The configuration schema: the optional `max_entries` and
/// `default_ttl_seconds`.
pub fn config_schema() -> (r: SchemaIr)
    ensures
        schema_object(
            r@,
            "state.memory.schema.config.title"@,
            "state.memory.schema.config.description"@,
            config_defs(),
            false,
        ),
{
    let mut defs: Vec<(&str, bool, SchemaIr)> = Vec::new();
    defs.push(
        (
            "max_entries",
            false,
            schema_str(
                "state.memory.schema.config.max_entries.title",
                "state.memory.schema.config.max_entries.description",
            ),
        ),
    );
    defs.push(
        (
            "default_ttl_seconds",
            false,
            schema_str(
                "state.memory.schema.config.default_ttl_seconds.title",
                "state.memory.schema.config.default_ttl_seconds.description",
            ),
        ),
    );
    assert(def_views(defs@) =~= config_defs());
    schema_obj(
        "state.memory.schema.config.title",
        "state.memory.schema.config.description",
        defs,
        false,
    )
}

/// `p` is the provider's description: its identity, its one operation, its
/// schemas, its redactions, and the hash of its schemas.
pub open spec fn is_description(p: DescribePayload) -> bool {
    &&& p.provider@ == provider_id()
    &&& p.world@ == world_id()
    &&& p.operations@.len() == 1
    &&& p.operations@[0].name@ == "state.dispatch"@
    &&& p.operations@[0].title.key@ == "state.memory.op.describe.title"@
    &&& p.operations@[0].description.key@ == "state.memory.op.describe.description"@
    &&& schema_object(
        p.input_schema@,
        "state.memory.schema.input.title"@,
        "state.memory.schema.input.description"@,
        Seq::empty(),
        false,
    )
    &&& schema_object(
        p.output_schema@,
        "state.memory.schema.output.title"@,
        "state.memory.schema.output.description"@,
        output_defs(),
        false,
    )
    &&& schema_object(
        p.config_schema@,
        "state.memory.schema.config.title"@,
        "state.memory.schema.config.description"@,
        config_defs(),
        false,
    )
    &&& p.redactions@.len() == 0
    &&& p.schema_hash@ == hex_of(
        sha256_of(cbor_bytes_of(hash_material(p.input_schema@, p.output_schema@, p.config_schema@))),
    )
}

/// The provider's description.
pub fn build_describe_payload() -> (r: DescribePayload)
    ensures
        is_description(r),
{
    let input_schema = input_schema();
    let output_schema = output_schema();
    let config_schema = config_schema();
    let hash = schema_hash(&input_schema, &output_schema, &config_schema);
    let mut operations: Vec<OperationDescriptor> = Vec::new();
    operations.push(
        OperationDescriptor {
            name: copy_str("state.dispatch"),
            title: i18n("state.memory.op.describe.title"),
            description: i18n("state.memory.op.describe.description"),
        },
    );
    DescribePayload {
        provider: copy_str("state-provider-memory"),
        world: copy_str("component-v0-v6-v0"),
        operations,
        input_schema,
        output_schema,
        config_schema,
        redactions: Vec::new(),
        schema_hash: hash,
    }
}

/// The QA spec for a mode.
pub fn build_qa_spec(mode: QaMode) -> (r: QaSpec)
    ensures
        r@ == qa_spec_of(mode_text(mode), "state.memory"@, setup_question_seq(), default_key_seq()),
{
    let setup = setup_question_list();
    let keys = default_key_list();
    qa_spec_for_mode(mode.as_str(), "state.memory", setup.as_slice(), keys.as_slice())
}

/// The QA spec for a mode, as CBOR.
pub fn qa_spec(mode: QaMode) -> (r: Vec<u8>)
    ensures
        r@ == cbor_bytes_of(
            qa_spec_jv(qa_spec_of(mode_text(mode), "state.memory"@, setup_question_seq(), default_key_seq())),
        ),
{
    canonical_cbor_bytes(&build_qa_spec(mode).to_json())
}

/// The provider's i18n keys.
pub fn i18n_keys() -> (r: Vec<String>)
    ensures
        views(r@) == str_views(i18n_key_seq()),
{
    let keys = i18n_key_list();
    i18n_keys_from(keys.as_slice())
}

/// The provider's i18n bundle for a locale, as CBOR.
pub fn i18n_bundle(locale: String) -> (r: Vec<u8>)
    ensures
        r@ == cbor_bytes_of(bundle_jv(locale@, i18n_pair_seq())),
{
    let pairs = i18n_pair_list();
    i18n_bundle_from_pairs(locale, pairs.as_slice())
}

/// The description, as CBOR.
pub fn describe() -> (r: Vec<u8>)
    ensures
        exists|p: DescribePayload| is_description(p) && r@ == cbor_bytes_of(describe_jv(p)),
{
    canonical_cbor_bytes(&build_describe_payload().to_json())
}

/// The message of a runtime invoke, which this provider does not serve.
pub open spec fn runtime_message(op: Seq<char>) -> Seq<char> {
    "state-provider-memory: runtime invoke not supported for op '"@ + op
        + "'; state operations are dispatched natively by the operator"@
}

/// The runtime `invoke`: state operations are dispatched natively by the
/// operator, so every op answers an error, as CBOR.
pub fn invoke(op: &str, _input_cbor: Vec<u8>) -> (r: Vec<u8>)
    ensures
        r@ == cbor_bytes_of(error_jv(runtime_message(op@))),
{
    let mut msg = copy_str("state-provider-memory: runtime invoke not supported for op '");
    msg.append(op);
    msg.append("'; state operations are dispatched natively by the operator");
    canonical_cbor_bytes(&error_json(msg.as_str()))
}

/// The JSON answer to `schema-core-api invoke`: the QA operations, else an
/// `unsupported op` error.
pub open spec fn schema_core_response(op: Seq<char>, input: Seq<u8>) -> Seq<u8> {
    if op == "qa-spec"@ {
        qa_spec_response(input, "state.memory"@, setup_question_seq(), default_key_seq())
    } else if op == "apply-answers"@ {
        match parsed_json(input) {
            None => json_bytes_of(error_jv("invalid input json: "@ + json_error_of(input))),
            Some(v) => apply_response(
                cbor_bytes_of(apply_result(apply_mode(v), cbor_bytes_of(apply_payload(v)))),
            ),
        }
    } else if op == "i18n-keys"@ {
        i18n_keys_response(i18n_key_seq())
    } else if op == "i18n-bundle"@ {
        i18n_bundle_response(input, i18n_pair_seq())
    } else {
        json_bytes_of(error_jv("unsupported op: "@ + op))
    }
}

/// `schema-core-api invoke(op, input_json)`.
pub fn schema_core_invoke(op: &str, input_json: &[u8]) -> (r: Vec<u8>)
    ensures
        r@ == schema_core_response(op@, input_json@),
{
    let setup = setup_question_list();
    let default_keys = default_key_list();
    let keys = i18n_key_list();
    let pairs = i18n_pair_list();
    let res = dispatch_qa_ops_with_i18n(
        op,
        input_json,
        "state.memory",
        setup.as_slice(),
        default_keys.as_slice(),
        keys.as_slice(),
        pairs.as_slice(),
        apply_answers_impl,
    );
    match res {
        Some(b) => b,
        None => {
            let mut msg = copy_str("unsupported op: ");
            msg.append(op);
            json_bytes(&error_json(msg.as_str()))
        },
    }
}


// ---------------------------------------------------------------------------
// Laws
// ---------------------------------------------------------------------------

proof fn lemma_config_keys_differ()
    ensures
        "max_entries"@ != "default_ttl_seconds"@,
{
    reveal_strlit("max_entries");
    reveal_strlit("default_ttl_seconds");
    assert("max_entries"@.len() != "default_ttl_seconds"@.len());
}

/// Reading back the JSON that a configuration is written as gives the
/// configuration.
pub proof fn law_config_round_trip(c: MemoryConfig)
    ensures
        config_of(c.config_jv()) == Some(c),
{
    lemma_config_keys_differ();
    let m = config_members(c);
    crate::json::lemma_members_get_at(m, 0, "max_entries"@);
    crate::json::lemma_members_get_at(m, 1, "default_ttl_seconds"@);
    assert((c.max_entries as u64) as u32 == c.max_entries);
    assert((c.default_ttl_seconds as u64) as u32 == c.default_ttl_seconds);
}

/// Remove mode answers the cleanup steps whatever the answers hold.
pub proof fn law_remove_returns_cleanup(answers_cbor: Seq<u8>)
    requires
        cbor_decoded(answers_cbor) is Ok,
    ensures
        apply_result("remove"@, answers_cbor) == removal_jv(cleanup_seq()),
{
}

/// Upgrade mode keeps every field that the answers do not name.
pub proof fn law_upgrade_keeps_unanswered(answers: JV)
    ensures
        crate::json::jget(answers, "max_entries"@) is None ==> merged_config(
            "upgrade"@,
            answers,
        ).max_entries == base_config(answers).max_entries,
        crate::json::jget(answers, "default_ttl_seconds"@) is None ==> merged_config(
            "upgrade"@,
            answers,
        ).default_ttl_seconds == base_config(answers).default_ttl_seconds,
{
}

/// Upgrading with answers that name no field keeps the configuration carried
/// as `existing_config`.
pub proof fn law_upgrade_without_answers_keeps_existing(answers: JV, c: MemoryConfig)
    requires
        crate::json::jget(answers, "existing_config"@) == Some(c.config_jv()),
        crate::json::jget(answers, "max_entries"@) is None,
        crate::json::jget(answers, "default_ttl_seconds"@) is None,
    ensures
        merged_config("upgrade"@, answers) == c,
{
    law_config_round_trip(c);
}


/// In default, setup and upgrade mode, a field answered with text that
/// parses as `u32` takes that number, for each field; a field not answered
/// keeps the value of the configuration the answers start from.
pub proof fn law_parsed_answer_replaces_field(mode: Seq<char>, answers: JV, s: Seq<char>, v: u32)
    requires
        mode == "setup"@ || mode == "default"@ || mode == "upgrade"@,
        parse_u32_spec(s) == Some(v),
    ensures
        crate::json::jget_str(answers, "max_entries"@) == Some(s) ==> merged_config(
            mode,
            answers,
        ).max_entries == v,
        crate::json::jget_str(answers, "default_ttl_seconds"@) == Some(s) ==> merged_config(
            mode,
            answers,
        ).default_ttl_seconds == v,
        crate::json::jget(answers, "max_entries"@) is None ==> merged_config(mode, answers).max_entries
            == base_config(answers).max_entries,
        crate::json::jget(answers, "default_ttl_seconds"@) is None ==> merged_config(
            mode,
            answers,
        ).default_ttl_seconds == base_config(answers).default_ttl_seconds,
{
}

} // verus!
