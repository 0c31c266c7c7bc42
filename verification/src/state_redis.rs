//! The Redis state provider: its description, QA flow, configuration,
//! validation and answers.

use vstd::prelude::*;
use crate::codec::{cbor_decoded, json_bytes_of, json_error_of, parsed_json};
use crate::component::{
    canonical_cbor_bytes, cbor_bytes_of, decode_cbor, hash_material, schema_hash, hex_of, sha256_of,
    describe_jv, qa_spec_jv, DescribePayload, OperationDescriptor, QaSpec, RedactionRule, SchemaIr, SchemaV,
};
use crate::config_fields::{
    answer_bool, bool_field, has_answer_key, read_answer_bool, read_answer_u32, read_bool_field,
    read_str_field, read_u32_field, str_field, struct_shape, struct_shape_ok, u32_field,
};
use crate::helpers::{
    bundle_jv, def_views, error_jv, error_json, existing_config_from_answers, existing_config_of,
    i18n, i18n_bundle_from_pairs, i18n_keys_from, json_bytes, qa_spec_for_mode, qa_spec_of,
    schema_bool_ir, schema_obj, schema_object, schema_secret, schema_str, str_views,
    string_or_default, string_or_default_of, QaQuestionDef,
};
use crate::json::{jget, jget_str, member_views, push_member, Json, JsonNumber, NumV, JV};
use crate::qa_helpers::{
    failure_jv, mode_text, removal_jv, success_jv, ApplyAnswersResult, ConfigJson, QaMode,
};
use crate::qa_invoke_bridge::{
    apply_mode, apply_payload, apply_response, dispatch_qa_ops_with_i18n, i18n_bundle_response,
    i18n_keys_response, qa_spec_response,
};
use crate::state_memory::answered_u32;
use crate::text::{blank, copy_str, parse_u32_spec, starts_with, str_eq, trimmed, views};

verus! {

// ---------------------------------------------------------------------------
// Identity, keys and questions
// ---------------------------------------------------------------------------

pub open spec fn provider_id() -> Seq<char> {
    "state-provider-redis"@
}

pub open spec fn world_id() -> Seq<char> {
    "component-v0-v6-v0"@
}

/// The i18n keys of the provider.
pub open spec fn i18n_key_seq() -> Seq<&'static str> {
    seq![
        "state.redis.op.describe.title",
        "state.redis.op.describe.description",
        "state.redis.schema.input.title",
        "state.redis.schema.input.description",
        "state.redis.schema.output.title",
        "state.redis.schema.output.description",
        "state.redis.schema.output.ok.title",
        "state.redis.schema.output.ok.description",
        "state.redis.schema.config.title",
        "state.redis.schema.config.description",
        "state.redis.schema.config.redis_url.title",
        "state.redis.schema.config.redis_url.description",
        "state.redis.schema.config.redis_password.title",
        "state.redis.schema.config.redis_password.description",
        "state.redis.schema.config.redis_tls_enabled.title",
        "state.redis.schema.config.redis_tls_enabled.description",
        "state.redis.schema.config.key_prefix.title",
        "state.redis.schema.config.key_prefix.description",
        "state.redis.schema.config.default_ttl_seconds.title",
        "state.redis.schema.config.default_ttl_seconds.description",
        "state.redis.schema.config.connection_pool_size.title",
        "state.redis.schema.config.connection_pool_size.description",
        "state.redis.qa.default.title",
        "state.redis.qa.setup.title",
        "state.redis.qa.upgrade.title",
        "state.redis.qa.remove.title",
        "state.redis.qa.setup.redis_url",
        "state.redis.qa.setup.redis_password",
        "state.redis.qa.setup.redis_tls_enabled",
        "state.redis.qa.setup.key_prefix",
        "state.redis.qa.setup.default_ttl_seconds",
        "state.redis.qa.setup.connection_pool_size",
        "state.redis.flow.default.title",
        "state.redis.flow.default.config_summary",
        "state.redis.flow.update.title",
        "state.redis.flow.update.collect",
        "state.redis.flow.update.complete",
        "state.redis.flow.remove.title",
        "state.redis.flow.remove.check_state",
        "state.redis.flow.remove.complete",
    ]
}

/// The English texts of the provider's keys.
pub open spec fn i18n_pair_seq() -> Seq<(&'static str, &'static str)> {
    seq![
        ("state.redis.op.describe.title", "Describe"),
        ("state.redis.op.describe.description", "Describe Redis state provider capabilities"),
        ("state.redis.schema.input.title", "State input"),
        ("state.redis.schema.input.description", "Input for Redis state provider"),
        ("state.redis.schema.output.title", "State output"),
        ("state.redis.schema.output.description", "Result of Redis state provider"),
        ("state.redis.schema.output.ok.title", "Success"),
        ("state.redis.schema.output.ok.description", "Whether the operation succeeded"),
        ("state.redis.schema.config.title", "Redis state config"),
        ("state.redis.schema.config.description", "Redis state provider configuration"),
        ("state.redis.schema.config.redis_url.title", "Redis Connection URL"),
        ("state.redis.schema.config.redis_url.description", "Full Redis URL including host, port, and database (e.g. redis://localhost:6379/0)"),
        ("state.redis.schema.config.redis_password.title", "Redis Password"),
        ("state.redis.schema.config.redis_password.description", "Password for Redis authentication (optional)"),
        ("state.redis.schema.config.redis_tls_enabled.title", "Enable TLS"),
        ("state.redis.schema.config.redis_tls_enabled.description", "Enable TLS encryption for Redis connection"),
        ("state.redis.schema.config.key_prefix.title", "Key Prefix"),
        ("state.redis.schema.config.key_prefix.description", "Prefix for all Redis keys to avoid collisions (default: greentic)"),
        ("state.redis.schema.config.default_ttl_seconds.title", "Default TTL (seconds)"),
        ("state.redis.schema.config.default_ttl_seconds.description", "Default time-to-live for entries in seconds (0 = no expiry)"),
        ("state.redis.schema.config.connection_pool_size.title", "Connection Pool Size"),
        ("state.redis.schema.config.connection_pool_size.description", "Number of Redis connections in the pool (default: 5)"),
        ("state.redis.qa.default.title", "Default"),
        ("state.redis.qa.setup.title", "Setup"),
        ("state.redis.qa.upgrade.title", "Upgrade"),
        ("state.redis.qa.remove.title", "Remove"),
        ("state.redis.qa.setup.redis_url", "Redis connection URL"),
        ("state.redis.qa.setup.redis_password", "Redis password (optional)"),
        ("state.redis.qa.setup.redis_tls_enabled", "Enable TLS"),
        ("state.redis.qa.setup.key_prefix", "Key prefix (default: greentic)"),
        ("state.redis.qa.setup.default_ttl_seconds", "Default TTL in seconds (0 = no expiry)"),
        ("state.redis.qa.setup.connection_pool_size", "Connection pool size (default: 5)"),
    ]
}

/// The setup questions: `(key, text key, required)`.
pub open spec fn setup_question_seq() -> Seq<(&'static str, &'static str, bool)> {
    seq![
        ("redis_url", "state.redis.qa.setup.redis_url", true),
        ("redis_password", "state.redis.qa.setup.redis_password", false),
        ("redis_tls_enabled", "state.redis.qa.setup.redis_tls_enabled", false),
        ("key_prefix", "state.redis.qa.setup.key_prefix", false),
        ("default_ttl_seconds", "state.redis.qa.setup.default_ttl_seconds", false),
        ("connection_pool_size", "state.redis.qa.setup.connection_pool_size", false),
    ]
}

/// The keys asked in default mode.
pub open spec fn default_key_seq() -> Seq<&'static str> {
    seq!["redis_url"]
}

fn i18n_key_list() -> (r: Vec<&'static str>)
    ensures
        r@ == i18n_key_seq(),
{
    let r = vec![
        "state.redis.op.describe.title",
        "state.redis.op.describe.description",
        "state.redis.schema.input.title",
        "state.redis.schema.input.description",
        "state.redis.schema.output.title",
        "state.redis.schema.output.description",
        "state.redis.schema.output.ok.title",
        "state.redis.schema.output.ok.description",
        "state.redis.schema.config.title",
        "state.redis.schema.config.description",
        "state.redis.schema.config.redis_url.title",
        "state.redis.schema.config.redis_url.description",
        "state.redis.schema.config.redis_password.title",
        "state.redis.schema.config.redis_password.description",
        "state.redis.schema.config.redis_tls_enabled.title",
        "state.redis.schema.config.redis_tls_enabled.description",
        "state.redis.schema.config.key_prefix.title",
        "state.redis.schema.config.key_prefix.description",
        "state.redis.schema.config.default_ttl_seconds.title",
        "state.redis.schema.config.default_ttl_seconds.description",
        "state.redis.schema.config.connection_pool_size.title",
        "state.redis.schema.config.connection_pool_size.description",
        "state.redis.qa.default.title",
        "state.redis.qa.setup.title",
        "state.redis.qa.upgrade.title",
        "state.redis.qa.remove.title",
        "state.redis.qa.setup.redis_url",
        "state.redis.qa.setup.redis_password",
        "state.redis.qa.setup.redis_tls_enabled",
        "state.redis.qa.setup.key_prefix",
        "state.redis.qa.setup.default_ttl_seconds",
        "state.redis.qa.setup.connection_pool_size",
        "state.redis.flow.default.title",
        "state.redis.flow.default.config_summary",
        "state.redis.flow.update.title",
        "state.redis.flow.update.collect",
        "state.redis.flow.update.complete",
        "state.redis.flow.remove.title",
        "state.redis.flow.remove.check_state",
        "state.redis.flow.remove.complete",
    ];
    assert(r@ =~= i18n_key_seq());
    r
}

fn i18n_pair_list() -> (r: Vec<(&'static str, &'static str)>)
    ensures
        r@ == i18n_pair_seq(),
{
    let r = vec![
        ("state.redis.op.describe.title", "Describe"),
        ("state.redis.op.describe.description", "Describe Redis state provider capabilities"),
        ("state.redis.schema.input.title", "State input"),
        ("state.redis.schema.input.description", "Input for Redis state provider"),
        ("state.redis.schema.output.title", "State output"),
        ("state.redis.schema.output.description", "Result of Redis state provider"),
        ("state.redis.schema.output.ok.title", "Success"),
        ("state.redis.schema.output.ok.description", "Whether the operation succeeded"),
        ("state.redis.schema.config.title", "Redis state config"),
        ("state.redis.schema.config.description", "Redis state provider configuration"),
        ("state.redis.schema.config.redis_url.title", "Redis Connection URL"),
        ("state.redis.schema.config.redis_url.description", "Full Redis URL including host, port, and database (e.g. redis://localhost:6379/0)"),
        ("state.redis.schema.config.redis_password.title", "Redis Password"),
        ("state.redis.schema.config.redis_password.description", "Password for Redis authentication (optional)"),
        ("state.redis.schema.config.redis_tls_enabled.title", "Enable TLS"),
        ("state.redis.schema.config.redis_tls_enabled.description", "Enable TLS encryption for Redis connection"),
        ("state.redis.schema.config.key_prefix.title", "Key Prefix"),
        ("state.redis.schema.config.key_prefix.description", "Prefix for all Redis keys to avoid collisions (default: greentic)"),
        ("state.redis.schema.config.default_ttl_seconds.title", "Default TTL (seconds)"),
        ("state.redis.schema.config.default_ttl_seconds.description", "Default time-to-live for entries in seconds (0 = no expiry)"),
        ("state.redis.schema.config.connection_pool_size.title", "Connection Pool Size"),
        ("state.redis.schema.config.connection_pool_size.description", "Number of Redis connections in the pool (default: 5)"),
        ("state.redis.qa.default.title", "Default"),
        ("state.redis.qa.setup.title", "Setup"),
        ("state.redis.qa.upgrade.title", "Upgrade"),
        ("state.redis.qa.remove.title", "Remove"),
        ("state.redis.qa.setup.redis_url", "Redis connection URL"),
        ("state.redis.qa.setup.redis_password", "Redis password (optional)"),
        ("state.redis.qa.setup.redis_tls_enabled", "Enable TLS"),
        ("state.redis.qa.setup.key_prefix", "Key prefix (default: greentic)"),
        ("state.redis.qa.setup.default_ttl_seconds", "Default TTL in seconds (0 = no expiry)"),
        ("state.redis.qa.setup.connection_pool_size", "Connection pool size (default: 5)"),
    ];
    assert(r@ =~= i18n_pair_seq());
    r
}

fn setup_question_list() -> (r: Vec<QaQuestionDef<'static>>)
    ensures
        r@ == setup_question_seq(),
{
    let r = vec![
        ("redis_url", "state.redis.qa.setup.redis_url", true),
        ("redis_password", "state.redis.qa.setup.redis_password", false),
        ("redis_tls_enabled", "state.redis.qa.setup.redis_tls_enabled", false),
        ("key_prefix", "state.redis.qa.setup.key_prefix", false),
        ("default_ttl_seconds", "state.redis.qa.setup.default_ttl_seconds", false),
        ("connection_pool_size", "state.redis.qa.setup.connection_pool_size", false),
    ];
    assert(r@ =~= setup_question_seq());
    r
}

fn default_key_list() -> (r: Vec<&'static str>)
    ensures
        r@ == default_key_seq(),
{
    let r = vec!["redis_url"];
    assert(r@ =~= default_key_seq());
    r
}

// ---------------------------------------------------------------------------
// Configuration
// ---------------------------------------------------------------------------

/// The provider configuration.
#[derive(Debug, Clone)]
pub struct RedisConfig {
    pub redis_url: String,
    pub redis_password: String,
    pub redis_tls_enabled: bool,
    pub key_prefix: String,
    pub default_ttl_seconds: u32,
    pub connection_pool_size: u32,
}

pub struct RedisConfigV {
    pub redis_url: Seq<char>,
    pub redis_password: Seq<char>,
    pub redis_tls_enabled: bool,
    pub key_prefix: Seq<char>,
    pub default_ttl_seconds: u32,
    pub connection_pool_size: u32,
}

impl View for RedisConfig {
    type V = RedisConfigV;

    open spec fn view(&self) -> RedisConfigV {
        RedisConfigV {
            redis_url: self.redis_url@,
            redis_password: self.redis_password@,
            redis_tls_enabled: self.redis_tls_enabled,
            key_prefix: self.key_prefix@,
            default_ttl_seconds: self.default_ttl_seconds,
            connection_pool_size: self.connection_pool_size,
        }
    }
}

/// The default key prefix.
pub fn default_key_prefix() -> (r: String)
    ensures
        r@ == "greentic"@,
{
    copy_str("greentic")
}

/// The default connection pool size.
pub fn default_pool_size() -> (r: u32)
    ensures
        r == 5,
{
    5
}

/// The configuration used when the answers carry none.
pub open spec fn default_config() -> RedisConfigV {
    RedisConfigV {
        redis_url: Seq::empty(),
        redis_password: Seq::empty(),
        redis_tls_enabled: false,
        key_prefix: "greentic"@,
        default_ttl_seconds: 0,
        connection_pool_size: 5,
    }
}

pub fn default_config_out() -> (r: RedisConfig)
    ensures
        r@ == default_config(),
{
    let r = RedisConfig {
        redis_url: String::new(),
        redis_password: String::new(),
        redis_tls_enabled: false,
        key_prefix: default_key_prefix(),
        default_ttl_seconds: 0,
        connection_pool_size: default_pool_size(),
    };
    assert(r.redis_url@ =~= Seq::empty());
    r
}

/// The configuration a JSON value holds, read as `serde` reads it: the URL
/// is required, the other fields have defaults.
pub open spec fn config_of(j: JV) -> Option<RedisConfigV> {
    let url = str_field(j, 0, "redis_url"@, None);
    let password = str_field(j, 1, "redis_password"@, Some(Seq::empty()));
    let tls = bool_field(j, 2, "redis_tls_enabled"@, Some(false));
    let prefix = str_field(j, 3, "key_prefix"@, Some("greentic"@));
    let ttl = u32_field(j, 4, "default_ttl_seconds"@, Some(0u32));
    let pool = u32_field(j, 5, "connection_pool_size"@, Some(5u32));
    if struct_shape(j, 6) && url is Some && password is Some && tls is Some && prefix is Some
        && ttl is Some && pool is Some {
        Some(
            RedisConfigV {
                redis_url: url->Some_0,
                redis_password: password->Some_0,
                redis_tls_enabled: tls->Some_0,
                key_prefix: prefix->Some_0,
                default_ttl_seconds: ttl->Some_0,
                connection_pool_size: pool->Some_0,
            },
        )
    } else {
        None
    }
}

pub open spec fn config_members(c: RedisConfigV) -> Seq<(Seq<char>, JV)> {
    seq![
        ("redis_url"@, JV::Str(c.redis_url)),
        ("redis_password"@, JV::Str(c.redis_password)),
        ("redis_tls_enabled"@, JV::Bool(c.redis_tls_enabled)),
        ("key_prefix"@, JV::Str(c.key_prefix)),
        ("default_ttl_seconds"@, JV::Number(NumV::PosInt(c.default_ttl_seconds as u64))),
        ("connection_pool_size"@, JV::Number(NumV::PosInt(c.connection_pool_size as u64))),
    ]
}

/// The JSON object of a configuration.
pub open spec fn config_jv(c: RedisConfigV) -> JV {
    JV::Object(config_members(c))
}

impl RedisConfig {
    /// Reads a configuration from JSON.
    pub fn from_json(j: &Json) -> (r: Option<RedisConfig>)
        ensures
            match r {
                Some(c) => config_of(j@) == Some(c@),
                None => config_of(j@) is None,
            },
    {
        let url = read_str_field(j, 0, "redis_url", None);
        let empty = String::new();
        assert(empty@ =~= Seq::<char>::empty());
        let password = read_str_field(j, 1, "redis_password", Some(empty));
        let tls = read_bool_field(j, 2, "redis_tls_enabled", Some(false));
        let prefix = read_str_field(j, 3, "key_prefix", Some(default_key_prefix()));
        let ttl = read_u32_field(j, 4, "default_ttl_seconds", Some(0));
        let pool = read_u32_field(j, 5, "connection_pool_size", Some(default_pool_size()));
        if struct_shape_ok(j, 6) {
            match (url, password, tls, prefix, ttl, pool) {
                (Some(u), Some(p), Some(t), Some(k), Some(d), Some(c)) => Some(
                    RedisConfig {
                        redis_url: u,
                        redis_password: p,
                        redis_tls_enabled: t,
                        key_prefix: k,
                        default_ttl_seconds: d,
                        connection_pool_size: c,
                    },
                ),
                _ => None,
            }
        } else {
            None
        }
    }
}

impl ConfigJson for RedisConfig {
    open spec fn config_jv(&self) -> JV {
        config_jv(self@)
    }

    fn to_json(&self) -> (r: Json) {
        let mut m: Vec<(String, Json)> = Vec::new();
        push_member(&mut m, "redis_url", Json::Str(self.redis_url.clone()));
        push_member(&mut m, "redis_password", Json::Str(self.redis_password.clone()));
        push_member(&mut m, "redis_tls_enabled", Json::Bool(self.redis_tls_enabled));
        push_member(&mut m, "key_prefix", Json::Str(self.key_prefix.clone()));
        push_member(
            &mut m,
            "default_ttl_seconds",
            Json::Number(JsonNumber::PosInt(self.default_ttl_seconds as u64)),
        );
        push_member(
            &mut m,
            "connection_pool_size",
            Json::Number(JsonNumber::PosInt(self.connection_pool_size as u64)),
        );
        assert(member_views(m@) =~= config_members(self@));
        Json::Object(m)
    }
}

/// The validation error for a configuration, if any: the URL must be given
/// and use the `redis://` or `rediss://` scheme.
pub open spec fn validation_error_of(c: RedisConfigV) -> Option<Seq<char>> {
    if trimmed(c.redis_url).len() == 0 {
        Some("config validation failed: redis_url is required"@)
    } else if !("redis://"@.is_prefix_of(c.redis_url) || "rediss://"@.is_prefix_of(c.redis_url)) {
        Some("config validation failed: redis_url must start with redis:// or rediss://"@)
    } else {
        None
    }
}

/// Checks a configuration.
pub fn validate_config_out(config: &RedisConfig) -> (r: Result<(), String>)
    ensures
        match r {
            Ok(()) => validation_error_of(config@) is None,
            Err(e) => validation_error_of(config@) == Some(e@),
        },
{
    if blank(config.redis_url.as_str()) {
        return Err(copy_str("config validation failed: redis_url is required"));
    }
    let plain = starts_with(config.redis_url.as_str(), "redis://");
    let tls = starts_with(config.redis_url.as_str(), "rediss://");
    assert(plain == "redis://"@.is_prefix_of(config.redis_url@));
    assert(tls == "rediss://"@.is_prefix_of(config.redis_url@));
    if !(plain || tls) {
        return Err(
            copy_str("config validation failed: redis_url must start with redis:// or rediss://"),
        );
    }
    Ok(())
}

// ---------------------------------------------------------------------------
// Answers
// ---------------------------------------------------------------------------

/// The configuration the answers start from: the one they carry, else the default.
pub open spec fn base_config(answers: JV) -> RedisConfigV {
    match existing_config_of(answers) {
        Some(v) => match config_of(v) {
            Some(c) => c,
            None => default_config(),
        },
        None => default_config(),
    }
}

/// A flag keeps its value unless answered.
pub open spec fn answered_bool(answers: JV, key: Seq<char>, current: bool) -> bool {
    match answer_bool(answers, key) {
        Some(v) => v,
        None => current,
    }
}

/// The merged configuration: in `default`, `setup` and `upgrade` mode the
/// answers replace the fields they name (non-blank strings, trimmed; flags;
/// numbers that parse).
pub open spec fn merged_config(mode: Seq<char>, answers: JV) -> RedisConfigV {
    let base = base_config(answers);
    if mode == "setup"@ || mode == "default"@ || mode == "upgrade"@ {
        RedisConfigV {
            redis_url: string_or_default_of(answers, "redis_url"@, base.redis_url),
            redis_password: string_or_default_of(answers, "redis_password"@, base.redis_password),
            redis_tls_enabled: answered_bool(answers, "redis_tls_enabled"@, base.redis_tls_enabled),
            key_prefix: string_or_default_of(answers, "key_prefix"@, base.key_prefix),
            default_ttl_seconds: answered_u32(
                answers,
                "default_ttl_seconds"@,
                base.default_ttl_seconds,
            ),
            connection_pool_size: answered_u32(
                answers,
                "connection_pool_size"@,
                base.connection_pool_size,
            ),
        }
    } else {
        base
    }
}

/// The cleanup steps on remove.
pub open spec fn cleanup_seq() -> Seq<Seq<char>> {
    seq![
        "delete_config_key"@,
        "delete_provenance_key"@,
        "delete_provider_state_namespace"@,
        "best_effort_revoke_tokens"@,
    ]
}

/// The result of applying answers, as JSON.
pub open spec fn apply_result(mode: Seq<char>, answers_cbor: Seq<u8>) -> JV {
    match cbor_decoded(answers_cbor) {
        Err(e) => failure_jv("invalid answers cbor: "@ + e),
        Ok(answers) => if mode == "remove"@ {
            removal_jv(cleanup_seq())
        } else {
            match validation_error_of(merged_config(mode, answers)) {
                Some(e) => failure_jv(e),
                None => success_jv(config_jv(merged_config(mode, answers))),
            }
        },
    }
}

fn set_string(answers: &Json, key: &str, field: &mut String)
    ensures
        final(field)@ == string_or_default_of(answers@, key@, old(field)@),
{
    let v = string_or_default(answers, key, field.as_str());
    *field = v;
}

fn set_u32(answers: &Json, key: &str, field: &mut u32)
    ensures
        *final(field) == answered_u32(answers@, key@, *old(field)),
{
    if let Some(v) = read_answer_u32(answers, key) {
        *field = v;
    }
}

fn set_bool(answers: &Json, key: &str, field: &mut bool)
    ensures
        *final(field) == answered_bool(answers@, key@, *old(field)),
{
    if let Some(v) = read_answer_bool(answers, key) {
        *field = v;
    }
}

fn merge_answers(mode: &str, answers: &Json) -> (r: RedisConfig)
    ensures
        r@ == merged_config(mode@, answers@),
{
    let mut merged = match existing_config_from_answers(answers) {
        Some(v) => match RedisConfig::from_json(&v) {
            Some(c) => c,
            None => default_config_out(),
        },
        None => default_config_out(),
    };
    if str_eq(mode, "setup") || str_eq(mode, "default") {
        set_string(answers, "redis_url", &mut merged.redis_url);
        set_string(answers, "redis_password", &mut merged.redis_password);
        set_bool(answers, "redis_tls_enabled", &mut merged.redis_tls_enabled);
        set_string(answers, "key_prefix", &mut merged.key_prefix);
        set_u32(answers, "default_ttl_seconds", &mut merged.default_ttl_seconds);
        set_u32(answers, "connection_pool_size", &mut merged.connection_pool_size);
    }
    if str_eq(mode, "upgrade") {
        if has_answer_key(answers, "redis_url") {
            set_string(answers, "redis_url", &mut merged.redis_url);
        }
        if has_answer_key(answers, "redis_password") {
            set_string(answers, "redis_password", &mut merged.redis_password);
        }
        if has_answer_key(answers, "redis_tls_enabled") {
            set_bool(answers, "redis_tls_enabled", &mut merged.redis_tls_enabled);
        }
        if has_answer_key(answers, "key_prefix") {
            set_string(answers, "key_prefix", &mut merged.key_prefix);
        }
        if has_answer_key(answers, "default_ttl_seconds") {
            set_u32(answers, "default_ttl_seconds", &mut merged.default_ttl_seconds);
        }
        if has_answer_key(answers, "connection_pool_size") {
            set_u32(answers, "connection_pool_size", &mut merged.connection_pool_size);
        }
    }
    merged
}

/// Applies QA answers (CBOR) in a mode and returns the CBOR result.
pub fn apply_answers_impl(mode: &str, answers_cbor: Vec<u8>) -> (r: Vec<u8>)
    ensures
        r@ == cbor_bytes_of(apply_result(mode@, answers_cbor@)),
{
    let answers = match decode_cbor(answers_cbor.as_slice()) {
        Ok(value) => value,
        Err(err) => {
            let mut msg = copy_str("invalid answers cbor: ");
            msg.append(err.as_str());
            let res = ApplyAnswersResult::<RedisConfig>::decode_error(msg);
            assert(views(res.diagnostics@) =~= Seq::empty());
            return canonical_cbor_bytes(&res.to_json());
        },
    };
    if str_eq(mode, "remove") {
        let mut cleanup: Vec<String> = Vec::new();
        cleanup.push(copy_str("delete_config_key"));
        cleanup.push(copy_str("delete_provenance_key"));
        cleanup.push(copy_str("delete_provider_state_namespace"));
        cleanup.push(copy_str("best_effort_revoke_tokens"));
        assert(views(cleanup@) =~= cleanup_seq());
        let res = ApplyAnswersResult::<RedisConfig>::remove(cleanup);
        assert(views(res.diagnostics@) =~= Seq::empty());
        return canonical_cbor_bytes(&res.to_json());
    }
    let merged = merge_answers(mode, &answers);
    if let Err(error) = validate_config_out(&merged) {
        let res = ApplyAnswersResult::<RedisConfig>::validation_error(error);
        assert(views(res.diagnostics@) =~= Seq::empty());
        return canonical_cbor_bytes(&res.to_json());
    }
    let res = ApplyAnswersResult::success(merged);
    assert(views(res.diagnostics@) =~= Seq::empty());
    canonical_cbor_bytes(&res.to_json())
}

/// Applies QA answers in a mode of the QA interface.
pub fn apply_answers(mode: QaMode, answers_cbor: Vec<u8>) -> (r: Vec<u8>)
    ensures
        r@ == cbor_bytes_of(apply_result(mode_text(mode), answers_cbor@)),
{
    apply_answers_impl(mode.as_str(), answers_cbor)
}

// ---------------------------------------------------------------------------
// Description and QA
// ---------------------------------------------------------------------------

pub open spec fn output_defs() -> Seq<(Seq<char>, bool, SchemaV)> {
    seq![
        (
            "ok"@,
            true,
            SchemaV::Bool {
                title: "state.redis.schema.output.ok.title"@,
                description: "state.redis.schema.output.ok.description"@,
            },
        ),
    ]
}

pub open spec fn string_def(name: Seq<char>, required: bool, title: Seq<char>, desc: Seq<char>, secret: bool) -> (Seq<char>, bool, SchemaV) {
    (name, required, SchemaV::String { title, description: desc, format: None, secret })
}

pub open spec fn config_defs() -> Seq<(Seq<char>, bool, SchemaV)> {
    seq![
        string_def(
            "redis_url"@,
            true,
            "state.redis.schema.config.redis_url.title"@,
            "state.redis.schema.config.redis_url.description"@,
            true,
        ),
        string_def(
            "redis_password"@,
            false,
            "state.redis.schema.config.redis_password.title"@,
            "state.redis.schema.config.redis_password.description"@,
            true,
        ),
        (
            "redis_tls_enabled"@,
            false,
            SchemaV::Bool {
                title: "state.redis.schema.config.redis_tls_enabled.title"@,
                description: "state.redis.schema.config.redis_tls_enabled.description"@,
            },
        ),
        string_def(
            "key_prefix"@,
            false,
            "state.redis.schema.config.key_prefix.title"@,
            "state.redis.schema.config.key_prefix.description"@,
            false,
        ),
        string_def(
            "default_ttl_seconds"@,
            false,
            "state.redis.schema.config.default_ttl_seconds.title"@,
            "state.redis.schema.config.default_ttl_seconds.description"@,
            false,
        ),
        string_def(
            "connection_pool_size"@,
            false,
            "state.redis.schema.config.connection_pool_size.title"@,
            "state.redis.schema.config.connection_pool_size.description"@,
            false,
        ),
    ]
}

/// The input schema: an object with no fields.
pub fn input_schema() -> (r: SchemaIr)
    ensures
        schema_object(
            r@,
            "state.redis.schema.input.title"@,
            "state.redis.schema.input.description"@,
            Seq::empty(),
            false,
        ),
{
    let defs: Vec<(&str, bool, SchemaIr)> = Vec::new();
    assert(def_views(defs@) =~= Seq::empty());
    schema_obj("state.redis.schema.input.title", "state.redis.schema.input.description", defs, false)
}

/// The output schema: a required `ok` flag.
pub fn output_schema() -> (r: SchemaIr)
    ensures
        schema_object(
            r@,
            "state.redis.schema.output.title"@,
            "state.redis.schema.output.description"@,
            output_defs(),
            false,
        ),
{
    let mut defs: Vec<(&str, bool, SchemaIr)> = Vec::new();
    defs.push(
        (
            "ok",
            true,
            schema_bool_ir(
                "state.redis.schema.output.ok.title",
                "state.redis.schema.output.ok.description",
            ),
        ),
    );
    assert(def_views(defs@) =~= output_defs());
    schema_obj(
        "state.redis.schema.output.title",
        "state.redis.schema.output.description",
        defs,
        false,
    )
}

/// The configuration schema: the required secret URL, the secret password,
/// the TLS flag, the key prefix, the TTL and the pool size.
pub fn config_schema() -> (r: SchemaIr)
    ensures
        schema_object(
            r@,
            "state.redis.schema.config.title"@,
            "state.redis.schema.config.description"@,
            config_defs(),
            false,
        ),
{
    let mut defs: Vec<(&str, bool, SchemaIr)> = Vec::new();
    defs.push(
        (
            "redis_url",
            true,
            schema_secret(
                "state.redis.schema.config.redis_url.title",
                "state.redis.schema.config.redis_url.description",
            ),
        ),
    );
    defs.push(
        (
            "redis_password",
            false,
            schema_secret(
                "state.redis.schema.config.redis_password.title",
                "state.redis.schema.config.redis_password.description",
            ),
        ),
    );
    defs.push(
        (
            "redis_tls_enabled",
            false,
            schema_bool_ir(
                "state.redis.schema.config.redis_tls_enabled.title",
                "state.redis.schema.config.redis_tls_enabled.description",
            ),
        ),
    );
    defs.push(
        (
            "key_prefix",
            false,
            schema_str(
                "state.redis.schema.config.key_prefix.title",
                "state.redis.schema.config.key_prefix.description",
            ),
        ),
    );
    defs.push(
        (
            "default_ttl_seconds",
            false,
            schema_str(
                "state.redis.schema.config.default_ttl_seconds.title",
                "state.redis.schema.config.default_ttl_seconds.description",
            ),
        ),
    );
    defs.push(
        (
            "connection_pool_size",
            false,
            schema_str(
                "state.redis.schema.config.connection_pool_size.title",
                "state.redis.schema.config.connection_pool_size.description",
            ),
        ),
    );
    assert(def_views(defs@) =~= config_defs());
    schema_obj(
        "state.redis.schema.config.title",
        "state.redis.schema.config.description",
        defs,
        false,
    )
}

/// The redactions of the description: the password and the URL are replaced.
pub open spec fn redaction_seq() -> Seq<(Seq<char>, Seq<char>)> {
    seq![("$.redis_password"@, "replace"@), ("$.redis_url"@, "replace"@)]
}

/// `p` is the provider's description: its identity, its one operation, its
/// schemas, its redactions, and the hash of its schemas.
pub open spec fn is_description(p: DescribePayload) -> bool {
    &&& p.provider@ == provider_id()
    &&& p.world@ == world_id()
    &&& p.operations@.len() == 1
    &&& p.operations@[0].name@ == "state.dispatch"@
    &&& p.operations@[0].title.key@ == "state.redis.op.describe.title"@
    &&& p.operations@[0].description.key@ == "state.redis.op.describe.description"@
    &&& schema_object(
        p.input_schema@,
        "state.redis.schema.input.title"@,
        "state.redis.schema.input.description"@,
        Seq::empty(),
        false,
    )
    &&& schema_object(
        p.output_schema@,
        "state.redis.schema.output.title"@,
        "state.redis.schema.output.description"@,
        output_defs(),
        false,
    )
    &&& schema_object(
        p.config_schema@,
        "state.redis.schema.config.title"@,
        "state.redis.schema.config.description"@,
        config_defs(),
        false,
    )
    &&& p.redactions@.map_values(|x: RedactionRule| (x.path@, x.strategy@)) == redaction_seq()
    &&& p.schema_hash@ == hex_of(
        sha256_of(cbor_bytes_of(hash_material(p.input_schema@, p.output_schema@, p.config_schema@))),
    )
}

/// The provider's description.
pub fn build_describe_payload() -> (r: DescribePayload)
    ensures
        is_description(r),
{
    let input_schema = input_schema();
    let output_schema = output_schema();
    let config_schema = config_schema();
    let hash = schema_hash(&input_schema, &output_schema, &config_schema);
    let mut operations: Vec<OperationDescriptor> = Vec::new();
    operations.push(
        OperationDescriptor {
            name: copy_str("state.dispatch"),
            title: i18n("state.redis.op.describe.title"),
            description: i18n("state.redis.op.describe.description"),
        },
    );
    let mut redactions: Vec<RedactionRule> = Vec::new();
    redactions.push(
        RedactionRule { path: copy_str("$.redis_password"), strategy: copy_str("replace") },
    );
    redactions.push(RedactionRule { path: copy_str("$.redis_url"), strategy: copy_str("replace") });
    assert(redactions@.map_values(|x: RedactionRule| (x.path@, x.strategy@)) =~= redaction_seq());
    DescribePayload {
        provider: copy_str("state-provider-redis"),
        world: copy_str("component-v0-v6-v0"),
        operations,
        input_schema,
        output_schema,
        config_schema,
        redactions,
        schema_hash: hash,
    }
}

/// The QA spec for a mode.
pub fn build_qa_spec(mode: QaMode) -> (r: QaSpec)
    ensures
        r@ == qa_spec_of(mode_text(mode), "state.redis"@, setup_question_seq(), default_key_seq()),
{
    let setup = setup_question_list();
    let keys = default_key_list();
    qa_spec_for_mode(mode.as_str(), "state.redis", setup.as_slice(), keys.as_slice())
}

/// The QA spec for a mode, as CBOR.
pub fn qa_spec(mode: QaMode) -> (r: Vec<u8>)
    ensures
        r@ == cbor_bytes_of(
            qa_spec_jv(qa_spec_of(mode_text(mode), "state.redis"@, setup_question_seq(), default_key_seq())),
        ),
{
    canonical_cbor_bytes(&build_qa_spec(mode).to_json())
}

/// The provider's i18n keys.
pub fn i18n_keys() -> (r: Vec<String>)
    ensures
        views(r@) == str_views(i18n_key_seq()),
{
    let keys = i18n_key_list();
    i18n_keys_from(keys.as_slice())
}

/// The provider's i18n bundle for a locale, as CBOR.
pub fn i18n_bundle(locale: String) -> (r: Vec<u8>)
    ensures
        r@ == cbor_bytes_of(bundle_jv(locale@, i18n_pair_seq())),
{
    let pairs = i18n_pair_list();
    i18n_bundle_from_pairs(locale, pairs.as_slice())
}

/// The description, as CBOR.
pub fn describe() -> (r: Vec<u8>)
    ensures
        exists|p: DescribePayload| is_description(p) && r@ == cbor_bytes_of(describe_jv(p)),
{
    canonical_cbor_bytes(&build_describe_payload().to_json())
}

/// The message of a runtime invoke, which this provider does not serve.
pub open spec fn runtime_message(op: Seq<char>) -> Seq<char> {
    "state-provider-redis: runtime invoke not supported for op '"@ + op
        + "'; state operations are dispatched natively by the operator"@
}

/// The runtime `invoke`: state operations are dispatched natively by the
/// operator, so every op answers an error, as CBOR.
pub fn invoke(op: &str, _input_cbor: Vec<u8>) -> (r: Vec<u8>)
    ensures
        r@ == cbor_bytes_of(error_jv(runtime_message(op@))),
{
    let mut msg = copy_str("state-provider-redis: runtime invoke not supported for op '");
    msg.append(op);
    msg.append("'; state operations are dispatched natively by the operator");
    canonical_cbor_bytes(&error_json(msg.as_str()))
}

/// The JSON answer to `schema-core-api invoke`: the QA operations, else an
/// `unsupported op` error.
pub open spec fn schema_core_response(op: Seq<char>, input: Seq<u8>) -> Seq<u8> {
    if op == "qa-spec"@ {
        qa_spec_response(input, "state.redis"@, setup_question_seq(), default_key_seq())
    } else if op == "apply-answers"@ {
        match parsed_json(input) {
            None => json_bytes_of(error_jv("invalid input json: "@ + json_error_of(input))),
            Some(v) => apply_response(
                cbor_bytes_of(apply_result(apply_mode(v), cbor_bytes_of(apply_payload(v)))),
            ),
        }
    } else if op == "i18n-keys"@ {
        i18n_keys_response(i18n_key_seq())
    } else if op == "i18n-bundle"@ {
        i18n_bundle_response(input, i18n_pair_seq())
    } else {
        json_bytes_of(error_jv("unsupported op: "@ + op))
    }
}

/// `schema-core-api invoke(op, input_json)`.
pub fn schema_core_invoke(op: &str, input_json: &[u8]) -> (r: Vec<u8>)
    ensures
        r@ == schema_core_response(op@, input_json@),
{
    let setup = setup_question_list();
    let default_keys = default_key_list();
    let keys = i18n_key_list();
    let pairs = i18n_pair_list();
    let res = dispatch_qa_ops_with_i18n(
        op,
        input_json,
        "state.redis",
        setup.as_slice(),
        default_keys.as_slice(),
        keys.as_slice(),
        pairs.as_slice(),
        apply_answers_impl,
    );
    match res {
        Some(b) => b,
        None => {
            let mut msg = copy_str("unsupported op: ");
            msg.append(op);
            json_bytes(&error_json(msg.as_str()))
        },
    }
}


// ---------------------------------------------------------------------------
// Laws
// ---------------------------------------------------------------------------

proof fn lemma_config_keys_differ()
    ensures
        "redis_url"@.len() == 9,
        "redis_password"@.len() == 14,
        "redis_tls_enabled"@.len() == 17,
        "key_prefix"@.len() == 10,
        "default_ttl_seconds"@.len() == 19,
        "connection_pool_size"@.len() == 20,
{
    reveal_strlit("redis_url");
    reveal_strlit("redis_password");
    reveal_strlit("redis_tls_enabled");
    reveal_strlit("key_prefix");
    reveal_strlit("default_ttl_seconds");
    reveal_strlit("connection_pool_size");
}

/// Reading back the JSON that a configuration is written as gives the
/// configuration.
pub proof fn law_config_round_trip(c: RedisConfigV)
    ensures
        config_of(config_jv(c)) == Some(c),
{
    lemma_config_keys_differ();
    let m = config_members(c);
    crate::json::lemma_members_get_at(m, 0, "redis_url"@);
    crate::json::lemma_members_get_at(m, 1, "redis_password"@);
    crate::json::lemma_members_get_at(m, 2, "redis_tls_enabled"@);
    crate::json::lemma_members_get_at(m, 3, "key_prefix"@);
    crate::json::lemma_members_get_at(m, 4, "default_ttl_seconds"@);
    crate::json::lemma_members_get_at(m, 5, "connection_pool_size"@);
    assert((c.default_ttl_seconds as u64) as u32 == c.default_ttl_seconds);
    assert((c.connection_pool_size as u64) as u32 == c.connection_pool_size);
}

/// Every configuration that applying answers accepts has a non-blank URL
/// with the `redis://` or `rediss://` scheme.
pub proof fn law_accepted_config_is_valid(mode: Seq<char>, answers_cbor: Seq<u8>, c: RedisConfigV)
    requires
        apply_result(mode, answers_cbor) == success_jv(config_jv(c)),
    ensures
        validation_error_of(c) is None,
        trimmed(c.redis_url).len() > 0,
        "redis://"@.is_prefix_of(c.redis_url) || "rediss://"@.is_prefix_of(c.redis_url),
{
    let ok = crate::qa_helpers::apply_members(
        true,
        Some(config_jv(c)),
        None,
        Seq::empty(),
        None,
    );
    assert(ok[0] == ("ok"@, JV::Bool(true)));
    assert(ok[1] == ("config"@, config_jv(c)));
    match cbor_decoded(answers_cbor) {
        Err(e) => {
            let bad = crate::qa_helpers::apply_members(
                false,
                None,
                None,
                Seq::empty(),
                Some("invalid answers cbor: "@ + e),
            );
            assert(bad[0] != ok[0]);
        },
        Ok(answers) => {
            if mode == "remove"@ {
                let rm = crate::qa_helpers::apply_members(
                    true,
                    None,
                    Some(crate::qa_helpers::remove_jv(true, cleanup_seq())),
                    Seq::empty(),
                    None,
                );
                assert(rm[1] != ok[1]);
            } else {
                let merged = merged_config(mode, answers);
                match validation_error_of(merged) {
                    Some(e) => {
                        let bad = crate::qa_helpers::apply_members(
                            false,
                            None,
                            None,
                            Seq::empty(),
                            Some(e),
                        );
                        assert(bad[0] != ok[0]);
                    },
                    None => {
                        let good = crate::qa_helpers::apply_members(
                            true,
                            Some(config_jv(merged)),
                            None,
                            Seq::empty(),
                            None,
                        );
                        assert(good == ok);
                        assert(good[1] == ("config"@, config_jv(merged)));
                        assert(config_members(merged)[0] == config_members(c)[0]);
                        assert(merged.redis_url == c.redis_url);
                    },
                }
            }
        },
    }
}

/// Remove mode answers the cleanup steps whatever the answers hold.
pub proof fn law_remove_returns_cleanup(answers_cbor: Seq<u8>)
    requires
        cbor_decoded(answers_cbor) is Ok,
    ensures
        apply_result("remove"@, answers_cbor) == removal_jv(cleanup_seq()),
{
}

/// Upgrade mode keeps every field that the answers do not name.
pub proof fn law_upgrade_keeps_unanswered(answers: JV)
    ensures
        jget(answers, "redis_url"@) is None ==> merged_config("upgrade"@, answers).redis_url
            == base_config(answers).redis_url,
        jget(answers, "redis_password"@) is None ==> merged_config(
            "upgrade"@,
            answers,
        ).redis_password == base_config(answers).redis_password,
        jget(answers, "redis_tls_enabled"@) is None ==> merged_config(
            "upgrade"@,
            answers,
        ).redis_tls_enabled == base_config(answers).redis_tls_enabled,
        jget(answers, "key_prefix"@) is None ==> merged_config("upgrade"@, answers).key_prefix
            == base_config(answers).key_prefix,
        jget(answers, "default_ttl_seconds"@) is None ==> merged_config(
            "upgrade"@,
            answers,
        ).default_ttl_seconds == base_config(answers).default_ttl_seconds,
        jget(answers, "connection_pool_size"@) is None ==> merged_config(
            "upgrade"@,
            answers,
        ).connection_pool_size == base_config(answers).connection_pool_size,
{
}

/// Upgrading with answers that name no field keeps the configuration carried
/// as `existing_config`.
pub proof fn law_upgrade_without_answers_keeps_existing(answers: JV, c: RedisConfigV)
    requires
        jget(answers, "existing_config"@) == Some(config_jv(c)),
        jget(answers, "redis_url"@) is None,
        jget(answers, "redis_password"@) is None,
        jget(answers, "redis_tls_enabled"@) is None,
        jget(answers, "key_prefix"@) is None,
        jget(answers, "default_ttl_seconds"@) is None,
        jget(answers, "connection_pool_size"@) is None,
    ensures
        merged_config("upgrade"@, answers) == c,
{
    law_config_round_trip(c);
}


/// The TLS flag answered by text is on exactly when the text is `true`
/// (so `"false"` turns it off); a boolean answer is taken as it is. This
/// holds in default, setup and upgrade mode.
pub proof fn law_tls_answer(mode: Seq<char>, answers: JV)
    requires
        mode == "setup"@ || mode == "default"@ || mode == "upgrade"@,
    ensures
        jget(answers, "redis_tls_enabled"@) matches Some(JV::Str(s)) ==> merged_config(
            mode,
            answers,
        ).redis_tls_enabled == (s == "true"@),
        jget(answers, "redis_tls_enabled"@) matches Some(JV::Bool(b)) ==> merged_config(
            mode,
            answers,
        ).redis_tls_enabled == b,
        jget(answers, "redis_tls_enabled"@) == Some(JV::Str("false"@)) ==> !merged_config(
            mode,
            answers,
        ).redis_tls_enabled,
{
    reveal_strlit("false");
    reveal_strlit("true");
    assert("false"@.len() != "true"@.len());
}

/// In default, setup and upgrade mode, a numeric field answered with text
/// that parses as `u32` takes that number.
pub proof fn law_parsed_number_answer_replaces_field(mode: Seq<char>, answers: JV, s: Seq<char>, v: u32)
    requires
        mode == "setup"@ || mode == "default"@ || mode == "upgrade"@,
        parse_u32_spec(s) == Some(v),
    ensures
        jget_str(answers, "default_ttl_seconds"@) == Some(s) ==> merged_config(
            mode,
            answers,
        ).default_ttl_seconds == v,
        jget_str(answers, "connection_pool_size"@) == Some(s) ==> merged_config(
            mode,
            answers,
        ).connection_pool_size == v,
{
}

} // verus!
