use greentic_state::component::{canonical_cbor_bytes, decode_cbor};
use greentic_state::json::{Json, JsonNumber};
use greentic_state::qa_helpers::QaMode;
use greentic_state::{state_memory, state_redis};
use serde_json::Value;
use greentic_state::qa_helpers::ConfigJson;

fn to_json(v: &Value) -> Json {
    match v {
        Value::Null => Json::Null,
        Value::Bool(b) => Json::Bool(*b),
        Value::Number(n) => match (n.as_u64(), n.as_i64()) {
            (Some(u), _) => Json::Number(JsonNumber::PosInt(u)),
            (None, Some(i)) => Json::Number(JsonNumber::NegInt(i)),
            _ => Json::Number(JsonNumber::Decimal(n.to_string())),
        },
        Value::String(s) => Json::Str(s.clone()),
        Value::Array(a) => Json::Array(a.iter().map(to_json).collect()),
        Value::Object(o) => Json::Object(o.iter().map(|(k, x)| (k.clone(), to_json(x))).collect()),
    }
}

fn from_json(j: &Json) -> Value {
    match j {
        Json::Null => Value::Null,
        Json::Bool(b) => Value::Bool(*b),
        Json::Number(JsonNumber::PosInt(u)) => Value::from(*u),
        Json::Number(JsonNumber::NegInt(i)) => Value::from(*i),
        Json::Number(JsonNumber::Decimal(s)) => serde_json::from_str(s).unwrap(),
        Json::Str(s) => Value::String(s.clone()),
        Json::Array(a) => Value::Array(a.iter().map(from_json).collect()),
        Json::Object(m) => Value::Object(m.iter().map(|(k, x)| (k.clone(), from_json(x))).collect()),
    }
}

fn cbor_of(text: &str) -> Vec<u8> {
    canonical_cbor_bytes(&to_json(&serde_json::from_str::<Value>(text).unwrap()))
}

fn decoded(bytes: &[u8]) -> Value {
    from_json(&decode_cbor(bytes).expect("decode apply output"))
}

// ---------------------------------------------------------------------------
// Memory provider
// ---------------------------------------------------------------------------

#[test]
fn describe_payload_serializes() {
    let payload = state_memory::build_describe_payload();
    assert_eq!(payload.provider, "state-provider-memory");
    assert_eq!(payload.world, "component-v0-v6-v0");
    assert_eq!(payload.operations.len(), 1);
    assert_eq!(payload.operations[0].name, "state.dispatch");
    let bytes = canonical_cbor_bytes(&payload.to_json());
    assert!(!bytes.is_empty());
}

#[test]
fn qa_spec_default_mode() {
    let spec = state_memory::build_qa_spec(QaMode::Default);
    assert_eq!(spec.mode, "default");
}

#[test]
fn qa_spec_setup_mode() {
    let spec = state_memory::build_qa_spec(QaMode::Setup);
    assert_eq!(spec.mode, "setup");
}

#[test]
fn qa_spec_remove_mode() {
    let spec = state_memory::build_qa_spec(QaMode::Remove);
    assert_eq!(spec.mode, "remove");
}

#[test]
fn apply_answers_setup_produces_config() {
    let answers = cbor_of(r#"{"max_entries": "5000", "default_ttl_seconds": "300"}"#);
    let out = state_memory::apply_answers(QaMode::Setup, answers);
    let out_json = decoded(&out);
    assert_eq!(out_json.get("ok"), Some(&Value::Bool(true)));
    let config = out_json.get("config").expect("config object");
    assert_eq!(config.get("max_entries"), Some(&Value::from(5000)));
    assert_eq!(config.get("default_ttl_seconds"), Some(&Value::from(300)));
}

#[test]
fn apply_answers_remove_returns_cleanup() {
    let out = state_memory::apply_answers(QaMode::Remove, cbor_of("{}"));
    let out_json = decoded(&out);
    assert!(out_json.get("remove").is_some());
    assert_eq!(
        out_json["remove"]["cleanup"],
        serde_json::from_str::<Value>(r#"["delete_config_key","delete_provider_state_namespace"]"#)
            .unwrap()
    );
}

#[test]
fn i18n_keys_nonempty() {
    let keys = state_memory::i18n_keys();
    assert!(!keys.is_empty());
    assert!(keys.contains(&"state.memory.qa.setup.max_entries".to_string()));
}

#[test]
fn memory_defaults_when_nothing_answered() {
    let out = decoded(&state_memory::apply_answers_impl("setup", cbor_of("{}")));
    assert_eq!(out["config"]["max_entries"], 10000);
    assert_eq!(out["config"]["default_ttl_seconds"], 0);
    assert_eq!(state_memory::default_max_entries(), 10000);
}

#[test]
fn memory_ignores_unparsable_numbers() {
    let out = decoded(&state_memory::apply_answers_impl(
        "setup",
        cbor_of(r#"{"max_entries": "lots", "default_ttl_seconds": 5}"#),
    ));
    assert_eq!(out["config"]["max_entries"], 10000);
    assert_eq!(out["config"]["default_ttl_seconds"], 0);
}

#[test]
fn memory_upgrade_keeps_existing_config() {
    let out = decoded(&state_memory::apply_answers_impl(
        "upgrade",
        cbor_of(r#"{"existing_config": {"max_entries": 7, "default_ttl_seconds": 9}}"#),
    ));
    assert_eq!(out["ok"], true);
    assert_eq!(out["config"]["max_entries"], 7);
    assert_eq!(out["config"]["default_ttl_seconds"], 9);
}

#[test]
fn memory_invalid_existing_config_falls_back_to_default() {
    let out = decoded(&state_memory::apply_answers_impl(
        "upgrade",
        cbor_of(r#"{"existing_config": {"max_entries": -1}, "default_ttl_seconds": "60"}"#),
    ));
    assert_eq!(out["config"]["max_entries"], 10000);
    assert_eq!(out["config"]["default_ttl_seconds"], 60);
}

#[test]
fn memory_bad_cbor_is_a_decode_error() {
    let out = decoded(&state_memory::apply_answers_impl("setup", vec![0xff]));
    assert_eq!(out["ok"], false);
    assert!(out["error"].as_str().unwrap().starts_with("invalid answers cbor: "));
}

#[test]
fn memory_config_round_trip() {
    let c = state_memory::MemoryConfig { max_entries: 12, default_ttl_seconds: 34 };
    assert_eq!(state_memory::MemoryConfig::from_json(&c.to_json()), Some(c));
    let arr = to_json(&serde_json::from_str::<Value>("[5]").unwrap());
    assert_eq!(
        state_memory::MemoryConfig::from_json(&arr),
        Some(state_memory::MemoryConfig { max_entries: 5, default_ttl_seconds: 0 })
    );
    let too_long = to_json(&serde_json::from_str::<Value>("[1, 2, 3]").unwrap());
    assert_eq!(state_memory::MemoryConfig::from_json(&too_long), None);
}

#[test]
fn memory_describe_schemas() {
    let payload = state_memory::build_describe_payload();
    assert!(payload.redactions.is_empty());
    assert_eq!(payload.schema_hash.len(), 64);
    assert_eq!(payload.schema_hash, state_memory::build_describe_payload().schema_hash);
    assert!(!state_memory::describe().is_empty());
    let spec = state_memory::build_qa_spec(QaMode::Setup);
    assert_eq!(spec.questions.len(), 2);
    assert!(spec.questions.iter().all(|q| !q.required));
    assert!(state_memory::build_qa_spec(QaMode::Default).questions.is_empty());
}

#[test]
fn memory_runtime_invoke_is_an_error() {
    let out = decoded(&state_memory::invoke("get", Vec::new()));
    assert_eq!(out["ok"], false);
    assert_eq!(
        out["error"],
        "state-provider-memory: runtime invoke not supported for op 'get'; state operations are dispatched natively by the operator"
    );
}

#[test]
fn memory_schema_core_invoke_dispatches_qa_ops() {
    let out: Value = serde_json::from_slice(&state_memory::schema_core_invoke("qa-spec", br#"{"mode":"upgrade"}"#)).unwrap();
    assert_eq!(out["mode"], "upgrade");
    let out: Value = serde_json::from_slice(&state_memory::schema_core_invoke(
        "apply-answers",
        br#"{"mode":"setup","answers":{"max_entries":"42"}}"#,
    ))
    .unwrap();
    assert_eq!(out["ok"], true);
    assert_eq!(out["config"]["max_entries"], 42);
    let out: Value = serde_json::from_slice(&state_memory::schema_core_invoke("nope", b"{}")).unwrap();
    assert_eq!(out["ok"], false);
    assert_eq!(out["error"], "unsupported op: nope");
    let bundle = decoded(&state_memory::i18n_bundle("en".to_string()));
    assert_eq!(bundle["messages"]["state.memory.qa.setup.title"], "Setup");
}

// ---------------------------------------------------------------------------
// Redis provider
// ---------------------------------------------------------------------------

#[test]
fn lib_describe_payload_serializes() {
    let payload = state_redis::build_describe_payload();
    assert_eq!(payload.provider, "state-provider-redis");
    assert_eq!(payload.world, "component-v0-v6-v0");
    assert_eq!(payload.operations.len(), 1);
    assert_eq!(payload.operations[0].name, "state.dispatch");
    assert_eq!(payload.redactions.len(), 2);
    let bytes = canonical_cbor_bytes(&payload.to_json());
    assert!(!bytes.is_empty());
}

#[test]
fn qa_spec_default_returns_redis_url_only() {
    let spec = state_redis::build_qa_spec(QaMode::Default);
    assert_eq!(spec.mode, "default");
    let question_ids: Vec<&str> = spec.questions.iter().map(|q| q.id.as_str()).collect();
    assert!(question_ids.contains(&"redis_url"));
}

#[test]
fn qa_spec_setup_has_all_fields() {
    let spec = state_redis::build_qa_spec(QaMode::Setup);
    assert_eq!(spec.mode, "setup");
    assert!(spec.questions.len() >= 4);
}

#[test]
fn apply_answers_setup_validates_url() {
    let out = state_redis::apply_answers(QaMode::Setup, cbor_of(r#"{"redis_url": "not-a-redis-url"}"#));
    let out_json = decoded(&out);
    assert_eq!(out_json.get("ok"), Some(&Value::Bool(false)));
    let err = out_json.get("error").and_then(|v| v.as_str()).unwrap_or("");
    assert!(err.contains("redis_url"));
}

#[test]
fn apply_answers_setup_accepts_valid_url() {
    let out = state_redis::apply_answers(
        QaMode::Setup,
        cbor_of(r#"{"redis_url": "redis://localhost:6379/0", "key_prefix": "myapp", "connection_pool_size": "10"}"#),
    );
    let out_json = decoded(&out);
    assert_eq!(out_json.get("ok"), Some(&Value::Bool(true)));
    let config = out_json.get("config").expect("config");
    assert_eq!(config.get("redis_url"), Some(&Value::from("redis://localhost:6379/0")));
    assert_eq!(config.get("key_prefix"), Some(&Value::from("myapp")));
    assert_eq!(config.get("connection_pool_size"), Some(&Value::from(10)));
}

#[test]
fn lib_apply_answers_remove_returns_cleanup() {
    let out = state_redis::apply_answers(QaMode::Remove, cbor_of("{}"));
    let out_json = decoded(&out);
    assert!(out_json.get("remove").is_some());
    assert_eq!(out_json["remove"]["cleanup"].as_array().unwrap().len(), 4);
    assert_eq!(out_json["remove"]["remove_all"], true);
}

#[test]
fn apply_answers_upgrade_preserves_unspecified() {
    let answers = cbor_of(
        r#"{
            "existing_config": {
                "redis_url": "redis://original:6379/0",
                "redis_password": "secret",
                "redis_tls_enabled": false,
                "key_prefix": "greentic",
                "default_ttl_seconds": 0,
                "connection_pool_size": 5
            },
            "key_prefix": "updated"
        }"#,
    );
    let out = state_redis::apply_answers(QaMode::Upgrade, answers);
    let out_json = decoded(&out);
    assert_eq!(out_json.get("ok"), Some(&Value::Bool(true)));
    let config = out_json.get("config").expect("config");
    assert_eq!(config.get("redis_url"), Some(&Value::from("redis://original:6379/0")));
    assert_eq!(config.get("key_prefix"), Some(&Value::from("updated")));
}

#[test]
fn lib_i18n_keys_nonempty() {
    let keys = state_redis::i18n_keys();
    assert!(!keys.is_empty());
    assert!(keys.contains(&"state.redis.qa.setup.redis_url".to_string()));
}

#[test]
fn redis_missing_url_is_required() {
    let out = decoded(&state_redis::apply_answers_impl("setup", cbor_of("{}")));
    assert_eq!(out["ok"], false);
    assert_eq!(out["error"], "config validation failed: redis_url is required");
    let out = decoded(&state_redis::apply_answers_impl("setup", cbor_of(r#"{"redis_url": "http://x"}"#)));
    assert_eq!(
        out["error"],
        "config validation failed: redis_url must start with redis:// or rediss://"
    );
}

#[test]
fn redis_tls_flag_accepts_bool_and_text() {
    let out = decoded(&state_redis::apply_answers_impl(
        "default",
        cbor_of(r#"{"redis_url": "rediss://h", "redis_tls_enabled": "true"}"#),
    ));
    assert_eq!(out["config"]["redis_tls_enabled"], true);
    let out = decoded(&state_redis::apply_answers_impl(
        "setup",
        cbor_of(r#"{"redis_url": "rediss://h", "redis_tls_enabled": true, "redis_password": " pw "}"#),
    ));
    assert_eq!(out["config"]["redis_tls_enabled"], true);
    assert_eq!(out["config"]["redis_password"], "pw");
    assert_eq!(out["config"]["key_prefix"], "greentic");
    assert_eq!(out["config"]["connection_pool_size"], 5);
}

#[test]
fn redis_config_round_trip_and_defaults() {
    let mut c = state_redis::default_config_out();
    c.redis_url = "redis://h".to_string();
    let back = state_redis::RedisConfig::from_json(&c.to_json()).unwrap();
    assert_eq!(back.redis_url, "redis://h");
    assert_eq!(back.key_prefix, "greentic");
    assert_eq!(back.connection_pool_size, 5);
    let no_url = to_json(&serde_json::from_str::<Value>(r#"{"key_prefix": "p"}"#).unwrap());
    assert!(state_redis::RedisConfig::from_json(&no_url).is_none());
    assert_eq!(state_redis::default_key_prefix(), "greentic");
    assert_eq!(state_redis::default_pool_size(), 5);
    assert!(state_redis::validate_config_out(&c).is_ok());
}

#[test]
fn redis_schema_core_invoke_and_runtime() {
    let out: Value = serde_json::from_slice(&state_redis::schema_core_invoke("i18n-keys", b"{}")).unwrap();
    assert!(out.as_array().unwrap().contains(&Value::from("state.redis.qa.setup.redis_url")));
    let out = decoded(&state_redis::invoke("put", Vec::new()));
    assert_eq!(out["ok"], false);
    assert!(out["error"].as_str().unwrap().contains("'put'"));
    let spec = state_redis::build_qa_spec(QaMode::Upgrade);
    assert_eq!(spec.questions.len(), 6);
    assert!(spec.questions.iter().all(|q| !q.required));
}

#[test]
fn schema_core_describe_writes_description_json() {
    let payload = state_redis::build_describe_payload();
    let bytes = greentic_state::helpers::schema_core_describe(&payload);
    let val: Value = serde_json::from_slice(&bytes).unwrap();
    assert_eq!(val["provider"], "state-provider-redis");
    assert_eq!(val["operations"][0]["name"], "state.dispatch");
    assert_eq!(val["redactions"][0]["path"], "$.redis_password");
    assert_eq!(val["schema_hash"], Value::from(payload.schema_hash.clone()));
    assert_eq!(val["config_schema"]["fields"]["redis_url"]["required"], true);
}

#[test]
fn qa_spec_cbor_matches_builder() {
    let spec = decoded(&state_redis::qa_spec(QaMode::Default));
    assert_eq!(spec["mode"], "default");
    assert_eq!(spec["title"]["key"], "state.redis.qa.default.title");
    assert_eq!(spec["questions"][0]["id"], "redis_url");
    assert_eq!(spec["questions"][0]["required"], true);
    let spec = decoded(&state_memory::qa_spec(QaMode::Remove));
    assert_eq!(spec["mode"], "remove");
    assert!(spec["questions"].as_array().unwrap().is_empty());
}
