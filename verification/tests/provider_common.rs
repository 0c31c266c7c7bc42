use greentic_state::component::{canonical_cbor_bytes, decode_cbor};
use greentic_state::helpers::QaQuestionDef;
use greentic_state::http_compat::{
    http_out_error, http_out_v1_bytes, parse_operator_http_in, parse_operator_http_in_with_config,
    Header, HttpOutV1,
};
use greentic_state::json::{Json, JsonNumber};
use greentic_state::lifecycle_keys::{
    legacy_messaging_config_keys, legacy_messaging_provenance_keys, messaging_config_key,
    messaging_provenance_key, messaging_state_key,
};
use greentic_state::provider::{
    CapabilitiesResponseV1, ProviderCapabilitiesV1, ProviderError, ProviderLimitsV1,
    ProviderMetadataV1, PROVIDER_CAPABILITIES_VERSION,
};
use greentic_state::qa_helpers::{ApplyAnswersResult, ConfigJson};
use greentic_state::qa_invoke_bridge::{dispatch_qa_ops, dispatch_qa_ops_with_i18n, extract_mode};
use serde_json::Value;
use base64::Engine;

fn to_json(v: &Value) -> Json {
    match v {
        Value::Null => Json::Null,
        Value::Bool(b) => Json::Bool(*b),
        Value::Number(n) => match (n.as_u64(), n.as_i64()) {
            (Some(u), _) => Json::Number(JsonNumber::PosInt(u)),
            (None, Some(i)) => Json::Number(JsonNumber::NegInt(i)),
            _ => Json::Number(JsonNumber::Decimal(n.to_string())),
        },
        Value::String(s) => Json::Str(s.clone()),
        Value::Array(a) => Json::Array(a.iter().map(to_json).collect()),
        Value::Object(o) => Json::Object(o.iter().map(|(k, x)| (k.clone(), to_json(x))).collect()),
    }
}

fn from_json(j: &Json) -> Value {
    match j {
        Json::Null => Value::Null,
        Json::Bool(b) => Value::Bool(*b),
        Json::Number(JsonNumber::PosInt(u)) => Value::from(*u),
        Json::Number(JsonNumber::NegInt(i)) => Value::from(*i),
        Json::Number(JsonNumber::Decimal(s)) => serde_json::from_str(s).unwrap(),
        Json::Str(s) => Value::String(s.clone()),
        Json::Array(a) => Value::Array(a.iter().map(from_json).collect()),
        Json::Object(m) => Value::Object(m.iter().map(|(k, x)| (k.clone(), from_json(x))).collect()),
    }
}

fn parse(text: &str) -> Json {
    to_json(&serde_json::from_str::<Value>(text).unwrap())
}

// ---------------------------------------------------------------------------
// Errors and capabilities
// ---------------------------------------------------------------------------

#[test]
fn builds_validation_error() {
    let err = ProviderError::validation("missing token");
    assert_eq!(err, ProviderError::Validation("missing token".into()));
    assert_eq!(err.to_string(), "validation error: missing token");
}

#[test]
fn builds_missing_secret_error() {
    let err = ProviderError::missing_secret("API_KEY");
    assert!(matches!(err, ProviderError::MissingSecret { .. }));
    assert_eq!(err.to_string(), "missing secret: API_KEY (scope: tenant)");
}

#[test]
fn other_errors_display() {
    assert_eq!(ProviderError::transport("down").to_string(), "transport error: down");
    assert_eq!(ProviderError::other("odd").to_string(), "unknown provider error: odd");
    match ProviderError::missing_secret("TOKEN") {
        ProviderError::MissingSecret { remediation, scope, .. } => {
            assert_eq!(scope, "tenant");
            assert_eq!(
                remediation,
                "Provide the `TOKEN` secret via greentic:secrets-store for this tenant."
            );
        }
        _ => panic!("expected a missing secret"),
    }
}

#[test]
fn capabilities_response_has_current_version() {
    let caps = CapabilitiesResponseV1::new(
        ProviderMetadataV1 {
            provider_id: "slack".into(),
            display_name: "Slack".into(),
            version: "1.0.0".into(),
            rate_limit_hint: None,
        },
        ProviderCapabilitiesV1 {
            supports_threads: false,
            supports_buttons: false,
            supports_webhook_validation: true,
            supports_formatting_options: false,
        },
        ProviderLimitsV1 {
            max_text_len: 40_000,
            callback_data_max_bytes: 0,
            max_buttons_per_row: 0,
            max_button_rows: 0,
        },
    );
    assert_eq!(caps.version, PROVIDER_CAPABILITIES_VERSION);
    assert_eq!(caps.metadata.provider_id, "slack");
    assert!(caps.capabilities.supports_webhook_validation);
    assert_eq!(caps.limits.max_text_len, 40_000);
}

// ---------------------------------------------------------------------------
// Lifecycle keys
// ---------------------------------------------------------------------------

#[test]
fn builds_keys_without_team_scope() {
    assert_eq!(
        messaging_config_key("slack", "tenant-a", None),
        "providers:messaging:slack:tenants:tenant-a:config"
    );
    assert_eq!(
        messaging_provenance_key("slack", "tenant-a", None),
        "providers:messaging:slack:tenants:tenant-a:provenance"
    );
    assert_eq!(
        messaging_state_key("slack", "tenant-a", None, "session"),
        "providers:messaging:slack:tenants:tenant-a:state:session"
    );
}

#[test]
fn builds_keys_with_team_scope() {
    assert_eq!(
        messaging_config_key("slack", "tenant-a", Some("team-1")),
        "providers:messaging:slack:tenants:tenant-a:teams:team-1:config"
    );
    assert_eq!(
        messaging_provenance_key("slack", "tenant-a", Some("team-1")),
        "providers:messaging:slack:tenants:tenant-a:teams:team-1:provenance"
    );
    assert_eq!(
        messaging_state_key("slack", "tenant-a", Some("team-1"), "session"),
        "providers:messaging:slack:tenants:tenant-a:teams:team-1:state:session"
    );
}

#[test]
fn empty_team_is_ignored() {
    let no_team = messaging_config_key("slack", "tenant-a", None);
    let empty_team = messaging_config_key("slack", "tenant-a", Some("  "));
    assert_eq!(no_team, empty_team);
}

#[test]
fn exposes_legacy_key_candidates_without_team() {
    let keys = legacy_messaging_config_keys("slack", "tenant-a", None);
    assert!(keys.contains(&"providers:slack:tenants:tenant-a:config".to_string()));
    assert!(keys.contains(&"messaging:slack:tenants:tenant-a:config".to_string()));
    assert!(keys.contains(&"messaging:slack:tenant:tenant-a:config".to_string()));
    assert!(!keys.iter().any(|key| key.contains(":teams:")));
}

#[test]
fn exposes_legacy_key_candidates_with_team() {
    let keys = legacy_messaging_provenance_keys("slack", "tenant-a", Some("ops"));
    assert!(keys.contains(&"providers:slack:tenants:tenant-a:teams:ops:provenance".to_string()));
    assert!(keys.contains(&"messaging:slack:tenants:tenant-a:teams:ops:provenance".to_string()));
    assert!(keys.contains(&"messaging:slack:tenant:tenant-a:team:ops:provenance".to_string()));
}

// ---------------------------------------------------------------------------
// QA results
// ---------------------------------------------------------------------------

fn test_config() -> Json {
    parse(r#"{"name": "test"}"#)
}

#[test]
fn success_serializes_with_config() {
    let result = ApplyAnswersResult::success(test_config());
    let json = from_json(&result.to_json());
    assert_eq!(json["ok"], true);
    assert_eq!(json["config"]["name"], "test");
    assert_eq!(json["remove"], Value::Null);
    assert_eq!(json["error"], Value::Null);
}

#[test]
fn remove_default_has_six_steps() {
    let result: ApplyAnswersResult<Json> = ApplyAnswersResult::remove_default();
    let json = from_json(&result.to_json());
    assert_eq!(json["ok"], true);
    assert_eq!(json["config"], Value::Null);
    let cleanup = json["remove"]["cleanup"].as_array().unwrap();
    assert_eq!(cleanup.len(), 6);
    assert!(cleanup[0].as_str().unwrap().contains("delete_config_key"));
}

#[test]
fn validation_error_sets_error() {
    let result: ApplyAnswersResult<Json> = ApplyAnswersResult::validation_error("bad url".into());
    let json = from_json(&result.to_json());
    assert_eq!(json["ok"], false);
    assert_eq!(json["error"], "bad url");
}

#[test]
fn decode_error_sets_error() {
    let result: ApplyAnswersResult<Json> = ApplyAnswersResult::decode_error("invalid cbor".into());
    let json = from_json(&result.to_json());
    assert_eq!(json["ok"], false);
    assert!(json["error"].as_str().unwrap().contains("invalid cbor"));
}

#[test]
fn config_json_of_json_is_itself() {
    let j = test_config();
    assert_eq!(from_json(&ConfigJson::to_json(&j))["name"], "test");
}

// ---------------------------------------------------------------------------
// QA invoke bridge
// ---------------------------------------------------------------------------

#[test]
fn extract_mode_parses_setup() {
    let input = br#"{"mode":"setup"}"#;
    assert_eq!(extract_mode(input), "setup");
}

#[test]
fn extract_mode_defaults_to_setup() {
    assert_eq!(extract_mode(b"{}"), "setup");
    assert_eq!(extract_mode(b"invalid"), "setup");
}

#[test]
fn extract_mode_reads_other_modes() {
    assert_eq!(extract_mode(br#"{"mode":"upgrade"}"#), "upgrade");
}

#[test]
fn dispatch_returns_none_for_unknown_op() {
    let result = dispatch_qa_ops("send", b"{}", "test", &[], &[], &[], |_, _| vec![]);
    assert!(result.is_none());
}

#[test]
fn dispatch_qa_spec_returns_json() {
    let questions: &[QaQuestionDef] = &[("token", "t.qa.token", true)];
    let result = dispatch_qa_ops(
        "qa-spec",
        br#"{"mode":"setup"}"#,
        "test",
        questions,
        &["token"],
        &[],
        |_, _| vec![],
    )
    .unwrap();
    let parsed: Value = serde_json::from_slice(&result).unwrap();
    assert_eq!(parsed["mode"], "setup");
    assert!(parsed["questions"].as_array().unwrap().len() == 1);
}

#[test]
fn dispatch_i18n_keys_returns_json_array() {
    let keys = &["a.key", "b.key"];
    let result = dispatch_qa_ops("i18n-keys", b"{}", "test", &[], &[], keys, |_, _| vec![]).unwrap();
    let parsed: Vec<String> = serde_json::from_slice(&result).unwrap();
    assert_eq!(parsed, vec!["a.key", "b.key"]);
}

#[test]
fn dispatch_apply_answers_bridges_json_cbor() {
    let input = br#"{"mode":"setup","current_config":{"enabled":true},"answers":{"token":"abc"}}"#;
    let result = dispatch_qa_ops("apply-answers", input, "test", &[], &[], &[], |mode, cbor| {
        assert_eq!(mode, "setup");
        let payload = from_json(&decode_cbor(&cbor).unwrap());
        assert_eq!(payload["token"], "abc");
        assert_eq!(payload["existing_config"]["enabled"], true);
        canonical_cbor_bytes(&parse(r#"{"ok": true, "config": {"token": "abc"}}"#))
    })
    .unwrap();
    let parsed: Value = serde_json::from_slice(&result).unwrap();
    assert_eq!(parsed["ok"], true);
    assert_eq!(parsed["config"]["token"], "abc");
}

#[test]
fn dispatch_apply_answers_reports_bad_input_and_reply() {
    let result = dispatch_qa_ops("apply-answers", b"nope", "t", &[], &[], &[], |_, _| panic!("no call")).unwrap();
    let parsed: Value = serde_json::from_slice(&result).unwrap();
    assert_eq!(parsed["ok"], false);
    assert!(parsed["error"].as_str().unwrap().starts_with("invalid input json: "));
    let result = dispatch_qa_ops("apply-answers", b"{}", "t", &[], &[], &[], |mode, cbor| {
        assert_eq!(mode, "setup");
        assert_eq!(from_json(&decode_cbor(&cbor).unwrap()), serde_json::from_str::<Value>("{}").unwrap());
        vec![0xff]
    })
    .unwrap();
    let parsed: Value = serde_json::from_slice(&result).unwrap();
    assert!(parsed["error"].as_str().unwrap().starts_with("cbor decode error: "));
}

#[test]
fn dispatch_i18n_bundle_uses_pairs() {
    let result = dispatch_qa_ops_with_i18n(
        "i18n-bundle",
        br#""de""#,
        "t",
        &[],
        &[],
        &[],
        &[("k", "Wert")],
        |_, _| vec![],
    )
    .unwrap();
    let parsed: Value = serde_json::from_slice(&result).unwrap();
    assert_eq!(parsed["locale"], "de");
    assert_eq!(parsed["messages"]["k"], "Wert");
    let result = dispatch_qa_ops("i18n-bundle", b"{}", "t", &[], &[], &[], |_, _| vec![]).unwrap();
    let parsed: Value = serde_json::from_slice(&result).unwrap();
    assert_eq!(parsed["locale"], "en");
}

// ---------------------------------------------------------------------------
// Operator HTTP compatibility
// ---------------------------------------------------------------------------

#[test]
fn parse_operator_format_with_tuple_query() {
    let input = br#"{
        "method": "GET",
        "path": "/webhook",
        "body_b64": "",
        "query": [["hub.mode", "subscribe"], ["hub.challenge", "test123"]],
        "headers": [["content-type", "application/json"]]
    }"#;
    let req = parse_operator_http_in(input).unwrap();
    assert_eq!(req.method, "GET");
    assert_eq!(req.path, "/webhook");
    assert_eq!(req.query.as_deref(), Some("hub.mode=subscribe&hub.challenge=test123"));
    assert_eq!(req.headers.len(), 1);
    assert_eq!(req.headers[0].name, "content-type");
    assert!(req.config.is_none());
}

#[test]
fn parse_operator_format_with_config() {
    let input = br#"{
        "method": "POST",
        "path": "/notifications",
        "body_b64": "",
        "query": [],
        "headers": [],
        "config": {"tenant_id": "abc"}
    }"#;
    let req = parse_operator_http_in_with_config(input).unwrap();
    assert!(req.config.is_some());
    assert_eq!(from_json(&req.config.unwrap())["tenant_id"], "abc");
}

#[test]
fn parse_operator_format_without_config() {
    let input = br#"{
        "method": "POST",
        "path": "/notifications",
        "body_b64": "",
        "config": {"tenant_id": "abc"}
    }"#;
    let req = parse_operator_http_in(input).unwrap();
    assert!(req.config.is_none());
}

#[test]
fn parse_string_query_passthrough() {
    let input = br#"{"method": "GET", "path": "/webhook", "body_b64": "", "query": "foo=bar&baz=qux"}"#;
    let req = parse_operator_http_in(input).unwrap();
    assert_eq!(req.query.as_deref(), Some("foo=bar&baz=qux"));
}

#[test]
fn parse_object_headers() {
    let input = br#"{
        "method": "POST",
        "path": "/",
        "body_b64": "",
        "headers": [{"name": "Authorization", "value": "Bearer tok"}]
    }"#;
    let req = parse_operator_http_in(input).unwrap();
    assert_eq!(req.headers.len(), 1);
    assert_eq!(req.headers[0].name, "Authorization");
    assert_eq!(req.headers[0].value, "Bearer tok");
}

#[test]
fn parse_operator_body_as_byte_array() {
    let webhook = r#"{"update_id":123,"message":{"chat":{"id":999},"text":"hello"}}"#;
    let body: Vec<Value> = webhook.bytes().map(Value::from).collect();
    let mut obj = serde_json::Map::new();
    obj.insert("method".to_string(), Value::from("POST"));
    obj.insert("path".to_string(), Value::from("/webhook"));
    obj.insert("body".to_string(), Value::Array(body));
    obj.insert("headers".to_string(), Value::Array(Vec::new()));
    obj.insert("query".to_string(), Value::Array(Vec::new()));
    let input = serde_json::to_vec(&Value::Object(obj)).unwrap();
    let req = parse_operator_http_in(&input).unwrap();
    assert!(!req.body_b64.is_empty(), "body_b64 should be populated from body array");
    let decoded = base64::engine::general_purpose::STANDARD.decode(&req.body_b64).unwrap();
    let val: Value = serde_json::from_slice(&decoded).unwrap();
    assert_eq!(val["update_id"], 123);
    assert_eq!(val["message"]["chat"]["id"], 999);
}

#[test]
fn parse_operator_defaults_and_errors() {
    let req = parse_operator_http_in(b"{}").unwrap();
    assert_eq!(req.method, "POST");
    assert_eq!(req.path, "/");
    assert_eq!(req.body_b64, "");
    assert!(req.query.is_none());
    assert!(req.headers.is_empty());
    let req = parse_operator_http_in(br#"{"query": [[1, "x"], ["k"]], "route": "r", "binding_id": "b"}"#).unwrap();
    assert_eq!(req.query.as_deref(), Some("k="));
    assert_eq!(req.route_hint.as_deref(), Some("r"));
    assert_eq!(req.binding_id.as_deref(), Some("b"));
    assert!(parse_operator_http_in(b"not json").is_err());
}

#[test]
fn http_out_v1_bytes_injects_v_and_transforms_headers() {
    let out = HttpOutV1 {
        status: 200,
        headers: vec![Header { name: "Content-Type".into(), value: "application/json".into() }],
        body_b64: base64::engine::general_purpose::STANDARD.encode(b"ok"),
        events: Vec::new(),
    };
    let bytes = http_out_v1_bytes(&out);
    let val: Value = serde_json::from_slice(&bytes).unwrap();
    assert_eq!(val["v"], 1);
    assert_eq!(val["headers"][0][0], "Content-Type");
    assert_eq!(val["headers"][0][1], "application/json");
}

#[test]
fn http_out_error_returns_valid_json() {
    let bytes = http_out_error(400, "bad request");
    let val: Value = serde_json::from_slice(&bytes).unwrap();
    assert_eq!(val["status"], 400);
    assert_eq!(val["v"], 1);
    assert_eq!(val["body_b64"], "YmFkIHJlcXVlc3Q=");
    assert!(val["headers"].as_array().unwrap().is_empty());
}
