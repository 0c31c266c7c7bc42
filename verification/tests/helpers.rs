use greentic_state::component::{canonical_cbor_bytes, decode_cbor, QuestionKind, SchemaIr};
use greentic_state::helpers::{
    encode_error, existing_config_from_answers, i18n, i18n_bundle_from_pairs, i18n_keys_from,
    json_bytes, op, optional_string_from, qa_asset_ref, qa_asset_ref_with_base, qa_inline_json,
    qa_inline_json_with_schema, qa_q, qa_spec_for_mode, render_plan_error, schema_bool_ir,
    schema_core_healthcheck, schema_core_validate_config, schema_obj, schema_secret, schema_str,
    schema_str_fmt, send_payload_error, send_payload_success, string_or_default, QaQuestionDef,
};
use greentic_state::helpers::decode_with_fallback;
use greentic_state::json::{Json, JsonNumber};
use greentic_state::pipeline::{
    cbor_json_invoke_bridge, extract_ac_plan, extract_ac_summary, load_config_generic,
    render_plan_common, send_payload_dispatch, RenderPlanConfig,
};
use greentic_state::planner::PlannerCapabilities;
use serde_json::Value;
use base64::Engine;
use greentic_types::messaging::universal_dto::RenderPlanInV1;
use greentic_types::{Actor, ChannelMessageEnvelope, EnvId, TenantCtx, TenantId};
use std::collections::BTreeMap;

fn to_json(v: &Value) -> Json {
    match v {
        Value::Null => Json::Null,
        Value::Bool(b) => Json::Bool(*b),
        Value::Number(n) => match (n.as_u64(), n.as_i64()) {
            (Some(u), _) => Json::Number(JsonNumber::PosInt(u)),
            (None, Some(i)) => Json::Number(JsonNumber::NegInt(i)),
            _ => Json::Number(JsonNumber::Decimal(n.to_string())),
        },
        Value::String(s) => Json::Str(s.clone()),
        Value::Array(a) => Json::Array(a.iter().map(to_json).collect()),
        Value::Object(o) => Json::Object(o.iter().map(|(k, x)| (k.clone(), to_json(x))).collect()),
    }
}

fn from_json(j: &Json) -> Value {
    match j {
        Json::Null => Value::Null,
        Json::Bool(b) => Value::Bool(*b),
        Json::Number(JsonNumber::PosInt(u)) => Value::from(*u),
        Json::Number(JsonNumber::NegInt(i)) => Value::from(*i),
        Json::Number(JsonNumber::Decimal(s)) => serde_json::from_str(s).unwrap(),
        Json::Str(s) => Value::String(s.clone()),
        Json::Array(a) => Value::Array(a.iter().map(from_json).collect()),
        Json::Object(m) => Value::Object(m.iter().map(|(k, x)| (k.clone(), from_json(x))).collect()),
    }
}

fn parse(text: &str) -> Json {
    to_json(&serde_json::from_str::<Value>(text).unwrap())
}

fn value(bytes: &[u8]) -> Value {
    serde_json::from_slice(bytes).unwrap()
}

// ---------------------------------------------------------------------------
// Builders and answers
// ---------------------------------------------------------------------------

#[test]
fn json_bytes_produces_valid_json() {
    let bytes = json_bytes(&parse(r#"{"ok": true}"#));
    let parsed: Value = serde_json::from_slice(&bytes).unwrap();
    assert_eq!(parsed["ok"], true);
}

#[test]
fn string_or_default_returns_value_when_present() {
    let answers = parse(r#"{"name": "Alice"}"#);
    assert_eq!(string_or_default(&answers, "name", "Bob"), "Alice");
}

#[test]
fn string_or_default_returns_default_when_missing() {
    let answers = parse(r#"{}"#);
    assert_eq!(string_or_default(&answers, "name", "Bob"), "Bob");
}

#[test]
fn string_or_default_returns_default_when_empty() {
    let answers = parse(r#"{"name": "  "}"#);
    assert_eq!(string_or_default(&answers, "name", "Bob"), "Bob");
}

#[test]
fn string_or_default_trims_value() {
    let answers = parse(r#"{"name": "  Alice  ", "n": 3}"#);
    assert_eq!(string_or_default(&answers, "name", "Bob"), "Alice");
    assert_eq!(string_or_default(&answers, "n", "Bob"), "Bob");
}

#[test]
fn optional_string_from_returns_some() {
    let answers = parse(r#"{"name": "Alice"}"#);
    assert_eq!(optional_string_from(&answers, "name"), Some("Alice".into()));
}

#[test]
fn optional_string_from_returns_none_for_empty() {
    let answers = parse(r#"{"name": ""}"#);
    assert_eq!(optional_string_from(&answers, "name"), None);
}

#[test]
fn optional_string_from_returns_none_for_missing() {
    let answers = parse(r#"{}"#);
    assert_eq!(optional_string_from(&answers, "name"), None);
}

#[test]
fn existing_config_from_answers_prefers_existing_config() {
    let answers = parse(r#"{"existing_config": {"a": 1}, "config": {"a": 2}}"#);
    let val = existing_config_from_answers(&answers);
    assert_eq!(from_json(&val.unwrap())["a"], 1);
}

#[test]
fn existing_config_from_answers_falls_back_to_config() {
    let answers = parse(r#"{"config": {"a": 2}}"#);
    let val = existing_config_from_answers(&answers);
    assert_eq!(from_json(&val.unwrap())["a"], 2);
}

#[test]
fn existing_config_from_answers_none_without_config() {
    assert!(existing_config_from_answers(&parse(r#"{"a": 1}"#)).is_none());
}

#[test]
fn send_payload_error_serializes_correctly() {
    let bytes = send_payload_error("bad", true);
    let val: Value = serde_json::from_slice(&bytes).unwrap();
    assert_eq!(val["ok"], false);
    assert_eq!(val["message"], "bad");
    assert_eq!(val["retryable"], true);
}

#[test]
fn send_payload_success_serializes_correctly() {
    let bytes = send_payload_success();
    let val: Value = serde_json::from_slice(&bytes).unwrap();
    assert_eq!(val["ok"], true);
    assert_eq!(val["message"], Value::Null);
    assert_eq!(val["retryable"], false);
}

#[test]
fn error_responses_carry_message() {
    let val = value(&render_plan_error("no plan"));
    assert_eq!(val["ok"], false);
    assert_eq!(val["error"], "no plan");
    let val = value(&encode_error("no encode"));
    assert_eq!(val["error"], "no encode");
}

#[test]
fn op_builds_descriptor() {
    let desc = op("send", "p.send.title", "p.send.desc");
    assert_eq!(desc.name, "send");
    assert_eq!(desc.title.key, "p.send.title");
    assert_eq!(desc.description.key, "p.send.desc");
}

#[test]
fn qa_q_builds_question() {
    let q = qa_q("name", "p.qa.name", true);
    assert_eq!(q.id, "name");
    assert_eq!(q.label.key, "p.qa.name");
    assert!(q.required);
}

#[test]
fn qa_question_kinds() {
    let q = qa_inline_json("cfg", "p.qa.cfg", false);
    assert!(matches!(q.kind, QuestionKind::InlineJson { schema: None }));
    assert!(!q.required);
    let q = qa_inline_json_with_schema("cfg", "p.qa.cfg", true, parse(r#"{"type":"object"}"#));
    assert!(matches!(q.kind, QuestionKind::InlineJson { schema: Some(_) }));
    let q = qa_asset_ref("logo", "p.qa.logo", true, vec!["png".to_string()]);
    match q.kind {
        QuestionKind::AssetRef { file_types, base_path, check_exists } => {
            assert_eq!(file_types, vec!["png".to_string()]);
            assert_eq!(base_path, Some("assets/".to_string()));
            assert!(check_exists);
        }
        _ => panic!("expected an asset reference"),
    }
    let q = qa_asset_ref_with_base("logo", "p.qa.logo", false, Vec::new(), None, false);
    match q.kind {
        QuestionKind::AssetRef { base_path, check_exists, .. } => {
            assert_eq!(base_path, None);
            assert!(!check_exists);
        }
        _ => panic!("expected an asset reference"),
    }
    assert_eq!(i18n("a.b").key, "a.b");
}

#[test]
fn schema_core_validate_config_returns_ok() {
    let bytes = schema_core_validate_config();
    let val: Value = serde_json::from_slice(&bytes).unwrap();
    assert_eq!(val["ok"], true);
}

#[test]
fn schema_core_healthcheck_returns_healthy() {
    let bytes = schema_core_healthcheck();
    let val: Value = serde_json::from_slice(&bytes).unwrap();
    assert_eq!(val["status"], "healthy");
}

#[test]
fn i18n_keys_from_copies_keys() {
    assert_eq!(i18n_keys_from(&["a", "b"]), vec!["a".to_string(), "b".to_string()]);
}

#[test]
fn i18n_bundle_defaults_blank_locale_to_en() {
    let bytes = i18n_bundle_from_pairs("  ".to_string(), &[("k", "v")]);
    let bundle = decode_cbor(&bytes).unwrap();
    let val = from_json(&bundle);
    assert_eq!(val["locale"], "en");
    assert_eq!(val["messages"]["k"], "v");
    let bytes = i18n_bundle_from_pairs("fr".to_string(), &[]);
    assert_eq!(from_json(&decode_cbor(&bytes).unwrap())["locale"], "fr");
}

#[test]
fn schema_builders_set_fields() {
    match schema_str("t", "d") {
        SchemaIr::String { title, description, format, secret } => {
            assert_eq!(title.key, "t");
            assert_eq!(description.key, "d");
            assert!(format.is_none());
            assert!(!secret);
        }
        _ => panic!("expected a string schema"),
    }
    assert!(matches!(schema_str_fmt("t", "d", "uri"), SchemaIr::String { format: Some(_), .. }));
    assert!(matches!(schema_secret("t", "d"), SchemaIr::String { secret: true, .. }));
    assert!(matches!(schema_bool_ir("t", "d"), SchemaIr::Bool { .. }));
}

#[test]
fn schema_obj_sorts_fields_and_keeps_last_definition() {
    let obj = schema_obj(
        "t",
        "d",
        vec![
            ("zeta", true, schema_str("z", "z")),
            ("alpha", false, schema_str("a", "a")),
            ("zeta", false, schema_bool_ir("z2", "z2")),
        ],
        true,
    );
    match obj {
        SchemaIr::Object { fields, additional_properties, .. } => {
            assert!(additional_properties);
            let names: Vec<&str> = fields.iter().map(|(n, _)| n.as_str()).collect();
            assert_eq!(names, vec!["alpha", "zeta"]);
            assert!(!fields[1].1.required);
            assert!(matches!(fields[1].1.schema, SchemaIr::Bool { .. }));
        }
        _ => panic!("expected an object schema"),
    }
}

#[test]
fn qa_spec_modes() {
    let setup: &[QaQuestionDef] = &[("token", "t.qa.token", true), ("url", "t.qa.url", false)];
    let spec = qa_spec_for_mode("default", "t", setup, &["url", "missing"]);
    assert_eq!(spec.mode, "default");
    assert_eq!(spec.title.key, "t.qa.default.title");
    assert_eq!(spec.questions.len(), 1);
    assert_eq!(spec.questions[0].id, "url");
    assert!(spec.questions[0].required);
    let spec = qa_spec_for_mode("setup", "t", setup, &[]);
    assert_eq!(spec.questions.len(), 2);
    assert!(spec.questions[0].required);
    assert!(!spec.questions[1].required);
    let spec = qa_spec_for_mode("upgrade", "t", setup, &[]);
    assert_eq!(spec.questions.len(), 2);
    assert!(spec.questions.iter().all(|q| !q.required));
    let spec = qa_spec_for_mode("anything", "t", setup, &["url"]);
    assert_eq!(spec.mode, "remove");
    assert_eq!(spec.title.key, "t.qa.remove.title");
    assert!(spec.questions.is_empty());
}

// ---------------------------------------------------------------------------
// Render plan
// ---------------------------------------------------------------------------

fn make_plan_input(text: Option<&str>, ac_json: Option<&str>) -> Vec<u8> {
    let mut metadata = BTreeMap::new();
    if let Some(ac) = ac_json {
        metadata.insert("adaptive_card".to_string(), ac.to_string());
    }
    let env = EnvId::try_from("default").unwrap();
    let tenant = TenantId::try_from("default").unwrap();
    let plan_in = RenderPlanInV1 {
        message: ChannelMessageEnvelope {
            id: "test-envelope".to_string(),
            tenant: TenantCtx::new(env, tenant),
            channel: "test".to_string(),
            session_id: "test-session".to_string(),
            reply_scope: None,
            from: Some(Actor { id: "test-user".to_string(), kind: None }),
            correlation_id: None,
            to: Vec::new(),
            text: text.map(|t| t.to_string()),
            attachments: Vec::new(),
            metadata,
            extensions: BTreeMap::new(),
        },
        metadata: BTreeMap::new(),
    };
    serde_json::to_vec(&plan_in).unwrap()
}

fn parse_plan(bytes: &[u8]) -> Value {
    let response: Value = serde_json::from_slice(bytes).unwrap();
    assert_eq!(response["ok"], true);
    let plan_json_str = response["plan"]["plan_json"].as_str().unwrap();
    serde_json::from_str(plan_json_str).unwrap()
}

#[test]
fn render_plan_ac_capable_returns_tier_a_with_attachment() {
    let ac = r#"{"type":"AdaptiveCard","body":[{"type":"TextBlock","text":"Hello","weight":"Bolder"}]}"#;
    let input = make_plan_input(None, Some(ac));
    let config = RenderPlanConfig {
        capabilities: PlannerCapabilities {
            supports_adaptive_cards: true,
            supports_buttons: true,
            supports_images: true,
            supports_markdown: true,
            supports_html: true,
            max_text_len: None,
            max_payload_bytes: None,
        },
        default_summary: "test message",
    };
    let result = render_plan_common(&input, &config);
    let plan = parse_plan(&result);
    assert_eq!(plan["tier"], "TierA");
    assert!(!plan["attachments"].as_array().unwrap().is_empty());
}

#[test]
fn render_plan_text_only_provider_downsample_ac() {
    let ac = r#"{"type":"AdaptiveCard","body":[{"type":"TextBlock","text":"Important info"}]}"#;
    let input = make_plan_input(None, Some(ac));
    let config = RenderPlanConfig {
        capabilities: PlannerCapabilities::default(),
        default_summary: "test message",
    };
    let result = render_plan_common(&input, &config);
    let plan = parse_plan(&result);
    assert_eq!(plan["tier"], "TierD");
    assert_eq!(plan["summary_text"], "Important info");
    let warnings = plan["warnings"].as_array().unwrap();
    assert!(
        warnings.iter().any(|w| w["code"] == "adaptive_card_downsampled"),
        "expected adaptive_card_downsampled warning"
    );
}

#[test]
fn render_plan_no_ac_uses_message_text() {
    let input = make_plan_input(Some("Hello world"), None);
    let config = RenderPlanConfig {
        capabilities: PlannerCapabilities::default(),
        default_summary: "fallback",
    };
    let result = render_plan_common(&input, &config);
    let plan = parse_plan(&result);
    assert_eq!(plan["tier"], "TierD");
    assert_eq!(plan["summary_text"], "Hello world");
    assert!(plan["warnings"].as_array().unwrap().is_empty());
}

#[test]
fn render_plan_no_text_no_ac_uses_default_summary() {
    let input = make_plan_input(None, None);
    let config = RenderPlanConfig {
        capabilities: PlannerCapabilities::default(),
        default_summary: "fallback summary",
    };
    let result = render_plan_common(&input, &config);
    let plan = parse_plan(&result);
    assert_eq!(plan["tier"], "TierD");
    assert_eq!(plan["summary_text"], "fallback summary");
}

#[test]
fn render_plan_text_truncation_with_max_text_len() {
    let long_text = "A".repeat(5000);
    let input = make_plan_input(Some(&long_text), None);
    let config = RenderPlanConfig {
        capabilities: PlannerCapabilities { max_text_len: Some(100), ..Default::default() },
        default_summary: "fallback",
    };
    let result = render_plan_common(&input, &config);
    let plan = parse_plan(&result);
    let summary = plan["summary_text"].as_str().unwrap();
    assert!(summary.chars().count() <= 100);
    let warnings = plan["warnings"].as_array().unwrap();
    assert!(
        warnings.iter().any(|w| w["code"] == "text_truncated"),
        "expected text_truncated warning"
    );
}

#[test]
fn render_plan_invalid_input_is_an_error() {
    let result = render_plan_common(b"not json", &RenderPlanConfig {
        capabilities: PlannerCapabilities::default(),
        default_summary: "x",
    });
    let val = value(&result);
    assert_eq!(val["ok"], false);
    assert!(val["error"].as_str().unwrap().starts_with("invalid render input: "));
}

#[test]
fn render_plan_writes_all_plan_fields() {
    let input = make_plan_input(Some("hi"), None);
    let config = RenderPlanConfig {
        capabilities: PlannerCapabilities::default(),
        default_summary: "x",
    };
    let plan = parse_plan(&render_plan_common(&input, &config));
    assert!(plan["actions"].as_array().unwrap().is_empty());
    assert!(plan["attachments"].as_array().unwrap().is_empty());
    assert!(plan["debug"].as_object().unwrap().is_empty());
}

#[test]
fn ac_summary_and_plan() {
    let caps = PlannerCapabilities::default();
    let ac = r#"{"type":"AdaptiveCard","body":[{"type":"TextBlock","text":"Title","weight":"Bolder"},{"type":"TextBlock","text":"Body"},{"type":"Image","url":"https://x/y.png"}],"actions":[{"type":"Action.OpenUrl","title":"Go","url":"https://x"}]}"#;
    let summary = extract_ac_summary(ac, &caps).unwrap();
    assert!(summary.starts_with("Title\n\nBody"));
    let plan = extract_ac_plan(ac, &caps).unwrap();
    assert_eq!(plan.title, Some("Title".to_string()));
    assert_eq!(plan.summary, summary);
    assert_eq!(plan.actions.len(), 1);
    assert_eq!(plan.images, vec!["https://x/y.png".to_string()]);
    assert!(extract_ac_summary("not json", &caps).is_none());
    assert!(extract_ac_plan(r#"{"type":"AdaptiveCard"}"#, &caps).is_none());
}

// ---------------------------------------------------------------------------
// send_payload dispatch
// ---------------------------------------------------------------------------

fn send_input(provider_type: &str, body: &[u8]) -> Vec<u8> {
    let body_b64 = base64::engine::general_purpose::STANDARD.encode(body);
    let text = format!(
        r#"{{"provider_type":"{provider_type}","payload":{{"content_type":"application/json","body_b64":"{body_b64}"}}}}"#
    );
    text.into_bytes()
}

#[test]
fn send_payload_dispatch_forwards_payload() {
    let input = send_input("slack", br#"{"text":"hi"}"#);
    let out = send_payload_dispatch(&input, "slack", |payload| {
        let v: Value = serde_json::from_slice(payload).unwrap();
        assert_eq!(v["text"], "hi");
        br#"{"ok":true}"#.to_vec()
    });
    assert_eq!(value(&out)["ok"], true);
}

#[test]
fn send_payload_dispatch_reports_sender_error() {
    let input = send_input("slack", br#"{"text":"hi"}"#);
    let out = send_payload_dispatch(&input, "slack", |_| br#"{"ok":false,"error":"rate limited"}"#.to_vec());
    let val = value(&out);
    assert_eq!(val["ok"], false);
    assert_eq!(val["message"], "rate limited");
    let out = send_payload_dispatch(&input, "slack", |_| b"garbage".to_vec());
    assert_eq!(value(&out)["message"], "send_payload failed");
}

#[test]
fn send_payload_dispatch_rejects_other_provider() {
    let input = send_input("teams", b"{}");
    let out = send_payload_dispatch(&input, "slack", |_| panic!("must not send"));
    let val = value(&out);
    assert_eq!(val["ok"], false);
    assert_eq!(val["message"], "provider type mismatch");
    assert_eq!(val["retryable"], false);
}

#[test]
fn send_payload_dispatch_rejects_bad_input() {
    let out = send_payload_dispatch(b"{}", "slack", |_| panic!("must not send"));
    let msg = value(&out)["message"].as_str().unwrap().to_string();
    assert!(msg.starts_with("invalid send_payload input: "));
    let bad = br#"{"provider_type":"slack","payload":{"content_type":"x","body_b64":"***"}}"#;
    let out = send_payload_dispatch(bad, "slack", |_| panic!("must not send"));
    let msg = value(&out)["message"].as_str().unwrap().to_string();
    assert!(msg.starts_with("payload decode failed: "));
}

#[test]
fn send_payload_dispatch_sends_null_for_non_json_payload() {
    let input = send_input("slack", b"plain text");
    let out = send_payload_dispatch(&input, "slack", |payload| {
        assert_eq!(payload, b"null");
        br#"{"ok":true}"#.to_vec()
    });
    assert_eq!(value(&out)["ok"], true);
}

// ---------------------------------------------------------------------------
// CBOR / JSON bridge and config loader
// ---------------------------------------------------------------------------

#[test]
fn cbor_json_invoke_bridge_renames_run() {
    let input = canonical_cbor_bytes(&parse(r#"{"x": 1}"#));
    let out = cbor_json_invoke_bridge("run", &input, Some("send"), |op, json| {
        assert_eq!(op, "send");
        let v: Value = serde_json::from_slice(json).unwrap();
        assert_eq!(v["x"], 1);
        br#"{"ok":true}"#.to_vec()
    });
    assert_eq!(from_json(&decode_cbor(&out).unwrap())["ok"], true);
    let out = cbor_json_invoke_bridge("run", &input, None, |op, _| {
        assert_eq!(op, "run");
        b"not json".to_vec()
    });
    let val = from_json(&decode_cbor(&out).unwrap());
    assert_eq!(val["ok"], false);
    assert_eq!(val["error"], "provider produced invalid json");
}

#[test]
fn cbor_json_invoke_bridge_reports_bad_cbor() {
    let out = cbor_json_invoke_bridge("send", &[0xff, 0x00], None, |_, _| panic!("must not dispatch"));
    let val = from_json(&decode_cbor(&out).unwrap());
    assert_eq!(val["ok"], false);
    assert!(val["error"].as_str().unwrap().starts_with("invalid input cbor: "));
}

#[test]
fn load_config_generic_prefers_config_then_fields() {
    let decode = |j: Json| -> Result<Value, String> { Ok(from_json(&j)) };
    let input = parse(r#"{"config": {"a": 1}, "a": 2}"#);
    assert_eq!(load_config_generic(&input, &["a"], decode).unwrap()["a"], 1);
    let input = parse(r#"{"a": 2, "b": 3, "c": 4}"#);
    let v = load_config_generic(&input, &["a", "b", "z"], decode).unwrap();
    assert_eq!(v["a"], 2);
    assert_eq!(v["b"], 3);
    assert!(v.get("c").is_none());
    let err = load_config_generic(&parse(r#"{"q": 1}"#), &["a"], decode).unwrap_err();
    assert_eq!(err, "missing config: expected `config` or top-level config fields");
    let failing = |_: Json| -> Result<Value, String> { Err("bad field".to_string()) };
    let err = load_config_generic(&parse(r#"{"config": {}}"#), &[], failing).unwrap_err();
    assert_eq!(err, "invalid config: bad field");
}

#[test]
fn decode_with_fallback_prefers_first_then_fallback() {
    let ok: Result<u32, String> = decode_with_fallback(Ok(1), || panic!("not tried"));
    assert_eq!(ok, Ok(1));
    let second: Result<u32, String> = decode_with_fallback(Err("a".to_string()), || Ok(2));
    assert_eq!(second, Ok(2));
    let both: Result<u32, String> =
        decode_with_fallback(Err("bad message".to_string()), || Err("bad envelope".to_string()));
    assert_eq!(
        both,
        Err("invalid encode input: bad message; envelope fallback failed: bad envelope".to_string())
    );
}

#[test]
fn hex_lower_writes_two_digits_per_byte() {
    assert_eq!(greentic_state::component::hex_lower(&[0x00, 0xab, 0x7f, 0x10]), "00ab7f10");
    assert_eq!(greentic_state::component::hex_lower(&[]), "");
}
