use greentic_state::ac_extract::extract_planner_card;
use greentic_state::context::RenderContext;
use greentic_state::errors::RendererError;
use greentic_state::json::{Json, JsonNumber};
use greentic_state::plan::{RenderItem, RenderTier};
use greentic_state::planner::{
    build_summary_text, plan_render, sanitize_text, select_tier, strip_html_tags,
    strip_markdown_markers, truncate_bytes, truncate_chars, PlannerCapabilities, PlannerCard,
};
use greentic_state::renderer::{
    parse_adaptive_card, render_plan_from_envelope, CardRenderer, DownsampleCardRenderer,
    MessageEnvelope, NoopCardRenderer, RendererMode,
};

fn to_json(v: &serde_json::Value) -> Json {
    match v {
        serde_json::Value::Null => Json::Null,
        serde_json::Value::Bool(b) => Json::Bool(*b),
        serde_json::Value::Number(n) => match (n.as_u64(), n.as_i64()) {
            (Some(u), _) => Json::Number(JsonNumber::PosInt(u)),
            (None, Some(i)) => Json::Number(JsonNumber::NegInt(i)),
            _ => Json::Number(JsonNumber::Decimal(n.to_string())),
        },
        serde_json::Value::String(s) => Json::Str(s.clone()),
        serde_json::Value::Array(a) => Json::Array(a.iter().map(to_json).collect()),
        serde_json::Value::Object(o) => {
            Json::Object(o.iter().map(|(k, x)| (k.clone(), to_json(x))).collect())
        }
    }
}

fn parse(text: &str) -> Json {
    to_json(&serde_json::from_str::<serde_json::Value>(text).unwrap())
}

// ---------------------------------------------------------------------------
// Adaptive Card extraction
// ---------------------------------------------------------------------------

#[test]
fn extracts_simple_textblock() {
    let ac = parse(r#"{"type": "AdaptiveCard", "body": [{"type": "TextBlock", "text": "Hello World"}]}"#);
    let card = extract_planner_card(&ac);
    assert_eq!(card.text, Some("Hello World".to_string()));
    assert!(card.title.is_none());
}

#[test]
fn extracts_title_from_bold_textblock() {
    let ac = parse(
        r#"{"type": "AdaptiveCard", "body": [
            {"type": "TextBlock", "text": "My Title", "weight": "Bolder"},
            {"type": "TextBlock", "text": "Body text"}
        ]}"#,
    );
    let card = extract_planner_card(&ac);
    assert_eq!(card.title, Some("My Title".to_string()));
    assert_eq!(card.text, Some("Body text".to_string()));
}

#[test]
fn extracts_title_from_large_textblock() {
    let ac = parse(
        r#"{"type": "AdaptiveCard", "body": [
            {"type": "TextBlock", "text": "Big Title", "size": "Large"},
            {"type": "TextBlock", "text": "Normal text"}
        ]}"#,
    );
    let card = extract_planner_card(&ac);
    assert_eq!(card.title, Some("Big Title".to_string()));
}

#[test]
fn extracts_actions() {
    let ac = parse(
        r#"{"type": "AdaptiveCard", "body": [], "actions": [
            {"type": "Action.OpenUrl", "title": "Visit", "url": "https://example.com"},
            {"type": "Action.Submit", "title": "Submit"}
        ]}"#,
    );
    let card = extract_planner_card(&ac);
    assert_eq!(card.actions.len(), 2);
    assert_eq!(card.actions[0].title, "Visit");
    assert_eq!(card.actions[0].url, Some("https://example.com".to_string()));
    assert_eq!(card.actions[1].title, "Submit");
    assert!(card.actions[1].url.is_none());
}

#[test]
fn extracts_images() {
    let ac = parse(
        r#"{"type": "AdaptiveCard", "body": [
            {"type": "Image", "url": "https://example.com/img1.png"},
            {"type": "ImageSet", "images": [
                {"type": "Image", "url": "https://example.com/img2.png"},
                {"type": "Image", "url": "https://example.com/img3.png"}
            ]}
        ]}"#,
    );
    let card = extract_planner_card(&ac);
    assert_eq!(card.images.len(), 3);
}

#[test]
fn handles_nested_container() {
    let ac = parse(
        r#"{"type": "AdaptiveCard", "body": [
            {"type": "Container", "items": [{"type": "TextBlock", "text": "Inside container"}]}
        ]}"#,
    );
    let card = extract_planner_card(&ac);
    assert_eq!(card.text, Some("Inside container".to_string()));
}

#[test]
fn handles_columnset() {
    let ac = parse(
        r#"{"type": "AdaptiveCard", "body": [
            {"type": "ColumnSet", "columns": [
                {"items": [{"type": "TextBlock", "text": "Col 1"}]},
                {"items": [{"type": "TextBlock", "text": "Col 2"}]}
            ]}
        ]}"#,
    );
    let card = extract_planner_card(&ac);
    assert_eq!(card.text, Some("Col 1\nCol 2".to_string()));
}

#[test]
fn handles_factset() {
    let ac = parse(
        r#"{"type": "AdaptiveCard", "body": [
            {"type": "FactSet", "facts": [
                {"title": "Name", "value": "John"},
                {"title": "Age", "value": "30"}
            ]}
        ]}"#,
    );
    let card = extract_planner_card(&ac);
    assert!(card.text.as_ref().unwrap().contains("Name: John"));
    assert!(card.text.as_ref().unwrap().contains("Age: 30"));
}

#[test]
fn handles_rich_text_block() {
    let ac = parse(
        r#"{"type": "AdaptiveCard", "body": [
            {"type": "RichTextBlock", "inlines": [
                {"type": "TextRun", "text": "Rich "},
                {"type": "TextRun", "text": "text"}
            ]}
        ]}"#,
    );
    let card = extract_planner_card(&ac);
    assert_eq!(card.text, Some("Rich text".to_string()));
}

#[test]
fn handles_actionset_in_body() {
    let ac = parse(
        r#"{"type": "AdaptiveCard", "body": [
            {"type": "ActionSet", "actions": [
                {"type": "Action.OpenUrl", "title": "Click", "url": "https://example.com"}
            ]}
        ]}"#,
    );
    let card = extract_planner_card(&ac);
    assert_eq!(card.actions.len(), 1);
    assert_eq!(card.actions[0].title, "Click");
}

#[test]
fn handles_empty_card() {
    let ac = parse(r#"{"type": "AdaptiveCard"}"#);
    let card = extract_planner_card(&ac);
    assert!(card.title.is_none());
    assert!(card.text.is_none());
    assert!(card.actions.is_empty());
    assert!(card.images.is_empty());
}

#[test]
fn skips_empty_text_blocks() {
    let ac = parse(
        r#"{"type": "AdaptiveCard", "body": [
            {"type": "TextBlock", "text": ""},
            {"type": "TextBlock", "text": "   "},
            {"type": "TextBlock", "text": "Real text"}
        ]}"#,
    );
    let card = extract_planner_card(&ac);
    assert_eq!(card.text, Some("Real text".to_string()));
}

// ---------------------------------------------------------------------------
// Planner
// ---------------------------------------------------------------------------

#[test]
fn truncate_chars_no_op() {
    let (result, truncated) = truncate_chars("hello", 10);
    assert_eq!(result, "hello");
    assert!(!truncated);
}

#[test]
fn truncate_chars_cuts() {
    let (result, truncated) = truncate_chars("hello world", 6);
    assert!(truncated);
    assert!(result.len() <= 10);
    assert!(result.ends_with('\u{2026}'));
}

#[test]
fn truncate_bytes_no_op() {
    let (result, truncated) = truncate_bytes("hello", 100);
    assert_eq!(result, "hello");
    assert!(!truncated);
}

#[test]
fn truncate_bytes_cuts() {
    let (result, truncated) = truncate_bytes("hello world this is long", 10);
    assert!(truncated);
    assert!(result.len() <= 13);
}

#[test]
fn truncate_chars_exact_value() {
    let (result, truncated) = truncate_chars("hello world", 6);
    assert_eq!(result, "hello\u{2026}");
    assert!(truncated);
    let (empty, cut) = truncate_chars("abc", 0);
    assert_eq!(empty, "");
    assert!(cut);
}

#[test]
fn truncate_bytes_exact_value() {
    // The cut keeps the characters that end within `max - 3` bytes, so the
    // ellipsis still fits in `max`.
    let (result, truncated) = truncate_bytes("hello world this is long", 10);
    assert_eq!(result, "hello w\u{2026}");
    assert_eq!(result.len(), 10);
    let (wide, _) = truncate_bytes("a\u{1F600}bcdef", 7);
    assert_eq!(wide, "a\u{2026}");
    assert!(wide.len() <= 7);
    assert!(truncated);
    let (tiny, cut) = truncate_bytes("hello", 3);
    assert_eq!(tiny, "");
    assert!(cut);
}

#[test]
fn sanitize_strips_html() {
    let caps = PlannerCapabilities { supports_html: false, ..Default::default() };
    let (result, changed) = sanitize_text("<b>bold</b> text", &caps);
    assert_eq!(result, "bold text");
    assert!(changed);
}

#[test]
fn sanitize_strips_markdown() {
    let caps = PlannerCapabilities { supports_markdown: false, ..Default::default() };
    let (result, changed) = sanitize_text("**bold** and `code`", &caps);
    assert_eq!(result, "bold and code");
    assert!(changed);
}

#[test]
fn sanitize_preserves_when_supported() {
    let caps = PlannerCapabilities {
        supports_html: true,
        supports_markdown: true,
        ..Default::default()
    };
    let input = "<b>bold</b> **md**";
    let (result, changed) = sanitize_text(input, &caps);
    assert_eq!(result, input);
    assert!(!changed);
}

#[test]
fn strip_helpers_remove_markup() {
    assert_eq!(strip_html_tags("a<i>b</i>c"), "abc");
    assert_eq!(strip_markdown_markers("__x__ ~~y~~ `z`"), "x y z");
}

#[test]
fn select_tier_no_ac() {
    let caps = PlannerCapabilities::default();
    assert_eq!(select_tier(&caps, false), RenderTier::TierD);
}

#[test]
fn select_tier_ac_supported_full() {
    let caps = PlannerCapabilities {
        supports_adaptive_cards: true,
        supports_buttons: true,
        supports_images: true,
        ..Default::default()
    };
    assert_eq!(select_tier(&caps, true), RenderTier::TierA);
}

#[test]
fn select_tier_ac_supported_partial() {
    let caps = PlannerCapabilities {
        supports_adaptive_cards: true,
        supports_buttons: false,
        supports_images: true,
        ..Default::default()
    };
    assert_eq!(select_tier(&caps, true), RenderTier::TierB);
}

#[test]
fn select_tier_ac_not_supported() {
    let caps = PlannerCapabilities { supports_adaptive_cards: false, ..Default::default() };
    assert_eq!(select_tier(&caps, true), RenderTier::TierD);
}

#[test]
fn plan_render_text_only() {
    let card = PlannerCard {
        title: Some("Hello".into()),
        text: Some("World".into()),
        ..Default::default()
    };
    let caps = PlannerCapabilities::default();
    let plan = plan_render(&card, &caps, None);
    assert_eq!(plan.tier, RenderTier::TierD);
    assert!(plan.summary_text.is_some());
    assert!(plan.warnings.is_empty());
}

#[test]
fn plan_render_with_ac_downsample() {
    let card = PlannerCard {
        title: Some("Title".into()),
        text: Some("Body".into()),
        ..Default::default()
    };
    let caps = PlannerCapabilities::default();
    let ac = parse(r#"{"type": "AdaptiveCard"}"#);
    let plan = plan_render(&card, &caps, Some(&ac));
    assert_eq!(plan.tier, RenderTier::TierD);
    assert!(plan.warnings.iter().any(|w| w.code == "adaptive_card_downsampled"));
}

#[test]
fn plan_render_with_ac_passthrough() {
    let card = PlannerCard {
        title: Some("Title".into()),
        text: Some("Body".into()),
        ..Default::default()
    };
    let caps = PlannerCapabilities {
        supports_adaptive_cards: true,
        supports_buttons: true,
        supports_images: true,
        ..Default::default()
    };
    let ac = parse(r#"{"type": "AdaptiveCard"}"#);
    let plan = plan_render(&card, &caps, Some(&ac));
    assert_eq!(plan.tier, RenderTier::TierA);
    assert!(plan.items.iter().any(|i| matches!(i, RenderItem::AdaptiveCard(_))));
}

#[test]
fn plan_summary_joins_title_and_text() {
    let card = PlannerCard {
        title: Some(" Hello ".into()),
        text: Some("World".into()),
        ..Default::default()
    };
    let plan = plan_render(&card, &PlannerCapabilities::default(), None);
    assert_eq!(plan.summary_text, Some("Hello\n\nWorld".to_string()));
}

#[test]
fn plan_partial_tier_warns_unsupported_elements() {
    let card = PlannerCard {
        text: Some("Body".into()),
        images: vec!["https://example.com/a.png".into()],
        ..Default::default()
    };
    let caps = PlannerCapabilities {
        supports_adaptive_cards: true,
        supports_buttons: true,
        supports_images: false,
        ..Default::default()
    };
    let ac = parse(r#"{"type": "AdaptiveCard"}"#);
    let plan = plan_render(&card, &caps, Some(&ac));
    assert_eq!(plan.tier, RenderTier::TierB);
    assert!(plan.warnings.iter().any(|w| w.code == "unsupported_elements_removed"));
    assert!(matches!(plan.items.last(), Some(RenderItem::AdaptiveCard(_))));
}

#[test]
fn summary_lists_action_labels_without_buttons() {
    let card = PlannerCard {
        text: Some("Pick one".into()),
        actions: vec![
            greentic_state::planner::PlannerAction {
                title: "Open".into(),
                url: Some("https://example.com".into()),
            },
            greentic_state::planner::PlannerAction { title: "Ok".into(), url: None },
        ],
        ..Default::default()
    };
    let mut warnings = Vec::new();
    let summary = build_summary_text(&card, &PlannerCapabilities::default(), &mut warnings);
    assert_eq!(summary, Some("Pick one\n\n[Open](https://example.com) | Ok".to_string()));
    assert!(warnings.is_empty());
}

#[test]
fn summary_truncation_reports_limit() {
    let card = PlannerCard { text: Some("A".repeat(50)), ..Default::default() };
    let caps = PlannerCapabilities { max_text_len: Some(10), ..Default::default() };
    let plan = plan_render(&card, &caps, None);
    let summary = plan.summary_text.unwrap();
    assert_eq!(summary.chars().count(), 10);
    assert_eq!(plan.warnings.len(), 1);
    assert_eq!(plan.warnings[0].code, "text_truncated");
    assert_eq!(plan.warnings[0].message, Some("Text truncated to 10 chars".to_string()));
}

// ---------------------------------------------------------------------------
// Renderers
// ---------------------------------------------------------------------------

fn envelope(text: Option<&str>, card: Option<&str>) -> MessageEnvelope {
    let mut metadata = Vec::new();
    if let Some(c) = card {
        metadata.push(("adaptive_card".to_string(), c.to_string()));
    }
    MessageEnvelope { text: text.map(|t| t.to_string()), metadata }
}

#[test]
fn noop_renderer_passes_text_and_card_through() {
    let env = envelope(Some("  hi  "), Some(r#"{"type":"AdaptiveCard"}"#));
    let ctx = RenderContext::new(Some("slack".to_string()));
    let plan = NoopCardRenderer.render_plan(&env, &ctx, RendererMode::Passthrough);
    assert_eq!(plan.tier, RenderTier::TierA);
    assert_eq!(plan.summary_text, Some("hi".to_string()));
    assert_eq!(plan.items.len(), 2);
    assert!(matches!(plan.items[1], RenderItem::AdaptiveCard(_)));
    let same = render_plan_from_envelope(&env, &ctx, RendererMode::Passthrough);
    assert_eq!(same.summary_text, plan.summary_text);
}

#[test]
fn parse_adaptive_card_reads_metadata() {
    assert!(parse_adaptive_card(&envelope(None, Some(r#"{"type":"AdaptiveCard"}"#))).is_some());
    assert!(parse_adaptive_card(&envelope(None, Some("not json"))).is_none());
    assert!(parse_adaptive_card(&envelope(Some("x"), None)).is_none());
}

#[test]
fn downsample_renderer_converts_card_to_text() {
    let env = envelope(
        None,
        Some(r#"{"type":"AdaptiveCard","body":[{"type":"TextBlock","text":"Important"}]}"#),
    );
    let renderer = DownsampleCardRenderer { capabilities: PlannerCapabilities::default() };
    let plan = renderer.render_plan(&env, &RenderContext::default(), RendererMode::Downsample);
    assert_eq!(plan.tier, RenderTier::TierD);
    assert_eq!(plan.summary_text, Some("Important".to_string()));
    assert!(plan.warnings.is_empty());
    assert!(!plan.items.iter().any(|i| matches!(i, RenderItem::AdaptiveCard(_))));
}

#[test]
fn downsample_renderer_keeps_card_when_supported() {
    let env = envelope(None, Some(r#"{"type":"AdaptiveCard","body":[]}"#));
    let renderer = DownsampleCardRenderer {
        capabilities: PlannerCapabilities {
            supports_adaptive_cards: true,
            supports_buttons: true,
            supports_images: true,
            ..Default::default()
        },
    };
    let plan = renderer.render_plan(&env, &RenderContext::default(), RendererMode::Downsample);
    assert_eq!(plan.tier, RenderTier::TierA);
    assert!(plan.items.iter().any(|i| matches!(i, RenderItem::AdaptiveCard(_))));
}

#[test]
fn renderer_error_carries_message() {
    let err = RendererError::from("boom".to_string());
    assert_eq!(err.to_string(), "boom");
    assert_eq!(RendererError::from_str("bad").to_string(), "bad");
}

#[test]
fn summary_respects_byte_limit() {
    let card = PlannerCard { text: Some("\u{e9}".repeat(40)), ..Default::default() };
    let caps = PlannerCapabilities { max_payload_bytes: Some(21), ..Default::default() };
    let plan = plan_render(&card, &caps, None);
    let summary = plan.summary_text.unwrap();
    assert!(summary.len() <= 21);
    assert_eq!(summary, format!("{}\u{2026}", "\u{e9}".repeat(9)));
    assert!(plan.warnings.iter().any(|w| w.code == "payload_truncated"));
}
