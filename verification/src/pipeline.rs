//! The provider pipeline steps shared by every messaging provider: render
//! planning, Adaptive Card summaries, the send-payload dispatch, the CBOR /
//! JSON invoke bridge and the configuration loader.

use vstd::prelude::*;
use crate::ac_extract::{card_of, extract_planner_card};
use crate::codec::{
    b64_decode, base64_decoded, cbor_decoded, from_serde, json_bytes_of, json_text_of,
    json_to_string, json_to_vec, parse_json_bytes, parsed_json,
};
use crate::component::{canonical_cbor_bytes, cbor_bytes_of, decode_cbor};
use crate::helpers::{
    error_jv, error_json, json_bytes, send_payload_error, send_payload_success, send_result_jv,
};
use crate::json::{
    jget, jget_bool, jget_str, json_views, member_views, opt_str_json, opt_str_jv, push_member,
    Json, JV,
};
use crate::plan::{item_views, opt_view, warning_views, ItemV, PlanV, RenderItem, RenderTier, WarningV};
use crate::planner::{
    action_views, planned, plan_render, ActionV, CardV, PlannerAction, PlannerCapabilities,
    PlannerCard,
};
use crate::qa_invoke_bridge::members_insert;
use crate::renderer::{parse_adaptive_card, saved_card, EnvelopeV, MessageEnvelope};
use crate::text::{blank, copy_str, str_eq, trimmed, views};
use greentic_types::messaging::universal_dto::{RenderPlanInV1, SendPayloadInV1};

verus! {

// ---------------------------------------------------------------------------
// Requests read with the outside types
// ---------------------------------------------------------------------------

/// What a render-plan request carries: the message and the renderer hints.
pub struct RenderPlanInput {
    pub message: MessageEnvelope,
    pub metadata: Vec<(String, Json)>,
}

pub struct RenderInV {
    pub message: EnvelopeV,
    pub metadata: Seq<(Seq<char>, JV)>,
}

impl View for RenderPlanInput {
    type V = RenderInV;

    open spec fn view(&self) -> RenderInV {
        RenderInV { message: self.message@, metadata: member_views(self.metadata@) }
    }
}

/// What `serde_json::from_slice::<RenderPlanInV1>` reads from bytes (the
/// message's text and string metadata, and the hints), or its error text.
pub uninterp spec fn render_input_of(bytes: Seq<u8>) -> Result<RenderInV, Seq<char>>;

/// `serde_json::from_slice::<RenderPlanInV1>`: claims only that the result is
/// the one named by `render_input_of`.
#[verifier::external_body]
fn parse_render_input(bytes: &[u8]) -> (r: Result<RenderPlanInput, String>)
    ensures
        r is Ok <==> render_input_of(bytes@) is Ok,
        r matches Ok(v) ==> render_input_of(bytes@)->Ok_0 == v@,
        r matches Err(e) ==> render_input_of(bytes@)->Err_0 == e@,
{
    match serde_json::from_slice::<RenderPlanInV1>(bytes) {
        Ok(v) => Ok(RenderPlanInput {
            message: MessageEnvelope {
                text: v.message.text,
                metadata: v.message.metadata.into_iter().collect(),
            },
            metadata: v.metadata.into_iter().map(|(k, x)| (k, from_serde(x))).collect(),
        }),
        Err(e) => Err(e.to_string()),
    }
}

/// What `serde_json::from_slice::<SendPayloadInV1>` reads from bytes (the
/// provider type and the Base64 payload body), or its error text.
pub uninterp spec fn send_input_of(bytes: Seq<u8>) -> Result<(Seq<char>, Seq<char>), Seq<char>>;

/// `serde_json::from_slice::<SendPayloadInV1>`: claims only that the result
/// is the one named by `send_input_of`.
#[verifier::external_body]
fn parse_send_input(bytes: &[u8]) -> (r: Result<(String, String), String>)
    ensures
        r is Ok <==> send_input_of(bytes@) is Ok,
        r matches Ok(v) ==> send_input_of(bytes@)->Ok_0 == (v.0@, v.1@),
        r matches Err(e) ==> send_input_of(bytes@)->Err_0 == e@,
{
    match serde_json::from_slice::<SendPayloadInV1>(bytes) {
        Ok(v) => Ok((v.provider_type, v.payload.body_b64)),
        Err(e) => Err(e.to_string()),
    }
}

// ---------------------------------------------------------------------------
// Render planning
// ---------------------------------------------------------------------------

/// Configuration of [`render_plan_common`].
pub struct RenderPlanConfig<'a> {
    /// Channel capabilities that drive tier selection and text processing.
    pub capabilities: PlannerCapabilities,
    /// Fallback summary when the message has no text and no card.
    pub default_summary: &'a str,
}

/// The text when it is not blank (untrimmed).
pub open spec fn nonblank(o: Option<Seq<char>>) -> Option<Seq<char>> {
    match o {
        Some(t) => if trimmed(t).len() > 0 {
            Some(t)
        } else {
            None
        },
        None => None,
    }
}

/// The card of a message without an Adaptive Card: its non-blank text.
pub open spec fn text_card(text: Option<Seq<char>>) -> CardV {
    CardV { title: None, text: nonblank(text), actions: Seq::empty(), images: Seq::empty() }
}

/// The plan of a message: its saved Adaptive Card planned with the card
/// attached, else its text planned alone.
pub open spec fn message_plan(msg: EnvelopeV, caps: PlannerCapabilities) -> PlanV {
    match saved_card(msg) {
        Some(ac) => planned(card_of(ac), caps, Some(ac)),
        None => planned(text_card(msg.text), caps, None),
    }
}

pub open spec fn tier_name(t: RenderTier) -> Seq<char> {
    match t {
        RenderTier::TierA => "TierA"@,
        RenderTier::TierB => "TierB"@,
        RenderTier::TierC => "TierC"@,
        RenderTier::TierD => "TierD"@,
    }
}

/// The Adaptive Cards among the plan items, in order.
pub open spec fn attachments_of(items: Seq<ItemV>) -> Seq<JV>
    decreases items.len(),
{
    if items.len() == 0 {
        Seq::empty()
    } else {
        attachments_of(items.drop_last()) + match items.last() {
            ItemV::AdaptiveCard(a) => seq![a],
            _ => Seq::empty(),
        }
    }
}

pub open spec fn warning_members(w: WarningV) -> Seq<(Seq<char>, JV)> {
    seq![
        ("code"@, JV::Str(w.code)),
        ("message"@, opt_str_jv(w.message)),
        ("path"@, opt_str_jv(w.path)),
    ]
}

/// A warning as `{"code", "message", "path"}`.
pub open spec fn warning_jv(w: WarningV) -> JV {
    JV::Object(warning_members(w))
}

/// The summary: the plan's, else the message's non-blank text, else the default.
pub open spec fn summary_for(msg: EnvelopeV, caps: PlannerCapabilities, default: Seq<char>) -> Seq<
    char,
> {
    match message_plan(msg, caps).summary_text {
        Some(s) => s,
        None => match nonblank(msg.text) {
            Some(t) => t,
            None => default,
        },
    }
}

pub open spec fn plan_members(inp: RenderInV, caps: PlannerCapabilities, default: Seq<char>) -> Seq<
    (Seq<char>, JV),
> {
    let plan = message_plan(inp.message, caps);
    seq![
        ("tier"@, JV::Str(tier_name(plan.tier))),
        ("summary_text"@, JV::Str(summary_for(inp.message, caps, default))),
        ("actions"@, JV::Array(Seq::empty())),
        ("attachments"@, JV::Array(attachments_of(plan.items))),
        ("warnings"@, JV::Array(plan.warnings.map_values(|w: WarningV| warning_jv(w)))),
        ("debug"@, JV::Object(inp.metadata)),
    ]
}

/// The plan object written into the response.
pub open spec fn plan_object(inp: RenderInV, caps: PlannerCapabilities, default: Seq<char>) -> JV {
    JV::Object(plan_members(inp, caps, default))
}

pub open spec fn plan_out_members(plan_json: Seq<char>) -> Seq<(Seq<char>, JV)> {
    seq![("plan_json"@, JV::Str(plan_json))]
}

pub open spec fn plan_response_members(plan_json: Seq<char>) -> Seq<(Seq<char>, JV)> {
    seq![("ok"@, JV::Bool(true)), ("plan"@, JV::Object(plan_out_members(plan_json)))]
}

/// `{"ok": true, "plan": {"plan_json": ..}}`.
pub open spec fn plan_response(plan_json: Seq<char>) -> JV {
    JV::Object(plan_response_members(plan_json))
}

/// The response of `render_plan_common` for a request.
pub open spec fn render_response(bytes: Seq<u8>, caps: PlannerCapabilities, default: Seq<char>) -> Seq<
    u8,
> {
    match render_input_of(bytes) {
        Err(e) => json_bytes_of(error_jv("invalid render input: "@ + e)),
        Ok(inp) => json_bytes_of(plan_response(json_text_of(plan_object(inp, caps, default)))),
    }
}

/// The text when it is not blank.
fn nonblank_text(text: &Option<String>) -> (r: Option<String>)
    ensures
        opt_view(r) == nonblank(opt_view(*text)),
{
    match text {
        Some(t) => if blank(t.as_str()) {
            None
        } else {
            Some(t.clone())
        },
        None => None,
    }
}

/// The plan of a message on a channel.
pub fn plan_message(message: &MessageEnvelope, caps: &PlannerCapabilities) -> (r: crate::plan::RenderPlan)
    ensures
        r@ == message_plan(message@, *caps),
{
    match parse_adaptive_card(message) {
        Some(ac) => {
            let card = extract_planner_card(&ac);
            plan_render(&card, caps, Some(&ac))
        },
        None => {
            let card = PlannerCard {
                title: None,
                text: nonblank_text(&message.text),
                actions: Vec::new(),
                images: Vec::new(),
            };
            assert(card@.actions =~= Seq::empty());
            assert(card@.images =~= Seq::empty());
            plan_render(&card, caps, None)
        },
    }
}

fn tier_str(t: RenderTier) -> (r: &'static str)
    ensures
        r@ == tier_name(t),
{
    match t {
        RenderTier::TierA => "TierA",
        RenderTier::TierB => "TierB",
        RenderTier::TierC => "TierC",
        RenderTier::TierD => "TierD",
    }
}

fn attachments_json(items: &Vec<RenderItem>) -> (r: Vec<Json>)
    ensures
        json_views(r@) == attachments_of(item_views(items@)),
{
    let ghost iv = item_views(items@);
    let mut out: Vec<Json> = Vec::new();
    let mut i: usize = 0;
    while i < items.len()
        invariant
            i <= items.len(),
            iv == item_views(items@),
            iv.len() == items@.len(),
            json_views(out@) == attachments_of(iv.take(i as int)),
        decreases items.len() - i,
    {
        assert(iv.take(i + 1).drop_last() == iv.take(i as int));
        assert(iv[i as int] == items@[i as int]@);
        match &items[i] {
            RenderItem::AdaptiveCard(a) => {
                let ghost before = out@;
                let d = a.duplicate();
                out.push(d);
                assert(out@.drop_last() == before);
                assert(json_views(out@) =~= attachments_of(iv.take(i + 1)));
            },
            _ => {
                assert(attachments_of(iv.take(i + 1)) =~= attachments_of(iv.take(i as int)));
            },
        }
        i += 1;
    }
    assert(iv.take(i as int) == iv);
    out
}

fn warnings_json(ws: &Vec<crate::plan::RenderWarning>) -> (r: Vec<Json>)
    ensures
        json_views(r@) == warning_views(ws@).map_values(|w: WarningV| warning_jv(w)),
{
    let ghost target = warning_views(ws@).map_values(|w: WarningV| warning_jv(w));
    let mut out: Vec<Json> = Vec::new();
    let mut i: usize = 0;
    while i < ws.len()
        invariant
            i <= ws.len(),
            target == warning_views(ws@).map_values(|w: WarningV| warning_jv(w)),
            target.len() == ws@.len(),
            json_views(out@) == target.take(i as int),
        decreases ws.len() - i,
    {
        let w = &ws[i];
        let mut m: Vec<(String, Json)> = Vec::new();
        push_member(&mut m, "code", Json::Str(w.code.clone()));
        push_member(&mut m, "message", opt_str_json(&w.message));
        push_member(&mut m, "path", opt_str_json(&w.path));
        assert(member_views(m@) =~= warning_members(w@));
        let ghost before = out@;
        let j = Json::Object(m);
        out.push(j);
        assert(out@.drop_last() == before);
        assert(json_views(out@) == json_views(before).push(crate::json::json_view(j)));
        assert(warning_views(ws@)[i as int] == ws@[i as int]@);
        assert(target[i as int] == warning_jv(ws@[i as int]@));
        assert(json_views(out@) =~= target.take(i + 1));
        i += 1;
    }
    assert(target.take(i as int) == target);
    out
}

/// The plan object for a render request.
pub fn render_plan_object(input: RenderPlanInput, config: &RenderPlanConfig) -> (r: Json)
    ensures
        r@ == plan_object(input@, config.capabilities, config.default_summary@),
{
    let ghost inp = input@;
    let plan = plan_message(&input.message, &config.capabilities);
    let summary = match &plan.summary_text {
        Some(s) => s.clone(),
        None => match nonblank_text(&input.message.text) {
            Some(t) => t,
            None => copy_str(config.default_summary),
        },
    };
    let attachments = attachments_json(&plan.items);
    let warnings = warnings_json(&plan.warnings);
    let actions: Vec<Json> = Vec::new();
    assert(json_views(actions@) =~= Seq::empty());
    let mut m: Vec<(String, Json)> = Vec::new();
    push_member(&mut m, "tier", Json::from_str(tier_str(plan.tier)));
    push_member(&mut m, "summary_text", Json::Str(summary));
    push_member(&mut m, "actions", Json::Array(actions));
    push_member(&mut m, "attachments", Json::Array(attachments));
    push_member(&mut m, "warnings", Json::Array(warnings));
    push_member(&mut m, "debug", Json::Object(input.metadata));
    assert(member_views(m@) =~= plan_members(inp, config.capabilities, config.default_summary@));
    Json::Object(m)
}

/// Build a render plan response using the full renderer pipeline.
pub fn render_plan_common(input_json: &[u8], config: &RenderPlanConfig) -> (r: Vec<u8>)
    ensures
        r@ == render_response(input_json@, config.capabilities, config.default_summary@),
{
    let plan_in = match parse_render_input(input_json) {
        Ok(value) => value,
        Err(err) => {
            let mut msg = copy_str("invalid render input: ");
            msg.append(err.as_str());
            return json_bytes(&error_json(msg.as_str()));
        },
    };
    let plan_obj = render_plan_object(plan_in, config);
    let plan_json = json_to_string(&plan_obj);
    let mut out: Vec<(String, Json)> = Vec::new();
    push_member(&mut out, "plan_json", Json::Str(plan_json));
    assert(member_views(out@) =~= plan_out_members(json_text_of(plan_obj@)));
    let mut m: Vec<(String, Json)> = Vec::new();
    push_member(&mut m, "ok", Json::Bool(true));
    push_member(&mut m, "plan", Json::Object(out));
    assert(member_views(m@) =~= plan_response_members(json_text_of(plan_obj@)));
    json_bytes(&Json::Object(m))
}

// ---------------------------------------------------------------------------
// Adaptive Card summaries
// ---------------------------------------------------------------------------

/// The Adaptive Card in a raw text, when it parses as JSON.
pub open spec fn raw_card(raw: Seq<char>) -> Option<JV> {
    parsed_json(vstd::utf8::encode_utf8(raw))
}

/// The non-blank downsampled summary of a raw Adaptive Card.
pub open spec fn ac_summary_of(raw: Seq<char>, caps: PlannerCapabilities) -> Option<Seq<char>> {
    match raw_card(raw) {
        Some(ac) => nonblank(planned(card_of(ac), caps, Some(ac)).summary_text),
        None => None,
    }
}

/// Extract a downsampled text summary from an Adaptive Card JSON string:
/// the summary when the card parses and the summary is not blank.
pub fn extract_ac_summary(ac_raw: &str, caps: &PlannerCapabilities) -> (r: Option<String>)
    ensures
        opt_view(r) == ac_summary_of(ac_raw@, *caps),
{
    let ac = match parse_json_bytes(ac_raw.as_bytes()) {
        Ok(v) => v,
        Err(_) => return None,
    };
    let card = extract_planner_card(&ac);
    let plan = plan_render(&card, caps, Some(&ac));
    nonblank_text(&plan.summary_text)
}

/// Rich Adaptive Card extraction: title, body summary, actions and images.
pub struct AcPlan {
    /// Bold or large title text block, if any.
    pub title: Option<String>,
    /// Plain text summary of the body.
    pub summary: String,
    /// Buttons and links of the card's actions.
    pub actions: Vec<PlannerAction>,
    /// Image URLs of the card's images.
    pub images: Vec<String>,
}

pub struct AcPlanV {
    pub title: Option<Seq<char>>,
    pub summary: Seq<char>,
    pub actions: Seq<ActionV>,
    pub images: Seq<Seq<char>>,
}

impl View for AcPlan {
    type V = AcPlanV;

    open spec fn view(&self) -> AcPlanV {
        AcPlanV {
            title: opt_view(self.title),
            summary: self.summary@,
            actions: action_views(self.actions@),
            images: views(self.images@),
        }
    }
}

/// The rich extraction of a raw Adaptive Card, when it parses and its
/// summary is not blank.
pub open spec fn ac_plan_of(raw: Seq<char>, caps: PlannerCapabilities) -> Option<AcPlanV> {
    match (raw_card(raw), ac_summary_of(raw, caps)) {
        (Some(ac), Some(s)) => Some(
            AcPlanV {
                title: card_of(ac).title,
                summary: s,
                actions: card_of(ac).actions,
                images: card_of(ac).images,
            },
        ),
        _ => None,
    }
}

/// Extract text, actions and images from an Adaptive Card JSON string.
pub fn extract_ac_plan(ac_raw: &str, caps: &PlannerCapabilities) -> (r: Option<AcPlan>)
    ensures
        match r {
            Some(p) => ac_plan_of(ac_raw@, *caps) == Some(p@),
            None => ac_plan_of(ac_raw@, *caps) is None,
        },
{
    let ac = match parse_json_bytes(ac_raw.as_bytes()) {
        Ok(v) => v,
        Err(_) => return None,
    };
    let card = extract_planner_card(&ac);
    let plan = plan_render(&card, caps, Some(&ac));
    let summary = match nonblank_text(&plan.summary_text) {
        Some(s) => s,
        None => return None,
    };
    Some(AcPlan { title: card.title, summary, actions: card.actions, images: card.images })
}

// ---------------------------------------------------------------------------
// send_payload dispatch
// ---------------------------------------------------------------------------

/// What the send dispatch does before calling the sender: `Ok` with the
/// payload bytes handed to it, or `Err` with the error response.
pub open spec fn send_stage(input: Seq<u8>, provider_type: Seq<char>) -> Result<Seq<u8>, Seq<u8>> {
    match send_input_of(input) {
        Err(e) => Err(
            json_bytes_of(send_result_jv(false, Some("invalid send_payload input: "@ + e), false)),
        ),
        Ok(v) => if v.0 != provider_type {
            Err(json_bytes_of(send_result_jv(false, Some("provider type mismatch"@), false)))
        } else {
            match base64_decoded(v.1) {
                Err(e) => Err(
                    json_bytes_of(
                        send_result_jv(false, Some("payload decode failed: "@ + e), false),
                    ),
                ),
                Ok(bytes) => Ok(
                    json_bytes_of(
                        match parsed_json(bytes) {
                            Some(p) => p,
                            None => JV::Null,
                        },
                    ),
                ),
            }
        },
    }
}

/// The response for the sender's reply: success when it says `"ok": true`,
/// else an error with its `error` text (or `send_payload failed`).
pub open spec fn send_outcome(result: Seq<u8>) -> Seq<u8> {
    let v = match parsed_json(result) {
        Some(v) => v,
        None => JV::Null,
    };
    if jget_bool(v, "ok"@) == Some(true) {
        json_bytes_of(send_result_jv(true, None, false))
    } else {
        json_bytes_of(
            send_result_jv(
                false,
                Some(
                    match jget_str(v, "error"@) {
                        Some(m) => m,
                        None => "send_payload failed"@,
                    },
                ),
                false,
            ),
        )
    }
}

/// The payload handed to the sender, or the error response.
pub fn send_payload_bytes(input_json: &[u8], provider_type: &str) -> (r: Result<Vec<u8>, Vec<u8>>)
    ensures
        match r {
            Ok(b) => send_stage(input_json@, provider_type@) == Ok::<Seq<u8>, Seq<u8>>(b@),
            Err(b) => send_stage(input_json@, provider_type@) == Err::<Seq<u8>, Seq<u8>>(b@),
        },
{
    let send_in = match parse_send_input(input_json) {
        Ok(value) => value,
        Err(err) => {
            let mut msg = copy_str("invalid send_payload input: ");
            msg.append(err.as_str());
            return Err(send_payload_error(msg.as_str(), false));
        },
    };
    if !str_eq(send_in.0.as_str(), provider_type) {
        return Err(send_payload_error("provider type mismatch", false));
    }
    let payload_bytes = match b64_decode(send_in.1.as_str()) {
        Ok(bytes) => bytes,
        Err(err) => {
            let mut msg = copy_str("payload decode failed: ");
            msg.append(err.as_str());
            return Err(send_payload_error(msg.as_str(), false));
        },
    };
    let payload = match parse_json_bytes(payload_bytes.as_slice()) {
        Ok(v) => v,
        Err(_) => Json::Null,
    };
    Ok(json_to_vec(&payload))
}

/// The response for the sender's reply.
pub fn send_result_response(result_bytes: &[u8]) -> (r: Vec<u8>)
    ensures
        r@ == send_outcome(result_bytes@),
{
    let result_value = match parse_json_bytes(result_bytes) {
        Ok(v) => v,
        Err(_) => Json::Null,
    };
    let ok = match result_value.get("ok") {
        Some(v) => match v.as_bool() {
            Some(b) => b,
            None => false,
        },
        None => false,
    };
    if ok {
        send_payload_success()
    } else {
        match result_value.get_str("error") {
            Some(m) => send_payload_error(m.as_str(), false),
            None => send_payload_error("send_payload failed", false),
        }
    }
}

/// Decode a send request, check its provider type, Base64-decode the payload
/// body and forward the payload JSON to `send_fn`; answer its result.
pub fn send_payload_dispatch(
    input_json: &[u8],
    provider_type: &str,
    send_fn: impl FnOnce(&[u8]) -> Vec<u8>,
) -> (r: Vec<u8>)
    requires
        forall|a: &[u8]| send_fn.requires((a,)),
    ensures
        match send_stage(input_json@, provider_type@) {
            Err(resp) => r@ == resp,
            Ok(payload) => exists|a: &[u8], res: Vec<u8>|
                a@ == payload && send_fn.ensures((a,), res) && r@ == send_outcome(res@),
        },
{
    let payload_bytes = match send_payload_bytes(input_json, provider_type) {
        Ok(b) => b,
        Err(resp) => return resp,
    };
    let a = payload_bytes.as_slice();
    let result_bytes = send_fn(a);
    let r = send_result_response(result_bytes.as_slice());
    assert(send_fn.ensures((a,), result_bytes));
    r
}

// ---------------------------------------------------------------------------
// CBOR / JSON invoke bridge
// ---------------------------------------------------------------------------

pub open spec fn opt_str_view(o: Option<&str>) -> Option<Seq<char>> {
    match o {
        Some(s) => Some(s@),
        None => None,
    }
}

/// The op dispatched: `run` is replaced by the alias when there is one.
pub open spec fn effective_op(op: Seq<char>, alias: Option<Seq<char>>) -> Seq<char> {
    if op == "run"@ {
        match alias {
            Some(a) => a,
            None => op,
        }
    } else {
        op
    }
}

/// The CBOR response for the dispatcher's JSON output.
pub open spec fn invoke_output(output_json: Seq<u8>) -> Seq<u8> {
    cbor_bytes_of(
        match parsed_json(output_json) {
            Some(v) => v,
            None => error_jv("provider produced invalid json"@),
        },
    )
}

/// The dispatcher's JSON output as a CBOR response.
pub fn invoke_output_cbor(output_json: &[u8]) -> (r: Vec<u8>)
    ensures
        r@ == invoke_output(output_json@),
{
    let output_value = match parse_json_bytes(output_json) {
        Ok(v) => v,
        Err(_) => error_json("provider produced invalid json"),
    };
    canonical_cbor_bytes(&output_value)
}

/// Decode the CBOR input, rename `run` to `run_alias`, dispatch the JSON
/// input to `dispatch_fn`, and answer its JSON output as CBOR.
pub fn cbor_json_invoke_bridge(
    op: &str,
    input_cbor: &[u8],
    run_alias: Option<&str>,
    dispatch_fn: impl FnOnce(&str, &[u8]) -> Vec<u8>,
) -> (r: Vec<u8>)
    requires
        forall|o: &str, b: &[u8]| dispatch_fn.requires((o, b)),
    ensures
        match cbor_decoded(input_cbor@) {
            Err(e) => r@ == cbor_bytes_of(error_jv("invalid input cbor: "@ + e)),
            Ok(v) => exists|o: &str, b: &[u8], res: Vec<u8>|
                o@ == effective_op(op@, opt_str_view(run_alias)) && b@ == json_bytes_of(v)
                    && dispatch_fn.ensures((o, b), res) && r@ == invoke_output(res@),
        },
{
    let input_value = match decode_cbor(input_cbor) {
        Ok(value) => value,
        Err(err) => {
            let mut msg = copy_str("invalid input cbor: ");
            msg.append(err.as_str());
            return canonical_cbor_bytes(&error_json(msg.as_str()));
        },
    };
    let input_json = json_to_vec(&input_value);
    let effective: &str = if str_eq(op, "run") {
        match run_alias {
            Some(a) => a,
            None => op,
        }
    } else {
        op
    };
    let b = input_json.as_slice();
    let output_json = dispatch_fn(effective, b);
    let r = invoke_output_cbor(output_json.as_slice());
    assert(dispatch_fn.ensures((effective, b), output_json));
    r
}

// ---------------------------------------------------------------------------
// Configuration loader
// ---------------------------------------------------------------------------

/// The members picked from the input for `keys`, as `serde_json::Map::insert`
/// collects them.
pub open spec fn partial_members(input: JV, keys: Seq<&str>) -> Seq<(Seq<char>, JV)>
    decreases keys.len(),
{
    if keys.len() == 0 {
        Seq::empty()
    } else {
        let rest = partial_members(input, keys.drop_last());
        match jget(input, keys.last()@) {
            Some(v) => members_insert(rest, keys.last()@, v),
            None => rest,
        }
    }
}

/// The value a configuration is read from: `input.config`, else the
/// object of the listed top-level fields, when any is present.
pub open spec fn config_source(input: JV, keys: Seq<&str>) -> Option<JV> {
    match jget(input, "config"@) {
        Some(c) => Some(c),
        None => if partial_members(input, keys).len() > 0 {
            Some(JV::Object(partial_members(input, keys)))
        } else {
            None
        },
    }
}

/// The loader's result for what the decoder returned: its value, or its
/// error behind `invalid config: `.
pub open spec fn config_result<T>(r: Result<T, String>, decoded: Result<T, String>) -> bool {
    match (r, decoded) {
        (Ok(a), Ok(b)) => a == b,
        (Err(a), Err(b)) => a@ == "invalid config: "@ + b@,
        _ => false,
    }
}

fn pick_members(input: &Json, keys: &[&str]) -> (r: Vec<(String, Json)>)
    ensures
        member_views(r@) == partial_members(input@, keys@),
{
    let mut partial: Vec<(String, Json)> = Vec::new();
    let mut i: usize = 0;
    assert(member_views(partial@) =~= Seq::empty());
    while i < keys.len()
        invariant
            i <= keys.len(),
            member_views(partial@) == partial_members(input@, keys@.take(i as int)),
        decreases keys.len() - i,
    {
        assert(keys@.take(i + 1).drop_last() == keys@.take(i as int));
        assert(keys@.take(i + 1).last() == keys@[i as int]);
        match input.get(keys[i]) {
            Some(v) => {
                crate::qa_invoke_bridge::insert_member(&mut partial, keys[i], v.duplicate());
            },
            None => {},
        }
        i += 1;
    }
    assert(keys@.take(i as int) == keys@);
    partial
}

/// Load a provider config from input JSON: `input.config` when present,
/// else the listed top-level fields; `decode` reads the configuration from
/// that value.
pub fn load_config_generic<T>(
    input: &Json,
    keys: &[&str],
    decode: impl FnOnce(Json) -> Result<T, String>,
) -> (r: Result<T, String>)
    requires
        forall|x: Json| decode.requires((x,)),
    ensures
        match config_source(input@, keys@) {
            None => r matches Err(e) && e@ == "missing config: expected `config` or top-level config fields"@,
            Some(v) => exists|x: Json, d: Result<T, String>|
                x@ == v && decode.ensures((x,), d) && config_result(r, d),
        },
{
    let source = match input.get("config") {
        Some(cfg) => cfg.duplicate(),
        None => {
            let partial = pick_members(input, keys);
            proof {
                crate::json::lemma_member_views(partial@);
            }
            if partial.len() == 0 {
                return Err(copy_str("missing config: expected `config` or top-level config fields"));
            }
            Json::Object(partial)
        },
    };
    let ghost x = source;
    let d = decode(source);
    let ghost dd = d;
    let r = match d {
        Ok(t) => Ok(t),
        Err(e) => {
            let mut msg = copy_str("invalid config: ");
            msg.append(e.as_str());
            Err(msg)
        },
    };
    assert(decode.ensures((x,), dd));
    r
}


// ---------------------------------------------------------------------------
// Laws
// ---------------------------------------------------------------------------

/// A message with neither an Adaptive Card nor text is summarized by the
/// default summary, at tier D, without warnings.
pub proof fn law_default_summary_when_nothing_to_say(
    msg: EnvelopeV,
    caps: PlannerCapabilities,
    default: Seq<char>,
)
    requires
        saved_card(msg) is None,
        nonblank(msg.text) is None,
    ensures
        summary_for(msg, caps, default) == default,
        message_plan(msg, caps).tier == RenderTier::TierD,
        message_plan(msg, caps).warnings.len() == 0,
{
    let card = text_card(msg.text);
    assert(crate::planner::summary_parts(card, caps) =~= Seq::empty());
}

/// A message without an Adaptive Card whose text is not blank is
/// summarized by the planner (its summary is never replaced by the default).
pub proof fn law_text_message_summary(msg: EnvelopeV, caps: PlannerCapabilities, default: Seq<char>)
    requires
        saved_card(msg) is None,
        nonblank(msg.text) is Some,
    ensures
        message_plan(msg, caps).summary_text is Some,
        summary_for(msg, caps, default) == message_plan(msg, caps).summary_text->Some_0,
{
    let card = text_card(msg.text);
    let t = msg.text->Some_0;
    assert(crate::planner::trimmed_part(card.text) == seq![trimmed(t)]);
    assert(crate::planner::summary_parts(card, caps).len() > 0);
}


/// Different tiers are written with different names, each naming its tier:
/// `TierA`, `TierB`, `TierC`, `TierD`; the plan JSON writes the name of the
/// plan's tier.
pub proof fn law_tier_names(t1: RenderTier, t2: RenderTier, inp: RenderInV, caps: PlannerCapabilities, default: Seq<char>)
    ensures
        tier_name(t1) == tier_name(t2) ==> t1 == t2,
        tier_name(RenderTier::TierA) == "TierA"@,
        tier_name(RenderTier::TierB) == "TierB"@,
        tier_name(RenderTier::TierC) == "TierC"@,
        tier_name(RenderTier::TierD) == "TierD"@,
        jget(plan_object(inp, caps, default), "tier"@) == Some(
            JV::Str(tier_name(message_plan(inp.message, caps).tier)),
        ),
{
    reveal_strlit("TierA");
    reveal_strlit("TierB");
    reveal_strlit("TierC");
    reveal_strlit("TierD");
    assert("TierA"@[4] == 'A' && "TierB"@[4] == 'B' && "TierC"@[4] == 'C' && "TierD"@[4] == 'D');
    crate::json::lemma_members_get_at(plan_members(inp, caps, default), 0, "tier"@);
}

} // verus!
