//! Renderers that turn a channel message into a render plan: a pass-through
//! renderer and a renderer that downsamples Adaptive Cards to the channel.

use vstd::prelude::*;
use crate::ac_extract::{card_of, extract_planner_card};
use crate::codec::{parse_json_bytes, parsed_json};
use crate::context::RenderContext;
use crate::json::{Json, JV};
use crate::plan::{item_views, opt_view, ItemV, PlanV, RenderItem, RenderPlan, RenderTier, RenderWarning};
use crate::planner::{planned, plan_render, PlannerCapabilities};
use crate::text::{copy_str, str_eq, trim, trimmed};

verus! {

/// How the renderer treats Adaptive Cards.
#[derive(Debug, Clone, Copy, PartialEq, Eq, Structural)]
pub enum RendererMode {
    /// Pass text and saved cards through unchanged.
    Passthrough,
    /// Downsample cards to what the channel supports.
    Downsample,
}

/// What the renderer reads of a channel message envelope: its text and its
/// string metadata.
#[derive(Debug, Clone, Default)]
pub struct MessageEnvelope {
    pub text: Option<String>,
    pub metadata: Vec<(String, String)>,
}

pub struct EnvelopeV {
    pub text: Option<Seq<char>>,
    pub metadata: Seq<(Seq<char>, Seq<char>)>,
}

impl View for MessageEnvelope {
    type V = EnvelopeV;

    open spec fn view(&self) -> EnvelopeV {
        EnvelopeV {
            text: opt_view(self.text),
            metadata: self.metadata@.map_values(|p: (String, String)| (p.0@, p.1@)),
        }
    }
}

/// The first metadata entry named `key`.
pub open spec fn meta_get(m: Seq<(Seq<char>, Seq<char>)>, key: Seq<char>) -> Option<Seq<char>>
    decreases m.len(),
{
    if m.len() == 0 {
        None
    } else if m[0].0 == key {
        Some(m[0].1)
    } else {
        meta_get(m.drop_first(), key)
    }
}

/// The saved Adaptive Card: the `adaptive_card` metadata entry, when it parses as JSON.
pub open spec fn saved_card(env: EnvelopeV) -> Option<JV> {
    match meta_get(env.metadata, "adaptive_card"@) {
        Some(raw) => parsed_json(vstd::utf8::encode_utf8(raw)),
        None => None,
    }
}

/// The trimmed message text, when it is not blank.
pub open spec fn summary_of_text(text: Option<Seq<char>>) -> Option<Seq<char>> {
    match text {
        Some(t) => if trimmed(t).len() > 0 {
            Some(trimmed(t))
        } else {
            None
        },
        None => None,
    }
}

pub open spec fn mode_name(mode: RendererMode) -> Seq<char> {
    match mode {
        RendererMode::Passthrough => "Passthrough"@,
        RendererMode::Downsample => "Downsample"@,
    }
}

/// The debug value of a pass-through plan: the mode and the target.
pub open spec fn noop_debug(mode: RendererMode, target: Option<Seq<char>>) -> JV {
    JV::Object(debug_members(mode, target))
}

pub open spec fn debug_members(mode: RendererMode, target: Option<Seq<char>>) -> Seq<(Seq<char>, JV)> {
        seq![
            ("mode"@, JV::Str(mode_name(mode))),
            (
                "target"@,
                match target {
                    Some(t) => JV::Str(t),
                    None => JV::Null,
                },
            ),
        ]
}

/// The pass-through plan: tier A, the trimmed text, the saved card unchanged.
pub open spec fn noop_plan(env: EnvelopeV, target: Option<Seq<char>>, mode: RendererMode) -> PlanV {
    let summary = summary_of_text(env.text);
    PlanV {
        tier: RenderTier::TierA,
        summary_text: summary,
        items: match summary {
            Some(t) => seq![ItemV::Text(t)],
            None => Seq::empty(),
        } + match saved_card(env) {
            Some(c) => seq![ItemV::AdaptiveCard(c)],
            None => Seq::empty(),
        },
        warnings: Seq::empty(),
        debug: Some(noop_debug(mode, target)),
    }
}

pub open spec fn has_card_item(items: Seq<ItemV>) -> bool {
    exists|i: int| 0 <= i < items.len() && #[trigger] items[i] is AdaptiveCard
}

/// The downsampling plan.
pub open spec fn downsample_plan(
    caps: PlannerCapabilities,
    env: EnvelopeV,
    target: Option<Seq<char>>,
    mode: RendererMode,
) -> PlanV {
    if mode == RendererMode::Passthrough {
        noop_plan(env, target, mode)
    } else {
        match saved_card(env) {
            Some(ac) => {
                let p = planned(
                    card_of(ac),
                    caps,
                    if caps.supports_adaptive_cards {
                        Some(ac)
                    } else {
                        None
                    },
                );
                if caps.supports_adaptive_cards && !has_card_item(p.items) {
                    PlanV {
                        tier: p.tier,
                        summary_text: p.summary_text,
                        items: p.items.push(ItemV::AdaptiveCard(ac)),
                        warnings: p.warnings,
                        debug: p.debug,
                    }
                } else {
                    p
                }
            },
            None => {
                let summary = summary_of_text(env.text);
                PlanV {
                    tier: RenderTier::TierD,
                    summary_text: summary,
                    items: match summary {
                        Some(t) => seq![ItemV::Text(t)],
                        None => Seq::empty(),
                    },
                    warnings: Seq::empty(),
                    debug: None,
                }
            },
        }
    }
}

fn meta_lookup<'a>(m: &'a Vec<(String, String)>, key: &str) -> (r: Option<&'a String>)
    ensures
        r is Some <==> meta_get(m@.map_values(|p: (String, String)| (p.0@, p.1@)), key@) is Some,
        r matches Some(v) ==> meta_get(m@.map_values(|p: (String, String)| (p.0@, p.1@)), key@)
            == Some(v@),
{
    let ghost mv = m@.map_values(|p: (String, String)| (p.0@, p.1@));
    let mut i: usize = 0;
    assert(mv.skip(0) == mv);
    while i < m.len()
        invariant
            i <= m.len(),
            mv == m@.map_values(|p: (String, String)| (p.0@, p.1@)),
            meta_get(mv, key@) == meta_get(mv.skip(i as int), key@),
        decreases m.len() - i,
    {
        assert(mv.skip(i as int)[0] == mv[i as int]);
        if str_eq(m[i].0.as_str(), key) {
            return Some(&m[i].1);
        }
        assert(mv.skip(i as int).drop_first() == mv.skip(i + 1));
        i += 1;
    }
    None
}

/// The saved Adaptive Card of the envelope, when its metadata holds one that parses.
pub fn parse_adaptive_card(envelope: &MessageEnvelope) -> (r: Option<Json>)
    ensures
        match r {
            Some(j) => saved_card(envelope@) == Some(j@),
            None => saved_card(envelope@) is None,
        },
{
    match meta_lookup(&envelope.metadata, "adaptive_card") {
        Some(raw) => match parse_json_bytes(raw.as_str().as_bytes()) {
            Ok(j) => Some(j),
            Err(_) => None,
        },
        None => None,
    }
}

fn summary_from_text(text: &Option<String>) -> (r: Option<String>)
    ensures
        opt_view(r) == summary_of_text(opt_view(*text)),
{
    match text {
        Some(t) => {
            let tt = trim(t.as_str());
            if tt.as_str().is_empty() {
                None
            } else {
                Some(tt)
            }
        },
        None => None,
    }
}

/// Trait describing a renderer that turns an envelope into a plan.
pub trait CardRenderer {
    fn render_plan(
        &self,
        envelope: &MessageEnvelope,
        context: &RenderContext,
        mode: RendererMode,
    ) -> RenderPlan;
}

/// No-op renderer that passes text and saved Adaptive Cards through unchanged.
#[derive(Debug, Default, Clone, Copy)]
pub struct NoopCardRenderer;

fn noop_render(envelope: &MessageEnvelope, context: &RenderContext, mode: RendererMode) -> (r:
    RenderPlan)
    ensures
        r@ == noop_plan(envelope@, opt_view(context.target), mode),
{
    let summary_text = summary_from_text(&envelope.text);
    let mut items: Vec<RenderItem> = Vec::new();
    if let Some(text) = &summary_text {
        items.push(RenderItem::Text(text.clone()));
    }
    let ghost text_items = item_views(items@);
    if let Some(card) = parse_adaptive_card(envelope) {
        items.push(RenderItem::AdaptiveCard(card));
    }
    let mode_text = match mode {
        RendererMode::Passthrough => copy_str("Passthrough"),
        RendererMode::Downsample => copy_str("Downsample"),
    };
    let target = match &context.target {
        Some(t) => Json::Str(t.clone()),
        None => Json::Null,
    };
    let mut members: Vec<(String, Json)> = Vec::new();
    members.push((copy_str("mode"), Json::Str(mode_text)));
    members.push((copy_str("target"), target));
    proof {
        crate::json::lemma_member_views(members@);
    }
    assert(crate::json::member_views(members@) =~= debug_members(mode, opt_view(context.target)));
    let debug = Json::Object(members);
    assert(debug@ == JV::Object(crate::json::member_views(members@)));
    assert(debug@ == noop_debug(mode, opt_view(context.target)));
    let warnings: Vec<RenderWarning> = Vec::new();
    let r = RenderPlan { tier: RenderTier::TierA, summary_text, items, warnings, debug: Some(debug) };
    proof {
        crate::json::lemma_member_views(members@);
    }
    assert(r@.items =~= noop_plan(envelope@, opt_view(context.target), mode).items);
    assert(r@.warnings =~= Seq::empty());
    assert(r@.summary_text == noop_plan(envelope@, opt_view(context.target), mode).summary_text);
    assert(r@.debug == noop_plan(envelope@, opt_view(context.target), mode).debug);
    r
}

impl CardRenderer for NoopCardRenderer {
    fn render_plan(&self, envelope: &MessageEnvelope, context: &RenderContext, mode: RendererMode) -> (r:
        RenderPlan)
        ensures
            r@ == noop_plan(envelope@, opt_view(context.target), mode),
    {
        noop_render(envelope, context, mode)
    }
}

/// Convenience helper that builds a plan using the no-op renderer.
pub fn render_plan_from_envelope(
    envelope: &MessageEnvelope,
    context: &RenderContext,
    mode: RendererMode,
) -> (r: RenderPlan)
    ensures
        r@ == noop_plan(envelope@, opt_view(context.target), mode),
{
    noop_render(envelope, context, mode)
}

/// Renderer that applies deterministic downsampling based on channel capabilities.
pub struct DownsampleCardRenderer {
    pub capabilities: PlannerCapabilities,
}

fn any_card_item(items: &Vec<RenderItem>) -> (r: bool)
    ensures
        r == has_card_item(item_views(items@)),
{
    let mut i: usize = 0;
    while i < items.len()
        invariant
            i <= items.len(),
            forall|j: int| 0 <= j < i ==> !(#[trigger] item_views(items@)[j] is AdaptiveCard),
        decreases items.len() - i,
    {
        if let RenderItem::AdaptiveCard(_) = &items[i] {
            assert(item_views(items@)[i as int] is AdaptiveCard);
            return true;
        }
        i += 1;
    }
    false
}

impl CardRenderer for DownsampleCardRenderer {
    fn render_plan(&self, envelope: &MessageEnvelope, context: &RenderContext, mode: RendererMode) -> (r:
        RenderPlan)
        ensures
            r@ == downsample_plan(self.capabilities, envelope@, opt_view(context.target), mode),
    {
        if mode == RendererMode::Passthrough {
            return noop_render(envelope, context, mode);
        }
        let ac = parse_adaptive_card(envelope);
        match ac {
            Some(ac_value) => {
                let card = extract_planner_card(&ac_value);
                let ac_ref = if self.capabilities.supports_adaptive_cards {
                    Some(&ac_value)
                } else {
                    None
                };
                let mut plan = plan_render(&card, &self.capabilities, ac_ref);
                if self.capabilities.supports_adaptive_cards && !any_card_item(&plan.items) {
                    let ghost before = plan.items@;
                    plan.items.push(RenderItem::AdaptiveCard(ac_value));
                    assert(item_views(plan.items@) =~= item_views(before).push(
                        plan.items@.last()@,
                    ));
                }
                plan
            },
            None => {
                let summary_text = summary_from_text(&envelope.text);
                let mut items: Vec<RenderItem> = Vec::new();
                if let Some(text) = &summary_text {
                    items.push(RenderItem::Text(text.clone()));
                }
                let r = RenderPlan {
                    tier: RenderTier::TierD,
                    summary_text,
                    items,
                    warnings: Vec::new(),
                    debug: None,
                };
                assert(r@.items =~= downsample_plan(
                    self.capabilities,
                    envelope@,
                    opt_view(context.target),
                    mode,
                ).items);
                assert(r@.warnings =~= Seq::empty());
                r
            },
        }
    }
}


// ---------------------------------------------------------------------------
// Laws
// ---------------------------------------------------------------------------

/// The pass-through renderer keeps the saved Adaptive Card unchanged, as the
/// last item of its plan.
pub proof fn law_noop_keeps_card_unchanged(env: EnvelopeV, target: Option<Seq<char>>, mode: RendererMode)
    ensures
        saved_card(env) matches Some(c) ==> noop_plan(env, target, mode).items.len() > 0
            && noop_plan(env, target, mode).items.last() == ItemV::AdaptiveCard(c),
        saved_card(env) is None ==> !has_card_item(noop_plan(env, target, mode).items),
{
    if saved_card(env) is None {
        let items = noop_plan(env, target, mode).items;
        assert forall|i: int| 0 <= i < items.len() implies !(#[trigger] items[i] is AdaptiveCard) by {
            assert(items.len() <= 1);
        }
    }
}

/// In downsample mode, a channel without Adaptive Card support gets text
/// only: its plan holds no card.
pub proof fn law_downsample_without_card_support_is_text(
    caps: PlannerCapabilities,
    env: EnvelopeV,
    target: Option<Seq<char>>,
)
    requires
        !caps.supports_adaptive_cards,
    ensures
        !has_card_item(downsample_plan(caps, env, target, RendererMode::Downsample).items),
        downsample_plan(caps, env, target, RendererMode::Downsample).tier == RenderTier::TierD,
{
    let p = downsample_plan(caps, env, target, RendererMode::Downsample);
    match saved_card(env) {
        Some(ac) => {
            crate::planner::law_no_card_is_tier_d(card_of(ac), caps);
        },
        None => {
            assert forall|i: int| 0 <= i < p.items.len() implies !(#[trigger] p.items[i] is AdaptiveCard) by {
                assert(p.items.len() <= 1);
            }
        },
    }
}

/// In downsample mode, a channel with Adaptive Card support always gets the
/// saved card in its plan.
pub proof fn law_downsample_with_card_support_keeps_card(
    caps: PlannerCapabilities,
    env: EnvelopeV,
    target: Option<Seq<char>>,
)
    requires
        caps.supports_adaptive_cards,
        saved_card(env) is Some,
    ensures
        downsample_plan(caps, env, target, RendererMode::Downsample).items.contains(
            ItemV::AdaptiveCard(saved_card(env)->Some_0),
        ),
{
    let ac = saved_card(env)->Some_0;
    crate::planner::law_supported_card_is_attached(card_of(ac), caps, ac);
    let p = planned(card_of(ac), caps, Some(ac));
    assert(p.items[p.items.len() - 1] == ItemV::AdaptiveCard(ac));
}

} // verus!
