//! The render plan model produced by the renderer.

use vstd::prelude::*;
use crate::json::{Json, JV};
use crate::text::copy_str;

verus! {

/// Capability tiers that describe the quality of the rendered plan.
#[derive(Debug, Clone, Copy, PartialEq, Eq, Structural)]
pub enum RenderTier {
    TierA,
    TierB,
    TierC,
    TierD,
}

/// Warning emitted while constructing a render plan.
#[derive(Debug, Clone, PartialEq, Eq)]
pub struct RenderWarning {
    pub code: String,
    pub message: Option<String>,
    pub path: Option<String>,
}

/// The value of a warning.
pub struct WarningV {
    pub code: Seq<char>,
    pub message: Option<Seq<char>>,
    pub path: Option<Seq<char>>,
}

pub open spec fn opt_view(o: Option<String>) -> Option<Seq<char>> {
    match o {
        Some(s) => Some(s@),
        None => None,
    }
}

impl View for RenderWarning {
    type V = WarningV;

    open spec fn view(&self) -> WarningV {
        WarningV { code: self.code@, message: opt_view(self.message), path: opt_view(self.path) }
    }
}

pub open spec fn warning_views(s: Seq<RenderWarning>) -> Seq<WarningV> {
    s.map_values(|w: RenderWarning| w@)
}

/// A warning with a code and a message and no path.
pub open spec fn warn_v(code: Seq<char>, message: Seq<char>) -> WarningV {
    WarningV { code, message: Some(message), path: None }
}

/// Builds a warning with a code and a message and no path.
pub fn warning(code: &str, message: String) -> (w: RenderWarning)
    ensures
        w@ == warn_v(code@, message@),
{
    RenderWarning { code: copy_str(code), message: Some(message), path: None }
}

/// Items produced by the renderer.
#[derive(Debug)]
pub enum RenderItem {
    Text(String),
    AdaptiveCard(Json),
}

pub enum ItemV {
    Text(Seq<char>),
    AdaptiveCard(JV),
}

impl View for RenderItem {
    type V = ItemV;

    open spec fn view(&self) -> ItemV {
        match self {
            RenderItem::Text(t) => ItemV::Text(t@),
            RenderItem::AdaptiveCard(j) => ItemV::AdaptiveCard(j@),
        }
    }
}

pub open spec fn item_views(s: Seq<RenderItem>) -> Seq<ItemV> {
    s.map_values(|i: RenderItem| i@)
}

/// A render plan produced from a channel message envelope.
#[derive(Debug)]
pub struct RenderPlan {
    pub tier: RenderTier,
    pub summary_text: Option<String>,
    pub items: Vec<RenderItem>,
    pub warnings: Vec<RenderWarning>,
    pub debug: Option<Json>,
}

pub struct PlanV {
    pub tier: RenderTier,
    pub summary_text: Option<Seq<char>>,
    pub items: Seq<ItemV>,
    pub warnings: Seq<WarningV>,
    pub debug: Option<JV>,
}

pub open spec fn opt_json_view(o: Option<Json>) -> Option<JV> {
    match o {
        Some(j) => Some(j@),
        None => None,
    }
}

impl View for RenderPlan {
    type V = PlanV;

    open spec fn view(&self) -> PlanV {
        PlanV {
            tier: self.tier,
            summary_text: opt_view(self.summary_text),
            items: item_views(self.items@),
            warnings: warning_views(self.warnings@),
            debug: opt_json_view(self.debug),
        }
    }
}

impl Default for RenderPlan {
    fn default() -> (r: RenderPlan)
        ensures
            r@ == (PlanV {
                tier: RenderTier::TierD,
                summary_text: None,
                items: Seq::empty(),
                warnings: Seq::empty(),
                debug: None,
            }),
    {
        let r = RenderPlan {
            tier: RenderTier::TierD,
            summary_text: None,
            items: Vec::new(),
            warnings: Vec::new(),
            debug: None,
        };
        assert(item_views(r.items@) =~= Seq::empty());
        assert(warning_views(r.warnings@) =~= Seq::empty());
        r
    }
}

} // verus!
