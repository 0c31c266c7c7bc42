//! Deterministic render planner for messaging providers: tier selection,
//! text summary, sanitising and truncation, driven by channel capabilities.

use vstd::prelude::*;
use vstd::string::*;
use crate::json::{Json, JV};
use crate::plan::{
    item_views, opt_view, warn_v, warning, warning_views, ItemV, PlanV, RenderItem, RenderPlan,
    RenderTier, RenderWarning, WarningV,
};
use crate::text::{
    chars_of, copy_str, decimal, join, push_char, remove_all, remove_all_exec, seq_join, str_eq,
    string_of_range, trim, trimmed, u32_decimal, views,
};

verus! {

/// Describes what a target channel supports.
#[derive(Debug, Clone, Copy, PartialEq, Eq, Default)]
pub struct PlannerCapabilities {
    pub supports_adaptive_cards: bool,
    pub supports_markdown: bool,
    pub supports_html: bool,
    pub supports_images: bool,
    pub supports_buttons: bool,
    pub max_text_len: Option<u32>,
    pub max_payload_bytes: Option<u32>,
}

/// A button / link action extracted from an Adaptive Card.
#[derive(Debug, Clone, PartialEq, Eq)]
pub struct PlannerAction {
    pub title: String,
    pub url: Option<String>,
}

/// Intermediate card representation for the planner.
#[derive(Debug, Clone, Default)]
pub struct PlannerCard {
    pub title: Option<String>,
    pub text: Option<String>,
    pub actions: Vec<PlannerAction>,
    pub images: Vec<String>,
}

pub struct ActionV {
    pub title: Seq<char>,
    pub url: Option<Seq<char>>,
}

impl View for PlannerAction {
    type V = ActionV;

    open spec fn view(&self) -> ActionV {
        ActionV { title: self.title@, url: opt_view(self.url) }
    }
}

pub struct CardV {
    pub title: Option<Seq<char>>,
    pub text: Option<Seq<char>>,
    pub actions: Seq<ActionV>,
    pub images: Seq<Seq<char>>,
}

pub open spec fn action_views(s: Seq<PlannerAction>) -> Seq<ActionV> {
    s.map_values(|a: PlannerAction| a@)
}

impl View for PlannerCard {
    type V = CardV;

    open spec fn view(&self) -> CardV {
        CardV {
            title: opt_view(self.title),
            text: opt_view(self.text),
            actions: action_views(self.actions@),
            images: views(self.images@),
        }
    }
}

// ---------------------------------------------------------------------------
// Specifications
// ---------------------------------------------------------------------------

/// The horizontal ellipsis appended by both truncations.
pub open spec fn ellipsis() -> char {
    '\u{2026}'
}

/// Tier for a channel: D without a card; A when cards, buttons and images are
/// all supported; B when only cards are; D when cards are not supported.
pub open spec fn tier_for(caps: PlannerCapabilities, has_ac: bool) -> RenderTier {
    if !has_ac {
        RenderTier::TierD
    } else if caps.supports_adaptive_cards {
        if caps.supports_buttons && caps.supports_images {
            RenderTier::TierA
        } else {
            RenderTier::TierB
        }
    } else {
        RenderTier::TierD
    }
}

/// The card holds actions or images that the channel cannot show.
pub open spec fn unsupported_elements(card: CardV, caps: PlannerCapabilities) -> bool {
    (!caps.supports_buttons && card.actions.len() > 0) || (!caps.supports_images
        && card.images.len() > 0)
}

/// Removes everything from `<` to the next `>` (both included).
pub open spec fn strip_html_from(s: Seq<char>, in_tag: bool) -> Seq<char>
    decreases s.len(),
{
    if s.len() == 0 {
        s
    } else if s[0] == '<' {
        strip_html_from(s.drop_first(), true)
    } else if s[0] == '>' {
        strip_html_from(s.drop_first(), false)
    } else if !in_tag {
        seq![s[0]] + strip_html_from(s.drop_first(), false)
    } else {
        strip_html_from(s.drop_first(), true)
    }
}

pub open spec fn strip_html(s: Seq<char>) -> Seq<char> {
    strip_html_from(s, false)
}

/// Removes `**`, then `__`, then `~~`, then every backtick.
pub open spec fn strip_markdown(s: Seq<char>) -> Seq<char> {
    remove_all(remove_all(remove_all(remove_all(s, "**"@), "__"@), "~~"@), "`"@)
}

/// Sanitised text and whether anything changed.
pub open spec fn sanitized(s: Seq<char>, caps: PlannerCapabilities) -> (Seq<char>, bool) {
    let s1 = if !caps.supports_html {
        strip_html(s)
    } else {
        s
    };
    let c1 = !caps.supports_html && strip_html(s) != s;
    let s2 = if !caps.supports_markdown {
        strip_markdown(s1)
    } else {
        s1
    };
    let c2 = !caps.supports_markdown && strip_markdown(s1) != s1;
    (s2, c1 || c2)
}

/// At most `max` characters: unchanged when it fits, else the first `max - 1`
/// characters and an ellipsis (empty when `max` is 0).
pub open spec fn truncated_chars(s: Seq<char>, max: nat) -> (Seq<char>, bool) {
    if max == 0 {
        (Seq::empty(), s.len() > 0)
    } else if s.len() <= max {
        (s, false)
    } else {
        (s.take(max - 1).push(ellipsis()), true)
    }
}

/// UTF-8 width of a character.
pub open spec fn char_width(c: char) -> nat {
    let u = c as u32;
    if u < 0x80 {
        1
    } else if u < 0x800 {
        2
    } else if u < 0x10000 {
        3
    } else {
        4
    }
}

/// UTF-8 length of a string.
pub open spec fn ulen(s: Seq<char>) -> nat
    decreases s.len(),
{
    if s.len() == 0 {
        0
    } else {
        char_width(s[0]) + ulen(s.drop_first())
    }
}

/// Number of leading characters whose UTF-8 encoding ends within the first
/// `b` bytes.
pub open spec fn fit_count(s: Seq<char>, b: int) -> nat
    decreases s.len(),
{
    if s.len() == 0 || char_width(s[0]) > b {
        0
    } else {
        1 + fit_count(s.drop_first(), b - char_width(s[0]))
    }
}

/// Unchanged when the UTF-8 length fits in `max`; empty when `max < 4`;
/// else the characters that end within the first `max - 3` bytes and an
/// ellipsis, so that the result never exceeds `max` bytes.
pub open spec fn truncated_bytes(s: Seq<char>, max: nat) -> (Seq<char>, bool) {
    if ulen(s) <= max {
        (s, false)
    } else if max < 4 {
        (Seq::empty(), true)
    } else {
        (s.take(fit_count(s, max - 3) as int).push(ellipsis()), true)
    }
}

/// Label of an action for text-only channels.
pub open spec fn action_label(a: ActionV) -> Seq<char> {
    match a.url {
        Some(u) => "["@ + a.title + "]("@ + u + ")"@,
        None => a.title,
    }
}

pub open spec fn action_labels(s: Seq<ActionV>) -> Seq<Seq<char>> {
    s.map_values(|a: ActionV| action_label(a))
}

/// The trimmed text, when it is not blank.
pub open spec fn trimmed_part(o: Option<Seq<char>>) -> Seq<Seq<char>> {
    match o {
        Some(t) => if trimmed(t).len() > 0 {
            seq![trimmed(t)]
        } else {
            Seq::empty()
        },
        None => Seq::empty(),
    }
}

/// Parts of the summary: title, text, and (for channels without buttons)
/// the action labels joined by ` | `.
pub open spec fn summary_parts(card: CardV, caps: PlannerCapabilities) -> Seq<Seq<char>> {
    trimmed_part(card.title) + trimmed_part(card.text) + if !caps.supports_buttons
        && card.actions.len() > 0 {
        seq![seq_join(action_labels(card.actions), " | "@)]
    } else {
        Seq::empty()
    }
}

pub open spec fn w_sanitized() -> WarningV {
    warn_v("text_sanitized"@, "Text was sanitized for this channel"@)
}

pub open spec fn w_text_truncated(max: u32) -> WarningV {
    warn_v("text_truncated"@, "Text truncated to "@ + decimal(max as nat) + " chars"@)
}

pub open spec fn w_payload_truncated(max: u32) -> WarningV {
    warn_v("payload_truncated"@, "Payload truncated to "@ + decimal(max as nat) + " bytes"@)
}

pub open spec fn w_unsupported() -> WarningV {
    warn_v("unsupported_elements_removed"@, "Some card elements were removed for this channel"@)
}

pub open spec fn w_downsampled() -> WarningV {
    warn_v("adaptive_card_downsampled"@, "Adaptive Card was converted to text for this channel"@)
}

/// The summary text (none when the card has nothing to say) and the
/// warnings raised while building it.
pub open spec fn summary_of(card: CardV, caps: PlannerCapabilities) -> (
    Option<Seq<char>>,
    Seq<WarningV>,
) {
    let parts = summary_parts(card, caps);
    if parts.len() == 0 {
        (None, Seq::empty())
    } else {
        let t0 = seq_join(parts, "\n\n"@);
        let t1 = sanitized(t0, caps).0;
        let w1 = if sanitized(t0, caps).1 {
            seq![w_sanitized()]
        } else {
            Seq::empty()
        };
        let t2 = match caps.max_text_len {
            Some(m) => truncated_chars(t1, m as nat).0,
            None => t1,
        };
        let w2 = match caps.max_text_len {
            Some(m) => if truncated_chars(t1, m as nat).1 {
                seq![w_text_truncated(m)]
            } else {
                Seq::empty()
            },
            None => Seq::empty(),
        };
        let t3 = match caps.max_payload_bytes {
            Some(m) => truncated_bytes(t2, m as nat).0,
            None => t2,
        };
        let w3 = match caps.max_payload_bytes {
            Some(m) => if truncated_bytes(t2, m as nat).1 {
                seq![w_payload_truncated(m)]
            } else {
                Seq::empty()
            },
            None => Seq::empty(),
        };
        (Some(t3), w1 + w2 + w3)
    }
}

/// The plan for a card on a channel.
pub open spec fn planned(card: CardV, caps: PlannerCapabilities, ac: Option<JV>) -> PlanV {
    let tier = tier_for(caps, ac is Some);
    let summary = summary_of(card, caps);
    let text_items = match summary.0 {
        Some(t) => seq![ItemV::Text(t)],
        None => Seq::empty(),
    };
    let rich = tier == RenderTier::TierA || tier == RenderTier::TierB;
    PlanV {
        tier,
        summary_text: summary.0,
        items: if rich {
            text_items + match ac {
                Some(a) => seq![ItemV::AdaptiveCard(a)],
                None => Seq::empty(),
            }
        } else {
            text_items
        },
        warnings: summary.1 + if rich {
            if tier == RenderTier::TierB && unsupported_elements(card, caps) {
                seq![w_unsupported()]
            } else {
                Seq::empty()
            }
        } else {
            if ac is Some {
                seq![w_downsampled()]
            } else {
                Seq::empty()
            }
        },
        debug: None,
    }
}

// ---------------------------------------------------------------------------
// UTF-8 length
// ---------------------------------------------------------------------------

proof fn lemma_ulen_push(s: Seq<char>, c: char)
    ensures
        ulen(s.push(c)) == ulen(s) + char_width(c),
    decreases s.len(),
{
    if s.len() > 0 {
        lemma_ulen_push(s.drop_first(), c);
        assert(s.push(c).drop_first() == s.drop_first().push(c));
        assert(s.push(c)[0] == s[0]);
    } else {
        assert(s.push(c).drop_first().len() == 0);
        assert(s.push(c)[0] == c);
        assert(ulen(s.push(c).drop_first()) == 0);
    }
}

proof fn lemma_ulen_take(s: Seq<char>, k: int)
    requires
        0 <= k <= s.len(),
    ensures
        ulen(s.take(k)) <= ulen(s),
    decreases s.len() - k,
{
    if k < s.len() {
        lemma_ulen_take(s, k + 1);
        assert(s.take(k + 1) == s.take(k).push(s[k]));
        lemma_ulen_push(s.take(k), s[k]);
    } else {
        assert(s.take(k) == s);
    }
}

/// `ulen` is the length of the UTF-8 encoding.
pub proof fn lemma_ulen_is_utf8_len(s: Seq<char>)
    ensures
        ulen(s) == vstd::utf8::encode_utf8(s).len(),
    decreases s.len(),
{
    if s.len() > 0 {
        lemma_ulen_is_utf8_len(s.drop_first());
        vstd::utf8::char_is_scalar(s[0]);
    }
}

/// UTF-8 width of a character, as `char::len_utf8`.
pub fn char_width_exec(c: char) -> (w: u8)
    ensures
        w as nat == char_width(c),
        1 <= w <= 4,
{
    let u = c as u32;
    if u < 0x80 {
        1
    } else if u < 0x800 {
        2
    } else if u < 0x10000 {
        3
    } else {
        4
    }
}

// ---------------------------------------------------------------------------
// Text operations
// ---------------------------------------------------------------------------

/// Truncate to at most `max` characters, appending an ellipsis if truncated.
pub fn truncate_chars(text: &str, max: usize) -> (r: (String, bool))
    ensures
        (r.0@, r.1) == truncated_chars(text@, max as nat),
        r.0@.len() <= max,
        r.1 <==> r.0@ != text@,
{
    let v = chars_of(text);
    if max == 0 {
        let e = String::new();
        assert(v.len() == 0 ==> e@ =~= text@);
        return (e, v.len() != 0);
    }
    if v.len() <= max {
        return (copy_str(text), false);
    }
    let mut r = string_of_range(&v, 0, max - 1);
    push_char(&mut r, '\u{2026}');
    assert(r@.len() == max);
    assert(r@.len() != text@.len());
    (r, true)
}

/// Truncate to at most `max` bytes on a char boundary, appending an ellipsis.
pub fn truncate_bytes(text: &str, max: usize) -> (r: (String, bool))
    ensures
        (r.0@, r.1) == truncated_bytes(text@, max as nat),
        ulen(r.0@) <= max,
{
    let v = chars_of(text);
    let mut total: u128 = 0;
    let mut i: usize = 0;
    let mut over = false;
    while i < v.len() && !over
        invariant
            i <= v.len(),
            v@ == text@,
            total == ulen(v@.take(i as int)),
            !over ==> total <= max,
            over ==> ulen(text@) > max,
        decreases v.len() - i,
    {
        proof {
            assert(v@.take(i + 1) == v@.take(i as int).push(v@[i as int]));
            lemma_ulen_push(v@.take(i as int), v@[i as int]);
        }
        total = total + char_width_exec(v[i]) as u128;
        if total > max as u128 {
            proof {
                lemma_ulen_take(v@, i + 1);
            }
            over = true;
        }
        i += 1;
    }
    if !over {
        assert(v@.take(i as int) == v@);
        return (copy_str(text), false);
    }
    assert(ulen(text@) > max);
    if max < 4 {
        let e = String::new();
        assert(e@.len() == 0);
        return (e, true);
    }
    let b: usize = max - 3;
    let mut off: u128 = 0;
    let mut k: usize = 0;
    assert(v@.skip(0) == v@);
    while k < v.len() && off + char_width_exec(v[k]) as u128 <= b as u128
        invariant
            k <= v.len(),
            v@ == text@,
            off == ulen(v@.take(k as int)),
            off <= b,
            fit_count(v@, b as int) == k + fit_count(v@.skip(k as int), b - off),
        decreases v.len() - k,
    {
        proof {
            assert(v@.take(k + 1) == v@.take(k as int).push(v@[k as int]));
            lemma_ulen_push(v@.take(k as int), v@[k as int]);
            assert(v@.skip(k as int)[0] == v@[k as int]);
            assert(v@.skip(k as int).drop_first() == v@.skip(k + 1));
        }
        off = off + char_width_exec(v[k]) as u128;
        k += 1;
    }
    proof {
        if k < v.len() {
            assert(v@.skip(k as int)[0] == v@[k as int]);
        }
    }
    assert(fit_count(v@.skip(k as int), b - off) == 0);
    let mut r = string_of_range(&v, 0, k);
    push_char(&mut r, '\u{2026}');
    proof {
        assert(v@.subrange(0, k as int) == v@.take(k as int));
        lemma_ulen_push(v@.take(k as int), '\u{2026}');
        if k == 0 {
            assert(ulen(v@.take(0)) == 0);
        }
    }
    (r, true)
}

/// Removes HTML tags: everything from `<` to the next `>`.
pub fn strip_html_tags(text: &str) -> (r: String)
    ensures
        r@ == strip_html(text@),
{
    let v = chars_of(text);
    let mut r = String::new();
    let mut in_tag = false;
    let mut i: usize = 0;
    assert(v@.skip(0) == v@);
    while i < v.len()
        invariant
            i <= v.len(),
            v@ == text@,
            r@ + strip_html_from(v@.skip(i as int), in_tag) == strip_html(text@),
        decreases v.len() - i,
    {
        let c = v[i];
        assert(v@.skip(i as int)[0] == c);
        assert(v@.skip(i as int).drop_first() == v@.skip(i + 1));
        if c == '<' {
            in_tag = true;
        } else if c == '>' {
            in_tag = false;
        } else if !in_tag {
            let ghost before = r@;
            push_char(&mut r, c);
            assert(before + (seq![c] + strip_html_from(v@.skip(i + 1), false)) == r@
                + strip_html_from(v@.skip(i + 1), false));
        }
        i += 1;
    }
    assert(v@.skip(i as int).len() == 0);
    assert(r@ + Seq::<char>::empty() == r@);
    r
}

/// Removes markdown emphasis and code markers.
pub fn strip_markdown_markers(text: &str) -> (r: String)
    ensures
        r@ == strip_markdown(text@),
{
    proof {
        reveal_strlit("**");
        reveal_strlit("__");
        reveal_strlit("~~");
        reveal_strlit("`");
    }
    let a = remove_all_exec(text, "**");
    let b = remove_all_exec(a.as_str(), "__");
    let c = remove_all_exec(b.as_str(), "~~");
    remove_all_exec(c.as_str(), "`")
}

/// Strip HTML tags if the channel has no HTML, strip markdown markers if it
/// has no markdown; reports whether anything changed.
pub fn sanitize_text(text: &str, caps: &PlannerCapabilities) -> (r: (String, bool))
    ensures
        (r.0@, r.1) == sanitized(text@, *caps),
{
    let mut result = copy_str(text);
    let mut changed = false;
    if !caps.supports_html {
        let stripped = strip_html_tags(&result);
        if !str_eq(stripped.as_str(), result.as_str()) {
            changed = true;
        }
        result = stripped;
    }
    if !caps.supports_markdown {
        let stripped = strip_markdown_markers(&result);
        if !str_eq(stripped.as_str(), result.as_str()) {
            changed = true;
        }
        result = stripped;
    }
    (result, changed)
}

/// Label of one action for text-only channels.
fn action_label_exec(a: &PlannerAction) -> (r: String)
    ensures
        r@ == action_label(a@),
{
    match &a.url {
        Some(url) => {
            let mut s = String::new();
            s.append("[");
            s.append(a.title.as_str());
            s.append("](");
            s.append(url.as_str());
            s.append(")");
            s
        },
        None => a.title.clone(),
    }
}

/// Pushes the trimmed text when it is not blank.
fn push_trimmed_part(parts: &mut Vec<String>, o: &Option<String>)
    ensures
        views(final(parts)@) == views(old(parts)@) + trimmed_part(opt_view(*o)),
{
    let ghost before = old(parts)@;
    if let Some(t) = o {
        let tt = trim(t.as_str());
        if !tt.as_str().is_empty() {
            parts.push(tt);
            assert(views(parts@) =~= views(before) + trimmed_part(opt_view(*o)));
            return;
        }
    }
    assert(views(parts@) =~= views(before) + trimmed_part(opt_view(*o)));
}

fn summary_parts_exec(card: &PlannerCard, caps: &PlannerCapabilities) -> (r: Vec<String>)
    ensures
        views(r@) == summary_parts(card@, *caps),
{
    let mut parts: Vec<String> = Vec::new();
    push_trimmed_part(&mut parts, &card.title);
    push_trimmed_part(&mut parts, &card.text);
    assert(views(parts@) == trimmed_part(card@.title) + trimmed_part(card@.text)) by {
        assert(views(Seq::<String>::empty()) =~= Seq::empty());
        assert(Seq::<Seq<char>>::empty() + trimmed_part(card@.title) == trimmed_part(card@.title));
    }
    if !caps.supports_buttons && card.actions.len() != 0 {
        let mut labels: Vec<String> = Vec::new();
        let mut i: usize = 0;
        while i < card.actions.len()
            invariant
                i <= card.actions.len(),
                views(labels@) == action_labels(action_views(card.actions@)).take(i as int),
            decreases card.actions.len() - i,
        {
            let l = action_label_exec(&card.actions[i]);
            let ghost before = labels@;
            labels.push(l);
            assert(labels@ == before.push(l));
            assert(views(before.push(l)) =~= views(before).push(l@));
            assert(action_views(card.actions@)[i as int] == card.actions@[i as int]@);
            assert(action_labels(action_views(card.actions@)).take(i + 1) =~= action_labels(
                action_views(card.actions@),
            ).take(i as int).push(l@));
            assert(views(labels@) =~= action_labels(action_views(card.actions@)).take(i + 1));
            i += 1;
        }
        assert(action_labels(action_views(card.actions@)).take(i as int) == action_labels(
            action_views(card.actions@),
        ));
        let joined = join(&labels, " | ");
        let ghost before = parts@;
        parts.push(joined);
        assert(views(parts@) =~= views(before).push(joined@));
    } else {
        assert(views(parts@) =~= views(parts@) + Seq::<Seq<char>>::empty());
    }
    parts
}

/// Builds the summary text of a card and records the warnings it raises.
pub fn build_summary_text(
    card: &PlannerCard,
    caps: &PlannerCapabilities,
    warnings: &mut Vec<RenderWarning>,
) -> (r: Option<String>)
    ensures
        opt_view(r) == summary_of(card@, *caps).0,
        warning_views(final(warnings)@) == warning_views(old(warnings)@) + summary_of(
            card@,
            *caps,
        ).1,
{
    let parts = summary_parts_exec(card, caps);
    let ghost w0 = warning_views(warnings@);
    if parts.len() == 0 {
        assert(warning_views(warnings@) =~= w0 + Seq::<WarningV>::empty());
        return None;
    }
    let text = join(&parts, "\n\n");
    let (t1, did_sanitize) = sanitize_text(text.as_str(), caps);
    if did_sanitize {
        warnings.push(warning("text_sanitized", String::from_str("Text was sanitized for this channel")));
    }
    let ghost w1 = warning_views(warnings@);
    assert(w1 =~= w0 + if did_sanitize {
        seq![w_sanitized()]
    } else {
        Seq::<WarningV>::empty()
    });
    let mut t = t1;
    if let Some(max_len) = caps.max_text_len {
        let (truncated, did_truncate) = truncate_chars(t.as_str(), max_len as usize);
        t = truncated;
        if did_truncate {
            let mut msg = String::from_str("Text truncated to ");
            msg.append(u32_decimal(max_len).as_str());
            msg.append(" chars");
            warnings.push(warning("text_truncated", msg));
        }
    }
    let ghost w2 = warning_views(warnings@);
    if let Some(max_bytes) = caps.max_payload_bytes {
        let (truncated, did_truncate) = truncate_bytes(t.as_str(), max_bytes as usize);
        t = truncated;
        if did_truncate {
            let mut msg = String::from_str("Payload truncated to ");
            msg.append(u32_decimal(max_bytes).as_str());
            msg.append(" bytes");
            warnings.push(warning("payload_truncated", msg));
        }
    }
    assert(warning_views(warnings@) =~= w0 + summary_of(card@, *caps).1);
    Some(t)
}

/// Tier for a channel and whether a card is present.
pub fn select_tier(caps: &PlannerCapabilities, has_ac: bool) -> (r: RenderTier)
    ensures
        r == tier_for(*caps, has_ac),
{
    if !has_ac {
        return RenderTier::TierD;
    }
    if caps.supports_adaptive_cards {
        if caps.supports_buttons && caps.supports_images {
            RenderTier::TierA
        } else {
            RenderTier::TierB
        }
    } else {
        RenderTier::TierD
    }
}

pub fn has_unsupported_elements(card: &PlannerCard, caps: &PlannerCapabilities) -> (r: bool)
    ensures
        r == unsupported_elements(card@, *caps),
{
    if !caps.supports_buttons && card.actions.len() != 0 {
        return true;
    }
    if !caps.supports_images && card.images.len() != 0 {
        return true;
    }
    false
}

/// Entry point: produce a `RenderPlan` from a card and capabilities.
pub fn plan_render(card: &PlannerCard, caps: &PlannerCapabilities, ac_json: Option<&Json>) -> (r:
    RenderPlan)
    ensures
        r@ == planned(
            card@,
            *caps,
            match ac_json {
                Some(a) => Some(a@),
                None => None,
            },
        ),
{
    let ghost ac = match ac_json {
        Some(a) => Some(a@),
        None => None::<JV>,
    };
    let tier = select_tier(caps, ac_json.is_some());
    let mut warnings: Vec<RenderWarning> = Vec::new();
    let mut items: Vec<RenderItem> = Vec::new();
    let summary = build_summary_text(card, caps, &mut warnings);
    assert(warning_views(Seq::<RenderWarning>::empty()) =~= Seq::empty());
    let summary_text = match &summary {
        Some(t) => {
            items.push(RenderItem::Text(t.clone()));
            Some(t.clone())
        },
        None => None,
    };
    let ghost text_items = item_views(items@);
    let ghost sw = warning_views(warnings@);
    if tier == RenderTier::TierA || tier == RenderTier::TierB {
        if let Some(ac) = ac_json {
            items.push(RenderItem::AdaptiveCard(ac.duplicate()));
        }
        if tier == RenderTier::TierB && has_unsupported_elements(card, caps) {
            warnings.push(
                warning(
                    "unsupported_elements_removed",
                    String::from_str("Some card elements were removed for this channel"),
                ),
            );
        }
    } else {
        if ac_json.is_some() {
            warnings.push(
                warning(
                    "adaptive_card_downsampled",
                    String::from_str("Adaptive Card was converted to text for this channel"),
                ),
            );
        }
    }
    let r = RenderPlan { tier, summary_text, items, warnings, debug: None };
    assert(r@.items =~= planned(card@, *caps, ac).items);
    assert(r@.warnings =~= planned(card@, *caps, ac).warnings);
    r
}


// ---------------------------------------------------------------------------
// Laws
// ---------------------------------------------------------------------------

/// A message without an Adaptive Card is planned at tier D, and its plan
/// holds no card.
pub proof fn law_no_card_is_tier_d(card: CardV, caps: PlannerCapabilities)
    ensures
        planned(card, caps, None).tier == RenderTier::TierD,
        forall|i: int|
            0 <= i < planned(card, caps, None).items.len() ==> !(planned(
                card,
                caps,
                None,
            ).items[i] is AdaptiveCard),
{
}

/// On a channel without Adaptive Card support a card is downsampled: the
/// plan is at tier D, holds no card, and ends its warnings with
/// `adaptive_card_downsampled`.
pub proof fn law_unsupported_card_is_downsampled(card: CardV, caps: PlannerCapabilities, ac: JV)
    requires
        !caps.supports_adaptive_cards,
    ensures
        planned(card, caps, Some(ac)).tier == RenderTier::TierD,
        forall|i: int|
            0 <= i < planned(card, caps, Some(ac)).items.len() ==> !(planned(
                card,
                caps,
                Some(ac),
            ).items[i] is AdaptiveCard),
        planned(card, caps, Some(ac)).warnings.len() > 0,
        planned(card, caps, Some(ac)).warnings.last() == w_downsampled(),
{
}

/// On a channel with Adaptive Card support the card is attached as the last
/// item of the plan, at tier A when buttons and images are supported and
/// tier B otherwise.
pub proof fn law_supported_card_is_attached(card: CardV, caps: PlannerCapabilities, ac: JV)
    requires
        caps.supports_adaptive_cards,
    ensures
        planned(card, caps, Some(ac)).items.len() > 0,
        planned(card, caps, Some(ac)).items.last() == ItemV::AdaptiveCard(ac),
        planned(card, caps, Some(ac)).tier == if caps.supports_buttons && caps.supports_images {
            RenderTier::TierA
        } else {
            RenderTier::TierB
        },
{
    let p = planned(card, caps, Some(ac));
    let summary = summary_of(card, caps);
    let text_items = match summary.0 {
        Some(t) => seq![ItemV::Text(t)],
        None => Seq::<ItemV>::empty(),
    };
    assert(p.items == text_items + seq![ItemV::AdaptiveCard(ac)]);
}

/// With a character limit and no byte limit, the summary never holds more
/// characters than the limit.
pub proof fn law_summary_within_char_limit(card: CardV, caps: PlannerCapabilities, ac: Option<JV>)
    requires
        caps.max_text_len is Some,
        caps.max_payload_bytes is None,
    ensures
        planned(card, caps, ac).summary_text matches Some(s) ==> s.len()
            <= caps.max_text_len->Some_0,
{
    let parts = summary_parts(card, caps);
    if parts.len() > 0 {
        let t0 = seq_join(parts, "\n\n"@);
        let t1 = sanitized(t0, caps).0;
        let m = caps.max_text_len->Some_0 as nat;
        if m > 0 && t1.len() > m {
            assert(t1.take(m - 1).push(ellipsis()).len() == m);
        }
    }
}


proof fn lemma_fit_count_bound(s: Seq<char>, b: int)
    requires
        b >= 0,
    ensures
        fit_count(s, b) <= s.len(),
        ulen(s.take(fit_count(s, b) as int)) <= b,
    decreases s.len(),
{
    if s.len() == 0 || char_width(s[0]) > b {
        assert(s.take(0).len() == 0);
    } else {
        let rest = s.drop_first();
        lemma_fit_count_bound(rest, b - char_width(s[0]));
        let n = fit_count(rest, b - char_width(s[0]));
        let t = s.take((n + 1) as int);
        assert(t[0] == s[0]);
        assert(t.drop_first() =~= rest.take(n as int));
    }
}

/// The byte truncation never gives more than `max` bytes.
pub proof fn lemma_truncated_bytes_fit(s: Seq<char>, max: nat)
    ensures
        ulen(truncated_bytes(s, max).0) <= max,
{
    if ulen(s) > max && max >= 4 {
        let b = max - 3;
        lemma_fit_count_bound(s, b);
        lemma_ulen_push(s.take(fit_count(s, b) as int), ellipsis());
    }
}

/// With a byte limit, the summary never holds more UTF-8 bytes than the limit.
pub proof fn law_summary_within_byte_limit(card: CardV, caps: PlannerCapabilities, ac: Option<JV>)
    requires
        caps.max_payload_bytes is Some,
    ensures
        planned(card, caps, ac).summary_text matches Some(s) ==> ulen(s)
            <= caps.max_payload_bytes->Some_0,
{
    let parts = summary_parts(card, caps);
    if parts.len() > 0 {
        let t0 = seq_join(parts, "\n\n"@);
        let t1 = sanitized(t0, caps).0;
        let t2 = match caps.max_text_len {
            Some(m) => truncated_chars(t1, m as nat).0,
            None => t1,
        };
        lemma_truncated_bytes_fit(t2, caps.max_payload_bytes->Some_0 as nat);
    }
}


/// On a channel that shows buttons, a card's actions never enter its
/// summary: two cards with the same title and text get the same summary and
/// summary warnings, whatever their actions.
pub proof fn law_buttons_keep_actions_out_of_summary(
    card: CardV,
    other: CardV,
    caps: PlannerCapabilities,
    ac: Option<JV>,
)
    requires
        caps.supports_buttons,
        card.title == other.title,
        card.text == other.text,
    ensures
        planned(card, caps, ac).summary_text == planned(other, caps, ac).summary_text,
        summary_of(card, caps) == summary_of(other, caps),
{
    assert(summary_parts(card, caps) =~= summary_parts(other, caps));
}

/// On a channel that shows buttons and accepts HTML and Markdown, without
/// limits, a card with a non-blank title and text is summarized by exactly
/// the trimmed title, a blank line and the trimmed text, whatever its
/// actions.
pub proof fn law_summary_is_title_and_text(card: CardV, caps: PlannerCapabilities, a: Seq<char>, b: Seq<char>)
    requires
        caps.supports_buttons,
        caps.supports_html,
        caps.supports_markdown,
        caps.max_text_len is None,
        caps.max_payload_bytes is None,
        card.title == Some(a),
        card.text == Some(b),
        trimmed(a).len() > 0,
        trimmed(b).len() > 0,
    ensures
        summary_of(card, caps).0 == Some(trimmed(a) + "\n\n"@ + trimmed(b)),
{
    let parts = summary_parts(card, caps);
    assert(parts =~= seq![trimmed(a), trimmed(b)]);
    assert(parts.drop_last() =~= seq![trimmed(a)]);
    assert(seq_join(parts.drop_last(), "\n\n"@) == trimmed(a));
}

} // verus!
