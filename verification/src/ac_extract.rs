//! Adaptive Card JSON to `PlannerCard` extraction.
//!
//! Walks an Adaptive Card body recursively and collects text, title,
//! actions and images.

use vstd::prelude::*;
use vstd::string::*;
use crate::json::{jget_arr, jget_str, jsize, jsizes, json_views, jstr, lemma_jget_size, lemma_jsizes_elem, lemma_json_views, Json, JV};
use crate::plan::opt_view;
use crate::planner::{action_views, ActionV, CardV, PlannerAction, PlannerCard};
use crate::text::{eq_ignore_ascii_case, join, lower, push_char, seq_join, str_eq, trim, trimmed, views, ascii_lower_char, chars_of};

verus! {

// ---------------------------------------------------------------------------
// Specification of the walk
// ---------------------------------------------------------------------------

/// What the walk has collected so far.
pub struct ExtractV {
    pub title: Option<Seq<char>>,
    pub parts: Seq<Seq<char>>,
    pub actions: Seq<ActionV>,
    pub images: Seq<Seq<char>>,
}

pub open spec fn or_empty(o: Option<Seq<char>>) -> Seq<char> {
    match o {
        Some(s) => s,
        None => Seq::empty(),
    }
}

/// The element's `type`, or the empty string.
pub open spec fn elem_type(e: JV) -> Seq<char> {
    or_empty(jget_str(e, "type"@))
}

/// A bold, large/extra-large/medium, or heading-styled text block.
pub open spec fn is_title_block(e: JV) -> bool {
    (jget_str(e, "weight"@) matches Some(w) && lower(w) == lower("bolder"@)) || (jget_str(
        e,
        "size"@,
    ) matches Some(sz) && (lower(sz) == "large"@ || lower(sz) == "extralarge"@ || lower(sz)
        == "medium"@)) || (jget_str(e, "style"@) matches Some(st) && lower(st) == lower(
        "heading"@,
    ))
}

/// The text of one rich-text inline: its non-empty `text`, or the inline
/// itself when it is a non-empty string.
pub open spec fn rich_part(x: JV) -> Seq<Seq<char>> {
    match jget_str(x, "text"@) {
        Some(t) => if t.len() > 0 {
            seq![t]
        } else {
            Seq::empty()
        },
        None => match jstr(x) {
            Some(t) => if t.len() > 0 {
                seq![t]
            } else {
                Seq::empty()
            },
            None => Seq::empty(),
        },
    }
}

pub open spec fn rich_parts(l: Seq<JV>) -> Seq<Seq<char>>
    decreases l.len(),
{
    if l.len() == 0 {
        Seq::empty()
    } else {
        rich_parts(l.drop_last()) + rich_part(l.last())
    }
}

/// The `url` of each image that has one.
pub open spec fn image_urls(l: Seq<JV>) -> Seq<Seq<char>>
    decreases l.len(),
{
    if l.len() == 0 {
        Seq::empty()
    } else {
        image_urls(l.drop_last()) + match jget_str(l.last(), "url"@) {
            Some(u) => seq![u],
            None => Seq::empty(),
        }
    }
}

/// `title: value` for each fact with a non-empty title or value.
pub open spec fn fact_parts(l: Seq<JV>) -> Seq<Seq<char>>
    decreases l.len(),
{
    if l.len() == 0 {
        Seq::empty()
    } else {
        let t = or_empty(jget_str(l.last(), "title"@));
        let v = or_empty(jget_str(l.last(), "value"@));
        fact_parts(l.drop_last()) + if t.len() > 0 || v.len() > 0 {
            seq![t + ": "@ + v]
        } else {
            Seq::empty()
        }
    }
}

/// Actions with a non-empty title; only `Action.OpenUrl` keeps its `url`.
pub open spec fn actions_of(l: Seq<JV>) -> Seq<ActionV>
    decreases l.len(),
{
    if l.len() == 0 {
        Seq::empty()
    } else {
        let a = l.last();
        let t = or_empty(jget_str(a, "title"@));
        actions_of(l.drop_last()) + if t.len() == 0 {
            Seq::empty()
        } else {
            seq![
                ActionV {
                    title: t,
                    url: if elem_type(a) == "Action.OpenUrl"@ {
                        jget_str(a, "url"@)
                    } else {
                        None
                    },
                },
            ]
        }
    }
}

pub open spec fn arr_or_empty(o: Option<Seq<JV>>) -> Seq<JV> {
    match o {
        Some(l) => l,
        None => Seq::empty(),
    }
}

pub open spec fn with_part(st: ExtractV, p: Seq<char>) -> ExtractV {
    ExtractV { title: st.title, parts: st.parts.push(p), actions: st.actions, images: st.images }
}

/// One body element.
pub open spec fn elem_step(e: JV, st: ExtractV) -> ExtractV
    decreases jsize(e), 0nat,
{
    let ty = elem_type(e);
    if ty == "TextBlock"@ {
        match jget_str(e, "text"@) {
            Some(t) => if trimmed(t).len() == 0 {
                st
            } else if st.title is None && is_title_block(e) {
                ExtractV {
                    title: Some(trimmed(t)),
                    parts: st.parts,
                    actions: st.actions,
                    images: st.images,
                }
            } else {
                with_part(st, trimmed(t))
            },
            None => st,
        }
    } else if ty == "RichTextBlock"@ {
        let joined = trimmed(seq_join(rich_parts(arr_or_empty(jget_arr(e, "inlines"@))), ""@));
        if joined.len() > 0 {
            with_part(st, joined)
        } else {
            st
        }
    } else if ty == "Image"@ {
        match jget_str(e, "url"@) {
            Some(u) => ExtractV {
                title: st.title,
                parts: st.parts,
                actions: st.actions,
                images: st.images.push(u),
            },
            None => st,
        }
    } else if ty == "ImageSet"@ {
        ExtractV {
            title: st.title,
            parts: st.parts,
            actions: st.actions,
            images: st.images + image_urls(arr_or_empty(jget_arr(e, "images"@))),
        }
    } else if ty == "ActionSet"@ {
        ExtractV {
            title: st.title,
            parts: st.parts,
            actions: st.actions + actions_of(arr_or_empty(jget_arr(e, "actions"@))),
            images: st.images,
        }
    } else if ty == "Container"@ {
        match jget_arr(e, "items"@) {
            Some(items) => {
                proof {
                    lemma_jget_size(e, "items"@);
                }
                elems_fold(items, st)
            },
            None => st,
        }
    } else if ty == "ColumnSet"@ {
        match jget_arr(e, "columns"@) {
            Some(cols) => {
                proof {
                    lemma_jget_size(e, "columns"@);
                }
                cols_fold(cols, st)
            },
            None => st,
        }
    } else if ty == "FactSet"@ {
        ExtractV {
            title: st.title,
            parts: st.parts + fact_parts(arr_or_empty(jget_arr(e, "facts"@))),
            actions: st.actions,
            images: st.images,
        }
    } else {
        st
    }
}

/// A list of body elements, in order.
pub open spec fn elems_fold(l: Seq<JV>, st: ExtractV) -> ExtractV
    decreases jsizes(l), 1nat,
{
    if l.len() == 0 {
        st
    } else {
        proof {
            lemma_jsizes_elem(l, l.len() - 1);
        }
        elem_step(l.last(), elems_fold(l.drop_last(), st))
    }
}

/// The `items` of each column, in order.
pub open spec fn cols_fold(l: Seq<JV>, st: ExtractV) -> ExtractV
    decreases jsizes(l), 1nat,
{
    if l.len() == 0 {
        st
    } else {
        proof {
            lemma_jsizes_elem(l, l.len() - 1);
            lemma_jget_size(l.last(), "items"@);
        }
        let before = cols_fold(l.drop_last(), st);
        match jget_arr(l.last(), "items"@) {
            Some(items) => elems_fold(items, before),
            None => before,
        }
    }
}

pub open spec fn empty_extract() -> ExtractV {
    ExtractV { title: None, parts: Seq::empty(), actions: Seq::empty(), images: Seq::empty() }
}

/// The card extracted from an Adaptive Card value.
pub open spec fn card_of(ac: JV) -> CardV {
    let st = match jget_arr(ac, "body"@) {
        Some(b) => elems_fold(b, empty_extract()),
        None => empty_extract(),
    };
    CardV {
        title: st.title,
        text: if st.parts.len() == 0 {
            None
        } else {
            Some(seq_join(st.parts, "\n"@))
        },
        actions: st.actions + actions_of(arr_or_empty(jget_arr(ac, "actions"@))),
        images: st.images,
    }
}

// ---------------------------------------------------------------------------
// The walk
// ---------------------------------------------------------------------------

/// What the walk has collected so far.
struct Extracted {
    title: Option<String>,
    parts: Vec<String>,
    actions: Vec<PlannerAction>,
    images: Vec<String>,
}

impl View for Extracted {
    type V = ExtractV;

    closed spec fn view(&self) -> ExtractV {
        ExtractV {
            title: opt_view(self.title),
            parts: views(self.parts@),
            actions: action_views(self.actions@),
            images: views(self.images@),
        }
    }
}

/// ASCII lower-casing, as `str::to_ascii_lowercase`.
fn to_ascii_lowercase(s: &str) -> (r: String)
    ensures
        r@ == lower(s@),
{
    let v = chars_of(s);
    let mut r = String::new();
    let mut i: usize = 0;
    while i < v.len()
        invariant
            i <= v.len(),
            v@ == s@,
            r@ == lower(s@).take(i as int),
        decreases v.len() - i,
    {
        push_char(&mut r, ascii_lower_char(v[i]));
        assert(r@ =~= lower(s@).take(i + 1));
        i += 1;
    }
    assert(lower(s@).take(i as int) =~= lower(s@));
    r
}

fn is_title_textblock(element: &Json) -> (r: bool)
    ensures
        r == is_title_block(element@),
{
    if let Some(weight) = element.get_str("weight") {
        if eq_ignore_ascii_case(weight.as_str(), "bolder") {
            return true;
        }
    }
    if let Some(size) = element.get_str("size") {
        let l = to_ascii_lowercase(size.as_str());
        if str_eq(l.as_str(), "large") || str_eq(l.as_str(), "extralarge") || str_eq(
            l.as_str(),
            "medium",
        ) {
            return true;
        }
    }
    if let Some(style) = element.get_str("style") {
        if eq_ignore_ascii_case(style.as_str(), "heading") {
            return true;
        }
    }
    false
}

/// `value.get(key).and_then(Value::as_str).unwrap_or("")`, copied.
fn str_field(v: &Json, key: &str) -> (r: String)
    ensures
        r@ == or_empty(jget_str(v@, key@)),
{
    match v.get_str(key) {
        Some(s) => s.clone(),
        None => String::new(),
    }
}

fn extract_actions(action_list: &Vec<Json>, actions: &mut Vec<PlannerAction>)
    ensures
        action_views(final(actions)@) == action_views(old(actions)@) + actions_of(
            json_views(action_list@),
        ),
{
    let ghost l = json_views(action_list@);
    let ghost a0 = action_views(actions@);
    proof {
        lemma_json_views(action_list@);
    }
    let mut i: usize = 0;
    while i < action_list.len()
        invariant
            i <= action_list.len(),
            l == json_views(action_list@),
            l.len() == action_list@.len(),
            forall|j: int| 0 <= j < l.len() ==> #[trigger] l[j] == action_list@[j]@,
            action_views(actions@) == a0 + actions_of(l.take(i as int)),
        decreases action_list.len() - i,
    {
        let action = &action_list[i];
        assert(l.take(i + 1).drop_last() == l.take(i as int));
        assert(l.take(i + 1).last() == action@);
        let title = str_field(action, "title");
        if !title.as_str().is_empty() {
            let ty = str_field(action, "type");
            let url = if str_eq(ty.as_str(), "Action.OpenUrl") {
                match action.get_str("url") {
                    Some(u) => Some(u.clone()),
                    None => None,
                }
            } else {
                None
            };
            let ghost before = actions@;
            actions.push(PlannerAction { title, url });
            assert(action_views(actions@) =~= action_views(before).push(actions@.last()@));
        }
        assert(action_views(actions@) =~= a0 + actions_of(l.take(i + 1)));
        i += 1;
    }
    assert(l.take(i as int) == l);
}

fn rich_text_of(element: &Json) -> (r: String)
    ensures
        r@ == trimmed(seq_join(rich_parts(arr_or_empty(jget_arr(element@, "inlines"@))), ""@)),
{
    let mut parts: Vec<String> = Vec::new();
    if let Some(inlines) = element.get_array("inlines") {
        let ghost l = json_views(inlines@);
        proof {
            lemma_json_views(inlines@);
        }
        let mut i: usize = 0;
        while i < inlines.len()
            invariant
                i <= inlines.len(),
                l == json_views(inlines@),
                l.len() == inlines@.len(),
                forall|j: int| 0 <= j < l.len() ==> #[trigger] l[j] == inlines@[j]@,
                views(parts@) == rich_parts(l.take(i as int)),
            decreases inlines.len() - i,
        {
            let inline = &inlines[i];
            assert(l.take(i + 1).drop_last() == l.take(i as int));
            assert(l.take(i + 1).last() == inline@);
            let ghost before = parts@;
            match inline.get_str("text") {
                Some(t) => {
                    if !t.as_str().is_empty() {
                        parts.push(t.clone());
                    }
                },
                None => {
                    if let Some(t) = inline.as_str() {
                        if !t.as_str().is_empty() {
                            parts.push(t.clone());
                        }
                    }
                },
            }
            assert(views(parts@) =~= rich_parts(l.take(i + 1)));
            i += 1;
        }
        assert(l.take(i as int) == l);
    } else {
        assert(views(parts@) =~= Seq::<Seq<char>>::empty());
    }
    let joined = join(&parts, "");
    trim(joined.as_str())
}

fn push_image_urls(imgs: &Vec<Json>, images: &mut Vec<String>)
    ensures
        views(final(images)@) == views(old(images)@) + image_urls(json_views(imgs@)),
{
    let ghost l = json_views(imgs@);
    let ghost i0 = views(images@);
    proof {
        lemma_json_views(imgs@);
    }
    let mut i: usize = 0;
    while i < imgs.len()
        invariant
            i <= imgs.len(),
            l == json_views(imgs@),
            l.len() == imgs@.len(),
            forall|j: int| 0 <= j < l.len() ==> #[trigger] l[j] == imgs@[j]@,
            views(images@) == i0 + image_urls(l.take(i as int)),
        decreases imgs.len() - i,
    {
        assert(l.take(i + 1).drop_last() == l.take(i as int));
        assert(l.take(i + 1).last() == imgs@[i as int]@);
        let ghost before = images@;
        if let Some(url) = imgs[i].get_str("url") {
            images.push(url.clone());
            assert(views(images@) =~= views(before).push(url@));
        }
        assert(views(images@) =~= i0 + image_urls(l.take(i + 1)));
        i += 1;
    }
    assert(l.take(i as int) == l);
}

fn push_fact_parts(facts: &Vec<Json>, parts: &mut Vec<String>)
    ensures
        views(final(parts)@) == views(old(parts)@) + fact_parts(json_views(facts@)),
{
    let ghost l = json_views(facts@);
    let ghost p0 = views(parts@);
    proof {
        lemma_json_views(facts@);
    }
    let mut i: usize = 0;
    while i < facts.len()
        invariant
            i <= facts.len(),
            l == json_views(facts@),
            l.len() == facts@.len(),
            forall|j: int| 0 <= j < l.len() ==> #[trigger] l[j] == facts@[j]@,
            views(parts@) == p0 + fact_parts(l.take(i as int)),
        decreases facts.len() - i,
    {
        assert(l.take(i + 1).drop_last() == l.take(i as int));
        assert(l.take(i + 1).last() == facts@[i as int]@);
        let fact = &facts[i];
        let t = str_field(fact, "title");
        let v = str_field(fact, "value");
        if !t.as_str().is_empty() || !v.as_str().is_empty() {
            let mut s = t;
            s.append(": ");
            s.append(v.as_str());
            let ghost before = parts@;
            parts.push(s);
            assert(views(parts@) =~= views(before).push(s@));
        }
        assert(views(parts@) =~= p0 + fact_parts(l.take(i + 1)));
        i += 1;
    }
    assert(l.take(i as int) == l);
}

fn extract_body_elements(elements: &Vec<Json>, st: &mut Extracted, Ghost(bound): Ghost<nat>)
    requires
        jsizes(json_views(elements@)) <= bound,
    ensures
        final(st)@ == elems_fold(json_views(elements@), old(st)@),
    decreases bound, 1nat,
{
    let ghost l = json_views(elements@);
    let ghost s0 = st@;
    proof {
        lemma_json_views(elements@);
    }
    let mut i: usize = 0;
    while i < elements.len()
        invariant
            i <= elements.len(),
            l == json_views(elements@),
            l.len() == elements@.len(),
            forall|j: int| 0 <= j < l.len() ==> #[trigger] l[j] == elements@[j]@,
            st@ == elems_fold(l.take(i as int), s0),
            jsizes(l) <= bound,
        decreases elements.len() - i,
    {
        let element = &elements[i];
        assert(l.take(i + 1).drop_last() == l.take(i as int));
        assert(l.take(i + 1).last() == element@);
        proof {
            lemma_jsizes_elem(l, i as int);
        }
        extract_element(element, st, Ghost(bound));
        i += 1;
    }
    assert(l.take(i as int) == l);
}

fn extract_element(element: &Json, st: &mut Extracted, Ghost(bound): Ghost<nat>)
    requires
        jsize(element@) <= bound,
    ensures
        final(st)@ == elem_step(element@, old(st)@),
    decreases bound, 0nat,
{
    proof {
        reveal_strlit("");
    }
    let ty: &str = match element.get_str("type") {
        Some(s) => s.as_str(),
        None => "",
    };
    assert(ty@ == elem_type(element@));
    if str_eq(ty, "TextBlock") {
        if let Some(text) = element.get_str("text") {
            let trimmed_text = trim(text.as_str());
            if trimmed_text.as_str().is_empty() {
                assert(elem_type(element@) == "TextBlock"@);
                assert(jget_str(element@, "text"@) == Some(text@));
                assert(trimmed(text@).len() == 0);
                assert(elem_step(element@, st@) == st@);
                return;
            }
            if st.title.is_none() && is_title_textblock(element) {
                st.title = Some(trimmed_text);
            } else {
                let ghost before = st.parts@;
                st.parts.push(trimmed_text);
                assert(views(st.parts@) =~= views(before).push(trimmed_text@));
            }
        }
    } else if str_eq(ty, "RichTextBlock") {
        let joined = rich_text_of(element);
        if !joined.as_str().is_empty() {
            let ghost before = st.parts@;
            st.parts.push(joined);
            assert(views(st.parts@) =~= views(before).push(joined@));
        }
    } else if str_eq(ty, "Image") {
        if let Some(url) = element.get_str("url") {
            let ghost before = st.images@;
            st.images.push(url.clone());
            assert(views(st.images@) =~= views(before).push(url@));
        }
    } else if str_eq(ty, "ImageSet") {
        if let Some(imgs) = element.get_array("images") {
            push_image_urls(imgs, &mut st.images);
        } else {
            assert(views(st.images@) =~= views(st.images@) + image_urls(Seq::empty()));
        }
    } else if str_eq(ty, "ActionSet") {
        if let Some(action_list) = element.get_array("actions") {
            extract_actions(action_list, &mut st.actions);
        } else {
            assert(action_views(st.actions@) =~= action_views(st.actions@) + actions_of(
                Seq::empty(),
            ));
        }
    } else if str_eq(ty, "Container") {
        if let Some(items) = element.get_array("items") {
            proof {
                lemma_jget_size(element@, "items"@);
            }
            extract_body_elements(items, st, Ghost((jsize(element@) - 1) as nat));
        }
    } else if str_eq(ty, "ColumnSet") {
        if let Some(columns) = element.get_array("columns") {
            proof {
                lemma_jget_size(element@, "columns"@);
            }
            extract_columns(columns, st, Ghost((jsize(element@) - 1) as nat));
        }
    } else if str_eq(ty, "FactSet") {
        if let Some(facts) = element.get_array("facts") {
            push_fact_parts(facts, &mut st.parts);
        } else {
            assert(views(st.parts@) =~= views(st.parts@) + fact_parts(Seq::empty()));
        }
    }
}

fn extract_columns(columns: &Vec<Json>, st: &mut Extracted, Ghost(bound): Ghost<nat>)
    requires
        jsizes(json_views(columns@)) <= bound,
    ensures
        final(st)@ == cols_fold(json_views(columns@), old(st)@),
    decreases bound, 1nat,
{
    let ghost l = json_views(columns@);
    let ghost s0 = st@;
    proof {
        lemma_json_views(columns@);
    }
    let mut i: usize = 0;
    while i < columns.len()
        invariant
            i <= columns.len(),
            l == json_views(columns@),
            jsizes(l) <= bound,
            l.len() == columns@.len(),
            forall|j: int| 0 <= j < l.len() ==> #[trigger] l[j] == columns@[j]@,
            st@ == cols_fold(l.take(i as int), s0),
        decreases columns.len() - i,
    {
        let col = &columns[i];
        assert(l.take(i + 1).drop_last() == l.take(i as int));
        assert(l.take(i + 1).last() == col@);
        if let Some(items) = col.get_array("items") {
            proof {
                lemma_jsizes_elem(l, i as int);
                lemma_jget_size(col@, "items"@);
            }
            extract_body_elements(items, st, Ghost((jsize(col@) - 1) as nat));
        }
        i += 1;
    }
    assert(l.take(i as int) == l);
}

/// Extract a `PlannerCard` from an Adaptive Card JSON value.
pub fn extract_planner_card(ac: &Json) -> (r: PlannerCard)
    ensures
        r@ == card_of(ac@),
{
    let mut st = Extracted {
        title: None,
        parts: Vec::new(),
        actions: Vec::new(),
        images: Vec::new(),
    };
    assert(st@ == empty_extract()) by {
        assert(views(st.parts@) =~= Seq::empty());
        assert(views(st.images@) =~= Seq::empty());
        assert(action_views(st.actions@) =~= Seq::empty());
    }
    if let Some(body) = ac.get_array("body") {
        extract_body_elements(body, &mut st, Ghost(jsizes(json_views(body@))));
    }
    if let Some(ac_actions) = ac.get_array("actions") {
        extract_actions(ac_actions, &mut st.actions);
    } else {
        assert(action_views(st.actions@) =~= action_views(st.actions@) + actions_of(
            Seq::empty(),
        ));
    }
    let text = if st.parts.len() == 0 {
        None
    } else {
        Some(join(&st.parts, "\n"))
    };
    PlannerCard { title: st.title, text, actions: st.actions, images: st.images }
}


// ---------------------------------------------------------------------------
// Laws
// ---------------------------------------------------------------------------

proof fn lemma_step_keeps_title(e: JV, st: ExtractV)
    requires
        st.title is Some,
    ensures
        elem_step(e, st).title == st.title,
    decreases jsize(e), 0nat,
{
    let ty = elem_type(e);
    if ty == "TextBlock"@ || ty == "RichTextBlock"@ || ty == "Image"@ || ty == "ImageSet"@ || ty
        == "ActionSet"@ {
    } else if ty == "Container"@ {
        if let Some(items) = jget_arr(e, "items"@) {
            lemma_jget_size(e, "items"@);
            lemma_fold_keeps_title(items, st);
        }
    } else if ty == "ColumnSet"@ {
        if let Some(cols) = jget_arr(e, "columns"@) {
            lemma_jget_size(e, "columns"@);
            lemma_cols_keeps_title(cols, st);
        }
    }
}

proof fn lemma_fold_keeps_title(l: Seq<JV>, st: ExtractV)
    requires
        st.title is Some,
    ensures
        elems_fold(l, st).title == st.title,
    decreases jsizes(l), 1nat,
{
    if l.len() > 0 {
        lemma_jsizes_elem(l, l.len() - 1);
        lemma_fold_keeps_title(l.drop_last(), st);
        lemma_step_keeps_title(l.last(), elems_fold(l.drop_last(), st));
    }
}

proof fn lemma_cols_keeps_title(l: Seq<JV>, st: ExtractV)
    requires
        st.title is Some,
    ensures
        cols_fold(l, st).title == st.title,
    decreases jsizes(l), 1nat,
{
    if l.len() > 0 {
        lemma_jsizes_elem(l, l.len() - 1);
        lemma_jget_size(l.last(), "items"@);
        lemma_cols_keeps_title(l.drop_last(), st);
        if let Some(items) = jget_arr(l.last(), "items"@) {
            lemma_fold_keeps_title(items, cols_fold(l.drop_last(), st));
        }
    }
}

proof fn lemma_fold_append(a: Seq<JV>, b: Seq<JV>, st: ExtractV)
    ensures
        elems_fold(a + b, st) == elems_fold(b, elems_fold(a, st)),
    decreases b.len(),
{
    if b.len() == 0 {
        assert(a + b =~= a);
    } else {
        lemma_fold_append(a, b.drop_last(), st);
        assert((a + b).drop_last() =~= a + b.drop_last());
        assert((a + b).last() == b.last());
    }
}

/// Once a title has been found, no later element changes it, whatever it
/// is (a later bold or large text block included).
pub proof fn law_title_is_never_replaced(l: Seq<JV>, title: Seq<char>, st: ExtractV)
    requires
        st.title == Some(title),
    ensures
        elems_fold(l, st).title == Some(title),
{
    lemma_fold_keeps_title(l, st);
}

/// After the title is found, a text block with non-blank text adds its
/// trimmed text to the text parts, title-styled or not, and leaves the title.
pub proof fn law_later_text_block_is_text(e: JV, st: ExtractV, t: Seq<char>)
    requires
        st.title is Some,
        elem_type(e) == "TextBlock"@,
        jget_str(e, "text"@) == Some(t),
        trimmed(t).len() > 0,
    ensures
        elem_step(e, st).title == st.title,
        elem_step(e, st).parts == st.parts.push(trimmed(t)),
        elem_step(e, st).actions == st.actions,
        elem_step(e, st).images == st.images,
{
}

/// The title of a card whose body starts with a title-styled text block of
/// non-blank text is that block's trimmed text, whatever follows it.
pub proof fn law_first_title_block_is_title(ac: JV, body: Seq<JV>, t: Seq<char>)
    requires
        jget_arr(ac, "body"@) == Some(body),
        body.len() > 0,
        elem_type(body[0]) == "TextBlock"@,
        is_title_block(body[0]),
        jget_str(body[0], "text"@) == Some(t),
        trimmed(t).len() > 0,
    ensures
        card_of(ac).title == Some(trimmed(t)),
{
    let first = body.take(1);
    let rest = body.skip(1);
    assert(first + rest =~= body);
    lemma_fold_append(first, rest, empty_extract());
    assert(first.drop_last() =~= Seq::<JV>::empty());
    assert(first.last() == body[0]);
    let st1 = elems_fold(first, empty_extract());
    assert(st1 == elem_step(body[0], elems_fold(Seq::<JV>::empty(), empty_extract())));
    assert(st1.title == Some(trimmed(t)));
    lemma_fold_keeps_title(rest, st1);
}

/// A body of two title-styled text blocks with non-blank texts gives the
/// first as the title and the second as the text.
pub proof fn law_two_title_blocks(ac: JV, b1: JV, b2: JV, t1: Seq<char>, t2: Seq<char>)
    requires
        jget_arr(ac, "body"@) == Some(seq![b1, b2]),
        elem_type(b1) == "TextBlock"@,
        elem_type(b2) == "TextBlock"@,
        is_title_block(b1),
        is_title_block(b2),
        jget_str(b1, "text"@) == Some(t1),
        jget_str(b2, "text"@) == Some(t2),
        trimmed(t1).len() > 0,
        trimmed(t2).len() > 0,
    ensures
        card_of(ac).title == Some(trimmed(t1)),
        card_of(ac).text == Some(trimmed(t2)),
{
    let body = seq![b1, b2];
    assert(body.drop_last() =~= seq![b1]);
    assert(seq![b1].drop_last() =~= Seq::<JV>::empty());
    let one = seq![b1];
    assert(one.last() == b1);
    assert(elems_fold(one.drop_last(), empty_extract()) == empty_extract());
    let st1 = elems_fold(one, empty_extract());
    assert(st1 == elem_step(b1, empty_extract()));
    assert(st1.title == Some(trimmed(t1)));
    assert(st1.parts =~= Seq::<Seq<char>>::empty());
    let st2 = elem_step(b2, st1);
    assert(st2.parts == seq![trimmed(t2)]);
    assert(body.last() == b2);
    assert(elems_fold(body, empty_extract()) == st2);
    assert(seq_join(seq![trimmed(t2)], "\n"@) == trimmed(t2));
}

} // verus!
