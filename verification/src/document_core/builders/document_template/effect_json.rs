//! A drawing style's or a picture's effects as one JSON object: the effect
//! fields written out, and the effects found in raw XML fragments read back.

use crate::document_core::builders::document_template::effect_fragments::{
    drawing_style_effect_json_from_start, effect_scan_of, insert_text_list, is_effect_from_xml,
    raw_texts, tag_local, tag_local_name, text_list_member,
};
use crate::document_core::builders::document_template::effect_writer::{
    insert_member, is_fill_overlay_json, is_glow_json, is_radius_json, is_reflection_json,
    is_shadow_json, is_three_d_json, new_members, picture_blur_json, picture_fill_overlay_json,
    picture_glow_json, picture_reflection_json, picture_shadow_json, picture_soft_edge_json,
    picture_three_d_json,
};
use crate::document_core::builders::document_template::xml_events::{
    events_view, fragment_events, xml_fragment_events, XmlEv, XmlKind,
};
use crate::json_value::{json_get_spec, members_get, members_unique, JsonValue};
use crate::document_core::builders::document_template::effect_xml::{
    drawing_style_effect_raw_xml, drawing_style_effect_raw_xml_spec,
};
use crate::model::{DrawingObjAttr, PictureEffects};
use crate::text::{str_eq, string_of};
use vstd::prelude::*;

verus! {

// ---------------------------------------------------------------------------
// One effect in a raw fragment
// ---------------------------------------------------------------------------

/// Whether an event opens an element (a start or an empty tag) whose local
/// name is `effect`.
pub open spec fn opens_effect(e: XmlEv, effect: Seq<char>) -> bool {
    (e.0 == XmlKind::Start || e.0 == XmlKind::Empty) && tag_local_name(e.1) == effect
}

/// The first event from `i` on that opens an element named `effect`.
pub open spec fn first_effect_tag(ev: Seq<XmlEv>, effect: Seq<char>, i: int) -> Option<int>
    decreases ev.len() - i,
{
    if i < 0 || i >= ev.len() {
        None
    } else if opens_effect(ev[i], effect) {
        Some(i)
    } else {
        first_effect_tag(ev, effect, i + 1)
    }
}

/// Where the children of the element opened at event `i` start: after a
/// start tag; none for an empty tag.
pub open spec fn children_of(ev: Seq<XmlEv>, i: int) -> Option<int> {
    if ev[i].0 == XmlKind::Start {
        Some(i + 1)
    } else {
        None
    }
}

/// Whether a raw XML fragment holds an element named `effect`.
pub open spec fn fragment_has_effect(raw: Seq<char>, effect: Seq<char>) -> bool {
    first_effect_tag(fragment_events(raw), effect, 0) is Some
}

/// The JSON of the first element named `effect` in a raw XML fragment (see
/// `is_effect_from_xml`).
pub open spec fn is_fragment_effect_json(v: JsonValue, raw: Seq<char>, effect: Seq<char>) -> bool {
    let ev = fragment_events(raw);
    match first_effect_tag(ev, effect, 0) {
        Some(i) => is_effect_from_xml(v, ev, ev[i].1, effect_scan_of(ev, effect, children_of(ev, i))),
        None => false,
    }
}

proof fn lemma_first_effect_tag_range(ev: Seq<XmlEv>, effect: Seq<char>, i: int)
    requires
        0 <= i,
    ensures
        first_effect_tag(ev, effect, i) matches Some(j) ==> i <= j < ev.len() && opens_effect(ev[j], effect),
    decreases ev.len() - i,
{
    if i < ev.len() && !opens_effect(ev[i], effect) {
        lemma_first_effect_tag_range(ev, effect, i + 1);
    }
}

/// The JSON of the first element named `effect_name` in a raw XML
/// fragment, or nothing when it holds none.
pub fn drawing_style_effect_json_from_raw_fragment(raw: &str, effect_name: &str) -> (r: Option<JsonValue>)
    ensures
        r is Some <==> fragment_has_effect(raw@, effect_name@),
        r matches Some(v) ==> is_fragment_effect_json(v, raw@, effect_name@),
{
    let events = xml_fragment_events(raw);
    let ghost ev = events_view(events@);
    let mut i: usize = 0;
    while i < events.len()
        invariant
            ev == events_view(events@),
            ev == fragment_events(raw@),
            events@.len() < usize::MAX,
            i <= events@.len(),
            first_effect_tag(ev, effect_name@, 0) == first_effect_tag(ev, effect_name@, i as int),
        decreases events@.len() - i,
    {
        let kind = events[i].kind;
        let is_tag = match kind {
            XmlKind::Start => true,
            XmlKind::Empty => true,
            _ => false,
        };
        assert(ev[i as int] == (events@[i as int].kind, events@[i as int].content@));
        if is_tag {
            let local = tag_local(events[i].content.as_str());
            if str_eq(local.as_str(), effect_name) {
                let children = match kind {
                    XmlKind::Start => Some(i + 1),
                    _ => None,
                };
                let (members, _next) = drawing_style_effect_json_from_start(
                    events[i].content.as_str(),
                    &events,
                    children,
                    effect_name,
                );
                return Some(JsonValue::Object(members));
            }
        }
        i = i + 1;
    }
    None
}

/// Whether a raw XML fragment holds an element named `effect_name`.
pub fn drawing_style_raw_fragment_contains_effect(raw: &str, effect_name: &str) -> (r: bool)
    ensures
        r == fragment_has_effect(raw@, effect_name@),
{
    drawing_style_effect_json_from_raw_fragment(raw, effect_name).is_some()
}

// ---------------------------------------------------------------------------
// One effect among several fragments
// ---------------------------------------------------------------------------

/// The first fragment from `i` on that holds an element named `effect`.
pub open spec fn first_fragment_with(frags: Seq<Seq<char>>, effect: Seq<char>, i: int) -> Option<int>
    decreases frags.len() - i,
{
    if i < 0 || i >= frags.len() {
        None
    } else if fragment_has_effect(frags[i], effect) {
        Some(i)
    } else {
        first_fragment_with(frags, effect, i + 1)
    }
}

proof fn lemma_first_fragment_range(frags: Seq<Seq<char>>, effect: Seq<char>, i: int)
    requires
        0 <= i,
    ensures
        first_fragment_with(frags, effect, i) matches Some(j) ==> i <= j < frags.len(),
    decreases frags.len() - i,
{
    if i < frags.len() && !fragment_has_effect(frags[i], effect) {
        lemma_first_fragment_range(frags, effect, i + 1);
    }
}

/// The member `effect` read from fragments: the JSON of the element named
/// `effect` in the first fragment that holds one; absent when none does.
pub open spec fn fragments_effect_member(got: Option<JsonValue>, frags: Seq<Seq<char>>, effect: Seq<char>) -> bool {
    match first_fragment_with(frags, effect, 0) {
        Some(f) => got matches Some(v) && is_fragment_effect_json(v, frags[f], effect),
        None => got is None,
    }
}

/// Sets `map[key]` to the JSON of the element named `key` in the first
/// fragment that holds one; says whether one did.
fn insert_fragment_effect(map: &mut Vec<(String, JsonValue)>, raw_fragments: &Vec<String>, key: &str) -> (found: bool)
    ensures
        found == first_fragment_with(raw_texts(raw_fragments@), key@, 0) is Some,
        found ==> fragments_effect_member(members_get(final(map)@, key@), raw_texts(raw_fragments@), key@),
        !found ==> members_get(final(map)@, key@) == members_get(old(map)@, key@),
        forall|k: Seq<char>| k != key@ ==> #[trigger] members_get(final(map)@, k) == members_get(old(map)@, k),
        members_unique(old(map)@) ==> members_unique(final(map)@),
{
    let ghost frags = raw_texts(raw_fragments@);
    let mut i: usize = 0;
    while i < raw_fragments.len()
        invariant
            frags == raw_texts(raw_fragments@),
            i <= raw_fragments@.len(),
            first_fragment_with(frags, key@, 0) == first_fragment_with(frags, key@, i as int),
            *map == *old(map),
        decreases raw_fragments@.len() - i,
    {
        assert(frags[i as int] == raw_fragments@[i as int]@);
        match drawing_style_effect_json_from_raw_fragment(raw_fragments[i].as_str(), key) {
            Some(v) => {
                insert_member(map, key, v);
                return true;
            },
            None => {},
        }
        i = i + 1;
    }
    false
}

// ---------------------------------------------------------------------------
// A drawing style's effects
// ---------------------------------------------------------------------------

/// The effects a drawing style keeps as raw XML, each read back under its
/// own element name.
pub open spec fn is_style_effect_key(k: Seq<char>) -> bool {
    ||| k == "threeD"@
    ||| k == "shadow"@
    ||| k == "glow"@
    ||| k == "softEdge"@
    ||| k == "reflection"@
    ||| k == "blur"@
    ||| k == "fillOverlay"@
}

/// Whether some fragment holds one of those effects.
pub open spec fn any_style_effect(frags: Seq<Seq<char>>) -> bool {
    ||| first_fragment_with(frags, "threeD"@, 0) is Some
    ||| first_fragment_with(frags, "shadow"@, 0) is Some
    ||| first_fragment_with(frags, "glow"@, 0) is Some
    ||| first_fragment_with(frags, "softEdge"@, 0) is Some
    ||| first_fragment_with(frags, "reflection"@, 0) is Some
    ||| first_fragment_with(frags, "blur"@, 0) is Some
    ||| first_fragment_with(frags, "fillOverlay"@, 0) is Some
}

/// The member `k` of a drawing style's effects: each effect as read from
/// the first fragment that holds it; nothing else.
pub open spec fn style_effects_member(got: Option<JsonValue>, frags: Seq<Seq<char>>, k: Seq<char>) -> bool {
    if is_style_effect_key(k) {
        fragments_effect_member(got, frags, k)
    } else {
        got is None
    }
}

/// A drawing style's effects object (see `style_effects_member`).
pub open spec fn is_style_effects_json(v: JsonValue, frags: Seq<Seq<char>>) -> bool {
    &&& v is Object
    &&& members_unique(v->Object_0@)
    &&& forall|k: Seq<char>| #![trigger members_get(v->Object_0@, k)] style_effects_member(members_get(v->Object_0@, k), frags, k)
}

proof fn lemma_style_effect_keys()
    ensures
        "threeD"@.len() == 6,
        "threeD"@[0] == 't',
        "shadow"@.len() == 6,
        "shadow"@[0] == 's',
        "glow"@.len() == 4,
        "glow"@[0] == 'g',
        "softEdge"@.len() == 8,
        "reflection"@.len() == 10,
        "blur"@.len() == 4,
        "blur"@[0] == 'b',
        "fillOverlay"@.len() == 11,
        "soft_edge"@.len() == 9,
        "raw_xml"@.len() == 7,
{
    reveal_strlit("threeD");
    reveal_strlit("shadow");
    reveal_strlit("glow");
    reveal_strlit("softEdge");
    reveal_strlit("reflection");
    reveal_strlit("blur");
    reveal_strlit("fillOverlay");
    reveal_strlit("soft_edge");
    reveal_strlit("raw_xml");
}

/// A drawing style's effects read from its raw XML fragments (see
/// `is_style_effects_json`), or nothing when no fragment holds any.
pub fn drawing_style_effects_json(raw_fragments: &Vec<String>) -> (r: Option<JsonValue>)
    ensures
        r is None <==> !any_style_effect(raw_texts(raw_fragments@)),
        r matches Some(v) ==> is_style_effects_json(v, raw_texts(raw_fragments@)),
{
    proof {
        lemma_style_effect_keys();
    }
    let ghost frags = raw_texts(raw_fragments@);
    let mut map = new_members();
    let f1 = insert_fragment_effect(&mut map, raw_fragments, "threeD");
    let f2 = insert_fragment_effect(&mut map, raw_fragments, "shadow");
    let f3 = insert_fragment_effect(&mut map, raw_fragments, "glow");
    let f4 = insert_fragment_effect(&mut map, raw_fragments, "softEdge");
    let f5 = insert_fragment_effect(&mut map, raw_fragments, "reflection");
    let f6 = insert_fragment_effect(&mut map, raw_fragments, "blur");
    let f7 = insert_fragment_effect(&mut map, raw_fragments, "fillOverlay");
    if f1 || f2 || f3 || f4 || f5 || f6 || f7 {
        let v = JsonValue::Object(map);
        assert forall|k: Seq<char>| #![trigger members_get(v->Object_0@, k)] style_effects_member(members_get(v->Object_0@, k), frags, k) by {
            if !is_style_effect_key(k) {
                assert(members_get(map@, k) is None);
            }
        }
        Some(v)
    } else {
        None
    }
}

// ---------------------------------------------------------------------------
// A picture's effects
// ---------------------------------------------------------------------------

/// Whether a raw fragment holds neither a 3D effect nor a fill overlay, the
/// two effects that a picture also reads back from its raw XML.
pub open spec fn is_unknown_fragment(raw: Seq<char>) -> bool {
    !fragment_has_effect(raw, "threeD"@) && !fragment_has_effect(raw, "fillOverlay"@)
}

/// The fragments that hold neither a 3D effect nor a fill overlay, in their
/// order.
pub open spec fn unknown_fragments(frags: Seq<Seq<char>>) -> Seq<Seq<char>> {
    frags.filter(|raw: Seq<char>| is_unknown_fragment(raw))
}

/// A member for an optional effect field: its JSON when given, absent
/// otherwise.
pub open spec fn field_member<T>(got: Option<JsonValue>, field: Option<T>, is_json: spec_fn(JsonValue, T) -> bool) -> bool {
    match field {
        Some(x) => got matches Some(v) && is_json(v, x),
        None => got is None,
    }
}

/// A member for an effect that a picture also reads back from its raw XML:
/// the field's JSON when given, else the effect as read from the first
/// fragment that holds it.
pub open spec fn field_or_fragment_member<T>(
    got: Option<JsonValue>,
    field: Option<T>,
    is_json: spec_fn(JsonValue, T) -> bool,
    frags: Seq<Seq<char>>,
    effect: Seq<char>,
) -> bool {
    match field {
        Some(x) => got matches Some(v) && is_json(v, x),
        None => fragments_effect_member(got, frags, effect),
    }
}

/// The member `k` of a picture's effects object: `shadow`, `glow`,
/// `soft_edge`, `reflection`, `threeD`, `blur` and `fillOverlay` from the
/// fields, `threeD` and `fillOverlay` else from the raw fragments, and
/// `raw_xml` listing the fragments that hold neither.
pub open spec fn picture_effects_member(got: Option<JsonValue>, e: PictureEffects, k: Seq<char>) -> bool {
    let frags = raw_texts(e.raw_xml@);
    if k == "shadow"@ {
        field_member(got, e.shadow, |v: JsonValue, x| is_shadow_json(v, x))
    } else if k == "glow"@ {
        field_member(got, e.glow, |v: JsonValue, x| is_glow_json(v, x))
    } else if k == "soft_edge"@ {
        field_member(got, e.soft_edge, |v: JsonValue, x: crate::model::PictureSoftEdge| is_radius_json(v, x.radius, x.raw_child_xml@))
    } else if k == "reflection"@ {
        field_member(got, e.reflection, |v: JsonValue, x| is_reflection_json(v, x))
    } else if k == "threeD"@ {
        field_or_fragment_member(got, e.three_d, |v: JsonValue, x| is_three_d_json(v, x), frags, k)
    } else if k == "blur"@ {
        field_member(got, e.blur, |v: JsonValue, x: crate::model::PictureBlur| is_radius_json(v, x.radius, x.raw_child_xml@))
    } else if k == "fillOverlay"@ {
        field_or_fragment_member(got, e.fill_overlay, |v: JsonValue, x| is_fill_overlay_json(v, x), frags, k)
    } else if k == "raw_xml"@ {
        text_list_member(got, unknown_fragments(frags))
    } else {
        got is None
    }
}

/// A picture's effects object (see `picture_effects_member`).
pub open spec fn is_picture_effects_json(v: JsonValue, e: PictureEffects) -> bool {
    &&& v is Object
    &&& members_unique(v->Object_0@)
    &&& forall|k: Seq<char>| #![trigger members_get(v->Object_0@, k)] picture_effects_member(members_get(v->Object_0@, k), e, k)
}

/// Whether a picture has no effect: no effect field and no raw fragment.
pub open spec fn no_picture_effects(e: PictureEffects) -> bool {
    &&& e.shadow is None
    &&& e.glow is None
    &&& e.soft_edge is None
    &&& e.reflection is None
    &&& e.three_d is None
    &&& e.blur is None
    &&& e.fill_overlay is None
    &&& e.raw_xml@.len() == 0
}

/// Whether a 3D effect's attribute sets are well formed.
pub open spec fn three_d_attrs_wf(t: Option<crate::model::PictureThreeD>) -> bool {
    match t {
        Some(t) => t.attrs.wf() && match t.bevel {
            Some(b) => b.attrs.wf(),
            None => true,
        },
        None => true,
    }
}

/// The fragments that hold neither a 3D effect nor a fill overlay.
fn unknown_raw_xml(raw_fragments: &Vec<String>) -> (r: Vec<String>)
    ensures
        raw_texts(r@) == unknown_fragments(raw_texts(raw_fragments@)),
{
    let ghost frags = raw_texts(raw_fragments@);
    let mut out: Vec<String> = Vec::new();
    let mut i: usize = 0;
    assert(raw_texts(out@) =~= unknown_fragments(frags.take(0))) by {
        reveal(Seq::filter);
    }
    while i < raw_fragments.len()
        invariant
            frags == raw_texts(raw_fragments@),
            i <= raw_fragments@.len(),
            raw_texts(out@) == unknown_fragments(frags.take(i as int)),
        decreases raw_fragments@.len() - i,
    {
        let raw = raw_fragments[i].as_str();
        let known = drawing_style_raw_fragment_contains_effect(raw, "threeD")
            || drawing_style_raw_fragment_contains_effect(raw, "fillOverlay");
        let ghost before = out@;
        if !known {
            out.push(string_of(raw));
            assert(raw_texts(out@) =~= raw_texts(before).push(raw@));
        }
        proof {
            reveal(Seq::filter);
            let next = frags.take(i + 1);
            assert(next.drop_last() =~= frags.take(i as int));
            assert(next.last() == raw@);
        }
        i = i + 1;
    }
    assert(frags.take(i as int) =~= frags);
    out
}

/// A picture's effects as one JSON object (see `is_picture_effects_json`),
/// or nothing when it has none.
pub fn picture_effects_json(effects: &PictureEffects) -> (r: Option<JsonValue>)
    requires
        three_d_attrs_wf(effects.three_d),
    ensures
        r is None <==> no_picture_effects(*effects),
        r matches Some(v) ==> is_picture_effects_json(v, *effects),
{
    proof {
        lemma_style_effect_keys();
    }
    let ghost frags = raw_texts(effects.raw_xml@);
    let mut map = new_members();
    let mut any = false;
    match &effects.shadow {
        Some(shadow) => {
            insert_member(&mut map, "shadow", picture_shadow_json(shadow));
            any = true;
        },
        None => {},
    }
    match &effects.glow {
        Some(glow) => {
            insert_member(&mut map, "glow", picture_glow_json(glow));
            any = true;
        },
        None => {},
    }
    match &effects.soft_edge {
        Some(soft_edge) => {
            insert_member(&mut map, "soft_edge", picture_soft_edge_json(soft_edge));
            any = true;
        },
        None => {},
    }
    match &effects.reflection {
        Some(reflection) => {
            insert_member(&mut map, "reflection", picture_reflection_json(reflection));
            any = true;
        },
        None => {},
    }
    match &effects.three_d {
        Some(three_d) => {
            insert_member(&mut map, "threeD", picture_three_d_json(three_d));
            any = true;
        },
        None => {},
    }
    match &effects.blur {
        Some(blur) => {
            insert_member(&mut map, "blur", picture_blur_json(blur));
            any = true;
        },
        None => {},
    }
    match &effects.fill_overlay {
        Some(fill_overlay) => {
            insert_member(&mut map, "fillOverlay", picture_fill_overlay_json(fill_overlay));
            any = true;
        },
        None => {},
    }
    let ghost m_fields = map@;
    if effects.three_d.is_none() {
        let found = insert_fragment_effect(&mut map, &effects.raw_xml, "threeD");
        any = any || found;
    }
    if effects.fill_overlay.is_none() {
        let found = insert_fragment_effect(&mut map, &effects.raw_xml, "fillOverlay");
        any = any || found;
    }
    let unknown = unknown_raw_xml(&effects.raw_xml);
    insert_text_list(&mut map, "raw_xml", &unknown);
    if unknown.len() > 0 {
        any = true;
    }
    proof {
        let pred = |raw: Seq<char>| is_unknown_fragment(raw);
        frags.lemma_filter_len(pred);
        if frags.len() > 0 {
            if is_unknown_fragment(frags[0]) {
                frags.lemma_filter_contains(pred, 0);
            }
        }
    }
    if any {
        let v = JsonValue::Object(map);
        Some(v)
    } else {
        None
    }
}

// ---------------------------------------------------------------------------
// Writing a drawing style's effects back into its raw fragments
// ---------------------------------------------------------------------------

/// The first of `keys` (from `i` on) that the object has, with its value
/// (null included).
pub open spec fn first_present(v: JsonValue, keys: Seq<&str>, i: int) -> Option<JsonValue>
    decreases keys.len() - i,
{
    if i < 0 || i >= keys.len() {
        None
    } else {
        match json_get_spec(v, keys[i]@) {
            Some(x) => Some(x),
            None => first_present(v, keys, i + 1),
        }
    }
}

fn first_present_exec<'a>(v: &'a JsonValue, keys: &[&str]) -> (r: Option<&'a JsonValue>)
    ensures
        r matches Some(x) ==> first_present(*v, keys@, 0) == Some(*x),
        r is None ==> first_present(*v, keys@, 0) is None,
{
    let mut i: usize = 0;
    while i < keys.len()
        invariant
            i <= keys@.len(),
            first_present(*v, keys@, 0) == first_present(*v, keys@, i as int),
        decreases keys@.len() - i,
    {
        match v.get(keys[i]) {
            Some(x) => return Some(x),
            None => {},
        }
        i = i + 1;
    }
    None
}

/// The fragments that do not hold an element named `effect`, in order.
pub open spec fn without_effect(raws: Seq<Seq<char>>, effect: Seq<char>) -> Seq<Seq<char>> {
    raws.filter(|raw: Seq<char>| !fragment_has_effect(raw, effect))
}

fn remove_effect_fragments(raws: &mut Vec<String>, effect_name: &str)
    ensures
        raw_texts(final(raws)@) == without_effect(raw_texts(old(raws)@), effect_name@),
{
    let ghost frags = raw_texts(raws@);
    let mut kept: Vec<String> = Vec::new();
    let mut i: usize = 0;
    assert(raw_texts(kept@) =~= without_effect(frags.take(0), effect_name@)) by {
        reveal(Seq::filter);
    }
    while i < raws.len()
        invariant
            frags == raw_texts(raws@),
            i <= raws@.len(),
            raw_texts(kept@) == without_effect(frags.take(i as int), effect_name@),
        decreases raws@.len() - i,
    {
        let raw = raws[i].as_str();
        let ghost before = kept@;
        if !drawing_style_raw_fragment_contains_effect(raw, effect_name) {
            kept.push(string_of(raw));
            assert(raw_texts(kept@) =~= raw_texts(before).push(raw@));
        }
        proof {
            reveal(Seq::filter);
            let next = frags.take(i + 1);
            assert(next.drop_last() =~= frags.take(i as int));
            assert(next.last() == raw@);
        }
        i = i + 1;
    }
    assert(frags.take(i as int) =~= frags);
    *raws = kept;
}

/// One effect written back: when the object gives it under one of its
/// keys, the fragments holding it are dropped and, unless it is null, the
/// element made from it added at the end; an error from making the
/// element stops everything (the fragments already dropped).
pub open spec fn effect_step(raws: Seq<Seq<char>>, effects: JsonValue, name: Seq<char>, keys: Seq<&str>) -> (Seq<Seq<char>>, Option<Seq<char>>) {
    match first_present(effects, keys, 0) {
        None => (raws, None),
        Some(value) => {
            let kept = without_effect(raws, name);
            if value is Null {
                (kept, None)
            } else {
                match drawing_style_effect_raw_xml_spec(name, value) {
                    Err(e) => (kept, Some(e)),
                    Ok(Some(x)) => (kept.push(x), None),
                    Ok(None) => (kept, None),
                }
            }
        },
    }
}

fn apply_effect_step(raws: &mut Vec<String>, effects: &JsonValue, name: &str, keys: &[&str]) -> (r: Result<(), String>)
    ensures
        raw_texts(final(raws)@) == effect_step(raw_texts(old(raws)@), *effects, name@, keys@).0,
        match r {
            Ok(()) => effect_step(raw_texts(old(raws)@), *effects, name@, keys@).1 is None,
            Err(e) => effect_step(raw_texts(old(raws)@), *effects, name@, keys@).1 == Some(e@),
        },
{
    let value = match first_present_exec(effects, keys) {
        Some(v) => v,
        None => return Ok(()),
    };
    remove_effect_fragments(raws, name);
    match value {
        JsonValue::Null => return Ok(()),
        _ => {},
    }
    match drawing_style_effect_raw_xml(name, value) {
        Ok(Some(raw_xml)) => {
            let ghost before = raws@;
            raws.push(raw_xml);
            assert(raw_texts(raws@) =~= raw_texts(before).push(raw_xml@));
            Ok(())
        },
        Ok(None) => Ok(()),
        Err(e) => Err(e),
    }
}

/// Chains effect steps: stops at the first error.
pub open spec fn then_step(
    prev: (Seq<Seq<char>>, Option<Seq<char>>),
    effects: JsonValue,
    name: Seq<char>,
    keys: Seq<&str>,
) -> (Seq<Seq<char>>, Option<Seq<char>>) {
    if prev.1 is Some {
        prev
    } else {
        effect_step(prev.0, effects, name, keys)
    }
}

/// Writing a drawing style's effects back, effect by effect (3D, shadow,
/// glow, soft edge, reflection, blur, fill overlay), each under its keys.
pub open spec fn style_effects_written(
    raws: Seq<Seq<char>>,
    effects: JsonValue,
    k3: Seq<&str>,
    ks: Seq<&str>,
    kg: Seq<&str>,
    ke: Seq<&str>,
    kr: Seq<&str>,
    kb: Seq<&str>,
    kf: Seq<&str>,
) -> (Seq<Seq<char>>, Option<Seq<char>>) {
    let s1 = effect_step(raws, effects, "threeD"@, k3);
    let s2 = then_step(s1, effects, "shadow"@, ks);
    let s3 = then_step(s2, effects, "glow"@, kg);
    let s4 = then_step(s3, effects, "softEdge"@, ke);
    let s5 = then_step(s4, effects, "reflection"@, kr);
    let s6 = then_step(s5, effects, "blur"@, kb);
    then_step(s6, effects, "fillOverlay"@, kf)
}

/// The keys each effect is read under.
pub open spec fn style_effect_keys_are(
    k3: Seq<&str>,
    ks: Seq<&str>,
    kg: Seq<&str>,
    ke: Seq<&str>,
    kr: Seq<&str>,
    kb: Seq<&str>,
    kf: Seq<&str>,
) -> bool {
    &&& k3.map_values(|k: &str| k@) == seq!["threeD"@, "three_d"@]
    &&& ks.map_values(|k: &str| k@) == seq!["shadow"@, "effect_shadow"@, "effectShadow"@]
    &&& kg.map_values(|k: &str| k@) == seq!["glow"@]
    &&& ke.map_values(|k: &str| k@) == seq!["soft_edge"@, "softEdge"@]
    &&& kr.map_values(|k: &str| k@) == seq!["reflection"@]
    &&& kb.map_values(|k: &str| k@) == seq!["blur"@]
    &&& kf.map_values(|k: &str| k@) == seq!["fill_overlay"@, "fillOverlay"@]
}

/// Writes a drawing style's effects, given as a JSON object, back into its
/// raw fragments (see `style_effects_written`): each effect given replaces
/// the fragments holding it; an error when the value is not an object or
/// an effect cannot be made into XML.
pub fn apply_drawing_style_effects(drawing: &mut DrawingObjAttr, effects: &JsonValue) -> (r: Result<(), String>)
    ensures
        !(effects is Object) ==> (r matches Err(e) && e@ == "drawing_style.effects must be an object"@)
            && *final(drawing) == *old(drawing),
        effects is Object ==> exists|k3: Seq<&str>, ks: Seq<&str>, kg: Seq<&str>, ke: Seq<&str>, kr: Seq<&str>, kb: Seq<&str>, kf: Seq<&str>|
            style_effect_keys_are(k3, ks, kg, ke, kr, kb, kf) && {
                let w = style_effects_written(raw_texts(old(drawing).raw_hwpx_child_xml@), *effects, k3, ks, kg, ke, kr, kb, kf);
                &&& raw_texts(final(drawing).raw_hwpx_child_xml@) == w.0
                &&& match r {
                    Ok(()) => w.1 is None,
                    Err(e) => w.1 == Some(e@),
                }
            },
{
    match effects {
        JsonValue::Object(_) => {},
        _ => return Err(string_of("drawing_style.effects must be an object")),
    }
    let k3: [&str; 2] = ["threeD", "three_d"];
    let ks: [&str; 3] = ["shadow", "effect_shadow", "effectShadow"];
    let kg: [&str; 1] = ["glow"];
    let ke: [&str; 2] = ["soft_edge", "softEdge"];
    let kr: [&str; 1] = ["reflection"];
    let kb: [&str; 1] = ["blur"];
    let kf: [&str; 2] = ["fill_overlay", "fillOverlay"];
    assert(k3@.map_values(|k: &str| k@) =~= seq!["threeD"@, "three_d"@]);
    assert(ks@.map_values(|k: &str| k@) =~= seq!["shadow"@, "effect_shadow"@, "effectShadow"@]);
    assert(kg@.map_values(|k: &str| k@) =~= seq!["glow"@]);
    assert(ke@.map_values(|k: &str| k@) =~= seq!["soft_edge"@, "softEdge"@]);
    assert(kr@.map_values(|k: &str| k@) =~= seq!["reflection"@]);
    assert(kb@.map_values(|k: &str| k@) =~= seq!["blur"@]);
    assert(kf@.map_values(|k: &str| k@) =~= seq!["fill_overlay"@, "fillOverlay"@]);
    let ghost start = raw_texts(drawing.raw_hwpx_child_xml@);
    let raws = &mut drawing.raw_hwpx_child_xml;
    let r = match apply_effect_step(raws, effects, "threeD", k3.as_slice()) {
        Err(e) => Err(e),
        Ok(()) => match apply_effect_step(raws, effects, "shadow", ks.as_slice()) {
            Err(e) => Err(e),
            Ok(()) => match apply_effect_step(raws, effects, "glow", kg.as_slice()) {
                Err(e) => Err(e),
                Ok(()) => match apply_effect_step(raws, effects, "softEdge", ke.as_slice()) {
                    Err(e) => Err(e),
                    Ok(()) => match apply_effect_step(raws, effects, "reflection", kr.as_slice()) {
                        Err(e) => Err(e),
                        Ok(()) => match apply_effect_step(raws, effects, "blur", kb.as_slice()) {
                            Err(e) => Err(e),
                            Ok(()) => apply_effect_step(raws, effects, "fillOverlay", kf.as_slice()),
                        },
                    },
                },
            },
        },
    };
    proof {
        assert(style_effect_keys_are(k3@, ks@, kg@, ke@, kr@, kb@, kf@));
    }
    r
}

} // verus!
