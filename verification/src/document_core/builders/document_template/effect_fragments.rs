//! Drawing-style effects read back from their raw HWPX XML fragments into
//! the JSON form that the effect writers take: an effect's attributes,
//! its colour, solid fill, point and range children, and the raw XML of
//! any other child.

use crate::document_core::builders::document_template::effect_writer::{insert_member, text_member};
use crate::document_core::builders::document_template::effect_xml::drawing_style_rgb_color_hex;
use crate::document_core::builders::document_template::objects::{
    drawing_style_normalize_xml_color_hex,
    effect_rgb_hex_spec,
    normalize_xml_color_hex_spec,
};
use crate::document_core::builders::document_template::xml_events::{
    attr_pairs_spec,
    capture_rest,
    drawing_style_capture_raw_xml_element,
    drawing_style_raw_empty_xml_element,
    drawing_style_xml_attrs_value,
    drawing_style_xml_local_name,
    event_text,
    events_view,
    is_attrs_object,
    pairs_last,
    tag_name_spec,
    xml_attributes_named,
    xml_local_name_spec,
    xml_tag_name,
    XmlEv,
    XmlKind,
    XmlRaw,
};
use crate::json_value::{members_get, members_unique, JsonValue};
use crate::text::{str_eq, string_of};
use vstd::prelude::*;

verus! {

/// A member that holds a non-empty list of texts as a JSON array of
/// strings, and is absent for an empty list.
pub open spec fn text_list_member(got: Option<JsonValue>, raw: Seq<Seq<char>>) -> bool {
    if raw.len() == 0 {
        got is None
    } else {
        &&& got matches Some(JsonValue::Array(items))
        &&& got->0->Array_0@.len() == raw.len()
        &&& forall|i: int| 0 <= i < raw.len() ==> ((#[trigger] got->0->Array_0@[i]) matches JsonValue::String(u) && u@ == raw[i])
    }
}

/// The local name of a tag.
pub open spec fn tag_local_name(content: Seq<char>) -> Seq<char> {
    xml_local_name_spec(tag_name_spec(content))
}

pub(crate) fn tag_local(content: &str) -> (r: String)
    ensures
        r@ == tag_local_name(content@),
{
    let name = xml_tag_name(content);
    drawing_style_xml_local_name(name.as_str())
}

/// The attribute text of a tag's attribute.
pub open spec fn tag_attr(content: Seq<char>, key: Seq<char>) -> Option<Seq<char>> {
    pairs_last(attr_pairs_spec(xml_attributes_named(content)), key)
}

/// The `#RRGGBB` text of an `rgb` tag's `r`, `g`, `b` attributes.
pub open spec fn rgb_tag_hex(content: Seq<char>) -> Option<Seq<char>> {
    effect_rgb_hex_spec(tag_attr(content, "r"@), tag_attr(content, "g"@), tag_attr(content, "b"@))
}

/// The raw child XML texts of an element being built, and the strings.
fn push_text(raw: &mut Vec<String>, t: String)
    ensures
        raw_texts(final(raw)@) == raw_texts(old(raw)@).push(t@),
{
    raw.push(t);
    assert(raw_texts(raw@) =~= raw_texts(old(raw)@).push(t@));
}

/// Strings as texts.
pub open spec fn raw_texts(v: Seq<String>) -> Seq<Seq<char>> {
    v.map_values(|s: String| s@)
}

/// Sets `map[key]` to the texts as a JSON array of strings when there are
/// any.
pub(crate) fn insert_text_list(map: &mut Vec<(String, JsonValue)>, key: &str, raw: &Vec<String>)
    ensures
        forall|k: Seq<char>| k != key@ ==> #[trigger] members_get(final(map)@, k) == members_get(old(map)@, k),
        raw@.len() == 0 ==> members_get(final(map)@, key@) == members_get(old(map)@, key@),
        raw@.len() > 0 ==> text_list_member(members_get(final(map)@, key@), raw_texts(raw@)),
        members_unique(old(map)@) ==> members_unique(final(map)@),
{
    if raw.len() > 0 {
        let mut items: Vec<JsonValue> = Vec::new();
        let mut i: usize = 0;
        while i < raw.len()
            invariant
                i <= raw@.len(),
                items@.len() == i,
                forall|j: int| 0 <= j < i ==> ((#[trigger] items@[j]) matches JsonValue::String(u) && u@ == raw@[j]@),
            decreases raw@.len() - i,
        {
            items.push(JsonValue::String(string_of(raw[i].as_str())));
            i = i + 1;
        }
        let v = JsonValue::Array(items);
        insert_member(map, key, v);
    }
}

// ---------------------------------------------------------------------------
// Effect colour
// ---------------------------------------------------------------------------

/// What the children of an effect colour give: the last `rgb` child's tag,
/// the `#RRGGBB` text of the last `rgb` child that had one, the raw XML of
/// the other children, and the place after the colour's end tag.
pub struct ColorScan {
    pub rgb: Option<Seq<char>>,
    pub hex: Option<Seq<char>>,
    pub raw: Seq<Seq<char>>,
    pub next: int,
}

/// The place after a captured element is past where it starts and within the events.
pub proof fn lemma_capture_rest_after(ev: Seq<XmlEv>, i: int, depth: int)
    requires
        0 <= i,
    ensures
        i <= capture_rest(ev, i, depth).1,
        i < ev.len() ==> i < capture_rest(ev, i, depth).1,
        capture_rest(ev, i, depth).1 <= ev.len() || i > ev.len(),
    decreases ev.len() - i,
{
    if i < ev.len() {
        lemma_capture_rest_after(ev, i + 1, depth + 1);
        lemma_capture_rest_after(ev, i + 1, depth - 1);
        lemma_capture_rest_after(ev, i + 1, depth);
    }
}

/// An `rgb` child updates the colour's components and colour text.
pub open spec fn with_rgb(acc: ColorScan, content: Seq<char>) -> ColorScan {
    ColorScan {
        rgb: Some(content),
        hex: match rgb_tag_hex(content) {
            Some(h) => Some(h),
            None => acc.hex,
        },
        raw: acc.raw,
        next: acc.next,
    }
}

/// The children of an effect colour from event `i` on, `depth` elements
/// deep, after `acc` (see `ColorScan`).
pub open spec fn color_scan(ev: Seq<XmlEv>, i: int, depth: int, acc: ColorScan) -> ColorScan
    decreases ev.len() - i,
{
    if i < 0 || i >= ev.len() {
        ColorScan { next: i, ..acc }
    } else {
        let (kind, content) = ev[i];
        match kind {
            XmlKind::Start => if depth == 1 {
                let (text, j) = capture_rest(ev, i + 1, 1);
                proof {
                    lemma_capture_rest_after(ev, i + 1, 1);
                }
                if tag_local_name(content) == "rgb"@ {
                    color_scan(ev, j, depth, with_rgb(acc, content))
                } else {
                    color_scan(ev, j, depth, ColorScan { raw: acc.raw.push(event_text(XmlKind::Start, content) + text), ..acc })
                }
            } else {
                color_scan(ev, i + 1, depth + 1, acc)
            },
            XmlKind::Empty => if depth == 1 {
                if tag_local_name(content) == "rgb"@ {
                    color_scan(ev, i + 1, depth, with_rgb(acc, content))
                } else {
                    color_scan(ev, i + 1, depth, ColorScan { raw: acc.raw.push(event_text(XmlKind::Empty, content)), ..acc })
                }
            } else {
                color_scan(ev, i + 1, depth, acc)
            },
            XmlKind::End => if depth <= 1 {
                ColorScan { next: i + 1, ..acc }
            } else {
                color_scan(ev, i + 1, depth - 1, acc)
            },
            _ => color_scan(ev, i + 1, depth, acc),
        }
    }
}

/// Nothing read yet.
pub open spec fn color_scan_start() -> ColorScan {
    ColorScan { rgb: None, hex: None, raw: Seq::empty(), next: 0 }
}

/// The member `k` of an effect colour read from XML: the start tag's
/// attributes, with the `rgb` child's attributes under `rgb`, its colour
/// text under `color_hex`, and the other children's raw XML under
/// `raw_child_xml`.
pub open spec fn color_member(got: Option<JsonValue>, start: Seq<char>, s: ColorScan, k: Seq<char>) -> bool {
    if k == "raw_child_xml"@ && s.raw.len() > 0 {
        text_list_member(got, s.raw)
    } else if k == "rgb"@ && s.rgb is Some {
        got matches Some(v) && is_attrs_object(v, s.rgb->0)
    } else if k == "color_hex"@ && s.hex is Some {
        text_member(got, s.hex)
    } else {
        text_member(got, tag_attr(start, k))
    }
}

/// An effect colour's JSON read from XML: its start tag `start` and, for
/// an element with children, the events from `i` on.
pub open spec fn is_color_from_xml(v: JsonValue, start: Seq<char>, scan: ColorScan) -> bool {
    &&& v is Object
    &&& members_unique(v->Object_0@)
    &&& forall|k: Seq<char>| #![trigger members_get(v->Object_0@, k)] color_member(members_get(v->Object_0@, k), start, scan, k)
}

/// The scan of an effect colour: its children from `i` on, or none for an
/// empty element.
pub open spec fn color_scan_of(ev: Seq<XmlEv>, children: Option<int>) -> ColorScan {
    match children {
        Some(i) => color_scan(ev, i, 1, color_scan_start()),
        None => ColorScan { next: 0, ..color_scan_start() },
    }
}

/// An effect colour's JSON from its XML: the start tag's content and, for
/// an element with children, the events after its start tag; also the
/// place after its end tag.
pub fn drawing_style_effect_color_json_from_start(start: &str, events: &Vec<XmlRaw>, children: Option<usize>) -> (r: (Vec<(String, JsonValue)>, usize))
    requires
        events@.len() < usize::MAX,
        match children {
            Some(i) => i <= events@.len(),
            None => true,
        },
    ensures
        is_color_from_xml(
            JsonValue::Object(r.0),
            start@,
            color_scan_of(events_view(events@), match children {
                Some(i) => Some(i as int),
                None => None,
            }),
        ),
        match children {
            Some(i) => r.1 as int == color_scan_of(events_view(events@), Some(i as int)).next && i <= r.1 <= events@.len(),
            None => r.1 == 0,
        },
{
    let mut map = drawing_style_xml_attrs_value(start);
    let i0 = match children {
        Some(i) => i,
        None => {
            proof {
                reveal_strlit("raw_child_xml");
                reveal_strlit("rgb");
                reveal_strlit("color_hex");
            }
            return (map, 0);
        },
    };
    let ghost ev = events_view(events@);
    let ghost total = color_scan(ev, i0 as int, 1, color_scan_start());
    let mut raw: Vec<String> = Vec::new();
    let mut rgb: Option<String> = None;
    let mut hex: Option<String> = None;
    let mut rgb_members: Option<Vec<(String, JsonValue)>> = None;
    let mut depth: usize = 1;
    let mut j: usize = i0;
    assert(raw_texts(raw@) =~= Seq::<Seq<char>>::empty());
    assert(ColorScan { rgb: None, hex: None, raw: raw_texts(raw@), next: 0 } == color_scan_start());
    loop
        invariant_except_break
            ev == events_view(events@),
            events@.len() < usize::MAX,
            i0 <= j <= events@.len(),
            1 <= depth <= 1 + j - i0,
            color_scan(ev, j as int, depth as int, ColorScan {
                rgb: match rgb { Some(t) => Some(t@), None => None },
                hex: match hex { Some(t) => Some(t@), None => None },
                raw: raw_texts(raw@),
                next: 0,
            }) == total,
            match rgb {
                Some(t) => rgb_members matches Some(m) && is_attrs_object(JsonValue::Object(m), t@),
                None => rgb_members is None,
            },
        ensures
            total.rgb == match rgb { Some(t) => Some(t@), None => None },
            total.hex == match hex { Some(t) => Some(t@), None => None },
            total.raw == raw_texts(raw@),
            i0 <= total.next <= events@.len(),
            j as int == total.next,
            match rgb {
                Some(t) => rgb_members matches Some(m) && is_attrs_object(JsonValue::Object(m), t@),
                None => rgb_members is None,
            },
        decreases events@.len() - j,
    {
        if j >= events.len() {
            break;
        }
        let kind = events[j].kind;
        let content = events[j].content.as_str();
        assert(ev[j as int] == (kind, content@));
        match kind {
            XmlKind::Start => {
                if depth == 1 {
                    let local = tag_local(content);
                    let (captured, next) = drawing_style_capture_raw_xml_element(content, events, j + 1);
                    proof {
                        lemma_capture_rest_after(ev, j + 1, 1);
                    }
                    if str_eq(local.as_str(), "rgb") {
                        let members = drawing_style_xml_attrs_value(content);
                        match drawing_style_rgb_color_hex(&members) {
                            Some(h) => {
                                hex = Some(h);
                            },
                            None => {},
                        }
                        rgb = Some(string_of(content));
                        rgb_members = Some(members);
                    } else {
                        match captured {
                            Some(t) => push_text(&mut raw, t),
                            None => {},
                        }
                    }
                    j = next;
                } else {
                    depth = depth + 1;
                    j = j + 1;
                }
            },
            XmlKind::Empty => {
                if depth == 1 {
                    let local = tag_local(content);
                    if str_eq(local.as_str(), "rgb") {
                        let members = drawing_style_xml_attrs_value(content);
                        match drawing_style_rgb_color_hex(&members) {
                            Some(h) => {
                                hex = Some(h);
                            },
                            None => {},
                        }
                        rgb = Some(string_of(content));
                        rgb_members = Some(members);
                    } else {
                        match drawing_style_raw_empty_xml_element(content) {
                            Some(t) => push_text(&mut raw, t),
                            None => {},
                        }
                    }
                }
                j = j + 1;
            },
            XmlKind::End => {
                if depth <= 1 {
                    j = j + 1;
                    break;
                }
                depth = depth - 1;
                j = j + 1;
            },
            _ => {
                j = j + 1;
            },
        }
    }
    proof {
        reveal_strlit("raw_child_xml");
        reveal_strlit("rgb");
        reveal_strlit("color_hex");
    }
    let ghost m0 = map@;
    match &hex {
        Some(h) => insert_member(&mut map, "color_hex", JsonValue::String(string_of(h.as_str()))),
        None => {},
    }
    let ghost m1 = map@;
    match rgb_members {
        Some(m) => {
            insert_member(&mut map, "rgb", JsonValue::Object(m));
        },
        None => {},
    }
    let ghost m2 = map@;
    insert_text_list(&mut map, "raw_child_xml", &raw);
    proof {
        assert forall|k: Seq<char>| #![trigger members_get(map@, k)] color_member(members_get(map@, k), start@, total, k) by {
            assert(text_member(members_get(m0, k), tag_attr(start@, k)));
            if k == "raw_child_xml"@ && total.raw.len() > 0 {
            } else if k == "rgb"@ && total.rgb is Some {
                assert(members_get(map@, k) == members_get(m2, k));
            } else if k == "color_hex"@ && total.hex is Some {
                assert(members_get(map@, k) == members_get(m2, k));
                assert(members_get(m2, k) == members_get(m1, k));
            } else {
                assert(members_get(map@, k) == members_get(m2, k));
                assert(members_get(m2, k) == members_get(m1, k));
                assert(members_get(m1, k) == members_get(m0, k));
            }
        }
    }
    (map, j)
}

/// The place after an effect colour's end tag is past where its children
/// start and within the events.
pub proof fn lemma_color_scan_next(ev: Seq<XmlEv>, i: int, depth: int, acc: ColorScan)
    requires
        0 <= i <= ev.len(),
    ensures
        i <= color_scan(ev, i, depth, acc).next <= ev.len(),
    decreases ev.len() - i,
{
    if i < ev.len() {
        let (kind, content) = ev[i];
        lemma_capture_rest_after(ev, i + 1, 1);
        let j = capture_rest(ev, i + 1, 1).1;
        match kind {
            XmlKind::Start => if depth == 1 {
                if tag_local_name(content) == "rgb"@ {
                    lemma_color_scan_next(ev, j, depth, with_rgb(acc, content));
                } else {
                    lemma_color_scan_next(
                        ev,
                        j,
                        depth,
                        ColorScan { raw: acc.raw.push(event_text(XmlKind::Start, content) + capture_rest(ev, i + 1, 1).0), ..acc },
                    );
                }
            } else {
                lemma_color_scan_next(ev, i + 1, depth + 1, acc);
            },
            XmlKind::Empty => if depth == 1 {
                if tag_local_name(content) == "rgb"@ {
                    lemma_color_scan_next(ev, i + 1, depth, with_rgb(acc, content));
                } else {
                    lemma_color_scan_next(ev, i + 1, depth, ColorScan { raw: acc.raw.push(event_text(XmlKind::Empty, content)), ..acc });
                }
            } else {
                lemma_color_scan_next(ev, i + 1, depth, acc);
            },
            XmlKind::End => if depth > 1 {
                lemma_color_scan_next(ev, i + 1, depth - 1, acc);
            },
            _ => lemma_color_scan_next(ev, i + 1, depth, acc),
        }
    }
}

// ---------------------------------------------------------------------------
// Solid fill
// ---------------------------------------------------------------------------

/// A nested effect colour: its start tag and, for an element with
/// children, where they start.
pub type NestedColor = (Seq<char>, Option<int>);

/// What the children of a solid fill give: the last effect colour child,
/// the raw XML of the other children, and the place after the fill's end
/// tag.
pub struct SolidScan {
    pub color: Option<NestedColor>,
    pub raw: Seq<Seq<char>>,
    pub next: int,
}

/// The children of a solid fill from event `i` on, `depth` elements deep,
/// after `acc`.
pub open spec fn solid_scan(ev: Seq<XmlEv>, i: int, depth: int, acc: SolidScan) -> SolidScan
    decreases ev.len() - i,
{
    if i < 0 || i >= ev.len() {
        SolidScan { next: i, ..acc }
    } else {
        let (kind, content) = ev[i];
        match kind {
            XmlKind::Start => if depth == 1 {
                if tag_local_name(content) == "effectsColor"@ {
                    let j = color_scan(ev, i + 1, 1, color_scan_start()).next;
                    proof {
                        lemma_color_scan_next(ev, i + 1, 1, color_scan_start());
                    }
                    solid_scan(ev, j, depth, SolidScan { color: Some((content, Some(i + 1))), ..acc })
                } else {
                    let (text, j) = capture_rest(ev, i + 1, 1);
                    proof {
                        lemma_capture_rest_after(ev, i + 1, 1);
                    }
                    solid_scan(ev, j, depth, SolidScan { raw: acc.raw.push(event_text(XmlKind::Start, content) + text), ..acc })
                }
            } else {
                solid_scan(ev, i + 1, depth + 1, acc)
            },
            XmlKind::Empty => if depth == 1 {
                if tag_local_name(content) == "effectsColor"@ {
                    solid_scan(ev, i + 1, depth, SolidScan { color: Some((content, None)), ..acc })
                } else {
                    solid_scan(ev, i + 1, depth, SolidScan { raw: acc.raw.push(event_text(XmlKind::Empty, content)), ..acc })
                }
            } else {
                solid_scan(ev, i + 1, depth, acc)
            },
            XmlKind::End => if depth <= 1 {
                SolidScan { next: i + 1, ..acc }
            } else {
                solid_scan(ev, i + 1, depth - 1, acc)
            },
            _ => solid_scan(ev, i + 1, depth, acc),
        }
    }
}

/// Nothing read yet.
pub open spec fn solid_scan_start() -> SolidScan {
    SolidScan { color: None, raw: Seq::empty(), next: 0 }
}

/// A member holding the JSON of a nested effect colour.
pub open spec fn nested_color_member(got: Option<JsonValue>, ev: Seq<XmlEv>, c: NestedColor) -> bool {
    got matches Some(v) && is_color_from_xml(v, c.0, color_scan_of(ev, c.1))
}

/// The `#RRGGBB` form of a solid fill's `color` attribute.
pub open spec fn solid_color_hex(start: Seq<char>) -> Option<Seq<char>> {
    match tag_attr(start, "color"@) {
        Some(c) => normalize_xml_color_hex_spec(c),
        None => None,
    }
}

/// The member `k` of a solid fill read from XML: the start tag's
/// attributes, the `#RRGGBB` form of its colour under `color_hex`, the last
/// effect colour child under `color`, the other children's raw XML under
/// `raw_child_xml`.
pub open spec fn solid_member(got: Option<JsonValue>, ev: Seq<XmlEv>, start: Seq<char>, s: SolidScan, k: Seq<char>) -> bool {
    if k == "raw_child_xml"@ && s.raw.len() > 0 {
        text_list_member(got, s.raw)
    } else if k == "color"@ && s.color is Some {
        nested_color_member(got, ev, s.color->0)
    } else if k == "color_hex"@ && solid_color_hex(start) is Some {
        text_member(got, solid_color_hex(start))
    } else {
        text_member(got, tag_attr(start, k))
    }
}

/// A solid fill's JSON read from XML (see `solid_member`).
pub open spec fn is_solid_from_xml(v: JsonValue, ev: Seq<XmlEv>, start: Seq<char>, scan: SolidScan) -> bool {
    &&& v is Object
    &&& members_unique(v->Object_0@)
    &&& forall|k: Seq<char>| #![trigger members_get(v->Object_0@, k)] solid_member(members_get(v->Object_0@, k), ev, start, scan, k)
}

/// The scan of a solid fill: its children from `i` on, or none for an
/// empty element.
pub open spec fn solid_scan_of(ev: Seq<XmlEv>, children: Option<int>) -> SolidScan {
    match children {
        Some(i) => solid_scan(ev, i, 1, solid_scan_start()),
        None => solid_scan_start(),
    }
}

/// A solid fill's JSON from its XML (see `is_solid_from_xml`), and the
/// place after its end tag.
pub fn drawing_style_solid_fill_json_from_start(start: &str, events: &Vec<XmlRaw>, children: Option<usize>) -> (r: (Vec<(String, JsonValue)>, usize))
    requires
        events@.len() < usize::MAX,
        match children {
            Some(i) => i <= events@.len(),
            None => true,
        },
    ensures
        is_solid_from_xml(
            JsonValue::Object(r.0),
            events_view(events@),
            start@,
            solid_scan_of(events_view(events@), match children {
                Some(i) => Some(i as int),
                None => None,
            }),
        ),
        match children {
            Some(i) => r.1 as int == solid_scan_of(events_view(events@), Some(i as int)).next && i <= r.1 <= events@.len(),
            None => r.1 == 0,
        },
{
    proof {
        reveal_strlit("raw_child_xml");
        reveal_strlit("color");
        reveal_strlit("color_hex");
    }
    let mut map = drawing_style_xml_attrs_value(start);
    let ghost m_attrs = map@;
    let color_hex = match members_lookup_str(&map, "color") {
        Some(c) => drawing_style_normalize_xml_color_hex(c.as_str()),
        None => None,
    };
    match color_hex {
        Some(h) => insert_member(&mut map, "color_hex", JsonValue::String(h)),
        None => {},
    }
    let ghost m0 = map@;
    let i0 = match children {
        Some(i) => i,
        None => {
            proof {
                assert forall|k: Seq<char>| #![trigger members_get(map@, k)] solid_member(
                    members_get(map@, k),
                    events_view(events@),
                    start@,
                    solid_scan_start(),
                    k,
                ) by {
                    assert(text_member(members_get(m_attrs, k), tag_attr(start@, k)));
                }
            }
            return (map, 0);
        },
    };
    let ghost ev = events_view(events@);
    let ghost total = solid_scan(ev, i0 as int, 1, solid_scan_start());
    let mut raw: Vec<String> = Vec::new();
    let mut color: Option<Vec<(String, JsonValue)>> = None;
    let ghost mut color_at: Option<NestedColor> = None;
    let mut depth: usize = 1;
    let mut j: usize = i0;
    assert(raw_texts(raw@) =~= Seq::<Seq<char>>::empty());
    loop
        invariant_except_break
            ev == events_view(events@),
            events@.len() < usize::MAX,
            i0 <= j <= events@.len(),
            1 <= depth <= 1 + j - i0,
            solid_scan(ev, j as int, depth as int, SolidScan { color: color_at, raw: raw_texts(raw@), next: 0 }) == total,
            match color_at {
                Some(c) => color matches Some(m) && is_color_from_xml(JsonValue::Object(m), c.0, color_scan_of(ev, c.1)),
                None => color is None,
            },
        ensures
            total.color == color_at,
            total.raw == raw_texts(raw@),
            i0 <= total.next <= events@.len(),
            j as int == total.next,
            match color_at {
                Some(c) => color matches Some(m) && is_color_from_xml(JsonValue::Object(m), c.0, color_scan_of(ev, c.1)),
                None => color is None,
            },
        decreases events@.len() - j,
    {
        if j >= events.len() {
            break;
        }
        let kind = events[j].kind;
        let content = events[j].content.as_str();
        assert(ev[j as int] == (kind, content@));
        match kind {
            XmlKind::Start => {
                if depth == 1 {
                    let local = tag_local(content);
                    if str_eq(local.as_str(), "effectsColor") {
                        let (c, next) = drawing_style_effect_color_json_from_start(content, events, Some(j + 1));
                        color = Some(c);
                        proof {
                            color_at = Some((content@, Some(j + 1)));
                        }
                        j = next;
                    } else {
                        let (captured, next) = drawing_style_capture_raw_xml_element(content, events, j + 1);
                        match captured {
                            Some(t) => push_text(&mut raw, t),
                            None => {},
                        }
                        j = next;
                    }
                } else {
                    depth = depth + 1;
                    j = j + 1;
                }
            },
            XmlKind::Empty => {
                if depth == 1 {
                    let local = tag_local(content);
                    if str_eq(local.as_str(), "effectsColor") {
                        let (c, _) = drawing_style_effect_color_json_from_start(content, events, None);
                        color = Some(c);
                        proof {
                            color_at = Some((content@, None));
                        }
                    } else {
                        match drawing_style_raw_empty_xml_element(content) {
                            Some(t) => push_text(&mut raw, t),
                            None => {},
                        }
                    }
                }
                j = j + 1;
            },
            XmlKind::End => {
                if depth <= 1 {
                    j = j + 1;
                    break;
                }
                depth = depth - 1;
                j = j + 1;
            },
            _ => {
                j = j + 1;
            },
        }
    }
    match color {
        Some(m) => insert_member(&mut map, "color", JsonValue::Object(m)),
        None => {},
    }
    let ghost m1 = map@;
    insert_text_list(&mut map, "raw_child_xml", &raw);
    proof {
        assert forall|k: Seq<char>| #![trigger members_get(map@, k)] solid_member(members_get(map@, k), ev, start@, total, k) by {
            assert(text_member(members_get(m_attrs, k), tag_attr(start@, k)));
            if k == "raw_child_xml"@ && total.raw.len() > 0 {
            } else if k == "color"@ && total.color is Some {
                assert(members_get(map@, k) == members_get(m1, k));
            } else {
                assert(members_get(map@, k) == members_get(m1, k));
                assert(members_get(m1, k) == members_get(m0, k));
            }
        }
    }
    (map, j)
}

/// The text of a string member.
fn members_lookup_str(members: &Vec<(String, JsonValue)>, key: &str) -> (r: Option<String>)
    ensures
        match r {
            Some(t) => members_get(members@, key@) matches Some(JsonValue::String(u)) && u@ == t@,
            None => !(members_get(members@, key@) matches Some(JsonValue::String(_))),
        },
{
    match crate::json_value::members_lookup(members, key) {
        Some(JsonValue::String(s)) => Some(string_of(s.as_str())),
        _ => None,
    }
}

/// The place after a solid fill's end tag is past where its children start
/// and within the events.
pub proof fn lemma_solid_scan_next(ev: Seq<XmlEv>, i: int, depth: int, acc: SolidScan)
    requires
        0 <= i <= ev.len(),
    ensures
        i <= solid_scan(ev, i, depth, acc).next <= ev.len(),
    decreases ev.len() - i,
{
    if i < ev.len() {
        let (kind, content) = ev[i];
        lemma_capture_rest_after(ev, i + 1, 1);
        lemma_color_scan_next(ev, i + 1, 1, color_scan_start());
        let j = capture_rest(ev, i + 1, 1).1;
        let jc = color_scan(ev, i + 1, 1, color_scan_start()).next;
        match kind {
            XmlKind::Start => if depth == 1 {
                if tag_local_name(content) == "effectsColor"@ {
                    lemma_solid_scan_next(ev, jc, depth, SolidScan { color: Some((content, Some(i + 1))), ..acc });
                } else {
                    lemma_solid_scan_next(
                        ev,
                        j,
                        depth,
                        SolidScan { raw: acc.raw.push(event_text(XmlKind::Start, content) + capture_rest(ev, i + 1, 1).0), ..acc },
                    );
                }
            } else {
                lemma_solid_scan_next(ev, i + 1, depth + 1, acc);
            },
            XmlKind::Empty => if depth == 1 {
                if tag_local_name(content) == "effectsColor"@ {
                    lemma_solid_scan_next(ev, i + 1, depth, SolidScan { color: Some((content, None)), ..acc });
                } else {
                    lemma_solid_scan_next(ev, i + 1, depth, SolidScan { raw: acc.raw.push(event_text(XmlKind::Empty, content)), ..acc });
                }
            } else {
                lemma_solid_scan_next(ev, i + 1, depth, acc);
            },
            XmlKind::End => if depth > 1 {
                lemma_solid_scan_next(ev, i + 1, depth - 1, acc);
            },
            _ => lemma_solid_scan_next(ev, i + 1, depth, acc),
        }
    }
}

// ---------------------------------------------------------------------------
// Effects
// ---------------------------------------------------------------------------

/// What the children of an effect element give: the last `bevel` child (of
/// a 3D effect); the last effect colour, solid fill, `skew`, `scale`,
/// `alpha` and `pos` children (of any other effect); the raw XML of the
/// other children; and the place after the effect's end tag.
pub struct EffectScan {
    pub bevel: Option<Seq<char>>,
    pub color: Option<NestedColor>,
    pub solid: Option<NestedColor>,
    pub skew: Option<Seq<char>>,
    pub scale: Option<Seq<char>>,
    pub alpha: Option<Seq<char>>,
    pub pos: Option<Seq<char>>,
    pub raw: Seq<Seq<char>>,
    pub next: int,
}

/// A point or range child (`skew`, `scale`, `alpha`, `pos`) recorded.
pub open spec fn with_point_child(acc: EffectScan, name: Seq<char>, content: Seq<char>) -> EffectScan {
    if name == "skew"@ {
        EffectScan { skew: Some(content), ..acc }
    } else if name == "scale"@ {
        EffectScan { scale: Some(content), ..acc }
    } else if name == "alpha"@ {
        EffectScan { alpha: Some(content), ..acc }
    } else {
        EffectScan { pos: Some(content), ..acc }
    }
}

/// Whether a child name is a point or range child.
pub open spec fn is_point_child(name: Seq<char>) -> bool {
    name == "skew"@ || name == "scale"@ || name == "alpha"@ || name == "pos"@
}

/// The children of an effect element named `effect` from event `i` on,
/// `depth` elements deep, after `acc`.
pub open spec fn effect_scan(ev: Seq<XmlEv>, effect: Seq<char>, i: int, depth: int, acc: EffectScan) -> EffectScan
    decreases ev.len() - i,
{
    if i < 0 || i >= ev.len() {
        EffectScan { next: i, ..acc }
    } else {
        let (kind, content) = ev[i];
        let name = tag_local_name(content);
        let three_d = effect == "threeD"@;
        match kind {
            XmlKind::Start => if depth == 1 {
                if name == "bevel"@ && three_d {
                    effect_scan(ev, effect, i + 1, depth + 1, EffectScan { bevel: Some(content), ..acc })
                } else if name == "effectsColor"@ && !three_d {
                    let j = color_scan(ev, i + 1, 1, color_scan_start()).next;
                    proof {
                        lemma_color_scan_next(ev, i + 1, 1, color_scan_start());
                    }
                    effect_scan(ev, effect, j, depth, EffectScan { color: Some((content, Some(i + 1))), ..acc })
                } else if name == "solidFill"@ && !three_d {
                    let j = solid_scan(ev, i + 1, 1, solid_scan_start()).next;
                    proof {
                        lemma_solid_scan_next(ev, i + 1, 1, solid_scan_start());
                    }
                    effect_scan(ev, effect, j, depth, EffectScan { solid: Some((content, Some(i + 1))), ..acc })
                } else if is_point_child(name) && !three_d {
                    effect_scan(ev, effect, i + 1, depth + 1, with_point_child(acc, name, content))
                } else {
                    let (text, j) = capture_rest(ev, i + 1, 1);
                    proof {
                        lemma_capture_rest_after(ev, i + 1, 1);
                    }
                    effect_scan(ev, effect, j, depth, EffectScan { raw: acc.raw.push(event_text(XmlKind::Start, content) + text), ..acc })
                }
            } else {
                effect_scan(ev, effect, i + 1, depth + 1, acc)
            },
            XmlKind::Empty => if depth == 1 {
                if name == "bevel"@ && three_d {
                    effect_scan(ev, effect, i + 1, depth, EffectScan { bevel: Some(content), ..acc })
                } else if name == "effectsColor"@ && !three_d {
                    effect_scan(ev, effect, i + 1, depth, EffectScan { color: Some((content, None)), ..acc })
                } else if name == "solidFill"@ && !three_d {
                    effect_scan(ev, effect, i + 1, depth, EffectScan { solid: Some((content, None)), ..acc })
                } else if is_point_child(name) && !three_d {
                    effect_scan(ev, effect, i + 1, depth, with_point_child(acc, name, content))
                } else {
                    effect_scan(ev, effect, i + 1, depth, EffectScan { raw: acc.raw.push(event_text(XmlKind::Empty, content)), ..acc })
                }
            } else {
                effect_scan(ev, effect, i + 1, depth, acc)
            },
            XmlKind::End => if depth <= 1 {
                EffectScan { next: i + 1, ..acc }
            } else {
                effect_scan(ev, effect, i + 1, depth - 1, acc)
            },
            _ => effect_scan(ev, effect, i + 1, depth, acc),
        }
    }
}

/// Nothing read yet.
pub open spec fn effect_scan_start() -> EffectScan {
    EffectScan {
        bevel: None,
        color: None,
        solid: None,
        skew: None,
        scale: None,
        alpha: None,
        pos: None,
        raw: Seq::empty(),
        next: 0,
    }
}

/// The scan of an effect element: its children from `i` on, or none for an
/// empty element.
pub open spec fn effect_scan_of(ev: Seq<XmlEv>, effect: Seq<char>, children: Option<int>) -> EffectScan {
    match children {
        Some(i) => effect_scan(ev, effect, i, 1, effect_scan_start()),
        None => effect_scan_start(),
    }
}

/// A member holding the JSON of a nested solid fill.
pub open spec fn nested_solid_member(got: Option<JsonValue>, ev: Seq<XmlEv>, c: NestedColor) -> bool {
    got matches Some(v) && is_solid_from_xml(v, ev, c.0, solid_scan_of(ev, c.1))
}

/// A member holding a child's attributes as an object, when there is one.
pub open spec fn child_attrs_member(got: Option<JsonValue>, child: Seq<char>) -> bool {
    got matches Some(v) && is_attrs_object(v, child)
}

/// The member `k` of an effect read from XML: the start tag's attributes,
/// and each recorded child under its key (`bevel`, `color`, `solid_fill`,
/// `skew`, `scale`, `alpha`, `pos`, and `raw_child_xml` for the others).
pub open spec fn effect_member(got: Option<JsonValue>, ev: Seq<XmlEv>, start: Seq<char>, s: EffectScan, k: Seq<char>) -> bool {
    if k == "raw_child_xml"@ && s.raw.len() > 0 {
        text_list_member(got, s.raw)
    } else if k == "bevel"@ && s.bevel is Some {
        child_attrs_member(got, s.bevel->0)
    } else if k == "color"@ && s.color is Some {
        nested_color_member(got, ev, s.color->0)
    } else if k == "solid_fill"@ && s.solid is Some {
        nested_solid_member(got, ev, s.solid->0)
    } else if k == "skew"@ && s.skew is Some {
        child_attrs_member(got, s.skew->0)
    } else if k == "scale"@ && s.scale is Some {
        child_attrs_member(got, s.scale->0)
    } else if k == "alpha"@ && s.alpha is Some {
        child_attrs_member(got, s.alpha->0)
    } else if k == "pos"@ && s.pos is Some {
        child_attrs_member(got, s.pos->0)
    } else {
        text_member(got, tag_attr(start, k))
    }
}

/// An effect's JSON read from XML (see `effect_member`).
pub open spec fn is_effect_from_xml(v: JsonValue, ev: Seq<XmlEv>, start: Seq<char>, scan: EffectScan) -> bool {
    &&& v is Object
    &&& members_unique(v->Object_0@)
    &&& forall|k: Seq<char>| #![trigger members_get(v->Object_0@, k)] effect_member(members_get(v->Object_0@, k), ev, start, scan, k)
}

proof fn lemma_effect_member_keys()
    ensures
        "raw_child_xml"@.len() == 13,
        "bevel"@.len() == 5,
        "bevel"@[0] == 'b',
        "color"@.len() == 5,
        "color"@[0] == 'c',
        "solid_fill"@.len() == 10,
        "skew"@.len() == 4,
        "scale"@.len() == 5,
        "scale"@[0] == 's',
        "alpha"@.len() == 5,
        "alpha"@[0] == 'a',
        "pos"@.len() == 3,
        "effectsColor"@.len() == 12,
        "solidFill"@.len() == 9,
{
    reveal_strlit("effectsColor");
    reveal_strlit("solidFill");
    reveal_strlit("raw_child_xml");
    reveal_strlit("bevel");
    reveal_strlit("color");
    reveal_strlit("solid_fill");
    reveal_strlit("skew");
    reveal_strlit("scale");
    reveal_strlit("alpha");
    reveal_strlit("pos");
}

/// The place after an effect's end tag is past where its children start
/// and within the events.
pub proof fn lemma_effect_scan_next(ev: Seq<XmlEv>, effect: Seq<char>, i: int, depth: int, acc: EffectScan)
    requires
        0 <= i <= ev.len(),
    ensures
        i <= effect_scan(ev, effect, i, depth, acc).next <= ev.len(),
    decreases ev.len() - i,
{
    if i < ev.len() {
        let (kind, content) = ev[i];
        let name = tag_local_name(content);
        let three_d = effect == "threeD"@;
        lemma_capture_rest_after(ev, i + 1, 1);
        lemma_color_scan_next(ev, i + 1, 1, color_scan_start());
        lemma_solid_scan_next(ev, i + 1, 1, solid_scan_start());
        let (text, j) = capture_rest(ev, i + 1, 1);
        let jc = color_scan(ev, i + 1, 1, color_scan_start()).next;
        let js = solid_scan(ev, i + 1, 1, solid_scan_start()).next;
        match kind {
            XmlKind::Start => if depth == 1 {
                if name == "bevel"@ && three_d {
                    lemma_effect_scan_next(ev, effect, i + 1, depth + 1, EffectScan { bevel: Some(content), ..acc });
                } else if name == "effectsColor"@ && !three_d {
                    lemma_effect_scan_next(ev, effect, jc, depth, EffectScan { color: Some((content, Some(i + 1))), ..acc });
                } else if name == "solidFill"@ && !three_d {
                    lemma_effect_scan_next(ev, effect, js, depth, EffectScan { solid: Some((content, Some(i + 1))), ..acc });
                } else if is_point_child(name) && !three_d {
                    lemma_effect_scan_next(ev, effect, i + 1, depth + 1, with_point_child(acc, name, content));
                } else {
                    lemma_effect_scan_next(
                        ev,
                        effect,
                        j,
                        depth,
                        EffectScan { raw: acc.raw.push(event_text(XmlKind::Start, content) + text), ..acc },
                    );
                }
            } else {
                lemma_effect_scan_next(ev, effect, i + 1, depth + 1, acc);
            },
            XmlKind::Empty => if depth == 1 {
                if name == "bevel"@ && three_d {
                    lemma_effect_scan_next(ev, effect, i + 1, depth, EffectScan { bevel: Some(content), ..acc });
                } else if name == "effectsColor"@ && !three_d {
                    lemma_effect_scan_next(ev, effect, i + 1, depth, EffectScan { color: Some((content, None)), ..acc });
                } else if name == "solidFill"@ && !three_d {
                    lemma_effect_scan_next(ev, effect, i + 1, depth, EffectScan { solid: Some((content, None)), ..acc });
                } else if is_point_child(name) && !three_d {
                    lemma_effect_scan_next(ev, effect, i + 1, depth, with_point_child(acc, name, content));
                } else {
                    lemma_effect_scan_next(
                        ev,
                        effect,
                        i + 1,
                        depth,
                        EffectScan { raw: acc.raw.push(event_text(XmlKind::Empty, content)), ..acc },
                    );
                }
            } else {
                lemma_effect_scan_next(ev, effect, i + 1, depth, acc);
            },
            XmlKind::End => if depth > 1 {
                lemma_effect_scan_next(ev, effect, i + 1, depth - 1, acc);
            },
            _ => lemma_effect_scan_next(ev, effect, i + 1, depth, acc),
        }
    }
}

/// The members recorded for an effect's children so far, with what each
/// holds.
struct EffectParts {
    bevel: Option<Vec<(String, JsonValue)>>,
    color: Option<Vec<(String, JsonValue)>>,
    solid: Option<Vec<(String, JsonValue)>>,
    skew: Option<Vec<(String, JsonValue)>>,
    scale: Option<Vec<(String, JsonValue)>>,
    alpha: Option<Vec<(String, JsonValue)>>,
    pos: Option<Vec<(String, JsonValue)>>,
}

/// An optional child's attribute object matches the recorded child.
spec fn attrs_part(part: Option<Vec<(String, JsonValue)>>, child: Option<Seq<char>>) -> bool {
    match child {
        Some(c) => part matches Some(m) && is_attrs_object(JsonValue::Object(m), c),
        None => part is None,
    }
}

/// The parts match what the scan recorded.
spec fn parts_match(p: EffectParts, ev: Seq<XmlEv>, acc: EffectScan) -> bool {
    &&& attrs_part(p.bevel, acc.bevel)
    &&& attrs_part(p.skew, acc.skew)
    &&& attrs_part(p.scale, acc.scale)
    &&& attrs_part(p.alpha, acc.alpha)
    &&& attrs_part(p.pos, acc.pos)
    &&& match acc.color {
        Some(c) => p.color matches Some(m) && is_color_from_xml(JsonValue::Object(m), c.0, color_scan_of(ev, c.1)),
        None => p.color is None,
    }
    &&& match acc.solid {
        Some(c) => p.solid matches Some(m) && is_solid_from_xml(JsonValue::Object(m), ev, c.0, solid_scan_of(ev, c.1)),
        None => p.solid is None,
    }
}

fn insert_part(map: &mut Vec<(String, JsonValue)>, key: &str, part: Option<Vec<(String, JsonValue)>>)
    ensures
        forall|k: Seq<char>| #[trigger] members_get(final(map)@, k) == if k == key@ && part is Some {
            Some(JsonValue::Object(part->0))
        } else {
            members_get(old(map)@, k)
        },
        members_unique(old(map)@) ==> members_unique(final(map)@),
{
    match part {
        Some(m) => insert_member(map, key, JsonValue::Object(m)),
        None => {},
    }
}

/// An effect's JSON from its XML (see `is_effect_from_xml`): the start
/// tag's content, the effect's name, and, for an element with children,
/// the events after its start tag; also the place after its end tag.
pub fn drawing_style_effect_json_from_start(
    start: &str,
    events: &Vec<XmlRaw>,
    children: Option<usize>,
    effect_name: &str,
) -> (r: (Vec<(String, JsonValue)>, usize))
    requires
        events@.len() < usize::MAX,
        match children {
            Some(i) => i <= events@.len(),
            None => true,
        },
    ensures
        is_effect_from_xml(
            JsonValue::Object(r.0),
            events_view(events@),
            start@,
            effect_scan_of(events_view(events@), effect_name@, match children {
                Some(i) => Some(i as int),
                None => None,
            }),
        ),
        match children {
            Some(i) => r.1 as int == effect_scan_of(events_view(events@), effect_name@, Some(i as int)).next
                && i <= r.1 <= events@.len(),
            None => r.1 == 0,
        },
{
    proof {
        lemma_effect_member_keys();
    }
    let mut map = drawing_style_xml_attrs_value(start);
    let ghost m_attrs = map@;
    let i0 = match children {
        Some(i) => i,
        None => {
            return (map, 0);
        },
    };
    let three_d = str_eq(effect_name, "threeD");
    let ghost ev = events_view(events@);
    let ghost total = effect_scan(ev, effect_name@, i0 as int, 1, effect_scan_start());
    let mut raw: Vec<String> = Vec::new();
    let mut parts = EffectParts { bevel: None, color: None, solid: None, skew: None, scale: None, alpha: None, pos: None };
    let ghost mut acc = effect_scan_start();
    let mut depth: usize = 1;
    let mut j: usize = i0;
    assert(raw_texts(raw@) =~= Seq::<Seq<char>>::empty());
    loop
        invariant_except_break
            ev == events_view(events@),
            events@.len() < usize::MAX,
            three_d == (effect_name@ == "threeD"@),
            i0 <= j <= events@.len(),
            1 <= depth <= 1 + j - i0,
            acc.raw == raw_texts(raw@),
            acc.next == 0,
            effect_scan(ev, effect_name@, j as int, depth as int, acc) == total,
            parts_match(parts, ev, acc),
        ensures
            total == (EffectScan { next: total.next, ..acc }),
            acc.raw == raw_texts(raw@),
            i0 <= total.next <= events@.len(),
            j as int == total.next,
            parts_match(parts, ev, acc),
        decreases events@.len() - j,
    {
        if j >= events.len() {
            break;
        }
        let kind = events[j].kind;
        let content = events[j].content.as_str();
        assert(ev[j as int] == (kind, content@));
        proof {
            lemma_effect_member_keys();
        }
        let local = tag_local(content);
        let is_bevel = str_eq(local.as_str(), "bevel") && three_d;
        let is_color = str_eq(local.as_str(), "effectsColor") && !three_d;
        let is_solid = str_eq(local.as_str(), "solidFill") && !three_d;
        let is_skew = str_eq(local.as_str(), "skew") && !three_d;
        let is_scale = str_eq(local.as_str(), "scale") && !three_d;
        let is_alpha = str_eq(local.as_str(), "alpha") && !three_d;
        let is_pos = str_eq(local.as_str(), "pos") && !three_d;
        match kind {
            XmlKind::Start | XmlKind::Empty => {
                let empty = match kind {
                    XmlKind::Empty => true,
                    _ => false,
                };
                if depth != 1 {
                    if !empty {
                        depth = depth + 1;
                    }
                    j = j + 1;
                } else if is_bevel || is_skew || is_scale || is_alpha || is_pos {
                    let members = drawing_style_xml_attrs_value(content);
                    if is_bevel {
                        parts.bevel = Some(members);
                        proof {
                            acc = EffectScan { bevel: Some(content@), ..acc };
                        }
                    } else if is_skew {
                        parts.skew = Some(members);
                        proof {
                            acc = with_point_child(acc, local@, content@);
                        }
                    } else if is_scale {
                        parts.scale = Some(members);
                        proof {
                            acc = with_point_child(acc, local@, content@);
                        }
                    } else if is_alpha {
                        parts.alpha = Some(members);
                        proof {
                            acc = with_point_child(acc, local@, content@);
                        }
                    } else {
                        parts.pos = Some(members);
                        proof {
                            acc = with_point_child(acc, local@, content@);
                        }
                    }
                    if !empty {
                        depth = depth + 1;
                    }
                    j = j + 1;
                } else if is_color {
                    if empty {
                        let (c, _) = drawing_style_effect_color_json_from_start(content, events, None);
                        parts.color = Some(c);
                        proof {
                            acc = EffectScan { color: Some((content@, None)), ..acc };
                        }
                        j = j + 1;
                    } else {
                        let (c, next) = drawing_style_effect_color_json_from_start(content, events, Some(j + 1));
                        parts.color = Some(c);
                        proof {
                            acc = EffectScan { color: Some((content@, Some(j + 1))), ..acc };
                        }
                        j = next;
                    }
                } else if is_solid {
                    if empty {
                        let (f, _) = drawing_style_solid_fill_json_from_start(content, events, None);
                        parts.solid = Some(f);
                        proof {
                            acc = EffectScan { solid: Some((content@, None)), ..acc };
                        }
                        j = j + 1;
                    } else {
                        let (f, next) = drawing_style_solid_fill_json_from_start(content, events, Some(j + 1));
                        parts.solid = Some(f);
                        proof {
                            acc = EffectScan { solid: Some((content@, Some(j + 1))), ..acc };
                        }
                        j = next;
                    }
                } else if empty {
                    match drawing_style_raw_empty_xml_element(content) {
                        Some(t) => push_text(&mut raw, t),
                        None => {},
                    }
                    proof {
                        acc = EffectScan { raw: raw_texts(raw@), ..acc };
                    }
                    j = j + 1;
                } else {
                    let (captured, next) = drawing_style_capture_raw_xml_element(content, events, j + 1);
                    match captured {
                        Some(t) => push_text(&mut raw, t),
                        None => {},
                    }
                    proof {
                        acc = EffectScan { raw: raw_texts(raw@), ..acc };
                    }
                    j = next;
                }
            },
            XmlKind::End => {
                if depth <= 1 {
                    j = j + 1;
                    break;
                }
                depth = depth - 1;
                j = j + 1;
            },
            _ => {
                j = j + 1;
            },
        }
    }
    let ghost m0 = map@;
    insert_part(&mut map, "bevel", parts.bevel);
    insert_part(&mut map, "color", parts.color);
    insert_part(&mut map, "solid_fill", parts.solid);
    insert_part(&mut map, "skew", parts.skew);
    insert_part(&mut map, "scale", parts.scale);
    insert_part(&mut map, "alpha", parts.alpha);
    insert_part(&mut map, "pos", parts.pos);
    let ghost m1 = map@;
    insert_text_list(&mut map, "raw_child_xml", &raw);
    proof {
        assert forall|k: Seq<char>| #![trigger members_get(map@, k)] effect_member(members_get(map@, k), ev, start@, total, k) by {
            assert(text_member(members_get(m_attrs, k), tag_attr(start@, k)));
            if !(k == "raw_child_xml"@ && total.raw.len() > 0) {
                assert(members_get(map@, k) == members_get(m1, k));
            }
        }
    }
    (map, j)
}

} // verus!
