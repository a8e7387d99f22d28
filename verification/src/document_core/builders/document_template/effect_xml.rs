//! Drawing-style effects written as HWPX XML from their JSON form: the
//! attributes of each effect element come from the JSON members (in name
//! order), its children from nested colours, points, ranges, fills and raw
//! child XML.

use crate::document_core::builders::document_template::attrs::{
    attrs_text,
    drawing_style_xml_attr_map,
    drawing_style_xml_attrs,
    drawing_style_xml_attrs_from_map,
    xml_attr_map_spec,
    XmlAttrs,
};
use crate::document_core::builders::document_template::effects::{
    first_of,
    first_of4,
    strings_view,
    three_d_skip_keys,
};
use crate::document_core::builders::document_template::fields::{
    alias_string,
    alias_text,
    flat_point_keys,
    flat_range_keys,
};
use crate::document_core::builders::document_template::objects::{
    byte_at,
    color_ref_to_rgb_spec,
    color_ref_to_rgb_u32,
    drawing_style_xml_attr_escape,
    effect_rgb_color_hex,
    effect_rgb_hex_spec,
    lemma_bytes_compose,
    opt_view,
    xml_attr_escape_spec,
};
use crate::json_value::{
    css_color_value_spec,
    json_css_color_ref_value,
    json_get_spec,
    members_get,
    members_lookup,
    JsonValue,
};
use crate::model::EffectRgb;
use crate::text::{dec_seq, push_decimal, push_str, string_of};
use vstd::prelude::*;

verus! {

// ---------------------------------------------------------------------------
// Raw child XML and elements
// ---------------------------------------------------------------------------

/// The string items of an array, in order.
pub open spec fn string_items(items: Seq<JsonValue>) -> Seq<Seq<char>>
    decreases items.len(),
{
    if items.len() == 0 {
        Seq::empty()
    } else {
        string_items(items.drop_last()) + match items.last() {
            JsonValue::String(s) => seq![s@],
            _ => Seq::empty(),
        }
    }
}

/// The raw child XML that an effect's JSON gives: the value under the first
/// raw-child key present; a string is one child, an array gives its string
/// items, anything else none.
pub open spec fn raw_child_values_spec(value: JsonValue) -> Seq<Seq<char>> {
    match first_of(value, seq!["raw_child_xml"@, "rawChildXml"@, "raw_children_xml"@, "rawChildrenXml"@]) {
        Some(JsonValue::String(s)) => seq![s@],
        Some(JsonValue::Array(items)) => string_items(items@),
        _ => Seq::empty(),
    }
}

/// The raw child XML of an effect's JSON (see `raw_child_values_spec`).
pub fn drawing_style_raw_child_xml_values(value: &JsonValue) -> (r: Vec<String>)
    ensures
        r@.map_values(|s: String| s@) == raw_child_values_spec(*value),
{
    let raw = first_of4(value, "raw_child_xml", "rawChildXml", "raw_children_xml", "rawChildrenXml");
    let mut out: Vec<String> = Vec::new();
    match raw {
        Some(JsonValue::String(s)) => {
            out.push(string_of(s.as_str()));
            assert(out@.map_values(|s: String| s@) =~= seq![s@]);
        },
        Some(JsonValue::Array(items)) => {
            let mut i: usize = 0;
            while i < items.len()
                invariant
                    i <= items@.len(),
                    out@.map_values(|s: String| s@) == string_items(items@.subrange(0, i as int)),
                decreases items@.len() - i,
            {
                assert(items@.subrange(0, i + 1).drop_last() =~= items@.subrange(0, i as int));
                match &items[i] {
                    JsonValue::String(s) => {
                        out.push(string_of(s.as_str()));
                    },
                    _ => {},
                }
                i = i + 1;
                assert(out@.map_values(|s: String| s@) =~= string_items(items@.subrange(0, i as int)));
            }
            assert(items@.subrange(0, i as int) =~= items@);
        },
        _ => {
            assert(out@.map_values(|s: String| s@) =~= Seq::<Seq<char>>::empty());
        },
    }
    out
}

/// Texts one after another.
pub open spec fn concat_texts(parts: Seq<Seq<char>>) -> Seq<char>
    decreases parts.len(),
{
    if parts.len() == 0 {
        Seq::empty()
    } else {
        concat_texts(parts.drop_last()) + parts.last()
    }
}

/// An XML element `<tag attrs/>`, or `<tag attrs>children</tag>` when it
/// has children.
pub open spec fn element_text(tag: Seq<char>, attrs: Seq<char>, children: Seq<Seq<char>>) -> Seq<char> {
    if children.len() == 0 {
        seq!['<'] + tag + attrs + seq!['/', '>']
    } else {
        seq!['<'] + tag + attrs + seq!['>'] + concat_texts(children) + seq!['<', '/'] + tag + seq!['>']
    }
}

fn element(tag: &str, attrs: &str, children: &Vec<String>) -> (r: String)
    ensures
        r@ == element_text(tag@, attrs@, children@.map_values(|s: String| s@)),
{
    let ghost parts = children@.map_values(|s: String| s@);
    let mut out = string_of("<");
    push_str(&mut out, tag);
    push_str(&mut out, attrs);
    proof {
        reveal_strlit("<");
        reveal_strlit("/>");
        reveal_strlit(">");
        reveal_strlit("</");
    }
    if children.len() == 0 {
        push_str(&mut out, "/>");
        assert(out@ =~= element_text(tag@, attrs@, parts));
        return out;
    }
    push_str(&mut out, ">");
    let ghost head = out@;
    let mut i: usize = 0;
    while i < children.len()
        invariant
            i <= children@.len(),
            parts == children@.map_values(|s: String| s@),
            out@ == head + concat_texts(parts.subrange(0, i as int)),
        decreases children@.len() - i,
    {
        assert(parts.subrange(0, i + 1).drop_last() =~= parts.subrange(0, i as int));
        push_str(&mut out, children[i].as_str());
        i = i + 1;
        assert(out@ =~= head + concat_texts(parts.subrange(0, i as int)));
    }
    assert(parts.subrange(0, i as int) =~= parts);
    push_str(&mut out, "</");
    push_str(&mut out, tag);
    push_str(&mut out, ">");
    assert(out@ =~= element_text(tag@, attrs@, parts));
    out
}

// ---------------------------------------------------------------------------
// Flat child attributes and colours
// ---------------------------------------------------------------------------

/// A text inserted into a map when given.
pub open spec fn opt_insert(m: Map<Seq<char>, Seq<char>>, k: Seq<char>, v: Option<Seq<char>>) -> Map<Seq<char>, Seq<char>> {
    match v {
        Some(t) => m.insert(k, t),
        None => m,
    }
}

/// The attributes of a point or range child (`skew`, `scale`, `alpha`,
/// `pos`) given by flat keys: `x`/`y` or `start`/`end`, unless neither
/// is given.
pub open spec fn flat_child_spec(value: JsonValue, child: Seq<char>) -> Option<Map<Seq<char>, Seq<char>>> {
    let point = child == "skew"@ || child == "scale"@;
    let keys = if point {
        flat_point_keys(child)
    } else {
        flat_range_keys(child)
    };
    match keys {
        Some((a1, a2, b1, b2)) => {
            let a = alias_text(value, a1, a2);
            let b = alias_text(value, b1, b2);
            if a is None && b is None {
                None
            } else if point {
                Some(opt_insert(opt_insert(Map::empty(), "x"@, a), "y"@, b))
            } else {
                Some(opt_insert(opt_insert(Map::empty(), "start"@, a), "end"@, b))
            }
        },
        None => None,
    }
}

fn insert_opt(attrs: &mut XmlAttrs, key: &str, value: Option<String>)
    requires
        old(attrs).wf(),
    ensures
        final(attrs).wf(),
        final(attrs)@ == opt_insert(old(attrs)@, key@, match value {
            Some(t) => Some(t@),
            None => None,
        }),
{
    match value {
        Some(t) => attrs.insert(string_of(key), t),
        None => {},
    }
}

/// The XML attribute text of a point or range child given by flat keys
/// (see `flat_child_spec`).
pub fn drawing_style_flat_effect_child_attrs(value: &JsonValue, child_name: &str) -> (r: Option<String>)
    ensures
        match flat_child_spec(*value, child_name@) {
            Some(m) => r matches Some(t) && t@ == attrs_text(m),
            None => r is None,
        },
{
    let point = crate::text::str_eq(child_name, "skew") || crate::text::str_eq(child_name, "scale");
    let (a, b) = if crate::text::str_eq(child_name, "skew") {
        (alias_string(value, "skew_x", "skewX"), alias_string(value, "skew_y", "skewY"))
    } else if crate::text::str_eq(child_name, "scale") {
        (alias_string(value, "scale_x", "scaleX"), alias_string(value, "scale_y", "scaleY"))
    } else if crate::text::str_eq(child_name, "alpha") {
        (alias_string(value, "alpha_start", "alphaStart"), alias_string(value, "alpha_end", "alphaEnd"))
    } else if crate::text::str_eq(child_name, "pos") {
        (alias_string(value, "pos_start", "posStart"), alias_string(value, "pos_end", "posEnd"))
    } else {
        return None;
    };
    if a.is_none() && b.is_none() {
        return None;
    }
    let mut attrs = XmlAttrs::new();
    if point {
        insert_opt(&mut attrs, "x", a);
        insert_opt(&mut attrs, "y", b);
    } else {
        insert_opt(&mut attrs, "start", a);
        insert_opt(&mut attrs, "end", b);
    }
    Some(drawing_style_xml_attrs_from_map(attrs))
}

/// The `b`, `g`, `r` attributes (decimal bytes) of the colour a JSON colour
/// value names, unless it names none.
pub open spec fn rgb_xml_attrs_spec(value: JsonValue) -> Option<Seq<char>> {
    match css_color_value_spec(value) {
        Some(c) => if c == 0xFFFF_FFFFu32 {
            None
        } else {
            let rgb = color_ref_to_rgb_spec(c as int);
            Some(
                " b=\""@ + dec_seq(byte_at(rgb, 0) as nat) + "\" g=\""@ + dec_seq(byte_at(rgb, 1) as nat)
                    + "\" r=\""@ + dec_seq(byte_at(rgb, 2) as nat) + "\""@,
            )
        },
        None => None,
    }
}

/// The `b`, `g`, `r` XML attributes of a JSON colour value (see
/// `rgb_xml_attrs_spec`).
pub fn drawing_style_rgb_xml_attrs_from_hex(value: &JsonValue) -> (r: Option<String>)
    ensures
        match r {
            Some(t) => rgb_xml_attrs_spec(*value) == Some(t@),
            None => rgb_xml_attrs_spec(*value) is None,
        },
{
    let color_ref = match json_css_color_ref_value(value) {
        Some(c) => c,
        None => return None,
    };
    if color_ref == 0xFFFF_FFFF {
        return None;
    }
    let rgb = color_ref_to_rgb_u32(color_ref);
    proof {
        lemma_bytes_compose(rgb as int);
    }
    let mut out = string_of(" b=\"");
    push_decimal(&mut out, (rgb % 0x100) as u64);
    push_str(&mut out, "\" g=\"");
    push_decimal(&mut out, ((rgb / 0x100) % 0x100) as u64);
    push_str(&mut out, "\" r=\"");
    push_decimal(&mut out, ((rgb / 0x1_0000) % 0x100) as u64);
    push_str(&mut out, "\"");
    assert(out@ =~= " b=\""@ + dec_seq(byte_at(rgb as int, 0) as nat) + "\" g=\""@ + dec_seq(
        byte_at(rgb as int, 1) as nat,
    ) + "\" r=\""@ + dec_seq(byte_at(rgb as int, 2) as nat) + "\""@);
    Some(out)
}

/// `Some(x)` as a one-item list, nothing as an empty one.
pub open spec fn opt_list(x: Option<Seq<char>>) -> Seq<Seq<char>> {
    match x {
        Some(t) => seq![t],
        None => Seq::empty(),
    }
}

/// Appends strings.
fn extend_strings(out: &mut Vec<String>, more: Vec<String>)
    ensures
        strings_view(final(out)@) == strings_view(old(out)@) + strings_view(more@),
{
    let ghost start = strings_view(out@);
    let mut i: usize = 0;
    while i < more.len()
        invariant
            i <= more@.len(),
            strings_view(out@) == start + strings_view(more@.subrange(0, i as int)),
        decreases more@.len() - i,
    {
        let ghost prev = strings_view(out@);
        out.push(string_of(more[i].as_str()));
        assert(strings_view(out@) =~= prev.push(more@[i as int]@));
        assert(strings_view(more@.subrange(0, i + 1)) =~= strings_view(more@.subrange(0, i as int)).push(
            more@[i as int]@,
        ));
        i = i + 1;
    }
    assert(more@.subrange(0, i as int) =~= more@);
}

/// Appends a string when there is one.
fn push_opt(out: &mut Vec<String>, x: Option<String>)
    ensures
        strings_view(final(out)@) == strings_view(old(out)@) + opt_list(match x {
            Some(t) => Some(t@),
            None => None,
        }),
{
    match x {
        Some(t) => {
            out.push(t);
            assert(strings_view(out@) =~= strings_view(old(out)@) + seq![t@]);
        },
        None => {
            assert(strings_view(out@) =~= strings_view(old(out)@) + Seq::<Seq<char>>::empty());
        },
    }
}

/// The members of an effect colour that are no attributes of its element.
pub open spec fn color_xml_skip() -> Seq<Seq<char>> {
    seq![
        "rgb"@,
        "color_hex"@,
        "colorHex"@,
        "rgb_hex"@,
        "rgbHex"@,
        "raw_child_xml"@,
        "rawChildXml"@,
        "raw_children_xml"@,
        "rawChildrenXml"@,
    ]
}

/// The colour-text keys of an effect colour.
pub open spec fn hex_keys() -> Seq<Seq<char>> {
    seq!["color_hex"@, "colorHex"@, "rgb_hex"@, "rgbHex"@]
}

/// The attributes of an effect colour's `rgb` child: an `rgb` object's
/// members, else the components of a colour text.
pub open spec fn rgb_child_attrs_spec(value: JsonValue) -> Option<Seq<char>> {
    let hex = match first_of(value, hex_keys()) {
        Some(h) => rgb_xml_attrs_spec(h),
        None => None,
    };
    match json_get_spec(value, "rgb"@) {
        Some(rgb) => if rgb is Object {
            Some(attrs_text(xml_attr_map_spec(rgb, hex_keys())))
        } else {
            hex
        },
        None => hex,
    }
}

/// A value unless the map has one under `k`.
pub open spec fn or_insert(m: Map<Seq<char>, Seq<char>>, k: Seq<char>, v: Seq<char>) -> Map<Seq<char>, Seq<char>> {
    if m.dom().contains(k) {
        m
    } else {
        m.insert(k, v)
    }
}

/// The `effectsColor` element of a JSON effect colour: a colour value that
/// is no object gives an RGB colour (or nothing when it names none); an
/// object gives its members as attributes, an `rgb` child (the type and
/// indexes then defaulting to `RGB` and `-1`) and raw child XML.
pub open spec fn effect_color_xml_spec(value: JsonValue) -> Option<Seq<char>> {
    if !(value is Object) {
        match rgb_xml_attrs_spec(value) {
            Some(a) => Some(
                "<hp:effectsColor presetIdx=\"-1\" schemeIdx=\"-1\" systemIdx=\"-1\" type=\"RGB\"><hp:rgb"@ + a
                    + "/></hp:effectsColor>"@,
            ),
            None => None,
        }
    } else {
        let m = xml_attr_map_spec(value, color_xml_skip());
        match rgb_child_attrs_spec(value) {
            Some(a) => Some(
                element_text(
                    "hp:effectsColor"@,
                    attrs_text(
                        or_insert(
                            or_insert(or_insert(or_insert(m, "presetIdx"@, "-1"@), "schemeIdx"@, "-1"@), "systemIdx"@, "-1"@),
                            "type"@,
                            "RGB"@,
                        ),
                    ),
                    seq!["<hp:rgb"@ + a + "/>"@] + raw_child_values_spec(value),
                ),
            ),
            None => Some(element_text("hp:effectsColor"@, attrs_text(m), raw_child_values_spec(value))),
        }
    }
}

fn rgb_child_attrs(value: &JsonValue) -> (r: Option<String>)
    ensures
        match r {
            Some(t) => rgb_child_attrs_spec(*value) == Some(t@),
            None => rgb_child_attrs_spec(*value) is None,
        },
{
    match value.get("rgb") {
        Some(rgb) => match rgb {
            JsonValue::Object(_) => {
                let skip = ["color_hex", "colorHex", "rgb_hex", "rgbHex"];
                assert(skip@.map_values(|s: &str| s@) =~= hex_keys());
                return Some(drawing_style_xml_attrs(rgb, &skip));
            },
            _ => {},
        },
        None => {},
    }
    match first_of4(value, "color_hex", "colorHex", "rgb_hex", "rgbHex") {
        Some(h) => drawing_style_rgb_xml_attrs_from_hex(h),
        None => None,
    }
}

fn default_attr(attrs: &mut XmlAttrs, key: &str, value: &str)
    requires
        old(attrs).wf(),
    ensures
        final(attrs).wf(),
        final(attrs)@ == or_insert(old(attrs)@, key@, value@),
{
    if !attrs.contains_key(key) {
        attrs.insert(string_of(key), string_of(value));
    }
}

/// The `effectsColor` element of a JSON effect colour (see
/// `effect_color_xml_spec`).
pub fn drawing_style_effect_color_xml(value: &JsonValue) -> (r: Option<String>)
    ensures
        match r {
            Some(t) => effect_color_xml_spec(*value) == Some(t@),
            None => effect_color_xml_spec(*value) is None,
        },
{
    match value {
        JsonValue::Object(_) => {},
        _ => {
            return match drawing_style_rgb_xml_attrs_from_hex(value) {
                Some(a) => {
                    let mut out = string_of(
                        "<hp:effectsColor presetIdx=\"-1\" schemeIdx=\"-1\" systemIdx=\"-1\" type=\"RGB\"><hp:rgb",
                    );
                    push_str(&mut out, a.as_str());
                    push_str(&mut out, "/></hp:effectsColor>");
                    Some(out)
                },
                None => None,
            };
        },
    }
    let skip = [
        "rgb",
        "color_hex",
        "colorHex",
        "rgb_hex",
        "rgbHex",
        "raw_child_xml",
        "rawChildXml",
        "raw_children_xml",
        "rawChildrenXml",
    ];
    let mut attr_map = drawing_style_xml_attr_map(value, &skip);
    assert(skip@.map_values(|s: &str| s@) =~= color_xml_skip());
    let mut children: Vec<String> = Vec::new();
    let rgb_attrs = rgb_child_attrs(value);
    match &rgb_attrs {
        Some(a) => {
            default_attr(&mut attr_map, "presetIdx", "-1");
            default_attr(&mut attr_map, "schemeIdx", "-1");
            default_attr(&mut attr_map, "systemIdx", "-1");
            default_attr(&mut attr_map, "type", "RGB");
            let mut child = string_of("<hp:rgb");
            push_str(&mut child, a.as_str());
            push_str(&mut child, "/>");
            children.push(child);
            assert(strings_view(children@) =~= seq!["<hp:rgb"@ + a@ + "/>"@]);
        },
        None => {
            assert(strings_view(children@) =~= Seq::<Seq<char>>::empty());
        },
    }
    extend_strings(&mut children, drawing_style_raw_child_xml_values(value));
    let attrs = drawing_style_xml_attrs_from_map(attr_map);
    let r = element("hp:effectsColor", attrs.as_str(), &children);
    proof {
        match rgb_attrs {
            Some(a) => {
                assert(strings_view(children@) =~= seq!["<hp:rgb"@ + a@ + "/>"@] + raw_child_values_spec(*value));
            },
            None => {
                assert(strings_view(children@) =~= raw_child_values_spec(*value));
            },
        }
    }
    Some(r)
}

// ---------------------------------------------------------------------------
// Solid fill and 3D
// ---------------------------------------------------------------------------

/// The members of a solid fill that are no attributes of its element.
pub open spec fn solid_fill_xml_skip() -> Seq<Seq<char>> {
    seq![
        "color_hex"@,
        "colorHex"@,
        "color"@,
        "effectsColor"@,
        "raw_child_xml"@,
        "rawChildXml"@,
        "raw_children_xml"@,
        "rawChildrenXml"@,
    ]
}

/// The `solidFill` element of a JSON solid fill: a string is its colour;
/// otherwise its members are attributes (`color` from `color_hex` or
/// `colorHex` when not given), with the effect colour under `color` or
/// `effectsColor` and raw child XML as children.
pub open spec fn solid_fill_xml_spec(value: JsonValue) -> Seq<char> {
    match value {
        JsonValue::String(color) => "<hp:solidFill color=\""@ + xml_attr_escape_spec(color@) + "\"/>"@,
        _ => {
            let m = xml_attr_map_spec(value, solid_fill_xml_skip());
            let m2 = if m.dom().contains("color"@) {
                m
            } else {
                opt_insert(m, "color"@, alias_text(value, "color_hex"@, "colorHex"@))
            };
            let color_child = match first_of(value, seq!["color"@, "effectsColor"@]) {
                Some(c) => effect_color_xml_spec(c),
                None => None,
            };
            element_text("hp:solidFill"@, attrs_text(m2), opt_list(color_child) + raw_child_values_spec(value))
        },
    }
}

fn first_of2<'a>(value: &'a JsonValue, a: &str, b: &str) -> (r: Option<&'a JsonValue>)
    ensures
        match r {
            Some(v) => first_of(*value, seq![a@, b@]) == Some(*v),
            None => first_of(*value, seq![a@, b@]) is None,
        },
{
    proof {
        reveal_with_fuel(first_of, 3);
        assert(seq![a@, b@].drop_first() =~= seq![b@]);
        assert(seq![b@].drop_first() =~= Seq::<Seq<char>>::empty());
    }
    match value.get(a) {
        Some(v) => Some(v),
        None => value.get(b),
    }
}

/// The `solidFill` element of a JSON solid fill (see
/// `solid_fill_xml_spec`).
pub fn drawing_style_solid_fill_xml(value: &JsonValue) -> (r: Option<String>)
    ensures
        r matches Some(t) && t@ == solid_fill_xml_spec(*value),
{
    match value {
        JsonValue::String(color) => {
            let mut out = string_of("<hp:solidFill color=\"");
            let escaped = drawing_style_xml_attr_escape(color.as_str());
            push_str(&mut out, escaped.as_str());
            push_str(&mut out, "\"/>");
            return Some(out);
        },
        _ => {},
    }
    let skip = [
        "color_hex",
        "colorHex",
        "color",
        "effectsColor",
        "raw_child_xml",
        "rawChildXml",
        "raw_children_xml",
        "rawChildrenXml",
    ];
    let mut attr_map = drawing_style_xml_attr_map(value, &skip);
    assert(skip@.map_values(|s: &str| s@) =~= solid_fill_xml_skip());
    if !attr_map.contains_key("color") {
        insert_opt(&mut attr_map, "color", alias_string(value, "color_hex", "colorHex"));
    }
    let attrs = drawing_style_xml_attrs_from_map(attr_map);
    let mut children: Vec<String> = Vec::new();
    let color_child = match first_of2(value, "color", "effectsColor") {
        Some(c) => drawing_style_effect_color_xml(c),
        None => None,
    };
    push_opt(&mut children, color_child);
    extend_strings(&mut children, drawing_style_raw_child_xml_values(value));
    assert(strings_view(children@) =~= opt_list(
        match first_of(*value, seq!["color"@, "effectsColor"@]) {
            Some(c) => effect_color_xml_spec(c),
            None => None,
        },
    ) + raw_child_values_spec(*value));
    Some(element("hp:solidFill", attrs.as_str(), &children))
}

/// A bevel element with a type.
pub open spec fn typed_bevel(t: Seq<char>) -> Seq<char> {
    "<hp:bevel type=\""@ + xml_attr_escape_spec(t) + "\"/>"@
}

/// The `bevel` child of a 3D effect: a string under `bevel` is its type, an
/// object its attributes; else a type under `bevelType` or `bevel_type`.
pub open spec fn bevel_xml_spec(value: JsonValue) -> Option<Seq<char>> {
    let direct = match json_get_spec(value, "bevel"@) {
        Some(JsonValue::String(t)) => Some(typed_bevel(t@)),
        Some(JsonValue::Object(m)) => Some(
            "<hp:bevel"@ + attrs_text(xml_attr_map_spec(JsonValue::Object(m), Seq::empty())) + "/>"@,
        ),
        _ => None,
    };
    match direct {
        Some(x) => Some(x),
        None => match alias_text(value, "bevelType"@, "bevel_type"@) {
            Some(t) => Some(typed_bevel(t)),
            None => None,
        },
    }
}

fn typed_bevel_xml(t: &str) -> (r: String)
    ensures
        r@ == typed_bevel(t@),
{
    let mut out = string_of("<hp:bevel type=\"");
    let escaped = drawing_style_xml_attr_escape(t);
    push_str(&mut out, escaped.as_str());
    push_str(&mut out, "\"/>");
    out
}

fn bevel_xml(value: &JsonValue) -> (r: Option<String>)
    ensures
        match r {
            Some(t) => bevel_xml_spec(*value) == Some(t@),
            None => bevel_xml_spec(*value) is None,
        },
{
    match value.get("bevel") {
        Some(JsonValue::String(t)) => return Some(typed_bevel_xml(t.as_str())),
        Some(b) => match b {
            JsonValue::Object(_) => {
                let none: [&str; 0] = [];
                let attrs = drawing_style_xml_attrs(b, &none);
                assert(none@.map_values(|s: &str| s@) =~= Seq::<Seq<char>>::empty());
                let mut out = string_of("<hp:bevel");
                push_str(&mut out, attrs.as_str());
                push_str(&mut out, "/>");
                return Some(out);
            },
            _ => {},
        },
        None => {},
    }
    match alias_string(value, "bevelType", "bevel_type") {
        Some(t) => Some(typed_bevel_xml(t.as_str())),
        None => None,
    }
}

/// The `threeD` element of a JSON 3D effect: its members as attributes, a
/// bevel and raw child XML as children.
pub open spec fn three_d_xml_spec(value: JsonValue) -> Seq<char> {
    element_text(
        "hp:threeD"@,
        attrs_text(xml_attr_map_spec(value, three_d_skip_keys())),
        opt_list(bevel_xml_spec(value)) + raw_child_values_spec(value),
    )
}

/// The `threeD` element of a JSON 3D effect (see `three_d_xml_spec`).
pub fn drawing_style_three_d_effect_xml(value: &JsonValue) -> (r: Option<String>)
    ensures
        r matches Some(t) && t@ == three_d_xml_spec(*value),
{
    let skip = [
        "bevel",
        "bevelType",
        "bevel_type",
        "raw_child_xml",
        "rawChildXml",
        "raw_children_xml",
        "rawChildrenXml",
    ];
    let attrs = drawing_style_xml_attrs(value, &skip);
    assert(skip@.map_values(|s: &str| s@) =~= three_d_skip_keys());
    let mut children: Vec<String> = Vec::new();
    push_opt(&mut children, bevel_xml(value));
    extend_strings(&mut children, drawing_style_raw_child_xml_values(value));
    assert(strings_view(children@) =~= opt_list(bevel_xml_spec(*value)) + raw_child_values_spec(*value));
    Some(element("hp:threeD", attrs.as_str(), &children))
}

// ---------------------------------------------------------------------------
// Effect elements
// ---------------------------------------------------------------------------

/// The members of an effect that are no attributes of its element: those
/// read as children for the effect named, and the raw child XML and solid
/// fill keys.
pub open spec fn simple_effect_skip(effect_name: Seq<char>) -> Seq<Seq<char>> {
    let point_keys = seq![
        "color"@,
        "effectsColor"@,
        "skew"@,
        "skew_x"@,
        "skewX"@,
        "skew_y"@,
        "skewY"@,
        "scale"@,
        "scale_x"@,
        "scaleX"@,
        "scale_y"@,
        "scaleY"@,
    ];
    let range_keys = seq![
        "alpha"@,
        "alpha_start"@,
        "alphaStart"@,
        "alpha_end"@,
        "alphaEnd"@,
        "pos"@,
        "pos_start"@,
        "posStart"@,
        "pos_end"@,
        "posEnd"@,
    ];
    let named = if effect_name == "shadow"@ {
        point_keys
    } else if effect_name == "reflection"@ {
        point_keys + range_keys
    } else {
        seq!["color"@, "effectsColor"@]
    };
    named + seq![
        "raw_child_xml"@,
        "rawChildXml"@,
        "raw_children_xml"@,
        "rawChildrenXml"@,
        "solid_fill"@,
        "solidFill"@,
    ]
}

/// A point or range child of an effect: an object under its name gives its
/// members as attributes; else its flat keys do (see `flat_child_spec`).
pub open spec fn effect_child_xml_spec(value: JsonValue, child: Seq<char>) -> Option<Seq<char>> {
    match json_get_spec(value, child) {
        Some(JsonValue::Object(m)) => Some(
            "<hp:"@ + child + attrs_text(xml_attr_map_spec(JsonValue::Object(m), Seq::empty())) + "/>"@,
        ),
        _ => match flat_child_spec(value, child) {
            Some(attrs) => Some("<hp:"@ + child + attrs_text(attrs) + "/>"@),
            None => None,
        },
    }
}

/// The element of a JSON effect named `effect_name`: its members as
/// attributes; its colour, `skew`, `scale`, `alpha` and `pos` children, its
/// solid fill (under `solid_fill` or `solidFill`) and raw child XML as
/// children.
pub open spec fn simple_effect_xml_spec(value: JsonValue, effect_name: Seq<char>) -> Seq<char> {
    let color_child = match first_of(value, seq!["color"@, "effectsColor"@]) {
        Some(c) => effect_color_xml_spec(c),
        None => None,
    };
    let solid_child = match first_of(value, seq!["solid_fill"@, "solidFill"@]) {
        Some(f) => Some(solid_fill_xml_spec(f)),
        None => None,
    };
    element_text(
        "hp:"@ + effect_name,
        attrs_text(xml_attr_map_spec(value, simple_effect_skip(effect_name))),
        opt_list(color_child) + opt_list(effect_child_xml_spec(value, "skew"@)) + opt_list(
            effect_child_xml_spec(value, "scale"@),
        ) + opt_list(effect_child_xml_spec(value, "alpha"@)) + opt_list(effect_child_xml_spec(value, "pos"@))
            + opt_list(solid_child) + raw_child_values_spec(value),
    )
}

fn effect_child_xml(value: &JsonValue, child: &str) -> (r: Option<String>)
    ensures
        match r {
            Some(t) => effect_child_xml_spec(*value, child@) == Some(t@),
            None => effect_child_xml_spec(*value, child@) is None,
        },
{
    match value.get(child) {
        Some(c) => match c {
            JsonValue::Object(_) => {
                let none: [&str; 0] = [];
                let attrs = drawing_style_xml_attrs(c, &none);
                assert(none@.map_values(|s: &str| s@) =~= Seq::<Seq<char>>::empty());
                let mut out = string_of("<hp:");
                push_str(&mut out, child);
                push_str(&mut out, attrs.as_str());
                push_str(&mut out, "/>");
                return Some(out);
            },
            _ => {},
        },
        None => {},
    }
    match drawing_style_flat_effect_child_attrs(value, child) {
        Some(attrs) => {
            let mut out = string_of("<hp:");
            push_str(&mut out, child);
            push_str(&mut out, attrs.as_str());
            push_str(&mut out, "/>");
            Some(out)
        },
        None => None,
    }
}

fn simple_effect_skip_keys(effect_name: &str) -> (r: Vec<&'static str>)
    ensures
        r@.map_values(|s: &str| s@) == simple_effect_skip(effect_name@),
{
    let mut skip: Vec<&'static str> = if crate::text::str_eq(effect_name, "shadow") {
        vec![
            "color",
            "effectsColor",
            "skew",
            "skew_x",
            "skewX",
            "skew_y",
            "skewY",
            "scale",
            "scale_x",
            "scaleX",
            "scale_y",
            "scaleY",
        ]
    } else if crate::text::str_eq(effect_name, "reflection") {
        vec![
            "color",
            "effectsColor",
            "skew",
            "skew_x",
            "skewX",
            "skew_y",
            "skewY",
            "scale",
            "scale_x",
            "scaleX",
            "scale_y",
            "scaleY",
            "alpha",
            "alpha_start",
            "alphaStart",
            "alpha_end",
            "alphaEnd",
            "pos",
            "pos_start",
            "posStart",
            "pos_end",
            "posEnd",
        ]
    } else {
        vec!["color", "effectsColor"]
    };
    let ghost named = skip@.map_values(|s: &str| s@);
    skip.push("raw_child_xml");
    skip.push("rawChildXml");
    skip.push("raw_children_xml");
    skip.push("rawChildrenXml");
    skip.push("solid_fill");
    skip.push("solidFill");
    assert(skip@.map_values(|s: &str| s@) =~= named + seq![
        "raw_child_xml"@,
        "rawChildXml"@,
        "raw_children_xml"@,
        "rawChildrenXml"@,
        "solid_fill"@,
        "solidFill"@,
    ]);
    skip
}

/// The element of a JSON effect (see `simple_effect_xml_spec`).
pub fn drawing_style_simple_effect_xml(value: &JsonValue, effect_name: &str) -> (r: Option<String>)
    ensures
        r matches Some(t) && t@ == simple_effect_xml_spec(*value, effect_name@),
{
    let skip = simple_effect_skip_keys(effect_name);
    let attrs = drawing_style_xml_attrs(value, skip.as_slice());
    let mut children: Vec<String> = Vec::new();
    let color_child = match first_of2(value, "color", "effectsColor") {
        Some(c) => drawing_style_effect_color_xml(c),
        None => None,
    };
    push_opt(&mut children, color_child);
    push_opt(&mut children, effect_child_xml(value, "skew"));
    push_opt(&mut children, effect_child_xml(value, "scale"));
    push_opt(&mut children, effect_child_xml(value, "alpha"));
    push_opt(&mut children, effect_child_xml(value, "pos"));
    let solid_child = match first_of2(value, "solid_fill", "solidFill") {
        Some(f) => drawing_style_solid_fill_xml(f),
        None => None,
    };
    push_opt(&mut children, solid_child);
    extend_strings(&mut children, drawing_style_raw_child_xml_values(value));
    let mut tag = string_of("hp:");
    push_str(&mut tag, effect_name);
    proof {
        reveal_strlit("hp:");
        reveal_strlit("<hp:");
        assert("<hp:"@ =~= seq!['<'] + "hp:"@);
    }
    Some(element(tag.as_str(), attrs.as_str(), &children))
}

/// The raw XML of a picture effect given as JSON: a 3D effect or a fill
/// overlay; no other effect is written this way.
pub open spec fn picture_effect_raw_xml_spec(effect_name: Seq<char>, value: JsonValue) -> Result<Option<Seq<char>>, Seq<char>> {
    if !(value is Object) {
        Err("picture effects."@ + effect_name + " must be an object or null"@)
    } else if effect_name == "threeD"@ {
        Ok(Some(three_d_xml_spec(value)))
    } else if effect_name == "fillOverlay"@ {
        Ok(Some(simple_effect_xml_spec(value, effect_name)))
    } else {
        Ok(None)
    }
}

/// The raw XML of a picture effect given as JSON (see
/// `picture_effect_raw_xml_spec`).
pub fn picture_effect_raw_xml(effect_name: &str, value: &JsonValue) -> (r: Result<Option<String>, String>)
    ensures
        match r {
            Ok(Some(t)) => picture_effect_raw_xml_spec(effect_name@, *value) == Ok::<Option<Seq<char>>, Seq<char>>(Some(t@)),
            Ok(None) => picture_effect_raw_xml_spec(effect_name@, *value) == Ok::<Option<Seq<char>>, Seq<char>>(None),
            Err(e) => picture_effect_raw_xml_spec(effect_name@, *value) == Err::<Option<Seq<char>>, Seq<char>>(e@),
        },
{
    match value {
        JsonValue::Object(_) => {},
        _ => {
            let mut m = string_of("picture effects.");
            push_str(&mut m, effect_name);
            push_str(&mut m, " must be an object or null");
            return Err(m);
        },
    }
    if crate::text::str_eq(effect_name, "threeD") {
        Ok(drawing_style_three_d_effect_xml(value))
    } else if crate::text::str_eq(effect_name, "fillOverlay") {
        Ok(drawing_style_simple_effect_xml(value, effect_name))
    } else {
        Ok(None)
    }
}

/// The effect element of a drawing style's effect given as JSON, wrapped in
/// `hp:effects`: a 3D effect, or a shadow, glow, soft edge, reflection,
/// blur or fill overlay; no other effect is written.
pub open spec fn drawing_style_effect_raw_xml_spec(effect_name: Seq<char>, value: JsonValue) -> Result<Option<Seq<char>>, Seq<char>> {
    if !(value is Object) {
        Err("drawing_style.effects."@ + effect_name + " must be an object or null"@)
    } else {
        let child = if effect_name == "threeD"@ {
            Some(three_d_xml_spec(value))
        } else if effect_name == "shadow"@ || effect_name == "glow"@ || effect_name == "softEdge"@
            || effect_name == "reflection"@ || effect_name == "blur"@ || effect_name == "fillOverlay"@ {
            Some(simple_effect_xml_spec(value, effect_name))
        } else {
            None
        };
        match child {
            Some(c) => Ok(Some("<hp:effects>"@ + c + "</hp:effects>"@)),
            None => Ok(None),
        }
    }
}

/// The effect element of a drawing style's effect given as JSON (see
/// `drawing_style_effect_raw_xml_spec`).
pub fn drawing_style_effect_raw_xml(effect_name: &str, value: &JsonValue) -> (r: Result<Option<String>, String>)
    ensures
        match r {
            Ok(Some(t)) => drawing_style_effect_raw_xml_spec(effect_name@, *value) == Ok::<Option<Seq<char>>, Seq<char>>(Some(t@)),
            Ok(None) => drawing_style_effect_raw_xml_spec(effect_name@, *value) == Ok::<Option<Seq<char>>, Seq<char>>(None),
            Err(e) => drawing_style_effect_raw_xml_spec(effect_name@, *value) == Err::<Option<Seq<char>>, Seq<char>>(e@),
        },
{
    match value {
        JsonValue::Object(_) => {},
        _ => {
            let mut m = string_of("drawing_style.effects.");
            push_str(&mut m, effect_name);
            push_str(&mut m, " must be an object or null");
            return Err(m);
        },
    }
    let child = if crate::text::str_eq(effect_name, "threeD") {
        drawing_style_three_d_effect_xml(value)
    } else if crate::text::str_eq(effect_name, "shadow") || crate::text::str_eq(effect_name, "glow")
        || crate::text::str_eq(effect_name, "softEdge") || crate::text::str_eq(effect_name, "reflection")
        || crate::text::str_eq(effect_name, "blur") || crate::text::str_eq(effect_name, "fillOverlay") {
        drawing_style_simple_effect_xml(value, effect_name)
    } else {
        None
    };
    match child {
        Some(c) => {
            let mut out = string_of("<hp:effects>");
            push_str(&mut out, c.as_str());
            push_str(&mut out, "</hp:effects>");
            Ok(Some(out))
        },
        None => Ok(None),
    }
}

// ---------------------------------------------------------------------------
// Drawing-style keys
// ---------------------------------------------------------------------------

/// Whether `value` has a member under one of the keys.
pub open spec fn any_key_present(value: JsonValue, keys: Seq<Seq<char>>) -> bool {
    exists|i: int| 0 <= i < keys.len() && json_get_spec(value, #[trigger] keys[i]) is Some
}

fn any_key(value: &JsonValue, keys: &[&str]) -> (r: bool)
    ensures
        r == any_key_present(*value, keys@.map_values(|s: &str| s@)),
{
    let ghost kv = keys@.map_values(|s: &str| s@);
    let mut i: usize = 0;
    while i < keys.len()
        invariant
            i <= keys@.len(),
            kv == keys@.map_values(|s: &str| s@),
            forall|j: int| 0 <= j < i ==> json_get_spec(*value, #[trigger] kv[j]) is None,
        decreases keys@.len() - i,
    {
        if value.get(keys[i]).is_some() {
            assert(json_get_spec(*value, kv[i as int]) is Some);
            return true;
        }
        i = i + 1;
    }
    false
}

/// Whether a drawing style gives its line by flat keys.
pub fn drawing_style_has_flat_border_aliases(style: &JsonValue) -> (r: bool)
    ensures
        r == any_key_present(
            *style,
            seq!["borderColor"@, "borderColorHex"@, "borderWidth"@, "borderAttr"@, "borderOutlineStyle"@],
        ),
{
    let keys = ["borderColor", "borderColorHex", "borderWidth", "borderAttr", "borderOutlineStyle"];
    assert(keys@.map_values(|s: &str| s@) =~= seq![
        "borderColor"@,
        "borderColorHex"@,
        "borderWidth"@,
        "borderAttr"@,
        "borderOutlineStyle"@,
    ]);
    any_key(style, &keys)
}

/// Whether a drawing style gives its fill by flat keys.
pub fn drawing_style_has_flat_fill_aliases(style: &JsonValue) -> (r: bool)
    ensures
        r == any_key_present(
            *style,
            seq!["fillBgColor"@, "fillBgColorHex"@, "fillPatColor"@, "fillPatColorHex"@, "fillPatType"@],
        ),
{
    let keys = ["fillBgColor", "fillBgColorHex", "fillPatColor", "fillPatColorHex", "fillPatType"];
    assert(keys@.map_values(|s: &str| s@) =~= seq![
        "fillBgColor"@,
        "fillBgColorHex"@,
        "fillPatColor"@,
        "fillPatColorHex"@,
        "fillPatType"@,
    ]);
    any_key(style, &keys)
}

/// Whether a drawing style gives its shadow by flat keys.
pub fn drawing_style_has_flat_shadow_aliases(style: &JsonValue) -> (r: bool)
    ensures
        r == any_key_present(
            *style,
            seq![
                "shadowType"@,
                "shadowColor"@,
                "shadowColorHex"@,
                "shadowOffsetX"@,
                "shadowOffsetY"@,
                "shadowAlpha"@,
            ],
        ),
{
    let keys = ["shadowType", "shadowColor", "shadowColorHex", "shadowOffsetX", "shadowOffsetY", "shadowAlpha"];
    assert(keys@.map_values(|s: &str| s@) =~= seq![
        "shadowType"@,
        "shadowColor"@,
        "shadowColorHex"@,
        "shadowOffsetX"@,
        "shadowOffsetY"@,
        "shadowAlpha"@,
    ]);
    any_key(style, &keys)
}

/// The text of the string member `key`, if it is one.
pub open spec fn member_str(members: Seq<(String, JsonValue)>, key: Seq<char>) -> Option<Seq<char>> {
    match members_get(members, key) {
        Some(JsonValue::String(s)) => Some(s@),
        _ => None,
    }
}

fn member_string(members: &Vec<(String, JsonValue)>, key: &str) -> (r: Option<String>)
    ensures
        opt_view(r) == member_str(members@, key@),
{
    match members_lookup(members, key) {
        Some(JsonValue::String(s)) => Some(string_of(s.as_str())),
        _ => None,
    }
}

/// The `#RRGGBB` text of an `rgb` object whose `r`, `g`, `b` members are
/// decimal byte texts.
pub fn drawing_style_rgb_color_hex(rgb: &Vec<(String, JsonValue)>) -> (r: Option<String>)
    ensures
        opt_view(r) == effect_rgb_hex_spec(member_str(rgb@, "r"@), member_str(rgb@, "g"@), member_str(rgb@, "b"@)),
{
    let parts = EffectRgb { r: member_string(rgb, "r"), g: member_string(rgb, "g"), b: member_string(rgb, "b") };
    match effect_rgb_color_hex(&parts) {
        Some(h) => Some(h),
        None => None,
    }
}

} // verus!
