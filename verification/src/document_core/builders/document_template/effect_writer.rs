//! Picture effects written as template JSON: each effect becomes an object
//! with one member per given field, the form its reader takes back.

use crate::document_core::builders::document_template::attrs::{
    entries_lookup,
    fold_attrs,
    lemma_fold_attrs_unique,
    lemma_lookup_append,
    lemma_lookup_single,
    lemma_text_less_irreflexive,
    map_get,
    xml_attr_map_spec,
    XmlAttrs,
};
use crate::document_core::builders::document_template::objects::{
    drawing_style_normalize_xml_color_hex,
    effect_rgb_color_hex,
    effect_rgb_hex_spec,
    normalize_xml_color_hex_spec,
    opt_view,
    safe_xml_name_spec,
};
use crate::document_core::builders::document_template::effects::{
    effect_child_spec,
    effect_color_spec,
    effect_color_view,
    effect_rgb_spec,
    fill_overlay_spec,
    fill_overlay_view,
    three_d_skip_keys,
    three_d_spec,
    three_d_view,
    ThreeDView,
    first_of,
    glow_spec,
    glow_view,
    radius_effect_spec,
    raw_children_spec,
    reflection_spec,
    reflection_view,
    rgb_view,
    shadow_spec,
    shadow_view,
    solid_fill_spec,
    solid_fill_view,
    strings_view,
    EffectColorView,
    FillOverlayView,
    GlowView,
    RadiusView,
    ReflectionView,
    ShadowView,
    SolidFillView,
};
use crate::document_core::builders::document_template::fields::{
    effect_point_spec,
    effect_range_spec,
    point_view,
    range_view,
};
use crate::json_value::{first_member, members_get, members_unique, object_insert, JsonValue};
use crate::model::{
    EffectColor,
    EffectPoint,
    EffectRange,
    EffectRgb,
    PictureBlur,
    PictureEffectChild,
    PictureFillOverlay,
    PictureGlow,
    PictureReflection,
    PictureShadow,
    PictureSoftEdge,
    PictureSolidFill,
    PictureThreeD,
};
use crate::text::string_of;
use vstd::prelude::*;

verus! {

// ---------------------------------------------------------------------------
// Members
// ---------------------------------------------------------------------------

/// A member that holds `text` as a JSON string when given, and is absent
/// otherwise.
pub open spec fn text_member(got: Option<JsonValue>, text: Option<Seq<char>>) -> bool {
    match text {
        Some(t) => got matches Some(JsonValue::String(u)) && u@ == t,
        None => got is None,
    }
}

/// A member that holds a non-empty list of strings as a JSON array, and is
/// absent for an empty list.
pub open spec fn raw_list_member(got: Option<JsonValue>, raw: Seq<String>) -> bool {
    if raw.len() == 0 {
        got is None
    } else {
        got matches Some(JsonValue::Array(items)) && items@ == raw.map_values(|s: String| JsonValue::String(s))
    }
}

/// The member names that effect objects are written and read under, each
/// with its length and, where two of one length meet, a character that
/// tells them apart.
pub proof fn lemma_effect_keys()
    ensures
        "x"@.len() == 1,
        "x"@[0] == 'x',
        "y"@.len() == 1,
        "y"@[0] == 'y',
        "start"@.len() == 5,
        "start"@[0] == 's',
        "start"@[1] == 't',
        "start"@[2] == 'a',
        "end"@.len() == 3,
        "end"@[0] == 'e',
        "r"@.len() == 1,
        "r"@[0] == 'r',
        "g"@.len() == 1,
        "g"@[0] == 'g',
        "b"@.len() == 1,
        "b"@[0] == 'b',
        "type"@.len() == 4,
        "type"@[0] == 't',
        "scheme_idx"@.len() == 10,
        "scheme_idx"@[0] == 's',
        "scheme_idx"@[1] == 'c',
        "system_idx"@.len() == 10,
        "system_idx"@[0] == 's',
        "system_idx"@[1] == 'y',
        "preset_idx"@.len() == 10,
        "preset_idx"@[0] == 'p',
        "rgb"@.len() == 3,
        "rgb"@[0] == 'r',
        "color_hex"@.len() == 9,
        "color_hex"@[0] == 'c',
        "raw_child_xml"@.len() == 13,
        "raw_child_xml"@[0] == 'r',
        "raw_child_xml"@[1] == 'a',
        "style"@.len() == 5,
        "style"@[0] == 's',
        "style"@[1] == 't',
        "style"@[2] == 'y',
        "alpha"@.len() == 5,
        "alpha"@[0] == 'a',
        "radius"@.len() == 6,
        "radius"@[0] == 'r',
        "radius"@[1] == 'a',
        "direction"@.len() == 9,
        "direction"@[0] == 'd',
        "distance"@.len() == 8,
        "distance"@[0] == 'd',
        "align_style"@.len() == 11,
        "align_style"@[0] == 'a',
        "align_style"@[2] == 'i',
        "rotation_style"@.len() == 14,
        "rotation_style"@[0] == 'r',
        "rotation_style"@[1] == 'o',
        "skew"@.len() == 4,
        "skew"@[0] == 's',
        "scale"@.len() == 5,
        "scale"@[0] == 's',
        "scale"@[1] == 'c',
        "color"@.len() == 5,
        "color"@[0] == 'c',
        "fade_direction"@.len() == 14,
        "fade_direction"@[0] == 'f',
        "pos"@.len() == 3,
        "pos"@[0] == 'p',
        "blend"@.len() == 5,
        "blend"@[0] == 'b',
        "blend"@[1] == 'l',
        "solid_fill"@.len() == 10,
        "solid_fill"@[0] == 's',
        "solid_fill"@[1] == 'o',
        "bevel"@.len() == 5,
        "bevel"@[0] == 'b',
        "bevel"@[1] == 'e',
        "effectsColor"@.len() == 12,
        "rawChildXml"@.len() == 11,
        "rawChildXml"@[0] == 'r',
        "raw_children_xml"@.len() == 16,
        "rawChildrenXml"@.len() == 14,
        "rawChildrenXml"@[0] == 'r',
        "rawChildrenXml"@[1] == 'a',
        "skew_x"@.len() == 6,
        "skew_x"@[0] == 's',
        "skew_x"@[1] == 'k',
        "skew_x"@[5] == 'x',
        "skewX"@.len() == 5,
        "skewX"@[0] == 's',
        "skewX"@[1] == 'k',
        "skewX"@[4] == 'X',
        "skew_y"@.len() == 6,
        "skew_y"@[0] == 's',
        "skew_y"@[1] == 'k',
        "skew_y"@[5] == 'y',
        "skewY"@.len() == 5,
        "skewY"@[0] == 's',
        "skewY"@[1] == 'k',
        "skewY"@[4] == 'Y',
        "scale_x"@.len() == 7,
        "scale_x"@[0] == 's',
        "scale_x"@[6] == 'x',
        "scaleX"@.len() == 6,
        "scaleX"@[0] == 's',
        "scaleX"@[1] == 'c',
        "scaleX"@[5] == 'X',
        "scale_y"@.len() == 7,
        "scale_y"@[0] == 's',
        "scale_y"@[6] == 'y',
        "scaleY"@.len() == 6,
        "scaleY"@[0] == 's',
        "scaleY"@[1] == 'c',
        "scaleY"@[5] == 'Y',
        "alpha_start"@.len() == 11,
        "alpha_start"@[0] == 'a',
        "alpha_start"@[2] == 'p',
        "alphaStart"@.len() == 10,
        "alphaStart"@[0] == 'a',
        "alphaStart"@[2] == 'p',
        "alpha_end"@.len() == 9,
        "alpha_end"@[0] == 'a',
        "alphaEnd"@.len() == 8,
        "alphaEnd"@[0] == 'a',
        "pos_start"@.len() == 9,
        "pos_start"@[0] == 'p',
        "pos_start"@[1] == 'o',
        "posStart"@.len() == 8,
        "posStart"@[0] == 'p',
        "pos_end"@.len() == 7,
        "pos_end"@[0] == 'p',
        "posEnd"@.len() == 6,
        "posEnd"@[0] == 'p',
        "color_type"@.len() == 10,
        "color_type"@[0] == 'c',
        "schemeIdx"@.len() == 9,
        "schemeIdx"@[0] == 's',
        "schemeIdx"@[1] == 'c',
        "systemIdx"@.len() == 9,
        "systemIdx"@[0] == 's',
        "systemIdx"@[1] == 'y',
        "presetIdx"@.len() == 9,
        "presetIdx"@[0] == 'p',
        "presetIdx"@[1] == 'r',
        "colorHex"@.len() == 8,
        "colorHex"@[0] == 'c',
        "rgb_hex"@.len() == 7,
        "rgb_hex"@[0] == 'r',
        "rgbHex"@.len() == 6,
        "rgbHex"@[0] == 'r',
        "rgbHex"@[1] == 'g',
        "alignStyle"@.len() == 10,
        "alignStyle"@[0] == 'a',
        "alignStyle"@[2] == 'i',
        "rotationStyle"@.len() == 13,
        "rotationStyle"@[0] == 'r',
        "rotationStyle"@[1] == 'o',
        "fadeDirection"@.len() == 13,
        "fadeDirection"@[0] == 'f',
        "solidFill"@.len() == 9,
        "solidFill"@[0] == 's',
        "solidFill"@[1] == 'o',
{
    reveal_strlit("x");
    reveal_strlit("y");
    reveal_strlit("start");
    reveal_strlit("end");
    reveal_strlit("r");
    reveal_strlit("g");
    reveal_strlit("b");
    reveal_strlit("type");
    reveal_strlit("scheme_idx");
    reveal_strlit("system_idx");
    reveal_strlit("preset_idx");
    reveal_strlit("rgb");
    reveal_strlit("color_hex");
    reveal_strlit("raw_child_xml");
    reveal_strlit("style");
    reveal_strlit("alpha");
    reveal_strlit("radius");
    reveal_strlit("direction");
    reveal_strlit("distance");
    reveal_strlit("align_style");
    reveal_strlit("rotation_style");
    reveal_strlit("skew");
    reveal_strlit("scale");
    reveal_strlit("color");
    reveal_strlit("fade_direction");
    reveal_strlit("pos");
    reveal_strlit("blend");
    reveal_strlit("solid_fill");
    reveal_strlit("bevel");
    reveal_strlit("effectsColor");
    reveal_strlit("rawChildXml");
    reveal_strlit("raw_children_xml");
    reveal_strlit("rawChildrenXml");
    reveal_strlit("skew_x");
    reveal_strlit("skewX");
    reveal_strlit("skew_y");
    reveal_strlit("skewY");
    reveal_strlit("scale_x");
    reveal_strlit("scaleX");
    reveal_strlit("scale_y");
    reveal_strlit("scaleY");
    reveal_strlit("alpha_start");
    reveal_strlit("alphaStart");
    reveal_strlit("alpha_end");
    reveal_strlit("alphaEnd");
    reveal_strlit("pos_start");
    reveal_strlit("posStart");
    reveal_strlit("pos_end");
    reveal_strlit("posEnd");
    reveal_strlit("color_type");
    reveal_strlit("schemeIdx");
    reveal_strlit("systemIdx");
    reveal_strlit("presetIdx");
    reveal_strlit("colorHex");
    reveal_strlit("rgb_hex");
    reveal_strlit("rgbHex");
    reveal_strlit("alignStyle");
    reveal_strlit("rotationStyle");
    reveal_strlit("fadeDirection");
    reveal_strlit("solidFill");
}

/// A new object's members.
pub(crate) fn new_members() -> (r: Vec<(String, JsonValue)>)
    ensures
        forall|k: Seq<char>| #[trigger] members_get(r@, k) is None,
        members_unique(r@),
{
    let r: Vec<(String, JsonValue)> = Vec::new();
    assert forall|k: Seq<char>| #[trigger] members_get(r@, k) is None by {
        assert(r@.len() == 0);
    }
    r
}

/// `map[key] = value`.
pub(crate) fn insert_member(map: &mut Vec<(String, JsonValue)>, key: &str, value: JsonValue)
    ensures
        forall|k: Seq<char>| #[trigger] members_get(final(map)@, k) == if k == key@ {
            Some(value)
        } else {
            members_get(old(map)@, k)
        },
        members_unique(old(map)@) ==> members_unique(final(map)@),
{
    object_insert(map, string_of(key), value);
}

/// Sets `map[key]` to the text when one is given.
pub fn insert_opt_string(map: &mut Vec<(String, JsonValue)>, key: &str, value: &Option<String>)
    ensures
        forall|k: Seq<char>| #[trigger] members_get(final(map)@, k) == if k == key@ && value is Some {
            Some(JsonValue::String(value->0))
        } else {
            members_get(old(map)@, k)
        },
        members_unique(old(map)@) ==> members_unique(final(map)@),
{
    match value {
        Some(v) => insert_member(map, key, JsonValue::String(v.clone())),
        None => {},
    }
}

/// Strings as JSON strings.
fn strings_json(v: &Vec<String>) -> (r: Vec<JsonValue>)
    ensures
        r@ == v@.map_values(|s: String| JsonValue::String(s)),
{
    let mut out: Vec<JsonValue> = Vec::new();
    let mut i: usize = 0;
    while i < v.len()
        invariant
            i <= v@.len(),
            out@ == v@.subrange(0, i as int).map_values(|s: String| JsonValue::String(s)),
        decreases v@.len() - i,
    {
        out.push(JsonValue::String(v[i].clone()));
        i = i + 1;
        assert(out@ =~= v@.subrange(0, i as int).map_values(|s: String| JsonValue::String(s)));
    }
    assert(v@.subrange(0, i as int) =~= v@);
    out
}

/// Sets `map["raw_child_xml"]` to the list when it is not empty.
fn insert_raw_child_xml(map: &mut Vec<(String, JsonValue)>, raw: &Vec<String>)
    ensures
        forall|k: Seq<char>| k != "raw_child_xml"@ ==> #[trigger] members_get(final(map)@, k) == members_get(old(map)@, k),
        raw@.len() == 0 ==> members_get(final(map)@, "raw_child_xml"@) == members_get(old(map)@, "raw_child_xml"@),
        raw@.len() > 0 ==> raw_list_member(members_get(final(map)@, "raw_child_xml"@), raw@),
        members_unique(old(map)@) ==> members_unique(final(map)@),
{
    if raw.len() > 0 {
        insert_member(map, "raw_child_xml", JsonValue::Array(strings_json(raw)));
    }
}

/// An effect point's JSON object: `x` and `y` as given.
pub open spec fn is_point_json(v: JsonValue, p: EffectPoint) -> bool {
    &&& v is Object
    &&& forall|k: Seq<char>| #![trigger members_get(v->Object_0@, k)]
        if k == "x"@ {
            text_member(members_get(v->Object_0@, k), opt_view(p.x))
        } else if k == "y"@ {
            text_member(members_get(v->Object_0@, k), opt_view(p.y))
        } else {
            members_get(v->Object_0@, k) is None
        }
}

/// An effect point as a JSON object.
pub fn effect_point_json(point: &EffectPoint) -> (r: JsonValue)
    ensures
        is_point_json(r, *point),
{
    let mut map = new_members();
    insert_opt_string(&mut map, "x", &point.x);
    insert_opt_string(&mut map, "y", &point.y);
    proof {
        lemma_effect_keys();
    }
    JsonValue::Object(map)
}

/// A member holding, when `x` is given, a value that `is_json` accepts for
/// it, and absent otherwise.
pub open spec fn opt_member<T>(got: Option<JsonValue>, x: Option<T>, is_json: spec_fn(JsonValue, T) -> bool) -> bool {
    match x {
        Some(t) => got matches Some(v) && is_json(v, t),
        None => got is None,
    }
}

/// An effect range's JSON object: `start` and `end` as given.
pub open spec fn is_range_json(v: JsonValue, p: EffectRange) -> bool {
    &&& v is Object
    &&& forall|k: Seq<char>| #![trigger members_get(v->Object_0@, k)]
        if k == "start"@ {
            text_member(members_get(v->Object_0@, k), opt_view(p.start))
        } else if k == "end"@ {
            text_member(members_get(v->Object_0@, k), opt_view(p.end))
        } else {
            members_get(v->Object_0@, k) is None
        }
}

/// An effect range as a JSON object.
pub fn effect_range_json(range: &EffectRange) -> (r: JsonValue)
    ensures
        is_range_json(r, *range),
{
    let mut map = new_members();
    insert_opt_string(&mut map, "start", &range.start);
    insert_opt_string(&mut map, "end", &range.end);
    proof {
        lemma_effect_keys();
    }
    JsonValue::Object(map)
}

/// A picture-effect colour's components as a JSON object: `r`, `g`, `b`.
pub open spec fn is_rgb_json(v: JsonValue, e: EffectRgb) -> bool {
    &&& v is Object
    &&& forall|k: Seq<char>| #![trigger members_get(v->Object_0@, k)]
        if k == "r"@ {
            text_member(members_get(v->Object_0@, k), opt_view(e.r))
        } else if k == "g"@ {
            text_member(members_get(v->Object_0@, k), opt_view(e.g))
        } else if k == "b"@ {
            text_member(members_get(v->Object_0@, k), opt_view(e.b))
        } else {
            members_get(v->Object_0@, k) is None
        }
}

/// A picture-effect colour's components as a JSON object.
pub fn effect_rgb_json(rgb: &EffectRgb) -> (r: JsonValue)
    ensures
        is_rgb_json(r, *rgb),
{
    let mut map = new_members();
    insert_opt_string(&mut map, "r", &rgb.r);
    insert_opt_string(&mut map, "g", &rgb.g);
    insert_opt_string(&mut map, "b", &rgb.b);
    proof {
        lemma_effect_keys();
    }
    JsonValue::Object(map)
}

/// The `#RRGGBB` text of an effect colour's components, when they are
/// decimal bytes.
pub open spec fn rgb_hex_of(e: Option<EffectRgb>) -> Option<Seq<char>> {
    match e {
        Some(x) => effect_rgb_hex_spec(opt_view(x.r), opt_view(x.g), opt_view(x.b)),
        None => None,
    }
}

/// The member `k` of an effect colour's JSON object.
pub open spec fn color_member(got: Option<JsonValue>, c: EffectColor, k: Seq<char>) -> bool {
    if k == "type"@ {
        text_member(got, opt_view(c.color_type))
    } else if k == "scheme_idx"@ {
        text_member(got, opt_view(c.scheme_idx))
    } else if k == "system_idx"@ {
        text_member(got, opt_view(c.system_idx))
    } else if k == "preset_idx"@ {
        text_member(got, opt_view(c.preset_idx))
    } else if k == "rgb"@ {
        opt_member(got, c.rgb, |v: JsonValue, e: EffectRgb| is_rgb_json(v, e))
    } else if k == "color_hex"@ {
        text_member(got, rgb_hex_of(c.rgb))
    } else if k == "raw_child_xml"@ {
        raw_list_member(got, c.raw_child_xml@)
    } else {
        got is None
    }
}

/// An effect colour's JSON object: type and indexes as given, the
/// components under `rgb` and their `#RRGGBB` text under `color_hex`, raw
/// child XML when there is any.
pub open spec fn is_color_json(v: JsonValue, c: EffectColor) -> bool {
    &&& v is Object
    &&& forall|k: Seq<char>| #![trigger members_get(v->Object_0@, k)] color_member(members_get(v->Object_0@, k), c, k)
}

/// An effect colour as a JSON object.
pub fn effect_color_json(color: &EffectColor) -> (r: JsonValue)
    ensures
        is_color_json(r, *color),
{
    let mut map = new_members();
    insert_opt_string(&mut map, "type", &color.color_type);
    insert_opt_string(&mut map, "scheme_idx", &color.scheme_idx);
    insert_opt_string(&mut map, "system_idx", &color.system_idx);
    insert_opt_string(&mut map, "preset_idx", &color.preset_idx);
    match &color.rgb {
        Some(rgb) => {
            insert_member(&mut map, "rgb", effect_rgb_json(rgb));
            match effect_rgb_color_hex(rgb) {
                Some(color_hex) => insert_member(&mut map, "color_hex", JsonValue::String(color_hex)),
                None => {},
            }
        },
        None => {},
    }
    insert_raw_child_xml(&mut map, &color.raw_child_xml);
    proof {
        lemma_effect_keys();
    }
    JsonValue::Object(map)
}

/// The member `k` of a shadow's JSON object.
pub open spec fn shadow_member(got: Option<JsonValue>, s: PictureShadow, k: Seq<char>) -> bool {
    if k == "style"@ {
        text_member(got, opt_view(s.style))
    } else if k == "alpha"@ {
        text_member(got, opt_view(s.alpha))
    } else if k == "radius"@ {
        text_member(got, opt_view(s.radius))
    } else if k == "direction"@ {
        text_member(got, opt_view(s.direction))
    } else if k == "distance"@ {
        text_member(got, opt_view(s.distance))
    } else if k == "align_style"@ {
        text_member(got, opt_view(s.align_style))
    } else if k == "rotation_style"@ {
        text_member(got, opt_view(s.rotation_style))
    } else if k == "skew"@ {
        opt_member(got, s.skew, |v: JsonValue, p: EffectPoint| is_point_json(v, p))
    } else if k == "scale"@ {
        opt_member(got, s.scale, |v: JsonValue, p: EffectPoint| is_point_json(v, p))
    } else if k == "color"@ {
        opt_member(got, s.color, |v: JsonValue, c: EffectColor| is_color_json(v, c))
    } else if k == "raw_child_xml"@ {
        raw_list_member(got, s.raw_child_xml@)
    } else {
        got is None
    }
}

/// A shadow's JSON object: one member per given field.
pub open spec fn is_shadow_json(v: JsonValue, s: PictureShadow) -> bool {
    &&& v is Object
    &&& forall|k: Seq<char>| #![trigger members_get(v->Object_0@, k)] shadow_member(members_get(v->Object_0@, k), s, k)
}

/// A shadow effect as a JSON object.
pub fn picture_shadow_json(shadow: &PictureShadow) -> (r: JsonValue)
    ensures
        is_shadow_json(r, *shadow),
{
    let mut map = new_members();
    insert_opt_string(&mut map, "style", &shadow.style);
    insert_opt_string(&mut map, "alpha", &shadow.alpha);
    insert_opt_string(&mut map, "radius", &shadow.radius);
    insert_opt_string(&mut map, "direction", &shadow.direction);
    insert_opt_string(&mut map, "distance", &shadow.distance);
    insert_opt_string(&mut map, "align_style", &shadow.align_style);
    insert_opt_string(&mut map, "rotation_style", &shadow.rotation_style);
    match &shadow.skew {
        Some(skew) => insert_member(&mut map, "skew", effect_point_json(skew)),
        None => {},
    }
    match &shadow.scale {
        Some(scale) => insert_member(&mut map, "scale", effect_point_json(scale)),
        None => {},
    }
    match &shadow.color {
        Some(color) => insert_member(&mut map, "color", effect_color_json(color)),
        None => {},
    }
    insert_raw_child_xml(&mut map, &shadow.raw_child_xml);
    proof {
        lemma_effect_keys();
    }
    JsonValue::Object(map)
}

/// The member `k` of a glow's JSON object.
pub open spec fn glow_member(got: Option<JsonValue>, g: PictureGlow, k: Seq<char>) -> bool {
    if k == "alpha"@ {
        text_member(got, opt_view(g.alpha))
    } else if k == "radius"@ {
        text_member(got, opt_view(g.radius))
    } else if k == "color"@ {
        opt_member(got, g.color, |v: JsonValue, c: EffectColor| is_color_json(v, c))
    } else if k == "raw_child_xml"@ {
        raw_list_member(got, g.raw_child_xml@)
    } else {
        got is None
    }
}

/// A glow's JSON object: one member per given field.
pub open spec fn is_glow_json(v: JsonValue, g: PictureGlow) -> bool {
    &&& v is Object
    &&& forall|k: Seq<char>| #![trigger members_get(v->Object_0@, k)] glow_member(members_get(v->Object_0@, k), g, k)
}

/// A glow effect as a JSON object.
pub fn picture_glow_json(glow: &PictureGlow) -> (r: JsonValue)
    ensures
        is_glow_json(r, *glow),
{
    let mut map = new_members();
    insert_opt_string(&mut map, "alpha", &glow.alpha);
    insert_opt_string(&mut map, "radius", &glow.radius);
    match &glow.color {
        Some(color) => insert_member(&mut map, "color", effect_color_json(color)),
        None => {},
    }
    insert_raw_child_xml(&mut map, &glow.raw_child_xml);
    proof {
        lemma_effect_keys();
    }
    JsonValue::Object(map)
}

/// A radius-only effect's JSON object: `radius` and raw child XML as given.
pub open spec fn is_radius_json(v: JsonValue, radius: Option<String>, raw: Seq<String>) -> bool {
    &&& v is Object
    &&& forall|k: Seq<char>| #![trigger members_get(v->Object_0@, k)]
        if k == "radius"@ {
            text_member(members_get(v->Object_0@, k), opt_view(radius))
        } else if k == "raw_child_xml"@ {
            raw_list_member(members_get(v->Object_0@, k), raw)
        } else {
            members_get(v->Object_0@, k) is None
        }
}

fn radius_json(radius: &Option<String>, raw: &Vec<String>) -> (r: JsonValue)
    ensures
        is_radius_json(r, *radius, raw@),
{
    let mut map = new_members();
    insert_opt_string(&mut map, "radius", radius);
    insert_raw_child_xml(&mut map, raw);
    proof {
        lemma_effect_keys();
    }
    JsonValue::Object(map)
}

/// A soft-edge effect as a JSON object.
pub fn picture_soft_edge_json(soft_edge: &PictureSoftEdge) -> (r: JsonValue)
    ensures
        is_radius_json(r, soft_edge.radius, soft_edge.raw_child_xml@),
{
    radius_json(&soft_edge.radius, &soft_edge.raw_child_xml)
}

/// A blur effect as a JSON object.
pub fn picture_blur_json(blur: &PictureBlur) -> (r: JsonValue)
    ensures
        is_radius_json(r, blur.radius, blur.raw_child_xml@),
{
    radius_json(&blur.radius, &blur.raw_child_xml)
}

/// The member `k` of a reflection's JSON object.
pub open spec fn reflection_member(got: Option<JsonValue>, x: PictureReflection, k: Seq<char>) -> bool {
    if k == "align_style"@ {
        text_member(got, opt_view(x.align_style))
    } else if k == "radius"@ {
        text_member(got, opt_view(x.radius))
    } else if k == "direction"@ {
        text_member(got, opt_view(x.direction))
    } else if k == "distance"@ {
        text_member(got, opt_view(x.distance))
    } else if k == "rotation_style"@ {
        text_member(got, opt_view(x.rotation_style))
    } else if k == "fade_direction"@ {
        text_member(got, opt_view(x.fade_direction))
    } else if k == "skew"@ {
        opt_member(got, x.skew, |v: JsonValue, p: EffectPoint| is_point_json(v, p))
    } else if k == "scale"@ {
        opt_member(got, x.scale, |v: JsonValue, p: EffectPoint| is_point_json(v, p))
    } else if k == "color"@ {
        opt_member(got, x.color, |v: JsonValue, c: EffectColor| is_color_json(v, c))
    } else if k == "alpha"@ {
        opt_member(got, x.alpha, |v: JsonValue, p: EffectRange| is_range_json(v, p))
    } else if k == "pos"@ {
        opt_member(got, x.pos, |v: JsonValue, p: EffectRange| is_range_json(v, p))
    } else if k == "raw_child_xml"@ {
        raw_list_member(got, x.raw_child_xml@)
    } else {
        got is None
    }
}

/// A reflection's JSON object: one member per given field.
pub open spec fn is_reflection_json(v: JsonValue, x: PictureReflection) -> bool {
    &&& v is Object
    &&& forall|k: Seq<char>| #![trigger members_get(v->Object_0@, k)] reflection_member(members_get(v->Object_0@, k), x, k)
}

/// A reflection effect as a JSON object.
pub fn picture_reflection_json(reflection: &PictureReflection) -> (r: JsonValue)
    ensures
        is_reflection_json(r, *reflection),
{
    let mut map = new_members();
    insert_opt_string(&mut map, "align_style", &reflection.align_style);
    insert_opt_string(&mut map, "radius", &reflection.radius);
    insert_opt_string(&mut map, "direction", &reflection.direction);
    insert_opt_string(&mut map, "distance", &reflection.distance);
    insert_opt_string(&mut map, "rotation_style", &reflection.rotation_style);
    insert_opt_string(&mut map, "fade_direction", &reflection.fade_direction);
    match &reflection.skew {
        Some(skew) => insert_member(&mut map, "skew", effect_point_json(skew)),
        None => {},
    }
    match &reflection.scale {
        Some(scale) => insert_member(&mut map, "scale", effect_point_json(scale)),
        None => {},
    }
    match &reflection.color {
        Some(color) => insert_member(&mut map, "color", effect_color_json(color)),
        None => {},
    }
    match &reflection.alpha {
        Some(alpha) => insert_member(&mut map, "alpha", effect_range_json(alpha)),
        None => {},
    }
    match &reflection.pos {
        Some(pos) => insert_member(&mut map, "pos", effect_range_json(pos)),
        None => {},
    }
    insert_raw_child_xml(&mut map, &reflection.raw_child_xml);
    proof {
        lemma_effect_keys();
    }
    JsonValue::Object(map)
}

/// The member `k` of a solid fill's JSON object: `color` holds the effect
/// colour when there is one, else the colour text; `color_hex` holds the
/// colour text as `#RRGGBB` when it is six hexadecimal digits.
pub open spec fn solid_fill_member(got: Option<JsonValue>, f: PictureSolidFill, k: Seq<char>) -> bool {
    if k == "color"@ {
        match f.effect_color {
            Some(c) => got matches Some(v) && is_color_json(v, c),
            None => text_member(got, opt_view(f.color)),
        }
    } else if k == "color_hex"@ {
        text_member(
            got,
            match f.color {
                Some(c) => normalize_xml_color_hex_spec(c@),
                None => None,
            },
        )
    } else if k == "raw_child_xml"@ {
        raw_list_member(got, f.raw_child_xml@)
    } else {
        got is None
    }
}

/// A solid fill's JSON object (see `solid_fill_member`).
pub open spec fn is_solid_fill_json(v: JsonValue, f: PictureSolidFill) -> bool {
    &&& v is Object
    &&& forall|k: Seq<char>| #![trigger members_get(v->Object_0@, k)] solid_fill_member(members_get(v->Object_0@, k), f, k)
}

/// A fill overlay's solid fill as a JSON object.
pub fn picture_solid_fill_json(solid_fill: &PictureSolidFill) -> (r: JsonValue)
    ensures
        is_solid_fill_json(r, *solid_fill),
{
    let mut map = new_members();
    match &solid_fill.color {
        Some(color) => {
            insert_member(&mut map, "color", JsonValue::String(color.clone()));
            match drawing_style_normalize_xml_color_hex(color.as_str()) {
                Some(color_hex) => insert_member(&mut map, "color_hex", JsonValue::String(color_hex)),
                None => {},
            }
        },
        None => {},
    }
    match &solid_fill.effect_color {
        Some(color) => insert_member(&mut map, "color", effect_color_json(color)),
        None => {},
    }
    insert_raw_child_xml(&mut map, &solid_fill.raw_child_xml);
    proof {
        lemma_effect_keys();
    }
    JsonValue::Object(map)
}

/// The member `k` of a fill overlay's JSON object.
pub open spec fn fill_overlay_member(got: Option<JsonValue>, f: PictureFillOverlay, k: Seq<char>) -> bool {
    if k == "blend"@ {
        text_member(got, opt_view(f.blend))
    } else if k == "solid_fill"@ {
        opt_member(got, f.solid_fill, |v: JsonValue, s: PictureSolidFill| is_solid_fill_json(v, s))
    } else if k == "raw_child_xml"@ {
        raw_list_member(got, f.raw_child_xml@)
    } else {
        got is None
    }
}

/// A fill overlay's JSON object: one member per given field.
pub open spec fn is_fill_overlay_json(v: JsonValue, f: PictureFillOverlay) -> bool {
    &&& v is Object
    &&& forall|k: Seq<char>| #![trigger members_get(v->Object_0@, k)] fill_overlay_member(members_get(v->Object_0@, k), f, k)
}

/// A fill overlay effect as a JSON object.
pub fn picture_fill_overlay_json(fill_overlay: &PictureFillOverlay) -> (r: JsonValue)
    ensures
        is_fill_overlay_json(r, *fill_overlay),
{
    let mut map = new_members();
    insert_opt_string(&mut map, "blend", &fill_overlay.blend);
    match &fill_overlay.solid_fill {
        Some(solid_fill) => insert_member(&mut map, "solid_fill", picture_solid_fill_json(solid_fill)),
        None => {},
    }
    insert_raw_child_xml(&mut map, &fill_overlay.raw_child_xml);
    proof {
        lemma_effect_keys();
    }
    JsonValue::Object(map)
}

/// Sets each attribute as a string member, in name order.
fn insert_attrs(map: &mut Vec<(String, JsonValue)>, attrs: &XmlAttrs)
    requires
        attrs.wf(),
    ensures
        forall|k: Seq<char>| attrs.lookup(k) is None ==> #[trigger] members_get(final(map)@, k) == members_get(old(map)@, k),
        forall|k: Seq<char>| attrs.lookup(k) is Some ==> text_member(#[trigger] members_get(final(map)@, k), attrs.lookup(k)),
        members_unique(old(map)@) ==> members_unique(final(map)@),
{
    let entries = &attrs.entries;
    let ghost start = map@;
    let mut i: usize = 0;
    while i < entries.len()
        invariant
            i <= entries@.len(),
            entries@ == attrs.entries@,
            attrs.wf(),
            members_unique(start) ==> members_unique(map@),
            forall|k: Seq<char>| entries_lookup(entries@.subrange(0, i as int), k) is None ==> #[trigger] members_get(map@, k) == members_get(start, k),
            forall|k: Seq<char>| entries_lookup(entries@.subrange(0, i as int), k) is Some ==> text_member(
                #[trigger] members_get(map@, k),
                entries_lookup(entries@.subrange(0, i as int), k),
            ),
        decreases entries@.len() - i,
    {
        let ghost pre = entries@.subrange(0, i as int);
        let ghost e = entries@[i as int];
        proof {
            assert(entries@.subrange(0, i + 1) =~= pre + seq![e]);
            assert forall|j: int| 0 <= j < pre.len() implies (#[trigger] pre[j]).0@ != e.0@ by {
                assert(pre[j] == entries@[j]);
                lemma_text_less_irreflexive(e.0@);
            }
            crate::document_core::builders::document_template::attrs::lemma_lookup_absent(pre, e.0@);
        }
        insert_member(map, entries[i].0.as_str(), JsonValue::String(entries[i].1.clone()));
        proof {
            assert forall|k: Seq<char>| #[trigger] entries_lookup(entries@.subrange(0, i + 1), k) == match entries_lookup(pre, k) {
                Some(v) => Some(v),
                None => if k == e.0@ {
                    Some(e.1@)
                } else {
                    None
                },
            } by {
                lemma_lookup_append(pre, seq![e], k);
                lemma_lookup_single(e, k);
            }
        }
        i = i + 1;
    }
    assert(entries@.subrange(0, i as int) =~= entries@);
}

/// An effect child's JSON object: one string member per attribute.
pub open spec fn is_child_json(v: JsonValue, c: PictureEffectChild) -> bool {
    &&& v is Object
    &&& members_unique(v->Object_0@)
    &&& forall|k: Seq<char>| #![trigger members_get(v->Object_0@, k)] text_member(members_get(v->Object_0@, k), c.attrs.lookup(k))
}

/// An effect child as a JSON object.
pub fn picture_effect_child_json(child: &PictureEffectChild) -> (r: JsonValue)
    requires
        child.attrs.wf(),
    ensures
        is_child_json(r, *child),
{
    let mut map = new_members();
    insert_attrs(&mut map, &child.attrs);
    JsonValue::Object(map)
}

/// The member `k` of a 3D effect's JSON object: raw child XML (when there
/// is any) and the bevel (when there is one) over the attributes.
pub open spec fn three_d_member(got: Option<JsonValue>, t: PictureThreeD, k: Seq<char>) -> bool {
    if k == "raw_child_xml"@ && t.raw_child_xml@.len() > 0 {
        raw_list_member(got, t.raw_child_xml@)
    } else if k == "bevel"@ && t.bevel is Some {
        got matches Some(v) && is_child_json(v, t.bevel->0)
    } else {
        text_member(got, t.attrs.lookup(k))
    }
}

/// A 3D effect's JSON object (see `three_d_member`).
pub open spec fn is_three_d_json(v: JsonValue, t: PictureThreeD) -> bool {
    &&& v is Object
    &&& members_unique(v->Object_0@)
    &&& forall|k: Seq<char>| #![trigger members_get(v->Object_0@, k)] three_d_member(members_get(v->Object_0@, k), t, k)
}

/// A 3D effect as a JSON object.
pub fn picture_three_d_json(three_d: &PictureThreeD) -> (r: JsonValue)
    requires
        three_d.attrs.wf(),
        match three_d.bevel {
            Some(b) => b.attrs.wf(),
            None => true,
        },
    ensures
        is_three_d_json(r, *three_d),
{
    let mut map = new_members();
    insert_attrs(&mut map, &three_d.attrs);
    match &three_d.bevel {
        Some(bevel) => insert_member(&mut map, "bevel", picture_effect_child_json(bevel)),
        None => {},
    }
    insert_raw_child_xml(&mut map, &three_d.raw_child_xml);
    JsonValue::Object(map)
}

// ---------------------------------------------------------------------------
// What the readers take back
// ---------------------------------------------------------------------------

/// An effect point written as JSON reads back as the same point.
pub proof fn lemma_point_json_roundtrip(v: JsonValue, p: EffectPoint)
    requires
        is_point_json(v, p),
    ensures
        effect_point_spec(v) == Ok::<(Option<Seq<char>>, Option<Seq<char>>), Seq<char>>(point_view(p)),
{
    lemma_effect_keys();
    let m = v->Object_0@;
    assert(text_member(members_get(m, "x"@), opt_view(p.x)));
    assert(text_member(members_get(m, "y"@), opt_view(p.y)));
}

/// An effect range written as JSON reads back as the same range.
pub proof fn lemma_range_json_roundtrip(v: JsonValue, p: EffectRange)
    requires
        is_range_json(v, p),
    ensures
        effect_range_spec(v) == Ok::<(Option<Seq<char>>, Option<Seq<char>>), Seq<char>>(range_view(p)),
{
    lemma_effect_keys();
    let m = v->Object_0@;
    assert(text_member(members_get(m, "start"@), opt_view(p.start)));
    assert(text_member(members_get(m, "end"@), opt_view(p.end)));
}

/// Colour components written as JSON read back unchanged.
pub proof fn lemma_rgb_json_roundtrip(v: JsonValue, e: EffectRgb)
    requires
        is_rgb_json(v, e),
    ensures
        effect_rgb_spec(v) == Ok::<(Option<Seq<char>>, Option<Seq<char>>, Option<Seq<char>>), Seq<char>>(rgb_view(e)),
{
    lemma_effect_keys();
    let m = v->Object_0@;
    assert(text_member(members_get(m, "r"@), opt_view(e.r)));
    assert(text_member(members_get(m, "g"@), opt_view(e.g)));
    assert(text_member(members_get(m, "b"@), opt_view(e.b)));
}

/// The raw child XML that a writer's object holds reads back as written.
proof fn lemma_raw_children_roundtrip(v: JsonValue, raw: Seq<String>)
    requires
        v is Object,
        raw_list_member(members_get(v->Object_0@, "raw_child_xml"@), raw),
        members_get(v->Object_0@, "rawChildXml"@) is None,
        members_get(v->Object_0@, "raw_children_xml"@) is None,
        members_get(v->Object_0@, "rawChildrenXml"@) is None,
    ensures
        raw_children_spec(v) == Ok::<Seq<Seq<char>>, Seq<char>>(strings_view(raw)),
{
    let m = v->Object_0@;
    let keys = seq!["raw_child_xml", "rawChildXml", "raw_children_xml", "rawChildrenXml"];
    assert(keys.drop_first() =~= seq!["rawChildXml", "raw_children_xml", "rawChildrenXml"]);
    assert(keys.drop_first().drop_first() =~= seq!["raw_children_xml", "rawChildrenXml"]);
    assert(keys.drop_first().drop_first().drop_first() =~= seq!["rawChildrenXml"]);
    assert(keys.drop_first().drop_first().drop_first().drop_first() =~= Seq::<&str>::empty());
    reveal_with_fuel(first_member, 5);
    if raw.len() == 0 {
        assert(first_member(m, keys) is None);
        assert(strings_view(raw) =~= Seq::<Seq<char>>::empty());
    } else {
        let items = members_get(m, "raw_child_xml"@)->0->Array_0@;
        assert(forall|i: int| 0 <= i < items.len() ==> #[trigger] items[i] is String);
        assert(items.map_values(|x: JsonValue| match x {
            JsonValue::String(s) => s@,
            _ => Seq::<char>::empty(),
        }) =~= strings_view(raw));
    }
}

/// An effect colour written as JSON reads back unchanged when its
/// components are no decimal bytes (or absent): then no `#RRGGBB` text is
/// written beside them.
pub proof fn lemma_color_json_roundtrip(v: JsonValue, c: EffectColor)
    requires
        is_color_json(v, c),
        rgb_hex_of(c.rgb) is None,
    ensures
        effect_color_spec(v) == Ok::<EffectColorView, Seq<char>>(effect_color_view(c)),
{
    lemma_effect_keys();
    let m = v->Object_0@;
    assert(color_member(members_get(m, "type"@), c, "type"@));
    assert(color_member(members_get(m, "color_type"@), c, "color_type"@));
    assert(color_member(members_get(m, "scheme_idx"@), c, "scheme_idx"@));
    assert(color_member(members_get(m, "schemeIdx"@), c, "schemeIdx"@));
    assert(color_member(members_get(m, "system_idx"@), c, "system_idx"@));
    assert(color_member(members_get(m, "systemIdx"@), c, "systemIdx"@));
    assert(color_member(members_get(m, "preset_idx"@), c, "preset_idx"@));
    assert(color_member(members_get(m, "presetIdx"@), c, "presetIdx"@));
    assert(color_member(members_get(m, "rgb"@), c, "rgb"@));
    assert(color_member(members_get(m, "color_hex"@), c, "color_hex"@));
    assert(color_member(members_get(m, "colorHex"@), c, "colorHex"@));
    assert(color_member(members_get(m, "rgb_hex"@), c, "rgb_hex"@));
    assert(color_member(members_get(m, "rgbHex"@), c, "rgbHex"@));
    assert(color_member(members_get(m, "raw_child_xml"@), c, "raw_child_xml"@));
    assert(color_member(members_get(m, "rawChildXml"@), c, "rawChildXml"@));
    assert(color_member(members_get(m, "raw_children_xml"@), c, "raw_children_xml"@));
    assert(color_member(members_get(m, "rawChildrenXml"@), c, "rawChildrenXml"@));
    lemma_raw_children_roundtrip(v, c.raw_child_xml@);
    match c.rgb {
        Some(e) => lemma_rgb_json_roundtrip(members_get(m, "rgb"@)->0, e),
        None => {},
    }
    reveal_with_fuel(first_of, 5);
    let hex_keys = seq!["color_hex"@, "colorHex"@, "rgb_hex"@, "rgbHex"@];
    assert(hex_keys.drop_first() =~= seq!["colorHex"@, "rgb_hex"@, "rgbHex"@]);
    assert(hex_keys.drop_first().drop_first() =~= seq!["rgb_hex"@, "rgbHex"@]);
    assert(hex_keys.drop_first().drop_first().drop_first() =~= seq!["rgbHex"@]);
    assert(hex_keys.drop_first().drop_first().drop_first().drop_first() =~= Seq::<Seq<char>>::empty());
    assert(first_of(v, hex_keys) is None);
}

/// An optional effect colour that reads back unchanged (see
/// `lemma_color_json_roundtrip`).
pub open spec fn color_reads_back(c: Option<EffectColor>) -> bool {
    match c {
        Some(x) => rgb_hex_of(x.rgb) is None,
        None => true,
    }
}

proof fn lemma_color_field_roundtrip(v: JsonValue, c: Option<EffectColor>)
    requires
        v is Object,
        opt_member(members_get(v->Object_0@, "color"@), c, |x: JsonValue, d: EffectColor| is_color_json(x, d)),
        color_reads_back(c),
    ensures
        match c {
            Some(d) => effect_color_spec(members_get(v->Object_0@, "color"@)->0) == Ok::<EffectColorView, Seq<char>>(
                effect_color_view(d),
            ),
            None => true,
        },
{
    match c {
        Some(d) => lemma_color_json_roundtrip(members_get(v->Object_0@, "color"@)->0, d),
        None => {},
    }
}

/// A shadow written as JSON reads back unchanged, when its colour does.
pub proof fn lemma_shadow_json_roundtrip(v: JsonValue, s: PictureShadow)
    requires
        is_shadow_json(v, s),
        color_reads_back(s.color),
    ensures
        shadow_spec(v) == Ok::<ShadowView, Seq<char>>(shadow_view(s)),
{
    lemma_effect_keys();
    let m = v->Object_0@;
    assert(shadow_member(members_get(m, "style"@), s, "style"@));
    assert(shadow_member(members_get(m, "alpha"@), s, "alpha"@));
    assert(shadow_member(members_get(m, "radius"@), s, "radius"@));
    assert(shadow_member(members_get(m, "direction"@), s, "direction"@));
    assert(shadow_member(members_get(m, "distance"@), s, "distance"@));
    assert(shadow_member(members_get(m, "align_style"@), s, "align_style"@));
    assert(shadow_member(members_get(m, "alignStyle"@), s, "alignStyle"@));
    assert(shadow_member(members_get(m, "rotation_style"@), s, "rotation_style"@));
    assert(shadow_member(members_get(m, "rotationStyle"@), s, "rotationStyle"@));
    assert(shadow_member(members_get(m, "skew"@), s, "skew"@));
    assert(shadow_member(members_get(m, "skew_x"@), s, "skew_x"@));
    assert(shadow_member(members_get(m, "skewX"@), s, "skewX"@));
    assert(shadow_member(members_get(m, "skew_y"@), s, "skew_y"@));
    assert(shadow_member(members_get(m, "skewY"@), s, "skewY"@));
    assert(shadow_member(members_get(m, "scale"@), s, "scale"@));
    assert(shadow_member(members_get(m, "scale_x"@), s, "scale_x"@));
    assert(shadow_member(members_get(m, "scaleX"@), s, "scaleX"@));
    assert(shadow_member(members_get(m, "scale_y"@), s, "scale_y"@));
    assert(shadow_member(members_get(m, "scaleY"@), s, "scaleY"@));
    assert(shadow_member(members_get(m, "color"@), s, "color"@));
    assert(shadow_member(members_get(m, "effectsColor"@), s, "effectsColor"@));
    assert(shadow_member(members_get(m, "raw_child_xml"@), s, "raw_child_xml"@));
    assert(shadow_member(members_get(m, "rawChildXml"@), s, "rawChildXml"@));
    assert(shadow_member(members_get(m, "raw_children_xml"@), s, "raw_children_xml"@));
    assert(shadow_member(members_get(m, "rawChildrenXml"@), s, "rawChildrenXml"@));
    lemma_raw_children_roundtrip(v, s.raw_child_xml@);
    match s.skew {
        Some(p) => lemma_point_json_roundtrip(members_get(m, "skew"@)->0, p),
        None => {},
    }
    match s.scale {
        Some(p) => lemma_point_json_roundtrip(members_get(m, "scale"@)->0, p),
        None => {},
    }
    lemma_color_field_roundtrip(v, s.color);
    reveal_with_fuel(first_of, 3);
    assert(seq!["color"@, "effectsColor"@].drop_first() =~= seq!["effectsColor"@]);
    assert(seq!["effectsColor"@].drop_first() =~= Seq::<Seq<char>>::empty());
}

/// A glow written as JSON reads back unchanged, when its colour does.
pub proof fn lemma_glow_json_roundtrip(v: JsonValue, g: PictureGlow)
    requires
        is_glow_json(v, g),
        color_reads_back(g.color),
    ensures
        glow_spec(v) == Ok::<GlowView, Seq<char>>(glow_view(g)),
{
    lemma_effect_keys();
    let m = v->Object_0@;
    assert(glow_member(members_get(m, "alpha"@), g, "alpha"@));
    assert(glow_member(members_get(m, "radius"@), g, "radius"@));
    assert(glow_member(members_get(m, "color"@), g, "color"@));
    assert(glow_member(members_get(m, "effectsColor"@), g, "effectsColor"@));
    assert(glow_member(members_get(m, "raw_child_xml"@), g, "raw_child_xml"@));
    assert(glow_member(members_get(m, "rawChildXml"@), g, "rawChildXml"@));
    assert(glow_member(members_get(m, "raw_children_xml"@), g, "raw_children_xml"@));
    assert(glow_member(members_get(m, "rawChildrenXml"@), g, "rawChildrenXml"@));
    lemma_raw_children_roundtrip(v, g.raw_child_xml@);
    lemma_color_field_roundtrip(v, g.color);
    reveal_with_fuel(first_of, 3);
    assert(seq!["color"@, "effectsColor"@].drop_first() =~= seq!["effectsColor"@]);
    assert(seq!["effectsColor"@].drop_first() =~= Seq::<Seq<char>>::empty());
}

/// A soft-edge or blur effect written as JSON reads back unchanged.
pub proof fn lemma_radius_json_roundtrip(v: JsonValue, radius: Option<String>, raw: Seq<String>, refusal: Seq<char>)
    requires
        is_radius_json(v, radius, raw),
    ensures
        radius_effect_spec(v, refusal) == Ok::<RadiusView, Seq<char>>((opt_view(radius), strings_view(raw))),
{
    lemma_effect_keys();
    let m = v->Object_0@;
    assert(text_member(members_get(m, "radius"@), opt_view(radius)));
    assert(raw_list_member(members_get(m, "raw_child_xml"@), raw));
    assert(members_get(m, "rawChildXml"@) is None);
    assert(members_get(m, "raw_children_xml"@) is None);
    assert(members_get(m, "rawChildrenXml"@) is None);
    lemma_raw_children_roundtrip(v, raw);
}

/// A reflection written as JSON reads back unchanged, when its colour
/// does.
pub proof fn lemma_reflection_json_roundtrip(v: JsonValue, x: PictureReflection)
    requires
        is_reflection_json(v, x),
        color_reads_back(x.color),
    ensures
        reflection_spec(v) == Ok::<ReflectionView, Seq<char>>(reflection_view(x)),
{
    lemma_effect_keys();
    let m = v->Object_0@;
    assert(reflection_member(members_get(m, "align_style"@), x, "align_style"@));
    assert(reflection_member(members_get(m, "alignStyle"@), x, "alignStyle"@));
    assert(reflection_member(members_get(m, "radius"@), x, "radius"@));
    assert(reflection_member(members_get(m, "direction"@), x, "direction"@));
    assert(reflection_member(members_get(m, "distance"@), x, "distance"@));
    assert(reflection_member(members_get(m, "rotation_style"@), x, "rotation_style"@));
    assert(reflection_member(members_get(m, "rotationStyle"@), x, "rotationStyle"@));
    assert(reflection_member(members_get(m, "fade_direction"@), x, "fade_direction"@));
    assert(reflection_member(members_get(m, "fadeDirection"@), x, "fadeDirection"@));
    assert(reflection_member(members_get(m, "skew"@), x, "skew"@));
    assert(reflection_member(members_get(m, "skew_x"@), x, "skew_x"@));
    assert(reflection_member(members_get(m, "skewX"@), x, "skewX"@));
    assert(reflection_member(members_get(m, "skew_y"@), x, "skew_y"@));
    assert(reflection_member(members_get(m, "skewY"@), x, "skewY"@));
    assert(reflection_member(members_get(m, "scale"@), x, "scale"@));
    assert(reflection_member(members_get(m, "scale_x"@), x, "scale_x"@));
    assert(reflection_member(members_get(m, "scaleX"@), x, "scaleX"@));
    assert(reflection_member(members_get(m, "scale_y"@), x, "scale_y"@));
    assert(reflection_member(members_get(m, "scaleY"@), x, "scaleY"@));
    assert(reflection_member(members_get(m, "color"@), x, "color"@));
    assert(reflection_member(members_get(m, "effectsColor"@), x, "effectsColor"@));
    assert(reflection_member(members_get(m, "alpha"@), x, "alpha"@));
    assert(reflection_member(members_get(m, "alpha_start"@), x, "alpha_start"@));
    assert(reflection_member(members_get(m, "alphaStart"@), x, "alphaStart"@));
    assert(reflection_member(members_get(m, "alpha_end"@), x, "alpha_end"@));
    assert(reflection_member(members_get(m, "alphaEnd"@), x, "alphaEnd"@));
    assert(reflection_member(members_get(m, "pos"@), x, "pos"@));
    assert(reflection_member(members_get(m, "pos_start"@), x, "pos_start"@));
    assert(reflection_member(members_get(m, "posStart"@), x, "posStart"@));
    assert(reflection_member(members_get(m, "pos_end"@), x, "pos_end"@));
    assert(reflection_member(members_get(m, "posEnd"@), x, "posEnd"@));
    assert(reflection_member(members_get(m, "raw_child_xml"@), x, "raw_child_xml"@));
    assert(reflection_member(members_get(m, "rawChildXml"@), x, "rawChildXml"@));
    assert(reflection_member(members_get(m, "raw_children_xml"@), x, "raw_children_xml"@));
    assert(reflection_member(members_get(m, "rawChildrenXml"@), x, "rawChildrenXml"@));
    lemma_raw_children_roundtrip(v, x.raw_child_xml@);
    match x.skew {
        Some(p) => lemma_point_json_roundtrip(members_get(m, "skew"@)->0, p),
        None => {},
    }
    match x.scale {
        Some(p) => lemma_point_json_roundtrip(members_get(m, "scale"@)->0, p),
        None => {},
    }
    match x.alpha {
        Some(p) => lemma_range_json_roundtrip(members_get(m, "alpha"@)->0, p),
        None => {},
    }
    match x.pos {
        Some(p) => lemma_range_json_roundtrip(members_get(m, "pos"@)->0, p),
        None => {},
    }
    lemma_color_field_roundtrip(v, x.color);
    reveal_with_fuel(first_of, 3);
    assert(seq!["color"@, "effectsColor"@].drop_first() =~= seq!["effectsColor"@]);
    assert(seq!["effectsColor"@].drop_first() =~= Seq::<Seq<char>>::empty());
}

/// A solid fill that reads back unchanged: its effect colour does, and its
/// colour text is already in `#RRGGBB` form (upper-case digits) or absent.
pub open spec fn solid_fill_reads_back(f: PictureSolidFill) -> bool {
    &&& color_reads_back(f.effect_color)
    &&& match f.color {
        Some(c) => normalize_xml_color_hex_spec(c@) == Some(c@),
        None => true,
    }
}

/// A solid fill written as JSON reads back unchanged (see
/// `solid_fill_reads_back`).
pub proof fn lemma_solid_fill_json_roundtrip(v: JsonValue, f: PictureSolidFill)
    requires
        is_solid_fill_json(v, f),
        solid_fill_reads_back(f),
    ensures
        solid_fill_spec(v) == Ok::<SolidFillView, Seq<char>>(solid_fill_view(f)),
{
    lemma_effect_keys();
    let m = v->Object_0@;
    assert(solid_fill_member(members_get(m, "color"@), f, "color"@));
    assert(solid_fill_member(members_get(m, "color_hex"@), f, "color_hex"@));
    assert(solid_fill_member(members_get(m, "colorHex"@), f, "colorHex"@));
    assert(solid_fill_member(members_get(m, "effectsColor"@), f, "effectsColor"@));
    assert(solid_fill_member(members_get(m, "raw_child_xml"@), f, "raw_child_xml"@));
    assert(solid_fill_member(members_get(m, "rawChildXml"@), f, "rawChildXml"@));
    assert(solid_fill_member(members_get(m, "raw_children_xml"@), f, "raw_children_xml"@));
    assert(solid_fill_member(members_get(m, "rawChildrenXml"@), f, "rawChildrenXml"@));
    lemma_raw_children_roundtrip(v, f.raw_child_xml@);
    match f.effect_color {
        Some(c) => lemma_color_json_roundtrip(members_get(m, "color"@)->0, c),
        None => {},
    }
}

/// A fill overlay written as JSON reads back unchanged, when its solid
/// fill does.
pub proof fn lemma_fill_overlay_json_roundtrip(v: JsonValue, f: PictureFillOverlay)
    requires
        is_fill_overlay_json(v, f),
        match f.solid_fill {
            Some(s) => solid_fill_reads_back(s),
            None => true,
        },
    ensures
        fill_overlay_spec(v) == Ok::<FillOverlayView, Seq<char>>(fill_overlay_view(f)),
{
    lemma_effect_keys();
    let m = v->Object_0@;
    assert(fill_overlay_member(members_get(m, "blend"@), f, "blend"@));
    assert(fill_overlay_member(members_get(m, "solid_fill"@), f, "solid_fill"@));
    assert(fill_overlay_member(members_get(m, "solidFill"@), f, "solidFill"@));
    assert(fill_overlay_member(members_get(m, "raw_child_xml"@), f, "raw_child_xml"@));
    assert(fill_overlay_member(members_get(m, "rawChildXml"@), f, "rawChildXml"@));
    assert(fill_overlay_member(members_get(m, "raw_children_xml"@), f, "raw_children_xml"@));
    assert(fill_overlay_member(members_get(m, "rawChildrenXml"@), f, "rawChildrenXml"@));
    lemma_raw_children_roundtrip(v, f.raw_child_xml@);
    match f.solid_fill {
        Some(s) => lemma_solid_fill_json_roundtrip(members_get(m, "solid_fill"@)->0, s),
        None => {},
    }
    reveal_with_fuel(first_of, 3);
    assert(seq!["solid_fill"@, "solidFill"@].drop_first() =~= seq!["solidFill"@]);
    assert(seq!["solidFill"@].drop_first() =~= Seq::<Seq<char>>::empty());
}

/// Attribute names that read back as attributes: safe XML names other than
/// `attrs`, and none of `skip`.
pub open spec fn attr_names_read_back(a: XmlAttrs, skip: Seq<Seq<char>>) -> bool {
    forall|k: Seq<char>| #[trigger] a.lookup(k) is Some ==> safe_xml_name_spec(k) && k != "attrs"@ && !skip.contains(k)
}

/// The attributes that an object with string members (one per attribute)
/// gives back, when the names read back.
proof fn lemma_attrs_members_roundtrip(v: JsonValue, a: XmlAttrs, skip: Seq<Seq<char>>)
    requires
        v is Object,
        members_unique(v->Object_0@),
        attr_names_read_back(a, skip),
        forall|k: Seq<char>| !(seq!["attrs"@] + skip).contains(k) ==> text_member(
            #[trigger] members_get(v->Object_0@, k),
            a.lookup(k),
        ),
        members_get(v->Object_0@, "attrs"@) is None,
    ensures
        xml_attr_map_spec(v, skip) == a@,
{
    let m = v->Object_0@;
    let all_skip = seq!["attrs"@] + skip;
    let folded = fold_attrs(Map::empty(), m, all_skip);
    assert(xml_attr_map_spec(v, skip) == folded);
    assert forall|k: Seq<char>| #[trigger] map_get(folded, k) == map_get(a@, k) by {
        lemma_fold_attrs_unique(Map::empty(), m, all_skip, k);
        if all_skip.contains(k) {
            if k != "attrs"@ {
                let j = choose|j: int| 0 <= j < all_skip.len() && all_skip[j] == k;
                assert(j > 0);
                assert(skip[j - 1] == k);
            }
            assert(a.lookup(k) is None);
        }
    }
    assert(folded =~= a@) by {
        assert forall|k: Seq<char>| folded.dom().contains(k) <==> a@.dom().contains(k) by {
            assert(map_get(folded, k) == map_get(a@, k));
        }
        assert forall|k: Seq<char>| #[trigger] folded.dom().contains(k) implies folded[k] == a@[k] by {
            assert(map_get(folded, k) == map_get(a@, k));
        }
    }
}

/// An effect child written as JSON reads back with the same attributes,
/// when their names read back.
pub proof fn lemma_child_json_roundtrip(v: JsonValue, c: PictureEffectChild)
    requires
        is_child_json(v, c),
        attr_names_read_back(c.attrs, Seq::empty()),
    ensures
        effect_child_spec(v) == Ok::<Map<Seq<char>, Seq<char>>, Seq<char>>(c.attrs@),
{
    let m = v->Object_0@;
    assert(text_member(members_get(m, "attrs"@), c.attrs.lookup("attrs"@)));
    lemma_attrs_members_roundtrip(v, c.attrs, Seq::empty());
}

/// A 3D effect written as JSON reads back unchanged, when its attribute
/// names read back (none of them a key of the effect itself) and those of
/// its bevel do.
pub proof fn lemma_three_d_json_roundtrip(v: JsonValue, t: PictureThreeD)
    requires
        is_three_d_json(v, t),
        attr_names_read_back(t.attrs, three_d_skip_keys()),
        match t.bevel {
            Some(b) => attr_names_read_back(b.attrs, Seq::empty()),
            None => true,
        },
    ensures
        three_d_spec(v) == Ok::<ThreeDView, Seq<char>>(three_d_view(t)),
{
    lemma_effect_keys();
    reveal_strlit("bevel");
    reveal_strlit("bevelType");
    reveal_strlit("bevel_type");
    reveal_strlit("attrs");
    let m = v->Object_0@;
    let skip = three_d_skip_keys();
    assert(skip[0] == "bevel"@ && skip[1] == "bevelType"@ && skip[2] == "bevel_type"@);
    assert(skip[3] == "raw_child_xml"@ && skip[4] == "rawChildXml"@);
    assert(skip[5] == "raw_children_xml"@ && skip[6] == "rawChildrenXml"@);
    assert(three_d_member(members_get(m, "raw_child_xml"@), t, "raw_child_xml"@));
    assert(three_d_member(members_get(m, "rawChildXml"@), t, "rawChildXml"@));
    assert(three_d_member(members_get(m, "raw_children_xml"@), t, "raw_children_xml"@));
    assert(three_d_member(members_get(m, "rawChildrenXml"@), t, "rawChildrenXml"@));
    assert(three_d_member(members_get(m, "bevel"@), t, "bevel"@));
    assert(three_d_member(members_get(m, "bevelType"@), t, "bevelType"@));
    assert(three_d_member(members_get(m, "bevel_type"@), t, "bevel_type"@));
    assert(three_d_member(members_get(m, "attrs"@), t, "attrs"@));
    assert(t.attrs.lookup("raw_child_xml"@) is None);
    assert(t.attrs.lookup("rawChildXml"@) is None);
    assert(t.attrs.lookup("raw_children_xml"@) is None);
    assert(t.attrs.lookup("rawChildrenXml"@) is None);
    assert(t.attrs.lookup("bevel"@) is None);
    assert(t.attrs.lookup("bevelType"@) is None);
    assert(t.attrs.lookup("bevel_type"@) is None);
    lemma_raw_children_roundtrip(v, t.raw_child_xml@);
    assert forall|k: Seq<char>| !(seq!["attrs"@] + skip).contains(k) implies text_member(
        #[trigger] members_get(m, k),
        t.attrs.lookup(k),
    ) by {
        assert((seq!["attrs"@] + skip)[4] == "raw_child_xml"@);
        assert((seq!["attrs"@] + skip)[1] == "bevel"@);
        assert(three_d_member(members_get(m, k), t, k));
    }
    lemma_attrs_members_roundtrip(v, t.attrs, skip);
    match t.bevel {
        Some(b) => lemma_child_json_roundtrip(members_get(m, "bevel"@)->0, b),
        None => {},
    }
}

} // verus!
