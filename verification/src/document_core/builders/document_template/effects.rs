//! Picture effects as a template gives them in JSON (colour, shadow, glow,
//! soft edge, blur, reflection, fill overlay), read into the model. Each
//! reader is stated as a function from the JSON value to the texts it
//! keeps, or to the message of the first field it refuses.

use crate::document_core::builders::document_template::fields::{
    alias_string, alias_text, effect_point_from_flat_aliases, effect_point_from_json,
    effect_point_spec, effect_range_from_flat_aliases, effect_range_from_json, effect_range_spec,
    flat_pair_spec, flat_point_keys, flat_range_keys, point_view, range_view, TextPair,
};
use crate::document_core::builders::document_template::objects::opt_view;
use crate::json_value::{
    effect_rgb_from_color_hex_value, effect_rgb_from_json, effect_rgb_of_value_spec, field_text,
    json_get_spec, json_scalar_string, json_string_array_alias, json_string_field, scalar_text,
    string_array_alias_spec, JsonValue,
};
use crate::document_core::builders::document_template::attrs::{
    drawing_style_xml_attr_map, xml_attr_map_spec, XmlAttrs,
};
use crate::model::{
    EffectColor, EffectPoint, EffectRange, EffectRgb, PictureBlur, PictureEffectChild,
    PictureEffects, PictureFillOverlay, PictureGlow, PictureReflection, PictureShadow,
    PictureSoftEdge, PictureSolidFill, PictureThreeD,
};
use crate::text::string_of;
use vstd::prelude::*;

verus! {

// ---------------------------------------------------------------------------
// Views
// ---------------------------------------------------------------------------

/// Red, green and blue texts.
pub type RgbText = (Option<Seq<char>>, Option<Seq<char>>, Option<Seq<char>>);

/// A picture-effect colour's components as texts.
pub open spec fn rgb_view(e: EffectRgb) -> RgbText {
    (opt_view(e.r), opt_view(e.g), opt_view(e.b))
}

/// A list of strings as texts.
pub open spec fn strings_view(v: Seq<String>) -> Seq<Seq<char>> {
    v.map_values(|s: String| s@)
}

/// An optional effect point as texts.
pub open spec fn opt_point_view(p: Option<EffectPoint>) -> Option<TextPair> {
    match p {
        Some(q) => Some(point_view(q)),
        None => None,
    }
}

/// An optional effect range as texts.
pub open spec fn opt_range_view(p: Option<EffectRange>) -> Option<TextPair> {
    match p {
        Some(q) => Some(range_view(q)),
        None => None,
    }
}

/// An effect colour as texts.
pub struct EffectColorView {
    pub color_type: Option<Seq<char>>,
    pub scheme_idx: Option<Seq<char>>,
    pub system_idx: Option<Seq<char>>,
    pub preset_idx: Option<Seq<char>>,
    pub rgb: Option<RgbText>,
    pub raw_child_xml: Seq<Seq<char>>,
}

/// An effect colour as texts.
pub open spec fn effect_color_view(c: EffectColor) -> EffectColorView {
    EffectColorView {
        color_type: opt_view(c.color_type),
        scheme_idx: opt_view(c.scheme_idx),
        system_idx: opt_view(c.system_idx),
        preset_idx: opt_view(c.preset_idx),
        rgb: match c.rgb {
            Some(e) => Some(rgb_view(e)),
            None => None,
        },
        raw_child_xml: strings_view(c.raw_child_xml@),
    }
}

/// An optional effect colour as texts.
pub open spec fn opt_color_view(c: Option<EffectColor>) -> Option<EffectColorView> {
    match c {
        Some(d) => Some(effect_color_view(d)),
        None => None,
    }
}

// ---------------------------------------------------------------------------
// Fields
// ---------------------------------------------------------------------------

/// A field that is present and not `null`.
pub open spec fn non_null(v: Option<JsonValue>) -> Option<JsonValue> {
    match v {
        Some(x) => if x is Null {
            None
        } else {
            Some(x)
        },
        None => None,
    }
}

/// The field under the first of the keys that `value` has.
pub open spec fn first_of(value: JsonValue, keys: Seq<Seq<char>>) -> Option<JsonValue>
    decreases keys.len(),
{
    if keys.len() == 0 {
        None
    } else {
        match json_get_spec(value, keys[0]) {
            Some(v) => Some(v),
            None => first_of(value, keys.drop_first()),
        }
    }
}

/// The field under `key`, unless it is `null`.
pub(crate) fn present1<'a>(value: &'a JsonValue, key: &str) -> (r: Option<&'a JsonValue>)
    ensures
        match r {
            Some(v) => non_null(json_get_spec(*value, key@)) == Some(*v),
            None => non_null(json_get_spec(*value, key@)) is None,
        },
{
    match value.get(key) {
        Some(JsonValue::Null) => None,
        Some(v) => Some(v),
        None => None,
    }
}

/// The field under the first of two keys that `value` has, unless it is
/// `null`.
pub(crate) fn present2<'a>(value: &'a JsonValue, a: &str, b: &str) -> (r: Option<&'a JsonValue>)
    ensures
        match r {
            Some(v) => non_null(first_of(*value, seq![a@, b@])) == Some(*v),
            None => non_null(first_of(*value, seq![a@, b@])) is None,
        },
{
    proof {
        reveal_with_fuel(first_of, 3);
        assert(seq![a@, b@].drop_first() =~= seq![b@]);
        assert(seq![b@].drop_first() =~= Seq::<Seq<char>>::empty());
    }
    let v = match value.get(a) {
        Some(v) => v,
        None => match value.get(b) {
            Some(v) => v,
            None => return None,
        },
    };
    match v {
        JsonValue::Null => None,
        _ => Some(v),
    }
}

/// The field under the first of four keys that `value` has (`null`
/// included).
pub(crate) fn first_of4<'a>(value: &'a JsonValue, a: &str, b: &str, c: &str, d: &str) -> (r: Option<&'a JsonValue>)
    ensures
        match r {
            Some(v) => first_of(*value, seq![a@, b@, c@, d@]) == Some(*v),
            None => first_of(*value, seq![a@, b@, c@, d@]) is None,
        },
{
    proof {
        reveal_with_fuel(first_of, 5);
        assert(seq![a@, b@, c@, d@].drop_first() =~= seq![b@, c@, d@]);
        assert(seq![b@, c@, d@].drop_first() =~= seq![c@, d@]);
        assert(seq![c@, d@].drop_first() =~= seq![d@]);
        assert(seq![d@].drop_first() =~= Seq::<Seq<char>>::empty());
    }
    match value.get(a) {
        Some(v) => Some(v),
        None => match value.get(b) {
            Some(v) => Some(v),
            None => match value.get(c) {
                Some(v) => Some(v),
                None => value.get(d),
            },
        },
    }
}

/// The field under the first of three keys that `value` has (`null`
/// included).
pub(crate) fn first_of3<'a>(value: &'a JsonValue, a: &str, b: &str, c: &str) -> (r: Option<&'a JsonValue>)
    ensures
        match r {
            Some(v) => first_of(*value, seq![a@, b@, c@]) == Some(*v),
            None => first_of(*value, seq![a@, b@, c@]) is None,
        },
{
    proof {
        reveal_with_fuel(first_of, 4);
        assert(seq![a@, b@, c@].drop_first() =~= seq![b@, c@]);
        assert(seq![b@, c@].drop_first() =~= seq![c@]);
        assert(seq![c@].drop_first() =~= Seq::<Seq<char>>::empty());
    }
    match value.get(a) {
        Some(v) => Some(v),
        None => match value.get(b) {
            Some(v) => Some(v),
            None => value.get(c),
        },
    }
}

/// A field, unless it is `null`.
pub(crate) fn not_null<'a>(v: Option<&'a JsonValue>) -> (r: Option<&'a JsonValue>)
    ensures
        match r {
            Some(x) => non_null(match v {
                Some(y) => Some(*y),
                None => None,
            }) == Some(*x),
            None => non_null(match v {
                Some(y) => Some(*y),
                None => None,
            }) is None,
        },
{
    match v {
        Some(JsonValue::Null) => None,
        Some(x) => Some(x),
        None => None,
    }
}

/// The keys under which a raw child XML list may stand.
pub open spec fn raw_child_keys() -> Seq<&'static str> {
    seq!["raw_child_xml", "rawChildXml", "raw_children_xml", "rawChildrenXml"]
}

/// The raw child XML list of an object (none for any other value).
pub open spec fn raw_children_spec(value: JsonValue) -> Result<Seq<Seq<char>>, Seq<char>> {
    match value {
        JsonValue::Object(members) => string_array_alias_spec(members@, raw_child_keys()),
        _ => Ok(Seq::empty()),
    }
}

fn raw_children(value: &JsonValue) -> (r: Result<Vec<String>, String>)
    ensures
        match r {
            Ok(v) => raw_children_spec(*value) == Ok::<Seq<Seq<char>>, Seq<char>>(strings_view(v@)),
            Err(e) => raw_children_spec(*value) == Err::<Seq<Seq<char>>, Seq<char>>(e@),
        },
{
    match value {
        JsonValue::Object(members) => {
            let keys = ["raw_child_xml", "rawChildXml", "raw_children_xml", "rawChildrenXml"];
            assert(keys@ =~= raw_child_keys());
            json_string_array_alias(members, &keys)
        },
        _ => {
            let v: Vec<String> = Vec::new();
            assert(strings_view(v@) =~= Seq::<Seq<char>>::empty());
            Ok(v)
        },
    }
}

/// An effect point under `key`, else given by the flat keys of `prefix`.
pub open spec fn point_field_spec(value: JsonValue, key: Seq<char>, prefix: Seq<char>) -> Result<Option<TextPair>, Seq<char>> {
    match non_null(json_get_spec(value, key)) {
        Some(v) => match effect_point_spec(v) {
            Ok(p) => Ok(Some(p)),
            Err(e) => Err(e),
        },
        None => Ok(flat_pair_spec(value, flat_point_keys(prefix))),
    }
}

fn point_field(value: &JsonValue, key: &str, prefix: &str) -> (r: Result<Option<EffectPoint>, String>)
    ensures
        match r {
            Ok(p) => point_field_spec(*value, key@, prefix@) == Ok::<Option<TextPair>, Seq<char>>(opt_point_view(p)),
            Err(e) => point_field_spec(*value, key@, prefix@) == Err::<Option<TextPair>, Seq<char>>(e@),
        },
{
    match present1(value, key) {
        Some(v) => match effect_point_from_json(v) {
            Ok(p) => Ok(Some(p)),
            Err(e) => Err(e),
        },
        None => Ok(effect_point_from_flat_aliases(value, prefix)),
    }
}

/// An effect range under `key`, else given by the flat keys of `prefix`.
pub open spec fn range_field_spec(value: JsonValue, key: Seq<char>, prefix: Seq<char>) -> Result<Option<TextPair>, Seq<char>> {
    match non_null(json_get_spec(value, key)) {
        Some(v) => match effect_range_spec(v) {
            Ok(p) => Ok(Some(p)),
            Err(e) => Err(e),
        },
        None => Ok(flat_pair_spec(value, flat_range_keys(prefix))),
    }
}

fn range_field(value: &JsonValue, key: &str, prefix: &str) -> (r: Result<Option<EffectRange>, String>)
    ensures
        match r {
            Ok(p) => range_field_spec(*value, key@, prefix@) == Ok::<Option<TextPair>, Seq<char>>(opt_range_view(p)),
            Err(e) => range_field_spec(*value, key@, prefix@) == Err::<Option<TextPair>, Seq<char>>(e@),
        },
{
    match present1(value, key) {
        Some(v) => match effect_range_from_json(v) {
            Ok(p) => Ok(Some(p)),
            Err(e) => Err(e),
        },
        None => Ok(effect_range_from_flat_aliases(value, prefix)),
    }
}

// ---------------------------------------------------------------------------
// Colours
// ---------------------------------------------------------------------------

/// A picture-effect colour's components read from an object's `r`, `g`,
/// `b` texts.
pub open spec fn effect_rgb_spec(value: JsonValue) -> Result<RgbText, Seq<char>> {
    if value is Object {
        Ok((field_text(value, "r"@), field_text(value, "g"@), field_text(value, "b"@)))
    } else {
        Err("picture effect rgb must be an object"@)
    }
}

/// The RGB colour of a colour text, with the other indexes unset.
pub open spec fn rgb_color_view(rgb: RgbText) -> EffectColorView {
    EffectColorView {
        color_type: Some("RGB"@),
        scheme_idx: Some("-1"@),
        system_idx: Some("-1"@),
        preset_idx: Some("-1"@),
        rgb: Some(rgb),
        raw_child_xml: Seq::empty(),
    }
}

/// A text that stays when given, else `fallback`.
pub open spec fn or_text(value: Option<Seq<char>>, fallback: Seq<char>) -> Option<Seq<char>> {
    match value {
        Some(t) => Some(t),
        None => Some(fallback),
    }
}

/// The `rgb` object of an effect colour, unless absent or `null`.
pub open spec fn rgb_field_spec(value: JsonValue) -> Result<Option<RgbText>, Seq<char>> {
    match non_null(json_get_spec(value, "rgb"@)) {
        Some(v) => match effect_rgb_spec(v) {
            Ok(rgb) => Ok(Some(rgb)),
            Err(e) => Err(e),
        },
        None => Ok(None),
    }
}

/// A picture-effect colour read from JSON. A scalar must be a colour text
/// and gives an RGB colour. An object gives its type and indexes (each
/// under a snake-case or camel-case key), its `rgb` components and raw
/// child XML; a colour text under `color_hex`, `colorHex`, `rgb_hex` or
/// `rgbHex` then sets the RGB components and fills in the type (`RGB`) and
/// the indexes (`-1`) that were not given.
pub open spec fn effect_color_spec(value: JsonValue) -> Result<EffectColorView, Seq<char>> {
    if scalar_text(value) is Some {
        match effect_rgb_of_value_spec(value) {
            Some((red, green, blue)) => Ok(rgb_color_view((Some(red), Some(green), Some(blue)))),
            None => Err("picture effect color string must be a CSS #RRGGBB color"@),
        }
    } else if !(value is Object) {
        Err("picture effect color must be an object or CSS #RRGGBB string"@)
    } else {
        match rgb_field_spec(value) {
            Err(e) => Err(e),
            Ok(rgb) => match raw_children_spec(value) {
                Err(e) => Err(e),
                Ok(raw) => {
                    let color_type = alias_text(value, "type"@, "color_type"@);
                    let scheme_idx = alias_text(value, "scheme_idx"@, "schemeIdx"@);
                    let system_idx = alias_text(value, "system_idx"@, "systemIdx"@);
                    let preset_idx = alias_text(value, "preset_idx"@, "presetIdx"@);
                    let hex = match first_of(value, seq!["color_hex"@, "colorHex"@, "rgb_hex"@, "rgbHex"@]) {
                        Some(h) => effect_rgb_of_value_spec(h),
                        None => None,
                    };
                    match hex {
                        Some((red, green, blue)) => Ok(
                            EffectColorView {
                                color_type: or_text(color_type, "RGB"@),
                                scheme_idx: or_text(scheme_idx, "-1"@),
                                system_idx: or_text(system_idx, "-1"@),
                                preset_idx: or_text(preset_idx, "-1"@),
                                rgb: Some((Some(red), Some(green), Some(blue))),
                                raw_child_xml: raw,
                            },
                        ),
                        None => Ok(
                            EffectColorView { color_type, scheme_idx, system_idx, preset_idx, rgb, raw_child_xml: raw },
                        ),
                    }
                },
            },
        }
    }
}

fn rgb_field(value: &JsonValue) -> (r: Result<Option<EffectRgb>, String>)
    ensures
        match r {
            Ok(e) => rgb_field_spec(*value) == Ok::<Option<RgbText>, Seq<char>>(match e {
                Some(x) => Some(rgb_view(x)),
                None => None,
            }),
            Err(m) => rgb_field_spec(*value) == Err::<Option<RgbText>, Seq<char>>(m@),
        },
{
    match present1(value, "rgb") {
        Some(v) => match effect_rgb_from_json(v) {
            Ok(e) => Ok(Some(e)),
            Err(m) => Err(m),
        },
        None => Ok(None),
    }
}

/// `Some(text)` unless a text is already there.
fn fill_text(value: Option<String>, fallback: &str) -> (r: Option<String>)
    ensures
        opt_view(r) == or_text(opt_view(value), fallback@),
{
    match value {
        Some(t) => Some(t),
        None => Some(string_of(fallback)),
    }
}

/// A picture-effect colour from JSON (see `effect_color_spec`).
pub fn effect_color_from_json(value: &JsonValue) -> (r: Result<EffectColor, String>)
    ensures
        match r {
            Ok(c) => effect_color_spec(*value) == Ok::<EffectColorView, Seq<char>>(effect_color_view(c)),
            Err(e) => effect_color_spec(*value) == Err::<EffectColorView, Seq<char>>(e@),
        },
{
    match json_scalar_string(value) {
        Some(_) => {
            match effect_rgb_from_color_hex_value(value) {
                Some(rgb) => {
                    let c = EffectColor {
                        color_type: Some(string_of("RGB")),
                        scheme_idx: Some(string_of("-1")),
                        system_idx: Some(string_of("-1")),
                        preset_idx: Some(string_of("-1")),
                        rgb: Some(rgb),
                        raw_child_xml: Vec::new(),
                    };
                    assert(strings_view(c.raw_child_xml@) =~= Seq::<Seq<char>>::empty());
                    return Ok(c);
                },
                None => return Err(string_of("picture effect color string must be a CSS #RRGGBB color")),
            }
        },
        None => {},
    }
    match value {
        JsonValue::Object(_) => {},
        _ => return Err(string_of("picture effect color must be an object or CSS #RRGGBB string")),
    }
    let color_type = alias_string(value, "type", "color_type");
    let scheme_idx = alias_string(value, "scheme_idx", "schemeIdx");
    let system_idx = alias_string(value, "system_idx", "systemIdx");
    let preset_idx = alias_string(value, "preset_idx", "presetIdx");
    let rgb = match rgb_field(value) {
        Ok(e) => e,
        Err(m) => return Err(m),
    };
    let raw_child_xml = match raw_children(value) {
        Ok(v) => v,
        Err(m) => return Err(m),
    };
    let hex = match first_of4(value, "color_hex", "colorHex", "rgb_hex", "rgbHex") {
        Some(h) => effect_rgb_from_color_hex_value(h),
        None => None,
    };
    match hex {
        Some(e) => Ok(
            EffectColor {
                color_type: fill_text(color_type, "RGB"),
                scheme_idx: fill_text(scheme_idx, "-1"),
                system_idx: fill_text(system_idx, "-1"),
                preset_idx: fill_text(preset_idx, "-1"),
                rgb: Some(e),
                raw_child_xml,
            },
        ),
        None => Ok(EffectColor { color_type, scheme_idx, system_idx, preset_idx, rgb, raw_child_xml }),
    }
}

/// The effect colour under `color` or `effectsColor`, unless absent or
/// `null`.
pub open spec fn color_field_spec(value: JsonValue) -> Result<Option<EffectColorView>, Seq<char>> {
    match non_null(first_of(value, seq!["color"@, "effectsColor"@])) {
        Some(v) => match effect_color_spec(v) {
            Ok(c) => Ok(Some(c)),
            Err(e) => Err(e),
        },
        None => Ok(None),
    }
}

fn color_field(value: &JsonValue) -> (r: Result<Option<EffectColor>, String>)
    ensures
        match r {
            Ok(c) => color_field_spec(*value) == Ok::<Option<EffectColorView>, Seq<char>>(opt_color_view(c)),
            Err(e) => color_field_spec(*value) == Err::<Option<EffectColorView>, Seq<char>>(e@),
        },
{
    match present2(value, "color", "effectsColor") {
        Some(v) => match effect_color_from_json(v) {
            Ok(c) => Ok(Some(c)),
            Err(e) => Err(e),
        },
        None => Ok(None),
    }
}

// ---------------------------------------------------------------------------
// Shadow, glow, soft edge, blur
// ---------------------------------------------------------------------------

/// A shadow effect as texts.
pub struct ShadowView {
    pub style: Option<Seq<char>>,
    pub alpha: Option<Seq<char>>,
    pub radius: Option<Seq<char>>,
    pub direction: Option<Seq<char>>,
    pub distance: Option<Seq<char>>,
    pub align_style: Option<Seq<char>>,
    pub rotation_style: Option<Seq<char>>,
    pub skew: Option<TextPair>,
    pub scale: Option<TextPair>,
    pub color: Option<EffectColorView>,
    pub raw_child_xml: Seq<Seq<char>>,
}

/// A shadow effect as texts.
pub open spec fn shadow_view(s: PictureShadow) -> ShadowView {
    ShadowView {
        style: opt_view(s.style),
        alpha: opt_view(s.alpha),
        radius: opt_view(s.radius),
        direction: opt_view(s.direction),
        distance: opt_view(s.distance),
        align_style: opt_view(s.align_style),
        rotation_style: opt_view(s.rotation_style),
        skew: opt_point_view(s.skew),
        scale: opt_point_view(s.scale),
        color: opt_color_view(s.color),
        raw_child_xml: strings_view(s.raw_child_xml@),
    }
}

/// A shadow effect read from a JSON object; the first refused field gives
/// the error (skew, scale, colour, raw child XML, in that order).
pub open spec fn shadow_spec(value: JsonValue) -> Result<ShadowView, Seq<char>> {
    if !(value is Object) {
        Err("picture effects.shadow must be an object"@)
    } else {
        match point_field_spec(value, "skew"@, "skew"@) {
            Err(e) => Err(e),
            Ok(skew) => match point_field_spec(value, "scale"@, "scale"@) {
                Err(e) => Err(e),
                Ok(scale) => match color_field_spec(value) {
                    Err(e) => Err(e),
                    Ok(color) => match raw_children_spec(value) {
                        Err(e) => Err(e),
                        Ok(raw) => Ok(
                            ShadowView {
                                style: field_text(value, "style"@),
                                alpha: field_text(value, "alpha"@),
                                radius: field_text(value, "radius"@),
                                direction: field_text(value, "direction"@),
                                distance: field_text(value, "distance"@),
                                align_style: alias_text(value, "align_style"@, "alignStyle"@),
                                rotation_style: alias_text(value, "rotation_style"@, "rotationStyle"@),
                                skew,
                                scale,
                                color,
                                raw_child_xml: raw,
                            },
                        ),
                    },
                },
            },
        }
    }
}

/// A shadow effect from JSON (see `shadow_spec`).
pub fn picture_shadow_from_json(value: &JsonValue) -> (r: Result<PictureShadow, String>)
    ensures
        match r {
            Ok(s) => shadow_spec(*value) == Ok::<ShadowView, Seq<char>>(shadow_view(s)),
            Err(e) => shadow_spec(*value) == Err::<ShadowView, Seq<char>>(e@),
        },
{
    match value {
        JsonValue::Object(_) => {},
        _ => return Err(string_of("picture effects.shadow must be an object")),
    }
    let style = json_string_field(value, "style");
    let alpha = json_string_field(value, "alpha");
    let radius = json_string_field(value, "radius");
    let direction = json_string_field(value, "direction");
    let distance = json_string_field(value, "distance");
    let align_style = alias_string(value, "align_style", "alignStyle");
    let rotation_style = alias_string(value, "rotation_style", "rotationStyle");
    let skew = match point_field(value, "skew", "skew") {
        Ok(p) => p,
        Err(e) => return Err(e),
    };
    let scale = match point_field(value, "scale", "scale") {
        Ok(p) => p,
        Err(e) => return Err(e),
    };
    let color = match color_field(value) {
        Ok(c) => c,
        Err(e) => return Err(e),
    };
    let raw_child_xml = match raw_children(value) {
        Ok(v) => v,
        Err(e) => return Err(e),
    };
    Ok(
        PictureShadow {
            style,
            alpha,
            radius,
            direction,
            distance,
            align_style,
            rotation_style,
            skew,
            scale,
            color,
            raw_child_xml,
        },
    )
}

/// A glow effect as texts.
pub struct GlowView {
    pub alpha: Option<Seq<char>>,
    pub radius: Option<Seq<char>>,
    pub color: Option<EffectColorView>,
    pub raw_child_xml: Seq<Seq<char>>,
}

/// A glow effect as texts.
pub open spec fn glow_view(g: PictureGlow) -> GlowView {
    GlowView {
        alpha: opt_view(g.alpha),
        radius: opt_view(g.radius),
        color: opt_color_view(g.color),
        raw_child_xml: strings_view(g.raw_child_xml@),
    }
}

/// A glow effect read from a JSON object.
pub open spec fn glow_spec(value: JsonValue) -> Result<GlowView, Seq<char>> {
    if !(value is Object) {
        Err("picture effects.glow must be an object"@)
    } else {
        match color_field_spec(value) {
            Err(e) => Err(e),
            Ok(color) => match raw_children_spec(value) {
                Err(e) => Err(e),
                Ok(raw) => Ok(
                    GlowView {
                        alpha: field_text(value, "alpha"@),
                        radius: field_text(value, "radius"@),
                        color,
                        raw_child_xml: raw,
                    },
                ),
            },
        }
    }
}

/// A glow effect from JSON (see `glow_spec`).
pub fn picture_glow_from_json(value: &JsonValue) -> (r: Result<PictureGlow, String>)
    ensures
        match r {
            Ok(g) => glow_spec(*value) == Ok::<GlowView, Seq<char>>(glow_view(g)),
            Err(e) => glow_spec(*value) == Err::<GlowView, Seq<char>>(e@),
        },
{
    match value {
        JsonValue::Object(_) => {},
        _ => return Err(string_of("picture effects.glow must be an object")),
    }
    let alpha = json_string_field(value, "alpha");
    let radius = json_string_field(value, "radius");
    let color = match color_field(value) {
        Ok(c) => c,
        Err(e) => return Err(e),
    };
    let raw_child_xml = match raw_children(value) {
        Ok(v) => v,
        Err(e) => return Err(e),
    };
    Ok(PictureGlow { alpha, radius, color, raw_child_xml })
}

/// A radius-only effect (soft edge or blur) as texts: the radius and the
/// raw child XML.
pub type RadiusView = (Option<Seq<char>>, Seq<Seq<char>>);

/// A radius-only effect read from a JSON object; `refusal` is the message
/// for a value that is no object.
pub open spec fn radius_effect_spec(value: JsonValue, refusal: Seq<char>) -> Result<RadiusView, Seq<char>> {
    if !(value is Object) {
        Err(refusal)
    } else {
        match raw_children_spec(value) {
            Err(e) => Err(e),
            Ok(raw) => Ok((field_text(value, "radius"@), raw)),
        }
    }
}

/// A soft-edge effect from JSON.
pub fn picture_soft_edge_from_json(value: &JsonValue) -> (r: Result<PictureSoftEdge, String>)
    ensures
        match r {
            Ok(s) => radius_effect_spec(*value, "picture effects.soft_edge must be an object"@) == Ok::<
                RadiusView,
                Seq<char>,
            >((opt_view(s.radius), strings_view(s.raw_child_xml@))),
            Err(e) => radius_effect_spec(*value, "picture effects.soft_edge must be an object"@) == Err::<
                RadiusView,
                Seq<char>,
            >(e@),
        },
{
    match value {
        JsonValue::Object(_) => {},
        _ => return Err(string_of("picture effects.soft_edge must be an object")),
    }
    let radius = json_string_field(value, "radius");
    let raw_child_xml = match raw_children(value) {
        Ok(v) => v,
        Err(e) => return Err(e),
    };
    Ok(PictureSoftEdge { radius, raw_child_xml })
}

/// A blur effect from JSON.
pub fn picture_blur_from_json(value: &JsonValue) -> (r: Result<PictureBlur, String>)
    ensures
        match r {
            Ok(s) => radius_effect_spec(*value, "picture effects.blur must be an object"@) == Ok::<
                RadiusView,
                Seq<char>,
            >((opt_view(s.radius), strings_view(s.raw_child_xml@))),
            Err(e) => radius_effect_spec(*value, "picture effects.blur must be an object"@) == Err::<
                RadiusView,
                Seq<char>,
            >(e@),
        },
{
    match value {
        JsonValue::Object(_) => {},
        _ => return Err(string_of("picture effects.blur must be an object")),
    }
    let radius = json_string_field(value, "radius");
    let raw_child_xml = match raw_children(value) {
        Ok(v) => v,
        Err(e) => return Err(e),
    };
    Ok(PictureBlur { radius, raw_child_xml })
}

// ---------------------------------------------------------------------------
// Reflection
// ---------------------------------------------------------------------------

/// A reflection effect as texts.
pub struct ReflectionView {
    pub align_style: Option<Seq<char>>,
    pub radius: Option<Seq<char>>,
    pub direction: Option<Seq<char>>,
    pub distance: Option<Seq<char>>,
    pub rotation_style: Option<Seq<char>>,
    pub fade_direction: Option<Seq<char>>,
    pub skew: Option<TextPair>,
    pub scale: Option<TextPair>,
    pub color: Option<EffectColorView>,
    pub alpha: Option<TextPair>,
    pub pos: Option<TextPair>,
    pub raw_child_xml: Seq<Seq<char>>,
}

/// A reflection effect as texts.
pub open spec fn reflection_view(r: PictureReflection) -> ReflectionView {
    ReflectionView {
        align_style: opt_view(r.align_style),
        radius: opt_view(r.radius),
        direction: opt_view(r.direction),
        distance: opt_view(r.distance),
        rotation_style: opt_view(r.rotation_style),
        fade_direction: opt_view(r.fade_direction),
        skew: opt_point_view(r.skew),
        scale: opt_point_view(r.scale),
        color: opt_color_view(r.color),
        alpha: opt_range_view(r.alpha),
        pos: opt_range_view(r.pos),
        raw_child_xml: strings_view(r.raw_child_xml@),
    }
}

/// A reflection effect read from a JSON object; the first refused field
/// gives the error (skew, scale, colour, alpha, pos, raw child XML).
pub open spec fn reflection_spec(value: JsonValue) -> Result<ReflectionView, Seq<char>> {
    if !(value is Object) {
        Err("picture effects.reflection must be an object"@)
    } else {
        match point_field_spec(value, "skew"@, "skew"@) {
            Err(e) => Err(e),
            Ok(skew) => match point_field_spec(value, "scale"@, "scale"@) {
                Err(e) => Err(e),
                Ok(scale) => match color_field_spec(value) {
                    Err(e) => Err(e),
                    Ok(color) => match range_field_spec(value, "alpha"@, "alpha"@) {
                        Err(e) => Err(e),
                        Ok(alpha) => match range_field_spec(value, "pos"@, "pos"@) {
                            Err(e) => Err(e),
                            Ok(pos) => match raw_children_spec(value) {
                                Err(e) => Err(e),
                                Ok(raw) => Ok(
                                    ReflectionView {
                                        align_style: alias_text(value, "align_style"@, "alignStyle"@),
                                        radius: field_text(value, "radius"@),
                                        direction: field_text(value, "direction"@),
                                        distance: field_text(value, "distance"@),
                                        rotation_style: alias_text(
                                            value,
                                            "rotation_style"@,
                                            "rotationStyle"@,
                                        ),
                                        fade_direction: alias_text(
                                            value,
                                            "fade_direction"@,
                                            "fadeDirection"@,
                                        ),
                                        skew,
                                        scale,
                                        color,
                                        alpha,
                                        pos,
                                        raw_child_xml: raw,
                                    },
                                ),
                            },
                        },
                    },
                },
            },
        }
    }
}

/// A reflection effect from JSON (see `reflection_spec`).
pub fn picture_reflection_from_json(value: &JsonValue) -> (r: Result<PictureReflection, String>)
    ensures
        match r {
            Ok(x) => reflection_spec(*value) == Ok::<ReflectionView, Seq<char>>(reflection_view(x)),
            Err(e) => reflection_spec(*value) == Err::<ReflectionView, Seq<char>>(e@),
        },
{
    match value {
        JsonValue::Object(_) => {},
        _ => return Err(string_of("picture effects.reflection must be an object")),
    }
    let align_style = alias_string(value, "align_style", "alignStyle");
    let radius = json_string_field(value, "radius");
    let direction = json_string_field(value, "direction");
    let distance = json_string_field(value, "distance");
    let rotation_style = alias_string(value, "rotation_style", "rotationStyle");
    let fade_direction = alias_string(value, "fade_direction", "fadeDirection");
    let skew = match point_field(value, "skew", "skew") {
        Ok(p) => p,
        Err(e) => return Err(e),
    };
    let scale = match point_field(value, "scale", "scale") {
        Ok(p) => p,
        Err(e) => return Err(e),
    };
    let color = match color_field(value) {
        Ok(c) => c,
        Err(e) => return Err(e),
    };
    let alpha = match range_field(value, "alpha", "alpha") {
        Ok(p) => p,
        Err(e) => return Err(e),
    };
    let pos = match range_field(value, "pos", "pos") {
        Ok(p) => p,
        Err(e) => return Err(e),
    };
    let raw_child_xml = match raw_children(value) {
        Ok(v) => v,
        Err(e) => return Err(e),
    };
    Ok(
        PictureReflection {
            align_style,
            radius,
            direction,
            distance,
            rotation_style,
            fade_direction,
            skew,
            scale,
            color,
            alpha,
            pos,
            raw_child_xml,
        },
    )
}

// ---------------------------------------------------------------------------
// Fill overlay
// ---------------------------------------------------------------------------

/// A solid fill as texts.
pub struct SolidFillView {
    pub color: Option<Seq<char>>,
    pub effect_color: Option<EffectColorView>,
    pub raw_child_xml: Seq<Seq<char>>,
}

/// A solid fill as texts.
pub open spec fn solid_fill_view(f: PictureSolidFill) -> SolidFillView {
    SolidFillView {
        color: opt_view(f.color),
        effect_color: opt_color_view(f.effect_color),
        raw_child_xml: strings_view(f.raw_child_xml@),
    }
}

/// The colour text of a solid fill: under `color_hex` or `colorHex`, else
/// a `color` that is no object, as text.
pub open spec fn solid_color_text(value: JsonValue) -> Option<Seq<char>> {
    match alias_text(value, "color_hex"@, "colorHex"@) {
        Some(t) => Some(t),
        None => match json_get_spec(value, "color"@) {
            Some(c) => if c is Object {
                None
            } else {
                scalar_text(c)
            },
            None => None,
        },
    }
}

/// The effect colour of a solid fill: a `color` object, else a non-null
/// `effectsColor`.
pub open spec fn solid_effect_color_source(value: JsonValue) -> Option<JsonValue> {
    match json_get_spec(value, "color"@) {
        Some(c) => if c is Object {
            Some(c)
        } else {
            non_null(json_get_spec(value, "effectsColor"@))
        },
        None => non_null(json_get_spec(value, "effectsColor"@)),
    }
}

/// A solid fill read from JSON: a scalar is its colour text; an object
/// gives a colour text, an effect colour and raw child XML.
pub open spec fn solid_fill_spec(value: JsonValue) -> Result<SolidFillView, Seq<char>> {
    match scalar_text(value) {
        Some(t) => Ok(SolidFillView { color: Some(t), effect_color: None, raw_child_xml: Seq::empty() }),
        None => if !(value is Object) {
            Err("picture effects.fillOverlay.solid_fill must be an object"@)
        } else {
            let effect_color: Result<Option<EffectColorView>, Seq<char>> = match solid_effect_color_source(value) {
                Some(v) => match effect_color_spec(v) {
                    Ok(c) => Ok(Some(c)),
                    Err(e) => Err(e),
                },
                None => Ok(None),
            };
            match effect_color {
                Err(e) => Err(e),
                Ok(effect_color) => match raw_children_spec(value) {
                    Err(e) => Err(e),
                    Ok(raw) => Ok(
                        SolidFillView { color: solid_color_text(value), effect_color, raw_child_xml: raw },
                    ),
                },
            }
        },
    }
}

/// A solid fill from JSON (see `solid_fill_spec`).
pub fn picture_solid_fill_from_json(value: &JsonValue) -> (r: Result<PictureSolidFill, String>)
    ensures
        match r {
            Ok(f) => solid_fill_spec(*value) == Ok::<SolidFillView, Seq<char>>(solid_fill_view(f)),
            Err(e) => solid_fill_spec(*value) == Err::<SolidFillView, Seq<char>>(e@),
        },
{
    match json_scalar_string(value) {
        Some(color) => {
            let f = PictureSolidFill { color: Some(color), effect_color: None, raw_child_xml: Vec::new() };
            assert(strings_view(f.raw_child_xml@) =~= Seq::<Seq<char>>::empty());
            return Ok(f);
        },
        None => {},
    }
    match value {
        JsonValue::Object(_) => {},
        _ => return Err(string_of("picture effects.fillOverlay.solid_fill must be an object")),
    }
    let color_value = value.get("color");
    let color = match alias_string(value, "color_hex", "colorHex") {
        Some(t) => Some(t),
        None => match color_value {
            Some(JsonValue::Object(_)) => None,
            Some(c) => json_scalar_string(c),
            None => None,
        },
    };
    let source = match color_value {
        Some(JsonValue::Object(_)) => color_value,
        _ => present1(value, "effectsColor"),
    };
    let effect_color = match source {
        Some(v) => match effect_color_from_json(v) {
            Ok(c) => Some(c),
            Err(e) => return Err(e),
        },
        None => None,
    };
    let raw_child_xml = match raw_children(value) {
        Ok(v) => v,
        Err(e) => return Err(e),
    };
    Ok(PictureSolidFill { color, effect_color, raw_child_xml })
}

/// A fill overlay as texts.
pub struct FillOverlayView {
    pub blend: Option<Seq<char>>,
    pub solid_fill: Option<SolidFillView>,
    pub raw_child_xml: Seq<Seq<char>>,
}

/// A fill overlay as texts.
pub open spec fn fill_overlay_view(f: PictureFillOverlay) -> FillOverlayView {
    FillOverlayView {
        blend: opt_view(f.blend),
        solid_fill: match f.solid_fill {
            Some(s) => Some(solid_fill_view(s)),
            None => None,
        },
        raw_child_xml: strings_view(f.raw_child_xml@),
    }
}

/// A fill overlay read from a JSON object: its blend text, its solid fill
/// (under `solid_fill` or `solidFill`) and raw child XML.
pub open spec fn fill_overlay_spec(value: JsonValue) -> Result<FillOverlayView, Seq<char>> {
    if !(value is Object) {
        Err("picture effects.fillOverlay must be an object"@)
    } else {
        let solid: Result<Option<SolidFillView>, Seq<char>> = match non_null(
            first_of(value, seq!["solid_fill"@, "solidFill"@]),
        ) {
            Some(v) => match solid_fill_spec(v) {
                Ok(f) => Ok(Some(f)),
                Err(e) => Err(e),
            },
            None => Ok(None),
        };
        match solid {
            Err(e) => Err(e),
            Ok(solid_fill) => match raw_children_spec(value) {
                Err(e) => Err(e),
                Ok(raw) => Ok(
                    FillOverlayView { blend: field_text(value, "blend"@), solid_fill, raw_child_xml: raw },
                ),
            },
        }
    }
}

/// A fill overlay from JSON (see `fill_overlay_spec`).
pub fn picture_fill_overlay_from_json(value: &JsonValue) -> (r: Result<PictureFillOverlay, String>)
    ensures
        match r {
            Ok(f) => fill_overlay_spec(*value) == Ok::<FillOverlayView, Seq<char>>(fill_overlay_view(f)),
            Err(e) => fill_overlay_spec(*value) == Err::<FillOverlayView, Seq<char>>(e@),
        },
{
    match value {
        JsonValue::Object(_) => {},
        _ => return Err(string_of("picture effects.fillOverlay must be an object")),
    }
    let blend = json_string_field(value, "blend");
    let solid_fill = match present2(value, "solid_fill", "solidFill") {
        Some(v) => match picture_solid_fill_from_json(v) {
            Ok(f) => Some(f),
            Err(e) => return Err(e),
        },
        None => None,
    };
    let raw_child_xml = match raw_children(value) {
        Ok(v) => v,
        Err(e) => return Err(e),
    };
    Ok(PictureFillOverlay { blend, solid_fill, raw_child_xml })
}

// ---------------------------------------------------------------------------
// 3D effect
// ---------------------------------------------------------------------------

/// An effect child's attributes read from JSON: a scalar gives its `type`;
/// an object gives its XML attributes.
pub open spec fn effect_child_spec(value: JsonValue) -> Result<Map<Seq<char>, Seq<char>>, Seq<char>> {
    match scalar_text(value) {
        Some(t) => Ok(Map::empty().insert("type"@, t)),
        None => if value is Object {
            Ok(xml_attr_map_spec(value, Seq::empty()))
        } else {
            Err("picture effect child must be an object or string"@)
        },
    }
}

/// An effect child from JSON (see `effect_child_spec`).
pub fn picture_effect_child_from_json(value: &JsonValue) -> (r: Result<PictureEffectChild, String>)
    ensures
        match r {
            Ok(c) => c.attrs.wf() && effect_child_spec(*value) == Ok::<Map<Seq<char>, Seq<char>>, Seq<char>>(c.attrs@),
            Err(e) => effect_child_spec(*value) == Err::<Map<Seq<char>, Seq<char>>, Seq<char>>(e@),
        },
{
    match json_scalar_string(value) {
        Some(child_type) => {
            let mut attrs = XmlAttrs::new();
            attrs.insert(string_of("type"), child_type);
            return Ok(PictureEffectChild { attrs });
        },
        None => {},
    }
    match value {
        JsonValue::Object(_) => {},
        _ => return Err(string_of("picture effect child must be an object or string")),
    }
    let none: [&str; 0] = [];
    let attrs = drawing_style_xml_attr_map(value, &none);
    assert(none@.map_values(|s: &str| s@) =~= Seq::<Seq<char>>::empty());
    Ok(PictureEffectChild { attrs })
}

/// A 3D effect as its attributes, bevel attributes and raw child XML.
pub struct ThreeDView {
    pub attrs: Map<Seq<char>, Seq<char>>,
    pub bevel: Option<Map<Seq<char>, Seq<char>>>,
    pub raw_child_xml: Seq<Seq<char>>,
}

/// A 3D effect as its attributes, bevel attributes and raw child XML.
pub open spec fn three_d_view(t: PictureThreeD) -> ThreeDView {
    ThreeDView {
        attrs: t.attrs@,
        bevel: match t.bevel {
            Some(b) => Some(b.attrs@),
            None => None,
        },
        raw_child_xml: strings_view(t.raw_child_xml@),
    }
}

/// The keys of a 3D effect that are no XML attributes of it.
pub open spec fn three_d_skip_keys() -> Seq<Seq<char>> {
    seq![
        "bevel"@,
        "bevelType"@,
        "bevel_type"@,
        "raw_child_xml"@,
        "rawChildXml"@,
        "raw_children_xml"@,
        "rawChildrenXml"@,
    ]
}

/// A 3D effect read from a JSON object: its XML attributes, raw child XML,
/// and a bevel given as an effect child under `bevel`, else as a type text
/// under `bevelType` or `bevel_type`.
pub open spec fn three_d_spec(value: JsonValue) -> Result<ThreeDView, Seq<char>> {
    if !(value is Object) {
        Err("picture effects.threeD must be an object"@)
    } else {
        match raw_children_spec(value) {
            Err(e) => Err(e),
            Ok(raw) => {
                let attrs = xml_attr_map_spec(value, three_d_skip_keys());
                match non_null(json_get_spec(value, "bevel"@)) {
                    Some(b) => match effect_child_spec(b) {
                        Ok(m) => Ok(ThreeDView { attrs, bevel: Some(m), raw_child_xml: raw }),
                        Err(e) => Err(e),
                    },
                    None => match alias_text(value, "bevelType"@, "bevel_type"@) {
                        Some(t) => Ok(
                            ThreeDView {
                                attrs,
                                bevel: Some(Map::empty().insert("type"@, t)),
                                raw_child_xml: raw,
                            },
                        ),
                        None => Ok(ThreeDView { attrs, bevel: None, raw_child_xml: raw }),
                    },
                }
            },
        }
    }
}

/// A 3D effect from JSON (see `three_d_spec`).
pub fn picture_three_d_from_json(value: &JsonValue) -> (r: Result<PictureThreeD, String>)
    ensures
        match r {
            Ok(t) => t.attrs.wf() && three_d_spec(*value) == Ok::<ThreeDView, Seq<char>>(three_d_view(t)),
            Err(e) => three_d_spec(*value) == Err::<ThreeDView, Seq<char>>(e@),
        },
{
    match value {
        JsonValue::Object(_) => {},
        _ => return Err(string_of("picture effects.threeD must be an object")),
    }
    let skip = [
        "bevel",
        "bevelType",
        "bevel_type",
        "raw_child_xml",
        "rawChildXml",
        "raw_children_xml",
        "rawChildrenXml",
    ];
    let attrs = drawing_style_xml_attr_map(value, &skip);
    assert(skip@.map_values(|s: &str| s@) =~= three_d_skip_keys());
    let raw_child_xml = match raw_children(value) {
        Ok(v) => v,
        Err(e) => return Err(e),
    };
    let bevel = match present1(value, "bevel") {
        Some(b) => match picture_effect_child_from_json(b) {
            Ok(c) => Some(c),
            Err(e) => return Err(e),
        },
        None => match alias_string(value, "bevelType", "bevel_type") {
            Some(t) => {
                let mut attrs = XmlAttrs::new();
                attrs.insert(string_of("type"), t);
                Some(PictureEffectChild { attrs })
            },
            None => None,
        },
    };
    Ok(PictureThreeD { attrs, bevel, raw_child_xml })
}

// ---------------------------------------------------------------------------
// All picture effects
// ---------------------------------------------------------------------------

/// A field read by `read` when present: nothing when absent, else what the
/// reader gives or the error it refuses with.
pub open spec fn lift<T>(v: Option<JsonValue>, read: spec_fn(JsonValue) -> Result<T, Seq<char>>) -> Result<Option<T>, Seq<char>> {
    match v {
        Some(x) => match read(x) {
            Ok(t) => Ok(Some(t)),
            Err(e) => Err(e),
        },
        None => Ok(None),
    }
}

/// Picture effects as texts.
pub struct EffectsView {
    pub shadow: Option<ShadowView>,
    pub glow: Option<GlowView>,
    pub soft_edge: Option<RadiusView>,
    pub reflection: Option<ReflectionView>,
    pub three_d: Option<ThreeDView>,
    pub blur: Option<RadiusView>,
    pub fill_overlay: Option<FillOverlayView>,
    pub raw_xml: Seq<Seq<char>>,
}

/// Picture effects as texts.
pub open spec fn effects_view(e: PictureEffects) -> EffectsView {
    EffectsView {
        shadow: match e.shadow {
            Some(x) => Some(shadow_view(x)),
            None => None,
        },
        glow: match e.glow {
            Some(x) => Some(glow_view(x)),
            None => None,
        },
        soft_edge: match e.soft_edge {
            Some(x) => Some((opt_view(x.radius), strings_view(x.raw_child_xml@))),
            None => None,
        },
        reflection: match e.reflection {
            Some(x) => Some(reflection_view(x)),
            None => None,
        },
        three_d: match e.three_d {
            Some(x) => Some(three_d_view(x)),
            None => None,
        },
        blur: match e.blur {
            Some(x) => Some((opt_view(x.radius), strings_view(x.raw_child_xml@))),
            None => None,
        },
        fill_overlay: match e.fill_overlay {
            Some(x) => Some(fill_overlay_view(x)),
            None => None,
        },
        raw_xml: strings_view(e.raw_xml@),
    }
}

/// No picture effects.
pub open spec fn no_effects() -> EffectsView {
    EffectsView {
        shadow: None,
        glow: None,
        soft_edge: None,
        reflection: None,
        three_d: None,
        blur: None,
        fill_overlay: None,
        raw_xml: Seq::empty(),
    }
}

/// The keys under which the raw effect XML list may stand.
pub open spec fn raw_xml_keys() -> Seq<&'static str> {
    seq!["raw_xml", "rawXml", "effectsRawXml"]
}

/// Picture effects read from JSON: none for an absent or `null` value; an
/// object gives each effect under its keys (each reader's first refusal,
/// in the order shadow, glow, soft edge, reflection, 3D, blur, fill
/// overlay, raw XML, is the error).
pub open spec fn effects_spec(effects: Option<JsonValue>) -> Result<EffectsView, Seq<char>> {
    match non_null(effects) {
        None => Ok(no_effects()),
        Some(e) => match e {
            JsonValue::Object(members) => match lift(
                non_null(first_of(e, seq!["shadow"@, "picture_shadow"@])),
                |v: JsonValue| shadow_spec(v),
            ) {
                Err(x) => Err(x),
                Ok(shadow) => match lift(non_null(json_get_spec(e, "glow"@)), |v: JsonValue| glow_spec(v)) {
                    Err(x) => Err(x),
                    Ok(glow) => match lift(
                        non_null(first_of(e, seq!["soft_edge"@, "softEdge"@])),
                        |v: JsonValue| radius_effect_spec(v, "picture effects.soft_edge must be an object"@),
                    ) {
                        Err(x) => Err(x),
                        Ok(soft_edge) => match lift(
                            non_null(json_get_spec(e, "reflection"@)),
                            |v: JsonValue| reflection_spec(v),
                        ) {
                            Err(x) => Err(x),
                            Ok(reflection) => match lift(
                                non_null(
                                    first_of(e, seq!["threeD"@, "three_d"@, "pictureThreeD"@, "picture_three_d"@]),
                                ),
                                |v: JsonValue| three_d_spec(v),
                            ) {
                                Err(x) => Err(x),
                                Ok(three_d) => match lift(
                                    non_null(first_of(e, seq!["blur"@, "pictureBlur"@, "picture_blur"@])),
                                    |v: JsonValue| radius_effect_spec(v, "picture effects.blur must be an object"@),
                                ) {
                                    Err(x) => Err(x),
                                    Ok(blur) => match lift(
                                        non_null(
                                            first_of(
                                                e,
                                                seq![
                                                    "fillOverlay"@,
                                                    "fill_overlay"@,
                                                    "pictureFillOverlay"@,
                                                    "picture_fill_overlay"@,
                                                ],
                                            ),
                                        ),
                                        |v: JsonValue| fill_overlay_spec(v),
                                    ) {
                                        Err(x) => Err(x),
                                        Ok(fill_overlay) => match string_array_alias_spec(members@, raw_xml_keys()) {
                                            Err(x) => Err(x),
                                            Ok(raw_xml) => Ok(
                                                EffectsView {
                                                    shadow,
                                                    glow,
                                                    soft_edge,
                                                    reflection,
                                                    three_d,
                                                    blur,
                                                    fill_overlay,
                                                    raw_xml,
                                                },
                                            ),
                                        },
                                    },
                                },
                            },
                        },
                    },
                },
            },
            _ => Err("picture effects must be an object"@),
        },
    }
}

/// Picture effects from JSON (see `effects_spec`).
pub fn picture_effects_from_json(effects: Option<&JsonValue>) -> (r: Result<PictureEffects, String>)
    ensures
        match r {
            Ok(e) => effects_spec(match effects {
                Some(v) => Some(*v),
                None => None,
            }) == Ok::<EffectsView, Seq<char>>(effects_view(e)),
            Err(m) => effects_spec(match effects {
                Some(v) => Some(*v),
                None => None,
            }) == Err::<EffectsView, Seq<char>>(m@),
        },
{
    let e = match not_null(effects) {
        Some(e) => e,
        None => {
            let none = PictureEffects {
                shadow: None,
                glow: None,
                soft_edge: None,
                reflection: None,
                three_d: None,
                blur: None,
                fill_overlay: None,
                raw_xml: Vec::new(),
            };
            assert(strings_view(none.raw_xml@) =~= Seq::<Seq<char>>::empty());
            return Ok(none);
        },
    };
    let members = match e {
        JsonValue::Object(members) => members,
        _ => return Err(string_of("picture effects must be an object")),
    };
    let shadow = match present2(e, "shadow", "picture_shadow") {
        Some(v) => match picture_shadow_from_json(v) {
            Ok(x) => Some(x),
            Err(m) => return Err(m),
        },
        None => None,
    };
    let glow = match present1(e, "glow") {
        Some(v) => match picture_glow_from_json(v) {
            Ok(x) => Some(x),
            Err(m) => return Err(m),
        },
        None => None,
    };
    let soft_edge = match present2(e, "soft_edge", "softEdge") {
        Some(v) => match picture_soft_edge_from_json(v) {
            Ok(x) => Some(x),
            Err(m) => return Err(m),
        },
        None => None,
    };
    let reflection = match present1(e, "reflection") {
        Some(v) => match picture_reflection_from_json(v) {
            Ok(x) => Some(x),
            Err(m) => return Err(m),
        },
        None => None,
    };
    let three_d = match not_null(first_of4(e, "threeD", "three_d", "pictureThreeD", "picture_three_d")) {
        Some(v) => match picture_three_d_from_json(v) {
            Ok(x) => Some(x),
            Err(m) => return Err(m),
        },
        None => None,
    };
    let blur = match not_null(first_of3(e, "blur", "pictureBlur", "picture_blur")) {
        Some(v) => match picture_blur_from_json(v) {
            Ok(x) => Some(x),
            Err(m) => return Err(m),
        },
        None => None,
    };
    let fill_overlay = match not_null(
        first_of4(e, "fillOverlay", "fill_overlay", "pictureFillOverlay", "picture_fill_overlay"),
    ) {
        Some(v) => match picture_fill_overlay_from_json(v) {
            Ok(x) => Some(x),
            Err(m) => return Err(m),
        },
        None => None,
    };
    let keys = ["raw_xml", "rawXml", "effectsRawXml"];
    assert(keys@ =~= raw_xml_keys());
    let raw_xml = match json_string_array_alias(members, &keys) {
        Ok(v) => v,
        Err(m) => return Err(m),
    };
    Ok(PictureEffects { shadow, glow, soft_edge, reflection, three_d, blur, fill_overlay, raw_xml })
}

} // verus!
