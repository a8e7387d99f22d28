//! JSON fields of drawing objects in a template: effect points and ranges,
//! geometry points and arrays, picture layout points and border lines.

use crate::document_core::builders::document_template::effect_writer::{
    insert_member, new_members, text_member,
};
use crate::document_core::builders::document_template::names::{
    border_line_type_from_code, border_line_type_from_code_spec, border_line_type_from_name,
    border_line_type_from_name_spec, border_line_type_name, border_line_type_name_spec,
    lemma_border_line_type_from_name_of_border_line_type_name,
};
use crate::document_core::builders::document_template::objects::{
    color_ref_hex_spec, color_ref_to_hex, opt_view,
};
use crate::json_value::{
    as_i64_spec, as_u64_spec, color_keys_spec, field_text, first_field, json_color_ref_alias,
    json_from_i64, json_from_u64, json_get_spec, json_i32, json_signed_spec, json_string_alias,
    json_string_field, json_u16, json_u8, json_unsigned_spec, members_get, scalar_text,
    JsonNumber, JsonValue,
};
use crate::model::{BorderLine, BorderLineType, ConnectorControlPoint, EffectPoint, EffectRange, Point};
use crate::text::{push_str, string_of};
use vstd::prelude::*;

verus! {

/// The text of the scalar field under the first of two keys that `value`
/// has.
pub open spec fn alias_text(value: JsonValue, first: Seq<char>, second: Seq<char>) -> Option<Seq<char>> {
    match json_get_spec(value, first) {
        Some(v) => scalar_text(v),
        None => match json_get_spec(value, second) {
            Some(v) => scalar_text(v),
            None => None,
        },
    }
}

pub(crate) fn alias_string(value: &JsonValue, first: &str, second: &str) -> (r: Option<String>)
    ensures
        opt_view(r) == alias_text(*value, first@, second@),
{
    let keys = [first, second];
    let r = json_string_alias(value, &keys);
    proof {
        assert(keys@ =~= seq![first, second]);
        assert(keys@.drop_first() =~= seq![second]);
        assert(keys@.drop_first().drop_first() =~= Seq::<&str>::empty());
        reveal_with_fuel(first_field, 3);
    }
    r
}

// ---------------------------------------------------------------------------
// Picture-effect points and ranges
// ---------------------------------------------------------------------------

/// Two optional texts: the components of an effect point or range.
pub type TextPair = (Option<Seq<char>>, Option<Seq<char>>);

/// An effect point as its two component texts.
pub open spec fn point_view(p: EffectPoint) -> TextPair {
    (opt_view(p.x), opt_view(p.y))
}

/// An effect range as its start and end texts.
pub open spec fn range_view(p: EffectRange) -> TextPair {
    (opt_view(p.start), opt_view(p.end))
}

/// A picture-effect point read from JSON: an object's `x` and `y` texts.
pub open spec fn effect_point_spec(value: JsonValue) -> Result<TextPair, Seq<char>> {
    if value is Object {
        Ok((field_text(value, "x"@), field_text(value, "y"@)))
    } else {
        Err("picture effect point must be an object"@)
    }
}

/// A picture-effect range read from JSON: an object's `start` and `end`
/// texts.
pub open spec fn effect_range_spec(value: JsonValue) -> Result<TextPair, Seq<char>> {
    if value is Object {
        Ok((field_text(value, "start"@), field_text(value, "end"@)))
    } else {
        Err("picture effect range must be an object"@)
    }
}

/// A picture-effect point from a JSON object with `x` and `y` fields.
pub fn effect_point_from_json(value: &JsonValue) -> (r: Result<EffectPoint, String>)
    ensures
        match r {
            Ok(p) => effect_point_spec(*value) == Ok::<TextPair, Seq<char>>(point_view(p)),
            Err(m) => effect_point_spec(*value) == Err::<TextPair, Seq<char>>(m@),
        },
{
    match value {
        JsonValue::Object(_) => Ok(
            EffectPoint { x: json_string_field(value, "x"), y: json_string_field(value, "y") },
        ),
        _ => Err(string_of("picture effect point must be an object")),
    }
}

/// A picture-effect range from a JSON object with `start` and `end` fields.
pub fn effect_range_from_json(value: &JsonValue) -> (r: Result<EffectRange, String>)
    ensures
        match r {
            Ok(p) => effect_range_spec(*value) == Ok::<TextPair, Seq<char>>(range_view(p)),
            Err(m) => effect_range_spec(*value) == Err::<TextPair, Seq<char>>(m@),
        },
{
    match value {
        JsonValue::Object(_) => Ok(
            EffectRange {
                start: json_string_field(value, "start"),
                end: json_string_field(value, "end"),
            },
        ),
        _ => Err(string_of("picture effect range must be an object")),
    }
}

/// The flat keys of a point-valued effect property: `skew` and `scale`,
/// each with a snake-case and a camel-case key per component.
pub open spec fn flat_point_keys(prefix: Seq<char>) -> Option<(Seq<char>, Seq<char>, Seq<char>, Seq<char>)> {
    if prefix == "skew"@ {
        Some(("skew_x"@, "skewX"@, "skew_y"@, "skewY"@))
    } else if prefix == "scale"@ {
        Some(("scale_x"@, "scaleX"@, "scale_y"@, "scaleY"@))
    } else {
        None
    }
}

/// The two components of a point-valued effect property given by flat keys,
/// unless neither is given.
pub open spec fn flat_pair_spec(
    value: JsonValue,
    keys: Option<(Seq<char>, Seq<char>, Seq<char>, Seq<char>)>,
) -> Option<TextPair> {
    match keys {
        Some((a1, a2, b1, b2)) => {
            let a = alias_text(value, a1, a2);
            let b = alias_text(value, b1, b2);
            if a is None && b is None {
                None
            } else {
                Some((a, b))
            }
        },
        None => None,
    }
}

/// A picture-effect point given by flat keys (`skew_x`/`skewX`, ...).
pub fn effect_point_from_flat_aliases(value: &JsonValue, prefix: &str) -> (r: Option<EffectPoint>)
    ensures
        match r {
            Some(p) => flat_pair_spec(*value, flat_point_keys(prefix@)) == Some(point_view(p)),
            None => flat_pair_spec(*value, flat_point_keys(prefix@)) is None,
        },
{
    let (x, y) = if crate::text::str_eq(prefix, "skew") {
        (alias_string(value, "skew_x", "skewX"), alias_string(value, "skew_y", "skewY"))
    } else if crate::text::str_eq(prefix, "scale") {
        (alias_string(value, "scale_x", "scaleX"), alias_string(value, "scale_y", "scaleY"))
    } else {
        return None;
    };
    if x.is_none() && y.is_none() {
        None
    } else {
        Some(EffectPoint { x, y })
    }
}

/// The flat keys of a range-valued effect property: `alpha` and `pos`.
pub open spec fn flat_range_keys(prefix: Seq<char>) -> Option<(Seq<char>, Seq<char>, Seq<char>, Seq<char>)> {
    if prefix == "alpha"@ {
        Some(("alpha_start"@, "alphaStart"@, "alpha_end"@, "alphaEnd"@))
    } else if prefix == "pos"@ {
        Some(("pos_start"@, "posStart"@, "pos_end"@, "posEnd"@))
    } else {
        None
    }
}

/// A picture-effect range given by flat keys (`alpha_start`/`alphaStart`, ...).
pub fn effect_range_from_flat_aliases(value: &JsonValue, prefix: &str) -> (r: Option<EffectRange>)
    ensures
        match r {
            Some(p) => flat_pair_spec(*value, flat_range_keys(prefix@)) == Some(range_view(p)),
            None => flat_pair_spec(*value, flat_range_keys(prefix@)) is None,
        },
{
    let (start, end) = if crate::text::str_eq(prefix, "alpha") {
        (alias_string(value, "alpha_start", "alphaStart"), alias_string(value, "alpha_end", "alphaEnd"))
    } else if crate::text::str_eq(prefix, "pos") {
        (alias_string(value, "pos_start", "posStart"), alias_string(value, "pos_end", "posEnd"))
    } else {
        return None;
    };
    if start.is_none() && end.is_none() {
        None
    } else {
        Some(EffectRange { start, end })
    }
}

// ---------------------------------------------------------------------------
// Geometry
// ---------------------------------------------------------------------------

/// The `x`/`y` point under `key`, both within `i32`.
pub open spec fn geometry_point_spec(geometry: JsonValue, key: Seq<char>) -> Option<Point> {
    match json_get_spec(geometry, key) {
        Some(p) => match json_signed_spec(p, "x"@, i32::MIN as int, i32::MAX as int) {
            Some(x) => match json_signed_spec(p, "y"@, i32::MIN as int, i32::MAX as int) {
                Some(y) => Some(Point { x: x as i32, y: y as i32 }),
                None => None,
            },
            None => None,
        },
        None => None,
    }
}

/// The `x`/`y` point under `key` of a geometry object.
pub fn geometry_point(geometry: &JsonValue, key: &str) -> (r: Option<Point>)
    ensures
        r == geometry_point_spec(*geometry, key@),
{
    let point = match geometry.get(key) {
        Some(p) => p,
        None => return None,
    };
    let x = match json_i32(point, "x") {
        Some(x) => x,
        None => return None,
    };
    let y = match json_i32(point, "y") {
        Some(y) => y,
        None => return None,
    };
    Some(Point { x, y })
}

/// An `x`/`y` point of a geometry's point list, both within `i32`.
pub open spec fn list_point_spec(v: JsonValue) -> Option<Point> {
    match json_signed_spec(v, "x"@, i32::MIN as int, i32::MAX as int) {
        Some(x) => match json_signed_spec(v, "y"@, i32::MIN as int, i32::MAX as int) {
            Some(y) => Some(Point { x: x as i32, y: y as i32 }),
            None => None,
        },
        None => None,
    }
}

/// The points of the array under `key`: each item that is an `x`/`y`
/// point within `i32`, in order, the others skipped; nothing when there is
/// no array.
pub open spec fn geometry_points_spec(geometry: JsonValue, key: Seq<char>) -> Option<Seq<Point>> {
    match json_get_spec(geometry, key) {
        Some(JsonValue::Array(items)) => Some(items@.filter_map(|v: JsonValue| list_point_spec(v))),
        _ => None,
    }
}

/// The points of the array under `key` of a geometry object (see
/// `geometry_points_spec`).
pub fn geometry_points(geometry: &JsonValue, key: &str) -> (r: Option<Vec<Point>>)
    ensures
        match r {
            Some(v) => geometry_points_spec(*geometry, key@) == Some(v@),
            None => geometry_points_spec(*geometry, key@) is None,
        },
{
    let items = match geometry.get(key) {
        Some(JsonValue::Array(items)) => items,
        _ => return None,
    };
    let mut out: Vec<Point> = Vec::new();
    let mut i: usize = 0;
    assert(items@.take(0).filter_map(|v: JsonValue| list_point_spec(v)) =~= Seq::<Point>::empty());
    while i < items.len()
        invariant
            i <= items@.len(),
            out@ == items@.take(i as int).filter_map(|v: JsonValue| list_point_spec(v)),
        decreases items@.len() - i,
    {
        let item = &items[i];
        let x = json_i32(item, "x");
        let y = json_i32(item, "y");
        let ghost before = out@;
        match (x, y) {
            (Some(x), Some(y)) => {
                out.push(Point { x, y });
            },
            _ => {},
        }
        proof {
            let next = items@.take(i + 1);
            assert(next.drop_last() =~= items@.take(i as int));
            assert(next.last() == items@[i as int]);
            if x is Some && y is Some {
                assert(out@ =~= before + seq![Point { x: x->0, y: y->0 }]);
            }
        }
        i = i + 1;
    }
    assert(items@.take(i as int) =~= items@);
    Some(out)
}

/// A JSON value as an `i32`, when it is an integer within range.
pub open spec fn i32_of(v: JsonValue) -> Option<i32> {
    match as_i64_spec(v) {
        Some(n) => if i32::MIN <= n <= i32::MAX {
            Some(n as i32)
        } else {
            None
        },
        None => None,
    }
}

/// The four integers of the array under `key`: an array of exactly four
/// items, each an integer within `i32`.
pub open spec fn i32_array4_spec(geometry: JsonValue, key: Seq<char>) -> Option<Seq<i32>> {
    match json_get_spec(geometry, key) {
        Some(JsonValue::Array(items)) => if items@.len() == 4 && (forall|i: int|
            0 <= i < 4 ==> #[trigger] i32_of(items@[i]) is Some) {
            Some(Seq::new(4, |i: int| i32_of(items@[i])->0))
        } else {
            None
        },
        _ => None,
    }
}

fn item_i32(v: &JsonValue) -> (r: Option<i32>)
    ensures
        r == i32_of(*v),
{
    match v.as_i64() {
        Some(n) => if -0x8000_0000 <= n && n <= 0x7FFF_FFFF {
            Some(n as i32)
        } else {
            None
        },
        None => None,
    }
}

/// The four integers of the array under `key` of a geometry object.
pub fn geometry_i32_array4(geometry: &JsonValue, key: &str) -> (r: Option<[i32; 4]>)
    ensures
        match r {
            Some(a) => i32_array4_spec(*geometry, key@) == Some(a@),
            None => i32_array4_spec(*geometry, key@) is None,
        },
{
    let values = match geometry.get(key) {
        Some(JsonValue::Array(items)) => items,
        _ => return None,
    };
    if values.len() != 4 {
        return None;
    }
    let a = match item_i32(&values[0]) {
        Some(n) => n,
        None => return None,
    };
    let b = match item_i32(&values[1]) {
        Some(n) => n,
        None => return None,
    };
    let c = match item_i32(&values[2]) {
        Some(n) => n,
        None => return None,
    };
    let d = match item_i32(&values[3]) {
        Some(n) => n,
        None => return None,
    };
    let out = [a, b, c, d];
    assert(out@ =~= Seq::new(4, |i: int| i32_of(values@[i])->0));
    Some(out)
}

/// The items of an array that are integers within `u8`, in order.
pub open spec fn u8_items(items: Seq<JsonValue>) -> Seq<u8>
    decreases items.len(),
{
    if items.len() == 0 {
        Seq::empty()
    } else {
        u8_items(items.drop_last()) + match as_u64_spec(items.last()) {
            Some(n) => if n <= u8::MAX {
                seq![n as u8]
            } else {
                Seq::empty()
            },
            None => Seq::empty(),
        }
    }
}

/// The `u8` items of the array under `key`, others skipped.
pub open spec fn u8_vec_spec(geometry: JsonValue, key: Seq<char>) -> Option<Seq<u8>> {
    match json_get_spec(geometry, key) {
        Some(JsonValue::Array(items)) => Some(u8_items(items@)),
        _ => None,
    }
}

/// The byte items of the array under `key` of a geometry object.
pub fn geometry_u8_vec(geometry: &JsonValue, key: &str) -> (r: Option<Vec<u8>>)
    ensures
        match r {
            Some(v) => u8_vec_spec(*geometry, key@) == Some(v@),
            None => u8_vec_spec(*geometry, key@) is None,
        },
{
    let items = match geometry.get(key) {
        Some(JsonValue::Array(items)) => items,
        _ => return None,
    };
    let mut out: Vec<u8> = Vec::new();
    let mut i: usize = 0;
    while i < items.len()
        invariant
            i <= items@.len(),
            out@ == u8_items(items@.subrange(0, i as int)),
        decreases items@.len() - i,
    {
        assert(items@.subrange(0, i + 1).drop_last() =~= items@.subrange(0, i as int));
        match items[i].as_u64() {
            Some(n) => if n <= 0xFF {
                out.push(n as u8);
            },
            None => {},
        }
        i = i + 1;
        assert(out@ =~= u8_items(items@.subrange(0, i as int)));
    }
    assert(items@.subrange(0, i as int) =~= items@);
    Some(out)
}

// ---------------------------------------------------------------------------
// Picture layout points
// ---------------------------------------------------------------------------

/// An `x`/`y` point of a picture layout read from JSON; `label` names it
/// in the errors.
pub open spec fn picture_point_spec(value: JsonValue, label: Seq<char>) -> Result<(i32, i32), Seq<char>> {
    if !(value is Object) {
        Err("picture layout."@ + label + " must be an object"@)
    } else {
        match json_signed_spec(value, "x"@, i32::MIN as int, i32::MAX as int) {
            None => Err("picture layout."@ + label + ".x is required"@),
            Some(x) => match json_signed_spec(value, "y"@, i32::MIN as int, i32::MAX as int) {
                None => Err("picture layout."@ + label + ".y is required"@),
                Some(y) => Ok((x as i32, y as i32)),
            },
        }
    }
}

/// An `x`/`y` point of a picture layout (see `picture_point_spec`).
pub fn picture_point_from_json(value: &JsonValue, label: &str) -> (r: Result<(i32, i32), String>)
    ensures
        match r {
            Ok(p) => picture_point_spec(*value, label@) == Ok::<(i32, i32), Seq<char>>(p),
            Err(m) => picture_point_spec(*value, label@) == Err::<(i32, i32), Seq<char>>(m@),
        },
{
    let mut prefix = string_of("picture layout.");
    push_str(&mut prefix, label);
    match value {
        JsonValue::Object(_) => {},
        _ => {
            push_str(&mut prefix, " must be an object");
            return Err(prefix);
        },
    }
    let x = match json_i32(value, "x") {
        Some(x) => x,
        None => {
            push_str(&mut prefix, ".x is required");
            return Err(prefix);
        },
    };
    let y = match json_i32(value, "y") {
        Some(y) => y,
        None => {
            push_str(&mut prefix, ".y is required");
            return Err(prefix);
        },
    };
    Ok((x, y))
}

/// The four corner points of a picture's image rectangle read from JSON:
/// an array of exactly four points, or an object with points `pt0` to
/// `pt3`; the first refused point gives the error.
pub open spec fn image_rect_spec(value: JsonValue) -> Result<Seq<(i32, i32)>, Seq<char>> {
    match value {
        JsonValue::Array(items) => if items@.len() != 4 {
            Err("picture layout.image_rect must contain four points"@)
        } else {
            match picture_point_spec(items@[0], "image_rect[0]"@) {
                Err(e) => Err(e),
                Ok(p0) => match picture_point_spec(items@[1], "image_rect[1]"@) {
                    Err(e) => Err(e),
                    Ok(p1) => match picture_point_spec(items@[2], "image_rect[2]"@) {
                        Err(e) => Err(e),
                        Ok(p2) => match picture_point_spec(items@[3], "image_rect[3]"@) {
                            Err(e) => Err(e),
                            Ok(p3) => Ok(seq![p0, p1, p2, p3]),
                        },
                    },
                },
            }
        },
        JsonValue::Object(_) => match named_point_spec(value, "pt0"@) {
            Err(e) => Err(e),
            Ok(p0) => match named_point_spec(value, "pt1"@) {
                Err(e) => Err(e),
                Ok(p1) => match named_point_spec(value, "pt2"@) {
                    Err(e) => Err(e),
                    Ok(p2) => match named_point_spec(value, "pt3"@) {
                        Err(e) => Err(e),
                        Ok(p3) => Ok(seq![p0, p1, p2, p3]),
                    },
                },
            },
        },
        _ => Err("picture layout.image_rect must be an array or object"@),
    }
}

/// The image-rectangle point under `name` of an object.
pub open spec fn named_point_spec(value: JsonValue, name: Seq<char>) -> Result<(i32, i32), Seq<char>> {
    match json_get_spec(value, name) {
        None => Err("picture layout.image_rect."@ + name + " is required"@),
        Some(v) => picture_point_spec(v, "image_rect."@ + name),
    }
}

fn named_point(value: &JsonValue, name: &str) -> (r: Result<(i32, i32), String>)
    ensures
        match r {
            Ok(p) => named_point_spec(*value, name@) == Ok::<(i32, i32), Seq<char>>(p),
            Err(m) => named_point_spec(*value, name@) == Err::<(i32, i32), Seq<char>>(m@),
        },
{
    match value.get(name) {
        None => {
            let mut m = string_of("picture layout.image_rect.");
            push_str(&mut m, name);
            push_str(&mut m, " is required");
            Err(m)
        },
        Some(v) => {
            let mut label = string_of("image_rect.");
            push_str(&mut label, name);
            picture_point_from_json(v, label.as_str())
        },
    }
}

/// The four corner points of a picture's image rectangle (see
/// `image_rect_spec`).
pub fn picture_image_rect_from_json(value: &JsonValue) -> (r: Result<[(i32, i32); 4], String>)
    ensures
        match r {
            Ok(a) => image_rect_spec(*value) == Ok::<Seq<(i32, i32)>, Seq<char>>(a@),
            Err(m) => image_rect_spec(*value) == Err::<Seq<(i32, i32)>, Seq<char>>(m@),
        },
{
    match value {
        JsonValue::Array(items) => {
            if items.len() != 4 {
                return Err(string_of("picture layout.image_rect must contain four points"));
            }
            let p0 = match picture_point_from_json(&items[0], "image_rect[0]") {
                Ok(p) => p,
                Err(m) => return Err(m),
            };
            let p1 = match picture_point_from_json(&items[1], "image_rect[1]") {
                Ok(p) => p,
                Err(m) => return Err(m),
            };
            let p2 = match picture_point_from_json(&items[2], "image_rect[2]") {
                Ok(p) => p,
                Err(m) => return Err(m),
            };
            let p3 = match picture_point_from_json(&items[3], "image_rect[3]") {
                Ok(p) => p,
                Err(m) => return Err(m),
            };
            let out = [p0, p1, p2, p3];
            assert(out@ =~= seq![p0, p1, p2, p3]);
            Ok(out)
        },
        JsonValue::Object(_) => {
            let p0 = match named_point(value, "pt0") {
                Ok(p) => p,
                Err(m) => return Err(m),
            };
            let p1 = match named_point(value, "pt1") {
                Ok(p) => p,
                Err(m) => return Err(m),
            };
            let p2 = match named_point(value, "pt2") {
                Ok(p) => p,
                Err(m) => return Err(m),
            };
            let p3 = match named_point(value, "pt3") {
                Ok(p) => p,
                Err(m) => return Err(m),
            };
            let out = [p0, p1, p2, p3];
            assert(out@ =~= seq![p0, p1, p2, p3]);
            Ok(out)
        },
        _ => Err(string_of("picture layout.image_rect must be an array or object")),
    }
}

/// Sets a picture's border corner coordinates from the image rectangle a
/// JSON value gives: the first two points fill `border_x`, the last two
/// `border_y`. On an error neither changes.
pub fn apply_picture_image_rect(value: &JsonValue, border_x: &mut [i32; 4], border_y: &mut [i32; 4]) -> (r: Result<(), String>)
    ensures
        match image_rect_spec(*value) {
            Ok(p) => r is Ok && final(border_x)@ == seq![p[0].0, p[0].1, p[1].0, p[1].1]
                && final(border_y)@ == seq![p[2].0, p[2].1, p[3].0, p[3].1],
            Err(m) => r matches Err(e) && e@ == m && final(border_x)@ == old(border_x)@
                && final(border_y)@ == old(border_y)@,
        },
{
    let points = match picture_image_rect_from_json(value) {
        Ok(p) => p,
        Err(m) => return Err(m),
    };
    let x = [points[0].0, points[0].1, points[1].0, points[1].1];
    let y = [points[2].0, points[2].1, points[3].0, points[3].1];
    assert(x@ =~= seq![points@[0].0, points@[0].1, points@[1].0, points@[1].1]);
    assert(y@ =~= seq![points@[2].0, points@[2].1, points@[3].0, points@[3].1]);
    *border_x = x;
    *border_y = y;
    Ok(())
}

// ---------------------------------------------------------------------------
// Border lines
// ---------------------------------------------------------------------------

/// The border `key` of an object's `borders`: a member of that name, else,
/// when `borders` is an array, its item at `index`.
pub open spec fn border_line_value_spec(value: JsonValue, key: Seq<char>, index: int) -> Option<JsonValue> {
    match json_get_spec(value, "borders"@) {
        Some(borders) => match json_get_spec(borders, key) {
            Some(v) => Some(v),
            None => match borders {
                JsonValue::Array(items) => if 0 <= index < items@.len() {
                    Some(items@[index])
                } else {
                    None
                },
                _ => None,
            },
        },
        None => None,
    }
}

/// The border `key` (or, in an array, the border at `index`) of an object.
pub fn border_line_value<'a>(value: &'a JsonValue, key: &str, index: usize) -> (r: Option<&'a JsonValue>)
    ensures
        match r {
            Some(v) => border_line_value_spec(*value, key@, index as int) == Some(*v),
            None => border_line_value_spec(*value, key@, index as int) is None,
        },
{
    let borders = match value.get("borders") {
        Some(b) => b,
        None => return None,
    };
    match borders.get(key) {
        Some(v) => Some(v),
        None => match borders {
            JsonValue::Array(items) => if index < items.len() {
                Some(&items[index])
            } else {
                None
            },
            _ => None,
        },
    }
}

/// The line type of a border: its `type` as a name, else as a code, else
/// no line.
pub open spec fn border_line_type_spec(value: JsonValue) -> BorderLineType {
    match json_get_spec(value, "type"@) {
        Some(JsonValue::String(s)) => border_line_type_from_name_spec(s@),
        _ => match json_unsigned_spec(value, "type"@, u8::MAX as int) {
            Some(c) => border_line_type_from_code_spec(c as u8),
            None => BorderLineType::NoLine,
        },
    }
}

/// A border line read from JSON; no value gives the default line (none,
/// width 0, colour 0), and a missing width or colour reads as 0.
pub open spec fn border_line_spec(value: Option<JsonValue>) -> BorderLine {
    match value {
        None => BorderLine { line_type: BorderLineType::NoLine, width: 0, color: 0 },
        Some(v) => BorderLine {
            line_type: border_line_type_spec(v),
            width: match json_unsigned_spec(v, "width"@, u8::MAX as int) {
                Some(w) => w as u8,
                None => 0,
            },
            color: match json_unsigned_spec(v, "color"@, u32::MAX as int) {
                Some(n) => n as u32,
                None => match color_keys_spec(v, seq!["color_hex", "colorHex"]) {
                    Some(c) => c,
                    None => 0,
                },
            },
        },
    }
}

/// A border line from its JSON object (`type`, `width`, `color` or
/// `color_hex`/`colorHex`).
pub fn border_line_from_json(value: Option<&JsonValue>) -> (r: BorderLine)
    ensures
        r == border_line_spec(match value {
            Some(v) => Some(*v),
            None => None,
        }),
{
    let value = match value {
        Some(v) => v,
        None => return BorderLine { line_type: BorderLineType::NoLine, width: 0, color: 0 },
    };
    let line_type = match value.get("type") {
        Some(JsonValue::String(s)) => border_line_type_from_name(s.as_str()),
        _ => match json_u8(value, "type") {
            Some(c) => border_line_type_from_code(c),
            None => BorderLineType::NoLine,
        },
    };
    let width = match json_u8(value, "width") {
        Some(w) => w,
        None => 0,
    };
    let keys = ["color_hex", "colorHex"];
    assert(keys@ =~= seq!["color_hex", "colorHex"]);
    let color = match json_color_ref_alias(value, "color", &keys) {
        Some(c) => c,
        None => 0,
    };
    BorderLine { line_type, width, color }
}

/// A border line's JSON object: its type name, width and colour, and the
/// colour's text form.
pub open spec fn is_border_line_json(v: JsonValue, line: BorderLine) -> bool {
    &&& v is Object
    &&& forall|k: Seq<char>| #![trigger members_get(v->Object_0@, k)]
        if k == "type"@ {
            text_member(members_get(v->Object_0@, k), Some(border_line_type_name_spec(line.line_type)))
        } else if k == "width"@ {
            members_get(v->Object_0@, k) == Some(JsonValue::Number(JsonNumber::PosInt(line.width as u64)))
        } else if k == "color"@ {
            members_get(v->Object_0@, k) == Some(JsonValue::Number(JsonNumber::PosInt(line.color as u64)))
        } else if k == "color_hex"@ {
            text_member(members_get(v->Object_0@, k), Some(color_ref_hex_spec(line.color as int)))
        } else {
            members_get(v->Object_0@, k) is None
        }
}

proof fn lemma_border_line_keys()
    ensures
        "type"@.len() == 4,
        "width"@.len() == 5,
        "width"@[0] == 'w',
        "color"@.len() == 5,
        "color"@[0] == 'c',
        "color_hex"@.len() == 9,
{
    reveal_strlit("type");
    reveal_strlit("width");
    reveal_strlit("color");
    reveal_strlit("color_hex");
}

/// A border line as a JSON object.
pub fn border_line_json(line: BorderLine) -> (r: JsonValue)
    ensures
        is_border_line_json(r, line),
{
    let mut map = new_members();
    insert_member(&mut map, "type", JsonValue::String(string_of(border_line_type_name(line.line_type))));
    insert_member(&mut map, "width", json_from_u64(line.width as u64));
    insert_member(&mut map, "color", json_from_u64(line.color as u64));
    insert_member(&mut map, "color_hex", JsonValue::String(color_ref_to_hex(line.color)));
    proof {
        lemma_border_line_keys();
    }
    JsonValue::Object(map)
}

/// A border line written as JSON reads back unchanged.
pub proof fn lemma_border_line_json_roundtrip(v: JsonValue, line: BorderLine)
    requires
        is_border_line_json(v, line),
    ensures
        border_line_spec(Some(v)) == line,
{
    lemma_border_line_keys();
    lemma_border_line_type_from_name_of_border_line_type_name(line.line_type);
    let m = v->Object_0@;
    assert(text_member(members_get(m, "type"@), Some(border_line_type_name_spec(line.line_type))));
    assert(members_get(m, "width"@) == Some(JsonValue::Number(JsonNumber::PosInt(line.width as u64))));
    assert(members_get(m, "color"@) == Some(JsonValue::Number(JsonNumber::PosInt(line.color as u64))));
}

// ---------------------------------------------------------------------------
// Connector control points
// ---------------------------------------------------------------------------

/// A connector control point read from a JSON object: `x`, `y` and
/// `point_type`, each 0 when missing.
pub open spec fn control_point_spec(v: JsonValue) -> ConnectorControlPoint {
    ConnectorControlPoint {
        x: match json_signed_spec(v, "x"@, i32::MIN as int, i32::MAX as int) {
            Some(n) => n as i32,
            None => 0,
        },
        y: match json_signed_spec(v, "y"@, i32::MIN as int, i32::MAX as int) {
            Some(n) => n as i32,
            None => 0,
        },
        point_type: match json_unsigned_spec(v, "point_type"@, u16::MAX as int) {
            Some(n) => n as u16,
            None => 0,
        },
    }
}

/// A connector's control points read from a JSON array of objects.
pub open spec fn control_points_spec(value: JsonValue) -> Result<Seq<ConnectorControlPoint>, Seq<char>> {
    match value {
        JsonValue::Array(items) => if forall|i: int| 0 <= i < items@.len() ==> #[trigger] items@[i] is Object {
            Ok(items@.map_values(|v: JsonValue| control_point_spec(v)))
        } else {
            Err("line geometry.connector.control_points entries must be objects"@)
        },
        _ => Err("line geometry.connector.control_points must be an array"@),
    }
}

/// A connector's control points from JSON (see `control_points_spec`).
pub fn connector_control_points_from_json(value: &JsonValue) -> (r: Result<Vec<ConnectorControlPoint>, String>)
    ensures
        match r {
            Ok(v) => control_points_spec(*value) == Ok::<Seq<ConnectorControlPoint>, Seq<char>>(v@),
            Err(m) => control_points_spec(*value) == Err::<Seq<ConnectorControlPoint>, Seq<char>>(m@),
        },
{
    let items = match value {
        JsonValue::Array(items) => items,
        _ => return Err(string_of("line geometry.connector.control_points must be an array")),
    };
    let mut out: Vec<ConnectorControlPoint> = Vec::new();
    let mut i: usize = 0;
    while i < items.len()
        invariant
            i <= items@.len(),
            *value == JsonValue::Array(*items),
            out@ == items@.subrange(0, i as int).map_values(|v: JsonValue| control_point_spec(v)),
            forall|j: int| 0 <= j < i ==> #[trigger] items@[j] is Object,
        decreases items@.len() - i,
    {
        let item = &items[i];
        match item {
            JsonValue::Object(_) => {},
            _ => {
                assert(!(items@[i as int] is Object));
                return Err(string_of("line geometry.connector.control_points entries must be objects"));
            },
        }
        let x = match json_i32(item, "x") {
            Some(n) => n,
            None => 0,
        };
        let y = match json_i32(item, "y") {
            Some(n) => n,
            None => 0,
        };
        let point_type = match json_u16(item, "point_type") {
            Some(n) => n,
            None => 0,
        };
        out.push(ConnectorControlPoint { x, y, point_type });
        i = i + 1;
        assert(out@ =~= items@.subrange(0, i as int).map_values(|v: JsonValue| control_point_spec(v)));
    }
    assert(items@.subrange(0, i as int) =~= items@);
    Ok(out)
}

/// A connector control point's JSON object: `x`, `y` and `point_type`.
pub open spec fn is_control_point_json(v: JsonValue, p: ConnectorControlPoint) -> bool {
    &&& v is Object
    &&& members_get(v->Object_0@, "x"@) == Some(
        if p.x >= 0 {
            JsonValue::Number(JsonNumber::PosInt(p.x as u64))
        } else {
            JsonValue::Number(JsonNumber::NegInt(p.x as i64))
        },
    )
    &&& members_get(v->Object_0@, "y"@) == Some(
        if p.y >= 0 {
            JsonValue::Number(JsonNumber::PosInt(p.y as u64))
        } else {
            JsonValue::Number(JsonNumber::NegInt(p.y as i64))
        },
    )
    &&& members_get(v->Object_0@, "point_type"@) == Some(JsonValue::Number(JsonNumber::PosInt(p.point_type as u64)))
    &&& forall|k: Seq<char>| #![trigger members_get(v->Object_0@, k)]
        k != "x"@ && k != "y"@ && k != "point_type"@ ==> members_get(v->Object_0@, k) is None
}

proof fn lemma_control_point_keys()
    ensures
        "x"@.len() == 1,
        "x"@[0] == 'x',
        "y"@.len() == 1,
        "y"@[0] == 'y',
        "point_type"@.len() == 10,
{
    reveal_strlit("x");
    reveal_strlit("y");
    reveal_strlit("point_type");
}

/// A connector control point as a JSON object.
pub fn connector_control_point_json(point: &ConnectorControlPoint) -> (r: JsonValue)
    ensures
        is_control_point_json(r, *point),
{
    let mut map = new_members();
    insert_member(&mut map, "x", json_from_i64(point.x as i64));
    insert_member(&mut map, "y", json_from_i64(point.y as i64));
    insert_member(&mut map, "point_type", json_from_u64(point.point_type as u64));
    proof {
        lemma_control_point_keys();
    }
    JsonValue::Object(map)
}

/// A connector control point written as JSON reads back unchanged.
pub proof fn lemma_control_point_json_roundtrip(v: JsonValue, p: ConnectorControlPoint)
    requires
        is_control_point_json(v, p),
    ensures
        control_point_spec(v) == p,
{
}

/// Control points written one by one into a JSON array read back as the
/// same points, in order.
pub proof fn lemma_control_points_roundtrip(v: JsonValue, points: Seq<ConnectorControlPoint>)
    requires
        v is Array,
        v->Array_0@.len() == points.len(),
        forall|i: int| 0 <= i < points.len() ==> is_control_point_json(#[trigger] v->Array_0@[i], points[i]),
    ensures
        control_points_spec(v) == Ok::<Seq<ConnectorControlPoint>, Seq<char>>(points),
{
    let items = v->Array_0@;
    assert forall|i: int| 0 <= i < items.len() implies #[trigger] items[i] is Object by {
        assert(is_control_point_json(items[i], points[i]));
    }
    let read = items.map_values(|x: JsonValue| control_point_spec(x));
    assert forall|i: int| 0 <= i < points.len() implies #[trigger] read[i] == points[i] by {
        assert(is_control_point_json(items[i], points[i]));
        lemma_control_point_json_roundtrip(items[i], points[i]);
    }
    assert(read =~= points);
}

} // verus!
