//! A picture's crop, inner padding and image rectangle: written into the
//! template's layout JSON when they differ from their defaults, and read
//! back from it onto a picture.

use crate::document_core::builders::document_template::effect_writer::{insert_member, new_members};
use crate::document_core::builders::document_template::fields::{apply_picture_image_rect, image_rect_spec};
use crate::document_core::builders::document_template::shape_attr::{
    apply_picture_shape_attr, apply_shape_attr_json, picture_shape_attr_json, shape_attr_from_json,
    shape_attr_is_default, shape_attr_member, RenderMembers,
};
use crate::json_value::{
    json_get_spec, json_i16, json_i32, json_from_i64, json_signed_spec, members_get, members_unique,
    JsonNumber, JsonValue,
};
use crate::model::{CropInfo, Padding, Picture, ShapeComponentAttr};
use crate::text::string_of;
use vstd::prelude::*;

verus! {

/// The JSON number `serde_json` writes for an integer.
pub open spec fn int_json(n: int) -> JsonValue {
    if n >= 0 {
        JsonValue::Number(JsonNumber::PosInt(n as u64))
    } else {
        JsonValue::Number(JsonNumber::NegInt(n as i64))
    }
}

/// `n` saturated to a `u32`.
pub open spec fn saturate_u32(n: int) -> u32 {
    if n > u32::MAX {
        u32::MAX
    } else {
        n as u32
    }
}

/// The crop edge a picture of `natural_px` pixels has by default: 75 units
/// a pixel (saturating), taken as an `i32`.
pub open spec fn default_crop_edge(natural_px: u32) -> i32 {
    saturate_u32(natural_px * 75) as i32
}

fn default_crop_edge_exec(natural_px: u32) -> (r: i32)
    ensures
        r == default_crop_edge(natural_px),
{
    let wide: u64 = (natural_px as u64) * 75;
    let saturated: u32 = if wide > 0xFFFF_FFFF {
        0xFFFF_FFFF
    } else {
        wide as u32
    };
    saturated as i32
}

/// An object with exactly the four members `left`, `top`, `right` and
/// `bottom`, each the JSON number of the given integer.
pub open spec fn is_edges_json(v: JsonValue, left: int, top: int, right: int, bottom: int) -> bool {
    &&& v is Object
    &&& members_unique(v->Object_0@)
    &&& members_get(v->Object_0@, "left"@) == Some(int_json(left))
    &&& members_get(v->Object_0@, "top"@) == Some(int_json(top))
    &&& members_get(v->Object_0@, "right"@) == Some(int_json(right))
    &&& members_get(v->Object_0@, "bottom"@) == Some(int_json(bottom))
    &&& forall|k: Seq<char>| #![trigger members_get(v->Object_0@, k)]
        k != "left"@ && k != "top"@ && k != "right"@ && k != "bottom"@ ==> members_get(v->Object_0@, k) is None
}

proof fn lemma_edge_keys()
    ensures
        "left"@.len() == 4,
        "left"@[0] == 'l',
        "top"@.len() == 3,
        "right"@.len() == 5,
        "bottom"@.len() == 6,
        "x"@.len() == 1,
        "x"@[0] == 'x',
        "y"@.len() == 1,
        "y"@[0] == 'y',
{
    reveal_strlit("left");
    reveal_strlit("top");
    reveal_strlit("right");
    reveal_strlit("bottom");
    reveal_strlit("x");
    reveal_strlit("y");
}

fn edges_json(left: i64, top: i64, right: i64, bottom: i64) -> (r: JsonValue)
    ensures
        is_edges_json(r, left as int, top as int, right as int, bottom as int),
{
    let mut map = new_members();
    insert_member(&mut map, "left", json_from_i64(left));
    insert_member(&mut map, "top", json_from_i64(top));
    insert_member(&mut map, "right", json_from_i64(right));
    insert_member(&mut map, "bottom", json_from_i64(bottom));
    proof {
        lemma_edge_keys();
    }
    JsonValue::Object(map)
}

/// Whether a crop is the default one for a picture of the given natural
/// size: nothing cut from the left and top, the right and bottom edges at
/// their defaults.
pub open spec fn is_default_crop(crop: CropInfo, natural_width_px: u32, natural_height_px: u32) -> bool {
    &&& crop.left == 0
    &&& crop.top == 0
    &&& crop.right == default_crop_edge(natural_width_px)
    &&& crop.bottom == default_crop_edge(natural_height_px)
}

/// A picture's crop as JSON (`left`, `top`, `right`, `bottom`), or
/// nothing when it is the default one.
pub fn picture_crop_json(picture: &Picture, natural_width_px: u32, natural_height_px: u32) -> (r: Option<JsonValue>)
    ensures
        r is None <==> is_default_crop(picture.crop, natural_width_px, natural_height_px),
        r matches Some(v) ==> is_edges_json(
            v,
            picture.crop.left as int,
            picture.crop.top as int,
            picture.crop.right as int,
            picture.crop.bottom as int,
        ),
{
    let default_right = default_crop_edge_exec(natural_width_px);
    let default_bottom = default_crop_edge_exec(natural_height_px);
    let crop = picture.crop;
    if crop.left == 0 && crop.top == 0 && crop.right == default_right && crop.bottom == default_bottom {
        return None;
    }
    Some(edges_json(crop.left as i64, crop.top as i64, crop.right as i64, crop.bottom as i64))
}

/// Inner padding as JSON (`left`, `right`, `top`, `bottom`), or nothing
/// when it is zero on every side.
pub fn picture_padding_json(padding: &Padding) -> (r: Option<JsonValue>)
    ensures
        r is None <==> (padding.left == 0 && padding.right == 0 && padding.top == 0 && padding.bottom == 0),
        r matches Some(v) ==> is_edges_json(
            v,
            padding.left as int,
            padding.top as int,
            padding.right as int,
            padding.bottom as int,
        ),
{
    if padding.left == 0 && padding.right == 0 && padding.top == 0 && padding.bottom == 0 {
        return None;
    }
    Some(edges_json(padding.left as i64, padding.top as i64, padding.right as i64, padding.bottom as i64))
}

/// `value[key]` read as an `i32`, else `d`.
pub open spec fn i32_or(v: JsonValue, key: Seq<char>, d: i32) -> i32 {
    match json_signed_spec(v, key, i32::MIN as int, i32::MAX as int) {
        Some(n) => n as i32,
        None => d,
    }
}

/// `value[key]` read as an `i16`, else `d`.
pub open spec fn i16_or(v: JsonValue, key: Seq<char>, d: i16) -> i16 {
    match json_signed_spec(v, key, i16::MIN as int, i16::MAX as int) {
        Some(n) => n as i16,
        None => d,
    }
}

/// A crop after a layout's `crop` object: each edge it gives, the others
/// kept.
pub open spec fn crop_from_json(v: JsonValue, crop: CropInfo) -> CropInfo {
    CropInfo {
        left: i32_or(v, "left"@, crop.left),
        top: i32_or(v, "top"@, crop.top),
        right: i32_or(v, "right"@, crop.right),
        bottom: i32_or(v, "bottom"@, crop.bottom),
    }
}

/// Padding after a layout's `padding` object: each side it gives, the
/// others kept.
pub open spec fn padding_from_json(v: JsonValue, padding: Padding) -> Padding {
    Padding {
        left: i16_or(v, "left"@, padding.left),
        right: i16_or(v, "right"@, padding.right),
        top: i16_or(v, "top"@, padding.top),
        bottom: i16_or(v, "bottom"@, padding.bottom),
    }
}

/// Each edge of a crop is read from the member of the same name, and so is
/// each side of a padding; a side the object does not give keeps its value.
pub proof fn lemma_edges_from_json_by_name(v: JsonValue, crop: CropInfo, padding: Padding)
    ensures
        crop_from_json(v, crop).left == i32_or(v, "left"@, crop.left),
        crop_from_json(v, crop).top == i32_or(v, "top"@, crop.top),
        crop_from_json(v, crop).right == i32_or(v, "right"@, crop.right),
        crop_from_json(v, crop).bottom == i32_or(v, "bottom"@, crop.bottom),
        padding_from_json(v, padding).left == i16_or(v, "left"@, padding.left),
        padding_from_json(v, padding).top == i16_or(v, "top"@, padding.top),
        padding_from_json(v, padding).right == i16_or(v, "right"@, padding.right),
        padding_from_json(v, padding).bottom == i16_or(v, "bottom"@, padding.bottom),
{
}

/// Sets a crop from a layout's `crop` object (see `crop_from_json`); an
/// error, with the crop unchanged, when the value is not an object.
pub fn apply_picture_crop(value: &JsonValue, crop: &mut CropInfo) -> (r: Result<(), String>)
    ensures
        value is Object ==> r is Ok && *final(crop) == crop_from_json(*value, *old(crop)),
        !(value is Object) ==> (r matches Err(e) && e@ == "picture layout.crop must be an object"@)
            && *final(crop) == *old(crop),
{
    match value {
        JsonValue::Object(_) => {},
        _ => return Err(string_of("picture layout.crop must be an object")),
    }
    crop.left = match json_i32(value, "left") {
        Some(n) => n,
        None => crop.left,
    };
    crop.top = match json_i32(value, "top") {
        Some(n) => n,
        None => crop.top,
    };
    crop.right = match json_i32(value, "right") {
        Some(n) => n,
        None => crop.right,
    };
    crop.bottom = match json_i32(value, "bottom") {
        Some(n) => n,
        None => crop.bottom,
    };
    Ok(())
}

/// Sets padding from a layout's `padding` object (see
/// `padding_from_json`); an error, with the padding unchanged, when the
/// value is not an object.
pub fn apply_picture_padding(value: &JsonValue, padding: &mut Padding) -> (r: Result<(), String>)
    ensures
        value is Object ==> r is Ok && *final(padding) == padding_from_json(*value, *old(padding)),
        !(value is Object) ==> (r matches Err(e) && e@ == "picture layout.padding must be an object"@)
            && *final(padding) == *old(padding),
{
    match value {
        JsonValue::Object(_) => {},
        _ => return Err(string_of("picture layout.padding must be an object")),
    }
    padding.left = match json_i16(value, "left") {
        Some(n) => n,
        None => padding.left,
    };
    padding.right = match json_i16(value, "right") {
        Some(n) => n,
        None => padding.right,
    };
    padding.top = match json_i16(value, "top") {
        Some(n) => n,
        None => padding.top,
    };
    padding.bottom = match json_i16(value, "bottom") {
        Some(n) => n,
        None => padding.bottom,
    };
    Ok(())
}

/// A crop written as JSON reads back as the same crop, whatever crop it is
/// read onto.
pub proof fn lemma_crop_json_roundtrip(v: JsonValue, crop: CropInfo, onto: CropInfo)
    requires
        is_edges_json(v, crop.left as int, crop.top as int, crop.right as int, crop.bottom as int),
    ensures
        v is Object,
        crop_from_json(v, onto) == crop,
{
}

/// Padding written as JSON reads back as the same padding, whatever padding
/// it is read onto.
pub proof fn lemma_padding_json_roundtrip(v: JsonValue, padding: Padding, onto: Padding)
    requires
        is_edges_json(v, padding.left as int, padding.top as int, padding.right as int, padding.bottom as int),
    ensures
        v is Object,
        padding_from_json(v, onto) == padding,
{
}

// ---------------------------------------------------------------------------
// Image rectangle
// ---------------------------------------------------------------------------

/// The four corners of a picture's image rectangle: the first two from
/// `border_x`, the last two from `border_y`.
pub open spec fn image_rect_points_spec(p: Picture) -> Seq<(i32, i32)> {
    seq![
        (p.border_x@[0], p.border_x@[1]),
        (p.border_x@[2], p.border_x@[3]),
        (p.border_y@[0], p.border_y@[1]),
        (p.border_y@[2], p.border_y@[3]),
    ]
}

/// The image rectangle a picture of the given size has by default: its
/// four corners, clockwise from the origin.
pub open spec fn default_image_rect(width: u32, height: u32) -> Seq<(i32, i32)> {
    seq![(0i32, 0i32), (width as i32, 0i32), (width as i32, height as i32), (0i32, height as i32)]
}

/// The four corners of a picture's image rectangle.
pub fn picture_image_rect_points(picture: &Picture) -> (r: [(i32, i32); 4])
    ensures
        r@ == image_rect_points_spec(*picture),
{
    let r = [
        (picture.border_x[0], picture.border_x[1]),
        (picture.border_x[2], picture.border_x[3]),
        (picture.border_y[0], picture.border_y[1]),
        (picture.border_y[2], picture.border_y[3]),
    ];
    assert(r@ =~= image_rect_points_spec(*picture));
    r
}

/// An object with exactly the members `x` and `y`, the JSON numbers of a
/// point's coordinates.
pub open spec fn is_point_json(v: JsonValue, p: (i32, i32)) -> bool {
    &&& v is Object
    &&& members_unique(v->Object_0@)
    &&& members_get(v->Object_0@, "x"@) == Some(int_json(p.0 as int))
    &&& members_get(v->Object_0@, "y"@) == Some(int_json(p.1 as int))
    &&& forall|k: Seq<char>| #![trigger members_get(v->Object_0@, k)]
        k != "x"@ && k != "y"@ ==> members_get(v->Object_0@, k) is None
}

/// A JSON array of points, one object per point, in order.
pub open spec fn is_points_json(v: JsonValue, points: Seq<(i32, i32)>) -> bool {
    &&& v is Array
    &&& v->Array_0@.len() == points.len()
    &&& forall|i: int| 0 <= i < points.len() ==> is_point_json(#[trigger] v->Array_0@[i], points[i])
}

fn point_json(p: (i32, i32)) -> (r: JsonValue)
    ensures
        is_point_json(r, p),
{
    let mut map = new_members();
    insert_member(&mut map, "x", json_from_i64(p.0 as i64));
    insert_member(&mut map, "y", json_from_i64(p.1 as i64));
    proof {
        lemma_edge_keys();
    }
    JsonValue::Object(map)
}

/// A picture's image rectangle as a JSON array of its four corners, or
/// nothing when it is the default one for the picture's size.
pub fn picture_image_rect_json(picture: &Picture, width: u32, height: u32) -> (r: Option<JsonValue>)
    ensures
        r is None <==> image_rect_points_spec(*picture) == default_image_rect(width, height),
        r matches Some(v) ==> is_points_json(v, image_rect_points_spec(*picture)),
{
    let points = picture_image_rect_points(picture);
    let w = width as i32;
    let h = height as i32;
    if points[0].0 == 0 && points[0].1 == 0 && points[1].0 == w && points[1].1 == 0 && points[2].0 == w
        && points[2].1 == h && points[3].0 == 0 && points[3].1 == h {
        assert(points@ =~= default_image_rect(width, height));
        return None;
    }
    proof {
        if image_rect_points_spec(*picture) == default_image_rect(width, height) {
            assert(points@[0] == default_image_rect(width, height)[0]);
            assert(points@[1] == default_image_rect(width, height)[1]);
            assert(points@[2] == default_image_rect(width, height)[2]);
            assert(points@[3] == default_image_rect(width, height)[3]);
        }
    }
    let mut items: Vec<JsonValue> = Vec::new();
    let mut i: usize = 0;
    while i < 4
        invariant
            i <= 4,
            points@.len() == 4,
            items@.len() == i,
            forall|j: int| 0 <= j < i ==> is_point_json(#[trigger] items@[j], points@[j]),
        decreases 4 - i,
    {
        items.push(point_json(points[i]));
        i = i + 1;
    }
    Some(JsonValue::Array(items))
}

/// A picture's image rectangle written as JSON reads back, through the
/// layout reader, as the same border coordinates.
pub proof fn lemma_image_rect_json_roundtrip(v: JsonValue, picture: Picture)
    requires
        is_points_json(v, image_rect_points_spec(picture)),
    ensures
        image_rect_spec(v) matches Ok(q) && seq![q[0].0, q[0].1, q[1].0, q[1].1] == picture.border_x@
            && seq![q[2].0, q[2].1, q[3].0, q[3].1] == picture.border_y@,
{
    let pts = image_rect_points_spec(picture);
    let items = v->Array_0@;
    assert(is_point_json(items[0], pts[0]));
    assert(is_point_json(items[1], pts[1]));
    assert(is_point_json(items[2], pts[2]));
    assert(is_point_json(items[3], pts[3]));
    assert(image_rect_spec(v) == Ok::<Seq<(i32, i32)>, Seq<char>>(seq![pts[0], pts[1], pts[2], pts[3]]));
    assert(seq![pts[0].0, pts[0].1, pts[1].0, pts[1].1] =~= picture.border_x@);
    assert(seq![pts[2].0, pts[2].1, pts[3].0, pts[3].1] =~= picture.border_y@);
}

// ---------------------------------------------------------------------------
// A picture's layout as a whole
// ---------------------------------------------------------------------------

/// A shape component's layout JSON object (see `shape_attr_member`).
pub open spec fn is_shape_attr_json(v: JsonValue, s: ShapeComponentAttr, width: u32, height: u32, render: Option<RenderMembers>) -> bool {
    &&& v is Object
    &&& members_unique(v->Object_0@)
    &&& forall|k: Seq<char>| #![trigger members_get(v->Object_0@, k)]
        shape_attr_member(members_get(v->Object_0@, k), s, width, height, render, k)
}

/// The member `k` of a picture's layout JSON: `crop`, `padding`,
/// `image_rect` and `shape_attr`, each when it differs from its default.
pub open spec fn picture_layout_member(
    got: Option<JsonValue>,
    p: Picture,
    width: u32,
    height: u32,
    natural_width_px: u32,
    natural_height_px: u32,
    render: Option<RenderMembers>,
    k: Seq<char>,
) -> bool {
    if k == "crop"@ {
        if is_default_crop(p.crop, natural_width_px, natural_height_px) {
            got is None
        } else {
            got matches Some(v) && is_edges_json(v, p.crop.left as int, p.crop.top as int, p.crop.right as int, p.crop.bottom as int)
        }
    } else if k == "padding"@ {
        if p.padding.left == 0 && p.padding.right == 0 && p.padding.top == 0 && p.padding.bottom == 0 {
            got is None
        } else {
            got matches Some(v) && is_edges_json(v, p.padding.left as int, p.padding.top as int, p.padding.right as int, p.padding.bottom as int)
        }
    } else if k == "image_rect"@ {
        if image_rect_points_spec(p) == default_image_rect(width, height) {
            got is None
        } else {
            got matches Some(v) && is_points_json(v, image_rect_points_spec(p))
        }
    } else if k == "shape_attr"@ {
        if shape_attr_is_default(p.shape_attr, width, height, render) {
            got is None
        } else {
            got matches Some(v) && is_shape_attr_json(v, p.shape_attr, width, height, render)
        }
    } else {
        got is None
    }
}

/// Whether a picture's layout writes nothing: its crop, padding, image
/// rectangle and shape component all at their defaults.
pub open spec fn picture_layout_is_default(
    p: Picture,
    width: u32,
    height: u32,
    natural_width_px: u32,
    natural_height_px: u32,
    render: Option<RenderMembers>,
) -> bool {
    &&& is_default_crop(p.crop, natural_width_px, natural_height_px)
    &&& p.padding.left == 0 && p.padding.right == 0 && p.padding.top == 0 && p.padding.bottom == 0
    &&& image_rect_points_spec(p) == default_image_rect(width, height)
    &&& shape_attr_is_default(p.shape_attr, width, height, render)
}

proof fn lemma_layout_keys()
    ensures
        "crop"@.len() == 4,
        "crop"@[0] == 'c',
        "padding"@.len() == 7,
        "image_rect"@.len() == 10,
        "shape_attr"@.len() == 10,
        "image_rect"@[0] == 'i',
        "shape_attr"@[0] == 's',
{
    reveal_strlit("crop");
    reveal_strlit("padding");
    reveal_strlit("image_rect");
    reveal_strlit("shape_attr");
}

/// A picture's layout JSON (see `picture_layout_member`), or nothing when
/// it writes no member. `render` is the rendering matrix's members, given
/// when it is not the identity.
pub fn picture_layout_json(
    picture: &Picture,
    width: u32,
    height: u32,
    natural_width_px: u32,
    natural_height_px: u32,
    render: Option<RenderMembers>,
) -> (r: Option<JsonValue>)
    ensures
        r is None <==> picture_layout_is_default(*picture, width, height, natural_width_px, natural_height_px, render),
        r matches Some(v) ==> v is Object && members_unique(v->Object_0@) && forall|k: Seq<char>|
            #![trigger members_get(v->Object_0@, k)]
            picture_layout_member(members_get(v->Object_0@, k), *picture, width, height, natural_width_px, natural_height_px, render, k),
{
    proof {
        lemma_layout_keys();
    }
    let ghost rv = render;
    let mut map = new_members();
    let mut any = false;
    match picture_crop_json(picture, natural_width_px, natural_height_px) {
        Some(crop) => {
            insert_member(&mut map, "crop", crop);
            any = true;
        },
        None => {},
    }
    match picture_padding_json(&picture.padding) {
        Some(padding) => {
            insert_member(&mut map, "padding", padding);
            any = true;
        },
        None => {},
    }
    match picture_image_rect_json(picture, width, height) {
        Some(image_rect) => {
            insert_member(&mut map, "image_rect", image_rect);
            any = true;
        },
        None => {},
    }
    match picture_shape_attr_json(&picture.shape_attr, width, height, render) {
        Some(shape_attr) => {
            insert_member(&mut map, "shape_attr", shape_attr);
            any = true;
        },
        None => {},
    }
    if any {
        Some(JsonValue::Object(map))
    } else {
        None
    }
}

/// An object's layout JSON: its shape component under `shape_attr`, or
/// nothing when the shape component writes nothing.
pub fn object_layout_json(shape_attr: &ShapeComponentAttr, width: u32, height: u32, render: Option<RenderMembers>) -> (r: Option<JsonValue>)
    ensures
        r is None <==> shape_attr_is_default(*shape_attr, width, height, render),
        r matches Some(v) ==> v is Object && members_unique(v->Object_0@)
            && (members_get(v->Object_0@, "shape_attr"@) matches Some(x) && is_shape_attr_json(x, *shape_attr, width, height, render))
            && forall|k: Seq<char>| #![trigger members_get(v->Object_0@, k)] k != "shape_attr"@ ==> members_get(v->Object_0@, k) is None,
{
    let mut map = new_members();
    match picture_shape_attr_json(shape_attr, width, height, render) {
        Some(v) => {
            insert_member(&mut map, "shape_attr", v);
            Some(JsonValue::Object(map))
        },
        None => None,
    }
}

/// A member that is there and not null.
pub open spec fn member_non_null(v: JsonValue, key: Seq<char>) -> Option<JsonValue> {
    match json_get_spec(v, key) {
        Some(x) => if x is Null {
            None
        } else {
            Some(x)
        },
        None => None,
    }
}

/// A member under its name, else under another name, when not null (a null
/// under the first name hides the second).
pub open spec fn member_or_alias(v: JsonValue, key: Seq<char>, alias: Seq<char>) -> Option<JsonValue> {
    match json_get_spec(v, key) {
        Some(x) => if x is Null {
            None
        } else {
            Some(x)
        },
        None => member_non_null(v, alias),
    }
}

fn get_non_null<'a>(v: &'a JsonValue, key: &str) -> (r: Option<&'a JsonValue>)
    ensures
        r matches Some(x) ==> member_non_null(*v, key@) == Some(*x),
        r is None ==> member_non_null(*v, key@) is None,
{
    match v.get(key) {
        Some(x) => match x {
            JsonValue::Null => None,
            _ => Some(x),
        },
        None => None,
    }
}

fn get_or_alias<'a>(v: &'a JsonValue, key: &str, alias: &str) -> (r: Option<&'a JsonValue>)
    ensures
        r matches Some(x) ==> member_or_alias(*v, key@, alias@) == Some(*x),
        r is None ==> member_or_alias(*v, key@, alias@) is None,
{
    match v.get(key) {
        Some(x) => match x {
            JsonValue::Null => None,
            _ => Some(x),
        },
        None => get_non_null(v, alias),
    }
}

/// What reading an object layout does: nothing without one (or for null),
/// an error when it is not an object, else the shape component read from
/// its `shape_attr` (an error when that is not an object).
pub fn apply_object_layout(layout: Option<&JsonValue>, shape_attr: &mut ShapeComponentAttr) -> (r: Result<(), String>)
    ensures
        match layout {
            None => r is Ok && *final(shape_attr) == *old(shape_attr),
            Some(l) => if l is Null {
                r is Ok && *final(shape_attr) == *old(shape_attr)
            } else if !(l is Object) {
                (r matches Err(e) && e@ == "object layout must be an object"@) && *final(shape_attr) == *old(shape_attr)
            } else {
                match member_non_null(*l, "shape_attr"@) {
                    None => r is Ok && *final(shape_attr) == *old(shape_attr),
                    Some(sv) => if sv is Object {
                        r is Ok && *final(shape_attr) == shape_attr_from_json(sv, *old(shape_attr))
                    } else {
                        (r matches Err(e) && e@ == "object layout.shape_attr"@ + " must be an object"@)
                            && *final(shape_attr) == *old(shape_attr)
                    },
                }
            },
        },
{
    let layout = match layout {
        Some(l) => l,
        None => return Ok(()),
    };
    match layout {
        JsonValue::Null => return Ok(()),
        JsonValue::Object(_) => {},
        _ => return Err(string_of("object layout must be an object")),
    }
    match get_non_null(layout, "shape_attr") {
        Some(shape_value) => apply_shape_attr_json(shape_value, shape_attr, "object layout.shape_attr"),
        None => Ok(()),
    }
}

/// A picture's layout fields after reading its layout JSON, and what the
/// reading gave back.
pub struct PictureLayoutOutcome {
    pub shape: ShapeComponentAttr,
    pub crop: CropInfo,
    pub padding: Padding,
    pub border_x: Seq<i32>,
    pub border_y: Seq<i32>,
    pub result: Result<(), Seq<char>>,
}

/// Reading a picture's layout JSON, step by step: the crop, the padding,
/// the image rectangle (`image_rect`, else `img_rect`) and the shape
/// component (`shape_attr`, else `transform`); the first step that fails
/// stops the reading with its error, the steps before it kept. Nothing is
/// read without a layout or for null; an error when it is not an object.
pub open spec fn picture_layout_outcome(
    layout: Option<JsonValue>,
    shape: ShapeComponentAttr,
    crop: CropInfo,
    padding: Padding,
    border_x: Seq<i32>,
    border_y: Seq<i32>,
) -> PictureLayoutOutcome {
    let unchanged = PictureLayoutOutcome { shape, crop, padding, border_x, border_y, result: Ok(()) };
    match layout {
        None => unchanged,
        Some(l) => if l is Null {
            unchanged
        } else if !(l is Object) {
            PictureLayoutOutcome { result: Err("picture layout must be an object"@), ..unchanged }
        } else {
            match member_non_null(l, "crop"@) {
                Some(cv) if !(cv is Object) => PictureLayoutOutcome { result: Err("picture layout.crop must be an object"@), ..unchanged },
                _ => {
                    let crop1 = match member_non_null(l, "crop"@) {
                        Some(cv) => crop_from_json(cv, crop),
                        None => crop,
                    };
                    match member_non_null(l, "padding"@) {
                        Some(pv) if !(pv is Object) => PictureLayoutOutcome {
                            crop: crop1,
                            result: Err("picture layout.padding must be an object"@),
                            ..unchanged
                        },
                        _ => {
                            let padding1 = match member_non_null(l, "padding"@) {
                                Some(pv) => padding_from_json(pv, padding),
                                None => padding,
                            };
                            let after_padding = PictureLayoutOutcome { crop: crop1, padding: padding1, ..unchanged };
                            match member_or_alias(l, "image_rect"@, "img_rect"@) {
                                Some(rv) => match image_rect_spec(rv) {
                                    Err(m) => PictureLayoutOutcome { result: Err(m), ..after_padding },
                                    Ok(q) => shape_step(l, PictureLayoutOutcome {
                                        border_x: seq![q[0].0, q[0].1, q[1].0, q[1].1],
                                        border_y: seq![q[2].0, q[2].1, q[3].0, q[3].1],
                                        ..after_padding
                                    }),
                                },
                                None => shape_step(l, after_padding),
                            }
                        },
                    }
                },
            }
        },
    }
}

/// The last step of reading a picture's layout: its shape component.
pub open spec fn shape_step(l: JsonValue, o: PictureLayoutOutcome) -> PictureLayoutOutcome {
    match member_or_alias(l, "shape_attr"@, "transform"@) {
        Some(sv) => if sv is Object {
            PictureLayoutOutcome { shape: shape_attr_from_json(sv, o.shape), ..o }
        } else {
            PictureLayoutOutcome { result: Err("picture layout.shape_attr must be an object"@), ..o }
        },
        None => o,
    }
}

/// Reads a picture's layout JSON onto its fields (see
/// `picture_layout_outcome`).
pub fn apply_picture_layout(
    layout: Option<&JsonValue>,
    shape_attr: &mut ShapeComponentAttr,
    crop: &mut CropInfo,
    padding: &mut Padding,
    border_x: &mut [i32; 4],
    border_y: &mut [i32; 4],
) -> (r: Result<(), String>)
    ensures
        ({
            let o = picture_layout_outcome(
                match layout {
                    Some(l) => Some(*l),
                    None => None,
                },
                *old(shape_attr),
                *old(crop),
                *old(padding),
                old(border_x)@,
                old(border_y)@,
            );
            &&& *final(shape_attr) == o.shape
            &&& *final(crop) == o.crop
            &&& *final(padding) == o.padding
            &&& final(border_x)@ == o.border_x
            &&& final(border_y)@ == o.border_y
            &&& match r {
                Ok(()) => o.result is Ok,
                Err(e) => o.result == Err::<(), Seq<char>>(e@),
            }
        }),
{
    let layout = match layout {
        Some(l) => l,
        None => return Ok(()),
    };
    match layout {
        JsonValue::Null => return Ok(()),
        JsonValue::Object(_) => {},
        _ => return Err(string_of("picture layout must be an object")),
    }
    match get_non_null(layout, "crop") {
        Some(crop_value) => {
            match apply_picture_crop(crop_value, crop) {
                Ok(()) => {},
                Err(e) => return Err(e),
            }
        },
        None => {},
    }
    match get_non_null(layout, "padding") {
        Some(padding_value) => {
            match apply_picture_padding(padding_value, padding) {
                Ok(()) => {},
                Err(e) => return Err(e),
            }
        },
        None => {},
    }
    match get_or_alias(layout, "image_rect", "img_rect") {
        Some(rect_value) => {
            match apply_picture_image_rect(rect_value, border_x, border_y) {
                Ok(()) => {},
                Err(e) => return Err(e),
            }
        },
        None => {},
    }
    match get_or_alias(layout, "shape_attr", "transform") {
        Some(shape_value) => {
            match apply_picture_shape_attr(shape_value, shape_attr) {
                Ok(()) => {},
                Err(e) => return Err(e),
            }
        },
        None => {},
    }
    Ok(())
}

} // verus!
