//! An object's shape component attributes in the template's layout JSON:
//! offsets, group level, sizes, flips and rotation written when they
//! differ from their defaults, and read back onto an object.
//!
//! The rendering matrix is made of real numbers, which this library does
//! not hold: the caller hands its six members in, already written as JSON,
//! when the matrix is not the identity, and reads them back itself.

use super::effect_writer::{insert_member, new_members};
use super::picture_layout::int_json;
use crate::json_value::{
    json_bool, json_bool_spec, json_from_i64, json_from_u64, json_i16, json_i32, json_signed_spec,
    json_u16, json_u32, json_unsigned_spec, members_get, members_unique, JsonNumber, JsonValue,
};
use crate::model::ShapeComponentAttr;
use crate::text::{push_str, string_of};
use vstd::prelude::*;

verus! {

/// The six members of a rendering matrix, each already written as JSON.
#[derive(Debug)]
pub struct RenderMembers {
    pub sx: JsonValue,
    pub b: JsonValue,
    pub tx: JsonValue,
    pub c: JsonValue,
    pub sy: JsonValue,
    pub ty: JsonValue,
}

/// The member `k` of a shape component's layout JSON: each integer field
/// that differs from its default (sizes equal to the object's own size, or
/// zero, are left out), flags that are set, and the rendering matrix when
/// given.
pub open spec fn shape_attr_member(
    got: Option<JsonValue>,
    s: ShapeComponentAttr,
    width: u32,
    height: u32,
    render: Option<RenderMembers>,
    k: Seq<char>,
) -> bool {
    got == shape_attr_member_value(s, width, height, render, k)
}

/// The value of the member `k` (see `shape_attr_member`).
pub open spec fn shape_attr_member_value(
    s: ShapeComponentAttr,
    width: u32,
    height: u32,
    render: Option<RenderMembers>,
    k: Seq<char>,
) -> Option<JsonValue> {
    if k == "offset_x"@ {
        if s.offset_x != 0 { Some(int_json(s.offset_x as int)) } else { None }
    } else if k == "offset_y"@ {
        if s.offset_y != 0 { Some(int_json(s.offset_y as int)) } else { None }
    } else if k == "group_level"@ {
        if s.group_level != 0 { Some(JsonValue::Number(JsonNumber::PosInt(s.group_level as u64))) } else { None }
    } else if k == "local_file_version"@ {
        if s.local_file_version > 1 { Some(JsonValue::Number(JsonNumber::PosInt(s.local_file_version as u64))) } else { None }
    } else if k == "original_width"@ {
        if s.original_width != 0 && s.original_width != width { Some(JsonValue::Number(JsonNumber::PosInt(s.original_width as u64))) } else { None }
    } else if k == "original_height"@ {
        if s.original_height != 0 && s.original_height != height { Some(JsonValue::Number(JsonNumber::PosInt(s.original_height as u64))) } else { None }
    } else if k == "current_width"@ {
        if s.current_width != 0 && s.current_width != width { Some(JsonValue::Number(JsonNumber::PosInt(s.current_width as u64))) } else { None }
    } else if k == "current_height"@ {
        if s.current_height != 0 && s.current_height != height { Some(JsonValue::Number(JsonNumber::PosInt(s.current_height as u64))) } else { None }
    } else if k == "flip"@ {
        if s.flip != 0 { Some(JsonValue::Number(JsonNumber::PosInt(s.flip as u64))) } else { None }
    } else if k == "horz_flip"@ {
        if s.horz_flip { Some(JsonValue::Bool(true)) } else { None }
    } else if k == "vert_flip"@ {
        if s.vert_flip { Some(JsonValue::Bool(true)) } else { None }
    } else if k == "rotation_angle"@ {
        if s.rotation_angle != 0 { Some(int_json(s.rotation_angle as int)) } else { None }
    } else if k == "rotate_image"@ {
        if s.rotate_image { Some(JsonValue::Bool(true)) } else { None }
    } else if k == "rotation_center_x"@ {
        if s.rotation_center.x != 0 { Some(int_json(s.rotation_center.x as int)) } else { None }
    } else if k == "rotation_center_y"@ {
        if s.rotation_center.y != 0 { Some(int_json(s.rotation_center.y as int)) } else { None }
    } else {
        match render {
            Some(m) => if k == "render_sx"@ {
                Some(m.sx)
            } else if k == "render_b"@ {
                Some(m.b)
            } else if k == "render_tx"@ {
                Some(m.tx)
            } else if k == "render_c"@ {
                Some(m.c)
            } else if k == "render_sy"@ {
                Some(m.sy)
            } else if k == "render_ty"@ {
                Some(m.ty)
            } else {
                None
            },
            None => None,
        }
    }
}

/// Whether a shape component writes nothing: every field at its default
/// and no rendering matrix.
pub open spec fn shape_attr_is_default(s: ShapeComponentAttr, width: u32, height: u32, render: Option<RenderMembers>) -> bool {
    &&& s.offset_x == 0
    &&& s.offset_y == 0
    &&& s.group_level == 0
    &&& s.local_file_version <= 1
    &&& (s.original_width == 0 || s.original_width == width)
    &&& (s.original_height == 0 || s.original_height == height)
    &&& (s.current_width == 0 || s.current_width == width)
    &&& (s.current_height == 0 || s.current_height == height)
    &&& s.flip == 0
    &&& !s.horz_flip
    &&& !s.vert_flip
    &&& s.rotation_angle == 0
    &&& !s.rotate_image
    &&& s.rotation_center.x == 0
    &&& s.rotation_center.y == 0
    &&& render is None
}

proof fn lemma_shape_attr_keys()
    ensures
        "offset_x"@.len() == 8,
        "offset_y"@.len() == 8,
        "group_level"@.len() == 11,
        "local_file_version"@.len() == 18,
        "original_width"@.len() == 14,
        "original_height"@.len() == 15,
        "current_width"@.len() == 13,
        "current_height"@.len() == 14,
        "flip"@.len() == 4,
        "horz_flip"@.len() == 9,
        "vert_flip"@.len() == 9,
        "rotation_angle"@.len() == 14,
        "rotate_image"@.len() == 12,
        "rotation_center_x"@.len() == 17,
        "rotation_center_y"@.len() == 17,
        "render_sx"@.len() == 9,
        "render_b"@.len() == 8,
        "render_tx"@.len() == 9,
        "render_c"@.len() == 8,
        "render_sy"@.len() == 9,
        "render_ty"@.len() == 9,
        "offset_x"@[7] == 'x',
        "offset_y"@[7] == 'y',
        "offset_x"@[0] == 'o',
        "render_b"@[0] == 'r',
        "render_c"@[0] == 'r',
        "offset_y"@[0] == 'o',
        "original_width"@[0] == 'o',
        "rotation_angle"@[0] == 'r',
        "current_height"@[0] == 'c',
        "horz_flip"@[0] == 'h',
        "vert_flip"@[0] == 'v',
        "render_sx"@[0] == 'r',
        "render_tx"@[0] == 'r',
        "render_sy"@[0] == 'r',
        "render_ty"@[0] == 'r',
        "rotation_center_x"@[16] == 'x',
        "rotation_center_y"@[16] == 'y',
        "render_sx"@[7] == 's',
        "render_tx"@[7] == 't',
        "render_sx"@[8] == 'x',
        "render_sy"@[8] == 'y',
        "render_ty"@[7] == 't',
        "render_b"@[7] == 'b',
        "render_c"@[7] == 'c',
        "render_tx"@[8] == 'x',
        "render_ty"@[8] == 'y',
        "render_sy"@[7] == 's',
{
    reveal_strlit("offset_x");
    reveal_strlit("offset_y");
    reveal_strlit("group_level");
    reveal_strlit("local_file_version");
    reveal_strlit("original_width");
    reveal_strlit("original_height");
    reveal_strlit("current_width");
    reveal_strlit("current_height");
    reveal_strlit("flip");
    reveal_strlit("horz_flip");
    reveal_strlit("vert_flip");
    reveal_strlit("rotation_angle");
    reveal_strlit("rotate_image");
    reveal_strlit("rotation_center_x");
    reveal_strlit("rotation_center_y");
    reveal_strlit("render_sx");
    reveal_strlit("render_b");
    reveal_strlit("render_tx");
    reveal_strlit("render_c");
    reveal_strlit("render_sy");
    reveal_strlit("render_ty");
}

/// A shape component's layout JSON (see `shape_attr_member`), or nothing
/// when it writes no member. `render` holds the rendering matrix's six
/// members as JSON, given when the matrix is not the identity.
/// Whether `k` is one of the offsets members.
pub open spec fn is_offsets_key(k: Seq<char>) -> bool {
    k == "offset_x"@ || k == "offset_y"@ || k == "group_level"@ || k == "local_file_version"@
}

/// Writes the offsets members that differ from their defaults; says whether
/// it wrote any.
fn write_offsets(map: &mut Vec<(String, JsonValue)>, s: &ShapeComponentAttr, width: u32, height: u32, render: &Option<RenderMembers>) -> (wrote: bool)
    requires
        forall|k: Seq<char>| is_offsets_key(k) ==> #[trigger] members_get(old(map)@, k) is None,
    ensures
        forall|k: Seq<char>| #[trigger] members_get(final(map)@, k) == if is_offsets_key(k) {
            shape_attr_member_value(*s, width, height, *render, k)
        } else {
            members_get(old(map)@, k)
        },
        wrote == ((s.offset_x != 0) || (s.offset_y != 0) || (s.group_level != 0) || (s.local_file_version > 1)),
        members_unique(old(map)@) ==> members_unique(final(map)@),
{
    proof {
        lemma_shape_attr_keys();
    }
    let mut wrote = false;
    if s.offset_x != 0 {
        insert_member(map, "offset_x", json_from_i64(s.offset_x as i64));
        wrote = true;
    }
    if s.offset_y != 0 {
        insert_member(map, "offset_y", json_from_i64(s.offset_y as i64));
        wrote = true;
    }
    if s.group_level != 0 {
        insert_member(map, "group_level", json_from_u64(s.group_level as u64));
        wrote = true;
    }
    if s.local_file_version > 1 {
        insert_member(map, "local_file_version", json_from_u64(s.local_file_version as u64));
        wrote = true;
    }
    wrote
}

/// Whether `k` is one of the sizes members.
pub open spec fn is_sizes_key(k: Seq<char>) -> bool {
    k == "original_width"@ || k == "original_height"@ || k == "current_width"@ || k == "current_height"@
}

/// Writes the sizes members that differ from their defaults; says whether
/// it wrote any.
fn write_sizes(map: &mut Vec<(String, JsonValue)>, s: &ShapeComponentAttr, width: u32, height: u32, render: &Option<RenderMembers>) -> (wrote: bool)
    requires
        forall|k: Seq<char>| is_sizes_key(k) ==> #[trigger] members_get(old(map)@, k) is None,
    ensures
        forall|k: Seq<char>| #[trigger] members_get(final(map)@, k) == if is_sizes_key(k) {
            shape_attr_member_value(*s, width, height, *render, k)
        } else {
            members_get(old(map)@, k)
        },
        wrote == ((s.original_width != 0 && s.original_width != width) || (s.original_height != 0 && s.original_height != height) || (s.current_width != 0 && s.current_width != width) || (s.current_height != 0 && s.current_height != height)),
        members_unique(old(map)@) ==> members_unique(final(map)@),
{
    proof {
        lemma_shape_attr_keys();
    }
    let mut wrote = false;
    if s.original_width != 0 && s.original_width != width {
        insert_member(map, "original_width", json_from_u64(s.original_width as u64));
        wrote = true;
    }
    if s.original_height != 0 && s.original_height != height {
        insert_member(map, "original_height", json_from_u64(s.original_height as u64));
        wrote = true;
    }
    if s.current_width != 0 && s.current_width != width {
        insert_member(map, "current_width", json_from_u64(s.current_width as u64));
        wrote = true;
    }
    if s.current_height != 0 && s.current_height != height {
        insert_member(map, "current_height", json_from_u64(s.current_height as u64));
        wrote = true;
    }
    wrote
}

/// Whether `k` is one of the flips members.
pub open spec fn is_flips_key(k: Seq<char>) -> bool {
    k == "flip"@ || k == "horz_flip"@ || k == "vert_flip"@
}

/// Writes the flips members that differ from their defaults; says whether
/// it wrote any.
fn write_flips(map: &mut Vec<(String, JsonValue)>, s: &ShapeComponentAttr, width: u32, height: u32, render: &Option<RenderMembers>) -> (wrote: bool)
    requires
        forall|k: Seq<char>| is_flips_key(k) ==> #[trigger] members_get(old(map)@, k) is None,
    ensures
        forall|k: Seq<char>| #[trigger] members_get(final(map)@, k) == if is_flips_key(k) {
            shape_attr_member_value(*s, width, height, *render, k)
        } else {
            members_get(old(map)@, k)
        },
        wrote == ((s.flip != 0) || (s.horz_flip) || (s.vert_flip)),
        members_unique(old(map)@) ==> members_unique(final(map)@),
{
    proof {
        lemma_shape_attr_keys();
    }
    let mut wrote = false;
    if s.flip != 0 {
        insert_member(map, "flip", json_from_u64(s.flip as u64));
        wrote = true;
    }
    if s.horz_flip {
        insert_member(map, "horz_flip", JsonValue::Bool(true));
        wrote = true;
    }
    if s.vert_flip {
        insert_member(map, "vert_flip", JsonValue::Bool(true));
        wrote = true;
    }
    wrote
}

/// Whether `k` is one of the rotation members.
pub open spec fn is_rotation_key(k: Seq<char>) -> bool {
    k == "rotation_angle"@ || k == "rotate_image"@ || k == "rotation_center_x"@ || k == "rotation_center_y"@
}

/// Writes the rotation members that differ from their defaults; says whether
/// it wrote any.
fn write_rotation(map: &mut Vec<(String, JsonValue)>, s: &ShapeComponentAttr, width: u32, height: u32, render: &Option<RenderMembers>) -> (wrote: bool)
    requires
        forall|k: Seq<char>| is_rotation_key(k) ==> #[trigger] members_get(old(map)@, k) is None,
    ensures
        forall|k: Seq<char>| #[trigger] members_get(final(map)@, k) == if is_rotation_key(k) {
            shape_attr_member_value(*s, width, height, *render, k)
        } else {
            members_get(old(map)@, k)
        },
        wrote == ((s.rotation_angle != 0) || (s.rotate_image) || (s.rotation_center.x != 0) || (s.rotation_center.y != 0)),
        members_unique(old(map)@) ==> members_unique(final(map)@),
{
    proof {
        lemma_shape_attr_keys();
    }
    let mut wrote = false;
    if s.rotation_angle != 0 {
        insert_member(map, "rotation_angle", json_from_i64(s.rotation_angle as i64));
        wrote = true;
    }
    if s.rotate_image {
        insert_member(map, "rotate_image", JsonValue::Bool(true));
        wrote = true;
    }
    if s.rotation_center.x != 0 {
        insert_member(map, "rotation_center_x", json_from_i64(s.rotation_center.x as i64));
        wrote = true;
    }
    if s.rotation_center.y != 0 {
        insert_member(map, "rotation_center_y", json_from_i64(s.rotation_center.y as i64));
        wrote = true;
    }
    wrote
}

/// Whether `k` is one of the rendering matrix's members.
pub open spec fn is_render_key(k: Seq<char>) -> bool {
    k == "render_sx"@ || k == "render_b"@ || k == "render_tx"@ || k == "render_c"@ || k == "render_sy"@ || k == "render_ty"@
}

fn write_render(map: &mut Vec<(String, JsonValue)>, s: &ShapeComponentAttr, width: u32, height: u32, render: Option<RenderMembers>) -> (wrote: bool)
    requires
        forall|k: Seq<char>| is_render_key(k) ==> #[trigger] members_get(old(map)@, k) is None,
    ensures
        forall|k: Seq<char>| #[trigger] members_get(final(map)@, k) == if is_render_key(k) {
            shape_attr_member_value(*s, width, height, render, k)
        } else {
            members_get(old(map)@, k)
        },
        wrote == render is Some,
        members_unique(old(map)@) ==> members_unique(final(map)@),
{
    proof {
        lemma_shape_attr_keys();
    }
    match render {
        Some(m) => {
            insert_member(map, "render_sx", m.sx);
            insert_member(map, "render_b", m.b);
            insert_member(map, "render_tx", m.tx);
            insert_member(map, "render_c", m.c);
            insert_member(map, "render_sy", m.sy);
            insert_member(map, "render_ty", m.ty);
            true
        },
        None => false,
    }
}

/// A shape component's layout JSON (see `shape_attr_member`), or nothing
/// when it writes no member. `render` holds the rendering matrix's six
/// members as JSON, given when the matrix is not the identity.
pub fn picture_shape_attr_json(
    shape_attr: &ShapeComponentAttr,
    width: u32,
    height: u32,
    render: Option<RenderMembers>,
) -> (r: Option<JsonValue>)
    ensures
        r is None <==> shape_attr_is_default(*shape_attr, width, height, render),
        r matches Some(v) ==> v is Object && members_unique(v->Object_0@) && forall|k: Seq<char>|
            #![trigger members_get(v->Object_0@, k)]
            shape_attr_member(members_get(v->Object_0@, k), *shape_attr, width, height, render, k),
{
    proof {
        lemma_shape_attr_keys();
    }
    let ghost rv = render;
    let mut map = new_members();
    let a = write_offsets(&mut map, shape_attr, width, height, &render);
    let b = write_sizes(&mut map, shape_attr, width, height, &render);
    let c = write_flips(&mut map, shape_attr, width, height, &render);
    let d = write_rotation(&mut map, shape_attr, width, height, &render);
    let e = write_render(&mut map, shape_attr, width, height, render);
    if a || b || c || d || e {
        let v = JsonValue::Object(map);
        assert forall|k: Seq<char>| #![trigger members_get(v->Object_0@, k)]
            shape_attr_member(members_get(v->Object_0@, k), *shape_attr, width, height, rv, k) by {
            if !is_offsets_key(k) && !is_sizes_key(k) && !is_flips_key(k) && !is_rotation_key(k) && !is_render_key(k) {
                assert(shape_attr_member_value(*shape_attr, width, height, rv, k) is None);
            }
        }
        Some(v)
    } else {
        None
    }
}

// ---------------------------------------------------------------------------
// Reading a shape component's layout JSON
// ---------------------------------------------------------------------------

/// `value[key]` read as an unsigned number up to `max`, else `d`.
pub open spec fn unsigned_or(v: JsonValue, key: Seq<char>, max: int, d: int) -> int {
    match json_unsigned_spec(v, key, max) {
        Some(n) => n,
        None => d,
    }
}

/// `value[key]` read as a signed number within `min..=max`, else `d`.
pub open spec fn signed_or(v: JsonValue, key: Seq<char>, min: int, max: int, d: int) -> int {
    match json_signed_spec(v, key, min, max) {
        Some(n) => n,
        None => d,
    }
}

/// The flip bits and flags after a `flip` number: the number, and each flag
/// from its bit (1 horizontal, 2 vertical); unchanged without one.
pub open spec fn flips_after_number(v: JsonValue, s: ShapeComponentAttr) -> (u32, bool, bool) {
    match json_unsigned_spec(v, "flip"@, u32::MAX as int) {
        Some(n) => (n as u32, (n as u32) & 1u32 != 0, (n as u32) & 2u32 != 0),
        None => (s.flip, s.horz_flip, s.vert_flip),
    }
}

/// The flip bits and flags after the `horz_flip` flag: the flag, and its bit
/// set or cleared when the bits are not zero.
pub open spec fn flips_after_horz(v: JsonValue, f: (u32, bool, bool)) -> (u32, bool, bool) {
    match json_bool_spec(v, "horz_flip"@) {
        Some(h) => (if f.0 != 0 {
            if h { f.0 | 1u32 } else { f.0 & !1u32 }
        } else {
            f.0
        }, h, f.2),
        None => f,
    }
}

/// The flip bits and flags after the `vert_flip` flag (see
/// `flips_after_horz`; the vertical bit is 2).
pub open spec fn flips_after_vert(v: JsonValue, f: (u32, bool, bool)) -> (u32, bool, bool) {
    match json_bool_spec(v, "vert_flip"@) {
        Some(x) => (if f.0 != 0 {
            if x { f.0 | 2u32 } else { f.0 & !2u32 }
        } else {
            f.0
        }, f.1, x),
        None => f,
    }
}

/// A shape component after a layout's shape attributes: each field the
/// JSON gives (within its type), the others kept, the flip bits and flags
/// kept in step.
pub open spec fn shape_attr_from_json(v: JsonValue, s: ShapeComponentAttr) -> ShapeComponentAttr {
    let flips = flips_after_vert(v, flips_after_horz(v, flips_after_number(v, s)));
    ShapeComponentAttr {
        offset_x: signed_or(v, "offset_x"@, i32::MIN as int, i32::MAX as int, s.offset_x as int) as i32,
        offset_y: signed_or(v, "offset_y"@, i32::MIN as int, i32::MAX as int, s.offset_y as int) as i32,
        group_level: unsigned_or(v, "group_level"@, u16::MAX as int, s.group_level as int) as u16,
        local_file_version: unsigned_or(v, "local_file_version"@, u16::MAX as int, s.local_file_version as int) as u16,
        original_width: unsigned_or(v, "original_width"@, u32::MAX as int, s.original_width as int) as u32,
        original_height: unsigned_or(v, "original_height"@, u32::MAX as int, s.original_height as int) as u32,
        current_width: unsigned_or(v, "current_width"@, u32::MAX as int, s.current_width as int) as u32,
        current_height: unsigned_or(v, "current_height"@, u32::MAX as int, s.current_height as int) as u32,
        flip: flips.0,
        horz_flip: flips.1,
        vert_flip: flips.2,
        rotation_angle: signed_or(v, "rotation_angle"@, i16::MIN as int, i16::MAX as int, s.rotation_angle as int) as i16,
        rotate_image: match json_bool_spec(v, "rotate_image"@) {
            Some(b) => b,
            None => s.rotate_image,
        },
        rotation_center: crate::model::Point {
            x: signed_or(v, "rotation_center_x"@, i32::MIN as int, i32::MAX as int, s.rotation_center.x as int) as i32,
            y: signed_or(v, "rotation_center_y"@, i32::MIN as int, i32::MAX as int, s.rotation_center.y as int) as i32,
        },
    }
}

fn read_shape_sizes(value: &JsonValue, s: &mut ShapeComponentAttr)
    ensures
        ({
            let t = shape_attr_from_json(*value, *old(s));
            *final(s) == ShapeComponentAttr {
                offset_x: t.offset_x,
                offset_y: t.offset_y,
                group_level: t.group_level,
                local_file_version: t.local_file_version,
                original_width: t.original_width,
                original_height: t.original_height,
                current_width: t.current_width,
                current_height: t.current_height,
                ..*old(s)
            }
        }),
{
    s.offset_x = match json_i32(value, "offset_x") { Some(n) => n, None => s.offset_x };
    s.offset_y = match json_i32(value, "offset_y") { Some(n) => n, None => s.offset_y };
    s.group_level = match json_u16(value, "group_level") { Some(n) => n, None => s.group_level };
    s.local_file_version = match json_u16(value, "local_file_version") { Some(n) => n, None => s.local_file_version };
    s.original_width = match json_u32(value, "original_width") { Some(n) => n, None => s.original_width };
    s.original_height = match json_u32(value, "original_height") { Some(n) => n, None => s.original_height };
    s.current_width = match json_u32(value, "current_width") { Some(n) => n, None => s.current_width };
    s.current_height = match json_u32(value, "current_height") { Some(n) => n, None => s.current_height };
}

fn read_shape_flips(value: &JsonValue, s: &mut ShapeComponentAttr)
    ensures
        ({
            let f = flips_after_vert(*value, flips_after_horz(*value, flips_after_number(*value, *old(s))));
            *final(s) == ShapeComponentAttr { flip: f.0, horz_flip: f.1, vert_flip: f.2, ..*old(s) }
        }),
{
    match json_u32(value, "flip") {
        Some(flip) => {
            s.flip = flip;
            s.horz_flip = flip & 0x01 != 0;
            s.vert_flip = flip & 0x02 != 0;
        },
        None => {},
    }
    match json_bool(value, "horz_flip") {
        Some(horz_flip) => {
            s.horz_flip = horz_flip;
            if s.flip != 0 {
                if horz_flip {
                    s.flip = s.flip | 0x01;
                } else {
                    s.flip = s.flip & !0x01u32;
                }
            }
        },
        None => {},
    }
    match json_bool(value, "vert_flip") {
        Some(vert_flip) => {
            s.vert_flip = vert_flip;
            if s.flip != 0 {
                if vert_flip {
                    s.flip = s.flip | 0x02;
                } else {
                    s.flip = s.flip & !0x02u32;
                }
            }
        },
        None => {},
    }
}

fn read_shape_rotation(value: &JsonValue, s: &mut ShapeComponentAttr)
    ensures
        ({
            let t = shape_attr_from_json(*value, *old(s));
            *final(s) == ShapeComponentAttr {
                rotation_angle: t.rotation_angle,
                rotate_image: t.rotate_image,
                rotation_center: t.rotation_center,
                ..*old(s)
            }
        }),
{
    s.rotation_angle = match json_i16(value, "rotation_angle") { Some(n) => n, None => s.rotation_angle };
    s.rotate_image = match json_bool(value, "rotate_image") { Some(b) => b, None => s.rotate_image };
    s.rotation_center.x = match json_i32(value, "rotation_center_x") { Some(n) => n, None => s.rotation_center.x };
    s.rotation_center.y = match json_i32(value, "rotation_center_y") { Some(n) => n, None => s.rotation_center.y };
}

/// Sets a shape component's fields from a layout's shape attributes (see
/// `shape_attr_from_json`); an error naming `context`, with nothing
/// changed, when the value is not an object. The rendering matrix's
/// members are the caller's to read.
pub fn apply_shape_attr_json(value: &JsonValue, shape_attr: &mut ShapeComponentAttr, context: &str) -> (r: Result<(), String>)
    ensures
        value is Object ==> r is Ok && *final(shape_attr) == shape_attr_from_json(*value, *old(shape_attr)),
        !(value is Object) ==> (r matches Err(e) && e@ == context@ + " must be an object"@) && *final(shape_attr) == *old(shape_attr),
{
    match value {
        JsonValue::Object(_) => {},
        _ => {
            let mut m = string_of(context);
            push_str(&mut m, " must be an object");
            return Err(m);
        },
    }
    read_shape_sizes(value, shape_attr);
    read_shape_flips(value, shape_attr);
    read_shape_rotation(value, shape_attr);
    Ok(())
}

/// Sets a picture's shape component from its layout's shape attributes
/// (see `apply_shape_attr_json`).
pub fn apply_picture_shape_attr(value: &JsonValue, shape_attr: &mut ShapeComponentAttr) -> (r: Result<(), String>)
    ensures
        value is Object ==> r is Ok && *final(shape_attr) == shape_attr_from_json(*value, *old(shape_attr)),
        !(value is Object) ==> (r matches Err(e) && e@ == "picture layout.shape_attr must be an object"@) && *final(shape_attr) == *old(shape_attr),
{
    let r = apply_shape_attr_json(value, shape_attr, "picture layout.shape_attr");
    proof {
        reveal_strlit("picture layout.shape_attr");
        reveal_strlit(" must be an object");
        reveal_strlit("picture layout.shape_attr must be an object");
        assert("picture layout.shape_attr"@ + " must be an object"@ =~= "picture layout.shape_attr must be an object"@);
    }
    r
}

// ---------------------------------------------------------------------------
// Laws
// ---------------------------------------------------------------------------

/// Whether a shape component's flip bits agree with its flags (or are all
/// zero).
pub open spec fn flips_consistent(s: ShapeComponentAttr) -> bool {
    s.flip == 0 || (s.horz_flip == (s.flip & 1u32 != 0) && s.vert_flip == (s.flip & 2u32 != 0))
}

/// Whether `t` already holds every field of `s` that the layout JSON of
/// `s` leaves out (fields at their defaults are not written).
pub open spec fn unwritten_fields_kept(s: ShapeComponentAttr, t: ShapeComponentAttr, width: u32, height: u32) -> bool {
    &&& s.offset_x == 0 ==> t.offset_x == 0
    &&& s.offset_y == 0 ==> t.offset_y == 0
    &&& s.group_level == 0 ==> t.group_level == 0
    &&& s.local_file_version <= 1 ==> t.local_file_version == s.local_file_version
    &&& (s.original_width == 0 || s.original_width == width) ==> t.original_width == s.original_width
    &&& (s.original_height == 0 || s.original_height == height) ==> t.original_height == s.original_height
    &&& (s.current_width == 0 || s.current_width == width) ==> t.current_width == s.current_width
    &&& (s.current_height == 0 || s.current_height == height) ==> t.current_height == s.current_height
    &&& s.flip == 0 ==> t.flip == 0
    &&& s.flip == 0 && !s.horz_flip ==> !t.horz_flip
    &&& s.flip == 0 && !s.vert_flip ==> !t.vert_flip
    &&& s.rotation_angle == 0 ==> t.rotation_angle == 0
    &&& !s.rotate_image ==> !t.rotate_image
    &&& s.rotation_center.x == 0 ==> t.rotation_center.x == 0
    &&& s.rotation_center.y == 0 ==> t.rotation_center.y == 0
}

proof fn lemma_flip_bits(f: u32)
    by (bit_vector)
    ensures
        f & 1u32 != 0 ==> f | 1u32 == f,
        f & 2u32 != 0 ==> f | 2u32 == f,
        f & 1u32 == 0 ==> f & !1u32 == f,
        f & 2u32 == 0 ==> f & !2u32 == f,
{
}

/// A shape component written as layout JSON reads back unchanged onto a
/// component that already holds the fields left unwritten, when its flip
/// bits agree with its flags.
pub proof fn lemma_shape_attr_json_roundtrip(
    v: JsonValue,
    s: ShapeComponentAttr,
    width: u32,
    height: u32,
    render: Option<RenderMembers>,
    t: ShapeComponentAttr,
)
    requires
        v is Object,
        forall|k: Seq<char>| #![trigger members_get(v->Object_0@, k)]
            shape_attr_member(members_get(v->Object_0@, k), s, width, height, render, k),
        flips_consistent(s),
        unwritten_fields_kept(s, t, width, height),
    ensures
        shape_attr_from_json(v, t) == s,
{
    lemma_shape_attr_keys();
    lemma_flip_bits(s.flip);
    let m = v->Object_0@;
    assert(shape_attr_member(members_get(m, "offset_x"@), s, width, height, render, "offset_x"@));
    assert(shape_attr_member(members_get(m, "offset_y"@), s, width, height, render, "offset_y"@));
    assert(shape_attr_member(members_get(m, "group_level"@), s, width, height, render, "group_level"@));
    assert(shape_attr_member(members_get(m, "local_file_version"@), s, width, height, render, "local_file_version"@));
    assert(shape_attr_member(members_get(m, "original_width"@), s, width, height, render, "original_width"@));
    assert(shape_attr_member(members_get(m, "original_height"@), s, width, height, render, "original_height"@));
    assert(shape_attr_member(members_get(m, "current_width"@), s, width, height, render, "current_width"@));
    assert(shape_attr_member(members_get(m, "current_height"@), s, width, height, render, "current_height"@));
    assert(shape_attr_member(members_get(m, "flip"@), s, width, height, render, "flip"@));
    assert(shape_attr_member(members_get(m, "horz_flip"@), s, width, height, render, "horz_flip"@));
    assert(shape_attr_member(members_get(m, "vert_flip"@), s, width, height, render, "vert_flip"@));
    assert(shape_attr_member(members_get(m, "rotation_angle"@), s, width, height, render, "rotation_angle"@));
    assert(shape_attr_member(members_get(m, "rotate_image"@), s, width, height, render, "rotate_image"@));
    assert(shape_attr_member(members_get(m, "rotation_center_x"@), s, width, height, render, "rotation_center_x"@));
    assert(shape_attr_member(members_get(m, "rotation_center_y"@), s, width, height, render, "rotation_center_y"@));
}

} // verus!
