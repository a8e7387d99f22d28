//! An object's common attributes as the template's object layout JSON:
//! placement, size, wrapping, description and numbering.

use super::effect_writer::{insert_member, new_members};
use super::names::{
    horz_rel_to_name, horz_rel_to_name_spec, obj_horz_align_name, obj_horz_align_name_spec,
    obj_vert_align_name, obj_vert_align_name_spec, object_numbering_type_name,
    object_numbering_type_name_spec, size_criterion_name, size_criterion_name_spec, text_flow_name,
    text_flow_name_spec, text_wrap_name, text_wrap_name_spec, vert_rel_to_name,
    vert_rel_to_name_spec,
};
use super::picture_layout::int_json;
use crate::json_value::{json_from_i64, json_from_u64, members_get, members_unique, JsonNumber, JsonValue};
use crate::model::CommonObjAttr;
use crate::text::string_of;
use vstd::prelude::*;

verus! {

/// A member holding an optional text: the text as a JSON string, or null.
pub open spec fn opt_string_member(got: Option<JsonValue>, value: Option<String>) -> bool {
    match value {
        Some(t) => got matches Some(JsonValue::String(s)) && s@ == t@,
        None => got == Some(JsonValue::Null),
    }
}

fn opt_string_json(value: &Option<String>) -> (r: JsonValue)
    ensures
        opt_string_member(Some(r), *value),
{
    match value {
        Some(t) => JsonValue::String(string_of(t.as_str())),
        None => JsonValue::Null,
    }
}

/// The member `k` of an object's layout JSON: each common attribute under
/// its own name, kinds and rules by their template names; nothing else.
pub open spec fn common_layout_member(got: Option<JsonValue>, c: CommonObjAttr, k: Seq<char>) -> bool {
    if k == "attr"@ {
        got == Some(JsonValue::Number(JsonNumber::PosInt(c.attr as u64)))

    } else if k == "width"@ {
        got == Some(JsonValue::Number(JsonNumber::PosInt(c.width as u64)))

    } else if k == "height"@ {
        got == Some(JsonValue::Number(JsonNumber::PosInt(c.height as u64)))

    } else if k == "z_order"@ {
        got == Some(int_json(c.z_order as int))

    } else if k == "instance_id"@ {
        got == Some(JsonValue::Number(JsonNumber::PosInt(c.instance_id as u64)))

    } else if k == "inst_id"@ {
        got == Some(JsonValue::Number(JsonNumber::PosInt(c.inst_id as u64)))

    } else if k == "treat_as_char"@ {
        got == Some(JsonValue::Bool(c.treat_as_char))

    } else if k == "flow_with_text"@ {
        got == Some(JsonValue::Bool(c.flow_with_text))

    } else if k == "allow_overlap"@ {
        got == Some(JsonValue::Bool(c.allow_overlap))

    } else if k == "size_protect"@ {
        got == Some(JsonValue::Bool(c.size_protect))

    } else if k == "lock"@ {
        got == Some(JsonValue::Bool(c.lock))

    } else if k == "prevent_page_break"@ {
        got == Some(int_json(c.prevent_page_break as int))

    } else if k == "vert_rel_to"@ {
        got matches Some(JsonValue::String(s)) && s@ == vert_rel_to_name_spec(c.vert_rel_to)

    } else if k == "vert_align"@ {
        got matches Some(JsonValue::String(s)) && s@ == obj_vert_align_name_spec(c.vert_align)

    } else if k == "horz_rel_to"@ {
        got matches Some(JsonValue::String(s)) && s@ == horz_rel_to_name_spec(c.horz_rel_to)

    } else if k == "horz_align"@ {
        got matches Some(JsonValue::String(s)) && s@ == obj_horz_align_name_spec(c.horz_align)

    } else if k == "text_wrap"@ {
        got matches Some(JsonValue::String(s)) && s@ == text_wrap_name_spec(c.text_wrap)

    } else if k == "text_flow"@ {
        got matches Some(JsonValue::String(s)) && s@ == text_flow_name_spec(c.text_flow)

    } else if k == "width_criterion"@ {
        got matches Some(JsonValue::String(s)) && s@ == size_criterion_name_spec(c.width_criterion)

    } else if k == "height_criterion"@ {
        got matches Some(JsonValue::String(s)) && s@ == size_criterion_name_spec(c.height_criterion)

    } else if k == "horizontal_offset"@ {
        got == Some(JsonValue::Number(JsonNumber::PosInt(c.horizontal_offset as u64)))

    } else if k == "vertical_offset"@ {
        got == Some(JsonValue::Number(JsonNumber::PosInt(c.vertical_offset as u64)))

    } else if k == "description"@ {
        got matches Some(JsonValue::String(s)) && s@ == c.description@

    } else if k == "dropcap_style"@ {
        opt_string_member(got, c.dropcap_style)

    } else if k == "href"@ {
        opt_string_member(got, c.href)

    } else if k == "numbering_type"@ {
        got matches Some(JsonValue::String(s)) && s@ == object_numbering_type_name_spec(c.numbering_type)

    } else if k == "numbering_type_explicit"@ {
        got == Some(JsonValue::Bool(c.numbering_type_explicit))
    } else {
        got is None
    }
}

/// An object's layout JSON (see `common_layout_member`).
pub open spec fn is_common_layout_json(v: JsonValue, c: CommonObjAttr) -> bool {
    &&& v is Object
    &&& members_unique(v->Object_0@)
    &&& forall|k: Seq<char>| #![trigger members_get(v->Object_0@, k)] common_layout_member(members_get(v->Object_0@, k), c, k)
}

proof fn lemma_common_layout_keys()
    ensures
        "attr"@.len() == 4,
        "width"@.len() == 5,
        "height"@.len() == 6,
        "z_order"@.len() == 7,
        "instance_id"@.len() == 11,
        "inst_id"@.len() == 7,
        "treat_as_char"@.len() == 13,
        "flow_with_text"@.len() == 14,
        "allow_overlap"@.len() == 13,
        "size_protect"@.len() == 12,
        "lock"@.len() == 4,
        "prevent_page_break"@.len() == 18,
        "vert_rel_to"@.len() == 11,
        "vert_align"@.len() == 10,
        "horz_rel_to"@.len() == 11,
        "horz_align"@.len() == 10,
        "text_wrap"@.len() == 9,
        "text_flow"@.len() == 9,
        "width_criterion"@.len() == 15,
        "height_criterion"@.len() == 16,
        "horizontal_offset"@.len() == 17,
        "vertical_offset"@.len() == 15,
        "description"@.len() == 11,
        "dropcap_style"@.len() == 13,
        "href"@.len() == 4,
        "numbering_type"@.len() == 14,
        "numbering_type_explicit"@.len() == 23,
        "attr"@[0] == 'a',
        "lock"@[0] == 'l',
        "href"@[0] == 'h',
        "instance_id"@[0] == 'i',
        "vert_rel_to"@[0] == 'v',
        "inst_id"@[0] == 'i',
        "z_order"@[0] == 'z',
        "flow_with_text"@[0] == 'f',
        "numbering_type"@[0] == 'n',
        "allow_overlap"@[0] == 'a',
        "treat_as_char"@[0] == 't',
        "dropcap_style"@[0] == 'd',
        "horz_rel_to"@[0] == 'h',
        "horz_align"@[0] == 'h',
        "vert_align"@[0] == 'v',
        "text_flow"@[5] == 'f',
        "text_wrap"@[5] == 'w',
        "vertical_offset"@[0] == 'v',
        "width_criterion"@[0] == 'w',
        "description"@[0] == 'd',
{
    reveal_strlit("attr");
    reveal_strlit("width");
    reveal_strlit("height");
    reveal_strlit("z_order");
    reveal_strlit("instance_id");
    reveal_strlit("inst_id");
    reveal_strlit("treat_as_char");
    reveal_strlit("flow_with_text");
    reveal_strlit("allow_overlap");
    reveal_strlit("size_protect");
    reveal_strlit("lock");
    reveal_strlit("prevent_page_break");
    reveal_strlit("vert_rel_to");
    reveal_strlit("vert_align");
    reveal_strlit("horz_rel_to");
    reveal_strlit("horz_align");
    reveal_strlit("text_wrap");
    reveal_strlit("text_flow");
    reveal_strlit("width_criterion");
    reveal_strlit("height_criterion");
    reveal_strlit("horizontal_offset");
    reveal_strlit("vertical_offset");
    reveal_strlit("description");
    reveal_strlit("dropcap_style");
    reveal_strlit("href");
    reveal_strlit("numbering_type");
    reveal_strlit("numbering_type_explicit");
}

/// An object's common attributes as its layout JSON (see
/// `common_layout_member`); there is always one.
pub fn common_object_layout_template(common: &CommonObjAttr) -> (r: Option<JsonValue>)
    ensures
        r matches Some(v) && is_common_layout_json(v, *common),
{
    let c = common;
    let mut map = new_members();
    insert_member(&mut map, "attr", json_from_u64(c.attr as u64));
    insert_member(&mut map, "width", json_from_u64(c.width as u64));
    insert_member(&mut map, "height", json_from_u64(c.height as u64));
    insert_member(&mut map, "z_order", json_from_i64(c.z_order as i64));
    insert_member(&mut map, "instance_id", json_from_u64(c.instance_id as u64));
    insert_member(&mut map, "inst_id", json_from_u64(c.inst_id as u64));
    insert_member(&mut map, "treat_as_char", JsonValue::Bool(c.treat_as_char));
    insert_member(&mut map, "flow_with_text", JsonValue::Bool(c.flow_with_text));
    insert_member(&mut map, "allow_overlap", JsonValue::Bool(c.allow_overlap));
    insert_member(&mut map, "size_protect", JsonValue::Bool(c.size_protect));
    insert_member(&mut map, "lock", JsonValue::Bool(c.lock));
    insert_member(&mut map, "prevent_page_break", json_from_i64(c.prevent_page_break as i64));
    insert_member(&mut map, "vert_rel_to", JsonValue::String(string_of(vert_rel_to_name(c.vert_rel_to))));
    insert_member(&mut map, "vert_align", JsonValue::String(string_of(obj_vert_align_name(c.vert_align))));
    insert_member(&mut map, "horz_rel_to", JsonValue::String(string_of(horz_rel_to_name(c.horz_rel_to))));
    insert_member(&mut map, "horz_align", JsonValue::String(string_of(obj_horz_align_name(c.horz_align))));
    insert_member(&mut map, "text_wrap", JsonValue::String(string_of(text_wrap_name(c.text_wrap))));
    insert_member(&mut map, "text_flow", JsonValue::String(string_of(text_flow_name(c.text_flow))));
    insert_member(&mut map, "width_criterion", JsonValue::String(string_of(size_criterion_name(c.width_criterion))));
    insert_member(&mut map, "height_criterion", JsonValue::String(string_of(size_criterion_name(c.height_criterion))));
    insert_member(&mut map, "horizontal_offset", json_from_u64(c.horizontal_offset as u64));
    insert_member(&mut map, "vertical_offset", json_from_u64(c.vertical_offset as u64));
    insert_member(&mut map, "description", JsonValue::String(string_of(c.description.as_str())));
    insert_member(&mut map, "dropcap_style", opt_string_json(&c.dropcap_style));
    insert_member(&mut map, "href", opt_string_json(&c.href));
    insert_member(&mut map, "numbering_type", JsonValue::String(string_of(object_numbering_type_name(c.numbering_type))));
    insert_member(&mut map, "numbering_type_explicit", JsonValue::Bool(c.numbering_type_explicit));
    proof {
        lemma_common_layout_keys();
    }
    Some(JsonValue::Object(map))
}

} // verus!
