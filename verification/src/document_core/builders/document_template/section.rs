//! Page, section and footnote settings: how they are written into a
//! template and read back into the document model.

use super::names::{
    binding_method_from_u8, binding_method_from_u8_spec, binding_method_to_u8,
    binding_method_to_u8_spec, footnote_number_format_name, footnote_number_format_name_spec,
    footnote_numbering_name, footnote_numbering_name_spec, footnote_placement_name,
    footnote_placement_name_spec,
};
use super::{TemplateFootnoteShape, TemplatePageBorderFill, TemplatePageDef, TemplateSectionDef};
use crate::model::{BindingMethod, FootnoteShape, PageDef, SectionDef};
use crate::text::{push_char, str_eq, string_of};
use vstd::prelude::*;
use vstd::string::*;

verus! {

// ---------------------------------------------------------------------------
// Page definition
// ---------------------------------------------------------------------------

/// The page attribute word: the low three bits replaced by the landscape flag
/// (bit 0) and the binding code (bits 1-2); the other bits kept.
pub open spec fn page_attr_spec(attr: u32, landscape: bool, binding: BindingMethod) -> u32 {
    (attr & !0x07u32) | (if landscape {
        1u32
    } else {
        0u32
    }) | binding_bits_spec(binding)
}

/// The binding method's code shifted into bits 1-2 of the page attribute word.
pub open spec fn binding_bits_spec(binding: BindingMethod) -> u32 {
    match binding {
        BindingMethod::SingleSided => 0u32,
        BindingMethod::DuplexSided => 2u32,
        BindingMethod::TopFlip => 4u32,
    }
}

/// Re-encodes the landscape flag and binding method into `attr`.
pub fn normalize_page_def_attr(page_def: &mut PageDef)
    ensures
        final(page_def).attr == page_attr_spec(
            old(page_def).attr,
            old(page_def).landscape,
            old(page_def).binding,
        ),
        *final(page_def) == (PageDef { attr: final(page_def).attr, ..*old(page_def) }),
{
    let binding_bits: u32 = match page_def.binding {
        BindingMethod::SingleSided => 0u32,
        BindingMethod::DuplexSided => 2u32,
        BindingMethod::TopFlip => 4u32,
    };
    let landscape_bit: u32 = if page_def.landscape {
        1
    } else {
        0
    };
    page_def.attr = (page_def.attr & !0x07u32) | landscape_bit | binding_bits;
}

/// Normalising the page attribute twice gives what normalising it once gives.
pub proof fn lemma_page_attr_idempotent(attr: u32, landscape: bool, binding: BindingMethod)
    ensures
        page_attr_spec(page_attr_spec(attr, landscape, binding), landscape, binding)
            == page_attr_spec(attr, landscape, binding),
{
    let l: u32 = if landscape {
        1u32
    } else {
        0u32
    };
    let b: u32 = binding_bits_spec(binding);
    assert(b <= 4);
    assert(l <= 1);
    assert((((attr & !0x07u32) | l | b) & !0x07u32) | l | b == (attr & !0x07u32) | l | b)
        by (bit_vector)
        requires
            b <= 4,
            l <= 1,
    ;
}

/// The page settings as written into a template.
pub open spec fn template_page_def_spec(page_def: PageDef) -> TemplatePageDef {
    TemplatePageDef {
        width: page_def.width,
        height: page_def.height,
        margin_left: page_def.margin_left,
        margin_right: page_def.margin_right,
        margin_top: page_def.margin_top,
        margin_bottom: page_def.margin_bottom,
        margin_header: page_def.margin_header,
        margin_footer: page_def.margin_footer,
        margin_gutter: page_def.margin_gutter,
        pagination_bottom_tolerance: page_def.pagination_bottom_tolerance,
        attr: page_def.attr,
        landscape: page_def.landscape,
        binding: binding_method_to_u8_spec(page_def.binding),
    }
}

/// 용지 설정을 템플릿으로 옮긴다.
pub fn template_page_def(page_def: &PageDef) -> (r: TemplatePageDef)
    ensures
        r == template_page_def_spec(*page_def),
{
    TemplatePageDef {
        width: page_def.width,
        height: page_def.height,
        margin_left: page_def.margin_left,
        margin_right: page_def.margin_right,
        margin_top: page_def.margin_top,
        margin_bottom: page_def.margin_bottom,
        margin_header: page_def.margin_header,
        margin_footer: page_def.margin_footer,
        margin_gutter: page_def.margin_gutter,
        pagination_bottom_tolerance: page_def.pagination_bottom_tolerance,
        attr: page_def.attr,
        landscape: page_def.landscape,
        binding: binding_method_to_u8(page_def.binding),
    }
}

/// The page settings that a template describes, attribute bits normalised.
pub open spec fn page_def_to_model_spec(template: TemplatePageDef) -> PageDef {
    let binding = binding_method_from_u8_spec(template.binding);
    PageDef {
        width: template.width,
        height: template.height,
        margin_left: template.margin_left,
        margin_right: template.margin_right,
        margin_top: template.margin_top,
        margin_bottom: template.margin_bottom,
        margin_header: template.margin_header,
        margin_footer: template.margin_footer,
        margin_gutter: template.margin_gutter,
        pagination_bottom_tolerance: template.pagination_bottom_tolerance,
        attr: page_attr_spec(template.attr, template.landscape, binding),
        landscape: template.landscape,
        binding,
    }
}

/// 템플릿 용지 설정을 문서 모델로 옮긴다.
pub fn page_def_to_model(template: &TemplatePageDef) -> (r: PageDef)
    ensures
        r == page_def_to_model_spec(*template),
{
    let mut page_def = PageDef {
        width: template.width,
        height: template.height,
        margin_left: template.margin_left,
        margin_right: template.margin_right,
        margin_top: template.margin_top,
        margin_bottom: template.margin_bottom,
        margin_header: template.margin_header,
        margin_footer: template.margin_footer,
        margin_gutter: template.margin_gutter,
        pagination_bottom_tolerance: template.pagination_bottom_tolerance,
        attr: template.attr,
        landscape: template.landscape,
        binding: binding_method_from_u8(template.binding),
    };
    normalize_page_def_attr(&mut page_def);
    page_def
}

/// A page definition written into a template and read back is unchanged when
/// its attribute bits already agree with its landscape flag and binding.
pub proof fn lemma_page_def_template_roundtrip(page_def: PageDef)
    requires
        page_def.attr == page_attr_spec(page_def.attr, page_def.landscape, page_def.binding),
    ensures
        page_def_to_model_spec(template_page_def_spec(page_def)) == page_def,
{
}

/// Each size and margin of a page definition goes to the template field of
/// the same name, and so do the attribute word and the landscape flag.
pub proof fn lemma_template_page_def_fields(page_def: PageDef)
    ensures
        ({
            let t = template_page_def_spec(page_def);
            &&& t.width == page_def.width
            &&& t.height == page_def.height
            &&& t.margin_left == page_def.margin_left
            &&& t.margin_right == page_def.margin_right
            &&& t.margin_top == page_def.margin_top
            &&& t.margin_bottom == page_def.margin_bottom
            &&& t.margin_header == page_def.margin_header
            &&& t.margin_footer == page_def.margin_footer
            &&& t.margin_gutter == page_def.margin_gutter
            &&& t.pagination_bottom_tolerance == page_def.pagination_bottom_tolerance
            &&& t.attr == page_def.attr
            &&& t.landscape == page_def.landscape
        }),
{
}

/// Each size and margin of a template page definition goes to the model
/// field of the same name, and so does the landscape flag.
pub proof fn lemma_page_def_to_model_fields(template: TemplatePageDef)
    ensures
        ({
            let p = page_def_to_model_spec(template);
            &&& p.width == template.width
            &&& p.height == template.height
            &&& p.margin_left == template.margin_left
            &&& p.margin_right == template.margin_right
            &&& p.margin_top == template.margin_top
            &&& p.margin_bottom == template.margin_bottom
            &&& p.margin_header == template.margin_header
            &&& p.margin_footer == template.margin_footer
            &&& p.margin_gutter == template.margin_gutter
            &&& p.pagination_bottom_tolerance == template.pagination_bottom_tolerance
            &&& p.landscape == template.landscape
        }),
{
}

/// Reading a template page definition into the model and writing it back
/// keeps every field but the attribute word, whose low three bits are
/// re-encoded (and the binding code, when it was none of 0, 1, 2).
pub proof fn lemma_template_page_def_roundtrip(template: TemplatePageDef)
    requires
        template.binding <= 2,
    ensures
        ({
            let back = template_page_def_spec(page_def_to_model_spec(template));
            back == (TemplatePageDef {
                attr: page_attr_spec(
                    template.attr,
                    template.landscape,
                    binding_method_from_u8_spec(template.binding),
                ),
                ..template
            })
        }),
{
}

// ---------------------------------------------------------------------------
// Section definition
// ---------------------------------------------------------------------------

/// `flags` with `mask` set when `val`, cleared otherwise.
pub open spec fn with_bit(flags: u32, mask: u32, val: bool) -> u32 {
    if val {
        flags | mask
    } else {
        flags & !mask
    }
}

/// Sets or clears `mask` in `flags`.
fn set_bit(flags: &mut u32, mask: u32, val: bool)
    ensures
        *final(flags) == with_bit(*old(flags), mask, val),
{
    if val {
        *flags = *flags | mask;
    } else {
        *flags = *flags & !mask;
    }
}

/// The section flag word that a section definition's switches give: bits 0-5
/// the hide-header/footer/master-page/border/fill/page-number switches, bit 19
/// hide-empty-line, bits 20-21 the page-number kind; other bits kept.
pub open spec fn section_flags_spec(section_def: SectionDef) -> u32 {
    let f0 = with_bit(section_def.flags, 0x0001, section_def.hide_header);
    let f1 = with_bit(f0, 0x0002, section_def.hide_footer);
    let f2 = with_bit(f1, 0x0004, section_def.hide_master_page);
    let f3 = with_bit(f2, 0x0008, section_def.hide_border);
    let f4 = with_bit(f3, 0x0010, section_def.hide_fill);
    let f5 = with_bit(f4, 0x0020, section_def.hide_page_number);
    let f6 = with_bit(f5, 0x0008_0000, section_def.hide_empty_line);
    (f6 & !0x0030_0000u32) | (((section_def.page_num_type as u32) & 0x03u32) << 20u32)
}

/// Re-encodes the section switches into its flag word.
pub fn normalize_section_def_flags(section_def: &mut SectionDef)
    ensures
        final(section_def).flags == section_flags_spec(*old(section_def)),
        *final(section_def) == (SectionDef { flags: final(section_def).flags, ..*old(section_def) }),
{
    let mut flags = section_def.flags;
    set_bit(&mut flags, 0x0001, section_def.hide_header);
    set_bit(&mut flags, 0x0002, section_def.hide_footer);
    set_bit(&mut flags, 0x0004, section_def.hide_master_page);
    set_bit(&mut flags, 0x0008, section_def.hide_border);
    set_bit(&mut flags, 0x0010, section_def.hide_fill);
    set_bit(&mut flags, 0x0020, section_def.hide_page_number);
    set_bit(&mut flags, 0x0008_0000, section_def.hide_empty_line);
    flags = flags & !0x0030_0000u32;
    flags = flags | (((section_def.page_num_type as u32) & 0x03) << 20u32);
    section_def.flags = flags;
}

/// Each switch lands in its own bit of the flag word, the page-number kind in
/// bits 20-21, and the bits outside them are those of the original word.
pub proof fn lemma_section_flags_bits(section_def: SectionDef)
    ensures
        ({
            let f = section_flags_spec(section_def);
            &&& (f & 0x0001 != 0) == section_def.hide_header
            &&& (f & 0x0002 != 0) == section_def.hide_footer
            &&& (f & 0x0004 != 0) == section_def.hide_master_page
            &&& (f & 0x0008 != 0) == section_def.hide_border
            &&& (f & 0x0010 != 0) == section_def.hide_fill
            &&& (f & 0x0020 != 0) == section_def.hide_page_number
            &&& (f & 0x0008_0000 != 0) == section_def.hide_empty_line
            &&& (f >> 20u32) & 0x03 == (section_def.page_num_type as u32) & 0x03
            &&& f & !0x0038_003Fu32 == section_def.flags & !0x0038_003Fu32
        }),
{
    let x = section_def.flags;
    let a = section_def.hide_header;
    let b = section_def.hide_footer;
    let c = section_def.hide_master_page;
    let d = section_def.hide_border;
    let e = section_def.hide_fill;
    let g = section_def.hide_page_number;
    let h = section_def.hide_empty_line;
    let p = section_def.page_num_type as u32;
    let f0 = with_bit(x, 0x0001, a);
    let f1 = with_bit(f0, 0x0002, b);
    let f2 = with_bit(f1, 0x0004, c);
    let f3 = with_bit(f2, 0x0008, d);
    let f4 = with_bit(f3, 0x0010, e);
    let f5 = with_bit(f4, 0x0020, g);
    let f6 = with_bit(f5, 0x0008_0000, h);
    let f = (f6 & !0x0030_0000u32) | ((p & 0x03u32) << 20u32);
    assert({
        &&& (f & 0x0001 != 0) == a
        &&& (f & 0x0002 != 0) == b
        &&& (f & 0x0004 != 0) == c
        &&& (f & 0x0008 != 0) == d
        &&& (f & 0x0010 != 0) == e
        &&& (f & 0x0020 != 0) == g
        &&& (f & 0x0008_0000 != 0) == h
        &&& (f >> 20u32) & 0x03 == p & 0x03
        &&& f & !0x0038_003Fu32 == x & !0x0038_003Fu32
    }) by (bit_vector)
        requires
            f0 == (if a {
                x | 0x0001
            } else {
                x & !0x0001u32
            }),
            f1 == (if b {
                f0 | 0x0002
            } else {
                f0 & !0x0002u32
            }),
            f2 == (if c {
                f1 | 0x0004
            } else {
                f1 & !0x0004u32
            }),
            f3 == (if d {
                f2 | 0x0008
            } else {
                f2 & !0x0008u32
            }),
            f4 == (if e {
                f3 | 0x0010
            } else {
                f3 & !0x0010u32
            }),
            f5 == (if g {
                f4 | 0x0020
            } else {
                f4 & !0x0020u32
            }),
            f6 == (if h {
                f5 | 0x0008_0000
            } else {
                f5 & !0x0008_0000u32
            }),
            f == (f6 & !0x0030_0000u32) | ((p & 0x03u32) << 20u32),
    ;
    assert(f == section_flags_spec(section_def));
}

/// 구역 정의를 템플릿으로 옮긴다.
pub fn template_section_def(section_def: &SectionDef) -> (r: TemplateSectionDef)
    ensures
        r.section_id@ == section_def.section_id@,
        r.flags == section_def.flags,
        r.column_spacing == section_def.column_spacing,
        r.line_grid == section_def.line_grid,
        r.char_grid == section_def.char_grid,
        r.wonggoji_format == section_def.wonggoji_format,
        r.default_tab_spacing == section_def.default_tab_spacing,
        r.tab_stop_val == section_def.tab_stop_val,
        r.tab_stop_unit@ == section_def.tab_stop_unit@,
        r.page_num == section_def.page_num,
        r.page_num_type == section_def.page_num_type,
        r.picture_num == section_def.picture_num,
        r.table_num == section_def.table_num,
        r.equation_num == section_def.equation_num,
        r.hide_header == section_def.hide_header,
        r.hide_footer == section_def.hide_footer,
        r.hide_master_page == section_def.hide_master_page,
        r.hide_border == section_def.hide_border,
        r.visibility_border@ == section_def.visibility_border@,
        r.hide_fill == section_def.hide_fill,
        r.visibility_fill@ == section_def.visibility_fill@,
        r.hide_page_number == section_def.hide_page_number,
        r.hide_empty_line == section_def.hide_empty_line,
        r.show_line_number == section_def.show_line_number,
        r.text_direction == section_def.text_direction,
        r.outline_numbering_id == section_def.outline_numbering_id,
        r.memo_shape_id_ref == section_def.memo_shape_id_ref,
        r.text_vertical_width_head == section_def.text_vertical_width_head,
        r.line_number_restart_type == section_def.line_number_restart_type,
        r.line_number_count_by == section_def.line_number_count_by,
        r.line_number_distance == section_def.line_number_distance,
        r.line_number_start_number == section_def.line_number_start_number,
{
    TemplateSectionDef {
        section_id: string_of(section_def.section_id.as_str()),
        flags: section_def.flags,
        column_spacing: section_def.column_spacing,
        line_grid: section_def.line_grid,
        char_grid: section_def.char_grid,
        wonggoji_format: section_def.wonggoji_format,
        default_tab_spacing: section_def.default_tab_spacing,
        tab_stop_val: section_def.tab_stop_val,
        tab_stop_unit: string_of(section_def.tab_stop_unit.as_str()),
        page_num: section_def.page_num,
        page_num_type: section_def.page_num_type,
        picture_num: section_def.picture_num,
        table_num: section_def.table_num,
        equation_num: section_def.equation_num,
        hide_header: section_def.hide_header,
        hide_footer: section_def.hide_footer,
        hide_master_page: section_def.hide_master_page,
        hide_border: section_def.hide_border,
        visibility_border: string_of(section_def.visibility_border.as_str()),
        hide_fill: section_def.hide_fill,
        visibility_fill: string_of(section_def.visibility_fill.as_str()),
        hide_page_number: section_def.hide_page_number,
        hide_empty_line: section_def.hide_empty_line,
        show_line_number: section_def.show_line_number,
        text_direction: section_def.text_direction,
        outline_numbering_id: section_def.outline_numbering_id,
        memo_shape_id_ref: section_def.memo_shape_id_ref,
        text_vertical_width_head: section_def.text_vertical_width_head,
        line_number_restart_type: section_def.line_number_restart_type,
        line_number_count_by: section_def.line_number_count_by,
        line_number_distance: section_def.line_number_distance,
        line_number_start_number: section_def.line_number_start_number,
    }
}

/// Whether a section definition carries the settings of a template section
/// definition (the flag word aside).
pub open spec fn section_def_matches_template(s: SectionDef, t: TemplateSectionDef) -> bool {
    &&& s.section_id@ == t.section_id@
    &&& s.column_spacing == t.column_spacing
    &&& s.line_grid == t.line_grid
    &&& s.char_grid == t.char_grid
    &&& s.wonggoji_format == t.wonggoji_format
    &&& s.default_tab_spacing == t.default_tab_spacing
    &&& s.tab_stop_val == t.tab_stop_val
    &&& s.tab_stop_unit@ == t.tab_stop_unit@
    &&& s.page_num == t.page_num
    &&& s.page_num_type == t.page_num_type
    &&& s.picture_num == t.picture_num
    &&& s.table_num == t.table_num
    &&& s.equation_num == t.equation_num
    &&& s.hide_header == t.hide_header
    &&& s.hide_footer == t.hide_footer
    &&& s.hide_master_page == t.hide_master_page
    &&& s.hide_border == t.hide_border
    &&& s.visibility_border@ == t.visibility_border@
    &&& s.hide_fill == t.hide_fill
    &&& s.visibility_fill@ == t.visibility_fill@
    &&& s.hide_page_number == t.hide_page_number
    &&& s.hide_empty_line == t.hide_empty_line
    &&& s.show_line_number == t.show_line_number
    &&& s.text_direction == t.text_direction
    &&& s.outline_numbering_id == t.outline_numbering_id
    &&& s.memo_shape_id_ref == t.memo_shape_id_ref
    &&& s.text_vertical_width_head == t.text_vertical_width_head
    &&& s.line_number_restart_type == t.line_number_restart_type
    &&& s.line_number_count_by == t.line_number_count_by
    &&& s.line_number_distance == t.line_number_distance
    &&& s.line_number_start_number == t.line_number_start_number
}

/// 템플릿 구역 정의를 문서 모델의 구역 정의에 적용하고 플래그를 다시 계산한다.
pub fn apply_section_def_template(section_def: &mut SectionDef, template: &TemplateSectionDef)
    ensures
        section_def_matches_template(*final(section_def), *template),
        final(section_def).flags == section_flags_spec(
            SectionDef { flags: template.flags, ..*final(section_def) },
        ),
{
    section_def.flags = template.flags;
    section_def.section_id = string_of(template.section_id.as_str());
    section_def.column_spacing = template.column_spacing;
    section_def.line_grid = template.line_grid;
    section_def.char_grid = template.char_grid;
    section_def.wonggoji_format = template.wonggoji_format;
    section_def.default_tab_spacing = template.default_tab_spacing;
    section_def.tab_stop_val = template.tab_stop_val;
    section_def.tab_stop_unit = string_of(template.tab_stop_unit.as_str());
    section_def.page_num = template.page_num;
    section_def.page_num_type = template.page_num_type;
    section_def.picture_num = template.picture_num;
    section_def.table_num = template.table_num;
    section_def.equation_num = template.equation_num;
    section_def.hide_header = template.hide_header;
    section_def.hide_footer = template.hide_footer;
    section_def.hide_master_page = template.hide_master_page;
    section_def.hide_border = template.hide_border;
    section_def.visibility_border = string_of(template.visibility_border.as_str());
    section_def.hide_fill = template.hide_fill;
    section_def.visibility_fill = string_of(template.visibility_fill.as_str());
    section_def.hide_page_number = template.hide_page_number;
    section_def.hide_empty_line = template.hide_empty_line;
    section_def.show_line_number = template.show_line_number;
    section_def.text_direction = template.text_direction;
    section_def.outline_numbering_id = template.outline_numbering_id;
    section_def.memo_shape_id_ref = template.memo_shape_id_ref;
    section_def.text_vertical_width_head = template.text_vertical_width_head;
    section_def.line_number_restart_type = template.line_number_restart_type;
    section_def.line_number_count_by = template.line_number_count_by;
    section_def.line_number_distance = template.line_number_distance;
    section_def.line_number_start_number = template.line_number_start_number;
    normalize_section_def_flags(section_def);
}

// ---------------------------------------------------------------------------
// Footnote shape
// ---------------------------------------------------------------------------

/// The first character of a template character field, `'\0'` when empty.
pub open spec fn first_template_char_spec(value: Seq<char>) -> char {
    if value.len() > 0 {
        value[0]
    } else {
        '\0'
    }
}

/// 템플릿 문자 필드의 첫 글자 (비어 있으면 NUL).
pub fn first_template_char(value: &str) -> (r: char)
    ensures
        r == first_template_char_spec(value@),
{
    if value.unicode_len() > 0 {
        value.get_char(0)
    } else {
        '\0'
    }
}

/// The template text of a footnote character: empty for NUL, else that character.
pub open spec fn footnote_char_to_string_spec(value: char) -> Seq<char> {
    if value == '\0' {
        Seq::empty()
    } else {
        seq![value]
    }
}

/// 각주 문자를 템플릿 문자열로 (NUL은 빈 문자열).
pub fn footnote_char_to_string(value: char) -> (r: String)
    ensures
        r@ == footnote_char_to_string_spec(value),
{
    let mut s = String::new();
    if value != '\0' {
        push_char(&mut s, value);
    }
    assert(s@ =~= footnote_char_to_string_spec(value));
    s
}

/// A footnote character written into a template reads back unchanged.
pub proof fn lemma_footnote_char_roundtrip(value: char)
    ensures
        first_template_char_spec(footnote_char_to_string_spec(value)) == value,
{
}

/// 각주/미주 모양을 템플릿으로 옮긴다.
pub fn template_footnote_shape(shape: &FootnoteShape) -> (r: TemplateFootnoteShape)
    ensures
        r.attr == shape.attr,
        r.number_format@ == footnote_number_format_name_spec(shape.number_format),
        r.user_char@ == footnote_char_to_string_spec(shape.user_char),
        r.prefix_char@ == footnote_char_to_string_spec(shape.prefix_char),
        r.suffix_char@ == footnote_char_to_string_spec(shape.suffix_char),
        r.start_number == shape.start_number,
        r.separator_length == shape.separator_length,
        r.separator_margin_top == shape.separator_margin_top,
        r.separator_margin_bottom == shape.separator_margin_bottom,
        r.note_spacing == shape.note_spacing,
        r.separator_line_type == shape.separator_line_type,
        r.separator_line_width == shape.separator_line_width,
        r.separator_color == shape.separator_color,
        r.numbering@ == footnote_numbering_name_spec(shape.numbering),
        r.placement@ == footnote_placement_name_spec(shape.placement),
        r.number_code_superscript == shape.number_code_superscript,
        r.print_inline_after_text == shape.print_inline_after_text,
        r.raw_unknown == shape.raw_unknown,
{
    TemplateFootnoteShape {
        attr: shape.attr,
        number_format: string_of(footnote_number_format_name(shape.number_format)),
        user_char: footnote_char_to_string(shape.user_char),
        prefix_char: footnote_char_to_string(shape.prefix_char),
        suffix_char: footnote_char_to_string(shape.suffix_char),
        start_number: shape.start_number,
        separator_length: shape.separator_length,
        separator_margin_top: shape.separator_margin_top,
        separator_margin_bottom: shape.separator_margin_bottom,
        note_spacing: shape.note_spacing,
        separator_line_type: shape.separator_line_type,
        separator_line_width: shape.separator_line_width,
        separator_color: shape.separator_color,
        numbering: string_of(footnote_numbering_name(shape.numbering)),
        placement: string_of(footnote_placement_name(shape.placement)),
        number_code_superscript: shape.number_code_superscript,
        print_inline_after_text: shape.print_inline_after_text,
        raw_unknown: shape.raw_unknown,
    }
}

// ---------------------------------------------------------------------------
// Page border and fill
// ---------------------------------------------------------------------------

/// The fill area's code in a page border's attribute (bits 3 and 4): 1 for
/// `page`, 2 for `border`, 0 otherwise.
pub open spec fn fill_area_code(fill_area: Seq<char>) -> u32 {
    if fill_area == "page"@ {
        1
    } else if fill_area == "border"@ {
        2
    } else {
        0
    }
}

/// Whether a page border attribute holds a template's settings: bit 0 set
/// when the border is measured from the page, bit 1 when the header is
/// inside, bit 2 when the footer is inside, bits 3 and 4 the fill area's
/// code, and every other bit as the template's attribute has it.
pub open spec fn is_page_border_attr(r: u32, t: TemplatePageBorderFill) -> bool {
    &&& (r & 1u32 != 0) == (t.basis@ == "page"@)
    &&& (r & 2u32 != 0) == t.header_inside
    &&& (r & 4u32 != 0) == t.footer_inside
    &&& (r >> 3u32) & 3u32 == fill_area_code(t.fill_area@)
    &&& r & !0x1fu32 == t.attr & !0x1fu32
}

/// The attribute bits composed step by step: the measuring basis, the
/// header and footer flags, then the fill area's code.
pub open spec fn composed_page_border_attr(a0: u32, page: bool, h: bool, f: bool, code: u32) -> u32 {
    let a1 = if page { a0 | 1u32 } else { a0 & !1u32 };
    let a2 = if h { a1 | 2u32 } else { a1 & !2u32 };
    let a3 = if f { a2 | 4u32 } else { a2 & !4u32 };
    (a3 & !(3u32 << 3u32)) | (code << 3u32)
}

proof fn lemma_page_border_bits(a0: u32, page: bool, h: bool, f: bool, code: u32)
    by (bit_vector)
    requires
        code <= 2,
    ensures
        (composed_page_border_attr(a0, page, h, f, code) & 1u32 != 0) == page,
        (composed_page_border_attr(a0, page, h, f, code) & 2u32 != 0) == h,
        (composed_page_border_attr(a0, page, h, f, code) & 4u32 != 0) == f,
        (composed_page_border_attr(a0, page, h, f, code) >> 3u32) & 3u32 == code,
        composed_page_border_attr(a0, page, h, f, code) & !0x1fu32 == a0 & !0x1fu32,
{
}

/// A page border's attribute from its template (see `is_page_border_attr`).
pub fn page_border_attr_from_template(template: &TemplatePageBorderFill) -> (r: u32)
    ensures
        is_page_border_attr(r, *template),
{
    let page = str_eq(template.basis.as_str(), "page");
    let mut attr = template.attr;
    if page {
        attr = attr | 0x01;
    } else {
        attr = attr & !0x01u32;
    }
    if template.header_inside {
        attr = attr | 0x02;
    } else {
        attr = attr & !0x02u32;
    }
    if template.footer_inside {
        attr = attr | 0x04;
    } else {
        attr = attr & !0x04u32;
    }
    attr = attr & !(0x03u32 << 3u32);
    let code: u32 = if str_eq(template.fill_area.as_str(), "page") {
        1
    } else if str_eq(template.fill_area.as_str(), "border") {
        2
    } else {
        0
    };
    proof {
        lemma_page_border_bits(template.attr, page, template.header_inside, template.footer_inside, code);
    }
    attr | (code << 3u32)
}

/// `fill_area_code` gives each value for exactly the texts listed here; any other
/// text gives the default.
pub proof fn lemma_fill_area_code_texts(fill_area: Seq<char>)
    ensures
        fill_area_code(fill_area) == 1 <==> (fill_area == "page"@),
        fill_area_code(fill_area) == 2 <==> (fill_area == "border"@),
        fill_area_code(fill_area) == 0 <==> (!(fill_area == "page"@ || fill_area == "border"@)),
{
    reveal_strlit("page");
    reveal_strlit("border");
    assert("page"@.len() != "border"@.len());
}

} // verus!
