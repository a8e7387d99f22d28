//! Lightweight document-template structures: a structural (not lossless)
//! description of a document's text paragraphs, page/column breaks, tables,
//! pictures, object placeholders, formatting and headers/footers, from which
//! documents are regenerated and compared.

pub mod fields;
pub mod attrs;
pub mod blocks;
pub mod effect_writer;
pub mod effect_xml;
pub mod effect_fragments;
pub mod effect_json;
pub mod effects;
pub mod flow;
pub mod flow_laws;
pub mod geometry;
pub mod hints;
pub mod names;
pub mod name_laws;
pub mod object_layout;
pub mod objects;
pub mod payload;
pub mod picture_layout;
pub mod placeholder;
pub mod runs;
pub mod section;
pub mod shape_attr;
pub mod stats;
pub mod xml_events;
pub mod zones;

use crate::text::string_of;
use crate::json_value::JsonValue;
use vstd::prelude::*;

verus! {

/// 문서 템플릿.
#[derive(Debug)]
pub struct DocumentTemplate {
    pub version: String,
    pub source_page_count: Option<u32>,
    pub font_faces: Vec<Vec<TemplateFont>>,
    pub char_shapes: Vec<TemplateCharShape>,
    pub para_shapes: Vec<TemplateParaShape>,
    pub styles: Vec<TemplateStyle>,
    pub sections: Vec<TemplateSection>,
    pub headers: Vec<TemplateHeaderFooter>,
    pub footers: Vec<TemplateHeaderFooter>,
    pub master_pages: Vec<TemplateMasterPage>,
}

/// 템플릿 구역.
#[derive(Debug, Default)]
pub struct TemplateSection {
    pub page_def: Option<TemplatePageDef>,
    pub section_def: Option<TemplateSectionDef>,
    pub page_border_fill: Option<TemplatePageBorderFill>,
    pub footnote_shape: Option<TemplateFootnoteShape>,
    pub endnote_shape: Option<TemplateFootnoteShape>,
    pub blocks: Vec<TemplateBlock>,
}

/// 용지 설정 템플릿.
#[derive(Debug, Clone, PartialEq)]
pub struct TemplatePageDef {
    pub width: u32,
    pub height: u32,
    pub margin_left: u32,
    pub margin_right: u32,
    pub margin_top: u32,
    pub margin_bottom: u32,
    pub margin_header: u32,
    pub margin_footer: u32,
    pub margin_gutter: u32,
    pub pagination_bottom_tolerance: u32,
    pub attr: u32,
    pub landscape: bool,
    pub binding: u8,
}

/// 구역 정의 템플릿.
#[derive(Debug, Clone, Default, PartialEq)]
pub struct TemplateSectionDef {
    pub section_id: String,
    pub flags: u32,
    pub column_spacing: i16,
    pub line_grid: i16,
    pub char_grid: i16,
    pub wonggoji_format: u8,
    pub default_tab_spacing: u32,
    pub tab_stop_val: u32,
    pub tab_stop_unit: String,
    pub page_num: u16,
    pub page_num_type: u8,
    pub picture_num: u16,
    pub table_num: u16,
    pub equation_num: u16,
    pub hide_header: bool,
    pub hide_footer: bool,
    pub hide_master_page: bool,
    pub hide_border: bool,
    pub visibility_border: String,
    pub hide_fill: bool,
    pub visibility_fill: String,
    pub hide_page_number: bool,
    pub hide_empty_line: bool,
    pub show_line_number: bool,
    pub text_direction: u8,
    pub outline_numbering_id: u16,
    pub memo_shape_id_ref: u16,
    pub text_vertical_width_head: u32,
    pub line_number_restart_type: u8,
    pub line_number_count_by: u16,
    pub line_number_distance: u32,
    pub line_number_start_number: u16,
}

/// 쪽 테두리/배경 템플릿.
#[derive(Debug, Clone)]
pub struct TemplatePageBorderFill {
    pub attr: u32,
    pub basis: String,
    pub spacing_left: i16,
    pub spacing_right: i16,
    pub spacing_top: i16,
    pub spacing_bottom: i16,
    pub header_inside: bool,
    pub footer_inside: bool,
    pub fill_area: String,
    pub border_fill: Option<JsonValue>,
}

/// 각주/미주 모양 템플릿.
#[derive(Debug, Clone, PartialEq)]
pub struct TemplateFootnoteShape {
    pub attr: u32,
    pub number_format: String,
    pub user_char: String,
    pub prefix_char: String,
    pub suffix_char: String,
    pub start_number: u16,
    pub separator_length: i16,
    pub separator_margin_top: i16,
    pub separator_margin_bottom: i16,
    pub note_spacing: i16,
    pub separator_line_type: u8,
    pub separator_line_width: u8,
    pub separator_color: u32,
    pub numbering: String,
    pub placement: String,
    pub number_code_superscript: bool,
    pub print_inline_after_text: bool,
    pub raw_unknown: u16,
}

/// 템플릿 블록: 문단, 표, 수식, 그림, 개체 자리표시자.
#[derive(Debug)]
pub enum TemplateBlock {
    Paragraph {
        text: String,
        break_before: Option<TemplateBreak>,
        style: Option<TemplateStyleRef>,
        char_format: Option<JsonValue>,
        char_shape_runs: Vec<TemplateCharShapeRun>,
        para_format: Option<JsonValue>,
        line_segments: Vec<TemplateLineSeg>,
    },
    Table {
        rows: Vec<Vec<String>>,
        break_before: Option<TemplateBreak>,
        rhwp_saved_gap_before: Option<i32>,
        host_group: Option<u32>,
        style: Option<TemplateStyleRef>,
        host_para_shape_id: u16,
        para_format: Option<JsonValue>,
        line_segments: Vec<TemplateLineSeg>,
        caption: Option<TemplateCaption>,
        column_widths: Vec<u32>,
        row_heights: Vec<u32>,
        table_layout: Option<TemplateTableLayout>,
        object_layout: Option<JsonValue>,
        border_fill: Option<JsonValue>,
        table_zones: Vec<TemplateTableZone>,
        cell_layouts: Vec<Vec<TemplateCellLayout>>,
        cell_formats: Vec<Vec<TemplateTextFormat>>,
        cell_blocks: Vec<Vec<Vec<TemplateBlock>>>,
    },
    Equation {
        script: String,
        break_before: Option<TemplateBreak>,
        host_group: Option<u32>,
        font_size: u32,
        color: u32,
        baseline: i16,
        font_name: String,
        line_mode: String,
        width: u32,
        height: u32,
        treat_as_char: bool,
    },
    Picture {
        break_before: Option<TemplateBreak>,
        host_group: Option<u32>,
        line_segments: Vec<TemplateLineSeg>,
        image_base64: String,
        external_path: String,
        extension: String,
        width: u32,
        height: u32,
        natural_width_px: u32,
        natural_height_px: u32,
        description: String,
        transparency: u8,
        brightness: i8,
        contrast: i8,
        effect: String,
        effects: Option<JsonValue>,
        layout: Option<JsonValue>,
        object_layout: Option<JsonValue>,
        treat_as_char: bool,
        horz_offset: u32,
        vert_offset: u32,
        caption: Option<TemplateCaption>,
    },
    ObjectPlaceholder {
        object_kind: String,
        break_before: Option<TemplateBreak>,
        host_group: Option<u32>,
        shape_kind: String,
        description: String,
        placeholder_text: String,
        width: u32,
        height: u32,
        treat_as_char: bool,
        horz_offset: u32,
        vert_offset: u32,
        caption: Option<TemplateCaption>,
        shape_component_id: u32,
        geometry: Option<JsonValue>,
        drawing_style: Option<JsonValue>,
        layout: Option<JsonValue>,
        children: Vec<TemplateBlock>,
        raw_hwp_chart_data_base64: String,
        raw_hwp_ole_tag_base64: String,
        ole_bin_data_base64: String,
        ole_extension: String,
        ole_object_type: String,
        ole_draw_aspect: String,
        ole_eq_base_line: String,
        ole_has_moniker: String,
    },
}

/// 셀 텍스트 서식 템플릿.
#[derive(Debug, Clone, Default)]
pub struct TemplateTextFormat {
    pub style: Option<TemplateStyleRef>,
    pub char_format: Option<JsonValue>,
    pub char_shape_runs: Vec<TemplateCharShapeRun>,
    pub para_format: Option<JsonValue>,
}

/// 글자 모양 구간 (UTF-16 시작 위치, 글자 모양 ID).
#[derive(Debug, Clone, Copy, Default, PartialEq, Eq, Structural)]
pub struct TemplateCharShapeRun {
    pub start_pos: u32,
    pub char_shape_id: u32,
}

/// 셀 레이아웃 템플릿.
#[derive(Debug, Clone)]
pub struct TemplateCellLayout {
    pub col_span: u16,
    pub row_span: u16,
    pub padding_left: i16,
    pub padding_right: i16,
    pub padding_top: i16,
    pub padding_bottom: i16,
    pub apply_inner_margin: bool,
    pub vertical_align: String,
    pub text_direction: u8,
    pub is_header: bool,
    pub cell_protect: bool,
    pub editable_in_form: bool,
    pub dirty: bool,
    pub line_wrap: String,
    pub link_list_id_ref: u32,
    pub link_list_next_id_ref: u32,
    pub text_width: u32,
    pub text_height: u32,
    pub has_text_ref: u8,
    pub has_num_ref: u8,
    pub field_name: String,
    pub border_fill: Option<JsonValue>,
}

/// 표 영역 (테두리/배경을 공유하는 셀 범위).
#[derive(Debug, Clone, Default)]
pub struct TemplateTableZone {
    pub start_row: u16,
    pub start_col: u16,
    pub end_row: u16,
    pub end_col: u16,
    pub border_fill: Option<JsonValue>,
}

/// 표 레이아웃 템플릿.
#[derive(Debug, Clone, PartialEq)]
pub struct TemplateTableLayout {
    pub cell_spacing: i16,
    pub padding_left: i16,
    pub padding_right: i16,
    pub padding_top: i16,
    pub padding_bottom: i16,
    pub page_break: String,
    pub repeat_header: bool,
    pub outer_margin_left: i16,
    pub outer_margin_right: i16,
    pub outer_margin_top: i16,
    pub outer_margin_bottom: i16,
}

/// 캡션 템플릿.
#[derive(Debug, Default)]
pub struct TemplateCaption {
    pub direction: String,
    pub vert_align: String,
    pub width: u32,
    pub spacing: i16,
    pub max_width: u32,
    pub include_margin: bool,
    pub blocks: Vec<TemplateBlock>,
}

/// 글꼴 템플릿.
#[derive(Debug, Clone, Default, PartialEq)]
pub struct TemplateFont {
    pub name: String,
    pub alt_type: u8,
    pub alt_name: Option<String>,
    pub default_name: Option<String>,
    pub raw_hwp_font_base64: String,
    pub type_info_base64: String,
    pub subst_font: Option<TemplateSubstFont>,
}

/// 대체 글꼴 템플릿.
#[derive(Debug, Clone, Default, PartialEq, Eq)]
pub struct TemplateSubstFont {
    pub face: String,
    pub font_type: u8,
    pub is_embedded: bool,
    pub bin_item_id_ref: String,
}

/// 글자 모양 템플릿.
#[derive(Debug, Clone, Default, PartialEq)]
pub struct TemplateCharShape {
    pub id: u32,
    pub font_ids: [u16; 7],
    pub ratios: [u8; 7],
    pub spacings: [i8; 7],
    pub relative_sizes: [u8; 7],
    pub char_offsets: [i8; 7],
    pub base_size: i32,
    pub bold: bool,
    pub italic: bool,
    pub underline_type: String,
    pub underline_shape: u8,
    pub underline_color: u32,
    pub strikethrough: bool,
    pub strike_shape: u8,
    pub strike_color: u32,
    pub text_color: u32,
    pub raw_hwp_char_shape_base64: String,
}

/// 문단 모양 템플릿.
#[derive(Debug, Clone, Default, PartialEq)]
pub struct TemplateParaShape {
    pub id: u16,
    pub alignment: String,
    pub line_spacing_type: String,
    pub line_spacing: i32,
    pub indent: i32,
    pub margin_left: i32,
    pub margin_right: i32,
    pub spacing_before: i32,
    pub spacing_after: i32,
    pub tab_def_id: u16,
    pub numbering_id: u16,
    pub border_fill_id: u16,
    pub border_spacing: [i16; 4],
    pub attr1: u32,
    pub attr2: u32,
    pub attr3: u32,
    pub line_spacing_v2: u32,
    pub suppress_line_numbers: bool,
    pub checked: bool,
    pub auto_spacing_easian_eng: Option<bool>,
    pub auto_spacing_easian_num: Option<bool>,
    pub head_type: String,
    pub para_level: u8,
    pub raw_hwp_para_shape_base64: String,
}

/// 스타일 템플릿.
#[derive(Debug, Clone, Default, PartialEq)]
pub struct TemplateStyle {
    pub id: u8,
    pub name: String,
    pub english_name: String,
    pub style_type: u8,
    pub next_style_id: u8,
    pub lang_id: i16,
    pub para_shape_id: u16,
    pub char_shape_id: u16,
    pub raw_hwp_style_base64: String,
}

/// 스타일 참조.
#[derive(Debug, Clone, Default, PartialEq)]
pub struct TemplateStyleRef {
    pub id: u8,
    pub name: String,
    pub english_name: String,
}

/// 블록 앞의 나눔 (쪽/단).
#[derive(Debug, Clone, Copy, PartialEq, Eq, Structural)]
pub enum TemplateBreak {
    Page,
    Column,
}

/// 줄 배치 정보 템플릿.
#[derive(Debug, Clone, Copy, Default, PartialEq, Eq, Structural)]
pub struct TemplateLineSeg {
    pub text_start: u32,
    pub vertical_pos: i32,
    pub line_height: i32,
    pub text_height: i32,
    pub baseline_distance: i32,
    pub line_spacing: i32,
    pub column_start: i32,
    pub segment_width: i32,
    pub tag: u32,
}

/// 머리말/꼬리말 템플릿.
#[derive(Debug)]
pub struct TemplateHeaderFooter {
    pub section: usize,
    pub apply_to: u8,
    pub blocks: Vec<TemplateBlock>,
}

/// 바탕쪽 템플릿.
#[derive(Debug)]
pub struct TemplateMasterPage {
    pub section: usize,
    pub apply_to: u8,
    pub is_extension: bool,
    pub overlap: bool,
    pub replace_base: bool,
    pub ext_flags: u16,
    pub text_width: u32,
    pub text_height: u32,
    pub text_ref: u8,
    pub num_ref: u8,
    pub hwpx_page_number: Option<u16>,
    pub blocks: Vec<TemplateBlock>,
}

/// 템플릿 통계.
#[derive(Debug, Clone, Copy, Default, PartialEq, Eq, Structural)]
pub struct TemplateStats {
    pub section_count: usize,
    pub block_count: usize,
    pub paragraph_count: usize,
    pub table_count: usize,
    pub table_cell_count: usize,
    pub equation_count: usize,
    pub picture_count: usize,
    pub object_placeholder_count: usize,
    pub char_shape_count: usize,
    pub para_shape_count: usize,
    pub style_count: usize,
    pub header_count: usize,
    pub footer_count: usize,
    pub master_page_count: usize,
}

/// 쪽 흐름 흔적 정리 결과.
#[derive(Debug, Clone, Copy, Default, PartialEq, Eq, Structural)]
pub struct TemplatePageFlowCompactReport {
    pub empty_paragraph_page_breaks_removed: usize,
    pub floating_object_page_breaks_removed: usize,
    pub inline_picture_page_breaks_removed: usize,
    pub sibling_paragraph_page_breaks_removed: usize,
    pub total_removed: usize,
}

/// 템플릿 추출 옵션.
#[derive(Debug, Clone, Copy, Default, PartialEq, Eq, Structural)]
pub struct ExtractDocumentTemplateOptions {
    pub preserve_empty_paragraphs: bool,
}

// ---------------------------------------------------------------------------
// Field defaults
// ---------------------------------------------------------------------------

/// 템플릿 형식 이름.
pub fn default_template_version() -> (r: String)
    ensures
        r@ == "rhwp-document-template-v1"@,
{
    string_of("rhwp-document-template-v1")
}

/// 글자 비율/상대 크기의 기본값 (언어마다 100).
pub fn default_ratio_array() -> (r: [u8; 7])
    ensures
        forall|i: int| 0 <= i < 7 ==> r@[i] == 100,
{
    [100, 100, 100, 100, 100, 100, 100]
}

/// 참 (글자처럼 취급 등의 기본값).
pub fn default_true() -> (r: bool)
    ensures
        r,
{
    true
}

/// 1 (셀 병합 수의 기본값).
pub fn default_one_u16() -> (r: u16)
    ensures
        r == 1,
{
    1
}

/// 수식 글자 크기 기본값.
pub fn default_equation_font_size() -> (r: u32)
    ensures
        r == 1000,
{
    1000
}

/// 수식 글꼴 기본값.
pub fn default_equation_font_name() -> (r: String)
    ensures
        r@ == "HYhwpEQ"@,
{
    string_of("HYhwpEQ")
}

/// 쪽 테두리 기준의 기본값.
pub fn default_page_border_basis() -> (r: String)
    ensures
        r@ == "paper"@,
{
    string_of("paper")
}

/// 쪽 배경 채움 영역의 기본값.
pub fn default_page_border_fill_area() -> (r: String)
    ensures
        r@ == "paper"@,
{
    string_of("paper")
}

/// 각주 번호 모양의 기본값.
pub fn default_footnote_number_format() -> (r: String)
    ensures
        r@ == "digit"@,
{
    string_of("digit")
}

/// 각주 시작 번호의 기본값.
pub fn default_footnote_start_number() -> (r: u16)
    ensures
        r == 1,
{
    1
}

/// 각주 번호 매기기의 기본값.
pub fn default_footnote_numbering() -> (r: String)
    ensures
        r@ == "continue"@,
{
    string_of("continue")
}

/// 각주 배치의 기본값.
pub fn default_footnote_placement() -> (r: String)
    ensures
        r@ == "documentEnd"@,
{
    string_of("documentEnd")
}

/// A4 용지 폭 (HWPUNIT).
pub fn default_page_width() -> (r: u32)
    ensures
        r == 59528,
{
    59528
}

/// A4 용지 높이 (HWPUNIT).
pub fn default_page_height() -> (r: u32)
    ensures
        r == 84188,
{
    84188
}

/// 왼쪽 여백 기본값.
pub fn default_page_margin_left() -> (r: u32)
    ensures
        r == 8504,
{
    8504
}

/// 오른쪽 여백 기본값.
pub fn default_page_margin_right() -> (r: u32)
    ensures
        r == 8504,
{
    8504
}

/// 위쪽 여백 기본값.
pub fn default_page_margin_top() -> (r: u32)
    ensures
        r == 5669,
{
    5669
}

/// 아래쪽 여백 기본값.
pub fn default_page_margin_bottom() -> (r: u32)
    ensures
        r == 4252,
{
    4252
}

/// 머리말 여백 기본값.
pub fn default_page_margin_header() -> (r: u32)
    ensures
        r == 4252,
{
    4252
}

/// 꼬리말 여백 기본값.
pub fn default_page_margin_footer() -> (r: u32)
    ensures
        r == 4252,
{
    4252
}

/// 그림 확장자 기본값.
pub fn default_picture_extension() -> (r: String)
    ensures
        r@ == "png"@,
{
    string_of("png")
}

/// 셀 왼쪽 안쪽 여백 기본값.
pub fn default_cell_padding_left() -> (r: i16)
    ensures
        r == 510,
{
    510
}

/// 셀 오른쪽 안쪽 여백 기본값.
pub fn default_cell_padding_right() -> (r: i16)
    ensures
        r == 510,
{
    510
}

/// 셀 위쪽 안쪽 여백 기본값.
pub fn default_cell_padding_top() -> (r: i16)
    ensures
        r == 141,
{
    141
}

/// 셀 아래쪽 안쪽 여백 기본값.
pub fn default_cell_padding_bottom() -> (r: i16)
    ensures
        r == 141,
{
    141
}

/// 셀 세로 정렬 기본값.
pub fn default_cell_vertical_align() -> (r: String)
    ensures
        r@ == "center"@,
{
    string_of("center")
}

/// 셀 줄 바꿈 기본값.
pub fn default_cell_line_wrap() -> (r: String)
    ensures
        r@ == "BREAK"@,
{
    string_of("BREAK")
}

/// 표 쪽 나눔 기본값.
pub fn default_table_page_break() -> (r: String)
    ensures
        r@ == "row"@,
{
    string_of("row")
}

/// 표 바깥 여백 기본값.
pub fn default_table_outer_margin() -> (r: i16)
    ensures
        r == 283,
{
    283
}

/// 캡션 방향 기본값.
pub fn default_caption_direction() -> (r: String)
    ensures
        r@ == "bottom"@,
{
    string_of("bottom")
}

/// 캡션 세로 정렬 기본값.
pub fn default_caption_vert_align() -> (r: String)
    ensures
        r@ == "top"@,
{
    string_of("top")
}

/// 0인지 (직렬화 생략 조건).
pub fn is_zero_u32(value: &u32) -> (r: bool)
    ensures
        r == (*value == 0),
{
    *value == 0
}

/// 0인지 (직렬화 생략 조건).
pub fn is_zero_u16(value: &u16) -> (r: bool)
    ensures
        r == (*value == 0),
{
    *value == 0
}

/// 0인지 (직렬화 생략 조건).
pub fn is_zero_u8(value: &u8) -> (r: bool)
    ensures
        r == (*value == 0),
{
    *value == 0
}

/// 0인지 (직렬화 생략 조건).
pub fn is_zero_i8(value: &i8) -> (r: bool)
    ensures
        r == (*value == 0),
{
    *value == 0
}

/// 거짓인지 (직렬화 생략 조건).
pub fn is_false(value: &bool) -> (r: bool)
    ensures
        r == !*value,
{
    !*value
}

/// 문단 테두리 간격이 모두 0인지 (직렬화 생략 조건).
pub fn is_default_border_spacing(value: &[i16; 4]) -> (r: bool)
    ensures
        r == (value@[0] == 0 && value@[1] == 0 && value@[2] == 0 && value@[3] == 0),
{
    value[0] == 0 && value[1] == 0 && value[2] == 0 && value[3] == 0
}

/// 비어 있으면 없음, 아니면 그 문자열.
pub fn string_option(value: &str) -> (r: Option<String>)
    ensures
        match r {
            Some(s) => value@.len() > 0 && s@ == value@,
            None => value@.len() == 0,
        },
{
    if value.unicode_len() == 0 {
        None
    } else {
        Some(string_of(value))
    }
}

/// The layout that an unset table-layout field takes.
pub open spec fn is_default_table_layout(layout: TemplateTableLayout) -> bool {
    &&& layout.cell_spacing == 0
    &&& layout.padding_left == 510
    &&& layout.padding_right == 510
    &&& layout.padding_top == 141
    &&& layout.padding_bottom == 141
    &&& layout.page_break@ == "row"@
    &&& !layout.repeat_header
    &&& layout.outer_margin_left == 283
    &&& layout.outer_margin_right == 283
    &&& layout.outer_margin_top == 283
    &&& layout.outer_margin_bottom == 283
}

impl Default for TemplateTableLayout {
    fn default() -> (r: Self)
        ensures
            is_default_table_layout(r),
    {
        Self {
            cell_spacing: 0,
            padding_left: default_cell_padding_left(),
            padding_right: default_cell_padding_right(),
            padding_top: default_cell_padding_top(),
            padding_bottom: default_cell_padding_bottom(),
            page_break: default_table_page_break(),
            repeat_header: false,
            outer_margin_left: default_table_outer_margin(),
            outer_margin_right: default_table_outer_margin(),
            outer_margin_top: default_table_outer_margin(),
            outer_margin_bottom: default_table_outer_margin(),
        }
    }
}

/// The layout that an unset cell-layout field takes.
pub open spec fn is_default_cell_layout(layout: TemplateCellLayout) -> bool {
    &&& layout.col_span == 1
    &&& layout.row_span == 1
    &&& layout.padding_left == 510
    &&& layout.padding_right == 510
    &&& layout.padding_top == 141
    &&& layout.padding_bottom == 141
    &&& !layout.apply_inner_margin
    &&& layout.vertical_align@ == "center"@
    &&& layout.text_direction == 0
    &&& !layout.is_header
    &&& !layout.cell_protect
    &&& !layout.editable_in_form
    &&& !layout.dirty
    &&& layout.line_wrap@ == "BREAK"@
    &&& layout.link_list_id_ref == 0
    &&& layout.link_list_next_id_ref == 0
    &&& layout.text_width == 0
    &&& layout.text_height == 0
    &&& layout.has_text_ref == 0
    &&& layout.has_num_ref == 0
    &&& layout.field_name@.len() == 0
    &&& layout.border_fill is None
}

impl Default for TemplateCellLayout {
    fn default() -> (r: Self)
        ensures
            is_default_cell_layout(r),
    {
        Self {
            col_span: 1,
            row_span: 1,
            padding_left: 510,
            padding_right: 510,
            padding_top: 141,
            padding_bottom: 141,
            apply_inner_margin: false,
            vertical_align: default_cell_vertical_align(),
            text_direction: 0,
            is_header: false,
            cell_protect: false,
            editable_in_form: false,
            dirty: false,
            line_wrap: default_cell_line_wrap(),
            link_list_id_ref: 0,
            link_list_next_id_ref: 0,
            text_width: 0,
            text_height: 0,
            has_text_ref: 0,
            has_num_ref: 0,
            field_name: String::new(),
            border_fill: None,
        }
    }
}

} // verus!
