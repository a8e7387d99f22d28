use rhwp::document_core::builders::document_template::section::page_border_attr_from_template;
use rhwp::document_core::builders::document_template::TemplatePageBorderFill;
use rhwp::document_core::builders::document_template::blocks::{
    block_break_before_mut, block_contains_table, block_has_line_segments,
    insert_blank_flow_page_breaks, is_following_large_tac_page_break,
    is_zero_vpos_tac_heading_table, normalize_zero_vpos_heading_table_page_breaks,
    saved_gap_before_table_after_skipped_empty_para, set_block_break_before, set_block_host_group,
    set_picture_block_line_segments, set_picture_block_offset_hint,
    set_picture_block_page_top_offset, should_preserve_cell_blocks, table_layout_template,
    take_break_for_source_page, template_object_treats_as_char, template_saved_para_gap_before,
    template_saved_tac_gap_before,
};
use rhwp::document_core::builders::document_template::hints::TemplateControlOffsetHint;
use rhwp::document_core::builders::document_template::{
    TemplateBlock, TemplateBreak, TemplateLineSeg,
};
use rhwp::json_value::{JsonNumber, JsonValue};
use rhwp::model::{
    Cell, CommonObjAttr, LineSeg, Padding, Paragraph, Picture, Table, TablePageBreak,
};

fn seg(vpos: i32) -> TemplateLineSeg {
    TemplateLineSeg { vertical_pos: vpos, ..Default::default() }
}

fn layout(members: Vec<(&str, JsonValue)>) -> Option<JsonValue> {
    Some(JsonValue::Object(members.into_iter().map(|(k, v)| (k.to_string(), v)).collect()))
}

fn tac() -> Option<JsonValue> {
    layout(vec![("treat_as_char", JsonValue::Bool(true))])
}

fn paragraph(brk: Option<TemplateBreak>, segs: Vec<TemplateLineSeg>) -> TemplateBlock {
    TemplateBlock::Paragraph {
        text: "p".to_string(),
        break_before: brk,
        style: None,
        char_format: None,
        char_shape_runs: vec![],
        para_format: None,
        line_segments: segs,
    }
}

fn table(
    rows: Vec<Vec<&str>>,
    brk: Option<TemplateBreak>,
    row_heights: Vec<u32>,
    object_layout: Option<JsonValue>,
    segs: Vec<TemplateLineSeg>,
) -> TemplateBlock {
    TemplateBlock::Table {
        rows: rows.into_iter().map(|r| r.into_iter().map(|t| t.to_string()).collect()).collect(),
        break_before: brk,
        rhwp_saved_gap_before: None,
        host_group: None,
        style: None,
        host_para_shape_id: 0,
        para_format: None,
        line_segments: segs,
        caption: None,
        column_widths: vec![],
        row_heights,
        table_layout: None,
        object_layout,
        border_fill: None,
        table_zones: vec![],
        cell_layouts: vec![],
        cell_formats: vec![],
        cell_blocks: vec![],
    }
}

fn picture(object_layout: Option<JsonValue>) -> TemplateBlock {
    TemplateBlock::Picture {
        break_before: None,
        host_group: None,
        line_segments: vec![],
        image_base64: String::new(),
        external_path: String::new(),
        extension: String::new(),
        width: 0,
        height: 0,
        natural_width_px: 0,
        natural_height_px: 0,
        description: String::new(),
        transparency: 0,
        brightness: 0,
        contrast: 0,
        effect: String::new(),
        effects: None,
        layout: None,
        object_layout,
        treat_as_char: true,
        horz_offset: 0,
        vert_offset: 0,
        caption: None,
    }
}

fn break_of(b: &TemplateBlock) -> Option<TemplateBreak> {
    match b {
        TemplateBlock::Paragraph { break_before, .. }
        | TemplateBlock::Table { break_before, .. }
        | TemplateBlock::Equation { break_before, .. }
        | TemplateBlock::Picture { break_before, .. }
        | TemplateBlock::ObjectPlaceholder { break_before, .. } => *break_before,
    }
}

fn object_layout_of(b: &TemplateBlock) -> &JsonValue {
    match b {
        TemplateBlock::Picture { object_layout: Some(v), .. } => v,
        _ => panic!("no object layout"),
    }
}

fn number(v: Option<&JsonValue>) -> Option<u64> {
    match v {
        Some(JsonValue::Number(JsonNumber::PosInt(n))) => Some(*n),
        _ => None,
    }
}

#[test]
fn breaks_set_and_kept() {
    let mut p = paragraph(None, vec![]);
    set_block_break_before(&mut p, None);
    assert_eq!(break_of(&p), None);
    set_block_break_before(&mut p, Some(TemplateBreak::Column));
    assert_eq!(break_of(&p), Some(TemplateBreak::Column));
    let slot = block_break_before_mut(&mut p).unwrap();
    *slot = Some(TemplateBreak::Page);
    assert_eq!(break_of(&p), Some(TemplateBreak::Page));
}

#[test]
fn host_group_and_line_segments() {
    let mut p = paragraph(None, vec![]);
    set_block_host_group(&mut p, Some(3));
    assert!(matches!(p, TemplateBlock::Paragraph { .. }));
    let mut pic = picture(None);
    set_block_host_group(&mut pic, Some(3));
    assert!(matches!(pic, TemplateBlock::Picture { host_group: Some(3), .. }));
    set_block_host_group(&mut pic, None);
    assert!(matches!(pic, TemplateBlock::Picture { host_group: Some(3), .. }));
    set_picture_block_line_segments(&mut pic, vec![]);
    assert!(matches!(&pic, TemplateBlock::Picture { line_segments, .. } if line_segments.is_empty()));
    set_picture_block_line_segments(&mut pic, vec![seg(5)]);
    assert!(matches!(&pic, TemplateBlock::Picture { line_segments, .. } if line_segments.len() == 1));
}

#[test]
fn block_questions() {
    assert!(template_object_treats_as_char(&tac()));
    assert!(!template_object_treats_as_char(&layout(vec![("treat_as_char", JsonValue::Bool(false))])));
    assert!(!template_object_treats_as_char(&layout(vec![("treat_as_char", JsonValue::String("true".into()))])));
    assert!(!template_object_treats_as_char(&None));
    assert!(!block_contains_table(&paragraph(None, vec![])));
    assert!(block_contains_table(&picture(None)));
    assert!(block_has_line_segments(&paragraph(None, vec![seg(0)])));
    assert!(!block_has_line_segments(&table(vec![], None, vec![], None, vec![seg(0)])));
    assert!(!should_preserve_cell_blocks(&[]));
    assert!(!should_preserve_cell_blocks(&[paragraph(None, vec![])]));
    assert!(should_preserve_cell_blocks(&[paragraph(None, vec![seg(0)])]));
    assert!(should_preserve_cell_blocks(&[picture(None)]));
    assert!(should_preserve_cell_blocks(&[paragraph(None, vec![]), paragraph(None, vec![])]));
}

#[test]
fn heading_table_takes_the_page_break() {
    let heading = table(vec![vec!["제목"]], None, vec![3_000], tac(), vec![seg(0)]);
    let large = table(vec![vec!["a"]], Some(TemplateBreak::Page), vec![1_000, 20_000], tac(), vec![]);
    assert!(is_zero_vpos_tac_heading_table(&heading));
    assert!(is_following_large_tac_page_break(&large));
    let long_text = "x".repeat(121);
    assert!(!is_zero_vpos_tac_heading_table(&table(vec![vec![long_text.as_str()]], None, vec![3_000], tac(), vec![seg(0)])));
    assert!(!is_zero_vpos_tac_heading_table(&table(vec![vec!["t"]], None, vec![4_001], tac(), vec![seg(0)])));
    assert!(!is_following_large_tac_page_break(&table(vec![], Some(TemplateBreak::Page), vec![19_999], tac(), vec![])));
    let mut blocks = vec![paragraph(None, vec![]), heading, large];
    normalize_zero_vpos_heading_table_page_breaks(&mut blocks);
    assert_eq!(break_of(&blocks[0]), None);
    assert_eq!(break_of(&blocks[1]), Some(TemplateBreak::Page));
    assert_eq!(break_of(&blocks[2]), None);
    let mut single = vec![paragraph(Some(TemplateBreak::Page), vec![])];
    normalize_zero_vpos_heading_table_page_breaks(&mut single);
    assert_eq!(break_of(&single[0]), Some(TemplateBreak::Page));
}

#[test]
fn blank_pages_and_source_page_breaks() {
    let mut blocks = vec![paragraph(None, vec![])];
    let mut count = 2u32;
    insert_blank_flow_page_breaks(&mut blocks, &mut count);
    assert_eq!(count, 0);
    assert_eq!(blocks.len(), 3);
    assert!(matches!(&blocks[2], TemplateBlock::Paragraph { text, break_before: Some(TemplateBreak::Page), .. } if text.is_empty()));

    let mut blocks = vec![paragraph(None, vec![])];
    let mut last = Some(1);
    let mut suppress = false;
    let b = take_break_for_source_page(&mut blocks, Some(4), &mut last, &mut suppress, None);
    assert_eq!(b, Some(TemplateBreak::Page));
    assert_eq!(blocks.len(), 3);
    assert_eq!(last, Some(4));

    let mut suppress = true;
    let b = take_break_for_source_page(&mut blocks, Some(5), &mut last, &mut suppress, None);
    assert_eq!(b, None);
    assert!(!suppress);
    assert_eq!(blocks.len(), 3);

    let mut empty: Vec<TemplateBlock> = vec![];
    let mut last = None;
    let mut suppress = true;
    let b = take_break_for_source_page(&mut empty, None, &mut last, &mut suppress, Some(TemplateBreak::Column));
    assert_eq!(b, None);
    assert!(!suppress);
    let mut suppress = false;
    let b = take_break_for_source_page(&mut blocks, None, &mut last, &mut suppress, Some(TemplateBreak::Column));
    assert_eq!(b, Some(TemplateBreak::Column));
}

#[test]
fn picture_offset_hints() {
    let mut pic = picture(layout(vec![("treat_as_char", JsonValue::Bool(true))]));
    set_picture_block_offset_hint(&mut pic, TemplateControlOffsetHint { horizontal_offset: None, vertical_offset: None });
    assert!(object_layout_of(&pic).get("rhwp_page_top_offset_hint").is_none());
    set_picture_block_offset_hint(&mut pic, TemplateControlOffsetHint { horizontal_offset: Some(7), vertical_offset: None });
    let l = object_layout_of(&pic);
    assert_eq!(number(l.get("horizontal_offset")), Some(7));
    assert!(l.get("vertical_offset").is_none());
    assert!(matches!(l.get("rhwp_page_top_offset_hint"), Some(JsonValue::Bool(true))));
    assert!(matches!(l.get("treat_as_char"), Some(JsonValue::Bool(true))));

    let para = Paragraph {
        line_segs: vec![LineSeg { vertical_pos: 15_000, line_height: 13_000, ..Default::default() }],
        ..Default::default()
    };
    let control = Picture {
        common: CommonObjAttr { treat_as_char: true, width: 100, height: 20_000, ..Default::default() },
        ..Default::default()
    };
    let mut pic = picture(None);
    set_picture_block_page_top_offset(&mut pic, &para, &control);
    assert_eq!(number(object_layout_of(&pic).get("vertical_offset")), Some(15_000));
    let mut para_block = paragraph(None, vec![]);
    set_picture_block_page_top_offset(&mut para_block, &para, &control);
    assert!(matches!(para_block, TemplateBlock::Paragraph { .. }));
}

#[test]
fn table_layout_and_saved_gap() {
    let mut t = Table {
        padding: Padding { left: 510, right: 510, top: 141, bottom: 141 },
        page_break: TablePageBreak::RowBreak,
        outer_margin_left: 283,
        outer_margin_right: 283,
        outer_margin_top: 283,
        outer_margin_bottom: 283,
        ..Default::default()
    };
    assert!(table_layout_template(&t).is_none());
    t.cell_spacing = 12;
    let l = table_layout_template(&t).unwrap();
    assert_eq!(l.cell_spacing, 12);
    assert_eq!(l.page_break, "row");

    let hinted = picture(layout(vec![("rhwp_page_top_offset_hint", JsonValue::Bool(true))]));
    let mut blank = Table { row_count: 1, col_count: 1, ..Default::default() };
    blank.common.treat_as_char = true;
    assert_eq!(saved_gap_before_table_after_skipped_empty_para(Some(&hinted), &blank, Some(300)), Some(300));
    assert_eq!(saved_gap_before_table_after_skipped_empty_para(Some(&hinted), &blank, None), None);
    assert_eq!(saved_gap_before_table_after_skipped_empty_para(Some(&picture(None)), &blank, Some(300)), None);
    assert_eq!(saved_gap_before_table_after_skipped_empty_para(None, &blank, Some(300)), None);
    let mut with_text = blank.clone();
    with_text.cells = vec![Cell {
        row: 0,
        col: 0,
        paragraphs: vec![Paragraph { text: "x".to_string(), ..Default::default() }],
    }];
    assert_eq!(saved_gap_before_table_after_skipped_empty_para(Some(&hinted), &with_text, Some(300)), None);
}

fn line(vpos: i32, height: i32, spacing: i32, width: i32) -> TemplateLineSeg {
    TemplateLineSeg { vertical_pos: vpos, line_height: height, line_spacing: spacing, segment_width: width, ..Default::default() }
}

fn text_para(text: &str, segs: Vec<TemplateLineSeg>) -> TemplateBlock {
    TemplateBlock::Paragraph {
        text: text.to_string(),
        break_before: None,
        style: None,
        char_format: None,
        char_shape_runs: vec![],
        para_format: None,
        line_segments: segs,
    }
}

#[test]
fn gap_after_blank_table() {
    let blank = table(vec![vec![" ", ""]], None, vec![], tac(), vec![line(1_000, 500, 100, 30), line(9_000, 0, 0, 0)]);
    let next = text_para("본문", vec![line(4_000, 0, 0, 0)]);
    assert_eq!(template_saved_tac_gap_before(&blank, &next), Some(2_400));
    let near = text_para("x", vec![line(2_000, 0, 0, 0)]);
    assert_eq!(template_saved_tac_gap_before(&blank, &near), None);
    let only_narrow = table(vec![vec![""]], None, vec![], tac(), vec![line(1_000, -700, 0, 0)]);
    assert_eq!(template_saved_tac_gap_before(&only_narrow, &next), Some(3_000));
    let with_text = table(vec![vec!["t"]], None, vec![], tac(), vec![line(1_000, 500, 100, 30)]);
    assert_eq!(template_saved_tac_gap_before(&with_text, &next), None);
    assert_eq!(template_saved_tac_gap_before(&blank, &text_para("  ", vec![line(4_000, 0, 0, 0)])), None);
    assert_eq!(template_saved_tac_gap_before(&table(vec![], None, vec![], tac(), vec![]), &next), None);
}

#[test]
fn gap_between_paragraphs() {
    let a = text_para("a", vec![line(0, 1_000, 200, 5_000)]);
    let b = text_para("b", vec![line(3_000, 1_000, 200, 5_000)]);
    assert_eq!(template_saved_para_gap_before(&a, &b), Some(1_800));
    let wide = text_para("b", vec![line(3_000, 1_000, 200, 6_000)]);
    assert_eq!(template_saved_para_gap_before(&a, &wide), None);
    let far = text_para("b", vec![line(9_000, 1_000, 200, 5_000)]);
    assert_eq!(template_saved_para_gap_before(&a, &far), None);
    assert_eq!(template_saved_para_gap_before(&a, &text_para("", vec![line(3_000, 0, 0, 5_000)])), None);
}

#[test]
fn page_border_attribute_bits() {
    let t = TemplatePageBorderFill {
        attr: 0x1_001F,
        basis: "paper".to_string(),
        spacing_left: 0,
        spacing_right: 0,
        spacing_top: 0,
        spacing_bottom: 0,
        header_inside: false,
        footer_inside: true,
        fill_area: "border".to_string(),
        border_fill: None,
    };
    assert_eq!(page_border_attr_from_template(&t), 0x1_0014);
    let page = TemplatePageBorderFill { attr: 0, basis: "page".to_string(), header_inside: true, fill_area: "page".to_string(), ..t };
    assert_eq!(page_border_attr_from_template(&page), 0x0F);
}
