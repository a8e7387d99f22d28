use rhwp::document_core::builders::document_template::geometry::{
    bin_data_link_path, master_page_default_text_size, next_template_bin_data_id,
    paragraph_header_extra, table_content_width, table_layout_padding, template_column_widths,
    template_row_heights, BodyBuildState,
};
use rhwp::document_core::builders::document_template::hints::{
    can_auto_group_mixed_template_controls, can_share_template_table_host,
    template_control_may_emit_block, control_page_hint, flow_page_break_count, note_control_page, note_paragraph_page,
    page_break_picture_offset_hint_candidate, paragraph_page_hint, template_page_hints,
    template_picture_page_top_offset, TemplatePageHints,
};
use rhwp::document_core::builders::document_template::placeholder::{
    default_object_placeholder_text, object_placeholder_description,
    parse_object_placeholder_description,
};
use rhwp::document_core::builders::document_template::TemplateTableLayout;
use rhwp::model::{
    Control, BinData, BinDataType, CommonObjAttr, LineSeg, Padding, PageDef, PageItem, Paragraph, Picture,
    ShapeComponentAttr,
};

#[test]
fn page_hints_record_the_first_page() {
    let pages = vec![
        vec![vec![PageItem::FullParagraph { para_index: 0 }, PageItem::PartialParagraph { para_index: 1 }]],
        vec![
            vec![PageItem::PartialParagraph { para_index: 1 }],
            vec![PageItem::Table { para_index: 2, control_index: 0 }, PageItem::EndnoteSeparator],
        ],
        vec![vec![
            PageItem::Shape { para_index: 2, control_index: 1 },
            PageItem::FullParagraph { para_index: 9 },
        ]],
    ];
    let hints = template_page_hints(&vec![0, 0, 2], &pages);
    assert_eq!(hints.paragraph_pages, vec![Some(0), Some(0), Some(1)]);
    assert_eq!(hints.control_pages, vec![vec![], vec![], vec![Some(1), Some(2)]]);
    assert_eq!(hints.control_offsets, vec![vec![], vec![], vec![None, None]]);
    assert_eq!(paragraph_page_hint(Some(&hints), 2), Some(1));
    assert_eq!(paragraph_page_hint(Some(&hints), 5), None);
    assert_eq!(paragraph_page_hint(None, 0), None);
    assert_eq!(control_page_hint(Some(&hints), 2, 1), Some(2));
    assert_eq!(control_page_hint(Some(&hints), 2, 2), None);
}

#[test]
fn first_noted_page_wins() {
    let mut hints = TemplatePageHints {
        paragraph_pages: vec![None, Some(4)],
        control_pages: vec![vec![None], vec![]],
        control_offsets: vec![vec![None], vec![]],
    };
    note_paragraph_page(&mut hints, 0, 7);
    note_paragraph_page(&mut hints, 0, 8);
    note_paragraph_page(&mut hints, 1, 1);
    note_paragraph_page(&mut hints, 3, 1);
    assert_eq!(hints.paragraph_pages, vec![Some(7), Some(4)]);
    note_control_page(&mut hints, 0, 0, 5);
    note_control_page(&mut hints, 0, 0, 2);
    note_control_page(&mut hints, 1, 0, 2);
    assert_eq!(hints.control_pages, vec![vec![Some(5)], vec![]]);
}

fn host(vpos: i32, line_height: i32) -> Paragraph {
    Paragraph {
        text: String::new(),
        char_shapes: vec![],
        line_segs: vec![LineSeg { vertical_pos: vpos, line_height, ..Default::default() }],
        controls: vec![],
    }
}

fn picture(tac: bool, width: u32, height: u32) -> Picture {
    Picture {
        common: CommonObjAttr { treat_as_char: tac, horizontal_offset: 0, vertical_offset: 0, width, height, ..Default::default() },
        shape_attr: ShapeComponentAttr { current_width: 0, current_height: 0, ..Default::default() },
        ..Default::default()
    }
}

#[test]
fn picture_hints() {
    assert_eq!(template_picture_page_top_offset(&host(15_000, 13_000), &picture(true, 100, 20_000)), Some(15_000));
    assert_eq!(template_picture_page_top_offset(&host(25_000, 13_000), &picture(true, 100, 20_000)), None);
    assert_eq!(template_picture_page_top_offset(&host(15_000, 12_000), &picture(true, 100, 20_000)), None);
    assert_eq!(template_picture_page_top_offset(&host(15_000, 13_000), &picture(false, 100, 20_000)), None);
    assert_eq!(template_picture_page_top_offset(&host(15_000, 13_000), &picture(true, 100, 0x8000_0000)), None);
    assert!(page_break_picture_offset_hint_candidate(&host(30_000, 1000), 1, &picture(true, 45_000, 12_001)));
    assert!(!page_break_picture_offset_hint_candidate(&host(30_000, 1000), 0, &picture(true, 45_000, 12_001)));
    assert!(!page_break_picture_offset_hint_candidate(&host(30_000, 1000), 1, &picture(true, 45_001, 12_001)));
    assert!(!page_break_picture_offset_hint_candidate(&host(29_999, 1000), 1, &picture(true, 100, 12_001)));
    assert!(!page_break_picture_offset_hint_candidate(&host(30_000, 12_001), 1, &picture(true, 100, 12_001)));
}

#[test]
fn page_break_counts_between_blocks() {
    assert_eq!(flow_page_break_count(true, Some(5), Some(1)), 0);
    assert_eq!(flow_page_break_count(false, Some(5), Some(1)), 4);
    assert_eq!(flow_page_break_count(false, Some(1), Some(5)), 0);
    assert_eq!(flow_page_break_count(false, None, Some(5)), 0);
}

#[test]
fn placeholder_descriptions_roundtrip() {
    let d = object_placeholder_description("chart", "Rectangle", "a:b");
    assert_eq!(d, "rhwp-template-placeholder:chart:Rectangle:a:b");
    assert_eq!(
        parse_object_placeholder_description(&d),
        Some(("chart".to_string(), "Rectangle".to_string(), "a:b".to_string()))
    );
    assert_eq!(
        parse_object_placeholder_description("rhwp-template-placeholder:ole"),
        Some(("ole".to_string(), String::new(), String::new()))
    );
    assert_eq!(parse_object_placeholder_description("other:x:y"), None);
    assert_eq!(default_object_placeholder_text("chart", " "), "[chart placeholder]");
    assert_eq!(default_object_placeholder_text("shape", "Arc"), "[shape:Arc placeholder]");
}

fn page() -> PageDef {
    PageDef {
        width: 59_528,
        height: 84_188,
        margin_left: 8_504,
        margin_right: 8_504,
        margin_top: 5_668,
        margin_bottom: 4_252,
        margin_header: 4_252,
        margin_footer: 4_252,
        margin_gutter: 0,
        ..Default::default()
    }
}

#[test]
fn table_sizes_from_the_page() {
    assert_eq!(table_content_width(&page()), 59_528 - 2 * 8_504 - 566);
    let narrow = PageDef { width: 10_000, margin_left: 3_000, margin_right: 3_000, ..Default::default() };
    assert_eq!(table_content_width(&narrow), 7200);
    assert_eq!(template_column_widths(9000, 3, &[1, 2, 3]), vec![1, 2, 3]);
    assert_eq!(template_column_widths(9000, 3, &[1, 0, 3]), vec![3000, 3000, 3000]);
    assert_eq!(template_column_widths(9000, 2, &[1, 2, 3]), vec![4500, 4500]);
    assert_eq!(template_column_widths(9000, 0, &[]), Vec::<u32>::new());
    let pad = Padding { left: 0, right: 0, top: 141, bottom: 141 };
    assert_eq!(template_row_heights(2, &[500, 600], pad), vec![500, 600]);
    assert_eq!(template_row_heights(2, &[500], pad), vec![1282, 1282]);
    assert_eq!(master_page_default_text_size(&page()), (59_528 - 17_008, 84_188 - 5_668 - 3 * 4_252));
    let tiny = PageDef { width: 10, margin_left: 20, height: 5, margin_top: 1, ..Default::default() };
    assert_eq!(master_page_default_text_size(&tiny), (0, 4));
    let layout = TemplateTableLayout { padding_left: 1, padding_right: 2, padding_top: 3, padding_bottom: 4, ..Default::default() };
    assert_eq!(table_layout_padding(&layout), Padding { left: 1, right: 2, top: 3, bottom: 4 });
    assert_eq!(paragraph_header_extra(), vec![1, 0, 0, 0, 1, 0, 0, 0, 0, 0]);
}

#[test]
fn linked_bin_data_paths() {
    let list = vec![
        BinData { data_type: BinDataType::Link, abs_path: Some("/a.png".into()), rel_path: Some("a.png".into()) },
        BinData { data_type: BinDataType::Link, abs_path: Some(String::new()), rel_path: Some("b.png".into()) },
        BinData { data_type: BinDataType::Embedding, abs_path: Some("/c.png".into()), rel_path: None },
        BinData { data_type: BinDataType::Link, abs_path: None, rel_path: Some(String::new()) },
    ];
    assert_eq!(bin_data_link_path(&list, 0), None);
    assert_eq!(bin_data_link_path(&list, 1), Some("/a.png".to_string()));
    assert_eq!(bin_data_link_path(&list, 2), Some("b.png".to_string()));
    assert_eq!(bin_data_link_path(&list, 3), None);
    assert_eq!(bin_data_link_path(&list, 4), None);
    assert_eq!(bin_data_link_path(&list, 5), None);
    assert_eq!(next_template_bin_data_id(list.len()), 5);
}

#[test]
fn body_paragraph_reuse_by_host_group() {
    let mut state = BodyBuildState::default();
    assert_eq!(state.reusable_para(Some(1)), None);
    state.note_para(Some(1), 4);
    assert_eq!(state.reusable_para(Some(1)), Some(4));
    assert_eq!(state.reusable_para(Some(2)), None);
    assert_eq!(state.reusable_para(None), None);
    state.note_para(None, 5);
    assert_eq!(state.reusable_para(None), None);
}

fn grouped_para(text: &str, controls: Vec<Control>) -> Paragraph {
    Paragraph { text: text.to_string(), char_shapes: vec![], line_segs: vec![], controls }
}

#[test]
fn controls_grouped_on_one_page() {
    let small = Control::Picture(picture(true, 100, 12_000));
    let tall = Control::Picture(picture(true, 100, 12_001));
    let para = grouped_para(" ", vec![Control::Table, Control::SectionDef, small.clone()]);
    let hints = TemplatePageHints {
        paragraph_pages: vec![Some(3)],
        control_pages: vec![vec![Some(3), None, None]],
        control_offsets: vec![vec![None, None, None]],
    };
    assert!(can_auto_group_mixed_template_controls(&para, Some(&hints), 0, Some(3), 2, 1, false));
    assert!(!can_auto_group_mixed_template_controls(&para, Some(&hints), 0, Some(4), 2, 1, false));
    assert!(!can_auto_group_mixed_template_controls(&para, Some(&hints), 0, None, 2, 1, false));
    assert!(!can_auto_group_mixed_template_controls(&para, Some(&hints), 0, Some(3), 3, 1, false));
    assert!(!can_auto_group_mixed_template_controls(&para, Some(&hints), 0, Some(3), 2, 0, false));
    assert!(!can_auto_group_mixed_template_controls(&para, Some(&hints), 0, Some(3), 2, 1, true));
    let texty = grouped_para("x", vec![Control::Table, small]);
    assert!(!can_auto_group_mixed_template_controls(&texty, None, 0, Some(3), 2, 1, false));
    let with_tall = grouped_para("", vec![Control::Table, tall]);
    assert!(!can_auto_group_mixed_template_controls(&with_tall, None, 0, Some(3), 2, 1, false));
    let with_equation = grouped_para("", vec![Control::Table, Control::Equation]);
    assert!(!can_auto_group_mixed_template_controls(&with_equation, None, 0, Some(3), 2, 1, false));
    assert!(template_control_may_emit_block(&Control::Shape));
    assert!(!template_control_may_emit_block(&Control::PageHide));
    assert!(can_share_template_table_host(&Control::PageNumberPos));
    assert!(!can_share_template_table_host(&Control::Equation));
}
