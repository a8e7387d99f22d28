use rhwp::document_core::builders::document_template::flow::{
    compact_page_flow_artifacts, compact_page_flow_artifacts_limited,
    delayed_sibling_page_break_artifact, is_bottom_anchor_vpos, CompactFlowState,
};
use rhwp::document_core::builders::document_template::stats::template_stats;
use rhwp::document_core::builders::document_template::{
    DocumentTemplate, TemplateBlock, TemplateBreak, TemplateLineSeg, TemplateSection,
};

fn seg(vpos: i32) -> TemplateLineSeg {
    TemplateLineSeg { vertical_pos: vpos, ..Default::default() }
}

fn paragraph(text: &str, brk: Option<TemplateBreak>, vpos: Option<i32>) -> TemplateBlock {
    TemplateBlock::Paragraph {
        text: text.to_string(),
        break_before: brk,
        style: None,
        char_format: None,
        char_shape_runs: vec![],
        para_format: None,
        line_segments: vpos.map(|v| vec![seg(0), seg(v)]).unwrap_or_default(),
    }
}

fn table(rows: Vec<Vec<String>>, cell_blocks: Vec<Vec<Vec<TemplateBlock>>>) -> TemplateBlock {
    TemplateBlock::Table {
        rows,
        break_before: None,
        rhwp_saved_gap_before: None,
        host_group: None,
        style: None,
        host_para_shape_id: 0,
        para_format: None,
        line_segments: vec![],
        caption: None,
        column_widths: vec![],
        row_heights: vec![],
        table_layout: None,
        object_layout: None,
        border_fill: None,
        table_zones: vec![],
        cell_layouts: vec![],
        cell_formats: vec![],
        cell_blocks,
    }
}

fn picture(treat_as_char: bool, brk: Option<TemplateBreak>) -> TemplateBlock {
    TemplateBlock::Picture {
        break_before: brk,
        host_group: None,
        line_segments: vec![],
        image_base64: String::new(),
        external_path: String::new(),
        extension: String::new(),
        width: 0,
        height: 0,
        natural_width_px: 0,
        natural_height_px: 0,
        description: String::new(),
        transparency: 0,
        brightness: 0,
        contrast: 0,
        effect: String::new(),
        effects: None,
        layout: None,
        object_layout: None,
        treat_as_char,
        horz_offset: 0,
        vert_offset: 0,
        caption: None,
    }
}

fn object(treat_as_char: bool, brk: Option<TemplateBreak>, children: Vec<TemplateBlock>) -> TemplateBlock {
    TemplateBlock::ObjectPlaceholder {
        object_kind: "shape".to_string(),
        break_before: brk,
        host_group: None,
        shape_kind: String::new(),
        description: String::new(),
        placeholder_text: String::new(),
        width: 0,
        height: 0,
        treat_as_char,
        horz_offset: 0,
        vert_offset: 0,
        caption: None,
        shape_component_id: 0,
        geometry: None,
        drawing_style: None,
        layout: None,
        children,
        raw_hwp_chart_data_base64: String::new(),
        raw_hwp_ole_tag_base64: String::new(),
        ole_bin_data_base64: String::new(),
        ole_extension: String::new(),
        ole_object_type: String::new(),
        ole_draw_aspect: String::new(),
        ole_eq_base_line: String::new(),
        ole_has_moniker: String::new(),
    }
}

fn break_of(block: &TemplateBlock) -> Option<TemplateBreak> {
    match block {
        TemplateBlock::Paragraph { break_before, .. }
        | TemplateBlock::Table { break_before, .. }
        | TemplateBlock::Equation { break_before, .. }
        | TemplateBlock::Picture { break_before, .. }
        | TemplateBlock::ObjectPlaceholder { break_before, .. } => *break_before,
    }
}

const PAGE: Option<TemplateBreak> = Some(TemplateBreak::Page);

fn sample_template() -> DocumentTemplate {
    let blocks = vec![
        paragraph("", PAGE, None),
        paragraph("(1) first item", None, Some(1000)),
        table(vec![], vec![]),
        picture(true, None),
        paragraph("  (2) second item", PAGE, Some(3000)),
        paragraph("tail", None, Some(60_000)),
        picture(true, PAGE),
        object(false, PAGE, vec![picture(false, PAGE)]),
        table(vec![vec![String::new()]], vec![vec![vec![paragraph("", PAGE, None)]]]),
    ];
    DocumentTemplate {
        version: "v".to_string(),
        source_page_count: None,
        font_faces: vec![],
        char_shapes: vec![],
        para_shapes: vec![],
        styles: vec![],
        sections: vec![TemplateSection { blocks, ..Default::default() }],
        headers: vec![],
        footers: vec![],
        master_pages: vec![],
    }
}

#[test]
fn compaction_removes_each_kind_of_artifact() {
    let mut template = sample_template();
    let report = compact_page_flow_artifacts(&mut template);
    assert_eq!(report.empty_paragraph_page_breaks_removed, 2);
    assert_eq!(report.sibling_paragraph_page_breaks_removed, 1);
    assert_eq!(report.floating_object_page_breaks_removed, 1);
    assert_eq!(report.inline_picture_page_breaks_removed, 1);
    assert_eq!(report.total_removed, 5);
    let blocks = &template.sections[0].blocks;
    for i in [0, 4, 6, 7] {
        assert_eq!(break_of(&blocks[i]), None, "block {i}");
    }
    match &blocks[7] {
        TemplateBlock::ObjectPlaceholder { children, .. } => assert_eq!(break_of(&children[0]), PAGE),
        _ => panic!("expected an object"),
    }
    match &blocks[8] {
        TemplateBlock::Table { cell_blocks, .. } => assert_eq!(break_of(&cell_blocks[0][0][0]), None),
        _ => panic!("expected a table"),
    }
    assert_eq!(template.version, "v");
}

#[test]
fn compaction_respects_the_removal_limit() {
    let mut template = sample_template();
    let report = compact_page_flow_artifacts_limited(&mut template, 1);
    assert_eq!(report.total_removed, 1);
    assert_eq!(report.empty_paragraph_page_breaks_removed, 1);
    let blocks = &template.sections[0].blocks;
    assert_eq!(break_of(&blocks[0]), None);
    assert_eq!(break_of(&blocks[4]), PAGE);
    match &blocks[8] {
        TemplateBlock::Table { cell_blocks, .. } => assert_eq!(break_of(&cell_blocks[0][0][0]), PAGE),
        _ => panic!("expected a table"),
    }
}

#[test]
fn compaction_with_zero_limit_changes_nothing() {
    let mut template = sample_template();
    let report = compact_page_flow_artifacts_limited(&mut template, 0);
    assert_eq!(report.total_removed, 0);
    let blocks = &template.sections[0].blocks;
    for i in [0, 4, 6, 7] {
        assert_eq!(break_of(&blocks[i]), PAGE);
    }
}

#[test]
fn delayed_sibling_needs_table_and_inline_picture() {
    let mut state = CompactFlowState::new();
    state.note_block(&paragraph("(1) a", None, Some(100)));
    assert!(!delayed_sibling_page_break_artifact(&state, "(2) b"));
    state.note_block(&table(vec![], vec![]));
    assert!(!delayed_sibling_page_break_artifact(&state, "(2) b"));
    state.note_block(&picture(true, None));
    assert!(delayed_sibling_page_break_artifact(&state, "(2) b"));
    assert!(!delayed_sibling_page_break_artifact(&state, "(3) b"));
    state.note_block(&picture(false, None));
    assert!(!delayed_sibling_page_break_artifact(&state, "(2) b"));
    assert!(is_bottom_anchor_vpos(50_000));
    assert!(!is_bottom_anchor_vpos(49_999));
}

#[test]
fn stats_count_blocks_at_every_depth() {
    let template = sample_template();
    let stats = template_stats(&template);
    assert_eq!(stats.section_count, 1);
    assert_eq!(stats.block_count, 11);
    assert_eq!(stats.paragraph_count, 5);
    assert_eq!(stats.table_count, 2);
    assert_eq!(stats.table_cell_count, 1);
    assert_eq!(stats.picture_count, 3);
    assert_eq!(stats.object_placeholder_count, 1);
    assert_eq!(stats.equation_count, 0);
    assert_eq!(stats.header_count, 0);
}

fn all_breaks(template: &DocumentTemplate) -> Vec<Option<TemplateBreak>> {
    let mut out = Vec::new();
    for block in &template.sections[0].blocks {
        out.push(break_of(block));
        match block {
            TemplateBlock::ObjectPlaceholder { children, .. } => {
                for child in children {
                    out.push(break_of(child));
                }
            }
            TemplateBlock::Table { cell_blocks, .. } => {
                for row in cell_blocks {
                    for cell in row {
                        for inner in cell {
                            out.push(break_of(inner));
                        }
                    }
                }
            }
            _ => {}
        }
    }
    out
}

#[test]
fn full_compaction_matches_the_largest_limit() {
    let mut a = sample_template();
    let mut b = sample_template();
    let ra = compact_page_flow_artifacts(&mut a);
    let rb = compact_page_flow_artifacts_limited(&mut b, usize::MAX);
    assert_eq!(ra, rb);
    assert_eq!(all_breaks(&a), all_breaks(&b));
}

#[test]
fn second_compaction_finds_nothing_more() {
    let mut template = sample_template();
    // Without the floating object that holds another floating picture.
    template.sections[0].blocks.remove(7);
    let first = compact_page_flow_artifacts(&mut template);
    assert_eq!(first.total_removed, 4);
    let breaks = all_breaks(&template);
    let second = compact_page_flow_artifacts(&mut template);
    assert_eq!(second.total_removed, 0);
    assert_eq!(second.empty_paragraph_page_breaks_removed, 0);
    assert_eq!(second.sibling_paragraph_page_breaks_removed, 0);
    assert_eq!(second.floating_object_page_breaks_removed, 0);
    assert_eq!(second.inline_picture_page_breaks_removed, 0);
    assert_eq!(all_breaks(&template), breaks);
}

#[test]
fn second_compaction_reaches_inside_a_cleared_floating_object() {
    let mut template = sample_template();
    compact_page_flow_artifacts(&mut template);
    let second = compact_page_flow_artifacts(&mut template);
    assert_eq!(second.floating_object_page_breaks_removed, 1);
    assert_eq!(second.total_removed, 1);
    match &template.sections[0].blocks[7] {
        TemplateBlock::ObjectPlaceholder { children, .. } => assert_eq!(break_of(&children[0]), None),
        _ => panic!("expected an object"),
    }
}

#[test]
fn compaction_changes_exactly_the_counted_breaks() {
    let mut template = sample_template();
    let before = all_breaks(&template);
    let report = compact_page_flow_artifacts(&mut template);
    let after = all_breaks(&template);
    assert_eq!(before.len(), after.len());
    let changed: Vec<usize> = (0..before.len()).filter(|&i| before[i] != after[i]).collect();
    assert_eq!(changed.len(), report.total_removed);
    for i in changed {
        assert_eq!(before[i], PAGE);
        assert_eq!(after[i], None);
    }
}
