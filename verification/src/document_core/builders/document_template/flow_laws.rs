//! Laws of page-flow compaction: a run is determined by the template it
//! starts from and its budget; each pass changes exactly the blocks it
//! counts; and a second run finds nothing more to clear, except inside a
//! floating object whose own break the first run cleared.

use super::flow::{
    block_after, blocks_after, cell_rows_after, cells_after, compaction_chain, compaction_result,
    each_after, flow_after, fresh_flow, is_candidate, last_vpos, delayed_sibling_spec, is_page, note_block_spec, pass_block, pass_blocks, pass_cell_rows,
    pass_cells, pass_each, pass_sections, section_after, sections_after, template_pass,
    without_break, CompactArtifactCategory, FlowView,
};
use super::{DocumentTemplate, TemplateBlock, TemplateBreak, TemplatePageFlowCompactReport, TemplateSection};
use vstd::prelude::*;

verus! {

broadcast use {
    vstd::seq::axiom_seq_index_decreases,
    vstd::seq::axiom_seq_subrange_decreases,
    vstd::std_specs::vec::axiom_vec_decreases_to_view,
};

/// Whether two blocks are the same: equal in every field, lists of blocks
/// inside them (table cells, object children) compared block by block.
pub open spec fn same_block(a: TemplateBlock, b: TemplateBlock) -> bool
    decreases a, 0nat,
{
    match a {
        TemplateBlock::Table { cell_blocks, .. } => {
            &&& b is Table
            &&& b->Table_rows == a->Table_rows
            &&& b->Table_break_before == a->Table_break_before
            &&& b->Table_rhwp_saved_gap_before == a->Table_rhwp_saved_gap_before
            &&& b->Table_host_group == a->Table_host_group
            &&& b->Table_style == a->Table_style
            &&& b->Table_host_para_shape_id == a->Table_host_para_shape_id
            &&& b->Table_para_format == a->Table_para_format
            &&& b->Table_line_segments == a->Table_line_segments
            &&& b->Table_caption == a->Table_caption
            &&& b->Table_column_widths == a->Table_column_widths
            &&& b->Table_row_heights == a->Table_row_heights
            &&& b->Table_table_layout == a->Table_table_layout
            &&& b->Table_object_layout == a->Table_object_layout
            &&& b->Table_border_fill == a->Table_border_fill
            &&& b->Table_table_zones == a->Table_table_zones
            &&& b->Table_cell_layouts == a->Table_cell_layouts
            &&& b->Table_cell_formats == a->Table_cell_formats
            &&& same_cell_rows(cell_blocks@, b->Table_cell_blocks@)
        },
        TemplateBlock::ObjectPlaceholder { children, .. } => {
            &&& b is ObjectPlaceholder
            &&& b->ObjectPlaceholder_object_kind == a->ObjectPlaceholder_object_kind
            &&& b->ObjectPlaceholder_break_before == a->ObjectPlaceholder_break_before
            &&& b->ObjectPlaceholder_host_group == a->ObjectPlaceholder_host_group
            &&& b->ObjectPlaceholder_shape_kind == a->ObjectPlaceholder_shape_kind
            &&& b->ObjectPlaceholder_description == a->ObjectPlaceholder_description
            &&& b->ObjectPlaceholder_placeholder_text == a->ObjectPlaceholder_placeholder_text
            &&& b->ObjectPlaceholder_width == a->ObjectPlaceholder_width
            &&& b->ObjectPlaceholder_height == a->ObjectPlaceholder_height
            &&& b->ObjectPlaceholder_treat_as_char == a->ObjectPlaceholder_treat_as_char
            &&& b->ObjectPlaceholder_horz_offset == a->ObjectPlaceholder_horz_offset
            &&& b->ObjectPlaceholder_vert_offset == a->ObjectPlaceholder_vert_offset
            &&& b->ObjectPlaceholder_caption == a->ObjectPlaceholder_caption
            &&& b->ObjectPlaceholder_shape_component_id == a->ObjectPlaceholder_shape_component_id
            &&& b->ObjectPlaceholder_geometry == a->ObjectPlaceholder_geometry
            &&& b->ObjectPlaceholder_drawing_style == a->ObjectPlaceholder_drawing_style
            &&& b->ObjectPlaceholder_layout == a->ObjectPlaceholder_layout
            &&& b->ObjectPlaceholder_raw_hwp_chart_data_base64 == a->ObjectPlaceholder_raw_hwp_chart_data_base64
            &&& b->ObjectPlaceholder_raw_hwp_ole_tag_base64 == a->ObjectPlaceholder_raw_hwp_ole_tag_base64
            &&& b->ObjectPlaceholder_ole_bin_data_base64 == a->ObjectPlaceholder_ole_bin_data_base64
            &&& b->ObjectPlaceholder_ole_extension == a->ObjectPlaceholder_ole_extension
            &&& b->ObjectPlaceholder_ole_object_type == a->ObjectPlaceholder_ole_object_type
            &&& b->ObjectPlaceholder_ole_draw_aspect == a->ObjectPlaceholder_ole_draw_aspect
            &&& b->ObjectPlaceholder_ole_eq_base_line == a->ObjectPlaceholder_ole_eq_base_line
            &&& b->ObjectPlaceholder_ole_has_moniker == a->ObjectPlaceholder_ole_has_moniker
            &&& same_blocks(children@, b->ObjectPlaceholder_children@)
        },
        _ => b == a,
    }
}

/// Whether two lists of blocks are the same, block by block.
pub open spec fn same_blocks(x: Seq<TemplateBlock>, y: Seq<TemplateBlock>) -> bool
    decreases x, 1nat,
{
    if x.len() == 0 {
        y.len() == 0
    } else {
        &&& y.len() == x.len()
        &&& same_blocks(x.drop_last(), y.drop_last())
        &&& same_block(x.last(), y.last())
    }
}

/// Whether two table rows of cells are the same, cell by cell.
pub open spec fn same_cells(x: Seq<Vec<TemplateBlock>>, y: Seq<Vec<TemplateBlock>>) -> bool
    decreases x, 1nat,
{
    if x.len() == 0 {
        y.len() == 0
    } else {
        &&& y.len() == x.len()
        &&& same_cells(x.drop_last(), y.drop_last())
        &&& same_blocks(x.last()@, y.last()@)
    }
}

/// Whether two tables' cells are the same, row by row.
pub open spec fn same_cell_rows(x: Seq<Vec<Vec<TemplateBlock>>>, y: Seq<Vec<Vec<TemplateBlock>>>) -> bool
    decreases x, 1nat,
{
    if x.len() == 0 {
        y.len() == 0
    } else {
        &&& y.len() == x.len()
        &&& same_cell_rows(x.drop_last(), y.drop_last())
        &&& same_cells(x.last()@, y.last()@)
    }
}

/// Whether two sections are the same: equal settings, the same blocks.
pub open spec fn same_section(a: TemplateSection, b: TemplateSection) -> bool {
    &&& b.page_def == a.page_def
    &&& b.section_def == a.section_def
    &&& b.page_border_fill == a.page_border_fill
    &&& b.footnote_shape == a.footnote_shape
    &&& b.endnote_shape == a.endnote_shape
    &&& same_blocks(a.blocks@, b.blocks@)
}

/// Whether two lists of sections are the same, section by section.
pub open spec fn same_sections(x: Seq<TemplateSection>, y: Seq<TemplateSection>) -> bool
    decreases x.len(),
{
    if x.len() == 0 {
        y.len() == 0
    } else {
        &&& y.len() == x.len()
        &&& same_sections(x.drop_last(), y.drop_last())
        &&& same_section(x.last(), y.last())
    }
}

/// Whether two templates are the same: equal in every field, the same
/// sections.
pub open spec fn same_template(a: DocumentTemplate, b: DocumentTemplate) -> bool {
    &&& same_sections(a.sections@, b.sections@)
    &&& b.version == a.version
    &&& b.source_page_count == a.source_page_count
    &&& b.font_faces == a.font_faces
    &&& b.char_shapes == a.char_shapes
    &&& b.para_shapes == a.para_shapes
    &&& b.styles == a.styles
    &&& b.headers == a.headers
    &&& b.footers == a.footers
    &&& b.master_pages == a.master_pages
}

// ---------------------------------------------------------------------------
// Sameness is reflexive
// ---------------------------------------------------------------------------

proof fn lemma_same_block_refl(a: TemplateBlock)
    ensures
        same_block(a, a),
    decreases a, 0nat,
{
    match a {
        TemplateBlock::Table { cell_blocks, .. } => lemma_same_cell_rows_refl(cell_blocks@),
        TemplateBlock::ObjectPlaceholder { children, .. } => lemma_same_blocks_refl(children@),
        _ => {},
    }
}

proof fn lemma_same_blocks_refl(x: Seq<TemplateBlock>)
    ensures
        same_blocks(x, x),
    decreases x, 1nat,
{
    if x.len() > 0 {
        lemma_same_blocks_refl(x.drop_last());
        lemma_same_block_refl(x.last());
    }
}

proof fn lemma_same_cells_refl(x: Seq<Vec<TemplateBlock>>)
    ensures
        same_cells(x, x),
    decreases x, 1nat,
{
    if x.len() > 0 {
        lemma_same_cells_refl(x.drop_last());
        lemma_same_blocks_refl(x.last()@);
    }
}

proof fn lemma_same_cell_rows_refl(x: Seq<Vec<Vec<TemplateBlock>>>)
    ensures
        same_cell_rows(x, x),
    decreases x, 1nat,
{
    if x.len() > 0 {
        lemma_same_cell_rows_refl(x.drop_last());
        lemma_same_cells_refl(x.last()@);
    }
}

proof fn lemma_same_sections_refl(x: Seq<TemplateSection>)
    ensures
        same_sections(x, x),
    decreases x.len(),
{
    if x.len() > 0 {
        lemma_same_sections_refl(x.drop_last());
        lemma_same_blocks_refl(x.last().blocks@);
    }
}

// ---------------------------------------------------------------------------
// A pass reads the same of the same blocks
// ---------------------------------------------------------------------------

proof fn lemma_pass_block_same(a: TemplateBlock, b: TemplateBlock, st: FlowView, cat: CompactArtifactCategory, budget: nat)
    requires
        same_block(a, b),
    ensures
        is_candidate(a, st, cat) == is_candidate(b, st, cat),
        note_block_spec(st, a) == note_block_spec(st, b),
        pass_block(a, st, cat, budget) == pass_block(b, st, cat, budget),
    decreases a, 0nat,
{
    match a {
        TemplateBlock::Table { cell_blocks, .. } => {
            lemma_pass_cell_rows_same(cell_blocks@, b->Table_cell_blocks@, cat, budget);
        },
        TemplateBlock::ObjectPlaceholder { children, .. } => {
            lemma_pass_blocks_same(children@, b->ObjectPlaceholder_children@, FlowView { text: None, vpos: None, tables: 0, pictures: 0 }, cat, budget);
        },
        _ => {},
    }
}

proof fn lemma_pass_blocks_same(x: Seq<TemplateBlock>, y: Seq<TemplateBlock>, st: FlowView, cat: CompactArtifactCategory, budget: nat)
    requires
        same_blocks(x, y),
    ensures
        flow_after(x, st) == flow_after(y, st),
        pass_blocks(x, st, cat, budget) == pass_blocks(y, st, cat, budget),
        pass_each(x, cat, budget) == pass_each(y, cat, budget),
    decreases x, 1nat,
{
    if x.len() > 0 {
        lemma_pass_blocks_same(x.drop_last(), y.drop_last(), st, cat, budget);
        let f = flow_after(x.drop_last(), st);
        lemma_pass_block_same(x.last(), y.last(), f, cat, pass_blocks(x.drop_last(), st, cat, budget));
        lemma_pass_block_same(x.last(), y.last(), FlowView { text: None, vpos: None, tables: 0, pictures: 0 }, cat, pass_each(x.drop_last(), cat, budget));
    }
}

proof fn lemma_pass_cells_same(x: Seq<Vec<TemplateBlock>>, y: Seq<Vec<TemplateBlock>>, cat: CompactArtifactCategory, budget: nat)
    requires
        same_cells(x, y),
    ensures
        pass_cells(x, cat, budget) == pass_cells(y, cat, budget),
    decreases x, 1nat,
{
    if x.len() > 0 {
        lemma_pass_cells_same(x.drop_last(), y.drop_last(), cat, budget);
        lemma_pass_blocks_same(x.last()@, y.last()@, FlowView { text: None, vpos: None, tables: 0, pictures: 0 }, cat, pass_cells(x.drop_last(), cat, budget));
    }
}

proof fn lemma_pass_cell_rows_same(x: Seq<Vec<Vec<TemplateBlock>>>, y: Seq<Vec<Vec<TemplateBlock>>>, cat: CompactArtifactCategory, budget: nat)
    requires
        same_cell_rows(x, y),
    ensures
        pass_cell_rows(x, cat, budget) == pass_cell_rows(y, cat, budget),
    decreases x, 1nat,
{
    if x.len() > 0 {
        lemma_pass_cell_rows_same(x.drop_last(), y.drop_last(), cat, budget);
        lemma_pass_cells_same(x.last()@, y.last()@, cat, pass_cell_rows(x.drop_last(), cat, budget));
    }
}

proof fn lemma_pass_sections_same(x: Seq<TemplateSection>, y: Seq<TemplateSection>, cat: CompactArtifactCategory, budget: nat)
    requires
        same_sections(x, y),
    ensures
        pass_sections(x, cat, budget) == pass_sections(y, cat, budget),
    decreases x.len(),
{
    if x.len() > 0 {
        lemma_pass_sections_same(x.drop_last(), y.drop_last(), cat, budget);
        lemma_pass_blocks_same(x.last().blocks@, y.last().blocks@, FlowView { text: None, vpos: None, tables: 0, pictures: 0 }, cat, pass_sections(x.drop_last(), cat, budget));
    }
}

// ---------------------------------------------------------------------------
// A pass makes the same of the same blocks
// ---------------------------------------------------------------------------

proof fn lemma_block_after_det(
    o1: TemplateBlock,
    o2: TemplateBlock,
    n1: TemplateBlock,
    n2: TemplateBlock,
    st: FlowView,
    cat: CompactArtifactCategory,
    budget: nat,
)
    requires
        same_block(o1, o2),
        block_after(o1, n1, st, cat, budget),
        block_after(o2, n2, st, cat, budget),
    ensures
        same_block(n1, n2),
    decreases o1, 0nat,
{
    lemma_pass_block_same(o1, o2, st, cat, budget);
    if budget == 0 {
    } else if is_candidate(o1, st, cat) {
        match o1 {
            TemplateBlock::ObjectPlaceholder { children, .. } => {
                assert(same_blocks(children@, o2->ObjectPlaceholder_children@));
            },
            _ => {},
        }
    } else {
        match o1 {
            TemplateBlock::Table { cell_blocks, .. } => {
                lemma_cell_rows_after_det(cell_blocks@, o2->Table_cell_blocks@, n1->Table_cell_blocks@, n2->Table_cell_blocks@, cat, budget);
            },
            TemplateBlock::ObjectPlaceholder { children, .. } => {
                lemma_blocks_after_det(children@, o2->ObjectPlaceholder_children@, n1->ObjectPlaceholder_children@, n2->ObjectPlaceholder_children@, FlowView { text: None, vpos: None, tables: 0, pictures: 0 }, cat, budget);
            },
            _ => {},
        }
    }
}

proof fn lemma_blocks_after_det(
    x1: Seq<TemplateBlock>,
    x2: Seq<TemplateBlock>,
    y1: Seq<TemplateBlock>,
    y2: Seq<TemplateBlock>,
    st: FlowView,
    cat: CompactArtifactCategory,
    budget: nat,
)
    requires
        same_blocks(x1, x2),
        blocks_after(x1, y1, st, cat, budget),
        blocks_after(x2, y2, st, cat, budget),
    ensures
        same_blocks(y1, y2),
    decreases x1, 1nat,
{
    if x1.len() > 0 {
        lemma_blocks_after_det(x1.drop_last(), x2.drop_last(), y1.drop_last(), y2.drop_last(), st, cat, budget);
        lemma_pass_blocks_same(x1.drop_last(), x2.drop_last(), st, cat, budget);
        lemma_block_after_det(x1.last(), x2.last(), y1.last(), y2.last(), flow_after(x1.drop_last(), st), cat, pass_blocks(x1.drop_last(), st, cat, budget));
    }
}

proof fn lemma_each_after_det(
    x1: Seq<TemplateBlock>,
    x2: Seq<TemplateBlock>,
    y1: Seq<TemplateBlock>,
    y2: Seq<TemplateBlock>,
    cat: CompactArtifactCategory,
    budget: nat,
)
    requires
        same_blocks(x1, x2),
        each_after(x1, y1, cat, budget),
        each_after(x2, y2, cat, budget),
    ensures
        same_blocks(y1, y2),
    decreases x1, 1nat,
{
    if x1.len() > 0 {
        lemma_each_after_det(x1.drop_last(), x2.drop_last(), y1.drop_last(), y2.drop_last(), cat, budget);
        lemma_pass_blocks_same(x1.drop_last(), x2.drop_last(), FlowView { text: None, vpos: None, tables: 0, pictures: 0 }, cat, budget);
        lemma_block_after_det(x1.last(), x2.last(), y1.last(), y2.last(), FlowView { text: None, vpos: None, tables: 0, pictures: 0 }, cat, pass_each(x1.drop_last(), cat, budget));
    }
}

proof fn lemma_cells_after_det(
    x1: Seq<Vec<TemplateBlock>>,
    x2: Seq<Vec<TemplateBlock>>,
    y1: Seq<Vec<TemplateBlock>>,
    y2: Seq<Vec<TemplateBlock>>,
    cat: CompactArtifactCategory,
    budget: nat,
)
    requires
        same_cells(x1, x2),
        cells_after(x1, y1, cat, budget),
        cells_after(x2, y2, cat, budget),
    ensures
        same_cells(y1, y2),
    decreases x1, 1nat,
{
    if x1.len() > 0 {
        lemma_cells_after_det(x1.drop_last(), x2.drop_last(), y1.drop_last(), y2.drop_last(), cat, budget);
        lemma_pass_cells_same(x1.drop_last(), x2.drop_last(), cat, budget);
        lemma_each_after_det(x1.last()@, x2.last()@, y1.last()@, y2.last()@, cat, pass_cells(x1.drop_last(), cat, budget));
    }
}

proof fn lemma_cell_rows_after_det(
    x1: Seq<Vec<Vec<TemplateBlock>>>,
    x2: Seq<Vec<Vec<TemplateBlock>>>,
    y1: Seq<Vec<Vec<TemplateBlock>>>,
    y2: Seq<Vec<Vec<TemplateBlock>>>,
    cat: CompactArtifactCategory,
    budget: nat,
)
    requires
        same_cell_rows(x1, x2),
        cell_rows_after(x1, y1, cat, budget),
        cell_rows_after(x2, y2, cat, budget),
    ensures
        same_cell_rows(y1, y2),
    decreases x1, 1nat,
{
    if x1.len() > 0 {
        lemma_cell_rows_after_det(x1.drop_last(), x2.drop_last(), y1.drop_last(), y2.drop_last(), cat, budget);
        lemma_pass_cell_rows_same(x1.drop_last(), x2.drop_last(), cat, budget);
        lemma_cells_after_det(x1.last()@, x2.last()@, y1.last()@, y2.last()@, cat, pass_cell_rows(x1.drop_last(), cat, budget));
    }
}

proof fn lemma_sections_after_det(
    x1: Seq<TemplateSection>,
    x2: Seq<TemplateSection>,
    y1: Seq<TemplateSection>,
    y2: Seq<TemplateSection>,
    cat: CompactArtifactCategory,
    budget: nat,
)
    requires
        same_sections(x1, x2),
        sections_after(x1, y1, cat, budget),
        sections_after(x2, y2, cat, budget),
    ensures
        same_sections(y1, y2),
    decreases x1.len(),
{
    if x1.len() > 0 {
        lemma_sections_after_det(x1.drop_last(), x2.drop_last(), y1.drop_last(), y2.drop_last(), cat, budget);
        lemma_pass_sections_same(x1.drop_last(), x2.drop_last(), cat, budget);
        lemma_blocks_after_det(x1.last().blocks@, x2.last().blocks@, y1.last().blocks@, y2.last().blocks@, FlowView { text: None, vpos: None, tables: 0, pictures: 0 }, cat, pass_sections(x1.drop_last(), cat, budget));
    }
}

proof fn lemma_template_pass_det(
    a: DocumentTemplate,
    b: DocumentTemplate,
    a2: DocumentTemplate,
    b2: DocumentTemplate,
    cat: CompactArtifactCategory,
    budget: nat,
)
    requires
        same_template(a, b),
        template_pass(a, a2, cat, budget),
        template_pass(b, b2, cat, budget),
    ensures
        same_template(a2, b2),
        pass_sections(a.sections@, cat, budget) == pass_sections(b.sections@, cat, budget),
{
    lemma_sections_after_det(a.sections@, b.sections@, a2.sections@, b2.sections@, cat, budget);
    lemma_pass_sections_same(a.sections@, b.sections@, cat, budget);
}

/// Compaction is determined by the template it starts from and its budget:
/// two runs on one template with the same limit give the same report and
/// the same template. In particular `compact_page_flow_artifacts` gives
/// what `compact_page_flow_artifacts_limited` gives with a limit of
/// `usize::MAX`.
pub proof fn lemma_compaction_determined(
    before: DocumentTemplate,
    after1: DocumentTemplate,
    after2: DocumentTemplate,
    max_removals: nat,
    report1: TemplatePageFlowCompactReport,
    report2: TemplatePageFlowCompactReport,
)
    requires
        compaction_result(before, after1, max_removals, report1),
        compaction_result(before, after2, max_removals, report2),
    ensures
        report1 == report2,
        same_template(after1, after2),
{
    let (t1, t2, t3) = choose|t1: DocumentTemplate, t2: DocumentTemplate, t3: DocumentTemplate|
        #[trigger] compaction_chain(before, t1, t2, t3, after1, max_removals, report1);
    let (u1, u2, u3) = choose|t1: DocumentTemplate, t2: DocumentTemplate, t3: DocumentTemplate|
        #[trigger] compaction_chain(before, t1, t2, t3, after2, max_removals, report2);
    lemma_same_sections_refl(before.sections@);
    let b1 = pass_sections(before.sections@, CompactArtifactCategory::EmptyParagraph, max_removals);
    lemma_template_pass_det(before, before, t1, u1, CompactArtifactCategory::EmptyParagraph, max_removals);
    let b2 = pass_sections(t1.sections@, CompactArtifactCategory::DelayedSibling, b1);
    lemma_template_pass_det(t1, u1, t2, u2, CompactArtifactCategory::DelayedSibling, b1);
    let b3 = pass_sections(t2.sections@, CompactArtifactCategory::FloatingObject, b2);
    lemma_template_pass_det(t2, u2, t3, u3, CompactArtifactCategory::FloatingObject, b2);
    lemma_template_pass_det(t3, u3, after1, after2, CompactArtifactCategory::InlinePicture, b3);
}

// ---------------------------------------------------------------------------
// Quiet blocks: a pass of a kind finds nothing to clear in them
// ---------------------------------------------------------------------------

/// A pass of kind `cat` reaching block `b` in flow state `st` finds no
/// artifact, neither at `b` nor inside it.
pub open spec fn quiet_block(b: TemplateBlock, st: FlowView, cat: CompactArtifactCategory) -> bool
    decreases b, 0nat,
{
    &&& !is_candidate(b, st, cat)
    &&& match b {
        TemplateBlock::Table { cell_blocks, .. } => quiet_cell_rows(cell_blocks@, cat),
        TemplateBlock::ObjectPlaceholder { children, .. } => quiet_blocks(children@, fresh_flow(), cat),
        _ => true,
    }
}

/// A pass of kind `cat` over the list `s`, walked from `st`, finds nothing.
pub open spec fn quiet_blocks(s: Seq<TemplateBlock>, st: FlowView, cat: CompactArtifactCategory) -> bool
    decreases s, 1nat,
{
    s.len() == 0 || (quiet_blocks(s.drop_last(), st, cat) && quiet_block(s.last(), flow_after(s.drop_last(), st), cat))
}

/// A pass of kind `cat` over the blocks of a table cell finds nothing.
pub open spec fn quiet_each(s: Seq<TemplateBlock>, cat: CompactArtifactCategory) -> bool
    decreases s, 1nat,
{
    s.len() == 0 || (quiet_each(s.drop_last(), cat) && quiet_block(s.last(), fresh_flow(), cat))
}

/// A pass of kind `cat` over the cells of a table row finds nothing.
pub open spec fn quiet_cells(s: Seq<Vec<TemplateBlock>>, cat: CompactArtifactCategory) -> bool
    decreases s, 1nat,
{
    s.len() == 0 || (quiet_cells(s.drop_last(), cat) && quiet_each(s.last()@, cat))
}

/// A pass of kind `cat` over the cells of a table finds nothing.
pub open spec fn quiet_cell_rows(s: Seq<Vec<Vec<TemplateBlock>>>, cat: CompactArtifactCategory) -> bool
    decreases s, 1nat,
{
    s.len() == 0 || (quiet_cell_rows(s.drop_last(), cat) && quiet_cells(s.last()@, cat))
}

/// A pass of kind `cat` over every section finds nothing.
pub open spec fn quiet_sections(s: Seq<TemplateSection>, cat: CompactArtifactCategory) -> bool
    decreases s.len(),
{
    s.len() == 0 || (quiet_sections(s.drop_last(), cat) && quiet_blocks(s.last().blocks@, fresh_flow(), cat))
}

/// Block `b` holds, at some depth, a floating object with a page break
/// whose children hold another floating object or picture with a page
/// break. A pass that clears the outer break does not look inside it, so
/// the inner one is left for the next compaction.
pub open spec fn hides_block(b: TemplateBlock) -> bool
    decreases b, 0nat,
{
    match b {
        TemplateBlock::Table { cell_blocks, .. } => hides_cell_rows(cell_blocks@),
        TemplateBlock::ObjectPlaceholder { children, .. } => (is_candidate(b, fresh_flow(), CompactArtifactCategory::FloatingObject)
            && !quiet_blocks(children@, fresh_flow(), CompactArtifactCategory::FloatingObject))
            || hides_blocks(children@),
        _ => false,
    }
}

/// Some block of `s` hides a floating object (see `hides_block`).
pub open spec fn hides_blocks(s: Seq<TemplateBlock>) -> bool
    decreases s, 1nat,
{
    s.len() > 0 && (hides_blocks(s.drop_last()) || hides_block(s.last()))
}

/// Some cell of a table row hides a floating object.
pub open spec fn hides_cells(s: Seq<Vec<TemplateBlock>>) -> bool
    decreases s, 1nat,
{
    s.len() > 0 && (hides_cells(s.drop_last()) || hides_blocks(s.last()@))
}

/// Some cell of a table hides a floating object.
pub open spec fn hides_cell_rows(s: Seq<Vec<Vec<TemplateBlock>>>) -> bool
    decreases s, 1nat,
{
    s.len() > 0 && (hides_cell_rows(s.drop_last()) || hides_cells(s.last()@))
}

/// Some section hides a floating object.
pub open spec fn hides_sections(s: Seq<TemplateSection>) -> bool
    decreases s.len(),
{
    s.len() > 0 && (hides_sections(s.drop_last()) || hides_blocks(s.last().blocks@))
}

// ---------------------------------------------------------------------------
// A pass never adds to the budget
// ---------------------------------------------------------------------------

proof fn lemma_pass_block_le(b: TemplateBlock, st: FlowView, cat: CompactArtifactCategory, budget: nat)
    ensures
        pass_block(b, st, cat, budget) <= budget,
    decreases b, 0nat,
{
    match b {
        TemplateBlock::Table { cell_blocks, .. } => lemma_pass_cell_rows_le(cell_blocks@, cat, budget),
        TemplateBlock::ObjectPlaceholder { children, .. } => lemma_pass_blocks_le(children@, fresh_flow(), cat, budget),
        _ => {},
    }
}

proof fn lemma_pass_blocks_le(s: Seq<TemplateBlock>, st: FlowView, cat: CompactArtifactCategory, budget: nat)
    ensures
        pass_blocks(s, st, cat, budget) <= budget,
    decreases s, 1nat,
{
    if s.len() > 0 {
        lemma_pass_blocks_le(s.drop_last(), st, cat, budget);
        lemma_pass_block_le(s.last(), flow_after(s.drop_last(), st), cat, pass_blocks(s.drop_last(), st, cat, budget));
    }
}

proof fn lemma_pass_each_le(s: Seq<TemplateBlock>, cat: CompactArtifactCategory, budget: nat)
    ensures
        pass_each(s, cat, budget) <= budget,
    decreases s, 1nat,
{
    if s.len() > 0 {
        lemma_pass_each_le(s.drop_last(), cat, budget);
        lemma_pass_block_le(s.last(), fresh_flow(), cat, pass_each(s.drop_last(), cat, budget));
    }
}

proof fn lemma_pass_cells_le(s: Seq<Vec<TemplateBlock>>, cat: CompactArtifactCategory, budget: nat)
    ensures
        pass_cells(s, cat, budget) <= budget,
    decreases s, 1nat,
{
    if s.len() > 0 {
        lemma_pass_cells_le(s.drop_last(), cat, budget);
        lemma_pass_each_le(s.last()@, cat, pass_cells(s.drop_last(), cat, budget));
    }
}

proof fn lemma_pass_cell_rows_le(s: Seq<Vec<Vec<TemplateBlock>>>, cat: CompactArtifactCategory, budget: nat)
    ensures
        pass_cell_rows(s, cat, budget) <= budget,
    decreases s, 1nat,
{
    if s.len() > 0 {
        lemma_pass_cell_rows_le(s.drop_last(), cat, budget);
        lemma_pass_cells_le(s.last()@, cat, pass_cell_rows(s.drop_last(), cat, budget));
    }
}

proof fn lemma_pass_sections_le(s: Seq<TemplateSection>, cat: CompactArtifactCategory, budget: nat)
    ensures
        pass_sections(s, cat, budget) <= budget,
    decreases s.len(),
{
    if s.len() > 0 {
        lemma_pass_sections_le(s.drop_last(), cat, budget);
        lemma_pass_blocks_le(s.last().blocks@, fresh_flow(), cat, pass_sections(s.drop_last(), cat, budget));
    }
}

// ---------------------------------------------------------------------------
// A pass leaves the flow state as it was
// ---------------------------------------------------------------------------

proof fn lemma_block_after_note(o: TemplateBlock, n: TemplateBlock, st: FlowView, cat: CompactArtifactCategory, budget: nat, s: FlowView)
    requires
        block_after(o, n, st, cat, budget),
    ensures
        note_block_spec(s, n) == note_block_spec(s, o),
{
}

proof fn lemma_blocks_after_flow(x: Seq<TemplateBlock>, y: Seq<TemplateBlock>, st: FlowView, cat: CompactArtifactCategory, budget: nat, s: FlowView)
    requires
        blocks_after(x, y, st, cat, budget),
    ensures
        flow_after(y, s) == flow_after(x, s),
    decreases x.len(),
{
    if x.len() > 0 {
        lemma_blocks_after_flow(x.drop_last(), y.drop_last(), st, cat, budget, s);
        lemma_block_after_note(x.last(), y.last(), flow_after(x.drop_last(), st), cat, pass_blocks(x.drop_last(), st, cat, budget), flow_after(x.drop_last(), s));
    }
}

// ---------------------------------------------------------------------------
// A pass of any kind keeps quiet what was quiet
// ---------------------------------------------------------------------------

proof fn lemma_block_after_quiet(o: TemplateBlock, n: TemplateBlock, st: FlowView, cat: CompactArtifactCategory, budget: nat, s: FlowView, q: CompactArtifactCategory)
    requires
        block_after(o, n, st, cat, budget),
        quiet_block(o, s, q),
    ensures
        quiet_block(n, s, q),
    decreases o, 0nat,
{
    if budget == 0 {
    } else if is_candidate(o, st, cat) {
    } else {
        match o {
            TemplateBlock::Table { cell_blocks, .. } => {
                lemma_cell_rows_after_quiet(cell_blocks@, n->Table_cell_blocks@, cat, budget, q);
            },
            TemplateBlock::ObjectPlaceholder { children, .. } => {
                lemma_blocks_after_quiet(children@, n->ObjectPlaceholder_children@, fresh_flow(), cat, budget, fresh_flow(), q);
            },
            _ => {},
        }
    }
}

proof fn lemma_blocks_after_quiet(x: Seq<TemplateBlock>, y: Seq<TemplateBlock>, st: FlowView, cat: CompactArtifactCategory, budget: nat, s: FlowView, q: CompactArtifactCategory)
    requires
        blocks_after(x, y, st, cat, budget),
        quiet_blocks(x, s, q),
    ensures
        quiet_blocks(y, s, q),
    decreases x, 1nat,
{
    if x.len() > 0 {
        lemma_blocks_after_quiet(x.drop_last(), y.drop_last(), st, cat, budget, s, q);
        lemma_blocks_after_flow(x.drop_last(), y.drop_last(), st, cat, budget, s);
        lemma_block_after_quiet(x.last(), y.last(), flow_after(x.drop_last(), st), cat, pass_blocks(x.drop_last(), st, cat, budget), flow_after(x.drop_last(), s), q);
    }
}

proof fn lemma_each_after_quiet(x: Seq<TemplateBlock>, y: Seq<TemplateBlock>, cat: CompactArtifactCategory, budget: nat, q: CompactArtifactCategory)
    requires
        each_after(x, y, cat, budget),
        quiet_each(x, q),
    ensures
        quiet_each(y, q),
    decreases x, 1nat,
{
    if x.len() > 0 {
        lemma_each_after_quiet(x.drop_last(), y.drop_last(), cat, budget, q);
        lemma_block_after_quiet(x.last(), y.last(), fresh_flow(), cat, pass_each(x.drop_last(), cat, budget), fresh_flow(), q);
    }
}

proof fn lemma_cells_after_quiet(x: Seq<Vec<TemplateBlock>>, y: Seq<Vec<TemplateBlock>>, cat: CompactArtifactCategory, budget: nat, q: CompactArtifactCategory)
    requires
        cells_after(x, y, cat, budget),
        quiet_cells(x, q),
    ensures
        quiet_cells(y, q),
    decreases x, 1nat,
{
    if x.len() > 0 {
        lemma_cells_after_quiet(x.drop_last(), y.drop_last(), cat, budget, q);
        lemma_each_after_quiet(x.last()@, y.last()@, cat, pass_cells(x.drop_last(), cat, budget), q);
    }
}

proof fn lemma_cell_rows_after_quiet(x: Seq<Vec<Vec<TemplateBlock>>>, y: Seq<Vec<Vec<TemplateBlock>>>, cat: CompactArtifactCategory, budget: nat, q: CompactArtifactCategory)
    requires
        cell_rows_after(x, y, cat, budget),
        quiet_cell_rows(x, q),
    ensures
        quiet_cell_rows(y, q),
    decreases x, 1nat,
{
    if x.len() > 0 {
        lemma_cell_rows_after_quiet(x.drop_last(), y.drop_last(), cat, budget, q);
        lemma_cells_after_quiet(x.last()@, y.last()@, cat, pass_cell_rows(x.drop_last(), cat, budget), q);
    }
}

proof fn lemma_sections_after_quiet(x: Seq<TemplateSection>, y: Seq<TemplateSection>, cat: CompactArtifactCategory, budget: nat, q: CompactArtifactCategory)
    requires
        sections_after(x, y, cat, budget),
        quiet_sections(x, q),
    ensures
        quiet_sections(y, q),
    decreases x.len(),
{
    if x.len() > 0 {
        lemma_sections_after_quiet(x.drop_last(), y.drop_last(), cat, budget, q);
        lemma_blocks_after_quiet(x.last().blocks@, y.last().blocks@, fresh_flow(), cat, pass_sections(x.drop_last(), cat, budget), fresh_flow(), q);
    }
}

// ---------------------------------------------------------------------------
// A pass hides nothing that was not hidden
// ---------------------------------------------------------------------------

proof fn lemma_block_after_hides(o: TemplateBlock, n: TemplateBlock, st: FlowView, cat: CompactArtifactCategory, budget: nat)
    requires
        block_after(o, n, st, cat, budget),
        !hides_block(o),
    ensures
        !hides_block(n),
    decreases o, 0nat,
{
    if budget == 0 {
    } else if is_candidate(o, st, cat) {
    } else {
        match o {
            TemplateBlock::Table { cell_blocks, .. } => {
                lemma_cell_rows_after_hides(cell_blocks@, n->Table_cell_blocks@, cat, budget);
            },
            TemplateBlock::ObjectPlaceholder { children, .. } => {
                lemma_blocks_after_hides(children@, n->ObjectPlaceholder_children@, fresh_flow(), cat, budget);
                if is_candidate(o, fresh_flow(), CompactArtifactCategory::FloatingObject) {
                    lemma_blocks_after_quiet(children@, n->ObjectPlaceholder_children@, fresh_flow(), cat, budget, fresh_flow(), CompactArtifactCategory::FloatingObject);
                }
            },
            _ => {},
        }
    }
}

proof fn lemma_blocks_after_hides(x: Seq<TemplateBlock>, y: Seq<TemplateBlock>, st: FlowView, cat: CompactArtifactCategory, budget: nat)
    requires
        blocks_after(x, y, st, cat, budget),
        !hides_blocks(x),
    ensures
        !hides_blocks(y),
    decreases x, 1nat,
{
    if x.len() > 0 {
        lemma_blocks_after_hides(x.drop_last(), y.drop_last(), st, cat, budget);
        lemma_block_after_hides(x.last(), y.last(), flow_after(x.drop_last(), st), cat, pass_blocks(x.drop_last(), st, cat, budget));
    }
}

proof fn lemma_each_after_hides(x: Seq<TemplateBlock>, y: Seq<TemplateBlock>, cat: CompactArtifactCategory, budget: nat)
    requires
        each_after(x, y, cat, budget),
        !hides_blocks(x),
    ensures
        !hides_blocks(y),
    decreases x, 1nat,
{
    if x.len() > 0 {
        lemma_each_after_hides(x.drop_last(), y.drop_last(), cat, budget);
        lemma_block_after_hides(x.last(), y.last(), fresh_flow(), cat, pass_each(x.drop_last(), cat, budget));
    }
}

proof fn lemma_cells_after_hides(x: Seq<Vec<TemplateBlock>>, y: Seq<Vec<TemplateBlock>>, cat: CompactArtifactCategory, budget: nat)
    requires
        cells_after(x, y, cat, budget),
        !hides_cells(x),
    ensures
        !hides_cells(y),
    decreases x, 1nat,
{
    if x.len() > 0 {
        lemma_cells_after_hides(x.drop_last(), y.drop_last(), cat, budget);
        lemma_each_after_hides(x.last()@, y.last()@, cat, pass_cells(x.drop_last(), cat, budget));
    }
}

proof fn lemma_cell_rows_after_hides(x: Seq<Vec<Vec<TemplateBlock>>>, y: Seq<Vec<Vec<TemplateBlock>>>, cat: CompactArtifactCategory, budget: nat)
    requires
        cell_rows_after(x, y, cat, budget),
        !hides_cell_rows(x),
    ensures
        !hides_cell_rows(y),
    decreases x, 1nat,
{
    if x.len() > 0 {
        lemma_cell_rows_after_hides(x.drop_last(), y.drop_last(), cat, budget);
        lemma_cells_after_hides(x.last()@, y.last()@, cat, pass_cell_rows(x.drop_last(), cat, budget));
    }
}

proof fn lemma_sections_after_hides(x: Seq<TemplateSection>, y: Seq<TemplateSection>, cat: CompactArtifactCategory, budget: nat)
    requires
        sections_after(x, y, cat, budget),
        !hides_sections(x),
    ensures
        !hides_sections(y),
    decreases x.len(),
{
    if x.len() > 0 {
        lemma_sections_after_hides(x.drop_last(), y.drop_last(), cat, budget);
        lemma_blocks_after_hides(x.last().blocks@, y.last().blocks@, fresh_flow(), cat, pass_sections(x.drop_last(), cat, budget));
    }
}

// ---------------------------------------------------------------------------
// A pass whose budget lasts leaves nothing of its kind behind
// ---------------------------------------------------------------------------

proof fn lemma_block_after_clean(o: TemplateBlock, n: TemplateBlock, st: FlowView, cat: CompactArtifactCategory, budget: nat)
    requires
        block_after(o, n, st, cat, budget),
        pass_block(o, st, cat, budget) > 0,
        !hides_block(o),
    ensures
        quiet_block(n, st, cat),
    decreases o, 0nat,
{
    if is_candidate(o, st, cat) {
    } else {
        match o {
            TemplateBlock::Table { cell_blocks, .. } => {
                lemma_cell_rows_after_clean(cell_blocks@, n->Table_cell_blocks@, cat, budget);
            },
            TemplateBlock::ObjectPlaceholder { children, .. } => {
                lemma_blocks_after_clean(children@, n->ObjectPlaceholder_children@, fresh_flow(), cat, budget);
            },
            _ => {},
        }
    }
}

proof fn lemma_blocks_after_clean(x: Seq<TemplateBlock>, y: Seq<TemplateBlock>, st: FlowView, cat: CompactArtifactCategory, budget: nat)
    requires
        blocks_after(x, y, st, cat, budget),
        pass_blocks(x, st, cat, budget) > 0,
        !hides_blocks(x),
    ensures
        quiet_blocks(y, st, cat),
    decreases x, 1nat,
{
    if x.len() > 0 {
        let k = pass_blocks(x.drop_last(), st, cat, budget);
        lemma_pass_block_le(x.last(), flow_after(x.drop_last(), st), cat, k);
        lemma_blocks_after_clean(x.drop_last(), y.drop_last(), st, cat, budget);
        lemma_blocks_after_flow(x.drop_last(), y.drop_last(), st, cat, budget, st);
        lemma_block_after_clean(x.last(), y.last(), flow_after(x.drop_last(), st), cat, k);
    }
}

proof fn lemma_each_after_clean(x: Seq<TemplateBlock>, y: Seq<TemplateBlock>, cat: CompactArtifactCategory, budget: nat)
    requires
        each_after(x, y, cat, budget),
        pass_each(x, cat, budget) > 0,
        !hides_blocks(x),
    ensures
        quiet_each(y, cat),
    decreases x, 1nat,
{
    if x.len() > 0 {
        let k = pass_each(x.drop_last(), cat, budget);
        lemma_pass_block_le(x.last(), fresh_flow(), cat, k);
        lemma_each_after_clean(x.drop_last(), y.drop_last(), cat, budget);
        lemma_block_after_clean(x.last(), y.last(), fresh_flow(), cat, k);
    }
}

proof fn lemma_cells_after_clean(x: Seq<Vec<TemplateBlock>>, y: Seq<Vec<TemplateBlock>>, cat: CompactArtifactCategory, budget: nat)
    requires
        cells_after(x, y, cat, budget),
        pass_cells(x, cat, budget) > 0,
        !hides_cells(x),
    ensures
        quiet_cells(y, cat),
    decreases x, 1nat,
{
    if x.len() > 0 {
        let k = pass_cells(x.drop_last(), cat, budget);
        lemma_pass_each_le(x.last()@, cat, k);
        lemma_cells_after_clean(x.drop_last(), y.drop_last(), cat, budget);
        lemma_each_after_clean(x.last()@, y.last()@, cat, k);
    }
}

proof fn lemma_cell_rows_after_clean(x: Seq<Vec<Vec<TemplateBlock>>>, y: Seq<Vec<Vec<TemplateBlock>>>, cat: CompactArtifactCategory, budget: nat)
    requires
        cell_rows_after(x, y, cat, budget),
        pass_cell_rows(x, cat, budget) > 0,
        !hides_cell_rows(x),
    ensures
        quiet_cell_rows(y, cat),
    decreases x, 1nat,
{
    if x.len() > 0 {
        let k = pass_cell_rows(x.drop_last(), cat, budget);
        lemma_pass_cells_le(x.last()@, cat, k);
        lemma_cell_rows_after_clean(x.drop_last(), y.drop_last(), cat, budget);
        lemma_cells_after_clean(x.last()@, y.last()@, cat, k);
    }
}

proof fn lemma_sections_after_clean(x: Seq<TemplateSection>, y: Seq<TemplateSection>, cat: CompactArtifactCategory, budget: nat)
    requires
        sections_after(x, y, cat, budget),
        pass_sections(x, cat, budget) > 0,
        !hides_sections(x),
    ensures
        quiet_sections(y, cat),
    decreases x.len(),
{
    if x.len() > 0 {
        let k = pass_sections(x.drop_last(), cat, budget);
        lemma_pass_blocks_le(x.last().blocks@, fresh_flow(), cat, k);
        lemma_sections_after_clean(x.drop_last(), y.drop_last(), cat, budget);
        lemma_blocks_after_clean(x.last().blocks@, y.last().blocks@, fresh_flow(), cat, k);
    }
}

// ---------------------------------------------------------------------------
// A pass over quiet blocks changes nothing and spends nothing
// ---------------------------------------------------------------------------

proof fn lemma_block_after_quiet_same(o: TemplateBlock, o2: TemplateBlock, n: TemplateBlock, st: FlowView, cat: CompactArtifactCategory, budget: nat)
    requires
        quiet_block(o, st, cat),
        same_block(o, o2),
        block_after(o2, n, st, cat, budget),
    ensures
        pass_block(o2, st, cat, budget) == budget,
        same_block(o, n),
    decreases o, 0nat,
{
    lemma_pass_block_same(o, o2, st, cat, budget);
    if budget == 0 {
    } else {
        match o {
            TemplateBlock::Table { cell_blocks, .. } => {
                lemma_cell_rows_after_quiet_same(cell_blocks@, o2->Table_cell_blocks@, n->Table_cell_blocks@, cat, budget);
            },
            TemplateBlock::ObjectPlaceholder { children, .. } => {
                lemma_blocks_after_quiet_same(children@, o2->ObjectPlaceholder_children@, n->ObjectPlaceholder_children@, fresh_flow(), cat, budget);
            },
            _ => {},
        }
    }
}

proof fn lemma_blocks_after_quiet_same(x: Seq<TemplateBlock>, x2: Seq<TemplateBlock>, y: Seq<TemplateBlock>, st: FlowView, cat: CompactArtifactCategory, budget: nat)
    requires
        quiet_blocks(x, st, cat),
        same_blocks(x, x2),
        blocks_after(x2, y, st, cat, budget),
    ensures
        pass_blocks(x2, st, cat, budget) == budget,
        same_blocks(x, y),
    decreases x, 1nat,
{
    if x.len() > 0 {
        lemma_blocks_after_quiet_same(x.drop_last(), x2.drop_last(), y.drop_last(), st, cat, budget);
        lemma_pass_blocks_same(x.drop_last(), x2.drop_last(), st, cat, budget);
        lemma_block_after_quiet_same(x.last(), x2.last(), y.last(), flow_after(x.drop_last(), st), cat, budget);
    }
}

proof fn lemma_each_after_quiet_same(x: Seq<TemplateBlock>, x2: Seq<TemplateBlock>, y: Seq<TemplateBlock>, cat: CompactArtifactCategory, budget: nat)
    requires
        quiet_each(x, cat),
        same_blocks(x, x2),
        each_after(x2, y, cat, budget),
    ensures
        pass_each(x2, cat, budget) == budget,
        same_blocks(x, y),
    decreases x, 1nat,
{
    if x.len() > 0 {
        lemma_each_after_quiet_same(x.drop_last(), x2.drop_last(), y.drop_last(), cat, budget);
        lemma_block_after_quiet_same(x.last(), x2.last(), y.last(), fresh_flow(), cat, budget);
    }
}

proof fn lemma_cells_after_quiet_same(x: Seq<Vec<TemplateBlock>>, x2: Seq<Vec<TemplateBlock>>, y: Seq<Vec<TemplateBlock>>, cat: CompactArtifactCategory, budget: nat)
    requires
        quiet_cells(x, cat),
        same_cells(x, x2),
        cells_after(x2, y, cat, budget),
    ensures
        pass_cells(x2, cat, budget) == budget,
        same_cells(x, y),
    decreases x, 1nat,
{
    if x.len() > 0 {
        lemma_cells_after_quiet_same(x.drop_last(), x2.drop_last(), y.drop_last(), cat, budget);
        lemma_each_after_quiet_same(x.last()@, x2.last()@, y.last()@, cat, budget);
    }
}

proof fn lemma_cell_rows_after_quiet_same(x: Seq<Vec<Vec<TemplateBlock>>>, x2: Seq<Vec<Vec<TemplateBlock>>>, y: Seq<Vec<Vec<TemplateBlock>>>, cat: CompactArtifactCategory, budget: nat)
    requires
        quiet_cell_rows(x, cat),
        same_cell_rows(x, x2),
        cell_rows_after(x2, y, cat, budget),
    ensures
        pass_cell_rows(x2, cat, budget) == budget,
        same_cell_rows(x, y),
    decreases x, 1nat,
{
    if x.len() > 0 {
        lemma_cell_rows_after_quiet_same(x.drop_last(), x2.drop_last(), y.drop_last(), cat, budget);
        lemma_cells_after_quiet_same(x.last()@, x2.last()@, y.last()@, cat, budget);
    }
}

proof fn lemma_sections_after_quiet_same(x: Seq<TemplateSection>, x2: Seq<TemplateSection>, y: Seq<TemplateSection>, cat: CompactArtifactCategory, budget: nat)
    requires
        quiet_sections(x, cat),
        same_sections(x, x2),
        sections_after(x2, y, cat, budget),
    ensures
        pass_sections(x2, cat, budget) == budget,
        same_sections(x, y),
    decreases x.len(),
{
    if x.len() > 0 {
        lemma_sections_after_quiet_same(x.drop_last(), x2.drop_last(), y.drop_last(), cat, budget);
        lemma_blocks_after_quiet_same(x.last().blocks@, x2.last().blocks@, y.last().blocks@, fresh_flow(), cat, budget);
    }
}

/// Compaction run a second time finds nothing more to clear: the report
/// counts no removal and the template stays the same. This holds where the
/// first run's budget was not used up, and where no floating object with a
/// page break holds, among its own blocks, another floating object or
/// picture with a page break (the first run clears the outer break without
/// looking inside, so the second run finds the inner one).
pub proof fn lemma_compaction_idempotent(
    before: DocumentTemplate,
    middle: DocumentTemplate,
    after: DocumentTemplate,
    max_removals: nat,
    first: TemplatePageFlowCompactReport,
    second: TemplatePageFlowCompactReport,
)
    requires
        compaction_result(before, middle, max_removals, first),
        first.total_removed < max_removals,
        !hides_sections(before.sections@),
        compaction_result(middle, after, max_removals, second),
    ensures
        second.total_removed == 0,
        second.empty_paragraph_page_breaks_removed == 0,
        second.sibling_paragraph_page_breaks_removed == 0,
        second.floating_object_page_breaks_removed == 0,
        second.inline_picture_page_breaks_removed == 0,
        same_template(middle, after),
{
    let ep = CompactArtifactCategory::EmptyParagraph;
    let ds = CompactArtifactCategory::DelayedSibling;
    let fo = CompactArtifactCategory::FloatingObject;
    let ip = CompactArtifactCategory::InlinePicture;
    let (t1, t2, t3) = choose|t1: DocumentTemplate, t2: DocumentTemplate, t3: DocumentTemplate|
        #[trigger] compaction_chain(before, t1, t2, t3, middle, max_removals, first);
    let (u1, u2, u3) = choose|t1: DocumentTemplate, t2: DocumentTemplate, t3: DocumentTemplate|
        #[trigger] compaction_chain(middle, t1, t2, t3, after, max_removals, second);
    let b1 = pass_sections(before.sections@, ep, max_removals);
    let b2 = pass_sections(t1.sections@, ds, b1);
    let b3 = pass_sections(t2.sections@, fo, b2);
    let b4 = pass_sections(t3.sections@, ip, b3);
    lemma_pass_sections_le(before.sections@, ep, max_removals);
    lemma_pass_sections_le(t1.sections@, ds, b1);
    lemma_pass_sections_le(t2.sections@, fo, b2);
    lemma_pass_sections_le(t3.sections@, ip, b3);
    assert(b4 > 0);
    // Nothing is hidden at any stage of the first run.
    lemma_sections_after_hides(before.sections@, t1.sections@, ep, max_removals);
    lemma_sections_after_hides(t1.sections@, t2.sections@, ds, b1);
    lemma_sections_after_hides(t2.sections@, t3.sections@, fo, b2);
    // Each pass of the first run leaves its kind quiet, and the later passes
    // keep it so.
    lemma_sections_after_clean(before.sections@, t1.sections@, ep, max_removals);
    lemma_sections_after_quiet(t1.sections@, t2.sections@, ds, b1, ep);
    lemma_sections_after_quiet(t2.sections@, t3.sections@, fo, b2, ep);
    lemma_sections_after_quiet(t3.sections@, middle.sections@, ip, b3, ep);
    lemma_sections_after_clean(t1.sections@, t2.sections@, ds, b1);
    lemma_sections_after_quiet(t2.sections@, t3.sections@, fo, b2, ds);
    lemma_sections_after_quiet(t3.sections@, middle.sections@, ip, b3, ds);
    lemma_sections_after_clean(t2.sections@, t3.sections@, fo, b2);
    lemma_sections_after_quiet(t3.sections@, middle.sections@, ip, b3, fo);
    lemma_sections_after_clean(t3.sections@, middle.sections@, ip, b3);
    // The second run then changes nothing and spends nothing.
    lemma_same_sections_refl(middle.sections@);
    lemma_sections_after_quiet_same(middle.sections@, middle.sections@, u1.sections@, ep, max_removals);
    lemma_sections_after_quiet_same(middle.sections@, u1.sections@, u2.sections@, ds, max_removals);
    lemma_sections_after_quiet_same(middle.sections@, u2.sections@, u3.sections@, fo, max_removals);
    lemma_sections_after_quiet_same(middle.sections@, u3.sections@, after.sections@, ip, max_removals);
}

// ---------------------------------------------------------------------------
// How many blocks a pass changes
// ---------------------------------------------------------------------------

/// The break before block `b`.
pub open spec fn break_of(b: TemplateBlock) -> Option<TemplateBreak> {
    match b {
        TemplateBlock::Paragraph { break_before, .. } => break_before,
        TemplateBlock::Table { break_before, .. } => break_before,
        TemplateBlock::Equation { break_before, .. } => break_before,
        TemplateBlock::Picture { break_before, .. } => break_before,
        TemplateBlock::ObjectPlaceholder { break_before, .. } => break_before,
    }
}

/// How many blocks, `o` and those inside it, have another break in `n`
/// than in `o` (inner blocks paired up by position).
pub open spec fn changed_block(o: TemplateBlock, n: TemplateBlock) -> nat
    decreases o, 0nat,
{
    (if break_of(o) != break_of(n) { 1nat } else { 0nat }) + match o {
        TemplateBlock::Table { cell_blocks, .. } => if n is Table {
            changed_cell_rows(cell_blocks@, n->Table_cell_blocks@)
        } else {
            0nat
        },
        TemplateBlock::ObjectPlaceholder { children, .. } => if n is ObjectPlaceholder {
            changed_blocks(children@, n->ObjectPlaceholder_children@)
        } else {
            0nat
        },
        _ => 0nat,
    }
}

/// How many blocks of the list `x`, and inside them, have another break in
/// `y`.
pub open spec fn changed_blocks(x: Seq<TemplateBlock>, y: Seq<TemplateBlock>) -> nat
    decreases x, 1nat,
{
    if x.len() == 0 || y.len() != x.len() {
        0
    } else {
        changed_blocks(x.drop_last(), y.drop_last()) + changed_block(x.last(), y.last())
    }
}

/// How many blocks of a table row's cells have another break in `y`.
pub open spec fn changed_cells(x: Seq<Vec<TemplateBlock>>, y: Seq<Vec<TemplateBlock>>) -> nat
    decreases x, 1nat,
{
    if x.len() == 0 || y.len() != x.len() {
        0
    } else {
        changed_cells(x.drop_last(), y.drop_last()) + changed_blocks(x.last()@, y.last()@)
    }
}

/// How many blocks of a table's cells have another break in `y`.
pub open spec fn changed_cell_rows(x: Seq<Vec<Vec<TemplateBlock>>>, y: Seq<Vec<Vec<TemplateBlock>>>) -> nat
    decreases x, 1nat,
{
    if x.len() == 0 || y.len() != x.len() {
        0
    } else {
        changed_cell_rows(x.drop_last(), y.drop_last()) + changed_cells(x.last()@, y.last()@)
    }
}

/// How many blocks of the sections `x` have another break in `y`.
pub open spec fn changed_sections(x: Seq<TemplateSection>, y: Seq<TemplateSection>) -> nat
    decreases x.len(),
{
    if x.len() == 0 || y.len() != x.len() {
        0
    } else {
        changed_sections(x.drop_last(), y.drop_last()) + changed_blocks(x.last().blocks@, y.last().blocks@)
    }
}

proof fn lemma_changed_block_none(b: TemplateBlock)
    ensures
        changed_block(b, b) == 0,
    decreases b, 0nat,
{
    match b {
        TemplateBlock::Table { cell_blocks, .. } => lemma_changed_cell_rows_none(cell_blocks@),
        TemplateBlock::ObjectPlaceholder { children, .. } => lemma_changed_blocks_none(children@),
        _ => {},
    }
}

proof fn lemma_changed_blocks_none(x: Seq<TemplateBlock>)
    ensures
        changed_blocks(x, x) == 0,
    decreases x, 1nat,
{
    if x.len() > 0 {
        lemma_changed_blocks_none(x.drop_last());
        lemma_changed_block_none(x.last());
    }
}

proof fn lemma_changed_cells_none(x: Seq<Vec<TemplateBlock>>)
    ensures
        changed_cells(x, x) == 0,
    decreases x, 1nat,
{
    if x.len() > 0 {
        lemma_changed_cells_none(x.drop_last());
        lemma_changed_blocks_none(x.last()@);
    }
}

proof fn lemma_changed_cell_rows_none(x: Seq<Vec<Vec<TemplateBlock>>>)
    ensures
        changed_cell_rows(x, x) == 0,
    decreases x, 1nat,
{
    if x.len() > 0 {
        lemma_changed_cell_rows_none(x.drop_last());
        lemma_changed_cells_none(x.last()@);
    }
}

proof fn lemma_block_after_changed(o: TemplateBlock, n: TemplateBlock, st: FlowView, cat: CompactArtifactCategory, budget: nat)
    requires
        block_after(o, n, st, cat, budget),
    ensures
        changed_block(o, n) == budget - pass_block(o, st, cat, budget),
    decreases o, 0nat,
{
    if budget == 0 {
        lemma_changed_block_none(o);
    } else if is_candidate(o, st, cat) {
        match o {
            TemplateBlock::ObjectPlaceholder { children, .. } => lemma_changed_blocks_none(children@),
            _ => {},
        }
    } else {
        match o {
            TemplateBlock::Table { cell_blocks, .. } => {
                lemma_cell_rows_after_changed(cell_blocks@, n->Table_cell_blocks@, cat, budget);
            },
            TemplateBlock::ObjectPlaceholder { children, .. } => {
                lemma_blocks_after_changed(children@, n->ObjectPlaceholder_children@, fresh_flow(), cat, budget);
            },
            _ => {},
        }
    }
}

proof fn lemma_blocks_after_changed(x: Seq<TemplateBlock>, y: Seq<TemplateBlock>, st: FlowView, cat: CompactArtifactCategory, budget: nat)
    requires
        blocks_after(x, y, st, cat, budget),
    ensures
        changed_blocks(x, y) == budget - pass_blocks(x, st, cat, budget),
    decreases x, 1nat,
{
    if x.len() > 0 {
        lemma_blocks_after_changed(x.drop_last(), y.drop_last(), st, cat, budget);
        lemma_block_after_changed(x.last(), y.last(), flow_after(x.drop_last(), st), cat, pass_blocks(x.drop_last(), st, cat, budget));
    }
}

proof fn lemma_each_after_changed(x: Seq<TemplateBlock>, y: Seq<TemplateBlock>, cat: CompactArtifactCategory, budget: nat)
    requires
        each_after(x, y, cat, budget),
    ensures
        changed_blocks(x, y) == budget - pass_each(x, cat, budget),
    decreases x, 1nat,
{
    if x.len() > 0 {
        lemma_each_after_changed(x.drop_last(), y.drop_last(), cat, budget);
        lemma_block_after_changed(x.last(), y.last(), fresh_flow(), cat, pass_each(x.drop_last(), cat, budget));
    }
}

proof fn lemma_cells_after_changed(x: Seq<Vec<TemplateBlock>>, y: Seq<Vec<TemplateBlock>>, cat: CompactArtifactCategory, budget: nat)
    requires
        cells_after(x, y, cat, budget),
    ensures
        changed_cells(x, y) == budget - pass_cells(x, cat, budget),
    decreases x, 1nat,
{
    if x.len() > 0 {
        lemma_cells_after_changed(x.drop_last(), y.drop_last(), cat, budget);
        lemma_each_after_changed(x.last()@, y.last()@, cat, pass_cells(x.drop_last(), cat, budget));
    }
}

proof fn lemma_cell_rows_after_changed(x: Seq<Vec<Vec<TemplateBlock>>>, y: Seq<Vec<Vec<TemplateBlock>>>, cat: CompactArtifactCategory, budget: nat)
    requires
        cell_rows_after(x, y, cat, budget),
    ensures
        changed_cell_rows(x, y) == budget - pass_cell_rows(x, cat, budget),
    decreases x, 1nat,
{
    if x.len() > 0 {
        lemma_cell_rows_after_changed(x.drop_last(), y.drop_last(), cat, budget);
        lemma_cells_after_changed(x.last()@, y.last()@, cat, pass_cell_rows(x.drop_last(), cat, budget));
    }
}

proof fn lemma_sections_after_changed(x: Seq<TemplateSection>, y: Seq<TemplateSection>, cat: CompactArtifactCategory, budget: nat)
    requires
        sections_after(x, y, cat, budget),
    ensures
        changed_sections(x, y) == budget - pass_sections(x, cat, budget),
    decreases x.len(),
{
    if x.len() > 0 {
        lemma_sections_after_changed(x.drop_last(), y.drop_last(), cat, budget);
        lemma_blocks_after_changed(x.last().blocks@, y.last().blocks@, fresh_flow(), cat, pass_sections(x.drop_last(), cat, budget));
    }
}

/// Each pass of compaction changes the break of exactly as many blocks as
/// the report counts for its kind (blocks in table cells and object
/// children included), so the total counts every block whose break a pass
/// cleared.
pub proof fn lemma_compaction_counts_changed_blocks(
    before: DocumentTemplate,
    t1: DocumentTemplate,
    t2: DocumentTemplate,
    t3: DocumentTemplate,
    after: DocumentTemplate,
    max_removals: nat,
    report: TemplatePageFlowCompactReport,
)
    requires
        compaction_chain(before, t1, t2, t3, after, max_removals, report),
    ensures
        report.empty_paragraph_page_breaks_removed == changed_sections(before.sections@, t1.sections@),
        report.sibling_paragraph_page_breaks_removed == changed_sections(t1.sections@, t2.sections@),
        report.floating_object_page_breaks_removed == changed_sections(t2.sections@, t3.sections@),
        report.inline_picture_page_breaks_removed == changed_sections(t3.sections@, after.sections@),
        report.total_removed == changed_sections(before.sections@, t1.sections@)
            + changed_sections(t1.sections@, t2.sections@) + changed_sections(t2.sections@, t3.sections@)
            + changed_sections(t3.sections@, after.sections@),
{
    let b1 = pass_sections(before.sections@, CompactArtifactCategory::EmptyParagraph, max_removals);
    let b2 = pass_sections(t1.sections@, CompactArtifactCategory::DelayedSibling, b1);
    let b3 = pass_sections(t2.sections@, CompactArtifactCategory::FloatingObject, b2);
    lemma_sections_after_changed(before.sections@, t1.sections@, CompactArtifactCategory::EmptyParagraph, max_removals);
    lemma_sections_after_changed(t1.sections@, t2.sections@, CompactArtifactCategory::DelayedSibling, b1);
    lemma_sections_after_changed(t2.sections@, t3.sections@, CompactArtifactCategory::FloatingObject, b2);
    lemma_sections_after_changed(t3.sections@, after.sections@, CompactArtifactCategory::InlinePicture, b3);
}

// ---------------------------------------------------------------------------
// Compaction as a whole only clears page breaks
// ---------------------------------------------------------------------------

/// A break that is kept, or a page break that is cleared.
pub open spec fn break_cleared(o: Option<TemplateBreak>, n: Option<TemplateBreak>) -> bool {
    n == o || (o == Some(TemplateBreak::Page) && n is None)
}

/// `b` is `a` with the page breaks of some blocks (`a` itself, or blocks in
/// its table cells or object children) cleared, and nothing else changed.
pub open spec fn cleared_block(a: TemplateBlock, b: TemplateBlock) -> bool
    decreases a, 0nat,
{
    match a {
        TemplateBlock::Table { cell_blocks, .. } => {
            &&& b is Table
            &&& b->Table_rows == a->Table_rows
            &&& b->Table_break_before == a->Table_break_before
            &&& b->Table_rhwp_saved_gap_before == a->Table_rhwp_saved_gap_before
            &&& b->Table_host_group == a->Table_host_group
            &&& b->Table_style == a->Table_style
            &&& b->Table_host_para_shape_id == a->Table_host_para_shape_id
            &&& b->Table_para_format == a->Table_para_format
            &&& b->Table_line_segments == a->Table_line_segments
            &&& b->Table_caption == a->Table_caption
            &&& b->Table_column_widths == a->Table_column_widths
            &&& b->Table_row_heights == a->Table_row_heights
            &&& b->Table_table_layout == a->Table_table_layout
            &&& b->Table_object_layout == a->Table_object_layout
            &&& b->Table_border_fill == a->Table_border_fill
            &&& b->Table_table_zones == a->Table_table_zones
            &&& b->Table_cell_layouts == a->Table_cell_layouts
            &&& b->Table_cell_formats == a->Table_cell_formats
            &&& cleared_cell_rows(cell_blocks@, b->Table_cell_blocks@)
        },
        TemplateBlock::ObjectPlaceholder { children, .. } => {
            &&& b is ObjectPlaceholder
            &&& b->ObjectPlaceholder_object_kind == a->ObjectPlaceholder_object_kind
            &&& break_cleared(a->ObjectPlaceholder_break_before, b->ObjectPlaceholder_break_before)
            &&& b->ObjectPlaceholder_host_group == a->ObjectPlaceholder_host_group
            &&& b->ObjectPlaceholder_shape_kind == a->ObjectPlaceholder_shape_kind
            &&& b->ObjectPlaceholder_description == a->ObjectPlaceholder_description
            &&& b->ObjectPlaceholder_placeholder_text == a->ObjectPlaceholder_placeholder_text
            &&& b->ObjectPlaceholder_width == a->ObjectPlaceholder_width
            &&& b->ObjectPlaceholder_height == a->ObjectPlaceholder_height
            &&& b->ObjectPlaceholder_treat_as_char == a->ObjectPlaceholder_treat_as_char
            &&& b->ObjectPlaceholder_horz_offset == a->ObjectPlaceholder_horz_offset
            &&& b->ObjectPlaceholder_vert_offset == a->ObjectPlaceholder_vert_offset
            &&& b->ObjectPlaceholder_caption == a->ObjectPlaceholder_caption
            &&& b->ObjectPlaceholder_shape_component_id == a->ObjectPlaceholder_shape_component_id
            &&& b->ObjectPlaceholder_geometry == a->ObjectPlaceholder_geometry
            &&& b->ObjectPlaceholder_drawing_style == a->ObjectPlaceholder_drawing_style
            &&& b->ObjectPlaceholder_layout == a->ObjectPlaceholder_layout
            &&& b->ObjectPlaceholder_raw_hwp_chart_data_base64 == a->ObjectPlaceholder_raw_hwp_chart_data_base64
            &&& b->ObjectPlaceholder_raw_hwp_ole_tag_base64 == a->ObjectPlaceholder_raw_hwp_ole_tag_base64
            &&& b->ObjectPlaceholder_ole_bin_data_base64 == a->ObjectPlaceholder_ole_bin_data_base64
            &&& b->ObjectPlaceholder_ole_extension == a->ObjectPlaceholder_ole_extension
            &&& b->ObjectPlaceholder_ole_object_type == a->ObjectPlaceholder_ole_object_type
            &&& b->ObjectPlaceholder_ole_draw_aspect == a->ObjectPlaceholder_ole_draw_aspect
            &&& b->ObjectPlaceholder_ole_eq_base_line == a->ObjectPlaceholder_ole_eq_base_line
            &&& b->ObjectPlaceholder_ole_has_moniker == a->ObjectPlaceholder_ole_has_moniker
            &&& cleared_blocks(children@, b->ObjectPlaceholder_children@)
        },
        _ => b == a || (is_page(break_of(a)) && b == without_break(a)),
    }
}

/// `y` is `x` with some page breaks cleared, block by block.
pub open spec fn cleared_blocks(x: Seq<TemplateBlock>, y: Seq<TemplateBlock>) -> bool
    decreases x, 1nat,
{
    if x.len() == 0 {
        y.len() == 0
    } else {
        &&& y.len() == x.len()
        &&& cleared_blocks(x.drop_last(), y.drop_last())
        &&& cleared_block(x.last(), y.last())
    }
}

/// `y` is the row of cells `x` with some page breaks cleared.
pub open spec fn cleared_cells(x: Seq<Vec<TemplateBlock>>, y: Seq<Vec<TemplateBlock>>) -> bool
    decreases x, 1nat,
{
    if x.len() == 0 {
        y.len() == 0
    } else {
        &&& y.len() == x.len()
        &&& cleared_cells(x.drop_last(), y.drop_last())
        &&& cleared_blocks(x.last()@, y.last()@)
    }
}

/// `y` is the table cells `x` with some page breaks cleared.
pub open spec fn cleared_cell_rows(x: Seq<Vec<Vec<TemplateBlock>>>, y: Seq<Vec<Vec<TemplateBlock>>>) -> bool
    decreases x, 1nat,
{
    if x.len() == 0 {
        y.len() == 0
    } else {
        &&& y.len() == x.len()
        &&& cleared_cell_rows(x.drop_last(), y.drop_last())
        &&& cleared_cells(x.last()@, y.last()@)
    }
}

/// `y` is the sections `x` with some page breaks cleared: the same
/// settings, the blocks cleared.
pub open spec fn cleared_sections(x: Seq<TemplateSection>, y: Seq<TemplateSection>) -> bool
    decreases x.len(),
{
    if x.len() == 0 {
        y.len() == 0
    } else {
        &&& y.len() == x.len()
        &&& cleared_sections(x.drop_last(), y.drop_last())
        &&& y.last().page_def == x.last().page_def
        &&& y.last().section_def == x.last().section_def
        &&& y.last().page_border_fill == x.last().page_border_fill
        &&& y.last().footnote_shape == x.last().footnote_shape
        &&& y.last().endnote_shape == x.last().endnote_shape
        &&& cleared_blocks(x.last().blocks@, y.last().blocks@)
    }
}

// Nothing cleared.

proof fn lemma_cleared_block_refl(a: TemplateBlock)
    ensures
        cleared_block(a, a),
    decreases a, 0nat,
{
    match a {
        TemplateBlock::Table { cell_blocks, .. } => lemma_cleared_cell_rows_refl(cell_blocks@),
        TemplateBlock::ObjectPlaceholder { children, .. } => lemma_cleared_blocks_refl(children@),
        _ => {},
    }
}

proof fn lemma_cleared_blocks_refl(x: Seq<TemplateBlock>)
    ensures
        cleared_blocks(x, x),
    decreases x, 1nat,
{
    if x.len() > 0 {
        lemma_cleared_blocks_refl(x.drop_last());
        lemma_cleared_block_refl(x.last());
    }
}

proof fn lemma_cleared_cells_refl(x: Seq<Vec<TemplateBlock>>)
    ensures
        cleared_cells(x, x),
    decreases x, 1nat,
{
    if x.len() > 0 {
        lemma_cleared_cells_refl(x.drop_last());
        lemma_cleared_blocks_refl(x.last()@);
    }
}

proof fn lemma_cleared_cell_rows_refl(x: Seq<Vec<Vec<TemplateBlock>>>)
    ensures
        cleared_cell_rows(x, x),
    decreases x, 1nat,
{
    if x.len() > 0 {
        lemma_cleared_cell_rows_refl(x.drop_last());
        lemma_cleared_cells_refl(x.last()@);
    }
}

// A pass only clears.

proof fn lemma_block_after_cleared(o: TemplateBlock, n: TemplateBlock, st: FlowView, cat: CompactArtifactCategory, budget: nat)
    requires
        block_after(o, n, st, cat, budget),
    ensures
        cleared_block(o, n),
    decreases o, 0nat,
{
    if budget == 0 {
        lemma_cleared_block_refl(o);
    } else if is_candidate(o, st, cat) {
        match o {
            TemplateBlock::ObjectPlaceholder { children, .. } => lemma_cleared_blocks_refl(children@),
            _ => {},
        }
    } else {
        match o {
            TemplateBlock::Table { cell_blocks, .. } => {
                lemma_cell_rows_after_cleared(cell_blocks@, n->Table_cell_blocks@, cat, budget);
            },
            TemplateBlock::ObjectPlaceholder { children, .. } => {
                lemma_blocks_after_cleared(children@, n->ObjectPlaceholder_children@, fresh_flow(), cat, budget);
            },
            _ => {},
        }
    }
}

proof fn lemma_blocks_after_cleared(x: Seq<TemplateBlock>, y: Seq<TemplateBlock>, st: FlowView, cat: CompactArtifactCategory, budget: nat)
    requires
        blocks_after(x, y, st, cat, budget),
    ensures
        cleared_blocks(x, y),
    decreases x, 1nat,
{
    if x.len() > 0 {
        lemma_blocks_after_cleared(x.drop_last(), y.drop_last(), st, cat, budget);
        lemma_block_after_cleared(x.last(), y.last(), flow_after(x.drop_last(), st), cat, pass_blocks(x.drop_last(), st, cat, budget));
    }
}

proof fn lemma_each_after_cleared(x: Seq<TemplateBlock>, y: Seq<TemplateBlock>, cat: CompactArtifactCategory, budget: nat)
    requires
        each_after(x, y, cat, budget),
    ensures
        cleared_blocks(x, y),
    decreases x, 1nat,
{
    if x.len() > 0 {
        lemma_each_after_cleared(x.drop_last(), y.drop_last(), cat, budget);
        lemma_block_after_cleared(x.last(), y.last(), fresh_flow(), cat, pass_each(x.drop_last(), cat, budget));
    }
}

proof fn lemma_cells_after_cleared(x: Seq<Vec<TemplateBlock>>, y: Seq<Vec<TemplateBlock>>, cat: CompactArtifactCategory, budget: nat)
    requires
        cells_after(x, y, cat, budget),
    ensures
        cleared_cells(x, y),
    decreases x, 1nat,
{
    if x.len() > 0 {
        lemma_cells_after_cleared(x.drop_last(), y.drop_last(), cat, budget);
        lemma_each_after_cleared(x.last()@, y.last()@, cat, pass_cells(x.drop_last(), cat, budget));
    }
}

proof fn lemma_cell_rows_after_cleared(x: Seq<Vec<Vec<TemplateBlock>>>, y: Seq<Vec<Vec<TemplateBlock>>>, cat: CompactArtifactCategory, budget: nat)
    requires
        cell_rows_after(x, y, cat, budget),
    ensures
        cleared_cell_rows(x, y),
    decreases x, 1nat,
{
    if x.len() > 0 {
        lemma_cell_rows_after_cleared(x.drop_last(), y.drop_last(), cat, budget);
        lemma_cells_after_cleared(x.last()@, y.last()@, cat, pass_cell_rows(x.drop_last(), cat, budget));
    }
}

proof fn lemma_sections_after_cleared(x: Seq<TemplateSection>, y: Seq<TemplateSection>, cat: CompactArtifactCategory, budget: nat)
    requires
        sections_after(x, y, cat, budget),
    ensures
        cleared_sections(x, y),
    decreases x.len(),
{
    if x.len() > 0 {
        lemma_sections_after_cleared(x.drop_last(), y.drop_last(), cat, budget);
        lemma_blocks_after_cleared(x.last().blocks@, y.last().blocks@, fresh_flow(), cat, pass_sections(x.drop_last(), cat, budget));
    }
}

// Clearing twice is clearing once, and the changed blocks add up.

proof fn lemma_cleared_block_trans(a: TemplateBlock, b: TemplateBlock, c: TemplateBlock)
    requires
        cleared_block(a, b),
        cleared_block(b, c),
    ensures
        cleared_block(a, c),
        changed_block(a, c) == changed_block(a, b) + changed_block(b, c),
    decreases a, 0nat,
{
    match a {
        TemplateBlock::Table { cell_blocks, .. } => {
            lemma_cleared_cell_rows_trans(cell_blocks@, b->Table_cell_blocks@, c->Table_cell_blocks@);
        },
        TemplateBlock::ObjectPlaceholder { children, .. } => {
            lemma_cleared_blocks_trans(children@, b->ObjectPlaceholder_children@, c->ObjectPlaceholder_children@);
        },
        _ => {
            lemma_changed_block_none(a);
            lemma_changed_block_none(b);
        },
    }
}

proof fn lemma_cleared_blocks_trans(x: Seq<TemplateBlock>, y: Seq<TemplateBlock>, z: Seq<TemplateBlock>)
    requires
        cleared_blocks(x, y),
        cleared_blocks(y, z),
    ensures
        cleared_blocks(x, z),
        changed_blocks(x, z) == changed_blocks(x, y) + changed_blocks(y, z),
    decreases x, 1nat,
{
    if x.len() > 0 {
        lemma_cleared_blocks_trans(x.drop_last(), y.drop_last(), z.drop_last());
        lemma_cleared_block_trans(x.last(), y.last(), z.last());
    }
}

proof fn lemma_cleared_cells_trans(x: Seq<Vec<TemplateBlock>>, y: Seq<Vec<TemplateBlock>>, z: Seq<Vec<TemplateBlock>>)
    requires
        cleared_cells(x, y),
        cleared_cells(y, z),
    ensures
        cleared_cells(x, z),
        changed_cells(x, z) == changed_cells(x, y) + changed_cells(y, z),
    decreases x, 1nat,
{
    if x.len() > 0 {
        lemma_cleared_cells_trans(x.drop_last(), y.drop_last(), z.drop_last());
        lemma_cleared_blocks_trans(x.last()@, y.last()@, z.last()@);
    }
}

proof fn lemma_cleared_cell_rows_trans(x: Seq<Vec<Vec<TemplateBlock>>>, y: Seq<Vec<Vec<TemplateBlock>>>, z: Seq<Vec<Vec<TemplateBlock>>>)
    requires
        cleared_cell_rows(x, y),
        cleared_cell_rows(y, z),
    ensures
        cleared_cell_rows(x, z),
        changed_cell_rows(x, z) == changed_cell_rows(x, y) + changed_cell_rows(y, z),
    decreases x, 1nat,
{
    if x.len() > 0 {
        lemma_cleared_cell_rows_trans(x.drop_last(), y.drop_last(), z.drop_last());
        lemma_cleared_cells_trans(x.last()@, y.last()@, z.last()@);
    }
}

proof fn lemma_cleared_sections_trans(x: Seq<TemplateSection>, y: Seq<TemplateSection>, z: Seq<TemplateSection>)
    requires
        cleared_sections(x, y),
        cleared_sections(y, z),
    ensures
        cleared_sections(x, z),
        changed_sections(x, z) == changed_sections(x, y) + changed_sections(y, z),
    decreases x.len(),
{
    if x.len() > 0 {
        lemma_cleared_sections_trans(x.drop_last(), y.drop_last(), z.drop_last());
        lemma_cleared_blocks_trans(x.last().blocks@, y.last().blocks@, z.last().blocks@);
    }
}

/// Over the whole call, compaction only clears page breaks: every section
/// keeps its settings, every block (in sections, table cells and object
/// children) is kept or loses a page break and nothing else, and the
/// number of blocks whose break changed is the report's total. The rest of
/// the template is kept.
pub proof fn lemma_compaction_clears_counted_breaks(
    before: DocumentTemplate,
    t1: DocumentTemplate,
    t2: DocumentTemplate,
    t3: DocumentTemplate,
    after: DocumentTemplate,
    max_removals: nat,
    report: TemplatePageFlowCompactReport,
)
    requires
        compaction_chain(before, t1, t2, t3, after, max_removals, report),
    ensures
        cleared_sections(before.sections@, after.sections@),
        changed_sections(before.sections@, after.sections@) == report.total_removed,
        after.version == before.version,
        after.source_page_count == before.source_page_count,
        after.font_faces == before.font_faces,
        after.char_shapes == before.char_shapes,
        after.para_shapes == before.para_shapes,
        after.styles == before.styles,
        after.headers == before.headers,
        after.footers == before.footers,
        after.master_pages == before.master_pages,
{
    let b1 = pass_sections(before.sections@, CompactArtifactCategory::EmptyParagraph, max_removals);
    let b2 = pass_sections(t1.sections@, CompactArtifactCategory::DelayedSibling, b1);
    let b3 = pass_sections(t2.sections@, CompactArtifactCategory::FloatingObject, b2);
    lemma_compaction_counts_changed_blocks(before, t1, t2, t3, after, max_removals, report);
    lemma_sections_after_cleared(before.sections@, t1.sections@, CompactArtifactCategory::EmptyParagraph, max_removals);
    lemma_sections_after_cleared(t1.sections@, t2.sections@, CompactArtifactCategory::DelayedSibling, b1);
    lemma_sections_after_cleared(t2.sections@, t3.sections@, CompactArtifactCategory::FloatingObject, b2);
    lemma_sections_after_cleared(t3.sections@, after.sections@, CompactArtifactCategory::InlinePicture, b3);
    lemma_cleared_sections_trans(before.sections@, t1.sections@, t2.sections@);
    lemma_cleared_sections_trans(before.sections@, t2.sections@, t3.sections@);
    lemma_cleared_sections_trans(before.sections@, t3.sections@, after.sections@);
}


/// Whether a block is a picture or an object placeholder laid out as a
/// character of the line.
pub open spec fn inline_object(b: TemplateBlock) -> bool {
    ||| b is Picture && b->Picture_treat_as_char
    ||| b is ObjectPlaceholder && b->ObjectPlaceholder_treat_as_char
}

/// How each block moves the flow state. A paragraph with text starts a new
/// state: it becomes the recent paragraph, with its last line's position
/// and no table or inline picture after it. After such a paragraph, a table
/// adds one to the tables and an inline picture or inline object
/// placeholder adds one to the inline pictures, each leaving the other
/// count, the text and the position as they were. Anything else (an
/// equation, an empty paragraph, a floating picture or object, or any block
/// with no recent paragraph) clears the state.
pub proof fn lemma_note_block_counts(st: FlowView, b: TemplateBlock)
    ensures
        ({
            let n = note_block_spec(st, b);
            &&& (b is Paragraph && b->Paragraph_text@.len() > 0) ==> {
                &&& n.text == Some(b->Paragraph_text@)
                &&& n.vpos == last_vpos(b->Paragraph_line_segments@)
                &&& n.tables == 0
                &&& n.pictures == 0
            }
            &&& (b is Table && st.text is Some) ==> {
                &&& n.tables == st.tables + 1
                &&& n.pictures == st.pictures
                &&& n.text == st.text
                &&& n.vpos == st.vpos
            }
            &&& (inline_object(b) && st.text is Some) ==> {
                &&& n.pictures == st.pictures + 1
                &&& n.tables == st.tables
                &&& n.text == st.text
                &&& n.vpos == st.vpos
            }
            &&& !(b is Paragraph && b->Paragraph_text@.len() > 0) && !((b is Table || inline_object(b))
                && st.text is Some) ==> {
                &&& n.text is None
                &&& n.vpos is None
                &&& n.tables == 0
                &&& n.pictures == 0
            }
        }),
{
}


/// Which page breaks each kind of pass takes for an artifact. An empty
/// paragraph's page break; the page break of item "(2)" of a list (see
/// `delayed_sibling_spec`); the page break of a floating picture or object;
/// and the page break of an inline picture that follows a line near the
/// foot of the page (at 50000 or below). No other block's break, and no
/// break that is not a page break, is ever taken.
pub proof fn lemma_candidates(b: TemplateBlock, st: FlowView)
    ensures
        is_candidate(b, st, CompactArtifactCategory::EmptyParagraph) <==> (b is Paragraph
            && b->Paragraph_break_before == Some(TemplateBreak::Page) && b->Paragraph_text@.len() == 0),
        is_candidate(b, st, CompactArtifactCategory::DelayedSibling) <==> (b is Paragraph
            && b->Paragraph_break_before == Some(TemplateBreak::Page) && delayed_sibling_spec(st, b->Paragraph_text@)),
        is_candidate(b, st, CompactArtifactCategory::FloatingObject) <==> ((b is Picture
            && b->Picture_break_before == Some(TemplateBreak::Page) && !b->Picture_treat_as_char) || (
        b is ObjectPlaceholder && b->ObjectPlaceholder_break_before == Some(TemplateBreak::Page)
            && !b->ObjectPlaceholder_treat_as_char)),
        is_candidate(b, st, CompactArtifactCategory::InlinePicture) <==> (b is Picture
            && b->Picture_break_before == Some(TemplateBreak::Page) && b->Picture_treat_as_char
            && st.vpos is Some && st.vpos->0 >= 50_000),
{
}

} // verus!
