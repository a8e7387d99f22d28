//! Removing page breaks that a document's page flow left behind in a
//! template: the break before an empty paragraph, before the second of two
//! sibling items that a table and an inline picture pushed apart, before a
//! floating object, and before an inline picture that follows a paragraph
//! near the foot of a page.

use super::{DocumentTemplate, TemplateBlock, TemplateBreak, TemplateLineSeg, TemplatePageFlowCompactReport, TemplateSection};
use crate::text::{seq_starts_with, str_starts_with, trim_start_seq, trim_start_str, string_of};
use vstd::prelude::*;

verus! {

broadcast use {
    vstd::seq::axiom_seq_index_decreases,
    vstd::seq::axiom_seq_subrange_decreases,
    vstd::std_specs::vec::axiom_vec_decreases_to_view,
};

/// The kinds of page-flow artifacts, removed one kind after another.
#[derive(Debug, Clone, Copy, PartialEq, Eq, Structural)]
pub enum CompactArtifactCategory {
    EmptyParagraph,
    DelayedSibling,
    FloatingObject,
    InlinePicture,
}

/// What the pass has seen of the blocks before the current one.
pub struct FlowView {
    pub text: Option<Seq<char>>,
    pub vpos: Option<i32>,
    pub tables: nat,
    pub pictures: nat,
}

/// The flow state while walking one list of blocks: the last paragraph with
/// text, its last line's vertical position, and how many tables and inline
/// pictures came after it.
pub struct CompactFlowState {
    pub recent_paragraph_text: Option<String>,
    pub recent_paragraph_vpos: Option<i32>,
    pub intervening_tables: usize,
    pub intervening_inline_pictures: usize,
}

impl View for CompactFlowState {
    type V = FlowView;

    open spec fn view(&self) -> FlowView {
        FlowView {
            text: match self.recent_paragraph_text {
                Some(t) => Some(t@),
                None => None,
            },
            vpos: self.recent_paragraph_vpos,
            tables: self.intervening_tables as nat,
            pictures: self.intervening_inline_pictures as nat,
        }
    }
}

pub open spec fn fresh_flow() -> FlowView {
    FlowView { text: None, vpos: None, tables: 0, pictures: 0 }
}

/// The vertical position of the last line segment, if there is one.
pub open spec fn last_vpos(segs: Seq<TemplateLineSeg>) -> Option<i32> {
    if segs.len() == 0 {
        None
    } else {
        Some(segs.last().vertical_pos)
    }
}

/// The flow state after a block.
pub open spec fn note_block_spec(st: FlowView, b: TemplateBlock) -> FlowView {
    match b {
        TemplateBlock::Paragraph { text, line_segments, .. } => if text@.len() > 0 {
            FlowView { text: Some(text@), vpos: last_vpos(line_segments@), tables: 0, pictures: 0 }
        } else {
            fresh_flow()
        },
        TemplateBlock::Table { .. } => if st.text is Some {
            FlowView { tables: st.tables + 1, ..st }
        } else {
            fresh_flow()
        },
        TemplateBlock::Picture { treat_as_char, .. } => if treat_as_char && st.text is Some {
            FlowView { pictures: st.pictures + 1, ..st }
        } else {
            fresh_flow()
        },
        TemplateBlock::ObjectPlaceholder { treat_as_char, .. } => if treat_as_char
            && st.text is Some {
            FlowView { pictures: st.pictures + 1, ..st }
        } else {
            fresh_flow()
        },
        TemplateBlock::Equation { .. } => fresh_flow(),
    }
}

pub open spec fn is_page(b: Option<TemplateBreak>) -> bool {
    b == Some(TemplateBreak::Page)
}

/// A vertical position near the foot of a page.
pub open spec fn bottom_anchor_vpos(vpos: i32) -> bool {
    vpos >= 50_000
}

/// The current paragraph is item "(2)" of a list whose item "(1)" stood near
/// the top of the page, with a table and an inline picture in between.
pub open spec fn delayed_sibling_spec(st: FlowView, current: Seq<char>) -> bool {
    &&& st.text is Some
    &&& seq_starts_with(trim_start_seq(st.text->0), seq!['(', '1', ')'])
    &&& seq_starts_with(trim_start_seq(current), seq!['(', '2', ')'])
    &&& st.vpos is Some
    &&& 0 <= st.vpos->0 <= 20_000
    &&& st.tables >= 1
    &&& st.pictures >= 1
}

/// Whether the page break before `b` is an artifact of kind `cat`.
pub open spec fn is_candidate(b: TemplateBlock, st: FlowView, cat: CompactArtifactCategory) -> bool {
    match b {
        TemplateBlock::Paragraph { text, break_before, .. } => is_page(break_before) && ((cat
            == CompactArtifactCategory::EmptyParagraph && text@.len() == 0) || (cat
            == CompactArtifactCategory::DelayedSibling && delayed_sibling_spec(st, text@))),
        TemplateBlock::Picture { treat_as_char, break_before, .. } => is_page(break_before) && ((
        cat == CompactArtifactCategory::InlinePicture && treat_as_char && st.vpos is Some
            && bottom_anchor_vpos(st.vpos->0)) || (cat == CompactArtifactCategory::FloatingObject
            && !treat_as_char)),
        TemplateBlock::ObjectPlaceholder { treat_as_char, break_before, .. } => is_page(
            break_before,
        ) && cat == CompactArtifactCategory::FloatingObject && !treat_as_char,
        _ => false,
    }
}

/// `b` without its break.
pub open spec fn without_break(b: TemplateBlock) -> TemplateBlock {
    match b {
        TemplateBlock::Paragraph { text, break_before, style, char_format, char_shape_runs, para_format, line_segments } => TemplateBlock::Paragraph { text, break_before: None, style, char_format, char_shape_runs, para_format, line_segments },
        TemplateBlock::Picture { break_before, host_group, line_segments, image_base64, external_path, extension, width, height, natural_width_px, natural_height_px, description, transparency, brightness, contrast, effect, effects, layout, object_layout, treat_as_char, horz_offset, vert_offset, caption } => TemplateBlock::Picture { break_before: None, host_group, line_segments, image_base64, external_path, extension, width, height, natural_width_px, natural_height_px, description, transparency, brightness, contrast, effect, effects, layout, object_layout, treat_as_char, horz_offset, vert_offset, caption },
        TemplateBlock::ObjectPlaceholder { object_kind, break_before, host_group, shape_kind, description, placeholder_text, width, height, treat_as_char, horz_offset, vert_offset, caption, shape_component_id, geometry, drawing_style, layout, children, raw_hwp_chart_data_base64, raw_hwp_ole_tag_base64, ole_bin_data_base64, ole_extension, ole_object_type, ole_draw_aspect, ole_eq_base_line, ole_has_moniker } => TemplateBlock::ObjectPlaceholder { object_kind, break_before: None, host_group, shape_kind, description, placeholder_text, width, height, treat_as_char, horz_offset, vert_offset, caption, shape_component_id, geometry, drawing_style, layout, children, raw_hwp_chart_data_base64, raw_hwp_ole_tag_base64, ole_bin_data_base64, ole_extension, ole_object_type, ole_draw_aspect, ole_eq_base_line, ole_has_moniker },
        _ => b,
    }
}

// ---------------------------------------------------------------------------
// How much of the removal budget a pass uses
// ---------------------------------------------------------------------------

/// The budget left after a pass over one block (and what is inside it).
pub open spec fn pass_block(b: TemplateBlock, st: FlowView, cat: CompactArtifactCategory, budget: nat) -> nat
    decreases b, 0nat,
{
    if budget == 0 {
        0
    } else if is_candidate(b, st, cat) {
        (budget - 1) as nat
    } else {
        match b {
            TemplateBlock::Table { cell_blocks, .. } => pass_cell_rows(cell_blocks@, cat, budget),
            TemplateBlock::ObjectPlaceholder { children, .. } => pass_blocks(children@, fresh_flow(), cat, budget),
            _ => budget,
        }
    }
}

/// The flow state after a list of blocks.
pub open spec fn flow_after(s: Seq<TemplateBlock>, st: FlowView) -> FlowView
    decreases s.len(),
{
    if s.len() == 0 {
        st
    } else {
        note_block_spec(flow_after(s.drop_last(), st), s.last())
    }
}

/// The budget left after a pass over a list of blocks.
pub open spec fn pass_blocks(s: Seq<TemplateBlock>, st: FlowView, cat: CompactArtifactCategory, budget: nat) -> nat
    decreases s, 1nat,
{
    if s.len() == 0 {
        budget
    } else {
        pass_block(s.last(), flow_after(s.drop_last(), st), cat, pass_blocks(s.drop_last(), st, cat, budget))
    }
}

/// The budget left after a pass over the blocks of a table cell, each taken
/// on its own.
pub open spec fn pass_each(s: Seq<TemplateBlock>, cat: CompactArtifactCategory, budget: nat) -> nat
    decreases s, 1nat,
{
    if s.len() == 0 {
        budget
    } else {
        pass_block(s.last(), fresh_flow(), cat, pass_each(s.drop_last(), cat, budget))
    }
}

/// The budget left after a pass over the cells of a table row.
pub open spec fn pass_cells(s: Seq<Vec<TemplateBlock>>, cat: CompactArtifactCategory, budget: nat) -> nat
    decreases s, 1nat,
{
    if s.len() == 0 {
        budget
    } else {
        pass_each(s.last()@, cat, pass_cells(s.drop_last(), cat, budget))
    }
}

/// The budget left after a pass over the cells of a table.
pub open spec fn pass_cell_rows(s: Seq<Vec<Vec<TemplateBlock>>>, cat: CompactArtifactCategory, budget: nat) -> nat
    decreases s, 1nat,
{
    if s.len() == 0 {
        budget
    } else {
        pass_cells(s.last()@, cat, pass_cell_rows(s.drop_last(), cat, budget))
    }
}

// ---------------------------------------------------------------------------
// What a pass makes of the blocks
// ---------------------------------------------------------------------------

/// `new` is what a pass makes of block `old`: nothing changes once the
/// budget is spent; an artifact loses its break; a table's cells and an
/// object's children are passed over in turn; every other block is kept.
pub open spec fn block_after(old: TemplateBlock, new: TemplateBlock, st: FlowView, cat: CompactArtifactCategory, budget: nat) -> bool
    decreases old, 0nat,
{
    if budget == 0 {
        new == old
    } else if is_candidate(old, st, cat) {
        new == without_break(old)
    } else {
        match old {
            TemplateBlock::Table { rows: o_rows, break_before: o_break_before, rhwp_saved_gap_before: o_rhwp_saved_gap_before, host_group: o_host_group, style: o_style, host_para_shape_id: o_host_para_shape_id, para_format: o_para_format, line_segments: o_line_segments, caption: o_caption, column_widths: o_column_widths, row_heights: o_row_heights, table_layout: o_table_layout, object_layout: o_object_layout, border_fill: o_border_fill, table_zones: o_table_zones, cell_layouts: o_cell_layouts, cell_formats: o_cell_formats, cell_blocks: o_cell_blocks } => match new {
                TemplateBlock::Table { rows: n_rows, break_before: n_break_before, rhwp_saved_gap_before: n_rhwp_saved_gap_before, host_group: n_host_group, style: n_style, host_para_shape_id: n_host_para_shape_id, para_format: n_para_format, line_segments: n_line_segments, caption: n_caption, column_widths: n_column_widths, row_heights: n_row_heights, table_layout: n_table_layout, object_layout: n_object_layout, border_fill: n_border_fill, table_zones: n_table_zones, cell_layouts: n_cell_layouts, cell_formats: n_cell_formats, cell_blocks: n_cell_blocks } => o_rows == n_rows && o_break_before == n_break_before && o_rhwp_saved_gap_before == n_rhwp_saved_gap_before && o_host_group == n_host_group && o_style == n_style && o_host_para_shape_id == n_host_para_shape_id && o_para_format == n_para_format && o_line_segments == n_line_segments && o_caption == n_caption && o_column_widths == n_column_widths && o_row_heights == n_row_heights && o_table_layout == n_table_layout && o_object_layout == n_object_layout && o_border_fill == n_border_fill && o_table_zones == n_table_zones && o_cell_layouts == n_cell_layouts && o_cell_formats == n_cell_formats && cell_rows_after(o_cell_blocks@, n_cell_blocks@, cat, budget),
                _ => false,
            },
            TemplateBlock::ObjectPlaceholder { object_kind: o_object_kind, break_before: o_break_before, host_group: o_host_group, shape_kind: o_shape_kind, description: o_description, placeholder_text: o_placeholder_text, width: o_width, height: o_height, treat_as_char: o_treat_as_char, horz_offset: o_horz_offset, vert_offset: o_vert_offset, caption: o_caption, shape_component_id: o_shape_component_id, geometry: o_geometry, drawing_style: o_drawing_style, layout: o_layout, children: o_children, raw_hwp_chart_data_base64: o_raw_hwp_chart_data_base64, raw_hwp_ole_tag_base64: o_raw_hwp_ole_tag_base64, ole_bin_data_base64: o_ole_bin_data_base64, ole_extension: o_ole_extension, ole_object_type: o_ole_object_type, ole_draw_aspect: o_ole_draw_aspect, ole_eq_base_line: o_ole_eq_base_line, ole_has_moniker: o_ole_has_moniker } => match new {
                TemplateBlock::ObjectPlaceholder { object_kind: n_object_kind, break_before: n_break_before, host_group: n_host_group, shape_kind: n_shape_kind, description: n_description, placeholder_text: n_placeholder_text, width: n_width, height: n_height, treat_as_char: n_treat_as_char, horz_offset: n_horz_offset, vert_offset: n_vert_offset, caption: n_caption, shape_component_id: n_shape_component_id, geometry: n_geometry, drawing_style: n_drawing_style, layout: n_layout, children: n_children, raw_hwp_chart_data_base64: n_raw_hwp_chart_data_base64, raw_hwp_ole_tag_base64: n_raw_hwp_ole_tag_base64, ole_bin_data_base64: n_ole_bin_data_base64, ole_extension: n_ole_extension, ole_object_type: n_ole_object_type, ole_draw_aspect: n_ole_draw_aspect, ole_eq_base_line: n_ole_eq_base_line, ole_has_moniker: n_ole_has_moniker } => o_object_kind == n_object_kind && o_break_before == n_break_before && o_host_group == n_host_group && o_shape_kind == n_shape_kind && o_description == n_description && o_placeholder_text == n_placeholder_text && o_width == n_width && o_height == n_height && o_treat_as_char == n_treat_as_char && o_horz_offset == n_horz_offset && o_vert_offset == n_vert_offset && o_caption == n_caption && o_shape_component_id == n_shape_component_id && o_geometry == n_geometry && o_drawing_style == n_drawing_style && o_layout == n_layout && o_raw_hwp_chart_data_base64 == n_raw_hwp_chart_data_base64 && o_raw_hwp_ole_tag_base64 == n_raw_hwp_ole_tag_base64 && o_ole_bin_data_base64 == n_ole_bin_data_base64 && o_ole_extension == n_ole_extension && o_ole_object_type == n_ole_object_type && o_ole_draw_aspect == n_ole_draw_aspect && o_ole_eq_base_line == n_ole_eq_base_line && o_ole_has_moniker == n_ole_has_moniker && blocks_after(o_children@, n_children@, fresh_flow(), cat, budget),
                _ => false,
            },
            _ => new == old,
        }
    }
}

/// `new` is what a pass makes of the list `old`, walked from state `st`.
pub open spec fn blocks_after(old: Seq<TemplateBlock>, new: Seq<TemplateBlock>, st: FlowView, cat: CompactArtifactCategory, budget: nat) -> bool
    decreases old, 1nat,
{
    if old.len() == 0 {
        new.len() == 0
    } else {
        &&& new.len() == old.len()
        &&& blocks_after(old.drop_last(), new.drop_last(), st, cat, budget)
        &&& block_after(old.last(), new.last(), flow_after(old.drop_last(), st), cat, pass_blocks(old.drop_last(), st, cat, budget))
    }
}

/// `new` is what a pass makes of the blocks of a table cell.
pub open spec fn each_after(old: Seq<TemplateBlock>, new: Seq<TemplateBlock>, cat: CompactArtifactCategory, budget: nat) -> bool
    decreases old, 1nat,
{
    if old.len() == 0 {
        new.len() == 0
    } else {
        &&& new.len() == old.len()
        &&& each_after(old.drop_last(), new.drop_last(), cat, budget)
        &&& block_after(old.last(), new.last(), fresh_flow(), cat, pass_each(old.drop_last(), cat, budget))
    }
}

/// `new` is what a pass makes of the cells of a table row.
pub open spec fn cells_after(old: Seq<Vec<TemplateBlock>>, new: Seq<Vec<TemplateBlock>>, cat: CompactArtifactCategory, budget: nat) -> bool
    decreases old, 1nat,
{
    if old.len() == 0 {
        new.len() == 0
    } else {
        &&& new.len() == old.len()
        &&& cells_after(old.drop_last(), new.drop_last(), cat, budget)
        &&& each_after(old.last()@, new.last()@, cat, pass_cells(old.drop_last(), cat, budget))
    }
}

/// `new` is what a pass makes of the cells of a table.
pub open spec fn cell_rows_after(old: Seq<Vec<Vec<TemplateBlock>>>, new: Seq<Vec<Vec<TemplateBlock>>>, cat: CompactArtifactCategory, budget: nat) -> bool
    decreases old, 1nat,
{
    if old.len() == 0 {
        new.len() == 0
    } else {
        &&& new.len() == old.len()
        &&& cell_rows_after(old.drop_last(), new.drop_last(), cat, budget)
        &&& cells_after(old.last()@, new.last()@, cat, pass_cell_rows(old.drop_last(), cat, budget))
    }
}

// ---------------------------------------------------------------------------
// The report
// ---------------------------------------------------------------------------

/// The report's counter for one kind of artifact.
pub open spec fn report_counter(r: TemplatePageFlowCompactReport, cat: CompactArtifactCategory) -> int {
    match cat {
        CompactArtifactCategory::EmptyParagraph => r.empty_paragraph_page_breaks_removed as int,
        CompactArtifactCategory::DelayedSibling => r.sibling_paragraph_page_breaks_removed as int,
        CompactArtifactCategory::FloatingObject => r.floating_object_page_breaks_removed as int,
        CompactArtifactCategory::InlinePicture => r.inline_picture_page_breaks_removed as int,
    }
}

/// The sum of the report's four counters.
pub open spec fn report_total(r: TemplatePageFlowCompactReport) -> int {
    report_counter(r, CompactArtifactCategory::EmptyParagraph) + report_counter(
        r,
        CompactArtifactCategory::DelayedSibling,
    ) + report_counter(r, CompactArtifactCategory::FloatingObject) + report_counter(
        r,
        CompactArtifactCategory::InlinePicture,
    )
}

/// `after` counts `k` more artifacts of kind `cat` than `before`, and is the
/// same otherwise.
pub open spec fn report_bumped(
    before: TemplatePageFlowCompactReport,
    after: TemplatePageFlowCompactReport,
    cat: CompactArtifactCategory,
    k: int,
) -> bool {
    &&& report_counter(after, cat) == report_counter(before, cat) + k
    &&& forall|c: CompactArtifactCategory|
        c != cat ==> #[trigger] report_counter(after, c) == report_counter(before, c)
    &&& after.total_removed == before.total_removed
}

/// Records one removal of kind `cat`.
fn count_removal(
    report: &mut TemplatePageFlowCompactReport,
    remaining: &mut usize,
    cat: CompactArtifactCategory,
)
    requires
        *old(remaining) > 0,
        report_total(*old(report)) + *old(remaining) <= usize::MAX,
    ensures
        *final(remaining) == *old(remaining) - 1,
        report_bumped(*old(report), *final(report), cat, 1),
{
    *remaining = *remaining - 1;
    match cat {
        CompactArtifactCategory::EmptyParagraph => {
            report.empty_paragraph_page_breaks_removed = report.empty_paragraph_page_breaks_removed
                + 1;
        },
        CompactArtifactCategory::DelayedSibling => {
            report.sibling_paragraph_page_breaks_removed =
            report.sibling_paragraph_page_breaks_removed + 1;
        },
        CompactArtifactCategory::FloatingObject => {
            report.floating_object_page_breaks_removed = report.floating_object_page_breaks_removed
                + 1;
        },
        CompactArtifactCategory::InlinePicture => {
            report.inline_picture_page_breaks_removed = report.inline_picture_page_breaks_removed
                + 1;
        },
    }
}

// ---------------------------------------------------------------------------
// The flow state
// ---------------------------------------------------------------------------

impl CompactFlowState {
    /// The state at the start of a list of blocks.
    pub fn new() -> (r: Self)
        ensures
            r@ == fresh_flow(),
    {
        CompactFlowState {
            recent_paragraph_text: None,
            recent_paragraph_vpos: None,
            intervening_tables: 0,
            intervening_inline_pictures: 0,
        }
    }

    /// Forgets what was seen.
    pub fn clear(&mut self)
        ensures
            final(self)@ == fresh_flow(),
    {
        self.recent_paragraph_text = None;
        self.recent_paragraph_vpos = None;
        self.intervening_tables = 0;
        self.intervening_inline_pictures = 0;
    }

    /// Takes note of one more block.
    pub fn note_block(&mut self, block: &TemplateBlock)
        requires
            old(self).intervening_tables < usize::MAX,
            old(self).intervening_inline_pictures < usize::MAX,
        ensures
            final(self)@ == note_block_spec(old(self)@, *block),
    {
        match block {
            TemplateBlock::Paragraph { text, line_segments, .. } => {
                if !text.as_str().is_empty() {
                    self.recent_paragraph_text = Some(string_of(text.as_str()));
                    self.recent_paragraph_vpos = if line_segments.len() > 0 {
                        Some(line_segments[line_segments.len() - 1].vertical_pos)
                    } else {
                        None
                    };
                    self.intervening_tables = 0;
                    self.intervening_inline_pictures = 0;
                } else {
                    self.clear();
                }
            },
            TemplateBlock::Table { .. } => {
                if self.recent_paragraph_text.is_some() {
                    self.intervening_tables = self.intervening_tables + 1;
                } else {
                    self.clear();
                }
            },
            TemplateBlock::Picture { treat_as_char, .. } => {
                if *treat_as_char && self.recent_paragraph_text.is_some() {
                    self.intervening_inline_pictures = self.intervening_inline_pictures + 1;
                } else {
                    self.clear();
                }
            },
            TemplateBlock::ObjectPlaceholder { treat_as_char, .. } => {
                if *treat_as_char && self.recent_paragraph_text.is_some() {
                    self.intervening_inline_pictures = self.intervening_inline_pictures + 1;
                } else {
                    self.clear();
                }
            },
            TemplateBlock::Equation { .. } => {
                self.clear();
            },
        }
    }
}

/// Whether a break is a page break.
fn is_page_break(b: &Option<TemplateBreak>) -> (r: bool)
    ensures
        r == is_page(*b),
{
    match b {
        Some(TemplateBreak::Page) => true,
        _ => false,
    }
}

/// A vertical position near the foot of a page.
pub fn is_bottom_anchor_vpos(vpos: i32) -> (r: bool)
    ensures
        r == bottom_anchor_vpos(vpos),
{
    vpos >= 50_000
}

/// Whether a page break before `current_text` only separates item "(2)"
/// from an item "(1)" near the top of the page, with a table and an inline
/// picture in between.
pub fn delayed_sibling_page_break_artifact(state: &CompactFlowState, current_text: &str) -> (r:
    bool)
    ensures
        r == delayed_sibling_spec(state@, current_text@),
{
    proof {
        reveal_strlit("(1)");
        reveal_strlit("(2)");
        assert("(1)"@ =~= seq!['(', '1', ')']);
        assert("(2)"@ =~= seq!['(', '2', ')']);
    }
    let first = match &state.recent_paragraph_text {
        Some(text) => str_starts_with(trim_start_str(text.as_str()), "(1)"),
        None => false,
    };
    let near_top = match state.recent_paragraph_vpos {
        Some(vpos) => 0 <= vpos && vpos <= 20_000,
        None => false,
    };
    first && str_starts_with(trim_start_str(current_text), "(2)") && near_top
        && state.intervening_tables >= 1 && state.intervening_inline_pictures >= 1
}

/// A pass leaves the flow state as the original block would.
proof fn lemma_note_after_pass(
    old_block: TemplateBlock,
    new_block: TemplateBlock,
    st: FlowView,
    st2: FlowView,
    cat: CompactArtifactCategory,
    budget: nat,
)
    requires
        block_after(old_block, new_block, st, cat, budget),
    ensures
        note_block_spec(st2, new_block) == note_block_spec(st2, old_block),
{
}

// ---------------------------------------------------------------------------
// The passes
// ---------------------------------------------------------------------------

/// One pass over one block: clears the break of an artifact of kind `cat`,
/// or passes over a table's cells or an object's children.
fn compact_block(
    block: TemplateBlock,
    state: &CompactFlowState,
    report: &mut TemplatePageFlowCompactReport,
    remaining: &mut usize,
    cat: CompactArtifactCategory,
) -> (out: TemplateBlock)
    requires
        report_total(*old(report)) + *old(remaining) <= usize::MAX,
    ensures
        block_after(block, out, state@, cat, *old(remaining) as nat),
        *final(remaining) == pass_block(block, state@, cat, *old(remaining) as nat),
        report_bumped(*old(report), *final(report), cat, *old(remaining) - *final(remaining)),
    decreases block, 0nat,
{
    if *remaining == 0 {
        return block;
    }
    let ghost st = state@;
    let ghost original = block;
    match block {
        TemplateBlock::Paragraph { text, break_before, style, char_format, char_shape_runs, para_format, line_segments } => {
            let candidate = is_page_break(&break_before) && ((cat
                == CompactArtifactCategory::EmptyParagraph && text.as_str().is_empty()) || (cat
                == CompactArtifactCategory::DelayedSibling && delayed_sibling_page_break_artifact(
                state,
                text.as_str(),
            )));
            if candidate {
                count_removal(report, remaining, cat);
                TemplateBlock::Paragraph { text, break_before: None, style, char_format, char_shape_runs, para_format, line_segments }
            } else {
                TemplateBlock::Paragraph { text, break_before, style, char_format, char_shape_runs, para_format, line_segments }
            }
        },
        TemplateBlock::Picture { break_before, host_group, line_segments, image_base64, external_path, extension, width, height, natural_width_px, natural_height_px, description, transparency, brightness, contrast, effect, effects, layout, object_layout, treat_as_char, horz_offset, vert_offset, caption } => {
            let bottom = match state.recent_paragraph_vpos {
                Some(vpos) => is_bottom_anchor_vpos(vpos),
                None => false,
            };
            let candidate = is_page_break(&break_before) && ((cat
                == CompactArtifactCategory::InlinePicture && treat_as_char && bottom) || (cat
                == CompactArtifactCategory::FloatingObject && !treat_as_char));
            if candidate {
                count_removal(report, remaining, cat);
                TemplateBlock::Picture { break_before: None, host_group, line_segments, image_base64, external_path, extension, width, height, natural_width_px, natural_height_px, description, transparency, brightness, contrast, effect, effects, layout, object_layout, treat_as_char, horz_offset, vert_offset, caption }
            } else {
                TemplateBlock::Picture { break_before, host_group, line_segments, image_base64, external_path, extension, width, height, natural_width_px, natural_height_px, description, transparency, brightness, contrast, effect, effects, layout, object_layout, treat_as_char, horz_offset, vert_offset, caption }
            }
        },
        TemplateBlock::ObjectPlaceholder { object_kind, break_before, host_group, shape_kind, description, placeholder_text, width, height, treat_as_char, horz_offset, vert_offset, caption, shape_component_id, geometry, drawing_style, layout, children, raw_hwp_chart_data_base64, raw_hwp_ole_tag_base64, ole_bin_data_base64, ole_extension, ole_object_type, ole_draw_aspect, ole_eq_base_line, ole_has_moniker } => {
            let candidate = is_page_break(&break_before) && cat
                == CompactArtifactCategory::FloatingObject && !treat_as_char;
            if candidate {
                count_removal(report, remaining, cat);
                TemplateBlock::ObjectPlaceholder { object_kind, break_before: None, host_group, shape_kind, description, placeholder_text, width, height, treat_as_char, horz_offset, vert_offset, caption, shape_component_id, geometry, drawing_style, layout, children, raw_hwp_chart_data_base64, raw_hwp_ole_tag_base64, ole_bin_data_base64, ole_extension, ole_object_type, ole_draw_aspect, ole_eq_base_line, ole_has_moniker }
            } else {
                let children = compact_page_flow_artifacts_in_blocks(children, report, remaining, cat);
                TemplateBlock::ObjectPlaceholder { object_kind, break_before, host_group, shape_kind, description, placeholder_text, width, height, treat_as_char, horz_offset, vert_offset, caption, shape_component_id, geometry, drawing_style, layout, children, raw_hwp_chart_data_base64, raw_hwp_ole_tag_base64, ole_bin_data_base64, ole_extension, ole_object_type, ole_draw_aspect, ole_eq_base_line, ole_has_moniker }
            }
        },
        TemplateBlock::Table { rows, break_before, rhwp_saved_gap_before, host_group, style, host_para_shape_id, para_format, line_segments, caption, column_widths, row_heights, table_layout, object_layout, border_fill, table_zones, cell_layouts, cell_formats, cell_blocks } => {
            let cell_blocks = compact_cell_rows(cell_blocks, report, remaining, cat);
            TemplateBlock::Table { rows, break_before, rhwp_saved_gap_before, host_group, style, host_para_shape_id, para_format, line_segments, caption, column_widths, row_heights, table_layout, object_layout, border_fill, table_zones, cell_layouts, cell_formats, cell_blocks }
        },
        other => other,
    }
}

/// One pass over a list of blocks, walked with its own flow state.
fn compact_page_flow_artifacts_in_blocks(
    blocks: Vec<TemplateBlock>,
    report: &mut TemplatePageFlowCompactReport,
    remaining: &mut usize,
    cat: CompactArtifactCategory,
) -> (out: Vec<TemplateBlock>)
    requires
        report_total(*old(report)) + *old(remaining) <= usize::MAX,
    ensures
        blocks_after(blocks@, out@, fresh_flow(), cat, *old(remaining) as nat),
        *final(remaining) == pass_blocks(blocks@, fresh_flow(), cat, *old(remaining) as nat),
        report_bumped(*old(report), *final(report), cat, *old(remaining) - *final(remaining)),
    decreases blocks@, 1nat,
{
    let ghost orig = blocks@;
    let ghost budget: nat = *remaining as nat;
    let ghost report0 = *report;
    let n = blocks.len();
    let mut state = CompactFlowState::new();
    let mut out: Vec<TemplateBlock> = Vec::new();
    assert(orig.subrange(0, 0) =~= Seq::<TemplateBlock>::empty());
    for block in it: blocks.into_iter()
        invariant
            it.seq() == orig,
            orig.len() == n,
            orig == blocks@,
            out@.len() == it.index(),
            blocks_after(orig.subrange(0, it.index() as int), out@, fresh_flow(), cat, budget),
            state@ == flow_after(orig.subrange(0, it.index() as int), fresh_flow()),
            state.intervening_tables <= it.index(),
            state.intervening_inline_pictures <= it.index(),
            *remaining == pass_blocks(orig.subrange(0, it.index() as int), fresh_flow(), cat, budget),
            report_bumped(report0, *report, cat, budget - *remaining),
            report_total(*report) + *remaining == report_total(report0) + budget,
            report_total(report0) + budget <= usize::MAX,
    {
        let ghost i = it.index() as int;
        let ghost pre = orig.subrange(0, i);
        let ghost next = orig.subrange(0, i + 1);
        assert(next.drop_last() =~= pre);
        assert(block == orig[i]);
        assert(decreases_to!(orig => orig[i]));
        let ghost report_before = *report;
        let ghost remaining_before = *remaining;
        let new_block = compact_block(block, &state, report, remaining, cat);
        proof {
            lemma_note_after_pass(orig[i], new_block, state@, state@, cat, remaining_before as nat);
        }
        state.note_block(&new_block);
        let ghost out_before = out@;
        out.push(new_block);
        proof {
            assert(out@.drop_last() =~= out_before);
        }
    }
    assert(orig.subrange(0, orig.len() as int) =~= orig);
    out
}

/// One pass over the blocks of a table cell, each walked on its own.
fn compact_cell_blocks(
    items: Vec<TemplateBlock>,
    report: &mut TemplatePageFlowCompactReport,
    remaining: &mut usize,
    cat: CompactArtifactCategory,
) -> (out: Vec<TemplateBlock>)
    requires
        report_total(*old(report)) + *old(remaining) <= usize::MAX,
    ensures
        each_after(items@, out@, cat, *old(remaining) as nat),
        *final(remaining) == pass_each(items@, cat, *old(remaining) as nat),
        report_bumped(*old(report), *final(report), cat, *old(remaining) - *final(remaining)),
    decreases items@, 1nat,
{
    let ghost orig = items@;
    let ghost budget: nat = *remaining as nat;
    let ghost report0 = *report;
    let mut out: Vec<TemplateBlock> = Vec::new();
    assert(orig.subrange(0, 0) =~= Seq::<TemplateBlock>::empty());
    for item in it: items.into_iter()
        invariant
            it.seq() == orig,
            orig == items@,
            out@.len() == it.index(),
            each_after(orig.subrange(0, it.index() as int), out@, cat, budget),
            *remaining == pass_each(orig.subrange(0, it.index() as int), cat, budget),
            report_bumped(report0, *report, cat, budget - *remaining),
            report_total(*report) + *remaining == report_total(report0) + budget,
            report_total(report0) + budget <= usize::MAX,
    {
        let ghost i = it.index() as int;
        let ghost pre = orig.subrange(0, i);
        let ghost next = orig.subrange(0, i + 1);
        assert(next.drop_last() =~= pre);
        assert(item == orig[i]);
        assert(decreases_to!(orig => orig[i]));
        let new_item = compact_block(item, &CompactFlowState::new(), report, remaining, cat);
        let ghost out_before = out@;
        out.push(new_item);
        proof {
            assert(out@.drop_last() =~= out_before);
        }
    }
    assert(orig.subrange(0, orig.len() as int) =~= orig);
    out
}

/// One pass over the cells of a table row.
fn compact_cells(
    items: Vec<Vec<TemplateBlock>>,
    report: &mut TemplatePageFlowCompactReport,
    remaining: &mut usize,
    cat: CompactArtifactCategory,
) -> (out: Vec<Vec<TemplateBlock>>)
    requires
        report_total(*old(report)) + *old(remaining) <= usize::MAX,
    ensures
        cells_after(items@, out@, cat, *old(remaining) as nat),
        *final(remaining) == pass_cells(items@, cat, *old(remaining) as nat),
        report_bumped(*old(report), *final(report), cat, *old(remaining) - *final(remaining)),
    decreases items@, 1nat,
{
    let ghost orig = items@;
    let ghost budget: nat = *remaining as nat;
    let ghost report0 = *report;
    let mut out: Vec<Vec<TemplateBlock>> = Vec::new();
    assert(orig.subrange(0, 0) =~= Seq::<Vec<TemplateBlock>>::empty());
    for item in it: items.into_iter()
        invariant
            it.seq() == orig,
            orig == items@,
            out@.len() == it.index(),
            cells_after(orig.subrange(0, it.index() as int), out@, cat, budget),
            *remaining == pass_cells(orig.subrange(0, it.index() as int), cat, budget),
            report_bumped(report0, *report, cat, budget - *remaining),
            report_total(*report) + *remaining == report_total(report0) + budget,
            report_total(report0) + budget <= usize::MAX,
    {
        let ghost i = it.index() as int;
        let ghost pre = orig.subrange(0, i);
        let ghost next = orig.subrange(0, i + 1);
        assert(next.drop_last() =~= pre);
        assert(item == orig[i]);
        assert(decreases_to!(orig => orig[i]@));
        let new_item = compact_cell_blocks(item, report, remaining, cat);
        let ghost out_before = out@;
        out.push(new_item);
        proof {
            assert(out@.drop_last() =~= out_before);
        }
    }
    assert(orig.subrange(0, orig.len() as int) =~= orig);
    out
}

/// One pass over the cells of a table.
fn compact_cell_rows(
    items: Vec<Vec<Vec<TemplateBlock>>>,
    report: &mut TemplatePageFlowCompactReport,
    remaining: &mut usize,
    cat: CompactArtifactCategory,
) -> (out: Vec<Vec<Vec<TemplateBlock>>>)
    requires
        report_total(*old(report)) + *old(remaining) <= usize::MAX,
    ensures
        cell_rows_after(items@, out@, cat, *old(remaining) as nat),
        *final(remaining) == pass_cell_rows(items@, cat, *old(remaining) as nat),
        report_bumped(*old(report), *final(report), cat, *old(remaining) - *final(remaining)),
    decreases items@, 1nat,
{
    let ghost orig = items@;
    let ghost budget: nat = *remaining as nat;
    let ghost report0 = *report;
    let mut out: Vec<Vec<Vec<TemplateBlock>>> = Vec::new();
    assert(orig.subrange(0, 0) =~= Seq::<Vec<Vec<TemplateBlock>>>::empty());
    for item in it: items.into_iter()
        invariant
            it.seq() == orig,
            orig == items@,
            out@.len() == it.index(),
            cell_rows_after(orig.subrange(0, it.index() as int), out@, cat, budget),
            *remaining == pass_cell_rows(orig.subrange(0, it.index() as int), cat, budget),
            report_bumped(report0, *report, cat, budget - *remaining),
            report_total(*report) + *remaining == report_total(report0) + budget,
            report_total(report0) + budget <= usize::MAX,
    {
        let ghost i = it.index() as int;
        let ghost pre = orig.subrange(0, i);
        let ghost next = orig.subrange(0, i + 1);
        assert(next.drop_last() =~= pre);
        assert(item == orig[i]);
        assert(decreases_to!(orig => orig[i]@));
        let new_item = compact_cells(item, report, remaining, cat);
        let ghost out_before = out@;
        out.push(new_item);
        proof {
            assert(out@.drop_last() =~= out_before);
        }
    }
    assert(orig.subrange(0, orig.len() as int) =~= orig);
    out
}

// ---------------------------------------------------------------------------
// Sections and the whole template
// ---------------------------------------------------------------------------

/// The budget left after a pass over the blocks of every section.
pub open spec fn pass_sections(s: Seq<TemplateSection>, cat: CompactArtifactCategory, budget: nat) -> nat
    decreases s.len(),
{
    if s.len() == 0 {
        budget
    } else {
        pass_blocks(s.last().blocks@, fresh_flow(), cat, pass_sections(s.drop_last(), cat, budget))
    }
}

/// `new` is what a pass makes of section `old`: its blocks change, the rest
/// is kept.
pub open spec fn section_after(old: TemplateSection, new: TemplateSection, cat: CompactArtifactCategory, budget: nat) -> bool {
    &&& new.page_def == old.page_def
    &&& new.section_def == old.section_def
    &&& new.page_border_fill == old.page_border_fill
    &&& new.footnote_shape == old.footnote_shape
    &&& new.endnote_shape == old.endnote_shape
    &&& blocks_after(old.blocks@, new.blocks@, fresh_flow(), cat, budget)
}

/// `new` is what a pass makes of the sections `old`.
pub open spec fn sections_after(old: Seq<TemplateSection>, new: Seq<TemplateSection>, cat: CompactArtifactCategory, budget: nat) -> bool
    decreases old.len(),
{
    if old.len() == 0 {
        new.len() == 0
    } else {
        &&& new.len() == old.len()
        &&& sections_after(old.drop_last(), new.drop_last(), cat, budget)
        &&& section_after(old.last(), new.last(), cat, pass_sections(old.drop_last(), cat, budget))
    }
}

/// `after` is what one pass of kind `cat` makes of `before`: only the blocks
/// of its sections change.
pub open spec fn template_pass(before: DocumentTemplate, after: DocumentTemplate, cat: CompactArtifactCategory, budget: nat) -> bool {
    &&& sections_after(before.sections@, after.sections@, cat, budget)
    &&& after.version == before.version
    &&& after.source_page_count == before.source_page_count
    &&& after.font_faces == before.font_faces
    &&& after.char_shapes == before.char_shapes
    &&& after.para_shapes == before.para_shapes
    &&& after.styles == before.styles
    &&& after.headers == before.headers
    &&& after.footers == before.footers
    &&& after.master_pages == before.master_pages
}

/// The four passes, in order, with the templates between them, and the
/// report that counts what each removed.
pub open spec fn compaction_chain(
    before: DocumentTemplate,
    t1: DocumentTemplate,
    t2: DocumentTemplate,
    t3: DocumentTemplate,
    after: DocumentTemplate,
    max_removals: nat,
    report: TemplatePageFlowCompactReport,
) -> bool {
    let b1 = pass_sections(before.sections@, CompactArtifactCategory::EmptyParagraph, max_removals);
    let b2 = pass_sections(t1.sections@, CompactArtifactCategory::DelayedSibling, b1);
    let b3 = pass_sections(t2.sections@, CompactArtifactCategory::FloatingObject, b2);
    let b4 = pass_sections(t3.sections@, CompactArtifactCategory::InlinePicture, b3);
    &&& template_pass(before, t1, CompactArtifactCategory::EmptyParagraph, max_removals)
    &&& template_pass(t1, t2, CompactArtifactCategory::DelayedSibling, b1)
    &&& template_pass(t2, t3, CompactArtifactCategory::FloatingObject, b2)
    &&& template_pass(t3, after, CompactArtifactCategory::InlinePicture, b3)
    &&& report.empty_paragraph_page_breaks_removed == max_removals - b1
    &&& report.sibling_paragraph_page_breaks_removed == b1 - b2
    &&& report.floating_object_page_breaks_removed == b2 - b3
    &&& report.inline_picture_page_breaks_removed == b3 - b4
    &&& report.total_removed == max_removals - b4
}

/// `after` and `report` are what compaction with at most `max_removals`
/// removals makes of `before`.
pub open spec fn compaction_result(
    before: DocumentTemplate,
    after: DocumentTemplate,
    max_removals: nat,
    report: TemplatePageFlowCompactReport,
) -> bool {
    exists|t1: DocumentTemplate, t2: DocumentTemplate, t3: DocumentTemplate|
        #[trigger] compaction_chain(before, t1, t2, t3, after, max_removals, report)
}

/// One pass over the blocks of every section.
fn compact_sections(
    items: Vec<TemplateSection>,
    report: &mut TemplatePageFlowCompactReport,
    remaining: &mut usize,
    cat: CompactArtifactCategory,
) -> (out: Vec<TemplateSection>)
    requires
        report_total(*old(report)) + *old(remaining) <= usize::MAX,
    ensures
        sections_after(items@, out@, cat, *old(remaining) as nat),
        *final(remaining) == pass_sections(items@, cat, *old(remaining) as nat),
        report_bumped(*old(report), *final(report), cat, *old(remaining) - *final(remaining)),
{
    let ghost orig = items@;
    let ghost budget: nat = *remaining as nat;
    let ghost report0 = *report;
    let mut out: Vec<TemplateSection> = Vec::new();
    assert(orig.subrange(0, 0) =~= Seq::<TemplateSection>::empty());
    for item in it: items.into_iter()
        invariant
            it.seq() == orig,
            out@.len() == it.index(),
            sections_after(orig.subrange(0, it.index() as int), out@, cat, budget),
            *remaining == pass_sections(orig.subrange(0, it.index() as int), cat, budget),
            report_bumped(report0, *report, cat, budget - *remaining),
            report_total(*report) + *remaining == report_total(report0) + budget,
            report_total(report0) + budget <= usize::MAX,
    {
        let ghost i = it.index() as int;
        let ghost pre = orig.subrange(0, i);
        let ghost next = orig.subrange(0, i + 1);
        assert(next.drop_last() =~= pre);
        assert(item == orig[i]);
        let TemplateSection {
            page_def,
            section_def,
            page_border_fill,
            footnote_shape,
            endnote_shape,
            blocks,
        } = item;
        let blocks = compact_page_flow_artifacts_in_blocks(blocks, report, remaining, cat);
        let ghost out_before = out@;
        out.push(
            TemplateSection {
                page_def,
                section_def,
                page_border_fill,
                footnote_shape,
                endnote_shape,
                blocks,
            },
        );
        proof {
            assert(out@.drop_last() =~= out_before);
        }
    }
    assert(orig.subrange(0, orig.len() as int) =~= orig);
    out
}

/// One pass of kind `cat` over the template.
fn compact_template_pass(
    template: &mut DocumentTemplate,
    report: &mut TemplatePageFlowCompactReport,
    remaining: &mut usize,
    cat: CompactArtifactCategory,
)
    requires
        report_total(*old(report)) + *old(remaining) <= usize::MAX,
    ensures
        template_pass(*old(template), *final(template), cat, *old(remaining) as nat),
        *final(remaining) == pass_sections(old(template).sections@, cat, *old(remaining) as nat),
        report_bumped(*old(report), *final(report), cat, *old(remaining) - *final(remaining)),
{
    let mut sections: Vec<TemplateSection> = Vec::new();
    std::mem::swap(&mut sections, &mut template.sections);
    let sections = compact_sections(sections, report, remaining, cat);
    template.sections = sections;
}

/// Clears the page breaks that a document's page flow left behind, at most
/// `max_removals` of them: first those before empty paragraphs, then before
/// delayed sibling items, then before floating objects, then before inline
/// pictures under a paragraph near the foot of a page. Each kind is sought
/// through every section, in table cells and object children too.
pub fn compact_page_flow_artifacts_limited(template: &mut DocumentTemplate, max_removals: usize) -> (report: TemplatePageFlowCompactReport)
    ensures
        compaction_result(*old(template), *final(template), max_removals as nat, report),
        report.total_removed <= max_removals,
        report.total_removed == report.empty_paragraph_page_breaks_removed
            + report.sibling_paragraph_page_breaks_removed
            + report.floating_object_page_breaks_removed
            + report.inline_picture_page_breaks_removed,
{
    let mut report = TemplatePageFlowCompactReport {
        empty_paragraph_page_breaks_removed: 0,
        floating_object_page_breaks_removed: 0,
        inline_picture_page_breaks_removed: 0,
        sibling_paragraph_page_breaks_removed: 0,
        total_removed: 0,
    };
    let mut remaining = max_removals;
    let ghost t0 = *template;
    compact_template_pass(template, &mut report, &mut remaining, CompactArtifactCategory::EmptyParagraph);
    let ghost t1 = *template;
    compact_template_pass(template, &mut report, &mut remaining, CompactArtifactCategory::DelayedSibling);
    let ghost t2 = *template;
    compact_template_pass(template, &mut report, &mut remaining, CompactArtifactCategory::FloatingObject);
    let ghost t3 = *template;
    compact_template_pass(template, &mut report, &mut remaining, CompactArtifactCategory::InlinePicture);
    assert(report_total(report) + remaining == max_removals);
    report.total_removed = report.empty_paragraph_page_breaks_removed
        + report.floating_object_page_breaks_removed + report.inline_picture_page_breaks_removed
        + report.sibling_paragraph_page_breaks_removed;
    assert(compaction_chain(t0, t1, t2, t3, *template, max_removals as nat, report));
    report
}

/// Clears every page break that a document's page flow left behind (see
/// `compact_page_flow_artifacts_limited`).
pub fn compact_page_flow_artifacts(template: &mut DocumentTemplate) -> (report: TemplatePageFlowCompactReport)
    ensures
        compaction_result(*old(template), *final(template), usize::MAX as nat, report),
        report.total_removed == report.empty_paragraph_page_breaks_removed
            + report.sibling_paragraph_page_breaks_removed
            + report.floating_object_page_breaks_removed
            + report.inline_picture_page_breaks_removed,
{
    compact_page_flow_artifacts_limited(template, usize::MAX)
}

// ---------------------------------------------------------------------------
// A spent budget changes nothing
// ---------------------------------------------------------------------------

proof fn lemma_pass_blocks_zero(s: Seq<TemplateBlock>, st: FlowView, cat: CompactArtifactCategory)
    ensures
        pass_blocks(s, st, cat, 0) == 0,
        blocks_after(s, s, st, cat, 0),
    decreases s.len(),
{
    if s.len() > 0 {
        lemma_pass_blocks_zero(s.drop_last(), st, cat);
        assert(pass_block(s.last(), flow_after(s.drop_last(), st), cat, 0) == 0);
        assert(block_after(s.last(), s.last(), flow_after(s.drop_last(), st), cat, 0));
    }
}

proof fn lemma_blocks_after_zero(old: Seq<TemplateBlock>, new: Seq<TemplateBlock>, st: FlowView, cat: CompactArtifactCategory)
    requires
        blocks_after(old, new, st, cat, 0),
    ensures
        new == old,
    decreases old.len(),
{
    if old.len() > 0 {
        lemma_pass_blocks_zero(old.drop_last(), st, cat);
        lemma_blocks_after_zero(old.drop_last(), new.drop_last(), st, cat);
        assert(block_after(old.last(), new.last(), flow_after(old.drop_last(), st), cat, 0));
        assert(new.last() == old.last());
        assert(new =~= new.drop_last().push(new.last()));
        assert(old =~= old.drop_last().push(old.last()));
    } else {
        assert(new =~= old);
    }
}

proof fn lemma_sections_after_zero(old: Seq<TemplateSection>, new: Seq<TemplateSection>, cat: CompactArtifactCategory)
    requires
        sections_after(old, new, cat, 0),
    ensures
        pass_sections(old, cat, 0) == 0,
        new.len() == old.len(),
        forall|i: int| 0 <= i < old.len() ==> (#[trigger] new[i]).blocks@ == old[i].blocks@
            && new[i].page_def == old[i].page_def && new[i].section_def == old[i].section_def
            && new[i].page_border_fill == old[i].page_border_fill
            && new[i].footnote_shape == old[i].footnote_shape
            && new[i].endnote_shape == old[i].endnote_shape,
    decreases old.len(),
{
    if old.len() > 0 {
        lemma_sections_after_zero(old.drop_last(), new.drop_last(), cat);
        lemma_pass_blocks_zero(old.last().blocks@, fresh_flow(), cat);
        lemma_blocks_after_zero(old.last().blocks@, new.last().blocks@, fresh_flow(), cat);
        assert forall|i: int| 0 <= i < old.len() implies (#[trigger] new[i]).blocks@ == old[i].blocks@
            && new[i].page_def == old[i].page_def && new[i].section_def == old[i].section_def
            && new[i].page_border_fill == old[i].page_border_fill
            && new[i].footnote_shape == old[i].footnote_shape
            && new[i].endnote_shape == old[i].endnote_shape by {
            if i < old.len() - 1 {
                assert(new.drop_last()[i] == new[i]);
                assert(old.drop_last()[i] == old[i]);
            }
        }
    }
}

/// Compaction allowed no removal removes nothing: the report counts none,
/// and every section keeps its blocks and settings.
pub proof fn lemma_compaction_without_budget(
    before: DocumentTemplate,
    after: DocumentTemplate,
    report: TemplatePageFlowCompactReport,
)
    requires
        compaction_result(before, after, 0, report),
    ensures
        report.total_removed == 0,
        after.sections@.len() == before.sections@.len(),
        forall|i: int| 0 <= i < before.sections@.len() ==> (#[trigger] after.sections@[i]).blocks@
            == before.sections@[i].blocks@,
        after.version == before.version,
        after.headers == before.headers,
        after.footers == before.footers,
        after.master_pages == before.master_pages,
{
    let (t1, t2, t3) = choose|t1: DocumentTemplate, t2: DocumentTemplate, t3: DocumentTemplate|
        #[trigger] compaction_chain(before, t1, t2, t3, after, 0, report);
    lemma_sections_after_zero(before.sections@, t1.sections@, CompactArtifactCategory::EmptyParagraph);
    lemma_sections_after_zero(t1.sections@, t2.sections@, CompactArtifactCategory::DelayedSibling);
    lemma_sections_after_zero(t2.sections@, t3.sections@, CompactArtifactCategory::FloatingObject);
    lemma_sections_after_zero(t3.sections@, after.sections@, CompactArtifactCategory::InlinePicture);
    assert forall|i: int| 0 <= i < before.sections@.len() implies (#[trigger] after.sections@[i]).blocks@
        == before.sections@[i].blocks@ by {
        assert(t1.sections@[i].blocks@ == before.sections@[i].blocks@);
        assert(t2.sections@[i].blocks@ == t1.sections@[i].blocks@);
        assert(t3.sections@[i].blocks@ == t2.sections@[i].blocks@);
    }
}

} // verus!
