//! Small edits and questions on template blocks while the body is built:
//! the break before a block, its host group, a picture's line segments and
//! offset hints, and which blocks a cell keeps as blocks.

use super::effect_writer::{insert_member, new_members};
use super::hints::{
    flow_page_break_count, flow_page_break_count_spec, picture_page_top_offset_spec,
    template_picture_page_top_offset, TemplateControlOffsetHint,
};
use super::names::{table_page_break_name, table_page_break_name_spec};
use super::objects::{at_least_one, cell_text_at, table_text_matrix};
use super::{is_default_table_layout, TemplateBlock, TemplateBreak, TemplateLineSeg, TemplateTableLayout};
use crate::text::{str_eq, string_of, trim_seq, trim_str};
use crate::json_value::{json_from_u64, json_get_spec, members_get, members_unique, JsonNumber, JsonValue};
use crate::model::{Paragraph, Picture, Table};
use vstd::prelude::*;

verus! {

// ---------------------------------------------------------------------------
// Fields every block has
// ---------------------------------------------------------------------------

/// The break before a block.
pub open spec fn block_break(b: TemplateBlock) -> Option<TemplateBreak> {
    match b {
        TemplateBlock::Paragraph { break_before, .. } => break_before,
        TemplateBlock::Table { break_before, .. } => break_before,
        TemplateBlock::Equation { break_before, .. } => break_before,
        TemplateBlock::Picture { break_before, .. } => break_before,
        TemplateBlock::ObjectPlaceholder { break_before, .. } => break_before,
    }
}

/// A block with the break before it set to `x`, all else unchanged.
pub open spec fn with_break(b: TemplateBlock, x: Option<TemplateBreak>) -> TemplateBlock {
    match b {
        TemplateBlock::Paragraph { text, break_before, style, char_format, char_shape_runs, para_format, line_segments } =>
            TemplateBlock::Paragraph { text, break_before: x, style, char_format, char_shape_runs, para_format, line_segments },
        TemplateBlock::Table { rows, break_before, rhwp_saved_gap_before, host_group, style, host_para_shape_id, para_format, line_segments, caption, column_widths, row_heights, table_layout, object_layout, border_fill, table_zones, cell_layouts, cell_formats, cell_blocks } =>
            TemplateBlock::Table { rows, break_before: x, rhwp_saved_gap_before, host_group, style, host_para_shape_id, para_format, line_segments, caption, column_widths, row_heights, table_layout, object_layout, border_fill, table_zones, cell_layouts, cell_formats, cell_blocks },
        TemplateBlock::Equation { script, break_before, host_group, font_size, color, baseline, font_name, line_mode, width, height, treat_as_char } =>
            TemplateBlock::Equation { script, break_before: x, host_group, font_size, color, baseline, font_name, line_mode, width, height, treat_as_char },
        TemplateBlock::Picture { break_before, host_group, line_segments, image_base64, external_path, extension, width, height, natural_width_px, natural_height_px, description, transparency, brightness, contrast, effect, effects, layout, object_layout, treat_as_char, horz_offset, vert_offset, caption } =>
            TemplateBlock::Picture { break_before: x, host_group, line_segments, image_base64, external_path, extension, width, height, natural_width_px, natural_height_px, description, transparency, brightness, contrast, effect, effects, layout, object_layout, treat_as_char, horz_offset, vert_offset, caption },
        TemplateBlock::ObjectPlaceholder { object_kind, break_before, host_group, shape_kind, description, placeholder_text, width, height, treat_as_char, horz_offset, vert_offset, caption, shape_component_id, geometry, drawing_style, layout, children, raw_hwp_chart_data_base64, raw_hwp_ole_tag_base64, ole_bin_data_base64, ole_extension, ole_object_type, ole_draw_aspect, ole_eq_base_line, ole_has_moniker } =>
            TemplateBlock::ObjectPlaceholder { object_kind, break_before: x, host_group, shape_kind, description, placeholder_text, width, height, treat_as_char, horz_offset, vert_offset, caption, shape_component_id, geometry, drawing_style, layout, children, raw_hwp_chart_data_base64, raw_hwp_ole_tag_base64, ole_bin_data_base64, ole_extension, ole_object_type, ole_draw_aspect, ole_eq_base_line, ole_has_moniker },
    }
}

/// Sets the break before a block, when one is given; nothing changes for
/// none.
pub fn set_block_break_before(block: &mut TemplateBlock, break_before: Option<TemplateBreak>)
    ensures
        *final(block) == if break_before is None {
            *old(block)
        } else {
            with_break(*old(block), break_before)
        },
{
    if break_before.is_none() {
        return;
    }
    match block {
        TemplateBlock::Paragraph { break_before: slot, .. } => {
            *slot = break_before;
        },
        TemplateBlock::Table { break_before: slot, .. } => {
            *slot = break_before;
        },
        TemplateBlock::Equation { break_before: slot, .. } => {
            *slot = break_before;
        },
        TemplateBlock::Picture { break_before: slot, .. } => {
            *slot = break_before;
        },
        TemplateBlock::ObjectPlaceholder { break_before: slot, .. } => {
            *slot = break_before;
        },
    }
}

/// The break before a block, to be changed in place: every block has one.
pub fn block_break_before_mut(block: &mut TemplateBlock) -> (r: Option<&mut Option<TemplateBreak>>)
    ensures
        r matches Some(slot) && *slot == block_break(*old(block)) && *final(block) == with_break(
            *old(block),
            *final(slot),
        ),
{
    match block {
        TemplateBlock::Paragraph { break_before, .. } => Some(break_before),
        TemplateBlock::Table { break_before, .. } => Some(break_before),
        TemplateBlock::Equation { break_before, .. } => Some(break_before),
        TemplateBlock::Picture { break_before, .. } => Some(break_before),
        TemplateBlock::ObjectPlaceholder { break_before, .. } => Some(break_before),
    }
}

// ---------------------------------------------------------------------------
// Host group and picture fields
// ---------------------------------------------------------------------------

/// A block with its host group set to `g` (paragraphs have none).
pub open spec fn with_host_group(b: TemplateBlock, g: Option<u32>) -> TemplateBlock {
    match b {
        TemplateBlock::Paragraph { .. } => b,
        TemplateBlock::Table { rows, break_before, rhwp_saved_gap_before, host_group, style, host_para_shape_id, para_format, line_segments, caption, column_widths, row_heights, table_layout, object_layout, border_fill, table_zones, cell_layouts, cell_formats, cell_blocks } =>
            TemplateBlock::Table { rows, break_before, rhwp_saved_gap_before, host_group: g, style, host_para_shape_id, para_format, line_segments, caption, column_widths, row_heights, table_layout, object_layout, border_fill, table_zones, cell_layouts, cell_formats, cell_blocks },
        TemplateBlock::Equation { script, break_before, host_group, font_size, color, baseline, font_name, line_mode, width, height, treat_as_char } =>
            TemplateBlock::Equation { script, break_before, host_group: g, font_size, color, baseline, font_name, line_mode, width, height, treat_as_char },
        TemplateBlock::Picture { break_before, host_group, line_segments, image_base64, external_path, extension, width, height, natural_width_px, natural_height_px, description, transparency, brightness, contrast, effect, effects, layout, object_layout, treat_as_char, horz_offset, vert_offset, caption } =>
            TemplateBlock::Picture { break_before, host_group: g, line_segments, image_base64, external_path, extension, width, height, natural_width_px, natural_height_px, description, transparency, brightness, contrast, effect, effects, layout, object_layout, treat_as_char, horz_offset, vert_offset, caption },
        TemplateBlock::ObjectPlaceholder { object_kind, break_before, host_group, shape_kind, description, placeholder_text, width, height, treat_as_char, horz_offset, vert_offset, caption, shape_component_id, geometry, drawing_style, layout, children, raw_hwp_chart_data_base64, raw_hwp_ole_tag_base64, ole_bin_data_base64, ole_extension, ole_object_type, ole_draw_aspect, ole_eq_base_line, ole_has_moniker } =>
            TemplateBlock::ObjectPlaceholder { object_kind, break_before, host_group: g, shape_kind, description, placeholder_text, width, height, treat_as_char, horz_offset, vert_offset, caption, shape_component_id, geometry, drawing_style, layout, children, raw_hwp_chart_data_base64, raw_hwp_ole_tag_base64, ole_bin_data_base64, ole_extension, ole_object_type, ole_draw_aspect, ole_eq_base_line, ole_has_moniker },
    }
}

/// Sets a block's host group, when one is given; paragraphs have none and
/// stay as they are.
pub fn set_block_host_group(block: &mut TemplateBlock, host_group: Option<u32>)
    ensures
        *final(block) == if host_group is None {
            *old(block)
        } else {
            with_host_group(*old(block), host_group)
        },
{
    if host_group.is_none() {
        return;
    }
    match block {
        TemplateBlock::Table { host_group: slot, .. } => {
            *slot = host_group;
        },
        TemplateBlock::Equation { host_group: slot, .. } => {
            *slot = host_group;
        },
        TemplateBlock::Picture { host_group: slot, .. } => {
            *slot = host_group;
        },
        TemplateBlock::ObjectPlaceholder { host_group: slot, .. } => {
            *slot = host_group;
        },
        TemplateBlock::Paragraph { .. } => {},
    }
}

/// A picture block with its line segments set to `segs`; any other block
/// as it is.
pub open spec fn with_picture_line_segments(b: TemplateBlock, segs: Vec<TemplateLineSeg>) -> TemplateBlock {
    match b {
        TemplateBlock::Picture { break_before, host_group, line_segments, image_base64, external_path, extension, width, height, natural_width_px, natural_height_px, description, transparency, brightness, contrast, effect, effects, layout, object_layout, treat_as_char, horz_offset, vert_offset, caption } =>
            TemplateBlock::Picture { break_before, host_group, line_segments: segs, image_base64, external_path, extension, width, height, natural_width_px, natural_height_px, description, transparency, brightness, contrast, effect, effects, layout, object_layout, treat_as_char, horz_offset, vert_offset, caption },
        _ => b,
    }
}

/// Gives a picture block the line segments of its host paragraph, when
/// there are any.
pub fn set_picture_block_line_segments(block: &mut TemplateBlock, line_segments: Vec<TemplateLineSeg>)
    ensures
        *final(block) == if line_segments@.len() == 0 {
            *old(block)
        } else {
            with_picture_line_segments(*old(block), line_segments)
        },
{
    if line_segments.len() == 0 {
        return;
    }
    match block {
        TemplateBlock::Picture { line_segments: slot, .. } => {
            *slot = line_segments;
        },
        _ => {},
    }
}

// ---------------------------------------------------------------------------
// What a block holds
// ---------------------------------------------------------------------------

/// Whether an object layout says the object is placed like a character:
/// its `treat_as_char` member is `true`.
pub open spec fn treats_as_char_spec(object_layout: Option<JsonValue>) -> bool {
    match object_layout {
        Some(layout) => json_get_spec(layout, "treat_as_char"@) == Some(JsonValue::Bool(true)),
        None => false,
    }
}

/// Whether an object layout says the object is placed like a character.
pub fn template_object_treats_as_char(object_layout: &Option<JsonValue>) -> (r: bool)
    ensures
        r == treats_as_char_spec(*object_layout),
{
    match object_layout {
        Some(layout) => match layout.get("treat_as_char") {
            Some(JsonValue::Bool(b)) => *b,
            _ => false,
        },
        None => false,
    }
}

/// Whether a block is an object (anything but a paragraph).
pub fn block_contains_table(block: &TemplateBlock) -> (r: bool)
    ensures
        r == !(block is Paragraph),
{
    match block {
        TemplateBlock::Paragraph { .. } => false,
        _ => true,
    }
}

/// Whether a paragraph or picture block has line segments.
pub open spec fn has_line_segments_spec(b: TemplateBlock) -> bool {
    match b {
        TemplateBlock::Paragraph { line_segments, .. } => line_segments@.len() > 0,
        TemplateBlock::Picture { line_segments, .. } => line_segments@.len() > 0,
        _ => false,
    }
}

/// Whether a paragraph or picture block has line segments.
pub fn block_has_line_segments(block: &TemplateBlock) -> (r: bool)
    ensures
        r == has_line_segments_spec(*block),
{
    match block {
        TemplateBlock::Paragraph { line_segments, .. } => line_segments.len() > 0,
        TemplateBlock::Picture { line_segments, .. } => line_segments.len() > 0,
        _ => false,
    }
}

/// Whether a cell's blocks must be kept as blocks rather than as plain
/// text: more than one block, or an object, or line segments.
pub open spec fn preserve_cell_blocks_spec(blocks: Seq<TemplateBlock>) -> bool {
    &&& blocks.len() > 0
    &&& {
        ||| blocks.len() > 1
        ||| exists|i: int| 0 <= i < blocks.len() && !(#[trigger] blocks[i] is Paragraph)
        ||| exists|i: int| 0 <= i < blocks.len() && has_line_segments_spec(#[trigger] blocks[i])
    }
}

/// Whether a cell's blocks must be kept as blocks (see
/// `preserve_cell_blocks_spec`).
pub fn should_preserve_cell_blocks(blocks: &[TemplateBlock]) -> (r: bool)
    ensures
        r == preserve_cell_blocks_spec(blocks@),
{
    if blocks.len() == 0 {
        return false;
    }
    if blocks.len() > 1 {
        return true;
    }
    let b = &blocks[0];
    block_contains_table(b) || block_has_line_segments(b)
}

// ---------------------------------------------------------------------------
// Heading tables before a large table on a new page
// ---------------------------------------------------------------------------

/// Whether a block is a character-placed table after a page break with a
/// row at least 20000 units high.
pub open spec fn is_following_large_tac_page_break_spec(b: TemplateBlock) -> bool {
    match b {
        TemplateBlock::Table { break_before, row_heights, object_layout, .. } => {
            &&& break_before == Some(TemplateBreak::Page)
            &&& treats_as_char_spec(object_layout)
            &&& exists|i: int| 0 <= i < row_heights@.len() && #[trigger] row_heights@[i] >= 20_000
        },
        _ => false,
    }
}

/// Whether a block is a character-placed table after a page break with a
/// tall row (see `is_following_large_tac_page_break_spec`).
#[verifier::loop_isolation(false)]
pub fn is_following_large_tac_page_break(block: &TemplateBlock) -> (r: bool)
    ensures
        r == is_following_large_tac_page_break_spec(*block),
{
    match block {
        TemplateBlock::Table { break_before, row_heights, object_layout, .. } => {
            let page = match break_before {
                Some(TemplateBreak::Page) => true,
                _ => false,
            };
            if !page || !template_object_treats_as_char(object_layout) {
                return false;
            }
            let mut i: usize = 0;
            while i < row_heights.len()
                invariant
                    i <= row_heights@.len(),
                    forall|j: int| 0 <= j < i ==> row_heights@[j] < 20_000,
                decreases row_heights@.len() - i,
            {
                if row_heights[i] >= 20_000 {
                    return true;
                }
                i = i + 1;
            }
            false
        },
        _ => false,
    }
}

/// The number of characters in all the texts of table rows.
pub open spec fn rows_char_count(rows: Seq<Vec<String>>) -> int
    decreases rows.len(),
{
    if rows.len() == 0 {
        0
    } else {
        rows_char_count(rows.drop_last()) + row_char_count(rows.last()@)
    }
}

/// The number of characters in the texts of one row.
pub open spec fn row_char_count(row: Seq<String>) -> int
    decreases row.len(),
{
    if row.len() == 0 {
        0
    } else {
        row_char_count(row.drop_last()) + row.last()@.len()
    }
}

proof fn lemma_row_char_count_nonneg(row: Seq<String>)
    ensures
        row_char_count(row) >= 0,
    decreases row.len(),
{
    if row.len() > 0 {
        lemma_row_char_count_nonneg(row.drop_last());
    }
}

proof fn lemma_rows_char_count_nonneg(rows: Seq<Vec<String>>)
    ensures
        rows_char_count(rows) >= 0,
    decreases rows.len(),
{
    if rows.len() > 0 {
        lemma_rows_char_count_nonneg(rows.drop_last());
        lemma_row_char_count_nonneg(rows.last()@);
    }
}

/// Whether the texts of table rows hold at most `limit` characters.
#[verifier::loop_isolation(false)]
fn rows_chars_at_most(rows: &Vec<Vec<String>>, limit: usize) -> (r: bool)
    ensures
        r == (rows_char_count(rows@) <= limit),
{
    let mut total: usize = 0;
    let mut i: usize = 0;
    while i < rows.len()
        invariant
            i <= rows@.len(),
            total <= limit,
            total == rows_char_count(rows@.take(i as int)),
        decreases rows@.len() - i,
    {
        let row = &rows[i];
        let mut j: usize = 0;
        let ghost before = total as int;
        while j < row.len()
            invariant
                j <= row@.len(),
                total <= limit,
                total == before + row_char_count(row@.take(j as int)),
                before >= 0,
            decreases row@.len() - j,
        {
            let n = row[j].unicode_len();
            assert(row@.take(j + 1).drop_last() =~= row@.take(j as int));
            assert(row@.take(j + 1).last() == row@[j as int]);
            proof {
                lemma_row_char_count_nonneg(row@.take(j as int));
            }
            if n > limit - total {
                proof {
                    lemma_rows_char_count_prefix(rows@, i as int, j as int);
                }
                return false;
            }
            total = total + n;
            j = j + 1;
        }
        assert(row@.take(j as int) =~= row@);
        assert(rows@.take(i + 1).drop_last() =~= rows@.take(i as int));
        i = i + 1;
    }
    assert(rows@.take(i as int) =~= rows@);
    true
}

/// Adding characters of row `i` past its first `j` texts: the count of all
/// rows is at least that of the first `i` rows and the first `j + 1` texts
/// of row `i`.
proof fn lemma_rows_char_count_prefix(rows: Seq<Vec<String>>, i: int, j: int)
    requires
        0 <= i < rows.len(),
        0 <= j < rows[i]@.len(),
    ensures
        rows_char_count(rows) >= rows_char_count(rows.take(i)) + row_char_count(rows[i]@.take(j + 1)),
    decreases rows.len(),
{
    if rows.len() - 1 == i {
        assert(rows.drop_last() =~= rows.take(i));
        lemma_row_prefix_le(rows[i]@, j + 1);
    } else {
        lemma_rows_char_count_prefix(rows.drop_last(), i, j);
        assert(rows.drop_last().take(i) =~= rows.take(i));
        lemma_row_char_count_nonneg(rows.last()@);
    }
}

proof fn lemma_row_prefix_le(row: Seq<String>, n: int)
    requires
        0 <= n <= row.len(),
    ensures
        row_char_count(row.take(n)) <= row_char_count(row),
    decreases row.len(),
{
    if n < row.len() {
        lemma_row_prefix_le(row.drop_last(), n);
        assert(row.drop_last().take(n) =~= row.take(n));
    } else {
        assert(row.take(n) =~= row);
    }
}

/// Whether a block is a short, one-row, character-placed table with no
/// break before it whose first line sits at the top: a heading that belongs
/// with what follows.
pub open spec fn is_zero_vpos_tac_heading_table_spec(b: TemplateBlock) -> bool {
    match b {
        TemplateBlock::Table { rows, break_before, line_segments, row_heights, object_layout, .. } => {
            &&& break_before is None
            &&& treats_as_char_spec(object_layout)
            &&& line_segments@.len() > 0 && line_segments@[0].vertical_pos == 0
            &&& row_heights@.len() == 1
            &&& row_heights@[0] <= 4_000
            &&& rows_char_count(rows@) <= 120
        },
        _ => false,
    }
}

/// Whether a block is a short heading table at the top of a line (see
/// `is_zero_vpos_tac_heading_table_spec`).
pub fn is_zero_vpos_tac_heading_table(block: &TemplateBlock) -> (r: bool)
    ensures
        r == is_zero_vpos_tac_heading_table_spec(*block),
{
    match block {
        TemplateBlock::Table { rows, break_before, line_segments, row_heights, object_layout, .. } => {
            break_before.is_none() && template_object_treats_as_char(object_layout) && line_segments.len() > 0
                && line_segments[0].vertical_pos == 0 && row_heights.len() == 1 && row_heights[0] <= 4_000
                && rows_chars_at_most(rows, 120)
        },
        _ => false,
    }
}

/// The blocks after moving, from block `idx` on, each page break from a
/// tall table onto the short heading table just before it.
pub open spec fn normalize_heading_breaks_from(s: Seq<TemplateBlock>, idx: int) -> Seq<TemplateBlock>
    decreases s.len() - idx,
{
    if idx < 0 || idx + 1 >= s.len() {
        s
    } else if is_zero_vpos_tac_heading_table_spec(s[idx]) && is_following_large_tac_page_break_spec(s[idx + 1]) {
        normalize_heading_breaks_from(
            s.update(idx, with_break(s[idx], Some(TemplateBreak::Page))).update(
                idx + 1,
                with_break(s[idx + 1], None),
            ),
            idx + 1,
        )
    } else {
        normalize_heading_breaks_from(s, idx + 1)
    }
}

/// Moves each page break from a tall character-placed table onto the short
/// heading table just before it, so that the heading starts the page with
/// the table (see `normalize_heading_breaks_from`).
pub fn normalize_zero_vpos_heading_table_page_breaks(blocks: &mut [TemplateBlock])
    ensures
        final(blocks)@ == normalize_heading_breaks_from(old(blocks)@, 0),
{
    if blocks.len() < 2 {
        return;
    }
    let n = blocks.len();
    let mut idx: usize = 0;
    while idx < n - 1
        invariant
            n == blocks@.len(),
            n >= 2,
            idx <= n - 1,
            normalize_heading_breaks_from(blocks@, idx as int) == normalize_heading_breaks_from(old(blocks)@, 0),
        decreases n - idx,
    {
        let ghost s = blocks@;
        let (left, right) = blocks.split_at_mut(idx + 1);
        let current = left.last_mut().unwrap();
        let next = right.first_mut().unwrap();
        if is_zero_vpos_tac_heading_table(current) && is_following_large_tac_page_break(next) {
            match block_break_before_mut(current) {
                Some(current_break) => {
                    *current_break = Some(TemplateBreak::Page);
                },
                None => {},
            }
            match block_break_before_mut(next) {
                Some(next_break) => {
                    *next_break = None;
                },
                None => {},
            }
        }
        proof {
            assert(blocks@ =~= if is_zero_vpos_tac_heading_table_spec(s[idx as int]) && is_following_large_tac_page_break_spec(s[idx + 1]) {
                s.update(idx as int, with_break(s[idx as int], Some(TemplateBreak::Page))).update(idx + 1, with_break(s[idx + 1], None))
            } else {
                s
            });
        }
        idx = idx + 1;
    }
}

// ---------------------------------------------------------------------------
// Offset hints on a picture's object layout
// ---------------------------------------------------------------------------

/// A block's object layout, for a picture.
pub open spec fn picture_object_layout(b: TemplateBlock) -> Option<JsonValue> {
    match b {
        TemplateBlock::Picture { object_layout, .. } => object_layout,
        _ => None,
    }
}

/// A picture block with its object layout set to `ol`; any other block as
/// it is.
pub open spec fn with_object_layout(b: TemplateBlock, ol: Option<JsonValue>) -> TemplateBlock {
    match b {
        TemplateBlock::Picture { break_before, host_group, line_segments, image_base64, external_path, extension, width, height, natural_width_px, natural_height_px, description, transparency, brightness, contrast, effect, effects, layout, object_layout, treat_as_char, horz_offset, vert_offset, caption } =>
            TemplateBlock::Picture { break_before, host_group, line_segments, image_base64, external_path, extension, width, height, natural_width_px, natural_height_px, description, transparency, brightness, contrast, effect, effects, layout, object_layout: ol, treat_as_char, horz_offset, vert_offset, caption },
        _ => b,
    }
}

/// The members an object layout starts from: its own when it is an object,
/// none otherwise.
pub open spec fn layout_members(ol: Option<JsonValue>) -> Seq<(String, JsonValue)> {
    match ol {
        Some(JsonValue::Object(m)) => m@,
        _ => Seq::empty(),
    }
}

/// The member `k` of an object layout after an offset hint: the offsets
/// given, the page-top hint flag set, every other member kept.
pub open spec fn offset_hint_member(base: Seq<(String, JsonValue)>, h: Option<u32>, v: Option<u32>, k: Seq<char>) -> Option<JsonValue> {
    if k == "rhwp_page_top_offset_hint"@ {
        Some(JsonValue::Bool(true))
    } else if k == "vertical_offset"@ && v is Some {
        Some(JsonValue::Number(JsonNumber::PosInt(v->0 as u64)))
    } else if k == "horizontal_offset"@ && h is Some {
        Some(JsonValue::Number(JsonNumber::PosInt(h->0 as u64)))
    } else {
        members_get(base, k)
    }
}

/// Whether `new` is the picture block `old` with the offset hint written
/// into its object layout (see `offset_hint_member`).
pub open spec fn is_offset_hinted(old: TemplateBlock, new: TemplateBlock, h: Option<u32>, v: Option<u32>) -> bool {
    &&& new == with_object_layout(old, picture_object_layout(new))
    &&& picture_object_layout(new) matches Some(JsonValue::Object(m))
    &&& members_unique(layout_members(picture_object_layout(old))) ==> members_unique(layout_members(picture_object_layout(new)))
    &&& forall|k: Seq<char>| #[trigger] members_get(layout_members(picture_object_layout(new)), k)
        == offset_hint_member(layout_members(picture_object_layout(old)), h, v, k)
}

proof fn lemma_offset_keys()
    ensures
        "rhwp_page_top_offset_hint"@.len() == 25,
        "vertical_offset"@.len() == 15,
        "horizontal_offset"@.len() == 17,
{
    reveal_strlit("rhwp_page_top_offset_hint");
    reveal_strlit("vertical_offset");
    reveal_strlit("horizontal_offset");
}

/// Writes offsets and the page-top hint flag into a picture block's object
/// layout; other blocks stay as they are.
fn write_offset_hint(block: &mut TemplateBlock, horizontal: Option<u32>, vertical: Option<u32>)
    ensures
        (*old(block)) is Picture ==> is_offset_hinted(*old(block), *final(block), horizontal, vertical),
        !((*old(block)) is Picture) ==> *final(block) == *old(block),
{
    proof {
        lemma_offset_keys();
    }
    match block {
        TemplateBlock::Picture { object_layout, .. } => {
            let taken = object_layout.take();
            let mut layout = match taken {
                Some(JsonValue::Object(m)) => m,
                _ => new_members(),
            };
            match horizontal {
                Some(offset) => insert_member(&mut layout, "horizontal_offset", json_from_u64(offset as u64)),
                None => {},
            }
            match vertical {
                Some(offset) => insert_member(&mut layout, "vertical_offset", json_from_u64(offset as u64)),
                None => {},
            }
            insert_member(&mut layout, "rhwp_page_top_offset_hint", JsonValue::Bool(true));
            *object_layout = Some(JsonValue::Object(layout));
        },
        _ => {},
    }
}

/// Writes a control's offset hint into a picture block's object layout,
/// when the hint gives an offset (see `is_offset_hinted`).
pub fn set_picture_block_offset_hint(block: &mut TemplateBlock, hint: TemplateControlOffsetHint)
    ensures
        (hint.horizontal_offset is None && hint.vertical_offset is None) || !((*old(block)) is Picture)
            ==> *final(block) == *old(block),
        (hint.horizontal_offset is Some || hint.vertical_offset is Some) && (*old(block)) is Picture
            ==> is_offset_hinted(*old(block), *final(block), hint.horizontal_offset, hint.vertical_offset),
{
    if hint.horizontal_offset.is_none() && hint.vertical_offset.is_none() {
        return;
    }
    write_offset_hint(block, hint.horizontal_offset, hint.vertical_offset);
}

/// Writes the page-top offset of a character-placed picture into its
/// block's object layout, when it has one (see
/// `picture_page_top_offset_spec`).
pub fn set_picture_block_page_top_offset(block: &mut TemplateBlock, para: &Paragraph, picture: &Picture)
    ensures
        picture_page_top_offset_spec(*para, *picture) is None || !((*old(block)) is Picture)
            ==> *final(block) == *old(block),
        picture_page_top_offset_spec(*para, *picture) is Some && (*old(block)) is Picture
            ==> is_offset_hinted(*old(block), *final(block), None, picture_page_top_offset_spec(*para, *picture)),
{
    let offset = match template_picture_page_top_offset(para, picture) {
        Some(offset) => offset,
        None => return,
    };
    write_offset_hint(block, None, Some(offset));
}

// ---------------------------------------------------------------------------
// Page breaks from source pages
// ---------------------------------------------------------------------------

/// Whether a block is an empty paragraph after a page break, with nothing
/// else set: what stands for a blank source page.
pub open spec fn is_blank_page_paragraph(b: TemplateBlock) -> bool {
    match b {
        TemplateBlock::Paragraph { text, break_before, style, char_format, char_shape_runs, para_format, line_segments } => {
            &&& text@ == Seq::<char>::empty()
            &&& break_before == Some(TemplateBreak::Page)
            &&& style is None
            &&& char_format is None
            &&& char_shape_runs@.len() == 0
            &&& para_format is None
            &&& line_segments@.len() == 0
        },
        _ => false,
    }
}

/// Whether `after` is `before` followed by `n` blank page paragraphs.
pub open spec fn blanks_appended(before: Seq<TemplateBlock>, after: Seq<TemplateBlock>, n: int) -> bool {
    &&& after.len() == before.len() + n
    &&& after.subrange(0, before.len() as int) == before
    &&& forall|i: int| before.len() <= i < after.len() ==> is_blank_page_paragraph(#[trigger] after[i])
}

/// Appends one blank page paragraph per count, counting down to zero.
pub fn insert_blank_flow_page_breaks(blocks: &mut Vec<TemplateBlock>, count: &mut u32)
    ensures
        *final(count) == 0,
        blanks_appended(old(blocks)@, final(blocks)@, *old(count) as int),
{
    let ghost start = blocks@;
    let ghost n0 = *count as int;
    assert(blocks@.subrange(0, start.len() as int) =~= start);
    while *count > 0
        invariant
            blanks_appended(start, blocks@, n0 - *count),
            0 <= *count <= n0,
        decreases *count,
    {
        blocks.push(TemplateBlock::Paragraph {
            text: String::new(),
            break_before: Some(TemplateBreak::Page),
            style: None,
            char_format: None,
            char_shape_runs: Vec::new(),
            para_format: None,
            line_segments: Vec::new(),
        });
        *count -= 1;
        assert(blocks@.subrange(0, start.len() as int) =~= start);
    }
}

/// The page breaks owed before a block once a suppressed break is taken
/// off: one less when a break was suppressed and some are owed.
pub open spec fn owed_page_breaks(count: int, suppress: bool) -> int {
    if suppress && count > 0 {
        count - 1
    } else {
        count
    }
}

/// Whether the suppression of the next page break stays set.
pub open spec fn suppress_after(count: int, suppress: bool, fallback: Option<TemplateBreak>) -> bool {
    suppress && !(count > 0) && fallback is None
}

/// The break put before a block that starts on `source_page`: a page break
/// when it moved forward by pages (less a suppressed one; each further
/// page adds a blank page paragraph before it), else the fallback break,
/// but none for the first block.
pub open spec fn source_page_break(owed: int, first: bool, fallback: Option<TemplateBreak>) -> Option<TemplateBreak> {
    if owed > 0 {
        Some(TemplateBreak::Page)
    } else if first {
        None
    } else {
        fallback
    }
}

/// The break before a block that starts on `source_page` (see
/// `source_page_break`), with blank page paragraphs for skipped pages, the
/// page noted as the last block's page, and the suppression used up.
pub fn take_break_for_source_page(
    blocks: &mut Vec<TemplateBlock>,
    source_page: Option<u32>,
    last_block_page: &mut Option<u32>,
    suppress_next_flow_page_break: &mut bool,
    fallback_break: Option<TemplateBreak>,
) -> (r: Option<TemplateBreak>)
    ensures
        ({
            let count = flow_page_break_count_spec(old(blocks)@.len() == 0, source_page, *old(last_block_page));
            let owed = owed_page_breaks(count, *old(suppress_next_flow_page_break));
            &&& r == source_page_break(owed, old(blocks)@.len() == 0, fallback_break)
            &&& blanks_appended(old(blocks)@, final(blocks)@, if owed > 1 { owed - 1 } else { 0 })
            &&& *final(suppress_next_flow_page_break) == suppress_after(count, *old(suppress_next_flow_page_break), fallback_break)
            &&& *final(last_block_page) == match source_page {
                Some(p) => Some(p),
                None => *old(last_block_page),
            }
        }),
{
    let mut flow_page_breaks = flow_page_break_count(blocks.len() == 0, source_page, *last_block_page);
    if *suppress_next_flow_page_break && flow_page_breaks > 0 {
        flow_page_breaks = flow_page_breaks - 1;
        *suppress_next_flow_page_break = false;
    } else if *suppress_next_flow_page_break && fallback_break.is_some() {
        *suppress_next_flow_page_break = false;
    }
    let mut pending_blank_page_breaks: u32 = if flow_page_breaks > 0 {
        flow_page_breaks - 1
    } else {
        0
    };
    insert_blank_flow_page_breaks(blocks, &mut pending_blank_page_breaks);
    let break_before = if flow_page_breaks > 0 {
        Some(TemplateBreak::Page)
    } else if blocks.len() == 0 {
        None
    } else {
        fallback_break
    };
    *last_block_page = match source_page {
        Some(p) => Some(p),
        None => *last_block_page,
    };
    break_before
}

// ---------------------------------------------------------------------------
// Tables
// ---------------------------------------------------------------------------

/// Whether a layout template holds a table's layout fields, its page break
/// rule by name.
pub open spec fn is_table_layout_of(layout: TemplateTableLayout, table: Table) -> bool {
    &&& layout.cell_spacing == table.cell_spacing
    &&& layout.padding_left == table.padding.left
    &&& layout.padding_right == table.padding.right
    &&& layout.padding_top == table.padding.top
    &&& layout.padding_bottom == table.padding.bottom
    &&& layout.page_break@ == table_page_break_name_spec(table.page_break)
    &&& layout.repeat_header == table.repeat_header
    &&& layout.outer_margin_left == table.outer_margin_left
    &&& layout.outer_margin_right == table.outer_margin_right
    &&& layout.outer_margin_top == table.outer_margin_top
    &&& layout.outer_margin_bottom == table.outer_margin_bottom
}

/// Whether a table's layout fields are those of the default layout
/// template.
pub open spec fn table_has_default_layout(table: Table) -> bool {
    &&& table.cell_spacing == 0
    &&& table.padding.left == 510
    &&& table.padding.right == 510
    &&& table.padding.top == 141
    &&& table.padding.bottom == 141
    &&& table_page_break_name_spec(table.page_break) == "row"@
    &&& !table.repeat_header
    &&& table.outer_margin_left == 283
    &&& table.outer_margin_right == 283
    &&& table.outer_margin_top == 283
    &&& table.outer_margin_bottom == 283
}

/// A table's layout template (see `is_table_layout_of`), or nothing when
/// it is the default layout.
pub fn table_layout_template(table: &Table) -> (r: Option<TemplateTableLayout>)
    ensures
        r is None <==> table_has_default_layout(*table),
        r matches Some(l) ==> is_table_layout_of(l, *table) && !is_default_table_layout(l),
{
    let layout = TemplateTableLayout {
        cell_spacing: table.cell_spacing,
        padding_left: table.padding.left,
        padding_right: table.padding.right,
        padding_top: table.padding.top,
        padding_bottom: table.padding.bottom,
        page_break: string_of(table_page_break_name(table.page_break)),
        repeat_header: table.repeat_header,
        outer_margin_left: table.outer_margin_left,
        outer_margin_right: table.outer_margin_right,
        outer_margin_top: table.outer_margin_top,
        outer_margin_bottom: table.outer_margin_bottom,
    };
    let is_default = layout.cell_spacing == 0 && layout.padding_left == 510 && layout.padding_right == 510
        && layout.padding_top == 141 && layout.padding_bottom == 141 && str_eq(table_page_break_name(table.page_break), "row")
        && !layout.repeat_header && layout.outer_margin_left == 283 && layout.outer_margin_right == 283
        && layout.outer_margin_top == 283 && layout.outer_margin_bottom == 283;
    if is_default {
        None
    } else {
        Some(layout)
    }
}

/// Whether every cell text of a table's text matrix is blank.
pub open spec fn table_texts_blank(t: Table) -> bool {
    forall|i: int, j: int|
        0 <= i < at_least_one(t.row_count as int) && 0 <= j < at_least_one(t.col_count as int)
            ==> trim_seq(#[trigger] cell_text_at(t.cells@, i, j)).len() == 0
}

/// Whether a block is a picture whose object layout carries the page-top
/// offset hint flag.
pub open spec fn has_page_top_hint(b: Option<TemplateBlock>) -> bool {
    match b {
        Some(TemplateBlock::Picture { object_layout: Some(layout), .. }) =>
            json_get_spec(layout, "rhwp_page_top_offset_hint"@) == Some(JsonValue::Bool(true)),
        _ => false,
    }
}

/// Whether a table's texts are all blank.
#[verifier::loop_isolation(false)]
fn table_is_blank(table: &Table) -> (r: bool)
    ensures
        r == table_texts_blank(*table),
{
    let rows = table_text_matrix(table);
    let mut i: usize = 0;
    while i < rows.len()
        invariant
            i <= rows@.len(),
            rows@.len() == at_least_one(table.row_count as int),
            forall|a: int| 0 <= a < rows@.len() ==> (#[trigger] rows@[a])@.len() == at_least_one(table.col_count as int),
            forall|a: int, b: int| 0 <= a < rows@.len() && 0 <= b < rows@[a]@.len() ==> (#[trigger] rows@[a]@[b])@ == cell_text_at(table.cells@, a, b),
            forall|a: int, b: int| 0 <= a < i && 0 <= b < at_least_one(table.col_count as int)
                ==> trim_seq(#[trigger] cell_text_at(table.cells@, a, b)).len() == 0,
        decreases rows@.len() - i,
    {
        let row = &rows[i];
        let mut j: usize = 0;
        while j < row.len()
            invariant
                i < rows@.len(),
                *row == rows@[i as int],
                j <= row@.len(),
                row@.len() == at_least_one(table.col_count as int),
                forall|b: int| 0 <= b < row@.len() ==> (#[trigger] row@[b])@ == cell_text_at(table.cells@, i as int, b),
                forall|b: int| 0 <= b < j ==> trim_seq(#[trigger] cell_text_at(table.cells@, i as int, b)).len() == 0,
            decreases row@.len() - j,
        {
            if trim_str(row[j].as_str()).unicode_len() > 0 {
                assert(trim_seq(cell_text_at(table.cells@, i as int, j as int)).len() > 0);
                return false;
            }
            j = j + 1;
        }
        i = i + 1;
    }
    true
}

/// The gap saved before a table whose empty host paragraph was skipped,
/// kept only after a picture carrying the page-top hint, for a blank
/// character-placed table.
pub fn saved_gap_before_table_after_skipped_empty_para(
    previous_block: Option<&TemplateBlock>,
    table: &Table,
    pending_gap_hu: Option<i32>,
) -> (r: Option<i32>)
    ensures
        r == if pending_gap_hu is Some && has_page_top_hint(match previous_block {
            Some(b) => Some(*b),
            None => None,
        }) && table.common.treat_as_char && table_texts_blank(*table) {
            pending_gap_hu
        } else {
            None
        },
{
    let gap = match pending_gap_hu {
        Some(gap) => gap,
        None => return None,
    };
    let hinted = match previous_block {
        Some(TemplateBlock::Picture { object_layout: Some(layout), .. }) => match layout.get("rhwp_page_top_offset_hint") {
            Some(JsonValue::Bool(b)) => *b,
            _ => false,
        },
        _ => false,
    };
    if !hinted {
        return None;
    }
    if !table.common.treat_as_char || !table_is_blank(table) {
        return None;
    }
    Some(gap)
}

// ---------------------------------------------------------------------------
// Laws
// ---------------------------------------------------------------------------

/// The break set on a block is the one read back from it, and setting the
/// block's own break back undoes the change.
pub proof fn lemma_break_set_and_restored(b: TemplateBlock, x: Option<TemplateBreak>)
    ensures
        block_break(with_break(b, x)) == x,
        with_break(with_break(b, x), block_break(b)) == b,
        with_break(b, block_break(b)) == b,
{
}

/// Moving heading page breaks keeps the number of blocks and changes no
/// block but for the break before it.
pub proof fn lemma_normalize_heading_breaks_only_moves_breaks(s: Seq<TemplateBlock>, idx: int)
    requires
        0 <= idx,
    ensures
        normalize_heading_breaks_from(s, idx).len() == s.len(),
        forall|j: int| 0 <= j < s.len() ==> #[trigger] normalize_heading_breaks_from(s, idx)[j]
            == with_break(s[j], block_break(normalize_heading_breaks_from(s, idx)[j])),
    decreases s.len() - idx,
{
    if idx + 1 < s.len() {
        if is_zero_vpos_tac_heading_table_spec(s[idx]) && is_following_large_tac_page_break_spec(s[idx + 1]) {
            let t = s.update(idx, with_break(s[idx], Some(TemplateBreak::Page))).update(
                idx + 1,
                with_break(s[idx + 1], None),
            );
            lemma_normalize_heading_breaks_only_moves_breaks(t, idx + 1);
            assert forall|j: int| 0 <= j < s.len() implies #[trigger] normalize_heading_breaks_from(s, idx)[j]
                == with_break(s[j], block_break(normalize_heading_breaks_from(s, idx)[j])) by {
                let r = normalize_heading_breaks_from(s, idx);
                assert(r[j] == with_break(t[j], block_break(r[j])));
                if j == idx {
                    lemma_break_set_and_restored(s[idx], Some(TemplateBreak::Page));
                    lemma_with_break_twice(s[j], Some(TemplateBreak::Page), block_break(r[j]));
                } else if j == idx + 1 {
                    lemma_with_break_twice(s[j], None, block_break(r[j]));
                }
            }
        } else {
            lemma_normalize_heading_breaks_only_moves_breaks(s, idx + 1);
        }
    }
}

/// Setting the break twice is setting it once, to the second value.
pub proof fn lemma_with_break_twice(b: TemplateBlock, x: Option<TemplateBreak>, y: Option<TemplateBreak>)
    ensures
        with_break(with_break(b, x), y) == with_break(b, y),
{
}

// ---------------------------------------------------------------------------
// Gaps saved before a block
// ---------------------------------------------------------------------------

/// Whether every text of table rows is blank.
pub open spec fn rows_blank(rows: Seq<Vec<String>>) -> bool {
    forall|i: int, j: int| 0 <= i < rows.len() && 0 <= j < rows[i]@.len() ==> trim_seq(#[trigger] rows[i]@[j]@).len() == 0
}

#[verifier::loop_isolation(false)]
fn rows_are_blank(rows: &Vec<Vec<String>>) -> (r: bool)
    ensures
        r == rows_blank(rows@),
{
    let mut i: usize = 0;
    while i < rows.len()
        invariant
            i <= rows@.len(),
            forall|a: int, b: int| 0 <= a < i && 0 <= b < rows@[a]@.len() ==> trim_seq(#[trigger] rows@[a]@[b]@).len() == 0,
        decreases rows@.len() - i,
    {
        let row = &rows[i];
        let mut j: usize = 0;
        while j < row.len()
            invariant
                j <= row@.len(),
                forall|b: int| 0 <= b < j ==> trim_seq(#[trigger] rows@[i as int]@[b]@).len() == 0,
            decreases row@.len() - j,
        {
            if trim_str(row[j].as_str()).unicode_len() > 0 {
                return false;
            }
            j = j + 1;
        }
        i = i + 1;
    }
    true
}

/// The last segment from the first `n` that has a width.
pub open spec fn last_wide_segment(segs: Seq<TemplateLineSeg>, n: int) -> Option<TemplateLineSeg>
    decreases n,
{
    if n <= 0 || n > segs.len() {
        None
    } else if segs[n - 1].segment_width > 0 {
        Some(segs[n - 1])
    } else {
        last_wide_segment(segs, n - 1)
    }
}

/// The segment a gap is measured from: the last one with a width, else the
/// last one.
pub open spec fn gap_anchor_segment(segs: Seq<TemplateLineSeg>) -> Option<TemplateLineSeg> {
    match last_wide_segment(segs, segs.len() as int) {
        Some(s) => Some(s),
        None => if segs.len() > 0 {
            Some(segs.last())
        } else {
            None
        },
    }
}

/// Where a line segment ends: its position plus its height and spacing
/// (when these add up to more than zero).
pub open spec fn segment_end(s: TemplateLineSeg) -> int {
    s.vertical_pos + if s.line_height + s.line_spacing > 0 {
        s.line_height + s.line_spacing
    } else {
        0
    }
}

/// Whether measuring a gap from segment `s` to position `next_vpos` stays
/// within `i32` at every step.
pub open spec fn gap_fits(s: TemplateLineSeg, next_vpos: i32) -> bool {
    &&& i32::MIN <= s.line_height + s.line_spacing <= i32::MAX
    &&& i32::MIN <= segment_end(s) <= i32::MAX
    &&& i32::MIN <= next_vpos - segment_end(s) <= i32::MAX
}

/// The gap from segment `s` to position `next_vpos`, kept when it lies in
/// `low..=high`.
pub open spec fn gap_in(s: TemplateLineSeg, next_vpos: i32, low: int, high: int) -> Option<i32> {
    let gap = next_vpos - segment_end(s);
    if low <= gap <= high {
        Some(gap as i32)
    } else {
        None
    }
}

fn measured_gap(s: TemplateLineSeg, next_vpos: i32, low: i32, high: i32) -> (r: Option<i32>)
    requires
        gap_fits(s, next_vpos),
    ensures
        r == gap_in(s, next_vpos, low as int, high as int),
{
    let span = s.line_height + s.line_spacing;
    let end = s.vertical_pos + if span > 0 {
        span
    } else {
        0
    };
    let gap = next_vpos - end;
    if low <= gap && gap <= high {
        Some(gap)
    } else {
        None
    }
}

fn gap_anchor(segs: &Vec<TemplateLineSeg>) -> (r: Option<TemplateLineSeg>)
    ensures
        r == gap_anchor_segment(segs@),
{
    let mut k: usize = segs.len();
    while k > 0
        invariant
            k <= segs@.len(),
            last_wide_segment(segs@, segs@.len() as int) == last_wide_segment(segs@, k as int),
        decreases k,
    {
        if segs[k - 1].segment_width > 0 {
            return Some(segs[k - 1]);
        }
        k = k - 1;
    }
    if segs.len() == 0 {
        None
    } else {
        Some(segs[segs.len() - 1])
    }
}

/// What a gap after a blank character-placed table is measured between:
/// the table's anchor segment and the first position of the non-blank
/// paragraph after it; nothing when the blocks are not such a pair.
pub open spec fn tac_gap_inputs(previous: TemplateBlock, current: TemplateBlock) -> Option<(TemplateLineSeg, i32)> {
    match (previous, current) {
        (
            TemplateBlock::Table { rows, line_segments: previous_segments, object_layout, .. },
            TemplateBlock::Paragraph { text, line_segments: current_segments, .. },
        ) => if treats_as_char_spec(object_layout) && rows_blank(rows@) && trim_seq(text@).len() > 0 {
            match gap_anchor_segment(previous_segments@) {
                Some(anchor) => if current_segments@.len() > 0 {
                    Some((anchor, current_segments@[0].vertical_pos))
                } else {
                    None
                },
                None => None,
            }
        } else {
            None
        },
        _ => None,
    }
}

/// The gap saved between a blank character-placed table and the text
/// paragraph after it, when it lies in 1500..=12000 units.
pub fn template_saved_tac_gap_before(previous: &TemplateBlock, current: &TemplateBlock) -> (r: Option<i32>)
    requires
        tac_gap_inputs(*previous, *current) matches Some((s, v)) ==> gap_fits(s, v),
    ensures
        r == match tac_gap_inputs(*previous, *current) {
            Some((s, v)) => gap_in(s, v, 1_500, 12_000),
            None => None,
        },
{
    let (rows, previous_segments, object_layout) = match previous {
        TemplateBlock::Table { rows, line_segments, object_layout, .. } => (rows, line_segments, object_layout),
        _ => return None,
    };
    if !template_object_treats_as_char(object_layout) || !rows_are_blank(rows) {
        return None;
    }
    let (text, current_segments) = match current {
        TemplateBlock::Paragraph { text, line_segments, .. } => (text, line_segments),
        _ => return None,
    };
    if trim_str(text.as_str()).unicode_len() == 0 {
        return None;
    }
    let anchor = match gap_anchor(previous_segments) {
        Some(s) => s,
        None => return None,
    };
    if current_segments.len() == 0 {
        return None;
    }
    measured_gap(anchor, current_segments[0].vertical_pos, 1_500, 12_000)
}

/// What a gap between two one-line text paragraphs of the same width is
/// measured between; nothing when the blocks are not such a pair.
pub open spec fn para_gap_inputs(previous: TemplateBlock, current: TemplateBlock) -> Option<(TemplateLineSeg, i32)> {
    match (previous, current) {
        (
            TemplateBlock::Paragraph { text: previous_text, break_before: previous_break, line_segments: previous_segments, .. },
            TemplateBlock::Paragraph { text: current_text, break_before: current_break, line_segments: current_segments, .. },
        ) => if previous_break is None && current_break is None && trim_seq(previous_text@).len() > 0
            && trim_seq(current_text@).len() > 0 && previous_segments@.len() == 1 && current_segments@.len() == 1
            && previous_segments@[0].segment_width > 0 && current_segments@[0].segment_width > 0
            && previous_segments@[0].segment_width == current_segments@[0].segment_width {
            Some((previous_segments@[0], current_segments@[0].vertical_pos))
        } else {
            None
        },
        _ => None,
    }
}

/// The gap saved between two one-line text paragraphs of the same width,
/// when it lies in 1200..=6000 units.
pub fn template_saved_para_gap_before(previous: &TemplateBlock, current: &TemplateBlock) -> (r: Option<i32>)
    requires
        para_gap_inputs(*previous, *current) matches Some((s, v)) ==> gap_fits(s, v),
    ensures
        r == match para_gap_inputs(*previous, *current) {
            Some((s, v)) => gap_in(s, v, 1_200, 6_000),
            None => None,
        },
{
    let (previous_text, previous_break, previous_segments) = match previous {
        TemplateBlock::Paragraph { text, break_before, line_segments, .. } => (text, break_before, line_segments),
        _ => return None,
    };
    let (current_text, current_break, current_segments) = match current {
        TemplateBlock::Paragraph { text, break_before, line_segments, .. } => (text, break_before, line_segments),
        _ => return None,
    };
    if previous_break.is_some() || current_break.is_some() || trim_str(previous_text.as_str()).unicode_len() == 0
        || trim_str(current_text.as_str()).unicode_len() == 0 || previous_segments.len() != 1
        || current_segments.len() != 1 {
        return None;
    }
    let previous_segment = previous_segments[0];
    let current_segment = current_segments[0];
    if previous_segment.segment_width <= 0 || current_segment.segment_width <= 0
        || previous_segment.segment_width != current_segment.segment_width {
        return None;
    }
    measured_gap(previous_segment, current_segment.vertical_pos, 1_200, 6_000)
}

} // verus!
