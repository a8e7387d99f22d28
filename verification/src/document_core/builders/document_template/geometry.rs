//! Sizes a template derives from the page: the width a table may take, the
//! column widths and row heights of a created table, the text area of a
//! master page; and the links to external binary data.

use super::objects::i32_of_bits;
use super::TemplateTableLayout;
use crate::model::{BinData, BinDataType, Padding, PageDef};
use crate::text::string_of;
use vstd::prelude::*;

verus! {

/// The width a table may take on a page: the page width less the side
/// margins and a table's own outer margins (283 units each side), at least
/// 7200 units. The sizes are read as `i32` (wrapping), as the record stores
/// them.
pub open spec fn table_content_width_spec(pd: PageDef) -> int {
    let w = i32_of_bits(pd.width as int) - i32_of_bits(pd.margin_left as int) - i32_of_bits(
        pd.margin_right as int,
    ) - 566;
    if w < 7200 {
        7200
    } else {
        w
    }
}

/// The subtraction of `table_content_width_spec` stays within `i32`.
pub open spec fn table_content_width_fits(pd: PageDef) -> bool {
    let a = i32_of_bits(pd.width as int);
    let b = a - i32_of_bits(pd.margin_left as int);
    let c = b - i32_of_bits(pd.margin_right as int);
    &&& i32::MIN <= b <= i32::MAX
    &&& i32::MIN <= c <= i32::MAX
    &&& i32::MIN <= c - 566 <= i32::MAX
}

/// The width a table may take on a page (see `table_content_width_spec`).
pub fn table_content_width(page_def: &PageDef) -> (r: u32)
    requires
        table_content_width_fits(*page_def),
    ensures
        r == table_content_width_spec(*page_def),
{
    let w = super::objects::reinterpret_u32(page_def.width) - super::objects::reinterpret_u32(
        page_def.margin_left,
    ) - super::objects::reinterpret_u32(page_def.margin_right) - 283 * 2;
    if w < 7200 {
        7200
    } else {
        w as u32
    }
}

/// All widths are positive.
pub open spec fn all_positive(v: Seq<u32>) -> bool {
    forall|i: int| 0 <= i < v.len() ==> v[i] > 0
}

fn all_positive_exec(v: &[u32]) -> (r: bool)
    ensures
        r == all_positive(v@),
{
    let mut i: usize = 0;
    while i < v.len()
        invariant
            i <= v@.len(),
            forall|j: int| 0 <= j < i ==> v@[j] > 0,
        decreases v@.len() - i,
    {
        if v[i] == 0 {
            return false;
        }
        i = i + 1;
    }
    true
}

/// `n` copies of `v`.
fn repeat_u32(v: u32, n: usize) -> (r: Vec<u32>)
    ensures
        r@ == Seq::new(n as nat, |i: int| v),
{
    let mut out: Vec<u32> = Vec::new();
    let mut i: usize = 0;
    while i < n
        invariant
            i <= n,
            out@ == Seq::new(i as nat, |j: int| v),
        decreases n - i,
    {
        out.push(v);
        i = i + 1;
        assert(out@ =~= Seq::new(i as nat, |j: int| v));
    }
    out
}

/// The column widths of a created table: those the template gives when
/// there is one positive width per column, else the content width shared
/// equally (rounded down).
pub open spec fn template_column_widths_spec(content_width: u32, col_count: nat, column_widths: Seq<u32>) -> Seq<u32> {
    if column_widths.len() == col_count && all_positive(column_widths) {
        column_widths
    } else {
        let divisor = if col_count < 1 {
            1
        } else {
            col_count
        };
        Seq::new(col_count, |i: int| (content_width as nat / divisor) as u32)
    }
}

/// The column widths of a created table (see `template_column_widths_spec`);
/// `content_width` is the width the table may take on its page.
pub fn template_column_widths(content_width: u32, col_count: usize, column_widths: &[u32]) -> (r: Vec<u32>)
    requires
        col_count <= u32::MAX,
    ensures
        r@ == template_column_widths_spec(content_width, col_count as nat, column_widths@),
{
    if column_widths.len() == col_count && all_positive_exec(column_widths) {
        let mut out: Vec<u32> = Vec::new();
        let mut i: usize = 0;
        while i < column_widths.len()
            invariant
                i <= column_widths@.len(),
                out@ == column_widths@.subrange(0, i as int),
            decreases column_widths@.len() - i,
        {
            out.push(column_widths[i]);
            i = i + 1;
            assert(out@ =~= column_widths@.subrange(0, i as int));
        }
        assert(column_widths@.subrange(0, i as int) =~= column_widths@);
        return out;
    }
    let divisor: u32 = if col_count < 1 {
        1
    } else {
        col_count as u32
    };
    repeat_u32(content_width / divisor, col_count)
}

/// The row height of a created table whose rows have no height of their
/// own: the cell padding above and below (read as `u32`, wrapping) around
/// 1000 units.
pub open spec fn default_row_height(cell_pad: Padding) -> int {
    (cell_pad.top as u32) as int + 1000 + (cell_pad.bottom as u32) as int
}

/// The row heights of a created table: those the template gives when there
/// is one positive height per row, else the default row height.
pub open spec fn template_row_heights_spec(row_count: nat, row_heights: Seq<u32>, cell_pad: Padding) -> Seq<u32> {
    if row_heights.len() == row_count && all_positive(row_heights) {
        row_heights
    } else {
        Seq::new(row_count, |i: int| default_row_height(cell_pad) as u32)
    }
}

/// The row heights of a created table (see `template_row_heights_spec`).
pub fn template_row_heights(row_count: usize, row_heights: &[u32], cell_pad: Padding) -> (r: Vec<u32>)
    requires
        default_row_height(cell_pad) <= u32::MAX,
    ensures
        r@ == template_row_heights_spec(row_count as nat, row_heights@, cell_pad),
{
    if row_heights.len() == row_count && all_positive_exec(row_heights) {
        let mut out: Vec<u32> = Vec::new();
        let mut i: usize = 0;
        while i < row_heights.len()
            invariant
                i <= row_heights@.len(),
                out@ == row_heights@.subrange(0, i as int),
            decreases row_heights@.len() - i,
        {
            out.push(row_heights[i]);
            i = i + 1;
            assert(out@ =~= row_heights@.subrange(0, i as int));
        }
        assert(row_heights@.subrange(0, i as int) =~= row_heights@);
        return out;
    }
    let row_height = cell_pad.top as u32 + 1000 + cell_pad.bottom as u32;
    repeat_u32(row_height, row_count)
}

/// The text area of a master page: the page less its margins, gutter,
/// header and footer (each subtraction stopping at zero).
pub open spec fn master_page_text_size_spec(pd: PageDef) -> (u32, u32) {
    let sat = |a: int, b: int|
        if a >= b {
            a - b
        } else {
            0
        };
    (
        sat(sat(sat(pd.width as int, pd.margin_left as int), pd.margin_right as int), pd.margin_gutter as int) as u32,
        sat(sat(sat(sat(pd.height as int, pd.margin_top as int), pd.margin_bottom as int), pd.margin_header as int), pd.margin_footer as int) as u32,
    )
}

/// The text area of a master page: its width is the page width less the
/// left, right and gutter margins, and its height the page height less the
/// top, bottom, header and footer margins; where the margins take up the
/// whole page in one direction, that side of the area is zero.
pub proof fn lemma_master_page_text_area(pd: PageDef)
    ensures
        ({
            let (w, h) = master_page_text_size_spec(pd);
            let hm = pd.margin_left + pd.margin_right + pd.margin_gutter;
            let vm = pd.margin_top + pd.margin_bottom + pd.margin_header + pd.margin_footer;
            &&& hm <= pd.width ==> w + hm == pd.width
            &&& hm > pd.width ==> w == 0
            &&& vm <= pd.height ==> h + vm == pd.height
            &&& vm > pd.height ==> h == 0
        }),
{
}

/// The text area of a master page (see `master_page_text_size_spec`).
pub fn master_page_default_text_size(page_def: &PageDef) -> (r: (u32, u32))
    ensures
        r == master_page_text_size_spec(*page_def),
{
    let width = page_def.width.saturating_sub(page_def.margin_left).saturating_sub(
        page_def.margin_right,
    ).saturating_sub(page_def.margin_gutter);
    let height = page_def.height.saturating_sub(page_def.margin_top).saturating_sub(
        page_def.margin_bottom,
    ).saturating_sub(page_def.margin_header).saturating_sub(page_def.margin_footer);
    (width, height)
}

/// The cell padding a table layout gives.
pub fn table_layout_padding(layout: &TemplateTableLayout) -> (r: Padding)
    ensures
        r == (Padding {
            left: layout.padding_left,
            right: layout.padding_right,
            top: layout.padding_top,
            bottom: layout.padding_bottom,
        }),
{
    Padding {
        left: layout.padding_left,
        right: layout.padding_right,
        top: layout.padding_top,
        bottom: layout.padding_bottom,
    }
}

/// The extra bytes of a created paragraph's header record.
pub fn paragraph_header_extra() -> (r: Vec<u8>)
    ensures
        r@ == seq![1u8, 0u8, 0u8, 0u8, 1u8, 0u8, 0u8, 0u8, 0u8, 0u8],
{
    let mut raw: Vec<u8> = Vec::new();
    raw.push(1);
    raw.push(0);
    raw.push(0);
    raw.push(0);
    raw.push(1);
    raw.push(0);
    raw.push(0);
    raw.push(0);
    raw.push(0);
    raw.push(0);
    assert(raw@ =~= seq![1u8, 0u8, 0u8, 0u8, 1u8, 0u8, 0u8, 0u8, 0u8, 0u8]);
    raw
}

// ---------------------------------------------------------------------------
// Linked binary data
// ---------------------------------------------------------------------------

/// A path that is given and not empty.
pub open spec fn non_empty_path(p: Option<String>) -> Option<Seq<char>> {
    match p {
        Some(s) => if s@.len() > 0 {
            Some(s@)
        } else {
            None
        },
        None => None,
    }
}

/// The file a linked binary-data item (ids count from 1) points at: its
/// absolute path, else its relative path; `None` for id 0, an unknown id, an
/// embedded item or one without a path.
pub open spec fn bin_data_link_path_spec(list: Seq<BinData>, bin_data_id: u16) -> Option<Seq<char>> {
    if bin_data_id == 0 || bin_data_id > list.len() {
        None
    } else {
        let item = list[bin_data_id - 1];
        if item.data_type != BinDataType::Link {
            None
        } else {
            match non_empty_path(item.abs_path) {
                Some(p) => Some(p),
                None => non_empty_path(item.rel_path),
            }
        }
    }
}

fn non_empty_path_exec(p: &Option<String>) -> (r: Option<String>)
    ensures
        match r {
            Some(s) => non_empty_path(*p) == Some(s@),
            None => non_empty_path(*p) is None,
        },
{
    match p {
        Some(s) => if s.as_str().is_empty() {
            None
        } else {
            Some(string_of(s.as_str()))
        },
        None => None,
    }
}

/// The file a linked binary-data item points at (see `bin_data_link_path_spec`).
pub fn bin_data_link_path(bin_data_list: &Vec<BinData>, bin_data_id: u16) -> (r: Option<String>)
    ensures
        match r {
            Some(s) => bin_data_link_path_spec(bin_data_list@, bin_data_id) == Some(s@),
            None => bin_data_link_path_spec(bin_data_list@, bin_data_id) is None,
        },
{
    if bin_data_id == 0 || bin_data_id as usize > bin_data_list.len() {
        return None;
    }
    let item = &bin_data_list[(bin_data_id - 1) as usize];
    match item.data_type {
        BinDataType::Link => {},
        _ => return None,
    }
    match non_empty_path_exec(&item.abs_path) {
        Some(p) => Some(p),
        None => non_empty_path_exec(&item.rel_path),
    }
}

/// The id the next binary-data item gets (ids count from 1): the count
/// taken modulo 65536, plus one. (A count of 65535 modulo 65536 has no next
/// id: the sum would not fit in a `u16`.)
pub fn next_template_bin_data_id(bin_data_count: usize) -> (r: u16)
    requires
        bin_data_count % 0x10000 != 0xFFFF,
    ensures
        r == bin_data_count % 0x10000 + 1,
{
    let low = (bin_data_count % 0x10000) as u16;
    low + 1
}

// ---------------------------------------------------------------------------
// Paragraph reuse while building a body
// ---------------------------------------------------------------------------

/// What the body builder remembers of the paragraph it wrote last.
#[derive(Debug, Clone, Copy, Default, PartialEq, Eq, Structural)]
pub struct BodyBuildState {
    pub used_first_body_para: bool,
    pub last_host_group: Option<u32>,
    pub last_para_idx: Option<usize>,
}

impl BodyBuildState {
    /// Remembers the paragraph just written and its host group.
    pub fn note_para(&mut self, host_group: Option<u32>, para_idx: usize)
        ensures
            final(self).last_host_group == host_group,
            final(self).last_para_idx == Some(para_idx),
            final(self).used_first_body_para == old(self).used_first_body_para,
    {
        self.last_host_group = host_group;
        self.last_para_idx = Some(para_idx);
    }

    /// The paragraph a block of `host_group` may share: the last one, when
    /// it belongs to the same host group.
    pub fn reusable_para(&self, host_group: Option<u32>) -> (r: Option<usize>)
        ensures
            r == match (host_group, self.last_host_group, self.last_para_idx) {
                (Some(current), Some(previous), Some(idx)) => if current == previous {
                    Some(idx)
                } else {
                    None
                },
                _ => None,
            },
    {
        match (host_group, self.last_host_group, self.last_para_idx) {
            (Some(current), Some(previous), Some(idx)) => if current == previous {
                Some(idx)
            } else {
                None
            },
            _ => None,
        }
    }
}

} // verus!
