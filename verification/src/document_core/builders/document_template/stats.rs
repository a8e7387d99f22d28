//! Counting what a template holds: blocks of each kind, at every depth
//! (table cells and the children of object placeholders included).

use super::{DocumentTemplate, TemplateBlock, TemplateHeaderFooter, TemplateMasterPage, TemplateSection, TemplateStats};
use vstd::prelude::*;

verus! {

broadcast use {
    vstd::seq::axiom_seq_index_decreases,
    vstd::seq::axiom_seq_subrange_decreases,
    vstd::std_specs::vec::axiom_vec_decreases_to_view,
};

/// Block counts of a part of a template.
pub struct BlockTally {
    pub blocks: nat,
    pub paragraphs: nat,
    pub tables: nat,
    pub table_cells: nat,
    pub equations: nat,
    pub pictures: nat,
    pub object_placeholders: nat,
}

pub open spec fn tally_zero() -> BlockTally {
    BlockTally {
        blocks: 0,
        paragraphs: 0,
        tables: 0,
        table_cells: 0,
        equations: 0,
        pictures: 0,
        object_placeholders: 0,
    }
}

pub open spec fn tally_add(a: BlockTally, b: BlockTally) -> BlockTally {
    BlockTally {
        blocks: a.blocks + b.blocks,
        paragraphs: a.paragraphs + b.paragraphs,
        tables: a.tables + b.tables,
        table_cells: a.table_cells + b.table_cells,
        equations: a.equations + b.equations,
        pictures: a.pictures + b.pictures,
        object_placeholders: a.object_placeholders + b.object_placeholders,
    }
}

/// The number of cells of a table's text rows.
pub open spec fn row_cells(rows: Seq<Vec<String>>) -> nat
    decreases rows.len(),
{
    if rows.len() == 0 {
        0
    } else {
        row_cells(rows.drop_last()) + rows.last()@.len()
    }
}

/// The counts of one block and everything inside it.
pub open spec fn tally_block(b: TemplateBlock) -> BlockTally
    decreases b, 0nat,
{
    match b {
        TemplateBlock::Paragraph { .. } => BlockTally { blocks: 1, paragraphs: 1, ..tally_zero() },
        TemplateBlock::Table { rows, cell_blocks, .. } => tally_add(
            BlockTally { blocks: 1, tables: 1, table_cells: row_cells(rows@), ..tally_zero() },
            tally_cell_rows(cell_blocks@),
        ),
        TemplateBlock::Equation { .. } => BlockTally { blocks: 1, equations: 1, ..tally_zero() },
        TemplateBlock::Picture { .. } => BlockTally { blocks: 1, pictures: 1, ..tally_zero() },
        TemplateBlock::ObjectPlaceholder { children, .. } => tally_add(
            BlockTally { blocks: 1, object_placeholders: 1, ..tally_zero() },
            tally_blocks(children@),
        ),
    }
}

/// The counts of a sequence of blocks.
pub open spec fn tally_blocks(s: Seq<TemplateBlock>) -> BlockTally
    decreases s, 1nat,
{
    if s.len() == 0 {
        tally_zero()
    } else {
        tally_add(tally_blocks(s.drop_last()), tally_block(s.last()))
    }
}

/// The counts of the cells of one table row.
pub open spec fn tally_cells(cells: Seq<Vec<TemplateBlock>>) -> BlockTally
    decreases cells, 1nat,
{
    if cells.len() == 0 {
        tally_zero()
    } else {
        tally_add(tally_cells(cells.drop_last()), tally_blocks(cells.last()@))
    }
}

/// The counts of the cells of a table.
pub open spec fn tally_cell_rows(rows: Seq<Vec<Vec<TemplateBlock>>>) -> BlockTally
    decreases rows, 1nat,
{
    if rows.len() == 0 {
        tally_zero()
    } else {
        tally_add(tally_cell_rows(rows.drop_last()), tally_cells(rows.last()@))
    }
}

pub open spec fn tally_le(a: BlockTally, b: BlockTally) -> bool {
    &&& a.blocks <= b.blocks
    &&& a.paragraphs <= b.paragraphs
    &&& a.tables <= b.tables
    &&& a.table_cells <= b.table_cells
    &&& a.equations <= b.equations
    &&& a.pictures <= b.pictures
    &&& a.object_placeholders <= b.object_placeholders
}

/// Adding `t` to the block counters of `stats` stays within `usize`.
pub open spec fn tally_fits(stats: TemplateStats, t: BlockTally) -> bool {
    &&& stats.block_count + t.blocks <= usize::MAX
    &&& stats.paragraph_count + t.paragraphs <= usize::MAX
    &&& stats.table_count + t.tables <= usize::MAX
    &&& stats.table_cell_count + t.table_cells <= usize::MAX
    &&& stats.equation_count + t.equations <= usize::MAX
    &&& stats.picture_count + t.pictures <= usize::MAX
    &&& stats.object_placeholder_count + t.object_placeholders <= usize::MAX
}

/// `after` is `before` with `t` added to its block counters; the other
/// fields are kept.
pub open spec fn tally_added(before: TemplateStats, t: BlockTally, after: TemplateStats) -> bool {
    &&& after.block_count == before.block_count + t.blocks
    &&& after.paragraph_count == before.paragraph_count + t.paragraphs
    &&& after.table_count == before.table_count + t.tables
    &&& after.table_cell_count == before.table_cell_count + t.table_cells
    &&& after.equation_count == before.equation_count + t.equations
    &&& after.picture_count == before.picture_count + t.pictures
    &&& after.object_placeholder_count == before.object_placeholder_count + t.object_placeholders
    &&& after.section_count == before.section_count
    &&& after.char_shape_count == before.char_shape_count
    &&& after.para_shape_count == before.para_shape_count
    &&& after.style_count == before.style_count
    &&& after.header_count == before.header_count
    &&& after.footer_count == before.footer_count
    &&& after.master_page_count == before.master_page_count
}

proof fn lemma_tally_blocks_prefix(s: Seq<TemplateBlock>, i: int)
    requires
        0 <= i <= s.len(),
    ensures
        tally_le(tally_blocks(s.subrange(0, i)), tally_blocks(s)),
    decreases s.len() - i,
{
    if i < s.len() {
        lemma_tally_blocks_prefix(s, i + 1);
        assert(s.subrange(0, i + 1).drop_last() =~= s.subrange(0, i));
    } else {
        assert(s.subrange(0, i) =~= s);
    }
}

proof fn lemma_tally_cells_prefix(s: Seq<Vec<TemplateBlock>>, i: int)
    requires
        0 <= i <= s.len(),
    ensures
        tally_le(tally_cells(s.subrange(0, i)), tally_cells(s)),
    decreases s.len() - i,
{
    if i < s.len() {
        lemma_tally_cells_prefix(s, i + 1);
        assert(s.subrange(0, i + 1).drop_last() =~= s.subrange(0, i));
    } else {
        assert(s.subrange(0, i) =~= s);
    }
}

proof fn lemma_tally_cell_rows_prefix(s: Seq<Vec<Vec<TemplateBlock>>>, i: int)
    requires
        0 <= i <= s.len(),
    ensures
        tally_le(tally_cell_rows(s.subrange(0, i)), tally_cell_rows(s)),
    decreases s.len() - i,
{
    if i < s.len() {
        lemma_tally_cell_rows_prefix(s, i + 1);
        assert(s.subrange(0, i + 1).drop_last() =~= s.subrange(0, i));
    } else {
        assert(s.subrange(0, i) =~= s);
    }
}

proof fn lemma_row_cells_prefix(s: Seq<Vec<String>>, i: int)
    requires
        0 <= i <= s.len(),
    ensures
        row_cells(s.subrange(0, i)) <= row_cells(s),
    decreases s.len() - i,
{
    if i < s.len() {
        lemma_row_cells_prefix(s, i + 1);
        assert(s.subrange(0, i + 1).drop_last() =~= s.subrange(0, i));
    } else {
        assert(s.subrange(0, i) =~= s);
    }
}

/// The number of cells of a table's text rows.
fn count_row_cells(rows: &Vec<Vec<String>>) -> (r: usize)
    requires
        row_cells(rows@) <= usize::MAX,
    ensures
        r == row_cells(rows@),
{
    let mut total: usize = 0;
    let mut i: usize = 0;
    while i < rows.len()
        invariant
            i <= rows@.len(),
            row_cells(rows@) <= usize::MAX,
            total == row_cells(rows@.subrange(0, i as int)),
        decreases rows@.len() - i,
    {
        proof {
            lemma_row_cells_prefix(rows@, i + 1);
            assert(rows@.subrange(0, i + 1).drop_last() =~= rows@.subrange(0, i as int));
        }
        total = total + rows[i].len();
        i = i + 1;
    }
    assert(rows@.subrange(0, i as int) =~= rows@);
    total
}

/// Adds the counts of `blocks` (and of everything inside them) to `stats`.
fn accumulate_block_stats(blocks: &[TemplateBlock], stats: &mut TemplateStats)
    requires
        tally_fits(*old(stats), tally_blocks(blocks@)),
    ensures
        tally_added(*old(stats), tally_blocks(blocks@), *final(stats)),
    decreases blocks@, 1nat,
{
    let n = blocks.len();
    let mut i: usize = 0;
    while i < n
        invariant
            n == blocks@.len(),
            i <= n,
            tally_fits(*old(stats), tally_blocks(blocks@)),
            tally_added(*old(stats), tally_blocks(blocks@.subrange(0, i as int)), *stats),
        decreases n - i,
    {
        proof {
            lemma_tally_blocks_prefix(blocks@, i + 1);
            assert(blocks@.subrange(0, i + 1).drop_last() =~= blocks@.subrange(0, i as int));
        }
        accumulate_one_block_stats(&blocks[i], stats);
        i = i + 1;
    }
    assert(blocks@.subrange(0, n as int) =~= blocks@);
}

/// Adds the counts of one block and everything inside it to `stats`.
fn accumulate_one_block_stats(block: &TemplateBlock, stats: &mut TemplateStats)
    requires
        tally_fits(*old(stats), tally_block(*block)),
    ensures
        tally_added(*old(stats), tally_block(*block), *final(stats)),
    decreases *block, 0nat,
{
    stats.block_count = stats.block_count + 1;
    match block {
        TemplateBlock::Paragraph { .. } => {
            stats.paragraph_count = stats.paragraph_count + 1;
        },
        TemplateBlock::Table { rows, cell_blocks, .. } => {
            stats.table_count = stats.table_count + 1;
            let cells = count_row_cells(rows);
            stats.table_cell_count = stats.table_cell_count + cells;
            let ghost base = *stats;
            assert(decreases_to!(*block => cell_blocks@));
            let nr = cell_blocks.len();
            let mut r: usize = 0;
            while r < nr
                invariant
                    nr == cell_blocks@.len(),
                    r <= nr,
                    decreases_to!(*block => cell_blocks@),
                    tally_fits(base, tally_cell_rows(cell_blocks@)),
                    tally_added(base, tally_cell_rows(cell_blocks@.subrange(0, r as int)), *stats),
                decreases nr - r,
            {
                proof {
                    lemma_tally_cell_rows_prefix(cell_blocks@, r + 1);
                    assert(cell_blocks@.subrange(0, r + 1).drop_last() =~= cell_blocks@.subrange(
                        0,
                        r as int,
                    ));
                }
                let row = &cell_blocks[r];
                assert(decreases_to!(*block => row@)) by {
                    assert(decreases_to!(cell_blocks@ => cell_blocks@[r as int]));
                    assert(decreases_to!(cell_blocks@[r as int] => cell_blocks@[r as int]@));
                }
                let ghost row_base = *stats;
                let nc = row.len();
                let mut c: usize = 0;
                while c < nc
                    invariant
                        nc == row@.len(),
                        c <= nc,
                        decreases_to!(*block => row@),
                        tally_fits(row_base, tally_cells(row@)),
                        tally_added(row_base, tally_cells(row@.subrange(0, c as int)), *stats),
                    decreases nc - c,
                {
                    proof {
                        lemma_tally_cells_prefix(row@, c + 1);
                        assert(row@.subrange(0, c + 1).drop_last() =~= row@.subrange(0, c as int));
                    }
                    assert(decreases_to!(*block => row[c as int]@)) by {
                        assert(decreases_to!(row@ => row@[c as int]));
                        assert(decreases_to!(row@[c as int] => row@[c as int]@));
                    }
                    accumulate_block_stats(row[c].as_slice(), stats);
                    c = c + 1;
                }
                assert(row@.subrange(0, nc as int) =~= row@);
                r = r + 1;
            }
            assert(cell_blocks@.subrange(0, nr as int) =~= cell_blocks@);
        },
        TemplateBlock::Equation { .. } => {
            stats.equation_count = stats.equation_count + 1;
        },
        TemplateBlock::Picture { .. } => {
            stats.picture_count = stats.picture_count + 1;
        },
        TemplateBlock::ObjectPlaceholder { children, .. } => {
            stats.object_placeholder_count = stats.object_placeholder_count + 1;
            accumulate_block_stats(children.as_slice(), stats);
        },
    }
}

/// The counts of the blocks of every element.
pub open spec fn tally_sections(s: Seq<TemplateSection>) -> BlockTally
    decreases s.len(),
{
    if s.len() == 0 {
        tally_zero()
    } else {
        tally_add(tally_sections(s.drop_last()), tally_blocks(s.last().blocks@))
    }
}

proof fn lemma_tally_sections_prefix(s: Seq<TemplateSection>, i: int)
    requires
        0 <= i <= s.len(),
    ensures
        tally_le(tally_sections(s.subrange(0, i)), tally_sections(s)),
    decreases s.len() - i,
{
    if i < s.len() {
        lemma_tally_sections_prefix(s, i + 1);
        assert(s.subrange(0, i + 1).drop_last() =~= s.subrange(0, i));
    } else {
        assert(s.subrange(0, i) =~= s);
    }
}

fn accumulate_sections(items: &Vec<TemplateSection>, stats: &mut TemplateStats)
    requires
        tally_fits(*old(stats), tally_sections(items@)),
    ensures
        tally_added(*old(stats), tally_sections(items@), *final(stats)),
{
    let n = items.len();
    let mut i: usize = 0;
    while i < n
        invariant
            n == items@.len(),
            i <= n,
            tally_fits(*old(stats), tally_sections(items@)),
            tally_added(*old(stats), tally_sections(items@.subrange(0, i as int)), *stats),
        decreases n - i,
    {
        proof {
            lemma_tally_sections_prefix(items@, i + 1);
            assert(items@.subrange(0, i + 1).drop_last() =~= items@.subrange(0, i as int));
        }
        accumulate_block_stats(items[i].blocks.as_slice(), stats);
        i = i + 1;
    }
    assert(items@.subrange(0, n as int) =~= items@);
}

/// The counts of the blocks of every element.
pub open spec fn tally_header_footers(s: Seq<TemplateHeaderFooter>) -> BlockTally
    decreases s.len(),
{
    if s.len() == 0 {
        tally_zero()
    } else {
        tally_add(tally_header_footers(s.drop_last()), tally_blocks(s.last().blocks@))
    }
}

proof fn lemma_tally_header_footers_prefix(s: Seq<TemplateHeaderFooter>, i: int)
    requires
        0 <= i <= s.len(),
    ensures
        tally_le(tally_header_footers(s.subrange(0, i)), tally_header_footers(s)),
    decreases s.len() - i,
{
    if i < s.len() {
        lemma_tally_header_footers_prefix(s, i + 1);
        assert(s.subrange(0, i + 1).drop_last() =~= s.subrange(0, i));
    } else {
        assert(s.subrange(0, i) =~= s);
    }
}

fn accumulate_header_footers(items: &Vec<TemplateHeaderFooter>, stats: &mut TemplateStats)
    requires
        tally_fits(*old(stats), tally_header_footers(items@)),
    ensures
        tally_added(*old(stats), tally_header_footers(items@), *final(stats)),
{
    let n = items.len();
    let mut i: usize = 0;
    while i < n
        invariant
            n == items@.len(),
            i <= n,
            tally_fits(*old(stats), tally_header_footers(items@)),
            tally_added(*old(stats), tally_header_footers(items@.subrange(0, i as int)), *stats),
        decreases n - i,
    {
        proof {
            lemma_tally_header_footers_prefix(items@, i + 1);
            assert(items@.subrange(0, i + 1).drop_last() =~= items@.subrange(0, i as int));
        }
        accumulate_block_stats(items[i].blocks.as_slice(), stats);
        i = i + 1;
    }
    assert(items@.subrange(0, n as int) =~= items@);
}

/// The counts of the blocks of every element.
pub open spec fn tally_master_pages(s: Seq<TemplateMasterPage>) -> BlockTally
    decreases s.len(),
{
    if s.len() == 0 {
        tally_zero()
    } else {
        tally_add(tally_master_pages(s.drop_last()), tally_blocks(s.last().blocks@))
    }
}

proof fn lemma_tally_master_pages_prefix(s: Seq<TemplateMasterPage>, i: int)
    requires
        0 <= i <= s.len(),
    ensures
        tally_le(tally_master_pages(s.subrange(0, i)), tally_master_pages(s)),
    decreases s.len() - i,
{
    if i < s.len() {
        lemma_tally_master_pages_prefix(s, i + 1);
        assert(s.subrange(0, i + 1).drop_last() =~= s.subrange(0, i));
    } else {
        assert(s.subrange(0, i) =~= s);
    }
}

fn accumulate_master_pages(items: &Vec<TemplateMasterPage>, stats: &mut TemplateStats)
    requires
        tally_fits(*old(stats), tally_master_pages(items@)),
    ensures
        tally_added(*old(stats), tally_master_pages(items@), *final(stats)),
{
    let n = items.len();
    let mut i: usize = 0;
    while i < n
        invariant
            n == items@.len(),
            i <= n,
            tally_fits(*old(stats), tally_master_pages(items@)),
            tally_added(*old(stats), tally_master_pages(items@.subrange(0, i as int)), *stats),
        decreases n - i,
    {
        proof {
            lemma_tally_master_pages_prefix(items@, i + 1);
            assert(items@.subrange(0, i + 1).drop_last() =~= items@.subrange(0, i as int));
        }
        accumulate_block_stats(items[i].blocks.as_slice(), stats);
        i = i + 1;
    }
    assert(items@.subrange(0, n as int) =~= items@);
}

/// The counts of every block of a template: those of its sections, headers,
/// footers and master pages.
pub open spec fn template_tally(t: DocumentTemplate) -> BlockTally {
    tally_add(
        tally_add(
            tally_add(tally_sections(t.sections@), tally_header_footers(t.headers@)),
            tally_header_footers(t.footers@),
        ),
        tally_master_pages(t.master_pages@),
    )
}

/// Statistics with every counter at zero.
pub open spec fn stats_zero() -> TemplateStats {
    TemplateStats {
        section_count: 0,
        block_count: 0,
        paragraph_count: 0,
        table_count: 0,
        table_cell_count: 0,
        equation_count: 0,
        picture_count: 0,
        object_placeholder_count: 0,
        char_shape_count: 0,
        para_shape_count: 0,
        style_count: 0,
        header_count: 0,
        footer_count: 0,
        master_page_count: 0,
    }
}

/// The block counters of a template fit in `usize`.
pub open spec fn template_tally_fits(t: DocumentTemplate) -> bool {
    tally_fits(stats_zero(), template_tally(t))
}

/// `r` is the statistics of `t`: the lengths of its lists, and the block
/// counters of every section, header, footer and master page added up.
pub open spec fn template_stats_of(t: DocumentTemplate, r: TemplateStats) -> bool {
    &&& r.section_count == t.sections@.len()
    &&& r.char_shape_count == t.char_shapes@.len()
    &&& r.para_shape_count == t.para_shapes@.len()
    &&& r.style_count == t.styles@.len()
    &&& r.header_count == t.headers@.len()
    &&& r.footer_count == t.footers@.len()
    &&& r.master_page_count == t.master_pages@.len()
    &&& tally_added(
        TemplateStats {
            section_count: r.section_count,
            char_shape_count: r.char_shape_count,
            para_shape_count: r.para_shape_count,
            style_count: r.style_count,
            header_count: r.header_count,
            footer_count: r.footer_count,
            master_page_count: r.master_page_count,
            ..stats_zero()
        },
        template_tally(t),
        r,
    )
}

/// How many sections, shapes, styles, headers, footers and master pages a
/// template has, and how many blocks of each kind at every depth.
pub fn template_stats(template: &DocumentTemplate) -> (r: TemplateStats)
    requires
        template_tally_fits(*template),
    ensures
        r.section_count == template.sections@.len(),
        r.char_shape_count == template.char_shapes@.len(),
        r.para_shape_count == template.para_shapes@.len(),
        r.style_count == template.styles@.len(),
        r.header_count == template.headers@.len(),
        r.footer_count == template.footers@.len(),
        r.master_page_count == template.master_pages@.len(),
        tally_added(
            TemplateStats {
                section_count: r.section_count,
                char_shape_count: r.char_shape_count,
                para_shape_count: r.para_shape_count,
                style_count: r.style_count,
                header_count: r.header_count,
                footer_count: r.footer_count,
                master_page_count: r.master_page_count,
                ..stats_zero()
            },
            template_tally(*template),
            r,
        ),
        r.block_count == r.paragraph_count + r.table_count + r.equation_count + r.picture_count
            + r.object_placeholder_count,
        template_stats_of(*template, r),
{
    proof {
        lemma_template_blocks_balanced(*template);
    }
    let mut stats = TemplateStats {
        section_count: template.sections.len(),
        block_count: 0,
        paragraph_count: 0,
        table_count: 0,
        table_cell_count: 0,
        equation_count: 0,
        picture_count: 0,
        object_placeholder_count: 0,
        char_shape_count: template.char_shapes.len(),
        para_shape_count: template.para_shapes.len(),
        style_count: template.styles.len(),
        header_count: template.headers.len(),
        footer_count: template.footers.len(),
        master_page_count: template.master_pages.len(),
    };
    let ghost t = template_tally(*template);
    let ghost ts = tally_sections(template.sections@);
    let ghost th = tally_header_footers(template.headers@);
    let ghost tf = tally_header_footers(template.footers@);
    accumulate_sections(&template.sections, &mut stats);
    accumulate_header_footers(&template.headers, &mut stats);
    accumulate_header_footers(&template.footers, &mut stats);
    accumulate_master_pages(&template.master_pages, &mut stats);
    stats
}

// ---------------------------------------------------------------------------
// Every block is of one kind
// ---------------------------------------------------------------------------

/// Whether a tally's block count is the sum of its counts by kind.
pub open spec fn tally_balanced(t: BlockTally) -> bool {
    t.blocks == t.paragraphs + t.tables + t.equations + t.pictures + t.object_placeholders
}

proof fn lemma_block_balanced(b: TemplateBlock)
    ensures
        tally_balanced(tally_block(b)),
    decreases b, 0nat,
{
    match b {
        TemplateBlock::Table { cell_blocks, .. } => {
            lemma_cell_rows_balanced(cell_blocks@);
        },
        TemplateBlock::ObjectPlaceholder { children, .. } => {
            lemma_blocks_balanced(children@);
        },
        _ => {},
    }
}

proof fn lemma_blocks_balanced(s: Seq<TemplateBlock>)
    ensures
        tally_balanced(tally_blocks(s)),
    decreases s, 1nat,
{
    if s.len() > 0 {
        lemma_blocks_balanced(s.drop_last());
        lemma_block_balanced(s.last());
    }
}

proof fn lemma_cells_balanced(cells: Seq<Vec<TemplateBlock>>)
    ensures
        tally_balanced(tally_cells(cells)),
    decreases cells, 1nat,
{
    if cells.len() > 0 {
        lemma_cells_balanced(cells.drop_last());
        lemma_blocks_balanced(cells.last()@);
    }
}

proof fn lemma_cell_rows_balanced(rows: Seq<Vec<Vec<TemplateBlock>>>)
    ensures
        tally_balanced(tally_cell_rows(rows)),
    decreases rows, 1nat,
{
    if rows.len() > 0 {
        lemma_cell_rows_balanced(rows.drop_last());
        lemma_cells_balanced(rows.last()@);
    }
}

proof fn lemma_sections_balanced(s: Seq<TemplateSection>)
    ensures
        tally_balanced(tally_sections(s)),
    decreases s.len(),
{
    if s.len() > 0 {
        lemma_sections_balanced(s.drop_last());
        lemma_blocks_balanced(s.last().blocks@);
    }
}

proof fn lemma_header_footers_balanced(s: Seq<TemplateHeaderFooter>)
    ensures
        tally_balanced(tally_header_footers(s)),
    decreases s.len(),
{
    if s.len() > 0 {
        lemma_header_footers_balanced(s.drop_last());
        lemma_blocks_balanced(s.last().blocks@);
    }
}

proof fn lemma_master_pages_balanced(s: Seq<TemplateMasterPage>)
    ensures
        tally_balanced(tally_master_pages(s)),
    decreases s.len(),
{
    if s.len() > 0 {
        lemma_master_pages_balanced(s.drop_last());
        lemma_blocks_balanced(s.last().blocks@);
    }
}

/// Every block of a template is a paragraph, a table, an equation, a
/// picture or an object placeholder: its block count is the sum of those
/// five counts.
pub proof fn lemma_template_blocks_balanced(t: DocumentTemplate)
    ensures
        tally_balanced(template_tally(t)),
{
    lemma_sections_balanced(t.sections@);
    lemma_header_footers_balanced(t.headers@);
    lemma_header_footers_balanced(t.footers@);
    lemma_master_pages_balanced(t.master_pages@);
}

/// A template with one more footer has one more footer, and each of its
/// block counters grows by what that footer's blocks hold: nothing of a
/// footer goes uncounted, and nothing else changes.
pub proof fn lemma_added_footer_counted(
    t: DocumentTemplate,
    t2: DocumentTemplate,
    x: TemplateHeaderFooter,
    r: TemplateStats,
    r2: TemplateStats,
)
    requires
        t2.footers@ == t.footers@.push(x),
        t2.sections@ == t.sections@,
        t2.headers@ == t.headers@,
        t2.master_pages@ == t.master_pages@,
        template_stats_of(t, r),
        template_stats_of(t2, r2),
    ensures
        r2.footer_count == r.footer_count + 1,
        r2.block_count == r.block_count + tally_blocks(x.blocks@).blocks,
        r2.paragraph_count == r.paragraph_count + tally_blocks(x.blocks@).paragraphs,
        r2.table_count == r.table_count + tally_blocks(x.blocks@).tables,
        r2.table_cell_count == r.table_cell_count + tally_blocks(x.blocks@).table_cells,
        r2.equation_count == r.equation_count + tally_blocks(x.blocks@).equations,
        r2.picture_count == r.picture_count + tally_blocks(x.blocks@).pictures,
        r2.object_placeholder_count == r.object_placeholder_count + tally_blocks(
            x.blocks@,
        ).object_placeholders,
{
    assert(t2.footers@.drop_last() =~= t.footers@);
}

/// A template with one more header has one more header, and each of its
/// block counters grows by what that header's blocks hold: nothing of a
/// header goes uncounted, and nothing else changes.
pub proof fn lemma_added_header_counted(
    t: DocumentTemplate,
    t2: DocumentTemplate,
    x: TemplateHeaderFooter,
    r: TemplateStats,
    r2: TemplateStats,
)
    requires
        t2.headers@ == t.headers@.push(x),
        t2.sections@ == t.sections@,
        t2.footers@ == t.footers@,
        t2.master_pages@ == t.master_pages@,
        template_stats_of(t, r),
        template_stats_of(t2, r2),
    ensures
        r2.header_count == r.header_count + 1,
        r2.block_count == r.block_count + tally_blocks(x.blocks@).blocks,
        r2.paragraph_count == r.paragraph_count + tally_blocks(x.blocks@).paragraphs,
        r2.table_count == r.table_count + tally_blocks(x.blocks@).tables,
        r2.table_cell_count == r.table_cell_count + tally_blocks(x.blocks@).table_cells,
        r2.equation_count == r.equation_count + tally_blocks(x.blocks@).equations,
        r2.picture_count == r.picture_count + tally_blocks(x.blocks@).pictures,
        r2.object_placeholder_count == r.object_placeholder_count + tally_blocks(
            x.blocks@,
        ).object_placeholders,
{
    assert(t2.headers@.drop_last() =~= t.headers@);
}

/// A template with one more master page has one more master page, and each of its
/// block counters grows by what that master page's blocks hold: nothing of a
/// master page goes uncounted, and nothing else changes.
pub proof fn lemma_added_master_page_counted(
    t: DocumentTemplate,
    t2: DocumentTemplate,
    x: TemplateMasterPage,
    r: TemplateStats,
    r2: TemplateStats,
)
    requires
        t2.master_pages@ == t.master_pages@.push(x),
        t2.sections@ == t.sections@,
        t2.headers@ == t.headers@,
        t2.footers@ == t.footers@,
        template_stats_of(t, r),
        template_stats_of(t2, r2),
    ensures
        r2.master_page_count == r.master_page_count + 1,
        r2.block_count == r.block_count + tally_blocks(x.blocks@).blocks,
        r2.paragraph_count == r.paragraph_count + tally_blocks(x.blocks@).paragraphs,
        r2.table_count == r.table_count + tally_blocks(x.blocks@).tables,
        r2.table_cell_count == r.table_cell_count + tally_blocks(x.blocks@).table_cells,
        r2.equation_count == r.equation_count + tally_blocks(x.blocks@).equations,
        r2.picture_count == r.picture_count + tally_blocks(x.blocks@).pictures,
        r2.object_placeholder_count == r.object_placeholder_count + tally_blocks(
            x.blocks@,
        ).object_placeholders,
{
    assert(t2.master_pages@.drop_last() =~= t.master_pages@);
}

/// A template with one more section has one more section, and each of its
/// block counters grows by what that section's blocks hold: nothing of a
/// section goes uncounted, and nothing else changes.
pub proof fn lemma_added_section_counted(
    t: DocumentTemplate,
    t2: DocumentTemplate,
    x: TemplateSection,
    r: TemplateStats,
    r2: TemplateStats,
)
    requires
        t2.sections@ == t.sections@.push(x),
        t2.headers@ == t.headers@,
        t2.footers@ == t.footers@,
        t2.master_pages@ == t.master_pages@,
        template_stats_of(t, r),
        template_stats_of(t2, r2),
    ensures
        r2.section_count == r.section_count + 1,
        r2.block_count == r.block_count + tally_blocks(x.blocks@).blocks,
        r2.paragraph_count == r.paragraph_count + tally_blocks(x.blocks@).paragraphs,
        r2.table_count == r.table_count + tally_blocks(x.blocks@).tables,
        r2.table_cell_count == r.table_cell_count + tally_blocks(x.blocks@).table_cells,
        r2.equation_count == r.equation_count + tally_blocks(x.blocks@).equations,
        r2.picture_count == r.picture_count + tally_blocks(x.blocks@).pictures,
        r2.object_placeholder_count == r.object_placeholder_count + tally_blocks(
            x.blocks@,
        ).object_placeholders,
{
    assert(t2.sections@.drop_last() =~= t.sections@);
}

/// A paragraph adds exactly one block and one paragraph to the counts of a
/// list of blocks; an equation one block and one equation; a picture one
/// block and one picture. The other counters stay.
pub proof fn lemma_leaf_block_counted(s: Seq<TemplateBlock>, b: TemplateBlock)
    ensures
        ({
            let before = tally_blocks(s);
            let after = tally_blocks(s.push(b));
            &&& (b is Paragraph || b is Equation || b is Picture) ==> {
                &&& after.blocks == before.blocks + 1
                &&& after.paragraphs == before.paragraphs + if b is Paragraph { 1int } else { 0int }
                &&& after.equations == before.equations + if b is Equation { 1int } else { 0int }
                &&& after.pictures == before.pictures + if b is Picture { 1int } else { 0int }
                &&& after.tables == before.tables
                &&& after.table_cells == before.table_cells
                &&& after.object_placeholders == before.object_placeholders
            }
        }),
{
    assert(s.push(b).drop_last() =~= s);
    assert(tally_blocks(s.push(b)) == tally_add(tally_blocks(s), tally_block(b)));
}

} // verus!
