//! Page hints: on which page of the laid-out source each paragraph and each
//! object control first appears, used to place page breaks in a template.

use super::objects::{i32_of_bits, reinterpret_u32};
use crate::model::{Control, PageItem, Paragraph, Picture};
use crate::text::{trim_seq, trim_str};
use vstd::prelude::*;

verus! {

/// An object's offset from the page body, in HWP units, when one was found.
#[derive(Debug, Clone, Copy, Default, PartialEq, Eq, Structural)]
pub struct TemplateControlOffsetHint {
    pub horizontal_offset: Option<u32>,
    pub vertical_offset: Option<u32>,
}

/// The first page of each paragraph and of each control of a paragraph.
#[derive(Debug, Clone, Default)]
pub struct TemplatePageHints {
    pub paragraph_pages: Vec<Option<u32>>,
    pub control_pages: Vec<Vec<Option<u32>>>,
    pub control_offsets: Vec<Vec<Option<TemplateControlOffsetHint>>>,
}

/// The control pages as sequences.
pub open spec fn control_pages_view(h: TemplatePageHints) -> Seq<Seq<Option<u32>>> {
    h.control_pages@.map_values(|v: Vec<Option<u32>>| v@)
}

/// Records that paragraph `para_idx` appears on page `page_idx`, unless an
/// earlier page was recorded (or there is no such paragraph).
pub fn note_paragraph_page(hints: &mut TemplatePageHints, para_idx: usize, page_idx: u32)
    ensures
        final(hints).paragraph_pages@ == if para_idx < old(hints).paragraph_pages@.len()
            && old(hints).paragraph_pages@[para_idx as int] is None {
            old(hints).paragraph_pages@.update(para_idx as int, Some(page_idx))
        } else {
            old(hints).paragraph_pages@
        },
        final(hints).control_pages == old(hints).control_pages,
        final(hints).control_offsets == old(hints).control_offsets,
{
    if para_idx < hints.paragraph_pages.len() && hints.paragraph_pages[para_idx].is_none() {
        hints.paragraph_pages.set(para_idx, Some(page_idx));
    }
}

/// Records that control `control_idx` of paragraph `para_idx` appears on
/// page `page_idx`, unless an earlier page was recorded (or there is no such
/// control).
pub fn note_control_page(
    hints: &mut TemplatePageHints,
    para_idx: usize,
    control_idx: usize,
    page_idx: u32,
)
    ensures
        final(hints).paragraph_pages == old(hints).paragraph_pages,
        final(hints).control_offsets == old(hints).control_offsets,
        final(hints).control_pages@.len() == old(hints).control_pages@.len(),
        control_pages_view(*final(hints)) == if para_idx < old(hints).control_pages@.len()
            && control_idx < old(hints).control_pages@[para_idx as int]@.len()
            && old(hints).control_pages@[para_idx as int]@[control_idx as int] is None {
            control_pages_view(*old(hints)).update(
                para_idx as int,
                control_pages_view(*old(hints))[para_idx as int].update(
                    control_idx as int,
                    Some(page_idx),
                ),
            )
        } else {
            control_pages_view(*old(hints))
        },
{
    if para_idx < hints.control_pages.len() && control_idx < hints.control_pages[para_idx].len()
        && hints.control_pages[para_idx][control_idx].is_none() {
        let ghost before = control_pages_view(*hints);
        let mut row: Vec<Option<u32>> = Vec::new();
        std::mem::swap(&mut row, &mut hints.control_pages[para_idx]);
        let ghost old_row = row@;
        row.set(control_idx, Some(page_idx));
        hints.control_pages.set(para_idx, row);
        assert(control_pages_view(*hints) =~= before.update(
            para_idx as int,
            before[para_idx as int].update(control_idx as int, Some(page_idx)),
        ));
    }
}

/// The paragraph a page item shows (all but an endnote separator show one).
pub open spec fn item_para(item: PageItem) -> Option<nat> {
    match item {
        PageItem::FullParagraph { para_index } => Some(para_index as nat),
        PageItem::PartialParagraph { para_index } => Some(para_index as nat),
        PageItem::Table { para_index, .. } => Some(para_index as nat),
        PageItem::PartialTable { para_index, .. } => Some(para_index as nat),
        PageItem::Shape { para_index, .. } => Some(para_index as nat),
        PageItem::EndnoteSeparator => None,
    }
}

/// The control (paragraph, control) a page item shows, for tables and shapes.
pub open spec fn item_control(item: PageItem) -> Option<(nat, nat)> {
    match item {
        PageItem::Table { para_index, control_index } => Some(
            (para_index as nat, control_index as nat),
        ),
        PageItem::PartialTable { para_index, control_index } => Some(
            (para_index as nat, control_index as nat),
        ),
        PageItem::Shape { para_index, control_index } => Some(
            (para_index as nat, control_index as nat),
        ),
        _ => None,
    }
}

/// `after` is `before` with page `k` recorded for every paragraph for which
/// `seen` holds and no page was recorded yet.
pub open spec fn noted_paras(
    before: Seq<Option<u32>>,
    after: Seq<Option<u32>>,
    k: u32,
    seen: spec_fn(nat) -> bool,
) -> bool {
    &&& after.len() == before.len()
    &&& forall|p: int|
        0 <= p < before.len() ==> #[trigger] after[p] == if before[p] is Some {
            before[p]
        } else if seen(p as nat) {
            Some(k)
        } else {
            None
        }
}

/// The same for controls; the table keeps its shape.
pub open spec fn noted_controls(
    before: Seq<Seq<Option<u32>>>,
    after: Seq<Seq<Option<u32>>>,
    k: u32,
    seen: spec_fn(nat, nat) -> bool,
) -> bool {
    &&& after.len() == before.len()
    &&& forall|p: int| 0 <= p < before.len() ==> #[trigger] after[p].len() == before[p].len()
    &&& forall|p: int, c: int|
        0 <= p < before.len() && 0 <= c < before[p].len() ==> #[trigger] after[p][c] == if before[p][c] is Some {
            before[p][c]
        } else if seen(p as nat, c as nat) {
            Some(k)
        } else {
            None
        }
}

/// Takes note of one page item on page `page_idx`.
pub fn note_page_hint(hints: &mut TemplatePageHints, item: &PageItem, page_idx: u32)
    ensures
        noted_paras(
            old(hints).paragraph_pages@,
            final(hints).paragraph_pages@,
            page_idx,
            |p: nat| item_para(*item) == Some(p),
        ),
        noted_controls(
            control_pages_view(*old(hints)),
            control_pages_view(*final(hints)),
            page_idx,
            |p: nat, c: nat| item_control(*item) == Some((p, c)),
        ),
        final(hints).control_offsets == old(hints).control_offsets,
{
    match item {
        PageItem::FullParagraph { para_index } | PageItem::PartialParagraph { para_index } => {
            note_paragraph_page(hints, *para_index, page_idx);
        },
        PageItem::Table { para_index, control_index }
        | PageItem::PartialTable { para_index, control_index }
        | PageItem::Shape { para_index, control_index } => {
            note_paragraph_page(hints, *para_index, page_idx);
            note_control_page(hints, *para_index, *control_index, page_idx);
        },
        PageItem::EndnoteSeparator => {},
    }
}

/// The first page of a paragraph, when the hints know it.
pub fn paragraph_page_hint(page_hints: Option<&TemplatePageHints>, para_idx: usize) -> (r: Option<u32>)
    ensures
        r == match page_hints {
            Some(h) => if para_idx < h.paragraph_pages@.len() {
                h.paragraph_pages@[para_idx as int]
            } else {
                None
            },
            None => None,
        },
{
    match page_hints {
        Some(h) => if para_idx < h.paragraph_pages.len() {
            h.paragraph_pages[para_idx]
        } else {
            None
        },
        None => None,
    }
}

/// The first page of a control, when the hints know it.
pub fn control_page_hint(page_hints: Option<&TemplatePageHints>, para_idx: usize, control_idx: usize) -> (r: Option<u32>)
    ensures
        r == match page_hints {
            Some(h) => if para_idx < h.control_pages@.len() && control_idx < h.control_pages@[para_idx as int]@.len() {
                h.control_pages@[para_idx as int]@[control_idx as int]
            } else {
                None
            },
            None => None,
        },
{
    match page_hints {
        Some(h) => if para_idx < h.control_pages.len() && control_idx < h.control_pages[para_idx].len() {
            h.control_pages[para_idx][control_idx]
        } else {
            None
        },
        None => None,
    }
}

/// The offset of a control from the page body, when the hints know it.
pub fn control_offset_hint(page_hints: Option<&TemplatePageHints>, para_idx: usize, control_idx: usize) -> (r: Option<TemplateControlOffsetHint>)
    ensures
        r == match page_hints {
            Some(h) => if para_idx < h.control_offsets@.len() && control_idx < h.control_offsets@[para_idx as int]@.len() {
                h.control_offsets@[para_idx as int]@[control_idx as int]
            } else {
                None
            },
            None => None,
        },
{
    match page_hints {
        Some(h) => if para_idx < h.control_offsets.len() && control_idx < h.control_offsets[para_idx].len() {
            h.control_offsets[para_idx][control_idx]
        } else {
            None
        },
        None => None,
    }
}

/// A column of a page shows paragraph `p`.
pub open spec fn column_shows_para(col: Seq<PageItem>, p: nat) -> bool {
    exists|i: int| 0 <= i < col.len() && #[trigger] item_para(col[i]) == Some(p)
}

/// A column of a page shows control `c` of paragraph `p`.
pub open spec fn column_shows_control(col: Seq<PageItem>, p: nat, c: nat) -> bool {
    exists|i: int| 0 <= i < col.len() && #[trigger] item_control(col[i]) == Some((p, c))
}

/// Some column of the page shows paragraph `p`.
pub open spec fn page_shows_para(page: Seq<Vec<PageItem>>, p: nat) -> bool {
    exists|j: int| 0 <= j < page.len() && #[trigger] column_shows_para(page[j]@, p)
}

/// Some column of the page shows control `c` of paragraph `p`.
pub open spec fn page_shows_control(page: Seq<Vec<PageItem>>, p: nat, c: nat) -> bool {
    exists|j: int| 0 <= j < page.len() && #[trigger] column_shows_control(page[j]@, p, c)
}

proof fn lemma_column_prefix(col: Seq<PageItem>, i: int)
    requires
        0 <= i < col.len(),
    ensures
        forall|p: nat|
            #[trigger] column_shows_para(col.subrange(0, i + 1), p) == (column_shows_para(
                col.subrange(0, i),
                p,
            ) || item_para(col[i]) == Some(p)),
        forall|p: nat, c: nat|
            #[trigger] column_shows_control(col.subrange(0, i + 1), p, c) == (
            column_shows_control(col.subrange(0, i), p, c) || item_control(col[i]) == Some((p, c))),
{
    let a = col.subrange(0, i);
    let b = col.subrange(0, i + 1);
    assert forall|p: nat| #[trigger] column_shows_para(b, p) == (column_shows_para(a, p) || item_para(col[i]) == Some(p)) by {
        if column_shows_para(b, p) {
            let j = choose|j: int| 0 <= j < b.len() && #[trigger] item_para(b[j]) == Some(p);
            if j < i {
                assert(a[j] == b[j]);
            } else {
                assert(b[j] == col[i]);
            }
        }
        if column_shows_para(a, p) {
            let j = choose|j: int| 0 <= j < a.len() && #[trigger] item_para(a[j]) == Some(p);
            assert(b[j] == a[j]);
        }
        if item_para(col[i]) == Some(p) {
            assert(b[i] == col[i]);
        }
    }
    assert forall|p: nat, c: nat| #[trigger] column_shows_control(b, p, c) == (column_shows_control(a, p, c) || item_control(col[i]) == Some((p, c))) by {
        if column_shows_control(b, p, c) {
            let j = choose|j: int| 0 <= j < b.len() && #[trigger] item_control(b[j]) == Some((p, c));
            if j < i {
                assert(a[j] == b[j]);
            } else {
                assert(b[j] == col[i]);
            }
        }
        if column_shows_control(a, p, c) {
            let j = choose|j: int| 0 <= j < a.len() && #[trigger] item_control(a[j]) == Some((p, c));
            assert(b[j] == a[j]);
        }
        if item_control(col[i]) == Some((p, c)) {
            assert(b[i] == col[i]);
        }
    }
}

/// Takes note of the items of one column on page `page_idx`.
fn note_column(hints: &mut TemplatePageHints, col: &Vec<PageItem>, page_idx: u32)
    ensures
        noted_paras(
            old(hints).paragraph_pages@,
            final(hints).paragraph_pages@,
            page_idx,
            |p: nat| column_shows_para(col@, p),
        ),
        noted_controls(
            control_pages_view(*old(hints)),
            control_pages_view(*final(hints)),
            page_idx,
            |p: nat, c: nat| column_shows_control(col@, p, c),
        ),
        final(hints).control_offsets == old(hints).control_offsets,
{
    let ghost pp0 = hints.paragraph_pages@;
    let ghost cp0 = control_pages_view(*hints);
    let mut i: usize = 0;
    while i < col.len()
        invariant
            i <= col@.len(),
            hints.control_offsets == old(hints).control_offsets,
            pp0 == old(hints).paragraph_pages@,
            cp0 == control_pages_view(*old(hints)),
            noted_paras(pp0, hints.paragraph_pages@, page_idx, |p: nat| column_shows_para(col@.subrange(0, i as int), p)),
            noted_controls(cp0, control_pages_view(*hints), page_idx, |p: nat, c: nat| column_shows_control(col@.subrange(0, i as int), p, c)),
        decreases col@.len() - i,
    {
        proof {
            lemma_column_prefix(col@, i as int);
        }
        note_page_hint(hints, &col[i], page_idx);
        i = i + 1;
    }
    assert(col@.subrange(0, i as int) =~= col@);
}

proof fn lemma_page_prefix(page: Seq<Vec<PageItem>>, j: int)
    requires
        0 <= j < page.len(),
    ensures
        forall|p: nat|
            #[trigger] page_shows_para(page.subrange(0, j + 1), p) == (page_shows_para(
                page.subrange(0, j),
                p,
            ) || column_shows_para(page[j]@, p)),
        forall|p: nat, c: nat|
            #[trigger] page_shows_control(page.subrange(0, j + 1), p, c) == (page_shows_control(
                page.subrange(0, j),
                p,
                c,
            ) || column_shows_control(page[j]@, p, c)),
{
    let a = page.subrange(0, j);
    let b = page.subrange(0, j + 1);
    assert forall|p: nat| #[trigger] page_shows_para(b, p) == (page_shows_para(a, p) || column_shows_para(page[j]@, p)) by {
        if page_shows_para(b, p) {
            let x = choose|x: int| 0 <= x < b.len() && #[trigger] column_shows_para(b[x]@, p);
            if x < j {
                assert(a[x] == b[x]);
            } else {
                assert(b[x] == page[j]);
            }
        }
        if page_shows_para(a, p) {
            let x = choose|x: int| 0 <= x < a.len() && #[trigger] column_shows_para(a[x]@, p);
            assert(b[x] == a[x]);
        }
        if column_shows_para(page[j]@, p) {
            assert(b[j] == page[j]);
        }
    }
    assert forall|p: nat, c: nat| #[trigger] page_shows_control(b, p, c) == (page_shows_control(a, p, c) || column_shows_control(page[j]@, p, c)) by {
        if page_shows_control(b, p, c) {
            let x = choose|x: int| 0 <= x < b.len() && #[trigger] column_shows_control(b[x]@, p, c);
            if x < j {
                assert(a[x] == b[x]);
            } else {
                assert(b[x] == page[j]);
            }
        }
        if page_shows_control(a, p, c) {
            let x = choose|x: int| 0 <= x < a.len() && #[trigger] column_shows_control(a[x]@, p, c);
            assert(b[x] == a[x]);
        }
        if column_shows_control(page[j]@, p, c) {
            assert(b[j] == page[j]);
        }
    }
}

/// Takes note of the items of one page, `page_idx`.
fn note_page(hints: &mut TemplatePageHints, page: &Vec<Vec<PageItem>>, page_idx: u32)
    ensures
        noted_paras(
            old(hints).paragraph_pages@,
            final(hints).paragraph_pages@,
            page_idx,
            |p: nat| page_shows_para(page@, p),
        ),
        noted_controls(
            control_pages_view(*old(hints)),
            control_pages_view(*final(hints)),
            page_idx,
            |p: nat, c: nat| page_shows_control(page@, p, c),
        ),
        final(hints).control_offsets == old(hints).control_offsets,
{
    let ghost pp0 = hints.paragraph_pages@;
    let ghost cp0 = control_pages_view(*hints);
    let mut j: usize = 0;
    while j < page.len()
        invariant
            j <= page@.len(),
            hints.control_offsets == old(hints).control_offsets,
            pp0 == old(hints).paragraph_pages@,
            cp0 == control_pages_view(*old(hints)),
            noted_paras(pp0, hints.paragraph_pages@, page_idx, |p: nat| page_shows_para(page@.subrange(0, j as int), p)),
            noted_controls(cp0, control_pages_view(*hints), page_idx, |p: nat, c: nat| page_shows_control(page@.subrange(0, j as int), p, c)),
        decreases page@.len() - j,
    {
        proof {
            lemma_page_prefix(page@, j as int);
        }
        note_column(hints, &page[j], page_idx);
        j = j + 1;
    }
    assert(page@.subrange(0, j as int) =~= page@);
}

/// The first page (of `pages`) that shows paragraph `p`.
pub open spec fn first_page_of_para(pages: Seq<Vec<Vec<PageItem>>>, p: nat) -> Option<u32>
    decreases pages.len(),
{
    if pages.len() == 0 {
        None
    } else {
        match first_page_of_para(pages.drop_last(), p) {
            Some(k) => Some(k),
            None => if page_shows_para(pages.last()@, p) {
                Some((pages.len() - 1) as u32)
            } else {
                None
            },
        }
    }
}

/// The first page (of `pages`) that shows control `c` of paragraph `p`.
pub open spec fn first_page_of_control(pages: Seq<Vec<Vec<PageItem>>>, p: nat, c: nat) -> Option<u32>
    decreases pages.len(),
{
    if pages.len() == 0 {
        None
    } else {
        match first_page_of_control(pages.drop_last(), p, c) {
            Some(k) => Some(k),
            None => if page_shows_control(pages.last()@, p, c) {
                Some((pages.len() - 1) as u32)
            } else {
                None
            },
        }
    }
}

/// The page hints of a section whose paragraphs have `control_counts[i]`
/// controls each, laid out as `pages` (each page a list of columns, each
/// column a list of items): for each paragraph and each control, the first
/// page that shows it. No offsets are known yet.
pub fn template_page_hints(control_counts: &Vec<usize>, pages: &Vec<Vec<Vec<PageItem>>>) -> (r: TemplatePageHints)
    requires
        pages@.len() <= u32::MAX,
    ensures
        r.paragraph_pages@.len() == control_counts@.len(),
        forall|p: int| 0 <= p < control_counts@.len() ==> #[trigger] r.paragraph_pages@[p] == first_page_of_para(pages@, p as nat),
        r.control_pages@.len() == control_counts@.len(),
        r.control_offsets@.len() == control_counts@.len(),
        forall|p: int| 0 <= p < control_counts@.len() ==> #[trigger] r.control_pages@[p]@.len() == control_counts@[p],
        forall|p: int| 0 <= p < control_counts@.len() ==> #[trigger] r.control_offsets@[p]@.len() == control_counts@[p],
        forall|p: int, c: int| 0 <= p < control_counts@.len() && 0 <= c < control_counts@[p] ==> #[trigger] r.control_pages@[p]@[c] == first_page_of_control(pages@, p as nat, c as nat),
        forall|p: int, c: int| 0 <= p < control_counts@.len() && 0 <= c < control_counts@[p] ==> #[trigger] r.control_offsets@[p]@[c] is None,
{
    let n = control_counts.len();
    let mut paragraph_pages: Vec<Option<u32>> = Vec::new();
    let mut control_pages: Vec<Vec<Option<u32>>> = Vec::new();
    let mut control_offsets: Vec<Vec<Option<TemplateControlOffsetHint>>> = Vec::new();
    let mut i: usize = 0;
    while i < n
        invariant
            n == control_counts@.len(),
            i <= n,
            paragraph_pages@.len() == i,
            control_pages@.len() == i,
            control_offsets@.len() == i,
            forall|p: int| 0 <= p < i ==> #[trigger] paragraph_pages@[p] is None,
            forall|p: int| 0 <= p < i ==> #[trigger] control_pages@[p]@.len() == control_counts@[p],
            forall|p: int| 0 <= p < i ==> #[trigger] control_offsets@[p]@.len() == control_counts@[p],
            forall|p: int, c: int| 0 <= p < i && 0 <= c < control_counts@[p] ==> #[trigger] control_pages@[p]@[c] is None,
            forall|p: int, c: int| 0 <= p < i && 0 <= c < control_counts@[p] ==> #[trigger] control_offsets@[p]@[c] is None,
        decreases n - i,
    {
        let m = control_counts[i];
        let mut pages_row: Vec<Option<u32>> = Vec::new();
        let mut offsets_row: Vec<Option<TemplateControlOffsetHint>> = Vec::new();
        let mut c: usize = 0;
        while c < m
            invariant
                c <= m,
                pages_row@.len() == c,
                offsets_row@.len() == c,
                forall|x: int| 0 <= x < c ==> #[trigger] pages_row@[x] is None,
                forall|x: int| 0 <= x < c ==> #[trigger] offsets_row@[x] is None,
            decreases m - c,
        {
            pages_row.push(None);
            offsets_row.push(None);
            c = c + 1;
        }
        paragraph_pages.push(None);
        control_pages.push(pages_row);
        control_offsets.push(offsets_row);
        i = i + 1;
    }
    let mut hints = TemplatePageHints { paragraph_pages, control_pages, control_offsets };
    let mut k: usize = 0;
    assert(pages@.subrange(0, 0) =~= Seq::<Vec<Vec<PageItem>>>::empty());
    while k < pages.len()
        invariant
            k <= pages@.len(),
            pages@.len() <= u32::MAX,
            n == control_counts@.len(),
            hints.paragraph_pages@.len() == n,
            hints.control_pages@.len() == n,
            hints.control_offsets@.len() == n,
            forall|p: int| 0 <= p < n ==> #[trigger] hints.paragraph_pages@[p] == first_page_of_para(pages@.subrange(0, k as int), p as nat),
            forall|p: int| 0 <= p < n ==> #[trigger] hints.control_pages@[p]@.len() == control_counts@[p],
            forall|p: int| 0 <= p < n ==> #[trigger] hints.control_offsets@[p]@.len() == control_counts@[p],
            forall|p: int, c: int| 0 <= p < n && 0 <= c < control_counts@[p] ==> #[trigger] hints.control_pages@[p]@[c] == first_page_of_control(pages@.subrange(0, k as int), p as nat, c as nat),
            forall|p: int, c: int| 0 <= p < n && 0 <= c < control_counts@[p] ==> #[trigger] hints.control_offsets@[p]@[c] is None,
        decreases pages@.len() - k,
    {
        let ghost before = hints;
        let ghost pre = pages@.subrange(0, k as int);
        let ghost next = pages@.subrange(0, k + 1);
        assert(next.drop_last() =~= pre);
        assert(next.last() == pages@[k as int]);
        note_page(&mut hints, &pages[k], k as u32);
        assert forall|p: int| 0 <= p < n implies #[trigger] hints.control_pages@[p]@.len() == control_counts@[p] by {
            assert(control_pages_view(hints)[p].len() == control_pages_view(before)[p].len());
        }
        assert forall|p: int, c: int| 0 <= p < n && 0 <= c < control_counts@[p] implies #[trigger] hints.control_pages@[p]@[c] == first_page_of_control(next, p as nat, c as nat) by {
            assert(control_pages_view(hints)[p].len() == control_pages_view(before)[p].len());
            assert(control_pages_view(hints)[p][c] == hints.control_pages@[p]@[c]);
            assert(control_pages_view(before)[p][c] == before.control_pages@[p]@[c]);
        }
        k = k + 1;
    }
    assert(pages@.subrange(0, k as int) =~= pages@);
    hints
}

// ---------------------------------------------------------------------------
// Pictures near the top of a page
// ---------------------------------------------------------------------------

/// The line height a picture host paragraph's line may have (HWP units).
pub open spec fn max_host_line_height() -> int {
    12_000
}

/// The larger of a picture's two recorded heights, as `i32` (wrapping).
pub open spec fn picture_height_spec(picture: Picture) -> int {
    let h = if picture.common.height >= picture.shape_attr.current_height {
        picture.common.height
    } else {
        picture.shape_attr.current_height
    };
    i32_of_bits(h as int)
}

/// The page-top offset recorded for an inline picture whose host line
/// starts below the top of the page (within 20000 units) and is taller than
/// a host line may be.
pub open spec fn picture_page_top_offset_spec(para: Paragraph, picture: Picture) -> Option<u32> {
    if !picture.common.treat_as_char || picture.common.vertical_offset != 0 {
        None
    } else if para.line_segs@.len() == 0 {
        None
    } else {
        let seg = para.line_segs@[0];
        if seg.vertical_pos <= 0 || seg.line_height <= max_host_line_height() {
            None
        } else if picture_height_spec(picture) <= max_host_line_height() {
            None
        } else if seg.vertical_pos <= 20_000 {
            Some(seg.vertical_pos as u32)
        } else {
            None
        }
    }
}

/// The larger of a picture's two recorded heights, as `i32` (wrapping).
fn picture_height(picture: &Picture) -> (r: i32)
    ensures
        r == picture_height_spec(*picture),
{
    let h = if picture.common.height >= picture.shape_attr.current_height {
        picture.common.height
    } else {
        picture.shape_attr.current_height
    };
    reinterpret_u32(h)
}

/// The page-top offset of an inline picture (see `picture_page_top_offset_spec`).
pub fn template_picture_page_top_offset(para: &Paragraph, picture: &Picture) -> (r: Option<u32>)
    ensures
        r == picture_page_top_offset_spec(*para, *picture),
{
    if !picture.common.treat_as_char || picture.common.vertical_offset != 0 {
        return None;
    }
    if para.line_segs.len() == 0 {
        return None;
    }
    let seg = para.line_segs[0];
    if seg.vertical_pos <= 0 || seg.line_height <= 12_000 {
        return None;
    }
    if picture_height(picture) <= 12_000 {
        return None;
    }
    if seg.vertical_pos <= 20_000 {
        Some(seg.vertical_pos as u32)
    } else {
        None
    }
}

/// Whether an inline picture after the first control of a paragraph whose
/// first line starts low on the page (at 30000 units or more) and is short
/// is one whose offset on the page is worth looking up: it is tall, not
/// wider than 45000 units, and at offset zero.
pub open spec fn offset_hint_candidate_spec(para: Paragraph, control_idx: nat, picture: Picture) -> bool {
    let width = if picture.common.width >= picture.shape_attr.current_width {
        picture.common.width
    } else {
        picture.shape_attr.current_width
    };
    &&& control_idx != 0
    &&& picture.common.horizontal_offset == 0
    &&& picture.common.vertical_offset == 0
    &&& picture_height_spec(picture) > max_host_line_height()
    &&& width <= 45_000
    &&& para.line_segs@.len() > 0
    &&& para.line_segs@[0].vertical_pos >= 30_000
    &&& para.line_segs@[0].line_height > 0
    &&& para.line_segs@[0].line_height <= max_host_line_height()
}

/// Whether a picture's offset on its page is worth looking up (see
/// `offset_hint_candidate_spec`).
pub fn page_break_picture_offset_hint_candidate(para: &Paragraph, control_idx: usize, picture: &Picture) -> (r: bool)
    ensures
        r == offset_hint_candidate_spec(*para, control_idx as nat, *picture),
{
    if control_idx == 0 || picture.common.horizontal_offset != 0 || picture.common.vertical_offset != 0 {
        return false;
    }
    if picture_height(picture) <= 12_000 {
        return false;
    }
    let width = if picture.common.width >= picture.shape_attr.current_width {
        picture.common.width
    } else {
        picture.shape_attr.current_width
    };
    if width > 45_000 {
        return false;
    }
    if para.line_segs.len() == 0 {
        return false;
    }
    let seg = para.line_segs[0];
    seg.vertical_pos >= 30_000 && seg.line_height > 0 && seg.line_height <= 12_000
}

/// The number of page breaks to put before a block: none for the first
/// block, else the number of source pages it moved forward by.
pub open spec fn flow_page_break_count_spec(is_first_block: bool, source_page: Option<u32>, last_block_page: Option<u32>) -> int {
    if is_first_block {
        0
    } else {
        match (last_block_page, source_page) {
            (Some(previous), Some(current)) => if current > previous {
                current - previous
            } else {
                0
            },
            _ => 0,
        }
    }
}

/// The number of page breaks to put before a block (see
/// `flow_page_break_count_spec`).
pub fn flow_page_break_count(is_first_block: bool, source_page: Option<u32>, last_block_page: Option<u32>) -> (r: u32)
    ensures
        r == flow_page_break_count_spec(is_first_block, source_page, last_block_page),
{
    if is_first_block {
        return 0;
    }
    match (last_block_page, source_page) {
        (Some(previous), Some(current)) => if current > previous {
            current - previous
        } else {
            0
        },
        _ => 0,
    }
}

// ---------------------------------------------------------------------------
// Controls that become blocks
// ---------------------------------------------------------------------------

/// Controls that a template writes as blocks of their own.
pub open spec fn may_emit_block(c: Control) -> bool {
    c is Table || c is Equation || c is Picture || c is Shape
}

/// Whether a control is written as a block of its own.
pub fn template_control_may_emit_block(control: &Control) -> (r: bool)
    ensures
        r == may_emit_block(*control),
{
    match control {
        Control::Table | Control::Equation | Control::Picture(_) | Control::Shape => true,
        _ => false,
    }
}

/// Whether a control may stay in a paragraph that hosts a template table.
pub fn can_share_template_table_host(control: &Control) -> (r: bool)
    ensures
        r == (*control is Table || *control is SectionDef || *control is ColumnDef
            || *control is PageHide || *control is PageNumberPos),
{
    match control {
        Control::Table | Control::SectionDef | Control::ColumnDef | Control::PageHide
        | Control::PageNumberPos => true,
        _ => false,
    }
}

/// A control that may be grouped with tables in one host paragraph: a
/// table, or an inline picture no taller than a host line.
pub open spec fn groupable_control(c: Control) -> bool {
    match c {
        Control::Table => true,
        Control::Picture(p) => p.common.treat_as_char && (if p.common.height >= p.shape_attr.current_height {
            p.common.height
        } else {
            p.shape_attr.current_height
        }) <= 12_000,
        _ => false,
    }
}

/// The page of control `i` of a paragraph: its hint, else the paragraph's.
pub open spec fn control_page_of(hints: Option<TemplatePageHints>, para_idx: int, i: int, paragraph_page: Option<u32>) -> Option<u32> {
    let hint = match hints {
        Some(h) => if para_idx < h.control_pages@.len() && i < h.control_pages@[para_idx]@.len() {
            h.control_pages@[para_idx]@[i]
        } else {
            None
        },
        None => None,
    };
    match hint {
        Some(p) => Some(p),
        None => paragraph_page,
    }
}

/// The number of controls that are written as blocks.
pub open spec fn emitting_count(cs: Seq<Control>) -> nat
    decreases cs.len(),
{
    if cs.len() == 0 {
        0
    } else {
        emitting_count(cs.drop_last()) + if may_emit_block(cs.last()) {
            1nat
        } else {
            0nat
        }
    }
}

/// Whether the controls of an otherwise empty paragraph that hosts template
/// tables may be written as one group: there are tables and more than one
/// control, the paragraph has no text and no page split, every control
/// written as a block is a table or a small inline picture, all of them lie
/// on one known page, and they are all the template's controls.
pub open spec fn auto_group_spec(
    para: Paragraph,
    hints: Option<TemplatePageHints>,
    para_idx: int,
    paragraph_page: Option<u32>,
    template_control_count: nat,
    template_table_count: nat,
    has_page_split_line_segments: bool,
) -> bool {
    let cs = para.controls@;
    if template_table_count == 0 || template_control_count <= 1 || trim_seq(para.text@).len() > 0
        || has_page_split_line_segments {
        false
    } else {
        &&& forall|i: int|
            0 <= i < cs.len() && #[trigger] may_emit_block(cs[i]) ==> groupable_control(cs[i])
                && control_page_of(hints, para_idx, i, paragraph_page) is Some
        &&& forall|i: int, j: int|
            0 <= i < cs.len() && 0 <= j < cs.len() && #[trigger] may_emit_block(cs[i])
                && #[trigger] may_emit_block(cs[j]) ==> control_page_of(hints, para_idx, i, paragraph_page)
                == control_page_of(hints, para_idx, j, paragraph_page)
        &&& emitting_count(cs) == template_control_count
        &&& exists|i: int| 0 <= i < cs.len() && #[trigger] may_emit_block(cs[i])
    }
}

/// Whether a paragraph's template controls may be written as one group
/// (see `auto_group_spec`).
pub fn can_auto_group_mixed_template_controls(
    para: &Paragraph,
    page_hints: Option<&TemplatePageHints>,
    para_idx: usize,
    paragraph_page: Option<u32>,
    template_control_count: usize,
    template_table_count: usize,
    has_page_split_line_segments: bool,
) -> (r: bool)
    ensures
        r == auto_group_spec(
            *para,
            match page_hints {
                Some(h) => Some(*h),
                None => None,
            },
            para_idx as int,
            paragraph_page,
            template_control_count as nat,
            template_table_count as nat,
            has_page_split_line_segments,
        ),
{
    let ghost hints = match page_hints {
        Some(h) => Some(*h),
        None => None,
    };
    if template_table_count == 0 || template_control_count <= 1 || !trim_str(para.text.as_str()).is_empty()
        || has_page_split_line_segments {
        return false;
    }
    let ghost cs = para.controls@;
    let mut shared_page: Option<u32> = None;
    let mut seen: usize = 0;
    let mut idx: usize = 0;
    while idx < para.controls.len()
        invariant
            cs == para.controls@,
            hints == (match page_hints {
                Some(h) => Some(*h),
                None => None::<TemplatePageHints>,
            }),
            idx <= cs.len(),
            seen == emitting_count(cs.subrange(0, idx as int)),
            seen <= idx,
            forall|i: int| 0 <= i < idx && #[trigger] may_emit_block(cs[i]) ==> groupable_control(cs[i])
                && control_page_of(hints, para_idx as int, i, paragraph_page) is Some,
            forall|i: int| 0 <= i < idx && #[trigger] may_emit_block(cs[i]) ==> control_page_of(hints, para_idx as int, i, paragraph_page) == shared_page,
            shared_page is None <==> !(exists|i: int| 0 <= i < idx && #[trigger] may_emit_block(cs[i])),
        decreases cs.len() - idx,
    {
        let control = &para.controls[idx];
        assert(cs.subrange(0, idx + 1).drop_last() =~= cs.subrange(0, idx as int));
        if !template_control_may_emit_block(control) {
            idx = idx + 1;
            continue;
        }
        let groupable = match control {
            Control::Table => true,
            Control::Picture(picture) => {
                let h = if picture.common.height >= picture.shape_attr.current_height {
                    picture.common.height
                } else {
                    picture.shape_attr.current_height
                };
                picture.common.treat_as_char && h <= 12_000
            },
            _ => false,
        };
        if !groupable {
            assert(may_emit_block(cs[idx as int]) && !groupable_control(cs[idx as int]));
            return false;
        }
        let page = match control_page_hint(page_hints, para_idx, idx) {
            Some(p) => p,
            None => match paragraph_page {
                Some(p) => p,
                None => {
                    assert(control_page_of(hints, para_idx as int, idx as int, paragraph_page) is None);
                    return false;
                },
            },
        };
        assert(control_page_of(hints, para_idx as int, idx as int, paragraph_page) == Some(page));
        match shared_page {
            Some(sp) => {
                if sp != page {
                    let ghost j = choose|j: int| 0 <= j < idx && #[trigger] may_emit_block(cs[j]);
                    assert(control_page_of(hints, para_idx as int, j, paragraph_page) == Some(sp));
                    assert(may_emit_block(cs[idx as int]));
                    return false;
                }
            },
            None => {},
        }
        shared_page = Some(page);
        seen = seen + 1;
        idx = idx + 1;
    }
    assert(cs.subrange(0, idx as int) =~= cs);
    proof {
        assert forall|i: int, j: int|
            0 <= i < cs.len() && 0 <= j < cs.len() && #[trigger] may_emit_block(cs[i])
                && #[trigger] may_emit_block(cs[j]) implies control_page_of(hints, para_idx as int, i, paragraph_page)
                == control_page_of(hints, para_idx as int, j, paragraph_page) by {}
    }
    seen == template_control_count && shared_page.is_some()
}

} // verus!
