//! Line segments and character-shape runs of paragraphs: what a template
//! keeps of them, and how a paragraph's runs are rebuilt from a template.

use super::{TemplateCharShapeRun, TemplateLineSeg};
use crate::model::{CharShapeRef, Control, LineSeg, Paragraph};
use vstd::prelude::*;
use vstd::string::*;

verus! {

/// 그림 호스트 문단의 줄 높이 상한 (HWPUNIT).
pub open spec fn max_picture_host_line_segment_height() -> i32 {
    12_000
}

// ---------------------------------------------------------------------------
// Line segments
// ---------------------------------------------------------------------------

/// A model line segment as written into a template.
pub open spec fn template_line_seg_of(seg: LineSeg) -> TemplateLineSeg {
    TemplateLineSeg {
        text_start: seg.text_start,
        vertical_pos: seg.vertical_pos,
        line_height: seg.line_height,
        text_height: seg.text_height,
        baseline_distance: seg.baseline_distance,
        line_spacing: seg.line_spacing,
        column_start: seg.column_start,
        segment_width: seg.segment_width,
        tag: seg.tag,
    }
}

/// A template line segment as read into the model.
pub open spec fn line_seg_of_template(seg: TemplateLineSeg) -> LineSeg {
    LineSeg {
        text_start: seg.text_start,
        vertical_pos: seg.vertical_pos,
        line_height: seg.line_height,
        text_height: seg.text_height,
        baseline_distance: seg.baseline_distance,
        line_spacing: seg.line_spacing,
        column_start: seg.column_start,
        segment_width: seg.segment_width,
        tag: seg.tag,
    }
}

/// 문단의 줄 배치 정보를 그대로 템플릿으로 옮긴다.
pub fn template_line_segments_raw(para: &Paragraph) -> (r: Vec<TemplateLineSeg>)
    ensures
        r@ == para.line_segs@.map_values(|s: LineSeg| template_line_seg_of(s)),
{
    let mut out: Vec<TemplateLineSeg> = Vec::new();
    let n = para.line_segs.len();
    let mut i: usize = 0;
    while i < n
        invariant
            n == para.line_segs@.len(),
            i <= n,
            out@ =~= para.line_segs@.subrange(0, i as int).map_values(
                |s: LineSeg| template_line_seg_of(s),
            ),
        decreases n - i,
    {
        let seg = &para.line_segs[i];
        out.push(
            TemplateLineSeg {
                text_start: seg.text_start,
                vertical_pos: seg.vertical_pos,
                line_height: seg.line_height,
                text_height: seg.text_height,
                baseline_distance: seg.baseline_distance,
                line_spacing: seg.line_spacing,
                column_start: seg.column_start,
                segment_width: seg.segment_width,
                tag: seg.tag,
            },
        );
        i = i + 1;
    }
    assert(para.line_segs@.subrange(0, n as int) =~= para.line_segs@);
    out
}

/// Some line starts higher on the page than the line before it: the
/// paragraph was split across pages.
pub open spec fn resets_vertical_position(segs: Seq<LineSeg>) -> bool {
    exists|i: int| 0 <= i && i + 1 < segs.len() && #[trigger] segs[i + 1].vertical_pos < segs[i].vertical_pos
}

/// 줄 배치 정보의 세로 위치가 되돌아가는지 (쪽이 나뉜 문단).
pub fn line_segments_reset_vertical_position(line_segments: &[LineSeg]) -> (r: bool)
    ensures
        r == resets_vertical_position(line_segments@),
{
    let n = line_segments.len();
    if n < 2 {
        return false;
    }
    let mut i: usize = 0;
    while i + 1 < n
        invariant
            n == line_segments@.len(),
            n >= 2,
            i + 1 <= n,
            forall|j: int| 0 <= j < i ==> !(#[trigger] line_segments@[j + 1].vertical_pos
                < line_segments@[j].vertical_pos),
        decreases n - i,
    {
        if line_segments[i + 1].vertical_pos < line_segments[i].vertical_pos {
            return true;
        }
        i = i + 1;
    }
    false
}

/// 쪽이 나뉜 문단인지.
pub fn paragraph_has_page_split_line_segments(para: &Paragraph) -> (r: bool)
    ensures
        r == resets_vertical_position(para.line_segs@),
{
    line_segments_reset_vertical_position(para.line_segs.as_slice())
}

/// The line segments a template keeps of a paragraph: none when the
/// paragraph was split across pages, otherwise all of them.
pub open spec fn template_line_segments_spec(para: Paragraph) -> Seq<TemplateLineSeg> {
    if resets_vertical_position(para.line_segs@) {
        Seq::empty()
    } else {
        para.line_segs@.map_values(|s: LineSeg| template_line_seg_of(s))
    }
}

/// 템플릿에 남길 문단 줄 배치 정보.
pub fn template_line_segments(para: &Paragraph) -> (r: Vec<TemplateLineSeg>)
    ensures
        r@ == template_line_segments_spec(*para),
{
    if paragraph_has_page_split_line_segments(para) {
        return Vec::new();
    }
    template_line_segments_raw(para)
}

/// 그림 호스트 문단의 줄 배치 정보: 줄 하나라도 그림 높이만큼 크면 남기지 않는다.
pub fn template_picture_host_line_segments(para: &Paragraph) -> (r: Vec<TemplateLineSeg>)
    ensures
        r@ == (if exists|i: int|
            0 <= i < template_line_segments_spec(*para).len()
                && #[trigger] template_line_segments_spec(*para)[i].line_height
                > max_picture_host_line_segment_height() {
            Seq::empty()
        } else {
            template_line_segments_spec(*para)
        }),
{
    let line_segments = template_line_segments(para);
    let n = line_segments.len();
    let mut i: usize = 0;
    while i < n
        invariant
            n == line_segments@.len(),
            line_segments@ == template_line_segments_spec(*para),
            i <= n,
            forall|j: int| 0 <= j < i ==> !(#[trigger] line_segments@[j].line_height
                > max_picture_host_line_segment_height()),
        decreases n - i,
    {
        if line_segments[i].line_height > 12_000 {
            return Vec::new();
        }
        i = i + 1;
    }
    line_segments
}

/// 템플릿 줄 배치 정보를 문서 모델로 옮긴다.
pub fn line_segments_from_template(line_segments: &[TemplateLineSeg]) -> (r: Vec<LineSeg>)
    ensures
        r@ == line_segments@.map_values(|s: TemplateLineSeg| line_seg_of_template(s)),
{
    let mut out: Vec<LineSeg> = Vec::new();
    let n = line_segments.len();
    let mut i: usize = 0;
    while i < n
        invariant
            n == line_segments@.len(),
            i <= n,
            out@ =~= line_segments@.subrange(0, i as int).map_values(
                |s: TemplateLineSeg| line_seg_of_template(s),
            ),
        decreases n - i,
    {
        let seg = &line_segments[i];
        out.push(
            LineSeg {
                text_start: seg.text_start,
                vertical_pos: seg.vertical_pos,
                line_height: seg.line_height,
                text_height: seg.text_height,
                baseline_distance: seg.baseline_distance,
                line_spacing: seg.line_spacing,
                column_start: seg.column_start,
                segment_width: seg.segment_width,
                tag: seg.tag,
            },
        );
        i = i + 1;
    }
    assert(line_segments@.subrange(0, n as int) =~= line_segments@);
    out
}

/// 템플릿 줄 배치 정보가 있으면 문단의 줄 배치 정보를 그것으로 바꾼다.
pub fn apply_template_line_segments(para: &mut Paragraph, line_segments: &[TemplateLineSeg])
    ensures
        final(para).text == old(para).text,
        final(para).char_shapes == old(para).char_shapes,
        final(para).line_segs@ == (if line_segments@.len() == 0 {
            old(para).line_segs@
        } else {
            line_segments@.map_values(|s: TemplateLineSeg| line_seg_of_template(s))
        }),
{
    if line_segments.len() != 0 {
        para.line_segs = line_segments_from_template(line_segments);
    }
}

/// Line segments written into a template and read back are unchanged.
pub proof fn lemma_line_segments_roundtrip(segs: Seq<LineSeg>)
    ensures
        segs.map_values(|s: LineSeg| template_line_seg_of(s)).map_values(
            |s: TemplateLineSeg| line_seg_of_template(s),
        ) =~= segs,
{
}

/// The gap that a skipped empty paragraph leaves: its first line's height
/// plus spacing, when that lies in 800..=4000.
pub open spec fn skipped_empty_paragraph_gap_spec(para: Paragraph) -> Option<i32> {
    if para.line_segs@.len() == 0 {
        None
    } else {
        let seg = para.line_segs@[0];
        let gap = seg.line_height + seg.line_spacing;
        if 800 <= gap && gap <= 4_000 {
            Some(gap as i32)
        } else {
            None
        }
    }
}

/// 건너뛴 빈 문단이 남기는 간격.
pub fn skipped_empty_paragraph_gap_hu(para: &Paragraph) -> (r: Option<i32>)
    requires
        para.line_segs@.len() > 0 ==> i32::MIN <= para.line_segs@[0].line_height
            + para.line_segs@[0].line_spacing <= i32::MAX,
    ensures
        r == skipped_empty_paragraph_gap_spec(*para),
{
    if para.line_segs.len() == 0 {
        return None;
    }
    let segment = &para.line_segs[0];
    let gap = segment.line_height + segment.line_spacing;
    if 800 <= gap && gap <= 4_000 {
        Some(gap)
    } else {
        None
    }
}

// ---------------------------------------------------------------------------
// Character-shape runs
// ---------------------------------------------------------------------------

/// UTF-16 code units of one character.
pub open spec fn utf16_units(c: char) -> int {
    if (c as u32) >= 0x10000 {
        2
    } else {
        1
    }
}

/// UTF-16 length of a character sequence.
pub open spec fn utf16_len(s: Seq<char>) -> int
    decreases s.len(),
{
    if s.len() == 0 {
        0
    } else {
        utf16_len(s.drop_last()) + utf16_units(s.last())
    }
}

proof fn lemma_utf16_len_prefix(s: Seq<char>, k: int)
    requires
        0 <= k <= s.len(),
    ensures
        0 <= utf16_len(s.subrange(0, k)) <= utf16_len(s),
    decreases s.len() - k,
{
    if k < s.len() {
        lemma_utf16_len_prefix(s, k + 1);
        assert(s.subrange(0, k + 1).drop_last() =~= s.subrange(0, k));
    } else {
        assert(s.subrange(0, k) =~= s);
    }
    lemma_utf16_len_nonneg(s.subrange(0, k));
}

proof fn lemma_utf16_len_nonneg(s: Seq<char>)
    ensures
        utf16_len(s) >= 0,
    decreases s.len(),
{
    if s.len() > 0 {
        lemma_utf16_len_nonneg(s.drop_last());
    }
}

/// 문단 텍스트의 UTF-16 길이.
pub fn paragraph_text_utf16_len(para: &Paragraph) -> (r: u32)
    requires
        utf16_len(para.text@) <= u32::MAX,
    ensures
        r == utf16_len(para.text@),
{
    let n = para.text.as_str().unicode_len();
    let mut total: u32 = 0;
    let mut i: usize = 0;
    while i < n
        invariant
            n == para.text@.len(),
            utf16_len(para.text@) <= u32::MAX,
            i <= n,
            total == utf16_len(para.text@.subrange(0, i as int)),
        decreases n - i,
    {
        let c = para.text.as_str().get_char(i);
        proof {
            assert(para.text@.subrange(0, i + 1).drop_last() =~= para.text@.subrange(0, i as int));
            lemma_utf16_len_prefix(para.text@, i + 1);
        }
        if (c as u32) >= 0x10000 {
            total = total + 2;
        } else {
            total = total + 1;
        }
        i = i + 1;
    }
    assert(para.text@.subrange(0, n as int) =~= para.text@);
    total
}

/// A model run as written into a template.
pub open spec fn template_run_of(run: CharShapeRef) -> TemplateCharShapeRun {
    TemplateCharShapeRun { start_pos: run.start_pos, char_shape_id: run.char_shape_id }
}

/// The runs (in order) that start within the text: `start_pos <= end`.
pub open spec fn runs_within(runs: Seq<CharShapeRef>, end: int) -> Seq<TemplateCharShapeRun>
    decreases runs.len(),
{
    if runs.len() == 0 {
        Seq::empty()
    } else {
        let rest = runs_within(runs.drop_last(), end);
        if runs.last().start_pos <= end {
            rest.push(template_run_of(runs.last()))
        } else {
            rest
        }
    }
}

/// 템플릿에 남길 문단의 글자 모양 구간 (텍스트 끝을 넘는 구간은 버린다).
pub fn template_char_shape_runs(para: &Paragraph) -> (r: Vec<TemplateCharShapeRun>)
    requires
        utf16_len(para.text@) <= u32::MAX,
    ensures
        r@ == runs_within(para.char_shapes@, utf16_len(para.text@)),
{
    if para.char_shapes.len() == 0 {
        return Vec::new();
    }
    let text_utf16_end = paragraph_text_utf16_len(para);
    let n = para.char_shapes.len();
    let mut out: Vec<TemplateCharShapeRun> = Vec::new();
    let mut i: usize = 0;
    while i < n
        invariant
            n == para.char_shapes@.len(),
            text_utf16_end == utf16_len(para.text@),
            i <= n,
            out@ == runs_within(para.char_shapes@.subrange(0, i as int), text_utf16_end as int),
        decreases n - i,
    {
        let run = para.char_shapes[i];
        assert(para.char_shapes@.subrange(0, i + 1).drop_last() =~= para.char_shapes@.subrange(
            0,
            i as int,
        ));
        if run.start_pos <= text_utf16_end {
            out.push(TemplateCharShapeRun { start_pos: run.start_pos, char_shape_id: run.char_shape_id });
        }
        i = i + 1;
    }
    assert(para.char_shapes@.subrange(0, n as int) =~= para.char_shapes@);
    out
}

/// The id of the last run in `runs` that starts at `p` and is usable: it starts
/// within the text (`<= end`) and names an existing shape (`< count`).
pub open spec fn last_kept_id(runs: Seq<TemplateCharShapeRun>, p: u32, end: int, count: int) -> Option<u32>
    decreases runs.len(),
{
    if runs.len() == 0 {
        None
    } else {
        let r = runs.last();
        if r.start_pos == p && r.start_pos <= end && r.char_shape_id < count {
            Some(r.char_shape_id)
        } else {
            last_kept_id(runs.drop_last(), p, end, count)
        }
    }
}

/// `s` has an entry starting at `p`.
pub open spec fn has_start(s: Seq<CharShapeRef>, p: u32) -> bool {
    exists|k: int| 0 <= k < s.len() && #[trigger] s[k].start_pos == p
}

/// Start positions strictly increase along `s`.
pub open spec fn strictly_increasing(s: Seq<CharShapeRef>) -> bool {
    forall|a: int, b: int| 0 <= a < b < s.len() ==> #[trigger] s[a].start_pos < #[trigger] s[b].start_pos
}

/// The runs rebuilt from template runs: ordered by start position, one per
/// position; every usable position present and also 0; each position's
/// shape that of the last usable run there, or `fallback` at 0 when none.
pub open spec fn rebuilt_runs(
    result: Seq<CharShapeRef>,
    runs: Seq<TemplateCharShapeRun>,
    end: int,
    count: int,
    fallback: u32,
) -> bool {
    &&& strictly_increasing(result)
    &&& forall|p: u32| #[trigger] has_start(result, p) <==> (p == 0 || last_kept_id(runs, p, end, count) is Some)
    &&& forall|k: int| 0 <= k < result.len() ==> #[trigger] result[k].char_shape_id == (match last_kept_id(
        runs,
        result[k].start_pos,
        end,
        count,
    ) {
        Some(id) => id,
        None => fallback,
    })
}

/// Places `run` into the ordered run list `acc`: replaces the shape of the
/// entry at the same position, or inserts a new entry in order.
fn place_run(acc: &mut Vec<CharShapeRef>, run: TemplateCharShapeRun)
    requires
        strictly_increasing(old(acc)@),
    ensures
        strictly_increasing(final(acc)@),
        forall|p: u32| #[trigger] has_start(final(acc)@, p) <==> (has_start(old(acc)@, p) || p == run.start_pos),
        forall|k: int| 0 <= k < final(acc)@.len() ==> (#[trigger] final(acc)@[k]).start_pos != run.start_pos ==> exists|j: int| 0 <= j < old(acc)@.len() && old(acc)@[j] == final(acc)@[k],
        forall|k: int| 0 <= k < final(acc)@.len() ==> (#[trigger] final(acc)@[k]).start_pos == run.start_pos ==> final(acc)@[k].char_shape_id == run.char_shape_id,
{
    let n = acc.len();
    let mut j: usize = 0;
    while j < n && acc[j].start_pos < run.start_pos
        invariant
            n == acc@.len(),
            acc@ == old(acc)@,
            j <= n,
            forall|k: int| 0 <= k < j ==> #[trigger] acc@[k].start_pos < run.start_pos,
        decreases n - j,
    {
        j = j + 1;
    }
    let ghost before = acc@;
    if j < n && acc[j].start_pos == run.start_pos {
        acc[j] = CharShapeRef { start_pos: run.start_pos, char_shape_id: run.char_shape_id };
        assert forall|p: u32| #[trigger] has_start(acc@, p) <==> (has_start(before, p) || p == run.start_pos) by {
            if has_start(before, p) {
                let k = choose|k: int| 0 <= k < before.len() && #[trigger] before[k].start_pos == p;
                assert(acc@[k].start_pos == p);
            }
            if has_start(acc@, p) {
                let k = choose|k: int| 0 <= k < acc@.len() && #[trigger] acc@[k].start_pos == p;
                assert(before[k].start_pos == p);
            }
        }
        assert forall|k: int| 0 <= k < acc@.len() && (#[trigger] acc@[k]).start_pos != run.start_pos implies exists|i: int| 0 <= i < before.len() && before[i] == acc@[k] by {
            assert(before[k] == acc@[k]);
        }
    } else {
        acc.insert(j, CharShapeRef { start_pos: run.start_pos, char_shape_id: run.char_shape_id });
        assert forall|a: int, b: int| 0 <= a < b < acc@.len() implies #[trigger] acc@[a].start_pos < #[trigger] acc@[b].start_pos by {
            if b < j {
                assert(acc@[a] == before[a] && acc@[b] == before[b]);
            } else if b == j {
                assert(acc@[a] == before[a]);
            } else if a < j {
                assert(acc@[a] == before[a] && acc@[b] == before[b - 1]);
                if j < n {
                    assert(before[j as int].start_pos > run.start_pos);
                    if b - 1 > j {
                        assert(before[j as int].start_pos < before[b - 1].start_pos);
                    }
                }
            } else if a == j {
                assert(acc@[b] == before[b - 1]);
                assert(before[j as int].start_pos > run.start_pos);
                if b - 1 > j {
                    assert(before[j as int].start_pos < before[b - 1].start_pos);
                }
            } else {
                assert(acc@[a] == before[a - 1] && acc@[b] == before[b - 1]);
            }
        }
        assert forall|p: u32| #[trigger] has_start(acc@, p) <==> (has_start(before, p) || p == run.start_pos) by {
            if has_start(before, p) {
                let k = choose|k: int| 0 <= k < before.len() && #[trigger] before[k].start_pos == p;
                if k < j {
                    assert(acc@[k].start_pos == p);
                } else {
                    assert(acc@[k + 1].start_pos == p);
                }
            }
            if p == run.start_pos {
                assert(acc@[j as int].start_pos == p);
            }
            if has_start(acc@, p) {
                let k = choose|k: int| 0 <= k < acc@.len() && #[trigger] acc@[k].start_pos == p;
                if k < j {
                    assert(before[k].start_pos == p);
                } else if k > j {
                    assert(before[k - 1].start_pos == p);
                }
            }
        }
        assert forall|k: int| 0 <= k < acc@.len() && (#[trigger] acc@[k]).start_pos != run.start_pos implies exists|i: int| 0 <= i < before.len() && before[i] == acc@[k] by {
            if k < j {
                assert(before[k] == acc@[k]);
            } else if k > j {
                assert(before[k - 1] == acc@[k]);
            }
        }
        assert forall|k: int| 0 <= k < acc@.len() && (#[trigger] acc@[k]).start_pos == run.start_pos implies acc@[k].char_shape_id == run.char_shape_id by {
            if k < j {
                assert(acc@[k] == before[k]);
            } else if k > j {
                assert(acc@[k] == before[k - 1]);
                if j < n {
                    assert(before[j as int].start_pos > run.start_pos);
                    if k - 1 > j {
                        assert(before[j as int].start_pos < before[k - 1].start_pos);
                    }
                }
            }
        }
    }
}

/// 템플릿 글자 모양 구간으로 문단의 글자 모양 구간을 다시 만든다.
/// 텍스트를 넘거나 없는 글자 모양을 가리키는 구간은 버리고, 같은 위치의 구간은 나중 것을
/// 따르며, 위치 0에 구간이 없으면 문단의 첫 글자 모양(없으면 0)으로 채운다.
pub fn apply_template_char_shape_runs_with_count(
    char_shape_count: usize,
    para: &mut Paragraph,
    runs: &[TemplateCharShapeRun],
)
    requires
        utf16_len(old(para).text@) <= u32::MAX,
    ensures
        final(para).text == old(para).text,
        final(para).line_segs == old(para).line_segs,
        final(para).controls == old(para).controls,
        runs@.len() == 0 || char_shape_count == 0 ==> final(para).char_shapes == old(para).char_shapes,
        runs@.len() > 0 && char_shape_count > 0 ==> rebuilt_runs(
            final(para).char_shapes@,
            runs@,
            utf16_len(old(para).text@),
            char_shape_count as int,
            if old(para).char_shapes@.len() > 0 {
                old(para).char_shapes@[0].char_shape_id
            } else {
                0
            },
        ),
{
    if runs.len() == 0 || char_shape_count == 0 {
        return;
    }
    let text_utf16_end = paragraph_text_utf16_len(para);
    let fallback: u32 = if para.char_shapes.len() > 0 {
        para.char_shapes[0].char_shape_id
    } else {
        0
    };
    let ghost end = text_utf16_end as int;
    let ghost count = char_shape_count as int;
    let mut acc: Vec<CharShapeRef> = Vec::new();
    let n = runs.len();
    let mut i: usize = 0;
    while i < n
        invariant
            n == runs@.len(),
            end == text_utf16_end as int,
            count == char_shape_count as int,
            i <= n,
            strictly_increasing(acc@),
            forall|p: u32| #[trigger] has_start(acc@, p) <==> last_kept_id(runs@.subrange(0, i as int), p, end, count) is Some,
            forall|k: int| 0 <= k < acc@.len() ==> last_kept_id(runs@.subrange(0, i as int), (#[trigger] acc@[k]).start_pos, end, count) == Some(acc@[k].char_shape_id),
        decreases n - i,
    {
        let run = runs[i];
        let ghost prev = runs@.subrange(0, i as int);
        let ghost next = runs@.subrange(0, i + 1);
        assert(next.drop_last() =~= prev);
        assert(next.last() == run);
        let ghost before = acc@;
        if run.start_pos <= text_utf16_end && (run.char_shape_id as usize) < char_shape_count {
            place_run(&mut acc, run);
            assert forall|k: int| 0 <= k < acc@.len() implies last_kept_id(next, (#[trigger] acc@[k]).start_pos, end, count) == Some(acc@[k].char_shape_id) by {
                if acc@[k].start_pos != run.start_pos {
                    let j = choose|j: int| 0 <= j < before.len() && before[j] == acc@[k];
                    assert(last_kept_id(prev, before[j].start_pos, end, count) == Some(before[j].char_shape_id));
                }
            }
        } else {
            assert forall|p: u32| last_kept_id(next, p, end, count) == last_kept_id(prev, p, end, count) by {}
        }
        i = i + 1;
    }
    assert(runs@.subrange(0, n as int) =~= runs@);
    let ghost kept = acc@;
    if acc.len() == 0 || acc[0].start_pos != 0 {
        acc.insert(0, CharShapeRef { start_pos: 0, char_shape_id: fallback });
        assert(!has_start(kept, 0)) by {
            if has_start(kept, 0) {
                let k = choose|k: int| 0 <= k < kept.len() && #[trigger] kept[k].start_pos == 0;
                if k > 0 {
                    assert(kept[0].start_pos < kept[k].start_pos);
                }
            }
        }
        assert forall|a: int, b: int| 0 <= a < b < acc@.len() implies #[trigger] acc@[a].start_pos < #[trigger] acc@[b].start_pos by {
            if a == 0 {
                assert(acc@[b] == kept[b - 1]);
                if b - 1 > 0 {
                    assert(kept[0].start_pos < kept[b - 1].start_pos);
                }
            } else {
                assert(acc@[a] == kept[a - 1] && acc@[b] == kept[b - 1]);
            }
        }
        assert forall|p: u32| #[trigger] has_start(acc@, p) <==> (p == 0 || last_kept_id(runs@, p, end, count) is Some) by {
            if has_start(kept, p) {
                let k = choose|k: int| 0 <= k < kept.len() && #[trigger] kept[k].start_pos == p;
                assert(acc@[k + 1].start_pos == p);
            }
            if p == 0 {
                assert(acc@[0].start_pos == p);
            }
            if has_start(acc@, p) {
                let k = choose|k: int| 0 <= k < acc@.len() && #[trigger] acc@[k].start_pos == p;
                if k > 0 {
                    assert(kept[k - 1].start_pos == p);
                }
            }
        }
        assert forall|k: int| 0 <= k < acc@.len() implies #[trigger] acc@[k].char_shape_id == (match last_kept_id(runs@, acc@[k].start_pos, end, count) {
            Some(id) => id,
            None => fallback,
        }) by {
            if k > 0 {
                assert(acc@[k] == kept[k - 1]);
            } else {
                assert(!has_start(kept, 0));
            }
        }
    } else {
        assert forall|p: u32| #[trigger] has_start(acc@, p) <==> (p == 0 || last_kept_id(runs@, p, end, count) is Some) by {
            if p == 0 {
                assert(acc@[0].start_pos == 0);
            }
        }
    }
    para.char_shapes = acc;
}

/// The number of table controls among a paragraph's controls.
pub open spec fn table_control_count(controls: Seq<Control>) -> int
    decreases controls.len(),
{
    if controls.len() == 0 {
        0
    } else {
        table_control_count(controls.drop_last()) + if controls.last() is Table {
            1int
        } else {
            0int
        }
    }
}

/// The line segments a table's host paragraph keeps: all of them when it
/// hosts more than one table, else those a paragraph keeps (see
/// `template_line_segments_spec`).
pub open spec fn table_host_line_segments_spec(para: Paragraph) -> Seq<TemplateLineSeg> {
    if table_control_count(para.controls@) > 1 {
        para.line_segs@.map_values(|s: LineSeg| template_line_seg_of(s))
    } else {
        template_line_segments_spec(para)
    }
}

/// The line segments a table's host paragraph keeps (see
/// `table_host_line_segments_spec`).
pub fn template_table_host_line_segments(para: &Paragraph) -> (r: Vec<TemplateLineSeg>)
    ensures
        r@ == table_host_line_segments_spec(*para),
{
    let mut count: usize = 0;
    let mut i: usize = 0;
    while i < para.controls.len()
        invariant
            i <= para.controls@.len(),
            count == table_control_count(para.controls@.take(i as int)),
            count <= i,
        decreases para.controls@.len() - i,
    {
        assert(para.controls@.take(i + 1).drop_last() =~= para.controls@.take(i as int));
        match para.controls[i] {
            Control::Table => {
                count = count + 1;
            },
            _ => {},
        }
        i = i + 1;
    }
    assert(para.controls@.take(i as int) =~= para.controls@);
    if count > 1 {
        template_line_segments_raw(para)
    } else {
        template_line_segments(para)
    }
}

/// Each measure of a line segment goes to the template field of the same
/// name: start, position, heights, spacing, column start, width and tag.
pub proof fn lemma_template_line_seg_fields(seg: LineSeg)
    ensures
        ({
            let r = template_line_seg_of(seg);
            &&& r.text_start == seg.text_start
            &&& r.vertical_pos == seg.vertical_pos
            &&& r.line_height == seg.line_height
            &&& r.text_height == seg.text_height
            &&& r.baseline_distance == seg.baseline_distance
            &&& r.line_spacing == seg.line_spacing
            &&& r.column_start == seg.column_start
            &&& r.segment_width == seg.segment_width
            &&& r.tag == seg.tag
        }),
{
}

/// Each measure of a template line segment goes to the model field of the
/// same name.
pub proof fn lemma_line_seg_of_template_fields(seg: TemplateLineSeg)
    ensures
        ({
            let r = line_seg_of_template(seg);
            &&& r.text_start == seg.text_start
            &&& r.vertical_pos == seg.vertical_pos
            &&& r.line_height == seg.line_height
            &&& r.text_height == seg.text_height
            &&& r.baseline_distance == seg.baseline_distance
            &&& r.line_spacing == seg.line_spacing
            &&& r.column_start == seg.column_start
            &&& r.segment_width == seg.segment_width
            &&& r.tag == seg.tag
        }),
{
}

} // verus!
