//! Government and business reports: the description of a report, and the
//! sequence of editing commands that writes it into a blank document (a
//! title, metadata, running header and footer, a summary table and the
//! numbered sections with their tables).

use crate::text::{dec_seq, push_decimal, push_str, string_of, trim_seq, trim_str};
use vstd::prelude::*;

verus! {

/// A report to be written as a document.
#[derive(Debug, Clone)]
pub struct GovernmentReport {
    pub title: String,
    pub subtitle: Option<String>,
    pub organization: Option<String>,
    pub period: Option<String>,
    pub confidentiality: Option<String>,
    pub summary: Option<String>,
    pub header: Option<String>,
    pub page_footer: Option<String>,
    pub rows: Vec<GovernmentReportRow>,
    pub sections: Vec<GovernmentReportSection>,
    pub footer: Option<String>,
}

/// One row of the summary table: an item, its value and its unit.
#[derive(Debug, Clone)]
pub struct GovernmentReportRow {
    pub label: String,
    pub value: String,
    pub unit: Option<String>,
}

/// One section: a title, paragraphs and tables.
#[derive(Debug, Clone)]
pub struct GovernmentReportSection {
    pub title: String,
    pub page_break_before: bool,
    pub paragraphs: Vec<String>,
    pub tables: Vec<GovernmentReportTable>,
}

/// A table of a section: an optional title, a header row and body rows.
#[derive(Debug, Clone)]
pub struct GovernmentReportTable {
    pub title: Option<String>,
    pub headers: Vec<String>,
    pub rows: Vec<Vec<String>>,
}

/// The character formats that a report uses.
#[derive(Debug, Clone, Copy, PartialEq, Eq, Structural)]
pub enum CharFormatPreset {
    /// The document title: 18 pt bold.
    Title,
    /// The subtitle: 13 pt.
    Subtitle,
    /// A section title: 15 pt bold.
    SectionTitle,
    /// A table title: 12 pt bold.
    TableTitle,
}

/// One editing command on the document being written. Paragraphs are
/// appended to the first section; a format applies to the paragraph written
/// last (the first paragraph, before anything is appended).
#[derive(Debug, Clone, PartialEq, Eq)]
pub enum ReportEdit {
    /// Writes the text into the first paragraph.
    SetTitle { text: String },
    /// Appends a paragraph and writes the text into it (when there is any).
    AppendParagraph { text: String },
    /// Appends a paragraph, breaks the page there, and writes the text into
    /// the paragraph after the break (when there is any).
    AppendPageBreakParagraph { text: String },
    /// Gives the first `char_count` characters of the last paragraph a format.
    FormatLastParagraph { char_count: usize, format: CharFormatPreset },
    /// Creates the running header (or footer) and writes the text into it.
    CreateRepeatingText { is_header: bool, text: String },
    /// Appends an empty paragraph and creates a table of that size there.
    CreateTable { rows: u16, cols: u16 },
    /// Writes the text into cell `cell` (row-major) of the table created last.
    SetTableCell { cell: usize, text: String },
}

/// The mathematical form of an editing command.
pub enum EditSpec {
    SetTitle(Seq<char>),
    AppendParagraph(Seq<char>),
    AppendPageBreakParagraph(Seq<char>),
    FormatLastParagraph(nat, CharFormatPreset),
    CreateRepeatingText(bool, Seq<char>),
    CreateTable(nat, nat),
    SetTableCell(nat, Seq<char>),
}

impl View for ReportEdit {
    type V = EditSpec;

    open spec fn view(&self) -> EditSpec {
        match self {
            ReportEdit::SetTitle { text } => EditSpec::SetTitle(text@),
            ReportEdit::AppendParagraph { text } => EditSpec::AppendParagraph(text@),
            ReportEdit::AppendPageBreakParagraph { text } => EditSpec::AppendPageBreakParagraph(
                text@,
            ),
            ReportEdit::FormatLastParagraph { char_count, format } => EditSpec::FormatLastParagraph(
                *char_count as nat,
                *format,
            ),
            ReportEdit::CreateRepeatingText { is_header, text } => EditSpec::CreateRepeatingText(
                *is_header,
                text@,
            ),
            ReportEdit::CreateTable { rows, cols } => EditSpec::CreateTable(
                *rows as nat,
                *cols as nat,
            ),
            ReportEdit::SetTableCell { cell, text } => EditSpec::SetTableCell(*cell as nat, text@),
        }
    }
}

/// The commands of a plan, each by its mathematical form.
pub open spec fn edits_view(s: Seq<ReportEdit>) -> Seq<EditSpec> {
    s.map_values(|e: ReportEdit| e@)
}

/// Appends one command to a plan.
fn push_edit(plan: &mut Vec<ReportEdit>, e: ReportEdit)
    ensures
        edits_view(final(plan)@) == edits_view(old(plan)@).push(e@),
{
    plan.push(e);
    assert(edits_view(final(plan)@) =~= edits_view(old(plan)@).push(e@));
}

// ---------------------------------------------------------------------------
// Optional text
// ---------------------------------------------------------------------------

/// The trimmed text, when something is left of it.
pub open spec fn non_empty_spec(value: Option<Seq<char>>) -> Option<Seq<char>> {
    match value {
        Some(s) => if trim_seq(s).len() == 0 {
            None
        } else {
            Some(trim_seq(s))
        },
        None => None,
    }
}

pub open spec fn opt_string_view(value: Option<String>) -> Option<Seq<char>> {
    match value {
        Some(s) => Some(s@),
        None => None,
    }
}

/// The trimmed text, when something is left of it.
fn non_empty(value: Option<&str>) -> (r: Option<&str>)
    ensures
        match r {
            Some(t) => non_empty_spec(
                match value {
                    Some(s) => Some(s@),
                    None => None,
                },
            ) == Some(t@),
            None => non_empty_spec(
                match value {
                    Some(s) => Some(s@),
                    None => None,
                },
            ) is None,
        },
{
    match value {
        Some(s) => {
            let trimmed = trim_str(s);
            if trimmed.is_empty() {
                None
            } else {
                Some(trimmed)
            }
        },
        None => None,
    }
}

/// The trimmed text of an optional field, when something is left of it.
fn non_empty_field(value: &Option<String>) -> (r: Option<&str>)
    ensures
        match r {
            Some(t) => non_empty_spec(opt_string_view(*value)) == Some(t@),
            None => non_empty_spec(opt_string_view(*value)) is None,
        },
{
    match value {
        Some(s) => non_empty(Some(s.as_str())),
        None => None,
    }
}

/// Whether the report has a running header.
pub fn has_repeating_header(report: &GovernmentReport) -> (r: bool)
    ensures
        r == non_empty_spec(opt_string_view(report.header)) is Some,
{
    non_empty_field(&report.header).is_some()
}

/// Whether the report has a running footer.
pub fn has_repeating_footer(report: &GovernmentReport) -> (r: bool)
    ensures
        r == non_empty_spec(opt_string_view(report.page_footer)) is Some,
{
    non_empty_field(&report.page_footer).is_some()
}

// ---------------------------------------------------------------------------
// Counting tables
// ---------------------------------------------------------------------------

/// The number of tables of the sections.
pub open spec fn section_table_total(sections: Seq<GovernmentReportSection>) -> nat
    decreases sections.len(),
{
    if sections.len() == 0 {
        0
    } else {
        section_table_total(sections.drop_last()) + sections.last().tables@.len()
    }
}

/// The number of tables the report's document holds: the summary table and
/// those of the sections.
pub open spec fn report_table_count_spec(report: GovernmentReport) -> nat {
    1 + section_table_total(report.sections@)
}

proof fn lemma_section_table_total_prefix(s: Seq<GovernmentReportSection>, i: int)
    requires
        0 <= i <= s.len(),
    ensures
        section_table_total(s.subrange(0, i)) <= section_table_total(s),
    decreases s.len() - i,
{
    if i < s.len() {
        lemma_section_table_total_prefix(s, i + 1);
        assert(s.subrange(0, i + 1).drop_last() =~= s.subrange(0, i));
    } else {
        assert(s.subrange(0, i) =~= s);
    }
}

/// The number of tables the report's document holds.
pub fn report_table_count(report: &GovernmentReport) -> (r: usize)
    requires
        report_table_count_spec(*report) <= usize::MAX,
    ensures
        r == report_table_count_spec(*report),
{
    let mut total: usize = 1;
    let mut i: usize = 0;
    while i < report.sections.len()
        invariant
            i <= report.sections@.len(),
            report_table_count_spec(*report) <= usize::MAX,
            total == 1 + section_table_total(report.sections@.subrange(0, i as int)),
        decreases report.sections@.len() - i,
    {
        proof {
            lemma_section_table_total_prefix(report.sections@, i + 1);
            assert(report.sections@.subrange(0, i + 1).drop_last() =~= report.sections@.subrange(
                0,
                i as int,
            ));
        }
        total = total + report.sections[i].tables.len();
        i = i + 1;
    }
    assert(report.sections@.subrange(0, i as int) =~= report.sections@);
    total
}

// ---------------------------------------------------------------------------
// The metadata line
// ---------------------------------------------------------------------------

/// The parts joined by the separator.
pub open spec fn join_with(parts: Seq<Seq<char>>, sep: Seq<char>) -> Seq<char>
    decreases parts.len(),
{
    if parts.len() == 0 {
        Seq::empty()
    } else if parts.len() == 1 {
        parts[0]
    } else {
        join_with(parts.drop_last(), sep) + sep + parts.last()
    }
}

/// A labelled part of the metadata line, when the field has text.
pub open spec fn labelled(label: Seq<char>, value: Option<String>) -> Seq<Seq<char>> {
    match non_empty_spec(opt_string_view(value)) {
        Some(v) => seq![label + v],
        None => Seq::empty(),
    }
}

/// The organisation, period and classification of the report, those that
/// are given, each with its label, joined by ` | `.
pub open spec fn metadata_line_spec(report: GovernmentReport) -> Seq<char> {
    join_with(
        labelled("기관: "@, report.organization) + labelled("기간: "@, report.period) + labelled(
            "분류: "@,
            report.confidentiality,
        ),
        " | "@,
    )
}

/// Adds a labelled part to a line being joined.
fn push_labelled(
    line: &mut String,
    any: bool,
    parts: Ghost<Seq<Seq<char>>>,
    label: &str,
    value: &Option<String>,
) -> (r: (bool, Ghost<Seq<Seq<char>>>))
    requires
        old(line)@ == join_with(parts@, " | "@),
        any == (parts@.len() > 0),
    ensures
        r.1@ == parts@ + labelled(label@, *value),
        final(line)@ == join_with(r.1@, " | "@),
        r.0 == (r.1@.len() > 0),
{
    match non_empty_field(value) {
        Some(v) => {
            if any {
                push_str(line, " | ");
            }
            push_str(line, label);
            push_str(line, v);
            let ghost np = parts@.push(label@ + v@);
            proof {
                assert(np.drop_last() =~= parts@);
                if parts@.len() == 0 {
                    assert(final(line)@ =~= label@ + v@);
                } else {
                    assert(final(line)@ =~= join_with(parts@, " | "@) + " | "@ + (label@ + v@));
                }
                assert(parts@ + labelled(label@, *value) =~= np);
            }
            (true, Ghost(np))
        },
        None => {
            assert(parts@ + labelled(label@, *value) =~= parts@);
            (any, parts)
        },
    }
}

/// The metadata line of a report (see `metadata_line_spec`).
pub fn metadata_line(report: &GovernmentReport) -> (r: String)
    ensures
        r@ == metadata_line_spec(*report),
{
    let mut line = String::new();
    let parts = Ghost(Seq::<Seq<char>>::empty());
    let (any, parts) = push_labelled(&mut line, false, parts, "기관: ", &report.organization);
    let (any, parts) = push_labelled(&mut line, any, parts, "기간: ", &report.period);
    let (_, parts) = push_labelled(&mut line, any, parts, "분류: ", &report.confidentiality);
    assert(parts@ =~= labelled("기관: "@, report.organization) + labelled("기간: "@, report.period)
        + labelled("분류: "@, report.confidentiality));
    line
}

// ---------------------------------------------------------------------------
// Tables
// ---------------------------------------------------------------------------

/// The texts of a list of strings.
pub open spec fn strings_view(v: Seq<String>) -> Seq<Seq<char>> {
    v.map_values(|s: String| s@)
}

/// The texts of a table's rows.
pub open spec fn matrix_view(rows: Seq<Vec<String>>) -> Seq<Seq<Seq<char>>> {
    rows.map_values(|r: Vec<String>| strings_view(r@))
}

/// The length of the longest row (0 for no rows).
pub open spec fn longest_row(rows: Seq<Seq<Seq<char>>>) -> nat
    decreases rows.len(),
{
    if rows.len() == 0 {
        0
    } else {
        let rest = longest_row(rows.drop_last());
        if rows.last().len() > rest {
            rows.last().len()
        } else {
            rest
        }
    }
}

/// The column count of a table: that of its header or longest row, and at
/// least 1.
pub open spec fn matrix_col_count_spec(headers: Seq<Seq<char>>, rows: Seq<Seq<Seq<char>>>) -> nat {
    let w = if headers.len() > longest_row(rows) {
        headers.len()
    } else {
        longest_row(rows)
    };
    if w < 1 {
        1
    } else {
        w
    }
}

/// The row count of a table: its header row (if any) and body rows, at
/// least 1 (the sum saturating at `usize::MAX`).
pub open spec fn matrix_row_count_spec(headers: Seq<Seq<char>>, rows: Seq<Seq<Seq<char>>>) -> nat {
    let sum = (if headers.len() == 0 {
        0nat
    } else {
        1nat
    }) + rows.len();
    let sat = if sum > usize::MAX {
        usize::MAX as nat
    } else {
        sum
    };
    if sat < 1 {
        1
    } else {
        sat
    }
}

/// The commands that fill the header row: one per non-empty header.
pub open spec fn header_cell_edits(headers: Seq<Seq<char>>) -> Seq<EditSpec>
    decreases headers.len(),
{
    if headers.len() == 0 {
        Seq::empty()
    } else {
        header_cell_edits(headers.drop_last()) + if headers.last().len() == 0 {
            Seq::empty()
        } else {
            seq![EditSpec::SetTableCell((headers.len() - 1) as nat, headers.last())]
        }
    }
}

/// The text of column `col` of a row (empty past its end).
pub open spec fn row_cell_text(row: Seq<Seq<char>>, col: int) -> Seq<char> {
    if col < row.len() {
        row[col]
    } else {
        Seq::empty()
    }
}

/// The commands that fill the first `cols` columns of a body row whose first
/// cell has index `base`: one per non-empty text.
pub open spec fn body_row_edits(row: Seq<Seq<char>>, base: nat, cols: nat) -> Seq<EditSpec>
    decreases cols,
{
    if cols == 0 {
        Seq::empty()
    } else {
        let text = row_cell_text(row, cols - 1);
        body_row_edits(row, base, (cols - 1) as nat) + if text.len() == 0 {
            Seq::empty()
        } else {
            seq![EditSpec::SetTableCell((base + cols - 1) as nat, text)]
        }
    }
}

/// The commands that fill the body rows, which start at table row `offset`.
pub open spec fn body_edits(rows: Seq<Seq<Seq<char>>>, offset: nat, cols: nat) -> Seq<EditSpec>
    decreases rows.len(),
{
    if rows.len() == 0 {
        Seq::empty()
    } else {
        body_edits(rows.drop_last(), offset, cols) + body_row_edits(
            rows.last(),
            ((rows.len() - 1 + offset) * cols) as nat,
            cols,
        )
    }
}

/// The commands that write a table, or the error when it has more rows or
/// columns than a document table can.
pub open spec fn matrix_table_edits(headers: Seq<Seq<char>>, rows: Seq<Seq<Seq<char>>>) -> Result<
    Seq<EditSpec>,
    Seq<char>,
> {
    let nrows = matrix_row_count_spec(headers, rows);
    let ncols = matrix_col_count_spec(headers, rows);
    if nrows > 0xFFFF {
        Err("too many rows for government report table: "@ + dec_seq(nrows))
    } else if ncols > 0xFFFF {
        Err("too many columns for government report table: "@ + dec_seq(ncols))
    } else {
        Ok(
            seq![EditSpec::CreateTable(nrows, ncols)] + header_cell_edits(headers) + body_edits(
                rows,
                if headers.len() == 0 {
                    0
                } else {
                    1
                },
                ncols,
            ),
        )
    }
}

/// What a planning step did: on success the plan grew by the part, on
/// failure the part is that error.
pub open spec fn step_done(
    r: Result<(), String>,
    before: Seq<ReportEdit>,
    after: Seq<ReportEdit>,
    part: Result<Seq<EditSpec>, Seq<char>>,
) -> bool {
    match r {
        Ok(_) => match part {
            Ok(p) => edits_view(after) == edits_view(before) + p,
            Err(_) => false,
        },
        Err(e) => part == Err::<Seq<EditSpec>, Seq<char>>(e@),
    }
}

/// The column count of a table.
fn matrix_col_count(headers: &Vec<String>, rows: &Vec<Vec<String>>) -> (r: usize)
    ensures
        r == matrix_col_count_spec(strings_view(headers@), matrix_view(rows@)),
{
    let ghost mv = matrix_view(rows@);
    let mut widest: usize = 0;
    let mut i: usize = 0;
    while i < rows.len()
        invariant
            i <= rows@.len(),
            mv == matrix_view(rows@),
            widest == longest_row(mv.subrange(0, i as int)),
        decreases rows@.len() - i,
    {
        assert(mv.subrange(0, i + 1).drop_last() =~= mv.subrange(0, i as int));
        assert(mv[i as int].len() == rows@[i as int]@.len());
        if rows[i].len() > widest {
            widest = rows[i].len();
        }
        i = i + 1;
    }
    assert(mv.subrange(0, i as int) =~= mv);
    let w = if headers.len() > widest {
        headers.len()
    } else {
        widest
    };
    if w < 1 {
        1
    } else {
        w
    }
}

/// Appends the commands that write a table.
fn create_matrix_table(
    plan: &mut Vec<ReportEdit>,
    headers: &Vec<String>,
    rows: &Vec<Vec<String>>,
) -> (r: Result<(), String>)
    ensures
        step_done(r, old(plan)@, final(plan)@, matrix_table_edits(strings_view(headers@), matrix_view(rows@))),
{
    let ghost hv = strings_view(headers@);
    let ghost mv = matrix_view(rows@);
    let col_count = matrix_col_count(headers, rows);
    let header_rows: usize = if headers.len() == 0 {
        0
    } else {
        1
    };
    let sum: usize = if rows.len() == usize::MAX && header_rows == 1 {
        usize::MAX
    } else {
        header_rows + rows.len()
    };
    let row_count: usize = if sum < 1 {
        1
    } else {
        sum
    };
    assert(row_count == matrix_row_count_spec(hv, mv));
    if row_count > 0xFFFF {
        let mut msg = string_of("too many rows for government report table: ");
        push_decimal(&mut msg, row_count as u64);
        return Err(msg);
    }
    if col_count > 0xFFFF {
        let mut msg = string_of("too many columns for government report table: ");
        push_decimal(&mut msg, col_count as u64);
        return Err(msg);
    }
    let ghost base = edits_view(plan@);
    push_edit(plan, ReportEdit::CreateTable { rows: row_count as u16, cols: col_count as u16 });
    let mut col: usize = 0;
    while col < headers.len()
        invariant
            col <= headers@.len(),
            hv == strings_view(headers@),
            edits_view(plan@) == base + seq![EditSpec::CreateTable(row_count as nat, col_count as nat)]
                + header_cell_edits(hv.subrange(0, col as int)),
        decreases headers@.len() - col,
    {
        assert(hv.subrange(0, col + 1).drop_last() =~= hv.subrange(0, col as int));
        assert(hv[col as int] == headers@[col as int]@);
        if !headers[col].as_str().is_empty() {
            push_edit(plan, ReportEdit::SetTableCell { cell: col, text: string_of(headers[col].as_str()) });
        }
        col = col + 1;
    }
    assert(hv.subrange(0, col as int) =~= hv);
    let ghost after_header = edits_view(plan@);
    let offset: usize = header_rows;
    let mut row_idx: usize = 0;
    while row_idx < rows.len()
        invariant
            row_idx <= rows@.len(),
            mv == matrix_view(rows@),
            offset == (if hv.len() == 0 { 0nat } else { 1nat }),
            offset + rows@.len() <= row_count,
            row_count <= 0xFFFF,
            1 <= col_count <= 0xFFFF,
            edits_view(plan@) == after_header + body_edits(mv.subrange(0, row_idx as int), offset as nat, col_count as nat),
        decreases rows@.len() - row_idx,
    {
        assert(mv.subrange(0, row_idx + 1).drop_last() =~= mv.subrange(0, row_idx as int));
        let row = &rows[row_idx];
        let ghost rv = mv[row_idx as int];
        assert(rv == strings_view(row@));
        let r = row_idx + offset;
        assert(r * col_count <= 0xFFFE * 0xFFFF) by (nonlinear_arith)
            requires
                r < 0xFFFF,
                col_count <= 0xFFFF,
        ;
        let base_cell: usize = r * col_count;
        let ghost row_start = edits_view(plan@);
        let mut col: usize = 0;
        while col < col_count
            invariant
                col <= col_count,
                col_count <= 0xFFFF,
                base_cell <= 0xFFFE * 0xFFFF,
                rv == strings_view(row@),
                edits_view(plan@) == row_start + body_row_edits(rv, base_cell as nat, col as nat),
            decreases col_count - col,
        {
            let text: &str = if col < row.len() {
                row[col].as_str()
            } else {
                ""
            };
            proof {
                if col >= row@.len() {
                    reveal_strlit("");
                }
            }
            assert(text@ == row_cell_text(rv, col as int));
            if !text.is_empty() {
                push_edit(plan, ReportEdit::SetTableCell { cell: base_cell + col, text: string_of(text) });
            }
            col = col + 1;
        }
        row_idx = row_idx + 1;
    }
    assert(mv.subrange(0, row_idx as int) =~= mv);
    assert(edits_view(plan@) =~= base + (seq![EditSpec::CreateTable(row_count as nat, col_count as nat)]
        + header_cell_edits(hv) + body_edits(mv, offset as nat, col_count as nat)));
    Ok(())
}

// ---------------------------------------------------------------------------
// The whole report
// ---------------------------------------------------------------------------

/// `a`, then `b`: the first error, or both parts in order.
pub open spec fn then_edits(
    a: Result<Seq<EditSpec>, Seq<char>>,
    b: Result<Seq<EditSpec>, Seq<char>>,
) -> Result<Seq<EditSpec>, Seq<char>> {
    match a {
        Ok(x) => match b {
            Ok(y) => Ok(x + y),
            Err(e) => Err(e),
        },
        Err(e) => Err(e),
    }
}

/// A paragraph for the text, when there is one.
pub open spec fn append_if_some(v: Option<Seq<char>>) -> Seq<EditSpec> {
    match v {
        Some(t) => seq![EditSpec::AppendParagraph(t)],
        None => Seq::empty(),
    }
}

/// The format command for a paragraph of this text (none when it is empty).
pub open spec fn formatted(text: Seq<char>, f: CharFormatPreset) -> Seq<EditSpec> {
    if text.len() == 0 {
        Seq::empty()
    } else {
        seq![EditSpec::FormatLastParagraph(text.len(), f)]
    }
}

/// The title and its format.
pub open spec fn title_part(r: GovernmentReport) -> Seq<EditSpec> {
    (if r.title@.len() == 0 {
        Seq::empty()
    } else {
        seq![EditSpec::SetTitle(r.title@)]
    }) + formatted(r.title@, CharFormatPreset::Title)
}

/// The subtitle paragraph and its format, when there is a subtitle.
pub open spec fn subtitle_part(r: GovernmentReport) -> Seq<EditSpec> {
    match non_empty_spec(opt_string_view(r.subtitle)) {
        Some(t) => seq![EditSpec::AppendParagraph(t)] + formatted(t, CharFormatPreset::Subtitle),
        None => Seq::empty(),
    }
}

/// The metadata paragraph, when there is metadata.
pub open spec fn metadata_part(r: GovernmentReport) -> Seq<EditSpec> {
    if metadata_line_spec(r).len() == 0 {
        Seq::empty()
    } else {
        seq![EditSpec::AppendParagraph(metadata_line_spec(r))]
    }
}

/// The running header or footer, when there is text for it.
pub open spec fn repeating_part(is_header: bool, v: Option<String>) -> Seq<EditSpec> {
    match non_empty_spec(opt_string_view(v)) {
        Some(t) => seq![EditSpec::CreateRepeatingText(is_header, t)],
        None => Seq::empty(),
    }
}

/// The commands before the summary table: title, subtitle, metadata line,
/// summary paragraph, running header and footer.
pub open spec fn head_edits(r: GovernmentReport) -> Seq<EditSpec> {
    title_part(r) + subtitle_part(r) + metadata_part(r) + append_if_some(
        non_empty_spec(opt_string_view(r.summary)),
    ) + repeating_part(true, r.header) + repeating_part(false, r.page_footer)
}

/// The header of the summary table.
pub open spec fn summary_headers() -> Seq<Seq<char>> {
    seq!["항목"@, "값"@, "단위"@]
}

/// The text of an optional unit (empty when there is none).
pub open spec fn unit_text(u: Option<String>) -> Seq<char> {
    match u {
        Some(t) => t@,
        None => Seq::empty(),
    }
}

/// The rows of the summary table: item, value, unit.
pub open spec fn summary_rows_view(rows: Seq<GovernmentReportRow>) -> Seq<Seq<Seq<char>>> {
    rows.map_values(|r: GovernmentReportRow| seq![r.label@, r.value@, unit_text(r.unit)])
}

/// The commands for the non-empty paragraphs of a section (trimmed).
pub open spec fn paragraph_edits(ps: Seq<String>) -> Seq<EditSpec>
    decreases ps.len(),
{
    if ps.len() == 0 {
        Seq::empty()
    } else {
        paragraph_edits(ps.drop_last()) + append_if_some(non_empty_spec(Some(ps.last()@)))
    }
}

/// The commands for a table of a section: its title, then the table.
pub open spec fn table_edits(t: GovernmentReportTable) -> Result<Seq<EditSpec>, Seq<char>> {
    then_edits(
        Ok(
            match non_empty_spec(opt_string_view(t.title)) {
                Some(title) => seq![EditSpec::AppendParagraph(title)] + formatted(
                    title,
                    CharFormatPreset::TableTitle,
                ),
                None => Seq::empty(),
            },
        ),
        matrix_table_edits(strings_view(t.headers@), matrix_view(t.rows@)),
    )
}

/// The commands for the tables of a section.
pub open spec fn tables_edits(ts: Seq<GovernmentReportTable>) -> Result<Seq<EditSpec>, Seq<char>>
    decreases ts.len(),
{
    if ts.len() == 0 {
        Ok(Seq::empty())
    } else {
        then_edits(tables_edits(ts.drop_last()), table_edits(ts.last()))
    }
}

/// The commands for a section: its title (after a page break when it asks
/// for one and is not the first section), its paragraphs and its tables.
pub open spec fn section_edits(sec: GovernmentReportSection, allow_page_break: bool) -> Result<
    Seq<EditSpec>,
    Seq<char>,
> {
    then_edits(
        Ok(
            (if sec.page_break_before && allow_page_break {
                seq![EditSpec::AppendPageBreakParagraph(sec.title@)]
            } else {
                seq![EditSpec::AppendParagraph(sec.title@)]
            }) + formatted(sec.title@, CharFormatPreset::SectionTitle) + paragraph_edits(
                sec.paragraphs@,
            ),
        ),
        tables_edits(sec.tables@),
    )
}

/// The commands for the sections, in order.
pub open spec fn sections_edits(secs: Seq<GovernmentReportSection>) -> Result<
    Seq<EditSpec>,
    Seq<char>,
>
    decreases secs.len(),
{
    if secs.len() == 0 {
        Ok(Seq::empty())
    } else {
        then_edits(sections_edits(secs.drop_last()), section_edits(secs.last(), secs.len() > 1))
    }
}

/// The commands that write a report into a blank document, or the error of
/// the first table that is too large.
pub open spec fn report_plan(r: GovernmentReport) -> Result<Seq<EditSpec>, Seq<char>> {
    then_edits(
        Ok(head_edits(r)),
        then_edits(
            matrix_table_edits(summary_headers(), summary_rows_view(r.rows@)),
            then_edits(
                sections_edits(r.sections@),
                Ok(append_if_some(non_empty_spec(opt_string_view(r.footer)))),
            ),
        ),
    )
}

proof fn lemma_then_assoc(
    a: Result<Seq<EditSpec>, Seq<char>>,
    b: Result<Seq<EditSpec>, Seq<char>>,
    c: Result<Seq<EditSpec>, Seq<char>>,
)
    ensures
        then_edits(then_edits(a, b), c) == then_edits(a, then_edits(b, c)),
{
    match a {
        Ok(x) => match b {
            Ok(y) => match c {
                Ok(z) => {
                    assert(x + y + z =~= x + (y + z));
                },
                Err(_) => {},
            },
            Err(_) => {},
        },
        Err(_) => {},
    }
}

proof fn lemma_tables_err_prefix(ts: Seq<GovernmentReportTable>, i: int, e: Seq<char>)
    requires
        0 <= i <= ts.len(),
        tables_edits(ts.subrange(0, i)) == Err::<Seq<EditSpec>, Seq<char>>(e),
    ensures
        tables_edits(ts) == Err::<Seq<EditSpec>, Seq<char>>(e),
    decreases ts.len() - i,
{
    if i < ts.len() {
        assert(ts.subrange(0, i + 1).drop_last() =~= ts.subrange(0, i));
        lemma_tables_err_prefix(ts, i + 1, e);
    } else {
        assert(ts.subrange(0, i) =~= ts);
    }
}

proof fn lemma_sections_err_prefix(ss: Seq<GovernmentReportSection>, i: int, e: Seq<char>)
    requires
        0 <= i <= ss.len(),
        sections_edits(ss.subrange(0, i)) == Err::<Seq<EditSpec>, Seq<char>>(e),
    ensures
        sections_edits(ss) == Err::<Seq<EditSpec>, Seq<char>>(e),
    decreases ss.len() - i,
{
    if i < ss.len() {
        assert(ss.subrange(0, i + 1).drop_last() =~= ss.subrange(0, i));
        lemma_sections_err_prefix(ss, i + 1, e);
    } else {
        assert(ss.subrange(0, i) =~= ss);
    }
}

/// Appends a paragraph command for the text, if there is one.
fn push_append_if_some(plan: &mut Vec<ReportEdit>, v: Option<&str>)
    ensures
        edits_view(final(plan)@) == edits_view(old(plan)@) + append_if_some(
            match v {
                Some(t) => Some(t@),
                None => None,
            },
        ),
{
    match v {
        Some(t) => {
            push_edit(plan, ReportEdit::AppendParagraph { text: string_of(t) });
        },
        None => {
            assert(edits_view(plan@) =~= edits_view(plan@) + Seq::<EditSpec>::empty());
        },
    }
}

/// Appends the format command for a paragraph of this text.
fn push_formatted(plan: &mut Vec<ReportEdit>, text: &str, f: CharFormatPreset)
    ensures
        edits_view(final(plan)@) == edits_view(old(plan)@) + formatted(text@, f),
{
    let n = text.unicode_len();
    if n > 0 {
        push_edit(plan, ReportEdit::FormatLastParagraph { char_count: n, format: f });
    } else {
        assert(edits_view(plan@) =~= edits_view(plan@) + Seq::<EditSpec>::empty());
    }
}

fn plan_title(plan: &mut Vec<ReportEdit>, report: &GovernmentReport)
    ensures
        edits_view(final(plan)@) == edits_view(old(plan)@) + title_part(*report),
{
    let ghost start = edits_view(plan@);
    if !report.title.as_str().is_empty() {
        push_edit(plan, ReportEdit::SetTitle { text: string_of(report.title.as_str()) });
    }
    let ghost a = edits_view(plan@);
    push_formatted(plan, report.title.as_str(), CharFormatPreset::Title);
    assert(edits_view(plan@) =~= start + title_part(*report));
}

fn plan_subtitle(plan: &mut Vec<ReportEdit>, report: &GovernmentReport)
    ensures
        edits_view(final(plan)@) == edits_view(old(plan)@) + subtitle_part(*report),
{
    let ghost start = edits_view(plan@);
    match non_empty_field(&report.subtitle) {
        Some(t) => {
            push_edit(plan, ReportEdit::AppendParagraph { text: string_of(t) });
            push_formatted(plan, t, CharFormatPreset::Subtitle);
        },
        None => {},
    }
    assert(edits_view(plan@) =~= start + subtitle_part(*report));
}

fn plan_metadata(plan: &mut Vec<ReportEdit>, report: &GovernmentReport)
    ensures
        edits_view(final(plan)@) == edits_view(old(plan)@) + metadata_part(*report),
{
    let ghost start = edits_view(plan@);
    let metadata = metadata_line(report);
    if !metadata.as_str().is_empty() {
        push_edit(plan, ReportEdit::AppendParagraph { text: metadata });
    }
    assert(edits_view(plan@) =~= start + metadata_part(*report));
}

fn plan_repeating(plan: &mut Vec<ReportEdit>, is_header: bool, value: &Option<String>)
    ensures
        edits_view(final(plan)@) == edits_view(old(plan)@) + repeating_part(is_header, *value),
{
    let ghost start = edits_view(plan@);
    match non_empty_field(value) {
        Some(t) => {
            push_edit(plan, ReportEdit::CreateRepeatingText { is_header, text: string_of(t) });
        },
        None => {},
    }
    assert(edits_view(plan@) =~= start + repeating_part(is_header, *value));
}

/// Appends the commands before the summary table.
fn plan_head(plan: &mut Vec<ReportEdit>, report: &GovernmentReport)
    ensures
        edits_view(final(plan)@) == edits_view(old(plan)@) + head_edits(*report),
{
    let ghost s0 = edits_view(plan@);
    plan_title(plan, report);
    plan_subtitle(plan, report);
    plan_metadata(plan, report);
    push_append_if_some(plan, non_empty_field(&report.summary));
    plan_repeating(plan, true, &report.header);
    plan_repeating(plan, false, &report.page_footer);
    assert(edits_view(plan@) =~= s0 + head_edits(*report));
}

/// The commands of a successful part (nothing for an error).
pub open spec fn ok_part(r: Result<Seq<EditSpec>, Seq<char>>) -> Seq<EditSpec> {
    match r {
        Ok(x) => x,
        Err(_) => Seq::empty(),
    }
}

/// Appends the commands that write the summary table.
fn plan_summary_table(plan: &mut Vec<ReportEdit>, rows: &Vec<GovernmentReportRow>) -> (r: Result<
    (),
    String,
>)
    ensures
        step_done(r, old(plan)@, final(plan)@, matrix_table_edits(summary_headers(), summary_rows_view(rows@))),
{
    let mut headers: Vec<String> = Vec::new();
    headers.push(string_of("항목"));
    headers.push(string_of("값"));
    headers.push(string_of("단위"));
    assert(strings_view(headers@) =~= summary_headers());
    let mut table_rows: Vec<Vec<String>> = Vec::new();
    let mut i: usize = 0;
    while i < rows.len()
        invariant
            i <= rows@.len(),
            table_rows@.len() == i,
            matrix_view(table_rows@) == summary_rows_view(rows@.subrange(0, i as int)),
        decreases rows@.len() - i,
    {
        let row = &rows[i];
        let mut cells: Vec<String> = Vec::new();
        cells.push(string_of(row.label.as_str()));
        cells.push(string_of(row.value.as_str()));
        let unit = match &row.unit {
            Some(u) => string_of(u.as_str()),
            None => String::new(),
        };
        cells.push(unit);
        assert(strings_view(cells@) =~= seq![row.label@, row.value@, unit_text(row.unit)]);
        let ghost before = table_rows@;
        table_rows.push(cells);
        assert forall|j: int| 0 <= j < i + 1 implies #[trigger] matrix_view(table_rows@)[j]
            == summary_rows_view(rows@.subrange(0, i + 1))[j] by {
            if j < i {
                assert(table_rows@[j] == before[j]);
                assert(matrix_view(before)[j] == summary_rows_view(rows@.subrange(0, i as int))[j]);
            }
        }
        assert(matrix_view(table_rows@) =~= summary_rows_view(rows@.subrange(0, i + 1)));
        i = i + 1;
    }
    assert(rows@.subrange(0, i as int) =~= rows@);
    create_matrix_table(plan, &headers, &table_rows)
}

/// Appends the commands for one table of a section.
fn plan_table(plan: &mut Vec<ReportEdit>, table: &GovernmentReportTable) -> (r: Result<(), String>)
    ensures
        step_done(r, old(plan)@, final(plan)@, table_edits(*table)),
{
    let ghost start = edits_view(plan@);
    match non_empty_field(&table.title) {
        Some(t) => {
            push_edit(plan, ReportEdit::AppendParagraph { text: string_of(t) });
            push_formatted(plan, t, CharFormatPreset::TableTitle);
        },
        None => {},
    }
    let ghost title_part = edits_view(plan@).subrange(start.len() as int, edits_view(plan@).len() as int);
    assert(edits_view(plan@) =~= start + title_part);
    assert(title_part =~= match non_empty_spec(opt_string_view(table.title)) {
        Some(title) => seq![EditSpec::AppendParagraph(title)] + formatted(title, CharFormatPreset::TableTitle),
        None => Seq::<EditSpec>::empty(),
    });
    let r = create_matrix_table(plan, &table.headers, &table.rows);
    proof {
        match r {
            Ok(_) => {
                let m = matrix_table_edits(strings_view(table.headers@), matrix_view(table.rows@));
                assert(edits_view(plan@) =~= start + (title_part + ok_part(m)));
            },
            Err(_) => {},
        }
    }
    r
}

/// Appends the commands for the tables of a section.
fn plan_tables(plan: &mut Vec<ReportEdit>, tables: &Vec<GovernmentReportTable>) -> (r: Result<
    (),
    String,
>)
    ensures
        step_done(r, old(plan)@, final(plan)@, tables_edits(tables@)),
{
    let ghost base = edits_view(plan@);
    let ghost ts = tables@;
    assert(ts.subrange(0, 0) =~= Seq::<GovernmentReportTable>::empty());
    let mut i: usize = 0;
    while i < tables.len()
        invariant
            i <= ts.len(),
            ts == tables@,
            tables_edits(ts.subrange(0, i as int)) is Ok,
            edits_view(plan@) == base + ok_part(tables_edits(ts.subrange(0, i as int))),
        decreases ts.len() - i,
    {
        assert(ts.subrange(0, i + 1).drop_last() =~= ts.subrange(0, i as int));
        let ghost before = edits_view(plan@);
        let r = plan_table(plan, &tables[i]);
        match r {
            Ok(_) => {
                assert(edits_view(plan@) =~= base + ok_part(tables_edits(ts.subrange(0, i + 1))));
            },
            Err(e) => {
                proof {
                    lemma_tables_err_prefix(ts, i + 1, e@);
                }
                return Err(e);
            },
        }
        i = i + 1;
    }
    assert(ts.subrange(0, i as int) =~= ts);
    Ok(())
}

/// Appends the commands for one section.
fn plan_section(plan: &mut Vec<ReportEdit>, section: &GovernmentReportSection, allow_page_break: bool) -> (r: Result<(), String>)
    ensures
        step_done(r, old(plan)@, final(plan)@, section_edits(*section, allow_page_break)),
{
    let ghost start = edits_view(plan@);
    if section.page_break_before && allow_page_break {
        push_edit(plan, ReportEdit::AppendPageBreakParagraph { text: string_of(section.title.as_str()) });
    } else {
        push_edit(plan, ReportEdit::AppendParagraph { text: string_of(section.title.as_str()) });
    }
    push_formatted(plan, section.title.as_str(), CharFormatPreset::SectionTitle);
    let ghost after_title = edits_view(plan@);
    let mut i: usize = 0;
    while i < section.paragraphs.len()
        invariant
            i <= section.paragraphs@.len(),
            edits_view(plan@) == after_title + paragraph_edits(section.paragraphs@.subrange(0, i as int)),
        decreases section.paragraphs@.len() - i,
    {
        assert(section.paragraphs@.subrange(0, i + 1).drop_last() =~= section.paragraphs@.subrange(0, i as int));
        push_append_if_some(plan, non_empty(Some(section.paragraphs[i].as_str())));
        i = i + 1;
    }
    assert(section.paragraphs@.subrange(0, i as int) =~= section.paragraphs@);
    let ghost head = edits_view(plan@).subrange(start.len() as int, edits_view(plan@).len() as int);
    assert(edits_view(plan@) =~= start + head);
    assert(head =~= (if section.page_break_before && allow_page_break {
        seq![EditSpec::AppendPageBreakParagraph(section.title@)]
    } else {
        seq![EditSpec::AppendParagraph(section.title@)]
    }) + formatted(section.title@, CharFormatPreset::SectionTitle) + paragraph_edits(
        section.paragraphs@,
    ));
    let r = plan_tables(plan, &section.tables);
    proof {
        match r {
            Ok(_) => {
                assert(edits_view(plan@) =~= start + (head + ok_part(tables_edits(section.tables@))));
            },
            Err(_) => {},
        }
    }
    r
}

/// Appends the commands for the sections.
fn plan_sections(plan: &mut Vec<ReportEdit>, sections: &Vec<GovernmentReportSection>) -> (r: Result<
    (),
    String,
>)
    ensures
        step_done(r, old(plan)@, final(plan)@, sections_edits(sections@)),
{
    let ghost base = edits_view(plan@);
    let ghost ss = sections@;
    assert(ss.subrange(0, 0) =~= Seq::<GovernmentReportSection>::empty());
    let mut i: usize = 0;
    while i < sections.len()
        invariant
            i <= ss.len(),
            ss == sections@,
            sections_edits(ss.subrange(0, i as int)) is Ok,
            edits_view(plan@) == base + ok_part(sections_edits(ss.subrange(0, i as int))),
        decreases ss.len() - i,
    {
        assert(ss.subrange(0, i + 1).drop_last() =~= ss.subrange(0, i as int));
        let r = plan_section(plan, &sections[i], i > 0);
        match r {
            Ok(_) => {
                assert(edits_view(plan@) =~= base + ok_part(sections_edits(ss.subrange(0, i + 1))));
            },
            Err(e) => {
                proof {
                    lemma_sections_err_prefix(ss, i + 1, e@);
                }
                return Err(e);
            },
        }
        i = i + 1;
    }
    assert(ss.subrange(0, i as int) =~= ss);
    Ok(())
}

/// The editing commands that write `report` into a blank document: the
/// title, subtitle and metadata, the running header and footer, the summary
/// table of items, values and units, each section with its paragraphs and
/// tables, and the closing paragraph. A table with more than 65535 rows or
/// columns is refused.
pub fn build_government_report(report: &GovernmentReport) -> (r: Result<Vec<ReportEdit>, String>)
    ensures
        match r {
            Ok(plan) => report_plan(*report) == Ok::<Seq<EditSpec>, Seq<char>>(edits_view(plan@)),
            Err(e) => report_plan(*report) == Err::<Seq<EditSpec>, Seq<char>>(e@),
        },
{
    let mut plan: Vec<ReportEdit> = Vec::new();
    assert(edits_view(plan@) =~= Seq::<EditSpec>::empty());
    plan_head(&mut plan, report);
    let ghost p1 = edits_view(plan@);
    match plan_summary_table(&mut plan, &report.rows) {
        Ok(_) => {},
        Err(e) => return Err(e),
    }
    let ghost p2 = edits_view(plan@);
    match plan_sections(&mut plan, &report.sections) {
        Ok(_) => {},
        Err(e) => return Err(e),
    }
    let ghost p3 = edits_view(plan@);
    push_append_if_some(&mut plan, non_empty_field(&report.footer));
    proof {
        let m = matrix_table_edits(summary_headers(), summary_rows_view(report.rows@));
        let se = sections_edits(report.sections@);
        let f = append_if_some(non_empty_spec(opt_string_view(report.footer)));
        assert(edits_view(plan@) =~= head_edits(*report) + (ok_part(m) + (ok_part(se) + f)));
    }
    Ok(plan)
}

// ---------------------------------------------------------------------------
// The tables a plan creates
// ---------------------------------------------------------------------------

/// The number of table-creating commands.
pub open spec fn table_commands(s: Seq<EditSpec>) -> nat
    decreases s.len(),
{
    if s.len() == 0 {
        0
    } else {
        table_commands(s.drop_last()) + if s.last() is CreateTable {
            1nat
        } else {
            0nat
        }
    }
}

proof fn lemma_table_commands_concat(a: Seq<EditSpec>, b: Seq<EditSpec>)
    ensures
        table_commands(a + b) == table_commands(a) + table_commands(b),
    decreases b.len(),
{
    if b.len() > 0 {
        lemma_table_commands_concat(a, b.drop_last());
        assert((a + b).drop_last() =~= a + b.drop_last());
    } else {
        assert(a + b =~= a);
    }
}

proof fn lemma_header_cells_no_tables(h: Seq<Seq<char>>)
    ensures
        table_commands(header_cell_edits(h)) == 0,
    decreases h.len(),
{
    if h.len() > 0 {
        lemma_header_cells_no_tables(h.drop_last());
        let tail = if h.last().len() == 0 {
            Seq::<EditSpec>::empty()
        } else {
            seq![EditSpec::SetTableCell((h.len() - 1) as nat, h.last())]
        };
        lemma_table_commands_concat(header_cell_edits(h.drop_last()), tail);
        lemma_small_no_tables(tail);
    }
}

proof fn lemma_body_row_no_tables(row: Seq<Seq<char>>, base: nat, cols: nat)
    ensures
        table_commands(body_row_edits(row, base, cols)) == 0,
    decreases cols,
{
    if cols > 0 {
        lemma_body_row_no_tables(row, base, (cols - 1) as nat);
        let text = row_cell_text(row, cols - 1);
        let tail = if text.len() == 0 {
            Seq::<EditSpec>::empty()
        } else {
            seq![EditSpec::SetTableCell((base + cols - 1) as nat, text)]
        };
        lemma_table_commands_concat(body_row_edits(row, base, (cols - 1) as nat), tail);
        lemma_small_no_tables(tail);
    }
}

proof fn lemma_body_no_tables(rows: Seq<Seq<Seq<char>>>, offset: nat, cols: nat)
    ensures
        table_commands(body_edits(rows, offset, cols)) == 0,
    decreases rows.len(),
{
    if rows.len() > 0 {
        lemma_body_no_tables(rows.drop_last(), offset, cols);
        let base = ((rows.len() - 1 + offset) * cols) as nat;
        lemma_body_row_no_tables(rows.last(), base, cols);
        lemma_table_commands_concat(body_edits(rows.drop_last(), offset, cols), body_row_edits(rows.last(), base, cols));
    }
}

proof fn lemma_matrix_one_table(headers: Seq<Seq<char>>, rows: Seq<Seq<Seq<char>>>)
    requires
        matrix_table_edits(headers, rows) is Ok,
    ensures
        table_commands(ok_part(matrix_table_edits(headers, rows))) == 1,
{
    let nrows = matrix_row_count_spec(headers, rows);
    let ncols = matrix_col_count_spec(headers, rows);
    let offset: nat = if headers.len() == 0 {
        0
    } else {
        1
    };
    let first = seq![EditSpec::CreateTable(nrows, ncols)];
    assert(first.drop_last() =~= Seq::<EditSpec>::empty());
    assert(table_commands(first.drop_last()) == 0);
    assert(table_commands(first) == 1);
    lemma_header_cells_no_tables(headers);
    lemma_body_no_tables(rows, offset, ncols);
    lemma_table_commands_concat(first, header_cell_edits(headers));
    lemma_table_commands_concat(first + header_cell_edits(headers), body_edits(rows, offset, ncols));
}

proof fn lemma_small_no_tables(s: Seq<EditSpec>)
    requires
        s.len() <= 2,
        forall|i: int| 0 <= i < s.len() ==> !(#[trigger] s[i] is CreateTable),
    ensures
        table_commands(s) == 0,
{
    if s.len() > 0 {
        let d = s.drop_last();
        if d.len() > 0 {
            assert(d.drop_last() =~= Seq::<EditSpec>::empty());
            assert(table_commands(d.drop_last()) == 0);
            assert(d.last() == s[0]);
            assert(table_commands(d) == 0);
        } else {
            assert(table_commands(d) == 0);
        }
        assert(!(s[s.len() - 1] is CreateTable));
    }
}

proof fn lemma_head_no_tables(r: GovernmentReport)
    ensures
        table_commands(head_edits(r)) == 0,
{
    let a = title_part(r);
    let b = subtitle_part(r);
    let c = metadata_part(r);
    let d = append_if_some(non_empty_spec(opt_string_view(r.summary)));
    let e = repeating_part(true, r.header);
    let f = repeating_part(false, r.page_footer);
    lemma_small_no_tables(a);
    lemma_small_no_tables(b);
    lemma_small_no_tables(c);
    lemma_small_no_tables(d);
    lemma_small_no_tables(e);
    lemma_small_no_tables(f);
    lemma_table_commands_concat(a, b);
    lemma_table_commands_concat(a + b, c);
    lemma_table_commands_concat(a + b + c, d);
    lemma_table_commands_concat(a + b + c + d, e);
    lemma_table_commands_concat(a + b + c + d + e, f);
}

proof fn lemma_paragraphs_no_tables(ps: Seq<String>)
    ensures
        table_commands(paragraph_edits(ps)) == 0,
    decreases ps.len(),
{
    if ps.len() > 0 {
        lemma_paragraphs_no_tables(ps.drop_last());
        let t = append_if_some(non_empty_spec(Some(ps.last()@)));
        lemma_small_no_tables(t);
        lemma_table_commands_concat(paragraph_edits(ps.drop_last()), t);
    }
}

proof fn lemma_tables_count(ts: Seq<GovernmentReportTable>)
    requires
        tables_edits(ts) is Ok,
    ensures
        table_commands(ok_part(tables_edits(ts))) == ts.len(),
    decreases ts.len(),
{
    if ts.len() > 0 {
        let t = ts.last();
        assert(tables_edits(ts.drop_last()) is Ok);
        lemma_tables_count(ts.drop_last());
        let title = match non_empty_spec(opt_string_view(t.title)) {
            Some(title) => seq![EditSpec::AppendParagraph(title)] + formatted(title, CharFormatPreset::TableTitle),
            None => Seq::<EditSpec>::empty(),
        };
        let m = matrix_table_edits(strings_view(t.headers@), matrix_view(t.rows@));
        assert(m is Ok);
        lemma_matrix_one_table(strings_view(t.headers@), matrix_view(t.rows@));
        lemma_small_no_tables(title);
        lemma_table_commands_concat(title, ok_part(m));
        lemma_table_commands_concat(ok_part(tables_edits(ts.drop_last())), title + ok_part(m));
    }
}

proof fn lemma_sections_count(ss: Seq<GovernmentReportSection>)
    requires
        sections_edits(ss) is Ok,
    ensures
        table_commands(ok_part(sections_edits(ss))) == section_table_total(ss),
    decreases ss.len(),
{
    if ss.len() > 0 {
        let sec = ss.last();
        assert(sections_edits(ss.drop_last()) is Ok);
        lemma_sections_count(ss.drop_last());
        let allow = ss.len() > 1;
        let title = (if sec.page_break_before && allow {
            seq![EditSpec::AppendPageBreakParagraph(sec.title@)]
        } else {
            seq![EditSpec::AppendParagraph(sec.title@)]
        }) + formatted(sec.title@, CharFormatPreset::SectionTitle);
        let head = title + paragraph_edits(sec.paragraphs@);
        assert(tables_edits(sec.tables@) is Ok);
        lemma_tables_count(sec.tables@);
        lemma_small_no_tables(title);
        lemma_paragraphs_no_tables(sec.paragraphs@);
        lemma_table_commands_concat(title, paragraph_edits(sec.paragraphs@));
        lemma_table_commands_concat(head, ok_part(tables_edits(sec.tables@)));
        lemma_table_commands_concat(ok_part(sections_edits(ss.drop_last())), head + ok_part(tables_edits(sec.tables@)));
    }
}

/// The document a report's plan writes holds `report_table_count` tables:
/// the plan creates the summary table and each section's tables, and no
/// other.
pub proof fn lemma_plan_creates_counted_tables(report: GovernmentReport)
    requires
        report_plan(report) is Ok,
    ensures
        table_commands(ok_part(report_plan(report))) == report_table_count_spec(report),
{
    let h = head_edits(report);
    let m = matrix_table_edits(summary_headers(), summary_rows_view(report.rows@));
    let se = sections_edits(report.sections@);
    let f = append_if_some(non_empty_spec(opt_string_view(report.footer)));
    assert(m is Ok);
    assert(se is Ok);
    lemma_head_no_tables(report);
    lemma_matrix_one_table(summary_headers(), summary_rows_view(report.rows@));
    lemma_sections_count(report.sections@);
    lemma_small_no_tables(f);
    lemma_table_commands_concat(ok_part(se), f);
    lemma_table_commands_concat(ok_part(m), ok_part(se) + f);
    lemma_table_commands_concat(h, ok_part(m) + (ok_part(se) + f));
}


// ---------------------------------------------------------------------------
// The running header and footer a plan creates
// ---------------------------------------------------------------------------

/// Every running-text command of `s` is the header with text `hdr` or the
/// footer with text `ftr`.
pub open spec fn running_texts_from(s: Seq<EditSpec>, hdr: Option<Seq<char>>, ftr: Option<Seq<char>>) -> bool {
    forall|i: int|
        0 <= i < s.len() ==> match #[trigger] s[i] {
            EditSpec::CreateRepeatingText(is_header, text) => if is_header {
                hdr == Some(text)
            } else {
                ftr == Some(text)
            },
            _ => true,
        }
}

proof fn lemma_running_concat(a: Seq<EditSpec>, b: Seq<EditSpec>, hdr: Option<Seq<char>>, ftr: Option<Seq<char>>)
    requires
        running_texts_from(a, hdr, ftr),
        running_texts_from(b, hdr, ftr),
    ensures
        running_texts_from(a + b, hdr, ftr),
{
    assert forall|i: int| 0 <= i < (a + b).len() implies match #[trigger] (a + b)[i] {
        EditSpec::CreateRepeatingText(is_header, text) => if is_header {
            hdr == Some(text)
        } else {
            ftr == Some(text)
        },
        _ => true,
    } by {
        if i < a.len() {
            assert((a + b)[i] == a[i]);
        } else {
            assert((a + b)[i] == b[i - a.len()]);
        }
    }
}

proof fn lemma_running_small(s: Seq<EditSpec>, hdr: Option<Seq<char>>, ftr: Option<Seq<char>>)
    requires
        forall|i: int| 0 <= i < s.len() ==> !(#[trigger] s[i] is CreateRepeatingText),
    ensures
        running_texts_from(s, hdr, ftr),
{
}

proof fn lemma_running_header_cells(h: Seq<Seq<char>>, hdr: Option<Seq<char>>, ftr: Option<Seq<char>>)
    ensures
        running_texts_from(header_cell_edits(h), hdr, ftr),
    decreases h.len(),
{
    if h.len() > 0 {
        lemma_running_header_cells(h.drop_last(), hdr, ftr);
        let tail = if h.last().len() == 0 {
            Seq::<EditSpec>::empty()
        } else {
            seq![EditSpec::SetTableCell((h.len() - 1) as nat, h.last())]
        };
        lemma_running_small(tail, hdr, ftr);
        lemma_running_concat(header_cell_edits(h.drop_last()), tail, hdr, ftr);
    }
}

proof fn lemma_running_body_row(row: Seq<Seq<char>>, base: nat, cols: nat, hdr: Option<Seq<char>>, ftr: Option<Seq<char>>)
    ensures
        running_texts_from(body_row_edits(row, base, cols), hdr, ftr),
    decreases cols,
{
    if cols > 0 {
        lemma_running_body_row(row, base, (cols - 1) as nat, hdr, ftr);
        let text = row_cell_text(row, cols - 1);
        let tail = if text.len() == 0 {
            Seq::<EditSpec>::empty()
        } else {
            seq![EditSpec::SetTableCell((base + cols - 1) as nat, text)]
        };
        lemma_running_small(tail, hdr, ftr);
        lemma_running_concat(body_row_edits(row, base, (cols - 1) as nat), tail, hdr, ftr);
    }
}

proof fn lemma_running_body(rows: Seq<Seq<Seq<char>>>, offset: nat, cols: nat, hdr: Option<Seq<char>>, ftr: Option<Seq<char>>)
    ensures
        running_texts_from(body_edits(rows, offset, cols), hdr, ftr),
    decreases rows.len(),
{
    if rows.len() > 0 {
        lemma_running_body(rows.drop_last(), offset, cols, hdr, ftr);
        let base = ((rows.len() - 1 + offset) * cols) as nat;
        lemma_running_body_row(rows.last(), base, cols, hdr, ftr);
        lemma_running_concat(body_edits(rows.drop_last(), offset, cols), body_row_edits(rows.last(), base, cols), hdr, ftr);
    }
}

proof fn lemma_running_matrix(headers: Seq<Seq<char>>, rows: Seq<Seq<Seq<char>>>, hdr: Option<Seq<char>>, ftr: Option<Seq<char>>)
    ensures
        running_texts_from(ok_part(matrix_table_edits(headers, rows)), hdr, ftr),
{
    let nrows = matrix_row_count_spec(headers, rows);
    let ncols = matrix_col_count_spec(headers, rows);
    let offset: nat = if headers.len() == 0 {
        0
    } else {
        1
    };
    if matrix_table_edits(headers, rows) is Ok {
        let first = seq![EditSpec::CreateTable(nrows, ncols)];
        lemma_running_small(first, hdr, ftr);
        lemma_running_header_cells(headers, hdr, ftr);
        lemma_running_body(rows, offset, ncols, hdr, ftr);
        lemma_running_concat(first, header_cell_edits(headers), hdr, ftr);
        lemma_running_concat(first + header_cell_edits(headers), body_edits(rows, offset, ncols), hdr, ftr);
    } else {
        lemma_running_small(Seq::<EditSpec>::empty(), hdr, ftr);
    }
}

proof fn lemma_running_paragraphs(ps: Seq<String>, hdr: Option<Seq<char>>, ftr: Option<Seq<char>>)
    ensures
        running_texts_from(paragraph_edits(ps), hdr, ftr),
    decreases ps.len(),
{
    if ps.len() > 0 {
        lemma_running_paragraphs(ps.drop_last(), hdr, ftr);
        let tail = append_if_some(non_empty_spec(Some(ps.last()@)));
        lemma_running_small(tail, hdr, ftr);
        lemma_running_concat(paragraph_edits(ps.drop_last()), tail, hdr, ftr);
    }
}

proof fn lemma_running_tables(ts: Seq<GovernmentReportTable>, hdr: Option<Seq<char>>, ftr: Option<Seq<char>>)
    requires
        tables_edits(ts) is Ok,
    ensures
        running_texts_from(ok_part(tables_edits(ts)), hdr, ftr),
    decreases ts.len(),
{
    if ts.len() > 0 {
        let t = ts.last();
        assert(tables_edits(ts.drop_last()) is Ok);
        lemma_running_tables(ts.drop_last(), hdr, ftr);
        let title = match non_empty_spec(opt_string_view(t.title)) {
            Some(title) => seq![EditSpec::AppendParagraph(title)] + formatted(title, CharFormatPreset::TableTitle),
            None => Seq::<EditSpec>::empty(),
        };
        let m = matrix_table_edits(strings_view(t.headers@), matrix_view(t.rows@));
        assert(m is Ok);
        lemma_running_matrix(strings_view(t.headers@), matrix_view(t.rows@), hdr, ftr);
        lemma_running_small(title, hdr, ftr);
        lemma_running_concat(title, ok_part(m), hdr, ftr);
        lemma_running_concat(ok_part(tables_edits(ts.drop_last())), title + ok_part(m), hdr, ftr);
    } else {
        lemma_running_small(Seq::<EditSpec>::empty(), hdr, ftr);
    }
}

proof fn lemma_running_sections(ss: Seq<GovernmentReportSection>, hdr: Option<Seq<char>>, ftr: Option<Seq<char>>)
    requires
        sections_edits(ss) is Ok,
    ensures
        running_texts_from(ok_part(sections_edits(ss)), hdr, ftr),
    decreases ss.len(),
{
    if ss.len() > 0 {
        let sec = ss.last();
        assert(sections_edits(ss.drop_last()) is Ok);
        lemma_running_sections(ss.drop_last(), hdr, ftr);
        let allow = ss.len() > 1;
        let title = (if sec.page_break_before && allow {
            seq![EditSpec::AppendPageBreakParagraph(sec.title@)]
        } else {
            seq![EditSpec::AppendParagraph(sec.title@)]
        }) + formatted(sec.title@, CharFormatPreset::SectionTitle);
        let head = title + paragraph_edits(sec.paragraphs@);
        assert(tables_edits(sec.tables@) is Ok);
        lemma_running_tables(sec.tables@, hdr, ftr);
        lemma_running_small(title, hdr, ftr);
        lemma_running_paragraphs(sec.paragraphs@, hdr, ftr);
        lemma_running_concat(title, paragraph_edits(sec.paragraphs@), hdr, ftr);
        lemma_running_concat(head, ok_part(tables_edits(sec.tables@)), hdr, ftr);
        lemma_running_concat(ok_part(sections_edits(ss.drop_last())), head + ok_part(tables_edits(sec.tables@)), hdr, ftr);
    } else {
        lemma_running_small(Seq::<EditSpec>::empty(), hdr, ftr);
    }
}

/// The running texts of a report's plan: it creates a running header with
/// the report's trimmed header text exactly when that text is not blank,
/// and a running footer with the trimmed page footer text exactly when that
/// is not blank; every running-text command it holds is one of these two.
pub proof fn lemma_plan_running_texts(report: GovernmentReport)
    requires
        report_plan(report) is Ok,
    ensures
        ({
            let p = ok_part(report_plan(report));
            let hdr = non_empty_spec(opt_string_view(report.header));
            let ftr = non_empty_spec(opt_string_view(report.page_footer));
            &&& forall|i: int|
                0 <= i < p.len() ==> match #[trigger] p[i] {
                    EditSpec::CreateRepeatingText(is_header, text) => if is_header {
                        hdr == Some(text)
                    } else {
                        ftr == Some(text)
                    },
                    _ => true,
                }
            &&& forall|text: Seq<char>|
                hdr == Some(text) ==> exists|i: int|
                    0 <= i < p.len() && #[trigger] p[i] == EditSpec::CreateRepeatingText(true, text)
            &&& forall|text: Seq<char>|
                ftr == Some(text) ==> exists|i: int|
                    0 <= i < p.len() && #[trigger] p[i] == EditSpec::CreateRepeatingText(false, text)
        }),
{
    let hdr = non_empty_spec(opt_string_view(report.header));
    let ftr = non_empty_spec(opt_string_view(report.page_footer));
    let a = title_part(report);
    let b = subtitle_part(report);
    let c = metadata_part(report);
    let d = append_if_some(non_empty_spec(opt_string_view(report.summary)));
    let e = repeating_part(true, report.header);
    let f = repeating_part(false, report.page_footer);
    let m = matrix_table_edits(summary_headers(), summary_rows_view(report.rows@));
    let se = sections_edits(report.sections@);
    let g = append_if_some(non_empty_spec(opt_string_view(report.footer)));
    assert(m is Ok);
    assert(se is Ok);
    lemma_running_small(a, hdr, ftr);
    lemma_running_small(b, hdr, ftr);
    lemma_running_small(c, hdr, ftr);
    lemma_running_small(d, hdr, ftr);
    lemma_running_small(g, hdr, ftr);
    assert(running_texts_from(e, hdr, ftr));
    assert(running_texts_from(f, hdr, ftr));
    lemma_running_matrix(summary_headers(), summary_rows_view(report.rows@), hdr, ftr);
    lemma_running_sections(report.sections@, hdr, ftr);
    let pre = a + b + c + d;
    lemma_running_concat(a, b, hdr, ftr);
    lemma_running_concat(a + b, c, hdr, ftr);
    lemma_running_concat(a + b + c, d, hdr, ftr);
    lemma_running_concat(pre, e, hdr, ftr);
    lemma_running_concat(pre + e, f, hdr, ftr);
    let rest = ok_part(m) + (ok_part(se) + g);
    lemma_running_concat(ok_part(se), g, hdr, ftr);
    lemma_running_concat(ok_part(m), ok_part(se) + g, hdr, ftr);
    lemma_running_concat(pre + e + f, rest, hdr, ftr);
    let p = ok_part(report_plan(report));
    assert(p == pre + e + f + rest);
    match hdr {
        Some(text) => {
            let i = pre.len() as int;
            assert(p[i] == e[0]);
            assert(p[i] == EditSpec::CreateRepeatingText(true, text));
        },
        None => {},
    }
    match ftr {
        Some(text) => {
            let i = (pre.len() + e.len()) as int;
            assert(p[i] == f[0]);
            assert(p[i] == EditSpec::CreateRepeatingText(false, text));
        },
        None => {},
    }
}


/// How a report's plan opens: with a non-empty title, by setting the title
/// and formatting all of it as the title; then, when there is a subtitle, a
/// paragraph with the trimmed subtitle formatted in full as the subtitle.
pub proof fn lemma_plan_opens_with_title(report: GovernmentReport)
    requires
        report_plan(report) is Ok,
    ensures
        ({
            let p = ok_part(report_plan(report));
            let t = report.title@;
            let k: int = if t.len() > 0 { 2 } else { 0 };
            &&& t.len() > 0 ==> p.len() >= 2 && p[0] == EditSpec::SetTitle(t)
                && p[1] == EditSpec::FormatLastParagraph(t.len(), CharFormatPreset::Title)
            &&& forall|s: Seq<char>|
                non_empty_spec(opt_string_view(report.subtitle)) == Some(s) ==> {
                    &&& p.len() >= k + 2
                    &&& p[k] == EditSpec::AppendParagraph(s)
                    &&& p[k + 1] == EditSpec::FormatLastParagraph(s.len(), CharFormatPreset::Subtitle)
                }
        }),
{
    let a = title_part(report);
    let b = subtitle_part(report);
    let ab = a + b;
    let h = head_edits(report);
    let m = matrix_table_edits(summary_headers(), summary_rows_view(report.rows@));
    let se = sections_edits(report.sections@);
    let g = append_if_some(non_empty_spec(opt_string_view(report.footer)));
    assert(m is Ok);
    assert(se is Ok);
    let x = ok_part(m) + (ok_part(se) + g);
    let p = ok_part(report_plan(report));
    assert(p == h + x);
    let c = metadata_part(report);
    let d = append_if_some(non_empty_spec(opt_string_view(report.summary)));
    let e = repeating_part(true, report.header);
    let f = repeating_part(false, report.page_footer);
    assert(h == ab + c + d + e + f);
    assert forall|i: int| 0 <= i < ab.len() implies #[trigger] p[i] == ab[i] by {
        assert((ab + c)[i] == ab[i]);
        assert((ab + c + d)[i] == ab[i]);
        assert((ab + c + d + e)[i] == ab[i]);
        assert(h[i] == ab[i]);
        assert(p[i] == h[i]);
    }
    let t = report.title@;
    if t.len() > 0 {
        assert(a.len() == 2);
        assert(ab[0] == a[0]);
        assert(ab[1] == a[1]);
        assert(p[0] == ab[0]);
        assert(p[1] == ab[1]);
    } else {
        assert(a.len() == 0);
    }
    match non_empty_spec(opt_string_view(report.subtitle)) {
        Some(s) => {
            assert(s.len() > 0);
            assert(b.len() == 2);
            assert(ab[a.len() as int] == b[0]);
            assert(ab[a.len() as int + 1] == b[1]);
            assert(p[a.len() as int] == ab[a.len() as int]);
            assert(p[a.len() as int + 1] == ab[a.len() as int + 1]);
        },
        None => {},
    }
}

} // verus!
