//! Table zones of a template made into a table's zones: each range checked
//! against itself and the table's size, each given a border fill.

use crate::model::TableZone;
use crate::text::{dec_seq, push_decimal, string_of};
use vstd::prelude::*;

verus! {

/// A template table zone whose border fill has been looked up (none when
/// the template gave no border fill).
#[derive(Debug, Clone, Copy, PartialEq, Eq, Structural)]
pub struct ResolvedTemplateTableZone {
    pub start_row: u16,
    pub start_col: u16,
    pub end_row: u16,
    pub end_col: u16,
    pub border_fill_id: Option<u16>,
}

/// A number in decimal.
pub open spec fn dec(n: u16) -> Seq<char> {
    dec_seq(n as nat)
}

/// What is wrong with a zone's range for a table of `rows` by `cols`
/// cells: an end before its start, or an end outside the table.
pub open spec fn zone_error(z: ResolvedTemplateTableZone, rows: u16, cols: u16) -> Option<Seq<char>> {
    if z.end_row < z.start_row || z.end_col < z.start_col {
        Some(
            "template table_zone range is invalid: start=("@ + dec(z.start_row) + ", "@ + dec(z.start_col)
                + "), end=("@ + dec(z.end_row) + ", "@ + dec(z.end_col) + ")"@,
        )
    } else if z.end_row >= rows || z.end_col >= cols {
        Some(
            "template table_zone range out of table bounds: end=("@ + dec(z.end_row) + ", "@ + dec(z.end_col)
                + "), rows="@ + dec(rows) + ", cols="@ + dec(cols),
        )
    } else {
        None
    }
}

/// The first error among zones, in order.
pub open spec fn first_zone_error(zones: Seq<ResolvedTemplateTableZone>, rows: u16, cols: u16) -> Option<Seq<char>>
    decreases zones.len(),
{
    if zones.len() == 0 {
        None
    } else {
        match zone_error(zones[0], rows, cols) {
            Some(e) => Some(e),
            None => first_zone_error(zones.drop_first(), rows, cols),
        }
    }
}

/// A zone with its border fill, or the default one.
pub open spec fn materialized_zone(z: ResolvedTemplateTableZone, default_border_fill_id: u16) -> TableZone {
    TableZone {
        start_row: z.start_row,
        start_col: z.start_col,
        end_row: z.end_row,
        end_col: z.end_col,
        border_fill_id: match z.border_fill_id {
            Some(id) => id,
            None => default_border_fill_id,
        },
    }
}

fn zone_error_text(z: &ResolvedTemplateTableZone, rows: u16, cols: u16) -> (r: Option<String>)
    ensures
        match r {
            Some(m) => zone_error(*z, rows, cols) == Some(m@),
            None => zone_error(*z, rows, cols) is None,
        },
{
    if z.end_row < z.start_row || z.end_col < z.start_col {
        let mut m = string_of("template table_zone range is invalid: start=(");
        push_decimal(&mut m, z.start_row as u64);
        crate::text::push_str(&mut m, ", ");
        push_decimal(&mut m, z.start_col as u64);
        crate::text::push_str(&mut m, "), end=(");
        push_decimal(&mut m, z.end_row as u64);
        crate::text::push_str(&mut m, ", ");
        push_decimal(&mut m, z.end_col as u64);
        crate::text::push_str(&mut m, ")");
        return Some(m);
    }
    if z.end_row >= rows || z.end_col >= cols {
        let mut m = string_of("template table_zone range out of table bounds: end=(");
        push_decimal(&mut m, z.end_row as u64);
        crate::text::push_str(&mut m, ", ");
        push_decimal(&mut m, z.end_col as u64);
        crate::text::push_str(&mut m, "), rows=");
        push_decimal(&mut m, rows as u64);
        crate::text::push_str(&mut m, ", cols=");
        push_decimal(&mut m, cols as u64);
        return Some(m);
    }
    None
}

/// A table's zones from the resolved template zones: each with its border
/// fill or `default_border_fill_id`; the first bad range's error
/// otherwise (see `zone_error`).
pub fn materialize_table_zones(
    resolved: &[ResolvedTemplateTableZone],
    default_border_fill_id: u16,
    row_count: u16,
    col_count: u16,
) -> (r: Result<Vec<TableZone>, String>)
    ensures
        match r {
            Ok(v) => first_zone_error(resolved@, row_count, col_count) is None
                && v@ == resolved@.map_values(|z: ResolvedTemplateTableZone| materialized_zone(z, default_border_fill_id)),
            Err(m) => first_zone_error(resolved@, row_count, col_count) == Some(m@),
        },
{
    let mut out: Vec<TableZone> = Vec::new();
    let mut i: usize = 0;
    assert(resolved@.skip(0) =~= resolved@);
    while i < resolved.len()
        invariant
            i <= resolved@.len(),
            first_zone_error(resolved@, row_count, col_count) == first_zone_error(resolved@.skip(i as int), row_count, col_count),
            out@ == resolved@.take(i as int).map_values(|z: ResolvedTemplateTableZone| materialized_zone(z, default_border_fill_id)),
        decreases resolved@.len() - i,
    {
        let zone = resolved[i];
        assert(resolved@.skip(i as int).drop_first() =~= resolved@.skip(i + 1));
        assert(resolved@.skip(i as int)[0] == zone);
        match zone_error_text(&zone, row_count, col_count) {
            Some(m) => return Err(m),
            None => {},
        }
        out.push(TableZone {
            start_row: zone.start_row,
            start_col: zone.start_col,
            end_row: zone.end_row,
            end_col: zone.end_col,
            border_fill_id: match zone.border_fill_id {
                Some(id) => id,
                None => default_border_fill_id,
            },
        });
        i = i + 1;
        assert(out@ =~= resolved@.take(i as int).map_values(|z: ResolvedTemplateTableZone| materialized_zone(z, default_border_fill_id)));
    }
    assert(resolved@.take(i as int) =~= resolved@);
    Ok(out)
}

/// Every zone of a table made from template zones lies within the table,
/// its start no later than its end.
pub proof fn lemma_materialized_zones_in_bounds(
    zones: Seq<ResolvedTemplateTableZone>,
    default_border_fill_id: u16,
    rows: u16,
    cols: u16,
    i: int,
)
    requires
        first_zone_error(zones, rows, cols) is None,
        0 <= i < zones.len(),
    ensures
        ({
            let z = materialized_zone(zones[i], default_border_fill_id);
            z.start_row <= z.end_row < rows && z.start_col <= z.end_col < cols
        }),
    decreases zones.len(),
{
    if i > 0 {
        lemma_materialized_zones_in_bounds(zones.drop_first(), default_border_fill_id, rows, cols, i - 1);
        assert(zones.drop_first()[i - 1] == zones[i]);
    }
}

} // verus!
