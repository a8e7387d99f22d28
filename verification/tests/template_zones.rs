use rhwp::document_core::builders::document_template::runs::template_table_host_line_segments;
use rhwp::document_core::builders::document_template::zones::{
    materialize_table_zones, ResolvedTemplateTableZone,
};
use rhwp::model::{Control, LineSeg, Paragraph, TableZone};

fn zone(start: (u16, u16), end: (u16, u16), fill: Option<u16>) -> ResolvedTemplateTableZone {
    ResolvedTemplateTableZone {
        start_row: start.0,
        start_col: start.1,
        end_row: end.0,
        end_col: end.1,
        border_fill_id: fill,
    }
}

#[test]
fn zones_within_the_table() {
    let zones = materialize_table_zones(&[zone((0, 0), (1, 2), Some(7)), zone((1, 1), (1, 1), None)], 3, 2, 3).unwrap();
    assert_eq!(
        zones,
        vec![
            TableZone { start_row: 0, start_col: 0, end_row: 1, end_col: 2, border_fill_id: 7 },
            TableZone { start_row: 1, start_col: 1, end_row: 1, end_col: 1, border_fill_id: 3 },
        ]
    );
    assert_eq!(materialize_table_zones(&[], 3, 0, 0).unwrap(), vec![]);
}

#[test]
fn zone_errors() {
    assert_eq!(
        materialize_table_zones(&[zone((2, 0), (1, 0), None)], 1, 5, 5),
        Err("template table_zone range is invalid: start=(2, 0), end=(1, 0)".to_string())
    );
    assert_eq!(
        materialize_table_zones(&[zone((0, 0), (0, 0), None), zone((0, 0), (2, 10), None)], 1, 2, 10),
        Err("template table_zone range out of table bounds: end=(2, 10), rows=2, cols=10".to_string())
    );
}

#[test]
fn table_host_line_segments() {
    let segs = vec![
        LineSeg { vertical_pos: 100, ..Default::default() },
        LineSeg { vertical_pos: 0, ..Default::default() },
    ];
    let one = Paragraph { line_segs: segs.clone(), controls: vec![Control::Table], ..Default::default() };
    assert!(template_table_host_line_segments(&one).is_empty());
    let two = Paragraph { line_segs: segs, controls: vec![Control::Table, Control::Other, Control::Table], ..Default::default() };
    let kept = template_table_host_line_segments(&two);
    assert_eq!(kept.len(), 2);
    assert_eq!(kept[0].vertical_pos, 100);
}
