use rhwp::ooxml_chart::model::{new_chart, OoxmlChart, OoxmlSeries};
use rhwp::ooxml_chart::OoxmlChartType;

fn series(t: OoxmlChartType) -> OoxmlSeries {
    OoxmlSeries { series_type: t, ..Default::default() }
}

#[test]
fn combo_needs_two_known_kinds() {
    let mut chart: OoxmlChart = new_chart();
    assert!(!chart.is_combo());
    chart.series.push(series(OoxmlChartType::Column));
    chart.series.push(series(OoxmlChartType::Unknown));
    chart.series.push(series(OoxmlChartType::Column));
    assert!(!chart.is_combo());
    chart.series.push(series(OoxmlChartType::Line));
    assert!(chart.is_combo());
}

#[test]
fn a_new_chart_is_empty() {
    let chart = new_chart();
    assert_eq!(chart.chart_type, OoxmlChartType::Unknown);
    assert!(chart.title.is_none());
    assert!(chart.series.is_empty());
    assert!(chart.value_axis_minimum.is_empty());
    assert!(!chart.has_secondary_axis);
}
