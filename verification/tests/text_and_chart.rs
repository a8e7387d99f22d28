use rhwp::ooxml_chart::parser::{
    axis_display_unit, axis_tick_mark, legend_position, normalize_chart_style, parse_ooxml_bool,
    parse_rgb_hex, scheme_color,
};
use rhwp::ooxml_chart::{AxisDisplayUnit, AxisTickMark, ChartLegendPosition, OoxmlChartType};
use rhwp::text::{parse_hex_u32, parse_i32, parse_u16, parse_u32, parse_u8, trim_str, u64_to_decimal};

#[test]
fn parse_u32_accepts_digits_and_plus() {
    assert_eq!(parse_u32("42"), Some(42));
    assert_eq!(parse_u32("+7"), Some(7));
    assert_eq!(parse_u32("4294967295"), Some(u32::MAX));
    assert_eq!(parse_u32("4294967296"), None);
    assert_eq!(parse_u32(""), None);
    assert_eq!(parse_u32("-1"), None);
    assert_eq!(parse_u32(" 1"), None);
}

#[test]
fn parse_small_unsigned_limits() {
    assert_eq!(parse_u16("65535"), Some(65535));
    assert_eq!(parse_u16("65536"), None);
    assert_eq!(parse_u8("255"), Some(255));
    assert_eq!(parse_u8("256"), None);
}

#[test]
fn parse_i32_signs_and_limits() {
    assert_eq!(parse_i32("-2147483648"), Some(i32::MIN));
    assert_eq!(parse_i32("2147483647"), Some(i32::MAX));
    assert_eq!(parse_i32("2147483648"), None);
    assert_eq!(parse_i32("+5"), Some(5));
    assert_eq!(parse_i32("-"), None);
}

#[test]
fn parse_hex_u32_either_case() {
    assert_eq!(parse_hex_u32("ff"), Some(255));
    assert_eq!(parse_hex_u32("FFFFFFFF"), Some(u32::MAX));
    assert_eq!(parse_hex_u32("100000000"), None);
    assert_eq!(parse_hex_u32("g1"), None);
}

#[test]
fn trim_and_decimal_text() {
    assert_eq!(trim_str("  a b \t\n"), "a b");
    assert_eq!(trim_str("\u{3000}x\u{3000}"), "x");
    assert_eq!(u64_to_decimal(0), "0");
    assert_eq!(u64_to_decimal(1234567890), "1234567890");
}

#[test]
fn chart_enum_readers() {
    assert_eq!(axis_tick_mark("cross"), Some(AxisTickMark::Cross));
    assert_eq!(axis_tick_mark("none"), Some(AxisTickMark::NoMark));
    assert_eq!(axis_tick_mark("None"), None);
    assert_eq!(axis_display_unit("tenThousands"), Some(AxisDisplayUnit::TenThousands));
    assert_eq!(legend_position("tr"), Some(ChartLegendPosition::TopRight));
    assert_eq!(legend_position("x"), None);
}

#[test]
fn chart_bool_style_and_colors() {
    assert_eq!(parse_ooxml_bool("TRUE"), Some(true));
    assert_eq!(parse_ooxml_bool("0"), Some(false));
    assert_eq!(parse_ooxml_bool("yes"), None);
    assert_eq!(normalize_chart_style(102), 2);
    assert_eq!(normalize_chart_style(148), 48);
    assert_eq!(normalize_chart_style(149), 149);
    assert_eq!(normalize_chart_style(100), 100);
    assert_eq!(scheme_color("accent1"), Some(0x70AD47));
    assert_eq!(scheme_color("bg2"), Some(0xE7E6E6));
    assert_eq!(scheme_color("accent7"), None);
    assert_eq!(parse_rgb_hex(" #FF8000 "), Some(0xFF8000));
    assert_eq!(parse_rgb_hex("##00ff00"), Some(0x00FF00));
    assert_eq!(parse_rgb_hex("FFF"), None);
    assert_eq!(parse_rgb_hex("GGGGGG"), None);
}

#[test]
fn chart_type_labels() {
    assert_eq!(OoxmlChartType::Column.label(), "세로 막대");
    assert_eq!(OoxmlChartType::Bar.label(), "가로 막대");
    assert_eq!(OoxmlChartType::Pie.label(), "원형");
    assert_eq!(OoxmlChartType::Unknown.label(), "미지원");
}
