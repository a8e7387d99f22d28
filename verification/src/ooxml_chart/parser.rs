//! OOXML 차트 XML의 속성 값 읽기.
//!
//! 각 함수는 속성 텍스트 하나(`val="..."`)를 해당 열거형 값으로 옮기며, 알 수 없는
//! 텍스트에는 값이 없다.

use super::{
    AxisCrossBetween, AxisCrosses, AxisDisplayUnit, AxisLabelAlignment, AxisLabelPosition,
    AxisOrientation, AxisPosition, AxisTickMark, ChartDataLabelPosition, ChartDisplayBlanksAs,
    ChartErrorBarDirection, ChartErrorBarType, ChartErrorBarValueType, ChartLegendPosition,
    ChartMarkerSymbol, ChartTrendlineType, OfPieType, ScatterStyle,
};
use crate::text::{
    parse_hex_u32, parse_hex_u32_spec, str_eq, strip_leading_char, strip_leading_seq, trim_seq,
    trim_str,
};
use vstd::prelude::*;
use vstd::string::*;

verus! {

/// The `AxisLabelPosition` that an attribute value names, if any.
pub open spec fn axis_label_position_spec(v: Seq<char>) -> Option<AxisLabelPosition> {
    if v == "nextTo"@ {
        Some(AxisLabelPosition::NextTo)
    } else if v == "high"@ {
        Some(AxisLabelPosition::High)
    } else if v == "low"@ {
        Some(AxisLabelPosition::Low)
    } else if v == "none"@ {
        Some(AxisLabelPosition::NoLabels)
    } else {
        None
    }
}

/// Reads a `AxisLabelPosition` attribute value.
pub fn axis_label_position(value: &str) -> (r: Option<AxisLabelPosition>)
    ensures
        r == axis_label_position_spec(value@),
{
    if str_eq(value, "nextTo") {
        Some(AxisLabelPosition::NextTo)
    } else if str_eq(value, "high") {
        Some(AxisLabelPosition::High)
    } else if str_eq(value, "low") {
        Some(AxisLabelPosition::Low)
    } else if str_eq(value, "none") {
        Some(AxisLabelPosition::NoLabels)
    } else {
        None
    }
}

/// The `AxisPosition` that an attribute value names, if any.
pub open spec fn axis_position_spec(v: Seq<char>) -> Option<AxisPosition> {
    if v == "b"@ {
        Some(AxisPosition::Bottom)
    } else if v == "l"@ {
        Some(AxisPosition::Left)
    } else if v == "t"@ {
        Some(AxisPosition::Top)
    } else if v == "r"@ {
        Some(AxisPosition::Right)
    } else {
        None
    }
}

/// Reads a `AxisPosition` attribute value.
pub fn axis_position(value: &str) -> (r: Option<AxisPosition>)
    ensures
        r == axis_position_spec(value@),
{
    if str_eq(value, "b") {
        Some(AxisPosition::Bottom)
    } else if str_eq(value, "l") {
        Some(AxisPosition::Left)
    } else if str_eq(value, "t") {
        Some(AxisPosition::Top)
    } else if str_eq(value, "r") {
        Some(AxisPosition::Right)
    } else {
        None
    }
}

/// The `AxisLabelAlignment` that an attribute value names, if any.
pub open spec fn axis_label_alignment_spec(v: Seq<char>) -> Option<AxisLabelAlignment> {
    if v == "ctr"@ {
        Some(AxisLabelAlignment::Center)
    } else if v == "l"@ {
        Some(AxisLabelAlignment::Left)
    } else if v == "r"@ {
        Some(AxisLabelAlignment::Right)
    } else {
        None
    }
}

/// Reads a `AxisLabelAlignment` attribute value.
pub fn axis_label_alignment(value: &str) -> (r: Option<AxisLabelAlignment>)
    ensures
        r == axis_label_alignment_spec(value@),
{
    if str_eq(value, "ctr") {
        Some(AxisLabelAlignment::Center)
    } else if str_eq(value, "l") {
        Some(AxisLabelAlignment::Left)
    } else if str_eq(value, "r") {
        Some(AxisLabelAlignment::Right)
    } else {
        None
    }
}

/// The `AxisOrientation` that an attribute value names, if any.
pub open spec fn axis_orientation_spec(v: Seq<char>) -> Option<AxisOrientation> {
    if v == "minMax"@ {
        Some(AxisOrientation::MinMax)
    } else if v == "maxMin"@ {
        Some(AxisOrientation::MaxMin)
    } else {
        None
    }
}

/// Reads a `AxisOrientation` attribute value.
pub fn axis_orientation(value: &str) -> (r: Option<AxisOrientation>)
    ensures
        r == axis_orientation_spec(value@),
{
    if str_eq(value, "minMax") {
        Some(AxisOrientation::MinMax)
    } else if str_eq(value, "maxMin") {
        Some(AxisOrientation::MaxMin)
    } else {
        None
    }
}

/// The `AxisCrossBetween` that an attribute value names, if any.
pub open spec fn axis_cross_between_spec(v: Seq<char>) -> Option<AxisCrossBetween> {
    if v == "between"@ {
        Some(AxisCrossBetween::Between)
    } else if v == "midCat"@ {
        Some(AxisCrossBetween::MidCategory)
    } else {
        None
    }
}

/// Reads a `AxisCrossBetween` attribute value.
pub fn axis_cross_between(value: &str) -> (r: Option<AxisCrossBetween>)
    ensures
        r == axis_cross_between_spec(value@),
{
    if str_eq(value, "between") {
        Some(AxisCrossBetween::Between)
    } else if str_eq(value, "midCat") {
        Some(AxisCrossBetween::MidCategory)
    } else {
        None
    }
}

/// The `AxisCrosses` that an attribute value names, if any.
pub open spec fn axis_crosses_spec(v: Seq<char>) -> Option<AxisCrosses> {
    if v == "autoZero"@ {
        Some(AxisCrosses::AutoZero)
    } else if v == "min"@ {
        Some(AxisCrosses::Min)
    } else if v == "max"@ {
        Some(AxisCrosses::Max)
    } else {
        None
    }
}

/// Reads a `AxisCrosses` attribute value.
pub fn axis_crosses(value: &str) -> (r: Option<AxisCrosses>)
    ensures
        r == axis_crosses_spec(value@),
{
    if str_eq(value, "autoZero") {
        Some(AxisCrosses::AutoZero)
    } else if str_eq(value, "min") {
        Some(AxisCrosses::Min)
    } else if str_eq(value, "max") {
        Some(AxisCrosses::Max)
    } else {
        None
    }
}

/// The `AxisTickMark` that an attribute value names, if any.
pub open spec fn axis_tick_mark_spec(v: Seq<char>) -> Option<AxisTickMark> {
    if v == "cross"@ {
        Some(AxisTickMark::Cross)
    } else if v == "in"@ {
        Some(AxisTickMark::In)
    } else if v == "out"@ {
        Some(AxisTickMark::Out)
    } else if v == "none"@ {
        Some(AxisTickMark::NoMark)
    } else {
        None
    }
}

/// Reads a `AxisTickMark` attribute value.
pub fn axis_tick_mark(value: &str) -> (r: Option<AxisTickMark>)
    ensures
        r == axis_tick_mark_spec(value@),
{
    if str_eq(value, "cross") {
        Some(AxisTickMark::Cross)
    } else if str_eq(value, "in") {
        Some(AxisTickMark::In)
    } else if str_eq(value, "out") {
        Some(AxisTickMark::Out)
    } else if str_eq(value, "none") {
        Some(AxisTickMark::NoMark)
    } else {
        None
    }
}

/// The `AxisDisplayUnit` that an attribute value names, if any.
pub open spec fn axis_display_unit_spec(v: Seq<char>) -> Option<AxisDisplayUnit> {
    if v == "hundreds"@ {
        Some(AxisDisplayUnit::Hundreds)
    } else if v == "thousands"@ {
        Some(AxisDisplayUnit::Thousands)
    } else if v == "tenThousands"@ {
        Some(AxisDisplayUnit::TenThousands)
    } else if v == "hundredThousands"@ {
        Some(AxisDisplayUnit::HundredThousands)
    } else if v == "millions"@ {
        Some(AxisDisplayUnit::Millions)
    } else if v == "tenMillions"@ {
        Some(AxisDisplayUnit::TenMillions)
    } else if v == "hundredMillions"@ {
        Some(AxisDisplayUnit::HundredMillions)
    } else if v == "billions"@ {
        Some(AxisDisplayUnit::Billions)
    } else if v == "trillions"@ {
        Some(AxisDisplayUnit::Trillions)
    } else {
        None
    }
}

/// Reads a `AxisDisplayUnit` attribute value.
pub fn axis_display_unit(value: &str) -> (r: Option<AxisDisplayUnit>)
    ensures
        r == axis_display_unit_spec(value@),
{
    if str_eq(value, "hundreds") {
        Some(AxisDisplayUnit::Hundreds)
    } else if str_eq(value, "thousands") {
        Some(AxisDisplayUnit::Thousands)
    } else if str_eq(value, "tenThousands") {
        Some(AxisDisplayUnit::TenThousands)
    } else if str_eq(value, "hundredThousands") {
        Some(AxisDisplayUnit::HundredThousands)
    } else if str_eq(value, "millions") {
        Some(AxisDisplayUnit::Millions)
    } else if str_eq(value, "tenMillions") {
        Some(AxisDisplayUnit::TenMillions)
    } else if str_eq(value, "hundredMillions") {
        Some(AxisDisplayUnit::HundredMillions)
    } else if str_eq(value, "billions") {
        Some(AxisDisplayUnit::Billions)
    } else if str_eq(value, "trillions") {
        Some(AxisDisplayUnit::Trillions)
    } else {
        None
    }
}

/// The `ChartDataLabelPosition` that an attribute value names, if any.
pub open spec fn data_label_position_spec(v: Seq<char>) -> Option<ChartDataLabelPosition> {
    if v == "bestFit"@ {
        Some(ChartDataLabelPosition::BestFit)
    } else if v == "b"@ {
        Some(ChartDataLabelPosition::Bottom)
    } else if v == "ctr"@ {
        Some(ChartDataLabelPosition::Center)
    } else if v == "inBase"@ {
        Some(ChartDataLabelPosition::InsideBase)
    } else if v == "inEnd"@ {
        Some(ChartDataLabelPosition::InsideEnd)
    } else if v == "l"@ {
        Some(ChartDataLabelPosition::Left)
    } else if v == "outEnd"@ {
        Some(ChartDataLabelPosition::OutsideEnd)
    } else if v == "r"@ {
        Some(ChartDataLabelPosition::Right)
    } else if v == "t"@ {
        Some(ChartDataLabelPosition::Top)
    } else {
        None
    }
}

/// Reads a `ChartDataLabelPosition` attribute value.
pub fn data_label_position(value: &str) -> (r: Option<ChartDataLabelPosition>)
    ensures
        r == data_label_position_spec(value@),
{
    if str_eq(value, "bestFit") {
        Some(ChartDataLabelPosition::BestFit)
    } else if str_eq(value, "b") {
        Some(ChartDataLabelPosition::Bottom)
    } else if str_eq(value, "ctr") {
        Some(ChartDataLabelPosition::Center)
    } else if str_eq(value, "inBase") {
        Some(ChartDataLabelPosition::InsideBase)
    } else if str_eq(value, "inEnd") {
        Some(ChartDataLabelPosition::InsideEnd)
    } else if str_eq(value, "l") {
        Some(ChartDataLabelPosition::Left)
    } else if str_eq(value, "outEnd") {
        Some(ChartDataLabelPosition::OutsideEnd)
    } else if str_eq(value, "r") {
        Some(ChartDataLabelPosition::Right)
    } else if str_eq(value, "t") {
        Some(ChartDataLabelPosition::Top)
    } else {
        None
    }
}

/// The `ChartDisplayBlanksAs` that an attribute value names, if any.
pub open spec fn display_blanks_as_spec(v: Seq<char>) -> Option<ChartDisplayBlanksAs> {
    if v == "gap"@ {
        Some(ChartDisplayBlanksAs::Gap)
    } else if v == "span"@ {
        Some(ChartDisplayBlanksAs::Span)
    } else if v == "zero"@ {
        Some(ChartDisplayBlanksAs::Zero)
    } else {
        None
    }
}

/// Reads a `ChartDisplayBlanksAs` attribute value.
pub fn display_blanks_as(value: &str) -> (r: Option<ChartDisplayBlanksAs>)
    ensures
        r == display_blanks_as_spec(value@),
{
    if str_eq(value, "gap") {
        Some(ChartDisplayBlanksAs::Gap)
    } else if str_eq(value, "span") {
        Some(ChartDisplayBlanksAs::Span)
    } else if str_eq(value, "zero") {
        Some(ChartDisplayBlanksAs::Zero)
    } else {
        None
    }
}

/// The `ScatterStyle` that an attribute value names, if any.
pub open spec fn scatter_style_spec(v: Seq<char>) -> Option<ScatterStyle> {
    if v == "line"@ {
        Some(ScatterStyle::Line)
    } else if v == "lineMarker"@ {
        Some(ScatterStyle::LineMarker)
    } else if v == "marker"@ {
        Some(ScatterStyle::Marker)
    } else if v == "smooth"@ {
        Some(ScatterStyle::Smooth)
    } else if v == "smoothMarker"@ {
        Some(ScatterStyle::SmoothMarker)
    } else {
        None
    }
}

/// Reads a `ScatterStyle` attribute value.
pub fn scatter_style(value: &str) -> (r: Option<ScatterStyle>)
    ensures
        r == scatter_style_spec(value@),
{
    if str_eq(value, "line") {
        Some(ScatterStyle::Line)
    } else if str_eq(value, "lineMarker") {
        Some(ScatterStyle::LineMarker)
    } else if str_eq(value, "marker") {
        Some(ScatterStyle::Marker)
    } else if str_eq(value, "smooth") {
        Some(ScatterStyle::Smooth)
    } else if str_eq(value, "smoothMarker") {
        Some(ScatterStyle::SmoothMarker)
    } else {
        None
    }
}

/// The `ChartMarkerSymbol` that an attribute value names, if any.
pub open spec fn marker_symbol_spec(v: Seq<char>) -> Option<ChartMarkerSymbol> {
    if v == "circle"@ {
        Some(ChartMarkerSymbol::Circle)
    } else if v == "dash"@ {
        Some(ChartMarkerSymbol::Dash)
    } else if v == "diamond"@ {
        Some(ChartMarkerSymbol::Diamond)
    } else if v == "dot"@ {
        Some(ChartMarkerSymbol::Dot)
    } else if v == "none"@ {
        Some(ChartMarkerSymbol::NoSymbol)
    } else if v == "picture"@ {
        Some(ChartMarkerSymbol::Picture)
    } else if v == "plus"@ {
        Some(ChartMarkerSymbol::Plus)
    } else if v == "square"@ {
        Some(ChartMarkerSymbol::Square)
    } else if v == "star"@ {
        Some(ChartMarkerSymbol::Star)
    } else if v == "triangle"@ {
        Some(ChartMarkerSymbol::Triangle)
    } else if v == "x"@ {
        Some(ChartMarkerSymbol::X)
    } else {
        None
    }
}

/// Reads a `ChartMarkerSymbol` attribute value.
pub fn marker_symbol(value: &str) -> (r: Option<ChartMarkerSymbol>)
    ensures
        r == marker_symbol_spec(value@),
{
    if str_eq(value, "circle") {
        Some(ChartMarkerSymbol::Circle)
    } else if str_eq(value, "dash") {
        Some(ChartMarkerSymbol::Dash)
    } else if str_eq(value, "diamond") {
        Some(ChartMarkerSymbol::Diamond)
    } else if str_eq(value, "dot") {
        Some(ChartMarkerSymbol::Dot)
    } else if str_eq(value, "none") {
        Some(ChartMarkerSymbol::NoSymbol)
    } else if str_eq(value, "picture") {
        Some(ChartMarkerSymbol::Picture)
    } else if str_eq(value, "plus") {
        Some(ChartMarkerSymbol::Plus)
    } else if str_eq(value, "square") {
        Some(ChartMarkerSymbol::Square)
    } else if str_eq(value, "star") {
        Some(ChartMarkerSymbol::Star)
    } else if str_eq(value, "triangle") {
        Some(ChartMarkerSymbol::Triangle)
    } else if str_eq(value, "x") {
        Some(ChartMarkerSymbol::X)
    } else {
        None
    }
}

/// The `ChartTrendlineType` that an attribute value names, if any.
pub open spec fn trendline_type_spec(v: Seq<char>) -> Option<ChartTrendlineType> {
    if v == "linear"@ {
        Some(ChartTrendlineType::Linear)
    } else if v == "exp"@ {
        Some(ChartTrendlineType::Exponential)
    } else if v == "log"@ {
        Some(ChartTrendlineType::Logarithmic)
    } else if v == "movingAvg"@ {
        Some(ChartTrendlineType::MovingAverage)
    } else if v == "poly"@ {
        Some(ChartTrendlineType::Polynomial)
    } else if v == "power"@ {
        Some(ChartTrendlineType::Power)
    } else {
        None
    }
}

/// Reads a `ChartTrendlineType` attribute value.
pub fn trendline_type(value: &str) -> (r: Option<ChartTrendlineType>)
    ensures
        r == trendline_type_spec(value@),
{
    if str_eq(value, "linear") {
        Some(ChartTrendlineType::Linear)
    } else if str_eq(value, "exp") {
        Some(ChartTrendlineType::Exponential)
    } else if str_eq(value, "log") {
        Some(ChartTrendlineType::Logarithmic)
    } else if str_eq(value, "movingAvg") {
        Some(ChartTrendlineType::MovingAverage)
    } else if str_eq(value, "poly") {
        Some(ChartTrendlineType::Polynomial)
    } else if str_eq(value, "power") {
        Some(ChartTrendlineType::Power)
    } else {
        None
    }
}

/// The `ChartErrorBarDirection` that an attribute value names, if any.
pub open spec fn error_bar_direction_spec(v: Seq<char>) -> Option<ChartErrorBarDirection> {
    if v == "x"@ {
        Some(ChartErrorBarDirection::X)
    } else if v == "y"@ {
        Some(ChartErrorBarDirection::Y)
    } else {
        None
    }
}

/// Reads a `ChartErrorBarDirection` attribute value.
pub fn error_bar_direction(value: &str) -> (r: Option<ChartErrorBarDirection>)
    ensures
        r == error_bar_direction_spec(value@),
{
    if str_eq(value, "x") {
        Some(ChartErrorBarDirection::X)
    } else if str_eq(value, "y") {
        Some(ChartErrorBarDirection::Y)
    } else {
        None
    }
}

/// The `ChartErrorBarType` that an attribute value names, if any.
pub open spec fn error_bar_type_spec(v: Seq<char>) -> Option<ChartErrorBarType> {
    if v == "both"@ {
        Some(ChartErrorBarType::Both)
    } else if v == "plus"@ {
        Some(ChartErrorBarType::Plus)
    } else if v == "minus"@ {
        Some(ChartErrorBarType::Minus)
    } else {
        None
    }
}

/// Reads a `ChartErrorBarType` attribute value.
pub fn error_bar_type(value: &str) -> (r: Option<ChartErrorBarType>)
    ensures
        r == error_bar_type_spec(value@),
{
    if str_eq(value, "both") {
        Some(ChartErrorBarType::Both)
    } else if str_eq(value, "plus") {
        Some(ChartErrorBarType::Plus)
    } else if str_eq(value, "minus") {
        Some(ChartErrorBarType::Minus)
    } else {
        None
    }
}

/// The `ChartErrorBarValueType` that an attribute value names, if any.
pub open spec fn error_bar_value_type_spec(v: Seq<char>) -> Option<ChartErrorBarValueType> {
    if v == "fixedVal"@ {
        Some(ChartErrorBarValueType::FixedValue)
    } else if v == "percentage"@ {
        Some(ChartErrorBarValueType::Percentage)
    } else if v == "stdDev"@ {
        Some(ChartErrorBarValueType::StandardDeviation)
    } else if v == "stdErr"@ {
        Some(ChartErrorBarValueType::StandardError)
    } else {
        None
    }
}

/// Reads a `ChartErrorBarValueType` attribute value.
pub fn error_bar_value_type(value: &str) -> (r: Option<ChartErrorBarValueType>)
    ensures
        r == error_bar_value_type_spec(value@),
{
    if str_eq(value, "fixedVal") {
        Some(ChartErrorBarValueType::FixedValue)
    } else if str_eq(value, "percentage") {
        Some(ChartErrorBarValueType::Percentage)
    } else if str_eq(value, "stdDev") {
        Some(ChartErrorBarValueType::StandardDeviation)
    } else if str_eq(value, "stdErr") {
        Some(ChartErrorBarValueType::StandardError)
    } else {
        None
    }
}

/// The `OfPieType` that an attribute value names, if any.
pub open spec fn of_pie_type_spec(v: Seq<char>) -> Option<OfPieType> {
    if v == "pie"@ {
        Some(OfPieType::Pie)
    } else if v == "bar"@ {
        Some(OfPieType::Bar)
    } else {
        None
    }
}

/// Reads a `OfPieType` attribute value.
pub fn of_pie_type(value: &str) -> (r: Option<OfPieType>)
    ensures
        r == of_pie_type_spec(value@),
{
    if str_eq(value, "pie") {
        Some(OfPieType::Pie)
    } else if str_eq(value, "bar") {
        Some(OfPieType::Bar)
    } else {
        None
    }
}

/// The `ChartLegendPosition` that an attribute value names, if any.
pub open spec fn legend_position_spec(v: Seq<char>) -> Option<ChartLegendPosition> {
    if v == "r"@ {
        Some(ChartLegendPosition::Right)
    } else if v == "l"@ {
        Some(ChartLegendPosition::Left)
    } else if v == "t"@ {
        Some(ChartLegendPosition::Top)
    } else if v == "b"@ {
        Some(ChartLegendPosition::Bottom)
    } else if v == "tr"@ {
        Some(ChartLegendPosition::TopRight)
    } else {
        None
    }
}

/// Reads a `ChartLegendPosition` attribute value.
pub fn legend_position(value: &str) -> (r: Option<ChartLegendPosition>)
    ensures
        r == legend_position_spec(value@),
{
    if str_eq(value, "r") {
        Some(ChartLegendPosition::Right)
    } else if str_eq(value, "l") {
        Some(ChartLegendPosition::Left)
    } else if str_eq(value, "t") {
        Some(ChartLegendPosition::Top)
    } else if str_eq(value, "b") {
        Some(ChartLegendPosition::Bottom)
    } else if str_eq(value, "tr") {
        Some(ChartLegendPosition::TopRight)
    } else {
        None
    }
}

/// An OOXML boolean attribute value.
pub open spec fn parse_ooxml_bool_spec(v: Seq<char>) -> Option<bool> {
    if v == "1"@ || v == "true"@ || v == "TRUE"@ {
        Some(true)
    } else if v == "0"@ || v == "false"@ || v == "FALSE"@ {
        Some(false)
    } else {
        None
    }
}

/// Reads an OOXML boolean (`1`/`true`/`TRUE`, `0`/`false`/`FALSE`).
pub fn parse_ooxml_bool(value: &str) -> (r: Option<bool>)
    ensures
        r == parse_ooxml_bool_spec(value@),
{
    if str_eq(value, "1") || str_eq(value, "true") || str_eq(value, "TRUE") {
        Some(true)
    } else if str_eq(value, "0") || str_eq(value, "false") || str_eq(value, "FALSE") {
        Some(false)
    } else {
        None
    }
}

/// The style number that a `c:style` value stands for: the c14 alternate
/// numbering 101..=148 is shifted down by 100.
pub open spec fn normalize_chart_style_spec(value: u32) -> u32 {
    if 101 <= value && value <= 148 {
        (value - 100) as u32
    } else {
        value
    }
}

/// Maps a c14 `AlternateContent` style number (101..=148) onto 1..=48.
pub fn normalize_chart_style(value: u32) -> (r: u32)
    ensures
        r == normalize_chart_style_spec(value),
{
    if 101 <= value && value <= 148 {
        value - 100
    } else {
        value
    }
}

/// The RGB value of a theme colour name (Office 2016 defaults, HWP style 102 approximation).
pub open spec fn scheme_color_spec(name: Seq<char>) -> Option<u32> {
    if name == "accent1"@ {
        Some(0x70AD47u32)
    } else if name == "accent2"@ {
        Some(0x4472C4u32)
    } else if name == "accent3"@ {
        Some(0xED7D31u32)
    } else if name == "accent4"@ {
        Some(0xFFC000u32)
    } else if name == "accent5"@ {
        Some(0x5B9BD5u32)
    } else if name == "accent6"@ {
        Some(0xA5A5A5u32)
    } else if name == "dk1"@ || name == "tx1"@ {
        Some(0x000000u32)
    } else if name == "lt1"@ || name == "bg1"@ {
        Some(0xFFFFFFu32)
    } else if name == "dk2"@ || name == "tx2"@ {
        Some(0x44546Au32)
    } else if name == "lt2"@ || name == "bg2"@ {
        Some(0xE7E6E6u32)
    } else {
        None
    }
}

/// 테마 색상 이름 → RGB (accent1~6, dk1, lt1, dk2, lt2 등).
pub fn scheme_color(name: &str) -> (r: Option<u32>)
    ensures
        r == scheme_color_spec(name@),
{
    if str_eq(name, "accent1") {
        Some(0x70AD47)
    } else if str_eq(name, "accent2") {
        Some(0x4472C4)
    } else if str_eq(name, "accent3") {
        Some(0xED7D31)
    } else if str_eq(name, "accent4") {
        Some(0xFFC000)
    } else if str_eq(name, "accent5") {
        Some(0x5B9BD5)
    } else if str_eq(name, "accent6") {
        Some(0xA5A5A5)
    } else if str_eq(name, "dk1") || str_eq(name, "tx1") {
        Some(0x000000)
    } else if str_eq(name, "lt1") || str_eq(name, "bg1") {
        Some(0xFFFFFF)
    } else if str_eq(name, "dk2") || str_eq(name, "tx2") {
        Some(0x44546A)
    } else if str_eq(name, "lt2") || str_eq(name, "bg2") {
        Some(0xE7E6E6)
    } else {
        None
    }
}

/// The colour that an `srgbClr` value gives: surrounding whitespace and every
/// leading `#` dropped, then six characters read as hexadecimal. (A text of six
/// bytes that is not six characters holds a non-ASCII character and so is no
/// number either way.)
pub open spec fn parse_rgb_hex_spec(s: Seq<char>) -> Option<u32> {
    let t = strip_leading_seq(trim_seq(s), '#');
    if t.len() != 6 {
        None
    } else {
        match parse_hex_u32_spec(t) {
            Some(v) => Some(v as u32),
            None => None,
        }
    }
}

/// Reads an `RRGGBB` colour value (with or without `#`).
pub fn parse_rgb_hex(s: &str) -> (r: Option<u32>)
    ensures
        r == parse_rgb_hex_spec(s@),
{
    let t = strip_leading_char(trim_str(s), '#');
    if t.unicode_len() != 6 {
        return None;
    }
    match parse_hex_u32(t) {
        Some(v) => Some(v),
        None => None,
    }
}

/// The texts for which `axis_label_position` gives each value; any other text gives
/// no value.
pub proof fn lemma_axis_label_position_texts(v: Seq<char>)
    ensures
        axis_label_position_spec(v) is None <==> (!(v == "high"@ || v == "low"@ || v == "nextTo"@ || v == "none"@)),
        axis_label_position_spec(v) == Some(AxisLabelPosition::High) <==> (v == "high"@),
        axis_label_position_spec(v) == Some(AxisLabelPosition::Low) <==> (v == "low"@),
        axis_label_position_spec(v) == Some(AxisLabelPosition::NextTo) <==> (v == "nextTo"@),
        axis_label_position_spec(v) == Some(AxisLabelPosition::NoLabels) <==> (v == "none"@),
{
    reveal_strlit("high");
    reveal_strlit("low");
    reveal_strlit("nextTo");
    reveal_strlit("none");
    assert("high"@.len() != "low"@.len());
    assert("high"@.len() != "nextTo"@.len());
    assert("high"@[0] != "none"@[0]);
    assert("low"@.len() != "nextTo"@.len());
    assert("low"@.len() != "none"@.len());
    assert("nextTo"@.len() != "none"@.len());
}

/// The texts for which `axis_position` gives each value; any other text gives
/// no value.
pub proof fn lemma_axis_position_texts(v: Seq<char>)
    ensures
        axis_position_spec(v) is None <==> (!(v == "b"@ || v == "l"@ || v == "r"@ || v == "t"@)),
        axis_position_spec(v) == Some(AxisPosition::Bottom) <==> (v == "b"@),
        axis_position_spec(v) == Some(AxisPosition::Left) <==> (v == "l"@),
        axis_position_spec(v) == Some(AxisPosition::Right) <==> (v == "r"@),
        axis_position_spec(v) == Some(AxisPosition::Top) <==> (v == "t"@),
{
    reveal_strlit("b");
    reveal_strlit("l");
    reveal_strlit("r");
    reveal_strlit("t");
    assert("b"@[0] != "l"@[0]);
    assert("b"@[0] != "r"@[0]);
    assert("b"@[0] != "t"@[0]);
    assert("l"@[0] != "r"@[0]);
    assert("l"@[0] != "t"@[0]);
    assert("r"@[0] != "t"@[0]);
}

/// The texts for which `axis_label_alignment` gives each value; any other text gives
/// no value.
pub proof fn lemma_axis_label_alignment_texts(v: Seq<char>)
    ensures
        axis_label_alignment_spec(v) is None <==> (!(v == "ctr"@ || v == "l"@ || v == "r"@)),
        axis_label_alignment_spec(v) == Some(AxisLabelAlignment::Center) <==> (v == "ctr"@),
        axis_label_alignment_spec(v) == Some(AxisLabelAlignment::Left) <==> (v == "l"@),
        axis_label_alignment_spec(v) == Some(AxisLabelAlignment::Right) <==> (v == "r"@),
{
    reveal_strlit("ctr");
    reveal_strlit("l");
    reveal_strlit("r");
    assert("ctr"@.len() != "l"@.len());
    assert("ctr"@.len() != "r"@.len());
    assert("l"@[0] != "r"@[0]);
}

/// The texts for which `axis_orientation` gives each value; any other text gives
/// no value.
pub proof fn lemma_axis_orientation_texts(v: Seq<char>)
    ensures
        axis_orientation_spec(v) is None <==> (!(v == "maxMin"@ || v == "minMax"@)),
        axis_orientation_spec(v) == Some(AxisOrientation::MaxMin) <==> (v == "maxMin"@),
        axis_orientation_spec(v) == Some(AxisOrientation::MinMax) <==> (v == "minMax"@),
{
    reveal_strlit("maxMin");
    reveal_strlit("minMax");
    assert("maxMin"@[1] != "minMax"@[1]);
}

/// The texts for which `axis_cross_between` gives each value; any other text gives
/// no value.
pub proof fn lemma_axis_cross_between_texts(v: Seq<char>)
    ensures
        axis_cross_between_spec(v) is None <==> (!(v == "between"@ || v == "midCat"@)),
        axis_cross_between_spec(v) == Some(AxisCrossBetween::Between) <==> (v == "between"@),
        axis_cross_between_spec(v) == Some(AxisCrossBetween::MidCategory) <==> (v == "midCat"@),
{
    reveal_strlit("between");
    reveal_strlit("midCat");
    assert("between"@.len() != "midCat"@.len());
}

/// The texts for which `axis_crosses` gives each value; any other text gives
/// no value.
pub proof fn lemma_axis_crosses_texts(v: Seq<char>)
    ensures
        axis_crosses_spec(v) is None <==> (!(v == "autoZero"@ || v == "max"@ || v == "min"@)),
        axis_crosses_spec(v) == Some(AxisCrosses::AutoZero) <==> (v == "autoZero"@),
        axis_crosses_spec(v) == Some(AxisCrosses::Max) <==> (v == "max"@),
        axis_crosses_spec(v) == Some(AxisCrosses::Min) <==> (v == "min"@),
{
    reveal_strlit("autoZero");
    reveal_strlit("max");
    reveal_strlit("min");
    assert("autoZero"@.len() != "max"@.len());
    assert("autoZero"@.len() != "min"@.len());
    assert("max"@[1] != "min"@[1]);
}

/// The texts for which `axis_tick_mark` gives each value; any other text gives
/// no value.
pub proof fn lemma_axis_tick_mark_texts(v: Seq<char>)
    ensures
        axis_tick_mark_spec(v) is None <==> (!(v == "cross"@ || v == "in"@ || v == "none"@ || v == "out"@)),
        axis_tick_mark_spec(v) == Some(AxisTickMark::Cross) <==> (v == "cross"@),
        axis_tick_mark_spec(v) == Some(AxisTickMark::In) <==> (v == "in"@),
        axis_tick_mark_spec(v) == Some(AxisTickMark::NoMark) <==> (v == "none"@),
        axis_tick_mark_spec(v) == Some(AxisTickMark::Out) <==> (v == "out"@),
{
    reveal_strlit("cross");
    reveal_strlit("in");
    reveal_strlit("none");
    reveal_strlit("out");
    assert("cross"@.len() != "in"@.len());
    assert("cross"@.len() != "none"@.len());
    assert("cross"@.len() != "out"@.len());
    assert("in"@.len() != "none"@.len());
    assert("in"@.len() != "out"@.len());
    assert("none"@.len() != "out"@.len());
}

/// The texts for which `axis_display_unit` gives each value; any other text gives
/// no value.
pub proof fn lemma_axis_display_unit_texts(v: Seq<char>)
    ensures
        axis_display_unit_spec(v) is None <==> (!(v == "billions"@ || v == "hundredMillions"@ || v == "hundredThousands"@ || v == "hundreds"@ || v == "millions"@ || v == "tenMillions"@ || v == "tenThousands"@ || v == "thousands"@ || v == "trillions"@)),
        axis_display_unit_spec(v) == Some(AxisDisplayUnit::Billions) <==> (v == "billions"@),
        axis_display_unit_spec(v) == Some(AxisDisplayUnit::HundredMillions) <==> (v == "hundredMillions"@),
        axis_display_unit_spec(v) == Some(AxisDisplayUnit::HundredThousands) <==> (v == "hundredThousands"@),
        axis_display_unit_spec(v) == Some(AxisDisplayUnit::Hundreds) <==> (v == "hundreds"@),
        axis_display_unit_spec(v) == Some(AxisDisplayUnit::Millions) <==> (v == "millions"@),
        axis_display_unit_spec(v) == Some(AxisDisplayUnit::TenMillions) <==> (v == "tenMillions"@),
        axis_display_unit_spec(v) == Some(AxisDisplayUnit::TenThousands) <==> (v == "tenThousands"@),
        axis_display_unit_spec(v) == Some(AxisDisplayUnit::Thousands) <==> (v == "thousands"@),
        axis_display_unit_spec(v) == Some(AxisDisplayUnit::Trillions) <==> (v == "trillions"@),
{
    reveal_strlit("billions");
    reveal_strlit("hundredMillions");
    reveal_strlit("hundredThousands");
    reveal_strlit("hundreds");
    reveal_strlit("millions");
    reveal_strlit("tenMillions");
    reveal_strlit("tenThousands");
    reveal_strlit("thousands");
    reveal_strlit("trillions");
    assert("billions"@.len() != "hundredMillions"@.len());
    assert("billions"@.len() != "hundredThousands"@.len());
    assert("billions"@[0] != "hundreds"@[0]);
    assert("billions"@[0] != "millions"@[0]);
    assert("billions"@.len() != "tenMillions"@.len());
    assert("billions"@.len() != "tenThousands"@.len());
    assert("billions"@.len() != "thousands"@.len());
    assert("billions"@.len() != "trillions"@.len());
    assert("hundredMillions"@.len() != "hundredThousands"@.len());
    assert("hundredMillions"@.len() != "hundreds"@.len());
    assert("hundredMillions"@.len() != "millions"@.len());
    assert("hundredMillions"@.len() != "tenMillions"@.len());
    assert("hundredMillions"@.len() != "tenThousands"@.len());
    assert("hundredMillions"@.len() != "thousands"@.len());
    assert("hundredMillions"@.len() != "trillions"@.len());
    assert("hundredThousands"@.len() != "hundreds"@.len());
    assert("hundredThousands"@.len() != "millions"@.len());
    assert("hundredThousands"@.len() != "tenMillions"@.len());
    assert("hundredThousands"@.len() != "tenThousands"@.len());
    assert("hundredThousands"@.len() != "thousands"@.len());
    assert("hundredThousands"@.len() != "trillions"@.len());
    assert("hundreds"@[0] != "millions"@[0]);
    assert("hundreds"@.len() != "tenMillions"@.len());
    assert("hundreds"@.len() != "tenThousands"@.len());
    assert("hundreds"@.len() != "thousands"@.len());
    assert("hundreds"@.len() != "trillions"@.len());
    assert("millions"@.len() != "tenMillions"@.len());
    assert("millions"@.len() != "tenThousands"@.len());
    assert("millions"@.len() != "thousands"@.len());
    assert("millions"@.len() != "trillions"@.len());
    assert("tenMillions"@.len() != "tenThousands"@.len());
    assert("tenMillions"@.len() != "thousands"@.len());
    assert("tenMillions"@.len() != "trillions"@.len());
    assert("tenThousands"@.len() != "thousands"@.len());
    assert("tenThousands"@.len() != "trillions"@.len());
    assert("thousands"@[1] != "trillions"@[1]);
}

/// The texts for which `data_label_position` gives each value; any other text gives
/// no value.
pub proof fn lemma_data_label_position_texts(v: Seq<char>)
    ensures
        data_label_position_spec(v) is None <==> (!(v == "b"@ || v == "bestFit"@ || v == "ctr"@ || v == "inBase"@ || v == "inEnd"@ || v == "l"@ || v == "outEnd"@ || v == "r"@ || v == "t"@)),
        data_label_position_spec(v) == Some(ChartDataLabelPosition::BestFit) <==> (v == "bestFit"@),
        data_label_position_spec(v) == Some(ChartDataLabelPosition::Bottom) <==> (v == "b"@),
        data_label_position_spec(v) == Some(ChartDataLabelPosition::Center) <==> (v == "ctr"@),
        data_label_position_spec(v) == Some(ChartDataLabelPosition::InsideBase) <==> (v == "inBase"@),
        data_label_position_spec(v) == Some(ChartDataLabelPosition::InsideEnd) <==> (v == "inEnd"@),
        data_label_position_spec(v) == Some(ChartDataLabelPosition::Left) <==> (v == "l"@),
        data_label_position_spec(v) == Some(ChartDataLabelPosition::OutsideEnd) <==> (v == "outEnd"@),
        data_label_position_spec(v) == Some(ChartDataLabelPosition::Right) <==> (v == "r"@),
        data_label_position_spec(v) == Some(ChartDataLabelPosition::Top) <==> (v == "t"@),
{
    reveal_strlit("b");
    reveal_strlit("bestFit");
    reveal_strlit("ctr");
    reveal_strlit("inBase");
    reveal_strlit("inEnd");
    reveal_strlit("l");
    reveal_strlit("outEnd");
    reveal_strlit("r");
    reveal_strlit("t");
    assert("b"@.len() != "bestFit"@.len());
    assert("b"@.len() != "ctr"@.len());
    assert("b"@.len() != "inBase"@.len());
    assert("b"@.len() != "inEnd"@.len());
    assert("b"@[0] != "l"@[0]);
    assert("b"@.len() != "outEnd"@.len());
    assert("b"@[0] != "r"@[0]);
    assert("b"@[0] != "t"@[0]);
    assert("bestFit"@.len() != "ctr"@.len());
    assert("bestFit"@.len() != "inBase"@.len());
    assert("bestFit"@.len() != "inEnd"@.len());
    assert("bestFit"@.len() != "l"@.len());
    assert("bestFit"@.len() != "outEnd"@.len());
    assert("bestFit"@.len() != "r"@.len());
    assert("bestFit"@.len() != "t"@.len());
    assert("ctr"@.len() != "inBase"@.len());
    assert("ctr"@.len() != "inEnd"@.len());
    assert("ctr"@.len() != "l"@.len());
    assert("ctr"@.len() != "outEnd"@.len());
    assert("ctr"@.len() != "r"@.len());
    assert("ctr"@.len() != "t"@.len());
    assert("inBase"@.len() != "inEnd"@.len());
    assert("inBase"@.len() != "l"@.len());
    assert("inBase"@[0] != "outEnd"@[0]);
    assert("inBase"@.len() != "r"@.len());
    assert("inBase"@.len() != "t"@.len());
    assert("inEnd"@.len() != "l"@.len());
    assert("inEnd"@.len() != "outEnd"@.len());
    assert("inEnd"@.len() != "r"@.len());
    assert("inEnd"@.len() != "t"@.len());
    assert("l"@.len() != "outEnd"@.len());
    assert("l"@[0] != "r"@[0]);
    assert("l"@[0] != "t"@[0]);
    assert("outEnd"@.len() != "r"@.len());
    assert("outEnd"@.len() != "t"@.len());
    assert("r"@[0] != "t"@[0]);
}

/// The texts for which `display_blanks_as` gives each value; any other text gives
/// no value.
pub proof fn lemma_display_blanks_as_texts(v: Seq<char>)
    ensures
        display_blanks_as_spec(v) is None <==> (!(v == "gap"@ || v == "span"@ || v == "zero"@)),
        display_blanks_as_spec(v) == Some(ChartDisplayBlanksAs::Gap) <==> (v == "gap"@),
        display_blanks_as_spec(v) == Some(ChartDisplayBlanksAs::Span) <==> (v == "span"@),
        display_blanks_as_spec(v) == Some(ChartDisplayBlanksAs::Zero) <==> (v == "zero"@),
{
    reveal_strlit("gap");
    reveal_strlit("span");
    reveal_strlit("zero");
    assert("gap"@.len() != "span"@.len());
    assert("gap"@.len() != "zero"@.len());
    assert("span"@[0] != "zero"@[0]);
}

/// The texts for which `scatter_style` gives each value; any other text gives
/// no value.
pub proof fn lemma_scatter_style_texts(v: Seq<char>)
    ensures
        scatter_style_spec(v) is None <==> (!(v == "line"@ || v == "lineMarker"@ || v == "marker"@ || v == "smooth"@ || v == "smoothMarker"@)),
        scatter_style_spec(v) == Some(ScatterStyle::Line) <==> (v == "line"@),
        scatter_style_spec(v) == Some(ScatterStyle::LineMarker) <==> (v == "lineMarker"@),
        scatter_style_spec(v) == Some(ScatterStyle::Marker) <==> (v == "marker"@),
        scatter_style_spec(v) == Some(ScatterStyle::Smooth) <==> (v == "smooth"@),
        scatter_style_spec(v) == Some(ScatterStyle::SmoothMarker) <==> (v == "smoothMarker"@),
{
    reveal_strlit("line");
    reveal_strlit("lineMarker");
    reveal_strlit("marker");
    reveal_strlit("smooth");
    reveal_strlit("smoothMarker");
    assert("line"@.len() != "lineMarker"@.len());
    assert("line"@.len() != "marker"@.len());
    assert("line"@.len() != "smooth"@.len());
    assert("line"@.len() != "smoothMarker"@.len());
    assert("lineMarker"@.len() != "marker"@.len());
    assert("lineMarker"@.len() != "smooth"@.len());
    assert("lineMarker"@.len() != "smoothMarker"@.len());
    assert("marker"@[0] != "smooth"@[0]);
    assert("marker"@.len() != "smoothMarker"@.len());
    assert("smooth"@.len() != "smoothMarker"@.len());
}

/// The texts for which `marker_symbol` gives each value; any other text gives
/// no value.
pub proof fn lemma_marker_symbol_texts(v: Seq<char>)
    ensures
        marker_symbol_spec(v) is None <==> (!(v == "circle"@ || v == "dash"@ || v == "diamond"@ || v == "dot"@ || v == "none"@ || v == "picture"@ || v == "plus"@ || v == "square"@ || v == "star"@ || v == "triangle"@ || v == "x"@)),
        marker_symbol_spec(v) == Some(ChartMarkerSymbol::Circle) <==> (v == "circle"@),
        marker_symbol_spec(v) == Some(ChartMarkerSymbol::Dash) <==> (v == "dash"@),
        marker_symbol_spec(v) == Some(ChartMarkerSymbol::Diamond) <==> (v == "diamond"@),
        marker_symbol_spec(v) == Some(ChartMarkerSymbol::Dot) <==> (v == "dot"@),
        marker_symbol_spec(v) == Some(ChartMarkerSymbol::NoSymbol) <==> (v == "none"@),
        marker_symbol_spec(v) == Some(ChartMarkerSymbol::Picture) <==> (v == "picture"@),
        marker_symbol_spec(v) == Some(ChartMarkerSymbol::Plus) <==> (v == "plus"@),
        marker_symbol_spec(v) == Some(ChartMarkerSymbol::Square) <==> (v == "square"@),
        marker_symbol_spec(v) == Some(ChartMarkerSymbol::Star) <==> (v == "star"@),
        marker_symbol_spec(v) == Some(ChartMarkerSymbol::Triangle) <==> (v == "triangle"@),
        marker_symbol_spec(v) == Some(ChartMarkerSymbol::X) <==> (v == "x"@),
{
    reveal_strlit("circle");
    reveal_strlit("dash");
    reveal_strlit("diamond");
    reveal_strlit("dot");
    reveal_strlit("none");
    reveal_strlit("picture");
    reveal_strlit("plus");
    reveal_strlit("square");
    reveal_strlit("star");
    reveal_strlit("triangle");
    reveal_strlit("x");
    assert("circle"@.len() != "dash"@.len());
    assert("circle"@.len() != "diamond"@.len());
    assert("circle"@.len() != "dot"@.len());
    assert("circle"@.len() != "none"@.len());
    assert("circle"@.len() != "picture"@.len());
    assert("circle"@.len() != "plus"@.len());
    assert("circle"@[0] != "square"@[0]);
    assert("circle"@.len() != "star"@.len());
    assert("circle"@.len() != "triangle"@.len());
    assert("circle"@.len() != "x"@.len());
    assert("dash"@.len() != "diamond"@.len());
    assert("dash"@.len() != "dot"@.len());
    assert("dash"@[0] != "none"@[0]);
    assert("dash"@.len() != "picture"@.len());
    assert("dash"@[0] != "plus"@[0]);
    assert("dash"@.len() != "square"@.len());
    assert("dash"@[0] != "star"@[0]);
    assert("dash"@.len() != "triangle"@.len());
    assert("dash"@.len() != "x"@.len());
    assert("diamond"@.len() != "dot"@.len());
    assert("diamond"@.len() != "none"@.len());
    assert("diamond"@[0] != "picture"@[0]);
    assert("diamond"@.len() != "plus"@.len());
    assert("diamond"@.len() != "square"@.len());
    assert("diamond"@.len() != "star"@.len());
    assert("diamond"@.len() != "triangle"@.len());
    assert("diamond"@.len() != "x"@.len());
    assert("dot"@.len() != "none"@.len());
    assert("dot"@.len() != "picture"@.len());
    assert("dot"@.len() != "plus"@.len());
    assert("dot"@.len() != "square"@.len());
    assert("dot"@.len() != "star"@.len());
    assert("dot"@.len() != "triangle"@.len());
    assert("dot"@.len() != "x"@.len());
    assert("none"@.len() != "picture"@.len());
    assert("none"@[0] != "plus"@[0]);
    assert("none"@.len() != "square"@.len());
    assert("none"@[0] != "star"@[0]);
    assert("none"@.len() != "triangle"@.len());
    assert("none"@.len() != "x"@.len());
    assert("picture"@.len() != "plus"@.len());
    assert("picture"@.len() != "square"@.len());
    assert("picture"@.len() != "star"@.len());
    assert("picture"@.len() != "triangle"@.len());
    assert("picture"@.len() != "x"@.len());
    assert("plus"@.len() != "square"@.len());
    assert("plus"@[0] != "star"@[0]);
    assert("plus"@.len() != "triangle"@.len());
    assert("plus"@.len() != "x"@.len());
    assert("square"@.len() != "star"@.len());
    assert("square"@.len() != "triangle"@.len());
    assert("square"@.len() != "x"@.len());
    assert("star"@.len() != "triangle"@.len());
    assert("star"@.len() != "x"@.len());
    assert("triangle"@.len() != "x"@.len());
}

/// The texts for which `trendline_type` gives each value; any other text gives
/// no value.
pub proof fn lemma_trendline_type_texts(v: Seq<char>)
    ensures
        trendline_type_spec(v) is None <==> (!(v == "exp"@ || v == "linear"@ || v == "log"@ || v == "movingAvg"@ || v == "poly"@ || v == "power"@)),
        trendline_type_spec(v) == Some(ChartTrendlineType::Exponential) <==> (v == "exp"@),
        trendline_type_spec(v) == Some(ChartTrendlineType::Linear) <==> (v == "linear"@),
        trendline_type_spec(v) == Some(ChartTrendlineType::Logarithmic) <==> (v == "log"@),
        trendline_type_spec(v) == Some(ChartTrendlineType::MovingAverage) <==> (v == "movingAvg"@),
        trendline_type_spec(v) == Some(ChartTrendlineType::Polynomial) <==> (v == "poly"@),
        trendline_type_spec(v) == Some(ChartTrendlineType::Power) <==> (v == "power"@),
{
    reveal_strlit("exp");
    reveal_strlit("linear");
    reveal_strlit("log");
    reveal_strlit("movingAvg");
    reveal_strlit("poly");
    reveal_strlit("power");
    assert("exp"@.len() != "linear"@.len());
    assert("exp"@[0] != "log"@[0]);
    assert("exp"@.len() != "movingAvg"@.len());
    assert("exp"@.len() != "poly"@.len());
    assert("exp"@.len() != "power"@.len());
    assert("linear"@.len() != "log"@.len());
    assert("linear"@.len() != "movingAvg"@.len());
    assert("linear"@.len() != "poly"@.len());
    assert("linear"@.len() != "power"@.len());
    assert("log"@.len() != "movingAvg"@.len());
    assert("log"@.len() != "poly"@.len());
    assert("log"@.len() != "power"@.len());
    assert("movingAvg"@.len() != "poly"@.len());
    assert("movingAvg"@.len() != "power"@.len());
    assert("poly"@.len() != "power"@.len());
}

/// The texts for which `error_bar_direction` gives each value; any other text gives
/// no value.
pub proof fn lemma_error_bar_direction_texts(v: Seq<char>)
    ensures
        error_bar_direction_spec(v) is None <==> (!(v == "x"@ || v == "y"@)),
        error_bar_direction_spec(v) == Some(ChartErrorBarDirection::X) <==> (v == "x"@),
        error_bar_direction_spec(v) == Some(ChartErrorBarDirection::Y) <==> (v == "y"@),
{
    reveal_strlit("x");
    reveal_strlit("y");
    assert("x"@[0] != "y"@[0]);
}

/// The texts for which `error_bar_type` gives each value; any other text gives
/// no value.
pub proof fn lemma_error_bar_type_texts(v: Seq<char>)
    ensures
        error_bar_type_spec(v) is None <==> (!(v == "both"@ || v == "minus"@ || v == "plus"@)),
        error_bar_type_spec(v) == Some(ChartErrorBarType::Both) <==> (v == "both"@),
        error_bar_type_spec(v) == Some(ChartErrorBarType::Minus) <==> (v == "minus"@),
        error_bar_type_spec(v) == Some(ChartErrorBarType::Plus) <==> (v == "plus"@),
{
    reveal_strlit("both");
    reveal_strlit("minus");
    reveal_strlit("plus");
    assert("both"@.len() != "minus"@.len());
    assert("both"@[0] != "plus"@[0]);
    assert("minus"@.len() != "plus"@.len());
}

/// The texts for which `error_bar_value_type` gives each value; any other text gives
/// no value.
pub proof fn lemma_error_bar_value_type_texts(v: Seq<char>)
    ensures
        error_bar_value_type_spec(v) is None <==> (!(v == "fixedVal"@ || v == "percentage"@ || v == "stdDev"@ || v == "stdErr"@)),
        error_bar_value_type_spec(v) == Some(ChartErrorBarValueType::FixedValue) <==> (v == "fixedVal"@),
        error_bar_value_type_spec(v) == Some(ChartErrorBarValueType::Percentage) <==> (v == "percentage"@),
        error_bar_value_type_spec(v) == Some(ChartErrorBarValueType::StandardDeviation) <==> (v == "stdDev"@),
        error_bar_value_type_spec(v) == Some(ChartErrorBarValueType::StandardError) <==> (v == "stdErr"@),
{
    reveal_strlit("fixedVal");
    reveal_strlit("percentage");
    reveal_strlit("stdDev");
    reveal_strlit("stdErr");
    assert("fixedVal"@.len() != "percentage"@.len());
    assert("fixedVal"@.len() != "stdDev"@.len());
    assert("fixedVal"@.len() != "stdErr"@.len());
    assert("percentage"@.len() != "stdDev"@.len());
    assert("percentage"@.len() != "stdErr"@.len());
    assert("stdDev"@[3] != "stdErr"@[3]);
}

/// The texts for which `of_pie_type` gives each value; any other text gives
/// no value.
pub proof fn lemma_of_pie_type_texts(v: Seq<char>)
    ensures
        of_pie_type_spec(v) is None <==> (!(v == "bar"@ || v == "pie"@)),
        of_pie_type_spec(v) == Some(OfPieType::Bar) <==> (v == "bar"@),
        of_pie_type_spec(v) == Some(OfPieType::Pie) <==> (v == "pie"@),
{
    reveal_strlit("bar");
    reveal_strlit("pie");
    assert("bar"@[0] != "pie"@[0]);
}

/// The texts for which `legend_position` gives each value; any other text gives
/// no value.
pub proof fn lemma_legend_position_texts(v: Seq<char>)
    ensures
        legend_position_spec(v) is None <==> (!(v == "b"@ || v == "l"@ || v == "r"@ || v == "t"@ || v == "tr"@)),
        legend_position_spec(v) == Some(ChartLegendPosition::Bottom) <==> (v == "b"@),
        legend_position_spec(v) == Some(ChartLegendPosition::Left) <==> (v == "l"@),
        legend_position_spec(v) == Some(ChartLegendPosition::Right) <==> (v == "r"@),
        legend_position_spec(v) == Some(ChartLegendPosition::Top) <==> (v == "t"@),
        legend_position_spec(v) == Some(ChartLegendPosition::TopRight) <==> (v == "tr"@),
{
    reveal_strlit("b");
    reveal_strlit("l");
    reveal_strlit("r");
    reveal_strlit("t");
    reveal_strlit("tr");
    assert("b"@[0] != "l"@[0]);
    assert("b"@[0] != "r"@[0]);
    assert("b"@[0] != "t"@[0]);
    assert("b"@.len() != "tr"@.len());
    assert("l"@[0] != "r"@[0]);
    assert("l"@[0] != "t"@[0]);
    assert("l"@.len() != "tr"@.len());
    assert("r"@[0] != "t"@[0]);
    assert("r"@.len() != "tr"@.len());
    assert("t"@.len() != "tr"@.len());
}

/// The texts for which `parse_ooxml_bool` gives each value; any other text gives
/// no value.
pub proof fn lemma_parse_ooxml_bool_texts(v: Seq<char>)
    ensures
        parse_ooxml_bool_spec(v) is None <==> (!(v == "0"@ || v == "1"@ || v == "FALSE"@ || v == "TRUE"@ || v == "false"@ || v == "true"@)),
        parse_ooxml_bool_spec(v) == Some(false) <==> (v == "0"@ || v == "FALSE"@ || v == "false"@),
        parse_ooxml_bool_spec(v) == Some(true) <==> (v == "1"@ || v == "TRUE"@ || v == "true"@),
{
    reveal_strlit("0");
    reveal_strlit("1");
    reveal_strlit("FALSE");
    reveal_strlit("TRUE");
    reveal_strlit("false");
    reveal_strlit("true");
    assert("0"@[0] != "1"@[0]);
    assert("0"@.len() != "FALSE"@.len());
    assert("0"@.len() != "TRUE"@.len());
    assert("0"@.len() != "false"@.len());
    assert("0"@.len() != "true"@.len());
    assert("1"@.len() != "FALSE"@.len());
    assert("1"@.len() != "TRUE"@.len());
    assert("1"@.len() != "false"@.len());
    assert("1"@.len() != "true"@.len());
    assert("FALSE"@.len() != "TRUE"@.len());
    assert("FALSE"@[0] != "false"@[0]);
    assert("FALSE"@.len() != "true"@.len());
    assert("TRUE"@.len() != "false"@.len());
    assert("TRUE"@[0] != "true"@[0]);
    assert("false"@.len() != "true"@.len());
}

/// The texts for which `scheme_color` gives each value; any other text gives
/// no value.
pub proof fn lemma_scheme_color_texts(name: Seq<char>)
    ensures
        scheme_color_spec(name) is None <==> (!(name == "accent1"@ || name == "accent2"@ || name == "accent3"@ || name == "accent4"@ || name == "accent5"@ || name == "accent6"@ || name == "bg1"@ || name == "bg2"@ || name == "dk1"@ || name == "dk2"@ || name == "lt1"@ || name == "lt2"@ || name == "tx1"@ || name == "tx2"@)),
        scheme_color_spec(name) == Some(0x000000u32) <==> (name == "dk1"@ || name == "tx1"@),
        scheme_color_spec(name) == Some(0x44546Au32) <==> (name == "dk2"@ || name == "tx2"@),
        scheme_color_spec(name) == Some(0x4472C4u32) <==> (name == "accent2"@),
        scheme_color_spec(name) == Some(0x5B9BD5u32) <==> (name == "accent5"@),
        scheme_color_spec(name) == Some(0x70AD47u32) <==> (name == "accent1"@),
        scheme_color_spec(name) == Some(0xA5A5A5u32) <==> (name == "accent6"@),
        scheme_color_spec(name) == Some(0xE7E6E6u32) <==> (name == "bg2"@ || name == "lt2"@),
        scheme_color_spec(name) == Some(0xED7D31u32) <==> (name == "accent3"@),
        scheme_color_spec(name) == Some(0xFFC000u32) <==> (name == "accent4"@),
        scheme_color_spec(name) == Some(0xFFFFFFu32) <==> (name == "bg1"@ || name == "lt1"@),
{
    reveal_strlit("accent1");
    reveal_strlit("accent2");
    reveal_strlit("accent3");
    reveal_strlit("accent4");
    reveal_strlit("accent5");
    reveal_strlit("accent6");
    reveal_strlit("bg1");
    reveal_strlit("bg2");
    reveal_strlit("dk1");
    reveal_strlit("dk2");
    reveal_strlit("lt1");
    reveal_strlit("lt2");
    reveal_strlit("tx1");
    reveal_strlit("tx2");
    assert("accent1"@[6] != "accent2"@[6]);
    assert("accent1"@[6] != "accent3"@[6]);
    assert("accent1"@[6] != "accent4"@[6]);
    assert("accent1"@[6] != "accent5"@[6]);
    assert("accent1"@[6] != "accent6"@[6]);
    assert("accent1"@.len() != "bg1"@.len());
    assert("accent1"@.len() != "bg2"@.len());
    assert("accent1"@.len() != "dk1"@.len());
    assert("accent1"@.len() != "dk2"@.len());
    assert("accent1"@.len() != "lt1"@.len());
    assert("accent1"@.len() != "lt2"@.len());
    assert("accent1"@.len() != "tx1"@.len());
    assert("accent1"@.len() != "tx2"@.len());
    assert("accent2"@[6] != "accent3"@[6]);
    assert("accent2"@[6] != "accent4"@[6]);
    assert("accent2"@[6] != "accent5"@[6]);
    assert("accent2"@[6] != "accent6"@[6]);
    assert("accent2"@.len() != "bg1"@.len());
    assert("accent2"@.len() != "bg2"@.len());
    assert("accent2"@.len() != "dk1"@.len());
    assert("accent2"@.len() != "dk2"@.len());
    assert("accent2"@.len() != "lt1"@.len());
    assert("accent2"@.len() != "lt2"@.len());
    assert("accent2"@.len() != "tx1"@.len());
    assert("accent2"@.len() != "tx2"@.len());
    assert("accent3"@[6] != "accent4"@[6]);
    assert("accent3"@[6] != "accent5"@[6]);
    assert("accent3"@[6] != "accent6"@[6]);
    assert("accent3"@.len() != "bg1"@.len());
    assert("accent3"@.len() != "bg2"@.len());
    assert("accent3"@.len() != "dk1"@.len());
    assert("accent3"@.len() != "dk2"@.len());
    assert("accent3"@.len() != "lt1"@.len());
    assert("accent3"@.len() != "lt2"@.len());
    assert("accent3"@.len() != "tx1"@.len());
    assert("accent3"@.len() != "tx2"@.len());
    assert("accent4"@[6] != "accent5"@[6]);
    assert("accent4"@[6] != "accent6"@[6]);
    assert("accent4"@.len() != "bg1"@.len());
    assert("accent4"@.len() != "bg2"@.len());
    assert("accent4"@.len() != "dk1"@.len());
    assert("accent4"@.len() != "dk2"@.len());
    assert("accent4"@.len() != "lt1"@.len());
    assert("accent4"@.len() != "lt2"@.len());
    assert("accent4"@.len() != "tx1"@.len());
    assert("accent4"@.len() != "tx2"@.len());
    assert("accent5"@[6] != "accent6"@[6]);
    assert("accent5"@.len() != "bg1"@.len());
    assert("accent5"@.len() != "bg2"@.len());
    assert("accent5"@.len() != "dk1"@.len());
    assert("accent5"@.len() != "dk2"@.len());
    assert("accent5"@.len() != "lt1"@.len());
    assert("accent5"@.len() != "lt2"@.len());
    assert("accent5"@.len() != "tx1"@.len());
    assert("accent5"@.len() != "tx2"@.len());
    assert("accent6"@.len() != "bg1"@.len());
    assert("accent6"@.len() != "bg2"@.len());
    assert("accent6"@.len() != "dk1"@.len());
    assert("accent6"@.len() != "dk2"@.len());
    assert("accent6"@.len() != "lt1"@.len());
    assert("accent6"@.len() != "lt2"@.len());
    assert("accent6"@.len() != "tx1"@.len());
    assert("accent6"@.len() != "tx2"@.len());
    assert("bg1"@[2] != "bg2"@[2]);
    assert("bg1"@[0] != "dk1"@[0]);
    assert("bg1"@[0] != "dk2"@[0]);
    assert("bg1"@[0] != "lt1"@[0]);
    assert("bg1"@[0] != "lt2"@[0]);
    assert("bg1"@[0] != "tx1"@[0]);
    assert("bg1"@[0] != "tx2"@[0]);
    assert("bg2"@[0] != "dk1"@[0]);
    assert("bg2"@[0] != "dk2"@[0]);
    assert("bg2"@[0] != "lt1"@[0]);
    assert("bg2"@[0] != "lt2"@[0]);
    assert("bg2"@[0] != "tx1"@[0]);
    assert("bg2"@[0] != "tx2"@[0]);
    assert("dk1"@[2] != "dk2"@[2]);
    assert("dk1"@[0] != "lt1"@[0]);
    assert("dk1"@[0] != "lt2"@[0]);
    assert("dk1"@[0] != "tx1"@[0]);
    assert("dk1"@[0] != "tx2"@[0]);
    assert("dk2"@[0] != "lt1"@[0]);
    assert("dk2"@[0] != "lt2"@[0]);
    assert("dk2"@[0] != "tx1"@[0]);
    assert("dk2"@[0] != "tx2"@[0]);
    assert("lt1"@[2] != "lt2"@[2]);
    assert("lt1"@[0] != "tx1"@[0]);
    assert("lt1"@[0] != "tx2"@[0]);
    assert("lt2"@[0] != "tx1"@[0]);
    assert("lt2"@[0] != "tx2"@[0]);
    assert("tx1"@[2] != "tx2"@[2]);
}

} // verus!
