//! The chart model: the chart's kind, title, series and categories, and the
//! settings of its plots, axes, legend and labels. A number that the XML
//! gives as a real value is kept as its text: the field holds every
//! candidate text in the order the XML gives them, and the value is the
//! first that reads as a finite number.

use super::{
    AxisCrossBetween, AxisCrosses, AxisDisplayUnit, AxisLabelAlignment, AxisLabelPosition,
    AxisOrientation, AxisPosition, AxisTickMark, BarGrouping, ChartDataLabelPosition,
    ChartDisplayBlanksAs, ChartErrorBarDirection, ChartErrorBarType, ChartErrorBarValueType,
    ChartLegendPosition, ChartMarkerSymbol, ChartTrendlineType, OfPieType, OoxmlChartType,
    ScatterStyle,
};
use vstd::prelude::*;

verus! {

/// Texts as sequences of characters.
pub open spec fn texts_view(v: Seq<String>) -> Seq<Seq<char>> {
    v.map_values(|s: String| s@)
}

/// An optional text as an optional sequence of characters.
pub open spec fn opt_text(o: Option<String>) -> Option<Seq<char>> {
    match o {
        Some(s) => Some(s@),
        None => None,
    }
}

/// 데이터 시리즈 (막대 한 묶음 또는 선 하나)
#[derive(Debug, Clone, Default)]
pub struct OoxmlSeries {
    pub name: String,
    /// The texts of the series' values, in order (a text that does not read
    /// as a number stands for 0).
    pub values: Vec<String>,
    /// RGB 색상 (`0xRRGGBB`), 파서가 확정 못하면 None (렌더러가 기본 팔레트 적용)
    pub color: Option<u32>,
    /// 시리즈 선 색상 (`c:ser/c:spPr/a:ln/a:solidFill/a:srgbClr`, RGB).
    pub line_color: Option<u32>,
    /// 시리즈 선 두께 (`c:ser/c:spPr/a:ln@w`, EMU).
    pub line_width: Option<u32>,
    /// 시리즈 본인의 차트 타입 (콤보 차트에서 바/라인 구분용)
    pub series_type: OoxmlChartType,
    /// 이 시리즈가 속한 플롯의 c:axId 값 목록
    pub axis_ids: Vec<String>,
    /// 0 = 기본축(왼쪽/아래), 1 = 보조축(오른쪽/위)
    pub axis_group: u8,
    /// 숫자 포맷 코드 (예: "#,##0")
    pub format_code: Option<String>,
}

/// A series as plain values.
pub struct SeriesView {
    pub name: Seq<char>,
    pub values: Seq<Seq<char>>,
    pub color: Option<u32>,
    pub line_color: Option<u32>,
    pub line_width: Option<u32>,
    pub series_type: OoxmlChartType,
    pub axis_ids: Seq<Seq<char>>,
    pub axis_group: u8,
    pub format_code: Option<Seq<char>>,
}

impl View for OoxmlSeries {
    type V = SeriesView;

    open spec fn view(&self) -> SeriesView {
        SeriesView {
            name: self.name@,
            values: texts_view(self.values@),
            color: self.color,
            line_color: self.line_color,
            line_width: self.line_width,
            series_type: self.series_type,
            axis_ids: texts_view(self.axis_ids@),
            axis_group: self.axis_group,
            format_code: opt_text(self.format_code),
        }
    }
}

/// A new series of kind `t`, with nothing read yet.
pub open spec fn fresh_series(t: OoxmlChartType) -> SeriesView {
    SeriesView {
        name: Seq::empty(),
        values: Seq::empty(),
        color: None,
        line_color: None,
        line_width: None,
        series_type: t,
        axis_ids: Seq::empty(),
        axis_group: 0,
        format_code: None,
    }
}

/// A new series of kind `t`.
pub fn new_series(t: OoxmlChartType) -> (r: OoxmlSeries)
    ensures
        r@ == fresh_series(t),
{
    let r = OoxmlSeries {
        name: String::new(),
        values: Vec::new(),
        color: None,
        line_color: None,
        line_width: None,
        series_type: t,
        axis_ids: Vec::new(),
        axis_group: 0,
        format_code: None,
    };
    assert(texts_view(r.values@) =~= Seq::<Seq<char>>::empty());
    assert(texts_view(r.axis_ids@) =~= Seq::<Seq<char>>::empty());
    r
}

/// OOXML 차트 데이터 모델
#[derive(Debug, Clone, Default)]
pub struct OoxmlChart {
    /// 주 차트 타입 (콤보인 경우 첫 번째 plotType이 들어감; 렌더러는 시리즈별 타입 우선)
    pub chart_type: OoxmlChartType,
    pub title: Option<String>,
    pub series: Vec<OoxmlSeries>,
    pub categories: Vec<String>,
    /// 시리즈 중 하나라도 보조축을 쓰면 true
    pub has_secondary_axis: bool,
    /// 막대(bar/bar3D) 또는 라인(line) plot의 `c:grouping`
    /// (clustered/standard/stacked/percentStacked).
    pub grouping: BarGrouping,
    /// 막대 차트 항목 간 간격 (`c:barChart/c:gapWidth`, 보통 0..500).
    pub bar_gap_width: Option<u32>,
    /// 막대 차트 시리즈 겹침 (`c:barChart/c:overlap`, 보통 -100..100).
    pub bar_overlap: Option<i32>,
    /// 3D 막대 차트 깊이 간격 (`c:bar3DChart/c:gapDepth`, 보통 0..500).
    pub bar_3d_gap_depth: Option<u32>,
    /// 3D 막대 차트 모양 (`c:bar3DChart/c:shape`; box/cone/cylinder/pyramid 등).
    pub bar_3d_shape: Option<String>,
    /// 라인 차트 곡선 보간 여부 (`c:lineChart/c:ser/c:smooth` 또는 chart-level `c:smooth`).
    pub line_smooth: Option<bool>,
    /// 라인 차트 표식 표시 여부 (`c:lineChart/c:marker`).
    pub line_marker_visible: Option<bool>,
    /// 라인 차트 표식 크기 (`c:lineChart/c:ser/c:marker/c:size`, 보통 2..72).
    pub line_marker_size: Option<u32>,
    /// 라인 차트 표식 모양 (`c:lineChart/c:ser/c:marker/c:symbol`).
    pub line_marker_symbol: Option<ChartMarkerSymbol>,
    /// 라인 차트 표식 채움 색상 (`c:lineChart/c:ser/c:marker/c:spPr/a:solidFill`, RGB).
    pub line_marker_fill_color: Option<u32>,
    /// 라인 차트 표식 선 색상 (`c:lineChart/c:ser/c:marker/c:spPr/a:ln/...`, RGB).
    pub line_marker_line_color: Option<u32>,
    /// 라인 차트 표식 선 두께 (`c:lineChart/c:ser/c:marker/c:spPr/a:ln@w`, EMU).
    pub line_marker_line_width: Option<u32>,
    /// 원형 차트 첫 조각 시작 각도 (`c:pieChart/c:firstSliceAng`, 0..360).
    pub pie_first_slice_angle: Option<u16>,
    /// 원형 차트 조각 분리 정도 (`c:pieChart/c:ser/c:explosion`, 0..400).
    pub pie_explosion: Option<u32>,
    /// 원본 plot이 원형대원형/원형대막대 차트인지 여부 (`c:ofPieChart`).
    pub has_of_pie_chart: bool,
    /// 원본 plot이 도넛 차트인지 여부 (`c:doughnutChart`).
    pub has_doughnut_chart: bool,
    /// 도넛 차트 구멍 크기 (`c:doughnutChart/c:holeSize`, 보통 10..90).
    pub doughnut_hole_size: Option<u32>,
    /// 원형대원형/원형대막대 보조 플롯 타입 (`c:ofPieChart/c:ofPieType`).
    pub pie_of_pie_type: Option<OfPieType>,
    /// 원형대원형/원형대막대 간격 (`c:ofPieChart/c:gapWidth`, 보통 0..500).
    pub pie_of_pie_gap_width: Option<u32>,
    /// 원형대원형/원형대막대 보조 플롯 크기 (`c:ofPieChart/c:secondPieSize`, 보통 5..200).
    pub pie_of_pie_second_size: Option<u32>,
    /// 원형대원형/원형대막대 연결선 색상 (`c:ofPieChart/c:serLines/c:spPr/a:ln/...`, RGB).
    pub pie_of_pie_ser_line_color: Option<u32>,
    /// 원형대원형/원형대막대 연결선 두께 (`c:ofPieChart/c:serLines/c:spPr/a:ln@w`, EMU).
    pub pie_of_pie_ser_line_width: Option<u32>,
    /// 분산형 차트 스타일 (`c:scatterChart/c:scatterStyle`).
    pub scatter_style: Option<ScatterStyle>,
    /// 분산형 차트 곡선 보간 여부 (`c:scatterChart/c:ser/c:smooth`).
    pub scatter_smooth: Option<bool>,
    /// 분산형 차트 표식 크기 (`c:scatterChart/c:ser/c:marker/c:size`, 보통 2..72).
    pub scatter_marker_size: Option<u32>,
    /// 분산형 차트 표식 모양 (`c:scatterChart/c:ser/c:marker/c:symbol`).
    pub scatter_marker_symbol: Option<ChartMarkerSymbol>,
    /// 분산형 차트 표식 채움 색상 (`c:scatterChart/c:ser/c:marker/c:spPr/a:solidFill`, RGB).
    pub scatter_marker_fill_color: Option<u32>,
    /// 분산형 차트 표식 선 색상 (`c:scatterChart/c:ser/c:marker/c:spPr/a:ln/...`, RGB).
    pub scatter_marker_line_color: Option<u32>,
    /// 분산형 차트 표식 선 두께 (`c:scatterChart/c:ser/c:marker/c:spPr/a:ln@w`, EMU).
    pub scatter_marker_line_width: Option<u32>,
    /// 시리즈 추세선 종류 (`c:ser/c:trendline/c:trendlineType`).
    pub trendline_type: Option<ChartTrendlineType>,
    /// 다항식 추세선 차수 (`c:ser/c:trendline/c:order`, 보통 2..6).
    pub trendline_order: Option<u32>,
    /// 이동 평균 추세선 기간 (`c:ser/c:trendline/c:period`, 보통 2..255).
    pub trendline_period: Option<u32>,
    /// 시리즈 추세선 수식 표시 여부 (`c:ser/c:trendline/c:dispEq`).
    pub trendline_display_equation: Option<bool>,
    /// 시리즈 추세선 R 제곱값 표시 여부 (`c:ser/c:trendline/c:dispRSqr`).
    pub trendline_display_r_squared: Option<bool>,
    /// 시리즈 추세선 선 색상 (`c:ser/c:trendline/c:spPr/a:ln/a:solidFill/a:srgbClr`, RGB).
    pub trendline_line_color: Option<u32>,
    /// 시리즈 추세선 선 두께 (`c:ser/c:trendline/c:spPr/a:ln@w`, EMU).
    pub trendline_line_width: Option<u32>,
    /// 오차 막대 방향 (`c:ser/c:errBars/c:errDir`).
    pub error_bar_direction: Option<ChartErrorBarDirection>,
    /// 오차 막대 표시 유형 (`c:ser/c:errBars/c:errBarType`).
    pub error_bar_type: Option<ChartErrorBarType>,
    /// 오차 막대 값 유형 (`c:ser/c:errBars/c:errValType`).
    pub error_bar_value_type: Option<ChartErrorBarValueType>,
    /// 오차 막대 값 (`c:ser/c:errBars/c:val`).
    /// (The candidate texts of this number, in order.)
    pub error_bar_value: Vec<String>,
    /// 오차 막대 end cap 숨김 여부 (`c:ser/c:errBars/c:noEndCap`).
    pub error_bar_no_end_cap: Option<bool>,
    /// 오차 막대 선 색상 (`c:ser/c:errBars/c:spPr/a:ln/a:solidFill/a:srgbClr`, RGB).
    pub error_bar_line_color: Option<u32>,
    /// 오차 막대 선 두께 (`c:ser/c:errBars/c:spPr/a:ln@w`, EMU).
    pub error_bar_line_width: Option<u32>,
    /// 주식형 차트 up/down bar gap width (`c:upDownBars/c:gapWidth`, 보통 0..500).
    pub stock_up_down_bar_gap_width: Option<u32>,
    /// 주식형 상승 bar 채움 색상 (`c:upBars/c:spPr/a:solidFill/a:srgbClr`, RGB).
    pub stock_up_bar_fill_color: Option<u32>,
    /// 주식형 하락 bar 채움 색상 (`c:downBars/c:spPr/a:solidFill/a:srgbClr`, RGB).
    pub stock_down_bar_fill_color: Option<u32>,
    /// 주식형 상승 bar 선 색상 (`c:upBars/c:spPr/a:ln/a:solidFill/a:srgbClr`, RGB).
    pub stock_up_bar_line_color: Option<u32>,
    /// 주식형 하락 bar 선 색상 (`c:downBars/c:spPr/a:ln/a:solidFill/a:srgbClr`, RGB).
    pub stock_down_bar_line_color: Option<u32>,
    /// 주식형 상승 bar 선 두께 (`c:upBars/c:spPr/a:ln@w`, EMU).
    pub stock_up_bar_line_width: Option<u32>,
    /// 주식형 하락 bar 선 두께 (`c:downBars/c:spPr/a:ln@w`, EMU).
    pub stock_down_bar_line_width: Option<u32>,
    /// 주식형 high-low line 색상 (`c:hiLowLines/c:spPr/a:ln/a:solidFill/a:srgbClr`, RGB).
    pub stock_hi_low_line_color: Option<u32>,
    /// 주식형 high-low line 두께 (`c:hiLowLines/c:spPr/a:ln@w`, EMU).
    pub stock_hi_low_line_width: Option<u32>,
    /// 데이터 레이블 위치 (`c:dLbls/c:dLblPos`).
    pub data_label_position: Option<ChartDataLabelPosition>,
    /// 데이터 레이블 값 표시 여부 (`c:dLbls/c:showVal`).
    pub data_labels_show_value: Option<bool>,
    /// 데이터 레이블 카테고리명 표시 여부 (`c:dLbls/c:showCatName`).
    pub data_labels_show_category_name: Option<bool>,
    /// 데이터 레이블 시리즈명 표시 여부 (`c:dLbls/c:showSerName`).
    pub data_labels_show_series_name: Option<bool>,
    /// 데이터 레이블 백분율 표시 여부 (`c:dLbls/c:showPercent`).
    pub data_labels_show_percent: Option<bool>,
    /// 데이터 레이블 범례 키 표시 여부 (`c:dLbls/c:showLegendKey`).
    pub data_labels_show_legend_key: Option<bool>,
    /// 차트 제목이 플롯 영역 위에 겹쳐 표시되는지 여부 (`c:title/c:overlay`).
    pub title_overlay: Option<bool>,
    /// 차트가 1904 날짜 시스템을 사용하는지 여부 (`c:chartSpace/c:date1904`).
    pub date_1904: Option<bool>,
    /// 차트 스타일 번호 (`c:chartSpace/c:style`; c14 AlternateContent 값은 보통 +100).
    pub chart_style: Option<u32>,
    /// 차트 영역 채움 색상 (`c:chartSpace/c:spPr/a:solidFill/a:srgbClr`, RGB).
    pub chart_area_fill_color: Option<u32>,
    /// 플롯 영역 채움 색상 (`c:plotArea/c:spPr/a:solidFill/a:srgbClr`, RGB).
    pub plot_area_fill_color: Option<u32>,
    /// 차트 영역 모서리를 둥글게 표시하는지 여부 (`c:chartSpace/c:roundedCorners`).
    pub rounded_corners: Option<bool>,
    /// 자동 생성된 차트 제목이 삭제되었는지 여부 (`c:chart/c:autoTitleDeleted`).
    pub auto_title_deleted: Option<bool>,
    /// 같은 plot의 데이터 요소별 색상을 다르게 적용하는지 여부 (`c:*Chart/c:varyColors`).
    pub vary_colors: Option<bool>,
    /// 3D 차트 X축 회전 각도 (`c:view3D/c:rotX`).
    pub view_3d_rotation_x: Option<i32>,
    /// 3D 차트 Y축 회전 각도 (`c:view3D/c:rotY`).
    pub view_3d_rotation_y: Option<i32>,
    /// 3D 차트 원근 값 (`c:view3D/c:perspective`).
    pub view_3d_perspective: Option<u32>,
    /// 3D 차트 직각축 사용 여부 (`c:view3D/c:rAngAx`).
    pub view_3d_right_angle_axes: Option<bool>,
    /// 3D 차트 높이 비율 (`c:view3D/c:hPercent`).
    pub view_3d_height_percent: Option<u32>,
    /// 3D 차트 깊이 비율 (`c:view3D/c:depthPercent`).
    pub view_3d_depth_percent: Option<u32>,
    /// 빈 데이터 표시 방식 (`c:dispBlanksAs`).
    pub display_blanks_as: Option<ChartDisplayBlanksAs>,
    /// 숨겨진 행/열 데이터를 차트에 표시할지 여부 (`c:showHiddenData`).
    pub show_hidden_data: Option<bool>,
    /// 표시된 셀만 차트에 그릴지 여부 (`c:plotVisOnly`).
    pub plot_visible_only: Option<bool>,
    /// 차트 데이터 테이블 가로 테두리 표시 여부 (`c:plotArea/c:dTable/c:showHorzBorder`).
    pub data_table_show_horizontal_border: Option<bool>,
    /// 차트 데이터 테이블 세로 테두리 표시 여부 (`c:plotArea/c:dTable/c:showVertBorder`).
    pub data_table_show_vertical_border: Option<bool>,
    /// 차트 데이터 테이블 외곽선 표시 여부 (`c:plotArea/c:dTable/c:showOutline`).
    pub data_table_show_outline: Option<bool>,
    /// 차트 데이터 테이블 범례 키 표시 여부 (`c:plotArea/c:dTable/c:showKeys`).
    pub data_table_show_keys: Option<bool>,
    /// 범례 위치 (`c:legend/c:legendPos`).
    pub legend_position: Option<ChartLegendPosition>,
    /// 범례가 플롯 영역 위에 겹쳐 표시되는지 여부 (`c:legend/c:overlay`).
    pub legend_overlay: Option<bool>,
    /// 카테고리 축 표시 여부 (`c:catAx/c:delete`, `val="1"`이면 숨김).
    pub category_axis_visible: Option<bool>,
    /// 값 축 표시 여부 (`c:valAx/c:delete`, `val="1"`이면 숨김).
    pub value_axis_visible: Option<bool>,
    /// 카테고리 축 제목 (`c:catAx/c:title`).
    pub category_axis_title: Option<String>,
    /// 값 축 제목 (`c:valAx/c:title`).
    pub value_axis_title: Option<String>,
    /// 카테고리 축 위치 (`c:catAx/c:axPos`).
    pub category_axis_position: Option<AxisPosition>,
    /// 값 축 위치 (`c:valAx/c:axPos`).
    pub value_axis_position: Option<AxisPosition>,
    /// 카테고리 축 눈금 라벨 위치 (`c:catAx/c:tickLblPos`).
    pub category_axis_label_position: Option<AxisLabelPosition>,
    /// 값 축 눈금 라벨 위치 (`c:valAx/c:tickLblPos`).
    pub value_axis_label_position: Option<AxisLabelPosition>,
    /// 카테고리 축 자동 설정 여부 (`c:catAx/c:auto`).
    pub category_axis_auto: Option<bool>,
    /// 카테고리 축 라벨 정렬 (`c:catAx/c:lblAlgn`).
    pub category_axis_label_alignment: Option<AxisLabelAlignment>,
    /// 카테고리 축 라벨 offset (`c:catAx/c:lblOffset`).
    pub category_axis_label_offset: Option<u32>,
    /// 카테고리 축 tick mark skip (`c:catAx/c:tickMarkSkip`).
    pub category_axis_tick_mark_skip: Option<u32>,
    /// 카테고리 축 다중 레벨 라벨 비활성 여부 (`c:catAx/c:noMultiLvlLbl`).
    pub category_axis_no_multi_level_labels: Option<bool>,
    /// 카테고리 축 값 방향 (`c:catAx/c:scaling/c:orientation`).
    pub category_axis_orientation: Option<AxisOrientation>,
    /// 값 축 값 방향 (`c:valAx/c:scaling/c:orientation`).
    pub value_axis_orientation: Option<AxisOrientation>,
    /// 카테고리 축 교차 위치 (`c:catAx/c:crosses`).
    pub category_axis_crosses: Option<AxisCrosses>,
    /// 카테고리 축 수치 교차값 (`c:catAx/c:crossesAt`).
    /// (The candidate texts of this number, in order.)
    pub category_axis_crosses_at: Vec<String>,
    /// 값 축 교차 위치 (`c:valAx/c:crosses`).
    pub value_axis_crosses: Option<AxisCrosses>,
    /// 값 축 수치 교차값 (`c:valAx/c:crossesAt`).
    /// (The candidate texts of this number, in order.)
    pub value_axis_crosses_at: Vec<String>,
    /// 값 축 막대/카테고리 교차 위치 (`c:valAx/c:crossBetween`).
    pub value_axis_cross_between: Option<AxisCrossBetween>,
    /// 카테고리 축 주 눈금 표시 방식 (`c:catAx/c:majorTickMark`).
    pub category_axis_major_tick_mark: Option<AxisTickMark>,
    /// 카테고리 축 보조 눈금 표시 방식 (`c:catAx/c:minorTickMark`).
    pub category_axis_minor_tick_mark: Option<AxisTickMark>,
    /// 카테고리 축 선 색상 (`c:catAx/c:spPr/a:ln/a:solidFill/a:srgbClr`, RGB).
    pub category_axis_line_color: Option<u32>,
    /// 카테고리 축 선 두께 (`c:catAx/c:spPr/a:ln@w`, EMU).
    pub category_axis_line_width: Option<u32>,
    /// 카테고리 축 주 gridline 선 색상 (`c:catAx/c:majorGridlines/c:spPr/a:ln/...`, RGB).
    pub category_axis_major_grid_line_color: Option<u32>,
    /// 카테고리 축 주 gridline 선 두께 (`c:catAx/c:majorGridlines/c:spPr/a:ln@w`, EMU).
    pub category_axis_major_grid_line_width: Option<u32>,
    /// 카테고리 축 보조 gridline 선 색상 (`c:catAx/c:minorGridlines/c:spPr/a:ln/...`, RGB).
    pub category_axis_minor_grid_line_color: Option<u32>,
    /// 카테고리 축 보조 gridline 선 두께 (`c:catAx/c:minorGridlines/c:spPr/a:ln@w`, EMU).
    pub category_axis_minor_grid_line_width: Option<u32>,
    /// 값 축 주 눈금 표시 방식 (`c:valAx/c:majorTickMark`).
    pub value_axis_major_tick_mark: Option<AxisTickMark>,
    /// 값 축 보조 눈금 표시 방식 (`c:valAx/c:minorTickMark`).
    pub value_axis_minor_tick_mark: Option<AxisTickMark>,
    /// 값 축 선 색상 (`c:valAx/c:spPr/a:ln/a:solidFill/a:srgbClr`, RGB).
    pub value_axis_line_color: Option<u32>,
    /// 값 축 선 두께 (`c:valAx/c:spPr/a:ln@w`, EMU).
    pub value_axis_line_width: Option<u32>,
    /// 값 축 주 gridline 선 색상 (`c:valAx/c:majorGridlines/c:spPr/a:ln/...`, RGB).
    pub value_axis_major_grid_line_color: Option<u32>,
    /// 값 축 주 gridline 선 두께 (`c:valAx/c:majorGridlines/c:spPr/a:ln@w`, EMU).
    pub value_axis_major_grid_line_width: Option<u32>,
    /// 값 축 보조 gridline 선 색상 (`c:valAx/c:minorGridlines/c:spPr/a:ln/...`, RGB).
    pub value_axis_minor_grid_line_color: Option<u32>,
    /// 값 축 보조 gridline 선 두께 (`c:valAx/c:minorGridlines/c:spPr/a:ln@w`, EMU).
    pub value_axis_minor_grid_line_width: Option<u32>,
    /// 값 축 로그 눈금 밑 (`c:valAx/c:scaling/c:logBase`).
    /// (The candidate texts of this number, in order.)
    pub value_axis_log_base: Vec<String>,
    /// 값 축 표시 단위 (`c:valAx/c:dispUnits/c:builtInUnit`).
    pub value_axis_display_unit: Option<AxisDisplayUnit>,
    /// 값 축 최소값 (`c:valAx/c:scaling/c:min`).
    /// (The candidate texts of this number, in order.)
    pub value_axis_minimum: Vec<String>,
    /// 값 축 최대값 (`c:valAx/c:scaling/c:max`).
    /// (The candidate texts of this number, in order.)
    pub value_axis_maximum: Vec<String>,
    /// 값 축 주 눈금 단위 (`c:valAx/c:majorUnit`).
    /// (The candidate texts of this number, in order.)
    pub value_axis_major_unit: Vec<String>,
    /// 값 축 보조 눈금 단위 (`c:valAx/c:minorUnit`).
    /// (The candidate texts of this number, in order.)
    pub value_axis_minor_unit: Vec<String>,
    /// 카테고리 축 숫자/날짜 표시 형식 (`c:catAx/c:numFmt/@formatCode`).
    pub category_axis_number_format: Option<String>,
    /// 카테고리 축 숫자/날짜 표시 형식의 원본 연결 여부 (`c:catAx/c:numFmt/@sourceLinked`).
    pub category_axis_number_format_source_linked: Option<bool>,
    /// 값 축 숫자 표시 형식 (`c:valAx/c:numFmt/@formatCode`).
    pub value_axis_number_format: Option<String>,
    /// 값 축 숫자 표시 형식의 원본 연결 여부 (`c:valAx/c:numFmt/@sourceLinked`).
    pub value_axis_number_format_source_linked: Option<bool>,
}

/// A chart as plain values.
pub struct ChartView {
    pub chart_type: OoxmlChartType,
    pub title: Option<Seq<char>>,
    pub series: Seq<SeriesView>,
    pub categories: Seq<Seq<char>>,
    pub has_secondary_axis: bool,
    pub grouping: BarGrouping,
    pub bar_gap_width: Option<u32>,
    pub bar_overlap: Option<i32>,
    pub bar_3d_gap_depth: Option<u32>,
    pub bar_3d_shape: Option<Seq<char>>,
    pub line_smooth: Option<bool>,
    pub line_marker_visible: Option<bool>,
    pub line_marker_size: Option<u32>,
    pub line_marker_symbol: Option<ChartMarkerSymbol>,
    pub line_marker_fill_color: Option<u32>,
    pub line_marker_line_color: Option<u32>,
    pub line_marker_line_width: Option<u32>,
    pub pie_first_slice_angle: Option<u16>,
    pub pie_explosion: Option<u32>,
    pub has_of_pie_chart: bool,
    pub has_doughnut_chart: bool,
    pub doughnut_hole_size: Option<u32>,
    pub pie_of_pie_type: Option<OfPieType>,
    pub pie_of_pie_gap_width: Option<u32>,
    pub pie_of_pie_second_size: Option<u32>,
    pub pie_of_pie_ser_line_color: Option<u32>,
    pub pie_of_pie_ser_line_width: Option<u32>,
    pub scatter_style: Option<ScatterStyle>,
    pub scatter_smooth: Option<bool>,
    pub scatter_marker_size: Option<u32>,
    pub scatter_marker_symbol: Option<ChartMarkerSymbol>,
    pub scatter_marker_fill_color: Option<u32>,
    pub scatter_marker_line_color: Option<u32>,
    pub scatter_marker_line_width: Option<u32>,
    pub trendline_type: Option<ChartTrendlineType>,
    pub trendline_order: Option<u32>,
    pub trendline_period: Option<u32>,
    pub trendline_display_equation: Option<bool>,
    pub trendline_display_r_squared: Option<bool>,
    pub trendline_line_color: Option<u32>,
    pub trendline_line_width: Option<u32>,
    pub error_bar_direction: Option<ChartErrorBarDirection>,
    pub error_bar_type: Option<ChartErrorBarType>,
    pub error_bar_value_type: Option<ChartErrorBarValueType>,
    pub error_bar_value: Seq<Seq<char>>,
    pub error_bar_no_end_cap: Option<bool>,
    pub error_bar_line_color: Option<u32>,
    pub error_bar_line_width: Option<u32>,
    pub stock_up_down_bar_gap_width: Option<u32>,
    pub stock_up_bar_fill_color: Option<u32>,
    pub stock_down_bar_fill_color: Option<u32>,
    pub stock_up_bar_line_color: Option<u32>,
    pub stock_down_bar_line_color: Option<u32>,
    pub stock_up_bar_line_width: Option<u32>,
    pub stock_down_bar_line_width: Option<u32>,
    pub stock_hi_low_line_color: Option<u32>,
    pub stock_hi_low_line_width: Option<u32>,
    pub data_label_position: Option<ChartDataLabelPosition>,
    pub data_labels_show_value: Option<bool>,
    pub data_labels_show_category_name: Option<bool>,
    pub data_labels_show_series_name: Option<bool>,
    pub data_labels_show_percent: Option<bool>,
    pub data_labels_show_legend_key: Option<bool>,
    pub title_overlay: Option<bool>,
    pub date_1904: Option<bool>,
    pub chart_style: Option<u32>,
    pub chart_area_fill_color: Option<u32>,
    pub plot_area_fill_color: Option<u32>,
    pub rounded_corners: Option<bool>,
    pub auto_title_deleted: Option<bool>,
    pub vary_colors: Option<bool>,
    pub view_3d_rotation_x: Option<i32>,
    pub view_3d_rotation_y: Option<i32>,
    pub view_3d_perspective: Option<u32>,
    pub view_3d_right_angle_axes: Option<bool>,
    pub view_3d_height_percent: Option<u32>,
    pub view_3d_depth_percent: Option<u32>,
    pub display_blanks_as: Option<ChartDisplayBlanksAs>,
    pub show_hidden_data: Option<bool>,
    pub plot_visible_only: Option<bool>,
    pub data_table_show_horizontal_border: Option<bool>,
    pub data_table_show_vertical_border: Option<bool>,
    pub data_table_show_outline: Option<bool>,
    pub data_table_show_keys: Option<bool>,
    pub legend_position: Option<ChartLegendPosition>,
    pub legend_overlay: Option<bool>,
    pub category_axis_visible: Option<bool>,
    pub value_axis_visible: Option<bool>,
    pub category_axis_title: Option<Seq<char>>,
    pub value_axis_title: Option<Seq<char>>,
    pub category_axis_position: Option<AxisPosition>,
    pub value_axis_position: Option<AxisPosition>,
    pub category_axis_label_position: Option<AxisLabelPosition>,
    pub value_axis_label_position: Option<AxisLabelPosition>,
    pub category_axis_auto: Option<bool>,
    pub category_axis_label_alignment: Option<AxisLabelAlignment>,
    pub category_axis_label_offset: Option<u32>,
    pub category_axis_tick_mark_skip: Option<u32>,
    pub category_axis_no_multi_level_labels: Option<bool>,
    pub category_axis_orientation: Option<AxisOrientation>,
    pub value_axis_orientation: Option<AxisOrientation>,
    pub category_axis_crosses: Option<AxisCrosses>,
    pub category_axis_crosses_at: Seq<Seq<char>>,
    pub value_axis_crosses: Option<AxisCrosses>,
    pub value_axis_crosses_at: Seq<Seq<char>>,
    pub value_axis_cross_between: Option<AxisCrossBetween>,
    pub category_axis_major_tick_mark: Option<AxisTickMark>,
    pub category_axis_minor_tick_mark: Option<AxisTickMark>,
    pub category_axis_line_color: Option<u32>,
    pub category_axis_line_width: Option<u32>,
    pub category_axis_major_grid_line_color: Option<u32>,
    pub category_axis_major_grid_line_width: Option<u32>,
    pub category_axis_minor_grid_line_color: Option<u32>,
    pub category_axis_minor_grid_line_width: Option<u32>,
    pub value_axis_major_tick_mark: Option<AxisTickMark>,
    pub value_axis_minor_tick_mark: Option<AxisTickMark>,
    pub value_axis_line_color: Option<u32>,
    pub value_axis_line_width: Option<u32>,
    pub value_axis_major_grid_line_color: Option<u32>,
    pub value_axis_major_grid_line_width: Option<u32>,
    pub value_axis_minor_grid_line_color: Option<u32>,
    pub value_axis_minor_grid_line_width: Option<u32>,
    pub value_axis_log_base: Seq<Seq<char>>,
    pub value_axis_display_unit: Option<AxisDisplayUnit>,
    pub value_axis_minimum: Seq<Seq<char>>,
    pub value_axis_maximum: Seq<Seq<char>>,
    pub value_axis_major_unit: Seq<Seq<char>>,
    pub value_axis_minor_unit: Seq<Seq<char>>,
    pub category_axis_number_format: Option<Seq<char>>,
    pub category_axis_number_format_source_linked: Option<bool>,
    pub value_axis_number_format: Option<Seq<char>>,
    pub value_axis_number_format_source_linked: Option<bool>,
}

impl View for OoxmlChart {
    type V = ChartView;

    open spec fn view(&self) -> ChartView {
        ChartView {
            chart_type: self.chart_type,
            title: opt_text(self.title),
            series: self.series@.map_values(|s: OoxmlSeries| s@),
            categories: texts_view(self.categories@),
            has_secondary_axis: self.has_secondary_axis,
            grouping: self.grouping,
            bar_gap_width: self.bar_gap_width,
            bar_overlap: self.bar_overlap,
            bar_3d_gap_depth: self.bar_3d_gap_depth,
            bar_3d_shape: opt_text(self.bar_3d_shape),
            line_smooth: self.line_smooth,
            line_marker_visible: self.line_marker_visible,
            line_marker_size: self.line_marker_size,
            line_marker_symbol: self.line_marker_symbol,
            line_marker_fill_color: self.line_marker_fill_color,
            line_marker_line_color: self.line_marker_line_color,
            line_marker_line_width: self.line_marker_line_width,
            pie_first_slice_angle: self.pie_first_slice_angle,
            pie_explosion: self.pie_explosion,
            has_of_pie_chart: self.has_of_pie_chart,
            has_doughnut_chart: self.has_doughnut_chart,
            doughnut_hole_size: self.doughnut_hole_size,
            pie_of_pie_type: self.pie_of_pie_type,
            pie_of_pie_gap_width: self.pie_of_pie_gap_width,
            pie_of_pie_second_size: self.pie_of_pie_second_size,
            pie_of_pie_ser_line_color: self.pie_of_pie_ser_line_color,
            pie_of_pie_ser_line_width: self.pie_of_pie_ser_line_width,
            scatter_style: self.scatter_style,
            scatter_smooth: self.scatter_smooth,
            scatter_marker_size: self.scatter_marker_size,
            scatter_marker_symbol: self.scatter_marker_symbol,
            scatter_marker_fill_color: self.scatter_marker_fill_color,
            scatter_marker_line_color: self.scatter_marker_line_color,
            scatter_marker_line_width: self.scatter_marker_line_width,
            trendline_type: self.trendline_type,
            trendline_order: self.trendline_order,
            trendline_period: self.trendline_period,
            trendline_display_equation: self.trendline_display_equation,
            trendline_display_r_squared: self.trendline_display_r_squared,
            trendline_line_color: self.trendline_line_color,
            trendline_line_width: self.trendline_line_width,
            error_bar_direction: self.error_bar_direction,
            error_bar_type: self.error_bar_type,
            error_bar_value_type: self.error_bar_value_type,
            error_bar_value: texts_view(self.error_bar_value@),
            error_bar_no_end_cap: self.error_bar_no_end_cap,
            error_bar_line_color: self.error_bar_line_color,
            error_bar_line_width: self.error_bar_line_width,
            stock_up_down_bar_gap_width: self.stock_up_down_bar_gap_width,
            stock_up_bar_fill_color: self.stock_up_bar_fill_color,
            stock_down_bar_fill_color: self.stock_down_bar_fill_color,
            stock_up_bar_line_color: self.stock_up_bar_line_color,
            stock_down_bar_line_color: self.stock_down_bar_line_color,
            stock_up_bar_line_width: self.stock_up_bar_line_width,
            stock_down_bar_line_width: self.stock_down_bar_line_width,
            stock_hi_low_line_color: self.stock_hi_low_line_color,
            stock_hi_low_line_width: self.stock_hi_low_line_width,
            data_label_position: self.data_label_position,
            data_labels_show_value: self.data_labels_show_value,
            data_labels_show_category_name: self.data_labels_show_category_name,
            data_labels_show_series_name: self.data_labels_show_series_name,
            data_labels_show_percent: self.data_labels_show_percent,
            data_labels_show_legend_key: self.data_labels_show_legend_key,
            title_overlay: self.title_overlay,
            date_1904: self.date_1904,
            chart_style: self.chart_style,
            chart_area_fill_color: self.chart_area_fill_color,
            plot_area_fill_color: self.plot_area_fill_color,
            rounded_corners: self.rounded_corners,
            auto_title_deleted: self.auto_title_deleted,
            vary_colors: self.vary_colors,
            view_3d_rotation_x: self.view_3d_rotation_x,
            view_3d_rotation_y: self.view_3d_rotation_y,
            view_3d_perspective: self.view_3d_perspective,
            view_3d_right_angle_axes: self.view_3d_right_angle_axes,
            view_3d_height_percent: self.view_3d_height_percent,
            view_3d_depth_percent: self.view_3d_depth_percent,
            display_blanks_as: self.display_blanks_as,
            show_hidden_data: self.show_hidden_data,
            plot_visible_only: self.plot_visible_only,
            data_table_show_horizontal_border: self.data_table_show_horizontal_border,
            data_table_show_vertical_border: self.data_table_show_vertical_border,
            data_table_show_outline: self.data_table_show_outline,
            data_table_show_keys: self.data_table_show_keys,
            legend_position: self.legend_position,
            legend_overlay: self.legend_overlay,
            category_axis_visible: self.category_axis_visible,
            value_axis_visible: self.value_axis_visible,
            category_axis_title: opt_text(self.category_axis_title),
            value_axis_title: opt_text(self.value_axis_title),
            category_axis_position: self.category_axis_position,
            value_axis_position: self.value_axis_position,
            category_axis_label_position: self.category_axis_label_position,
            value_axis_label_position: self.value_axis_label_position,
            category_axis_auto: self.category_axis_auto,
            category_axis_label_alignment: self.category_axis_label_alignment,
            category_axis_label_offset: self.category_axis_label_offset,
            category_axis_tick_mark_skip: self.category_axis_tick_mark_skip,
            category_axis_no_multi_level_labels: self.category_axis_no_multi_level_labels,
            category_axis_orientation: self.category_axis_orientation,
            value_axis_orientation: self.value_axis_orientation,
            category_axis_crosses: self.category_axis_crosses,
            category_axis_crosses_at: texts_view(self.category_axis_crosses_at@),
            value_axis_crosses: self.value_axis_crosses,
            value_axis_crosses_at: texts_view(self.value_axis_crosses_at@),
            value_axis_cross_between: self.value_axis_cross_between,
            category_axis_major_tick_mark: self.category_axis_major_tick_mark,
            category_axis_minor_tick_mark: self.category_axis_minor_tick_mark,
            category_axis_line_color: self.category_axis_line_color,
            category_axis_line_width: self.category_axis_line_width,
            category_axis_major_grid_line_color: self.category_axis_major_grid_line_color,
            category_axis_major_grid_line_width: self.category_axis_major_grid_line_width,
            category_axis_minor_grid_line_color: self.category_axis_minor_grid_line_color,
            category_axis_minor_grid_line_width: self.category_axis_minor_grid_line_width,
            value_axis_major_tick_mark: self.value_axis_major_tick_mark,
            value_axis_minor_tick_mark: self.value_axis_minor_tick_mark,
            value_axis_line_color: self.value_axis_line_color,
            value_axis_line_width: self.value_axis_line_width,
            value_axis_major_grid_line_color: self.value_axis_major_grid_line_color,
            value_axis_major_grid_line_width: self.value_axis_major_grid_line_width,
            value_axis_minor_grid_line_color: self.value_axis_minor_grid_line_color,
            value_axis_minor_grid_line_width: self.value_axis_minor_grid_line_width,
            value_axis_log_base: texts_view(self.value_axis_log_base@),
            value_axis_display_unit: self.value_axis_display_unit,
            value_axis_minimum: texts_view(self.value_axis_minimum@),
            value_axis_maximum: texts_view(self.value_axis_maximum@),
            value_axis_major_unit: texts_view(self.value_axis_major_unit@),
            value_axis_minor_unit: texts_view(self.value_axis_minor_unit@),
            category_axis_number_format: opt_text(self.category_axis_number_format),
            category_axis_number_format_source_linked: self.category_axis_number_format_source_linked,
            value_axis_number_format: opt_text(self.value_axis_number_format),
            value_axis_number_format_source_linked: self.value_axis_number_format_source_linked,
        }
    }
}

/// A chart with nothing read yet.
pub open spec fn fresh_chart() -> ChartView {
    ChartView {
        chart_type: OoxmlChartType::Unknown,
        title: None,
        series: Seq::empty(),
        categories: Seq::empty(),
        has_secondary_axis: false,
        grouping: BarGrouping::Clustered,
        bar_gap_width: None,
        bar_overlap: None,
        bar_3d_gap_depth: None,
        bar_3d_shape: None,
        line_smooth: None,
        line_marker_visible: None,
        line_marker_size: None,
        line_marker_symbol: None,
        line_marker_fill_color: None,
        line_marker_line_color: None,
        line_marker_line_width: None,
        pie_first_slice_angle: None,
        pie_explosion: None,
        has_of_pie_chart: false,
        has_doughnut_chart: false,
        doughnut_hole_size: None,
        pie_of_pie_type: None,
        pie_of_pie_gap_width: None,
        pie_of_pie_second_size: None,
        pie_of_pie_ser_line_color: None,
        pie_of_pie_ser_line_width: None,
        scatter_style: None,
        scatter_smooth: None,
        scatter_marker_size: None,
        scatter_marker_symbol: None,
        scatter_marker_fill_color: None,
        scatter_marker_line_color: None,
        scatter_marker_line_width: None,
        trendline_type: None,
        trendline_order: None,
        trendline_period: None,
        trendline_display_equation: None,
        trendline_display_r_squared: None,
        trendline_line_color: None,
        trendline_line_width: None,
        error_bar_direction: None,
        error_bar_type: None,
        error_bar_value_type: None,
        error_bar_value: Seq::empty(),
        error_bar_no_end_cap: None,
        error_bar_line_color: None,
        error_bar_line_width: None,
        stock_up_down_bar_gap_width: None,
        stock_up_bar_fill_color: None,
        stock_down_bar_fill_color: None,
        stock_up_bar_line_color: None,
        stock_down_bar_line_color: None,
        stock_up_bar_line_width: None,
        stock_down_bar_line_width: None,
        stock_hi_low_line_color: None,
        stock_hi_low_line_width: None,
        data_label_position: None,
        data_labels_show_value: None,
        data_labels_show_category_name: None,
        data_labels_show_series_name: None,
        data_labels_show_percent: None,
        data_labels_show_legend_key: None,
        title_overlay: None,
        date_1904: None,
        chart_style: None,
        chart_area_fill_color: None,
        plot_area_fill_color: None,
        rounded_corners: None,
        auto_title_deleted: None,
        vary_colors: None,
        view_3d_rotation_x: None,
        view_3d_rotation_y: None,
        view_3d_perspective: None,
        view_3d_right_angle_axes: None,
        view_3d_height_percent: None,
        view_3d_depth_percent: None,
        display_blanks_as: None,
        show_hidden_data: None,
        plot_visible_only: None,
        data_table_show_horizontal_border: None,
        data_table_show_vertical_border: None,
        data_table_show_outline: None,
        data_table_show_keys: None,
        legend_position: None,
        legend_overlay: None,
        category_axis_visible: None,
        value_axis_visible: None,
        category_axis_title: None,
        value_axis_title: None,
        category_axis_position: None,
        value_axis_position: None,
        category_axis_label_position: None,
        value_axis_label_position: None,
        category_axis_auto: None,
        category_axis_label_alignment: None,
        category_axis_label_offset: None,
        category_axis_tick_mark_skip: None,
        category_axis_no_multi_level_labels: None,
        category_axis_orientation: None,
        value_axis_orientation: None,
        category_axis_crosses: None,
        category_axis_crosses_at: Seq::empty(),
        value_axis_crosses: None,
        value_axis_crosses_at: Seq::empty(),
        value_axis_cross_between: None,
        category_axis_major_tick_mark: None,
        category_axis_minor_tick_mark: None,
        category_axis_line_color: None,
        category_axis_line_width: None,
        category_axis_major_grid_line_color: None,
        category_axis_major_grid_line_width: None,
        category_axis_minor_grid_line_color: None,
        category_axis_minor_grid_line_width: None,
        value_axis_major_tick_mark: None,
        value_axis_minor_tick_mark: None,
        value_axis_line_color: None,
        value_axis_line_width: None,
        value_axis_major_grid_line_color: None,
        value_axis_major_grid_line_width: None,
        value_axis_minor_grid_line_color: None,
        value_axis_minor_grid_line_width: None,
        value_axis_log_base: Seq::empty(),
        value_axis_display_unit: None,
        value_axis_minimum: Seq::empty(),
        value_axis_maximum: Seq::empty(),
        value_axis_major_unit: Seq::empty(),
        value_axis_minor_unit: Seq::empty(),
        category_axis_number_format: None,
        category_axis_number_format_source_linked: None,
        value_axis_number_format: None,
        value_axis_number_format_source_linked: None,
    }
}

/// A chart with nothing read yet.
pub fn new_chart() -> (r: OoxmlChart)
    ensures
        r@ == fresh_chart(),
{
    let r = OoxmlChart {
        chart_type: OoxmlChartType::Unknown,
        title: None,
        series: Vec::new(),
        categories: Vec::new(),
        has_secondary_axis: false,
        grouping: BarGrouping::Clustered,
        bar_gap_width: None,
        bar_overlap: None,
        bar_3d_gap_depth: None,
        bar_3d_shape: None,
        line_smooth: None,
        line_marker_visible: None,
        line_marker_size: None,
        line_marker_symbol: None,
        line_marker_fill_color: None,
        line_marker_line_color: None,
        line_marker_line_width: None,
        pie_first_slice_angle: None,
        pie_explosion: None,
        has_of_pie_chart: false,
        has_doughnut_chart: false,
        doughnut_hole_size: None,
        pie_of_pie_type: None,
        pie_of_pie_gap_width: None,
        pie_of_pie_second_size: None,
        pie_of_pie_ser_line_color: None,
        pie_of_pie_ser_line_width: None,
        scatter_style: None,
        scatter_smooth: None,
        scatter_marker_size: None,
        scatter_marker_symbol: None,
        scatter_marker_fill_color: None,
        scatter_marker_line_color: None,
        scatter_marker_line_width: None,
        trendline_type: None,
        trendline_order: None,
        trendline_period: None,
        trendline_display_equation: None,
        trendline_display_r_squared: None,
        trendline_line_color: None,
        trendline_line_width: None,
        error_bar_direction: None,
        error_bar_type: None,
        error_bar_value_type: None,
        error_bar_value: Vec::new(),
        error_bar_no_end_cap: None,
        error_bar_line_color: None,
        error_bar_line_width: None,
        stock_up_down_bar_gap_width: None,
        stock_up_bar_fill_color: None,
        stock_down_bar_fill_color: None,
        stock_up_bar_line_color: None,
        stock_down_bar_line_color: None,
        stock_up_bar_line_width: None,
        stock_down_bar_line_width: None,
        stock_hi_low_line_color: None,
        stock_hi_low_line_width: None,
        data_label_position: None,
        data_labels_show_value: None,
        data_labels_show_category_name: None,
        data_labels_show_series_name: None,
        data_labels_show_percent: None,
        data_labels_show_legend_key: None,
        title_overlay: None,
        date_1904: None,
        chart_style: None,
        chart_area_fill_color: None,
        plot_area_fill_color: None,
        rounded_corners: None,
        auto_title_deleted: None,
        vary_colors: None,
        view_3d_rotation_x: None,
        view_3d_rotation_y: None,
        view_3d_perspective: None,
        view_3d_right_angle_axes: None,
        view_3d_height_percent: None,
        view_3d_depth_percent: None,
        display_blanks_as: None,
        show_hidden_data: None,
        plot_visible_only: None,
        data_table_show_horizontal_border: None,
        data_table_show_vertical_border: None,
        data_table_show_outline: None,
        data_table_show_keys: None,
        legend_position: None,
        legend_overlay: None,
        category_axis_visible: None,
        value_axis_visible: None,
        category_axis_title: None,
        value_axis_title: None,
        category_axis_position: None,
        value_axis_position: None,
        category_axis_label_position: None,
        value_axis_label_position: None,
        category_axis_auto: None,
        category_axis_label_alignment: None,
        category_axis_label_offset: None,
        category_axis_tick_mark_skip: None,
        category_axis_no_multi_level_labels: None,
        category_axis_orientation: None,
        value_axis_orientation: None,
        category_axis_crosses: None,
        category_axis_crosses_at: Vec::new(),
        value_axis_crosses: None,
        value_axis_crosses_at: Vec::new(),
        value_axis_cross_between: None,
        category_axis_major_tick_mark: None,
        category_axis_minor_tick_mark: None,
        category_axis_line_color: None,
        category_axis_line_width: None,
        category_axis_major_grid_line_color: None,
        category_axis_major_grid_line_width: None,
        category_axis_minor_grid_line_color: None,
        category_axis_minor_grid_line_width: None,
        value_axis_major_tick_mark: None,
        value_axis_minor_tick_mark: None,
        value_axis_line_color: None,
        value_axis_line_width: None,
        value_axis_major_grid_line_color: None,
        value_axis_major_grid_line_width: None,
        value_axis_minor_grid_line_color: None,
        value_axis_minor_grid_line_width: None,
        value_axis_log_base: Vec::new(),
        value_axis_display_unit: None,
        value_axis_minimum: Vec::new(),
        value_axis_maximum: Vec::new(),
        value_axis_major_unit: Vec::new(),
        value_axis_minor_unit: Vec::new(),
        category_axis_number_format: None,
        category_axis_number_format_source_linked: None,
        value_axis_number_format: None,
        value_axis_number_format_source_linked: None,
    };
    assert(texts_view(r.categories@) =~= Seq::<Seq<char>>::empty());
    assert(texts_view(r.error_bar_value@) =~= Seq::<Seq<char>>::empty());
    assert(texts_view(r.category_axis_crosses_at@) =~= Seq::<Seq<char>>::empty());
    assert(texts_view(r.value_axis_crosses_at@) =~= Seq::<Seq<char>>::empty());
    assert(texts_view(r.value_axis_log_base@) =~= Seq::<Seq<char>>::empty());
    assert(texts_view(r.value_axis_minimum@) =~= Seq::<Seq<char>>::empty());
    assert(texts_view(r.value_axis_maximum@) =~= Seq::<Seq<char>>::empty());
    assert(texts_view(r.value_axis_major_unit@) =~= Seq::<Seq<char>>::empty());
    assert(texts_view(r.value_axis_minor_unit@) =~= Seq::<Seq<char>>::empty());
    assert(r.series@.map_values(|s: OoxmlSeries| s@) =~= Seq::<SeriesView>::empty());
    r
}

/// Whether the series use more than one known kind (a combination chart).
pub open spec fn is_combo_spec(series: Seq<SeriesView>) -> bool {
    exists|i: int, j: int|
        0 <= i < series.len() && 0 <= j < series.len()
            && #[trigger] series[i].series_type != OoxmlChartType::Unknown
            && #[trigger] series[j].series_type != OoxmlChartType::Unknown
            && series[i].series_type != series[j].series_type
}

impl OoxmlChart {
    /// 시리즈가 여러 타입을 섞어 쓰는지 (콤보 차트) 여부
    pub fn is_combo(&self) -> (r: bool)
        ensures
            r == is_combo_spec(self@.series),
    {
        let mut first: Option<OoxmlChartType> = None;
        let mut i: usize = 0;
        while i < self.series.len()
            invariant
                i <= self.series@.len(),
                self@.series.len() == self.series@.len(),
                forall|k: int| 0 <= k < i ==> self@.series[k] == self.series@[k]@,
                match first {
                    None => forall|k: int| 0 <= k < i ==> #[trigger] self.series@[k].series_type == OoxmlChartType::Unknown,
                    Some(t) => t != OoxmlChartType::Unknown
                        && (exists|k: int| 0 <= k < i && #[trigger] self.series@[k].series_type == t)
                        && forall|k: int| 0 <= k < i ==> #[trigger] self.series@[k].series_type == OoxmlChartType::Unknown
                            || self.series@[k].series_type == t,
                },
            decreases self.series@.len() - i,
        {
            let t = self.series[i].series_type;
            if t != OoxmlChartType::Unknown {
                match first {
                    None => {
                        first = Some(t);
                    },
                    Some(f) => {
                        if f != t {
                            proof {
                                let k = choose|k: int| 0 <= k < i && #[trigger] self.series@[k].series_type == f;
                                assert(self@.series[k].series_type == f);
                                assert(self@.series[i as int].series_type == t);
                            }
                            return true;
                        }
                    },
                }
            }
            i = i + 1;
        }
        proof {
            if is_combo_spec(self@.series) {
                let (a, b) = choose|a: int, b: int|
                    0 <= a < self@.series.len() && 0 <= b < self@.series.len()
                        && #[trigger] self@.series[a].series_type != OoxmlChartType::Unknown
                        && #[trigger] self@.series[b].series_type != OoxmlChartType::Unknown
                        && self@.series[a].series_type != self@.series[b].series_type;
                assert(self@.series[a] == self.series@[a]@);
                assert(self@.series[b] == self.series@[b]@);
            }
        }
        false
    }
}

} // verus!
