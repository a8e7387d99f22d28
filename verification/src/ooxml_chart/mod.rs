//! OOXML 차트 (DrawingML) 어휘.
//!
//! HWP 파일 내 OLE 개체의 `OOXMLChartContents` 스트림 또는 HWPX `Chart/chartN.xml`은
//! Microsoft OOXML DrawingML 차트 XML로 저장된다. 이 모듈은 그 XML이 쓰는 값들을
//! 다룬다: 차트 종류와 그 이름, 축·범례·데이터 레이블·추세선·오차 막대 등의 속성
//! 값(`val="..."`)을 열거형으로 읽는 함수들.

pub mod model;
pub mod parser;

use vstd::prelude::*;

verus! {

/// 막대/라인 차트 그룹화 방식 (`c:grouping`).
#[derive(Debug, Clone, Copy, PartialEq, Eq, Structural, Default)]
pub enum BarGrouping {
    #[default]
    Clustered,
    Stacked,
    PercentStacked,
}

/// 차트 범례 위치 (`c:legendPos`).
#[derive(Debug, Clone, Copy, PartialEq, Eq, Structural)]
pub enum ChartLegendPosition {
    Right,
    Left,
    Top,
    Bottom,
    TopRight,
}

/// 축 위치 (`c:axPos`).
#[derive(Debug, Clone, Copy, PartialEq, Eq, Structural)]
pub enum AxisPosition {
    Bottom,
    Left,
    Top,
    Right,
}

/// 축 눈금 라벨 위치 (`c:tickLblPos`).
#[derive(Debug, Clone, Copy, PartialEq, Eq, Structural)]
pub enum AxisLabelPosition {
    NextTo,
    High,
    Low,
    NoLabels,
}

/// 카테고리 축 라벨 정렬 (`c:lblAlgn`).
#[derive(Debug, Clone, Copy, PartialEq, Eq, Structural)]
pub enum AxisLabelAlignment {
    Center,
    Left,
    Right,
}

/// 축 값 방향 (`c:scaling/c:orientation`).
#[derive(Debug, Clone, Copy, PartialEq, Eq, Structural)]
pub enum AxisOrientation {
    MinMax,
    MaxMin,
}

/// 축 교차 위치 (`c:crosses`).
#[derive(Debug, Clone, Copy, PartialEq, Eq, Structural)]
pub enum AxisCrosses {
    AutoZero,
    Min,
    Max,
}

/// 값 축 막대/카테고리 교차 위치 (`c:crossBetween`).
#[derive(Debug, Clone, Copy, PartialEq, Eq, Structural)]
pub enum AxisCrossBetween {
    Between,
    MidCategory,
}

/// 축 눈금 표시 방식 (`c:majorTickMark`, `c:minorTickMark`).
#[derive(Debug, Clone, Copy, PartialEq, Eq, Structural)]
pub enum AxisTickMark {
    Cross,
    In,
    Out,
    NoMark,
}

/// 값 축 표시 단위 (`c:valAx/c:dispUnits/c:builtInUnit`).
#[derive(Debug, Clone, Copy, PartialEq, Eq, Structural)]
pub enum AxisDisplayUnit {
    Hundreds,
    Thousands,
    TenThousands,
    HundredThousands,
    Millions,
    TenMillions,
    HundredMillions,
    Billions,
    Trillions,
}

/// 차트 데이터 레이블 위치 (`c:dLblPos`).
#[derive(Debug, Clone, Copy, PartialEq, Eq, Structural)]
pub enum ChartDataLabelPosition {
    BestFit,
    Bottom,
    Center,
    InsideBase,
    InsideEnd,
    Left,
    OutsideEnd,
    Right,
    Top,
}

/// 빈 데이터 표시 방식 (`c:dispBlanksAs`).
#[derive(Debug, Clone, Copy, PartialEq, Eq, Structural)]
pub enum ChartDisplayBlanksAs {
    Gap,
    Span,
    Zero,
}

/// 분산형 차트 스타일 (`c:scatterStyle`).
#[derive(Debug, Clone, Copy, PartialEq, Eq, Structural)]
pub enum ScatterStyle {
    Line,
    LineMarker,
    Marker,
    Smooth,
    SmoothMarker,
}

/// 라인/분산형 차트 표식 모양 (`c:marker/c:symbol`).
#[derive(Debug, Clone, Copy, PartialEq, Eq, Structural)]
pub enum ChartMarkerSymbol {
    Circle,
    Dash,
    Diamond,
    Dot,
    NoSymbol,
    Picture,
    Plus,
    Square,
    Star,
    Triangle,
    X,
}

/// 시리즈 추세선 종류 (`c:trendlineType`).
#[derive(Debug, Clone, Copy, PartialEq, Eq, Structural)]
pub enum ChartTrendlineType {
    Linear,
    Exponential,
    Logarithmic,
    MovingAverage,
    Polynomial,
    Power,
}

/// 차트 오차 막대 방향 (`c:errDir`).
#[derive(Debug, Clone, Copy, PartialEq, Eq, Structural)]
pub enum ChartErrorBarDirection {
    X,
    Y,
}

/// 차트 오차 막대 표시 유형 (`c:errBarType`).
#[derive(Debug, Clone, Copy, PartialEq, Eq, Structural)]
pub enum ChartErrorBarType {
    Both,
    Plus,
    Minus,
}

/// 차트 오차 막대 값 유형 (`c:errValType`).
#[derive(Debug, Clone, Copy, PartialEq, Eq, Structural)]
pub enum ChartErrorBarValueType {
    FixedValue,
    Percentage,
    StandardDeviation,
    StandardError,
}

/// 원형대원형/원형대막대 보조 플롯 종류 (`c:ofPieType`).
#[derive(Debug, Clone, Copy, PartialEq, Eq, Structural)]
pub enum OfPieType {
    Pie,
    Bar,
}

/// 차트 종류
#[derive(Debug, Clone, Copy, PartialEq, Eq, Structural, Hash, Default)]
pub enum OoxmlChartType {
    /// 세로 막대 (barDir=col)
    Column,
    /// 가로 막대 (barDir=bar)
    Bar,
    /// 꺾은선
    Line,
    /// 원형
    Pie,
    /// 분산형
    Scatter,
    /// 주식형
    Stock,
    #[default]
    Unknown,
}

/// The Korean display label of each chart kind.
pub open spec fn chart_type_label(t: OoxmlChartType) -> Seq<char> {
    match t {
        OoxmlChartType::Column => "세로 막대"@,
        OoxmlChartType::Bar => "가로 막대"@,
        OoxmlChartType::Line => "꺾은선"@,
        OoxmlChartType::Pie => "원형"@,
        OoxmlChartType::Scatter => "분산형"@,
        OoxmlChartType::Stock => "주식형"@,
        OoxmlChartType::Unknown => "미지원"@,
    }
}

impl OoxmlChartType {
    /// 차트 종류의 표시 이름.
    pub fn label(&self) -> (r: &'static str)
        ensures
            r@ == chart_type_label(*self),
    {
        match self {
            Self::Column => "세로 막대",
            Self::Bar => "가로 막대",
            Self::Line => "꺾은선",
            Self::Pie => "원형",
            Self::Scatter => "분산형",
            Self::Stock => "주식형",
            Self::Unknown => "미지원",
        }
    }
}

/// `chart_type_label` gives each value its own text: the one listed here, which no
/// other value shares.
pub proof fn lemma_chart_type_label_values(t: OoxmlChartType)
    ensures
        chart_type_label(t) == "세로 막대"@ <==> (t == OoxmlChartType::Column),
        chart_type_label(t) == "가로 막대"@ <==> (t == OoxmlChartType::Bar),
        chart_type_label(t) == "꺾은선"@ <==> (t == OoxmlChartType::Line),
        chart_type_label(t) == "원형"@ <==> (t == OoxmlChartType::Pie),
        chart_type_label(t) == "분산형"@ <==> (t == OoxmlChartType::Scatter),
        chart_type_label(t) == "주식형"@ <==> (t == OoxmlChartType::Stock),
        chart_type_label(t) == "미지원"@ <==> (t == OoxmlChartType::Unknown),
{
    reveal_strlit("세로 막대");
    reveal_strlit("가로 막대");
    reveal_strlit("꺾은선");
    reveal_strlit("원형");
    reveal_strlit("분산형");
    reveal_strlit("주식형");
    reveal_strlit("미지원");
    assert("세로 막대"@[0] != "가로 막대"@[0]);
    assert("세로 막대"@.len() != "꺾은선"@.len());
    assert("세로 막대"@.len() != "원형"@.len());
    assert("세로 막대"@.len() != "분산형"@.len());
    assert("세로 막대"@.len() != "주식형"@.len());
    assert("세로 막대"@.len() != "미지원"@.len());
    assert("가로 막대"@.len() != "꺾은선"@.len());
    assert("가로 막대"@.len() != "원형"@.len());
    assert("가로 막대"@.len() != "분산형"@.len());
    assert("가로 막대"@.len() != "주식형"@.len());
    assert("가로 막대"@.len() != "미지원"@.len());
    assert("꺾은선"@.len() != "원형"@.len());
    assert("꺾은선"@[0] != "분산형"@[0]);
    assert("꺾은선"@[0] != "주식형"@[0]);
    assert("꺾은선"@[0] != "미지원"@[0]);
    assert("원형"@.len() != "분산형"@.len());
    assert("원형"@.len() != "주식형"@.len());
    assert("원형"@.len() != "미지원"@.len());
    assert("분산형"@[0] != "주식형"@[0]);
    assert("분산형"@[0] != "미지원"@[0]);
    assert("주식형"@[0] != "미지원"@[0]);
}

} // verus!
