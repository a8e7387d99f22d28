//! The document-model records that template extraction and rebuilding read
//! and write: page and section definitions, footnote shapes, paragraphs with
//! their line segments and character-shape runs, tables and the enumerations
//! that their fields take.

use crate::document_core::builders::document_template::attrs::XmlAttrs;
use vstd::prelude::*;

verus! {

/// 제본 방법 (용지 설정).
#[derive(Debug, Clone, Copy, PartialEq, Eq, Structural, Default)]
pub enum BindingMethod {
    #[default]
    SingleSided,
    DuplexSided,
    TopFlip,
}

/// 용지 설정.
#[derive(Debug, Clone, PartialEq, Default)]
pub struct PageDef {
    pub width: u32,
    pub height: u32,
    pub margin_left: u32,
    pub margin_right: u32,
    pub margin_top: u32,
    pub margin_bottom: u32,
    pub margin_header: u32,
    pub margin_footer: u32,
    pub margin_gutter: u32,
    pub pagination_bottom_tolerance: u32,
    pub attr: u32,
    pub landscape: bool,
    pub binding: BindingMethod,
}

/// 구역 정의.
#[derive(Debug, Clone, PartialEq, Default)]
pub struct SectionDef {
    pub section_id: String,
    pub flags: u32,
    pub column_spacing: i16,
    pub line_grid: i16,
    pub char_grid: i16,
    pub wonggoji_format: u8,
    pub default_tab_spacing: u32,
    pub tab_stop_val: u32,
    pub tab_stop_unit: String,
    pub page_num: u16,
    pub page_num_type: u8,
    pub picture_num: u16,
    pub table_num: u16,
    pub equation_num: u16,
    pub hide_header: bool,
    pub hide_footer: bool,
    pub hide_master_page: bool,
    pub hide_border: bool,
    pub visibility_border: String,
    pub hide_fill: bool,
    pub visibility_fill: String,
    pub hide_page_number: bool,
    pub hide_empty_line: bool,
    pub show_line_number: bool,
    pub text_direction: u8,
    pub outline_numbering_id: u16,
    pub memo_shape_id_ref: u16,
    pub text_vertical_width_head: u32,
    pub line_number_restart_type: u8,
    pub line_number_count_by: u16,
    pub line_number_distance: u32,
    pub line_number_start_number: u16,
}

/// 각주/미주 번호 모양.
#[derive(Debug, Clone, Copy, PartialEq, Eq, Structural, Default)]
pub enum NumberFormat {
    #[default]
    Digit,
    CircledDigit,
    UpperRoman,
    LowerRoman,
    UpperAlpha,
    LowerAlpha,
    CircledUpperAlpha,
    CircledLowerAlpha,
    HangulSyllable,
    CircledHangulSyllable,
    HangulJamo,
    CircledHangulJamo,
    HangulDigit,
    HanjaDigit,
    CircledHanjaDigit,
    HanjaGapEul,
    HanjaGapEulHanja,
    FourSymbol,
    UserChar,
}

/// 각주 번호 매기기 방식.
#[derive(Debug, Clone, Copy, PartialEq, Eq, Structural, Default)]
pub enum FootnoteNumbering {
    #[default]
    Continue,
    RestartSection,
    RestartPage,
}

/// 각주 배치.
#[derive(Debug, Clone, Copy, PartialEq, Eq, Structural, Default)]
pub enum FootnotePlacement {
    #[default]
    EachColumn,
    BelowText,
    RightColumn,
}

/// 각주/미주 모양.
#[derive(Debug, Clone, PartialEq, Default)]
pub struct FootnoteShape {
    pub attr: u32,
    pub number_format: NumberFormat,
    pub user_char: char,
    pub prefix_char: char,
    pub suffix_char: char,
    pub start_number: u16,
    pub separator_length: i16,
    pub separator_margin_top: i16,
    pub separator_margin_bottom: i16,
    pub note_spacing: i16,
    pub separator_line_type: u8,
    pub separator_line_width: u8,
    pub separator_color: u32,
    pub numbering: FootnoteNumbering,
    pub placement: FootnotePlacement,
    pub number_code_superscript: bool,
    pub print_inline_after_text: bool,
    pub raw_unknown: u16,
}

/// 머리말/꼬리말 적용 쪽.
#[derive(Debug, Clone, Copy, PartialEq, Eq, Structural, Default)]
pub enum HeaderFooterApply {
    #[default]
    Both,
    Even,
    Odd,
}

/// 단 나누기 종류.
#[derive(Debug, Clone, Copy, PartialEq, Eq, Structural, Default)]
pub enum ColumnBreakType {
    #[default]
    NoBreak,
    Section,
    MultiColumn,
    Page,
    Column,
}

/// 줄 배치 정보 (LineSeg).
#[derive(Debug, Clone, Copy, PartialEq, Eq, Structural, Default)]
pub struct LineSeg {
    pub text_start: u32,
    pub vertical_pos: i32,
    pub line_height: i32,
    pub text_height: i32,
    pub baseline_distance: i32,
    pub line_spacing: i32,
    pub column_start: i32,
    pub segment_width: i32,
    pub tag: u32,
}

/// 글자 모양 참조 (시작 위치, 글자 모양 ID).
#[derive(Debug, Clone, Copy, PartialEq, Eq, Structural, Default)]
pub struct CharShapeRef {
    pub start_pos: u32,
    pub char_shape_id: u32,
}

/// 문단: 본문 텍스트, 글자 모양 구간, 줄 배치 정보, 컨트롤.
#[derive(Debug, Clone, PartialEq, Default)]
pub struct Paragraph {
    pub text: String,
    pub char_shapes: Vec<CharShapeRef>,
    pub line_segs: Vec<LineSeg>,
    pub controls: Vec<Control>,
}

/// 채우기 종류.
#[derive(Debug, Clone, Copy, PartialEq, Eq, Structural, Default)]
pub enum FillType {
    #[default]
    NoFill,
    Solid,
    Image,
    Gradient,
}

/// 테두리 선 종류.
#[derive(Debug, Clone, Copy, PartialEq, Eq, Structural, Default)]
pub enum BorderLineType {
    #[default]
    NoLine,
    Solid,
    Dash,
    Dot,
    DashDot,
    DashDotDot,
    LongDash,
    Circle,
    Double,
    ThinThickDouble,
    ThickThinDouble,
    ThinThickThinTriple,
    Wave,
    DoubleWave,
    Thick3D,
    Thick3DReverse,
    Thin3D,
    Thin3DReverse,
}

/// 그림 채우기 방식.
#[derive(Debug, Clone, Copy, PartialEq, Eq, Structural, Default)]
pub enum ImageFillMode {
    #[default]
    TileAll,
    TileHorzTop,
    TileHorzBottom,
    TileVertLeft,
    TileVertRight,
    FitToSize,
    Center,
    CenterTop,
    CenterBottom,
    LeftCenter,
    LeftTop,
    LeftBottom,
    RightCenter,
    RightTop,
    RightBottom,
    Unset,
}

/// 그림 효과.
#[derive(Debug, Clone, Copy, PartialEq, Eq, Structural, Default)]
pub enum ImageEffect {
    #[default]
    RealPic,
    GrayScale,
    BlackWhite,
    Pattern8x8,
}

/// 밑줄 위치.
#[derive(Debug, Clone, Copy, PartialEq, Eq, Structural, Default)]
pub enum UnderlineType {
    #[default]
    NoUnderline,
    Bottom,
    Top,
}

/// 문단 정렬.
#[derive(Debug, Clone, Copy, PartialEq, Eq, Structural, Default)]
pub enum Alignment {
    #[default]
    Justify,
    Left,
    Right,
    Center,
    Distribute,
    Split,
}

/// 셀 세로 정렬.
#[derive(Debug, Clone, Copy, PartialEq, Eq, Structural, Default)]
pub enum VerticalAlign {
    #[default]
    Top,
    Center,
    Bottom,
}

/// 개체 세로 기준.
#[derive(Debug, Clone, Copy, PartialEq, Eq, Structural, Default)]
pub enum VertRelTo {
    #[default]
    Paper,
    Page,
    Para,
}

/// 개체 세로 정렬.
#[derive(Debug, Clone, Copy, PartialEq, Eq, Structural, Default)]
pub enum VertAlign {
    #[default]
    Top,
    Center,
    Bottom,
    Inside,
    Outside,
}

/// 개체 가로 기준.
#[derive(Debug, Clone, Copy, PartialEq, Eq, Structural, Default)]
pub enum HorzRelTo {
    #[default]
    Paper,
    Page,
    Column,
    Para,
}

/// 개체 가로 정렬.
#[derive(Debug, Clone, Copy, PartialEq, Eq, Structural, Default)]
pub enum HorzAlign {
    #[default]
    Left,
    Center,
    Right,
    Inside,
    Outside,
}

/// 본문과의 배치.
#[derive(Debug, Clone, Copy, PartialEq, Eq, Structural, Default)]
pub enum TextWrap {
    #[default]
    Square,
    Tight,
    Through,
    TopAndBottom,
    BehindText,
    InFrontOfText,
}

/// 텍스트 흐름.
#[derive(Debug, Clone, Copy, PartialEq, Eq, Structural, Default)]
pub enum TextFlow {
    #[default]
    BothSides,
    LeftOnly,
    RightOnly,
    LargestOnly,
}

/// 크기 기준.
#[derive(Debug, Clone, Copy, PartialEq, Eq, Structural, Default)]
pub enum SizeCriterion {
    #[default]
    Paper,
    Page,
    Column,
    Para,
    Absolute,
}

/// 개체 번호 종류.
#[derive(Debug, Clone, Copy, PartialEq, Eq, Structural, Default)]
pub enum ObjectNumberingType {
    #[default]
    NoNumbering,
    Picture,
    Table,
    Equation,
}

/// 캡션 방향.
#[derive(Debug, Clone, Copy, PartialEq, Eq, Structural, Default)]
pub enum CaptionDirection {
    Left,
    Right,
    Top,
    #[default]
    Bottom,
}

/// 캡션 세로 정렬.
#[derive(Debug, Clone, Copy, PartialEq, Eq, Structural, Default)]
pub enum CaptionVertAlign {
    #[default]
    Top,
    Center,
    Bottom,
}

/// 표 쪽 나눔 방식.
#[derive(Debug, Clone, Copy, PartialEq, Eq, Structural, Default)]
pub enum TablePageBreak {
    #[default]
    NoBreak,
    CellBreak,
    RowBreak,
}

/// 줄 간격 종류.
#[derive(Debug, Clone, Copy, PartialEq, Eq, Structural, Default)]
pub enum LineSpacingType {
    #[default]
    Percent,
    Fixed,
    SpaceOnly,
    Minimum,
}

/// 문단 머리 종류.
#[derive(Debug, Clone, Copy, PartialEq, Eq, Structural, Default)]
pub enum HeadType {
    #[default]
    NoHead,
    Outline,
    Number,
    Bullet,
}

/// 안쪽 여백.
#[derive(Debug, Clone, Copy, PartialEq, Eq, Structural, Default)]
pub struct Padding {
    pub left: i16,
    pub right: i16,
    pub top: i16,
    pub bottom: i16,
}

/// 표 셀: 위치와 그 안의 문단.
#[derive(Debug, Clone, PartialEq, Default)]
pub struct Cell {
    pub row: u16,
    pub col: u16,
    pub paragraphs: Vec<Paragraph>,
}

/// 그리기 개체 속성 중 효과 조각: 원본 HWPX 하위 XML 조각들.
#[derive(Debug, Clone, PartialEq, Default)]
pub struct DrawingObjAttr {
    pub raw_hwpx_child_xml: Vec<String>,
}

/// 표 영역: 테두리/배경을 공유하는 셀 범위.
#[derive(Debug, Clone, Copy, PartialEq, Eq, Structural, Default)]
pub struct TableZone {
    pub start_row: u16,
    pub start_col: u16,
    pub end_row: u16,
    pub end_col: u16,
    pub border_fill_id: u16,
}

/// 표: 행/열 수, 셀, 레이아웃 속성.
#[derive(Debug, Clone, PartialEq, Default)]
pub struct Table {
    pub common: CommonObjAttr,
    pub row_count: u16,
    pub col_count: u16,
    pub cells: Vec<Cell>,
    pub cell_spacing: i16,
    pub padding: Padding,
    pub page_break: TablePageBreak,
    pub repeat_header: bool,
    pub outer_margin_left: i16,
    pub outer_margin_right: i16,
    pub outer_margin_top: i16,
    pub outer_margin_bottom: i16,
}

/// 그림 효과 색의 RGB 성분 (각 성분은 십진 텍스트).
#[derive(Debug, Clone, PartialEq, Default)]
pub struct EffectRgb {
    pub r: Option<String>,
    pub g: Option<String>,
    pub b: Option<String>,
}

/// 그림 효과의 두 성분 점 (각 성분은 텍스트).
#[derive(Debug, Clone, PartialEq, Default)]
pub struct EffectPoint {
    pub x: Option<String>,
    pub y: Option<String>,
}

/// 그림 효과의 범위 (시작과 끝, 각각 텍스트).
#[derive(Debug, Clone, PartialEq, Default)]
pub struct EffectRange {
    pub start: Option<String>,
    pub end: Option<String>,
}

/// 좌표 점.
#[derive(Debug, Clone, Copy, PartialEq, Eq, Structural, Default)]
pub struct Point {
    pub x: i32,
    pub y: i32,
}

/// 테두리 선 (종류, 굵기 코드, 색).
#[derive(Debug, Clone, Copy, PartialEq, Eq, Structural, Default)]
pub struct BorderLine {
    pub line_type: BorderLineType,
    pub width: u8,
    pub color: u32,
}

/// 그림 효과 색.
#[derive(Debug, Clone, PartialEq, Default)]
pub struct EffectColor {
    pub color_type: Option<String>,
    pub scheme_idx: Option<String>,
    pub system_idx: Option<String>,
    pub preset_idx: Option<String>,
    pub rgb: Option<EffectRgb>,
    pub raw_child_xml: Vec<String>,
}

/// 그림자 효과.
#[derive(Debug, Clone, PartialEq, Default)]
pub struct PictureShadow {
    pub style: Option<String>,
    pub alpha: Option<String>,
    pub radius: Option<String>,
    pub direction: Option<String>,
    pub distance: Option<String>,
    pub align_style: Option<String>,
    pub rotation_style: Option<String>,
    pub skew: Option<EffectPoint>,
    pub scale: Option<EffectPoint>,
    pub color: Option<EffectColor>,
    pub raw_child_xml: Vec<String>,
}

/// 네온 효과.
#[derive(Debug, Clone, PartialEq, Default)]
pub struct PictureGlow {
    pub alpha: Option<String>,
    pub radius: Option<String>,
    pub color: Option<EffectColor>,
    pub raw_child_xml: Vec<String>,
}

/// 부드러운 가장자리 효과.
#[derive(Debug, Clone, PartialEq, Default)]
pub struct PictureSoftEdge {
    pub radius: Option<String>,
    pub raw_child_xml: Vec<String>,
}

/// 흐리기 효과.
#[derive(Debug, Clone, PartialEq, Default)]
pub struct PictureBlur {
    pub radius: Option<String>,
    pub raw_child_xml: Vec<String>,
}

/// 반사 효과.
#[derive(Debug, Clone, PartialEq, Default)]
pub struct PictureReflection {
    pub align_style: Option<String>,
    pub radius: Option<String>,
    pub direction: Option<String>,
    pub distance: Option<String>,
    pub rotation_style: Option<String>,
    pub fade_direction: Option<String>,
    pub skew: Option<EffectPoint>,
    pub scale: Option<EffectPoint>,
    pub color: Option<EffectColor>,
    pub alpha: Option<EffectRange>,
    pub pos: Option<EffectRange>,
    pub raw_child_xml: Vec<String>,
}

/// 채우기 덧씌우기의 단색 채우기.
#[derive(Debug, Clone, PartialEq, Default)]
pub struct PictureSolidFill {
    pub color: Option<String>,
    pub effect_color: Option<EffectColor>,
    pub raw_child_xml: Vec<String>,
}

/// 채우기 덧씌우기 효과.
#[derive(Debug, Clone, PartialEq, Default)]
pub struct PictureFillOverlay {
    pub blend: Option<String>,
    pub solid_fill: Option<PictureSolidFill>,
    pub raw_child_xml: Vec<String>,
}

/// 그림 효과의 하위 요소 (XML 속성들).
#[derive(Debug, Clone, PartialEq, Default)]
pub struct PictureEffectChild {
    pub attrs: XmlAttrs,
}

/// 입체 효과.
#[derive(Debug, Clone, PartialEq, Default)]
pub struct PictureThreeD {
    pub attrs: XmlAttrs,
    pub bevel: Option<PictureEffectChild>,
    pub raw_child_xml: Vec<String>,
}

/// 그림 효과 모음.
#[derive(Debug, Clone, PartialEq, Default)]
pub struct PictureEffects {
    pub shadow: Option<PictureShadow>,
    pub glow: Option<PictureGlow>,
    pub soft_edge: Option<PictureSoftEdge>,
    pub reflection: Option<PictureReflection>,
    pub three_d: Option<PictureThreeD>,
    pub blur: Option<PictureBlur>,
    pub fill_overlay: Option<PictureFillOverlay>,
    pub raw_xml: Vec<String>,
}

/// 연결선의 조절점.
#[derive(Debug, Clone, Copy, PartialEq, Eq, Structural, Default)]
pub struct ConnectorControlPoint {
    pub x: i32,
    pub y: i32,
    pub point_type: u16,
}

/// 쪽 배치 항목: 쪽 단(column)에 놓인 문단이나 개체 (쪽 힌트가 읽는 색인만).
#[derive(Debug, Clone, Copy, PartialEq, Eq, Structural)]
pub enum PageItem {
    FullParagraph { para_index: usize },
    PartialParagraph { para_index: usize },
    Table { para_index: usize, control_index: usize },
    PartialTable { para_index: usize, control_index: usize },
    Shape { para_index: usize, control_index: usize },
    EndnoteSeparator,
}

/// 개체 공통 속성 (배치, 크기, 설명).
#[derive(Debug, Clone, PartialEq, Eq, Default)]
pub struct CommonObjAttr {
    pub attr: u32,
    pub treat_as_char: bool,
    pub horizontal_offset: u32,
    pub vertical_offset: u32,
    pub width: u32,
    pub height: u32,
    pub z_order: i32,
    pub instance_id: u32,
    pub inst_id: u32,
    pub flow_with_text: bool,
    pub allow_overlap: bool,
    pub size_protect: bool,
    pub lock: bool,
    pub prevent_page_break: i32,
    pub vert_rel_to: VertRelTo,
    pub vert_align: VertAlign,
    pub horz_rel_to: HorzRelTo,
    pub horz_align: HorzAlign,
    pub text_wrap: TextWrap,
    pub text_flow: TextFlow,
    pub width_criterion: SizeCriterion,
    pub height_criterion: SizeCriterion,
    pub description: String,
    pub dropcap_style: Option<String>,
    pub href: Option<String>,
    pub numbering_type: ObjectNumberingType,
    pub numbering_type_explicit: bool,
}

/// 개체 요소 속성 (위치, 크기, 뒤집기, 회전). 렌더링 변환 행렬의 실수
/// 성분은 여기 두지 않는다.
#[derive(Debug, Clone, Copy, PartialEq, Eq, Structural, Default)]
pub struct ShapeComponentAttr {
    pub offset_x: i32,
    pub offset_y: i32,
    pub group_level: u16,
    pub local_file_version: u16,
    pub original_width: u32,
    pub original_height: u32,
    pub current_width: u32,
    pub current_height: u32,
    pub flip: u32,
    pub horz_flip: bool,
    pub vert_flip: bool,
    pub rotation_angle: i16,
    pub rotate_image: bool,
    pub rotation_center: Point,
}

/// 그림 자르기 정보.
#[derive(Debug, Clone, Copy, PartialEq, Eq, Structural, Default)]
pub struct CropInfo {
    pub left: i32,
    pub top: i32,
    pub right: i32,
    pub bottom: i32,
}

/// 그림 개체 (배치에 쓰이는 속성).
#[derive(Debug, Clone, PartialEq, Eq, Default)]
pub struct Picture {
    pub common: CommonObjAttr,
    pub shape_attr: ShapeComponentAttr,
    pub crop: CropInfo,
    pub padding: Padding,
    pub border_x: [i32; 4],
    pub border_y: [i32; 4],
}

/// 바이너리 데이터 종류.
#[derive(Debug, Clone, Copy, PartialEq, Eq, Structural, Default)]
pub enum BinDataType {
    #[default]
    Link,
    Embedding,
    Storage,
}

/// 바이너리 데이터 항목 (연결 경로).
#[derive(Debug, Clone, PartialEq, Default)]
pub struct BinData {
    pub data_type: BinDataType,
    pub abs_path: Option<String>,
    pub rel_path: Option<String>,
}

/// 문단에 딸린 컨트롤 (종류와, 그림이면 그 배치 속성).
#[derive(Debug, Clone, PartialEq, Eq)]
pub enum Control {
    Table,
    Equation,
    Picture(Picture),
    Shape,
    SectionDef,
    ColumnDef,
    PageHide,
    PageNumberPos,
    Other,
}

} // verus!
