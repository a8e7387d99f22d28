//! The names under which templates write enumeration values, and how names
//! (in the template's own spelling, the HWPX spelling or as numeric codes)
//! are read back.

use crate::model::{
    Alignment, BindingMethod, BorderLineType, CaptionDirection, CaptionVertAlign, ColumnBreakType,
    FillType, FootnoteNumbering, FootnotePlacement, HeadType, HeaderFooterApply, HorzAlign,
    HorzRelTo, ImageEffect, ImageFillMode, LineSpacingType, NumberFormat, ObjectNumberingType,
    SizeCriterion, TablePageBreak, TextFlow, TextWrap, UnderlineType, VertAlign, VertRelTo,
    VerticalAlign,
};
use crate::text::{
    ascii_lower, ascii_upper, char_is_ascii_alnum, char_to_ascii_lower, char_to_ascii_upper,
    is_ascii_alnum, push_char, str_eq, string_of, trim_seq, trim_str,
};
use super::TemplateBreak;
use vstd::prelude::*;
use vstd::string::*;

verus! {

// ---------------------------------------------------------------------------
// Normalised keys
// ---------------------------------------------------------------------------

/// The characters of `s` without `_`, `-` and spaces, ASCII letters in upper case.
pub open spec fn layout_key_chars(s: Seq<char>) -> Seq<char>
    decreases s.len(),
{
    if s.len() == 0 {
        Seq::empty()
    } else {
        let rest = layout_key_chars(s.drop_last());
        let c = s.last();
        if c == '_' || c == '-' || c == ' ' {
            rest
        } else {
            rest.push(ascii_upper(c))
        }
    }
}

/// The key under which object-layout enumeration names are compared:
/// trimmed, without `_`, `-` and spaces, in ASCII upper case.
pub open spec fn layout_key_seq(s: Seq<char>) -> Seq<char> {
    layout_key_chars(trim_seq(s))
}

/// Builds the object-layout comparison key of `value`.
pub fn object_layout_enum_key(value: &str) -> (r: String)
    ensures
        r@ == layout_key_seq(value@),
{
    let t = trim_str(value);
    let n = t.unicode_len();
    let mut out = String::new();
    let mut i: usize = 0;
    while i < n
        invariant
            n == t@.len(),
            t@ == trim_seq(value@),
            i <= n,
            out@ == layout_key_chars(t@.subrange(0, i as int)),
        decreases n - i,
    {
        let c = t.get_char(i);
        let ghost prefix = t@.subrange(0, i + 1);
        assert(prefix.drop_last() =~= t@.subrange(0, i as int));
        if !(c == '_' || c == '-' || c == ' ') {
            push_char(&mut out, char_to_ascii_upper(c));
        }
        i = i + 1;
    }
    assert(t@.subrange(0, n as int) =~= t@);
    out
}

/// The characters of `s` that are ASCII letters or digits, in lower case.
pub open spec fn alnum_key_chars(s: Seq<char>) -> Seq<char>
    decreases s.len(),
{
    if s.len() == 0 {
        Seq::empty()
    } else {
        let rest = alnum_key_chars(s.drop_last());
        let c = s.last();
        if is_ascii_alnum(c) {
            rest.push(ascii_lower(c))
        } else {
            rest
        }
    }
}

/// The key under which effect and shadow names are compared: trimmed, only
/// ASCII letters and digits kept, in lower case.
pub open spec fn alnum_key_seq(s: Seq<char>) -> Seq<char> {
    alnum_key_chars(trim_seq(s))
}

/// Builds the effect/shadow comparison key of `value`.
pub fn alnum_lower_key(value: &str) -> (r: String)
    ensures
        r@ == alnum_key_seq(value@),
{
    let t = trim_str(value);
    let n = t.unicode_len();
    let mut out = String::new();
    let mut i: usize = 0;
    while i < n
        invariant
            n == t@.len(),
            t@ == trim_seq(value@),
            i <= n,
            out@ == alnum_key_chars(t@.subrange(0, i as int)),
        decreases n - i,
    {
        let c = t.get_char(i);
        let ghost prefix = t@.subrange(0, i + 1);
        assert(prefix.drop_last() =~= t@.subrange(0, i as int));
        if char_is_ascii_alnum(c) {
            push_char(&mut out, char_to_ascii_lower(c));
        }
        i = i + 1;
    }
    assert(t@.subrange(0, n as int) =~= t@);
    out
}

// ---------------------------------------------------------------------------
// Numeric codes
// ---------------------------------------------------------------------------

/// 제본 방법의 코드 (0 한쪽, 1 맞쪽, 2 위로 넘기기).
pub open spec fn binding_method_to_u8_spec(binding: BindingMethod) -> u8 {
    match binding {
        BindingMethod::SingleSided => 0,
        BindingMethod::DuplexSided => 1,
        BindingMethod::TopFlip => 2,
    }
}

/// 제본 방법의 코드.
pub fn binding_method_to_u8(binding: BindingMethod) -> (r: u8)
    ensures
        r == binding_method_to_u8_spec(binding),
{
    match binding {
        BindingMethod::SingleSided => 0,
        BindingMethod::DuplexSided => 1,
        BindingMethod::TopFlip => 2,
    }
}

/// 코드의 제본 방법 (모르는 코드는 한쪽).
pub open spec fn binding_method_from_u8_spec(binding: u8) -> BindingMethod {
    if binding == 1 {
        BindingMethod::DuplexSided
    } else if binding == 2 {
        BindingMethod::TopFlip
    } else {
        BindingMethod::SingleSided
    }
}

/// 코드의 제본 방법.
pub fn binding_method_from_u8(binding: u8) -> (r: BindingMethod)
    ensures
        r == binding_method_from_u8_spec(binding),
{
    match binding {
        1 => BindingMethod::DuplexSided,
        2 => BindingMethod::TopFlip,
        _ => BindingMethod::SingleSided,
    }
}

/// Reading back the code of a binding method yields the same method, and a
/// code read as a method is written back unchanged when it is one of 0, 1, 2.
pub proof fn lemma_binding_method_code_roundtrip(binding: BindingMethod, code: u8)
    ensures
        binding_method_from_u8_spec(binding_method_to_u8_spec(binding)) == binding,
        code <= 2 ==> binding_method_to_u8_spec(binding_method_from_u8_spec(code)) == code,
{
}

/// 머리말/꼬리말 적용 쪽의 코드.
pub open spec fn apply_to_u8_spec(apply_to: HeaderFooterApply) -> u8 {
    match apply_to {
        HeaderFooterApply::Both => 0,
        HeaderFooterApply::Even => 1,
        HeaderFooterApply::Odd => 2,
    }
}

/// 머리말/꼬리말 적용 쪽의 코드.
pub fn apply_to_u8(apply_to: HeaderFooterApply) -> (r: u8)
    ensures
        r == apply_to_u8_spec(apply_to),
{
    match apply_to {
        HeaderFooterApply::Both => 0,
        HeaderFooterApply::Even => 1,
        HeaderFooterApply::Odd => 2,
    }
}

/// 코드의 머리말/꼬리말 적용 쪽 (모르는 코드는 양쪽).
pub open spec fn apply_to_from_u8_spec(apply_to: u8) -> HeaderFooterApply {
    if apply_to == 1 {
        HeaderFooterApply::Even
    } else if apply_to == 2 {
        HeaderFooterApply::Odd
    } else {
        HeaderFooterApply::Both
    }
}

/// 코드의 머리말/꼬리말 적용 쪽.
pub fn apply_to_from_u8(apply_to: u8) -> (r: HeaderFooterApply)
    ensures
        r == apply_to_from_u8_spec(apply_to),
{
    match apply_to {
        1 => HeaderFooterApply::Even,
        2 => HeaderFooterApply::Odd,
        _ => HeaderFooterApply::Both,
    }
}

/// Reading back the code of a header/footer side yields the same side.
pub proof fn lemma_apply_to_code_roundtrip(apply_to: HeaderFooterApply)
    ensures
        apply_to_from_u8_spec(apply_to_u8_spec(apply_to)) == apply_to,
{
}

/// HWP 테두리 선 종류 코드 (0..=17; 모르는 코드는 실선).
pub open spec fn border_line_type_from_code_spec(code: u8) -> BorderLineType {
    if code == 0 {
        BorderLineType::NoLine
    } else if code == 1 {
        BorderLineType::Solid
    } else if code == 2 {
        BorderLineType::Dash
    } else if code == 3 {
        BorderLineType::Dot
    } else if code == 4 {
        BorderLineType::DashDot
    } else if code == 5 {
        BorderLineType::DashDotDot
    } else if code == 6 {
        BorderLineType::LongDash
    } else if code == 7 {
        BorderLineType::Circle
    } else if code == 8 {
        BorderLineType::Double
    } else if code == 9 {
        BorderLineType::ThinThickDouble
    } else if code == 10 {
        BorderLineType::ThickThinDouble
    } else if code == 11 {
        BorderLineType::ThinThickThinTriple
    } else if code == 12 {
        BorderLineType::Wave
    } else if code == 13 {
        BorderLineType::DoubleWave
    } else if code == 14 {
        BorderLineType::Thick3D
    } else if code == 15 {
        BorderLineType::Thick3DReverse
    } else if code == 16 {
        BorderLineType::Thin3D
    } else if code == 17 {
        BorderLineType::Thin3DReverse
    } else {
        BorderLineType::Solid
    }
}

/// HWP 테두리 선 종류 코드.
pub fn border_line_type_from_code(code: u8) -> (r: BorderLineType)
    ensures
        r == border_line_type_from_code_spec(code),
{
    match code {
        0 => BorderLineType::NoLine,
        1 => BorderLineType::Solid,
        2 => BorderLineType::Dash,
        3 => BorderLineType::Dot,
        4 => BorderLineType::DashDot,
        5 => BorderLineType::DashDotDot,
        6 => BorderLineType::LongDash,
        7 => BorderLineType::Circle,
        8 => BorderLineType::Double,
        9 => BorderLineType::ThinThickDouble,
        10 => BorderLineType::ThickThinDouble,
        11 => BorderLineType::ThinThickThinTriple,
        12 => BorderLineType::Wave,
        13 => BorderLineType::DoubleWave,
        14 => BorderLineType::Thick3D,
        15 => BorderLineType::Thick3DReverse,
        16 => BorderLineType::Thin3D,
        17 => BorderLineType::Thin3DReverse,
        _ => BorderLineType::Solid,
    }
}

/// 단 나누기 종류가 템플릿에 남기는 나눔 (쪽/구역 → 쪽, 단/다단 → 단).
pub open spec fn break_from_column_type_spec(column_type: ColumnBreakType) -> Option<TemplateBreak> {
    match column_type {
        ColumnBreakType::Page | ColumnBreakType::Section => Some(TemplateBreak::Page),
        ColumnBreakType::Column | ColumnBreakType::MultiColumn => Some(TemplateBreak::Column),
        ColumnBreakType::NoBreak => None,
    }
}

/// 단 나누기 종류가 템플릿에 남기는 나눔.
pub fn break_from_column_type(column_type: ColumnBreakType) -> (r: Option<TemplateBreak>)
    ensures
        r == break_from_column_type_spec(column_type),
{
    match column_type {
        ColumnBreakType::Page | ColumnBreakType::Section => Some(TemplateBreak::Page),
        ColumnBreakType::Column | ColumnBreakType::MultiColumn => Some(TemplateBreak::Column),
        ColumnBreakType::NoBreak => None,
    }
}

/// 밑줄이 있을 때만 그 이름, 없으면 빈 문자열.
pub fn non_default_underline_type(value: UnderlineType) -> (r: String)
    ensures
        r@ == (if value == UnderlineType::NoUnderline {
            Seq::empty()
        } else {
            underline_type_str_spec(value)
        }),
{
    match value {
        UnderlineType::NoUnderline => String::new(),
        _ => string_of(underline_type_str(value)),
    }
}

/// 표 레코드 속성: 아래 세 비트를 쪽 나눔 방식(1 셀, 2 행)과 제목 줄 반복(4)으로 바꾼다.
pub open spec fn table_record_attr_spec(base: u32, page_break: TablePageBreak, repeat_header: bool) -> u32 {
    let cleared = base & !0x07u32;
    let with_break = match page_break {
        TablePageBreak::CellBreak => cleared | 0x01u32,
        TablePageBreak::RowBreak => cleared | 0x02u32,
        TablePageBreak::NoBreak => cleared,
    };
    if repeat_header {
        with_break | 0x04u32
    } else {
        with_break
    }
}

/// 표 레코드 속성의 쪽 나눔/제목 줄 비트를 갱신한다.
pub fn table_record_attr(base: u32, page_break: TablePageBreak, repeat_header: bool) -> (r: u32)
    ensures
        r == table_record_attr_spec(base, page_break, repeat_header),
{
    let mut attr = base & !0x07u32;
    match page_break {
        TablePageBreak::CellBreak => attr = attr | 0x01,
        TablePageBreak::RowBreak => attr = attr | 0x02,
        TablePageBreak::NoBreak => {},
    }
    if repeat_header {
        attr = attr | 0x04;
    }
    attr
}

// ---------------------------------------------------------------------------
// Picture effects and shadows
// ---------------------------------------------------------------------------

/// 그림 효과의 템플릿 값 (원본 그림은 빈 문자열).
pub open spec fn picture_effect_template_value_spec(effect: ImageEffect) -> Seq<char> {
    match effect {
        ImageEffect::RealPic => Seq::empty(),
        ImageEffect::GrayScale => "gray_scale"@,
        ImageEffect::BlackWhite => "black_white"@,
        ImageEffect::Pattern8x8 => "pattern8x8"@,
    }
}

/// 그림 효과의 템플릿 값.
pub fn picture_effect_template_value(effect: ImageEffect) -> (r: String)
    ensures
        r@ == picture_effect_template_value_spec(effect),
{
    match effect {
        ImageEffect::RealPic => String::new(),
        ImageEffect::GrayScale => string_of("gray_scale"),
        ImageEffect::BlackWhite => string_of("black_white"),
        ImageEffect::Pattern8x8 => string_of("pattern8x8"),
    }
}

/// 템플릿 값의 그림 효과 (영숫자만 소문자로 비교; 모르는 값은 원본 그림).
pub open spec fn picture_effect_from_template_spec(value: Seq<char>) -> ImageEffect {
    let k = alnum_key_seq(value);
    if k == ""@ || k == "0"@ || k == "realpic"@ {
        ImageEffect::RealPic
    } else if k == "1"@ || k == "gray"@ || k == "grey"@ || k == "grayscale"@ || k == "greyscale"@ {
        ImageEffect::GrayScale
    } else if k == "2"@ || k == "blackwhite"@ || k == "bw"@ {
        ImageEffect::BlackWhite
    } else if k == "3"@ || k == "pattern8x8"@ || k == "pattern88"@ {
        ImageEffect::Pattern8x8
    } else {
        ImageEffect::RealPic
    }
}

/// 템플릿 값의 그림 효과.
pub fn picture_effect_from_template(value: &str) -> (r: ImageEffect)
    ensures
        r == picture_effect_from_template_spec(value@),
{
    let key_string = alnum_lower_key(value);
    let k = key_string.as_str();
    if str_eq(k, "") || str_eq(k, "0") || str_eq(k, "realpic") {
        ImageEffect::RealPic
    } else if str_eq(k, "1") || str_eq(k, "gray") || str_eq(k, "grey") || str_eq(k, "grayscale")
        || str_eq(k, "greyscale") {
        ImageEffect::GrayScale
    } else if str_eq(k, "2") || str_eq(k, "blackwhite") || str_eq(k, "bw") {
        ImageEffect::BlackWhite
    } else if str_eq(k, "3") || str_eq(k, "pattern8x8") || str_eq(k, "pattern88") {
        ImageEffect::Pattern8x8
    } else {
        ImageEffect::RealPic
    }
}

/// 그림자 종류 이름의 코드 (영숫자만 소문자로 비교).
pub open spec fn shape_shadow_type_from_name_spec(value: Seq<char>) -> Option<u32> {
    let k = alnum_key_seq(value);
    if k == ""@ || k == "0"@ || k == "none"@ {
        Some(0)
    } else if k == "1"@ || k == "lefttop"@ || k == "topleft"@ {
        Some(1)
    } else if k == "2"@ || k == "righttop"@ || k == "topright"@ {
        Some(2)
    } else if k == "3"@ || k == "leftbottom"@ || k == "bottomleft"@ {
        Some(3)
    } else if k == "4"@ || k == "rightbottom"@ || k == "bottomright"@ {
        Some(4)
    } else if k == "5"@ || k == "center"@ || k == "inside"@ || k == "outside"@ {
        Some(5)
    } else {
        None
    }
}

/// 그림자 종류 이름의 코드.
pub fn shape_shadow_type_from_name(value: &str) -> (r: Option<u32>)
    ensures
        r == shape_shadow_type_from_name_spec(value@),
{
    let key_string = alnum_lower_key(value);
    let k = key_string.as_str();
    if str_eq(k, "") || str_eq(k, "0") || str_eq(k, "none") {
        Some(0)
    } else if str_eq(k, "1") || str_eq(k, "lefttop") || str_eq(k, "topleft") {
        Some(1)
    } else if str_eq(k, "2") || str_eq(k, "righttop") || str_eq(k, "topright") {
        Some(2)
    } else if str_eq(k, "3") || str_eq(k, "leftbottom") || str_eq(k, "bottomleft") {
        Some(3)
    } else if str_eq(k, "4") || str_eq(k, "rightbottom") || str_eq(k, "bottomright") {
        Some(4)
    } else if str_eq(k, "5") || str_eq(k, "center") || str_eq(k, "inside") || str_eq(
        k,
        "outside",
    ) {
        Some(5)
    } else {
        None
    }
}

/// 첫 글자 장식 모양 이름: 비어 있거나 `NONE`이면 없음, 알려진 두 이름은 정규형으로,
/// 그 밖의 값은 다듬은 그대로.
pub open spec fn object_dropcap_style_from_name_spec(value: Seq<char>) -> Option<Seq<char>> {
    let trimmed = trim_seq(value);
    let k = layout_key_seq(trimmed);
    if trimmed.len() == 0 {
        None
    } else if k == "NONE"@ {
        None
    } else if k == "DOUBLELINE"@ {
        Some("DoubleLine"@)
    } else if k == "TRIPLELINE"@ {
        Some("TripleLine"@)
    } else {
        Some(trimmed)
    }
}

/// 첫 글자 장식 모양 이름을 읽는다.
pub fn object_dropcap_style_from_name(value: &str) -> (r: Option<String>)
    ensures
        match r {
            Some(s) => object_dropcap_style_from_name_spec(value@) == Some(s@),
            None => object_dropcap_style_from_name_spec(value@) is None,
        },
{
    let trimmed = trim_str(value);
    if trimmed.unicode_len() == 0 {
        return None;
    }
    let key_string = object_layout_enum_key(trimmed);
    let k = key_string.as_str();
    if str_eq(k, "NONE") {
        None
    } else if str_eq(k, "DOUBLELINE") {
        Some(string_of("DoubleLine"))
    } else if str_eq(k, "TRIPLELINE") {
        Some(string_of("TripleLine"))
    } else {
        Some(string_of(trimmed))
    }
}

// ---------------------------------------------------------------------------
// Enumeration names
// ---------------------------------------------------------------------------

/// 채우기 종류의 템플릿 이름.
pub open spec fn fill_type_name_spec(value: FillType) -> Seq<char> {
    match value {
        FillType::NoFill => "none"@,
        FillType::Solid => "solid"@,
        FillType::Image => "image"@,
        FillType::Gradient => "gradient"@,
    }
}

/// 채우기 종류의 템플릿 이름.
pub fn fill_type_name(value: FillType) -> (r: &'static str)
    ensures
        r@ == fill_type_name_spec(value),
{
    match value {
        FillType::NoFill => "none",
        FillType::Solid => "solid",
        FillType::Image => "image",
        FillType::Gradient => "gradient",
    }
}

/// 테두리 선 종류의 템플릿 이름.
pub open spec fn border_line_type_name_spec(value: BorderLineType) -> Seq<char> {
    match value {
        BorderLineType::NoLine => "none"@,
        BorderLineType::Solid => "solid"@,
        BorderLineType::Dash => "dash"@,
        BorderLineType::Dot => "dot"@,
        BorderLineType::DashDot => "dash_dot"@,
        BorderLineType::DashDotDot => "dash_dot_dot"@,
        BorderLineType::LongDash => "long_dash"@,
        BorderLineType::Circle => "circle"@,
        BorderLineType::Double => "double"@,
        BorderLineType::ThinThickDouble => "thin_thick_double"@,
        BorderLineType::ThickThinDouble => "thick_thin_double"@,
        BorderLineType::ThinThickThinTriple => "thin_thick_thin_triple"@,
        BorderLineType::Wave => "wave"@,
        BorderLineType::DoubleWave => "double_wave"@,
        BorderLineType::Thick3D => "thick_3d"@,
        BorderLineType::Thick3DReverse => "thick_3d_reverse"@,
        BorderLineType::Thin3D => "thin_3d"@,
        BorderLineType::Thin3DReverse => "thin_3d_reverse"@,
    }
}

/// 테두리 선 종류의 템플릿 이름.
pub fn border_line_type_name(value: BorderLineType) -> (r: &'static str)
    ensures
        r@ == border_line_type_name_spec(value),
{
    match value {
        BorderLineType::NoLine => "none",
        BorderLineType::Solid => "solid",
        BorderLineType::Dash => "dash",
        BorderLineType::Dot => "dot",
        BorderLineType::DashDot => "dash_dot",
        BorderLineType::DashDotDot => "dash_dot_dot",
        BorderLineType::LongDash => "long_dash",
        BorderLineType::Circle => "circle",
        BorderLineType::Double => "double",
        BorderLineType::ThinThickDouble => "thin_thick_double",
        BorderLineType::ThickThinDouble => "thick_thin_double",
        BorderLineType::ThinThickThinTriple => "thin_thick_thin_triple",
        BorderLineType::Wave => "wave",
        BorderLineType::DoubleWave => "double_wave",
        BorderLineType::Thick3D => "thick_3d",
        BorderLineType::Thick3DReverse => "thick_3d_reverse",
        BorderLineType::Thin3D => "thin_3d",
        BorderLineType::Thin3DReverse => "thin_3d_reverse",
    }
}

/// 그림 채우기 방식의 템플릿 이름.
pub open spec fn image_fill_mode_name_spec(value: ImageFillMode) -> Seq<char> {
    match value {
        ImageFillMode::TileAll => "tile_all"@,
        ImageFillMode::TileHorzTop => "tile_horz_top"@,
        ImageFillMode::TileHorzBottom => "tile_horz_bottom"@,
        ImageFillMode::TileVertLeft => "tile_vert_left"@,
        ImageFillMode::TileVertRight => "tile_vert_right"@,
        ImageFillMode::FitToSize => "fit_to_size"@,
        ImageFillMode::Center => "center"@,
        ImageFillMode::CenterTop => "center_top"@,
        ImageFillMode::CenterBottom => "center_bottom"@,
        ImageFillMode::LeftCenter => "left_center"@,
        ImageFillMode::LeftTop => "left_top"@,
        ImageFillMode::LeftBottom => "left_bottom"@,
        ImageFillMode::RightCenter => "right_center"@,
        ImageFillMode::RightTop => "right_top"@,
        ImageFillMode::RightBottom => "right_bottom"@,
        ImageFillMode::Unset => "none"@,
    }
}

/// 그림 채우기 방식의 템플릿 이름.
pub fn image_fill_mode_name(value: ImageFillMode) -> (r: &'static str)
    ensures
        r@ == image_fill_mode_name_spec(value),
{
    match value {
        ImageFillMode::TileAll => "tile_all",
        ImageFillMode::TileHorzTop => "tile_horz_top",
        ImageFillMode::TileHorzBottom => "tile_horz_bottom",
        ImageFillMode::TileVertLeft => "tile_vert_left",
        ImageFillMode::TileVertRight => "tile_vert_right",
        ImageFillMode::FitToSize => "fit_to_size",
        ImageFillMode::Center => "center",
        ImageFillMode::CenterTop => "center_top",
        ImageFillMode::CenterBottom => "center_bottom",
        ImageFillMode::LeftCenter => "left_center",
        ImageFillMode::LeftTop => "left_top",
        ImageFillMode::LeftBottom => "left_bottom",
        ImageFillMode::RightCenter => "right_center",
        ImageFillMode::RightTop => "right_top",
        ImageFillMode::RightBottom => "right_bottom",
        ImageFillMode::Unset => "none",
    }
}

/// 각주 번호 모양의 템플릿 이름.
pub open spec fn footnote_number_format_name_spec(value: NumberFormat) -> Seq<char> {
    match value {
        NumberFormat::Digit => "digit"@,
        NumberFormat::CircledDigit => "circledDigit"@,
        NumberFormat::UpperRoman => "upperRoman"@,
        NumberFormat::LowerRoman => "lowerRoman"@,
        NumberFormat::UpperAlpha => "upperAlpha"@,
        NumberFormat::LowerAlpha => "lowerAlpha"@,
        NumberFormat::CircledUpperAlpha => "circledUpperAlpha"@,
        NumberFormat::CircledLowerAlpha => "circledLowerAlpha"@,
        NumberFormat::HangulSyllable => "hangulSyllable"@,
        NumberFormat::CircledHangulSyllable => "circledHangulSyllable"@,
        NumberFormat::HangulJamo => "hangulJamo"@,
        NumberFormat::CircledHangulJamo => "circledHangulJamo"@,
        NumberFormat::HangulDigit => "hangulDigit"@,
        NumberFormat::HanjaDigit => "hanjaDigit"@,
        NumberFormat::CircledHanjaDigit => "circledHanjaDigit"@,
        NumberFormat::HanjaGapEul => "hanjaGapEul"@,
        NumberFormat::HanjaGapEulHanja => "hanjaGapEulHanja"@,
        NumberFormat::FourSymbol => "fourSymbol"@,
        NumberFormat::UserChar => "userChar"@,
    }
}

/// 각주 번호 모양의 템플릿 이름.
pub fn footnote_number_format_name(value: NumberFormat) -> (r: &'static str)
    ensures
        r@ == footnote_number_format_name_spec(value),
{
    match value {
        NumberFormat::Digit => "digit",
        NumberFormat::CircledDigit => "circledDigit",
        NumberFormat::UpperRoman => "upperRoman",
        NumberFormat::LowerRoman => "lowerRoman",
        NumberFormat::UpperAlpha => "upperAlpha",
        NumberFormat::LowerAlpha => "lowerAlpha",
        NumberFormat::CircledUpperAlpha => "circledUpperAlpha",
        NumberFormat::CircledLowerAlpha => "circledLowerAlpha",
        NumberFormat::HangulSyllable => "hangulSyllable",
        NumberFormat::CircledHangulSyllable => "circledHangulSyllable",
        NumberFormat::HangulJamo => "hangulJamo",
        NumberFormat::CircledHangulJamo => "circledHangulJamo",
        NumberFormat::HangulDigit => "hangulDigit",
        NumberFormat::HanjaDigit => "hanjaDigit",
        NumberFormat::CircledHanjaDigit => "circledHanjaDigit",
        NumberFormat::HanjaGapEul => "hanjaGapEul",
        NumberFormat::HanjaGapEulHanja => "hanjaGapEulHanja",
        NumberFormat::FourSymbol => "fourSymbol",
        NumberFormat::UserChar => "userChar",
    }
}

/// 각주 번호 매기기의 템플릿 이름.
pub open spec fn footnote_numbering_name_spec(value: FootnoteNumbering) -> Seq<char> {
    match value {
        FootnoteNumbering::Continue => "continue"@,
        FootnoteNumbering::RestartSection => "restartSection"@,
        FootnoteNumbering::RestartPage => "restartPage"@,
    }
}

/// 각주 번호 매기기의 템플릿 이름.
pub fn footnote_numbering_name(value: FootnoteNumbering) -> (r: &'static str)
    ensures
        r@ == footnote_numbering_name_spec(value),
{
    match value {
        FootnoteNumbering::Continue => "continue",
        FootnoteNumbering::RestartSection => "restartSection",
        FootnoteNumbering::RestartPage => "restartPage",
    }
}

/// 각주 배치의 템플릿 이름.
pub open spec fn footnote_placement_name_spec(value: FootnotePlacement) -> Seq<char> {
    match value {
        FootnotePlacement::EachColumn => "documentEnd"@,
        FootnotePlacement::BelowText => "sectionEnd"@,
        FootnotePlacement::RightColumn => "rightColumn"@,
    }
}

/// 각주 배치의 템플릿 이름.
pub fn footnote_placement_name(value: FootnotePlacement) -> (r: &'static str)
    ensures
        r@ == footnote_placement_name_spec(value),
{
    match value {
        FootnotePlacement::EachColumn => "documentEnd",
        FootnotePlacement::BelowText => "sectionEnd",
        FootnotePlacement::RightColumn => "rightColumn",
    }
}

/// 밑줄 위치의 이름.
pub open spec fn underline_type_str_spec(value: UnderlineType) -> Seq<char> {
    match value {
        UnderlineType::Bottom => "Bottom"@,
        UnderlineType::Top => "Top"@,
        UnderlineType::NoUnderline => "None"@,
    }
}

/// 밑줄 위치의 이름.
pub fn underline_type_str(value: UnderlineType) -> (r: &'static str)
    ensures
        r@ == underline_type_str_spec(value),
{
    match value {
        UnderlineType::Bottom => "Bottom",
        UnderlineType::Top => "Top",
        UnderlineType::NoUnderline => "None",
    }
}

/// 문단 정렬의 템플릿 이름 (`split`은 `justify`로 적는다).
pub open spec fn alignment_str_spec(value: Alignment) -> Seq<char> {
    match value {
        Alignment::Left => "left"@,
        Alignment::Right => "right"@,
        Alignment::Center => "center"@,
        Alignment::Distribute => "distribute"@,
        Alignment::Justify => "justify"@,
        Alignment::Split => "justify"@,
    }
}

/// 문단 정렬의 템플릿 이름 (`split`은 `justify`로 적는다).
pub fn alignment_str(value: Alignment) -> (r: &'static str)
    ensures
        r@ == alignment_str_spec(value),
{
    match value {
        Alignment::Left => "left",
        Alignment::Right => "right",
        Alignment::Center => "center",
        Alignment::Distribute => "distribute",
        Alignment::Justify => "justify",
        Alignment::Split => "justify",
    }
}

/// 셀 세로 정렬의 템플릿 이름.
pub open spec fn vertical_align_name_spec(value: VerticalAlign) -> Seq<char> {
    match value {
        VerticalAlign::Top => "top"@,
        VerticalAlign::Center => "center"@,
        VerticalAlign::Bottom => "bottom"@,
    }
}

/// 셀 세로 정렬의 템플릿 이름.
pub fn vertical_align_name(value: VerticalAlign) -> (r: &'static str)
    ensures
        r@ == vertical_align_name_spec(value),
{
    match value {
        VerticalAlign::Top => "top",
        VerticalAlign::Center => "center",
        VerticalAlign::Bottom => "bottom",
    }
}

/// 개체 세로 기준의 템플릿 이름.
pub open spec fn vert_rel_to_name_spec(value: VertRelTo) -> Seq<char> {
    match value {
        VertRelTo::Paper => "paper"@,
        VertRelTo::Page => "page"@,
        VertRelTo::Para => "para"@,
    }
}

/// 개체 세로 기준의 템플릿 이름.
pub fn vert_rel_to_name(value: VertRelTo) -> (r: &'static str)
    ensures
        r@ == vert_rel_to_name_spec(value),
{
    match value {
        VertRelTo::Paper => "paper",
        VertRelTo::Page => "page",
        VertRelTo::Para => "para",
    }
}

/// 개체 세로 정렬의 템플릿 이름.
pub open spec fn obj_vert_align_name_spec(value: VertAlign) -> Seq<char> {
    match value {
        VertAlign::Top => "top"@,
        VertAlign::Center => "center"@,
        VertAlign::Bottom => "bottom"@,
        VertAlign::Inside => "inside"@,
        VertAlign::Outside => "outside"@,
    }
}

/// 개체 세로 정렬의 템플릿 이름.
pub fn obj_vert_align_name(value: VertAlign) -> (r: &'static str)
    ensures
        r@ == obj_vert_align_name_spec(value),
{
    match value {
        VertAlign::Top => "top",
        VertAlign::Center => "center",
        VertAlign::Bottom => "bottom",
        VertAlign::Inside => "inside",
        VertAlign::Outside => "outside",
    }
}

/// 개체 가로 기준의 템플릿 이름.
pub open spec fn horz_rel_to_name_spec(value: HorzRelTo) -> Seq<char> {
    match value {
        HorzRelTo::Paper => "paper"@,
        HorzRelTo::Page => "page"@,
        HorzRelTo::Column => "column"@,
        HorzRelTo::Para => "para"@,
    }
}

/// 개체 가로 기준의 템플릿 이름.
pub fn horz_rel_to_name(value: HorzRelTo) -> (r: &'static str)
    ensures
        r@ == horz_rel_to_name_spec(value),
{
    match value {
        HorzRelTo::Paper => "paper",
        HorzRelTo::Page => "page",
        HorzRelTo::Column => "column",
        HorzRelTo::Para => "para",
    }
}

/// 개체 가로 정렬의 템플릿 이름.
pub open spec fn obj_horz_align_name_spec(value: HorzAlign) -> Seq<char> {
    match value {
        HorzAlign::Left => "left"@,
        HorzAlign::Center => "center"@,
        HorzAlign::Right => "right"@,
        HorzAlign::Inside => "inside"@,
        HorzAlign::Outside => "outside"@,
    }
}

/// 개체 가로 정렬의 템플릿 이름.
pub fn obj_horz_align_name(value: HorzAlign) -> (r: &'static str)
    ensures
        r@ == obj_horz_align_name_spec(value),
{
    match value {
        HorzAlign::Left => "left",
        HorzAlign::Center => "center",
        HorzAlign::Right => "right",
        HorzAlign::Inside => "inside",
        HorzAlign::Outside => "outside",
    }
}

/// 본문과의 배치의 템플릿 이름.
pub open spec fn text_wrap_name_spec(value: TextWrap) -> Seq<char> {
    match value {
        TextWrap::Square => "square"@,
        TextWrap::Tight => "tight"@,
        TextWrap::Through => "through"@,
        TextWrap::TopAndBottom => "top_and_bottom"@,
        TextWrap::BehindText => "behind_text"@,
        TextWrap::InFrontOfText => "in_front_of_text"@,
    }
}

/// 본문과의 배치의 템플릿 이름.
pub fn text_wrap_name(value: TextWrap) -> (r: &'static str)
    ensures
        r@ == text_wrap_name_spec(value),
{
    match value {
        TextWrap::Square => "square",
        TextWrap::Tight => "tight",
        TextWrap::Through => "through",
        TextWrap::TopAndBottom => "top_and_bottom",
        TextWrap::BehindText => "behind_text",
        TextWrap::InFrontOfText => "in_front_of_text",
    }
}

/// 텍스트 흐름의 템플릿 이름.
pub open spec fn text_flow_name_spec(value: TextFlow) -> Seq<char> {
    match value {
        TextFlow::BothSides => "both_sides"@,
        TextFlow::LeftOnly => "left_only"@,
        TextFlow::RightOnly => "right_only"@,
        TextFlow::LargestOnly => "largest_only"@,
    }
}

/// 텍스트 흐름의 템플릿 이름.
pub fn text_flow_name(value: TextFlow) -> (r: &'static str)
    ensures
        r@ == text_flow_name_spec(value),
{
    match value {
        TextFlow::BothSides => "both_sides",
        TextFlow::LeftOnly => "left_only",
        TextFlow::RightOnly => "right_only",
        TextFlow::LargestOnly => "largest_only",
    }
}

/// 크기 기준의 템플릿 이름.
pub open spec fn size_criterion_name_spec(value: SizeCriterion) -> Seq<char> {
    match value {
        SizeCriterion::Paper => "paper"@,
        SizeCriterion::Page => "page"@,
        SizeCriterion::Column => "column"@,
        SizeCriterion::Para => "para"@,
        SizeCriterion::Absolute => "absolute"@,
    }
}

/// 크기 기준의 템플릿 이름.
pub fn size_criterion_name(value: SizeCriterion) -> (r: &'static str)
    ensures
        r@ == size_criterion_name_spec(value),
{
    match value {
        SizeCriterion::Paper => "paper",
        SizeCriterion::Page => "page",
        SizeCriterion::Column => "column",
        SizeCriterion::Para => "para",
        SizeCriterion::Absolute => "absolute",
    }
}

/// 개체 번호 종류의 템플릿 이름.
pub open spec fn object_numbering_type_name_spec(value: ObjectNumberingType) -> Seq<char> {
    match value {
        ObjectNumberingType::NoNumbering => "none"@,
        ObjectNumberingType::Picture => "picture"@,
        ObjectNumberingType::Table => "table"@,
        ObjectNumberingType::Equation => "equation"@,
    }
}

/// 개체 번호 종류의 템플릿 이름.
pub fn object_numbering_type_name(value: ObjectNumberingType) -> (r: &'static str)
    ensures
        r@ == object_numbering_type_name_spec(value),
{
    match value {
        ObjectNumberingType::NoNumbering => "none",
        ObjectNumberingType::Picture => "picture",
        ObjectNumberingType::Table => "table",
        ObjectNumberingType::Equation => "equation",
    }
}

/// 캡션 방향의 템플릿 이름.
pub open spec fn caption_direction_name_spec(value: CaptionDirection) -> Seq<char> {
    match value {
        CaptionDirection::Left => "left"@,
        CaptionDirection::Right => "right"@,
        CaptionDirection::Top => "top"@,
        CaptionDirection::Bottom => "bottom"@,
    }
}

/// 캡션 방향의 템플릿 이름.
pub fn caption_direction_name(value: CaptionDirection) -> (r: &'static str)
    ensures
        r@ == caption_direction_name_spec(value),
{
    match value {
        CaptionDirection::Left => "left",
        CaptionDirection::Right => "right",
        CaptionDirection::Top => "top",
        CaptionDirection::Bottom => "bottom",
    }
}

/// 캡션 세로 정렬의 템플릿 이름.
pub open spec fn caption_vert_align_name_spec(value: CaptionVertAlign) -> Seq<char> {
    match value {
        CaptionVertAlign::Top => "top"@,
        CaptionVertAlign::Center => "center"@,
        CaptionVertAlign::Bottom => "bottom"@,
    }
}

/// 캡션 세로 정렬의 템플릿 이름.
pub fn caption_vert_align_name(value: CaptionVertAlign) -> (r: &'static str)
    ensures
        r@ == caption_vert_align_name_spec(value),
{
    match value {
        CaptionVertAlign::Top => "top",
        CaptionVertAlign::Center => "center",
        CaptionVertAlign::Bottom => "bottom",
    }
}

/// 표 쪽 나눔의 템플릿 이름.
pub open spec fn table_page_break_name_spec(value: TablePageBreak) -> Seq<char> {
    match value {
        TablePageBreak::NoBreak => "none"@,
        TablePageBreak::CellBreak => "cell"@,
        TablePageBreak::RowBreak => "row"@,
    }
}

/// 표 쪽 나눔의 템플릿 이름.
pub fn table_page_break_name(value: TablePageBreak) -> (r: &'static str)
    ensures
        r@ == table_page_break_name_spec(value),
{
    match value {
        TablePageBreak::NoBreak => "none",
        TablePageBreak::CellBreak => "cell",
        TablePageBreak::RowBreak => "row",
    }
}

/// 줄 간격 종류의 템플릿 이름.
pub open spec fn line_spacing_type_str_spec(value: LineSpacingType) -> Seq<char> {
    match value {
        LineSpacingType::Fixed => "Fixed"@,
        LineSpacingType::SpaceOnly => "SpaceOnly"@,
        LineSpacingType::Minimum => "Minimum"@,
        LineSpacingType::Percent => "Percent"@,
    }
}

/// 줄 간격 종류의 템플릿 이름.
pub fn line_spacing_type_str(value: LineSpacingType) -> (r: &'static str)
    ensures
        r@ == line_spacing_type_str_spec(value),
{
    match value {
        LineSpacingType::Fixed => "Fixed",
        LineSpacingType::SpaceOnly => "SpaceOnly",
        LineSpacingType::Minimum => "Minimum",
        LineSpacingType::Percent => "Percent",
    }
}

/// 문단 머리 종류의 템플릿 이름.
pub open spec fn head_type_name_spec(value: HeadType) -> Seq<char> {
    match value {
        HeadType::Outline => "outline"@,
        HeadType::Number => "number"@,
        HeadType::Bullet => "bullet"@,
        HeadType::NoHead => "none"@,
    }
}

/// 문단 머리 종류의 템플릿 이름.
pub fn head_type_name(value: HeadType) -> (r: &'static str)
    ensures
        r@ == head_type_name_spec(value),
{
    match value {
        HeadType::Outline => "outline",
        HeadType::Number => "number",
        HeadType::Bullet => "bullet",
        HeadType::NoHead => "none",
    }
}

/// 템플릿 이름의 채우기 종류 (모르는 이름은 채우기 없음).
pub open spec fn fill_type_from_name_spec(value: Seq<char>) -> FillType {
    if value == "solid"@ || value == "SOLID"@ {
        FillType::Solid
    } else if value == "image"@ || value == "IMAGE"@ {
        FillType::Image
    } else if value == "gradient"@ || value == "GRADIENT"@ {
        FillType::Gradient
    } else {
        FillType::NoFill
    }
}

/// 템플릿 이름의 채우기 종류 (모르는 이름은 채우기 없음).
pub fn fill_type_from_name(value: &str) -> (r: FillType)
    ensures
        r == fill_type_from_name_spec(value@),
{
    if str_eq(value, "solid") || str_eq(value, "SOLID") {
        FillType::Solid
    } else if str_eq(value, "image") || str_eq(value, "IMAGE") {
        FillType::Image
    } else if str_eq(value, "gradient") || str_eq(value, "GRADIENT") {
        FillType::Gradient
    } else {
        FillType::NoFill
    }
}

/// 템플릿/HWPX 이름의 테두리 선 종류 (모르는 이름은 실선).
pub open spec fn border_line_type_from_name_spec(value: Seq<char>) -> BorderLineType {
    if value == "none"@ || value == "NONE"@ {
        BorderLineType::NoLine
    } else if value == "solid"@ || value == "SOLID"@ {
        BorderLineType::Solid
    } else if value == "dash"@ || value == "DASH"@ {
        BorderLineType::Dash
    } else if value == "dot"@ || value == "DOT"@ {
        BorderLineType::Dot
    } else if value == "dash_dot"@ || value == "DASH_DOT"@ {
        BorderLineType::DashDot
    } else if value == "dash_dot_dot"@ || value == "DASH_DOT_DOT"@ {
        BorderLineType::DashDotDot
    } else if value == "long_dash"@ || value == "LONG_DASH"@ {
        BorderLineType::LongDash
    } else if value == "circle"@ || value == "CIRCLE"@ {
        BorderLineType::Circle
    } else if value == "double"@ || value == "DOUBLE"@ || value == "DOUBLE_SLIM"@ {
        BorderLineType::Double
    } else if value == "thin_thick_double"@ || value == "SLIM_THICK"@ {
        BorderLineType::ThinThickDouble
    } else if value == "thick_thin_double"@ || value == "THICK_SLIM"@ {
        BorderLineType::ThickThinDouble
    } else if value == "thin_thick_thin_triple"@ || value == "SLIM_THICK_SLIM"@ {
        BorderLineType::ThinThickThinTriple
    } else if value == "wave"@ || value == "WAVE"@ {
        BorderLineType::Wave
    } else if value == "double_wave"@ || value == "DOUBLE_WAVE"@ {
        BorderLineType::DoubleWave
    } else if value == "thick_3d"@ || value == "THICK_3D"@ {
        BorderLineType::Thick3D
    } else if value == "thick_3d_reverse"@ || value == "THICK_3D_REVERSE"@ {
        BorderLineType::Thick3DReverse
    } else if value == "thin_3d"@ || value == "THIN_3D"@ {
        BorderLineType::Thin3D
    } else if value == "thin_3d_reverse"@ || value == "THIN_3D_REVERSE"@ {
        BorderLineType::Thin3DReverse
    } else {
        BorderLineType::Solid
    }
}

/// 템플릿/HWPX 이름의 테두리 선 종류 (모르는 이름은 실선).
pub fn border_line_type_from_name(value: &str) -> (r: BorderLineType)
    ensures
        r == border_line_type_from_name_spec(value@),
{
    if str_eq(value, "none") || str_eq(value, "NONE") {
        BorderLineType::NoLine
    } else if str_eq(value, "solid") || str_eq(value, "SOLID") {
        BorderLineType::Solid
    } else if str_eq(value, "dash") || str_eq(value, "DASH") {
        BorderLineType::Dash
    } else if str_eq(value, "dot") || str_eq(value, "DOT") {
        BorderLineType::Dot
    } else if str_eq(value, "dash_dot") || str_eq(value, "DASH_DOT") {
        BorderLineType::DashDot
    } else if str_eq(value, "dash_dot_dot") || str_eq(value, "DASH_DOT_DOT") {
        BorderLineType::DashDotDot
    } else if str_eq(value, "long_dash") || str_eq(value, "LONG_DASH") {
        BorderLineType::LongDash
    } else if str_eq(value, "circle") || str_eq(value, "CIRCLE") {
        BorderLineType::Circle
    } else if str_eq(value, "double") || str_eq(value, "DOUBLE") || str_eq(value, "DOUBLE_SLIM") {
        BorderLineType::Double
    } else if str_eq(value, "thin_thick_double") || str_eq(value, "SLIM_THICK") {
        BorderLineType::ThinThickDouble
    } else if str_eq(value, "thick_thin_double") || str_eq(value, "THICK_SLIM") {
        BorderLineType::ThickThinDouble
    } else if str_eq(value, "thin_thick_thin_triple") || str_eq(value, "SLIM_THICK_SLIM") {
        BorderLineType::ThinThickThinTriple
    } else if str_eq(value, "wave") || str_eq(value, "WAVE") {
        BorderLineType::Wave
    } else if str_eq(value, "double_wave") || str_eq(value, "DOUBLE_WAVE") {
        BorderLineType::DoubleWave
    } else if str_eq(value, "thick_3d") || str_eq(value, "THICK_3D") {
        BorderLineType::Thick3D
    } else if str_eq(value, "thick_3d_reverse") || str_eq(value, "THICK_3D_REVERSE") {
        BorderLineType::Thick3DReverse
    } else if str_eq(value, "thin_3d") || str_eq(value, "THIN_3D") {
        BorderLineType::Thin3D
    } else if str_eq(value, "thin_3d_reverse") || str_eq(value, "THIN_3D_REVERSE") {
        BorderLineType::Thin3DReverse
    } else {
        BorderLineType::Solid
    }
}

/// 템플릿/HWPX 이름의 그림 채우기 방식 (모르는 이름은 바둑판).
pub open spec fn image_fill_mode_from_name_spec(value: Seq<char>) -> ImageFillMode {
    if value == "tile_all"@ || value == "TILE"@ || value == "TILE_ALL"@ {
        ImageFillMode::TileAll
    } else if value == "tile_horz_top"@ || value == "TILE_HORZ_TOP"@ {
        ImageFillMode::TileHorzTop
    } else if value == "tile_horz_bottom"@ || value == "TILE_HORZ_BOTTOM"@ {
        ImageFillMode::TileHorzBottom
    } else if value == "tile_vert_left"@ || value == "TILE_VERT_LEFT"@ {
        ImageFillMode::TileVertLeft
    } else if value == "tile_vert_right"@ || value == "TILE_VERT_RIGHT"@ {
        ImageFillMode::TileVertRight
    } else if value == "fit_to_size"@ || value == "FIT"@ || value == "FIT_TO_SIZE"@ {
        ImageFillMode::FitToSize
    } else if value == "center"@ || value == "CENTER"@ {
        ImageFillMode::Center
    } else if value == "center_top"@ || value == "CENTER_TOP"@ {
        ImageFillMode::CenterTop
    } else if value == "center_bottom"@ || value == "CENTER_BOTTOM"@ {
        ImageFillMode::CenterBottom
    } else if value == "left_center"@ || value == "LEFT_CENTER"@ {
        ImageFillMode::LeftCenter
    } else if value == "left_top"@ || value == "LEFT_TOP"@ || value == "TOP_LEFT_ALIGN"@ {
        ImageFillMode::LeftTop
    } else if value == "left_bottom"@ || value == "LEFT_BOTTOM"@ {
        ImageFillMode::LeftBottom
    } else if value == "right_center"@ || value == "RIGHT_CENTER"@ {
        ImageFillMode::RightCenter
    } else if value == "right_top"@ || value == "RIGHT_TOP"@ {
        ImageFillMode::RightTop
    } else if value == "right_bottom"@ || value == "RIGHT_BOTTOM"@ {
        ImageFillMode::RightBottom
    } else if value == "none"@ || value == "NONE"@ {
        ImageFillMode::Unset
    } else {
        ImageFillMode::TileAll
    }
}

/// 템플릿/HWPX 이름의 그림 채우기 방식 (모르는 이름은 바둑판).
pub fn image_fill_mode_from_name(value: &str) -> (r: ImageFillMode)
    ensures
        r == image_fill_mode_from_name_spec(value@),
{
    if str_eq(value, "tile_all") || str_eq(value, "TILE") || str_eq(value, "TILE_ALL") {
        ImageFillMode::TileAll
    } else if str_eq(value, "tile_horz_top") || str_eq(value, "TILE_HORZ_TOP") {
        ImageFillMode::TileHorzTop
    } else if str_eq(value, "tile_horz_bottom") || str_eq(value, "TILE_HORZ_BOTTOM") {
        ImageFillMode::TileHorzBottom
    } else if str_eq(value, "tile_vert_left") || str_eq(value, "TILE_VERT_LEFT") {
        ImageFillMode::TileVertLeft
    } else if str_eq(value, "tile_vert_right") || str_eq(value, "TILE_VERT_RIGHT") {
        ImageFillMode::TileVertRight
    } else if str_eq(value, "fit_to_size") || str_eq(value, "FIT") || str_eq(value, "FIT_TO_SIZE") {
        ImageFillMode::FitToSize
    } else if str_eq(value, "center") || str_eq(value, "CENTER") {
        ImageFillMode::Center
    } else if str_eq(value, "center_top") || str_eq(value, "CENTER_TOP") {
        ImageFillMode::CenterTop
    } else if str_eq(value, "center_bottom") || str_eq(value, "CENTER_BOTTOM") {
        ImageFillMode::CenterBottom
    } else if str_eq(value, "left_center") || str_eq(value, "LEFT_CENTER") {
        ImageFillMode::LeftCenter
    } else if str_eq(value, "left_top") || str_eq(value, "LEFT_TOP") || str_eq(value, "TOP_LEFT_ALIGN") {
        ImageFillMode::LeftTop
    } else if str_eq(value, "left_bottom") || str_eq(value, "LEFT_BOTTOM") {
        ImageFillMode::LeftBottom
    } else if str_eq(value, "right_center") || str_eq(value, "RIGHT_CENTER") {
        ImageFillMode::RightCenter
    } else if str_eq(value, "right_top") || str_eq(value, "RIGHT_TOP") {
        ImageFillMode::RightTop
    } else if str_eq(value, "right_bottom") || str_eq(value, "RIGHT_BOTTOM") {
        ImageFillMode::RightBottom
    } else if str_eq(value, "none") || str_eq(value, "NONE") {
        ImageFillMode::Unset
    } else {
        ImageFillMode::TileAll
    }
}

/// 템플릿/HWPX 이름의 각주 번호 매기기 (모르는 이름은 `fallback`).
pub open spec fn footnote_numbering_from_str_spec(value: Seq<char>, fallback: FootnoteNumbering) -> FootnoteNumbering {
    if value == "continue"@ || value == "CONTINUOUS"@ || value == "continuous"@ {
        FootnoteNumbering::Continue
    } else if value == "restartSection"@ || value == "ON_SECTION"@ || value == "RESTART_SECTION"@ || value == "onSection"@ {
        FootnoteNumbering::RestartSection
    } else if value == "restartPage"@ || value == "ON_PAGE"@ || value == "RESTART_PAGE"@ || value == "onPage"@ {
        FootnoteNumbering::RestartPage
    } else {
        fallback
    }
}

/// 템플릿/HWPX 이름의 각주 번호 매기기 (모르는 이름은 `fallback`).
pub fn footnote_numbering_from_str(value: &str, fallback: FootnoteNumbering) -> (r: FootnoteNumbering)
    ensures
        r == footnote_numbering_from_str_spec(value@, fallback),
{
    if str_eq(value, "continue") || str_eq(value, "CONTINUOUS") || str_eq(value, "continuous") {
        FootnoteNumbering::Continue
    } else if str_eq(value, "restartSection") || str_eq(value, "ON_SECTION") || str_eq(value, "RESTART_SECTION") || str_eq(value, "onSection") {
        FootnoteNumbering::RestartSection
    } else if str_eq(value, "restartPage") || str_eq(value, "ON_PAGE") || str_eq(value, "RESTART_PAGE") || str_eq(value, "onPage") {
        FootnoteNumbering::RestartPage
    } else {
        fallback
    }
}

/// 템플릿/HWPX 이름의 각주 배치 (모르는 이름은 `fallback`).
pub open spec fn footnote_placement_from_str_spec(value: Seq<char>, fallback: FootnotePlacement) -> FootnotePlacement {
    if value == "documentEnd"@ || value == "eachColumn"@ {
        FootnotePlacement::EachColumn
    } else if value == "sectionEnd"@ || value == "belowText"@ {
        FootnotePlacement::BelowText
    } else if value == "rightColumn"@ {
        FootnotePlacement::RightColumn
    } else {
        fallback
    }
}

/// 템플릿/HWPX 이름의 각주 배치 (모르는 이름은 `fallback`).
pub fn footnote_placement_from_str(value: &str, fallback: FootnotePlacement) -> (r: FootnotePlacement)
    ensures
        r == footnote_placement_from_str_spec(value@, fallback),
{
    if str_eq(value, "documentEnd") || str_eq(value, "eachColumn") {
        FootnotePlacement::EachColumn
    } else if str_eq(value, "sectionEnd") || str_eq(value, "belowText") {
        FootnotePlacement::BelowText
    } else if str_eq(value, "rightColumn") {
        FootnotePlacement::RightColumn
    } else {
        fallback
    }
}

/// 템플릿 이름의 밑줄 위치 (모르는 이름은 밑줄 없음).
pub open spec fn underline_type_from_template_spec(value: Seq<char>) -> UnderlineType {
    if value == "Bottom"@ || value == "bottom"@ || value == "BOTTOM"@ || value == "1"@ {
        UnderlineType::Bottom
    } else if value == "Top"@ || value == "top"@ || value == "TOP"@ || value == "3"@ {
        UnderlineType::Top
    } else {
        UnderlineType::NoUnderline
    }
}

/// 템플릿 이름의 밑줄 위치 (모르는 이름은 밑줄 없음).
pub fn underline_type_from_template(value: &str) -> (r: UnderlineType)
    ensures
        r == underline_type_from_template_spec(value@),
{
    if str_eq(value, "Bottom") || str_eq(value, "bottom") || str_eq(value, "BOTTOM") || str_eq(value, "1") {
        UnderlineType::Bottom
    } else if str_eq(value, "Top") || str_eq(value, "top") || str_eq(value, "TOP") || str_eq(value, "3") {
        UnderlineType::Top
    } else {
        UnderlineType::NoUnderline
    }
}

/// 템플릿 이름의 문단 정렬 (모르는 이름은 양쪽 정렬).
pub open spec fn template_alignment_spec(value: Seq<char>) -> Alignment {
    if value == "left"@ {
        Alignment::Left
    } else if value == "right"@ {
        Alignment::Right
    } else if value == "center"@ {
        Alignment::Center
    } else if value == "distribute"@ {
        Alignment::Distribute
    } else if value == "split"@ {
        Alignment::Split
    } else {
        Alignment::Justify
    }
}

/// 템플릿 이름의 문단 정렬 (모르는 이름은 양쪽 정렬).
pub fn template_alignment(value: &str) -> (r: Alignment)
    ensures
        r == template_alignment_spec(value@),
{
    if str_eq(value, "left") {
        Alignment::Left
    } else if str_eq(value, "right") {
        Alignment::Right
    } else if str_eq(value, "center") {
        Alignment::Center
    } else if str_eq(value, "distribute") {
        Alignment::Distribute
    } else if str_eq(value, "split") {
        Alignment::Split
    } else {
        Alignment::Justify
    }
}

/// 템플릿 이름의 셀 세로 정렬 (모르는 이름은 위).
pub open spec fn vertical_align_from_name_spec(value: Seq<char>) -> VerticalAlign {
    if value == "bottom"@ || value == "BOTTOM"@ || value == "2"@ {
        VerticalAlign::Bottom
    } else if value == "center"@ || value == "middle"@ || value == "CENTER"@ || value == "MIDDLE"@ || value == "1"@ {
        VerticalAlign::Center
    } else {
        VerticalAlign::Top
    }
}

/// 템플릿 이름의 셀 세로 정렬 (모르는 이름은 위).
pub fn vertical_align_from_name(value: &str) -> (r: VerticalAlign)
    ensures
        r == vertical_align_from_name_spec(value@),
{
    if str_eq(value, "bottom") || str_eq(value, "BOTTOM") || str_eq(value, "2") {
        VerticalAlign::Bottom
    } else if str_eq(value, "center") || str_eq(value, "middle") || str_eq(value, "CENTER") || str_eq(value, "MIDDLE") || str_eq(value, "1") {
        VerticalAlign::Center
    } else {
        VerticalAlign::Top
    }
}

/// 템플릿 이름의 캡션 방향 (모르는 이름은 아래).
pub open spec fn caption_direction_from_name_spec(value: Seq<char>) -> CaptionDirection {
    if value == "left"@ || value == "LEFT"@ || value == "0"@ {
        CaptionDirection::Left
    } else if value == "right"@ || value == "RIGHT"@ || value == "1"@ {
        CaptionDirection::Right
    } else if value == "top"@ || value == "TOP"@ || value == "2"@ {
        CaptionDirection::Top
    } else {
        CaptionDirection::Bottom
    }
}

/// 템플릿 이름의 캡션 방향 (모르는 이름은 아래).
pub fn caption_direction_from_name(value: &str) -> (r: CaptionDirection)
    ensures
        r == caption_direction_from_name_spec(value@),
{
    if str_eq(value, "left") || str_eq(value, "LEFT") || str_eq(value, "0") {
        CaptionDirection::Left
    } else if str_eq(value, "right") || str_eq(value, "RIGHT") || str_eq(value, "1") {
        CaptionDirection::Right
    } else if str_eq(value, "top") || str_eq(value, "TOP") || str_eq(value, "2") {
        CaptionDirection::Top
    } else {
        CaptionDirection::Bottom
    }
}

/// 템플릿 이름의 캡션 세로 정렬 (모르는 이름은 위).
pub open spec fn caption_vert_align_from_name_spec(value: Seq<char>) -> CaptionVertAlign {
    if value == "bottom"@ || value == "BOTTOM"@ || value == "2"@ {
        CaptionVertAlign::Bottom
    } else if value == "center"@ || value == "middle"@ || value == "CENTER"@ || value == "MIDDLE"@ || value == "1"@ {
        CaptionVertAlign::Center
    } else {
        CaptionVertAlign::Top
    }
}

/// 템플릿 이름의 캡션 세로 정렬 (모르는 이름은 위).
pub fn caption_vert_align_from_name(value: &str) -> (r: CaptionVertAlign)
    ensures
        r == caption_vert_align_from_name_spec(value@),
{
    if str_eq(value, "bottom") || str_eq(value, "BOTTOM") || str_eq(value, "2") {
        CaptionVertAlign::Bottom
    } else if str_eq(value, "center") || str_eq(value, "middle") || str_eq(value, "CENTER") || str_eq(value, "MIDDLE") || str_eq(value, "1") {
        CaptionVertAlign::Center
    } else {
        CaptionVertAlign::Top
    }
}

/// 템플릿 이름의 표 쪽 나눔 (모르는 이름은 나누지 않음).
pub open spec fn table_page_break_from_name_spec(value: Seq<char>) -> TablePageBreak {
    if value == "cell"@ || value == "table"@ || value == "CELL"@ || value == "TABLE"@ || value == "1"@ {
        TablePageBreak::CellBreak
    } else if value == "row"@ || value == "break"@ || value == "ROW"@ || value == "BREAK"@ || value == "2"@ {
        TablePageBreak::RowBreak
    } else {
        TablePageBreak::NoBreak
    }
}

/// 템플릿 이름의 표 쪽 나눔 (모르는 이름은 나누지 않음).
pub fn table_page_break_from_name(value: &str) -> (r: TablePageBreak)
    ensures
        r == table_page_break_from_name_spec(value@),
{
    if str_eq(value, "cell") || str_eq(value, "table") || str_eq(value, "CELL") || str_eq(value, "TABLE") || str_eq(value, "1") {
        TablePageBreak::CellBreak
    } else if str_eq(value, "row") || str_eq(value, "break") || str_eq(value, "ROW") || str_eq(value, "BREAK") || str_eq(value, "2") {
        TablePageBreak::RowBreak
    } else {
        TablePageBreak::NoBreak
    }
}

/// 템플릿 이름의 줄 간격 종류 (모르는 이름은 비율).
pub open spec fn line_spacing_type_from_name_spec(value: Seq<char>) -> LineSpacingType {
    if value == "Fixed"@ || value == "fixed"@ || value == "FIXED"@ || value == "1"@ {
        LineSpacingType::Fixed
    } else if value == "SpaceOnly"@ || value == "space_only"@ || value == "SPACE_ONLY"@ || value == "2"@ {
        LineSpacingType::SpaceOnly
    } else if value == "Minimum"@ || value == "minimum"@ || value == "MINIMUM"@ || value == "3"@ {
        LineSpacingType::Minimum
    } else {
        LineSpacingType::Percent
    }
}

/// 템플릿 이름의 줄 간격 종류 (모르는 이름은 비율).
pub fn line_spacing_type_from_name(value: &str) -> (r: LineSpacingType)
    ensures
        r == line_spacing_type_from_name_spec(value@),
{
    if str_eq(value, "Fixed") || str_eq(value, "fixed") || str_eq(value, "FIXED") || str_eq(value, "1") {
        LineSpacingType::Fixed
    } else if str_eq(value, "SpaceOnly") || str_eq(value, "space_only") || str_eq(value, "SPACE_ONLY") || str_eq(value, "2") {
        LineSpacingType::SpaceOnly
    } else if str_eq(value, "Minimum") || str_eq(value, "minimum") || str_eq(value, "MINIMUM") || str_eq(value, "3") {
        LineSpacingType::Minimum
    } else {
        LineSpacingType::Percent
    }
}

/// 템플릿 이름의 문단 머리 종류 (모르는 이름은 없음).
pub open spec fn head_type_from_name_spec(value: Seq<char>) -> HeadType {
    if value == "outline"@ || value == "OUTLINE"@ || value == "1"@ {
        HeadType::Outline
    } else if value == "number"@ || value == "NUMBER"@ || value == "2"@ {
        HeadType::Number
    } else if value == "bullet"@ || value == "BULLET"@ || value == "3"@ {
        HeadType::Bullet
    } else {
        HeadType::NoHead
    }
}

/// 템플릿 이름의 문단 머리 종류 (모르는 이름은 없음).
pub fn head_type_from_name(value: &str) -> (r: HeadType)
    ensures
        r == head_type_from_name_spec(value@),
{
    if str_eq(value, "outline") || str_eq(value, "OUTLINE") || str_eq(value, "1") {
        HeadType::Outline
    } else if str_eq(value, "number") || str_eq(value, "NUMBER") || str_eq(value, "2") {
        HeadType::Number
    } else if str_eq(value, "bullet") || str_eq(value, "BULLET") || str_eq(value, "3") {
        HeadType::Bullet
    } else {
        HeadType::NoHead
    }
}

/// 개체 세로 기준 (구분 문자와 대소문자를 무시; 모르는 이름은 `fallback`).
pub open spec fn vert_rel_to_from_name_spec(value: Seq<char>, fallback: VertRelTo) -> VertRelTo {
    let k = layout_key_seq(value);
    if k == "PAPER"@ || k == "0"@ {
        VertRelTo::Paper
    } else if k == "PAGE"@ || k == "1"@ {
        VertRelTo::Page
    } else if k == "PARA"@ || k == "PARAGRAPH"@ || k == "2"@ {
        VertRelTo::Para
    } else {
        fallback
    }
}

/// 개체 세로 기준 (구분 문자와 대소문자를 무시; 모르는 이름은 `fallback`).
pub fn vert_rel_to_from_name(value: &str, fallback: VertRelTo) -> (r: VertRelTo)
    ensures
        r == vert_rel_to_from_name_spec(value@, fallback),
{
    let key_string = object_layout_enum_key(value);
    let k = key_string.as_str();
    if str_eq(k, "PAPER") || str_eq(k, "0") {
        VertRelTo::Paper
    } else if str_eq(k, "PAGE") || str_eq(k, "1") {
        VertRelTo::Page
    } else if str_eq(k, "PARA") || str_eq(k, "PARAGRAPH") || str_eq(k, "2") {
        VertRelTo::Para
    } else {
        fallback
    }
}

/// 개체 세로 정렬 (구분 문자와 대소문자를 무시; 모르는 이름은 `fallback`).
pub open spec fn obj_vert_align_from_name_spec(value: Seq<char>, fallback: VertAlign) -> VertAlign {
    let k = layout_key_seq(value);
    if k == "TOP"@ || k == "0"@ {
        VertAlign::Top
    } else if k == "CENTER"@ || k == "MIDDLE"@ || k == "1"@ {
        VertAlign::Center
    } else if k == "BOTTOM"@ || k == "2"@ {
        VertAlign::Bottom
    } else if k == "INSIDE"@ || k == "3"@ {
        VertAlign::Inside
    } else if k == "OUTSIDE"@ || k == "4"@ {
        VertAlign::Outside
    } else {
        fallback
    }
}

/// 개체 세로 정렬 (구분 문자와 대소문자를 무시; 모르는 이름은 `fallback`).
pub fn obj_vert_align_from_name(value: &str, fallback: VertAlign) -> (r: VertAlign)
    ensures
        r == obj_vert_align_from_name_spec(value@, fallback),
{
    let key_string = object_layout_enum_key(value);
    let k = key_string.as_str();
    if str_eq(k, "TOP") || str_eq(k, "0") {
        VertAlign::Top
    } else if str_eq(k, "CENTER") || str_eq(k, "MIDDLE") || str_eq(k, "1") {
        VertAlign::Center
    } else if str_eq(k, "BOTTOM") || str_eq(k, "2") {
        VertAlign::Bottom
    } else if str_eq(k, "INSIDE") || str_eq(k, "3") {
        VertAlign::Inside
    } else if str_eq(k, "OUTSIDE") || str_eq(k, "4") {
        VertAlign::Outside
    } else {
        fallback
    }
}

/// 개체 가로 기준 (구분 문자와 대소문자를 무시; 모르는 이름은 `fallback`).
pub open spec fn horz_rel_to_from_name_spec(value: Seq<char>, fallback: HorzRelTo) -> HorzRelTo {
    let k = layout_key_seq(value);
    if k == "PAPER"@ || k == "0"@ {
        HorzRelTo::Paper
    } else if k == "PAGE"@ || k == "1"@ {
        HorzRelTo::Page
    } else if k == "COLUMN"@ || k == "2"@ {
        HorzRelTo::Column
    } else if k == "PARA"@ || k == "PARAGRAPH"@ || k == "3"@ {
        HorzRelTo::Para
    } else {
        fallback
    }
}

/// 개체 가로 기준 (구분 문자와 대소문자를 무시; 모르는 이름은 `fallback`).
pub fn horz_rel_to_from_name(value: &str, fallback: HorzRelTo) -> (r: HorzRelTo)
    ensures
        r == horz_rel_to_from_name_spec(value@, fallback),
{
    let key_string = object_layout_enum_key(value);
    let k = key_string.as_str();
    if str_eq(k, "PAPER") || str_eq(k, "0") {
        HorzRelTo::Paper
    } else if str_eq(k, "PAGE") || str_eq(k, "1") {
        HorzRelTo::Page
    } else if str_eq(k, "COLUMN") || str_eq(k, "2") {
        HorzRelTo::Column
    } else if str_eq(k, "PARA") || str_eq(k, "PARAGRAPH") || str_eq(k, "3") {
        HorzRelTo::Para
    } else {
        fallback
    }
}

/// 개체 가로 정렬 (구분 문자와 대소문자를 무시; 모르는 이름은 `fallback`).
pub open spec fn obj_horz_align_from_name_spec(value: Seq<char>, fallback: HorzAlign) -> HorzAlign {
    let k = layout_key_seq(value);
    if k == "LEFT"@ || k == "0"@ {
        HorzAlign::Left
    } else if k == "CENTER"@ || k == "MIDDLE"@ || k == "1"@ {
        HorzAlign::Center
    } else if k == "RIGHT"@ || k == "2"@ {
        HorzAlign::Right
    } else if k == "INSIDE"@ || k == "3"@ {
        HorzAlign::Inside
    } else if k == "OUTSIDE"@ || k == "4"@ {
        HorzAlign::Outside
    } else {
        fallback
    }
}

/// 개체 가로 정렬 (구분 문자와 대소문자를 무시; 모르는 이름은 `fallback`).
pub fn obj_horz_align_from_name(value: &str, fallback: HorzAlign) -> (r: HorzAlign)
    ensures
        r == obj_horz_align_from_name_spec(value@, fallback),
{
    let key_string = object_layout_enum_key(value);
    let k = key_string.as_str();
    if str_eq(k, "LEFT") || str_eq(k, "0") {
        HorzAlign::Left
    } else if str_eq(k, "CENTER") || str_eq(k, "MIDDLE") || str_eq(k, "1") {
        HorzAlign::Center
    } else if str_eq(k, "RIGHT") || str_eq(k, "2") {
        HorzAlign::Right
    } else if str_eq(k, "INSIDE") || str_eq(k, "3") {
        HorzAlign::Inside
    } else if str_eq(k, "OUTSIDE") || str_eq(k, "4") {
        HorzAlign::Outside
    } else {
        fallback
    }
}

/// 본문과의 배치 (구분 문자와 대소문자를 무시; 모르는 이름은 `fallback`).
pub open spec fn text_wrap_from_name_spec(value: Seq<char>, fallback: TextWrap) -> TextWrap {
    let k = layout_key_seq(value);
    if k == "SQUARE"@ || k == "0"@ {
        TextWrap::Square
    } else if k == "TIGHT"@ {
        TextWrap::Tight
    } else if k == "THROUGH"@ {
        TextWrap::Through
    } else if k == "TOPANDBOTTOM"@ || k == "1"@ {
        TextWrap::TopAndBottom
    } else if k == "BEHINDTEXT"@ || k == "2"@ {
        TextWrap::BehindText
    } else if k == "INFRONTOFTEXT"@ || k == "3"@ {
        TextWrap::InFrontOfText
    } else {
        fallback
    }
}

/// 본문과의 배치 (구분 문자와 대소문자를 무시; 모르는 이름은 `fallback`).
pub fn text_wrap_from_name(value: &str, fallback: TextWrap) -> (r: TextWrap)
    ensures
        r == text_wrap_from_name_spec(value@, fallback),
{
    let key_string = object_layout_enum_key(value);
    let k = key_string.as_str();
    if str_eq(k, "SQUARE") || str_eq(k, "0") {
        TextWrap::Square
    } else if str_eq(k, "TIGHT") {
        TextWrap::Tight
    } else if str_eq(k, "THROUGH") {
        TextWrap::Through
    } else if str_eq(k, "TOPANDBOTTOM") || str_eq(k, "1") {
        TextWrap::TopAndBottom
    } else if str_eq(k, "BEHINDTEXT") || str_eq(k, "2") {
        TextWrap::BehindText
    } else if str_eq(k, "INFRONTOFTEXT") || str_eq(k, "3") {
        TextWrap::InFrontOfText
    } else {
        fallback
    }
}

/// 텍스트 흐름 (구분 문자와 대소문자를 무시; 모르는 이름은 `fallback`).
pub open spec fn text_flow_from_name_spec(value: Seq<char>, fallback: TextFlow) -> TextFlow {
    let k = layout_key_seq(value);
    if k == "BOTHSIDES"@ || k == "0"@ {
        TextFlow::BothSides
    } else if k == "LEFTONLY"@ || k == "1"@ {
        TextFlow::LeftOnly
    } else if k == "RIGHTONLY"@ || k == "2"@ {
        TextFlow::RightOnly
    } else if k == "LARGESTONLY"@ || k == "3"@ {
        TextFlow::LargestOnly
    } else {
        fallback
    }
}

/// 텍스트 흐름 (구분 문자와 대소문자를 무시; 모르는 이름은 `fallback`).
pub fn text_flow_from_name(value: &str, fallback: TextFlow) -> (r: TextFlow)
    ensures
        r == text_flow_from_name_spec(value@, fallback),
{
    let key_string = object_layout_enum_key(value);
    let k = key_string.as_str();
    if str_eq(k, "BOTHSIDES") || str_eq(k, "0") {
        TextFlow::BothSides
    } else if str_eq(k, "LEFTONLY") || str_eq(k, "1") {
        TextFlow::LeftOnly
    } else if str_eq(k, "RIGHTONLY") || str_eq(k, "2") {
        TextFlow::RightOnly
    } else if str_eq(k, "LARGESTONLY") || str_eq(k, "3") {
        TextFlow::LargestOnly
    } else {
        fallback
    }
}

/// 크기 기준 (구분 문자와 대소문자를 무시; 모르는 이름은 `fallback`).
pub open spec fn size_criterion_from_name_spec(value: Seq<char>, fallback: SizeCriterion) -> SizeCriterion {
    let k = layout_key_seq(value);
    if k == "PAPER"@ || k == "0"@ {
        SizeCriterion::Paper
    } else if k == "PAGE"@ || k == "1"@ {
        SizeCriterion::Page
    } else if k == "COLUMN"@ || k == "2"@ {
        SizeCriterion::Column
    } else if k == "PARA"@ || k == "PARAGRAPH"@ || k == "3"@ {
        SizeCriterion::Para
    } else if k == "ABSOLUTE"@ || k == "4"@ {
        SizeCriterion::Absolute
    } else {
        fallback
    }
}

/// 크기 기준 (구분 문자와 대소문자를 무시; 모르는 이름은 `fallback`).
pub fn size_criterion_from_name(value: &str, fallback: SizeCriterion) -> (r: SizeCriterion)
    ensures
        r == size_criterion_from_name_spec(value@, fallback),
{
    let key_string = object_layout_enum_key(value);
    let k = key_string.as_str();
    if str_eq(k, "PAPER") || str_eq(k, "0") {
        SizeCriterion::Paper
    } else if str_eq(k, "PAGE") || str_eq(k, "1") {
        SizeCriterion::Page
    } else if str_eq(k, "COLUMN") || str_eq(k, "2") {
        SizeCriterion::Column
    } else if str_eq(k, "PARA") || str_eq(k, "PARAGRAPH") || str_eq(k, "3") {
        SizeCriterion::Para
    } else if str_eq(k, "ABSOLUTE") || str_eq(k, "4") {
        SizeCriterion::Absolute
    } else {
        fallback
    }
}

/// 개체 번호 종류 (구분 문자와 대소문자를 무시; 모르는 이름은 `fallback`).
pub open spec fn object_numbering_type_from_name_spec(value: Seq<char>, fallback: ObjectNumberingType) -> ObjectNumberingType {
    let k = layout_key_seq(value);
    if k == "NONE"@ || k == ""@ {
        ObjectNumberingType::NoNumbering
    } else if k == "PICTURE"@ {
        ObjectNumberingType::Picture
    } else if k == "TABLE"@ {
        ObjectNumberingType::Table
    } else if k == "EQUATION"@ {
        ObjectNumberingType::Equation
    } else {
        fallback
    }
}

/// 개체 번호 종류 (구분 문자와 대소문자를 무시; 모르는 이름은 `fallback`).
pub fn object_numbering_type_from_name(value: &str, fallback: ObjectNumberingType) -> (r: ObjectNumberingType)
    ensures
        r == object_numbering_type_from_name_spec(value@, fallback),
{
    let key_string = object_layout_enum_key(value);
    let k = key_string.as_str();
    if str_eq(k, "NONE") || str_eq(k, "") {
        ObjectNumberingType::NoNumbering
    } else if str_eq(k, "PICTURE") {
        ObjectNumberingType::Picture
    } else if str_eq(k, "TABLE") {
        ObjectNumberingType::Table
    } else if str_eq(k, "EQUATION") {
        ObjectNumberingType::Equation
    } else {
        fallback
    }
}

/// Reading back the name that `fill_type_name` gives yields the same value.
pub proof fn lemma_fill_type_from_name_of_fill_type_name(value: FillType)
    ensures
        fill_type_from_name_spec(fill_type_name_spec(value)) == value,
{
    match value {
        FillType::NoFill => {
            reveal_strlit("GRADIENT");
            reveal_strlit("IMAGE");
            reveal_strlit("SOLID");
            reveal_strlit("gradient");
            reveal_strlit("image");
            reveal_strlit("none");
            reveal_strlit("solid");
            assert("none"@.len() != "solid"@.len());
            assert("none"@.len() != "SOLID"@.len());
            assert("none"@.len() != "image"@.len());
            assert("none"@.len() != "IMAGE"@.len());
            assert("none"@.len() != "gradient"@.len());
            assert("none"@.len() != "GRADIENT"@.len());
        },
        FillType::Solid => {
            reveal_strlit("SOLID");
            reveal_strlit("solid");
            assert("solid"@[0] != "SOLID"@[0]);
        },
        FillType::Image => {
            reveal_strlit("IMAGE");
            reveal_strlit("SOLID");
            reveal_strlit("image");
            reveal_strlit("solid");
            assert("image"@[0] != "solid"@[0]);
            assert("image"@[0] != "SOLID"@[0]);
            assert("image"@[0] != "IMAGE"@[0]);
        },
        FillType::Gradient => {
            reveal_strlit("GRADIENT");
            reveal_strlit("IMAGE");
            reveal_strlit("SOLID");
            reveal_strlit("gradient");
            reveal_strlit("image");
            reveal_strlit("solid");
            assert("gradient"@.len() != "solid"@.len());
            assert("gradient"@.len() != "SOLID"@.len());
            assert("gradient"@.len() != "image"@.len());
            assert("gradient"@.len() != "IMAGE"@.len());
            assert("gradient"@[0] != "GRADIENT"@[0]);
        },
    }
}

/// Reading back the name that `border_line_type_name` gives yields the same value.
pub proof fn lemma_border_line_type_from_name_of_border_line_type_name(value: BorderLineType)
    ensures
        border_line_type_from_name_spec(border_line_type_name_spec(value)) == value,
{
    match value {
        BorderLineType::NoLine => {
            reveal_strlit("NONE");
            reveal_strlit("none");
            assert("none"@[0] != "NONE"@[0]);
        },
        BorderLineType::Solid => {
            reveal_strlit("NONE");
            reveal_strlit("SOLID");
            reveal_strlit("none");
            reveal_strlit("solid");
            assert("solid"@.len() != "none"@.len());
            assert("solid"@.len() != "NONE"@.len());
            assert("solid"@[0] != "SOLID"@[0]);
        },
        BorderLineType::Dash => {
            reveal_strlit("DASH");
            reveal_strlit("NONE");
            reveal_strlit("SOLID");
            reveal_strlit("dash");
            reveal_strlit("none");
            reveal_strlit("solid");
            assert("dash"@[0] != "none"@[0]);
            assert("dash"@[0] != "NONE"@[0]);
            assert("dash"@.len() != "solid"@.len());
            assert("dash"@.len() != "SOLID"@.len());
            assert("dash"@[0] != "DASH"@[0]);
        },
        BorderLineType::Dot => {
            reveal_strlit("DASH");
            reveal_strlit("DOT");
            reveal_strlit("NONE");
            reveal_strlit("SOLID");
            reveal_strlit("dash");
            reveal_strlit("dot");
            reveal_strlit("none");
            reveal_strlit("solid");
            assert("dot"@.len() != "none"@.len());
            assert("dot"@.len() != "NONE"@.len());
            assert("dot"@.len() != "solid"@.len());
            assert("dot"@.len() != "SOLID"@.len());
            assert("dot"@.len() != "dash"@.len());
            assert("dot"@.len() != "DASH"@.len());
            assert("dot"@[0] != "DOT"@[0]);
        },
        BorderLineType::DashDot => {
            reveal_strlit("DASH");
            reveal_strlit("DASH_DOT");
            reveal_strlit("DOT");
            reveal_strlit("NONE");
            reveal_strlit("SOLID");
            reveal_strlit("dash");
            reveal_strlit("dash_dot");
            reveal_strlit("dot");
            reveal_strlit("none");
            reveal_strlit("solid");
            assert("dash_dot"@.len() != "none"@.len());
            assert("dash_dot"@.len() != "NONE"@.len());
            assert("dash_dot"@.len() != "solid"@.len());
            assert("dash_dot"@.len() != "SOLID"@.len());
            assert("dash_dot"@.len() != "dash"@.len());
            assert("dash_dot"@.len() != "DASH"@.len());
            assert("dash_dot"@.len() != "dot"@.len());
            assert("dash_dot"@.len() != "DOT"@.len());
            assert("dash_dot"@[0] != "DASH_DOT"@[0]);
        },
        BorderLineType::DashDotDot => {
            reveal_strlit("DASH");
            reveal_strlit("DASH_DOT");
            reveal_strlit("DASH_DOT_DOT");
            reveal_strlit("DOT");
            reveal_strlit("NONE");
            reveal_strlit("SOLID");
            reveal_strlit("dash");
            reveal_strlit("dash_dot");
            reveal_strlit("dash_dot_dot");
            reveal_strlit("dot");
            reveal_strlit("none");
            reveal_strlit("solid");
            assert("dash_dot_dot"@.len() != "none"@.len());
            assert("dash_dot_dot"@.len() != "NONE"@.len());
            assert("dash_dot_dot"@.len() != "solid"@.len());
            assert("dash_dot_dot"@.len() != "SOLID"@.len());
            assert("dash_dot_dot"@.len() != "dash"@.len());
            assert("dash_dot_dot"@.len() != "DASH"@.len());
            assert("dash_dot_dot"@.len() != "dot"@.len());
            assert("dash_dot_dot"@.len() != "DOT"@.len());
            assert("dash_dot_dot"@.len() != "dash_dot"@.len());
            assert("dash_dot_dot"@.len() != "DASH_DOT"@.len());
            assert("dash_dot_dot"@[0] != "DASH_DOT_DOT"@[0]);
        },
        BorderLineType::LongDash => {
            reveal_strlit("DASH");
            reveal_strlit("DASH_DOT");
            reveal_strlit("DASH_DOT_DOT");
            reveal_strlit("DOT");
            reveal_strlit("LONG_DASH");
            reveal_strlit("NONE");
            reveal_strlit("SOLID");
            reveal_strlit("dash");
            reveal_strlit("dash_dot");
            reveal_strlit("dash_dot_dot");
            reveal_strlit("dot");
            reveal_strlit("long_dash");
            reveal_strlit("none");
            reveal_strlit("solid");
            assert("long_dash"@.len() != "none"@.len());
            assert("long_dash"@.len() != "NONE"@.len());
            assert("long_dash"@.len() != "solid"@.len());
            assert("long_dash"@.len() != "SOLID"@.len());
            assert("long_dash"@.len() != "dash"@.len());
            assert("long_dash"@.len() != "DASH"@.len());
            assert("long_dash"@.len() != "dot"@.len());
            assert("long_dash"@.len() != "DOT"@.len());
            assert("long_dash"@.len() != "dash_dot"@.len());
            assert("long_dash"@.len() != "DASH_DOT"@.len());
            assert("long_dash"@.len() != "dash_dot_dot"@.len());
            assert("long_dash"@.len() != "DASH_DOT_DOT"@.len());
            assert("long_dash"@[0] != "LONG_DASH"@[0]);
        },
        BorderLineType::Circle => {
            reveal_strlit("CIRCLE");
            reveal_strlit("DASH");
            reveal_strlit("DASH_DOT");
            reveal_strlit("DASH_DOT_DOT");
            reveal_strlit("DOT");
            reveal_strlit("LONG_DASH");
            reveal_strlit("NONE");
            reveal_strlit("SOLID");
            reveal_strlit("circle");
            reveal_strlit("dash");
            reveal_strlit("dash_dot");
            reveal_strlit("dash_dot_dot");
            reveal_strlit("dot");
            reveal_strlit("long_dash");
            reveal_strlit("none");
            reveal_strlit("solid");
            assert("circle"@.len() != "none"@.len());
            assert("circle"@.len() != "NONE"@.len());
            assert("circle"@.len() != "solid"@.len());
            assert("circle"@.len() != "SOLID"@.len());
            assert("circle"@.len() != "dash"@.len());
            assert("circle"@.len() != "DASH"@.len());
            assert("circle"@.len() != "dot"@.len());
            assert("circle"@.len() != "DOT"@.len());
            assert("circle"@.len() != "dash_dot"@.len());
            assert("circle"@.len() != "DASH_DOT"@.len());
            assert("circle"@.len() != "dash_dot_dot"@.len());
            assert("circle"@.len() != "DASH_DOT_DOT"@.len());
            assert("circle"@.len() != "long_dash"@.len());
            assert("circle"@.len() != "LONG_DASH"@.len());
            assert("circle"@[0] != "CIRCLE"@[0]);
        },
        BorderLineType::Double => {
            reveal_strlit("CIRCLE");
            reveal_strlit("DASH");
            reveal_strlit("DASH_DOT");
            reveal_strlit("DASH_DOT_DOT");
            reveal_strlit("DOT");
            reveal_strlit("DOUBLE");
            reveal_strlit("DOUBLE_SLIM");
            reveal_strlit("LONG_DASH");
            reveal_strlit("NONE");
            reveal_strlit("SOLID");
            reveal_strlit("circle");
            reveal_strlit("dash");
            reveal_strlit("dash_dot");
            reveal_strlit("dash_dot_dot");
            reveal_strlit("dot");
            reveal_strlit("double");
            reveal_strlit("long_dash");
            reveal_strlit("none");
            reveal_strlit("solid");
            assert("double"@.len() != "none"@.len());
            assert("double"@.len() != "NONE"@.len());
            assert("double"@.len() != "solid"@.len());
            assert("double"@.len() != "SOLID"@.len());
            assert("double"@.len() != "dash"@.len());
            assert("double"@.len() != "DASH"@.len());
            assert("double"@.len() != "dot"@.len());
            assert("double"@.len() != "DOT"@.len());
            assert("double"@.len() != "dash_dot"@.len());
            assert("double"@.len() != "DASH_DOT"@.len());
            assert("double"@.len() != "dash_dot_dot"@.len());
            assert("double"@.len() != "DASH_DOT_DOT"@.len());
            assert("double"@.len() != "long_dash"@.len());
            assert("double"@.len() != "LONG_DASH"@.len());
            assert("double"@[0] != "circle"@[0]);
            assert("double"@[0] != "CIRCLE"@[0]);
            assert("double"@[0] != "DOUBLE"@[0]);
            assert("double"@.len() != "DOUBLE_SLIM"@.len());
        },
        BorderLineType::ThinThickDouble => {
            reveal_strlit("CIRCLE");
            reveal_strlit("DASH");
            reveal_strlit("DASH_DOT");
            reveal_strlit("DASH_DOT_DOT");
            reveal_strlit("DOT");
            reveal_strlit("DOUBLE");
            reveal_strlit("DOUBLE_SLIM");
            reveal_strlit("LONG_DASH");
            reveal_strlit("NONE");
            reveal_strlit("SLIM_THICK");
            reveal_strlit("SOLID");
            reveal_strlit("circle");
            reveal_strlit("dash");
            reveal_strlit("dash_dot");
            reveal_strlit("dash_dot_dot");
            reveal_strlit("dot");
            reveal_strlit("double");
            reveal_strlit("long_dash");
            reveal_strlit("none");
            reveal_strlit("solid");
            reveal_strlit("thin_thick_double");
            assert("thin_thick_double"@.len() != "none"@.len());
            assert("thin_thick_double"@.len() != "NONE"@.len());
            assert("thin_thick_double"@.len() != "solid"@.len());
            assert("thin_thick_double"@.len() != "SOLID"@.len());
            assert("thin_thick_double"@.len() != "dash"@.len());
            assert("thin_thick_double"@.len() != "DASH"@.len());
            assert("thin_thick_double"@.len() != "dot"@.len());
            assert("thin_thick_double"@.len() != "DOT"@.len());
            assert("thin_thick_double"@.len() != "dash_dot"@.len());
            assert("thin_thick_double"@.len() != "DASH_DOT"@.len());
            assert("thin_thick_double"@.len() != "dash_dot_dot"@.len());
            assert("thin_thick_double"@.len() != "DASH_DOT_DOT"@.len());
            assert("thin_thick_double"@.len() != "long_dash"@.len());
            assert("thin_thick_double"@.len() != "LONG_DASH"@.len());
            assert("thin_thick_double"@.len() != "circle"@.len());
            assert("thin_thick_double"@.len() != "CIRCLE"@.len());
            assert("thin_thick_double"@.len() != "double"@.len());
            assert("thin_thick_double"@.len() != "DOUBLE"@.len());
            assert("thin_thick_double"@.len() != "DOUBLE_SLIM"@.len());
            assert("thin_thick_double"@.len() != "SLIM_THICK"@.len());
        },
        BorderLineType::ThickThinDouble => {
            reveal_strlit("CIRCLE");
            reveal_strlit("DASH");
            reveal_strlit("DASH_DOT");
            reveal_strlit("DASH_DOT_DOT");
            reveal_strlit("DOT");
            reveal_strlit("DOUBLE");
            reveal_strlit("DOUBLE_SLIM");
            reveal_strlit("LONG_DASH");
            reveal_strlit("NONE");
            reveal_strlit("SLIM_THICK");
            reveal_strlit("SOLID");
            reveal_strlit("THICK_SLIM");
            reveal_strlit("circle");
            reveal_strlit("dash");
            reveal_strlit("dash_dot");
            reveal_strlit("dash_dot_dot");
            reveal_strlit("dot");
            reveal_strlit("double");
            reveal_strlit("long_dash");
            reveal_strlit("none");
            reveal_strlit("solid");
            reveal_strlit("thick_thin_double");
            reveal_strlit("thin_thick_double");
            assert("thick_thin_double"@.len() != "none"@.len());
            assert("thick_thin_double"@.len() != "NONE"@.len());
            assert("thick_thin_double"@.len() != "solid"@.len());
            assert("thick_thin_double"@.len() != "SOLID"@.len());
            assert("thick_thin_double"@.len() != "dash"@.len());
            assert("thick_thin_double"@.len() != "DASH"@.len());
            assert("thick_thin_double"@.len() != "dot"@.len());
            assert("thick_thin_double"@.len() != "DOT"@.len());
            assert("thick_thin_double"@.len() != "dash_dot"@.len());
            assert("thick_thin_double"@.len() != "DASH_DOT"@.len());
            assert("thick_thin_double"@.len() != "dash_dot_dot"@.len());
            assert("thick_thin_double"@.len() != "DASH_DOT_DOT"@.len());
            assert("thick_thin_double"@.len() != "long_dash"@.len());
            assert("thick_thin_double"@.len() != "LONG_DASH"@.len());
            assert("thick_thin_double"@.len() != "circle"@.len());
            assert("thick_thin_double"@.len() != "CIRCLE"@.len());
            assert("thick_thin_double"@.len() != "double"@.len());
            assert("thick_thin_double"@.len() != "DOUBLE"@.len());
            assert("thick_thin_double"@.len() != "DOUBLE_SLIM"@.len());
            assert("thick_thin_double"@[3] != "thin_thick_double"@[3]);
            assert("thick_thin_double"@.len() != "SLIM_THICK"@.len());
            assert("thick_thin_double"@.len() != "THICK_SLIM"@.len());
        },
        BorderLineType::ThinThickThinTriple => {
            reveal_strlit("CIRCLE");
            reveal_strlit("DASH");
            reveal_strlit("DASH_DOT");
            reveal_strlit("DASH_DOT_DOT");
            reveal_strlit("DOT");
            reveal_strlit("DOUBLE");
            reveal_strlit("DOUBLE_SLIM");
            reveal_strlit("LONG_DASH");
            reveal_strlit("NONE");
            reveal_strlit("SLIM_THICK");
            reveal_strlit("SLIM_THICK_SLIM");
            reveal_strlit("SOLID");
            reveal_strlit("THICK_SLIM");
            reveal_strlit("circle");
            reveal_strlit("dash");
            reveal_strlit("dash_dot");
            reveal_strlit("dash_dot_dot");
            reveal_strlit("dot");
            reveal_strlit("double");
            reveal_strlit("long_dash");
            reveal_strlit("none");
            reveal_strlit("solid");
            reveal_strlit("thick_thin_double");
            reveal_strlit("thin_thick_double");
            reveal_strlit("thin_thick_thin_triple");
            assert("thin_thick_thin_triple"@.len() != "none"@.len());
            assert("thin_thick_thin_triple"@.len() != "NONE"@.len());
            assert("thin_thick_thin_triple"@.len() != "solid"@.len());
            assert("thin_thick_thin_triple"@.len() != "SOLID"@.len());
            assert("thin_thick_thin_triple"@.len() != "dash"@.len());
            assert("thin_thick_thin_triple"@.len() != "DASH"@.len());
            assert("thin_thick_thin_triple"@.len() != "dot"@.len());
            assert("thin_thick_thin_triple"@.len() != "DOT"@.len());
            assert("thin_thick_thin_triple"@.len() != "dash_dot"@.len());
            assert("thin_thick_thin_triple"@.len() != "DASH_DOT"@.len());
            assert("thin_thick_thin_triple"@.len() != "dash_dot_dot"@.len());
            assert("thin_thick_thin_triple"@.len() != "DASH_DOT_DOT"@.len());
            assert("thin_thick_thin_triple"@.len() != "long_dash"@.len());
            assert("thin_thick_thin_triple"@.len() != "LONG_DASH"@.len());
            assert("thin_thick_thin_triple"@.len() != "circle"@.len());
            assert("thin_thick_thin_triple"@.len() != "CIRCLE"@.len());
            assert("thin_thick_thin_triple"@.len() != "double"@.len());
            assert("thin_thick_thin_triple"@.len() != "DOUBLE"@.len());
            assert("thin_thick_thin_triple"@.len() != "DOUBLE_SLIM"@.len());
            assert("thin_thick_thin_triple"@.len() != "thin_thick_double"@.len());
            assert("thin_thick_thin_triple"@.len() != "SLIM_THICK"@.len());
            assert("thin_thick_thin_triple"@.len() != "thick_thin_double"@.len());
            assert("thin_thick_thin_triple"@.len() != "THICK_SLIM"@.len());
            assert("thin_thick_thin_triple"@.len() != "SLIM_THICK_SLIM"@.len());
        },
        BorderLineType::Wave => {
            reveal_strlit("CIRCLE");
            reveal_strlit("DASH");
            reveal_strlit("DASH_DOT");
            reveal_strlit("DASH_DOT_DOT");
            reveal_strlit("DOT");
            reveal_strlit("DOUBLE");
            reveal_strlit("DOUBLE_SLIM");
            reveal_strlit("LONG_DASH");
            reveal_strlit("NONE");
            reveal_strlit("SLIM_THICK");
            reveal_strlit("SLIM_THICK_SLIM");
            reveal_strlit("SOLID");
            reveal_strlit("THICK_SLIM");
            reveal_strlit("WAVE");
            reveal_strlit("circle");
            reveal_strlit("dash");
            reveal_strlit("dash_dot");
            reveal_strlit("dash_dot_dot");
            reveal_strlit("dot");
            reveal_strlit("double");
            reveal_strlit("long_dash");
            reveal_strlit("none");
            reveal_strlit("solid");
            reveal_strlit("thick_thin_double");
            reveal_strlit("thin_thick_double");
            reveal_strlit("thin_thick_thin_triple");
            reveal_strlit("wave");
            assert("wave"@[0] != "none"@[0]);
            assert("wave"@[0] != "NONE"@[0]);
            assert("wave"@.len() != "solid"@.len());
            assert("wave"@.len() != "SOLID"@.len());
            assert("wave"@[0] != "dash"@[0]);
            assert("wave"@[0] != "DASH"@[0]);
            assert("wave"@.len() != "dot"@.len());
            assert("wave"@.len() != "DOT"@.len());
            assert("wave"@.len() != "dash_dot"@.len());
            assert("wave"@.len() != "DASH_DOT"@.len());
            assert("wave"@.len() != "dash_dot_dot"@.len());
            assert("wave"@.len() != "DASH_DOT_DOT"@.len());
            assert("wave"@.len() != "long_dash"@.len());
            assert("wave"@.len() != "LONG_DASH"@.len());
            assert("wave"@.len() != "circle"@.len());
            assert("wave"@.len() != "CIRCLE"@.len());
            assert("wave"@.len() != "double"@.len());
            assert("wave"@.len() != "DOUBLE"@.len());
            assert("wave"@.len() != "DOUBLE_SLIM"@.len());
            assert("wave"@.len() != "thin_thick_double"@.len());
            assert("wave"@.len() != "SLIM_THICK"@.len());
            assert("wave"@.len() != "thick_thin_double"@.len());
            assert("wave"@.len() != "THICK_SLIM"@.len());
            assert("wave"@.len() != "thin_thick_thin_triple"@.len());
            assert("wave"@.len() != "SLIM_THICK_SLIM"@.len());
            assert("wave"@[0] != "WAVE"@[0]);
        },
        BorderLineType::DoubleWave => {
            reveal_strlit("CIRCLE");
            reveal_strlit("DASH");
            reveal_strlit("DASH_DOT");
            reveal_strlit("DASH_DOT_DOT");
            reveal_strlit("DOT");
            reveal_strlit("DOUBLE");
            reveal_strlit("DOUBLE_SLIM");
            reveal_strlit("DOUBLE_WAVE");
            reveal_strlit("LONG_DASH");
            reveal_strlit("NONE");
            reveal_strlit("SLIM_THICK");
            reveal_strlit("SLIM_THICK_SLIM");
            reveal_strlit("SOLID");
            reveal_strlit("THICK_SLIM");
            reveal_strlit("WAVE");
            reveal_strlit("circle");
            reveal_strlit("dash");
            reveal_strlit("dash_dot");
            reveal_strlit("dash_dot_dot");
            reveal_strlit("dot");
            reveal_strlit("double");
            reveal_strlit("double_wave");
            reveal_strlit("long_dash");
            reveal_strlit("none");
            reveal_strlit("solid");
            reveal_strlit("thick_thin_double");
            reveal_strlit("thin_thick_double");
            reveal_strlit("thin_thick_thin_triple");
            reveal_strlit("wave");
            assert("double_wave"@.len() != "none"@.len());
            assert("double_wave"@.len() != "NONE"@.len());
            assert("double_wave"@.len() != "solid"@.len());
            assert("double_wave"@.len() != "SOLID"@.len());
            assert("double_wave"@.len() != "dash"@.len());
            assert("double_wave"@.len() != "DASH"@.len());
            assert("double_wave"@.len() != "dot"@.len());
            assert("double_wave"@.len() != "DOT"@.len());
            assert("double_wave"@.len() != "dash_dot"@.len());
            assert("double_wave"@.len() != "DASH_DOT"@.len());
            assert("double_wave"@.len() != "dash_dot_dot"@.len());
            assert("double_wave"@.len() != "DASH_DOT_DOT"@.len());
            assert("double_wave"@.len() != "long_dash"@.len());
            assert("double_wave"@.len() != "LONG_DASH"@.len());
            assert("double_wave"@.len() != "circle"@.len());
            assert("double_wave"@.len() != "CIRCLE"@.len());
            assert("double_wave"@.len() != "double"@.len());
            assert("double_wave"@.len() != "DOUBLE"@.len());
            assert("double_wave"@[0] != "DOUBLE_SLIM"@[0]);
            assert("double_wave"@.len() != "thin_thick_double"@.len());
            assert("double_wave"@.len() != "SLIM_THICK"@.len());
            assert("double_wave"@.len() != "thick_thin_double"@.len());
            assert("double_wave"@.len() != "THICK_SLIM"@.len());
            assert("double_wave"@.len() != "thin_thick_thin_triple"@.len());
            assert("double_wave"@.len() != "SLIM_THICK_SLIM"@.len());
            assert("double_wave"@.len() != "wave"@.len());
            assert("double_wave"@.len() != "WAVE"@.len());
            assert("double_wave"@[0] != "DOUBLE_WAVE"@[0]);
        },
        BorderLineType::Thick3D => {
            reveal_strlit("CIRCLE");
            reveal_strlit("DASH");
            reveal_strlit("DASH_DOT");
            reveal_strlit("DASH_DOT_DOT");
            reveal_strlit("DOT");
            reveal_strlit("DOUBLE");
            reveal_strlit("DOUBLE_SLIM");
            reveal_strlit("DOUBLE_WAVE");
            reveal_strlit("LONG_DASH");
            reveal_strlit("NONE");
            reveal_strlit("SLIM_THICK");
            reveal_strlit("SLIM_THICK_SLIM");
            reveal_strlit("SOLID");
            reveal_strlit("THICK_3D");
            reveal_strlit("THICK_SLIM");
            reveal_strlit("WAVE");
            reveal_strlit("circle");
            reveal_strlit("dash");
            reveal_strlit("dash_dot");
            reveal_strlit("dash_dot_dot");
            reveal_strlit("dot");
            reveal_strlit("double");
            reveal_strlit("double_wave");
            reveal_strlit("long_dash");
            reveal_strlit("none");
            reveal_strlit("solid");
            reveal_strlit("thick_3d");
            reveal_strlit("thick_thin_double");
            reveal_strlit("thin_thick_double");
            reveal_strlit("thin_thick_thin_triple");
            reveal_strlit("wave");
            assert("thick_3d"@.len() != "none"@.len());
            assert("thick_3d"@.len() != "NONE"@.len());
            assert("thick_3d"@.len() != "solid"@.len());
            assert("thick_3d"@.len() != "SOLID"@.len());
            assert("thick_3d"@.len() != "dash"@.len());
            assert("thick_3d"@.len() != "DASH"@.len());
            assert("thick_3d"@.len() != "dot"@.len());
            assert("thick_3d"@.len() != "DOT"@.len());
            assert("thick_3d"@[0] != "dash_dot"@[0]);
            assert("thick_3d"@[0] != "DASH_DOT"@[0]);
            assert("thick_3d"@.len() != "dash_dot_dot"@.len());
            assert("thick_3d"@.len() != "DASH_DOT_DOT"@.len());
            assert("thick_3d"@.len() != "long_dash"@.len());
            assert("thick_3d"@.len() != "LONG_DASH"@.len());
            assert("thick_3d"@.len() != "circle"@.len());
            assert("thick_3d"@.len() != "CIRCLE"@.len());
            assert("thick_3d"@.len() != "double"@.len());
            assert("thick_3d"@.len() != "DOUBLE"@.len());
            assert("thick_3d"@.len() != "DOUBLE_SLIM"@.len());
            assert("thick_3d"@.len() != "thin_thick_double"@.len());
            assert("thick_3d"@.len() != "SLIM_THICK"@.len());
            assert("thick_3d"@.len() != "thick_thin_double"@.len());
            assert("thick_3d"@.len() != "THICK_SLIM"@.len());
            assert("thick_3d"@.len() != "thin_thick_thin_triple"@.len());
            assert("thick_3d"@.len() != "SLIM_THICK_SLIM"@.len());
            assert("thick_3d"@.len() != "wave"@.len());
            assert("thick_3d"@.len() != "WAVE"@.len());
            assert("thick_3d"@.len() != "double_wave"@.len());
            assert("thick_3d"@.len() != "DOUBLE_WAVE"@.len());
            assert("thick_3d"@[0] != "THICK_3D"@[0]);
        },
        BorderLineType::Thick3DReverse => {
            reveal_strlit("CIRCLE");
            reveal_strlit("DASH");
            reveal_strlit("DASH_DOT");
            reveal_strlit("DASH_DOT_DOT");
            reveal_strlit("DOT");
            reveal_strlit("DOUBLE");
            reveal_strlit("DOUBLE_SLIM");
            reveal_strlit("DOUBLE_WAVE");
            reveal_strlit("LONG_DASH");
            reveal_strlit("NONE");
            reveal_strlit("SLIM_THICK");
            reveal_strlit("SLIM_THICK_SLIM");
            reveal_strlit("SOLID");
            reveal_strlit("THICK_3D");
            reveal_strlit("THICK_3D_REVERSE");
            reveal_strlit("THICK_SLIM");
            reveal_strlit("WAVE");
            reveal_strlit("circle");
            reveal_strlit("dash");
            reveal_strlit("dash_dot");
            reveal_strlit("dash_dot_dot");
            reveal_strlit("dot");
            reveal_strlit("double");
            reveal_strlit("double_wave");
            reveal_strlit("long_dash");
            reveal_strlit("none");
            reveal_strlit("solid");
            reveal_strlit("thick_3d");
            reveal_strlit("thick_3d_reverse");
            reveal_strlit("thick_thin_double");
            reveal_strlit("thin_thick_double");
            reveal_strlit("thin_thick_thin_triple");
            reveal_strlit("wave");
            assert("thick_3d_reverse"@.len() != "none"@.len());
            assert("thick_3d_reverse"@.len() != "NONE"@.len());
            assert("thick_3d_reverse"@.len() != "solid"@.len());
            assert("thick_3d_reverse"@.len() != "SOLID"@.len());
            assert("thick_3d_reverse"@.len() != "dash"@.len());
            assert("thick_3d_reverse"@.len() != "DASH"@.len());
            assert("thick_3d_reverse"@.len() != "dot"@.len());
            assert("thick_3d_reverse"@.len() != "DOT"@.len());
            assert("thick_3d_reverse"@.len() != "dash_dot"@.len());
            assert("thick_3d_reverse"@.len() != "DASH_DOT"@.len());
            assert("thick_3d_reverse"@.len() != "dash_dot_dot"@.len());
            assert("thick_3d_reverse"@.len() != "DASH_DOT_DOT"@.len());
            assert("thick_3d_reverse"@.len() != "long_dash"@.len());
            assert("thick_3d_reverse"@.len() != "LONG_DASH"@.len());
            assert("thick_3d_reverse"@.len() != "circle"@.len());
            assert("thick_3d_reverse"@.len() != "CIRCLE"@.len());
            assert("thick_3d_reverse"@.len() != "double"@.len());
            assert("thick_3d_reverse"@.len() != "DOUBLE"@.len());
            assert("thick_3d_reverse"@.len() != "DOUBLE_SLIM"@.len());
            assert("thick_3d_reverse"@.len() != "thin_thick_double"@.len());
            assert("thick_3d_reverse"@.len() != "SLIM_THICK"@.len());
            assert("thick_3d_reverse"@.len() != "thick_thin_double"@.len());
            assert("thick_3d_reverse"@.len() != "THICK_SLIM"@.len());
            assert("thick_3d_reverse"@.len() != "thin_thick_thin_triple"@.len());
            assert("thick_3d_reverse"@.len() != "SLIM_THICK_SLIM"@.len());
            assert("thick_3d_reverse"@.len() != "wave"@.len());
            assert("thick_3d_reverse"@.len() != "WAVE"@.len());
            assert("thick_3d_reverse"@.len() != "double_wave"@.len());
            assert("thick_3d_reverse"@.len() != "DOUBLE_WAVE"@.len());
            assert("thick_3d_reverse"@.len() != "thick_3d"@.len());
            assert("thick_3d_reverse"@.len() != "THICK_3D"@.len());
            assert("thick_3d_reverse"@[0] != "THICK_3D_REVERSE"@[0]);
        },
        BorderLineType::Thin3D => {
            reveal_strlit("CIRCLE");
            reveal_strlit("DASH");
            reveal_strlit("DASH_DOT");
            reveal_strlit("DASH_DOT_DOT");
            reveal_strlit("DOT");
            reveal_strlit("DOUBLE");
            reveal_strlit("DOUBLE_SLIM");
            reveal_strlit("DOUBLE_WAVE");
            reveal_strlit("LONG_DASH");
            reveal_strlit("NONE");
            reveal_strlit("SLIM_THICK");
            reveal_strlit("SLIM_THICK_SLIM");
            reveal_strlit("SOLID");
            reveal_strlit("THICK_3D");
            reveal_strlit("THICK_3D_REVERSE");
            reveal_strlit("THICK_SLIM");
            reveal_strlit("THIN_3D");
            reveal_strlit("WAVE");
            reveal_strlit("circle");
            reveal_strlit("dash");
            reveal_strlit("dash_dot");
            reveal_strlit("dash_dot_dot");
            reveal_strlit("dot");
            reveal_strlit("double");
            reveal_strlit("double_wave");
            reveal_strlit("long_dash");
            reveal_strlit("none");
            reveal_strlit("solid");
            reveal_strlit("thick_3d");
            reveal_strlit("thick_3d_reverse");
            reveal_strlit("thick_thin_double");
            reveal_strlit("thin_3d");
            reveal_strlit("thin_thick_double");
            reveal_strlit("thin_thick_thin_triple");
            reveal_strlit("wave");
            assert("thin_3d"@.len() != "none"@.len());
            assert("thin_3d"@.len() != "NONE"@.len());
            assert("thin_3d"@.len() != "solid"@.len());
            assert("thin_3d"@.len() != "SOLID"@.len());
            assert("thin_3d"@.len() != "dash"@.len());
            assert("thin_3d"@.len() != "DASH"@.len());
            assert("thin_3d"@.len() != "dot"@.len());
            assert("thin_3d"@.len() != "DOT"@.len());
            assert("thin_3d"@.len() != "dash_dot"@.len());
            assert("thin_3d"@.len() != "DASH_DOT"@.len());
            assert("thin_3d"@.len() != "dash_dot_dot"@.len());
            assert("thin_3d"@.len() != "DASH_DOT_DOT"@.len());
            assert("thin_3d"@.len() != "long_dash"@.len());
            assert("thin_3d"@.len() != "LONG_DASH"@.len());
            assert("thin_3d"@.len() != "circle"@.len());
            assert("thin_3d"@.len() != "CIRCLE"@.len());
            assert("thin_3d"@.len() != "double"@.len());
            assert("thin_3d"@.len() != "DOUBLE"@.len());
            assert("thin_3d"@.len() != "DOUBLE_SLIM"@.len());
            assert("thin_3d"@.len() != "thin_thick_double"@.len());
            assert("thin_3d"@.len() != "SLIM_THICK"@.len());
            assert("thin_3d"@.len() != "thick_thin_double"@.len());
            assert("thin_3d"@.len() != "THICK_SLIM"@.len());
            assert("thin_3d"@.len() != "thin_thick_thin_triple"@.len());
            assert("thin_3d"@.len() != "SLIM_THICK_SLIM"@.len());
            assert("thin_3d"@.len() != "wave"@.len());
            assert("thin_3d"@.len() != "WAVE"@.len());
            assert("thin_3d"@.len() != "double_wave"@.len());
            assert("thin_3d"@.len() != "DOUBLE_WAVE"@.len());
            assert("thin_3d"@.len() != "thick_3d"@.len());
            assert("thin_3d"@.len() != "THICK_3D"@.len());
            assert("thin_3d"@.len() != "thick_3d_reverse"@.len());
            assert("thin_3d"@.len() != "THICK_3D_REVERSE"@.len());
            assert("thin_3d"@[0] != "THIN_3D"@[0]);
        },
        BorderLineType::Thin3DReverse => {
            reveal_strlit("CIRCLE");
            reveal_strlit("DASH");
            reveal_strlit("DASH_DOT");
            reveal_strlit("DASH_DOT_DOT");
            reveal_strlit("DOT");
            reveal_strlit("DOUBLE");
            reveal_strlit("DOUBLE_SLIM");
            reveal_strlit("DOUBLE_WAVE");
            reveal_strlit("LONG_DASH");
            reveal_strlit("NONE");
            reveal_strlit("SLIM_THICK");
            reveal_strlit("SLIM_THICK_SLIM");
            reveal_strlit("SOLID");
            reveal_strlit("THICK_3D");
            reveal_strlit("THICK_3D_REVERSE");
            reveal_strlit("THICK_SLIM");
            reveal_strlit("THIN_3D");
            reveal_strlit("THIN_3D_REVERSE");
            reveal_strlit("WAVE");
            reveal_strlit("circle");
            reveal_strlit("dash");
            reveal_strlit("dash_dot");
            reveal_strlit("dash_dot_dot");
            reveal_strlit("dot");
            reveal_strlit("double");
            reveal_strlit("double_wave");
            reveal_strlit("long_dash");
            reveal_strlit("none");
            reveal_strlit("solid");
            reveal_strlit("thick_3d");
            reveal_strlit("thick_3d_reverse");
            reveal_strlit("thick_thin_double");
            reveal_strlit("thin_3d");
            reveal_strlit("thin_3d_reverse");
            reveal_strlit("thin_thick_double");
            reveal_strlit("thin_thick_thin_triple");
            reveal_strlit("wave");
            assert("thin_3d_reverse"@.len() != "none"@.len());
            assert("thin_3d_reverse"@.len() != "NONE"@.len());
            assert("thin_3d_reverse"@.len() != "solid"@.len());
            assert("thin_3d_reverse"@.len() != "SOLID"@.len());
            assert("thin_3d_reverse"@.len() != "dash"@.len());
            assert("thin_3d_reverse"@.len() != "DASH"@.len());
            assert("thin_3d_reverse"@.len() != "dot"@.len());
            assert("thin_3d_reverse"@.len() != "DOT"@.len());
            assert("thin_3d_reverse"@.len() != "dash_dot"@.len());
            assert("thin_3d_reverse"@.len() != "DASH_DOT"@.len());
            assert("thin_3d_reverse"@.len() != "dash_dot_dot"@.len());
            assert("thin_3d_reverse"@.len() != "DASH_DOT_DOT"@.len());
            assert("thin_3d_reverse"@.len() != "long_dash"@.len());
            assert("thin_3d_reverse"@.len() != "LONG_DASH"@.len());
            assert("thin_3d_reverse"@.len() != "circle"@.len());
            assert("thin_3d_reverse"@.len() != "CIRCLE"@.len());
            assert("thin_3d_reverse"@.len() != "double"@.len());
            assert("thin_3d_reverse"@.len() != "DOUBLE"@.len());
            assert("thin_3d_reverse"@.len() != "DOUBLE_SLIM"@.len());
            assert("thin_3d_reverse"@.len() != "thin_thick_double"@.len());
            assert("thin_3d_reverse"@.len() != "SLIM_THICK"@.len());
            assert("thin_3d_reverse"@.len() != "thick_thin_double"@.len());
            assert("thin_3d_reverse"@.len() != "THICK_SLIM"@.len());
            assert("thin_3d_reverse"@.len() != "thin_thick_thin_triple"@.len());
            assert("thin_3d_reverse"@[0] != "SLIM_THICK_SLIM"@[0]);
            assert("thin_3d_reverse"@.len() != "wave"@.len());
            assert("thin_3d_reverse"@.len() != "WAVE"@.len());
            assert("thin_3d_reverse"@.len() != "double_wave"@.len());
            assert("thin_3d_reverse"@.len() != "DOUBLE_WAVE"@.len());
            assert("thin_3d_reverse"@.len() != "thick_3d"@.len());
            assert("thin_3d_reverse"@.len() != "THICK_3D"@.len());
            assert("thin_3d_reverse"@.len() != "thick_3d_reverse"@.len());
            assert("thin_3d_reverse"@.len() != "THICK_3D_REVERSE"@.len());
            assert("thin_3d_reverse"@.len() != "thin_3d"@.len());
            assert("thin_3d_reverse"@.len() != "THIN_3D"@.len());
            assert("thin_3d_reverse"@[0] != "THIN_3D_REVERSE"@[0]);
        },
    }
}

/// Reading back the name that `image_fill_mode_name` gives yields the same value.
pub proof fn lemma_image_fill_mode_from_name_of_image_fill_mode_name(value: ImageFillMode)
    ensures
        image_fill_mode_from_name_spec(image_fill_mode_name_spec(value)) == value,
{
    match value {
        ImageFillMode::TileAll => {
            reveal_strlit("TILE");
            reveal_strlit("TILE_ALL");
            reveal_strlit("tile_all");
            assert("tile_all"@.len() != "TILE"@.len());
            assert("tile_all"@[0] != "TILE_ALL"@[0]);
        },
        ImageFillMode::TileHorzTop => {
            reveal_strlit("TILE");
            reveal_strlit("TILE_ALL");
            reveal_strlit("TILE_HORZ_TOP");
            reveal_strlit("tile_all");
            reveal_strlit("tile_horz_top");
            assert("tile_horz_top"@.len() != "tile_all"@.len());
            assert("tile_horz_top"@.len() != "TILE"@.len());
            assert("tile_horz_top"@.len() != "TILE_ALL"@.len());
            assert("tile_horz_top"@[0] != "TILE_HORZ_TOP"@[0]);
        },
        ImageFillMode::TileHorzBottom => {
            reveal_strlit("TILE");
            reveal_strlit("TILE_ALL");
            reveal_strlit("TILE_HORZ_BOTTOM");
            reveal_strlit("TILE_HORZ_TOP");
            reveal_strlit("tile_all");
            reveal_strlit("tile_horz_bottom");
            reveal_strlit("tile_horz_top");
            assert("tile_horz_bottom"@.len() != "tile_all"@.len());
            assert("tile_horz_bottom"@.len() != "TILE"@.len());
            assert("tile_horz_bottom"@.len() != "TILE_ALL"@.len());
            assert("tile_horz_bottom"@.len() != "tile_horz_top"@.len());
            assert("tile_horz_bottom"@.len() != "TILE_HORZ_TOP"@.len());
            assert("tile_horz_bottom"@[0] != "TILE_HORZ_BOTTOM"@[0]);
        },
        ImageFillMode::TileVertLeft => {
            reveal_strlit("TILE");
            reveal_strlit("TILE_ALL");
            reveal_strlit("TILE_HORZ_BOTTOM");
            reveal_strlit("TILE_HORZ_TOP");
            reveal_strlit("TILE_VERT_LEFT");
            reveal_strlit("tile_all");
            reveal_strlit("tile_horz_bottom");
            reveal_strlit("tile_horz_top");
            reveal_strlit("tile_vert_left");
            assert("tile_vert_left"@.len() != "tile_all"@.len());
            assert("tile_vert_left"@.len() != "TILE"@.len());
            assert("tile_vert_left"@.len() != "TILE_ALL"@.len());
            assert("tile_vert_left"@.len() != "tile_horz_top"@.len());
            assert("tile_vert_left"@.len() != "TILE_HORZ_TOP"@.len());
            assert("tile_vert_left"@.len() != "tile_horz_bottom"@.len());
            assert("tile_vert_left"@.len() != "TILE_HORZ_BOTTOM"@.len());
            assert("tile_vert_left"@[0] != "TILE_VERT_LEFT"@[0]);
        },
        ImageFillMode::TileVertRight => {
            reveal_strlit("TILE");
            reveal_strlit("TILE_ALL");
            reveal_strlit("TILE_HORZ_BOTTOM");
            reveal_strlit("TILE_HORZ_TOP");
            reveal_strlit("TILE_VERT_LEFT");
            reveal_strlit("TILE_VERT_RIGHT");
            reveal_strlit("tile_all");
            reveal_strlit("tile_horz_bottom");
            reveal_strlit("tile_horz_top");
            reveal_strlit("tile_vert_left");
            reveal_strlit("tile_vert_right");
            assert("tile_vert_right"@.len() != "tile_all"@.len());
            assert("tile_vert_right"@.len() != "TILE"@.len());
            assert("tile_vert_right"@.len() != "TILE_ALL"@.len());
            assert("tile_vert_right"@.len() != "tile_horz_top"@.len());
            assert("tile_vert_right"@.len() != "TILE_HORZ_TOP"@.len());
            assert("tile_vert_right"@.len() != "tile_horz_bottom"@.len());
            assert("tile_vert_right"@.len() != "TILE_HORZ_BOTTOM"@.len());
            assert("tile_vert_right"@.len() != "tile_vert_left"@.len());
            assert("tile_vert_right"@.len() != "TILE_VERT_LEFT"@.len());
            assert("tile_vert_right"@[0] != "TILE_VERT_RIGHT"@[0]);
        },
        ImageFillMode::FitToSize => {
            reveal_strlit("FIT");
            reveal_strlit("FIT_TO_SIZE");
            reveal_strlit("TILE");
            reveal_strlit("TILE_ALL");
            reveal_strlit("TILE_HORZ_BOTTOM");
            reveal_strlit("TILE_HORZ_TOP");
            reveal_strlit("TILE_VERT_LEFT");
            reveal_strlit("TILE_VERT_RIGHT");
            reveal_strlit("fit_to_size");
            reveal_strlit("tile_all");
            reveal_strlit("tile_horz_bottom");
            reveal_strlit("tile_horz_top");
            reveal_strlit("tile_vert_left");
            reveal_strlit("tile_vert_right");
            assert("fit_to_size"@.len() != "tile_all"@.len());
            assert("fit_to_size"@.len() != "TILE"@.len());
            assert("fit_to_size"@.len() != "TILE_ALL"@.len());
            assert("fit_to_size"@.len() != "tile_horz_top"@.len());
            assert("fit_to_size"@.len() != "TILE_HORZ_TOP"@.len());
            assert("fit_to_size"@.len() != "tile_horz_bottom"@.len());
            assert("fit_to_size"@.len() != "TILE_HORZ_BOTTOM"@.len());
            assert("fit_to_size"@.len() != "tile_vert_left"@.len());
            assert("fit_to_size"@.len() != "TILE_VERT_LEFT"@.len());
            assert("fit_to_size"@.len() != "tile_vert_right"@.len());
            assert("fit_to_size"@.len() != "TILE_VERT_RIGHT"@.len());
            assert("fit_to_size"@.len() != "FIT"@.len());
            assert("fit_to_size"@[0] != "FIT_TO_SIZE"@[0]);
        },
        ImageFillMode::Center => {
            reveal_strlit("CENTER");
            reveal_strlit("FIT");
            reveal_strlit("FIT_TO_SIZE");
            reveal_strlit("TILE");
            reveal_strlit("TILE_ALL");
            reveal_strlit("TILE_HORZ_BOTTOM");
            reveal_strlit("TILE_HORZ_TOP");
            reveal_strlit("TILE_VERT_LEFT");
            reveal_strlit("TILE_VERT_RIGHT");
            reveal_strlit("center");
            reveal_strlit("fit_to_size");
            reveal_strlit("tile_all");
            reveal_strlit("tile_horz_bottom");
            reveal_strlit("tile_horz_top");
            reveal_strlit("tile_vert_left");
            reveal_strlit("tile_vert_right");
            assert("center"@.len() != "tile_all"@.len());
            assert("center"@.len() != "TILE"@.len());
            assert("center"@.len() != "TILE_ALL"@.len());
            assert("center"@.len() != "tile_horz_top"@.len());
            assert("center"@.len() != "TILE_HORZ_TOP"@.len());
            assert("center"@.len() != "tile_horz_bottom"@.len());
            assert("center"@.len() != "TILE_HORZ_BOTTOM"@.len());
            assert("center"@.len() != "tile_vert_left"@.len());
            assert("center"@.len() != "TILE_VERT_LEFT"@.len());
            assert("center"@.len() != "tile_vert_right"@.len());
            assert("center"@.len() != "TILE_VERT_RIGHT"@.len());
            assert("center"@.len() != "fit_to_size"@.len());
            assert("center"@.len() != "FIT"@.len());
            assert("center"@.len() != "FIT_TO_SIZE"@.len());
            assert("center"@[0] != "CENTER"@[0]);
        },
        ImageFillMode::CenterTop => {
            reveal_strlit("CENTER");
            reveal_strlit("CENTER_TOP");
            reveal_strlit("FIT");
            reveal_strlit("FIT_TO_SIZE");
            reveal_strlit("TILE");
            reveal_strlit("TILE_ALL");
            reveal_strlit("TILE_HORZ_BOTTOM");
            reveal_strlit("TILE_HORZ_TOP");
            reveal_strlit("TILE_VERT_LEFT");
            reveal_strlit("TILE_VERT_RIGHT");
            reveal_strlit("center");
            reveal_strlit("center_top");
            reveal_strlit("fit_to_size");
            reveal_strlit("tile_all");
            reveal_strlit("tile_horz_bottom");
            reveal_strlit("tile_horz_top");
            reveal_strlit("tile_vert_left");
            reveal_strlit("tile_vert_right");
            assert("center_top"@.len() != "tile_all"@.len());
            assert("center_top"@.len() != "TILE"@.len());
            assert("center_top"@.len() != "TILE_ALL"@.len());
            assert("center_top"@.len() != "tile_horz_top"@.len());
            assert("center_top"@.len() != "TILE_HORZ_TOP"@.len());
            assert("center_top"@.len() != "tile_horz_bottom"@.len());
            assert("center_top"@.len() != "TILE_HORZ_BOTTOM"@.len());
            assert("center_top"@.len() != "tile_vert_left"@.len());
            assert("center_top"@.len() != "TILE_VERT_LEFT"@.len());
            assert("center_top"@.len() != "tile_vert_right"@.len());
            assert("center_top"@.len() != "TILE_VERT_RIGHT"@.len());
            assert("center_top"@.len() != "fit_to_size"@.len());
            assert("center_top"@.len() != "FIT"@.len());
            assert("center_top"@.len() != "FIT_TO_SIZE"@.len());
            assert("center_top"@.len() != "center"@.len());
            assert("center_top"@.len() != "CENTER"@.len());
            assert("center_top"@[0] != "CENTER_TOP"@[0]);
        },
        ImageFillMode::CenterBottom => {
            reveal_strlit("CENTER");
            reveal_strlit("CENTER_BOTTOM");
            reveal_strlit("CENTER_TOP");
            reveal_strlit("FIT");
            reveal_strlit("FIT_TO_SIZE");
            reveal_strlit("TILE");
            reveal_strlit("TILE_ALL");
            reveal_strlit("TILE_HORZ_BOTTOM");
            reveal_strlit("TILE_HORZ_TOP");
            reveal_strlit("TILE_VERT_LEFT");
            reveal_strlit("TILE_VERT_RIGHT");
            reveal_strlit("center");
            reveal_strlit("center_bottom");
            reveal_strlit("center_top");
            reveal_strlit("fit_to_size");
            reveal_strlit("tile_all");
            reveal_strlit("tile_horz_bottom");
            reveal_strlit("tile_horz_top");
            reveal_strlit("tile_vert_left");
            reveal_strlit("tile_vert_right");
            assert("center_bottom"@.len() != "tile_all"@.len());
            assert("center_bottom"@.len() != "TILE"@.len());
            assert("center_bottom"@.len() != "TILE_ALL"@.len());
            assert("center_bottom"@[0] != "tile_horz_top"@[0]);
            assert("center_bottom"@[0] != "TILE_HORZ_TOP"@[0]);
            assert("center_bottom"@.len() != "tile_horz_bottom"@.len());
            assert("center_bottom"@.len() != "TILE_HORZ_BOTTOM"@.len());
            assert("center_bottom"@.len() != "tile_vert_left"@.len());
            assert("center_bottom"@.len() != "TILE_VERT_LEFT"@.len());
            assert("center_bottom"@.len() != "tile_vert_right"@.len());
            assert("center_bottom"@.len() != "TILE_VERT_RIGHT"@.len());
            assert("center_bottom"@.len() != "fit_to_size"@.len());
            assert("center_bottom"@.len() != "FIT"@.len());
            assert("center_bottom"@.len() != "FIT_TO_SIZE"@.len());
            assert("center_bottom"@.len() != "center"@.len());
            assert("center_bottom"@.len() != "CENTER"@.len());
            assert("center_bottom"@.len() != "center_top"@.len());
            assert("center_bottom"@.len() != "CENTER_TOP"@.len());
            assert("center_bottom"@[0] != "CENTER_BOTTOM"@[0]);
        },
        ImageFillMode::LeftCenter => {
            reveal_strlit("CENTER");
            reveal_strlit("CENTER_BOTTOM");
            reveal_strlit("CENTER_TOP");
            reveal_strlit("FIT");
            reveal_strlit("FIT_TO_SIZE");
            reveal_strlit("LEFT_CENTER");
            reveal_strlit("TILE");
            reveal_strlit("TILE_ALL");
            reveal_strlit("TILE_HORZ_BOTTOM");
            reveal_strlit("TILE_HORZ_TOP");
            reveal_strlit("TILE_VERT_LEFT");
            reveal_strlit("TILE_VERT_RIGHT");
            reveal_strlit("center");
            reveal_strlit("center_bottom");
            reveal_strlit("center_top");
            reveal_strlit("fit_to_size");
            reveal_strlit("left_center");
            reveal_strlit("tile_all");
            reveal_strlit("tile_horz_bottom");
            reveal_strlit("tile_horz_top");
            reveal_strlit("tile_vert_left");
            reveal_strlit("tile_vert_right");
            assert("left_center"@.len() != "tile_all"@.len());
            assert("left_center"@.len() != "TILE"@.len());
            assert("left_center"@.len() != "TILE_ALL"@.len());
            assert("left_center"@.len() != "tile_horz_top"@.len());
            assert("left_center"@.len() != "TILE_HORZ_TOP"@.len());
            assert("left_center"@.len() != "tile_horz_bottom"@.len());
            assert("left_center"@.len() != "TILE_HORZ_BOTTOM"@.len());
            assert("left_center"@.len() != "tile_vert_left"@.len());
            assert("left_center"@.len() != "TILE_VERT_LEFT"@.len());
            assert("left_center"@.len() != "tile_vert_right"@.len());
            assert("left_center"@.len() != "TILE_VERT_RIGHT"@.len());
            assert("left_center"@[0] != "fit_to_size"@[0]);
            assert("left_center"@.len() != "FIT"@.len());
            assert("left_center"@[0] != "FIT_TO_SIZE"@[0]);
            assert("left_center"@.len() != "center"@.len());
            assert("left_center"@.len() != "CENTER"@.len());
            assert("left_center"@.len() != "center_top"@.len());
            assert("left_center"@.len() != "CENTER_TOP"@.len());
            assert("left_center"@.len() != "center_bottom"@.len());
            assert("left_center"@.len() != "CENTER_BOTTOM"@.len());
            assert("left_center"@[0] != "LEFT_CENTER"@[0]);
        },
        ImageFillMode::LeftTop => {
            reveal_strlit("CENTER");
            reveal_strlit("CENTER_BOTTOM");
            reveal_strlit("CENTER_TOP");
            reveal_strlit("FIT");
            reveal_strlit("FIT_TO_SIZE");
            reveal_strlit("LEFT_CENTER");
            reveal_strlit("LEFT_TOP");
            reveal_strlit("TILE");
            reveal_strlit("TILE_ALL");
            reveal_strlit("TILE_HORZ_BOTTOM");
            reveal_strlit("TILE_HORZ_TOP");
            reveal_strlit("TILE_VERT_LEFT");
            reveal_strlit("TILE_VERT_RIGHT");
            reveal_strlit("TOP_LEFT_ALIGN");
            reveal_strlit("center");
            reveal_strlit("center_bottom");
            reveal_strlit("center_top");
            reveal_strlit("fit_to_size");
            reveal_strlit("left_center");
            reveal_strlit("left_top");
            reveal_strlit("tile_all");
            reveal_strlit("tile_horz_bottom");
            reveal_strlit("tile_horz_top");
            reveal_strlit("tile_vert_left");
            reveal_strlit("tile_vert_right");
            assert("left_top"@[0] != "tile_all"@[0]);
            assert("left_top"@.len() != "TILE"@.len());
            assert("left_top"@[0] != "TILE_ALL"@[0]);
            assert("left_top"@.len() != "tile_horz_top"@.len());
            assert("left_top"@.len() != "TILE_HORZ_TOP"@.len());
            assert("left_top"@.len() != "tile_horz_bottom"@.len());
            assert("left_top"@.len() != "TILE_HORZ_BOTTOM"@.len());
            assert("left_top"@.len() != "tile_vert_left"@.len());
            assert("left_top"@.len() != "TILE_VERT_LEFT"@.len());
            assert("left_top"@.len() != "tile_vert_right"@.len());
            assert("left_top"@.len() != "TILE_VERT_RIGHT"@.len());
            assert("left_top"@.len() != "fit_to_size"@.len());
            assert("left_top"@.len() != "FIT"@.len());
            assert("left_top"@.len() != "FIT_TO_SIZE"@.len());
            assert("left_top"@.len() != "center"@.len());
            assert("left_top"@.len() != "CENTER"@.len());
            assert("left_top"@.len() != "center_top"@.len());
            assert("left_top"@.len() != "CENTER_TOP"@.len());
            assert("left_top"@.len() != "center_bottom"@.len());
            assert("left_top"@.len() != "CENTER_BOTTOM"@.len());
            assert("left_top"@.len() != "left_center"@.len());
            assert("left_top"@.len() != "LEFT_CENTER"@.len());
            assert("left_top"@[0] != "LEFT_TOP"@[0]);
            assert("left_top"@.len() != "TOP_LEFT_ALIGN"@.len());
        },
        ImageFillMode::LeftBottom => {
            reveal_strlit("CENTER");
            reveal_strlit("CENTER_BOTTOM");
            reveal_strlit("CENTER_TOP");
            reveal_strlit("FIT");
            reveal_strlit("FIT_TO_SIZE");
            reveal_strlit("LEFT_BOTTOM");
            reveal_strlit("LEFT_CENTER");
            reveal_strlit("LEFT_TOP");
            reveal_strlit("TILE");
            reveal_strlit("TILE_ALL");
            reveal_strlit("TILE_HORZ_BOTTOM");
            reveal_strlit("TILE_HORZ_TOP");
            reveal_strlit("TILE_VERT_LEFT");
            reveal_strlit("TILE_VERT_RIGHT");
            reveal_strlit("TOP_LEFT_ALIGN");
            reveal_strlit("center");
            reveal_strlit("center_bottom");
            reveal_strlit("center_top");
            reveal_strlit("fit_to_size");
            reveal_strlit("left_bottom");
            reveal_strlit("left_center");
            reveal_strlit("left_top");
            reveal_strlit("tile_all");
            reveal_strlit("tile_horz_bottom");
            reveal_strlit("tile_horz_top");
            reveal_strlit("tile_vert_left");
            reveal_strlit("tile_vert_right");
            assert("left_bottom"@.len() != "tile_all"@.len());
            assert("left_bottom"@.len() != "TILE"@.len());
            assert("left_bottom"@.len() != "TILE_ALL"@.len());
            assert("left_bottom"@.len() != "tile_horz_top"@.len());
            assert("left_bottom"@.len() != "TILE_HORZ_TOP"@.len());
            assert("left_bottom"@.len() != "tile_horz_bottom"@.len());
            assert("left_bottom"@.len() != "TILE_HORZ_BOTTOM"@.len());
            assert("left_bottom"@.len() != "tile_vert_left"@.len());
            assert("left_bottom"@.len() != "TILE_VERT_LEFT"@.len());
            assert("left_bottom"@.len() != "tile_vert_right"@.len());
            assert("left_bottom"@.len() != "TILE_VERT_RIGHT"@.len());
            assert("left_bottom"@[0] != "fit_to_size"@[0]);
            assert("left_bottom"@.len() != "FIT"@.len());
            assert("left_bottom"@[0] != "FIT_TO_SIZE"@[0]);
            assert("left_bottom"@.len() != "center"@.len());
            assert("left_bottom"@.len() != "CENTER"@.len());
            assert("left_bottom"@.len() != "center_top"@.len());
            assert("left_bottom"@.len() != "CENTER_TOP"@.len());
            assert("left_bottom"@.len() != "center_bottom"@.len());
            assert("left_bottom"@.len() != "CENTER_BOTTOM"@.len());
            assert("left_bottom"@[5] != "left_center"@[5]);
            assert("left_bottom"@[0] != "LEFT_CENTER"@[0]);
            assert("left_bottom"@.len() != "left_top"@.len());
            assert("left_bottom"@.len() != "LEFT_TOP"@.len());
            assert("left_bottom"@.len() != "TOP_LEFT_ALIGN"@.len());
            assert("left_bottom"@[0] != "LEFT_BOTTOM"@[0]);
        },
        ImageFillMode::RightCenter => {
            reveal_strlit("CENTER");
            reveal_strlit("CENTER_BOTTOM");
            reveal_strlit("CENTER_TOP");
            reveal_strlit("FIT");
            reveal_strlit("FIT_TO_SIZE");
            reveal_strlit("LEFT_BOTTOM");
            reveal_strlit("LEFT_CENTER");
            reveal_strlit("LEFT_TOP");
            reveal_strlit("RIGHT_CENTER");
            reveal_strlit("TILE");
            reveal_strlit("TILE_ALL");
            reveal_strlit("TILE_HORZ_BOTTOM");
            reveal_strlit("TILE_HORZ_TOP");
            reveal_strlit("TILE_VERT_LEFT");
            reveal_strlit("TILE_VERT_RIGHT");
            reveal_strlit("TOP_LEFT_ALIGN");
            reveal_strlit("center");
            reveal_strlit("center_bottom");
            reveal_strlit("center_top");
            reveal_strlit("fit_to_size");
            reveal_strlit("left_bottom");
            reveal_strlit("left_center");
            reveal_strlit("left_top");
            reveal_strlit("right_center");
            reveal_strlit("tile_all");
            reveal_strlit("tile_horz_bottom");
            reveal_strlit("tile_horz_top");
            reveal_strlit("tile_vert_left");
            reveal_strlit("tile_vert_right");
            assert("right_center"@.len() != "tile_all"@.len());
            assert("right_center"@.len() != "TILE"@.len());
            assert("right_center"@.len() != "TILE_ALL"@.len());
            assert("right_center"@.len() != "tile_horz_top"@.len());
            assert("right_center"@.len() != "TILE_HORZ_TOP"@.len());
            assert("right_center"@.len() != "tile_horz_bottom"@.len());
            assert("right_center"@.len() != "TILE_HORZ_BOTTOM"@.len());
            assert("right_center"@.len() != "tile_vert_left"@.len());
            assert("right_center"@.len() != "TILE_VERT_LEFT"@.len());
            assert("right_center"@.len() != "tile_vert_right"@.len());
            assert("right_center"@.len() != "TILE_VERT_RIGHT"@.len());
            assert("right_center"@.len() != "fit_to_size"@.len());
            assert("right_center"@.len() != "FIT"@.len());
            assert("right_center"@.len() != "FIT_TO_SIZE"@.len());
            assert("right_center"@.len() != "center"@.len());
            assert("right_center"@.len() != "CENTER"@.len());
            assert("right_center"@.len() != "center_top"@.len());
            assert("right_center"@.len() != "CENTER_TOP"@.len());
            assert("right_center"@.len() != "center_bottom"@.len());
            assert("right_center"@.len() != "CENTER_BOTTOM"@.len());
            assert("right_center"@.len() != "left_center"@.len());
            assert("right_center"@.len() != "LEFT_CENTER"@.len());
            assert("right_center"@.len() != "left_top"@.len());
            assert("right_center"@.len() != "LEFT_TOP"@.len());
            assert("right_center"@.len() != "TOP_LEFT_ALIGN"@.len());
            assert("right_center"@.len() != "left_bottom"@.len());
            assert("right_center"@.len() != "LEFT_BOTTOM"@.len());
            assert("right_center"@[0] != "RIGHT_CENTER"@[0]);
        },
        ImageFillMode::RightTop => {
            reveal_strlit("CENTER");
            reveal_strlit("CENTER_BOTTOM");
            reveal_strlit("CENTER_TOP");
            reveal_strlit("FIT");
            reveal_strlit("FIT_TO_SIZE");
            reveal_strlit("LEFT_BOTTOM");
            reveal_strlit("LEFT_CENTER");
            reveal_strlit("LEFT_TOP");
            reveal_strlit("RIGHT_CENTER");
            reveal_strlit("RIGHT_TOP");
            reveal_strlit("TILE");
            reveal_strlit("TILE_ALL");
            reveal_strlit("TILE_HORZ_BOTTOM");
            reveal_strlit("TILE_HORZ_TOP");
            reveal_strlit("TILE_VERT_LEFT");
            reveal_strlit("TILE_VERT_RIGHT");
            reveal_strlit("TOP_LEFT_ALIGN");
            reveal_strlit("center");
            reveal_strlit("center_bottom");
            reveal_strlit("center_top");
            reveal_strlit("fit_to_size");
            reveal_strlit("left_bottom");
            reveal_strlit("left_center");
            reveal_strlit("left_top");
            reveal_strlit("right_center");
            reveal_strlit("right_top");
            reveal_strlit("tile_all");
            reveal_strlit("tile_horz_bottom");
            reveal_strlit("tile_horz_top");
            reveal_strlit("tile_vert_left");
            reveal_strlit("tile_vert_right");
            assert("right_top"@.len() != "tile_all"@.len());
            assert("right_top"@.len() != "TILE"@.len());
            assert("right_top"@.len() != "TILE_ALL"@.len());
            assert("right_top"@.len() != "tile_horz_top"@.len());
            assert("right_top"@.len() != "TILE_HORZ_TOP"@.len());
            assert("right_top"@.len() != "tile_horz_bottom"@.len());
            assert("right_top"@.len() != "TILE_HORZ_BOTTOM"@.len());
            assert("right_top"@.len() != "tile_vert_left"@.len());
            assert("right_top"@.len() != "TILE_VERT_LEFT"@.len());
            assert("right_top"@.len() != "tile_vert_right"@.len());
            assert("right_top"@.len() != "TILE_VERT_RIGHT"@.len());
            assert("right_top"@.len() != "fit_to_size"@.len());
            assert("right_top"@.len() != "FIT"@.len());
            assert("right_top"@.len() != "FIT_TO_SIZE"@.len());
            assert("right_top"@.len() != "center"@.len());
            assert("right_top"@.len() != "CENTER"@.len());
            assert("right_top"@.len() != "center_top"@.len());
            assert("right_top"@.len() != "CENTER_TOP"@.len());
            assert("right_top"@.len() != "center_bottom"@.len());
            assert("right_top"@.len() != "CENTER_BOTTOM"@.len());
            assert("right_top"@.len() != "left_center"@.len());
            assert("right_top"@.len() != "LEFT_CENTER"@.len());
            assert("right_top"@.len() != "left_top"@.len());
            assert("right_top"@.len() != "LEFT_TOP"@.len());
            assert("right_top"@.len() != "TOP_LEFT_ALIGN"@.len());
            assert("right_top"@.len() != "left_bottom"@.len());
            assert("right_top"@.len() != "LEFT_BOTTOM"@.len());
            assert("right_top"@.len() != "right_center"@.len());
            assert("right_top"@.len() != "RIGHT_CENTER"@.len());
            assert("right_top"@[0] != "RIGHT_TOP"@[0]);
        },
        ImageFillMode::RightBottom => {
            reveal_strlit("CENTER");
            reveal_strlit("CENTER_BOTTOM");
            reveal_strlit("CENTER_TOP");
            reveal_strlit("FIT");
            reveal_strlit("FIT_TO_SIZE");
            reveal_strlit("LEFT_BOTTOM");
            reveal_strlit("LEFT_CENTER");
            reveal_strlit("LEFT_TOP");
            reveal_strlit("RIGHT_BOTTOM");
            reveal_strlit("RIGHT_CENTER");
            reveal_strlit("RIGHT_TOP");
            reveal_strlit("TILE");
            reveal_strlit("TILE_ALL");
            reveal_strlit("TILE_HORZ_BOTTOM");
            reveal_strlit("TILE_HORZ_TOP");
            reveal_strlit("TILE_VERT_LEFT");
            reveal_strlit("TILE_VERT_RIGHT");
            reveal_strlit("TOP_LEFT_ALIGN");
            reveal_strlit("center");
            reveal_strlit("center_bottom");
            reveal_strlit("center_top");
            reveal_strlit("fit_to_size");
            reveal_strlit("left_bottom");
            reveal_strlit("left_center");
            reveal_strlit("left_top");
            reveal_strlit("right_bottom");
            reveal_strlit("right_center");
            reveal_strlit("right_top");
            reveal_strlit("tile_all");
            reveal_strlit("tile_horz_bottom");
            reveal_strlit("tile_horz_top");
            reveal_strlit("tile_vert_left");
            reveal_strlit("tile_vert_right");
            assert("right_bottom"@.len() != "tile_all"@.len());
            assert("right_bottom"@.len() != "TILE"@.len());
            assert("right_bottom"@.len() != "TILE_ALL"@.len());
            assert("right_bottom"@.len() != "tile_horz_top"@.len());
            assert("right_bottom"@.len() != "TILE_HORZ_TOP"@.len());
            assert("right_bottom"@.len() != "tile_horz_bottom"@.len());
            assert("right_bottom"@.len() != "TILE_HORZ_BOTTOM"@.len());
            assert("right_bottom"@.len() != "tile_vert_left"@.len());
            assert("right_bottom"@.len() != "TILE_VERT_LEFT"@.len());
            assert("right_bottom"@.len() != "tile_vert_right"@.len());
            assert("right_bottom"@.len() != "TILE_VERT_RIGHT"@.len());
            assert("right_bottom"@.len() != "fit_to_size"@.len());
            assert("right_bottom"@.len() != "FIT"@.len());
            assert("right_bottom"@.len() != "FIT_TO_SIZE"@.len());
            assert("right_bottom"@.len() != "center"@.len());
            assert("right_bottom"@.len() != "CENTER"@.len());
            assert("right_bottom"@.len() != "center_top"@.len());
            assert("right_bottom"@.len() != "CENTER_TOP"@.len());
            assert("right_bottom"@.len() != "center_bottom"@.len());
            assert("right_bottom"@.len() != "CENTER_BOTTOM"@.len());
            assert("right_bottom"@.len() != "left_center"@.len());
            assert("right_bottom"@.len() != "LEFT_CENTER"@.len());
            assert("right_bottom"@.len() != "left_top"@.len());
            assert("right_bottom"@.len() != "LEFT_TOP"@.len());
            assert("right_bottom"@.len() != "TOP_LEFT_ALIGN"@.len());
            assert("right_bottom"@.len() != "left_bottom"@.len());
            assert("right_bottom"@.len() != "LEFT_BOTTOM"@.len());
            assert("right_bottom"@[6] != "right_center"@[6]);
            assert("right_bottom"@[0] != "RIGHT_CENTER"@[0]);
            assert("right_bottom"@.len() != "right_top"@.len());
            assert("right_bottom"@.len() != "RIGHT_TOP"@.len());
            assert("right_bottom"@[0] != "RIGHT_BOTTOM"@[0]);
        },
        ImageFillMode::Unset => {
            reveal_strlit("CENTER");
            reveal_strlit("CENTER_BOTTOM");
            reveal_strlit("CENTER_TOP");
            reveal_strlit("FIT");
            reveal_strlit("FIT_TO_SIZE");
            reveal_strlit("LEFT_BOTTOM");
            reveal_strlit("LEFT_CENTER");
            reveal_strlit("LEFT_TOP");
            reveal_strlit("NONE");
            reveal_strlit("RIGHT_BOTTOM");
            reveal_strlit("RIGHT_CENTER");
            reveal_strlit("RIGHT_TOP");
            reveal_strlit("TILE");
            reveal_strlit("TILE_ALL");
            reveal_strlit("TILE_HORZ_BOTTOM");
            reveal_strlit("TILE_HORZ_TOP");
            reveal_strlit("TILE_VERT_LEFT");
            reveal_strlit("TILE_VERT_RIGHT");
            reveal_strlit("TOP_LEFT_ALIGN");
            reveal_strlit("center");
            reveal_strlit("center_bottom");
            reveal_strlit("center_top");
            reveal_strlit("fit_to_size");
            reveal_strlit("left_bottom");
            reveal_strlit("left_center");
            reveal_strlit("left_top");
            reveal_strlit("none");
            reveal_strlit("right_bottom");
            reveal_strlit("right_center");
            reveal_strlit("right_top");
            reveal_strlit("tile_all");
            reveal_strlit("tile_horz_bottom");
            reveal_strlit("tile_horz_top");
            reveal_strlit("tile_vert_left");
            reveal_strlit("tile_vert_right");
            assert("none"@.len() != "tile_all"@.len());
            assert("none"@[0] != "TILE"@[0]);
            assert("none"@.len() != "TILE_ALL"@.len());
            assert("none"@.len() != "tile_horz_top"@.len());
            assert("none"@.len() != "TILE_HORZ_TOP"@.len());
            assert("none"@.len() != "tile_horz_bottom"@.len());
            assert("none"@.len() != "TILE_HORZ_BOTTOM"@.len());
            assert("none"@.len() != "tile_vert_left"@.len());
            assert("none"@.len() != "TILE_VERT_LEFT"@.len());
            assert("none"@.len() != "tile_vert_right"@.len());
            assert("none"@.len() != "TILE_VERT_RIGHT"@.len());
            assert("none"@.len() != "fit_to_size"@.len());
            assert("none"@.len() != "FIT"@.len());
            assert("none"@.len() != "FIT_TO_SIZE"@.len());
            assert("none"@.len() != "center"@.len());
            assert("none"@.len() != "CENTER"@.len());
            assert("none"@.len() != "center_top"@.len());
            assert("none"@.len() != "CENTER_TOP"@.len());
            assert("none"@.len() != "center_bottom"@.len());
            assert("none"@.len() != "CENTER_BOTTOM"@.len());
            assert("none"@.len() != "left_center"@.len());
            assert("none"@.len() != "LEFT_CENTER"@.len());
            assert("none"@.len() != "left_top"@.len());
            assert("none"@.len() != "LEFT_TOP"@.len());
            assert("none"@.len() != "TOP_LEFT_ALIGN"@.len());
            assert("none"@.len() != "left_bottom"@.len());
            assert("none"@.len() != "LEFT_BOTTOM"@.len());
            assert("none"@.len() != "right_center"@.len());
            assert("none"@.len() != "RIGHT_CENTER"@.len());
            assert("none"@.len() != "right_top"@.len());
            assert("none"@.len() != "RIGHT_TOP"@.len());
            assert("none"@.len() != "right_bottom"@.len());
            assert("none"@.len() != "RIGHT_BOTTOM"@.len());
            assert("none"@[0] != "NONE"@[0]);
        },
    }
}

/// Reading back the name that `footnote_numbering_name` gives yields the same value.
pub proof fn lemma_footnote_numbering_from_str_of_footnote_numbering_name(value: FootnoteNumbering, fallback: FootnoteNumbering)
    ensures
        footnote_numbering_from_str_spec(footnote_numbering_name_spec(value), fallback) == value,
{
    match value {
        FootnoteNumbering::Continue => {
            reveal_strlit("CONTINUOUS");
            reveal_strlit("continue");
            reveal_strlit("continuous");
            assert("continue"@.len() != "CONTINUOUS"@.len());
            assert("continue"@.len() != "continuous"@.len());
        },
        FootnoteNumbering::RestartSection => {
            reveal_strlit("CONTINUOUS");
            reveal_strlit("ON_SECTION");
            reveal_strlit("RESTART_SECTION");
            reveal_strlit("continue");
            reveal_strlit("continuous");
            reveal_strlit("onSection");
            reveal_strlit("restartSection");
            assert("restartSection"@.len() != "continue"@.len());
            assert("restartSection"@.len() != "CONTINUOUS"@.len());
            assert("restartSection"@.len() != "continuous"@.len());
            assert("restartSection"@.len() != "ON_SECTION"@.len());
            assert("restartSection"@.len() != "RESTART_SECTION"@.len());
            assert("restartSection"@.len() != "onSection"@.len());
        },
        FootnoteNumbering::RestartPage => {
            reveal_strlit("CONTINUOUS");
            reveal_strlit("ON_PAGE");
            reveal_strlit("ON_SECTION");
            reveal_strlit("RESTART_PAGE");
            reveal_strlit("RESTART_SECTION");
            reveal_strlit("continue");
            reveal_strlit("continuous");
            reveal_strlit("onPage");
            reveal_strlit("onSection");
            reveal_strlit("restartPage");
            reveal_strlit("restartSection");
            assert("restartPage"@.len() != "continue"@.len());
            assert("restartPage"@.len() != "CONTINUOUS"@.len());
            assert("restartPage"@.len() != "continuous"@.len());
            assert("restartPage"@.len() != "restartSection"@.len());
            assert("restartPage"@.len() != "ON_SECTION"@.len());
            assert("restartPage"@.len() != "RESTART_SECTION"@.len());
            assert("restartPage"@.len() != "onSection"@.len());
            assert("restartPage"@.len() != "ON_PAGE"@.len());
            assert("restartPage"@.len() != "RESTART_PAGE"@.len());
            assert("restartPage"@.len() != "onPage"@.len());
        },
    }
}

/// Reading back the name that `footnote_placement_name` gives yields the same value.
pub proof fn lemma_footnote_placement_from_str_of_footnote_placement_name(value: FootnotePlacement, fallback: FootnotePlacement)
    ensures
        footnote_placement_from_str_spec(footnote_placement_name_spec(value), fallback) == value,
{
    match value {
        FootnotePlacement::EachColumn => {
            reveal_strlit("documentEnd");
            reveal_strlit("eachColumn");
            assert("documentEnd"@.len() != "eachColumn"@.len());
        },
        FootnotePlacement::BelowText => {
            reveal_strlit("belowText");
            reveal_strlit("documentEnd");
            reveal_strlit("eachColumn");
            reveal_strlit("sectionEnd");
            assert("sectionEnd"@.len() != "documentEnd"@.len());
            assert("sectionEnd"@[0] != "eachColumn"@[0]);
            assert("sectionEnd"@.len() != "belowText"@.len());
        },
        FootnotePlacement::RightColumn => {
            reveal_strlit("belowText");
            reveal_strlit("documentEnd");
            reveal_strlit("eachColumn");
            reveal_strlit("rightColumn");
            reveal_strlit("sectionEnd");
            assert("rightColumn"@[0] != "documentEnd"@[0]);
            assert("rightColumn"@.len() != "eachColumn"@.len());
            assert("rightColumn"@.len() != "sectionEnd"@.len());
            assert("rightColumn"@.len() != "belowText"@.len());
        },
    }
}

/// Reading back the name that `alignment_str` gives yields the same value (other than `Split`, which is written as `justify`).
pub proof fn lemma_template_alignment_of_alignment_str(value: Alignment)
    requires
        value != Alignment::Split,

    ensures
        template_alignment_spec(alignment_str_spec(value)) == value,
{
    match value {
        Alignment::Left => {
            reveal_strlit("left");
        },
        Alignment::Right => {
            reveal_strlit("left");
            reveal_strlit("right");
            assert("right"@.len() != "left"@.len());
        },
        Alignment::Center => {
            reveal_strlit("center");
            reveal_strlit("left");
            reveal_strlit("right");
            assert("center"@.len() != "left"@.len());
            assert("center"@.len() != "right"@.len());
        },
        Alignment::Distribute => {
            reveal_strlit("center");
            reveal_strlit("distribute");
            reveal_strlit("left");
            reveal_strlit("right");
            assert("distribute"@.len() != "left"@.len());
            assert("distribute"@.len() != "right"@.len());
            assert("distribute"@.len() != "center"@.len());
        },
        Alignment::Justify => {
            reveal_strlit("center");
            reveal_strlit("distribute");
            reveal_strlit("justify");
            reveal_strlit("left");
            reveal_strlit("right");
            reveal_strlit("split");
            assert("justify"@.len() != "left"@.len());
            assert("justify"@.len() != "right"@.len());
            assert("justify"@.len() != "center"@.len());
            assert("justify"@.len() != "distribute"@.len());
            assert("justify"@.len() != "split"@.len());
        },
        Alignment::Split => {},
    }
}

/// Reading back the name that `vertical_align_name` gives yields the same value.
pub proof fn lemma_vertical_align_from_name_of_vertical_align_name(value: VerticalAlign)
    ensures
        vertical_align_from_name_spec(vertical_align_name_spec(value)) == value,
{
    match value {
        VerticalAlign::Top => {
            reveal_strlit("1");
            reveal_strlit("2");
            reveal_strlit("BOTTOM");
            reveal_strlit("CENTER");
            reveal_strlit("MIDDLE");
            reveal_strlit("bottom");
            reveal_strlit("center");
            reveal_strlit("middle");
            reveal_strlit("top");
            assert("top"@.len() != "bottom"@.len());
            assert("top"@.len() != "BOTTOM"@.len());
            assert("top"@.len() != "2"@.len());
            assert("top"@.len() != "center"@.len());
            assert("top"@.len() != "middle"@.len());
            assert("top"@.len() != "CENTER"@.len());
            assert("top"@.len() != "MIDDLE"@.len());
            assert("top"@.len() != "1"@.len());
        },
        VerticalAlign::Center => {
            reveal_strlit("1");
            reveal_strlit("2");
            reveal_strlit("BOTTOM");
            reveal_strlit("CENTER");
            reveal_strlit("MIDDLE");
            reveal_strlit("bottom");
            reveal_strlit("center");
            reveal_strlit("middle");
            assert("center"@[0] != "bottom"@[0]);
            assert("center"@[0] != "BOTTOM"@[0]);
            assert("center"@.len() != "2"@.len());
            assert("center"@[0] != "middle"@[0]);
            assert("center"@[0] != "CENTER"@[0]);
            assert("center"@[0] != "MIDDLE"@[0]);
            assert("center"@.len() != "1"@.len());
        },
        VerticalAlign::Bottom => {
            reveal_strlit("2");
            reveal_strlit("BOTTOM");
            reveal_strlit("bottom");
            assert("bottom"@[0] != "BOTTOM"@[0]);
            assert("bottom"@.len() != "2"@.len());
        },
    }
}

/// Reading back the name that `caption_direction_name` gives yields the same value.
pub proof fn lemma_caption_direction_from_name_of_caption_direction_name(value: CaptionDirection)
    ensures
        caption_direction_from_name_spec(caption_direction_name_spec(value)) == value,
{
    match value {
        CaptionDirection::Left => {
            reveal_strlit("0");
            reveal_strlit("LEFT");
            reveal_strlit("left");
            assert("left"@[0] != "LEFT"@[0]);
            assert("left"@.len() != "0"@.len());
        },
        CaptionDirection::Right => {
            reveal_strlit("0");
            reveal_strlit("1");
            reveal_strlit("LEFT");
            reveal_strlit("RIGHT");
            reveal_strlit("left");
            reveal_strlit("right");
            assert("right"@.len() != "left"@.len());
            assert("right"@.len() != "LEFT"@.len());
            assert("right"@.len() != "0"@.len());
            assert("right"@[0] != "RIGHT"@[0]);
            assert("right"@.len() != "1"@.len());
        },
        CaptionDirection::Top => {
            reveal_strlit("0");
            reveal_strlit("1");
            reveal_strlit("2");
            reveal_strlit("LEFT");
            reveal_strlit("RIGHT");
            reveal_strlit("TOP");
            reveal_strlit("left");
            reveal_strlit("right");
            reveal_strlit("top");
            assert("top"@.len() != "left"@.len());
            assert("top"@.len() != "LEFT"@.len());
            assert("top"@.len() != "0"@.len());
            assert("top"@.len() != "right"@.len());
            assert("top"@.len() != "RIGHT"@.len());
            assert("top"@.len() != "1"@.len());
            assert("top"@[0] != "TOP"@[0]);
            assert("top"@.len() != "2"@.len());
        },
        CaptionDirection::Bottom => {
            reveal_strlit("0");
            reveal_strlit("1");
            reveal_strlit("2");
            reveal_strlit("LEFT");
            reveal_strlit("RIGHT");
            reveal_strlit("TOP");
            reveal_strlit("bottom");
            reveal_strlit("left");
            reveal_strlit("right");
            reveal_strlit("top");
            assert("bottom"@.len() != "left"@.len());
            assert("bottom"@.len() != "LEFT"@.len());
            assert("bottom"@.len() != "0"@.len());
            assert("bottom"@.len() != "right"@.len());
            assert("bottom"@.len() != "RIGHT"@.len());
            assert("bottom"@.len() != "1"@.len());
            assert("bottom"@.len() != "top"@.len());
            assert("bottom"@.len() != "TOP"@.len());
            assert("bottom"@.len() != "2"@.len());
        },
    }
}

/// Reading back the name that `caption_vert_align_name` gives yields the same value.
pub proof fn lemma_caption_vert_align_from_name_of_caption_vert_align_name(value: CaptionVertAlign)
    ensures
        caption_vert_align_from_name_spec(caption_vert_align_name_spec(value)) == value,
{
    match value {
        CaptionVertAlign::Top => {
            reveal_strlit("1");
            reveal_strlit("2");
            reveal_strlit("BOTTOM");
            reveal_strlit("CENTER");
            reveal_strlit("MIDDLE");
            reveal_strlit("bottom");
            reveal_strlit("center");
            reveal_strlit("middle");
            reveal_strlit("top");
            assert("top"@.len() != "bottom"@.len());
            assert("top"@.len() != "BOTTOM"@.len());
            assert("top"@.len() != "2"@.len());
            assert("top"@.len() != "center"@.len());
            assert("top"@.len() != "middle"@.len());
            assert("top"@.len() != "CENTER"@.len());
            assert("top"@.len() != "MIDDLE"@.len());
            assert("top"@.len() != "1"@.len());
        },
        CaptionVertAlign::Center => {
            reveal_strlit("1");
            reveal_strlit("2");
            reveal_strlit("BOTTOM");
            reveal_strlit("CENTER");
            reveal_strlit("MIDDLE");
            reveal_strlit("bottom");
            reveal_strlit("center");
            reveal_strlit("middle");
            assert("center"@[0] != "bottom"@[0]);
            assert("center"@[0] != "BOTTOM"@[0]);
            assert("center"@.len() != "2"@.len());
            assert("center"@[0] != "middle"@[0]);
            assert("center"@[0] != "CENTER"@[0]);
            assert("center"@[0] != "MIDDLE"@[0]);
            assert("center"@.len() != "1"@.len());
        },
        CaptionVertAlign::Bottom => {
            reveal_strlit("2");
            reveal_strlit("BOTTOM");
            reveal_strlit("bottom");
            assert("bottom"@[0] != "BOTTOM"@[0]);
            assert("bottom"@.len() != "2"@.len());
        },
    }
}

/// Reading back the name that `table_page_break_name` gives yields the same value.
pub proof fn lemma_table_page_break_from_name_of_table_page_break_name(value: TablePageBreak)
    ensures
        table_page_break_from_name_spec(table_page_break_name_spec(value)) == value,
{
    match value {
        TablePageBreak::NoBreak => {
            reveal_strlit("1");
            reveal_strlit("2");
            reveal_strlit("BREAK");
            reveal_strlit("CELL");
            reveal_strlit("ROW");
            reveal_strlit("TABLE");
            reveal_strlit("break");
            reveal_strlit("cell");
            reveal_strlit("none");
            reveal_strlit("row");
            reveal_strlit("table");
            assert("none"@[0] != "cell"@[0]);
            assert("none"@.len() != "table"@.len());
            assert("none"@[0] != "CELL"@[0]);
            assert("none"@.len() != "TABLE"@.len());
            assert("none"@.len() != "1"@.len());
            assert("none"@.len() != "row"@.len());
            assert("none"@.len() != "break"@.len());
            assert("none"@.len() != "ROW"@.len());
            assert("none"@.len() != "BREAK"@.len());
            assert("none"@.len() != "2"@.len());
        },
        TablePageBreak::CellBreak => {
            reveal_strlit("1");
            reveal_strlit("CELL");
            reveal_strlit("TABLE");
            reveal_strlit("cell");
            reveal_strlit("table");
            assert("cell"@.len() != "table"@.len());
            assert("cell"@[0] != "CELL"@[0]);
            assert("cell"@.len() != "TABLE"@.len());
            assert("cell"@.len() != "1"@.len());
        },
        TablePageBreak::RowBreak => {
            reveal_strlit("1");
            reveal_strlit("2");
            reveal_strlit("BREAK");
            reveal_strlit("CELL");
            reveal_strlit("ROW");
            reveal_strlit("TABLE");
            reveal_strlit("break");
            reveal_strlit("cell");
            reveal_strlit("row");
            reveal_strlit("table");
            assert("row"@.len() != "cell"@.len());
            assert("row"@.len() != "table"@.len());
            assert("row"@.len() != "CELL"@.len());
            assert("row"@.len() != "TABLE"@.len());
            assert("row"@.len() != "1"@.len());
            assert("row"@.len() != "break"@.len());
            assert("row"@[0] != "ROW"@[0]);
            assert("row"@.len() != "BREAK"@.len());
            assert("row"@.len() != "2"@.len());
        },
    }
}

/// Reading back the name that `line_spacing_type_str` gives yields the same value.
pub proof fn lemma_line_spacing_type_from_name_of_line_spacing_type_str(value: LineSpacingType)
    ensures
        line_spacing_type_from_name_spec(line_spacing_type_str_spec(value)) == value,
{
    match value {
        LineSpacingType::Fixed => {
            reveal_strlit("1");
            reveal_strlit("FIXED");
            reveal_strlit("Fixed");
            reveal_strlit("fixed");
            assert("Fixed"@[0] != "fixed"@[0]);
            assert("Fixed"@[1] != "FIXED"@[1]);
            assert("Fixed"@.len() != "1"@.len());
        },
        LineSpacingType::SpaceOnly => {
            reveal_strlit("1");
            reveal_strlit("2");
            reveal_strlit("FIXED");
            reveal_strlit("Fixed");
            reveal_strlit("SPACE_ONLY");
            reveal_strlit("SpaceOnly");
            reveal_strlit("fixed");
            reveal_strlit("space_only");
            assert("SpaceOnly"@.len() != "Fixed"@.len());
            assert("SpaceOnly"@.len() != "fixed"@.len());
            assert("SpaceOnly"@.len() != "FIXED"@.len());
            assert("SpaceOnly"@.len() != "1"@.len());
            assert("SpaceOnly"@.len() != "space_only"@.len());
            assert("SpaceOnly"@.len() != "SPACE_ONLY"@.len());
            assert("SpaceOnly"@.len() != "2"@.len());
        },
        LineSpacingType::Minimum => {
            reveal_strlit("1");
            reveal_strlit("2");
            reveal_strlit("3");
            reveal_strlit("FIXED");
            reveal_strlit("Fixed");
            reveal_strlit("MINIMUM");
            reveal_strlit("Minimum");
            reveal_strlit("SPACE_ONLY");
            reveal_strlit("SpaceOnly");
            reveal_strlit("fixed");
            reveal_strlit("minimum");
            reveal_strlit("space_only");
            assert("Minimum"@.len() != "Fixed"@.len());
            assert("Minimum"@.len() != "fixed"@.len());
            assert("Minimum"@.len() != "FIXED"@.len());
            assert("Minimum"@.len() != "1"@.len());
            assert("Minimum"@.len() != "SpaceOnly"@.len());
            assert("Minimum"@.len() != "space_only"@.len());
            assert("Minimum"@.len() != "SPACE_ONLY"@.len());
            assert("Minimum"@.len() != "2"@.len());
            assert("Minimum"@[0] != "minimum"@[0]);
            assert("Minimum"@[1] != "MINIMUM"@[1]);
            assert("Minimum"@.len() != "3"@.len());
        },
        LineSpacingType::Percent => {
            reveal_strlit("1");
            reveal_strlit("2");
            reveal_strlit("3");
            reveal_strlit("FIXED");
            reveal_strlit("Fixed");
            reveal_strlit("MINIMUM");
            reveal_strlit("Minimum");
            reveal_strlit("Percent");
            reveal_strlit("SPACE_ONLY");
            reveal_strlit("SpaceOnly");
            reveal_strlit("fixed");
            reveal_strlit("minimum");
            reveal_strlit("space_only");
            assert("Percent"@.len() != "Fixed"@.len());
            assert("Percent"@.len() != "fixed"@.len());
            assert("Percent"@.len() != "FIXED"@.len());
            assert("Percent"@.len() != "1"@.len());
            assert("Percent"@.len() != "SpaceOnly"@.len());
            assert("Percent"@.len() != "space_only"@.len());
            assert("Percent"@.len() != "SPACE_ONLY"@.len());
            assert("Percent"@.len() != "2"@.len());
            assert("Percent"@[0] != "Minimum"@[0]);
            assert("Percent"@[0] != "minimum"@[0]);
            assert("Percent"@[0] != "MINIMUM"@[0]);
            assert("Percent"@.len() != "3"@.len());
        },
    }
}

/// Reading back the name that `head_type_name` gives yields the same value.
pub proof fn lemma_head_type_from_name_of_head_type_name(value: HeadType)
    ensures
        head_type_from_name_spec(head_type_name_spec(value)) == value,
{
    match value {
        HeadType::Outline => {
            reveal_strlit("1");
            reveal_strlit("OUTLINE");
            reveal_strlit("outline");
            assert("outline"@[0] != "OUTLINE"@[0]);
            assert("outline"@.len() != "1"@.len());
        },
        HeadType::Number => {
            reveal_strlit("1");
            reveal_strlit("2");
            reveal_strlit("NUMBER");
            reveal_strlit("OUTLINE");
            reveal_strlit("number");
            reveal_strlit("outline");
            assert("number"@.len() != "outline"@.len());
            assert("number"@.len() != "OUTLINE"@.len());
            assert("number"@.len() != "1"@.len());
            assert("number"@[0] != "NUMBER"@[0]);
            assert("number"@.len() != "2"@.len());
        },
        HeadType::Bullet => {
            reveal_strlit("1");
            reveal_strlit("2");
            reveal_strlit("3");
            reveal_strlit("BULLET");
            reveal_strlit("NUMBER");
            reveal_strlit("OUTLINE");
            reveal_strlit("bullet");
            reveal_strlit("number");
            reveal_strlit("outline");
            assert("bullet"@.len() != "outline"@.len());
            assert("bullet"@.len() != "OUTLINE"@.len());
            assert("bullet"@.len() != "1"@.len());
            assert("bullet"@[0] != "number"@[0]);
            assert("bullet"@[0] != "NUMBER"@[0]);
            assert("bullet"@.len() != "2"@.len());
            assert("bullet"@[0] != "BULLET"@[0]);
            assert("bullet"@.len() != "3"@.len());
        },
        HeadType::NoHead => {
            reveal_strlit("1");
            reveal_strlit("2");
            reveal_strlit("3");
            reveal_strlit("BULLET");
            reveal_strlit("NUMBER");
            reveal_strlit("OUTLINE");
            reveal_strlit("bullet");
            reveal_strlit("none");
            reveal_strlit("number");
            reveal_strlit("outline");
            assert("none"@.len() != "outline"@.len());
            assert("none"@.len() != "OUTLINE"@.len());
            assert("none"@.len() != "1"@.len());
            assert("none"@.len() != "number"@.len());
            assert("none"@.len() != "NUMBER"@.len());
            assert("none"@.len() != "2"@.len());
            assert("none"@.len() != "bullet"@.len());
            assert("none"@.len() != "BULLET"@.len());
            assert("none"@.len() != "3"@.len());
        },
    }
}

/// The code that `binding_method_to_u8` gives each value.
pub proof fn lemma_binding_method_to_u8_values(binding: BindingMethod)
    ensures
        binding == BindingMethod::DuplexSided ==> binding_method_to_u8_spec(binding) == 1,
        binding == BindingMethod::SingleSided ==> binding_method_to_u8_spec(binding) == 0,
        binding == BindingMethod::TopFlip ==> binding_method_to_u8_spec(binding) == 2,
{
}

/// The code that `apply_to_u8` gives each value.
pub proof fn lemma_apply_to_u8_values(apply_to: HeaderFooterApply)
    ensures
        apply_to == HeaderFooterApply::Both ==> apply_to_u8_spec(apply_to) == 0,
        apply_to == HeaderFooterApply::Even ==> apply_to_u8_spec(apply_to) == 1,
        apply_to == HeaderFooterApply::Odd ==> apply_to_u8_spec(apply_to) == 2,
{
}

} // verus!
