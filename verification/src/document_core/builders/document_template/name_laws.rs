//! Laws of the enumeration names: which text each value is written as,
//! and which texts and codes are read back as each value.

use super::names::{
    alignment_str_spec, apply_to_from_u8_spec, binding_method_from_u8_spec, border_line_type_from_code_spec, border_line_type_name_spec, caption_direction_from_name_spec, caption_direction_name_spec, caption_vert_align_from_name_spec, caption_vert_align_name_spec, fill_type_from_name_spec, fill_type_name_spec, footnote_number_format_name_spec, footnote_numbering_name_spec, footnote_placement_name_spec, head_type_from_name_spec, head_type_name_spec, horz_rel_to_name_spec, image_fill_mode_name_spec, line_spacing_type_from_name_spec, line_spacing_type_str_spec, obj_horz_align_name_spec, obj_vert_align_name_spec, object_numbering_type_name_spec, picture_effect_template_value_spec, size_criterion_name_spec, table_page_break_from_name_spec, table_page_break_name_spec, template_alignment_spec, text_flow_name_spec, text_wrap_name_spec, underline_type_from_template_spec, underline_type_str_spec, vert_rel_to_name_spec, vertical_align_from_name_spec, vertical_align_name_spec,
};
use crate::model::{
    Alignment, BindingMethod, BorderLineType, CaptionDirection, CaptionVertAlign, FillType,
    FootnoteNumbering, FootnotePlacement, HeadType, HeaderFooterApply, HorzAlign, HorzRelTo,
    ImageEffect, ImageFillMode, LineSpacingType, NumberFormat, ObjectNumberingType, SizeCriterion,
    TablePageBreak, TextFlow, TextWrap, UnderlineType, VertAlign, VertRelTo, VerticalAlign,
};
use vstd::prelude::*;
use vstd::string::*;

verus! {

/// The text that `picture_effect_template_value` gives each value.
pub proof fn lemma_picture_effect_template_value_values(effect: ImageEffect)
    ensures
        effect == ImageEffect::BlackWhite ==> picture_effect_template_value_spec(effect) == "black_white"@,
        effect == ImageEffect::GrayScale ==> picture_effect_template_value_spec(effect) == "gray_scale"@,
        effect == ImageEffect::Pattern8x8 ==> picture_effect_template_value_spec(effect) == "pattern8x8"@,
        effect == ImageEffect::RealPic ==> picture_effect_template_value_spec(effect) == Seq::<char>::empty(),
{
}

/// The text that `fill_type_name` gives each value.
pub proof fn lemma_fill_type_name_values(value: FillType)
    ensures
        value == FillType::Gradient ==> fill_type_name_spec(value) == "gradient"@,
        value == FillType::Image ==> fill_type_name_spec(value) == "image"@,
        value == FillType::NoFill ==> fill_type_name_spec(value) == "none"@,
        value == FillType::Solid ==> fill_type_name_spec(value) == "solid"@,
{
}

/// The text that `footnote_numbering_name` gives each value.
pub proof fn lemma_footnote_numbering_name_values(value: FootnoteNumbering)
    ensures
        value == FootnoteNumbering::Continue ==> footnote_numbering_name_spec(value) == "continue"@,
        value == FootnoteNumbering::RestartPage ==> footnote_numbering_name_spec(value) == "restartPage"@,
        value == FootnoteNumbering::RestartSection ==> footnote_numbering_name_spec(value) == "restartSection"@,
{
}

/// The text that `footnote_placement_name` gives each value.
pub proof fn lemma_footnote_placement_name_values(value: FootnotePlacement)
    ensures
        value == FootnotePlacement::BelowText ==> footnote_placement_name_spec(value) == "sectionEnd"@,
        value == FootnotePlacement::EachColumn ==> footnote_placement_name_spec(value) == "documentEnd"@,
        value == FootnotePlacement::RightColumn ==> footnote_placement_name_spec(value) == "rightColumn"@,
{
}

/// The text that `underline_type_str` gives each value.
pub proof fn lemma_underline_type_str_values(value: UnderlineType)
    ensures
        value == UnderlineType::Bottom ==> underline_type_str_spec(value) == "Bottom"@,
        value == UnderlineType::NoUnderline ==> underline_type_str_spec(value) == "None"@,
        value == UnderlineType::Top ==> underline_type_str_spec(value) == "Top"@,
{
}

/// The text that `alignment_str` gives each value.
pub proof fn lemma_alignment_str_values(value: Alignment)
    ensures
        value == Alignment::Center ==> alignment_str_spec(value) == "center"@,
        value == Alignment::Distribute ==> alignment_str_spec(value) == "distribute"@,
        value == Alignment::Justify || value == Alignment::Split ==> alignment_str_spec(value) == "justify"@,
        value == Alignment::Left ==> alignment_str_spec(value) == "left"@,
        value == Alignment::Right ==> alignment_str_spec(value) == "right"@,
{
}

/// The text that `vertical_align_name` gives each value.
pub proof fn lemma_vertical_align_name_values(value: VerticalAlign)
    ensures
        value == VerticalAlign::Bottom ==> vertical_align_name_spec(value) == "bottom"@,
        value == VerticalAlign::Center ==> vertical_align_name_spec(value) == "center"@,
        value == VerticalAlign::Top ==> vertical_align_name_spec(value) == "top"@,
{
}

/// The text that `vert_rel_to_name` gives each value.
pub proof fn lemma_vert_rel_to_name_values(value: VertRelTo)
    ensures
        value == VertRelTo::Page ==> vert_rel_to_name_spec(value) == "page"@,
        value == VertRelTo::Paper ==> vert_rel_to_name_spec(value) == "paper"@,
        value == VertRelTo::Para ==> vert_rel_to_name_spec(value) == "para"@,
{
}

/// The text that `obj_vert_align_name` gives each value.
pub proof fn lemma_obj_vert_align_name_values(value: VertAlign)
    ensures
        value == VertAlign::Bottom ==> obj_vert_align_name_spec(value) == "bottom"@,
        value == VertAlign::Center ==> obj_vert_align_name_spec(value) == "center"@,
        value == VertAlign::Inside ==> obj_vert_align_name_spec(value) == "inside"@,
        value == VertAlign::Outside ==> obj_vert_align_name_spec(value) == "outside"@,
        value == VertAlign::Top ==> obj_vert_align_name_spec(value) == "top"@,
{
}

/// The text that `horz_rel_to_name` gives each value.
pub proof fn lemma_horz_rel_to_name_values(value: HorzRelTo)
    ensures
        value == HorzRelTo::Column ==> horz_rel_to_name_spec(value) == "column"@,
        value == HorzRelTo::Page ==> horz_rel_to_name_spec(value) == "page"@,
        value == HorzRelTo::Paper ==> horz_rel_to_name_spec(value) == "paper"@,
        value == HorzRelTo::Para ==> horz_rel_to_name_spec(value) == "para"@,
{
}

/// The text that `obj_horz_align_name` gives each value.
pub proof fn lemma_obj_horz_align_name_values(value: HorzAlign)
    ensures
        value == HorzAlign::Center ==> obj_horz_align_name_spec(value) == "center"@,
        value == HorzAlign::Inside ==> obj_horz_align_name_spec(value) == "inside"@,
        value == HorzAlign::Left ==> obj_horz_align_name_spec(value) == "left"@,
        value == HorzAlign::Outside ==> obj_horz_align_name_spec(value) == "outside"@,
        value == HorzAlign::Right ==> obj_horz_align_name_spec(value) == "right"@,
{
}

/// The text that `text_wrap_name` gives each value.
pub proof fn lemma_text_wrap_name_values(value: TextWrap)
    ensures
        value == TextWrap::BehindText ==> text_wrap_name_spec(value) == "behind_text"@,
        value == TextWrap::InFrontOfText ==> text_wrap_name_spec(value) == "in_front_of_text"@,
        value == TextWrap::Square ==> text_wrap_name_spec(value) == "square"@,
        value == TextWrap::Through ==> text_wrap_name_spec(value) == "through"@,
        value == TextWrap::Tight ==> text_wrap_name_spec(value) == "tight"@,
        value == TextWrap::TopAndBottom ==> text_wrap_name_spec(value) == "top_and_bottom"@,
{
}

/// The text that `text_flow_name` gives each value.
pub proof fn lemma_text_flow_name_values(value: TextFlow)
    ensures
        value == TextFlow::BothSides ==> text_flow_name_spec(value) == "both_sides"@,
        value == TextFlow::LargestOnly ==> text_flow_name_spec(value) == "largest_only"@,
        value == TextFlow::LeftOnly ==> text_flow_name_spec(value) == "left_only"@,
        value == TextFlow::RightOnly ==> text_flow_name_spec(value) == "right_only"@,
{
}

/// The text that `size_criterion_name` gives each value.
pub proof fn lemma_size_criterion_name_values(value: SizeCriterion)
    ensures
        value == SizeCriterion::Absolute ==> size_criterion_name_spec(value) == "absolute"@,
        value == SizeCriterion::Column ==> size_criterion_name_spec(value) == "column"@,
        value == SizeCriterion::Page ==> size_criterion_name_spec(value) == "page"@,
        value == SizeCriterion::Paper ==> size_criterion_name_spec(value) == "paper"@,
        value == SizeCriterion::Para ==> size_criterion_name_spec(value) == "para"@,
{
}

/// The text that `object_numbering_type_name` gives each value.
pub proof fn lemma_object_numbering_type_name_values(value: ObjectNumberingType)
    ensures
        value == ObjectNumberingType::Equation ==> object_numbering_type_name_spec(value) == "equation"@,
        value == ObjectNumberingType::NoNumbering ==> object_numbering_type_name_spec(value) == "none"@,
        value == ObjectNumberingType::Picture ==> object_numbering_type_name_spec(value) == "picture"@,
        value == ObjectNumberingType::Table ==> object_numbering_type_name_spec(value) == "table"@,
{
}

/// The text that `caption_direction_name` gives each value.
pub proof fn lemma_caption_direction_name_values(value: CaptionDirection)
    ensures
        value == CaptionDirection::Bottom ==> caption_direction_name_spec(value) == "bottom"@,
        value == CaptionDirection::Left ==> caption_direction_name_spec(value) == "left"@,
        value == CaptionDirection::Right ==> caption_direction_name_spec(value) == "right"@,
        value == CaptionDirection::Top ==> caption_direction_name_spec(value) == "top"@,
{
}

/// The text that `caption_vert_align_name` gives each value.
pub proof fn lemma_caption_vert_align_name_values(value: CaptionVertAlign)
    ensures
        value == CaptionVertAlign::Bottom ==> caption_vert_align_name_spec(value) == "bottom"@,
        value == CaptionVertAlign::Center ==> caption_vert_align_name_spec(value) == "center"@,
        value == CaptionVertAlign::Top ==> caption_vert_align_name_spec(value) == "top"@,
{
}

/// The text that `table_page_break_name` gives each value.
pub proof fn lemma_table_page_break_name_values(value: TablePageBreak)
    ensures
        value == TablePageBreak::CellBreak ==> table_page_break_name_spec(value) == "cell"@,
        value == TablePageBreak::NoBreak ==> table_page_break_name_spec(value) == "none"@,
        value == TablePageBreak::RowBreak ==> table_page_break_name_spec(value) == "row"@,
{
}

/// The text that `line_spacing_type_str` gives each value.
pub proof fn lemma_line_spacing_type_str_values(value: LineSpacingType)
    ensures
        value == LineSpacingType::Fixed ==> line_spacing_type_str_spec(value) == "Fixed"@,
        value == LineSpacingType::Minimum ==> line_spacing_type_str_spec(value) == "Minimum"@,
        value == LineSpacingType::Percent ==> line_spacing_type_str_spec(value) == "Percent"@,
        value == LineSpacingType::SpaceOnly ==> line_spacing_type_str_spec(value) == "SpaceOnly"@,
{
}

/// The text that `head_type_name` gives each value.
pub proof fn lemma_head_type_name_values(value: HeadType)
    ensures
        value == HeadType::Bullet ==> head_type_name_spec(value) == "bullet"@,
        value == HeadType::NoHead ==> head_type_name_spec(value) == "none"@,
        value == HeadType::Number ==> head_type_name_spec(value) == "number"@,
        value == HeadType::Outline ==> head_type_name_spec(value) == "outline"@,
{
}

/// The codes for which `binding_method_from_u8` gives each value; any other code gives the
/// default.
pub proof fn lemma_binding_method_from_u8_codes(binding: u8)
    ensures
        binding_method_from_u8_spec(binding) == BindingMethod::DuplexSided <==> (binding == 1),
        binding_method_from_u8_spec(binding) == BindingMethod::SingleSided <==> (!(binding == 1 || binding == 2)),
        binding_method_from_u8_spec(binding) == BindingMethod::TopFlip <==> (binding == 2),
{
}

/// The codes for which `apply_to_from_u8` gives each value; any other code gives the
/// default.
pub proof fn lemma_apply_to_from_u8_codes(apply_to: u8)
    ensures
        apply_to_from_u8_spec(apply_to) == HeaderFooterApply::Both <==> (!(apply_to == 1 || apply_to == 2)),
        apply_to_from_u8_spec(apply_to) == HeaderFooterApply::Even <==> (apply_to == 1),
        apply_to_from_u8_spec(apply_to) == HeaderFooterApply::Odd <==> (apply_to == 2),
{
}

/// The texts for which `fill_type_from_name` gives each value; any other text gives
/// the default.
pub proof fn lemma_fill_type_from_name_texts(value: Seq<char>)
    ensures
        fill_type_from_name_spec(value) == FillType::Gradient <==> (value == "GRADIENT"@ || value == "gradient"@),
        fill_type_from_name_spec(value) == FillType::Image <==> (value == "IMAGE"@ || value == "image"@),
        fill_type_from_name_spec(value) == FillType::NoFill <==> (!(value == "GRADIENT"@ || value == "IMAGE"@ || value == "SOLID"@ || value == "gradient"@ || value == "image"@ || value == "solid"@)),
        fill_type_from_name_spec(value) == FillType::Solid <==> (value == "SOLID"@ || value == "solid"@),
{
    reveal_strlit("GRADIENT");
    reveal_strlit("IMAGE");
    reveal_strlit("SOLID");
    reveal_strlit("gradient");
    reveal_strlit("image");
    reveal_strlit("solid");
    assert("GRADIENT"@.len() != "IMAGE"@.len());
    assert("GRADIENT"@.len() != "SOLID"@.len());
    assert("GRADIENT"@[0] != "gradient"@[0]);
    assert("GRADIENT"@.len() != "image"@.len());
    assert("GRADIENT"@.len() != "solid"@.len());
    assert("IMAGE"@[0] != "SOLID"@[0]);
    assert("IMAGE"@.len() != "gradient"@.len());
    assert("IMAGE"@[0] != "image"@[0]);
    assert("IMAGE"@[0] != "solid"@[0]);
    assert("SOLID"@.len() != "gradient"@.len());
    assert("SOLID"@[0] != "image"@[0]);
    assert("SOLID"@[0] != "solid"@[0]);
    assert("gradient"@.len() != "image"@.len());
    assert("gradient"@.len() != "solid"@.len());
    assert("image"@[0] != "solid"@[0]);
}

/// The texts for which `underline_type_from_template` gives each value; any other text gives
/// the default.
pub proof fn lemma_underline_type_from_template_texts(value: Seq<char>)
    ensures
        underline_type_from_template_spec(value) == UnderlineType::Bottom <==> (value == "1"@ || value == "BOTTOM"@ || value == "Bottom"@ || value == "bottom"@),
        underline_type_from_template_spec(value) == UnderlineType::NoUnderline <==> (!(value == "1"@ || value == "3"@ || value == "BOTTOM"@ || value == "Bottom"@ || value == "TOP"@ || value == "Top"@ || value == "bottom"@ || value == "top"@)),
        underline_type_from_template_spec(value) == UnderlineType::Top <==> (value == "3"@ || value == "TOP"@ || value == "Top"@ || value == "top"@),
{
    reveal_strlit("1");
    reveal_strlit("3");
    reveal_strlit("BOTTOM");
    reveal_strlit("Bottom");
    reveal_strlit("TOP");
    reveal_strlit("Top");
    reveal_strlit("bottom");
    reveal_strlit("top");
    assert("1"@[0] != "3"@[0]);
    assert("1"@.len() != "BOTTOM"@.len());
    assert("1"@.len() != "Bottom"@.len());
    assert("1"@.len() != "TOP"@.len());
    assert("1"@.len() != "Top"@.len());
    assert("1"@.len() != "bottom"@.len());
    assert("1"@.len() != "top"@.len());
    assert("3"@.len() != "BOTTOM"@.len());
    assert("3"@.len() != "Bottom"@.len());
    assert("3"@.len() != "TOP"@.len());
    assert("3"@.len() != "Top"@.len());
    assert("3"@.len() != "bottom"@.len());
    assert("3"@.len() != "top"@.len());
    assert("BOTTOM"@[1] != "Bottom"@[1]);
    assert("BOTTOM"@.len() != "TOP"@.len());
    assert("BOTTOM"@.len() != "Top"@.len());
    assert("BOTTOM"@[0] != "bottom"@[0]);
    assert("BOTTOM"@.len() != "top"@.len());
    assert("Bottom"@.len() != "TOP"@.len());
    assert("Bottom"@.len() != "Top"@.len());
    assert("Bottom"@[0] != "bottom"@[0]);
    assert("Bottom"@.len() != "top"@.len());
    assert("TOP"@[1] != "Top"@[1]);
    assert("TOP"@.len() != "bottom"@.len());
    assert("TOP"@[0] != "top"@[0]);
    assert("Top"@.len() != "bottom"@.len());
    assert("Top"@[0] != "top"@[0]);
    assert("bottom"@.len() != "top"@.len());
}

/// The texts for which `template_alignment` gives each value; any other text gives
/// the default.
pub proof fn lemma_template_alignment_texts(value: Seq<char>)
    ensures
        template_alignment_spec(value) == Alignment::Center <==> (value == "center"@),
        template_alignment_spec(value) == Alignment::Distribute <==> (value == "distribute"@),
        template_alignment_spec(value) == Alignment::Justify <==> (!(value == "center"@ || value == "distribute"@ || value == "left"@ || value == "right"@ || value == "split"@)),
        template_alignment_spec(value) == Alignment::Left <==> (value == "left"@),
        template_alignment_spec(value) == Alignment::Right <==> (value == "right"@),
        template_alignment_spec(value) == Alignment::Split <==> (value == "split"@),
{
    reveal_strlit("center");
    reveal_strlit("distribute");
    reveal_strlit("left");
    reveal_strlit("right");
    reveal_strlit("split");
    assert("center"@.len() != "distribute"@.len());
    assert("center"@.len() != "left"@.len());
    assert("center"@.len() != "right"@.len());
    assert("center"@.len() != "split"@.len());
    assert("distribute"@.len() != "left"@.len());
    assert("distribute"@.len() != "right"@.len());
    assert("distribute"@.len() != "split"@.len());
    assert("left"@.len() != "right"@.len());
    assert("left"@.len() != "split"@.len());
    assert("right"@[0] != "split"@[0]);
}

/// The texts for which `vertical_align_from_name` gives each value; any other text gives
/// the default.
pub proof fn lemma_vertical_align_from_name_texts(value: Seq<char>)
    ensures
        vertical_align_from_name_spec(value) == VerticalAlign::Bottom <==> (value == "2"@ || value == "BOTTOM"@ || value == "bottom"@),
        vertical_align_from_name_spec(value) == VerticalAlign::Center <==> (value == "1"@ || value == "CENTER"@ || value == "MIDDLE"@ || value == "center"@ || value == "middle"@),
        vertical_align_from_name_spec(value) == VerticalAlign::Top <==> (!(value == "1"@ || value == "2"@ || value == "BOTTOM"@ || value == "CENTER"@ || value == "MIDDLE"@ || value == "bottom"@ || value == "center"@ || value == "middle"@)),
{
    reveal_strlit("1");
    reveal_strlit("2");
    reveal_strlit("BOTTOM");
    reveal_strlit("CENTER");
    reveal_strlit("MIDDLE");
    reveal_strlit("bottom");
    reveal_strlit("center");
    reveal_strlit("middle");
    assert("1"@[0] != "2"@[0]);
    assert("1"@.len() != "BOTTOM"@.len());
    assert("1"@.len() != "CENTER"@.len());
    assert("1"@.len() != "MIDDLE"@.len());
    assert("1"@.len() != "bottom"@.len());
    assert("1"@.len() != "center"@.len());
    assert("1"@.len() != "middle"@.len());
    assert("2"@.len() != "BOTTOM"@.len());
    assert("2"@.len() != "CENTER"@.len());
    assert("2"@.len() != "MIDDLE"@.len());
    assert("2"@.len() != "bottom"@.len());
    assert("2"@.len() != "center"@.len());
    assert("2"@.len() != "middle"@.len());
    assert("BOTTOM"@[0] != "CENTER"@[0]);
    assert("BOTTOM"@[0] != "MIDDLE"@[0]);
    assert("BOTTOM"@[0] != "bottom"@[0]);
    assert("BOTTOM"@[0] != "center"@[0]);
    assert("BOTTOM"@[0] != "middle"@[0]);
    assert("CENTER"@[0] != "MIDDLE"@[0]);
    assert("CENTER"@[0] != "bottom"@[0]);
    assert("CENTER"@[0] != "center"@[0]);
    assert("CENTER"@[0] != "middle"@[0]);
    assert("MIDDLE"@[0] != "bottom"@[0]);
    assert("MIDDLE"@[0] != "center"@[0]);
    assert("MIDDLE"@[0] != "middle"@[0]);
    assert("bottom"@[0] != "center"@[0]);
    assert("bottom"@[0] != "middle"@[0]);
    assert("center"@[0] != "middle"@[0]);
}

/// The texts for which `caption_direction_from_name` gives each value; any other text gives
/// the default.
pub proof fn lemma_caption_direction_from_name_texts(value: Seq<char>)
    ensures
        caption_direction_from_name_spec(value) == CaptionDirection::Bottom <==> (!(value == "0"@ || value == "1"@ || value == "2"@ || value == "LEFT"@ || value == "RIGHT"@ || value == "TOP"@ || value == "left"@ || value == "right"@ || value == "top"@)),
        caption_direction_from_name_spec(value) == CaptionDirection::Left <==> (value == "0"@ || value == "LEFT"@ || value == "left"@),
        caption_direction_from_name_spec(value) == CaptionDirection::Right <==> (value == "1"@ || value == "RIGHT"@ || value == "right"@),
        caption_direction_from_name_spec(value) == CaptionDirection::Top <==> (value == "2"@ || value == "TOP"@ || value == "top"@),
{
    reveal_strlit("0");
    reveal_strlit("1");
    reveal_strlit("2");
    reveal_strlit("LEFT");
    reveal_strlit("RIGHT");
    reveal_strlit("TOP");
    reveal_strlit("left");
    reveal_strlit("right");
    reveal_strlit("top");
    assert("0"@[0] != "1"@[0]);
    assert("0"@[0] != "2"@[0]);
    assert("0"@.len() != "LEFT"@.len());
    assert("0"@.len() != "RIGHT"@.len());
    assert("0"@.len() != "TOP"@.len());
    assert("0"@.len() != "left"@.len());
    assert("0"@.len() != "right"@.len());
    assert("0"@.len() != "top"@.len());
    assert("1"@[0] != "2"@[0]);
    assert("1"@.len() != "LEFT"@.len());
    assert("1"@.len() != "RIGHT"@.len());
    assert("1"@.len() != "TOP"@.len());
    assert("1"@.len() != "left"@.len());
    assert("1"@.len() != "right"@.len());
    assert("1"@.len() != "top"@.len());
    assert("2"@.len() != "LEFT"@.len());
    assert("2"@.len() != "RIGHT"@.len());
    assert("2"@.len() != "TOP"@.len());
    assert("2"@.len() != "left"@.len());
    assert("2"@.len() != "right"@.len());
    assert("2"@.len() != "top"@.len());
    assert("LEFT"@.len() != "RIGHT"@.len());
    assert("LEFT"@.len() != "TOP"@.len());
    assert("LEFT"@[0] != "left"@[0]);
    assert("LEFT"@.len() != "right"@.len());
    assert("LEFT"@.len() != "top"@.len());
    assert("RIGHT"@.len() != "TOP"@.len());
    assert("RIGHT"@.len() != "left"@.len());
    assert("RIGHT"@[0] != "right"@[0]);
    assert("RIGHT"@.len() != "top"@.len());
    assert("TOP"@.len() != "left"@.len());
    assert("TOP"@.len() != "right"@.len());
    assert("TOP"@[0] != "top"@[0]);
    assert("left"@.len() != "right"@.len());
    assert("left"@.len() != "top"@.len());
    assert("right"@.len() != "top"@.len());
}

/// The texts for which `caption_vert_align_from_name` gives each value; any other text gives
/// the default.
pub proof fn lemma_caption_vert_align_from_name_texts(value: Seq<char>)
    ensures
        caption_vert_align_from_name_spec(value) == CaptionVertAlign::Bottom <==> (value == "2"@ || value == "BOTTOM"@ || value == "bottom"@),
        caption_vert_align_from_name_spec(value) == CaptionVertAlign::Center <==> (value == "1"@ || value == "CENTER"@ || value == "MIDDLE"@ || value == "center"@ || value == "middle"@),
        caption_vert_align_from_name_spec(value) == CaptionVertAlign::Top <==> (!(value == "1"@ || value == "2"@ || value == "BOTTOM"@ || value == "CENTER"@ || value == "MIDDLE"@ || value == "bottom"@ || value == "center"@ || value == "middle"@)),
{
    reveal_strlit("1");
    reveal_strlit("2");
    reveal_strlit("BOTTOM");
    reveal_strlit("CENTER");
    reveal_strlit("MIDDLE");
    reveal_strlit("bottom");
    reveal_strlit("center");
    reveal_strlit("middle");
    assert("1"@[0] != "2"@[0]);
    assert("1"@.len() != "BOTTOM"@.len());
    assert("1"@.len() != "CENTER"@.len());
    assert("1"@.len() != "MIDDLE"@.len());
    assert("1"@.len() != "bottom"@.len());
    assert("1"@.len() != "center"@.len());
    assert("1"@.len() != "middle"@.len());
    assert("2"@.len() != "BOTTOM"@.len());
    assert("2"@.len() != "CENTER"@.len());
    assert("2"@.len() != "MIDDLE"@.len());
    assert("2"@.len() != "bottom"@.len());
    assert("2"@.len() != "center"@.len());
    assert("2"@.len() != "middle"@.len());
    assert("BOTTOM"@[0] != "CENTER"@[0]);
    assert("BOTTOM"@[0] != "MIDDLE"@[0]);
    assert("BOTTOM"@[0] != "bottom"@[0]);
    assert("BOTTOM"@[0] != "center"@[0]);
    assert("BOTTOM"@[0] != "middle"@[0]);
    assert("CENTER"@[0] != "MIDDLE"@[0]);
    assert("CENTER"@[0] != "bottom"@[0]);
    assert("CENTER"@[0] != "center"@[0]);
    assert("CENTER"@[0] != "middle"@[0]);
    assert("MIDDLE"@[0] != "bottom"@[0]);
    assert("MIDDLE"@[0] != "center"@[0]);
    assert("MIDDLE"@[0] != "middle"@[0]);
    assert("bottom"@[0] != "center"@[0]);
    assert("bottom"@[0] != "middle"@[0]);
    assert("center"@[0] != "middle"@[0]);
}

/// The texts for which `table_page_break_from_name` gives each value; any other text gives
/// the default.
pub proof fn lemma_table_page_break_from_name_texts(value: Seq<char>)
    ensures
        table_page_break_from_name_spec(value) == TablePageBreak::CellBreak <==> (value == "1"@ || value == "CELL"@ || value == "TABLE"@ || value == "cell"@ || value == "table"@),
        table_page_break_from_name_spec(value) == TablePageBreak::NoBreak <==> (!(value == "1"@ || value == "2"@ || value == "BREAK"@ || value == "CELL"@ || value == "ROW"@ || value == "TABLE"@ || value == "break"@ || value == "cell"@ || value == "row"@ || value == "table"@)),
        table_page_break_from_name_spec(value) == TablePageBreak::RowBreak <==> (value == "2"@ || value == "BREAK"@ || value == "ROW"@ || value == "break"@ || value == "row"@),
{
    reveal_strlit("1");
    reveal_strlit("2");
    reveal_strlit("BREAK");
    reveal_strlit("CELL");
    reveal_strlit("ROW");
    reveal_strlit("TABLE");
    reveal_strlit("break");
    reveal_strlit("cell");
    reveal_strlit("row");
    reveal_strlit("table");
    assert("1"@[0] != "2"@[0]);
    assert("1"@.len() != "BREAK"@.len());
    assert("1"@.len() != "CELL"@.len());
    assert("1"@.len() != "ROW"@.len());
    assert("1"@.len() != "TABLE"@.len());
    assert("1"@.len() != "break"@.len());
    assert("1"@.len() != "cell"@.len());
    assert("1"@.len() != "row"@.len());
    assert("1"@.len() != "table"@.len());
    assert("2"@.len() != "BREAK"@.len());
    assert("2"@.len() != "CELL"@.len());
    assert("2"@.len() != "ROW"@.len());
    assert("2"@.len() != "TABLE"@.len());
    assert("2"@.len() != "break"@.len());
    assert("2"@.len() != "cell"@.len());
    assert("2"@.len() != "row"@.len());
    assert("2"@.len() != "table"@.len());
    assert("BREAK"@.len() != "CELL"@.len());
    assert("BREAK"@.len() != "ROW"@.len());
    assert("BREAK"@[0] != "TABLE"@[0]);
    assert("BREAK"@[0] != "break"@[0]);
    assert("BREAK"@.len() != "cell"@.len());
    assert("BREAK"@.len() != "row"@.len());
    assert("BREAK"@[0] != "table"@[0]);
    assert("CELL"@.len() != "ROW"@.len());
    assert("CELL"@.len() != "TABLE"@.len());
    assert("CELL"@.len() != "break"@.len());
    assert("CELL"@[0] != "cell"@[0]);
    assert("CELL"@.len() != "row"@.len());
    assert("CELL"@.len() != "table"@.len());
    assert("ROW"@.len() != "TABLE"@.len());
    assert("ROW"@.len() != "break"@.len());
    assert("ROW"@.len() != "cell"@.len());
    assert("ROW"@[0] != "row"@[0]);
    assert("ROW"@.len() != "table"@.len());
    assert("TABLE"@[0] != "break"@[0]);
    assert("TABLE"@.len() != "cell"@.len());
    assert("TABLE"@.len() != "row"@.len());
    assert("TABLE"@[0] != "table"@[0]);
    assert("break"@.len() != "cell"@.len());
    assert("break"@.len() != "row"@.len());
    assert("break"@[0] != "table"@[0]);
    assert("cell"@.len() != "row"@.len());
    assert("cell"@.len() != "table"@.len());
    assert("row"@.len() != "table"@.len());
}

/// The texts for which `line_spacing_type_from_name` gives each value; any other text gives
/// the default.
pub proof fn lemma_line_spacing_type_from_name_texts(value: Seq<char>)
    ensures
        line_spacing_type_from_name_spec(value) == LineSpacingType::Fixed <==> (value == "1"@ || value == "FIXED"@ || value == "Fixed"@ || value == "fixed"@),
        line_spacing_type_from_name_spec(value) == LineSpacingType::Minimum <==> (value == "3"@ || value == "MINIMUM"@ || value == "Minimum"@ || value == "minimum"@),
        line_spacing_type_from_name_spec(value) == LineSpacingType::Percent <==> (!(value == "1"@ || value == "2"@ || value == "3"@ || value == "FIXED"@ || value == "Fixed"@ || value == "MINIMUM"@ || value == "Minimum"@ || value == "SPACE_ONLY"@ || value == "SpaceOnly"@ || value == "fixed"@ || value == "minimum"@ || value == "space_only"@)),
        line_spacing_type_from_name_spec(value) == LineSpacingType::SpaceOnly <==> (value == "2"@ || value == "SPACE_ONLY"@ || value == "SpaceOnly"@ || value == "space_only"@),
{
    reveal_strlit("1");
    reveal_strlit("2");
    reveal_strlit("3");
    reveal_strlit("FIXED");
    reveal_strlit("Fixed");
    reveal_strlit("MINIMUM");
    reveal_strlit("Minimum");
    reveal_strlit("SPACE_ONLY");
    reveal_strlit("SpaceOnly");
    reveal_strlit("fixed");
    reveal_strlit("minimum");
    reveal_strlit("space_only");
    assert("1"@[0] != "2"@[0]);
    assert("1"@[0] != "3"@[0]);
    assert("1"@.len() != "FIXED"@.len());
    assert("1"@.len() != "Fixed"@.len());
    assert("1"@.len() != "MINIMUM"@.len());
    assert("1"@.len() != "Minimum"@.len());
    assert("1"@.len() != "SPACE_ONLY"@.len());
    assert("1"@.len() != "SpaceOnly"@.len());
    assert("1"@.len() != "fixed"@.len());
    assert("1"@.len() != "minimum"@.len());
    assert("1"@.len() != "space_only"@.len());
    assert("2"@[0] != "3"@[0]);
    assert("2"@.len() != "FIXED"@.len());
    assert("2"@.len() != "Fixed"@.len());
    assert("2"@.len() != "MINIMUM"@.len());
    assert("2"@.len() != "Minimum"@.len());
    assert("2"@.len() != "SPACE_ONLY"@.len());
    assert("2"@.len() != "SpaceOnly"@.len());
    assert("2"@.len() != "fixed"@.len());
    assert("2"@.len() != "minimum"@.len());
    assert("2"@.len() != "space_only"@.len());
    assert("3"@.len() != "FIXED"@.len());
    assert("3"@.len() != "Fixed"@.len());
    assert("3"@.len() != "MINIMUM"@.len());
    assert("3"@.len() != "Minimum"@.len());
    assert("3"@.len() != "SPACE_ONLY"@.len());
    assert("3"@.len() != "SpaceOnly"@.len());
    assert("3"@.len() != "fixed"@.len());
    assert("3"@.len() != "minimum"@.len());
    assert("3"@.len() != "space_only"@.len());
    assert("FIXED"@[1] != "Fixed"@[1]);
    assert("FIXED"@.len() != "MINIMUM"@.len());
    assert("FIXED"@.len() != "Minimum"@.len());
    assert("FIXED"@.len() != "SPACE_ONLY"@.len());
    assert("FIXED"@.len() != "SpaceOnly"@.len());
    assert("FIXED"@[0] != "fixed"@[0]);
    assert("FIXED"@.len() != "minimum"@.len());
    assert("FIXED"@.len() != "space_only"@.len());
    assert("Fixed"@.len() != "MINIMUM"@.len());
    assert("Fixed"@.len() != "Minimum"@.len());
    assert("Fixed"@.len() != "SPACE_ONLY"@.len());
    assert("Fixed"@.len() != "SpaceOnly"@.len());
    assert("Fixed"@[0] != "fixed"@[0]);
    assert("Fixed"@.len() != "minimum"@.len());
    assert("Fixed"@.len() != "space_only"@.len());
    assert("MINIMUM"@[1] != "Minimum"@[1]);
    assert("MINIMUM"@.len() != "SPACE_ONLY"@.len());
    assert("MINIMUM"@.len() != "SpaceOnly"@.len());
    assert("MINIMUM"@.len() != "fixed"@.len());
    assert("MINIMUM"@[0] != "minimum"@[0]);
    assert("MINIMUM"@.len() != "space_only"@.len());
    assert("Minimum"@.len() != "SPACE_ONLY"@.len());
    assert("Minimum"@.len() != "SpaceOnly"@.len());
    assert("Minimum"@.len() != "fixed"@.len());
    assert("Minimum"@[0] != "minimum"@[0]);
    assert("Minimum"@.len() != "space_only"@.len());
    assert("SPACE_ONLY"@.len() != "SpaceOnly"@.len());
    assert("SPACE_ONLY"@.len() != "fixed"@.len());
    assert("SPACE_ONLY"@.len() != "minimum"@.len());
    assert("SPACE_ONLY"@[0] != "space_only"@[0]);
    assert("SpaceOnly"@.len() != "fixed"@.len());
    assert("SpaceOnly"@.len() != "minimum"@.len());
    assert("SpaceOnly"@.len() != "space_only"@.len());
    assert("fixed"@.len() != "minimum"@.len());
    assert("fixed"@.len() != "space_only"@.len());
    assert("minimum"@.len() != "space_only"@.len());
}

/// The texts for which `head_type_from_name` gives each value; any other text gives
/// the default.
pub proof fn lemma_head_type_from_name_texts(value: Seq<char>)
    ensures
        head_type_from_name_spec(value) == HeadType::Bullet <==> (value == "3"@ || value == "BULLET"@ || value == "bullet"@),
        head_type_from_name_spec(value) == HeadType::NoHead <==> (!(value == "1"@ || value == "2"@ || value == "3"@ || value == "BULLET"@ || value == "NUMBER"@ || value == "OUTLINE"@ || value == "bullet"@ || value == "number"@ || value == "outline"@)),
        head_type_from_name_spec(value) == HeadType::Number <==> (value == "2"@ || value == "NUMBER"@ || value == "number"@),
        head_type_from_name_spec(value) == HeadType::Outline <==> (value == "1"@ || value == "OUTLINE"@ || value == "outline"@),
{
    reveal_strlit("1");
    reveal_strlit("2");
    reveal_strlit("3");
    reveal_strlit("BULLET");
    reveal_strlit("NUMBER");
    reveal_strlit("OUTLINE");
    reveal_strlit("bullet");
    reveal_strlit("number");
    reveal_strlit("outline");
    assert("1"@[0] != "2"@[0]);
    assert("1"@[0] != "3"@[0]);
    assert("1"@.len() != "BULLET"@.len());
    assert("1"@.len() != "NUMBER"@.len());
    assert("1"@.len() != "OUTLINE"@.len());
    assert("1"@.len() != "bullet"@.len());
    assert("1"@.len() != "number"@.len());
    assert("1"@.len() != "outline"@.len());
    assert("2"@[0] != "3"@[0]);
    assert("2"@.len() != "BULLET"@.len());
    assert("2"@.len() != "NUMBER"@.len());
    assert("2"@.len() != "OUTLINE"@.len());
    assert("2"@.len() != "bullet"@.len());
    assert("2"@.len() != "number"@.len());
    assert("2"@.len() != "outline"@.len());
    assert("3"@.len() != "BULLET"@.len());
    assert("3"@.len() != "NUMBER"@.len());
    assert("3"@.len() != "OUTLINE"@.len());
    assert("3"@.len() != "bullet"@.len());
    assert("3"@.len() != "number"@.len());
    assert("3"@.len() != "outline"@.len());
    assert("BULLET"@[0] != "NUMBER"@[0]);
    assert("BULLET"@.len() != "OUTLINE"@.len());
    assert("BULLET"@[0] != "bullet"@[0]);
    assert("BULLET"@[0] != "number"@[0]);
    assert("BULLET"@.len() != "outline"@.len());
    assert("NUMBER"@.len() != "OUTLINE"@.len());
    assert("NUMBER"@[0] != "bullet"@[0]);
    assert("NUMBER"@[0] != "number"@[0]);
    assert("NUMBER"@.len() != "outline"@.len());
    assert("OUTLINE"@.len() != "bullet"@.len());
    assert("OUTLINE"@.len() != "number"@.len());
    assert("OUTLINE"@[0] != "outline"@[0]);
    assert("bullet"@[0] != "number"@[0]);
    assert("bullet"@.len() != "outline"@.len());
    assert("number"@.len() != "outline"@.len());
}

/// The text that `border_line_type_name` gives each value.
pub proof fn lemma_border_line_type_name_values(value: BorderLineType)
    ensures
        value == BorderLineType::Circle ==> border_line_type_name_spec(value) == "circle"@,
        value == BorderLineType::Dash ==> border_line_type_name_spec(value) == "dash"@,
        value == BorderLineType::DashDot ==> border_line_type_name_spec(value) == "dash_dot"@,
        value == BorderLineType::DashDotDot ==> border_line_type_name_spec(value) == "dash_dot_dot"@,
        value == BorderLineType::Dot ==> border_line_type_name_spec(value) == "dot"@,
        value == BorderLineType::Double ==> border_line_type_name_spec(value) == "double"@,
        value == BorderLineType::DoubleWave ==> border_line_type_name_spec(value) == "double_wave"@,
        value == BorderLineType::LongDash ==> border_line_type_name_spec(value) == "long_dash"@,
        value == BorderLineType::NoLine ==> border_line_type_name_spec(value) == "none"@,
        value == BorderLineType::Solid ==> border_line_type_name_spec(value) == "solid"@,
        value == BorderLineType::Thick3D ==> border_line_type_name_spec(value) == "thick_3d"@,
        value == BorderLineType::Thick3DReverse ==> border_line_type_name_spec(value) == "thick_3d_reverse"@,
        value == BorderLineType::ThickThinDouble ==> border_line_type_name_spec(value) == "thick_thin_double"@,
        value == BorderLineType::Thin3D ==> border_line_type_name_spec(value) == "thin_3d"@,
        value == BorderLineType::Thin3DReverse ==> border_line_type_name_spec(value) == "thin_3d_reverse"@,
        value == BorderLineType::ThinThickDouble ==> border_line_type_name_spec(value) == "thin_thick_double"@,
        value == BorderLineType::ThinThickThinTriple ==> border_line_type_name_spec(value) == "thin_thick_thin_triple"@,
        value == BorderLineType::Wave ==> border_line_type_name_spec(value) == "wave"@,
{
}

/// The text that `image_fill_mode_name` gives each value.
pub proof fn lemma_image_fill_mode_name_values(value: ImageFillMode)
    ensures
        value == ImageFillMode::Center ==> image_fill_mode_name_spec(value) == "center"@,
        value == ImageFillMode::CenterBottom ==> image_fill_mode_name_spec(value) == "center_bottom"@,
        value == ImageFillMode::CenterTop ==> image_fill_mode_name_spec(value) == "center_top"@,
        value == ImageFillMode::FitToSize ==> image_fill_mode_name_spec(value) == "fit_to_size"@,
        value == ImageFillMode::LeftBottom ==> image_fill_mode_name_spec(value) == "left_bottom"@,
        value == ImageFillMode::LeftCenter ==> image_fill_mode_name_spec(value) == "left_center"@,
        value == ImageFillMode::LeftTop ==> image_fill_mode_name_spec(value) == "left_top"@,
        value == ImageFillMode::RightBottom ==> image_fill_mode_name_spec(value) == "right_bottom"@,
        value == ImageFillMode::RightCenter ==> image_fill_mode_name_spec(value) == "right_center"@,
        value == ImageFillMode::RightTop ==> image_fill_mode_name_spec(value) == "right_top"@,
        value == ImageFillMode::TileAll ==> image_fill_mode_name_spec(value) == "tile_all"@,
        value == ImageFillMode::TileHorzBottom ==> image_fill_mode_name_spec(value) == "tile_horz_bottom"@,
        value == ImageFillMode::TileHorzTop ==> image_fill_mode_name_spec(value) == "tile_horz_top"@,
        value == ImageFillMode::TileVertLeft ==> image_fill_mode_name_spec(value) == "tile_vert_left"@,
        value == ImageFillMode::TileVertRight ==> image_fill_mode_name_spec(value) == "tile_vert_right"@,
        value == ImageFillMode::Unset ==> image_fill_mode_name_spec(value) == "none"@,
{
}

/// The text that `footnote_number_format_name` gives each value.
pub proof fn lemma_footnote_number_format_name_values(value: NumberFormat)
    ensures
        value == NumberFormat::CircledDigit ==> footnote_number_format_name_spec(value) == "circledDigit"@,
        value == NumberFormat::CircledHangulJamo ==> footnote_number_format_name_spec(value) == "circledHangulJamo"@,
        value == NumberFormat::CircledHangulSyllable ==> footnote_number_format_name_spec(value) == "circledHangulSyllable"@,
        value == NumberFormat::CircledHanjaDigit ==> footnote_number_format_name_spec(value) == "circledHanjaDigit"@,
        value == NumberFormat::CircledLowerAlpha ==> footnote_number_format_name_spec(value) == "circledLowerAlpha"@,
        value == NumberFormat::CircledUpperAlpha ==> footnote_number_format_name_spec(value) == "circledUpperAlpha"@,
        value == NumberFormat::Digit ==> footnote_number_format_name_spec(value) == "digit"@,
        value == NumberFormat::FourSymbol ==> footnote_number_format_name_spec(value) == "fourSymbol"@,
        value == NumberFormat::HangulDigit ==> footnote_number_format_name_spec(value) == "hangulDigit"@,
        value == NumberFormat::HangulJamo ==> footnote_number_format_name_spec(value) == "hangulJamo"@,
        value == NumberFormat::HangulSyllable ==> footnote_number_format_name_spec(value) == "hangulSyllable"@,
        value == NumberFormat::HanjaDigit ==> footnote_number_format_name_spec(value) == "hanjaDigit"@,
        value == NumberFormat::HanjaGapEul ==> footnote_number_format_name_spec(value) == "hanjaGapEul"@,
        value == NumberFormat::HanjaGapEulHanja ==> footnote_number_format_name_spec(value) == "hanjaGapEulHanja"@,
        value == NumberFormat::LowerAlpha ==> footnote_number_format_name_spec(value) == "lowerAlpha"@,
        value == NumberFormat::LowerRoman ==> footnote_number_format_name_spec(value) == "lowerRoman"@,
        value == NumberFormat::UpperAlpha ==> footnote_number_format_name_spec(value) == "upperAlpha"@,
        value == NumberFormat::UpperRoman ==> footnote_number_format_name_spec(value) == "upperRoman"@,
        value == NumberFormat::UserChar ==> footnote_number_format_name_spec(value) == "userChar"@,
{
}

/// The codes for which `border_line_type_from_code` gives each value; any other code gives the
/// default.
pub proof fn lemma_border_line_type_from_code_codes(code: u8)
    ensures
        border_line_type_from_code_spec(code) == BorderLineType::Circle <==> (code == 7),
        border_line_type_from_code_spec(code) == BorderLineType::Dash <==> (code == 2),
        border_line_type_from_code_spec(code) == BorderLineType::DashDot <==> (code == 4),
        border_line_type_from_code_spec(code) == BorderLineType::DashDotDot <==> (code == 5),
        border_line_type_from_code_spec(code) == BorderLineType::Dot <==> (code == 3),
        border_line_type_from_code_spec(code) == BorderLineType::Double <==> (code == 8),
        border_line_type_from_code_spec(code) == BorderLineType::DoubleWave <==> (code == 13),
        border_line_type_from_code_spec(code) == BorderLineType::LongDash <==> (code == 6),
        border_line_type_from_code_spec(code) == BorderLineType::NoLine <==> (code == 0),
        border_line_type_from_code_spec(code) == BorderLineType::Solid <==> (code == 1 || !(code == 0 || code == 1 || code == 2 || code == 3 || code == 4 || code == 5 || code == 6 || code == 7 || code == 8 || code == 9 || code == 10 || code == 11 || code == 12 || code == 13 || code == 14 || code == 15 || code == 16 || code == 17)),
        border_line_type_from_code_spec(code) == BorderLineType::Thick3D <==> (code == 14),
        border_line_type_from_code_spec(code) == BorderLineType::Thick3DReverse <==> (code == 15),
        border_line_type_from_code_spec(code) == BorderLineType::ThickThinDouble <==> (code == 10),
        border_line_type_from_code_spec(code) == BorderLineType::Thin3D <==> (code == 16),
        border_line_type_from_code_spec(code) == BorderLineType::Thin3DReverse <==> (code == 17),
        border_line_type_from_code_spec(code) == BorderLineType::ThinThickDouble <==> (code == 9),
        border_line_type_from_code_spec(code) == BorderLineType::ThinThickThinTriple <==> (code == 11),
        border_line_type_from_code_spec(code) == BorderLineType::Wave <==> (code == 12),
{
}

} // verus!
