use rhwp::document_core::builders::document_template::attrs::{
    drawing_style_xml_attrs, drawing_style_xml_attrs_from_map, XmlAttrs,
};
use rhwp::document_core::builders::document_template::effect_xml::{
    drawing_style_effect_color_xml, drawing_style_effect_raw_xml,
    drawing_style_flat_effect_child_attrs, drawing_style_has_flat_border_aliases,
    drawing_style_has_flat_fill_aliases, drawing_style_has_flat_shadow_aliases,
    drawing_style_raw_child_xml_values, drawing_style_rgb_color_hex,
    drawing_style_rgb_xml_attrs_from_hex, drawing_style_simple_effect_xml,
    drawing_style_solid_fill_xml, drawing_style_three_d_effect_xml, picture_effect_raw_xml,
};
use rhwp::json_value::{JsonNumber, JsonValue};

fn obj(members: Vec<(&str, JsonValue)>) -> JsonValue {
    JsonValue::Object(members.into_iter().map(|(k, v)| (k.to_string(), v)).collect())
}

fn pos(n: u64) -> JsonValue {
    JsonValue::Number(JsonNumber::PosInt(n))
}

fn text(s: &str) -> JsonValue {
    JsonValue::String(s.to_string())
}

const RGB_102030: &str =
    "<hp:effectsColor presetIdx=\"-1\" schemeIdx=\"-1\" systemIdx=\"-1\" type=\"RGB\"><hp:rgb b=\"48\" g=\"32\" r=\"16\"/></hp:effectsColor>";

#[test]
fn attribute_text_in_name_order() {
    let mut a = XmlAttrs::new();
    a.insert("b".to_string(), "x<y".to_string());
    a.insert("a".to_string(), "1".to_string());
    assert_eq!(drawing_style_xml_attrs_from_map(a), " a=\"1\" b=\"x&lt;y\"");
    let v = obj(vec![("w", pos(5)), ("attrs", obj(vec![("h", text("2"))])), ("bad key", pos(1))]);
    assert_eq!(drawing_style_xml_attrs(&v, &[]), " h=\"2\" w=\"5\"");
    assert_eq!(drawing_style_xml_attrs(&v, &["w"]), " h=\"2\"");
}

#[test]
fn flat_child_attributes() {
    let v = obj(vec![("skewX", text("5")), ("skew_y", text("6")), ("alphaEnd", text("9")), ("alpha_start", text("1"))]);
    assert_eq!(drawing_style_flat_effect_child_attrs(&v, "skew").as_deref(), Some(" x=\"5\" y=\"6\""));
    assert_eq!(drawing_style_flat_effect_child_attrs(&v, "alpha").as_deref(), Some(" end=\"9\" start=\"1\""));
    assert_eq!(drawing_style_flat_effect_child_attrs(&v, "scale"), None);
    assert_eq!(drawing_style_flat_effect_child_attrs(&v, "blur"), None);
}

#[test]
fn effect_color_elements() {
    assert_eq!(drawing_style_rgb_xml_attrs_from_hex(&text("#102030")).as_deref(), Some(" b=\"48\" g=\"32\" r=\"16\""));
    assert_eq!(drawing_style_rgb_xml_attrs_from_hex(&text("none")), None);
    assert_eq!(drawing_style_effect_color_xml(&text("#102030")).as_deref(), Some(RGB_102030));
    assert_eq!(drawing_style_effect_color_xml(&JsonValue::Null), None);
    assert_eq!(
        drawing_style_effect_color_xml(&obj(vec![("type", text("SCHEME")), ("schemeIdx", pos(3))])).as_deref(),
        Some("<hp:effectsColor schemeIdx=\"3\" type=\"SCHEME\"/>")
    );
    let expected = "<hp:effectsColor presetIdx=\"-1\" schemeIdx=\"-1\" systemIdx=\"-1\" type=\"X\"><hp:rgb b=\"3\" g=\"2\" r=\"1\"/></hp:effectsColor>";
    assert_eq!(
        drawing_style_effect_color_xml(&obj(vec![("type", text("X")), ("color_hex", text("#010203"))])).as_deref(),
        Some(expected)
    );
    assert_eq!(
        drawing_style_effect_color_xml(&obj(vec![
            ("type", text("X")),
            ("rgb", obj(vec![("r", text("1")), ("g", text("2")), ("b", text("3"))])),
        ]))
        .as_deref(),
        Some(expected)
    );
    let rgb = vec![("r".to_string(), text("16")), ("g".to_string(), text("32")), ("b".to_string(), text("48"))];
    assert_eq!(drawing_style_rgb_color_hex(&rgb).as_deref(), Some("#102030"));
    let bad = vec![("r".to_string(), pos(16)), ("g".to_string(), text("32")), ("b".to_string(), text("48"))];
    assert_eq!(drawing_style_rgb_color_hex(&bad), None);
}

#[test]
fn solid_fill_and_three_d_elements() {
    assert_eq!(drawing_style_solid_fill_xml(&text("#A&B")).as_deref(), Some("<hp:solidFill color=\"#A&amp;B\"/>"));
    let v = obj(vec![("colorHex", text("#112233")), ("effectsColor", text("#102030")), ("raw_child_xml", text("<x/>"))]);
    let expected = format!("<hp:solidFill color=\"#112233\">{}<x/></hp:solidFill>", RGB_102030);
    assert_eq!(drawing_style_solid_fill_xml(&v), Some(expected));
    assert_eq!(
        drawing_style_three_d_effect_xml(&obj(vec![("bevelType", text("CIRCLE")), ("z", text("1"))])).as_deref(),
        Some("<hp:threeD z=\"1\"><hp:bevel type=\"CIRCLE\"/></hp:threeD>")
    );
    assert_eq!(
        drawing_style_three_d_effect_xml(&obj(vec![("bevel", obj(vec![("w", text("2"))]))])).as_deref(),
        Some("<hp:threeD><hp:bevel w=\"2\"/></hp:threeD>")
    );
    let raw = obj(vec![("rawChildXml", JsonValue::Array(vec![text("<a/>"), pos(1), text("<b/>")]))]);
    assert_eq!(drawing_style_raw_child_xml_values(&raw), vec!["<a/>".to_string(), "<b/>".to_string()]);
    let null_first = obj(vec![("raw_child_xml", JsonValue::Null), ("rawChildXml", text("x"))]);
    assert!(drawing_style_raw_child_xml_values(&null_first).is_empty());
}

#[test]
fn effect_elements() {
    let shadow = obj(vec![
        ("alpha", text("0.5")),
        ("skewX", text("3")),
        ("color", text("#000000")),
        ("solidFill", text("#FFFFFF")),
    ]);
    let expected = "<hp:shadow alpha=\"0.5\"><hp:effectsColor presetIdx=\"-1\" schemeIdx=\"-1\" systemIdx=\"-1\" type=\"RGB\"><hp:rgb b=\"0\" g=\"0\" r=\"0\"/></hp:effectsColor><hp:skew x=\"3\"/><hp:solidFill color=\"#FFFFFF\"/></hp:shadow>";
    assert_eq!(drawing_style_simple_effect_xml(&shadow, "shadow").as_deref(), Some(expected));
    assert_eq!(
        drawing_style_simple_effect_xml(&obj(vec![("radius", pos(5))]), "glow").as_deref(),
        Some("<hp:glow radius=\"5\"/>")
    );
    assert_eq!(
        drawing_style_simple_effect_xml(&obj(vec![("pos", obj(vec![("start", text("0"))]))]), "reflection").as_deref(),
        Some("<hp:reflection><hp:pos start=\"0\"/></hp:reflection>")
    );
    assert_eq!(picture_effect_raw_xml("threeD", &obj(vec![])), Ok(Some("<hp:threeD/>".to_string())));
    assert_eq!(picture_effect_raw_xml("glow", &obj(vec![])), Ok(None));
    assert_eq!(
        picture_effect_raw_xml("threeD", &text("x")).unwrap_err(),
        "picture effects.threeD must be an object or null"
    );
    assert_eq!(
        drawing_style_effect_raw_xml("blur", &obj(vec![("radius", text("2"))])),
        Ok(Some("<hp:effects><hp:blur radius=\"2\"/></hp:effects>".to_string()))
    );
    assert_eq!(drawing_style_effect_raw_xml("unknown", &obj(vec![])), Ok(None));
    assert_eq!(
        drawing_style_effect_raw_xml("glow", &pos(1)).unwrap_err(),
        "drawing_style.effects.glow must be an object or null"
    );
}

#[test]
fn flat_style_keys() {
    let v = obj(vec![("fillPatType", pos(1)), ("shadowAlpha", pos(0))]);
    assert!(drawing_style_has_flat_fill_aliases(&v));
    assert!(drawing_style_has_flat_shadow_aliases(&v));
    assert!(!drawing_style_has_flat_border_aliases(&v));
    assert!(!drawing_style_has_flat_fill_aliases(&text("fillPatType")));
}
