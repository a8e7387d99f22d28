use rhwp::document_core::builders::document_template::objects::effect_rgb_color_hex;
use rhwp::json_value::{
    css_color_ref_text, effect_rgb_from_color_hex_value, effect_rgb_from_json, json_bool,
    json_bool_alias, json_color_ref_alias, json_color_ref_vec_alias, json_css_color_ref_value,
    json_i16, json_i32, json_i32_vec, json_scalar_string, json_string_alias,
    json_string_array_value, json_u16, json_u32, json_u32_alias, json_u32_vec, json_u8,
    JsonNumber, JsonValue,
};

fn obj(members: Vec<(&str, JsonValue)>) -> JsonValue {
    JsonValue::Object(members.into_iter().map(|(k, v)| (k.to_string(), v)).collect())
}

fn pos(n: u64) -> JsonValue {
    JsonValue::Number(JsonNumber::PosInt(n))
}

fn neg(n: i64) -> JsonValue {
    JsonValue::Number(JsonNumber::NegInt(n))
}

fn text(s: &str) -> JsonValue {
    JsonValue::String(s.to_string())
}

#[test]
fn integer_fields_by_width() {
    let v = obj(vec![("a", pos(70000)), ("b", neg(-5)), ("c", pos(255)), ("d", text("7"))]);
    assert_eq!(json_u32(&v, "a"), Some(70000));
    assert_eq!(json_u16(&v, "a"), None);
    assert_eq!(json_u8(&v, "c"), Some(255));
    assert_eq!(json_u32(&v, "b"), None);
    assert_eq!(json_i32(&v, "b"), Some(-5));
    assert_eq!(json_i16(&v, "a"), None);
    assert_eq!(json_u32(&v, "d"), None);
    assert_eq!(json_u32(&v, "zz"), None);
    assert_eq!(json_u32(&pos(1), "a"), None);
}

#[test]
fn flags_from_booleans_numbers_and_words() {
    let v = obj(vec![
        ("a", JsonValue::Bool(true)),
        ("b", pos(0)),
        ("c", neg(-3)),
        ("d", text(" YES ")),
        ("e", text("No")),
        ("f", text("maybe")),
        ("g", JsonValue::Null),
    ]);
    assert_eq!(json_bool(&v, "a"), Some(true));
    assert_eq!(json_bool(&v, "b"), Some(false));
    assert_eq!(json_bool(&v, "c"), Some(true));
    assert_eq!(json_bool(&v, "d"), Some(true));
    assert_eq!(json_bool(&v, "e"), Some(false));
    assert_eq!(json_bool(&v, "f"), None);
    assert_eq!(json_bool(&v, "g"), None);
    assert_eq!(json_bool_alias(&v, "zz", &["f", "e", "a"]), Some(false));
    assert_eq!(json_u32_alias(&v, "zz", &["a", "b"]), Some(0));
}

#[test]
fn number_arrays_skip_other_items() {
    let v = obj(vec![(
        "xs",
        JsonValue::Array(vec![pos(1), neg(-2), text("3"), pos(5_000_000_000), pos(4)]),
    )]);
    assert_eq!(json_u32_vec(&v, "xs"), Some(vec![1, 4]));
    assert_eq!(json_i32_vec(&v, "xs"), Some(vec![1, -2, 4]));
    assert_eq!(json_u32_vec(&v, "none"), None);
}

#[test]
fn scalar_texts() {
    assert_eq!(json_scalar_string(&text("a")), Some("a".to_string()));
    assert_eq!(json_scalar_string(&pos(42)), Some("42".to_string()));
    assert_eq!(json_scalar_string(&neg(i64::MIN)), Some("-9223372036854775808".to_string()));
    assert_eq!(json_scalar_string(&JsonValue::Number(JsonNumber::Float("1.5".into()))), Some("1.5".to_string()));
    assert_eq!(json_scalar_string(&JsonValue::Bool(false)), Some("0".to_string()));
    assert_eq!(json_scalar_string(&JsonValue::Null), None);
    let v = obj(vec![("x", JsonValue::Null), ("y", pos(3))]);
    assert_eq!(json_string_alias(&v, &["x", "y"]), None);
    assert_eq!(json_string_alias(&v, &["q", "y"]), Some("3".to_string()));
}

#[test]
fn string_arrays() {
    assert_eq!(json_string_array_value(&JsonValue::Null, "ctx"), Ok(vec![]));
    assert_eq!(json_string_array_value(&text("a"), "ctx"), Ok(vec!["a".to_string()]));
    assert_eq!(
        json_string_array_value(&JsonValue::Array(vec![text("a"), text("b")]), "ctx"),
        Ok(vec!["a".to_string(), "b".to_string()])
    );
    assert_eq!(
        json_string_array_value(&JsonValue::Array(vec![text("a"), pos(1)]), "ctx"),
        Err("ctx entries must be strings".to_string())
    );
    assert_eq!(json_string_array_value(&pos(1), "ctx"), Err("ctx must be a string array".to_string()));
}

#[test]
fn css_colors() {
    assert_eq!(css_color_ref_text(" None "), Some(0xFFFF_FFFF));
    assert_eq!(css_color_ref_text("#112233"), Some(0x0033_2211));
    assert_eq!(css_color_ref_text("0x80112233"), Some(0x8033_2211));
    assert_eq!(css_color_ref_text("#0x112233"), Some(0x0033_2211));
    assert_eq!(css_color_ref_text("0X112233"), Some(0x0033_2211));
    assert_eq!(css_color_ref_text("255"), Some(0x00FF_0000));
    assert_eq!(css_color_ref_text("#12345"), None);
    assert_eq!(css_color_ref_text("zzzzzz"), None);
    assert_eq!(json_css_color_ref_value(&pos(0x112233)), Some(0x0033_2211));
    assert_eq!(json_css_color_ref_value(&pos(0x1_0000_0000)), None);
    assert_eq!(json_css_color_ref_value(&neg(-1)), None);
    assert_eq!(json_css_color_ref_value(&JsonValue::Bool(true)), None);
    let v = obj(vec![("raw", text("x")), ("hex", text("bad")), ("css", text("#010203")), ("list", JsonValue::Array(vec![text("#010203"), text("?"), pos(1)]))]);
    assert_eq!(json_color_ref_alias(&v, "raw", &["hex", "css"]), Some(0x0003_0201));
    assert_eq!(json_color_ref_vec_alias(&v, "raw", &["list"]), Some(vec![0x0003_0201, 0x0001_0000]));
    assert_eq!(json_color_ref_vec_alias(&v, "raw", &["css"]), None);
}

#[test]
fn picture_effect_colors() {
    let rgb = effect_rgb_from_color_hex_value(&text("#A0B1C2")).unwrap();
    assert_eq!(rgb.r.as_deref(), Some("160"));
    assert_eq!(rgb.g.as_deref(), Some("177"));
    assert_eq!(rgb.b.as_deref(), Some("194"));
    assert_eq!(effect_rgb_color_hex(&rgb), Some("#A0B1C2".to_string()));
    assert!(effect_rgb_from_color_hex_value(&text("none")).is_none());
    let parsed = effect_rgb_from_json(&obj(vec![("r", pos(1)), ("g", text("2"))])).unwrap();
    assert_eq!(parsed.r.as_deref(), Some("1"));
    assert_eq!(parsed.g.as_deref(), Some("2"));
    assert_eq!(parsed.b, None);
    assert_eq!(effect_rgb_from_json(&pos(1)).err(), Some("picture effect rgb must be an object".to_string()));
}

#[test]
fn json_values_cloned_item_by_item() {
    let v = JsonValue::Object(vec![
        ("a".to_string(), JsonValue::Array(vec![JsonValue::Null, JsonValue::Bool(true)])),
        ("b".to_string(), JsonValue::Number(JsonNumber::Float("1.5".to_string()))),
    ]);
    let c = rhwp::json_value::json_clone(&v);
    match (&c, v.clone()) {
        (JsonValue::Object(m), JsonValue::Object(n)) => {
            assert_eq!(m.len(), 2);
            assert_eq!(n.len(), 2);
            assert_eq!(m[0].0, "a");
            assert!(matches!(&m[0].1, JsonValue::Array(items) if items.len() == 2 && matches!(items[1], JsonValue::Bool(true))));
            assert!(matches!(&m[1].1, JsonValue::Number(JsonNumber::Float(t)) if t == "1.5"));
            assert_eq!(n[1].0, "b");
        }
        _ => panic!("not objects"),
    }
}
