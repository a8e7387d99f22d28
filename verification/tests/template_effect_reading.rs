use rhwp::document_core::builders::document_template::effect_json::apply_drawing_style_effects;
use rhwp::model::DrawingObjAttr;
use rhwp::document_core::builders::document_template::effect_json::{
    drawing_style_effect_json_from_raw_fragment, drawing_style_effects_json,
    drawing_style_raw_fragment_contains_effect, picture_effects_json,
};
use rhwp::document_core::builders::document_template::xml_events::{
    drawing_style_xml_local_name, xml_fragment_events, xml_tag_name, XmlKind, XmlRaw,
};
use rhwp::json_value::JsonValue;
use rhwp::model::{PictureEffects, PictureShadow, PictureThreeD};

fn text_of(v: Option<&JsonValue>) -> Option<String> {
    match v {
        Some(JsonValue::String(s)) => Some(s.clone()),
        _ => None,
    }
}

fn texts_of(v: Option<&JsonValue>) -> Option<Vec<String>> {
    match v {
        Some(JsonValue::Array(items)) => items.iter().map(|i| text_of(Some(i))).collect(),
        _ => None,
    }
}

fn member<'a>(v: &'a JsonValue, key: &str) -> Option<&'a JsonValue> {
    v.get(key)
}

fn keys(v: &JsonValue) -> Vec<String> {
    match v {
        JsonValue::Object(members) => {
            let mut k: Vec<String> = members.iter().map(|(k, _)| k.clone()).collect();
            k.sort();
            k
        }
        _ => panic!("not an object"),
    }
}

const SHADOW: &str = "<hp:shadow alpha=\"0.5\"><hp:skew x=\"2\" y=\"0\"/><hp:effectsColor type=\"RGB\"><hp:rgb r=\"16\" g=\"32\" b=\"48\"/></hp:effectsColor><hp:extra k=\"v\"/></hp:shadow>";
const THREE_D: &str = "<hp:threeD z=\"3\"><hp:bevel type=\"CIRCLE\"/></hp:threeD>";
const GLOW: &str = "<hp:glow radius=\"7\"/>";

#[test]
fn fragment_events_in_order() {
    let events = xml_fragment_events("<a x=\"1\"><b/>t</a>");
    let expected = vec![
        XmlRaw { kind: XmlKind::Start, content: "a x=\"1\"".to_string() },
        XmlRaw { kind: XmlKind::Empty, content: "b".to_string() },
        XmlRaw { kind: XmlKind::Text, content: "t".to_string() },
        XmlRaw { kind: XmlKind::End, content: "a".to_string() },
    ];
    assert_eq!(events, expected);
    assert!(xml_fragment_events("").is_empty());
}

#[test]
fn tag_and_local_names() {
    assert_eq!(xml_tag_name("hp:shadow alpha=\"1\""), "hp:shadow");
    assert_eq!(xml_tag_name("b"), "b");
    assert_eq!(drawing_style_xml_local_name("hp:shadow"), "shadow");
    assert_eq!(drawing_style_xml_local_name("shadow"), "shadow");
    assert_eq!(drawing_style_xml_local_name("a:b:c"), "b:c");
}

#[test]
fn effect_read_from_fragment() {
    let v = drawing_style_effect_json_from_raw_fragment(SHADOW, "shadow").unwrap();
    assert_eq!(keys(&v), vec!["alpha", "color", "raw_child_xml", "skew"]);
    assert_eq!(text_of(member(&v, "alpha")).as_deref(), Some("0.5"));
    let skew = member(&v, "skew").unwrap();
    assert_eq!(text_of(member(skew, "x")).as_deref(), Some("2"));
    assert_eq!(text_of(member(skew, "y")).as_deref(), Some("0"));
    let color = member(&v, "color").unwrap();
    assert_eq!(text_of(member(color, "type")).as_deref(), Some("RGB"));
    assert_eq!(text_of(member(color, "color_hex")).as_deref(), Some("#102030"));
    let rgb = member(color, "rgb").unwrap();
    assert_eq!(text_of(member(rgb, "r")).as_deref(), Some("16"));
    assert_eq!(
        texts_of(member(&v, "raw_child_xml")),
        Some(vec!["<hp:extra k=\"v\"/>".to_string()])
    );
    assert!(drawing_style_effect_json_from_raw_fragment(SHADOW, "glow").is_none());
}

#[test]
fn three_d_read_from_fragment() {
    let v = drawing_style_effect_json_from_raw_fragment(THREE_D, "threeD").unwrap();
    assert_eq!(keys(&v), vec!["bevel", "z"]);
    assert_eq!(text_of(member(member(&v, "bevel").unwrap(), "type")).as_deref(), Some("CIRCLE"));
    let empty = drawing_style_effect_json_from_raw_fragment(GLOW, "glow").unwrap();
    assert_eq!(keys(&empty), vec!["radius"]);
}

#[test]
fn fragment_contains_effect() {
    assert!(drawing_style_raw_fragment_contains_effect(SHADOW, "shadow"));
    assert!(!drawing_style_raw_fragment_contains_effect(SHADOW, "skew2"));
    assert!(drawing_style_raw_fragment_contains_effect("<x><hp:glow/></x>", "glow"));
    assert!(!drawing_style_raw_fragment_contains_effect("no tags here", "glow"));
}

#[test]
fn style_effects_from_fragments() {
    let second_shadow = "<hp:shadow alpha=\"0.9\"/>".to_string();
    let v = drawing_style_effects_json(&vec![
        GLOW.to_string(),
        SHADOW.to_string(),
        second_shadow,
    ])
    .unwrap();
    assert_eq!(keys(&v), vec!["glow", "shadow"]);
    assert_eq!(text_of(member(member(&v, "shadow").unwrap(), "alpha")).as_deref(), Some("0.5"));
    assert_eq!(text_of(member(member(&v, "glow").unwrap(), "radius")).as_deref(), Some("7"));
    assert!(drawing_style_effects_json(&vec!["<hp:x/>".to_string()]).is_none());
    assert!(drawing_style_effects_json(&vec![]).is_none());
}

#[test]
fn picture_effects_collected() {
    let effects = PictureEffects {
        shadow: Some(PictureShadow { alpha: Some("0.5".to_string()), ..Default::default() }),
        raw_xml: vec![THREE_D.to_string(), "<hp:unknown/>".to_string()],
        ..Default::default()
    };
    let v = picture_effects_json(&effects).unwrap();
    assert_eq!(keys(&v), vec!["raw_xml", "shadow", "threeD"]);
    assert_eq!(text_of(member(member(&v, "shadow").unwrap(), "alpha")).as_deref(), Some("0.5"));
    assert_eq!(text_of(member(member(&v, "threeD").unwrap(), "z")).as_deref(), Some("3"));
    assert_eq!(texts_of(member(&v, "raw_xml")), Some(vec!["<hp:unknown/>".to_string()]));
}

#[test]
fn picture_effects_field_wins_over_fragment() {
    let effects = PictureEffects {
        three_d: Some(PictureThreeD::default()),
        raw_xml: vec![THREE_D.to_string()],
        ..Default::default()
    };
    let v = picture_effects_json(&effects).unwrap();
    assert_eq!(keys(&v), vec!["threeD"]);
    assert_eq!(keys(member(&v, "threeD").unwrap()), Vec::<String>::new());
    let only_known = PictureEffects { raw_xml: vec![THREE_D.to_string()], ..Default::default() };
    assert_eq!(keys(&picture_effects_json(&only_known).unwrap()), vec!["threeD"]);
    assert!(picture_effects_json(&PictureEffects::default()).is_none());
}

#[test]
fn drawing_style_effects_written_back() {
    let obj = |members: Vec<(&str, JsonValue)>| {
        JsonValue::Object(members.into_iter().map(|(k, v)| (k.to_string(), v)).collect())
    };
    let mut drawing = DrawingObjAttr {
        raw_hwpx_child_xml: vec![
            "<hp:effects><hp:blur radius=\"1\"/></hp:effects>".to_string(),
            "<hp:other/>".to_string(),
            GLOW.to_string(),
        ],
    };
    let effects = obj(vec![
        ("blur", obj(vec![("radius", JsonValue::String("2".to_string()))])),
        ("glow", JsonValue::Null),
    ]);
    apply_drawing_style_effects(&mut drawing, &effects).unwrap();
    assert_eq!(
        drawing.raw_hwpx_child_xml,
        vec!["<hp:other/>".to_string(), "<hp:effects><hp:blur radius=\"2\"/></hp:effects>".to_string()]
    );
    let bad = obj(vec![("shadow", JsonValue::Bool(true))]);
    let mut with_shadow = DrawingObjAttr { raw_hwpx_child_xml: vec![SHADOW.to_string(), "<x/>".to_string()] };
    assert_eq!(
        apply_drawing_style_effects(&mut with_shadow, &bad),
        Err("drawing_style.effects.shadow must be an object or null".to_string())
    );
    assert_eq!(with_shadow.raw_hwpx_child_xml, vec!["<x/>".to_string()]);
    assert_eq!(
        apply_drawing_style_effects(&mut with_shadow, &JsonValue::Null),
        Err("drawing_style.effects must be an object".to_string())
    );
}
