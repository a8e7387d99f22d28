use rhwp::document_core::builders::document_template::attrs::{
    drawing_style_xml_attr_map, text_less_exec, XmlAttrs,
};
use rhwp::document_core::builders::document_template::effect_writer::{
    effect_color_json, effect_point_json, effect_range_json, effect_rgb_json,
    picture_blur_json, picture_effect_child_json, picture_fill_overlay_json, picture_glow_json,
    picture_reflection_json, picture_shadow_json, picture_soft_edge_json,
    picture_solid_fill_json, picture_three_d_json,
};
use rhwp::document_core::builders::document_template::effects::{
    effect_color_from_json, picture_blur_from_json, picture_effect_child_from_json,
    picture_effects_from_json, picture_fill_overlay_from_json, picture_glow_from_json,
    picture_reflection_from_json, picture_shadow_from_json, picture_soft_edge_from_json,
    picture_solid_fill_from_json, picture_three_d_from_json,
};
use rhwp::document_core::builders::document_template::fields::{
    apply_picture_image_rect, border_line_from_json, border_line_json, border_line_value,
    connector_control_point_json, connector_control_points_from_json,
    effect_point_from_flat_aliases, effect_point_from_json, effect_range_from_flat_aliases,
    effect_range_from_json, geometry_i32_array4, geometry_point, geometry_points, geometry_u8_vec,
    picture_image_rect_from_json, picture_point_from_json,
};
use rhwp::json_value::{json_i32_vec_alias, json_string_array_alias, JsonNumber, JsonValue};
use rhwp::model::{
    BorderLine, BorderLineType, ConnectorControlPoint, EffectColor, EffectPoint, EffectRange, EffectRgb, PictureBlur,
    PictureEffectChild, PictureFillOverlay, PictureGlow, PictureReflection, PictureShadow,
    PictureSoftEdge, PictureSolidFill, PictureThreeD, Point,
};

fn obj(members: Vec<(&str, JsonValue)>) -> JsonValue {
    JsonValue::Object(members.into_iter().map(|(k, v)| (k.to_string(), v)).collect())
}

fn pos(n: u64) -> JsonValue {
    JsonValue::Number(JsonNumber::PosInt(n))
}

fn neg(n: i64) -> JsonValue {
    JsonValue::Number(JsonNumber::NegInt(n))
}

fn text(s: &str) -> JsonValue {
    JsonValue::String(s.to_string())
}

fn some(s: &str) -> Option<String> {
    Some(s.to_string())
}

fn attrs_of(pairs: &[(&str, &str)]) -> XmlAttrs {
    let mut a = XmlAttrs::new();
    for (k, v) in pairs {
        a.insert(k.to_string(), v.to_string());
    }
    a
}

fn names(a: &XmlAttrs) -> Vec<(String, String)> {
    a.entries.clone()
}

#[test]
fn effect_points_and_ranges() {
    let p = effect_point_from_json(&obj(vec![("x", text("10")), ("y", pos(20))])).unwrap();
    assert_eq!(p, EffectPoint { x: some("10"), y: some("20") });
    assert_eq!(
        effect_point_from_json(&text("x")).unwrap_err(),
        "picture effect point must be an object"
    );
    let r = effect_range_from_json(&obj(vec![("start", neg(-3))])).unwrap();
    assert_eq!(r, EffectRange { start: some("-3"), end: None });
    assert_eq!(
        effect_range_from_json(&pos(1)).unwrap_err(),
        "picture effect range must be an object"
    );
}

#[test]
fn effect_flat_aliases() {
    let v = obj(vec![("skewX", text("5")), ("scale_y", text("7")), ("alphaEnd", text("9"))]);
    assert_eq!(
        effect_point_from_flat_aliases(&v, "skew"),
        Some(EffectPoint { x: some("5"), y: None })
    );
    assert_eq!(
        effect_point_from_flat_aliases(&v, "scale"),
        Some(EffectPoint { x: None, y: some("7") })
    );
    assert_eq!(effect_point_from_flat_aliases(&v, "other"), None);
    assert_eq!(
        effect_range_from_flat_aliases(&v, "alpha"),
        Some(EffectRange { start: None, end: some("9") })
    );
    assert_eq!(effect_range_from_flat_aliases(&v, "pos"), None);
    let both = obj(vec![("skew_x", text("1")), ("skewX", text("2"))]);
    assert_eq!(
        effect_point_from_flat_aliases(&both, "skew"),
        Some(EffectPoint { x: some("1"), y: None })
    );
}

#[test]
fn geometry_fields() {
    let g = obj(vec![
        ("p", obj(vec![("x", neg(-4)), ("y", pos(9))])),
        ("q", obj(vec![("x", pos(1))])),
        ("box", JsonValue::Array(vec![pos(1), neg(-2), pos(3), pos(4)])),
        ("short", JsonValue::Array(vec![pos(1), pos(2), pos(3)])),
        ("big", JsonValue::Array(vec![pos(1), pos(2), pos(3), pos(0x8000_0000)])),
        ("bytes", JsonValue::Array(vec![pos(1), pos(300), text("2"), pos(255)])),
    ]);
    assert_eq!(geometry_point(&g, "p"), Some(Point { x: -4, y: 9 }));
    assert_eq!(geometry_point(&g, "q"), None);
    assert_eq!(geometry_point(&g, "none"), None);
    assert_eq!(geometry_i32_array4(&g, "box"), Some([1, -2, 3, 4]));
    assert_eq!(geometry_i32_array4(&g, "short"), None);
    assert_eq!(geometry_i32_array4(&g, "big"), None);
    assert_eq!(geometry_u8_vec(&g, "bytes"), Some(vec![1, 255]));
    assert_eq!(geometry_u8_vec(&g, "p"), None);
    let points = obj(vec![(
        "points",
        JsonValue::Array(vec![
            obj(vec![("x", pos(1)), ("y", neg(-2))]),
            obj(vec![("x", pos(0x8000_0000)), ("y", pos(0))]),
            pos(5),
            obj(vec![("x", pos(3)), ("y", pos(4))]),
        ]),
    )]);
    assert_eq!(geometry_points(&points, "points"), Some(vec![Point { x: 1, y: -2 }, Point { x: 3, y: 4 }]));
    assert_eq!(geometry_points(&points, "none"), None);
    assert_eq!(geometry_points(&g, "p"), None);
}

#[test]
fn picture_layout_points() {
    assert_eq!(picture_point_from_json(&obj(vec![("x", pos(3)), ("y", neg(-1))]), "pt"), Ok((3, -1)));
    assert_eq!(
        picture_point_from_json(&pos(3), "pt").unwrap_err(),
        "picture layout.pt must be an object"
    );
    assert_eq!(
        picture_point_from_json(&obj(vec![("y", pos(1))]), "pt").unwrap_err(),
        "picture layout.pt.x is required"
    );
    assert_eq!(
        picture_point_from_json(&obj(vec![("x", pos(1))]), "pt").unwrap_err(),
        "picture layout.pt.y is required"
    );
}

fn point(x: i64, y: i64) -> JsonValue {
    obj(vec![("x", neg(x)), ("y", neg(y))])
}

#[test]
fn picture_image_rects() {
    let arr = JsonValue::Array(vec![point(0, 0), point(10, 0), point(10, 20), point(0, 20)]);
    assert_eq!(picture_image_rect_from_json(&arr), Ok([(0, 0), (10, 0), (10, 20), (0, 20)]));
    let named = obj(vec![("pt0", point(1, 2)), ("pt1", point(3, 4)), ("pt2", point(5, 6)), ("pt3", point(7, 8))]);
    assert_eq!(picture_image_rect_from_json(&named), Ok([(1, 2), (3, 4), (5, 6), (7, 8)]));
    let missing = obj(vec![("pt0", point(1, 2)), ("pt1", point(3, 4)), ("pt3", point(7, 8))]);
    assert_eq!(
        picture_image_rect_from_json(&missing).unwrap_err(),
        "picture layout.image_rect.pt2 is required"
    );
    let three = JsonValue::Array(vec![point(0, 0), point(1, 1), point(2, 2)]);
    assert_eq!(
        picture_image_rect_from_json(&three).unwrap_err(),
        "picture layout.image_rect must contain four points"
    );
    let bad = JsonValue::Array(vec![point(0, 0), pos(1), point(2, 2), point(3, 3)]);
    assert_eq!(
        picture_image_rect_from_json(&bad).unwrap_err(),
        "picture layout.image_rect[1] must be an object"
    );
    assert_eq!(
        picture_image_rect_from_json(&text("x")).unwrap_err(),
        "picture layout.image_rect must be an array or object"
    );
    let mut bx = [9; 4];
    let mut by = [9; 4];
    apply_picture_image_rect(&named, &mut bx, &mut by).unwrap();
    assert_eq!(bx, [1, 2, 3, 4]);
    assert_eq!(by, [5, 6, 7, 8]);
    let mut cx = [9; 4];
    let mut cy = [8; 4];
    assert!(apply_picture_image_rect(&three, &mut cx, &mut cy).is_err());
    assert_eq!((cx, cy), ([9; 4], [8; 4]));
}

#[test]
fn border_lines_from_json() {
    let v = obj(vec![(
        "borders",
        obj(vec![
            ("left", obj(vec![("type", text("dash")), ("width", pos(2)), ("color_hex", text("#FF0000"))])),
            ("top", obj(vec![("type", pos(8)), ("color", pos(7))])),
        ]),
    )]);
    let left = border_line_from_json(border_line_value(&v, "left", 0));
    assert_eq!((left.line_type, left.width, left.color), (BorderLineType::Dash, 2, 0x0000_00FF));
    let top = border_line_from_json(border_line_value(&v, "top", 2));
    assert_eq!((top.line_type, top.width, top.color), (BorderLineType::Double, 0, 7));
    let none = border_line_from_json(border_line_value(&v, "right", 1));
    assert_eq!((none.line_type, none.width, none.color), (BorderLineType::NoLine, 0, 0));
    let listed = obj(vec![(
        "borders",
        JsonValue::Array(vec![obj(vec![]), obj(vec![("type", text("SOLID")), ("width", pos(1))])]),
    )]);
    let right = border_line_from_json(border_line_value(&listed, "right", 1));
    assert_eq!((right.line_type, right.width), (BorderLineType::Solid, 1));
    assert!(border_line_value(&listed, "right", 5).is_none());
}

#[test]
fn alias_lists() {
    let v = obj(vec![("b", JsonValue::Array(vec![neg(-1), text("x"), pos(2)]))]);
    assert_eq!(json_i32_vec_alias(&v, "a", &["c", "b"]), Some(vec![-1, 2]));
    assert_eq!(json_i32_vec_alias(&v, "a", &["c"]), None);
    let members = vec![("rawXml".to_string(), text("<a/>"))];
    assert_eq!(json_string_array_alias(&members, &["raw_xml", "rawXml"]), Ok(vec!["<a/>".to_string()]));
    assert_eq!(json_string_array_alias(&members, &["other"]), Ok(vec![]));
    let bad = vec![("raw_xml".to_string(), pos(1))];
    assert_eq!(
        json_string_array_alias(&bad, &["raw_xml"]).unwrap_err(),
        "picture effects raw_xml must be a string array"
    );
}

#[test]
fn effect_colors_from_json() {
    let c = effect_color_from_json(&text("#102030")).unwrap();
    assert_eq!(c.color_type.as_deref(), Some("RGB"));
    assert_eq!(c.scheme_idx.as_deref(), Some("-1"));
    let rgb = c.rgb.unwrap();
    assert_eq!((rgb.r.as_deref(), rgb.g.as_deref(), rgb.b.as_deref()), (Some("16"), Some("32"), Some("48")));
    assert_eq!(
        effect_color_from_json(&text("blue")).unwrap_err(),
        "picture effect color string must be a CSS #RRGGBB color"
    );
    assert_eq!(
        effect_color_from_json(&JsonValue::Null).unwrap_err(),
        "picture effect color must be an object or CSS #RRGGBB string"
    );
    let o = effect_color_from_json(&obj(vec![
        ("type", text("SCHEME")),
        ("schemeIdx", pos(3)),
        ("rgb", obj(vec![("r", pos(1))])),
        ("rawChildXml", text("<x/>")),
    ]))
    .unwrap();
    assert_eq!(o.color_type.as_deref(), Some("SCHEME"));
    assert_eq!(o.scheme_idx.as_deref(), Some("3"));
    assert_eq!(o.system_idx, None);
    assert_eq!(o.rgb.unwrap().r.as_deref(), Some("1"));
    assert_eq!(o.raw_child_xml, vec!["<x/>".to_string()]);
    let hex = effect_color_from_json(&obj(vec![("type", text("PRESET")), ("rgbHex", text("#0A0B0C"))])).unwrap();
    assert_eq!(hex.color_type.as_deref(), Some("PRESET"));
    assert_eq!(hex.preset_idx.as_deref(), Some("-1"));
    assert_eq!(hex.rgb.unwrap().b.as_deref(), Some("12"));
    assert_eq!(
        effect_color_from_json(&obj(vec![("rgb", pos(1))])).unwrap_err(),
        "picture effect rgb must be an object"
    );
}

#[test]
fn picture_effect_readers() {
    let s = picture_shadow_from_json(&obj(vec![
        ("style", text("OUTER")),
        ("alignStyle", text("CENTER")),
        ("skewX", text("2")),
        ("scale", obj(vec![("x", text("100"))])),
        ("effectsColor", text("#000000")),
    ]))
    .unwrap();
    assert_eq!(s.style.as_deref(), Some("OUTER"));
    assert_eq!(s.align_style.as_deref(), Some("CENTER"));
    assert_eq!(s.skew, Some(EffectPoint { x: some("2"), y: None }));
    assert_eq!(s.scale, Some(EffectPoint { x: some("100"), y: None }));
    assert_eq!(s.color.unwrap().rgb.unwrap().r.as_deref(), Some("0"));
    assert_eq!(
        picture_shadow_from_json(&text("x")).unwrap_err(),
        "picture effects.shadow must be an object"
    );
    assert_eq!(
        picture_shadow_from_json(&obj(vec![("skew", pos(1)), ("color", pos(1))])).unwrap_err(),
        "picture effect point must be an object"
    );
    let g = picture_glow_from_json(&obj(vec![("radius", pos(5)), ("color", JsonValue::Null)])).unwrap();
    assert_eq!(g, PictureGlow { alpha: None, radius: some("5"), color: None, raw_child_xml: vec![] });
    assert_eq!(
        picture_soft_edge_from_json(&pos(1)).unwrap_err(),
        "picture effects.soft_edge must be an object"
    );
    assert_eq!(
        picture_blur_from_json(&obj(vec![("radius", text("3"))])).unwrap(),
        PictureBlur { radius: some("3"), raw_child_xml: vec![] }
    );
    let r = picture_reflection_from_json(&obj(vec![
        ("fadeDirection", text("1")),
        ("alpha_start", text("0")),
        ("pos", obj(vec![("end", text("90"))])),
    ]))
    .unwrap();
    assert_eq!(r.fade_direction.as_deref(), Some("1"));
    assert_eq!(r.alpha, Some(EffectRange { start: some("0"), end: None }));
    assert_eq!(r.pos, Some(EffectRange { start: None, end: some("90") }));
    let f = picture_fill_overlay_from_json(&obj(vec![
        ("blend", text("MULTIPLY")),
        ("solidFill", obj(vec![("colorHex", text("#AABBCC")), ("color", obj(vec![("type", text("RGB"))]))])),
    ]))
    .unwrap();
    let solid = f.solid_fill.unwrap();
    assert_eq!(solid.color.as_deref(), Some("#AABBCC"));
    assert_eq!(solid.effect_color.unwrap().color_type.as_deref(), Some("RGB"));
    assert_eq!(
        picture_solid_fill_from_json(&text("#123456")).unwrap(),
        PictureSolidFill { color: some("#123456"), effect_color: None, raw_child_xml: vec![] }
    );
    assert_eq!(
        picture_solid_fill_from_json(&JsonValue::Null).unwrap_err(),
        "picture effects.fillOverlay.solid_fill must be an object"
    );
}

#[test]
fn picture_effects_collection() {
    let e = picture_effects_from_json(Some(&obj(vec![
        ("picture_shadow", obj(vec![("alpha", text("0.5"))])),
        ("softEdge", obj(vec![("radius", text("4"))])),
        ("pictureBlur", obj(vec![])),
        ("three_d", obj(vec![("bevelType", text("CIRCLE")), ("z", pos(3))])),
        ("effectsRawXml", JsonValue::Array(vec![text("<hp:x/>")])),
    ])))
    .unwrap();
    assert_eq!(e.shadow.unwrap().alpha.as_deref(), Some("0.5"));
    assert_eq!(e.soft_edge.unwrap().radius.as_deref(), Some("4"));
    assert!(e.blur.is_some());
    assert!(e.glow.is_none());
    let t = e.three_d.unwrap();
    assert_eq!(names(&t.attrs), vec![("z".to_string(), "3".to_string())]);
    assert_eq!(names(&t.bevel.unwrap().attrs), vec![("type".to_string(), "CIRCLE".to_string())]);
    assert_eq!(e.raw_xml, vec!["<hp:x/>".to_string()]);
    let none = picture_effects_from_json(None).unwrap();
    assert!(none.shadow.is_none() && none.raw_xml.is_empty());
    assert!(picture_effects_from_json(Some(&JsonValue::Null)).unwrap().three_d.is_none());
    assert_eq!(
        picture_effects_from_json(Some(&pos(1))).unwrap_err(),
        "picture effects must be an object"
    );
    assert_eq!(
        picture_effects_from_json(Some(&obj(vec![("glow", pos(1))]))).unwrap_err(),
        "picture effects.glow must be an object"
    );
}

#[test]
fn xml_attributes_in_name_order() {
    assert!(text_less_exec("a", "b"));
    assert!(text_less_exec("ab", "b"));
    assert!(text_less_exec("a", "ab"));
    assert!(!text_less_exec("b", "ab"));
    assert!(!text_less_exec("a", "a"));
    assert!(text_less_exec("Z", "a"));
    let mut a = XmlAttrs::new();
    a.insert("b".to_string(), "2".to_string());
    a.insert("a".to_string(), "1".to_string());
    a.insert("c".to_string(), "3".to_string());
    a.insert("b".to_string(), "9".to_string());
    assert_eq!(
        names(&a),
        vec![
            ("a".to_string(), "1".to_string()),
            ("b".to_string(), "9".to_string()),
            ("c".to_string(), "3".to_string()),
        ]
    );
    let v = obj(vec![
        ("attrs", obj(vec![("dir", pos(1)), ("1bad", text("x")), ("w", obj(vec![]))])),
        ("dir", text("2")),
        ("skipme", text("s")),
        ("ok", JsonValue::Bool(true)),
    ]);
    let m = drawing_style_xml_attr_map(&v, &["skipme"]);
    assert_eq!(
        names(&m),
        vec![("dir".to_string(), "2".to_string()), ("ok".to_string(), "1".to_string())]
    );
    let child = picture_effect_child_from_json(&text("ANGLE")).unwrap();
    assert_eq!(names(&child.attrs), vec![("type".to_string(), "ANGLE".to_string())]);
    assert_eq!(
        picture_effect_child_from_json(&JsonValue::Array(vec![])).unwrap_err(),
        "picture effect child must be an object or string"
    );
    let t = picture_three_d_from_json(&obj(vec![("bevel", obj(vec![("w", pos(5))])), ("h", pos(1))])).unwrap();
    assert_eq!(names(&t.attrs), vec![("h".to_string(), "1".to_string())]);
    assert_eq!(names(&t.bevel.unwrap().attrs), vec![("w".to_string(), "5".to_string())]);
}

#[test]
fn effect_writers_read_back() {
    let p = EffectPoint { x: some("1"), y: None };
    assert_eq!(effect_point_from_json(&effect_point_json(&p)).unwrap(), p);
    let r = EffectRange { start: None, end: some("80") };
    assert_eq!(effect_range_from_json(&effect_range_json(&r)).unwrap(), r);
    let rgb = EffectRgb { r: some("x"), g: some("2"), b: None };
    let c = EffectColor {
        color_type: some("RGB"),
        scheme_idx: None,
        system_idx: some("-1"),
        preset_idx: None,
        rgb: Some(rgb.clone()),
        raw_child_xml: vec!["<a/>".to_string()],
    };
    assert_eq!(effect_color_from_json(&effect_color_json(&c)).unwrap(), c);
    let rgb_json = effect_rgb_json(&rgb);
    assert!(matches!(rgb_json, JsonValue::Object(ref m) if m.len() == 2));
    let s = PictureShadow {
        style: some("OUTER"),
        alpha: some("0.4"),
        rotation_style: some("1"),
        skew: Some(EffectPoint { x: None, y: None }),
        color: Some(EffectColor { color_type: some("SCHEME"), ..Default::default() }),
        raw_child_xml: vec!["<r/>".to_string()],
        ..Default::default()
    };
    assert_eq!(picture_shadow_from_json(&picture_shadow_json(&s)).unwrap(), s);
    let g = PictureGlow { radius: some("3"), ..Default::default() };
    assert_eq!(picture_glow_from_json(&picture_glow_json(&g)).unwrap(), g);
    let se = PictureSoftEdge { radius: some("2"), raw_child_xml: vec![] };
    assert_eq!(picture_soft_edge_from_json(&picture_soft_edge_json(&se)).unwrap(), se);
    let b = PictureBlur { radius: None, raw_child_xml: vec!["<b/>".to_string()] };
    assert_eq!(picture_blur_from_json(&picture_blur_json(&b)).unwrap(), b);
    let x = PictureReflection {
        fade_direction: some("5"),
        alpha: Some(EffectRange { start: some("0"), end: some("100") }),
        pos: Some(EffectRange { start: None, end: None }),
        ..Default::default()
    };
    assert_eq!(picture_reflection_from_json(&picture_reflection_json(&x)).unwrap(), x);
    let f = PictureFillOverlay {
        blend: some("SCREEN"),
        solid_fill: Some(PictureSolidFill { color: some("#0A0B0C"), effect_color: None, raw_child_xml: vec![] }),
        raw_child_xml: vec![],
    };
    assert_eq!(picture_fill_overlay_from_json(&picture_fill_overlay_json(&f)).unwrap(), f);
    let child = PictureEffectChild { attrs: attrs_of(&[("type", "ANGLE"), ("w", "3")]) };
    assert_eq!(picture_effect_child_from_json(&picture_effect_child_json(&child)).unwrap(), child);
    let t = PictureThreeD {
        attrs: attrs_of(&[("z", "1")]),
        bevel: Some(PictureEffectChild { attrs: attrs_of(&[("h", "2")]) }),
        raw_child_xml: vec!["<c/>".to_string()],
    };
    assert_eq!(picture_three_d_from_json(&picture_three_d_json(&t)).unwrap(), t);
}

#[test]
fn effect_writers_where_reading_changes_the_value() {
    // Decimal components gain a `#RRGGBB` text, and reading it back fills in
    // the colour type and indexes.
    let c = EffectColor {
        rgb: Some(EffectRgb { r: some("007"), g: some("8"), b: some("9") }),
        ..Default::default()
    };
    let back = effect_color_from_json(&effect_color_json(&c)).unwrap();
    assert_eq!(back.color_type.as_deref(), Some("RGB"));
    assert_eq!(back.rgb.unwrap().r.as_deref(), Some("7"));
    // A lower-case colour text is written beside its `#RRGGBB` form, which
    // is what is read back.
    let f = PictureSolidFill { color: some("#abcdef"), effect_color: None, raw_child_xml: vec![] };
    let back = picture_solid_fill_from_json(&picture_solid_fill_json(&f)).unwrap();
    assert_eq!(back.color.as_deref(), Some("#ABCDEF"));
}

#[test]
fn border_line_written_and_read() {
    let line = BorderLine { line_type: BorderLineType::ThickThinDouble, width: 3, color: 0x00FF_8000 };
    let v = border_line_json(line);
    match &v {
        JsonValue::Object(m) => {
            assert_eq!(m.len(), 4);
            assert!(m.iter().any(|(k, x)| k == "color_hex" && matches!(x, JsonValue::String(s) if s == "#0080FF")));
            assert!(m.iter().any(|(k, x)| k == "type" && matches!(x, JsonValue::String(s) if s == "thick_thin_double")));
        }
        _ => panic!("not an object"),
    }
    assert_eq!(border_line_from_json(Some(&v)), line);
}

#[test]
fn connector_points_written_and_read() {
    let points = vec![
        ConnectorControlPoint { x: -5, y: 7, point_type: 2 },
        ConnectorControlPoint { x: 0, y: -1, point_type: 0 },
    ];
    let arr = JsonValue::Array(points.iter().map(connector_control_point_json).collect());
    assert_eq!(connector_control_points_from_json(&arr), Ok(points));
    let partial = JsonValue::Array(vec![obj(vec![("x", pos(4))])]);
    assert_eq!(
        connector_control_points_from_json(&partial),
        Ok(vec![ConnectorControlPoint { x: 4, y: 0, point_type: 0 }])
    );
    assert_eq!(
        connector_control_points_from_json(&JsonValue::Array(vec![pos(1)])).unwrap_err(),
        "line geometry.connector.control_points entries must be objects"
    );
    assert_eq!(
        connector_control_points_from_json(&obj(vec![])).unwrap_err(),
        "line geometry.connector.control_points must be an array"
    );
}
