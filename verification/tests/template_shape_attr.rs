use rhwp::document_core::builders::document_template::object_layout::common_object_layout_template;
use rhwp::document_core::builders::document_template::picture_layout::{
    apply_object_layout, apply_picture_layout, object_layout_json, picture_layout_json,
};
use rhwp::document_core::builders::document_template::shape_attr::{
    apply_picture_shape_attr, apply_shape_attr_json, picture_shape_attr_json, RenderMembers,
};
use rhwp::json_value::{JsonNumber, JsonValue};
use rhwp::model::{CropInfo, Padding, Picture, Point, ShapeComponentAttr};

fn num(n: u64) -> JsonValue {
    JsonValue::Number(JsonNumber::PosInt(n))
}

fn obj(members: Vec<(&str, JsonValue)>) -> JsonValue {
    JsonValue::Object(members.into_iter().map(|(k, v)| (k.to_string(), v)).collect())
}

fn keys(v: &JsonValue) -> Vec<String> {
    match v {
        JsonValue::Object(m) => {
            let mut k: Vec<String> = m.iter().map(|(k, _)| k.clone()).collect();
            k.sort();
            k
        }
        _ => panic!("not an object"),
    }
}

fn pos(v: Option<&JsonValue>) -> Option<u64> {
    match v {
        Some(JsonValue::Number(JsonNumber::PosInt(n))) => Some(*n),
        _ => None,
    }
}

#[test]
fn shape_attr_written_when_not_default() {
    let base = ShapeComponentAttr { original_width: 100, current_width: 100, original_height: 50, local_file_version: 1, ..Default::default() };
    assert!(picture_shape_attr_json(&base, 100, 50, None).is_none());
    let s = ShapeComponentAttr {
        offset_x: -3,
        flip: 1,
        horz_flip: true,
        rotation_angle: 90,
        rotation_center: Point { x: 5, y: 0 },
        current_width: 120,
        ..base
    };
    let v = picture_shape_attr_json(&s, 100, 50, None).unwrap();
    assert_eq!(
        keys(&v),
        vec!["current_width", "flip", "horz_flip", "offset_x", "rotation_angle", "rotation_center_x"]
    );
    assert_eq!(pos(v.get("current_width")), Some(120));
    let render = RenderMembers { sx: num(2), b: num(0), tx: num(0), c: num(0), sy: num(1), ty: num(0) };
    let with_render = picture_shape_attr_json(&base, 100, 50, Some(render)).unwrap();
    assert_eq!(keys(&with_render), vec!["render_b", "render_c", "render_sx", "render_sy", "render_tx", "render_ty"]);
    assert_eq!(pos(with_render.get("render_sx")), Some(2));
}

#[test]
fn shape_attr_read_back() {
    let s = ShapeComponentAttr {
        offset_x: -3,
        flip: 3,
        horz_flip: true,
        vert_flip: true,
        rotate_image: true,
        rotation_center: Point { x: 0, y: 7 },
        ..Default::default()
    };
    let v = picture_shape_attr_json(&s, 100, 50, None).unwrap();
    let mut t = ShapeComponentAttr::default();
    apply_shape_attr_json(&v, &mut t, "x").unwrap();
    assert_eq!(t, s);
    assert_eq!(
        apply_shape_attr_json(&num(1), &mut t, "object layout.shape_attr"),
        Err("object layout.shape_attr must be an object".to_string())
    );
    assert_eq!(
        apply_picture_shape_attr(&JsonValue::Null, &mut t),
        Err("picture layout.shape_attr must be an object".to_string())
    );
}

#[test]
fn flip_flags_follow_the_bits() {
    let mut t = ShapeComponentAttr::default();
    apply_shape_attr_json(&obj(vec![("flip", num(2))]), &mut t, "c").unwrap();
    assert_eq!((t.flip, t.horz_flip, t.vert_flip), (2, false, true));
    apply_shape_attr_json(&obj(vec![("horz_flip", JsonValue::Bool(true)), ("vert_flip", JsonValue::Bool(false))]), &mut t, "c").unwrap();
    assert_eq!((t.flip, t.horz_flip, t.vert_flip), (1, true, false));
    let mut zero = ShapeComponentAttr::default();
    apply_shape_attr_json(&obj(vec![("horz_flip", JsonValue::Bool(true))]), &mut zero, "c").unwrap();
    assert_eq!((zero.flip, zero.horz_flip), (0, true));
}

#[test]
fn picture_and_object_layouts() {
    let mut p = Picture::default();
    p.crop = CropInfo { left: 0, top: 0, right: 750, bottom: 750 };
    assert!(picture_layout_json(&p, 0, 0, 10, 10, None).is_none());
    p.padding = Padding { left: 4, right: 0, top: 0, bottom: 0 };
    p.shape_attr.offset_y = 9;
    let v = picture_layout_json(&p, 0, 0, 10, 10, None).unwrap();
    assert_eq!(keys(&v), vec!["padding", "shape_attr"]);

    let mut back = Picture::default();
    back.crop = CropInfo { left: 0, top: 0, right: 750, bottom: 750 };
    let (mut shape, mut crop, mut padding, mut bx, mut by) = (back.shape_attr, back.crop, back.padding, back.border_x, back.border_y);
    apply_picture_layout(Some(&v), &mut shape, &mut crop, &mut padding, &mut bx, &mut by).unwrap();
    assert_eq!(padding, p.padding);
    assert_eq!(shape.offset_y, 9);
    assert_eq!(crop, p.crop);

    let s = ShapeComponentAttr { group_level: 2, ..Default::default() };
    let o = object_layout_json(&s, 10, 10, None).unwrap();
    assert_eq!(keys(&o), vec!["shape_attr"]);
    assert!(object_layout_json(&ShapeComponentAttr::default(), 10, 10, None).is_none());
    let mut t = ShapeComponentAttr::default();
    apply_object_layout(Some(&o), &mut t).unwrap();
    assert_eq!(t.group_level, 2);
    assert_eq!(apply_object_layout(Some(&num(3)), &mut t), Err("object layout must be an object".to_string()));
    assert!(apply_object_layout(None, &mut t).is_ok());
    assert!(apply_object_layout(Some(&JsonValue::Null), &mut t).is_ok());
}

#[test]
fn picture_layout_errors_keep_earlier_steps() {
    let layout = obj(vec![
        ("crop", obj(vec![("left", num(5))])),
        ("padding", num(1)),
    ]);
    let (mut shape, mut crop, mut padding, mut bx, mut by) =
        (ShapeComponentAttr::default(), CropInfo::default(), Padding::default(), [0; 4], [0; 4]);
    assert_eq!(
        apply_picture_layout(Some(&layout), &mut shape, &mut crop, &mut padding, &mut bx, &mut by),
        Err("picture layout.padding must be an object".to_string())
    );
    assert_eq!(crop.left, 5);
    assert_eq!(
        apply_picture_layout(Some(&num(1)), &mut shape, &mut crop, &mut padding, &mut bx, &mut by),
        Err("picture layout must be an object".to_string())
    );
    let rect = obj(vec![("image_rect", JsonValue::Null), ("img_rect", num(1))]);
    assert!(apply_picture_layout(Some(&rect), &mut shape, &mut crop, &mut padding, &mut bx, &mut by).is_ok());
    let alias = obj(vec![("img_rect", num(1))]);
    assert_eq!(
        apply_picture_layout(Some(&alias), &mut shape, &mut crop, &mut padding, &mut bx, &mut by),
        Err("picture layout.image_rect must be an array or object".to_string())
    );
    let transform = obj(vec![("transform", obj(vec![("offset_x", num(4))]))]);
    apply_picture_layout(Some(&transform), &mut shape, &mut crop, &mut padding, &mut bx, &mut by).unwrap();
    assert_eq!(shape.offset_x, 4);
}

#[test]
fn common_object_layout_writes_href_and_inst_id() {
    let mut common = rhwp::model::CommonObjAttr::default();
    common.instance_id = 10;
    common.inst_id = 20;
    common.dropcap_style = Some("TripleLine".to_string());
    common.href = Some("?LinkedShape;0;0;0;".to_string());

    let layout = common_object_layout_template(&common).expect("object layout");
    assert_eq!(pos(layout.get("inst_id")), Some(20));
    assert!(matches!(layout.get("dropcap_style"), Some(JsonValue::String(s)) if s == "TripleLine"));
    assert!(matches!(layout.get("href"), Some(JsonValue::String(s)) if s == "?LinkedShape;0;0;0;"));
}
