use rhwp::document_core::builders::document_template::fields::apply_picture_image_rect;
use rhwp::document_core::builders::document_template::picture_layout::{
    apply_picture_crop, apply_picture_padding, picture_crop_json, picture_image_rect_json,
    picture_image_rect_points, picture_padding_json,
};
use rhwp::json_value::{JsonNumber, JsonValue};
use rhwp::model::{CropInfo, Padding, Picture};

fn int_of(v: Option<&JsonValue>) -> Option<i64> {
    match v {
        Some(JsonValue::Number(JsonNumber::PosInt(n))) => Some(*n as i64),
        Some(JsonValue::Number(JsonNumber::NegInt(n))) => Some(*n),
        _ => None,
    }
}

fn obj(members: Vec<(&str, JsonValue)>) -> JsonValue {
    JsonValue::Object(members.into_iter().map(|(k, v)| (k.to_string(), v)).collect())
}

#[test]
fn crop_written_when_not_default() {
    let mut p = Picture::default();
    p.crop = CropInfo { left: 0, top: 0, right: 7_500, bottom: 3_750 };
    assert!(picture_crop_json(&p, 100, 50).is_none());
    p.crop.left = -5;
    let v = picture_crop_json(&p, 100, 50).unwrap();
    assert_eq!(int_of(v.get("left")), Some(-5));
    assert_eq!(int_of(v.get("right")), Some(7_500));
    assert_eq!(int_of(v.get("bottom")), Some(3_750));
    // The default edge saturates at u32::MAX, taken as an i32.
    p.crop = CropInfo { left: 0, top: 0, right: -1, bottom: -1 };
    assert!(picture_crop_json(&p, u32::MAX, u32::MAX).is_none());
}

#[test]
fn crop_read_back() {
    let mut p = Picture::default();
    p.crop = CropInfo { left: 3, top: -4, right: 5, bottom: 6 };
    let v = picture_crop_json(&p, 0, 0).unwrap();
    let mut c = CropInfo { left: 9, top: 9, right: 9, bottom: 9 };
    assert!(apply_picture_crop(&v, &mut c).is_ok());
    assert_eq!(c, p.crop);
    let mut partial = CropInfo { left: 1, top: 2, right: 3, bottom: 4 };
    apply_picture_crop(&obj(vec![("top", JsonValue::Number(JsonNumber::PosInt(8)))]), &mut partial).unwrap();
    assert_eq!(partial, CropInfo { left: 1, top: 8, right: 3, bottom: 4 });
    assert_eq!(
        apply_picture_crop(&JsonValue::Null, &mut partial),
        Err("picture layout.crop must be an object".to_string())
    );
}

#[test]
fn padding_written_and_read_back() {
    assert!(picture_padding_json(&Padding::default()).is_none());
    let padding = Padding { left: 1, right: -2, top: 3, bottom: 4 };
    let v = picture_padding_json(&padding).unwrap();
    assert_eq!(int_of(v.get("right")), Some(-2));
    let mut back = Padding::default();
    apply_picture_padding(&v, &mut back).unwrap();
    assert_eq!(back, padding);
    assert_eq!(
        apply_picture_padding(&JsonValue::Bool(true), &mut back),
        Err("picture layout.padding must be an object".to_string())
    );
    let mut big = Padding::default();
    apply_picture_padding(&obj(vec![("left", JsonValue::Number(JsonNumber::PosInt(40_000)))]), &mut big).unwrap();
    assert_eq!(big.left, 0);
}

#[test]
fn image_rect_written_and_read_back() {
    let mut p = Picture::default();
    p.border_x = [0, 0, 200, 0];
    p.border_y = [200, 100, 0, 100];
    assert_eq!(picture_image_rect_points(&p), [(0, 0), (200, 0), (200, 100), (0, 100)]);
    assert!(picture_image_rect_json(&p, 200, 100).is_none());
    p.border_x = [1, 2, 3, 4];
    p.border_y = [5, -6, 7, 8];
    let v = picture_image_rect_json(&p, 200, 100).unwrap();
    match &v {
        JsonValue::Array(items) => {
            assert_eq!(items.len(), 4);
            assert_eq!(int_of(items[2].get("y")), Some(-6));
        }
        _ => panic!("not an array"),
    }
    let mut bx = [0; 4];
    let mut by = [0; 4];
    apply_picture_image_rect(&v, &mut bx, &mut by).unwrap();
    assert_eq!(bx, p.border_x);
    assert_eq!(by, p.border_y);
}
