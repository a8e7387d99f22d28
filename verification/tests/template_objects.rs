use rhwp::document_core::builders::document_template::objects::{
    color_ref_to_hex, color_ref_to_rgb_u32, drawing_style_normalize_xml_color_hex,
    drawing_style_safe_xml_name, drawing_style_xml_attr_escape, effect_rgb_color_hex,
    normalized_ole_extension, normalized_picture_extension, ole_tag_bin_data_id, ole_tag_extents,
    paragraph_text, patch_ole_tag_bin_data_id, picture_extension_from_path, rgb_u32_to_color_ref,
    table_text_matrix, template_ole_tag_data,
};
use rhwp::document_core::builders::document_template::payload::{
    decode_base64_field, decode_font_type_info, decode_ole_payload, encode_base64_field,
    finish_ole_tag,
};
use rhwp::model::{Cell, EffectRgb, Paragraph, Table};

fn para(text: &str) -> Paragraph {
    Paragraph { text: text.to_string(), char_shapes: vec![], line_segs: vec![], controls: vec![] }
}

#[test]
fn ole_tag_record_layout() {
    let tag = template_ole_tag_data(100, -1, 7);
    assert_eq!(tag.len(), 26);
    assert_eq!(&tag[0..4], &[1, 0, 0, 0]);
    assert_eq!(&tag[4..8], &[100, 0, 0, 0]);
    assert_eq!(&tag[8..12], &[0xFF, 0xFF, 0xFF, 0xFF]);
    assert_eq!(&tag[12..16], &[7, 0, 0, 0]);
    assert!(tag[16..].iter().all(|b| *b == 0));
}

#[test]
fn ole_tag_reads_back_id_and_extents() {
    let tag = template_ole_tag_data(100, -1, 0x01020304);
    assert_eq!(ole_tag_bin_data_id(&tag), 0x01020304);
    assert_eq!(ole_tag_extents(&tag, 5, 5), (100, 1));
    assert_eq!(ole_tag_bin_data_id(&[1, 2, 3]), 0);
    assert_eq!(ole_tag_extents(&[], 300, 0), (300, 1));
    assert_eq!(ole_tag_extents(&[], 0x8000_0000, 2), (1, 2));
}

#[test]
fn ole_tag_patch_replaces_only_the_id() {
    let mut tag = vec![9u8; 20];
    patch_ole_tag_bin_data_id(&mut tag, 0x0A0B0C0D);
    assert_eq!(&tag[12..16], &[0x0D, 0x0C, 0x0B, 0x0A]);
    assert_eq!(&tag[0..12], &[9u8; 12]);
    assert_eq!(&tag[16..20], &[9u8; 4]);
    assert_eq!(ole_tag_bin_data_id(&tag), 0x0A0B0C0D);
    let mut short = vec![1u8; 15];
    patch_ole_tag_bin_data_id(&mut short, 5);
    assert_eq!(short, vec![1u8; 15]);
}

#[test]
fn extensions_are_normalized() {
    assert_eq!(normalized_ole_extension(" ..xls "), "xls");
    assert_eq!(normalized_ole_extension("  "), "OLE");
    assert_eq!(picture_extension_from_path("dir/a.b/photo.JPG"), Some("JPG".to_string()));
    assert_eq!(picture_extension_from_path("dir.x/photo"), None);
    assert_eq!(picture_extension_from_path("C:\\img\\a.png"), Some("png".to_string()));
    assert_eq!(picture_extension_from_path(".hidden"), Some("hidden".to_string()));
    assert_eq!(picture_extension_from_path("file. "), None);
    assert_eq!(normalized_picture_extension("", "x/y.gif"), "gif");
    assert_eq!(normalized_picture_extension(" ", "noext"), "png");
    assert_eq!(normalized_picture_extension(".JPEG", "x.gif"), "JPEG");
}

#[test]
fn color_refs_as_text() {
    assert_eq!(color_ref_to_hex(0x0033_2211), "#112233");
    assert_eq!(color_ref_to_hex(0xFFFF_FFFF), "none");
    assert_eq!(color_ref_to_hex(0x8033_2211), "#80112233");
    assert_eq!(color_ref_to_hex(0), "#000000");
}

#[test]
fn color_ref_byte_order_roundtrip() {
    assert_eq!(rgb_u32_to_color_ref(0x1122_3344), 0x1144_3322);
    assert_eq!(color_ref_to_rgb_u32(0x1144_3322), 0x0022_3344);
    for raw in [0u32, 0x00FF_0000, 0x12AB_CDEF, 0xFFFF_FFFF] {
        assert_eq!(color_ref_to_rgb_u32(rgb_u32_to_color_ref(raw)), raw & 0x00FF_FFFF);
        assert_eq!(rgb_u32_to_color_ref(color_ref_to_rgb_u32(raw)), raw & 0x00FF_FFFF);
    }
}

#[test]
fn xml_color_hex_normalization() {
    assert_eq!(drawing_style_normalize_xml_color_hex(" #a0b1c2 "), Some("#A0B1C2".to_string()));
    assert_eq!(drawing_style_normalize_xml_color_hex("a0B1c2"), Some("#A0B1C2".to_string()));
    assert_eq!(drawing_style_normalize_xml_color_hex("123"), None);
    assert_eq!(drawing_style_normalize_xml_color_hex("#12345G"), None);
    assert_eq!(drawing_style_normalize_xml_color_hex("##123456"), None);
}

#[test]
fn effect_rgb_hex() {
    let rgb = EffectRgb { r: Some("255".into()), g: Some(" 0 ".into()), b: Some("16".into()) };
    assert_eq!(effect_rgb_color_hex(&rgb), Some("#FF0010".to_string()));
    let missing = EffectRgb { r: None, g: Some("0".into()), b: Some("0".into()) };
    assert_eq!(effect_rgb_color_hex(&missing), None);
    let too_big = EffectRgb { r: Some("256".into()), g: Some("0".into()), b: Some("0".into()) };
    assert_eq!(effect_rgb_color_hex(&too_big), None);
}

#[test]
fn xml_names_and_escapes() {
    assert!(drawing_style_safe_xml_name("a:b-c.d"));
    assert!(drawing_style_safe_xml_name("_x"));
    assert!(!drawing_style_safe_xml_name("1a"));
    assert!(!drawing_style_safe_xml_name(""));
    assert!(!drawing_style_safe_xml_name("a b"));
    assert_eq!(drawing_style_xml_attr_escape("a&<>\"'b"), "a&amp;&lt;&gt;&quot;&apos;b");
    assert_eq!(drawing_style_xml_attr_escape("plain"), "plain");
}

#[test]
fn paragraph_and_table_text() {
    assert_eq!(paragraph_text(&[para("a"), para(""), para("b")]), "a\n\nb");
    assert_eq!(paragraph_text(&[]), "");
    let table = Table {
        row_count: 2,
        col_count: 2,
        cells: vec![
            Cell { row: 0, col: 0, paragraphs: vec![para("x")] },
            Cell { row: 1, col: 1, paragraphs: vec![para("y"), para("z")] },
            Cell { row: 0, col: 0, paragraphs: vec![para("w")] },
            Cell { row: 5, col: 0, paragraphs: vec![para("out")] },
        ],
        ..Default::default()
    };
    let rows = table_text_matrix(&table);
    assert_eq!(rows, vec![vec!["w".to_string(), String::new()], vec![String::new(), "y\nz".to_string()]]);
    let empty = Table { row_count: 0, col_count: 0, ..Default::default() };
    assert_eq!(table_text_matrix(&empty), vec![vec![String::new()]]);
}

#[test]
fn base64_fields_decode_and_encode() {
    assert_eq!(decode_base64_field("", "x"), Ok(None));
    assert_eq!(decode_base64_field("aGVsbG8=", "f"), Ok(Some(b"hello".to_vec())));
    let err = decode_base64_field("!!", "raw").unwrap_err();
    assert!(err.starts_with("invalid raw: "));
    assert_eq!(encode_base64_field(&Some(b"hello".to_vec())), "aGVsbG8=");
    assert_eq!(encode_base64_field(&None), "");
    let bytes = vec![0u8, 255, 17, 42];
    let text = encode_base64_field(&Some(bytes.clone()));
    assert_eq!(text.len(), 8);
    assert_eq!(decode_base64_field(&text, "f"), Ok(Some(bytes)));
}

#[test]
fn font_type_info_must_be_ten_bytes() {
    assert_eq!(decode_font_type_info("", 0, 0), Ok(None));
    assert_eq!(
        decode_font_type_info("AAECAwQFBgcICQ==", 0, 0),
        Ok(Some([0, 1, 2, 3, 4, 5, 6, 7, 8, 9]))
    );
    assert_eq!(
        decode_font_type_info("AQID", 1, 2),
        Err("type_info_base64 for font face 1/2 must decode to 10 bytes, got 3".to_string())
    );
    let err = decode_font_type_info("%%%", 3, 4).unwrap_err();
    assert!(err.starts_with("invalid type_info_base64 for font face 3/4: "));
}

#[test]
fn ole_payload_and_tag_completion() {
    assert_eq!(decode_ole_payload("AQID", ""), Ok((vec![1, 2, 3], None)));
    assert_eq!(decode_ole_payload("AQID", "AA=="), Ok((vec![1, 2, 3], Some(vec![0]))));
    assert_eq!(decode_ole_payload("", ""), Ok((vec![], None)));
    assert!(decode_ole_payload("?", "").unwrap_err().starts_with("invalid raw_hwp_ole_tag_base64: "));
    assert!(decode_ole_payload("AQID", "?").unwrap_err().starts_with("invalid ole_bin_data_base64: "));
    let (tag, x, y) = finish_ole_tag(vec![], Some(9), 10, 20);
    assert_eq!(tag, template_ole_tag_data(10, 20, 9));
    assert_eq!((x, y), (10, 20));
    let (tag, x, y) = finish_ole_tag(vec![0u8; 20], Some(5), 1, 1);
    assert_eq!(&tag[12..16], &[5, 0, 0, 0]);
    assert_eq!((x, y), (1, 1));
    let (tag, _, _) = finish_ole_tag(vec![], None, 3, 4);
    assert_eq!(ole_tag_bin_data_id(&tag), 0);
}
