use neo_api_rs::macros::{sanitize_field_string, variant_display, VariantCase};

#[test]
fn test_macro() {}

#[test]
fn sanitize_strips_raw_prefix() {
    assert_eq!(sanitize_field_string("r#match".to_string()), "match");
    assert_eq!(sanitize_field_string("plain".to_string()), "plain");
}

use neo_api_rs::macros::{enum_display_texts, table_fields, FieldDecl, VariantDecl};

#[test]
fn variant_texts_in_casing() {
    assert_eq!(variant_display("TextChangedI", None), "TextChangedI");
    assert_eq!(variant_display("BufEnter", Some(VariantCase::Snake)), "buf_enter");
    assert_eq!(variant_display("BufEnter", Some(VariantCase::Camel)), "bufEnter");
    assert_eq!(variant_display("BufEnter", Some(VariantCase::Upper)), "BUF ENTER");
    assert_eq!(variant_display("buf_enter", Some(VariantCase::Pascal)), "BufEnter");
}

#[test]
fn enum_texts_in_order() {
    let variants = vec![
        VariantDecl { name: "NorthWest".to_string(), has_fields: false },
        VariantDecl { name: "SouthEast".to_string(), has_fields: false },
    ];
    assert_eq!(enum_display_texts(&variants, Some(VariantCase::Snake)), vec!["north_west", "south_east"]);
}

#[test]
fn field_accesses_by_segment() {
    let fields = vec![
        FieldDecl { name: "r#type".to_string(), type_segments: vec!["Option".to_string()] },
        FieldDecl { name: "width".to_string(), type_segments: vec!["u32".to_string()] },
    ];
    let acc = table_fields(&fields);
    assert_eq!(acc.len(), 2);
    assert_eq!((acc[0].field.as_str(), acc[0].key.as_str(), acc[0].optional), ("r#type", "type", true));
    assert_eq!((acc[1].field.as_str(), acc[1].key.as_str(), acc[1].optional), ("width", "width", false));
}
