use cbor_tag::record::{
    field_kind, field_kind_at, FieldKind, DATA_FIELD, RECORD_NAME, TAG_FIELD,
};
use cbor_tag::text::same_text;

#[test]
fn reserved_names_are_the_documented_literals() {
    assert_eq!(TAG_FIELD, "__cbor_tag_ser_tag");
    assert_eq!(DATA_FIELD, "__cbor_tag_ser_data");
    assert_eq!(RECORD_NAME, "EncodeCborTag");
    assert_ne!(TAG_FIELD, DATA_FIELD);
}

#[test]
fn field_kind_knows_the_reserved_names() {
    assert_eq!(field_kind("__cbor_tag_ser_tag"), Some(FieldKind::Tag));
    assert_eq!(field_kind("__cbor_tag_ser_data"), Some(FieldKind::Data));
    assert_eq!(field_kind(TAG_FIELD), Some(FieldKind::Tag));
    assert_eq!(field_kind(DATA_FIELD), Some(FieldKind::Data));
}

#[test]
fn field_kind_matches_exactly() {
    for name in [
        "",
        "tag",
        "data",
        "__cbor_tag_ser_",
        "__cbor_tag_ser_ta",
        "__cbor_tag_ser_tah",
        "__cbor_tag_ser_tags",
        "__cbor_tag_ser_dat",
        "__cbor_tag_ser_datb",
        "__cbor_tag_ser_data ",
        " __cbor_tag_ser_tag",
        "__CBOR_TAG_SER_TAG",
        "__cbor_tag_ser_tág",
        "EncodeCborTag",
    ] {
        assert_eq!(field_kind(name), None);
    }
}

#[test]
fn field_kind_at_puts_the_tag_first() {
    assert_eq!(field_kind_at(0), Some(FieldKind::Tag));
    assert_eq!(field_kind_at(1), Some(FieldKind::Data));
    assert_eq!(field_kind_at(2), None);
    assert_eq!(field_kind_at(usize::MAX), None);
}

#[test]
fn same_text_compares_characters() {
    assert!(same_text("", ""));
    assert!(same_text("abc", "abc"));
    assert!(same_text("日本語", "日本語"));
    assert!(!same_text("abc", "abd"));
    assert!(!same_text("abc", "ab"));
    assert!(!same_text("ab", "abc"));
    assert!(!same_text("", "a"));
    assert!(!same_text("é", "e"));
    assert!(!same_text("e\u{301}", "\u{e9}"));
}
