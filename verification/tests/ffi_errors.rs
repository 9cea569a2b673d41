use ffier::example::CalcError;
use ffier::ffi_error::{parse_ffier_variant_attrs, VariantAttr, VariantKey};
use ffier::ffi_error::{ffier_result, ffier_result_code, ffier_result_type_tag, static_message, ErrorVariant, VariantFields, RESULT_SUCCESS};

#[test]
fn result_packs_tag_and_code() {
    let r = ffier_result(2, 1);
    assert_eq!(r, (2u64 << 32) | 1);
    assert_eq!(ffier_result_type_tag(r), 2);
    assert_eq!(ffier_result_code(r), 1);
    assert_eq!(RESULT_SUCCESS, 0);
    assert_eq!(ffier_result(0, 0), RESULT_SUCCESS);
}

#[test]
fn static_messages_follow_the_variant_table() {
    assert_eq!(CalcError::static_message(1), "division by zero");
    assert_eq!(CalcError::static_message(2), "integer overflow");
    assert_eq!(CalcError::static_message(7), "unknown calc error error");
    assert_eq!(CalcError::DivisionByZero.code(), 1);
    assert_eq!(CalcError::Overflow.code(), 2);
}

#[test]
fn messages_of_variants_with_fields() {
    let vs = vec![
        ErrorVariant { name: "NotFound".to_string(), code: 1, message: None, fields: VariantFields::Unnamed },
        ErrorVariant { name: "Bad".to_string(), code: 2, message: None, fields: VariantFields::Named },
        ErrorVariant { name: "Io".to_string(), code: 3, message: Some("i/o failed".to_string()), fields: VariantFields::Unit },
        ErrorVariant { name: "Twice".to_string(), code: 3, message: None, fields: VariantFields::Unit },
    ];
    assert_eq!(static_message("TestError", &vs, 1), "NotFound(...)");
    assert_eq!(static_message("TestError", &vs, 2), "Bad{..}");
    assert_eq!(static_message("TestError", &vs, 3), "i/o failed");
    assert_eq!(static_message("TestError", &vs, 9), "unknown test error error");
}

#[test]
fn error_constant_table() {
    let codes = CalcError::codes();
    assert_eq!(codes.len(), 2);
    assert_eq!(codes[0].1, 1);
    assert_eq!(codes[1].1, 2);
    assert_eq!(codes[0].0, "DIVISION_BY_ZERO");
    assert_eq!(codes[1].0, "OVERFLOW");
}

#[test]
fn variant_attrs_code_and_message() {
    let a = parse_ffier_variant_attrs(&[
        VariantAttr::Other,
        VariantAttr::Ffier(vec![VariantKey::Code(2), VariantKey::Message("overflowed".to_string())]),
        VariantAttr::Ffier(vec![VariantKey::Other("ignored".to_string())]),
    ])
    .ok()
    .unwrap();
    assert_eq!(a.code, 2);
    assert_eq!(a.message.as_deref(), Some("overflowed"));
    let b = parse_ffier_variant_attrs(&[VariantAttr::Ffier(vec![VariantKey::Code(1), VariantKey::Code(5)])]).ok().unwrap();
    assert_eq!(b.code, 5);
    assert!(b.message.is_none());
}

#[test]
fn variant_attrs_refused() {
    assert_eq!(parse_ffier_variant_attrs(&[VariantAttr::Other]).err().unwrap(), "missing #[ffier(code = N)] attribute on variant");
    assert_eq!(
        parse_ffier_variant_attrs(&[VariantAttr::Ffier(vec![VariantKey::Message("m".to_string())])]).err().unwrap(),
        "missing `code` in #[ffier(code = N)]"
    );
    assert_eq!(
        parse_ffier_variant_attrs(&[VariantAttr::Ffier(vec![VariantKey::Code(1), VariantKey::Other("kind".to_string())])]).err().unwrap(),
        "expected `code` or `message`"
    );
}
