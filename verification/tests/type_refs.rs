use ffier::bridge::{CTypeResolver, RefKind};

#[test]
fn resolver_prefixes() {
    let r = CTypeResolver::new("ft");
    assert_eq!(r.type_pfx, "Ft");
    assert_eq!(r.upper_pfx, "FT_");
    assert_eq!(r.fn_pfx, "ft_");
    assert_eq!(r.handle_c_name("Widget"), "FtWidget");
    assert_eq!(r.ffi_fn_name("widget_new"), "ft_widget_new");
    let k = CTypeResolver::new("krun_init");
    assert_eq!(k.type_pfx, "KrunInit");
    assert_eq!(k.upper_pfx, "KRUN_INIT_");
}

#[test]
fn error_constant_names() {
    let r = CTypeResolver::new("ft");
    assert_eq!(r.error_const_name("TestError", "NotFound"), "FT_ERROR_TEST_NOT_FOUND");
    assert_eq!(r.error_const_name("Failure", "Io"), "FT_ERROR_FAILURE_IO");
}

#[test]
fn plain_and_reference_types() {
    let r = CTypeResolver::new("ft");
    let t = r.to_type_ref("i32");
    assert_eq!(t.name, "i32");
    assert_eq!(t.ref_kind, RefKind::ByValue);
    assert_eq!(t.ref_lifetime, None);
    assert!(t.type_args.is_empty());
    assert!(!t.optional && !t.owned);

    let t = r.to_type_ref("& 'a Widget");
    assert_eq!(t.name, "Widget");
    assert_eq!(t.ref_kind, RefKind::Shared);
    assert_eq!(t.ref_lifetime, Some("a".to_string()));

    let t = r.to_type_ref("& mut 'b Widget");
    assert_eq!(t.ref_kind, RefKind::Mut);
    assert_eq!(t.ref_lifetime, Some("b".to_string()));

    let t = r.to_type_ref("& 'b mut Widget");
    assert_eq!(t.ref_kind, RefKind::Mut);
    assert_eq!(t.ref_lifetime, Some("b".to_string()));
    assert_eq!(t.name, "Widget");

    let t = r.to_type_ref("&mut Gadget");
    assert_eq!(t.ref_kind, RefKind::Mut);
    assert_eq!(t.ref_lifetime, None);
    assert_eq!(t.name, "Gadget");
}

#[test]
fn generic_lifetimes_options_and_boxes() {
    let r = CTypeResolver::new("ft");
    let t = r.to_type_ref("View < 'a >");
    assert_eq!(t.name, "View");
    assert_eq!(t.type_args, vec!["a".to_string()]);

    let t = r.to_type_ref("Option < & 'static str >");
    assert!(t.optional);
    assert_eq!(t.name, "str");
    assert_eq!(t.ref_kind, RefKind::Shared);
    assert_eq!(t.ref_lifetime, Some("static".to_string()));

    let t = r.to_type_ref("Option < View < 'a , 'b > >");
    assert!(t.optional);
    assert_eq!(t.name, "View");
    assert_eq!(t.type_args, vec!["a".to_string(), "b".to_string()]);

    let t = r.to_type_ref("Box < str >");
    assert!(t.owned);
    assert_eq!(t.name, "str");
    assert_eq!(t.ref_kind, RefKind::ByValue);

    let t = r.to_type_ref("Box < [u8] >");
    assert!(!t.owned);
    assert_eq!(t.name, "Box");
    assert_eq!(t.type_args, vec!["[u8]".to_string()]);
}
