use ffier::annotation_items::{boxdyn_impl, ffi_handle_impls, TraitFnSig};
use ffier::bridge_batch::{error_payload_fn_text, result_name_fns_text, split_lib_crate, str_free_fn_text};
use ffier::mylib_client::{Calculator, FfiHandle};

#[test]
fn handle_impls_of_exported_type() {
    let s = ffi_handle_impls("Widget", "ExWidget", "crate::__ffier_type_tag_Widget");
    assert!(s.starts_with("impl ffier::FfiHandle for Widget {\n    const C_HANDLE_NAME: &str = \"ExWidget\";\n    const TYPE_TAG: u32 = crate::__ffier_type_tag_Widget;\n"));
    assert!(s.contains("impl ffier::FfiType for Widget {\n    type CRepr = *mut core::ffi::c_void;\n    const C_TYPE_NAME: &str = \"ExWidget\";\n    const IS_HANDLE: bool = true;\n"));
    assert!(s.contains("ffier::ffier_handle_new(<Self as ffier::FfiHandle>::TYPE_TAG, self)"));
    assert!(s.ends_with("        unsafe { ffier::ffier_handle_consume::<Self>(repr) }\n    }\n}\n"));
}

#[test]
fn boxed_trait_object_forwards_receiver_methods() {
    let ms = vec![
        TraitFnSig {
            sig: "fn value(&self, scale: u32) -> u32".to_string(),
            name: "value".to_string(),
            has_receiver: true,
            param_names: vec!["scale".to_string()],
        },
        TraitFnSig { sig: "fn make() -> Self".to_string(), name: "make".to_string(), has_receiver: false, param_names: vec![] },
        TraitFnSig { sig: "fn name(&self) -> &str".to_string(), name: "name".to_string(), has_receiver: true, param_names: vec![] },
    ];
    assert_eq!(
        boxdyn_impl("Fruit", &ms),
        "impl Fruit for ffier::FfierBoxDyn<dyn Fruit> {\n    fn value(&self, scale: u32) -> u32 { self.0.value(scale) }\n    fn name(&self) -> &str { self.0.name() }\n}\n"
    );
}

#[test]
fn error_payload_dispatches_on_tag() {
    let s = error_payload_fn_text("ft", &[(3, "crate::CalcError".to_string())]);
    assert!(s.starts_with("#[unsafe(no_mangle)]\npub unsafe extern \"C\" fn ft_error_payload(handle: *const core::ffi::c_void, out_buf: *mut core::ffi::c_void, buf_size: usize) {\n    if handle.is_null() { return; }\n"));
    assert!(s.contains("        3 => {\n            let err: &crate::CalcError = unsafe { ffier::ffier_handle_borrow(handle) };\n            unsafe { ffier::FfiError::payload(err, out_buf, buf_size) };\n        }\n        _ => {}\n"));
}

#[test]
fn result_names_and_str_free() {
    let s = result_name_fns_text("ft", "mylib", &[(3, "crate::CalcError".to_string()), (9, "crate::IoError".to_string())]);
    assert!(s.contains("if r == 0 { return b\"success\\0\".as_ptr() as *const core::ffi::c_char; }"));
    assert!(s.contains("        9 => {\n            let code = ffier::ffier_result_code(r);\n            <crate::IoError as mylib::FfiError>::static_message(code).as_ptr()\n        }\n"));
    assert!(s.contains("b\"unknown error\\0\""));
    assert!(s.contains("    let ptr = unsafe { ft_result_name_cstr(r) };\n"));
    let f = str_free_fn_text("ft");
    assert!(f.starts_with("#[unsafe(no_mangle)]\npub unsafe extern \"C\" fn ft_str_free(s: ffier::FfierBytes) {\n    if !s.data.is_null() {\n"));
}

fn toks(v: &[&str]) -> Vec<String> {
    v.iter().map(|t| t.to_string()).collect()
}

#[test]
fn lib_crate_prefix_read_or_refused() {
    let (path, rest) = split_lib_crate(&toks(&["@", "lib_crate", "=", "::", "mylib", ";", "{ @error }"])).ok().unwrap();
    assert_eq!(path, toks(&["::", "mylib"]));
    assert_eq!(rest, 6);
    let (path, rest) = split_lib_crate(&toks(&["@", "lib_crate", "=", "mylib"])).ok().unwrap();
    assert_eq!(path, toks(&["mylib"]));
    assert_eq!(rest, 4);
    match split_lib_crate(&toks(&["{ @error }"])) {
        Err(msg) => assert_eq!(msg, "missing @lib_crate prefix in bridge metadata"),
        Ok(_) => panic!("a batch without the prefix is refused"),
    }
    assert!(split_lib_crate(&[]).is_err());
}

#[test]
fn calculator_handle_facts() {
    assert_eq!(Calculator::c_handle_name(), "Calculator");
    assert_eq!(Calculator::type_tag(), 1);
    assert_eq!(Calculator::__from_raw(0x1000).as_handle(), 0x1000);
}
