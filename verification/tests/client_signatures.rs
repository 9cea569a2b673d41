use ffier::client_sig::{
    build_dispatch_extern_sig, build_extern_signature, build_ffi_param_args, build_free_fn_extern_sig, build_trait_method_sig,
    emit_slice_pre_bindings, escape_doc_line, format_param_sig, method_lifetimes, push_extern_param_types, push_extern_params,
    push_return_and_out_param_types, push_return_and_out_params, ClientParam, ClientParamType, MethodReturn, TypeText,
};
use ffier::header::Receiver;

fn regular(name: &str, ty: &str, borrowed: bool) -> ClientParam {
    ClientParam {
        name: name.to_string(),
        param_type: ClientParamType::Regular {
            rust_type: ty.to_string(),
            static_type: ty.replace("'a", "'static"),
            borrowed_handle: borrowed,
        },
    }
}

fn tt(ty: &str) -> TypeText {
    TypeText { rust_type: ty.to_string(), static_type: ty.replace("'a", "'static"), borrowed_handle: None }
}

fn value(ty: &str) -> MethodReturn {
    MethodReturn::Value(tt(ty))
}

fn result(ok: Option<&str>, err: &str, handle_or_null: bool) -> MethodReturn {
    MethodReturn::Result { ok: ok.map(tt), err_type: err.to_string(), handle_or_null }
}

fn slice(name: &str) -> ClientParam {
    ClientParam { name: name.to_string(), param_type: ClientParamType::Slice }
}

fn impl_trait(name: &str, tr: &str, lts: &[&str]) -> ClientParam {
    ClientParam {
        name: name.to_string(),
        param_type: ClientParamType::ImplTrait {
            trait_name: tr.to_string(),
            type_args: lts.iter().map(|s| s.to_string()).collect(),
        },
    }
}

#[test]
fn extern_params_per_kind() {
    let params = vec![regular("x", "i32", false), slice("names"), impl_trait("sink", "PushStr", &[])];
    let mut out = vec!["handle: *mut core::ffi::c_void".to_string()];
    push_extern_params(&params, &mut out);
    assert_eq!(
        out,
        vec![
            "handle: *mut core::ffi::c_void",
            "x: <i32 as FfiType>::CRepr",
            "names: *const ffier::FfierBytes",
            "names_len: usize",
            "sink: *mut core::ffi::c_void",
        ]
    );
    let mut types = Vec::new();
    push_extern_param_types(&params, &mut types);
    assert_eq!(types, vec!["<i32 as FfiType>::CRepr", "*const ffier::FfierBytes", "usize", "*mut core::ffi::c_void"]);
}

#[test]
fn ffi_args_per_kind() {
    let params = vec![regular("x", "i32", false), regular("other", "&Widget", true), slice("names"), impl_trait("sink", "PushStr", &[])];
    assert_eq!(
        build_ffi_param_args(&params),
        vec![
            "<i32 as FfiType>::into_c(x)",
            "FfiHandle::as_handle(other)",
            "__ffi_names.as_ptr()",
            "__ffi_names.len()",
            "sink.__into_raw_handle()",
        ]
    );
}

#[test]
fn extern_returns_and_out_params() {
    let mut p = Vec::new();
    assert_eq!(push_return_and_out_params(&MethodReturn::Void, &mut p, false), "");
    assert!(p.is_empty());
    assert_eq!(push_return_and_out_params(&value("u8"), &mut p, false), " -> <u8 as FfiType>::CRepr");
    assert_eq!(push_return_and_out_params(&value("Builder"), &mut p, true), "");
    assert!(p.is_empty());
    assert_eq!(push_return_and_out_params(&result(Some("Calc"), "CalcError", true), &mut p, false), " -> *mut core::ffi::c_void");
    assert_eq!(p, vec!["err_out: *mut *mut core::ffi::c_void"]);
    let mut q = Vec::new();
    assert_eq!(
        push_return_and_out_params(&result(Some("u32"), "E", false), &mut q, false),
        " -> ffier::FfierResult"
    );
    assert_eq!(q, vec!["result: *mut <u32 as FfiType>::CRepr", "err_out: *mut *mut core::ffi::c_void"]);
    let mut b = Vec::new();
    push_return_and_out_params(&result(Some("u32"), "E", false), &mut b, true);
    assert_eq!(b, vec!["err_out: *mut *mut core::ffi::c_void"]);
    let mut t = Vec::new();
    assert_eq!(
        push_return_and_out_param_types(&result(Some("u32"), "E", false), &mut t),
        " -> ffier::FfierResult"
    );
    assert_eq!(t, vec!["*mut <u32 as FfiType>::CRepr", "*mut *mut core::ffi::c_void"]);
}

#[test]
fn extern_signatures() {
    let params = vec![regular("x", "i32", false)];
    assert_eq!(
        build_extern_signature("ex_calc_add", Receiver::Mut, &params, &value("i32"), false),
        "ex_calc_add(handle: *mut core::ffi::c_void, x: <i32 as FfiType>::CRepr) -> <i32 as FfiType>::CRepr"
    );
    assert_eq!(
        build_extern_signature("ex_calc_new", Receiver::NoSelf, &[], &result(Some("Calc"), "CalcError", true), false),
        "ex_calc_new(err_out: *mut *mut core::ffi::c_void) -> *mut core::ffi::c_void"
    );
    assert_eq!(
        build_dispatch_extern_sig("ex_shape_area", &[], &value("f64")),
        "ex_shape_area(handle: *mut core::ffi::c_void) -> <f64 as FfiType>::CRepr"
    );
    assert_eq!(build_free_fn_extern_sig("ex_version", &[], &MethodReturn::Void), "ex_version()");
}

#[test]
fn slice_bindings() {
    let mut out = String::new();
    emit_slice_pre_bindings(&mut out, &[regular("x", "i32", false), slice("names")], "    ");
    assert_eq!(
        out,
        "    let __ffi_names: Vec<ffier::FfierBytes> = names.iter().map(|s| unsafe { ffier::FfierBytes::from_str(s) }).collect();\n"
    );
}

#[test]
fn wrapper_signatures() {
    assert_eq!(format_param_sig(&regular("x", "&'a str", false)), "x: &'a str");
    assert_eq!(format_param_sig(&slice("names")), "names: &[&str]");
    assert_eq!(format_param_sig(&impl_trait("sink", "PushStr", &[])), "sink: impl PushStr");
    assert_eq!(format_param_sig(&impl_trait("v", "Visitor", &["a", "b"])), "v: impl Visitor<'a, 'b>");
    assert_eq!(
        build_trait_method_sig("area", Receiver::Ref, &[regular("scale", "f64", false)], Some("f64")),
        "fn area(&self, scale: f64) -> f64"
    );
    assert_eq!(build_trait_method_sig("reset", Receiver::NoSelf, &[], None), "fn reset()");
    assert_eq!(method_lifetimes(&vec![]), "");
    assert_eq!(method_lifetimes(&vec!["a".to_string(), "b".to_string()]), "<'a, 'b>");
}

#[test]
fn doc_lines_escaped() {
    assert_eq!(escape_doc_line(r#"say "hi" \ bye"#), r#"say \"hi\" \\ bye"#);
    assert_eq!(escape_doc_line("plain"), "plain");
}
