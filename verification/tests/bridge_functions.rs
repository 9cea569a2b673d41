use ffier::bridge_sig::{c_signature_for_method, extract_result_ok_type, is_result_ok_handle, last_type_ident, wrap_return, CRetTokens, CTypeTokens, OkHandling, ReturnPlan};
use ffier::convert::{MetaMethod, MetaMethodContext, MetaParam, MetaParamKind, MetaReceiver, MetaReturn};
use ffier::syntax::{GenericArgument, PathArguments, PathSegment, TypeExpr, TypePath};

fn ident(name: &str) -> TypeExpr {
    TypeExpr::Path(TypePath { segments: vec![PathSegment { ident: name.to_string(), arguments: PathArguments::Bare }] })
}

fn result_of(ok: TypeExpr, err: &str) -> TypeExpr {
    TypeExpr::Path(TypePath {
        segments: vec![PathSegment {
            ident: "Result".to_string(),
            arguments: PathArguments::AngleBracketed(vec![GenericArgument::Type(ok), GenericArgument::Type(ident(err))]),
        }],
    })
}

fn method(receiver: MetaReceiver, params: Vec<MetaParam>, ret: MetaReturn, is_builder: bool) -> MetaMethod {
    MetaMethod {
        name: "m".to_string(),
        doc: vec![],
        receiver,
        method_lifetimes: vec![],
        params,
        ret,
        is_builder,
        context: MetaMethodContext::Exportable { ffi_name: "widget_m".to_string() },
    }
}

fn handles() -> Vec<String> {
    vec!["Widget".to_string(), "Gadget".to_string()]
}

fn names(sig: &ffier::bridge_sig::CExternSignature) -> Vec<&str> {
    sig.params.iter().map(|p| p.name.as_str()).collect()
}

#[test]
fn ok_handle_detected_from_rust_type() {
    assert!(is_result_ok_handle(&result_of(ident("Gadget"), "CalcError"), &handles()));
    assert!(is_result_ok_handle(&result_of(ident("Self"), "CalcError"), &handles()));
    assert!(!is_result_ok_handle(&result_of(ident("u32"), "CalcError"), &handles()));
    assert!(is_result_ok_handle(&ident("Widget"), &handles()));
    assert!(!is_result_ok_handle(&TypeExpr::Tuple(vec![]), &handles()));
}

#[test]
fn result_ok_type_extracted() {
    let r = result_of(ident("Gadget"), "CalcError");
    assert!(matches!(extract_result_ok_type(&r), TypeExpr::Path(p) if p.segments[0].ident == "Gadget"));
    let plain = ident("u32");
    assert!(matches!(extract_result_ok_type(&plain), TypeExpr::Path(p) if p.segments[0].ident == "u32"));
    assert_eq!(last_type_ident(&r).as_deref(), Some("Result"));
    assert_eq!(last_type_ident(&TypeExpr::Slice(Box::new(plain))), None);
}

#[test]
fn signature_with_slice_and_code_result() {
    let m = method(
        MetaReceiver::Mut,
        vec![
            MetaParam { name: "tags".to_string(), kind: MetaParamKind::StrSlice },
            MetaParam { name: "n".to_string(), kind: MetaParamKind::Regular("i32".to_string()) },
        ],
        MetaReturn::Result { ok: Some("u32".to_string()), err_ident: "CalcError".to_string() },
        false,
    );
    let sig = c_signature_for_method(&m, "widget_m", "ex", Some(&result_of(ident("u32"), "CalcError")), &handles());
    assert_eq!(sig.fn_name, "ex_widget_m");
    assert_eq!(names(&sig), vec!["handle", "tags", "tags_len", "n", "result", "err_out"]);
    assert_eq!(sig.params[0].c_type, CTypeTokens::VoidPtr);
    assert_eq!(sig.params[1].c_type, CTypeTokens::BytesPtr);
    assert_eq!(sig.params[2].c_type, CTypeTokens::Usize);
    assert_eq!(sig.params[3].c_type, CTypeTokens::Repr("i32".to_string()));
    assert_eq!(sig.params[4].c_type, CTypeTokens::OutRepr("u32".to_string()));
    assert_eq!(sig.params[5].c_type, CTypeTokens::VoidPtrPtr);
    assert_eq!(sig.ret, CRetTokens::FfierResult);
    let plan = wrap_return(&m, Some(&result_of(ident("u32"), "CalcError")), &handles(), Some(3));
    assert_eq!(plan, ReturnPlan::Code { ok: OkHandling::WriteResult, err_tag: 3, clear_handle_on_error: false, box_error: true });
}

#[test]
fn signature_returning_handle_or_null() {
    let m = method(
        MetaReceiver::NoSelf,
        vec![MetaParam { name: "fruit".to_string(), kind: MetaParamKind::ImplTrait { trait_name: "Fruit".to_string(), trait_lifetime_args: vec![] } }],
        MetaReturn::Result { ok: Some("Gadget".to_string()), err_ident: "CalcError".to_string() },
        false,
    );
    let rust = result_of(ident("Gadget"), "CalcError");
    let sig = c_signature_for_method(&m, "gadget_make", "ex", Some(&rust), &handles());
    assert_eq!(names(&sig), vec!["fruit", "err_out"]);
    assert_eq!(sig.params[0].c_type, CTypeTokens::VoidPtr);
    assert_eq!(sig.ret, CRetTokens::VoidPtr);
    assert_eq!(wrap_return(&m, Some(&rust), &handles(), None), ReturnPlan::HandleOrNull { box_error: false });
}

#[test]
fn builder_taking_self_writes_back() {
    let m = method(
        MetaReceiver::Value,
        vec![],
        MetaReturn::Result { ok: None, err_ident: "CalcError".to_string() },
        true,
    );
    let rust = result_of(ident("Self"), "CalcError");
    let sig = c_signature_for_method(&m, "builder_with", "ex", Some(&rust), &handles());
    assert_eq!(names(&sig), vec!["handle", "err_out"]);
    assert_eq!(sig.ret, CRetTokens::FfierResult);
    assert_eq!(
        wrap_return(&m, Some(&rust), &handles(), Some(2)),
        ReturnPlan::Code { ok: OkHandling::WriteBackHandle, err_tag: 2, clear_handle_on_error: true, box_error: true }
    );
    let v = method(MetaReceiver::Value, vec![], MetaReturn::Void, true);
    assert_eq!(wrap_return(&v, None, &handles(), None), ReturnPlan::Void { write_back: true });
    let plain = method(MetaReceiver::Ref, vec![], MetaReturn::Value("u64".to_string()), false);
    assert_eq!(wrap_return(&plain, Some(&ident("u64")), &handles(), None), ReturnPlan::Value);
    let sig2 = c_signature_for_method(&plain, "widget_count", "ex", Some(&ident("u64")), &handles());
    assert_eq!(sig2.ret, CRetTokens::Repr("u64".to_string()));
    assert_eq!(names(&sig2), vec!["handle"]);
}
