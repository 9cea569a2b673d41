use ffier::bridge_gen::{exportable_bridge_text, free_fn_bridge_text, BridgeMethod, BridgeParam, BridgeReturn, ExportableMeta};
use ffier::convert::MetaReceiver;
use ffier::dispatch::{build_trait_map, DispatchError, DispatchMode, ImplTraitArg, ImplementableEntry, TraitImplEntry, TraitMap};

fn imp(trait_name: &str, struct_name: &str) -> TraitImplEntry {
    TraitImplEntry {
        trait_name: trait_name.to_string(),
        struct_name: struct_name.to_string(),
        struct_path: format!("crate::{struct_name}"),
    }
}

fn implementable(trait_name: &str) -> ImplementableEntry {
    ImplementableEntry {
        trait_name: trait_name.to_string(),
        trait_path: format!("crate::traits::{trait_name}"),
        wrapper_path: format!("crate::Vtable{trait_name}"),
    }
}

fn regular(name: &str, ty: &str) -> BridgeParam {
    BridgeParam::Regular { name: name.to_string(), bridge_type: ty.to_string() }
}

fn impl_param(name: &str, trait_name: &str, dispatch: DispatchMode) -> BridgeParam {
    BridgeParam::ImplTrait(ImplTraitArg { name: name.to_string(), trait_name: trait_name.to_string(), dispatch })
}

fn method(name: &str, receiver: MetaReceiver, is_builder: bool, params: Vec<BridgeParam>, ret: BridgeReturn) -> BridgeMethod {
    BridgeMethod {
        name: name.to_string(),
        ffi_name: format!("widget_{name}"),
        receiver,
        is_builder,
        params,
        ret,
    }
}

fn widget(methods: Vec<BridgeMethod>) -> ExportableMeta {
    ExportableMeta {
        struct_name: "Widget".to_string(),
        struct_path: "crate::Widget".to_string(),
        prefix: "ex".to_string(),
        methods,
    }
}

fn fruit_map() -> (TraitMap, Vec<ImplementableEntry>) {
    let imps = vec![implementable("Fruit")];
    let m = build_trait_map(&[imp("Fruit", "Apple"), imp("Fruit", "Pear"), imp("Shape", "Circle")], &imps);
    (m, imps)
}

const DESTROY: &str = "#[unsafe(no_mangle)]\n\
pub unsafe extern \"C\" fn ex_widget_destroy(handle: *mut core::ffi::c_void) {\n\
\x20   if !handle.is_null() {\n\
\x20       let __actual = unsafe { ffier::handle_type_tag(handle) };\n\
\x20       let __expected = <crate::Widget as ffier::FfiHandle>::TYPE_TAG;\n\
\x20       if __actual != __expected {\n\
\x20           __ffier_dispatch_panic(\"ex_widget_destroy\", <crate::Widget as ffier::FfiHandle>::C_HANDLE_NAME, \"\", __actual);\n\
\x20       }\n\
\x20       drop(unsafe { Box::from_raw(handle as *mut ffier::FfierHandleBox<crate::Widget>) });\n\
\x20   }\n\
}\n";

#[test]
fn type_without_methods_gets_destroy_only() {
    let (m, imps) = fruit_map();
    let s = exportable_bridge_text(&widget(vec![]), &m, &imps, 64).ok().unwrap();
    assert_eq!(s, DESTROY);
}

#[test]
fn ref_method_checks_handle_and_converts_params() {
    let (m, imps) = fruit_map();
    let e = widget(vec![method(
        "add",
        MetaReceiver::Ref,
        false,
        vec![regular("a", "i32"), regular("b", "i32")],
        BridgeReturn::Value { bridge_type: "i32".to_string() },
    )]);
    let s = exportable_bridge_text(&e, &m, &imps, 64).ok().unwrap();
    let expected = "#[unsafe(no_mangle)]\n\
pub unsafe extern \"C\" fn ex_widget_add(handle: *mut core::ffi::c_void, a: <i32 as ffier::FfiType>::CRepr, b: <i32 as ffier::FfiType>::CRepr) -> <i32 as ffier::FfiType>::CRepr {\n\
\x20   let __actual = unsafe { ffier::handle_type_tag(handle) };\n\
\x20   let __expected = <crate::Widget as ffier::FfiHandle>::TYPE_TAG;\n\
\x20   if __actual != __expected {\n\
\x20       __ffier_dispatch_panic(\"ex_widget_add\", <crate::Widget as ffier::FfiHandle>::C_HANDLE_NAME, \"\", __actual);\n\
\x20   }\n\
\x20   let obj = unsafe { &(*(handle as *const ffier::FfierHandleBox<crate::Widget>)).value };\n\
\x20   let result = obj.add(<i32 as ffier::FfiType>::from_c(a), <i32 as ffier::FfiType>::from_c(b));\n\
\x20   <i32 as ffier::FfiType>::into_c(result)\n\
}\n\n";
    assert_eq!(s, format!("{expected}{DESTROY}"));
}

#[test]
fn static_method_calls_through_type_path() {
    let (m, imps) = fruit_map();
    let e = widget(vec![method(
        "new",
        MetaReceiver::NoSelf,
        false,
        vec![],
        BridgeReturn::Value { bridge_type: "crate::Widget".to_string() },
    )]);
    let s = exportable_bridge_text(&e, &m, &imps, 64).ok().unwrap();
    assert!(s.starts_with(
        "#[unsafe(no_mangle)]\npub unsafe extern \"C\" fn ex_widget_new() -> <crate::Widget as ffier::FfiType>::CRepr {\n"
    ));
    assert!(s.contains("    let result = <crate::Widget>::new();\n"));
    let method_part = &s[..s.len() - DESTROY.len()];
    assert!(!method_part.contains("handle_type_tag"));
    assert!(s.ends_with(DESTROY));
}

#[test]
fn str_slice_param_is_pointer_and_length() {
    let (m, imps) = fruit_map();
    let e = widget(vec![method(
        "set_tags",
        MetaReceiver::Mut,
        false,
        vec![BridgeParam::StrSlice { name: "tags".to_string() }],
        BridgeReturn::Void,
    )]);
    let s = exportable_bridge_text(&e, &m, &imps, 64).ok().unwrap();
    assert!(s.contains("fn ex_widget_set_tags(handle: *mut core::ffi::c_void, tags: *const ffier::FfierBytes, tags_len: usize) {\n"));
    assert!(s.contains("let obj = unsafe { &mut (*(handle as *mut ffier::FfierHandleBox<crate::Widget>)).value };\n"));
    assert!(s.contains("    let __tags_vec = { let __slice = unsafe { core::slice::from_raw_parts(tags, tags_len) };"));
    assert!(s.contains("    obj.set_tags(&__tags_vec);\n"));
}

#[test]
fn builder_by_value_writes_handle_back() {
    let (m, imps) = fruit_map();
    let e = widget(vec![method("with_size", MetaReceiver::Value, true, vec![regular("n", "u32")], BridgeReturn::Void)]);
    let s = exportable_bridge_text(&e, &m, &imps, 64).ok().unwrap();
    assert!(s.contains(
        "fn ex_widget_with_size(handle: *mut *mut core::ffi::c_void, n: <u32 as ffier::FfiType>::CRepr) {\n    let handle_ptr = handle;\n    let handle = unsafe { *handle };\n"
    ));
    assert!(s.contains("let obj = unsafe { (*Box::from_raw(handle as *mut ffier::FfierHandleBox<crate::Widget>)).value };\n"));
    assert!(s.contains("    let result = obj.with_size(<u32 as ffier::FfiType>::from_c(n));\n"));
    assert!(s.contains("    unsafe { *handle_ptr = <crate::Widget as ffier::FfiType>::into_c(result) };\n"));
}

#[test]
fn result_method_writes_ok_value_and_maps_error() {
    let (m, imps) = fruit_map();
    let e = widget(vec![method(
        "count",
        MetaReceiver::Ref,
        false,
        vec![],
        BridgeReturn::Result { ok: Some("u32".to_string()) },
    )]);
    let s = exportable_bridge_text(&e, &m, &imps, 64).ok().unwrap();
    assert!(s.contains(
        "fn ex_widget_count(handle: *mut core::ffi::c_void, result: *mut <u32 as ffier::FfiType>::CRepr) -> ffier::FfierError {\n"
    ));
    assert!(s.contains(
        "    match obj.count() {\n        Ok(ok_val) => {\n            unsafe { result.write(<u32 as ffier::FfiType>::into_c(ok_val)) };\n            ffier::FfierError::ok()\n        }\n        Err(e) => ffier::FfierError::from_err(e),\n    }\n"
    ));
}

#[test]
fn unit_result_maps_ok_to_success() {
    let (m, imps) = fruit_map();
    let e = widget(vec![method("reset", MetaReceiver::Mut, false, vec![], BridgeReturn::Result { ok: None })]);
    let s = exportable_bridge_text(&e, &m, &imps, 64).ok().unwrap();
    assert!(s.contains("fn ex_widget_reset(handle: *mut core::ffi::c_void) -> ffier::FfierError {\n"));
    assert!(s.contains("        Ok(_) => ffier::FfierError::ok(),\n"));
}

#[test]
fn impl_trait_param_matched_by_type() {
    let (m, imps) = fruit_map();
    let e = widget(vec![method(
        "eat",
        MetaReceiver::Ref,
        false,
        vec![impl_param("f", "Fruit", DispatchMode::Auto)],
        BridgeReturn::Void,
    )]);
    let s = exportable_bridge_text(&e, &m, &imps, 64).ok().unwrap();
    assert!(s.contains("fn ex_widget_eat(handle: *mut core::ffi::c_void, f: *mut core::ffi::c_void) {\n"));
    assert!(s.contains("let __type_tag = unsafe { ffier::handle_type_tag(f) };\n"));
    assert!(s.contains(
        "if __type_tag == <crate::Apple as ffier::FfiHandle>::TYPE_TAG {\nlet f = unsafe { (*Box::from_raw(f as *mut ffier::FfierHandleBox<crate::Apple>)).value };\nobj.eat(f)\n} else "
    ));
    assert!(s.contains("if __type_tag == <crate::Pear as ffier::FfiHandle>::TYPE_TAG {\n"));
    assert!(s.contains("if __type_tag == <crate::VtableFruit as ffier::FfiHandle>::TYPE_TAG {\n"));
    assert!(s.contains("__ffier_dispatch_panic(\"ex_widget_eat\", \"impl Fruit\", __FFIER_ACCEPTED_Fruit, __type_tag);\n"));
    assert!(!s.contains("FfierBoxDyn"));
}

#[test]
fn impl_trait_param_through_vtable() {
    let (m, imps) = fruit_map();
    let e = widget(vec![method(
        "eat",
        MetaReceiver::Ref,
        false,
        vec![impl_param("f", "Fruit", DispatchMode::Vtable)],
        BridgeReturn::Void,
    )]);
    let s = exportable_bridge_text(&e, &m, &imps, 64).ok().unwrap();
    assert!(s.contains("    let f: ffier::FfierBoxDyn<dyn crate::traits::Fruit> = {\n"));
    assert!(s.contains("ffier::FfierBoxDyn(Box::new(__val) as Box<dyn crate::traits::Fruit>)\n"));
    assert!(s.contains("__ffier_dispatch_panic(\"ex_widget_eat\", \"impl Fruit\", __FFIER_ACCEPTED_Fruit, __type_tag);\n"));
    assert!(s.contains("    obj.eat(f);\n"));
}

#[test]
fn param_of_unknown_trait_passed_on() {
    let (m, imps) = fruit_map();
    let e = widget(vec![method(
        "paint",
        MetaReceiver::Ref,
        false,
        vec![impl_param("c", "Color", DispatchMode::Auto)],
        BridgeReturn::Void,
    )]);
    let s = exportable_bridge_text(&e, &m, &imps, 64).ok().unwrap();
    assert!(s.contains("    obj.paint(c);\n"));
    assert!(!s.contains("handle_type_tag(c)"));
}

#[test]
fn too_many_branches_refused_at_method() {
    let (m, imps) = fruit_map();
    let e = widget(vec![
        method("add", MetaReceiver::Ref, false, vec![regular("a", "i32")], BridgeReturn::Void),
        method(
            "mix",
            MetaReceiver::Ref,
            false,
            vec![impl_param("f", "Fruit", DispatchMode::Auto), impl_param("g", "Fruit", DispatchMode::Auto)],
            BridgeReturn::Void,
        ),
    ]);
    match exportable_bridge_text(&e, &m, &imps, 4) {
        Err((i, err)) => {
            assert_eq!(i, 1);
            assert!(matches!(err, DispatchError::TooManyBranches { total: 9 }));
        }
        Ok(_) => panic!("dispatch should be refused"),
    }
}

#[test]
fn vtable_of_plain_trait_refused() {
    let (m, imps) = fruit_map();
    let e = widget(vec![method(
        "draw",
        MetaReceiver::Ref,
        false,
        vec![impl_param("s", "Shape", DispatchMode::Vtable)],
        BridgeReturn::Void,
    )]);
    match exportable_bridge_text(&e, &m, &imps, 64) {
        Err((i, DispatchError::NotImplementable { param, trait_name })) => {
            assert_eq!(i, 0);
            assert_eq!(param, "s");
            assert_eq!(trait_name, "Shape");
        }
        _ => panic!("vtable dispatch of a plain trait should be refused"),
    }
}

#[test]
fn free_function_calls_its_path() {
    let (m, imps) = fruit_map();
    let f = BridgeMethod {
        name: "add".to_string(),
        ffi_name: "add".to_string(),
        receiver: MetaReceiver::NoSelf,
        is_builder: false,
        params: vec![regular("a", "i32"), regular("b", "i32")],
        ret: BridgeReturn::Value { bridge_type: "i32".to_string() },
    };
    let s = free_fn_bridge_text("ex", "crate::math::add", &f, &m, &imps, 64).ok().unwrap();
    assert_eq!(
        s,
        "#[unsafe(no_mangle)]\n\
pub unsafe extern \"C\" fn ex_add(a: <i32 as ffier::FfiType>::CRepr, b: <i32 as ffier::FfiType>::CRepr) -> <i32 as ffier::FfiType>::CRepr {\n\
\x20   let result = crate::math::add(<i32 as ffier::FfiType>::from_c(a), <i32 as ffier::FfiType>::from_c(b));\n\
\x20   <i32 as ffier::FfiType>::into_c(result)\n\
}\n\n"
    );
}

#[test]
fn free_function_dispatch_refused() {
    let (m, imps) = fruit_map();
    let f = BridgeMethod {
        name: "draw".to_string(),
        ffi_name: "draw".to_string(),
        receiver: MetaReceiver::NoSelf,
        is_builder: false,
        params: vec![impl_param("s", "Shape", DispatchMode::Vtable)],
        ret: BridgeReturn::Void,
    };
    assert!(matches!(
        free_fn_bridge_text("ex", "crate::draw", &f, &m, &imps, 64),
        Err(DispatchError::NotImplementable { .. })
    ));
}
