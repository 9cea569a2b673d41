use ffier::bridge_impls::{
    error_bridge_text, path_parent_of, self_dispatch_bridge_text, trait_impl_bridge_text, vtable_constructor, SelfDispatchMeta,
    SelfDispatchMethod, TraitImplMeta, TraitImplMethod, TypedParam,
};
use ffier::dispatch::TraitVariant;

fn shape_for_circle(methods: Vec<TraitImplMethod>) -> TraitImplMeta {
    TraitImplMeta {
        struct_name: "BigCircle".to_string(),
        struct_path: "crate::BigCircle".to_string(),
        trait_path: "crate::Shape".to_string(),
        prefix: "ex".to_string(),
        methods,
    }
}

#[test]
fn trait_impl_method_called_through_trait() {
    let t = shape_for_circle(vec![TraitImplMethod {
        name: "scale".to_string(),
        params: vec![TypedParam { name: "by".to_string(), bridge_type: "f64".to_string() }],
        ret: Some("f64".to_string()),
    }]);
    let expected = "#[unsafe(no_mangle)]\n\
pub unsafe extern \"C\" fn ex_big_circle_scale(handle: *mut core::ffi::c_void, by: <f64 as ffier::FfiType>::CRepr) -> <f64 as ffier::FfiType>::CRepr {\n\
\x20   let obj = unsafe { &(*(handle as *const ffier::FfierHandleBox<crate::BigCircle>)).value };\n\
\x20   let call_result = <crate::BigCircle as crate::Shape>::scale(obj, <f64 as ffier::FfiType>::from_c(by));\n\
\x20   <f64 as ffier::FfiType>::into_c(call_result)\n\
}\n\n";
    assert_eq!(trait_impl_bridge_text(&t), expected);
}

#[test]
fn trait_impl_methods_in_order_void_and_no_params() {
    let t = shape_for_circle(vec![
        TraitImplMethod { name: "reset".to_string(), params: vec![], ret: None },
        TraitImplMethod { name: "area".to_string(), params: vec![], ret: Some("u32".to_string()) },
    ]);
    let s = trait_impl_bridge_text(&t);
    assert!(s.starts_with("#[unsafe(no_mangle)]\npub unsafe extern \"C\" fn ex_big_circle_reset(handle: *mut core::ffi::c_void) {\n"));
    assert!(s.contains("    let call_result = <crate::BigCircle as crate::Shape>::reset(obj);\n    call_result\n}\n\n"));
    let reset_at = s.find("ex_big_circle_reset").unwrap();
    let area_at = s.find("fn ex_big_circle_area(handle: *mut core::ffi::c_void) -> <u32 as ffier::FfiType>::CRepr {\n").unwrap();
    assert!(reset_at < area_at);
    assert_eq!(trait_impl_bridge_text(&shape_for_circle(vec![])), "");
}

#[test]
fn vtable_constructor_checks_size() {
    let s = vtable_constructor("ex_shape_from_vtable", "crate::ExShapeVtable", "crate::VtableShape");
    assert!(s.starts_with(
        "#[unsafe(no_mangle)]\npub extern \"C\" fn ex_shape_from_vtable(user_data: *mut core::ffi::c_void, vtable: *const crate::ExShapeVtable, vtable_size: usize) -> *mut core::ffi::c_void {\n"
    ));
    assert!(s.contains("    let expected = core::mem::size_of::<crate::ExShapeVtable>();\n    if vtable_size > expected {\n"));
    assert!(s.contains("\"ex_shape_from_vtable\", vtable_size, expected);\n"));
    assert!(s.contains("    let wrapper = crate::VtableShape {\n"));
    assert!(s.ends_with("    <crate::VtableShape as ffier::FfiType>::into_c(wrapper)\n}\n"));
}

#[test]
fn error_bridge_message_and_free() {
    let s = error_bridge_text("ex", "CalcError", "crate::CalcError");
    let expected = "#[unsafe(no_mangle)]\n\
pub unsafe extern \"C\" fn ex_calc_error_message(err: *const ffier::FfierError) -> *const core::ffi::c_char {\n\
\x20   let err = unsafe { &*err };\n\
\x20   let ptr = err.msg_ptr();\n\
\x20   if !ptr.is_null() { return ptr; }\n\
\x20   <crate::CalcError as ffier::FfiError>::static_message(err.code).as_ptr()\n\
}\n\n\
#[unsafe(no_mangle)]\n\
pub unsafe extern \"C\" fn ex_calc_error_free(err: *mut ffier::FfierError) {\n\
\x20   unsafe { (*err).free() };\n\
}\n";
    assert_eq!(s, expected);
}

fn variant(name: &str, path: &str) -> TraitVariant {
    TraitVariant { name: name.to_string(), bridge_type: path.to_string() }
}

fn fruit_dispatch(methods: Vec<SelfDispatchMethod>) -> SelfDispatchMeta {
    SelfDispatchMeta {
        trait_name: "Fruit".to_string(),
        trait_path: "crate::fruits::Fruit".to_string(),
        wrapper_path: "crate::VtableFruit".to_string(),
        prefix: "ft".to_string(),
        variants: vec![variant("Apple", "crate::Apple"), variant("VtableFruit", "crate::VtableFruit")],
        methods,
    }
}

#[test]
fn module_part_of_paths() {
    assert_eq!(path_parent_of("crate::fruits::Fruit"), "crate::fruits::");
    assert_eq!(path_parent_of("Fruit"), "");
    assert_eq!(path_parent_of("::Fruit"), "::");
    assert_eq!(path_parent_of(""), "");
}

#[test]
fn self_dispatch_calls_the_type_found() {
    let d = fruit_dispatch(vec![SelfDispatchMethod {
        name: "value".to_string(),
        params: vec![],
        ret: Some("i32".to_string()),
        has_default: false,
    }]);
    let s = self_dispatch_bridge_text(&d);
    let expected_value = "#[unsafe(no_mangle)]\n\
pub unsafe extern \"C\" fn ft_fruit_value(handle: *mut core::ffi::c_void) -> <i32 as ffier::FfiType>::CRepr {\n\
\x20   let __type_tag = unsafe { ffier::handle_type_tag(handle) };\n\
if __type_tag == <crate::Apple as ffier::FfiHandle>::TYPE_TAG {\n\
let obj = unsafe { &(*(handle as *const ffier::FfierHandleBox<crate::Apple>)).value };\n\
let call_result = <crate::Apple as crate::fruits::Fruit>::value(obj);\n\
return <i32 as ffier::FfiType>::into_c(call_result);\n\
} else if __type_tag == <crate::VtableFruit as ffier::FfiHandle>::TYPE_TAG {\n\
let obj = unsafe { &(*(handle as *const ffier::FfierHandleBox<crate::VtableFruit>)).value };\n\
let call_result = <crate::VtableFruit as crate::fruits::Fruit>::value(obj);\n\
return <i32 as ffier::FfiType>::into_c(call_result);\n\
} else {\n\
__ffier_dispatch_panic(\"ft_fruit_value\", \"Fruit implementor\", __FFIER_ACCEPTED_Fruit, __type_tag);\n\
}\n\
}\n\n";
    assert!(s.starts_with(expected_value));
    let destroy = &s[expected_value.len()..];
    assert_eq!(
        destroy,
        "#[unsafe(no_mangle)]\n\
pub unsafe extern \"C\" fn ft_fruit_destroy(handle: *mut core::ffi::c_void) {\n\
\x20   if !handle.is_null() {\n\
\x20       let __type_tag = unsafe { ffier::handle_type_tag(handle) };\n\
if __type_tag == <crate::Apple as ffier::FfiHandle>::TYPE_TAG {\n\
drop(unsafe { Box::from_raw(handle as *mut ffier::FfierHandleBox<crate::Apple>) });\n\
} else if __type_tag == <crate::VtableFruit as ffier::FfiHandle>::TYPE_TAG {\n\
drop(unsafe { Box::from_raw(handle as *mut ffier::FfierHandleBox<crate::VtableFruit>) });\n\
} else {\n\
__ffier_dispatch_panic(\"ft_fruit_destroy\", \"Fruit implementor\", __FFIER_ACCEPTED_Fruit, __type_tag);\n\
}\n\
\x20   }\n\
}\n"
    );
}

#[test]
fn defaulted_method_guards_the_vtable_branch() {
    let d = fruit_dispatch(vec![
        SelfDispatchMethod { name: "value".to_string(), params: vec![], ret: Some("i32".to_string()), has_default: false },
        SelfDispatchMethod {
            name: "ripen".to_string(),
            params: vec![TypedParam { name: "days".to_string(), bridge_type: "u32".to_string() }],
            ret: None,
            has_default: true,
        },
    ]);
    let s = self_dispatch_bridge_text(&d);
    let at = s.find("fn ft_fruit_ripen(handle: *mut core::ffi::c_void, days: <u32 as ffier::FfiType>::CRepr) {\n").unwrap();
    let ripen = &s[at..];
    let guard = "if __type_tag == <crate::VtableFruit as ffier::FfiHandle>::TYPE_TAG {\n\
let __metadata = unsafe { ffier::handle_metadata(handle) };\n\
if __metadata & 1 != 0 && (__metadata >> 1) & 0x7FFF == 1 {\n\
let obj = unsafe { &(*(handle as *const ffier::FfierHandleBox<crate::VtableFruit>)).value };\n\
crate::fruits::__ffier_default_Fruit_ripen(obj, <u32 as ffier::FfiType>::from_c(days));\n\
return;\n\
}\n\
let obj = unsafe { &(*(handle as *const ffier::FfierHandleBox<crate::VtableFruit>)).value };\n\
<crate::VtableFruit as crate::fruits::Fruit>::ripen(obj, <u32 as ffier::FfiType>::from_c(days));\n\
} else ";
    assert!(ripen.contains(guard));
    let apple_branch = "if __type_tag == <crate::Apple as ffier::FfiHandle>::TYPE_TAG {\n\
let obj = unsafe { &(*(handle as *const ffier::FfierHandleBox<crate::Apple>)).value };\n\
<crate::Apple as crate::fruits::Fruit>::ripen(obj, <u32 as ffier::FfiType>::from_c(days));\n\
} else ";
    assert!(ripen.contains(apple_branch));
    assert!(!s[..at].contains("handle_metadata"));
}
