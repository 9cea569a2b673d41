use ffier::vtable_impl::{default_body, first_foreign_default, wrapper_method, TraitFnShape, WrapperMethod, WrapperParam};

fn param(name: &str, ty: &str, impl_trait: bool) -> WrapperParam {
    WrapperParam { name: name.to_string(), rust_type: ty.to_string(), bridge_type: ty.to_string(), impl_trait }
}

#[test]
fn required_method_calls_vtable_or_panics() {
    let m = WrapperMethod {
        name: "push".to_string(),
        sig: "fn push(&self, s: &str) -> bool".to_string(),
        params: vec![WrapperParam {
            name: "s".to_string(),
            rust_type: "&str".to_string(),
            bridge_type: "&'static str".to_string(),
            impl_trait: false,
        }],
        ret_bridge: Some("bool".to_string()),
        has_default: false,
    };
    let expected = "fn push(&self, s: &str) -> bool {\n\
\x20   let __field: Option<unsafe extern \"C\" fn(*mut core::ffi::c_void, <&'static str as ffier::FfiType>::CRepr) -> <bool as ffier::FfiType>::CRepr> = unsafe {\n\
\x20       self.value.field_or_none(\n\
\x20           core::mem::offset_of!($crate::PushStrVtable, push),\n\
\x20       )\n\
\x20   };\n\
\x20   match __field {\n\
\x20       Some(__f) => { <bool as ffier::FfiType>::from_c(unsafe { __f(self.value.user_data as *mut core::ffi::c_void, <&str as ffier::FfiType>::into_c(s)) }) }\n\
\x20       None => { panic!(\"{}: required vtable method `{}` not provided\", \"VtablePushStr\", \"push\") }\n\
\x20   }\n\
}\n";
    assert_eq!(wrapper_method("VtablePushStr", "$crate::PushStrVtable", "PushStr", &m), expected);
}

#[test]
fn defaulted_method_falls_back_on_helper() {
    let m = WrapperMethod {
        name: "ripen".to_string(),
        sig: "fn ripen(&self, days: u32)".to_string(),
        params: vec![param("days", "u32", false)],
        ret_bridge: None,
        has_default: true,
    };
    let s = wrapper_method("VtableFruit", "$crate::FruitVtable", "Fruit", &m);
    assert!(s.contains("Option<unsafe extern \"C\" fn(*mut core::ffi::c_void, <u32 as ffier::FfiType>::CRepr)> = unsafe {\n"));
    assert!(s.contains("Some(__f) => { unsafe { __f(self.value.user_data as *mut core::ffi::c_void, <u32 as ffier::FfiType>::into_c(days)) } }\n"));
    assert!(s.contains("None => { $crate::__ffier_default_Fruit_ripen(self, days) }\n"));
}

#[test]
fn impl_trait_param_cannot_go_through_c() {
    let m = WrapperMethod {
        name: "compare".to_string(),
        sig: "fn compare(&self, other: impl Fruit) -> i32".to_string(),
        params: vec![param("other", "impl Fruit", true)],
        ret_bridge: Some("i32".to_string()),
        has_default: false,
    };
    let s = wrapper_method("VtableFruit", "$crate::FruitVtable", "Fruit", &m);
    assert!(s.contains("fn(*mut core::ffi::c_void, *mut core::ffi::c_void) -> <i32 as ffier::FfiType>::CRepr>"));
    assert!(s.contains(
        "Some(__f) => { let _ = __f;\npanic!(\"{}: vtable dispatch for method `{}` with impl Trait params is not supported\", \"VtableFruit\", \"compare\") }\n"
    ));
}

fn shape(name: &str, has_default: bool, raw_handle: bool) -> TraitFnShape {
    TraitFnShape { name: name.to_string(), has_default, raw_handle }
}

#[test]
fn foreign_trait_defaults_refused() {
    assert!(first_foreign_default(&[shape("a", false, false), shape("raw", true, true)]).is_none());
    match first_foreign_default(&[shape("a", false, false), shape("raw", true, true), shape("b", true, false), shape("c", true, false)]) {
        Some((i, msg)) => {
            assert_eq!(i, 2);
            assert_eq!(msg, "foreign trait methods must not have default bodies (the defaults live in the foreign crate)");
        }
        None => panic!("a default body in a foreign trait should be refused"),
    }
}

#[test]
fn default_body_calls_helper() {
    assert_eq!(default_body("Fruit", "ripen", &["days".to_string(), "warm".to_string()]), "{ __ffier_default_Fruit_ripen(self, days, warm) }");
    assert_eq!(default_body("Fruit", "name", &[]), "{ __ffier_default_Fruit_name(self) }");
}
