use ffier::client_implementable::{
    implementable_client_text, last_segment_of, trait_impl_client_text, TraitImplClientMeta, ImplementableClientMeta, VtableFieldMeta, VtableMethodMeta, VtableParam, VtableParamType,
    VtableRetType,
};

#[test]
fn last_segment_of_token_paths() {
    assert_eq!(last_segment_of("$crate :: VtableFruit"), "VtableFruit");
    assert_eq!(last_segment_of("ExFruitVtable"), "ExFruitVtable");
    assert_eq!(last_segment_of("a::b::"), "");
    assert_eq!(last_segment_of(""), "");
}

fn fruit(methods: Vec<VtableMethodMeta>, fields: Vec<VtableFieldMeta>) -> ImplementableClientMeta {
    ImplementableClientMeta {
        trait_name: "Fruit".to_string(),
        vtable_struct_path: "$crate :: ExFruitVtable".to_string(),
        wrapper_path: "$crate :: VtableFruit".to_string(),
        constructor_name: "ex_fruit_from_vtable".to_string(),
        vtable_fields: fields,
        vtable_methods: methods,
    }
}

#[test]
fn trait_with_no_methods() {
    let s = implementable_client_text(&fruit(vec![], vec![]));
    let expected = "pub trait Fruit {\n\n\
\x20   #[doc(hidden)]\n\
\x20   fn __into_raw_handle(self) -> *mut core::ffi::c_void where Self: Sized {\n\
\x20       let __vtable: &'static ExFruitVtable = &ExFruitVtable {\n\
\x20           drop: Some({\n\
\x20               unsafe extern \"C\" fn __trampoline<__T>(__ud: *mut core::ffi::c_void) {\n\
\x20                   unsafe { drop(Box::from_raw(__ud as *mut __T)) };\n\
\x20               }\n\
\x20               __trampoline::<Self>\n\
\x20           }),\n\
\x20       };\n\
\x20       let __ud = Box::into_raw(Box::new(self)) as *mut core::ffi::c_void;\n\
\x20       VtableFruit::new(__ud, __vtable).__into_raw()\n\
\x20   }\n\
}\n\n\
#[repr(C)]\n\
pub struct ExFruitVtable {\n\
\x20   pub drop: Option<unsafe extern \"C\" fn(*mut core::ffi::c_void)>,\n\
}\n\n\
unsafe extern \"C\" {\n\
\x20   pub fn ex_fruit_from_vtable(user_data: *mut core::ffi::c_void, vtable: *const ExFruitVtable) -> *mut core::ffi::c_void;\n\
}\n\n\
pub struct VtableFruit(*mut core::ffi::c_void);\n\n\
impl VtableFruit {\n\
\x20   pub fn new(user_data: *mut core::ffi::c_void, vtable: &ExFruitVtable) -> Self {\n\
\x20       Self(unsafe { ex_fruit_from_vtable(user_data, vtable) })\n\
\x20   }\n\n\
\x20   #[doc(hidden)]\n\
\x20   pub fn __into_raw(self) -> *mut core::ffi::c_void {\n\
\x20       let this = std::mem::ManuallyDrop::new(self);\n\
\x20       this.0\n\
\x20   }\n\
}\n\n\
impl Drop for VtableFruit {\n\
\x20   fn drop(&mut self) {}\n\
}\n";
    assert_eq!(s, expected);
}

#[test]
fn methods_get_declarations_trampolines_and_slots() {
    let s = implementable_client_text(&fruit(
        vec![
            VtableMethodMeta {
                name: "name".to_string(),
                params: vec![VtableParam { name: "lang".to_string(), ty: VtableParamType::Str }],
                ret: VtableRetType::Str,
            },
            VtableMethodMeta {
                name: "weigh".to_string(),
                params: vec![
                    VtableParam { name: "scale".to_string(), ty: VtableParamType::Primitive("u32".to_string()) },
                    VtableParam { name: "other".to_string(), ty: VtableParamType::Handle("Apple".to_string()) },
                ],
                ret: VtableRetType::Primitive("u64".to_string()),
            },
        ],
        vec![VtableFieldMeta { name: "version".to_string(), field_type: "u32".to_string() }],
    ));
    assert!(s.contains("    fn name(&self, lang: &str) -> &str;\n    fn weigh(&self, scale: u32, other: &Apple) -> u64;\n\n"));
    assert!(s.contains(
        "            name: {\n                unsafe extern \"C\" fn __trampoline<__T: Fruit>(__ud: *mut core::ffi::c_void, lang: ffier::FfierBytes) -> ffier::FfierBytes {\n                    let __obj = unsafe { &*(__ud as *const __T) };\n                    let __result = __obj.name(unsafe { lang.as_str_unchecked() });\n                    unsafe { ffier::FfierBytes::from_str(__result) }\n                }\n                __trampoline::<Self>\n            },\n"
    ));
    assert!(s.contains("__ud: *mut core::ffi::c_void, scale: u32, other: *mut core::ffi::c_void) -> u64 {\n"));
    assert!(s.contains("let __result = __obj.weigh(scale, other);\n                    __result\n"));
    assert!(s.contains(
        "pub struct ExFruitVtable {\n    pub version: u32,\n    pub name: unsafe extern \"C\" fn(*mut core::ffi::c_void, ffier::FfierBytes) -> ffier::FfierBytes,\n    pub weigh: unsafe extern \"C\" fn(*mut core::ffi::c_void, u32, *mut core::ffi::c_void) -> u64,\n    pub drop:"
    ));
}

#[test]
fn trait_impl_client_defines_trait_and_calls_through_handle() {
    let t = TraitImplClientMeta {
        trait_name: "Shape".to_string(),
        struct_name: "BigCircle".to_string(),
        fn_pfx: "ex_".to_string(),
        lifetimes: vec![],
        trait_lifetime_args: vec![],
        methods: vec![
            VtableMethodMeta {
                name: "label".to_string(),
                params: vec![VtableParam { name: "prefix".to_string(), ty: VtableParamType::Str }],
                ret: VtableRetType::Str,
            },
            VtableMethodMeta { name: "reset".to_string(), params: vec![], ret: VtableRetType::Void },
        ],
        define_trait: true,
    };
    let expected = "pub trait Shape {\n\
\x20   fn label(&self, prefix: &str) -> &str;\n\
\x20   fn reset(&self);\n\
\n\
\x20   #[doc(hidden)]\n\
\x20   fn __into_raw_handle(self) -> *mut core::ffi::c_void where Self: Sized;\n\
}\n\n\
unsafe extern \"C\" {\n\
\x20   pub fn ex_big_circle_label(handle: *mut core::ffi::c_void, prefix: ffier::FfierBytes) -> ffier::FfierBytes;\n\
\x20   pub fn ex_big_circle_reset(handle: *mut core::ffi::c_void);\n\
}\n\n\
impl Shape for BigCircle {\n\
\x20   fn label(&self, prefix: &str) -> &str {\n\
\x20       let __raw = unsafe { ex_big_circle_label(self.0, unsafe { ffier::FfierBytes::from_str(prefix) }) };\n\
\x20       unsafe { core::str::from_utf8_unchecked(core::slice::from_raw_parts(__raw.data, __raw.len)) }\n\
\x20   }\n\
\x20   fn reset(&self) {\n\
\x20       unsafe { ex_big_circle_reset(self.0) }\n\
\x20   }\n\
\n\
\x20   fn __into_raw_handle(self) -> *mut core::ffi::c_void {\n\
\x20       let this = std::mem::ManuallyDrop::new(self);\n\
\x20       this.0\n\
\x20   }\n\
}\n";
    assert_eq!(trait_impl_client_text(&t), expected);
}

#[test]
fn trait_impl_client_with_lifetimes_and_trait_already_defined() {
    let t = TraitImplClientMeta {
        trait_name: "Snapshot".to_string(),
        struct_name: "View".to_string(),
        fn_pfx: "ex_".to_string(),
        lifetimes: vec!["a".to_string()],
        trait_lifetime_args: vec!["static".to_string(), "a".to_string()],
        methods: vec![],
        define_trait: true,
    };
    let s = trait_impl_client_text(&t);
    assert!(s.starts_with("pub trait Snapshot<'a> {\n"));
    assert!(s.contains("impl<'a> Snapshot<'static, 'a> for View<'a> {\n"));
    let mut u = t;
    u.define_trait = false;
    assert!(trait_impl_client_text(&u).starts_with("unsafe extern \"C\" {\n}\n\n"));
}
