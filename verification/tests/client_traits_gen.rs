use ffier::client::{ClientErrorType, ClientErrorVariant};
use ffier::client_funcs::{emit_ffi_call_return, emit_free_function, ClientFreeFunction};
use ffier::client_gen::{fd_import_symbols, generate, generate_inputs_ready, try_generate, ClientLibrary};
use ffier::client_lookup::{
    bitflags_repr, enum_repr, error_runtime, fd_repr, find_error_dispatch_fns, find_error_message_fn, find_push_str_trait,
};
use ffier::client_sig::{ClientParam, ClientParamType, MethodReturn, TypeText};
use ffier::client_traits::{
    contains_string, emit_error_trait_externs, emit_implementable_trait, emit_simple_trait_def, emit_trait_impl, emit_vtable_constructor,
    emit_vtable_struct, ClientTrait, ClientTraitImpl, ClientTraitMethod, TraitSlot,
};
use ffier::header::{EnumType, EnumVariant, Receiver};
use ffier::schema::{Blessing, TypeEntry, TypeKind, TypeRegistry};

fn lines(parts: &[&str]) -> String {
    parts.concat()
}

fn tt(ty: &str) -> TypeText {
    TypeText { rust_type: ty.to_string(), static_type: ty.to_string(), borrowed_handle: None }
}

fn param(name: &str, ty: &str) -> ClientParam {
    ClientParam {
        name: name.to_string(),
        param_type: ClientParamType::Regular { rust_type: ty.to_string(), static_type: ty.to_string(), borrowed_handle: false },
    }
}

fn slot(ffi: &str, has_default: bool, index: usize) -> Option<TraitSlot> {
    Some(TraitSlot { ffi_name: ffi.to_string(), has_default, index })
}

fn tm(name: &str, receiver: Receiver, params: Vec<ClientParam>, ret: MethodReturn, s: Option<TraitSlot>) -> ClientTraitMethod {
    ClientTraitMethod { name: name.to_string(), receiver, params, ret, slot: s }
}

fn entry(kind: TypeKind, tag: Option<u32>, bless: Option<Blessing>) -> TypeEntry {
    TypeEntry { kind, type_tag: tag, bless, lifetime_params: vec![] }
}

fn shape_trait() -> ClientTrait {
    ClientTrait {
        name: "Shape".to_string(),
        type_tag: 5,
        vtable_struct_name: "ShapeVtable".to_string(),
        wrapper_name: "ShapeWrapper".to_string(),
        destroy_ffi_name: "ex_shape_destroy".to_string(),
        max_vtable_slot: 2,
        methods: vec![
            tm("area", Receiver::Ref, vec![], MethodReturn::Value(tt("f64")), slot("ex_shape_area", false, 0)),
            tm("scale", Receiver::Mut, vec![param("k", "f64")], MethodReturn::Void, slot("ex_shape_scale", false, 2)),
        ],
    }
}

#[test]
fn call_return_forms() {
    let mut out = String::new();
    emit_ffi_call_return(&mut out, "ex_f", "self.0", &MethodReturn::Value(tt("u8")), "    ");
    assert_eq!(out, "    let __raw = unsafe { ex_f(self.0) };\n    unsafe { <u8 as FfiType>::from_c(__raw) }\n");
    let mut out = String::new();
    emit_ffi_call_return(
        &mut out,
        "ex_f",
        "",
        &MethodReturn::Result { ok: Some(tt("u8")), err_type: "E".to_string(), handle_or_null: false },
        "",
    );
    assert_eq!(
        out,
        lines(&[
            "let mut __err: *mut core::ffi::c_void = core::ptr::null_mut();\n",
            "let mut __result = core::mem::MaybeUninit::<<u8 as FfiType>::CRepr>::uninit();\n",
            "let __r = unsafe { ex_f(__result.as_mut_ptr(), &mut __err as *mut *mut core::ffi::c_void) };\n",
            "if __r == 0 {\n",
            "    Ok(unsafe { <u8 as FfiType>::from_c(__result.assume_init()) })\n",
            "} else {\n",
            "    Err(E::from_ffi(__r, __err))\n",
            "}\n",
        ])
    );
    let mut out = String::new();
    emit_ffi_call_return(
        &mut out,
        "ex_g",
        "self.0",
        &MethodReturn::Result { ok: Some(tt("Gadget")), err_type: "E".to_string(), handle_or_null: true },
        "",
    );
    assert!(out.contains("    Err(E::from_ffi(0, __err))\n"));
    assert!(out.contains("let __raw = unsafe { ex_g(self.0, &mut __err as *mut *mut core::ffi::c_void) };\n"));
}

#[test]
fn free_function_source() {
    let f = ClientFreeFunction {
        name: "version".to_string(),
        ffi_name: "ex_version".to_string(),
        doc: vec![" The \"version\".".to_string()],
        params: vec![param("major", "u32")],
        ret: MethodReturn::Value(tt("u32")),
    };
    let mut out = String::new();
    emit_free_function(&mut out, &f, "ex_error_result");
    assert_eq!(
        out,
        lines(&[
            "unsafe extern \"C\" {\n",
            "    pub fn ex_version(major: <u32 as FfiType>::CRepr) -> <u32 as FfiType>::CRepr;\n",
            "}\n",
            "\n",
            "#[doc = \" The \\\"version\\\".\"]\n",
            "pub fn version(major: u32) -> u32 {\n",
            "    let __raw = unsafe { ex_version(<u32 as FfiType>::into_c(major)) };\n",
            "    unsafe { <u32 as FfiType>::from_c(__raw) }\n",
            "}\n",
            "\n",
        ])
    );
    let g = ClientFreeFunction {
        name: "open".to_string(),
        ffi_name: "ex_open".to_string(),
        doc: vec![],
        params: vec![],
        ret: MethodReturn::Result { ok: Some(tt("Gadget")), err_type: "E".to_string(), handle_or_null: true },
    };
    let mut out = String::new();
    emit_free_function(&mut out, &g, "ex_error_result");
    assert!(out.contains("pub fn open() -> Result<Gadget, E> {\n"));
    assert!(out.contains("        let __r = unsafe { ex_error_result(__err) };\n"));
}

#[test]
fn vtable_struct_and_constructor() {
    let tr = shape_trait();
    let mut out = String::new();
    emit_vtable_struct(&mut out, "ShapeVtable", &tr.methods, tr.max_vtable_slot);
    assert_eq!(
        out,
        lines(&[
            "#[repr(C)]\n",
            "pub struct ShapeVtable {\n",
            "    pub drop: Option<unsafe extern \"C\" fn(*mut core::ffi::c_void)>,\n",
            "    pub area: Option<unsafe extern \"C\" fn(*mut core::ffi::c_void) -> <f64 as FfiType>::CRepr>,\n",
            "    pub __reserved_1: Option<unsafe extern \"C\" fn()>,\n",
            "    pub scale: Option<unsafe extern \"C\" fn(*mut core::ffi::c_void, <f64 as FfiType>::CRepr)>,\n",
            "}\n",
            "\n",
        ])
    );
    let reg = TypeRegistry::new();
    let mut ctor = String::new();
    emit_vtable_constructor(&mut ctor, "ShapeVtable", "Shape", &tr.methods, tr.max_vtable_slot, &reg);
    assert!(ctor.starts_with("        &ShapeVtable {\n            drop: Some({\n"));
    assert!(ctor.contains("            __reserved_1: None,\n"));
    assert!(ctor.contains("                    let __val = unsafe { &mut *(__ud as *mut __T) };\n"));
    assert!(ctor.contains("                    let __result = __val.scale(unsafe { <f64 as FfiType>::from_c(k) });\n"));
    assert!(ctor.contains("                    <f64 as FfiType>::into_c(__result)\n"));
    assert!(ctor.ends_with("        }\n"));
}

#[test]
fn result_trampoline_uses_error_tag() {
    let mut reg = TypeRegistry::new();
    reg.insert("IoError".to_string(), entry(TypeKind::Error { c_name: "ExIoError".to_string() }, Some(9), None));
    let ms = vec![tm(
        "read",
        Receiver::Ref,
        vec![ClientParam { name: "parts".to_string(), param_type: ClientParamType::Slice }],
        MethodReturn::Result { ok: Some(tt("u32")), err_type: "IoError".to_string(), handle_or_null: false },
        slot("ex_src_read", false, 0),
    )];
    let mut ctor = String::new();
    emit_vtable_constructor(&mut ctor, "SrcVtable", "Src", &ms, 0, &reg);
    assert!(ctor.contains("                    __ud: *mut core::ffi::c_void, parts: *const ffier::FfierBytes, parts_len: usize, result: *mut <u32 as FfiType>::CRepr, err_out: *mut *mut core::ffi::c_void,\n"));
    assert!(ctor.contains("                ) -> ffier::FfierResult {\n"));
    assert!(ctor.contains("let __slice_parts: Vec<&str> = unsafe { core::slice::from_raw_parts(parts, parts_len) }"));
    assert!(ctor.contains("let __result = __val.read(&__slice_parts);\n"));
    assert!(ctor.contains("                            unsafe { result.write(<u32 as FfiType>::into_c(__ok)) };\n"));
    assert!(ctor.contains("                            ffier::ffier_result(9, 1)\n"));
}

#[test]
fn implementable_trait_with_default() {
    let mut tr = shape_trait();
    tr.methods.push(tm("describe", Receiver::Ref, vec![], MethodReturn::Void, slot("ex_shape_describe", true, 1)));
    let reg = TypeRegistry::new();
    let mut out = String::new();
    emit_implementable_trait(&mut out, &tr, &reg);
    assert!(out.starts_with("pub trait Shape {\n    fn area(&self, ) -> f64;\n    fn scale(&mut self, k: f64);\n    fn describe(&self, ) where Self: Sized {\n"));
    assert!(out.contains("        let __metadata: u32 = 2 | (1u32 << 2);\n"));
    assert!(out.contains("            type_tag: 5u32,\n"));
    assert!(out.contains("        unsafe { ex_shape_describe(&mut __temp as *mut ffier::FfierHandle<ffier::VtableHandle> as *mut core::ffi::c_void) }\n"));
    assert!(out.contains("        ffier::ffier_handle_new_with_metadata(5u32, 0, ffier::VtableHandle {\n"));
    assert!(out.contains("unsafe extern \"C\" {\n    pub fn ex_shape_describe(handle: *mut core::ffi::c_void);\n}\n\n"));
    assert!(out.contains("    pub describe: Option<unsafe extern \"C\" fn(*mut core::ffi::c_void)>,\n"));
    assert!(out.ends_with("impl Drop for ShapeWrapper {\n    fn drop(&mut self) {}\n}\n\n"));
    let mut ext = String::new();
    emit_error_trait_externs(&mut ext, &shape_trait());
    assert_eq!(
        ext,
        lines(&[
            "unsafe extern \"C\" {\n",
            "    pub fn ex_shape_area(handle: *mut core::ffi::c_void) -> <f64 as FfiType>::CRepr;\n",
            "    pub fn ex_shape_scale(handle: *mut core::ffi::c_void, k: <f64 as FfiType>::CRepr);\n",
            "    pub fn ex_shape_destroy(handle: *mut core::ffi::c_void);\n",
            "}\n",
            "\n",
        ])
    );
}

#[test]
fn trait_impls_define_each_trait_once() {
    let ti = ClientTraitImpl {
        trait_name: "Named".to_string(),
        struct_name: "Gadget".to_string(),
        lifetimes: vec![],
        trait_lifetime_args: vec!["static".to_string(), "a".to_string()],
        struct_lifetime_args: vec![],
        methods: vec![tm("name", Receiver::Ref, vec![], MethodReturn::Value(tt("&str")), slot("ex_gadget_name", false, 0))],
    };
    let mut def = String::new();
    emit_simple_trait_def(&mut def, &ti);
    assert_eq!(
        def,
        "pub trait Named<'a> {\n    fn name(&self, ) -> &str;\n    #[doc(hidden)]\n    fn __into_raw_handle(self) -> *mut core::ffi::c_void where Self: Sized;\n}\n\n"
    );
    let mut defined = vec!["Shape".to_string()];
    let mut out = String::new();
    emit_trait_impl(&mut out, &ti, &mut defined, &[]);
    assert_eq!(defined, vec!["Shape".to_string(), "Named".to_string()]);
    assert!(out.starts_with("pub trait Named<'a> {\n"));
    assert!(out.contains("impl Named<'static, 'a> for Gadget {\n    fn name(&self, ) -> &str {\n"));
    assert!(out.contains("        let __raw = unsafe { ex_gadget_name(self.0) };\n"));
    let mut again = String::new();
    emit_trait_impl(&mut again, &ti, &mut defined, &[]);
    assert!(again.starts_with("unsafe extern \"C\" {\n"));
    assert_eq!(defined.len(), 2);
    assert!(contains_string(&defined, "Named"));
    assert!(!contains_string(&defined, "Other"));
}

#[test]
fn trait_impl_forwards_missing_defaults() {
    let mut tr = shape_trait();
    tr.methods.push(tm("describe", Receiver::Ref, vec![], MethodReturn::Void, slot("ex_shape_describe", true, 1)));
    let ti = ClientTraitImpl {
        trait_name: "Shape".to_string(),
        struct_name: "Square".to_string(),
        lifetimes: vec![],
        trait_lifetime_args: vec![],
        struct_lifetime_args: vec![],
        methods: vec![tm("area", Receiver::Ref, vec![], MethodReturn::Value(tt("f64")), slot("ex_square_area", false, 0))],
    };
    let mut defined = vec!["Shape".to_string()];
    let mut out = String::new();
    emit_trait_impl(&mut out, &ti, &mut defined, &[tr]);
    assert!(!out.contains("pub trait"));
    assert!(out.contains("    fn describe(&self, ) {\n        unsafe { ex_shape_describe(self.0) }\n    }\n"));
    assert!(out.ends_with("    fn __into_raw_handle(self) -> *mut core::ffi::c_void {\n        let this = std::mem::ManuallyDrop::new(self);\n        this.0\n    }\n}\n\n"));
}

#[test]
fn lookups_in_the_registry() {
    let mut reg = TypeRegistry::new();
    reg.insert("i32".to_string(), entry(TypeKind::Primitive { c_type: "int32_t".to_string() }, None, None));
    reg.insert("Fd".to_string(), entry(TypeKind::Alias { alias_of: "i32".to_string() }, None, Some(Blessing::OwnedFd)));
    reg.insert("Color".to_string(), entry(TypeKind::Enum { alias_of: "u8".to_string() }, None, None));
    reg.insert("Flags".to_string(), entry(TypeKind::Bitflags { alias_of: "u32".to_string() }, None, None));
    reg.insert("PushStr".to_string(), entry(TypeKind::Trait { c_name: "ExPushStr".to_string() }, Some(4), Some(Blessing::PushStr)));
    assert_eq!(fd_repr(&reg, "Fd"), Some("i32".to_string()));
    assert_eq!(fd_repr(&reg, "i32"), None);
    assert_eq!(enum_repr(&reg, "Color"), Some("u8".to_string()));
    assert_eq!(enum_repr(&reg, "Flags"), None);
    assert_eq!(bitflags_repr(&reg, "Flags"), Some("u32".to_string()));
    let err_trait = ClientTrait {
        name: "Error".to_string(),
        type_tag: 3,
        vtable_struct_name: "ErrorVtable".to_string(),
        wrapper_name: "ErrorWrapper".to_string(),
        destroy_ffi_name: "ex_error_destroy".to_string(),
        max_vtable_slot: 1,
        methods: vec![
            tm("result", Receiver::Ref, vec![], MethodReturn::Value(tt("u32")), slot("ex_error_result", false, 0)),
            tm("message", Receiver::Ref, vec![], MethodReturn::Void, slot("ex_error_message", false, 1)),
        ],
    };
    let push_str = ClientTrait { name: "PushStr".to_string(), vtable_struct_name: "PushStrVtable".to_string(), ..shape_trait() };
    let traits = vec![err_trait, push_str];
    assert_eq!(
        find_error_dispatch_fns(&traits, "Error"),
        Some(("ex_error_result".to_string(), "ex_error_destroy".to_string()))
    );
    assert_eq!(find_error_dispatch_fns(&traits, "Missing"), None);
    assert_eq!(find_error_message_fn(&traits, "Error"), Some("ex_error_message".to_string()));
    assert_eq!(find_push_str_trait(&reg, &traits, "PushStr"), Some((4, "PushStrVtable".to_string())));
    let rt = error_runtime("ex", &reg, &traits, "Error", "PushStr").unwrap();
    assert_eq!(rt.error_destroy_fn, "ex_error_destroy");
    assert_eq!(rt.error_message_fn, "ex_error_message");
    assert_eq!(rt.push_str_type_tag, 4);
    assert!(error_runtime("ex", &reg, &traits, "Error", "Nope").is_none());
}

#[test]
fn fd_imports_sorted_without_duplicates() {
    assert_eq!(fd_import_symbols(false, false, false), Vec::<String>::new());
    assert_eq!(fd_import_symbols(true, false, false), vec!["RawFd"]);
    assert_eq!(fd_import_symbols(false, true, true), vec!["AsRawFd", "BorrowedFd", "FromRawFd", "OwnedFd", "RawFd"]);
    assert_eq!(fd_import_symbols(true, false, true), vec!["FromRawFd", "OwnedFd", "RawFd"]);
}

fn empty_library() -> ClientLibrary {
    ClientLibrary {
        prefix: "ex".to_string(),
        registry: TypeRegistry::new(),
        raw_fd: None,
        borrowed_fd: None,
        owned_fd: None,
        error_trait: None,
        push_str_trait: None,
        enums: vec![],
        bitflags: vec![],
        errors: vec![],
        exported_types: vec![],
        traits: vec![],
        trait_impls: vec![],
        free_functions: vec![],
    }
}

#[test]
fn whole_client_source() {
    let mut lib = empty_library();
    let out = generate(&lib);
    assert!(out.starts_with("/// Marker trait for types exported as opaque C handles.\npub trait FfiHandle {\n"));
    assert!(out.contains("macro_rules! impl_ffi_identity {\n"));
    assert!(out.ends_with("    fn borrow_as_c(&self) -> *mut core::ffi::c_void { unsafe { self.as_handle() } }\n}\n\n"));
    lib.registry.insert("i32".to_string(), entry(TypeKind::Primitive { c_type: "int32_t".to_string() }, None, None));
    lib.registry.insert("BFd".to_string(), entry(TypeKind::Alias { alias_of: "i32".to_string() }, None, Some(Blessing::BorrowedFd)));
    lib.registry.insert("Color".to_string(), entry(TypeKind::Enum { alias_of: "u8".to_string() }, None, None));
    lib.borrowed_fd = Some("BFd".to_string());
    lib.enums = vec![EnumType {
        name: "Color".to_string(),
        variants: vec![EnumVariant { name: "Red".to_string(), c_name: "EX_COLOR_RED".to_string(), value: 0 }],
    }];
    let out = try_generate(&lib).unwrap();
    assert!(out.starts_with("use std::os::unix::io::{AsRawFd, BorrowedFd, RawFd};\n\n/// Marker trait"));
    assert!(out.contains("impl<'fd> FfiType for BorrowedFd<'fd> {\n    type CRepr = i32;"));
    assert!(out.contains("#[repr(u8)]\npub enum Color {\n    Red = 0,\n}\n"));
    lib.enums.push(EnumType { name: "Unknown".to_string(), variants: vec![] });
    assert!(!generate_inputs_ready(&lib));
    assert!(try_generate(&lib).is_none());
}

#[test]
fn errors_need_the_runtime() {
    let mut lib = empty_library();
    lib.errors = vec![ClientErrorType {
        name: "CalcError".to_string(),
        variants: vec![ClientErrorVariant { name: "DivisionByZero".to_string(), code: 1, field_types: vec![] }],
    }];
    assert!(try_generate(&lib).is_none());
}
