use ffier::bridge::{RefKind, TypeRef};
use ffier::client_method::{borrowed_handle_name, build_wrapper_return_type, emit_method_body, emit_method_wrapper, ClientMethod};
use ffier::client_sig::{ClientParam, ClientParamType, MethodReturn, TypeText};
use ffier::client_types::{emit_exported_type, ClientExportedType};
use ffier::header::Receiver;
use ffier::schema::{TypeEntry, TypeKind, TypeRegistry};

fn lines(parts: &[&str]) -> String {
    parts.concat()
}

fn tt(ty: &str) -> TypeText {
    TypeText { rust_type: ty.to_string(), static_type: ty.replace("'_", "'static"), borrowed_handle: None }
}

fn handle_tt(name: &str) -> TypeText {
    TypeText { rust_type: format!("&{name}"), static_type: format!("&'static {name}"), borrowed_handle: Some(name.to_string()) }
}

fn param(name: &str, ty: &str) -> ClientParam {
    ClientParam {
        name: name.to_string(),
        param_type: ClientParamType::Regular { rust_type: ty.to_string(), static_type: ty.to_string(), borrowed_handle: false },
    }
}

fn method(name: &str, receiver: Receiver, params: Vec<ClientParam>, ret: MethodReturn, ffi: &str) -> ClientMethod {
    ClientMethod {
        name: name.to_string(),
        doc: vec![],
        method_lifetimes: vec![],
        receiver,
        params,
        ret,
        is_builder: false,
        ffi_name: Some(ffi.to_string()),
    }
}

fn body(m: &ClientMethod, is_builder_type: bool, has_lifetimes: bool) -> String {
    let mut out = String::new();
    emit_method_body(&mut out, m, m.ffi_name.as_deref().unwrap(), is_builder_type, has_lifetimes, "ex_error_result");
    out
}

#[test]
fn value_method_wrapper() {
    let mut m = method("add", Receiver::Ref, vec![param("a", "i32"), param("b", "i32")], MethodReturn::Value(tt("i32")), "ex_calc_add");
    m.doc = vec![" Add two integers.".to_string()];
    let mut out = String::new();
    emit_method_wrapper(&mut out, &m, "ex_calc_add", false, false, "ex_error_result");
    assert_eq!(
        out,
        lines(&[
            "    #[doc = \" Add two integers.\"]\n",
            "    pub fn add(&self, a: i32, b: i32) -> i32 {\n",
            "        let __raw = unsafe { ex_calc_add(self.0, <i32 as FfiType>::into_c(a), <i32 as FfiType>::into_c(b)) };\n",
            "        unsafe { <i32 as FfiType>::from_c(__raw) }\n",
            "    }\n",
        ])
    );
}

#[test]
fn out_param_result_body() {
    let m = method(
        "divide",
        Receiver::Ref,
        vec![param("a", "i32")],
        MethodReturn::Result { ok: Some(tt("i32")), err_type: "CalcError".to_string(), handle_or_null: false },
        "ex_calc_divide",
    );
    assert_eq!(
        body(&m, false, false),
        lines(&[
            "        let mut __out = std::mem::MaybeUninit::uninit();\n",
            "        let mut __err: *mut core::ffi::c_void = core::ptr::null_mut();\n",
            "        let __r = unsafe { ex_calc_divide(self.0, <i32 as FfiType>::into_c(a), __out.as_mut_ptr(), &mut __err as *mut *mut core::ffi::c_void) };\n",
            "        if __r == 0 {\n",
            "            Ok(unsafe { <i32 as FfiType>::from_c(__out.assume_init()) })\n",
            "        } else {\n",
            "            Err(CalcError::from_ffi(__r, __err))\n",
            "        }\n",
        ])
    );
    assert_eq!(build_wrapper_return_type(&m.ret, m.receiver, false), " -> Result<i32, CalcError>");
}

#[test]
fn unit_result_without_arguments() {
    let m = method(
        "reset",
        Receiver::NoSelf,
        vec![],
        MethodReturn::Result { ok: None, err_type: "E".to_string(), handle_or_null: false },
        "ex_reset",
    );
    assert_eq!(
        body(&m, false, false),
        lines(&[
            "        let mut __err: *mut core::ffi::c_void = core::ptr::null_mut();\n",
            "        let __r = unsafe { ex_reset(&mut __err as *mut *mut core::ffi::c_void) };\n",
            "        if __r == 0 { Ok(()) } else { Err(E::from_ffi(__r, __err)) }\n",
        ])
    );
    assert_eq!(build_wrapper_return_type(&m.ret, m.receiver, false), " -> Result<(), E>");
}

#[test]
fn builder_bodies() {
    let mut m = method("width", Receiver::Mut, vec![param("w", "u32")], MethodReturn::Value(tt("&mut Self")), "ex_b_width");
    m.is_builder = true;
    assert_eq!(
        body(&m, true, false),
        "        unsafe { ex_b_width(self.0, <u32 as FfiType>::into_c(w)) };\n        self\n"
    );
    assert_eq!(build_wrapper_return_type(&m.ret, m.receiver, true), " -> &mut Self");
    m.receiver = Receiver::Value;
    assert_eq!(
        body(&m, true, true),
        lines(&[
            "        let mut __handle = { let this = std::mem::ManuallyDrop::new(self); this.0 };\n",
            "        unsafe { ex_b_width(&mut __handle as *mut *mut core::ffi::c_void as *mut core::ffi::c_void, <u32 as FfiType>::into_c(w)) };\n",
            "        Self(__handle, std::marker::PhantomData)\n",
        ])
    );
    m.ret = MethodReturn::Result { ok: Some(tt("Builder")), err_type: "E".to_string(), handle_or_null: false };
    assert_eq!(build_wrapper_return_type(&m.ret, m.receiver, true), " -> Result<Builder, E>");
    assert!(body(&m, true, false).ends_with("        if __r == 0 { Ok(Self(__handle)) } else { Err(E::from_ffi(__r, __err)) }\n"));
}

#[test]
fn handle_or_null_with_borrowed_handle() {
    let m = method(
        "gadget",
        Receiver::Ref,
        vec![],
        MethodReturn::Result { ok: Some(handle_tt("Gadget")), err_type: "E".to_string(), handle_or_null: true },
        "ex_w_gadget",
    );
    assert_eq!(
        body(&m, false, false),
        lines(&[
            "        let mut __err: *mut core::ffi::c_void = core::ptr::null_mut();\n",
            "        let __raw = unsafe { ex_w_gadget(self.0, &mut __err as *mut *mut core::ffi::c_void) };\n",
            "        if !__raw.is_null() {\n",
            "            Ok(Gadget(__raw))\n",
            "        } else {\n",
            "            let __r = unsafe { ex_error_result(__err) };\n",
            "            Err(E::from_ffi(__r, __err))\n",
            "        }\n",
        ])
    );
    assert_eq!(build_wrapper_return_type(&m.ret, m.receiver, false), " -> Result<Gadget, E>");
    let v = method("peek", Receiver::Ref, vec![], MethodReturn::Value(handle_tt("Gadget")), "ex_w_peek");
    assert_eq!(body(&v, false, false), "        let __raw = unsafe { ex_w_peek(self.0) };\n        Gadget(__raw)\n");
    assert_eq!(build_wrapper_return_type(&v.ret, v.receiver, false), " -> Gadget");
}

#[test]
fn void_body_with_slice_and_by_value_self() {
    let m = method(
        "write_parts",
        Receiver::Value,
        vec![ClientParam { name: "parts".to_string(), param_type: ClientParamType::Slice }],
        MethodReturn::Void,
        "ex_tb_write_parts",
    );
    assert_eq!(
        body(&m, false, false),
        lines(&[
            "        let __handle = { let this = std::mem::ManuallyDrop::new(self); this.0 };\n",
            "        let __ffi_parts: Vec<ffier::FfierBytes> = parts.iter().map(|s| unsafe { ffier::FfierBytes::from_str(s) }).collect();\n",
            "        unsafe { ex_tb_write_parts(__handle, __ffi_parts.as_ptr(), __ffi_parts.len()) }\n",
        ])
    );
    assert_eq!(build_wrapper_return_type(&m.ret, m.receiver, false), "");
}

#[test]
fn borrowed_handles_from_registry() {
    let mut reg = TypeRegistry::new();
    reg.insert(
        "Gadget".to_string(),
        TypeEntry { kind: TypeKind::Handle { c_name: "ExGadget".to_string() }, type_tag: Some(2), bless: None, lifetime_params: vec![] },
    );
    reg.insert(
        "i32".to_string(),
        TypeEntry { kind: TypeKind::Primitive { c_type: "int32_t".to_string() }, type_tag: None, bless: None, lifetime_params: vec![] },
    );
    let tr = |name: &str, ref_kind: RefKind| TypeRef {
        name: name.to_string(),
        ref_kind,
        ref_lifetime: None,
        type_args: vec![],
        optional: false,
        owned: false,
    };
    assert_eq!(borrowed_handle_name(&tr("Gadget", RefKind::Shared), &reg), Some("Gadget".to_string()));
    assert_eq!(borrowed_handle_name(&tr("Gadget", RefKind::Mut), &reg), Some("Gadget".to_string()));
    assert_eq!(borrowed_handle_name(&tr("Gadget", RefKind::ByValue), &reg), None);
    assert_eq!(borrowed_handle_name(&tr("i32", RefKind::Shared), &reg), None);
    assert_eq!(borrowed_handle_name(&tr("Unknown", RefKind::Shared), &reg), None);
}

#[test]
fn exported_type_source() {
    let new = method("new", Receiver::NoSelf, vec![], MethodReturn::Value(tt("Calculator")), "ex_calculator_new");
    let add = method("add", Receiver::Ref, vec![param("a", "i32")], MethodReturn::Value(tt("i32")), "ex_calculator_add");
    let mut hidden = method("internal", Receiver::Ref, vec![], MethodReturn::Void, "unused");
    hidden.ffi_name = None;
    let ty = ClientExportedType {
        name: "Calculator".to_string(),
        destroy_ffi_name: "ex_calculator_destroy".to_string(),
        type_tag: 1,
        lifetimes: vec![],
        is_builder_type: false,
        methods: vec![new, hidden, add],
    };
    let mut out = String::new();
    emit_exported_type(&mut out, &ty, "ex_error_result");
    let expected = lines(&[
        "unsafe extern \"C\" {\n",
        "    pub fn ex_calculator_destroy(handle: *mut core::ffi::c_void);\n",
        "    pub fn ex_calculator_new() -> <Calculator as FfiType>::CRepr;\n",
        "    pub fn ex_calculator_add(handle: *mut core::ffi::c_void, a: <i32 as FfiType>::CRepr) -> <i32 as FfiType>::CRepr;\n",
        "}\n",
        "\n",
        "pub struct Calculator(*mut core::ffi::c_void);\n",
        "\n",
        "impl Calculator {\n",
        "    #[doc(hidden)]\n",
        "    pub fn __from_raw(ptr: *mut core::ffi::c_void) -> Self { Self(ptr) }\n",
        "    #[doc(hidden)]\n",
        "    pub fn __into_raw(self) -> *mut core::ffi::c_void { let this = std::mem::ManuallyDrop::new(self); this.0 }\n",
        "}\n",
        "\n",
        "impl FfiHandle for Calculator {\n",
        "    const C_HANDLE_NAME: &'static str = \"Calculator\";\n",
        "    const TYPE_TAG: u32 = 1u32;\n",
        "    unsafe fn as_handle(&self) -> *mut core::ffi::c_void { self.0 }\n",
        "}\n",
        "\n",
        "impl FfiType for Calculator {\n",
        "    type CRepr = *mut core::ffi::c_void;\n",
        "    const C_TYPE_NAME: &'static str = \"Calculator\";\n",
        "    fn into_c(self) -> *mut core::ffi::c_void { self.__into_raw() }\n",
        "    unsafe fn from_c(repr: *mut core::ffi::c_void) -> Self { Self::__from_raw(repr) }\n",
        "    fn borrow_as_c(&self) -> *mut core::ffi::c_void { self.0 }\n",
        "}\n",
        "\n",
        "impl std::fmt::Debug for Calculator {\n",
        "    fn fmt(&self, f: &mut std::fmt::Formatter<'_>) -> std::fmt::Result {\n",
        "        f.debug_tuple(\"Calculator\").field(&self.0).finish()\n",
        "    }\n",
        "}\n",
        "\n",
        "impl Calculator {\n",
        "    pub fn new() -> Calculator {\n",
        "        let __raw = unsafe { ex_calculator_new() };\n",
        "        unsafe { <Calculator as FfiType>::from_c(__raw) }\n",
        "    }\n",
        "    pub fn add(&self, a: i32) -> i32 {\n",
        "        let __raw = unsafe { ex_calculator_add(self.0, <i32 as FfiType>::into_c(a)) };\n",
        "        unsafe { <i32 as FfiType>::from_c(__raw) }\n",
        "    }\n",
        "}\n",
        "\n",
        "impl Drop for Calculator {\n",
        "    fn drop(&mut self) {\n",
        "        unsafe { ex_calculator_destroy(self.0) }\n",
        "    }\n",
        "}\n",
        "\n",
    ]);
    assert_eq!(out, expected);
}

#[test]
fn exported_type_with_lifetimes() {
    let ty = ClientExportedType {
        name: "View".to_string(),
        destroy_ffi_name: "ex_view_destroy".to_string(),
        type_tag: 7,
        lifetimes: vec!["a".to_string(), "b".to_string()],
        is_builder_type: false,
        methods: vec![],
    };
    let mut out = String::new();
    emit_exported_type(&mut out, &ty, "r");
    assert!(out.contains("pub struct View<'a, 'b>(*mut core::ffi::c_void, std::marker::PhantomData<(&'a (), &'b ())>);\n"));
    assert!(out.contains("impl<'a, 'b> FfiHandle for View<'a, 'b> {\n"));
    assert!(out.contains("    pub fn __from_raw(ptr: *mut core::ffi::c_void) -> Self { Self(ptr, std::marker::PhantomData) }\n"));
    assert!(out.contains("    const TYPE_TAG: u32 = 7u32;\n"));
    let one = ClientExportedType { lifetimes: vec!["a".to_string()], ..ty };
    let mut out1 = String::new();
    emit_exported_type(&mut out1, &one, "r");
    assert!(out1.contains("pub struct View<'a>(*mut core::ffi::c_void, std::marker::PhantomData<&'a ()>);\n"));
}
