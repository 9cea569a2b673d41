use ffier::client_exportable::{
    error_client_text, exportable_client_text, ErrorClientMeta, ErrorClientVariant, ClientMethodMeta, ClientOkMeta, ClientParamKind, ClientParamMeta, ClientRetMeta, ClientValueKind,
    ExportableClientMeta,
};
use ffier::convert::MetaReceiver;

fn param(name: &str, kind: ClientParamKind, rust_type: &str, c_type: &str) -> ClientParamMeta {
    ClientParamMeta { name: name.to_string(), kind, rust_type: rust_type.to_string(), c_type: c_type.to_string() }
}

fn method(name: &str, receiver: MetaReceiver, is_builder: bool, params: Vec<ClientParamMeta>, ret: ClientRetMeta, rust_ret: &str) -> ClientMethodMeta {
    ClientMethodMeta {
        name: name.to_string(),
        ffi_name: format!("calculator_{name}"),
        receiver,
        is_builder,
        method_lifetimes: vec![],
        doc: vec![],
        params,
        ret,
        rust_ret: rust_ret.to_string(),
    }
}

fn calculator(methods: Vec<ClientMethodMeta>, lifetimes: Vec<String>) -> ExportableClientMeta {
    ExportableClientMeta { struct_name: "Calculator".to_string(), fn_pfx: "ex_".to_string(), lifetimes, methods }
}

#[test]
fn type_without_methods() {
    let s = exportable_client_text(&calculator(vec![], vec![]));
    let expected = "unsafe extern \"C\" {\n\
\x20   pub fn ex_calculator_destroy(handle: *mut core::ffi::c_void);\n\
}\n\n\
pub struct Calculator(*mut core::ffi::c_void);\n\n\
impl Calculator {\n\
\x20   #[doc(hidden)]\n\
\x20   pub fn __from_raw(ptr: *mut core::ffi::c_void) -> Self {\n\
\x20       Self(ptr)\n\
\x20   }\n\n\
\x20   #[doc(hidden)]\n\
\x20   pub fn __into_raw(self) -> *mut core::ffi::c_void {\n\
\x20       let this = std::mem::ManuallyDrop::new(self);\n\
\x20       this.0\n\
\x20   }\n\
}\n\n\
impl ffier::FfiType for Calculator {\n\
\x20   type CRepr = *mut core::ffi::c_void;\n\
\x20   const C_TYPE_NAME: &str = \"\";\n\
\x20   fn into_c(self) -> *mut core::ffi::c_void { self.__into_raw() }\n\
\x20   fn from_c(repr: *mut core::ffi::c_void) -> Self { Self::__from_raw(repr) }\n\
}\n\n\
impl std::fmt::Debug for Calculator {\n\
\x20   fn fmt(&self, f: &mut std::fmt::Formatter<'_>) -> std::fmt::Result {\n\
\x20       f.debug_tuple(\"Calculator\").field(&self.0).finish()\n\
\x20   }\n\
}\n\n\
impl Calculator {\n\
}\n\n\
impl Drop for Calculator {\n\
\x20   fn drop(&mut self) {\n\
\x20       unsafe { ex_calculator_destroy(self.0) }\n\
\x20   }\n\
}\n";
    assert_eq!(s, expected);
}

#[test]
fn value_method_and_its_declaration() {
    let m = method(
        "add",
        MetaReceiver::Ref,
        false,
        vec![param("a", ClientParamKind::Primitive, "i32", "i32"), param("b", ClientParamKind::Primitive, "i32", "i32")],
        ClientRetMeta::Value { c_type: "i32".to_string(), kind: ClientValueKind::Primitive },
        "i32",
    );
    let mut m = m;
    m.doc = vec![" Add two numbers.".to_string()];
    let s = exportable_client_text(&calculator(vec![m], vec![]));
    assert!(s.contains("    pub fn ex_calculator_add(handle: *mut core::ffi::c_void, a: i32, b: i32) -> i32;\n"));
    assert!(s.contains(
        "    /// Add two numbers.\n    pub fn add(&self, a: i32, b: i32) -> i32 {\n        let __raw = unsafe { ex_calculator_add(self.0, a, b) };\n        __raw\n    }\n"
    ));
}

#[test]
fn result_with_string_out_param() {
    let m = method(
        "describe",
        MetaReceiver::Ref,
        false,
        vec![param("code", ClientParamKind::Primitive, "i32", "i32")],
        ClientRetMeta::Result {
            ok: Some(ClientOkMeta { out_c_type: "*mut ffier::FfierBytes".to_string(), kind: ClientValueKind::SliceStr, ok_type: "&str".to_string() }),
            err_ident: "CalcError".to_string(),
        },
        "Result<&str, CalcError>",
    );
    let s = exportable_client_text(&calculator(vec![m], vec![]));
    assert!(s.contains("    pub fn ex_calculator_describe(handle: *mut core::ffi::c_void, code: i32, result: *mut ffier::FfierBytes) -> ffier::FfierError;\n"));
    assert!(s.contains(
        "    pub fn describe(&self, code: i32) -> Result<&str, CalcError> {\n        let mut __out = ffier::FfierBytes::EMPTY;\n        let __err = unsafe { ex_calculator_describe(self.0, code, &mut __out) };\n        if __err.code == 0 { Ok(unsafe { core::str::from_utf8_unchecked(core::slice::from_raw_parts(__out.data, __out.len)) }) } else { Err(CalcError::from_ffi(__err)) }\n    }\n"
    ));
}

#[test]
fn builder_lends_handle_and_strs_become_bytes() {
    let m = method(
        "with_tags",
        MetaReceiver::Value,
        true,
        vec![param("tags", ClientParamKind::StrSlice, "", "*const ffier::FfierBytes")],
        ClientRetMeta::Void,
        "",
    );
    let s = exportable_client_text(&calculator(vec![m], vec![]));
    assert!(s.contains("    pub fn ex_calculator_with_tags(handle: *mut *mut core::ffi::c_void, tags: *const ffier::FfierBytes, tags_len: usize);\n"));
    assert!(s.contains("    pub fn with_tags(self, tags: &[&str]) -> Self {\n        let mut __handle = {\n"));
    assert!(s.contains("        let __ffi_strs: Vec<ffier::FfierBytes> = tags.iter().map(|s| unsafe { ffier::FfierBytes::from_str(s) }).collect();\n"));
    assert!(s.contains("        unsafe { ex_calculator_with_tags(&mut __handle, __ffi_strs.as_ptr(), __ffi_strs.len()) };\n        Self(__handle)\n"));
}

#[test]
fn lifetimes_add_phantom_and_drop_ffi_type() {
    let m = method(
        "new",
        MetaReceiver::NoSelf,
        false,
        vec![param("data", ClientParamKind::SliceBytes, "", "ffier::FfierBytes")],
        ClientRetMeta::Value { c_type: "*mut core::ffi::c_void".to_string(), kind: ClientValueKind::Handle },
        "View<'a>",
    );
    let s = exportable_client_text(&calculator(vec![m], vec!["a".to_string()]));
    assert!(s.contains("pub struct Calculator<'a>(*mut core::ffi::c_void, std::marker::PhantomData<(&'a ())>);\n"));
    assert!(s.contains("        Self(ptr, std::marker::PhantomData)\n"));
    assert!(!s.contains("impl ffier::FfiType"));
    assert!(s.contains("impl<'a> Drop for Calculator<'a> {\n"));
    assert!(s.contains("        let __raw = unsafe { ex_calculator_new(ffier::FfierBytes::from_bytes(data)) };\n        <View<'a>>::__from_raw(__raw)\n"));
}

#[test]
fn error_client_decodes_codes_and_displays_messages() {
    use_error_client();
}

fn use_error_client() {
    let e = ErrorClientMeta {
        name: "CalcError".to_string(),
        variants: vec![
            ErrorClientVariant { name: "DivisionByZero".to_string(), code: 1, message_literal: "\"division by zero\"".to_string() },
            ErrorClientVariant { name: "Overflow".to_string(), code: 2, message_literal: "\"overflow\"".to_string() },
        ],
    };
    let expected = "#[derive(Debug, Clone, Copy, PartialEq, Eq)]\n\
pub enum CalcError {\n\
\x20   DivisionByZero,\n\
\x20   Overflow,\n\
}\n\n\
impl CalcError {\n\
\x20   pub fn from_ffi(mut err: ffier::FfierError) -> Self {\n\
\x20       let code = err.code;\n\
\x20       unsafe { err.free() };\n\
\x20       match code {\n\
\x20           1u32 => Self::DivisionByZero,\n\
\x20           2u32 => Self::Overflow,\n\
\x20           other => panic!(\"unknown {} error code {}\", \"CalcError\", other),\n\
\x20       }\n\
\x20   }\n\
}\n\n\
impl std::fmt::Display for CalcError {\n\
\x20   fn fmt(&self, f: &mut std::fmt::Formatter<'_>) -> std::fmt::Result {\n\
\x20       match self {\n\
\x20           Self::DivisionByZero => write!(f, \"division by zero\"),\n\
\x20           Self::Overflow => write!(f, \"overflow\"),\n\
\x20       }\n\
\x20   }\n\
}\n\n\
impl std::error::Error for CalcError {}\n";
    assert_eq!(error_client_text(&e), expected);
}
