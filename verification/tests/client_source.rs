use ffier::client::{
    parse_client_args, UsageError, decimal_string, emit_bitflags_type, emit_enum_type, emit_error, signed_decimal_string, ClientErrorType,
    ClientErrorVariant, ErrorRuntime,
};
use ffier::header::{EnumType, EnumVariant};

fn runtime() -> ErrorRuntime {
    ErrorRuntime {
        prefix: "ft".to_string(),
        error_destroy_fn: "ft_error_destroy".to_string(),
        error_message_fn: "ft_error_message".to_string(),
        push_str_type_tag: 9,
        push_str_vtable_name: "PushStrVtable".to_string(),
    }
}

#[test]
fn decimals() {
    assert_eq!(decimal_string(0), "0");
    assert_eq!(decimal_string(1234), "1234");
    assert_eq!(signed_decimal_string(-42), "-42");
    assert_eq!(signed_decimal_string(i64::MIN), "-9223372036854775808");
}

#[test]
fn error_type_source() {
    let err = ClientErrorType {
        name: "TestError".to_string(),
        variants: vec![
            ClientErrorVariant { name: "NotFound".to_string(), code: 1, field_types: vec![] },
            ClientErrorVariant { name: "Io".to_string(), code: 2, field_types: vec!["&str".to_string()] },
        ],
    };
    let mut out = String::new();
    emit_error(&mut out, &err, &runtime());
    assert!(out.starts_with("pub struct TestErrorErrorHandle(*mut core::ffi::c_void);\n"));
    assert!(out.contains("    fn drop(&mut self) { if !self.0.is_null() { unsafe { ft_error_destroy(self.0) } } }\n"));
    assert!(out.contains("pub struct TestErrorIoData(TestErrorErrorHandle);\nimpl TestErrorIoData {\n    pub fn field_0(&self) -> &str {\n"));
    assert!(out.contains("        unsafe { <&str as FfiType>::from_c(__buf.assume_init()) }\n"));
    assert!(out.contains("write!(f, \"Io(...)\") }\n"));
    assert!(!out.contains("TestErrorNotFoundData"));
    assert!(out.contains("#[derive(Debug)]\npub enum TestError {\n    NotFound(TestErrorErrorHandle),\n    Io(TestErrorIoData),\n}\n"));
    assert!(out.contains("            1u32 => Self::NotFound(handle),\n            2u32 => Self::Io(TestErrorIoData(handle)),\n"));
    assert!(out.contains("            other => panic!(\"unknown {} error code {}\", \"TestError\", other),\n"));
    assert!(out.contains("            Self::NotFound(h) => h.handle(),\n            Self::Io(d) => d.0.handle(),\n"));
    assert!(out.contains("            type_tag: 9u32,\n"));
    assert!(out.contains("        unsafe { ft_error_message(self.handle_ptr(), __writer_handle) };\n"));
    assert!(out.contains("impl std::error::Error for TestError {}\n"));
    assert!(out.ends_with(
        "unsafe extern \"C\" {\n    fn ft_error_payload(handle: *const core::ffi::c_void, out_buf: *mut core::ffi::c_void, buf_size: usize);\n}\n\n"
    ));
}

#[test]
fn enum_and_bitflags_source() {
    let en = EnumType {
        name: "Color".to_string(),
        variants: vec![
            EnumVariant { name: "Red".to_string(), c_name: "FT_COLOR_RED".to_string(), value: 0 },
            EnumVariant { name: "Blue".to_string(), c_name: "FT_COLOR_BLUE".to_string(), value: 2 },
        ],
    };
    let mut out = String::new();
    emit_enum_type(&mut out, &en, "u32");
    let expected = [
        "#[derive(Debug, Clone, Copy, PartialEq, Eq)]\n",
        "#[repr(u32)]\n",
        "pub enum Color {\n",
        "    Red = 0,\n",
        "    Blue = 2,\n",
        "}\n",
        "\n",
        "impl FfiType for Color {\n",
        "    type CRepr = u32;\n",
        "    const C_TYPE_NAME: &'static str = \"Color\";\n",
        "    fn into_c(self) -> u32 { self as u32 }\n",
        "    unsafe fn from_c(repr: u32) -> Self {\n",
        "        match repr {\n",
        "            0 => Self::Red,\n",
        "            2 => Self::Blue,\n",
        "            unknown => panic!(\"invalid Color discriminant: {}\", unknown),\n",
        "        }\n",
        "    }\n",
        "    fn borrow_as_c(&self) -> u32 { *self as u32 }\n",
        "}\n",
        "\n",
    ]
    .concat();
    assert_eq!(out, expected);

    let bf = EnumType {
        name: "Perms".to_string(),
        variants: vec![EnumVariant { name: "READ".to_string(), c_name: "FT_PERMS_READ".to_string(), value: 1 }],
    };
    let mut out2 = String::new();
    emit_bitflags_type(&mut out2, &bf, "u8");
    assert!(out2.starts_with("bitflags::bitflags! {\n    #[derive(Debug, Clone, Copy, PartialEq, Eq)]\n    pub struct Perms: u8 {\n        const READ = 1;\n    }\n}\n\n"));
    assert!(out2.contains("    unsafe fn from_c(repr: u8) -> Self { Self::from_bits_retain(repr) }\n"));
}

fn argv(v: &[&str]) -> Vec<String> {
    v.iter().map(|s| s.to_string()).collect()
}

#[test]
fn client_command_line() {
    let a = parse_client_args(&argv(&["gen", "--weak", "ffier-ft.json"])).unwrap();
    assert_eq!(a.json_file, "ffier-ft.json");
    assert!(a.weak);
    let b = parse_client_args(&argv(&["gen", "schema.json"])).unwrap();
    assert!(!b.weak);
    assert_eq!(parse_client_args(&argv(&["gen"])).err(), Some(UsageError::MissingJsonFile));
    assert_eq!(parse_client_args(&argv(&[])).err(), Some(UsageError::MissingJsonFile));
    let e = parse_client_args(&argv(&["gen", "-x", "a.json"])).err().unwrap();
    assert_eq!(e, UsageError::UnknownFlag("-x".to_string()));
    assert_eq!(e.message(), "unknown flag: -x\nUsage: ffier-gen-rust-client [--weak] <json-file>");
    let e = parse_client_args(&argv(&["gen", "a.json", "b.json"])).err().unwrap();
    assert_eq!(e, UsageError::UnexpectedArgument("b.json".to_string()));
    assert_eq!(UsageError::MissingJsonFile.message(), "Usage: ffier-gen-rust-client [--weak] <json-file>");
}
