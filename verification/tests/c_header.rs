use ffier::gen_c::{build_header_line, format_c_type_name, header_fn_name, shared_types_source, HeaderBuilder, HeaderSection, ItemKind};
use ffier::header::{
    generate, ErrorSection, HeaderLibrary, default_guard, emit_doc_comment, emit_enum_section, emit_error_section, emit_free_functions,
    emit_section_header, emit_shared_types, emit_type_section, emit_utility_functions, emit_vtable_section,
    format_c_declaration, format_return_and_out_params, guard_from_stem, BlessedTypes, CMethod, CNamedType, CParam,
    CReturn, EnumType, EnumVariant, ErrorTypeDecl, ErrorVariantDecl, ExportedTypeDecl, FreeFunctionDecl,
    MethodContext, PrimitiveTypes, Receiver, VtableTrait,
};

fn blessed() -> BlessedTypes {
    BlessedTypes { error_c: "FtError".to_string(), result_c: "FtResult".to_string() }
}

fn param(c_type: &str, name: &str) -> CParam {
    CParam::Single(CNamedType { c_type: c_type.to_string(), name: name.to_string() })
}

#[test]
fn c_type_names_get_the_prefix() {
    assert_eq!(format_c_type_name("FfierStr", "Ex"), "ExStr");
    assert_eq!(format_c_type_name("Widget", "Ex"), "ExWidget");
    assert_eq!(format_c_type_name("int32_t", "Ex"), "int32_t");
    assert_eq!(format_c_type_name("bool", "Ex"), "bool");
}

#[test]
fn header_builder_assembles_sections() {
    let h = HeaderBuilder::new("EX_H", "/* shared */".to_string())
        .push(HeaderSection {
            struct_name: "Widget".to_string(),
            handle_typedef: "typedef void* ExWidget;".to_string(),
            declarations: "void ex_widget_destroy(ExWidget handle);\n".to_string(),
        })
        .push(HeaderSection { struct_name: "Empty".to_string(), handle_typedef: String::new(), declarations: String::new() });
    let out = h.build();
    let expected = format!(
        "#ifndef EX_H\n#define EX_H\n\n#include <stddef.h>\n#include <stdint.h>\n#include <stdbool.h>\n#include <string.h>\n\n\
typedef void* ExWidget;\n\n/* shared */\n/* Header auto-generated by ffier */\n\n/* Widget {} */\n\n\
void ex_widget_destroy(ExWidget handle);\n\n#endif /* EX_H */\n",
        "-".repeat(60)
    );
    assert_eq!(out, expected);
}

#[test]
fn header_lines_of_exported_functions() {
    assert_eq!(
        build_header_line("int32_t", "ex_calc_add", Some("ExCalc handle"), &["int32_t", "int32_t"], &["a", "b"], None),
        "int32_t ex_calc_add(ExCalc handle, int32_t a, int32_t b);"
    );
    assert_eq!(build_header_line("ExCalc", "ex_calc_new", None, &[], &[], None), "ExCalc ex_calc_new(void);");
    assert_eq!(
        build_header_line("ExResult", "ex_calc_div", Some("ExCalc handle"), &["int32_t"], &["a", "b"], Some("int32_t")),
        "ExResult ex_calc_div(ExCalc handle, int32_t a, int32_t* result);"
    );
}

#[test]
fn header_function_names() {
    assert_eq!(header_fn_name(ItemKind::Type, "MyCalculator", "ex", ""), "ex_my_calculator__header");
    assert_eq!(header_fn_name(ItemKind::Implementable, "Device", "krun", ""), "krun_vtable_device__header");
    assert_eq!(header_fn_name(ItemKind::TraitImpl, "Device", "krun", "NetDevice"), "krun_device_for_net_device__header");
}

#[test]
fn shared_types_use_the_prefixes() {
    let s = shared_types_source("my_lib");
    assert!(s.starts_with("/* Caller must ensure data is valid UTF-8 */\ntypedef struct {\n"));
    assert!(s.contains("} MyLibStr;\n"));
    assert!(s.contains("typedef MyLibStr MyLibPath;\n"));
    assert!(s.contains("#define MY_LIB_STR(s) ((MyLibStr){ .data = (s), .len = strlen(s) })\n"));
    assert!(s.contains("\"MY_LIB_BYTES() requires an array, not a pointer\"); \\\n"));
    assert!(s.ends_with("#endif"));
}

#[test]
fn section_header_is_padded() {
    let mut out = String::new();
    emit_section_header(&mut out, "Widget");
    assert_eq!(out, format!("\n/* Widget {} */\n\n", "-".repeat(60)));
    let long = "x".repeat(70);
    let mut out2 = String::new();
    emit_section_header(&mut out2, &long);
    assert_eq!(out2, format!("\n/* {long}  */\n\n"));
}

#[test]
fn doc_comments_single_and_multi_line() {
    let mut out = String::new();
    emit_doc_comment(&mut out, &[]);
    assert_eq!(out, "");
    emit_doc_comment(&mut out, &[" Create a widget.".to_string()]);
    assert_eq!(out, "/** Create a widget. */\n");
    let mut out2 = String::new();
    emit_doc_comment(&mut out2, &[" Line one.".to_string(), "".to_string(), " Line two.".to_string()]);
    assert_eq!(out2, "/**\n * Line one.\n *\n * Line two.\n */\n");
}

#[test]
fn enum_and_error_constants() {
    let en = EnumType {
        name: "Color".to_string(),
        variants: vec![
            EnumVariant { name: "Red".to_string(), c_name: "FT_COLOR_RED".to_string(), value: 0 },
            EnumVariant { name: "Back".to_string(), c_name: "FT_COLOR_BACK".to_string(), value: -1 },
        ],
    };
    let mut out = String::new();
    emit_enum_section(&mut out, &en);
    assert!(out.ends_with("#define FT_COLOR_RED 0\n#define FT_COLOR_BACK -1\n"));
    let err = ErrorTypeDecl {
        name: "TestError".to_string(),
        variants: vec![ErrorVariantDecl { name: "NotFound".to_string(), c_name: "FT_ERROR_TEST_NOT_FOUND".to_string(), code: 3 }],
    };
    let mut out2 = String::new();
    emit_error_section(&mut out2, &err, 2);
    assert!(out2.starts_with("\n/* TestError "));
    assert!(out2.ends_with("#define FT_ERROR_TEST_NOT_FOUND ((uint64_t)2 << 32 | 3)\n"));
}

#[test]
fn returns_and_out_params() {
    let b = blessed();
    assert_eq!(format_return_and_out_params(&CReturn::Void, false, &b), ("void".to_string(), vec![]));
    assert_eq!(format_return_and_out_params(&CReturn::Value("int32_t".to_string()), false, &b), ("int32_t".to_string(), vec![]));
    assert_eq!(format_return_and_out_params(&CReturn::Value("FtWidget".to_string()), true, &b), ("void".to_string(), vec![]));
    assert_eq!(
        format_return_and_out_params(&CReturn::HandleOrNull("FtWidget".to_string()), false, &b),
        ("FtWidget".to_string(), vec!["FtError* err_out".to_string()])
    );
    assert_eq!(
        format_return_and_out_params(&CReturn::OutParam(Some("int32_t".to_string())), false, &b),
        ("FtResult".to_string(), vec!["int32_t* result".to_string(), "FtError* err_out".to_string()])
    );
    assert_eq!(
        format_return_and_out_params(&CReturn::OutParam(Some("int32_t".to_string())), true, &b),
        ("FtResult".to_string(), vec!["FtError* err_out".to_string()])
    );
    assert_eq!(
        format_return_and_out_params(&CReturn::OutParam(None), false, &b),
        ("FtResult".to_string(), vec!["FtError* err_out".to_string()])
    );
}

fn method(name: &str, receiver: Receiver, params: Vec<CParam>, ret: CReturn, context: MethodContext) -> CMethod {
    CMethod { name: name.to_string(), doc: vec![], receiver, params, ret, returns_builder_self: false, context }
}

#[test]
fn declarations_of_methods() {
    let b = blessed();
    let m = method(
        "divide",
        Receiver::Ref,
        vec![param("int32_t", "a"), param("int32_t", "b")],
        CReturn::OutParam(Some("int32_t".to_string())),
        MethodContext::Exportable("ft_calc_divide".to_string()),
    );
    assert_eq!(
        format_c_declaration("ft_calc_divide", "FtCalc", &m, false, &b),
        "FtResult ft_calc_divide(FtCalc handle, int32_t a, int32_t b, int32_t* result, FtError* err_out);"
    );
    let slice = CParam::Slice(vec![
        CNamedType { c_type: "const FtStr*".to_string(), name: "parts".to_string() },
        CNamedType { c_type: "uintptr_t".to_string(), name: "parts_len".to_string() },
    ]);
    let by_value = method("set", Receiver::Value, vec![slice], CReturn::Void, MethodContext::Exportable("ft_b_set".to_string()));
    assert_eq!(
        format_c_declaration("ft_b_set", "FtB", &by_value, true, &b),
        "void ft_b_set(FtB* handle, const FtStr* parts, uintptr_t parts_len);"
    );
    let ctor = method("new", Receiver::NoSelf, vec![], CReturn::Value("FtCalc".to_string()), MethodContext::Exportable("ft_calc_new".to_string()));
    assert_eq!(format_c_declaration("ft_calc_new", "FtCalc", &ctor, false, &b), "FtCalc ft_calc_new();");
}

#[test]
fn type_section_skips_trait_methods() {
    let b = blessed();
    let ty = ExportedTypeDecl {
        name: "Calc".to_string(),
        c_name: "FtCalc".to_string(),
        destroy_ffi_name: "ft_calc_destroy".to_string(),
        is_builder_type: false,
        methods: vec![
            CMethod {
                name: "add".to_string(),
                doc: vec![" Add.".to_string()],
                receiver: Receiver::Ref,
                params: vec![param("int32_t", "a")],
                ret: CReturn::Value("int32_t".to_string()),
                returns_builder_self: false,
                context: MethodContext::Exportable("ft_calc_add".to_string()),
            },
            method("other", Receiver::Ref, vec![], CReturn::Void, MethodContext::Trait { index: 0, ffi_name: "x".to_string() }),
        ],
    };
    let mut out = String::new();
    emit_type_section(&mut out, &ty, &b);
    assert_eq!(
        out,
        format!(
            "\n/* Calc {} */\n\n/** Add. */\nint32_t ft_calc_add(FtCalc handle, int32_t a);\nvoid ft_calc_destroy(FtCalc handle);\n",
            "-".repeat(62)
        )
    );
}

#[test]
fn vtable_reserves_missing_slots() {
    let b = blessed();
    let tr = VtableTrait {
        name: "Fruit".to_string(),
        handle_c_name: "FtFruit".to_string(),
        destroy_ffi_name: "ft_fruit_destroy".to_string(),
        type_tag_constant: "FT_FRUIT_TYPE_TAG".to_string(),
        vtable_struct_c_name: "FtFruitVtable".to_string(),
        methods: vec![
            method("name", Receiver::Ref, vec![], CReturn::Value("FtStr".to_string()), MethodContext::Trait { index: 0, ffi_name: "ft_fruit_name".to_string() }),
            method("weight", Receiver::Ref, vec![param("int32_t", "scale")], CReturn::Value("int32_t".to_string()), MethodContext::Trait { index: 2, ffi_name: "ft_fruit_weight".to_string() }),
        ],
        own_method_count: 2,
        max_vtable_slot: 2,
    };
    let mut out = String::new();
    emit_vtable_section(&mut out, &tr, Some(5), &b);
    let expected = [
        format!("\n/* FtFruitVtable {} */\n\n", "-".repeat(53)).as_str(),
        "#define FT_FRUIT_TYPE_TAG 5\n\n",
        "typedef struct {\n",
        "    void (*drop)(void* self_data);\n",
        "    FtStr (*name)(void* self_data);\n",
        "    void (*__reserved_1)(void); /* reserved slot 1 */\n",
        "    int32_t (*weight)(void* self_data, int32_t scale);\n",
        "} FtFruitVtable;\n",
    ]
    .concat();
    assert_eq!(out, expected);
}

#[test]
fn free_functions_use_void_for_no_params() {
    let b = blessed();
    let fs = vec![FreeFunctionDecl {
        name: "version".to_string(),
        ffi_name: "ft_version".to_string(),
        doc: vec![],
        params: vec![],
        ret: CReturn::Value("uint32_t".to_string()),
    }];
    let mut out = String::new();
    emit_free_functions(&mut out, &fs, &b);
    assert!(out.ends_with("uint32_t ft_version(void);\n"));
}

#[test]
fn shared_primitives_and_utilities() {
    let t = PrimitiveTypes {
        result_c: "KrunResult".to_string(),
        str_c: "KrunStr".to_string(),
        bytes_c: "KrunBytes".to_string(),
        path_c: None,
        vtable_handle_c: "KrunVtableHandle".to_string(),
    };
    let mut out = String::new();
    emit_shared_types(&mut out, "KRUN_", "krun_init_", &t);
    assert!(out.starts_with("#ifndef KRUN_PRIMITIVES_DEFINED\n#define KRUN_PRIMITIVES_DEFINED\n\ntypedef uint64_t KrunResult;\n"));
    assert!(out.contains("#define KRUN_RESULT_SUCCESS 0\n"));
    assert!(!out.contains("OS path"));
    assert!(out.ends_with("#endif /* KRUN_PRIMITIVES_DEFINED */\n\n/* Free an owned string returned by the library */\nvoid krun_init_str_free(KrunStr s);\n\n"));
    let mut u = String::new();
    emit_utility_functions(&mut u, "krun_", "KrunResult", "KrunStr");
    assert_eq!(u, "KrunStr krun_result_name(KrunResult r);\nconst char* krun_result_name_cstr(KrunResult r);\n");
}

#[test]
fn header_guards_from_file_names() {
    assert_eq!(guard_from_stem(Some("ffier-ft")), "FFIER_FT_H");
    assert_eq!(guard_from_stem(None), "FFIER_H");
    assert_eq!(default_guard("target/ffier-mylib.json"), "FFIER_MYLIB_H");
    assert_eq!(default_guard("ffier-ft.json"), "FFIER_FT_H");
}

#[test]
fn whole_header_of_a_small_library() {
    let lib = HeaderLibrary {
        prefix: "ft".to_string(),
        primitives_prefix: "ft".to_string(),
        primitives: PrimitiveTypes {
            result_c: "FtResult".to_string(),
            str_c: "FtStr".to_string(),
            bytes_c: "FtBytes".to_string(),
            path_c: Some("FtPath".to_string()),
            vtable_handle_c: "FtVtableHandle".to_string(),
        },
        blessed: blessed(),
        errors: vec![ErrorSection {
            decl: ErrorTypeDecl {
                name: "TestError".to_string(),
                variants: vec![ErrorVariantDecl { name: "NotFound".to_string(), c_name: "FT_ERROR_TEST_NOT_FOUND".to_string(), code: 1 }],
            },
            c_name: "FtTestError".to_string(),
            type_tag: 2,
        }],
        exported_types: vec![ExportedTypeDecl {
            name: "Widget".to_string(),
            c_name: "FtWidget".to_string(),
            destroy_ffi_name: "ft_widget_destroy".to_string(),
            is_builder_type: false,
            methods: vec![],
        }],
        trait_implementors: vec![],
        enum_constants: vec![],
        bitflags_constants: vec![],
        traits: vec![],
        trait_impls: vec![],
        free_functions: vec![],
    };
    let h = generate(&lib, "FT_H");
    assert!(h.starts_with(
        "#ifndef FT_H\n#define FT_H\n\n#include <stddef.h>\n#include <stdint.h>\n#include <stdbool.h>\n#include <string.h>\n\ntypedef void* FtTestError;\ntypedef void* FtWidget;\n\n#ifndef FT_PRIMITIVES_DEFINED\n"
    ));
    assert!(h.contains("typedef FtBytes FtPath;\n"));
    assert!(h.contains("#define FT_ERROR_TEST_NOT_FOUND ((uint64_t)2 << 32 | 1)\n"));
    assert!(h.contains("void ft_widget_destroy(FtWidget handle);\n"));
    assert!(!h.contains("Free functions"));
    assert!(h.ends_with("FtStr ft_result_name(FtResult r);\nconst char* ft_result_name_cstr(FtResult r);\n\n#endif /* FT_H */\n"));
}

#[test]
fn header_sections_follow_push_order() {
    let section = |name: &str, decl: &str| HeaderSection {
        struct_name: name.to_string(),
        handle_typedef: String::new(),
        declarations: decl.to_string(),
    };
    let base = || HeaderBuilder::new("G_H", String::new()).push(section("Alpha", "void a(void);\n"));
    let one = base().build();
    let with_empty = base().push(section("Nothing", "")).build();
    assert_eq!(with_empty, one);
    let two = base().push(section("Beta", "void b(void);\n")).build();
    let close = "\n#endif /* G_H */\n";
    let body = &one[..one.len() - close.len()];
    let expected = format!("{body}\n/* Beta {} */\n\nvoid b(void);\n{close}", "-".repeat(62));
    assert_eq!(two, expected);
    let a_at = two.find("/* Alpha").unwrap();
    let b_at = two.find("/* Beta").unwrap();
    assert!(a_at < b_at);
}
