use ffier::client_gen::ClientLibrary;
use ffier::bridge::{CTypeResolver, RefKind};
use ffier::convert::{
    convert_bitflags, convert_enum, convert_error, convert_param, convert_return, destroy_ffi_name, implementable_names,
    is_builder_type, trait_method_ffi_name, MetaEnum, MetaError, MetaErrorVariant, MetaParam, MetaParamKind, MetaReceiver,
    MetaReturn, MetaVariant, MethodShape, ParamType, SchemaReturn,
};
use ffier::schema::{build_type_registry, Blessing, EnumMeta, ErrorMeta, HandleMeta, TraitImplMeta, TraitMeta, TypeEntry, TypeKind, TypeRegistry};

fn s(x: &str) -> String {
    x.to_string()
}

fn c_name_of(reg: &TypeRegistry, name: &str) -> Option<String> {
    reg.get(name).map(|e| match &e.kind {
        TypeKind::Primitive { c_type } => c_type.clone(),
        TypeKind::Str { c_name }
        | TypeKind::Bytes { c_name }
        | TypeKind::Handle { c_name }
        | TypeKind::Error { c_name }
        | TypeKind::Trait { c_name } => c_name.clone(),
        TypeKind::Enum { alias_of } | TypeKind::Bitflags { alias_of } | TypeKind::Alias { alias_of } => alias_of.clone(),
    })
}

#[test]
fn registry_holds_builtins_and_library_types() {
    let reg = build_type_registry(
        "ft",
        &[EnumMeta { name: s("Color"), repr: s("u32") }],
        &[EnumMeta { name: s("Perms"), repr: s("u8") }],
        &[HandleMeta { name: s("Widget"), type_tag: 1, lifetimes: vec![s("a")] }],
        &[ErrorMeta { name: s("TestError"), type_tag: 2 }],
        &[TraitMeta { name: s("PushStr"), type_tag: 3, bless: Some(s("push_str")), lifetimes: vec![] }],
        &[
            TraitImplMeta { trait_name: s("PushStr"), trait_lifetime_args: vec![] },
            TraitImplMeta { trait_name: s("Snapshot"), trait_lifetime_args: vec![s("static"), s("b")] },
        ],
        "Self",
    );
    assert_eq!(c_name_of(&reg, "i32"), Some(s("int32_t")));
    assert_eq!(c_name_of(&reg, "f64"), Some(s("double")));
    assert_eq!(c_name_of(&reg, "str"), Some(s("FtStr")));
    assert_eq!(c_name_of(&reg, "[u8]"), Some(s("FtBytes")));
    assert_eq!(c_name_of(&reg, "FfierResult"), Some(s("FtResult")));
    assert_eq!(c_name_of(&reg, "BorrowedFd"), Some(s("RawFd")));
    assert_eq!(reg.get("BorrowedFd").unwrap().lifetime_params, vec![s("fd")]);
    assert_eq!(c_name_of(&reg, "Color"), Some(s("u32")));
    assert_eq!(c_name_of(&reg, "Widget"), Some(s("FtWidget")));
    assert_eq!(reg.get("Widget").unwrap().type_tag, Some(1));
    assert_eq!(c_name_of(&reg, "TestError"), Some(s("FtTestError")));
    let push = reg.get("PushStr").unwrap();
    assert_eq!(push.type_tag, Some(3));
    assert_eq!(push.bless, Some(Blessing::PushStr));
    let snap = reg.get("Snapshot").unwrap();
    assert_eq!(snap.type_tag, None);
    assert_eq!(snap.lifetime_params, vec![s("b")]);
    assert_eq!(c_name_of(&reg, "Self"), Some(s("void")));
    assert_eq!(reg.get("Self").unwrap().bless, Some(Blessing::ReplacesSelf));
    assert!(reg.get("Missing").is_none());
    // 13 primitives, 8 framework types, 6 library types, and `Self`.
    assert_eq!(reg.len(), 28);
}

#[test]
fn registry_insert_replaces() {
    let mut reg = TypeRegistry::new();
    reg.insert(s("X"), ffier::schema::TypeEntry { kind: TypeKind::Primitive { c_type: s("int") }, type_tag: None, bless: None, lifetime_params: vec![] });
    reg.insert(s("X"), ffier::schema::TypeEntry { kind: TypeKind::Primitive { c_type: s("long") }, type_tag: Some(4), bless: None, lifetime_params: vec![] });
    reg.insert_if_absent(s("X"), ffier::schema::TypeEntry { kind: TypeKind::Primitive { c_type: s("char") }, type_tag: None, bless: None, lifetime_params: vec![] });
    assert_eq!(reg.len(), 1);
    assert_eq!(c_name_of(&reg, "X"), Some(s("long")));
    assert_eq!(reg.get("X").unwrap().type_tag, Some(4));
}

#[test]
fn conversions_name_constants() {
    let r = CTypeResolver::new("ft");
    let en = convert_enum(&MetaEnum { name: s("Color"), variants: vec![MetaVariant { name: s("DarkRed"), value: 3 }] }, &r);
    assert_eq!(en.variants[0].c_name, "FT_COLOR_DARK_RED");
    assert_eq!(en.variants[0].value, 3);
    let bf = convert_bitflags(&MetaEnum { name: s("FilePerms"), variants: vec![MetaVariant { name: s("READ"), value: 1 }] }, &r);
    assert_eq!(bf.variants[0].c_name, "FT_FILE_PERMS_READ");
    let err = convert_error(
        &MetaError {
            name: s("TestError"),
            variants: vec![MetaErrorVariant { name: s("Io"), code: 2, message: None, field_types: vec![s("Box < str >")] }],
        },
        &r,
    );
    assert_eq!(err.variants[0].c_name, "FT_ERROR_TEST_IO");
    assert_eq!(err.variants[0].code, 2);
    assert!(err.variants[0].fields[0].owned);
    assert_eq!(destroy_ffi_name(&r, "MyWidget"), "ft_my_widget_destroy");
    let names = implementable_names(&r, "PushStr");
    assert_eq!(names.destroy_ffi_name, "ft_push_str_destroy");
    assert_eq!(names.type_tag_constant, "FT_PUSH_STR_TYPE_TAG");
    assert_eq!(names.vtable_struct_c_name, "FtPushStrVtable");
    assert_eq!(names.wrapper_c_name, "FtVtablePushStr");
    assert_eq!(names.vtable_struct_name, "PushStrVtable");
    assert_eq!(names.wrapper_name, "VtablePushStr");
    assert_eq!(names.ffi_prefix, "push_str_");
    assert_eq!(trait_method_ffi_name(&r, "push_str_", "push"), "ft_push_str_push");
    assert!(is_builder_type(&[
        MethodShape { is_builder: true, receiver: MetaReceiver::Mut },
        MethodShape { is_builder: true, receiver: MetaReceiver::Value },
    ]));
    assert!(!is_builder_type(&[MethodShape { is_builder: true, receiver: MetaReceiver::Ref }]));
}

#[test]
fn conversions_of_params_and_returns() {
    let r = CTypeResolver::new("ft");
    let p = convert_param(&MetaParam { name: s("parts"), kind: MetaParamKind::StrSlice }, &r);
    match p.param_type {
        ParamType::Slice { element, c_params } => {
            assert_eq!(element.name, "str");
            assert_eq!(element.ref_kind, RefKind::Shared);
            assert_eq!(c_params[0].c_type, "const FtStr*");
            assert_eq!(c_params[0].name, "parts");
            assert_eq!(c_params[1].c_type, "size_t");
            assert_eq!(c_params[1].name, "parts_len");
        }
        _ => panic!("expected a slice"),
    }
    let q = convert_param(&MetaParam { name: s("w"), kind: MetaParamKind::Regular(s("& mut Widget")) }, &r);
    match q.param_type {
        ParamType::Regular(t) => assert_eq!(t.ref_kind, RefKind::Mut),
        _ => panic!("expected a regular parameter"),
    }
    match convert_return(&MetaReturn::Void, &r, true, "Self") {
        SchemaReturn::Value(t) => assert_eq!(t.name, "Self"),
        _ => panic!("expected Self"),
    }
    assert!(matches!(convert_return(&MetaReturn::Void, &r, false, "Self"), SchemaReturn::Void));
    match convert_return(&MetaReturn::Result { ok: None, err_ident: s("E") }, &r, false, "Self") {
        SchemaReturn::Result { ok, err_type } => {
            assert!(ok.is_none());
            assert_eq!(err_type, "E");
        }
        _ => panic!("expected a result"),
    }
}

#[test]
fn blessed_types_found_by_blessing() {
    let entry = |kind: TypeKind, bless: Option<Blessing>| TypeEntry { kind, type_tag: None, bless, lifetime_params: vec![] };
    let mut reg = TypeRegistry::new();
    reg.insert("i32".to_string(), entry(TypeKind::Primitive { c_type: "int32_t".to_string() }, None));
    reg.insert("RawFd".to_string(), entry(TypeKind::Primitive { c_type: "int".to_string() }, Some(Blessing::RawFd)));
    reg.insert("Error".to_string(), entry(TypeKind::Trait { c_name: "FtError".to_string() }, Some(Blessing::ErrorTrait)));
    reg.insert("PushStr".to_string(), entry(TypeKind::Trait { c_name: "FtPushStr".to_string() }, Some(Blessing::PushStr)));
    assert_eq!(reg.blessed(Blessing::RawFd), Some("RawFd".to_string()));
    assert_eq!(reg.blessed(Blessing::OwnedFd), None);
    let lib = ClientLibrary::new("ft".to_string(), reg, vec![], vec![], vec![], vec![], vec![], vec![], vec![]);
    assert_eq!(lib.raw_fd, Some("RawFd".to_string()));
    assert_eq!(lib.borrowed_fd, None);
    assert_eq!(lib.owned_fd, None);
    assert_eq!(lib.error_trait, Some("Error".to_string()));
    assert_eq!(lib.push_str_trait, Some("PushStr".to_string()));
}
