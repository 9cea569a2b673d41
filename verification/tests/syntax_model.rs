use ffier::library::{plan_library, LibraryEntry, LibraryError};
use ffier::syntax::{
    collect_reexport_paths, extract_impl_trait_info, extract_result_types, is_primitive, is_str_slice, is_unit_type,
    meta_alias_for_type, to_chain_path, type_ident_name, GenericArgument, PathArguments, PathSegment, SimplePath,
    TypeBound, TypeExpr, TypePath, TypeReference, UseTree,
};

fn ident_path(name: &str) -> TypeExpr {
    TypeExpr::Path(TypePath { segments: vec![PathSegment { ident: name.to_string(), arguments: PathArguments::Bare }] })
}

fn reference(elem: TypeExpr) -> TypeExpr {
    TypeExpr::Reference(TypeReference { lifetime: None, mutable: false, elem: Box::new(elem) })
}

fn simple(segs: &[&str]) -> SimplePath {
    SimplePath { segments: segs.iter().map(|s| s.to_string()).collect() }
}

fn names(p: &SimplePath) -> Vec<&str> {
    p.segments.iter().map(|s| s.as_str()).collect()
}

#[test]
fn detects_str_slices_and_units() {
    let str_slice = reference(TypeExpr::Slice(Box::new(reference(ident_path("str")))));
    assert!(is_str_slice(&str_slice));
    let u8_slice = reference(TypeExpr::Slice(Box::new(ident_path("u8"))));
    assert!(!is_str_slice(&u8_slice));
    assert!(!is_str_slice(&reference(ident_path("str"))));
    assert!(is_unit_type(&TypeExpr::Tuple(vec![])));
    assert!(!is_unit_type(&TypeExpr::Tuple(vec![ident_path("i32")])));
    assert!(!is_unit_type(&ident_path("i32")));
}

#[test]
fn names_and_primitives() {
    let path = TypeExpr::Path(TypePath {
        segments: vec![
            PathSegment { ident: "crate".to_string(), arguments: PathArguments::Bare },
            PathSegment { ident: "CalcError".to_string(), arguments: PathArguments::Bare },
        ],
    });
    assert_eq!(type_ident_name(&path), "CalcError");
    assert_eq!(type_ident_name(&TypeExpr::Tuple(vec![])), "Error");
    assert!(is_primitive(&ident_path("u64")));
    assert!(is_primitive(&ident_path("f32")));
    assert!(!is_primitive(&ident_path("String")));
    assert!(!is_primitive(&path));
    assert!(!is_primitive(&reference(ident_path("i32"))));
}

#[test]
fn result_types() {
    let result = TypeExpr::Path(TypePath {
        segments: vec![PathSegment {
            ident: "Result".to_string(),
            arguments: PathArguments::AngleBracketed(vec![
                GenericArgument::Type(ident_path("i32")),
                GenericArgument::Type(ident_path("CalcError")),
            ]),
        }],
    });
    let (ok, err) = extract_result_types(&result).unwrap();
    assert_eq!(type_ident_name(ok), "i32");
    assert_eq!(type_ident_name(err), "CalcError");
    assert!(extract_result_types(&ident_path("Result")).is_none());
    assert!(extract_result_types(&ident_path("Option")).is_none());
}

#[test]
fn impl_trait_info() {
    let ty = TypeExpr::ImplTrait(vec![
        TypeBound::Other("'a".to_string()),
        TypeBound::Trait(TypePath {
            segments: vec![PathSegment {
                ident: "Snapshot".to_string(),
                arguments: PathArguments::AngleBracketed(vec![
                    GenericArgument::Lifetime("a".to_string()),
                    GenericArgument::Type(ident_path("T")),
                ]),
            }],
        }),
    ]);
    assert_eq!(extract_impl_trait_info(&ty), Some(("Snapshot".to_string(), vec!["a".to_string()])));
    assert_eq!(extract_impl_trait_info(&ident_path("Snapshot")), None);
}

#[test]
fn metadata_alias_paths() {
    let p = simple(&["a", "b", "Foo"]);
    assert_eq!(names(&meta_alias_for_type(&p)), vec!["a", "b", "__ffier_meta_Foo"]);
    assert_eq!(names(&to_chain_path(&simple(&["__ffier_meta_Foo"]))), vec!["$crate", "__ffier_meta_Foo"]);
    assert_eq!(names(&to_chain_path(&simple(&["crate", "a", "__ffier_meta_Foo"]))), vec!["$crate", "a", "__ffier_meta_Foo"]);
    assert_eq!(names(&to_chain_path(&simple(&["other", "__ffier_meta_Foo"]))), vec!["other", "__ffier_meta_Foo"]);
}

#[test]
fn reexports_of_a_use_tree() {
    let tree = UseTree::Path {
        ident: "other_crate".to_string(),
        tree: Box::new(UseTree::Group(vec![
            UseTree::Name("Calculator".to_string()),
            UseTree::Rename { ident: "X".to_string(), rename: "Y".to_string() },
            UseTree::Glob,
            UseTree::Path { ident: "inner".to_string(), tree: Box::new(UseTree::Name("Thing".to_string())) },
        ])),
    };
    let mut prefix = Vec::new();
    let mut out = Vec::new();
    collect_reexport_paths(&tree, &mut prefix, &mut out);
    assert!(prefix.is_empty());
    assert_eq!(
        out,
        vec![
            vec!["other_crate".to_string(), "__ffier_meta_Calculator".to_string()],
            vec!["other_crate".to_string(), "inner".to_string(), "__ffier_meta_Thing".to_string()],
        ]
    );
}

#[test]
fn library_plan_names() {
    let entries = vec![
        LibraryEntry::Tagged(simple(&["Calculator"]), 1),
        LibraryEntry::TaggedTrait(simple(&["ffier_builtins", "PushStr"]), 3),
        LibraryEntry::TraitImpl { trait_path: simple(&["Device"]), struct_path: simple(&["crate", "net", "NetDevice"]) },
    ];
    let plan = plan_library("mylib", &entries).unwrap();
    assert_eq!(plan.tag_consts, vec![("__ffier_type_tag_Calculator".to_string(), 1)]);
    assert_eq!(plan.shim_names, vec!["__ffier_tagged_mylib_Calculator".to_string(), "__ffier_tagged_mylib_PushStr".to_string()]);
    assert_eq!(plan.chain_paths.len(), 3);
    assert_eq!(names(&plan.chain_paths[0]), vec!["$crate", "__ffier_tagged_mylib_Calculator"]);
    assert_eq!(names(&plan.chain_paths[1]), vec!["$crate", "__ffier_tagged_mylib_PushStr"]);
    assert_eq!(names(&plan.chain_paths[2]), vec!["$crate", "net", "__ffier_meta_Device_for_NetDevice"]);
    assert_eq!(plan.trait_reexports.len(), 2);
    assert_eq!(names(&plan.trait_reexports[0]), vec!["ffier_builtins", "PushStr"]);
    assert_eq!(names(&plan.trait_reexports[1]), vec!["ffier_builtins", "PushStrVtable"]);
    assert_eq!(plan.entry_macro_name, "__ffier_mylib_library");
    let err = plan_library("mylib", &[]).err().unwrap();
    assert_eq!(err, LibraryError::NoEntries);
    assert_eq!(err.message(), "library_definition! requires at least one type");
}

#[test]
fn library_zero_tag_refused() {
    let entries = vec![
        LibraryEntry::Tagged(simple(&["Calculator"]), 1),
        LibraryEntry::TaggedTrait(simple(&["Fruit"]), 0),
    ];
    let err = plan_library("mylib", &entries).err().unwrap();
    assert_eq!(err, LibraryError::ZeroTag);
    assert_eq!(err.message(), "type tag must be nonzero (0 is reserved)");
}
