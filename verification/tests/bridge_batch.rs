use ffier::bridge_batch::{debug_fn_text, dispatch_helpers_text, header_assembly_text};
use ffier::dispatch::{build_trait_map, ImplementableEntry, TraitImplEntry};

fn imp(trait_name: &str, struct_name: &str) -> TraitImplEntry {
    TraitImplEntry {
        trait_name: trait_name.to_string(),
        struct_name: struct_name.to_string(),
        struct_path: format!("crate::{struct_name}"),
    }
}

#[test]
fn dispatch_helpers_name_tags_and_accepted_types() {
    let m = build_trait_map(
        &[imp("Fruit", "Apple"), imp("Fruit", "Orange")],
        &[ImplementableEntry {
            trait_name: "Fruit".to_string(),
            trait_path: "crate::Fruit".to_string(),
            wrapper_path: "crate::VtableFruit".to_string(),
        }],
    );
    let table = vec![(1u32, "Apple".to_string()), (2u32, "Orange".to_string()), (10u32, "VtableFruit".to_string())];
    let s = dispatch_helpers_text(&table, &m);
    let lookup_fn = "fn __ffier_type_name(tag: u32) -> &'static str {\n    match tag {\n        1 => \"Apple\",\n        2 => \"Orange\",\n        10 => \"VtableFruit\",\n        _ => \"unknown\",\n    }\n}\n\n";
    assert!(s.starts_with(lookup_fn));
    assert!(s.contains("fn __ffier_dispatch_panic(fn_name: &str, expected: &str, accepted: &str, actual_tag: u32) -> ! {\n"));
    assert!(s.contains("panic!(\"{}(): expected {}, got {} (type_tag={})\", fn_name, expected, actual_name, actual_tag);"));
    assert!(s.ends_with("}\n\nconst __FFIER_ACCEPTED_Fruit: &str = \"Apple | Orange | VtableFruit\";\n"));
}

#[test]
fn dispatch_helpers_of_empty_library() {
    let m = build_trait_map(&[], &[]);
    let s = dispatch_helpers_text(&[], &m);
    assert!(s.starts_with("fn __ffier_type_name(tag: u32) -> &'static str {\n    match tag {\n        _ => \"unknown\",\n    }\n}\n"));
    assert!(!s.contains("__FFIER_ACCEPTED_"));
}

#[test]
fn debug_function_names_handle_type() {
    let s = debug_fn_text("ft");
    assert!(s.starts_with(
        "#[unsafe(no_mangle)]\npub unsafe extern \"C\" fn ft_debug_handle_type(handle: *const core::ffi::c_void) -> ffier::FfierBytes {\n"
    ));
    assert!(s.contains("return unsafe { ffier::FfierBytes::from_str(\"null\") };"));
    assert!(s.contains("    let name = __ffier_type_name(tag);\n"));
}

#[test]
fn header_assembly_pushes_sections_in_order() {
    let names = vec!["ft_calc_error__header".to_string(), "ft_widget__header".to_string(), "ft_fruit__dispatch_header".to_string()];
    assert_eq!(
        header_assembly_text(&names),
        "pub fn __ffier_header(guard: &str) -> ffier_gen_c::HeaderBuilder {\n\
\x20   ffier_gen_c::HeaderBuilder::new(guard, __ffier_shared_types())\n\
\x20       .push(ft_calc_error__header())\n\
\x20       .push(ft_widget__header())\n\
\x20       .push(ft_fruit__dispatch_header())\n\
}\n"
    );
}
