use ffier::batch::{batch_order, type_tag_table, TagError, TaggedType};

fn s(v: &[&str]) -> Vec<String> {
    v.iter().map(|x| x.to_string()).collect()
}

fn t(name: &str, tag: u32) -> TaggedType {
    TaggedType { name: name.to_string(), type_tag: tag }
}

#[test]
fn batch_sorted_by_category() {
    let tags = s(&["trait_impl", "exportable", "error", "implementable", "exportable", "error"]);
    let order = batch_order(&tags).ok().unwrap();
    assert_eq!(order, vec![2, 5, 1, 4, 3, 0]);
    assert!(batch_order(&[]).ok().unwrap().is_empty());
}

#[test]
fn batch_value_types_and_free_functions_come_last() {
    let tags = s(&["free_fn", "bitflags_constants", "enum_constants", "trait_impl", "error", "free_fn", "enum_constants"]);
    let order = batch_order(&tags).ok().unwrap();
    assert_eq!(order, vec![4, 3, 2, 6, 1, 0, 5]);
    let tags = s(&["error", "free_fn"]);
    assert_eq!(batch_order(&tags).ok().unwrap(), vec![0, 1]);
}

#[test]
fn batch_unknown_tag_refused() {
    let tags = s(&["error", "widget", "gadget"]);
    match batch_order(&tags) {
        Err(msg) => assert_eq!(msg, "unknown metadata tag `@widget` in batch"),
        Ok(_) => panic!("an unknown tag is refused"),
    }
}

#[test]
fn tag_table_sorted_by_tag() {
    let table = type_tag_table(&[t("CalcError", 3)], &[t("Calculator", 1), t("Widget", 7)], &[t("Fruit", 2)]).ok().unwrap();
    let names: Vec<(u32, &str)> = table.iter().map(|(tag, n)| (*tag, n.as_str())).collect();
    assert_eq!(names, vec![(1, "Calculator"), (2, "VtableFruit"), (3, "CalcError"), (7, "Widget")]);
    assert!(type_tag_table(&[], &[], &[]).ok().unwrap().is_empty());
}

#[test]
fn tag_missing_refused() {
    match type_tag_table(&[t("CalcError", 3)], &[t("Calculator", 1)], &[t("Fruit", 0)]) {
        Err(e) => {
            assert!(matches!(&e, TagError::Missing { name, hint } if name == "VtableFruit" && hint == "trait Fruit = N"));
            assert_eq!(e.message(), "type `VtableFruit` has no type tag; add `trait Fruit = N` in library_definition!()");
        }
        Ok(_) => panic!("a type without a tag is refused"),
    }
    match type_tag_table(&[], &[t("Calculator", 0)], &[]) {
        Err(e) => assert_eq!(e.message(), "type `Calculator` has no type tag; add `Calculator = N` in library_definition!()"),
        Ok(_) => panic!("a type without a tag is refused"),
    }
}

#[test]
fn tag_duplicate_refused() {
    match type_tag_table(&[t("CalcError", 4)], &[t("Calculator", 1), t("Widget", 4)], &[t("Fruit", 1)]) {
        Err(e) => {
            assert!(matches!(&e, TagError::Duplicate { tag: 4, first, second } if first == "CalcError" && second == "Widget"));
            assert_eq!(e.message(), "duplicate type tag 4: used by both `CalcError` and `Widget`");
        }
        Ok(_) => panic!("a shared tag is refused"),
    }
}
