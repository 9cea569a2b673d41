use ffier::dispatch::{
    accepted_types, build_trait_map, plan_dispatch, DispatchError, DispatchMode, ImplTraitArg, ImplementableEntry, TraitImplEntry, TraitMap,
};

fn imp(trait_name: &str, struct_name: &str) -> TraitImplEntry {
    TraitImplEntry {
        trait_name: trait_name.to_string(),
        struct_name: struct_name.to_string(),
        struct_path: format!("crate::{struct_name}"),
    }
}

fn implementable(trait_name: &str) -> ImplementableEntry {
    ImplementableEntry {
        trait_name: trait_name.to_string(),
        trait_path: format!("crate::{trait_name}"),
        wrapper_path: format!("crate::Vtable{trait_name}"),
    }
}

fn arg(name: &str, trait_name: &str, dispatch: DispatchMode) -> ImplTraitArg {
    ImplTraitArg { name: name.to_string(), trait_name: trait_name.to_string(), dispatch }
}

fn fruit_map() -> TraitMap {
    build_trait_map(
        &[imp("Fruit", "Apple"), imp("Shape", "Circle"), imp("Fruit", "Pear"), imp("Shape", "Square")],
        &[implementable("Fruit")],
    )
}

#[test]
fn trait_map_lists_impls_then_wrapper() {
    let m = fruit_map();
    assert_eq!(m.traits.len(), 2);
    let fruit = m.get("Fruit").unwrap();
    let names: Vec<&str> = fruit.variants.iter().map(|v| v.name.as_str()).collect();
    assert_eq!(names, vec!["Apple", "Pear", "VtableFruit"]);
    let paths: Vec<&str> = fruit.variants.iter().map(|v| v.bridge_type.as_str()).collect();
    assert_eq!(paths, vec!["crate::Apple", "crate::Pear", "crate::VtableFruit"]);
    assert_eq!(fruit.implementable, Some(0));
    let shape = m.get("Shape").unwrap();
    assert_eq!(shape.variants.len(), 2);
    assert_eq!(shape.implementable, None);
    assert!(m.get("Color").is_none());
}

#[test]
fn trait_map_of_implementable_alone() {
    let m = build_trait_map(&[], &[implementable("PushStr"), implementable("PushStr")]);
    assert_eq!(m.traits.len(), 1);
    let p = m.get("PushStr").unwrap();
    let names: Vec<&str> = p.variants.iter().map(|v| v.name.as_str()).collect();
    assert_eq!(names, vec!["VtablePushStr", "VtablePushStr"]);
    assert_eq!(p.implementable, Some(1));
}

#[test]
fn dispatch_within_limit_matches_by_type() {
    let m = fruit_map();
    let args = vec![
        arg("f", "Fruit", DispatchMode::Auto),
        arg("s", "Shape", DispatchMode::Auto),
        arg("w", "Writer", DispatchMode::Auto),
    ];
    let plan = plan_dispatch(&args, &m, 6).ok().unwrap();
    assert_eq!(plan.total_branches, 6);
    assert_eq!(plan.vtable, vec![Some(false), Some(false), None]);
}

#[test]
fn dispatch_beyond_limit_with_auto_refused() {
    let m = fruit_map();
    let args = vec![arg("f", "Fruit", DispatchMode::Auto), arg("s", "Shape", DispatchMode::Concrete)];
    match plan_dispatch(&args, &m, 5) {
        Err(e) => {
            assert!(matches!(e, DispatchError::TooManyBranches { total: 6 }));
            assert_eq!(
                e.message("ex_widget_mix", 5),
                "ffier: `ex_widget_mix` would generate 6 dispatch branches (limit: 5). Add `#[ffier(dispatch = vtable)]` to the impl Trait param(s) or `#[ffier(dispatch = concrete)]` to override the limit."
            );
        }
        Ok(_) => panic!("too many branches with an auto parameter"),
    }
}

#[test]
fn dispatch_concrete_overrides_limit() {
    let m = fruit_map();
    let args = vec![arg("f", "Fruit", DispatchMode::Concrete), arg("s", "Shape", DispatchMode::Concrete)];
    let plan = plan_dispatch(&args, &m, 1).ok().unwrap();
    assert_eq!(plan.total_branches, 6);
    assert_eq!(plan.vtable, vec![Some(false), Some(false)]);
}

#[test]
fn dispatch_hybrid_keeps_first_auto_concrete() {
    let m = fruit_map();
    let args = vec![
        arg("a", "Shape", DispatchMode::Concrete),
        arg("b", "Fruit", DispatchMode::Vtable),
        arg("c", "Shape", DispatchMode::Auto),
        arg("d", "Fruit", DispatchMode::Auto),
    ];
    let plan = plan_dispatch(&args, &m, 100).ok().unwrap();
    assert_eq!(plan.total_branches, 2 * 2 * 3);
    assert_eq!(plan.vtable, vec![Some(false), Some(true), Some(false), Some(true)]);
}

#[test]
fn dispatch_vtable_needs_implementable() {
    let m = fruit_map();
    let args = vec![arg("f", "Fruit", DispatchMode::Vtable), arg("shape", "Shape", DispatchMode::Vtable)];
    match plan_dispatch(&args, &m, 100) {
        Err(e) => {
            match &e {
                DispatchError::NotImplementable { param, trait_name } => {
                    assert_eq!(param, "shape");
                    assert_eq!(trait_name, "Shape");
                }
                _ => panic!("the shape parameter is refused"),
            }
            assert_eq!(
                e.message("ex_draw", 100),
                "ffier: `#[ffier(dispatch = vtable)]` on param `shape` requires trait `Shape` to have `#[ffier::implementable]`"
            );
        }
        Ok(_) => panic!("a vtable without an implementable trait is refused"),
    }
}

#[test]
fn dispatch_without_trait_params() {
    let m = fruit_map();
    let plan = plan_dispatch(&[], &m, 0).ok().unwrap();
    assert_eq!(plan.total_branches, 1);
    assert!(plan.vtable.is_empty());
}

#[test]
fn accepted_types_listed() {
    let m = fruit_map();
    assert_eq!(accepted_types(m.get("Fruit").unwrap()), "Apple | Pear | VtableFruit");
    assert_eq!(accepted_types(m.get("Shape").unwrap()), "Circle | Square");
}
