use ffier::method_sig::{MethodSig, SigInput, SigParam, SigReceiver};
use ffier::syntax::{PathArguments, PathSegment, TypeExpr, TypePath};
use ffier::vtable_methods::{
    extract_vtable_methods, max_vtable_slot, parse_ffier_method_attrs, parse_ffier_param_dispatch, ParamAttr, vtable_field_name, vtable_layout, FfierAttrItem, VtableError, VtableField,
    VtableMethodItem,
};

fn ident(name: &str) -> TypeExpr {
    TypeExpr::Path(TypePath { segments: vec![PathSegment { ident: name.to_string(), arguments: PathArguments::Bare }] })
}

fn method(name: &str, receiver: bool, attrs: Vec<FfierAttrItem>, has_default: bool) -> VtableMethodItem {
    let mut inputs = Vec::new();
    if receiver {
        inputs.push(SigInput::Receiver(SigReceiver::SelfRef));
    }
    inputs.push(SigInput::Typed(SigParam { name: Some("x".to_string()), ty: ident("i32"), dispatch: None }));
    VtableMethodItem {
        sig: MethodSig { name: name.to_string(), inputs, output: Some(ident("i32")), lifetimes: vec![], doc_lines: vec![] },
        has_default,
        attrs,
    }
}

#[test]
fn attrs_later_keys_win() {
    let a = parse_ffier_method_attrs(&[
        FfierAttrItem::Index(3),
        FfierAttrItem::Dispatch("dyn".to_string()),
        FfierAttrItem::Index(5),
        FfierAttrItem::RawHandle,
    ])
    .ok()
    .unwrap();
    assert_eq!(a.index, Some(5));
    assert!(a.raw_handle);
    assert_eq!(a.dispatch.as_deref(), Some("dyn"));
    assert!(!a.skip);
    let empty = parse_ffier_method_attrs(&[]).ok().unwrap();
    assert_eq!(empty.index, None);
    assert!(!empty.raw_handle && !empty.skip && empty.dispatch.is_none());
}

#[test]
fn attrs_unknown_key_refused() {
    let e = parse_ffier_method_attrs(&[FfierAttrItem::Skip, FfierAttrItem::Unknown("indx".to_string()), FfierAttrItem::Index(1)]);
    match e {
        Err(msg) => assert_eq!(msg, "unknown #[ffier] key `indx`"),
        Ok(_) => panic!("an unknown key is refused"),
    }
}

#[test]
fn vtable_methods_in_order_with_slots() {
    let items = vec![
        method("area", true, vec![FfierAttrItem::Index(0)], false),
        method("new", false, vec![], false),
        method("scale", true, vec![FfierAttrItem::Index(2)], true),
    ];
    let supers = vec![vec![method("describe", true, vec![FfierAttrItem::Index(1)], true)]];
    let ms = extract_vtable_methods(&items, &supers, &vec![3]).ok().unwrap();
    let names: Vec<&str> = ms.iter().map(|m| m.name.as_str()).collect();
    assert_eq!(names, vec!["area", "scale", "describe"]);
    let slots: Vec<usize> = ms.iter().map(|m| m.index).collect();
    assert_eq!(slots, vec![0, 2, 1]);
    assert!(!ms[0].has_default);
    assert!(ms[1].has_default);
    assert!(!ms[2].has_default);
}

#[test]
fn vtable_missing_slot_refused() {
    let items = vec![method("area", true, vec![FfierAttrItem::Index(0)], false)];
    let supers = vec![vec![method("describe", true, vec![], false)]];
    match extract_vtable_methods(&items, &supers, &vec![]) {
        Err(e) => {
            assert_eq!(e.message(), "supertrait vtable method `describe` is missing `#[ffier(index = N)]`");
            assert!(matches!(e, VtableError::MissingIndex { method, supertrait: true } if method == "describe"));
        }
        _ => panic!("a supertrait method without a slot is refused"),
    }
    let own = vec![method("area", true, vec![], false)];
    match extract_vtable_methods(&own, &vec![], &vec![]) {
        Err(e) => {
            assert_eq!(e.message(), "vtable method `area` is missing `#[ffier(index = N)]`");
            assert!(matches!(e, VtableError::MissingIndex { method, supertrait: false } if method == "area"));
        }
        _ => panic!("a method without a slot is refused"),
    }
}

#[test]
fn vtable_duplicate_slot_refused() {
    let items = vec![
        method("a", true, vec![FfierAttrItem::Index(0)], false),
        method("b", true, vec![FfierAttrItem::Index(1)], false),
        method("c", true, vec![FfierAttrItem::Index(1)], false),
        method("d", true, vec![FfierAttrItem::Index(0)], false),
    ];
    match extract_vtable_methods(&items, &vec![], &vec![1]) {
        Err(e) => {
            assert_eq!(e.message(), "duplicate vtable index 1: both `b` and `c` use index 1");
            assert!(matches!(e, VtableError::DuplicateIndex { index: 1, first, second } if first == "b" && second == "c"));
        }
        _ => panic!("a shared slot is refused before a retired one"),
    }
}

#[test]
fn vtable_reserved_slot_refused() {
    let items = vec![
        method("a", true, vec![FfierAttrItem::Index(0)], false),
        method("b", true, vec![FfierAttrItem::Index(4)], false),
    ];
    match extract_vtable_methods(&items, &vec![], &vec![2, 4]) {
        Err(e) => {
            assert_eq!(e.message(), "vtable index 4 is reserved (retired slot) but used by method `b`");
            assert!(matches!(e, VtableError::ReservedIndex { index: 4, method } if method == "b"));
        }
        _ => panic!("a retired slot is refused"),
    }
}

#[test]
fn vtable_attr_error_comes_first() {
    let items = vec![
        method("a", true, vec![FfierAttrItem::Index(0)], false),
        method("b", true, vec![FfierAttrItem::Unknown("slot".to_string())], false),
    ];
    match extract_vtable_methods(&items, &vec![], &vec![]) {
        Err(VtableError::Attr(msg)) => assert_eq!(msg, "unknown #[ffier] key `slot`"),
        _ => panic!("an unknown key is refused"),
    }
}

#[test]
fn vtable_layout_pads_gaps_and_retired_slots() {
    let items = vec![
        method("area", true, vec![FfierAttrItem::Index(0)], false),
        method("scale", true, vec![FfierAttrItem::Index(3)], true),
        method("raw_peek", true, vec![FfierAttrItem::Index(5), FfierAttrItem::RawHandle], false),
    ];
    let reserved = vec![1, 7];
    let ms = extract_vtable_methods(&items, &vec![], &reserved).ok().unwrap();
    assert_eq!(ms.len(), 3);
    assert!(ms[2].raw_handle);
    let layout = vtable_layout(&ms, &reserved);
    assert_eq!(
        layout,
        vec![
            VtableField::Method(0),
            VtableField::Reserved(1),
            VtableField::Reserved(2),
            VtableField::Method(1),
            VtableField::Reserved(4),
            VtableField::Reserved(5),
            VtableField::Reserved(6),
            VtableField::Reserved(7),
        ]
    );
    let names: Vec<String> = layout.iter().map(|f| vtable_field_name(&ms, f)).collect();
    assert_eq!(
        names,
        vec!["area", "__reserved_1", "__reserved_2", "scale", "__reserved_4", "__reserved_5", "__reserved_6", "__reserved_7"]
    );
    assert_eq!(max_vtable_slot(&ms, &reserved), 7);
}

#[test]
fn vtable_layout_ends_at_last_method() {
    let items = vec![
        method("b", true, vec![FfierAttrItem::Index(2)], false),
        method("a", true, vec![FfierAttrItem::Index(0)], false),
    ];
    let ms = extract_vtable_methods(&items, &vec![], &vec![]).ok().unwrap();
    let layout = vtable_layout(&ms, &vec![]);
    assert_eq!(layout, vec![VtableField::Method(1), VtableField::Reserved(1), VtableField::Method(0)]);
    assert_eq!(max_vtable_slot(&ms, &vec![]), 2);
    let none = vtable_layout(&vec![], &vec![]);
    assert!(none.is_empty());
    assert_eq!(max_vtable_slot(&vec![], &vec![]), 0);
    let raw_last = extract_vtable_methods(
        &vec![
            method("a", true, vec![FfierAttrItem::Index(0)], false),
            method("r", true, vec![FfierAttrItem::Index(4), FfierAttrItem::RawHandle], false),
        ],
        &vec![],
        &vec![],
    )
    .ok()
    .unwrap();
    assert_eq!(vtable_layout(&raw_last, &vec![]), vec![VtableField::Method(0)]);
    assert_eq!(max_vtable_slot(&raw_last, &vec![]), 4);
}

#[test]
fn param_dispatch_read_until_other_key() {
    let d = |s: &str| FfierAttrItem::Dispatch(s.to_string());
    assert_eq!(parse_ffier_param_dispatch(&[]), None);
    assert_eq!(parse_ffier_param_dispatch(&[ParamAttr::Other]), None);
    assert_eq!(parse_ffier_param_dispatch(&[ParamAttr::Ffier(vec![d("vtable")])]).as_deref(), Some("vtable"));
    assert_eq!(
        parse_ffier_param_dispatch(&[ParamAttr::Ffier(vec![d("vtable"), d("concrete")])]).as_deref(),
        Some("concrete")
    );
    assert_eq!(
        parse_ffier_param_dispatch(&[ParamAttr::Ffier(vec![d("vtable"), FfierAttrItem::Skip, d("concrete")])]).as_deref(),
        Some("vtable")
    );
    assert_eq!(
        parse_ffier_param_dispatch(&[
            ParamAttr::Ffier(vec![d("concrete")]),
            ParamAttr::Other,
            ParamAttr::Ffier(vec![FfierAttrItem::Index(2), d("vtable")]),
        ])
        .as_deref(),
        Some("concrete")
    );
}
