use ffier::convert::MetaReceiver;
use ffier::impl_methods::{collect_exportable_methods, collect_trait_impl_methods, ExportItem, TraitImplItem};
use ffier::method_sig::{MethodSig, SigInput, SigParam, SigReceiver};
use ffier::syntax::{PathArguments, PathSegment, TypeExpr, TypePath};
use ffier::vtable_methods::FfierAttrItem;

fn named(name: &str) -> TypeExpr {
    TypeExpr::Path(TypePath { segments: vec![PathSegment { ident: name.to_string(), arguments: PathArguments::Bare }] })
}

fn signature(name: &str, receiver: Option<SigReceiver>, output: Option<TypeExpr>) -> MethodSig {
    let mut inputs = Vec::new();
    if let Some(r) = receiver {
        inputs.push(SigInput::Receiver(r));
    }
    inputs.push(SigInput::Typed(SigParam { name: Some("x".to_string()), ty: named("i32"), dispatch: None }));
    MethodSig { name: name.to_string(), inputs, output, lifetimes: vec![], doc_lines: vec![] }
}

#[test]
fn exportable_methods_named_and_filtered() {
    let items = vec![
        ExportItem { sig: signature("new", None, Some(named("Self"))), public: true },
        ExportItem { sig: signature("helper", Some(SigReceiver::SelfRef), None), public: false },
        ExportItem { sig: signature("add", Some(SigReceiver::SelfMut), None), public: true },
    ];
    let (ms, warnings) = collect_exportable_methods("MyCalculator", true, &items, &named("MyCalculator"), &named("MyCalculator"));
    let names: Vec<(&str, &str)> = ms.iter().map(|m| (m.name.as_str(), m.ffi_name.as_str())).collect();
    assert_eq!(names, vec![("new", "my_calculator_new"), ("add", "my_calculator_add")]);
    assert!(ms[0].receiver == MetaReceiver::NoSelf);
    assert!(ms[1].receiver == MetaReceiver::Mut);
    assert_eq!(warnings, vec!["ffier: skipping non-public method `helper`; make it `pub` to export via FFI".to_string()]);
}

#[test]
fn exportable_trait_impl_keeps_every_method() {
    let items = vec![ExportItem { sig: signature("describe", Some(SigReceiver::SelfRef), None), public: false }];
    let (ms, warnings) = collect_exportable_methods("Widget", false, &items, &named("Widget"), &named("Widget"));
    assert_eq!(ms.len(), 1);
    assert_eq!(ms[0].ffi_name, "widget_describe");
    assert!(warnings.is_empty());
}

#[test]
fn trait_impl_methods_skip_and_receivers() {
    let items = vec![
        TraitImplItem { sig: signature("value", Some(SigReceiver::SelfRef), Some(named("u32"))), attrs: vec![] },
        TraitImplItem { sig: signature("hidden", Some(SigReceiver::SelfRef), None), attrs: vec![FfierAttrItem::Skip] },
        TraitImplItem { sig: signature("make", None, None), attrs: vec![] },
        TraitImplItem { sig: signature("peek", None, None), attrs: vec![FfierAttrItem::RawHandle] },
    ];
    let ms = collect_trait_impl_methods(&items).ok().unwrap();
    let names: Vec<&str> = ms.iter().map(|m| m.name.as_str()).collect();
    assert_eq!(names, vec!["value", "peek"]);
    assert!(!ms[0].raw_handle);
    assert!(ms[1].raw_handle);
    assert!(ms[1].ffi_name.is_empty());
}

#[test]
fn trait_impl_unknown_key_refused() {
    let items = vec![
        TraitImplItem { sig: signature("value", Some(SigReceiver::SelfRef), None), attrs: vec![] },
        TraitImplItem { sig: signature("other", Some(SigReceiver::SelfRef), None), attrs: vec![FfierAttrItem::Unknown("rename".to_string())] },
    ];
    match collect_trait_impl_methods(&items) {
        Err(msg) => assert_eq!(msg, "unknown #[ffier] key `rename`"),
        Ok(_) => panic!("an unknown key is refused"),
    }
}
