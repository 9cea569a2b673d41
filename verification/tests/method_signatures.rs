use ffier::convert::MetaReceiver;
use ffier::method_sig::{
    extract_doc_comments, parse_method_sig, BridgeType, DocAttr, MethodSig, ParamKindInfo, ReturnInfo, RustType, SigInput, SigParam, SigReceiver,
};
use ffier::syntax::{GenericArgument, PathArguments, PathSegment, TypeBound, TypeExpr, TypePath, TypeReference};
use ffier::type_ops::{copy_type, is_self_return, replace_self_type, type_eq};

fn ident(name: &str) -> TypeExpr {
    TypeExpr::Path(TypePath { segments: vec![PathSegment { ident: name.to_string(), arguments: PathArguments::Bare }] })
}

fn generic(name: &str, args: Vec<GenericArgument>) -> TypeExpr {
    TypeExpr::Path(TypePath { segments: vec![PathSegment { ident: name.to_string(), arguments: PathArguments::AngleBracketed(args) }] })
}

fn reference(mutable: bool, elem: TypeExpr) -> TypeExpr {
    TypeExpr::Reference(TypeReference { lifetime: None, mutable, elem: Box::new(elem) })
}

fn lt_ref(lifetime: &str, elem: TypeExpr) -> TypeExpr {
    TypeExpr::Reference(TypeReference { lifetime: Some(lifetime.to_string()), mutable: false, elem: Box::new(elem) })
}

fn ty(t: TypeExpr) -> GenericArgument {
    GenericArgument::Type(t)
}

fn result(ok: TypeExpr, err: &str) -> TypeExpr {
    generic("Result", vec![ty(ok), ty(ident(err))])
}

fn typed(name: &str, t: TypeExpr) -> SigInput {
    SigInput::Typed(SigParam { name: Some(name.to_string()), ty: t, dispatch: None })
}

fn sig(name: &str, inputs: Vec<SigInput>, output: Option<TypeExpr>) -> MethodSig {
    MethodSig { name: name.to_string(), inputs, output, lifetimes: vec![], doc_lines: vec![" Doc.".to_string()] }
}

fn view_ty() -> TypeExpr {
    generic("View", vec![GenericArgument::Lifetime("a".to_string())])
}

fn view_static() -> TypeExpr {
    generic("View", vec![GenericArgument::Lifetime("static".to_string())])
}

#[test]
fn self_replaced_at_any_depth() {
    let t = TypeExpr::Tuple(vec![
        reference(true, ident("Self")),
        generic("Option", vec![ty(ident("Self"))]),
        TypeExpr::Slice(Box::new(ident("Self"))),
        TypeExpr::ImplTrait(vec![TypeBound::Trait(TypePath {
            segments: vec![PathSegment { ident: "Into".to_string(), arguments: PathArguments::AngleBracketed(vec![ty(ident("Self"))]) }],
        })]),
        ident("i32"),
    ]);
    let w = ident("Widget");
    let expected = TypeExpr::Tuple(vec![
        reference(true, ident("Widget")),
        generic("Option", vec![ty(ident("Widget"))]),
        TypeExpr::Slice(Box::new(ident("Widget"))),
        TypeExpr::ImplTrait(vec![TypeBound::Trait(TypePath {
            segments: vec![PathSegment { ident: "Into".to_string(), arguments: PathArguments::AngleBracketed(vec![ty(ident("Widget"))]) }],
        })]),
        ident("i32"),
    ]);
    let r = replace_self_type(&t, &w);
    assert!(type_eq(&r, &expected));
    assert!(!type_eq(&r, &t));
    assert!(type_eq(&copy_type(&t), &t));
    let not_self = TypeExpr::Path(TypePath {
        segments: vec![
            PathSegment { ident: "Self".to_string(), arguments: PathArguments::Bare },
            PathSegment { ident: "Item".to_string(), arguments: PathArguments::Bare },
        ],
    });
    assert!(type_eq(&replace_self_type(&not_self, &w), &not_self));
}

#[test]
fn self_returns() {
    let w = ident("Widget");
    assert!(is_self_return(&ident("Widget"), &w));
    assert!(is_self_return(&reference(true, ident("Widget")), &w));
    assert!(!is_self_return(&ident("Gadget"), &w));
    assert!(!is_self_return(&reference(false, reference(false, ident("Widget"))), &w));
    assert!(!type_eq(&lt_ref("a", ident("str")), &reference(false, ident("str"))));
}

#[test]
fn receivers_and_skipped_trait_methods() {
    let w = ident("Widget");
    let assoc = parse_method_sig(&sig("new", vec![], Some(ident("Self"))), Some(&w), Some(&w), false, false).unwrap();
    assert_eq!(assoc.receiver, MetaReceiver::NoSelf);
    assert!(!assoc.is_builder);
    assert!(matches!(assoc.ret, ReturnInfo::Value(ref p) if matches!(&p.bridge, BridgeType::Alias(t) if type_eq(t, &w))));
    assert!(parse_method_sig(&sig("make", vec![typed("x", ident("i32"))], None), None, None, false, false).is_none());
    let by_ref = parse_method_sig(
        &sig("name", vec![SigInput::Receiver(SigReceiver::SelfRef)], Some(lt_ref("a", ident("str")))),
        None,
        None,
        true,
        false,
    )
    .unwrap();
    assert_eq!(by_ref.receiver, MetaReceiver::Ref);
    assert!(by_ref.has_default);
    assert_eq!(by_ref.doc_lines, vec![" Doc.".to_string()]);
    assert_eq!(by_ref.ffi_name, "");
    let raw = parse_method_sig(&sig("raw", vec![typed("handle", ident("u64")), typed("x", ident("i32"))], None), None, None, false, true)
        .unwrap();
    assert_eq!(raw.receiver, MetaReceiver::NoSelf);
    assert_eq!(raw.params.len(), 1);
    assert_eq!(raw.params[0].name, "x");
}

#[test]
fn parameter_kinds() {
    let inputs = vec![
        SigInput::Receiver(SigReceiver::SelfMut),
        typed("sink", reference(true, TypeExpr::ImplTrait(vec![TypeBound::Trait(TypePath {
            segments: vec![PathSegment {
                ident: "Snapshot".to_string(),
                arguments: PathArguments::AngleBracketed(vec![GenericArgument::Lifetime("a".to_string())]),
            }],
        })]))),
        typed("parts", reference(false, TypeExpr::Slice(Box::new(reference(false, ident("str")))))),
        typed("other", reference(false, ident("Self"))),
        SigInput::Typed(SigParam { name: None, ty: ident("i32"), dispatch: None }),
    ];
    let m = parse_method_sig(&sig("take", inputs, None), Some(&view_ty()), Some(&view_static()), false, false).unwrap();
    assert_eq!(m.receiver, MetaReceiver::Mut);
    assert_eq!(m.params.len(), 3);
    match &m.params[0].kind {
        ParamKindInfo::ImplTrait { trait_name, dispatch, trait_lifetime_args } => {
            assert_eq!(trait_name, "Snapshot");
            assert_eq!(dispatch, "auto");
            assert_eq!(trait_lifetime_args, &vec!["a".to_string()]);
        }
        _ => panic!("expected impl Trait"),
    }
    assert!(matches!(m.params[1].kind, ParamKindInfo::StrSlice));
    assert!(m.params[1].types.is_none());
    assert!(matches!(m.params[2].kind, ParamKindInfo::Regular));
    let types = m.params[2].types.as_ref().unwrap();
    assert!(matches!(&types.bridge, BridgeType::Alias(t) if type_eq(t, &reference(false, view_static()))));
    assert!(matches!(&types.rust, RustType::Type(t) if type_eq(t, &reference(false, view_ty()))));
    assert!(matches!(m.ret, ReturnInfo::Void));
}

#[test]
fn builders_and_results() {
    let w = ident("Builder");
    let step = parse_method_sig(
        &sig("width", vec![SigInput::Receiver(SigReceiver::SelfMut), typed("w", ident("u32"))], Some(reference(true, ident("Self")))),
        Some(&w),
        Some(&w),
        false,
        false,
    )
    .unwrap();
    assert!(step.is_builder);
    assert!(matches!(step.ret, ReturnInfo::Void));
    assert!(matches!(&step.rust_ret, Some(t) if type_eq(t, &reference(true, ident("Builder")))));
    let fallible = parse_method_sig(
        &sig("build", vec![SigInput::Receiver(SigReceiver::SelfValue)], Some(result(ident("Self"), "BuildError"))),
        Some(&w),
        Some(&w),
        false,
        false,
    )
    .unwrap();
    assert!(fallible.is_builder);
    assert!(matches!(fallible.ret, ReturnInfo::Result { ok: None, ref err_ident } if err_ident == "BuildError"));
    let unit = parse_method_sig(
        &sig("flush", vec![SigInput::Receiver(SigReceiver::SelfRef)], Some(result(TypeExpr::Tuple(vec![]), "IoError"))),
        Some(&w),
        Some(&w),
        false,
        false,
    )
    .unwrap();
    assert!(!unit.is_builder);
    assert!(matches!(unit.ret, ReturnInfo::Result { ok: None, .. }));
    let raw = parse_method_sig(
        &sig("get", vec![typed("h", ident("u64"))], Some(result(lt_ref("a", ident("str")), "E"))),
        None,
        None,
        false,
        true,
    )
    .unwrap();
    match raw.ret {
        ReturnInfo::Result { ok: Some(p), err_ident } => {
            assert_eq!(err_ident, "E");
            assert!(matches!(&p.bridge, BridgeType::Erased(t) if type_eq(t, &lt_ref("a", ident("str")))));
        }
        _ => panic!("expected a result with an ok type"),
    }
}

#[test]
fn doc_comments_extracted_in_order() {
    let attrs = vec![
        DocAttr::Doc(" Adds two numbers.".to_string()),
        DocAttr::Other,
        DocAttr::Doc("".to_string()),
        DocAttr::Doc(" @param a first".to_string()),
    ];
    assert_eq!(extract_doc_comments(&attrs), vec![" Adds two numbers.".to_string(), "".to_string(), " @param a first".to_string()]);
    assert!(extract_doc_comments(&[DocAttr::Other]).is_empty());
}

#[test]
fn param_and_return_accessors() {
    let s = sig(
        "mix",
        vec![
            SigInput::Receiver(SigReceiver::SelfRef),
            typed("n", ident("u32")),
            typed("f", TypeExpr::ImplTrait(vec![TypeBound::Trait(TypePath {
                segments: vec![PathSegment { ident: "Fruit".to_string(), arguments: PathArguments::Bare }],
            })])),
        ],
        Some(ident("u64")),
    );
    let w = ident("Widget");
    let m = parse_method_sig(&s, Some(&w), Some(&w), false, false).unwrap();
    assert!(!m.params[0].is_impl_trait());
    assert!(m.params[1].is_impl_trait());
    assert!(matches!(m.params[0].bridge_type(), BridgeType::Alias(t) if type_eq(t, &ident("u32"))));
    assert!(matches!(m.params[0].rust_type(), RustType::Type(t) if type_eq(t, &ident("u32"))));
    assert!(matches!(m.ret_bridge_type(), Some(BridgeType::Alias(t)) if type_eq(t, &ident("u64"))));
    let v = parse_method_sig(&sig("reset", vec![SigInput::Receiver(SigReceiver::SelfMut)], None), Some(&w), Some(&w), false, false).unwrap();
    assert!(v.ret_bridge_type().is_none());
}
