use ffier::alias::{AliasContext, BridgeTokens};
use ffier::syntax::{GenericArgument, PathArguments, PathSegment, TypeExpr, TypePath, TypeReference};

fn ident(name: &str) -> TypeExpr {
    TypeExpr::Path(TypePath { segments: vec![PathSegment { ident: name.to_string(), arguments: PathArguments::Bare }] })
}

fn generic(name: &str, args: Vec<TypeExpr>) -> TypeExpr {
    TypeExpr::Path(TypePath {
        segments: vec![PathSegment {
            ident: name.to_string(),
            arguments: PathArguments::AngleBracketed(args.into_iter().map(GenericArgument::Type).collect()),
        }],
    })
}

fn reference(mutable: bool, elem: TypeExpr) -> TypeExpr {
    TypeExpr::Reference(TypeReference { lifetime: Some("a".to_string()), mutable, elem: Box::new(elem) })
}

#[test]
fn aliases_given_once_per_type() {
    let mut ctx = AliasContext::new("_ffier_widget".to_string());
    let v = generic("Vec", vec![ident("u8")]);
    let a = ctx.alias_tokens(&v);
    assert!(matches!(a, BridgeTokens::Alias(0)));
    let b = ctx.alias_tokens(&ident("Widget"));
    assert!(matches!(b, BridgeTokens::Alias(1)));
    let again = ctx.alias_tokens(&generic("Vec", vec![ident("u8")]));
    assert!(matches!(again, BridgeTokens::Alias(0)));
    let p = ctx.alias_tokens(&ident("u32"));
    assert!(matches!(&p, BridgeTokens::Primitive(n) if n == "u32"));
    assert_eq!(ctx.text(&a), "$crate::_ffier_widget::_Type0");
    assert_eq!(ctx.text(&p), "u32");
    let items = ctx.reexport_items_crate();
    let names: Vec<&str> = items.iter().map(|(n, _)| n.as_str()).collect();
    assert_eq!(names, vec!["_Type0", "_Type1"]);
    assert_eq!(ctx.helper_mod(), "_ffier_widget");
}

#[test]
fn bridge_tokens_make_references_static() {
    let mut ctx = AliasContext::new("_ffier_shop".to_string());
    let t = reference(true, TypeExpr::Slice(Box::new(ident("Fruit"))));
    let b = ctx.bridge_tokens(&t);
    assert_eq!(ctx.text(&b), "&'static mut [$crate::_ffier_shop::_Type0]");
    let s = ctx.bridge_tokens(&reference(false, ident("str")));
    assert_eq!(ctx.text(&s), "&'static str");
    let n = ctx.bridge_tokens(&reference(false, ident("i64")));
    assert_eq!(ctx.text(&n), "&'static i64");
    let f = ctx.bridge_tokens(&ident("Fruit"));
    assert_eq!(ctx.text(&f), "$crate::_ffier_shop::_Type0");
    assert_eq!(ctx.reexport_items_crate().len(), 1);
}
