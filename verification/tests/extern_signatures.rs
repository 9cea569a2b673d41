use ffier::bridge_sig::{CRetTokens, CTypeTokens};
use ffier::convert::MetaReceiver;
use ffier::gen_c::{c_out_param_type, c_param_type, c_return_type, c_signature_for_method, CSigMethod, CSigParam, CSigParamKind, CSigReturn, SigType, SignatureContext};

fn ty(bridge: &str, client: &str) -> SigType {
    SigType { bridge_type: bridge.to_string(), client_type: client.to_string() }
}

fn divide() -> CSigMethod {
    CSigMethod {
        ffi_name: "calculator_divide".to_string(),
        receiver: MetaReceiver::Ref,
        is_builder: false,
        params: vec![
            CSigParam { name: "a".to_string(), kind: CSigParamKind::Regular(ty("i32", "i32")) },
            CSigParam { name: "names".to_string(), kind: CSigParamKind::StrSlice },
            CSigParam { name: "fruit".to_string(), kind: CSigParamKind::ImplTrait },
        ],
        ret: CSigReturn::Result { ok: Some(ty("$crate::_ffier_calculator::_Type0", "View<'static>")) },
    }
}

#[test]
fn extern_signature_for_each_side() {
    let b = c_signature_for_method(&divide(), "mylib", SignatureContext::Bridge);
    assert_eq!(b.fn_name, "mylib_calculator_divide");
    let names: Vec<&str> = b.params.iter().map(|p| p.name.as_str()).collect();
    assert_eq!(names, vec!["handle", "a", "names", "names_len", "fruit", "result"]);
    assert_eq!(b.params[0].c_type, CTypeTokens::VoidPtr);
    assert_eq!(b.params[1].c_type, CTypeTokens::Repr("i32".to_string()));
    assert_eq!(b.params[2].c_type, CTypeTokens::BytesPtr);
    assert_eq!(b.params[3].c_type, CTypeTokens::Usize);
    assert_eq!(b.params[4].c_type, CTypeTokens::VoidPtr);
    assert_eq!(b.params[5].c_type, CTypeTokens::OutRepr("$crate::_ffier_calculator::_Type0".to_string()));
    assert_eq!(b.ret, CRetTokens::FfierError);
    let c = c_signature_for_method(&divide(), "mylib", SignatureContext::Client);
    assert_eq!(c.params[5].c_type, CTypeTokens::OutRepr("View<'static>".to_string()));
    assert_eq!(c.params.len(), b.params.len());
}

#[test]
fn extern_signature_builder_handle_indirect() {
    let m = CSigMethod {
        ffi_name: "builder_with_name".to_string(),
        receiver: MetaReceiver::Value,
        is_builder: true,
        params: vec![],
        ret: CSigReturn::Value(ty("u8", "u8")),
    };
    let s = c_signature_for_method(&m, "ex", SignatureContext::Bridge);
    assert_eq!(s.params[0].c_type, CTypeTokens::VoidPtrPtr);
    assert_eq!(s.ret, CRetTokens::Repr("u8".to_string()));
    let f = CSigMethod { ffi_name: "version".to_string(), receiver: MetaReceiver::NoSelf, is_builder: false, params: vec![], ret: CSigReturn::Void };
    let s2 = c_signature_for_method(&f, "ex", SignatureContext::Client);
    assert!(s2.params.is_empty());
    assert_eq!(s2.ret, CRetTokens::Void);
}

#[test]
fn c_types_pick_the_side() {
    let t = ty("$crate::m::_Type1", "Gadget");
    assert_eq!(c_param_type(&CSigParamKind::Regular(ty("B", "C")), SignatureContext::Client), CTypeTokens::Repr("C".to_string()));
    assert_eq!(c_return_type(&t, SignatureContext::Bridge), CRetTokens::Repr("$crate::m::_Type1".to_string()));
    assert_eq!(c_out_param_type(&t, SignatureContext::Client), CTypeTokens::OutRepr("Gadget".to_string()));
}
